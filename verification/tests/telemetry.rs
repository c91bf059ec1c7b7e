use indexify::telemetry::posthog::EventMeta;
use indexify::telemetry::posthog::Posthog;
use indexify::telemetry::posthog::PropValue;
use indexify::telemetry::posthog::Props;
use indexify::telemetry::posthog::Visitor;
use indexify::telemetry::user_id_from_machine_id;
use indexify::telemetry::Telemetry;

fn last_value<'a>(props: &'a Props, key: &str) -> Option<&'a PropValue> {
    props.entries.iter().rev().find(|(k, _)| k.as_str() == key).map(|(_, v)| v)
}

#[test]
fn user_id_is_a_hyphenated_hex_tag() {
    let id = user_id_from_machine_id("0123456789abcdef");
    assert_eq!(id.len(), 36);
    let bytes: Vec<char> = id.chars().collect();
    for (i, c) in bytes.iter().enumerate() {
        if i == 8 || i == 13 || i == 18 || i == 23 {
            assert_eq!(*c, '-');
        } else {
            assert!(c.is_ascii_hexdigit() && !c.is_ascii_uppercase());
        }
    }
}

#[test]
fn user_id_is_stable_and_not_the_machine_id() {
    let a = user_id_from_machine_id("machine-a");
    let b = user_id_from_machine_id("machine-a");
    assert_eq!(a, b);
    assert_ne!(a, "machine-a");
    let other = user_id_from_machine_id("machine-b");
    assert_ne!(a, other);
}

#[test]
fn posthog_names_default_to_the_application() {
    let ph = Posthog::new("k");
    assert_eq!(ph.api_key, "k");
    assert_eq!(ph.on_span, "indexify::activity");
    assert_eq!(ph.on_event, "indexify::event");
}

#[test]
fn posthog_names_can_be_overridden() {
    let ph = Posthog::new("k").with_names("s", "e");
    assert_eq!(ph.on_span, "s");
    assert_eq!(ph.on_event, "e");
}

fn meta() -> EventMeta {
    EventMeta {
        name: "content::download".to_string(),
        level: "info".to_string(),
        module: "cli::content".to_string(),
    }
}

#[test]
fn props_carry_the_record_metadata() {
    let ph = Posthog::new("k");
    let visitor = Visitor::new();
    let props = ph.props(&meta(), &visitor);
    assert_eq!(
        last_value(&props, "name"),
        Some(&PropValue::Str("content::download".to_string()))
    );
    assert_eq!(last_value(&props, "level"), Some(&PropValue::Str("info".to_string())));
    assert_eq!(
        last_value(&props, "module"),
        Some(&PropValue::Str("cli::content".to_string()))
    );
    assert_eq!(
        last_value(&props, "$lib"),
        Some(&PropValue::Str("telemetry/rust".to_string()))
    );
    assert_eq!(last_value(&props, "version"), Some(&PropValue::Str("0.1.0".to_string())));
    assert_eq!(last_value(&props, "$screen_name"), None);
}

#[test]
fn recorded_activity_becomes_the_screen_name() {
    let ph = Posthog::new("k");
    let mut visitor = Visitor::new();
    visitor.record_str("activity", "content::download");
    let props = ph.props(&meta(), &visitor);
    assert_eq!(
        last_value(&props, "$screen_name"),
        Some(&PropValue::Str("content::download".to_string()))
    );
}

#[test]
fn recorded_fields_override_metadata() {
    let ph = Posthog::new("k");
    let mut visitor = Visitor::new();
    visitor.record_str("level", "warning");
    visitor.record_u64("attempt", 3);
    visitor.record_bool("cached", false);
    visitor.record_i64("offset", -5);
    let props = ph.props(&meta(), &visitor);
    assert_eq!(last_value(&props, "level"), Some(&PropValue::Str("warning".to_string())));
    assert_eq!(last_value(&props, "attempt"), Some(&PropValue::U64(3)));
    assert_eq!(last_value(&props, "cached"), Some(&PropValue::Bool(false)));
    assert_eq!(last_value(&props, "offset"), Some(&PropValue::I64(-5)));
}

#[test]
fn rendered_self_field_is_skipped() {
    let mut visitor = Visitor::new();
    visitor.record_rendered("self", "Download { .. }");
    assert!(visitor.fields.is_empty());
    visitor.record_rendered("error", "connection refused");
    assert_eq!(visitor.fields.len(), 1);
    assert_eq!(visitor.fields[0].0.as_str(), "error");
}

#[test]
fn events_take_the_backend_names() {
    let ph = Posthog::new("k");
    let visitor = Visitor::new();
    let span = ph.span_event("u1".to_string(), &meta(), &visitor);
    assert_eq!(span.name, "indexify::activity");
    assert_eq!(span.user_id, "u1");
    let err = ph.error_event("u1".to_string(), &meta(), &visitor);
    assert_eq!(err.name, "indexify::event");
}

#[test]
fn telemetry_watches_what_it_is_told_to() {
    let layer = Telemetry::new(Posthog::new("k"), "u1".to_string());
    assert!(layer.interested(true, false));
    assert!(layer.interested(false, true));
    assert!(!layer.interested(false, false));
    assert_eq!(layer.user_id, "u1");
}

#[test]
fn props_hold_no_unexpected_keys() {
    let ph = Posthog::new("k");
    let mut visitor = Visitor::new();
    visitor.record_str("activity", "graph::list");
    visitor.record_u64("attempt", 2);
    let props = ph.props(&meta(), &visitor);
    let allowed = ["name", "$lib", "level", "module", "version", "$screen_name", "activity",
        "attempt"];
    for (key, _) in &props.entries {
        assert!(allowed.contains(&key.as_str()), "unexpected property key");
    }
}

#[test]
fn event_properties_are_the_shaped_record() {
    let ph = Posthog::new("k");
    let mut visitor = Visitor::new();
    visitor.record_str("activity", "content::download");
    let span = ph.span_event("u1".to_string(), &meta(), &visitor);
    assert_eq!(
        last_value(&span.properties, "$screen_name"),
        Some(&PropValue::Str("content::download".to_string()))
    );
    assert_eq!(
        last_value(&span.properties, "name"),
        Some(&PropValue::Str("content::download".to_string()))
    );
}
