use indexify::api::EmbeddingSchema;
use indexify::api::GetNamespaceResponse;
use indexify::api::IndexDistance;
use indexify::api::ListNamespacesResponse;
use indexify::api::DataNamespace;
use indexify::file::decoder_for;
use indexify::file::Decoder;
use indexify::file::File;
use indexify::file::FileError;
use indexify::output::display;
use indexify::output::str_leq;
use indexify::output::Format;
use indexify::text::join_sep;
use indexify::text::str_eq;
use indexify::text::u64_to_string;

#[test]
fn default_format_is_pretty() {
    assert_eq!(Format::default(), Format::Pretty);
}

#[test]
fn display_sorts_and_joins_lines() {
    let values = vec!["pear".to_string(), "apple".to_string(), "orange".to_string()];
    assert_eq!(display(&values), "apple\norange\npear");
}

#[test]
fn display_keeps_duplicates() {
    let values = vec!["b".to_string(), "a".to_string(), "b".to_string()];
    assert_eq!(display(&values), "a\nb\nb");
}

#[test]
fn display_of_nothing_is_empty() {
    assert_eq!(display(&vec![]), "");
}

#[test]
fn string_order_is_lexicographic() {
    assert!(str_leq("abc", "abd"));
    assert!(str_leq("ab", "abc"));
    assert!(!str_leq("b", "a"));
    assert!(str_leq("", "a"));
    assert!(str_leq("same", "same"));
}

#[test]
fn string_equality_compares_content() {
    assert!(str_eq("abc", "abc"));
    assert!(!str_eq("abc", "abd"));
    assert!(!str_eq("abc", "ab"));
    assert!(str_eq("", ""));
}

#[test]
fn join_sep_places_separators_between_elements() {
    let v = vec!["a".to_string(), "b".to_string(), "c".to_string()];
    assert_eq!(join_sep(&v, ", "), "a, b, c");
    assert_eq!(join_sep(&vec!["x".to_string()], ","), "x");
    assert_eq!(join_sep(&vec![], ","), "");
}

#[test]
fn decimal_rendering_is_exact() {
    assert_eq!(u64_to_string(0), "0");
    assert_eq!(u64_to_string(7), "7");
    assert_eq!(u64_to_string(384), "384");
    assert_eq!(u64_to_string(18446744073709551615), "18446744073709551615");
}

#[test]
fn embedding_schema_renders_dimension_and_distance() {
    let schema = EmbeddingSchema { dim: 384, distance: IndexDistance::Cosine };
    assert_eq!(schema.display_string(), "384-cosine");
    let schema = EmbeddingSchema { dim: 768, distance: IndexDistance::Dot };
    assert_eq!(schema.display_string(), "768-dot");
}

#[test]
fn distance_wire_names() {
    assert_eq!(IndexDistance::Dot.as_str(), "dot");
    assert_eq!(IndexDistance::Cosine.as_str(), "cosine");
    assert_eq!(IndexDistance::Euclidean.as_str(), "euclidean");
    assert_eq!(IndexDistance::default(), IndexDistance::Dot);
}

#[test]
fn decoder_selection_follows_the_subtype() {
    assert_eq!(decoder_for(Some("x-yaml")), Ok(Decoder::Yaml));
    assert_eq!(decoder_for(Some("json")), Ok(Decoder::Json));
    assert_eq!(
        decoder_for(Some("pdf")),
        Err(FileError::Unsupported { subtype: "pdf".to_string() })
    );
    assert_eq!(decoder_for(None), Err(FileError::NotDetected));
}

#[test]
fn file_argument_defaults_to_empty() {
    let f: File<u64> = File::default();
    assert!(matches!(f, File::Empty));
}

#[test]
fn listing_responses_expose_their_items() {
    let ns = DataNamespace { name: "a".to_string(), extraction_graphs: vec![] };
    let listed = ListNamespacesResponse { namespaces: vec![ns.clone()] };
    assert_eq!(listed.items(), vec![ns.clone()]);
    let got = GetNamespaceResponse { namespace: ns.clone() };
    assert_eq!(got.item(), ns);
}

#[test]
fn namespace_display_name() {
    let ns = DataNamespace { name: "team".to_string(), extraction_graphs: vec![] };
    assert_eq!(ns.display_name(), "team");
}

#[test]
fn distance_names_parse_back() {
    assert_eq!(IndexDistance::parse("dot"), Some(IndexDistance::Dot));
    assert_eq!(IndexDistance::parse("cosine"), Some(IndexDistance::Cosine));
    assert_eq!(IndexDistance::parse("euclidean"), Some(IndexDistance::Euclidean));
    assert_eq!(IndexDistance::parse("manhattan"), None);
    assert_eq!(IndexDistance::parse(""), None);
}
