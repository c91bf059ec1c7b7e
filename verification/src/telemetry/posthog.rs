//! Shaping watched records into capture events.
//!
//! A record's metadata and recorded fields are turned into a flat property
//! list.  Properties are an ordered list of key–value entries where a
//! later entry overrides an earlier one, which is exactly how the recorded
//! fields of a record override the fixed metadata properties.

use vstd::prelude::*;
use vstd::string::StrSliceExecFns;
use vstd::string::StringExecFns;

use crate::telemetry::Event;
use crate::telemetry::Handler;
use crate::text::str_eq;

verus! {

/// The version reported with every event.
pub const VERSION: &'static str = "0.1.0";

/// The suffix of the event name used for activity spans.
pub const ON_SPAN: &'static str = "activity";

/// The suffix of the event name used for error records.
pub const ON_EVENT: &'static str = "event";

/// One property value: a string, an integer of either sign, or a flag.
#[derive(Debug, PartialEq, Eq)]
pub enum PropValue {
    Str(String),
    U64(u64),
    I64(i64),
    Bool(bool),
}

/// An ordered property list; a later entry overrides an earlier one of
/// the same key.
#[derive(Debug, Clone)]
pub struct Props {
    pub entries: Vec<(String, PropValue)>,
}

/// Whether some entry carries the given key.
pub open spec fn has_key(entries: Seq<(String, PropValue)>, k: Seq<char>) -> bool {
    exists|i: int| 0 <= i < entries.len() && entries[i].0@ == k
}

/// The effective value of a key: the value of its last entry.
pub open spec fn value_of(entries: Seq<(String, PropValue)>, k: Seq<char>) -> Option<PropValue>
    decreases entries.len(),
{
    if entries.len() == 0 {
        None
    } else if entries.last().0@ == k {
        Some(entries.last().1)
    } else {
        value_of(entries.drop_last(), k)
    }
}

/// The value of a key over appended entries: whatever the appended part
/// says where it knows the key, else whatever the base says.
pub proof fn lemma_value_of_append(a: Seq<(String, PropValue)>, b: Seq<(String, PropValue)>, k: Seq<char>)
    ensures
        value_of(a + b, k) == (if has_key(b, k) {
            value_of(b, k)
        } else {
            value_of(a, k)
        }),
    decreases b.len(),
{
    if b.len() == 0 {
        assert(a + b =~= a);
    } else {
        assert((a + b).drop_last() =~= a + b.drop_last());
        assert((a + b).last() == b.last());
        lemma_value_of_append(a, b.drop_last(), k);
        if b.last().0@ == k {
        } else {
            assert(has_key(b, k) == has_key(b.drop_last(), k)) by {
                if has_key(b, k) {
                    let i = choose|i: int| 0 <= i < b.len() && b[i].0@ == k;
                    assert(i < b.len() - 1);
                    assert(b.drop_last()[i].0@ == k);
                }
                if has_key(b.drop_last(), k) {
                    let i = choose|i: int| 0 <= i < b.drop_last().len() && b.drop_last()[i].0@ == k;
                    assert(b[i].0@ == k);
                }
            }
        }
    }
}

/// The effective value of a key whose last entry stands at position `i`.
pub proof fn lemma_value_of_at(entries: Seq<(String, PropValue)>, k: Seq<char>, i: int)
    requires
        0 <= i < entries.len(),
        entries[i].0@ == k,
        forall|j: int| i < j < entries.len() ==> entries[j].0@ != k,
    ensures
        value_of(entries, k) == Some(entries[i].1),
    decreases entries.len(),
{
    if i == entries.len() - 1 {
    } else {
        assert(entries.drop_last()[i] == entries[i]);
        lemma_value_of_at(entries.drop_last(), k, i);
    }
}

/// A key has an effective value exactly when some entry carries it.
pub proof fn lemma_value_of_some(entries: Seq<(String, PropValue)>, k: Seq<char>)
    ensures
        value_of(entries, k) is Some <==> has_key(entries, k),
    decreases entries.len(),
{
    if entries.len() > 0 {
        lemma_value_of_some(entries.drop_last(), k);
        if entries.last().0@ == k {
            assert(entries[entries.len() - 1].0@ == k);
        } else if has_key(entries, k) {
            let i = choose|i: int| 0 <= i < entries.len() && entries[i].0@ == k;
            assert(entries.drop_last()[i].0@ == k);
        } else if has_key(entries.drop_last(), k) {
            let i = choose|i: int|
                0 <= i < entries.drop_last().len() && entries.drop_last()[i].0@ == k;
            assert(entries[i].0@ == k);
        }
    }
}

/// Cloning keeps a property value exactly.
impl Clone for PropValue {
    fn clone(&self) -> (r: Self)
        ensures
            r == *self,
    {
        match self {
            PropValue::Str(s) => PropValue::Str(s.clone()),
            PropValue::U64(v) => PropValue::U64(*v),
            PropValue::I64(v) => PropValue::I64(*v),
            PropValue::Bool(v) => PropValue::Bool(*v),
        }
    }
}

/// Whether a key is one the property shaping itself writes, as opposed
/// to one coming from a recorded field.
pub open spec fn fixed_prop_key(k: Seq<char>) -> bool {
    ||| k == "name"@
    ||| k == "$lib"@
    ||| k == "level"@
    ||| k == "module"@
    ||| k == "version"@
    ||| k == "$screen_name"@
}

/// What the property list of a watched record holds, given the record's
/// metadata and recorded fields: the record's name, level and module, the
/// reporting library and version, the activity name under `$screen_name`
/// exactly when an activity field was recorded, every recorded field —
/// recorded fields overriding the fixed keys — and nothing else.
pub open spec fn props_shaped(
    entries: Seq<(String, PropValue)>,
    meta: EventMeta,
    fields: Seq<(String, PropValue)>,
) -> bool {
    &&& forall|k: Seq<char>|
        has_key(fields, k) ==> #[trigger] value_of(entries, k) == value_of(fields, k)
    &&& !has_key(fields, "name"@) ==> value_of(entries, "name"@) == Some(
        PropValue::Str(meta.name),
    )
    &&& !has_key(fields, "level"@) ==> value_of(entries, "level"@) == Some(
        PropValue::Str(meta.level),
    )
    &&& !has_key(fields, "module"@) ==> value_of(entries, "module"@) == Some(
        PropValue::Str(meta.module),
    )
    &&& !has_key(fields, "$lib"@) ==> (match value_of(entries, "$lib"@) {
        Some(PropValue::Str(s)) => s@ == "telemetry/rust"@,
        _ => false,
    })
    &&& !has_key(fields, "version"@) ==> (match value_of(entries, "version"@) {
        Some(PropValue::Str(s)) => s@ == VERSION@,
        _ => false,
    })
    &&& !has_key(fields, "$screen_name"@) && has_key(fields, crate::telemetry::FIELD@)
        ==> value_of(entries, "$screen_name"@) == value_of(fields, crate::telemetry::FIELD@)
    &&& !has_key(fields, "$screen_name"@) && !has_key(fields, crate::telemetry::FIELD@)
        ==> value_of(entries, "$screen_name"@) is None
    &&& forall|k: Seq<char>|
        #[trigger] value_of(entries, k) is Some ==> fixed_prop_key(k) || has_key(fields, k)
}

/// The recorded fields of one watched record, in recording order.
#[derive(Debug, Clone)]
pub struct Visitor {
    pub fields: Vec<(String, PropValue)>,
}

impl Visitor {
    /// A visitor that has recorded nothing yet.
    pub fn new() -> (r: Visitor)
        ensures
            r.fields@ == Seq::<(String, PropValue)>::empty(),
    {
        Visitor { fields: Vec::new() }
    }

    /// Record a string field.
    pub fn record_str(&mut self, name: &str, value: &str)
        ensures
            final(self).fields@.len() == old(self).fields@.len() + 1,
            final(self).fields@.last().0@ == name@,
            final(self).fields@.last().1 matches PropValue::Str(s) && s@ == value@,
            final(self).fields@.take(old(self).fields@.len() as int) == old(self).fields@,
    {
        let ghost before = self.fields@;
        self.fields.push((name.to_owned(), PropValue::Str(value.to_owned())));
        proof {
            assert(self.fields@.take(before.len() as int) =~= before);
        }
    }

    /// Record an unsigned integer field.
    pub fn record_u64(&mut self, name: &str, value: u64)
        ensures
            final(self).fields@.len() == old(self).fields@.len() + 1,
            final(self).fields@.last().0@ == name@,
            final(self).fields@.last().1 == PropValue::U64(value),
            final(self).fields@.take(old(self).fields@.len() as int) == old(self).fields@,
    {
        let ghost before = self.fields@;
        self.fields.push((name.to_owned(), PropValue::U64(value)));
        proof {
            assert(self.fields@.take(before.len() as int) =~= before);
        }
    }

    /// Record a signed integer field.
    pub fn record_i64(&mut self, name: &str, value: i64)
        ensures
            final(self).fields@.len() == old(self).fields@.len() + 1,
            final(self).fields@.last().0@ == name@,
            final(self).fields@.last().1 == PropValue::I64(value),
            final(self).fields@.take(old(self).fields@.len() as int) == old(self).fields@,
    {
        let ghost before = self.fields@;
        self.fields.push((name.to_owned(), PropValue::I64(value)));
        proof {
            assert(self.fields@.take(before.len() as int) =~= before);
        }
    }

    /// Record a flag field.
    pub fn record_bool(&mut self, name: &str, value: bool)
        ensures
            final(self).fields@.len() == old(self).fields@.len() + 1,
            final(self).fields@.last().0@ == name@,
            final(self).fields@.last().1 == PropValue::Bool(value),
            final(self).fields@.take(old(self).fields@.len() as int) == old(self).fields@,
    {
        let ghost before = self.fields@;
        self.fields.push((name.to_owned(), PropValue::Bool(value)));
        proof {
            assert(self.fields@.take(before.len() as int) =~= before);
        }
    }

    /// Record an already-rendered debug field — unless it is the record's
    /// own `self`, which is skipped.
    pub fn record_rendered(&mut self, name: &str, rendered: &str)
        ensures
            name@ == "self"@ ==> final(self).fields@ == old(self).fields@,
            name@ != "self"@ ==> ({
                &&& final(self).fields@.len() == old(self).fields@.len() + 1
                &&& final(self).fields@.last().0@ == name@
                &&& final(self).fields@.last().1 matches PropValue::Str(s) && s@ == rendered@
                &&& final(self).fields@.take(old(self).fields@.len() as int) == old(self).fields@
            }),
    {
        if str_eq(name, "self") {
            return ;
        }
        let ghost before = self.fields@;
        self.fields.push((name.to_owned(), PropValue::Str(rendered.to_owned())));
        proof {
            assert(self.fields@.take(before.len() as int) =~= before);
        }
    }

    /// Fold these fields into a property list; each field overrides any
    /// earlier property of the same key.
    pub fn merge(&self, props: &mut Props)
        ensures
            final(props).entries@ == old(props).entries@ + self.fields@,
    {
        let n = self.fields.len();
        let ghost base = props.entries@;
        for i in 0..n
            invariant
                n == self.fields@.len(),
                props.entries@ == base + self.fields@.take(i as int),
        {
            let pair = (self.fields[i].0.clone(), self.fields[i].1.clone());
            props.entries.push(pair);
            proof {
                assert((base + self.fields@.take(i as int)).push(self.fields@[i as int]) =~= base
                    + self.fields@.take(i as int + 1));
            }
        }
        proof {
            assert(self.fields@.take(n as int) =~= self.fields@);
        }
    }
}

/// The metadata of one watched record, as plain values.
#[derive(Debug, Clone)]
pub struct EventMeta {
    pub name: String,
    pub level: String,
    pub module: String,
}

/// The capture backend's credentials and event names.
#[derive(Debug, Clone)]
pub struct Posthog {
    pub api_key: String,
    pub on_span: String,
    pub on_event: String,
}

/// An event name: the application name, two colons, the given suffix.
pub open spec fn event_name(suffix: Seq<char>) -> Seq<char> {
    crate::telemetry::NAME@ + "::"@ + suffix
}

impl Posthog {
    /// A backend under the given key, with the default activity and error
    /// event names.
    pub fn new(api_key: &str) -> (r: Posthog)
        ensures
            r.api_key@ == api_key@,
            r.on_span@ == event_name(ON_SPAN@),
            r.on_event@ == event_name(ON_EVENT@),
    {
        let mut on_span = crate::telemetry::NAME.to_owned();
        on_span.append("::");
        on_span.append(ON_SPAN);
        let mut on_event = crate::telemetry::NAME.to_owned();
        on_event.append("::");
        on_event.append(ON_EVENT);
        Posthog { api_key: api_key.to_owned(), on_span, on_event }
    }

    /// The same backend with the given activity and error event names.
    pub fn with_names(self, on_span: &str, on_event: &str) -> (r: Posthog)
        ensures
            r.api_key == self.api_key,
            r.on_span@ == on_span@,
            r.on_event@ == on_event@,
    {
        Posthog { on_span: on_span.to_owned(), on_event: on_event.to_owned(), ..self }
    }

    /// The property list of one watched record: the record's name, level
    /// and module, the reporting library and version, the activity name
    /// under `$screen_name` when one was recorded, and every recorded
    /// field, overriding any of those — and nothing else.
    pub fn props(&self, meta: &EventMeta, visitor: &Visitor) -> (r: Props)
        ensures
            props_shaped(r.entries@, *meta, visitor.fields@),
    {
        let mut props = Props { entries: Vec::new() };
        props.entries.push((String::from_str("name"), PropValue::Str(meta.name.clone())));
        props.entries.push(
            (String::from_str("$lib"), PropValue::Str(String::from_str("telemetry/rust"))),
        );
        props.entries.push((String::from_str("level"), PropValue::Str(meta.level.clone())));
        props.entries.push((String::from_str("module"), PropValue::Str(meta.module.clone())));
        props.entries.push((String::from_str("version"), PropValue::Str(VERSION.to_owned())));
        let screen = lookup(&visitor.fields, crate::telemetry::FIELD);
        match screen {
            Some(v) => {
                props.entries.push((String::from_str("$screen_name"), v));
            },
            None => {},
        }
        let ghost fixed = props.entries@;
        visitor.merge(&mut props);
        proof {
            reveal_strlit("name");
            reveal_strlit("$lib");
            reveal_strlit("level");
            reveal_strlit("module");
            reveal_strlit("version");
            reveal_strlit("$screen_name");
            assert forall|k: Seq<char>|
                has_key(visitor.fields@, k) implies #[trigger] value_of(props.entries@, k)
                == value_of(visitor.fields@, k) by {
                lemma_value_of_append(fixed, visitor.fields@, k);
            }
            lemma_value_of_append(fixed, visitor.fields@, "name"@);
            lemma_value_of_append(fixed, visitor.fields@, "level"@);
            lemma_value_of_append(fixed, visitor.fields@, "module"@);
            lemma_value_of_append(fixed, visitor.fields@, "$lib"@);
            lemma_value_of_append(fixed, visitor.fields@, "version"@);
            lemma_value_of_append(fixed, visitor.fields@, "$screen_name"@);
            lemma_value_of_some(visitor.fields@, crate::telemetry::FIELD@);
            assert(5 <= fixed.len() <= 6);
            assert(fixed[0].0@ == "name"@);
            assert(fixed[1].0@ == "$lib"@);
            assert(fixed[2].0@ == "level"@);
            assert(fixed[3].0@ == "module"@);
            assert(fixed[4].0@ == "version"@);
            assert(fixed.len() == 6 ==> fixed[5].0@ == "$screen_name"@);
            assert("name"@ != "$lib"@) by {
                assert("name"@[0] == 'n');
                assert("$lib"@[0] == '$');
            }
            lemma_value_of_at(fixed, "name"@, 0);
            lemma_value_of_at(fixed, "$lib"@, 1);
            lemma_value_of_at(fixed, "level"@, 2);
            lemma_value_of_at(fixed, "module"@, 3);
            lemma_value_of_at(fixed, "version"@, 4);
            if fixed.len() == 6 {
                lemma_value_of_at(fixed, "$screen_name"@, 5);
            } else {
                lemma_value_of_some(fixed, "$screen_name"@);
                assert(!has_key(fixed, "$screen_name"@)) by {
                    if has_key(fixed, "$screen_name"@) {
                        let i = choose|i: int| 0 <= i < fixed.len() && fixed[i].0@
                            == "$screen_name"@;
                        assert("$screen_name"@.len() == 12);
                    }
                }
            }
            assert forall|k: Seq<char>| #[trigger] value_of(props.entries@, k) is Some implies
                fixed_prop_key(k) || has_key(visitor.fields@, k) by {
                lemma_value_of_append(fixed, visitor.fields@, k);
                if !has_key(visitor.fields@, k) {
                    lemma_value_of_some(fixed, k);
                    let i = choose|i: int| 0 <= i < fixed.len() && fixed[i].0@ == k;
                    assert(fixed_prop_key(fixed[i].0@));
                }
            }
        }
        props
    }

    /// The event of one activity span: named for activity, keyed by the
    /// given identifier, carrying the record's shaped properties.
    pub fn span_event(&self, user_id: String, meta: &EventMeta, visitor: &Visitor) -> (r: Event)
        ensures
            r.name == self.on_span,
            r.user_id == user_id,
            props_shaped(r.properties.entries@, *meta, visitor.fields@),
    {
        Event { name: self.on_span.clone(), user_id, properties: self.props(meta, visitor) }
    }

    /// The event of one error record: named for errors, keyed by the given
    /// identifier, carrying the record's shaped properties.
    pub fn error_event(&self, user_id: String, meta: &EventMeta, visitor: &Visitor) -> (r: Event)
        ensures
            r.name == self.on_event,
            r.user_id == user_id,
            props_shaped(r.properties.entries@, *meta, visitor.fields@),
    {
        Event { name: self.on_event.clone(), user_id, properties: self.props(meta, visitor) }
    }
}

impl Handler for Posthog {
    fn on_span(&self, user_id: String, meta: &EventMeta, values: &Visitor) -> Event {
        self.span_event(user_id, meta, values)
    }

    fn on_event(&self, user_id: String, meta: &EventMeta, values: &Visitor) -> Event {
        self.error_event(user_id, meta, values)
    }
}

/// The effective value of a key among recorded fields, by scan from the
/// end.
fn lookup(fields: &Vec<(String, PropValue)>, key: &str) -> (r: Option<PropValue>)
    ensures
        r == value_of(fields@, key@),
{
    let n = fields.len();
    let mut i: usize = n;
    proof {
        assert(fields@.take(n as int) =~= fields@);
    }
    while i > 0
        invariant
            i <= n,
            n == fields@.len(),
            value_of(fields@, key@) == value_of(fields@.take(i as int), key@),
        decreases i,
    {
        i = i - 1;
        if str_eq(fields[i].0.as_str(), key) {
            proof {
                assert(fields@.take(i as int + 1).last() == fields@[i as int]);
            }
            return Some(fields[i].1.clone());
        }
        proof {
            assert(fields@.take(i as int + 1).drop_last() =~= fields@.take(i as int));
        }
    }
    proof {
        assert(fields@.take(0) =~= Seq::<(String, PropValue)>::empty());
    }
    None
}

} // verus!
