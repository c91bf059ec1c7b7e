//! Telemetry capture: anonymous usage events keyed by a stable,
//! locally-derived identifier.
//!
//! A [`Telemetry`] layer is installed once by the root command's pre-run
//! step.  It watches for activity and error records, shapes each into an
//! [`Event`] through its [`Handler`], and hands the event to the capture
//! backend at the process boundary — a capture failure is logged there and
//! never propagated.  The identifier never leaves the machine in
//! recognisable form: it is an HMAC of the machine id under the
//! application's name, rendered as a hyphenated hexadecimal tag.

pub mod posthog;

use vstd::prelude::*;
use vstd::string::StringExecFns;
use vstd::string::StringSliceAdditionalSpecFns;

use crate::telemetry::posthog::Props;

verus! {

/// The application name used as the HMAC key and in event names.
pub const NAME: &'static str = "indexify";

/// The field name whose presence marks a record as an activity record.
pub const FIELD: &'static str = "activity";

/// The HMAC-SHA-256 tag of `data` under `key`, as the outside
/// implementation computes it: a function of the two arguments alone.
pub uninterp spec fn hmac_sha256_of(key: Seq<u8>, data: Seq<u8>) -> Seq<u8>;

/// Relies on ring's `hmac::Key::new` and `hmac::sign` with the SHA-256
/// algorithm: the tag is a function of key and data alone, 32 bytes long.
#[verifier::external_body]
fn hmac_sha256(key: &[u8], data: &[u8]) -> (r: Vec<u8>)
    requires
        key@.len() < 0x1000000000000000,
        data@.len() < 0x1000000000000000,
    ensures
        r@ == hmac_sha256_of(key@, data@),
        r@.len() == 32,
{
    let k = ring::hmac::Key::new(ring::hmac::HMAC_SHA256, key);
    let tag = ring::hmac::sign(&k, data);
    tag.as_ref().to_vec()
}

/// One nibble rendered as a lowercase hexadecimal character.
pub open spec fn hex_char(d: int) -> char {
    if d < 10 {
        crate::text::digit_char(d)
    } else if d == 10 {
        'a'
    } else if d == 11 {
        'b'
    } else if d == 12 {
        'c'
    } else if d == 13 {
        'd'
    } else if d == 14 {
        'e'
    } else {
        'f'
    }
}

/// Bytes rendered as lowercase hexadecimal, two characters per byte.
pub open spec fn hex_str(bytes: Seq<u8>) -> Seq<char>
    decreases bytes.len(),
{
    if bytes.len() == 0 {
        Seq::empty()
    } else {
        seq![
            hex_char(bytes[0] as int / 16),
            hex_char(bytes[0] as int % 16),
        ] + hex_str(bytes.drop_first())
    }
}

/// The hyphenated tag of sixteen bytes: five hexadecimal groups of 8, 4,
/// 4, 4 and 12 characters, separated by hyphens.
pub open spec fn hyphenated(b: Seq<u8>) -> Seq<char> {
    hex_str(b.subrange(0, 4)) + seq!['-'] + hex_str(b.subrange(4, 6)) + seq!['-'] + hex_str(
        b.subrange(6, 8),
    ) + seq!['-'] + hex_str(b.subrange(8, 10)) + seq!['-'] + hex_str(b.subrange(10, 16))
}

/// One nibble rendered as a lowercase hexadecimal character, as a string
/// slice.
fn hex_char_str(d: u8) -> (c: &'static str)
    requires
        d < 16,
    ensures
        c@ == seq![hex_char(d as int)],
{
    proof {
        reveal_strlit("0");
        reveal_strlit("1");
        reveal_strlit("2");
        reveal_strlit("3");
        reveal_strlit("4");
        reveal_strlit("5");
        reveal_strlit("6");
        reveal_strlit("7");
        reveal_strlit("8");
        reveal_strlit("9");
        reveal_strlit("a");
        reveal_strlit("b");
        reveal_strlit("c");
        reveal_strlit("d");
        reveal_strlit("e");
        reveal_strlit("f");
    }
    if d == 0 {
        "0"
    } else if d == 1 {
        "1"
    } else if d == 2 {
        "2"
    } else if d == 3 {
        "3"
    } else if d == 4 {
        "4"
    } else if d == 5 {
        "5"
    } else if d == 6 {
        "6"
    } else if d == 7 {
        "7"
    } else if d == 8 {
        "8"
    } else if d == 9 {
        "9"
    } else if d == 10 {
        "a"
    } else if d == 11 {
        "b"
    } else if d == 12 {
        "c"
    } else if d == 13 {
        "d"
    } else if d == 14 {
        "e"
    } else {
        "f"
    }
}

/// Append the hexadecimal rendering of a byte range to a string.
fn push_hex(out: &mut String, bytes: &[u8], from: usize, to: usize)
    requires
        from <= to <= bytes@.len(),
    ensures
        final(out)@ == old(out)@ + hex_str(bytes@.subrange(from as int, to as int)),
{
    let ghost base = out@;
    let mut i: usize = from;
    while i < to
        invariant
            from <= i <= to <= bytes@.len(),
            out@ == base + hex_str(bytes@.subrange(from as int, i as int)),
        decreases to - i,
    {
        let b = bytes[i];
        out.append(hex_char_str(b / 16));
        out.append(hex_char_str(b % 16));
        proof {
            lemma_hex_str_snoc(bytes@, from as int, i as int + 1);
        }
        i = i + 1;
    }
}

proof fn lemma_hex_str_snoc(bytes: Seq<u8>, from: int, m: int)
    requires
        0 <= from < m <= bytes.len(),
    ensures
        hex_str(bytes.subrange(from, m)) == hex_str(bytes.subrange(from, m - 1)) + seq![
            hex_char(bytes[m - 1] as int / 16),
            hex_char(bytes[m - 1] as int % 16),
        ],
    decreases m - from,
{
    let s = bytes.subrange(from, m);
    assert(s.drop_first() =~= bytes.subrange(from + 1, m));
    if m == from + 1 {
        assert(bytes.subrange(from, from) =~= Seq::<u8>::empty());
        assert(hex_str(bytes.subrange(from, from)) == Seq::<char>::empty());
        assert(hex_str(bytes.subrange(from + 1, m)) == Seq::<char>::empty());
        assert(hex_str(bytes.subrange(from, m)) =~= hex_str(bytes.subrange(from, m - 1)) + seq![
            hex_char(bytes[m - 1] as int / 16),
            hex_char(bytes[m - 1] as int % 16),
        ]);
    } else {
        lemma_hex_str_snoc(bytes, from + 1, m);
        assert(bytes.subrange(from, m - 1).drop_first() =~= bytes.subrange(from + 1, m - 1));
        assert(hex_str(bytes.subrange(from, m)) =~= hex_str(bytes.subrange(from, m - 1)) + seq![
            hex_char(bytes[m - 1] as int / 16),
            hex_char(bytes[m - 1] as int % 16),
        ]);
    }
}

/// The stable anonymous identifier derived from a machine id: the HMAC of
/// the machine id under the application name, cut to sixteen bytes and
/// rendered as a hyphenated hexadecimal tag.  The same machine id always
/// yields the same identifier, and nothing of the machine id itself
/// appears in it.
pub fn user_id_from_machine_id(mid: &str) -> (r: String)
    requires
        mid.spec_bytes().len() < 0x1000000000000000,
    ensures
        r@ == hyphenated(hmac_sha256_of(NAME.spec_bytes(), mid.spec_bytes()).subrange(0, 16)),
{
    proof {
        reveal_strlit("indexify");
        assert(vstd::utf8::is_ascii_chars(NAME@));
        vstd::utf8::is_ascii_chars_encode_utf8(NAME@);
        assert(NAME.spec_bytes().len() == 8);
    }
    let tag = hmac_sha256(NAME.as_bytes(), mid.as_bytes());
    let mut out = String::new();
    let ghost t16 = tag@.subrange(0, 16);
    push_hex(&mut out, tag.as_slice(), 0, 4);
    out.append("-");
    push_hex(&mut out, tag.as_slice(), 4, 6);
    out.append("-");
    push_hex(&mut out, tag.as_slice(), 6, 8);
    out.append("-");
    push_hex(&mut out, tag.as_slice(), 8, 10);
    out.append("-");
    push_hex(&mut out, tag.as_slice(), 10, 16);
    proof {
        reveal_strlit("-");
        assert("-"@ =~= seq!['-']);
        assert(tag@.subrange(0, 4) =~= t16.subrange(0, 4));
        assert(tag@.subrange(4, 6) =~= t16.subrange(4, 6));
        assert(tag@.subrange(6, 8) =~= t16.subrange(6, 8));
        assert(tag@.subrange(8, 10) =~= t16.subrange(8, 10));
        assert(tag@.subrange(10, 16) =~= t16.subrange(10, 16));
        assert(out@ =~= hyphenated(t16));
    }
    out
}

/// One captured telemetry event: its name, the anonymous identifier it is
/// keyed by, and its properties.
#[derive(Debug, Clone)]
pub struct Event {
    pub name: String,
    pub user_id: String,
    pub properties: Props,
}

/// Shapes watched records into events.  The capture backend itself lives
/// at the process boundary; inside the crate a handler only builds the
/// event values.
pub trait Handler {
    /// The event for an activity span, given the record's metadata and
    /// recorded fields.
    fn on_span(&self, user_id: String, meta: &posthog::EventMeta, values: &posthog::Visitor) -> Event;

    /// The event for an error record, given the record's metadata and
    /// recorded fields.
    fn on_event(&self, user_id: String, meta: &posthog::EventMeta, values: &posthog::Visitor) -> Event;
}

/// The telemetry layer: which records it watches and the handler shaping
/// them.  Installed once by the root command's pre-run step.
#[derive(Debug, Clone)]
pub struct Telemetry<H: Handler> {
    pub provider: H,
    pub user_id: String,
    pub emit_activity: bool,
    pub emit_errors: bool,
}

impl<H: Handler> Telemetry<H> {
    /// A layer watching both activity and errors, keyed by the given
    /// anonymous identifier, shaping events through the given handler.
    pub fn new(handler: H, user_id: String) -> (r: Telemetry<H>)
        ensures
            r.provider == handler,
            r.user_id == user_id,
            r.emit_activity,
            r.emit_errors,
    {
        Telemetry { provider: handler, user_id, emit_activity: true, emit_errors: true }
    }

    /// The same layer, watching activity records.
    pub fn with_activity(self) -> (r: Telemetry<H>)
        ensures
            r.provider == self.provider,
            r.emit_activity,
            r.emit_errors == self.emit_errors,
            r.user_id == self.user_id,
    {
        Telemetry { emit_activity: true, ..self }
    }

    /// The same layer, watching error records.
    pub fn with_errors(self) -> (r: Telemetry<H>)
        ensures
            r.provider == self.provider,
            r.emit_errors,
            r.emit_activity == self.emit_activity,
            r.user_id == self.user_id,
    {
        Telemetry { emit_errors: true, ..self }
    }

    /// Whether a record is watched: an activity record when activity is
    /// watched, or an error record when errors are watched.
    pub fn interested(&self, has_activity_field: bool, has_error_field: bool) -> (r: bool)
        ensures
            r == ((self.emit_activity && has_activity_field) || (self.emit_errors
                && has_error_field)),
    {
        (self.emit_activity && has_activity_field) || (self.emit_errors && has_error_field)
    }
}

} // verus!
