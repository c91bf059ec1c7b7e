//! Label syntax: validation of label keys and values, and parsing of
//! `key:value` filter expressions.
//!
//! A label key or value is at most 63 bytes of ASCII, begins and ends with
//! an alphanumeric character, and holds only alphanumerics, dashes,
//! underscores and dots; a value may also be empty.  A filter expression is
//! a comma-separated list of `key:value` labels with distinct, valid keys.

use vstd::prelude::*;
use vstd::string::StrSliceExecFns;
use vstd::string::StringSliceAdditionalSpecFns;

verus! {

/// One way a label key or value can be invalid, in the order the checks
/// are reported.
#[derive(Debug, Clone, Copy, PartialEq, Eq, Structural)]
pub enum LabelFailure {
    /// The text is not ASCII.
    NotAscii,
    /// The text is longer than 63 bytes.
    TooLong,
    /// The text does not begin with an alphanumeric character.
    BadStart,
    /// The text does not end with an alphanumeric character.
    BadEnd,
    /// The text holds a character that is not alphanumeric, dash,
    /// underscore or dot.
    BadChar,
}

/// Everything wrong with one label key or value.
#[derive(Debug, Clone, PartialEq, Eq)]
pub struct LabelError {
    pub failures: Vec<LabelFailure>,
}

impl LabelFailure {
    /// The diagnostic this failure is reported with.
    pub open spec fn spec_message(&self) -> Seq<char> {
        match self {
            LabelFailure::NotAscii => "must be ASCII"@,
            LabelFailure::TooLong => "must be 63 characters or less"@,
            LabelFailure::BadStart => "must begin with an alphanumeric character"@,
            LabelFailure::BadEnd => "must end with an alphanumeric character"@,
            LabelFailure::BadChar => "must contain only alphanumeric characters, dashes, underscores, and dots"@,
        }
    }

    /// The diagnostic this failure is reported with.
    pub fn message(&self) -> (r: &'static str)
        ensures
            r@ == self.spec_message(),
    {
        match self {
            LabelFailure::NotAscii => "must be ASCII",
            LabelFailure::TooLong => "must be 63 characters or less",
            LabelFailure::BadStart => "must begin with an alphanumeric character",
            LabelFailure::BadEnd => "must end with an alphanumeric character",
            LabelFailure::BadChar => "must contain only alphanumeric characters, dashes, underscores, and dots",
        }
    }
}

/// The diagnostics of a failure list, joined by a comma and a space.
pub open spec fn failures_text(fs: Seq<LabelFailure>) -> Seq<char>
    decreases fs.len(),
{
    if fs.len() == 0 {
        Seq::empty()
    } else if fs.len() == 1 {
        fs[0].spec_message()
    } else {
        fs[0].spec_message() + ", "@ + failures_text(fs.drop_first())
    }
}

impl LabelError {
    /// The combined diagnostic of everything wrong with the label text.
    pub fn message(&self) -> (r: String)
        ensures
            r@ == failures_text(self.failures@),
    {
        let mut out = String::new();
        let n = self.failures.len();
        if n == 0 {
            return out;
        }
        out.append(self.failures[0].message());
        proof {
            assert(self.failures@.take(1) =~= seq![self.failures@[0]]);
        }
        for i in 1..n
            invariant
                n == self.failures@.len(),
                1 <= i <= n,
                out@ == failures_text(self.failures@.take(i as int)),
        {
            out.append(", ");
            out.append(self.failures[i].message());
            proof {
                lemma_failures_text_snoc(self.failures@, i as int + 1);
                assert(out@ == failures_text(self.failures@.take(i as int + 1)));
            }
        }
        proof {
            assert(self.failures@.take(n as int) =~= self.failures@);
        }
        out
    }
}

proof fn lemma_failures_text_snoc(fs: Seq<LabelFailure>, m: int)
    requires
        2 <= m <= fs.len(),
    ensures
        failures_text(fs.take(m)) == failures_text(fs.take(m - 1)) + ", "@ + fs[
            m - 1
        ].spec_message(),
    decreases m,
{
    assert(fs.take(m).drop_first() =~= fs.skip(1).take(m - 1));
    if m == 2 {
        assert(fs.skip(1).take(1) =~= seq![fs[1]]);
        assert(fs.take(1) =~= seq![fs[0]]);
        assert(failures_text(seq![fs[1]]) == fs[1].spec_message());
        assert(failures_text(fs.take(1)) == fs[0].spec_message());
        assert(failures_text(fs.take(2)) == fs[0].spec_message() + ", "@ + fs[1].spec_message());
    } else {
        lemma_failures_text_snoc(fs.skip(1), m - 1);
        assert(fs.take(m - 1).drop_first() =~= fs.skip(1).take(m - 2));
        assert(fs.skip(1)[m - 2] == fs[m - 1]);
        assert(failures_text(fs.take(m)) == fs[0].spec_message() + ", "@ + failures_text(
            fs.skip(1).take(m - 1),
        ));
        assert(failures_text(fs.take(m - 1)) == fs[0].spec_message() + ", "@ + failures_text(
            fs.skip(1).take(m - 2),
        ));
        assert((fs[0].spec_message() + ", "@ + (failures_text(fs.skip(1).take(m - 2)) + ", "@ + fs[
            m - 1
        ].spec_message())) =~= (fs[0].spec_message() + ", "@ + failures_text(
            fs.skip(1).take(m - 2),
        ) + ", "@ + fs[m - 1].spec_message()));
    }
}

/// Whether a character is an ASCII letter or digit.
pub open spec fn spec_alnum(c: char) -> bool {
    ||| 'a' <= c && c <= 'z'
    ||| 'A' <= c && c <= 'Z'
    ||| '0' <= c && c <= '9'
}

/// Whether a character may appear anywhere in a label.
pub open spec fn spec_label_char(c: char) -> bool {
    spec_alnum(c) || c == '-' || c == '_' || c == '.'
}

/// The failures of a label text, in reporting order.
pub open spec fn label_failures(s: Seq<char>) -> Seq<LabelFailure> {
    (if !vstd::utf8::is_ascii_chars(s) {
        seq![LabelFailure::NotAscii]
    } else {
        Seq::empty()
    }) + (if vstd::utf8::encode_utf8(s).len() > 63 {
        seq![LabelFailure::TooLong]
    } else {
        Seq::empty()
    }) + (if s.len() == 0 || !spec_alnum(s[0]) {
        seq![LabelFailure::BadStart]
    } else {
        Seq::empty()
    }) + (if s.len() == 0 || !spec_alnum(s[s.len() - 1]) {
        seq![LabelFailure::BadEnd]
    } else {
        Seq::empty()
    }) + (if exists|i: int| 0 <= i < s.len() && !spec_label_char(s[i]) {
        seq![LabelFailure::BadChar]
    } else {
        Seq::empty()
    })
}

/// Whether a character is an ASCII letter or digit.
fn alnum(c: char) -> (r: bool)
    ensures
        r == spec_alnum(c),
{
    ('a' <= c && c <= 'z') || ('A' <= c && c <= 'Z') || ('0' <= c && c <= '9')
}

/// Whether a character may appear anywhere in a label.
fn label_char(c: char) -> (r: bool)
    ensures
        r == spec_label_char(c),
{
    alnum(c) || c == '-' || c == '_' || c == '.'
}

/// Every failure of a label text, in reporting order.
fn check_label(s: &str) -> (r: Vec<LabelFailure>)
    ensures
        r@ == label_failures(s@),
{
    let mut failures: Vec<LabelFailure> = Vec::new();
    if !s.is_ascii() {
        failures.push(LabelFailure::NotAscii);
    }
    if s.as_bytes().len() > 63 {
        failures.push(LabelFailure::TooLong);
    }
    let n = s.unicode_len();
    if n == 0 {
        failures.push(LabelFailure::BadStart);
        failures.push(LabelFailure::BadEnd);
    } else {
        if !alnum(s.get_char(0)) {
            failures.push(LabelFailure::BadStart);
        }
        if !alnum(s.get_char(n - 1)) {
            failures.push(LabelFailure::BadEnd);
        }
    }
    let ghost head = failures@;
    let mut found_bad: bool = false;
    for i in 0..n
        invariant
            n == s@.len(),
            found_bad == exists|j: int| 0 <= j < i && !spec_label_char(s@[j]),
            failures@ == head,
    {
        if !label_char(s.get_char(i)) {
            found_bad = true;
        }
    }
    if found_bad {
        failures.push(LabelFailure::BadChar);
    }
    proof {
        assert(failures@ =~= label_failures(s@));
    }
    failures
}

/// Check a label key: ASCII, at most 63 bytes, alphanumeric at both ends,
/// and made of alphanumerics, dashes, underscores and dots.  The error
/// lists every failed check, in order.
pub fn validate_label_key(key: &str) -> (r: Result<(), LabelError>)
    ensures
        label_failures(key@).len() == 0 ==> r == Result::<(), LabelError>::Ok(()),
        label_failures(key@).len() != 0 ==> (r matches Err(e) && e.failures@ == label_failures(
            key@,
        )),
{
    let failures = check_label(key);
    if failures.len() == 0 {
        Ok(())
    } else {
        Err(LabelError { failures })
    }
}

/// Check a label value: an empty value is allowed, and any other value
/// must satisfy the same checks as a key.  The error lists every failed
/// check, in order.
pub fn validate_label_value(value: &str) -> (r: Result<(), LabelError>)
    ensures
        value@.len() == 0 ==> r == Result::<(), LabelError>::Ok(()),
        value@.len() != 0 && label_failures(value@).len() == 0 ==> r == Result::<(),
            LabelError,
        >::Ok(()),
        value@.len() != 0 && label_failures(value@).len() != 0 ==> (r matches Err(e) && e.failures@
            == label_failures(value@)),
{
    if value.unicode_len() == 0 {
        return Ok(());
    }
    validate_label_key(value)
}

/// How one raw `key:value` text can be malformed.
#[derive(Debug, Clone, Copy, PartialEq, Eq, Structural)]
pub enum RawLabelError {
    /// The text holds no `:` at all.
    MissingColon,
    /// The text holds more than one `:`.
    TooManyColons,
}

/// Split one raw `key:value` text at its colon.  The text must hold
/// exactly one `:`; what stands before it becomes the key and what stands
/// after it the value.
pub fn parse_validate_label_raw(raw: &str) -> (r: Result<(String, String), RawLabelError>)
    ensures
        (match r {
            Ok(kv) => exists|i: int|
                {
                    &&& 0 <= i < raw@.len()
                    &&& raw@[i] == ':'
                    &&& forall|j: int| 0 <= j < raw@.len() && j != i ==> raw@[j] != ':'
                    &&& kv.0@ == raw@.subrange(0, i)
                    &&& kv.1@ == raw@.subrange(i + 1, raw@.len() as int)
                },
            Err(RawLabelError::MissingColon) => forall|j: int|
                0 <= j < raw@.len() ==> raw@[j] != ':',
            Err(RawLabelError::TooManyColons) => exists|i: int, j: int|
                0 <= i < j < raw@.len() && raw@[i] == ':' && raw@[j] == ':',
        }),
{
    let n = raw.unicode_len();
    let mut first: Option<usize> = None;
    for i in 0..n
        invariant
            n == raw@.len(),
            (match first {
                Some(f) => {
                    &&& 0 <= f < i
                    &&& raw@[f as int] == ':'
                    &&& forall|j: int| 0 <= j < i && j != f ==> raw@[j] != ':'
                },
                None => forall|j: int| 0 <= j < i ==> raw@[j] != ':',
            }),
    {
        if raw.get_char(i) == ':' {
            match first {
                Some(f) => {
                    return Err(RawLabelError::TooManyColons);
                },
                None => {
                    first = Some(i);
                },
            }
        }
    }
    match first {
        Some(f) => {
            let key = raw.substring_char(0, f).to_owned();
            let value = raw.substring_char(f + 1, n).to_owned();
            Ok((key, value))
        },
        None => Err(RawLabelError::MissingColon),
    }
}


/// How a whole `labels_eq` filter expression can be invalid, carrying
/// the offending text and, for a failed validation, everything wrong
/// with it.
#[derive(Debug, Clone, PartialEq, Eq)]
pub enum FilterError {
    /// The expression is empty; matching on no labels means leaving the
    /// filter out entirely.
    Empty,
    /// A label of the expression is not a single `key:value`.
    BadLabel { label: String, error: RawLabelError },
    /// Two labels of the expression share this key.
    DuplicateKey { key: String },
    /// A label's key fails validation.
    InvalidKey { key: String, error: LabelError },
    /// A label's value fails validation.
    InvalidValue { value: String, error: LabelError },
}

/// The mathematical content of a filter error.
pub enum FilterErrorView {
    Empty,
    BadLabel { label: Seq<char>, error: RawLabelError },
    DuplicateKey { key: Seq<char> },
    InvalidKey { key: Seq<char>, failures: Seq<LabelFailure> },
    InvalidValue { value: Seq<char>, failures: Seq<LabelFailure> },
}

impl View for FilterError {
    type V = FilterErrorView;

    open spec fn view(&self) -> FilterErrorView {
        match self {
            FilterError::Empty => FilterErrorView::Empty,
            FilterError::BadLabel { label, error } => FilterErrorView::BadLabel {
                label: label@,
                error: *error,
            },
            FilterError::DuplicateKey { key } => FilterErrorView::DuplicateKey { key: key@ },
            FilterError::InvalidKey { key, error } => FilterErrorView::InvalidKey {
                key: key@,
                failures: error.failures@,
            },
            FilterError::InvalidValue { value, error } => FilterErrorView::InvalidValue {
                value: value@,
                failures: error.failures@,
            },
        }
    }
}

/// The expression split at every comma; empty pieces are kept, and an
/// expression with no comma is one piece.
pub open spec fn split_commas(s: Seq<char>) -> Seq<Seq<char>>
    decreases s.len(),
{
    if s.len() == 0 {
        seq![Seq::<char>::empty()]
    } else if s[0] == ',' {
        seq![Seq::<char>::empty()] + split_commas(s.drop_first())
    } else {
        let rest = split_commas(s.drop_first());
        seq![seq![s[0]] + rest[0]] + rest.drop_first()
    }
}

/// A split has at least one piece.
pub proof fn lemma_split_commas_len(s: Seq<char>)
    ensures
        split_commas(s).len() >= 1,
    decreases s.len(),
{
    if s.len() > 0 {
        lemma_split_commas_len(s.drop_first());
    }
}

/// The key and value of one label piece: the piece split at its single
/// colon, rejected when it has none or several.
pub open spec fn piece_entry(p: Seq<char>) -> Result<(Seq<char>, Seq<char>), FilterErrorView> {
    if colon_count(p) == 0 {
        Err(FilterErrorView::BadLabel { label: p, error: RawLabelError::MissingColon })
    } else if colon_count(p) != 1 {
        Err(FilterErrorView::BadLabel { label: p, error: RawLabelError::TooManyColons })
    } else {
        let i = first_colon(p);
        Ok((p.subrange(0, i), p.subrange(i + 1, p.len() as int)))
    }
}

/// How many colons a piece holds.
pub open spec fn colon_count(s: Seq<char>) -> int
    decreases s.len(),
{
    if s.len() == 0 {
        0
    } else {
        (if s[0] == ':' {
            1int
        } else {
            0int
        }) + colon_count(s.drop_first())
    }
}

/// The position of the first colon of a piece that has one.
pub open spec fn first_colon(s: Seq<char>) -> int
    decreases s.len(),
{
    if s.len() == 0 {
        0
    } else if s[0] == ':' {
        0
    } else {
        1 + first_colon(s.drop_first())
    }
}

/// A piece with a colon at `i` and nowhere else holds exactly one colon,
/// first at `i`.
pub proof fn lemma_single_colon(s: Seq<char>, i: int)
    requires
        0 <= i < s.len(),
        s[i] == ':',
        forall|j: int| 0 <= j < s.len() && j != i ==> s[j] != ':',
    ensures
        colon_count(s) == 1,
        first_colon(s) == i,
    decreases s.len(),
{
    if i == 0 {
        assert(forall|j: int| 0 <= j < s.drop_first().len() ==> s.drop_first()[j] == s[j + 1]);
        lemma_no_colon_count(s.drop_first());
    } else {
        assert(forall|j: int| 0 <= j < s.drop_first().len() ==> s.drop_first()[j] == s[j + 1]);
        lemma_single_colon(s.drop_first(), i - 1);
    }
}

/// A piece with no colon at all counts zero colons.
pub proof fn lemma_no_colon_count(s: Seq<char>)
    requires
        forall|j: int| 0 <= j < s.len() ==> s[j] != ':',
    ensures
        colon_count(s) == 0,
    decreases s.len(),
{
    if s.len() > 0 {
        assert(forall|j: int| 0 <= j < s.drop_first().len() ==> s.drop_first()[j] == s[j + 1]);
        lemma_no_colon_count(s.drop_first());
    }
}

/// A piece with colons at two positions counts at least two.
pub proof fn lemma_two_colons(s: Seq<char>, i: int, j: int)
    requires
        0 <= i < j < s.len(),
        s[i] == ':',
        s[j] == ':',
    ensures
        colon_count(s) >= 2,
    decreases s.len(),
{
    lemma_colon_count_nonneg(s);
    if i == 0 {
        assert(s.drop_first()[j - 1] == s[j]);
        lemma_colon_at_count(s.drop_first(), j - 1);
    } else {
        assert(s.drop_first()[i - 1] == s[i]);
        assert(s.drop_first()[j - 1] == s[j]);
        lemma_two_colons(s.drop_first(), i - 1, j - 1);
    }
}

/// Colon counts are never negative.
pub proof fn lemma_colon_count_nonneg(s: Seq<char>)
    ensures
        colon_count(s) >= 0,
    decreases s.len(),
{
    if s.len() > 0 {
        lemma_colon_count_nonneg(s.drop_first());
    }
}

/// A piece with a colon somewhere counts at least one.
pub proof fn lemma_colon_at_count(s: Seq<char>, i: int)
    requires
        0 <= i < s.len(),
        s[i] == ':',
    ensures
        colon_count(s) >= 1,
    decreases s.len(),
{
    lemma_colon_count_nonneg(s.drop_first());
    if i > 0 {
        assert(s.drop_first()[i - 1] == s[i]);
        lemma_colon_at_count(s.drop_first(), i - 1);
    }
}

/// The entries of a filter expression's pieces, processed left to right
/// against the entries gathered so far: each piece must be a single
/// `key:value` with a valid, fresh key and a valid value.
pub open spec fn pieces_entries(
    parts: Seq<Seq<char>>,
    acc: Seq<(Seq<char>, Seq<char>)>,
) -> Result<Seq<(Seq<char>, Seq<char>)>, FilterErrorView>
    decreases parts.len(),
{
    if parts.len() == 0 {
        Ok(acc)
    } else {
        match piece_entry(parts[0]) {
            Err(e) => Err(e),
            Ok(kv) => if exists|j: int| 0 <= j < acc.len() && acc[j].0 == kv.0 {
                Err(FilterErrorView::DuplicateKey { key: kv.0 })
            } else if label_failures(kv.0).len() != 0 {
                Err(FilterErrorView::InvalidKey { key: kv.0, failures: label_failures(kv.0) })
            } else if kv.1.len() != 0 && label_failures(kv.1).len() != 0 {
                Err(
                    FilterErrorView::InvalidValue {
                        value: kv.1,
                        failures: label_failures(kv.1),
                    },
                )
            } else {
                pieces_entries(parts.drop_first(), acc.push(kv))
            },
        }
    }
}

/// What a whole `labels_eq` filter expression means: its comma-separated
/// labels as key–value pairs, in order — or why it is invalid.
pub open spec fn labels_eq_spec(s: Seq<char>) -> Result<
    Seq<(Seq<char>, Seq<char>)>,
    FilterErrorView,
> {
    if s.len() == 0 {
        Err(FilterErrorView::Empty)
    } else {
        pieces_entries(split_commas(s), Seq::empty())
    }
}


/// Splitting at the first comma: the piece before it, then the split of
/// what follows.
pub proof fn lemma_split_at_comma(s: Seq<char>, c: int)
    requires
        0 <= c < s.len(),
        s[c] == ',',
        forall|j: int| 0 <= j < c ==> s[j] != ',',
    ensures
        split_commas(s) == seq![s.take(c)] + split_commas(s.skip(c + 1)),
    decreases c,
{
    lemma_split_commas_len(s.drop_first());
    if c == 0 {
        assert(s.take(0) =~= Seq::<char>::empty());
        assert(s.drop_first() =~= s.skip(1));
        assert(split_commas(s) =~= seq![s.take(0)] + split_commas(s.skip(1)));
    } else {
        assert(forall|j: int| 0 <= j < s.drop_first().len() ==> s.drop_first()[j] == s[j + 1]);
        lemma_split_at_comma(s.drop_first(), c - 1);
        let rest = split_commas(s.drop_first());
        assert(rest == seq![s.drop_first().take(c - 1)] + split_commas(s.drop_first().skip(c)));
        assert(rest[0] == s.drop_first().take(c - 1));
        assert(rest.drop_first() =~= split_commas(s.drop_first().skip(c)));
        assert(seq![s[0]] + s.drop_first().take(c - 1) =~= s.take(c));
        assert(s.drop_first().skip(c) =~= s.skip(c + 1));
        assert(split_commas(s) =~= seq![s.take(c)] + split_commas(s.skip(c + 1)));
    }
}

/// Splitting a piece with no comma yields that piece alone.
pub proof fn lemma_split_no_comma(s: Seq<char>)
    requires
        forall|j: int| 0 <= j < s.len() ==> s[j] != ',',
    ensures
        split_commas(s) == seq![s],
    decreases s.len(),
{
    if s.len() == 0 {
        assert(s =~= Seq::<char>::empty());
        assert(split_commas(s) =~= seq![s]);
    } else {
        assert(forall|j: int| 0 <= j < s.drop_first().len() ==> s.drop_first()[j] == s[j + 1]);
        lemma_split_no_comma(s.drop_first());
        let rest = split_commas(s.drop_first());
        assert(rest == seq![s.drop_first()]);
        assert(rest[0] == s.drop_first());
        assert(rest.drop_first() =~= Seq::<Seq<char>>::empty());
        assert(seq![s[0]] + rest[0] =~= s);
        assert(split_commas(s) == seq![seq![s[0]] + rest[0]] + rest.drop_first());
        assert(split_commas(s) =~= seq![s]);
    }
}

/// Split an expression at every comma; empty pieces are kept, and an
/// expression with no comma is one piece.
fn split_commas_exec(s: &str) -> (r: Vec<String>)
    ensures
        crate::client::views_of_strings(r@) == split_commas(s@),
{
    let n = s.unicode_len();
    let mut parts: Vec<String> = Vec::new();
    let mut start: usize = 0;
    let mut i: usize = 0;
    proof {
        assert(s@.skip(0) =~= s@);
    }
    while i < n
        invariant
            start <= i <= n,
            n == s@.len(),
            split_commas(s@) == crate::client::views_of_strings(parts@) + split_commas(
                s@.skip(start as int),
            ),
            forall|j: int| start <= j < i ==> s@[j] != ',',
        decreases n - i,
    {
        if s.get_char(i) == ',' {
            let piece = s.substring_char(start, i).to_owned();
            let ghost pv = parts@;
            proof {
                assert(forall|j: int|
                    0 <= j < i - start ==> s@.skip(start as int)[j] == s@[j + start]);
                lemma_split_at_comma(s@.skip(start as int), i - start);
                assert(s@.skip(start as int).take(i - start) =~= s@.subrange(
                    start as int,
                    i as int,
                ));
                assert(s@.skip(start as int).skip(i - start + 1) =~= s@.skip(i as int + 1));
            }
            parts.push(piece);
            proof {
                assert(crate::client::views_of_strings(parts@) =~= crate::client::views_of_strings(
                    pv,
                ).push(s@.subrange(start as int, i as int)));
                assert(crate::client::views_of_strings(pv) + (seq![
                    s@.subrange(start as int, i as int),
                ] + split_commas(s@.skip(i as int + 1))) =~= (crate::client::views_of_strings(pv)
                    + seq![s@.subrange(start as int, i as int)]) + split_commas(
                    s@.skip(i as int + 1),
                ));
            }
            start = i + 1;
        }
        i = i + 1;
    }
    let last = s.substring_char(start, n).to_owned();
    let ghost pv = parts@;
    proof {
        assert(forall|j: int| 0 <= j < s@.skip(start as int).len() ==> s@.skip(start as int)[j]
            == s@[j + start]);
        lemma_split_no_comma(s@.skip(start as int));
        assert(s@.skip(start as int) =~= s@.subrange(start as int, n as int));
    }
    parts.push(last);
    proof {
        assert(crate::client::views_of_strings(parts@) =~= crate::client::views_of_strings(
            pv,
        ).push(s@.subrange(start as int, n as int)));
        assert(crate::client::views_of_strings(pv) + seq![
            s@.subrange(start as int, n as int),
        ] =~= crate::client::views_of_strings(parts@));
    }
    parts
}

/// Parse a whole `labels_eq` filter expression into its key–value pairs:
/// comma-separated `key:value` labels with distinct, valid keys and valid
/// values, in order.  Exactly the invalid expressions of
/// [`labels_eq_spec`] are rejected, with the same error.
#[verifier::loop_isolation(false)]
pub fn parse_labels_eq_filter(s: &str) -> (r: Result<Vec<(String, String)>, FilterError>)
    ensures
        (match labels_eq_spec(s@) {
            Ok(entries) => r matches Ok(v) && crate::api::kv_view(v@) == entries,
            Err(se) => r matches Err(e) && e@ == se,
        }),
{
    if s.unicode_len() == 0 {
        return Err(FilterError::Empty);
    }
    let parts = split_commas_exec(s);
    let ghost pvs = crate::client::views_of_strings(parts@);
    let mut acc: Vec<(String, String)> = Vec::new();
    let n = parts.len();
    proof {
        assert(pvs.skip(0) =~= pvs);
        assert(crate::api::kv_view(acc@) =~= Seq::<(Seq<char>, Seq<char>)>::empty());
    }
    for i in 0..n
        invariant
            n == parts@.len(),
            pvs == crate::client::views_of_strings(parts@),
            s@.len() != 0,
            labels_eq_spec(s@) == pieces_entries(pvs.skip(i as int), crate::api::kv_view(acc@)),
    {
        let piece = &parts[i];
        let ghost pw = piece@;
        proof {
            assert(pvs.skip(i as int)[0] == pw);
            assert(pvs.skip(i as int).drop_first() =~= pvs.skip(i as int + 1));
        }
        let kv = match parse_validate_label_raw(piece.as_str()) {
            Ok(kv) => kv,
            Err(RawLabelError::MissingColon) => {
                proof {
                    lemma_no_colon_count(pw);
                }
                return Err(
                    FilterError::BadLabel {
                        label: piece.clone(),
                        error: RawLabelError::MissingColon,
                    },
                );
            },
            Err(RawLabelError::TooManyColons) => {
                proof {
                    let (a, b) = choose|a: int, b: int|
                        0 <= a < b < pw.len() && pw[a] == ':' && pw[b] == ':';
                    lemma_two_colons(pw, a, b);
                }
                return Err(
                    FilterError::BadLabel {
                        label: piece.clone(),
                        error: RawLabelError::TooManyColons,
                    },
                );
            },
        };
        proof {
            let w = choose|w: int|
                {
                    &&& 0 <= w < pw.len()
                    &&& pw[w] == ':'
                    &&& forall|j: int| 0 <= j < pw.len() && j != w ==> pw[j] != ':'
                    &&& kv.0@ == pw.subrange(0, w)
                    &&& kv.1@ == pw.subrange(w + 1, pw.len() as int)
                };
            lemma_single_colon(pw, w);
            assert(piece_entry(pw) == Result::<(Seq<char>, Seq<char>), FilterErrorView>::Ok(
                (kv.0@, kv.1@),
            ));
        }
        let m = acc.len();
        for j in 0..m
            invariant
                m == acc@.len(),
                forall|t: int| 0 <= t < j ==> acc@[t].0@ != kv.0@,
        {
            if crate::text::str_eq(acc[j].0.as_str(), kv.0.as_str()) {
                proof {
                    let ghost kvv = crate::api::kv_view(acc@);
                    assert(kvv[j as int].0 == kv.0@);
                    assert(exists|t: int| 0 <= t < kvv.len() && kvv[t].0 == kv.0@) by {
                        assert(kvv[j as int].0 == kv.0@);
                    }
                }
                return Err(FilterError::DuplicateKey { key: kv.0.clone() });
            }
        }
        proof {
            assert(forall|t: int|
                0 <= t < acc@.len() ==> crate::api::kv_view(acc@)[t].0 == acc@[t].0@);
        }
        match validate_label_key(kv.0.as_str()) {
            Ok(_) => {},
            Err(e) => {
                return Err(FilterError::InvalidKey { key: kv.0.clone(), error: e });
            },
        }
        match validate_label_value(kv.1.as_str()) {
            Ok(_) => {},
            Err(e) => {
                return Err(FilterError::InvalidValue { value: kv.1.clone(), error: e });
            },
        }
        let ghost av = acc@;
        acc.push(kv);
        proof {
            assert(crate::api::kv_view(acc@) =~= crate::api::kv_view(av).push(
                (acc@.last().0@, acc@.last().1@),
            ));
        }
    }
    proof {
        assert(pvs.skip(n as int) =~= Seq::<Seq<char>>::empty());
    }
    Ok(acc)
}

} // verus!
