//! Small verified string helpers shared across the crate.

use vstd::prelude::*;
use vstd::string::StrSliceExecFns;
use vstd::string::StringExecFns;

verus! {

/// Whether two string slices hold the same characters.
pub fn str_eq(a: &str, b: &str) -> (r: bool)
    ensures
        r == (a@ == b@),
{
    let a_len = a.unicode_len();
    let b_len = b.unicode_len();
    if a_len != b_len {
        return false;
    }
    let mut i: usize = 0;
    while i < a_len
        invariant
            i <= a_len,
            a_len == a@.len(),
            b_len == b@.len(),
            a_len == b_len,
            forall|j: int| 0 <= j < i ==> a@[j] == b@[j],
        decreases a_len - i,
    {
        if a.get_char(i) != b.get_char(i) {
            return false;
        }
        i = i + 1;
    }
    proof {
        assert(a@ =~= b@);
    }
    true
}

/// The strings joined with the separator between consecutive elements.
pub open spec fn joined_sep(v: Seq<String>, sep: Seq<char>) -> Seq<char>
    decreases v.len(),
{
    if v.len() == 0 {
        Seq::empty()
    } else if v.len() == 1 {
        v[0]@
    } else {
        v[0]@ + sep + joined_sep(v.drop_first(), sep)
    }
}

/// Join strings with the separator between consecutive elements.
pub fn join_sep(v: &Vec<String>, sep: &str) -> (r: String)
    ensures
        r@ == joined_sep(v@, sep@),
{
    let mut out = String::new();
    let n = v.len();
    if n == 0 {
        return out;
    }
    out.append(v[0].as_str());
    proof {
        assert(v@.take(1) =~= seq![v@[0]]);
    }
    for i in 1..n
        invariant
            n == v.len(),
            1 <= i <= n,
            out@ == joined_sep(v@.take(i as int), sep@),
    {
        out.append(sep);
        out.append(v[i].as_str());
        proof {
            lemma_joined_sep_snoc(v@, sep@, i as int + 1);
            assert(out@ == joined_sep(v@.take(i as int + 1), sep@));
        }
    }
    proof {
        assert(v@.take(n as int) =~= v@);
    }
    out
}

proof fn lemma_joined_sep_snoc(v: Seq<String>, sep: Seq<char>, m: int)
    requires
        2 <= m <= v.len(),
    ensures
        joined_sep(v.take(m), sep) == joined_sep(v.take(m - 1), sep) + sep + v[m - 1]@,
    decreases m,
{
    assert(v.take(m).drop_first() =~= v.skip(1).take(m - 1));
    if m == 2 {
        assert(v.skip(1).take(1) =~= seq![v[1]]);
        assert(v.take(1) =~= seq![v[0]]);
        assert(joined_sep(seq![v[1]], sep) == v[1]@);
        assert(joined_sep(v.take(1), sep) == v[0]@);
        assert(joined_sep(v.take(2), sep) == v[0]@ + sep + v[1]@);
    } else {
        lemma_joined_sep_snoc(v.skip(1), sep, m - 1);
        assert(v.take(m - 1).drop_first() =~= v.skip(1).take(m - 2));
        assert(v.skip(1)[m - 2] == v[m - 1]);
        assert(joined_sep(v.take(m), sep) == v[0]@ + sep + joined_sep(v.skip(1).take(m - 1), sep));
        assert(joined_sep(v.take(m - 1), sep) == v[0]@ + sep + joined_sep(
            v.skip(1).take(m - 2),
            sep,
        ));
        assert((v[0]@ + sep + (joined_sep(v.skip(1).take(m - 2), sep) + sep + v[m - 1]@)) =~= (v[0]@
            + sep + joined_sep(v.skip(1).take(m - 2), sep) + sep + v[m - 1]@));
    }
}

/// The decimal digit character of a value below ten.
pub open spec fn digit_char(d: int) -> char {
    if d == 0 {
        '0'
    } else if d == 1 {
        '1'
    } else if d == 2 {
        '2'
    } else if d == 3 {
        '3'
    } else if d == 4 {
        '4'
    } else if d == 5 {
        '5'
    } else if d == 6 {
        '6'
    } else if d == 7 {
        '7'
    } else if d == 8 {
        '8'
    } else {
        '9'
    }
}

/// The decimal rendering of a natural number, most significant digit first.
pub open spec fn dec_str(n: int) -> Seq<char>
    decreases n,
{
    if n <= 0 {
        seq![digit_char(0)]
    } else if n < 10 {
        seq![digit_char(n)]
    } else {
        dec_str(n / 10) + seq![digit_char(n % 10)]
    }
}

/// The digit characters of digit values.
pub open spec fn chars_of_digits(ds: Seq<u64>) -> Seq<char> {
    ds.map_values(|d: u64| digit_char(d as int))
}

/// Render a number in decimal.
pub fn u64_to_string(n: u64) -> (r: String)
    ensures
        r@ == dec_str(n as int),
{
    let mut digits: Vec<u64> = Vec::new();
    let mut rest: u64 = n;
    if rest == 0 {
        digits.push(0);
        proof {
            assert(chars_of_digits(digits@).reverse() =~= seq![digit_char(0)]);
        }
    }
    proof {
        if n > 0 {
            assert(dec_str(n as int) + chars_of_digits(digits@).reverse() =~= dec_str(n as int));
        }
    }
    while rest > 0
        invariant
            rest > 0 ==> dec_str(n as int) == dec_str(rest as int) + chars_of_digits(
                digits@,
            ).reverse(),
            rest == 0 ==> dec_str(n as int) == chars_of_digits(digits@).reverse(),
            forall|j: int| 0 <= j < digits@.len() ==> digits@[j] < 10,
        decreases rest,
    {
        let d = rest % 10;
        let ghost prev = rest;
        let ghost old_digits = digits@;
        digits.push(d);
        rest = rest / 10;
        proof {
            assert(chars_of_digits(digits@).reverse() =~= seq![digit_char(d as int)]
                + chars_of_digits(old_digits).reverse());
            if rest > 0 {
                assert(dec_str(prev as int) == dec_str(rest as int) + seq![digit_char(d as int)]);
                assert(dec_str(rest as int) + chars_of_digits(digits@).reverse() =~= (dec_str(
                    rest as int,
                ) + seq![digit_char(d as int)]) + chars_of_digits(old_digits).reverse());
            } else {
                assert(prev as int == d as int);
                assert(dec_str(prev as int) == seq![digit_char(d as int)]);
                assert(dec_str(n as int) =~= chars_of_digits(digits@).reverse());
            }
        }
    }
    let mut out = String::new();
    let len = digits.len();
    let mut i: usize = len;
    while i > 0
        invariant
            i <= len,
            len == digits@.len(),
            forall|j: int| 0 <= j < digits@.len() ==> digits@[j] < 10,
            out@ == chars_of_digits(digits@.subrange(i as int, len as int)).reverse(),
        decreases i,
    {
        i = i - 1;
        let ghost before = out@;
        out.append(digit_str(digits[i]));
        proof {
            assert(chars_of_digits(digits@.subrange(i as int, len as int)).reverse() =~= before
                + seq![digit_char(digits@[i as int] as int)]);
        }
    }
    proof {
        assert(digits@.subrange(0, len as int) =~= digits@);
    }
    out
}

/// The character of one decimal digit, as a string slice.
fn digit_str(d: u64) -> (c: &'static str)
    requires
        d < 10,
    ensures
        c@ == seq![digit_char(d as int)],
{
    proof {
        reveal_strlit("0");
        reveal_strlit("1");
        reveal_strlit("2");
        reveal_strlit("3");
        reveal_strlit("4");
        reveal_strlit("5");
        reveal_strlit("6");
        reveal_strlit("7");
        reveal_strlit("8");
        reveal_strlit("9");
    }
    if d == 0 {
        "0"
    } else if d == 1 {
        "1"
    } else if d == 2 {
        "2"
    } else if d == 3 {
        "3"
    } else if d == 4 {
        "4"
    } else if d == 5 {
        "5"
    } else if d == 6 {
        "6"
    } else if d == 7 {
        "7"
    } else if d == 8 {
        "8"
    } else {
        "9"
    }
}

} // verus!
