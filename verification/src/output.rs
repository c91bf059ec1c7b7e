//! Output selection and the helpers used when rendering records.
//!
//! The crate itself never writes to the terminal: a command's record or
//! record collection is handed to the process boundary together with the
//! selected [`Format`].  What is verified here is the shaping that happens
//! before rendering — collecting a list of display strings into one sorted,
//! newline-joined block.

use vstd::prelude::*;
use vstd::string::StrSliceExecFns;

use crate::text::join_sep;
use crate::text::joined_sep;

verus! {

/// How a command's result is rendered at the process boundary: a
/// human-readable table, or a JSON document.
#[derive(Debug, Clone, Copy, PartialEq, Eq, Structural)]
pub enum Format {
    Pretty,
    Json,
}

impl Default for Format {
    /// The default output format is the human-readable table.
    fn default() -> (r: Format)
        ensures
            r == Format::Pretty,
    {
        Format::Pretty
    }
}

/// Lexicographic order on character sequences, by code point.  For UTF-8
/// encoded text this coincides with the byte-wise order `str` sorts by.
pub open spec fn lex_leq(a: Seq<char>, b: Seq<char>) -> bool
    decreases a.len(),
{
    if a.len() == 0 {
        true
    } else if b.len() == 0 {
        false
    } else if a[0] == b[0] {
        lex_leq(a.drop_first(), b.drop_first())
    } else {
        (a[0] as u32) < (b[0] as u32)
    }
}

/// Lexicographic order is total: of any two strings, one sorts at or before
/// the other.
pub proof fn lemma_lex_leq_total(a: Seq<char>, b: Seq<char>)
    ensures
        lex_leq(a, b) || lex_leq(b, a),
    decreases a.len(),
{
    if a.len() == 0 || b.len() == 0 {
    } else if a[0] == b[0] {
        lemma_lex_leq_total(a.drop_first(), b.drop_first());
    } else {
        lemma_char_scalar_ne(a[0], b[0]);
    }
}

/// Distinct characters have distinct scalar values.
proof fn lemma_char_scalar_ne(x: char, y: char)
    requires
        x != y,
    ensures
        x as u32 != y as u32,
{
}

/// Lexicographic order is transitive.
pub proof fn lemma_lex_leq_trans(a: Seq<char>, b: Seq<char>, c: Seq<char>)
    requires
        lex_leq(a, b),
        lex_leq(b, c),
    ensures
        lex_leq(a, c),
    decreases a.len(),
{
    if a.len() != 0 && b.len() != 0 && c.len() != 0 && a[0] == b[0] && b[0] == c[0] {
        lemma_lex_leq_trans(a.drop_first(), b.drop_first(), c.drop_first());
    }
}

/// Whether `a` sorts at or before `b` in lexicographic code-point order.
pub fn str_leq(a: &str, b: &str) -> (r: bool)
    ensures
        r == lex_leq(a@, b@),
{
    let a_len = a.unicode_len();
    let b_len = b.unicode_len();
    let mut i: usize = 0;
    proof {
        assert(a@.skip(0) =~= a@);
        assert(b@.skip(0) =~= b@);
    }
    loop
        invariant
            i <= a_len,
            i <= b_len,
            a_len == a@.len(),
            b_len == b@.len(),
            lex_leq(a@, b@) == lex_leq(a@.skip(i as int), b@.skip(i as int)),
        decreases a_len - i,
    {
        if i == a_len {
            return true;
        }
        if i == b_len {
            return false;
        }
        let ca = a.get_char(i);
        let cb = b.get_char(i);
        if ca != cb {
            return (ca as u32) < (cb as u32);
        }
        proof {
            assert(a@.skip(i as int).drop_first() =~= a@.skip(i as int + 1));
            assert(b@.skip(i as int).drop_first() =~= b@.skip(i as int + 1));
        }
        i = i + 1;
    }
}

/// Whether a sequence of strings is sorted in lexicographic order.
pub open spec fn lex_sorted(v: Seq<String>) -> bool {
    forall|i: int, j: int| 0 <= i < j < v.len() ==> lex_leq(v[i]@, v[j]@)
}

/// Insert one string into an already sorted vector, keeping it sorted.
fn insert_sorted(v: &mut Vec<String>, s: String)
    requires
        lex_sorted(old(v)@),
    ensures
        final(v)@.to_multiset() == old(v)@.to_multiset().insert(s),
        lex_sorted(final(v)@),
{
    broadcast use vstd::seq_lib::to_multiset_insert;

    let n = v.len();
    let mut pos: usize = 0;
    while pos < n && str_leq(v[pos].as_str(), s.as_str())
        invariant
            n == v.len(),
            pos <= n,
            lex_sorted(v@),
            forall|j: int| 0 <= j < pos ==> lex_leq(v@[j]@, s@),
        decreases n - pos,
    {
        pos = pos + 1;
    }
    proof {
        if pos < n {
            lemma_lex_leq_total(s@, v@[pos as int]@);
        }
        let u = v@.insert(pos as int, s);
        assert forall|i: int, j: int| 0 <= i < j < u.len() implies lex_leq(u[i]@, u[j]@) by {
            if i < pos && j == pos {
                assert(lex_leq(u[i]@, s@));
            } else if i == pos && j == pos + 1 {
                assert(u[j] == v@[pos as int]);
            } else if i == pos && j > pos + 1 {
                assert(lex_leq(v@[pos as int]@, v@[j - 1]@));
                lemma_lex_leq_trans(s@, v@[pos as int]@, v@[j - 1]@);
            }
        }
    }
    v.insert(pos, s);
}

/// Collect display strings into one block for table rendering: the strings
/// sorted in lexicographic order, joined by newlines.  The result holds
/// exactly the given strings — sorting permutes, never drops or changes.
pub fn display(value: &Vec<String>) -> (r: String)
    ensures
        exists|sorted: Seq<String>|
            {
                &&& sorted.to_multiset() == value@.to_multiset()
                &&& lex_sorted(sorted)
                &&& r@ == joined_sep(sorted, seq!['\n'])
            },
{
    broadcast use vstd::seq_lib::to_multiset_build;

    let mut sorted: Vec<String> = Vec::new();
    let n = value.len();
    proof {
        assert(value@.take(0) =~= Seq::<String>::empty());
        assert(sorted@ =~= value@.take(0));
    }
    for i in 0..n
        invariant
            n == value.len(),
            sorted@.to_multiset() == value@.take(i as int).to_multiset(),
            lex_sorted(sorted@),
    {
        proof {
            assert(value@.take(i as int).push(value@[i as int]) =~= value@.take(i as int + 1));
            vstd::seq_lib::to_multiset_build(value@.take(i as int), value@[i as int]);
        }
        insert_sorted(&mut sorted, value[i].clone());
    }
    proof {
        assert(value@.take(n as int) =~= value@);
    }
    let ghost final_sorted = sorted@;
    let joined = join_sep(&sorted, "\n");
    proof {
        reveal_strlit("\n");
        assert("\n"@ =~= seq!['\n']);
        assert(final_sorted.to_multiset() == value@.to_multiset());
    }
    joined
}

} // verus!
