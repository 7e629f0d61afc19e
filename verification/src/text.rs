//! Character-level text utilities: the characters of a string, exact string
//! comparison, and splitting on a separator character.

use vstd::prelude::*;

verus! {

/// The index of the first occurrence of `sep` in `s` at or after `i`, or
/// `s.len()` when there is none.
pub open spec fn find_from(s: Seq<char>, sep: char, i: int) -> int
    decreases s.len() - i,
{
    if i < 0 || i >= s.len() {
        s.len() as int
    } else if s[i] == sep {
        i
    } else {
        find_from(s, sep, i + 1)
    }
}

pub proof fn lemma_find_from_bounds(s: Seq<char>, sep: char, i: int)
    requires
        0 <= i <= s.len(),
    ensures
        i <= find_from(s, sep, i) <= s.len(),
        find_from(s, sep, i) < s.len() ==> s[find_from(s, sep, i)] == sep,
        forall|j: int| i <= j < find_from(s, sep, i) ==> s[j] != sep,
    decreases s.len() - i,
{
    if i < s.len() && s[i] != sep {
        lemma_find_from_bounds(s, sep, i + 1);
    }
}

pub proof fn lemma_find_from_eq(s: Seq<char>, sep: char, from: int, r: int)
    requires
        0 <= from <= r <= s.len(),
        forall|j: int| from <= j < r ==> s[j] != sep,
        r == s.len() || s[r] == sep,
    ensures
        find_from(s, sep, from) == r,
    decreases r - from,
{
    if from < r {
        lemma_find_from_eq(s, sep, from + 1, r);
    }
}

/// The pieces of `s` between occurrences of `sep`, from index `from` on.
/// Empty pieces are kept, so `n` separators give `n + 1` pieces.
pub open spec fn split_from(s: Seq<char>, sep: char, from: int) -> Seq<Seq<char>>
    decreases s.len() - from,
    via split_from_decreases
{
    if !(0 <= from <= s.len()) {
        Seq::empty()
    } else {
        let j = find_from(s, sep, from);
        if j >= s.len() {
            seq![s.subrange(from, s.len() as int)]
        } else {
            seq![s.subrange(from, j)] + split_from(s, sep, j + 1)
        }
    }
}

#[via_fn]
proof fn split_from_decreases(s: Seq<char>, sep: char, from: int) {
    if 0 <= from <= s.len() {
        lemma_find_from_bounds(s, sep, from);
    }
}

/// All the pieces of `s` between occurrences of `sep`.
pub open spec fn split_at(s: Seq<char>, sep: char) -> Seq<Seq<char>> {
    split_from(s, sep, 0)
}

/// The characters of `s`, one by one.
pub fn chars_of(s: &str) -> (r: Vec<char>)
    ensures
        r@ == s@,
{
    let n = s.unicode_len();
    let mut r: Vec<char> = Vec::new();
    let mut i: usize = 0;
    while i < n
        invariant
            i <= n,
            n == s@.len(),
            r@ == s@.subrange(0, i as int),
        decreases n - i,
    {
        r.push(s.get_char(i));
        proof {
            assert(r@ =~= s@.subrange(0, i + 1 as int));
        }
        i += 1;
    }
    proof {
        assert(r@ =~= s@);
    }
    r
}

/// Whether two strings hold exactly the same characters.
pub fn str_eq(a: &str, b: &str) -> (r: bool)
    ensures
        r == (a@ == b@),
{
    let na = a.unicode_len();
    let nb = b.unicode_len();
    if na != nb {
        return false;
    }
    let mut i: usize = 0;
    while i < na
        invariant
            i <= na,
            na == a@.len(),
            na == b@.len(),
            forall|j: int| 0 <= j < i ==> a@[j] == b@[j],
        decreases na - i,
    {
        if a.get_char(i) != b.get_char(i) {
            return false;
        }
        i += 1;
    }
    proof {
        assert(a@ =~= b@);
    }
    true
}

/// The characters of `s` from `from` (inclusive) to `to` (exclusive).
pub fn copy_range(s: &Vec<char>, from: usize, to: usize) -> (r: Vec<char>)
    requires
        from <= to <= s@.len(),
    ensures
        r@ == s@.subrange(from as int, to as int),
{
    let mut r: Vec<char> = Vec::new();
    let mut i = from;
    while i < to
        invariant
            from <= i <= to <= s@.len(),
            r@ == s@.subrange(from as int, i as int),
        decreases to - i,
    {
        r.push(s[i]);
        proof {
            assert(r@ =~= s@.subrange(from as int, i + 1 as int));
        }
        i += 1;
    }
    r
}

/// The view of a `Vec<char>` and its deep view are the same sequence.
pub proof fn lemma_chars_deep_view(v: Vec<char>)
    ensures
        v.deep_view() =~= v@,
{
}

/// The deep view of a piece vector indexes to the views of its pieces.
pub proof fn lemma_pieces_view(parts: Vec<Vec<char>>)
    ensures
        parts.deep_view().len() == parts@.len(),
        forall|i: int|
            0 <= i < parts@.len() ==> parts.deep_view()[i] =~= (#[trigger] parts@[i])@,
{
    assert forall|i: int| 0 <= i < parts@.len() implies parts.deep_view()[i] =~= (
    #[trigger] parts@[i])@ by {
        lemma_chars_deep_view(parts@[i]);
    }
}

fn split_into(s: &Vec<char>, sep: char, from: usize, out: &mut Vec<Vec<char>>)
    requires
        from <= s@.len(),
    ensures
        final(out).deep_view() == old(out).deep_view() + split_from(s@, sep, from as int),
    decreases s@.len() - from,
{
    proof {
        lemma_find_from_bounds(s@, sep, from as int);
    }
    let j = find_char(s, sep, from);
    let piece = copy_range(s, from, j);
    proof {
        lemma_chars_deep_view(piece);
    }
    out.push(piece);
    if j < s.len() {
        split_into(s, sep, j + 1, out);
    }
    proof {
        assert(out.deep_view() =~~= old(out).deep_view() + split_from(s@, sep, from as int));
    }
}

/// The index of the first occurrence of `sep` in `s` at or after `from`, or
/// the length of `s` when there is none.
pub fn find_char(s: &Vec<char>, sep: char, from: usize) -> (r: usize)
    requires
        from <= s@.len(),
    ensures
        r == find_from(s@, sep, from as int),
{
    let mut i = from;
    while i < s.len()
        invariant
            from <= i <= s@.len(),
            forall|j: int| from <= j < i ==> s@[j] != sep,
        decreases s@.len() - i,
    {
        if s[i] == sep {
            proof {
                lemma_find_from_eq(s@, sep, from as int, i as int);
            }
            return i;
        }
        i += 1;
    }
    proof {
        lemma_find_from_eq(s@, sep, from as int, s@.len() as int);
    }
    s.len()
}

/// The pieces of `s` between occurrences of `sep`; empty pieces are kept.
pub fn split_chars(s: &Vec<char>, sep: char) -> (parts: Vec<Vec<char>>)
    ensures
        parts.deep_view() == split_at(s@, sep),
{
    let mut out: Vec<Vec<char>> = Vec::new();
    split_into(s, sep, 0, &mut out);
    proof {
        assert(out.deep_view() =~~= split_at(s@, sep));
    }
    out
}

/// Relies on `String`'s `FromIterator<char>` implementation: collecting
/// characters yields the string of exactly those characters, in order.
#[verifier::external_body]
pub fn string_from_chars(v: &Vec<char>) -> (r: String)
    ensures
        r@ == v@,
{
    v.iter().collect()
}

} // verus!
