//! IPv4 and IPv6 literal grammar, and verified checkers for it.
//!
//! The grammar is the one the standard library's address parsers accept: an
//! IPv4 literal is four decimal octets (no leading zeros, each at most 255)
//! joined by `.`; an IPv6 literal is eight hexadecimal groups of one to four
//! digits joined by `:`, with at most one `::` standing for a run of zero
//! groups, and optionally a trailing embedded IPv4 literal counting as two
//! groups.

use vstd::prelude::*;

use crate::text::chars_of;
use crate::text::lemma_pieces_view;
use crate::text::split_at;
use crate::text::split_chars;

verus! {

pub open spec fn is_dec_digit(c: char) -> bool {
    '0' <= c && c <= '9'
}

pub open spec fn dec_val(c: char) -> int {
    c as int - '0' as int
}

pub open spec fn is_hex_digit(c: char) -> bool {
    is_dec_digit(c) || ('a' <= c && c <= 'f') || ('A' <= c && c <= 'F')
}

/// The numeric value of a decimal group of one to three digits.
pub open spec fn octet_val(g: Seq<char>) -> int {
    if g.len() == 1 {
        dec_val(g[0])
    } else if g.len() == 2 {
        10 * dec_val(g[0]) + dec_val(g[1])
    } else if g.len() == 3 {
        100 * dec_val(g[0]) + 10 * dec_val(g[1]) + dec_val(g[2])
    } else {
        -1
    }
}

/// One dotted piece of an IPv4 literal: one to three decimal digits, no
/// leading zero, value at most 255.
pub open spec fn is_octet(g: Seq<char>) -> bool {
    &&& 1 <= g.len() <= 3
    &&& (forall|i: int| 0 <= i < g.len() ==> is_dec_digit(#[trigger] g[i]))
    &&& (g.len() > 1 ==> g[0] != '0')
    &&& octet_val(g) <= 255
}

/// Whether `s` is an IPv4 literal: four octets joined by `.`.
pub open spec fn is_ipv4(s: Seq<char>) -> bool {
    let ps = split_at(s, '.');
    &&& ps.len() == 4
    &&& (forall|i: int| 0 <= i < 4 ==> is_octet(#[trigger] ps[i]))
}

/// One colon piece of an IPv6 literal: one to four hexadecimal digits.
pub open spec fn is_hex_group(g: Seq<char>) -> bool {
    &&& 1 <= g.len() <= 4
    &&& (forall|i: int| 0 <= i < g.len() ==> is_hex_digit(#[trigger] g[i]))
}

pub open spec fn no_empty_in(parts: Seq<Seq<char>>, from: int, to: int) -> bool {
    forall|i: int| from <= i < to ==> (#[trigger] parts[i]).len() > 0
}

pub open spec fn hex_groups_in(parts: Seq<Seq<char>>, from: int, to: int) -> bool {
    forall|i: int| from <= i < to ==> is_hex_group(#[trigger] parts[i])
}

/// The pieces after a `::`: at least one, none empty, all hexadecimal groups
/// but for the last, which may instead be an embedded IPv4 literal.
pub open spec fn tail_ok(parts: Seq<Seq<char>>, from: int, to: int) -> bool {
    &&& to - from >= 1
    &&& no_empty_in(parts, from, to)
    &&& hex_groups_in(parts, from, to - 1)
    &&& (is_hex_group(parts[to - 1]) || is_ipv4(parts[to - 1]))
}

/// How many of the eight groups the pieces `from .. to` stand for: an
/// embedded IPv4 literal at the end counts as two.
pub open spec fn tail_weight(parts: Seq<Seq<char>>, from: int, to: int) -> int {
    if is_ipv4(parts[to - 1]) {
        to - from + 1
    } else {
        to - from
    }
}

/// The index of the first empty piece at or after `i`, or `parts.len()` when
/// there is none.
pub open spec fn first_empty_from(parts: Seq<Seq<char>>, i: int) -> int
    decreases parts.len() - i,
{
    if i < 0 || i >= parts.len() {
        parts.len() as int
    } else if parts[i].len() == 0 {
        i
    } else {
        first_empty_from(parts, i + 1)
    }
}

pub proof fn lemma_first_empty_eq(parts: Seq<Seq<char>>, from: int, r: int)
    requires
        0 <= from <= r <= parts.len(),
        forall|j: int| from <= j < r ==> (#[trigger] parts[j]).len() > 0,
        r == parts.len() || parts[r].len() == 0,
    ensures
        first_empty_from(parts, from) == r,
    decreases r - from,
{
    if from < r {
        lemma_first_empty_eq(parts, from + 1, r);
    }
}

/// Whether the colon-separated pieces form an IPv6 literal. An empty piece
/// comes only from a `::` (two adjacent separators, or a leading or trailing
/// one); exactly one `::` is allowed, and the groups it stands for bring the
/// total to eight, so at most seven groups may be written out around it.
pub open spec fn is_ipv6_parts(parts: Seq<Seq<char>>) -> bool {
    let n = parts.len() as int;
    if n == 0 {
        false
    } else if no_empty_in(parts, 0, n) {
        // no `::`: all eight groups written out, the last two possibly as an
        // embedded IPv4 literal
        ||| (n == 8 && hex_groups_in(parts, 0, 8))
        ||| (n == 7 && hex_groups_in(parts, 0, 6) && is_ipv4(parts[6]))
    } else if n == 3 && parts[0].len() == 0 && parts[1].len() == 0 && parts[2].len() == 0 {
        // the bare `::`
        true
    } else if parts[0].len() == 0 {
        // a leading `::`
        &&& n >= 3
        &&& parts[1].len() == 0
        &&& tail_ok(parts, 2, n)
        &&& tail_weight(parts, 2, n) <= 7
    } else if parts[n - 1].len() == 0 {
        // a trailing `::`
        &&& n >= 3
        &&& parts[n - 2].len() == 0
        &&& no_empty_in(parts, 0, n - 2)
        &&& hex_groups_in(parts, 0, n - 2)
        &&& n - 2 <= 7
    } else {
        // a `::` in the middle
        let e = first_empty_from(parts, 0);
        &&& 0 < e < n - 1
        &&& hex_groups_in(parts, 0, e)
        &&& tail_ok(parts, e + 1, n)
        &&& e + tail_weight(parts, e + 1, n) <= 7
    }
}

/// Whether `s` is an IPv6 literal.
pub open spec fn is_ipv6(s: Seq<char>) -> bool {
    is_ipv6_parts(split_at(s, ':'))
}

/// Whether `s` is a valid IPv4 or IPv6 literal.
pub open spec fn is_ip_literal(s: Seq<char>) -> bool {
    is_ipv4(s) || is_ipv6(s)
}

fn check_octet(g: &Vec<char>) -> (r: bool)
    ensures
        r == is_octet(g@),
{
    if g.len() < 1 || g.len() > 3 {
        return false;
    }
    let mut i: usize = 0;
    while i < g.len()
        invariant
            i <= g@.len(),
            forall|j: int| 0 <= j < i ==> is_dec_digit(#[trigger] g@[j]),
        decreases g@.len() - i,
    {
        let c = g[i];
        if !('0' <= c && c <= '9') {
            return false;
        }
        i += 1;
    }
    if g.len() > 1 && g[0] == '0' {
        return false;
    }
    let val: u32 = if g.len() == 1 {
        g[0] as u32 - 48
    } else if g.len() == 2 {
        10 * (g[0] as u32 - 48) + (g[1] as u32 - 48)
    } else {
        100 * (g[0] as u32 - 48) + 10 * (g[1] as u32 - 48) + (g[2] as u32 - 48)
    };
    val <= 255
}

fn check_hex_group(g: &Vec<char>) -> (r: bool)
    ensures
        r == is_hex_group(g@),
{
    if g.len() < 1 || g.len() > 4 {
        return false;
    }
    let mut i: usize = 0;
    while i < g.len()
        invariant
            i <= g@.len(),
            forall|j: int| 0 <= j < i ==> is_hex_digit(#[trigger] g@[j]),
        decreases g@.len() - i,
    {
        let c = g[i];
        if !(('0' <= c && c <= '9') || ('a' <= c && c <= 'f') || ('A' <= c && c <= 'F')) {
            return false;
        }
        i += 1;
    }
    true
}

fn check_ipv4_chars(v: &Vec<char>) -> (r: bool)
    ensures
        r == is_ipv4(v@),
{
    let parts = split_chars(v, '.');
    proof {
        lemma_pieces_view(parts);
    }
    if parts.len() != 4 {
        return false;
    }
    let mut i: usize = 0;
    while i < 4
        invariant
            i <= 4,
            parts@.len() == 4,
            parts.deep_view() == split_at(v@, '.'),
            forall|j: int|
                0 <= j < i ==> is_octet(#[trigger] parts.deep_view()[j]),
        decreases 4 - i,
    {
        proof {
            lemma_pieces_view(parts);
        }
        if !check_octet(&parts[i]) {
            return false;
        }
        i += 1;
    }
    true
}

fn no_empty_range(parts: &Vec<Vec<char>>, from: usize, to: usize) -> (r: bool)
    requires
        from <= to <= parts@.len(),
    ensures
        r == no_empty_in(parts.deep_view(), from as int, to as int),
{
    proof {
        lemma_pieces_view(*parts);
    }
    let mut i = from;
    while i < to
        invariant
            from <= i <= to <= parts@.len(),
            parts.deep_view().len() == parts@.len(),
            forall|j: int|
                0 <= j < parts@.len() ==> parts.deep_view()[j] == (#[trigger] parts@[j])@,
            forall|j: int|
                from <= j < i ==> (#[trigger] parts.deep_view()[j]).len() > 0,
        decreases to - i,
    {
        if parts[i].len() == 0 {
            return false;
        }
        i += 1;
    }
    true
}

fn all_hex_range(parts: &Vec<Vec<char>>, from: usize, to: usize) -> (r: bool)
    requires
        from <= to <= parts@.len(),
    ensures
        r == hex_groups_in(parts.deep_view(), from as int, to as int),
{
    proof {
        lemma_pieces_view(*parts);
    }
    let mut i = from;
    while i < to
        invariant
            from <= i <= to <= parts@.len(),
            parts.deep_view().len() == parts@.len(),
            forall|j: int|
                0 <= j < parts@.len() ==> parts.deep_view()[j] == (#[trigger] parts@[j])@,
            forall|j: int|
                from <= j < i ==> is_hex_group(#[trigger] parts.deep_view()[j]),
        decreases to - i,
    {
        if !check_hex_group(&parts[i]) {
            return false;
        }
        i += 1;
    }
    true
}

fn first_empty(parts: &Vec<Vec<char>>) -> (r: usize)
    ensures
        r == first_empty_from(parts.deep_view(), 0),
{
    proof {
        lemma_pieces_view(*parts);
    }
    let mut i: usize = 0;
    while i < parts.len()
        invariant
            i <= parts@.len(),
            parts.deep_view().len() == parts@.len(),
            forall|j: int|
                0 <= j < parts@.len() ==> parts.deep_view()[j] == (#[trigger] parts@[j])@,
            forall|j: int|
                0 <= j < i ==> (#[trigger] parts.deep_view()[j]).len() > 0,
        decreases parts@.len() - i,
    {
        if parts[i].len() == 0 {
            proof {
                lemma_first_empty_eq(parts.deep_view(), 0, i as int);
            }
            return i;
        }
        i += 1;
    }
    proof {
        lemma_first_empty_eq(parts.deep_view(), 0, parts@.len() as int);
    }
    parts.len()
}

/// The pieces after a `::`, checked together with the group budget `limit`.
fn tail_check(parts: &Vec<Vec<char>>, from: usize, limit: usize) -> (r: bool)
    requires
        from <= parts@.len(),
    ensures
        r == (tail_ok(parts.deep_view(), from as int, parts@.len() as int) && tail_weight(
            parts.deep_view(),
            from as int,
            parts@.len() as int,
        ) <= limit as int),
{
    proof {
        lemma_pieces_view(*parts);
    }
    let n = parts.len();
    if !(from < n) {
        return false;
    }
    if !no_empty_range(parts, from, n) {
        return false;
    }
    if !all_hex_range(parts, from, n - 1) {
        return false;
    }
    let last_v4 = check_ipv4_chars(&parts[n - 1]);
    let last_hex = check_hex_group(&parts[n - 1]);
    if !(last_hex || last_v4) {
        return false;
    }
    let written = n - from;
    if last_v4 {
        limit >= 1 && written <= limit - 1
    } else {
        written <= limit
    }
}

fn check_ipv6_chars(v: &Vec<char>) -> (r: bool)
    ensures
        r == is_ipv6(v@),
{
    let parts = split_chars(v, ':');
    proof {
        lemma_pieces_view(parts);
    }
    let n = parts.len();
    if n == 0 {
        return false;
    }
    if no_empty_range(&parts, 0, n) {
        if n == 8 {
            return all_hex_range(&parts, 0, 8);
        }
        if n == 7 {
            if !all_hex_range(&parts, 0, 6) {
                return false;
            }
            return check_ipv4_chars(&parts[6]);
        }
        return false;
    }
    if n == 3 && parts[0].len() == 0 && parts[1].len() == 0 && parts[2].len() == 0 {
        return true;
    }
    if parts[0].len() == 0 {
        if n < 3 {
            return false;
        }
        if parts[1].len() != 0 {
            return false;
        }
        return tail_check(&parts, 2, 7);
    }
    if parts[n - 1].len() == 0 {
        if n < 3 {
            return false;
        }
        if parts[n - 2].len() != 0 {
            return false;
        }
        if !no_empty_range(&parts, 0, n - 2) {
            return false;
        }
        if !all_hex_range(&parts, 0, n - 2) {
            return false;
        }
        return n - 2 <= 7;
    }
    let e = first_empty(&parts);
    if !(0 < e && e < n - 1) {
        return false;
    }
    if !all_hex_range(&parts, 0, e) {
        return false;
    }
    if e >= 7 {
        proof {
            let dv = parts.deep_view();
            if tail_ok(dv, e as int + 1, n as int) {
                assert(tail_weight(dv, e as int + 1, n as int) >= 1);
            }
        }
        return false;
    }
    tail_check(&parts, e + 1, 7 - e)
}

/// Whether `s` is an IPv4 literal, such as `203.0.113.5`.
pub fn check_ipv4(s: &str) -> (r: bool)
    ensures
        r == is_ipv4(s@),
{
    let v = chars_of(s);
    check_ipv4_chars(&v)
}

/// Whether `s` is an IPv6 literal, such as `2001:db8::1`.
pub fn check_ipv6(s: &str) -> (r: bool)
    ensures
        r == is_ipv6(s@),
{
    let v = chars_of(s);
    check_ipv6_chars(&v)
}

/// Whether `s` is a valid IPv4 or IPv6 literal.
pub fn check_ip_literal(s: &str) -> (r: bool)
    ensures
        r == is_ip_literal(s@),
{
    if check_ipv4(s) {
        true
    } else {
        check_ipv6(s)
    }
}

} // verus!
