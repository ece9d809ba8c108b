//! Byte classes and scanning helpers that the lexical grammar is written with.

use vstd::prelude::*;

verus! {

/// The byte at `i`, or 0 past either end of the text (the tokenizer reads
/// a NUL there).
pub open spec fn byte_at(b: Seq<u8>, i: int) -> u8 {
    if 0 <= i < b.len() {
        b[i]
    } else {
        0
    }
}

pub open spec fn is_digit(c: u8) -> bool {
    48 <= c <= 57
}

pub open spec fn is_hex_digit(c: u8) -> bool {
    ||| 48 <= c <= 57
    ||| 97 <= c <= 102
    ||| 65 <= c <= 70
}

pub open spec fn is_ident_start(c: u8) -> bool {
    ||| c == 95
    ||| 97 <= c <= 122
    ||| 65 <= c <= 90
}

pub open spec fn is_ident_char(c: u8) -> bool {
    is_ident_start(c) || is_digit(c)
}

/// `\r` or `\n`.
pub open spec fn is_newline(c: u8) -> bool {
    c == 13 || c == 10
}

pub open spec fn is_not_newline(c: u8) -> bool {
    !is_newline(c)
}

pub open spec fn is_equal_sign(c: u8) -> bool {
    c == 61
}

/// The first offset at or after `i` that is at the end of the text or holds
/// a byte outside the class `p` (what `eat_while` stops at).
pub open spec fn skip_while(b: Seq<u8>, i: int, p: spec_fn(u8) -> bool) -> int
    decreases b.len() - i,
{
    if i >= b.len() || !p(b[i]) {
        i
    } else {
        skip_while(b, i + 1, p)
    }
}

/// `skip_while` is pinned down by its two properties: the bytes it passes are
/// in the class, and it stops at the end or at a byte outside it.
pub proof fn lemma_skip_while_unique(b: Seq<u8>, i: int, j: int, p: spec_fn(u8) -> bool)
    requires
        0 <= i <= j <= b.len(),
        forall|k: int| i <= k < j ==> #[trigger] p(b[k]),
        j >= b.len() || !p(b[j]),
    ensures
        skip_while(b, i, p) == j,
    decreases j - i,
{
    if i < j {
        lemma_skip_while_unique(b, i + 1, j, p);
    }
}

pub proof fn lemma_skip_while_bounds(b: Seq<u8>, i: int, p: spec_fn(u8) -> bool)
    requires
        0 <= i,
    ensures
        skip_while(b, i, p) >= i,
        i <= b.len() ==> skip_while(b, i, p) <= b.len(),
        forall|k: int| #![trigger b[k]] i <= k < skip_while(b, i, p) ==> 0 <= k < b.len() && p(b[k]),
        skip_while(b, i, p) >= b.len() || !p(b[skip_while(b, i, p)]),
    decreases b.len() - i,
{
    if i >= b.len() || !p(b[i]) {
    } else {
        lemma_skip_while_bounds(b, i + 1, p);
        assert forall|k: int| #![trigger b[k]] i <= k < skip_while(b, i, p) implies 0 <= k < b.len() && p(b[k]) by {
            if k > i {
                assert(i + 1 <= k < skip_while(b, i + 1, p));
            }
        }
    }
}

/// The first index at or after `from` holding the byte `c`, if any.
pub open spec fn find_byte(b: Seq<u8>, from: int, c: u8) -> Option<int>
    decreases b.len() - from,
{
    if from >= b.len() {
        None
    } else if b[from] == c {
        Some(from)
    } else {
        find_byte(b, from + 1, c)
    }
}

pub proof fn lemma_find_byte(b: Seq<u8>, from: int, c: u8)
    requires
        0 <= from,
    ensures
        match find_byte(b, from, c) {
            Some(j) => from <= j < b.len() && b[j] == c && forall|k: int|
                from <= k < j ==> #[trigger] b[k] != c,
            None => forall|k: int| from <= k < b.len() ==> #[trigger] b[k] != c,
        },
    decreases b.len() - from,
{
    if from < b.len() && b[from] != c {
        lemma_find_byte(b, from + 1, c);
    }
}

pub proof fn lemma_find_byte_unique(b: Seq<u8>, from: int, c: u8, j: int)
    requires
        0 <= from <= j < b.len(),
        b[j] == c,
        forall|k: int| from <= k < j ==> #[trigger] b[k] != c,
    ensures
        find_byte(b, from, c) == Some(j),
    decreases j - from,
{
    if from < j {
        lemma_find_byte_unique(b, from + 1, c, j);
    }
}

pub proof fn lemma_find_byte_none(b: Seq<u8>, from: int, c: u8)
    requires
        0 <= from,
        forall|k: int| from <= k < b.len() ==> #[trigger] b[k] != c,
    ensures
        find_byte(b, from, c) is None,
    decreases b.len() - from,
{
    if from < b.len() {
        lemma_find_byte_none(b, from + 1, c);
    }
}

} // verus!

verus! {

/// Where `eat_while` stops with a predicate that decides the class `p`:
/// exactly at `skip_while`.
pub proof fn lemma_eat_is_skip<F: Fn(u8) -> bool>(
    b: Seq<u8>,
    start: int,
    end: int,
    f: F,
    p: spec_fn(u8) -> bool,
)
    requires
        0 <= start <= end <= b.len(),
        forall|x: u8, r: bool| call_ensures(f, (x,), r) ==> r == p(x),
        forall|k: int| start <= k < end ==> call_ensures(f, (#[trigger] b[k],), true),
        end >= b.len() || call_ensures(f, (b[end],), false),
    ensures
        end == skip_while(b, start, p),
        forall|k: int| start <= k < end ==> #[trigger] p(b[k]),
{
    assert forall|k: int| start <= k < end implies #[trigger] p(b[k]) by {
        assert(call_ensures(f, (b[k],), true));
    }
    lemma_skip_while_unique(b, start, end, p);
}

} // verus!
