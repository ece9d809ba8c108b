//! Facts about the UTF-8 bytes of the source text, and cutting text out of it.

use vstd::prelude::*;
use vstd::string::StringSliceAdditionalSpecFns;
use vstd::utf8::{
    is_char_boundary, is_char_boundary_iff_not_is_continuation_byte,
    is_char_boundary_start_end_of_seq, is_continuation_byte, length_of_first_scalar,
    pop_first_scalar, valid_utf8, valid_utf8_split, encode_utf8, encode_utf8_valid_utf8,
};

verus! {

/// `i` is a place where the tokenizer may cut the source: its start, its end,
/// an ASCII byte, or the byte right after an ASCII byte.
pub open spec fn ascii_cut(b: Seq<u8>, i: int) -> bool {
    &&& 0 <= i <= b.len()
    &&& (i == 0 || i == b.len() || b[i] < 128 || b[i - 1] < 128)
}

proof fn lemma_after_ascii_is_boundary(b: Seq<u8>, i: int)
    requires
        valid_utf8(b),
        0 < i <= b.len(),
        is_char_boundary(b, i - 1),
        b[i - 1] < 128,
    ensures
        is_char_boundary(b, i),
    decreases b.len(),
{
    reveal_with_fuel(is_char_boundary, 2);
    let len1 = length_of_first_scalar(b);
    let tail = pop_first_scalar(b);
    if i - 1 == 0 {
        assert(len1 == 1);
        assert(is_char_boundary(tail, 0));
    } else {
        assert(tail.len() == b.len() - len1);
        assert(is_char_boundary(tail, i - 1 - len1));
        assert(tail[i - 1 - len1] == b[i - 1]);
        lemma_after_ascii_is_boundary(tail, i - len1);
    }
}

/// Every cut point of valid UTF-8 text falls on a character boundary.
pub proof fn lemma_ascii_cut_is_boundary(b: Seq<u8>, i: int)
    requires
        valid_utf8(b),
        ascii_cut(b, i),
    ensures
        is_char_boundary(b, i),
{
    is_char_boundary_start_end_of_seq(b);
    if i == 0 || i == b.len() {
    } else if b[i] < 128 {
        is_char_boundary_iff_not_is_continuation_byte(b, i);
    } else {
        is_char_boundary_iff_not_is_continuation_byte(b, i - 1);
        lemma_after_ascii_is_boundary(b, i);
    }
}

/// The text of `input` between the byte offsets `start` and `end`.
pub fn substring(input: &str, start: usize, end: usize) -> (r: String)
    requires
        start <= end,
        ascii_cut(input.spec_bytes(), start as int),
        ascii_cut(input.spec_bytes(), end as int),
    ensures
        encode_utf8(r@) == input.spec_bytes().subrange(start as int, end as int),
{
    let ghost b = input.spec_bytes();
    proof {
        encode_utf8_valid_utf8(input@);
        lemma_ascii_cut_is_boundary(b, end as int);
    }
    let (left, _) = input.split_at(end);
    proof {
        let lb = left.spec_bytes();
        assert(lb == b.subrange(0, end as int));
        valid_utf8_split(b, end as int);
        if start < end {
            assert(lb[start as int] == b[start as int]);
            if start > 0 {
                assert(lb[start - 1] == b[start - 1]);
            }
        }
        assert(ascii_cut(lb, start as int));
        lemma_ascii_cut_is_boundary(lb, start as int);
    }
    let (_, mid) = left.split_at(start);
    proof {
        assert(mid.spec_bytes() =~= b.subrange(start as int, end as int));
    }
    mid.to_owned()
}

/// The text of `input` between the byte offsets `start` and `end`, both on
/// character boundaries.
pub fn cut_text(input: &str, start: usize, end: usize) -> (r: String)
    requires
        start <= end <= input.spec_bytes().len(),
        is_char_boundary(input.spec_bytes(), start as int),
        is_char_boundary(input.spec_bytes(), end as int),
    ensures
        encode_utf8(r@) == input.spec_bytes().subrange(start as int, end as int),
{
    let ghost b = input.spec_bytes();
    proof {
        encode_utf8_valid_utf8(input@);
    }
    let (left, _) = input.split_at(end);
    proof {
        let lb = left.spec_bytes();
        assert(lb == b.subrange(0, end as int));
        valid_utf8_split(b, end as int);
        is_char_boundary_start_end_of_seq(lb);
        if start < end {
            is_char_boundary_iff_not_is_continuation_byte(b, start as int);
            is_char_boundary_iff_not_is_continuation_byte(lb, start as int);
            assert(lb[start as int] == b[start as int]);
        }
    }
    let (_, mid) = left.split_at(start);
    proof {
        assert(mid.spec_bytes() =~= b.subrange(start as int, end as int));
    }
    mid.to_owned()
}

} // verus!
