//! Searching the source for a byte, through the `memchr` crate.

use crate::tokenizer::lexical::{find_byte, lemma_find_byte_none, lemma_find_byte_unique};
use vstd::prelude::*;

verus! {

/// Calls `memchr::memchr` on `haystack[from..]`. Its documentation promises
/// the index (within that slice) of the first occurrence of `needle`, or
/// `None` when the slice holds none; the contract says exactly that.
#[verifier::external_body]
fn memchr_from(needle: u8, haystack: &[u8], from: usize) -> (r: Option<usize>)
    requires
        from <= haystack@.len(),
    ensures
        match r {
            Some(k) => {
                &&& from + k < haystack@.len()
                &&& haystack@[from + k] == needle
                &&& forall|l: int| from <= l < from + k ==> haystack@[l] != needle
            },
            None => forall|l: int| from <= l < haystack@.len() ==> haystack@[l] != needle,
        },
{
    memchr::memchr(needle, &haystack[from..])
}

/// The distance from `from` to the first `needle` at or after it.
pub fn find_from(needle: u8, haystack: &[u8], from: usize) -> (r: Option<usize>)
    requires
        from <= haystack@.len(),
    ensures
        match find_byte(haystack@, from as int, needle) {
            Some(j) => r == Some((j - from) as usize),
            None => r is None,
        },
{
    let r = memchr_from(needle, haystack, from);
    proof {
        match r {
            Some(k) => {
                assert forall|l: int| from <= l < from + k implies #[trigger] haystack@[l] != needle by {
                }
                lemma_find_byte_unique(haystack@, from as int, needle, from + k);
            },
            None => {
                assert forall|l: int| from <= l < haystack@.len() implies #[trigger] haystack@[l] != needle by {
                }
                lemma_find_byte_none(haystack@, from as int, needle);
            },
        }
    }
    r
}

} // verus!
