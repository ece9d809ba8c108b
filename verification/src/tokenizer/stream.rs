//! The token sequence of a whole source, and the stream the parser reads.

use crate::ast::{Token, TokenTypeV, TokenV};
use crate::tokenizer::grammar::{lemma_lex_progress, lex};
use crate::tokenizer::cursor::source_fits;
use crate::tokenizer::inner::{lex_token, Tokenizer};
use vstd::prelude::*;
use vstd::string::StringSliceAdditionalSpecFns;

verus! {

/// All tokens read from offset `o` to the end of the source.
pub open spec fn lex_all(b: Seq<u8>, o: int) -> Seq<TokenV>
    decreases b.len() + 1 - o,
{
    if o < 0 || o >= b.len() {
        seq![]
    } else {
        proof {
            lemma_lex_progress(b, o);
        }
        seq![lex_token(b, o)] + lex_all(b, lex(b, o).end)
    }
}

/// The views of a sequence of tokens.
pub open spec fn token_views(ts: Seq<Token>) -> Seq<TokenV> {
    ts.map_values(|t: Token| t@)
}

/// The next token from offset `o`, skipping trivia when `exclude_trivias`
/// is set, and the offset after it.
pub open spec fn next_token_from(b: Seq<u8>, exclude_trivias: bool, o: int) -> (
    Option<TokenV>,
    int,
)
    decreases b.len() + 1 - o,
{
    if o < 0 || o >= b.len() {
        (None, o)
    } else {
        proof {
            lemma_lex_progress(b, o);
        }
        if exclude_trivias && lex(b, o).token_type is Trivia {
            next_token_from(b, exclude_trivias, lex(b, o).end)
        } else {
            (Some(lex_token(b, o)), lex(b, o).end)
        }
    }
}

pub proof fn lemma_next_token_from_bounds(b: Seq<u8>, exclude_trivias: bool, o: int)
    requires
        0 <= o <= b.len() + 1,
    ensures
        o <= next_token_from(b, exclude_trivias, o).1 <= b.len() + 1,
        next_token_from(b, exclude_trivias, o).0 is None ==> next_token_from(
            b,
            exclude_trivias,
            o,
        ).1 >= b.len(),
        next_token_from(b, exclude_trivias, o).0 is Some ==> o < next_token_from(
            b,
            exclude_trivias,
            o,
        ).1,
        exclude_trivias ==> !(next_token_from(b, exclude_trivias, o).0 matches Some(t)
            && t.token_type is Trivia),
    decreases b.len() + 1 - o,
{
    if 0 <= o < b.len() {
        lemma_lex_progress(b, o);
        if exclude_trivias && lex(b, o).token_type is Trivia {
            lemma_next_token_from_bounds(b, exclude_trivias, lex(b, o).end);
        }
    }
}

} // verus!

verus! {

/// All tokens that a stream yields from offset `o` on.
pub open spec fn stream_all(b: Seq<u8>, exclude_trivias: bool, o: int) -> Seq<TokenV>
    decreases b.len() + 2 - o,
{
    if o < 0 || o > b.len() + 1 {
        seq![]
    } else {
        proof {
            lemma_next_token_from_bounds(b, exclude_trivias, o);
        }
        match next_token_from(b, exclude_trivias, o).0 {
            None => seq![],
            Some(t) => seq![t] + stream_all(b, exclude_trivias, next_token_from(b, exclude_trivias, o).1),
        }
    }
}

/// Reads every token of `input`, trivia included.
pub fn tokenize(input: &str) -> (r: Vec<Token>)
    requires
        source_fits(input.spec_bytes().len() as int),
    ensures
        token_views(r@) == lex_all(input.spec_bytes(), 0),
{
    let ghost b = input.spec_bytes();
    let mut tokenizer = Tokenizer::new(input);
    let mut out: Vec<Token> = Vec::new();
    while !tokenizer.is_eof()
        invariant
            tokenizer.wf(),
            tokenizer.bytes() == b,
            0 <= tokenizer.pos(),
            token_views(out@) + lex_all(b, tokenizer.pos()) == lex_all(b, 0),
        decreases b.len() + 1 - tokenizer.pos(),
    {
        let ghost before = tokenizer.pos();
        let t = tokenizer.advance_token();
        proof {
            lemma_lex_progress(b, before);
            assert(token_views(out@.push(t)) =~= token_views(out@).push(t@));
        }
        out.push(t);
        proof {
            assert(lex_all(b, before) == seq![lex_token(b, before)] + lex_all(b, tokenizer.pos()));
            assert(token_views(out@) + lex_all(b, tokenizer.pos()) =~= token_views(out@).drop_last()
                + lex_all(b, before));
        }
    }
    proof {
        assert(lex_all(b, tokenizer.pos()) =~= seq![]);
        assert(token_views(out@) =~= token_views(out@) + lex_all(b, tokenizer.pos()));
    }
    out
}

} // verus!

verus! {

/// A token taken from the stream lies after the offset it was read from and
/// ends where the stream stops; it is never empty.
pub proof fn lemma_next_token_from_span(b: Seq<u8>, exclude_trivias: bool, o: int)
    requires
        0 <= o <= b.len() + 1,
        source_fits(b.len() as int),
    ensures
        next_token_from(b, exclude_trivias, o).0 matches Some(t) ==> {
            &&& o + 1 <= t.span.start
            &&& t.span.start < t.span.end
            &&& t.span.end == next_token_from(b, exclude_trivias, o).1 + 1
        },
    decreases b.len() + 1 - o,
{
    if 0 <= o < b.len() {
        lemma_lex_progress(b, o);
        if exclude_trivias && lex(b, o).token_type is Trivia {
            lemma_next_token_from_span(b, exclude_trivias, lex(b, o).end);
        }
    }
}

/// A token that is not trivia (white space or a comment).
pub open spec fn not_trivia(t: TokenV) -> bool {
    !(t.token_type is Trivia)
}

/// The tokens of a source cover it from offset `o` to its end, one after
/// another without gap or overlap, and none of them is empty; no token
/// reaches more than one byte past the end (spans are stored one past the
/// offsets, so a stored end is at most the length plus two).
pub proof fn lemma_lex_all_covers(b: Seq<u8>, o: int)
    requires
        0 <= o <= b.len(),
        source_fits(b.len() as int),
    ensures
        lex_all(b, o).len() == 0 <==> o == b.len(),
        lex_all(b, o).len() > 0 ==> lex_all(b, o)[0].span.start == o + 1,
        lex_all(b, o).len() > 0 ==> lex_all(b, o).last().span.end >= b.len() + 1,
        forall|i: int|
            0 <= i < lex_all(b, o).len() ==> #[trigger] lex_all(b, o)[i].span.start < lex_all(
                b,
                o,
            )[i].span.end,
        forall|i: int|
            0 <= i < lex_all(b, o).len() ==> #[trigger] lex_all(b, o)[i].span.end <= b.len() + 2,
        forall|i: int|
            0 <= i < lex_all(b, o).len() - 1 ==> #[trigger] lex_all(b, o)[i].span.end == lex_all(
                b,
                o,
            )[i + 1].span.start,
    decreases b.len() - o,
{
    if o < b.len() {
        lemma_lex_progress(b, o);
        let e = lex(b, o).end;
        let t = lex_token(b, o);
        let rest = lex_all(b, e);
        assert(lex_all(b, o) == seq![t] + rest);
        if e < b.len() {
            lemma_lex_all_covers(b, e);
            assert forall|i: int| 0 <= i < lex_all(b, o).len() - 1 implies #[trigger] lex_all(
                b,
                o,
            )[i].span.end == lex_all(b, o)[i + 1].span.start by {
                if i > 0 {
                    assert(lex_all(b, o)[i] == rest[i - 1]);
                    assert(lex_all(b, o)[i + 1] == rest[i]);
                }
            }
            assert forall|i: int| 0 <= i < lex_all(b, o).len() implies #[trigger] lex_all(
                b,
                o,
            )[i].span.start < lex_all(b, o)[i].span.end && lex_all(b, o)[i].span.end <= b.len()
                + 2 by {
                if i > 0 {
                    assert(lex_all(b, o)[i] == rest[i - 1]);
                }
            }
        } else {
            assert(rest.len() == 0);
            assert(lex_all(b, o) =~= seq![t]);
        }
    }
}

/// Skipping trivia drops exactly the trivia tokens and keeps the others, in
/// order.
pub proof fn lemma_stream_skips_trivia(b: Seq<u8>, o: int)
    requires
        0 <= o <= b.len() + 1,
    ensures
        stream_all(b, true, o) == stream_all(b, false, o).filter(|t: TokenV| not_trivia(t)),
    decreases b.len() + 1 - o,
{
    let keep = |t: TokenV| not_trivia(t);
    if o >= b.len() {
        assert(stream_all(b, false, o) =~= seq![]);
        assert(seq![].filter(keep) =~= Seq::<TokenV>::empty());
    } else {
        lemma_lex_progress(b, o);
        let e = lex(b, o).end;
        let t = lex_token(b, o);
        lemma_stream_skips_trivia(b, e);
        let rest = stream_all(b, false, e);
        assert(stream_all(b, false, o) == seq![t] + rest);
        Seq::filter_distributes_over_add(seq![t], rest, keep);
        reveal_with_fuel(Seq::filter, 2);
        if lex(b, o).token_type is Trivia {
            assert(seq![t].filter(keep) =~= Seq::<TokenV>::empty());
            assert(seq![t].filter(keep) + rest.filter(keep) =~= rest.filter(keep));
        } else {
            assert(seq![t].filter(keep) =~= seq![t]);
        }
    }
}

/// With trivia kept, the stream yields exactly the tokens of the source.
pub proof fn lemma_stream_keeps_all(b: Seq<u8>, o: int)
    requires
        0 <= o <= b.len() + 1,
    ensures
        stream_all(b, false, o) == lex_all(b, o),
    decreases b.len() + 1 - o,
{
    if o < b.len() {
        lemma_lex_progress(b, o);
        lemma_stream_keeps_all(b, lex(b, o).end);
    }
}

} // verus!
