//! A Lua tokenizer and parser with machine-checked contracts.

pub mod ast;
pub mod location;
pub mod messages;
pub mod parser;
mod text;
pub mod tokenizer;

use crate::ast::{Ast, InvalidType, Token, TokenTypeV, TokenV};
use crate::location::Position;
use crate::parser::rules::chunk;
use crate::parser::{parsed_ast, ParseError, Parser, ParserV};
use crate::tokenizer::stream::{
    lemma_next_token_from_bounds, next_token_from, stream_all, token_views,
};
use crate::tokenizer::{position_in, position_of, source_fits, Tokens, TokensV};
use vstd::prelude::*;
use vstd::string::StringSliceAdditionalSpecFns;

verus! {

/// The first token that could not be read, and where it starts.
#[derive(Debug, Clone, Copy, PartialEq, Eq, Structural)]
pub struct TokenizeError {
    pub message: InvalidType,
    pub position: Position,
}

/// The tokens read from offset `o` on, or the error for the first one that
/// could not be read.
pub open spec fn tokens_from(b: Seq<u8>, exclude_trivias: bool, o: int) -> Result<
    Seq<TokenV>,
    TokenizeError,
>
    decreases b.len() + 2 - o,
{
    if o < 0 || o > b.len() + 1 {
        Ok(seq![])
    } else {
        proof {
            lemma_next_token_from_bounds(b, exclude_trivias, o);
        }
        match next_token_from(b, exclude_trivias, o).0 {
            None => Ok(seq![]),
            Some(t) => match t.token_type {
                TokenTypeV::Invalid(message) => Err(
                    TokenizeError { message, position: position_of(b, t.span.start as int) },
                ),
                _ => match tokens_from(b, exclude_trivias, next_token_from(b, exclude_trivias, o).1) {
                    Ok(rest) => Ok(seq![t] + rest),
                    Err(e) => Err(e),
                },
            },
        }
    }
}

/// Reading tokens fails exactly where the stream yields a token that could
/// not be read, with the first such token's error and the position where it
/// starts; otherwise it gives every token of the stream.
pub proof fn lemma_tokens_from(b: Seq<u8>, exclude_trivias: bool, o: int)
    requires
        0 <= o <= b.len() + 1,
    ensures
        tokens_from(b, exclude_trivias, o) is Ok <==> forall|i: int|
            0 <= i < stream_all(b, exclude_trivias, o).len() ==> !(#[trigger] stream_all(
                b,
                exclude_trivias,
                o,
            )[i].token_type is Invalid),
        tokens_from(b, exclude_trivias, o) matches Ok(ts) ==> ts == stream_all(b, exclude_trivias, o),
        tokens_from(b, exclude_trivias, o) matches Err(e) ==> exists|i: int|
            0 <= i < stream_all(b, exclude_trivias, o).len() && (forall|j: int|
                0 <= j < i ==> !(#[trigger] stream_all(b, exclude_trivias, o)[j].token_type is Invalid))
                && stream_all(b, exclude_trivias, o)[i].token_type == TokenTypeV::Invalid(
                e.message,
            ) && e.position == position_of(
                b,
                stream_all(b, exclude_trivias, o)[i].span.start as int,
            ),
    decreases b.len() + 2 - o,
{
    lemma_next_token_from_bounds(b, exclude_trivias, o);
    let all = stream_all(b, exclude_trivias, o);
    match next_token_from(b, exclude_trivias, o).0 {
        None => {},
        Some(t) => {
            let o2 = next_token_from(b, exclude_trivias, o).1;
            let rest = stream_all(b, exclude_trivias, o2);
            assert(all == seq![t] + rest);
            assert(all[0] == t);
            lemma_tokens_from(b, exclude_trivias, o2);
            assert forall|i: int| 1 <= i < all.len() implies #[trigger] all[i] == rest[i - 1] by {}
            if t.token_type is Invalid {
                assert(!(forall|i: int| 0 <= i < all.len() ==> !(#[trigger] all[i].token_type is Invalid)));
            } else {
                match tokens_from(b, exclude_trivias, o2) {
                    Ok(ts) => {
                        assert forall|i: int| 0 <= i < all.len() implies !(#[trigger] all[i].token_type is Invalid) by {
                            if i > 0 {
                                assert(all[i] == rest[i - 1]);
                            }
                        }
                    },
                    Err(e) => {
                        let k = choose|k: int|
                            0 <= k < rest.len() && (forall|j: int|
                                0 <= j < k ==> !(#[trigger] rest[j].token_type is Invalid))
                                && rest[k].token_type == TokenTypeV::Invalid(e.message)
                                && e.position == position_of(b, rest[k].span.start as int);
                        assert(all[k + 1] == rest[k]);
                        assert forall|j: int| 0 <= j < k + 1 implies !(#[trigger] all[j].token_type is Invalid) by {
                            if j > 0 {
                                assert(all[j] == rest[j - 1]);
                            }
                        }
                        assert(!(all[k + 1].token_type is Invalid) == false);
                    },
                }
            }
        },
    }
}

/// Reads all tokens of `input` (without trivia when `exclude_trivias` is
/// set); fails at the first token that cannot be read.
pub fn tokens(input: &str, exclude_trivias: bool) -> (r: Result<Vec<Token>, TokenizeError>)
    requires
        source_fits(input.spec_bytes().len() as int),
    ensures
        match r {
            Ok(v) => tokens_from(input.spec_bytes(), exclude_trivias, 0) == Ok::<
                Seq<TokenV>,
                TokenizeError,
            >(token_views(v@)),
            Err(e) => tokens_from(input.spec_bytes(), exclude_trivias, 0) == Err::<
                Seq<TokenV>,
                TokenizeError,
            >(e),
        },
{
    let ghost b = input.spec_bytes();
    let mut out: Vec<Token> = Vec::new();
    let mut tokenizer = Tokens::new(input, exclude_trivias);
    loop
        invariant
            tokenizer.wf(),
            tokenizer.bytes() == b,
            tokenizer.tokenizer.cursor.input == input,
            tokenizer.view().exclude_trivias == exclude_trivias,
            tokenizer.view().current is None,
            tokenizer.view().lookahead is None,
            0 <= tokenizer.view().offset <= b.len() + 1,
            match tokens_from(b, exclude_trivias, tokenizer.view().offset) {
                Ok(rest) => tokens_from(b, exclude_trivias, 0) == Ok::<Seq<TokenV>, TokenizeError>(
                    token_views(out@) + rest,
                ),
                Err(e) => tokens_from(b, exclude_trivias, 0) == Err::<Seq<TokenV>, TokenizeError>(e),
            },
        decreases b.len() + 2 - tokenizer.view().offset,
    {
        let ghost o = tokenizer.view().offset;
        proof {
            lemma_next_token_from_bounds(b, exclude_trivias, o);
        }
        match tokenizer.next() {
            None => {
                proof {
                    assert(token_views(out@) + seq![] =~= token_views(out@));
                }
                return Ok(out);
            },
            Some(token) => {
                if token.token_type().is_invalid() {
                    let message = match token.token_type() {
                        crate::ast::TokenType::Invalid(m) => *m,
                        _ => InvalidType::UnclosedString,
                    };
                    let position = position_in(input, token.span().start());
                    return Err(TokenizeError { message, position });
                }
                proof {
                    let rest = tokens_from(b, exclude_trivias, tokenizer.view().offset);
                    assert(token_views(out@.push(token)) =~= token_views(out@).push(token@));
                    if rest is Ok {
                        assert(token_views(out@).push(token@) + rest->Ok_0 =~= token_views(out@) + (
                        seq![token@] + rest->Ok_0));
                    }
                }
                out.push(token);
            },
        }
    }
}

/// The parser's state at the start of a source: no token read yet, trivia
/// skipped, outside any loop and function.
pub open spec fn start_state() -> ParserV {
    ParserV {
        tokens: TokensV { exclude_trivias: true, offset: 0, current: None, lookahead: None },
        has_varargs: false,
        is_in_loop: false,
    }
}

/// Parses a whole Lua chunk.
pub fn parse(input: &str) -> (r: Result<Ast, ParseError>)
    requires
        source_fits(input.spec_bytes().len() as int),
    ensures
        parsed_ast(r) == chunk(input.spec_bytes(), start_state()).0,
{
    let tokens = Tokens::new(input, true);
    let mut parser = Parser::new(tokens);
    parser.parse_ast()
}

} // verus!
