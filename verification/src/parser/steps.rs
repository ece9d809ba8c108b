//! The token-level steps of the parser, as spec functions.

use crate::ast::{InvalidType, KeywordType, SymbolType, TokenTypeV, TokenV};
use crate::parser::state::{progress, ParseErrorMessageV, ParseErrorV, ParserV};
use crate::tokenizer::{position_of, stream_fill, stream_next, stream_peek, TokensV};
use vstd::prelude::*;

verus! {

/// The result of a parsing step, and the state after it.
pub type Parsed<T> = (Result<T, Option<ParseErrorV>>, ParserV);

pub open spec fn with_tokens(s: ParserV, ts: TokensV) -> ParserV {
    ParserV { tokens: ts, ..s }
}

/// The error for a token that could not be read.
pub open spec fn tokenization_error(b: Seq<u8>, ts: TokensV, i: InvalidType) -> ParseErrorV {
    ParseErrorV { position: position_of(b, ts.offset), message: ParseErrorMessageV::Tokenization(i) }
}

/// The error saying that `what` was expected here.
pub open spec fn expected(b: Seq<u8>, s: ParserV, what: Seq<char>) -> ParseErrorV {
    ParseErrorV {
        position: position_of(b, s.tokens.offset),
        message: ParseErrorMessageV::Expected(what),
    }
}

/// Looks at the current token (reading it if needed); a token that could
/// not be read is an error.
pub open spec fn peek_token(b: Seq<u8>, s: ParserV) -> (Result<Option<TokenV>, ParseErrorV>, ParserV) {
    let ts = stream_fill(b, s.tokens);
    let s2 = with_tokens(s, ts);
    match ts.current {
        Some(t) => match t.token_type {
            TokenTypeV::Invalid(i) => (Err(tokenization_error(b, ts, i)), s2),
            _ => (Ok(Some(t)), s2),
        },
        None => (Ok(None), s2),
    }
}

/// Reads the token after the current one into the look-ahead slot.
pub open spec fn peek_further_token(b: Seq<u8>, s: ParserV) -> (
    Result<Option<TokenV>, ParseErrorV>,
    ParserV,
) {
    let ts = stream_peek(b, s.tokens);
    let s2 = with_tokens(s, ts);
    match ts.lookahead {
        Some(t) => match t.token_type {
            TokenTypeV::Invalid(i) => (Err(tokenization_error(b, ts, i)), s2),
            _ => (Ok(Some(t)), s2),
        },
        None => (Ok(None), s2),
    }
}

/// Takes the current token; a token that could not be read is an error.
pub open spec fn next_token(b: Seq<u8>, s: ParserV) -> (Result<Option<TokenV>, ParseErrorV>, ParserV) {
    let ts = stream_fill(b, s.tokens);
    match ts.current {
        Some(t) => match t.token_type {
            TokenTypeV::Invalid(i) => (Err(tokenization_error(b, ts, i)), with_tokens(s, ts)),
            _ => {
                let (r, ts2) = stream_next(b, ts);
                (Ok(r), with_tokens(s, ts2))
            },
        },
        None => {
            let (r, ts2) = stream_next(b, ts);
            (Ok(r), with_tokens(s, ts2))
        },
    }
}

/// Takes the current token without looking at it.
pub open spec fn take_token(b: Seq<u8>, s: ParserV) -> (Option<TokenV>, ParserV) {
    let (r, ts) = stream_next(b, s.tokens);
    (r, with_tokens(s, ts))
}

pub open spec fn is_type(t: Option<TokenV>, tt: TokenTypeV) -> bool {
    t matches Some(t) && t.token_type == tt
}

pub open spec fn symbol(y: SymbolType) -> TokenTypeV {
    TokenTypeV::Symbol(y)
}

pub open spec fn keyword(k: KeywordType) -> TokenTypeV {
    TokenTypeV::Keyword(k)
}

/// Whether the current token has type `tt`.
pub open spec fn is_token(b: Seq<u8>, s: ParserV, tt: TokenTypeV) -> (Result<bool, ParseErrorV>, ParserV) {
    let (r, s2) = peek_token(b, s);
    match r {
        Ok(t) => (Ok(is_type(t, tt)), s2),
        Err(e) => (Err(e), s2),
    }
}

/// Takes a token of type `tt`, or fails saying `what` was expected.
pub open spec fn expect_token(b: Seq<u8>, s: ParserV, tt: TokenTypeV, what: Seq<char>) -> Parsed<()> {
    let (r, s2) = peek_token(b, s);
    match r {
        Err(e) => (Err(Some(e)), s2),
        Ok(t) => if is_type(t, tt) {
            (Ok(()), take_token(b, s2).1)
        } else {
            (Err(Some(expected(b, s2, what))), s2)
        },
    }
}

/// Whether the current token ends a block: a closing keyword, or the end.
pub open spec fn is_last_stmt_part(b: Seq<u8>, s: ParserV) -> (Result<bool, Option<ParseErrorV>>, ParserV) {
    let (r, s2) = peek_token(b, s);
    match r {
        Err(e) => (Err(Some(e)), s2),
        Ok(None) => (Ok(true), s2),
        Ok(Some(t)) => (
            Ok(
                t.token_type == keyword(KeywordType::Break) || t.token_type == keyword(KeywordType::End)
                    || t.token_type == keyword(KeywordType::ElseIf) || t.token_type == keyword(
                    KeywordType::Else,
                ) || t.token_type == keyword(KeywordType::Until) || t.token_type == keyword(
                    KeywordType::Return,
                ),
            ),
            s2,
        ),
    }
}

} // verus!
