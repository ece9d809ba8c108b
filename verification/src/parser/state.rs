//! The parser's state as the contracts see it, and the token-level steps
//! that every parsing function is built from.

use crate::ast::{text_bytes, InvalidType, TokenTypeV, TokenV};
use crate::location::Position;
use crate::tokenizer::{stream_ok, stream_progress, TokensV};
use vstd::prelude::*;

verus! {

/// What a parse error says.
#[derive(Debug)]
pub enum ParseErrorMessage {
    InvalidBreakUse,
    InvalidVarargsUse,
    Expected(String),
    UnexpectedToken(String),
    Tokenization(InvalidType),
}

/// A parse error: where it was found and what it says.
#[derive(Debug)]
pub struct ParseError {
    pub position: Position,
    pub message: ParseErrorMessage,
}

/// What a [`ParseErrorMessage`] stands for (expected items as characters,
/// unexpected source text as bytes).
pub enum ParseErrorMessageV {
    InvalidBreakUse,
    InvalidVarargsUse,
    Expected(Seq<char>),
    UnexpectedToken(Seq<u8>),
    Tokenization(InvalidType),
}

pub struct ParseErrorV {
    pub position: Position,
    pub message: ParseErrorMessageV,
}

impl View for ParseErrorMessage {
    type V = ParseErrorMessageV;

    open spec fn view(&self) -> ParseErrorMessageV {
        match self {
            ParseErrorMessage::InvalidBreakUse => ParseErrorMessageV::InvalidBreakUse,
            ParseErrorMessage::InvalidVarargsUse => ParseErrorMessageV::InvalidVarargsUse,
            ParseErrorMessage::Expected(s) => ParseErrorMessageV::Expected(s@),
            ParseErrorMessage::UnexpectedToken(s) => ParseErrorMessageV::UnexpectedToken(
                text_bytes(*s),
            ),
            ParseErrorMessage::Tokenization(i) => ParseErrorMessageV::Tokenization(*i),
        }
    }
}

impl View for ParseError {
    type V = ParseErrorV;

    open spec fn view(&self) -> ParseErrorV {
        ParseErrorV { position: self.position, message: self.message@ }
    }
}

pub open spec fn opt_error(e: Option<ParseError>) -> Option<ParseErrorV> {
    match e {
        Some(e) => Some(e@),
        None => None,
    }
}

/// What the parser's state stands for.
pub struct ParserV {
    pub tokens: TokensV,
    pub has_varargs: bool,
    pub is_in_loop: bool,
}

/// The offset of the first token not yet taken by the parser: parsing only
/// ever moves it forward, and taking a token moves it strictly forward.
pub open spec fn progress(s: ParserV) -> int {
    stream_progress(s.tokens)
}

pub open spec fn state_ok(b: Seq<u8>, s: ParserV) -> bool {
    stream_ok(b, s.tokens)
}

} // verus!
