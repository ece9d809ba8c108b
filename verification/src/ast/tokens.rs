use crate::ast::symbols::{KeywordType, SymbolType};
use crate::location::Span;
use vstd::prelude::*;
use vstd::utf8::encode_utf8;

verus! {

/// Why the tokenizer could not read a token.
#[derive(Debug, Clone, Copy, PartialEq, Eq, Hash, Structural)]
pub enum InvalidType {
    UnexpectedCharacter(char),
    UnclosedComment,
    UnclosedString,
    InvalidShebang,
}

impl InvalidType {
    pub fn is_unexpected_character(&self) -> (r: bool)
        ensures
            r == (*self is UnexpectedCharacter),
    {
        matches!(self, InvalidType::UnexpectedCharacter(_))
    }

    pub fn is_unclosed_comment(&self) -> (r: bool)
        ensures
            r == (*self is UnclosedComment),
    {
        matches!(self, InvalidType::UnclosedComment)
    }

    pub fn is_unclosed_string(&self) -> (r: bool)
        ensures
            r == (*self is UnclosedString),
    {
        matches!(self, InvalidType::UnclosedString)
    }

    pub fn is_invalid_shebang(&self) -> (r: bool)
        ensures
            r == (*self is InvalidShebang),
    {
        matches!(self, InvalidType::InvalidShebang)
    }
}

/// The kind of a token, with the source text it covers where that matters.
#[derive(Debug, Clone, PartialEq, Eq, Hash)]
pub enum TokenType {
    Comment(String),
    Invalid(InvalidType),
    Keyword(KeywordType),
    Name(String),
    Number(String),
    Shebang(String),
    Symbol(SymbolType),
    Str(String),
    Trivia(String),
}

impl TokenType {
    pub fn is_comment(&self) -> (r: bool)
        ensures
            r == (*self is Comment),
    {
        matches!(self, TokenType::Comment(_))
    }

    pub fn is_invalid(&self) -> (r: bool)
        ensures
            r == (*self is Invalid),
    {
        matches!(self, TokenType::Invalid(_))
    }

    pub fn is_keyword(&self) -> (r: bool)
        ensures
            r == (*self is Keyword),
    {
        matches!(self, TokenType::Keyword(_))
    }

    pub fn is_name(&self) -> (r: bool)
        ensures
            r == (*self is Name),
    {
        matches!(self, TokenType::Name(_))
    }

    pub fn is_number(&self) -> (r: bool)
        ensures
            r == (*self is Number),
    {
        matches!(self, TokenType::Number(_))
    }

    pub fn is_shebang(&self) -> (r: bool)
        ensures
            r == (*self is Shebang),
    {
        matches!(self, TokenType::Shebang(_))
    }

    pub fn is_symbol(&self) -> (r: bool)
        ensures
            r == (*self is Symbol),
    {
        matches!(self, TokenType::Symbol(_))
    }

    pub fn is_str(&self) -> (r: bool)
        ensures
            r == (*self is Str),
    {
        matches!(self, TokenType::Str(_))
    }

    pub fn is_trivia(&self) -> (r: bool)
        ensures
            r == (*self is Trivia),
    {
        matches!(self, TokenType::Trivia(_))
    }
}

/// The UTF-8 bytes of a string's text.
pub open spec fn text_bytes(s: String) -> Seq<u8> {
    encode_utf8(s@)
}

/// What a [`TokenType`] stands for, with texts as bytes.
pub enum TokenTypeV {
    Comment(Seq<u8>),
    Invalid(InvalidType),
    Keyword(KeywordType),
    Name(Seq<u8>),
    Number(Seq<u8>),
    Shebang(Seq<u8>),
    Symbol(SymbolType),
    Str(Seq<u8>),
    Trivia(Seq<u8>),
}

impl View for TokenType {
    type V = TokenTypeV;

    open spec fn view(&self) -> TokenTypeV {
        match self {
            TokenType::Comment(s) => TokenTypeV::Comment(text_bytes(*s)),
            TokenType::Invalid(i) => TokenTypeV::Invalid(*i),
            TokenType::Keyword(k) => TokenTypeV::Keyword(*k),
            TokenType::Name(s) => TokenTypeV::Name(text_bytes(*s)),
            TokenType::Number(s) => TokenTypeV::Number(text_bytes(*s)),
            TokenType::Shebang(s) => TokenTypeV::Shebang(text_bytes(*s)),
            TokenType::Symbol(y) => TokenTypeV::Symbol(*y),
            TokenType::Str(s) => TokenTypeV::Str(text_bytes(*s)),
            TokenType::Trivia(s) => TokenTypeV::Trivia(text_bytes(*s)),
        }
    }
}

/// What a [`Token`] stands for.
pub struct TokenV {
    pub token_type: TokenTypeV,
    pub span: Span,
}

impl View for Token {
    type V = TokenV;

    open spec fn view(&self) -> TokenV {
        TokenV { token_type: self.token_type@, span: self.span }
    }
}

/// A token: its kind and the span of source it was read from.
#[derive(Debug, Clone, PartialEq, Eq, Hash)]
pub struct Token {
    pub token_type: TokenType,
    pub span: Span,
}

impl Token {
    pub fn new(token_type: TokenType, span: Span) -> (t: Self)
        ensures
            t.token_type == token_type,
            t.span == span,
    {
        Token { token_type, span }
    }

    pub fn token_type(&self) -> (r: &TokenType)
        ensures
            *r == self.token_type,
    {
        &self.token_type
    }

    pub fn span(&self) -> (r: Span)
        ensures
            r == self.span,
    {
        self.span
    }
}

} // verus!
