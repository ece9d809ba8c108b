use crate::ast::{InvalidType, KeywordType, SymbolType, Token, TokenType, TokenTypeV, TokenV};
use crate::location::{Position, Span};
use crate::text::{ascii_cut, substring};
use crate::tokenizer::cursor::{position_of, source_fits, Cursor};
use crate::tokenizer::grammar::{
    lex, lex_comment, lex_long_string, lex_number, lex_quoted, lex_shebang, lex_space, lex_word,
    line_comment, long_body, long_bracket, quoted_end, space_end, Lexed,
};
use crate::tokenizer::lexical::{
    byte_at, find_byte, is_digit, is_equal_sign, is_hex_digit, is_ident_char, is_not_newline,
    lemma_eat_is_skip, lemma_find_byte, lemma_skip_while_bounds, skip_while,
};
use crate::tokenizer::search::find_from;
use vstd::prelude::*;
use vstd::string::StringSliceAdditionalSpecFns;

verus! {

/// The token that the tokenizer reads at offset `o` of `b`.
pub open spec fn lex_token(b: Seq<u8>, o: int) -> TokenV {
    TokenV {
        token_type: lex(b, o).token_type,
        span: Span { start: (o + 1) as usize, end: (lex(b, o).end + 1) as usize },
    }
}

/// Reads tokens one after another from a source text.
#[derive(Debug)]
pub struct Tokenizer<'a> {
    pub cursor: Cursor<'a>,
}

impl<'a> Tokenizer<'a> {
    /// The bytes of the source.
    pub open spec fn bytes(&self) -> Seq<u8> {
        self.cursor.bytes()
    }

    /// The read offset.
    pub open spec fn pos(&self) -> int {
        self.cursor.offset as int
    }

    /// The tokenizer is consistent with its source, and its offset is at
    /// most one byte past the end (as reading never goes further).
    pub open spec fn wf(&self) -> bool {
        &&& self.cursor.wf()
        &&& self.pos() <= self.bytes().len() + 1
    }

    pub fn new(input: &'a str) -> (t: Self)
        requires
            source_fits(input.spec_bytes().len() as int),
        ensures
            t.wf(),
            t.cursor.input == input,
            t.pos() == 0,
    {
        Self { cursor: Cursor::new(input) }
    }

    pub fn position(&self) -> (p: Position)
        requires
            self.wf(),
        ensures
            p == position_of(self.bytes(), self.pos()),
    {
        self.cursor.position()
    }

    pub fn is_eof(&self) -> (r: bool)
        ensures
            r == (self.pos() >= self.cursor.length),
    {
        self.cursor.is_eof()
    }

    pub fn source(&self) -> (r: &'a str)
        ensures
            r == self.cursor.input,
    {
        self.cursor.input
    }

    /// Reads a long bracket whose first bracket is at the read offset.
    fn skip_sep(&mut self) -> (r: Option<usize>)
        requires
            old(self).wf(),
            old(self).pos() < old(self).bytes().len(),
        ensures
            final(self).wf(),
            final(self).cursor.input == old(self).cursor.input,
            final(self).pos() == long_bracket(old(self).bytes(), old(self).pos()).1,
            final(self).pos() <= final(self).bytes().len(),
            match long_bracket(old(self).bytes(), old(self).pos()).0 {
                Some(n) => r == Some(n as usize),
                None => r is None,
            },
    {
        let ghost b = self.bytes();
        let current = self.cursor.current();
        let start = self.cursor.offset();
        self.cursor.bump();
        let eq = |v: u8| -> (r: bool)
            ensures
                r == is_equal_sign(v),
            { v == 61u8 };
        self.cursor.eat_while(eq);
        proof {
            lemma_eat_is_skip(b, start + 1, self.pos(), eq, |c: u8| is_equal_sign(c));
        }
        let count = self.cursor.offset() - (start + 1);
        if current == self.cursor.current() {
            Some(count)
        } else {
            None
        }
    }

    /// Reads white space; the first byte has been read already.
    fn whitespace(&mut self) -> (r: TokenType)
        requires
            old(self).wf(),
            1 <= old(self).pos() <= old(self).bytes().len(),
            old(self).bytes()[old(self).pos() - 1] < 128,
        ensures
            final(self).pos() >= old(self).pos(),
            final(self).wf(),
            final(self).cursor.input == old(self).cursor.input,
            r@ == lex_space(old(self).bytes(), old(self).pos() - 1).token_type,
            final(self).pos() == lex_space(old(self).bytes(), old(self).pos() - 1).end,
    {
        let ghost b = self.bytes();
        let ghost o = self.pos() - 1;
        let start = self.cursor.offset() - 1;
        loop
            invariant
                self.wf(),
                self.cursor.input == old(self).cursor.input,
                b == self.bytes(),
                o == start,
                o == old(self).pos() - 1,
                start < self.pos() <= b.len(),
                space_end(b, self.pos()) == space_end(b, o + 1),
                forall|k: int| start <= k < self.pos() ==> #[trigger] b[k] < 128,
            ensures
                space_end(b, o + 1) == (true, self.pos()),
                start < self.pos() <= b.len(),
                forall|k: int| start <= k < self.pos() ==> #[trigger] b[k] < 128,
            decreases b.len() - self.pos(),
        {
            let c = self.cursor.current();
            if c == 32u8 || c == 9u8 || c == 10u8 {
                self.cursor.bump();
            } else if c == 13u8 {
                if self.cursor.peek() == 10u8 {
                    self.cursor.shift(1);
                } else {
                    assert(space_end(b, self.pos()) == (false, self.pos()));
                    assert(13u8 as char == '\r');
                    return TokenType::Invalid(InvalidType::UnexpectedCharacter('\r'));
                }
            } else {
                assert(space_end(b, self.pos()) == (true, self.pos()));
                break;
            }
        }
        let end = self.cursor.offset();
        proof {
            assert(b[end - 1] < 128);
        }
        TokenType::Trivia(substring(self.cursor.input, start, end))
    }

    /// Reads a name or reserved word; its first byte has been read already.
    fn identifier(&mut self) -> (r: TokenType)
        requires
            old(self).wf(),
            1 <= old(self).pos() <= old(self).bytes().len(),
            old(self).bytes()[old(self).pos() - 1] < 128,
        ensures
            final(self).pos() >= old(self).pos(),
            final(self).wf(),
            final(self).cursor.input == old(self).cursor.input,
            r@ == lex_word(old(self).bytes(), old(self).pos() - 1).token_type,
            final(self).pos() == lex_word(old(self).bytes(), old(self).pos() - 1).end,
    {
        let ghost b = self.bytes();
        let start = self.cursor.offset() - 1;
        let f = |v: u8| -> (r: bool)
            ensures
                r == is_ident_char(v),
            { v == 95u8 || (97u8 <= v && v <= 122u8) || (65u8 <= v && v <= 90u8) || (48u8 <= v && v
                <= 57u8) };
        self.cursor.eat_while(f);
        proof {
            lemma_eat_is_skip(b, start + 1, self.pos(), f, |c: u8| is_ident_char(c));
            if self.pos() > start + 1 {
                assert(is_ident_char(b[self.pos() - 1]));
            }
        }
        let end = self.cursor.offset();
        let text = substring(self.cursor.input, start, end);
        let bytes = self.cursor.input.as_bytes();
        let word = vstd::slice::slice_subrange(bytes, start, end);
        match KeywordType::from_bytes(word) {
            Some(k) => TokenType::Keyword(k),
            None => TokenType::Name(text),
        }
    }

    /// Reads the first line after `#!`; the `#` has been read already.
    fn shebang(&mut self) -> (r: TokenType)
        requires
            old(self).wf(),
            old(self).pos() == 1,
            byte_at(old(self).bytes(), 1) == 33,
        ensures
            final(self).pos() >= old(self).pos(),
            final(self).wf(),
            final(self).cursor.input == old(self).cursor.input,
            r@ == lex_shebang(old(self).bytes()).token_type,
            final(self).pos() == lex_shebang(old(self).bytes()).end,
    {
        let ghost b = self.bytes();
        self.cursor.bump();
        let start = self.cursor.offset();
        let f = |v: u8| -> (r: bool)
            ensures
                r == is_not_newline(v),
            { !(v == 13u8 || v == 10u8) };
        self.cursor.eat_while(f);
        proof {
            lemma_eat_is_skip(b, 2, self.pos(), f, |c: u8| is_not_newline(c));
        }
        let end = self.cursor.offset();
        TokenType::Trivia(substring(self.cursor.input, start, end))
    }

    /// Reads a numeral; its first byte (a digit, or a `.` before a digit)
    /// has been read already.
    fn number(&mut self) -> (r: TokenType)
        requires
            old(self).wf(),
            1 <= old(self).pos() <= old(self).bytes().len(),
            is_digit(old(self).bytes()[old(self).pos() - 1]) || old(self).bytes()[old(self).pos()
                - 1] == 46,
        ensures
            final(self).pos() >= old(self).pos(),
            final(self).wf(),
            final(self).cursor.input == old(self).cursor.input,
            final(self).pos() <= final(self).bytes().len(),
            r@ == lex_number(old(self).bytes(), old(self).pos() - 1).token_type,
            final(self).pos() == lex_number(old(self).bytes(), old(self).pos() - 1).end,
    {
        let ghost b = self.bytes();
        self.cursor.shift(-1);
        let start = self.cursor.offset();
        let digit = |v: u8| -> (r: bool)
            ensures
                r == is_digit(v),
            { 48u8 <= v && v <= 57u8 };
        if self.cursor.current() == 48u8 && self.cursor.peek() == 120u8 {
            self.cursor.shift(1);
            let current = self.cursor.current();
            if !((48u8 <= current && current <= 57u8) || (97u8 <= current && current <= 102u8) || (
            65u8 <= current && current <= 70u8)) {
                return TokenType::Invalid(InvalidType::UnexpectedCharacter(current as char));
            }
            let hex = |v: u8| -> (r: bool)
                ensures
                    r == is_hex_digit(v),
                { (48u8 <= v && v <= 57u8) || (97u8 <= v && v <= 102u8) || (65u8 <= v && v
                    <= 70u8) };
            let q = self.cursor.offset();
            self.cursor.eat_while(hex);
            proof {
                lemma_eat_is_skip(b, q as int, self.pos(), hex, |c: u8| is_hex_digit(c));
                assert(is_hex_digit(b[self.pos() - 1]));
            }
        } else {
            self.cursor.eat_while(digit);
            proof {
                lemma_eat_is_skip(b, start as int, self.pos(), digit, |c: u8| is_digit(c));
            }
            let ghost p1 = self.pos();
            if self.cursor.current() == 46u8 {
                self.cursor.bump();
                let current = self.cursor.current();
                if !(48u8 <= current && current <= 57u8) {
                    return TokenType::Invalid(InvalidType::UnexpectedCharacter(current as char));
                }
                self.cursor.bump();
                let q = self.cursor.offset();
                self.cursor.eat_while(digit);
                proof {
                    lemma_eat_is_skip(b, q as int, self.pos(), digit, |c: u8| is_digit(c));
                    assert(is_digit(b[self.pos() - 1]));
                }
            } else {
                proof {
                    assert(is_digit(b[self.pos() - 1]));
                }
            }
            let ghost p2 = self.pos();
            let current = self.cursor.current();
            if current == 101u8 || current == 69u8 {
                let next = self.cursor.peek();
                if next == 43u8 || next == 45u8 {
                    self.cursor.shift(1);
                } else {
                    self.cursor.bump();
                }
                let current = self.cursor.current();
                if !(48u8 <= current && current <= 57u8) {
                    return TokenType::Invalid(InvalidType::UnexpectedCharacter(current as char));
                }
                let q = self.cursor.offset();
                self.cursor.eat_while(digit);
                proof {
                    lemma_eat_is_skip(b, q as int, self.pos(), digit, |c: u8| is_digit(c));
                    assert(is_digit(b[self.pos() - 1]));
                }
            }
        }
        let end = self.cursor.offset();
        TokenType::Number(substring(self.cursor.input, start, end))
    }

    /// Reads a quoted string; the opening quote `delim` has been read.
    fn line_string(&mut self, delim: u8) -> (r: TokenType)
        requires
            old(self).wf(),
            1 <= old(self).pos() <= old(self).bytes().len(),
            old(self).bytes()[old(self).pos() - 1] == delim,
            delim == 39 || delim == 34,
        ensures
            final(self).pos() >= old(self).pos(),
            final(self).wf(),
            final(self).cursor.input == old(self).cursor.input,
            r@ == lex_quoted(old(self).bytes(), old(self).pos() - 1).token_type,
            final(self).pos() == lex_quoted(old(self).bytes(), old(self).pos() - 1).end,
    {
        let ghost b = self.bytes();
        let ghost o = self.pos() - 1;
        let start = self.cursor.offset();
        loop
            invariant
                self.wf(),
                self.cursor.input == old(self).cursor.input,
                b == self.bytes(),
                o == old(self).pos() - 1,
                0 <= o < b.len(),
                b[o] == delim,
                delim == 39 || delim == 34,
                start == o + 1,
                start <= self.pos() <= b.len() + 1,
                quoted_end(b, self.pos(), delim) == quoted_end(b, start as int, delim),
            decreases b.len() + 2 - self.pos(),
        {
            let c = self.cursor.current();
            if c == 0u8 || c == 10u8 || c == 13u8 {
                return TokenType::Invalid(InvalidType::UnclosedString);
            } else if c == 92u8 {
                self.cursor.shift(1);
            } else if c == delim {
                let end = self.cursor.offset();
                self.cursor.bump();
                return TokenType::Str(substring(self.cursor.input, start, end));
            } else {
                self.cursor.bump();
            }
        }
    }

    /// Reads the body of a long string or comment up to the closing long
    /// bracket with `sep` equal signs. On success, returns the offset where
    /// the text ends, with the read offset at the last closing bracket.
    fn read_long_string(&mut self, is_comment: bool, sep: usize) -> (r: Result<usize, TokenType>)
        requires
            old(self).wf(),
            1 <= old(self).pos() <= old(self).bytes().len(),
        ensures
            final(self).pos() >= old(self).pos(),
            final(self).wf(),
            final(self).cursor.input == old(self).cursor.input,
            ({
                let (closed, text_end, last) = long_body(
                    old(self).bytes(),
                    old(self).pos(),
                    sep as int,
                );
                &&& final(self).pos() == last
                &&& final(self).pos() <= final(self).bytes().len()
                &&& closed ==> {
                    &&& r == Ok::<usize, TokenType>(text_end as usize)
                    &&& old(self).pos() <= text_end < last < final(self).bytes().len()
                    &&& final(self).bytes()[text_end] == 93
                    &&& final(self).bytes()[last] == 93
                }
                &&& !closed ==> r is Err && r->Err_0@ == TokenTypeV::Invalid(
                    if is_comment {
                        InvalidType::UnclosedComment
                    } else {
                        InvalidType::UnclosedString
                    },
                )
            }),
    {
        let ghost b = self.bytes();
        let ghost i0 = self.pos();
        loop
            invariant
                self.wf(),
                self.cursor.input == old(self).cursor.input,
                b == self.bytes(),
                i0 == old(self).pos(),
                1 <= i0 <= self.pos() <= b.len(),
                long_body(b, self.pos(), sep as int) == long_body(b, i0, sep as int),
            decreases b.len() - self.pos(),
        {
            let cur = self.cursor.current();
            if cur == 0u8 {
                if is_comment {
                    return Err(TokenType::Invalid(InvalidType::UnclosedComment));
                } else {
                    return Err(TokenType::Invalid(InvalidType::UnclosedString));
                }
            }
            let ghost i = self.pos();
            let from = self.cursor.offset() - 1;
            let bytes = self.cursor.input.as_bytes();
            match find_from(93u8, bytes, from) {
                Some(index) => {
                    proof {
                        lemma_find_byte(b, i - 1, 93);
                    }
                    let step: usize = if index >= 1 { index - 1 } else { 0 };
                    self.cursor.mov(step as isize);
                    let c = self.cursor.current();
                    if !(c == 93u8 || c == 61u8) {
                        self.cursor.bump();
                    } else {
                        let ghost at = self.pos();
                        proof {
                            lemma_skip_while_bounds(b, at + 1, |c: u8| is_equal_sign(c));
                        }
                        match self.skip_sep() {
                            Some(new_sep) => {
                                if new_sep == sep {
                                    let offset = self.cursor.offset() - 1 - new_sep;
                                    return Ok(offset);
                                }
                            },
                            None => {},
                        }
                    }
                },
                None => {
                    let rest = self.cursor.length - self.cursor.offset();
                    self.cursor.mov(rest as isize);
                    if is_comment {
                        return Err(TokenType::Invalid(InvalidType::UnclosedComment));
                    } else {
                        return Err(TokenType::Invalid(InvalidType::UnclosedString));
                    }
                },
            }
        }
    }

    /// Reads a long string; its first `[` has been read already.
    fn multi_line_string(&mut self) -> (r: TokenType)
        requires
            old(self).wf(),
            1 <= old(self).pos() <= old(self).bytes().len(),
            old(self).bytes()[old(self).pos() - 1] == 91,
        ensures
            final(self).pos() >= old(self).pos(),
            final(self).wf(),
            final(self).cursor.input == old(self).cursor.input,
            r@ == lex_long_string(old(self).bytes(), old(self).pos() - 1).token_type,
            final(self).pos() == lex_long_string(old(self).bytes(), old(self).pos() - 1).end,
    {
        let ghost b = self.bytes();
        self.cursor.shift(-1);
        proof {
            lemma_skip_while_bounds(b, self.pos() + 1, |c: u8| is_equal_sign(c));
        }
        match self.skip_sep() {
            Some(sep) => {
                self.cursor.bump();
                let start = self.cursor.offset();
                match self.read_long_string(false, sep) {
                    Ok(end) => {
                        self.cursor.bump();
                        TokenType::Str(substring(self.cursor.input, start, end))
                    },
                    Err(err) => err,
                }
            },
            None => TokenType::Invalid(InvalidType::UnclosedString),
        }
    }

    /// Reads a comment; its first `-` has been read already, and the second
    /// is current.
    fn comment(&mut self) -> (r: TokenType)
        requires
            old(self).wf(),
            1 <= old(self).pos() < old(self).bytes().len(),
            old(self).bytes()[old(self).pos() - 1] == 45,
            old(self).bytes()[old(self).pos() as int] == 45,
        ensures
            final(self).pos() >= old(self).pos(),
            final(self).wf(),
            final(self).cursor.input == old(self).cursor.input,
            r@ == lex_comment(old(self).bytes(), old(self).pos() - 1).token_type,
            final(self).pos() == lex_comment(old(self).bytes(), old(self).pos() - 1).end,
    {
        let ghost b = self.bytes();
        self.cursor.bump();
        let start = self.cursor.offset();
        if self.cursor.current() == 91u8 {
            proof {
                lemma_skip_while_bounds(b, start + 1, |c: u8| is_equal_sign(c));
            }
            match self.skip_sep() {
                Some(sep) => {
                    self.cursor.bump();
                    let start = self.cursor.offset();
                    match self.read_long_string(true, sep) {
                        Ok(end) => {
                            self.cursor.bump();
                            return TokenType::Trivia(substring(self.cursor.input, start, end));
                        },
                        Err(err) => {
                            return err;
                        },
                    }
                },
                None => {},
            }
        }
        let ghost i = self.pos();
        proof {
            assert(b[i - 1] != 10);
            lemma_find_byte(b, i - 1, 10);
        }
        let from = self.cursor.offset() - 1;
        let bytes = self.cursor.input.as_bytes();
        match find_from(10u8, bytes, from) {
            Some(index) => {
                self.cursor.mov((index - 1) as isize);
            },
            None => {
                let rest = self.cursor.length - self.cursor.offset();
                self.cursor.mov(rest as isize);
            },
        }
        let end = self.cursor.offset();
        TokenType::Trivia(substring(self.cursor.input, start, end))
    }

    /// Reads the token at the read offset.
    pub fn advance_token(&mut self) -> (t: Token)
        requires
            old(self).wf(),
            old(self).pos() < old(self).bytes().len(),
        ensures
            final(self).wf(),
            final(self).cursor.input == old(self).cursor.input,
            t@ == lex_token(old(self).bytes(), old(self).pos()),
            final(self).pos() == lex(old(self).bytes(), old(self).pos()).end,
            old(self).pos() < final(self).pos(),
    {
        let ghost b = self.bytes();
        let start = self.cursor.offset();
        let bump = self.cursor.bump();
        let current = self.cursor.current();
        let token_type = if bump == 61u8 {
            if current == 61u8 {
                self.cursor.bump();
                TokenType::Symbol(SymbolType::EqualEqual)
            } else {
                TokenType::Symbol(SymbolType::Equal)
            }
        } else if bump == 126u8 {
            if current == 61u8 {
                self.cursor.bump();
                TokenType::Symbol(SymbolType::TildeEqual)
            } else {
                TokenType::Invalid(InvalidType::UnexpectedCharacter('~'))
            }
        } else if bump == 60u8 {
            if current == 61u8 {
                self.cursor.bump();
                TokenType::Symbol(SymbolType::LessEqual)
            } else {
                TokenType::Symbol(SymbolType::LessThan)
            }
        } else if bump == 62u8 {
            if current == 61u8 {
                self.cursor.bump();
                TokenType::Symbol(SymbolType::GreaterEqual)
            } else {
                TokenType::Symbol(SymbolType::GreaterThan)
            }
        } else if bump == 40u8 {
            TokenType::Symbol(SymbolType::OpenParen)
        } else if bump == 41u8 {
            TokenType::Symbol(SymbolType::CloseParen)
        } else if bump == 123u8 {
            TokenType::Symbol(SymbolType::OpenBrace)
        } else if bump == 125u8 {
            TokenType::Symbol(SymbolType::CloseBrace)
        } else if bump == 91u8 {
            if current == 61u8 || current == 91u8 {
                self.multi_line_string()
            } else {
                TokenType::Symbol(SymbolType::OpenBracket)
            }
        } else if bump == 93u8 {
            TokenType::Symbol(SymbolType::CloseBracket)
        } else if bump == 59u8 {
            TokenType::Symbol(SymbolType::Semicolon)
        } else if bump == 58u8 {
            TokenType::Symbol(SymbolType::Colon)
        } else if bump == 44u8 {
            TokenType::Symbol(SymbolType::Comma)
        } else if bump == 46u8 {
            let next = self.cursor.peek();
            if 48u8 <= current && current <= 57u8 {
                self.number()
            } else if current == 46u8 && next == 46u8 {
                self.cursor.shift(1);
                TokenType::Symbol(SymbolType::DotDotDot)
            } else if current == 46u8 {
                self.cursor.shift(0);
                TokenType::Symbol(SymbolType::DotDot)
            } else {
                TokenType::Symbol(SymbolType::Dot)
            }
        } else if bump == 43u8 {
            TokenType::Symbol(SymbolType::Cross)
        } else if bump == 45u8 {
            if current == 45u8 {
                self.comment()
            } else {
                TokenType::Symbol(SymbolType::Dash)
            }
        } else if bump == 42u8 {
            TokenType::Symbol(SymbolType::Star)
        } else if bump == 47u8 {
            TokenType::Symbol(SymbolType::Slash)
        } else if bump == 37u8 {
            TokenType::Symbol(SymbolType::Percent)
        } else if bump == 94u8 {
            TokenType::Symbol(SymbolType::Caret)
        } else if bump == 35u8 {
            if current == 33u8 && self.cursor.offset() == 1 {
                self.shebang()
            } else {
                TokenType::Symbol(SymbolType::Hash)
            }
        } else if bump == 32u8 || bump == 9u8 || bump == 10u8 || (bump == 13u8 && current == 10u8) {
            self.whitespace()
        } else if bump == 95u8 || (97u8 <= bump && bump <= 122u8) || (65u8 <= bump && bump <= 90u8) {
            self.identifier()
        } else if 48u8 <= bump && bump <= 57u8 {
            self.number()
        } else if bump == 39u8 || bump == 34u8 {
            self.line_string(bump)
        } else {
            TokenType::Invalid(InvalidType::UnexpectedCharacter(bump as char))
        };
        Token::new(token_type, Span::new(start, self.cursor.offset()))
    }
}

} // verus!
