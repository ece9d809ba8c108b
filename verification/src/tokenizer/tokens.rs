use crate::ast::{Token, TokenV};
use crate::location::Position;
use crate::tokenizer::cursor::{position_of, source_fits};
use crate::tokenizer::inner::Tokenizer;
use crate::tokenizer::stream::{
    lemma_next_token_from_bounds, lemma_next_token_from_span, next_token_from,
};
use vstd::prelude::*;
use vstd::string::StringSliceAdditionalSpecFns;

verus! {

/// The view of an optional token.
pub open spec fn opt_token(t: Option<Token>) -> Option<TokenV> {
    match t {
        Some(t) => Some(t@),
        None => None,
    }
}

/// The view of an optional borrowed token.
pub open spec fn opt_token_ref(t: Option<&Token>) -> Option<TokenV> {
    match t {
        Some(t) => Some(t@),
        None => None,
    }
}

/// What a [`Tokens`] stream holds: whether trivia is skipped, the offset the
/// tokenizer has reached, and the tokens read ahead.
pub struct TokensV {
    pub exclude_trivias: bool,
    pub offset: int,
    pub current: Option<TokenV>,
    pub lookahead: Option<TokenV>,
}

/// Takes the next token: the one read ahead if any, else a fresh one.
pub open spec fn stream_advance(b: Seq<u8>, s: TokensV) -> (Option<TokenV>, TokensV) {
    if s.lookahead is Some {
        (s.lookahead, TokensV { lookahead: None, ..s })
    } else {
        let (t, o) = next_token_from(b, s.exclude_trivias, s.offset);
        (t, TokensV { offset: o, ..s })
    }
}

/// Reads a fresh token into the look-ahead slot (whatever it held).
pub open spec fn stream_peek(b: Seq<u8>, s: TokensV) -> TokensV {
    let (t, o) = next_token_from(b, s.exclude_trivias, s.offset);
    TokensV { offset: o, lookahead: t, ..s }
}

/// Makes sure the current slot is filled, if any token is left.
pub open spec fn stream_fill(b: Seq<u8>, s: TokensV) -> TokensV {
    if s.current is None {
        let (t, s2) = stream_advance(b, s);
        TokensV { current: t, ..s2 }
    } else {
        s
    }
}

/// Takes the current token, or the next one if none is current.
pub open spec fn stream_next(b: Seq<u8>, s: TokensV) -> (Option<TokenV>, TokensV) {
    if s.current is Some {
        (s.current, TokensV { current: None, ..s })
    } else {
        stream_advance(b, s)
    }
}

/// A token read by the stream: never empty, and ending at most one byte
/// past `offset`.
pub open spec fn read_token(t: TokenV, offset: int) -> bool {
    1 <= t.span.start < t.span.end <= offset + 1
}

/// The stream is in a state that reading produces: within the source, with
/// the tokens it holds read before `offset` and in order.
pub open spec fn stream_ok(b: Seq<u8>, ts: TokensV) -> bool {
    &&& source_fits(b.len() as int)
    &&& 0 <= ts.offset <= b.len() + 1
    &&& ts.current matches Some(c) ==> read_token(c, ts.offset)
    &&& ts.lookahead matches Some(l) ==> read_token(l, ts.offset)
    &&& ts.current matches Some(c) ==> (ts.lookahead matches Some(l) ==> c.span.end <= l.span.start)
}

/// The offset of the first token not yet taken: reading only ever moves it
/// forward, and taking a token moves it strictly forward.
pub open spec fn stream_progress(ts: TokensV) -> int {
    match ts.current {
        Some(c) => c.span.start - 1,
        None => match ts.lookahead {
            Some(l) => l.span.start - 1,
            None => ts.offset,
        },
    }
}

pub proof fn lemma_stream_advance(b: Seq<u8>, ts: TokensV)
    requires
        stream_ok(b, ts),
        ts.current is None,
    ensures
        stream_ok(b, stream_advance(b, ts).1),
        stream_advance(b, ts).1.current is None,
        stream_advance(b, ts).1.lookahead is None,
        stream_advance(b, ts).0 matches Some(t) ==> read_token(t, stream_advance(b, ts).1.offset)
            && stream_progress(ts) < t.span.start && t.span.end - 1 <= stream_progress(
            stream_advance(b, ts).1,
        ),
        stream_advance(b, ts).0 is None ==> stream_advance(b, ts).1.offset >= b.len(),
        stream_progress(ts) <= stream_progress(stream_advance(b, ts).1),
{
    lemma_next_token_from_bounds(b, ts.exclude_trivias, ts.offset);
    lemma_next_token_from_span(b, ts.exclude_trivias, ts.offset);
}

pub proof fn lemma_stream_fill(b: Seq<u8>, ts: TokensV)
    requires
        stream_ok(b, ts),
    ensures
        stream_ok(b, stream_fill(b, ts)),
        stream_fill(b, ts).exclude_trivias == ts.exclude_trivias,
        stream_progress(ts) <= stream_progress(stream_fill(b, ts)),
        stream_fill(b, ts).current is None ==> stream_fill(b, ts).lookahead is None,
        stream_fill(b, ts).current is None ==> stream_fill(b, ts).offset >= b.len(),
        stream_fill(b, ts).current is None ==> stream_progress(stream_fill(b, ts)) == stream_fill(
            b,
            ts,
        ).offset,
        ts.current is Some ==> stream_fill(b, ts) == ts,
        stream_fill(b, stream_fill(b, ts)) == stream_fill(b, ts),
{
    lemma_next_token_from_bounds(b, ts.exclude_trivias, ts.offset);
    lemma_next_token_from_span(b, ts.exclude_trivias, ts.offset);
}

pub proof fn lemma_stream_next(b: Seq<u8>, ts: TokensV)
    requires
        stream_ok(b, ts),
    ensures
        stream_ok(b, stream_next(b, ts).1),
        stream_next(b, ts).1.exclude_trivias == ts.exclude_trivias,
        stream_progress(ts) <= stream_progress(stream_next(b, ts).1),
        stream_next(b, ts).0 matches Some(t) ==> stream_progress(ts) < t.span.start
            && t.span.start < t.span.end && t.span.end - 1 <= stream_progress(
            stream_next(b, ts).1,
        ),
        stream_next(b, ts).1.current is None,
        ts.current is Some ==> stream_next(b, ts).0 == ts.current,
{
    lemma_next_token_from_bounds(b, ts.exclude_trivias, ts.offset);
    lemma_next_token_from_span(b, ts.exclude_trivias, ts.offset);
}

pub proof fn lemma_stream_peek(b: Seq<u8>, ts: TokensV)
    requires
        stream_ok(b, ts),
    ensures
        stream_ok(b, stream_peek(b, ts)),
        stream_peek(b, ts).exclude_trivias == ts.exclude_trivias,
        stream_peek(b, ts).current == ts.current,
        ts.current is Some ==> stream_progress(ts) == stream_progress(stream_peek(b, ts)),
{
    lemma_next_token_from_bounds(b, ts.exclude_trivias, ts.offset);
    lemma_next_token_from_span(b, ts.exclude_trivias, ts.offset);
}

/// Taking a token right after looking at it gives the token looked at.
pub proof fn lemma_next_after_current(b: Seq<u8>, ts: TokensV)
    requires
        stream_ok(b, ts),
    ensures
        stream_next(b, stream_fill(b, ts)).0 == stream_fill(b, ts).current,
{
    lemma_stream_fill(b, ts);
    lemma_next_token_from_bounds(b, ts.exclude_trivias, stream_fill(b, ts).offset);
}

/// A stream of tokens with one token of look-ahead, optionally without
/// trivia (white space and comments).
#[derive(Debug)]
pub struct Tokens<'a> {
    pub exclude_trivias: bool,
    pub lookahead: Option<Token>,
    pub current: Option<Token>,
    pub tokenizer: Tokenizer<'a>,
}

impl<'a> Tokens<'a> {
    pub open spec fn bytes(&self) -> Seq<u8> {
        self.tokenizer.bytes()
    }

    pub open spec fn view(&self) -> TokensV {
        TokensV {
            exclude_trivias: self.exclude_trivias,
            offset: self.tokenizer.pos(),
            current: opt_token(self.current),
            lookahead: opt_token(self.lookahead),
        }
    }

    pub open spec fn wf(&self) -> bool {
        &&& self.tokenizer.wf()
        &&& stream_ok(self.bytes(), self.view())
    }

    pub fn new(input: &'a str, exclude_trivias: bool) -> (t: Self)
        requires
            source_fits(input.spec_bytes().len() as int),
        ensures
            t.wf(),
            t.tokenizer.cursor.input == input,
            t.view() == (TokensV { exclude_trivias, offset: 0, current: None, lookahead: None }),
    {
        Self { exclude_trivias, lookahead: None, current: None, tokenizer: Tokenizer::new(input) }
    }

    pub fn source(&self) -> (r: &'a str)
        ensures
            r == self.tokenizer.cursor.input,
    {
        self.tokenizer.source()
    }

    pub fn position(&self) -> (p: Position)
        requires
            self.wf(),
        ensures
            p == position_of(self.bytes(), self.view().offset),
    {
        self.tokenizer.position()
    }

    fn advance_token_inner(&mut self) -> (r: Option<Token>)
        requires
            old(self).wf(),
        ensures
            final(self).wf(),
            final(self).tokenizer.cursor.input == old(self).tokenizer.cursor.input,
            (opt_token(r), final(self).view().offset) == next_token_from(
                old(self).bytes(),
                old(self).exclude_trivias,
                old(self).view().offset,
            ),
            final(self).exclude_trivias == old(self).exclude_trivias,
            final(self).current == old(self).current,
            final(self).lookahead == old(self).lookahead,
    {
        let ghost b = self.bytes();
        let ghost o0 = self.view().offset;
        while !self.tokenizer.is_eof()
            invariant
                self.wf(),
                self.tokenizer.cursor.input == old(self).tokenizer.cursor.input,
                b == self.bytes(),
                self.exclude_trivias == old(self).exclude_trivias,
                self.current == old(self).current,
                self.lookahead == old(self).lookahead,
                next_token_from(b, self.exclude_trivias, self.view().offset) == next_token_from(
                    b,
                    self.exclude_trivias,
                    o0,
                ),
                o0 == old(self).view().offset,
            decreases b.len() + 1 - self.view().offset,
        {
            let token = self.tokenizer.advance_token();
            if token.token_type().is_trivia() && self.exclude_trivias {
                continue;
            } else {
                return Some(token);
            }
        }
        None
    }

    /// The next token, from the look-ahead slot if it is filled.
    pub fn advance_token(&mut self) -> (r: Option<Token>)
        requires
            old(self).wf(),
        ensures
            final(self).wf(),
            final(self).tokenizer.cursor.input == old(self).tokenizer.cursor.input,
            (opt_token(r), final(self).view()) == stream_advance(old(self).bytes(), old(self).view()),
    {
        if self.lookahead.is_some() {
            self.lookahead.take()
        } else {
            self.advance_token_inner()
        }
    }

    /// Reads a fresh token into the look-ahead slot and returns it.
    pub fn peek(&mut self) -> (r: Option<&Token>)
        requires
            old(self).wf(),
        ensures
            final(self).wf(),
            final(self).tokenizer.cursor.input == old(self).tokenizer.cursor.input,
            final(self).view() == stream_peek(old(self).bytes(), old(self).view()),
            opt_token_ref(r) == final(self).view().lookahead,
    {
        proof {
            lemma_stream_peek(self.bytes(), self.view());
        }
        self.lookahead = self.advance_token_inner();
        self.lookahead.as_ref()
    }

    /// The current token, read if none is current yet.
    pub fn current(&mut self) -> (r: Option<&Token>)
        requires
            old(self).wf(),
        ensures
            final(self).wf(),
            final(self).tokenizer.cursor.input == old(self).tokenizer.cursor.input,
            final(self).view() == stream_fill(old(self).bytes(), old(self).view()),
            opt_token_ref(r) == final(self).view().current,
    {
        proof {
            lemma_stream_fill(self.bytes(), self.view());
        }
        if self.current.is_none() {
            self.current = self.advance_token();
        }
        self.current.as_ref()
    }

    /// Takes the current token, or the next one if none is current.
    pub fn next(&mut self) -> (r: Option<Token>)
        requires
            old(self).wf(),
        ensures
            final(self).wf(),
            final(self).tokenizer.cursor.input == old(self).tokenizer.cursor.input,
            (opt_token(r), final(self).view()) == stream_next(old(self).bytes(), old(self).view()),
    {
        match self.current.take() {
            Some(v) => Some(v),
            None => self.advance_token(),
        }
    }
}

} // verus!
