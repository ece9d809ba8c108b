//! The parser's state and the token-level steps that every parsing
//! function is built from, each proved to do what `steps` says.

use crate::ast::{
    expr_seq_v, expr_v, function_param_seq_v, if_stmt_chain_seq_v,
    if_stmt_chain_v, name_seq_v, stmt_seq_v, stmt_v, suffix_seq_v, suffix_v,
    table_field_seq_v, table_field_v, value_assign_name_seq_v, value_assign_name_v, Expr, ExprV,
    FunctionParam, FunctionParamV, IfStmtChain, InvalidType, KeywordType, Name, NameV, Stmt,
    Suffix, SymbolType, TableField, Token, TokenType, TokenV, ValueAssignName,
};
use crate::parser::state::{
    opt_error, progress, ParseError, ParseErrorMessage, ParseErrorMessageV, ParseErrorV, ParserV,
};
use crate::parser::steps::{
    expect_token, is_last_stmt_part, is_token, is_type, keyword, next_token, peek_further_token,
    peek_token, symbol, take_token,
};
use crate::parser::rules::{advanced, moved};
use crate::tokenizer::{
    lemma_stream_fill, lemma_stream_next, lemma_stream_peek, opt_token, opt_token_ref,
    stream_progress, Tokens,
};
use vstd::prelude::*;

verus! {

/// A recursive-descent parser over a token stream.
pub struct Parser<'a> {
    pub has_varargs: bool,
    pub tokens: Tokens<'a>,
    pub is_in_loop: bool,
}

/// The view of the result of a step that looks at a token.
pub open spec fn token_ref_result(r: Result<Option<&Token>, ParseError>) -> Result<
    Option<TokenV>,
    ParseErrorV,
> {
    match r {
        Ok(t) => Ok(opt_token_ref(t)),
        Err(e) => Err(e@),
    }
}

/// The view of the result of a step that takes a token.
pub open spec fn token_result(r: Result<Option<Token>, ParseError>) -> Result<
    Option<TokenV>,
    ParseErrorV,
> {
    match r {
        Ok(t) => Ok(opt_token(t)),
        Err(e) => Err(e@),
    }
}

pub open spec fn bool_result(r: Result<bool, ParseError>) -> Result<bool, ParseErrorV> {
    match r {
        Ok(t) => Ok(t),
        Err(e) => Err(e@),
    }
}

pub open spec fn unit_result(r: Result<(), Option<ParseError>>) -> Result<(), Option<ParseErrorV>> {
    match r {
        Ok(t) => Ok(t),
        Err(Some(e)) => Err(Some(e@)),
        Err(None) => Err(None),
    }
}

pub open spec fn opt_bool_result(r: Result<bool, Option<ParseError>>) -> Result<
    bool,
    Option<ParseErrorV>,
> {
    match r {
        Ok(t) => Ok(t),
        Err(Some(e)) => Err(Some(e@)),
        Err(None) => Err(None),
    }
}

/// The view of the result of a parsing function.
pub open spec fn parsed<T: View>(r: Result<T, Option<ParseError>>) -> Result<
    T::V,
    Option<ParseErrorV>,
> {
    match r {
        Ok(t) => Ok(t@),
        Err(e) => Err(opt_error(e)),
    }
}

/// The view of the result of a parsing function whose value is plain.
pub open spec fn plain<T>(r: Result<T, Option<ParseError>>) -> Result<T, Option<ParseErrorV>> {
    match r {
        Ok(t) => Ok(t),
        Err(e) => Err(opt_error(e)),
    }
}

/// The view of the result of a parsing function that reads names.
pub open spec fn parsed_names(r: Result<Vec<Name>, Option<ParseError>>) -> Result<
    Seq<NameV>,
    Option<ParseErrorV>,
> {
    match r {
        Ok(t) => Ok(name_seq_v(t@)),
        Err(e) => Err(opt_error(e)),
    }
}

/// The view of the result of a parsing function that reads parameters.
pub open spec fn parsed_params(r: Result<Vec<FunctionParam>, Option<ParseError>>) -> Result<
    Seq<FunctionParamV>,
    Option<ParseErrorV>,
> {
    match r {
        Ok(t) => Ok(function_param_seq_v(t@)),
        Err(e) => Err(opt_error(e)),
    }
}

/// The view of the result of a parsing function that reads expressions.
pub open spec fn parsed_exprs(r: Result<Vec<Expr>, Option<ParseError>>) -> Result<
    Seq<ExprV>,
    Option<ParseErrorV>,
> {
    match r {
        Ok(t) => Ok(expr_seq_v(t@)),
        Err(e) => Err(opt_error(e)),
    }
}

/// Whether a looked-at token is the symbol `y`.
pub fn is_symbol_token(t: Option<&Token>, y: SymbolType) -> (r: bool)
    ensures
        r == is_type(opt_token_ref(t), symbol(y)),
{
    match t {
        Some(t) => match t.token_type() {
            TokenType::Symbol(z) => *z == y,
            _ => false,
        },
        None => false,
    }
}

/// Whether a looked-at token is the keyword `k`.
pub fn is_keyword_token(t: Option<&Token>, k: KeywordType) -> (r: bool)
    ensures
        r == is_type(opt_token_ref(t), keyword(k)),
{
    match t {
        Some(t) => match t.token_type() {
            TokenType::Keyword(z) => *z == k,
            _ => false,
        },
        None => false,
    }
}

impl<'a> Parser<'a> {
    pub open spec fn view(&self) -> ParserV {
        ParserV {
            tokens: self.tokens.view(),
            has_varargs: self.has_varargs,
            is_in_loop: self.is_in_loop,
        }
    }

    /// The source text the parser reads.
    pub open spec fn source(&self) -> &'a str {
        self.tokens.tokenizer.cursor.input
    }

    /// The bytes of the source text.
    pub open spec fn bytes(&self) -> Seq<u8> {
        self.tokens.bytes()
    }

    pub open spec fn wf(&self) -> bool {
        self.tokens.wf()
    }

    /// A parser at the start of `tokens`, outside any loop and function.
    pub fn new(tokens: Tokens<'a>) -> (p: Self)
        requires
            tokens.wf(),
        ensures
            p.wf(),
            p.tokens == tokens,
            !p.has_varargs,
            !p.is_in_loop,
    {
        Self { tokens, has_varargs: false, is_in_loop: false }
    }

    /// The error for a token that could not be read, at the stream's offset.
    fn tokenization_error(&self, invalid: InvalidType) -> (e: ParseError)
        requires
            self.wf(),
        ensures
            e@ == (ParseErrorV {
                position: crate::tokenizer::position_of(self.bytes(), self.view().tokens.offset),
                message: ParseErrorMessageV::Tokenization(invalid),
            }),
    {
        ParseError {
            position: self.tokens.position(),
            message: ParseErrorMessage::Tokenization(invalid),
        }
    }

    /// The error saying that `what` was expected at the stream's offset.
    pub(crate) fn expected(&self, what: &str) -> (e: ParseError)
        requires
            self.wf(),
        ensures
            e@ == crate::parser::steps::expected(self.bytes(), self.view(), what@),
    {
        ParseError {
            position: self.tokens.position(),
            message: ParseErrorMessage::Expected(what.to_owned()),
        }
    }

    /// Looks at the current token, reading it if needed.
    pub(crate) fn peek_token(&mut self) -> (r: Result<Option<&Token>, ParseError>)
        requires
            old(self).wf(),
        ensures
            final(self).wf(),
            final(self).source() == old(self).source(),
            (token_ref_result(r), final(self).view()) == peek_token(
                old(self).bytes(),
                old(self).view(),
            ),
            moved(old(self).bytes(), old(self).view(), final(self).view()),
    {
        proof {
            lemma_stream_fill(self.bytes(), self.view().tokens);
        }
        let invalid: Option<InvalidType> = match self.tokens.current() {
            Some(t) => match t.token_type() {
                TokenType::Invalid(i) => Some(*i),
                _ => None,
            },
            None => None,
        };
        match invalid {
            Some(i) => Err(self.tokenization_error(i)),
            None => Ok(self.tokens.current.as_ref()),
        }
    }

    /// Reads the token after the current one into the look-ahead slot.
    pub(crate) fn peek_further_token(&mut self) -> (r: Result<Option<&Token>, ParseError>)
        requires
            old(self).wf(),
        ensures
            final(self).wf(),
            final(self).source() == old(self).source(),
            (token_ref_result(r), final(self).view()) == peek_further_token(
                old(self).bytes(),
                old(self).view(),
            ),
            old(self).view().tokens.current is Some ==> progress(final(self).view()) == progress(
                old(self).view(),
            ),
    {
        proof {
            lemma_stream_peek(self.bytes(), self.view().tokens);
        }
        let invalid: Option<InvalidType> = match self.tokens.peek() {
            Some(t) => match t.token_type() {
                TokenType::Invalid(i) => Some(*i),
                _ => None,
            },
            None => None,
        };
        match invalid {
            Some(i) => Err(self.tokenization_error(i)),
            None => Ok(self.tokens.lookahead.as_ref()),
        }
    }

    /// Takes the current token, unless it could not be read.
    pub(crate) fn next_token(&mut self) -> (r: Result<Option<Token>, ParseError>)
        requires
            old(self).wf(),
        ensures
            final(self).wf(),
            final(self).source() == old(self).source(),
            (token_result(r), final(self).view()) == next_token(old(self).bytes(), old(self).view()),
            moved(old(self).bytes(), old(self).view(), final(self).view()),
            r matches Ok(Some(t)) ==> progress(old(self).view()) < t.span.start && t.span.start
                < t.span.end && t.span.end - 1 <= progress(final(self).view()),
            old(self).view().tokens.current matches Some(c) ==> (c.token_type is Invalid || (
            r matches Ok(Some(t)) && t@ == c)),
    {
        proof {
            let ts = self.view().tokens;
            lemma_stream_fill(self.bytes(), ts);
            lemma_stream_next(self.bytes(), crate::tokenizer::stream_fill(self.bytes(), ts));
        }
        let invalid: Option<InvalidType> = match self.tokens.current() {
            Some(t) => match t.token_type() {
                TokenType::Invalid(i) => Some(*i),
                _ => None,
            },
            None => None,
        };
        match invalid {
            Some(i) => Err(self.tokenization_error(i)),
            None => Ok(self.tokens.next()),
        }
    }

    /// Takes the current token without looking at it.
    pub(crate) fn take_token(&mut self) -> (r: Option<Token>)
        requires
            old(self).wf(),
        ensures
            final(self).wf(),
            final(self).source() == old(self).source(),
            (opt_token(r), final(self).view()) == take_token(old(self).bytes(), old(self).view()),
            moved(old(self).bytes(), old(self).view(), final(self).view()),
            r matches Some(t) ==> progress(old(self).view()) < t.span.start && t.span.start
                < t.span.end && t.span.end - 1 <= progress(final(self).view()),
            old(self).view().tokens.current matches Some(c) ==> (r matches Some(t) && t@ == c),
    {
        proof {
            lemma_stream_next(self.bytes(), self.view().tokens);
        }
        self.tokens.next()
    }

    /// Whether the current token is the symbol `y`.
    pub(crate) fn is_symbol(&mut self, y: SymbolType) -> (r: Result<bool, ParseError>)
        requires
            old(self).wf(),
        ensures
            final(self).wf(),
            final(self).source() == old(self).source(),
            (bool_result(r), final(self).view()) == is_token(
                old(self).bytes(),
                old(self).view(),
                symbol(y),
            ),
            moved(old(self).bytes(), old(self).view(), final(self).view()),
    {
        match self.peek_token() {
            Err(e) => Err(e),
            Ok(Some(t)) => Ok(match t.token_type() {
                TokenType::Symbol(z) => *z == y,
                _ => false,
            }),
            Ok(None) => Ok(false),
        }
    }

    /// Whether the current token is the keyword `k`.
    pub(crate) fn is_keyword(&mut self, k: KeywordType) -> (r: Result<bool, ParseError>)
        requires
            old(self).wf(),
        ensures
            final(self).wf(),
            final(self).source() == old(self).source(),
            (bool_result(r), final(self).view()) == is_token(
                old(self).bytes(),
                old(self).view(),
                keyword(k),
            ),
            moved(old(self).bytes(), old(self).view(), final(self).view()),
    {
        match self.peek_token() {
            Err(e) => Err(e),
            Ok(Some(t)) => Ok(match t.token_type() {
                TokenType::Keyword(z) => *z == k,
                _ => false,
            }),
            Ok(None) => Ok(false),
        }
    }

    /// Takes the symbol `y`, or fails saying `what` was expected.
    pub(crate) fn expect_symbol(&mut self, y: SymbolType, what: &str) -> (r: Result<(), Option<ParseError>>)
        requires
            old(self).wf(),
        ensures
            final(self).wf(),
            final(self).source() == old(self).source(),
            (unit_result(r), final(self).view()) == expect_token(
                old(self).bytes(),
                old(self).view(),
                symbol(y),
                what@,
            ),
            moved(old(self).bytes(), old(self).view(), final(self).view()),
            r is Ok ==> advanced(old(self).bytes(), old(self).view(), final(self).view()),
    {
        match self.is_symbol(y) {
            Err(e) => Err(Some(e)),
            Ok(true) => {
                self.take_token();
                Ok(())
            },
            Ok(false) => Err(Some(self.expected(what))),
        }
    }

    /// Takes the keyword `k`, or fails saying `what` was expected.
    pub(crate) fn expect_keyword(&mut self, k: KeywordType, what: &str) -> (r: Result<(), Option<ParseError>>)
        requires
            old(self).wf(),
        ensures
            final(self).wf(),
            final(self).source() == old(self).source(),
            (unit_result(r), final(self).view()) == expect_token(
                old(self).bytes(),
                old(self).view(),
                keyword(k),
                what@,
            ),
            moved(old(self).bytes(), old(self).view(), final(self).view()),
            r is Ok ==> advanced(old(self).bytes(), old(self).view(), final(self).view()),
    {
        match self.is_keyword(k) {
            Err(e) => Err(Some(e)),
            Ok(true) => {
                self.take_token();
                Ok(())
            },
            Ok(false) => Err(Some(self.expected(what))),
        }
    }

    /// Whether the current token ends a block: `break`, `end`, `elseif`,
    /// `else`, `until`, `return`, or the end of the input.
    pub(crate) fn is_token_last_stmt_part(&mut self) -> (r: Result<bool, Option<ParseError>>)
        requires
            old(self).wf(),
        ensures
            final(self).wf(),
            final(self).source() == old(self).source(),
            (opt_bool_result(r), final(self).view()) == is_last_stmt_part(
                old(self).bytes(),
                old(self).view(),
            ),
            moved(old(self).bytes(), old(self).view(), final(self).view()),
    {
        match self.peek_token() {
            Err(e) => Err(Some(e)),
            Ok(None) => Ok(true),
            Ok(Some(t)) => Ok(
                match t.token_type() {
                    TokenType::Keyword(k) => match k {
                        KeywordType::Break | KeywordType::End | KeywordType::ElseIf
                        | KeywordType::Else | KeywordType::Until | KeywordType::Return => true,
                        _ => false,
                    },
                    _ => false,
                },
            ),
        }
    }
}

/// Views of lists grow with the lists.
pub proof fn lemma_exprs_push(s: Seq<Expr>, x: Expr)
    ensures
        expr_seq_v(s.push(x)) == expr_seq_v(s).push(expr_v(x)),
{
    assert(s.push(x).drop_last() =~= s);
}

pub proof fn lemma_suffixs_push(s: Seq<Suffix>, x: Suffix)
    ensures
        suffix_seq_v(s.push(x)) == suffix_seq_v(s).push(suffix_v(x)),
{
    assert(s.push(x).drop_last() =~= s);
}

pub proof fn lemma_table_fields_push(s: Seq<TableField>, x: TableField)
    ensures
        table_field_seq_v(s.push(x)) == table_field_seq_v(s).push(table_field_v(x)),
{
    assert(s.push(x).drop_last() =~= s);
}

pub proof fn lemma_stmts_push(s: Seq<Stmt>, x: Stmt)
    ensures
        stmt_seq_v(s.push(x)) == stmt_seq_v(s).push(stmt_v(x)),
{
    assert(s.push(x).drop_last() =~= s);
}

pub proof fn lemma_if_stmt_chains_push(s: Seq<IfStmtChain>, x: IfStmtChain)
    ensures
        if_stmt_chain_seq_v(s.push(x)) == if_stmt_chain_seq_v(s).push(if_stmt_chain_v(x)),
{
    assert(s.push(x).drop_last() =~= s);
}

pub proof fn lemma_value_assign_names_push(s: Seq<ValueAssignName>, x: ValueAssignName)
    ensures
        value_assign_name_seq_v(s.push(x)) == value_assign_name_seq_v(s).push(value_assign_name_v(x)),
{
    assert(s.push(x).drop_last() =~= s);
}

} // verus!
