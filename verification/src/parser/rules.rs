//! What each parsing function does, as spec functions over the parser
//! state. Every function returns its result and the state after it; the
//! `decreases` measure is the input left to parse, then a rank that orders
//! the functions that call each other without taking a token in between.
//! Where the parser has not moved as far as that measure needs before a
//! call (which the parsing functions are proved never to do), a rule gives
//! `Err(None)` in place of the call.

use crate::ast::{
    end_at, expr_span, start_at, value_assign_name_span, AnynomousFunctionV, AstV, BinaryV, Binop,
    BinopKind, BlockV, Bool, CallArgsV, CallV, DoStmtV, ExprV, FunctionAssignNameV,
    FunctionAssignV, FunctionParamV, GenericForV, IfStmtChainV, IfStmtV, KeywordType, LastStmtV,
    LiteralV, LocalAssignV, LocalFunctionV, MethodCallV, NameV, NumberV, NumericForV,
    ParenthesesV, RepeatStmtV, ReturnV, StmtV, StrV, SuffixIndexV, SuffixV, SuffixedV,
    SymbolType, TableConstructorV, TableFieldV, TokenTypeV, TokenV, Unop, UnopKind, UnaryV,
    ValueAssignNameV, ValueAssignV, WhileStmtV,
};
use crate::location::Span;
use crate::parser::state::{progress, ParseErrorMessageV, ParseErrorV, ParserV};
use crate::parser::steps::{
    expect_token, expected, is_last_stmt_part, is_token, is_type, keyword, next_token, with_tokens,
    peek_further_token, peek_token, symbol, take_token, Parsed,
};
use crate::tokenizer::{position_of, stream_fill};
use vstd::utf8::{encode_utf8, is_char_boundary};
use vstd::prelude::*;

verus! {

/// `s1` is no further back than `s0`, and within the source.
pub open spec fn moved(b: Seq<u8>, s0: ParserV, s1: ParserV) -> bool {
    progress(s0) <= progress(s1) <= b.len() + 1
}

/// `s1` has taken at least one token more than `s0`.
pub open spec fn advanced(b: Seq<u8>, s0: ParserV, s1: ParserV) -> bool {
    progress(s0) < progress(s1) <= b.len() + 1
}

pub open spec fn binop_kind(tt: TokenTypeV) -> Option<BinopKind> {
    match tt {
        TokenTypeV::Keyword(KeywordType::And) => Some(BinopKind::And),
        TokenTypeV::Keyword(KeywordType::Or) => Some(BinopKind::Or),
        TokenTypeV::Symbol(SymbolType::Caret) => Some(BinopKind::Exponent),
        TokenTypeV::Symbol(SymbolType::Star) => Some(BinopKind::Multiply),
        TokenTypeV::Symbol(SymbolType::Slash) => Some(BinopKind::Divide),
        TokenTypeV::Symbol(SymbolType::Percent) => Some(BinopKind::Modulo),
        TokenTypeV::Symbol(SymbolType::Cross) => Some(BinopKind::Add),
        TokenTypeV::Symbol(SymbolType::Dash) => Some(BinopKind::Subtract),
        TokenTypeV::Symbol(SymbolType::DotDot) => Some(BinopKind::Concat),
        TokenTypeV::Symbol(SymbolType::EqualEqual) => Some(BinopKind::Equality),
        TokenTypeV::Symbol(SymbolType::TildeEqual) => Some(BinopKind::Inequality),
        TokenTypeV::Symbol(SymbolType::GreaterThan) => Some(BinopKind::GreaterThan),
        TokenTypeV::Symbol(SymbolType::GreaterEqual) => Some(BinopKind::GreaterEqual),
        TokenTypeV::Symbol(SymbolType::LessThan) => Some(BinopKind::LessThan),
        TokenTypeV::Symbol(SymbolType::LessEqual) => Some(BinopKind::LessEqual),
        _ => None,
    }
}

pub open spec fn unop_kind(tt: TokenTypeV) -> Option<UnopKind> {
    match tt {
        TokenTypeV::Keyword(KeywordType::Not) => Some(UnopKind::Not),
        TokenTypeV::Symbol(SymbolType::Dash) => Some(UnopKind::Negate),
        TokenTypeV::Symbol(SymbolType::Hash) => Some(UnopKind::Length),
        _ => None,
    }
}

/// A binary operator at the current token, which is not taken.
#[verifier::opaque]
pub open spec fn binop(b: Seq<u8>, s: ParserV) -> Parsed<Binop> {
    let (r, s1) = peek_token(b, s);
    match r {
        Err(e) => (Err(Some(e)), s1),
        Ok(None) => (Err(None), s1),
        Ok(Some(t)) => match binop_kind(t.token_type) {
            Some(kind) => (Ok(Binop { kind, span: t.span }), s1),
            None => (Err(None), s1),
        },
    }
}

/// A unary operator at the current token, which is taken.
#[verifier::opaque]
pub open spec fn unop(b: Seq<u8>, s: ParserV) -> Parsed<Unop> {
    let (r, s1) = peek_token(b, s);
    match r {
        Err(e) => (Err(Some(e)), s1),
        Ok(None) => (Err(None), s1),
        Ok(Some(t)) => match unop_kind(t.token_type) {
            Some(kind) => (Ok(Unop { kind, span: t.span }), next_token(b, s1).1),
            None => (Err(None), s1),
        },
    }
}

/// A name.
#[verifier::opaque]
pub open spec fn name(b: Seq<u8>, s: ParserV) -> Parsed<NameV> {
    let (r, s1) = peek_token(b, s);
    match r {
        Err(e) => (Err(Some(e)), s1),
        Ok(Some(t)) => match t.token_type {
            TokenTypeV::Name(n) => (Ok(NameV { span: t.span, name: n }), next_token(b, s1).1),
            _ => (Err(Some(expected(b, s1, "<name>"@))), s1),
        },
        Ok(None) => (Err(Some(expected(b, s1, "<name>"@))), s1),
    }
}

/// More names after the first, each after a comma.
#[verifier::opaque]
pub open spec fn name_list_rest(b: Seq<u8>, s: ParserV, names: Seq<NameV>) -> Parsed<Seq<NameV>>
    decreases b.len() + 2 - progress(s),
{
    let (r, s1) = peek_token(b, s);
    match r {
        Err(e) => (Err(Some(e)), s1),
        Ok(t) => if is_type(t, symbol(SymbolType::Comma)) {
            let (r2, s2) = next_token(b, s1);
            match r2 {
                Err(e) => (Err(Some(e)), s2),
                Ok(_) => {
                    let (r3, s3) = name(b, s2);
                    match r3 {
                        Err(e) => (Err(e), s3),
                        Ok(n) => if advanced(b, s, s3) {
                            name_list_rest(b, s3, names.push(n))
                        } else {
                            (Err(None), s3)
                        },
                    }
                },
            }
        } else {
            (Ok(names), s1)
        },
    }
}

/// A list of names separated by commas.
#[verifier::opaque]
pub open spec fn name_list(b: Seq<u8>, s: ParserV) -> Parsed<Seq<NameV>> {
    let (r, s1) = name(b, s);
    match r {
        Err(e) => (Err(e), s1),
        Ok(n) => name_list_rest(b, s1, seq![n]),
    }
}

/// A parameter: a name or `...`.
#[verifier::opaque]
pub open spec fn function_param(b: Seq<u8>, s: ParserV) -> Parsed<FunctionParamV> {
    let (r, s1) = is_token(b, s, symbol(SymbolType::DotDotDot));
    match r {
        Err(e) => (Err(Some(e)), s1),
        Ok(true) => {
            let (t, s2) = take_token(b, s1);
            (Ok(FunctionParamV::Varargs(t->Some_0.span)), s2)
        },
        Ok(false) => {
            let (r2, s2) = name(b, s1);
            match r2 {
                Err(e) => (Err(e), s2),
                Ok(n) => (Ok(FunctionParamV::Name(n)), s2),
            }
        },
    }
}

/// More parameters after `current`, each after a comma; `...` ends them.
/// Returns the parameters before the last one, and the last one.
#[verifier::opaque]
pub open spec fn function_params_rest(
    b: Seq<u8>,
    s: ParserV,
    params: Seq<FunctionParamV>,
    current: FunctionParamV,
) -> Parsed<(Seq<FunctionParamV>, FunctionParamV)>
    decreases b.len() + 2 - progress(s),
{
    let (r, s1) = is_token(b, s, symbol(SymbolType::Comma));
    match r {
        Err(e) => (Err(Some(e)), s1),
        Ok(false) => (Ok((params, current)), s1),
        Ok(true) => if current is Varargs {
            (Ok((params, current)), s1)
        } else {
            let s2 = take_token(b, s1).1;
            let (r3, s3) = function_param(b, s2);
            match r3 {
                Err(e) => (Err(e), s3),
                Ok(p) => if advanced(b, s, s3) {
                    function_params_rest(b, s3, params.push(current), p)
                } else {
                    (Err(None), s3)
                },
            }
        },
    }
}

/// A parenthesised parameter list; sets whether the function takes `...`.
#[verifier::opaque]
pub open spec fn function_params(b: Seq<u8>, s: ParserV) -> Parsed<Seq<FunctionParamV>> {
    let (r1, s1) = expect_token(b, s, symbol(SymbolType::OpenParen), "("@);
    match r1 {
        Err(e) => (Err(e), s1),
        Ok(_) => {
            let (r2, s2) = is_token(b, s1, symbol(SymbolType::CloseParen));
            match r2 {
                Err(e) => (Err(Some(e)), s2),
                Ok(closed) => {
                    let (r3, s3): (Result<Seq<FunctionParamV>, Option<ParseErrorV>>, ParserV) =
                        if !closed {
                        let (r4, s4) = function_param(b, s2);
                        match r4 {
                            Err(e) => (Err(e), s4),
                            Ok(p) => {
                                let (r5, s5) = function_params_rest(b, s4, seq![], p);
                                match r5 {
                                    Err(e) => (Err(e), s5),
                                    Ok((ps, last)) => (
                                        Ok(ps.push(last)),
                                        ParserV { has_varargs: last is Varargs, ..s5 },
                                    ),
                                }
                            },
                        }
                    } else {
                        (Ok(seq![]), ParserV { has_varargs: false, ..s2 })
                    };
                    match r3 {
                        Err(e) => (Err(e), s3),
                        Ok(ps) => {
                            let (r6, s6) = expect_token(
                                b,
                                s3,
                                symbol(SymbolType::CloseParen),
                                ")"@,
                            );
                            match r6 {
                                Err(e) => (Err(e), s6),
                                Ok(_) => (Ok(ps), s6),
                            }
                        },
                    }
                },
            }
        },
    }
}

/// The name of a function statement: names separated by `.`, then maybe
/// `:` and a method name (collected from `names` on).
#[verifier::opaque]
pub open spec fn function_assign_name_rest(b: Seq<u8>, s: ParserV, names: Seq<NameV>) -> Parsed<
    FunctionAssignNameV,
>
    decreases b.len() + 2 - progress(s),
{
    let (r, s1) = peek_token(b, s);
    match r {
        Err(e) => (Err(Some(e)), s1),
        Ok(t) => if is_type(t, symbol(SymbolType::Colon)) {
            let s2 = take_token(b, s1).1;
            let (r3, s3) = name(b, s2);
            match r3 {
                Err(e) => (Err(e), s3),
                Ok(m) => (Ok(FunctionAssignNameV { names, method_indexer: Some(m) }), s3),
            }
        } else if is_type(t, symbol(SymbolType::Dot)) {
            let s2 = take_token(b, s1).1;
            let (r3, s3) = name(b, s2);
            match r3 {
                Err(e) => (Err(e), s3),
                Ok(n) => if advanced(b, s, s3) {
                    function_assign_name_rest(b, s3, names.push(n))
                } else {
                    (Err(None), s3)
                },
            }
        } else {
            (Ok(FunctionAssignNameV { names, method_indexer: None }), s1)
        },
    }
}

#[verifier::opaque]
pub open spec fn function_assign_name(b: Seq<u8>, s: ParserV) -> Parsed<FunctionAssignNameV> {
    let (r, s1) = name(b, s);
    match r {
        Err(e) => (Err(e), s1),
        Ok(n) => function_assign_name_rest(b, s1, seq![n]),
    }
}

} // verus!

verus! {

/// The error for `...` in a function that does not take it.
pub open spec fn unexpected_varargs(b: Seq<u8>, s: ParserV) -> ParseErrorV {
    ParseErrorV {
        position: position_of(b, s.tokens.offset),
        message: ParseErrorMessageV::InvalidVarargsUse,
    }
}

/// An expression list: expressions separated by commas, ending after an
/// expression that starts with `...`.
#[verifier::opaque]
pub open spec fn exprlist(b: Seq<u8>, s: ParserV) -> Parsed<Seq<ExprV>>
    decreases b.len() + 2 - progress(s), 24int,
{
    let (r, s1) = expr(b, s);
    match r {
        Err(e) => (Err(e), s1),
        Ok(e) => if advanced(b, s, s1) {
            exprlist_rest(b, s1, seq![e])
        } else {
            (Err(None), s1)
        },
    }
}

#[verifier::opaque]
pub open spec fn exprlist_rest(b: Seq<u8>, s: ParserV, es: Seq<ExprV>) -> Parsed<Seq<ExprV>>
    decreases b.len() + 2 - progress(s), 23int,
{
    let (r, s1) = peek_token(b, s);
    match r {
        Err(e) => (Err(Some(e)), s1),
        Ok(t) => if is_type(t, symbol(SymbolType::Comma)) {
            let (r2, s2) = next_token(b, s1);
            match r2 {
                Err(e) => (Err(Some(e)), s2),
                Ok(_) => {
                    let (r3, s3) = is_token(b, s2, symbol(SymbolType::DotDotDot));
                    match r3 {
                        Err(e) => (Err(Some(e)), s3),
                        Ok(stop) => if advanced(b, s, s3) {
                            let (r4, s4) = expr(b, s3);
                            match r4 {
                                Err(e) => (Err(e), s4),
                                Ok(e) => if stop {
                                    (Ok(es.push(e)), s4)
                                } else if advanced(b, s, s4) {
                                    exprlist_rest(b, s4, es.push(e))
                                } else {
                                    (Err(None), s4)
                                },
                            }
                        } else {
                            (Err(None), s3)
                        },
                    }
                },
            }
        } else {
            (Ok(es), s1)
        },
    }
}

/// An expression.
#[verifier::opaque]
pub open spec fn expr(b: Seq<u8>, s: ParserV) -> Parsed<ExprV>
    decreases b.len() + 2 - progress(s), 20int,
{
    complex(b, s, 1)
}

/// An expression whose operators bind at least as tight as `min`.
#[verifier::opaque]
pub open spec fn complex(b: Seq<u8>, s: ParserV, min: usize) -> Parsed<ExprV>
    decreases b.len() + 2 - progress(s), 19int,
{
    let (r, s1) = noncomplex(b, s);
    match r {
        Err(e) => (Err(e), s1),
        Ok(e) => if advanced(b, s, s1) {
            complex_rest(b, s1, e, min)
        } else {
            (Err(None), s1)
        },
    }
}

/// Extends `lhs` with binary operators binding at least as tight as `min`.
#[verifier::opaque]
pub open spec fn complex_rest(b: Seq<u8>, s: ParserV, lhs: ExprV, min: usize) -> Parsed<ExprV>
    decreases b.len() + 2 - progress(s), 18int,
{
    let (r, s1) = binop(b, s);
    match r {
        Ok(op) => if op.kind.spec_order() < min {
            (Ok(lhs), s1)
        } else {
            let (r2, s2) = next_token(b, s1);
            match r2 {
                Err(e) => (Err(Some(e)), s2),
                Ok(_) => if advanced(b, s, s2) {
                    let next_min = if op.kind.spec_is_right_associative() {
                        op.kind.spec_order()
                    } else {
                        (op.kind.spec_order() + 1) as usize
                    };
                    let (r3, s3) = complex(b, s2, next_min);
                    match r3 {
                        Err(e) => (Err(e), s3),
                        Ok(rhs) => if advanced(b, s, s3) {
                            complex_rest(
                                b,
                                s3,
                                ExprV::Binary(
                                    BinaryV { left: Box::new(lhs), op, right: Box::new(rhs) },
                                ),
                                min,
                            )
                        } else {
                            (Err(None), s3)
                        },
                    }
                } else {
                    (Err(None), s2)
                },
            }
        },
        Err(_) => (Ok(lhs), s1),
    }
}

/// A unary operation or a simple expression.
#[verifier::opaque]
pub open spec fn noncomplex(b: Seq<u8>, s: ParserV) -> Parsed<ExprV>
    decreases b.len() + 2 - progress(s), 17int,
{
    let (r, s1) = unop(b, s);
    match r {
        Ok(op) => if advanced(b, s, s1) {
            let (r2, s2) = complex(b, s1, op.kind.spec_order());
            match r2 {
                Err(e) => (Err(e), s2),
                Ok(e) => (Ok(ExprV::Unary(UnaryV { op, expr: Box::new(e) })), s2),
            }
        } else {
            (Err(None), s1)
        },
        Err(_) => if moved(b, s, s1) {
            simple(b, s1)
        } else {
            (Err(None), s1)
        },
    }
}

/// A literal, a function, a table, `...`, or a primary expression.
#[verifier::opaque]
pub open spec fn simple(b: Seq<u8>, s: ParserV) -> Parsed<ExprV>
    decreases b.len() + 2 - progress(s), 16int,
{
    let (r, s1) = peek_token(b, s);
    match r {
        Err(e) => (Err(Some(e)), s1),
        Ok(t) => {
            let s2 = next_token(b, s1).1;
            let span = t->Some_0.span;
            if t matches Some(t) && t.token_type is Str {
                (
                    Ok(
                        ExprV::Literal(
                            LiteralV::Str(StrV { span, value: t->Some_0.token_type->Str_0 }),
                        ),
                    ),
                    s2,
                )
            } else if is_type(t, keyword(KeywordType::Nil)) {
                (Ok(ExprV::Literal(LiteralV::Nil(span))), s2)
            } else if is_type(t, keyword(KeywordType::True)) {
                (Ok(ExprV::Literal(LiteralV::Bool(Bool { span, value: true }))), s2)
            } else if is_type(t, keyword(KeywordType::False)) {
                (Ok(ExprV::Literal(LiteralV::Bool(Bool { span, value: false }))), s2)
            } else if is_type(t, keyword(KeywordType::Function)) {
                if advanced(b, s, s2) {
                    let (r3, s3) = anon_fn(b, s2, span);
                    match r3 {
                        Err(e) => (Err(e), s3),
                        Ok(f) => (Ok(ExprV::Literal(LiteralV::Function(f))), s3),
                    }
                } else {
                    (Err(None), s2)
                }
            } else if is_type(t, symbol(SymbolType::OpenBrace)) {
                if moved(b, s, s1) {
                    let (r3, s3) = table(b, s1);
                    match r3 {
                        Err(e) => (Err(e), s3),
                        Ok(tc) => (Ok(ExprV::Literal(LiteralV::Table(tc))), s3),
                    }
                } else {
                    (Err(None), s1)
                }
            } else if is_type(t, symbol(SymbolType::DotDotDot)) {
                if s1.has_varargs {
                    (Ok(ExprV::Literal(LiteralV::Varargs(span))), s2)
                } else {
                    (Err(Some(unexpected_varargs(b, s1))), s1)
                }
            } else if t matches Some(t) && t.token_type is Number {
                (
                    Ok(
                        ExprV::Literal(
                            LiteralV::Number(NumberV { span, value: t->Some_0.token_type->Number_0 }),
                        ),
                    ),
                    s2,
                )
            } else if moved(b, s, s1) {
                primary(b, s1)
            } else {
                (Err(None), s1)
            }
        },
    }
}

/// A parenthesised expression or a name.
#[verifier::opaque]
pub open spec fn prefix(b: Seq<u8>, s: ParserV) -> Parsed<ExprV>
    decreases b.len() + 2 - progress(s), 10int,
{
    let (r, s1) = peek_token(b, s);
    match r {
        Err(e) => (Err(Some(e)), s1),
        Ok(t) => if is_type(t, symbol(SymbolType::OpenParen)) {
            let left = t->Some_0.span;
            let (r2, s2) = next_token(b, s1);
            match r2 {
                Err(e) => (Err(Some(e)), s2),
                Ok(_) => if advanced(b, s, s2) {
                    let (r3, s3) = expr(b, s2);
                    match r3 {
                        Err(e) => (Err(e), s3),
                        Ok(inner) => {
                            let (r4, s4) = is_token(b, s3, symbol(SymbolType::CloseParen));
                            match r4 {
                                Err(e) => (Err(Some(e)), s4),
                                Ok(false) => (Err(Some(expected(b, s4, ")"@))), s4),
                                Ok(true) => {
                                    let (r5, s5) = next_token(b, s4);
                                    match r5 {
                                        Err(e) => (Err(Some(e)), s5),
                                        Ok(right) => (
                                            Ok(
                                                ExprV::Parentheses(
                                                    ParenthesesV {
                                                        spanned: end_at(
                                                            left,
                                                            right->Some_0.span.end,
                                                        ),
                                                        inner: Box::new(inner),
                                                    },
                                                ),
                                            ),
                                            s5,
                                        ),
                                    }
                                },
                            }
                        },
                    }
                } else {
                    (Err(None), s2)
                },
            }
        } else if t matches Some(t) && t.token_type is Name {
            (
                Ok(
                    ExprV::Literal(
                        LiteralV::Name(NameV { span: t->Some_0.span, name: t->Some_0.token_type->Name_0 }),
                    ),
                ),
                next_token(b, s1).1,
            )
        } else {
            (Err(Some(expected(b, s1, "<expr>"@))), s1)
        },
    }
}

/// A prefix expression followed by any number of calls and indexings.
#[verifier::opaque]
pub open spec fn primary(b: Seq<u8>, s: ParserV) -> Parsed<ExprV>
    decreases b.len() + 2 - progress(s), 15int,
{
    let (r, s1) = prefix(b, s);
    match r {
        Err(e) => (Err(e), s1),
        Ok(p) => if advanced(b, s, s1) {
            let (r2, s2) = primary_rest(b, s1, seq![]);
            match r2 {
                Err(e) => (Err(e), s2),
                Ok(suffixes) => if suffixes.len() == 0 {
                    (Ok(p), s2)
                } else {
                    (Ok(ExprV::Suffixed(SuffixedV { prefix: Box::new(p), suffixes })), s2)
                },
            }
        } else {
            (Err(None), s1)
        },
    }
}

/// Whether a token starts a suffix: a call or an indexing.
pub open spec fn starts_suffix(tt: TokenTypeV) -> bool {
    ||| tt == symbol(SymbolType::OpenParen)
    ||| tt == symbol(SymbolType::OpenBracket)
    ||| tt == symbol(SymbolType::Dot)
    ||| tt == symbol(SymbolType::Colon)
    ||| tt is Str
    ||| tt == symbol(SymbolType::OpenBrace)
}

/// The suffixes after a prefix expression (collected from `suffixes` on).
#[verifier::opaque]
pub open spec fn primary_rest(b: Seq<u8>, s: ParserV, suffixes: Seq<SuffixV>) -> Parsed<Seq<SuffixV>>
    decreases b.len() + 2 - progress(s), 14int,
{
    let (r, s1) = peek_token(b, s);
    match r {
        Err(e) => (Err(Some(e)), s1),
        Ok(None) => (Ok(suffixes), s1),
        Ok(Some(t)) => if !starts_suffix(t.token_type) {
            (Ok(suffixes), s1)
        } else if moved(b, s, s1) {
            let (r2, s2) = suffix(b, s1);
            match r2 {
                Err(e) => (Err(e), s2),
                Ok(x) => if advanced(b, s, s2) {
                    primary_rest(b, s2, suffixes.push(x))
                } else {
                    (Err(None), s2)
                },
            }
        } else {
            (Err(None), s1)
        },
    }
}

/// One suffix: call arguments, an indexing, or a method call.
#[verifier::opaque]
pub open spec fn suffix(b: Seq<u8>, s: ParserV) -> Parsed<SuffixV>
    decreases b.len() + 2 - progress(s), 13int,
{
    let (r, s1) = peek_token(b, s);
    match r {
        Err(e) => (Err(Some(e)), s1),
        Ok(None) => (Err(None), s1),
        Ok(Some(t)) => if t.token_type == symbol(SymbolType::OpenParen) {
            if moved(b, s, s1) {
                let (r3, s3) = call_args_parens(b, s1, t.span);
                match r3 {
                    Err(e) => (Err(e), s3),
                    Ok(a) => (Ok(SuffixV::Call(CallV::Args(a))), s3),
                }
            } else {
                (Err(None), s1)
            }
        } else if t.token_type == symbol(SymbolType::OpenBracket) {
            let (r3, s3) = next_token(b, s1);
            match r3 {
                Err(e) => (Err(Some(e)), s3),
                Ok(_) => if advanced(b, s, s3) {
                    let (r4, s4) = expr(b, s3);
                    match r4 {
                        Err(e) => (Err(e), s4),
                        Ok(e) => {
                            let (r5, s5) = is_token(b, s4, symbol(SymbolType::CloseBracket));
                            match r5 {
                                Err(err) => (Err(Some(err)), s5),
                                Ok(false) => (Err(Some(expected(b, s5, "]"@))), s5),
                                Ok(true) => {
                                    let (r6, s6) = next_token(b, s5);
                                    match r6 {
                                        Err(err) => (Err(Some(err)), s6),
                                        Ok(close) => (
                                            Ok(
                                                SuffixV::Index(
                                                    SuffixIndexV::Computed {
                                                        spanned: end_at(
                                                            t.span,
                                                            close->Some_0.span.end,
                                                        ),
                                                        expr: Box::new(e),
                                                    },
                                                ),
                                            ),
                                            s6,
                                        ),
                                    }
                                },
                            }
                        },
                    }
                } else {
                    (Err(None), s3)
                },
            }
        } else if t.token_type == symbol(SymbolType::Dot) {
            let (r3, s3) = next_token(b, s1);
            match r3 {
                Err(e) => (Err(Some(e)), s3),
                Ok(_) => {
                    let (r4, s4) = name(b, s3);
                    match r4 {
                        Err(e) => (Err(e), s4),
                        Ok(n) => (
                            Ok(SuffixV::Index(SuffixIndexV::Named { dot: t.span, indexer: n })),
                            s4,
                        ),
                    }
                },
            }
        } else if t.token_type == symbol(SymbolType::Colon) {
            let (r3, s3) = next_token(b, s1);
            match r3 {
                Err(e) => (Err(Some(e)), s3),
                Ok(_) => {
                    let (r4, s4) = name(b, s3);
                    match r4 {
                        Err(e) => (Err(e), s4),
                        Ok(n) => if advanced(b, s, s4) {
                            let (r5, s5) = call_args(b, s4);
                            match r5 {
                                Err(e) => (Err(e), s5),
                                Ok(a) => (
                                    Ok(
                                        SuffixV::Call(
                                            CallV::Method(
                                                MethodCallV {
                                                    colon: t.span,
                                                    indexer: n,
                                                    args: Box::new(a),
                                                },
                                            ),
                                        ),
                                    ),
                                    s5,
                                ),
                            }
                        } else {
                            (Err(None), s4)
                        },
                    }
                },
            }
        } else if t.token_type is Str {
            (
                Ok(
                    SuffixV::Call(
                        CallV::Args(
                            CallArgsV::Str(StrV { span: t.span, value: t.token_type->Str_0 }),
                        ),
                    ),
                ),
                next_token(b, s1).1,
            )
        } else if t.token_type == symbol(SymbolType::OpenBrace) {
            if moved(b, s, s1) {
                let (r3, s3) = table(b, s1);
                match r3 {
                    Err(e) => (Err(e), s3),
                    Ok(tc) => (Ok(SuffixV::Call(CallV::Args(CallArgsV::Table(tc)))), s3),
                }
            } else {
                (Err(None), s1)
            }
        } else {
            (Err(None), s1)
        },
    }
}

/// Call arguments in parentheses; the `(` at `left` is current.
#[verifier::opaque]
pub open spec fn call_args_parens(b: Seq<u8>, s: ParserV, left: Span) -> Parsed<CallArgsV>
    decreases b.len() + 2 - progress(s), 12int,
{
    let (r, s1) = next_token(b, s);
    match r {
        Err(e) => (Err(Some(e)), s1),
        Ok(_) => {
            let (r2, s2) = peek_token(b, s1);
            match r2 {
                Err(e) => (Err(Some(e)), s2),
                Ok(t) => {
                    let (r3, s3): Parsed<Seq<ExprV>> = if is_type(
                        t,
                        symbol(SymbolType::CloseParen),
                    ) {
                        (Ok(seq![]), s2)
                    } else if advanced(b, s, s2) {
                        exprlist(b, s2)
                    } else {
                        (Err(None), s2)
                    };
                    match r3 {
                        Err(e) => (Err(e), s3),
                        Ok(list) => {
                            let (r4, s4) = if list.len() != 0 {
                                is_token(b, s3, symbol(SymbolType::CloseParen))
                            } else {
                                (Ok(true), s3)
                            };
                            match r4 {
                                Err(e) => (Err(Some(e)), s4),
                                Ok(false) => (Err(Some(expected(b, s4, ")"@))), s4),
                                Ok(true) => {
                                    let (r5, s5) = next_token(b, s4);
                                    match r5 {
                                        Err(e) => (Err(Some(e)), s5),
                                        Ok(close) => (
                                            Ok(
                                                CallArgsV::Multiple {
                                                    parens: end_at(left, close->Some_0.span.end),
                                                    exprs: list,
                                                },
                                            ),
                                            s5,
                                        ),
                                    }
                                },
                            }
                        },
                    }
                },
            }
        },
    }
}

/// The arguments of a call: in parentheses, a table, or a string.
#[verifier::opaque]
pub open spec fn call_args(b: Seq<u8>, s: ParserV) -> Parsed<CallArgsV>
    decreases b.len() + 2 - progress(s), 13int,
{
    let (r, s1) = peek_token(b, s);
    match r {
        Err(e) => (Err(Some(e)), s1),
        Ok(t) => if !moved(b, s, s1) {
            (Err(None), s1)
        } else if is_type(t, symbol(SymbolType::OpenParen)) {
            call_args_parens(b, s1, t->Some_0.span)
        } else if is_type(t, symbol(SymbolType::OpenBrace)) {
            let (r2, s2) = table(b, s1);
            match r2 {
                Err(e) => (Err(e), s2),
                Ok(tc) => (Ok(CallArgsV::Table(tc)), s2),
            }
        } else if t matches Some(t) && t.token_type is Str {
            (
                Ok(CallArgsV::Str(StrV { span: t->Some_0.span, value: t->Some_0.token_type->Str_0 })),
                next_token(b, s1).1,
            )
        } else {
            (Err(Some(expected(b, s1, "function arguments"@))), s1)
        },
    }
}

/// A table constructor; its `{` is current.
#[verifier::opaque]
pub open spec fn table(b: Seq<u8>, s: ParserV) -> Parsed<TableConstructorV>
    decreases b.len() + 2 - progress(s), 11int,
{
    let (r, s1) = next_token(b, s);
    match r {
        Err(e) => (Err(Some(e)), s1),
        Ok(None) => (Err(Some(expected(b, s1, "{"@))), s1),
        Ok(Some(t)) => if advanced(b, s, s1) {
            table_fields(b, s1, t.span, seq![])
        } else {
            (Err(None), s1)
        },
    }
}

/// One field of a table constructor.
#[verifier::opaque]
pub open spec fn table_field(b: Seq<u8>, s: ParserV) -> Parsed<TableFieldV>
    decreases b.len() + 2 - progress(s), 21int,
{
    let (r, s1) = peek_token(b, s);
    match r {
        Err(e) => (Err(Some(e)), s1),
        Ok(t) => if is_type(t, symbol(SymbolType::OpenBracket)) {
            let start = t->Some_0.span;
            let (r2, s2) = next_token(b, s1);
            match r2 {
                Err(e) => (Err(Some(e)), s2),
                Ok(_) => if moved(b, s, s2) {
                    let (r3, s3) = expr(b, s2);
                    match r3 {
                        Err(e) => (Err(e), s3),
                        Ok(key) => {
                            let (r4, s4) = is_token(b, s3, symbol(SymbolType::CloseBracket));
                            match r4 {
                                Err(e) => (Err(Some(e)), s4),
                                Ok(false) => (Err(Some(expected(b, s4, "]"@))), s4),
                                Ok(true) => {
                                    let (r5, s5) = next_token(b, s4);
                                    match r5 {
                                        Err(e) => (Err(Some(e)), s5),
                                        Ok(close) => {
                                            let (r6, s6) = is_token(
                                                b,
                                                s5,
                                                symbol(SymbolType::Equal),
                                            );
                                            match r6 {
                                                Err(e) => (Err(Some(e)), s6),
                                                Ok(false) => (
                                                    Err(Some(expected(b, s6, "="@))),
                                                    s6,
                                                ),
                                                Ok(true) => {
                                                    let (r7, s7) = next_token(b, s6);
                                                    match r7 {
                                                        Err(e) => (Err(Some(e)), s7),
                                                        Ok(_) => if moved(b, s, s7) {
                                                            let (r8, s8) = expr(b, s7);
                                                            match r8 {
                                                                Err(e) => (Err(e), s8),
                                                                Ok(value) => (
                                                                    Ok(
                                                                        TableFieldV::Computed {
                                                                            span: end_at(
                                                                                start,
                                                                                close->Some_0.span.end,
                                                                            ),
                                                                            key: Box::new(key),
                                                                            value: Box::new(value),
                                                                        },
                                                                    ),
                                                                    s8,
                                                                ),
                                                            }
                                                        } else {
                                                            (Err(None), s7)
                                                        },
                                                    }
                                                },
                                            }
                                        },
                                    }
                                },
                            }
                        },
                    }
                } else {
                    (Err(None), s2)
                },
            }
        } else if t matches Some(t) && t.token_type is Name {
            let span = t->Some_0.span;
            let n = t->Some_0.token_type->Name_0;
            let (r2, s2) = peek_further_token(b, s1);
            match r2 {
                Err(e) => (Err(Some(e)), s2),
                Ok(la) => if is_type(la, symbol(SymbolType::Equal)) {
                    let (r3, s3) = next_token(b, s2);
                    match r3 {
                        Err(e) => (Err(Some(e)), s3),
                        Ok(_) => {
                            let (r4, s4) = next_token(b, s3);
                            match r4 {
                                Err(e) => (Err(Some(e)), s4),
                                Ok(_) => if moved(b, s, s4) {
                                    let (r5, s5) = expr(b, s4);
                                    match r5 {
                                        Err(e) => (Err(e), s5),
                                        Ok(value) => (
                                            Ok(
                                                TableFieldV::Named {
                                                    span: end_at(
                                                        span,
                                                        expr_span(value)->Some_0.end,
                                                    ),
                                                    key: NameV { span, name: n },
                                                    value: Box::new(value),
                                                },
                                            ),
                                            s5,
                                        ),
                                    }
                                } else {
                                    (Err(None), s4)
                                },
                            }
                        },
                    }
                } else if moved(b, s, s2) {
                    let (r3, s3) = expr(b, s2);
                    match r3 {
                        Err(e) => (Err(e), s3),
                        Ok(value) => (Ok(TableFieldV::Value(Box::new(value))), s3),
                    }
                } else {
                    (Err(None), s2)
                },
            }
        } else if moved(b, s, s1) {
            let (r2, s2) = expr(b, s1);
            match r2 {
                Err(e) => (Err(e), s2),
                Ok(value) => (Ok(TableFieldV::Value(Box::new(value))), s2),
            }
        } else {
            (Err(None), s1)
        },
    }
}

/// The fields of a table constructor (collected from `fields` on), and its
/// closing brace.
#[verifier::opaque]
pub open spec fn table_fields(
    b: Seq<u8>,
    s: ParserV,
    start: Span,
    fields: Seq<TableFieldV>,
) -> Parsed<TableConstructorV>
    decreases b.len() + 2 - progress(s), 22int,
{
    let (r, s1) = is_token(b, s, symbol(SymbolType::CloseBrace));
    match r {
        Err(e) => (Err(Some(e)), s1),
        Ok(closing) => {
            let s1b = crate::parser::steps::with_tokens(
                s1,
                crate::tokenizer::stream_fill(b, s1.tokens),
            );
            if closing || s1b.tokens.current is None {
                table_close(b, s1b, start, fields)
            } else if moved(b, s, s1b) {
                let (r2, s2) = table_field(b, s1b);
                match r2 {
                    Err(e) => (Err(e), s2),
                    Ok(field) => {
                        let (r3, s3) = peek_token(b, s2);
                        match r3 {
                            Err(e) => (Err(Some(e)), s3),
                            Ok(t) => if is_type(t, symbol(SymbolType::Comma)) || is_type(
                                t,
                                symbol(SymbolType::Semicolon),
                            ) {
                                let (r4, s4) = next_token(b, s3);
                                match r4 {
                                    Err(e) => (Err(Some(e)), s4),
                                    Ok(_) => if advanced(b, s, s4) {
                                        table_fields(b, s4, start, fields.push(field))
                                    } else {
                                        (Err(None), s4)
                                    },
                                }
                            } else {
                                table_close(b, s3, start, fields.push(field))
                            },
                        }
                    },
                }
            } else {
                (Err(None), s1b)
            }
        },
    }
}

/// The closing brace of a table constructor.
#[verifier::opaque]
pub open spec fn table_close(b: Seq<u8>, s: ParserV, start: Span, fields: Seq<TableFieldV>) -> Parsed<
    TableConstructorV,
> {
    let (r, s1) = is_token(b, s, symbol(SymbolType::CloseBrace));
    match r {
        Err(e) => (Err(Some(e)), s1),
        Ok(false) => (Err(Some(expected(b, s1, "}"@))), s1),
        Ok(true) => {
            let (t, s2) = take_token(b, s1);
            (Ok(TableConstructorV { braces: end_at(start, t->Some_0.span.end), fields }), s2)
        },
    }
}

/// The parameters and body of a function literal whose `function` keyword
/// had the span `start`.
#[verifier::opaque]
pub open spec fn anon_fn(b: Seq<u8>, s: ParserV, start: Span) -> Parsed<AnynomousFunctionV>
    decreases b.len() + 2 - progress(s), 25int,
{
    let prev = s.has_varargs;
    let (r, s1) = function_params(b, s);
    match r {
        Err(e) => (Err(e), s1),
        Ok(params) => if advanced(b, s, s1) {
            let (r2, s2) = block(b, s1, false);
            match r2 {
                Err(e) => (Err(e), s2),
                Ok(body) => {
                    let (r3, s3) = expect_token(b, s2, keyword(KeywordType::End), "end"@);
                    match r3 {
                        Err(e) => (Err(e), s3),
                        Ok(_) => (
                            Ok(
                                AnynomousFunctionV {
                                    span: start_at(start, body.span.end),
                                    params,
                                    body,
                                },
                            ),
                            ParserV { has_varargs: prev, ..s3 },
                        ),
                    }
                },
            }
        } else {
            (Err(None), s1)
        },
    }
}

/// The span of a block from the start of its first token to the start of
/// the token after it (0 where there is none), as [`Span::new`] makes it.
pub open spec fn block_span(start: usize, end: usize) -> Span {
    Span { start: (start + 1) as usize, end: (end + 1) as usize }
}

/// Where the current token starts, or 0 at the end.
pub open spec fn start_of(t: Option<TokenV>) -> usize {
    match t {
        Some(t) => t.span.start,
        None => 0,
    }
}

/// A block: statements, then maybe `return` or `break`. Inside it
/// `is_in_loop` is `do_loop`; it is restored when the block is done.
#[verifier::opaque]
pub open spec fn block(b: Seq<u8>, s: ParserV, do_loop: bool) -> Parsed<BlockV>
    decreases b.len() + 2 - progress(s), 50int,
{
    let (r1, s1) = peek_token(b, ParserV { is_in_loop: do_loop, ..s });
    match r1 {
        Err(e) => (Err(Some(e)), s1),
        Ok(t1) => if moved(b, s, s1) {
            let (r2, s2) = block_stmts(b, s1, seq![]);
            match r2 {
                Err(e) => (Err(e), s2),
                Ok(stmts) => if moved(b, s, s2) {
                    let (r3, s3) = block_last(b, s2);
                    match r3 {
                        Err(e) => (Err(e), s3),
                        Ok(last) => {
                            let (r4, s4) = peek_token(b, s3);
                            match r4 {
                                Err(e) => (Err(Some(e)), s4),
                                Ok(t4) => (
                                    Ok(
                                        BlockV {
                                            span: block_span(start_of(t1), start_of(t4)),
                                            stmts,
                                            last_stmt: last,
                                        },
                                    ),
                                    ParserV { is_in_loop: s.is_in_loop, ..s4 },
                                ),
                            }
                        },
                    }
                } else {
                    (Err(None), s2)
                },
            }
        } else {
            (Err(None), s1)
        },
    }
}

/// The statements of a block (collected from `stmts` on), up to a token
/// that ends it.
#[verifier::opaque]
pub open spec fn block_stmts(b: Seq<u8>, s: ParserV, stmts: Seq<StmtV>) -> Parsed<Seq<StmtV>>
    decreases b.len() + 2 - progress(s), 49int,
{
    let (r, s1) = is_last_stmt_part(b, s);
    match r {
        Err(e) => (Err(e), s1),
        Ok(true) => (Ok(stmts), s1),
        Ok(false) => if moved(b, s, s1) {
            let (r2, s2) = stmt(b, s1);
            match r2 {
                Err(e) => (Err(e), s2),
                Ok(st) => if advanced(b, s, s2) {
                    block_stmts(b, s2, stmts.push(st))
                } else {
                    (Err(None), s2)
                },
            }
        } else {
            (Err(None), s1)
        },
    }
}

/// The `return` or `break` that may end a block, and a `;` after it.
#[verifier::opaque]
pub open spec fn block_last(b: Seq<u8>, s: ParserV) -> Parsed<Option<LastStmtV>>
    decreases b.len() + 2 - progress(s), 47int,
{
    let (r, s1) = peek_token(b, s);
    match r {
        Err(e) => (Err(Some(e)), s1),
        Ok(t) => if is_type(t, keyword(KeywordType::Break)) || is_type(
            t,
            keyword(KeywordType::Return),
        ) {
            if moved(b, s, s1) {
                let (r2, s2) = last_stmt(b, s1);
                match r2 {
                    Err(e) => (Err(e), s2),
                    Ok(ls) => {
                        let (r3, s3) = is_token(b, s2, symbol(SymbolType::Semicolon));
                        match r3 {
                            Err(e) => (Err(Some(e)), s3),
                            Ok(semi) => (
                                Ok(Some(ls)),
                                if semi {
                                    take_token(b, s3).1
                                } else {
                                    s3
                                },
                            ),
                        }
                    },
                }
            } else {
                (Err(None), s1)
            }
        } else {
            (Ok(None), s1)
        },
    }
}

/// The error for `break` outside a loop.
pub open spec fn invalid_break(b: Seq<u8>, s: ParserV) -> ParseErrorV {
    ParseErrorV {
        position: position_of(b, s.tokens.offset),
        message: ParseErrorMessageV::InvalidBreakUse,
    }
}

/// `break` (inside a loop only) or `return` with its values.
#[verifier::opaque]
pub open spec fn last_stmt(b: Seq<u8>, s: ParserV) -> Parsed<LastStmtV>
    decreases b.len() + 2 - progress(s), 46int,
{
    let (r, s1) = peek_token(b, s);
    match r {
        Err(e) => (Err(Some(e)), s1),
        Ok(t) => if is_type(t, keyword(KeywordType::Break)) {
            if s1.is_in_loop {
                let (t2, s2) = take_token(b, s1);
                (Ok(LastStmtV::Break(t2->Some_0.span)), s2)
            } else {
                (Err(Some(invalid_break(b, s1))), s1)
            }
        } else if is_type(t, keyword(KeywordType::Return)) {
            let (t2, s2) = take_token(b, s1);
            let token = t2->Some_0.span;
            let (r3, s3) = is_token(b, s2, symbol(SymbolType::Semicolon));
            match r3 {
                Err(e) => (Err(Some(e)), s3),
                Ok(semi) => {
                    let (r4, s4) = if semi {
                        (Ok(true), s3)
                    } else {
                        is_last_stmt_part(b, s3)
                    };
                    match r4 {
                        Err(e) => (Err(e), s4),
                        Ok(true) => (Ok(LastStmtV::Return(ReturnV { token, exprs: seq![] })), s4),
                        Ok(false) => if advanced(b, s, s4) {
                            let (r5, s5) = exprlist(b, s4);
                            match r5 {
                                Err(e) => (Err(e), s5),
                                Ok(exprs) => (Ok(LastStmtV::Return(ReturnV { token, exprs })), s5),
                            }
                        } else {
                            (Err(None), s4)
                        },
                    }
                },
            }
        } else {
            (Err(None), s1)
        },
    }
}

/// A statement, and a `;` after it.
#[verifier::opaque]
pub open spec fn stmt(b: Seq<u8>, s: ParserV) -> Parsed<StmtV>
    decreases b.len() + 2 - progress(s), 48int,
{
    let (r, s1) = peek_token(b, s);
    match r {
        Err(e) => (Err(Some(e)), s1),
        Ok(t) => {
            let span = t->Some_0.span;
            let s2 = take_token(b, s1).1;
            let (r3, s3): Parsed<StmtV> = if is_type(t, keyword(KeywordType::If)) {
                if advanced(b, s, s2) {
                    let (r4, s4) = if_stmt(b, s2, span);
                    match r4 {
                        Err(e) => (Err(e), s4),
                        Ok(x) => (Ok(StmtV::IfStmt(x)), s4),
                    }
                } else {
                    (Err(None), s2)
                }
            } else if is_type(t, keyword(KeywordType::While)) {
                if advanced(b, s, s2) {
                    let (r4, s4) = while_stmt(b, s2, span);
                    match r4 {
                        Err(e) => (Err(e), s4),
                        Ok(x) => (Ok(StmtV::While(x)), s4),
                    }
                } else {
                    (Err(None), s2)
                }
            } else if is_type(t, keyword(KeywordType::Do)) {
                if advanced(b, s, s2) {
                    let (r4, s4) = do_stmt(b, s2, span);
                    match r4 {
                        Err(e) => (Err(e), s4),
                        Ok(x) => (Ok(StmtV::Do(x)), s4),
                    }
                } else {
                    (Err(None), s2)
                }
            } else if is_type(t, keyword(KeywordType::For)) {
                if advanced(b, s, s2) {
                    for_lookalikes(b, s2, span)
                } else {
                    (Err(None), s2)
                }
            } else if is_type(t, keyword(KeywordType::Repeat)) {
                if advanced(b, s, s2) {
                    let (r4, s4) = repeat_stmt(b, s2, span);
                    match r4 {
                        Err(e) => (Err(e), s4),
                        Ok(x) => (Ok(StmtV::Repeat(x)), s4),
                    }
                } else {
                    (Err(None), s2)
                }
            } else if is_type(t, keyword(KeywordType::Function)) {
                if advanced(b, s, s2) {
                    let (r4, s4) = function_stmt(b, s2, span);
                    match r4 {
                        Err(e) => (Err(e), s4),
                        Ok(x) => (Ok(StmtV::FunctionAssign(x)), s4),
                    }
                } else {
                    (Err(None), s2)
                }
            } else if is_type(t, keyword(KeywordType::Local)) {
                if advanced(b, s, s2) {
                    local_lookalikes(b, s2, span)
                } else {
                    (Err(None), s2)
                }
            } else if moved(b, s, s1) {
                expr_stmt(b, s1)
            } else {
                (Err(None), s1)
            };
            match r3 {
                Err(e) => (Err(e), s3),
                Ok(st) => {
                    let (r5, s5) = is_token(b, s3, symbol(SymbolType::Semicolon));
                    match r5 {
                        Err(e) => (Err(Some(e)), s5),
                        Ok(semi) => (
                            Ok(st),
                            if semi {
                                take_token(b, s5).1
                            } else {
                                s5
                            },
                        ),
                    }
                },
            }
        },
    }
}

/// `end`, after a block; the span from `start` to the end of `end`.
#[verifier::opaque]
pub open spec fn end_keyword(b: Seq<u8>, s: ParserV, start: Span) -> Parsed<Span> {
    let (r, s1) = peek_token(b, s);
    match r {
        Err(e) => (Err(Some(e)), s1),
        Ok(t) => {
            let (r2, s2) = expect_token(b, s1, keyword(KeywordType::End), "end"@);
            match r2 {
                Err(e) => (Err(e), s2),
                Ok(_) => (Ok(end_at(start, t->Some_0.span.end)), s2),
            }
        },
    }
}

/// `while` (at `span`, already taken) condition `do` block `end`.
#[verifier::opaque]
pub open spec fn while_stmt(b: Seq<u8>, s: ParserV, span: Span) -> Parsed<WhileStmtV>
    decreases b.len() + 2 - progress(s), 36int,
{
    let (r1, s1) = expr(b, s);
    match r1 {
        Err(e) => (Err(e), s1),
        Ok(condition) => {
            let (r2, s2) = expect_token(b, s1, keyword(KeywordType::Do), "do"@);
            match r2 {
                Err(e) => (Err(e), s2),
                Ok(_) => if advanced(b, s, s2) {
                    let (r3, s3) = block(b, s2, true);
                    match r3 {
                        Err(e) => (Err(e), s3),
                        Ok(blk) => {
                            let (r4, s4) = end_keyword(b, s3, span);
                            match r4 {
                                Err(e) => (Err(e), s4),
                                Ok(sp) => (Ok(WhileStmtV { span: sp, condition, block: blk }), s4),
                            }
                        },
                    }
                } else {
                    (Err(None), s2)
                },
            }
        },
    }
}

/// `do` (at `span`, already taken) block `end`.
#[verifier::opaque]
pub open spec fn do_stmt(b: Seq<u8>, s: ParserV, span: Span) -> Parsed<DoStmtV>
    decreases b.len() + 2 - progress(s), 51int,
{
    let (r1, s1) = block(b, s, s.is_in_loop);
    match r1 {
        Err(e) => (Err(e), s1),
        Ok(blk) => {
            let (r2, s2) = end_keyword(b, s1, span);
            match r2 {
                Err(e) => (Err(e), s2),
                Ok(sp) => (Ok(DoStmtV { span: sp, block: blk }), s2),
            }
        },
    }
}

/// `repeat` (at `span`, already taken) block `until` condition.
#[verifier::opaque]
pub open spec fn repeat_stmt(b: Seq<u8>, s: ParserV, span: Span) -> Parsed<RepeatStmtV>
    decreases b.len() + 2 - progress(s), 52int,
{
    let (r1, s1) = block(b, s, true);
    match r1 {
        Err(e) => (Err(e), s1),
        Ok(blk) => {
            let (r2, s2) = expect_token(b, s1, keyword(KeywordType::Until), "until"@);
            match r2 {
                Err(e) => (Err(e), s2),
                Ok(_) => if advanced(b, s, s2) {
                    let (r3, s3) = expr(b, s2);
                    match r3 {
                        Err(e) => (Err(e), s3),
                        Ok(condition) => (
                            Ok(
                                RepeatStmtV {
                                    span: end_at(span, expr_span(condition)->Some_0.end),
                                    condition,
                                    block: blk,
                                },
                            ),
                            s3,
                        ),
                    }
                } else {
                    (Err(None), s2)
                },
            }
        },
    }
}

/// `if` (at `span`, already taken) condition `then` block, `elseif`
/// branches, maybe `else` block, `end`.
#[verifier::opaque]
pub open spec fn if_stmt(b: Seq<u8>, s: ParserV, span: Span) -> Parsed<IfStmtV>
    decreases b.len() + 2 - progress(s), 40int,
{
    let (r1, s1) = expr(b, s);
    match r1 {
        Err(e) => (Err(e), s1),
        Ok(condition) => {
            let (r2, s2) = expect_token(b, s1, keyword(KeywordType::Then), "then"@);
            match r2 {
                Err(e) => (Err(e), s2),
                Ok(_) => if advanced(b, s, s2) {
                    let (r3, s3) = block(b, s2, s2.is_in_loop);
                    match r3 {
                        Err(e) => (Err(e), s3),
                        Ok(blk) => if advanced(b, s, s3) {
                            let (r4, s4) = if_chains(b, s3, seq![]);
                            match r4 {
                                Err(e) => (Err(e), s4),
                                Ok(chains) => if advanced(b, s, s4) {
                                    let (r5, s5) = if_else(b, s4);
                                    match r5 {
                                        Err(e) => (Err(e), s5),
                                        Ok(else_block) => {
                                            let (r6, s6) = end_keyword(b, s5, span);
                                            match r6 {
                                                Err(e) => (Err(e), s6),
                                                Ok(sp) => (
                                                    Ok(
                                                        IfStmtV {
                                                            span: sp,
                                                            condition,
                                                            block: blk,
                                                            chains,
                                                            else_block,
                                                        },
                                                    ),
                                                    s6,
                                                ),
                                            }
                                        },
                                    }
                                } else {
                                    (Err(None), s4)
                                },
                            }
                        } else {
                            (Err(None), s3)
                        },
                    }
                } else {
                    (Err(None), s2)
                },
            }
        },
    }
}

/// The `elseif` branches of an `if` (collected from `chains` on).
#[verifier::opaque]
pub open spec fn if_chains(b: Seq<u8>, s: ParserV, chains: Seq<IfStmtChainV>) -> Parsed<
    Seq<IfStmtChainV>,
>
    decreases b.len() + 2 - progress(s), 39int,
{
    let (r, s1) = is_token(b, s, keyword(KeywordType::ElseIf));
    match r {
        Err(e) => (Err(Some(e)), s1),
        Ok(false) => (Ok(chains), s1),
        Ok(true) => if moved(b, s, s1) {
            let (r2, s2) = if_chain(b, s1);
            match r2 {
                Err(e) => (Err(e), s2),
                Ok(c) => if advanced(b, s, s2) {
                    if_chains(b, s2, chains.push(c))
                } else {
                    (Err(None), s2)
                },
            }
        } else {
            (Err(None), s1)
        },
    }
}

/// One `elseif` condition `then` block; the `elseif` is current.
#[verifier::opaque]
pub open spec fn if_chain(b: Seq<u8>, s: ParserV) -> Parsed<IfStmtChainV>
    decreases b.len() + 2 - progress(s), 38int,
{
    let (t, s1) = take_token(b, s);
    let span = t->Some_0.span;
    if advanced(b, s, s1) {
        let (r2, s2) = expr(b, s1);
        match r2 {
            Err(e) => (Err(e), s2),
            Ok(condition) => {
                let (r3, s3) = expect_token(b, s2, keyword(KeywordType::Then), "then"@);
                match r3 {
                    Err(e) => (Err(e), s3),
                    Ok(_) => if advanced(b, s, s3) {
                        let (r4, s4) = block(b, s3, s3.is_in_loop);
                        match r4 {
                            Err(e) => (Err(e), s4),
                            Ok(blk) => (
                                Ok(
                                    IfStmtChainV {
                                        span: end_at(span, blk.span.end),
                                        condition,
                                        block: blk,
                                    },
                                ),
                                s4,
                            ),
                        }
                    } else {
                        (Err(None), s3)
                    },
                }
            },
        }
    } else {
        (Err(None), s1)
    }
}

/// The `else` block of an `if`, if there is one.
#[verifier::opaque]
pub open spec fn if_else(b: Seq<u8>, s: ParserV) -> Parsed<Option<BlockV>>
    decreases b.len() + 2 - progress(s), 37int,
{
    let (r, s1) = is_token(b, s, keyword(KeywordType::Else));
    match r {
        Err(e) => (Err(Some(e)), s1),
        Ok(false) => (Ok(None), s1),
        Ok(true) => {
            let (r2, s2) = next_token(b, s1);
            match r2 {
                Err(e) => (Err(Some(e)), s2),
                Ok(_) => if advanced(b, s, s2) {
                    let (r3, s3) = block(b, s2, s2.is_in_loop);
                    match r3 {
                        Err(e) => (Err(e), s3),
                        Ok(blk) => (Ok(Some(blk)), s3),
                    }
                } else {
                    (Err(None), s2)
                },
            }
        },
    }
}

/// `for` (at `span`, already taken): a numeric or a generic loop.
#[verifier::opaque]
pub open spec fn for_lookalikes(b: Seq<u8>, s: ParserV, span: Span) -> Parsed<StmtV>
    decreases b.len() + 2 - progress(s), 35int,
{
    let (r1, s1) = name(b, s);
    match r1 {
        Err(e) => (Err(e), s1),
        Ok(n) => {
            let (r2, s2) = peek_token(b, s1);
            match r2 {
                Err(e) => (Err(Some(e)), s2),
                Ok(t) => if !advanced(b, s, s2) {
                    (Err(None), s2)
                } else if is_type(t, symbol(SymbolType::Equal)) {
                    let (r3, s3) = numeric_for(b, s2, span, n);
                    match r3 {
                        Err(e) => (Err(e), s3),
                        Ok(x) => (Ok(StmtV::NumericFor(x)), s3),
                    }
                } else {
                    let (r3, s3) = generic_for(b, s2, span, n);
                    match r3 {
                        Err(e) => (Err(e), s3),
                        Ok(x) => (Ok(StmtV::GenericFor(x)), s3),
                    }
                },
            }
        },
    }
}

/// `= start, end [, step] do block end` of a numeric `for`; the `=` is
/// current.
#[verifier::opaque]
pub open spec fn numeric_for(b: Seq<u8>, s: ParserV, span: Span, n: NameV) -> Parsed<NumericForV>
    decreases b.len() + 2 - progress(s), 34int,
{
    let (r1, s1) = next_token(b, s);
    match r1 {
        Err(e) => (Err(Some(e)), s1),
        Ok(_) => if moved(b, s, s1) {
            let (r2, s2) = expr(b, s1);
            match r2 {
                Err(e) => (Err(e), s2),
                Ok(start) => {
                    let (r3, s3) = expect_token(b, s2, symbol(SymbolType::Comma), ","@);
                    match r3 {
                        Err(e) => (Err(e), s3),
                        Ok(_) => if advanced(b, s, s3) {
                            let (r4, s4) = expr(b, s3);
                            match r4 {
                                Err(e) => (Err(e), s4),
                                Ok(end) => if advanced(b, s, s4) {
                                    let (r5, s5) = numeric_for_step(b, s4);
                                    match r5 {
                                        Err(e) => (Err(e), s5),
                                        Ok(step) => if advanced(b, s, s5) {
                                            let (r6, s6) = for_body(b, s5, span);
                                            match r6 {
                                                Err(e) => (Err(e), s6),
                                                Ok((sp, blk)) => (
                                                    Ok(
                                                        NumericForV {
                                                            span: sp,
                                                            name: n,
                                                            start,
                                                            end,
                                                            step,
                                                            block: blk,
                                                        },
                                                    ),
                                                    s6,
                                                ),
                                            }
                                        } else {
                                            (Err(None), s5)
                                        },
                                    }
                                } else {
                                    (Err(None), s4)
                                },
                            }
                        } else {
                            (Err(None), s3)
                        },
                    }
                },
            }
        } else {
            (Err(None), s1)
        },
    }
}

/// The optional `, step` of a numeric `for`.
#[verifier::opaque]
pub open spec fn numeric_for_step(b: Seq<u8>, s: ParserV) -> Parsed<Option<ExprV>>
    decreases b.len() + 2 - progress(s), 33int,
{
    let (r1, s1) = is_token(b, s, symbol(SymbolType::Comma));
    match r1 {
        Err(e) => (Err(Some(e)), s1),
        Ok(false) => (Ok(None), s1),
        Ok(true) => {
            let (r2, s2) = next_token(b, s1);
            match r2 {
                Err(e) => (Err(Some(e)), s2),
                Ok(_) => if moved(b, s, s2) {
                    let (r3, s3) = expr(b, s2);
                    match r3 {
                        Err(e) => (Err(e), s3),
                        Ok(step) => (Ok(Some(step)), s3),
                    }
                } else {
                    (Err(None), s2)
                },
            }
        },
    }
}

/// `do block end` of a `for` loop whose `for` was at `span`.
#[verifier::opaque]
pub open spec fn for_body(b: Seq<u8>, s: ParserV, span: Span) -> Parsed<(Span, BlockV)>
    decreases b.len() + 2 - progress(s), 32int,
{
    let (r1, s1) = expect_token(b, s, keyword(KeywordType::Do), "do"@);
    match r1 {
        Err(e) => (Err(e), s1),
        Ok(_) => if advanced(b, s, s1) {
            let (r2, s2) = block(b, s1, true);
            match r2 {
                Err(e) => (Err(e), s2),
                Ok(blk) => {
                    let (r3, s3) = end_keyword(b, s2, span);
                    match r3 {
                        Err(e) => (Err(e), s3),
                        Ok(sp) => (Ok((sp, blk)), s3),
                    }
                },
            }
        } else {
            (Err(None), s1)
        },
    }
}

/// `[, names] in exprs do block end` of a generic `for`.
#[verifier::opaque]
pub open spec fn generic_for(b: Seq<u8>, s: ParserV, span: Span, n: NameV) -> Parsed<GenericForV>
    decreases b.len() + 2 - progress(s), 31int,
{
    let (r1, s1) = name_list_rest(b, s, seq![n]);
    match r1 {
        Err(e) => (Err(e), s1),
        Ok(names) => {
            let (r2, s2) = expect_token(b, s1, keyword(KeywordType::In), "in"@);
            match r2 {
                Err(e) => (Err(e), s2),
                Ok(_) => if advanced(b, s, s2) {
                    let (r3, s3) = exprlist(b, s2);
                    match r3 {
                        Err(e) => (Err(e), s3),
                        Ok(exprs) => if advanced(b, s, s3) {
                            let (r4, s4) = for_body(b, s3, span);
                            match r4 {
                                Err(e) => (Err(e), s4),
                                Ok((sp, blk)) => (
                                    Ok(GenericForV { span: sp, names, exprlist: exprs, block: blk }),
                                    s4,
                                ),
                            }
                        } else {
                            (Err(None), s3)
                        },
                    }
                } else {
                    (Err(None), s2)
                },
            }
        },
    }
}

/// `function` (at `span`, already taken) name, parameters, body, `end`.
#[verifier::opaque]
pub open spec fn function_stmt(b: Seq<u8>, s: ParserV, span: Span) -> Parsed<FunctionAssignV>
    decreases b.len() + 2 - progress(s), 30int,
{
    let (r1, s1) = function_assign_name(b, s);
    match r1 {
        Err(e) => (Err(e), s1),
        Ok(n) => {
            let prev = s1.has_varargs;
            let (r2, s2) = function_params(b, s1);
            match r2 {
                Err(e) => (Err(e), s2),
                Ok(params) => if advanced(b, s, s2) {
                    let (r3, s3) = block(b, s2, false);
                    match r3 {
                        Err(e) => (Err(e), s3),
                        Ok(body) => {
                            let (r4, s4) = end_keyword(b, s3, span);
                            match r4 {
                                Err(e) => (Err(e), s4),
                                Ok(sp) => (
                                    Ok(FunctionAssignV { span: sp, name: n, params, body }),
                                    ParserV { has_varargs: prev, ..s4 },
                                ),
                            }
                        },
                    }
                } else {
                    (Err(None), s2)
                },
            }
        },
    }
}

/// `local` (at `span`, already taken): a local function or local names.
#[verifier::opaque]
pub open spec fn local_lookalikes(b: Seq<u8>, s: ParserV, span: Span) -> Parsed<StmtV>
    decreases b.len() + 2 - progress(s), 29int,
{
    let (r1, s1) = peek_token(b, s);
    match r1 {
        Err(e) => (Err(Some(e)), s1),
        Ok(t) => if !moved(b, s, s1) {
            (Err(None), s1)
        } else if is_type(t, keyword(KeywordType::Function)) {
            let (r2, s2) = local_function(b, s1, span);
            match r2 {
                Err(e) => (Err(e), s2),
                Ok(x) => (Ok(StmtV::LocalFunction(x)), s2),
            }
        } else {
            let (r2, s2) = local_assign(b, s1, span);
            match r2 {
                Err(e) => (Err(e), s2),
                Ok(x) => (Ok(StmtV::LocalAssign(x)), s2),
            }
        },
    }
}

/// `function name (params) body end` after `local`.
#[verifier::opaque]
pub open spec fn local_function(b: Seq<u8>, s: ParserV, span: Span) -> Parsed<LocalFunctionV>
    decreases b.len() + 2 - progress(s), 28int,
{
    let (r1, s1) = next_token(b, s);
    match r1 {
        Err(e) => (Err(Some(e)), s1),
        Ok(_) => {
            let (r2, s2) = name(b, s1);
            match r2 {
                Err(e) => (Err(e), s2),
                Ok(n) => {
                    let prev = s2.has_varargs;
                    let (r3, s3) = function_params(b, s2);
                    match r3 {
                        Err(e) => (Err(e), s3),
                        Ok(params) => if advanced(b, s, s3) {
                            let (r4, s4) = block(b, s3, false);
                            match r4 {
                                Err(e) => (Err(e), s4),
                                Ok(body) => {
                                    let (r5, s5) = expect_token(
                                        b,
                                        s4,
                                        keyword(KeywordType::End),
                                        "end"@,
                                    );
                                    match r5 {
                                        Err(e) => (Err(e), s5),
                                        Ok(_) => (
                                            Ok(
                                                LocalFunctionV {
                                                    span: start_at(span, body.span.end),
                                                    name: n,
                                                    params,
                                                    body,
                                                },
                                            ),
                                            ParserV { has_varargs: prev, ..s5 },
                                        ),
                                    }
                                },
                            }
                        } else {
                            (Err(None), s3)
                        },
                    }
                },
            }
        },
    }
}

/// The span a `local` statement ends at: its last value's, else its last
/// name's.
pub open spec fn local_assign_end(names: Seq<NameV>, exprs: Option<Seq<ExprV>>) -> Span {
    match exprs {
        Some(es) => if es.len() > 0 && expr_span(es.last()) is Some {
            expr_span(es.last())->Some_0
        } else {
            names.last().span
        },
        None => names.last().span,
    }
}

/// `names [= exprs]` after `local`.
#[verifier::opaque]
pub open spec fn local_assign(b: Seq<u8>, s: ParserV, span: Span) -> Parsed<LocalAssignV>
    decreases b.len() + 2 - progress(s), 27int,
{
    let (r1, s1) = name_list(b, s);
    match r1 {
        Err(e) => (Err(e), s1),
        Ok(names) => {
            let (r2, s2) = peek_token(b, s1);
            match r2 {
                Err(e) => (Err(Some(e)), s2),
                Ok(t) => {
                    let (r3, s3): Parsed<Option<Seq<ExprV>>> = if is_type(
                        t,
                        symbol(SymbolType::Equal),
                    ) {
                        let (r4, s4) = next_token(b, s2);
                        match r4 {
                            Err(e) => (Err(Some(e)), s4),
                            Ok(_) => if advanced(b, s, s4) {
                                let (r5, s5) = exprlist(b, s4);
                                match r5 {
                                    Err(e) => (Err(e), s5),
                                    Ok(es) => (Ok(Some(es)), s5),
                                }
                            } else {
                                (Err(None), s4)
                            },
                        }
                    } else {
                        (Ok(None), s2)
                    };
                    match r3 {
                        Err(e) => (Err(e), s3),
                        Ok(exprs) => (
                            Ok(
                                LocalAssignV {
                                    span: end_at(span, local_assign_end(names, exprs).end),
                                    names,
                                    exprs,
                                },
                            ),
                            s3,
                        ),
                    }
                },
            }
        },
    }
}

/// A target of an assignment: a name or a suffixed expression.
#[verifier::opaque]
pub open spec fn value_assign_name(b: Seq<u8>, s: ParserV) -> Parsed<ValueAssignNameV>
    decreases b.len() + 2 - progress(s), 42int,
{
    let (r, s1) = primary(b, s);
    match r {
        Err(e) => (Err(e), s1),
        Ok(ExprV::Suffixed(x)) => (Ok(ValueAssignNameV::Suffixed(x)), s1),
        Ok(ExprV::Literal(LiteralV::Name(n))) => (Ok(ValueAssignNameV::Name(n)), s1),
        Ok(_) => (Err(Some(expected(b, s1, "assign name"@))), s1),
    }
}

/// A call statement or an assignment.
#[verifier::opaque]
pub open spec fn expr_stmt(b: Seq<u8>, s: ParserV) -> Parsed<StmtV>
    decreases b.len() + 2 - progress(s), 45int,
{
    let (r, s1) = primary(b, s);
    match r {
        Err(e) => (Err(e), s1),
        Ok(e) => if !advanced(b, s, s1) {
            (Err(None), s1)
        } else {
            match e {
                ExprV::Suffixed(x) => match x.suffixes.last() {
                    SuffixV::Call(c) => (Ok(StmtV::Call(c)), s1),
                    SuffixV::Index(_) => assignment(b, s1, ValueAssignNameV::Suffixed(x)),
                },
                ExprV::Literal(LiteralV::Name(n)) => assignment(b, s1, ValueAssignNameV::Name(n)),
                _ => (Err(Some(expected(b, s1, "assign or call statement"@))), s1),
            }
        },
    }
}

/// The rest of an assignment whose first target is `first`.
#[verifier::opaque]
pub open spec fn assignment(b: Seq<u8>, s: ParserV, first: ValueAssignNameV) -> Parsed<StmtV>
    decreases b.len() + 2 - progress(s), 44int,
{
    let (r1, s1) = peek_token(b, s);
    match r1 {
        Err(e) => (Err(Some(e)), s1),
        Ok(t) => if !(is_type(t, symbol(SymbolType::Comma)) || is_type(
            t,
            symbol(SymbolType::Equal),
        )) {
            (Err(Some(expected(b, s1, "assign or call statement"@))), s1)
        } else if moved(b, s, s1) {
            let (r2, s2) = assignment_names(b, s1, seq![first]);
            match r2 {
                Err(e) => (Err(e), s2),
                Ok(names) => if moved(b, s, s2) {
                    assignment_values(b, s2, value_assign_name_span(first)->Some_0, names)
                } else {
                    (Err(None), s2)
                },
            }
        } else {
            (Err(None), s1)
        },
    }
}

/// `= exprs` of an assignment to `names`, the first of which starts at
/// `start`.
#[verifier::opaque]
pub open spec fn assignment_values(
    b: Seq<u8>,
    s: ParserV,
    start: Span,
    names: Seq<ValueAssignNameV>,
) -> Parsed<StmtV>
    decreases b.len() + 2 - progress(s), 41int,
{
    let (r1, s1) = peek_token(b, s);
    match r1 {
        Err(e) => (Err(Some(e)), s1),
        Ok(t) => if !is_type(t, symbol(SymbolType::Equal)) {
            (Err(Some(expected(b, s1, "="@))), s1)
        } else {
            let (r2, s2) = next_token(b, s1);
            match r2 {
                Err(e) => (Err(Some(e)), s2),
                Ok(_) => if advanced(b, s, s2) {
                    let (r3, s3) = exprlist(b, s2);
                    match r3 {
                        Err(e) => (Err(e), s3),
                        Ok(rhs) => (
                            Ok(
                                StmtV::ValueAssign(
                                    ValueAssignV {
                                        span: end_at(start, expr_span(rhs.last())->Some_0.end),
                                        names,
                                        exprlist: rhs,
                                    },
                                ),
                            ),
                            s3,
                        ),
                    }
                } else {
                    (Err(None), s2)
                },
            }
        },
    }
}

/// More assignment targets, each after a comma (collected from `names` on).
#[verifier::opaque]
pub open spec fn assignment_names(b: Seq<u8>, s: ParserV, names: Seq<ValueAssignNameV>) -> Parsed<
    Seq<ValueAssignNameV>,
>
    decreases b.len() + 2 - progress(s), 43int,
{
    let (r, s1) = peek_token(b, s);
    match r {
        Err(e) => (Err(Some(e)), s1),
        Ok(t) => if is_type(t, symbol(SymbolType::Comma)) {
            let s2 = take_token(b, s1).1;
            if advanced(b, s, s2) {
                let (r3, s3) = value_assign_name(b, s2);
                match r3 {
                    Err(e) => (Err(e), s3),
                    Ok(n) => if advanced(b, s, s3) {
                        assignment_names(b, s3, names.push(n))
                    } else {
                        (Err(None), s3)
                    },
                }
            } else {
                (Err(None), s2)
            }
        } else {
            (Ok(names), s1)
        },
    }
}

/// The text shown for the token at which parsing stopped: the source cut
/// at the span's stored offsets, or `<unknown>` where it cannot be cut there.
pub open spec fn unexpected_text(b: Seq<u8>, span: Span) -> Seq<u8> {
    if b.len() == 0 || span.end > b.len() || span.start > span.end || !is_char_boundary(
        b,
        span.start as int,
    ) || !is_char_boundary(b, span.end as int) {
        encode_utf8("<unknown>"@)
    } else {
        b.subrange(span.start as int, span.end as int)
    }
}

/// The error for input left over after the chunk, or where no statement
/// could start.
pub open spec fn unexpected_token(b: Seq<u8>, s: ParserV) -> ParseErrorV {
    let ts = stream_fill(b, s.tokens);
    let span = match ts.current {
        Some(t) => t.span,
        None => Span { start: 0, end: 0 },
    };
    ParseErrorV {
        position: position_of(b, ts.offset),
        message: ParseErrorMessageV::UnexpectedToken(unexpected_text(b, span)),
    }
}

/// A whole chunk: a block that must leave no token behind; `...` is
/// allowed in it.
pub open spec fn chunk(b: Seq<u8>, s: ParserV) -> (Result<AstV, ParseErrorV>, ParserV) {
    let (r, s1) = block(b, ParserV { has_varargs: true, ..s }, false);
    match r {
        Ok(blk) => {
            let (r2, s2) = peek_token(b, s1);
            match r2 {
                Err(e) => (Err(e), s2),
                Ok(None) => (Ok(AstV { block: blk }), s2),
                Ok(Some(_)) => (
                    Err(unexpected_token(b, s2)),
                    with_tokens(s2, stream_fill(b, s2.tokens)),
                ),
            }
        },
        Err(Some(e)) => (Err(e), s1),
        Err(None) => (Err(unexpected_token(b, s1)), with_tokens(s1, stream_fill(b, s1.tokens))),
    }
}

/// A block that parses leaves the loop context as it found it.
#[verifier::spinoff_prover]
pub proof fn lemma_block_restores_loop(b: Seq<u8>, s: ParserV, do_loop: bool)
    ensures
        block(b, s, do_loop).0 is Ok ==> block(b, s, do_loop).1.is_in_loop == s.is_in_loop,
{
    reveal(block);
}

/// A function literal that parses leaves the enclosing function's `...` as it
/// found it.
#[verifier::spinoff_prover]
pub proof fn lemma_anon_fn_restores_varargs(b: Seq<u8>, s: ParserV, span: Span)
    ensures
        anon_fn(b, s, span).0 is Ok ==> anon_fn(b, s, span).1.has_varargs == s.has_varargs,
{
    reveal(anon_fn);
}

/// Reading a name changes nothing but the tokens.
pub proof fn lemma_name_keeps_context(b: Seq<u8>, s: ParserV)
    ensures
        name(b, s).1.has_varargs == s.has_varargs,
        name(b, s).1.is_in_loop == s.is_in_loop,
{
    reveal(name);
}

/// Reading the rest of the name of a function statement changes nothing but
/// the tokens.
pub proof fn lemma_function_assign_name_rest_keeps_context(
    b: Seq<u8>,
    s: ParserV,
    names: Seq<NameV>,
)
    ensures
        function_assign_name_rest(b, s, names).1.has_varargs == s.has_varargs,
        function_assign_name_rest(b, s, names).1.is_in_loop == s.is_in_loop,
    decreases b.len() + 2 - progress(s),
{
    reveal(function_assign_name_rest);
    let (r, s1) = peek_token(b, s);
    if r is Ok {
        let s2 = take_token(b, s1).1;
        lemma_name_keeps_context(b, s2);
        let (r3, s3) = name(b, s2);
        if is_type(r->Ok_0, symbol(SymbolType::Dot)) && r3 is Ok && advanced(b, s, s3) {
            lemma_function_assign_name_rest_keeps_context(b, s3, names.push(r3->Ok_0));
        }
    }
}

/// Reading the name of a function statement changes nothing but the tokens.
pub proof fn lemma_function_assign_name_keeps_context(b: Seq<u8>, s: ParserV)
    ensures
        function_assign_name(b, s).1.has_varargs == s.has_varargs,
        function_assign_name(b, s).1.is_in_loop == s.is_in_loop,
{
    reveal(function_assign_name);
    lemma_name_keeps_context(b, s);
    let (r0, s0) = name(b, s);
    if r0 is Ok {
        lemma_function_assign_name_rest_keeps_context(b, s0, seq![r0->Ok_0]);
    }
}

/// A function statement that parses leaves the enclosing function's `...` as it
/// found it.
#[verifier::spinoff_prover]
pub proof fn lemma_function_stmt_restores_varargs(b: Seq<u8>, s: ParserV, span: Span)
    ensures
        function_stmt(b, s, span).0 is Ok ==> function_stmt(b, s, span).1.has_varargs == s.has_varargs,
{
    reveal(function_stmt);
    lemma_function_assign_name_keeps_context(b, s);
}

/// A local function that parses leaves the enclosing function's `...` as it
/// found it.
#[verifier::spinoff_prover]
pub proof fn lemma_local_function_restores_varargs(b: Seq<u8>, s: ParserV, span: Span)
    ensures
        local_function(b, s, span).0 is Ok ==> local_function(b, s, span).1.has_varargs == s.has_varargs,
{
    reveal(local_function);
    lemma_name_keeps_context(b, next_token(b, s).1);
}

/// `break` is refused outside a loop.
#[verifier::spinoff_prover]
pub proof fn lemma_break_needs_loop(b: Seq<u8>, s: ParserV)
    requires
        peek_token(b, s).0 matches Ok(Some(t)) && t.token_type == keyword(KeywordType::Break),
        !s.is_in_loop,
    ensures
        last_stmt(b, s) == (
            Err::<LastStmtV, Option<ParseErrorV>>(Some(invalid_break(b, peek_token(b, s).1))),
            peek_token(b, s).1,
        ),
{
    reveal(last_stmt);
}

/// `...` is refused in a function that does not take it.
#[verifier::spinoff_prover]
pub proof fn lemma_varargs_need_varargs(b: Seq<u8>, s: ParserV)
    requires
        peek_token(b, s).0 matches Ok(Some(t)) && t.token_type == symbol(SymbolType::DotDotDot),
        !s.has_varargs,
    ensures
        simple(b, s) == (
            Err::<ExprV, Option<ParseErrorV>>(Some(unexpected_varargs(b, peek_token(b, s).1))),
            peek_token(b, s).1,
        ),
{
    reveal(simple);
}

} // verus!
