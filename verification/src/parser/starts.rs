//! Where the spans of the expressions the parser builds start, stated over
//! the expression rules.

use crate::ast::{
    expr_span, literal_span, suffixed_span, BinaryV, ExprV, KeywordType, SuffixedV, SymbolType, TableFieldV,
};
use crate::parser::rules::{
    advanced, anon_fn, binop, complex, complex_rest, expr, moved, noncomplex, prefix, primary,
    primary_rest, simple, table, table_close, table_field, table_fields, unop,
};
use crate::parser::state::{progress, ParserV};
use crate::parser::steps::{
    is_token, is_type, keyword, next_token, peek_token, symbol, with_tokens,
};
use crate::tokenizer::stream_fill;
use crate::location::Span;
use crate::tokenizer::stream::lemma_next_token_from_bounds;
use vstd::prelude::*;

verus! {

/// Where the span of `e` starts: at its first operand, operator, bracket or
/// literal.
pub open spec fn expr_start(e: ExprV) -> int
    decreases e,
{
    match e {
        ExprV::Binary(x) => expr_start(*x.left),
        ExprV::Unary(u) => u.op.span.start as int,
        ExprV::Parentheses(p) => p.spanned.start as int,
        ExprV::Suffixed(x) => expr_start(*x.prefix),
        ExprV::Literal(l) => match literal_span(l) {
            Some(sp) => sp.start as int,
            None => 0,
        },
    }
}

/// Where a span of `e` can be computed, `expr_start` is where it starts.
pub proof fn lemma_expr_start_is_span_start(e: ExprV)
    ensures
        expr_span(e) matches Some(sp) ==> sp.start == expr_start(e),
    decreases e,
{
    match e {
        ExprV::Binary(x) => lemma_expr_start_is_span_start(*x.left),
        ExprV::Suffixed(x) => {
            lemma_expr_start_is_span_start(*x.prefix);
            assert(expr_span(e) == suffixed_span(x));
        },
        _ => {},
    }
}

/// `e` starts where the current token at `s` starts, unless that token is
/// the `function` keyword.
pub open spec fn starts_at_token(b: Seq<u8>, s: ParserV, e: ExprV) -> bool {
    &&& peek_token(b, s).0 matches Ok(Some(t))
    &&& t.token_type != keyword(KeywordType::Function) ==> expr_start(e) == t.span.start
}

/// Looking at the current token a second time finds the same, in the same
/// state.
proof fn lemma_peek_again(b: Seq<u8>, s: ParserV)
    ensures
        peek_token(b, peek_token(b, s).1) == peek_token(b, s),
{
    let ts = s.tokens;
    if ts.current is None && ts.lookahead is None && 0 <= ts.offset < b.len() {
        lemma_next_token_from_bounds(b, ts.exclude_trivias, ts.offset);
    }
}

proof fn lemma_prefix_start(b: Seq<u8>, s: ParserV)
    ensures
        prefix(b, s).0 matches Ok(e) ==> starts_at_token(b, s, e),
{
    reveal(prefix);
}

proof fn lemma_primary_start(b: Seq<u8>, s: ParserV)
    ensures
        primary(b, s).0 matches Ok(e) ==> starts_at_token(b, s, e),
{
    reveal(primary);
    reveal(prefix);
    reveal(primary_rest);
    lemma_prefix_start(b, s);
    let (r, s1) = prefix(b, s);
    if let Ok(p) = r {
        if advanced(b, s, s1) {
            let r2 = primary_rest(b, s1, seq![]).0;
            if let Ok(suffixes) = r2 {
                let x = SuffixedV { prefix: Box::new(p), suffixes };
                assert(expr_start(ExprV::Suffixed(x)) == expr_start(p));
            }
        }
    }
}

/// A table constructor's braces span starts at its opening brace.
proof fn lemma_table_fields_start(b: Seq<u8>, s: ParserV, start: Span, fields: Seq<TableFieldV>)
    ensures
        table_fields(b, s, start, fields).0 matches Ok(tc) ==> tc.braces.start == start.start,
    decreases b.len() + 2 - progress(s),
{
    reveal(table_fields);
    reveal(table_field);
    reveal(table_close);
    let (r, s1) = is_token(b, s, symbol(SymbolType::CloseBrace));
    if let Ok(closing) = r {
        let s1b = with_tokens(s1, stream_fill(b, s1.tokens));
        if !closing && s1b.tokens.current is Some && moved(b, s, s1b) {
            let (r2, s2) = table_field(b, s1b);
            if let Ok(field) = r2 {
                let (r3, s3) = peek_token(b, s2);
                if let Ok(t) = r3 {
                    if is_type(t, symbol(SymbolType::Comma)) || is_type(
                        t,
                        symbol(SymbolType::Semicolon),
                    ) {
                        let (r4, s4) = next_token(b, s3);
                        if r4 is Ok && advanced(b, s, s4) {
                            lemma_table_fields_start(b, s4, start, fields.push(field));
                        }
                    }
                }
            }
        }
    }
}

/// A table constructor starts at the token it takes first.
proof fn lemma_table_start(b: Seq<u8>, s: ParserV)
    ensures
        table(b, s).0 matches Ok(tc) ==> (next_token(b, s).0 matches Ok(Some(t))
            && tc.braces.start == t.span.start),
{
    reveal(table);
    reveal(table_fields);
    let (r, s1) = next_token(b, s);
    if let Ok(Some(t)) = r {
        lemma_table_fields_start(b, s1, t.span, seq![]);
    }
}

proof fn lemma_simple_start(b: Seq<u8>, s: ParserV)
    ensures
        simple(b, s).0 matches Ok(e) ==> starts_at_token(b, s, e),
{
    reveal(simple);
    reveal(primary);
    reveal(table);
    reveal(anon_fn);
    lemma_peek_again(b, s);
    let s1 = peek_token(b, s).1;
    lemma_primary_start(b, s1);
    lemma_table_start(b, s1);
}

proof fn lemma_noncomplex_start(b: Seq<u8>, s: ParserV)
    ensures
        noncomplex(b, s).0 matches Ok(e) ==> starts_at_token(b, s, e),
{
    reveal(noncomplex);
    reveal(unop);
    reveal(complex);
    reveal(simple);
    lemma_peek_again(b, s);
    lemma_simple_start(b, peek_token(b, s).1);
}

/// Extending an operand by binary operators keeps where it starts.
proof fn lemma_complex_rest_start(b: Seq<u8>, s: ParserV, lhs: ExprV, min: usize)
    ensures
        complex_rest(b, s, lhs, min).0 matches Ok(e) ==> expr_start(e) == expr_start(lhs),
    decreases b.len() + 2 - progress(s),
{
    reveal(complex_rest);
    reveal(binop);
    reveal(complex);
    let (r, s1) = binop(b, s);
    if let Ok(op) = r {
        if op.kind.spec_order() >= min {
            let (r2, s2) = next_token(b, s1);
            if r2 is Ok && advanced(b, s, s2) {
                let next_min = if op.kind.spec_is_right_associative() {
                    op.kind.spec_order()
                } else {
                    (op.kind.spec_order() + 1) as usize
                };
                let (r3, s3) = complex(b, s2, next_min);
                if let Ok(rhs) = r3 {
                    if advanced(b, s, s3) {
                        let e = ExprV::Binary(
                            BinaryV { left: Box::new(lhs), op, right: Box::new(rhs) },
                        );
                        lemma_complex_rest_start(b, s3, e, min);
                    }
                }
            }
        }
    }
}

proof fn lemma_complex_start(b: Seq<u8>, s: ParserV, min: usize)
    ensures
        complex(b, s, min).0 matches Ok(e) ==> starts_at_token(b, s, e),
{
    reveal(complex);
    reveal(noncomplex);
    reveal(complex_rest);
    lemma_noncomplex_start(b, s);
    let (r, s1) = noncomplex(b, s);
    if let Ok(e) = r {
        lemma_complex_rest_start(b, s1, e, min);
    }
}

/// The span of an expression the parser reads starts where its first token
/// starts. An expression that begins with a function literal is left out:
/// the span of a function literal, as the parser makes it, runs from the
/// end of its body to the end of its `function` keyword.
pub proof fn lemma_expr_starts_at_first_token(b: Seq<u8>, s: ParserV)
    ensures
        expr(b, s).0 matches Ok(e) ==> {
            &&& starts_at_token(b, s, e)
            &&& expr_span(e) matches Some(sp) ==> sp.start == expr_start(e)
        },
{
    reveal(expr);
    reveal(complex);
    lemma_complex_start(b, s, 1);
    if let Ok(e) = expr(b, s).0 {
        lemma_expr_start_is_span_start(e);
    }
}

} // verus!
