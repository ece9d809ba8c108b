//! Where each syntax node lies in the source.

use crate::ast::nodes::{
    CallArgsV, CallV, ExprV, FunctionAssignNameV, LastStmtV, LiteralV, MethodCallV, ReturnV,
    StmtV, SuffixIndexV, SuffixV, SuffixedV, ValueAssignNameV,
};
use crate::ast::ops::{Binop, Bool, Unop};
use crate::location::Span;
use vstd::prelude::*;

verus! {

/// `span` with its end moved to one past `end` (as [`Span::with_end`]).
pub open spec fn end_at(span: Span, end: usize) -> Span {
    Span { start: span.start, end: (end + 1) as usize }
}

/// `span` with its start moved to one past `start` (as [`Span::with_start`]).
pub open spec fn start_at(span: Span, start: usize) -> Span {
    Span { start: (start + 1) as usize, end: span.end }
}

pub open spec fn expr_span(e: ExprV) -> Option<Span>
    decreases e,
{
    match e {
        ExprV::Binary(b) => match (expr_span(*b.left), expr_span(*b.right)) {
            (Some(l), Some(r)) => Some(end_at(l, r.end)),
            _ => None,
        },
        ExprV::Literal(l) => literal_span(l),
        ExprV::Parentheses(p) => Some(p.spanned),
        ExprV::Suffixed(s) => suffixed_span(s),
        ExprV::Unary(u) => match expr_span(*u.expr) {
            Some(s) => Some(end_at(u.op.span, s.end)),
            None => None,
        },
    }
}

pub open spec fn literal_span(l: LiteralV) -> Option<Span> {
    match l {
        LiteralV::Bool(n) => Some(n.span),
        LiteralV::Function(n) => Some(n.span),
        LiteralV::Name(n) => Some(n.span),
        LiteralV::Nil(n) => Some(n),
        LiteralV::Number(n) => Some(n.span),
        LiteralV::Str(n) => Some(n.span),
        LiteralV::Table(n) => Some(n.braces),
        LiteralV::Varargs(n) => Some(n),
    }
}

pub open spec fn call_args_span(a: CallArgsV) -> Option<Span> {
    match a {
        CallArgsV::Multiple { parens, .. } => Some(parens),
        CallArgsV::Str(s) => Some(s.span),
        CallArgsV::Table(t) => Some(t.braces),
    }
}

pub open spec fn suffix_index_span(i: SuffixIndexV) -> Option<Span> {
    match i {
        SuffixIndexV::Computed { spanned, .. } => Some(spanned),
        SuffixIndexV::Named { dot, indexer } => Some(start_at(dot, indexer.span.end)),
    }
}

pub open spec fn method_call_span(m: MethodCallV) -> Option<Span> {
    match call_args_span(*m.args) {
        Some(a) => Some(end_at(m.colon, a.end)),
        None => None,
    }
}

pub open spec fn call_span(c: CallV) -> Option<Span> {
    match c {
        CallV::Args(a) => call_args_span(a),
        CallV::Method(m) => method_call_span(m),
    }
}

pub open spec fn suffix_span(s: SuffixV) -> Option<Span> {
    match s {
        SuffixV::Call(c) => call_span(c),
        SuffixV::Index(i) => suffix_index_span(i),
    }
}

pub open spec fn suffixed_span(s: SuffixedV) -> Option<Span>
    decreases s,
{
    match expr_span(*s.prefix) {
        Some(p) => match suffix_span(s.suffixes.last()) {
            Some(l) => Some(end_at(p, l.end)),
            None => None,
        },
        None => None,
    }
}

/// Computing the span of a suffix never overflows.
pub open spec fn suffix_span_fits(s: SuffixV) -> bool {
    match s {
        SuffixV::Call(CallV::Method(m)) => call_args_span(*m.args) matches Some(a) && a.end
            < usize::MAX,
        SuffixV::Index(SuffixIndexV::Named { indexer, .. }) => indexer.span.end < usize::MAX,
        _ => true,
    }
}

/// Computing the span of an expression never overflows (and every
/// suffixed expression has a suffix).
pub open spec fn expr_span_fits(e: ExprV) -> bool
    decreases e,
{
    match e {
        ExprV::Binary(b) => {
            &&& expr_span_fits(*b.left)
            &&& expr_span_fits(*b.right)
            &&& expr_span(*b.right) matches Some(r) && r.end < usize::MAX
        },
        ExprV::Suffixed(s) => {
            &&& expr_span_fits(*s.prefix)
            &&& s.suffixes.len() > 0
            &&& suffix_span_fits(s.suffixes.last())
            &&& suffix_span(s.suffixes.last()) matches Some(l) && l.end < usize::MAX
        },
        ExprV::Unary(u) => {
            &&& expr_span_fits(*u.expr)
            &&& expr_span(*u.expr) matches Some(s) && s.end < usize::MAX
        },
        _ => true,
    }
}

pub open spec fn value_assign_name_span(n: ValueAssignNameV) -> Option<Span> {
    match n {
        ValueAssignNameV::Name(n) => Some(n.span),
        ValueAssignNameV::Suffixed(s) => suffixed_span(s),
    }
}

pub open spec fn function_assign_name_span(n: FunctionAssignNameV) -> Option<Span> {
    if n.names.len() == 0 {
        None
    } else {
        match n.method_indexer {
            Some(m) => Some(start_at(n.names[0].span, m.span.end)),
            None => Some(end_at(n.names[0].span, n.names.last().span.end)),
        }
    }
}

pub open spec fn function_assign_name_span_fits(n: FunctionAssignNameV) -> bool {
    n.names.len() > 0 ==> match n.method_indexer {
        Some(m) => m.span.end < usize::MAX,
        None => n.names.last().span.end < usize::MAX,
    }
}

pub open spec fn return_span(r: ReturnV) -> Option<Span> {
    let end = if r.exprs.len() > 0 && expr_span(r.exprs.last()) is Some {
        expr_span(r.exprs.last())->Some_0.end
    } else {
        r.token.end
    };
    Some(end_at(r.token, end))
}

pub open spec fn return_span_fits(r: ReturnV) -> bool {
    &&& r.exprs.len() > 0 ==> expr_span_fits(r.exprs.last())
    &&& return_span(r) is Some
    &&& (if r.exprs.len() > 0 && expr_span(r.exprs.last()) is Some {
        expr_span(r.exprs.last())->Some_0.end
    } else {
        r.token.end
    }) < usize::MAX
}

pub open spec fn stmt_span(s: StmtV) -> Option<Span> {
    match s {
        StmtV::Call(c) => call_span(c),
        StmtV::Do(n) => Some(n.span),
        StmtV::IfStmt(n) => Some(n.span),
        StmtV::GenericFor(n) => Some(n.span),
        StmtV::FunctionAssign(n) => Some(n.span),
        StmtV::LocalAssign(n) => Some(n.span),
        StmtV::LocalFunction(n) => Some(n.span),
        StmtV::NumericFor(n) => Some(n.span),
        StmtV::Repeat(n) => Some(n.span),
        StmtV::While(n) => Some(n.span),
        StmtV::ValueAssign(n) => Some(n.span),
    }
}

pub open spec fn stmt_span_fits(s: StmtV) -> bool {
    match s {
        StmtV::Call(c) => suffix_span_fits(SuffixV::Call(c)),
        _ => true,
    }
}

pub open spec fn last_stmt_span(s: LastStmtV) -> Option<Span> {
    match s {
        LastStmtV::Break(n) => Some(n),
        LastStmtV::Return(r) => return_span(r),
    }
}

} // verus!
