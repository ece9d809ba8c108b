//! The [`Spanned`] trait: where a syntax node lies in the source.

use crate::ast::nodes::{
    expr_v, name_v, suffix_v, AnynomousFunction, Ast, Binary, Block, Call, CallArgs, CallV, DoStmt, Expr, ExprV,
    FunctionAssign, FunctionAssignName, FunctionParam, FunctionParamV, GenericFor, IfStmt,
    IfStmtChain, LastStmt, LastStmtV, Literal, LocalAssign, LocalFunction, MethodCall, Name,
    Number, NumericFor, Parentheses, RepeatStmt, Return, Stmt, Str, Suffix, SuffixIndex,
    SuffixV, Suffixed, TableConstructor, TableField, TableFieldV, Unary, ValueAssign,
    ValueAssignName, ValueAssignNameV, WhileStmt,
};
use crate::ast::ops::{Binop, Bool, Unop};
use crate::ast::spans::{
    call_args_span, call_span, expr_span, expr_span_fits, function_assign_name_span,
    function_assign_name_span_fits, last_stmt_span, literal_span, method_call_span, return_span,
    return_span_fits, stmt_span, stmt_span_fits, suffix_index_span, suffix_span,
    suffix_span_fits, suffixed_span, value_assign_name_span,
};
use crate::location::Span;
use vstd::prelude::*;

verus! {

broadcast use crate::ast::nodes::group_seq_views;

/// Syntax nodes that know where they lie in the source.
pub trait Spanned {
    /// The span of the node.
    spec fn spanned(&self) -> Option<Span>;

    /// Computing the span does not overflow.
    spec fn span_fits(&self) -> bool;

    fn span(&self) -> (r: Option<Span>)
        requires
            self.span_fits(),
        ensures
            r == self.spanned(),
    ;
}

fn span_of_call_args(a: &CallArgs) -> (r: Option<Span>)
    ensures
        r == call_args_span(a@),
{
    match a {
        CallArgs::Multiple { parens, .. } => Some(*parens),
        CallArgs::Str(s) => Some(s.span),
        CallArgs::Table(t) => Some(t.braces),
    }
}

fn span_of_suffix(s: &Suffix) -> (r: Option<Span>)
    requires
        suffix_span_fits(s@),
    ensures
        r == suffix_span(s@),
{
    match s {
        Suffix::Call(Call::Args(a)) => span_of_call_args(a),
        Suffix::Call(Call::Method(m)) => {
            let a = span_of_call_args(&m.args)?;
            Some(m.colon.with_end(a.end()))
        },
        Suffix::Index(SuffixIndex::Computed { spanned, .. }) => Some(*spanned),
        Suffix::Index(SuffixIndex::Named { dot, indexer }) => Some(
            dot.with_start(indexer.span.end()),
        ),
    }
}

/// The span of an expression.
pub fn span_of_expr(e: &Expr) -> (r: Option<Span>)
    requires
        expr_span_fits(e@),
    ensures
        r == expr_span(e@),
    decreases e,
{
    match e {
        Expr::Binary(b) => match (span_of_expr(&b.left), span_of_expr(&b.right)) {
            (Some(l), Some(r)) => Some(l.with_end(r.end())),
            _ => None,
        },
        Expr::Literal(l) => span_of_expr_literal(l),
        Expr::Parentheses(p) => Some(p.spanned),
        Expr::Suffixed(s) => span_of_suffixed(s),
        Expr::Unary(u) => match span_of_expr(&u.expr) {
            Some(s) => Some(u.op.span.with_end(s.end())),
            None => None,
        },
    }
}

/// The span of a suffixed expression.
pub fn span_of_suffixed(s: &Suffixed) -> (r: Option<Span>)
    requires
        expr_span_fits(*s@.prefix),
        s@.suffixes.len() > 0,
        suffix_span_fits(s@.suffixes.last()),
        suffix_span(s@.suffixes.last()) matches Some(l) && l.end < usize::MAX,
    ensures
        r == suffixed_span(s@),
    decreases s,
{
    let p = span_of_expr(&s.prefix)?;
    let n = s.suffixes.len();
    proof {
        assert(s@.suffixes.last() == suffix_v(s.suffixes@[n - 1]));
    }
    let l = span_of_suffix(&s.suffixes[n - 1])?;
    Some(p.with_end(l.end()))
}


fn span_of_expr_literal(l: &Literal) -> (r: Option<Span>)
    ensures
        r == literal_span(l@),
{
    match l {
        Literal::Bool(n) => Some(n.span),
        Literal::Function(n) => Some(n.span),
        Literal::Name(n) => Some(n.span),
        Literal::Nil(n) => Some(*n),
        Literal::Number(n) => Some(n.span),
        Literal::Str(n) => Some(n.span),
        Literal::Table(n) => Some(n.braces),
        Literal::Varargs(n) => Some(*n),
    }
}

impl Spanned for Block {
    open spec fn spanned(&self) -> Option<Span> {
        Some(self.span)
    }

    open spec fn span_fits(&self) -> bool {
        true
    }

    fn span(&self) -> (r: Option<Span>) {
        Some(self.span)
    }
}

impl Spanned for AnynomousFunction {
    open spec fn spanned(&self) -> Option<Span> {
        Some(self.span)
    }

    open spec fn span_fits(&self) -> bool {
        true
    }

    fn span(&self) -> (r: Option<Span>) {
        Some(self.span)
    }
}

impl Spanned for Bool {
    open spec fn spanned(&self) -> Option<Span> {
        Some(self.span)
    }

    open spec fn span_fits(&self) -> bool {
        true
    }

    fn span(&self) -> (r: Option<Span>) {
        Some(self.span)
    }
}

impl Spanned for Name {
    open spec fn spanned(&self) -> Option<Span> {
        Some(self.span)
    }

    open spec fn span_fits(&self) -> bool {
        true
    }

    fn span(&self) -> (r: Option<Span>) {
        Some(self.span)
    }
}

impl Spanned for Number {
    open spec fn spanned(&self) -> Option<Span> {
        Some(self.span)
    }

    open spec fn span_fits(&self) -> bool {
        true
    }

    fn span(&self) -> (r: Option<Span>) {
        Some(self.span)
    }
}

impl Spanned for Str {
    open spec fn spanned(&self) -> Option<Span> {
        Some(self.span)
    }

    open spec fn span_fits(&self) -> bool {
        true
    }

    fn span(&self) -> (r: Option<Span>) {
        Some(self.span)
    }
}

impl Spanned for Binop {
    open spec fn spanned(&self) -> Option<Span> {
        Some(self.span)
    }

    open spec fn span_fits(&self) -> bool {
        true
    }

    fn span(&self) -> (r: Option<Span>) {
        Some(self.span)
    }
}

impl Spanned for Unop {
    open spec fn spanned(&self) -> Option<Span> {
        Some(self.span)
    }

    open spec fn span_fits(&self) -> bool {
        true
    }

    fn span(&self) -> (r: Option<Span>) {
        Some(self.span)
    }
}

impl Spanned for ValueAssign {
    open spec fn spanned(&self) -> Option<Span> {
        Some(self.span)
    }

    open spec fn span_fits(&self) -> bool {
        true
    }

    fn span(&self) -> (r: Option<Span>) {
        Some(self.span)
    }
}

impl Spanned for IfStmtChain {
    open spec fn spanned(&self) -> Option<Span> {
        Some(self.span)
    }

    open spec fn span_fits(&self) -> bool {
        true
    }

    fn span(&self) -> (r: Option<Span>) {
        Some(self.span)
    }
}

impl Spanned for IfStmt {
    open spec fn spanned(&self) -> Option<Span> {
        Some(self.span)
    }

    open spec fn span_fits(&self) -> bool {
        true
    }

    fn span(&self) -> (r: Option<Span>) {
        Some(self.span)
    }
}

impl Spanned for GenericFor {
    open spec fn spanned(&self) -> Option<Span> {
        Some(self.span)
    }

    open spec fn span_fits(&self) -> bool {
        true
    }

    fn span(&self) -> (r: Option<Span>) {
        Some(self.span)
    }
}

impl Spanned for NumericFor {
    open spec fn spanned(&self) -> Option<Span> {
        Some(self.span)
    }

    open spec fn span_fits(&self) -> bool {
        true
    }

    fn span(&self) -> (r: Option<Span>) {
        Some(self.span)
    }
}

impl Spanned for RepeatStmt {
    open spec fn spanned(&self) -> Option<Span> {
        Some(self.span)
    }

    open spec fn span_fits(&self) -> bool {
        true
    }

    fn span(&self) -> (r: Option<Span>) {
        Some(self.span)
    }
}

impl Spanned for WhileStmt {
    open spec fn spanned(&self) -> Option<Span> {
        Some(self.span)
    }

    open spec fn span_fits(&self) -> bool {
        true
    }

    fn span(&self) -> (r: Option<Span>) {
        Some(self.span)
    }
}

impl Spanned for FunctionAssign {
    open spec fn spanned(&self) -> Option<Span> {
        Some(self.span)
    }

    open spec fn span_fits(&self) -> bool {
        true
    }

    fn span(&self) -> (r: Option<Span>) {
        Some(self.span)
    }
}

impl Spanned for LocalFunction {
    open spec fn spanned(&self) -> Option<Span> {
        Some(self.span)
    }

    open spec fn span_fits(&self) -> bool {
        true
    }

    fn span(&self) -> (r: Option<Span>) {
        Some(self.span)
    }
}

impl Spanned for LocalAssign {
    open spec fn spanned(&self) -> Option<Span> {
        Some(self.span)
    }

    open spec fn span_fits(&self) -> bool {
        true
    }

    fn span(&self) -> (r: Option<Span>) {
        Some(self.span)
    }
}

impl Spanned for DoStmt {
    open spec fn spanned(&self) -> Option<Span> {
        Some(self.span)
    }

    open spec fn span_fits(&self) -> bool {
        true
    }

    fn span(&self) -> (r: Option<Span>) {
        Some(self.span)
    }
}

impl Spanned for TableConstructor {
    open spec fn spanned(&self) -> Option<Span> {
        Some(self.braces)
    }

    open spec fn span_fits(&self) -> bool {
        true
    }

    fn span(&self) -> (r: Option<Span>) {
        Some(self.braces)
    }
}

impl Spanned for Parentheses {
    open spec fn spanned(&self) -> Option<Span> {
        Some(self.spanned)
    }

    open spec fn span_fits(&self) -> bool {
        true
    }

    fn span(&self) -> (r: Option<Span>) {
        Some(self.spanned)
    }
}

impl Spanned for Ast {
    open spec fn spanned(&self) -> Option<Span> {
        Some(self.block.span)
    }

    open spec fn span_fits(&self) -> bool {
        true
    }

    fn span(&self) -> (r: Option<Span>) {
        Some(self.block.span)
    }
}

impl Spanned for Unary {
    open spec fn spanned(&self) -> Option<Span> {
        expr_span(ExprV::Unary(self@))
    }

    open spec fn span_fits(&self) -> bool {
        expr_span_fits(ExprV::Unary(self@))
    }

    fn span(&self) -> (r: Option<Span>) {
        let s = span_of_expr(&self.expr)?;
        Some(self.op.span.with_end(s.end()))
    }
}

impl Spanned for Binary {
    open spec fn spanned(&self) -> Option<Span> {
        expr_span(ExprV::Binary(self@))
    }

    open spec fn span_fits(&self) -> bool {
        expr_span_fits(ExprV::Binary(self@))
    }

    fn span(&self) -> (r: Option<Span>) {
        let l = span_of_expr(&self.left)?;
        let r = span_of_expr(&self.right)?;
        Some(l.with_end(r.end()))
    }
}

impl Spanned for Literal {
    open spec fn spanned(&self) -> Option<Span> {
        literal_span(self@)
    }

    open spec fn span_fits(&self) -> bool {
        true
    }

    fn span(&self) -> (r: Option<Span>) {
        span_of_expr_literal(self)
    }
}

impl Spanned for Expr {
    open spec fn spanned(&self) -> Option<Span> {
        expr_span(self@)
    }

    open spec fn span_fits(&self) -> bool {
        expr_span_fits(self@)
    }

    fn span(&self) -> (r: Option<Span>) {
        span_of_expr(self)
    }
}

impl Spanned for SuffixIndex {
    open spec fn spanned(&self) -> Option<Span> {
        suffix_index_span(self@)
    }

    open spec fn span_fits(&self) -> bool {
        suffix_span_fits(SuffixV::Index(self@))
    }

    fn span(&self) -> (r: Option<Span>) {
        match self {
            SuffixIndex::Computed { spanned, .. } => Some(*spanned),
            SuffixIndex::Named { dot, indexer } => Some(dot.with_start(indexer.span.end())),
        }
    }
}

impl Spanned for CallArgs {
    open spec fn spanned(&self) -> Option<Span> {
        call_args_span(self@)
    }

    open spec fn span_fits(&self) -> bool {
        true
    }

    fn span(&self) -> (r: Option<Span>) {
        span_of_call_args(self)
    }
}

impl Spanned for MethodCall {
    open spec fn spanned(&self) -> Option<Span> {
        method_call_span(self@)
    }

    open spec fn span_fits(&self) -> bool {
        suffix_span_fits(SuffixV::Call(CallV::Method(self@)))
    }

    fn span(&self) -> (r: Option<Span>) {
        let a = span_of_call_args(&self.args)?;
        Some(self.colon.with_end(a.end()))
    }
}

impl Spanned for Call {
    open spec fn spanned(&self) -> Option<Span> {
        call_span(self@)
    }

    open spec fn span_fits(&self) -> bool {
        suffix_span_fits(SuffixV::Call(self@))
    }

    fn span(&self) -> (r: Option<Span>) {
        match self {
            Call::Args(a) => span_of_call_args(a),
            Call::Method(m) => m.span(),
        }
    }
}

impl Spanned for Suffix {
    open spec fn spanned(&self) -> Option<Span> {
        suffix_span(self@)
    }

    open spec fn span_fits(&self) -> bool {
        suffix_span_fits(self@)
    }

    fn span(&self) -> (r: Option<Span>) {
        span_of_suffix(self)
    }
}

impl Spanned for Suffixed {
    open spec fn spanned(&self) -> Option<Span> {
        suffixed_span(self@)
    }

    open spec fn span_fits(&self) -> bool {
        expr_span_fits(ExprV::Suffixed(self@))
    }

    fn span(&self) -> (r: Option<Span>) {
        span_of_suffixed(self)
    }
}

impl Spanned for TableField {
    open spec fn spanned(&self) -> Option<Span> {
        match self@ {
            TableFieldV::Computed { span, .. } => Some(span),
            TableFieldV::Named { span, .. } => Some(span),
            TableFieldV::Value(v) => expr_span(*v),
        }
    }

    open spec fn span_fits(&self) -> bool {
        match self@ {
            TableFieldV::Value(v) => expr_span_fits(*v),
            _ => true,
        }
    }

    fn span(&self) -> (r: Option<Span>) {
        match self {
            TableField::Computed { span, .. } => Some(*span),
            TableField::Named { span, .. } => Some(*span),
            TableField::Value(value) => span_of_expr(value),
        }
    }
}

impl Spanned for ValueAssignName {
    open spec fn spanned(&self) -> Option<Span> {
        value_assign_name_span(self@)
    }

    open spec fn span_fits(&self) -> bool {
        match self@ {
            ValueAssignNameV::Suffixed(s) => expr_span_fits(ExprV::Suffixed(s)),
            _ => true,
        }
    }

    fn span(&self) -> (r: Option<Span>) {
        match self {
            ValueAssignName::Name(n) => Some(n.span),
            ValueAssignName::Suffixed(n) => span_of_suffixed(n),
        }
    }
}

impl Spanned for FunctionAssignName {
    open spec fn spanned(&self) -> Option<Span> {
        function_assign_name_span(self@)
    }

    open spec fn span_fits(&self) -> bool {
        function_assign_name_span_fits(self@)
    }

    fn span(&self) -> (r: Option<Span>) {
        if self.names.len() == 0 {
            return None;
        }
        let first = self.names[0].span;
        proof {
            assert(self@.names[0] == name_v(self.names@[0]));
            assert(self@.names.last() == name_v(self.names@[self.names.len() - 1]));
        }
        match &self.method_indexer {
            Some(n) => Some(first.with_start(n.span.end())),
            None => Some(first.with_end(self.names[self.names.len() - 1].span.end())),
        }
    }
}

impl Spanned for Return {
    open spec fn spanned(&self) -> Option<Span> {
        return_span(self@)
    }

    open spec fn span_fits(&self) -> bool {
        return_span_fits(self@)
    }

    fn span(&self) -> (r: Option<Span>) {
        let n = self.exprs.len();
        let end = if n > 0 {
            proof {
                assert(self@.exprs.last() == expr_v(self.exprs@[n - 1]));
            }
            match span_of_expr(&self.exprs[n - 1]) {
                Some(s) => s.end(),
                None => self.token.end(),
            }
        } else {
            self.token.end()
        };
        Some(self.token.with_end(end))
    }
}

impl Spanned for FunctionParam {
    open spec fn spanned(&self) -> Option<Span> {
        match self@ {
            FunctionParamV::Name(n) => Some(n.span),
            FunctionParamV::Varargs(n) => Some(n),
        }
    }

    open spec fn span_fits(&self) -> bool {
        true
    }

    fn span(&self) -> (r: Option<Span>) {
        match self {
            FunctionParam::Name(n) => Some(n.span),
            FunctionParam::Varargs(n) => Some(*n),
        }
    }
}

impl Spanned for Stmt {
    open spec fn spanned(&self) -> Option<Span> {
        stmt_span(self@)
    }

    open spec fn span_fits(&self) -> bool {
        stmt_span_fits(self@)
    }

    fn span(&self) -> (r: Option<Span>) {
        match self {
            Stmt::Call(n) => n.span(),
            Stmt::Do(n) => Some(n.span),
            Stmt::FunctionAssign(n) => Some(n.span),
            Stmt::GenericFor(n) => Some(n.span),
            Stmt::IfStmt(n) => Some(n.span),
            Stmt::LocalAssign(n) => Some(n.span),
            Stmt::LocalFunction(n) => Some(n.span),
            Stmt::NumericFor(n) => Some(n.span),
            Stmt::Repeat(n) => Some(n.span),
            Stmt::While(n) => Some(n.span),
            Stmt::ValueAssign(n) => Some(n.span),
        }
    }
}

impl Spanned for LastStmt {
    open spec fn spanned(&self) -> Option<Span> {
        last_stmt_span(self@)
    }

    open spec fn span_fits(&self) -> bool {
        match self@ {
            LastStmtV::Return(r) => return_span_fits(r),
            _ => true,
        }
    }

    fn span(&self) -> (r: Option<Span>) {
        match self {
            LastStmt::Break(n) => Some(*n),
            LastStmt::Return(n) => n.span(),
        }
    }
}

} // verus!
