//! Constructors and field accessors of the syntax tree nodes.

use crate::ast::nodes::{
    AnynomousFunction, Ast, Binary, Block, CallArgs, DoStmt, Expr, FunctionAssign,
    FunctionAssignName, FunctionParam, GenericFor, IfStmt, IfStmtChain, LastStmt, LocalAssign,
    LocalFunction, MethodCall, Name, Number, NumericFor, Parentheses, RepeatStmt, Return, Stmt,
    Str, Suffix, Suffixed, TableConstructor, TableField, Unary, ValueAssign, ValueAssignName,
    WhileStmt,
};
use crate::ast::ops::{Binop, Unop};
use crate::location::Span;
use vstd::prelude::*;

verus! {

impl AnynomousFunction {
    pub fn new(span: Span, params: Vec<FunctionParam>, body: Block) -> (r: Self)
        ensures
            r.span == span,
            r.params == params,
            r.body == body,
    {
        AnynomousFunction { span, params, body }
    }

    pub fn span(&self) -> (r: Span)
        ensures
            r == self.span,
    {
        self.span
    }

    pub fn params(&self) -> (r: &Vec<FunctionParam>)
        ensures
            *r == self.params,
    {
        &self.params
    }

    pub fn body(&self) -> (r: &Block)
        ensures
            *r == self.body,
    {
        &self.body
    }
}

impl Ast {
    pub fn new(block: Block) -> (r: Self)
        ensures
            r.block == block,
    {
        Ast { block }
    }

    pub fn block(&self) -> (r: &Block)
        ensures
            *r == self.block,
    {
        &self.block
    }
}

impl Binary {
    pub fn new(left: Box<Expr>, op: Binop, right: Box<Expr>) -> (r: Self)
        ensures
            r.left == left,
            r.op == op,
            r.right == right,
    {
        Binary { left, op, right }
    }

    pub fn left(&self) -> (r: &Box<Expr>)
        ensures
            *r == self.left,
    {
        &self.left
    }

    pub fn op(&self) -> (r: &Binop)
        ensures
            *r == self.op,
    {
        &self.op
    }

    pub fn right(&self) -> (r: &Box<Expr>)
        ensures
            *r == self.right,
    {
        &self.right
    }
}

impl Block {
    pub fn new(span: Span, stmts: Vec<Stmt>, last_stmt: Option<LastStmt>) -> (r: Self)
        ensures
            r.span == span,
            r.stmts == stmts,
            r.last_stmt == last_stmt,
    {
        Block { span, stmts, last_stmt }
    }

    pub fn span(&self) -> (r: Span)
        ensures
            r == self.span,
    {
        self.span
    }

    pub fn stmts(&self) -> (r: &Vec<Stmt>)
        ensures
            *r == self.stmts,
    {
        &self.stmts
    }

    pub fn last_stmt(&self) -> (r: &Option<LastStmt>)
        ensures
            *r == self.last_stmt,
    {
        &self.last_stmt
    }
}

impl DoStmt {
    pub fn new(span: Span, block: Block) -> (r: Self)
        ensures
            r.span == span,
            r.block == block,
    {
        DoStmt { span, block }
    }

    pub fn span(&self) -> (r: Span)
        ensures
            r == self.span,
    {
        self.span
    }

    pub fn block(&self) -> (r: &Block)
        ensures
            *r == self.block,
    {
        &self.block
    }
}

impl FunctionAssign {
    pub fn new(span: Span, name: FunctionAssignName, params: Vec<FunctionParam>, body: Block) -> (r: Self)
        ensures
            r.span == span,
            r.name == name,
            r.params == params,
            r.body == body,
    {
        FunctionAssign { span, name, params, body }
    }

    pub fn span(&self) -> (r: Span)
        ensures
            r == self.span,
    {
        self.span
    }

    pub fn name(&self) -> (r: &FunctionAssignName)
        ensures
            *r == self.name,
    {
        &self.name
    }

    pub fn params(&self) -> (r: &Vec<FunctionParam>)
        ensures
            *r == self.params,
    {
        &self.params
    }

    pub fn body(&self) -> (r: &Block)
        ensures
            *r == self.body,
    {
        &self.body
    }
}

impl FunctionAssignName {
    pub fn new(names: Vec<Name>, method_indexer: Option<Name>) -> (r: Self)
        ensures
            r.names == names,
            r.method_indexer == method_indexer,
    {
        FunctionAssignName { names, method_indexer }
    }

    pub fn names(&self) -> (r: &Vec<Name>)
        ensures
            *r == self.names,
    {
        &self.names
    }

    pub fn method_indexer(&self) -> (r: &Option<Name>)
        ensures
            *r == self.method_indexer,
    {
        &self.method_indexer
    }
}

impl GenericFor {
    pub fn new(span: Span, names: Vec<Name>, exprlist: Vec<Expr>, block: Block) -> (r: Self)
        ensures
            r.span == span,
            r.names == names,
            r.exprlist == exprlist,
            r.block == block,
    {
        GenericFor { span, names, exprlist, block }
    }

    pub fn span(&self) -> (r: Span)
        ensures
            r == self.span,
    {
        self.span
    }

    pub fn names(&self) -> (r: &Vec<Name>)
        ensures
            *r == self.names,
    {
        &self.names
    }

    pub fn exprlist(&self) -> (r: &Vec<Expr>)
        ensures
            *r == self.exprlist,
    {
        &self.exprlist
    }

    pub fn block(&self) -> (r: &Block)
        ensures
            *r == self.block,
    {
        &self.block
    }
}

impl IfStmt {
    pub fn new(span: Span, condition: Expr, block: Block, chains: Vec<IfStmtChain>, else_block: Option<Block>) -> (r: Self)
        ensures
            r.span == span,
            r.condition == condition,
            r.block == block,
            r.chains == chains,
            r.else_block == else_block,
    {
        IfStmt { span, condition, block, chains, else_block }
    }

    pub fn span(&self) -> (r: Span)
        ensures
            r == self.span,
    {
        self.span
    }

    pub fn condition(&self) -> (r: &Expr)
        ensures
            *r == self.condition,
    {
        &self.condition
    }

    pub fn block(&self) -> (r: &Block)
        ensures
            *r == self.block,
    {
        &self.block
    }

    pub fn chains(&self) -> (r: &Vec<IfStmtChain>)
        ensures
            *r == self.chains,
    {
        &self.chains
    }

    pub fn else_block(&self) -> (r: &Option<Block>)
        ensures
            *r == self.else_block,
    {
        &self.else_block
    }
}

impl IfStmtChain {
    pub fn new(span: Span, condition: Expr, block: Block) -> (r: Self)
        ensures
            r.span == span,
            r.condition == condition,
            r.block == block,
    {
        IfStmtChain { span, condition, block }
    }

    pub fn span(&self) -> (r: Span)
        ensures
            r == self.span,
    {
        self.span
    }

    pub fn condition(&self) -> (r: &Expr)
        ensures
            *r == self.condition,
    {
        &self.condition
    }

    pub fn block(&self) -> (r: &Block)
        ensures
            *r == self.block,
    {
        &self.block
    }
}

impl LocalAssign {
    pub fn new(span: Span, names: Vec<Name>, exprs: Option<Vec<Expr>>) -> (r: Self)
        ensures
            r.span == span,
            r.names == names,
            r.exprs == exprs,
    {
        LocalAssign { span, names, exprs }
    }

    pub fn span(&self) -> (r: Span)
        ensures
            r == self.span,
    {
        self.span
    }

    pub fn names(&self) -> (r: &Vec<Name>)
        ensures
            *r == self.names,
    {
        &self.names
    }

    pub fn exprs(&self) -> (r: &Option<Vec<Expr>>)
        ensures
            *r == self.exprs,
    {
        &self.exprs
    }
}

impl LocalFunction {
    pub fn new(span: Span, name: Name, params: Vec<FunctionParam>, body: Block) -> (r: Self)
        ensures
            r.span == span,
            r.name == name,
            r.params == params,
            r.body == body,
    {
        LocalFunction { span, name, params, body }
    }

    pub fn span(&self) -> (r: Span)
        ensures
            r == self.span,
    {
        self.span
    }

    pub fn name(&self) -> (r: &Name)
        ensures
            *r == self.name,
    {
        &self.name
    }

    pub fn params(&self) -> (r: &Vec<FunctionParam>)
        ensures
            *r == self.params,
    {
        &self.params
    }

    pub fn body(&self) -> (r: &Block)
        ensures
            *r == self.body,
    {
        &self.body
    }
}

impl MethodCall {
    pub fn new(colon: Span, indexer: Name, args: Box<CallArgs>) -> (r: Self)
        ensures
            r.colon == colon,
            r.indexer == indexer,
            r.args == args,
    {
        MethodCall { colon, indexer, args }
    }

    pub fn colon(&self) -> (r: Span)
        ensures
            r == self.colon,
    {
        self.colon
    }

    pub fn indexer(&self) -> (r: &Name)
        ensures
            *r == self.indexer,
    {
        &self.indexer
    }

    pub fn args(&self) -> (r: &Box<CallArgs>)
        ensures
            *r == self.args,
    {
        &self.args
    }
}

impl Name {
    pub fn new(span: Span, name: String) -> (r: Self)
        ensures
            r.span == span,
            r.name == name,
    {
        Name { span, name }
    }

    pub fn span(&self) -> (r: Span)
        ensures
            r == self.span,
    {
        self.span
    }

    pub fn name(&self) -> (r: &String)
        ensures
            *r == self.name,
    {
        &self.name
    }
}

impl Number {
    pub fn new(span: Span, value: String) -> (r: Self)
        ensures
            r.span == span,
            r.value == value,
    {
        Number { span, value }
    }

    pub fn span(&self) -> (r: Span)
        ensures
            r == self.span,
    {
        self.span
    }

    pub fn value(&self) -> (r: &String)
        ensures
            *r == self.value,
    {
        &self.value
    }
}

impl NumericFor {
    pub fn new(span: Span, name: Name, start: Expr, end: Expr, step: Option<Expr>, block: Block) -> (r: Self)
        ensures
            r.span == span,
            r.name == name,
            r.start == start,
            r.end == end,
            r.step == step,
            r.block == block,
    {
        NumericFor { span, name, start, end, step, block }
    }

    pub fn span(&self) -> (r: Span)
        ensures
            r == self.span,
    {
        self.span
    }

    pub fn name(&self) -> (r: &Name)
        ensures
            *r == self.name,
    {
        &self.name
    }

    pub fn start(&self) -> (r: &Expr)
        ensures
            *r == self.start,
    {
        &self.start
    }

    pub fn end(&self) -> (r: &Expr)
        ensures
            *r == self.end,
    {
        &self.end
    }

    pub fn step(&self) -> (r: &Option<Expr>)
        ensures
            *r == self.step,
    {
        &self.step
    }

    pub fn block(&self) -> (r: &Block)
        ensures
            *r == self.block,
    {
        &self.block
    }
}

impl Parentheses {
    pub fn new(spanned: Span, inner: Box<Expr>) -> (r: Self)
        ensures
            r.spanned == spanned,
            r.inner == inner,
    {
        Parentheses { spanned, inner }
    }

    pub fn spanned(&self) -> (r: Span)
        ensures
            r == self.spanned,
    {
        self.spanned
    }

    pub fn inner(&self) -> (r: &Box<Expr>)
        ensures
            *r == self.inner,
    {
        &self.inner
    }
}

impl RepeatStmt {
    pub fn new(span: Span, condition: Expr, block: Block) -> (r: Self)
        ensures
            r.span == span,
            r.condition == condition,
            r.block == block,
    {
        RepeatStmt { span, condition, block }
    }

    pub fn span(&self) -> (r: Span)
        ensures
            r == self.span,
    {
        self.span
    }

    pub fn condition(&self) -> (r: &Expr)
        ensures
            *r == self.condition,
    {
        &self.condition
    }

    pub fn block(&self) -> (r: &Block)
        ensures
            *r == self.block,
    {
        &self.block
    }
}

impl Return {
    pub fn new(token: Span, exprs: Vec<Expr>) -> (r: Self)
        ensures
            r.token == token,
            r.exprs == exprs,
    {
        Return { token, exprs }
    }

    pub fn token(&self) -> (r: Span)
        ensures
            r == self.token,
    {
        self.token
    }

    pub fn exprs(&self) -> (r: &Vec<Expr>)
        ensures
            *r == self.exprs,
    {
        &self.exprs
    }
}

impl Str {
    pub fn new(span: Span, value: String) -> (r: Self)
        ensures
            r.span == span,
            r.value == value,
    {
        Str { span, value }
    }

    pub fn span(&self) -> (r: Span)
        ensures
            r == self.span,
    {
        self.span
    }

    pub fn value(&self) -> (r: &String)
        ensures
            *r == self.value,
    {
        &self.value
    }
}

impl Suffixed {
    pub fn new(prefix: Box<Expr>, suffixes: Vec<Suffix>) -> (r: Self)
        ensures
            r.prefix == prefix,
            r.suffixes == suffixes,
    {
        Suffixed { prefix, suffixes }
    }

    pub fn prefix(&self) -> (r: &Box<Expr>)
        ensures
            *r == self.prefix,
    {
        &self.prefix
    }

    pub fn suffixes(&self) -> (r: &Vec<Suffix>)
        ensures
            *r == self.suffixes,
    {
        &self.suffixes
    }
}

impl TableConstructor {
    pub fn new(braces: Span, fields: Vec<TableField>) -> (r: Self)
        ensures
            r.braces == braces,
            r.fields == fields,
    {
        TableConstructor { braces, fields }
    }

    pub fn braces(&self) -> (r: Span)
        ensures
            r == self.braces,
    {
        self.braces
    }

    pub fn fields(&self) -> (r: &Vec<TableField>)
        ensures
            *r == self.fields,
    {
        &self.fields
    }
}

impl Unary {
    pub fn new(op: Unop, expr: Box<Expr>) -> (r: Self)
        ensures
            r.op == op,
            r.expr == expr,
    {
        Unary { op, expr }
    }

    pub fn op(&self) -> (r: &Unop)
        ensures
            *r == self.op,
    {
        &self.op
    }

    pub fn expr(&self) -> (r: &Box<Expr>)
        ensures
            *r == self.expr,
    {
        &self.expr
    }
}

impl ValueAssign {
    pub fn new(span: Span, names: Vec<ValueAssignName>, exprlist: Vec<Expr>) -> (r: Self)
        ensures
            r.span == span,
            r.names == names,
            r.exprlist == exprlist,
    {
        ValueAssign { span, names, exprlist }
    }

    pub fn span(&self) -> (r: Span)
        ensures
            r == self.span,
    {
        self.span
    }

    pub fn names(&self) -> (r: &Vec<ValueAssignName>)
        ensures
            *r == self.names,
    {
        &self.names
    }

    pub fn exprlist(&self) -> (r: &Vec<Expr>)
        ensures
            *r == self.exprlist,
    {
        &self.exprlist
    }
}

impl WhileStmt {
    pub fn new(span: Span, condition: Expr, block: Block) -> (r: Self)
        ensures
            r.span == span,
            r.condition == condition,
            r.block == block,
    {
        WhileStmt { span, condition, block }
    }

    pub fn span(&self) -> (r: Span)
        ensures
            r == self.span,
    {
        self.span
    }

    pub fn condition(&self) -> (r: &Expr)
        ensures
            *r == self.condition,
    {
        &self.condition
    }

    pub fn block(&self) -> (r: &Block)
        ensures
            *r == self.block,
    {
        &self.block
    }
}

} // verus!
