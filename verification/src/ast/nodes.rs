use crate::ast::ops::{Binop, BinopKind, Unop, UnopKind, Bool};
use crate::ast::tokens::text_bytes;
use crate::location::Span;
use vstd::prelude::*;

verus! {

/// A block: statements, then an optional last statement (`return` or `break`).
#[derive(Debug, PartialEq, Eq)]
pub struct Block {
    pub span: Span,
    pub stmts: Vec<Stmt>,
    pub last_stmt: Option<LastStmt>,
}

/// A whole parsed chunk.
#[derive(Debug, PartialEq, Eq)]
pub struct Ast {
    pub block: Block,
}

/// A unary operation.
#[derive(Debug, PartialEq, Eq)]
pub struct Unary {
    pub op: Unop,
    pub expr: Box<Expr>,
}

/// A binary operation.
#[derive(Debug, PartialEq, Eq)]
pub struct Binary {
    pub left: Box<Expr>,
    pub op: Binop,
    pub right: Box<Expr>,
}

/// A function literal `function (...) ... end`.
#[derive(Debug, PartialEq, Eq)]
pub struct AnynomousFunction {
    pub span: Span,
    pub params: Vec<FunctionParam>,
    pub body: Block,
}

/// A name, with its span.
#[derive(Debug, PartialEq, Eq)]
pub struct Name {
    pub span: Span,
    pub name: String,
}

/// A numeral, with its span.
#[derive(Debug, PartialEq, Eq)]
pub struct Number {
    pub span: Span,
    pub value: String,
}

/// A string literal, with its span.
#[derive(Debug, PartialEq, Eq)]
pub struct Str {
    pub span: Span,
    pub value: String,
}

/// A literal or a name.
#[derive(Debug, PartialEq, Eq)]
pub enum Literal {
    Bool(Bool),
    Function(AnynomousFunction),
    Name(Name),
    Nil(Span),
    Number(Number),
    Str(Str),
    Table(TableConstructor),
    Varargs(Span),
}

/// An expression.
#[derive(Debug, PartialEq, Eq)]
pub enum Expr {
    Binary(Binary),
    Literal(Literal),
    Parentheses(Parentheses),
    Suffixed(Suffixed),
    Unary(Unary),
}

/// An expression in parentheses.
#[derive(Debug, PartialEq, Eq)]
pub struct Parentheses {
    pub spanned: Span,
    pub inner: Box<Expr>,
}

/// An indexing suffix: `[expr]` or `.name`.
#[derive(Debug, PartialEq, Eq)]
pub enum SuffixIndex {
    Computed { spanned: Span, expr: Box<Expr> },
    Named { dot: Span, indexer: Name },
}

/// The arguments of a call.
#[derive(Debug, PartialEq, Eq)]
pub enum CallArgs {
    Multiple { parens: Span, exprs: Vec<Expr> },
    Str(Str),
    Table(TableConstructor),
}

/// A method call suffix `:name args`.
#[derive(Debug, PartialEq, Eq)]
pub struct MethodCall {
    pub colon: Span,
    pub indexer: Name,
    pub args: Box<CallArgs>,
}

/// A call suffix.
#[derive(Debug, PartialEq, Eq)]
pub enum Call {
    Args(CallArgs),
    Method(MethodCall),
}

/// A suffix of a primary expression.
#[derive(Debug, PartialEq, Eq)]
pub enum Suffix {
    Call(Call),
    Index(SuffixIndex),
}

/// A prefix expression followed by calls and indexing.
#[derive(Debug, PartialEq, Eq)]
pub struct Suffixed {
    pub prefix: Box<Expr>,
    pub suffixes: Vec<Suffix>,
}

/// A field of a table constructor.
#[derive(Debug, PartialEq, Eq)]
pub enum TableField {
    Computed { span: Span, key: Box<Expr>, value: Box<Expr> },
    Named { span: Span, key: Name, value: Box<Expr> },
    Value(Box<Expr>),
}

/// A table constructor `{ ... }`.
#[derive(Debug, PartialEq, Eq)]
pub struct TableConstructor {
    pub braces: Span,
    pub fields: Vec<TableField>,
}

/// A target of an assignment.
#[derive(Debug, PartialEq, Eq)]
pub enum ValueAssignName {
    Name(Name),
    Suffixed(Suffixed),
}

/// An assignment statement.
#[derive(Debug, PartialEq, Eq)]
pub struct ValueAssign {
    pub span: Span,
    pub names: Vec<ValueAssignName>,
    pub exprlist: Vec<Expr>,
}

/// An `elseif` part of an `if` statement.
#[derive(Debug, PartialEq, Eq)]
pub struct IfStmtChain {
    pub span: Span,
    pub condition: Expr,
    pub block: Block,
}

/// An `if` statement.
#[derive(Debug, PartialEq, Eq)]
pub struct IfStmt {
    pub span: Span,
    pub condition: Expr,
    pub block: Block,
    pub chains: Vec<IfStmtChain>,
    pub else_block: Option<Block>,
}

/// A generic `for` loop.
#[derive(Debug, PartialEq, Eq)]
pub struct GenericFor {
    pub span: Span,
    pub names: Vec<Name>,
    pub exprlist: Vec<Expr>,
    pub block: Block,
}

/// A numeric `for` loop.
#[derive(Debug, PartialEq, Eq)]
pub struct NumericFor {
    pub span: Span,
    pub name: Name,
    pub start: Expr,
    pub end: Expr,
    pub step: Option<Expr>,
    pub block: Block,
}

/// A `repeat ... until` loop.
#[derive(Debug, PartialEq, Eq)]
pub struct RepeatStmt {
    pub span: Span,
    pub condition: Expr,
    pub block: Block,
}

/// A `while` loop.
#[derive(Debug, PartialEq, Eq)]
pub struct WhileStmt {
    pub span: Span,
    pub condition: Expr,
    pub block: Block,
}

/// The name of a function statement: `a.b.c:m`.
#[derive(Debug, PartialEq, Eq)]
pub struct FunctionAssignName {
    pub names: Vec<Name>,
    pub method_indexer: Option<Name>,
}

/// A `function name(...) ... end` statement.
#[derive(Debug, PartialEq, Eq)]
pub struct FunctionAssign {
    pub span: Span,
    pub name: FunctionAssignName,
    pub params: Vec<FunctionParam>,
    pub body: Block,
}

/// A `return` statement.
#[derive(Debug, PartialEq, Eq)]
pub struct Return {
    pub token: Span,
    pub exprs: Vec<Expr>,
}

/// A `local function` statement.
#[derive(Debug, PartialEq, Eq)]
pub struct LocalFunction {
    pub span: Span,
    pub name: Name,
    pub params: Vec<FunctionParam>,
    pub body: Block,
}

/// A `local` declaration.
#[derive(Debug, PartialEq, Eq)]
pub struct LocalAssign {
    pub span: Span,
    pub names: Vec<Name>,
    pub exprs: Option<Vec<Expr>>,
}

/// A parameter of a function.
#[derive(Debug, PartialEq, Eq)]
pub enum FunctionParam {
    Name(Name),
    Varargs(Span),
}

/// A `do ... end` block.
#[derive(Debug, PartialEq, Eq)]
pub struct DoStmt {
    pub span: Span,
    pub block: Block,
}

/// A statement.
#[derive(Debug, PartialEq, Eq)]
pub enum Stmt {
    Call(Call),
    Do(DoStmt),
    IfStmt(IfStmt),
    GenericFor(GenericFor),
    FunctionAssign(FunctionAssign),
    LocalAssign(LocalAssign),
    LocalFunction(LocalFunction),
    NumericFor(NumericFor),
    Repeat(RepeatStmt),
    While(WhileStmt),
    ValueAssign(ValueAssign),
}

/// A statement that must end a block.
#[derive(Debug, PartialEq, Eq)]
pub enum LastStmt {
    Break(Span),
    Return(Return),
}

/// What a [`Block`] stands for.
pub struct BlockV {
    pub span: Span,
    pub stmts: Seq<StmtV>,
    pub last_stmt: Option<LastStmtV>,
}

/// What a [`Ast`] stands for.
pub struct AstV {
    pub block: BlockV,
}

/// What a [`Unary`] stands for.
pub struct UnaryV {
    pub op: Unop,
    pub expr: Box<ExprV>,
}

/// What a [`Binary`] stands for.
pub struct BinaryV {
    pub left: Box<ExprV>,
    pub op: Binop,
    pub right: Box<ExprV>,
}

/// What a [`AnynomousFunction`] stands for.
pub struct AnynomousFunctionV {
    pub span: Span,
    pub params: Seq<FunctionParamV>,
    pub body: BlockV,
}

/// What a [`Name`] stands for.
pub struct NameV {
    pub span: Span,
    pub name: Seq<u8>,
}

/// What a [`Number`] stands for.
pub struct NumberV {
    pub span: Span,
    pub value: Seq<u8>,
}

/// What a [`Str`] stands for.
pub struct StrV {
    pub span: Span,
    pub value: Seq<u8>,
}

/// What a [`Literal`] stands for.
pub enum LiteralV {
    Bool(Bool),
    Function(AnynomousFunctionV),
    Name(NameV),
    Nil(Span),
    Number(NumberV),
    Str(StrV),
    Table(TableConstructorV),
    Varargs(Span),
}

/// What a [`Expr`] stands for.
pub enum ExprV {
    Binary(BinaryV),
    Literal(LiteralV),
    Parentheses(ParenthesesV),
    Suffixed(SuffixedV),
    Unary(UnaryV),
}

/// What a [`Parentheses`] stands for.
pub struct ParenthesesV {
    pub spanned: Span,
    pub inner: Box<ExprV>,
}

/// What a [`SuffixIndex`] stands for.
pub enum SuffixIndexV {
    Computed { spanned: Span, expr: Box<ExprV> },
    Named { dot: Span, indexer: NameV },
}

/// What a [`CallArgs`] stands for.
pub enum CallArgsV {
    Multiple { parens: Span, exprs: Seq<ExprV> },
    Str(StrV),
    Table(TableConstructorV),
}

/// What a [`MethodCall`] stands for.
pub struct MethodCallV {
    pub colon: Span,
    pub indexer: NameV,
    pub args: Box<CallArgsV>,
}

/// What a [`Call`] stands for.
pub enum CallV {
    Args(CallArgsV),
    Method(MethodCallV),
}

/// What a [`Suffix`] stands for.
pub enum SuffixV {
    Call(CallV),
    Index(SuffixIndexV),
}

/// What a [`Suffixed`] stands for.
pub struct SuffixedV {
    pub prefix: Box<ExprV>,
    pub suffixes: Seq<SuffixV>,
}

/// What a [`TableField`] stands for.
pub enum TableFieldV {
    Computed { span: Span, key: Box<ExprV>, value: Box<ExprV> },
    Named { span: Span, key: NameV, value: Box<ExprV> },
    Value(Box<ExprV>),
}

/// What a [`TableConstructor`] stands for.
pub struct TableConstructorV {
    pub braces: Span,
    pub fields: Seq<TableFieldV>,
}

/// What a [`ValueAssignName`] stands for.
pub enum ValueAssignNameV {
    Name(NameV),
    Suffixed(SuffixedV),
}

/// What a [`ValueAssign`] stands for.
pub struct ValueAssignV {
    pub span: Span,
    pub names: Seq<ValueAssignNameV>,
    pub exprlist: Seq<ExprV>,
}

/// What a [`IfStmtChain`] stands for.
pub struct IfStmtChainV {
    pub span: Span,
    pub condition: ExprV,
    pub block: BlockV,
}

/// What a [`IfStmt`] stands for.
pub struct IfStmtV {
    pub span: Span,
    pub condition: ExprV,
    pub block: BlockV,
    pub chains: Seq<IfStmtChainV>,
    pub else_block: Option<BlockV>,
}

/// What a [`GenericFor`] stands for.
pub struct GenericForV {
    pub span: Span,
    pub names: Seq<NameV>,
    pub exprlist: Seq<ExprV>,
    pub block: BlockV,
}

/// What a [`NumericFor`] stands for.
pub struct NumericForV {
    pub span: Span,
    pub name: NameV,
    pub start: ExprV,
    pub end: ExprV,
    pub step: Option<ExprV>,
    pub block: BlockV,
}

/// What a [`RepeatStmt`] stands for.
pub struct RepeatStmtV {
    pub span: Span,
    pub condition: ExprV,
    pub block: BlockV,
}

/// What a [`WhileStmt`] stands for.
pub struct WhileStmtV {
    pub span: Span,
    pub condition: ExprV,
    pub block: BlockV,
}

/// What a [`FunctionAssignName`] stands for.
pub struct FunctionAssignNameV {
    pub names: Seq<NameV>,
    pub method_indexer: Option<NameV>,
}

/// What a [`FunctionAssign`] stands for.
pub struct FunctionAssignV {
    pub span: Span,
    pub name: FunctionAssignNameV,
    pub params: Seq<FunctionParamV>,
    pub body: BlockV,
}

/// What a [`Return`] stands for.
pub struct ReturnV {
    pub token: Span,
    pub exprs: Seq<ExprV>,
}

/// What a [`LocalFunction`] stands for.
pub struct LocalFunctionV {
    pub span: Span,
    pub name: NameV,
    pub params: Seq<FunctionParamV>,
    pub body: BlockV,
}

/// What a [`LocalAssign`] stands for.
pub struct LocalAssignV {
    pub span: Span,
    pub names: Seq<NameV>,
    pub exprs: Option<Seq<ExprV>>,
}

/// What a [`FunctionParam`] stands for.
pub enum FunctionParamV {
    Name(NameV),
    Varargs(Span),
}

/// What a [`DoStmt`] stands for.
pub struct DoStmtV {
    pub span: Span,
    pub block: BlockV,
}

/// What a [`Stmt`] stands for.
pub enum StmtV {
    Call(CallV),
    Do(DoStmtV),
    IfStmt(IfStmtV),
    GenericFor(GenericForV),
    FunctionAssign(FunctionAssignV),
    LocalAssign(LocalAssignV),
    LocalFunction(LocalFunctionV),
    NumericFor(NumericForV),
    Repeat(RepeatStmtV),
    While(WhileStmtV),
    ValueAssign(ValueAssignV),
}

/// What a [`LastStmt`] stands for.
pub enum LastStmtV {
    Break(Span),
    Return(ReturnV),
}

pub open spec fn block_v(x: Block) -> BlockV
    decreases x,
{
    BlockV {
        span: x.span,
        stmts: stmt_seq_v(x.stmts@),
        last_stmt: match x.last_stmt { Some(v) => Some(last_stmt_v(v)), None => None },
    }
}

pub open spec fn ast_v(x: Ast) -> AstV
    decreases x,
{
    AstV {
        block: block_v(x.block),
    }
}

pub open spec fn unary_v(x: Unary) -> UnaryV
    decreases x,
{
    UnaryV {
        op: x.op,
        expr: Box::new(expr_v(*x.expr)),
    }
}

pub open spec fn binary_v(x: Binary) -> BinaryV
    decreases x,
{
    BinaryV {
        left: Box::new(expr_v(*x.left)),
        op: x.op,
        right: Box::new(expr_v(*x.right)),
    }
}

pub open spec fn anynomous_function_v(x: AnynomousFunction) -> AnynomousFunctionV
    decreases x,
{
    AnynomousFunctionV {
        span: x.span,
        params: function_param_seq_v(x.params@),
        body: block_v(x.body),
    }
}

pub open spec fn name_v(x: Name) -> NameV
    decreases x,
{
    NameV {
        span: x.span,
        name: text_bytes(x.name),
    }
}

pub open spec fn number_v(x: Number) -> NumberV
    decreases x,
{
    NumberV {
        span: x.span,
        value: text_bytes(x.value),
    }
}

pub open spec fn str_v(x: Str) -> StrV
    decreases x,
{
    StrV {
        span: x.span,
        value: text_bytes(x.value),
    }
}

pub open spec fn literal_v(x: Literal) -> LiteralV
    decreases x,
{
    match x {
        Literal::Bool(y) => LiteralV::Bool(y),
        Literal::Function(y) => LiteralV::Function(anynomous_function_v(y)),
        Literal::Name(y) => LiteralV::Name(name_v(y)),
        Literal::Nil(y) => LiteralV::Nil(y),
        Literal::Number(y) => LiteralV::Number(number_v(y)),
        Literal::Str(y) => LiteralV::Str(str_v(y)),
        Literal::Table(y) => LiteralV::Table(table_constructor_v(y)),
        Literal::Varargs(y) => LiteralV::Varargs(y),
    }
}

pub open spec fn expr_v(x: Expr) -> ExprV
    decreases x,
{
    match x {
        Expr::Binary(y) => ExprV::Binary(binary_v(y)),
        Expr::Literal(y) => ExprV::Literal(literal_v(y)),
        Expr::Parentheses(y) => ExprV::Parentheses(parentheses_v(y)),
        Expr::Suffixed(y) => ExprV::Suffixed(suffixed_v(y)),
        Expr::Unary(y) => ExprV::Unary(unary_v(y)),
    }
}

pub open spec fn parentheses_v(x: Parentheses) -> ParenthesesV
    decreases x,
{
    ParenthesesV {
        spanned: x.spanned,
        inner: Box::new(expr_v(*x.inner)),
    }
}

pub open spec fn suffix_index_v(x: SuffixIndex) -> SuffixIndexV
    decreases x,
{
    match x {
        SuffixIndex::Computed { spanned, expr } => SuffixIndexV::Computed { spanned: spanned, expr: Box::new(expr_v(*expr)) },
        SuffixIndex::Named { dot, indexer } => SuffixIndexV::Named { dot: dot, indexer: name_v(indexer) },
    }
}

pub open spec fn call_args_v(x: CallArgs) -> CallArgsV
    decreases x,
{
    match x {
        CallArgs::Multiple { parens, exprs } => CallArgsV::Multiple { parens: parens, exprs: expr_seq_v(exprs@) },
        CallArgs::Str(y) => CallArgsV::Str(str_v(y)),
        CallArgs::Table(y) => CallArgsV::Table(table_constructor_v(y)),
    }
}

pub open spec fn method_call_v(x: MethodCall) -> MethodCallV
    decreases x,
{
    MethodCallV {
        colon: x.colon,
        indexer: name_v(x.indexer),
        args: Box::new(call_args_v(*x.args)),
    }
}

pub open spec fn call_v(x: Call) -> CallV
    decreases x,
{
    match x {
        Call::Args(y) => CallV::Args(call_args_v(y)),
        Call::Method(y) => CallV::Method(method_call_v(y)),
    }
}

pub open spec fn suffix_v(x: Suffix) -> SuffixV
    decreases x,
{
    match x {
        Suffix::Call(y) => SuffixV::Call(call_v(y)),
        Suffix::Index(y) => SuffixV::Index(suffix_index_v(y)),
    }
}

pub open spec fn suffixed_v(x: Suffixed) -> SuffixedV
    decreases x,
{
    SuffixedV {
        prefix: Box::new(expr_v(*x.prefix)),
        suffixes: suffix_seq_v(x.suffixes@),
    }
}

pub open spec fn table_field_v(x: TableField) -> TableFieldV
    decreases x,
{
    match x {
        TableField::Computed { span, key, value } => TableFieldV::Computed { span: span, key: Box::new(expr_v(*key)), value: Box::new(expr_v(*value)) },
        TableField::Named { span, key, value } => TableFieldV::Named { span: span, key: name_v(key), value: Box::new(expr_v(*value)) },
        TableField::Value(y) => TableFieldV::Value(Box::new(expr_v(*y))),
    }
}

pub open spec fn table_constructor_v(x: TableConstructor) -> TableConstructorV
    decreases x,
{
    TableConstructorV {
        braces: x.braces,
        fields: table_field_seq_v(x.fields@),
    }
}

pub open spec fn value_assign_name_v(x: ValueAssignName) -> ValueAssignNameV
    decreases x,
{
    match x {
        ValueAssignName::Name(y) => ValueAssignNameV::Name(name_v(y)),
        ValueAssignName::Suffixed(y) => ValueAssignNameV::Suffixed(suffixed_v(y)),
    }
}

pub open spec fn value_assign_v(x: ValueAssign) -> ValueAssignV
    decreases x,
{
    ValueAssignV {
        span: x.span,
        names: value_assign_name_seq_v(x.names@),
        exprlist: expr_seq_v(x.exprlist@),
    }
}

pub open spec fn if_stmt_chain_v(x: IfStmtChain) -> IfStmtChainV
    decreases x,
{
    IfStmtChainV {
        span: x.span,
        condition: expr_v(x.condition),
        block: block_v(x.block),
    }
}

pub open spec fn if_stmt_v(x: IfStmt) -> IfStmtV
    decreases x,
{
    IfStmtV {
        span: x.span,
        condition: expr_v(x.condition),
        block: block_v(x.block),
        chains: if_stmt_chain_seq_v(x.chains@),
        else_block: match x.else_block { Some(v) => Some(block_v(v)), None => None },
    }
}

pub open spec fn generic_for_v(x: GenericFor) -> GenericForV
    decreases x,
{
    GenericForV {
        span: x.span,
        names: name_seq_v(x.names@),
        exprlist: expr_seq_v(x.exprlist@),
        block: block_v(x.block),
    }
}

pub open spec fn numeric_for_v(x: NumericFor) -> NumericForV
    decreases x,
{
    NumericForV {
        span: x.span,
        name: name_v(x.name),
        start: expr_v(x.start),
        end: expr_v(x.end),
        step: match x.step { Some(v) => Some(expr_v(v)), None => None },
        block: block_v(x.block),
    }
}

pub open spec fn repeat_stmt_v(x: RepeatStmt) -> RepeatStmtV
    decreases x,
{
    RepeatStmtV {
        span: x.span,
        condition: expr_v(x.condition),
        block: block_v(x.block),
    }
}

pub open spec fn while_stmt_v(x: WhileStmt) -> WhileStmtV
    decreases x,
{
    WhileStmtV {
        span: x.span,
        condition: expr_v(x.condition),
        block: block_v(x.block),
    }
}

pub open spec fn function_assign_name_v(x: FunctionAssignName) -> FunctionAssignNameV
    decreases x,
{
    FunctionAssignNameV {
        names: name_seq_v(x.names@),
        method_indexer: match x.method_indexer { Some(v) => Some(name_v(v)), None => None },
    }
}

pub open spec fn function_assign_v(x: FunctionAssign) -> FunctionAssignV
    decreases x,
{
    FunctionAssignV {
        span: x.span,
        name: function_assign_name_v(x.name),
        params: function_param_seq_v(x.params@),
        body: block_v(x.body),
    }
}

pub open spec fn return_v(x: Return) -> ReturnV
    decreases x,
{
    ReturnV {
        token: x.token,
        exprs: expr_seq_v(x.exprs@),
    }
}

pub open spec fn local_function_v(x: LocalFunction) -> LocalFunctionV
    decreases x,
{
    LocalFunctionV {
        span: x.span,
        name: name_v(x.name),
        params: function_param_seq_v(x.params@),
        body: block_v(x.body),
    }
}

pub open spec fn local_assign_v(x: LocalAssign) -> LocalAssignV
    decreases x,
{
    LocalAssignV {
        span: x.span,
        names: name_seq_v(x.names@),
        exprs: match x.exprs { Some(v) => Some(expr_seq_v(v@)), None => None },
    }
}

pub open spec fn function_param_v(x: FunctionParam) -> FunctionParamV
    decreases x,
{
    match x {
        FunctionParam::Name(y) => FunctionParamV::Name(name_v(y)),
        FunctionParam::Varargs(y) => FunctionParamV::Varargs(y),
    }
}

pub open spec fn do_stmt_v(x: DoStmt) -> DoStmtV
    decreases x,
{
    DoStmtV {
        span: x.span,
        block: block_v(x.block),
    }
}

pub open spec fn stmt_v(x: Stmt) -> StmtV
    decreases x,
{
    match x {
        Stmt::Call(y) => StmtV::Call(call_v(y)),
        Stmt::Do(y) => StmtV::Do(do_stmt_v(y)),
        Stmt::IfStmt(y) => StmtV::IfStmt(if_stmt_v(y)),
        Stmt::GenericFor(y) => StmtV::GenericFor(generic_for_v(y)),
        Stmt::FunctionAssign(y) => StmtV::FunctionAssign(function_assign_v(y)),
        Stmt::LocalAssign(y) => StmtV::LocalAssign(local_assign_v(y)),
        Stmt::LocalFunction(y) => StmtV::LocalFunction(local_function_v(y)),
        Stmt::NumericFor(y) => StmtV::NumericFor(numeric_for_v(y)),
        Stmt::Repeat(y) => StmtV::Repeat(repeat_stmt_v(y)),
        Stmt::While(y) => StmtV::While(while_stmt_v(y)),
        Stmt::ValueAssign(y) => StmtV::ValueAssign(value_assign_v(y)),
    }
}

pub open spec fn last_stmt_v(x: LastStmt) -> LastStmtV
    decreases x,
{
    match x {
        LastStmt::Break(y) => LastStmtV::Break(y),
        LastStmt::Return(y) => LastStmtV::Return(return_v(y)),
    }
}

pub open spec fn expr_seq_v(s: Seq<Expr>) -> Seq<ExprV>
    decreases s,
{
    if s.len() == 0 {
        seq![]
    } else {
        expr_seq_v(s.drop_last()).push(expr_v(s.last()))
    }
}

/// The views of a sequence, element by element.
pub broadcast proof fn lemma_expr_seq_v(s: Seq<Expr>)
    ensures
        #[trigger] expr_seq_v(s).len() == s.len(),
        forall|i: int| 0 <= i < s.len() ==> expr_seq_v(s)[i] == expr_v(#[trigger] s[i]),
    decreases s.len(),
{
    if s.len() > 0 {
        lemma_expr_seq_v(s.drop_last());
        assert forall|i: int| 0 <= i < s.len() implies expr_seq_v(s)[i] == expr_v(#[trigger] s[i]) by {
            if i < s.len() - 1 {
                assert(s.drop_last()[i] == s[i]);
            }
        }
    }
}

pub open spec fn function_param_seq_v(s: Seq<FunctionParam>) -> Seq<FunctionParamV>
    decreases s,
{
    if s.len() == 0 {
        seq![]
    } else {
        function_param_seq_v(s.drop_last()).push(function_param_v(s.last()))
    }
}

/// The views of a sequence, element by element.
pub broadcast proof fn lemma_function_param_seq_v(s: Seq<FunctionParam>)
    ensures
        #[trigger] function_param_seq_v(s).len() == s.len(),
        forall|i: int| 0 <= i < s.len() ==> function_param_seq_v(s)[i] == function_param_v(#[trigger] s[i]),
    decreases s.len(),
{
    if s.len() > 0 {
        lemma_function_param_seq_v(s.drop_last());
        assert forall|i: int| 0 <= i < s.len() implies function_param_seq_v(s)[i] == function_param_v(#[trigger] s[i]) by {
            if i < s.len() - 1 {
                assert(s.drop_last()[i] == s[i]);
            }
        }
    }
}

pub open spec fn if_stmt_chain_seq_v(s: Seq<IfStmtChain>) -> Seq<IfStmtChainV>
    decreases s,
{
    if s.len() == 0 {
        seq![]
    } else {
        if_stmt_chain_seq_v(s.drop_last()).push(if_stmt_chain_v(s.last()))
    }
}

/// The views of a sequence, element by element.
pub broadcast proof fn lemma_if_stmt_chain_seq_v(s: Seq<IfStmtChain>)
    ensures
        #[trigger] if_stmt_chain_seq_v(s).len() == s.len(),
        forall|i: int| 0 <= i < s.len() ==> if_stmt_chain_seq_v(s)[i] == if_stmt_chain_v(#[trigger] s[i]),
    decreases s.len(),
{
    if s.len() > 0 {
        lemma_if_stmt_chain_seq_v(s.drop_last());
        assert forall|i: int| 0 <= i < s.len() implies if_stmt_chain_seq_v(s)[i] == if_stmt_chain_v(#[trigger] s[i]) by {
            if i < s.len() - 1 {
                assert(s.drop_last()[i] == s[i]);
            }
        }
    }
}

pub open spec fn name_seq_v(s: Seq<Name>) -> Seq<NameV>
    decreases s,
{
    if s.len() == 0 {
        seq![]
    } else {
        name_seq_v(s.drop_last()).push(name_v(s.last()))
    }
}

/// The views of a sequence, element by element.
pub broadcast proof fn lemma_name_seq_v(s: Seq<Name>)
    ensures
        #[trigger] name_seq_v(s).len() == s.len(),
        forall|i: int| 0 <= i < s.len() ==> name_seq_v(s)[i] == name_v(#[trigger] s[i]),
    decreases s.len(),
{
    if s.len() > 0 {
        lemma_name_seq_v(s.drop_last());
        assert forall|i: int| 0 <= i < s.len() implies name_seq_v(s)[i] == name_v(#[trigger] s[i]) by {
            if i < s.len() - 1 {
                assert(s.drop_last()[i] == s[i]);
            }
        }
    }
}

pub open spec fn stmt_seq_v(s: Seq<Stmt>) -> Seq<StmtV>
    decreases s,
{
    if s.len() == 0 {
        seq![]
    } else {
        stmt_seq_v(s.drop_last()).push(stmt_v(s.last()))
    }
}

/// The views of a sequence, element by element.
pub broadcast proof fn lemma_stmt_seq_v(s: Seq<Stmt>)
    ensures
        #[trigger] stmt_seq_v(s).len() == s.len(),
        forall|i: int| 0 <= i < s.len() ==> stmt_seq_v(s)[i] == stmt_v(#[trigger] s[i]),
    decreases s.len(),
{
    if s.len() > 0 {
        lemma_stmt_seq_v(s.drop_last());
        assert forall|i: int| 0 <= i < s.len() implies stmt_seq_v(s)[i] == stmt_v(#[trigger] s[i]) by {
            if i < s.len() - 1 {
                assert(s.drop_last()[i] == s[i]);
            }
        }
    }
}

pub open spec fn suffix_seq_v(s: Seq<Suffix>) -> Seq<SuffixV>
    decreases s,
{
    if s.len() == 0 {
        seq![]
    } else {
        suffix_seq_v(s.drop_last()).push(suffix_v(s.last()))
    }
}

/// The views of a sequence, element by element.
pub broadcast proof fn lemma_suffix_seq_v(s: Seq<Suffix>)
    ensures
        #[trigger] suffix_seq_v(s).len() == s.len(),
        forall|i: int| 0 <= i < s.len() ==> suffix_seq_v(s)[i] == suffix_v(#[trigger] s[i]),
    decreases s.len(),
{
    if s.len() > 0 {
        lemma_suffix_seq_v(s.drop_last());
        assert forall|i: int| 0 <= i < s.len() implies suffix_seq_v(s)[i] == suffix_v(#[trigger] s[i]) by {
            if i < s.len() - 1 {
                assert(s.drop_last()[i] == s[i]);
            }
        }
    }
}

pub open spec fn table_field_seq_v(s: Seq<TableField>) -> Seq<TableFieldV>
    decreases s,
{
    if s.len() == 0 {
        seq![]
    } else {
        table_field_seq_v(s.drop_last()).push(table_field_v(s.last()))
    }
}

/// The views of a sequence, element by element.
pub broadcast proof fn lemma_table_field_seq_v(s: Seq<TableField>)
    ensures
        #[trigger] table_field_seq_v(s).len() == s.len(),
        forall|i: int| 0 <= i < s.len() ==> table_field_seq_v(s)[i] == table_field_v(#[trigger] s[i]),
    decreases s.len(),
{
    if s.len() > 0 {
        lemma_table_field_seq_v(s.drop_last());
        assert forall|i: int| 0 <= i < s.len() implies table_field_seq_v(s)[i] == table_field_v(#[trigger] s[i]) by {
            if i < s.len() - 1 {
                assert(s.drop_last()[i] == s[i]);
            }
        }
    }
}

pub open spec fn value_assign_name_seq_v(s: Seq<ValueAssignName>) -> Seq<ValueAssignNameV>
    decreases s,
{
    if s.len() == 0 {
        seq![]
    } else {
        value_assign_name_seq_v(s.drop_last()).push(value_assign_name_v(s.last()))
    }
}

/// The views of a sequence, element by element.
pub broadcast proof fn lemma_value_assign_name_seq_v(s: Seq<ValueAssignName>)
    ensures
        #[trigger] value_assign_name_seq_v(s).len() == s.len(),
        forall|i: int| 0 <= i < s.len() ==> value_assign_name_seq_v(s)[i] == value_assign_name_v(#[trigger] s[i]),
    decreases s.len(),
{
    if s.len() > 0 {
        lemma_value_assign_name_seq_v(s.drop_last());
        assert forall|i: int| 0 <= i < s.len() implies value_assign_name_seq_v(s)[i] == value_assign_name_v(#[trigger] s[i]) by {
            if i < s.len() - 1 {
                assert(s.drop_last()[i] == s[i]);
            }
        }
    }
}

impl View for Block {
    type V = BlockV;

    open spec fn view(&self) -> BlockV {
        block_v(*self)
    }
}

impl View for Ast {
    type V = AstV;

    open spec fn view(&self) -> AstV {
        ast_v(*self)
    }
}

impl View for Unary {
    type V = UnaryV;

    open spec fn view(&self) -> UnaryV {
        unary_v(*self)
    }
}

impl View for Binary {
    type V = BinaryV;

    open spec fn view(&self) -> BinaryV {
        binary_v(*self)
    }
}

impl View for AnynomousFunction {
    type V = AnynomousFunctionV;

    open spec fn view(&self) -> AnynomousFunctionV {
        anynomous_function_v(*self)
    }
}

impl View for Name {
    type V = NameV;

    open spec fn view(&self) -> NameV {
        name_v(*self)
    }
}

impl View for Number {
    type V = NumberV;

    open spec fn view(&self) -> NumberV {
        number_v(*self)
    }
}

impl View for Str {
    type V = StrV;

    open spec fn view(&self) -> StrV {
        str_v(*self)
    }
}

impl View for Literal {
    type V = LiteralV;

    open spec fn view(&self) -> LiteralV {
        literal_v(*self)
    }
}

impl View for Expr {
    type V = ExprV;

    open spec fn view(&self) -> ExprV {
        expr_v(*self)
    }
}

impl View for Parentheses {
    type V = ParenthesesV;

    open spec fn view(&self) -> ParenthesesV {
        parentheses_v(*self)
    }
}

impl View for SuffixIndex {
    type V = SuffixIndexV;

    open spec fn view(&self) -> SuffixIndexV {
        suffix_index_v(*self)
    }
}

impl View for CallArgs {
    type V = CallArgsV;

    open spec fn view(&self) -> CallArgsV {
        call_args_v(*self)
    }
}

impl View for MethodCall {
    type V = MethodCallV;

    open spec fn view(&self) -> MethodCallV {
        method_call_v(*self)
    }
}

impl View for Call {
    type V = CallV;

    open spec fn view(&self) -> CallV {
        call_v(*self)
    }
}

impl View for Suffix {
    type V = SuffixV;

    open spec fn view(&self) -> SuffixV {
        suffix_v(*self)
    }
}

impl View for Suffixed {
    type V = SuffixedV;

    open spec fn view(&self) -> SuffixedV {
        suffixed_v(*self)
    }
}

impl View for TableField {
    type V = TableFieldV;

    open spec fn view(&self) -> TableFieldV {
        table_field_v(*self)
    }
}

impl View for TableConstructor {
    type V = TableConstructorV;

    open spec fn view(&self) -> TableConstructorV {
        table_constructor_v(*self)
    }
}

impl View for ValueAssignName {
    type V = ValueAssignNameV;

    open spec fn view(&self) -> ValueAssignNameV {
        value_assign_name_v(*self)
    }
}

impl View for ValueAssign {
    type V = ValueAssignV;

    open spec fn view(&self) -> ValueAssignV {
        value_assign_v(*self)
    }
}

impl View for IfStmtChain {
    type V = IfStmtChainV;

    open spec fn view(&self) -> IfStmtChainV {
        if_stmt_chain_v(*self)
    }
}

impl View for IfStmt {
    type V = IfStmtV;

    open spec fn view(&self) -> IfStmtV {
        if_stmt_v(*self)
    }
}

impl View for GenericFor {
    type V = GenericForV;

    open spec fn view(&self) -> GenericForV {
        generic_for_v(*self)
    }
}

impl View for NumericFor {
    type V = NumericForV;

    open spec fn view(&self) -> NumericForV {
        numeric_for_v(*self)
    }
}

impl View for RepeatStmt {
    type V = RepeatStmtV;

    open spec fn view(&self) -> RepeatStmtV {
        repeat_stmt_v(*self)
    }
}

impl View for WhileStmt {
    type V = WhileStmtV;

    open spec fn view(&self) -> WhileStmtV {
        while_stmt_v(*self)
    }
}

impl View for FunctionAssignName {
    type V = FunctionAssignNameV;

    open spec fn view(&self) -> FunctionAssignNameV {
        function_assign_name_v(*self)
    }
}

impl View for FunctionAssign {
    type V = FunctionAssignV;

    open spec fn view(&self) -> FunctionAssignV {
        function_assign_v(*self)
    }
}

impl View for Return {
    type V = ReturnV;

    open spec fn view(&self) -> ReturnV {
        return_v(*self)
    }
}

impl View for LocalFunction {
    type V = LocalFunctionV;

    open spec fn view(&self) -> LocalFunctionV {
        local_function_v(*self)
    }
}

impl View for LocalAssign {
    type V = LocalAssignV;

    open spec fn view(&self) -> LocalAssignV {
        local_assign_v(*self)
    }
}

impl View for FunctionParam {
    type V = FunctionParamV;

    open spec fn view(&self) -> FunctionParamV {
        function_param_v(*self)
    }
}

impl View for DoStmt {
    type V = DoStmtV;

    open spec fn view(&self) -> DoStmtV {
        do_stmt_v(*self)
    }
}

impl View for Stmt {
    type V = StmtV;

    open spec fn view(&self) -> StmtV {
        stmt_v(*self)
    }
}

impl View for LastStmt {
    type V = LastStmtV;

    open spec fn view(&self) -> LastStmtV {
        last_stmt_v(*self)
    }
}

/// The element-wise facts about the views of sequences.
pub broadcast group group_seq_views {
    lemma_expr_seq_v,
    lemma_function_param_seq_v,
    lemma_if_stmt_chain_seq_v,
    lemma_name_seq_v,
    lemma_stmt_seq_v,
    lemma_suffix_seq_v,
    lemma_table_field_seq_v,
    lemma_value_assign_name_seq_v,
}

} // verus!
