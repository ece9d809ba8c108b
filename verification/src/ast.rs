//! The syntax tree and the tokens it is built from.

mod builders;
mod nodes;
mod ops;
mod spanned;
mod spans;
mod symbols;
mod tokens;

pub use ops::{Binop, BinopKind, Bool, Unop, UnopKind};
pub use spanned::{span_of_expr, span_of_suffixed, Spanned};
pub use spans::{
    call_args_span, call_span, end_at, expr_span, expr_span_fits, function_assign_name_span,
    function_assign_name_span_fits, last_stmt_span, literal_span, method_call_span, return_span,
    return_span_fits, start_at, stmt_span, stmt_span_fits, suffix_index_span, suffix_span,
    suffix_span_fits, suffixed_span, value_assign_name_span,
};
pub use symbols::{
    lemma_encode_ascii, lemma_keyword_str_round_trip, lemma_keyword_text_bytes,
    lemma_keyword_text_round_trip, lemma_symbol_str_round_trip, lemma_symbol_text_bytes,
    lemma_symbol_text_round_trip, KeywordType, SymbolType,
};
pub use tokens::{text_bytes, InvalidType, Token, TokenType, TokenTypeV, TokenV};
pub use nodes::{
    AnynomousFunction, AnynomousFunctionV, Ast, AstV, Binary, BinaryV, Block, BlockV, Call, CallArgs, CallArgsV, CallV, DoStmt, DoStmtV, Expr, ExprV, FunctionAssign, FunctionAssignName, FunctionAssignNameV, FunctionAssignV, FunctionParam, FunctionParamV, GenericFor, GenericForV, IfStmt, IfStmtChain, IfStmtChainV, IfStmtV, LastStmt, LastStmtV, Literal, LiteralV, LocalAssign, LocalAssignV, LocalFunction, LocalFunctionV, MethodCall, MethodCallV, Name, NameV, Number, NumberV, NumericFor, NumericForV, Parentheses, ParenthesesV, RepeatStmt, RepeatStmtV, Return, ReturnV, Stmt, StmtV, Str, StrV, Suffix, SuffixIndex, SuffixIndexV, SuffixV, Suffixed, SuffixedV, TableConstructor, TableConstructorV, TableField, TableFieldV, Unary, UnaryV, ValueAssign, ValueAssignName, ValueAssignNameV, ValueAssignV, WhileStmt, WhileStmtV,
};
pub use nodes::{
    anynomous_function_v, ast_v, binary_v, block_v, call_args_v, call_v, do_stmt_v, expr_seq_v, expr_v, function_assign_name_v, function_assign_v, function_param_seq_v, function_param_v, generic_for_v, if_stmt_chain_seq_v, if_stmt_chain_v, if_stmt_v, last_stmt_v, lemma_expr_seq_v, lemma_function_param_seq_v, lemma_if_stmt_chain_seq_v, lemma_name_seq_v, lemma_stmt_seq_v, lemma_suffix_seq_v, lemma_table_field_seq_v, lemma_value_assign_name_seq_v, literal_v, local_assign_v, local_function_v, method_call_v, name_seq_v, name_v, number_v, numeric_for_v, parentheses_v, repeat_stmt_v, return_v, stmt_seq_v, stmt_v, str_v, suffix_index_v, suffix_seq_v, suffix_v, suffixed_v, table_constructor_v, table_field_seq_v, table_field_v, unary_v, value_assign_name_seq_v, value_assign_name_v, value_assign_v, while_stmt_v, group_seq_views,
};
