//! Parsing statements and blocks, each function proved to do what its
//! rule in `rules` says.

use crate::ast::{
    expr_seq_v, expr_span, if_stmt_chain_seq_v, span_of_expr, span_of_suffixed, stmt_seq_v,
    value_assign_name_seq_v, Block, BlockV, Call, DoStmt, Expr, FunctionAssign, GenericFor,
    IfStmt, IfStmtChain, KeywordType, LastStmt, Literal, LocalAssign, LocalFunction, Name,
    NumericFor, RepeatStmt, Return, Stmt, Suffix, SymbolType, TokenType, ValueAssign,
    ValueAssignName, WhileStmt,
};
use crate::location::Span;
use crate::parser::expressions::expr_ok;
use crate::parser::machine::{
    is_keyword_token, is_symbol_token, lemma_if_stmt_chains_push, lemma_stmts_push,
    lemma_value_assign_names_push, parsed, parsed_exprs, plain, Parser,
};
use crate::parser::rules::{
    advanced, assignment, assignment_names, assignment_values, start_of, block, block_last, block_stmts, do_stmt, end_keyword,
    expr_stmt, for_body, for_lookalikes, function_stmt, generic_for, if_chain, if_chains,
    if_else, if_stmt, last_stmt, local_assign, local_function, local_lookalikes, moved,
    numeric_for, numeric_for_step, repeat_stmt, stmt, value_assign_name, while_stmt,
};
use crate::parser::state::{progress, ParseError, ParseErrorMessage, ParserV};
use crate::tokenizer::lemma_stream_fill;
use vstd::prelude::*;

verus! {

/// The view of the result of reading an optional `return` or `break`.
pub open spec fn parsed_last(r: Result<Option<LastStmt>, Option<ParseError>>) -> Result<
    Option<crate::ast::LastStmtV>,
    Option<crate::parser::state::ParseErrorV>,
> {
    match r {
        Ok(Some(l)) => Ok(Some(l@)),
        Ok(None) => Ok(None),
        Err(e) => Err(crate::parser::state::opt_error(e)),
    }
}

/// The view of the result of reading an optional block.
pub open spec fn parsed_opt_block(r: Result<Option<Block>, Option<ParseError>>) -> Result<
    Option<BlockV>,
    Option<crate::parser::state::ParseErrorV>,
> {
    match r {
        Ok(Some(l)) => Ok(Some(l@)),
        Ok(None) => Ok(None),
        Err(e) => Err(crate::parser::state::opt_error(e)),
    }
}

/// The view of the result of reading an optional expression.
pub open spec fn parsed_opt_expr(r: Result<Option<Expr>, Option<ParseError>>) -> Result<
    Option<crate::ast::ExprV>,
    Option<crate::parser::state::ParseErrorV>,
> {
    match r {
        Ok(Some(l)) => Ok(Some(l@)),
        Ok(None) => Ok(None),
        Err(e) => Err(crate::parser::state::opt_error(e)),
    }
}

/// The view of the result of reading a loop body.
pub open spec fn parsed_body(r: Result<(Span, Block), Option<ParseError>>) -> Result<
    (Span, BlockV),
    Option<crate::parser::state::ParseErrorV>,
> {
    match r {
        Ok((sp, blk)) => Ok((sp, blk@)),
        Err(e) => Err(crate::parser::state::opt_error(e)),
    }
}

/// The view of the result of reading statements.
pub open spec fn parsed_stmts(r: Result<Vec<Stmt>, Option<ParseError>>) -> Result<
    Seq<crate::ast::StmtV>,
    Option<crate::parser::state::ParseErrorV>,
> {
    match r {
        Ok(v) => Ok(stmt_seq_v(v@)),
        Err(e) => Err(crate::parser::state::opt_error(e)),
    }
}

/// The view of the result of reading assignment targets.
pub open spec fn parsed_targets(r: Result<Vec<ValueAssignName>, Option<ParseError>>) -> Result<
    Seq<crate::ast::ValueAssignNameV>,
    Option<crate::parser::state::ParseErrorV>,
> {
    match r {
        Ok(v) => Ok(value_assign_name_seq_v(v@)),
        Err(e) => Err(crate::parser::state::opt_error(e)),
    }
}

/// The span of an assignment target can be computed.
pub open spec fn assign_name_ok(n: crate::ast::ValueAssignNameV) -> bool {
    n matches crate::ast::ValueAssignNameV::Suffixed(x) ==> crate::ast::expr_span_fits(
        crate::ast::ExprV::Suffixed(x),
    ) && crate::ast::suffixed_span(x) is Some
}

/// Where the first target of an assignment starts.
#[verifier::spinoff_prover]
fn assign_start(first: &ValueAssignName) -> (r: Span)
    requires
        assign_name_ok(first@),
    ensures
        r == crate::ast::value_assign_name_span(first@)->Some_0,
{
    match first {
        ValueAssignName::Name(n) => n.span,
        ValueAssignName::Suffixed(x) => {
            match span_of_suffixed(x) {
                Some(sp) => sp,
                None => Span::dummy(),
            }
        },
    }
}

impl<'a> Parser<'a> {
    /// A block: statements, then maybe `return` or `break`. Inside it
    /// `is_in_loop` is `do_loop`; it is restored when the block is done.
    #[verifier::spinoff_prover]
    #[verifier::rlimit(100)]
    pub fn parse_block(&mut self, do_loop: bool) -> (r: Result<Block, Option<ParseError>>)
        requires
            old(self).wf(),
        ensures
            final(self).wf(),
            final(self).source() == old(self).source(),
            (parsed(r), final(self).view()) == block(old(self).bytes(), old(self).view(), do_loop),
            moved(old(self).bytes(), old(self).view(), final(self).view()),
            r matches Ok(blk) ==> blk.span.end <= progress(final(self).view()) + 2,
        decreases old(self).bytes().len() + 2 - progress(old(self).view()), 50int,
    {
        proof {
            reveal(block);
        }
        let ghost b = self.bytes();
        let ghost s = self.view();
        let last_loop = self.is_in_loop;
        self.is_in_loop = do_loop;
        assert(self.view() == (ParserV { is_in_loop: do_loop, ..s }));
        let start: usize = match self.peek_token() {
            Err(e) => return Err(Some(e)),
            Ok(Some(t)) => t.span().start(),
            Ok(None) => 0,
        };
        let ghost s1 = self.view();
        assert(start == start_of(s1.tokens.current));
        let stmts = match self.parse_block_stmts() {
            Err(e) => return Err(e),
            Ok(v) => v,
        };
        let ghost s2 = self.view();
        let last_stmt = match self.parse_block_last() {
            Err(e) => return Err(e),
            Ok(l) => l,
        };
        let ghost s3 = self.view();
        let end: usize = match self.peek_token() {
            Err(e) => return Err(Some(e)),
            Ok(Some(t)) => t.span().start(),
            Ok(None) => 0,
        };
        let ghost s4 = self.view();
        assert(end == start_of(s4.tokens.current));
        assert(start <= b.len() + 2 && end <= b.len() + 2);
        self.is_in_loop = last_loop;
        Ok(Block { span: Span::new(start, end), stmts, last_stmt })
    }

    /// The statements of a block, up to a token that ends it.
    #[verifier::spinoff_prover]
    #[verifier::loop_isolation(false)]
    fn parse_block_stmts(&mut self) -> (r: Result<Vec<Stmt>, Option<ParseError>>)
        requires
            old(self).wf(),
        ensures
            final(self).wf(),
            final(self).source() == old(self).source(),
            (parsed_stmts(r), final(self).view()) == block_stmts(
                old(self).bytes(),
                old(self).view(),
                seq![],
            ),
            moved(old(self).bytes(), old(self).view(), final(self).view()),
        decreases old(self).bytes().len() + 2 - progress(old(self).view()), 49int,
    {
        let ghost b = self.bytes();
        let ghost s0 = self.view();
        let mut stmts: Vec<Stmt> = Vec::new();
        loop
            invariant
                self.wf(),
                self.source() == old(self).source(),
                b == self.bytes(),
                moved(b, s0, self.view()),
                block_stmts(b, self.view(), stmt_seq_v(stmts@)) == block_stmts(b, s0, seq![]),
            decreases b.len() + 2 - progress(self.view()),
        {
            proof {
                reveal(block_stmts);
            }
            let done = match self.is_token_last_stmt_part() {
                Err(e) => return Err(e),
                Ok(d) => d,
            };
            if done {
                return Ok(stmts);
            }
            let st = match self.parse_stmt() {
                Err(e) => return Err(e),
                Ok(st) => st,
            };
            proof {
                lemma_stmts_push(stmts@, st);
            }
            stmts.push(st);
        }
    }

    /// The `return` or `break` that may end a block, and a `;` after it.
    #[verifier::spinoff_prover]
    fn parse_block_last(&mut self) -> (r: Result<Option<LastStmt>, Option<ParseError>>)
        requires
            old(self).wf(),
        ensures
            final(self).wf(),
            final(self).source() == old(self).source(),
            (parsed_last(r), final(self).view()) == block_last(old(self).bytes(), old(self).view()),
            moved(old(self).bytes(), old(self).view(), final(self).view()),
        decreases old(self).bytes().len() + 2 - progress(old(self).view()), 47int,
    {
        proof {
            reveal(block_last);
        }
        let last = match self.peek_token() {
            Err(e) => return Err(Some(e)),
            Ok(t) => is_keyword_token(t, KeywordType::Break) || is_keyword_token(
                t,
                KeywordType::Return,
            ),
        };
        if !last {
            return Ok(None);
        }
        let stmt = match self.parse_last_stmt() {
            Err(e) => return Err(e),
            Ok(s) => s,
        };
        match self.is_symbol(SymbolType::Semicolon) {
            Err(e) => return Err(Some(e)),
            Ok(true) => {
                self.take_token();
            },
            Ok(false) => {},
        }
        Ok(Some(stmt))
    }

    /// `break` (inside a loop only) or `return` with its values.
    #[verifier::spinoff_prover]
    pub fn parse_last_stmt(&mut self) -> (r: Result<LastStmt, Option<ParseError>>)
        requires
            old(self).wf(),
        ensures
            final(self).wf(),
            final(self).source() == old(self).source(),
            (parsed(r), final(self).view()) == last_stmt(old(self).bytes(), old(self).view()),
            moved(old(self).bytes(), old(self).view(), final(self).view()),
            r is Ok ==> advanced(old(self).bytes(), old(self).view(), final(self).view()),
        decreases old(self).bytes().len() + 2 - progress(old(self).view()), 46int,
    {
        proof {
            reveal(last_stmt);
        }
        let (is_break, is_return) = match self.peek_token() {
            Err(e) => return Err(Some(e)),
            Ok(t) => (
                is_keyword_token(t, KeywordType::Break),
                is_keyword_token(t, KeywordType::Return),
            ),
        };
        if is_break {
            if self.is_in_loop {
                match self.take_token() {
                    Some(t) => Ok(LastStmt::Break(t.span())),
                    None => Err(None),
                }
            } else {
                Err(
                    Some(
                        ParseError {
                            position: self.tokens.position(),
                            message: ParseErrorMessage::InvalidBreakUse,
                        },
                    ),
                )
            }
        } else if is_return {
            let token = match self.take_token() {
                Some(t) => t.span(),
                None => return Err(None),
            };
            let semicolon = match self.is_symbol(SymbolType::Semicolon) {
                Err(e) => return Err(Some(e)),
                Ok(v) => v,
            };
            let empty = if semicolon {
                true
            } else {
                match self.is_token_last_stmt_part() {
                    Err(e) => return Err(e),
                    Ok(v) => v,
                }
            };
            let exprs = if empty {
                Vec::new()
            } else {
                match self.parse_exprlist() {
                    Err(e) => return Err(e),
                    Ok(l) => l,
                }
            };
            proof {
                if empty {
                    assert(expr_seq_v(exprs@) =~= seq![]);
                }
            }
            Ok(LastStmt::Return(Return { token, exprs }))
        } else {
            Err(None)
        }
    }

    /// A statement, and a `;` after it.
    #[verifier::spinoff_prover]
    #[verifier::rlimit(80)]
    pub fn parse_stmt(&mut self) -> (r: Result<Stmt, Option<ParseError>>)
        requires
            old(self).wf(),
        ensures
            final(self).wf(),
            final(self).source() == old(self).source(),
            (parsed(r), final(self).view()) == stmt(old(self).bytes(), old(self).view()),
            moved(old(self).bytes(), old(self).view(), final(self).view()),
            r is Ok ==> advanced(old(self).bytes(), old(self).view(), final(self).view()),
        decreases old(self).bytes().len() + 2 - progress(old(self).view()), 48int,
    {
        proof {
            reveal(stmt);
        }
        let (kind, span): (u8, Span) = match self.peek_token() {
            Err(e) => return Err(Some(e)),
            Ok(None) => (0, Span::dummy()),
            Ok(Some(t)) => match t.token_type() {
                TokenType::Keyword(KeywordType::If) => (1, t.span()),
                TokenType::Keyword(KeywordType::While) => (2, t.span()),
                TokenType::Keyword(KeywordType::Do) => (3, t.span()),
                TokenType::Keyword(KeywordType::For) => (4, t.span()),
                TokenType::Keyword(KeywordType::Repeat) => (5, t.span()),
                TokenType::Keyword(KeywordType::Function) => (6, t.span()),
                TokenType::Keyword(KeywordType::Local) => (7, t.span()),
                _ => (0, t.span()),
            },
        };
        if kind != 0 {
            self.take_token();
        }
        let st = if kind == 1 {
            match self.parse_if_stmt(span) {
                Err(e) => return Err(e),
                Ok(x) => Stmt::IfStmt(x),
            }
        } else if kind == 2 {
            match self.parse_while_stmt(span) {
                Err(e) => return Err(e),
                Ok(x) => Stmt::While(x),
            }
        } else if kind == 3 {
            match self.parse_do_stmt(span) {
                Err(e) => return Err(e),
                Ok(x) => Stmt::Do(x),
            }
        } else if kind == 4 {
            match self.parse_for_lookalikes(span) {
                Err(e) => return Err(e),
                Ok(x) => x,
            }
        } else if kind == 5 {
            match self.parse_repeat_stmt(span) {
                Err(e) => return Err(e),
                Ok(x) => Stmt::Repeat(x),
            }
        } else if kind == 6 {
            match self.parse_function_stmt(span) {
                Err(e) => return Err(e),
                Ok(x) => Stmt::FunctionAssign(x),
            }
        } else if kind == 7 {
            match self.parse_local_lookalikes(span) {
                Err(e) => return Err(e),
                Ok(x) => x,
            }
        } else {
            match self.parse_expr_stmt() {
                Err(e) => return Err(e),
                Ok(x) => x,
            }
        };
        match self.is_symbol(SymbolType::Semicolon) {
            Err(e) => return Err(Some(e)),
            Ok(true) => {
                self.take_token();
            },
            Ok(false) => {},
        }
        Ok(st)
    }

    /// `end` after a block; the span from `start` to the end of `end`.
    #[verifier::spinoff_prover]
    fn parse_end_keyword(&mut self, start: Span) -> (r: Result<Span, Option<ParseError>>)
        requires
            old(self).wf(),
        ensures
            final(self).wf(),
            final(self).source() == old(self).source(),
            (plain(r), final(self).view()) == end_keyword(old(self).bytes(), old(self).view(), start),
            moved(old(self).bytes(), old(self).view(), final(self).view()),
            r is Ok ==> advanced(old(self).bytes(), old(self).view(), final(self).view()),
    {
        proof {
            reveal(end_keyword);
        }
        let end: usize = match self.peek_token() {
            Err(e) => return Err(Some(e)),
            Ok(Some(t)) => t.span().end(),
            Ok(None) => 0,
        };
        proof {
            lemma_stream_fill(self.bytes(), old(self).view().tokens);
        }
        match self.expect_keyword(KeywordType::End, "end") {
            Err(e) => Err(e),
            Ok(_) => Ok(start.with_end(end)),
        }
    }

    /// `while` (at `span`, already taken) condition `do` block `end`.
    #[verifier::spinoff_prover]
    fn parse_while_stmt(&mut self, span: Span) -> (r: Result<WhileStmt, Option<ParseError>>)
        requires
            old(self).wf(),
        ensures
            final(self).wf(),
            final(self).source() == old(self).source(),
            (parsed(r), final(self).view()) == while_stmt(old(self).bytes(), old(self).view(), span),
            moved(old(self).bytes(), old(self).view(), final(self).view()),
            r is Ok ==> advanced(old(self).bytes(), old(self).view(), final(self).view()),
        decreases old(self).bytes().len() + 2 - progress(old(self).view()), 36int,
    {
        proof {
            reveal(while_stmt);
        }
        let condition = match self.parse_expr() {
            Err(e) => return Err(e),
            Ok(e) => e,
        };
        match self.expect_keyword(KeywordType::Do, "do") {
            Err(e) => return Err(e),
            Ok(_) => {},
        }
        let block = match self.parse_block(true) {
            Err(e) => return Err(e),
            Ok(b) => b,
        };
        match self.parse_end_keyword(span) {
            Err(e) => Err(e),
            Ok(sp) => Ok(WhileStmt { span: sp, condition, block }),
        }
    }

    /// `do` (at `span`, already taken) block `end`.
    #[verifier::spinoff_prover]
    fn parse_do_stmt(&mut self, span: Span) -> (r: Result<DoStmt, Option<ParseError>>)
        requires
            old(self).wf(),
        ensures
            final(self).wf(),
            final(self).source() == old(self).source(),
            (parsed(r), final(self).view()) == do_stmt(old(self).bytes(), old(self).view(), span),
            moved(old(self).bytes(), old(self).view(), final(self).view()),
            r is Ok ==> advanced(old(self).bytes(), old(self).view(), final(self).view()),
        decreases old(self).bytes().len() + 2 - progress(old(self).view()), 51int,
    {
        proof {
            reveal(do_stmt);
        }
        let in_loop = self.is_in_loop;
        let block = match self.parse_block(in_loop) {
            Err(e) => return Err(e),
            Ok(b) => b,
        };
        match self.parse_end_keyword(span) {
            Err(e) => Err(e),
            Ok(sp) => Ok(DoStmt { span: sp, block }),
        }
    }

    /// `repeat` (at `span`, already taken) block `until` condition.
    #[verifier::spinoff_prover]
    fn parse_repeat_stmt(&mut self, span: Span) -> (r: Result<RepeatStmt, Option<ParseError>>)
        requires
            old(self).wf(),
        ensures
            final(self).wf(),
            final(self).source() == old(self).source(),
            (parsed(r), final(self).view()) == repeat_stmt(old(self).bytes(), old(self).view(), span),
            moved(old(self).bytes(), old(self).view(), final(self).view()),
            r is Ok ==> advanced(old(self).bytes(), old(self).view(), final(self).view()),
        decreases old(self).bytes().len() + 2 - progress(old(self).view()), 52int,
    {
        proof {
            reveal(repeat_stmt);
        }
        let block = match self.parse_block(true) {
            Err(e) => return Err(e),
            Ok(b) => b,
        };
        match self.expect_keyword(KeywordType::Until, "until") {
            Err(e) => return Err(e),
            Ok(_) => {},
        }
        let condition = match self.parse_expr() {
            Err(e) => return Err(e),
            Ok(e) => e,
        };
        let end = match span_of_expr(&condition) {
            Some(sp) => sp.end(),
            None => 0,
        };
        Ok(RepeatStmt { span: span.with_end(end), condition, block })
    }

    /// `if` (at `start_span`, already taken) condition `then` block,
    /// `elseif` branches, maybe `else` block, `end`.
    #[verifier::loop_isolation(false)]
    #[verifier::spinoff_prover]
    pub fn parse_if_stmt(&mut self, start_span: Span) -> (r: Result<IfStmt, Option<ParseError>>)
        requires
            old(self).wf(),
        ensures
            final(self).wf(),
            final(self).source() == old(self).source(),
            (parsed(r), final(self).view()) == if_stmt(
                old(self).bytes(),
                old(self).view(),
                start_span,
            ),
            moved(old(self).bytes(), old(self).view(), final(self).view()),
            r is Ok ==> advanced(old(self).bytes(), old(self).view(), final(self).view()),
        decreases old(self).bytes().len() + 2 - progress(old(self).view()), 40int,
    {
        proof {
            reveal(if_stmt);
            reveal(if_chains);
        }
        let ghost b = self.bytes();
        let ghost s0 = self.view();
        let condition = match self.parse_expr() {
            Err(e) => return Err(e),
            Ok(e) => e,
        };
        match self.expect_keyword(KeywordType::Then, "then") {
            Err(e) => return Err(e),
            Ok(_) => {},
        }
        let in_loop = self.is_in_loop;
        let block = match self.parse_block(in_loop) {
            Err(e) => return Err(e),
            Ok(b) => b,
        };
        let ghost s3 = self.view();
        let mut chains: Vec<IfStmtChain> = Vec::new();
        loop
            invariant
                self.wf(),
                self.source() == old(self).source(),
                b == self.bytes(),
                advanced(b, s0, s3),
                moved(b, s3, self.view()),
                if_chains(b, self.view(), if_stmt_chain_seq_v(chains@)) == if_chains(
                    b,
                    s3,
                    seq![],
                ),
            decreases b.len() + 2 - progress(self.view()),
        {
            proof {
                reveal(if_stmt);
                reveal(if_chains);
            }
            let more = match self.is_keyword(KeywordType::ElseIf) {
                Err(e) => return Err(Some(e)),
                Ok(v) => v,
            };
            if !more {
                break;
            }
            let chain = match self.parse_if_stmt_chain() {
                Err(e) => return Err(e),
                Ok(c) => c,
            };
            proof {
                lemma_if_stmt_chains_push(chains@, chain);
            }
            chains.push(chain);
        }
        let else_block = match self.parse_if_else() {
            Err(e) => return Err(e),
            Ok(b) => b,
        };
        match self.parse_end_keyword(start_span) {
            Err(e) => Err(e),
            Ok(sp) => Ok(IfStmt { span: sp, condition, block, chains, else_block }),
        }
    }

    /// One `elseif` condition `then` block; the `elseif` is current.
    #[verifier::spinoff_prover]
    pub fn parse_if_stmt_chain(&mut self) -> (r: Result<IfStmtChain, Option<ParseError>>)
        requires
            old(self).wf(),
            old(self).view().tokens.current is Some,
        ensures
            final(self).wf(),
            final(self).source() == old(self).source(),
            (parsed(r), final(self).view()) == if_chain(old(self).bytes(), old(self).view()),
            moved(old(self).bytes(), old(self).view(), final(self).view()),
            r is Ok ==> advanced(old(self).bytes(), old(self).view(), final(self).view()),
        decreases old(self).bytes().len() + 2 - progress(old(self).view()), 38int,
    {
        proof {
            reveal(if_chain);
        }
        let span = match self.take_token() {
            Some(t) => t.span(),
            None => return Err(None),
        };
        let condition = match self.parse_expr() {
            Err(e) => return Err(e),
            Ok(e) => e,
        };
        match self.expect_keyword(KeywordType::Then, "then") {
            Err(e) => return Err(e),
            Ok(_) => {},
        }
        let in_loop = self.is_in_loop;
        let block = match self.parse_block(in_loop) {
            Err(e) => return Err(e),
            Ok(b) => b,
        };
        Ok(IfStmtChain { span: span.with_end(block.span.end()), condition, block })
    }

    /// The `else` block of an `if`, if there is one.
    #[verifier::spinoff_prover]
    fn parse_if_else(&mut self) -> (r: Result<Option<Block>, Option<ParseError>>)
        requires
            old(self).wf(),
        ensures
            final(self).wf(),
            final(self).source() == old(self).source(),
            (parsed_opt_block(r), final(self).view()) == if_else(old(self).bytes(), old(self).view()),
            moved(old(self).bytes(), old(self).view(), final(self).view()),
        decreases old(self).bytes().len() + 2 - progress(old(self).view()), 37int,
    {
        proof {
            reveal(if_else);
        }
        let present = match self.is_keyword(KeywordType::Else) {
            Err(e) => return Err(Some(e)),
            Ok(v) => v,
        };
        if !present {
            return Ok(None);
        }
        match self.next_token() {
            Err(e) => return Err(Some(e)),
            Ok(_) => {},
        }
        let in_loop = self.is_in_loop;
        match self.parse_block(in_loop) {
            Err(e) => Err(e),
            Ok(b) => Ok(Some(b)),
        }
    }

    /// `for` (at `span`, already taken): a numeric or a generic loop.
    #[verifier::spinoff_prover]
    pub fn parse_for_lookalikes(&mut self, span: Span) -> (r: Result<Stmt, Option<ParseError>>)
        requires
            old(self).wf(),
        ensures
            final(self).wf(),
            final(self).source() == old(self).source(),
            (parsed(r), final(self).view()) == for_lookalikes(
                old(self).bytes(),
                old(self).view(),
                span,
            ),
            moved(old(self).bytes(), old(self).view(), final(self).view()),
            r is Ok ==> advanced(old(self).bytes(), old(self).view(), final(self).view()),
        decreases old(self).bytes().len() + 2 - progress(old(self).view()), 35int,
    {
        proof {
            reveal(for_lookalikes);
        }
        let name = match self.parse_name() {
            Err(e) => return Err(e),
            Ok(n) => n,
        };
        let numeric = match self.peek_token() {
            Err(e) => return Err(Some(e)),
            Ok(t) => is_symbol_token(t, SymbolType::Equal),
        };
        if numeric {
            match self.parse_numeric_for(span, name) {
                Err(e) => Err(e),
                Ok(x) => Ok(Stmt::NumericFor(x)),
            }
        } else {
            match self.parse_generic_for(span, name) {
                Err(e) => Err(e),
                Ok(x) => Ok(Stmt::GenericFor(x)),
            }
        }
    }

    /// `= start, end [, step] do block end` of a numeric `for`; the `=` is
    /// current.
    #[verifier::spinoff_prover]
    pub fn parse_numeric_for(&mut self, span: Span, name: Name) -> (r: Result<
        NumericFor,
        Option<ParseError>,
    >)
        requires
            old(self).wf(),
        ensures
            final(self).wf(),
            final(self).source() == old(self).source(),
            (parsed(r), final(self).view()) == numeric_for(
                old(self).bytes(),
                old(self).view(),
                span,
                name@,
            ),
            moved(old(self).bytes(), old(self).view(), final(self).view()),
            r is Ok ==> advanced(old(self).bytes(), old(self).view(), final(self).view()),
        decreases old(self).bytes().len() + 2 - progress(old(self).view()), 34int,
    {
        proof {
            reveal(numeric_for);
        }
        match self.next_token() {
            Err(e) => return Err(Some(e)),
            Ok(_) => {},
        }
        let start = match self.parse_expr() {
            Err(e) => return Err(e),
            Ok(e) => e,
        };
        match self.expect_symbol(SymbolType::Comma, ",") {
            Err(e) => return Err(e),
            Ok(_) => {},
        }
        let end = match self.parse_expr() {
            Err(e) => return Err(e),
            Ok(e) => e,
        };
        let step = match self.parse_numeric_for_step() {
            Err(e) => return Err(e),
            Ok(s) => s,
        };
        match self.parse_for_body(span) {
            Err(e) => Err(e),
            Ok((sp, block)) => Ok(NumericFor { span: sp, name, start, end, step, block }),
        }
    }

    /// The optional `, step` of a numeric `for`.
    #[verifier::spinoff_prover]
    fn parse_numeric_for_step(&mut self) -> (r: Result<Option<Expr>, Option<ParseError>>)
        requires
            old(self).wf(),
        ensures
            final(self).wf(),
            final(self).source() == old(self).source(),
            (parsed_opt_expr(r), final(self).view()) == numeric_for_step(
                old(self).bytes(),
                old(self).view(),
            ),
            moved(old(self).bytes(), old(self).view(), final(self).view()),
        decreases old(self).bytes().len() + 2 - progress(old(self).view()), 33int,
    {
        proof {
            reveal(numeric_for_step);
        }
        let present = match self.is_symbol(SymbolType::Comma) {
            Err(e) => return Err(Some(e)),
            Ok(v) => v,
        };
        if !present {
            return Ok(None);
        }
        match self.next_token() {
            Err(e) => return Err(Some(e)),
            Ok(_) => {},
        }
        match self.parse_expr() {
            Err(e) => Err(e),
            Ok(e) => Ok(Some(e)),
        }
    }

    /// `do block end` of a `for` loop whose `for` was at `span`.
    #[verifier::spinoff_prover]
    fn parse_for_body(&mut self, span: Span) -> (r: Result<(Span, Block), Option<ParseError>>)
        requires
            old(self).wf(),
        ensures
            final(self).wf(),
            final(self).source() == old(self).source(),
            (parsed_body(r), final(self).view()) == for_body(old(self).bytes(), old(self).view(), span),
            moved(old(self).bytes(), old(self).view(), final(self).view()),
            r is Ok ==> advanced(old(self).bytes(), old(self).view(), final(self).view()),
        decreases old(self).bytes().len() + 2 - progress(old(self).view()), 32int,
    {
        proof {
            reveal(for_body);
        }
        match self.expect_keyword(KeywordType::Do, "do") {
            Err(e) => return Err(e),
            Ok(_) => {},
        }
        let block = match self.parse_block(true) {
            Err(e) => return Err(e),
            Ok(b) => b,
        };
        match self.parse_end_keyword(span) {
            Err(e) => Err(e),
            Ok(sp) => Ok((sp, block)),
        }
    }

    /// `[, names] in exprs do block end` of a generic `for` whose first
    /// name is `name`.
    #[verifier::spinoff_prover]
    pub fn parse_generic_for(&mut self, span: Span, name: Name) -> (r: Result<
        GenericFor,
        Option<ParseError>,
    >)
        requires
            old(self).wf(),
        ensures
            final(self).wf(),
            final(self).source() == old(self).source(),
            (parsed(r), final(self).view()) == generic_for(
                old(self).bytes(),
                old(self).view(),
                span,
                name@,
            ),
            moved(old(self).bytes(), old(self).view(), final(self).view()),
            r is Ok ==> advanced(old(self).bytes(), old(self).view(), final(self).view()),
        decreases old(self).bytes().len() + 2 - progress(old(self).view()), 31int,
    {
        proof {
            reveal(generic_for);
        }
        let first = vec![name];
        proof {
            assert(crate::ast::name_seq_v(first@) == seq![name@]) by {
                reveal_with_fuel(crate::ast::name_seq_v, 2);
                assert(first@.drop_last() =~= Seq::<Name>::empty());
            }
        }
        let names = match self.parse_name_list_rest(first) {
            Err(e) => return Err(e),
            Ok(n) => n,
        };
        match self.expect_keyword(KeywordType::In, "in") {
            Err(e) => return Err(e),
            Ok(_) => {},
        }
        let exprlist = match self.parse_exprlist() {
            Err(e) => return Err(e),
            Ok(l) => l,
        };
        match self.parse_for_body(span) {
            Err(e) => Err(e),
            Ok((sp, block)) => Ok(GenericFor { span: sp, names, exprlist, block }),
        }
    }

    /// `function` (at `start_span`, already taken) name, parameters, body,
    /// `end`.
    #[verifier::spinoff_prover]
    pub fn parse_function_stmt(&mut self, start_span: Span) -> (r: Result<
        FunctionAssign,
        Option<ParseError>,
    >)
        requires
            old(self).wf(),
        ensures
            final(self).wf(),
            final(self).source() == old(self).source(),
            (parsed(r), final(self).view()) == function_stmt(
                old(self).bytes(),
                old(self).view(),
                start_span,
            ),
            moved(old(self).bytes(), old(self).view(), final(self).view()),
            r is Ok ==> advanced(old(self).bytes(), old(self).view(), final(self).view()),
        decreases old(self).bytes().len() + 2 - progress(old(self).view()), 30int,
    {
        proof {
            reveal(function_stmt);
        }
        let name = match self.parse_function_assign_name() {
            Err(e) => return Err(e),
            Ok(n) => n,
        };
        let prev_varargs = self.has_varargs;
        let params = match self.parse_function_params() {
            Err(e) => return Err(e),
            Ok(p) => p,
        };
        let body = match self.parse_block(false) {
            Err(e) => return Err(e),
            Ok(b) => b,
        };
        let span = match self.parse_end_keyword(start_span) {
            Err(e) => return Err(e),
            Ok(sp) => sp,
        };
        self.has_varargs = prev_varargs;
        Ok(FunctionAssign { span, name, params, body })
    }

    /// `local` (at `span`, already taken): a local function or local names.
    #[verifier::spinoff_prover]
    pub fn parse_local_lookalikes(&mut self, span: Span) -> (r: Result<Stmt, Option<ParseError>>)
        requires
            old(self).wf(),
        ensures
            final(self).wf(),
            final(self).source() == old(self).source(),
            (parsed(r), final(self).view()) == local_lookalikes(
                old(self).bytes(),
                old(self).view(),
                span,
            ),
            moved(old(self).bytes(), old(self).view(), final(self).view()),
            r is Ok ==> advanced(old(self).bytes(), old(self).view(), final(self).view()),
        decreases old(self).bytes().len() + 2 - progress(old(self).view()), 29int,
    {
        proof {
            reveal(local_lookalikes);
        }
        let function = match self.peek_token() {
            Err(e) => return Err(Some(e)),
            Ok(t) => is_keyword_token(t, KeywordType::Function),
        };
        if function {
            match self.parse_local_function(span) {
                Err(e) => Err(e),
                Ok(x) => Ok(Stmt::LocalFunction(x)),
            }
        } else {
            match self.parse_local_assign(span) {
                Err(e) => Err(e),
                Ok(x) => Ok(Stmt::LocalAssign(x)),
            }
        }
    }

    /// `function name (params) body end` after `local` (at `span`).
    #[verifier::spinoff_prover]
    pub fn parse_local_function(&mut self, span: Span) -> (r: Result<
        LocalFunction,
        Option<ParseError>,
    >)
        requires
            old(self).wf(),
        ensures
            final(self).wf(),
            final(self).source() == old(self).source(),
            (parsed(r), final(self).view()) == local_function(
                old(self).bytes(),
                old(self).view(),
                span,
            ),
            moved(old(self).bytes(), old(self).view(), final(self).view()),
            r is Ok ==> advanced(old(self).bytes(), old(self).view(), final(self).view()),
        decreases old(self).bytes().len() + 2 - progress(old(self).view()), 28int,
    {
        proof {
            reveal(local_function);
        }
        match self.next_token() {
            Err(e) => return Err(Some(e)),
            Ok(_) => {},
        }
        let name = match self.parse_name() {
            Err(e) => return Err(e),
            Ok(n) => n,
        };
        let prev_varargs = self.has_varargs;
        let params = match self.parse_function_params() {
            Err(e) => return Err(e),
            Ok(p) => p,
        };
        let body = match self.parse_block(false) {
            Err(e) => return Err(e),
            Ok(b) => b,
        };
        match self.expect_keyword(KeywordType::End, "end") {
            Err(e) => return Err(e),
            Ok(_) => {},
        }
        self.has_varargs = prev_varargs;
        Ok(LocalFunction { span: span.with_start(body.span.end()), name, params, body })
    }

    /// `names [= exprs]` after `local` (at `span`).
    #[verifier::spinoff_prover]
    pub fn parse_local_assign(&mut self, span: Span) -> (r: Result<LocalAssign, Option<ParseError>>)
        requires
            old(self).wf(),
        ensures
            final(self).wf(),
            final(self).source() == old(self).source(),
            (parsed(r), final(self).view()) == local_assign(
                old(self).bytes(),
                old(self).view(),
                span,
            ),
            moved(old(self).bytes(), old(self).view(), final(self).view()),
            r is Ok ==> advanced(old(self).bytes(), old(self).view(), final(self).view()),
        decreases old(self).bytes().len() + 2 - progress(old(self).view()), 27int,
    {
        proof {
            reveal(local_assign);
        }
        let names = match self.parse_name_list() {
            Err(e) => return Err(e),
            Ok(n) => n,
        };
        let assigned = match self.peek_token() {
            Err(e) => return Err(Some(e)),
            Ok(t) => is_symbol_token(t, SymbolType::Equal),
        };
        let exprs = if assigned {
            match self.next_token() {
                Err(e) => return Err(Some(e)),
                Ok(_) => {},
            }
            match self.parse_exprlist() {
                Err(e) => return Err(e),
                Ok(l) => Some(l),
            }
        } else {
            None
        };
        let last = names.len() - 1;
        let mut end = names[last].span.end();
        match &exprs {
            Some(es) => if es.len() > 0 {
                match span_of_expr(&es[es.len() - 1]) {
                    Some(sp) => {
                        end = sp.end();
                    },
                    None => {},
                }
            },
            None => {},
        }
        Ok(LocalAssign { span: span.with_end(end), names, exprs })
    }

    /// A target of an assignment: a name or a suffixed expression.
    #[verifier::spinoff_prover]
    fn parse_value_assign_name(&mut self) -> (r: Result<ValueAssignName, Option<ParseError>>)
        requires
            old(self).wf(),
        ensures
            final(self).wf(),
            final(self).source() == old(self).source(),
            (parsed(r), final(self).view()) == value_assign_name(
                old(self).bytes(),
                old(self).view(),
            ),
            moved(old(self).bytes(), old(self).view(), final(self).view()),
            r is Ok ==> advanced(old(self).bytes(), old(self).view(), final(self).view()),
        decreases old(self).bytes().len() + 2 - progress(old(self).view()), 42int,
    {
        proof {
            reveal(value_assign_name);
        }
        match self.parse_primary_expr() {
            Err(e) => Err(e),
            Ok(Expr::Suffixed(x)) => Ok(ValueAssignName::Suffixed(x)),
            Ok(Expr::Literal(Literal::Name(n))) => Ok(ValueAssignName::Name(n)),
            Ok(_) => Err(Some(self.expected("assign name"))),
        }
    }

    /// A call statement or an assignment.
    #[verifier::spinoff_prover]
    pub fn parse_expr_stmt(&mut self) -> (r: Result<Stmt, Option<ParseError>>)
        requires
            old(self).wf(),
        ensures
            final(self).wf(),
            final(self).source() == old(self).source(),
            (parsed(r), final(self).view()) == expr_stmt(old(self).bytes(), old(self).view()),
            moved(old(self).bytes(), old(self).view(), final(self).view()),
            r is Ok ==> advanced(old(self).bytes(), old(self).view(), final(self).view()),
        decreases old(self).bytes().len() + 2 - progress(old(self).view()), 45int,
    {
        proof {
            reveal(expr_stmt);
        }
        let primary = match self.parse_primary_expr() {
            Err(e) => return Err(e),
            Ok(e) => e,
        };
        let first = match primary {
            Expr::Suffixed(x) => {
                let ghost before = x.suffixes@;
                proof {
                    crate::ast::lemma_suffix_seq_v(before);
                }
                let mut x = x;
                match x.suffixes.pop() {
                    Some(Suffix::Call(call)) => return Ok(Stmt::Call(call)),
                    Some(Suffix::Index(index)) => {
                        x.suffixes.push(Suffix::Index(index));
                        proof {
                            assert(x.suffixes@ =~= before);
                        }
                        ValueAssignName::Suffixed(x)
                    },
                    None => return Err(None),
                }
            },
            Expr::Literal(Literal::Name(n)) => ValueAssignName::Name(n),
            _ => return Err(Some(self.expected("assign or call statement"))),
        };
        self.parse_assignment(first)
    }

    /// The rest of an assignment whose first target is `first`.
    #[verifier::spinoff_prover]
    fn parse_assignment(&mut self, first: ValueAssignName) -> (r: Result<Stmt, Option<ParseError>>)
        requires
            old(self).wf(),
            assign_name_ok(first@),
        ensures
            final(self).wf(),
            final(self).source() == old(self).source(),
            (parsed(r), final(self).view()) == assignment(
                old(self).bytes(),
                old(self).view(),
                first@,
            ),
            moved(old(self).bytes(), old(self).view(), final(self).view()),
            r is Ok ==> advanced(old(self).bytes(), old(self).view(), final(self).view()),
        decreases old(self).bytes().len() + 2 - progress(old(self).view()), 44int,
    {
        proof {
            reveal(assignment);
        }
        let assign = match self.peek_token() {
            Err(e) => return Err(Some(e)),
            Ok(t) => is_symbol_token(t, SymbolType::Comma) || is_symbol_token(
                t,
                SymbolType::Equal,
            ),
        };
        if !assign {
            return Err(Some(self.expected("assign or call statement")));
        }
        let start = assign_start(&first);
        let names = match self.parse_assignment_names(first) {
            Err(e) => return Err(e),
            Ok(n) => n,
        };
        self.parse_assignment_values(start, names)
    }

    /// `= exprs` of an assignment to `names`, the first of which starts at
    /// `start`.
    #[verifier::spinoff_prover]
    fn parse_assignment_values(&mut self, start: Span, names: Vec<ValueAssignName>) -> (r: Result<
        Stmt,
        Option<ParseError>,
    >)
        requires
            old(self).wf(),
        ensures
            final(self).wf(),
            final(self).source() == old(self).source(),
            (parsed(r), final(self).view()) == assignment_values(
                old(self).bytes(),
                old(self).view(),
                start,
                value_assign_name_seq_v(names@),
            ),
            moved(old(self).bytes(), old(self).view(), final(self).view()),
            r is Ok ==> advanced(old(self).bytes(), old(self).view(), final(self).view()),
        decreases old(self).bytes().len() + 2 - progress(old(self).view()), 41int,
    {
        proof {
            reveal(assignment_values);
        }
        let equal = match self.peek_token() {
            Err(e) => return Err(Some(e)),
            Ok(t) => is_symbol_token(t, SymbolType::Equal),
        };
        if !equal {
            return Err(Some(self.expected("=")));
        }
        match self.next_token() {
            Err(e) => return Err(Some(e)),
            Ok(_) => {},
        }
        let rhs = match self.parse_exprlist() {
            Err(e) => return Err(e),
            Ok(l) => l,
        };
        let end = match span_of_expr(&rhs[rhs.len() - 1]) {
            Some(sp) => sp.end(),
            None => 0,
        };
        Ok(Stmt::ValueAssign(ValueAssign { span: start.with_end(end), names, exprlist: rhs }))
    }

    /// The targets of an assignment: `first`, then more, each after a comma.
    #[verifier::loop_isolation(false)]
    #[verifier::spinoff_prover]
    fn parse_assignment_names(&mut self, first: ValueAssignName) -> (r: Result<
        Vec<ValueAssignName>,
        Option<ParseError>,
    >)
        requires
            old(self).wf(),
        ensures
            final(self).wf(),
            final(self).source() == old(self).source(),
            (parsed_targets(r), final(self).view()) == assignment_names(
                old(self).bytes(),
                old(self).view(),
                seq![first@],
            ),
            moved(old(self).bytes(), old(self).view(), final(self).view()),
        decreases old(self).bytes().len() + 2 - progress(old(self).view()), 43int,
    {
        proof {
            reveal(assignment_names);
        }
        let ghost b = self.bytes();
        let ghost s0 = self.view();
        let ghost first_v = first@;
        let mut names: Vec<ValueAssignName> = Vec::new();
        proof {
            lemma_value_assign_names_push(names@, first);
        }
        names.push(first);
        proof {
            assert(value_assign_name_seq_v(names@) =~= seq![first_v]);
        }
        loop
            invariant
                self.wf(),
                self.source() == old(self).source(),
                b == self.bytes(),
                moved(b, s0, self.view()),
                assignment_names(b, self.view(), value_assign_name_seq_v(names@))
                    == assignment_names(b, s0, seq![first_v]),
            decreases b.len() + 2 - progress(self.view()),
        {
            proof {
                reveal(assignment_names);
            }
            let comma = match self.peek_token() {
                Err(e) => return Err(Some(e)),
                Ok(t) => is_symbol_token(t, SymbolType::Comma),
            };
            if !comma {
                return Ok(names);
            }
            self.take_token();
            let n = match self.parse_value_assign_name() {
                Err(e) => return Err(e),
                Ok(n) => n,
            };
            proof {
                lemma_value_assign_names_push(names@, n);
            }
            names.push(n);
        }
    }
}

} // verus!
