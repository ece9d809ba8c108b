//! Parsing expressions, each function proved to do what its rule in
//! `rules` says.

use crate::ast::{
    call_args_span, expr_seq_v, expr_span, expr_span_fits, span_of_expr, suffix_seq_v,
    suffix_span, suffix_span_fits, table_field_seq_v, AnynomousFunction, Binary, Bool, Call,
    CallArgs, CallArgsV, Expr, ExprV, KeywordType, Literal, MethodCall, Name, Number,
    Parentheses, Str, Suffix, SuffixIndex, SuffixV, Suffixed, SymbolType, TableConstructor,
    TableField, TokenType, Unary,
};
use crate::location::Span;
use crate::parser::machine::{
    is_symbol_token, lemma_exprs_push, lemma_suffixs_push, lemma_table_fields_push, parsed,
    parsed_exprs, Parser,
};
use crate::parser::rules::{
    advanced, anon_fn, call_args, call_args_parens, complex, complex_rest, expr, exprlist,
    exprlist_rest, moved, noncomplex, prefix, primary, primary_rest, simple, suffix, table,
    table_close,
    table_field, table_fields,
};
use crate::parser::state::{progress, ParseError, ParseErrorMessage};
use vstd::prelude::*;
use vstd::string::StringSliceAdditionalSpecFns;

verus! {

/// The span of an expression can be computed, and it ends no further than
/// `2 * p1 - p0 + 4` when the expression was read from progress `p0` to
/// `p1` (each level of nesting adds one to the end of a span, and takes at
/// least one byte of input).
pub open spec fn expr_ok(e: ExprV, p0: int, p1: int) -> bool {
    &&& expr_span_fits(e)
    &&& expr_span(e) matches Some(sp) && sp.end <= 2 * p1 - p0 + 4
}

/// The span of a suffix can be computed and ends close to `p1`.
pub open spec fn suffix_ok(x: SuffixV, p1: int) -> bool {
    &&& suffix_span_fits(x)
    &&& suffix_span(x) matches Some(sp) && sp.end <= p1 + 3
}

/// The span of call arguments ends close to `p1`.
pub open spec fn call_args_ok(a: CallArgsV, p1: int) -> bool {
    call_args_span(a) matches Some(sp) && sp.end <= p1 + 2
}

impl<'a> Parser<'a> {
    /// One or more expressions separated by commas; an expression that
    /// starts with `...` ends the list.
    #[verifier::loop_isolation(false)]
    #[verifier::spinoff_prover]
    pub fn parse_exprlist(&mut self) -> (r: Result<Vec<Expr>, Option<ParseError>>)
        requires
            old(self).wf(),
        ensures
            final(self).wf(),
            final(self).source() == old(self).source(),
            (parsed_exprs(r), final(self).view()) == exprlist(old(self).bytes(), old(self).view()),
            moved(old(self).bytes(), old(self).view(), final(self).view()),
            r is Ok ==> advanced(old(self).bytes(), old(self).view(), final(self).view()),
            r matches Ok(es) ==> es.len() > 0 && expr_ok(
                es@.last()@,
                progress(old(self).view()),
                progress(final(self).view()),
            ),
        decreases old(self).bytes().len() + 2 - progress(old(self).view()), 24int,
    {
        proof {
            reveal(exprlist);
            reveal(exprlist_rest);
        }
        let ghost b = self.bytes();
        let ghost s0 = self.view();
        let first = match self.parse_expr() {
            Err(e) => return Err(e),
            Ok(e) => e,
        };
        let ghost s1 = self.view();
        let mut exprs: Vec<Expr> = Vec::new();
        proof {
            lemma_exprs_push(exprs@, first);
        }
        exprs.push(first);
        proof {
            assert(expr_seq_v(exprs@) =~= seq![first@]);
        }
        loop
            invariant
                self.wf(),
                self.source() == old(self).source(),
                b == self.bytes(),
                advanced(b, s0, self.view()),
                exprs.len() > 0,
                expr_ok(exprs@.last()@, progress(s0), progress(self.view())),
                exprlist_rest(b, self.view(), expr_seq_v(exprs@)) == exprlist(b, s0),
            decreases b.len() + 2 - progress(self.view()),
        {
            proof {
                reveal(exprlist);
                reveal(exprlist_rest);
            }
            let ghost s = self.view();
            let comma = match self.peek_token() {
                Err(e) => return Err(Some(e)),
                Ok(t) => is_symbol_token(t, SymbolType::Comma),
            };
            if !comma {
                return Ok(exprs);
            }
            match self.next_token() {
                Err(e) => return Err(Some(e)),
                Ok(_) => {},
            }
            let stop = match self.is_symbol(SymbolType::DotDotDot) {
                Err(e) => return Err(Some(e)),
                Ok(v) => v,
            };
            let e = match self.parse_expr() {
                Err(e) => return Err(e),
                Ok(e) => e,
            };
            proof {
                lemma_exprs_push(exprs@, e);
            }
            exprs.push(e);
            if stop {
                return Ok(exprs);
            }
        }
    }

    /// An expression.
    #[verifier::spinoff_prover]
    pub fn parse_expr(&mut self) -> (r: Result<Expr, Option<ParseError>>)
        requires
            old(self).wf(),
        ensures
            final(self).wf(),
            final(self).source() == old(self).source(),
            (parsed(r), final(self).view()) == expr(old(self).bytes(), old(self).view()),
            moved(old(self).bytes(), old(self).view(), final(self).view()),
            r is Ok ==> advanced(old(self).bytes(), old(self).view(), final(self).view()),
            r matches Ok(e) ==> expr_ok(
                e@,
                progress(old(self).view()),
                progress(final(self).view()),
            ),
        decreases old(self).bytes().len() + 2 - progress(old(self).view()), 20int,
    {
        proof {
            reveal(expr);
        }
        self.parse_complex_expr(1)
    }

    /// An expression whose binary operators bind at least as tight as
    /// `min_precedence`.
    #[verifier::loop_isolation(false)]
    #[verifier::spinoff_prover]
    #[verifier::rlimit(40)]
    pub fn parse_complex_expr(&mut self, min_precedence: usize) -> (r: Result<Expr, Option<ParseError>>)
        requires
            old(self).wf(),
        ensures
            final(self).wf(),
            final(self).source() == old(self).source(),
            (parsed(r), final(self).view()) == complex(
                old(self).bytes(),
                old(self).view(),
                min_precedence,
            ),
            moved(old(self).bytes(), old(self).view(), final(self).view()),
            r is Ok ==> advanced(old(self).bytes(), old(self).view(), final(self).view()),
            r matches Ok(e) ==> expr_ok(
                e@,
                progress(old(self).view()),
                progress(final(self).view()),
            ),
        decreases old(self).bytes().len() + 2 - progress(old(self).view()), 19int,
    {
        proof {
            reveal(complex);
            reveal(complex_rest);
        }
        let ghost b = self.bytes();
        let ghost s0 = self.view();
        let mut expr = match self.parse_non_complex_expr() {
            Err(e) => return Err(e),
            Ok(e) => e,
        };
        loop
            invariant
                self.wf(),
                self.source() == old(self).source(),
                b == self.bytes(),
                advanced(b, s0, self.view()),
                expr_ok(expr@, progress(s0), progress(self.view())),
                complex_rest(b, self.view(), expr@, min_precedence) == complex(
                    b,
                    s0,
                    min_precedence,
                ),
            decreases b.len() + 2 - progress(self.view()),
        {
            proof {
                reveal(complex);
                reveal(complex_rest);
            }
            let op = match self.binop() {
                Ok(op) => op,
                Err(_) => return Ok(expr),
            };
            let order = op.kind().order();
            if order < min_precedence {
                return Ok(expr);
            }
            match self.next_token() {
                Err(e) => return Err(Some(e)),
                Ok(_) => {},
            }
            let next_min = if op.kind().is_right_associative() {
                order
            } else {
                order + 1
            };
            let right = match self.parse_complex_expr(next_min) {
                Err(e) => return Err(e),
                Ok(e) => e,
            };
            expr = Expr::Binary(Binary { left: Box::new(expr), op, right: Box::new(right) });
        }
    }

    /// A unary operation, or a simple expression.
    #[verifier::spinoff_prover]
    pub fn parse_non_complex_expr(&mut self) -> (r: Result<Expr, Option<ParseError>>)
        requires
            old(self).wf(),
        ensures
            final(self).wf(),
            final(self).source() == old(self).source(),
            (parsed(r), final(self).view()) == noncomplex(old(self).bytes(), old(self).view()),
            moved(old(self).bytes(), old(self).view(), final(self).view()),
            r is Ok ==> advanced(old(self).bytes(), old(self).view(), final(self).view()),
            r matches Ok(e) ==> expr_ok(
                e@,
                progress(old(self).view()),
                progress(final(self).view()),
            ),
        decreases old(self).bytes().len() + 2 - progress(old(self).view()), 17int,
    {
        proof {
            reveal(noncomplex);
        }
        match self.unop() {
            Ok(op) => {
                let e = match self.parse_complex_expr(op.kind().order()) {
                    Err(e) => return Err(e),
                    Ok(e) => e,
                };
                Ok(Expr::Unary(Unary { op, expr: Box::new(e) }))
            },
            Err(_) => self.parse_simple_expr(),
        }
    }

    /// A literal, a function, a table, `...`, or a primary expression.
    #[verifier::spinoff_prover]
    #[verifier::rlimit(40)]
    pub fn parse_simple_expr(&mut self) -> (r: Result<Expr, Option<ParseError>>)
        requires
            old(self).wf(),
        ensures
            final(self).wf(),
            final(self).source() == old(self).source(),
            (parsed(r), final(self).view()) == simple(old(self).bytes(), old(self).view()),
            moved(old(self).bytes(), old(self).view(), final(self).view()),
            r is Ok ==> advanced(old(self).bytes(), old(self).view(), final(self).view()),
            r matches Ok(e) ==> expr_ok(
                e@,
                progress(old(self).view()),
                progress(final(self).view()),
            ),
        decreases old(self).bytes().len() + 2 - progress(old(self).view()), 16int,
    {
        proof {
            reveal(simple);
        }
        let (kind, span, text): (u8, Span, String) = match self.peek_token() {
            Err(e) => return Err(Some(e)),
            Ok(None) => (0, Span::dummy(), String::new()),
            Ok(Some(t)) => match t.token_type() {
                TokenType::Str(v) => (1, t.span(), v.clone()),
                TokenType::Keyword(KeywordType::Nil) => (2, t.span(), String::new()),
                TokenType::Keyword(KeywordType::True) => (3, t.span(), String::new()),
                TokenType::Keyword(KeywordType::False) => (4, t.span(), String::new()),
                TokenType::Keyword(KeywordType::Function) => (5, t.span(), String::new()),
                TokenType::Symbol(SymbolType::OpenBrace) => (6, t.span(), String::new()),
                TokenType::Symbol(SymbolType::DotDotDot) => (7, t.span(), String::new()),
                TokenType::Number(v) => (8, t.span(), v.clone()),
                _ => (0, t.span(), String::new()),
            },
        };
        if kind == 1 {
            self.next_token();
            Ok(Expr::Literal(Literal::Str(Str { span, value: text })))
        } else if kind == 2 {
            self.next_token();
            Ok(Expr::Literal(Literal::Nil(span)))
        } else if kind == 3 {
            self.next_token();
            Ok(Expr::Literal(Literal::Bool(Bool::new(span, true))))
        } else if kind == 4 {
            self.next_token();
            Ok(Expr::Literal(Literal::Bool(Bool::new(span, false))))
        } else if kind == 5 {
            self.next_token();
            match self.parse_anynomous_function(span) {
                Err(e) => Err(e),
                Ok(f) => Ok(Expr::Literal(Literal::Function(f))),
            }
        } else if kind == 6 {
            match self.parse_table() {
                Err(e) => Err(e),
                Ok(t) => Ok(Expr::Literal(Literal::Table(t))),
            }
        } else if kind == 7 {
            if self.has_varargs {
                self.next_token();
                Ok(Expr::Literal(Literal::Varargs(span)))
            } else {
                Err(
                    Some(
                        ParseError {
                            position: self.tokens.position(),
                            message: ParseErrorMessage::InvalidVarargsUse,
                        },
                    ),
                )
            }
        } else if kind == 8 {
            self.next_token();
            Ok(Expr::Literal(Literal::Number(Number { span, value: text })))
        } else {
            self.parse_primary_expr()
        }
    }

    /// A parenthesised expression or a name.
    #[verifier::spinoff_prover]
    pub fn parse_prefix_expr(&mut self) -> (r: Result<Expr, Option<ParseError>>)
        requires
            old(self).wf(),
        ensures
            final(self).wf(),
            final(self).source() == old(self).source(),
            (parsed(r), final(self).view()) == prefix(old(self).bytes(), old(self).view()),
            moved(old(self).bytes(), old(self).view(), final(self).view()),
            r is Ok ==> advanced(old(self).bytes(), old(self).view(), final(self).view()),
            r matches Ok(e) ==> expr_ok(
                e@,
                progress(old(self).view()),
                progress(final(self).view()),
            ),
        decreases old(self).bytes().len() + 2 - progress(old(self).view()), 10int,
    {
        proof {
            reveal(prefix);
        }
        let (kind, span, text): (u8, Span, String) = match self.peek_token() {
            Err(e) => return Err(Some(e)),
            Ok(None) => (0, Span::dummy(), String::new()),
            Ok(Some(t)) => match t.token_type() {
                TokenType::Symbol(SymbolType::OpenParen) => (1, t.span(), String::new()),
                TokenType::Name(n) => (2, t.span(), n.clone()),
                _ => (0, t.span(), String::new()),
            },
        };
        if kind == 1 {
            match self.next_token() {
                Err(e) => return Err(Some(e)),
                Ok(_) => {},
            }
            let inner = match self.parse_expr() {
                Err(e) => return Err(e),
                Ok(e) => e,
            };
            match self.is_symbol(SymbolType::CloseParen) {
                Err(e) => return Err(Some(e)),
                Ok(false) => return Err(Some(self.expected(")"))),
                Ok(true) => {},
            }
            let right = match self.next_token() {
                Err(e) => return Err(Some(e)),
                Ok(Some(t)) => t.span(),
                Ok(None) => return Err(None),
            };
            Ok(Expr::Parentheses(Parentheses { spanned: span.with_end(right.end()), inner: Box::new(inner) }))
        } else if kind == 2 {
            self.next_token();
            Ok(Expr::Literal(Literal::Name(Name { span, name: text })))
        } else {
            Err(Some(self.expected("<expr>")))
        }
    }

    /// A prefix expression followed by any number of calls and indexings.
    #[verifier::spinoff_prover]
    #[verifier::loop_isolation(false)]
    #[verifier::rlimit(60)]
    pub fn parse_primary_expr(&mut self) -> (r: Result<Expr, Option<ParseError>>)
        requires
            old(self).wf(),
        ensures
            final(self).wf(),
            final(self).source() == old(self).source(),
            (parsed(r), final(self).view()) == primary(old(self).bytes(), old(self).view()),
            moved(old(self).bytes(), old(self).view(), final(self).view()),
            r is Ok ==> advanced(old(self).bytes(), old(self).view(), final(self).view()),
            r matches Ok(e) ==> expr_ok(
                e@,
                progress(old(self).view()),
                progress(final(self).view()),
            ),
        decreases old(self).bytes().len() + 2 - progress(old(self).view()), 15int,
    {
        proof {
            reveal(primary);
            reveal(primary_rest);
        }
        let ghost b = self.bytes();
        let ghost s0 = self.view();
        let pre = match self.parse_prefix_expr() {
            Err(e) => return Err(e),
            Ok(e) => e,
        };
        let ghost s1 = self.view();
        let mut suffixes: Vec<Suffix> = Vec::new();
        loop
            invariant
                self.wf(),
                self.source() == old(self).source(),
                b == self.bytes(),
                advanced(b, s0, s1),
                moved(b, s1, self.view()),
                suffixes.len() > 0 ==> suffix_ok(suffixes@.last()@, progress(self.view())),
                primary_rest(b, self.view(), suffix_seq_v(suffixes@)) == primary_rest(
                    b,
                    s1,
                    seq![],
                ),
            decreases b.len() + 2 - progress(self.view()),
        {
            proof {
                reveal(primary_rest);
            }
            let more = match self.peek_token() {
                Err(e) => return Err(Some(e)),
                Ok(None) => false,
                Ok(Some(t)) => match t.token_type() {
                    TokenType::Symbol(SymbolType::OpenParen) => true,
                    TokenType::Symbol(SymbolType::OpenBracket) => true,
                    TokenType::Symbol(SymbolType::Dot) => true,
                    TokenType::Symbol(SymbolType::Colon) => true,
                    TokenType::Str(_) => true,
                    TokenType::Symbol(SymbolType::OpenBrace) => true,
                    _ => false,
                },
            };
            if !more {
                break;
            }
            let sx = match self.parse_suffix() {
                Err(e) => return Err(e),
                Ok(x) => x,
            };
            proof {
                lemma_suffixs_push(suffixes@, sx);
            }
            suffixes.push(sx);
        }
        if suffixes.len() == 0 {
            assert(expr_ok(pre@, progress(s0), progress(self.view())));
            Ok(pre)
        } else {
            proof {
                crate::ast::lemma_suffix_seq_v(suffixes@);
                let sv = suffix_seq_v(suffixes@);
                assert(sv.last() == suffixes@.last()@);
                assert(suffix_ok(sv.last(), progress(self.view())));
                assert(progress(s0) <= progress(self.view()));
                reveal_with_fuel(crate::ast::expr_span, 2);
            }
            Ok(Expr::Suffixed(Suffixed { prefix: Box::new(pre), suffixes }))
        }
    }

    /// One suffix: call arguments, an indexing, or a method call.
    #[verifier::spinoff_prover]
    #[verifier::rlimit(40)]
    fn parse_suffix(&mut self) -> (r: Result<Suffix, Option<ParseError>>)
        requires
            old(self).wf(),
        ensures
            final(self).wf(),
            final(self).source() == old(self).source(),
            (parsed(r), final(self).view()) == suffix(old(self).bytes(), old(self).view()),
            moved(old(self).bytes(), old(self).view(), final(self).view()),
            r is Ok ==> advanced(old(self).bytes(), old(self).view(), final(self).view()),
            r matches Ok(x) ==> suffix_ok(x@, progress(final(self).view())),
        decreases old(self).bytes().len() + 2 - progress(old(self).view()), 13int,
    {
        proof {
            reveal(suffix);
        }
        let (kind, span, text): (u8, Span, String) = match self.peek_token() {
            Err(e) => return Err(Some(e)),
            Ok(None) => (0, Span::dummy(), String::new()),
            Ok(Some(t)) => match t.token_type() {
                TokenType::Symbol(SymbolType::OpenParen) => (1, t.span(), String::new()),
                TokenType::Symbol(SymbolType::OpenBracket) => (2, t.span(), String::new()),
                TokenType::Symbol(SymbolType::Dot) => (3, t.span(), String::new()),
                TokenType::Symbol(SymbolType::Colon) => (4, t.span(), String::new()),
                TokenType::Str(v) => (5, t.span(), v.clone()),
                TokenType::Symbol(SymbolType::OpenBrace) => (6, t.span(), String::new()),
                _ => (0, t.span(), String::new()),
            },
        };
        if kind == 1 {
            match self.parse_call_args_parens(span) {
                Err(e) => Err(e),
                Ok(a) => Ok(Suffix::Call(Call::Args(a))),
            }
        } else if kind == 2 {
            match self.next_token() {
                Err(e) => return Err(Some(e)),
                Ok(_) => {},
            }
            let e = match self.parse_expr() {
                Err(e) => return Err(e),
                Ok(e) => e,
            };
            match self.is_symbol(SymbolType::CloseBracket) {
                Err(e) => return Err(Some(e)),
                Ok(false) => return Err(Some(self.expected("]"))),
                Ok(true) => {},
            }
            let close = match self.next_token() {
                Err(e) => return Err(Some(e)),
                Ok(Some(t)) => t.span(),
                Ok(None) => return Err(None),
            };
            Ok(Suffix::Index(SuffixIndex::Computed { spanned: span.with_end(close.end()), expr: Box::new(e) }))
        } else if kind == 3 {
            match self.next_token() {
                Err(e) => return Err(Some(e)),
                Ok(_) => {},
            }
            match self.parse_name() {
                Err(e) => Err(e),
                Ok(indexer) => Ok(Suffix::Index(SuffixIndex::Named { dot: span, indexer })),
            }
        } else if kind == 4 {
            match self.next_token() {
                Err(e) => return Err(Some(e)),
                Ok(_) => {},
            }
            let indexer = match self.parse_name() {
                Err(e) => return Err(e),
                Ok(n) => n,
            };
            match self.parse_call_args() {
                Err(e) => Err(e),
                Ok(args) => Ok(Suffix::Call(Call::Method(MethodCall { colon: span, indexer, args: Box::new(args) }))),
            }
        } else if kind == 5 {
            self.next_token();
            Ok(Suffix::Call(Call::Args(CallArgs::Str(Str { span, value: text }))))
        } else if kind == 6 {
            match self.parse_table() {
                Err(e) => Err(e),
                Ok(t) => Ok(Suffix::Call(Call::Args(CallArgs::Table(t)))),
            }
        } else {
            Err(None)
        }
    }

    /// Call arguments in parentheses; the `(` at `left_span` is current.
    #[verifier::spinoff_prover]
    fn parse_call_args_parens(&mut self, left_span: Span) -> (r: Result<CallArgs, Option<ParseError>>)
        requires
            old(self).wf(),
            old(self).view().tokens.current matches Some(c) && !(c.token_type is Invalid),
        ensures
            final(self).wf(),
            final(self).source() == old(self).source(),
            (parsed(r), final(self).view()) == call_args_parens(
                old(self).bytes(),
                old(self).view(),
                left_span,
            ),
            moved(old(self).bytes(), old(self).view(), final(self).view()),
            r is Ok ==> advanced(old(self).bytes(), old(self).view(), final(self).view()),
            r matches Ok(a) ==> call_args_ok(a@, progress(final(self).view())),
        decreases old(self).bytes().len() + 2 - progress(old(self).view()), 12int,
    {
        proof {
            reveal(call_args_parens);
        }
        match self.next_token() {
            Err(e) => return Err(Some(e)),
            Ok(_) => {},
        }
        let closing = match self.peek_token() {
            Err(e) => return Err(Some(e)),
            Ok(t) => is_symbol_token(t, SymbolType::CloseParen),
        };
        let list = if closing {
            Vec::new()
        } else {
            match self.parse_exprlist() {
                Err(e) => return Err(e),
                Ok(l) => l,
            }
        };
        if list.len() != 0 {
            match self.is_symbol(SymbolType::CloseParen) {
                Err(e) => return Err(Some(e)),
                Ok(false) => return Err(Some(self.expected(")"))),
                Ok(true) => {},
            }
        }
        let close = match self.next_token() {
            Err(e) => return Err(Some(e)),
            Ok(Some(t)) => t.span(),
            Ok(None) => return Err(None),
        };
        Ok(CallArgs::Multiple { parens: left_span.with_end(close.end()), exprs: list })
    }

    /// The arguments of a call: in parentheses, a table, or a string.
    #[verifier::spinoff_prover]
    pub fn parse_call_args(&mut self) -> (r: Result<CallArgs, Option<ParseError>>)
        requires
            old(self).wf(),
        ensures
            final(self).wf(),
            final(self).source() == old(self).source(),
            (parsed(r), final(self).view()) == call_args(old(self).bytes(), old(self).view()),
            moved(old(self).bytes(), old(self).view(), final(self).view()),
            r is Ok ==> advanced(old(self).bytes(), old(self).view(), final(self).view()),
            r matches Ok(a) ==> call_args_ok(a@, progress(final(self).view())),
        decreases old(self).bytes().len() + 2 - progress(old(self).view()), 13int,
    {
        proof {
            reveal(call_args);
        }
        let (kind, span, text): (u8, Span, String) = match self.peek_token() {
            Err(e) => return Err(Some(e)),
            Ok(None) => (0, Span::dummy(), String::new()),
            Ok(Some(t)) => match t.token_type() {
                TokenType::Symbol(SymbolType::OpenParen) => (1, t.span(), String::new()),
                TokenType::Symbol(SymbolType::OpenBrace) => (2, t.span(), String::new()),
                TokenType::Str(v) => (3, t.span(), v.clone()),
                _ => (0, t.span(), String::new()),
            },
        };
        if kind == 1 {
            self.parse_call_args_parens(span)
        } else if kind == 2 {
            match self.parse_table() {
                Err(e) => Err(e),
                Ok(t) => Ok(CallArgs::Table(t)),
            }
        } else if kind == 3 {
            self.next_token();
            Ok(CallArgs::Str(Str { span, value: text }))
        } else {
            Err(Some(self.expected("function arguments")))
        }
    }

    /// A table constructor; its `{` is current.
    #[verifier::loop_isolation(false)]
    #[verifier::spinoff_prover]
    #[verifier::rlimit(40)]
    pub fn parse_table(&mut self) -> (r: Result<TableConstructor, Option<ParseError>>)
        requires
            old(self).wf(),
        ensures
            final(self).wf(),
            final(self).source() == old(self).source(),
            (parsed(r), final(self).view()) == table(old(self).bytes(), old(self).view()),
            moved(old(self).bytes(), old(self).view(), final(self).view()),
            r is Ok ==> advanced(old(self).bytes(), old(self).view(), final(self).view()),
            r matches Ok(t) ==> t.braces.end <= progress(final(self).view()) + 2,
        decreases old(self).bytes().len() + 2 - progress(old(self).view()), 11int,
    {
        proof {
            reveal(table);
            reveal(table_fields);
        }
        let ghost b = self.bytes();
        let ghost s0 = self.view();
        let start = match self.next_token() {
            Err(e) => return Err(Some(e)),
            Ok(Some(t)) => t.span(),
            Ok(None) => return Err(Some(self.expected("{"))),
        };
        let ghost s1 = self.view();
        let mut fields: Vec<TableField> = Vec::new();
        loop
            invariant
                self.wf(),
                self.source() == old(self).source(),
                b == self.bytes(),
                advanced(b, s0, s1),
                moved(b, s1, self.view()),
                table_fields(b, self.view(), start, table_field_seq_v(fields@)) == table_fields(
                    b,
                    s1,
                    start,
                    seq![],
                ),
            decreases b.len() + 2 - progress(self.view()),
        {
            proof {
                reveal(table);
                reveal(table_fields);
            }
            let closing = match self.is_symbol(SymbolType::CloseBrace) {
                Err(e) => return Err(Some(e)),
                Ok(c) => c,
            };
            proof {
                crate::tokenizer::lemma_stream_fill(b, self.view().tokens);
            }
            if closing || self.tokens.current().is_none() {
                break;
            }
            let field = match self.parse_table_field() {
                Err(e) => return Err(e),
                Ok(f) => f,
            };
            proof {
                lemma_table_fields_push(fields@, field);
            }
            fields.push(field);
            let separator = match self.peek_token() {
                Err(e) => return Err(Some(e)),
                Ok(t) => is_symbol_token(t, SymbolType::Comma) || is_symbol_token(
                    t,
                    SymbolType::Semicolon,
                ),
            };
            if separator {
                match self.next_token() {
                    Err(e) => return Err(Some(e)),
                    Ok(_) => {},
                }
            } else {
                break;
            }
        }
        self.parse_table_close(start, fields)
    }

    /// The closing brace of a table constructor that started at `start`.
    #[verifier::spinoff_prover]
    fn parse_table_close(&mut self, start: Span, fields: Vec<TableField>) -> (r: Result<
        TableConstructor,
        Option<ParseError>,
    >)
        requires
            old(self).wf(),
        ensures
            final(self).wf(),
            final(self).source() == old(self).source(),
            (parsed(r), final(self).view()) == table_close(
                old(self).bytes(),
                old(self).view(),
                start,
                table_field_seq_v(fields@),
            ),
            moved(old(self).bytes(), old(self).view(), final(self).view()),
            r is Ok ==> advanced(old(self).bytes(), old(self).view(), final(self).view()),
            r matches Ok(t) ==> t.braces.end <= progress(final(self).view()) + 2,
    {
        proof {
            reveal(table_close);
        }
        match self.is_symbol(SymbolType::CloseBrace) {
            Err(e) => return Err(Some(e)),
            Ok(false) => return Err(Some(self.expected("}"))),
            Ok(true) => {},
        }
        let end = match self.take_token() {
            Some(t) => t.span(),
            None => return Err(None),
        };
        Ok(TableConstructor { braces: start.with_end(end.end()), fields })
    }

    /// One field of a table constructor: `[key] = value`, `name = value`,
    /// or a value.
    #[verifier::spinoff_prover]
    #[verifier::rlimit(40)]
    fn parse_table_field(&mut self) -> (r: Result<TableField, Option<ParseError>>)
        requires
            old(self).wf(),
        ensures
            final(self).wf(),
            final(self).source() == old(self).source(),
            (parsed(r), final(self).view()) == table_field(old(self).bytes(), old(self).view()),
            moved(old(self).bytes(), old(self).view(), final(self).view()),
            r is Ok ==> advanced(old(self).bytes(), old(self).view(), final(self).view()),
        decreases old(self).bytes().len() + 2 - progress(old(self).view()), 21int,
    {
        proof {
            reveal(table_field);
        }
        let (kind, span, text): (u8, Span, String) = match self.peek_token() {
            Err(e) => return Err(Some(e)),
            Ok(None) => (0, Span::dummy(), String::new()),
            Ok(Some(t)) => match t.token_type() {
                TokenType::Symbol(SymbolType::OpenBracket) => (1, t.span(), String::new()),
                TokenType::Name(n) => (2, t.span(), n.clone()),
                _ => (0, t.span(), String::new()),
            },
        };
        if kind == 1 {
            match self.next_token() {
                Err(e) => return Err(Some(e)),
                Ok(_) => {},
            }
            let key = match self.parse_expr() {
                Err(e) => return Err(e),
                Ok(e) => e,
            };
            match self.is_symbol(SymbolType::CloseBracket) {
                Err(e) => return Err(Some(e)),
                Ok(false) => return Err(Some(self.expected("]"))),
                Ok(true) => {},
            }
            let closing = match self.next_token() {
                Err(e) => return Err(Some(e)),
                Ok(Some(t)) => t.span(),
                Ok(None) => return Err(None),
            };
            match self.is_symbol(SymbolType::Equal) {
                Err(e) => return Err(Some(e)),
                Ok(false) => return Err(Some(self.expected("="))),
                Ok(true) => {},
            }
            match self.next_token() {
                Err(e) => return Err(Some(e)),
                Ok(_) => {},
            }
            let value = match self.parse_expr() {
                Err(e) => return Err(e),
                Ok(e) => e,
            };
            Ok(TableField::Computed { span: span.with_end(closing.end()), key: Box::new(key), value: Box::new(value) })
        } else if kind == 2 {
            let named = match self.peek_further_token() {
                Err(e) => return Err(Some(e)),
                Ok(t) => is_symbol_token(t, SymbolType::Equal),
            };
            if named {
                match self.next_token() {
                    Err(e) => return Err(Some(e)),
                    Ok(_) => {},
                }
                match self.next_token() {
                    Err(e) => return Err(Some(e)),
                    Ok(_) => {},
                }
                let value = match self.parse_expr() {
                    Err(e) => return Err(e),
                    Ok(e) => e,
                };
                let end = match span_of_expr(&value) {
                    Some(v) => v.end(),
                    None => 0,
                };
                Ok(TableField::Named { span: span.with_end(end), key: Name { span, name: text }, value: Box::new(value) })
            } else {
                match self.parse_expr() {
                    Err(e) => Err(e),
                    Ok(e) => Ok(TableField::Value(Box::new(e))),
                }
            }
        } else {
            match self.parse_expr() {
                Err(e) => Err(e),
                Ok(e) => Ok(TableField::Value(Box::new(e))),
            }
        }
    }

    /// The parameters and body of a function literal whose `function`
    /// keyword (already taken) was at `start_span`.
    #[verifier::spinoff_prover]
    fn parse_anynomous_function(&mut self, start_span: Span) -> (r: Result<
        AnynomousFunction,
        Option<ParseError>,
    >)
        requires
            old(self).wf(),
        ensures
            final(self).wf(),
            final(self).source() == old(self).source(),
            (parsed(r), final(self).view()) == anon_fn(
                old(self).bytes(),
                old(self).view(),
                start_span,
            ),
            r matches Ok(f) ==> f.span.end == start_span.end,
            moved(old(self).bytes(), old(self).view(), final(self).view()),
            r is Ok ==> advanced(old(self).bytes(), old(self).view(), final(self).view()),
        decreases old(self).bytes().len() + 2 - progress(old(self).view()), 25int,
    {
        proof {
            reveal(anon_fn);
        }
        let prev_varargs = self.has_varargs;
        let params = match self.parse_function_params() {
            Err(e) => return Err(e),
            Ok(p) => p,
        };
        let body = match self.parse_block(false) {
            Err(e) => return Err(e),
            Ok(b) => b,
        };
        match self.expect_keyword(KeywordType::End, "end") {
            Err(e) => return Err(e),
            Ok(_) => {},
        }
        self.has_varargs = prev_varargs;
        Ok(AnynomousFunction { span: start_span.with_start(body.span.end()), params, body })
    }


}

} // verus!
