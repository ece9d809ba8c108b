//! Operators, names, parameter lists and the names of function statements.

use crate::ast::{
    function_assign_name_v, function_param_seq_v, name_seq_v, Binop, BinopKind,
    FunctionAssignName, FunctionParam, KeywordType, Name, SymbolType, Token, TokenType, Unop,
    UnopKind,
};
use crate::parser::machine::{
    is_symbol_token, parsed, parsed_names, parsed_params, plain, Parser,
};
use crate::parser::rules::{
    advanced, binop, binop_kind, function_assign_name, function_assign_name_rest, function_param,
    function_params, function_params_rest, moved, name, name_list, name_list_rest, unop,
    unop_kind,
};
use crate::parser::state::{progress, ParseError};
use vstd::prelude::*;

verus! {



/// The binary operator a token stands for, if any.
fn binop_kind_of(tt: &TokenType) -> (r: Option<BinopKind>)
    ensures
        r == binop_kind(tt@),
{
    match tt {
        TokenType::Keyword(KeywordType::And) => Some(BinopKind::And),
        TokenType::Keyword(KeywordType::Or) => Some(BinopKind::Or),
        TokenType::Symbol(y) => match y {
            SymbolType::Caret => Some(BinopKind::Exponent),
            SymbolType::Star => Some(BinopKind::Multiply),
            SymbolType::Slash => Some(BinopKind::Divide),
            SymbolType::Percent => Some(BinopKind::Modulo),
            SymbolType::Cross => Some(BinopKind::Add),
            SymbolType::Dash => Some(BinopKind::Subtract),
            SymbolType::DotDot => Some(BinopKind::Concat),
            SymbolType::EqualEqual => Some(BinopKind::Equality),
            SymbolType::TildeEqual => Some(BinopKind::Inequality),
            SymbolType::GreaterThan => Some(BinopKind::GreaterThan),
            SymbolType::GreaterEqual => Some(BinopKind::GreaterEqual),
            SymbolType::LessThan => Some(BinopKind::LessThan),
            SymbolType::LessEqual => Some(BinopKind::LessEqual),
            _ => None,
        },
        _ => None,
    }
}

/// The unary operator a token stands for, if any.
fn unop_kind_of(tt: &TokenType) -> (r: Option<UnopKind>)
    ensures
        r == unop_kind(tt@),
{
    match tt {
        TokenType::Keyword(KeywordType::Not) => Some(UnopKind::Not),
        TokenType::Symbol(SymbolType::Dash) => Some(UnopKind::Negate),
        TokenType::Symbol(SymbolType::Hash) => Some(UnopKind::Length),
        _ => None,
    }
}

impl<'a> Parser<'a> {
    /// The binary operator at the current token, which is not taken;
    /// `Err(None)` where there is none.
    pub fn binop(&mut self) -> (r: Result<Binop, Option<ParseError>>)
        requires
            old(self).wf(),
        ensures
            final(self).wf(),
            final(self).source() == old(self).source(),
            (plain(r), final(self).view()) == binop(old(self).bytes(), old(self).view()),
            moved(old(self).bytes(), old(self).view(), final(self).view()),
            r matches Ok(op) ==> final(self).view().tokens.current matches Some(c) && !(
            c.token_type is Invalid) && c.span == op.span,
    {
        proof {
            reveal(binop);
        }
        match self.peek_token() {
            Err(e) => Err(Some(e)),
            Ok(None) => Err(None),
            Ok(Some(t)) => match binop_kind_of(t.token_type()) {
                Some(kind) => Ok(Binop::new(kind, t.span())),
                None => Err(None),
            },
        }
    }

    /// The unary operator at the current token, which is taken;
    /// `Err(None)` where there is none.
    pub fn unop(&mut self) -> (r: Result<Unop, Option<ParseError>>)
        requires
            old(self).wf(),
        ensures
            final(self).wf(),
            final(self).source() == old(self).source(),
            (plain(r), final(self).view()) == unop(old(self).bytes(), old(self).view()),
            moved(old(self).bytes(), old(self).view(), final(self).view()),
            r matches Ok(op) ==> advanced(old(self).bytes(), old(self).view(), final(self).view())
                && progress(old(self).view()) < op.span.start && op.span.end - 1 <= progress(
                final(self).view(),
            ),
    {
        proof {
            reveal(unop);
        }
        let op: Option<Unop> = match self.peek_token() {
            Err(e) => return Err(Some(e)),
            Ok(None) => None,
            Ok(Some(t)) => match unop_kind_of(t.token_type()) {
                Some(kind) => Some(Unop::new(kind, t.span())),
                None => None,
            },
        };
        match op {
            Some(op) => {
                self.next_token();
                Ok(op)
            },
            None => Err(None),
        }
    }

    /// A name.
    pub fn parse_name(&mut self) -> (r: Result<Name, Option<ParseError>>)
        requires
            old(self).wf(),
        ensures
            final(self).wf(),
            final(self).source() == old(self).source(),
            (parsed(r), final(self).view()) == name(old(self).bytes(), old(self).view()),
            moved(old(self).bytes(), old(self).view(), final(self).view()),
            r matches Ok(n) ==> advanced(old(self).bytes(), old(self).view(), final(self).view())
                && progress(old(self).view()) < n.span.start && n.span.end - 1 <= progress(
                final(self).view(),
            ),
    {
        proof {
            reveal(name);
        }
        let found: Option<Name> = match self.peek_token() {
            Err(e) => return Err(Some(e)),
            Ok(Some(t)) => match t.token_type() {
                TokenType::Name(n) => Some(Name { span: t.span(), name: n.clone() }),
                _ => None,
            },
            Ok(None) => None,
        };
        match found {
            Some(n) => {
                self.next_token();
                Ok(n)
            },
            None => Err(Some(self.expected("<name>"))),
        }
    }

    /// Names separated by commas.
    pub fn parse_name_list(&mut self) -> (r: Result<Vec<Name>, Option<ParseError>>)
        requires
            old(self).wf(),
        ensures
            final(self).wf(),
            final(self).source() == old(self).source(),
            (parsed_names(r), final(self).view()) == name_list(
                old(self).bytes(),
                old(self).view(),
            ),
            moved(old(self).bytes(), old(self).view(), final(self).view()),
            r matches Ok(ns) ==> advanced(old(self).bytes(), old(self).view(), final(self).view())
                && ns.len() > 0 && ns@.last().span.end - 1 <= progress(final(self).view()),
    {
        proof {
            reveal(name_list);
        }
        let first = match self.parse_name() {
            Err(e) => return Err(e),
            Ok(n) => n,
        };
        let mut names = vec![first];
        proof {
            assert(name_seq_v(names@) == seq![crate::ast::name_v(first)]) by {
                reveal_with_fuel(name_seq_v, 2);
                assert(names@.drop_last() =~= Seq::<Name>::empty());
            }
        }
        self.parse_name_list_rest(names)
    }

    /// More names after `names`, each after a comma.
    #[verifier::loop_isolation(false)]
    pub(crate) fn parse_name_list_rest(&mut self, names: Vec<Name>) -> (r: Result<
        Vec<Name>,
        Option<ParseError>,
    >)
        requires
            old(self).wf(),
            names.len() > 0,
        ensures
            final(self).wf(),
            final(self).source() == old(self).source(),
            (parsed_names(r), final(self).view()) == name_list_rest(
                old(self).bytes(),
                old(self).view(),
                name_seq_v(names@),
            ),
            moved(old(self).bytes(), old(self).view(), final(self).view()),
            r matches Ok(ns) ==> ns.len() > 0 && (ns@.last() == names@.last() || ns@.last().span.end
                - 1 <= progress(final(self).view())),
    {
        proof {
            reveal(name_list_rest);
        }
        let ghost b = self.bytes();
        let ghost s0 = self.view();
        let ghost names0 = name_seq_v(names@);
        let ghost last0 = names@.last();
        let mut names = names;
        loop
            invariant
                self.wf(),
                self.source() == old(self).source(),
                b == self.bytes(),
                names.len() > 0,
                names@.last() == last0 || names@.last().span.end - 1 <= progress(self.view()),
                moved(b, s0, self.view()),
                name_list_rest(b, self.view(), name_seq_v(names@)) == name_list_rest(
                    b,
                    s0,
                    names0,
                ),
            decreases b.len() + 2 - progress(self.view()),
        {
            proof {
                reveal(name_list_rest);
            }
            let comma = match self.peek_token() {
                Err(e) => return Err(Some(e)),
                Ok(t) => is_symbol_token(t, SymbolType::Comma),
            };
            if !comma {
                return Ok(names);
            }
            match self.next_token() {
                Err(e) => return Err(Some(e)),
                Ok(_) => {},
            }
            let n = match self.parse_name() {
                Err(e) => return Err(e),
                Ok(n) => n,
            };
            proof {
                assert(name_seq_v(names@.push(n)) == name_seq_v(names@).push(crate::ast::name_v(n)))
                    by {
                    assert(names@.push(n).drop_last() =~= names@);
                }
            }
            names.push(n);
        }
    }

    /// A parameter: a name or `...`.
    fn parse_function_param(&mut self) -> (r: Result<FunctionParam, Option<ParseError>>)
        requires
            old(self).wf(),
        ensures
            final(self).wf(),
            final(self).source() == old(self).source(),
            (parsed(r), final(self).view()) == function_param(old(self).bytes(), old(self).view()),
            moved(old(self).bytes(), old(self).view(), final(self).view()),
            r is Ok ==> advanced(old(self).bytes(), old(self).view(), final(self).view()),
    {
        proof {
            reveal(function_param);
        }
        match self.is_symbol(SymbolType::DotDotDot) {
            Err(e) => Err(Some(e)),
            Ok(true) => {
                let t = self.take_token();
                match t {
                    Some(t) => Ok(FunctionParam::Varargs(t.span())),
                    None => Err(None),
                }
            },
            Ok(false) => match self.parse_name() {
                Err(e) => Err(e),
                Ok(n) => Ok(FunctionParam::Name(n)),
            },
        }
    }

    /// A parenthesised parameter list; `has_varargs` is set to whether it
    /// ends with `...`.
    pub(crate) fn parse_function_params(&mut self) -> (r: Result<
        Vec<FunctionParam>,
        Option<ParseError>,
    >)
        requires
            old(self).wf(),
        ensures
            final(self).wf(),
            final(self).source() == old(self).source(),
            (parsed_params(r), final(self).view())
                == function_params(old(self).bytes(), old(self).view()),
            moved(old(self).bytes(), old(self).view(), final(self).view()),
            r is Ok ==> advanced(old(self).bytes(), old(self).view(), final(self).view()),
    {
        proof {
            reveal(function_params);
        }
        let ghost b = self.bytes();
        let mut params: Vec<FunctionParam> = Vec::new();
        match self.expect_symbol(SymbolType::OpenParen, "(") {
            Err(e) => return Err(e),
            Ok(_) => {},
        }
        let closed = match self.is_symbol(SymbolType::CloseParen) {
            Err(e) => return Err(Some(e)),
            Ok(c) => c,
        };
        if !closed {
            let first = match self.parse_function_param() {
                Err(e) => return Err(e),
                Ok(p) => p,
            };
            let (ps, last) = match self.parse_function_params_rest(params, first) {
                Err(e) => return Err(e),
                Ok(pl) => pl,
            };
            params = ps;
            self.has_varargs = matches!(last, FunctionParam::Varargs(..));
            proof {
                assert(function_param_seq_v(params@.push(last)) == function_param_seq_v(
                    params@,
                ).push(crate::ast::function_param_v(last))) by {
                    assert(params@.push(last).drop_last() =~= params@);
                }
            }
            params.push(last);
        } else {
            self.has_varargs = false;
            proof {
                assert(function_param_seq_v(params@) =~= seq![]);
            }
        }
        match self.expect_symbol(SymbolType::CloseParen, ")") {
            Err(e) => Err(e),
            Ok(_) => Ok(params),
        }
    }

    /// More parameters after `current`, each after a comma, up to `...`;
    /// returns the parameters before the last one, and the last one.
    #[verifier::loop_isolation(false)]
    fn parse_function_params_rest(&mut self, params: Vec<FunctionParam>, current: FunctionParam) -> (r:
        Result<(Vec<FunctionParam>, FunctionParam), Option<ParseError>>)
        requires
            old(self).wf(),
        ensures
            final(self).wf(),
            final(self).source() == old(self).source(),
            (
                match r {
                    Ok((ps, last)) => Ok((function_param_seq_v(ps@), last@)),
                    Err(e) => Err(crate::parser::state::opt_error(e)),
                },
                final(self).view(),
            ) == function_params_rest(
                old(self).bytes(),
                old(self).view(),
                function_param_seq_v(params@),
                current@,
            ),
            moved(old(self).bytes(), old(self).view(), final(self).view()),
    {
        proof {
            reveal(function_params_rest);
        }
        let ghost b = self.bytes();
        let ghost s0 = self.view();
        let ghost params0 = function_param_seq_v(params@);
        let ghost current0 = current@;
        let mut params = params;
        let mut current = current;
        loop
            invariant
                self.wf(),
                self.source() == old(self).source(),
                b == self.bytes(),
                moved(b, s0, self.view()),
                function_params_rest(b, self.view(), function_param_seq_v(params@), current@)
                    == function_params_rest(
                    b,
                    s0,
                    params0,
                    current0,
                ),
            decreases b.len() + 2 - progress(self.view()),
        {
            proof {
                reveal(function_params_rest);
            }
            let comma = match self.is_symbol(SymbolType::Comma) {
                Err(e) => return Err(Some(e)),
                Ok(c) => c,
            };
            if !comma || matches!(current, FunctionParam::Varargs(..)) {
                return Ok((params, current));
            }
            self.take_token();
            let next = match self.parse_function_param() {
                Err(e) => return Err(e),
                Ok(p) => p,
            };
            proof {
                assert(function_param_seq_v(params@.push(current)) == function_param_seq_v(
                    params@,
                ).push(crate::ast::function_param_v(current))) by {
                    assert(params@.push(current).drop_last() =~= params@);
                }
            }
            params.push(current);
            current = next;
        }
    }

    /// The name of a function statement: names separated by `.`, then maybe
    /// `:` and a method name.
    #[verifier::loop_isolation(false)]
    pub fn parse_function_assign_name(&mut self) -> (r: Result<FunctionAssignName, Option<ParseError>>)
        requires
            old(self).wf(),
        ensures
            final(self).wf(),
            final(self).source() == old(self).source(),
            (parsed(r), final(self).view()) == function_assign_name(
                old(self).bytes(),
                old(self).view(),
            ),
            moved(old(self).bytes(), old(self).view(), final(self).view()),
            r is Ok ==> advanced(old(self).bytes(), old(self).view(), final(self).view()),
    {
        proof {
            reveal(function_assign_name);
            reveal(function_assign_name_rest);
        }
        let ghost b = self.bytes();
        let ghost s0 = self.view();
        let first = match self.parse_name() {
            Err(e) => return Err(e),
            Ok(n) => n,
        };
        let ghost s1 = self.view();
        let mut names = vec![first];
        proof {
            assert(name_seq_v(names@) == seq![crate::ast::name_v(first)]) by {
                reveal_with_fuel(name_seq_v, 2);
                assert(names@.drop_last() =~= Seq::<Name>::empty());
            }
        }
        loop
            invariant
                self.wf(),
                self.source() == old(self).source(),
                b == self.bytes(),
                advanced(b, s0, self.view()),
                function_assign_name_rest(b, self.view(), name_seq_v(names@))
                    == function_assign_name_rest(b, s1, seq![crate::ast::name_v(first)]),
                function_assign_name(b, s0) == function_assign_name_rest(
                    b,
                    s1,
                    seq![crate::ast::name_v(first)],
                ),
            decreases b.len() + 2 - progress(self.view()),
        {
            proof {
                reveal(function_assign_name);
                reveal(function_assign_name_rest);
            }
            let (colon, dot) = match self.peek_token() {
                Err(e) => return Err(Some(e)),
                Ok(Some(t)) => match t.token_type() {
                    TokenType::Symbol(SymbolType::Colon) => (true, false),
                    TokenType::Symbol(SymbolType::Dot) => (false, true),
                    _ => (false, false),
                },
                Ok(None) => (false, false),
            };
            if colon {
                self.take_token();
                let m = match self.parse_name() {
                    Err(e) => return Err(e),
                    Ok(m) => m,
                };
                return Ok(FunctionAssignName { names, method_indexer: Some(m) });
            } else if dot {
                self.take_token();
                let n = match self.parse_name() {
                    Err(e) => return Err(e),
                    Ok(n) => n,
                };
                proof {
                    assert(name_seq_v(names@.push(n)) == name_seq_v(names@).push(
                        crate::ast::name_v(n),
                    )) by {
                        assert(names@.push(n).drop_last() =~= names@);
                    }
                }
                names.push(n);
            } else {
                return Ok(FunctionAssignName { names, method_indexer: None });
            }
        }
    }
}

} // verus!
