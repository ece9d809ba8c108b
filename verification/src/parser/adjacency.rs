//! Which source tokens the parts of a statement or expression are read
//! from: the tokens of the source are those the token stream reads one after
//! another, and a part read right after a token starts at the next one.

use crate::ast::{CallArgsV, CallV, ExprV, LastStmtV, FunctionParamV, SuffixIndexV, SuffixV, KeywordType, NameV, SymbolType, TableFieldV, TokenTypeV, TokenV};
use crate::location::Span;
use crate::parser::rules::{
    advanced, call_args, call_args_parens, expr, exprlist, exprlist_rest, function_param,
    function_assign_name, function_assign_name_rest, function_params, function_stmt,
    anon_fn, if_stmt, last_stmt, local_function, suffix, table, while_stmt,
    function_params_rest, generic_for, local_assign, name, name_list, name_list_rest, numeric_for,
    table_field,
};
use crate::parser::starts::{expr_start, lemma_expr_starts_at_first_token, starts_at_token};
use crate::parser::state::{progress, state_ok, ParserV};
use crate::parser::steps::{
    expect_token, is_token, is_type, keyword, next_token, peek_further_token, peek_token, symbol,
    take_token,
};
use crate::tokenizer::stream::{
    lemma_next_token_from_bounds, lemma_next_token_from_span, next_token_from,
};
use crate::tokenizer::{
    lemma_stream_fill, lemma_stream_next, stream_fill, stream_next, stream_ok, stream_peek,
};
use vstd::prelude::*;

verus! {

/// The token the stream reads first after offset `o` of `b`.
pub open spec fn token_after(b: Seq<u8>, exclude_trivias: bool, o: int) -> Option<TokenV> {
    next_token_from(b, exclude_trivias, o).0
}

/// The token stream holds no look-ahead token, and its current token, if
/// any, is the last one it read.
pub open spec fn fresh(s: ParserV) -> bool {
    &&& s.tokens.lookahead is None
    &&& s.tokens.current matches Some(c) ==> s.tokens.offset == c.span.end - 1
}

/// The token at the front of the stream: the current one, or else the next
/// one read.
pub open spec fn front(b: Seq<u8>, s: ParserV) -> Option<TokenV> {
    stream_fill(b, s.tokens).current
}

/// Filling the current slot of a fresh stream keeps it fresh; what it puts
/// there is the token read after the offset.
proof fn lemma_fill_fresh(b: Seq<u8>, s: ParserV)
    requires
        state_ok(b, s),
        fresh(s),
    ensures
        stream_fill(b, s.tokens).lookahead is None,
        stream_fill(b, s.tokens).current matches Some(c) ==> stream_fill(b, s.tokens).offset
            == c.span.end - 1,
        s.tokens.current is None ==> stream_fill(b, s.tokens).current == token_after(
            b,
            s.tokens.exclude_trivias,
            s.tokens.offset,
        ),
        s.tokens.current is Some ==> stream_fill(b, s.tokens) == s.tokens,
{
    lemma_next_token_from_bounds(b, s.tokens.exclude_trivias, s.tokens.offset);
    lemma_next_token_from_span(b, s.tokens.exclude_trivias, s.tokens.offset);
}

/// Right after taking a token `t` from the front of a fresh stream, the
/// stream is empty and stands at the end of `t`.
pub open spec fn just_after(s: ParserV, t: TokenV) -> bool {
    &&& s.tokens.current is None
    &&& s.tokens.lookahead is None
    &&& s.tokens.offset == t.span.end - 1
}

/// Taking the front token of a fresh stream leaves it just after that
/// token.
proof fn lemma_take_fresh(b: Seq<u8>, s: ParserV)
    requires
        state_ok(b, s),
        fresh(s),
    ensures
        front(b, s) matches Some(t) ==> {
            &&& stream_next(b, stream_fill(b, s.tokens)).0 == Some(t)
            &&& just_after(
                ParserV { tokens: stream_next(b, stream_fill(b, s.tokens)).1, ..s },
                t,
            )
        },
        stream_ok(b, stream_fill(b, s.tokens)),
        stream_ok(b, stream_next(b, stream_fill(b, s.tokens)).1),
        stream_next(b, stream_fill(b, s.tokens)).1.exclude_trivias == s.tokens.exclude_trivias,
{
    lemma_fill_fresh(b, s);
    lemma_stream_fill(b, s.tokens);
    lemma_stream_next(b, stream_fill(b, s.tokens));
}

/// Where a parameter stands in the source.
pub open spec fn param_span(p: FunctionParamV) -> Span {
    match p {
        FunctionParamV::Name(n) => n.span,
        FunctionParamV::Varargs(sp) => sp,
    }
}

/// Parameter `q` is read right after a comma that is read right after
/// parameter `p`.
pub open spec fn comma_between(b: Seq<u8>, x: bool, p: FunctionParamV, q: FunctionParamV) -> bool {
    &&& token_after(b, x, param_span(p).end - 1) matches Some(c)
    &&& c.token_type == TokenTypeV::Symbol(SymbolType::Comma)
    &&& token_after(b, x, c.span.end - 1) matches Some(t)
    &&& t.span == param_span(q)
}

/// The parameters `ps` are read one after another, each after a comma.
pub open spec fn comma_separated(b: Seq<u8>, x: bool, ps: Seq<FunctionParamV>) -> bool {
    forall|i: int| #![trigger ps[i]] 0 <= i < ps.len() - 1 ==> comma_between(b, x, ps[i], ps[i + 1])
}

/// A parameter is the token at the front of the stream, and the stream is
/// left just after it.
proof fn lemma_param_token(b: Seq<u8>, s: ParserV)
    requires
        state_ok(b, s),
        fresh(s),
    ensures
        function_param(b, s).0 matches Ok(p) ==> {
            &&& front(b, s) matches Some(t)
            &&& t.span == param_span(p)
            &&& (t.token_type is Name || t.token_type == TokenTypeV::Symbol(
                SymbolType::DotDotDot,
            ))
            &&& just_after(function_param(b, s).1, t)
            &&& state_ok(b, function_param(b, s).1)
            &&& function_param(b, s).1.tokens.exclude_trivias == s.tokens.exclude_trivias
        },
{
    reveal(function_param);
    reveal(name);
    lemma_take_fresh(b, s);
    lemma_fill_fresh(b, s);
    lemma_stream_fill(b, s.tokens);
    let ts1 = stream_fill(b, s.tokens);
    let s1 = ParserV { tokens: ts1, ..s };
    assert(peek_token(b, s).1 == s1);
    assert(stream_fill(b, ts1) == ts1);
    assert(peek_token(b, s1).1 == s1);
    let after = ParserV { tokens: stream_next(b, ts1).1, ..s };
    if let Ok(p) = function_param(b, s).0 {
        assert(function_param(b, s).1 == after);
    }
}

/// A parameter read right after a comma that follows the last of a comma
/// separated list extends it.
proof fn lemma_comma_push(b: Seq<u8>, x: bool, ps: Seq<FunctionParamV>, q: FunctionParamV)
    requires
        ps.len() > 0,
        comma_separated(b, x, ps),
        comma_between(b, x, ps.last(), q),
    ensures
        comma_separated(b, x, ps.push(q)),
{
    let qs = ps.push(q);
    assert forall|i: int| #![trigger qs[i]] 0 <= i < qs.len() - 1 implies comma_between(
        b,
        x,
        qs[i],
        qs[i + 1],
    ) by {
        if i < ps.len() - 1 {
            assert(qs[i] == ps[i] && qs[i + 1] == ps[i + 1]);
        } else {
            assert(qs[i] == ps.last() && qs[i + 1] == q);
        }
    }
}

/// Reading the parameters after `current`, each after a comma, keeps the
/// list comma separated and leaves at the front the token right after the
/// last parameter.
proof fn lemma_params_rest_adjacent(
    b: Seq<u8>,
    s: ParserV,
    params: Seq<FunctionParamV>,
    current: FunctionParamV,
)
    requires
        state_ok(b, s),
        s.tokens.current is None,
        s.tokens.lookahead is None,
        s.tokens.offset == param_span(current).end - 1,
        comma_separated(b, s.tokens.exclude_trivias, params.push(current)),
    ensures
        function_params_rest(b, s, params, current).0 matches Ok((ps, last)) ==> {
            let s1 = function_params_rest(b, s, params, current).1;
            &&& comma_separated(b, s.tokens.exclude_trivias, ps.push(last))
            &&& ps.push(last).len() > params.len()
            &&& ps.push(last).subrange(0, params.len() + 1int) == params.push(current)
            &&& state_ok(b, s1)
            &&& fresh(s1)
            &&& s1.tokens.exclude_trivias == s.tokens.exclude_trivias
            &&& front(b, s1) == token_after(
                b,
                s.tokens.exclude_trivias,
                param_span(last).end - 1,
            )
        },
    decreases b.len() + 2 - progress(s),
{
    reveal(function_params_rest);
    let x = s.tokens.exclude_trivias;
    lemma_fill_fresh(b, s);
    lemma_stream_fill(b, s.tokens);
    lemma_take_fresh(b, s);
    let ts1 = stream_fill(b, s.tokens);
    let s1 = ParserV { tokens: ts1, ..s };
    lemma_fill_fresh(b, s1);
    assert(is_token(b, s, symbol(SymbolType::Comma)).1 == s1);
    if let Ok(true) = is_token(b, s, symbol(SymbolType::Comma)).0 {
        if !(current is Varargs) {
            let s2 = take_token(b, s1).1;
            assert(s2 == ParserV { tokens: stream_next(b, ts1).1, ..s });
            let c = ts1.current->Some_0;
            lemma_param_token(b, s2);
            lemma_fill_fresh(b, s2);
            let (r3, s3) = function_param(b, s2);
            if let Ok(p) = r3 {
                if advanced(b, s, s3) {
                    assert(comma_between(b, x, current, p));
                    assert(params.push(current).last() == current);
                    lemma_comma_push(b, x, params.push(current), p);
                    lemma_params_rest_adjacent(b, s3, params.push(current), p);
                    if let Ok((ps, last)) = function_params_rest(
                        b,
                        s3,
                        params.push(current),
                        p,
                    ).0 {
                        assert(ps.push(last).subrange(0, params.len() + 1int) =~= ps.push(
                            last,
                        ).subrange(0, params.len() + 2int).subrange(0, params.len() + 1int));
                        assert(params.push(current).push(p).subrange(0, params.len() + 1int)
                            =~= params.push(current));
                    }
                }
            }
        }
    }
}

/// A parameter list keeps every parameter it reads, in order: the first is
/// the token right after `(`, each further one is read right after a comma
/// that follows the one before, and the `)` is the token right after the
/// last one. The list is empty exactly when `)` follows `(` directly.
pub proof fn lemma_params_from_source(b: Seq<u8>, s: ParserV)
    requires
        state_ok(b, s),
        fresh(s),
    ensures
        function_params(b, s).0 matches Ok(ps) ==> {
            let x = s.tokens.exclude_trivias;
            &&& front(b, s) matches Some(open)
            &&& open.token_type == TokenTypeV::Symbol(SymbolType::OpenParen)
            &&& (ps.len() == 0) == (token_after(b, x, open.span.end - 1) matches Some(t)
                && t.token_type == TokenTypeV::Symbol(SymbolType::CloseParen))
            &&& ps.len() > 0 ==> (token_after(b, x, open.span.end - 1) matches Some(t) && t.span
                == param_span(ps[0]))
            &&& comma_separated(b, x, ps)
            &&& ps.len() > 0 ==> (token_after(b, x, param_span(ps.last()).end - 1) matches Some(
                t,
            ) && t.token_type == TokenTypeV::Symbol(SymbolType::CloseParen))
        },
{
    reveal(function_params);
    reveal(function_param);
    reveal(function_params_rest);
    let x = s.tokens.exclude_trivias;
    lemma_fill_fresh(b, s);
    lemma_stream_fill(b, s.tokens);
    lemma_take_fresh(b, s);
    let ts0 = stream_fill(b, s.tokens);
    let s0 = ParserV { tokens: ts0, ..s };
    if let Ok(_) = function_params(b, s).0 {
        let s1 = take_token(b, s0).1;
        assert(s1 == ParserV { tokens: stream_next(b, ts0).1, ..s });
        lemma_fill_fresh(b, s1);
        lemma_stream_fill(b, s1.tokens);
        let s2 = ParserV { tokens: stream_fill(b, s1.tokens), ..s1 };
        lemma_fill_fresh(b, s2);
        let (r2, _) = is_token(b, s1, symbol(SymbolType::CloseParen));
        if r2 == Ok::<bool, crate::parser::ParseErrorV>(false) {
            lemma_param_token(b, s2);
            let (r4, s4) = function_param(b, s2);
            if let Ok(p) = r4 {
                assert(comma_separated(b, x, seq![].push(p)));
                lemma_params_rest_adjacent(b, s4, seq![], p);
                let (r5, s5) = function_params_rest(b, s4, seq![], p);
                if let Ok((ps, last)) = r5 {
                    let s3 = ParserV { has_varargs: last is Varargs, ..s5 };
                    lemma_fill_fresh(b, s3);
                    assert(ps.push(last)[0] == ps.push(last).subrange(0, 1)[0]);
                }
            }
        }
    }
}

/// The expression `e` is read from the token right after offset `o`: it
/// starts where that token starts (unless that token is the `function`
/// keyword, whose literal's span starts after its body).
pub open spec fn read_right_after(b: Seq<u8>, x: bool, o: int, e: ExprV) -> bool {
    &&& token_after(b, x, o) matches Some(t)
    &&& t.token_type != keyword(KeywordType::Function) ==> expr_start(e) == t.span.start
}

/// In a numeric `for` (whose `=` is the current token), the loop's start
/// is the expression read right after the `=`.
pub proof fn lemma_numeric_for_start_after_equal(b: Seq<u8>, s: ParserV, span: Span, n: NameV)
    requires
        state_ok(b, s),
        fresh(s),
        s.tokens.current is Some,
    ensures
        numeric_for(b, s, span, n).0 matches Ok(nf) ==> read_right_after(
            b,
            s.tokens.exclude_trivias,
            s.tokens.current->Some_0.span.end - 1,
            nf.start,
        ),
{
    reveal(numeric_for);
    reveal(expr);
    lemma_take_fresh(b, s);
    lemma_fill_fresh(b, s);
    let (r1, s1) = next_token(b, s);
    if r1 is Ok {
        assert(s1 == ParserV { tokens: stream_next(b, stream_fill(b, s.tokens)).1, ..s });
        lemma_fill_fresh(b, s1);
        lemma_expr_starts_at_first_token(b, s1);
    }
}

/// In a computed table field `[k] = v`, the field starts at its `[`, and
/// the key is the expression read right after the `[`.
#[verifier::spinoff_prover]
#[verifier::rlimit(40)]
pub proof fn lemma_computed_key_after_bracket(b: Seq<u8>, s: ParserV)
    requires
        state_ok(b, s),
        fresh(s),
    ensures
        table_field(b, s).0 matches Ok(TableFieldV::Computed { span, key, .. }) ==> {
            &&& front(b, s) matches Some(open)
            &&& open.token_type == TokenTypeV::Symbol(SymbolType::OpenBracket)
            &&& span.start == open.span.start
            &&& read_right_after(b, s.tokens.exclude_trivias, open.span.end - 1, *key)
        },
{
    reveal(table_field);
    reveal(expr);
    lemma_take_fresh(b, s);
    lemma_fill_fresh(b, s);
    lemma_stream_fill(b, s.tokens);
    let s1 = ParserV { tokens: stream_fill(b, s.tokens), ..s };
    let (r2, s2) = next_token(b, s1);
    if r2 is Ok {
        assert(s2 == ParserV { tokens: stream_next(b, stream_fill(b, s.tokens)).1, ..s });
        lemma_fill_fresh(b, s2);
        lemma_expr_starts_at_first_token(b, s2);
    }
}

/// Which source tokens a table field is read from. A computed field `[k] =
/// v` starts at its `[`, and its key is read right after the `[`. A named
/// field `n = v` has the name at the front, the `=` right after it, and its
/// value read right after the `=`. A positional field is the expression
/// read from the token at the front.
#[verifier::spinoff_prover]
#[verifier::rlimit(60)]
pub proof fn lemma_table_field_from_source(b: Seq<u8>, s: ParserV)
    requires
        state_ok(b, s),
        fresh(s),
    ensures
        table_field(b, s).0 matches Ok(f) ==> {
            let x = s.tokens.exclude_trivias;
            &&& front(b, s) matches Some(t)
            &&& match f {
                TableFieldV::Computed { span, key, .. } => {
                    &&& t.token_type == TokenTypeV::Symbol(SymbolType::OpenBracket)
                    &&& span.start == t.span.start
                    &&& read_right_after(b, x, t.span.end - 1, *key)
                },
                TableFieldV::Named { key, value, .. } => {
                    &&& key.span == t.span
                    &&& t.token_type == TokenTypeV::Name(key.name)
                    &&& token_after(b, x, t.span.end - 1) matches Some(eq)
                    &&& eq.token_type == TokenTypeV::Symbol(SymbolType::Equal)
                    &&& read_right_after(b, x, eq.span.end - 1, *value)
                },
                TableFieldV::Value(v) => t.token_type != keyword(KeywordType::Function)
                    ==> expr_start(*v) == t.span.start,
            }
        },
{
    reveal(table_field);
    reveal(expr);
    let x = s.tokens.exclude_trivias;
    lemma_take_fresh(b, s);
    lemma_fill_fresh(b, s);
    lemma_stream_fill(b, s.tokens);
    let ts1 = stream_fill(b, s.tokens);
    let s1 = ParserV { tokens: ts1, ..s };
    lemma_fill_fresh(b, s1);
    assert(peek_token(b, s).1 == s1);
    if let Some(t) = ts1.current {
        if t.token_type == TokenTypeV::Symbol(SymbolType::OpenBracket) {
            let (r2, s2) = next_token(b, s1);
            if r2 is Ok {
                assert(s2 == ParserV { tokens: stream_next(b, ts1).1, ..s });
                lemma_fill_fresh(b, s2);
                lemma_expr_starts_at_first_token(b, s2);
            }
        } else if t.token_type is Name {
            let ts2 = stream_peek(b, ts1);
            let s2 = ParserV { tokens: ts2, ..s };
            lemma_next_token_from_bounds(b, x, ts1.offset);
            lemma_next_token_from_span(b, x, ts1.offset);
            assert(peek_further_token(b, s1).1 == s2);
            if let Some(la) = ts2.lookahead {
                if la.token_type == TokenTypeV::Symbol(SymbolType::Equal) {
                    let s3 = next_token(b, s2).1;
                    let s4 = next_token(b, s3).1;
                    assert(s4.tokens.current is None && s4.tokens.lookahead is None);
                    assert(s4.tokens.offset == la.span.end - 1);
                    lemma_fill_fresh(b, s4);
                    lemma_expr_starts_at_first_token(b, s4);
                } else {
                    lemma_expr_starts_at_first_token(b, s2);
                }
            } else {
                lemma_expr_starts_at_first_token(b, s2);
            }
        } else {
            lemma_expr_starts_at_first_token(b, s1);
        }
    } else {
        lemma_expr_starts_at_first_token(b, s1);
    }
}

/// Name `q` is read right after a `sep` symbol that is read right after
/// name `p`.
pub open spec fn name_after_symbol(b: Seq<u8>, x: bool, sep: SymbolType, p: NameV, q: NameV) -> bool {
    &&& token_after(b, x, p.span.end - 1) matches Some(c)
    &&& c.token_type == TokenTypeV::Symbol(sep)
    &&& token_after(b, x, c.span.end - 1) matches Some(t)
    &&& t.span == q.span
    &&& t.token_type == TokenTypeV::Name(q.name)
}

/// The names `ns` are read one after another, each after a `sep` symbol.
pub open spec fn names_separated_by(b: Seq<u8>, x: bool, sep: SymbolType, ns: Seq<NameV>) -> bool {
    forall|i: int| #![trigger ns[i]] 0 <= i < ns.len() - 1 ==> name_after_symbol(b, x, sep, ns[i], ns[i + 1])
}

/// Name `q` is read right after a comma that is read right after name `p`.
pub open spec fn name_after_comma(b: Seq<u8>, x: bool, p: NameV, q: NameV) -> bool {
    name_after_symbol(b, x, SymbolType::Comma, p, q)
}

/// The names `ns` are read one after another, each after a comma.
pub open spec fn names_comma_separated(b: Seq<u8>, x: bool, ns: Seq<NameV>) -> bool {
    names_separated_by(b, x, SymbolType::Comma, ns)
}

proof fn lemma_name_push(b: Seq<u8>, x: bool, sep: SymbolType, ns: Seq<NameV>, q: NameV)
    requires
        ns.len() > 0,
        names_separated_by(b, x, sep, ns),
        name_after_symbol(b, x, sep, ns.last(), q),
    ensures
        names_separated_by(b, x, sep, ns.push(q)),
{
    let qs = ns.push(q);
    assert forall|i: int| #![trigger qs[i]] 0 <= i < qs.len() - 1 implies name_after_symbol(
        b,
        x,
        sep,
        qs[i],
        qs[i + 1],
    ) by {
        if i < ns.len() - 1 {
            assert(qs[i] == ns[i] && qs[i + 1] == ns[i + 1]);
        } else {
            assert(qs[i] == ns.last() && qs[i + 1] == q);
        }
    }
}

/// Reading more names, each after a comma, keeps the list comma separated
/// and leaves at the front the token right after the last name.
#[verifier::spinoff_prover]
proof fn lemma_names_rest_adjacent(b: Seq<u8>, s: ParserV, names: Seq<NameV>)
    requires
        state_ok(b, s),
        fresh(s),
        names.len() > 0,
        front(b, s) == token_after(b, s.tokens.exclude_trivias, names.last().span.end - 1),
        names_comma_separated(b, s.tokens.exclude_trivias, names),
    ensures
        name_list_rest(b, s, names).0 matches Ok(ns) ==> {
            let s1 = name_list_rest(b, s, names).1;
            &&& names_comma_separated(b, s.tokens.exclude_trivias, ns)
            &&& ns.len() >= names.len()
            &&& ns.subrange(0, names.len() as int) == names
            &&& state_ok(b, s1)
            &&& fresh(s1)
            &&& s1.tokens.exclude_trivias == s.tokens.exclude_trivias
            &&& front(b, s1) == token_after(b, s.tokens.exclude_trivias, ns.last().span.end - 1)
            &&& !(front(b, s1) matches Some(t) && t.token_type == TokenTypeV::Symbol(
                SymbolType::Comma,
            ))
        },
    decreases b.len() + 2 - progress(s),
{
    reveal(name_list_rest);
    reveal(name);
    let x = s.tokens.exclude_trivias;
    lemma_fill_fresh(b, s);
    lemma_stream_fill(b, s.tokens);
    lemma_take_fresh(b, s);
    let ts1 = stream_fill(b, s.tokens);
    let s1 = ParserV { tokens: ts1, ..s };
    lemma_fill_fresh(b, s1);
    assert(peek_token(b, s).1 == s1);
    if let Some(c) = ts1.current {
        if c.token_type == TokenTypeV::Symbol(SymbolType::Comma) {
            let (r2, s2) = next_token(b, s1);
            if r2 is Ok {
                assert(s2 == ParserV { tokens: stream_next(b, ts1).1, ..s });
                lemma_take_fresh(b, s2);
                lemma_fill_fresh(b, s2);
                lemma_stream_fill(b, s2.tokens);
                let ts3 = stream_fill(b, s2.tokens);
                let s2p = ParserV { tokens: ts3, ..s2 };
                assert(peek_token(b, s2).1 == s2p);
                lemma_fill_fresh(b, s2p);
                let (r3, s3) = name(b, s2);
                if let Ok(n) = r3 {
                    if advanced(b, s, s3) {
                        assert(s3 == ParserV { tokens: stream_next(b, ts3).1, ..s });
                        assert(name_after_comma(b, x, names.last(), n));
                        lemma_name_push(b, x, SymbolType::Comma, names, n);
                        lemma_fill_fresh(b, s3);
                        lemma_names_rest_adjacent(b, s3, names.push(n));
                        if let Ok(ns) = name_list_rest(b, s3, names.push(n)).0 {
                            assert(ns.subrange(0, names.len() as int) =~= ns.subrange(
                                0,
                                names.len() + 1int,
                            ).subrange(0, names.len() as int));
                            assert(names.push(n).subrange(0, names.len() as int) =~= names);
                        }
                    }
                }
            }
        }
    }
}

/// In a generic `for` after its first name `n`, the names are read one
/// after another, each after a comma, the first being `n`, and the `in` is
/// the token right after the last name.
#[verifier::spinoff_prover]
pub proof fn lemma_generic_for_names_from_source(b: Seq<u8>, s: ParserV, span: Span, n: NameV)
    requires
        state_ok(b, s),
        fresh(s),
        front(b, s) == token_after(b, s.tokens.exclude_trivias, n.span.end - 1),
    ensures
        generic_for(b, s, span, n).0 matches Ok(gf) ==> {
            let x = s.tokens.exclude_trivias;
            &&& gf.names.len() > 0
            &&& gf.names[0] == n
            &&& names_comma_separated(b, x, gf.names)
            &&& token_after(b, x, gf.names.last().span.end - 1) matches Some(t)
            &&& t.token_type == keyword(KeywordType::In)
        },
{
    reveal(generic_for);
    lemma_names_rest_adjacent(b, s, seq![n]);
    if let Ok(ns) = name_list_rest(b, s, seq![n]).0 {
        let s1 = name_list_rest(b, s, seq![n]).1;
        lemma_fill_fresh(b, s1);
        assert(ns[0] == ns.subrange(0, 1)[0]);
    }
}

/// Reading more expressions of a list keeps the ones read before, in order.
#[verifier::spinoff_prover]
proof fn lemma_exprlist_rest_keeps(b: Seq<u8>, s: ParserV, es: Seq<ExprV>)
    ensures
        exprlist_rest(b, s, es).0 matches Ok(r) ==> r.len() >= es.len() && r.subrange(
            0,
            es.len() as int,
        ) == es,
    decreases b.len() + 2 - progress(s),
{
    reveal(exprlist_rest);
    reveal(expr);
    let (r, s1) = peek_token(b, s);
    if let Ok(t) = r {
        if is_type(t, symbol(SymbolType::Comma)) {
            let (r2, s2) = next_token(b, s1);
            if r2 is Ok {
                let (r3, s3) = is_token(b, s2, symbol(SymbolType::DotDotDot));
                if let Ok(stop) = r3 {
                    if advanced(b, s, s3) {
                        let (r4, s4) = expr(b, s3);
                        if let Ok(e) = r4 {
                            if stop {
                                assert(es.push(e).subrange(0, es.len() as int) =~= es);
                            } else if advanced(b, s, s4) {
                                lemma_exprlist_rest_keeps(b, s4, es.push(e));
                                if let Ok(q) = exprlist_rest(b, s4, es.push(e)).0 {
                                    assert(q.subrange(0, es.len() as int) =~= q.subrange(
                                        0,
                                        es.len() + 1int,
                                    ).subrange(0, es.len() as int));
                                    assert(es.push(e).subrange(0, es.len() as int) =~= es);
                                }
                            }
                        }
                    }
                }
            }
        } else {
            assert(es.subrange(0, es.len() as int) =~= es);
        }
    } else {
    }
}

/// A list of expressions is not empty, and its first expression is the one
/// read from the token at the front.
#[verifier::spinoff_prover]
pub proof fn lemma_exprlist_first(b: Seq<u8>, s: ParserV)
    ensures
        exprlist(b, s).0 matches Ok(es) ==> es.len() > 0 && starts_at_token(b, s, es[0]),
{
    reveal(exprlist);
    reveal(exprlist_rest);
    reveal(expr);
    lemma_expr_starts_at_first_token(b, s);
    let (r, s1) = expr(b, s);
    if let Ok(e) = r {
        lemma_exprlist_rest_keeps(b, s1, seq![e]);
        if let Ok(q) = exprlist_rest(b, s1, seq![e]).0 {
            assert(q[0] == q.subrange(0, 1)[0]);
        }
    }
}

/// In a generic `for`, the first expression after `in` is read right after
/// the `in`.
#[verifier::spinoff_prover]
pub proof fn lemma_generic_for_exprs_after_in(b: Seq<u8>, s: ParserV, span: Span, n: NameV)
    requires
        state_ok(b, s),
        fresh(s),
        front(b, s) == token_after(b, s.tokens.exclude_trivias, n.span.end - 1),
    ensures
        generic_for(b, s, span, n).0 matches Ok(gf) ==> {
            let x = s.tokens.exclude_trivias;
            &&& token_after(b, x, gf.names.last().span.end - 1) matches Some(t)
            &&& gf.exprlist.len() > 0
            &&& read_right_after(b, x, t.span.end - 1, gf.exprlist[0])
        },
{
    reveal(generic_for);
    lemma_names_rest_adjacent(b, s, seq![n]);
    if let Ok(ns) = name_list_rest(b, s, seq![n]).0 {
        let s1 = name_list_rest(b, s, seq![n]).1;
        lemma_fill_fresh(b, s1);
        lemma_take_fresh(b, s1);
        let (r2, s2) = expect_token(b, s1, keyword(KeywordType::In), "in"@);
        if r2 is Ok {
            assert(s2 == ParserV { tokens: stream_next(b, stream_fill(b, s1.tokens)).1, ..s1 });
            lemma_fill_fresh(b, s2);
            lemma_exprlist_first(b, s2);
        }
    }
}

/// In `local n1, ..., nk [= e1, ...]` (after `local`), the names are the
/// token at the front and the names read after it, each after a comma;
/// there are values exactly when the token after the last name is `=`, and
/// then the first value is read right after that `=`.
#[verifier::spinoff_prover]
#[verifier::rlimit(40)]
pub proof fn lemma_local_assign_from_source(b: Seq<u8>, s: ParserV, span: Span)
    requires
        state_ok(b, s),
        fresh(s),
    ensures
        local_assign(b, s, span).0 matches Ok(la) ==> {
            let x = s.tokens.exclude_trivias;
            &&& front(b, s) matches Some(t)
            &&& la.names.len() > 0
            &&& la.names[0].span == t.span
            &&& t.token_type == TokenTypeV::Name(la.names[0].name)
            &&& names_comma_separated(b, x, la.names)
            &&& !(token_after(b, x, la.names.last().span.end - 1) matches Some(c)
                && c.token_type == TokenTypeV::Symbol(SymbolType::Comma))
            &&& (la.exprs is Some) == (token_after(b, x, la.names.last().span.end - 1) matches Some(
                eq,
            ) && eq.token_type == TokenTypeV::Symbol(SymbolType::Equal))
            &&& la.exprs matches Some(es) ==> {
                &&& token_after(b, x, la.names.last().span.end - 1) matches Some(eq)
                &&& es.len() > 0
                &&& read_right_after(b, x, eq.span.end - 1, es[0])
            }
        },
{
    reveal(local_assign);
    reveal(name_list);
    reveal(name);
    let x = s.tokens.exclude_trivias;
    lemma_fill_fresh(b, s);
    lemma_stream_fill(b, s.tokens);
    lemma_take_fresh(b, s);
    let ts0 = stream_fill(b, s.tokens);
    let s0 = ParserV { tokens: ts0, ..s };
    assert(peek_token(b, s).1 == s0);
    let (r1, s1) = name(b, s);
    if let Ok(n0) = r1 {
        assert(s1 == ParserV { tokens: stream_next(b, ts0).1, ..s });
        lemma_fill_fresh(b, s1);
        lemma_names_rest_adjacent(b, s1, seq![n0]);
        if let Ok(names) = name_list_rest(b, s1, seq![n0]).0 {
            assert(names[0] == names.subrange(0, 1)[0]);
            let sn = name_list_rest(b, s1, seq![n0]).1;
            lemma_fill_fresh(b, sn);
            lemma_stream_fill(b, sn.tokens);
            lemma_take_fresh(b, sn);
            let sp = ParserV { tokens: stream_fill(b, sn.tokens), ..sn };
            assert(peek_token(b, sn).1 == sp);
            let (r4, s4) = next_token(b, sp);
            if r4 is Ok {
                assert(s4 == ParserV { tokens: stream_next(b, stream_fill(b, sn.tokens)).1, ..sn });
                lemma_fill_fresh(b, s4);
                lemma_exprlist_first(b, s4);
            }
        }
    }
}

/// Call arguments `a` read from the token `t` at the front: in parentheses
/// (none exactly when `)` follows `(` directly, else the first read right
/// after `(`), a string, or a table.
pub open spec fn args_read(b: Seq<u8>, x: bool, t: TokenV, a: CallArgsV) -> bool {
    match a {
        CallArgsV::Multiple { parens, exprs } => {
            &&& t.token_type == TokenTypeV::Symbol(SymbolType::OpenParen)
            &&& parens.start == t.span.start
            &&& exprs.len() == 0 ==> (token_after(b, x, t.span.end - 1) matches Some(c)
                && c.token_type == TokenTypeV::Symbol(SymbolType::CloseParen))
            &&& exprs.len() > 0 ==> read_right_after(b, x, t.span.end - 1, exprs[0])
        },
        CallArgsV::Str(st) => t.span == st.span && t.token_type == TokenTypeV::Str(st.value),
        CallArgsV::Table(_) => t.token_type == TokenTypeV::Symbol(SymbolType::OpenBrace),
    }
}

#[verifier::spinoff_prover]
proof fn lemma_call_args_parens_from_source(b: Seq<u8>, s: ParserV, left: Span)
    requires
        state_ok(b, s),
        fresh(s),
        s.tokens.current matches Some(t) && t.span == left && t.token_type == TokenTypeV::Symbol(
            SymbolType::OpenParen,
        ),
    ensures
        call_args_parens(b, s, left).0 matches Ok(a) ==> args_read(
            b,
            s.tokens.exclude_trivias,
            s.tokens.current->Some_0,
            a,
        ),
{
    reveal(call_args_parens);
    reveal(exprlist);
    reveal(exprlist_rest);
    reveal(expr);
    lemma_take_fresh(b, s);
    lemma_fill_fresh(b, s);
    let (r, s1) = next_token(b, s);
    if r is Ok {
        assert(s1 == ParserV { tokens: stream_next(b, stream_fill(b, s.tokens)).1, ..s });
        lemma_fill_fresh(b, s1);
        lemma_stream_fill(b, s1.tokens);
        let s2 = ParserV { tokens: stream_fill(b, s1.tokens), ..s1 };
        assert(peek_token(b, s1).1 == s2);
        lemma_fill_fresh(b, s2);
        lemma_exprlist_first(b, s2);
    }
}

/// Call arguments are read from the token at the front.
#[verifier::spinoff_prover]
pub proof fn lemma_call_args_from_source(b: Seq<u8>, s: ParserV)
    requires
        state_ok(b, s),
        fresh(s),
    ensures
        call_args(b, s).0 matches Ok(a) ==> (front(b, s) matches Some(t) && args_read(
            b,
            s.tokens.exclude_trivias,
            t,
            a,
        )),
{
    reveal(call_args);
    reveal(call_args_parens);
    reveal(table);
    lemma_fill_fresh(b, s);
    lemma_stream_fill(b, s.tokens);
    let s1 = ParserV { tokens: stream_fill(b, s.tokens), ..s };
    assert(peek_token(b, s).1 == s1);
    lemma_fill_fresh(b, s1);
    if let Some(t) = s1.tokens.current {
        if t.token_type == TokenTypeV::Symbol(SymbolType::OpenParen) {
            lemma_call_args_parens_from_source(b, s1, t.span);
        }
    }
}

/// A suffix is read from the token at the front: a call's arguments; a
/// method call's `:`, its method name right after it, and its arguments
/// read from the token right after the name; a `.` and the name right after
/// it; or a `[` and the index expression read right after it.
#[verifier::spinoff_prover]
#[verifier::rlimit(60)]
pub proof fn lemma_suffix_from_source(b: Seq<u8>, s: ParserV)
    requires
        state_ok(b, s),
        fresh(s),
    ensures
        suffix(b, s).0 matches Ok(sx) ==> {
            let x = s.tokens.exclude_trivias;
            &&& front(b, s) matches Some(t)
            &&& match sx {
                SuffixV::Call(CallV::Args(a)) => args_read(b, x, t, a),
                SuffixV::Call(CallV::Method(m)) => {
                    &&& t.token_type == TokenTypeV::Symbol(SymbolType::Colon)
                    &&& m.colon == t.span
                    &&& token_after(b, x, t.span.end - 1) matches Some(nt)
                    &&& nt.span == m.indexer.span
                    &&& nt.token_type == TokenTypeV::Name(m.indexer.name)
                    &&& token_after(b, x, nt.span.end - 1) matches Some(at)
                    &&& args_read(b, x, at, *m.args)
                },
                SuffixV::Index(SuffixIndexV::Named { dot, indexer }) => {
                    &&& t.token_type == TokenTypeV::Symbol(SymbolType::Dot)
                    &&& dot == t.span
                    &&& token_after(b, x, t.span.end - 1) matches Some(nt)
                    &&& nt.span == indexer.span
                    &&& nt.token_type == TokenTypeV::Name(indexer.name)
                },
                SuffixV::Index(SuffixIndexV::Computed { spanned, expr: e }) => {
                    &&& t.token_type == TokenTypeV::Symbol(SymbolType::OpenBracket)
                    &&& spanned.start == t.span.start
                    &&& read_right_after(b, x, t.span.end - 1, *e)
                },
            }
        },
{
    reveal(suffix);
    reveal(call_args_parens);
    reveal(call_args);
    reveal(table);
    reveal(expr);
    reveal(name);
    lemma_fill_fresh(b, s);
    lemma_stream_fill(b, s.tokens);
    lemma_take_fresh(b, s);
    let ts1 = stream_fill(b, s.tokens);
    let s1 = ParserV { tokens: ts1, ..s };
    assert(peek_token(b, s).1 == s1);
    lemma_fill_fresh(b, s1);
    if let Some(t) = ts1.current {
        if t.token_type == TokenTypeV::Symbol(SymbolType::OpenParen) {
            lemma_call_args_parens_from_source(b, s1, t.span);
        } else if t.token_type == TokenTypeV::Symbol(SymbolType::OpenBracket)
            || t.token_type == TokenTypeV::Symbol(SymbolType::Dot)
            || t.token_type == TokenTypeV::Symbol(SymbolType::Colon) {
            let (r3, s3) = next_token(b, s1);
            if r3 is Ok {
                assert(s3 == ParserV { tokens: stream_next(b, ts1).1, ..s });
                lemma_fill_fresh(b, s3);
                lemma_expr_starts_at_first_token(b, s3);
                lemma_take_fresh(b, s3);
                lemma_stream_fill(b, s3.tokens);
                let ts4 = stream_fill(b, s3.tokens);
                let s3p = ParserV { tokens: ts4, ..s3 };
                assert(peek_token(b, s3).1 == s3p);
                let s4 = ParserV { tokens: stream_next(b, ts4).1, ..s };
                if name(b, s3).0 is Ok {
                    assert(name(b, s3).1 == s4);
                    lemma_fill_fresh(b, s4);
                    lemma_call_args_from_source(b, s4);
                }
            }
        }
    }
}

/// The parameters `ps` are read in parentheses opening at `open`: none
/// exactly when `)` follows `(` directly; otherwise the first right after
/// `(`, each further one right after a comma that follows the one before,
/// and the `)` right after the last.
pub open spec fn params_read(b: Seq<u8>, x: bool, open: TokenV, ps: Seq<FunctionParamV>) -> bool {
    &&& open.token_type == TokenTypeV::Symbol(SymbolType::OpenParen)
    &&& (ps.len() == 0) == (token_after(b, x, open.span.end - 1) matches Some(t)
        && t.token_type == TokenTypeV::Symbol(SymbolType::CloseParen))
    &&& ps.len() > 0 ==> (token_after(b, x, open.span.end - 1) matches Some(t) && t.span
        == param_span(ps[0]))
    &&& comma_separated(b, x, ps)
    &&& ps.len() > 0 ==> (token_after(b, x, param_span(ps.last()).end - 1) matches Some(t)
        && t.token_type == TokenTypeV::Symbol(SymbolType::CloseParen))
}

proof fn lemma_params_read(b: Seq<u8>, s: ParserV)
    requires
        state_ok(b, s),
        fresh(s),
    ensures
        function_params(b, s).0 matches Ok(ps) ==> (front(b, s) matches Some(open) && params_read(
            b,
            s.tokens.exclude_trivias,
            open,
            ps,
        )),
{
    lemma_params_from_source(b, s);
}

/// The rest of a function statement's name: more names each after a `.`,
/// then maybe a `:` and the method name right after it; the token after
/// the whole name is left at the front.
#[verifier::spinoff_prover]
proof fn lemma_function_name_rest(b: Seq<u8>, s: ParserV, names: Seq<NameV>)
    requires
        state_ok(b, s),
        fresh(s),
        names.len() > 0,
        front(b, s) == token_after(b, s.tokens.exclude_trivias, names.last().span.end - 1),
        names_separated_by(b, s.tokens.exclude_trivias, SymbolType::Dot, names),
    ensures
        function_assign_name_rest(b, s, names).0 matches Ok(fan) ==> {
            let x = s.tokens.exclude_trivias;
            let s1 = function_assign_name_rest(b, s, names).1;
            &&& names_separated_by(b, x, SymbolType::Dot, fan.names)
            &&& fan.names.len() >= names.len()
            &&& fan.names.subrange(0, names.len() as int) == names
            &&& state_ok(b, s1)
            &&& fresh(s1)
            &&& s1.tokens.exclude_trivias == x
            &&& match fan.method_indexer {
                Some(m) => {
                    &&& name_after_symbol(b, x, SymbolType::Colon, fan.names.last(), m)
                    &&& front(b, s1) == token_after(b, x, m.span.end - 1)
                },
                None => front(b, s1) == token_after(b, x, fan.names.last().span.end - 1),
            }
        },
    decreases b.len() + 2 - progress(s),
{
    reveal(function_assign_name_rest);
    reveal(name);
    let x = s.tokens.exclude_trivias;
    lemma_fill_fresh(b, s);
    lemma_stream_fill(b, s.tokens);
    lemma_take_fresh(b, s);
    let ts1 = stream_fill(b, s.tokens);
    let s1 = ParserV { tokens: ts1, ..s };
    lemma_fill_fresh(b, s1);
    assert(peek_token(b, s).1 == s1);
    if let Some(c) = ts1.current {
        if c.token_type == TokenTypeV::Symbol(SymbolType::Colon) || c.token_type
            == TokenTypeV::Symbol(SymbolType::Dot) {
            let s2 = take_token(b, s1).1;
            assert(s2 == ParserV { tokens: stream_next(b, ts1).1, ..s });
            lemma_take_fresh(b, s2);
            lemma_fill_fresh(b, s2);
            lemma_stream_fill(b, s2.tokens);
            let ts3 = stream_fill(b, s2.tokens);
            let s2p = ParserV { tokens: ts3, ..s2 };
            assert(peek_token(b, s2).1 == s2p);
            let (r3, s3) = name(b, s2);
            if let Ok(n) = r3 {
                assert(s3 == ParserV { tokens: stream_next(b, ts3).1, ..s });
                lemma_fill_fresh(b, s3);
                if c.token_type == TokenTypeV::Symbol(SymbolType::Dot) && advanced(b, s, s3) {
                    assert(name_after_symbol(b, x, SymbolType::Dot, names.last(), n));
                    lemma_name_push(b, x, SymbolType::Dot, names, n);
                    lemma_function_name_rest(b, s3, names.push(n));
                    if let Ok(fan) = function_assign_name_rest(b, s3, names.push(n)).0 {
                        assert(fan.names.subrange(0, names.len() as int) =~= fan.names.subrange(
                            0,
                            names.len() + 1int,
                        ).subrange(0, names.len() as int));
                        assert(names.push(n).subrange(0, names.len() as int) =~= names);
                    }
                } else {
                    assert(names.subrange(0, names.len() as int) =~= names);
                }
            }
        } else {
            assert(names.subrange(0, names.len() as int) =~= names);
        }
    }
}

/// In a function statement (after `function`), the name starts with the
/// token at the front, its parts are read one after another each after a
/// `.`, a method name is read right after a `:` that follows the last part,
/// and the parameter list opens with the token right after the whole name.
#[verifier::spinoff_prover]
#[verifier::rlimit(40)]
pub proof fn lemma_function_stmt_from_source(b: Seq<u8>, s: ParserV, span: Span)
    requires
        state_ok(b, s),
        fresh(s),
    ensures
        function_stmt(b, s, span).0 matches Ok(fa) ==> {
            let x = s.tokens.exclude_trivias;
            let ns = fa.name.names;
            let name_end = match fa.name.method_indexer {
                Some(m) => m.span.end - 1,
                None => ns.last().span.end - 1,
            };
            &&& front(b, s) matches Some(t)
            &&& ns.len() > 0
            &&& ns[0].span == t.span
            &&& t.token_type == TokenTypeV::Name(ns[0].name)
            &&& names_separated_by(b, x, SymbolType::Dot, ns)
            &&& fa.name.method_indexer matches Some(m) ==> name_after_symbol(
                b,
                x,
                SymbolType::Colon,
                ns.last(),
                m,
            )
            &&& token_after(b, x, name_end) matches Some(open)
            &&& params_read(b, x, open, fa.params)
        },
{
    reveal(function_stmt);
    reveal(function_assign_name);
    reveal(name);
    let x = s.tokens.exclude_trivias;
    lemma_fill_fresh(b, s);
    lemma_stream_fill(b, s.tokens);
    lemma_take_fresh(b, s);
    let ts0 = stream_fill(b, s.tokens);
    let s0 = ParserV { tokens: ts0, ..s };
    assert(peek_token(b, s).1 == s0);
    let (r1, s1) = name(b, s);
    if let Ok(n0) = r1 {
        assert(s1 == ParserV { tokens: stream_next(b, ts0).1, ..s });
        lemma_fill_fresh(b, s1);
        lemma_function_name_rest(b, s1, seq![n0]);
        if let Ok(fan) = function_assign_name_rest(b, s1, seq![n0]).0 {
            assert(fan.names[0] == fan.names.subrange(0, 1)[0]);
            let sn = function_assign_name_rest(b, s1, seq![n0]).1;
            lemma_params_read(b, sn);
        }
    }
}

/// In `local function n (params) ... end` (with `function` current), the
/// name is the token right after `function`, and the parameter list opens
/// with the token right after the name.
#[verifier::spinoff_prover]
pub proof fn lemma_local_function_from_source(b: Seq<u8>, s: ParserV, span: Span)
    requires
        state_ok(b, s),
        fresh(s),
        s.tokens.current is Some,
    ensures
        local_function(b, s, span).0 matches Ok(lf) ==> {
            let x = s.tokens.exclude_trivias;
            &&& token_after(b, x, s.tokens.current->Some_0.span.end - 1) matches Some(t)
            &&& lf.name.span == t.span
            &&& t.token_type == TokenTypeV::Name(lf.name.name)
            &&& token_after(b, x, lf.name.span.end - 1) matches Some(open)
            &&& params_read(b, x, open, lf.params)
        },
{
    reveal(local_function);
    reveal(name);
    lemma_take_fresh(b, s);
    lemma_fill_fresh(b, s);
    let (r1, s1) = next_token(b, s);
    if r1 is Ok {
        assert(s1 == ParserV { tokens: stream_next(b, stream_fill(b, s.tokens)).1, ..s });
        lemma_fill_fresh(b, s1);
        lemma_stream_fill(b, s1.tokens);
        lemma_take_fresh(b, s1);
        let ts2 = stream_fill(b, s1.tokens);
        assert(peek_token(b, s1).1 == ParserV { tokens: ts2, ..s1 });
        let (r2, s2) = name(b, s1);
        if r2 is Ok {
            assert(s2 == ParserV { tokens: stream_next(b, ts2).1, ..s });
            lemma_fill_fresh(b, s2);
            lemma_params_read(b, s2);
        }
    }
}

/// A function literal's parameter list opens with the token at the front.
pub proof fn lemma_anon_fn_params_from_source(b: Seq<u8>, s: ParserV, start: Span)
    requires
        state_ok(b, s),
        fresh(s),
    ensures
        anon_fn(b, s, start).0 matches Ok(f) ==> (front(b, s) matches Some(open) && params_read(
            b,
            s.tokens.exclude_trivias,
            open,
            f.params,
        )),
{
    reveal(anon_fn);
    reveal(function_params);
    lemma_params_read(b, s);
}

/// The stream stands right after the token that ends at `span`.
pub open spec fn right_after_span(s: ParserV, span: Span) -> bool {
    &&& s.tokens.current is None
    &&& s.tokens.lookahead is None
    &&& s.tokens.offset == span.end - 1
}

/// A `while` loop's condition is read right after its `while`.
pub proof fn lemma_while_condition_after_keyword(b: Seq<u8>, s: ParserV, span: Span)
    requires
        state_ok(b, s),
        right_after_span(s, span),
    ensures
        while_stmt(b, s, span).0 matches Ok(w) ==> read_right_after(
            b,
            s.tokens.exclude_trivias,
            span.end - 1,
            w.condition,
        ),
{
    reveal(while_stmt);
    reveal(expr);
    lemma_fill_fresh(b, s);
    lemma_expr_starts_at_first_token(b, s);
}

/// An `if` statement's condition is read right after its `if`.
pub proof fn lemma_if_condition_after_keyword(b: Seq<u8>, s: ParserV, span: Span)
    requires
        state_ok(b, s),
        right_after_span(s, span),
    ensures
        if_stmt(b, s, span).0 matches Ok(i) ==> read_right_after(
            b,
            s.tokens.exclude_trivias,
            span.end - 1,
            i.condition,
        ),
{
    reveal(if_stmt);
    reveal(expr);
    lemma_fill_fresh(b, s);
    lemma_expr_starts_at_first_token(b, s);
}

/// A `return` is the token at the front, and its first value (if any) is
/// read right after it.
#[verifier::spinoff_prover]
pub proof fn lemma_return_from_source(b: Seq<u8>, s: ParserV)
    requires
        state_ok(b, s),
        fresh(s),
    ensures
        last_stmt(b, s).0 matches Ok(LastStmtV::Return(ret)) ==> {
            &&& front(b, s) matches Some(t)
            &&& t.token_type == keyword(KeywordType::Return)
            &&& ret.token == t.span
            &&& ret.exprs.len() > 0 ==> read_right_after(
                b,
                s.tokens.exclude_trivias,
                t.span.end - 1,
                ret.exprs[0],
            )
        },
{
    reveal(last_stmt);
    reveal(exprlist);
    reveal(exprlist_rest);
    reveal(expr);
    lemma_fill_fresh(b, s);
    lemma_stream_fill(b, s.tokens);
    lemma_take_fresh(b, s);
    let ts1 = stream_fill(b, s.tokens);
    let s1 = ParserV { tokens: ts1, ..s };
    assert(peek_token(b, s).1 == s1);
    let s2 = take_token(b, s1).1;
    assert(s2 == ParserV { tokens: stream_next(b, ts1).1, ..s });
    lemma_fill_fresh(b, s2);
    lemma_stream_fill(b, s2.tokens);
    let s3 = ParserV { tokens: stream_fill(b, s2.tokens), ..s2 };
    assert(peek_token(b, s2).1 == s3);
    lemma_fill_fresh(b, s3);
    lemma_stream_fill(b, s3.tokens);
    assert(peek_token(b, s3).1 == s3);
    lemma_exprlist_first(b, s3);
}

} // verus!
