//! Operator precedence and associativity of the expressions the parser
//! builds, stated over the expression rules.

use crate::ast::{BinaryV, BinopKind, ExprV, UnaryV};
use crate::parser::rules::{
    advanced, binop, complex, complex_rest, expr, moved, noncomplex, prefix, primary, simple, unop,
};
use crate::parser::steps::{next_token, peek_token};
use crate::parser::state::{progress, ParseErrorV, ParserV};
use crate::tokenizer::stream::lemma_next_token_from_bounds;
use vstd::prelude::*;

verus! {

/// The least order an operator may have in the left operand of `op`: as
/// tight as `op` where it groups to the left, tighter where to the right.
pub open spec fn left_min(op: BinopKind) -> int {
    if op.spec_is_right_associative() {
        op.spec_order() + 1
    } else {
        op.spec_order() as int
    }
}

/// The least order an operator may have in the right operand of `op`:
/// tighter than `op` where it groups to the left, as tight where to the
/// right.
pub open spec fn right_min(op: BinopKind) -> int {
    if op.spec_is_right_associative() {
        op.spec_order() as int
    } else {
        op.spec_order() + 1
    }
}

/// A binary expression at the top of `e` has an operator of order at least
/// `min`.
pub open spec fn binds_at_least(e: ExprV, min: int) -> bool {
    e matches ExprV::Binary(x) ==> x.op.kind.spec_order() >= min
}

/// Every operator in the operator tree of `e` (through binary and unary
/// operations, not into parentheses, calls or literals) binds as the
/// precedence and associativity of its parent allow: the operands of a
/// binary operator bind at least as tight as `left_min` and `right_min`
/// say, and the operand of a unary operator binds at least as tight as it.
pub open spec fn well_grouped(e: ExprV) -> bool
    decreases e,
{
    match e {
        ExprV::Binary(x) => {
            &&& binds_at_least(*x.left, left_min(x.op.kind))
            &&& binds_at_least(*x.right, right_min(x.op.kind))
            &&& well_grouped(*x.left)
            &&& well_grouped(*x.right)
        },
        ExprV::Unary(u) => {
            &&& binds_at_least(*u.expr, u.op.kind.spec_order() as int)
            &&& well_grouped(*u.expr)
        },
        _ => true,
    }
}

/// The binary operators that bind at least as tight as a unary operator:
/// exponentiation, and the multiplicative operators.
pub open spec fn binds_over_unary(k: BinopKind) -> bool {
    ||| k is Exponent
    ||| k is Multiply
    ||| k is Divide
    ||| k is FloorDivision
    ||| k is Modulo
}

/// How unary operators group with binary ones in the operator tree of `e`:
/// the operand of a unary operator takes an exponentiation or
/// multiplicative operation whole, and a unary operation is the left
/// operand only of a binary operator that binds looser than that.
pub open spec fn unary_grouped(e: ExprV) -> bool
    decreases e,
{
    match e {
        ExprV::Binary(x) => {
            &&& (*x.left is Unary ==> !binds_over_unary(x.op.kind))
            &&& unary_grouped(*x.left)
            &&& unary_grouped(*x.right)
        },
        ExprV::Unary(u) => {
            &&& (*u.expr matches ExprV::Binary(y) ==> binds_over_unary(y.op.kind))
            &&& unary_grouped(*u.expr)
        },
        _ => true,
    }
}

/// No binary operator of order `min` or more is at the current token.
pub open spec fn stops_below(b: Seq<u8>, s: ParserV, min: int) -> bool {
    binop(b, s).0 matches Ok(op) ==> op.kind.spec_order() < min
}

/// Looking for an operator a second time finds the same, in the same state.
proof fn lemma_binop_again(b: Seq<u8>, s: ParserV)
    ensures
        binop(b, binop(b, s).1) == binop(b, s),
{
    reveal(binop);
    let ts = s.tokens;
    if ts.current is None && ts.lookahead is None && 0 <= ts.offset < b.len() {
        lemma_next_token_from_bounds(b, ts.exclude_trivias, ts.offset);
    }
}

/// What `prefix` gives is no operation.
proof fn lemma_prefix_no_operator(b: Seq<u8>, s: ParserV)
    ensures
        prefix(b, s).0 matches Ok(e) ==> !(e is Binary) && !(e is Unary),
{
    reveal(prefix);
}

/// What `primary` gives is no operation.
proof fn lemma_primary_no_operator(b: Seq<u8>, s: ParserV)
    ensures
        primary(b, s).0 matches Ok(e) ==> !(e is Binary) && !(e is Unary),
{
    reveal(primary);
    lemma_prefix_no_operator(b, s);
}

/// What `simple` gives is no operation.
proof fn lemma_simple_no_operator(b: Seq<u8>, s: ParserV)
    ensures
        simple(b, s).0 matches Ok(e) ==> !(e is Binary) && !(e is Unary),
{
    reveal(simple);
    lemma_primary_no_operator(b, peek_token(b, s).1);
}

/// An operand extended by the operators that follow it stays well grouped,
/// binds at least as tight as `min`, and ends before any operator of order
/// `min` or more.
#[verifier::spinoff_prover]
proof fn lemma_complex_rest_grouped(b: Seq<u8>, s: ParserV, lhs: ExprV, min: usize)
    requires
        well_grouped(lhs),
        binds_at_least(lhs, min as int),
        lhs matches ExprV::Binary(x) ==> stops_below(b, s, right_min(x.op.kind)),
        unary_grouped(lhs),
        lhs matches ExprV::Unary(u) ==> stops_below(b, s, u.op.kind.spec_order() as int),
    ensures
        complex_rest(b, s, lhs, min).0 matches Ok(e) ==> {
            &&& well_grouped(e)
            &&& unary_grouped(e)
            &&& binds_at_least(e, min as int)
            &&& stops_below(b, complex_rest(b, s, lhs, min).1, min as int)
        },
    decreases b.len() + 2 - progress(s), 18int,
{
    reveal(complex_rest);
    lemma_binop_again(b, s);
    let (r, s1) = binop(b, s);
    if let Ok(op) = r {
        if op.kind.spec_order() >= min {
            let (r2, s2) = next_token(b, s1);
            if r2 is Ok && advanced(b, s, s2) {
                let next_min = if op.kind.spec_is_right_associative() {
                    op.kind.spec_order()
                } else {
                    (op.kind.spec_order() + 1) as usize
                };
                lemma_complex_grouped(b, s2, next_min);
                let (r3, s3) = complex(b, s2, next_min);
                if let Ok(rhs) = r3 {
                    if advanced(b, s, s3) {
                        let e = ExprV::Binary(
                            BinaryV { left: Box::new(lhs), op, right: Box::new(rhs) },
                        );
                        lemma_complex_rest_grouped(b, s3, e, min);
                    }
                }
            }
        }
    }
}

/// A unary operation or a simple expression is well grouped, and is no
/// binary operation.
#[verifier::spinoff_prover]
proof fn lemma_noncomplex_grouped(b: Seq<u8>, s: ParserV)
    ensures
        noncomplex(b, s).0 matches Ok(e) ==> {
            &&& well_grouped(e)
            &&& unary_grouped(e)
            &&& !(e is Binary)
            &&& e matches ExprV::Unary(u) ==> stops_below(
                b,
                noncomplex(b, s).1,
                u.op.kind.spec_order() as int,
            )
        },
    decreases b.len() + 2 - progress(s), 17int,
{
    reveal(noncomplex);
    let (r, s1) = unop(b, s);
    match r {
        Ok(op) => {
            if advanced(b, s, s1) {
                lemma_complex_grouped(b, s1, op.kind.spec_order());
                let (r2, s2) = complex(b, s1, op.kind.spec_order());
                if let Ok(e) = r2 {
                    let u = ExprV::Unary(UnaryV { op, expr: Box::new(e) });
                    assert(noncomplex(b, s) == (Ok::<ExprV, Option<ParseErrorV>>(u), s2));
                    assert(well_grouped(u));
                }
            }
        },
        Err(_) => {
            if moved(b, s, s1) {
                lemma_simple_no_operator(b, s1);
            }
        },
    }
}

/// An expression read with operators of order at least `min` is well
/// grouped, binds at least as tight as `min`, and ends before any operator
/// of order `min` or more.
#[verifier::spinoff_prover]
pub proof fn lemma_complex_grouped(b: Seq<u8>, s: ParserV, min: usize)
    ensures
        complex(b, s, min).0 matches Ok(e) ==> {
            &&& well_grouped(e)
            &&& unary_grouped(e)
            &&& binds_at_least(e, min as int)
            &&& stops_below(b, complex(b, s, min).1, min as int)
        },
    decreases b.len() + 2 - progress(s), 19int,
{
    reveal(complex);
    lemma_noncomplex_grouped(b, s);
    let (r, s1) = noncomplex(b, s);
    if let Ok(e) = r {
        if advanced(b, s, s1) {
            lemma_complex_rest_grouped(b, s1, e, min);
        }
    }
}

/// Operator precedence and associativity: every expression the parser
/// reads is grouped by its operators' orders. A binary operator's operands
/// bind tighter than it, except that the left operand of an operator that
/// groups to the left (and the right operand of one that groups to the
/// right) may use an operator of the same order; a unary operator's operand
/// binds at least as tight as the unary operator. Unary operators bind
/// looser than exponentiation and as tight as the multiplicative
/// operators, tighter than all others: `-a ^ b` is `-(a ^ b)`, `-a * b` is
/// `-(a * b)`, and `-a + b` is `(-a) + b`.
#[verifier::spinoff_prover]
pub proof fn lemma_expr_well_grouped(b: Seq<u8>, s: ParserV)
    ensures
        expr(b, s).0 matches Ok(e) ==> well_grouped(e) && unary_grouped(e),
{
    reveal(expr);
    lemma_complex_grouped(b, s, 1);
}

/// The precedence classes of Lua's binary operators, loosest first: `or`;
/// `and`; the comparisons; `..`; `+ -`; `* / // %`; `^`.
pub open spec fn lua_class(k: BinopKind) -> int {
    match k {
        BinopKind::Or => 0,
        BinopKind::And => 1,
        BinopKind::Equality | BinopKind::Inequality | BinopKind::GreaterThan
        | BinopKind::GreaterEqual | BinopKind::LessThan | BinopKind::LessEqual => 2,
        BinopKind::Concat => 3,
        BinopKind::Add | BinopKind::Subtract => 4,
        BinopKind::Multiply | BinopKind::Divide | BinopKind::FloorDivision
        | BinopKind::Modulo => 5,
        BinopKind::Exponent => 6,
    }
}

/// `..` and `^` group to the right, all others to the left.
pub open spec fn lua_groups_right(k: BinopKind) -> bool {
    k is Concat || k is Exponent
}

/// A binary operation at the top of `e`, if any, is in class `c` or above.
pub open spec fn in_class_at_least(e: ExprV, c: int) -> bool {
    e matches ExprV::Binary(x) ==> lua_class(x.op.kind) >= c
}

/// The operator tree of `e` is grouped by Lua's precedence classes: the left
/// operand of a binary operator is in its class or above (strictly above
/// where the operator groups to the right), its right operand strictly
/// above (or in its class where it groups to the right).
pub open spec fn lua_grouped(e: ExprV) -> bool
    decreases e,
{
    match e {
        ExprV::Binary(x) => {
            let c = lua_class(x.op.kind);
            let r = lua_groups_right(x.op.kind);
            &&& in_class_at_least(*x.left, if r { c + 1 } else { c })
            &&& in_class_at_least(*x.right, if r { c } else { c + 1 })
            &&& lua_grouped(*x.left)
            &&& lua_grouped(*x.right)
        },
        ExprV::Unary(u) => lua_grouped(*u.expr),
        _ => true,
    }
}

/// The operator orders the parser uses rank the operators as Lua's
/// precedence classes do, and group the same ones to the right.
proof fn lemma_orders_follow_classes(k: BinopKind, m: BinopKind)
    ensures
        (k.spec_order() >= m.spec_order()) == (lua_class(k) >= lua_class(m)),
        (k.spec_order() > m.spec_order()) == (lua_class(k) > lua_class(m)),
        k.spec_is_right_associative() == lua_groups_right(k),
{
}

proof fn lemma_well_grouped_by_class(e: ExprV)
    requires
        well_grouped(e),
    ensures
        lua_grouped(e),
    decreases e,
{
    match e {
        ExprV::Binary(x) => {
            lemma_well_grouped_by_class(*x.left);
            lemma_well_grouped_by_class(*x.right);
            if let ExprV::Binary(l) = *x.left {
                lemma_orders_follow_classes(l.op.kind, x.op.kind);
            }
            if let ExprV::Binary(r) = *x.right {
                lemma_orders_follow_classes(r.op.kind, x.op.kind);
            }
            lemma_orders_follow_classes(x.op.kind, x.op.kind);
        },
        ExprV::Unary(u) => lemma_well_grouped_by_class(*u.expr),
        _ => {},
    }
}

/// Every expression the parser reads is grouped by Lua's precedence classes
/// and associativity: `a + b * c` is `a + (b * c)`, `a - b - c` is
/// `(a - b) - c`, `a .. b .. c` is `a .. (b .. c)`, `a ^ b ^ c` is
/// `a ^ (b ^ c)`, `a or b and c` is `a or (b and c)`.
pub proof fn lemma_expr_follows_lua_precedence(b: Seq<u8>, s: ParserV)
    ensures
        expr(b, s).0 matches Ok(e) ==> lua_grouped(e) && unary_grouped(e),
{
    lemma_expr_well_grouped(b, s);
    if let Ok(e) = expr(b, s).0 {
        lemma_well_grouped_by_class(e);
    }
}

} // verus!
