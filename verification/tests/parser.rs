use satlight::ast::{
    BinopKind, Call, CallArgs, Expr, LastStmt, Literal, Stmt, TableField, UnopKind,
};
use satlight::location::Position;
use satlight::parse;
use satlight::parser::{ParseErrorMessage, Parser};
use satlight::tokenizer::Tokens;

fn parse_ok(input: &str) -> satlight::ast::Ast {
    match parse(input) {
        Ok(ast) => ast,
        Err(e) => panic!("{input:?} did not parse: {e:?}"),
    }
}

fn parse_err(input: &str) -> satlight::parser::ParseError {
    match parse(input) {
        Ok(ast) => panic!("{input:?} parsed: {ast:?}"),
        Err(e) => e,
    }
}

#[test]
fn empty_chunk() {
    let ast = parse_ok("");
    assert_eq!(ast.block.stmts.len(), 0);
    assert!(ast.block.last_stmt.is_none());
}

#[test]
fn local_assignment() {
    let ast = parse_ok("local x, y = 1, 2");
    assert_eq!(ast.block.stmts.len(), 1);
    match &ast.block.stmts[0] {
        Stmt::LocalAssign(la) => {
            assert_eq!(la.names.len(), 2);
            assert_eq!(la.names[0].name, "x");
            assert_eq!(la.names[1].name, "y");
            assert_eq!(la.exprs.as_ref().map(|e| e.len()), Some(2));
        },
        other => panic!("unexpected statement {other:?}"),
    }
}

#[test]
fn local_without_values() {
    let ast = parse_ok("local a");
    match &ast.block.stmts[0] {
        Stmt::LocalAssign(la) => assert!(la.exprs.is_none()),
        other => panic!("unexpected statement {other:?}"),
    }
}

#[test]
fn break_outside_loop_is_an_error() {
    let e = parse_err("break");
    assert!(matches!(e.message, ParseErrorMessage::InvalidBreakUse));
    assert_eq!(e.position, Position { line: 1, column: 6, offset: 5 });
}

#[test]
fn break_inside_loop() {
    let ast = parse_ok("while true do break end");
    match &ast.block.stmts[0] {
        Stmt::While(w) => assert!(matches!(w.block.last_stmt, Some(LastStmt::Break(_)))),
        other => panic!("unexpected statement {other:?}"),
    }
}

#[test]
fn break_inside_if_inside_loop() {
    parse_ok("for i = 1, 10 do if i then break end end");
    let e = parse_err("if x then break end");
    assert!(matches!(e.message, ParseErrorMessage::InvalidBreakUse));
}

#[test]
fn varargs_at_top_level() {
    let ast = parse_ok("print(...)");
    assert!(matches!(ast.block.stmts[0], Stmt::Call(Call::Args(CallArgs::Multiple { .. }))));
}

#[test]
fn varargs_in_function_without_them() {
    let e = parse_err("function f() return ... end");
    assert!(matches!(e.message, ParseErrorMessage::InvalidVarargsUse));
}

#[test]
fn varargs_in_function_with_them() {
    parse_ok("function f(a, ...) return ... end");
    parse_ok("local g = function(...) return select('#', ...) end");
}

#[test]
fn leftover_end_has_no_text() {
    let e = parse_err("end");
    match e.message {
        ParseErrorMessage::UnexpectedToken(text) => assert_eq!(text, "<unknown>"),
        other => panic!("unexpected message {other:?}"),
    }
    assert_eq!(e.position, Position { line: 1, column: 4, offset: 3 });
}

#[test]
fn leftover_end_shows_the_text_its_span_cuts() {
    let e = parse_err("end x");
    match e.message {
        ParseErrorMessage::UnexpectedToken(text) => assert_eq!(text, "nd "),
        other => panic!("unexpected message {other:?}"),
    }
}

#[test]
fn missing_expression() {
    let e = parse_err("x = ");
    match e.message {
        ParseErrorMessage::Expected(what) => assert_eq!(what, "<expr>"),
        other => panic!("unexpected message {other:?}"),
    }
    assert_eq!(e.position, Position { line: 1, column: 5, offset: 4 });
}

#[test]
fn missing_end() {
    let e = parse_err("do x = 1");
    match e.message {
        ParseErrorMessage::Expected(what) => assert_eq!(what, "end"),
        other => panic!("unexpected message {other:?}"),
    }
}

#[test]
fn tokenization_errors_become_parse_errors() {
    let e = parse_err("x = \"abc");
    assert!(matches!(e.message, ParseErrorMessage::Tokenization(_)));
}

fn assigned_value(ast: &satlight::ast::Ast) -> &Expr {
    match &ast.block.stmts[0] {
        Stmt::ValueAssign(va) => &va.exprlist[0],
        other => panic!("unexpected statement {other:?}"),
    }
}

#[test]
fn multiplication_binds_tighter_than_addition() {
    let ast = parse_ok("x = 1 + 2 * 3");
    match assigned_value(&ast) {
        Expr::Binary(b) => {
            assert_eq!(b.op.kind, BinopKind::Add);
            match &*b.right {
                Expr::Binary(r) => assert_eq!(r.op.kind, BinopKind::Multiply),
                other => panic!("unexpected right side {other:?}"),
            }
        },
        other => panic!("unexpected value {other:?}"),
    }
}

#[test]
fn subtraction_groups_to_the_left() {
    let ast = parse_ok("x = a - b - c");
    match assigned_value(&ast) {
        Expr::Binary(b) => {
            assert_eq!(b.op.kind, BinopKind::Subtract);
            assert!(matches!(&*b.left, Expr::Binary(_)));
            assert!(matches!(&*b.right, Expr::Literal(Literal::Name(_))));
        },
        other => panic!("unexpected value {other:?}"),
    }
}

#[test]
fn concatenation_groups_to_the_right() {
    let ast = parse_ok("x = a .. b .. c");
    match assigned_value(&ast) {
        Expr::Binary(b) => {
            assert_eq!(b.op.kind, BinopKind::Concat);
            assert!(matches!(&*b.left, Expr::Literal(Literal::Name(_))));
            assert!(matches!(&*b.right, Expr::Binary(_)));
        },
        other => panic!("unexpected value {other:?}"),
    }
}

#[test]
fn unary_operators() {
    let ast = parse_ok("x = not -#t");
    match assigned_value(&ast) {
        Expr::Unary(u) => {
            assert_eq!(u.op.kind, UnopKind::Not);
            match &*u.expr {
                Expr::Unary(n) => assert_eq!(n.op.kind, UnopKind::Negate),
                other => panic!("unexpected operand {other:?}"),
            }
        },
        other => panic!("unexpected value {other:?}"),
    }
}

#[test]
fn method_call_statement() {
    let ast = parse_ok("obj:method(1, 2)");
    match &ast.block.stmts[0] {
        Stmt::Call(Call::Method(m)) => {
            assert_eq!(m.indexer.name, "method");
            assert!(matches!(*m.args, CallArgs::Multiple { ref exprs, .. } if exprs.len() == 2));
        },
        other => panic!("unexpected statement {other:?}"),
    }
}

#[test]
fn call_with_string_and_table() {
    let ast = parse_ok("require 'x' f{1, 2}");
    assert_eq!(ast.block.stmts.len(), 2);
    assert!(matches!(ast.block.stmts[0], Stmt::Call(Call::Args(CallArgs::Str(_)))));
    assert!(matches!(ast.block.stmts[1], Stmt::Call(Call::Args(CallArgs::Table(_)))));
}

#[test]
fn table_fields() {
    let ast = parse_ok("t = { [1] = 'a', b = 2; 3, }");
    match assigned_value(&ast) {
        Expr::Literal(Literal::Table(t)) => {
            assert_eq!(t.fields.len(), 3);
            assert!(matches!(t.fields[0], TableField::Computed { .. }));
            assert!(matches!(t.fields[1], TableField::Named { .. }));
            assert!(matches!(t.fields[2], TableField::Value(_)));
        },
        other => panic!("unexpected value {other:?}"),
    }
}

#[test]
fn assignment_to_an_index() {
    let ast = parse_ok("a.b[1], c = 1, 2");
    match &ast.block.stmts[0] {
        Stmt::ValueAssign(va) => {
            assert_eq!(va.names.len(), 2);
            assert_eq!(va.exprlist.len(), 2);
        },
        other => panic!("unexpected statement {other:?}"),
    }
}

#[test]
fn call_result_cannot_be_assigned() {
    let e = parse_err("f() = 1");
    match e.message {
        ParseErrorMessage::Expected(what) => assert_eq!(what, "<expr>"),
        other => panic!("unexpected message {other:?}"),
    }
}

#[test]
fn control_statements() {
    let ast = parse_ok(
        "if a then b() elseif c then d() else e() end \
         for i = 1, 10, 2 do end \
         for k, v in pairs(t) do end \
         repeat x = x - 1 until x == 0 \
         do local y end \
         local function f(a) return a end \
         function t.a.b:c() end \
         return 1",
    );
    assert_eq!(ast.block.stmts.len(), 7);
    match &ast.block.stmts[0] {
        Stmt::IfStmt(i) => {
            assert_eq!(i.chains.len(), 1);
            assert!(i.else_block.is_some());
        },
        other => panic!("unexpected statement {other:?}"),
    }
    match &ast.block.stmts[1] {
        Stmt::NumericFor(f) => assert!(f.step.is_some()),
        other => panic!("unexpected statement {other:?}"),
    }
    match &ast.block.stmts[2] {
        Stmt::GenericFor(f) => assert_eq!(f.names.len(), 2),
        other => panic!("unexpected statement {other:?}"),
    }
    assert!(matches!(ast.block.stmts[3], Stmt::Repeat(_)));
    assert!(matches!(ast.block.stmts[4], Stmt::Do(_)));
    assert!(matches!(ast.block.stmts[5], Stmt::LocalFunction(_)));
    match &ast.block.stmts[6] {
        Stmt::FunctionAssign(f) => {
            assert_eq!(f.name.names.len(), 3);
            assert!(f.name.method_indexer.is_some());
        },
        other => panic!("unexpected statement {other:?}"),
    }
    assert!(matches!(ast.block.last_stmt, Some(LastStmt::Return(_))));
}

#[test]
fn semicolons_separate_statements() {
    let ast = parse_ok("a = 1; b = 2; return;");
    assert_eq!(ast.block.stmts.len(), 2);
}

#[test]
fn block_span_runs_from_first_token_to_the_next() {
    let ast = parse_ok("do x = 1 end");
    match &ast.block.stmts[0] {
        Stmt::Do(d) => {
            assert_eq!(d.block.span.start, 5);
            assert_eq!(d.block.span.end, 11);
        },
        other => panic!("unexpected statement {other:?}"),
    }
}

#[test]
fn parser_over_a_token_stream() {
    let mut parser = Parser::new(Tokens::new("local a = 1", true));
    let ast = parser.parse_ast().unwrap();
    assert_eq!(ast.block.stmts.len(), 1);
}

#[test]
fn parse_one_expression() {
    let mut parser = Parser::new(Tokens::new("1 + 2, 3", true));
    let list = parser.parse_exprlist().unwrap();
    assert_eq!(list.len(), 2);
}

#[test]
fn functions_restore_the_enclosing_varargs() {
    parse_ok("local function f(...) end print(...)");
    parse_ok("function t.f(...) end print(...)");
    parse_ok("local g = function(...) end print(...)");
    let e = parse_err("function g() local function f(...) end return ... end");
    assert!(matches!(e.message, ParseErrorMessage::InvalidVarargsUse));
}

#[test]
fn blocks_restore_the_enclosing_loop() {
    let e = parse_err("while x do end break");
    assert!(matches!(e.message, ParseErrorMessage::InvalidBreakUse));
    parse_ok("while x do do end break end");
    let e = parse_err("while x do local f = function() break end end");
    assert!(matches!(e.message, ParseErrorMessage::InvalidBreakUse));
}

/// The order of the operator at the top of `e`, if it is a binary operation.
fn top_order(e: &Expr) -> Option<usize> {
    match e {
        Expr::Binary(b) => Some(b.op.kind.order()),
        _ => None,
    }
}

/// Checks that every operator in the operator tree of `e` binds as its
/// parent's precedence and associativity allow; returns how many binary
/// operators it saw.
fn check_grouping(e: &Expr) -> usize {
    match e {
        Expr::Binary(b) => {
            let order = b.op.kind.order();
            let (left_min, right_min) = if b.op.kind.is_right_associative() {
                (order + 1, order)
            } else {
                (order, order + 1)
            };
            if let Some(l) = top_order(&b.left) {
                assert!(l >= left_min, "left operand of {:?} binds too loosely", b.op.kind);
            }
            if let Some(r) = top_order(&b.right) {
                assert!(r >= right_min, "right operand of {:?} binds too loosely", b.op.kind);
            }
            1 + check_grouping(&b.left) + check_grouping(&b.right)
        },
        Expr::Unary(u) => {
            if let Some(o) = top_order(&u.expr) {
                assert!(o >= u.op.kind.order());
            }
            check_grouping(&u.expr)
        },
        _ => 0,
    }
}

#[test]
fn mixed_operators_are_grouped_by_precedence() {
    let ast = parse_ok("x = a or b and c < d .. e .. f + g * -h ^ i ^ j - k % l");
    let value = assigned_value(&ast);
    assert_eq!(check_grouping(value), 11);
    match value {
        Expr::Binary(b) => assert_eq!(b.op.kind, BinopKind::Or),
        other => panic!("unexpected value {other:?}"),
    }
}

/// The span of the first value assigned in `input`.
fn first_value_span(input: &str) -> satlight::location::Span {
    let ast = parse_ok(input);
    satlight::ast::span_of_expr(assigned_value(&ast)).expect("a span")
}

#[test]
fn expression_spans_start_at_their_first_token() {
    // Span starts count from 1: the byte at offset 4 starts at 5.
    assert_eq!(first_value_span("x = a + b * c").start, 5);
    assert_eq!(first_value_span("x = -a .. b").start, 5);
    assert_eq!(first_value_span("x =   (a) + 1").start, 7);
    assert_eq!(first_value_span("x = t.k[1]:m()").start, 5);
    assert_eq!(first_value_span("x = {1, 2} == y").start, 5);
    assert_eq!(first_value_span("x = \"s\" .. 1").start, 5);
}
