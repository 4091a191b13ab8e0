use checked_math::checked::{Checked, CheckedError};
use checked_math::eval::{evaluate, Env, FnDef, Halt, Val};
use checked_math::rewrite::{checked, checked_fn, unchecked, unchecked_fn, RewriteError};
use checked_math::syntax::{BinOp, Expr, Exprs, ItemFn, UnOp};

fn lit(v: i128) -> Expr {
    Expr::Lit(v)
}

fn var(name: &str) -> Expr {
    Expr::Var(name.to_string())
}

fn bin(op: BinOp, left: Expr, right: Expr) -> Expr {
    Expr::Binary { op, left: Box::new(left), right: Box::new(right) }
}

fn neg(e: Expr) -> Expr {
    Expr::Unary { op: UnOp::Neg, operand: Box::new(e) }
}

fn call(name: &str, args: Vec<Expr>) -> Expr {
    Expr::Call { func: Box::new(var(name)), args: Exprs::from_vec(args) }
}

fn lift(e: Expr) -> Expr {
    Expr::Lift(Box::new(e))
}

fn unpack(e: Expr) -> Expr {
    Expr::Unpack(Box::new(e))
}

/// `1 + x + -id(y + y)`
fn scenario() -> Expr {
    bin(
        BinOp::Add,
        bin(BinOp::Add, lit(1), var("x")),
        neg(call("id", vec![bin(BinOp::Add, var("y"), var("y"))])),
    )
}

fn env(x: i32, y: i32) -> Env<i32> {
    Env {
        vars: vec![("x".to_string(), x), ("y".to_string(), y)],
        fns: vec![FnDef { name: "id".to_string(), param: "v".to_string(), body: var("v") }],
    }
}

#[test]
fn instruments_nested_arithmetic_bottom_up() {
    let expected = unpack(bin(
        BinOp::Add,
        lift(unpack(bin(BinOp::Add, lift(lit(1)), lift(var("x"))))),
        lift(unpack(Expr::Unary {
            op: UnOp::Neg,
            operand: Box::new(lift(call(
                "id",
                vec![unpack(bin(BinOp::Add, lift(var("y")), lift(var("y"))))],
            ))),
        })),
    ));
    assert_eq!(checked(scenario()), Ok(expected));
}

#[test]
fn end_to_end_in_range() {
    let inst = checked(scenario()).unwrap();
    assert_eq!(evaluate(&inst, &env(2, 3)), Ok(Val::Raw(-3)));
    assert_eq!(evaluate(&scenario(), &env(2, 3)), Ok(Val::Raw(-3)));
}

#[test]
fn end_to_end_inner_overflow_returns_its_kind() {
    let inst = checked(scenario()).unwrap();
    assert_eq!(evaluate(&inst, &env(2, i32::MAX)), Err(Halt::Return(CheckedError::Add)));
    assert_eq!(evaluate(&scenario(), &env(2, i32::MAX)), Err(Halt::Overflow(CheckedError::Add)));
    assert_eq!(evaluate(&inst, &env(2, i32::MIN / 2)), Err(Halt::Return(CheckedError::Neg)));
}

#[test]
fn left_error_stops_the_chain() {
    // x + 1 fails first; the right operand would fail with Div.
    let e = bin(BinOp::Add, bin(BinOp::Add, var("x"), lit(1)), bin(BinOp::Div, lit(1), lit(0)));
    let inst = checked(e).unwrap();
    assert_eq!(evaluate(&inst, &env(i32::MAX, 0)), Err(Halt::Return(CheckedError::Add)));
    assert_eq!(evaluate(&inst, &env(0, 0)), Err(Halt::Return(CheckedError::Div)));
}

#[test]
fn evaluates_checked_values_directly() {
    let e = bin(BinOp::Mul, lift(lit(100)), lift(lit(100)));
    let small: Env<i8> = Env { vars: vec![], fns: vec![] };
    assert_eq!(evaluate(&e, &small), Ok(Val::Checked(Checked::Failed(CheckedError::Mul))));
}

#[test]
fn tree_without_checked_operators_is_unchanged() {
    let e = Expr::Other {
        tag: 7,
        children: Exprs::from_vec(vec![
            bin(BinOp::And, var("a"), bin(BinOp::Lt, var("b"), lit(3))),
            Expr::Unary { op: UnOp::Not, operand: Box::new(var("c")) },
            call("f", vec![lit(1), var("d")]),
        ]),
    };
    assert_eq!(checked(e.clone()), Ok(e));
}

#[test]
fn compound_assignment_reads_target_once() {
    let e = bin(BinOp::DivAssign, var("x"), var("y"));
    let expected = Expr::Assign {
        target: Box::new(var("x")),
        value: Box::new(unpack(bin(BinOp::Div, lift(var("x")), lift(var("y"))))),
    };
    assert_eq!(checked(e), Ok(expected));
}

#[test]
fn unsupported_node_aborts() {
    let e = bin(BinOp::Add, lit(1), Expr::Other {
        tag: 1,
        children: Exprs::from_vec(vec![Expr::Unsupported { tag: 42 }, Expr::Unsupported { tag: 43 }]),
    });
    assert_eq!(checked(e), Err(RewriteError { tag: 42 }));
}

#[test]
fn exempt_scope_is_left_alone() {
    let inner = ItemFn {
        name: "raw".to_string(),
        exempt: true,
        body: Exprs::from_vec(vec![bin(BinOp::Add, var("a"), var("b")), Expr::Unsupported { tag: 5 }]),
    };
    let e = Expr::Other { tag: 2, children: Exprs::from_vec(vec![Expr::Function(inner)]) };
    assert_eq!(checked(e.clone()), Ok(e));
}

#[test]
fn checked_fn_instruments_the_body() {
    let f = ItemFn {
        name: "div".to_string(),
        exempt: false,
        body: Exprs::from_vec(vec![bin(BinOp::Div, var("x"), var("y"))]),
    };
    let expected = ItemFn {
        name: "div".to_string(),
        exempt: false,
        body: Exprs::from_vec(vec![unpack(bin(BinOp::Div, lift(var("x")), lift(var("y"))))]),
    };
    assert_eq!(checked_fn(f), Ok(expected));
}

#[test]
fn unchecked_forms_are_identity() {
    assert_eq!(unchecked(scenario()), scenario());
    let f = ItemFn {
        name: "div_unchecked".to_string(),
        exempt: true,
        body: Exprs::from_vec(vec![bin(BinOp::Div, var("x"), var("y"))]),
    };
    assert_eq!(unchecked_fn(f.clone()), f);
}

#[test]
fn evaluation_outside_the_fragment_is_stuck() {
    assert_eq!(evaluate(&var("missing"), &env(1, 1)), Err(Halt::Stuck));
    assert_eq!(evaluate(&bin(BinOp::Lt, lit(1), lit(2)), &env(1, 1)), Err(Halt::Stuck));
    assert_eq!(evaluate(&call("nowhere", vec![lit(1)]), &env(1, 1)), Err(Halt::Stuck));
    let small: Env<u8> = Env { vars: vec![], fns: vec![] };
    assert_eq!(evaluate(&lit(300), &small), Err(Halt::Stuck));
}
