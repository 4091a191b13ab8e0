use checked_math::audit::{
    audit, audit_file, audit_passes, checked_bin_op, checked_un_op, has_checked_fn_attr,
    SourceFile, Violation,
};
use checked_math::syntax::{BinOp, Expr, Exprs, ItemFn, UnOp};

fn var(name: &str) -> Expr {
    Expr::Var(name.to_string())
}

fn bin(op: BinOp, left: Expr, right: Expr) -> Expr {
    Expr::Binary { op, left: Box::new(left), right: Box::new(right) }
}

fn func(name: &str, exempt: bool, body: Vec<Expr>) -> Expr {
    Expr::Function(ItemFn { name: name.to_string(), exempt, body: Exprs::from_vec(body) })
}

fn file(path: &str, items: Vec<Expr>) -> SourceFile {
    SourceFile { path: path.to_string(), items: Exprs::from_vec(items) }
}

/// A body with three top-level offenders, one of them with a nested one.
fn offending_body() -> Vec<Expr> {
    vec![
        bin(BinOp::Add, var("a"), bin(BinOp::Mul, var("b"), var("c"))),
        Expr::Unary { op: UnOp::Neg, operand: Box::new(var("d")) },
        bin(BinOp::RemAssign, var("e"), var("f")),
    ]
}

#[test]
fn exempt_scope_yields_nothing() {
    let f = file("a.rs", vec![func("g", true, offending_body())]);
    assert_eq!(audit_file(&f), vec![]);
}

#[test]
fn unexempt_scope_yields_one_per_top_level_offender() {
    let f = file("a.rs", vec![func("g", false, offending_body())]);
    let found = audit_file(&f);
    assert_eq!(found.len(), 3);
    let body = offending_body();
    for (v, e) in found.iter().zip(body.iter()) {
        assert_eq!(v, &Violation { path: "a.rs".to_string(), function: Some("g".to_string()), expr: e.clone() });
    }
}

#[test]
fn combinator_around_arithmetic_is_searched() {
    // true && (1 + (y + y) == 0)
    let sum = bin(BinOp::Add, Expr::Lit(1), bin(BinOp::Add, var("y"), var("y")));
    let e = bin(BinOp::And, var("t"), Expr::Paren(Box::new(bin(BinOp::Eq, sum.clone(), Expr::Lit(0)))));
    let found = audit_file(&file("b.rs", vec![func("f", false, vec![e])]));
    assert_eq!(found.len(), 1);
    assert_eq!(found[0].expr, sum);
}

#[test]
fn outside_functions_the_function_is_unknown() {
    let item = Expr::Other { tag: 3, children: Exprs::from_vec(vec![bin(BinOp::Sub, Expr::Lit(1), Expr::Lit(2))]) };
    let found = audit_file(&file("c.rs", vec![item]));
    assert_eq!(found.len(), 1);
    assert_eq!(found[0].function, None);
}

#[test]
fn nested_function_reports_its_own_name() {
    let inner = func("inner", false, vec![bin(BinOp::Mul, var("a"), var("b"))]);
    let outer = func("outer", false, vec![Expr::Other { tag: 9, children: Exprs::from_vec(vec![inner]) }, bin(BinOp::Div, var("c"), var("d"))]);
    let found = audit_file(&file("d.rs", vec![outer]));
    assert_eq!(found.len(), 2);
    assert_eq!(found[0].function, Some("inner".to_string()));
    assert_eq!(found[1].function, Some("outer".to_string()));
}

#[test]
fn aggregates_one_violation_per_file() {
    let files: Vec<SourceFile> = (0..5)
        .map(|i| file(&format!("m{i}.rs"), vec![func("h", false, vec![bin(BinOp::Add, var("x"), var("y"))])]))
        .collect();
    let found = audit(&files);
    assert_eq!(found.len(), 5);
    let mut paths: Vec<String> = found.iter().map(|v| v.path.clone()).collect();
    paths.sort();
    assert_eq!(paths, vec!["m0.rs", "m1.rs", "m2.rs", "m3.rs", "m4.rs"]);
    assert!(!audit_passes(&files));
}

#[test]
fn instrumented_code_is_not_reported_inside_exempt_scopes() {
    let files = vec![file("ok.rs", vec![func("div", true, vec![bin(BinOp::Div, var("x"), var("y"))])])];
    assert!(audit_passes(&files));
}

#[test]
fn lib_check_checked() {
    // The models file: arithmetic only inside `unchecked!` invocations (macro
    // bodies are opaque nodes) and in functions marked for the rewriter.
    let example = func("example", false, vec![
        Expr::Other { tag: 1, children: Exprs::Nil },
        Expr::Other { tag: 1, children: Exprs::Nil },
        Expr::Other { tag: 2, children: Exprs::from_vec(vec![var("z")]) },
    ]);
    let id = func("id", false, vec![Expr::Call { func: Box::new(var("Ok")), args: Exprs::from_vec(vec![var("x")]) }]);
    let div = func("div", has_checked_fn_attr(&vec!["checked_fn".to_string()]), vec![bin(BinOp::Div, var("x"), var("y"))]);
    let div_unchecked = func("div_unchecked", has_checked_fn_attr(&vec!["unchecked_fn".to_string()]), vec![bin(BinOp::Div, var("x"), var("y"))]);
    let div_assign = func("div_assign", has_checked_fn_attr(&vec!["checked_fn".to_string()]), vec![bin(BinOp::DivAssign, var("x"), var("y"))]);
    let files = vec![file("models/example.rs", vec![id, example, div, div_unchecked, div_assign])];
    assert!(audit_passes(&files));
}

#[test]
fn operator_categories() {
    assert!(checked_bin_op(BinOp::Add));
    assert!(checked_bin_op(BinOp::MulAssign));
    assert!(!checked_bin_op(BinOp::Shl));
    assert!(!checked_bin_op(BinOp::BitXorAssign));
    assert!(checked_un_op(UnOp::Neg));
    assert!(!checked_un_op(UnOp::Not));
    assert!(!has_checked_fn_attr(&vec!["inline".to_string(), "test".to_string()]));
    assert!(has_checked_fn_attr(&vec!["inline".to_string(), "unchecked_fn".to_string()]));
}
