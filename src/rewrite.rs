//! The instrumentation pass: rewrites every checked-category operator so that
//! it goes through `Checked` and returns early on the first error.
use vstd::prelude::*;

use crate::syntax::{BinOp, Expr, Exprs, ItemFn, UnOp};

verus! {

/// The instrumentation pass met a node kind outside the supported grammar;
/// `tag` is that node's tag.
#[derive(Debug, Clone, Copy, PartialEq, Eq, Structural)]
pub struct RewriteError {
    pub tag: u64,
}

/// Binary operators whose machine form can overflow or divide by zero.
pub open spec fn spec_is_checked_binary_op(op: BinOp) -> bool {
    op == BinOp::Add || op == BinOp::Sub || op == BinOp::Mul || op == BinOp::Div || op == BinOp::Rem
}

/// Compound assignments built on a checked binary operator.
pub open spec fn spec_is_checked_binary_assign_op(op: BinOp) -> bool {
    op == BinOp::AddAssign || op == BinOp::SubAssign || op == BinOp::MulAssign || op
        == BinOp::DivAssign || op == BinOp::RemAssign
}

pub open spec fn spec_is_checked_unary_op(op: UnOp) -> bool {
    op == UnOp::Neg
}

/// The binary operator a compound assignment applies; other operators are
/// returned as they are.
pub open spec fn spec_map_assign_op(op: BinOp) -> BinOp {
    match op {
        BinOp::AddAssign => BinOp::Add,
        BinOp::SubAssign => BinOp::Sub,
        BinOp::MulAssign => BinOp::Mul,
        BinOp::DivAssign => BinOp::Div,
        BinOp::RemAssign => BinOp::Rem,
        _ => op,
    }
}

pub fn is_checked_binary_op(op: BinOp) -> (r: bool)
    ensures
        r == spec_is_checked_binary_op(op),
{
    match op {
        BinOp::Add | BinOp::Sub | BinOp::Mul | BinOp::Div | BinOp::Rem => true,
        _ => false,
    }
}

pub fn is_checked_binary_assign_op(op: BinOp) -> (r: bool)
    ensures
        r == spec_is_checked_binary_assign_op(op),
{
    match op {
        BinOp::AddAssign | BinOp::SubAssign | BinOp::MulAssign | BinOp::DivAssign
        | BinOp::RemAssign => true,
        _ => false,
    }
}

pub fn is_checked_unary_op(op: UnOp) -> (r: bool)
    ensures
        r == spec_is_checked_unary_op(op),
{
    match op {
        UnOp::Neg => true,
        _ => false,
    }
}

pub fn map_assign_op(op: BinOp) -> (r: BinOp)
    ensures
        r == spec_map_assign_op(op),
{
    match op {
        BinOp::AddAssign => BinOp::Add,
        BinOp::SubAssign => BinOp::Sub,
        BinOp::MulAssign => BinOp::Mul,
        BinOp::DivAssign => BinOp::Div,
        BinOp::RemAssign => BinOp::Rem,
        _ => op,
    }
}

/// `op` applied to lifted operands, unpacked: the checked form of a binary node.
pub open spec fn checked_binary_node(op: BinOp, left: Expr, right: Expr) -> Expr {
    Expr::Unpack(
        Box::new(
            Expr::Binary {
                op,
                left: Box::new(Expr::Lift(Box::new(left))),
                right: Box::new(Expr::Lift(Box::new(right))),
            },
        ),
    )
}

/// `op` applied to a lifted operand, unpacked: the checked form of a unary node.
pub open spec fn checked_unary_node(op: UnOp, operand: Expr) -> Expr {
    Expr::Unpack(Box::new(Expr::Unary { op, operand: Box::new(Expr::Lift(Box::new(operand))) }))
}

/// The instrumented form of `e`: operands first, then the node itself.
/// Exempt scopes are kept as they are.
pub open spec fn instrumented(e: Expr) -> Expr
    decreases e,
{
    match e {
        Expr::Binary { op, left, right } => {
            let l = instrumented(*left);
            let r = instrumented(*right);
            if spec_is_checked_binary_op(op) {
                checked_binary_node(op, l, r)
            } else if spec_is_checked_binary_assign_op(op) {
                Expr::Assign {
                    target: Box::new(l),
                    value: Box::new(checked_binary_node(spec_map_assign_op(op), l, r)),
                }
            } else {
                Expr::Binary { op, left: Box::new(l), right: Box::new(r) }
            }
        },
        Expr::Unary { op, operand } => {
            let o = instrumented(*operand);
            if spec_is_checked_unary_op(op) {
                checked_unary_node(op, o)
            } else {
                Expr::Unary { op, operand: Box::new(o) }
            }
        },
        Expr::Assign { target, value } => Expr::Assign {
            target: Box::new(instrumented(*target)),
            value: Box::new(instrumented(*value)),
        },
        Expr::Paren(inner) => Expr::Paren(Box::new(instrumented(*inner))),
        Expr::Call { func, args } => Expr::Call {
            func: Box::new(instrumented(*func)),
            args: instrumented_list(args),
        },
        Expr::Lift(inner) => Expr::Lift(Box::new(instrumented(*inner))),
        Expr::Unpack(inner) => Expr::Unpack(Box::new(instrumented(*inner))),
        Expr::Function(f) => Expr::Function(instrumented_fn(f)),
        Expr::Other { tag, children } => Expr::Other { tag, children: instrumented_list(children) },
        _ => e,
    }
}

pub open spec fn instrumented_list(l: Exprs) -> Exprs
    decreases l,
{
    match l {
        Exprs::Nil => Exprs::Nil,
        Exprs::Cons(first, rest) => Exprs::Cons(
            Box::new(instrumented(*first)),
            Box::new(instrumented_list(*rest)),
        ),
    }
}

/// A scope with its body instrumented, unless it is exempt.
pub open spec fn instrumented_fn(f: ItemFn) -> ItemFn
    decreases f,
{
    if f.exempt {
        f
    } else {
        ItemFn { name: f.name, exempt: f.exempt, body: instrumented_list(f.body) }
    }
}

/// The tag of the first unsupported node that the pass would meet, if any.
pub open spec fn first_unsupported(e: Expr) -> Option<u64>
    decreases e,
{
    match e {
        Expr::Unsupported { tag } => Some(tag),
        Expr::Binary { left, right, .. } => first_of(
            first_unsupported(*left),
            first_unsupported(*right),
        ),
        Expr::Unary { operand, .. } => first_unsupported(*operand),
        Expr::Assign { target, value } => first_of(
            first_unsupported(*target),
            first_unsupported(*value),
        ),
        Expr::Paren(inner) => first_unsupported(*inner),
        Expr::Call { func, args } => first_of(first_unsupported(*func), first_unsupported_list(args)),
        Expr::Lift(inner) => first_unsupported(*inner),
        Expr::Unpack(inner) => first_unsupported(*inner),
        Expr::Function(f) => first_unsupported_fn(f),
        Expr::Other { children, .. } => first_unsupported_list(children),
        _ => None,
    }
}

pub open spec fn first_unsupported_list(l: Exprs) -> Option<u64>
    decreases l,
{
    match l {
        Exprs::Nil => None,
        Exprs::Cons(first, rest) => first_of(
            first_unsupported(*first),
            first_unsupported_list(*rest),
        ),
    }
}

pub open spec fn first_unsupported_fn(f: ItemFn) -> Option<u64>
    decreases f,
{
    if f.exempt {
        None
    } else {
        first_unsupported_list(f.body)
    }
}

pub open spec fn first_of(a: Option<u64>, b: Option<u64>) -> Option<u64> {
    if a is Some {
        a
    } else {
        b
    }
}

/// What the pass yields for `e`: the instrumented tree, or the first
/// unsupported node.
pub open spec fn rewrite_result(e: Expr) -> Result<Expr, RewriteError> {
    match first_unsupported(e) {
        Some(tag) => Err(RewriteError { tag }),
        None => Ok(instrumented(e)),
    }
}

pub open spec fn rewrite_list_result(l: Exprs) -> Result<Exprs, RewriteError> {
    match first_unsupported_list(l) {
        Some(tag) => Err(RewriteError { tag }),
        None => Ok(instrumented_list(l)),
    }
}

pub open spec fn rewrite_fn_result(f: ItemFn) -> Result<ItemFn, RewriteError> {
    match first_unsupported_fn(f) {
        Some(tag) => Err(RewriteError { tag }),
        None => Ok(instrumented_fn(f)),
    }
}

/// Lifts an operand into the checked domain.
fn checked_operand(operand: Expr) -> (r: Expr)
    ensures
        r == Expr::Lift(Box::new(operand)),
{
    Expr::Lift(Box::new(operand))
}

/// Unwraps a checked result, returning early on its error.
fn tried_expr(e: Expr) -> (r: Expr)
    ensures
        r == Expr::Unpack(Box::new(e)),
{
    Expr::Unpack(Box::new(e))
}

fn checked_unary_expr(op: UnOp, operand: Expr) -> (r: Expr)
    ensures
        r == checked_unary_node(op, operand),
{
    tried_expr(Expr::Unary { op, operand: Box::new(checked_operand(operand)) })
}

fn checked_binary_expr(op: BinOp, left: Expr, right: Expr) -> (r: Expr)
    ensures
        r == checked_binary_node(op, left, right),
{
    tried_expr(
        Expr::Binary {
            op,
            left: Box::new(checked_operand(left)),
            right: Box::new(checked_operand(right)),
        },
    )
}

/// `target op= value` becomes `target = checked(target op value)`.
fn checked_binary_assign_expr(op: BinOp, target: Expr, value: Expr) -> (r: Expr)
    ensures
        r == (Expr::Assign {
            target: Box::new(target),
            value: Box::new(checked_binary_node(spec_map_assign_op(op), target, value)),
        }),
{
    let read = target.clone();
    let combined = checked_binary_expr(map_assign_op(op), read, value);
    Expr::Assign { target: Box::new(target), value: Box::new(combined) }
}

fn fold_expr(e: Expr) -> (r: Result<Expr, RewriteError>)
    ensures
        r == rewrite_result(e),
    decreases e,
{
    match e {
        Expr::Binary { op, left, right } => {
            let l = match fold_expr(*left) {
                Ok(l) => l,
                Err(err) => return Err(err),
            };
            let r = match fold_expr(*right) {
                Ok(r) => r,
                Err(err) => return Err(err),
            };
            if is_checked_binary_op(op) {
                Ok(checked_binary_expr(op, l, r))
            } else if is_checked_binary_assign_op(op) {
                Ok(checked_binary_assign_expr(op, l, r))
            } else {
                Ok(Expr::Binary { op, left: Box::new(l), right: Box::new(r) })
            }
        },
        Expr::Unary { op, operand } => {
            let o = match fold_expr(*operand) {
                Ok(o) => o,
                Err(err) => return Err(err),
            };
            if is_checked_unary_op(op) {
                Ok(checked_unary_expr(op, o))
            } else {
                Ok(Expr::Unary { op, operand: Box::new(o) })
            }
        },
        Expr::Assign { target, value } => {
            let t = match fold_expr(*target) {
                Ok(t) => t,
                Err(err) => return Err(err),
            };
            let v = match fold_expr(*value) {
                Ok(v) => v,
                Err(err) => return Err(err),
            };
            Ok(Expr::Assign { target: Box::new(t), value: Box::new(v) })
        },
        Expr::Paren(inner) => match fold_expr(*inner) {
            Ok(i) => Ok(Expr::Paren(Box::new(i))),
            Err(err) => Err(err),
        },
        Expr::Call { func, args } => {
            let f = match fold_expr(*func) {
                Ok(f) => f,
                Err(err) => return Err(err),
            };
            match fold_exprs(args) {
                Ok(a) => Ok(Expr::Call { func: Box::new(f), args: a }),
                Err(err) => Err(err),
            }
        },
        Expr::Lift(inner) => match fold_expr(*inner) {
            Ok(i) => Ok(Expr::Lift(Box::new(i))),
            Err(err) => Err(err),
        },
        Expr::Unpack(inner) => match fold_expr(*inner) {
            Ok(i) => Ok(Expr::Unpack(Box::new(i))),
            Err(err) => Err(err),
        },
        Expr::Function(f) => match fold_item_fn(f) {
            Ok(f) => Ok(Expr::Function(f)),
            Err(err) => Err(err),
        },
        Expr::Other { tag, children } => match fold_exprs(children) {
            Ok(c) => Ok(Expr::Other { tag, children: c }),
            Err(err) => Err(err),
        },
        Expr::Unsupported { tag } => Err(RewriteError { tag }),
        Expr::Lit(v) => Ok(Expr::Lit(v)),
        Expr::Var(name) => Ok(Expr::Var(name)),
    }
}

fn fold_exprs(l: Exprs) -> (r: Result<Exprs, RewriteError>)
    ensures
        r == rewrite_list_result(l),
    decreases l,
{
    match l {
        Exprs::Nil => Ok(Exprs::Nil),
        Exprs::Cons(first, rest) => {
            let f = match fold_expr(*first) {
                Ok(f) => f,
                Err(err) => return Err(err),
            };
            match fold_exprs(*rest) {
                Ok(r) => Ok(Exprs::Cons(Box::new(f), Box::new(r))),
                Err(err) => Err(err),
            }
        },
    }
}

fn fold_item_fn(f: ItemFn) -> (r: Result<ItemFn, RewriteError>)
    ensures
        r == rewrite_fn_result(f),
    decreases f,
{
    if f.exempt {
        return Ok(f);
    }
    let ItemFn { name, exempt, body } = f;
    match fold_exprs(body) {
        Ok(b) => Ok(ItemFn { name, exempt, body: b }),
        Err(err) => Err(err),
    }
}

/// Instruments an expression: `Err` names the first node of a kind outside
/// the supported grammar, and there is no partial result.
pub fn checked(e: Expr) -> (r: Result<Expr, RewriteError>)
    ensures
        r == rewrite_result(e),
{
    fold_expr(e)
}

/// Instruments a function's body; an exempt function comes back unchanged.
pub fn checked_fn(f: ItemFn) -> (r: Result<ItemFn, RewriteError>)
    ensures
        r == rewrite_fn_result(f),
{
    fold_item_fn(f)
}

/// The explicit opt-out: the expression is kept as it is.
pub fn unchecked(e: Expr) -> (r: Expr)
    ensures
        r == e,
{
    e
}

/// The explicit opt-out for a whole function.
pub fn unchecked_fn(f: ItemFn) -> (r: ItemFn)
    ensures
        r == f,
{
    f
}

/// No checked-category operator occurs in `e` outside exempt scopes.
pub open spec fn checked_free(e: Expr) -> bool
    decreases e,
{
    match e {
        Expr::Binary { op, left, right } => !spec_is_checked_binary_op(op)
            && !spec_is_checked_binary_assign_op(op) && checked_free(*left) && checked_free(*right),
        Expr::Unary { op, operand } => !spec_is_checked_unary_op(op) && checked_free(*operand),
        Expr::Assign { target, value } => checked_free(*target) && checked_free(*value),
        Expr::Paren(inner) => checked_free(*inner),
        Expr::Call { func, args } => checked_free(*func) && checked_free_list(args),
        Expr::Lift(inner) => checked_free(*inner),
        Expr::Unpack(inner) => checked_free(*inner),
        Expr::Function(f) => f.exempt || checked_free_list(f.body),
        Expr::Other { children, .. } => checked_free_list(children),
        _ => true,
    }
}

pub open spec fn checked_free_list(l: Exprs) -> bool
    decreases l,
{
    match l {
        Exprs::Nil => true,
        Exprs::Cons(first, rest) => checked_free(*first) && checked_free_list(*rest),
    }
}

/// Structural identity: a tree with no checked-category operator is its own
/// instrumented form, so the pass returns it unchanged when it holds no
/// unsupported node.
pub proof fn lemma_checked_free_unchanged(e: Expr)
    requires
        checked_free(e),
    ensures
        instrumented(e) == e,
        first_unsupported(e) is None ==> rewrite_result(e) == Ok::<Expr, RewriteError>(e),
    decreases e,
{
    match e {
        Expr::Binary { left, right, .. } => {
            lemma_checked_free_unchanged(*left);
            lemma_checked_free_unchanged(*right);
        },
        Expr::Unary { operand, .. } => lemma_checked_free_unchanged(*operand),
        Expr::Assign { target, value } => {
            lemma_checked_free_unchanged(*target);
            lemma_checked_free_unchanged(*value);
        },
        Expr::Paren(inner) => lemma_checked_free_unchanged(*inner),
        Expr::Call { func, args } => {
            lemma_checked_free_unchanged(*func);
            lemma_checked_free_list_unchanged(args);
        },
        Expr::Lift(inner) => lemma_checked_free_unchanged(*inner),
        Expr::Unpack(inner) => lemma_checked_free_unchanged(*inner),
        Expr::Function(f) => {
            if !f.exempt {
                lemma_checked_free_list_unchanged(f.body);
                assert(instrumented_fn(f) == f);
            }
        },
        Expr::Other { children, .. } => lemma_checked_free_list_unchanged(children),
        _ => {},
    }
}

proof fn lemma_checked_free_list_unchanged(l: Exprs)
    requires
        checked_free_list(l),
    ensures
        instrumented_list(l) == l,
    decreases l,
{
    match l {
        Exprs::Nil => {},
        Exprs::Cons(first, rest) => {
            lemma_checked_free_unchanged(*first);
            lemma_checked_free_list_unchanged(*rest);
        },
    }
}

} // verus!
