//! What a tree computes: an interpreter for the arithmetic fragment of the
//! grammar, for plain and for instrumented trees alike.
use vstd::prelude::*;

use crate::checked::{checked_binary, checked_negation, checked_value, Checked, CheckedError};
use crate::primitive::{in_range, CheckedPrimitive};
use crate::rewrite::{
    instrumented, instrumented_list, is_checked_binary_op, is_checked_unary_op,
    spec_is_checked_binary_op,
};
use crate::syntax::{BinOp, Expr, Exprs, UnOp};

verus! {

/// A value computed by a tree: a raw machine value, or a checked one.
#[derive(Debug, Clone, Copy, PartialEq, Eq)]
pub enum Val<T> {
    Raw(T),
    Checked(Checked<T>),
}

/// Why an evaluation stopped without a value.
#[derive(Debug, Clone, Copy, PartialEq, Eq, Structural)]
pub enum Halt {
    /// An unpacked checked value held this error, and the enclosing function
    /// returned it.
    Return(CheckedError),
    /// Raw machine arithmetic left the range of its width: the machine would
    /// wrap or crash here.
    Overflow(CheckedError),
    /// The tree leaves the fragment the interpreter covers.
    Stuck,
}

/// A function that a tree may call: one parameter, and a body that calls
/// nothing itself.
#[derive(Debug)]
pub struct FnDef {
    pub name: String,
    pub param: String,
    pub body: Expr,
}

/// Variable bindings (the last binding of a name wins) and callable functions.
#[derive(Debug)]
pub struct Env<T> {
    pub vars: Vec<(String, T)>,
    pub fns: Vec<FnDef>,
}

pub open spec fn lookup<T>(vars: Seq<(String, T)>, name: Seq<char>) -> Option<T>
    decreases vars.len(),
{
    if vars.len() == 0 {
        None
    } else if vars.last().0@ == name {
        Some(vars.last().1)
    } else {
        lookup(vars.drop_last(), name)
    }
}

pub open spec fn find_fn(fns: Seq<FnDef>, name: Seq<char>) -> Option<FnDef>
    decreases fns.len(),
{
    if fns.len() == 0 {
        None
    } else if fns.last().name@ == name {
        Some(fns.last())
    } else {
        find_fn(fns.drop_last(), name)
    }
}

/// The kind of checked operation a binary operator performs.
pub open spec fn op_kind(op: BinOp) -> CheckedError {
    match op {
        BinOp::Add => CheckedError::Add,
        BinOp::Sub => CheckedError::Sub,
        BinOp::Mul => CheckedError::Mul,
        BinOp::Div => CheckedError::Div,
        _ => CheckedError::Rem,
    }
}

/// A checked binary operation on two computed values: raw values go through
/// the machine operation, checked ones through `Checked`.
pub open spec fn apply_binary<T: CheckedPrimitive>(kind: CheckedError, a: Val<T>, b: Val<T>) -> Result<Val<T>, Halt> {
    match a {
        Val::Raw(x) => match b {
            Val::Raw(y) => match checked_value(kind, x, y) {
                Checked::Value(c) => Ok(Val::Raw(c)),
                Checked::Failed(k) => Err(Halt::Overflow(k)),
            },
            Val::Checked(_) => Err(Halt::Stuck),
        },
        Val::Checked(x) => match b {
            Val::Checked(y) => Ok(Val::Checked(checked_binary(kind, x, y))),
            Val::Raw(_) => Err(Halt::Stuck),
        },
    }
}

pub open spec fn apply_neg<T: CheckedPrimitive>(a: Val<T>) -> Result<Val<T>, Halt> {
    match a {
        Val::Raw(x) => match checked_value(CheckedError::Neg, x, x) {
            Checked::Value(c) => Ok(Val::Raw(c)),
            Checked::Failed(k) => Err(Halt::Overflow(k)),
        },
        Val::Checked(x) => Ok(Val::Checked(checked_negation(x))),
    }
}

/// The value of `e`, evaluated left to right. A call evaluates its single
/// argument, then the callee's body with the parameter bound to it; an early
/// return inside the callee propagates through the call.
pub open spec fn eval<T: CheckedPrimitive>(e: Expr, vars: Seq<(String, T)>, fns: Seq<FnDef>) -> Result<Val<T>, Halt>
    decreases fns.len(), e,
{
    match e {
        Expr::Lit(v) => if in_range::<T>(v as int) {
            Ok(Val::Raw(T::from_int(v as int)))
        } else {
            Err(Halt::Stuck)
        },
        Expr::Var(name) => match lookup(vars, name@) {
            Some(v) => Ok(Val::Raw(v)),
            None => Err(Halt::Stuck),
        },
        Expr::Paren(inner) => eval(*inner, vars, fns),
        Expr::Binary { op, left, right } => if spec_is_checked_binary_op(op) {
            match eval(*left, vars, fns) {
                Err(h) => Err(h),
                Ok(a) => match eval(*right, vars, fns) {
                    Err(h) => Err(h),
                    Ok(b) => apply_binary(op_kind(op), a, b),
                },
            }
        } else {
            Err(Halt::Stuck)
        },
        Expr::Unary { op, operand } => if op == UnOp::Neg {
            match eval(*operand, vars, fns) {
                Err(h) => Err(h),
                Ok(a) => apply_neg(a),
            }
        } else {
            Err(Halt::Stuck)
        },
        Expr::Lift(inner) => match eval(*inner, vars, fns) {
            Err(h) => Err(h),
            Ok(Val::Raw(v)) => Ok(Val::Checked(Checked::Value(v))),
            Ok(Val::Checked(_)) => Err(Halt::Stuck),
        },
        Expr::Unpack(inner) => match eval(*inner, vars, fns) {
            Err(h) => Err(h),
            Ok(Val::Checked(Checked::Value(v))) => Ok(Val::Raw(v)),
            Ok(Val::Checked(Checked::Failed(k))) => Err(Halt::Return(k)),
            Ok(Val::Raw(_)) => Err(Halt::Stuck),
        },
        Expr::Call { func, args } => match args {
            Exprs::Cons(arg, rest) => if *rest == Exprs::Nil && *func is Var && find_fn(
                fns,
                func->Var_0@,
            ) is Some && fns.len() > 0 {
                let def = find_fn(fns, func->Var_0@)->Some_0;
                match eval(*arg, vars, fns) {
                    Err(h) => Err(h),
                    Ok(Val::Raw(v)) => match eval(def.body, seq![(def.param, v)], Seq::empty()) {
                        Ok(Val::Raw(w)) => Ok(Val::Raw(w)),
                        Ok(Val::Checked(_)) => Err(Halt::Stuck),
                        Err(h) => Err(h),
                    },
                    Ok(Val::Checked(_)) => Err(Halt::Stuck),
                }
            } else {
                Err(Halt::Stuck)
            },
            Exprs::Nil => Err(Halt::Stuck),
        },
        _ => Err(Halt::Stuck),
    }
}

fn lookup_var<T: CheckedPrimitive>(vars: &Vec<(String, T)>, name: &String) -> (r: Option<T>)
    ensures
        r == lookup(vars@, name@),
{
    let mut i: usize = vars.len();
    assert(vars@.subrange(0, i as int) =~= vars@);
    while i > 0
        invariant
            i <= vars@.len(),
            lookup(vars@, name@) == lookup(vars@.subrange(0, i as int), name@),
        decreases i,
    {
        let ghost prefix = vars@.subrange(0, i as int);
        assert(prefix.drop_last() =~= vars@.subrange(0, i - 1));
        if vars[i - 1].0 == *name {
            return Some(vars[i - 1].1);
        }
        i = i - 1;
    }
    None
}

fn find_fn_index(fns: &Vec<FnDef>, name: &String) -> (r: Option<usize>)
    ensures
        match r {
            Some(i) => i < fns@.len() && find_fn(fns@, name@) == Some(fns@[i as int]),
            None => find_fn(fns@, name@) is None,
        },
{
    let mut i: usize = fns.len();
    assert(fns@.subrange(0, i as int) =~= fns@);
    while i > 0
        invariant
            i <= fns@.len(),
            find_fn(fns@, name@) == find_fn(fns@.subrange(0, i as int), name@),
        decreases i,
    {
        let ghost prefix = fns@.subrange(0, i as int);
        assert(prefix.drop_last() =~= fns@.subrange(0, i - 1));
        if fns[i - 1].name == *name {
            return Some(i - 1);
        }
        i = i - 1;
    }
    None
}

fn op_kind_of(op: BinOp) -> (r: CheckedError)
    ensures
        r == op_kind(op),
{
    match op {
        BinOp::Add => CheckedError::Add,
        BinOp::Sub => CheckedError::Sub,
        BinOp::Mul => CheckedError::Mul,
        BinOp::Div => CheckedError::Div,
        _ => CheckedError::Rem,
    }
}

fn binary_values<T: CheckedPrimitive>(op: BinOp, a: Val<T>, b: Val<T>) -> (r: Result<Val<T>, Halt>)
    requires
        spec_is_checked_binary_op(op),
    ensures
        r == apply_binary(op_kind(op), a, b),
{
    match (a, b) {
        (Val::Raw(x), Val::Raw(y)) => {
            let c = match op {
                BinOp::Add => Checked::Value(x) + Checked::Value(y),
                BinOp::Sub => Checked::Value(x) - Checked::Value(y),
                BinOp::Mul => Checked::Value(x) * Checked::Value(y),
                BinOp::Div => Checked::Value(x) / Checked::Value(y),
                _ => Checked::Value(x) % Checked::Value(y),
            };
            match c {
                Checked::Value(v) => Ok(Val::Raw(v)),
                Checked::Failed(k) => Err(Halt::Overflow(k)),
            }
        },
        (Val::Checked(x), Val::Checked(y)) => {
            let c = match op {
                BinOp::Add => x + y,
                BinOp::Sub => x - y,
                BinOp::Mul => x * y,
                BinOp::Div => x / y,
                _ => x % y,
            };
            Ok(Val::Checked(c))
        },
        _ => Err(Halt::Stuck),
    }
}

fn neg_value<T: CheckedPrimitive>(a: Val<T>) -> (r: Result<Val<T>, Halt>)
    ensures
        r == apply_neg(a),
{
    match a {
        Val::Raw(x) => match core::ops::Neg::neg(Checked::Value(x)) {
            Checked::Value(v) => Ok(Val::Raw(v)),
            Checked::Failed(k) => Err(Halt::Overflow(k)),
        },
        Val::Checked(x) => Ok(Val::Checked(core::ops::Neg::neg(x))),
    }
}

/// Evaluates a tree in an environment.
pub fn evaluate<T: CheckedPrimitive>(e: &Expr, env: &Env<T>) -> (r: Result<Val<T>, Halt>)
    ensures
        r == eval(*e, env.vars@, env.fns@),
    decreases env.fns@.len(), e,
{
    match e {
        Expr::Lit(v) => match T::from_i128(*v) {
            Some(x) => Ok(Val::Raw(x)),
            None => Err(Halt::Stuck),
        },
        Expr::Var(name) => match lookup_var(&env.vars, name) {
            Some(x) => Ok(Val::Raw(x)),
            None => Err(Halt::Stuck),
        },
        Expr::Paren(inner) => evaluate(inner, env),
        Expr::Binary { op, left, right } => {
            if !is_checked_binary_op(*op) {
                return Err(Halt::Stuck);
            }
            let a = match evaluate(left, env) {
                Ok(a) => a,
                Err(h) => return Err(h),
            };
            let b = match evaluate(right, env) {
                Ok(b) => b,
                Err(h) => return Err(h),
            };
            binary_values(*op, a, b)
        },
        Expr::Unary { op, operand } => {
            if !is_checked_unary_op(*op) {
                return Err(Halt::Stuck);
            }
            match evaluate(operand, env) {
                Ok(a) => neg_value(a),
                Err(h) => Err(h),
            }
        },
        Expr::Lift(inner) => match evaluate(inner, env) {
            Err(h) => Err(h),
            Ok(Val::Raw(v)) => Ok(Val::Checked(Checked::Value(v))),
            Ok(Val::Checked(_)) => Err(Halt::Stuck),
        },
        Expr::Unpack(inner) => match evaluate(inner, env) {
            Err(h) => Err(h),
            Ok(Val::Checked(Checked::Value(v))) => Ok(Val::Raw(v)),
            Ok(Val::Checked(Checked::Failed(k))) => Err(Halt::Return(k)),
            Ok(Val::Raw(_)) => Err(Halt::Stuck),
        },
        Expr::Call { func, args } => {
            let (arg, rest) = match args {
                Exprs::Cons(arg, rest) => (arg, rest),
                Exprs::Nil => return Err(Halt::Stuck),
            };
            let name = match &**func {
                Expr::Var(name) => name,
                _ => return Err(Halt::Stuck),
            };
            match &**rest {
                Exprs::Nil => {},
                _ => return Err(Halt::Stuck),
            }
            let index = match find_fn_index(&env.fns, name) {
                Some(i) => i,
                None => return Err(Halt::Stuck),
            };
            let v = match evaluate(arg, env) {
                Ok(Val::Raw(v)) => v,
                Ok(Val::Checked(_)) => return Err(Halt::Stuck),
                Err(h) => return Err(h),
            };
            let def = &env.fns[index];
            let callee: Env<T> = Env { vars: vec![(def.param.clone(), v)], fns: Vec::new() };
            assert(callee.vars@ =~= seq![(def.param, v)]);
            match evaluate(&def.body, &callee) {
                Ok(Val::Raw(w)) => Ok(Val::Raw(w)),
                Ok(Val::Checked(_)) => Err(Halt::Stuck),
                Err(h) => Err(h),
            }
        },
        _ => Err(Halt::Stuck),
    }
}

/// `e` is source as written: it holds no lifted or unpacked node.
pub open spec fn plain(e: Expr) -> bool
    decreases e,
{
    match e {
        Expr::Lift(_) => false,
        Expr::Unpack(_) => false,
        Expr::Binary { left, right, .. } => plain(*left) && plain(*right),
        Expr::Unary { operand, .. } => plain(*operand),
        Expr::Assign { target, value } => plain(*target) && plain(*value),
        Expr::Paren(inner) => plain(*inner),
        Expr::Call { func, args } => plain(*func) && plain_list(args),
        Expr::Other { children, .. } => plain_list(children),
        _ => true,
    }
}

pub open spec fn plain_list(l: Exprs) -> bool
    decreases l,
{
    match l {
        Exprs::Nil => true,
        Exprs::Cons(first, rest) => plain(*first) && plain_list(*rest),
    }
}

/// The instrumented outcome `inst` agrees with the plain outcome `raw`: the
/// same value or halt, except that where plain arithmetic overflowed, the
/// instrumented code returns that operation's error instead.
pub open spec fn agrees<T>(raw: Result<Val<T>, Halt>, inst: Result<Val<T>, Halt>) -> bool {
    inst == raw || exists|k: CheckedError|
        raw == Err::<Val<T>, Halt>(Halt::Overflow(k)) && inst == Err::<Val<T>, Halt>(
            Halt::Return(k),
        )
}

/// Semantic equivalence: instrumented code computes what the plain code
/// computes. Where the plain code yields a value, the instrumented code yields
/// the same value; the two part only where plain arithmetic leaves its width,
/// and there the instrumented code returns the failing operation's error.
pub proof fn lemma_semantic_equivalence<T: CheckedPrimitive>(
    e: Expr,
    vars: Seq<(String, T)>,
    fns: Seq<FnDef>,
)
    requires
        plain(e),
    ensures
        agrees(eval(e, vars, fns), eval(instrumented(e), vars, fns)),
        eval(e, vars, fns) is Ok ==> eval(instrumented(e), vars, fns) == eval(e, vars, fns),
        !(eval(e, vars, fns) matches Ok(Val::Checked(_))),
    decreases e,
{
    let raw = eval(e, vars, fns);
    let inst = eval(instrumented(e), vars, fns);
    match e {
        Expr::Binary { op, left, right } => {
            lemma_semantic_equivalence(*left, vars, fns);
            lemma_semantic_equivalence(*right, vars, fns);
            if spec_is_checked_binary_op(op) {
                let kind = op_kind(op);
                let ll = Expr::Lift(Box::new(instrumented(*left)));
                let rl = Expr::Lift(Box::new(instrumented(*right)));
                let bin = Expr::Binary { op, left: Box::new(ll), right: Box::new(rl) };
                assert(instrumented(e) == Expr::Unpack(Box::new(bin)));
                let (el, er, eb) = (eval(ll, vars, fns), eval(rl, vars, fns), eval(bin, vars, fns));
                match eval(*left, vars, fns) {
                    Err(h) => {
                        assert(el is Err && eb == el);
                        if let Halt::Overflow(k) = h {
                            assert(agrees(raw, inst));
                        }
                    },
                    Ok(a) => {
                        let x = a->Raw_0;
                        assert(el == Ok::<Val<T>, Halt>(Val::Checked(Checked::Value(x))));
                        match eval(*right, vars, fns) {
                            Err(h) => {
                                assert(er is Err && eb == er);
                            },
                            Ok(b) => {
                                let y = b->Raw_0;
                                assert(er == Ok::<Val<T>, Halt>(Val::Checked(Checked::Value(y))));
                                assert(eb == Ok::<Val<T>, Halt>(Val::Checked(checked_value(kind, x, y))));
                                match checked_value(kind, x, y) {
                                    Checked::Value(c) => {},
                                    Checked::Failed(k) => {
                                        assert(raw == Err::<Val<T>, Halt>(Halt::Overflow(k)));
                                        assert(inst == Err::<Val<T>, Halt>(Halt::Return(k)));
                                    },
                                }
                            },
                        }
                    },
                }
            }
        },
        Expr::Unary { op, operand } => {
            lemma_semantic_equivalence(*operand, vars, fns);
            if op == UnOp::Neg {
                let ol = Expr::Lift(Box::new(instrumented(*operand)));
                let un = Expr::Unary { op, operand: Box::new(ol) };
                assert(instrumented(e) == Expr::Unpack(Box::new(un)));
                let (eo, eu) = (eval(ol, vars, fns), eval(un, vars, fns));
                match eval(*operand, vars, fns) {
                    Err(h) => {
                        assert(eo is Err && eu == eo);
                    },
                    Ok(a) => {
                        let x = a->Raw_0;
                        assert(eo == Ok::<Val<T>, Halt>(Val::Checked(Checked::Value(x))));
                        assert(eu == Ok::<Val<T>, Halt>(Val::Checked(checked_value(CheckedError::Neg, x, x))));
                        match checked_value(CheckedError::Neg, x, x) {
                            Checked::Value(c) => {},
                            Checked::Failed(k) => {
                                assert(raw == Err::<Val<T>, Halt>(Halt::Overflow(k)));
                                assert(inst == Err::<Val<T>, Halt>(Halt::Return(k)));
                            },
                        }
                    },
                }
            }
        },
        Expr::Paren(inner) => {
            lemma_semantic_equivalence(*inner, vars, fns);
        },
        Expr::Call { func, args } => {
            lemma_semantic_equivalence(*func, vars, fns);
            match args {
                Exprs::Cons(arg, rest) => {
                    assert(plain_list(args));
                    assert(plain(*arg));
                    lemma_semantic_equivalence(*arg, vars, fns);
                    assert(instrumented_list(args) == Exprs::Cons(
                        Box::new(instrumented(*arg)),
                        Box::new(instrumented_list(*rest)),
                    ));
                    if *rest == Exprs::Nil {
                        assert(instrumented_list(*rest) == Exprs::Nil);
                    } else {
                        assert(instrumented_list(*rest) != Exprs::Nil);
                    }
                    if *func is Var {
                        assert(instrumented(*func) == *func);
                    } else {
                        assert(!(instrumented(*func) is Var));
                    }
                    match eval(*arg, vars, fns) {
                        Err(h) => {
                            if let Halt::Overflow(k) = h {
                                if eval(instrumented(*arg), vars, fns) != eval(*arg, vars, fns) {
                                    assert(eval(instrumented(*arg), vars, fns) == Err::<Val<T>, Halt>(Halt::Return(k)));
                                }
                            }
                        },
                        Ok(_) => {},
                    }
                },
                Exprs::Nil => {},
            }
        },
        _ => {},
    }
}

} // verus!
