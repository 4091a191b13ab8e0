//! The audit: finds checked-category arithmetic that was left outside the
//! checked domain.
use vstd::prelude::*;

use crate::rewrite::{
    spec_is_checked_binary_assign_op, spec_is_checked_binary_op, spec_is_checked_unary_op,
};
use crate::syntax::{BinOp, Expr, Exprs, ItemFn, UnOp};

verus! {

/// An offending expression, with the file and the function it stands in
/// (`None` outside any function).
#[derive(Debug, PartialEq, Eq)]
pub struct Violation {
    pub path: String,
    pub function: Option<String>,
    pub expr: Expr,
}

/// A parsed source file: its path and its top-level nodes.
#[derive(Debug, PartialEq, Eq)]
pub struct SourceFile {
    pub path: String,
    pub items: Exprs,
}

/// The operators the audit reports: the checked binary operators and their
/// compound-assignment forms.
pub open spec fn spec_checked_bin_op(op: BinOp) -> bool {
    spec_is_checked_binary_op(op) || spec_is_checked_binary_assign_op(op)
}

pub fn checked_bin_op(op: BinOp) -> (r: bool)
    ensures
        r == spec_checked_bin_op(op),
{
    match op {
        BinOp::Add | BinOp::Sub | BinOp::Mul | BinOp::Div | BinOp::Rem | BinOp::AddAssign
        | BinOp::SubAssign | BinOp::MulAssign | BinOp::DivAssign | BinOp::RemAssign => true,
        _ => false,
    }
}

pub fn checked_un_op(op: UnOp) -> (r: bool)
    ensures
        r == spec_is_checked_unary_op(op),
{
    match op {
        UnOp::Neg => true,
        _ => false,
    }
}

/// Whether a function carries one of the two attributes that exempt it:
/// its body is produced by the instrumentation pass, or deliberately opts out.
pub fn has_checked_fn_attr(attrs: &Vec<String>) -> (r: bool)
    ensures
        r == exists|i: int|
            0 <= i < attrs@.len() && (attrs@[i]@ == "checked_fn"@ || attrs@[i]@
                == "unchecked_fn"@),
{
    let checked = "checked_fn".to_owned();
    let unchecked = "unchecked_fn".to_owned();
    let mut i: usize = 0;
    while i < attrs.len()
        invariant
            i <= attrs@.len(),
            checked@ == "checked_fn"@,
            unchecked@ == "unchecked_fn"@,
            forall|j: int|
                0 <= j < i ==> !(attrs@[j]@ == "checked_fn"@ || attrs@[j]@ == "unchecked_fn"@),
        decreases attrs@.len() - i,
    {
        if attrs[i] == checked || attrs[i] == unchecked {
            return true;
        }
        i = i + 1;
    }
    false
}

/// The violations in `e`, in source order. An offending node is reported as
/// a whole and not searched further; an exempt scope is skipped.
pub open spec fn violations(e: Expr, path: String, function: Option<String>) -> Seq<Violation>
    decreases e,
{
    match e {
        Expr::Binary { op, left, right } => if spec_checked_bin_op(op) {
            seq![Violation { path, function, expr: e }]
        } else {
            violations(*left, path, function) + violations(*right, path, function)
        },
        Expr::Unary { op, operand } => if spec_is_checked_unary_op(op) {
            seq![Violation { path, function, expr: e }]
        } else {
            violations(*operand, path, function)
        },
        Expr::Assign { target, value } => violations(*target, path, function) + violations(
            *value,
            path,
            function,
        ),
        Expr::Paren(inner) => violations(*inner, path, function),
        Expr::Call { func, args } => violations(*func, path, function) + violations_list(
            args,
            path,
            function,
        ),
        Expr::Lift(inner) => violations(*inner, path, function),
        Expr::Unpack(inner) => violations(*inner, path, function),
        Expr::Function(f) => if f.exempt {
            Seq::empty()
        } else {
            violations_list(f.body, path, Some(f.name))
        },
        Expr::Other { children, .. } => violations_list(children, path, function),
        _ => Seq::empty(),
    }
}

pub open spec fn violations_list(l: Exprs, path: String, function: Option<String>) -> Seq<
    Violation,
>
    decreases l,
{
    match l {
        Exprs::Nil => Seq::empty(),
        Exprs::Cons(first, rest) => violations(*first, path, function) + violations_list(
            *rest,
            path,
            function,
        ),
    }
}

/// The violations of a file; top-level nodes stand outside any function.
pub open spec fn file_violations(file: SourceFile) -> Seq<Violation> {
    violations_list(file.items, file.path, None)
}

/// The violations of all files, file after file.
pub open spec fn all_violations(files: Seq<SourceFile>) -> Seq<Violation>
    decreases files.len(),
{
    if files.len() == 0 {
        Seq::empty()
    } else {
        all_violations(files.drop_last()) + file_violations(files.last())
    }
}

/// Whether `e` is itself an offending node: a checked binary operator or a
/// negation.
pub open spec fn is_offending(e: Expr) -> bool {
    match e {
        Expr::Binary { op, .. } => spec_checked_bin_op(op),
        Expr::Unary { op, .. } => spec_is_checked_unary_op(op),
        _ => false,
    }
}

/// The number of offending nodes in `e` that no other offending node
/// encloses, outside exempt scopes.
pub open spec fn offending_count(e: Expr) -> nat
    decreases e,
{
    if is_offending(e) {
        1
    } else {
        match e {
            Expr::Binary { left, right, .. } => offending_count(*left) + offending_count(*right),
            Expr::Unary { operand, .. } => offending_count(*operand),
            Expr::Assign { target, value } => offending_count(*target) + offending_count(*value),
            Expr::Paren(inner) => offending_count(*inner),
            Expr::Call { func, args } => offending_count(*func) + offending_count_list(args),
            Expr::Lift(inner) => offending_count(*inner),
            Expr::Unpack(inner) => offending_count(*inner),
            Expr::Function(f) => if f.exempt {
                0
            } else {
                offending_count_list(f.body)
            },
            Expr::Other { children, .. } => offending_count_list(children),
            _ => 0,
        }
    }
}

pub open spec fn offending_count_list(l: Exprs) -> nat
    decreases l,
{
    match l {
        Exprs::Nil => 0,
        Exprs::Cons(first, rest) => offending_count(*first) + offending_count_list(*rest),
    }
}

/// Every violation names the file `path` and reports an offending node.
pub open spec fn all_from(vs: Seq<Violation>, path: String) -> bool {
    forall|i: int| 0 <= i < vs.len() ==> (#[trigger] vs[i]).path == path && is_offending(vs[i].expr)
}

proof fn lemma_violations_count(e: Expr, path: String, function: Option<String>)
    ensures
        violations(e, path, function).len() == offending_count(e),
        all_from(violations(e, path, function), path),
    decreases e,
{
    match e {
        Expr::Binary { left, right, .. } => {
            lemma_violations_count(*left, path, function);
            lemma_violations_count(*right, path, function);
            lemma_all_from_append(violations(*left, path, function), violations(*right, path, function), path);
        },
        Expr::Unary { operand, .. } => lemma_violations_count(*operand, path, function),
        Expr::Assign { target, value } => {
            lemma_violations_count(*target, path, function);
            lemma_violations_count(*value, path, function);
            lemma_all_from_append(violations(*target, path, function), violations(*value, path, function), path);
        },
        Expr::Paren(inner) => lemma_violations_count(*inner, path, function),
        Expr::Call { func, args } => {
            lemma_violations_count(*func, path, function);
            lemma_violations_list_count(args, path, function);
            lemma_all_from_append(violations(*func, path, function), violations_list(args, path, function), path);
        },
        Expr::Lift(inner) => lemma_violations_count(*inner, path, function),
        Expr::Unpack(inner) => lemma_violations_count(*inner, path, function),
        Expr::Function(f) => {
            if !f.exempt {
                lemma_violations_list_count(f.body, path, Some(f.name));
            }
        },
        Expr::Other { children, .. } => lemma_violations_list_count(children, path, function),
        _ => {},
    }
}

proof fn lemma_violations_list_count(l: Exprs, path: String, function: Option<String>)
    ensures
        violations_list(l, path, function).len() == offending_count_list(l),
        all_from(violations_list(l, path, function), path),
    decreases l,
{
    match l {
        Exprs::Nil => {},
        Exprs::Cons(first, rest) => {
            lemma_violations_count(*first, path, function);
            lemma_violations_list_count(*rest, path, function);
            lemma_all_from_append(violations(*first, path, function), violations_list(*rest, path, function), path);
        },
    }
}

proof fn lemma_all_from_append(a: Seq<Violation>, b: Seq<Violation>, path: String)
    requires
        all_from(a, path),
        all_from(b, path),
    ensures
        all_from(a + b, path),
{
    assert forall|i: int| 0 <= i < (a + b).len() implies (#[trigger] (a + b)[i]).path == path
        && is_offending((a + b)[i].expr) by {
        if i < a.len() {
            assert((a + b)[i] == a[i]);
        } else {
            assert((a + b)[i] == b[i - a.len()]);
        }
    }
}

/// Exemption: a scope marked exempt yields no violation at all; the same
/// scope without the marker yields its body's violations under its own name,
/// exactly one for each offending node that no other offending node encloses.
pub proof fn lemma_exemption(name: String, body: Exprs, path: String, function: Option<String>)
    ensures
        violations(Expr::Function(ItemFn { name, exempt: true, body }), path, function)
            == Seq::<Violation>::empty(),
        violations(Expr::Function(ItemFn { name, exempt: false, body }), path, function)
            == violations_list(body, path, Some(name)),
        violations(Expr::Function(ItemFn { name, exempt: false, body }), path, function).len()
            == offending_count_list(body),
        all_from(violations(Expr::Function(ItemFn { name, exempt: false, body }), path, function), path),
{
    lemma_violations_list_count(body, path, Some(name));
}

/// Aggregation: when each of K files holds exactly one violation, the audit of
/// all of them reports exactly K.
pub proof fn lemma_aggregation(files: Seq<SourceFile>)
    requires
        forall|i: int| 0 <= i < files.len() ==> #[trigger] file_violations(files[i]).len() == 1,
    ensures
        all_violations(files).len() == files.len(),
    decreases files.len(),
{
    if files.len() > 0 {
        let rest = files.drop_last();
        assert forall|i: int| 0 <= i < rest.len() implies #[trigger] file_violations(rest[i]).len()
            == 1 by {
            assert(rest[i] == files[i]);
        }
        lemma_aggregation(rest);
        assert(file_violations(files[files.len() - 1]).len() == 1);
    }
}

/// Walks one file and collects what it finds.
pub struct CheckedVisitor {
    pub current_file: String,
    pub current_fn: Option<String>,
    pub errors: Vec<Violation>,
}

fn copy_name(name: &Option<String>) -> (r: Option<String>)
    ensures
        r == *name,
{
    match name {
        Some(n) => Some(n.clone()),
        None => None,
    }
}

impl CheckedVisitor {
    pub fn new(path: String) -> (r: CheckedVisitor)
        ensures
            r.current_file == path,
            r.current_fn is None,
            r.errors@ == Seq::<Violation>::empty(),
    {
        CheckedVisitor { current_file: path, current_fn: None, errors: Vec::new() }
    }

    fn push_error(&mut self, unchecked_expr: Expr)
        ensures
            final(self).current_file == old(self).current_file,
            final(self).current_fn == old(self).current_fn,
            final(self).errors@ == old(self).errors@.push(
                Violation {
                    path: old(self).current_file,
                    function: old(self).current_fn,
                    expr: unchecked_expr,
                },
            ),
    {
        let v = Violation {
            path: self.current_file.clone(),
            function: copy_name(&self.current_fn),
            expr: unchecked_expr,
        };
        self.errors.push(v);
    }

    pub fn visit_expr(&mut self, e: &Expr)
        ensures
            final(self).current_file == old(self).current_file,
            final(self).current_fn == old(self).current_fn,
            final(self).errors@ == old(self).errors@ + violations(
                *e,
                old(self).current_file,
                old(self).current_fn,
            ),
        decreases e,
    {
        match e {
            Expr::Binary { op, left, right } => {
                if checked_bin_op(*op) {
                    self.push_error(e.clone());
                } else {
                    self.visit_expr(left);
                    self.visit_expr(right);
                }
            },
            Expr::Unary { op, operand } => {
                if checked_un_op(*op) {
                    self.push_error(e.clone());
                } else {
                    self.visit_expr(operand);
                }
            },
            Expr::Assign { target, value } => {
                self.visit_expr(target);
                self.visit_expr(value);
            },
            Expr::Paren(inner) => self.visit_expr(inner),
            Expr::Call { func, args } => {
                self.visit_expr(func);
                self.visit_exprs(args);
            },
            Expr::Lift(inner) => self.visit_expr(inner),
            Expr::Unpack(inner) => self.visit_expr(inner),
            Expr::Function(f) => {
                if !f.exempt {
                    let outer = copy_name(&self.current_fn);
                    self.current_fn = Some(f.name.clone());
                    self.visit_exprs(&f.body);
                    self.current_fn = outer;
                }
            },
            Expr::Other { children, .. } => self.visit_exprs(children),
            _ => {},
        }
        proof {
            assert(self.errors@ =~= old(self).errors@ + violations(
                *e,
                old(self).current_file,
                old(self).current_fn,
            ));
        }
    }

    pub fn visit_exprs(&mut self, l: &Exprs)
        ensures
            final(self).current_file == old(self).current_file,
            final(self).current_fn == old(self).current_fn,
            final(self).errors@ == old(self).errors@ + violations_list(
                *l,
                old(self).current_file,
                old(self).current_fn,
            ),
        decreases l,
    {
        match l {
            Exprs::Nil => {
                assert(self.errors@ =~= old(self).errors@ + violations_list(
                    *l,
                    old(self).current_file,
                    old(self).current_fn,
                ));
            },
            Exprs::Cons(first, rest) => {
                self.visit_expr(first);
                self.visit_exprs(rest);
                assert(self.errors@ =~= old(self).errors@ + violations_list(
                    *l,
                    old(self).current_file,
                    old(self).current_fn,
                ));
            },
        }
    }
}

/// Audits one parsed file.
pub fn audit_file(file: &SourceFile) -> (r: Vec<Violation>)
    ensures
        r@ == file_violations(*file),
{
    let mut visitor = CheckedVisitor::new(file.path.clone());
    visitor.visit_exprs(&file.items);
    assert(visitor.errors@ =~= file_violations(*file));
    visitor.errors
}

/// Audits every file and gathers all violations, file after file.
pub fn audit(files: &Vec<SourceFile>) -> (r: Vec<Violation>)
    ensures
        r@ == all_violations(files@),
{
    let mut errors: Vec<Violation> = Vec::new();
    let mut i: usize = 0;
    while i < files.len()
        invariant
            i <= files@.len(),
            errors@ == all_violations(files@.subrange(0, i as int)),
        decreases files@.len() - i,
    {
        let mut found = audit_file(&files[i]);
        errors.append(&mut found);
        proof {
            let next = files@.subrange(0, i + 1);
            assert(next.drop_last() =~= files@.subrange(0, i as int));
            assert(next.last() == files@[i as int]);
        }
        i = i + 1;
    }
    assert(files@.subrange(0, files@.len() as int) =~= files@);
    errors
}

/// The audit passes exactly when no file holds a violation.
pub fn audit_passes(files: &Vec<SourceFile>) -> (r: bool)
    ensures
        r == (all_violations(files@).len() == 0),
{
    audit(files).len() == 0
}

} // verus!
