//! The syntax tree that the instrumentation pass and the audit work on.
//!
//! A host parser turns its own tree into this one: the arithmetic the library
//! cares about is spelled out, function-like scopes carry their exemption as a
//! flag, and every other node kind keeps only its sub-expressions and a tag
//! that lets the host find its own node again.
use vstd::prelude::*;

verus! {

/// Binary operators.
#[derive(Debug, Clone, Copy, PartialEq, Eq, Structural)]
pub enum BinOp {
    Add,
    Sub,
    Mul,
    Div,
    Rem,
    And,
    Or,
    BitXor,
    BitAnd,
    BitOr,
    Shl,
    Shr,
    Eq,
    Lt,
    Le,
    Ne,
    Ge,
    Gt,
    AddAssign,
    SubAssign,
    MulAssign,
    DivAssign,
    RemAssign,
    BitXorAssign,
    BitAndAssign,
    BitOrAssign,
    ShlAssign,
    ShrAssign,
}

/// Unary operators.
#[derive(Debug, Clone, Copy, PartialEq, Eq, Structural)]
pub enum UnOp {
    Deref,
    Not,
    Neg,
}

/// A node of the syntax tree.
#[derive(Debug, PartialEq, Eq)]
pub enum Expr {
    /// An integer literal.
    Lit(i128),
    /// A path naming a local variable or a function.
    Var(String),
    Binary { op: BinOp, left: Box<Expr>, right: Box<Expr> },
    Unary { op: UnOp, operand: Box<Expr> },
    Assign { target: Box<Expr>, value: Box<Expr> },
    Paren(Box<Expr>),
    Call { func: Box<Expr>, args: Exprs },
    /// Lifts the operand's value into the checked domain.
    Lift(Box<Expr>),
    /// Unwraps a checked value, or makes the enclosing function return its
    /// error at once.
    Unpack(Box<Expr>),
    /// A function or method nested at this point.
    Function(ItemFn),
    /// Any other kind of node, with its sub-expressions in source order.
    Other { tag: u64, children: Exprs },
    /// A kind of node outside the supported grammar.
    Unsupported { tag: u64 },
}

/// A sequence of nodes.
#[derive(Debug, PartialEq, Eq)]
pub enum Exprs {
    Nil,
    Cons(Box<Expr>, Box<Exprs>),
}

/// A function-like scope: a free function or a method.
#[derive(Debug, PartialEq, Eq)]
pub struct ItemFn {
    pub name: String,
    /// Set when the body must be left alone by both the instrumentation pass
    /// and the audit.
    pub exempt: bool,
    pub body: Exprs,
}

impl Exprs {
    pub open spec fn len(self) -> nat
        decreases self,
    {
        match self {
            Exprs::Nil => 0,
            Exprs::Cons(_, rest) => 1 + rest.len(),
        }
    }

    /// The nodes as a sequence.
    pub open spec fn seq(self) -> Seq<Expr>
        decreases self,
    {
        match self {
            Exprs::Nil => Seq::empty(),
            Exprs::Cons(first, rest) => seq![*first] + rest.seq(),
        }
    }

    /// Builds the sequence from a vector, keeping the order.
    pub fn from_vec(v: Vec<Expr>) -> (r: Exprs)
        ensures
            r.seq() == v@,
    {
        let mut v = v;
        let ghost all = v@;
        let mut r = Exprs::Nil;
        while v.len() > 0
            invariant
                v@ + r.seq() == all,
            decreases v.len(),
        {
            let e = v.pop().unwrap();
            proof {
                assert(seq![e] + r.seq() == Exprs::Cons(Box::new(e), Box::new(r)).seq());
            }
            r = Exprs::Cons(Box::new(e), Box::new(r));
            assert(v@ + r.seq() =~= all);
        }
        assert(r.seq() =~= all);
        r
    }
}

impl Clone for Expr {
    fn clone(&self) -> (r: Expr)
        ensures
            r == *self,
        decreases self,
    {
        match self {
            Expr::Lit(v) => Expr::Lit(*v),
            Expr::Var(name) => Expr::Var(name.clone()),
            Expr::Binary { op, left, right } => Expr::Binary {
                op: *op,
                left: Box::new((**left).clone()),
                right: Box::new((**right).clone()),
            },
            Expr::Unary { op, operand } => Expr::Unary {
                op: *op,
                operand: Box::new((**operand).clone()),
            },
            Expr::Assign { target, value } => Expr::Assign {
                target: Box::new((**target).clone()),
                value: Box::new((**value).clone()),
            },
            Expr::Paren(inner) => Expr::Paren(Box::new((**inner).clone())),
            Expr::Call { func, args } => Expr::Call {
                func: Box::new((**func).clone()),
                args: args.clone(),
            },
            Expr::Lift(inner) => Expr::Lift(Box::new((**inner).clone())),
            Expr::Unpack(inner) => Expr::Unpack(Box::new((**inner).clone())),
            Expr::Function(f) => Expr::Function(f.clone()),
            Expr::Other { tag, children } => Expr::Other { tag: *tag, children: children.clone() },
            Expr::Unsupported { tag } => Expr::Unsupported { tag: *tag },
        }
    }
}

impl Clone for Exprs {
    fn clone(&self) -> (r: Exprs)
        ensures
            r == *self,
        decreases self,
    {
        match self {
            Exprs::Nil => Exprs::Nil,
            Exprs::Cons(first, rest) => Exprs::Cons(
                Box::new((**first).clone()),
                Box::new((**rest).clone()),
            ),
        }
    }
}

impl Clone for ItemFn {
    fn clone(&self) -> (r: ItemFn)
        ensures
            r == *self,
        decreases self,
    {
        ItemFn { name: self.name.clone(), exempt: self.exempt, body: self.body.clone() }
    }
}

} // verus!
