//! The arithmetic-expression tree: a closed set of node kinds, built once
//! and read by the evaluator and the printer without mutation.
use vstd::prelude::*;

verus! {

/// The two-operand arithmetic operators.
#[derive(Clone, Copy)]
pub enum BinaryOp {
    Add,
    Sub,
    Mul,
    Div,
}

/// The one-operand operators; only negation exists today, but the evaluator
/// and the printer each dispatch on this enum in a single place, so a new
/// member is a localized change.
#[derive(Clone, Copy)]
pub enum UnaryOp {
    Neg,
}

/// A two-operand operation; it owns both child trees.
pub struct Binary {
    pub op: BinaryOp,
    pub lhs: Box<Expr>,
    pub rhs: Box<Expr>,
}

/// A one-operand operation; it owns its child tree.
pub struct Unary {
    pub op: UnaryOp,
    pub expr: Box<Expr>,
}

/// An explicit parenthesization marker. It has no effect on the value of the
/// tree; it only survives so that the printer can show where the parentheses
/// stood.
pub struct Group {
    pub expr: Box<Expr>,
}

/// A numeric literal leaf.
///
/// The verified core cannot hold a floating-point number, so a literal is
/// carried as two plain values that the caller derives from one number when
/// it builds the tree: `bits` is the IEEE-754 binary64 bit pattern, which the
/// evaluation program pushes for this leaf, and `text` is the number's
/// decimal rendering, which the printer emits verbatim for this leaf.
pub struct Num {
    pub bits: u64,
    pub text: String,
}

/// One node of an expression tree.
pub enum Expr {
    Binary(Binary),
    Unary(Unary),
    Group(Group),
    Num(Num),
}

/// How many composite (non-leaf) nodes the tree holds: every Binary, Unary
/// and Group node counts, a Num leaf does not.
pub open spec fn compound_count(e: Expr) -> nat
    decreases e,
{
    match e {
        Expr::Binary(b) => 1 + compound_count(*b.lhs) + compound_count(*b.rhs),
        Expr::Unary(u) => 1 + compound_count(*u.expr),
        Expr::Group(g) => 1 + compound_count(*g.expr),
        Expr::Num(_) => 0,
    }
}

} // verus!
