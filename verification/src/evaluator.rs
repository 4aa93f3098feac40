//! The evaluator: reduces an expression tree to one numeric result.
//!
//! The verified core cannot hold a floating-point number, so the evaluation
//! is split in two. This module compiles the tree into a linear, post-order
//! evaluation program over literal bit patterns, and proves that running
//! that program on a stack machine computes exactly the recursive
//! evaluation of the tree, whatever the arithmetic operators mean. An
//! unverified driver then folds the program with the real IEEE-754
//! operations on `f64` values.
use vstd::prelude::*;
use crate::expr_ast::Binary;
use crate::expr_ast::BinaryOp;
use crate::expr_ast::Expr;
use crate::expr_ast::Group;
use crate::expr_ast::Num;
use crate::expr_ast::Unary;
use crate::expr_ast::UnaryOp;

verus! {

/// One instruction of the evaluation program. `Push` pushes the literal
/// with the given IEEE-754 binary64 bit pattern; `Apply` pops the right
/// then the left operand and pushes the operator's result; `ApplyUnary`
/// pops one operand and pushes the operator's result.
pub enum EvalStep {
    Push(u64),
    Apply(BinaryOp),
    ApplyUnary(UnaryOp),
}

/// The recursive evaluation of a tree, relative to an arbitrary meaning
/// `bin` of the two-operand operators and `un` of the one-operand
/// operators on bit patterns: a two-operand node combines its children's
/// values per its operator, a one-operand node transforms its child's
/// value, a group is value-transparent, and a leaf is its own literal.
pub open spec fn eval_with(
    e: Expr,
    bin: spec_fn(BinaryOp, u64, u64) -> u64,
    un: spec_fn(UnaryOp, u64) -> u64,
) -> u64
    decreases e,
{
    match e {
        Expr::Binary(b) => bin(b.op, eval_with(*b.lhs, bin, un), eval_with(*b.rhs, bin, un)),
        Expr::Unary(u) => un(u.op, eval_with(*u.expr, bin, un)),
        Expr::Group(g) => eval_with(*g.expr, bin, un),
        Expr::Num(n) => n.bits,
    }
}

/// The post-order evaluation program of a tree: both children, left first,
/// then the node's own instruction; a group adds no instruction of its own.
pub open spec fn program_of(e: Expr) -> Seq<EvalStep>
    decreases e,
{
    match e {
        Expr::Binary(b) => program_of(*b.lhs) + program_of(*b.rhs)
            + seq![EvalStep::Apply(b.op)],
        Expr::Unary(u) => program_of(*u.expr) + seq![EvalStep::ApplyUnary(u.op)],
        Expr::Group(g) => program_of(*g.expr),
        Expr::Num(n) => seq![EvalStep::Push(n.bits)],
    }
}

/// Runs an evaluation program on a stack of bit patterns, relative to the
/// operator meanings `bin` and `un`; yields `None` when an instruction
/// finds too few operands on the stack, and the final stack otherwise.
pub open spec fn run_steps(
    prog: Seq<EvalStep>,
    stack: Seq<u64>,
    bin: spec_fn(BinaryOp, u64, u64) -> u64,
    un: spec_fn(UnaryOp, u64) -> u64,
) -> Option<Seq<u64>>
    decreases prog.len(),
{
    if prog.len() == 0 {
        Some(stack)
    } else {
        match prog[0] {
            EvalStep::Push(bits) => run_steps(prog.drop_first(), stack.push(bits), bin, un),
            EvalStep::Apply(op) => if stack.len() >= 2 {
                let a = stack[stack.len() - 2];
                let b = stack[stack.len() - 1];
                run_steps(
                    prog.drop_first(),
                    stack.take(stack.len() - 2).push(bin(op, a, b)),
                    bin,
                    un,
                )
            } else {
                None
            },
            EvalStep::ApplyUnary(op) => if stack.len() >= 1 {
                let a = stack[stack.len() - 1];
                run_steps(
                    prog.drop_first(),
                    stack.take(stack.len() - 1).push(un(op, a)),
                    bin,
                    un,
                )
            } else {
                None
            },
        }
    }
}

fn push_steps(expr: &Expr, out: &mut Vec<EvalStep>)
    ensures
        final(out)@ == old(out)@ + program_of(*expr),
    decreases expr,
{
    match expr {
        Expr::Binary(b) => {
            push_steps(&b.lhs, out);
            push_steps(&b.rhs, out);
            out.push(EvalStep::Apply(b.op));
            proof {
                assert(out@ =~= old(out)@ + program_of(*expr));
            }
        },
        Expr::Unary(u) => {
            push_steps(&u.expr, out);
            out.push(EvalStep::ApplyUnary(u.op));
            proof {
                assert(out@ =~= old(out)@ + program_of(*expr));
            }
        },
        Expr::Group(g) => {
            push_steps(&g.expr, out);
        },
        Expr::Num(n) => {
            out.push(EvalStep::Push(n.bits));
            proof {
                assert(out@ =~= old(out)@ + program_of(*expr));
            }
        },
    }
}

/// Compiles a tree into its post-order evaluation program.
pub fn eval_program(expr: &Expr) -> (prog: Vec<EvalStep>)
    ensures
        prog@ == program_of(*expr),
{
    let mut out: Vec<EvalStep> = Vec::new();
    push_steps(expr, &mut out);
    proof {
        assert(out@ =~= program_of(*expr));
    }
    out
}

/// Running a tree's program and then a continuation is the same as running
/// the continuation with the tree's value pushed onto the stack: the
/// compiled program computes the recursive evaluation of the tree, for
/// every meaning of the operators, and never finds too few operands.
pub proof fn lemma_program_runs(
    e: Expr,
    rest: Seq<EvalStep>,
    stack: Seq<u64>,
    bin: spec_fn(BinaryOp, u64, u64) -> u64,
    un: spec_fn(UnaryOp, u64) -> u64,
)
    ensures
        run_steps(program_of(e) + rest, stack, bin, un) == run_steps(
            rest,
            stack.push(eval_with(e, bin, un)),
            bin,
            un,
        ),
    decreases e,
{
    match e {
        Expr::Binary(b) => {
            let pl = program_of(*b.lhs);
            let pr = program_of(*b.rhs);
            let app = seq![EvalStep::Apply(b.op)];
            let vl = eval_with(*b.lhs, bin, un);
            let vr = eval_with(*b.rhs, bin, un);
            assert((pl + pr + app) + rest =~= pl + (pr + (app + rest)));
            lemma_program_runs(*b.lhs, pr + (app + rest), stack, bin, un);
            lemma_program_runs(*b.rhs, app + rest, stack.push(vl), bin, un);
            let st2 = stack.push(vl).push(vr);
            assert((app + rest)[0] == EvalStep::Apply(b.op));
            assert((app + rest).drop_first() =~= rest);
            assert(st2[st2.len() - 2] == vl);
            assert(st2[st2.len() - 1] == vr);
            assert(st2.take(st2.len() - 2) =~= stack);
        },
        Expr::Unary(u) => {
            let pe = program_of(*u.expr);
            let app = seq![EvalStep::ApplyUnary(u.op)];
            let v = eval_with(*u.expr, bin, un);
            assert((pe + app) + rest =~= pe + (app + rest));
            lemma_program_runs(*u.expr, app + rest, stack, bin, un);
            let st2 = stack.push(v);
            assert((app + rest)[0] == EvalStep::ApplyUnary(u.op));
            assert((app + rest).drop_first() =~= rest);
            assert(st2[st2.len() - 1] == v);
            assert(st2.take(st2.len() - 1) =~= stack);
        },
        Expr::Group(g) => {
            lemma_program_runs(*g.expr, rest, stack, bin, un);
        },
        Expr::Num(n) => {
            let p = seq![EvalStep::Push(n.bits)];
            assert((p + rest)[0] == EvalStep::Push(n.bits));
            assert((p + rest).drop_first() =~= rest);
        },
    }
}

/// Running a tree's whole program on an empty stack yields exactly one
/// value: the recursive evaluation of the tree. In particular no
/// instruction ever finds too few operands, so a driver that folds the
/// program over a stack neither underflows nor leaves a value behind.
pub proof fn lemma_program_evaluates(
    e: Expr,
    bin: spec_fn(BinaryOp, u64, u64) -> u64,
    un: spec_fn(UnaryOp, u64) -> u64,
)
    ensures
        run_steps(program_of(e), Seq::empty(), bin, un) == Some(
            seq![eval_with(e, bin, un)],
        ),
{
    lemma_program_runs(e, Seq::empty(), Seq::empty(), bin, un);
    assert(program_of(e) + Seq::<EvalStep>::empty() =~= program_of(e));
    assert(Seq::<u64>::empty().push(eval_with(e, bin, un)) =~= seq![
        eval_with(e, bin, un),
    ]);
}

/// A group is value-transparent: it evaluates to whatever its inner tree
/// evaluates to, for every meaning of the operators.
pub proof fn lemma_eval_group(
    g: Group,
    bin: spec_fn(BinaryOp, u64, u64) -> u64,
    un: spec_fn(UnaryOp, u64) -> u64,
)
    ensures
        eval_with(Expr::Group(g), bin, un) == eval_with(*g.expr, bin, un),
{
}

/// A two-operand node evaluates to its operator applied to the values of
/// its children: with `bin` the IEEE-754 operations, a subtraction node
/// yields the difference of its children's values, and likewise for
/// addition, multiplication and division.
pub proof fn lemma_eval_binary(
    b: Binary,
    bin: spec_fn(BinaryOp, u64, u64) -> u64,
    un: spec_fn(UnaryOp, u64) -> u64,
)
    ensures
        eval_with(Expr::Binary(b), bin, un) == bin(
            b.op,
            eval_with(*b.lhs, bin, un),
            eval_with(*b.rhs, bin, un),
        ),
{
}

/// A negation node evaluates to its operator applied to the value of its
/// operand, whatever that value is — with `un` the IEEE-754 negation this
/// covers zero, NaN and the infinities alike.
pub proof fn lemma_eval_unary(
    u: Unary,
    bin: spec_fn(BinaryOp, u64, u64) -> u64,
    un: spec_fn(UnaryOp, u64) -> u64,
)
    ensures
        eval_with(Expr::Unary(u), bin, un) == un(u.op, eval_with(*u.expr, bin, un)),
{
}

/// A literal leaf evaluates to its own bit pattern, untouched by the
/// meaning of the operators.
pub proof fn lemma_eval_num(
    n: Num,
    bin: spec_fn(BinaryOp, u64, u64) -> u64,
    un: spec_fn(UnaryOp, u64) -> u64,
)
    ensures
        eval_with(Expr::Num(n), bin, un) == n.bits,
{
}

} // verus!
