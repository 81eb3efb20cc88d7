//! The evaluation policy: which computation each command owes, and what
//! happens when the second operand is zero.
//!
//! The numeric work itself is floating point and happens outside the
//! library; this module pins down which operation is performed, when the
//! division-by-zero error is reported, and the zero-divisor fallbacks for
//! modulo and roots.

use vstd::prelude::*;
use crate::command::Command;
use crate::command::needs_operands;

verus! {

/// How one operation `(op, a, b)` is evaluated once it is known whether
/// `b` is zero.
#[derive(Clone, Copy, Debug, PartialEq, Eq, Structural)]
pub enum EvalPlan {
    /// `a + b`
    Sum,
    /// `a - b`
    Difference,
    /// `a * b`
    Product,
    /// `a / b`
    Quotient,
    /// division with a zero divisor: report the error and yield `0`
    DivisionByZero,
    /// `a % b`
    Remainder,
    /// modulo with a zero divisor: yield `a` unchanged, no error
    Dividend,
    /// `a` raised to the power `b`
    RaisePower,
    /// `a` raised to the power `1 / b`
    Root,
    /// root with degree zero: `a` raised to the power `1 / 2`
    RootDefault,
    /// a command that never reaches evaluation: yield `0`
    NoResult,
}

/// The plan owed for `op` when the second operand is zero iff `b_is_zero`.
pub open spec fn eval_plan_spec(op: Command, b_is_zero: bool) -> EvalPlan {
    match op {
        Command::Add => EvalPlan::Sum,
        Command::Subtract => EvalPlan::Difference,
        Command::Multiply => EvalPlan::Product,
        Command::Divide => if b_is_zero {
            EvalPlan::DivisionByZero
        } else {
            EvalPlan::Quotient
        },
        Command::Modulo => if b_is_zero {
            EvalPlan::Dividend
        } else {
            EvalPlan::Remainder
        },
        Command::Power => EvalPlan::RaisePower,
        Command::SquareRoot => if b_is_zero {
            EvalPlan::RootDefault
        } else {
            EvalPlan::Root
        },
        _ => EvalPlan::NoResult,
    }
}

/// Decides how `(op, a, b)` is evaluated, given whether `b` is zero.
pub fn eval_plan(op: Command, b_is_zero: bool) -> (p: EvalPlan)
    ensures
        p == eval_plan_spec(op, b_is_zero),
{
    match op {
        Command::Add => EvalPlan::Sum,
        Command::Subtract => EvalPlan::Difference,
        Command::Multiply => EvalPlan::Product,
        Command::Divide => if b_is_zero {
            EvalPlan::DivisionByZero
        } else {
            EvalPlan::Quotient
        },
        Command::Modulo => if b_is_zero {
            EvalPlan::Dividend
        } else {
            EvalPlan::Remainder
        },
        Command::Power => EvalPlan::RaisePower,
        Command::SquareRoot => if b_is_zero {
            EvalPlan::RootDefault
        } else {
            EvalPlan::Root
        },
        _ => EvalPlan::NoResult,
    }
}

/// The zero-denominator policy: dividing by zero reports an error and
/// yields zero; modulo by zero yields the dividend unchanged without an
/// error; a root of degree zero falls back to the classic square root;
/// with a nonzero second operand each of these evaluates normally; and a
/// command that collects no operands never produces a result.
pub proof fn lemma_zero_denominator_policy(op: Command)
    ensures
        eval_plan_spec(Command::Divide, true) == EvalPlan::DivisionByZero,
        eval_plan_spec(Command::Divide, false) == EvalPlan::Quotient,
        eval_plan_spec(Command::Modulo, true) == EvalPlan::Dividend,
        eval_plan_spec(Command::Modulo, false) == EvalPlan::Remainder,
        eval_plan_spec(Command::SquareRoot, true) == EvalPlan::RootDefault,
        eval_plan_spec(Command::SquareRoot, false) == EvalPlan::Root,
        !needs_operands(op) ==> forall|z: bool| eval_plan_spec(op, z) == EvalPlan::NoResult,
{
}

} // verus!
