//! Constant evaluation: resolve an expression to a compile-time integer.
//!
//! The evaluator is deliberately shallow: it folds literals, named
//! compile-time constants, and the exact arithmetic operators `+`, `-` and
//! `*` over them. Anything else — a call, a division, an operator with
//! possible side effects — is not a compile-time constant to this rule.
//! A fold whose exact value does not fit the integer type is treated as not
//! constant rather than wrapped: silent wraparound would let the rule fire
//! on a divisor the program never computes.

use vstd::prelude::*;

use crate::ast::{BinOp, Expr};

verus! {

/// The outcome of trying to resolve an expression to an integer.
#[derive(Clone, Copy, PartialEq, Eq, Structural, Debug)]
pub enum ResolvedConstant {
    IntegerValue(i128),
    NotConstant,
}

impl ResolvedConstant {
    /// The resolved value as a mathematical integer, if any.
    pub open spec fn as_int(self) -> Option<int> {
        match self {
            ResolvedConstant::IntegerValue(v) => Some(v as int),
            ResolvedConstant::NotConstant => None,
        }
    }
}

/// Exact fold of one binary operator. A result outside the `i128` range is
/// not a constant; operators the evaluator does not fold yield `None`.
pub open spec fn fold_op(op: BinOp, a: int, b: int) -> Option<int> {
    match op {
        BinOp::Add => {
            if i128::MIN <= a + b <= i128::MAX {
                Some(a + b)
            } else {
                None
            }
        },
        BinOp::Sub => {
            if i128::MIN <= a - b <= i128::MAX {
                Some(a - b)
            } else {
                None
            }
        },
        BinOp::Mul => {
            if i128::MIN <= a * b <= i128::MAX {
                Some(a * b)
            } else {
                None
            }
        },
        BinOp::Div => None,
        BinOp::Other => None,
    }
}

/// The value an expression resolves to, if it is a compile-time constant to
/// this evaluator.
pub open spec fn spec_eval(e: Expr) -> Option<int>
    decreases e,
{
    match e {
        Expr::Lit { value, .. } => Some(value as int),
        Expr::NamedConst { value, .. } => Some(value as int),
        Expr::Binary { op, left, right, .. } => {
            match (spec_eval(*left), spec_eval(*right)) {
                (Some(a), Some(b)) => fold_op(op, a, b),
                _ => None,
            }
        },
        _ => None,
    }
}

/// Resolves an expression to a compile-time integer, or reports that it is
/// not one. Overflowing folds come back as `NotConstant`, never wrapped.
pub fn evaluate_constant(e: &Expr) -> (r: ResolvedConstant)
    ensures
        r.as_int() == spec_eval(*e),
    decreases *e,
{
    match e {
        Expr::Lit { value, .. } => ResolvedConstant::IntegerValue(*value),
        Expr::NamedConst { value, .. } => ResolvedConstant::IntegerValue(*value),
        Expr::Binary { op, left, right, .. } => {
            let lv = evaluate_constant(left);
            let rv = evaluate_constant(right);
            match (lv, rv) {
                (ResolvedConstant::IntegerValue(a), ResolvedConstant::IntegerValue(b)) => {
                    let folded: Option<i128> = match op {
                        BinOp::Add => a.checked_add(b),
                        BinOp::Sub => a.checked_sub(b),
                        BinOp::Mul => a.checked_mul(b),
                        BinOp::Div => None,
                        BinOp::Other => None,
                    };
                    match folded {
                        Some(v) => ResolvedConstant::IntegerValue(v),
                        None => ResolvedConstant::NotConstant,
                    }
                },
                _ => ResolvedConstant::NotConstant,
            }
        },
        _ => ResolvedConstant::NotConstant,
    }
}

} // verus!
