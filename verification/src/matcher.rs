//! Structural matching: does an expression have the shape
//! `<duration-value>.<accessor>() / <divisor>`?
//!
//! The matcher requires the left operand of a division to be a
//! zero-argument method call whose receiver's static type the host has
//! identified as the duration type. It puts no constraint on the right
//! operand's shape — whether that operand is a usable divisor is the
//! constant evaluator's question, not the matcher's.

use vstd::prelude::*;

use crate::ast::{BinOp, Expr, TypeKind};

verus! {

/// The parts a successful match extracts, borrowed from the matched node:
/// the accessor's receiver, the accessor's name, and the divisor expression.
pub struct DivisionMatch<'a> {
    pub receiver_expr: &'a Expr,
    pub accessor_name: &'a String,
    pub divisor_expr: &'a Expr,
}

/// The match the expression yields, if any: the receiver sub-expression,
/// the accessor name, and the divisor sub-expression. `None` whenever the
/// node is not a division, its left operand is not a method call, the call
/// takes arguments, or the receiver's type is not known to be the duration
/// type — an undetermined type never matches.
pub open spec fn spec_match_division(e: Expr) -> Option<(Expr, Seq<char>, Expr)> {
    match e {
        Expr::Binary { op: BinOp::Div, left, right, .. } => {
            match *left {
                Expr::MethodCall { receiver, receiver_ty: TypeKind::Duration, name, args, .. } => {
                    if args.len() == 0 {
                        Some((*receiver, name@, *right))
                    } else {
                        None
                    }
                },
                _ => None,
            }
        },
        _ => None,
    }
}

/// Matches one expression against the division-of-an-accessor shape and
/// hands back the extracted parts; pure inspection, no mutation.
pub fn match_division<'a>(expr: &'a Expr) -> (r: Option<DivisionMatch<'a>>)
    ensures
        match spec_match_division(*expr) {
            Some(t) => {
                &&& r matches Some(m)
                &&& *m.receiver_expr == t.0
                &&& m.accessor_name@ == t.1
                &&& *m.divisor_expr == t.2
            },
            None => r is None,
        },
{
    match expr {
        Expr::Binary { op: BinOp::Div, left, right, .. } => {
            match &**left {
                Expr::MethodCall { receiver, receiver_ty: TypeKind::Duration, name, args, .. } => {
                    if args.len() == 0 {
                        Some(DivisionMatch {
                            receiver_expr: &**receiver,
                            accessor_name: name,
                            divisor_expr: &**right,
                        })
                    } else {
                        None
                    }
                },
                _ => None,
            }
        },
        _ => None,
    }
}

} // verus!
