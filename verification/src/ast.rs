//! The expression tree the analysis walks, recorded as plain values.
//!
//! The host owns the real tree; a node here keeps only what the rule reads:
//! the variant shape, the operator, a method call's name and arity, the
//! answer the host's type system gives for a receiver's type, and each
//! node's span in the source text.

use vstd::prelude::*;

verus! {

/// A half-open range `lo..hi` of character positions in the source text.
#[derive(Clone, Copy, PartialEq, Eq, Structural, Debug)]
pub struct Span {
    pub lo: usize,
    pub hi: usize,
}

/// The binary operators the analysis distinguishes. Every operator it has no
/// use for (comparisons, bit operations, and so on) is `Other`.
#[derive(Clone, Copy, PartialEq, Eq, Structural, Debug)]
pub enum BinOp {
    Add,
    Sub,
    Mul,
    Div,
    Other,
}

/// The type system's answer to "is this expression's static type the
/// well-known duration type". `Unknown` records a type that could not be
/// determined (an unresolved generic, say); the matcher never guesses, so
/// `Unknown` never matches.
#[derive(Clone, Copy, PartialEq, Eq, Structural, Debug)]
pub enum TypeKind {
    Duration,
    NotDuration,
    Unknown,
}

/// One expression node. `receiver_ty` on a method call is the host's answer
/// for the receiver's static type, recorded when the tree is built.
pub enum Expr {
    Binary { op: BinOp, left: Box<Expr>, right: Box<Expr>, span: Span },
    MethodCall {
        receiver: Box<Expr>,
        receiver_ty: TypeKind,
        name: String,
        args: Vec<Expr>,
        span: Span,
    },
    Lit { value: i128, span: Span },
    NamedConst { value: i128, span: Span },
    Other { span: Span },
}

impl Expr {
    /// The span of this node.
    pub open spec fn spec_span(self) -> Span {
        match self {
            Expr::Binary { span, .. } => span,
            Expr::MethodCall { span, .. } => span,
            Expr::Lit { span, .. } => span,
            Expr::NamedConst { span, .. } => span,
            Expr::Other { span } => span,
        }
    }

    /// Reads the span of this node.
    pub fn span(&self) -> (s: Span)
        ensures
            s == self.spec_span(),
    {
        match self {
            Expr::Binary { span, .. } => *span,
            Expr::MethodCall { span, .. } => *span,
            Expr::Lit { span, .. } => *span,
            Expr::NamedConst { span, .. } => *span,
            Expr::Other { span } => *span,
        }
    }

    /// Every span the checker can read out of this node lies within a source
    /// text of `len` characters. The check never extracts text from argument
    /// sub-expressions (it only matches zero-argument calls), so their spans
    /// are not constrained.
    pub open spec fn spans_valid(self, len: nat) -> bool
        decreases self,
    {
        &&& self.spec_span().lo <= self.spec_span().hi
        &&& self.spec_span().hi <= len
        &&& match self {
            Expr::Binary { left, right, .. } => {
                left.spans_valid(len) && right.spans_valid(len)
            },
            Expr::MethodCall { receiver, .. } => receiver.spans_valid(len),
            _ => true,
        }
    }
}

} // verus!
