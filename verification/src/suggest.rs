//! Building the suggestion a match turns into.
//!
//! The replacement is the receiver's original source text, verbatim,
//! followed by a call of the target accessor. Every rule in the table is
//! semantically exact — no rounding-direction change, no unit change — so
//! the suggestion's confidence is always machine-applicable: it never needs
//! human review.

use vstd::prelude::*;
use vstd::string::StringExecFns;

use crate::ast::Span;

verus! {

/// How safe the proposed rewrite is to apply without a human looking at it.
#[derive(Clone, Copy, PartialEq, Eq, Structural, Debug)]
pub enum Confidence {
    MachineApplicable,
    NeedsReview,
}

/// A proposed rewrite of one expression: the span it replaces, the text now
/// standing there, the text to put there, and the confidence tag. Handed to
/// the host's diagnostic sink and then discarded; this library stores none.
pub struct Suggestion {
    pub span: Span,
    pub original_text: String,
    pub replacement_text: String,
    pub confidence: Confidence,
}

/// The mathematical image of a [`Suggestion`]: its texts as character
/// sequences.
pub struct SpecSuggestion {
    pub span: Span,
    pub original_text: Seq<char>,
    pub replacement_text: Seq<char>,
    pub confidence: Confidence,
}

impl View for Suggestion {
    type V = SpecSuggestion;

    open spec fn view(&self) -> SpecSuggestion {
        SpecSuggestion {
            span: self.span,
            original_text: self.original_text@,
            replacement_text: self.replacement_text@,
            confidence: self.confidence,
        }
    }
}

/// The replacement text for a match: the receiver's source text, a dot, the
/// target accessor, and an empty argument list.
pub open spec fn replacement_of(receiver_text: Seq<char>, target_accessor: Seq<char>) -> Seq<char> {
    receiver_text + "."@ + target_accessor + "()"@
}

/// Builds the suggestion for one match. The receiver's text is taken over
/// unchanged, and the confidence is always `MachineApplicable`.
pub fn emit(
    span: Span,
    original_text: String,
    receiver_text: String,
    target_accessor: String,
) -> (s: Suggestion)
    ensures
        s.span == span,
        s.original_text@ == original_text@,
        s.replacement_text@ == replacement_of(receiver_text@, target_accessor@),
        s.confidence == Confidence::MachineApplicable,
{
    let mut replacement: String = receiver_text;
    replacement.append(".");
    replacement.append(target_accessor.as_str());
    replacement.append("()");
    Suggestion { span, original_text, replacement_text: replacement, confidence: Confidence::MachineApplicable }
}

} // verus!
