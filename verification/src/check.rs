//! The whole rule as one pipeline: match, resolve the divisor, consult the
//! table, and build the suggestion — short-circuiting to "no diagnostic" at
//! the first step that fails. Every failure mode (wrong shape, undetermined
//! type, non-constant divisor, overflowing fold, no table entry) is the
//! normal silent outcome, not an error.
//!
//! The laws the rule obeys stand here too: a pair outside the table is
//! never reported ([`lemma_table_miss_silent`]), the check is a pure
//! function of its input ([`lemma_check_idempotent`]), and the receiver's
//! portion of an emitted replacement is character-for-character the
//! receiver's original source text ([`lemma_text_fidelity`]).

use vstd::prelude::*;
use vstd::string::StrSliceExecFns;

use crate::ast::{Expr, Span};
use crate::consteval::{evaluate_constant, spec_eval, ResolvedConstant};
use crate::matcher::{match_division, spec_match_division};
use crate::suggest::{emit, replacement_of, Confidence, SpecSuggestion, Suggestion};
use crate::table::{lookup, spec_lookup};

verus! {

/// The text a span covers in the source.
pub open spec fn text_at(src: Seq<char>, sp: Span) -> Seq<char> {
    src.subrange(sp.lo as int, sp.hi as int)
}

/// Recovers the original written form of a span, verbatim.
pub fn text_of(src: &str, sp: Span) -> (t: String)
    requires
        sp.lo <= sp.hi,
        sp.hi <= src@.len(),
    ensures
        t@ == text_at(src@, sp),
{
    let sub: &str = src.substring_char(sp.lo, sp.hi);
    sub.to_owned()
}

/// The diagnostic the rule produces for one expression, if any: a
/// suggestion exactly when the expression matches the division shape, its
/// divisor resolves to a constant, and the (accessor, divisor) pair is in
/// the rewrite table.
pub open spec fn spec_check(src: Seq<char>, e: Expr) -> Option<SpecSuggestion> {
    match spec_match_division(e) {
        Some(m) => match spec_eval(m.2) {
            Some(d) => match spec_lookup(m.1, d) {
                Some(target) => Some(
                    (SpecSuggestion {
                        span: e.spec_span(),
                        original_text: text_at(src, e.spec_span()),
                        replacement_text: replacement_of(text_at(src, m.0.spec_span()), target),
                        confidence: Confidence::MachineApplicable,
                    }),
                ),
                None => None,
            },
            None => None,
        },
        None => None,
    }
}

/// When a well-spanned expression matches, the extracted receiver's span is
/// itself a well-formed range within the source: it is the span of a node
/// two levels down the tree the validity predicate covers.
proof fn lemma_matched_receiver_span_valid(e: Expr, len: nat)
    requires
        e.spans_valid(len),
        spec_match_division(e) is Some,
    ensures
        spec_match_division(e)->Some_0.0.spec_span().lo <= spec_match_division(
            e,
        )->Some_0.0.spec_span().hi,
        spec_match_division(e)->Some_0.0.spec_span().hi <= len,
{
    match e {
        Expr::Binary { left, right, .. } => {
            assert(e.spans_valid(len) == (e.spec_span().lo <= e.spec_span().hi <= len
                && left.spans_valid(len) && right.spans_valid(len)));
            match *left {
                Expr::MethodCall { receiver, .. } => {
                    assert(left.spans_valid(len) == (left.spec_span().lo <= left.spec_span().hi
                        <= len && receiver.spans_valid(len)));
                    assert(receiver.spans_valid(len));
                },
                _ => {},
            }
        },
        _ => {},
    }
}

/// Runs the rule on one expression of the given source text. Pure: the
/// result is a function of the two arguments and nothing else.
pub fn check_expr(src: &str, expr: &Expr) -> (r: Option<Suggestion>)
    requires
        expr.spans_valid(src@.len()),
    ensures
        match spec_check(src@, *expr) {
            Some(g) => r matches Some(s) && s@ == g,
            None => r is None,
        },
{
    let m = match match_division(expr) {
        Some(m) => m,
        None => {
            return None;
        },
    };
    let divisor = match evaluate_constant(m.divisor_expr) {
        ResolvedConstant::IntegerValue(d) => d,
        ResolvedConstant::NotConstant => {
            return None;
        },
    };
    let target = match lookup(m.accessor_name, divisor) {
        Some(t) => t,
        None => {
            return None;
        },
    };
    let whole_span = expr.span();
    let receiver_span = m.receiver_expr.span();
    proof {
        lemma_matched_receiver_span_valid(*expr, src@.len());
    }
    let original_text = text_of(src, whole_span);
    let receiver_text = text_of(src, receiver_span);
    Some(emit(whole_span, original_text, receiver_text, target))
}

/// Table-miss law: when the matched (accessor, divisor) pair is not in the
/// rewrite table — whatever the divisor's magnitude, zero and negative
/// values included — the rule reports nothing.
pub proof fn lemma_table_miss_silent(
    src: Seq<char>,
    e: Expr,
    receiver: Expr,
    accessor: Seq<char>,
    divisor_expr: Expr,
    divisor: int,
)
    requires
        spec_match_division(e) == Some((receiver, accessor, divisor_expr)),
        spec_eval(divisor_expr) == Some(divisor),
        spec_lookup(accessor, divisor) is None,
    ensures
        spec_check(src, e) is None,
{
}

/// Idempotence law: the check owns no state, so two runs on the same
/// unchanged source and expression yield the same diagnostic — both the
/// same suggestion, or both none.
pub proof fn lemma_check_idempotent(
    src: Seq<char>,
    e: Expr,
    first: Option<SpecSuggestion>,
    second: Option<SpecSuggestion>,
)
    requires
        first == spec_check(src, e),
        second == spec_check(src, e),
    ensures
        first == second,
{
}

/// Text fidelity law: whenever the rule emits a suggestion, the receiver
/// portion of the replacement — its prefix up to the appended call — is
/// identical to the receiver's original source text, whatever form that
/// text has (a bare name, a field access, a parenthesized expression).
pub proof fn lemma_text_fidelity(src: Seq<char>, e: Expr)
    requires
        e.spans_valid(src.len()),
        spec_check(src, e) is Some,
    ensures
        spec_match_division(e) matches Some(m) && spec_check(src, e) matches Some(g)
            && g.replacement_text.subrange(0, text_at(src, m.0.spec_span()).len() as int)
            == text_at(src, m.0.spec_span()),
{
    let m = spec_match_division(e)->Some_0;
    let g = spec_check(src, e)->Some_0;
    let receiver_text = text_at(src, m.0.spec_span());
    assert(g.replacement_text.subrange(0, receiver_text.len() as int) =~= receiver_text);
}

} // verus!
