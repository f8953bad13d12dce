//! What the duration accessors mean, and why every rewrite in the table is
//! safe.
//!
//! A duration is whole seconds plus a sub-second remainder below one second,
//! held in nanoseconds. The three accessors the table speaks of all read
//! that remainder, each in its own unit; integer division relates them. The
//! soundness law at the bottom proves that for every rule in the rewrite
//! table and every well-formed duration, the original division and the
//! suggested accessor compute the same number — the rewrite changes the
//! syntax and never the value.

use vstd::prelude::*;
use vstd::arithmetic::div_mod::lemma_div_denominator;

use crate::ast::Expr;
use crate::check::spec_check;
use crate::consteval::spec_eval;
use crate::matcher::spec_match_division;
use crate::table::spec_lookup;

verus! {

/// Nanoseconds in one second: the bound on a duration's sub-second part.
pub const NANOS_PER_SEC: u32 = 1_000_000_000;

/// A duration value as the host's duration type holds it: whole seconds and
/// a sub-second remainder in nanoseconds.
pub struct DurationVal {
    pub secs: u64,
    pub nanos: u32,
}

impl DurationVal {
    /// The sub-second part is a remainder: strictly below one second.
    pub open spec fn wf(self) -> bool {
        self.nanos < NANOS_PER_SEC
    }
}

/// The number a known accessor returns on a duration: the sub-second
/// remainder in nanoseconds, microseconds or milliseconds. `None` for any
/// name the table does not speak of.
pub open spec fn accessor_value(name: Seq<char>, d: DurationVal) -> Option<int> {
    if name == "subsec_nanos"@ {
        Some(d.nanos as int)
    } else if name == "subsec_micros"@ {
        Some(d.nanos as int / 1000)
    } else if name == "subsec_millis"@ {
        Some(d.nanos as int / 1000000)
    } else {
        None
    }
}

/// Soundness law: every rewrite the table proposes preserves the value. For
/// every table entry (`name`, `divisor`) → `target` and every well-formed
/// duration, dividing the original accessor's result by the divisor equals
/// the target accessor's result exactly.
pub proof fn lemma_rewrite_sound(name: Seq<char>, divisor: int, target: Seq<char>, d: DurationVal)
    requires
        d.wf(),
        spec_lookup(name, divisor) == Some(target),
    ensures
        accessor_value(name, d) matches Some(a) && accessor_value(target, d) matches Some(b) && a
            / divisor == b,
{
    reveal_strlit("subsec_nanos");
    reveal_strlit("subsec_micros");
    reveal_strlit("subsec_millis");
    assert("subsec_nanos"@.len() == 12);
    assert("subsec_micros"@.len() == 13);
    assert("subsec_millis"@.len() == 13);
    assert("subsec_micros"@[9] == 'c');
    assert("subsec_millis"@[9] == 'l');
    if name == "subsec_micros"@ && divisor == 1000 {
        lemma_div_denominator(d.nanos as int, 1000, 1000);
        assert(d.nanos as int / 1000 / 1000 == d.nanos as int / 1000000);
    }
}

/// Soundness of the whole rule: whenever the check emits a suggestion for an
/// expression, then on every well-formed duration the matched accessor's
/// value divided by the resolved divisor equals the suggested accessor's
/// value — the rewritten access computes the number the original division
/// computed.
pub proof fn lemma_emitted_rewrite_sound(src: Seq<char>, e: Expr, d: DurationVal)
    requires
        d.wf(),
        spec_check(src, e) is Some,
    ensures
        spec_match_division(e) matches Some(m) && spec_eval(m.2) matches Some(divisor)
            && spec_lookup(m.1, divisor) matches Some(target) && accessor_value(m.1, d) matches Some(
            a,
        ) && accessor_value(target, d) matches Some(b) && a / divisor == b,
{
    let m = spec_match_division(e)->Some_0;
    let divisor = spec_eval(m.2)->Some_0;
    let target = spec_lookup(m.1, divisor)->Some_0;
    lemma_rewrite_sound(m.1, divisor, target, d);
}

} // verus!
