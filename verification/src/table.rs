//! The rewrite table: a fixed, finite map from (accessor name, divisor) to
//! the accessor that yields the divided value directly.
//!
//! The table is order-independent: it is presented both as a lookup
//! function, which the checker consults, and as a plain sequence of rule
//! records; [`lemma_lookup_is_table`] proves the two views agree, and
//! [`lemma_rules_key_unique`] proves no two records share a key with
//! different targets, so reordering the records could never change a
//! lookup's answer.

use vstd::prelude::*;

verus! {

/// One rewrite rule: dividing the result of `source_accessor` by `divisor`
/// equals calling `target_accessor`.
pub struct RewriteRule {
    pub source_accessor: Seq<char>,
    pub divisor: int,
    pub target_accessor: Seq<char>,
}

/// The full rule set for the duration domain, as plain records.
pub open spec fn rewrite_rules() -> Seq<RewriteRule> {
    seq![
        RewriteRule {
            source_accessor: "subsec_nanos"@,
            divisor: 1000,
            target_accessor: "subsec_micros"@,
        },
        RewriteRule {
            source_accessor: "subsec_nanos"@,
            divisor: 1000000,
            target_accessor: "subsec_millis"@,
        },
        RewriteRule {
            source_accessor: "subsec_micros"@,
            divisor: 1000,
            target_accessor: "subsec_millis"@,
        },
    ]
}

/// The accessor that replaces `name` divided by `divisor`, if the table
/// knows one. Exact integer comparison on the divisor, exact name equality
/// on the accessor: no fuzzy matching of either.
pub open spec fn spec_lookup(name: Seq<char>, divisor: int) -> Option<Seq<char>> {
    if name == "subsec_nanos"@ && divisor == 1000 {
        Some("subsec_micros"@)
    } else if name == "subsec_nanos"@ && divisor == 1000000 {
        Some("subsec_millis"@)
    } else if name == "subsec_micros"@ && divisor == 1000 {
        Some("subsec_millis"@)
    } else {
        None
    }
}

/// The accessor names are pairwise distinct character sequences.
proof fn lemma_names_distinct()
    ensures
        "subsec_nanos"@ != "subsec_micros"@,
        "subsec_nanos"@ != "subsec_millis"@,
        "subsec_micros"@ != "subsec_millis"@,
{
    reveal_strlit("subsec_nanos");
    reveal_strlit("subsec_micros");
    reveal_strlit("subsec_millis");
    assert("subsec_nanos"@.len() == 12);
    assert("subsec_micros"@.len() == 13);
    assert("subsec_millis"@.len() == 13);
    assert("subsec_micros"@[9] == 'c');
    assert("subsec_millis"@[9] == 'l');
}

/// The lookup function and the record view of the table agree: lookup
/// answers `Some(target)` exactly when the record set holds that rule.
pub proof fn lemma_lookup_is_table(name: Seq<char>, divisor: int, target: Seq<char>)
    ensures
        spec_lookup(name, divisor) == Some(target) <==> rewrite_rules().contains(
            (RewriteRule { source_accessor: name, divisor, target_accessor: target }),
        ),
{
    lemma_names_distinct();
    let rule = RewriteRule { source_accessor: name, divisor, target_accessor: target };
    if spec_lookup(name, divisor) == Some(target) {
        if name == "subsec_nanos"@ && divisor == 1000 {
            assert(rewrite_rules()[0] == rule);
        } else if name == "subsec_nanos"@ && divisor == 1000000 {
            assert(rewrite_rules()[1] == rule);
        } else {
            assert(rewrite_rules()[2] == rule);
        }
    }
    if rewrite_rules().contains(rule) {
        let i = choose|i: int| 0 <= i < rewrite_rules().len() && rewrite_rules()[i] == rule;
        assert(spec_lookup(name, divisor) == Some(target));
    }
}

/// The uniqueness invariant of the table: no two records share a
/// (source accessor, divisor) key with different targets, so lookup does
/// not depend on the order of the records.
pub proof fn lemma_rules_key_unique(i: int, j: int)
    requires
        0 <= i < rewrite_rules().len(),
        0 <= j < rewrite_rules().len(),
        rewrite_rules()[i].source_accessor == rewrite_rules()[j].source_accessor,
        rewrite_rules()[i].divisor == rewrite_rules()[j].divisor,
    ensures
        rewrite_rules()[i].target_accessor == rewrite_rules()[j].target_accessor,
{
    lemma_names_distinct();
}

/// Looks the pair up in the rewrite table.
pub fn lookup(accessor_name: &String, divisor: i128) -> (r: Option<String>)
    ensures
        match spec_lookup(accessor_name@, divisor as int) {
            Some(t) => r matches Some(s) && s@ == t,
            None => r is None,
        },
{
    let nanos: String = String::from_str("subsec_nanos");
    let micros: String = String::from_str("subsec_micros");
    if divisor == 1000 && accessor_name.eq(&nanos) {
        Some(String::from_str("subsec_micros"))
    } else if divisor == 1000000 && accessor_name.eq(&nanos) {
        Some(String::from_str("subsec_millis"))
    } else if divisor == 1000 && accessor_name.eq(&micros) {
        Some(String::from_str("subsec_millis"))
    } else {
        None
    }
}

} // verus!
