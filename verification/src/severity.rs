//! The order of alert levels by severity.

use crate::data::AlertLevel;
use std::cmp::Ordering;
use vstd::prelude::*;

verus! {

/// How two ranks compare.
pub open spec fn rank_order(a: nat, b: nat) -> Ordering {
    if a < b {
        Ordering::Less
    } else if a == b {
        Ordering::Equal
    } else {
        Ordering::Greater
    }
}

impl PartialOrd for AlertLevel {
    /// Levels compare as their ranks do: `Info < Warning < Critical <
    /// Unknown`.
    fn partial_cmp(&self, other: &AlertLevel) -> (r: Option<Ordering>) {
        let a: u8 = self.severity();
        let b: u8 = other.severity();
        if a < b {
            Some(Ordering::Less)
        } else if a == b {
            Some(Ordering::Equal)
        } else {
            Some(Ordering::Greater)
        }
    }
}

impl vstd::std_specs::cmp::PartialOrdSpecImpl for AlertLevel {
    open spec fn obeys_partial_cmp_spec() -> bool {
        true
    }

    open spec fn partial_cmp_spec(&self, other: &AlertLevel) -> Option<Ordering> {
        Some(rank_order(self.rank(), other.rank()))
    }
}

/// The order of levels is total, and `>=` on levels says that one is at
/// least as severe as the other.
pub proof fn lemma_level_order_is_total(a: AlertLevel, b: AlertLevel, c: AlertLevel)
    ensures
        a.at_least(b) || b.at_least(a),
        a.at_least(b) && b.at_least(a) ==> a == b,
        a.at_least(b) && b.at_least(c) ==> a.at_least(c),
        a.at_least(AlertLevel::Info),
        AlertLevel::Unknown.at_least(a),
{
}

} // verus!
