//! The order of instants: by the nanosecond counts they hold.

use std::cmp::Ordering;
use vstd::prelude::*;
use vstd::std_specs::cmp::PartialOrdSpec;

use crate::instant::Instant;

verus! {

impl vstd::std_specs::cmp::PartialOrdSpecImpl for Instant {
    open spec fn obeys_partial_cmp_spec() -> bool {
        true
    }

    /// Instants compare as their nanosecond counts do; any two are comparable.
    open spec fn partial_cmp_spec(&self, other: &Instant) -> Option<Ordering> {
        if self@ < other@ {
            Some(Ordering::Less)
        } else if self@ == other@ {
            Some(Ordering::Equal)
        } else {
            Some(Ordering::Greater)
        }
    }
}

impl PartialOrd for Instant {
    /// Compares the nanosecond counts of the two instants.
    fn partial_cmp(&self, other: &Instant) -> (r: Option<Ordering>)
        ensures
            self@ < other@ ==> r == Some(Ordering::Less),
            self@ == other@ ==> r == Some(Ordering::Equal),
            self@ > other@ ==> r == Some(Ordering::Greater),
    {
        let a = self.as_u64();
        let b = other.as_u64();
        if a < b {
            Some(Ordering::Less)
        } else if a == b {
            Some(Ordering::Equal)
        } else {
            Some(Ordering::Greater)
        }
    }
}

/// The order of instants is the order of the nanosecond counts they hold: an instant with a
/// smaller count is less, one with the same count is equal, one with a larger count is greater.
pub proof fn lemma_order_follows_counts(a: Instant, b: Instant)
    ensures
        a@ < b@ ==> a.partial_cmp_spec(&b) == Some(Ordering::Less),
        a@ == b@ ==> a.partial_cmp_spec(&b) == Some(Ordering::Equal),
        a@ > b@ ==> a.partial_cmp_spec(&b) == Some(Ordering::Greater),
{
}

} // verus!
