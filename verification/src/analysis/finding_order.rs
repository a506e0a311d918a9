//! `<` and `>` on findings, in listing order.
use vstd::prelude::*;
use core::cmp::Ordering;
use vstd::std_specs::cmp::PartialOrdSpecImpl;
use crate::analysis::finding::{Finding, finding_order};

verus! {

/// The `Ordering` that a three-way result of -1, 0 or 1 stands for.
pub open spec fn ordering_of(v: int) -> Ordering {
    if v < 0 {
        Ordering::Less
    } else if v > 0 {
        Ordering::Greater
    } else {
        Ordering::Equal
    }
}

impl PartialOrd for Finding {
    fn partial_cmp(&self, other: &Finding) -> (r: Option<Ordering>) {
        let v = self.compare(other);
        if v < 0 {
            Some(Ordering::Less)
        } else if v > 0 {
            Some(Ordering::Greater)
        } else {
            Some(Ordering::Equal)
        }
    }
}

impl PartialOrdSpecImpl for Finding {
    open spec fn obeys_partial_cmp_spec() -> bool {
        true
    }

    open spec fn partial_cmp_spec(&self, other: &Finding) -> Option<Ordering> {
        Some(ordering_of(finding_order(*self, *other)))
    }
}

} // verus!
