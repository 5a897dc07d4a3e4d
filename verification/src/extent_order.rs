use vstd::prelude::*;
use std::cmp::Ordering;
use crate::dimensions::{all_le, prefix, lemma_all_le_step, lemma_prefix_full, lemma_all_le_prefix, Extent, ImageSize};

verus! {

/// The product order on extents: equal, less, greater, or incomparable.
pub open spec fn extent_order(a: Seq<ImageSize>, b: Seq<ImageSize>) -> Option<Ordering> {
    if all_le(a, b) && all_le(b, a) {
        Some(Ordering::Equal)
    } else if all_le(a, b) {
        Some(Ordering::Less)
    } else if all_le(b, a) {
        Some(Ordering::Greater)
    } else {
        None
    }
}

/// Once two prefixes are incomparable, the whole sequences are.
pub proof fn lemma_incomparable_prefix(a: Seq<ImageSize>, b: Seq<ImageSize>, n: usize)
    requires
        n <= a.len(),
        a.len() == b.len(),
        extent_order(prefix(a, n), prefix(b, n)) is None,
    ensures
        extent_order(a, b) is None,
{
    if all_le(a, b) {
        lemma_all_le_prefix(a, b, n);
    }
    if all_le(b, a) {
        lemma_all_le_prefix(b, a, n);
    }
}

impl<const D: usize> Extent<D> {
    /// Compares two extents in the product order.
    pub fn partial_compare(&self, other: &Self) -> (r: Option<Ordering>)
        ensures
            r == extent_order(self@, other@),
    {
        proof {
            self.lemma_len();
            other.lemma_len();
        }
        let mut acc = Ordering::Equal;
        let mut i: usize = 0;
        while i < D
            invariant
                i <= D,
                self@.len() == D,
                other@.len() == D,
                Some(acc) == extent_order(prefix(self@, i), prefix(other@, i)),
            decreases D - i,
        {
            let lhs = self.component(i);
            let rhs = other.component(i);
            let item = if lhs < rhs {
                Ordering::Less
            } else if lhs > rhs {
                Ordering::Greater
            } else {
                Ordering::Equal
            };
            let merged = merge_ordering(acc, item);
            let next_i = i + 1;
            proof {
                lemma_all_le_step(self@, other@, i);
            }
            match merged {
                Some(next) => {
                    acc = next;
                },
                None => {
                    proof {
                        lemma_incomparable_prefix(self@, other@, next_i);
                    }
                    return None;
                },
            }
            i = next_i;
        }
        proof {
            lemma_prefix_full(self@, D);
            lemma_prefix_full(other@, D);
        }
        Some(acc)
    }
}

/// Merges the comparison of a prefix with the comparison of the next component.
fn merge_ordering(left: Ordering, right: Ordering) -> (r: Option<Ordering>)
    ensures
        r == (match (left, right) {
            (Ordering::Equal, right) => Some(right),
            (left, Ordering::Equal) => Some(left),
            (Ordering::Less, Ordering::Less) => Some(Ordering::Less),
            (Ordering::Greater, Ordering::Greater) => Some(Ordering::Greater),
            _ => None,
        }),
{
    match (left, right) {
        (Ordering::Equal, right) => Some(right),
        (left, Ordering::Equal) => Some(left),
        (Ordering::Less, Ordering::Less) => Some(Ordering::Less),
        (Ordering::Greater, Ordering::Greater) => Some(Ordering::Greater),
        _ => None,
    }
}

impl<const D: usize> PartialOrd for Extent<D> {
    fn partial_cmp(&self, other: &Self) -> (r: Option<Ordering>) {
        self.partial_compare(other)
    }
}

impl<const D: usize> vstd::std_specs::cmp::PartialOrdSpecImpl for Extent<D> {
    open spec fn obeys_partial_cmp_spec() -> bool {
        true
    }

    open spec fn partial_cmp_spec(&self, other: &Self) -> Option<Ordering> {
        extent_order(self@, other@)
    }
}

} // verus!
