//! Sorting entries into the listing order with the sort of `itertools`.

use core::cmp::Ordering;
use itertools::Itertools;
use vstd::prelude::*;
use crate::entry::{views, Entry};
use crate::order::{entry_before, keeps_order, ordered, rank_entries, Rank};

verus! {

/// The listing order as a three-way comparison: `Less` where `a` has to stand
/// before `b`, `Greater` where it has to stand behind, `Equal` where kind and
/// name are the same.
pub fn entry_ordering(a: &Entry, b: &Entry) -> (o: Ordering)
    ensures
        (o == Ordering::Less) == entry_before(a@, b@),
        (o == Ordering::Greater) == entry_before(b@, a@),
{
    match rank_entries(a, b) {
        Rank::Before => Ordering::Less,
        Rank::Same => Ordering::Equal,
        Rank::After => Ordering::Greater,
    }
}

/// Calls `Itertools::sorted_by` on the entries, with [`entry_ordering`] as the
/// comparison, and collects what it yields.
///
/// Trusted, not proved: the call hands back the same entries, rearranged so
/// that none stands behind one that the comparison puts after it; the sort is
/// stable, so entries that compare as equal keep the order in which they
/// came. The comparison is a total order on kind and name (see the lemmas of
/// the order), which is what the sort asks of it.
#[verifier::external_body]
pub(crate) fn sort_entries(entries: Vec<Entry>) -> (sorted: Vec<Entry>)
    ensures
        views(sorted@).to_multiset() == views(entries@).to_multiset(),
        ordered(views(sorted@)),
        keeps_order(views(sorted@), views(entries@)),
{
    entries.into_iter().sorted_by(|a, b| entry_ordering(a, b)).collect()
}

} // verus!
