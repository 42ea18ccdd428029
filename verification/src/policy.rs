//! Which entries of a directory are listed, and in what order.

use vstd::prelude::*;
use crate::entry::{entry_not_hidden, is_hidden, views, Entry, EntryView};
use crate::order::{
    distinct, entry_before, keeps_order, lemma_order_asymmetric, lemma_order_total, name_before,
    ordered, ranked_with, same_rank, strictly_ordered,
};
use crate::sorting::sort_entries;

verus! {

/// Whether an entry is listed: hidden entries only on request.
pub open spec fn visible(entry: EntryView, show_hidden: bool) -> bool {
    show_hidden || !is_hidden(entry.name)
}

/// [`visible`] as a predicate on entries.
pub open spec fn visibility(show_hidden: bool) -> spec_fn(EntryView) -> bool {
    |entry: EntryView| visible(entry, show_hidden)
}

/// The entries that are listed, in the order in which they were found.
pub open spec fn shown(entries: Seq<EntryView>, show_hidden: bool) -> Seq<EntryView> {
    entries.filter(visibility(show_hidden))
}

/// Whether `listing` lists what was found in a directory: it holds the shown
/// entries, each as often as it was found, in the listing order; entries of
/// one kind and one name stand as they were found; and where no two entries
/// of one kind share a name, as in a directory, the order is strict.
pub open spec fn lists(listing: Seq<EntryView>, raw: Seq<EntryView>, show_hidden: bool) -> bool {
    &&& listing.to_multiset() == shown(raw, show_hidden).to_multiset()
    &&& ordered(listing)
    &&& keeps_order(listing, shown(raw, show_hidden))
    &&& distinct(raw) ==> strictly_ordered(listing)
}

/// Keeps the entries that are listed, in the order in which they were found.
pub fn filter_visible(raw: Vec<Entry>, show_hidden: bool) -> (kept: Vec<Entry>)
    ensures
        views(kept@) == shown(views(raw@), show_hidden),
{
    let ghost all = raw@;
    let mut kept: Vec<Entry> = Vec::new();
    assert(views(all.take(0)) =~= Seq::<EntryView>::empty());
    assert(views(kept@) =~= shown(views(all.take(0)), show_hidden)) by {
        reveal(Seq::filter);
    }
    for entry in it: raw
        invariant
            it.seq() == all,
            views(kept@) == shown(views(all.take(it.index() as int)), show_hidden),
    {
        let ghost before = views(kept@);
        let ghost i = it.index() as int;
        proof {
            assert(views(all.take(i + 1)) =~= views(all.take(i)).push(entry@));
            views(all.take(i)).lemma_filter_push(entry@, visibility(show_hidden));
        }
        if show_hidden || entry_not_hidden(&entry) {
            kept.push(entry);
            assert(views(kept@) =~= before.push(entry@));
        }
    }
    assert(all.take(all.len() as int) =~= all);
    kept
}

/// Turns what was read from a directory into its listing: the entries that
/// are shown, each as often as it was found, in the listing order, those of
/// one kind and one name as they were found. That determines the listing (see
/// [`lemma_listing_determined`]). Where no two entries of one kind share a
/// name, as in a directory, the order is strict, and the listing does not
/// depend on the order in which the entries were found (see
/// [`lemma_listing_unique`]).
pub fn arrange(raw: Vec<Entry>, show_hidden: bool) -> (listing: Vec<Entry>)
    ensures
        lists(views(listing@), views(raw@), show_hidden),
        show_hidden ==> views(listing@).to_multiset() == views(raw@).to_multiset(),
        !show_hidden ==> forall|i: int|
            0 <= i < listing@.len() ==> !is_hidden(#[trigger] listing@[i]@.name),
{
    let listing = sort_entries(filter_visible(raw, show_hidden));
    proof {
        lemma_filter_law(views(listing@), views(raw@), show_hidden);
        if distinct(views(raw@)) {
            lemma_shown_distinct(views(raw@), show_hidden);
            lemma_distinct_rearranged(shown(views(raw@), show_hidden), views(listing@));
            lemma_ordered_strictly(views(listing@));
        }
        assert forall|i: int| 0 <= i < listing@.len() && !show_hidden implies !is_hidden(
            #[trigger] listing@[i]@.name,
        ) by {
            assert(views(listing@)[i] == listing@[i]@);
        }
    }
    listing
}

/// Where hidden entries are shown, every entry is listed.
pub proof fn lemma_shown_all(entries: Seq<EntryView>)
    ensures
        shown(entries, true) == entries,
    decreases entries.len(),
{
    reveal(Seq::filter);
    if entries.len() > 0 {
        lemma_shown_all(entries.drop_last());
        assert(entries.drop_last().push(entries.last()) =~= entries);
    }
}

/// An entry is listed exactly when it was found and is visible.
pub proof fn lemma_shown_contains(entries: Seq<EntryView>, show_hidden: bool, entry: EntryView)
    ensures
        shown(entries, show_hidden).contains(entry) <==> entries.contains(entry) && visible(
            entry,
            show_hidden,
        ),
{
    let pred = visibility(show_hidden);
    if shown(entries, show_hidden).contains(entry) {
        let i = choose|i: int|
            0 <= i < shown(entries, show_hidden).len() && shown(entries, show_hidden)[i] == entry;
        entries.lemma_filter_pred(pred, i);
        entries.lemma_filter_contains_rev(pred, entry);
    }
    if entries.contains(entry) && visible(entry, show_hidden) {
        let i = choose|i: int| 0 <= i < entries.len() && entries[i] == entry;
        entries.lemma_filter_contains(pred, i);
    }
}

/// The filter: a listing that holds the shown entries of what was found
/// holds an entry exactly when it was found and is visible. With hidden
/// entries filtered out it holds no entry whose name begins with a dot; with
/// hidden entries shown it holds all that was found.
pub proof fn lemma_filter_law(listing: Seq<EntryView>, raw: Seq<EntryView>, show_hidden: bool)
    requires
        listing.to_multiset() == shown(raw, show_hidden).to_multiset(),
    ensures
        forall|entry: EntryView|
            listing.contains(entry) <==> raw.contains(entry) && visible(entry, show_hidden),
        !show_hidden ==> forall|i: int|
            0 <= i < listing.len() ==> !is_hidden(#[trigger] listing[i].name),
        show_hidden ==> listing.to_multiset() == raw.to_multiset(),
{
    broadcast use vstd::seq_lib::group_to_multiset_ensures;

    assert forall|entry: EntryView|
        listing.contains(entry) <==> raw.contains(entry) && visible(entry, show_hidden) by {
        lemma_shown_contains(raw, show_hidden, entry);
        assert(listing.contains(entry) <==> listing.to_multiset().count(entry) > 0);
        assert(shown(raw, show_hidden).contains(entry) <==> shown(
            raw,
            show_hidden,
        ).to_multiset().count(entry) > 0);
    }
    assert forall|i: int| 0 <= i < listing.len() && !show_hidden implies !is_hidden(
        #[trigger] listing[i].name,
    ) by {
        assert(listing.contains(listing[i]));
    }
    if show_hidden {
        lemma_shown_all(raw);
    }
}

/// The order, spelled out for two places of a listing: a directory never
/// follows a file; within directories and within files a hidden entry never
/// precedes one that is not hidden; and where kind and hiddenness agree, the
/// earlier name is the smaller one in byte order, or the same name.
pub proof fn lemma_ordering_law(listing: Seq<EntryView>, i: int, j: int)
    requires
        ordered(listing),
        0 <= i < j < listing.len(),
    ensures
        listing[j].is_dir ==> listing[i].is_dir,
        listing[i].is_dir == listing[j].is_dir && is_hidden(listing[i].name) ==> is_hidden(
            listing[j].name,
        ),
        listing[i].is_dir == listing[j].is_dir && is_hidden(listing[i].name) == is_hidden(
            listing[j].name,
        ) ==> listing[i].name == listing[j].name || name_before(listing[i].name, listing[j].name),
{
    lemma_order_total(listing[i], listing[j]);
}

/// Where no two entries of one kind share a name, an ordered listing is
/// strictly ordered: within each group the names strictly ascend.
pub proof fn lemma_ordered_strictly(listing: Seq<EntryView>)
    requires
        ordered(listing),
        distinct(listing),
    ensures
        strictly_ordered(listing),
{
    assert forall|i: int, j: int| 0 <= i < j < listing.len() implies entry_before(
        listing[i],
        listing[j],
    ) by {
        lemma_order_total(listing[i], listing[j]);
    }
}

/// Filtering keeps the names of one kind apart.
pub proof fn lemma_shown_distinct(entries: Seq<EntryView>, show_hidden: bool)
    requires
        distinct(entries),
    ensures
        distinct(shown(entries, show_hidden)),
    decreases entries.len(),
{
    reveal(Seq::filter);
    if entries.len() > 0 {
        let rest = entries.drop_last();
        let kept = shown(rest, show_hidden);
        assert(distinct(rest)) by {
            assert forall|i: int, j: int| 0 <= i < j < rest.len() implies !(rest[i].is_dir
                == rest[j].is_dir && rest[i].name == rest[j].name) by {
                assert(rest[i] == entries[i] && rest[j] == entries[j]);
            }
        }
        lemma_shown_distinct(rest, show_hidden);
        if visible(entries.last(), show_hidden) {
            let all = shown(entries, show_hidden);
            assert(all == kept.push(entries.last()));
            assert forall|i: int, j: int| 0 <= i < j < all.len() implies !(all[i].is_dir
                == all[j].is_dir && all[i].name == all[j].name) by {
                if j < kept.len() {
                    assert(all[i] == kept[i] && all[j] == kept[j]);
                } else {
                    assert(kept.contains(kept[i]));
                    rest.lemma_filter_contains_rev(visibility(show_hidden), kept[i]);
                    let k = choose|k: int| 0 <= k < rest.len() && rest[k] == kept[i];
                    assert(entries[k] == all[i] && entries[entries.len() - 1] == all[j]);
                }
            }
        }
    }
}

/// Rearranging keeps the names of one kind apart.
pub proof fn lemma_distinct_rearranged(a: Seq<EntryView>, b: Seq<EntryView>)
    requires
        distinct(a),
        a.to_multiset() == b.to_multiset(),
    ensures
        distinct(b),
{
    broadcast use vstd::seq_lib::group_to_multiset_ensures;
    broadcast use vstd::multiset::group_multiset_axioms;

    assert forall|i: int, j: int| 0 <= i < j < b.len() implies !(b[i].is_dir == b[j].is_dir
        && b[i].name == b[j].name) by {
        if b[i].is_dir == b[j].is_dir && b[i].name == b[j].name {
            assert(b.contains(b[i]) && b.contains(b[j]));
            assert(a.to_multiset().count(b[i]) > 0 && a.to_multiset().count(b[j]) > 0);
            let p = choose|p: int| 0 <= p < a.len() && a[p] == b[i];
            let q = choose|q: int| 0 <= q < a.len() && a[q] == b[j];
            if p == q {
                let without = b.remove(i);
                assert(without[j - 1] == b[j]);
                assert(without.contains(b[i]));
                assert(without.to_multiset() == b.to_multiset().remove(b[i]));
                assert(without.to_multiset().count(b[i]) > 0);
                assert(a.to_multiset().count(a[p]) >= 2);
                let rest = a.remove(p);
                assert(rest.to_multiset() == a.to_multiset().remove(a[p]));
                assert(rest.to_multiset().count(a[p]) > 0);
                let r = choose|r: int| 0 <= r < rest.len() && rest[r] == a[p];
                let twin = if r < p {
                    r
                } else {
                    r + 1
                };
                assert(a[twin] == a[p] && twin != p);
                assert(false);
            } else {
                assert(false);
            }
        }
    }
}

/// A directory has one listing: two strictly ordered listings of the same
/// entries are the same listing, in whatever order the entries were found.
pub proof fn lemma_listing_unique(a: Seq<EntryView>, b: Seq<EntryView>)
    requires
        strictly_ordered(a),
        strictly_ordered(b),
        a.to_multiset() == b.to_multiset(),
    ensures
        a == b,
    decreases a.len(),
{
    broadcast use vstd::seq_lib::group_to_multiset_ensures;
    broadcast use vstd::multiset::group_multiset_axioms;

    assert(a.len() == a.to_multiset().len() && b.len() == b.to_multiset().len());
    if a.len() == 0 {
        assert(a =~= b);
    } else {
        assert(a.contains(a[0]) && b.contains(b[0]));
        assert(b.to_multiset().count(a[0]) > 0 && a.to_multiset().count(b[0]) > 0);
        let i = choose|i: int| 0 <= i < a.len() && a[i] == b[0];
        let k = choose|k: int| 0 <= k < b.len() && b[k] == a[0];
        if i > 0 && k > 0 {
            assert(entry_before(a[0], a[i]) && entry_before(b[0], b[k]));
            lemma_order_asymmetric(a[0], b[0]);
        }
        assert(a[0] == b[0]);
        let a_rest = a.remove(0);
        let b_rest = b.remove(0);
        assert(a_rest.to_multiset() == a.to_multiset().remove(a[0]));
        assert(b_rest.to_multiset() == b.to_multiset().remove(b[0]));
        assert(strictly_ordered(a_rest)) by {
            assert forall|x: int, y: int| 0 <= x < y < a_rest.len() implies entry_before(
                a_rest[x],
                a_rest[y],
            ) by {
                assert(a_rest[x] == a[x + 1] && a_rest[y] == a[y + 1]);
            }
        }
        assert(strictly_ordered(b_rest)) by {
            assert forall|x: int, y: int| 0 <= x < y < b_rest.len() implies entry_before(
                b_rest[x],
                b_rest[y],
            ) by {
                assert(b_rest[x] == b[x + 1] && b_rest[y] == b[y + 1]);
            }
        }
        lemma_listing_unique(a_rest, b_rest);
        assert(a =~= seq![a[0]] + a_rest);
        assert(b =~= seq![b[0]] + b_rest);
    }
}

/// What ranks with an entry in a sequence, told from the first entry and
/// the rest.
proof fn lemma_ranked_with_first(entries: Seq<EntryView>, entry: EntryView)
    requires
        entries.len() > 0,
    ensures
        ranked_with(entries, entry) == if same_rank(entries[0], entry) {
            seq![entries[0]] + ranked_with(entries.drop_first(), entry)
        } else {
            ranked_with(entries.drop_first(), entry)
        },
{
    let ranks = |other: EntryView| same_rank(other, entry);
    entries.drop_first().lemma_filter_prepend(entries[0], ranks);
    assert(seq![entries[0]] + entries.drop_first() =~= entries);
    assert(Seq::<EntryView>::empty() + ranked_with(entries.drop_first(), entry) =~= ranked_with(
        entries.drop_first(),
        entry,
    ));
}

/// Two ordered arrangements of the same entries in which entries that rank
/// alike stand in the same order are one arrangement.
pub proof fn lemma_arrangement_unique(a: Seq<EntryView>, b: Seq<EntryView>)
    requires
        ordered(a),
        ordered(b),
        a.to_multiset() == b.to_multiset(),
        keeps_order(a, b),
    ensures
        a == b,
    decreases a.len(),
{
    broadcast use vstd::seq_lib::group_to_multiset_ensures;
    broadcast use vstd::multiset::group_multiset_axioms;

    assert(a.len() == a.to_multiset().len() && b.len() == b.to_multiset().len());
    if a.len() == 0 {
        assert(a =~= b);
    } else {
        assert(a.contains(a[0]) && b.contains(b[0]));
        assert(b.to_multiset().count(a[0]) > 0 && a.to_multiset().count(b[0]) > 0);
        let i = choose|i: int| 0 <= i < a.len() && a[i] == b[0];
        let k = choose|k: int| 0 <= k < b.len() && b[k] == a[0];
        lemma_order_asymmetric(a[0], b[0]);
        lemma_order_asymmetric(b[0], a[0]);
        assert(same_rank(a[0], b[0])) by {
            if i > 0 {
                assert(!entry_before(a[i], a[0]));
            }
            if k > 0 {
                assert(!entry_before(b[k], b[0]));
            }
        }
        lemma_ranked_with_first(a, b[0]);
        lemma_ranked_with_first(b, b[0]);
        assert(ranked_with(a, b[0]) == ranked_with(b, b[0]));
        assert(ranked_with(a, b[0])[0] == a[0]);
        assert(ranked_with(b, b[0])[0] == b[0]);
        assert(a[0] == b[0]);
        let a_rest = a.drop_first();
        let b_rest = b.drop_first();
        assert(a_rest =~= a.remove(0) && b_rest =~= b.remove(0));
        assert(a_rest.to_multiset() == a.to_multiset().remove(a[0]));
        assert(b_rest.to_multiset() == b.to_multiset().remove(b[0]));
        assert(ordered(a_rest)) by {
            assert forall|x: int, y: int| 0 <= x < y < a_rest.len() implies !entry_before(
                a_rest[y],
                a_rest[x],
            ) by {
                assert(a_rest[x] == a[x + 1] && a_rest[y] == a[y + 1]);
            }
        }
        assert(ordered(b_rest)) by {
            assert forall|x: int, y: int| 0 <= x < y < b_rest.len() implies !entry_before(
                b_rest[y],
                b_rest[x],
            ) by {
                assert(b_rest[x] == b[x + 1] && b_rest[y] == b[y + 1]);
            }
        }
        assert forall|entry: EntryView| #[trigger]
            ranked_with(a_rest, entry) == ranked_with(b_rest, entry) by {
            lemma_ranked_with_first(a, entry);
            lemma_ranked_with_first(b, entry);
            assert(ranked_with(a, entry) == ranked_with(b, entry));
            if same_rank(a[0], entry) {
                assert(ranked_with(a_rest, entry) =~= ranked_with(a, entry).drop_first());
                assert(ranked_with(b_rest, entry) =~= ranked_with(b, entry).drop_first());
            }
        }
        lemma_arrangement_unique(a_rest, b_rest);
        assert(a =~= seq![a[0]] + a_rest);
        assert(b =~= seq![b[0]] + b_rest);
    }
}

/// A reading has one listing: what lists a reading under a filter is
/// determined by the reading and the filter.
pub proof fn lemma_listing_determined(
    a: Seq<EntryView>,
    b: Seq<EntryView>,
    raw: Seq<EntryView>,
    show_hidden: bool,
)
    requires
        lists(a, raw, show_hidden),
        lists(b, raw, show_hidden),
    ensures
        a == b,
{
    assert forall|entry: EntryView| #[trigger] ranked_with(a, entry) == ranked_with(b, entry) by {
        assert(ranked_with(a, entry) == ranked_with(shown(raw, show_hidden), entry));
        assert(ranked_with(b, entry) == ranked_with(shown(raw, show_hidden), entry));
    }
    lemma_arrangement_unique(a, b);
}

} // verus!
