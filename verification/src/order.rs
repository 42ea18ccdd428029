//! The order in which the entries of a directory are listed.
//!
//! Directories come before files; within each of the two groups the entries
//! that are not hidden come before the hidden ones; within each of the four
//! sub-groups the names ascend, compared byte by byte in their UTF-8 form.

use vstd::prelude::*;
use vstd::utf8::{decode_utf8, encode_utf8, encode_utf8_decode_utf8};
use crate::entry::{entry_not_hidden, is_hidden, Entry, EntryView};

verus! {

/// Lexicographic order on byte strings: at the first place where the two
/// differ the smaller byte decides, and a proper prefix comes first.
pub open spec fn bytes_before(a: Seq<u8>, b: Seq<u8>) -> bool
    decreases a.len(),
{
    if b.len() == 0 {
        false
    } else if a.len() == 0 {
        true
    } else if a[0] != b[0] {
        a[0] < b[0]
    } else {
        bytes_before(a.drop_first(), b.drop_first())
    }
}

/// Order of names: the byte order of their UTF-8 encodings.
pub open spec fn name_before(a: Seq<char>, b: Seq<char>) -> bool {
    bytes_before(encode_utf8(a), encode_utf8(b))
}

/// The listing order: `a` has to stand before `b`.
pub open spec fn entry_before(a: EntryView, b: EntryView) -> bool {
    if a.is_dir != b.is_dir {
        a.is_dir
    } else if is_hidden(a.name) != is_hidden(b.name) {
        is_hidden(b.name)
    } else {
        name_before(a.name, b.name)
    }
}

/// No entry stands behind one that has to come after it.
pub open spec fn ordered(entries: Seq<EntryView>) -> bool {
    forall|i: int, j: int| 0 <= i < j < entries.len() ==> !entry_before(entries[j], entries[i])
}

/// Every entry stands before all that follow it, in the strict sense.
pub open spec fn strictly_ordered(entries: Seq<EntryView>) -> bool {
    forall|i: int, j: int| 0 <= i < j < entries.len() ==> entry_before(entries[i], entries[j])
}

/// Neither entry has to stand before the other.
pub open spec fn same_rank(a: EntryView, b: EntryView) -> bool {
    !entry_before(a, b) && !entry_before(b, a)
}

/// The entries that rank with `entry`, in the order in which they stand.
pub open spec fn ranked_with(entries: Seq<EntryView>, entry: EntryView) -> Seq<EntryView> {
    entries.filter(|other: EntryView| same_rank(other, entry))
}

/// Entries that rank alike stand in `after` in the order in which they stand
/// in `before`.
pub open spec fn keeps_order(after: Seq<EntryView>, before: Seq<EntryView>) -> bool {
    forall|entry: EntryView| #[trigger] ranked_with(after, entry) == ranked_with(before, entry)
}

/// No two entries of the same kind share a name.
pub open spec fn distinct(entries: Seq<EntryView>) -> bool {
    forall|i: int, j: int|
        0 <= i < j < entries.len() ==> !(entries[i].is_dir == entries[j].is_dir
            && entries[i].name == entries[j].name)
}

/// How one value stands to another in an order.
#[derive(Clone, Copy, Debug, PartialEq, Eq)]
pub enum Rank {
    Before,
    Same,
    After,
}

pub proof fn lemma_bytes_irreflexive(a: Seq<u8>)
    ensures
        !bytes_before(a, a),
    decreases a.len(),
{
    if a.len() > 0 {
        lemma_bytes_irreflexive(a.drop_first());
    }
}

pub proof fn lemma_bytes_asymmetric(a: Seq<u8>, b: Seq<u8>)
    requires
        bytes_before(a, b),
    ensures
        !bytes_before(b, a),
    decreases a.len(),
{
    if a.len() > 0 && b.len() > 0 && a[0] == b[0] {
        lemma_bytes_asymmetric(a.drop_first(), b.drop_first());
    }
}

pub proof fn lemma_bytes_transitive(a: Seq<u8>, b: Seq<u8>, c: Seq<u8>)
    requires
        bytes_before(a, b),
        bytes_before(b, c),
    ensures
        bytes_before(a, c),
    decreases a.len(),
{
    if a.len() > 0 && b.len() > 0 && c.len() > 0 && a[0] == b[0] && b[0] == c[0] {
        lemma_bytes_transitive(a.drop_first(), b.drop_first(), c.drop_first());
    }
}

pub proof fn lemma_bytes_total(a: Seq<u8>, b: Seq<u8>)
    ensures
        a == b || bytes_before(a, b) || bytes_before(b, a),
    decreases a.len(),
{
    if a.len() > 0 && b.len() > 0 && a[0] == b[0] {
        lemma_bytes_total(a.drop_first(), b.drop_first());
        if a.drop_first() == b.drop_first() {
            assert(a =~= seq![a[0]] + a.drop_first());
            assert(b =~= seq![b[0]] + b.drop_first());
        }
    } else if a.len() == 0 && b.len() == 0 {
        assert(a =~= b);
    }
}

/// Names that neither come before the other are one name.
pub proof fn lemma_name_total(a: Seq<char>, b: Seq<char>)
    ensures
        a == b || name_before(a, b) || name_before(b, a),
{
    lemma_bytes_total(encode_utf8(a), encode_utf8(b));
    if encode_utf8(a) == encode_utf8(b) {
        encode_utf8_decode_utf8(a);
        encode_utf8_decode_utf8(b);
        assert(a == decode_utf8(encode_utf8(a)));
    }
}

/// The listing order is a strict order: nothing comes before itself, and no
/// two entries come before each other.
pub proof fn lemma_order_asymmetric(a: EntryView, b: EntryView)
    ensures
        !entry_before(a, a),
        entry_before(a, b) ==> !entry_before(b, a),
{
    lemma_bytes_irreflexive(encode_utf8(a.name));
    if name_before(a.name, b.name) {
        lemma_bytes_asymmetric(encode_utf8(a.name), encode_utf8(b.name));
    }
}

/// The listing order is transitive.
pub proof fn lemma_order_transitive(a: EntryView, b: EntryView, c: EntryView)
    requires
        entry_before(a, b),
        entry_before(b, c),
    ensures
        entry_before(a, c),
{
    if name_before(a.name, b.name) && name_before(b.name, c.name) {
        lemma_bytes_transitive(encode_utf8(a.name), encode_utf8(b.name), encode_utf8(c.name));
    }
}

/// The listing order is total on kind and name: two entries of which neither
/// comes before the other are of one kind and have one name.
pub proof fn lemma_order_total(a: EntryView, b: EntryView)
    ensures
        entry_before(a, b) || entry_before(b, a) || (a.is_dir == b.is_dir && a.name == b.name),
{
    lemma_name_total(a.name, b.name);
}

/// To stand neither before nor behind is transitive, so the order ranks the
/// entries in classes that follow one another: what a sort needs of it.
pub proof fn lemma_order_classes(a: EntryView, b: EntryView, c: EntryView)
    requires
        !entry_before(a, b),
        !entry_before(b, c),
    ensures
        !entry_before(a, c),
{
    lemma_order_total(a, b);
    lemma_order_total(b, c);
    lemma_order_asymmetric(a, c);
    lemma_order_asymmetric(c, a);
    if entry_before(a, c) {
        if entry_before(b, a) {
            lemma_order_transitive(b, a, c);
        }
        if entry_before(c, b) {
            lemma_order_transitive(a, c, b);
        }
    }
}

/// Ranks two byte strings in the lexicographic order.
pub fn rank_bytes(a: &[u8], b: &[u8]) -> (rank: Rank)
    ensures
        (rank == Rank::Before) == bytes_before(a@, b@),
        (rank == Rank::After) == bytes_before(b@, a@),
{
    let mut i: usize = 0;
    assert(a@.skip(0) =~= a@ && b@.skip(0) =~= b@);
    while i < a.len() && i < b.len()
        invariant
            i <= a.len(),
            i <= b.len(),
            bytes_before(a@, b@) == bytes_before(a@.skip(i as int), b@.skip(i as int)),
            bytes_before(b@, a@) == bytes_before(b@.skip(i as int), a@.skip(i as int)),
        decreases a.len() - i,
    {
        let x = a[i];
        let y = b[i];
        assert(a@.skip(i as int)[0] == x && b@.skip(i as int)[0] == y);
        if x < y {
            return Rank::Before;
        }
        if x > y {
            return Rank::After;
        }
        assert(a@.skip(i as int).drop_first() =~= a@.skip(i + 1));
        assert(b@.skip(i as int).drop_first() =~= b@.skip(i + 1));
        i += 1;
    }
    if i < b.len() {
        Rank::Before
    } else if i < a.len() {
        Rank::After
    } else {
        Rank::Same
    }
}

/// Ranks two entries in the listing order.
pub fn rank_entries(a: &Entry, b: &Entry) -> (rank: Rank)
    ensures
        (rank == Rank::Before) == entry_before(a@, b@),
        (rank == Rank::After) == entry_before(b@, a@),
{
    if a.is_dir != b.is_dir {
        if a.is_dir {
            Rank::Before
        } else {
            Rank::After
        }
    } else {
        let a_shown = entry_not_hidden(a);
        let b_shown = entry_not_hidden(b);
        if a_shown != b_shown {
            if a_shown {
                Rank::Before
            } else {
                Rank::After
            }
        } else {
            rank_bytes(a.name.as_str().as_bytes(), b.name.as_str().as_bytes())
        }
    }
}

} // verus!
