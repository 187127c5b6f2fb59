//! The product snapshot: what the marketplace reported at one poll instant.
//!
//! The marketplace answers with a mapping from variant key to listing. The
//! snapshot keeps that mapping as a list of entries in the order in which they
//! were put in, with no key occurring twice, so that whoever evaluates it walks
//! the entries in one fixed order.

use vstd::prelude::*;

verus! {

/// One variant of the product as the marketplace lists it.
#[derive(Debug, Clone, PartialEq, Eq)]
pub struct VariantListing {
    /// The size label, compared verbatim with the size that is looked for.
    pub size: String,
    /// The current top buy order, in whole units of the configured currency.
    pub highest_bid: u16,
}

/// The mathematical content of a [`VariantListing`].
pub struct ListingView {
    pub size: Seq<char>,
    pub highest_bid: u16,
}

impl View for VariantListing {
    type V = ListingView;

    open spec fn view(&self) -> ListingView {
        ListingView { size: self.size@, highest_bid: self.highest_bid }
    }
}

/// One entry of a snapshot: a variant key and the listing found under it.
pub struct EntryView {
    pub key: Seq<char>,
    pub listing: ListingView,
}

/// True when `key` is the key of some entry of `entries`.
pub open spec fn has_key(entries: Seq<EntryView>, key: Seq<char>) -> bool {
    exists|i: int| 0 <= i < entries.len() && (#[trigger] entries[i]).key == key
}

/// True when no key occurs in two entries of `entries`.
pub open spec fn keys_distinct(entries: Seq<EntryView>) -> bool {
    forall|i: int, j: int|
        0 <= i < j < entries.len() ==> (#[trigger] entries[i]).key != (#[trigger] entries[j]).key
}

/// The listings of `entries`, in order, without their keys.
pub open spec fn listings_of(entries: Seq<EntryView>) -> Seq<ListingView> {
    Seq::new(entries.len(), |i: int| entries[i].listing)
}

/// The variants of one product at one poll instant, keyed by variant key.
#[derive(Debug)]
pub struct ProductSnapshot {
    entries: Vec<(String, VariantListing)>,
}

/// The mathematical content of stored entries.
spec fn entries_view(entries: Seq<(String, VariantListing)>) -> Seq<EntryView> {
    Seq::new(entries.len(), |i: int| EntryView { key: entries[i].0@, listing: entries[i].1@ })
}

impl View for ProductSnapshot {
    type V = Seq<EntryView>;

    closed spec fn view(&self) -> Seq<EntryView> {
        entries_view(self.entries@)
    }
}

impl ProductSnapshot {
    /// A snapshot holds each key at most once, at all times.
    #[verifier::type_invariant]
    spec fn well_formed(self) -> bool {
        keys_distinct(self@)
    }

    /// The listings in the order in which they are walked.
    pub open spec fn listings(&self) -> Seq<ListingView> {
        listings_of(self@)
    }

    /// A snapshot without variants.
    pub fn new() -> (snapshot: ProductSnapshot)
        ensures
            snapshot@ == Seq::<EntryView>::empty(),
    {
        ProductSnapshot { entries: Vec::new() }
    }

    /// The number of variants.
    pub fn len(&self) -> (n: usize)
        ensures
            n == self@.len(),
    {
        self.entries.len()
    }

    /// The key of the entry at position `i`.
    pub fn key_at(&self, i: usize) -> (key: &String)
        requires
            i < self@.len(),
        ensures
            key@ == self@[i as int].key,
    {
        &self.entries[i].0
    }

    /// The listing of the entry at position `i`.
    pub fn listing_at(&self, i: usize) -> (listing: &VariantListing)
        requires
            i < self@.len(),
        ensures
            listing@ == self@[i as int].listing,
    {
        &self.entries[i].1
    }

    /// The position of the entry with key `key`, if there is one; there is no
    /// second one.
    pub fn position(&self, key: &String) -> (found: Option<usize>)
        ensures
            keys_distinct(self@),
            match found {
                Some(i) => i < self@.len() && self@[i as int].key == key@ && forall|j: int|
                    0 <= j < i ==> (#[trigger] self@[j]).key != key@,
                None => !has_key(self@, key@),
            },
    {
        proof {
            use_type_invariant(self);
        }
        let mut i: usize = 0;
        while i < self.entries.len()
            invariant
                i <= self.entries@.len(),
                keys_distinct(self@),
                forall|j: int| 0 <= j < i ==> (#[trigger] self@[j]).key != key@,
            decreases self.entries@.len() - i,
        {
            if self.entries[i].0 == *key {
                return Some(i);
            }
            i += 1;
        }
        None
    }

    /// Puts `listing` under `key`, as a map does: a key that is already there
    /// keeps its place and gets the new listing, and the listing that it had
    /// is handed back; a new key goes to the end.
    pub fn insert(&mut self, key: String, listing: VariantListing) -> (previous: Option<
        VariantListing,
    >)
        ensures
            keys_distinct(old(self)@),
            keys_distinct(final(self)@),
            match previous {
                Some(p) => exists|i: int|
                    0 <= i < old(self)@.len() && (#[trigger] old(self)@[i]).key == key@ && p@
                        == old(self)@[i].listing && final(self)@ == old(self)@.update(
                        i,
                        EntryView { key: key@, listing: listing@ },
                    ),
                None => !has_key(old(self)@, key@) && final(self)@ == old(self)@.push(
                    EntryView { key: key@, listing: listing@ },
                ),
            },
    {
        proof {
            use_type_invariant(&*self);
        }
        let ghost before = self@;
        let ghost entry = EntryView { key: key@, listing: listing@ };
        let found = self.position(&key);
        let mut entries: Vec<(String, VariantListing)> = Vec::new();
        core::mem::swap(&mut entries, &mut self.entries);
        let previous = match found {
            Some(i) => {
                let mut stored = (key, listing);
                let slot: &mut (String, VariantListing) = &mut entries[i];
                core::mem::swap(slot, &mut stored);
                Some(stored.1)
            },
            None => {
                entries.push((key, listing));
                None
            },
        };
        proof {
            let after = entries_view(entries@);
            match found {
                Some(i) => {
                    assert(after =~= before.update(i as int, entry));
                    assert(before[i as int].key == entry.key);
                },
                None => {
                    assert(after =~= before.push(entry));
                    assert forall|a: int, b: int| 0 <= a < b < after.len() implies (
                    #[trigger] after[a]).key != (#[trigger] after[b]).key by {
                        if b < before.len() {
                            assert(before[a].key != before[b].key);
                        } else {
                            assert(before[a].key != key@);
                        }
                    }
                },
            }
        }
        self.entries = entries;
        previous
    }
}

} // verus!
