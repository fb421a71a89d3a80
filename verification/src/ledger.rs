//! A ledger: amounts booked under identities, each identity at most once, kept
//! in the order of the identities so that it can be listed in that order.

use crate::chain::texts_view;
use crate::text::{
    lemma_precedes_irreflexive, lemma_precedes_total, lemma_precedes_transitive, place, precedes, Placement,
};
use vstd::prelude::*;

verus! {

/// One line of a ledger.
struct Entry {
    address: String,
    amount: u128,
}

/// Whether the texts stand in strictly ascending order, so that none occurs
/// twice.
pub open spec fn ascending(texts: Seq<Seq<char>>) -> bool {
    forall|i: int, j: int| 0 <= i < j < texts.len() ==> precedes(#[trigger] texts[i], #[trigger] texts[j])
}

/// Whether `texts` lists the members of `members`, each once, in ascending
/// order.
pub open spec fn lists(texts: Seq<Seq<char>>, members: Set<Seq<char>>) -> bool {
    &&& ascending(texts)
    &&& forall|text: Seq<char>| members.contains(text) <==> texts.contains(text)
}

/// The identities of the entries, in the entries' order.
spec fn addresses_of(entries: Seq<Entry>) -> Seq<Seq<char>> {
    entries.map_values(|e: Entry| e.address@)
}

/// The entries as a map from identity to amount.
spec fn booked(entries: Seq<Entry>) -> Map<Seq<char>, u128> {
    Map::new(
        |address: Seq<char>| addresses_of(entries).contains(address),
        |address: Seq<char>| entries[addresses_of(entries).index_of(address)].amount,
    )
}

/// Ascending texts hold each text at one place only.
pub proof fn lemma_ascending_distinct(texts: Seq<Seq<char>>, i: int, j: int)
    requires
        ascending(texts),
        0 <= i < texts.len(),
        0 <= j < texts.len(),
        texts[i] == texts[j],
    ensures
        i == j,
{
    lemma_precedes_irreflexive(texts[i]);
}

/// A listing without its last text lists the members without that text.
proof fn lemma_listing_without_last(texts: Seq<Seq<char>>, members: Set<Seq<char>>)
    requires
        lists(texts, members),
        texts.len() > 0,
    ensures
        lists(texts.drop_last(), members.remove(texts.last())),
{
    let shorter = texts.drop_last();
    let rest = members.remove(texts.last());
    assert forall|text: Seq<char>| rest.contains(text) <==> shorter.contains(text) by {
        if rest.contains(text) {
            let i = choose|i: int| 0 <= i < texts.len() && texts[i] == text;
            assert(shorter[i] == text);
        }
        if shorter.contains(text) {
            let i = choose|i: int| 0 <= i < shorter.len() && shorter[i] == text;
            assert(texts[i] == text);
            assert(texts.contains(text));
            assert(precedes(texts[i], texts[texts.len() - 1]));
            lemma_precedes_irreflexive(text);
        }
    }
    assert forall|i: int, j: int| 0 <= i < j < shorter.len() implies precedes(
        #[trigger] shorter[i],
        #[trigger] shorter[j],
    ) by {
        assert(precedes(texts[i], texts[j]));
    }
}

/// The last text of a listing is the greatest member.
proof fn lemma_listing_last_is_greatest(texts: Seq<Seq<char>>, members: Set<Seq<char>>, member: Seq<char>)
    requires
        lists(texts, members),
        members.contains(member),
    ensures
        texts.len() > 0,
        member == texts.last() || precedes(member, texts.last()),
{
    let i = choose|i: int| 0 <= i < texts.len() && texts[i] == member;
    if i < texts.len() - 1 {
        assert(precedes(texts[i], texts[texts.len() - 1]));
    }
}

/// A set has one ascending listing only.
pub proof fn lemma_listing_unique(a: Seq<Seq<char>>, b: Seq<Seq<char>>, members: Set<Seq<char>>)
    requires
        lists(a, members),
        lists(b, members),
    ensures
        a == b,
    decreases a.len(),
{
    if a.len() == 0 || b.len() == 0 {
        if a.len() > 0 {
            assert(a.contains(a[0]));
            lemma_listing_last_is_greatest(b, members, a[0]);
        }
        if b.len() > 0 {
            assert(b.contains(b[0]));
            lemma_listing_last_is_greatest(a, members, b[0]);
        }
        assert(a =~= b);
    } else {
        assert(a.contains(a.last()));
        assert(b.contains(b.last()));
        lemma_listing_last_is_greatest(b, members, a.last());
        lemma_listing_last_is_greatest(a, members, b.last());
        lemma_precedes_total(a.last(), b.last());
        lemma_listing_without_last(a, members);
        lemma_listing_without_last(b, members);
        lemma_listing_unique(a.drop_last(), b.drop_last(), members.remove(a.last()));
        assert(a =~= a.drop_last().push(a.last()));
        assert(b =~= b.drop_last().push(b.last()));
    }
}

/// In ascending entries, the entry at a place is what is booked under its
/// identity.
proof fn lemma_booked_at(entries: Seq<Entry>, i: int)
    requires
        ascending(addresses_of(entries)),
        0 <= i < entries.len(),
    ensures
        booked(entries).contains_key(entries[i].address@),
        booked(entries)[entries[i].address@] == entries[i].amount,
{
    let texts = addresses_of(entries);
    assert(texts[i] == entries[i].address@);
    assert(texts.contains(texts[i]));
    let j = texts.index_of(texts[i]);
    lemma_ascending_distinct(texts, i, j);
}

/// What is booked under an identity stands at some place of the entries.
proof fn lemma_booked_place(entries: Seq<Entry>, address: Seq<char>) -> (i: int)
    requires
        booked(entries).contains_key(address),
    ensures
        0 <= i < entries.len(),
        entries[i].address@ == address,
{
    let texts = addresses_of(entries);
    let i = texts.index_of(address);
    assert(texts[i] == entries[i].address@);
    i
}

/// An entry put between what comes before it and what comes after it keeps
/// the entries ascending, and books its amount under its identity.
proof fn lemma_insert(entries: Seq<Entry>, i: int, entry: Entry)
    requires
        ascending(addresses_of(entries)),
        0 <= i <= entries.len(),
        forall|j: int| 0 <= j < i ==> precedes(#[trigger] addresses_of(entries)[j], entry.address@),
        forall|j: int| i <= j < entries.len() ==> precedes(entry.address@, #[trigger] addresses_of(entries)[j]),
    ensures
        ascending(addresses_of(entries.insert(i, entry))),
        booked(entries.insert(i, entry)) == booked(entries).insert(entry.address@, entry.amount),
{
    let after = entries.insert(i, entry);
    let texts = addresses_of(entries);
    let texts_after = addresses_of(after);
    assert forall|a: int, b: int| 0 <= a < b < texts_after.len() implies precedes(
        #[trigger] texts_after[a],
        #[trigger] texts_after[b],
    ) by {
        let ta = if a < i { texts[a] } else if a == i { entry.address@ } else { texts[a - 1] };
        let tb = if b < i { texts[b] } else if b == i { entry.address@ } else { texts[b - 1] };
        assert(texts_after[a] == ta);
        assert(texts_after[b] == tb);
        if a < i && b > i {
            lemma_precedes_transitive(texts[a], entry.address@, texts[b - 1]);
        }
    }
    assert forall|address: Seq<char>|
        booked(entries).insert(entry.address@, entry.amount).contains_key(address) implies #[trigger] booked(
        after,
    ).contains_key(address) && booked(after)[address] == booked(entries).insert(
        entry.address@,
        entry.amount,
    )[address] by {
        if address == entry.address@ {
            lemma_booked_at(after, i);
        } else {
            let j = lemma_booked_place(entries, address);
            lemma_booked_at(entries, j);
            let k = if j < i { j } else { j + 1 };
            assert(after[k] == entries[j]);
            lemma_booked_at(after, k);
        }
    }
    assert forall|address: Seq<char>| #[trigger] booked(after).contains_key(address) implies booked(
        entries,
    ).insert(entry.address@, entry.amount).contains_key(address) by {
        let k = lemma_booked_place(after, address);
        if k != i {
            let j = if k < i { k } else { k - 1 };
            assert(after[k] == entries[j]);
            lemma_booked_at(entries, j);
        }
    }
    assert(booked(after) =~= booked(entries).insert(entry.address@, entry.amount));
}

/// An entry put in place of the one with the same identity keeps the entries
/// ascending, and books its amount under that identity.
proof fn lemma_update(entries: Seq<Entry>, i: int, entry: Entry)
    requires
        ascending(addresses_of(entries)),
        0 <= i < entries.len(),
        entries[i].address@ == entry.address@,
    ensures
        ascending(addresses_of(entries.update(i, entry))),
        booked(entries.update(i, entry)) == booked(entries).insert(entry.address@, entry.amount),
{
    let after = entries.update(i, entry);
    let texts = addresses_of(entries);
    assert(addresses_of(after) =~= texts);
    assert forall|address: Seq<char>|
        booked(entries).insert(entry.address@, entry.amount).contains_key(address) implies #[trigger] booked(
        after,
    ).contains_key(address) && booked(after)[address] == booked(entries).insert(
        entry.address@,
        entry.amount,
    )[address] by {
        if address == entry.address@ {
            lemma_booked_at(after, i);
        } else {
            let j = lemma_booked_place(entries, address);
            lemma_booked_at(entries, j);
            assert(after[j] == entries[j]);
            lemma_booked_at(after, j);
        }
    }
    assert forall|address: Seq<char>| #[trigger] booked(after).contains_key(address) implies booked(
        entries,
    ).insert(entry.address@, entry.amount).contains_key(address) by {
        let k = lemma_booked_place(after, address);
        if k != i {
            lemma_booked_at(entries, k);
        }
    }
    assert(booked(after) =~= booked(entries).insert(entry.address@, entry.amount));
}

/// Taking an entry out keeps the entries ascending, and strikes what was
/// booked under its identity.
proof fn lemma_remove(entries: Seq<Entry>, i: int)
    requires
        ascending(addresses_of(entries)),
        0 <= i < entries.len(),
    ensures
        ascending(addresses_of(entries.remove(i))),
        booked(entries.remove(i)) == booked(entries).remove(entries[i].address@),
{
    let after = entries.remove(i);
    let texts = addresses_of(entries);
    let texts_after = addresses_of(after);
    let gone = entries[i].address@;
    assert forall|a: int, b: int| 0 <= a < b < texts_after.len() implies precedes(
        #[trigger] texts_after[a],
        #[trigger] texts_after[b],
    ) by {
        let a0 = if a < i { a } else { a + 1 };
        let b0 = if b < i { b } else { b + 1 };
        assert(texts_after[a] == texts[a0]);
        assert(texts_after[b] == texts[b0]);
    }
    assert forall|address: Seq<char>| booked(entries).remove(gone).contains_key(address) implies #[trigger] booked(
        after,
    ).contains_key(address) && booked(after)[address] == booked(entries).remove(gone)[address] by {
        let j = lemma_booked_place(entries, address);
        lemma_booked_at(entries, j);
        let k = if j < i { j } else { j - 1 };
        assert(after[k] == entries[j]);
        lemma_booked_at(after, k);
    }
    assert forall|address: Seq<char>| #[trigger] booked(after).contains_key(address) implies booked(
        entries,
    ).remove(gone).contains_key(address) by {
        let k = lemma_booked_place(after, address);
        let j = if k < i { k } else { k + 1 };
        assert(after[k] == entries[j]);
        lemma_booked_at(entries, j);
        assert(texts[j] == address);
        assert(texts[i] == gone);
        if address == gone {
            lemma_ascending_distinct(texts, i, j);
        }
    }
    assert(booked(after) =~= booked(entries).remove(gone));
}

/// Amounts booked under identities. Its view is the map from identity to
/// amount.
pub struct Ledger {
    entries: Vec<Entry>,
}

impl View for Ledger {
    type V = Map<Seq<char>, u128>;

    closed spec fn view(&self) -> Map<Seq<char>, u128> {
        booked(self.entries@)
    }
}

impl Ledger {
    #[verifier::type_invariant]
    spec fn well_formed(self) -> bool {
        ascending(addresses_of(self.entries@))
    }

    /// A ledger with nothing booked.
    pub fn new() -> (ledger: Ledger)
        ensures
            ledger@ == Map::<Seq<char>, u128>::empty(),
    {
        let ledger = Ledger { entries: Vec::new() };
        assert(ledger@ =~= Map::<Seq<char>, u128>::empty());
        ledger
    }

    /// Moves the entries out, to be changed and put back, and leaves none.
    fn take_entries(&mut self) -> (entries: Vec<Entry>)
        ensures
            entries@ == old(self).entries@,
            final(self).entries@.len() == 0,
    {
        let mut entries: Vec<Entry> = Vec::new();
        core::mem::swap(&mut self.entries, &mut entries);
        entries
    }

    /// Where `address` stands or would stand: the place of the first entry that
    /// does not come before it, and whether that entry is under `address`.
    fn locate(&self, address: &str) -> (found: (usize, bool))
        ensures
            found.0 <= self.entries@.len(),
            forall|j: int| 0 <= j < found.0 ==> precedes(#[trigger] addresses_of(self.entries@)[j], address@),
            found.1 ==> found.0 < self.entries@.len() && self.entries@[found.0 as int].address@ == address@,
            !found.1 ==> forall|j: int|
                found.0 <= j < self.entries@.len() ==> precedes(address@, #[trigger] addresses_of(self.entries@)[j]),
    {
        proof {
            use_type_invariant(self);
        }
        let ghost texts = addresses_of(self.entries@);
        let mut low: usize = 0;
        let mut high: usize = self.entries.len();
        while low < high
            invariant
                low <= high <= self.entries@.len(),
                texts == addresses_of(self.entries@),
                ascending(texts),
                forall|j: int| 0 <= j < low ==> precedes(#[trigger] texts[j], address@),
                forall|j: int| high <= j < texts.len() ==> precedes(address@, #[trigger] texts[j]),
            decreases high - low,
        {
            let middle = low + (high - low) / 2;
            match place(self.entries[middle].address.as_str(), address) {
                Placement::Before => {
                    proof {
                        assert(texts[middle as int] == self.entries@[middle as int].address@);
                        assert forall|j: int| 0 <= j < middle + 1 implies precedes(#[trigger] texts[j], address@) by {
                            if j < middle {
                                lemma_precedes_transitive(texts[j], texts[middle as int], address@);
                            }
                        }
                    }
                    low = middle + 1;
                },
                Placement::Same => {
                    proof {
                        assert(texts[middle as int] == self.entries@[middle as int].address@);
                        assert forall|j: int| 0 <= j < middle implies precedes(#[trigger] texts[j], address@) by {
                            assert(precedes(texts[j], texts[middle as int]));
                        }
                    }
                    return (middle, true);
                },
                Placement::After => {
                    proof {
                        assert(texts[middle as int] == self.entries@[middle as int].address@);
                        assert forall|j: int| middle <= j < texts.len() implies precedes(address@, #[trigger] texts[j]) by {
                            if j > middle {
                                lemma_precedes_transitive(address@, texts[middle as int], texts[j]);
                            }
                        }
                    }
                    high = middle;
                },
            }
        }
        (low, false)
    }

    /// What is booked under `address`, if anything is.
    pub fn get(&self, address: &str) -> (amount: Option<u128>)
        ensures
            amount == (if self@.contains_key(address@) {
                Some(self@[address@])
            } else {
                None
            }),
    {
        proof {
            use_type_invariant(self);
        }
        let (place, found) = self.locate(address);
        if found {
            proof {
                lemma_booked_at(self.entries@, place as int);
            }
            Some(self.entries[place].amount)
        } else {
            proof {
                if self@.contains_key(address@) {
                    let i = lemma_booked_place(self.entries@, address@);
                    let texts = addresses_of(self.entries@);
                    assert(texts[i] == address@);
                    lemma_precedes_irreflexive(address@);
                }
            }
            None
        }
    }

    /// Whether anything is booked under `address`.
    pub fn contains(&self, address: &str) -> (present: bool)
        ensures
            present == self@.contains_key(address@),
    {
        self.get(address).is_some()
    }

    /// Books `amount` under `address`, in place of what was booked there.
    pub fn set(&mut self, address: String, amount: u128)
        ensures
            final(self)@ == old(self)@.insert(address@, amount),
    {
        proof {
            use_type_invariant(&*self);
        }
        let (place, found) = self.locate(address.as_str());
        let entry = Entry { address, amount };
        let mut entries = self.take_entries();
        if found {
            proof {
                lemma_update(entries@, place as int, entry);
            }
            entries.set(place, entry);
        } else {
            proof {
                lemma_insert(entries@, place as int, entry);
            }
            entries.insert(place, entry);
        }
        self.entries = entries;
    }

    /// Strikes what is booked under `address`, if anything is.
    pub fn remove(&mut self, address: &str)
        ensures
            final(self)@ == old(self)@.remove(address@),
    {
        proof {
            use_type_invariant(&*self);
        }
        let (place, found) = self.locate(address);
        if found {
            let mut entries = self.take_entries();
            proof {
                lemma_remove(entries@, place as int);
            }
            entries.remove(place);
            self.entries = entries;
        } else {
            proof {
                if self@.contains_key(address@) {
                    let i = lemma_booked_place(self.entries@, address@);
                    let texts = addresses_of(self.entries@);
                    assert(texts[i] == address@);
                    lemma_precedes_irreflexive(address@);
                }
                assert(self@ =~= self@.remove(address@));
            }
        }
    }

    /// The identities that have something booked, in ascending order.
    pub fn addresses(&self) -> (addresses: Vec<String>)
        ensures
            lists(texts_view(addresses@), self@.dom()),
    {
        proof {
            use_type_invariant(self);
        }
        let mut addresses: Vec<String> = Vec::new();
        let mut i: usize = 0;
        while i < self.entries.len()
            invariant
                i <= self.entries@.len(),
                addresses@.len() == i,
                forall|j: int| 0 <= j < i ==> (#[trigger] addresses@[j])@ == self.entries@[j].address@,
            decreases self.entries@.len() - i,
        {
            addresses.push(self.entries[i].address.clone());
            i += 1;
        }
        proof {
            let texts = texts_view(addresses@);
            assert(texts =~= addresses_of(self.entries@));
            assert forall|text: Seq<char>| self@.dom().contains(text) <==> texts.contains(text) by {}
        }
        addresses
    }
}

} // verus!
