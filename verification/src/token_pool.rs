//! The tokens of a snapshot, each under the text that is its key.
//!
//! A pool is a finite map that remembers the order in which its keys came in.
//! A key that comes in again keeps its place and takes the new token.

use crate::models::{APITokenData, APITokenDataView};
use vstd::prelude::*;

verus! {

/// A key with the view of its token.
pub type EntryView = (Seq<char>, APITokenDataView);

/// No key occurs twice.
pub open spec fn distinct_keys(entries: Seq<EntryView>) -> bool {
    forall|i: int, j: int| 0 <= i < j < entries.len() ==> entries[i].0 != entries[j].0
}

/// Some entry has the key.
pub open spec fn has_key(entries: Seq<EntryView>, key: Seq<char>) -> bool {
    exists|i: int| 0 <= i < entries.len() && (#[trigger] entries[i]).0 == key
}

/// A place at which the key stands, where it stands anywhere.
pub open spec fn place_of(entries: Seq<EntryView>, key: Seq<char>) -> int {
    choose|i: int| 0 <= i < entries.len() && (#[trigger] entries[i]).0 == key
}

/// The entries as a map from key to token.
pub open spec fn as_map(entries: Seq<EntryView>) -> Map<Seq<char>, APITokenDataView> {
    Map::new(
        |key: Seq<char>| has_key(entries, key),
        |key: Seq<char>| entries[place_of(entries, key)].1,
    )
}

/// The entries after `entry` came in: in the place of the entry that had its
/// key, or else at the end.
pub open spec fn with_entry(entries: Seq<EntryView>, entry: EntryView) -> Seq<EntryView> {
    if has_key(entries, entry.0) {
        entries.update(place_of(entries, entry.0), entry)
    } else {
        entries.push(entry)
    }
}

/// An entry that comes in leaves no key twice, and the map that the entries
/// make is the old one with the entry's key set to its token.
pub proof fn lemma_with_entry(entries: Seq<EntryView>, entry: EntryView)
    requires
        distinct_keys(entries),
    ensures
        distinct_keys(with_entry(entries, entry)),
        as_map(with_entry(entries, entry)) == as_map(entries).insert(entry.0, entry.1),
        with_entry(entries, entry).len() >= entries.len(),
        with_entry(entries, entry).len() <= entries.len() + 1,
{
    let after = with_entry(entries, entry);
    let at = if has_key(entries, entry.0) {
        place_of(entries, entry.0)
    } else {
        entries.len() as int
    };
    assert(after[at] == entry);
    assert forall|i: int| 0 <= i < after.len() && i != at implies after[i] == entries[i]
        && after[i].0 != entry.0 by {
        if after[i].0 == entry.0 {
            assert(entries[i].0 == entry.0);
        }
    }
    assert(has_key(after, entry.0));
    assert forall|key: Seq<char>| has_key(after, key) <==> (key == entry.0 || has_key(
        entries,
        key,
    )) by {
        if has_key(after, key) && key != entry.0 {
            let i = place_of(after, key);
            assert(entries[i].0 == key);
        }
        if has_key(entries, key) && key != entry.0 {
            let i = place_of(entries, key);
            assert(after[i].0 == key);
        }
    }
    assert forall|key: Seq<char>| has_key(after, key) implies #[trigger] as_map(after)[key]
        == as_map(entries).insert(entry.0, entry.1)[key] by {
        let i = place_of(after, key);
        if key == entry.0 {
            assert(i == at);
        } else {
            assert(entries[i].0 == key);
            let j = place_of(entries, key);
            assert(i == j);
        }
    }
    assert(as_map(after) =~= as_map(entries).insert(entry.0, entry.1));
}

/// The pool that results when the entries come in one after the other.
pub open spec fn pool_of(made: Seq<EntryView>) -> Seq<EntryView>
    decreases made.len(),
{
    if made.len() == 0 {
        Seq::empty()
    } else {
        with_entry(pool_of(made.drop_last()), made.last())
    }
}

/// However the entries come in, the pool has no key twice and no more entries
/// than came in, and it is empty only where none came in.
pub proof fn lemma_pool_of_keeps_keys_distinct(made: Seq<EntryView>)
    ensures
        distinct_keys(pool_of(made)),
        pool_of(made).len() <= made.len(),
        made.len() > 0 ==> pool_of(made).len() > 0,
    decreases made.len(),
{
    if made.len() > 0 {
        lemma_pool_of_keeps_keys_distinct(made.drop_last());
        lemma_with_entry(pool_of(made.drop_last()), made.last());
    }
}

/// Where no two of the entries that come in share a key, the pool holds them
/// all, as they came.
pub proof fn lemma_distinct_entries_all_stay(made: Seq<EntryView>)
    requires
        distinct_keys(made),
    ensures
        pool_of(made) == made,
    decreases made.len(),
{
    if made.len() > 0 {
        let before = made.drop_last();
        lemma_distinct_entries_all_stay(before);
        if has_key(before, made.last().0) {
            let i = place_of(before, made.last().0);
            assert(made[i].0 == made[made.len() - 1].0);
        }
        assert(before.push(made.last()) =~= made);
    }
}

/// A collection of tokens, each under its key.
#[derive(Debug)]
pub struct TokenPool {
    entries: Vec<(String, APITokenData)>,
}

impl View for TokenPool {
    type V = Map<Seq<char>, APITokenDataView>;

    open spec fn view(&self) -> Map<Seq<char>, APITokenDataView> {
        as_map(self.order())
    }
}

impl TokenPool {
    #[verifier::type_invariant]
    spec fn keeps_keys_distinct(self) -> bool {
        distinct_keys(self.order())
    }

    /// The entries in the order in which their keys first came in.
    pub closed spec fn order(&self) -> Seq<EntryView> {
        Seq::new(self.entries@.len(), |i: int| (self.entries@[i].0@, self.entries@[i].1@))
    }

    /// The empty pool.
    pub fn new() -> (pool: TokenPool)
        ensures
            pool.order() == Seq::<EntryView>::empty(),
            pool@ == Map::<Seq<char>, APITokenDataView>::empty(),
    {
        let pool = TokenPool { entries: Vec::new() };
        assert(pool.order() =~= Seq::<EntryView>::empty());
        assert(pool@ =~= Map::<Seq<char>, APITokenDataView>::empty());
        pool
    }

    /// The number of entries.
    pub fn len(&self) -> (count: usize)
        ensures
            count == self.order().len(),
    {
        self.entries.len()
    }

    /// Whether the pool has no entry.
    pub fn is_empty(&self) -> (empty: bool)
        ensures
            empty == (self.order().len() == 0),
    {
        self.entries.len() == 0
    }

    /// The place of the entry with the given key.
    fn position(&self, key: &String) -> (found: Option<usize>)
        ensures
            found is Some <==> has_key(self.order(), key@),
            found matches Some(i) ==> i < self.order().len() && i == place_of(
                self.order(),
                key@,
            ),
    {
        proof {
            use_type_invariant(self);
        }
        let mut i: usize = 0;
        while i < self.entries.len()
            invariant
                i <= self.entries.len(),
                distinct_keys(self.order()),
                forall|j: int| 0 <= j < i ==> (#[trigger] self.order()[j]).0 != key@,
            decreases self.entries.len() - i,
        {
            if self.entries[i].0 == *key {
                assert(self.order()[i as int].0 == key@);
                return Some(i);
            }
            i += 1;
        }
        None
    }

    /// Puts a token under a key. A token that stood under the key is replaced.
    pub fn insert(&mut self, key: String, token: APITokenData)
        ensures
            final(self).order() == with_entry(old(self).order(), (key@, token@)),
            final(self)@ == old(self)@.insert(key@, token@),
            distinct_keys(final(self).order()),
    {
        let ghost before = self.order();
        proof {
            use_type_invariant(&*self);
            lemma_with_entry(before, (key@, token@));
        }
        let found = self.position(&key);
        let mut entries: Vec<(String, APITokenData)> = Vec::new();
        core::mem::swap(&mut self.entries, &mut entries);
        match found {
            Some(i) => {
                entries.set(i, (key, token));
            },
            None => {
                entries.push((key, token));
            },
        }
        assert(Seq::new(entries@.len(), |i: int| (entries@[i].0@, entries@[i].1@)) =~= with_entry(
            before,
            (key@, token@),
        ));
        core::mem::swap(&mut self.entries, &mut entries);
    }

    /// The token under a key.
    pub fn get(&self, key: &str) -> (found: Option<&APITokenData>)
        ensures
            found is Some <==> self@.contains_key(key@),
            found matches Some(token) ==> token@ == self@[key@],
    {
        match self.position(&key.to_owned()) {
            Some(i) => Some(&self.entries[i].1),
            None => None,
        }
    }

    /// The entry that came in first.
    pub fn first(&self) -> (found: Option<(&String, &APITokenData)>)
        ensures
            found is Some <==> self.order().len() > 0,
            found matches Some(entry) ==> (entry.0@, entry.1@) == self.order()[0],
    {
        if self.entries.len() == 0 {
            None
        } else {
            Some((&self.entries[0].0, &self.entries[0].1))
        }
    }

    /// A copy of every entry, in order.
    pub fn entries(&self) -> (copy: Vec<(String, APITokenData)>)
        ensures
            copy.len() == self.order().len(),
            forall|i: int| 0 <= i < copy.len() ==> (copy[i].0@, copy[i].1@) == self.order()[i],
    {
        let mut copy: Vec<(String, APITokenData)> = Vec::new();
        for i in 0..self.entries.len()
            invariant
                copy.len() == i,
                forall|j: int| 0 <= j < i ==> (copy[j].0@, copy[j].1@) == self.order()[j],
        {
            copy.push((self.entries[i].0.clone(), self.entries[i].1.clone()));
        }
        copy
    }
}

impl Clone for TokenPool {
    fn clone(&self) -> (copy: Self)
        ensures
            copy.order() == self.order(),
            copy@ == self@,
    {
        proof {
            use_type_invariant(self);
        }
        let entries = self.entries();
        assert(Seq::new(entries@.len(), |i: int| (entries@[i].0@, entries@[i].1@))
            =~= self.order());
        TokenPool { entries }
    }
}

} // verus!
