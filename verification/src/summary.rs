//! A small map from text keys to amounts that remembers the order in which
//! its keys first came in.

use vstd::prelude::*;

verus! {

/// The entries of a summary as mathematics: each key with its amount.
pub type Entries = Seq<(Seq<char>, int)>;

/// No key occurs twice.
pub open spec fn distinct_keys(entries: Entries) -> bool {
    forall|i: int, j: int|
        0 <= i < entries.len() && 0 <= j < entries.len() && i != j ==> (#[trigger] entries[i]).0
            != (#[trigger] entries[j]).0
}

/// Some entry has the key `key`.
pub open spec fn has_key(entries: Entries, key: Seq<char>) -> bool {
    exists|i: int| 0 <= i < entries.len() && (#[trigger] entries[i]).0 == key
}

/// The place of an entry with the key `key`, if there is one.
pub open spec fn place_of(entries: Entries, key: Seq<char>) -> int {
    choose|i: int| 0 <= i < entries.len() && (#[trigger] entries[i]).0 == key
}

/// The amount that `entries` gives for `key`; zero for a key that is absent.
pub open spec fn amount_of(entries: Entries, key: Seq<char>) -> int {
    if has_key(entries, key) {
        entries[place_of(entries, key)].1
    } else {
        0
    }
}

/// The mapping that `entries` stands for.
pub open spec fn mapping_of(entries: Entries) -> Map<Seq<char>, int> {
    Map::new(|key: Seq<char>| has_key(entries, key), |key: Seq<char>| amount_of(entries, key))
}

/// The sum of all amounts in `entries`.
pub open spec fn sum_of(entries: Entries) -> int
    decreases entries.len(),
{
    if entries.len() == 0 {
        0
    } else {
        sum_of(entries.drop_last()) + entries.last().1
    }
}

/// `entries` after `amount` is added under `key`: a key that is present keeps
/// its place and its amount grows; a new key goes to the end, starting from zero.
pub open spec fn with_added(entries: Entries, key: Seq<char>, amount: int) -> Entries {
    if has_key(entries, key) {
        let i = place_of(entries, key);
        entries.update(i, (key, entries[i].1 + amount))
    } else {
        entries.push((key, amount))
    }
}

/// `entries` after `key` is set to `amount`: a key that is present keeps its
/// place; a new key goes to the end.
pub open spec fn with_set(entries: Entries, key: Seq<char>, amount: int) -> Entries {
    if has_key(entries, key) {
        entries.update(place_of(entries, key), (key, amount))
    } else {
        entries.push((key, amount))
    }
}

/// Replacing one amount changes the sum by the difference.
pub proof fn lemma_sum_update(entries: Entries, i: int, key: Seq<char>, amount: int)
    requires
        0 <= i < entries.len(),
    ensures
        sum_of(entries.update(i, (key, amount))) == sum_of(entries) - entries[i].1 + amount,
    decreases entries.len(),
{
    let updated = entries.update(i, (key, amount));
    if i == entries.len() - 1 {
        assert(updated.drop_last() =~= entries.drop_last());
    } else {
        lemma_sum_update(entries.drop_last(), i, key, amount);
        assert(updated.drop_last() =~= entries.drop_last().update(i, (key, amount)));
    }
}

/// One more entry adds its amount to the sum.
pub proof fn lemma_sum_push(entries: Entries, key: Seq<char>, amount: int)
    ensures
        sum_of(entries.push((key, amount))) == sum_of(entries) + amount,
{
    assert(entries.push((key, amount)).drop_last() =~= entries);
}

/// Adding under a key keeps the keys distinct, adds the amount to that key's
/// amount, leaves every other key as it was, and adds the amount to the sum.
pub proof fn lemma_with_added(entries: Entries, key: Seq<char>, amount: int)
    requires
        distinct_keys(entries),
    ensures
        distinct_keys(with_added(entries, key, amount)),
        mapping_of(with_added(entries, key, amount)) == mapping_of(entries).insert(
            key,
            amount_of(entries, key) + amount,
        ),
        sum_of(with_added(entries, key, amount)) == sum_of(entries) + amount,
{
    let after = with_added(entries, key, amount);
    if has_key(entries, key) {
        let i = place_of(entries, key);
        lemma_sum_update(entries, i, key, entries[i].1 + amount);
        assert forall|k: Seq<char>| has_key(after, k) == has_key(entries, k) by {
            if has_key(entries, k) {
                let j = place_of(entries, k);
                assert(after[j].0 == k);
            }
            if has_key(after, k) {
                let j = place_of(after, k);
                assert(entries[j].0 == k);
            }
        }
        assert forall|k: Seq<char>| has_key(after, k) implies amount_of(after, k) == (if k
            == key {
            amount_of(entries, key) + amount
        } else {
            amount_of(entries, k)
        }) by {
            let j = place_of(after, k);
            let j0 = place_of(entries, k);
            assert(entries[j].0 == k);
            assert(j == j0);
        }
    } else {
        lemma_sum_push(entries, key, amount);
        assert(after[entries.len() as int].0 == key);
        assert forall|k: Seq<char>| has_key(after, k) == (k == key || has_key(entries, k)) by {
            if has_key(entries, k) {
                let j = place_of(entries, k);
                assert(after[j].0 == k);
            }
            if has_key(after, k) {
                let j = place_of(after, k);
                if j < entries.len() {
                    assert(entries[j].0 == k);
                }
            }
        }
        assert forall|k: Seq<char>| has_key(after, k) implies amount_of(after, k) == (if k
            == key {
            amount
        } else {
            amount_of(entries, k)
        }) by {
            let j = place_of(after, k);
            if k != key {
                assert(entries[j].0 == k);
                assert(j == place_of(entries, k));
            }
        }
    }
    assert(mapping_of(after) =~= mapping_of(entries).insert(key, amount_of(entries, key) + amount));
}

/// Setting a key is adding the difference to what it had.
pub proof fn lemma_with_set(entries: Entries, key: Seq<char>, amount: int)
    requires
        distinct_keys(entries),
    ensures
        with_set(entries, key, amount) == with_added(
            entries,
            key,
            amount - amount_of(entries, key),
        ),
        distinct_keys(with_set(entries, key, amount)),
        mapping_of(with_set(entries, key, amount)) == mapping_of(entries).insert(key, amount),
{
    lemma_with_added(entries, key, amount - amount_of(entries, key));
}

/// A mapping from text keys to amounts in which every key occurs once. It
/// keeps its keys in the order in which they first came in.
#[derive(Debug)]
pub struct Summary {
    entries: Vec<(String, i128)>,
}

impl View for Summary {
    type V = Map<Seq<char>, int>;

    /// The mapping from each key to its amount.
    open spec fn view(&self) -> Map<Seq<char>, int> {
        mapping_of(self.entries())
    }
}

/// What a list of pairs holds, as entries.
pub open spec fn entries_in(stored: Seq<(String, i128)>) -> Entries {
    Seq::new(stored.len(), |i: int| (stored[i].0@, stored[i].1 as int))
}

impl Clone for Summary {
    fn clone(&self) -> (copy: Summary)
        ensures
            copy.entries() == self.entries(),
    {
        proof {
            use_type_invariant(self);
        }
        Summary { entries: self.pairs() }
    }
}

impl Summary {
    /// The entries, in the order in which their keys first came in.
    pub closed spec fn entries(&self) -> Entries {
        entries_in(self.entries@)
    }

    /// Every key occurs once.
    #[verifier::type_invariant]
    pub open spec fn well_formed(&self) -> bool {
        distinct_keys(self.entries())
    }

    /// The sum of all amounts.
    pub open spec fn total(&self) -> int {
        sum_of(self.entries())
    }

    /// A summary without entries.
    pub fn new() -> (summary: Summary)
        ensures
            summary.entries() == Entries::empty(),
    {
        let summary = Summary { entries: Vec::new() };
        assert(summary.entries() =~= Entries::empty());
        summary
    }

    /// The number of keys.
    pub fn len(&self) -> (n: usize)
        ensures
            n == self.entries().len(),
    {
        self.entries.len()
    }

    /// The place of `key` among the entries.
    fn find(&self, key: &String) -> (place: Option<usize>)
        ensures
            match place {
                Some(i) => has_key(self.entries(), key@) && i == place_of(self.entries(), key@),
                None => !has_key(self.entries(), key@),
            },
    {
        proof {
            use_type_invariant(self);
        }
        let mut i: usize = 0;
        while i < self.entries.len()
            invariant
                i <= self.entries@.len(),
                distinct_keys(self.entries()),
                forall|j: int| 0 <= j < i ==> (#[trigger] self.entries()[j]).0 != key@,
            decreases self.entries@.len() - i,
        {
            if self.entries[i].0 == *key {
                proof {
                    let found = self.entries()[i as int];
                    assert(found.0 == key@);
                    let chosen = self.entries()[place_of(self.entries(), key@)];
                    assert(chosen.0 == key@);
                }
                return Some(i);
            }
            i += 1;
        }
        None
    }

    /// The amount under `key`, if the key is present.
    pub fn get(&self, key: &str) -> (amount: Option<i128>)
        ensures
            match amount {
                Some(a) => self@.contains_key(key@) && self@[key@] == a,
                None => !self@.contains_key(key@),
            },
    {
        let owned = key.to_owned();
        match self.find(&owned) {
            Some(i) => Some(self.entries[i].1),
            None => None,
        }
    }

    /// Puts `amount` under `key`, whose place `place` was found before. The
    /// list is taken out while it changes and put back whole, so that the
    /// summary holds distinct keys at every moment.
    fn store(&mut self, place: Option<usize>, key: String, amount: i128)
        requires
            match place {
                Some(i) => has_key(old(self).entries(), key@) && i == place_of(
                    old(self).entries(),
                    key@,
                ),
                None => !has_key(old(self).entries(), key@),
            },
        ensures
            final(self).entries() == with_set(old(self).entries(), key@, amount as int),
    {
        proof {
            use_type_invariant(&*self);
            lemma_with_set(self.entries(), key@, amount as int);
        }
        let mut stored: Vec<(String, i128)> = Vec::new();
        assert(entries_in(stored@) =~= Entries::empty());
        core::mem::swap(&mut self.entries, &mut stored);
        match place {
            Some(i) => stored.set(i, (key, amount)),
            None => stored.push((key, amount)),
        }
        assert(entries_in(stored@) =~= with_set(old(self).entries(), key@, amount as int));
        core::mem::swap(&mut self.entries, &mut stored);
    }

    /// Sets the amount under `key` and returns the amount that the key had.
    /// A key that is absent goes to the end; a key that is present keeps its
    /// place.
    pub fn insert(&mut self, key: String, amount: i128) -> (previous: Option<i128>)
        ensures
            final(self).entries() == with_set(old(self).entries(), key@, amount as int),
            final(self)@ == old(self)@.insert(key@, amount as int),
            match previous {
                Some(a) => old(self)@.contains_key(key@) && old(self)@[key@] == a,
                None => !old(self)@.contains_key(key@),
            },
    {
        proof {
            use_type_invariant(&*self);
            lemma_with_set(self.entries(), key@, amount as int);
        }
        let place = self.find(&key);
        let previous = match place {
            Some(i) => Some(self.entries[i].1),
            None => None,
        };
        self.store(place, key, amount);
        previous
    }

    /// The entries as pairs, in the order in which their keys first came in.
    pub fn pairs(&self) -> (pairs: Vec<(String, i128)>)
        ensures
            entries_in(pairs@) == self.entries(),
    {
        let mut pairs: Vec<(String, i128)> = Vec::new();
        let mut i: usize = 0;
        while i < self.entries.len()
            invariant
                i <= self.entries@.len(),
                pairs@.len() == i,
                forall|j: int|
                    0 <= j < i ==> (#[trigger] pairs@[j]).0@ == self.entries@[j].0@ && pairs@[j].1
                        == self.entries@[j].1,
            decreases self.entries@.len() - i,
        {
            pairs.push((self.entries[i].0.clone(), self.entries[i].1));
            i += 1;
        }
        assert(entries_in(pairs@) =~= self.entries());
        pairs
    }

    /// Adds `amount` under `key`. A key that is absent starts from zero and
    /// goes to the end; a key that is present keeps its place.
    pub fn add(&mut self, key: String, amount: i128)
        requires
            i128::MIN <= amount_of(old(self).entries(), key@) + amount <= i128::MAX,
        ensures
            final(self).entries() == with_added(old(self).entries(), key@, amount as int),
            final(self)@ == old(self)@.insert(
                key@,
                amount_of(old(self).entries(), key@) + amount,
            ),
            final(self).total() == old(self).total() + amount,
    {
        proof {
            use_type_invariant(&*self);
            lemma_with_added(self.entries(), key@, amount as int);
            lemma_with_set(
                self.entries(),
                key@,
                amount_of(self.entries(), key@) + amount,
            );
        }
        let place = self.find(&key);
        let sum = match place {
            Some(i) => self.entries[i].1 + amount,
            None => amount,
        };
        self.store(place, key, sum);
    }
}

} // verus!
