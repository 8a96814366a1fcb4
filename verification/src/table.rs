use vstd::prelude::*;

use crate::address::Address;

verus! {

/// An association table keyed by 32-byte addresses: the model of the ledger's
/// store for one kind of account record. A well-formed table holds at most one
/// entry per address, so it denotes a finite map from address bytes to record
/// views.
pub struct Table<V> {
    pub entries: Vec<(Address, V)>,
}

/// The finite map that a sequence of entries denotes. A later entry for the
/// same key would shadow an earlier one; well-formedness rules shadowing out.
pub open spec fn map_of<V: View>(s: Seq<(Address, V)>) -> Map<Seq<u8>, V::V>
    decreases s.len(),
{
    if s.len() == 0 {
        Map::empty()
    } else {
        map_of(s.drop_last()).insert(s.last().0@, s.last().1@)
    }
}

/// A key is in the denoted map exactly when some entry carries it.
pub proof fn lemma_map_of_contains<V: View>(s: Seq<(Address, V)>, key: Seq<u8>)
    ensures
        map_of(s).contains_key(key) <==> exists|i: int| 0 <= i < s.len() && s[i].0@ == key,
    decreases s.len(),
{
    if s.len() > 0 {
        lemma_map_of_contains(s.drop_last(), key);
        if s.last().0@ != key && map_of(s).contains_key(key) {
            let i = choose|i: int| 0 <= i < s.drop_last().len() && s.drop_last()[i].0@ == key;
            assert(s[i].0@ == key);
        }
        if exists|i: int| 0 <= i < s.len() && s[i].0@ == key {
            let i = choose|i: int| 0 <= i < s.len() && s[i].0@ == key;
            if i < s.len() - 1 {
                assert(s.drop_last()[i].0@ == key);
            }
        }
    }
}

/// The denoted map sends a key to the value of its last matching entry.
pub proof fn lemma_map_of_index<V: View>(s: Seq<(Address, V)>, i: int, key: Seq<u8>)
    requires
        0 <= i < s.len(),
        s[i].0@ == key,
        forall|j: int| i < j < s.len() ==> s[j].0@ != key,
    ensures
        map_of(s).contains_key(key),
        map_of(s)[key] == s[i].1@,
    decreases s.len(),
{
    if i == s.len() - 1 {
    } else {
        assert(s.drop_last()[i] == s[i]);
        lemma_map_of_index(s.drop_last(), i, key);
    }
}

impl<V: View> View for Table<V> {
    type V = Map<Seq<u8>, V::V>;

    open spec fn view(&self) -> Map<Seq<u8>, V::V> {
        map_of(self.entries@)
    }
}

impl<V: View> Table<V> {
    /// No two entries carry the same address.
    pub open spec fn wf(self) -> bool {
        forall|i: int, j: int|
            0 <= i < j < self.entries@.len() ==> self.entries@[i].0@ != self.entries@[j].0@
    }

    pub fn empty() -> (r: Table<V>)
        ensures
            r.wf(),
            r@ == Map::<Seq<u8>, V::V>::empty(),
            r.entries@.len() == 0,
    {
        Table { entries: Vec::new() }
    }

    /// The index of the entry for `key`, if the table holds one.
    pub fn index_of(&self, key: &Address) -> (r: Option<usize>)
        requires
            self.wf(),
        ensures
            match r {
                Some(i) => {
                    &&& i < self.entries@.len()
                    &&& self.entries@[i as int].0@ == key@
                    &&& self@.contains_key(key@)
                    &&& self@[key@] == self.entries@[i as int].1@
                },
                None => !self@.contains_key(key@),
            },
    {
        let n = self.entries.len();
        let mut i: usize = 0;
        while i < n
            invariant
                n == self.entries@.len(),
                i <= n,
                self.wf(),
                forall|j: int| 0 <= j < i ==> self.entries@[j].0@ != key@,
            decreases n - i,
        {
            if self.entries[i].0.same(key) {
                proof {
                    lemma_map_of_index(self.entries@, i as int, key@);
                }
                return Some(i);
            }
            i = i + 1;
        }
        proof {
            lemma_map_of_contains(self.entries@, key@);
        }
        None
    }

    pub fn contains(&self, key: &Address) -> (r: bool)
        requires
            self.wf(),
        ensures
            r <==> self@.contains_key(key@),
    {
        self.index_of(key).is_some()
    }

    /// Adds an entry for an address the table does not hold yet.
    pub fn insert(&mut self, key: Address, value: V)
        requires
            old(self).wf(),
            !old(self)@.contains_key(key@),
        ensures
            final(self).wf(),
            final(self)@ == old(self)@.insert(key@, value@),
            final(self).entries@ == old(self).entries@.push((key, value)),
    {
        proof {
            lemma_map_of_contains(self.entries@, key@);
        }
        self.entries.push((key, value));
        proof {
            assert(self.entries@.drop_last() =~= old(self).entries@);
        }
    }

    /// Replaces the value of the entry at index `i`, keeping its address.
    pub fn update_value(&mut self, i: usize, value: V)
        requires
            old(self).wf(),
            i < old(self).entries@.len(),
        ensures
            final(self).wf(),
            final(self)@ == old(self)@.insert(old(self).entries@[i as int].0@, value@),
            final(self).entries@ == old(self).entries@.update(
                i as int,
                (old(self).entries@[i as int].0, value),
            ),
    {
        let key = self.entries[i].0;
        self.entries[i] = (key, value);
        proof {
            lemma_map_of_update(old(self).entries@, i as int, value);
        }
    }
}

/// The amount a table of balances holds under a key, zero when the key is
/// absent.
pub open spec fn amount_or_zero(m: Map<Seq<u8>, u64>, key: Seq<u8>) -> u64 {
    if m.contains_key(key) {
        m[key]
    } else {
        0
    }
}

impl Table<u64> {
    /// Credits `amount` to `key`, creating the entry when absent.
    pub fn add_to(&mut self, key: &Address, amount: u64)
        requires
            old(self).wf(),
            amount_or_zero(old(self)@, key@) + amount <= u64::MAX,
        ensures
            final(self).wf(),
            final(self)@ == old(self)@.insert(
                key@,
                (amount_or_zero(old(self)@, key@) + amount) as u64,
            ),
    {
        match self.index_of(key) {
            Some(i) => {
                let cur = self.entries[i].1;
                self.update_value(i, cur + amount);
            },
            None => {
                self.insert(*key, amount);
            },
        }
    }

    /// Debits `amount` from `key` when the held balance covers it; reports
    /// whether it did, and changes nothing otherwise.
    pub fn take_from(&mut self, key: &Address, amount: u64) -> (r: bool)
        requires
            old(self).wf(),
            amount > 0,
        ensures
            final(self).wf(),
            r <==> amount_or_zero(old(self)@, key@) >= amount,
            r ==> final(self)@ == old(self)@.insert(
                key@,
                (amount_or_zero(old(self)@, key@) - amount) as u64,
            ),
            !r ==> *final(self) == *old(self),
    {
        match self.index_of(key) {
            Some(i) => {
                let cur = self.entries[i].1;
                if cur < amount {
                    return false;
                }
                self.update_value(i, cur - amount);
                true
            },
            None => false,
        }
    }
}

/// Replacing the value at the (unique) entry for a key updates the denoted
/// map at that key and nothing else.
proof fn lemma_map_of_update<V: View>(s: Seq<(Address, V)>, i: int, value: V)
    requires
        0 <= i < s.len(),
        forall|p: int, q: int| 0 <= p < q < s.len() ==> s[p].0@ != s[q].0@,
    ensures
        map_of(s.update(i, (s[i].0, value))) == map_of(s).insert(s[i].0@, value@),
    decreases s.len(),
{
    let t = s.update(i, (s[i].0, value));
    if i == s.len() - 1 {
        assert(t.drop_last() =~= s.drop_last());
        assert(map_of(t) =~= map_of(s).insert(s[i].0@, value@));
    } else {
        assert(t.drop_last() =~= s.drop_last().update(i, (s[i].0, value)));
        lemma_map_of_update(s.drop_last(), i, value);
        assert(s.drop_last()[i] == s[i]);
        assert(t.last() == s.last());
        assert(map_of(t) == map_of(s.drop_last()).insert(s[i].0@, value@).insert(s.last().0@, s.last().1@));
        assert(map_of(t) =~= map_of(s).insert(s[i].0@, value@));
    }
}

} // verus!
