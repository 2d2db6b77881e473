//! Per-address tables: the contract's fee schedule, accruals and address lists.

use vstd::prelude::*;
use crate::types::{AccountId, Balance};

verus! {

/// The amount that `map` holds for `key`, zero where it holds none.
pub open spec fn amount_at(map: Map<AccountId, Balance>, key: AccountId) -> Balance {
    if map.dom().contains(key) {
        map[key]
    } else {
        0
    }
}

/// Whether the entry at `i` is the first one for `key`: that one counts.
spec fn first_at(entries: Seq<(AccountId, Balance)>, key: AccountId, i: int) -> bool {
    &&& 0 <= i < entries.len()
    &&& entries[i].0 == key
    &&& forall|j: int| 0 <= j < i ==> (#[trigger] entries[j]).0 != key
}

spec fn present(entries: Seq<(AccountId, Balance)>, key: AccountId) -> bool {
    exists|i: int| first_at(entries, key, i)
}

spec fn slot(entries: Seq<(AccountId, Balance)>, key: AccountId) -> int {
    choose|i: int| first_at(entries, key, i)
}

spec fn as_map(entries: Seq<(AccountId, Balance)>) -> Map<AccountId, Balance> {
    Map::new(|key: AccountId| present(entries, key), |key: AccountId| entries[slot(entries, key)].1)
}

proof fn lemma_slot(entries: Seq<(AccountId, Balance)>, key: AccountId, i: int)
    requires
        first_at(entries, key, i),
    ensures
        present(entries, key),
        slot(entries, key) == i,
{
}

proof fn lemma_absent(entries: Seq<(AccountId, Balance)>, key: AccountId)
    requires
        forall|j: int| 0 <= j < entries.len() ==> (#[trigger] entries[j]).0 != key,
    ensures
        !present(entries, key),
{
}

/// Replacing the value of the first entry for `key` changes the map at `key` alone.
proof fn lemma_update(entries: Seq<(AccountId, Balance)>, key: AccountId, i: int, value: Balance)
    requires
        first_at(entries, key, i),
    ensures
        as_map(entries.update(i, (key, value))) == as_map(entries).insert(key, value),
{
    let after = entries.update(i, (key, value));
    assert forall|k: AccountId, j: int| first_at(after, k, j) == first_at(entries, k, j) by {
        if first_at(after, k, j) {
            assert forall|m: int| 0 <= m < j implies (#[trigger] entries[m]).0 != k by {
                assert(after[m].0 != k);
            }
        }
    }
    lemma_slot(entries, key, i);
    lemma_slot(after, key, i);
}

/// Appending an entry for an address that has none adds that address alone.
proof fn lemma_push(entries: Seq<(AccountId, Balance)>, key: AccountId, value: Balance)
    requires
        !present(entries, key),
        forall|j: int| 0 <= j < entries.len() ==> (#[trigger] entries[j]).0 != key,
    ensures
        as_map(entries.push((key, value))) == as_map(entries).insert(key, value),
{
    let after = entries.push((key, value));
    let n = entries.len() as int;
    assert forall|k: AccountId, j: int| k != key implies first_at(after, k, j) == first_at(
        entries,
        k,
        j,
    ) by {
        if first_at(after, k, j) {
            assert forall|m: int| 0 <= m < j implies (#[trigger] entries[m]).0 != k by {
                assert(after[m].0 != k);
            }
        }
    }
    lemma_slot(after, key, n);
}

/// A finite map from addresses to amounts. An address without an entry reads as zero.
pub struct AccountMap {
    entries: Vec<(AccountId, Balance)>,
}

impl AccountMap {
    /// The entries as a mathematical map.
    pub closed spec fn view(&self) -> Map<AccountId, Balance> {
        as_map(self.entries@)
    }

    /// The amount recorded for `key`, zero where there is none.
    pub open spec fn value_of(&self, key: AccountId) -> Balance {
        amount_at(self@, key)
    }

    /// An empty map.
    pub fn new() -> (map: AccountMap)
        ensures
            map@ == Map::<AccountId, Balance>::empty(),
    {
        AccountMap { entries: Vec::new() }
    }

    fn find(&self, key: &AccountId) -> (at: Option<usize>)
        ensures
            match at {
                Some(i) => first_at(self.entries@, *key, i as int),
                None => forall|j: int|
                    0 <= j < self.entries@.len() ==> (#[trigger] self.entries@[j]).0 != *key,
            },
    {
        let mut i: usize = 0;
        while i < self.entries.len()
            invariant
                i <= self.entries@.len(),
                forall|k: int| 0 <= k < i ==> (#[trigger] self.entries@[k]).0 != *key,
            decreases self.entries@.len() - i,
        {
            if self.entries[i].0 == *key {
                return Some(i);
            }
            i = i + 1;
        }
        None
    }

    /// The amount recorded for `key`, if there is one.
    pub fn get(&self, key: &AccountId) -> (value: Option<Balance>)
        ensures
            value == (if self@.dom().contains(*key) {
                Some(self@[*key])
            } else {
                None
            }),
    {
        match self.find(key) {
            Some(i) => {
                proof {
                    lemma_slot(self.entries@, *key, i as int);
                }
                Some(self.entries[i].1)
            },
            None => {
                proof {
                    lemma_absent(self.entries@, *key);
                }
                None
            },
        }
    }

    /// The amount recorded for `key`, zero where there is none.
    pub fn get_or_default(&self, key: &AccountId) -> (value: Balance)
        ensures
            value == self.value_of(*key),
    {
        match self.get(key) {
            Some(v) => v,
            None => 0,
        }
    }

    /// Records `value` for `key`, replacing what was recorded before.
    pub fn insert(&mut self, key: AccountId, value: Balance)
        ensures
            final(self)@ == old(self)@.insert(key, value),
    {
        match self.find(&key) {
            Some(i) => {
                proof {
                    lemma_update(self.entries@, key, i as int, value);
                }
                self.entries.set(i, (key, value));
            },
            None => {
                proof {
                    lemma_absent(self.entries@, key);
                    lemma_push(self.entries@, key, value);
                }
                self.entries.push((key, value));
            },
        }
    }

    /// A separate map with the same entries.
    pub fn duplicate(&self) -> (copy: AccountMap)
        ensures
            copy@ == self@,
    {
        let mut entries: Vec<(AccountId, Balance)> = Vec::new();
        let mut i: usize = 0;
        while i < self.entries.len()
            invariant
                i <= self.entries@.len(),
                entries@ == self.entries@.subrange(0, i as int),
            decreases self.entries@.len() - i,
        {
            entries.push(self.entries[i]);
            i = i + 1;
        }
        assert(entries@ == self.entries@);
        AccountMap { entries }
    }
}

/// A finite set of addresses.
pub struct AccountSet {
    members: Vec<AccountId>,
}

impl AccountSet {
    /// The members as a mathematical set.
    pub closed spec fn view(&self) -> Set<AccountId> {
        Set::new(|a: AccountId| self.members@.contains(a))
    }

    /// An empty set.
    pub fn new() -> (set: AccountSet)
        ensures
            set@ == Set::<AccountId>::empty(),
    {
        AccountSet { members: Vec::new() }
    }

    /// Whether `account` is a member.
    pub fn contains(&self, account: &AccountId) -> (found: bool)
        ensures
            found == self@.contains(*account),
    {
        let mut i: usize = 0;
        while i < self.members.len()
            invariant
                i <= self.members@.len(),
                forall|k: int| 0 <= k < i ==> self.members@[k] != *account,
            decreases self.members@.len() - i,
        {
            if self.members[i] == *account {
                return true;
            }
            i = i + 1;
        }
        false
    }

    /// A separate set with the same members.
    pub fn duplicate(&self) -> (copy: AccountSet)
        ensures
            copy@ == self@,
    {
        let mut members: Vec<AccountId> = Vec::new();
        let mut i: usize = 0;
        while i < self.members.len()
            invariant
                i <= self.members@.len(),
                members@ == self.members@.subrange(0, i as int),
            decreases self.members@.len() - i,
        {
            members.push(self.members[i]);
            i = i + 1;
        }
        assert(members@ == self.members@);
        AccountSet { members }
    }

    /// Makes `account` a member.
    pub fn insert(&mut self, account: AccountId)
        ensures
            final(self)@ == old(self)@.insert(account),
    {
        let ghost before = self.members@;
        if !self.contains(&account) {
            self.members.push(account);
            assert forall|a: AccountId| self.members@.contains(a) == (a == account
                || before.contains(a)) by {
                if before.contains(a) {
                    let j = choose|j: int| 0 <= j < before.len() && before[j] == a;
                    assert(self.members@[j] == a);
                }
                if a == account {
                    assert(self.members@[before.len() as int] == a);
                }
            }
        }
    }
}

} // verus!
