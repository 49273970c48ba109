//! Lookup results kept for the life of the process, keyed by text.

use vstd::prelude::*;
use crate::text::same_text;

verus! {

/// A memo of results by key. Entries are only added, and a key is stored
/// once; nothing is ever invalidated.
pub struct MemoCache<V> {
    pub entries: Vec<(String, V)>,
}

/// The value stored under `key`, if any.
pub open spec fn memo_lookup<V>(entries: Seq<(String, V)>, key: Seq<char>) -> Option<V>
    decreases entries.len(),
{
    if entries.len() == 0 {
        None
    } else if entries[0].0@ == key {
        Some(entries[0].1)
    } else {
        memo_lookup(entries.drop_first(), key)
    }
}

/// The entries after `value` is recorded for `key`: a key that is already
/// stored keeps its value.
pub open spec fn memo_recorded<V>(entries: Seq<(String, V)>, key: String, value: V) -> Seq<(String, V)> {
    if memo_lookup(entries, key@) is Some {
        entries
    } else {
        entries.push((key, value))
    }
}

/// No key is stored twice.
pub open spec fn memo_keys_unique<V>(entries: Seq<(String, V)>) -> bool {
    forall|i: int, j: int| 0 <= i < j < entries.len() ==> (#[trigger] entries[i]).0@ != (#[trigger] entries[j]).0@
}

/// A key that a lookup misses is stored nowhere.
pub proof fn lemma_lookup_absent<V>(entries: Seq<(String, V)>, key: Seq<char>)
    requires
        memo_lookup(entries, key) is None,
    ensures
        forall|i: int| 0 <= i < entries.len() ==> (#[trigger] entries[i]).0@ != key,
    decreases entries.len(),
{
    if entries.len() > 0 {
        lemma_lookup_absent(entries.drop_first(), key);
        assert forall|i: int| 0 <= i < entries.len() implies (#[trigger] entries[i]).0@ != key by {
            if i > 0 {
                assert(entries[i] == entries.drop_first()[i - 1]);
            }
        }
    }
}

/// A lookup that hits finds an entry stored under the key.
pub proof fn lemma_lookup_found<V>(entries: Seq<(String, V)>, key: Seq<char>)
    requires
        memo_lookup(entries, key) is Some,
    ensures
        exists|i: int|
            0 <= i < entries.len() && (#[trigger] entries[i]).0@ == key && memo_lookup(entries, key) == Some(
                entries[i].1,
            ),
    decreases entries.len(),
{
    if entries[0].0@ == key {
        assert(entries[0].0@ == key);
    } else {
        lemma_lookup_found(entries.drop_first(), key);
        let i = choose|i: int|
            0 <= i < entries.drop_first().len() && (#[trigger] entries.drop_first()[i]).0@ == key
                && memo_lookup(entries.drop_first(), key) == Some(entries.drop_first()[i].1);
        assert(entries[i + 1] == entries.drop_first()[i]);
    }
}

proof fn lemma_lookup_push<V>(entries: Seq<(String, V)>, e: (String, V), key: Seq<char>)
    ensures
        memo_lookup(entries.push(e), key) == if memo_lookup(entries, key) is Some {
            memo_lookup(entries, key)
        } else if e.0@ == key {
            Some(e.1)
        } else {
            None
        },
    decreases entries.len(),
{
    if entries.len() > 0 {
        assert(entries.push(e)[0] == entries[0]);
        assert(entries.push(e).drop_first() =~= entries.drop_first().push(e));
        lemma_lookup_push(entries.drop_first(), e, key);
    } else {
        assert(entries.push(e)[0] == e);
        assert(entries.push(e).drop_first() =~= Seq::<(String, V)>::empty());
        assert(memo_lookup(Seq::<(String, V)>::empty(), key) is None);
    }
}

/// A value recorded for a key is what the next lookup of that key finds,
/// so a second resolution of a key is answered from the cache; recording
/// leaves every other key as it was, and a key already stored keeps its
/// first value.
pub proof fn lemma_memo_idempotent<V>(entries: Seq<(String, V)>, key: String, value: V, other: Seq<char>)
    ensures
        memo_lookup(entries, key@) is None ==> memo_lookup(memo_recorded(entries, key, value), key@)
            == Some(value),
        memo_lookup(entries, key@) is Some ==> memo_recorded(entries, key, value) == entries,
        other != key@ ==> memo_lookup(memo_recorded(entries, key, value), other) == memo_lookup(
            entries,
            other,
        ),
{
    if memo_lookup(entries, key@) is None {
        lemma_lookup_push(entries, (key, value), key@);
        lemma_lookup_push(entries, (key, value), other);
    }
}

impl<V> MemoCache<V> {
    pub fn new() -> (r: Self)
        ensures
            r.entries@.len() == 0,
    {
        MemoCache { entries: Vec::new() }
    }

    /// The value stored under `key`.
    pub fn lookup(&self, key: &str) -> (r: Option<&V>)
        ensures
            match r {
                Some(v) => memo_lookup(self.entries@, key@) == Some(*v),
                None => memo_lookup(self.entries@, key@) is None,
            },
    {
        let ghost all = self.entries@;
        assert(all.subrange(0, all.len() as int) =~= all);
        let mut i: usize = 0;
        while i < self.entries.len()
            invariant
                all == self.entries@,
                i <= all.len(),
                memo_lookup(all, key@) == memo_lookup(all.subrange(i as int, all.len() as int), key@),
            decreases all.len() - i,
        {
            if same_text(self.entries[i].0.as_str(), key) {
                return Some(&self.entries[i].1);
            }
            assert(all.subrange(i as int, all.len() as int).drop_first() =~= all.subrange(
                i + 1,
                all.len() as int,
            ));
            i = i + 1;
        }
        None
    }

    /// Stores `value` under `key` unless the key is stored already.
    pub fn record(&mut self, key: String, value: V)
        ensures
            final(self).entries@ == memo_recorded(old(self).entries@, key, value),
            memo_keys_unique(old(self).entries@) ==> memo_keys_unique(final(self).entries@),
            memo_lookup(final(self).entries@, key@) == Some(
                match memo_lookup(old(self).entries@, key@) {
                    Some(v) => v,
                    None => value,
                },
            ),
            forall|other: Seq<char>|
                other != key@ ==> memo_lookup(final(self).entries@, other) == memo_lookup(
                    old(self).entries@,
                    other,
                ),
    {
        let found = match self.lookup(key.as_str()) {
            Some(_) => true,
            None => false,
        };
        if !found {
            let k = key;
            let ghost before = self.entries@;
            self.entries.push((k, value));
            proof {
                lemma_lookup_absent(before, k@);
                assert forall|i: int, j: int| 0 <= i < j < self.entries@.len() && memo_keys_unique(before)
                    implies (#[trigger] self.entries@[i]).0@ != (#[trigger] self.entries@[j]).0@ by {
                    assert(self.entries@[i] == before[i]);
                    if j < before.len() {
                        assert(self.entries@[j] == before[j]);
                    }
                }
                assert forall|other: Seq<char>| #[trigger] memo_lookup(self.entries@, other) == (if memo_lookup(before, other) is Some {
                    memo_lookup(before, other)
                } else if k@ == other {
                    Some(value)
                } else {
                    None
                }) by {
                    lemma_lookup_push(before, (k, value), other);
                }
            }
        }
    }
}

} // verus!
