//! Per-producer duplicate suppression: the partition-owned table of the
//! last applied sequence number of every deduplication source.

use vstd::prelude::*;

verus! {

use crate::commands::{DeduplicationSource, MessageIndex};
use crate::identifiers::PartitionId;

/// The identity a producer's sequence numbers are tracked under: the
/// sequence number itself is not part of the key.
#[derive(Debug, Clone, PartialEq, Eq)]
pub enum DedupKey {
    /// A shuffle peer, identified by the partition it produces for.
    Shuffle(PartitionId),
    /// An ingress stream, identified by its source id.
    Ingress(String),
}

/// The mathematical identity of a deduplication key.
pub enum DedupKeyModel {
    Shuffle(int),
    Ingress(Seq<char>),
}

/// The identity of an exec key.
pub open spec fn key_model(k: DedupKey) -> DedupKeyModel {
    match k {
        DedupKey::Shuffle(p) => DedupKeyModel::Shuffle(p as int),
        DedupKey::Ingress(s) => DedupKeyModel::Ingress(s@),
    }
}

/// The identity a deduplication source is tracked under.
pub open spec fn source_key_model(s: DeduplicationSource) -> DedupKeyModel {
    match s {
        DeduplicationSource::Shuffle { producing_partition_id, .. } => DedupKeyModel::Shuffle(
            producing_partition_id as int,
        ),
        DeduplicationSource::Ingress { source_id, .. } => DedupKeyModel::Ingress(source_id@),
    }
}

/// One tracked producer: its key and the last applied sequence number.
#[derive(Debug, Clone, PartialEq, Eq)]
pub struct DedupEntry {
    pub key: DedupKey,
    pub seq: MessageIndex,
}

/// The last applied sequence number recorded for `k`, scanning entries
/// from index `from`.
pub open spec fn dedup_lookup_from(s: Seq<DedupEntry>, k: DedupKeyModel, from: int) -> Option<
    MessageIndex,
>
    decreases s.len() - from,
{
    if from < 0 || from >= s.len() {
        None
    } else if key_model(s[from].key) == k {
        Some(s[from].seq)
    } else {
        dedup_lookup_from(s, k, from + 1)
    }
}

/// The last applied sequence number recorded for `k`.
pub open spec fn dedup_lookup(s: Seq<DedupEntry>, k: DedupKeyModel) -> Option<MessageIndex> {
    dedup_lookup_from(s, k, 0)
}

/// Each producer identity appears at most once.
pub open spec fn dedup_keys_unique(s: Seq<DedupEntry>) -> bool {
    forall|i: int, j: int|
        0 <= i < j < s.len() ==> key_model(s[i].key) != key_model(s[j].key)
}

/// A failed lookup from `from` means no entry at or after `from` has the
/// key.
proof fn lemma_lookup_none_no_match(s: Seq<DedupEntry>, k: DedupKeyModel, from: int)
    requires
        0 <= from <= s.len(),
        dedup_lookup_from(s, k, from) is None,
    ensures
        forall|j: int| from <= j < s.len() ==> key_model(#[trigger] s[j].key) != k,
    decreases s.len() - from,
{
    if from < s.len() {
        lemma_lookup_none_no_match(s, k, from + 1);
    }
}

/// Overwriting the entry at `i` with one of the same key changes only
/// that key's recorded sequence number.
proof fn lemma_lookup_update(s: Seq<DedupEntry>, i: int, e: DedupEntry, k: DedupKeyModel, from: int)
    requires
        0 <= i < s.len(),
        key_model(e.key) == key_model(s[i].key),
        dedup_keys_unique(s),
        0 <= from <= s.len(),
    ensures
        from <= i && k == key_model(e.key) ==> dedup_lookup_from(s.update(i, e), k, from) == Some(
            e.seq,
        ),
        k != key_model(e.key) ==> dedup_lookup_from(s.update(i, e), k, from) == dedup_lookup_from(
            s,
            k,
            from,
        ),
    decreases s.len() - from,
{
    let s2 = s.update(i, e);
    if from < s.len() {
        lemma_lookup_update(s, i, e, k, from + 1);
        if from == i {
            assert(s2[from] == e);
        } else {
            assert(s2[from] == s[from]);
        }
    }
}

/// Appending an entry for a key that is absent leaves every other key's
/// record unchanged and records the new one.
proof fn lemma_lookup_push(s: Seq<DedupEntry>, e: DedupEntry, k: DedupKeyModel, from: int)
    requires
        0 <= from <= s.len(),
    ensures
        dedup_lookup_from(s.push(e), k, from) == (match dedup_lookup_from(s, k, from) {
            Some(v) => Some(v),
            None => if k == key_model(e.key) {
                Some(e.seq)
            } else {
                None
            },
        }),
    decreases s.len() - from,
{
    let s2 = s.push(e);
    if from < s.len() {
        assert(s2[from] == s[from]);
        lemma_lookup_push(s, e, k, from + 1);
    } else {
        assert(s2[from] == e);
        assert(dedup_lookup_from(s, k, from) is None);
        if k != key_model(e.key) {
            assert(dedup_lookup_from(s2, k, from + 1) is None);
        }
    }
}

/// The partition-owned table of last applied sequence numbers, one entry
/// per distinct producer identity.
#[derive(Debug, Clone, PartialEq, Eq)]
pub struct DedupTable {
    pub entries: Vec<DedupEntry>,
}

impl DedupTable {
    /// An empty table: no producer has had anything applied.
    pub fn new() -> (r: Self)
        ensures
            r.entries@ =~= Seq::<DedupEntry>::empty(),
            dedup_keys_unique(r.entries@),
    {
        DedupTable { entries: Vec::new() }
    }

    /// The tracked key of a source.
    fn key_of(source: &DeduplicationSource) -> (r: DedupKey)
        ensures
            key_model(r) == source_key_model(*source),
    {
        match source {
            DeduplicationSource::Shuffle { producing_partition_id, .. } => DedupKey::Shuffle(
                *producing_partition_id,
            ),
            DeduplicationSource::Ingress { source_id, .. } => DedupKey::Ingress(source_id.clone()),
        }
    }

    /// Whether two keys carry the same identity.
    fn key_matches(a: &DedupKey, b: &DedupKey) -> (r: bool)
        ensures
            r == (key_model(*a) == key_model(*b)),
    {
        match (a, b) {
            (DedupKey::Shuffle(x), DedupKey::Shuffle(y)) => x == y,
            (DedupKey::Ingress(x), DedupKey::Ingress(y)) => x.eq(y),
            _ => false,
        }
    }

    /// The index of the entry tracking `key`, if one exists.
    fn find(&self, key: &DedupKey) -> (r: Option<usize>)
        ensures
            match r {
                Some(i) => i < self.entries@.len() && key_model(self.entries@[i as int].key)
                    == key_model(*key) && dedup_lookup(self.entries@, key_model(*key)) == Some(
                    self.entries@[i as int].seq,
                ),
                None => dedup_lookup(self.entries@, key_model(*key)) is None,
            },
    {
        let mut i: usize = 0;
        let n = self.entries.len();
        while i < n
            invariant
                0 <= i <= n,
                n == self.entries@.len(),
                dedup_lookup(self.entries@, key_model(*key)) == dedup_lookup_from(
                    self.entries@,
                    key_model(*key),
                    i as int,
                ),
            decreases n - i,
        {
            if Self::key_matches(&self.entries[i].key, key) {
                return Some(i);
            }
            i = i + 1;
        }
        None
    }

    /// The last applied sequence number of `source`'s producer, if any
    /// message of that producer has been applied.
    pub fn get(&self, source: &DeduplicationSource) -> (r: Option<MessageIndex>)
        ensures
            r == dedup_lookup(self.entries@, source_key_model(*source)),
    {
        let key = Self::key_of(source);
        match self.find(&key) {
            Some(i) => Some(self.entries[i].seq),
            None => None,
        }
    }

    /// Records `seq` as the last applied sequence number of `source`'s
    /// producer, leaving every other producer's record unchanged.
    pub fn record(&mut self, source: &DeduplicationSource, seq: MessageIndex)
        requires
            dedup_keys_unique(old(self).entries@),
        ensures
            dedup_keys_unique(final(self).entries@),
            dedup_lookup(final(self).entries@, source_key_model(*source)) == Some(seq),
            forall|k: DedupKeyModel|
                k != source_key_model(*source) ==> #[trigger] dedup_lookup(final(self).entries@, k)
                    == dedup_lookup(old(self).entries@, k),
    {
        let key = Self::key_of(source);
        let ghost km = key_model(key);
        match self.find(&key) {
            Some(i) => {
                let ghost s_old = self.entries@;
                let e = &mut self.entries[i];
                let ghost updated = DedupEntry { key: e.key, seq };
                e.seq = seq;
                proof {
                    assert(final(e).key == s_old[i as int].key);
                    assert(self.entries@ =~= s_old.update(i as int, self.entries@[i as int]));
                    assert forall|k: DedupKeyModel| true implies {
                        &&& (k == km ==> #[trigger] dedup_lookup(self.entries@, k) == Some(seq))
                        &&& (k != km ==> dedup_lookup(self.entries@, k) == dedup_lookup(s_old, k))
                    } by {
                        lemma_lookup_update(s_old, i as int, self.entries@[i as int], k, 0);
                    }
                    assert forall|x: int, y: int|
                        0 <= x < y < self.entries@.len() implies key_model(
                        self.entries@[x].key,
                    ) != key_model(self.entries@[y].key) by {
                        assert(key_model(s_old[x].key) != key_model(s_old[y].key));
                    }
                }
            },
            None => {
                let ghost s_old = self.entries@;
                proof {
                    lemma_lookup_none_no_match(s_old, km, 0);
                }
                let entry = DedupEntry { key, seq };
                self.entries.push(entry);
                proof {
                    assert forall|k: DedupKeyModel| true implies #[trigger] dedup_lookup(
                        self.entries@,
                        k,
                    ) == (match dedup_lookup(s_old, k) {
                        Some(v) => Some(v),
                        None => if k == km {
                            Some(seq)
                        } else {
                            None
                        },
                    }) by {
                        lemma_lookup_push(s_old, entry, k, 0);
                    }
                }
            },
        }
    }
}

} // verus!
