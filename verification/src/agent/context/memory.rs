//! The short-term memory of an agent: named values that expire.
//!
//! Times are in milliseconds since the Unix epoch.

use vstd::prelude::*;
use crate::agent::engine::traits::opt_text;
use crate::outside::utc_now_millis;
use crate::text::same_text;

verus! {

/// One value of the memory.
#[derive(Debug, Clone, PartialEq, Eq)]
pub struct MemoryEntry {
    pub key: String,
    pub value: String,
    /// When the value was set.
    pub timestamp: i64,
    /// When the value expires, if ever.
    pub expires_at: Option<i64>,
}

impl MemoryEntry {
    /// Whether the value has expired at the time `now`: it has a time of
    /// expiry, and that time has passed.
    pub open spec fn expired_at(self, now: i64) -> bool {
        match self.expires_at {
            Some(t) => now > t,
            None => false,
        }
    }

    /// Whether the value has expired at the time `now`.
    pub fn is_expired_at(&self, now: i64) -> (b: bool)
        ensures
            b == self.expired_at(now),
    {
        match self.expires_at {
            Some(t) => now > t,
            None => false,
        }
    }

    /// Whether the value has expired now: at some time, which the clock
    /// gives and of which nothing is known.
    pub fn is_expired(&self) -> (b: bool)
        ensures
            exists|now: i64| b == #[trigger] self.expired_at(now),
    {
        let now = utc_now_millis();
        let b = self.is_expired_at(now);
        assert(b == self.expired_at(now));
        b
    }
}

/// The time at which a value set at `now` expires after `ttl_seconds`:
/// the largest time where the sum does not fit.
pub open spec fn expiry(now: i64, ttl_seconds: u64) -> i64 {
    if now + ttl_seconds * 1000 > i64::MAX {
        i64::MAX
    } else {
        (now + ttl_seconds * 1000) as i64
    }
}

/// The index of the entry with the key `key` among the first `k` entries,
/// or -1 where there is none.
pub open spec fn entry_index(entries: Seq<MemoryEntry>, key: Seq<char>, k: int) -> int
    decreases k,
{
    if k <= 0 || k > entries.len() {
        -1
    } else if entries[k - 1].key@ == key {
        k - 1
    } else {
        entry_index(entries, key, k - 1)
    }
}

/// The entries that have not expired at the time `now`, in order.
pub open spec fn live_entries(entries: Seq<MemoryEntry>, now: i64) -> Seq<MemoryEntry>
    decreases entries.len(),
{
    if entries.len() == 0 {
        entries
    } else if entries.last().expired_at(now) {
        live_entries(entries.drop_last(), now)
    } else {
        live_entries(entries.drop_last(), now).push(entries.last())
    }
}

/// The entries without those whose key is `key`, in order.
pub open spec fn entries_without(entries: Seq<MemoryEntry>, key: Seq<char>) -> Seq<MemoryEntry>
    decreases entries.len(),
{
    if entries.len() == 0 {
        entries
    } else if entries.last().key@ == key {
        entries_without(entries.drop_last(), key)
    } else {
        entries_without(entries.drop_last(), key).push(entries.last())
    }
}

/// The entries after `key` was set to `value` at the time `now`, to live
/// for `ttl_seconds`: any older entry of the key is gone, and the new one
/// comes last.
pub open spec fn entries_with(
    entries: Seq<MemoryEntry>,
    key: String,
    value: String,
    ttl_seconds: u64,
    now: i64,
) -> Seq<MemoryEntry> {
    entries_without(entries, key@).push(
        MemoryEntry { key, value, timestamp: now, expires_at: Some(expiry(now, ttl_seconds)) },
    )
}

/// Every key with its value that has not expired at the time `now`, in
/// the order of the entries.
pub open spec fn live_pairs(entries: Seq<MemoryEntry>, now: i64) -> Seq<(Seq<char>, Seq<char>)> {
    live_entries(entries, now).map_values(|e: MemoryEntry| (e.key@, e.value@))
}

/// The memory. The entry that was set last under a key is the one that
/// counts.
#[derive(Debug, Clone, PartialEq, Eq)]
pub struct ShortTermMemory {
    pub entries: Vec<MemoryEntry>,
    /// How long a value lives where nothing else is said, in seconds.
    pub default_ttl_seconds: u64,
}

impl ShortTermMemory {
    /// The value that `key` has at the time `now`: the value of the last
    /// entry with that key, unless it has expired.
    pub open spec fn value_at(self, key: Seq<char>, now: i64) -> Option<Seq<char>> {
        let i = entry_index(self.entries@, key, self.entries@.len() as int);
        if i >= 0 && !self.entries@[i].expired_at(now) {
            Some(self.entries@[i].value@)
        } else {
            None
        }
    }

    /// An empty memory.
    pub fn new(default_ttl_seconds: u64) -> (r: Self)
        ensures
            r.entries@.len() == 0,
            r.default_ttl_seconds == default_ttl_seconds,
    {
        Self { entries: Vec::new(), default_ttl_seconds }
    }

    /// Sets a value at the time `now`, to live for the default time.
    pub fn set_at(&mut self, key: String, value: String, now: i64)
        ensures
            final(self).default_ttl_seconds == old(self).default_ttl_seconds,
            final(self).entries@ == entries_with(
                old(self).entries@,
                key,
                value,
                old(self).default_ttl_seconds,
                now,
            ),
    {
        let ttl = self.default_ttl_seconds;
        self.set_with_ttl_at(key, value, ttl, now);
    }

    /// Sets a value at the time `now`, to live for `ttl_seconds`. Any
    /// older value of the key is gone.
    pub fn set_with_ttl_at(&mut self, key: String, value: String, ttl_seconds: u64, now: i64)
        ensures
            final(self).default_ttl_seconds == old(self).default_ttl_seconds,
            final(self).entries@ == entries_with(old(self).entries@, key, value, ttl_seconds, now),
    {
        self.remove(key.as_str());
        let sum: i128 = now as i128 + ttl_seconds as i128 * 1000;
        let expires: i64 = if sum > 0x7fff_ffff_ffff_ffff {
            0x7fff_ffff_ffff_ffff
        } else {
            sum as i64
        };
        self.entries.push(MemoryEntry { key, value, timestamp: now, expires_at: Some(expires) });
    }

    /// Sets a value now, to live for the default time: at some time,
    /// which the clock gives and of which nothing is known.
    pub fn set(&mut self, key: String, value: String)
        ensures
            final(self).default_ttl_seconds == old(self).default_ttl_seconds,
            exists|now: i64|
                final(self).entries@ == #[trigger] entries_with(
                    old(self).entries@,
                    key,
                    value,
                    old(self).default_ttl_seconds,
                    now,
                ),
    {
        let ttl = self.default_ttl_seconds;
        self.set_with_ttl(key, value, ttl);
    }

    /// Sets a value now, to live for `ttl_seconds`: at some time, which
    /// the clock gives and of which nothing is known.
    pub fn set_with_ttl(&mut self, key: String, value: String, ttl_seconds: u64)
        ensures
            final(self).default_ttl_seconds == old(self).default_ttl_seconds,
            exists|now: i64|
                final(self).entries@ == #[trigger] entries_with(
                    old(self).entries@,
                    key,
                    value,
                    ttl_seconds,
                    now,
                ),
    {
        let now = utc_now_millis();
        self.set_with_ttl_at(key, value, ttl_seconds, now);
        assert(self.entries@ == entries_with(old(self).entries@, key, value, ttl_seconds, now));
    }

    /// The value of a key now: at some time, which the clock gives and of
    /// which nothing is known.
    pub fn get(&self, key: &str) -> (r: Option<String>)
        ensures
            exists|now: i64| opt_text(r) == #[trigger] self.value_at(key@, now),
    {
        let now = utc_now_millis();
        let r = self.get_at(key, now);
        assert(opt_text(r) == self.value_at(key@, now));
        r
    }

    /// The value of a key at the time `now`.
    pub fn get_at(&self, key: &str, now: i64) -> (r: Option<String>)
        ensures
            opt_text(r) == self.value_at(key@, now),
    {
        let mut k: usize = self.entries.len();
        while k > 0
            invariant
                k <= self.entries@.len(),
                entry_index(self.entries@, key@, self.entries@.len() as int) == entry_index(
                    self.entries@,
                    key@,
                    k as int,
                ),
            decreases k,
        {
            if same_text(self.entries[k - 1].key.as_str(), key) {
                if self.entries[k - 1].is_expired_at(now) {
                    return None;
                }
                return Some(self.entries[k - 1].value.clone());
            }
            k -= 1;
        }
        None
    }

    /// Forgets a key.
    pub fn remove(&mut self, key: &str)
        ensures
            final(self).default_ttl_seconds == old(self).default_ttl_seconds,
            final(self).entries@ == entries_without(old(self).entries@, key@),
    {
        let mut kept: Vec<MemoryEntry> = Vec::new();
        let mut old_entries: Vec<MemoryEntry> = Vec::new();
        std::mem::swap(&mut old_entries, &mut self.entries);
        let ghost all = old_entries@;
        let mut i: usize = 0;
        proof {
            assert(all.take(0) =~= Seq::<MemoryEntry>::empty());
        }
        while i < old_entries.len()
            invariant
                i <= old_entries@.len(),
                all == old_entries@,
                all == old(self).entries@,
                self.default_ttl_seconds == old(self).default_ttl_seconds,
                kept@ == entries_without(all.take(i as int), key@),
            decreases old_entries@.len() - i,
        {
            proof {
                assert(all.take(i + 1).drop_last() =~= all.take(i as int));
            }
            if !same_text(old_entries[i].key.as_str(), key) {
                let e = &old_entries[i];
                kept.push(
                    MemoryEntry {
                        key: e.key.clone(),
                        value: e.value.clone(),
                        timestamp: e.timestamp,
                        expires_at: e.expires_at,
                    },
                );
            }
            i += 1;
        }
        proof {
            assert(all.take(all.len() as int) =~= all);
        }
        self.entries = kept;
    }

    /// Forgets everything.
    pub fn clear(&mut self)
        ensures
            final(self).default_ttl_seconds == old(self).default_ttl_seconds,
            final(self).entries@.len() == 0,
    {
        self.entries.clear();
    }

    /// Forgets what has expired at the time `now`.
    pub fn cleanup_expired_at(&mut self, now: i64)
        ensures
            final(self).default_ttl_seconds == old(self).default_ttl_seconds,
            final(self).entries@ == live_entries(old(self).entries@, now),
    {
        let mut kept: Vec<MemoryEntry> = Vec::new();
        let mut old_entries: Vec<MemoryEntry> = Vec::new();
        std::mem::swap(&mut old_entries, &mut self.entries);
        let ghost all = old_entries@;
        let mut i: usize = 0;
        proof {
            assert(all.take(0) =~= Seq::<MemoryEntry>::empty());
        }
        while i < old_entries.len()
            invariant
                i <= old_entries@.len(),
                all == old_entries@,
                all == old(self).entries@,
                self.default_ttl_seconds == old(self).default_ttl_seconds,
                kept@ == live_entries(all.take(i as int), now),
            decreases old_entries@.len() - i,
        {
            proof {
                assert(all.take(i + 1).drop_last() =~= all.take(i as int));
            }
            if !old_entries[i].is_expired_at(now) {
                let e = &old_entries[i];
                kept.push(
                    MemoryEntry {
                        key: e.key.clone(),
                        value: e.value.clone(),
                        timestamp: e.timestamp,
                        expires_at: e.expires_at,
                    },
                );
            }
            i += 1;
        }
        proof {
            assert(all.take(all.len() as int) =~= all);
        }
        self.entries = kept;
    }

    /// Forgets what has expired now: at some time, which the clock gives
    /// and of which nothing is known.
    pub fn cleanup_expired(&mut self)
        ensures
            final(self).default_ttl_seconds == old(self).default_ttl_seconds,
            exists|now: i64| final(self).entries@ == #[trigger] live_entries(old(self).entries@, now),
    {
        let now = utc_now_millis();
        self.cleanup_expired_at(now);
        assert(self.entries@ == live_entries(old(self).entries@, now));
    }

    /// Every key with its value that has not expired now: at some time,
    /// which the clock gives and of which nothing is known.
    pub fn get_all(&self) -> (r: Vec<(String, String)>)
        ensures
            exists|now: i64| r.deep_view() == #[trigger] live_pairs(self.entries@, now),
    {
        let now = utc_now_millis();
        let r = self.get_all_at(now);
        assert(r.deep_view() == live_pairs(self.entries@, now));
        r
    }

    /// Every key with its value that has not expired at the time `now`,
    /// in the order they were set.
    pub fn get_all_at(&self, now: i64) -> (r: Vec<(String, String)>)
        ensures
            r.deep_view() == live_pairs(self.entries@, now),
    {
        let mut out: Vec<(String, String)> = Vec::new();
        let ghost all = self.entries@;
        let mut i: usize = 0;
        proof {
            assert(all.take(0) =~= Seq::<MemoryEntry>::empty());
        }
        while i < self.entries.len()
            invariant
                i <= self.entries@.len(),
                all == self.entries@,
                out@.len() == live_entries(all.take(i as int), now).len(),
                forall|j: int|
                    0 <= j < out@.len() ==> (#[trigger] out@[j]).0 == live_entries(
                        all.take(i as int),
                        now,
                    )[j].key && out@[j].1 == live_entries(all.take(i as int), now)[j].value,
            decreases self.entries@.len() - i,
        {
            proof {
                assert(all.take(i + 1).drop_last() =~= all.take(i as int));
            }
            if !self.entries[i].is_expired_at(now) {
                out.push((self.entries[i].key.clone(), self.entries[i].value.clone()));
            }
            i += 1;
        }
        proof {
            assert(all.take(all.len() as int) =~= all);
            assert(out.deep_view() =~= live_pairs(all, now));
        }
        out
    }
}

impl Default for ShortTermMemory {
    /// An empty memory whose values live for an hour.
    fn default() -> (r: Self)
        ensures
            r.entries@.len() == 0,
            r.default_ttl_seconds == 3600,
    {
        Self::new(3600)
    }
}

} // verus!
