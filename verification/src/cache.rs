//! Transposition and evaluation caches: fixed-size bucketed hash tables
//! keyed by the position hash, with tiered replacement that protects the
//! deepest entry of each transposition bucket.
use crate::action::Action;
use vstd::prelude::*;

verus! {

/// Cache size in megabytes used by the searcher.
pub const HASH_SIZE: usize = 4;

/// One stored search result: both halves of the position hash, the best
/// or refuting action, the score, the depth searched, the bound flags and
/// the ply the position stood at.
#[derive(Copy, Clone, PartialEq, Eq, Structural, Debug)]
pub struct CacheEntry {
    pub upper_hash: u32,
    pub lower_hash: u32,
    pub action: Action,
    pub score: i16,
    pub depth: u8,
    pub alpha: bool,
    pub beta: bool,
    pub plies: u8,
}

impl CacheEntry {
    /// Whether this entry stores exactly the position hashed to `hash`.
    pub open spec fn spec_valid_hash(self, hash: u64) -> bool {
        self.upper_hash == hash >> 32 && self.lower_hash == hash as u32
    }

    pub fn valid_hash(&self, hash: u64) -> (r: bool)
        ensures
            r == self.spec_valid_hash(hash),
    {
        proof {
            assert((hash >> 32) <= 0xffffffffu64 && (hash & 0xffffffff) == hash as u32)
                by (bit_vector);
        }
        self.upper_hash as u64 == hash >> 32 && self.lower_hash as u64 == hash & 0xffffffff
    }

    /// Whether this slot is unused.
    pub open spec fn spec_is_invalid(self) -> bool {
        self.depth == 255
    }

    pub fn is_invalid(&self) -> (r: bool)
        ensures
            r == self.spec_is_invalid(),
    {
        self.depth == 255
    }

    /// The unused slot marker.
    pub fn invalid() -> (r: CacheEntry)
        ensures
            r == (CacheEntry {
                upper_hash: 0,
                lower_hash: 0,
                action: Action::SkipMove,
                score: 0,
                depth: 255,
                alpha: false,
                beta: false,
                plies: 0,
            }),
            r.spec_is_invalid(),
    {
        CacheEntry {
            upper_hash: 0,
            lower_hash: 0,
            action: Action::SkipMove,
            score: 0,
            depth: 255,
            alpha: false,
            beta: false,
            plies: 0,
        }
    }
}

/// Three entries sharing one hash slot: the first protected by depth, the
/// second replaced when close in depth or stale, the third nearly always.
#[derive(Copy, Clone, PartialEq, Eq, Structural, Debug)]
pub struct CacheBucket {
    pub e0: CacheEntry,
    pub e1: CacheEntry,
    pub e2: CacheEntry,
}

impl CacheBucket {
    /// The first entry stored for `hash`, if any.
    pub open spec fn spec_probe(self, hash: u64) -> Option<CacheEntry> {
        if self.e0.spec_valid_hash(hash) {
            Some(self.e0)
        } else if self.e1.spec_valid_hash(hash) {
            Some(self.e1)
        } else if self.e2.spec_valid_hash(hash) {
            Some(self.e2)
        } else {
            None
        }
    }

    pub fn probe(&self, hash: u64) -> (r: Option<CacheEntry>)
        ensures
            r == self.spec_probe(hash),
    {
        if self.e0.valid_hash(hash) {
            Some(self.e0)
        } else if self.e1.valid_hash(hash) {
            Some(self.e1)
        } else if self.e2.valid_hash(hash) {
            Some(self.e2)
        } else {
            None
        }
    }

    /// The bucket after offering it `ce`: the deep slot takes it when that
    /// slot is empty, stale, for the same position, or not deeper; the
    /// second slot when nearly as deep; the third as a fallback.
    pub open spec fn spec_replace(self, ce: CacheEntry, hash: u64, rootplies: u8) -> CacheBucket {
        if self.e0.spec_is_invalid() || self.e0.plies < rootplies || self.e0.spec_valid_hash(hash)
            || ce.depth >= self.e0.depth {
            CacheBucket { e0: ce, ..self }
        } else if self.e1.spec_is_invalid() || self.e1.plies < rootplies
            || self.e1.spec_valid_hash(hash) || ce.depth + 1 >= self.e1.depth {
            CacheBucket { e1: ce, ..self }
        } else if self.e2.spec_is_invalid() || self.e2.plies < rootplies
            || self.e2.spec_valid_hash(hash) || ce.depth + 3 >= self.e2.depth {
            CacheBucket { e2: ce, ..self }
        } else {
            self
        }
    }

    /// Applies the tiered replacement policy for `ce`.
    pub fn should_replace(&mut self, ce: CacheEntry, hash: u64, rootplies: u8)
        ensures
            *final(self) == old(self).spec_replace(ce, hash, rootplies),
    {
        if self.e0.is_invalid() || self.e0.plies < rootplies || self.e0.valid_hash(hash)
            || ce.depth >= self.e0.depth {
            self.e0 = ce;
        } else if self.e1.is_invalid() || self.e1.plies < rootplies || self.e1.valid_hash(hash)
            || ce.depth as u16 + 1 >= self.e1.depth as u16 {
            self.e1 = ce;
        } else if self.e2.is_invalid() || self.e2.plies < rootplies || self.e2.valid_hash(hash)
            || ce.depth as u16 + 3 >= self.e2.depth as u16 {
            self.e2 = ce;
        }
    }

    /// How many of the three slots are used.
    pub fn fill_status(&self) -> (r: usize)
        ensures
            r <= 3,
    {
        let mut res: usize = 0;
        if !self.e0.is_invalid() {
            res = res + 1;
        }
        if !self.e1.is_invalid() {
            res = res + 1;
        }
        if !self.e2.is_invalid() {
            res = res + 1;
        }
        res
    }
}

/// The transposition table: a vector of three-entry buckets.
pub struct Cache {
    pub entries: usize,
    pub buckets: usize,
    pub cache: Vec<CacheBucket>,
}

impl Cache {
    /// Whether the bucket vector matches its advertised size.
    pub open spec fn wf(&self) -> bool {
        self.buckets == self.cache@.len() && self.buckets > 0 && self.entries == self.buckets * 3
    }

    /// A table of `size` megabytes, 64 bytes per bucket: every slot of
    /// every bucket starts out as the unused marker, so a fresh table
    /// answers a probe only for a hash whose two halves are both zero.
    pub fn with_size(size: usize) -> (r: Cache)
        requires
            1 <= size <= 1024,
        ensures
            r.wf(),
            r.buckets == 1024 * 1024 * size / 64,
            forall|i: int|
                0 <= i < r.buckets ==> (#[trigger] r.cache@[i]).e0.spec_is_invalid()
                    && r.cache@[i].e1.spec_is_invalid() && r.cache@[i].e2.spec_is_invalid(),
    {
        proof {
            assert(1024 * 1024 * size <= 0x40000000) by (nonlinear_arith)
                requires
                    size <= 1024,
            ;
        }
        let buckets: usize = 1024 * 1024 * size / 64;
        let mut cache: Vec<CacheBucket> = Vec::new();
        let empty = CacheBucket {
            e0: CacheEntry::invalid(),
            e1: CacheEntry::invalid(),
            e2: CacheEntry::invalid(),
        };
        let mut i: usize = 0;
        while i < buckets
            invariant
                0 <= i <= buckets,
                cache@.len() == i,
                empty.e0.spec_is_invalid() && empty.e1.spec_is_invalid()
                    && empty.e2.spec_is_invalid(),
                forall|j: int|
                    0 <= j < i ==> (#[trigger] cache@[j]).e0.spec_is_invalid()
                        && cache@[j].e1.spec_is_invalid() && cache@[j].e2.spec_is_invalid(),
            decreases buckets - i,
        {
            cache.push(empty);
            proof {
                assert(cache@[i as int] == empty);
            }
            i = i + 1;
        }
        proof {
            assert(1024 * 1024 * size / 64 == 16384 * size) by (nonlinear_arith);
        }
        Cache { entries: buckets * 3, buckets, cache }
    }

    /// The first entry stored for `hash` in its bucket, if any.
    pub fn lookup(&self, hash: u64) -> (r: Option<CacheEntry>)
        requires
            self.wf(),
        ensures
            r == self.cache@[(hash % self.buckets as u64) as int].spec_probe(hash),
    {
        self.cache[(hash % self.buckets as u64) as usize].probe(hash)
    }

    /// Offers `ce` to the bucket of `hash` under the tiered policy.
    pub fn insert(&mut self, hash: u64, ce: CacheEntry, rootplies: u8)
        requires
            old(self).wf(),
        ensures
            final(self).wf(),
            final(self).cache@ == old(self).cache@.update(
                (hash % old(self).buckets as u64) as int,
                old(self).cache@[(hash % old(self).buckets as u64) as int].spec_replace(
                    ce,
                    hash,
                    rootplies,
                ),
            ),
    {
        let idx = (hash % self.buckets as u64) as usize;
        let bucket = &mut self.cache[idx];
        bucket.should_replace(ce, hash, rootplies);
        proof {
            assert(final(self).cache@ =~= old(self).cache@.update(
                (hash % old(self).buckets as u64) as int,
                old(self).cache@[(hash % old(self).buckets as u64) as int].spec_replace(
                    ce,
                    hash,
                    rootplies,
                ),
            ));
        }
    }

    /// Samples buckets from both ends of the table and reports the share
    /// of used slots in per mille.
    pub fn fill_status(&self) -> (r: usize)
        requires
            self.wf(),
        ensures
            r <= 1000,
    {
        if self.entries < 1000 {
            return 1000;
        }
        let mut counted: usize = 0;
        let mut full: usize = 0;
        let mut index: usize = 0;
        while counted < 500 && index < self.buckets
            invariant
                full <= counted,
                counted <= 510,
                index <= self.buckets,
                self.wf(),
            decreases self.buckets - index,
        {
            full = full + self.cache[index].fill_status();
            index = index + 1;
            counted = counted + 3;
        }
        let mut index: usize = self.buckets - 1;
        let mut more: usize = 0;
        while more < 500 && index > 0
            invariant
                full <= counted + more,
                more <= 510,
                counted <= 510,
                self.wf(),
                index < self.buckets,
            decreases index,
        {
            full = full + self.cache[index].fill_status();
            index = index - 1;
            more = more + 3;
        }
        let denom = counted + more;
        if denom == 0 {
            return 0;
        }
        let permille = full * 1000 / denom;
        if permille > 1000 {
            1000
        } else {
            permille
        }
    }
}

/// A fresh deep entry is never evicted by a shallower probe for another
/// position: under replacement pressure the protected slot keeps the
/// deepest result of the current search.
pub proof fn lemma_cache_protects_deep_entry(
    b: CacheBucket,
    ce: CacheEntry,
    hash: u64,
    rootplies: u8,
)
    requires
        !b.e0.spec_is_invalid(),
        b.e0.plies >= rootplies,
        !b.e0.spec_valid_hash(hash),
        ce.depth < b.e0.depth,
    ensures
        b.spec_replace(ce, hash, rootplies).e0 == b.e0,
        b.spec_replace(ce, hash, rootplies).spec_probe(hash2(b.e0)) == b.spec_probe(hash2(b.e0))
            || b.spec_replace(ce, hash, rootplies).e0 == b.e0,
{
}

/// The full hash a stored entry stands for.
pub open spec fn hash2(e: CacheEntry) -> u64 {
    (e.upper_hash as u64) << 32 | e.lower_hash as u64
}

/// One stored static evaluation.
#[derive(Copy, Clone, PartialEq, Eq, Structural, Debug)]
pub struct EvalCacheEntry {
    pub upper_hash: u32,
    pub lower_hash: u32,
    pub score: i16,
}

impl EvalCacheEntry {
    /// Whether this entry stores exactly the position hashed to `hash`.
    pub open spec fn spec_valid_hash(self, hash: u64) -> bool {
        self.upper_hash == hash >> 32 && self.lower_hash == hash as u32
    }

    pub fn valid_hash(&self, hash: u64) -> (r: bool)
        ensures
            r == self.spec_valid_hash(hash),
    {
        proof {
            assert((hash >> 32) <= 0xffffffffu64 && (hash & 0xffffffff) == hash as u32)
                by (bit_vector);
        }
        self.upper_hash as u64 == hash >> 32 && self.lower_hash as u64 == hash & 0xffffffff
    }

    /// Whether this slot is unused.
    pub open spec fn spec_is_invalid(self) -> bool {
        self.score == i16::MIN
    }

    pub fn is_invalid(&self) -> (r: bool)
        ensures
            r == self.spec_is_invalid(),
    {
        self.score == i16::MIN
    }

    /// The unused slot marker.
    pub fn invalid() -> (r: EvalCacheEntry)
        ensures
            r == (EvalCacheEntry { upper_hash: 0, lower_hash: 0, score: i16::MIN }),
            r.spec_is_invalid(),
    {
        EvalCacheEntry { upper_hash: 0, lower_hash: 0, score: i16::MIN }
    }
}

/// Five evaluation entries sharing one hash slot, replaced in insertion
/// order: the oldest leaves first.
#[derive(Copy, Clone, PartialEq, Eq, Structural, Debug)]
pub struct EvalCacheBucket {
    pub e0: EvalCacheEntry,
    pub e1: EvalCacheEntry,
    pub e2: EvalCacheEntry,
    pub e3: EvalCacheEntry,
    pub e4: EvalCacheEntry,
}

impl EvalCacheBucket {
    /// The first entry stored for `hash`, if any.
    pub open spec fn spec_probe(self, hash: u64) -> Option<EvalCacheEntry> {
        if self.e0.spec_valid_hash(hash) {
            Some(self.e0)
        } else if self.e1.spec_valid_hash(hash) {
            Some(self.e1)
        } else if self.e2.spec_valid_hash(hash) {
            Some(self.e2)
        } else if self.e3.spec_valid_hash(hash) {
            Some(self.e3)
        } else if self.e4.spec_valid_hash(hash) {
            Some(self.e4)
        } else {
            None
        }
    }

    pub fn probe(&self, hash: u64) -> (r: Option<EvalCacheEntry>)
        ensures
            r == self.spec_probe(hash),
    {
        if self.e0.valid_hash(hash) {
            Some(self.e0)
        } else if self.e1.valid_hash(hash) {
            Some(self.e1)
        } else if self.e2.valid_hash(hash) {
            Some(self.e2)
        } else if self.e3.valid_hash(hash) {
            Some(self.e3)
        } else if self.e4.valid_hash(hash) {
            Some(self.e4)
        } else {
            None
        }
    }

    /// The bucket after inserting `ce`: the first free slot takes it, or
    /// everything shifts one place and the newest heads the bucket.
    pub open spec fn spec_replace(self, ce: EvalCacheEntry) -> EvalCacheBucket {
        if self.e0.spec_is_invalid() {
            EvalCacheBucket { e0: ce, ..self }
        } else if self.e1.spec_is_invalid() {
            EvalCacheBucket { e1: ce, ..self }
        } else if self.e2.spec_is_invalid() {
            EvalCacheBucket { e2: ce, ..self }
        } else if self.e3.spec_is_invalid() {
            EvalCacheBucket { e3: ce, ..self }
        } else if self.e4.spec_is_invalid() {
            EvalCacheBucket { e4: ce, ..self }
        } else {
            EvalCacheBucket { e0: ce, e1: self.e0, e2: self.e1, e3: self.e2, e4: self.e3 }
        }
    }

    /// Applies the ring replacement policy for `ce`.
    pub fn should_replace(&mut self, ce: EvalCacheEntry)
        ensures
            *final(self) == old(self).spec_replace(ce),
    {
        if self.e0.is_invalid() {
            self.e0 = ce;
        } else if self.e1.is_invalid() {
            self.e1 = ce;
        } else if self.e2.is_invalid() {
            self.e2 = ce;
        } else if self.e3.is_invalid() {
            self.e3 = ce;
        } else if self.e4.is_invalid() {
            self.e4 = ce;
        } else {
            self.e4 = self.e3;
            self.e3 = self.e2;
            self.e2 = self.e1;
            self.e1 = self.e0;
            self.e0 = ce;
        }
    }

    /// How many of the first three slots are used, mirroring the sampling
    /// of the transposition buckets.
    pub fn fill_status(&self) -> (r: usize)
        ensures
            r <= 3,
    {
        let mut res: usize = 0;
        if !self.e0.is_invalid() {
            res = res + 1;
        }
        if !self.e1.is_invalid() {
            res = res + 1;
        }
        if !self.e2.is_invalid() {
            res = res + 1;
        }
        res
    }
}

/// The static evaluation cache: a vector of five-entry buckets.
pub struct EvalCache {
    pub entries: usize,
    pub buckets: usize,
    pub cache: Vec<EvalCacheBucket>,
}

impl EvalCache {
    /// Whether the bucket vector matches its advertised size.
    pub open spec fn wf(&self) -> bool {
        self.buckets == self.cache@.len() && self.buckets > 0 && self.entries == self.buckets * 5
    }

    /// A table of `size` megabytes, 64 bytes per bucket; every slot of
    /// every bucket starts out as the unused marker.
    pub fn with_size(size: usize) -> (r: EvalCache)
        requires
            1 <= size <= 1024,
        ensures
            r.wf(),
            r.buckets == 1024 * 1024 * size / 64,
            forall|i: int|
                0 <= i < r.buckets ==> (#[trigger] r.cache@[i]).e0.spec_is_invalid()
                    && r.cache@[i].e4.spec_is_invalid(),
    {
        proof {
            assert(1024 * 1024 * size <= 0x40000000) by (nonlinear_arith)
                requires
                    size <= 1024,
            ;
        }
        let buckets: usize = 1024 * 1024 * size / 64;
        let mut cache: Vec<EvalCacheBucket> = Vec::new();
        let empty = EvalCacheBucket {
            e0: EvalCacheEntry::invalid(),
            e1: EvalCacheEntry::invalid(),
            e2: EvalCacheEntry::invalid(),
            e3: EvalCacheEntry::invalid(),
            e4: EvalCacheEntry::invalid(),
        };
        let mut i: usize = 0;
        while i < buckets
            invariant
                0 <= i <= buckets,
                cache@.len() == i,
                empty.e0.spec_is_invalid() && empty.e4.spec_is_invalid(),
                forall|j: int|
                    0 <= j < i ==> (#[trigger] cache@[j]).e0.spec_is_invalid()
                        && cache@[j].e4.spec_is_invalid(),
            decreases buckets - i,
        {
            cache.push(empty);
            proof {
                assert(cache@[i as int] == empty);
            }
            i = i + 1;
        }
        proof {
            assert(1024 * 1024 * size / 64 == 16384 * size) by (nonlinear_arith);
        }
        EvalCache { entries: buckets * 5, buckets, cache }
    }

    /// The first entry stored for `hash` in its bucket, if any.
    pub fn lookup(&self, hash: u64) -> (r: Option<EvalCacheEntry>)
        requires
            self.wf(),
        ensures
            r == self.cache@[(hash % self.buckets as u64) as int].spec_probe(hash),
    {
        self.cache[(hash % self.buckets as u64) as usize].probe(hash)
    }

    /// Inserts `ce` into the bucket of `hash` in ring order.
    pub fn insert(&mut self, hash: u64, ce: EvalCacheEntry)
        requires
            old(self).wf(),
        ensures
            final(self).wf(),
            final(self).cache@ == old(self).cache@.update(
                (hash % old(self).buckets as u64) as int,
                old(self).cache@[(hash % old(self).buckets as u64) as int].spec_replace(ce),
            ),
    {
        let idx = (hash % self.buckets as u64) as usize;
        let bucket = &mut self.cache[idx];
        bucket.should_replace(ce);
        proof {
            assert(final(self).cache@ =~= old(self).cache@.update(
                (hash % old(self).buckets as u64) as int,
                old(self).cache@[(hash % old(self).buckets as u64) as int].spec_replace(ce),
            ));
        }
    }

    /// Samples buckets from both ends of the table and reports the share
    /// of used slots in per mille.
    pub fn fill_status(&self) -> (r: usize)
        requires
            self.wf(),
        ensures
            r <= 1000,
    {
        if self.entries < 1000 {
            return 1000;
        }
        let mut counted: usize = 0;
        let mut full: usize = 0;
        let mut index: usize = 0;
        while counted < 500 && index < self.buckets
            invariant
                full <= counted,
                counted <= 510,
                index <= self.buckets,
                self.wf(),
            decreases self.buckets - index,
        {
            full = full + self.cache[index].fill_status();
            index = index + 1;
            counted = counted + 5;
        }
        let denom = counted;
        if denom == 0 {
            return 0;
        }
        let permille = full * 1000 / denom;
        if permille > 1000 {
            1000
        } else {
            permille
        }
    }
}

} // verus!
