//! The worker's solution cache: solutions keyed by block data and
//! difficulty, evicted least recently used first.
use vstd::prelude::*;
use crate::metrics::sat_add;

verus! {

/// How many solutions the cache holds at most.
pub const MAX_CACHE_SIZE: usize = 1000;

/// A cached solution with its access statistics.
#[derive(Clone, Debug, PartialEq, Eq)]
pub struct CacheEntry {
    pub nonce: u64,
    pub hash: String,
    pub difficulty: u32,
    pub hits: u64,
    pub created_at: u64,
    pub last_accessed: u64,
}

/// Size and hit statistics of a cache.
#[derive(Clone, Copy, Debug, PartialEq, Eq, Structural)]
pub struct CacheStats {
    pub size: usize,
    pub capacity: usize,
    pub total_hits: u64,
}

/// The key of a cached solution: the block data and the difficulty.
struct CacheKey {
    block_data: String,
    difficulty: u32,
}

struct CacheSlot {
    key: CacheKey,
    entry: CacheEntry,
}

/// The abstract key of a cached solution.
pub type KeyView = (Seq<char>, u32);

/// A cache of solutions, held in access order: the least recently used
/// entry first, the most recently used last.
pub struct LRUCache {
    slots: Vec<CacheSlot>,
}

/// `e` after one more hit at time `now`.
pub open spec fn touched(e: CacheEntry, now: u64) -> CacheEntry {
    CacheEntry { hits: sat_add(e.hits, 1), last_accessed: now, ..e }
}

/// A fresh entry stored at time `now`.
pub open spec fn fresh_entry(nonce: u64, hash: String, difficulty: u32, now: u64) -> CacheEntry {
    CacheEntry { nonce, hash, difficulty, hits: 0, created_at: now, last_accessed: now }
}

/// The keys of `s`, in order.
pub open spec fn keys_of(s: Seq<(KeyView, CacheEntry)>) -> Seq<KeyView> {
    s.map_values(|p: (KeyView, CacheEntry)| p.0)
}

/// Access times never decrease along `s`.
pub open spec fn ordered_by_access(s: Seq<(KeyView, CacheEntry)>) -> bool {
    forall|i: int, j: int|
        0 <= i < j < s.len() ==> #[trigger] s[i].1.last_accessed <= #[trigger] s[j].1.last_accessed
}

/// `p` is at least as recent as the last entry of `s`.
pub open spec fn no_older_than_last(s: Seq<(KeyView, CacheEntry)>, p: (KeyView, CacheEntry)) -> bool {
    s.len() == 0 || s.last().1.last_accessed <= p.1.last_accessed
}

/// `new` is `old` after storing `e` under `k`: an entry under `k` is taken
/// out, or else the least recently used one when `old` is full, and `(k, e)`
/// becomes the most recently used.
pub open spec fn stores(
    old: Seq<(KeyView, CacheEntry)>,
    new: Seq<(KeyView, CacheEntry)>,
    k: KeyView,
    e: CacheEntry,
) -> bool {
    &&& keys_of(old).contains(k) ==> exists|i: int|
        0 <= i < old.len() && old[i].0 == k && new == old.remove(i).push((k, e))
    &&& !keys_of(old).contains(k) && old.len() >= MAX_CACHE_SIZE ==> new == old.drop_first().push(
        (k, e),
    )
    &&& !keys_of(old).contains(k) && old.len() < MAX_CACHE_SIZE ==> new == old.push((k, e))
}

/// `new` and `r` are what looking up `k` at time `now` in `old` gives: on a
/// miss nothing changes; on a hit the entry is touched and moved to the most
/// recently used end, and `r` is the touched entry.
pub open spec fn looks_up(
    old: Seq<(KeyView, CacheEntry)>,
    new: Seq<(KeyView, CacheEntry)>,
    k: KeyView,
    now: u64,
    r: Option<CacheEntry>,
) -> bool {
    &&& r is None <==> !keys_of(old).contains(k)
    &&& r is None ==> new == old
    &&& r matches Some(e) ==> exists|i: int|
        0 <= i < old.len() && old[i].0 == k && e == touched(old[i].1, now) && new == old.remove(
            i,
        ).push((k, e))
}

/// The sum of the hit counters of `s`.
pub open spec fn hits_total(s: Seq<(KeyView, CacheEntry)>) -> int
    decreases s.len(),
{
    if s.len() == 0 {
        0
    } else {
        hits_total(s.drop_last()) + s.last().1.hits
    }
}

impl View for LRUCache {
    type V = Seq<(KeyView, CacheEntry)>;

    /// The entries with their keys, least recently used first.
    closed spec fn view(&self) -> Seq<(KeyView, CacheEntry)> {
        self.slots@.map_values(|s: CacheSlot| ((s.key.block_data@, s.key.difficulty), s.entry))
    }
}

fn duplicate_entry(e: &CacheEntry) -> (r: CacheEntry)
    ensures
        r == *e,
{
    CacheEntry {
        nonce: e.nonce,
        hash: e.hash.clone(),
        difficulty: e.difficulty,
        hits: e.hits,
        created_at: e.created_at,
        last_accessed: e.last_accessed,
    }
}

impl LRUCache {
    /// The keys in access order, least recently used first.
    pub open spec fn access_order(&self) -> Seq<KeyView> {
        keys_of(self@)
    }

    /// At most `MAX_CACHE_SIZE` entries, and no key twice.
    pub open spec fn wf(&self) -> bool {
        &&& self@.len() <= MAX_CACHE_SIZE
        &&& self.access_order().no_duplicates()
    }

    /// Access times never decrease along the access order.
    pub open spec fn time_ordered(&self) -> bool {
        ordered_by_access(self@)
    }

    /// The access time of the most recently used entry, zero when empty.
    pub open spec fn latest_access(&self) -> u64 {
        if self@.len() == 0 {
            0
        } else {
            self@.last().1.last_accessed
        }
    }

    /// The number of hits over all entries, saturated at `u64::MAX`.
    pub open spec fn total_hits(&self) -> u64 {
        if hits_total(self@) > u64::MAX {
            u64::MAX
        } else {
            hits_total(self@) as u64
        }
    }

    pub fn new() -> (r: Self)
        ensures
            r@ == Seq::<(KeyView, CacheEntry)>::empty(),
            r.wf(),
    {
        let r = LRUCache { slots: Vec::new() };
        proof {
            assert(r@ =~= Seq::<(KeyView, CacheEntry)>::empty());
            assert(r.access_order() =~= Seq::<KeyView>::empty());
        }
        r
    }

    fn make_key(block_data: &str, difficulty: u32) -> (r: CacheKey)
        ensures
            r.block_data@ == block_data@,
            r.difficulty == difficulty,
    {
        CacheKey { block_data: block_data.to_owned(), difficulty }
    }

    /// The position of `key`, if it is cached.
    fn find(&self, key: &CacheKey) -> (r: Option<usize>)
        requires
            self.wf(),
        ensures
            r matches Some(i) ==> i < self@.len() && self@[i as int].0 == (
            key.block_data@,
            key.difficulty,
            ),
            r is None ==> !self.access_order().contains((key.block_data@, key.difficulty)),
    {
        let mut i: usize = 0;
        while i < self.slots.len()
            invariant
                i <= self.slots@.len(),
                self@.len() == self.slots@.len(),
                forall|j: int|
                    0 <= j < i ==> #[trigger] self.access_order()[j] != (
                    key.block_data@,
                    key.difficulty,
                    ),
            decreases self.slots@.len() - i,
        {
            let slot = &self.slots[i];
            if slot.key.difficulty == key.difficulty && slot.key.block_data == key.block_data {
                return Some(i);
            }
            i += 1;
        }
        None
    }

    /// Looks up the solution for `(block_data, difficulty)`. On a hit the
    /// entry counts one more hit, is stamped with `now`, and becomes the most
    /// recently used; the updated entry is returned.
    pub fn get(&mut self, block_data: &str, difficulty: u32, now: u64) -> (r: Option<CacheEntry>)
        requires
            old(self).wf(),
        ensures
            final(self).wf(),
            looks_up(old(self)@, final(self)@, (block_data@, difficulty), now, r),
            old(self).time_ordered() && now >= old(self).latest_access()
                ==> final(self).time_ordered(),
    {
        let key = Self::make_key(block_data, difficulty);
        match self.find(&key) {
            None => None,
            Some(i) => {
                let ghost old_view = self@;
                let mut slot = self.slots.remove(i);
                slot.entry.hits = slot.entry.hits.saturating_add(1);
                slot.entry.last_accessed = now;
                let result = duplicate_entry(&slot.entry);
                self.slots.push(slot);
                proof {
                    let k = (block_data@, difficulty);
                    assert(keys_of(old_view)[i as int] == k);
                    assert(self@ =~= old_view.remove(i as int).push((k, result)));
                    lemma_move_to_end(old_view, i as int, (k, result));
                }
                Some(result)
            },
        }
    }

    /// Stores a solution for `(block_data, difficulty)` with no hits, stamped
    /// with `now`, as the most recently used entry. An entry under the same
    /// key is replaced; otherwise, when the cache is full, the least recently
    /// used entry is evicted first.
    pub fn insert(&mut self, block_data: String, difficulty: u32, nonce: u64, hash: String, now: u64)
        requires
            old(self).wf(),
        ensures
            final(self).wf(),
            stores(
                old(self)@,
                final(self)@,
                (block_data@, difficulty),
                fresh_entry(nonce, hash, difficulty, now),
            ),
            old(self).time_ordered() && now >= old(self).latest_access()
                ==> final(self).time_ordered(),
    {
        let ghost old_view = self@;
        let ghost k = (block_data@, difficulty);
        let key = CacheKey { block_data, difficulty };
        let entry = CacheEntry {
            nonce,
            hash,
            difficulty,
            hits: 0,
            created_at: now,
            last_accessed: now,
        };
        let ghost p = (k, entry);
        match self.find(&key) {
            Some(i) => {
                self.slots.remove(i);
                proof {
                    assert(self@ =~= old_view.remove(i as int));
                    assert(keys_of(old_view)[i as int] == k);
                    lemma_move_to_end(old_view, i as int, p);
                }
            },
            None => {
                if self.slots.len() >= MAX_CACHE_SIZE {
                    self.slots.remove(0);
                    proof {
                        lemma_drop_first(old_view);
                        assert(self@ =~= old_view.drop_first());
                        lemma_push_new(old_view.drop_first(), p);
                    }
                } else {
                    proof {
                        lemma_push_new(old_view, p);
                    }
                }
            },
        }
        let ghost before_push = self@;
        self.slots.push(CacheSlot { key, entry });
        proof {
            assert(self@ =~= before_push.push(p));
        }
    }

    /// Drops every entry.
    pub fn clear(&mut self)
        ensures
            final(self)@ == Seq::<(KeyView, CacheEntry)>::empty(),
            final(self).wf(),
            final(self).time_ordered(),
            final(self)@.len() == 0 && final(self).total_hits() == 0,
    {
        self.slots.clear();
        proof {
            assert(self@ =~= Seq::<(KeyView, CacheEntry)>::empty());
            assert(self.access_order() =~= Seq::<KeyView>::empty());
        }
    }

    /// The number of entries, the capacity, and the hits over all entries.
    pub fn stats(&self) -> (r: CacheStats)
        ensures
            r.size == self@.len(),
            r.capacity == MAX_CACHE_SIZE,
            r.total_hits == self.total_hits(),
    {
        let mut total: u64 = 0;
        let mut i: usize = 0;
        while i < self.slots.len()
            invariant
                i <= self.slots@.len(),
                self@.len() == self.slots@.len(),
                total == (if hits_total(self@.take(i as int)) > u64::MAX {
                    u64::MAX as int
                } else {
                    hits_total(self@.take(i as int))
                }),
            decreases self.slots@.len() - i,
        {
            proof {
                assert(self@.take(i as int + 1).drop_last() =~= self@.take(i as int));
                lemma_hits_total_nonneg(self@.take(i as int));
            }
            total = total.saturating_add(self.slots[i].entry.hits);
            i += 1;
        }
        proof {
            assert(self@.take(i as int) =~= self@);
        }
        CacheStats { size: self.slots.len(), capacity: MAX_CACHE_SIZE, total_hits: total }
    }
}

proof fn lemma_hits_total_nonneg(s: Seq<(KeyView, CacheEntry)>)
    ensures
        hits_total(s) >= 0,
    decreases s.len(),
{
    if s.len() > 0 {
        lemma_hits_total_nonneg(s.drop_last());
    }
}

/// Dropping the first entry keeps keys unique and access times ordered.
proof fn lemma_drop_first(s: Seq<(KeyView, CacheEntry)>)
    requires
        s.len() > 0,
    ensures
        keys_of(s.drop_first()) == keys_of(s).drop_first(),
        keys_of(s).no_duplicates() ==> keys_of(s.drop_first()).no_duplicates(),
        forall|k: KeyView| !keys_of(s).contains(k) ==> !#[trigger] keys_of(s.drop_first()).contains(k),
        ordered_by_access(s) ==> ordered_by_access(s.drop_first()),
        forall|p: (KeyView, CacheEntry)| #[trigger] no_older_than_last(s, p) ==> no_older_than_last(s.drop_first(), p),
{
    assert(keys_of(s.drop_first()) =~= keys_of(s).drop_first());
    assert forall|k: KeyView| !keys_of(s).contains(k) implies !#[trigger] keys_of(s.drop_first()).contains(k) by {
        if keys_of(s.drop_first()).contains(k) {
            let j = choose|j: int| 0 <= j < keys_of(s.drop_first()).len() && keys_of(s.drop_first())[j] == k;
            assert(keys_of(s)[j + 1] == k);
        }
    }
}

/// Appending an entry under a new key keeps keys unique, and keeps access
/// times ordered when it is no older than the last entry.
proof fn lemma_push_new(s: Seq<(KeyView, CacheEntry)>, p: (KeyView, CacheEntry))
    requires
        !keys_of(s).contains(p.0),
    ensures
        keys_of(s).no_duplicates() ==> keys_of(s.push(p)).no_duplicates(),
        ordered_by_access(s) && no_older_than_last(s, p) ==> ordered_by_access(s.push(p)),
{
    let t = s.push(p);
    assert(keys_of(t) =~= keys_of(s).push(p.0));
    if keys_of(s).no_duplicates() {
        assert forall|a: int, b: int| 0 <= a < b < keys_of(t).len() implies keys_of(t)[a] != keys_of(t)[b] by {
            if b == s.len() {
                assert(keys_of(s)[a] == keys_of(t)[a]);
            }
        }
    }
    if ordered_by_access(s) && no_older_than_last(s, p) {
        assert forall|a: int, b: int| 0 <= a < b < t.len() implies #[trigger] t[a].1.last_accessed
            <= #[trigger] t[b].1.last_accessed by {
            if b == s.len() && a < s.len() - 1 {
                assert(s[a].1.last_accessed <= s[s.len() - 1].1.last_accessed);
            }
        }
    }
}

/// Taking the entry at `i` out and appending `p` with the same key keeps the
/// keys unique, and keeps access times ordered when `p` is no older than the
/// last entry.
proof fn lemma_move_to_end(s: Seq<(KeyView, CacheEntry)>, i: int, p: (KeyView, CacheEntry))
    requires
        0 <= i < s.len(),
        s[i].0 == p.0,
    ensures
        keys_of(s).no_duplicates() ==> keys_of(s.remove(i).push(p)).no_duplicates(),
        ordered_by_access(s) && no_older_than_last(s, p) ==> ordered_by_access(
            s.remove(i).push(p),
        ),
{
    let keys = keys_of(s);
    let t = s.remove(i).push(p);
    let tkeys = keys_of(t);
    if keys.no_duplicates() {
        assert forall|a: int, b: int| 0 <= a < b < tkeys.len() implies tkeys[a] != tkeys[b] by {
            let oa = if a < i { a } else { a + 1 };
            if b == tkeys.len() - 1 {
                assert(tkeys[b] == keys[i]);
                assert(keys[oa] != keys[i]);
            } else {
                let ob = if b < i { b } else { b + 1 };
                assert(keys[oa] != keys[ob]);
            }
        }
    }
    if ordered_by_access(s) && no_older_than_last(s, p) {
        assert forall|a: int, b: int| 0 <= a < b < t.len() implies #[trigger] t[a].1.last_accessed
            <= #[trigger] t[b].1.last_accessed by {
            let oa = if a < i { a } else { a + 1 };
            if b == t.len() - 1 {
                assert(s[oa].1.last_accessed <= s[s.len() - 1].1.last_accessed);
            } else {
                let ob = if b < i { b } else { b + 1 };
                assert(s[oa].1.last_accessed <= s[ob].1.last_accessed);
            }
        }
    }
}

/// The keys of a well-formed cache are its entries one for one (as many
/// distinct keys as positions in the access order), and when access times
/// are ordered the head of the access order is the least recently accessed
/// entry.
pub proof fn lemma_access_order_matches_entries(c: &LRUCache)
    requires
        c.wf(),
    ensures
        c.access_order().len() == c@.len(),
        c.access_order().to_set().len() == c@.len(),
        c.time_ordered() && c@.len() > 0 ==> forall|i: int|
            0 <= i < c@.len() ==> c@[0].1.last_accessed <= #[trigger] c@[i].1.last_accessed,
{
    c.access_order().unique_seq_to_set();
    if c.time_ordered() && c@.len() > 0 {
        assert forall|i: int| 0 <= i < c@.len() implies c@[0].1.last_accessed
            <= #[trigger] c@[i].1.last_accessed by {
            if i > 0 {
                assert(c@[0].1.last_accessed <= c@[i].1.last_accessed);
            }
        }
    }
}

/// Looks up a cached solution `(nonce, hash)`, counting the hit in the cache.
pub fn cache_lookup(cache: &mut LRUCache, block_data: &str, difficulty: u32, now: u64) -> (r:
    Option<(u64, String)>)
    requires
        old(cache).wf(),
    ensures
        final(cache).wf(),
        exists|e: Option<CacheEntry>|
            looks_up(old(cache)@, final(cache)@, (block_data@, difficulty), now, e) && r == match e {
                Some(entry) => Some((entry.nonce, entry.hash)),
                None => None,
            },
        old(cache).time_ordered() && now >= old(cache).latest_access()
            ==> final(cache).time_ordered(),
{
    match cache.get(block_data, difficulty, now) {
        Some(entry) => Some((entry.nonce, entry.hash)),
        None => None,
    }
}

/// Stores a solution in the cache.
pub fn cache_store(
    cache: &mut LRUCache,
    block_data: String,
    difficulty: u32,
    nonce: u64,
    hash: String,
    now: u64,
)
    requires
        old(cache).wf(),
    ensures
        final(cache).wf(),
        stores(
            old(cache)@,
            final(cache)@,
            (block_data@, difficulty),
            fresh_entry(nonce, hash, difficulty, now),
        ),
        old(cache).time_ordered() && now >= old(cache).latest_access()
            ==> final(cache).time_ordered(),
{
    cache.insert(block_data, difficulty, nonce, hash, now);
}

} // verus!
