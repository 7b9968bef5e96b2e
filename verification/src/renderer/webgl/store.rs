//! Memory budget of a store of GPU resources: which resources are registered,
//! how many bytes each occupies, and in which order they were last used, so
//! that the least recently used ones can be released when the store runs over
//! its budget.
use vstd::prelude::*;

verus! {

/// The largest budget a store accepts, `i32::MAX` bytes.
pub const MAX_AVAILABLE_MEMORY: usize = 2147483647;

/// One resource registered in a [`MemoryStore`].
#[derive(Debug, Clone, Copy, PartialEq, Eq, Structural)]
pub struct StoreEntry {
    /// Identifier of the resource.
    pub id: u64,
    /// Bytes of GPU memory the resource occupies.
    pub byte_length: usize,
    /// Whether releasing the resource would give its memory back
    /// (it is not bound, and its memory policy allows it).
    pub freeable: bool,
    /// Whether the resource takes part in the least-recently-used order.
    pub cached: bool,
}

/// Sum of the byte lengths of the entries.
pub open spec fn total_bytes(s: Seq<StoreEntry>) -> nat
    decreases s.len(),
{
    if s.len() == 0 {
        0
    } else {
        total_bytes(s.drop_last()) + s.last().byte_length as nat
    }
}

/// An entry the store may release when it runs over budget.
pub open spec fn evictable(e: StoreEntry) -> bool {
    e.cached && e.freeable
}

/// Bytes released by evicting every evictable entry among the first `k`.
pub open spec fn evictable_bytes(s: Seq<StoreEntry>, k: int) -> nat
    decreases k,
{
    if k <= 0 {
        0
    } else {
        evictable_bytes(s, k - 1) + if evictable(s[k - 1]) {
            s[k - 1].byte_length as nat
        } else {
            0nat
        }
    }
}

/// Identifiers of the evictable entries among the first `k`, in order.
pub open spec fn evictable_ids(s: Seq<StoreEntry>, k: int) -> Seq<u64>
    decreases k,
{
    if k <= 0 {
        Seq::empty()
    } else if evictable(s[k - 1]) {
        evictable_ids(s, k - 1).push(s[k - 1].id)
    } else {
        evictable_ids(s, k - 1)
    }
}

/// An entry after its resource has been released: it occupies no memory and
/// leaves the least-recently-used order, but stays registered.
pub open spec fn released(e: StoreEntry) -> StoreEntry {
    StoreEntry { byte_length: 0, cached: false, ..e }
}

/// `k` is where an eviction pass over `s` stops: starting with `used` bytes in
/// use, it walks the entries from the least recently used one, releasing each
/// evictable entry, for as long as more than `available` bytes are in use.
pub open spec fn eviction_stop(s: Seq<StoreEntry>, used: nat, available: nat, k: int) -> bool {
    &&& 0 <= k <= s.len()
    &&& forall|j: int| 0 <= j < k ==> used - evictable_bytes(s, j) > available
    &&& (k == s.len() || used - evictable_bytes(s, k) <= available)
}

/// The entries after the evictable ones among the first `k` were released.
pub open spec fn after_eviction(s: Seq<StoreEntry>, k: int) -> Seq<StoreEntry> {
    Seq::new(s.len(), |i: int| if i < k && evictable(s[i]) { released(s[i]) } else { s[i] })
}

/// No two entries share an identifier.
pub open spec fn distinct_ids(s: Seq<StoreEntry>) -> bool {
    forall|i: int, j: int| 0 <= i < j < s.len() ==> s[i].id != s[j].id
}

/// Index of the entry with identifier `id`, when there is one.
pub open spec fn has_id(s: Seq<StoreEntry>, id: u64) -> bool {
    exists|i: int| 0 <= i < s.len() && s[i].id == id
}

proof fn lemma_total_update(s: Seq<StoreEntry>, i: int, e: StoreEntry)
    requires
        0 <= i < s.len(),
    ensures
        total_bytes(s.update(i, e)) == total_bytes(s) - s[i].byte_length + e.byte_length,
    decreases s.len(),
{
    let t = s.update(i, e);
    if i == s.len() - 1 {
        assert(t.drop_last() =~= s.drop_last());
    } else {
        assert(t.drop_last() =~= s.drop_last().update(i, e));
        lemma_total_update(s.drop_last(), i, e);
    }
}

proof fn lemma_total_remove(s: Seq<StoreEntry>, i: int)
    requires
        0 <= i < s.len(),
    ensures
        total_bytes(s.remove(i)) + s[i].byte_length == total_bytes(s),
    decreases s.len(),
{
    if i == s.len() - 1 {
        assert(s.remove(i) =~= s.drop_last());
    } else {
        assert(s.remove(i).drop_last() =~= s.drop_last().remove(i));
        lemma_total_remove(s.drop_last(), i);
    }
}

proof fn lemma_total_push(s: Seq<StoreEntry>, e: StoreEntry)
    ensures
        total_bytes(s.push(e)) == total_bytes(s) + e.byte_length,
{
    assert(s.push(e).drop_last() =~= s);
}

/// Memory budget and least-recently-used bookkeeping of a resource store.
pub struct MemoryStore {
    available_memory: usize,
    used_memory: usize,
    entries: Vec<StoreEntry>,
}

impl MemoryStore {
    /// The budget, in bytes.
    pub closed spec fn spec_available(&self) -> nat {
        self.available_memory as nat
    }

    /// The bytes in use.
    pub closed spec fn spec_used(&self) -> nat {
        self.used_memory as nat
    }

    /// The registered resources, the least recently used first.
    pub closed spec fn spec_entries(&self) -> Seq<StoreEntry> {
        self.entries@
    }

    /// The bytes in use are those of the registered resources, each resource
    /// is registered once, and the budget does not exceed `i32::MAX` bytes.
    pub open spec fn wf(&self) -> bool {
        &&& self.spec_used() == total_bytes(self.spec_entries())
        &&& distinct_ids(self.spec_entries())
        &&& self.spec_available() <= MAX_AVAILABLE_MEMORY
    }

    /// Constructs a store with the largest budget, `i32::MAX` bytes.
    pub fn new() -> (r: Self)
        ensures
            r.wf(),
            r.spec_available() == MAX_AVAILABLE_MEMORY,
            r.spec_used() == 0,
            r.spec_entries() == Seq::<StoreEntry>::empty(),
    {
        Self::with_available_memory(MAX_AVAILABLE_MEMORY)
    }

    /// Constructs a store with a budget of `available_memory` bytes, clamped
    /// to `i32::MAX`.
    pub fn with_available_memory(available_memory: usize) -> (r: Self)
        ensures
            r.wf(),
            r.spec_available() == if available_memory <= MAX_AVAILABLE_MEMORY {
                available_memory as nat
            } else {
                MAX_AVAILABLE_MEMORY as nat
            },
            r.spec_used() == 0,
            r.spec_entries() == Seq::<StoreEntry>::empty(),
    {
        let available = if available_memory <= MAX_AVAILABLE_MEMORY {
            available_memory
        } else {
            MAX_AVAILABLE_MEMORY
        };
        let r = MemoryStore { available_memory: available, used_memory: 0, entries: Vec::new() };
        assert(total_bytes(r.entries@) == 0);
        r
    }

    /// Returns the budget in bytes.
    pub fn available_memory(&self) -> (r: usize)
        ensures
            r == self.spec_available(),
    {
        self.available_memory
    }

    /// Returns the bytes in use.
    pub fn used_memory(&self) -> (r: usize)
        ensures
            r == self.spec_used(),
    {
        self.used_memory
    }

    /// Returns the registered resources, the least recently used first.
    pub fn entries(&self) -> (r: &Vec<StoreEntry>)
        ensures
            r@ == self.spec_entries(),
    {
        &self.entries
    }

    /// Position of the resource `id` in the store.
    pub fn position(&self, id: u64) -> (r: Option<usize>)
        ensures
            match r {
                Some(i) => i < self.spec_entries().len() && self.spec_entries()[i as int].id == id,
                None => !has_id(self.spec_entries(), id),
            },
    {
        let mut i: usize = 0;
        while i < self.entries.len()
            invariant
                i <= self.entries@.len(),
                forall|j: int| 0 <= j < i ==> self.entries@[j].id != id,
            decreases self.entries@.len() - i,
        {
            if self.entries[i].id == id {
                return Some(i);
            }
            i = i + 1;
        }
        None
    }

    /// Whether the resource `id` is registered.
    pub fn contains(&self, id: u64) -> (r: bool)
        ensures
            r == has_id(self.spec_entries(), id),
    {
        self.position(id).is_some()
    }

    /// Registers the resource `id`, occupying `byte_length` bytes, outside the
    /// least-recently-used order. Returns `false`, changing nothing, when it
    /// is registered already.
    pub fn register(&mut self, id: u64, byte_length: usize, freeable: bool) -> (r: bool)
        requires
            old(self).wf(),
            old(self).spec_used() + byte_length <= usize::MAX,
        ensures
            final(self).wf(),
            r == !has_id(old(self).spec_entries(), id),
            final(self).spec_available() == old(self).spec_available(),
            r ==> final(self).spec_entries() == old(self).spec_entries().push(
                StoreEntry { id, byte_length, freeable, cached: false },
            ),
            r ==> final(self).spec_used() == old(self).spec_used() + byte_length,
            !r ==> *final(self) == *old(self),
    {
        if self.contains(id) {
            return false;
        }
        let e = StoreEntry { id, byte_length, freeable, cached: false };
        proof {
            lemma_total_push(self.entries@, e);
        }
        self.entries.push(e);
        self.used_memory = self.used_memory + byte_length;
        true
    }

    /// Unregisters the resource `id`, giving its bytes back. Returns `false`,
    /// changing nothing, when it is not registered.
    pub fn unregister(&mut self, id: u64) -> (r: bool)
        requires
            old(self).wf(),
        ensures
            final(self).wf(),
            r == has_id(old(self).spec_entries(), id),
            final(self).spec_available() == old(self).spec_available(),
            r ==> exists|i: int|
                0 <= i < old(self).spec_entries().len() && old(self).spec_entries()[i].id == id
                    && final(self).spec_entries() == old(self).spec_entries().remove(i)
                    && final(self).spec_used() == old(self).spec_used()
                        - old(self).spec_entries()[i].byte_length,
            !r ==> *final(self) == *old(self),
    {
        match self.position(id) {
            None => false,
            Some(i) => {
                proof {
                    lemma_total_remove(self.entries@, i as int);
                }
                let e = self.entries.remove(i);
                self.used_memory = self.used_memory - e.byte_length;
                true
            },
        }
    }

    /// Marks the resource `id` as the most recently used one.
    /// Changes nothing when it is not registered.
    pub fn cache(&mut self, id: u64)
        requires
            old(self).wf(),
        ensures
            final(self).wf(),
            final(self).spec_available() == old(self).spec_available(),
            final(self).spec_used() == old(self).spec_used(),
            !has_id(old(self).spec_entries(), id) ==> *final(self) == *old(self),
            has_id(old(self).spec_entries(), id) ==> exists|i: int|
                0 <= i < old(self).spec_entries().len() && old(self).spec_entries()[i].id == id
                    && final(self).spec_entries() == old(self).spec_entries().remove(i).push(
                    StoreEntry { cached: true, ..old(self).spec_entries()[i] },
                ),
    {
        if let Some(i) = self.position(id) {
            let ghost s = self.entries@;
            let e = self.entries.remove(i);
            let moved = StoreEntry { cached: true, ..e };
            proof {
                lemma_total_remove(s, i as int);
                lemma_total_push(s.remove(i as int), moved);
                assert forall|a: int, b: int|
                    0 <= a < b < self.entries@.len() + 1 implies #[trigger] self.entries@.push(moved)[a].id
                    != #[trigger] self.entries@.push(moved)[b].id by {
                    if b == self.entries@.len() {
                        if a < i {
                            assert(s[a].id != s[i as int].id);
                        } else {
                            assert(s[a + 1].id != s[i as int].id);
                        }
                    } else {
                        let a2 = if a < i { a } else { a + 1 };
                        let b2 = if b < i { b } else { b + 1 };
                        assert(s[a2].id != s[b2].id);
                    }
                }
            }
            self.entries.push(moved);
        }
    }

    /// The memory in use fits in a `usize`.
    pub proof fn lemma_used_fits(&self)
        ensures
            self.spec_used() <= usize::MAX,
    {
    }

    /// Records a use of the resource `id`: it becomes the most recently used
    /// resource, now occupying `byte_length` bytes, and `freeable` tells
    /// whether releasing it would give its memory back. Changes nothing when
    /// it is not registered.
    pub fn record_use(&mut self, id: u64, byte_length: usize, freeable: bool)
        requires
            old(self).wf(),
            old(self).spec_used() + byte_length <= usize::MAX,
        ensures
            final(self).wf(),
            final(self).spec_available() == old(self).spec_available(),
            !has_id(old(self).spec_entries(), id) ==> *final(self) == *old(self),
            has_id(old(self).spec_entries(), id) ==> exists|i: int|
                0 <= i < old(self).spec_entries().len() && old(self).spec_entries()[i].id == id
                    && final(self).spec_entries() == old(self).spec_entries().remove(i).push(
                    StoreEntry { id, byte_length, freeable, cached: true },
                ) && final(self).spec_used() == old(self).spec_used() - old(self).spec_entries()[i].byte_length
                    + byte_length,
    {
        if let Some(i) = self.position(id) {
            let ghost s = self.entries@;
            let e = self.entries.remove(i);
            let moved = StoreEntry { id, byte_length, freeable, cached: true };
            proof {
                lemma_total_remove(s, i as int);
                lemma_total_push(s.remove(i as int), moved);
                assert forall|a: int, b: int|
                    0 <= a < b < self.entries@.len() + 1 implies #[trigger] self.entries@.push(moved)[a].id
                    != #[trigger] self.entries@.push(moved)[b].id by {
                    if b == self.entries@.len() {
                        if a < i {
                            assert(s[a].id != s[i as int].id);
                        } else {
                            assert(s[a + 1].id != s[i as int].id);
                        }
                    } else {
                        let a2 = if a < i { a } else { a + 1 };
                        let b2 = if b < i { b } else { b + 1 };
                        assert(s[a2].id != s[b2].id);
                    }
                }
            }
            self.used_memory = self.used_memory - e.byte_length + byte_length;
            self.entries.push(moved);
        }
    }

    /// Takes the resource `id` out of the least-recently-used order.
    /// Changes nothing when it is not registered.
    pub fn uncache(&mut self, id: u64)
        requires
            old(self).wf(),
        ensures
            final(self).wf(),
            final(self).spec_available() == old(self).spec_available(),
            final(self).spec_used() == old(self).spec_used(),
            !has_id(old(self).spec_entries(), id) ==> *final(self) == *old(self),
            has_id(old(self).spec_entries(), id) ==> exists|i: int|
                0 <= i < old(self).spec_entries().len() && old(self).spec_entries()[i].id == id
                    && final(self).spec_entries() == old(self).spec_entries().update(
                    i,
                    StoreEntry { cached: false, ..old(self).spec_entries()[i] },
                ),
    {
        if let Some(i) = self.position(id) {
            let e = self.entries[i];
            let changed = StoreEntry { cached: false, ..e };
            proof {
                lemma_total_update(self.entries@, i as int, changed);
            }
            self.entries.set(i, changed);
        }
    }

    /// Records that the resource `id` now occupies `byte_length` bytes.
    /// Changes nothing when it is not registered.
    pub fn set_byte_length(&mut self, id: u64, byte_length: usize)
        requires
            old(self).wf(),
            old(self).spec_used() + byte_length <= usize::MAX,
        ensures
            final(self).wf(),
            final(self).spec_available() == old(self).spec_available(),
            !has_id(old(self).spec_entries(), id) ==> *final(self) == *old(self),
            has_id(old(self).spec_entries(), id) ==> exists|i: int|
                0 <= i < old(self).spec_entries().len() && old(self).spec_entries()[i].id == id
                    && final(self).spec_entries() == old(self).spec_entries().update(
                    i,
                    StoreEntry { byte_length, ..old(self).spec_entries()[i] },
                ) && final(self).spec_used() == old(self).spec_used()
                    - old(self).spec_entries()[i].byte_length + byte_length,
    {
        if let Some(i) = self.position(id) {
            let e = self.entries[i];
            let changed = StoreEntry { byte_length, ..e };
            proof {
                lemma_total_update(self.entries@, i as int, changed);
                lemma_total_remove(self.entries@, i as int);
            }
            self.used_memory = self.used_memory - e.byte_length + byte_length;
            self.entries.set(i, changed);
        }
    }

    /// Records whether releasing the resource `id` would give its memory back.
    /// Changes nothing when it is not registered.
    pub fn set_freeable(&mut self, id: u64, freeable: bool)
        requires
            old(self).wf(),
        ensures
            final(self).wf(),
            final(self).spec_available() == old(self).spec_available(),
            final(self).spec_used() == old(self).spec_used(),
            !has_id(old(self).spec_entries(), id) ==> *final(self) == *old(self),
            has_id(old(self).spec_entries(), id) ==> exists|i: int|
                0 <= i < old(self).spec_entries().len() && old(self).spec_entries()[i].id == id
                    && final(self).spec_entries() == old(self).spec_entries().update(
                    i,
                    StoreEntry { freeable, ..old(self).spec_entries()[i] },
                ),
    {
        if let Some(i) = self.position(id) {
            let e = self.entries[i];
            let changed = StoreEntry { freeable, ..e };
            proof {
                lemma_total_update(self.entries@, i as int, changed);
            }
            self.entries.set(i, changed);
        }
    }

    /// Frees memory when more than the budget is in use: releases the
    /// evictable resources from the least recently used one on, until the
    /// memory in use is within the budget or none is left to release.
    /// Returns the identifiers of the released resources, in the order they
    /// were released; their owners must give the memory back.
    pub fn free(&mut self) -> (r: Vec<u64>)
        requires
            old(self).wf(),
        ensures
            final(self).wf(),
            final(self).spec_available() == old(self).spec_available(),
            exists|k: int|
                eviction_stop(old(self).spec_entries(), old(self).spec_used(), old(self).spec_available(), k)
                    && final(self).spec_entries() == after_eviction(old(self).spec_entries(), k)
                    && final(self).spec_used() == old(self).spec_used()
                        - evictable_bytes(old(self).spec_entries(), k)
                    && r@ == evictable_ids(old(self).spec_entries(), k),
    {
        let ghost s0 = self.entries@;
        let ghost u0 = self.used_memory as nat;
        let ghost avail = self.available_memory as nat;
        let mut ids: Vec<u64> = Vec::new();
        let mut i: usize = 0;
        while i < self.entries.len() && self.used_memory > self.available_memory
            invariant
                self.entries@.len() == s0.len(),
                0 <= i <= s0.len(),
                self.available_memory == avail,
                avail <= MAX_AVAILABLE_MEMORY,
                distinct_ids(s0),
                self.entries@ =~= Seq::new(
                    s0.len(),
                    |j: int| if j < i && evictable(s0[j]) { released(s0[j]) } else { s0[j] },
                ),
                self.used_memory == total_bytes(self.entries@),
                self.used_memory == u0 - evictable_bytes(s0, i as int),
                forall|j: int| 0 <= j < i ==> u0 - evictable_bytes(s0, j) > avail,
                ids@ == evictable_ids(s0, i as int),
            decreases s0.len() - i,
        {
            let e = self.entries[i];
            if e.cached && e.freeable {
                let changed = StoreEntry { byte_length: 0, cached: false, ..e };
                proof {
                    lemma_total_update(self.entries@, i as int, changed);
                }
                self.used_memory = self.used_memory - e.byte_length;
                self.entries.set(i, changed);
                ids.push(e.id);
            }
            i = i + 1;
        }
        proof {
            assert(self.entries@ =~= after_eviction(s0, i as int));
            assert(distinct_ids(self.entries@)) by {
                assert forall|a: int, b: int| 0 <= a < b < self.entries@.len() implies self.entries@[a].id
                    != self.entries@[b].id by {
                    assert(s0[a].id != s0[b].id);
                }
            }
        }
        ids
    }
}

/// After an eviction pass, the memory in use is within the budget, or no
/// resource that could be released is left.
pub proof fn lemma_eviction_meets_budget(s: Seq<StoreEntry>, used: nat, available: nat, k: int)
    requires
        eviction_stop(s, used, available, k),
    ensures
        used - evictable_bytes(s, k) <= available || forall|j: int|
            0 <= j < s.len() ==> !evictable(#[trigger] after_eviction(s, k)[j]),
{
}

/// An eviction pass leaves every resource that could not be released as it was.
pub proof fn lemma_eviction_keeps_unfreeable(s: Seq<StoreEntry>, k: int)
    ensures
        forall|j: int| 0 <= j < s.len() && !evictable(s[j]) ==> #[trigger] after_eviction(s, k)[j] == s[j],
{
}

/// An eviction pass releases resources in least-recently-used order: when it
/// releases a resource, it has released every evictable resource used less
/// recently than that one.
pub proof fn lemma_eviction_in_lru_order(s: Seq<StoreEntry>, k: int)
    ensures
        forall|i: int, j: int|
            0 <= i < j < s.len() && evictable(s[i]) && #[trigger] after_eviction(s, k)[j] != s[j]
                ==> #[trigger] after_eviction(s, k)[i] == released(s[i]),
{
}

/// Unregistering a resource right after registering it gives back the
/// entries and the memory in use from before the registration.
pub proof fn lemma_unregister_undoes_register(s: Seq<StoreEntry>, used: nat, e: StoreEntry, i: int)
    requires
        !has_id(s, e.id),
        0 <= i < s.push(e).len(),
        s.push(e)[i].id == e.id,
    ensures
        s.push(e).remove(i) == s,
        (used + e.byte_length) - s.push(e)[i].byte_length == used,
{
    if i < s.len() {
        assert(s[i].id == e.id);
    }
    assert(s.push(e).remove(i) =~= s);
}

/// A store that registers a resource and then unregisters it holds the
/// entries and uses the memory it did before: `registered` is the store as
/// [`MemoryStore::register`] leaves it when it registers `id`, and
/// `unregistered` that store as [`MemoryStore::unregister`] leaves it when
/// it unregisters `id`.
pub proof fn lemma_store_unregister_undoes_register(
    store: MemoryStore,
    registered: MemoryStore,
    unregistered: MemoryStore,
    id: u64,
    byte_length: usize,
    freeable: bool,
)
    requires
        store.wf(),
        !has_id(store.spec_entries(), id),
        registered.spec_entries() == store.spec_entries().push(StoreEntry { id, byte_length, freeable, cached: false }),
        registered.spec_used() == store.spec_used() + byte_length,
        exists|i: int|
            0 <= i < registered.spec_entries().len() && registered.spec_entries()[i].id == id
                && unregistered.spec_entries() == registered.spec_entries().remove(i) && unregistered.spec_used()
                == registered.spec_used() - registered.spec_entries()[i].byte_length,
    ensures
        unregistered.spec_entries() == store.spec_entries(),
        unregistered.spec_used() == store.spec_used(),
{
    let i = choose|i: int|
        0 <= i < registered.spec_entries().len() && registered.spec_entries()[i].id == id
            && unregistered.spec_entries() == registered.spec_entries().remove(i) && unregistered.spec_used()
            == registered.spec_used() - registered.spec_entries()[i].byte_length;
    lemma_unregister_undoes_register(
        store.spec_entries(),
        store.spec_used(),
        StoreEntry { id, byte_length, freeable, cached: false },
        i,
    );
}

/// A store within its budget releases nothing.
pub proof fn lemma_eviction_within_budget(s: Seq<StoreEntry>, used: nat, available: nat, k: int)
    requires
        eviction_stop(s, used, available, k),
        used <= available,
    ensures
        k == 0,
        after_eviction(s, k) == s,
        evictable_ids(s, k) == Seq::<u64>::empty(),
{
    if k > 0 {
        assert(used - evictable_bytes(s, 0) > available);
    }
    assert(after_eviction(s, k) =~= s);
}

} // verus!
