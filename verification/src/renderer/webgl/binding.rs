//! Tables recording which resource is bound at each binding point of a
//! WebGL context (a buffer target, a uniform buffer mount point, a texture
//! unit), so that a resource does not take a point another one holds.
use vstd::prelude::*;

verus! {

/// A binding point, compared by value.
pub trait BindingKey: Copy {
    /// Whether `self` and `other` are the same binding point.
    fn same(&self, other: &Self) -> (r: bool)
        ensures
            r == (*self == *other),
    ;
}

impl BindingKey for u32 {
    fn same(&self, other: &Self) -> (r: bool) {
        *self == *other
    }
}

/// The bindings of `s` as a map, later entries overriding earlier ones.
pub open spec fn bindings_map<K>(s: Seq<(K, u64)>) -> Map<K, u64>
    decreases s.len(),
{
    if s.len() == 0 {
        Map::empty()
    } else {
        bindings_map(s.drop_last()).insert(s.last().0, s.last().1)
    }
}

/// No binding point occurs twice.
pub open spec fn distinct_keys<K>(s: Seq<(K, u64)>) -> bool {
    forall|i: int, j: int| 0 <= i < j < s.len() ==> s[i].0 != s[j].0
}

proof fn lemma_map_contains<K>(s: Seq<(K, u64)>)
    requires
        distinct_keys(s),
    ensures
        forall|k: K| #[trigger] bindings_map(s).contains_key(k) <==> exists|i: int| 0 <= i < s.len() && s[i].0 == k,
        forall|i: int| 0 <= i < s.len() ==> #[trigger] bindings_map(s)[s[i].0] == s[i].1,
    decreases s.len(),
{
    if s.len() > 0 {
        lemma_map_contains(s.drop_last());
        let t = s.drop_last();
        assert forall|k: K| #[trigger] bindings_map(s).contains_key(k) <==> exists|i: int|
            0 <= i < s.len() && s[i].0 == k by {
            if k != s.last().0 {
                if bindings_map(s).contains_key(k) {
                    assert(bindings_map(t).contains_key(k));
                    let i = choose|i: int| 0 <= i < t.len() && t[i].0 == k;
                    assert(s[i].0 == k);
                }
                if exists|i: int| 0 <= i < s.len() && s[i].0 == k {
                    let i = choose|i: int| 0 <= i < s.len() && s[i].0 == k;
                    assert(i < t.len());
                    assert(t[i].0 == k);
                    assert(bindings_map(t).contains_key(k));
                }
            } else {
                assert(s[s.len() - 1].0 == k);
            }
        }
        assert forall|i: int| 0 <= i < s.len() implies #[trigger] bindings_map(s)[s[i].0] == s[i].1 by {
            if i < s.len() - 1 {
                assert(s[i].0 != s[s.len() - 1].0);
                assert(t[i] == s[i]);
                assert(bindings_map(t)[t[i].0] == t[i].1);
            }
        }
    }
}

proof fn lemma_map_update<K>(s: Seq<(K, u64)>, i: int, v: u64)
    requires
        distinct_keys(s),
        0 <= i < s.len(),
    ensures
        bindings_map(s.update(i, (s[i].0, v))) == bindings_map(s).insert(s[i].0, v),
    decreases s.len(),
{
    let t = s.update(i, (s[i].0, v));
    if i == s.len() - 1 {
        assert(t.drop_last() =~= s.drop_last());
    } else {
        assert(t.drop_last() =~= s.drop_last().update(i, (s[i].0, v)));
        lemma_map_update(s.drop_last(), i, v);
        assert(s[i].0 != s.last().0);
    }
    assert(bindings_map(t) =~= bindings_map(s).insert(s[i].0, v));
}

proof fn lemma_map_remove<K>(s: Seq<(K, u64)>, i: int)
    requires
        distinct_keys(s),
        0 <= i < s.len(),
    ensures
        bindings_map(s.remove(i)) == bindings_map(s).remove(s[i].0),
    decreases s.len(),
{
    if i == s.len() - 1 {
        assert(s.remove(i) =~= s.drop_last());
        lemma_map_contains(s.drop_last());
        assert forall|j: int| 0 <= j < s.drop_last().len() implies s.drop_last()[j].0 != s[i].0 by {
            assert(s[j].0 != s[i].0);
        }
        assert(!bindings_map(s.drop_last()).contains_key(s[i].0));
        assert(bindings_map(s.remove(i)) =~= bindings_map(s).remove(s[i].0));
    } else {
        assert(s.remove(i).drop_last() =~= s.drop_last().remove(i));
        lemma_map_remove(s.drop_last(), i);
        assert(s[i].0 != s.last().0);
        assert(bindings_map(s.remove(i)) =~= bindings_map(s).remove(s[i].0));
    }
}

/// Which resource holds each binding point.
#[verifier::reject_recursive_types(K)]
pub struct BindingTable<K> {
    entries: Vec<(K, u64)>,
}

impl<K> View for BindingTable<K> {
    type V = Map<K, u64>;

    closed spec fn view(&self) -> Map<K, u64> {
        bindings_map(self.entries@)
    }
}

impl<K: BindingKey> BindingTable<K> {
    /// Each binding point is recorded once.
    pub closed spec fn wf(&self) -> bool {
        distinct_keys(self.entries@)
    }

    /// Constructs an empty table.
    pub fn new() -> (r: Self)
        ensures
            r.wf(),
            r@ == Map::<K, u64>::empty(),
    {
        BindingTable { entries: Vec::new() }
    }

    fn position(&self, key: &K) -> (r: Option<usize>)
        requires
            self.wf(),
        ensures
            match r {
                Some(i) => i < self.entries@.len() && self.entries@[i as int].0 == *key,
                None => forall|j: int| 0 <= j < self.entries@.len() ==> self.entries@[j].0 != *key,
            },
    {
        let mut i: usize = 0;
        while i < self.entries.len()
            invariant
                i <= self.entries@.len(),
                forall|j: int| 0 <= j < i ==> self.entries@[j].0 != *key,
            decreases self.entries@.len() - i,
        {
            if self.entries[i].0.same(key) {
                return Some(i);
            }
            i = i + 1;
        }
        None
    }

    /// The resource holding `key`, if any.
    pub fn get(&self, key: &K) -> (r: Option<u64>)
        requires
            self.wf(),
        ensures
            r == if self@.contains_key(*key) {
                Some(self@[*key])
            } else {
                None
            },
    {
        proof {
            lemma_map_contains(self.entries@);
        }
        match self.position(key) {
            Some(i) => Some(self.entries[i].1),
            None => None,
        }
    }

    /// Whether `key` is held by a resource other than `id`.
    pub fn is_held_by_other(&self, key: &K, id: u64) -> (r: bool)
        requires
            self.wf(),
        ensures
            r == (self@.contains_key(*key) && self@[*key] != id),
    {
        match self.get(key) {
            Some(holder) => holder != id,
            None => false,
        }
    }

    /// Records that `id` holds `key`.
    pub fn insert(&mut self, key: K, id: u64)
        requires
            old(self).wf(),
        ensures
            final(self).wf(),
            final(self)@ == old(self)@.insert(key, id),
    {
        match self.position(&key) {
            Some(i) => {
                proof {
                    lemma_map_update(self.entries@, i as int, id);
                }
                self.entries.set(i, (key, id));
            },
            None => {
                proof {
                    assert(self.entries@.push((key, id)).drop_last() =~= self.entries@);
                }
                self.entries.push((key, id));
            },
        }
    }

    /// Forgets who holds `key`; returns the resource that held it.
    pub fn remove(&mut self, key: &K) -> (r: Option<u64>)
        requires
            old(self).wf(),
        ensures
            final(self).wf(),
            final(self)@ == old(self)@.remove(*key),
            r == if old(self)@.contains_key(*key) {
                Some(old(self)@[*key])
            } else {
                None
            },
    {
        proof {
            lemma_map_contains(self.entries@);
        }
        match self.position(key) {
            Some(i) => {
                proof {
                    lemma_map_remove(self.entries@, i as int);
                }
                let (_, holder) = self.entries.remove(i);
                Some(holder)
            },
            None => {
                assert(self@.remove(*key) =~= self@);
                None
            },
        }
    }

    /// Forgets who holds `key` when it is `id`.
    pub fn release(&mut self, key: &K, id: u64)
        requires
            old(self).wf(),
        ensures
            final(self).wf(),
            final(self)@ == if old(self)@.contains_key(*key) && old(self)@[*key] == id {
                old(self)@.remove(*key)
            } else {
                old(self)@
            },
    {
        if let Some(holder) = self.get(key) {
            if holder == id {
                self.remove(key);
            }
        }
    }
}

/// Forgets who holds each of `keys` when it is `id`; other holders stay.
pub fn release_all<K: BindingKey>(table: &mut BindingTable<K>, keys: &Vec<K>, id: u64)
    requires
        old(table).wf(),
    ensures
        final(table).wf(),
        forall|k: K| #[trigger] final(table)@.contains_key(k) <==> old(table)@.contains_key(k) && !(keys@.contains(k)
            && old(table)@[k] == id),
        forall|k: K| #[trigger] final(table)@.contains_key(k) ==> final(table)@[k] == old(table)@[k],
{
    let ghost b0 = table@;
    let mut i: usize = 0;
    while i < keys.len()
        invariant
            table.wf(),
            i <= keys@.len(),
            b0 == old(table)@,
            forall|k: K| #[trigger] table@.contains_key(k)
                <==> b0.contains_key(k) && !(keys@.subrange(0, i as int).contains(k) && b0[k] == id),
            forall|k: K| #[trigger] table@.contains_key(k) ==> table@[k] == b0[k],
        decreases keys@.len() - i,
    {
        let key = keys[i];
        table.release(&key, id);
        proof {
            let pre = keys@.subrange(0, i as int);
            let post = keys@.subrange(0, i + 1);
            assert forall|x: K| #[trigger] post.contains(x) <==> pre.contains(x) || x == key by {
                if post.contains(x) {
                    let j = choose|j: int| 0 <= j < post.len() && post[j] == x;
                    if j < i {
                        assert(pre[j] == x);
                    }
                }
                if pre.contains(x) {
                    let j = choose|j: int| 0 <= j < pre.len() && pre[j] == x;
                    assert(post[j] == x);
                }
                if x == key {
                    assert(post[i as int] == x);
                }
            }
        }
        i = i + 1;
    }
    assert(keys@.subrange(0, keys@.len() as int) =~= keys@);
}

/// Whether `keys` holds `key`.
pub fn keys_contain<K: BindingKey>(keys: &Vec<K>, key: &K) -> (r: bool)
    ensures
        r == keys@.contains(*key),
{
    let mut i: usize = 0;
    while i < keys.len()
        invariant
            i <= keys@.len(),
            forall|j: int| 0 <= j < i ==> keys@[j] != *key,
        decreases keys@.len() - i,
    {
        if keys[i].same(key) {
            assert(keys@[i as int] == *key);
            return true;
        }
        i = i + 1;
    }
    false
}

/// Adds `key` to `keys` unless it is there already.
pub fn keys_insert<K: BindingKey>(keys: &mut Vec<K>, key: K)
    requires
        old(keys)@.no_duplicates(),
    ensures
        final(keys)@.no_duplicates(),
        final(keys)@ == if old(keys)@.contains(key) {
            old(keys)@
        } else {
            old(keys)@.push(key)
        },
{
    if !keys_contain(keys, &key) {
        keys.push(key);
    }
}

/// Takes `key` out of `keys`; returns whether it was there.
pub fn keys_remove<K: BindingKey>(keys: &mut Vec<K>, key: &K) -> (r: bool)
    requires
        old(keys)@.no_duplicates(),
    ensures
        final(keys)@.no_duplicates(),
        r == old(keys)@.contains(*key),
        forall|k: K| #[trigger] final(keys)@.contains(k) <==> old(keys)@.contains(k) && k != *key,
        final(keys)@.len() == if r { old(keys)@.len() - 1 } else { old(keys)@.len() as int },
{
    let mut i: usize = 0;
    while i < keys.len()
        invariant
            i <= keys@.len(),
            keys@ == old(keys)@,
            keys@.no_duplicates(),
            forall|j: int| 0 <= j < i ==> keys@[j] != *key,
        decreases keys@.len() - i,
    {
        if keys[i].same(key) {
            let ghost before = keys@;
            keys.remove(i);
            assert(keys@ =~= before.remove(i as int));
            assert(keys@.no_duplicates()) by {
                assert forall|a: int, b: int| 0 <= a < keys@.len() && 0 <= b < keys@.len() && a != b implies keys@[a] != keys@[b] by {
                    let a2 = if a < i { a } else { a + 1 };
                    let b2 = if b < i { b } else { b + 1 };
                    assert(before[a2] != before[b2]);
                }
            }
            assert forall|k: K| #[trigger] keys@.contains(k) <==> before.contains(k) && k != *key by {
                if keys@.contains(k) {
                    let j = choose|j: int| 0 <= j < keys@.len() && keys@[j] == k;
                    if j < i {
                        assert(before[j] == k);
                    } else {
                        assert(before[j + 1] == k);
                        assert(before[j + 1] != before[i as int]);
                    }
                }
                if before.contains(k) && k != *key {
                    let j = choose|j: int| 0 <= j < before.len() && before[j] == k;
                    if j < i {
                        assert(keys@[j] == k);
                    } else {
                        assert(j != i);
                        assert(keys@[j - 1] == k);
                    }
                }
            }
            return true;
        }
        i = i + 1;
    }
    false
}

} // verus!
