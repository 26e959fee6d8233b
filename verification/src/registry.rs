use vstd::prelude::*;

verus! {

/// A record stored under a key; a registry holds at most one record per key.
pub trait Keyed: View + Sized {
    type Key;

    /// The key the record is stored under.
    spec fn key(&self) -> Self::Key;

    /// Whether two records have the same key.
    fn same_key(&self, other: &Self) -> (b: bool)
        ensures
            b == (self.key() == other.key()),
    ;
}

/// A keyed record that can be copied.
pub trait Registered: Keyed {
    /// A copy with the same view and key.
    fn duplicate(&self) -> (c: Self)
        ensures
            c@ == self@,
            c.key() == self.key(),
    ;
}

/// The map from keys to records that a list of entries stands for; a later
/// entry wins over an earlier one with the same key.
pub open spec fn registry<T: Keyed>(s: Seq<T>) -> Map<T::Key, T::V>
    decreases s.len(),
{
    if s.len() == 0 {
        Map::empty()
    } else {
        registry(s.drop_last()).insert(s.last().key(), s.last()@)
    }
}

/// No two entries share a key.
pub open spec fn keys_unique<T: Keyed>(s: Seq<T>) -> bool {
    forall|i: int, j: int| 0 <= i < j < s.len() ==> s[i].key() != s[j].key()
}

/// The views of the entries, in order.
pub open spec fn entry_views<T: Keyed>(s: Seq<T>) -> Seq<T::V> {
    s.map_values(|x: T| x@)
}

/// The entry at `i` is what the registry holds under its key.
pub proof fn lemma_registry_lookup<T: Keyed>(s: Seq<T>, i: int)
    requires
        keys_unique(s),
        0 <= i < s.len(),
    ensures
        registry(s).contains_key(s[i].key()),
        registry(s)[s[i].key()] == s[i]@,
    decreases s.len(),
{
    if i < s.len() - 1 {
        let t = s.drop_last();
        assert(t[i] == s[i]);
        assert(keys_unique(t));
        lemma_registry_lookup(t, i);
        assert(s.last().key() != s[i].key());
    }
}

/// A key that no entry has is absent from the registry.
pub proof fn lemma_registry_absent<T: Keyed>(s: Seq<T>, k: T::Key)
    requires
        forall|i: int| 0 <= i < s.len() ==> #[trigger] s[i].key() != k,
    ensures
        !registry(s).contains_key(k),
    decreases s.len(),
{
    if s.len() > 0 {
        let t = s.drop_last();
        assert forall|i: int| 0 <= i < t.len() implies #[trigger] t[i].key() != k by {
            assert(t[i] == s[i]);
        }
        lemma_registry_absent(t, k);
        assert(s[s.len() - 1].key() != k);
    }
}

/// The registry holds exactly the keys of the entries.
pub proof fn lemma_registry_domain<T: Keyed>(s: Seq<T>, k: T::Key)
    ensures
        registry(s).contains_key(k) <==> exists|i: int| 0 <= i < s.len() && #[trigger] s[i].key() == k,
    decreases s.len(),
{
    if s.len() > 0 {
        let t = s.drop_last();
        lemma_registry_domain(t, k);
        if registry(t).contains_key(k) {
            let i = choose|i: int| 0 <= i < t.len() && #[trigger] t[i].key() == k;
            assert(s[i].key() == k);
        }
        if exists|i: int| 0 <= i < s.len() && #[trigger] s[i].key() == k {
            let i = choose|i: int| 0 <= i < s.len() && #[trigger] s[i].key() == k;
            if i < s.len() - 1 {
                assert(t[i] == s[i]);
            }
        }
    }
}

/// Replacing the entry stored under a key replaces the registry's value for it.
pub proof fn lemma_registry_update<T: Keyed>(s: Seq<T>, i: int, item: T)
    requires
        keys_unique(s),
        0 <= i < s.len(),
        item.key() == s[i].key(),
    ensures
        registry(s.update(i, item)) == registry(s).insert(item.key(), item@),
        keys_unique(s.update(i, item)),
    decreases s.len(),
{
    let u = s.update(i, item);
    let t = s.drop_last();
    if i == s.len() - 1 {
        assert(u.drop_last() =~= t);
        assert(registry(u) =~= registry(s).insert(item.key(), item@));
    } else {
        assert(u.drop_last() =~= t.update(i, item));
        assert(keys_unique(t));
        assert(t[i] == s[i]);
        lemma_registry_update(t, i, item);
        assert(s.last().key() != s[i].key());
        assert(registry(u) =~= registry(s).insert(item.key(), item@));
    }
    assert forall|a: int, b: int| 0 <= a < b < u.len() implies u[a].key() != u[b].key() by {
        assert(s[a].key() != s[b].key());
    }
}

/// Removing the entry at `i` removes its key from the registry.
pub proof fn lemma_registry_remove<T: Keyed>(s: Seq<T>, i: int)
    requires
        keys_unique(s),
        0 <= i < s.len(),
    ensures
        registry(s.remove(i)) == registry(s).remove(s[i].key()),
        keys_unique(s.remove(i)),
    decreases s.len(),
{
    let r = s.remove(i);
    let t = s.drop_last();
    assert(keys_unique(t));
    if i == s.len() - 1 {
        assert(r =~= t);
        assert forall|j: int| 0 <= j < t.len() implies #[trigger] t[j].key() != s[i].key() by {
            assert(t[j] == s[j]);
        }
        lemma_registry_absent(t, s[i].key());
        assert(registry(r) =~= registry(s).remove(s[i].key()));
    } else {
        assert(r.drop_last() =~= t.remove(i));
        assert(r.last() == s.last());
        assert(t[i] == s[i]);
        lemma_registry_remove(t, i);
        assert(s.last().key() != s[i].key());
        assert(registry(r) =~= registry(s).remove(s[i].key()));
    }
    assert forall|a: int, b: int| 0 <= a < b < r.len() implies r[a].key() != r[b].key() by {
        let sa = if a < i { a } else { a + 1 };
        let sb = if b < i { b } else { b + 1 };
        assert(r[a] == s[sa]);
        assert(r[b] == s[sb]);
    }
}

/// The map left by registering each key/value pair of `kvs` in order into `m`;
/// a later pair replaces an earlier one with the same key.
pub open spec fn inserted_all<K, V>(m: Map<K, V>, kvs: Seq<(K, V)>) -> Map<K, V>
    decreases kvs.len(),
{
    if kvs.len() == 0 {
        m
    } else {
        inserted_all(m, kvs.drop_last()).insert(kvs.last().0, kvs.last().1)
    }
}

/// Registering one more pair inserts it into what the earlier ones left.
pub proof fn lemma_inserted_all_push<K, V>(m: Map<K, V>, kvs: Seq<(K, V)>, kv: (K, V))
    ensures
        inserted_all(m, kvs.push(kv)) == inserted_all(m, kvs).insert(kv.0, kv.1),
{
    assert(kvs.push(kv).drop_last() =~= kvs);
}

/// `j` is the last registration of its key in `kvs`.
pub open spec fn last_registration<K, V>(kvs: Seq<(K, V)>, j: int) -> bool {
    0 <= j < kvs.len() && forall|q: int| j < q < kvs.len() ==> #[trigger] kvs[q].0 != kvs[j].0
}

/// Registering a sequence of pairs into an empty registry keeps exactly the
/// registered keys, each with the value of its last registration.
pub proof fn law_last_registration_wins<K, V>(kvs: Seq<(K, V)>, k: K)
    ensures
        inserted_all(Map::empty(), kvs).contains_key(k) <==> exists|j: int|
            0 <= j < kvs.len() && #[trigger] kvs[j].0 == k,
        forall|j: int|
            #[trigger] last_registration(kvs, j) && kvs[j].0 == k ==> inserted_all(
                Map::empty(),
                kvs,
            )[k] == kvs[j].1,
    decreases kvs.len(),
{
    if kvs.len() > 0 {
        let t = kvs.drop_last();
        law_last_registration_wins(t, k);
        if exists|j: int| 0 <= j < t.len() && #[trigger] t[j].0 == k {
            let j = choose|j: int| 0 <= j < t.len() && #[trigger] t[j].0 == k;
            assert(kvs[j].0 == k);
        }
        if exists|j: int| 0 <= j < kvs.len() && #[trigger] kvs[j].0 == k {
            let j = choose|j: int| 0 <= j < kvs.len() && #[trigger] kvs[j].0 == k;
            if j < kvs.len() - 1 {
                assert(t[j].0 == k);
            }
        }
        assert forall|j: int| #[trigger] last_registration(kvs, j) && kvs[j].0 == k implies inserted_all(
            Map::empty(),
            kvs,
        )[k] == kvs[j].1 by {
            if j < kvs.len() - 1 {
                assert(kvs.last().0 != k);
                assert(t[j] == kvs[j]);
                assert forall|q: int| j < q < t.len() implies #[trigger] t[q].0 != t[j].0 by {
                    assert(t[q] == kvs[q]);
                }
                assert(last_registration(t, j));
            }
        }
    }
}

/// `snap` lists what registering `kvs` in order into an empty registry leaves:
/// one entry per key, an entry for each registered key and no other, and the
/// entry for a key carries the value of the last registration of that key.
pub open spec fn lists_registrations<T: Keyed>(snap: Seq<T>, kvs: Seq<(T::Key, T::V)>) -> bool {
    &&& keys_unique(snap)
    &&& forall|i: int|
        #![trigger snap[i]]
        0 <= i < snap.len() ==> exists|j: int| 0 <= j < kvs.len() && #[trigger] kvs[j].0 == snap[i].key()
    &&& forall|j: int|
        #[trigger] last_registration(kvs, j) ==> exists|i: int|
            0 <= i < snap.len() && snap[i].key() == kvs[j].0 && snap[i]@ == kvs[j].1
}

/// After registering `kvs` in order into an empty registry, a list of entries
/// standing for it with one entry per key (as the runtime's snapshot gives)
/// holds one entry for each registered key and no other, and the entry for a
/// key carries the value of the last registration of that key.
pub proof fn law_snapshot_after_registrations<T: Keyed>(kvs: Seq<(T::Key, T::V)>, snap: Seq<T>)
    requires
        keys_unique(snap),
        registry(snap) == inserted_all(Map::empty(), kvs),
    ensures
        lists_registrations(snap, kvs),
{
    assert forall|i: int| #![trigger snap[i]] 0 <= i < snap.len() implies exists|j: int|
        0 <= j < kvs.len() && #[trigger] kvs[j].0 == snap[i].key() by {
        lemma_registry_lookup(snap, i);
        law_last_registration_wins(kvs, snap[i].key());
    }
    assert forall|j: int| #[trigger] last_registration(kvs, j) implies exists|i: int|
        0 <= i < snap.len() && snap[i].key() == kvs[j].0 && snap[i]@ == kvs[j].1 by {
        let k = kvs[j].0;
        law_last_registration_wins(kvs, k);
        lemma_registry_domain(snap, k);
        let i = choose|i: int| 0 <= i < snap.len() && #[trigger] snap[i].key() == k;
        lemma_registry_lookup(snap, i);
    }
}

/// Stores `item` under its key: replaces the entry with that key, or appends.
pub fn upsert<T: Keyed>(entries: &mut Vec<T>, item: T)
    requires
        keys_unique(old(entries)@),
    ensures
        keys_unique(final(entries)@),
        registry(final(entries)@) == registry(old(entries)@).insert(item.key(), item@),
        (exists|i: int|
            0 <= i < old(entries)@.len() && old(entries)@[i].key() == item.key() && final(entries)@
                == old(entries)@.update(i, item)) || ((forall|i: int|
            0 <= i < old(entries)@.len() ==> old(entries)@[i].key() != item.key())
            && final(entries)@ == old(entries)@.push(item)),
{
    let n = entries.len();
    let mut i: usize = 0;
    while i < n
        invariant
            n == entries@.len(),
            i <= n,
            entries@ == old(entries)@,
            keys_unique(entries@),
            forall|k: int| 0 <= k < i ==> #[trigger] entries@[k].key() != item.key(),
        decreases n - i,
    {
        if entries[i].same_key(&item) {
            proof {
                lemma_registry_update(entries@, i as int, item);
            }
            entries.set(i, item);
            return;
        }
        i = i + 1;
    }
    proof {
        assert(entries@.push(item).drop_last() =~= entries@);
        assert forall|a: int, b: int|
            0 <= a < b < entries@.push(item).len() implies entries@.push(item)[a].key()
            != entries@.push(item)[b].key() by {
            if b == entries@.len() {
                assert(entries@[a].key() != item.key());
            } else {
                assert(entries@.push(item)[a] == entries@[a]);
                assert(entries@.push(item)[b] == entries@[b]);
            }
        }
    }
    entries.push(item);
}

/// Copies of all entries, in order.
pub fn duplicate_all<T: Registered>(entries: &Vec<T>) -> (copy: Vec<T>)
    ensures
        entry_views(copy@) == entry_views(entries@),
        copy@.len() == entries@.len(),
        forall|i: int| 0 <= i < copy@.len() ==> #[trigger] copy@[i]@ == entries@[i]@,
        forall|i: int| 0 <= i < copy@.len() ==> #[trigger] copy@[i].key() == entries@[i].key(),
{
    let mut copy: Vec<T> = Vec::new();
    let n = entries.len();
    let mut i: usize = 0;
    while i < n
        invariant
            n == entries@.len(),
            i <= n,
            copy@.len() == i,
            forall|k: int| 0 <= k < i ==> #[trigger] copy@[k]@ == entries@[k]@,
            forall|k: int| 0 <= k < i ==> #[trigger] copy@[k].key() == entries@[k].key(),
        decreases n - i,
    {
        copy.push(entries[i].duplicate());
        i = i + 1;
    }
    assert(entry_views(copy@) =~= entry_views(entries@));
    copy
}

} // verus!
