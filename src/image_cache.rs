use vstd::prelude::*;
use lru_cache::LruCache;

verus! {

#[verifier::external_type_specification]
#[verifier::external_body]
#[verifier::reject_recursive_types(K)]
#[verifier::reject_recursive_types(V)]
#[verifier::reject_recursive_types(S)]
pub struct ExLruCache<K: Eq + std::hash::Hash, V, S: std::hash::BuildHasher>(LruCache<K, V, S>);

/// What an image cache holds, from least to most recently used: each entry
/// is a locator and the image data stored under it.
pub uninterp spec fn lru_entries(c: LruCache<String, Vec<u8>>) -> Seq<(Seq<char>, Seq<u8>)>;

/// The number of entries an image cache was made to hold.
pub uninterp spec fn lru_capacity(c: LruCache<String, Vec<u8>>) -> nat;

/// The entries without the one stored under `k`, order kept.
pub open spec fn remove_key(e: Seq<(Seq<char>, Seq<u8>)>, k: Seq<char>) -> Seq<(Seq<char>, Seq<u8>)>
    decreases e.len(),
{
    if e.len() == 0 {
        e
    } else if e.last().0 == k {
        remove_key(e.drop_last(), k)
    } else {
        remove_key(e.drop_last(), k).push(e.last())
    }
}

/// The data stored under `k`, if any.
pub open spec fn lookup(e: Seq<(Seq<char>, Seq<u8>)>, k: Seq<char>) -> Option<Seq<u8>>
    decreases e.len(),
{
    if e.len() == 0 {
        None
    } else if e.last().0 == k {
        Some(e.last().1)
    } else {
        lookup(e.drop_last(), k)
    }
}

/// The locators of the entries, in order.
pub open spec fn keys_of(e: Seq<(Seq<char>, Seq<u8>)>) -> Seq<Seq<char>> {
    e.map_values(|p: (Seq<char>, Seq<u8>)| p.0)
}

/// The entries after inserting `v` under `k`: the key becomes the most
/// recently used, and past the capacity the least recently used is evicted.
pub open spec fn after_insert(
    e: Seq<(Seq<char>, Seq<u8>)>,
    cap: nat,
    k: Seq<char>,
    v: Seq<u8>,
) -> Seq<(Seq<char>, Seq<u8>)> {
    let s = remove_key(e, k).push((k, v));
    if s.len() > cap {
        s.drop_first()
    } else {
        s
    }
}

/// The entries after a lookup of `k`: a hit becomes the most recently used.
pub open spec fn after_get(e: Seq<(Seq<char>, Seq<u8>)>, k: Seq<char>) -> Seq<(Seq<char>, Seq<u8>)> {
    match lookup(e, k) {
        Some(v) => remove_key(e, k).push((k, v)),
        None => e,
    }
}

/// The entries after inserting each key of `ks` with the value at the same
/// position of `vs`, in order.
pub open spec fn after_inserts(
    e: Seq<(Seq<char>, Seq<u8>)>,
    cap: nat,
    ks: Seq<Seq<char>>,
    vs: Seq<Seq<u8>>,
) -> Seq<(Seq<char>, Seq<u8>)>
    decreases ks.len(),
{
    if ks.len() == 0 || vs.len() < ks.len() {
        e
    } else {
        let n = (ks.len() - 1) as int;
        after_insert(after_inserts(e, cap, ks.take(n), vs.take(n)), cap, ks[n], vs[n])
    }
}

/// Relies on lru_cache::LruCache::new: an empty cache holding at most
/// `capacity` entries.
#[verifier::external_body]
fn lru_new(capacity: usize) -> (c: LruCache<String, Vec<u8>>)
    ensures
        lru_entries(c) == Seq::<(Seq<char>, Seq<u8>)>::empty(),
        lru_capacity(c) == capacity,
{
    LruCache::new(capacity)
}

/// Relies on lru_cache::LruCache::insert: the key moves to the most recently
/// used end with its new value, and past the capacity the least recently used
/// entry is removed.
#[verifier::external_body]
fn lru_insert(c: &mut LruCache<String, Vec<u8>>, k: String, v: Vec<u8>)
    ensures
        lru_entries(*final(c)) == after_insert(lru_entries(*old(c)), lru_capacity(*old(c)), k@, v@),
        lru_capacity(*final(c)) == lru_capacity(*old(c)),
{
    c.insert(k, v);
}

/// Relies on lru_cache::LruCache::get_mut: the stored value, with a hit
/// becoming the most recently used entry.
#[verifier::external_body]
fn lru_get(c: &mut LruCache<String, Vec<u8>>, k: &String) -> (r: Option<Vec<u8>>)
    ensures
        r matches Some(v) ==> lookup(lru_entries(*old(c)), k@) == Some(v@),
        r is None ==> lookup(lru_entries(*old(c)), k@) is None,
        lru_entries(*final(c)) == after_get(lru_entries(*old(c)), k@),
        lru_capacity(*final(c)) == lru_capacity(*old(c)),
{
    c.get_mut(k).cloned()
}

/// A bounded cache of image data keyed by locator, evicting the least
/// recently used entry when full.
pub struct ImageCache {
    cache: LruCache<String, Vec<u8>>,
}

impl ImageCache {
    /// The entries, from least to most recently used.
    pub closed spec fn view(&self) -> Seq<(Seq<char>, Seq<u8>)> {
        lru_entries(self.cache)
    }

    pub closed spec fn capacity(&self) -> nat {
        lru_capacity(self.cache)
    }

    /// Locators are unique and the capacity is respected.
    pub open spec fn wf(&self) -> bool {
        &&& keys_of(self.view()).no_duplicates()
        &&& self.view().len() <= self.capacity()
    }

    pub fn new(capacity: usize) -> (r: Self)
        ensures
            r.wf(),
            r.view() == Seq::<(Seq<char>, Seq<u8>)>::empty(),
            r.capacity() == capacity,
    {
        ImageCache { cache: lru_new(capacity) }
    }

    /// The data stored under `location`, if any; a hit becomes the most
    /// recently used entry.
    pub fn get(&mut self, location: &String) -> (r: Option<Vec<u8>>)
        requires
            old(self).wf(),
        ensures
            final(self).wf(),
            r matches Some(v) ==> lookup(old(self).view(), location@) == Some(v@),
            r is None ==> lookup(old(self).view(), location@) is None,
            final(self).view() == after_get(old(self).view(), location@),
            final(self).capacity() == old(self).capacity(),
    {
        let r = lru_get(&mut self.cache, location);
        proof {
            lemma_after_get_wf(old(self).view(), location@);
        }
        r
    }

    /// Store `data` under `location` as the most recently used entry,
    /// evicting the least recently used one when the cache is over capacity.
    pub fn insert(&mut self, location: String, data: Vec<u8>)
        requires
            old(self).wf(),
        ensures
            final(self).wf(),
            final(self).view() == after_insert(old(self).view(), old(self).capacity(), location@, data@),
            final(self).capacity() == old(self).capacity(),
    {
        proof {
            lemma_after_insert_wf(self.view(), self.capacity(), location@, data@);
        }
        lru_insert(&mut self.cache, location, data);
    }
}

proof fn lemma_remove_key(e: Seq<(Seq<char>, Seq<u8>)>, k: Seq<char>)
    requires
        keys_of(e).no_duplicates(),
    ensures
        keys_of(remove_key(e, k)).no_duplicates(),
        !keys_of(remove_key(e, k)).contains(k),
        forall|j: Seq<char>| j != k ==> (keys_of(remove_key(e, k)).contains(j) <==> keys_of(e).contains(j)),
        keys_of(e).contains(k) ==> remove_key(e, k).len() + 1 == e.len(),
        !keys_of(e).contains(k) ==> remove_key(e, k) == e,
    decreases e.len(),
{
    if e.len() > 0 {
        let d = e.drop_last();
        assert(keys_of(d) =~= keys_of(e).drop_last());
        assert(keys_of(e) =~= keys_of(d).push(e.last().0));
        lemma_remove_key(d, k);
        let r = remove_key(d, k);
        if e.last().0 != k {
            assert(keys_of(r.push(e.last())) =~= keys_of(r).push(e.last().0));
            assert(keys_of(remove_key(e, k)) == keys_of(r).push(e.last().0));
            assert forall|j: Seq<char>| j != k implies (keys_of(remove_key(e, k)).contains(j) <==> keys_of(e).contains(j)) by {
                lemma_push_contains(keys_of(r), e.last().0, j);
                lemma_push_contains(keys_of(d), e.last().0, j);
            }
            if keys_of(e).contains(k) {
                let i = choose|i: int| 0 <= i < keys_of(e).len() && keys_of(e)[i] == k;
                assert(keys_of(d)[i] == k);
            }
            if !keys_of(d).contains(e.last().0) {
            } else {
                let i = choose|i: int| 0 <= i < keys_of(d).len() && keys_of(d)[i] == e.last().0;
                assert(keys_of(e)[i] == keys_of(e)[d.len() as int]);
            }
        } else {
            assert(!keys_of(d).contains(k)) by {
                if keys_of(d).contains(k) {
                    let i = choose|i: int| 0 <= i < keys_of(d).len() && keys_of(d)[i] == k;
                    assert(keys_of(e)[i] == keys_of(e)[d.len() as int]);
                }
            }
            assert(keys_of(e)[d.len() as int] == k);
            assert forall|j: Seq<char>| j != k implies (keys_of(remove_key(e, k)).contains(j) <==> keys_of(e).contains(j)) by {
                if keys_of(e).contains(j) {
                    let i = choose|i: int| 0 <= i < keys_of(e).len() && keys_of(e)[i] == j;
                    assert(keys_of(d)[i] == j);
                }
                if keys_of(d).contains(j) {
                    let i = choose|i: int| 0 <= i < keys_of(d).len() && keys_of(d)[i] == j;
                    assert(keys_of(e)[i] == j);
                }
            }
        }
    }
}

proof fn lemma_push_contains(s: Seq<Seq<char>>, x: Seq<char>, j: Seq<char>)
    ensures
        s.push(x).contains(j) <==> (s.contains(j) || x == j),
{
    if s.contains(j) {
        let i = choose|i: int| 0 <= i < s.len() && s[i] == j;
        assert(s.push(x)[i] == j);
    }
    if x == j {
        assert(s.push(x)[s.len() as int] == j);
    }
    if s.push(x).contains(j) && x != j {
        let i = choose|i: int| 0 <= i < s.push(x).len() && s.push(x)[i] == j;
        assert(s[i] == j);
    }
}

proof fn lemma_lookup(e: Seq<(Seq<char>, Seq<u8>)>, k: Seq<char>)
    ensures
        lookup(e, k) is None <==> !keys_of(e).contains(k),
    decreases e.len(),
{
    if e.len() > 0 {
        let d = e.drop_last();
        assert(keys_of(e) =~= keys_of(d).push(e.last().0));
        lemma_lookup(d, k);
        if e.last().0 == k {
            assert(keys_of(e)[d.len() as int] == k);
        } else {
            if keys_of(e).contains(k) {
                let i = choose|i: int| 0 <= i < keys_of(e).len() && keys_of(e)[i] == k;
                assert(keys_of(d)[i] == k);
            }
            if keys_of(d).contains(k) {
                let i = choose|i: int| 0 <= i < keys_of(d).len() && keys_of(d)[i] == k;
                assert(keys_of(e)[i] == k);
            }
        }
    }
}

proof fn lemma_push_fresh(e: Seq<(Seq<char>, Seq<u8>)>, k: Seq<char>, v: Seq<u8>)
    requires
        keys_of(e).no_duplicates(),
        !keys_of(e).contains(k),
    ensures
        keys_of(e.push((k, v))).no_duplicates(),
        keys_of(e.push((k, v))) == keys_of(e).push(k),
{
    assert(keys_of(e.push((k, v))) =~= keys_of(e).push(k));
}

proof fn lemma_drop_first(e: Seq<(Seq<char>, Seq<u8>)>)
    requires
        keys_of(e).no_duplicates(),
        e.len() > 0,
    ensures
        keys_of(e.drop_first()).no_duplicates(),
        keys_of(e.drop_first()) == keys_of(e).drop_first(),
{
    assert(keys_of(e.drop_first()) =~= keys_of(e).drop_first());
}

proof fn lemma_after_insert_wf(e: Seq<(Seq<char>, Seq<u8>)>, cap: nat, k: Seq<char>, v: Seq<u8>)
    requires
        keys_of(e).no_duplicates(),
        e.len() <= cap,
    ensures
        keys_of(after_insert(e, cap, k, v)).no_duplicates(),
        after_insert(e, cap, k, v).len() <= cap,
{
    lemma_remove_key(e, k);
    let r = remove_key(e, k);
    lemma_push_fresh(r, k, v);
    let s = r.push((k, v));
    if s.len() > cap {
        lemma_drop_first(s);
    }
}

proof fn lemma_after_get_wf(e: Seq<(Seq<char>, Seq<u8>)>, k: Seq<char>)
    requires
        keys_of(e).no_duplicates(),
    ensures
        keys_of(after_get(e, k)).no_duplicates(),
        after_get(e, k).len() == e.len(),
{
    lemma_lookup(e, k);
    lemma_remove_key(e, k);
    if let Some(v) = lookup(e, k) {
        lemma_push_fresh(remove_key(e, k), k, v);
    }
}

proof fn lemma_fill(cap: nat, ks: Seq<Seq<char>>, vs: Seq<Seq<u8>>, n: nat)
    requires
        n <= ks.len(),
        n <= cap,
        vs.len() == ks.len(),
        ks.no_duplicates(),
    ensures
        keys_of(after_inserts(Seq::empty(), cap, ks.take(n as int), vs.take(n as int))) == ks.take(n as int),
    decreases n,
{
    let empty = Seq::<(Seq<char>, Seq<u8>)>::empty();
    if n == 0 {
        assert(keys_of(empty) =~= ks.take(0));
    } else {
        let m = (n - 1) as nat;
        lemma_fill(cap, ks, vs, m);
        assert(ks.take(n as int).take(m as int) =~= ks.take(m as int));
        assert(vs.take(n as int).take(m as int) =~= vs.take(m as int));
        let e = after_inserts(empty, cap, ks.take(m as int), vs.take(m as int));
        let k = ks[m as int];
        assert(keys_of(e).no_duplicates()) by {
            assert forall|i: int, j: int| 0 <= i < j < keys_of(e).len() implies keys_of(e)[i] != keys_of(e)[j] by {
                assert(keys_of(e)[i] == ks[i] && keys_of(e)[j] == ks[j]);
            }
        }
        assert(!keys_of(e).contains(k)) by {
            if keys_of(e).contains(k) {
                let i = choose|i: int| 0 <= i < keys_of(e).len() && keys_of(e)[i] == k;
                assert(ks[i] == ks[m as int]);
            }
        }
        lemma_remove_key(e, k);
        lemma_push_fresh(e, k, vs[m as int]);
        assert(keys_of(e).push(k) =~= ks.take(n as int));
    }
}

/// Data just inserted is found by the next lookup of its locator, in a
/// cache that holds at least one entry.
pub proof fn lemma_insert_then_lookup(e: Seq<(Seq<char>, Seq<u8>)>, cap: nat, k: Seq<char>, v: Seq<u8>)
    requires
        cap >= 1,
    ensures
        lookup(after_insert(e, cap, k, v), k) == Some(v),
{
    let s = remove_key(e, k).push((k, v));
    if s.len() > cap {
        assert(s.drop_first().last() == (k, v));
    }
}

/// Inserting `cap + 1` distinct locators, in order, into an empty cache of
/// capacity `cap` evicts the first of them and keeps the last.
pub proof fn lemma_lru_eviction(cap: nat, ks: Seq<Seq<char>>, vs: Seq<Seq<u8>>)
    requires
        cap >= 1,
        ks.len() == cap + 1,
        vs.len() == ks.len(),
        ks.no_duplicates(),
    ensures
        lookup(after_inserts(Seq::empty(), cap, ks, vs), ks[0]) is None,
        lookup(after_inserts(Seq::empty(), cap, ks, vs), ks[cap as int]) == Some(vs[cap as int]),
{
    let empty = Seq::<(Seq<char>, Seq<u8>)>::empty();
    lemma_fill(cap, ks, vs, cap);
    let e = after_inserts(empty, cap, ks.take(cap as int), vs.take(cap as int));
    let k = ks[cap as int];
    assert(keys_of(e).no_duplicates()) by {
        assert forall|i: int, j: int| 0 <= i < j < keys_of(e).len() implies keys_of(e)[i] != keys_of(e)[j] by {
            assert(keys_of(e)[i] == ks[i] && keys_of(e)[j] == ks[j]);
        }
    }
    assert(!keys_of(e).contains(k)) by {
        if keys_of(e).contains(k) {
            let i = choose|i: int| 0 <= i < keys_of(e).len() && keys_of(e)[i] == k;
            assert(ks[i] == ks[cap as int]);
        }
    }
    lemma_remove_key(e, k);
    lemma_push_fresh(e, k, vs[cap as int]);
    let s = e.push((k, vs[cap as int]));
    assert(ks.take((cap + 1) as int) =~= ks);
    assert(vs.take((cap + 1) as int) =~= vs);
    assert(after_inserts(empty, cap, ks, vs) == s.drop_first());
    let r = s.drop_first();
    lemma_drop_first(s);
    assert(r.last() == (k, vs[cap as int]));
    lemma_lookup(r, ks[0]);
    assert(!keys_of(r).contains(ks[0])) by {
        if keys_of(r).contains(ks[0]) {
            let i = choose|i: int| 0 <= i < keys_of(r).len() && keys_of(r)[i] == ks[0];
            assert(keys_of(r)[i] == ks[i + 1]);
        }
    }
}

} // verus!
