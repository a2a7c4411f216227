//! A map with text keys, kept in the order of its keys.

use vstd::prelude::*;

use crate::model::Duplicate;
use crate::text;

verus! {

/// A map from text to `T`.
#[derive(Debug, PartialEq)]
pub struct StrMap<T> {
    entries: Vec<(String, T)>,
}

/// Whether the keys of `e` are strictly increasing.
spec fn ordered<T>(e: Seq<(String, T)>) -> bool {
    forall|i: int, j: int| 0 <= i < j < e.len() ==> text::lt((#[trigger] e[i]).0@, (#[trigger] e[j]).0@)
}

/// The place of a key in `e`, where it has one.
spec fn place<T>(e: Seq<(String, T)>, k: Seq<char>) -> int {
    choose|i: int| 0 <= i < e.len() && (#[trigger] e[i]).0@ == k
}

/// Whether `e` has an entry for `k`.
spec fn has<T>(e: Seq<(String, T)>, k: Seq<char>) -> bool {
    exists|i: int| 0 <= i < e.len() && (#[trigger] e[i]).0@ == k
}

/// The map that `e` lists.
spec fn listed<T: DeepView>(e: Seq<(String, T)>) -> Map<Seq<char>, T::V> {
    Map::new(|k: Seq<char>| has(e, k), |k: Seq<char>| e[place(e, k)].1.deep_view())
}

proof fn place_unique<T>(e: Seq<(String, T)>, i: int)
    requires
        ordered(e),
        0 <= i < e.len(),
    ensures
        has(e, e[i].0@),
        place(e, e[i].0@) == i,
{
    let k = e[i].0@;
    let p = place(e, k);
    assert(0 <= p < e.len() && e[p].0@ == k);
    text::lt_irreflexive(k);
    if p < i {
        assert(text::lt(e[p].0@, e[i].0@));
    } else if i < p {
        assert(text::lt(e[i].0@, e[p].0@));
    }
}

impl<T> StrMap<T> {
    #[verifier::type_invariant]
    spec fn inv(self) -> bool {
        ordered(self.entries@)
    }
}

impl<T: DeepView> View for StrMap<T> {
    type V = Map<Seq<char>, T::V>;

    closed spec fn view(&self) -> Map<Seq<char>, T::V> {
        listed(self.entries@)
    }
}

impl<T: DeepView> DeepView for StrMap<T> {
    type V = Map<Seq<char>, T::V>;

    open spec fn deep_view(&self) -> Map<Seq<char>, T::V> {
        self@
    }
}

impl<T: DeepView> StrMap<T> {
    /// The keys in increasing order.
    pub closed spec fn keys(&self) -> Seq<Seq<char>> {
        Seq::new(self.entries@.len(), |i: int| self.entries@[i].0@)
    }

    /// A map without entries.
    pub fn new() -> (m: Self)
        ensures
            m@ == Map::<Seq<char>, T::V>::empty(),
    {
        let m = StrMap { entries: Vec::new() };
        assert(m@ =~= Map::<Seq<char>, T::V>::empty());
        m
    }

    /// The index of the first entry whose key is not before `k`.
    fn position(&self, k: &str) -> (i: usize)
        ensures
            i <= self.entries@.len(),
            forall|j: int| 0 <= j < i ==> text::lt((#[trigger] self.entries@[j]).0@, k@),
            forall|j: int| i <= j < self.entries@.len() ==> !text::lt((#[trigger] self.entries@[j]).0@, k@),
    {
        proof {
            use_type_invariant(&*self);
        }
        let mut i: usize = 0;
        while i < self.entries.len() && text::before(self.entries[i].0.as_str(), k)
            invariant
                i <= self.entries@.len(),
                forall|j: int| 0 <= j < i ==> text::lt((#[trigger] self.entries@[j]).0@, k@),
            decreases self.entries@.len() - i,
        {
            i = i + 1;
        }
        proof {
            assert forall|j: int| i <= j < self.entries@.len() implies !text::lt(
                (#[trigger] self.entries@[j]).0@,
                k@,
            ) by {
                if i < j && text::lt(self.entries@[j].0@, k@) {
                    text::lt_transitive(self.entries@[i as int].0@, self.entries@[j].0@, k@);
                }
            }
        }
        i
    }

    /// The value under a key.
    pub fn get(&self, k: &str) -> (r: Option<&T>)
        ensures
            match r {
                Some(v) => self@.contains_key(k@) && v.deep_view() == self@[k@],
                None => !self@.contains_key(k@),
            },
    {
        proof {
            use_type_invariant(&*self);
        }
        let i: usize = self.position(k);
        if i < self.entries.len() && text::same(self.entries[i].0.as_str(), k) {
            proof {
                place_unique(self.entries@, i as int);
            }
            Some(&self.entries[i].1)
        } else {
            proof {
                if has(self.entries@, k@) {
                    let p = place(self.entries@, k@);
                    text::lt_irreflexive(k@);
                    if i < p {
                        assert(text::lt(self.entries@[i as int].0@, self.entries@[p].0@));
                    }
                }
            }
            None
        }
    }

    /// Whether a key has a value.
    pub fn contains_key(&self, k: &str) -> (r: bool)
        ensures
            r == self@.contains_key(k@),
    {
        self.get(k).is_some()
    }

    /// Sets the value under a key, whether or not it had one.
    pub fn insert(&mut self, k: String, v: T)
        ensures
            final(self)@ == old(self)@.insert(k@, v.deep_view()),
    {
        proof {
            use_type_invariant(&*self);
        }
        let i: usize = self.position(k.as_str());
        let mut e: Vec<(String, T)> = Vec::new();
        std::mem::swap(&mut e, &mut self.entries);
        let ghost e0 = e@;
        let ghost k0 = k@;
        let ghost v0 = v.deep_view();
        if i < e.len() && text::same(e[i].0.as_str(), k.as_str()) {
            e.remove(i);
        }
        let ghost e1 = e@;
        e.insert(i, (k, v));
        proof {
            text::lt_irreflexive(k0);
            assert forall|a: int, b: int| 0 <= a < b < e@.len() implies text::lt(
                (#[trigger] e@[a]).0@,
                (#[trigger] e@[b]).0@,
            ) by {
                if a == i {
                    let x = if e1.len() < e0.len() { b } else { b - 1 };
                    assert(e@[b] == e0[x]);
                    text::lt_total(k0, e0[x].0@);
                    if e0[x].0@ == k0 && x != i {
                        assert(text::lt(e0[i as int].0@, e0[x].0@));
                        text::lt_total(k0, e0[i as int].0@);
                        if text::lt(k0, e0[i as int].0@) {
                        }
                    }
                    if e1.len() < e0.len() {
                        assert(text::lt(e0[i as int].0@, e0[x].0@));
                    }
                }
            }
            place_unique(e@, i as int);
            assert(listed(e@) =~= listed(e0).insert(k0, v0)) by {
                assert forall|q: Seq<char>| #[trigger] has(e@, q) == (q == k0 || has(e0, q)) by {
                    if has(e@, q) {
                        let p = place(e@, q);
                        if p != i {
                            let x = if p < i || e1.len() < e0.len() { p } else { p - 1 };
                            assert(e@[p] == e0[x]);
                        }
                    }
                    if has(e0, q) && q != k0 {
                        let x = place(e0, q);
                        let p = if x < i || e1.len() < e0.len() { x } else { x + 1 };
                        assert(e@[p] == e0[x]);
                    }
                }
                assert forall|q: Seq<char>| has(e0, q) && q != k0 implies #[trigger] e@[place(
                    e@,
                    q,
                )].1.deep_view() == e0[place(e0, q)].1.deep_view() by {
                    let x = place(e0, q);
                    let p = if x < i || e1.len() < e0.len() { x } else { x + 1 };
                    assert(e@[p] == e0[x]);
                    place_unique(e@, p);
                }
            }
        }
        std::mem::swap(&mut e, &mut self.entries);
    }

    /// Removes the entry of a key, where there is one.
    pub fn remove(&mut self, k: &str) -> (r: Option<T>)
        ensures
            final(self)@ == old(self)@.remove(k@),
            match r {
                Some(v) => old(self)@.contains_key(k@) && v.deep_view() == old(self)@[k@],
                None => !old(self)@.contains_key(k@),
            },
    {
        proof {
            use_type_invariant(&*self);
        }
        let ghost e0 = self.entries@;
        if self.get(k).is_none() {
            assert(self@.remove(k@) =~= self@);
            return None;
        }
        let i: usize = self.position(k);
        proof {
            let p = place(e0, k@);
            text::lt_irreflexive(k@);
            text::lt_total(k@, e0[i as int].0@);
            if i < p {
                assert(text::lt(e0[i as int].0@, e0[p].0@));
            }
            place_unique(e0, i as int);
        }
        let mut e: Vec<(String, T)> = Vec::new();
        std::mem::swap(&mut e, &mut self.entries);
        let (_, v) = e.remove(i);
        proof {
            assert(ordered(e@));
            assert(listed(e@) =~= listed(e0).remove(k@)) by {
                assert forall|q: Seq<char>| #[trigger] has(e@, q) == (q != k@ && has(e0, q)) by {
                    if has(e@, q) {
                        let p = place(e@, q);
                        let x = if p < i { p } else { p + 1 };
                        assert(e@[p] == e0[x]);
                        place_unique(e0, x);
                    }
                    if has(e0, q) && q != k@ {
                        let x = place(e0, q);
                        let p = if x < i { x } else { x - 1 };
                        assert(e@[p] == e0[x]);
                    }
                }
                assert forall|q: Seq<char>| has(e0, q) && q != k@ implies #[trigger] e@[place(
                    e@,
                    q,
                )].1.deep_view() == e0[place(e0, q)].1.deep_view() by {
                    let x = place(e0, q);
                    let p = if x < i { x } else { x - 1 };
                    assert(e@[p] == e0[x]);
                    place_unique(e@, p);
                }
            }
        }
        std::mem::swap(&mut e, &mut self.entries);
        Some(v)
    }

    /// The number of entries.
    pub fn len(&self) -> (n: usize)
        ensures
            n == self.keys().len(),
            in_order(self.keys(), self@),
            self.keys() == ordered_keys(self@),
    {
        proof {
            use_type_invariant(&*self);
            assert forall|k: Seq<char>| #[trigger] self@.contains_key(k) implies self.keys().contains(
                k,
            ) by {
                let p = place(self.entries@, k);
                assert(self.keys()[p] == k);
            }
            assert forall|i: int| 0 <= i < self.keys().len() implies self@.contains_key(
                #[trigger] self.keys()[i],
            ) by {
                place_unique(self.entries@, i);
            }
            assert(in_order(self.keys(), self@));
            in_order_unique(self.keys(), ordered_keys(self@), self@);
        }
        self.entries.len()
    }

    /// Whether there is no entry.
    pub fn is_empty(&self) -> (r: bool)
        ensures
            r == (self@ == Map::<Seq<char>, T::V>::empty()),
    {
        let n: usize = self.len();
        proof {
            if n == 0 {
                assert forall|k: Seq<char>| !(#[trigger] self@.contains_key(k)) by {
                    if self@.contains_key(k) {
                        assert(self.keys().contains(k));
                    }
                }
                assert(self@ =~= Map::<Seq<char>, T::V>::empty());
            } else {
                assert(self@.contains_key(self.keys()[0]));
            }
        }
        n == 0
    }

    /// The key at a place of the order.
    pub fn key_at(&self, i: usize) -> (k: &str)
        requires
            i < self.keys().len(),
        ensures
            k@ == self.keys()[i as int],
    {
        self.entries[i].0.as_str()
    }

    /// The value at a place of the order.
    pub fn value_at(&self, i: usize) -> (v: &T)
        requires
            i < self.keys().len(),
        ensures
            self@.contains_key(self.keys()[i as int]),
            v.deep_view() == self@[self.keys()[i as int]],
    {
        proof {
            use_type_invariant(&*self);
            place_unique(self.entries@, i as int);
        }
        &self.entries[i].1
    }
}

/// Whether `keys` lists the keys of `m`, each once, in increasing order.
pub open spec fn in_order<V>(keys: Seq<Seq<char>>, m: Map<Seq<char>, V>) -> bool {
    &&& forall|i: int, j: int|
        0 <= i < j < keys.len() ==> text::lt(#[trigger] keys[i], #[trigger] keys[j])
    &&& forall|i: int| 0 <= i < keys.len() ==> m.contains_key(#[trigger] keys[i])
    &&& forall|k: Seq<char>| #[trigger] m.contains_key(k) ==> keys.contains(k)
}

/// The keys of a map in increasing order.
pub open spec fn ordered_keys<V>(m: Map<Seq<char>, V>) -> Seq<Seq<char>> {
    choose|keys: Seq<Seq<char>>| in_order(keys, m)
}

/// A map has one order of its keys only.
pub proof fn in_order_unique<V>(
    a: Seq<Seq<char>>,
    b: Seq<Seq<char>>,
    m: Map<Seq<char>, V>,
)
    requires
        in_order(a, m),
        in_order(b, m),
    ensures
        a == b,
    decreases a.len(),
{
    if a.len() == 0 {
        if b.len() > 0 {
            assert(a.contains(b[0]));
        }
        assert(a =~= b);
    } else {
        assert(b.contains(a.last()));
        assert(b.len() > 0);
        assert(a.contains(b.last()));
        let i = choose|i: int| 0 <= i < b.len() && b[i] == a.last();
        let j = choose|j: int| 0 <= j < a.len() && a[j] == b.last();
        if i < b.len() - 1 {
            assert(text::lt(b[i], b[b.len() - 1]));
            if j < a.len() - 1 {
                assert(text::lt(a[j], a[a.len() - 1]));
                text::lt_transitive(a.last(), b.last(), a.last());
            }
            text::lt_irreflexive(a.last());
        }
        let k = a.last();
        text::lt_irreflexive(k);
        let n = m.remove(k);
        assert(in_order(a.drop_last(), n)) by {
            assert forall|q: Seq<char>| #[trigger] n.contains_key(q) implies a.drop_last().contains(
                q,
            ) by {
                assert(m.contains_key(q));
                let p = choose|p: int| 0 <= p < a.len() && a[p] == q;
                assert(a.drop_last()[p] == q);
            }
            assert forall|p: int| 0 <= p < a.drop_last().len() implies n.contains_key(
                #[trigger] a.drop_last()[p],
            ) by {
                assert(text::lt(a[p], a[a.len() - 1]));
            }
        }
        assert(in_order(b.drop_last(), n)) by {
            assert forall|q: Seq<char>| #[trigger] n.contains_key(q) implies b.drop_last().contains(
                q,
            ) by {
                assert(m.contains_key(q));
                let p = choose|p: int| 0 <= p < b.len() && b[p] == q;
                assert(b.drop_last()[p] == q);
            }
            assert forall|p: int| 0 <= p < b.drop_last().len() implies n.contains_key(
                #[trigger] b.drop_last()[p],
            ) by {
                assert(text::lt(b[p], b[b.len() - 1]));
            }
        }
        in_order_unique(a.drop_last(), b.drop_last(), n);
        assert(a =~= a.drop_last().push(k));
        assert(b =~= b.drop_last().push(k));
    }
}

/// The values that `p` admits, in the order of `keys`.
pub open spec fn kept<V>(
    m: Map<Seq<char>, V>,
    keys: Seq<Seq<char>>,
    p: spec_fn(V) -> bool,
) -> Seq<V>
    decreases keys.len(),
{
    if keys.len() == 0 {
        seq![]
    } else {
        let head = kept(m, keys.drop_last(), p);
        if p(m[keys.last()]) {
            head.push(m[keys.last()])
        } else {
            head
        }
    }
}

/// The place of `k` among increasing keys.
spec fn slot(keys: Seq<Seq<char>>, k: Seq<char>) -> int
    decreases keys.len(),
{
    if keys.len() == 0 {
        0
    } else if text::lt(keys.last(), k) {
        keys.len() as int
    } else {
        slot(keys.drop_last(), k)
    }
}

proof fn slot_splits(keys: Seq<Seq<char>>, k: Seq<char>)
    requires
        forall|i: int, j: int|
            0 <= i < j < keys.len() ==> text::lt(#[trigger] keys[i], #[trigger] keys[j]),
    ensures
        0 <= slot(keys, k) <= keys.len(),
        forall|i: int| 0 <= i < slot(keys, k) ==> text::lt(#[trigger] keys[i], k),
        forall|i: int| slot(keys, k) <= i < keys.len() ==> !text::lt(#[trigger] keys[i], k),
    decreases keys.len(),
{
    if keys.len() > 0 {
        if text::lt(keys.last(), k) {
            assert forall|i: int| 0 <= i < keys.len() implies text::lt(#[trigger] keys[i], k) by {
                if i < keys.len() - 1 {
                    text::lt_transitive(keys[i], keys[keys.len() - 1], k);
                }
            }
        } else {
            slot_splits(keys.drop_last(), k);
            assert forall|i: int| 0 <= i < slot(keys, k) implies text::lt(
                #[trigger] keys[i],
                k,
            ) by {
                assert(keys.drop_last()[i] == keys[i]);
            }
            assert forall|i: int| slot(keys, k) <= i < keys.len() implies !text::lt(
                #[trigger] keys[i],
                k,
            ) by {
                if i < keys.len() - 1 {
                    assert(keys.drop_last()[i] == keys[i]);
                }
            }
        }
    }
}

/// The keys of a finite map have an order.
pub proof fn has_order<V>(m: Map<Seq<char>, V>)
    requires
        m.dom().finite(),
    ensures
        in_order(ordered_keys(m), m),
    decreases m.dom().len(),
{
    if m.dom().len() == 0 {
        assert forall|k: Seq<char>| !(#[trigger] m.contains_key(k)) by {
            if m.contains_key(k) {
                assert(m.dom().contains(k));
            }
        }
        assert(in_order(seq![], m));
    } else {
        let k = m.dom().choose();
        let n = m.remove(k);
        assert(m.dom().contains(k));
        assert(n.dom() =~= m.dom().remove(k));
        has_order(n);
        let a = ordered_keys(n);
        let p = slot(a, k);
        slot_splits(a, k);
        let b = a.insert(p, k);
        assert forall|i: int, j: int| 0 <= i < j < b.len() implies text::lt(
            #[trigger] b[i],
            #[trigger] b[j],
        ) by {
            if i == p {
                assert(n.contains_key(a[j - 1]));
                text::lt_total(k, a[j - 1]);
            } else if j == p {
                assert(b[i] == a[i]);
            }
        }
        assert forall|i: int| 0 <= i < b.len() implies m.contains_key(#[trigger] b[i]) by {
            if i < p {
                assert(n.contains_key(a[i]));
            } else if i > p {
                assert(n.contains_key(a[i - 1]));
            }
        }
        assert forall|q: Seq<char>| #[trigger] m.contains_key(q) implies b.contains(q) by {
            if q == k {
                assert(b[p] == q);
            } else {
                assert(n.contains_key(q));
                assert(a.contains(q));
                let i = choose|i: int| 0 <= i < a.len() && a[i] == q;
                let j = if i < p {
                    i
                } else {
                    i + 1
                };
                assert(b[j] == q);
            }
        }
        assert(in_order(b, m));
    }
}

proof fn kept_members<V>(m: Map<Seq<char>, V>, keys: Seq<Seq<char>>, p: spec_fn(V) -> bool)
    ensures
        forall|v: V|
            kept(m, keys, p).contains(v) <==> p(v) && exists|i: int|
                0 <= i < keys.len() && m[#[trigger] keys[i]] == v,
    decreases keys.len(),
{
    let l = kept(m, keys, p);
    if keys.len() > 0 {
        let d = keys.drop_last();
        let h = kept(m, d, p);
        kept_members(m, d, p);
        assert forall|v: V| l.contains(v) <==> p(v) && exists|i: int|
            0 <= i < keys.len() && m[#[trigger] keys[i]] == v by {
            if l.contains(v) {
                let j = choose|j: int| 0 <= j < l.len() && l[j] == v;
                if j < h.len() {
                    assert(h.contains(h[j]));
                    let i = choose|i: int| 0 <= i < d.len() && m[#[trigger] d[i]] == v;
                    assert(m[keys[i]] == v);
                } else {
                    assert(m[keys[keys.len() - 1]] == v);
                }
            }
            if p(v) && exists|i: int| 0 <= i < keys.len() && m[#[trigger] keys[i]] == v {
                let i = choose|i: int| 0 <= i < keys.len() && m[#[trigger] keys[i]] == v;
                if i == keys.len() - 1 {
                    assert(l.last() == v);
                } else {
                    assert(m[d[i]] == v);
                    assert(h.contains(v));
                    let j = choose|j: int| 0 <= j < h.len() && h[j] == v;
                    assert(l[j] == v);
                }
            }
        }
    }
}

/// A listing holds a value just where the map holds it and `p` admits it.
pub proof fn listing_members<V>(m: Map<Seq<char>, V>, p: spec_fn(V) -> bool)
    requires
        m.dom().finite(),
    ensures
        forall|v: V|
            listing(m, p).contains(v) <==> p(v) && exists|k: Seq<char>| #[trigger]
                m.contains_key(k) && m[k] == v,
{
    has_order(m);
    let keys = ordered_keys(m);
    kept_members(m, keys, p);
    assert forall|v: V| listing(m, p).contains(v) <==> p(v) && exists|k: Seq<char>| #[trigger]
        m.contains_key(k) && m[k] == v by {
        if exists|k: Seq<char>| #[trigger] m.contains_key(k) && m[k] == v {
            let k = choose|k: Seq<char>| #[trigger] m.contains_key(k) && m[k] == v;
            assert(keys.contains(k));
            let i = choose|i: int| 0 <= i < keys.len() && keys[i] == k;
            assert(m[keys[i]] == v);
        }
        if exists|i: int| 0 <= i < keys.len() && m[#[trigger] keys[i]] == v {
            let i = choose|i: int| 0 <= i < keys.len() && m[#[trigger] keys[i]] == v;
            assert(m.contains_key(keys[i]));
        }
    }
}

proof fn kept_sorted<V>(
    m: Map<Seq<char>, V>,
    keys: Seq<Seq<char>>,
    p: spec_fn(V) -> bool,
    id: spec_fn(V) -> Seq<char>,
)
    requires
        forall|i: int, j: int|
            0 <= i < j < keys.len() ==> text::lt(#[trigger] keys[i], #[trigger] keys[j]),
        forall|i: int| 0 <= i < keys.len() ==> id(m[#[trigger] keys[i]]) == keys[i],
    ensures
        forall|i: int| 0 <= i < kept(m, keys, p).len() ==> keys.contains(id(#[trigger] kept(m, keys, p)[i])),
        forall|i: int, j: int|
            0 <= i < j < kept(m, keys, p).len() ==> text::lt(
                id(#[trigger] kept(m, keys, p)[i]),
                id(#[trigger] kept(m, keys, p)[j]),
            ),
    decreases keys.len(),
{
    if keys.len() > 0 {
        let d = keys.drop_last();
        let h = kept(m, d, p);
        let l = kept(m, keys, p);
        assert forall|i: int| 0 <= i < d.len() implies id(m[#[trigger] d[i]]) == d[i] by {
            assert(d[i] == keys[i]);
        }
        kept_sorted(m, d, p, id);
        assert forall|i: int| 0 <= i < h.len() implies keys.contains(id(#[trigger] h[i])) && text::lt(
            id(h[i]),
            keys.last(),
        ) by {
            assert(d.contains(id(h[i])));
            let q = choose|q: int| 0 <= q < d.len() && d[q] == id(h[i]);
            assert(keys[q] == id(h[i]));
            assert(text::lt(keys[q], keys[keys.len() - 1]));
        }
        assert(keys.contains(keys.last()));
        assert(id(m[keys[keys.len() - 1]]) == keys.last());
        assert forall|i: int| 0 <= i < l.len() implies keys.contains(id(#[trigger] l[i])) by {
            if i < h.len() {
                assert(l[i] == h[i]);
            }
        }
        assert forall|i: int, j: int| 0 <= i < j < l.len() implies text::lt(
            id(#[trigger] l[i]),
            id(#[trigger] l[j]),
        ) by {
            assert(l[i] == h[i]);
            if j < h.len() {
                assert(l[j] == h[j]);
            }
        }
    }
}

/// Where every value stands under its own id, a listing is in the order of the
/// ids, each of them at most once.
pub proof fn listing_sorted<V>(
    m: Map<Seq<char>, V>,
    p: spec_fn(V) -> bool,
    id: spec_fn(V) -> Seq<char>,
)
    requires
        m.dom().finite(),
        forall|k: Seq<char>| #[trigger] m.contains_key(k) ==> id(m[k]) == k,
    ensures
        forall|i: int, j: int|
            0 <= i < j < listing(m, p).len() ==> text::lt(
                id(#[trigger] listing(m, p)[i]),
                id(#[trigger] listing(m, p)[j]),
            ),
{
    has_order(m);
    kept_sorted(m, ordered_keys(m), p, id);
}

/// What the first `n` keys keep is the start of what all of them keep.
pub proof fn kept_prefix<V>(
    m: Map<Seq<char>, V>,
    keys: Seq<Seq<char>>,
    p: spec_fn(V) -> bool,
    n: int,
)
    requires
        0 <= n <= keys.len(),
    ensures
        kept(m, keys.take(n), p).is_prefix_of(kept(m, keys, p)),
    decreases keys.len(),
{
    if n == keys.len() {
        assert(keys.take(n) =~= keys);
    } else {
        assert(keys.drop_last().take(n) =~= keys.take(n));
        kept_prefix(m, keys.drop_last(), p, n);
    }
}

/// The values of a map that `p` admits, in the order of their keys.
pub open spec fn listing<V>(m: Map<Seq<char>, V>, p: spec_fn(V) -> bool) -> Seq<V> {
    kept(m, ordered_keys(m), p)
}

impl<T: Duplicate> Duplicate for StrMap<T> {
    fn duplicate(&self) -> (r: Self) {
        proof {
            use_type_invariant(self);
        }
        let mut e: Vec<(String, T)> = Vec::new();
        let mut i: usize = 0;
        while i < self.entries.len()
            invariant
                i <= self.entries@.len(),
                e@.len() == i,
                forall|j: int|
                    0 <= j < i ==> (#[trigger] e@[j]).0@ == self.entries@[j].0@ && e@[j].1.deep_view()
                        == self.entries@[j].1.deep_view(),
            decreases self.entries@.len() - i,
        {
            e.push((self.entries[i].0.clone(), self.entries[i].1.duplicate()));
            i = i + 1;
        }
        proof {
            assert(ordered(e@));
            assert(listed(e@) =~= listed(self.entries@)) by {
                assert forall|q: Seq<char>| #[trigger] has(e@, q) == has(self.entries@, q) by {
                    if has(e@, q) {
                        let p = place(e@, q);
                        assert(self.entries@[p].0@ == q);
                    }
                    if has(self.entries@, q) {
                        let p = place(self.entries@, q);
                        assert(e@[p].0@ == q);
                    }
                }
                assert forall|q: Seq<char>| #[trigger] has(e@, q) implies place(e@, q) == place(
                    self.entries@,
                    q,
                ) by {
                    let p = place(e@, q);
                    assert(self.entries@[p].0@ == q);
                    place_unique(self.entries@, p);
                }
            }
        }
        StrMap { entries: e }
    }
}

impl<T: Duplicate> Clone for StrMap<T> {
    fn clone(&self) -> (r: Self)
        ensures
            r@ == self@,
    {
        self.duplicate()
    }
}

} // verus!
