//! A map from text keys to values, kept as a vector sorted by key: the
//! iteration order is the key order, as with a `BTreeMap<String, V>`.
use vstd::prelude::*;

use crate::text::{
    lemma_text_lt_asymmetric, lemma_text_lt_irreflexive, lemma_text_lt_total,
    lemma_text_lt_transitive, text_less, text_lt,
};

verus! {

/// Keys in strictly increasing order (so no key occurs twice).
pub open spec fn sorted_keys<V>(s: Seq<(Seq<char>, V)>) -> bool {
    forall|i: int, j: int| 0 <= i < j < s.len() ==> text_lt(#[trigger] s[i].0, #[trigger] s[j].0)
}

/// The map that a sequence of entries describes; a later entry for a key
/// overrides an earlier one.
pub open spec fn seq_model<V>(s: Seq<(Seq<char>, V)>) -> Map<Seq<char>, V>
    decreases s.len(),
{
    if s.len() == 0 {
        Map::empty()
    } else {
        seq_model(s.drop_last()).insert(s.last().0, s.last().1)
    }
}

/// The keys of a sequence of entries, in order.
pub open spec fn entry_keys<V>(s: Seq<(Seq<char>, V)>) -> Seq<Seq<char>> {
    s.map_values(|e: (Seq<char>, V)| e.0)
}

/// A key is in the model exactly when some entry has it.
pub proof fn lemma_seq_model_dom<V>(s: Seq<(Seq<char>, V)>, k: Seq<char>)
    ensures
        seq_model(s).dom().contains(k) <==> exists|i: int| 0 <= i < s.len() && s[i].0 == k,
    decreases s.len(),
{
    if s.len() > 0 {
        lemma_seq_model_dom(s.drop_last(), k);
        if seq_model(s).dom().contains(k) && k != s.last().0 {
            let i = choose|i: int| 0 <= i < s.drop_last().len() && s.drop_last()[i].0 == k;
            assert(s[i].0 == k);
        }
        if exists|i: int| 0 <= i < s.len() && s[i].0 == k {
            let i = choose|i: int| 0 <= i < s.len() && s[i].0 == k;
            if i < s.len() - 1 {
                assert(s.drop_last()[i].0 == k);
            }
        }
    }
}

/// With distinct keys, the model maps each entry's key to its value.
pub proof fn lemma_seq_model_value<V>(s: Seq<(Seq<char>, V)>, i: int)
    requires
        sorted_keys(s),
        0 <= i < s.len(),
    ensures
        seq_model(s).dom().contains(s[i].0),
        seq_model(s)[s[i].0] == s[i].1,
    decreases s.len(),
{
    if i < s.len() - 1 {
        let t = s.drop_last();
        assert(sorted_keys(t)) by {
            assert forall|a: int, b: int| 0 <= a < b < t.len() implies text_lt(t[a].0, t[b].0) by {
                assert(t[a] == s[a] && t[b] == s[b]);
            }
        }
        assert(t[i] == s[i]);
        lemma_seq_model_value(t, i);
        assert(text_lt(s[i].0, s[s.len() - 1].0));
        lemma_text_lt_irreflexive(s[i].0);
    }
}

/// Two sorted entry sequences with the same entries up to the model have
/// equal models when their key sets and values agree entrywise.
proof fn lemma_model_from_entries<V>(s: Seq<(Seq<char>, V)>, m: Map<Seq<char>, V>)
    requires
        sorted_keys(s),
        forall|k: Seq<char>| m.dom().contains(k) <==> (exists|i: int| 0 <= i < s.len() && s[i].0 == k),
        forall|i: int| 0 <= i < s.len() ==> m[s[i].0] == s[i].1,
    ensures
        seq_model(s) == m,
{
    assert forall|k: Seq<char>| seq_model(s).dom().contains(k) <==> m.dom().contains(k) by {
        lemma_seq_model_dom(s, k);
    }
    assert forall|k: Seq<char>| seq_model(s).dom().contains(k) implies seq_model(s)[k] == m[k] by {
        lemma_seq_model_dom(s, k);
        let i = choose|i: int| 0 <= i < s.len() && s[i].0 == k;
        lemma_seq_model_value(s, i);
    }
    assert(seq_model(s) =~= m);
}

/// A map from text keys to values whose iteration order is the key order.
#[derive(Debug)]
pub struct KeyedMap<V: View> {
    entries: Vec<(String, V)>,
}

impl<V: View> KeyedMap<V> {
    /// The entries in key order, keys taken by their text.
    pub closed spec fn entries(&self) -> Seq<(Seq<char>, V::V)> {
        self.entries@.map_values(|e: (String, V)| (e.0@, e.1@))
    }

    /// The map that the entries describe.
    pub open spec fn model(&self) -> Map<Seq<char>, V::V> {
        seq_model(self.entries())
    }

    /// The keys in order.
    pub open spec fn keys(&self) -> Seq<Seq<char>> {
        entry_keys(self.entries())
    }

    /// The keys are strictly increasing.
    pub open spec fn wf(&self) -> bool {
        sorted_keys(self.entries())
    }

    /// An empty map.
    pub fn new() -> (r: Self)
        ensures
            r.wf(),
            r.entries().len() == 0,
            r.model() == Map::<Seq<char>, V::V>::empty(),
    {
        let r = KeyedMap { entries: Vec::new() };
        assert(r.entries() =~= Seq::<(Seq<char>, V::V)>::empty());
        r
    }

    /// The number of entries.
    pub fn len(&self) -> (r: usize)
        ensures
            r == self.entries().len(),
    {
        self.entries.len()
    }

    /// The key of the entry at position `i`.
    pub fn key_at(&self, i: usize) -> (r: &String)
        requires
            i < self.entries().len(),
        ensures
            r@ == self.entries()[i as int].0,
    {
        &self.entries[i].0
    }

    /// The value of the entry at position `i`.
    pub fn value_at(&self, i: usize) -> (r: &V)
        requires
            i < self.entries().len(),
        ensures
            r@ == self.entries()[i as int].1,
    {
        &self.entries[i].1
    }

    /// The entries, moved out in key order.
    pub fn into_entries(self) -> (r: Vec<(String, V)>)
        ensures
            r@.len() == self.entries().len(),
            forall|i: int|
                0 <= i < r@.len() ==> (#[trigger] r@[i]).0@ == self.entries()[i].0 && r@[i].1@
                    == self.entries()[i].1,
    {
        self.entries
    }

    /// The value stored under a key, if any.
    pub fn get(&self, key: &str) -> (r: Option<&V>)
        requires
            self.wf(),
        ensures
            match r {
                Some(v) => self.model().dom().contains(key@) && self.model()[key@] == v@,
                None => !self.model().dom().contains(key@),
            },
    {
        let mut i: usize = 0;
        while i < self.entries.len()
            invariant
                self.wf(),
                i <= self.entries().len(),
                self.entries().len() == self.entries@.len(),
                forall|j: int| 0 <= j < i ==> self.entries()[j].0 != key@,
            decreases self.entries.len() - i,
        {
            let k = &self.entries[i].0;
            assert(k@ == self.entries()[i as int].0);
            if crate::text::same_text(k.as_str(), key) {
                proof {
                    lemma_seq_model_value(self.entries(), i as int);
                }
                return Some(&self.entries[i].1);
            }
            i = i + 1;
        }
        proof {
            lemma_seq_model_dom(self.entries(), key@);
        }
        None
    }

    /// Stores `value` under `key`, replacing the value already there.
    pub fn insert(&mut self, key: String, value: V)
        requires
            old(self).wf(),
        ensures
            final(self).wf(),
            final(self).model() == old(self).model().insert(key@, value@),
    {
        let ghost vv = value@;
        let ghost old_entries = self.entries();
        let ghost k = key@;
        let n = self.entries.len();
        let mut p: usize = 0;
        while p < n
            invariant
                n == self.entries@.len(),
                self.entries() == old_entries,
                sorted_keys(old_entries),
                k == key@,
                p <= n,
                forall|j: int| 0 <= j < p ==> text_lt(#[trigger] old_entries[j].0, k),
            ensures
                p < n ==> !text_lt(old_entries[p as int].0, k),
            decreases n - p,
        {
            let below = text_less(self.entries[p].0.as_str(), key.as_str());
            if !below {
                assert(self.entries@[p as int].0@ == old_entries[p as int].0);
                break;
            }
            assert(self.entries@[p as int].0@ == old_entries[p as int].0);
            assert(text_lt(old_entries[p as int].0, k));
            p = p + 1;
        }
        assert(p < n ==> !text_lt(old_entries[p as int].0, k));
        if p < n && crate::text::same_text(self.entries[p].0.as_str(), key.as_str()) {
            assert(self.entries@[p as int].0@ == old_entries[p as int].0);
            self.entries.set(p, (key, value));
            proof {
                let s = self.entries();
                assert(s =~= old_entries.update(p as int, (k, vv)));
                assert(sorted_keys(s)) by {
                    assert forall|a: int, b: int| 0 <= a < b < s.len() implies text_lt(
                        s[a].0,
                        s[b].0,
                    ) by {
                        assert(text_lt(old_entries[a].0, old_entries[b].0));
                    }
                }
                let m = old_entries.len();
                let mm = seq_model(old_entries).insert(k, vv);
                assert forall|kk: Seq<char>|
                    mm.dom().contains(kk) <==> (exists|i: int|
                        0 <= i < s.len() && s[i].0 == kk) by {
                    lemma_seq_model_dom(old_entries, kk);
                    if exists|i: int| 0 <= i < old_entries.len() && old_entries[i].0 == kk {
                        let i = choose|i: int| 0 <= i < old_entries.len() && old_entries[i].0 == kk;
                        assert(s[i].0 == kk);
                    }
                    if exists|i: int| 0 <= i < s.len() && s[i].0 == kk {
                        let i = choose|i: int| 0 <= i < s.len() && s[i].0 == kk;
                        if i != p {
                            assert(old_entries[i].0 == kk);
                        }
                    }
                }
                assert forall|i: int| 0 <= i < s.len() implies seq_model(old_entries).insert(
                    k,
                    vv,
                )[s[i].0] == s[i].1 by {
                    if i != p {
                        lemma_seq_model_value(old_entries, i);
                        if s[i].0 == k {
                            if i < p {
                                assert(text_lt(old_entries[i].0, old_entries[p as int].0));
                                lemma_text_lt_irreflexive(k);
                            } else {
                                assert(text_lt(old_entries[p as int].0, old_entries[i].0));
                                lemma_text_lt_irreflexive(k);
                            }
                        }
                    }
                }
                lemma_model_from_entries(s, seq_model(old_entries).insert(k, vv));
            }
        } else {
            self.entries.insert(p, (key, value));
            proof {
                let s = self.entries();
                assert(s =~= old_entries.insert(p as int, (k, vv)));
                if p < n {
                    assert(old_entries[p as int].0 != k);
                    if !text_lt(k, old_entries[p as int].0) {
                        lemma_text_lt_total(k, old_entries[p as int].0);
                    }
                }
                assert(sorted_keys(s)) by {
                    assert forall|a: int, b: int| 0 <= a < b < s.len() implies text_lt(
                        s[a].0,
                        s[b].0,
                    ) by {
                        if b < p {
                            assert(text_lt(old_entries[a].0, old_entries[b].0));
                        } else if b == p {
                            assert(s[a] == old_entries[a]);
                        } else if a == p {
                            if b - 1 > p {
                                assert(text_lt(old_entries[p as int].0, old_entries[b - 1].0));
                                lemma_text_lt_transitive(
                                    k,
                                    old_entries[p as int].0,
                                    old_entries[b - 1].0,
                                );
                            }
                        } else if a < p {
                            assert(text_lt(old_entries[a].0, k));
                            if p < n {
                                assert(text_lt(old_entries[p as int].0, old_entries[b - 1].0)
                                    || b - 1 == p);
                                lemma_text_lt_transitive(old_entries[a].0, k, old_entries[p as int].0);
                                if b - 1 != p {
                                    lemma_text_lt_transitive(
                                        old_entries[a].0,
                                        old_entries[p as int].0,
                                        old_entries[b - 1].0,
                                    );
                                }
                            }
                        } else {
                            assert(text_lt(old_entries[a - 1].0, old_entries[b - 1].0));
                        }
                    }
                }
                let mm = seq_model(old_entries).insert(k, vv);
                assert forall|kk: Seq<char>|
                    mm.dom().contains(kk) <==> (exists|i: int|
                        0 <= i < s.len() && s[i].0 == kk) by {
                    lemma_seq_model_dom(old_entries, kk);
                    if exists|i: int| 0 <= i < old_entries.len() && old_entries[i].0 == kk {
                        let i = choose|i: int| 0 <= i < old_entries.len() && old_entries[i].0 == kk;
                        if i < p {
                            assert(s[i].0 == kk);
                        } else {
                            assert(s[i + 1].0 == kk);
                        }
                    }
                    if kk == k {
                        assert(s[p as int].0 == kk);
                    }
                    if exists|i: int| 0 <= i < s.len() && s[i].0 == kk {
                        let i = choose|i: int| 0 <= i < s.len() && s[i].0 == kk;
                        if i < p {
                            assert(old_entries[i].0 == kk);
                        } else if i > p {
                            assert(old_entries[i - 1].0 == kk);
                        }
                    }
                }
                assert forall|i: int| 0 <= i < s.len() implies seq_model(old_entries).insert(
                    k,
                    vv,
                )[s[i].0] == s[i].1 by {
                    if i != p {
                        let j = if i < p { i } else { i - 1 };
                        assert(s[i] == old_entries[j]);
                        lemma_seq_model_value(old_entries, j);
                        if s[i].0 == k {
                            lemma_text_lt_irreflexive(k);
                            if i < p {
                                assert(text_lt(s[i].0, s[p as int].0));
                            } else {
                                assert(text_lt(s[p as int].0, s[i].0));
                            }
                        }
                    }
                }
                lemma_model_from_entries(s, seq_model(old_entries).insert(k, vv));
            }
        }
    }
}

/// What a lookup gives after a value was stored under a key: that value
/// for the key, and for every other key what it had before.
pub proof fn law_lookup_after_insert<V: View>(
    before: KeyedMap<V>,
    after: KeyedMap<V>,
    key: Seq<char>,
    value: V::V,
    other: Seq<char>,
)
    requires
        after.model() == before.model().insert(key, value),
        other != key,
    ensures
        after.model().dom().contains(key),
        after.model()[key] == value,
        after.model().dom().contains(other) == before.model().dom().contains(other),
        before.model().dom().contains(other) ==> after.model()[other] == before.model()[other],
{
}

/// The items in the opposite order.
pub fn reversed<T>(v: Vec<T>) -> (r: Vec<T>)
    ensures
        r@.len() == v@.len(),
        forall|k: int| 0 <= k < v@.len() ==> r@[k] == v@[v@.len() - 1 - k],
{
    let ghost all = v@;
    let mut v = v;
    let mut r: Vec<T> = Vec::new();
    while v.len() > 0
        invariant
            v@ == all.subrange(0, v@.len() as int),
            r@.len() + v@.len() == all.len(),
            forall|k: int| 0 <= k < r@.len() ==> r@[k] == all[all.len() - 1 - k],
        decreases v.len(),
    {
        let x = v.pop().unwrap();
        r.push(x);
    }
    r
}

} // verus!
