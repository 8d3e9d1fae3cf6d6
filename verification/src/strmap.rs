//! A string-keyed map that keeps its entries in insertion order.
//!
//! Holds what a `HashMap<String, _>` would hold: every key
//! occurs at most once, and the map's view is the mathematical map from key
//! text to value.
use vstd::prelude::*;

verus! {

/// No key occurs twice in `s`.
pub open spec fn keys_distinct<V>(s: Seq<(String, V)>) -> bool {
    forall|i: int, j: int|
        0 <= i < s.len() && 0 <= j < s.len() && i != j ==> #[trigger] s[i].0@ != #[trigger] s[j].0@
}

/// Whether some entry of `s` has key `k`.
pub open spec fn has_key<V>(s: Seq<(String, V)>, k: Seq<char>) -> bool {
    exists|i: int| 0 <= i < s.len() && #[trigger] s[i].0@ == k
}

/// The map that the entries `s` denote.
pub open spec fn entries_map<V>(s: Seq<(String, V)>) -> Map<Seq<char>, V> {
    Map::new(
        |k: Seq<char>| has_key(s, k),
        |k: Seq<char>| s[choose|i: int| 0 <= i < s.len() && #[trigger] s[i].0@ == k].1,
    )
}

pub struct StrMap<V> {
    pub entries: Vec<(String, V)>,
}

impl<V> View for StrMap<V> {
    type V = Map<Seq<char>, V>;

    open spec fn view(&self) -> Map<Seq<char>, V> {
        entries_map(self.entries@)
    }
}

/// An entry of `s` is what the map of `s` holds for its key.
pub proof fn lemma_entry_in_map<V>(s: Seq<(String, V)>, i: int)
    requires
        keys_distinct(s),
        0 <= i < s.len(),
    ensures
        entries_map(s).contains_key(s[i].0@),
        entries_map(s)[s[i].0@] == s[i].1,
{
    let k = s[i].0@;
    assert(has_key(s, k));
    let j = choose|j: int| 0 <= j < s.len() && #[trigger] s[j].0@ == k;
    assert(j == i);
}

impl<V> StrMap<V> {
    /// Keys are distinct.
    pub open spec fn wf(&self) -> bool {
        keys_distinct(self.entries@)
    }

    /// The entries in the order in which their keys were first inserted.
    pub open spec fn entries(&self) -> Seq<(String, V)> {
        self.entries@
    }

    pub fn new() -> (r: Self)
        ensures
            r.wf(),
            r.entries() == Seq::<(String, V)>::empty(),
            r@ == Map::<Seq<char>, V>::empty(),
    {
        let r = StrMap { entries: Vec::new() };
        assert(r@ =~= Map::<Seq<char>, V>::empty());
        r
    }

    pub fn len(&self) -> (n: usize)
        ensures
            n == self.entries().len(),
    {
        self.entries.len()
    }

    /// The key and value of the `i`-th entry.
    pub fn entry(&self, i: usize) -> (r: (&String, &V))
        requires
            i < self.entries().len(),
        ensures
            *r.0 == self.entries()[i as int].0,
            *r.1 == self.entries()[i as int].1,
    {
        (&self.entries[i].0, &self.entries[i].1)
    }

    /// The position of `key` among the entries.
    pub fn position(&self, key: &str) -> (r: Option<usize>)
        ensures
            match r {
                Some(i) => i < self.entries().len() && self.entries()[i as int].0@ == key@,
                None => !has_key(self.entries(), key@),
            },
    {
        let mut i: usize = 0;
        while i < self.entries.len()
            invariant
                i <= self.entries@.len(),
                forall|j: int| 0 <= j < i ==> #[trigger] self.entries@[j].0@ != key@,
            decreases self.entries@.len() - i,
        {
            if crate::text::str_eq(self.entries[i].0.as_str(), key) {
                return Some(i);
            }
            i = i + 1;
        }
        None
    }

    pub fn contains_key(&self, key: &str) -> (r: bool)
        requires
            self.wf(),
        ensures
            r == self@.contains_key(key@),
    {
        self.position(key).is_some()
    }

    pub fn get(&self, key: &str) -> (r: Option<&V>)
        requires
            self.wf(),
        ensures
            match r {
                Some(v) => self@.contains_key(key@) && self@[key@] == *v,
                None => !self@.contains_key(key@),
            },
    {
        match self.position(key) {
            Some(i) => {
                proof { lemma_entry_in_map(self.entries@, i as int); }
                Some(&self.entries[i].1)
            }
            None => None,
        }
    }

    /// Sets the value of `key`, keeping the key's place if it is already present.
    pub fn insert(&mut self, key: String, value: V)
        requires
            old(self).wf(),
        ensures
            final(self).wf(),
            final(self)@ == old(self)@.insert(key@, value),
            old(self)@.contains_key(key@) ==> final(self).entries().len() == old(self).entries().len(),
            !old(self)@.contains_key(key@) ==> final(self).entries() == old(self).entries().push((key, value)),
    {
        let ghost k = key@;
        let ghost pre = self.entries@;
        match self.position(key.as_str()) {
            Some(i) => {
                let ghost old_val = pre[i as int].1;
                self.entries.set(i, (key, value));
                proof {
                    let post = self.entries@;
                    assert forall|a: int, b: int|
                        0 <= a < post.len() && 0 <= b < post.len() && a != b implies #[trigger] post[a].0@ != #[trigger] post[b].0@ by {
                        if a != i && b != i {
                            assert(pre[a].0@ != pre[b].0@);
                        } else if a == i {
                            assert(pre[a].0@ != pre[b].0@);
                        } else {
                            assert(pre[a].0@ != pre[b].0@);
                        }
                    }
                    assert forall|q: Seq<char>| #[trigger] has_key(post, q) == has_key(pre, q) by {
                        if has_key(pre, q) {
                            let j = choose|j: int| 0 <= j < pre.len() && #[trigger] pre[j].0@ == q;
                            assert(post[j].0@ == q);
                        }
                        if has_key(post, q) {
                            let j = choose|j: int| 0 <= j < post.len() && #[trigger] post[j].0@ == q;
                            assert(pre[j].0@ == q);
                        }
                    }
                    assert forall|q: Seq<char>| #[trigger] entries_map(post).contains_key(q) implies
                        entries_map(post)[q] == entries_map(pre).insert(k, value)[q] by {
                        let j = choose|j: int| 0 <= j < post.len() && #[trigger] post[j].0@ == q;
                        lemma_entry_in_map(post, j);
                        if j != i {
                            lemma_entry_in_map(pre, j);
                        }
                    }
                    assert(entries_map(post) =~= entries_map(pre).insert(k, value));
                }
            }
            None => {
                self.entries.push((key, value));
                proof {
                    let post = self.entries@;
                    assert(post =~= pre.push((key, value)));
                    assert forall|a: int, b: int|
                        0 <= a < post.len() && 0 <= b < post.len() && a != b implies #[trigger] post[a].0@ != #[trigger] post[b].0@ by {
                        if a < pre.len() && b < pre.len() {
                            assert(pre[a].0@ != pre[b].0@);
                        } else if a < pre.len() {
                            assert(pre[a] == post[a]);
                            assert(!has_key(pre, k));
                        } else {
                            assert(pre[b] == post[b]);
                            assert(!has_key(pre, k));
                        }
                    }
                    assert forall|q: Seq<char>| #[trigger] has_key(post, q) == (has_key(pre, q) || q == k) by {
                        if has_key(pre, q) {
                            let j = choose|j: int| 0 <= j < pre.len() && #[trigger] pre[j].0@ == q;
                            assert(post[j].0@ == q);
                        }
                        if q == k {
                            assert(post[pre.len() as int].0@ == q);
                        }
                        if has_key(post, q) {
                            let j = choose|j: int| 0 <= j < post.len() && #[trigger] post[j].0@ == q;
                            if j < pre.len() {
                                assert(pre[j].0@ == q);
                            }
                        }
                    }
                    assert forall|q: Seq<char>| #[trigger] entries_map(post).contains_key(q) implies
                        entries_map(post)[q] == entries_map(pre).insert(k, value)[q] by {
                        let j = choose|j: int| 0 <= j < post.len() && #[trigger] post[j].0@ == q;
                        lemma_entry_in_map(post, j);
                        if j < pre.len() {
                            lemma_entry_in_map(pre, j);
                        }
                    }
                    assert(entries_map(post) =~= entries_map(pre).insert(k, value));
                }
            }
        }
    }

    /// Removes `key` and hands back its value, if it was present.
    pub fn remove(&mut self, key: &str) -> (r: Option<V>)
        requires
            old(self).wf(),
        ensures
            final(self).wf(),
            final(self)@ == old(self)@.remove(key@),
            match r {
                Some(v) => old(self)@.contains_key(key@) && old(self)@[key@] == v,
                None => !old(self)@.contains_key(key@),
            },
    {
        let ghost k = key@;
        let ghost pre = self.entries@;
        match self.position(key) {
            Some(i) => {
                proof { lemma_entry_in_map(pre, i as int); }
                let (_, v) = self.entries.remove(i);
                proof {
                    let post = self.entries@;
                    assert(post =~= pre.subrange(0, i as int) + pre.subrange(i + 1, pre.len() as int));
                    assert forall|a: int| 0 <= a < post.len() implies #[trigger] post[a] == pre[if a < i { a } else { a + 1 }] by {}
                    assert forall|a: int, b: int|
                        0 <= a < post.len() && 0 <= b < post.len() && a != b implies #[trigger] post[a].0@ != #[trigger] post[b].0@ by {
                        let a2 = if a < i { a } else { a + 1 };
                        let b2 = if b < i { b } else { b + 1 };
                        assert(post[a] == pre[a2]);
                        assert(post[b] == pre[b2]);
                        assert(pre[a2].0@ != pre[b2].0@);
                    }
                    assert forall|q: Seq<char>| #[trigger] has_key(post, q) == (has_key(pre, q) && q != k) by {
                        if has_key(pre, q) && q != k {
                            let j = choose|j: int| 0 <= j < pre.len() && #[trigger] pre[j].0@ == q;
                            assert(j != i);
                            let j2 = if j < i { j } else { j - 1 };
                            assert(post[j2] == pre[j]);
                        }
                        if has_key(post, q) {
                            let j = choose|j: int| 0 <= j < post.len() && #[trigger] post[j].0@ == q;
                            let j2 = if j < i { j } else { j + 1 };
                            assert(post[j] == pre[j2]);
                            assert(pre[j2].0@ == q);
                            assert(j2 != i);
                            assert(pre[j2].0@ != pre[i as int].0@);
                        }
                    }
                    assert forall|q: Seq<char>| #[trigger] entries_map(post).contains_key(q) implies
                        entries_map(post)[q] == entries_map(pre).remove(k)[q] by {
                        let j = choose|j: int| 0 <= j < post.len() && #[trigger] post[j].0@ == q;
                        let j2 = if j < i { j } else { j + 1 };
                        assert(post[j] == pre[j2]);
                        lemma_entry_in_map(post, j);
                        lemma_entry_in_map(pre, j2);
                    }
                    assert(entries_map(post) =~= entries_map(pre).remove(k));
                }
                Some(v)
            }
            None => {
                assert(entries_map(pre) =~= entries_map(pre).remove(k));
                None
            }
        }
    }

    /// Every entry appears in the view under its key.
    pub proof fn lemma_entry(&self, i: int)
        requires
            self.wf(),
            0 <= i < self.entries().len(),
        ensures
            self@.contains_key(self.entries()[i].0@),
            self@[self.entries()[i].0@] == self.entries()[i].1,
    {
        lemma_entry_in_map(self.entries@, i);
    }

    /// The view's keys are exactly the keys of the entries.
    pub proof fn lemma_keys(&self, k: Seq<char>)
        requires
            self.wf(),
        ensures
            self@.contains_key(k) == has_key(self.entries(), k),
    {
    }
}

} // verus!
