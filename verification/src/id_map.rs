//! A small ordered map from text ids to values.
//!
//! The engine keys everything by output id. The map keeps its entries in the
//! order in which their ids were first inserted, holds each id at most once,
//! and is described by the sequence of its `(id, value)` pairs.

use vstd::prelude::*;
use vstd::string::*;

verus! {

/// Whether `i` is a position of `key` in `s`.
pub open spec fn is_index_of<V>(s: Seq<(Seq<char>, V)>, key: Seq<char>, i: int) -> bool {
    0 <= i < s.len() && s[i].0 == key
}

/// Whether some pair of `s` has the id `key`.
pub open spec fn has_key<V>(s: Seq<(Seq<char>, V)>, key: Seq<char>) -> bool {
    exists|i: int| is_index_of(s, key, i)
}

/// A position of `key` in `s`; the position, where ids are unique.
pub open spec fn index_of<V>(s: Seq<(Seq<char>, V)>, key: Seq<char>) -> int {
    choose|i: int| is_index_of(s, key, i)
}

/// The value stored under `key`, if any.
pub open spec fn lookup<V>(s: Seq<(Seq<char>, V)>, key: Seq<char>) -> Option<V> {
    if has_key(s, key) {
        Some(s[index_of(s, key)].1)
    } else {
        None
    }
}

/// `s` with `value` stored under `key`: in place where the id is present,
/// at the end where it is new.
pub open spec fn put<V>(s: Seq<(Seq<char>, V)>, key: Seq<char>, value: V) -> Seq<
    (Seq<char>, V),
> {
    if has_key(s, key) {
        s.update(index_of(s, key), (key, value))
    } else {
        s.push((key, value))
    }
}

/// `s` without the pair of `key`.
pub open spec fn without<V>(s: Seq<(Seq<char>, V)>, key: Seq<char>) -> Seq<(Seq<char>, V)> {
    if has_key(s, key) {
        s.remove(index_of(s, key))
    } else {
        s
    }
}

/// No id occurs twice in `s`.
pub open spec fn unique_keys<V>(s: Seq<(Seq<char>, V)>) -> bool {
    forall|i: int, j: int| 0 <= i < j < s.len() ==> s[i].0 != s[j].0
}

/// Where ids are unique, the position of an id is the one place it occurs.
pub proof fn lemma_index_of_unique<V>(s: Seq<(Seq<char>, V)>, key: Seq<char>, i: int)
    requires
        unique_keys(s),
        is_index_of(s, key, i),
    ensures
        has_key(s, key),
        index_of(s, key) == i,
        lookup(s, key) == Some(s[i].1),
{
    let c = index_of(s, key);
    assert(is_index_of(s, key, c));
    if c < i {
        assert(s[c].0 != s[i].0);
    } else if i < c {
        assert(s[i].0 != s[c].0);
    }
}

/// Storing a value keeps ids unique, makes the value the one found under its
/// id, and leaves what is found under every other id as it was.
pub proof fn lemma_put<V>(s: Seq<(Seq<char>, V)>, key: Seq<char>, value: V, other: Seq<char>)
    requires
        unique_keys(s),
    ensures
        unique_keys(put(s, key, value)),
        lookup(put(s, key, value), key) == Some(value),
        other != key ==> lookup(put(s, key, value), other) == lookup(s, other),
        other != key ==> has_key(put(s, key, value), other) == has_key(s, other),
        has_key(put(s, key, value), key),
{
    let t = put(s, key, value);
    if has_key(s, key) {
        let k = index_of(s, key);
        assert(is_index_of(s, key, k));
        assert(t.len() == s.len());
        assert forall|i: int, j: int| 0 <= i < j < t.len() implies t[i].0 != t[j].0 by {
            assert(s[i].0 != s[j].0);
            assert(t[i].0 == s[i].0);
            assert(t[j].0 == s[j].0);
        }
        assert(is_index_of(t, key, k));
        lemma_index_of_unique(t, key, k);
        if other != key {
            if has_key(s, other) {
                let o = index_of(s, other);
                assert(is_index_of(s, other, o));
                assert(o != k);
                assert(is_index_of(t, other, o));
                lemma_index_of_unique(t, other, o);
            } else {
                if has_key(t, other) {
                    let o = index_of(t, other);
                    assert(is_index_of(t, other, o));
                    assert(is_index_of(s, other, o));
                }
            }
        }
    } else {
        let k = s.len() as int;
        assert forall|i: int, j: int| 0 <= i < j < t.len() implies t[i].0 != t[j].0 by {
            if j == k {
                assert(!is_index_of(s, key, i));
            } else {
                assert(s[i].0 != s[j].0);
            }
        }
        assert(is_index_of(t, key, k));
        lemma_index_of_unique(t, key, k);
        if other != key {
            if has_key(s, other) {
                let o = index_of(s, other);
                assert(is_index_of(s, other, o));
                assert(is_index_of(t, other, o));
                lemma_index_of_unique(t, other, o);
            } else {
                if has_key(t, other) {
                    let o = index_of(t, other);
                    assert(is_index_of(t, other, o));
                    assert(is_index_of(s, other, o));
                }
            }
        }
    }
}

/// Removing an id keeps ids unique, leaves nothing under that id, and leaves
/// what is found under every other id as it was.
pub proof fn lemma_without<V>(s: Seq<(Seq<char>, V)>, key: Seq<char>, other: Seq<char>)
    requires
        unique_keys(s),
    ensures
        unique_keys(without(s, key)),
        !has_key(without(s, key), key),
        other != key ==> lookup(without(s, key), other) == lookup(s, other),
        other != key ==> has_key(without(s, key), other) == has_key(s, other),
{
    let t = without(s, key);
    if has_key(s, key) {
        let k = index_of(s, key);
        assert(is_index_of(s, key, k));
        assert forall|i: int| 0 <= i < t.len() implies t[i] == s[if i < k {
            i
        } else {
            i + 1
        }] by {}
        assert forall|i: int, j: int| 0 <= i < j < t.len() implies t[i].0 != t[j].0 by {
            let si = if i < k {
                i
            } else {
                i + 1
            };
            let sj = if j < k {
                j
            } else {
                j + 1
            };
            assert(s[si].0 != s[sj].0);
        }
        if has_key(t, key) {
            let c = index_of(t, key);
            assert(is_index_of(t, key, c));
            let sc = if c < k {
                c
            } else {
                c + 1
            };
            assert(is_index_of(s, key, sc));
            lemma_index_of_unique(s, key, sc);
        }
        if other != key {
            if has_key(s, other) {
                let o = index_of(s, other);
                assert(is_index_of(s, other, o));
                assert(o != k);
                let to = if o < k {
                    o
                } else {
                    o - 1
                };
                assert(is_index_of(t, other, to));
                lemma_index_of_unique(t, other, to);
            } else {
                if has_key(t, other) {
                    let o = index_of(t, other);
                    assert(is_index_of(t, other, o));
                    let so = if o < k {
                        o
                    } else {
                        o + 1
                    };
                    assert(is_index_of(s, other, so));
                }
            }
        }
    }
}

/// `s` with every value replaced by what `f` makes of it.
pub open spec fn map_values<V, W>(s: Seq<(Seq<char>, V)>, f: spec_fn(V) -> W) -> Seq<
    (Seq<char>, W),
> {
    Seq::new(s.len(), |i: int| (s[i].0, f(s[i].1)))
}

/// Replacing the values keeps the ids: an id is present, and ids are unique,
/// after it exactly where before, and what is found under an id is what `f`
/// makes of what was found before.
pub proof fn lemma_map_values<V, W>(s: Seq<(Seq<char>, V)>, f: spec_fn(V) -> W, key: Seq<char>)
    ensures
        has_key(map_values(s, f), key) == has_key(s, key),
        unique_keys(s) == unique_keys(map_values(s, f)),
        unique_keys(s) ==> lookup(map_values(s, f), key) == match lookup(s, key) {
            Some(v) => Some(f(v)),
            None => None,
        },
        unique_keys(s) && has_key(s, key) ==> index_of(map_values(s, f), key) == index_of(s, key),
{
    let t = map_values(s, f);
    if has_key(s, key) {
        let i = index_of(s, key);
        assert(is_index_of(s, key, i));
        assert(is_index_of(t, key, i));
    }
    if has_key(t, key) {
        let i = index_of(t, key);
        assert(is_index_of(t, key, i));
        assert(is_index_of(s, key, i));
    }
    if unique_keys(s) {
        assert forall|i: int, j: int| 0 <= i < j < t.len() implies t[i].0 != t[j].0 by {
            assert(s[i].0 != s[j].0);
        }
        if has_key(s, key) {
            let i = index_of(s, key);
            assert(is_index_of(s, key, i));
            assert(is_index_of(t, key, i));
            lemma_index_of_unique(t, key, i);
        }
    }
    if unique_keys(t) {
        assert forall|i: int, j: int| 0 <= i < j < s.len() implies s[i].0 != s[j].0 by {
            assert(t[i].0 != t[j].0);
        }
    }
}

/// Replacing the values and storing a value can be done in either order.
pub proof fn lemma_map_values_put<V, W>(
    s: Seq<(Seq<char>, V)>,
    f: spec_fn(V) -> W,
    key: Seq<char>,
    value: V,
)
    requires
        unique_keys(s),
    ensures
        map_values(put(s, key, value), f) == put(map_values(s, f), key, f(value)),
{
    lemma_map_values(s, f, key);
    assert(map_values(put(s, key, value), f) =~= put(map_values(s, f), key, f(value)));
}

/// Replacing the values and removing an id can be done in either order.
pub proof fn lemma_map_values_without<V, W>(
    s: Seq<(Seq<char>, V)>,
    f: spec_fn(V) -> W,
    key: Seq<char>,
)
    requires
        unique_keys(s),
    ensures
        map_values(without(s, key), f) == without(map_values(s, f), key),
{
    lemma_map_values(s, f, key);
    assert(map_values(without(s, key), f) =~= without(map_values(s, f), key));
}

/// One entry of the map.
pub struct Entry<V> {
    key: String,
    value: V,
}

/// An ordered map from text ids to values.
pub struct IdMap<V> {
    entries: Vec<Entry<V>>,
}

/// The pairs that a sequence of entries stands for.
closed spec fn pairs_of<V>(entries: Seq<Entry<V>>) -> Seq<(Seq<char>, V)> {
    Seq::new(entries.len(), |i: int| (entries[i].key@, entries[i].value))
}

impl<V> View for IdMap<V> {
    type V = Seq<(Seq<char>, V)>;

    closed spec fn view(&self) -> Seq<(Seq<char>, V)> {
        pairs_of(self.entries@)
    }
}

impl<V> IdMap<V> {
    #[verifier::type_invariant]
    closed spec fn well_formed(self) -> bool {
        unique_keys(self@)
    }

    /// An empty map.
    pub fn new() -> (m: Self)
        ensures
            m@ == Seq::<(Seq<char>, V)>::empty(),
    {
        let m = IdMap { entries: Vec::new() };
        assert(m@ =~= Seq::<(Seq<char>, V)>::empty());
        m
    }

    /// The number of entries.
    pub fn len(&self) -> (n: usize)
        ensures
            n == self@.len(),
    {
        self.entries.len()
    }

    /// No id occurs twice in a map.
    pub fn ids_are_unique(&self)
        ensures
            unique_keys(self@),
    {
        proof {
            use_type_invariant(self);
        }
    }

    /// The position of `key`, if it is present.
    pub fn position(&self, key: &str) -> (r: Option<usize>)
        ensures
            unique_keys(self@),
            match r {
                Some(i) => is_index_of(self@, key@, i as int) && index_of(self@, key@) == i,
                None => !has_key(self@, key@),
            },
    {
        proof {
            use_type_invariant(self);
        }
        let wanted = String::from_str(key);
        let mut i: usize = 0;
        while i < self.entries.len()
            invariant
                i <= self.entries.len(),
                wanted@ == key@,
                unique_keys(self@),
                forall|j: int| 0 <= j < i ==> self@[j].0 != key@,
            decreases self.entries.len() - i,
        {
            if self.entries[i].key == wanted {
                proof {
                    lemma_index_of_unique(self@, key@, i as int);
                }
                return Some(i);
            }
            i = i + 1;
        }
        None
    }

    /// Whether `key` is present.
    pub fn contains_key(&self, key: &str) -> (b: bool)
        ensures
            b == has_key(self@, key@),
    {
        self.position(key).is_some()
    }

    /// The value stored under `key`, if any.
    pub fn get(&self, key: &str) -> (r: Option<&V>)
        ensures
            match r {
                Some(v) => lookup(self@, key@) == Some(*v),
                None => lookup(self@, key@) is None,
            },
    {
        match self.position(key) {
            Some(i) => Some(&self.entries[i].value),
            None => None,
        }
    }

    /// The id at position `i`, if the map has that many entries.
    pub fn key_at(&self, i: usize) -> (k: Option<&String>)
        ensures
            match k {
                Some(key) => i < self@.len() && key@ == self@[i as int].0,
                None => i >= self@.len(),
            },
    {
        if i < self.entries.len() {
            Some(&self.entries[i].key)
        } else {
            None
        }
    }

    /// The value at position `i`, if the map has that many entries.
    pub fn value_at(&self, i: usize) -> (v: Option<&V>)
        ensures
            match v {
                Some(value) => i < self@.len() && *value == self@[i as int].1,
                None => i >= self@.len(),
            },
    {
        if i < self.entries.len() {
            Some(&self.entries[i].value)
        } else {
            None
        }
    }

    /// Stores `value` under `key` and returns what was stored there before.
    pub fn insert(&mut self, key: String, value: V) -> (previous: Option<V>)
        ensures
            final(self)@ == put(old(self)@, key@, value),
            previous == lookup(old(self)@, key@),
    {
        proof {
            use_type_invariant(&*self);
        }
        let ghost before = self@;
        let found = self.position(key.as_str());
        proof {
            lemma_put(before, key@, value, key@);
        }
        match found {
            Some(i) => {
                let mut entries: Vec<Entry<V>> = Vec::new();
                core::mem::swap(&mut entries, &mut self.entries);
                let replaced = entries.remove(i);
                entries.insert(i, Entry { key, value });
                assert(pairs_of(entries@) =~= put(before, key@, value));
                self.entries = entries;
                Some(replaced.value)
            },
            None => {
                let mut entries: Vec<Entry<V>> = Vec::new();
                core::mem::swap(&mut entries, &mut self.entries);
                entries.push(Entry { key, value });
                assert(pairs_of(entries@) =~= put(before, key@, value));
                self.entries = entries;
                None
            },
        }
    }

    /// Removes the entry of `key` and returns its value.
    pub fn remove(&mut self, key: &str) -> (removed: Option<V>)
        ensures
            final(self)@ == without(old(self)@, key@),
            removed == lookup(old(self)@, key@),
    {
        proof {
            use_type_invariant(&*self);
        }
        let ghost before = self@;
        let found = self.position(key);
        proof {
            lemma_without(before, key@, key@);
        }
        match found {
            Some(i) => {
                let mut entries: Vec<Entry<V>> = Vec::new();
                core::mem::swap(&mut entries, &mut self.entries);
                let gone = entries.remove(i);
                assert(pairs_of(entries@) =~= without(before, key@));
                self.entries = entries;
                Some(gone.value)
            },
            None => None,
        }
    }

    /// Removes every entry.
    pub fn clear(&mut self)
        ensures
            final(self)@ == Seq::<(Seq<char>, V)>::empty(),
    {
        self.entries = Vec::new();
        assert(self@ =~= Seq::<(Seq<char>, V)>::empty());
    }

    /// The ids, in order.
    pub fn keys(&self) -> (ids: Vec<String>)
        ensures
            ids@.len() == self@.len(),
            forall|i: int| 0 <= i < ids@.len() ==> ids@[i]@ == self@[i].0,
    {
        let mut ids: Vec<String> = Vec::new();
        let mut i: usize = 0;
        while i < self.entries.len()
            invariant
                i <= self.entries.len(),
                ids@.len() == i,
                forall|j: int| 0 <= j < i ==> ids@[j]@ == self@[j].0,
            decreases self.entries.len() - i,
        {
            ids.push(self.entries[i].key.clone());
            i = i + 1;
        }
        ids
    }
}

} // verus!
