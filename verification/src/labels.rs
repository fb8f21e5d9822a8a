//! Label sets: small maps from text keys to text values, kept in insertion order with
//! no key held twice.

use vstd::prelude::*;

verus! {

/// One `key=value` pair.
#[derive(Debug, PartialEq, Eq)]
pub struct Label {
    pub key: String,
    pub value: String,
}

impl View for Label {
    type V = (Seq<char>, Seq<char>);

    open spec fn view(&self) -> (Seq<char>, Seq<char>) {
        (self.key@, self.value@)
    }
}

/// The pairs of a label set, as mathematical values.
pub type Pairs = Seq<(Seq<char>, Seq<char>)>;

/// Some pair of `s` has the key `key`.
pub open spec fn has_key(s: Pairs, key: Seq<char>) -> bool {
    exists|i: int| 0 <= i < s.len() && (#[trigger] s[i]).0 == key
}

/// A position at which `s` holds `key`; meaningful only where [`has_key`] holds.
pub open spec fn key_index(s: Pairs, key: Seq<char>) -> int {
    choose|i: int| 0 <= i < s.len() && (#[trigger] s[i]).0 == key
}

/// No key occurs at two positions of `s`.
pub open spec fn distinct_keys(s: Pairs) -> bool {
    forall|i: int, j: int| 0 <= i < j < s.len() ==> (#[trigger] s[i]).0 != (#[trigger] s[j]).0
}

/// The value that `s` gives to `key`, if any.
pub open spec fn lookup(s: Pairs, key: Seq<char>) -> Option<Seq<char>> {
    if has_key(s, key) {
        Some(s[key_index(s, key)].1)
    } else {
        None
    }
}

/// `s` after `key` was set to `value`: an existing pair is overwritten in place, a new
/// key is added at the end.
pub open spec fn upsert(s: Pairs, key: Seq<char>, value: Seq<char>) -> Pairs {
    if has_key(s, key) {
        s.update(key_index(s, key), (key, value))
    } else {
        s.push((key, value))
    }
}

/// The map that the pairs of `s` describe.
pub open spec fn as_map(s: Pairs) -> Map<Seq<char>, Seq<char>> {
    Map::new(|k: Seq<char>| has_key(s, k), |k: Seq<char>| s[key_index(s, k)].1)
}

/// Every pair of `selector` is a pair of `labels`: an object that carries `labels` is
/// selected by `selector`.
pub open spec fn selects(selector: Pairs, labels: Pairs) -> bool {
    forall|k: Seq<char>| #[trigger] has_key(selector, k) ==> lookup(labels, k) == lookup(selector, k)
}

/// With distinct keys, a key stands at one position only.
pub proof fn lemma_key_index_unique(s: Pairs, key: Seq<char>, i: int)
    requires
        distinct_keys(s),
        0 <= i < s.len(),
        s[i].0 == key,
    ensures
        has_key(s, key),
        key_index(s, key) == i,
        lookup(s, key) == Some(s[i].1),
{
    let j = key_index(s, key);
    assert(0 <= j < s.len() && s[j].0 == key);
    if j < i {
        assert(s[j].0 != s[i].0);
    }
    if i < j {
        assert(s[i].0 != s[j].0);
    }
}

/// Setting a key keeps the keys distinct, makes the key map to the new value and leaves
/// every other key as it was.
pub proof fn lemma_upsert(s: Pairs, key: Seq<char>, value: Seq<char>)
    requires
        distinct_keys(s),
    ensures
        distinct_keys(upsert(s, key, value)),
        lookup(upsert(s, key, value), key) == Some(value),
        forall|k: Seq<char>| k != key ==> lookup(upsert(s, key, value), k) == lookup(s, k),
        as_map(upsert(s, key, value)) == as_map(s).insert(key, value),
{
    let t = upsert(s, key, value);
    let p = if has_key(s, key) { key_index(s, key) } else { s.len() as int };
    assert(0 <= p < t.len());
    assert(t[p] == (key, value));
    assert(forall|i: int| 0 <= i < t.len() && i != p ==> t[i] == s[i]);
    assert(forall|i: int| 0 <= i < s.len() && i != p ==> (#[trigger] s[i]).0 != key) by {
        if has_key(s, key) {
            assert forall|i: int| 0 <= i < s.len() && i != p implies (#[trigger] s[i]).0 != key by {
                if s[i].0 == key {
                    lemma_key_index_unique(s, key, i);
                }
            }
        }
    }
    assert(distinct_keys(t)) by {
        assert forall|i: int, j: int| 0 <= i < j < t.len() implies (#[trigger] t[i]).0 != (
        #[trigger] t[j]).0 by {
            if i != p && j != p {
                assert(s[i].0 != s[j].0);
            } else if i == p {
                assert(s[j].0 != key);
            } else {
                assert(s[i].0 != key);
            }
        }
    }
    lemma_key_index_unique(t, key, p);
    assert forall|k: Seq<char>| k != key implies lookup(t, k) == lookup(s, k) by {
        if has_key(s, k) {
            let i = key_index(s, k);
            assert(i != p);
            assert(t[i] == s[i]);
            lemma_key_index_unique(t, k, i);
        } else if has_key(t, k) {
            let i = key_index(t, k);
            assert(i != p);
            assert(s[i].0 == k);
        }
    }
    assert(as_map(t) =~= as_map(s).insert(key, value)) by {
        assert forall|k: Seq<char>| as_map(t).dom().contains(k) <==> as_map(s).insert(
            key,
            value,
        ).dom().contains(k) by {
            if k != key {
                assert(lookup(t, k) == lookup(s, k));
            }
        }
        assert forall|k: Seq<char>| #[trigger] as_map(t).dom().contains(k) implies as_map(t)[k]
            == as_map(s).insert(key, value)[k] by {
            if k != key {
                assert(lookup(t, k) == lookup(s, k));
            }
        }
    }
}

/// A set of labels. No key occurs twice; the pairs keep the order in which their keys
/// were first set.
#[derive(Debug, PartialEq, Eq)]
pub struct LabelSet {
    entries: Vec<Label>,
}

impl View for LabelSet {
    type V = Pairs;

    closed spec fn view(&self) -> Pairs {
        self.entries@.map_values(|l: Label| l@)
    }
}

impl LabelSet {
    /// The invariant of the type: no key occurs twice.
    pub open spec fn wf(&self) -> bool {
        distinct_keys(self@)
    }

    /// The empty set.
    pub fn new() -> (res: Self)
        ensures
            res@ == Pairs::empty(),
            res.wf(),
    {
        let res = LabelSet { entries: Vec::new() };
        assert(res@ =~= Pairs::empty());
        res
    }

    /// The number of pairs.
    pub fn len(&self) -> (n: usize)
        ensures
            n == self@.len(),
    {
        self.entries.len()
    }

    /// The pair at position `i`.
    pub fn entry(&self, i: usize) -> (label: &Label)
        requires
            i < self@.len(),
        ensures
            label@ == self@[i as int],
    {
        &self.entries[i]
    }

    /// The value of `key`, if the set holds it.
    pub fn get(&self, key: &str) -> (res: Option<&String>)
        requires
            self.wf(),
        ensures
            match res {
                Some(v) => lookup(self@, key@) == Some(v@),
                None => lookup(self@, key@) is None,
            },
    {
        let wanted = String::from_str(key);
        let mut i: usize = 0;
        while i < self.entries.len()
            invariant
                self.wf(),
                wanted@ == key@,
                i <= self.entries.len(),
                forall|j: int| 0 <= j < i ==> (#[trigger] self@[j]).0 != key@,
            decreases self.entries.len() - i,
        {
            assert(self@[i as int] == self.entries@[i as int]@);
            if self.entries[i].key == wanted {
                proof {
                    lemma_key_index_unique(self@, key@, i as int);
                }
                return Some(&self.entries[i].value);
            }
            i += 1;
        }
        None
    }

    /// Sets `key` to `value` and returns the value that `key` had before, if any.
    pub fn insert(&mut self, key: String, value: String) -> (previous: Option<String>)
        requires
            old(self).wf(),
        ensures
            final(self).wf(),
            final(self)@ == upsert(old(self)@, key@, value@),
            match previous {
                Some(v) => lookup(old(self)@, key@) == Some(v@),
                None => lookup(old(self)@, key@) is None,
            },
    {
        proof {
            lemma_upsert(self@, key@, value@);
        }
        let mut i: usize = 0;
        while i < self.entries.len()
            invariant
                self.wf(),
                i <= self.entries.len(),
                *self == *old(self),
                forall|j: int| 0 <= j < i ==> (#[trigger] self@[j]).0 != key@,
            decreases self.entries.len() - i,
        {
            assert(self@[i as int] == self.entries@[i as int]@);
            if self.entries[i].key == key {
                proof {
                    lemma_key_index_unique(self@, key@, i as int);
                }
                let mut updated = Label { key, value };
                let ghost before = self@;
                std::mem::swap(&mut self.entries[i], &mut updated);
                assert(self@ =~= before.update(i as int, (key@, value@)));
                return Some(updated.value);
            }
            i += 1;
        }
        let ghost before = self@;
        self.entries.push(Label { key, value });
        assert(self@ =~= before.push((key@, value@)));
        None
    }
}

impl Clone for Label {
    fn clone(&self) -> (res: Self)
        ensures
            res@ == self@,
    {
        Label { key: self.key.clone(), value: self.value.clone() }
    }
}

impl Clone for LabelSet {
    fn clone(&self) -> (res: Self)
        ensures
            res@ == self@,
    {
        let mut entries: Vec<Label> = Vec::new();
        let mut i: usize = 0;
        while i < self.entries.len()
            invariant
                i <= self.entries.len(),
                entries@.len() == i,
                forall|j: int| 0 <= j < i ==> (#[trigger] entries@[j])@ == self.entries@[j]@,
            decreases self.entries.len() - i,
        {
            entries.push(self.entries[i].clone());
            i += 1;
        }
        let res = LabelSet { entries };
        assert(res@ =~= self@);
        res
    }
}

} // verus!
