//! Association tables.

use crate::hir::DefId;
use crate::list::faithful_clone;
use crate::symbol::SymbolPath;
use crate::text::same_strings;
use vstd::prelude::*;

verus! {

/// A type whose values are compared by their models.
pub trait Key: DeepView + Sized {
    /// Whether two keys have the same model.
    fn same_key(&self, other: &Self) -> (r: bool)
        ensures
            r == (self.deep_view() == other.deep_view()),
    ;
}

impl Key for String {
    fn same_key(&self, other: &Self) -> (r: bool) {
        *self == *other
    }
}

impl Key for SymbolPath {
    fn same_key(&self, other: &Self) -> (r: bool) {
        same_strings(&self.segments, &other.segments)
    }
}

impl Key for DefId {
    fn same_key(&self, other: &Self) -> (r: bool) {
        *self == *other
    }
}

/// A finite map from keys to values. Setting a key again hides its earlier
/// value.
pub struct Table<K: Key, V: DeepView> {
    entries: Vec<(K, V)>,
}

/// The map that a list of entries stands for: later entries hide earlier ones.
pub open spec fn entries_map<K: Key, V: DeepView>(entries: Seq<(K, V)>) -> Map<K::V, V::V>
    decreases entries.len(),
{
    if entries.len() == 0 {
        Map::empty()
    } else {
        let e = entries.last();
        entries_map(entries.drop_last()).insert(e.0.deep_view(), e.1.deep_view())
    }
}

impl<K: Key, V: DeepView> View for Table<K, V> {
    type V = Map<K::V, V::V>;

    closed spec fn view(&self) -> Map<K::V, V::V> {
        entries_map(self.entries@)
    }
}

/// What a map holds under a key.
pub open spec fn lookup<A, B>(m: Map<A, B>, k: A) -> Option<B> {
    if m.dom().contains(k) {
        Some(m[k])
    } else {
        None
    }
}

proof fn lemma_entry<K: Key, V: DeepView>(entries: Seq<(K, V)>, k: K::V)
    ensures
        entries_map(entries).dom().contains(k) <==> exists|i: int|
            0 <= i < entries.len() && (#[trigger] entries[i]).0.deep_view() == k,
    decreases entries.len(),
{
    if entries.len() > 0 {
        lemma_entry(entries.drop_last(), k);
        if entries_map(entries.drop_last()).dom().contains(k) {
            let i = choose|i: int|
                0 <= i < entries.drop_last().len() && (
                #[trigger] entries.drop_last()[i]).0.deep_view() == k;
            assert(entries[i].0.deep_view() == k);
        }
        if entries.last().0.deep_view() == k {
            assert(entries[entries.len() - 1].0.deep_view() == k);
        }
        assert forall|i: int|
            0 <= i < entries.len() && (#[trigger] entries[i]).0.deep_view() == k implies entries_map(
            entries,
        ).dom().contains(k) by {
            if i < entries.len() - 1 {
                assert(entries.drop_last()[i].0.deep_view() == k);
            }
        }
    }
}

impl<K: Key, V: DeepView> Table<K, V> {
    /// An empty table.
    pub fn new() -> (r: Self)
        ensures
            r@ == Map::<K::V, V::V>::empty(),
    {
        Table { entries: Vec::new() }
    }

    /// Sets the value of a key.
    pub fn insert(&mut self, key: K, value: V)
        ensures
            final(self)@ == old(self)@.insert(key.deep_view(), value.deep_view()),
    {
        let ghost before = self.entries@;
        self.entries.push((key, value));
        assert(self.entries@.drop_last() =~= before);
    }

    /// The value of a key.
    pub fn get(&self, key: &K) -> (r: Option<&V>)
        ensures
            r.deep_view() == lookup(self@, key.deep_view()),
    {
        let mut i: usize = self.entries.len();
        assert(self.entries@.subrange(0, i as int) =~= self.entries@);
        while i > 0
            invariant
                i <= self.entries@.len(),
                lookup(self@, key.deep_view()) == lookup(
                    entries_map(self.entries@.subrange(0, i as int)),
                    key.deep_view(),
                ),
            decreases i,
        {
            i = i - 1;
            assert(self.entries@.subrange(0, i + 1).drop_last() =~= self.entries@.subrange(
                0,
                i as int,
            ));
            if self.entries[i].0.same_key(key) {
                return Some(&self.entries[i].1);
            }
        }
        None
    }

    /// Whether a key has a value.
    pub fn contains(&self, key: &K) -> (r: bool)
        ensures
            r == self@.dom().contains(key.deep_view()),
    {
        match self.get(key) {
            Some(_) => true,
            None => false,
        }
    }
}

impl<K: Key, V: Key> Table<K, V> {
    /// Whether some key has this value.
    pub fn has_value(&self, value: &V) -> (r: bool)
        ensures
            r == self@.contains_value(value.deep_view()),
    {
        let ghost want = value.deep_view();
        for i in 0..self.entries.len()
            invariant
                want == value.deep_view(),
                forall|j: int|
                    0 <= j < i ==> lookup(self@, (#[trigger] self.entries@[j]).0.deep_view())
                        != Some(want),
        {
            match self.get(&self.entries[i].0) {
                Some(v) => {
                    if v.same_key(value) {
                        assert(self@.dom().contains(self.entries@[i as int].0.deep_view()));
                        assert(self@[self.entries@[i as int].0.deep_view()] == want);
                        return true;
                    }
                },
                None => {},
            }
        }
        proof {
            if self@.contains_value(want) {
                let k = choose|k: K::V| #[trigger] self@.dom().contains(k) && self@[k] == want;
                lemma_entry(self.entries@, k);
                let j = choose|j: int|
                    0 <= j < self.entries@.len() && (#[trigger] self.entries@[j]).0.deep_view()
                        == k;
                assert(lookup(self@, self.entries@[j].0.deep_view()) == Some(want));
            }
        }
        false
    }
}

impl<K: Key + Clone, V: DeepView + Clone> Table<K, V> {
    /// A copy of the table.
    pub fn duplicate(&self) -> (r: Self)
        requires
            faithful_clone::<K>(),
            faithful_clone::<V>(),
        ensures
            r@ == self@,
    {
        let mut out: Table<K, V> = Table::new();
        assert(self.entries@.subrange(0, 0) =~= Seq::empty());
        for i in 0..self.entries.len()
            invariant
                out@ == entries_map(self.entries@.subrange(0, i as int)),
                faithful_clone::<K>(),
                faithful_clone::<V>(),
        {
            let k = self.entries[i].0.clone();
            let v = self.entries[i].1.clone();
            assert(cloned(self.entries@[i as int].1, v));
            assert(cloned(self.entries@[i as int].0, k));
            out.insert(k, v);
            assert(self.entries@.subrange(0, i + 1).drop_last() =~= self.entries@.subrange(
                0,
                i as int,
            ));
        }
        assert(self.entries@.subrange(0, self.entries@.len() as int) =~= self.entries@);
        out
    }
}

} // verus!
