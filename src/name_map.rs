//! An insertion-ordered map from names to values, with unique names.
use vstd::prelude::*;
use crate::text::text_eq;

verus! {

/// Position of the last entry of `s` whose name is `k`, or -1 when none is.
pub open spec fn key_index<W>(s: Seq<(Seq<char>, W)>, k: Seq<char>) -> int
    decreases s.len(),
{
    if s.len() == 0 {
        -1
    } else if s.last().0 == k {
        s.len() - 1
    } else {
        key_index(s.drop_last(), k)
    }
}

/// The names of the entries of `s`, in order.
pub open spec fn keys_of<W>(s: Seq<(Seq<char>, W)>) -> Seq<Seq<char>> {
    s.map_values(|e: (Seq<char>, W)| e.0)
}

/// The value stored under `k` in `s`, if any.
pub open spec fn lookup<W>(s: Seq<(Seq<char>, W)>, k: Seq<char>) -> Option<W> {
    let i = key_index(s, k);
    if i < 0 {
        None
    } else {
        Some(s[i].1)
    }
}

/// `s` after storing `w` under `k`: an existing entry of that name is
/// replaced where it stands, otherwise the entry goes at the end.
pub open spec fn insert_entry<W>(s: Seq<(Seq<char>, W)>, k: Seq<char>, w: W) -> Seq<(Seq<char>, W)> {
    let i = key_index(s, k);
    if i < 0 {
        s.push((k, w))
    } else {
        s.update(i, (k, w))
    }
}

/// `key_index` finds an entry of the given name exactly when there is one.
pub proof fn lemma_key_index<W>(s: Seq<(Seq<char>, W)>, k: Seq<char>)
    ensures
        -1 <= key_index(s, k) < s.len(),
        key_index(s, k) >= 0 ==> s[key_index(s, k)].0 == k,
        key_index(s, k) < 0 ==> forall|j: int| 0 <= j < s.len() ==> s[j].0 != k,
        keys_of(s).no_duplicates() ==> forall|j: int|
            0 <= j < s.len() && s[j].0 == k ==> key_index(s, k) == j,
    decreases s.len(),
{
    if s.len() > 0 {
        lemma_key_index(s.drop_last(), k);
        assert forall|j: int| 0 <= j < s.len() - 1 implies s.drop_last()[j] == s[j] by {}
        if keys_of(s).no_duplicates() {
            assert(keys_of(s.drop_last()) =~= keys_of(s).drop_last());
            assert forall|j: int| 0 <= j < s.len() && s[j].0 == k implies key_index(s, k) == j by {
                if j < s.len() - 1 && s.last().0 == k {
                    assert(keys_of(s)[j] == keys_of(s)[s.len() - 1]);
                }
            }
        }
    }
}

/// A map from names to values that keeps the order in which names were
/// first stored, and holds each name once.
#[derive(Debug)]
pub struct NameMap<V: DeepView> {
    entries: Vec<(String, V)>,
}

impl<V: DeepView> DeepView for NameMap<V> {
    type V = Seq<(Seq<char>, V::V)>;

    closed spec fn deep_view(&self) -> Seq<(Seq<char>, V::V)> {
        self.entries@.map_values(|e: (String, V)| (e.0@, e.1.deep_view()))
    }
}

impl<V: DeepView> NameMap<V> {
    #[verifier::type_invariant]
    spec fn names_unique(&self) -> bool {
        keys_of(self.deep_view()).no_duplicates()
    }

    /// An empty map.
    pub fn new() -> (r: Self)
        ensures
            r.deep_view() == Seq::<(Seq<char>, V::V)>::empty(),
    {
        let r = NameMap { entries: Vec::new() };
        assert(r.deep_view() =~= Seq::<(Seq<char>, V::V)>::empty());
        r
    }

    /// The number of entries; no name occurs twice among them.
    pub fn len(&self) -> (r: usize)
        ensures
            r == self.deep_view().len(),
            keys_of(self.deep_view()).no_duplicates(),
    {
        proof {
            use_type_invariant(self);
        }
        self.entries.len()
    }

    /// Tells whether the map holds no entry.
    pub fn is_empty(&self) -> (r: bool)
        ensures
            r == (self.deep_view().len() == 0),
    {
        self.entries.len() == 0
    }

    /// The position of the entry named `k`, if there is one.
    fn position(&self, k: &str) -> (r: Option<usize>)
        ensures
            r is None ==> key_index(self.deep_view(), k@) == -1,
            r matches Some(i) ==> key_index(self.deep_view(), k@) == i && i < self.entries@.len(),
    {
        proof {
            use_type_invariant(self);
            lemma_key_index(self.deep_view(), k@);
        }
        let mut i: usize = 0;
        while i < self.entries.len()
            invariant
                i <= self.entries@.len(),
                self.entries@.len() == self.deep_view().len(),
                forall|j: int| 0 <= j < i ==> self.deep_view()[j].0 != k@,
            decreases self.entries@.len() - i,
        {
            if text_eq(self.entries[i].0.as_str(), k) {
                proof {
                    use_type_invariant(self);
                    lemma_key_index(self.deep_view(), k@);
                }
                assert(self.deep_view()[i as int].0 == k@);
                return Some(i);
            }
            i += 1;
        }
        None
    }

    /// Tells whether an entry is named `k`.
    pub fn contains_key(&self, k: &str) -> (r: bool)
        ensures
            r == (key_index(self.deep_view(), k@) >= 0),
    {
        self.position(k).is_some()
    }

    /// The value stored under `k`, if any.
    pub fn get(&self, k: &str) -> (r: Option<&V>)
        ensures
            r.deep_view() == lookup(self.deep_view(), k@),
    {
        match self.position(k) {
            Some(i) => Some(&self.entries[i].1),
            None => None,
        }
    }

    /// The name of the entry at position `i`.
    pub fn key_at(&self, i: usize) -> (r: &String)
        requires
            i < self.deep_view().len(),
        ensures
            r@ == self.deep_view()[i as int].0,
    {
        &self.entries[i].0
    }

    /// The value of the entry at position `i`.
    pub fn value_at(&self, i: usize) -> (r: &V)
        requires
            i < self.deep_view().len(),
        ensures
            r.deep_view() == self.deep_view()[i as int].1,
    {
        &self.entries[i].1
    }

    /// The names of all entries, in order.
    pub fn keys(&self) -> (r: Vec<String>)
        ensures
            r.deep_view() == keys_of(self.deep_view()),
    {
        let mut r: Vec<String> = Vec::new();
        let mut i: usize = 0;
        while i < self.entries.len()
            invariant
                i <= self.entries@.len(),
                self.entries@.len() == self.deep_view().len(),
                r.deep_view() =~= keys_of(self.deep_view()).subrange(0, i as int),
            decreases self.entries@.len() - i,
        {
            let name = self.entries[i].0.clone();
            assert(keys_of(self.deep_view())[i as int] == name@);
            let ghost before = r.deep_view();
            r.push(name);
            assert(r.deep_view() =~= before.push(name@));
            assert(keys_of(self.deep_view()).subrange(0, i + 1) =~= keys_of(
                self.deep_view(),
            ).subrange(0, i as int).push(name@));
            i += 1;
        }
        assert(r.deep_view() =~= keys_of(self.deep_view()));
        r
    }

    /// Stores `v` under `k`. An entry already named `k` gets the new value
    /// where it stands; otherwise the entry is added at the end.
    pub fn insert(&mut self, k: String, v: V)
        ensures
            final(self).deep_view() == insert_entry(old(self).deep_view(), k@, v.deep_view()),
    {
        proof {
            use_type_invariant(&*self);
            lemma_key_index(self.deep_view(), k@);
        }
        let ghost old_view = self.deep_view();
        let ghost kv = k@;
        let ghost vv = v.deep_view();
        let found = self.position(k.as_str());
        let mut taken = NameMap { entries: Vec::new() };
        core::mem::swap(self, &mut taken);
        let mut entries = taken.entries;
        assert(entries@.map_values(|e: (String, V)| (e.0@, e.1.deep_view())) == old_view);
        match found {
            Some(i) => {
                entries.remove(i);
                entries.insert(i, (k, v));
                let ghost nv = entries@.map_values(|e: (String, V)| (e.0@, e.1.deep_view()));
                assert(nv =~= old_view.update(i as int, (kv, vv)));
                assert(keys_of(nv) =~= keys_of(old_view));
            },
            None => {
                entries.push((k, v));
                let ghost nv = entries@.map_values(|e: (String, V)| (e.0@, e.1.deep_view()));
                assert(nv =~= old_view.push((kv, vv)));
                assert(keys_of(nv) =~= keys_of(old_view).push(kv));
                assert(!keys_of(old_view).contains(kv));
            },
        }
        *self = NameMap { entries };
    }
}

} // verus!
