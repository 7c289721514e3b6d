//! A string-keyed association map, the carrier of every table in the
//! installed-state document.  Entries are held in insertion order with
//! pairwise-distinct keys; the abstract value is a mathematical map
//! from character sequences to the values' views.

use crate::strutil::str_eq;
use vstd::prelude::*;

verus! {

broadcast use vstd::set::group_set_axioms, vstd::seq::group_seq_axioms;

/// The key/value views of an entry list.
pub open spec fn kvs_view<T: View>(entries: Seq<(String, T)>) -> Seq<(Seq<char>, T::V)> {
    entries.map_values(|e: (String, T)| (e.0@, e.1@))
}

/// The keys of a key/value sequence, in order.
pub open spec fn keys_of<W>(s: Seq<(Seq<char>, W)>) -> Seq<Seq<char>> {
    s.map_values(|e: (Seq<char>, W)| e.0)
}

/// The map that a key/value sequence denotes; later entries win.
pub open spec fn map_of<W>(s: Seq<(Seq<char>, W)>) -> Map<Seq<char>, W>
    decreases s.len(),
{
    if s.len() == 0 {
        Map::<Seq<char>, W>::empty()
    } else {
        map_of(s.drop_last()).insert(s.last().0, s.last().1)
    }
}

/// With distinct keys, a key/value sequence and its map agree entry
/// for entry, and the map's domain is exactly the keys.
pub proof fn lemma_map_of<W>(s: Seq<(Seq<char>, W)>)
    requires
        keys_of(s).no_duplicates(),
    ensures
        forall|i: int|
            0 <= i < s.len() ==> map_of(s).contains_key(#[trigger] s[i].0) && map_of(s)[s[i].0]
                == s[i].1,
        forall|k: Seq<char>|
            #[trigger] map_of(s).contains_key(k) ==> exists|i: int|
                0 <= i < s.len() && s[i].0 == k,
        map_of(s).dom().finite(),
        map_of(s).dom().len() == s.len(),
    decreases s.len(),
{
    assert(forall|i: int| 0 <= i < s.len() ==> #[trigger] keys_of(s)[i] == s[i].0);
    if s.len() == 0 {
    } else {
        let d = s.drop_last();
        assert(keys_of(d).no_duplicates()) by {
            assert(forall|i: int| 0 <= i < d.len() ==> #[trigger] keys_of(d)[i] == keys_of(s)[i]);
        }
        lemma_map_of(d);
        assert(forall|i: int| 0 <= i < d.len() ==> #[trigger] s[i] == d[i]);
        assert(!map_of(d).contains_key(s.last().0)) by {
            if map_of(d).contains_key(s.last().0) {
                let i = choose|i: int| 0 <= i < d.len() && d[i].0 == s.last().0;
                assert(keys_of(s)[i] == keys_of(s)[s.len() - 1]);
            }
        }
        assert(forall|i: int|
            0 <= i < s.len() - 1 ==> #[trigger] s[i].0 != s.last().0) by {
            assert(forall|i: int|
                0 <= i < s.len() - 1 ==> keys_of(s)[i] == #[trigger] s[i].0 && keys_of(s)[s.len()
                    - 1] == s.last().0);
        }
    }
}

/// Removing one entry of a distinct-keyed sequence removes exactly its
/// key from the denoted map.
pub proof fn lemma_map_of_remove<W>(s: Seq<(Seq<char>, W)>, idx: int)
    requires
        keys_of(s).no_duplicates(),
        0 <= idx < s.len(),
    ensures
        keys_of(s.remove(idx)).no_duplicates(),
        map_of(s.remove(idx)) =~= map_of(s).remove(s[idx].0),
        forall|j: int| 0 <= j < s.len() - 1 ==> #[trigger] s.remove(idx)[j].0 != s[idx].0,
    decreases s.len(),
{
    let s1 = s.remove(idx);
    assert(forall|i: int| 0 <= i < s.len() ==> #[trigger] keys_of(s)[i] == s[i].0);
    assert(forall|i: int| 0 <= i < s1.len() ==> #[trigger] keys_of(s1)[i] == s1[i].0);
    assert(forall|j: int|
        0 <= j < s1.len() ==> #[trigger] s1[j] == (if j < idx {
            s[j]
        } else {
            s[j + 1]
        }));
    assert forall|i: int, j: int|
        0 <= i < s1.len() && 0 <= j < s1.len() && i != j implies keys_of(s1)[i] != keys_of(
        s1,
    )[j] by {
        let i2: int = if i < idx {
            i
        } else {
            i + 1
        };
        let j2: int = if j < idx {
            j
        } else {
            j + 1
        };
        assert(keys_of(s)[i2] == s[i2].0 && keys_of(s)[j2] == s[j2].0);
        assert(keys_of(s)[i2] != keys_of(s)[j2]);
    }
    assert(keys_of(s1).no_duplicates());
    assert forall|j: int| 0 <= j < s1.len() implies #[trigger] s1[j].0 != s[idx].0 by {
        let j2: int = if j < idx {
            j
        } else {
            j + 1
        };
        assert(keys_of(s)[j2] == s[j2].0 && keys_of(s)[idx] == s[idx].0);
        assert(keys_of(s)[j2] != keys_of(s)[idx]);
    }
    if idx == s.len() - 1 {
        assert(s1 =~= s.drop_last());
        assert(keys_of(s.drop_last()).no_duplicates()) by {
            assert(forall|i: int|
                0 <= i < s.len() - 1 ==> #[trigger] keys_of(s.drop_last())[i] == keys_of(s)[i]);
        }
        lemma_map_of(s.drop_last());
        assert(!map_of(s.drop_last()).contains_key(s.last().0)) by {
            if map_of(s.drop_last()).contains_key(s.last().0) {
                let i = choose|i: int|
                    0 <= i < s.drop_last().len() && s.drop_last()[i].0 == s.last().0;
                assert(keys_of(s)[i] == keys_of(s)[s.len() - 1]);
            }
        }
        assert(map_of(s1) =~= map_of(s).remove(s[idx].0));
    } else {
        let d = s.drop_last();
        assert(keys_of(d).no_duplicates()) by {
            assert(forall|i: int| 0 <= i < d.len() ==> #[trigger] keys_of(d)[i] == keys_of(s)[i]);
        }
        lemma_map_of_remove(d, idx);
        assert(s1.drop_last() =~= d.remove(idx));
        assert(s1.last() == s.last());
        assert(map_of(s1) == map_of(d.remove(idx)).insert(s.last().0, s.last().1));
        assert(d[idx] == s[idx]);
        assert(s[idx].0 != s.last().0) by {
            assert(keys_of(s)[idx] == s[idx].0 && keys_of(s)[s.len() - 1] == s.last().0);
        }
        assert(map_of(s1) =~= map_of(s).remove(s[idx].0));
    }
}

/// Finds the position of a key in an entry list, if it is present.
fn find_key<T: View>(entries: &Vec<(String, T)>, k: &str) -> (r: Option<usize>)
    ensures
        match r {
            Option::Some(i) => i < entries@.len() && entries@[i as int].0@ == k@,
            Option::None => forall|j: int| 0 <= j < entries@.len() ==> entries@[j].0@ != k@,
        },
{
    let n = entries.len();
    let mut i: usize = 0;
    while i < n
        invariant
            n == entries@.len(),
            i <= n,
            forall|j: int| 0 <= j < i ==> #[trigger] entries@[j].0@ != k@,
        decreases n - i,
    {
        if str_eq(entries[i].0.as_str(), k) {
            return Option::Some(i);
        }
        i = i + 1;
    }
    Option::None
}

/// A map from `String` keys to values, held as an entry vector whose
/// keys are pairwise distinct.
#[derive(Debug)]
pub struct StringMap<T: View> {
    entries: Vec<(String, T)>,
}

impl<T: View> View for StringMap<T> {
    type V = Map<Seq<char>, T::V>;

    closed spec fn view(&self) -> Map<Seq<char>, T::V> {
        map_of(kvs_view(self.entries@))
    }
}

impl<T: View> StringMap<T> {
    #[verifier::type_invariant]
    spec fn wf(self) -> bool {
        keys_of(kvs_view(self.entries@)).no_duplicates()
    }

    /// The entry views in insertion order.
    pub closed spec fn kvs(&self) -> Seq<(Seq<char>, T::V)> {
        kvs_view(self.entries@)
    }

    /// The key views in insertion order.
    pub open spec fn key_seq(&self) -> Seq<Seq<char>> {
        keys_of(self.kvs())
    }

    /// The keys are pairwise distinct, cover the domain exactly, and
    /// each position of the entry list agrees with the map.
    pub open spec fn entry_facts(&self) -> bool {
        &&& self.key_seq().no_duplicates()
        &&& self.key_seq().len() == self@.dom().len()
        &&& self.key_seq().len() == self.kvs().len()
        &&& self@.dom().finite()
        &&& forall|i: int|
            0 <= i < self.key_seq().len() ==> self@.contains_key(#[trigger] self.key_seq()[i])
                && self@[self.key_seq()[i]] == self.kvs()[i].1
        &&& forall|k: Seq<char>|
            #[trigger] self@.contains_key(k) ==> exists|i: int|
                0 <= i < self.key_seq().len() && self.key_seq()[i] == k
    }

    proof fn lemma_entries(&self)
        requires
            self.wf(),
        ensures
            self.entry_facts(),
    {
        lemma_map_of(self.kvs());
        assert(forall|i: int|
            0 <= i < self.kvs().len() ==> #[trigger] self.key_seq()[i] == self.kvs()[i].0);
        assert forall|k: Seq<char>| #[trigger] self@.contains_key(k) implies exists|i: int|
            0 <= i < self.key_seq().len() && self.key_seq()[i] == k by {
            let i = choose|i: int| 0 <= i < self.kvs().len() && self.kvs()[i].0 == k;
            assert(self.key_seq()[i] == k);
        }
    }

    /// An empty map.
    pub fn new() -> (r: Self)
        ensures
            r@ == Map::<Seq<char>, T::V>::empty(),
            r.key_seq().len() == 0,
    {
        StringMap { entries: Vec::new() }
    }

    /// How many entries the map holds.  Callers that walk the entry
    /// list learn here how it relates to the map.
    pub fn len(&self) -> (r: usize)
        ensures
            r == self@.dom().len(),
            r == self.key_seq().len(),
            self.entry_facts(),
    {
        proof {
            use_type_invariant(self);
            self.lemma_entries();
        }
        self.entries.len()
    }

    /// Whether the map is empty.
    pub fn is_empty(&self) -> (r: bool)
        ensures
            r == (self@.dom() =~= Set::<Seq<char>>::empty()),
    {
        proof {
            use_type_invariant(self);
            self.lemma_entries();
            if self.key_seq().len() > 0 {
                assert(self@.contains_key(self.key_seq()[0]));
            }
        }
        self.entries.len() == 0
    }

    /// Looks a key up.
    pub fn get<'a>(&'a self, k: &str) -> (r: Option<&'a T>)
        ensures
            match r {
                Option::Some(v) => self@.contains_key(k@) && v@ == self@[k@],
                Option::None => !self@.contains_key(k@),
            },
    {
        proof {
            use_type_invariant(self);
            self.lemma_entries();
            assert(forall|i: int|
                0 <= i < self.kvs().len() ==> #[trigger] self.kvs()[i] == (
                self.entries@[i].0@,
                self.entries@[i].1@,
                ));
        }
        match find_key(&self.entries, k) {
            Option::Some(i) => {
                proof {
                    assert(self.key_seq()[i as int] == self.kvs()[i as int].0);
                }
                Option::Some(&self.entries[i].1)
            },
            Option::None => {
                proof {
                    if self@.contains_key(k@) {
                        let i = choose|i: int|
                            0 <= i < self.key_seq().len() && self.key_seq()[i] == k@;
                        assert(self.kvs()[i].0 == k@);
                    }
                }
                Option::None
            },
        }
    }

    /// Whether a key is present.
    pub fn contains_key(&self, k: &str) -> (r: bool)
        ensures
            r == self@.contains_key(k@),
    {
        match self.get(k) {
            Option::Some(_) => true,
            Option::None => false,
        }
    }

    /// Inserts a binding, replacing any entry under the same key.
    pub fn insert(&mut self, k: String, v: T)
        ensures
            final(self)@ == old(self)@.insert(k@, v@),
    {
        proof {
            use_type_invariant(&*self);
        }
        let mut entries: Vec<(String, T)> = Vec::new();
        core::mem::swap(&mut entries, &mut self.entries);
        let ghost s0 = kvs_view(entries@);
        proof {
            lemma_map_of(s0);
            assert(forall|j: int|
                0 <= j < entries@.len() ==> #[trigger] s0[j] == (
                entries@[j].0@,
                entries@[j].1@,
                ));
        }
        match find_key(&entries, k.as_str()) {
            Option::Some(idx) => {
                proof {
                    lemma_map_of_remove(s0, idx as int);
                    assert(s0[idx as int].0 == k@);
                }
                entries.remove(idx);
                proof {
                    let s1 = kvs_view(entries@);
                    assert(s1 =~= s0.remove(idx as int));
                    assert(keys_of(s1).no_duplicates());
                    assert(map_of(s1) =~= map_of(s0).remove(k@));
                    assert(forall|j: int| 0 <= j < s1.len() ==> #[trigger] s1[j].0 != k@);
                }
            },
            Option::None => {
                proof {
                    let s1 = kvs_view(entries@);
                    assert(!map_of(s0).contains_key(k@)) by {
                        if map_of(s0).contains_key(k@) {
                            let i = choose|i: int| 0 <= i < s0.len() && s0[i].0 == k@;
                            assert(entries@[i].0@ == k@);
                        }
                    }
                    assert(s1 =~= s0);
                    assert(keys_of(s1).no_duplicates());
                    assert(map_of(s1) =~= map_of(s0).remove(k@));
                    assert(forall|j: int| 0 <= j < s1.len() ==> #[trigger] s1[j].0 != k@);
                }
            },
        }
        let ghost s1 = kvs_view(entries@);
        proof {
            assert(keys_of(s1).no_duplicates());
            assert(map_of(s1) =~= map_of(s0).remove(k@));
            assert(forall|j: int| 0 <= j < s1.len() ==> #[trigger] s1[j].0 != k@);
        }
        entries.push((k, v));
        proof {
            let s2 = kvs_view(entries@);
            assert(s2.drop_last() =~= s1);
            assert(s2.last() == (k@, v@));
            assert(map_of(s2) == map_of(s1).insert(k@, v@));
            assert(map_of(s2) =~= map_of(s0).insert(k@, v@));
            assert(forall|j: int| 0 <= j < s2.len() ==> #[trigger] keys_of(s2)[j] == s2[j].0);
            assert(forall|j: int| 0 <= j < s1.len() ==> #[trigger] s2[j] == s1[j]);
            assert forall|i: int, j: int|
                0 <= i < s2.len() && 0 <= j < s2.len() && i != j implies keys_of(s2)[i]
                != keys_of(s2)[j] by {
                if i < s1.len() && j < s1.len() {
                    assert(keys_of(s1)[i] == s1[i].0 && keys_of(s1)[j] == s1[j].0);
                    assert(keys_of(s1)[i] != keys_of(s1)[j]);
                }
            }
            assert(keys_of(s2).no_duplicates());
        }
        self.entries = entries;
    }

    /// Removes a binding if it is present.
    pub fn remove(&mut self, k: &str)
        ensures
            final(self)@ == old(self)@.remove(k@),
    {
        proof {
            use_type_invariant(&*self);
        }
        let mut entries: Vec<(String, T)> = Vec::new();
        core::mem::swap(&mut entries, &mut self.entries);
        let ghost s0 = kvs_view(entries@);
        proof {
            lemma_map_of(s0);
            assert(forall|j: int|
                0 <= j < entries@.len() ==> #[trigger] s0[j] == (
                entries@[j].0@,
                entries@[j].1@,
                ));
        }
        match find_key(&entries, k) {
            Option::Some(idx) => {
                proof {
                    lemma_map_of_remove(s0, idx as int);
                }
                entries.remove(idx);
                proof {
                    assert(kvs_view(entries@) =~= s0.remove(idx as int));
                }
            },
            Option::None => {
                proof {
                    assert(!map_of(s0).contains_key(k@)) by {
                        if map_of(s0).contains_key(k@) {
                            let i = choose|i: int| 0 <= i < s0.len() && s0[i].0 == k@;
                            assert(entries@[i].0@ == k@);
                        }
                    }
                    assert(map_of(s0) =~= map_of(s0).remove(k@));
                }
            },
        }
        self.entries = entries;
    }

    /// The key at a position of the entry list.
    pub fn key_at(&self, i: usize) -> (r: &String)
        requires
            i < self.key_seq().len(),
        ensures
            r@ == self.key_seq()[i as int],
    {
        proof {
            use_type_invariant(self);
            assert(self.key_seq()[i as int] == self.kvs()[i as int].0);
        }
        &self.entries[i].0
    }

    /// The value at a position of the entry list.
    pub fn value_at(&self, i: usize) -> (r: &T)
        requires
            i < self.key_seq().len(),
        ensures
            self@.contains_key(self.key_seq()[i as int]),
            r@ == self@[self.key_seq()[i as int]],
            r@ == self.kvs()[i as int].1,
    {
        proof {
            use_type_invariant(self);
            self.lemma_entries();
            assert(self.key_seq()[i as int] == self.kvs()[i as int].0);
        }
        &self.entries[i].1
    }

    /// All keys, in entry order.
    pub fn keys(&self) -> (r: Vec<String>)
        ensures
            r@.map_values(|s: String| s@) == self.key_seq(),
    {
        proof {
            use_type_invariant(self);
        }
        let n = self.entries.len();
        let mut out: Vec<String> = Vec::new();
        let mut i: usize = 0;
        while i < n
            invariant
                n == self.entries@.len(),
                i <= n,
                out@.len() == i,
                self.key_seq().len() == n,
                forall|j: int| 0 <= j < i ==> #[trigger] out@[j]@ == self.key_seq()[j],
                forall|j: int|
                    0 <= j < n ==> #[trigger] self.key_seq()[j] == self.entries@[j].0@,
            decreases n - i,
        {
            out.push(self.entries[i].0.clone());
            i = i + 1;
        }
        proof {
            assert(out@.map_values(|s: String| s@) =~= self.key_seq());
        }
        out
    }
}

} // verus!
