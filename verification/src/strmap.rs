//! A string-keyed map backed by a vector of entries, modelled in
//! specifications as a `Map<Seq<char>, V>`.  The stores that key their
//! records by a username or by a session token are built on it.

use vstd::prelude::*;

verus! {

/// The value bound to `k` by the entry list `s`, where a later entry
/// would shadow an earlier one.
pub open spec fn str_find<V>(s: Seq<(Seq<char>, V)>, k: Seq<char>) -> Option<V>
    decreases s.len(),
{
    if s.len() == 0 {
        None
    } else if s.last().0 == k {
        Some(s.last().1)
    } else {
        str_find(s.drop_last(), k)
    }
}

/// The map that the entry list `s` stands for.
pub open spec fn assoc_map<V>(s: Seq<(Seq<char>, V)>) -> Map<Seq<char>, V> {
    Map::new(
        |k: Seq<char>| str_find(s, k) is Some,
        |k: Seq<char>| str_find(s, k)->Some_0,
    )
}

/// No two entries share a key.
pub open spec fn unique_keys<V>(s: Seq<(Seq<char>, V)>) -> bool {
    forall|i: int, j: int|
        0 <= i < j < s.len() ==> (#[trigger] s[i]).0 != (#[trigger] s[j]).0
}

/// If no entry carries `k`, nothing is bound to `k`.
proof fn lemma_find_absent<V>(s: Seq<(Seq<char>, V)>, k: Seq<char>)
    requires
        forall|i: int| 0 <= i < s.len() ==> (#[trigger] s[i]).0 != k,
    ensures
        str_find(s, k) is None,
    decreases s.len(),
{
    if s.len() > 0 {
        lemma_find_absent(s.drop_last(), k);
    }
}

/// With unique keys, entry `i` is what its key is bound to.
proof fn lemma_find_present<V>(s: Seq<(Seq<char>, V)>, i: int)
    requires
        unique_keys(s),
        0 <= i < s.len(),
    ensures
        str_find(s, s[i].0) == Some(s[i].1),
    decreases s.len(),
{
    if i == s.len() - 1 {
    } else {
        lemma_find_present(s.drop_last(), i);
    }
}

/// Whatever is bound came from some entry.
proof fn lemma_find_witness<V>(s: Seq<(Seq<char>, V)>, k: Seq<char>)
    requires
        str_find(s, k) is Some,
    ensures
        exists|i: int|
            0 <= i < s.len() && (#[trigger] s[i]).0 == k && s[i].1 == str_find(s, k)->Some_0,
    decreases s.len(),
{
    if s.last().0 == k {
        assert(s[s.len() - 1].0 == k);
    } else {
        lemma_find_witness(s.drop_last(), k);
        let i = choose|i: int|
            0 <= i < s.len() - 1 && (#[trigger] s.drop_last()[i]).0 == k && s.drop_last()[i].1
                == str_find(s.drop_last(), k)->Some_0;
        assert(s[i].0 == k && s[i].1 == str_find(s, k)->Some_0);
    }
}

/// Taking out entry `i` takes out only its own binding.
proof fn lemma_find_remove<V>(s: Seq<(Seq<char>, V)>, i: int, q: Seq<char>)
    requires
        unique_keys(s),
        0 <= i < s.len(),
    ensures
        q != s[i].0 ==> str_find(s.remove(i), q) == str_find(s, q),
        str_find(s.remove(i), s[i].0) is None,
    decreases s.len(),
{
    let r = s.remove(i);
    if i == s.len() - 1 {
        assert(r =~= s.drop_last());
        assert(forall|j: int| 0 <= j < r.len() ==> (#[trigger] r[j]).0 != s[i].0);
        lemma_find_absent(r, s[i].0);
    } else {
        assert(r.last() == s.last());
        assert(r.drop_last() =~= s.drop_last().remove(i));
        assert(unique_keys(s.drop_last()));
        lemma_find_remove(s.drop_last(), i, q);
        lemma_find_remove(s.drop_last(), i, s[i].0);
        assert(s.drop_last()[i] == s[i]);
        assert(s.last().0 != s[i].0);
    }
}

/// A string-keyed map.  In specifications a `StrMap<V>` is its view, a
/// `Map<Seq<char>, V>`.
pub struct StrMap<V> {
    entries: Vec<(String, V)>,
}

impl<V> View for StrMap<V> {
    type V = Map<Seq<char>, V>;

    open spec fn view(&self) -> Map<Seq<char>, V> {
        assoc_map(self.entries_seq())
    }
}

impl<V> StrMap<V> {
    /// The entries as ghost pairs of key text and value.
    pub closed spec fn entries_seq(&self) -> Seq<(Seq<char>, V)> {
        self.entries@.map_values(|e: (String, V)| (e.0@, e.1))
    }

    /// The representation keeps one entry per key.  It holds of every
    /// `StrMap` value; `use_type_invariant` hands it to a proof.
    #[verifier::type_invariant]
    pub closed spec fn wf(self) -> bool {
        unique_keys(self.entries_seq())
    }

    /// The empty map.
    pub fn new() -> (r: Self)
        ensures
            r@ == Map::<Seq<char>, V>::empty(),
            r.entries_seq() == Seq::<(Seq<char>, V)>::empty(),
    {
        let r = StrMap { entries: Vec::new() };
        proof {
            assert(r.entries_seq() =~= Seq::<(Seq<char>, V)>::empty());
            assert(r@ =~= Map::<Seq<char>, V>::empty());
        }
        r
    }

    /// The position of the entry carrying `key`, if one does.
    fn index_of(&self, key: &String) -> (r: Option<usize>)
        ensures
            match r {
                Some(i) => {
                    &&& i < self.entries_seq().len()
                    &&& self.entries_seq()[i as int].0 == key@
                    &&& str_find(self.entries_seq(), key@) == Some(
                        self.entries_seq()[i as int].1,
                    )
                },
                None => str_find(self.entries_seq(), key@) is None,
            },
    {
        let ghost s = self.entries_seq();
        let mut i = self.entries.len();
        proof {
            assert(s.take(i as int) =~= s);
        }
        while i > 0
            invariant
                i <= self.entries.len(),
                s == self.entries_seq(),
                s.len() == self.entries.len(),
                str_find(s, key@) == str_find(s.take(i as int), key@),
            decreases i,
        {
            i = i - 1;
            proof {
                assert(s.take(i as int + 1).last() == s[i as int]);
                assert(s.take(i as int + 1).drop_last() =~= s.take(i as int));
            }
            if self.entries[i].0 == *key {
                return Some(i);
            }
        }
        proof {
            assert(s.take(0).len() == 0);
        }
        None
    }

    /// The value bound to `key`, if any.
    pub fn get<'a>(&'a self, key: &str) -> (r: Option<&'a V>)
        ensures
            match r {
                Some(v) => self@.contains_key(key@) && *v == self@[key@],
                None => !self@.contains_key(key@),
            },
    {
        let key_owned = key.to_owned();
        match self.index_of(&key_owned) {
            Some(i) => Some(&self.entries[i].1),
            None => None,
        }
    }

    /// Whether `key` is bound.
    pub fn contains_key(&self, key: &str) -> (r: bool)
        ensures
            r == self@.contains_key(key@),
    {
        let key_owned = key.to_owned();
        self.index_of(&key_owned).is_some()
    }

    /// Binds `key` to `value`, in place of whatever it was bound to.
    pub fn insert(&mut self, key: String, value: V)
        ensures
            final(self)@ == old(self)@.insert(key@, value),
    {
        let _ = self.remove(key.as_str());
        proof {
            use_type_invariant(&*self);
        }
        let ghost s = self.entries_seq();
        let ghost before = self@;
        let ghost kview = key@;
        let ghost vval = value;
        let mut entries: Vec<(String, V)> = Vec::new();
        core::mem::swap(&mut entries, &mut self.entries);
        entries.push((key, value));
        proof {
            let s2 = entries@.map_values(|e: (String, V)| (e.0@, e.1));
            assert(s2.drop_last() =~= s);
            assert(s2.last() == (kview, vval));
            assert(!before.contains_key(kview));
            assert(before.contains_key(kview) == (str_find(s, kview) is Some));
            assert(str_find(s, kview) is None);
            assert forall|i: int| 0 <= i < s.len() implies (#[trigger] s[i]).0 != kview by {
                if s[i].0 == kview {
                    lemma_find_present(s, i);
                }
            }
            assert forall|i: int, j: int| 0 <= i < j < s2.len() implies (#[trigger] s2[i]).0 != (
            #[trigger] s2[j]).0 by {
                assert(s2[i] == s[i]);
                if j < s2.len() - 1 {
                    assert(s2[j] == s[j]);
                }
            }
            assert(unique_keys(s2));
            assert(assoc_map(s2) =~= before.insert(kview, vval)) by {
                assert(forall|q: Seq<char>| q != kview ==> #[trigger] str_find(s2, q) == str_find(
                    s, q));
            }
        }
        self.entries = entries;
        proof {
            assert(old(self)@.insert(key@, value) =~= before.insert(kview, vval));
        }
    }

    /// Unbinds `key` and hands back what it was bound to, if anything.
    pub fn remove(&mut self, key: &str) -> (r: Option<V>)
        ensures
            final(self)@ == old(self)@.remove(key@),
            match r {
                Some(v) => old(self)@.contains_key(key@) && v == old(self)@[key@],
                None => !old(self)@.contains_key(key@),
            },
    {
        proof {
            use_type_invariant(&*self);
        }
        let ghost s = self.entries_seq();
        let key_owned = key.to_owned();
        match self.index_of(&key_owned) {
            None => {
                proof {
                    assert(self@.remove(key@) =~= self@);
                }
                None
            },
            Some(i) => {
                let mut entries: Vec<(String, V)> = Vec::new();
                core::mem::swap(&mut entries, &mut self.entries);
                let pair = entries.remove(i);
                proof {
                    let s2 = entries@.map_values(|e: (String, V)| (e.0@, e.1));
                    assert(s2 =~= s.remove(i as int));
                    assert(unique_keys(s2)) by {
                        assert(forall|a: int| 0 <= a < s2.len() ==> s2[a] == s[
                            if a < i as int { a } else { a + 1 }
                        ]);
                    }
                    assert(forall|q: Seq<char>| #[trigger] str_find(s2, q) == str_find(
                        s.remove(i as int), q));
                    lemma_find_remove(s, i as int, key@);
                    assert(assoc_map(s2) =~= assoc_map(s).remove(key@)) by {
                        assert(forall|q: Seq<char>| q != key@ ==> #[trigger] str_find(s2, q)
                            == str_find(s, q)) by {
                            assert(forall|q: Seq<char>| q != s[i as int].0
                                ==> #[trigger] str_find(s.remove(i as int), q) == str_find(s, q))
                                by {
                                assert forall|q: Seq<char>| q != s[i as int].0 implies #[trigger]
                                    str_find(s.remove(i as int), q) == str_find(s, q) by {
                                    lemma_find_remove(s, i as int, q);
                                }
                            }
                        }
                    }
                }
                self.entries = entries;
                Some(pair.1)
            },
        }
    }

    /// How many entries there are.
    pub fn num_entries(&self) -> (r: usize)
        ensures
            r == self.entries_seq().len(),
    {
        self.entries.len()
    }

    /// The key and value of entry `i`.
    pub fn entry_at(&self, i: usize) -> (r: (&String, &V))
        requires
            i < self.entries_seq().len(),
        ensures
            r.0@ == self.entries_seq()[i as int].0,
            *r.1 == self.entries_seq()[i as int].1,
    {
        (&self.entries[i].0, &self.entries[i].1)
    }

    /// The map binds no more keys than it has entries.
    pub proof fn lemma_dom_card(&self)
        requires
            self.wf(),
        ensures
            self@.dom().finite(),
            self@.dom().len() <= self.entries_seq().len(),
    {
        broadcast use vstd::seq_lib::seq_to_set_is_finite;

        let s = self.entries_seq();
        let keys = s.map_values(|e: (Seq<char>, V)| e.0);
        assert forall|k: Seq<char>| self@.dom().contains(k) implies keys.to_set().contains(k) by {
            lemma_find_witness(s, k);
            let i = choose|i: int|
                0 <= i < s.len() && (#[trigger] s[i]).0 == k && s[i].1 == str_find(s, k)->Some_0;
            assert(keys[i] == k);
        }
        keys.lemma_cardinality_of_set();
        vstd::set_lib::lemma_len_subset(self@.dom(), keys.to_set());
    }

    /// The entries and the map agree: every entry is a binding, and
    /// every binding is an entry.
    pub proof fn lemma_entries_view(&self)
        requires
            self.wf(),
        ensures
            forall|i: int|
                0 <= i < self.entries_seq().len() ==> {
                    &&& self@.contains_key((#[trigger] self.entries_seq()[i]).0)
                    &&& self@[self.entries_seq()[i].0] == self.entries_seq()[i].1
                },
            forall|k: Seq<char>|
                self@.contains_key(k) ==> exists|i: int|
                    0 <= i < self.entries_seq().len() && (#[trigger] self.entries_seq()[i]).0 == k
                        && self.entries_seq()[i].1 == self@[k],
    {
        let s = self.entries_seq();
        assert forall|i: int| 0 <= i < s.len() implies {
            &&& self@.contains_key((#[trigger] s[i]).0)
            &&& self@[s[i].0] == s[i].1
        } by {
            lemma_find_present(s, i);
        }
        assert forall|k: Seq<char>| self@.contains_key(k) implies exists|i: int|
            0 <= i < s.len() && (#[trigger] s[i]).0 == k && s[i].1 == self@[k] by {
            lemma_find_witness(s, k);
        }
    }
}

} // verus!
