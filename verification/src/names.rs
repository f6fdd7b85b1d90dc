//! Small name-keyed store used throughout the library: shader interfaces,
//! uniform stores and mesh registries all key their entries by a string.
//! Entries keep their insertion order, keys are unique, and the mathematical
//! view is a map from character sequences to values.
use vstd::prelude::*;

verus! {

/// String equality by character sequence.
pub fn str_eq(a: &str, b: &str) -> (r: bool)
    ensures
        r == (a@ == b@),
{
    let sa = a.to_owned();
    let sb = b.to_owned();
    sa == sb
}

/// A name-keyed store with unique keys, kept in insertion order.
pub struct NameMap<T> {
    entries: Vec<(String, T)>,
}

impl<T> NameMap<T> {
    /// Keys held, as a set of character sequences; the view below gives the
    /// value under each.
    pub closed spec fn has_name(self, k: Seq<char>) -> bool {
        exists|i: int| 0 <= i < self.entries@.len() && self.entries@[i].0@ == k
    }

    spec fn key_index(self, k: Seq<char>) -> int {
        choose|i: int| 0 <= i < self.entries@.len() && self.entries@[i].0@ == k
    }

    /// The entries in insertion order.
    pub closed spec fn entries_seq(self) -> Seq<(String, T)> {
        self.entries@
    }

    /// Well-formed: keys are unique.  Constructors establish it and every
    /// operation preserves it.
    pub closed spec fn wf(self) -> bool {
        forall|i: int, j: int| #![trigger self.entries@[i], self.entries@[j]]
            0 <= i < self.entries@.len() && 0 <= j < self.entries@.len() && i != j
                ==> self.entries@[i].0@ != self.entries@[j].0@
    }

    pub fn new() -> (r: NameMap<T>)
        ensures
            r.wf(),
            r@ == Map::<Seq<char>, T>::empty(),
            r.entries_seq() == Seq::<(String, T)>::empty(),
    {
        let r = NameMap { entries: Vec::new() };
        proof {
            assert(r@ =~= Map::<Seq<char>, T>::empty());
            assert(r.entries_seq() =~= Seq::<(String, T)>::empty());
        }
        r
    }

    pub fn get<'a>(&'a self, name: &str) -> (r: Option<&'a T>)
        requires
            self.wf(),
        ensures
            (r matches Some(v) ==> self@.contains_key(name@) && *v == self@[name@]),
            (r is None ==> !self@.contains_key(name@)),
    {
        let n = self.entries.len();
        let mut i: usize = 0;
        while i < n
            invariant
                self.wf(),
                n == self.entries@.len(),
                forall|j: int| 0 <= j < i ==> self.entries@[j].0@ != name@,
            decreases n - i,
        {
            if str_eq(self.entries[i].0.as_str(), name) {
                proof {
                    assert(self.entries@[i as int].0@ == name@);
                    assert(self.has_name(name@));
                    let j = self.key_index(name@);
                    assert(0 <= j < self.entries@.len() && self.entries@[j].0@ == name@);
                    assert(j == i) by {
                        if j != i {
                            assert(self.entries@[j].0@ != self.entries@[i as int].0@);
                        }
                    }
                }
                return Some(&self.entries[i].1);
            }
            i += 1;
        }
        None
    }

    /// Inserts the value under the name, replacing any value held there.
    pub fn insert(&mut self, name: String, value: T)
        requires
            old(self).wf(),
        ensures
            final(self).wf(),
            final(self)@ == old(self)@.insert(name@, value),
            old(self).has_name(name@) ==> final(self).entries_seq().len() == old(
                self,
            ).entries_seq().len(),
            !old(self).has_name(name@) ==> final(self).entries_seq() == old(
                self,
            ).entries_seq().push((name, value)),
    {
        let ghost orig = *self;
        let n = self.entries.len();
        let mut i: usize = 0;
        while i < n
            invariant
                *self == orig,
                orig == *old(self),
                orig.wf(),
                n == self.entries@.len(),
                forall|j: int| 0 <= j < i ==> self.entries@[j].0@ != name@,
            decreases n - i,
        {
            if str_eq(self.entries[i].0.as_str(), name.as_str()) {
                let ghost k = name@;
                self.entries.set(i, (name, value));
                proof {
                    assert(orig.wf());
                    assert(self.entries@ == orig.entries@.update(i as int, (name, value)));
                    assert forall|a: int, b: int| #![trigger self.entries@[a], self.entries@[b]]
                        0 <= a < self.entries@.len() && 0 <= b < self.entries@.len() && a != b
                            implies self.entries@[a].0@ != self.entries@[b].0@ by {
                        assert(orig.entries@[a] == if a == i { orig.entries@[a] } else { self.entries@[a] });
                        if a != i && b != i {
                            assert(orig.entries@[a].0@ != orig.entries@[b].0@);
                        } else if a == i {
                            assert(orig.entries@[i as int].0@ != orig.entries@[b].0@);
                        } else {
                            assert(orig.entries@[a].0@ != orig.entries@[i as int].0@);
                        }
                    }
                    assert(self.wf());
                    Self::lemma_view_at(*self, i as int);
                    assert forall|q: Seq<char>| #[trigger]
                        self@.contains_key(q) || orig@.insert(k, value).contains_key(q) implies (
                    self@.contains_key(q) == orig@.insert(k, value).contains_key(q) && (
                    self@.contains_key(q) ==> self@[q] == orig@.insert(k, value)[q])) by {
                        if q == k {
                            assert(self@.contains_key(q) && self@[q] == value);
                        } else {
                            if orig.has_name(q) {
                                let j = orig.key_index(q);
                                assert(j != i);
                                assert(self.entries@[j].0@ == q);
                                Self::lemma_view_at(*self, j);
                                Self::lemma_view_at(orig, j);
                            }
                            if self.has_name(q) {
                                let j = self.key_index(q);
                                assert(j != i);
                                assert(orig.entries@[j].0@ == q);
                                Self::lemma_view_at(*self, j);
                                Self::lemma_view_at(orig, j);
                            }
                        }
                    }
                    assert(self@ =~= orig@.insert(k, value));
                }
                return ;
            }
            i += 1;
        }
        let ghost k = name@;
        self.entries.push((name, value));
        proof {
            assert(orig.wf());
            assert(self.entries@ == orig.entries@.push((name, value)));
            assert forall|a: int, b: int| #![trigger self.entries@[a], self.entries@[b]]
                0 <= a < self.entries@.len() && 0 <= b < self.entries@.len() && a != b
                    implies self.entries@[a].0@ != self.entries@[b].0@ by {
                if a < n && b < n {
                    assert(orig.entries@[a].0@ != orig.entries@[b].0@);
                } else if a == n {
                    assert(self.entries@[a].0@ == name@ && orig.entries@[b].0@ != name@);
                } else {
                    assert(self.entries@[b].0@ == name@ && orig.entries@[a].0@ != name@);
                }
            }
            assert(self.wf());
            Self::lemma_view_at(*self, n as int);
            assert forall|q: Seq<char>| #[trigger]
                self@.contains_key(q) || orig@.insert(k, value).contains_key(q) implies (
            self@.contains_key(q) == orig@.insert(k, value).contains_key(q) && (self@.contains_key(
                q,
            ) ==> self@[q] == orig@.insert(k, value)[q])) by {
                if q == k {
                    assert(self@.contains_key(q) && self@[q] == value);
                } else {
                    if orig.has_name(q) {
                        let j = orig.key_index(q);
                        assert(self.entries@[j].0@ == q);
                        Self::lemma_view_at(*self, j);
                        Self::lemma_view_at(orig, j);
                    }
                    if self.has_name(q) {
                        let j = self.key_index(q);
                        assert(j != n);
                        assert(orig.entries@[j].0@ == q);
                        Self::lemma_view_at(*self, j);
                        Self::lemma_view_at(orig, j);
                    }
                }
            }
            assert(self@ =~= orig@.insert(k, value));
        }
    }

    /// Takes the entry under the name out, if one is there.
    pub fn remove(&mut self, name: &str)
        requires
            old(self).wf(),
        ensures
            final(self).wf(),
            final(self)@ == old(self)@.remove(name@),
    {
        let ghost orig = *self;
        let n = self.entries.len();
        let mut i: usize = 0;
        while i < n
            invariant
                *self == orig,
                orig == *old(self),
                orig.wf(),
                n == self.entries@.len(),
                forall|j: int| 0 <= j < i ==> self.entries@[j].0@ != name@,
            decreases n - i,
        {
            if str_eq(self.entries[i].0.as_str(), name) {
                let ghost k = name@;
                self.entries.remove(i);
                proof {
                    assert(self.entries@ =~= orig.entries@.subrange(0, i as int)
                        + orig.entries@.subrange(i + 1 as int, n as int));
                    assert forall|a: int, b: int| #![trigger self.entries@[a], self.entries@[b]]
                        0 <= a < self.entries@.len() && 0 <= b < self.entries@.len() && a != b
                            implies self.entries@[a].0@ != self.entries@[b].0@ by {
                        let a0 = if a < i { a } else { a + 1 };
                        let b0 = if b < i { b } else { b + 1 };
                        assert(self.entries@[a] == orig.entries@[a0]);
                        assert(self.entries@[b] == orig.entries@[b0]);
                        assert(orig.entries@[a0].0@ != orig.entries@[b0].0@);
                    }
                    assert(self.wf());
                    assert forall|q: Seq<char>| #[trigger]
                        self@.contains_key(q) || orig@.remove(k).contains_key(q) implies (
                    self@.contains_key(q) == orig@.remove(k).contains_key(q) && (
                    self@.contains_key(q) ==> self@[q] == orig@.remove(k)[q])) by {
                        if q == k {
                            if self.has_name(q) {
                                let j = self.key_index(q);
                                let j0 = if j < i {
                                    j
                                } else {
                                    j + 1
                                };
                                assert(self.entries@[j] == orig.entries@[j0]);
                                assert(orig.entries@[j0].0@ == k && orig.entries@[i as int].0@
                                    == k);
                                assert(j0 == i);
                                assert(false);
                            }
                        } else {
                            if orig.has_name(q) {
                                let j = orig.key_index(q);
                                assert(orig.entries@[j].0@ == q);
                                assert(j != i);
                                let j1 = if j < i {
                                    j
                                } else {
                                    j - 1
                                };
                                assert(self.entries@[j1] == orig.entries@[j]);
                                Self::lemma_view_at(*self, j1);
                                Self::lemma_view_at(orig, j);
                            }
                            if self.has_name(q) {
                                let j = self.key_index(q);
                                let j0 = if j < i {
                                    j
                                } else {
                                    j + 1
                                };
                                assert(self.entries@[j] == orig.entries@[j0]);
                                Self::lemma_view_at(*self, j);
                                Self::lemma_view_at(orig, j0);
                            }
                        }
                    }
                    assert(self@ =~= orig@.remove(k));
                }
                return ;
            }
            i += 1;
        }
        proof {
            assert(!orig.has_name(name@));
            assert(!orig@.contains_key(name@));
            assert(self@ =~= orig@.remove(name@));
        }
    }

    /// With unique keys, the view at the key of any entry is that entry's
    /// value.
    proof fn lemma_view_at(m: NameMap<T>, i: int)
        requires
            m.wf(),
            0 <= i < m.entries@.len(),
        ensures
            m@.contains_key(m.entries@[i].0@),
            m@[m.entries@[i].0@] == m.entries@[i].1,
    {
        let k = m.entries@[i].0@;
        assert(m.has_name(k));
        let j = m.key_index(k);
        assert(0 <= j < m.entries@.len() && m.entries@[j].0@ == k);
        assert(j == i) by {
            if j != i {
                assert(m.entries@[j].0@ != m.entries@[i].0@);
            }
        }
    }
}

impl<T> View for NameMap<T> {
    type V = Map<Seq<char>, T>;

    closed spec fn view(&self) -> Map<Seq<char>, T> {
        Map::new(|k: Seq<char>| self.has_name(k), |k: Seq<char>| self.entries@[self.key_index(k)].1)
    }
}

} // verus!
