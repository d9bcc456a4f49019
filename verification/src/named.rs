//! A map from names to values, kept as a list of entries with distinct
//! names in insertion order.

use vstd::prelude::*;

use crate::text::same_text;

verus! {

/// The map of a list of named entries, later entries winning.
pub open spec fn named_map<V>(s: Seq<(Seq<char>, V)>) -> Map<Seq<char>, V>
    decreases s.len(),
{
    if s.len() == 0 {
        Map::empty()
    } else {
        named_map(s.drop_last()).insert(s.last().0, s.last().1)
    }
}

/// Whether no two entries share a name.
pub open spec fn distinct_names<V>(s: Seq<(Seq<char>, V)>) -> bool {
    forall|i: int, j: int| 0 <= i < j < s.len() ==> s[i].0 != s[j].0
}

/// The named entries of a list.
pub open spec fn named_view<V>(v: Seq<(String, V)>) -> Seq<(Seq<char>, V)> {
    v.map_values(|e: (String, V)| (e.0@, e.1))
}

proof fn lemma_named_entries<V>(s: Seq<(Seq<char>, V)>)
    requires
        distinct_names(s),
    ensures
        forall|i: int| 0 <= i < s.len() ==> #[trigger] named_map(s).contains_key(s[i].0)
            && named_map(s)[s[i].0] == s[i].1,
        forall|k: Seq<char>| #[trigger] named_map(s).contains_key(k) ==> exists|i: int|
            0 <= i < s.len() && s[i].0 == k,
    decreases s.len(),
{
    if s.len() > 0 {
        let p = s.drop_last();
        lemma_named_entries(p);
        assert forall|i: int| 0 <= i < s.len() implies #[trigger] named_map(s).contains_key(
            s[i].0,
        ) && named_map(s)[s[i].0] == s[i].1 by {
            if i < s.len() - 1 {
                assert(p[i] == s[i]);
                assert(named_map(p).contains_key(p[i].0));
                assert(s[i].0 != s[s.len() - 1].0);
            }
        }
        assert forall|k: Seq<char>| #[trigger] named_map(s).contains_key(k) implies exists|i: int|
            0 <= i < s.len() && s[i].0 == k by {
            if k == s.last().0 {
                assert(s[s.len() - 1].0 == k);
            } else {
                assert(named_map(p).contains_key(k));
                let i = choose|i: int| 0 <= i < p.len() && p[i].0 == k;
                assert(p[i] == s[i]);
            }
        }
    }
}

proof fn lemma_named_remove<V>(s: Seq<(Seq<char>, V)>, i: int)
    requires
        distinct_names(s),
        0 <= i < s.len(),
    ensures
        named_map(s.remove(i)) == named_map(s).remove(s[i].0),
        distinct_names(s.remove(i)),
    decreases s.len(),
{
    let u = s.remove(i);
    assert(distinct_names(u)) by {
        assert forall|a: int, b: int| 0 <= a < b < u.len() implies u[a].0 != u[b].0 by {
            let sa = if a < i {
                a
            } else {
                a + 1
            };
            let sb = if b < i {
                b
            } else {
                b + 1
            };
            assert(u[a] == s[sa]);
            assert(u[b] == s[sb]);
        }
    }
    lemma_named_entries(s);
    lemma_named_entries(u);
    assert forall|k: Seq<char>| named_map(u).contains_key(k) <==> named_map(s).remove(
        s[i].0,
    ).contains_key(k) by {
        if named_map(u).contains_key(k) {
            let j = choose|j: int| 0 <= j < u.len() && u[j].0 == k;
            let sj = if j < i {
                j
            } else {
                j + 1
            };
            assert(u[j] == s[sj]);
            assert(named_map(s).contains_key(s[sj].0));
        }
        if named_map(s).remove(s[i].0).contains_key(k) {
            let j = choose|j: int| 0 <= j < s.len() && s[j].0 == k;
            assert(j != i);
            let uj = if j < i {
                j
            } else {
                j - 1
            };
            assert(u[uj] == s[j]);
            assert(named_map(u).contains_key(u[uj].0));
        }
    }
    assert forall|k: Seq<char>| #[trigger] named_map(u).contains_key(k) implies named_map(u)[k]
        == named_map(s)[k] by {
        let j = choose|j: int| 0 <= j < u.len() && u[j].0 == k;
        let sj = if j < i {
            j
        } else {
            j + 1
        };
        assert(u[j] == s[sj]);
    }
    assert(named_map(u) =~= named_map(s).remove(s[i].0));
}

proof fn lemma_named_finite<V>(s: Seq<(Seq<char>, V)>)
    ensures
        named_map(s).dom().finite(),
    decreases s.len(),
{
    if s.len() > 0 {
        lemma_named_finite(s.drop_last());
    }
}

/// Values by name.
pub struct NamedMap<V> {
    entries: Vec<(String, V)>,
}

impl<V> View for NamedMap<V> {
    type V = Map<Seq<char>, V>;

    closed spec fn view(&self) -> Map<Seq<char>, V> {
        named_map(named_view(self.entries@))
    }
}

impl<V> NamedMap<V> {
    #[verifier::type_invariant]
    closed spec fn wf(self) -> bool {
        distinct_names(named_view(self.entries@))
    }

    /// A map holds finitely many names.
    pub proof fn lemma_finite(&self)
        ensures
            self@.dom().finite(),
    {
        lemma_named_finite(named_view(self.entries@));
    }

    /// An empty map.
    pub fn new() -> (r: NamedMap<V>)
        ensures
            r@ == Map::<Seq<char>, V>::empty(),
    {
        let r = NamedMap { entries: Vec::new() };
        assert(named_view(r.entries@) =~= Seq::<(Seq<char>, V)>::empty());
        r
    }

    fn position(&self, name: &str) -> (r: Option<usize>)
        ensures
            r matches Some(i) ==> i < self.entries@.len() && self.entries@[i as int].0@ == name@,
            r is None ==> !self@.contains_key(name@),
    {
        proof {
            use_type_invariant(self);
            lemma_named_entries(named_view(self.entries@));
        }
        let ghost s = named_view(self.entries@);
        let mut i: usize = 0;
        while i < self.entries.len()
            invariant
                i <= self.entries@.len(),
                s == named_view(self.entries@),
                forall|j: int| 0 <= j < i ==> s[j].0 != name@,
            decreases self.entries.len() - i,
        {
            if same_text(self.entries[i].0.as_str(), name) {
                return Some(i);
            }
            i = i + 1;
        }
        proof {
            if self@.contains_key(name@) {
                let j = choose|j: int| 0 <= j < s.len() && s[j].0 == name@;
                assert(s[j].0 != name@);
            }
        }
        None
    }

    /// The value kept for `name`.
    pub fn get(&self, name: &str) -> (r: Option<&V>)
        ensures
            r matches Some(v) ==> self@.contains_key(name@) && self@[name@] == *v,
            r is None ==> !self@.contains_key(name@),
    {
        proof {
            use_type_invariant(self);
            lemma_named_entries(named_view(self.entries@));
        }
        match self.position(name) {
            Some(i) => {
                let ghost s = named_view(self.entries@);
                assert(s[i as int].0 == name@);
                assert(s[i as int].1 == self.entries@[i as int].1);
                assert(named_map(s).contains_key(s[i as int].0));
                Some(&self.entries[i].1)
            },
            None => None,
        }
    }

    /// Removes the value kept for `name` and returns it.
    pub fn remove(&mut self, name: &str) -> (r: Option<V>)
        ensures
            r matches Some(v) ==> old(self)@.contains_key(name@) && old(self)@[name@] == v,
            r is None ==> !old(self)@.contains_key(name@),
            final(self)@ == old(self)@.remove(name@),
    {
        proof {
            use_type_invariant(&*self);
            lemma_named_entries(named_view(self.entries@));
        }
        match self.position(name) {
            Some(i) => {
                let ghost s = named_view(self.entries@);
                assert(s[i as int].0 == name@);
                assert(s[i as int].1 == self.entries@[i as int].1);
                assert(named_map(s).contains_key(s[i as int].0));
                let mut entries: Vec<(String, V)> = Vec::new();
                std::mem::swap(&mut entries, &mut self.entries);
                let (_, v) = entries.remove(i);
                proof {
                    lemma_named_remove(s, i as int);
                    assert(named_view(entries@) =~= s.remove(i as int));
                }
                self.entries = entries;
                Some(v)
            },
            None => {
                assert(old(self)@.remove(name@) =~= old(self)@);
                None
            },
        }
    }

    /// Keeps `v` for `name`, replacing any value kept before.
    pub fn insert(&mut self, name: &str, v: V)
        ensures
            final(self)@ == old(self)@.insert(name@, v),
    {
        let _ = self.remove(name);
        proof {
            use_type_invariant(&*self);
            lemma_named_entries(named_view(self.entries@));
        }
        let ghost s = named_view(self.entries@);
        let mut entries: Vec<(String, V)> = Vec::new();
        std::mem::swap(&mut entries, &mut self.entries);
        entries.push((String::from_str(name), v));
        proof {
            let n = named_view(entries@);
            assert(n =~= s.push((name@, v)));
            assert(n.drop_last() =~= s);
            assert forall|a: int, b: int| 0 <= a < b < n.len() implies n[a].0 != n[b].0 by {
                if b == n.len() - 1 {
                    assert(named_map(s).contains_key(s[a].0));
                }
            }
        }
        self.entries = entries;
    }
}

} // verus!
