//! Per-character action history: the most recent records of each
//! character, in arrival order.

use std::collections::VecDeque;

use vstd::prelude::*;

use crate::game::ActionRecord;
use crate::state::{bounded_push, push_bounded};
use crate::text::same_text;

verus! {

/// The histories of a list of named entries, later entries winning.
pub open spec fn history_map(s: Seq<(Seq<char>, Seq<ActionRecord>)>) -> Map<Seq<char>, Seq<ActionRecord>>
    decreases s.len(),
{
    if s.len() == 0 {
        Map::empty()
    } else {
        history_map(s.drop_last()).insert(s.last().0, s.last().1)
    }
}

/// Whether no two entries share a name.
pub open spec fn names_unique(s: Seq<(Seq<char>, Seq<ActionRecord>)>) -> bool {
    forall|i: int, j: int| 0 <= i < j < s.len() ==> s[i].0 != s[j].0
}

/// The named entries of a history list.
pub open spec fn entries_view(v: Seq<(String, VecDeque<ActionRecord>)>) -> Seq<(Seq<char>, Seq<ActionRecord>)> {
    v.map_values(|e: (String, VecDeque<ActionRecord>)| (e.0@, e.1@))
}

proof fn lemma_history_entries(s: Seq<(Seq<char>, Seq<ActionRecord>)>)
    requires
        names_unique(s),
    ensures
        forall|i: int| 0 <= i < s.len() ==> #[trigger] history_map(s).contains_key(s[i].0)
            && history_map(s)[s[i].0] == s[i].1,
        forall|k: Seq<char>| #[trigger] history_map(s).contains_key(k) ==> exists|i: int|
            0 <= i < s.len() && s[i].0 == k,
    decreases s.len(),
{
    if s.len() > 0 {
        let p = s.drop_last();
        assert(names_unique(p));
        lemma_history_entries(p);
        assert forall|i: int| 0 <= i < s.len() implies #[trigger] history_map(s).contains_key(
            s[i].0,
        ) && history_map(s)[s[i].0] == s[i].1 by {
            if i < s.len() - 1 {
                assert(p[i] == s[i]);
                assert(history_map(p).contains_key(p[i].0));
                assert(s[i].0 != s[s.len() - 1].0);
            }
        }
        assert forall|k: Seq<char>| #[trigger] history_map(s).contains_key(k) implies exists|i: int|
            0 <= i < s.len() && s[i].0 == k by {
            if k == s.last().0 {
                assert(s[s.len() - 1].0 == k);
            } else {
                assert(history_map(p).contains_key(k));
                let i = choose|i: int| 0 <= i < p.len() && p[i].0 == k;
                assert(p[i] == s[i]);
            }
        }
    }
}

proof fn lemma_history_update(s: Seq<(Seq<char>, Seq<ActionRecord>)>, i: int, e: (Seq<char>, Seq<ActionRecord>))
    requires
        names_unique(s),
        0 <= i < s.len(),
        e.0 == s[i].0,
    ensures
        history_map(s.update(i, e)) == history_map(s).insert(e.0, e.1),
        names_unique(s.update(i, e)),
    decreases s.len(),
{
    let u = s.update(i, e);
    assert(names_unique(u)) by {
        assert forall|a: int, b: int| 0 <= a < b < u.len() implies u[a].0 != u[b].0 by {
            if a == i {
                assert(s[i].0 != s[b].0);
            } else if b == i {
                assert(s[a].0 != s[i].0);
            } else {
                assert(s[a].0 != s[b].0);
            }
        }
    }
    if i == s.len() - 1 {
        assert(u.drop_last() =~= s.drop_last());
        assert(history_map(u) =~= history_map(s).insert(e.0, e.1));
    } else {
        let p = s.drop_last();
        assert(names_unique(p));
        lemma_history_update(p, i, e);
        assert(u.drop_last() =~= p.update(i, e));
        assert(s.last().0 != s[i].0);
        assert(history_map(u) =~= history_map(s).insert(e.0, e.1));
    }
}

/// The recent actions of each character.
pub struct ActionHistory {
    entries: Vec<(String, VecDeque<ActionRecord>)>,
}

impl View for ActionHistory {
    type V = Map<Seq<char>, Seq<ActionRecord>>;

    closed spec fn view(&self) -> Map<Seq<char>, Seq<ActionRecord>> {
        history_map(entries_view(self.entries@))
    }
}

/// The records kept for `name` (none when nothing was recorded).
pub open spec fn records_of(h: Map<Seq<char>, Seq<ActionRecord>>, name: Seq<char>) -> Seq<ActionRecord> {
    if h.contains_key(name) {
        h[name]
    } else {
        Seq::empty()
    }
}

impl ActionHistory {
    #[verifier::type_invariant]
    closed spec fn wf(self) -> bool {
        names_unique(entries_view(self.entries@))
    }

    /// An empty history.
    pub fn new() -> (r: ActionHistory)
        ensures
            r@ == Map::<Seq<char>, Seq<ActionRecord>>::empty(),
    {
        let r = ActionHistory { entries: Vec::new() };
        assert(entries_view(r.entries@) =~= Seq::empty());
        r
    }

    /// The records kept for `name`, oldest first.
    pub fn get(&self, name: &str) -> (r: Option<&VecDeque<ActionRecord>>)
        ensures
            r matches Some(q) ==> self@.contains_key(name@) && self@[name@] == q@,
            r is None ==> !self@.contains_key(name@),
    {
        proof {
            use_type_invariant(self);
        }
        let ghost s = entries_view(self.entries@);
        let mut i: usize = 0;
        while i < self.entries.len()
            invariant
                i <= self.entries@.len(),
                s == entries_view(self.entries@),
                names_unique(s),
                self@ == history_map(s),
                forall|j: int| 0 <= j < i ==> s[j].0 != name@,
            decreases self.entries.len() - i,
        {
            if same_text(self.entries[i].0.as_str(), name) {
                proof {
                    lemma_history_entries(s);
                    assert(history_map(s).contains_key(s[i as int].0));
                }
                return Some(&self.entries[i].1);
            }
            i = i + 1;
        }
        proof {
            lemma_history_entries(s);
            if history_map(s).contains_key(name@) {
                let j = choose|j: int| 0 <= j < s.len() && s[j].0 == name@;
                assert(s[j].0 != name@);
            }
        }
        None
    }

    /// Records an action for `name`, keeping at most `cap` records for it
    /// (the oldest is dropped when full).
    pub fn record(&mut self, name: &str, rec: ActionRecord, cap: usize)
        requires
            cap > 0,
        ensures
            final(self)@ == old(self)@.insert(
                name@,
                bounded_push(records_of(old(self)@, name@), rec, cap as nat),
            ),
    {
        proof {
            use_type_invariant(&*self);
            lemma_history_entries(entries_view(self.entries@));
        }
        let ghost s = entries_view(self.entries@);
        let mut entries: Vec<(String, VecDeque<ActionRecord>)> = Vec::new();
        std::mem::swap(&mut entries, &mut self.entries);
        let mut i: usize = 0;
        while i < entries.len()
            invariant
                i <= entries@.len(),
                s == entries_view(entries@),
                s == entries_view(old(self).entries@),
                names_unique(s),
                cap > 0,
                old(self)@ == history_map(s),
                forall|j: int| 0 <= j < i ==> s[j].0 != name@,
            decreases entries.len() - i,
        {
            if same_text(entries[i].0.as_str(), name) {
                proof {
                    lemma_history_entries(s);
                    assert(history_map(s).contains_key(s[i as int].0));
                }
                let (n, mut q) = entries.remove(i);
                let ghost q0 = q@;
                push_bounded(&mut q, rec, cap);
                let ghost e = (n@, q@);
                entries.insert(i, (n, q));
                proof {
                    lemma_history_update(s, i as int, e);
                    assert(entries_view(entries@) =~= s.update(i as int, e));
                }
                self.entries = entries;
                return;
            }
            i = i + 1;
        }
        proof {
            lemma_history_entries(s);
            if history_map(s).contains_key(name@) {
                let j = choose|j: int| 0 <= j < s.len() && s[j].0 == name@;
                assert(s[j].0 != name@);
            }
        }
        let mut q: VecDeque<ActionRecord> = VecDeque::new();
        push_bounded(&mut q, rec, cap);
        let ghost e = (name@, q@);
        entries.push((String::from_str(name), q));
        proof {
            let n = entries_view(entries@);
            assert(n =~= s.push(e));
            assert(n.drop_last() =~= s);
            assert(names_unique(n));
            assert(q@ =~= bounded_push(Seq::<ActionRecord>::empty(), rec, cap as nat));
        }
        self.entries = entries;
    }
}

} // verus!
