use vstd::prelude::*;
use crate::state::{State, StateV};

verus! {

/// First-match lookup of a conversation in a sequence of keyed entries;
/// a conversation with no entry is idle.
pub open spec fn seq_lookup(s: Seq<(i64, State)>, id: i64) -> StateV
    decreases s.len(),
{
    if s.len() == 0 {
        StateV::Start
    } else if s[0].0 == id {
        s[0].1@
    } else {
        seq_lookup(s.drop_first(), id)
    }
}

/// Skipping entries whose key is not the one looked up does not change
/// the lookup.
proof fn lemma_lookup_skip(s: Seq<(i64, State)>, id: i64, i: int)
    requires
        0 <= i <= s.len(),
        forall|j: int| 0 <= j < i ==> s[j].0 != id,
    ensures
        seq_lookup(s, id) == seq_lookup(s.skip(i), id),
    decreases i,
{
    if i > 0 {
        lemma_lookup_skip(s, id, i - 1);
        assert(s.skip(i - 1)[0] == s[i - 1]);
        assert(s.skip(i - 1).drop_first() =~= s.skip(i));
    } else {
        assert(s.skip(0) =~= s);
    }
}

/// Updating the first entry that carries a key changes the lookup of that
/// key to the new state and leaves every other key's lookup alone.
proof fn lemma_lookup_update(s: Seq<(i64, State)>, i: int, e: (i64, State), k: i64)
    requires
        0 <= i < s.len(),
        s[i].0 == e.0,
        forall|j: int| 0 <= j < i ==> s[j].0 != e.0,
    ensures
        k == e.0 ==> seq_lookup(s.update(i, e), k) == e.1@,
        k != e.0 ==> seq_lookup(s.update(i, e), k) == seq_lookup(s, k),
    decreases i,
{
    let u = s.update(i, e);
    if i == 0 {
        assert(u[0] == e);
        if k != e.0 {
            assert(u.drop_first() =~= s.drop_first());
        }
    } else {
        assert(u[0] == s[0]);
        assert(s[0].0 != e.0);
        if k == s[0].0 {
        } else {
            assert(u.drop_first() =~= s.drop_first().update(i - 1, e));
            assert forall|j: int| 0 <= j < i - 1 implies s.drop_first()[j].0 != e.0 by {
                assert(s.drop_first()[j] == s[j + 1]);
            }
            lemma_lookup_update(s.drop_first(), i - 1, e, k);
        }
    }
}

/// Appending an entry for a key no earlier entry carries changes that
/// key's lookup to the new state and leaves every other key's lookup alone.
proof fn lemma_lookup_push(s: Seq<(i64, State)>, e: (i64, State), k: i64)
    requires
        forall|j: int| 0 <= j < s.len() ==> s[j].0 != e.0,
    ensures
        k == e.0 ==> seq_lookup(s.push(e), k) == e.1@,
        k != e.0 ==> seq_lookup(s.push(e), k) == seq_lookup(s, k),
    decreases s.len(),
{
    let p = s.push(e);
    if s.len() == 0 {
        assert(p[0] == e);
        if k != e.0 {
            assert(p.drop_first() =~= Seq::<(i64, State)>::empty());
        }
    } else {
        assert(p[0] == s[0]);
        assert(s[0].0 != e.0);
        if k == s[0].0 {
        } else {
            assert(p.drop_first() =~= s.drop_first().push(e));
            assert forall|j: int| 0 <= j < s.drop_first().len() implies s.drop_first()[j].0
                != e.0 by {
                assert(s.drop_first()[j] == s[j + 1]);
            }
            lemma_lookup_push(s.drop_first(), e, k);
        }
    }
}

/// Keyed mapping from conversation identity to its current state. A
/// conversation that was never set, or was cleared, is idle. The view is a
/// total map: every conversation identity has exactly one state at any
/// time. The transport serializes the accesses to one conversation;
/// operations on distinct identities are independent, as the contracts of
/// [`ConversationStore::set`] and [`ConversationStore::clear`] state.
pub struct ConversationStore {
    entries: Vec<(i64, State)>,
}

impl View for ConversationStore {
    type V = Map<i64, StateV>;

    closed spec fn view(&self) -> Map<i64, StateV> {
        Map::new(|k: i64| true, |k: i64| seq_lookup(self.entries@, k))
    }
}

impl ConversationStore {
    /// An empty store: every conversation is idle.
    pub fn new() -> (r: ConversationStore)
        ensures
            forall|k: i64| #![auto] r@.dom().contains(k) && r@[k] == StateV::Start,
    {
        ConversationStore { entries: Vec::new() }
    }

    /// The current state of a conversation.
    pub fn get(&self, id: i64) -> (r: State)
        ensures
            r@ == self@[id],
    {
        let n = self.entries.len();
        let mut i: usize = 0;
        while i < n
            invariant
                n == self.entries.len(),
                i <= n,
                forall|j: int| 0 <= j < i ==> self.entries@[j].0 != id,
            decreases n - i,
        {
            if self.entries[i].0 == id {
                proof {
                    lemma_lookup_skip(self.entries@, id, i as int);
                    assert(self.entries@.skip(i as int)[0] == self.entries@[i as int]);
                }
                return self.entries[i].1.clone();
            }
            i += 1;
        }
        proof {
            lemma_lookup_skip(self.entries@, id, n as int);
        }
        State::Start
    }

    /// Sets the state of one conversation; every other conversation's
    /// state is untouched.
    pub fn set(&mut self, id: i64, st: State)
        ensures
            final(self)@ == old(self)@.insert(id, st@),
    {
        let ghost st_v = st@;
        let n = self.entries.len();
        let mut i: usize = 0;
        while i < n
            invariant
                n == self.entries.len(),
                i <= n,
                st@ == st_v,
                self.entries@ == old(self).entries@,
                forall|j: int| 0 <= j < i ==> self.entries@[j].0 != id,
            decreases n - i,
        {
            if self.entries[i].0 == id {
                self.entries.set(i, (id, st));
                proof {
                    let e = self.entries@[i as int];
                    assert forall|k: i64| self@[k] == old(self)@.insert(id, st_v)[k] by {
                        lemma_lookup_update(old(self).entries@, i as int, e, k);
                    }
                    assert(self@ =~= old(self)@.insert(id, st_v));
                }
                return;
            }
            i += 1;
        }
        self.entries.push((id, st));
        proof {
            let e = self.entries@[n as int];
            assert forall|k: i64| self@[k] == old(self)@.insert(id, st_v)[k] by {
                lemma_lookup_push(old(self).entries@, e, k);
            }
            assert(self@ =~= old(self)@.insert(id, st_v));
        }
    }

    /// Resets one conversation to idle; every other conversation's state
    /// is untouched.
    pub fn clear(&mut self, id: i64)
        ensures
            final(self)@ == old(self)@.insert(id, StateV::Start),
    {
        self.set(id, State::Start);
    }
}

} // verus!
