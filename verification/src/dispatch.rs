use vstd::prelude::*;
use crate::state::StateV;
use crate::events::{Event, EventV};
use crate::actions::{Action, ActionV};
use crate::handlers::{step, spec_step};
use crate::store::ConversationStore;

verus! {

/// The store after one event of one conversation: only that conversation's
/// state moves, to where [`spec_step`] takes it.
pub open spec fn spec_dispatch_store(m: Map<i64, StateV>, conv: i64, e: EventV) -> Map<
    i64,
    StateV,
> {
    m.insert(conv, spec_step(conv, m[conv], e).0)
}

/// The outbound actions one event of one conversation causes.
pub open spec fn spec_dispatch_actions(m: Map<i64, StateV>, conv: i64, e: EventV) -> Seq<
    ActionV,
> {
    spec_step(conv, m[conv], e).1
}

/// Processes one inbound event: loads the conversation's state, runs the
/// one applicable handler, commits the new state, and returns the outbound
/// actions for the transport to perform, in order. No other conversation's
/// state is touched.
pub fn dispatch(store: &mut ConversationStore, conv: i64, event: Event) -> (r: Vec<Action>)
    ensures
        final(store)@ == spec_dispatch_store(old(store)@, conv, event@),
        r.deep_view() == spec_dispatch_actions(old(store)@, conv, event@),
{
    let current = store.get(conv);
    let (next, acts) = step(conv, current, event);
    store.set(conv, next);
    acts
}

} // verus!
