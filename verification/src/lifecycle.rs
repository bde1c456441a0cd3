//! What holds of a slot over a whole run of window events.
//!
//! The slot is filled once, when the backend has been spawned. From then on
//! every window event is applied to it in turn. The laws below say what such a
//! run does, however long it is and whatever it holds: the handle leaves the
//! slot on the first terminal event and on no other, and a teardown at the end
//! of the run gives up the handle if no event has.

use vstd::prelude::*;
use crate::backend::step;
use crate::window::WindowEvent;

verus! {

/// Whether some event of the run is terminal.
pub open spec fn has_terminal(events: Seq<WindowEvent>) -> bool {
    exists|i: int| 0 <= i < events.len() && (#[trigger] events[i]).terminal()
}

/// Applies the events in order to a slot that holds `held`. The result is what
/// the slot holds afterwards and the handles it gave up on the way, oldest
/// first.
pub open spec fn replay<C>(held: Option<C>, events: Seq<WindowEvent>) -> (Option<C>, Seq<C>)
    decreases events.len(),
{
    if events.len() == 0 {
        (held, Seq::empty())
    } else {
        let (before, given_up) = replay(held, events.drop_last());
        let (after, released) = step(before, events.last());
        match released {
            Some(child) => (after, given_up.push(child)),
            None => (after, given_up),
        }
    }
}

/// Every handle given up by the run and by the teardown that follows it, oldest
/// first. Teardown gives up whatever the run has left in the slot.
pub open spec fn released_by_exit<C>(held: Option<C>, events: Seq<WindowEvent>) -> Seq<C> {
    let (left, given_up) = replay(held, events);
    match left {
        Some(child) => given_up.push(child),
        None => given_up,
    }
}

/// Once a terminal event has been applied, a further event finds the slot
/// empty: it releases nothing and leaves the slot empty.
pub proof fn lemma_retermination_is_noop<C>(held: Option<C>, first: WindowEvent, second: WindowEvent)
    requires
        first.terminal(),
    ensures
        step(step(held, first).0, second) == (None::<C>, None::<C>),
{
}

/// A run without a terminal event leaves the slot untouched and releases
/// nothing. A run with one empties the slot, and releases exactly the handle
/// that the slot held at the start, if it held one.
pub proof fn lemma_replay_outcome<C>(held: Option<C>, events: Seq<WindowEvent>)
    ensures
        replay(held, events).0 == (if has_terminal(events) { None } else { held }),
        replay(held, events).1 == (if has_terminal(events) && held is Some {
            seq![held->0]
        } else {
            Seq::empty()
        }),
    decreases events.len(),
{
    if events.len() > 0 {
        let earlier = events.drop_last();
        lemma_replay_outcome(held, earlier);
        if !has_terminal(earlier) && !events.last().terminal() {
            assert forall|i: int| 0 <= i < events.len() implies !(#[trigger] events[i]).terminal() by {
                if i < earlier.len() {
                    assert(!earlier[i].terminal());
                }
            }
        }
    }
}

/// Over any run of events the slot gives up at most one handle.
pub proof fn lemma_released_at_most_once<C>(held: Option<C>, events: Seq<WindowEvent>)
    ensures
        replay(held, events).1.len() <= 1,
{
    lemma_replay_outcome(held, events);
}

/// Whatever the events were, a run that ends in teardown gives up the handle
/// that the slot held at the start exactly once, and nothing else: the backend
/// neither outlives the shell nor is ended twice.
pub proof fn lemma_exit_releases_exactly_once<C>(held: Option<C>, events: Seq<WindowEvent>)
    ensures
        released_by_exit(held, events) == (match held {
            Some(child) => seq![child],
            None => Seq::empty(),
        }),
{
    lemma_replay_outcome(held, events);
}

} // verus!
