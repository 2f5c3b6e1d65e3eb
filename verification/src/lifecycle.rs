//! The life of a container: which events its owner may raise, and how often
//! the destructor of the stored value runs.

use vstd::prelude::*;

verus! {

/// Whether a container still owns a value.
#[derive(Clone, Copy, Debug, PartialEq, Eq, Structural)]
pub enum Phase {
    /// The storage holds a live value.
    Live,
    /// The value was taken out or destroyed; what is left awaits release.
    MovedOut,
}

/// What the owner of a container does with it.
#[derive(Clone, Copy, Debug, PartialEq, Eq, Structural)]
pub enum Event {
    /// A shared call, forwarded to the value.
    Call,
    /// A mutable call, forwarded to the value.
    CallMut,
    /// The consuming call: the value is taken out and used up by the call.
    CallOnce,
    /// The owner lets go of the container.
    Release,
}

/// Calls need a live value; a container may always be released.
pub open spec fn admits(phase: Phase, event: Event) -> bool {
    event == Event::Release || phase == Phase::Live
}

/// The phase after `event`.
pub open spec fn next(phase: Phase, event: Event) -> Phase {
    match event {
        Event::Call | Event::CallMut => phase,
        Event::CallOnce | Event::Release => Phase::MovedOut,
    }
}

/// How often `event` destroys the stored value: once when it ends the life of
/// a live value, never otherwise.
pub open spec fn destructions(phase: Phase, event: Event) -> nat {
    if phase == Phase::Live && (event == Event::CallOnce || event == Event::Release) {
        1
    } else {
        0
    }
}

/// Every event of `events`, raised in turn from `phase`, is admitted.
pub open spec fn admits_all(phase: Phase, events: Seq<Event>) -> bool
    decreases events.len(),
{
    events.len() == 0 || (admits(phase, events[0]) && admits_all(
        next(phase, events[0]),
        events.drop_first(),
    ))
}

/// The phase after all of `events`.
pub open spec fn phase_after(phase: Phase, events: Seq<Event>) -> Phase
    decreases events.len(),
{
    if events.len() == 0 {
        phase
    } else {
        phase_after(next(phase, events[0]), events.drop_first())
    }
}

/// How often the stored value is destroyed over all of `events`.
pub open spec fn total_destructions(phase: Phase, events: Seq<Event>) -> nat
    decreases events.len(),
{
    if events.len() == 0 {
        0
    } else {
        destructions(phase, events[0]) + total_destructions(
            next(phase, events[0]),
            events.drop_first(),
        )
    }
}

/// The phase after one event, and whether the event destroys the value.
pub fn step(phase: Phase, event: Event) -> (r: Option<(Phase, bool)>)
    ensures
        r is Some <==> admits(phase, event),
        r matches Some((after, destroys)) ==> after == next(phase, event) && (destroys
            <==> destructions(phase, event) == 1),
{
    match (phase, event) {
        (Phase::Live, Event::Call) => Some((Phase::Live, false)),
        (Phase::Live, Event::CallMut) => Some((Phase::Live, false)),
        (Phase::Live, Event::CallOnce) => Some((Phase::MovedOut, true)),
        (Phase::Live, Event::Release) => Some((Phase::MovedOut, true)),
        (Phase::MovedOut, Event::Release) => Some((Phase::MovedOut, false)),
        (Phase::MovedOut, _) => None,
    }
}

/// Nothing but release is left for a container that was moved out, and
/// releasing it destroys nothing.
pub proof fn lemma_moved_out_is_inert(events: Seq<Event>)
    requires
        admits_all(Phase::MovedOut, events),
    ensures
        total_destructions(Phase::MovedOut, events) == 0,
        phase_after(Phase::MovedOut, events) == Phase::MovedOut,
    decreases events.len(),
{
    if events.len() > 0 {
        lemma_moved_out_is_inert(events.drop_first());
    }
}

/// The destructor of a stored value runs exactly once. Over any admitted
/// course of events from construction on, it has run once if the value's life
/// has ended (by the consuming call or by release) and not yet otherwise; it
/// never runs twice. A course that ends in release has ended the value's life.
pub proof fn lemma_destroyed_exactly_once(events: Seq<Event>)
    requires
        admits_all(Phase::Live, events),
    ensures
        total_destructions(Phase::Live, events) <= 1,
        total_destructions(Phase::Live, events) == 1 <==> phase_after(Phase::Live, events)
            == Phase::MovedOut,
        events.len() > 0 && events.last() == Event::Release ==> total_destructions(
            Phase::Live,
            events,
        ) == 1,
    decreases events.len(),
{
    if events.len() > 0 {
        let rest = events.drop_first();
        if next(Phase::Live, events[0]) == Phase::Live {
            lemma_destroyed_exactly_once(rest);
            if rest.len() > 0 {
                assert(rest.last() == events.last());
            }
        } else {
            lemma_moved_out_is_inert(rest);
        }
    }
}

} // verus!
