//! The three-state machine that prevents duplicate in-flight weather fetches.
//!
//! A fetch cycle walks `Completed -> Requested -> InProgress -> Completed`.
//! The user's click moves the machine out of `Completed`; the per-frame tick
//! dispatches a requested fetch (or rejects it when the coordinate text is
//! invalid); observing a result returns the machine to `Completed`. No other
//! transition exists, so at most one background fetch is ever outstanding.

use vstd::prelude::*;

verus! {

/// State of the weather-data fetch operation.
#[derive(Clone, Copy, Debug, PartialEq, Eq, Structural)]
pub enum FetchState {
    /// The fetch request has completed (also the initial state).
    Completed,
    /// The fetch has been requested, but has not started yet.
    Requested,
    /// The fetch is in progress.
    InProgress,
}

impl Default for FetchState {
    fn default() -> (r: Self)
        ensures
            r == FetchState::Completed,
    {
        FetchState::Completed
    }
}

/// The events that drive [`FetchState`].
#[derive(Clone, Copy, Debug, PartialEq, Eq, Structural)]
pub enum FetchEvent {
    /// The user asked for a fetch (a button click).
    Request,
    /// A frame tick found the coordinate text valid and dispatched the fetch.
    DispatchTick,
    /// A frame tick found the coordinate text invalid and rejected the fetch.
    RejectTick,
    /// A frame tick observed a result in the channel (success or failure).
    Resolve,
}

/// The single-step transition function of the fetch state machine.
///
/// A `Request` is honoured only from `Completed`; the two tick events act
/// only from `Requested`; a `Resolve` always returns to `Completed`.
pub open spec fn next_state(s: FetchState, e: FetchEvent) -> FetchState {
    match e {
        FetchEvent::Request => if s == FetchState::Completed {
            FetchState::Requested
        } else {
            s
        },
        FetchEvent::DispatchTick => if s == FetchState::Requested {
            FetchState::InProgress
        } else {
            s
        },
        FetchEvent::RejectTick => if s == FetchState::Requested {
            FetchState::Completed
        } else {
            s
        },
        FetchEvent::Resolve => FetchState::Completed,
    }
}

/// How many background tasks one step spawns: exactly one, when a dispatch
/// tick meets a pending request; none otherwise.
pub open spec fn spawned_by(s: FetchState, e: FetchEvent) -> nat {
    if s == FetchState::Requested && e == FetchEvent::DispatchTick {
        1
    } else {
        0
    }
}

/// Whether one step consumes a completed background task's result.
pub open spec fn resolved_by(e: FetchEvent) -> nat {
    if e == FetchEvent::Resolve {
        1
    } else {
        0
    }
}

/// The state reached by running a whole sequence of events.
pub open spec fn run(s: FetchState, events: Seq<FetchEvent>) -> FetchState
    decreases events.len(),
{
    if events.len() == 0 {
        s
    } else {
        run(next_state(s, events[0]), events.drop_first())
    }
}

/// Total number of background tasks spawned over a sequence of events.
pub open spec fn spawn_count(s: FetchState, events: Seq<FetchEvent>) -> nat
    decreases events.len(),
{
    if events.len() == 0 {
        0
    } else {
        spawned_by(s, events[0]) + spawn_count(next_state(s, events[0]), events.drop_first())
    }
}

/// Total number of results consumed over a sequence of events.
pub open spec fn resolve_count(events: Seq<FetchEvent>) -> nat
    decreases events.len(),
{
    if events.len() == 0 {
        0
    } else {
        resolved_by(events[0]) + resolve_count(events.drop_first())
    }
}

/// The machine never moves from `Completed` to `InProgress` in one step: it
/// always passes through `Requested` first. A request made while the machine
/// is not `Completed` changes nothing.
pub proof fn lemma_no_direct_in_progress()
    ensures
        forall|e: FetchEvent| next_state(FetchState::Completed, e) != FetchState::InProgress,
        forall|s: FetchState|
            s != FetchState::Completed ==> next_state(s, FetchEvent::Request) == s,
{
}

/// While a fetch is in progress, no sequence of events that contains no
/// `Resolve` can spawn another background task, and the machine stays
/// `InProgress`: a second fetch cannot start before the first one's result
/// is observed.
pub proof fn lemma_in_progress_spawns_nothing(events: Seq<FetchEvent>)
    requires
        forall|i: int| 0 <= i < events.len() ==> events[i] != FetchEvent::Resolve,
    ensures
        spawn_count(FetchState::InProgress, events) == 0,
        run(FetchState::InProgress, events) == FetchState::InProgress,
    decreases events.len(),
{
    if events.len() > 0 {
        assert(events[0] != FetchEvent::Resolve);
        assert(next_state(FetchState::InProgress, events[0]) == FetchState::InProgress);
        assert(forall|i: int|
            0 <= i < events.drop_first().len() ==> events.drop_first()[i] != FetchEvent::Resolve);
        lemma_in_progress_spawns_nothing(events.drop_first());
    }
}

/// Over any run of the machine, the number of fetch tasks spawned never
/// exceeds the number of results consumed plus one (plus zero when the run
/// begins with a fetch already in flight): duplicate in-flight fetches are
/// impossible.
pub proof fn lemma_spawn_bound(s: FetchState, events: Seq<FetchEvent>)
    ensures
        spawn_count(s, events) <= resolve_count(events) + if s == FetchState::InProgress {
            0int
        } else {
            1int
        },
    decreases events.len(),
{
    if events.len() > 0 {
        lemma_spawn_bound(next_state(s, events[0]), events.drop_first());
    }
}

} // verus!
