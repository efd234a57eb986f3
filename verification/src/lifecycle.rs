//! The server's life: from start-up to serving, or to failure.
//!
//! The program that owns the socket reports what happened to it as an
//! [`Event`]; [`step`] says which state the server is in afterwards and what
//! the program has to do next.

use vstd::prelude::*;

verus! {

/// Where the server stands.
#[derive(Clone, Copy, Debug, PartialEq, Eq, Structural)]
pub enum ServerState {
    /// The listener is being bound.
    Starting,
    /// The listener is bound and the accept loop runs.
    Serving,
    /// Start-up or the accept loop failed. Nothing leads out of this state.
    Failed,
}

/// What can go wrong at the level of the whole server.
#[derive(Clone, Copy, Debug, PartialEq, Eq, Structural)]
pub enum ServerError {
    /// The listener could not be created: the port is taken, the address is
    /// not valid, or permission is missing.
    BindError,
    /// An input or output error that the accept loop could not absorb.
    TransportError,
}

/// What the program reports to the state machine.
#[derive(Clone, Copy, Debug, PartialEq, Eq, Structural)]
pub enum Event {
    /// The listener was bound.
    Bound,
    /// Binding, or the accept loop, ended with an error.
    Failed(ServerError),
}

/// What the program has to do after an event.
#[derive(Clone, Copy, Debug, PartialEq, Eq, Structural)]
pub enum Action {
    /// Print the start-up line and enter the accept loop.
    Announce,
    /// End the process with a failure status. There is no retry and no
    /// other port to fall back on.
    Exit(ServerError),
    /// Nothing: the event changes nothing in this state.
    Nothing,
}

/// The transition relation, as a function of state and event.
///
/// A server that is starting begins to serve once it is bound. Every error
/// is fatal, while starting and while serving. A failed server stays failed,
/// and a serving server is not bound a second time.
pub open spec fn transition(state: ServerState, event: Event) -> (ServerState, Action) {
    match (state, event) {
        (ServerState::Starting, Event::Bound) => (ServerState::Serving, Action::Announce),
        (ServerState::Starting, Event::Failed(error)) => (ServerState::Failed, Action::Exit(error)),
        (ServerState::Serving, Event::Failed(error)) => (ServerState::Failed, Action::Exit(error)),
        (ServerState::Serving, Event::Bound) => (ServerState::Serving, Action::Nothing),
        (ServerState::Failed, _) => (ServerState::Failed, Action::Nothing),
    }
}

/// The state that a run of events, taken in order, leads to.
pub open spec fn state_after(state: ServerState, events: Seq<Event>) -> ServerState
    decreases events.len(),
{
    if events.len() == 0 {
        state
    } else {
        transition(state_after(state, events.drop_last()), events.last()).0
    }
}

/// Takes one event in one state and returns the next state with the action
/// that is due.
pub fn step(state: ServerState, event: Event) -> (next: (ServerState, Action))
    ensures
        next == transition(state, event),
        // The start-up line is due exactly when a starting server is bound.
        next.1 == Action::Announce <==> state == ServerState::Starting && event == Event::Bound,
        // Serving begins in no other way, and a serving server never goes
        // back to starting.
        next.0 == ServerState::Serving ==> state == ServerState::Serving || (state
            == ServerState::Starting && event == Event::Bound),
        next.0 != ServerState::Starting,
        // An error ends a live server, and is handed on as it came.
        state != ServerState::Failed ==> (event matches Event::Failed(error) ==> next.0
            == ServerState::Failed && next.1 == Action::Exit(error)),
        // Failure is final.
        state == ServerState::Failed ==> next.0 == ServerState::Failed && next.1
            == Action::Nothing,
{
    match state {
        ServerState::Starting => match event {
            Event::Bound => (ServerState::Serving, Action::Announce),
            Event::Failed(error) => (ServerState::Failed, Action::Exit(error)),
        },
        ServerState::Serving => match event {
            Event::Bound => (ServerState::Serving, Action::Nothing),
            Event::Failed(error) => (ServerState::Failed, Action::Exit(error)),
        },
        ServerState::Failed => (ServerState::Failed, Action::Nothing),
    }
}

/// Failure is final: whatever is reported to a failed server, and however
/// much of it, the server stays failed.
pub proof fn lemma_failure_is_final(events: Seq<Event>)
    ensures
        state_after(ServerState::Failed, events) == ServerState::Failed,
    decreases events.len(),
{
    if events.len() > 0 {
        lemma_failure_is_final(events.drop_last());
    }
}

/// Where a freshly started server stands after a run of events: still
/// starting if nothing was reported, serving if it was bound and no error
/// has been reported, and failed as soon as one error was.
pub proof fn lemma_state_after_start(events: Seq<Event>)
    ensures
        state_after(ServerState::Starting, events) == ServerState::Starting <==> events.len()
            == 0,
        state_after(ServerState::Starting, events) == ServerState::Serving <==> events.len() > 0
            && forall|i: int| 0 <= i < events.len() ==> events[i] == Event::Bound,
        state_after(ServerState::Starting, events) == ServerState::Failed <==> exists|i: int|
            0 <= i < events.len() && events[i] is Failed,
    decreases events.len(),
{
    if events.len() > 0 {
        let earlier = events.drop_last();
        lemma_state_after_start(earlier);
        if exists|i: int| 0 <= i < earlier.len() && earlier[i] is Failed {
            let i = choose|i: int| 0 <= i < earlier.len() && earlier[i] is Failed;
            assert(events[i] is Failed);
        }
        if exists|i: int| 0 <= i < events.len() && events[i] is Failed {
            let i = choose|i: int| 0 <= i < events.len() && events[i] is Failed;
            assert(i < earlier.len() ==> earlier[i] is Failed);
        }
    }
}

} // verus!
