use vstd::prelude::*;

verus! {

/// How long a response collects follow-up events, in seconds, at every
/// call site.
pub const DEFAULT_TIMEOUT_SECS: u64 = 15;

/// Whose follow-up events a session accepts.
#[derive(Clone, Copy, Debug, PartialEq, Eq, Structural)]
pub enum Scope {
    /// Only the user who invoked the command.
    AuthorOnly,
    /// Anyone who can see the response.
    AnyUser,
}

/// Where a session is in its life.
#[derive(Clone, Copy, Debug, PartialEq, Eq, Structural)]
pub enum SessionState {
    /// The first response is being built and sent.
    Rendering,
    /// Follow-up events are being collected.
    Collecting,
    /// The window has elapsed; nothing more is processed.
    Closed,
}

/// What happens to a session.
#[derive(Clone, Copy, Debug, PartialEq, Eq, Structural)]
pub enum SessionEvent {
    /// The first response was acknowledged.
    Acknowledged,
    /// A follow-up event arrived from `user_id`.
    Component { user_id: u64 },
    /// The collection window elapsed.
    TimedOut,
}

/// What the runner of a session must do next.
#[derive(Clone, Copy, Debug, PartialEq, Eq, Structural)]
pub enum SessionAction {
    /// Subscribe to follow-up events for this many seconds.
    Subscribe { timeout_secs: u64 },
    /// Hand the event to the session's state, re-render, and edit the
    /// response in place.
    Dispatch,
    /// Drop the event.
    Ignore,
    /// Stop collecting and release the session.
    Release,
}

/// Whether `scope` admits an event from `user_id` to a session opened by
/// `author_id`.
pub open spec fn admits(scope: Scope, author_id: u64, user_id: u64) -> bool {
    match scope {
        Scope::AnyUser => true,
        Scope::AuthorOnly => user_id == author_id,
    }
}

/// The state a session moves to and the action it asks for.
pub open spec fn transition(
    state: SessionState,
    scope: Scope,
    author_id: u64,
    timeout_secs: u64,
    event: SessionEvent,
) -> (SessionState, SessionAction) {
    match (state, event) {
        (SessionState::Rendering, SessionEvent::Acknowledged) => (
            SessionState::Collecting,
            SessionAction::Subscribe { timeout_secs },
        ),
        (SessionState::Rendering, SessionEvent::TimedOut) => (
            SessionState::Closed,
            SessionAction::Release,
        ),
        (SessionState::Collecting, SessionEvent::Component { user_id }) => (
            SessionState::Collecting,
            if admits(scope, author_id, user_id) {
                SessionAction::Dispatch
            } else {
                SessionAction::Ignore
            },
        ),
        (SessionState::Collecting, SessionEvent::TimedOut) => (
            SessionState::Closed,
            SessionAction::Release,
        ),
        (s, _) => (s, SessionAction::Ignore),
    }
}

/// The life of one rendered response: render, collect for a fixed window,
/// close. Events are handled one at a time, in the order given.
pub struct Collector {
    pub state: SessionState,
    pub scope: Scope,
    /// The user who invoked the command.
    pub author_id: u64,
    pub timeout_secs: u64,
}

impl Collector {
    /// A session for a response to `author_id`, in the rendering state.
    pub fn new(scope: Scope, author_id: u64, timeout_secs: u64) -> (r: Collector)
        ensures
            r.state == SessionState::Rendering,
            r.scope == scope,
            r.author_id == author_id,
            r.timeout_secs == timeout_secs,
    {
        Collector { state: SessionState::Rendering, scope, author_id, timeout_secs }
    }

    /// Whether `scope` admits an event from `user_id`.
    pub fn admits(&self, user_id: u64) -> (r: bool)
        ensures
            r == admits(self.scope, self.author_id, user_id),
    {
        match self.scope {
            Scope::AnyUser => true,
            Scope::AuthorOnly => user_id == self.author_id,
        }
    }

    /// Takes one event and says what to do about it.
    pub fn step(&mut self, event: SessionEvent) -> (r: SessionAction)
        ensures
            (final(self).state, r) == transition(
                old(self).state,
                old(self).scope,
                old(self).author_id,
                old(self).timeout_secs,
                event,
            ),
            final(self).scope == old(self).scope,
            final(self).author_id == old(self).author_id,
            final(self).timeout_secs == old(self).timeout_secs,
    {
        match (self.state, event) {
            (SessionState::Rendering, SessionEvent::Acknowledged) => {
                self.state = SessionState::Collecting;
                SessionAction::Subscribe { timeout_secs: self.timeout_secs }
            },
            (SessionState::Rendering, SessionEvent::TimedOut) => {
                self.state = SessionState::Closed;
                SessionAction::Release
            },
            (SessionState::Collecting, SessionEvent::Component { user_id }) => {
                if self.admits(user_id) {
                    SessionAction::Dispatch
                } else {
                    SessionAction::Ignore
                }
            },
            (SessionState::Collecting, SessionEvent::TimedOut) => {
                self.state = SessionState::Closed;
                SessionAction::Release
            },
            _ => SessionAction::Ignore,
        }
    }
}

/// A closed session stays closed and processes no event.
pub proof fn lemma_closed_is_final(scope: Scope, author_id: u64, timeout_secs: u64, event: SessionEvent)
    ensures
        transition(SessionState::Closed, scope, author_id, timeout_secs, event) == (
            SessionState::Closed,
            SessionAction::Ignore,
        ),
{
}

/// Only a collecting session dispatches, and only events its scope admits.
pub proof fn lemma_dispatch_only_while_collecting(
    state: SessionState,
    scope: Scope,
    author_id: u64,
    timeout_secs: u64,
    event: SessionEvent,
)
    requires
        transition(state, scope, author_id, timeout_secs, event).1 == SessionAction::Dispatch,
    ensures
        state == SessionState::Collecting,
        event matches SessionEvent::Component { user_id } && admits(scope, author_id, user_id),
{
}

} // verus!
