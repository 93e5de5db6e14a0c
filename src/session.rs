//! The monitoring session: which refreshes to run and when to subscribe to
//! and unsubscribe from report changes.

use vstd::prelude::*;

verus! {

/// Where a session stands. A monitoring session holds the token of its
/// subscription.
#[derive(Clone, Copy, Debug, PartialEq, Eq, Structural)]
pub enum SessionState {
    Idle,
    Monitoring { token: i64 },
    Terminated,
}

/// What happens to a session.
#[derive(Clone, Copy, Debug, PartialEq, Eq, Structural)]
pub enum SessionEvent {
    /// The program has started.
    Start,
    /// The subscription to report changes was made and gave this token.
    Subscribed { token: i64 },
    /// The battery's report changed.
    ReportUpdated,
    /// Monitoring is to end.
    Stop,
}

/// What the session asks its runner to do.
#[derive(Clone, Copy, Debug, PartialEq, Eq, Structural)]
pub enum SessionAction {
    /// Run one refresh, then subscribe to report changes.
    RefreshThenSubscribe,
    /// Run one refresh.
    Refresh,
    /// Remove the subscription with this token.
    Unsubscribe { token: i64 },
    Nothing,
}

/// The next state and the action for an event. Events that do not fit the
/// state change nothing.
pub open spec fn next_of(state: SessionState, event: SessionEvent) -> (SessionState, SessionAction) {
    match state {
        SessionState::Idle => match event {
            SessionEvent::Start => (SessionState::Idle, SessionAction::RefreshThenSubscribe),
            SessionEvent::Subscribed { token } => (
                SessionState::Monitoring { token },
                SessionAction::Nothing,
            ),
            SessionEvent::ReportUpdated => (SessionState::Idle, SessionAction::Nothing),
            SessionEvent::Stop => (SessionState::Terminated, SessionAction::Nothing),
        },
        SessionState::Monitoring { token } => match event {
            SessionEvent::ReportUpdated => (state, SessionAction::Refresh),
            SessionEvent::Stop => (SessionState::Terminated, SessionAction::Unsubscribe { token }),
            _ => (state, SessionAction::Nothing),
        },
        SessionState::Terminated => (SessionState::Terminated, SessionAction::Nothing),
    }
}

/// How many times a run of events from `state` asks to unsubscribe.
pub open spec fn unsubscribe_count(state: SessionState, events: Seq<SessionEvent>) -> nat
    decreases events.len(),
{
    if events.len() == 0 {
        0
    } else {
        let step = next_of(state, events[0]);
        (if step.1 is Unsubscribe {
            1nat
        } else {
            0nat
        }) + unsubscribe_count(step.0, events.drop_first())
    }
}

/// A monitoring session.
#[derive(Clone, Copy, Debug, PartialEq, Eq, Structural)]
pub struct Session {
    pub state: SessionState,
}

impl Session {
    /// A session that has not started.
    pub fn new() -> (r: Session)
        ensures
            r.state == SessionState::Idle,
    {
        Session { state: SessionState::Idle }
    }

    /// Takes one event and returns the action it calls for.
    pub fn handle(&mut self, event: SessionEvent) -> (action: SessionAction)
        ensures
            (final(self).state, action) == next_of(old(self).state, event),
    {
        let (next, action) = match self.state {
            SessionState::Idle => match event {
                SessionEvent::Start => (SessionState::Idle, SessionAction::RefreshThenSubscribe),
                SessionEvent::Subscribed { token } => (
                    SessionState::Monitoring { token },
                    SessionAction::Nothing,
                ),
                SessionEvent::ReportUpdated => (SessionState::Idle, SessionAction::Nothing),
                SessionEvent::Stop => (SessionState::Terminated, SessionAction::Nothing),
            },
            SessionState::Monitoring { token } => match event {
                SessionEvent::ReportUpdated => (self.state, SessionAction::Refresh),
                SessionEvent::Stop => (
                    SessionState::Terminated,
                    SessionAction::Unsubscribe { token },
                ),
                _ => (self.state, SessionAction::Nothing),
            },
            SessionState::Terminated => (SessionState::Terminated, SessionAction::Nothing),
        };
        self.state = next;
        action
    }

    /// Whether monitoring has ended.
    pub fn is_terminated(&self) -> (r: bool)
        ensures
            r == (self.state is Terminated),
    {
        match self.state {
            SessionState::Terminated => true,
            _ => false,
        }
    }
}

/// A terminated session never asks to unsubscribe again.
pub proof fn lemma_terminated_is_final(events: Seq<SessionEvent>)
    ensures
        unsubscribe_count(SessionState::Terminated, events) == 0,
    decreases events.len(),
{
    if events.len() > 0 {
        lemma_terminated_is_final(events.drop_first());
    }
}

/// Whatever events arrive, a session asks to unsubscribe at most once, and
/// only with the token that its own subscription gave.
pub proof fn lemma_unsubscribe_at_most_once(state: SessionState, events: Seq<SessionEvent>)
    ensures
        unsubscribe_count(state, events) <= 1,
        forall|e: SessionEvent|
            #[trigger] next_of(state, e).1 matches SessionAction::Unsubscribe { token } ==> state
                == (SessionState::Monitoring { token }),
    decreases events.len(),
{
    if events.len() > 0 {
        let step = next_of(state, events[0]);
        if step.1 is Unsubscribe {
            lemma_terminated_is_final(events.drop_first());
        } else {
            lemma_unsubscribe_at_most_once(step.0, events.drop_first());
        }
    }
}

} // verus!
