//! The life cycle of an OAuth 2.0 session: valid until finished, and
//! finished at most once.
use vstd::prelude::*;
use crate::scope::Scope;
use crate::time::Timestamp;

verus! {

/// The state of a session.
#[derive(Clone, Copy, Debug, PartialEq, Eq, Structural)]
pub enum SessionState {
    Valid,
    Finished { finished_at: Timestamp },
}

impl Default for SessionState {
    /// A new session is valid.
    fn default() -> (r: SessionState)
        ensures
            r == SessionState::Valid,
    {
        SessionState::Valid
    }
}

/// A state change that the current state does not allow.
#[derive(Clone, Copy, Debug, PartialEq, Eq, Structural)]
pub struct InvalidTransitionError;

impl SessionState {
    /// Returns `true` if the session state is `Valid`.
    pub fn is_valid(&self) -> (r: bool)
        ensures
            r == (*self is Valid),
    {
        matches!(self, SessionState::Valid)
    }

    /// Returns `true` if the session state is `Finished`.
    pub fn is_finished(&self) -> (r: bool)
        ensures
            r == (*self is Finished),
    {
        matches!(self, SessionState::Finished { .. })
    }

    /// What finishing this state at `finished_at` yields.
    pub open spec fn finish_outcome(self, finished_at: Timestamp) -> Result<SessionState, InvalidTransitionError> {
        match self {
            SessionState::Valid => Ok(SessionState::Finished { finished_at }),
            SessionState::Finished { .. } => Err(InvalidTransitionError),
        }
    }

    /// Finishes a valid session at `finished_at`; a finished session cannot
    /// be finished again.
    pub fn finish(self, finished_at: Timestamp) -> (r: Result<SessionState, InvalidTransitionError>)
        ensures
            r == self.finish_outcome(finished_at),
    {
        match self {
            SessionState::Valid => Ok(SessionState::Finished { finished_at }),
            SessionState::Finished { .. } => Err(InvalidTransitionError),
        }
    }
}

/// An OAuth 2.0 session: a client's access on behalf of the user of a
/// browser session.
#[derive(Debug)]
pub struct Session {
    pub id: u128,
    pub state: SessionState,
    pub created_at: Timestamp,
    pub user_session_id: u128,
    pub client_id: u128,
    pub scope: Scope,
}

impl std::ops::Deref for Session {
    type Target = SessionState;

    fn deref(&self) -> (r: &SessionState)
        ensures
            *r == self.state,
    {
        &self.state
    }
}

impl Session {
    /// Whether the session is still valid.
    pub fn is_valid(&self) -> (r: bool)
        ensures
            r == (self.state is Valid),
    {
        self.state.is_valid()
    }

    /// Finishes the session at `finished_at`; fails if it was already
    /// finished. Every other field is kept.
    pub fn finish(self, finished_at: Timestamp) -> (r: Result<Session, InvalidTransitionError>)
        ensures
            self.state is Valid <==> r is Ok,
            r matches Ok(s) ==> {
                &&& s.state == (SessionState::Finished { finished_at })
                &&& s.id == self.id
                &&& s.created_at == self.created_at
                &&& s.user_session_id == self.user_session_id
                &&& s.client_id == self.client_id
                &&& s.scope@ == self.scope@
            },
    {
        let Session { id, state, created_at, user_session_id, client_id, scope } = self;
        match state.finish(finished_at) {
            Ok(state) => Ok(Session { id, state, created_at, user_session_id, client_id, scope }),
            Err(e) => Err(e),
        }
    }
}

/// A valid session state is exactly one that is not finished.
pub proof fn law_valid_iff_not_finished(s: SessionState)
    ensures
        (s is Valid) != (s is Finished),
{
}

/// A session is finished at most once: finishing a valid state succeeds
/// and records the time, and finishing the result again is refused.
pub proof fn law_finish_at_most_once(s: SessionState, first: Timestamp, second: Timestamp)
    requires
        s is Valid,
    ensures
        s.finish_outcome(first) == Ok::<SessionState, InvalidTransitionError>(
            (SessionState::Finished { finished_at: first }),
        ),
        ((SessionState::Finished { finished_at: first }).finish_outcome(second) is Err),
{
}

} // verus!
