//! Connection state machine: connect, retry with a fixed delay up to a bound,
//! tear down.
//!
//! Times are whole milliseconds on the machine's monotonic clock, counted from
//! the moment the machine was created.
use vstd::prelude::*;
use vstd::string::*;

use crate::clock::{clock_origin, millis_since};

verus! {

/// Default bound on connection attempts.
pub const DEFAULT_MAX_RETRIES: u32 = 3;

/// Default delay before a retry, in milliseconds.
pub const DEFAULT_RETRY_DELAY_MS: u64 = 2000;

#[derive(Debug)]
pub enum StateError {
    /// The requested transition is not allowed from the current state.
    InvalidTransition { from: String, to: String },
    /// The attempt counter has reached the bound; carries the attempt.
    MaxRetriesReached(u32),
}

#[derive(Debug, Clone)]
pub enum ConnectionState {
    Idle,
    Connecting { attempt: u32 },
    Connected { session_id: String, connected_at: u64 },
    Error { message: String, retry_at: u64, attempt: u32 },
    Disconnecting,
}

/// The name of a state, as `ConnectionState::name` reports it.
pub open spec fn state_name(s: ConnectionState) -> Seq<char> {
    match s {
        ConnectionState::Idle => "idle"@,
        ConnectionState::Connecting { .. } => "connecting"@,
        ConnectionState::Connected { .. } => "connected"@,
        ConnectionState::Error { .. } => "error"@,
        ConnectionState::Disconnecting => "disconnecting"@,
    }
}

/// Whether an error state still has attempts left under the default bound.
pub open spec fn spec_can_retry(s: ConnectionState) -> bool {
    match s {
        ConnectionState::Error { attempt, .. } => attempt < DEFAULT_MAX_RETRIES,
        _ => false,
    }
}

impl ConnectionState {
    pub fn name(&self) -> (r: &'static str)
        ensures
            r@ == state_name(*self),
    {
        match self {
            ConnectionState::Idle => "idle",
            ConnectionState::Connecting { .. } => "connecting",
            ConnectionState::Connected { .. } => "connected",
            ConnectionState::Error { .. } => "error",
            ConnectionState::Disconnecting => "disconnecting",
        }
    }

    pub fn is_connected(&self) -> (r: bool)
        ensures
            r == (*self is Connected),
    {
        matches!(self, ConnectionState::Connected { .. })
    }

    pub fn can_retry(&self) -> (r: bool)
        ensures
            r == spec_can_retry(*self),
    {
        match self {
            ConnectionState::Error { attempt, .. } => *attempt < DEFAULT_MAX_RETRIES,
            _ => false,
        }
    }
}

/// Outcome of a request to start connecting: the result and the next state.
pub open spec fn connecting_step(s: ConnectionState, max_retries: u32) -> (
    Result<(), StateError>,
    ConnectionState,
) {
    match s {
        ConnectionState::Idle => (Ok(()), ConnectionState::Connecting { attempt: 1 }),
        ConnectionState::Error { attempt, .. } => if attempt < max_retries {
            (Ok(()), ConnectionState::Connecting { attempt: (attempt + 1) as u32 })
        } else {
            (Err(StateError::MaxRetriesReached(attempt)), s)
        },
        _ => (Ok(()), s),
    }
}

/// Whether a session may be established from `s` under the id `session_id`.
pub open spec fn connected_allowed(s: ConnectionState, session_id: Seq<char>) -> bool {
    s is Connecting && session_id.len() > 0
}

/// Whether `s` is connected under the id `session_id`.
pub open spec fn connected_under(s: ConnectionState, session_id: Seq<char>) -> bool {
    match s {
        ConnectionState::Connected { session_id: sid, .. } => sid@ == session_id,
        _ => false,
    }
}

/// Whether `e` reports a refused move from `s` to the connected state.
pub open spec fn refused_connected(e: StateError, s: ConnectionState) -> bool {
    match e {
        StateError::InvalidTransition { from, to } => from@ == state_name(s) && to@
            == "connected"@,
        _ => false,
    }
}

/// Whether `s` is an error state with the message `message`.
pub open spec fn error_message_is(s: ConnectionState, message: Seq<char>) -> bool {
    match s {
        ConnectionState::Error { message: m, .. } => m@ == message,
        _ => false,
    }
}

/// The attempt that an error state entered from `s` carries.
pub open spec fn carried_attempt(s: ConnectionState) -> u32 {
    match s {
        ConnectionState::Connecting { attempt } => attempt,
        ConnectionState::Error { attempt, .. } => attempt,
        _ => 0,
    }
}

/// `now + delay`, held at the largest `u64` where the sum does not fit.
pub open spec fn deadline(now: u64, delay: u64) -> u64 {
    if now + delay <= u64::MAX {
        (now + delay) as u64
    } else {
        u64::MAX
    }
}

/// Whether a retry is due at time `now` in state `s`.
pub open spec fn retry_due(s: ConnectionState, max_retries: u32, now: u64) -> bool {
    match s {
        ConnectionState::Error { retry_at, attempt, .. } => attempt < max_retries && now
            >= retry_at,
        _ => false,
    }
}

pub struct StateMachine {
    state: ConnectionState,
    max_retries: u32,
    retry_delay_ms: u64,
    origin: std::time::Instant,
}

impl StateMachine {
    /// The current state.
    pub closed spec fn spec_state(&self) -> ConnectionState {
        self.state
    }

    /// The bound on connection attempts.
    pub closed spec fn spec_max_retries(&self) -> u32 {
        self.max_retries
    }

    /// The delay before a retry, in milliseconds.
    pub closed spec fn spec_retry_delay_ms(&self) -> u64 {
        self.retry_delay_ms
    }

    /// A machine in `Idle` with the given retry bound and retry delay.
    pub fn new(max_retries: u32, retry_delay_ms: u64) -> (r: Self)
        ensures
            r.spec_state() is Idle,
            r.spec_max_retries() == max_retries,
            r.spec_retry_delay_ms() == retry_delay_ms,
    {
        StateMachine {
            state: ConnectionState::Idle,
            max_retries,
            retry_delay_ms,
            origin: clock_origin(),
        }
    }

    pub fn current_state(&self) -> (r: &ConnectionState)
        ensures
            *r == self.spec_state(),
    {
        &self.state
    }

    pub fn max_retries(&self) -> (r: u32)
        ensures
            r == self.spec_max_retries(),
    {
        self.max_retries
    }

    pub fn retry_delay_ms(&self) -> (r: u64)
        ensures
            r == self.spec_retry_delay_ms(),
    {
        self.retry_delay_ms
    }

    /// Milliseconds since this machine was created.
    pub fn now_ms(&self) -> u64 {
        millis_since(&self.origin)
    }

    /// Starts a connection attempt: `Idle` goes to attempt 1, an error state
    /// with attempts left goes to the next attempt, an error state at the
    /// bound fails with `MaxRetriesReached`. Other states are left as they
    /// are.
    pub fn transition_to_connecting(&mut self) -> (r: Result<(), StateError>)
        ensures
            (r, final(self).spec_state()) == connecting_step(
                old(self).spec_state(),
                old(self).spec_max_retries(),
            ),
            final(self).spec_max_retries() == old(self).spec_max_retries(),
            final(self).spec_retry_delay_ms() == old(self).spec_retry_delay_ms(),
    {
        match &self.state {
            ConnectionState::Idle => {
                self.state = ConnectionState::Connecting { attempt: 1 };
                Ok(())
            },
            ConnectionState::Error { attempt, .. } => {
                let attempt = *attempt;
                if attempt < self.max_retries {
                    self.state = ConnectionState::Connecting { attempt: attempt + 1 };
                    Ok(())
                } else {
                    Err(StateError::MaxRetriesReached(attempt))
                }
            },
            _ => Ok(()),
        }
    }

    /// Establishes the session `session_id` at the current time.
    pub fn transition_to_connected(&mut self, session_id: String) -> (r: Result<(), StateError>)
        ensures
            final(self).spec_max_retries() == old(self).spec_max_retries(),
            final(self).spec_retry_delay_ms() == old(self).spec_retry_delay_ms(),
            r is Ok <==> connected_allowed(old(self).spec_state(), session_id@),
            r is Ok ==> connected_under(final(self).spec_state(), session_id@),
            r matches Err(e) ==> final(self).spec_state() == old(self).spec_state()
                && refused_connected(e, old(self).spec_state()),
    {
        let now = self.now_ms();
        self.transition_to_connected_at(session_id, now)
    }

    /// Establishes the session `session_id` at time `now`. Allowed only from
    /// `Connecting` and with a non-empty id.
    pub fn transition_to_connected_at(&mut self, session_id: String, now: u64) -> (r: Result<
        (),
        StateError,
    >)
        ensures
            final(self).spec_max_retries() == old(self).spec_max_retries(),
            final(self).spec_retry_delay_ms() == old(self).spec_retry_delay_ms(),
            r is Ok <==> connected_allowed(old(self).spec_state(), session_id@),
            r is Ok ==> final(self).spec_state() == (ConnectionState::Connected {
                session_id,
                connected_at: now,
            }),
            r matches Err(e) ==> final(self).spec_state() == old(self).spec_state()
                && refused_connected(e, old(self).spec_state()),
    {
        let connecting = matches!(self.state, ConnectionState::Connecting { .. });
        if connecting && !session_id.as_str().is_empty() {
            self.state = ConnectionState::Connected { session_id, connected_at: now };
            Ok(())
        } else {
            let from = String::from_str(self.state.name());
            let to = String::from_str("connected");
            Err(StateError::InvalidTransition { from, to })
        }
    }

    /// Records a failure at the current time.
    pub fn transition_to_error(&mut self, message: String)
        ensures
            final(self).spec_max_retries() == old(self).spec_max_retries(),
            final(self).spec_retry_delay_ms() == old(self).spec_retry_delay_ms(),
            final(self).spec_state() is Error,
            error_message_is(final(self).spec_state(), message@),
            carried_attempt(final(self).spec_state()) == carried_attempt(old(self).spec_state()),
    {
        let now = self.now_ms();
        self.transition_to_error_at(message, now)
    }

    /// Records a failure at time `now`: the machine enters `Error`, keeps
    /// the attempt of a `Connecting` or `Error` state (0 from any other), and
    /// sets the retry time `retry_delay` after `now`.
    pub fn transition_to_error_at(&mut self, message: String, now: u64)
        ensures
            final(self).spec_max_retries() == old(self).spec_max_retries(),
            final(self).spec_retry_delay_ms() == old(self).spec_retry_delay_ms(),
            final(self).spec_state() == (ConnectionState::Error {
                message,
                retry_at: deadline(now, old(self).spec_retry_delay_ms()),
                attempt: carried_attempt(old(self).spec_state()),
            }),
    {
        let attempt = match &self.state {
            ConnectionState::Connecting { attempt } => *attempt,
            ConnectionState::Error { attempt, .. } => *attempt,
            _ => 0,
        };
        let retry_at = now.saturating_add(self.retry_delay_ms);
        self.state = ConnectionState::Error { message, retry_at, attempt };
    }

    /// The session has ended: back to `Idle`.
    pub fn transition_to_idle(&mut self)
        ensures
            final(self).spec_state() is Idle,
            final(self).spec_max_retries() == old(self).spec_max_retries(),
            final(self).spec_retry_delay_ms() == old(self).spec_retry_delay_ms(),
    {
        self.state = ConnectionState::Idle;
    }

    /// An explicit stop: `Disconnecting`, from any state.
    pub fn transition_to_disconnecting(&mut self)
        ensures
            final(self).spec_state() is Disconnecting,
            final(self).spec_max_retries() == old(self).spec_max_retries(),
            final(self).spec_retry_delay_ms() == old(self).spec_retry_delay_ms(),
    {
        self.state = ConnectionState::Disconnecting;
    }

    /// Whether the machine failed with no attempts left: in `Error` with the
    /// attempt at or above the bound. A session ending this way is reported
    /// to the host as exhausted retries.
    pub fn retries_exhausted(&self) -> (r: bool)
        ensures
            r == (self.spec_state() is Error && carried_attempt(self.spec_state())
                >= self.spec_max_retries()),
    {
        match &self.state {
            ConnectionState::Error { attempt, .. } => *attempt >= self.max_retries,
            _ => false,
        }
    }

    /// Whether a retry is due now. True only in `Error` with attempts left.
    pub fn should_retry(&self) -> (r: bool)
        ensures
            r ==> self.spec_state() is Error,
            r ==> carried_attempt(self.spec_state()) < self.spec_max_retries(),
    {
        let now = self.now_ms();
        self.should_retry_at(now)
    }

    /// Whether a retry is due at time `now`: in `Error`, with the attempt
    /// below the bound, and `now` at or after the retry time.
    pub fn should_retry_at(&self, now: u64) -> (r: bool)
        ensures
            r == retry_due(self.spec_state(), self.spec_max_retries(), now),
    {
        match &self.state {
            ConnectionState::Error { retry_at, attempt, .. } => *attempt < self.max_retries && now
                >= *retry_at,
            _ => false,
        }
    }

    /// How long the session has been up, in milliseconds, if connected.
    pub fn connection_duration(&self) -> (r: Option<u64>)
        ensures
            r is Some <==> self.spec_state() is Connected,
    {
        let now = self.now_ms();
        self.connection_duration_at(now)
    }

    /// How long the session has been up at time `now`, in milliseconds
    /// (0 if `now` is before the connection time), if connected.
    pub fn connection_duration_at(&self, now: u64) -> (r: Option<u64>)
        ensures
            match self.spec_state() {
                ConnectionState::Connected { connected_at, .. } => r == Some(
                    if now >= connected_at {
                        (now - connected_at) as u64
                    } else {
                        0u64
                    },
                ),
                _ => r is None,
            },
    {
        match &self.state {
            ConnectionState::Connected { connected_at, .. } => Some(
                now.saturating_sub(*connected_at),
            ),
            _ => None,
        }
    }

    /// Back to `Idle`, whatever the state.
    pub fn reset(&mut self)
        ensures
            final(self).spec_state() is Idle,
            final(self).spec_max_retries() == old(self).spec_max_retries(),
            final(self).spec_retry_delay_ms() == old(self).spec_retry_delay_ms(),
    {
        self.state = ConnectionState::Idle;
    }
}

impl Default for StateMachine {
    fn default() -> (r: Self)
        ensures
            r.spec_state() is Idle,
            r.spec_max_retries() == DEFAULT_MAX_RETRIES,
            r.spec_retry_delay_ms() == DEFAULT_RETRY_DELAY_MS,
    {
        StateMachine::new(DEFAULT_MAX_RETRIES, DEFAULT_RETRY_DELAY_MS)
    }
}

/// From `Idle`, starting to connect and then establishing a session with a
/// non-empty id succeeds and leaves the machine connected under that id.
pub proof fn lemma_connect_reaches_connected(max_retries: u32, session_id: Seq<char>)
    requires
        session_id.len() > 0,
    ensures
        connecting_step(ConnectionState::Idle, max_retries).0 is Ok,
        connecting_step(ConnectionState::Idle, max_retries).1 is Connecting,
        connected_allowed(connecting_step(ConnectionState::Idle, max_retries).1, session_id),
{
}

/// From an error state whose attempt has reached the bound, another attempt
/// fails with `MaxRetriesReached` and leaves the state unchanged.
pub proof fn lemma_retries_exhausted(s: ConnectionState, max_retries: u32)
    requires
        s matches ConnectionState::Error { attempt, .. } && attempt >= max_retries,
    ensures
        connecting_step(s, max_retries).0 == Err::<(), StateError>(
            StateError::MaxRetriesReached(carried_attempt(s)),
        ),
        connecting_step(s, max_retries).1 == s,
{
}

/// In an error state with attempts left, a retry is not due strictly before
/// the retry time and is due at and after it.
pub proof fn lemma_retry_timing(s: ConnectionState, max_retries: u32, now: u64)
    requires
        s matches ConnectionState::Error { attempt, .. } && attempt < max_retries,
    ensures
        s matches ConnectionState::Error { retry_at, .. } && (retry_due(s, max_retries, now)
            <==> now >= retry_at),
{
}

} // verus!
