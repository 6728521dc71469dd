//! Decisions of the two tasks that drive one socket session.
//!
//! The send task batches outbound samples and sends them at each batch
//! tick; when nothing has arrived for the silence window it sends one commit,
//! latched until new audio arrives. The receive task updates the connection
//! state from each inbound message and ends the session on an
//! authentication error or a session end.
use vstd::prelude::*;

use crate::protocol::{chunk_payload, ClientMessage, ServerMessage};
use crate::state_machine::{
    carried_attempt,
    connected_allowed,
    connected_under,
    deadline,
    ConnectionState,
    StateMachine,
};

verus! {

/// Interval between batch ticks, in milliseconds.
pub const BATCH_INTERVAL_MS: u64 = 500;

/// Time without audio after which a commit is sent, in milliseconds.
pub const SILENCE_COMMIT_MS: u64 = 2000;

/// What the send task transmits at a tick.
#[derive(Debug)]
pub enum SendAction {
    /// The batched samples, as one audio chunk.
    Audio(ClientMessage),
    /// A standalone commit.
    Commit(ClientMessage),
    /// Nothing.
    Idle,
}

/// The send task's state between ticks.
pub struct SendBatcher {
    buffer: Vec<i16>,
    last_audio_ms: u64,
    committed: bool,
    silence_commit_ms: u64,
}

impl SendBatcher {
    /// The samples waiting for the next tick.
    pub closed spec fn buffered(&self) -> Seq<i16> {
        self.buffer@
    }

    /// When audio last arrived.
    pub closed spec fn spec_last_audio_ms(&self) -> u64 {
        self.last_audio_ms
    }

    /// Whether a commit was sent for the current silence.
    pub closed spec fn spec_committed(&self) -> bool {
        self.committed
    }

    /// The silence window.
    pub closed spec fn spec_silence_commit_ms(&self) -> u64 {
        self.silence_commit_ms
    }

    /// The batch can always be encoded: its base64 text fits in memory.
    pub closed spec fn wf(&self) -> bool {
        self.buffer@.len() <= usize::MAX / 4
    }

    /// An empty batch, started at `now_ms`, that commits after
    /// `silence_commit_ms` without audio.
    pub fn new(now_ms: u64, silence_commit_ms: u64) -> (r: Self)
        ensures
            r.wf(),
            r.buffered().len() == 0,
            r.spec_last_audio_ms() == now_ms,
            !r.spec_committed(),
            r.spec_silence_commit_ms() == silence_commit_ms,
    {
        SendBatcher { buffer: Vec::new(), last_audio_ms: now_ms, committed: false, silence_commit_ms }
    }

    /// Samples arrived at `now_ms`: they join the batch and the commit
    /// latch is released.
    pub fn on_audio(&mut self, chunk: &[i16], now_ms: u64)
        requires
            old(self).wf(),
            old(self).buffered().len() + chunk@.len() <= usize::MAX / 4,
        ensures
            final(self).wf(),
            final(self).buffered() == old(self).buffered() + chunk@,
            final(self).spec_last_audio_ms() == now_ms,
            !final(self).spec_committed(),
            final(self).spec_silence_commit_ms() == old(self).spec_silence_commit_ms(),
    {
        let mut i: usize = 0;
        let ghost start = self.buffer@;
        while i < chunk.len()
            invariant
                i <= chunk@.len(),
                self.buffer@ == start + chunk@.subrange(0, i as int),
                self.silence_commit_ms == old(self).silence_commit_ms,
            decreases chunk@.len() - i,
        {
            self.buffer.push(chunk[i]);
            i = i + 1;
        }
        assert(chunk@.subrange(0, chunk@.len() as int) == chunk@);
        self.last_audio_ms = now_ms;
        self.committed = false;
    }

    /// Whether the room left in the batch takes `extra` more samples.
    pub fn has_room(&self, extra: usize) -> (r: bool)
        requires
            self.wf(),
        ensures
            r == (self.buffered().len() + extra <= usize::MAX / 4),
    {
        extra <= usize::MAX / 4 - self.buffer.len()
    }

    /// A batch tick at `now_ms`. A non-empty batch goes out as one audio
    /// chunk and the batch is emptied. An empty batch sends a commit when
    /// none was sent since the last audio and the silence window has
    /// passed; the commit is then latched. Otherwise nothing is sent.
    pub fn on_tick(&mut self, now_ms: u64) -> (r: SendAction)
        requires
            old(self).wf(),
        ensures
            final(self).wf(),
            final(self).spec_last_audio_ms() == old(self).spec_last_audio_ms(),
            final(self).spec_silence_commit_ms() == old(self).spec_silence_commit_ms(),
            old(self).buffered().len() > 0 ==> (r matches SendAction::Audio(m) && m.payload()
                == chunk_payload(old(self).buffered()) && m.commit_flag() is None),
            old(self).buffered().len() > 0 ==> final(self).buffered().len() == 0
                && final(self).spec_committed() == old(self).spec_committed(),
            old(self).buffered().len() == 0 ==> final(self).buffered().len() == 0,
            old(self).buffered().len() == 0 && commit_due(*old(self), now_ms) ==> (r matches SendAction::Commit(
                m,
            ) && m.payload().len() == 0 && m.commit_flag() == Some(true)),
            old(self).buffered().len() == 0 && commit_due(*old(self), now_ms)
                ==> final(self).spec_committed(),
            old(self).buffered().len() == 0 && !commit_due(*old(self), now_ms) ==> r is Idle
                && final(self).spec_committed() == old(self).spec_committed(),
    {
        if self.buffer.len() > 0 {
            let msg = ClientMessage::audio_chunk(self.buffer.as_slice());
            self.buffer.clear();
            SendAction::Audio(msg)
        } else if !self.committed && now_ms.saturating_sub(self.last_audio_ms)
            >= self.silence_commit_ms {
            self.committed = true;
            SendAction::Commit(ClientMessage::commit())
        } else {
            SendAction::Idle
        }
    }
}

/// The time from `since` to `now`, or 0 where `now` is earlier.
pub open spec fn elapsed(since: u64, now: u64) -> u64 {
    if now >= since {
        (now - since) as u64
    } else {
        0
    }
}

/// Whether a tick at `now_ms` on an empty batch sends a commit: none was
/// sent since the last audio, and the silence window has passed.
pub open spec fn commit_due(b: SendBatcher, now_ms: u64) -> bool {
    !b.spec_committed() && elapsed(b.spec_last_audio_ms(), now_ms) >= b.spec_silence_commit_ms()
}

/// Whether `s` is the error state for `message`, retrying at `retry_at`
/// with attempt `attempt`.
pub open spec fn errored(s: ConnectionState, message: Seq<char>, retry_at: u64, attempt: u32) -> bool {
    match s {
        ConnectionState::Error { message: m, retry_at: r, attempt: a } => m@ == message && r
            == retry_at && a == attempt,
        _ => false,
    }
}

/// The connection state after the inbound message `msg` arrives at `now`
/// in state `old_state`, as a relation between the two.
pub open spec fn updated_by(
    old_state: ConnectionState,
    new_state: ConnectionState,
    delay: u64,
    msg: ServerMessage,
    now: u64,
) -> bool {
    match msg {
        ServerMessage::SessionStarted { session_id, .. } => if connected_allowed(
            old_state,
            session_id@,
        ) {
            connected_under(new_state, session_id@) && (new_state matches ConnectionState::Connected {
                connected_at,
                ..
            } && connected_at == now)
        } else {
            new_state == old_state
        },
        ServerMessage::InputError { error_message } => errored(
            new_state,
            error_message@,
            deadline(now, delay),
            carried_attempt(old_state),
        ),
        ServerMessage::AuthError { error } => errored(
            new_state,
            error@,
            deadline(now, delay),
            carried_attempt(old_state),
        ),
        ServerMessage::SessionEnded { .. } => new_state is Idle,
        _ => new_state == old_state,
    }
}

/// Applies the inbound message `msg`, arriving at `now`, to the connection
/// state: a session start connects, an input or authentication error enters
/// the error state, a session end returns to idle, anything else leaves the
/// state alone. Returns whether the session ends once `msg` is forwarded:
/// on an authentication error or a session end.
pub fn apply_server_message(sm: &mut StateMachine, msg: &ServerMessage, now: u64) -> (ends: bool)
    ensures
        final(sm).spec_max_retries() == old(sm).spec_max_retries(),
        final(sm).spec_retry_delay_ms() == old(sm).spec_retry_delay_ms(),
        updated_by(
            old(sm).spec_state(),
            final(sm).spec_state(),
            old(sm).spec_retry_delay_ms(),
            *msg,
            now,
        ),
        ends == (*msg is AuthError || *msg is SessionEnded),
{
    match msg {
        ServerMessage::SessionStarted { session_id, .. } => {
            let _ = sm.transition_to_connected_at(session_id.clone(), now);
            false
        },
        ServerMessage::InputError { error_message } => {
            sm.transition_to_error_at(error_message.clone(), now);
            false
        },
        ServerMessage::AuthError { error } => {
            sm.transition_to_error_at(error.clone(), now);
            true
        },
        ServerMessage::SessionEnded { .. } => {
            sm.transition_to_idle();
            true
        },
        _ => false,
    }
}

} // verus!
