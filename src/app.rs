//! The recording lifecycle as the host sees it: whether a recording may
//! start, what the front end is told of each message from the service, and
//! the errors of starting and stopping a recording.
use vstd::prelude::*;
use vstd::string::*;

use crate::config::AppConfig;
use crate::input::InjectionConfig;
use crate::protocol::ServerMessage;
use crate::text::prefixed;

verus! {

#[derive(Debug)]
pub enum AppError {
    Audio(String),
    Network(String),
    Input(String),
    NotConfigured(String),
    AlreadyRunning,
}

impl AppError {
    pub open spec fn message(&self) -> Seq<char> {
        match self {
            AppError::Audio(s) => "Audio error: "@ + s@,
            AppError::Network(s) => "Network error: "@ + s@,
            AppError::Input(s) => "Input error: "@ + s@,
            AppError::NotConfigured(s) => "Not configured: "@ + s@,
            AppError::AlreadyRunning => "Already running"@,
        }
    }

    pub fn to_string(&self) -> (r: String)
        ensures
            r@ == self.message(),
    {
        match self {
            AppError::Audio(s) => prefixed("Audio error: ", s.as_str()),
            AppError::Network(s) => prefixed("Network error: ", s.as_str()),
            AppError::Input(s) => prefixed("Input error: ", s.as_str()),
            AppError::NotConfigured(s) => prefixed("Not configured: ", s.as_str()),
            AppError::AlreadyRunning => String::from_str("Already running"),
        }
    }
}

#[derive(Debug, Clone, Copy, PartialEq, Eq, Structural)]
pub enum RecordingState {
    Idle,
    Recording,
    Processing,
}

/// What the recording hotkey does.
#[derive(Debug, Clone, Copy, PartialEq, Eq, Structural)]
pub enum ToggleAction {
    Start,
    Stop,
}

/// The hotkey starts a recording when idle and stops it otherwise.
pub fn toggle_action(state: RecordingState) -> (r: ToggleAction)
    ensures
        r == (if state == RecordingState::Idle {
            ToggleAction::Start
        } else {
            ToggleAction::Stop
        }),
{
    match state {
        RecordingState::Idle => ToggleAction::Start,
        RecordingState::Recording | RecordingState::Processing => ToggleAction::Stop,
    }
}

/// Whether a recording may start: not while one runs, and not without a
/// key.
pub fn check_can_start(running: bool, config: &AppConfig) -> (r: Result<(), AppError>)
    ensures
        running ==> r matches Err(AppError::AlreadyRunning),
        !running && config.api_key@.len() == 0 ==> (r matches Err(AppError::NotConfigured(m))
            && m@ == "API Key not set"@),
        !running && config.api_key@.len() > 0 ==> r is Ok,
{
    if running {
        return Err(AppError::AlreadyRunning);
    }
    if config.api_key.as_str().is_empty() {
        return Err(AppError::NotConfigured(String::from_str("API Key not set")));
    }
    Ok(())
}

/// The delivery settings for a recording: the user's keyboard limit and
/// blacklist switch, the defaults otherwise.
pub fn injection_config_for(config: &AppConfig) -> (r: InjectionConfig)
    ensures
        r == (InjectionConfig {
            keyboard_max_chars: config.keyboard_max_chars,
            enable_blacklist: config.enable_blacklist,
            ..InjectionConfig::spec_default()
        }),
{
    let mut r = InjectionConfig::default();
    r.keyboard_max_chars = config.keyboard_max_chars;
    r.enable_blacklist = config.enable_blacklist;
    r
}

/// What the front end is told of one message from the service.
#[derive(Debug)]
pub struct HostNotice {
    /// The name of the event.
    pub event: String,
    /// The transcript, session id, error message or reason it carries.
    pub text: String,
    /// For a transcript, whether it is final.
    pub is_final: Option<bool>,
    /// Whether the text is typed or pasted into the focused window.
    pub inject: bool,
    /// Whether handling of the session's messages stops after this one.
    pub ends: bool,
}

/// The event name, carried text, finality, delivery and end of handling
/// for `msg`.
pub open spec fn notice_of(msg: ServerMessage) -> (Seq<char>, Seq<char>, Option<bool>, bool, bool) {
    match msg {
        ServerMessage::PartialTranscript { text, .. } => (
            "transcript_update"@,
            text@,
            Some(false),
            false,
            false,
        ),
        ServerMessage::CommittedTranscript { text, .. } => (
            "transcript_update"@,
            text@,
            Some(true),
            true,
            false,
        ),
        ServerMessage::SessionStarted { session_id, .. } => (
            "session_started"@,
            session_id@,
            None,
            false,
            false,
        ),
        ServerMessage::InputError { error_message } => (
            "api_error"@,
            error_message@,
            None,
            false,
            false,
        ),
        ServerMessage::AuthError { error } => ("auth_error"@, error@, None, false, true),
        ServerMessage::CommitThrottled { error } => (
            "commit_throttled"@,
            error@,
            None,
            false,
            false,
        ),
        ServerMessage::SessionEnded { reason } => ("session_ended"@, reason@, None, false, true),
    }
}

fn notice(event: &str, text: &String, is_final: Option<bool>, inject: bool, ends: bool) -> (r: HostNotice)
    ensures
        r.event@ == event@,
        r.text@ == text@,
        r.is_final == is_final,
        r.inject == inject,
        r.ends == ends,
{
    HostNotice { event: String::from_str(event), text: text.clone(), is_final, inject, ends }
}

/// What the front end is told of `msg`: every transcript updates it and a
/// committed one is also delivered to the focused window; an authentication
/// error or a session end stops the handling of the session.
pub fn host_notice(msg: &ServerMessage) -> (r: HostNotice)
    ensures
        (r.event@, r.text@, r.is_final, r.inject, r.ends) == notice_of(*msg),
{
    match msg {
        ServerMessage::PartialTranscript { text, .. } => notice(
            "transcript_update",
            text,
            Some(false),
            false,
            false,
        ),
        ServerMessage::CommittedTranscript { text, .. } => notice(
            "transcript_update",
            text,
            Some(true),
            true,
            false,
        ),
        ServerMessage::SessionStarted { session_id, .. } => notice(
            "session_started",
            session_id,
            None,
            false,
            false,
        ),
        ServerMessage::InputError { error_message } => notice(
            "api_error",
            error_message,
            None,
            false,
            false,
        ),
        ServerMessage::AuthError { error } => notice("auth_error", error, None, false, true),
        ServerMessage::CommitThrottled { error } => notice(
            "commit_throttled",
            error,
            None,
            false,
            false,
        ),
        ServerMessage::SessionEnded { reason } => notice("session_ended", reason, None, false, true),
    }
}

} // verus!
