//! Core of a live dictation client: a pooled frame queue between the audio
//! callback and the consumer, the consumer's per-frame decisions, the wire
//! protocol of the transcription service, the connection state machine with
//! bounded retries, and the decisions of the send and receive tasks.
pub mod app;
pub mod buffer;
pub mod client;
pub mod clock;
pub mod config;
pub mod input;
pub mod pipeline;
pub mod processor;
pub mod protocol;
pub mod resampler;
pub mod session;
pub mod state_machine;
pub mod system;
pub mod text;
