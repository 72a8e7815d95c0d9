//! The records of the service as plain values, each with its view.

pub mod audio_recording;
pub mod client_secret;
pub mod session;
pub mod topic;
pub mod transcript;
