//! What the operations lean on: the store of sessions, object storage, the
//! transcription provider, and texts.

pub mod history;
pub mod sessions;
pub mod storage;
pub mod text;
pub mod transcription;
