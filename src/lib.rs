//! Transcription history and the resilient transcription client's decisions.
pub mod history;
pub mod store;
pub mod retention;
pub mod codec;
pub mod protocol;
pub mod transcription;
