//! Configuration for the external transcription collaborator.
//!
//! Transcription itself is network I/O and happens outside this library;
//! only the configuration values that select the service live here.

use vstd::prelude::*;

verus! {

/// Which transcription service to call and with what credential. The
/// caller fills `api_key` from its environment and `model` with the
/// service's model name.
pub struct TranscriptConfig {
    pub api_key: String,
    pub model: String,
}

} // verus!
