use vstd::prelude::*;

use crate::text::{decimal_seq, decimal_text};

verus! {

/// Why a recogniser could not be built or could not transcribe.
#[derive(Debug)]
pub enum EngineError {
    WhisperInitFailed(String),
    ModelLoadFailed(String),
    ModelNotFound(String),
    InferenceError(String),
    AudioTooShort,
    InvalidSampleRate(u32),
    DownloadError(String),
    VocabularyError(String),
}

/// The text that describes `e`.
pub open spec fn error_message(e: EngineError) -> Seq<char> {
    match e {
        EngineError::WhisperInitFailed(msg) => "Whisper initialization failed: "@ + msg@,
        EngineError::ModelLoadFailed(msg) => "Model loading failed: "@ + msg@,
        EngineError::ModelNotFound(path) => "Model not found: "@ + path@,
        EngineError::InferenceError(msg) => "Inference error: "@ + msg@,
        EngineError::AudioTooShort => "Audio too short"@,
        EngineError::InvalidSampleRate(rate) => "Invalid sample rate: "@ + decimal_seq(rate as nat)
            + "Hz (expected 16000Hz)"@,
        EngineError::DownloadError(msg) => "Download error: "@ + msg@,
        EngineError::VocabularyError(msg) => "Vocabulary error: "@ + msg@,
    }
}

/// The literal `prefix` followed by `rest`.
fn prefixed(prefix: &str, rest: &String) -> (r: String)
    ensures
        r@ == prefix@ + rest@,
{
    let mut out = String::from_str(prefix);
    out.append(rest.as_str());
    out
}

impl EngineError {
    /// The text that describes the error.
    pub fn message(&self) -> (r: String)
        ensures
            r@ == error_message(*self),
    {
        match self {
            EngineError::WhisperInitFailed(msg) => prefixed("Whisper initialization failed: ", msg),
            EngineError::ModelLoadFailed(msg) => prefixed("Model loading failed: ", msg),
            EngineError::ModelNotFound(path) => prefixed("Model not found: ", path),
            EngineError::InferenceError(msg) => prefixed("Inference error: ", msg),
            EngineError::AudioTooShort => String::from_str("Audio too short"),
            EngineError::InvalidSampleRate(rate) => {
                let mut out = prefixed("Invalid sample rate: ", &decimal_text(*rate));
                out.append("Hz (expected 16000Hz)");
                out
            },
            EngineError::DownloadError(msg) => prefixed("Download error: ", msg),
            EngineError::VocabularyError(msg) => prefixed("Vocabulary error: ", msg),
        }
    }
}

} // verus!
