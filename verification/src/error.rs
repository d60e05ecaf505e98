//! Errors of the transcription engine.
use vstd::prelude::*;

verus! {

/// Why a transcription could not be produced.
#[derive(Debug, Clone, PartialEq, Eq)]
pub enum TranscribeError {
    /// The named engine is not part of this build.
    EngineNotAvailable(String),
    /// The audio held no samples.
    EmptyAudio,
    /// The engine was set up or run and failed, for the reason given.
    TranscriptionFailed(String),
}

/// The answer of every engine entry point in a build without the native
/// recognizer: the `sherpa-onnx` engine is not available.
pub fn engine_not_available<T>() -> (r: Result<T, TranscribeError>)
    ensures
        r matches Err(TranscribeError::EngineNotAvailable(name)) && name@ == "sherpa-onnx"@,
{
    Err(TranscribeError::EngineNotAvailable(String::from_str("sherpa-onnx")))
}

} // verus!
