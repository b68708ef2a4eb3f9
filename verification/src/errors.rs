//! Errors surfaced by the lifecycle manager.

use vstd::prelude::*;

verus! {

/// Why a load, a chunk transcription, or a finalize failed. Load failures are
/// non-fatal: the manager stays usable for a retry.
#[derive(Clone, Debug, PartialEq, Eq)]
pub enum TranscriptionError {
    /// The model catalog has no entry for the requested identifier.
    ModelNotFound,
    /// The catalog knows the model but its files are not on disk.
    ModelNotDownloaded,
    /// The model is of an engine kind this manager cannot run.
    UnsupportedEngineType,
    /// The engine factory rejected the model files; carries its reason.
    EngineLoadFailure(String),
    /// A transcription call found no engine resident.
    ModelNotLoaded,
    /// The engine failed while processing audio; carries its reason.
    EngineInferenceFailure(String),
}

/// The human-readable message attached to each error kind.
pub open spec fn spec_message(e: TranscriptionError) -> Seq<char> {
    match e {
        TranscriptionError::ModelNotFound => "Model not found"@,
        TranscriptionError::ModelNotDownloaded => "Model not downloaded"@,
        TranscriptionError::UnsupportedEngineType => "Only Parakeet models are supported"@,
        TranscriptionError::EngineLoadFailure(why) => "Failed to load model: "@ + why@,
        TranscriptionError::ModelNotLoaded => "Model is not loaded for transcription"@,
        TranscriptionError::EngineInferenceFailure(why) => "Transcription failed: "@ + why@,
    }
}

impl TranscriptionError {
    /// The message a caller may log or show for this error.
    pub fn message(&self) -> (r: String)
        ensures
            r@ == spec_message(*self),
    {
        match self {
            TranscriptionError::ModelNotFound => "Model not found".to_owned(),
            TranscriptionError::ModelNotDownloaded => "Model not downloaded".to_owned(),
            TranscriptionError::UnsupportedEngineType => "Only Parakeet models are supported".to_owned(),
            TranscriptionError::EngineLoadFailure(why) => "Failed to load model: ".to_owned().concat(
                why.as_str(),
            ),
            TranscriptionError::ModelNotLoaded => "Model is not loaded for transcription".to_owned(),
            TranscriptionError::EngineInferenceFailure(why) => "Transcription failed: ".to_owned().concat(
                why.as_str(),
            ),
        }
    }
}

} // verus!
