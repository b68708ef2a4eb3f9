//! The manager's view of one model catalog entry, and the validation a load
//! attempt applies to it before any engine work starts.

use vstd::prelude::*;
use crate::errors::TranscriptionError;

verus! {

/// The inference engine family a catalog entry was built for.
#[derive(Clone, Copy, Debug, PartialEq, Eq, Structural)]
pub enum EngineKind {
    /// Streaming Parakeet models; the only kind this manager can run.
    Parakeet,
    /// Whisper models, no longer supported.
    Whisper,
}

/// What the model catalog reports about one model identifier.
#[derive(Clone, Debug)]
pub struct ModelInfo {
    /// Display name, carried into lifecycle notifications.
    pub name: String,
    /// Whether the model files are present on disk.
    pub is_downloaded: bool,
    /// Which engine family the model belongs to.
    pub engine_kind: EngineKind,
}

/// Validation a load attempt applies to the catalog's answer: the model must
/// exist, be downloaded, and be of a supported engine kind — failing with
/// `ModelNotFound`, `ModelNotDownloaded`, or `UnsupportedEngineType`
/// respectively, in that order of precedence.
pub fn validate_model(info: &Option<ModelInfo>) -> (r: Result<(), TranscriptionError>)
    ensures
        match r {
            Ok(()) => (*info) matches Some(i) && i.is_downloaded && i.engine_kind
                == EngineKind::Parakeet,
            Err(e) => match e {
                TranscriptionError::ModelNotFound => (*info) is None,
                TranscriptionError::ModelNotDownloaded => (*info) matches Some(i)
                    && !i.is_downloaded,
                TranscriptionError::UnsupportedEngineType => (*info) matches Some(i)
                    && i.is_downloaded && i.engine_kind != EngineKind::Parakeet,
                _ => false,
            },
        },
{
    match info {
        None => Err(TranscriptionError::ModelNotFound),
        Some(i) => {
            if !i.is_downloaded {
                Err(TranscriptionError::ModelNotDownloaded)
            } else {
                match i.engine_kind {
                    EngineKind::Parakeet => Ok(()),
                    EngineKind::Whisper => Err(TranscriptionError::UnsupportedEngineType),
                }
            }
        },
    }
}

} // verus!
