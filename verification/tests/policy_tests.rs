//! Tests of the idle-eviction decision, the load validation, the lifecycle
//! events, and the error messages.

use transcription_core::catalog::validate_model;
use transcription_core::event::{
    loading_failed_event, loading_started_event, unloaded_event,
};
use transcription_core::policy::{should_evict, should_unload_after_finalize};
use transcription_core::{EngineKind, IdlePolicy, ModelInfo, TranscriptionError};

#[test]
fn idle_eviction_after_configured_seconds() {
    // 10 s policy, last activity at 1 000 ms: one millisecond past the
    // threshold evicts, the threshold itself does not.
    let p = IdlePolicy::AfterSeconds(10);
    assert!(should_evict(&p, 1_000, 11_001, true));
    assert!(!should_evict(&p, 1_000, 11_000, true));
}

#[test]
fn idle_eviction_needs_a_loaded_engine() {
    let p = IdlePolicy::AfterSeconds(10);
    assert!(!should_evict(&p, 0, 1_000_000, false));
}

#[test]
fn never_policy_never_evicts() {
    assert!(!should_evict(&IdlePolicy::Never, 0, u64::MAX, true));
}

#[test]
fn immediately_policy_is_not_polled() {
    // `Immediately` is handled synchronously at finalize, never by the
    // watcher's poll.
    assert!(!should_evict(&IdlePolicy::Immediately, 0, u64::MAX, true));
    assert!(should_unload_after_finalize(&IdlePolicy::Immediately));
    assert!(!should_unload_after_finalize(&IdlePolicy::Never));
    assert!(!should_unload_after_finalize(&IdlePolicy::AfterSeconds(10)));
}

#[test]
fn eviction_with_clock_going_backwards() {
    let p = IdlePolicy::AfterSeconds(10);
    assert!(!should_evict(&p, 20_000, 10_000, true));
}

#[test]
fn eviction_with_huge_timeout_never_overflows() {
    let p = IdlePolicy::AfterSeconds(u64::MAX);
    assert!(!should_evict(&p, 0, u64::MAX, true));
}

#[test]
fn load_of_missing_model_is_not_found() {
    assert_eq!(validate_model(&None), Err(TranscriptionError::ModelNotFound));
}

#[test]
fn load_of_undownloaded_model_fails_with_its_name() {
    let info = ModelInfo {
        name: "Model A".to_string(),
        is_downloaded: false,
        engine_kind: EngineKind::Parakeet,
    };
    let err = validate_model(&Some(info.clone())).unwrap_err();
    assert_eq!(err, TranscriptionError::ModelNotDownloaded);
    let ev = loading_failed_event("model-a", Some(info.name.as_str()), &err);
    assert_eq!(ev.event_type, "loading_failed");
    assert_eq!(ev.model_id.as_deref(), Some("model-a"));
    assert_eq!(ev.model_name.as_deref(), Some("Model A"));
    assert_eq!(ev.error.as_deref(), Some("Model not downloaded"));
}

#[test]
fn load_of_unsupported_engine_kind_fails() {
    let info = ModelInfo {
        name: "W".to_string(),
        is_downloaded: true,
        engine_kind: EngineKind::Whisper,
    };
    assert_eq!(
        validate_model(&Some(info)),
        Err(TranscriptionError::UnsupportedEngineType)
    );
}

#[test]
fn load_of_downloaded_parakeet_model_validates() {
    let info = ModelInfo {
        name: "A".to_string(),
        is_downloaded: true,
        engine_kind: EngineKind::Parakeet,
    };
    assert_eq!(validate_model(&Some(info)), Ok(()));
}

#[test]
fn lifecycle_event_shapes() {
    let started = loading_started_event("model-a");
    assert_eq!(started.event_type, "loading_started");
    assert_eq!(started.model_id.as_deref(), Some("model-a"));
    assert!(started.model_name.is_none());
    assert!(started.error.is_none());

    let unloaded = unloaded_event();
    assert_eq!(unloaded.event_type, "unloaded");
    assert!(unloaded.model_id.is_none());
}

#[test]
fn failed_event_without_a_known_name() {
    let ev = loading_failed_event("model-a", None, &TranscriptionError::ModelNotFound);
    assert!(ev.model_name.is_none());
    assert_eq!(ev.error.as_deref(), Some("Model not found"));
}

#[test]
fn error_messages() {
    assert_eq!(
        TranscriptionError::EngineLoadFailure("boom".to_string()).message(),
        "Failed to load model: boom"
    );
    assert_eq!(
        TranscriptionError::EngineInferenceFailure("bad audio".to_string()).message(),
        "Transcription failed: bad audio"
    );
    assert_eq!(
        TranscriptionError::ModelNotLoaded.message(),
        "Model is not loaded for transcription"
    );
    assert_eq!(
        TranscriptionError::UnsupportedEngineType.message(),
        "Only Parakeet models are supported"
    );
}
