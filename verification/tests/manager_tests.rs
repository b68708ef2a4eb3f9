//! Tests of the lifecycle manager: slot consistency, the single-flight load
//! gate, the streaming accumulation protocol, and finalize.

use transcription_core::manager::{
    FinalizeSource, TranscriptionManager, SILENCE_FLUSH_FRAMES, SILENCE_FRAME_SAMPLES,
};
use transcription_core::TranscriptionError;

#[test]
fn fresh_manager_is_empty_and_quiet() {
    let m = TranscriptionManager::new(42);
    assert!(!m.is_model_loaded());
    assert!(m.get_current_model().is_none());
    assert_eq!(m.get_accumulated_text(), "");
}

#[test]
fn reset_then_read_is_empty() {
    let mut m = TranscriptionManager::new(0);
    m.append_chunk("hello");
    assert_eq!(m.get_accumulated_text(), "hello");
    m.reset_streaming_accumulation();
    assert_eq!(m.get_accumulated_text(), "");
}

#[test]
fn chunks_accumulate_with_single_space() {
    let mut m = TranscriptionManager::new(0);
    let first = m.append_chunk("hello");
    assert_eq!(first, "hello");
    let second = m.append_chunk("world");
    assert_eq!(second, "world");
    assert_eq!(m.get_accumulated_text(), "hello world");
}

#[test]
fn append_returns_chunk_level_text_not_accumulation() {
    let mut m = TranscriptionManager::new(0);
    m.append_chunk("one");
    let r = m.append_chunk("two");
    assert_eq!(r, "two");
}

#[test]
fn blank_chunk_leaves_accumulation_alone() {
    let mut m = TranscriptionManager::new(0);
    m.append_chunk("hello");
    let r = m.append_chunk("   ");
    assert_eq!(r, "");
    assert_eq!(m.get_accumulated_text(), "hello");
}

#[test]
fn append_trims_its_chunk() {
    let mut m = TranscriptionManager::new(0);
    let r = m.append_chunk("  spaced out  ");
    assert_eq!(r, "spaced out");
    assert_eq!(m.get_accumulated_text(), "spaced out");
}

#[test]
fn empty_chunk_short_circuits() {
    let mut m = TranscriptionManager::new(0);
    m.append_chunk("kept");
    let proceed = m.begin_chunk(123, 0);
    assert!(!proceed);
    // No engine access and no buffer mutation follow a short-circuit.
    assert_eq!(m.get_accumulated_text(), "kept");
}

#[test]
fn nonempty_chunk_proceeds_and_stamps_activity() {
    let mut m = TranscriptionManager::new(0);
    assert!(m.begin_chunk(123, 2560));
}

#[test]
fn initiate_is_single_flight() {
    let mut m = TranscriptionManager::new(0);
    assert!(m.initiate_model_load());
    // While the first load is in flight, nothing further starts.
    assert!(!m.initiate_model_load());
    assert!(!m.initiate_model_load());
    m.finish_load_attempt();
    // The failed attempt left the slot empty, so a retry may start.
    assert!(m.initiate_model_load());
}

#[test]
fn initiate_noops_when_already_loaded() {
    let mut m = TranscriptionManager::new(0);
    m.complete_load("model-a", "Model A");
    assert!(!m.initiate_model_load());
}

#[test]
fn complete_load_installs_model() {
    let mut m = TranscriptionManager::new(0);
    let ev = m.complete_load("model-a", "Model A");
    assert!(m.is_model_loaded());
    assert_eq!(m.get_current_model().as_deref(), Some("model-a"));
    assert_eq!(ev.event_type, "loading_completed");
    assert_eq!(ev.model_id.as_deref(), Some("model-a"));
    assert_eq!(ev.model_name.as_deref(), Some("Model A"));
    assert!(ev.error.is_none());
}

#[test]
fn unload_clears_slot_and_reports() {
    let mut m = TranscriptionManager::new(0);
    m.complete_load("model-a", "Model A");
    let ev = m.unload_model();
    assert!(!m.is_model_loaded());
    assert!(m.get_current_model().is_none());
    assert_eq!(ev.event_type, "unloaded");
    assert!(ev.model_id.is_none());
    assert!(ev.model_name.is_none());
    assert!(ev.error.is_none());
}

#[test]
fn require_engine_fails_deterministically_when_empty() {
    let m = TranscriptionManager::new(0);
    assert_eq!(m.require_engine(), Err(TranscriptionError::ModelNotLoaded));
}

#[test]
fn require_engine_succeeds_when_loaded() {
    let mut m = TranscriptionManager::new(0);
    m.complete_load("model-a", "Model A");
    assert_eq!(m.require_engine(), Ok(()));
}

#[test]
fn waiters_agree_after_load_resolves() {
    // Two chunk transcriptions wait out one fire-and-forget load; once it
    // resolves they observe the same outcome, whichever it is.
    let mut m = TranscriptionManager::new(0);
    assert!(m.initiate_model_load());
    m.finish_load_attempt();  // the load attempt failed: slot still empty
    let first = m.require_engine();
    let second = m.require_engine();
    assert_eq!(first, second);
    assert_eq!(first, Err(TranscriptionError::ModelNotLoaded));

    assert!(m.initiate_model_load());
    m.complete_load("model-a", "Model A");
    m.finish_load_attempt();  // this attempt succeeded
    let third = m.require_engine();
    let fourth = m.require_engine();
    assert_eq!(third, fourth);
    assert_eq!(third, Ok(()));
}

#[test]
fn finalize_uses_accumulation_when_present() {
    let mut m = TranscriptionManager::new(0);
    m.complete_load("model-a", "Model A");
    m.append_chunk("hello");
    m.append_chunk("world");
    match m.finalize_begin() {
        Ok(FinalizeSource::Accumulated(text)) => assert_eq!(text, "hello world"),
        _ => panic!("expected the accumulated session text"),
    }
    // The capture cleared the buffer for the next recording.
    assert_eq!(m.get_accumulated_text(), "");
}

#[test]
fn finalize_falls_back_to_silence_flush() {
    let mut m = TranscriptionManager::new(0);
    m.complete_load("model-a", "Model A");
    match m.finalize_begin() {
        Ok(FinalizeSource::NeedsFlush) => {}
        _ => panic!("expected the silence-flush path"),
    }
}

#[test]
fn finalize_requires_engine() {
    let mut m = TranscriptionManager::new(0);
    m.append_chunk("kept");
    assert!(matches!(
        m.finalize_begin(),
        Err(TranscriptionError::ModelNotLoaded)
    ));
    // A refused finalize does not eat the session buffer.
    assert_eq!(m.get_accumulated_text(), "kept");
}

#[test]
fn silence_flush_parameters() {
    assert_eq!(SILENCE_FLUSH_FRAMES, 3);
    assert_eq!(SILENCE_FRAME_SAMPLES, 2560);
}
