//! Lifecycle notifications. Each state transition of the manager produces one
//! of these events; delivering them to a sink is best-effort and never needed
//! for correctness.

use vstd::prelude::*;
use crate::errors::{spec_message, TranscriptionError};

verus! {

/// Payload forwarded to the notification sink after a lifecycle transition.
#[derive(Clone, Debug)]
pub struct ModelStateEvent {
    /// One of `loading_started`, `loading_completed`, `loading_failed`,
    /// `unloaded`.
    pub event_type: String,
    /// The model the transition concerns, when one is known.
    pub model_id: Option<String>,
    /// The catalog's display name for that model, when one is known.
    pub model_name: Option<String>,
    /// The error message, on `loading_failed` only.
    pub error: Option<String>,
}

/// Event emitted right before a load attempt begins.
pub fn loading_started_event(model_id: &str) -> (ev: ModelStateEvent)
    ensures
        ev.event_type@ == "loading_started"@,
        ev.model_id matches Some(id) && id@ == model_id@,
        ev.model_name is None,
        ev.error is None,
{
    ModelStateEvent {
        event_type: "loading_started".to_owned(),
        model_id: Some(model_id.to_owned()),
        model_name: None,
        error: None,
    }
}

/// Event emitted after a load attempt succeeded.
pub fn loading_completed_event(model_id: &str, model_name: &str) -> (ev: ModelStateEvent)
    ensures
        ev.event_type@ == "loading_completed"@,
        ev.model_id matches Some(id) && id@ == model_id@,
        ev.model_name matches Some(n) && n@ == model_name@,
        ev.error is None,
{
    ModelStateEvent {
        event_type: "loading_completed".to_owned(),
        model_id: Some(model_id.to_owned()),
        model_name: Some(model_name.to_owned()),
        error: None,
    }
}

/// Event emitted before a failed load attempt returns its error; carries the
/// model's display name when the catalog supplied one.
pub fn loading_failed_event(model_id: &str, model_name: Option<&str>, error: &TranscriptionError) -> (ev:
    ModelStateEvent)
    ensures
        ev.event_type@ == "loading_failed"@,
        ev.model_id matches Some(id) && id@ == model_id@,
        match model_name {
            Some(n) => ev.model_name matches Some(m) && m@ == n@,
            None => ev.model_name is None,
        },
        ev.error matches Some(e) && e@ == spec_message(*error),
{
    ModelStateEvent {
        event_type: "loading_failed".to_owned(),
        model_id: Some(model_id.to_owned()),
        model_name: match model_name {
            Some(n) => Some(n.to_owned()),
            None => None,
        },
        error: Some(error.message()),
    }
}

/// Event emitted after the engine is released, whether by an explicit unload,
/// by idle eviction, or right after a finalized recording.
pub fn unloaded_event() -> (ev: ModelStateEvent)
    ensures
        ev.event_type@ == "unloaded"@,
        ev.model_id is None,
        ev.model_name is None,
        ev.error is None,
{
    ModelStateEvent { event_type: "unloaded".to_owned(), model_id: None, model_name: None, error: None }
}

} // verus!
