//! Lifecycle management for a single expensive speech-recognition engine:
//! a single-flight load coordinator, an idle-eviction decision, and the
//! streaming-session accumulation protocol around per-chunk inference.

pub mod catalog;
pub mod errors;
pub mod event;
pub mod manager;
pub mod policy;
pub mod text;

pub use catalog::EngineKind;
pub use catalog::ModelInfo;
pub use errors::TranscriptionError;
pub use event::ModelStateEvent;
pub use manager::FinalizeSource;
pub use manager::TranscriptionManager;
pub use policy::IdlePolicy;
