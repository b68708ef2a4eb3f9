//! The resource-lifecycle manager: an exclusive slot for the loaded engine,
//! the single-flight load coordinator, the activity clock the idle watcher
//! reads, and the streaming-session accumulation buffer.
//!
//! The manager is the sequential core: one value of [`TranscriptionManager`]
//! describes the slot between two transitions, and every transition is a
//! method with a contract. The caller owns the opaque engine handle itself,
//! drives inference, waits on the load coordinator, and delivers the returned
//! [`ModelStateEvent`]s to its notification sink; this type decides, for each
//! transition, what the next state is and what the caller owes.

use vstd::prelude::*;
use crate::errors::TranscriptionError;
use crate::event::{
    loading_completed_event,
    unloaded_event,
    ModelStateEvent,
};
use crate::text::{trim_spec, trim_text};

verus! {

/// Where finalize takes its result from: the text accumulated over the
/// session's chunks, or — when nothing accumulated — a flush of the engine's
/// internal buffer with a few silence frames.
pub enum FinalizeSource {
    /// The captured, non-empty session accumulation; it is the result.
    Accumulated(String),
    /// Nothing accumulated: the caller must flush the engine with
    /// `SILENCE_FLUSH_FRAMES` silence frames of `SILENCE_FRAME_SAMPLES`
    /// samples each, final-flagged, and concatenate what they emit.
    NeedsFlush,
}

/// How many silence frames a finalize flush feeds the engine.
pub const SILENCE_FLUSH_FRAMES: usize = 3;

/// Samples per silence frame: 160 ms at the engine's 16 kHz sample rate.
pub const SILENCE_FRAME_SAMPLES: usize = 2560;

/// How one chunk's text lands in the session accumulation: the chunk is
/// trimmed; a blank chunk changes nothing; otherwise it is appended, behind a
/// single separating space when the buffer already holds text.
pub open spec fn spec_append(acc: Seq<char>, chunk: Seq<char>) -> Seq<char> {
    if trim_spec(chunk).len() == 0 {
        acc
    } else if acc.len() == 0 {
        trim_spec(chunk)
    } else {
        acc + seq![' '] + trim_spec(chunk)
    }
}

/// Lifecycle state of the single engine slot and its streaming session.
pub struct TranscriptionManager {
    engine_loaded: bool,
    current_model_id: Option<String>,
    last_activity_ms: u64,
    is_loading: bool,
    accumulation: String,
}

impl TranscriptionManager {
    /// Whether the slot holds a loaded engine.
    pub closed spec fn loaded(self) -> bool {
        self.engine_loaded
    }

    /// The identifier of the loaded model, if one is loaded.
    pub closed spec fn model_id(self) -> Option<Seq<char>> {
        match self.current_model_id {
            Some(id) => Some(id@),
            None => None,
        }
    }

    /// Whether a load is in flight; chunk transcription must wait while this
    /// holds.
    pub closed spec fn loading(self) -> bool {
        self.is_loading
    }

    /// Millisecond timestamp of the last transcription activity.
    pub closed spec fn last_activity(self) -> u64 {
        self.last_activity_ms
    }

    /// The text accumulated across the chunks of the current session.
    pub closed spec fn accumulated(self) -> Seq<char> {
        self.accumulation@
    }

    /// Slot consistency: an engine is resident exactly when a model
    /// identifier is recorded. Every transition preserves it.
    pub open spec fn wf(self) -> bool {
        self.loaded() <==> self.model_id() is Some
    }

    /// When a fire-and-forget load may start: only while no load is in
    /// flight and no engine is resident.
    pub open spec fn can_initiate(self) -> bool {
        !self.loading() && !self.loaded()
    }

    /// A fresh manager: empty slot, no load in flight, empty session, with
    /// the activity clock set to the present so the idle watcher does not
    /// evict before any use.
    pub fn new(now_ms: u64) -> (m: Self)
        ensures
            m.wf(),
            !m.loaded(),
            !m.loading(),
            m.model_id() is None,
            m.last_activity() == now_ms,
            m.accumulated() == Seq::<char>::empty(),
    {
        TranscriptionManager {
            engine_loaded: false,
            current_model_id: None,
            last_activity_ms: now_ms,
            is_loading: false,
            accumulation: String::new(),
        }
    }

    /// Whether an engine is currently resident.
    pub fn is_model_loaded(&self) -> (b: bool)
        ensures
            b == self.loaded(),
    {
        self.engine_loaded
    }

    /// Whether a load is in flight. A chunk transcription re-checks this on
    /// every wake and proceeds only once it is false.
    pub fn is_load_in_flight(&self) -> (b: bool)
        ensures
            b == self.loading(),
    {
        self.is_loading
    }

    /// The activity clock's current value, read by the idle watcher on each
    /// poll.
    pub fn last_activity_ms(&self) -> (t: u64)
        ensures
            t == self.last_activity(),
    {
        self.last_activity_ms
    }

    /// The identifier of the loaded model, if any.
    pub fn get_current_model(&self) -> (r: Option<String>)
        ensures
            match r {
                Some(id) => self.model_id() == Some(id@),
                None => self.model_id() is None,
            },
    {
        match &self.current_model_id {
            Some(id) => Some(id.clone()),
            None => None,
        }
    }

    /// Releases the engine: empties the slot and clears the model
    /// identifier, leaving the session buffer, the activity clock and the
    /// loading flag alone. The caller must drop its engine handle and emit
    /// the returned `unloaded` event.
    pub fn unload_model(&mut self) -> (ev: ModelStateEvent)
        ensures
            final(self).wf(),
            !final(self).loaded(),
            final(self).model_id() is None,
            final(self).loading() == old(self).loading(),
            final(self).last_activity() == old(self).last_activity(),
            final(self).accumulated() == old(self).accumulated(),
            ev.event_type@ == "unloaded"@,
            ev.model_id is None,
            ev.model_name is None,
            ev.error is None,
    {
        self.engine_loaded = false;
        self.current_model_id = None;
        unloaded_event()
    }

    /// Installs a successfully loaded engine: records the model identifier
    /// together with the occupied slot, so consistency holds at the very
    /// transition. The caller must place its engine handle in service and
    /// emit the returned `loading_completed` event.
    pub fn complete_load(&mut self, model_id: &str, model_name: &str) -> (ev: ModelStateEvent)
        ensures
            final(self).wf(),
            final(self).loaded(),
            final(self).model_id() == Some(model_id@),
            final(self).loading() == old(self).loading(),
            final(self).last_activity() == old(self).last_activity(),
            final(self).accumulated() == old(self).accumulated(),
            ev.event_type@ == "loading_completed"@,
            ev.model_id matches Some(id) && id@ == model_id@,
            ev.model_name matches Some(n) && n@ == model_name@,
            ev.error is None,
    {
        self.engine_loaded = true;
        self.current_model_id = Some(model_id.to_owned());
        loading_completed_event(model_id, model_name)
    }

    /// Single-flight gate for the fire-and-forget load: under the loading
    /// flag's lock, no-ops when a load is already in flight or an engine is
    /// already resident; otherwise raises the flag. Returns whether the
    /// caller must now spawn the one load attempt, which ends — success or
    /// failure — with [`Self::finish_load_attempt`].
    pub fn initiate_model_load(&mut self) -> (started: bool)
        ensures
            started == old(self).can_initiate(),
            final(self).loading() == (old(self).loading() || started),
            final(self).loaded() == old(self).loaded(),
            final(self).model_id() == old(self).model_id(),
            final(self).last_activity() == old(self).last_activity(),
            final(self).accumulated() == old(self).accumulated(),
            old(self).wf() ==> final(self).wf(),
    {
        if self.is_loading || self.engine_loaded {
            false
        } else {
            self.is_loading = true;
            true
        }
    }

    /// Ends the in-flight load attempt, success or failure: clears the
    /// loading flag. The caller must then wake every waiter blocked on the
    /// flag.
    pub fn finish_load_attempt(&mut self)
        ensures
            !final(self).loading(),
            final(self).loaded() == old(self).loaded(),
            final(self).model_id() == old(self).model_id(),
            final(self).last_activity() == old(self).last_activity(),
            final(self).accumulated() == old(self).accumulated(),
            old(self).wf() ==> final(self).wf(),
    {
        self.is_loading = false;
    }

    /// Clears the session accumulation buffer; called at the start of a new
    /// recording.
    pub fn reset_streaming_accumulation(&mut self)
        ensures
            final(self).accumulated() == Seq::<char>::empty(),
            final(self).loaded() == old(self).loaded(),
            final(self).model_id() == old(self).model_id(),
            final(self).loading() == old(self).loading(),
            final(self).last_activity() == old(self).last_activity(),
            old(self).wf() ==> final(self).wf(),
    {
        self.accumulation = String::new();
    }

    /// The text accumulated so far in this session, for real-time display.
    pub fn get_accumulated_text(&self) -> (r: String)
        ensures
            r@ == self.accumulated(),
    {
        self.accumulation.clone()
    }

    /// First step of a chunk transcription: stamps the activity clock, and
    /// short-circuits an empty chunk. Returns whether the caller should
    /// proceed to the engine at all: on `false` the chunk's result is the
    /// empty string, with no engine access and no buffer mutation.
    pub fn begin_chunk(&mut self, now_ms: u64, chunk_len: usize) -> (proceed: bool)
        ensures
            proceed == (chunk_len > 0),
            final(self).last_activity() == now_ms,
            final(self).loaded() == old(self).loaded(),
            final(self).model_id() == old(self).model_id(),
            final(self).loading() == old(self).loading(),
            final(self).accumulated() == old(self).accumulated(),
            old(self).wf() ==> final(self).wf(),
    {
        self.last_activity_ms = now_ms;
        chunk_len > 0
    }

    /// The check a chunk transcription makes once the load coordinator is
    /// quiet: after waiting out an in-flight load, either an engine is
    /// resident or the chunk fails with `ModelNotLoaded` — deterministically,
    /// never with a half-initialized engine.
    pub fn require_engine(&self) -> (r: Result<(), TranscriptionError>)
        requires
            !self.loading(),
        ensures
            r is Ok <==> self.loaded(),
            r matches Err(e) ==> e == TranscriptionError::ModelNotLoaded,
    {
        if self.engine_loaded {
            Ok(())
        } else {
            Err(TranscriptionError::ModelNotLoaded)
        }
    }

    /// Last step of a chunk transcription, after cleanup and any word
    /// correction: trims the chunk text and, when the trimmed text is
    /// non-empty, appends it to the session accumulation with a single
    /// separating space if the buffer already holds text. Returns the
    /// chunk-level text — never the full accumulation.
    pub fn append_chunk(&mut self, text: &str) -> (r: String)
        ensures
            r@ == trim_spec(text@),
            final(self).accumulated() == spec_append(old(self).accumulated(), text@),
            final(self).loaded() == old(self).loaded(),
            final(self).model_id() == old(self).model_id(),
            final(self).loading() == old(self).loading(),
            final(self).last_activity() == old(self).last_activity(),
            old(self).wf() ==> final(self).wf(),
    {
        let ghost pre_acc = self.accumulation@;
        let chunk = trim_text(text);
        if !chunk.as_str().is_empty() {
            if !self.accumulation.as_str().is_empty() {
                self.accumulation.append(" ");
                proof {
                    reveal_strlit(" ");
                    assert(self.accumulation@ =~= pre_acc + seq![' ']);
                }
            }
            self.accumulation.append(chunk.as_str());
            proof {
                if pre_acc.len() > 0 {
                    assert(self.accumulation@ =~= pre_acc + seq![' '] + chunk@);
                } else {
                    assert(self.accumulation@ =~= chunk@);
                }
            }
        }
        chunk
    }

    /// Opens finalize: requires a resident engine, then atomically captures
    /// and clears the session accumulation. A non-empty capture is the
    /// result; an empty one sends the caller down the silence-flush path.
    pub fn finalize_begin(&mut self) -> (r: Result<FinalizeSource, TranscriptionError>)
        ensures
            final(self).loaded() == old(self).loaded(),
            final(self).model_id() == old(self).model_id(),
            final(self).loading() == old(self).loading(),
            final(self).last_activity() == old(self).last_activity(),
            old(self).wf() ==> final(self).wf(),
            match r {
                Ok(FinalizeSource::Accumulated(text)) => old(self).loaded()
                    && text@ == old(self).accumulated()
                    && text@.len() > 0
                    && final(self).accumulated() == Seq::<char>::empty(),
                Ok(FinalizeSource::NeedsFlush) => old(self).loaded()
                    && old(self).accumulated() == Seq::<char>::empty()
                    && final(self).accumulated() == Seq::<char>::empty(),
                Err(e) => e == TranscriptionError::ModelNotLoaded
                    && !old(self).loaded()
                    && final(self).accumulated() == old(self).accumulated(),
            },
    {
        if !self.engine_loaded {
            return Err(TranscriptionError::ModelNotLoaded);
        }
        let captured = self.accumulation.clone();
        self.accumulation = String::new();
        if captured.as_str().is_empty() {
            proof {
                assert(captured@ =~= Seq::<char>::empty());
            }
            Ok(FinalizeSource::NeedsFlush)
        } else {
            Ok(FinalizeSource::Accumulated(captured))
        }
    }
}

/// Consistency law for the slot: in every well-formed state — and every
/// transition of this type preserves well-formedness — an engine is resident
/// exactly when a model identifier is recorded.
pub proof fn lemma_slot_consistency(m: TranscriptionManager)
    requires
        m.wf(),
    ensures
        m.loaded() <==> m.model_id() is Some,
{
}

/// Single-flight law: while one load is in flight, or an engine is already
/// resident, no further initiate can start another load attempt; with the
/// gate taken under the loading flag's lock, any number of concurrent
/// initiates produce exactly one underlying load.
pub proof fn lemma_single_flight(m: TranscriptionManager)
    requires
        m.loading() || m.loaded(),
    ensures
        !m.can_initiate(),
{
}

/// Reset law: a reset leaves the session buffer empty, so a read of the
/// accumulated text right after it — which returns exactly the buffer —
/// yields the empty string.
pub proof fn lemma_reset_reads_empty(m: TranscriptionManager, r: Seq<char>)
    requires
        m.accumulated() == Seq::<char>::empty(),
        r == m.accumulated(),
    ensures
        r == Seq::<char>::empty(),
{
}

/// Accumulation law: two non-blank chunks land in the session in call order,
/// separated by exactly one space — starting from the empty buffer a session
/// of two chunks reads first, space, second.
pub proof fn lemma_accumulation(c1: Seq<char>, c2: Seq<char>)
    requires
        trim_spec(c1).len() > 0,
        trim_spec(c2).len() > 0,
    ensures
        spec_append(spec_append(Seq::empty(), c1), c2) == trim_spec(c1) + seq![' '] + trim_spec(c2),
{
}

/// Agreement law for waiters: two chunk transcriptions that checked the same
/// quiescent state — each result as [`TranscriptionManager::require_engine`]
/// promises it —
/// either both proceed to the engine or both observe `ModelNotLoaded`; no
/// caller ever observes a half-initialized engine.
pub proof fn lemma_waiters_agree(
    m: TranscriptionManager,
    r1: Result<(), TranscriptionError>,
    r2: Result<(), TranscriptionError>,
)
    requires
        r1 is Ok <==> m.loaded(),
        r2 is Ok <==> m.loaded(),
    ensures
        r1 is Ok <==> r2 is Ok,
{
}

} // verus!
