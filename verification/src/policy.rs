//! Idle-eviction policy: when the background watcher should release the
//! loaded engine after a period of inactivity.

use vstd::prelude::*;

verus! {

/// When the loaded engine is evicted from memory.
#[derive(Clone, Copy, Debug, PartialEq, Eq, Structural)]
pub enum IdlePolicy {
    /// Keep the engine resident forever.
    Never,
    /// Release the engine right after each finalized recording.
    Immediately,
    /// Release the engine once the last activity is older than this many seconds.
    AfterSeconds(u64),
}

/// The eviction rule the idle watcher applies on each poll: only the
/// `AfterSeconds` policy evicts, and only while an engine is loaded and the
/// last activity lies strictly more than the configured number of seconds in
/// the past. `Immediately` is handled synchronously at finalize, never by
/// polling, and `Never` never evicts.
pub open spec fn spec_should_evict(policy: IdlePolicy, last_ms: u64, now_ms: u64, loaded: bool) -> bool {
    match policy {
        IdlePolicy::AfterSeconds(t) => loaded && (now_ms as int) - (last_ms as int) > (t as int) * 1000,
        _ => false,
    }
}

/// Decision taken by the idle watcher on each poll tick.
pub fn should_evict(policy: &IdlePolicy, last_ms: u64, now_ms: u64, loaded: bool) -> (b: bool)
    ensures
        b == spec_should_evict(*policy, last_ms, now_ms, loaded),
{
    match policy {
        IdlePolicy::AfterSeconds(t) => {
            if !loaded || now_ms <= last_ms {
                false
            } else {
                let idle: u64 = now_ms - last_ms;
                if *t <= u64::MAX / 1000 {
                    idle > *t * 1000
                } else {
                    false
                }
            }
        },
        _ => false,
    }
}

/// Whether finalize must synchronously unload the engine once its result is
/// computed.
pub fn should_unload_after_finalize(policy: &IdlePolicy) -> (b: bool)
    ensures
        b == (*policy matches IdlePolicy::Immediately),
{
    match policy {
        IdlePolicy::Immediately => true,
        _ => false,
    }
}

/// Under the `Never` policy, eviction never occurs, regardless of how much
/// time has elapsed since the last activity.
pub proof fn lemma_never_policy_never_evicts(last_ms: u64, now_ms: u64, loaded: bool)
    ensures
        !spec_should_evict(IdlePolicy::Never, last_ms, now_ms, loaded),
{
}

/// Under `AfterSeconds(t)`, once the engine is loaded and the last activity is
/// older than `t` seconds, the next watcher poll evicts; and an unloaded
/// engine is never evicted again.
pub proof fn lemma_idle_eviction(t: u64, last_ms: u64, now_ms: u64)
    ensures
        (now_ms as int) - (last_ms as int) > (t as int) * 1000 ==> spec_should_evict(
            IdlePolicy::AfterSeconds(t),
            last_ms,
            now_ms,
            true,
        ),
        !spec_should_evict(IdlePolicy::AfterSeconds(t), last_ms, now_ms, false),
{
}

} // verus!
