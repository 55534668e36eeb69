//! Start and stop of playback, shared between the control thread and the
//! render thread.
//!
//! Timestamps are binary64 bit patterns in the host's time domain. The shared
//! slots are sequentially consistent atomics: a value stored by the control
//! thread is what the render thread reads on its next tick. What a slot holds
//! at a given moment depends on the other thread, so the rules are stated on
//! [`window_active`], which takes the three timestamps as plain values.

use crate::binary64::{at_least, ge, is_nan, less_than, lt, MAX_FINITE, POS_INFINITY, POS_ZERO};
use crate::shared::share;
use std::sync::atomic::{AtomicBool, AtomicU64, Ordering};
use std::sync::Arc;
use vstd::prelude::*;

verus! {

/// A 64-bit slot for the bit pattern of a binary64 value. Only `load` and
/// `store` exist, both sequentially consistent; there is no arithmetic.
#[derive(Debug)]
pub struct AtomicF64 {
    inner: AtomicU64,
}

impl AtomicF64 {
    /// A slot that holds `bits`.
    pub fn new(bits: u64) -> (slot: Self) {
        Self { inner: AtomicU64::new(bits) }
    }

    /// The pattern most recently stored by any thread.
    pub fn load(&self) -> (bits: u64) {
        self.inner.load(Ordering::SeqCst)
    }

    /// Replaces the pattern in the slot.
    pub fn store(&self, bits: u64) {
        self.inner.store(bits, Ordering::SeqCst)
    }
}

/// Whether a stream with the window `[start, stop)` sounds at `ts`.
pub open spec fn active_in(start: u64, stop: u64, ts: u64) -> bool {
    ge(ts, start) && lt(ts, stop)
}

/// Decides whether `ts` lies in the half-open window `[start, stop)`.
pub fn window_active(start: u64, stop: u64, ts: u64) -> (active: bool)
    ensures
        active == active_in(start, stop, ts),
{
    at_least(ts, start) && less_than(ts, stop)
}

/// Start and stop timestamps of one audio stream. Clones share the two slots.
#[derive(Debug)]
pub struct Scheduler {
    start: Arc<AtomicF64>,
    stop: Arc<AtomicF64>,
}

impl Scheduler {
    /// A scheduler whose stream is inactive: both timestamps are positive
    /// infinity.
    pub fn new() -> (scheduler: Self) {
        Self {
            start: Arc::new(AtomicF64::new(POS_INFINITY)),
            stop: Arc::new(AtomicF64::new(POS_INFINITY)),
        }
    }

    /// Whether the stream should sound at `ts`: reads `start` and `stop` and
    /// answers as [`window_active`] does on those two. The reads are
    /// independent, so a torn pair may be seen while the control thread is
    /// rescheduling. Whatever was read, a NaN and positive infinity are never
    /// inside a window.
    pub fn is_active(&self, ts: u64) -> (active: bool)
        ensures
            active ==> lt(ts, POS_INFINITY),
    {
        let start: u64 = self.start.load();
        let stop: u64 = self.stop.load();
        window_active(start, stop, ts)
    }

    /// Schedules the start of playback at `start`.
    pub fn start_at(&self, start: u64) {
        self.start.store(start)
    }

    /// Schedules the end of playback at `stop`.
    pub fn stop_at(&self, stop: u64) {
        self.stop.store(stop)
    }
}

impl Clone for Scheduler {
    /// Another handle on the same two slots.
    fn clone(&self) -> (shared: Self)
        ensures
            shared == *self,
    {
        Scheduler { start: share(&self.start), stop: share(&self.stop) }
    }
}

impl Default for Scheduler {
    fn default() -> (scheduler: Self) {
        Self::new()
    }
}

/// Playback controls of a buffered stream: its scheduler, the offset and
/// duration of the played region, and the loop settings.
#[derive(Clone, Debug)]
pub struct Controller {
    scheduler: Arc<Scheduler>,
    offset: Arc<AtomicF64>,
    duration: Arc<AtomicF64>,
    loop_: Arc<AtomicBool>,
    loop_start: Arc<AtomicF64>,
    loop_end: Arc<AtomicF64>,
}

impl Controller {
    /// A controller that is not active: its scheduler is new, the offset is
    /// zero, there is no loop, and the duration and both ends of the loop are
    /// the largest finite value.
    pub fn new() -> (controller: Self) {
        Self {
            scheduler: Arc::new(Scheduler::new()),
            offset: Arc::new(AtomicF64::new(POS_ZERO)),
            duration: Arc::new(AtomicF64::new(MAX_FINITE)),
            loop_: Arc::new(AtomicBool::new(false)),
            loop_start: Arc::new(AtomicF64::new(MAX_FINITE)),
            loop_end: Arc::new(AtomicF64::new(MAX_FINITE)),
        }
    }
}

impl Default for Controller {
    fn default() -> (controller: Self) {
        Self::new()
    }
}

/// The window is half-open: before `start` the stream is silent, from `start`
/// up to but not including `stop` it sounds, and from `stop` on it is silent
/// again. A NaN anywhere means silence.
pub proof fn law_window_is_half_open(start: u64, stop: u64, t: u64)
    ensures
        lt(t, start) ==> !active_in(start, stop, t),
        ge(t, start) && lt(t, stop) ==> active_in(start, stop, t),
        ge(t, stop) ==> !active_in(start, stop, t),
        is_nan(t) || is_nan(start) || is_nan(stop) ==> !active_in(start, stop, t),
{
}

/// A stream that was never started is never active, whatever its stop time.
pub proof fn law_unstarted_is_inactive(stop: u64, t: u64)
    ensures
        !active_in(POS_INFINITY, stop, t),
{
}

/// Once the stop time is reached the stream stays silent: if `t` is not
/// before `stop`, no `u` from `t` on is in the window.
pub proof fn law_stop_is_final(start: u64, stop: u64, t: u64, u: u64)
    requires
        ge(t, stop),
        ge(u, t),
    ensures
        !active_in(start, stop, u),
{
}

} // verus!
