//! The decisions the render thread takes at the start of each quantum:
//! whether to sound at all, which waveform to play, and whether a new custom
//! wavetable has arrived.

use crate::binary64::{lt, POS_INFINITY};
use crate::control::{active_in, Scheduler};
use crate::message::OscMsg;
use crate::normalization::{gain, seed_gain};
use crate::periodic_wave::{PeriodicWave, COEFF_ONE};
use crate::waveform::{make_silent, OscillatorType, TypeHandle, SILENCE};
use vstd::prelude::*;

verus! {

/// Playback state of the custom wavetable.
#[derive(Debug, Clone)]
pub struct WavetableState {
    /// One period of the waveform.
    pub buffer: Vec<u32>,
    /// Read position, in samples of `buffer`.
    pub phase: u32,
    /// Advance of the read position per output sample.
    pub incr_phase: u32,
    /// The frequency at which `buffer` was built.
    pub ref_freq: u32,
}

/// Rendering state of the custom waveform.
#[derive(Debug, Clone)]
pub struct PeriodicState {
    /// Phase increment of each harmonic, in table units.
    pub incr_phases: Vec<u32>,
    /// Interpolation ratio of each harmonic.
    pub interpol_ratios: Vec<u32>,
    /// Gain that normalizes the peak, if one was derived.
    pub norm_factor: Option<u32>,
    /// Whether normalization is switched off.
    pub disable_normalization: bool,
    /// The wavetable and its read position.
    pub wavetable: WavetableState,
}

impl PeriodicState {
    /// The state a renderer starts from, for the wave `wave` synthesized at
    /// frequency `ref_freq` into `buffer`: the read position is at the start
    /// and advances by one sample, the gain is the reciprocal of the peak
    /// unless the wave switches normalization off, and the per-harmonic
    /// arrays are as given.
    pub fn seeded(
        wave: &PeriodicWave,
        buffer: Vec<u32>,
        reciprocal: u32,
        incr_phases: Vec<u32>,
        interpol_ratios: Vec<u32>,
        ref_freq: u32,
    ) -> (state: PeriodicState)
        ensures
            state.norm_factor == gain(wave.normalization_disabled(), reciprocal),
            state.disable_normalization == wave.normalization_disabled(),
            state.wavetable.buffer == buffer,
            state.wavetable.phase == 0,
            state.wavetable.incr_phase == COEFF_ONE,
            state.wavetable.ref_freq == ref_freq,
            state.incr_phases == incr_phases,
            state.interpol_ratios == interpol_ratios,
    {
        let disabled: bool = wave.disable_normalization();
        PeriodicState {
            incr_phases,
            interpol_ratios,
            norm_factor: seed_gain(disabled, reciprocal),
            disable_normalization: disabled,
            wavetable: WavetableState { buffer, phase: 0, incr_phase: COEFF_ONE, ref_freq },
        }
    }

    /// This state with a new wavetable: the buffer, the frequency it was built
    /// at, the gain and the normalization switch are replaced; the read
    /// position and the per-harmonic arrays stay. With normalization
    /// switched off there is no gain.
    pub open spec fn replaced(
        self,
        ref_freq: u32,
        wavetable: Vec<u32>,
        norm_factor: u32,
        disable_normalization: bool,
    ) -> PeriodicState {
        PeriodicState {
            incr_phases: self.incr_phases,
            interpol_ratios: self.interpol_ratios,
            norm_factor: gain(disable_normalization, norm_factor),
            disable_normalization,
            wavetable: WavetableState {
                buffer: wavetable,
                phase: self.wavetable.phase,
                incr_phase: self.wavetable.incr_phase,
                ref_freq,
            },
        }
    }

    /// Whether the installed wavetable holds at least one sample.
    pub open spec fn has_samples(self) -> bool {
        self.wavetable.buffer@.len() > 0
    }

    /// This state after the render thread has polled the channel and found
    /// `polled`: replaced by the content of a message whose wavetable holds
    /// samples, unchanged without a message or with an empty wavetable.
    pub open spec fn absorbed(self, polled: Option<OscMsg>) -> PeriodicState {
        match polled {
            None => self,
            Some(OscMsg::PeriodicWaveMsg { computed_freq, wavetable, norm_factor, disable_normalization }) =>
                if wavetable@.len() > 0 {
                    self.replaced(computed_freq, wavetable, norm_factor, disable_normalization)
                } else {
                    self
                },
        }
    }

    /// The plan for a quantum in which waveform `t` is selected and the poll
    /// of the channel returned `polled`: `t` is rendered, unless the message
    /// brought an empty wavetable, or `t` is the custom waveform and there is
    /// no sample to play.
    pub open spec fn settled_plan(self, t: OscillatorType, polled: Option<OscMsg>) -> QuantumPlan {
        if is_empty_update(polled)
            || (t == OscillatorType::Custom && !self.absorbed(polled).has_samples()) {
            QuantumPlan::EmptyWavetable
        } else {
            QuantumPlan::Render(t)
        }
    }

    /// Installs a new wavetable.
    pub fn set_periodic_wave(
        &mut self,
        ref_freq: u32,
        wavetable: Vec<u32>,
        norm_factor: u32,
        disable_normalization: bool,
    )
        ensures
            *final(self) == old(self).replaced(ref_freq, wavetable, norm_factor, disable_normalization),
    {
        self.wavetable.ref_freq = ref_freq;
        self.wavetable.buffer = wavetable;
        self.norm_factor = seed_gain(disable_normalization, norm_factor);
        self.disable_normalization = disable_normalization;
    }

    /// Takes in what a poll of the channel returned, and says whether the
    /// poll was in order: it was not if it brought an empty wavetable, which
    /// is dropped.
    pub fn absorb(&mut self, polled: Option<OscMsg>) -> (in_order: bool)
        ensures
            *final(self) == old(self).absorbed(polled),
            in_order == !is_empty_update(polled),
    {
        match polled {
            None => true,
            Some(OscMsg::PeriodicWaveMsg { computed_freq, wavetable, norm_factor, disable_normalization }) => {
                if wavetable.len() > 0 {
                    self.set_periodic_wave(computed_freq, wavetable, norm_factor, disable_normalization);
                    true
                } else {
                    false
                }
            },
        }
    }

    /// Takes in what a poll of the channel returned and settles the plan for
    /// a quantum in which waveform `t` is selected.
    pub fn settle(&mut self, t: OscillatorType, polled: Option<OscMsg>) -> (plan: QuantumPlan)
        ensures
            *final(self) == old(self).absorbed(polled),
            plan == old(self).settled_plan(t, polled),
    {
        let in_order: bool = self.absorb(polled);
        if !in_order || (t == OscillatorType::Custom && self.wavetable.buffer.len() == 0) {
            QuantumPlan::EmptyWavetable
        } else {
            QuantumPlan::Render(t)
        }
    }
}

/// Whether a poll of the channel brought a message without a single sample.
pub open spec fn is_empty_update(polled: Option<OscMsg>) -> bool {
    match polled {
        None => false,
        Some(OscMsg::PeriodicWaveMsg { wavetable, .. }) => wavetable@.len() == 0,
    }
}

/// What the render thread does with one quantum.
#[derive(Debug, Copy, Clone, PartialEq, Eq, Structural)]
pub enum QuantumPlan {
    /// Write silence: the stream is not active.
    Silence,
    /// Write silence and report the ordinal: it names no waveform.
    InvalidType(u32),
    /// Write silence and report a wavetable without samples.
    EmptyWavetable,
    /// Synthesize this waveform.
    Render(OscillatorType),
}

/// The plan for a quantum, given whether the scheduler is active at its
/// timestamp and the ordinal in the waveform selector.
pub open spec fn plan_for(active: bool, ordinal: u32) -> QuantumPlan {
    if !active {
        QuantumPlan::Silence
    } else {
        match OscillatorType::with_ordinal(ordinal) {
            Some(t) => QuantumPlan::Render(t),
            None => QuantumPlan::InvalidType(ordinal),
        }
    }
}

/// Decides what to do with a quantum.
pub fn plan_quantum(active: bool, ordinal: u32) -> (plan: QuantumPlan)
    ensures
        plan == plan_for(active, ordinal),
{
    if !active {
        return QuantumPlan::Silence;
    }
    match OscillatorType::from_ordinal(ordinal) {
        Some(t) => QuantumPlan::Render(t),
        None => QuantumPlan::InvalidType(ordinal),
    }
}

/// The render-thread side of an oscillator: the shared selector and
/// scheduler, the receiving end of the channel, and the custom waveform's
/// state.
pub struct OscillatorRenderer {
    type_: TypeHandle,
    scheduler: Scheduler,
    receiver: crossbeam_channel::Receiver<OscMsg>,
    periodic: PeriodicState,
}

impl OscillatorRenderer {
    /// A renderer that starts from the custom waveform state `periodic`.
    pub fn new(
        type_: TypeHandle,
        scheduler: Scheduler,
        receiver: crossbeam_channel::Receiver<OscMsg>,
        periodic: PeriodicState,
    ) -> (renderer: Self)
        ensures
            renderer.selector() == type_,
            renderer.scheduler_handle() == scheduler,
            renderer.periodic_state() == periodic,
    {
        Self { type_, scheduler, receiver, periodic }
    }

    /// The waveform selector the renderer reads.
    pub closed spec fn selector(&self) -> TypeHandle {
        self.type_
    }

    /// The scheduler the renderer asks.
    pub closed spec fn scheduler_handle(&self) -> Scheduler {
        self.scheduler
    }

    /// Rendering state of the custom waveform.
    pub closed spec fn periodic_state(&self) -> PeriodicState {
        self.periodic
    }

    /// Rendering state of the custom waveform.
    pub fn periodic(&self) -> (state: &PeriodicState)
        ensures
            *state == self.periodic_state(),
    {
        &self.periodic
    }

    /// Rendering state of the custom waveform, for the synthesis loop to
    /// advance.
    pub fn periodic_mut(&mut self) -> (state: &mut PeriodicState)
        ensures
            *state == old(self).periodic_state(),
            final(self).periodic_state() == *final(state),
    {
        &mut self.periodic
    }

    /// Reads what the other thread has set for the quantum that starts at
    /// `timestamp`. Asks the scheduler; if the stream is active, reads the
    /// selector; if that names a waveform, polls the channel once and takes
    /// in what was waiting. The plan is that of [`plan_quantum`] on what was
    /// read, settled by [`PeriodicState::settle`] on what was polled.
    fn next_plan(&mut self, timestamp: u64) -> (plan: QuantumPlan)
        ensures
            !(plan is Silence) ==> lt(timestamp, POS_INFINITY),
            plan matches QuantumPlan::InvalidType(ordinal) ==> ordinal > 4,
            plan is Silence || plan is InvalidType || plan is EmptyWavetable
                ==> final(self).periodic_state() == old(self).periodic_state(),
            exists|polled: Option<OscMsg>|
                final(self).periodic_state() == old(self).periodic_state().absorbed(polled),
            plan == QuantumPlan::Render(OscillatorType::Custom)
                ==> final(self).periodic_state().has_samples(),
    {
        let active: bool = self.scheduler.is_active(timestamp);
        if !active {
            assert(self.periodic == old(self).periodic.absorbed(None));
            return QuantumPlan::Silence;
        }
        let ordinal: u32 = self.type_.load_ordinal();
        match plan_quantum(active, ordinal) {
            QuantumPlan::Render(t) => {
                let polled: Option<OscMsg> = match self.receiver.try_recv() {
                    Ok(msg) => Some(msg),
                    Err(_) => None,
                };
                let plan: QuantumPlan = self.periodic.settle(t, polled);
                assert(self.periodic == old(self).periodic.absorbed(polled));
                plan
            },
            other => {
                assert(self.periodic == old(self).periodic.absorbed(None));
                other
            },
        }
    }

    /// Opens the quantum that starts at `timestamp`, with `output` as its
    /// channel. Asks the scheduler; if the stream is active, reads the
    /// selector; if that names a waveform, polls the channel once and takes
    /// in what was waiting. Unless a waveform is to be rendered, the channel
    /// is filled with silence. The plan is that of [`plan_quantum`] on what
    /// was read, settled by [`PeriodicState::settle`] on what was polled.
    ///
    /// Whatever the other thread did: only silence is planned at a NaN or
    /// infinite timestamp, an ordinal is reported only if it names no
    /// waveform, the custom state changes by at most one message, only when
    /// a waveform is rendered, and never loses its samples, the custom
    /// waveform is rendered only from a
    /// wavetable that holds samples, and the channel is either left for the
    /// synthesis to fill or silent throughout.
    pub fn begin_quantum(&mut self, timestamp: u64, output: &mut Vec<u32>) -> (plan: QuantumPlan)
        ensures
            !(plan is Silence) ==> lt(timestamp, POS_INFINITY),
            plan matches QuantumPlan::InvalidType(ordinal) ==> ordinal > 4,
            plan is Silence || plan is InvalidType || plan is EmptyWavetable
                ==> final(self).periodic_state() == old(self).periodic_state(),
            exists|polled: Option<OscMsg>|
                final(self).periodic_state() == old(self).periodic_state().absorbed(polled),
            old(self).periodic_state().has_samples() ==> final(self).periodic_state().has_samples(),
            plan == QuantumPlan::Render(OscillatorType::Custom)
                ==> final(self).periodic_state().has_samples(),
            final(output)@.len() == old(output)@.len(),
            plan is Render ==> final(output)@ == old(output)@,
            !(plan is Render) ==> forall|i: int|
                0 <= i < final(output)@.len() ==> final(output)@[i] == SILENCE,
    {
        let plan: QuantumPlan = self.next_plan(timestamp);
        match plan {
            QuantumPlan::Render(_) => {},
            _ => {
                make_silent(output);
            },
        }
        plan
    }

    /// An oscillator is a source: it may sound with no input, so it always
    /// has a tail.
    pub fn tail_time(&self) -> (tail: bool)
        ensures
            tail,
    {
        true
    }
}

/// While the stream is not active every quantum is silence, whatever the
/// selector holds; while it is, a waveform is rendered exactly when the
/// selector names one.
pub proof fn law_plan_follows_gate(active: bool, ordinal: u32)
    ensures
        !active ==> plan_for(active, ordinal) == QuantumPlan::Silence,
        active && ordinal <= 4 ==> plan_for(active, ordinal) == QuantumPlan::Render(
            OscillatorType::with_ordinal(ordinal).unwrap(),
        ),
        active && ordinal > 4 ==> plan_for(active, ordinal) == QuantumPlan::InvalidType(ordinal),
{
}

/// With a scheduler that was never started, the plan for every quantum is
/// silence: whatever the timestamp, the stop time and the selector.
pub proof fn law_unstarted_quantum_is_silent(stop: u64, timestamp: u64, ordinal: u32)
    ensures
        plan_for(active_in(POS_INFINITY, stop, timestamp), ordinal) == QuantumPlan::Silence,
{
}

/// Taking in a poll never empties the wavetable, and changes nothing when
/// the poll brought nothing to play.
pub proof fn law_absorb_keeps_samples(state: PeriodicState, polled: Option<OscMsg>)
    ensures
        state.has_samples() ==> state.absorbed(polled).has_samples(),
        polled is None || is_empty_update(polled) ==> state.absorbed(polled) == state,
        state.settled_plan(OscillatorType::Custom, polled) == QuantumPlan::Render(
            OscillatorType::Custom,
        ) ==> state.absorbed(polled).has_samples(),
{
}

} // verus!
