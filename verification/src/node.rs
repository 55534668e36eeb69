//! The control-thread handle of an oscillator.

use crate::binary32::{negate, negated};
use crate::control::Scheduler;
use crate::message::{periodic_wave_update, OscMsg, CHANNEL_CAPACITY};
use crate::periodic_wave::PeriodicWave;
use crate::renderer::{OscillatorRenderer, PeriodicState};
use crate::waveform::{OscillatorType, TypeHandle};
use vstd::prelude::*;

verus! {

/// The binary32 pattern of 440 Hz, the default frequency.
pub const DEFAULT_FREQUENCY: u32 = 0x43DC_0000;

/// The binary32 pattern of 0 cents, the default detune.
pub const DEFAULT_DETUNE: u32 = 0;

/// The binary32 pattern of 153600 cents, the largest detune.
pub const MAX_DETUNE: u32 = 0x4816_0000;

/// The binary32 pattern of -153600 cents, the smallest detune.
pub const MIN_DETUNE: u32 = 0xC816_0000;

/// How often a parameter's value is sampled.
#[derive(Debug, Copy, Clone, PartialEq, Eq, Structural)]
pub enum AutomationRate {
    /// Once per sample.
    A,
    /// Once per quantum.
    K,
}

/// Range, default and rate of an audio parameter; the values are binary32
/// bit patterns.
#[derive(Debug, Copy, Clone, PartialEq, Eq, Structural)]
pub struct AudioParamOptions {
    pub min_value: u32,
    pub max_value: u32,
    pub default_value: u32,
    pub automation_rate: AutomationRate,
}

/// The frequency parameter of an oscillator whose Nyquist frequency is
/// `nyquist`: between minus and plus `nyquist`, 440 Hz by default, sampled at
/// audio rate.
pub fn frequency_options(nyquist: u32) -> (options: AudioParamOptions)
    ensures
        options == (AudioParamOptions {
            min_value: negated(nyquist),
            max_value: nyquist,
            default_value: DEFAULT_FREQUENCY,
            automation_rate: AutomationRate::A,
        }),
{
    AudioParamOptions {
        min_value: negate(nyquist),
        max_value: nyquist,
        default_value: DEFAULT_FREQUENCY,
        automation_rate: AutomationRate::A,
    }
}

/// The detune parameter of an oscillator: between minus and plus 153600
/// cents, 0 by default, sampled at audio rate.
pub fn detune_options() -> (options: AudioParamOptions)
    ensures
        options == (AudioParamOptions {
            min_value: MIN_DETUNE,
            max_value: MAX_DETUNE,
            default_value: DEFAULT_DETUNE,
            automation_rate: AutomationRate::A,
        }),
        options.min_value == negated(options.max_value),
{
    AudioParamOptions {
        min_value: MIN_DETUNE,
        max_value: MAX_DETUNE,
        default_value: DEFAULT_DETUNE,
        automation_rate: AutomationRate::A,
    }
}

/// Options for constructing an oscillator. Frequency and detune are binary32
/// bit patterns, in Hz and in cents.
#[derive(Debug)]
pub struct OscillatorOptions {
    /// Initial waveform.
    pub type_: OscillatorType,
    /// Initial value of the frequency parameter.
    pub frequency: u32,
    /// Initial value of the detune parameter.
    pub detune: u32,
    /// A custom waveform to start with.
    pub periodic_wave: Option<PeriodicWave>,
}

impl Default for OscillatorOptions {
    /// A sine at 440 Hz, not detuned, without a custom waveform.
    fn default() -> (options: Self)
        ensures
            options.type_ == OscillatorType::Sine,
            options.frequency == DEFAULT_FREQUENCY,
            options.detune == DEFAULT_DETUNE,
            options.periodic_wave is None,
    {
        Self {
            type_: OscillatorType::Sine,
            frequency: DEFAULT_FREQUENCY,
            detune: DEFAULT_DETUNE,
            periodic_wave: None,
        }
    }
}

/// The waveform an oscillator starts with: a custom waveform among the
/// options overrides the waveform they name.
pub open spec fn starting_type(options: OscillatorOptions) -> OscillatorType {
    if options.periodic_wave is Some {
        OscillatorType::Custom
    } else {
        options.type_
    }
}

/// Picks the waveform an oscillator starts with.
pub fn initial_type(options: &OscillatorOptions) -> (t: OscillatorType)
    ensures
        t == starting_type(*options),
{
    match &options.periodic_wave {
        Some(_) => OscillatorType::Custom,
        None => options.type_,
    }
}

/// Why a new custom waveform did not reach the renderer.
#[derive(Debug, Copy, Clone, PartialEq, Eq, Structural)]
pub enum UpdateError {
    /// The wavetable holds no sample, so it has no peak to normalize by.
    EmptyWavetable,
    /// The renderer is gone.
    Disconnected,
}

/// Audio source generating a periodic waveform: the handle through which the
/// control thread selects the waveform, schedules playback and sends custom
/// wavetables.
pub struct OscillatorNode {
    sample_rate: u32,
    type_: TypeHandle,
    scheduler: Scheduler,
    sender: crossbeam_channel::Sender<OscMsg>,
}

impl OscillatorNode {
    /// The sample rate the node was made for, as a binary32 pattern.
    pub closed spec fn sample_rate_bits(&self) -> u32 {
        self.sample_rate
    }

    /// The waveform selector the node writes.
    pub closed spec fn selector(&self) -> TypeHandle {
        self.type_
    }

    /// The scheduler the node writes.
    pub closed spec fn shared_scheduler(&self) -> Scheduler {
        self.scheduler
    }

    /// Makes an oscillator and its renderer. The two hold the same waveform
    /// selector, which starts at [`starting_type`], and the same scheduler,
    /// which starts inactive, and are joined by a channel without a slot. The
    /// renderer starts from the custom waveform state `seed`.
    pub fn new(options: &OscillatorOptions, sample_rate: u32, seed: PeriodicState) -> (pair: (
        OscillatorNode,
        OscillatorRenderer,
    ))
        ensures
            pair.0.sample_rate_bits() == sample_rate,
            pair.1.periodic_state() == seed,
            pair.1.selector() == pair.0.selector(),
            pair.1.scheduler_handle() == pair.0.shared_scheduler(),
    {
        let type_: TypeHandle = TypeHandle::new(initial_type(options));
        let scheduler: Scheduler = Scheduler::new();
        let (sender, receiver) = crossbeam_channel::bounded::<OscMsg>(CHANNEL_CAPACITY);
        let renderer = OscillatorRenderer::new(type_.clone(), scheduler.clone(), receiver, seed);
        let node = OscillatorNode { sample_rate, type_, scheduler, sender };
        (node, renderer)
    }

    /// The sample rate the node was made for, as a binary32 pattern.
    pub fn sample_rate(&self) -> (rate: u32)
        ensures
            rate == self.sample_rate_bits(),
    {
        self.sample_rate
    }

    /// The scheduler of this node, which is the one its renderer asks.
    pub fn scheduler(&self) -> (scheduler: &Scheduler)
        ensures
            *scheduler == self.shared_scheduler(),
    {
        &self.scheduler
    }

    /// An oscillator is a source: it has no input.
    pub fn number_of_inputs(&self) -> (n: u32)
        ensures
            n == 0,
    {
        0
    }

    /// An oscillator has one output, which is mono.
    pub fn number_of_outputs(&self) -> (n: u32)
        ensures
            n == 1,
    {
        1
    }

    /// The ordinal the selector holds now.
    pub fn type_ordinal(&self) -> (i: u32) {
        self.type_.load_ordinal()
    }

    /// The waveform selected now; `None` if the selector holds no waveform's
    /// ordinal.
    pub fn type_(&self) -> (t: Option<OscillatorType>) {
        self.type_.load()
    }

    /// Selects a waveform. The renderer plays it from its next quantum on.
    pub fn set_type(&self, type_: OscillatorType) {
        self.type_.store(type_)
    }

    /// Selects the custom waveform and sends the renderer a wavetable for it.
    /// The call waits until the renderer polls, which it does once per
    /// rendered quantum, or goes away.
    ///
    /// An empty wavetable is turned down without being sent. One that holds
    /// samples is sent once, as the message that [`periodic_wave_update`]
    /// makes of the four arguments; whether it arrives depends on the
    /// renderer.
    pub fn set_periodic_wave(
        &self,
        computed_freq: u32,
        wavetable: Vec<u32>,
        norm_factor: u32,
        disable_normalization: bool,
    ) -> (sent: Result<(), UpdateError>)
        ensures
            wavetable@.len() == 0 <==> sent == Err::<(), UpdateError>(UpdateError::EmptyWavetable),
    {
        self.set_type(OscillatorType::Custom);
        if wavetable.len() == 0 {
            return Err(UpdateError::EmptyWavetable);
        }
        let msg: OscMsg = periodic_wave_update(
            computed_freq,
            wavetable,
            norm_factor,
            disable_normalization,
        );
        match self.sender.send(msg) {
            Ok(_) => Ok(()),
            Err(_) => Err(UpdateError::Disconnected),
        }
    }

    /// Schedules the start of playback at `start`.
    pub fn start(&self, start: u64) {
        self.scheduler.start_at(start)
    }

    /// Schedules the end of playback at `stop`.
    pub fn stop(&self, stop: u64) {
        self.scheduler.stop_at(stop)
    }
}

} // verus!
