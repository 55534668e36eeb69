//! The five waveforms, their ordinals, the cell through which the control
//! thread tells the render thread which one to play, and the integer side of
//! table lookup and of silence.

use crate::shared::share;
use std::sync::atomic::{AtomicU32, Ordering};
use std::sync::Arc;
use vstd::prelude::*;

verus! {

/// Number of samples in one period of the sine lookup table.
pub const TABLE_LENGTH: usize = 2048;

/// Number of samples the host asks for on each render tick.
pub const RENDER_QUANTUM_SIZE: usize = 128;

/// The binary32 pattern of a silent sample, positive zero.
pub const SILENCE: u32 = 0;

/// Waveform of an oscillator.
#[derive(Debug, Copy, Clone, PartialEq, Eq, Structural)]
pub enum OscillatorType {
    Sine,
    Square,
    Sawtooth,
    Triangle,
    Custom,
}

impl OscillatorType {
    /// The ordinal under which a waveform crosses the thread boundary.
    pub open spec fn ordinal_of(self) -> u32 {
        match self {
            OscillatorType::Sine => 0,
            OscillatorType::Square => 1,
            OscillatorType::Sawtooth => 2,
            OscillatorType::Triangle => 3,
            OscillatorType::Custom => 4,
        }
    }

    /// The waveform with ordinal `i`, if there is one.
    pub open spec fn with_ordinal(i: u32) -> Option<OscillatorType> {
        if i == 0 {
            Some(OscillatorType::Sine)
        } else if i == 1 {
            Some(OscillatorType::Square)
        } else if i == 2 {
            Some(OscillatorType::Sawtooth)
        } else if i == 3 {
            Some(OscillatorType::Triangle)
        } else if i == 4 {
            Some(OscillatorType::Custom)
        } else {
            None
        }
    }

    /// The ordinal of this waveform, between 0 and 4.
    pub fn ordinal(self) -> (i: u32)
        ensures
            i == self.ordinal_of(),
            i <= 4,
    {
        match self {
            OscillatorType::Sine => 0,
            OscillatorType::Square => 1,
            OscillatorType::Sawtooth => 2,
            OscillatorType::Triangle => 3,
            OscillatorType::Custom => 4,
        }
    }

    /// The waveform with ordinal `i`, for callers that hold an ordinal of a
    /// waveform. An ordinal above 4 is no input of this function.
    pub fn from(i: u32) -> (t: OscillatorType)
        requires
            i <= 4,
        ensures
            Some(t) == OscillatorType::with_ordinal(i),
            t.ordinal_of() == i,
    {
        match i {
            0 => OscillatorType::Sine,
            1 => OscillatorType::Square,
            2 => OscillatorType::Sawtooth,
            3 => OscillatorType::Triangle,
            _ => OscillatorType::Custom,
        }
    }

    /// The waveform with ordinal `i`; `None` for every `i` above 4, which no
    /// waveform has.
    pub fn from_ordinal(i: u32) -> (t: Option<OscillatorType>)
        ensures
            t == OscillatorType::with_ordinal(i),
            t is Some <==> i <= 4,
    {
        match i {
            0 => Some(OscillatorType::Sine),
            1 => Some(OscillatorType::Square),
            2 => Some(OscillatorType::Sawtooth),
            3 => Some(OscillatorType::Triangle),
            4 => Some(OscillatorType::Custom),
            _ => None,
        }
    }
}

impl Default for OscillatorType {
    /// A sine.
    fn default() -> (t: Self)
        ensures
            t == OscillatorType::Sine,
    {
        OscillatorType::Sine
    }
}

/// Every waveform is found again from its ordinal, and every ordinal up to 4
/// is the ordinal of the waveform it names.
pub proof fn law_ordinal_round_trip(t: OscillatorType, i: u32)
    ensures
        OscillatorType::with_ordinal(t.ordinal_of()) == Some(t),
        i <= 4 ==> OscillatorType::with_ordinal(i).unwrap().ordinal_of() == i,
        i > 4 ==> OscillatorType::with_ordinal(i) is None,
{
}

/// The waveform selector shared by a node and its renderer: an atomic ordinal
/// with sequentially consistent access. Clones share the cell.
#[derive(Debug)]
pub struct TypeHandle {
    ordinal: Arc<AtomicU32>,
}

impl Clone for TypeHandle {
    /// Another handle on the same cell.
    fn clone(&self) -> (shared: Self)
        ensures
            shared == *self,
    {
        TypeHandle { ordinal: share(&self.ordinal) }
    }
}

impl TypeHandle {
    /// A cell that selects `t`.
    pub fn new(t: OscillatorType) -> (handle: Self) {
        Self { ordinal: Arc::new(AtomicU32::new(t.ordinal())) }
    }

    /// The ordinal the cell holds now.
    pub fn load_ordinal(&self) -> (i: u32) {
        self.ordinal.load(Ordering::SeqCst)
    }

    /// The waveform selected now; `None` if the cell holds no waveform's
    /// ordinal.
    pub fn load(&self) -> (t: Option<OscillatorType>) {
        OscillatorType::from_ordinal(self.load_ordinal())
    }

    /// Selects `t`.
    pub fn store(&self, t: OscillatorType) {
        self.ordinal.store(t.ordinal(), Ordering::SeqCst)
    }
}

/// The two table positions between which a lookup at integer phase `idx`
/// interpolates: `idx` and its successor, both wrapped to the table.
pub fn table_indices(idx: usize) -> (pair: (usize, usize))
    ensures
        pair.0 == idx % TABLE_LENGTH,
        pair.1 == (idx + 1) % (TABLE_LENGTH as int),
        pair.0 < TABLE_LENGTH,
        pair.1 < TABLE_LENGTH,
{
    let inf_idx: usize = idx % TABLE_LENGTH;
    let sup_idx: usize = (inf_idx + 1) % TABLE_LENGTH;
    (inf_idx, sup_idx)
}

/// Overwrites every sample of `output` with silence.
pub fn make_silent(output: &mut Vec<u32>)
    ensures
        final(output)@.len() == old(output)@.len(),
        forall|i: int| 0 <= i < final(output)@.len() ==> final(output)@[i] == SILENCE,
{
    let n: usize = output.len();
    let mut i: usize = 0;
    while i < n
        invariant
            i <= n,
            output@.len() == n,
            forall|j: int| 0 <= j < i ==> output@[j] == SILENCE,
        decreases n - i,
    {
        output.set(i, SILENCE);
        i += 1;
    }
}

} // verus!
