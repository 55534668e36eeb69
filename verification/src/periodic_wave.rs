//! Fourier description of a custom waveform, and the rule that admits one.
//!
//! Coefficients are binary32 bit patterns. Index 0 of each array is the DC
//! term, which must be given and is left out of synthesis; index 1 is the
//! fundamental.

use vstd::prelude::*;

verus! {

/// The binary32 pattern of `0.0`.
pub const COEFF_ZERO: u32 = 0;

/// The binary32 pattern of `1.0`.
pub const COEFF_ONE: u32 = 0x3F80_0000;

/// Fewest coefficients an array may hold: the DC term and the fundamental.
pub const MIN_COEFFS: usize = 2;

/// Options for constructing a periodic wave.
pub struct PeriodicWaveOptions {
    /// Cosine terms of the Fourier series.
    pub real: Vec<u32>,
    /// Sine terms of the Fourier series.
    pub imag: Vec<u32>,
    /// With `false`, the synthesized wave is scaled to a peak of 1; with
    /// `true`, its amplitude is what the coefficients give.
    pub disable_normalization: bool,
}

/// Why a pair of coefficient arrays was turned down.
#[derive(Debug, Copy, Clone, PartialEq, Eq, Structural)]
pub enum ValidationError {
    /// `real` holds fewer than two terms.
    RealTooShort,
    /// `imag` holds fewer than two terms.
    ImagTooShort,
    /// `real` and `imag` differ in length.
    LengthMismatch,
}

/// The verdict on arrays of `real_len` and `imag_len` coefficients: the first
/// rule broken, or `None` when both hold at least two terms and as many as
/// each other.
pub open spec fn length_fault(real_len: nat, imag_len: nat) -> Option<ValidationError> {
    if real_len < 2 {
        Some(ValidationError::RealTooShort)
    } else if imag_len < 2 {
        Some(ValidationError::ImagTooShort)
    } else if real_len != imag_len {
        Some(ValidationError::LengthMismatch)
    } else {
        None
    }
}

/// Checks the lengths of two coefficient arrays.
pub fn check_lengths(real_len: usize, imag_len: usize) -> (fault: Option<ValidationError>)
    ensures
        fault == length_fault(real_len as nat, imag_len as nat),
{
    if real_len < MIN_COEFFS {
        Some(ValidationError::RealTooShort)
    } else if imag_len < MIN_COEFFS {
        Some(ValidationError::ImagTooShort)
    } else if real_len != imag_len {
        Some(ValidationError::LengthMismatch)
    } else {
        None
    }
}

impl ValidationError {
    /// The text of the range error, as shown to the caller.
    pub fn message(&self) -> (text: &'static str)
        ensures
            text@ == match *self {
                ValidationError::RealTooShort => "RangeError: Real field length should be at least 2"@,
                ValidationError::ImagTooShort => "RangeError: Imag field length should be at least 2"@,
                ValidationError::LengthMismatch => "RangeError: Imag and real field length should be equal"@,
            },
    {
        match self {
            ValidationError::RealTooShort => "RangeError: Real field length should be at least 2",
            ValidationError::ImagTooShort => "RangeError: Imag field length should be at least 2",
            ValidationError::LengthMismatch => "RangeError: Imag and real field length should be equal",
        }
    }
}

/// A validated Fourier description of one period of a custom waveform.
#[derive(Debug, Clone)]
pub struct PeriodicWave {
    real: Vec<u32>,
    imag: Vec<u32>,
    disable_normalization: bool,
}

impl PeriodicWave {
    /// The cosine terms.
    pub closed spec fn real_terms(&self) -> Seq<u32> {
        self.real@
    }

    /// The sine terms.
    pub closed spec fn imag_terms(&self) -> Seq<u32> {
        self.imag@
    }

    /// Whether peak normalization is switched off.
    pub closed spec fn normalization_disabled(&self) -> bool {
        self.disable_normalization
    }

    /// What every periodic wave satisfies: as many sine terms as cosine
    /// terms, and at least two of each.
    pub open spec fn well_formed(&self) -> bool {
        self.real_terms().len() == self.imag_terms().len() && self.real_terms().len() >= 2
    }

    /// Builds a periodic wave. Without options it is the sine fundamental:
    /// `real = [0, 0]`, `imag = [0, 1]`, normalized. With options, the arrays
    /// are taken as given.
    ///
    /// Arrays whose lengths [`length_fault`] turns down are no input of this
    /// function: a caller tests them with [`check_lengths`] first.
    pub fn new(options: Option<PeriodicWaveOptions>) -> (built: PeriodicWave)
        requires
            options matches Some(o) ==> length_fault(o.real@.len(), o.imag@.len()) is None,
        ensures
            match options {
                None => built.real_terms() == seq![COEFF_ZERO, COEFF_ZERO]
                    && built.imag_terms() == seq![COEFF_ZERO, COEFF_ONE]
                    && !built.normalization_disabled(),
                Some(o) => built.real_terms() == o.real@
                    && built.imag_terms() == o.imag@
                    && built.normalization_disabled() == o.disable_normalization,
            },
            built.well_formed(),
    {
        match options {
            Some(PeriodicWaveOptions { real: cosines, imag: sines, disable_normalization }) => {
                PeriodicWave { real: cosines, imag: sines, disable_normalization }
            },
            None => {
                let cosines: Vec<u32> = vec![COEFF_ZERO, COEFF_ZERO];
                let sines: Vec<u32> = vec![COEFF_ZERO, COEFF_ONE];
                assert(cosines@ =~= seq![COEFF_ZERO, COEFF_ZERO]);
                assert(sines@ =~= seq![COEFF_ZERO, COEFF_ONE]);
                PeriodicWave { real: cosines, imag: sines, disable_normalization: false }
            },
        }
    }

    /// The wave a renderer starts from when its options name none: the
    /// cosine fundamental, `real = [0, 1]`, `imag = [0, 0]`, normalized.
    pub fn cosine_fundamental() -> (wave: PeriodicWave)
        ensures
            wave.real_terms() == seq![COEFF_ZERO, COEFF_ONE],
            wave.imag_terms() == seq![COEFF_ZERO, COEFF_ZERO],
            !wave.normalization_disabled(),
            wave.well_formed(),
    {
        let cosines: Vec<u32> = vec![COEFF_ZERO, COEFF_ONE];
        let sines: Vec<u32> = vec![COEFF_ZERO, COEFF_ZERO];
        assert(cosines@ =~= seq![COEFF_ZERO, COEFF_ONE]);
        assert(sines@ =~= seq![COEFF_ZERO, COEFF_ZERO]);
        PeriodicWave { real: cosines, imag: sines, disable_normalization: false }
    }

    /// The wave a renderer starts from: the one its options name, or the
    /// cosine fundamental.
    pub fn or_cosine_fundamental(wave: Option<PeriodicWave>) -> (seed: PeriodicWave)
        ensures
            match wave {
                Some(w) => seed == w,
                None => seed.real_terms() == seq![COEFF_ZERO, COEFF_ONE]
                    && seed.imag_terms() == seq![COEFF_ZERO, COEFF_ZERO]
                    && !seed.normalization_disabled(),
            },
            wave is None || wave.unwrap().well_formed() ==> seed.well_formed(),
    {
        match wave {
            Some(w) => w,
            None => PeriodicWave::cosine_fundamental(),
        }
    }

    /// The cosine terms.
    pub fn real_coeffs(&self) -> (terms: &Vec<u32>)
        ensures
            terms@ == self.real_terms(),
    {
        &self.real
    }

    /// The sine terms.
    pub fn imag_coeffs(&self) -> (terms: &Vec<u32>)
        ensures
            terms@ == self.imag_terms(),
    {
        &self.imag
    }

    /// Whether peak normalization is switched off.
    pub fn disable_normalization(&self) -> (disabled: bool)
        ensures
            disabled == self.normalization_disabled(),
    {
        self.disable_normalization
    }

    /// Number of harmonics, the DC term included.
    pub fn len(&self) -> (n: usize)
        ensures
            n == self.real_terms().len(),
    {
        self.real.len()
    }
}

/// Arrays of different lengths, or with fewer than two terms on either side,
/// are turned down, and so are no input of [`PeriodicWave::new`]; all others
/// are admitted.
pub proof fn law_lengths_decide(real_len: nat, imag_len: nat)
    ensures
        real_len != imag_len || real_len < 2 || imag_len < 2 <==> length_fault(real_len, imag_len) is Some,
        length_fault(real_len, imag_len) is None <==> real_len == imag_len && real_len >= 2,
{
}

} // verus!
