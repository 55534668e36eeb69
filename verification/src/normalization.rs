//! The peak of a wavetable, by which a custom waveform is normalized, and
//! the choice of the gain.
//!
//! The normalization gain is the reciprocal of the largest sample, and there
//! is none when normalization is switched off. Finding the largest sample
//! takes comparisons only, so it is done here on bit patterns; the division
//! is left to floating-point code.

use crate::binary32::{is_nan, is_nan_pattern, less_than, lt};
use vstd::prelude::*;

verus! {

/// The gain of a custom waveform: none when normalization is switched off,
/// else the reciprocal of the peak.
pub open spec fn gain(disabled: bool, reciprocal: u32) -> Option<u32> {
    if disabled {
        None
    } else {
        Some(reciprocal)
    }
}

/// Chooses the gain of a custom waveform, given the reciprocal of its peak.
pub fn seed_gain(disabled: bool, reciprocal: u32) -> (g: Option<u32>)
    ensures
        g == gain(disabled, reciprocal),
{
    if disabled {
        None
    } else {
        Some(reciprocal)
    }
}

/// Whether position `k` holds the peak of `samples`: no sample is above it,
/// it is a NaN only if every sample is, and it is the first position of which
/// both can be said.
pub open spec fn is_peak_at(samples: Seq<u32>, k: int) -> bool {
    &&& 0 <= k < samples.len()
    &&& forall|i: int| 0 <= i < samples.len() ==> !lt(samples[k], #[trigger] samples[i])
    &&& is_nan(samples[k]) ==> forall|i: int| 0 <= i < samples.len() ==> is_nan(#[trigger] samples[i])
    &&& forall|i: int|
        0 <= i < k ==> lt(#[trigger] samples[i], samples[k])
            || (is_nan(samples[i]) && !is_nan(samples[k]))
}

/// Finds the position of the peak. A wavetable without samples has none.
pub fn peak_index(samples: &Vec<u32>) -> (found: Option<usize>)
    ensures
        found is None <==> samples@.len() == 0,
        found matches Some(k) ==> is_peak_at(samples@, k as int),
{
    let n: usize = samples.len();
    if n == 0 {
        return None;
    }
    let mut best: usize = 0;
    let mut i: usize = 1;
    while i < n
        invariant
            n == samples@.len(),
            best < i <= n,
            forall|j: int| 0 <= j < i ==> !lt(samples@[best as int], #[trigger] samples@[j]),
            is_nan(samples@[best as int]) ==> forall|j: int|
                0 <= j < i ==> is_nan(#[trigger] samples@[j]),
            forall|j: int|
                0 <= j < best ==> lt(#[trigger] samples@[j], samples@[best as int])
                    || (is_nan(samples@[j]) && !is_nan(samples@[best as int])),
        decreases n - i,
    {
        let held: u32 = samples[best];
        let next: u32 = samples[i];
        if less_than(held, next) || (is_nan_pattern(held) && !is_nan_pattern(next)) {
            best = i;
        }
        i += 1;
    }
    Some(best)
}

/// The largest sample of a wavetable, NaNs set aside; `None` for a wavetable
/// without samples.
pub fn peak(samples: &Vec<u32>) -> (found: Option<u32>)
    ensures
        found is None <==> samples@.len() == 0,
        found matches Some(p) ==> exists|k: int| is_peak_at(samples@, k) && samples@[k] == p,
{
    match peak_index(samples) {
        None => None,
        Some(k) => Some(samples[k]),
    }
}

/// A wavetable has at most one peak position.
pub proof fn law_peak_is_unique(samples: Seq<u32>, j: int, k: int)
    requires
        is_peak_at(samples, j),
        is_peak_at(samples, k),
    ensures
        j == k,
{
    if j < k {
        assert(!lt(samples[k], samples[j]));
        assert(lt(samples[j], samples[k]) || (is_nan(samples[j]) && !is_nan(samples[k])));
    } else if k < j {
        assert(!lt(samples[j], samples[k]));
        assert(lt(samples[k], samples[j]) || (is_nan(samples[k]) && !is_nan(samples[j])));
    }
}

} // verus!
