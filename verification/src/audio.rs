//! What the session needs to know of captured audio: its length in time.

use vstd::prelude::*;

verus! {

/// Samples per second of captured audio.
pub const SAMPLE_RATE: u32 = 16000;

/// Milliseconds that `samples` samples last at `rate` samples per second,
/// rounded down.
pub open spec fn duration_of(samples: nat, rate: nat) -> nat {
    samples * 1000 / rate
}

/// Milliseconds that `samples` captured samples last.
pub fn calculate_duration_ms(samples: usize) -> (ms: u64)
    ensures
        ms == duration_of(samples as nat, SAMPLE_RATE as nat),
{
    let total: u128 = (samples as u128) * 1000u128;
    let ms: u128 = total / (SAMPLE_RATE as u128);
    ms as u64
}

} // verus!
