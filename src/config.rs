//! Tunable parameters shared by every stage.
use vstd::prelude::*;

verus! {

/// A level of `LEVEL_SCALE` stands for full scale; levels are counted in
/// millionths of it.
pub const LEVEL_SCALE: u32 = 1_000_000;

/// A multiplier of `MULTIPLIER_SCALE` stands for a factor of one;
/// multipliers are counted in thousandths.
pub const MULTIPLIER_SCALE: u32 = 1000;

/// Tunable parameters. Frequencies are whole hertz, multipliers are in
/// thousandths (`MULTIPLIER_SCALE`), the threshold is a level (`LEVEL_SCALE`).
#[derive(Clone, Copy, Debug, PartialEq, Eq, Structural)]
pub struct AudioConfig {
    /// Sample rate in Hz.
    pub sample_rate: u32,
    /// Number of samples analysed at once; a power of two for the transform.
    pub buffer_size: usize,
    /// Highest frequency, in Hz, that counts as bass.
    pub bass_freq_max: u32,
    /// Factor applied to the bass share of the spectrum, in thousandths.
    pub bass_energy_multiplier: u32,
    /// Bass energy above which, with enough loudness, a drop is reported.
    pub drop_detection_threshold: u32,
    /// Factor applied to the RMS of the buffer, in thousandths.
    pub loudness_multiplier: u32,
    /// Period of the analysis and control tasks, in milliseconds.
    pub update_interval_ms: u64,
}

pub open spec fn is_power_of_two(n: nat) -> bool
    decreases n,
{
    if n <= 1 {
        n == 1
    } else {
        n % 2 == 0 && is_power_of_two(n / 2)
    }
}

impl AudioConfig {
    /// The ranges in which a configuration is meaningful. The stages accept
    /// any configuration; validating it is up to whoever supplies it.
    pub open spec fn is_valid(&self) -> bool {
        &&& self.sample_rate > 0
        &&& is_power_of_two(self.buffer_size as nat)
        &&& 2 * self.bass_freq_max <= self.sample_rate
        &&& self.bass_energy_multiplier > 0
        &&& self.loudness_multiplier > 0
        &&& self.update_interval_ms > 0
    }
}

impl Default for AudioConfig {
    fn default() -> (r: Self)
        ensures
            r.sample_rate == 44100,
            r.buffer_size == 2048,
            r.bass_freq_max == 250,
            r.bass_energy_multiplier == 2500,
            r.drop_detection_threshold == 800_000,
            r.loudness_multiplier == 10_000,
            r.update_interval_ms == 50,
            r.is_valid(),
    {
        let r = AudioConfig {
            sample_rate: 44100,
            buffer_size: 2048,
            bass_freq_max: 250,
            bass_energy_multiplier: 2500,
            drop_detection_threshold: 800_000,
            loudness_multiplier: 10_000,
            update_interval_ms: 50,
        };
        proof {
            reveal_with_fuel(is_power_of_two, 12);
        }
        r
    }
}

} // verus!
