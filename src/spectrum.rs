//! Which bins of a forward transform of the analysis window count as bass,
//! and which count toward the total.
use vstd::prelude::*;
use crate::config::AudioConfig;

verus! {

/// Bin 0, the DC component, is never counted.
pub const FIRST_BIN: usize = 1;

/// The first bin above the bass cutoff: `floor(bass_freq_max / bin_width)`
/// with `bin_width = sample_rate / buffer_size`.
pub open spec fn bass_bin_max(sample_rate: nat, buffer_size: nat, bass_freq_max: nat) -> nat
    recommends
        sample_rate > 0,
{
    bass_freq_max * buffer_size / sample_rate
}

/// The bins to sum: bass energy over `[FIRST_BIN, bass_end)`, total energy
/// over `[FIRST_BIN, total_end)`.
#[derive(Clone, Copy, Debug, PartialEq, Eq, Structural)]
pub struct BinPlan {
    pub bass_end: usize,
    pub total_end: usize,
}

impl BinPlan {
    /// Both ranges hold at least one bin, the bass range lies within the
    /// total one, and both lie below the Nyquist bin of a transform of
    /// `buffer_size` points.
    pub open spec fn is_valid(&self, buffer_size: nat) -> bool {
        &&& FIRST_BIN < self.bass_end
        &&& self.bass_end <= self.total_end
        &&& self.total_end == buffer_size / 2
    }
}

/// Whether a configuration leaves at least one bin in the bass range: the
/// cutoff reaches bin 2, and the transform has at least 4 points so that a
/// bin lies between DC and Nyquist. A zero sample rate leaves none.
pub open spec fn has_bass_bins(config: AudioConfig) -> bool {
    &&& config.sample_rate > 0
    &&& bass_bin_max(
        config.sample_rate as nat,
        config.buffer_size as nat,
        config.bass_freq_max as nat,
    ) >= 2
    &&& config.buffer_size / 2 >= 2
}

/// The bins that a configuration asks for, or `None` where the bass range
/// would hold no bin.
pub fn plan_bins(config: &AudioConfig) -> (r: Option<BinPlan>)
    ensures
        r is None <==> !has_bass_bins(*config),
        r matches Some(p) ==> {
            let m = bass_bin_max(
                config.sample_rate as nat,
                config.buffer_size as nat,
                config.bass_freq_max as nat,
            );
            &&& p.total_end == config.buffer_size / 2
            &&& p.bass_end == if m < p.total_end { m } else { p.total_end as nat }
            &&& p.is_valid(config.buffer_size as nat)
        },
{
    if config.sample_rate == 0 {
        return None;
    }
    let bass = config.bass_freq_max as u128;
    let size = config.buffer_size as u128;
    assert(bass * size <= 0xffff_ffff_ffff_ffff_ffff_ffff_ffff_ffffu128) by (nonlinear_arith)
        requires
            bass <= 0xffff_ffff,
            size <= 0xffff_ffff_ffff_ffff,
    ;
    let m: u128 = bass * size / (config.sample_rate as u128);
    let total_end: usize = config.buffer_size / 2;
    if m < 2 || total_end < 2 {
        None
    } else {
        let bass_end: usize = if m < total_end as u128 {
            m as usize
        } else {
            total_end
        };
        Some(BinPlan { bass_end, total_end })
    }
}

} // verus!
