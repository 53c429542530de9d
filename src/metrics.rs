//! Fixed-point levels and the metrics made of them.
use vstd::prelude::*;
use crate::config::{AudioConfig, LEVEL_SCALE, MULTIPLIER_SCALE};

verus! {

/// `value` times `multiplier` (in thousandths), capped at full scale.
pub open spec fn scaled_level(value: nat, multiplier: nat) -> nat {
    let v = value * multiplier / (MULTIPLIER_SCALE as nat);
    if v < LEVEL_SCALE as nat {
        v
    } else {
        LEVEL_SCALE as nat
    }
}

/// Scales a measured level by a multiplier and caps it at full scale.
pub fn scale_level(value: u32, multiplier: u32) -> (r: u32)
    ensures
        r == scaled_level(value as nat, multiplier as nat),
        r <= LEVEL_SCALE,
{
    let value = value as u64;
    let multiplier = multiplier as u64;
    assert(value * multiplier <= 0xffff_ffff * 0xffff_ffffu64) by (nonlinear_arith)
        requires
            value <= 0xffff_ffff,
            multiplier <= 0xffff_ffff,
    ;
    let v: u64 = value * multiplier / (MULTIPLIER_SCALE as u64);
    if v < LEVEL_SCALE as u64 {
        v as u32
    } else {
        LEVEL_SCALE
    }
}

/// A larger measurement never gives a smaller level: the level is
/// monotonic in what is measured, up to the cap at full scale.
pub proof fn lemma_scaled_level_monotonic(a: nat, b: nat, multiplier: nat)
    requires
        a <= b,
    ensures
        scaled_level(a, multiplier) <= scaled_level(b, multiplier),
{
    assert(a * multiplier <= b * multiplier) by (nonlinear_arith)
        requires
            a <= b,
    ;
    vstd::arithmetic::div_mod::lemma_div_is_ordered(
        (a * multiplier) as int,
        (b * multiplier) as int,
        MULTIPLIER_SCALE as int,
    );
}

/// Silence stays silent: a zero measurement gives a zero level whatever the
/// multiplier.
pub proof fn lemma_scaled_level_of_zero(multiplier: nat)
    ensures
        scaled_level(0, multiplier) == 0,
{
    assert(0 * multiplier == 0);
}

/// A snapshot of the two metrics, as levels (`LEVEL_SCALE` is full scale).
#[derive(Clone, Copy, Debug, Default, PartialEq, Eq, Structural)]
pub struct AudioMetrics {
    pub loudness: u32,
    pub bass_energy: u32,
}

impl AudioMetrics {
    /// Both metrics lie in [0, full scale].
    pub open spec fn is_valid(&self) -> bool {
        self.loudness <= LEVEL_SCALE && self.bass_energy <= LEVEL_SCALE
    }

    /// The metrics from what was measured on the buffer: `rms` is its RMS as
    /// a level, `None` when it is empty; `bass_share` is the bass part of
    /// the spectrum's magnitude as a level, `None` when no share could be
    /// taken (too few samples, no bass bin, or a silent spectrum).
    pub fn from_measurements(
        rms: Option<u32>,
        bass_share: Option<u32>,
        config: &AudioConfig,
    ) -> (r: AudioMetrics)
        ensures
            r.is_valid(),
            r.loudness == match rms {
                None => 0,
                Some(v) => scaled_level(v as nat, config.loudness_multiplier as nat),
            },
            r.bass_energy == match bass_share {
                None => 0,
                Some(v) => scaled_level(v as nat, config.bass_energy_multiplier as nat),
            },
    {
        let loudness = match rms {
            None => 0,
            Some(v) => scale_level(v, config.loudness_multiplier),
        };
        let bass_energy = match bass_share {
            None => 0,
            Some(v) => scale_level(v, config.bass_energy_multiplier),
        };
        AudioMetrics { loudness, bass_energy }
    }
}

} // verus!
