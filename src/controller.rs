//! The drop detector: a stateless decision on the latest metrics.
use vstd::prelude::*;
use crate::config::AudioConfig;
use crate::metrics::AudioMetrics;

verus! {

/// Loudness that must be exceeded, besides the bass threshold, for a drop
/// (0.7 of full scale). A fixed part of the detector, not a setting.
pub const DROP_LOUDNESS_FLOOR: u32 = 700_000;

/// What the detector reports for one snapshot of the metrics.
#[derive(Clone, Copy, Debug, Default, PartialEq, Eq, Structural)]
pub struct ControllerOutput {
    pub is_drop: bool,
    /// The snapshot's loudness, passed through.
    pub loudness: u32,
}

/// Whether a snapshot shows a drop: bass energy strictly above the
/// threshold and loudness strictly above the loudness floor.
pub open spec fn shows_drop(snapshot: AudioMetrics, threshold: u32) -> bool {
    snapshot.bass_energy > threshold && snapshot.loudness > DROP_LOUDNESS_FLOOR
}

/// Both comparisons are strict: bass energy equal to the threshold, or
/// loudness equal to the loudness floor, is never a drop.
pub proof fn lemma_drop_bounds_are_strict(snapshot: AudioMetrics, threshold: u32)
    requires
        snapshot.bass_energy == threshold || snapshot.loudness == DROP_LOUDNESS_FLOOR,
    ensures
        !shows_drop(snapshot, threshold),
{
}

/// The detector. It keeps no state between snapshots.
#[derive(Clone, Copy, Debug, Default)]
pub struct Controller {}

impl Controller {
    pub fn new() -> (r: Self) {
        Controller {}
    }

    /// Decides from `metrics` alone, with the threshold of `config`.
    pub fn process(&self, metrics: AudioMetrics, config: &AudioConfig) -> (r: ControllerOutput)
        ensures
            r.is_drop == shows_drop(metrics, config.drop_detection_threshold),
            r.loudness == metrics.loudness,
    {
        let is_drop = metrics.bass_energy > config.drop_detection_threshold && metrics.loudness
            > DROP_LOUDNESS_FLOOR;
        ControllerOutput { is_drop, loudness: metrics.loudness }
    }
}

} // verus!
