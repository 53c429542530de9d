//! What a bass-energy measurement needs from the buffer and the
//! configuration, decided before any transform is run.
use vstd::prelude::*;
use crate::buffer::{keep_latest, SampleBuffer};
use crate::config::AudioConfig;
use crate::spectrum::{bass_bin_max, has_bass_bins, plan_bins, BinPlan};

verus! {

/// The input of one bass-energy measurement.
pub enum BassInput<'a, T> {
    /// Fewer than `buffer_size` samples have arrived: no estimate is made on
    /// a partial window, and the bass energy is zero.
    ColdStart,
    /// The configuration leaves no bin in the bass range: the bass energy is
    /// zero.
    NoBassBins,
    /// Transform `window` (the latest `buffer_size` samples) and sum the
    /// magnitudes over the bins of `plan`.
    Ready { window: &'a [T], plan: BinPlan },
}

impl<T: Copy> SampleBuffer<T> {
    /// Decides, with the configuration as read once, whether a bass
    /// measurement can be taken now and on which samples and bins.
    pub fn bass_input(&self, config: &AudioConfig) -> (r: BassInput<'_, T>)
        ensures
            r is ColdStart <==> self@.len() < config.buffer_size,
            r is NoBassBins <==> (self@.len() >= config.buffer_size && !has_bass_bins(*config)),
            r matches BassInput::Ready { window, plan } ==> {
                let m = bass_bin_max(
                    config.sample_rate as nat,
                    config.buffer_size as nat,
                    config.bass_freq_max as nat,
                );
                &&& window@ == keep_latest(self@, config.buffer_size as nat)
                &&& window@.len() == config.buffer_size
                &&& plan.total_end == config.buffer_size / 2
                &&& plan.bass_end == if m < plan.total_end { m } else { plan.total_end as nat }
                &&& plan.is_valid(config.buffer_size as nat)
            },
    {
        match self.latest(config.buffer_size) {
            None => BassInput::ColdStart,
            Some(window) => match plan_bins(config) {
                None => BassInput::NoBassBins,
                Some(plan) => BassInput::Ready { window, plan },
            },
        }
    }
}

} // verus!
