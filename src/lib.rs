//! Audio analysis core: a sliding window of the most recent samples, the
//! frequency-bin layout used to measure bass energy, fixed-point levels and
//! their scaling, the drop detector, and the step function that drives the
//! periodic analysis and control tasks.
pub mod analysis;
pub mod buffer;
pub mod config;
pub mod controller;
pub mod metrics;
pub mod scheduler;
pub mod spectrum;
