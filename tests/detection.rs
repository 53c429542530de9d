use edenfx::config::AudioConfig;
use edenfx::controller::{Controller, ControllerOutput, DROP_LOUDNESS_FLOOR};
use edenfx::metrics::AudioMetrics;

fn metrics(loudness: u32, bass_energy: u32) -> AudioMetrics {
    AudioMetrics { loudness, bass_energy }
}

#[test]
fn bass_equal_to_threshold_is_no_drop() {
    let c = AudioConfig::default();
    let out = Controller::new().process(metrics(900_000, 800_000), &c);
    assert!(!out.is_drop);
}

#[test]
fn bass_just_above_threshold_with_loudness_is_a_drop() {
    let c = AudioConfig::default();
    let out = Controller::new().process(metrics(710_000, 800_001), &c);
    assert!(out.is_drop);
    assert_eq!(out.loudness, 710_000);
}

#[test]
fn loudness_at_floor_is_no_drop() {
    let c = AudioConfig::default();
    let out = Controller::new().process(metrics(700_000, 950_000), &c);
    assert_eq!(DROP_LOUDNESS_FLOOR, 700_000);
    assert_eq!(out, ControllerOutput { is_drop: false, loudness: 700_000 });
}

#[test]
fn threshold_comes_from_the_config() {
    let mut c = AudioConfig::default();
    let m = metrics(800_000, 500_000);
    assert!(!Controller::new().process(m, &c).is_drop);
    c.drop_detection_threshold = 400_000;
    assert!(Controller::new().process(m, &c).is_drop);
}

#[test]
fn controller_keeps_no_memory() {
    let c = AudioConfig::default();
    let ctl = Controller::new();
    assert!(ctl.process(metrics(900_000, 900_000), &c).is_drop);
    assert!(!ctl.process(metrics(100_000, 100_000), &c).is_drop);
    assert!(ctl.process(metrics(900_000, 900_000), &c).is_drop);
}

#[test]
fn default_output_is_no_drop() {
    let out = ControllerOutput::default();
    assert!(!out.is_drop);
    assert_eq!(out.loudness, 0);
}
