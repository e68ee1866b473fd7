use pj_player::sampler::{bar_height, sampler_step, Levels, SamplerStep};

#[test]
fn new_levels_are_silent() {
    let levels = Levels::new();
    assert_eq!(levels.len(), 10);
    for i in 0..10 {
        assert_eq!(levels.level(i), 0);
    }
}

#[test]
fn sample_takes_each_byte_modulo_ten() {
    let mut levels = Levels::new();
    let entropy = [0u8, 9, 10, 19, 255, 128, 7, 42, 100, 33, 77];
    levels.sample(&entropy);
    let expected = [0u8, 9, 0, 9, 5, 8, 7, 2, 0, 3];
    for i in 0..10 {
        assert_eq!(levels.level(i), expected[i]);
    }
    levels.reset();
    for i in 0..10 {
        assert_eq!(levels.level(i), 0);
    }
}

#[test]
fn sampler_decisions() {
    assert_eq!(sampler_step(true, false, false), SamplerStep::Sample);
    assert_eq!(sampler_step(true, true, false), SamplerStep::Hold);
    assert_eq!(sampler_step(false, false, false), SamplerStep::Finish);
    assert_eq!(sampler_step(true, false, true), SamplerStep::Finish);
}

#[test]
fn hold_keeps_levels() {
    let mut levels = Levels::new();
    levels.sample(&[3; 10]);
    levels.apply(SamplerStep::Hold, &[8; 10]);
    assert_eq!(levels.level(4), 3);
}

#[test]
fn bar_heights_round_to_nearest_row() {
    assert_eq!(bar_height(0, 10), 0);
    assert_eq!(bar_height(9, 10), 9);
    assert_eq!(bar_height(5, 1), 1);
    assert_eq!(bar_height(4, 1), 0);
    assert_eq!(bar_height(3, 5), 2);
    assert_eq!(bar_height(7, 3), 2);
    assert_eq!(bar_height(9, 65535), 58982);
}
