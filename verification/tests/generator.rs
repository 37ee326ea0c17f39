use beep::generator::{Generator, SampleClock, TONE_HZ};
use std::f32::consts::PI;

fn sine(sample_rate: u32) -> impl Fn(u32) -> f32 {
    let rate = sample_rate as f32;
    move |phase: u32| (phase as f32 * TONE_HZ as f32 * 2.0 * PI / rate).sin() * 0.2
}

fn is_send<T: Send>(_value: &T) -> bool {
    true
}

#[test]
fn new_clock_stands_at_phase_zero() {
    let clock = SampleClock::new(22050);
    assert_eq!(clock.phase(), 0);
    assert_eq!(clock.sample_rate(), 22050);
}

#[test]
fn advance_adds_one_to_the_phase() {
    let mut clock = SampleClock::new(22050);
    assert_eq!(clock.advance(), 1);
    assert_eq!(clock.phase(), 1);
    assert_eq!(clock.advance(), 2);
    assert_eq!(clock.advance(), 3);
    assert_eq!(clock.phase(), 3);
    assert_eq!(clock.sample_rate(), 22050);
}

#[test]
fn advance_wraps_at_the_sample_rate() {
    let mut clock = SampleClock::new(4);
    let phases: Vec<u32> = (0..9).map(|_| clock.advance()).collect();
    assert_eq!(phases, vec![1, 2, 3, 0, 1, 2, 3, 0, 1]);
}

#[test]
fn advance_follows_the_successor_modulo_the_rate() {
    let rate: u32 = 7;
    let mut clock = SampleClock::new(rate);
    for _ in 0..30 {
        let before = clock.phase();
        let after = clock.advance();
        assert_eq!(after, (before + 1) % rate);
        assert_eq!(clock.phase(), after);
        assert!(after < rate);
    }
}

#[test]
fn clock_of_rate_one_stays_at_zero() {
    let mut clock = SampleClock::new(1);
    assert_eq!(clock.advance(), 0);
    assert_eq!(clock.advance(), 0);
    assert_eq!(clock.phase(), 0);
}

#[test]
fn clock_wraps_at_the_target_rate() {
    let mut clock = SampleClock::new(22050);
    for _ in 0..22049 {
        clock.advance();
    }
    assert_eq!(clock.phase(), 22049);
    assert_eq!(clock.advance(), 0);
    assert_eq!(clock.advance(), 1);
}

#[test]
fn clock_wraps_at_the_largest_rate() {
    let mut clock = SampleClock::new(u32::MAX);
    assert_eq!(clock.advance(), 1);
    assert_eq!(clock.sample_rate(), u32::MAX);
}

#[test]
fn phase_takes_every_value_once_per_period() {
    let rate: u32 = 12;
    let mut clock = SampleClock::new(rate);
    clock.advance();
    clock.advance();
    let mut seen = vec![0u32; 12];
    for _ in 0..rate {
        seen[clock.advance() as usize] += 1;
    }
    assert_eq!(seen, vec![1u32; 12]);
}

#[test]
fn phase_does_not_repeat_within_a_period() {
    let rate: u32 = 9;
    let mut clock = SampleClock::new(rate);
    let first = clock.advance();
    for _ in 1..rate {
        assert_ne!(clock.advance(), first);
    }
    assert_eq!(clock.advance(), first);
}

#[test]
fn new_generator_stands_at_phase_zero() {
    let generator = Generator::new(22050, sine(22050));
    assert_eq!(generator.phase(), 0);
    assert_eq!(generator.sample_rate(), 22050);
}

#[test]
fn next_sample_evaluates_the_waveform_at_the_new_phase() {
    let mut generator = Generator::new(10, |phase: u32| phase * 100 + 7);
    assert_eq!(generator.next_sample(), 107);
    assert_eq!(generator.phase(), 1);
    assert_eq!(generator.next_sample(), 207);
    assert_eq!(generator.phase(), 2);
    for _ in 0..7 {
        generator.next_sample();
    }
    assert_eq!(generator.phase(), 9);
    assert_eq!(generator.next_sample(), 7);
    assert_eq!(generator.phase(), 0);
    assert_eq!(generator.sample_rate(), 10);
}

#[test]
fn first_samples_of_the_tone() {
    let mut generator = Generator::new(22050, sine(22050));
    let v0 = (1.0f32 * 440.0 * 2.0 * PI / 22050.0).sin() * 0.2;
    let v1 = (2.0f32 * 440.0 * 2.0 * PI / 22050.0).sin() * 0.2;
    assert_eq!(generator.next_sample(), v0);
    assert_eq!(generator.next_sample(), v1);
    assert!((v0 - 0.025008).abs() < 1e-5);
    assert!((v1 - 0.049624).abs() < 1e-5);
}

#[test]
fn tone_stays_within_its_amplitude() {
    let mut generator = Generator::new(22050, sine(22050));
    let mut peak = 0.0f32;
    for _ in 0..22050 {
        let value = generator.next_sample();
        assert!(value.abs() <= 0.2);
        peak = peak.max(value.abs());
    }
    assert!(peak > 0.199);
}

#[test]
fn tone_repeats_every_sample_rate_samples() {
    let mut generator = Generator::new(22050, sine(22050));
    let first: Vec<f32> = (0..22050).map(|_| generator.next_sample()).collect();
    assert_eq!(generator.phase(), 0);
    let second: Vec<f32> = (0..22050).map(|_| generator.next_sample()).collect();
    assert_eq!(first, second);
}

#[test]
fn tone_is_silent_where_the_phase_wraps() {
    let mut generator = Generator::new(22050, sine(22050));
    for _ in 0..22049 {
        generator.next_sample();
    }
    assert_eq!(generator.next_sample(), 0.0);
    assert_eq!(generator.phase(), 0);
}

#[test]
fn tone_frequency_is_concert_pitch() {
    assert_eq!(TONE_HZ, 440);
}

#[test]
fn generator_can_move_to_another_thread() {
    let generator = Generator::new(22050, sine(22050));
    assert!(is_send(&generator));
}
