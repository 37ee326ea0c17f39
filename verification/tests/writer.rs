use beep::generator::{Generator, TONE_HZ};
use beep::writer::write_data;
use std::cell::Cell;
use std::f32::consts::PI;

fn sine(sample_rate: u32) -> impl Fn(u32) -> f32 {
    let rate = sample_rate as f32;
    move |phase: u32| (phase as f32 * TONE_HZ as f32 * 2.0 * PI / rate).sin() * 0.2
}

/// Fills a buffer of `len` slots and returns how often the generator was
/// asked, with the buffer.
fn calls_to_fill(len: usize, channels: usize) -> (u32, Vec<u32>) {
    let calls = Cell::new(0u32);
    let mut generator = Generator::new(1000, |phase: u32| {
        calls.set(calls.get() + 1);
        phase
    });
    let mut buffer = vec![u32::MAX; len];
    write_data(&mut buffer, channels, &mut generator);
    assert_eq!(generator.phase(), calls.get() % 1000);
    (calls.get(), buffer)
}

#[test]
fn stereo_buffer_of_four_slots_takes_two_samples() {
    let mut generator = Generator::new(22050, sine(22050));
    let mut buffer = [0.0f32; 4];
    write_data(&mut buffer, 2, &mut generator);
    let v0 = (1.0f32 * 440.0 * 2.0 * PI / 22050.0).sin() * 0.2;
    let v1 = (2.0f32 * 440.0 * 2.0 * PI / 22050.0).sin() * 0.2;
    assert_eq!(buffer, [v0, v0, v1, v1]);
    assert_eq!(generator.phase(), 2);
}

#[test]
fn stereo_buffer_of_four_slots_asks_the_generator_twice() {
    let (calls, buffer) = calls_to_fill(4, 2);
    assert_eq!(calls, 2);
    assert_eq!(buffer, vec![1, 1, 2, 2]);
}

#[test]
fn whole_frames_take_one_sample_each() {
    assert_eq!(calls_to_fill(6, 3), (2, vec![1, 1, 1, 2, 2, 2]));
    assert_eq!(calls_to_fill(3, 1), (3, vec![1, 2, 3]));
    assert_eq!(calls_to_fill(8, 8), (1, vec![1; 8]));
}

#[test]
fn short_last_frame_takes_a_sample_of_its_own() {
    assert_eq!(calls_to_fill(5, 2), (3, vec![1, 1, 2, 2, 3]));
    assert_eq!(calls_to_fill(7, 3), (3, vec![1, 1, 1, 2, 2, 2, 3]));
    assert_eq!(calls_to_fill(3, 4), (1, vec![1, 1, 1]));
    assert_eq!(calls_to_fill(1, usize::MAX), (1, vec![1]));
}

#[test]
fn empty_buffer_takes_no_sample() {
    assert_eq!(calls_to_fill(0, 2), (0, vec![]));
    assert_eq!(calls_to_fill(0, 1), (0, vec![]));
}

#[test]
fn generator_calls_are_the_ceiling_of_slots_over_channels() {
    for channels in 1..9usize {
        for len in 0..40usize {
            let (calls, buffer) = calls_to_fill(len, channels);
            assert_eq!(calls as usize, (len + channels - 1) / channels);
            for (slot, value) in buffer.iter().enumerate() {
                assert_eq!(*value as usize, slot / channels + 1);
            }
        }
    }
}

#[test]
fn successive_buffers_carry_the_phase_on() {
    let mut generator = Generator::new(5, |phase: u32| phase);
    let mut buffer = [9u32; 6];
    write_data(&mut buffer, 2, &mut generator);
    assert_eq!(buffer, [1, 1, 2, 2, 3, 3]);
    write_data(&mut buffer, 2, &mut generator);
    assert_eq!(buffer, [4, 4, 0, 0, 1, 1]);
    assert_eq!(generator.phase(), 1);
    write_data(&mut buffer[..3], 2, &mut generator);
    assert_eq!(buffer, [2, 2, 3, 0, 1, 1]);
    assert_eq!(generator.phase(), 3);
}

#[test]
fn every_slot_is_overwritten() {
    let mut generator = Generator::new(22050, sine(22050));
    let mut buffer = vec![5.0f32; 441];
    write_data(&mut buffer, 2, &mut generator);
    for (slot, value) in buffer.iter().enumerate() {
        let phase = (slot / 2 + 1) as f32;
        assert_eq!(*value, (phase * 440.0 * 2.0 * PI / 22050.0).sin() * 0.2);
    }
    assert_eq!(generator.phase(), 221);
}

#[test]
fn one_second_of_stereo_brings_the_phase_back() {
    let mut generator = Generator::new(22050, sine(22050));
    let mut first = vec![0.0f32; 512];
    write_data(&mut first, 2, &mut generator);
    let mut rest = vec![0.0f32; 2 * 22050 - 512];
    write_data(&mut rest, 2, &mut generator);
    assert_eq!(generator.phase(), 0);
    let mut again = vec![0.0f32; 512];
    write_data(&mut again, 2, &mut generator);
    assert_eq!(first, again);
}
