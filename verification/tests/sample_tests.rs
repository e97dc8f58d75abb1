use std::collections::HashMap;
use zimler::sample::{Sample, SampleBank, SampleMapping};
use zimler::units::UNIT;

fn tone(len: usize, value: i64) -> Sample {
    Sample::new(vec![value; len], 48000, 1)
}

#[test]
fn new_clamps_amplitudes_and_channels() {
    let s = Sample::new(vec![3 * UNIT as i64, -(3 * UNIT as i64), 5], 44100, 0);
    assert_eq!(s.data, vec![UNIT as i64, -(UNIT as i64), 5]);
    assert_eq!(s.channels, 1);
    assert_eq!(s.sample_rate, 44100);
    assert_eq!(s.root_note, Some(60));
}

#[test]
fn duration_is_whole_milliseconds() {
    let s = Sample::new(vec![0; 48000], 48000, 1);
    assert_eq!(s.duration_ms(), 1000);
    let stereo = Sample::new(vec![0; 96000], 48000, 2);
    assert_eq!(stereo.duration_ms(), 1000);
    let unknown_rate = Sample::new(vec![0; 100], 0, 1);
    assert_eq!(unknown_rate.duration_ms(), 0);
}

#[test]
fn chromatic_single_plays_its_slot() {
    let mut bank = SampleBank::new();
    assert_eq!(bank.get_sample_for_note(60, UNIT), None);
    bank.load_sample(0, tone(16, 100));
    assert_eq!(bank.get_sample_for_note(60, UNIT), Some(0));
    assert_eq!(bank.get_sample_for_note(127, 0), Some(0));
}

#[test]
fn multi_sample_is_exact_lookup() {
    let mut bank = SampleBank::new();
    bank.load_sample(3, tone(16, 100));
    let mut map = HashMap::new();
    map.insert(60u8, 3usize);
    bank.set_mapping(SampleMapping::MultiSample(map));
    assert_eq!(bank.get_sample_for_note(60, UNIT), Some(3));
    assert_eq!(bank.get_sample_for_note(61, UNIT), None);
}

#[test]
fn velocity_layers_pick_first_threshold_at_or_above() {
    let mut bank = SampleBank::new();
    bank.load_sample(5, tone(16, 100));
    bank.load_sample(6, tone(16, 200));
    bank.set_mapping(SampleMapping::Velocity(vec![(100, 5), (200, 6)]));
    assert_eq!(bank.get_sample_for_note(60, 50), Some(5));
    assert_eq!(bank.get_sample_for_note(60, 100), Some(5));
    assert_eq!(bank.get_sample_for_note(60, 150), Some(6));
    assert_eq!(bank.get_sample_for_note(60, 201), None);
}

#[test]
fn round_robin_cycles_in_order() {
    let mut bank = SampleBank::new();
    bank.load_sample(1, tone(16, 100));
    bank.load_sample(2, tone(16, 200));
    bank.load_sample(3, tone(16, 300));
    bank.set_mapping(SampleMapping::RoundRobin { slots: vec![1, 2, 3], current: 0 });
    assert_eq!(bank.get_sample_for_note(60, UNIT), Some(1));
    assert_eq!(bank.get_sample_for_note(60, UNIT), Some(2));
    assert_eq!(bank.get_sample_for_note(60, UNIT), Some(3));
    assert_eq!(bank.get_sample_for_note(60, UNIT), Some(1));
}

#[test]
fn round_robin_advances_even_past_an_empty_slot() {
    let mut bank = SampleBank::new();
    bank.load_sample(1, tone(16, 100));
    bank.set_mapping(SampleMapping::RoundRobin { slots: vec![9, 1], current: 0 });
    assert_eq!(bank.get_sample_for_note(60, UNIT), None);
    assert_eq!(bank.get_sample_for_note(60, UNIT), Some(1));
}

#[test]
fn loading_replaces_a_slot() {
    let mut bank = SampleBank::new();
    bank.load_sample(0, tone(16, 100));
    bank.load_sample(0, tone(8, 200));
    match bank.get_sample(0) {
        Some(s) => {
            assert_eq!(s.data.len(), 8);
            assert_eq!(s.data[0], 200);
        },
        None => panic!("slot 0 should be loaded"),
    }
}
