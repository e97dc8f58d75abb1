use zimler::midi::{MidiHandler, MidiMessage};

#[test]
fn note_on_with_channel() {
    let msg = MidiHandler::parse_midi(&[0x91, 60, 100]);
    assert_eq!(msg, Some(MidiMessage::NoteOn { channel: 1, note: 60, velocity: 100 }));
}

#[test]
fn note_on_velocity_zero_is_note_off() {
    let msg = MidiHandler::parse_midi(&[0x90, 60, 0]);
    assert_eq!(msg, Some(MidiMessage::NoteOff { channel: 0, note: 60 }));
}

#[test]
fn note_off_status() {
    let msg = MidiHandler::parse_midi(&[0x83, 72, 64]);
    assert_eq!(msg, Some(MidiMessage::NoteOff { channel: 3, note: 72 }));
}

#[test]
fn control_change() {
    let msg = MidiHandler::parse_midi(&[0xB2, 7, 101]);
    assert_eq!(msg, Some(MidiMessage::ControlChange { channel: 2, controller: 7, value: 101 }));
}

#[test]
fn pitch_bend_is_14_bit_lsb_first() {
    let msg = MidiHandler::parse_midi(&[0xE5, 0x01, 0x02]);
    assert_eq!(msg, Some(MidiMessage::PitchBend { channel: 5, value: (2 << 7) | 1 }));
    let center = MidiHandler::parse_midi(&[0xE0, 0x00, 0x40]);
    assert_eq!(center, Some(MidiMessage::PitchBend { channel: 0, value: 8192 }));
}

#[test]
fn short_or_unknown_data_decodes_to_nothing() {
    assert_eq!(MidiHandler::parse_midi(&[]), None);
    assert_eq!(MidiHandler::parse_midi(&[0x90]), None);
    assert_eq!(MidiHandler::parse_midi(&[0x90, 60]), None);
    assert_eq!(MidiHandler::parse_midi(&[0x70, 1, 2]), None);
    assert_eq!(MidiHandler::parse_midi(&[0xF0, 1, 2]), None);
}
