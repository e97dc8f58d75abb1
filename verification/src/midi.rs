//! Decoding raw MIDI bytes into note events.
//!
//! The transport hands over two or three raw bytes per message; this
//! module turns them into typed events. A note-on with velocity zero is
//! reinterpreted as a note-off, and a pitch bend carries a 14-bit value
//! assembled least-significant byte first.

use vstd::prelude::*;

verus! {

/// A decoded channel message.
#[derive(Clone, Copy, Debug, PartialEq, Eq, Structural)]
pub enum MidiMessage {
    NoteOn { channel: u8, note: u8, velocity: u8 },
    NoteOff { channel: u8, note: u8 },
    ControlChange { channel: u8, controller: u8, value: u8 },
    PitchBend { channel: u8, value: u16 },
}

/// What a raw byte sequence decodes to: the status nibble selects the
/// message, the low nibble is the channel, and malformed or unknown
/// data decodes to nothing.
pub open spec fn parse_midi_spec(data: Seq<u8>) -> Option<MidiMessage> {
    if data.len() < 2 {
        None
    } else {
        let status = data[0];
        let channel = status & 0x0F;
        if status & 0xF0 == 0x90 && data.len() >= 3 {
            if data[2] > 0 {
                Some(MidiMessage::NoteOn { channel, note: data[1], velocity: data[2] })
            } else {
                Some(MidiMessage::NoteOff { channel, note: data[1] })
            }
        } else if status & 0xF0 == 0x80 && data.len() >= 3 {
            Some(MidiMessage::NoteOff { channel, note: data[1] })
        } else if status & 0xF0 == 0xB0 && data.len() >= 3 {
            Some(MidiMessage::ControlChange { channel, controller: data[1], value: data[2] })
        } else if status & 0xF0 == 0xE0 && data.len() >= 3 {
            Some(
                MidiMessage::PitchBend {
                    channel,
                    value: ((data[2] as u16) << 7) | (data[1] as u16),
                },
            )
        } else {
            None
        }
    }
}

/// Decodes raw MIDI bytes; the device transport that produces them
/// lives outside this crate.
pub struct MidiHandler {}

impl MidiHandler {
    /// Decode one raw message.
    pub fn parse_midi(data: &[u8]) -> (r: Option<MidiMessage>)
        ensures
            r == parse_midi_spec(data@),
    {
        if data.len() < 2 {
            return None;
        }
        let status = data[0];
        let channel = status & 0x0F;
        if status & 0xF0 == 0x90 && data.len() >= 3 {
            let velocity = data[2];
            if velocity > 0 {
                Some(MidiMessage::NoteOn { channel, note: data[1], velocity })
            } else {
                Some(MidiMessage::NoteOff { channel, note: data[1] })
            }
        } else if status & 0xF0 == 0x80 && data.len() >= 3 {
            Some(MidiMessage::NoteOff { channel, note: data[1] })
        } else if status & 0xF0 == 0xB0 && data.len() >= 3 {
            Some(MidiMessage::ControlChange { channel, controller: data[1], value: data[2] })
        } else if status & 0xF0 == 0xE0 && data.len() >= 3 {
            let value = ((data[2] as u16) << 7) | (data[1] as u16);
            Some(MidiMessage::PitchBend { channel, value })
        } else {
            None
        }
    }
}

} // verus!
