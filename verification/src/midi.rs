//! Decoding of MIDI input messages into control actions.
use vstd::prelude::*;

verus! {

/// maps a MIDI CC number to a bus control channel.
#[derive(Debug, Clone)]
pub struct MidiMapping {
    pub cc: u8,
    pub channel: u8,
}

/// What a MIDI message asks the engine to do.
#[derive(Debug, Clone, Copy, PartialEq, Eq, Structural)]
pub enum MidiAction {
    /// a control change: `cc` moved to `value` (0..=127) on MIDI channel
    /// `midi_channel`.
    ControlChange { midi_channel: u8, cc: u8, value: u8 },
    /// a note-on with non-zero velocity: trigger `note`.
    Trigger { note: u8 },
    /// anything else.
    Ignore,
}

/// The action of the MIDI message `m`: messages shorter than three bytes are
/// ignored; status `0xB0` is a control change, status `0x90` with a non-zero
/// velocity a trigger.
pub open spec fn midi_action(m: Seq<u8>) -> MidiAction {
    if m.len() < 3 {
        MidiAction::Ignore
    } else if m[0] & 0xF0u8 == 0xB0u8 {
        MidiAction::ControlChange { midi_channel: m[0] & 0x0Fu8, cc: m[1], value: m[2] }
    } else if m[0] & 0xF0u8 == 0x90u8 && m[2] > 0 {
        MidiAction::Trigger { note: m[1] }
    } else {
        MidiAction::Ignore
    }
}

/// Decodes one MIDI message.
pub fn decode_midi(message: &[u8]) -> (a: MidiAction)
    ensures
        a == midi_action(message@),
        a matches MidiAction::ControlChange { midi_channel, .. } ==> midi_channel < 16,
{
    if message.len() < 3 {
        return MidiAction::Ignore;
    }
    let status = message[0] & 0xF0u8;
    let first = message[0];
    let channel = first & 0x0Fu8;
    assert(first & 0x0Fu8 < 16) by (bit_vector);
    if status == 0xB0u8 {
        MidiAction::ControlChange { midi_channel: channel, cc: message[1], value: message[2] }
    } else if status == 0x90u8 {
        let velocity = message[2];
        if velocity > 0 {
            MidiAction::Trigger { note: message[1] }
        } else {
            MidiAction::Ignore
        }
    } else {
        MidiAction::Ignore
    }
}

} // verus!
