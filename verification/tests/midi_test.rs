use mycelium::midi::{decode_midi, MidiAction, MidiMapping};

#[test]
fn control_change_decodes_channel_cc_and_value() {
    assert_eq!(
        decode_midi(&[0xB3, 7, 127]),
        MidiAction::ControlChange { midi_channel: 3, cc: 7, value: 127 }
    );
    assert_eq!(
        decode_midi(&[0xBF, 1, 0]),
        MidiAction::ControlChange { midi_channel: 15, cc: 1, value: 0 }
    );
}

#[test]
fn note_on_triggers_unless_velocity_zero() {
    assert_eq!(decode_midi(&[0x90, 60, 100]), MidiAction::Trigger { note: 60 });
    assert_eq!(decode_midi(&[0x95, 61, 1]), MidiAction::Trigger { note: 61 });
    assert_eq!(decode_midi(&[0x90, 60, 0]), MidiAction::Ignore);
}

#[test]
fn short_and_other_messages_are_ignored() {
    assert_eq!(decode_midi(&[0xB0, 1]), MidiAction::Ignore);
    assert_eq!(decode_midi(&[]), MidiAction::Ignore);
    assert_eq!(decode_midi(&[0x80, 60, 64]), MidiAction::Ignore);
    assert_eq!(decode_midi(&[0xE0, 0, 64]), MidiAction::Ignore);
}

#[test]
fn longer_messages_use_first_three_bytes() {
    assert_eq!(
        decode_midi(&[0xB1, 10, 64, 0xF7]),
        MidiAction::ControlChange { midi_channel: 1, cc: 10, value: 64 }
    );
}

#[test]
fn midi_mapping_holds_cc_and_channel() {
    let m = MidiMapping { cc: 74, channel: 2 };
    let c = m.clone();
    assert_eq!(c.cc, 74);
    assert_eq!(c.channel, 2);
}
