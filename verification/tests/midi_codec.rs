use mechsync::midi::MidiData;

#[test]
fn decodes_note_on_frame() {
    let m = MidiData::from_slice(&[0x93, 38, 100]);
    assert_eq!(m.instruction, 0x9);
    assert_eq!(m.channel, 0x3);
    assert_eq!(m.note, 38);
    assert_eq!(m.velocity, 100);
}

#[test]
fn decodes_note_off_frame() {
    let m = MidiData::from_slice(&[0x80, 43, 0]);
    assert_eq!(m.instruction, 0x8);
    assert_eq!(m.channel, 0x0);
    assert_eq!(m.note, 43);
    assert_eq!(m.velocity, 0);
}

#[test]
fn short_frames_decode_missing_bytes_as_zero() {
    let m = MidiData::from_slice(&[0x95]);
    assert_eq!(m.instruction, 0x9);
    assert_eq!(m.channel, 0x5);
    assert_eq!(m.note, 0);
    assert_eq!(m.velocity, 0);

    let two = MidiData::from_slice(&[0x95, 60]);
    assert_eq!(two.note, 60);
    assert_eq!(two.velocity, 0);

    let empty = MidiData::from_slice(&[]);
    assert_eq!(empty, MidiData { instruction: 0, channel: 0, note: 0, velocity: 0 });
}

#[test]
fn extra_bytes_are_ignored() {
    let m = MidiData::from_slice(&[0x93, 38, 100, 7, 8]);
    assert_eq!(m.to_array(), [0x93, 38, 100]);
}

#[test]
fn encodes_back_to_wire_form() {
    let m = MidiData { instruction: 0x9, channel: 0x1, note: 38, velocity: 100 };
    assert_eq!(m.to_array(), [0x91, 38, 100]);
}

#[test]
fn codec_round_trips() {
    let m = MidiData { instruction: 0x8, channel: 0xf, note: 127, velocity: 1 };
    let back = MidiData::from_slice(&m.to_array());
    assert_eq!(back, m);
}
