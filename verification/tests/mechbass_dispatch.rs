use mechsync::action::{Anomaly, ConsumeReason, Effect};
use mechsync::mechbass::{MechBass, PlayedNote};
use mechsync::midi::MidiData;
use mechsync::pan::MAX_PAN_NANOS;

fn note_on(note: u8, velocity: u8) -> MidiData {
    MidiData { instruction: 0x9, channel: 0, note, velocity }
}

fn note_off(note: u8) -> MidiData {
    MidiData { instruction: 0x8, channel: 0, note, velocity: 0 }
}

#[test]
fn fresh_strings_rest_at_their_tuning() {
    let mb = MechBass::new(7);
    assert_eq!(mb.string_state(0), PlayedNote { playing: false, note: 43, delay: 0, ts: 7 });
    assert_eq!(mb.string_state(1), PlayedNote { playing: false, note: 38, delay: 0, ts: 7 });
    assert_eq!(mb.string_state(2), PlayedNote { playing: false, note: 33, delay: 0, ts: 7 });
    assert_eq!(mb.string_state(3), PlayedNote { playing: false, note: 28, delay: 0, ts: 7 });
}

#[test]
fn sanity_note_on_lands_on_its_open_string() {
    // The open D string (tuning 38) is the closest candidate for note 38,
    // so the rewritten channel is string index 1 and the sleep is the full
    // deadline: no pan is needed at all.
    let mut mb = MechBass::new(0);
    let act = mb.call(note_on(38, 100), 0);
    assert_eq!(act.sleep_nanos, MAX_PAN_NANOS);
    assert_eq!(
        act.effect,
        Effect::Forward(MidiData { instruction: 0x9, channel: 1, note: 38, velocity: 100 })
    );
    assert_eq!(act.anomaly, None);
    assert!(mb.string_state(1).playing);
    assert_eq!(mb.string_state(1).note, 38);
}

#[test]
fn sanity_note_off_pairs_with_the_same_string() {
    let mut mb = MechBass::new(0);
    mb.call(note_on(38, 100), 0);
    let off = mb.call(note_off(38), 500_000_000);
    assert_eq!(off.sleep_nanos, MAX_PAN_NANOS);
    assert_eq!(
        off.effect,
        Effect::Forward(MidiData { instruction: 0x8, channel: 1, note: 38, velocity: 0 })
    );
    assert_eq!(off.anomaly, None);
    assert!(!mb.string_state(1).playing);
    assert_eq!(mb.string_state(1).ts, 500_000_000);
}

#[test]
fn playing_flag_clears_exactly_once_per_pair() {
    let mut mb = MechBass::new(0);
    mb.call(note_on(40, 90), 1);
    let (ch, _) = {
        let mut played = None;
        for s in 0..4 {
            if mb.string_state(s).playing {
                played = Some((s, mb.string_state(s).delay));
            }
        }
        played.unwrap()
    };
    mb.call(note_off(40), 2);
    assert!(!mb.string_state(ch).playing);
    // A second off for the same note finds nothing and is consumed.
    let again = mb.call(note_off(40), 3);
    assert_eq!(again.effect, Effect::Consume(ConsumeReason::UnmatchedNoteOff));
    assert_eq!(again.anomaly, Some(Anomaly::UnmatchedNoteOff { note: 40 }));
}

#[test]
fn steal_overrides_a_busy_string_with_a_warning() {
    // Occupy all four strings, then play a fifth note: it must still be
    // dispatched, to some string whose tuning does not exceed it, with a
    // warning, and the victim's state is overwritten.
    let mut mb = MechBass::new(0);
    mb.call(note_on(38, 100), 0);
    mb.call(note_on(43, 100), 1);
    mb.call(note_on(33, 100), 2);
    mb.call(note_on(28, 100), 3);
    let act = mb.call(note_on(45, 100), 4);
    match act.effect {
        Effect::Forward(m) => {
            assert_eq!(m.note, 45);
            assert_eq!(m.channel, 0);
        }
        other => panic!("expected a forwarded message, got {:?}", other),
    }
    assert_eq!(act.anomaly, Some(Anomaly::StringStolen { channel: 0, previous: 43, note: 45 }));
    assert!(mb.string_state(0).playing);
    assert_eq!(mb.string_state(0).note, 45);
}

#[test]
fn closest_free_string_wins() {
    // With the D string (index 1) busy, note 38 falls to the next
    // candidate with the shortest pan: the A string at index 2 (fret 5)
    // beats the E string at index 3 (fret 10).
    let mut mb = MechBass::new(0);
    mb.call(note_on(38, 100), 0);
    let act = mb.call(note_on(38, 100), 1);
    match act.effect {
        Effect::Forward(m) => assert_eq!(m.channel, 2),
        other => panic!("expected a forwarded message, got {:?}", other),
    }
    assert!(act.sleep_nanos < MAX_PAN_NANOS);
}

#[test]
fn other_instructions_are_ignored() {
    let mut mb = MechBass::new(0);
    let act = mb.call(MidiData { instruction: 0xb, channel: 0, note: 1, velocity: 2 }, 5);
    assert_eq!(act.sleep_nanos, 0);
    assert_eq!(act.effect, Effect::Consume(ConsumeReason::IgnoredInstruction));
    for s in 0..4 {
        assert!(!mb.string_state(s).playing);
    }
}

#[test]
fn note_on_with_zero_velocity_acts_as_note_off() {
    let mut mb = MechBass::new(0);
    mb.call(note_on(38, 100), 0);
    let off = mb.call(note_on(38, 0), 1);
    match off.effect {
        Effect::Forward(m) => {
            assert_eq!(m.instruction, 0x9);
            assert_eq!(m.channel, 1);
            assert_eq!(m.velocity, 0);
        }
        other => panic!("expected a forwarded message, got {:?}", other),
    }
    assert!(!mb.string_state(1).playing);
}

#[test]
fn dispatch_channel_reports_the_chosen_string() {
    let mb = MechBass::new(0);
    let (ch, delay) = mb.dispatch_channel(43, 0);
    assert_eq!(ch, 0);
    assert_eq!(delay, MAX_PAN_NANOS);
    assert_eq!(mb.panning_delay(43, 0), MAX_PAN_NANOS);
}

#[test]
fn find_playing_reports_string_and_committed_sleep() {
    let mut mb = MechBass::new(0);
    assert_eq!(mb.find_playing(38), None);
    let act = mb.call(note_on(39, 80), 0);
    let found = mb.find_playing(39).unwrap();
    assert_eq!(found.1, act.sleep_nanos);
}

#[test]
fn pan_compensation_holds_on_a_fretted_note() {
    // Note 48 on the G string (tuning 43) sits at fret 5: the sleep is the
    // deadline minus the pan time of a five-fret move from the nut.
    let mut mb = MechBass::new(0);
    let act = mb.call(note_on(48, 100), 0);
    match act.effect {
        Effect::Forward(m) => assert_eq!(m.channel, 0),
        other => panic!("expected a forwarded message, got {:?}", other),
    }
    assert_eq!(act.sleep_nanos, MAX_PAN_NANOS - mechsync::pan::pan_time_nanos(0, 5));
}
