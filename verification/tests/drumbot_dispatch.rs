use mechsync::action::{Anomaly, ConsumeReason, Effect};
use mechsync::config::ArmsConfig;
use mechsync::drumbot::{Arm, DrumBot, DRUMBOT_DELAY_NANOS, KICK_NOTE};
use mechsync::midi::MidiData;

fn note_on(channel: u8, note: u8) -> MidiData {
    MidiData { instruction: 0x9, channel, note, velocity: 100 }
}

fn two_arm_bot(now: u64) -> DrumBot {
    let mapping = vec![(38u8, 60u8), (45u8, 61u8)];
    DrumBot::new(&vec![ArmsConfig(mapping.clone()), ArmsConfig(mapping)], now)
}

#[test]
fn arm_lookup_takes_the_first_match() {
    let arm = Arm::new(vec![(5, 10), (5, 20), (7, 30)], 0);
    assert_eq!(arm.get(5), Some(10));
    assert_eq!(arm.get(7), Some(30));
    assert_eq!(arm.get(6), None);
}

#[test]
fn fresh_arm_reads_as_having_played_its_first_note() {
    let arm = Arm::new(vec![(38, 60)], 9);
    assert_eq!(arm.last_played, 38);
    assert_eq!(arm.ts, 9);
    let empty = Arm::new(vec![], 9);
    assert_eq!(empty.last_played, 0);
}

#[test]
fn kick_forwards_on_the_fixed_note() {
    let mut bot = two_arm_bot(0);
    let act = bot.call(note_on(4, 36), 1);
    assert_eq!(act.sleep_nanos, 0);
    assert_eq!(
        act.effect,
        Effect::Forward(MidiData { instruction: 0x9, channel: 4, note: 36, velocity: 100 })
    );
    assert_eq!(act.anomaly, None);
    // The low kick maps onto the same fixed note.
    let low = bot.call(note_on(2, 35), 2);
    assert_eq!(
        low.effect,
        Effect::Forward(MidiData { instruction: 0x9, channel: 2, note: KICK_NOTE, velocity: 100 })
    );
}

#[test]
fn arms_alternate_by_least_recent_use() {
    // Two arms with the same mapping; notes 38, 45, 38, 45 must alternate:
    // events one and three stick to the first arm, events two and four to
    // the second, with each arm's timestamp strictly increasing.
    let mut bot = two_arm_bot(0);
    let a1 = bot.call(note_on(0, 38), 1);
    assert_eq!(
        a1.effect,
        Effect::Forward(MidiData { instruction: 0x9, channel: 0, note: 60, velocity: 100 })
    );
    assert_eq!(bot.arm_state(0).ts, 1);
    assert_eq!(bot.arm_state(1).ts, 0);

    let a2 = bot.call(note_on(0, 45), 2);
    assert_eq!(
        a2.effect,
        Effect::Forward(MidiData { instruction: 0x9, channel: 0, note: 61, velocity: 100 })
    );
    assert_eq!(bot.arm_state(0).ts, 1);
    assert_eq!(bot.arm_state(1).ts, 2);
    assert_eq!(bot.arm_state(1).last_played, 45);

    bot.call(note_on(0, 38), 3);
    assert_eq!(bot.arm_state(0).ts, 3);
    assert_eq!(bot.arm_state(0).last_played, 38);

    bot.call(note_on(0, 45), 4);
    assert_eq!(bot.arm_state(1).ts, 4);
    assert_eq!(bot.arm_state(1).last_played, 45);
}

#[test]
fn sticky_arm_is_reused_for_a_repeated_note() {
    let mut bot = two_arm_bot(0);
    bot.call(note_on(0, 45), 1);
    let again = bot.call(note_on(0, 45), 2);
    assert_eq!(
        again.effect,
        Effect::Forward(MidiData { instruction: 0x9, channel: 0, note: 61, velocity: 100 })
    );
    // Only one arm ever moved.
    assert_eq!(bot.arm_state(0).ts, 2);
    assert_eq!(bot.arm_state(1).ts, 0);
}

#[test]
fn unmapped_note_passes_through_with_a_warning() {
    let mut bot = two_arm_bot(0);
    let msg = note_on(5, 50);
    let act = bot.call(msg, 1);
    assert_eq!(act.effect, Effect::Forward(msg));
    assert_eq!(act.anomaly, Some(Anomaly::UnmappedDrumNote { note: 50 }));
    assert_eq!(bot.arm_state(0).ts, 0);
    assert_eq!(bot.arm_state(1).ts, 0);
}

#[test]
fn rejects_everything_but_note_ons() {
    let mut bot = two_arm_bot(0);
    let off = bot.call(MidiData { instruction: 0x8, channel: 0, note: 38, velocity: 0 }, 1);
    assert_eq!(off.effect, Effect::Consume(ConsumeReason::IgnoredInstruction));
    let silent = bot.call(MidiData { instruction: 0x9, channel: 0, note: 38, velocity: 0 }, 2);
    assert_eq!(silent.effect, Effect::Consume(ConsumeReason::IgnoredInstruction));
    assert_eq!(bot.arm_state(0).ts, 0);
}

#[test]
fn drum_delay_is_the_fixed_alignment_constant() {
    let bot = two_arm_bot(0);
    assert_eq!(bot.delay(), DRUMBOT_DELAY_NANOS);
    assert_eq!(DRUMBOT_DELAY_NANOS, 2_000_000_000);
    assert_eq!(bot.arm_count(), 2);
}
