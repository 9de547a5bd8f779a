//! The DrumBot arm dispatcher.
//!
//! A drum robot with a configured number of arms. Each arm maps a fixed
//! set of incoming notes to outgoing notes; the incoming channel is
//! preserved. Kick notes bypass the arms. Other note-ons stick to the arm
//! that last played them; a note nobody holds goes to the least recently
//! used arm that maps it, and a note no arm maps passes through unchanged
//! with a warning. DrumBot never sleeps: downstream delay nodes absorb
//! the alignment, which is why its intrinsic delay is a fixed constant.

use vstd::prelude::*;
use crate::action::{Action, Anomaly, ConsumeReason, Effect};
use crate::config::ArmsConfig;
use crate::midi::{MidiData, NOTE_ON};

verus! {

/// DrumBot's intrinsic contribution to end-to-end latency, in nanoseconds.
pub const DRUMBOT_DELAY_NANOS: u64 = 2_000_000_000;

/// The note every kick maps to.
pub const KICK_NOTE: u8 = 36;

/// One arm: its immutable note mapping, the note it last played, and the
/// monotonic time it last played.
#[derive(Clone, Debug, PartialEq, Eq)]
pub struct Arm {
    pub mapping: Vec<(u8, u8)>,
    pub last_played: u8,
    pub ts: u64,
}

/// The first mapping entry at or past `i` whose incoming note is `key`.
pub open spec fn spec_arm_get_from(mapping: Seq<(u8, u8)>, key: u8, i: int) -> Option<u8>
    decreases mapping.len() - i,
{
    if i < 0 || i >= mapping.len() {
        None
    } else if mapping[i].0 == key {
        Some(mapping[i].1)
    } else {
        spec_arm_get_from(mapping, key, i + 1)
    }
}

/// The outgoing note an arm plays for incoming note `key`, if it maps it.
pub open spec fn spec_arm_get(mapping: Seq<(u8, u8)>, key: u8) -> Option<u8> {
    spec_arm_get_from(mapping, key, 0)
}

impl Arm {
    /// A fresh arm resting since `now`; it reads as having last played the
    /// first note of its mapping.
    pub fn new(mapping: Vec<(u8, u8)>, now: u64) -> (r: Arm)
        ensures
            r.mapping@ == mapping@,
            r.last_played == if mapping@.len() > 0 {
                mapping@[0].0
            } else {
                0u8
            },
            r.ts == now,
    {
        let last_played: u8 = if mapping.len() > 0 {
            mapping[0].0
        } else {
            0
        };
        Arm { mapping, last_played, ts: now }
    }

    /// The outgoing note for incoming note `key`, by first match.
    pub fn get(&self, key: u8) -> (r: Option<u8>)
        ensures
            r == spec_arm_get(self.mapping@, key),
    {
        let n = self.mapping.len();
        for i in 0..n
            invariant
                n == self.mapping@.len(),
                spec_arm_get(self.mapping@, key) == spec_arm_get_from(self.mapping@, key, i as int),
        {
            if self.mapping[i].0 == key {
                return Some(self.mapping[i].1);
            }
        }
        None
    }
}

/// An owned copy of a note mapping.
fn copy_mapping(src: &Vec<(u8, u8)>) -> (r: Vec<(u8, u8)>)
    ensures
        r@ == src@,
{
    let mut r: Vec<(u8, u8)> = Vec::new();
    let n = src.len();
    for i in 0..n
        invariant
            n == src@.len(),
            r@ == src@.take(i as int),
    {
        r.push(src[i]);
        assert(r@ =~= src@.take(i as int + 1));
    }
    assert(r@ =~= src@);
    r
}

/// Whether the message is a kick: those bypass the arms.
pub open spec fn spec_is_kick(note: u8) -> bool {
    note == 35 || note == 36
}

/// The first arm at or past `i` that last played `note` and still maps it.
pub open spec fn spec_reuse_arm_from(arms: Seq<Arm>, note: u8, i: int) -> Option<int>
    decreases arms.len() - i,
{
    if i < 0 || i >= arms.len() {
        None
    } else if arms[i].last_played == note && spec_arm_get(arms[i].mapping@, note) is Some {
        Some(i)
    } else {
        spec_reuse_arm_from(arms, note, i + 1)
    }
}

/// The arm already holding `note`, if one does.
pub open spec fn spec_reuse_arm(arms: Seq<Arm>, note: u8) -> Option<int> {
    spec_reuse_arm_from(arms, note, 0)
}

/// Among arms `0 .. n` that map `note`, the least recently used; ties go
/// to the lower index.
pub open spec fn spec_lru_arm_up_to(arms: Seq<Arm>, note: u8, n: int) -> Option<int>
    decreases n,
{
    if n <= 0 || n > arms.len() {
        None
    } else {
        let prev = spec_lru_arm_up_to(arms, note, n - 1);
        let c = n - 1;
        if spec_arm_get(arms[c].mapping@, note) is Some {
            match prev {
                None => Some(c),
                Some(p) => if arms[c].ts < arms[p].ts {
                    Some(c)
                } else {
                    Some(p)
                },
            }
        } else {
            prev
        }
    }
}

/// The least recently used arm that maps `note`, if any arm does.
pub open spec fn spec_lru_arm(arms: Seq<Arm>, note: u8) -> Option<int> {
    spec_lru_arm_up_to(arms, note, arms.len() as int)
}

/// The arm a note-on is assigned to: the arm already holding the note, or
/// failing that the least recently used arm that maps it.
pub open spec fn spec_assign_arm(arms: Seq<Arm>, note: u8) -> Option<int> {
    match spec_reuse_arm(arms, note) {
        Some(i) => Some(i),
        None => spec_lru_arm(arms, note),
    }
}

/// Arm states after one message: the assigned arm (if any) is stamped
/// with the note and the clock; kicks, rejected messages and unmapped
/// notes change nothing.
pub open spec fn spec_drum_arms_after(arms: Seq<Arm>, data: MidiData, now: u64) -> Seq<Arm> {
    if !data.is_note_on() || spec_is_kick(data.note) {
        arms
    } else {
        match spec_assign_arm(arms, data.note) {
            Some(i) => arms.update(
                i,
                Arm { mapping: arms[i].mapping, last_played: data.note, ts: now },
            ),
            None => arms,
        }
    }
}

/// The action taken on one message: kicks are forwarded on `KICK_NOTE`,
/// assigned notes are forwarded rewritten to the arm's outgoing note, and
/// unmapped notes pass through unchanged with a warning. The incoming
/// channel is preserved throughout, and DrumBot never sleeps.
pub open spec fn spec_drum_action(arms: Seq<Arm>, data: MidiData, now: u64) -> Action {
    if !data.is_note_on() {
        Action::consume(ConsumeReason::IgnoredInstruction)
    } else if spec_is_kick(data.note) {
        Action {
            sleep_nanos: 0,
            effect: Effect::Forward(
                MidiData {
                    instruction: data.instruction,
                    channel: data.channel,
                    note: KICK_NOTE,
                    velocity: data.velocity,
                },
            ),
            anomaly: None,
        }
    } else {
        match spec_assign_arm(arms, data.note) {
            Some(i) => Action {
                sleep_nanos: 0,
                effect: Effect::Forward(
                    MidiData {
                        instruction: data.instruction,
                        channel: data.channel,
                        note: spec_arm_get(arms[i].mapping@, data.note)->Some_0,
                        velocity: data.velocity,
                    },
                ),
                anomaly: None,
            },
            None => Action {
                sleep_nanos: 0,
                effect: Effect::Forward(data),
                anomaly: Some(Anomaly::UnmappedDrumNote { note: data.note }),
            },
        }
    }
}

/// The multi-arm drum dispatcher. Its view is the sequence of arm states.
#[derive(Debug)]
pub struct DrumBot {
    arms: Vec<Arm>,
}

impl View for DrumBot {
    type V = Seq<Arm>;

    closed spec fn view(&self) -> Seq<Arm> {
        self.arms@
    }
}

impl DrumBot {
    /// Build one arm per configured mapping, all resting since `now`.
    pub fn new(mappings: &Vec<ArmsConfig>, now: u64) -> (r: DrumBot)
        ensures
            r@.len() == mappings@.len(),
            forall|i: int|
                0 <= i < mappings@.len() ==> {
                    &&& r@[i].mapping@ == mappings@[i].0@
                    &&& r@[i].last_played == if mappings@[i].0@.len() > 0 {
                        mappings@[i].0@[0].0
                    } else {
                        0u8
                    }
                    &&& r@[i].ts == now
                },
    {
        let mut arms: Vec<Arm> = Vec::new();
        let n = mappings.len();
        for k in 0..n
            invariant
                n == mappings@.len(),
                arms@.len() == k,
                forall|i: int|
                    0 <= i < k ==> {
                        &&& arms@[i].mapping@ == mappings@[i].0@
                        &&& arms@[i].last_played == if mappings@[i].0@.len() > 0 {
                            mappings@[i].0@[0].0
                        } else {
                            0u8
                        }
                        &&& arms@[i].ts == now
                    },
        {
            arms.push(Arm::new(copy_mapping(&mappings[k].0), now));
        }
        DrumBot { arms }
    }

    /// The state of arm `i`, for hosts and tests.
    pub fn arm_state(&self, i: usize) -> (r: &Arm)
        requires
            i < self@.len(),
        ensures
            *r == self@[i as int],
    {
        &self.arms[i]
    }

    /// The number of arms.
    pub fn arm_count(&self) -> (r: usize)
        ensures
            r == self@.len(),
    {
        self.arms.len()
    }

    /// Process one message. Only note-ons with nonzero velocity are
    /// handled; kicks bypass the arms on the fixed kick note; otherwise
    /// the note goes to the arm that last played it, then to the least
    /// recently used arm mapping it (stamping that arm's state), and a
    /// note no arm maps passes through unchanged with a warning.
    pub fn call(&mut self, data: MidiData, now: u64) -> (act: Action)
        ensures
            final(self)@ == spec_drum_arms_after(old(self)@, data, now),
            act == spec_drum_action(old(self)@, data, now),
    {
        if data.instruction != crate::midi::NOTE_ON || data.velocity == 0 {
            return Action {
                sleep_nanos: 0,
                effect: Effect::Consume(ConsumeReason::IgnoredInstruction),
                anomaly: None,
            };
        }
        if data.note == 35 || data.note == 36 {
            return Action {
                sleep_nanos: 0,
                effect: Effect::Forward(
                    MidiData {
                        instruction: data.instruction,
                        channel: data.channel,
                        note: KICK_NOTE,
                        velocity: data.velocity,
                    },
                ),
                anomaly: None,
            };
        }
        let assigned = self.assign_arm(data.note);
        match assigned {
            Some(p) => {
                let (i, out) = p;
                let arm = &mut self.arms[i];
                arm.last_played = data.note;
                arm.ts = now;
                Action {
                    sleep_nanos: 0,
                    effect: Effect::Forward(
                        MidiData {
                            instruction: data.instruction,
                            channel: data.channel,
                            note: out,
                            velocity: data.velocity,
                        },
                    ),
                    anomaly: None,
                }
            },
            None => Action {
                sleep_nanos: 0,
                effect: Effect::Forward(data),
                anomaly: Some(Anomaly::UnmappedDrumNote { note: data.note }),
            },
        }
    }

    /// The arm for a non-kick note-on, with its outgoing note: the arm
    /// that last played the note, else the least recently used arm that
    /// maps it.
    fn assign_arm(&self, note: u8) -> (r: Option<(usize, u8)>)
        ensures
            match r {
                Some(p) => {
                    &&& p.0 < self@.len()
                    &&& spec_assign_arm(self@, note) == Some(p.0 as int)
                    &&& Some(p.1) == spec_arm_get(self@[p.0 as int].mapping@, note)
                },
                None => spec_assign_arm(self@, note) is None,
            },
    {
        let n = self.arms.len();
        // The sticky pass: the arm that last played this note.
        for i in 0..n
            invariant
                n == self@.len(),
                spec_reuse_arm(self@, note) == spec_reuse_arm_from(self@, note, i as int),
        {
            if self.arms[i].last_played == note {
                match self.arms[i].get(note) {
                    Some(out) => {
                        return Some((i, out));
                    },
                    None => {
                        assert(spec_reuse_arm_from(self@, note, i as int)
                            == spec_reuse_arm_from(self@, note, i as int + 1));
                    },
                }
            }
        }
        // The least-recently-used pass over arms that map the note.
        let mut best: Option<(usize, u8, u64)> = None;
        for i in 0..n
            invariant
                n == self@.len(),
                spec_reuse_arm(self@, note) is None,
                match best {
                    Some(b) => {
                        &&& b.0 < self@.len()
                        &&& spec_lru_arm_up_to(self@, note, i as int) == Some(b.0 as int)
                        &&& Some(b.1) == spec_arm_get(self@[b.0 as int].mapping@, note)
                        &&& b.2 == self@[b.0 as int].ts
                    },
                    None => spec_lru_arm_up_to(self@, note, i as int) is None,
                },
        {
            match self.arms[i].get(note) {
                Some(out) => {
                    let ts = self.arms[i].ts;
                    match best {
                        None => {
                            best = Some((i, out, ts));
                        },
                        Some(b) => {
                            if ts < b.2 {
                                best = Some((i, out, ts));
                            }
                        },
                    }
                },
                None => {},
            }
        }
        match best {
            Some(b) => Some((b.0, b.1)),
            None => None,
        }
    }

    /// The node's intrinsic contribution to end-to-end latency: fixed, so
    /// that downstream delay nodes can absorb the alignment.
    pub fn delay(&self) -> (r: u64)
        ensures
            r == DRUMBOT_DELAY_NANOS,
    {
        DRUMBOT_DELAY_NANOS
    }
}

} // verus!
