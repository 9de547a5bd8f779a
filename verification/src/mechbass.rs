//! The MechBass string dispatcher.
//!
//! A four-string mechanical bass whose fret-carriages pan between notes.
//! String `s` plays notes in `[tuning(s), tuning(s) + FRETS)`. Every
//! dispatched note sleeps `MAX_PAN_NANOS - t(d)` before it is forwarded,
//! where `t(d)` is the pan time for the carriage's move, so that the
//! acoustic onset lands a fixed `MAX_PAN_NANOS` after the note arrived,
//! whatever the pan distance. Note-offs are paired to the string that
//! played the note by state, not by arrival order.
//!
//! Clock readings are handed in by the caller as nanoseconds of a
//! monotonic clock. Stored notes may lie outside a string's playable
//! range after a steal; fret positions clamp to the carriage's physical
//! range `0 ..= FRETS`.

use vstd::prelude::*;
use crate::action::{Action, Anomaly, ConsumeReason, Effect};
use crate::midi::{MidiData, NOTE_OFF, NOTE_ON};
use crate::pan::{
    lemma_pan_time_max, pan_time_nanos, spec_pan_time_nanos, spec_tuning, tuning, FRETS,
    MAX_PAN_NANOS,
};

verus! {

/// The state of one string: whether it is sounding, the last note its
/// carriage was sent to, the pan sleep committed for that note, and the
/// monotonic time of the last state change.
#[derive(Clone, Copy, Debug, PartialEq, Eq, Structural)]
pub struct PlayedNote {
    pub playing: bool,
    pub note: u8,
    pub delay: u64,
    pub ts: u64,
}

impl PlayedNote {
    /// The resting state of a string whose carriage sits at `note`.
    pub fn default(note: u8, now: u64) -> (r: PlayedNote)
        ensures
            r == (PlayedNote { playing: false, note, delay: 0u64, ts: now }),
    {
        PlayedNote { playing: false, note, delay: 0, ts: now }
    }

    /// The state of a string that starts sounding `note` at `now` after a
    /// pan sleep of `delay` nanoseconds.
    pub fn play(note: u8, delay: u64, now: u64) -> (r: PlayedNote)
        ensures
            r == (PlayedNote { playing: true, note, delay, ts: now }),
    {
        PlayedNote { playing: true, note, delay, ts: now }
    }
}

/// Fret position of `note` on string `s`, clamped to the carriage's
/// physical range `0 ..= FRETS`.
pub open spec fn spec_fret(s: int, note: u8) -> int {
    let t = spec_tuning(s);
    if note < t {
        0
    } else if note - t > FRETS {
        FRETS as int
    } else {
        note - t
    }
}

/// Fret position of `note` on string `s`, clamped to the carriage's range.
pub fn fret(s: usize, note: u8) -> (r: u8)
    requires
        s < 4,
    ensures
        r == spec_fret(s as int, note),
        r <= FRETS,
{
    let t = tuning(s);
    if note < t {
        0
    } else if note - t > FRETS {
        FRETS
    } else {
        note - t
    }
}

/// Whether string `s` can play `note` without clamping.
pub open spec fn spec_is_candidate(s: int, note: u8) -> bool {
    spec_tuning(s) <= note < spec_tuning(s) + FRETS
}

/// The pan sleep for dispatching `note` to string `s`: the fixed deadline
/// minus the pan time from the carriage's current position.
pub open spec fn spec_panning_delay(strings: Seq<PlayedNote>, s: int, note: u8) -> int {
    MAX_PAN_NANOS - spec_pan_time_nanos(spec_fret(s, strings[s].note), spec_fret(s, note))
}

/// Whether a string can take a new note at `now`: it is not sounding, and
/// the sleep deadline of its previous note lies before the new note's.
pub open spec fn spec_is_free(p: PlayedNote, delay: int, now: u64) -> bool {
    &&& !p.playing
    &&& now + delay > p.ts + p.delay
}

/// The free candidate string with the longest pan sleep (equivalently, the
/// shortest pan) among strings `0 .. n`; ties go to the lower index.
pub open spec fn spec_best_free_up_to(
    strings: Seq<PlayedNote>,
    note: u8,
    now: u64,
    n: int,
) -> Option<int>
    decreases n,
{
    if n <= 0 {
        None
    } else {
        let prev = spec_best_free_up_to(strings, note, now, n - 1);
        let c = n - 1;
        if spec_is_candidate(c, note) && spec_is_free(
            strings[c],
            spec_panning_delay(strings, c, note),
            now,
        ) {
            match prev {
                None => Some(c),
                Some(p) => if spec_panning_delay(strings, c, note) > spec_panning_delay(
                    strings,
                    p,
                    note,
                ) {
                    Some(c)
                } else {
                    Some(p)
                },
            }
        } else {
            prev
        }
    }
}

/// The preferred free string for `note`, if any string is free.
pub open spec fn spec_best_free(strings: Seq<PlayedNote>, note: u8, now: u64) -> Option<int> {
    spec_best_free_up_to(strings, note, now, 4)
}

/// The string stolen when no candidate is free: the lowest-numbered string
/// whose tuning does not exceed `note`.
pub open spec fn spec_steal_channel(note: u8) -> Option<int> {
    if note >= spec_tuning(0) {
        Some(0)
    } else if note >= spec_tuning(1) {
        Some(1)
    } else if note >= spec_tuning(2) {
        Some(2)
    } else if note >= spec_tuning(3) {
        Some(3)
    } else {
        None
    }
}

/// Channel allocation for a note-on: the chosen string, its pan sleep, and
/// whether the string had to be stolen.
pub open spec fn spec_dispatch(strings: Seq<PlayedNote>, note: u8, now: u64) -> (int, int, bool) {
    match spec_best_free(strings, note, now) {
        Some(c) => (c, spec_panning_delay(strings, c, note), false),
        None => match spec_steal_channel(note) {
            Some(s) => (s, spec_panning_delay(strings, s, note), true),
            None => (0, spec_panning_delay(strings, 0, note), true),
        },
    }
}

/// The lowest-numbered string at or past `i` that is sounding `note`.
pub open spec fn spec_find_playing_from(strings: Seq<PlayedNote>, note: u8, i: int) -> Option<int>
    decreases strings.len() - i,
{
    if i < 0 || i >= strings.len() {
        None
    } else if strings[i].playing && strings[i].note == note {
        Some(i)
    } else {
        spec_find_playing_from(strings, note, i + 1)
    }
}

/// The string that is sounding `note`, if any.
pub open spec fn spec_find_playing(strings: Seq<PlayedNote>, note: u8) -> Option<int> {
    spec_find_playing_from(strings, note, 0)
}

/// String states after one message: a note-on commits the dispatched
/// string, a note-off clears the matched string, everything else leaves
/// the state alone.
pub open spec fn spec_mech_strings_after(
    strings: Seq<PlayedNote>,
    data: MidiData,
    now: u64,
) -> Seq<PlayedNote> {
    if data.instruction != NOTE_OFF && data.instruction != NOTE_ON {
        strings
    } else if data.is_note_on() {
        let (ch, d, stolen) = spec_dispatch(strings, data.note, now);
        strings.update(ch, PlayedNote { playing: true, note: data.note, delay: d as u64, ts: now })
    } else {
        match spec_find_playing(strings, data.note) {
            Some(s) => strings.update(
                s,
                PlayedNote {
                    playing: false,
                    note: strings[s].note,
                    delay: strings[s].delay,
                    ts: now,
                },
            ),
            None => strings,
        }
    }
}

/// The action taken on one message: the pan sleep, the rewritten message
/// whose channel field is the dispatched string index, and any anomaly.
pub open spec fn spec_mech_action(strings: Seq<PlayedNote>, data: MidiData, now: u64) -> Action {
    if data.instruction != NOTE_OFF && data.instruction != NOTE_ON {
        Action::consume(ConsumeReason::IgnoredInstruction)
    } else if data.is_note_on() {
        let (ch, d, stolen) = spec_dispatch(strings, data.note, now);
        Action {
            sleep_nanos: d as u64,
            effect: Effect::Forward(
                MidiData {
                    instruction: data.instruction,
                    channel: ch as u8,
                    note: data.note,
                    velocity: data.velocity,
                },
            ),
            anomaly: if stolen {
                Some(
                    Anomaly::StringStolen {
                        channel: ch as u8,
                        previous: strings[ch].note,
                        note: data.note,
                    },
                )
            } else {
                None
            },
        }
    } else {
        match spec_find_playing(strings, data.note) {
            Some(s) => Action {
                sleep_nanos: strings[s].delay,
                effect: Effect::Forward(
                    MidiData {
                        instruction: data.instruction,
                        channel: s as u8,
                        note: data.note,
                        velocity: data.velocity,
                    },
                ),
                anomaly: None,
            },
            None => Action {
                sleep_nanos: 0,
                effect: Effect::Consume(ConsumeReason::UnmatchedNoteOff),
                anomaly: Some(Anomaly::UnmatchedNoteOff { note: data.note }),
            },
        }
    }
}

/// The four-string dispatcher. Its view is the sequence of string states.
#[derive(Debug)]
pub struct MechBass {
    strings: Vec<PlayedNote>,
}

impl View for MechBass {
    type V = Seq<PlayedNote>;

    closed spec fn view(&self) -> Seq<PlayedNote> {
        self.strings@
    }
}

impl MechBass {
    /// Well-formed: one state per string.
    pub open spec fn wf(&self) -> bool {
        self@.len() == 4
    }

    /// A fresh dispatcher: every carriage rests at its open-string note.
    pub fn new(now: u64) -> (r: MechBass)
        ensures
            r.wf(),
            forall|s: int|
                0 <= s < 4 ==> r@[s] == (PlayedNote {
                    playing: false,
                    note: spec_tuning(s) as u8,
                    delay: 0u64,
                    ts: now,
                }),
    {
        let mut strings: Vec<PlayedNote> = Vec::new();
        strings.push(PlayedNote::default(tuning(0), now));
        strings.push(PlayedNote::default(tuning(1), now));
        strings.push(PlayedNote::default(tuning(2), now));
        strings.push(PlayedNote::default(tuning(3), now));
        let r = MechBass { strings };
        assert forall|s: int| 0 <= s < 4 implies r@[s] == (PlayedNote {
            playing: false,
            note: spec_tuning(s) as u8,
            delay: 0u64,
            ts: now,
        }) by {
            assert(r@ =~= seq![
                PlayedNote { playing: false, note: 43u8, delay: 0u64, ts: now },
                PlayedNote { playing: false, note: 38u8, delay: 0u64, ts: now },
                PlayedNote { playing: false, note: 33u8, delay: 0u64, ts: now },
                PlayedNote { playing: false, note: 28u8, delay: 0u64, ts: now },
            ]);
        }
        r
    }

    /// The state of string `s`, for hosts and tests.
    pub fn string_state(&self, s: usize) -> (r: PlayedNote)
        requires
            self.wf(),
            s < 4,
        ensures
            r == self@[s as int],
    {
        self.strings[s]
    }

    /// The pan sleep for dispatching `note` to string `channel`: the fixed
    /// deadline minus the pan time from the carriage's current position.
    pub fn panning_delay(&self, note: u8, channel: usize) -> (r: u64)
        requires
            self.wf(),
            channel < 4,
        ensures
            r == spec_panning_delay(self@, channel as int, note),
            r <= MAX_PAN_NANOS,
    {
        let prev = self.strings[channel].note;
        let pf = fret(channel, prev);
        let cf = fret(channel, note);
        let t = pan_time_nanos(pf, cf);
        proof {
            lemma_pan_time_max(pf as int, cf as int);
        }
        MAX_PAN_NANOS - t
    }

    /// Scan for the preferred free string: the free candidate with the
    /// longest pan sleep, ties to the lower index.
    fn best_free_channel(&self, note: u8, now: u64) -> (r: Option<(usize, u64)>)
        requires
            self.wf(),
        ensures
            match r {
                Some(p) => {
                    &&& p.0 < 4
                    &&& spec_best_free(self@, note, now) == Some(p.0 as int)
                    &&& p.1 == spec_panning_delay(self@, p.0 as int, note)
                },
                None => spec_best_free(self@, note, now) is None,
            },
    {
        let mut best: Option<(usize, u64)> = None;
        for ch in 0..4usize
            invariant
                self.wf(),
                match best {
                    Some(p) => {
                        &&& p.0 < 4
                        &&& spec_best_free_up_to(self@, note, now, ch as int) == Some(p.0 as int)
                        &&& p.1 == spec_panning_delay(self@, p.0 as int, note)
                    },
                    None => spec_best_free_up_to(self@, note, now, ch as int) is None,
                },
        {
            let t = tuning(ch);
            if t <= note && note < t + FRETS {
                let d = self.panning_delay(note, ch);
                let p = self.strings[ch];
                if !p.playing && (now as u128) + (d as u128) > (p.ts as u128) + (p.delay as u128) {
                    match best {
                        None => {
                            best = Some((ch, d));
                        },
                        Some(b) => {
                            if d > b.1 {
                                best = Some((ch, d));
                            }
                        },
                    }
                }
            }
        }
        best
    }

    /// The string stolen when no candidate is free: the lowest-numbered
    /// string whose tuning does not exceed `note`.
    fn steal_channel(note: u8) -> (r: Option<usize>)
        ensures
            match r {
                Some(s) => s < 4 && spec_steal_channel(note) == Some(s as int),
                None => spec_steal_channel(note) is None,
            },
    {
        if note >= tuning(0) {
            Some(0)
        } else if note >= tuning(1) {
            Some(1)
        } else if note >= tuning(2) {
            Some(2)
        } else if note >= tuning(3) {
            Some(3)
        } else {
            None
        }
    }

    /// Allocate a string for a note-on: prefer the free candidate already
    /// closest to the note; if none is free, steal one.
    pub fn dispatch_channel(&self, note: u8, now: u64) -> (r: (usize, u64))
        requires
            self.wf(),
        ensures
            r.0 < 4,
            r.0 == spec_dispatch(self@, note, now).0,
            r.1 == spec_dispatch(self@, note, now).1,
            r.1 <= MAX_PAN_NANOS,
    {
        match self.best_free_channel(note, now) {
            Some(p) => p,
            None => match Self::steal_channel(note) {
                Some(s) => (s, self.panning_delay(note, s)),
                None => (0, self.panning_delay(note, 0)),
            },
        }
    }

    /// Find the string sounding `note`, with its committed pan sleep.
    pub fn find_playing(&self, note: u8) -> (r: Option<(usize, u64)>)
        requires
            self.wf(),
        ensures
            match r {
                Some(p) => {
                    &&& p.0 < 4
                    &&& spec_find_playing(self@, note) == Some(p.0 as int)
                    &&& p.1 == self@[p.0 as int].delay
                },
                None => spec_find_playing(self@, note) is None,
            },
    {
        for ch in 0..4usize
            invariant
                self.wf(),
                spec_find_playing(self@, note) == spec_find_playing_from(self@, note, ch as int),
        {
            let p = self.strings[ch];
            if p.playing && p.note == note {
                return Some((ch, p.delay));
            }
        }
        None
    }

    /// Process one message. A note-on allocates a string, commits its
    /// state, and forwards the message rewritten so that the channel field
    /// is the string index; a note-off (or note-on with velocity 0) clears
    /// the matched string and forwards with the same rewriting, or is
    /// consumed with a warning when no string matches; anything else is
    /// consumed. The returned sleep is served by the caller before the
    /// effect takes place.
    pub fn call(&mut self, data: MidiData, now: u64) -> (act: Action)
        requires
            old(self).wf(),
        ensures
            final(self).wf(),
            final(self)@ == spec_mech_strings_after(old(self)@, data, now),
            act == spec_mech_action(old(self)@, data, now),
    {
        if data.instruction != NOTE_OFF && data.instruction != NOTE_ON {
            return Action {
                sleep_nanos: 0,
                effect: Effect::Consume(ConsumeReason::IgnoredInstruction),
                anomaly: None,
            };
        }
        if data.instruction == NOTE_ON && data.velocity != 0 {
            let best = self.best_free_channel(data.note, now);
            let (ch, d, stolen): (usize, u64, bool) = match best {
                Some(p) => (p.0, p.1, false),
                None => match Self::steal_channel(data.note) {
                    Some(s) => (s, self.panning_delay(data.note, s), true),
                    None => (0, self.panning_delay(data.note, 0), true),
                },
            };
            let previous = self.strings[ch].note;
            self.strings[ch] = PlayedNote::play(data.note, d, now);
            Action {
                sleep_nanos: d,
                effect: Effect::Forward(
                    MidiData {
                        instruction: data.instruction,
                        channel: ch as u8,
                        note: data.note,
                        velocity: data.velocity,
                    },
                ),
                anomaly: if stolen {
                    Some(Anomaly::StringStolen { channel: ch as u8, previous, note: data.note })
                } else {
                    None
                },
            }
        } else {
            match self.find_playing(data.note) {
                Some(p) => {
                    let (s, d) = p;
                    let prev = self.strings[s];
                    self.strings[s] = PlayedNote {
                        playing: false,
                        note: prev.note,
                        delay: prev.delay,
                        ts: now,
                    };
                    Action {
                        sleep_nanos: d,
                        effect: Effect::Forward(
                            MidiData {
                                instruction: data.instruction,
                                channel: s as u8,
                                note: data.note,
                                velocity: data.velocity,
                            },
                        ),
                        anomaly: None,
                    }
                },
                None => Action {
                    sleep_nanos: 0,
                    effect: Effect::Consume(ConsumeReason::UnmatchedNoteOff),
                    anomaly: Some(Anomaly::UnmatchedNoteOff { note: data.note }),
                },
            }
        }
    }

    /// The node's intrinsic contribution to end-to-end latency: every
    /// dispatched note lands `MAX_PAN_NANOS` after it arrived.
    pub fn delay(&self) -> (r: u64)
        ensures
            r == MAX_PAN_NANOS,
    {
        MAX_PAN_NANOS
    }
}

/// A chosen free string really is a free candidate below the scan bound.
proof fn lemma_best_free_in_range(strings: Seq<PlayedNote>, note: u8, now: u64, n: int)
    ensures
        match spec_best_free_up_to(strings, note, now, n) {
            Some(c) => {
                &&& 0 <= c < n
                &&& spec_is_candidate(c, note)
                &&& spec_is_free(strings[c], spec_panning_delay(strings, c, note), now)
                &&& forall|c2: int|
                    0 <= c2 < n && spec_is_candidate(c2, note) && spec_is_free(
                        strings[c2],
                        spec_panning_delay(strings, c2, note),
                        now,
                    ) ==> spec_panning_delay(strings, c2, note) <= spec_panning_delay(
                        strings,
                        c,
                        note,
                    )
            },
            None => forall|c2: int|
                0 <= c2 < n ==> !(spec_is_candidate(c2, note) && spec_is_free(
                    strings[c2],
                    spec_panning_delay(strings, c2, note),
                    now,
                )),
        },
    decreases n,
{
    if n > 0 {
        lemma_best_free_in_range(strings, note, now, n - 1);
    }
}

/// The dispatcher prefers the string already closest to the note: when a
/// note-on is not a steal, the chosen string is a free candidate whose
/// pan sleep is maximal — equivalently, whose pan distance is minimal —
/// among all free candidates; and a steal happens only when no candidate
/// string is free.
pub proof fn lemma_dispatch_prefers_closest(strings: Seq<PlayedNote>, note: u8, now: u64)
    requires
        strings.len() == 4,
    ensures
        ({
            let (ch, d, stolen) = spec_dispatch(strings, note, now);
            if !stolen {
                &&& spec_is_candidate(ch, note)
                &&& spec_is_free(strings[ch], d, now)
                &&& forall|c2: int|
                    0 <= c2 < 4 && spec_is_candidate(c2, note) && spec_is_free(
                        strings[c2],
                        spec_panning_delay(strings, c2, note),
                        now,
                    ) ==> spec_panning_delay(strings, c2, note) <= d
            } else {
                forall|c2: int|
                    0 <= c2 < 4 ==> !(spec_is_candidate(c2, note) && spec_is_free(
                        strings[c2],
                        spec_panning_delay(strings, c2, note),
                        now,
                    ))
            }
        }),
{
    lemma_best_free_in_range(strings, note, now, 4);
}

/// The scan for a sounding string returns the first match at or past `i`,
/// and returns nothing only when nothing at or past `i` matches.
proof fn lemma_find_playing_from_props(strings: Seq<PlayedNote>, note: u8, i: int)
    requires
        0 <= i <= strings.len(),
    ensures
        match spec_find_playing_from(strings, note, i) {
            Some(s) => {
                &&& i <= s < strings.len()
                &&& strings[s].playing && strings[s].note == note
                &&& forall|j: int|
                    i <= j < s ==> !(strings[j].playing && strings[j].note == note)
            },
            None => forall|j: int|
                i <= j < strings.len() ==> !(strings[j].playing && strings[j].note == note),
        },
    decreases strings.len() - i,
{
    if i < strings.len() && !(strings[i].playing && strings[i].note == note) {
        lemma_find_playing_from_props(strings, note, i + 1);
    }
}

/// When exactly one string sounds `note`, the scan finds that string.
proof fn lemma_find_playing_unique(strings: Seq<PlayedNote>, note: u8, s: int)
    requires
        0 <= s < strings.len(),
        strings[s].playing && strings[s].note == note,
        forall|j: int|
            0 <= j < strings.len() && j != s ==> !(strings[j].playing && strings[j].note == note),
    ensures
        spec_find_playing(strings, note) == Some(s),
{
    lemma_find_playing_from_props(strings, note, 0);
}

/// Pan compensation. Whatever string a note-on is dispatched to, the pan
/// sleep plus the physical pan time of the carriage's move equals the
/// fixed deadline `MAX_PAN_NANOS`: closer moves sleep longer, further
/// moves sleep less, and the acoustic onset lands at the same distance
/// from the note's arrival whatever the pan.
pub proof fn lemma_pan_compensation(strings: Seq<PlayedNote>, note: u8, now: u64)
    requires
        strings.len() == 4,
    ensures
        ({
            let (ch, d, stolen) = spec_dispatch(strings, note, now);
            &&& 0 <= ch < 4
            &&& d + spec_pan_time_nanos(spec_fret(ch, strings[ch].note), spec_fret(ch, note))
                == MAX_PAN_NANOS
            &&& 0 <= d <= MAX_PAN_NANOS
        }),
{
    lemma_best_free_in_range(strings, note, now, 4);
    let (ch, d, stolen) = spec_dispatch(strings, note, now);
    lemma_pan_time_max(spec_fret(ch, strings[ch].note), spec_fret(ch, note));
}

/// Note-on/note-off pairing. Starting from any state in which no string
/// sounds the note, an accepted note-on commits exactly one string, and a
/// later note-off for the same note (with no other change to the
/// dispatcher in between) is accepted on that same string, is forwarded
/// with that string index as its channel, and sets the string's `playing`
/// flag back to false exactly once, touching no other string.
pub proof fn lemma_note_on_off_pairing(
    strings: Seq<PlayedNote>,
    on: MidiData,
    off: MidiData,
    now1: u64,
    now2: u64,
)
    requires
        strings.len() == 4,
        on.is_note_on(),
        off.note == on.note,
        off.instruction == NOTE_OFF || (off.instruction == NOTE_ON && off.velocity == 0),
        forall|j: int| 0 <= j < 4 ==> !(strings[j].playing && strings[j].note == on.note),
    ensures
        ({
            let ch = spec_dispatch(strings, on.note, now1).0;
            let s1 = spec_mech_strings_after(strings, on, now1);
            let s2 = spec_mech_strings_after(s1, off, now2);
            &&& 0 <= ch < 4
            &&& s1[ch].playing && s1[ch].note == on.note
            &&& forall|j: int|
                0 <= j < 4 && j != ch ==> !(s1[j].playing && s1[j].note == on.note)
            &&& spec_mech_action(s1, off, now2).effect == Effect::Forward(
                MidiData {
                    instruction: off.instruction,
                    channel: ch as u8,
                    note: off.note,
                    velocity: off.velocity,
                },
            )
            &&& !s2[ch].playing
            &&& forall|j: int| 0 <= j < 4 && j != ch ==> s2[j] == s1[j]
        }),
{
    lemma_best_free_in_range(strings, on.note, now1, 4);
    let ch = spec_dispatch(strings, on.note, now1).0;
    let s1 = spec_mech_strings_after(strings, on, now1);
    lemma_find_playing_unique(s1, on.note, ch);
}

} // verus!
