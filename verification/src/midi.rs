//! The 3-byte MIDI frame and its codec.
//!
//! A frame is `[(instruction << 4) | channel, note, velocity]`. The
//! instructions of interest are note-off (`0x8`) and note-on (`0x9`); a
//! note-on with velocity 0 is semantically a note-off.

use vstd::prelude::*;

verus! {

/// Note-off instruction nibble.
pub const NOTE_OFF: u8 = 0x8;

/// Note-on instruction nibble.
pub const NOTE_ON: u8 = 0x9;

/// A decoded MIDI frame: 4-bit instruction, 4-bit channel, and the two
/// payload bytes (note and velocity).
#[derive(Clone, Copy, Debug, PartialEq, Eq, Structural)]
pub struct MidiData {
    pub instruction: u8,
    pub channel: u8,
    pub note: u8,
    pub velocity: u8,
}

impl MidiData {
    /// A frame is well formed when instruction and channel fit in their
    /// nibbles, as they do for every frame read off the wire.
    pub open spec fn wf(self) -> bool {
        self.instruction <= 0xf && self.channel <= 0xf
    }

    /// What decoding a byte slice yields: missing bytes read as zero.
    pub open spec fn spec_from_slice(data: Seq<u8>) -> MidiData {
        MidiData {
            instruction: if data.len() >= 1 { data[0] >> 4u8 } else { 0u8 },
            channel: if data.len() >= 1 { data[0] & 0x0fu8 } else { 0u8 },
            note: if data.len() >= 2 { data[1] } else { 0u8 },
            velocity: if data.len() >= 3 { data[2] } else { 0u8 },
        }
    }

    /// Decode a frame from raw bytes. Bytes past the third are ignored and
    /// missing bytes decode to zero, so any slice decodes cleanly.
    pub fn from_slice(data: &[u8]) -> (r: MidiData)
        ensures
            r == Self::spec_from_slice(data@),
            r.wf(),
    {
        if data.len() == 0 {
            return MidiData { instruction: 0, channel: 0, note: 0, velocity: 0 };
        }
        let first: u8 = data[0];
        let note: u8 = if data.len() >= 2 { data[1] } else { 0 };
        let velocity: u8 = if data.len() >= 3 { data[2] } else { 0 };
        let instruction: u8 = first >> 4u8;
        let channel: u8 = first & 0x0f;
        assert(instruction <= 0xf && channel <= 0xf) by (bit_vector)
            requires instruction == first >> 4u8 && channel == first & 0x0fu8;
        MidiData { instruction, channel, note, velocity }
    }

    /// What encoding yields: the status byte packs instruction and channel.
    pub open spec fn spec_to_array(self) -> Seq<u8> {
        seq![(self.instruction << 4u8) | self.channel, self.note, self.velocity]
    }

    /// Encode the frame back to its 3-byte wire form.
    pub fn to_array(&self) -> (r: [u8; 3])
        ensures
            r@ == self.spec_to_array(),
    {
        let status: u8 = (self.instruction << 4u8) | self.channel;
        let r = [status, self.note, self.velocity];
        assert(r@ =~= self.spec_to_array());
        r
    }

    /// Whether the frame starts a note: a note-on with nonzero velocity.
    pub open spec fn is_note_on(self) -> bool {
        self.instruction == NOTE_ON && self.velocity != 0
    }
}

/// Decoding undoes encoding: a well-formed frame survives the round trip
/// through its 3-byte wire form unchanged.
pub proof fn lemma_codec_round_trip(m: MidiData)
    requires
        m.wf(),
    ensures
        MidiData::spec_from_slice(m.spec_to_array()) == m,
{
    let i = m.instruction;
    let c = m.channel;
    assert((((i << 4u8) | c) >> 4u8) == i && (((i << 4u8) | c) & 0x0fu8) == c) by (bit_vector)
        requires i <= 0xfu8 && c <= 0xfu8;
}

} // verus!
