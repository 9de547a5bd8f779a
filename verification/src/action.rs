//! What a node decides to do with one message.
//!
//! Every node, handed a message and a reading of the monotonic clock,
//! answers with an [`Action`]: how long the delivering task must sleep,
//! what happens to the message afterwards, and whether the node observed a
//! dispatch anomaly worth reporting. The host performs the sleep and the
//! forwarding; anomalies are soft warnings and never fatal.

use vstd::prelude::*;
use crate::midi::MidiData;

verus! {

/// A runtime dispatch anomaly: logged and counted by the host, never fatal.
#[derive(Clone, Copy, Debug, PartialEq, Eq)]
pub enum Anomaly {
    /// A note-on found no free string; the named string was overridden
    /// while it still held `previous`.
    StringStolen { channel: u8, previous: u8, note: u8 },
    /// A note-off arrived while no string was playing its note.
    UnmatchedNoteOff { note: u8 },
    /// No drum arm maps the note; the message passed through unchanged.
    UnmappedDrumNote { note: u8 },
}

/// Why a node consumed a message without forwarding it.
#[derive(Clone, Copy, Debug, PartialEq, Eq)]
pub enum ConsumeReason {
    /// The message reached an input node from inside the graph; inputs are
    /// sources and their `call` is a no-op.
    Source,
    /// The instruction is not one the node handles.
    IgnoredInstruction,
    /// A note-off with no string playing its note.
    UnmatchedNoteOff,
}

/// What becomes of the message once the sleep has elapsed.
#[derive(Clone, Copy, Debug, PartialEq, Eq)]
pub enum Effect {
    /// Hand the (possibly rewritten) message to the node's child.
    Forward(MidiData),
    /// The message leaves the graph: an output node serialises it and
    /// sends it to the external MIDI sink.
    Emit(MidiData),
    /// The message ends here.
    Consume(ConsumeReason),
    /// A scripted node: the host must run the external transform on the
    /// message and deliver its result to the node's child.
    AwaitScript(MidiData),
}

/// One node's decision on one message.
#[derive(Clone, Copy, Debug, PartialEq, Eq)]
pub struct Action {
    /// How long the delivering task sleeps before the effect takes place,
    /// in nanoseconds of monotonic time.
    pub sleep_nanos: u64,
    /// What becomes of the message.
    pub effect: Effect,
    /// A soft warning, if the node observed one.
    pub anomaly: Option<Anomaly>,
}

impl Action {
    /// An action that consumes the message at once, without a warning.
    pub open spec fn consume(reason: ConsumeReason) -> Action {
        Action { sleep_nanos: 0, effect: Effect::Consume(reason), anomaly: None }
    }
}

} // verus!
