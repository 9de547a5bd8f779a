//! The processing nodes of the graph.
//!
//! The node variants are a closed set: the graph entry and exit adaptors,
//! the passthrough logger, the timed delay, the two instrument
//! dispatchers, and the scripted transform whose body the host runs.
//! Each node answers a message with an [`Action`]; `spec_node_step`
//! relates a node's state before and after one message to that action,
//! and `spec_node_delay` is the node's intrinsic contribution to
//! end-to-end latency, used only at graph-build time.

use vstd::prelude::*;
use crate::action::{Action, ConsumeReason, Effect};
use crate::drumbot::{spec_drum_action, spec_drum_arms_after, DrumBot, DRUMBOT_DELAY_NANOS};
use crate::mechbass::{spec_mech_action, spec_mech_strings_after, MechBass};
use crate::midi::MidiData;
use crate::pan::MAX_PAN_NANOS;

verus! {

/// A processing node's state. A graph edge lives outside the body, in the
/// owning graph, so a body can be stepped on its own.
#[derive(Debug)]
pub enum NodeBody {
    /// Graph entry: the external MIDI source delivers here. Called from
    /// inside the graph it consumes the message, sources are not sinks.
    Input,
    /// Graph exit: emits the message to the external MIDI sink.
    Output,
    /// Passthrough; the host logs the message as it goes by.
    Debug,
    /// Sleep for the fixed duration, then forward.
    Delay { duration_nanos: u64 },
    /// The four-string bass dispatcher.
    Mech(MechBass),
    /// The multi-arm drum dispatcher.
    Drum(DrumBot),
    /// An externally supplied transform: the node sleeps `duration_nanos`
    /// and hands the message to the host, which runs the transform and
    /// delivers the result to the node's child.
    Scripted { duration_nanos: u64, source: String },
}

impl NodeBody {
    /// Structural well-formedness of the node's state.
    pub open spec fn wf(&self) -> bool {
        match self {
            NodeBody::Mech(m) => m.wf(),
            _ => true,
        }
    }

    /// The node's intrinsic contribution to end-to-end latency: what the
    /// builder accumulates along edges, not what a given message sleeps.
    pub open spec fn spec_delay(&self) -> int {
        match self {
            NodeBody::Input => 0,
            NodeBody::Output => 0,
            NodeBody::Debug => 0,
            NodeBody::Delay { duration_nanos } => *duration_nanos as int,
            NodeBody::Mech(_) => MAX_PAN_NANOS as int,
            NodeBody::Drum(_) => DRUMBOT_DELAY_NANOS as int,
            NodeBody::Scripted { duration_nanos, .. } => *duration_nanos as int,
        }
    }

    /// The node's intrinsic contribution to end-to-end latency.
    pub fn delay(&self) -> (r: u64)
        ensures
            r == self.spec_delay(),
    {
        match self {
            NodeBody::Input => 0,
            NodeBody::Output => 0,
            NodeBody::Debug => 0,
            NodeBody::Delay { duration_nanos } => *duration_nanos,
            NodeBody::Mech(_) => MAX_PAN_NANOS,
            NodeBody::Drum(_) => DRUMBOT_DELAY_NANOS,
            NodeBody::Scripted { duration_nanos, .. } => *duration_nanos,
        }
    }

    /// Process one message delivered from inside the graph.
    pub fn call(&mut self, data: MidiData, now: u64) -> (act: Action)
        requires
            old(self).wf(),
        ensures
            final(self).wf(),
            spec_node_step(*old(self), *final(self), data, now, act),
    {
        match self {
            NodeBody::Input => Action {
                sleep_nanos: 0,
                effect: Effect::Consume(ConsumeReason::Source),
                anomaly: None,
            },
            NodeBody::Output => Action { sleep_nanos: 0, effect: Effect::Emit(data), anomaly: None },
            NodeBody::Debug => Action {
                sleep_nanos: 0,
                effect: Effect::Forward(data),
                anomaly: None,
            },
            NodeBody::Delay { duration_nanos } => Action {
                sleep_nanos: *duration_nanos,
                effect: Effect::Forward(data),
                anomaly: None,
            },
            NodeBody::Mech(m) => m.call(data, now),
            NodeBody::Drum(d) => d.call(data, now),
            NodeBody::Scripted { duration_nanos, .. } => Action {
                sleep_nanos: *duration_nanos,
                effect: Effect::AwaitScript(data),
                anomaly: None,
            },
        }
    }
}

/// How one message steps a node: the state after the message and the
/// action taken, as a relation between the state before and after.
pub open spec fn spec_node_step(
    pre: NodeBody,
    post: NodeBody,
    data: MidiData,
    now: u64,
    act: Action,
) -> bool {
    match pre {
        NodeBody::Input => post == pre && act == Action::consume(ConsumeReason::Source),
        NodeBody::Output => post == pre && act == (Action {
            sleep_nanos: 0,
            effect: Effect::Emit(data),
            anomaly: None,
        }),
        NodeBody::Debug => post == pre && act == (Action {
            sleep_nanos: 0,
            effect: Effect::Forward(data),
            anomaly: None,
        }),
        NodeBody::Delay { duration_nanos } => post == pre && act == (Action {
            sleep_nanos: duration_nanos,
            effect: Effect::Forward(data),
            anomaly: None,
        }),
        NodeBody::Mech(m) => {
            &&& post matches NodeBody::Mech(m2) && m2@ == spec_mech_strings_after(m@, data, now)
            &&& act == spec_mech_action(m@, data, now)
        },
        NodeBody::Drum(d) => {
            &&& post matches NodeBody::Drum(d2) && d2@ == spec_drum_arms_after(d@, data, now)
            &&& act == spec_drum_action(d@, data, now)
        },
        NodeBody::Scripted { duration_nanos, source } => post == pre && act == (Action {
            sleep_nanos: duration_nanos,
            effect: Effect::AwaitScript(data),
            anomaly: None,
        }),
    }
}

/// How a message enters the graph at a node: at an input node the
/// external callback hands the message straight to the node's edge, so
/// the input forwards it unchanged and at once; entering anywhere else is
/// an ordinary step.
pub open spec fn spec_entry_step(
    pre: NodeBody,
    post: NodeBody,
    data: MidiData,
    now: u64,
    act: Action,
) -> bool {
    if pre is Input {
        post == pre && act == (Action {
            sleep_nanos: 0,
            effect: Effect::Forward(data),
            anomaly: None,
        })
    } else {
        spec_node_step(pre, post, data, now, act)
    }
}

/// One step of a traversal: the entry node is stepped as the point where
/// the message enters the graph, every later node as an ordinary call.
/// Opaque so that a traversal can carry one such fact per visited node
/// without unfolding the step relations; reveal it to read a step.
#[verifier::opaque]
pub open spec fn spec_step_at(
    pre: NodeBody,
    post: NodeBody,
    data: MidiData,
    now: u64,
    act: Action,
    is_entry: bool,
) -> bool {
    if is_entry {
        spec_entry_step(pre, post, data, now, act)
    } else {
        spec_node_step(pre, post, data, now, act)
    }
}

} // verus!
