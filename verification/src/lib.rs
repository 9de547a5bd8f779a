//! MechSync: a verified core for routing live MIDI events through a
//! user-configured graph of processing nodes, so that mechanical
//! instruments with different actuation latencies play in synchrony.
//!
//! The crate holds the graph execution core: the 3-byte MIDI frame codec,
//! the equal-temperament panning-time model, the MechBass string
//! dispatcher, the DrumBot arm dispatcher, the delay nodes, and the
//! configuration-to-graph builder with delay propagation. The host
//! process supplies the OS MIDI ports, the coroutine runtime and the
//! monotonic clock readings; every decision taken on a message is made
//! here, under contract.

pub mod action;
pub mod config;
pub mod drumbot;
pub mod graph;
pub mod mechbass;
pub mod midi;
pub mod node;
pub mod pan;
