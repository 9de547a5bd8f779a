use mechsync::action::{Anomaly, ConsumeReason};
use mechsync::config::{Config, NodeConfig};
use mechsync::graph::{FeedOutcome, Graph};
use mechsync::midi::MidiData;
use mechsync::node::NodeBody;
use mechsync::pan::MAX_PAN_NANOS;

fn spec(name: &str, type_: &str, next: Option<&str>) -> NodeConfig {
    NodeConfig {
        name: name.to_owned(),
        type_: type_.to_owned(),
        next: next.map(|s| s.to_owned()),
        duration_nanos: None,
        is_total: None,
        arms: None,
        source: None,
    }
}

fn note_on(note: u8, velocity: u8) -> MidiData {
    MidiData { instruction: 0x9, channel: 0, note, velocity }
}

fn bass_chain() -> Graph {
    Config {
        nodes: vec![
            spec("in", "Input", Some("bass")),
            spec("bass", "MechBass", Some("out")),
            spec("out", "Output", None),
        ],
    }
    .build(0)
    .unwrap()
}

#[test]
fn a_message_runs_from_input_to_output() {
    let mut g = bass_chain();
    let r = g.feed(0, note_on(38, 100), 0);
    assert_eq!(r.visited, vec![0, 1, 2]);
    assert_eq!(
        r.outcome,
        FeedOutcome::Emitted(MidiData { instruction: 0x9, channel: 1, note: 38, velocity: 100 })
    );
    assert_eq!(r.slept_nanos, MAX_PAN_NANOS as u128);
    assert!(r.anomalies.is_empty());
}

#[test]
fn an_unmatched_off_is_counted_and_dropped() {
    let mut g = bass_chain();
    let r = g.feed(0, MidiData { instruction: 0x8, channel: 0, note: 38, velocity: 0 }, 0);
    assert_eq!(r.outcome, FeedOutcome::Consumed { node: 1, reason: ConsumeReason::UnmatchedNoteOff });
    assert_eq!(r.anomalies, vec![Anomaly::UnmatchedNoteOff { note: 38 }]);
    assert_eq!(r.slept_nanos, 0);
}

#[test]
fn a_node_without_a_child_drops_the_message_cleanly() {
    // A node whose edge points nowhere acts as a sink: the traversal ends
    // without a panic and reports where the message fell off.
    let mut g = Graph::new();
    g.insert("lonely".to_owned(), NodeBody::Debug);
    let r = g.feed(0, note_on(60, 10), 0);
    assert_eq!(r.outcome, FeedOutcome::Emptied { node: 0 });
    assert_eq!(r.visited, vec![0]);
}

#[test]
fn a_cyclic_configuration_stops_instead_of_looping() {
    let mut g = Graph::new();
    g.insert("a".to_owned(), NodeBody::Debug);
    g.insert("b".to_owned(), NodeBody::Debug);
    g.bind(&"a".to_owned(), &"b".to_owned()).unwrap();
    g.bind(&"b".to_owned(), &"a".to_owned()).unwrap();
    let r = g.feed(0, note_on(60, 10), 0);
    assert_eq!(r.outcome, FeedOutcome::CycleStopped { node: 1 });
    assert_eq!(r.visited, vec![0, 1]);
}

#[test]
fn an_input_in_the_middle_of_a_path_is_a_sink() {
    let mut g = Graph::new();
    g.insert("dbg".to_owned(), NodeBody::Debug);
    g.insert("in".to_owned(), NodeBody::Input);
    g.bind(&"dbg".to_owned(), &"in".to_owned()).unwrap();
    let r = g.feed(0, note_on(60, 10), 0);
    assert_eq!(r.outcome, FeedOutcome::Consumed { node: 1, reason: ConsumeReason::Source });
}

#[test]
fn delay_nodes_account_their_sleep() {
    let mut g = Graph::new();
    g.insert("in".to_owned(), NodeBody::Input);
    g.insert("w1".to_owned(), NodeBody::Delay { duration_nanos: 100 });
    g.insert("w2".to_owned(), NodeBody::Delay { duration_nanos: 250 });
    g.insert("out".to_owned(), NodeBody::Output);
    g.bind(&"in".to_owned(), &"w1".to_owned()).unwrap();
    g.bind(&"w1".to_owned(), &"w2".to_owned()).unwrap();
    g.bind(&"w2".to_owned(), &"out".to_owned()).unwrap();
    let r = g.feed(0, note_on(60, 10), 0);
    assert_eq!(r.outcome, FeedOutcome::Emitted(note_on(60, 10)));
    assert_eq!(r.slept_nanos, 350);
    assert_eq!(r.visited, vec![0, 1, 2, 3]);
}

#[test]
fn a_scripted_node_hands_the_message_to_the_host() {
    let mut g = Graph::new();
    g.insert("in".to_owned(), NodeBody::Input);
    g.insert(
        "script".to_owned(),
        NodeBody::Scripted { duration_nanos: 40, source: "def call(i, c, n, v): ...".to_owned() },
    );
    g.insert("out".to_owned(), NodeBody::Output);
    g.bind(&"in".to_owned(), &"script".to_owned()).unwrap();
    g.bind(&"script".to_owned(), &"out".to_owned()).unwrap();
    let msg = note_on(60, 10);
    let r = g.feed(0, msg, 0);
    assert_eq!(r.outcome, FeedOutcome::AwaitScript { node: 1, msg });
    assert_eq!(r.slept_nanos, 40);
    // The host runs the transform and delivers its result to the child.
    let transformed = note_on(61, 10);
    let next = g.node_next(1).unwrap();
    let resumed = g.feed(next, transformed, 40);
    assert_eq!(resumed.outcome, FeedOutcome::Emitted(transformed));
}

#[test]
fn binding_an_unknown_node_fails_cleanly() {
    let mut g = Graph::new();
    g.insert("a".to_owned(), NodeBody::Debug);
    let e = g.bind(&"a".to_owned(), &"ghost".to_owned()).unwrap_err();
    assert_eq!(e.subject, "ghost");
    let e2 = g.bind(&"ghost".to_owned(), &"a".to_owned()).unwrap_err();
    assert_eq!(e2.subject, "ghost");
}

#[test]
fn feeding_twice_pairs_on_and_off_through_the_graph() {
    let mut g = bass_chain();
    let on = g.feed(0, note_on(38, 100), 0);
    let off = g.feed(0, MidiData { instruction: 0x8, channel: 0, note: 38, velocity: 0 }, 500_000_000);
    assert_eq!(
        on.outcome,
        FeedOutcome::Emitted(MidiData { instruction: 0x9, channel: 1, note: 38, velocity: 100 })
    );
    assert_eq!(
        off.outcome,
        FeedOutcome::Emitted(MidiData { instruction: 0x8, channel: 1, note: 38, velocity: 0 })
    );
    // The off slept exactly the pan sleep committed by the on.
    assert_eq!(off.slept_nanos, on.slept_nanos);
}
