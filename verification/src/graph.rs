//! The graph: named nodes, directed edges, and the per-message traversal.
//!
//! The graph owns every node; edges are indices into the node list, at
//! most one per node. `feed` runs one message through the graph exactly
//! as the host's per-message task would: it steps each node in turn,
//! accounts the sleeps the task would serve, and stops when the message
//! is emitted, consumed, dropped at a missing edge, handed to a script,
//! or found to be going in a circle. The result records the path taken,
//! the total sleep, and every anomaly observed, and the contract pins
//! each step to the node contracts: exactly one terminal event per fed
//! message, and a total sleep of at least the sum of the delay-node
//! durations along the path.

use vstd::prelude::*;
use vstd::seq_lib::*;
use vstd::set_lib::{lemma_len_subset, lemma_int_range, set_int_range};
use crate::action::{Action, Anomaly, Effect, ConsumeReason};
use crate::config::{ConfigError, ConfigErrorKind};
use crate::midi::MidiData;
use crate::node::{spec_step_at, NodeBody};
use crate::pan::MAX_PAN_NANOS;

verus! {

/// One owned node: its unique name, its state, and its outgoing edge.
#[derive(Debug)]
pub struct GraphNode {
    pub name: String,
    pub body: NodeBody,
    pub next: Option<usize>,
}

/// The first node at or past `i` whose name is `name`.
pub open spec fn spec_find_node_from(nodes: Seq<GraphNode>, name: Seq<char>, i: int) -> Option<int>
    decreases nodes.len() - i,
{
    if i < 0 || i >= nodes.len() {
        None
    } else if nodes[i].name@ == name {
        Some(i)
    } else {
        spec_find_node_from(nodes, name, i + 1)
    }
}

/// The node carrying `name`, if one does.
pub open spec fn spec_find_node(nodes: Seq<GraphNode>, name: Seq<char>) -> Option<int> {
    spec_find_node_from(nodes, name, 0)
}

/// The name scan returns the first match at or past `i`, and returns
/// nothing only when nothing at or past `i` matches.
pub proof fn lemma_find_node_from_props(nodes: Seq<GraphNode>, name: Seq<char>, i: int)
    requires
        0 <= i <= nodes.len(),
    ensures
        match spec_find_node_from(nodes, name, i) {
            Some(s) => {
                &&& i <= s < nodes.len()
                &&& nodes[s].name@ == name
                &&& forall|j: int| i <= j < s ==> (#[trigger] nodes[j].name)@ != name
            },
            None => forall|j: int| i <= j < nodes.len() ==> (#[trigger] nodes[j].name)@ != name,
        },
    decreases nodes.len() - i,
{
    if i < nodes.len() && nodes[i].name@ != name {
        lemma_find_node_from_props(nodes, name, i + 1);
    }
}

/// When exactly one node carries `name`, the scan finds that node.
pub proof fn lemma_find_node_unique(nodes: Seq<GraphNode>, name: Seq<char>, s: int)
    requires
        0 <= s < nodes.len(),
        nodes[s].name@ == name,
        forall|j: int| 0 <= j < nodes.len() && j != s ==> (#[trigger] nodes[j].name)@ != name,
    ensures
        spec_find_node(nodes, name) == Some(s),
{
    lemma_find_node_from_props(nodes, name, 0);
}

/// Total sleep of a sequence of actions, in nanoseconds.
pub open spec fn spec_sleep_sum(acts: Seq<Action>) -> int
    decreases acts.len(),
{
    if acts.len() == 0 {
        0
    } else {
        spec_sleep_sum(acts.drop_last()) + acts.last().sleep_nanos
    }
}

/// Sum of the configured durations of the delay nodes among the visited
/// nodes, in nanoseconds.
pub open spec fn spec_delay_sum(nodes: Seq<GraphNode>, visited: Seq<usize>) -> int
    decreases visited.len(),
{
    if visited.len() == 0 {
        0
    } else {
        spec_delay_sum(nodes, visited.drop_last()) + (
        match nodes[visited.last() as int].body {
            NodeBody::Delay { duration_nanos } => duration_nanos as int,
            _ => 0,
        })
    }
}

/// The anomalies of a sequence of actions, in order.
pub open spec fn spec_anomaly_list(acts: Seq<Action>) -> Seq<Anomaly>
    decreases acts.len(),
{
    if acts.len() == 0 {
        Seq::empty()
    } else {
        spec_anomaly_list(acts.drop_last()) + (match acts.last().anomaly {
            Some(a) => seq![a],
            None => Seq::empty(),
        })
    }
}

/// The single terminal event of one fed message.
#[derive(Clone, Copy, Debug, PartialEq, Eq)]
pub enum FeedOutcome {
    /// The message left the graph at an output node.
    Emitted(MidiData),
    /// A node consumed the message.
    Consumed { node: usize, reason: ConsumeReason },
    /// A node forwarded the message but has no living child: the message
    /// is dropped silently, a missing edge is a legal sink.
    Emptied { node: usize },
    /// A scripted node: the host must run the transform on `msg` and
    /// deliver the result to the node's child.
    AwaitScript { node: usize, msg: MidiData },
    /// The next hop was already visited: the configuration has a cycle,
    /// and the traversal stops rather than loop forever.
    CycleStopped { node: usize },
}

/// What one fed message did: its terminal event, the nodes it visited in
/// order, the total sleep its task served, and the anomalies observed.
pub struct FeedResult {
    pub outcome: FeedOutcome,
    pub visited: Vec<usize>,
    pub slept_nanos: u128,
    pub anomalies: Vec<Anomaly>,
    /// The message as it stood when it reached each visited node.
    pub trace: Ghost<Seq<MidiData>>,
    /// The action each visited node took.
    pub acts: Ghost<Seq<Action>>,
}

/// Everything a traversal guarantees, relating the graph before (`pre`)
/// and after (`post`) to the result: the path starts at the entry and
/// follows the recorded edges; every visited node stepped exactly once,
/// under its own step relation; untouched nodes are untouched; the books
/// balance; and the outcome is the last step's effect — exactly one
/// terminal event per fed message.
pub open spec fn spec_feed_ok(
    pre: Seq<GraphNode>,
    post: Seq<GraphNode>,
    entry: usize,
    data: MidiData,
    now: u64,
    r: FeedResult,
) -> bool {
    let visited = r.visited@;
    let trace = r.trace@;
    let acts = r.acts@;
    &&& post.len() == pre.len()
    &&& visited.len() >= 1 && trace.len() == visited.len() && acts.len() == visited.len()
    &&& visited[0] == entry && trace[0] == data
    &&& forall|k: int| 0 <= k < visited.len() ==> visited[k] < pre.len()
    &&& visited.no_duplicates()
    &&& forall|i: int|
        0 <= i < pre.len() ==> post[i].name == pre[i].name && post[i].next == pre[i].next
    &&& forall|i: int|
        0 <= i < pre.len() && !visited.contains(i as usize) ==> post[i] == pre[i]
    &&& forall|k: int|
        0 <= k < visited.len() ==> spec_step_at(
            pre[visited[k] as int].body,
            post[visited[k] as int].body,
            trace[k],
            now,
            acts[k],
            k == 0,
        )
    &&& forall|k: int|
        0 <= k < visited.len() - 1 ==> acts[k].effect == Effect::Forward(trace[k + 1])
            && pre[visited[k] as int].next == Some(visited[k + 1])
    &&& r.slept_nanos == spec_sleep_sum(acts)
    &&& r.anomalies@ == spec_anomaly_list(acts)
    &&& match r.outcome {
        FeedOutcome::Emitted(m) => acts.last().effect == Effect::Emit(m)
            && pre[visited.last() as int].body is Output,
        FeedOutcome::Consumed { node, reason } => node == visited.last()
            && acts.last().effect == Effect::Consume(reason),
        FeedOutcome::Emptied { node } => {
            &&& node == visited.last()
            &&& acts.last().effect matches Effect::Forward(_)
            &&& pre[node as int].next is None
        },
        FeedOutcome::AwaitScript { node, msg } => node == visited.last()
            && acts.last().effect == Effect::AwaitScript(msg),
        FeedOutcome::CycleStopped { node } => {
            &&& node == visited.last()
            &&& acts.last().effect matches Effect::Forward(_)
            &&& pre[node as int].next matches Some(j) && visited.contains(j)
        },
    }
}

/// A sleep sum is at least the delay-node durations it contains, when
/// every action sleeps exactly its delay node's duration.
proof fn lemma_sleep_sum_ge_delay(nodes: Seq<GraphNode>, visited: Seq<usize>, acts: Seq<Action>)
    requires
        visited.len() == acts.len(),
        forall|j: int| 0 <= j < visited.len() ==> visited[j] < nodes.len(),
        forall|j: int|
            0 <= j < visited.len() ==> (match nodes[visited[j] as int].body {
                NodeBody::Delay { duration_nanos } => (#[trigger] acts[j]).sleep_nanos
                    == duration_nanos,
                _ => true,
            }),
    ensures
        spec_sleep_sum(acts) >= spec_delay_sum(nodes, visited),
    decreases visited.len(),
{
    if visited.len() > 0 {
        lemma_sleep_sum_ge_delay(nodes, visited.drop_last(), acts.drop_last());
    }
}

/// A sleep sum also covers one non-delay action's sleep on top of the
/// delay-node durations.
proof fn lemma_sleep_sum_covers(
    nodes: Seq<GraphNode>,
    visited: Seq<usize>,
    acts: Seq<Action>,
    k: int,
)
    requires
        visited.len() == acts.len(),
        forall|j: int| 0 <= j < visited.len() ==> visited[j] < nodes.len(),
        forall|j: int|
            0 <= j < visited.len() ==> (match nodes[visited[j] as int].body {
                NodeBody::Delay { duration_nanos } => (#[trigger] acts[j]).sleep_nanos
                    == duration_nanos,
                _ => true,
            }),
        0 <= k < visited.len(),
        !(nodes[visited[k] as int].body is Delay),
    ensures
        spec_sleep_sum(acts) >= spec_delay_sum(nodes, visited) + acts[k].sleep_nanos,
    decreases visited.len(),
{
    if k == visited.len() - 1 {
        lemma_sleep_sum_ge_delay(nodes, visited.drop_last(), acts.drop_last());
    } else {
        lemma_sleep_sum_covers(nodes, visited.drop_last(), acts.drop_last(), k);
    }
}

/// A sequence of distinct indices below `n` has at most `n` entries.
proof fn lemma_distinct_indices_bound(s: Seq<usize>, n: int)
    requires
        s.no_duplicates(),
        forall|k: int| 0 <= k < s.len() ==> s[k] < n,
        0 <= n,
    ensures
        s.len() <= n,
{
    let si = s.map_values(|x: usize| x as int);
    assert(si.no_duplicates());
    si.unique_seq_to_set();
    assert forall|x: int| si.to_set().contains(x) implies set_int_range(0, n).contains(x) by {
        let i = choose|i: int| 0 <= i < si.len() && si[i] == x;
        assert(s[i] < n);
    }
    lemma_int_range(0, n);
    lemma_len_subset(si.to_set(), set_int_range(0, n));
}

/// A sleep sum is bounded by one maximal sleep per action.
proof fn lemma_sleep_sum_bound(acts: Seq<Action>)
    ensures
        0 <= spec_sleep_sum(acts) <= acts.len() * (u64::MAX as int),
    decreases acts.len(),
{
    if acts.len() > 0 {
        lemma_sleep_sum_bound(acts.drop_last());
        assert((acts.len() - 1) * (u64::MAX as int) + (u64::MAX as int) == acts.len() * (
        u64::MAX as int)) by (nonlinear_arith);
    }
}

/// Whether `x` occurs in `v`.
fn contains_index(v: &Vec<usize>, x: usize) -> (b: bool)
    ensures
        b == v@.contains(x),
{
    let n = v.len();
    for k in 0..n
        invariant
            n == v@.len(),
            forall|j: int| 0 <= j < k ==> v@[j] != x,
    {
        if v[k] == x {
            return true;
        }
    }
    false
}

/// The graph: the sole owner of its nodes, mapped by unique name. Its
/// view is the sequence of nodes in insertion order.
#[derive(Debug)]
pub struct Graph {
    nodes: Vec<GraphNode>,
}

impl View for Graph {
    type V = Seq<GraphNode>;

    closed spec fn view(&self) -> Seq<GraphNode> {
        self.nodes@
    }
}

impl Graph {
    /// Well-formed: every node's state is, and every edge points at a node.
    pub open spec fn wf(&self) -> bool {
        &&& forall|i: int| 0 <= i < self@.len() ==> (#[trigger] self@[i].body).wf()
        &&& forall|i: int|
            0 <= i < self@.len() ==> ((#[trigger] self@[i].next) matches Some(j) ==> j
                < self@.len())
    }

    /// The empty graph.
    pub fn new() -> (r: Graph)
        ensures
            r@.len() == 0,
            r.wf(),
    {
        Graph { nodes: Vec::new() }
    }

    /// The number of nodes.
    pub fn len(&self) -> (r: usize)
        ensures
            r == self@.len(),
    {
        self.nodes.len()
    }

    /// The name of node `i`.
    pub fn node_name(&self, i: usize) -> (r: &String)
        requires
            i < self@.len(),
        ensures
            *r == self@[i as int].name,
    {
        &self.nodes[i].name
    }

    /// The outgoing edge of node `i`.
    pub fn node_next(&self, i: usize) -> (r: Option<usize>)
        requires
            i < self@.len(),
        ensures
            r == self@[i as int].next,
    {
        self.nodes[i].next
    }

    /// The state of node `i`.
    pub fn node_body(&self, i: usize) -> (r: &NodeBody)
        requires
            i < self@.len(),
        ensures
            *r == self@[i as int].body,
    {
        &self.nodes[i].body
    }

    /// Append a node under its name, with no edge yet. Names are expected
    /// to be unique; a later node under a taken name would be unreachable
    /// by name, and the builder rejects such configurations.
    pub fn insert(&mut self, name: String, body: NodeBody)
        requires
            old(self).wf(),
            body.wf(),
        ensures
            final(self).wf(),
            final(self)@ == old(self)@.push(GraphNode { name, body, next: None }),
    {
        self.nodes.push(GraphNode { name, body, next: None });
    }

    /// The node carrying `name`, if one does.
    pub fn find(&self, name: &String) -> (r: Option<usize>)
        ensures
            match r {
                Some(i) => i < self@.len() && spec_find_node(self@, name@) == Some(i as int),
                None => spec_find_node(self@, name@) is None,
            },
    {
        let n = self.nodes.len();
        for i in 0..n
            invariant
                n == self@.len(),
                spec_find_node(self@, name@) == spec_find_node_from(self@, name@, i as int),
        {
            if self.nodes[i].name == *name {
                return Some(i);
            }
        }
        None
    }

    /// Install the edge `from -> to`, overwriting any prior edge of
    /// `from`. Fails, changing nothing, when either name is unknown.
    pub fn bind(&mut self, from: &String, to: &String) -> (r: Result<(), ConfigError>)
        requires
            old(self).wf(),
        ensures
            final(self).wf(),
            match r {
                Ok(()) => {
                    &&& spec_find_node(old(self)@, from@) matches Some(fi)
                    &&& spec_find_node(old(self)@, to@) matches Some(ti)
                    &&& final(self)@ == old(self)@.update(
                        spec_find_node(old(self)@, from@).unwrap(),
                        GraphNode {
                            name: old(self)@[spec_find_node(old(self)@, from@).unwrap()].name,
                            body: old(self)@[spec_find_node(old(self)@, from@).unwrap()].body,
                            next: Some(spec_find_node(old(self)@, to@).unwrap() as usize),
                        },
                    )
                },
                Err(e) => {
                    &&& final(self)@ == old(self)@
                    &&& e.kind == ConfigErrorKind::UnknownTarget
                    &&& (spec_find_node(old(self)@, from@) is None || spec_find_node(
                        old(self)@,
                        to@,
                    ) is None)
                    &&& e.subject@ == if spec_find_node(old(self)@, to@) is None {
                        to@
                    } else {
                        from@
                    }
                },
            },
    {
        let ti = match self.find(to) {
            Some(ti) => ti,
            None => {
                return Err(ConfigError { kind: ConfigErrorKind::UnknownTarget, subject: to.clone() });
            },
        };
        let fi = match self.find(from) {
            Some(fi) => fi,
            None => {
                return Err(
                    ConfigError { kind: ConfigErrorKind::UnknownTarget, subject: from.clone() },
                );
            },
        };
        self.nodes[fi].next = Some(ti);
        Ok(())
    }

    /// Step one node with one message, as the host's per-message task
    /// does: deliver `msg` to the node at `idx` at monotonic time `now`
    /// and get back the action whose sleep the caller must serve before
    /// carrying out its effect. `is_entry` marks the point where the
    /// message enters the graph: an entry input hands the message straight
    /// to its edge, while an input reached from inside the graph consumes
    /// it.
    pub fn call_node(&mut self, idx: usize, msg: MidiData, now: u64, is_entry: bool) -> (act: Action)
        requires
            old(self).wf(),
            idx < old(self)@.len(),
        ensures
            final(self).wf(),
            final(self)@.len() == old(self)@.len(),
            forall|i: int|
                0 <= i < old(self)@.len() && i != idx ==> final(self)@[i] == old(self)@[i],
            final(self)@[idx as int].name == old(self)@[idx as int].name,
            final(self)@[idx as int].next == old(self)@[idx as int].next,
            spec_step_at(
                old(self)@[idx as int].body,
                final(self)@[idx as int].body,
                msg,
                now,
                act,
                is_entry,
            ),
            match old(self)@[idx as int].body {
                NodeBody::Delay { duration_nanos } => act.sleep_nanos == duration_nanos,
                _ => true,
            },
            act.effect matches Effect::Emit(m) ==> old(self)@[idx as int].body is Output,
    {
        proof {
            reveal(spec_step_at);
        }
        let take_edge_only = is_entry && (match &self.nodes[idx].body {
            NodeBody::Input => true,
            _ => false,
        });
        if take_edge_only {
            Action { sleep_nanos: 0, effect: Effect::Forward(msg), anomaly: None }
        } else {
            self.nodes[idx].body.call(msg, now)
        }
    }

    /// Run one message through the graph, starting at node `entry`, as the
    /// host's per-message task would at monotonic time `now`: step each
    /// node, account the sleep it asks for, follow its edge, and stop at
    /// the single terminal event. The total sleep is never less than the
    /// sum of the delay-node durations along the path.
    #[verifier::rlimit(100)]
    pub fn feed(&mut self, entry: usize, data: MidiData, now: u64) -> (r: FeedResult)
        requires
            old(self).wf(),
            entry < old(self)@.len(),
        ensures
            final(self).wf(),
            spec_feed_ok(old(self)@, final(self)@, entry, data, now, r),
            r.slept_nanos >= spec_delay_sum(old(self)@, r.visited@),
    {
        let ghost orig: Seq<GraphNode> = self@;
        let bound = self.nodes.len();
        assert(orig.len() == bound && orig.len() <= usize::MAX);
        let mut visited: Vec<usize> = Vec::new();
        let mut anomalies: Vec<Anomaly> = Vec::new();
        let mut slept: u128 = 0;
        let ghost mut trace: Seq<MidiData> = Seq::empty();
        let ghost mut acts: Seq<Action> = Seq::empty();
        let mut idx: usize = entry;
        let mut msg: MidiData = data;
        loop
            invariant
                orig == old(self)@,
                self.wf(),
                self@.len() == orig.len(),
                orig.len() <= usize::MAX,
                entry < orig.len(),
                idx < orig.len(),
                trace.len() == visited@.len(),
                acts.len() == visited@.len(),
                visited@.no_duplicates(),
                !visited@.contains(idx),
                forall|k: int| 0 <= k < visited@.len() ==> visited@[k] < orig.len(),
                forall|i: int|
                    0 <= i < orig.len() ==> self@[i].name == orig[i].name && self@[i].next
                        == orig[i].next,
                forall|i: int|
                    0 <= i < orig.len() && !visited@.contains(i as usize) ==> self@[i] == orig[i],
                forall|k: int|
                    0 <= k < visited@.len() ==> spec_step_at(
                        orig[visited@[k] as int].body,
                        self@[visited@[k] as int].body,
                        trace[k],
                        now,
                        acts[k],
                        k == 0,
                    ),
                forall|k: int|
                    0 <= k < visited@.len() - 1 ==> acts[k].effect == Effect::Forward(trace[k + 1])
                        && orig[visited@[k] as int].next == Some(visited@[k + 1]),
                if visited@.len() == 0 {
                    idx == entry && msg == data
                } else {
                    visited@[0] == entry && trace[0] == data && acts.last().effect
                        == Effect::Forward(msg) && orig[visited@.last() as int].next == Some(idx)
                },
                slept == spec_sleep_sum(acts),
                slept >= spec_delay_sum(orig, visited@),
                anomalies@ == spec_anomaly_list(acts),
            decreases orig.len() - visited@.len(),
        {
            let is_entry = visited.len() == 0;
            let mut done: Option<FeedOutcome>;
            let act: Action = self.call_node(idx, msg, now, is_entry);
            proof {
                lemma_sleep_sum_bound(acts);
                lemma_distinct_indices_bound(visited@, orig.len() as int);
                assert((acts.len() + 1) * (u64::MAX as int) <= (orig.len() as int + 1) * (
                u64::MAX as int) < u128::MAX) by (nonlinear_arith)
                    requires
                        0 <= acts.len() <= orig.len(),
                        orig.len() <= usize::MAX,
                ;
            }
            let ghost old_acts = acts;
            let ghost old_trace = trace;
            let ghost old_visited = visited@;
            visited.push(idx);
            slept = slept + act.sleep_nanos as u128;
            match act.anomaly {
                Some(a) => anomalies.push(a),
                None => {},
            }
            proof {
                trace = trace.push(msg);
                acts = acts.push(act);
                assert(acts.drop_last() =~= old_acts);
                assert(trace.drop_last() =~= old_trace);
                assert(visited@.drop_last() =~= old_visited);
                assert(spec_sleep_sum(acts) == spec_sleep_sum(old_acts) + act.sleep_nanos);
                assert(anomalies@ == spec_anomaly_list(acts));
                lemma_distinct_indices_bound(visited@, orig.len() as int);
            }
            match act.effect {
                Effect::Forward(m) => {
                    match self.nodes[idx].next {
                        Some(j) => {
                            if contains_index(&visited, j) {
                                done = Some(FeedOutcome::CycleStopped { node: idx });
                            } else {
                                idx = j;
                                msg = m;
                                done = None;
                            }
                        },
                        None => {
                            done = Some(FeedOutcome::Emptied { node: idx });
                        },
                    }
                },
                Effect::Emit(m) => {
                    done = Some(FeedOutcome::Emitted(m));
                },
                Effect::Consume(reason) => {
                    done = Some(FeedOutcome::Consumed { node: idx, reason });
                },
                Effect::AwaitScript(m) => {
                    done = Some(FeedOutcome::AwaitScript { node: idx, msg: m });
                },
            }
            match done {
                Some(outcome) => {
                    return FeedResult {
                        outcome,
                        visited,
                        slept_nanos: slept,
                        anomalies,
                        trace: Ghost(trace),
                        acts: Ghost(acts),
                    };
                },
                None => {},
            }
        }
    }
}

/// End-to-end latency: the pan-compensation law over a whole traversal.
/// When a note-on traversal reached a bass node, the total sleep the task
/// served plus the physical pan time of the dispatched move is at least
/// the sum of every delay node's duration on the path plus the full pan
/// deadline — the acoustic onset can never land earlier than the path's
/// built-in latency.
pub proof fn lemma_end_to_end_latency(
    pre: Seq<GraphNode>,
    post: Seq<GraphNode>,
    entry: usize,
    data: MidiData,
    now: u64,
    r: FeedResult,
    k: int,
)
    requires
        spec_feed_ok(pre, post, entry, data, now, r),
        0 <= k < r.visited@.len(),
        pre[r.visited@[k] as int].body is Mech,
        pre[r.visited@[k] as int].body.wf(),
        r.trace@[k].is_note_on(),
    ensures
        r.acts@[k].sleep_nanos <= MAX_PAN_NANOS,
        r.slept_nanos + (MAX_PAN_NANOS - r.acts@[k].sleep_nanos) >= spec_delay_sum(pre, r.visited@)
            + MAX_PAN_NANOS,
{
    reveal(spec_step_at);
    let visited = r.visited@;
    let acts = r.acts@;
    let trace = r.trace@;
    assert forall|j: int|
        0 <= j < visited.len() implies (match pre[visited[j] as int].body {
        NodeBody::Delay { duration_nanos } => (#[trigger] acts[j]).sleep_nanos == duration_nanos,
        _ => true,
    }) by {
        assert(spec_step_at(
            pre[visited[j] as int].body,
            post[visited[j] as int].body,
            trace[j],
            now,
            acts[j],
            j == 0,
        ));
    }
    assert(spec_step_at(
        pre[visited[k] as int].body,
        post[visited[k] as int].body,
        trace[k],
        now,
        acts[k],
        k == 0,
    ));
    match pre[visited[k] as int].body {
        NodeBody::Mech(m) => {
            crate::mechbass::lemma_pan_compensation(m@, trace[k].note, now);
        },
        _ => {},
    }
    lemma_sleep_sum_covers(pre, visited, acts, k);
}

} // verus!
