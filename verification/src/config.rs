//! Configuration types and the configuration-to-graph builder.
//!
//! A configuration is an ordered list of node specifications. The host
//! parses whatever concrete syntax it accepts (the reference format is a
//! YAML sequence) into [`NodeConfig`] values with durations in
//! nanoseconds, and the builder here turns them into a graph: a first
//! pass instantiates every node and propagates accumulated delays in
//! declaration order, a second pass installs the edges.

use vstd::prelude::*;
use crate::drumbot::{DrumBot, DRUMBOT_DELAY_NANOS};
use crate::graph::{Graph, GraphNode};
use crate::mechbass::{MechBass, PlayedNote};
use crate::node::NodeBody;
use crate::pan::{spec_tuning, MAX_PAN_NANOS};

verus! {

/// Why a configuration was rejected.
#[derive(Clone, Copy, Debug, PartialEq, Eq, Structural)]
pub enum ConfigErrorKind {
    /// A message supplied by the host (a parse failure, a port failure).
    Custom,
    /// A node's `type` names no known node kind.
    UnknownType,
    /// Two nodes carry the same name.
    DuplicateName,
    /// A delay or scripted node without a `duration`.
    MissingDuration,
    /// A drum node without its `arms`.
    MissingArms,
    /// A scripted node without its `source`.
    MissingSource,
    /// An absolute delay shorter than the delay already accumulated
    /// upstream of the node.
    NegativeTotalDelay,
    /// A `next` that names no node.
    UnknownTarget,
}

/// A startup-fatal configuration error: what went wrong and the name or
/// message it concerns.
#[derive(Clone, Debug, PartialEq, Eq)]
pub struct ConfigError {
    pub kind: ConfigErrorKind,
    pub subject: String,
}

impl ConfigError {
    /// An error carrying a message from the host.
    pub fn new(message: &str) -> (r: ConfigError)
        ensures
            r.kind == ConfigErrorKind::Custom,
            r.subject@ == message@,
    {
        ConfigError { kind: ConfigErrorKind::Custom, subject: message.to_owned() }
    }

    /// An error wrapping a message another error rendered.
    pub fn of(message: String) -> (r: ConfigError)
        ensures
            r.kind == ConfigErrorKind::Custom,
            r.subject@ == message@,
    {
        ConfigError { kind: ConfigErrorKind::Custom, subject: message }
    }

    /// A short fixed description of the error kind, for logs.
    pub fn describe(&self) -> (r: &'static str)
        ensures
            r@ == (match self.kind {
                ConfigErrorKind::Custom => "configuration rejected"@,
                ConfigErrorKind::UnknownType => "unknown node type"@,
                ConfigErrorKind::DuplicateName => "duplicate node name"@,
                ConfigErrorKind::MissingDuration => "duration missing"@,
                ConfigErrorKind::MissingArms => "arms missing"@,
                ConfigErrorKind::MissingSource => "source missing"@,
                ConfigErrorKind::NegativeTotalDelay => (
                "previous duration longer than total duration required")@,
                ConfigErrorKind::UnknownTarget => "couldn't locate node"@,
            }),
    {
        match self.kind {
            ConfigErrorKind::Custom => "configuration rejected",
            ConfigErrorKind::UnknownType => "unknown node type",
            ConfigErrorKind::DuplicateName => "duplicate node name",
            ConfigErrorKind::MissingDuration => "duration missing",
            ConfigErrorKind::MissingArms => "arms missing",
            ConfigErrorKind::MissingSource => "source missing",
            ConfigErrorKind::NegativeTotalDelay => (
            "previous duration longer than total duration required"),
            ConfigErrorKind::UnknownTarget => "couldn't locate node",
        }
    }
}

/// The note mapping of one drum arm: `(incoming note, outgoing note)`
/// pairs, looked up by first match.
#[derive(Clone, Debug, PartialEq, Eq)]
pub struct ArmsConfig(pub Vec<(u8, u8)>);

/// One node specification: a unique name, the node kind, the optional
/// downstream node, and the kind-specific parameters. Durations are in
/// nanoseconds of monotonic time.
#[derive(Clone, Debug)]
pub struct NodeConfig {
    pub name: String,
    pub type_: String,
    pub next: Option<String>,
    /// Delay and scripted nodes: the sleep, in nanoseconds.
    pub duration_nanos: Option<u64>,
    /// Delay nodes: when true, `duration_nanos` is the total
    /// path-accumulated delay rather than the increment.
    pub is_total: Option<bool>,
    /// Drum nodes: one mapping per arm.
    pub arms: Option<Vec<ArmsConfig>>,
    /// Scripted nodes: the external transform's source text.
    pub source: Option<String>,
}

/// Whether `t` names a node kind the type registry knows.
pub open spec fn spec_kind_known(t: Seq<char>) -> bool {
    ||| t == "Input"@
    ||| t == "Output"@
    ||| t == "MechBass"@
    ||| t == "DrumBot"@
    ||| t == "PyNode"@
    ||| t == "DelayNode"@
    ||| t == "DebugNode"@
}

/// Whether the kind requires a `duration`.
pub open spec fn spec_needs_duration(t: Seq<char>) -> bool {
    t == "DelayNode"@ || t == "PyNode"@
}

/// The configured duration, reading a missing one as zero.
pub open spec fn spec_duration_or_zero(c: NodeConfig) -> int {
    match c.duration_nanos {
        Some(d) => d as int,
        None => 0,
    }
}

/// Whether the node is a delay in absolute mode.
pub open spec fn spec_is_total(c: NodeConfig) -> bool {
    c.is_total == Some(true)
}

/// The intrinsic delay the built node will report, given the delay `acc`
/// already accumulated upstream of it: an absolute delay contributes what
/// is left of its total, everything else its fixed duration.
pub open spec fn spec_config_delay(c: NodeConfig, acc: int) -> int {
    let t = c.type_@;
    if t == "DelayNode"@ {
        if spec_is_total(c) {
            spec_duration_or_zero(c) - acc
        } else {
            spec_duration_or_zero(c)
        }
    } else if t == "MechBass"@ {
        MAX_PAN_NANOS as int
    } else if t == "DrumBot"@ {
        DRUMBOT_DELAY_NANOS as int
    } else if t == "PyNode"@ {
        spec_duration_or_zero(c)
    } else {
        0
    }
}

/// The first specification at or past `i` whose name is `name`.
pub open spec fn spec_find_config_from(specs: Seq<NodeConfig>, name: Seq<char>, i: int) -> Option<
    int,
>
    decreases specs.len() - i,
{
    if i < 0 || i >= specs.len() {
        None
    } else if specs[i].name@ == name {
        Some(i)
    } else {
        spec_find_config_from(specs, name, i + 1)
    }
}

/// The specification carrying `name`, if one does.
pub open spec fn spec_find_config(specs: Seq<NodeConfig>, name: Seq<char>) -> Option<int> {
    spec_find_config_from(specs, name, 0)
}

/// Addition clamped to the `u64` range, as the builder accumulates delays.
pub open spec fn spec_sat_add_u64(a: int, b: int) -> int {
    if a + b > u64::MAX {
        u64::MAX as int
    } else {
        a + b
    }
}

/// The accumulated delays after the first `k` specifications, one slot per
/// specification, indexed by each name's first occurrence. A spec with a
/// `next` raises the target's slot to the maximum of its old value and the
/// spec's own accumulated delay plus its intrinsic delay.
pub open spec fn spec_acc_delays(specs: Seq<NodeConfig>, k: int) -> Seq<int>
    decreases k,
{
    if k <= 0 {
        Seq::new(specs.len(), |i: int| 0)
    } else {
        let m = spec_acc_delays(specs, k - 1);
        let c = specs[k - 1];
        match c.next {
            Some(nx) => match spec_find_config(specs, nx@) {
                Some(j) => {
                    let v = spec_sat_add_u64(m[k - 1], spec_config_delay(c, m[k - 1]));
                    m.update(
                        j,
                        if m[j] >= v {
                            m[j]
                        } else {
                            v
                        },
                    )
                },
                None => m,
            },
            None => m,
        }
    }
}

/// What is wrong with specification `i`, if anything: an unknown kind, a
/// name already taken, a missing kind-specific parameter, or an absolute
/// delay already exceeded by the delay accumulated upstream.
pub open spec fn spec_config_error_at(specs: Seq<NodeConfig>, i: int) -> Option<
    (ConfigErrorKind, Seq<char>),
> {
    let c = specs[i];
    let t = c.type_@;
    if !spec_kind_known(t) {
        Some((ConfigErrorKind::UnknownType, t))
    } else if exists|j: int| 0 <= j < i && (#[trigger] specs[j].name)@ == c.name@ {
        Some((ConfigErrorKind::DuplicateName, c.name@))
    } else if spec_needs_duration(t) && c.duration_nanos is None {
        Some((ConfigErrorKind::MissingDuration, c.name@))
    } else if t == "DrumBot"@ && c.arms is None {
        Some((ConfigErrorKind::MissingArms, c.name@))
    } else if t == "PyNode"@ && c.source is None {
        Some((ConfigErrorKind::MissingSource, c.name@))
    } else if t == "DelayNode"@ && spec_is_total(c) && spec_acc_delays(specs, i)[i]
        > spec_duration_or_zero(c) {
        Some((ConfigErrorKind::NegativeTotalDelay, c.name@))
    } else {
        None
    }
}

/// The first instantiation error among the first `k` specifications.
pub open spec fn spec_first_error_pass1(specs: Seq<NodeConfig>, k: int) -> Option<
    (ConfigErrorKind, Seq<char>),
>
    decreases k,
{
    if k <= 0 {
        None
    } else {
        match spec_first_error_pass1(specs, k - 1) {
            Some(e) => Some(e),
            None => spec_config_error_at(specs, k - 1),
        }
    }
}

/// The first `next` among the first `k` specifications that names no node.
pub open spec fn spec_first_unknown_target(specs: Seq<NodeConfig>, k: int) -> Option<Seq<char>>
    decreases k,
{
    if k <= 0 {
        None
    } else {
        match spec_first_unknown_target(specs, k - 1) {
            Some(e) => Some(e),
            None => match specs[k - 1].next {
                Some(nx) => if spec_find_config(specs, nx@) is None {
                    Some(nx@)
                } else {
                    None
                },
                None => None,
            },
        }
    }
}

/// The error a build of `specs` reports, if any: the first instantiation
/// error in declaration order, else the first unknown binding target.
pub open spec fn spec_build_error(specs: Seq<NodeConfig>) -> Option<(ConfigErrorKind, Seq<char>)> {
    match spec_first_error_pass1(specs, specs.len() as int) {
        Some(e) => Some(e),
        None => match spec_first_unknown_target(specs, specs.len() as int) {
            Some(nx) => Some((ConfigErrorKind::UnknownTarget, nx)),
            None => None,
        },
    }
}

/// What the node built for specification `i` holds, given the clock
/// reading the builder stamped into the instrument states.
pub open spec fn spec_body_matches(specs: Seq<NodeConfig>, i: int, body: NodeBody, now: u64) -> bool {
    let c = specs[i];
    let t = c.type_@;
    if t == "Input"@ {
        body is Input
    } else if t == "Output"@ {
        body is Output
    } else if t == "DebugNode"@ {
        body is Debug
    } else if t == "MechBass"@ {
        &&& body matches NodeBody::Mech(m)
        &&& m@.len() == 4
        &&& forall|s: int|
            0 <= s < 4 ==> m@[s] == (PlayedNote {
                playing: false,
                note: spec_tuning(s) as u8,
                delay: 0u64,
                ts: now,
            })
    } else if t == "DrumBot"@ {
        &&& body matches NodeBody::Drum(d)
        &&& c.arms matches Some(ms)
        &&& d@.len() == ms@.len()
        &&& forall|k: int|
            0 <= k < ms@.len() ==> {
                &&& (#[trigger] d@[k]).mapping@ == ms@[k].0@
                &&& d@[k].last_played == if ms@[k].0@.len() > 0 {
                    ms@[k].0@[0].0
                } else {
                    0u8
                }
                &&& d@[k].ts == now
            }
    } else if t == "DelayNode"@ {
        body == (NodeBody::Delay {
            duration_nanos: spec_config_delay(c, spec_acc_delays(specs, i)[i]) as u64,
        })
    } else if t == "PyNode"@ {
        &&& body matches NodeBody::Scripted { duration_nanos, source }
        &&& duration_nanos as int == spec_duration_or_zero(c)
        &&& c.source matches Some(src) && source == src
    } else {
        false
    }
}

/// What a successful build yields: one node per specification, in
/// declaration order, under its name, with the state its kind and
/// parameters call for, and with its edge resolved to the index of the
/// named target.
pub open spec fn spec_graph_matches(specs: Seq<NodeConfig>, g: Seq<GraphNode>, now: u64) -> bool {
    &&& g.len() == specs.len()
    &&& forall|i: int| 0 <= i < g.len() ==> (#[trigger] g[i].name) == specs[i].name
    &&& forall|i: int|
        0 <= i < g.len() ==> (#[trigger] g[i].next) == (match specs[i].next {
            Some(nx) => match spec_find_config(specs, nx@) {
                Some(j) => Some(j as usize),
                None => None,
            },
            None => None::<usize>,
        })
    &&& forall|i: int| 0 <= i < g.len() ==> spec_body_matches(specs, i, (#[trigger] g[i].body), now)
}

/// Whether two node states are observably the same: the same variant with
/// the same parameters and, for the instruments, the same state.
pub open spec fn spec_body_equiv(a: NodeBody, b: NodeBody) -> bool {
    match (a, b) {
        (NodeBody::Input, NodeBody::Input) => true,
        (NodeBody::Output, NodeBody::Output) => true,
        (NodeBody::Debug, NodeBody::Debug) => true,
        (NodeBody::Delay { duration_nanos: d1 }, NodeBody::Delay { duration_nanos: d2 }) => d1
            == d2,
        (NodeBody::Mech(m1), NodeBody::Mech(m2)) => m1@ == m2@,
        (NodeBody::Drum(d1), NodeBody::Drum(d2)) => {
            &&& d1@.len() == d2@.len()
            &&& forall|k: int|
                0 <= k < d1@.len() ==> {
                    &&& (#[trigger] d1@[k]).mapping@ == d2@[k].mapping@
                    &&& d1@[k].last_played == d2@[k].last_played
                    &&& d1@[k].ts == d2@[k].ts
                }
        },
        (
            NodeBody::Scripted { duration_nanos: d1, source: s1 },
            NodeBody::Scripted { duration_nanos: d2, source: s2 },
        ) => d1 == d2 && s1@ == s2@,
        _ => false,
    }
}

/// Graph build is deterministic: two graphs built from the same
/// configuration at the same clock reading have the same names, the same
/// edges, and observably the same node states.
pub proof fn lemma_build_deterministic(
    specs: Seq<NodeConfig>,
    now: u64,
    g1: Seq<GraphNode>,
    g2: Seq<GraphNode>,
)
    requires
        spec_graph_matches(specs, g1, now),
        spec_graph_matches(specs, g2, now),
    ensures
        g1.len() == g2.len(),
        forall|i: int| 0 <= i < g1.len() ==> (#[trigger] g1[i].name) == g2[i].name,
        forall|i: int| 0 <= i < g1.len() ==> (#[trigger] g1[i].next) == g2[i].next,
        forall|i: int| 0 <= i < g1.len() ==> spec_body_equiv((#[trigger] g1[i].body), g2[i].body),
{
    assert forall|i: int| 0 <= i < g1.len() implies spec_body_equiv(
        (#[trigger] g1[i].body),
        g2[i].body,
    ) by {
        assert(spec_body_matches(specs, i, g1[i].body, now));
        assert(spec_body_matches(specs, i, g2[i].body, now));
        match (g1[i].body, g2[i].body) {
            (NodeBody::Mech(m1), NodeBody::Mech(m2)) => {
                assert(m1@ =~= m2@);
            },
            _ => {},
        }
    }
}

/// Every absolute delay aligns its path to its configured total: the delay
/// accumulated upstream of the node plus the node's effective delay equals
/// the configured total, so two paths closed by absolute delays with the
/// same total meet their common downstream node with the same built-in
/// latency.
pub proof fn lemma_absolute_delay_deadline(specs: Seq<NodeConfig>, i: int)
    requires
        0 <= i < specs.len(),
        specs[i].type_@ == "DelayNode"@,
        spec_is_total(specs[i]),
    ensures
        spec_acc_delays(specs, i)[i] + spec_config_delay(specs[i], spec_acc_delays(specs, i)[i])
            == spec_duration_or_zero(specs[i]),
{
}

/// Two absolute delays configured to the same total stand at the same
/// deadline from their inputs, whatever their paths accumulated.
pub proof fn lemma_absolute_delays_align(specs: Seq<NodeConfig>, i1: int, i2: int)
    requires
        0 <= i1 < specs.len(),
        0 <= i2 < specs.len(),
        specs[i1].type_@ == "DelayNode"@,
        specs[i2].type_@ == "DelayNode"@,
        spec_is_total(specs[i1]),
        spec_is_total(specs[i2]),
        spec_duration_or_zero(specs[i1]) == spec_duration_or_zero(specs[i2]),
    ensures
        spec_acc_delays(specs, i1)[i1] + spec_config_delay(specs[i1], spec_acc_delays(specs, i1)[i1])
            == spec_acc_delays(specs, i2)[i2] + spec_config_delay(
            specs[i2],
            spec_acc_delays(specs, i2)[i2],
        ),
{
    lemma_absolute_delay_deadline(specs, i1);
    lemma_absolute_delay_deadline(specs, i2);
}

/// Whether `t` holds the same characters as the literal `kind`.
fn type_is(t: &String, kind: &str) -> (b: bool)
    ensures
        b == (t@ == kind@),
{
    *t == kind.to_owned()
}

/// An ordered list of node specifications, ready to be built.
pub struct Config {
    pub nodes: Vec<NodeConfig>,
}

/// The names the type registry knows are pairwise distinct.
proof fn lemma_kinds_distinct()
    ensures
        "Input"@ != "Output"@,
        "Input"@ != "MechBass"@,
        "Input"@ != "DrumBot"@,
        "Input"@ != "PyNode"@,
        "Input"@ != "DelayNode"@,
        "Input"@ != "DebugNode"@,
        "Output"@ != "MechBass"@,
        "Output"@ != "DrumBot"@,
        "Output"@ != "PyNode"@,
        "Output"@ != "DelayNode"@,
        "Output"@ != "DebugNode"@,
        "MechBass"@ != "DrumBot"@,
        "MechBass"@ != "PyNode"@,
        "MechBass"@ != "DelayNode"@,
        "MechBass"@ != "DebugNode"@,
        "DrumBot"@ != "PyNode"@,
        "DrumBot"@ != "DelayNode"@,
        "DrumBot"@ != "DebugNode"@,
        "PyNode"@ != "DelayNode"@,
        "PyNode"@ != "DebugNode"@,
        "DelayNode"@ != "DebugNode"@,
{
    reveal_strlit("Input");
    reveal_strlit("Output");
    reveal_strlit("MechBass");
    reveal_strlit("DrumBot");
    reveal_strlit("PyNode");
    reveal_strlit("DelayNode");
    reveal_strlit("DebugNode");
    assert(("Input"@).len() == 5);
    assert(("Output"@).len() == 6);
    assert(("MechBass"@).len() == 8);
    assert(("DrumBot"@).len() == 7);
    assert(("PyNode"@).len() == 6);
    assert(("DelayNode"@).len() == 9);
    assert(("DebugNode"@).len() == 9);
    assert(("Output"@)[0] != ("PyNode"@)[0]);
    assert(("DelayNode"@)[2] != ("DebugNode"@)[2]);
}

/// The accumulated-delay table always has one slot per specification.
pub proof fn lemma_acc_delays_len(specs: Seq<NodeConfig>, k: int)
    ensures
        spec_acc_delays(specs, k).len() == specs.len(),
    decreases k,
{
    if k > 0 {
        lemma_acc_delays_len(specs, k - 1);
        match specs[k - 1].next {
            Some(nx) => {
                lemma_find_config_from_props(specs, nx@, 0);
            },
            None => {},
        }
    }
}

/// The name scan over specifications returns the first match at or past
/// `i`, and returns nothing only when nothing at or past `i` matches.
pub proof fn lemma_find_config_from_props(specs: Seq<NodeConfig>, name: Seq<char>, i: int)
    requires
        0 <= i <= specs.len(),
    ensures
        match spec_find_config_from(specs, name, i) {
            Some(s) => {
                &&& i <= s < specs.len()
                &&& specs[s].name@ == name
                &&& forall|j: int| i <= j < s ==> (#[trigger] specs[j].name)@ != name
            },
            None => forall|j: int| i <= j < specs.len() ==> (#[trigger] specs[j].name)@ != name,
        },
    decreases specs.len() - i,
{
    if i < specs.len() && specs[i].name@ != name {
        lemma_find_config_from_props(specs, name, i + 1);
    }
}

/// A first error, once found, is the first error of every longer prefix.
proof fn lemma_pass1_stable(specs: Seq<NodeConfig>, k: int, m: int)
    requires
        0 <= k <= m,
        spec_first_error_pass1(specs, k) is Some,
    ensures
        spec_first_error_pass1(specs, m) == spec_first_error_pass1(specs, k),
    decreases m - k,
{
    if k < m {
        lemma_pass1_stable(specs, k, m - 1);
    }
}

/// A first unknown target, once found, stays that of every longer prefix.
proof fn lemma_unknown_target_stable(specs: Seq<NodeConfig>, k: int, m: int)
    requires
        0 <= k <= m,
        spec_first_unknown_target(specs, k) is Some,
    ensures
        spec_first_unknown_target(specs, m) == spec_first_unknown_target(specs, k),
    decreases m - k,
{
    if k < m {
        lemma_unknown_target_stable(specs, k, m - 1);
    }
}

/// An error-free prefix is error-free specification by specification.
proof fn lemma_pass1_all_ok(specs: Seq<NodeConfig>, k: int)
    requires
        spec_first_error_pass1(specs, k) is None,
    ensures
        forall|i: int| 0 <= i < k ==> spec_config_error_at(specs, i) is None,
    decreases k,
{
    if k > 0 {
        lemma_pass1_all_ok(specs, k - 1);
    }
}

/// Two parallel name scans over a graph and the specifications it was
/// built from agree.
proof fn lemma_find_alignment(
    g: Seq<GraphNode>,
    specs: Seq<NodeConfig>,
    name: Seq<char>,
    i: int,
)
    requires
        g.len() == specs.len(),
        forall|j: int| 0 <= j < g.len() ==> (#[trigger] g[j].name) == specs[j].name,
        0 <= i <= g.len(),
    ensures
        crate::graph::spec_find_node_from(g, name, i) == spec_find_config_from(specs, name, i),
    decreases g.len() - i,
{
    if i < g.len() {
        lemma_find_alignment(g, specs, name, i + 1);
    }
}

/// The specification carrying `name`, if one does.
fn find_config(specs: &Vec<NodeConfig>, name: &String) -> (r: Option<usize>)
    ensures
        match r {
            Some(i) => i < specs@.len() && spec_find_config(specs@, name@) == Some(i as int),
            None => spec_find_config(specs@, name@) is None,
        },
{
    let n = specs.len();
    for i in 0..n
        invariant
            n == specs@.len(),
            spec_find_config(specs@, name@) == spec_find_config_from(specs@, name@, i as int),
    {
        if specs[i].name == *name {
            return Some(i);
        }
    }
    None
}

impl Config {
    /// Build the graph: a first pass instantiates one node per
    /// specification in declaration order, checking the registry, name
    /// uniqueness and the kind-specific parameters, and propagating
    /// accumulated delays along declared edges (which is why parents must
    /// be declared before children); a second pass resolves every `next`
    /// to its target. The first failure, in that order, is the error
    /// returned, and a successful build is a function of the
    /// specifications and the clock reading alone. Instrument states are
    /// stamped with `now`, the current monotonic time.
    pub fn build(self, now: u64) -> (r: Result<Graph, ConfigError>)
        ensures
            match r {
                Ok(g) => {
                    &&& spec_build_error(self.nodes@) is None
                    &&& g.wf()
                    &&& spec_graph_matches(self.nodes@, g@, now)
                },
                Err(e) => {
                    &&& spec_build_error(self.nodes@) matches Some(err) && e.kind == err.0
                        && e.subject@ == err.1
                },
            },
    {
        let n = self.nodes.len();
        let mut delays: Vec<u64> = Vec::new();
        for z in 0..n
            invariant
                delays@.len() == z,
                forall|x: int| 0 <= x < z ==> delays@[x] == 0,
        {
            delays.push(0);
        }
        let mut graph = Graph::new();
        for i in 0..n
            invariant
                n == self.nodes@.len(),
                delays@.len() == n,
                graph.wf(),
                graph@.len() == i,
                spec_first_error_pass1(self.nodes@, i as int) is None,
                forall|j: int| 0 <= j < i ==> (#[trigger] graph@[j].name) == self.nodes@[j].name,
                forall|j: int| 0 <= j < i ==> (#[trigger] graph@[j].next) is None,
                forall|j: int|
                    0 <= j < i ==> spec_body_matches(
                        self.nodes@,
                        j,
                        (#[trigger] graph@[j].body),
                        now,
                    ),
                forall|x: int|
                    0 <= x < n ==> delays@[x] == spec_acc_delays(self.nodes@, i as int)[x],
        {
            let c = &self.nodes[i];
            proof {
                lemma_kinds_distinct();
                lemma_acc_delays_len(self.nodes@, i as int);
                lemma_acc_delays_len(self.nodes@, i as int + 1);
            }
            let known = type_is(&c.type_, "Input") || type_is(&c.type_, "Output") || type_is(
                &c.type_,
                "MechBass",
            ) || type_is(&c.type_, "DrumBot") || type_is(&c.type_, "PyNode") || type_is(
                &c.type_,
                "DelayNode",
            ) || type_is(&c.type_, "DebugNode");
            if !known {
                proof {
                    lemma_pass1_stable(self.nodes@, i as int + 1, n as int);
                }
                return Err(
                    ConfigError { kind: ConfigErrorKind::UnknownType, subject: c.type_.clone() },
                );
            }
            proof {
                crate::graph::lemma_find_node_from_props(graph@, c.name@, 0);
            }
            match graph.find(&c.name) {
                Some(_) => {
                    proof {
                        lemma_pass1_stable(self.nodes@, i as int + 1, n as int);
                    }
                    return Err(
                        ConfigError {
                            kind: ConfigErrorKind::DuplicateName,
                            subject: c.name.clone(),
                        },
                    );
                },
                None => {
                    proof {
                        assert forall|j: int| 0 <= j < i implies (#[trigger] self.nodes@[j].name)@
                            != c.name@ by {
                            assert(graph@[j].name == self.nodes@[j].name);
                        }
                    }
                },
            }
            let body: NodeBody = if type_is(&c.type_, "Input") {
                NodeBody::Input
            } else if type_is(&c.type_, "Output") {
                NodeBody::Output
            } else if type_is(&c.type_, "DebugNode") {
                NodeBody::Debug
            } else if type_is(&c.type_, "MechBass") {
                NodeBody::Mech(MechBass::new(now))
            } else if type_is(&c.type_, "DrumBot") {
                match &c.arms {
                    Some(arms) => NodeBody::Drum(DrumBot::new(arms, now)),
                    None => {
                        proof {
                            lemma_pass1_stable(self.nodes@, i as int + 1, n as int);
                        }
                        return Err(
                            ConfigError {
                                kind: ConfigErrorKind::MissingArms,
                                subject: c.name.clone(),
                            },
                        );
                    },
                }
            } else if type_is(&c.type_, "PyNode") {
                match c.duration_nanos {
                    Some(dur) => match &c.source {
                        Some(src) => NodeBody::Scripted {
                            duration_nanos: dur,
                            source: src.clone(),
                        },
                        None => {
                            proof {
                                lemma_pass1_stable(self.nodes@, i as int + 1, n as int);
                            }
                            return Err(
                                ConfigError {
                                    kind: ConfigErrorKind::MissingSource,
                                    subject: c.name.clone(),
                                },
                            );
                        },
                    },
                    None => {
                        proof {
                            lemma_pass1_stable(self.nodes@, i as int + 1, n as int);
                        }
                        return Err(
                            ConfigError {
                                kind: ConfigErrorKind::MissingDuration,
                                subject: c.name.clone(),
                            },
                        );
                    },
                }
            } else {
                match c.duration_nanos {
                    Some(dur) => {
                        let is_total = match c.is_total {
                            Some(t) => t,
                            None => false,
                        };
                        if is_total {
                            let prev = delays[i];
                            if prev > dur {
                                proof {
                                    lemma_pass1_stable(self.nodes@, i as int + 1, n as int);
                                }
                                return Err(
                                    ConfigError {
                                        kind: ConfigErrorKind::NegativeTotalDelay,
                                        subject: c.name.clone(),
                                    },
                                );
                            }
                            NodeBody::Delay { duration_nanos: dur - prev }
                        } else {
                            NodeBody::Delay { duration_nanos: dur }
                        }
                    },
                    None => {
                        proof {
                            lemma_pass1_stable(self.nodes@, i as int + 1, n as int);
                        }
                        return Err(
                            ConfigError {
                                kind: ConfigErrorKind::MissingDuration,
                                subject: c.name.clone(),
                            },
                        );
                    },
                }
            };
            let d = body.delay();
            proof {
                assert(spec_config_error_at(self.nodes@, i as int) is None);
                assert(d == spec_config_delay(
                    self.nodes@[i as int],
                    spec_acc_delays(self.nodes@, i as int)[i as int],
                ));
            }
            match &c.next {
                Some(nx) => {
                    match find_config(&self.nodes, nx) {
                        Some(j) => {
                            let mine = delays[i];
                            let v = mine.saturating_add(d);
                            if v > delays[j] {
                                delays[j] = v;
                            }
                            proof {
                                assert(forall|x: int|
                                    0 <= x < n ==> delays@[x] == spec_acc_delays(
                                        self.nodes@,
                                        i as int + 1,
                                    )[x]);
                            }
                        },
                        None => {},
                    }
                },
                None => {},
            }
            graph.insert(c.name.clone(), body);
        }
        proof {
            lemma_pass1_all_ok(self.nodes@, n as int);
        }
        for i in 0..n
            invariant
                n == self.nodes@.len(),
                graph.wf(),
                graph@.len() == n,
                spec_first_error_pass1(self.nodes@, n as int) is None,
                spec_first_unknown_target(self.nodes@, i as int) is None,
                forall|j: int| 0 <= j < n ==> (#[trigger] graph@[j].name) == self.nodes@[j].name,
                forall|j: int|
                    0 <= j < n ==> spec_body_matches(
                        self.nodes@,
                        j,
                        (#[trigger] graph@[j].body),
                        now,
                    ),
                forall|j: int| i <= j < n ==> (#[trigger] graph@[j].next) is None,
                forall|j: int|
                    0 <= j < i ==> (#[trigger] graph@[j].next) == (match self.nodes@[j].next {
                        Some(nx) => match spec_find_config(self.nodes@, nx@) {
                            Some(t) => Some(t as usize),
                            None => None,
                        },
                        None => None::<usize>,
                    }),
        {
            let c = &self.nodes[i];
            match &c.next {
                Some(nx) => {
                    proof {
                        lemma_pass1_all_ok(self.nodes@, n as int);
                        assert(spec_config_error_at(self.nodes@, i as int) is None);
                        assert forall|j: int|
                            0 <= j < n && j != i implies (#[trigger] graph@[j].name)@
                            != c.name@ by {
                            if j < i {
                                assert(spec_config_error_at(self.nodes@, i as int) is None);
                            } else {
                                assert(spec_config_error_at(self.nodes@, j) is None);
                            }
                        }
                        crate::graph::lemma_find_node_unique(graph@, c.name@, i as int);
                        lemma_find_alignment(graph@, self.nodes@, nx@, 0);
                    }
                    match graph.bind(&c.name, nx) {
                        Ok(()) => {},
                        Err(e) => {
                            proof {
                                lemma_unknown_target_stable(self.nodes@, i as int + 1, n as int);
                            }
                            return Err(e);
                        },
                    }
                },
                None => {},
            }
        }
        Ok(graph)
    }
}

} // verus!
