use mechsync::config::{ArmsConfig, Config, ConfigError, ConfigErrorKind, NodeConfig};
use mechsync::node::NodeBody;
use mechsync::pan::MAX_PAN_NANOS;

fn spec(name: &str, type_: &str, next: Option<&str>) -> NodeConfig {
    NodeConfig {
        name: name.to_owned(),
        type_: type_.to_owned(),
        next: next.map(|s| s.to_owned()),
        duration_nanos: None,
        is_total: None,
        arms: None,
        source: None,
    }
}

fn delay_spec(name: &str, next: Option<&str>, duration_nanos: u64, is_total: bool) -> NodeConfig {
    NodeConfig {
        duration_nanos: Some(duration_nanos),
        is_total: Some(is_total),
        ..spec(name, "DelayNode", next)
    }
}

#[test]
fn builds_a_simple_chain() {
    let cfg = Config {
        nodes: vec![
            spec("in", "Input", Some("bass")),
            spec("bass", "MechBass", Some("out")),
            spec("out", "Output", None),
        ],
    };
    let g = cfg.build(0).unwrap();
    assert_eq!(g.len(), 3);
    assert_eq!(g.node_name(0), "in");
    assert_eq!(g.node_name(1), "bass");
    assert_eq!(g.node_name(2), "out");
    assert_eq!(g.node_next(0), Some(1));
    assert_eq!(g.node_next(1), Some(2));
    assert_eq!(g.node_next(2), None);
    assert!(matches!(g.node_body(0), NodeBody::Input));
    assert!(matches!(g.node_body(1), NodeBody::Mech(_)));
    assert!(matches!(g.node_body(2), NodeBody::Output));
    assert_eq!(g.find(&"bass".to_owned()), Some(1));
    assert_eq!(g.find(&"drums".to_owned()), None);
}

#[test]
fn absolute_delay_absorbs_the_upstream_delay() {
    // MechBass accumulates its fixed deadline upstream of the delay node,
    // so a total of half a second leaves the difference as the effective
    // sleep.
    let cfg = Config {
        nodes: vec![
            spec("in", "Input", Some("bass")),
            spec("bass", "MechBass", Some("align")),
            delay_spec("align", Some("out"), 500_000_000, true),
            spec("out", "Output", None),
        ],
    };
    let g = cfg.build(0).unwrap();
    match g.node_body(2) {
        NodeBody::Delay { duration_nanos } => {
            assert_eq!(*duration_nanos, 500_000_000 - MAX_PAN_NANOS);
        }
        other => panic!("expected a delay node, got {:?}", node_kind(other)),
    }
}

#[test]
fn absolute_delay_shorter_than_upstream_fails() {
    let cfg = Config {
        nodes: vec![
            spec("in", "Input", Some("bass")),
            spec("bass", "MechBass", Some("align")),
            delay_spec("align", Some("out"), 300_000_000, true),
            spec("out", "Output", None),
        ],
    };
    let err = cfg.build(0).unwrap_err();
    assert_eq!(err.kind, ConfigErrorKind::NegativeTotalDelay);
    assert_eq!(err.subject, "align");
    assert_eq!(err.describe(), "previous duration longer than total duration required");
}

#[test]
fn relative_delay_keeps_its_duration() {
    let cfg = Config {
        nodes: vec![
            spec("in", "Input", Some("wait")),
            delay_spec("wait", Some("out"), 250_000_000, false),
            spec("out", "Output", None),
        ],
    };
    let g = cfg.build(0).unwrap();
    match g.node_body(1) {
        NodeBody::Delay { duration_nanos } => assert_eq!(*duration_nanos, 250_000_000),
        other => panic!("expected a delay node, got {:?}", node_kind(other)),
    }
}

#[test]
fn parallel_paths_align_to_a_common_deadline() {
    // Two instrument chains join at one output; each is closed by an
    // absolute delay with the same total, so each absolute delay absorbs
    // exactly what its own path accumulated.
    let cfg = Config {
        nodes: vec![
            spec("in1", "Input", Some("bass")),
            spec("bass", "MechBass", Some("align_bass")),
            delay_spec("align_bass", Some("out"), 3_000_000_000, true),
            spec("in2", "Input", Some("drums")),
            NodeConfig {
                arms: Some(vec![ArmsConfig(vec![(38, 60)])]),
                ..spec("drums", "DrumBot", Some("align_drums"))
            },
            delay_spec("align_drums", Some("out"), 3_000_000_000, true),
            spec("out", "Output", None),
        ],
    };
    let g = cfg.build(0).unwrap();
    let eff = |i: usize| match g.node_body(i) {
        NodeBody::Delay { duration_nanos } => *duration_nanos,
        _ => panic!("expected a delay node"),
    };
    // MechBass accumulates its pan deadline, DrumBot its fixed constant;
    // both paths end up at the same three-second deadline.
    assert_eq!(eff(2), 3_000_000_000 - MAX_PAN_NANOS);
    assert_eq!(eff(5), 3_000_000_000 - 2_000_000_000);
    assert_eq!(MAX_PAN_NANOS + eff(2), 2_000_000_000 + eff(5));
}

#[test]
fn delay_propagation_takes_the_slowest_parent() {
    // Two delay nodes feed the same child; the child's absolute delay is
    // measured against the larger accumulated delay.
    let cfg = Config {
        nodes: vec![
            spec("in1", "Input", Some("a")),
            spec("in2", "Input", Some("b")),
            delay_spec("a", Some("c"), 5, false),
            delay_spec("b", Some("c"), 7, false),
            delay_spec("c", None, 10, true),
        ],
    };
    let g = cfg.build(0).unwrap();
    match g.node_body(4) {
        NodeBody::Delay { duration_nanos } => assert_eq!(*duration_nanos, 3),
        _ => panic!("expected a delay node"),
    }
}

#[test]
fn unknown_type_fails_the_build() {
    let cfg = Config { nodes: vec![spec("in", "Flute", None)] };
    let err = cfg.build(0).unwrap_err();
    assert_eq!(err.kind, ConfigErrorKind::UnknownType);
    assert_eq!(err.subject, "Flute");
}

#[test]
fn duplicate_name_fails_the_build() {
    let cfg = Config {
        nodes: vec![spec("a", "DebugNode", None), spec("a", "Output", None)],
    };
    let err = cfg.build(0).unwrap_err();
    assert_eq!(err.kind, ConfigErrorKind::DuplicateName);
    assert_eq!(err.subject, "a");
}

#[test]
fn missing_parameters_fail_the_build() {
    let no_duration = Config { nodes: vec![spec("wait", "DelayNode", None)] };
    assert_eq!(no_duration.build(0).unwrap_err().kind, ConfigErrorKind::MissingDuration);

    let no_arms = Config { nodes: vec![spec("drums", "DrumBot", None)] };
    assert_eq!(no_arms.build(0).unwrap_err().kind, ConfigErrorKind::MissingArms);

    let no_source = Config {
        nodes: vec![NodeConfig { duration_nanos: Some(1), ..spec("script", "PyNode", None) }],
    };
    assert_eq!(no_source.build(0).unwrap_err().kind, ConfigErrorKind::MissingSource);
}

#[test]
fn unknown_target_fails_the_binding_pass() {
    let cfg = Config { nodes: vec![spec("in", "Input", Some("nowhere"))] };
    let err = cfg.build(0).unwrap_err();
    assert_eq!(err.kind, ConfigErrorKind::UnknownTarget);
    assert_eq!(err.subject, "nowhere");
}

#[test]
fn first_error_in_declaration_order_wins() {
    let cfg = Config {
        nodes: vec![spec("in", "Input", Some("nowhere")), spec("x", "Flute", None)],
    };
    // The instantiation pass runs before the binding pass, so the unknown
    // type is reported, not the unknown target.
    let err = cfg.build(0).unwrap_err();
    assert_eq!(err.kind, ConfigErrorKind::UnknownType);
}

#[test]
fn identical_configs_build_identical_graphs() {
    let make = || Config {
        nodes: vec![
            spec("in", "Input", Some("drums")),
            NodeConfig {
                arms: Some(vec![ArmsConfig(vec![(38, 60)])]),
                ..spec("drums", "DrumBot", Some("wait"))
            },
            delay_spec("wait", Some("out"), 2_500_000_000, true),
            spec("out", "Output", None),
        ],
    };
    let g1 = make().build(42).unwrap();
    let g2 = make().build(42).unwrap();
    assert_eq!(g1.len(), g2.len());
    for i in 0..g1.len() {
        assert_eq!(g1.node_name(i), g2.node_name(i));
        assert_eq!(g1.node_next(i), g2.node_next(i));
        assert_eq!(node_kind(g1.node_body(i)), node_kind(g2.node_body(i)));
        if let (NodeBody::Delay { duration_nanos: d1 }, NodeBody::Delay { duration_nanos: d2 }) =
            (g1.node_body(i), g2.node_body(i))
        {
            assert_eq!(d1, d2);
        }
    }
}

#[test]
fn custom_errors_carry_their_message() {
    let e = ConfigError::new("file unreadable");
    assert_eq!(e.kind, ConfigErrorKind::Custom);
    assert_eq!(e.subject, "file unreadable");
    let w = ConfigError::of("yaml: bad indent".to_owned());
    assert_eq!(w.kind, ConfigErrorKind::Custom);
    assert_eq!(w.subject, "yaml: bad indent");
}

fn node_kind(body: &NodeBody) -> &'static str {
    match body {
        NodeBody::Input => "input",
        NodeBody::Output => "output",
        NodeBody::Debug => "debug",
        NodeBody::Delay { .. } => "delay",
        NodeBody::Mech(_) => "mech",
        NodeBody::Drum(_) => "drum",
        NodeBody::Scripted { .. } => "scripted",
    }
}
