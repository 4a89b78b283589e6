use operator_host::visualize::{
    visualize_node, visualize_nodes, CoreNodeKind, CustomNode, DataId, InputMapping, NodeId,
    NodeRunConfig, OperatorDefinition, OperatorId, ResolvedNode, RuntimeNode,
};

fn config(inputs: Vec<(&str, InputMapping)>, outputs: Vec<&str>) -> NodeRunConfig {
    NodeRunConfig {
        inputs: inputs
            .into_iter()
            .map(|(id, m)| (DataId(id.to_owned()), m))
            .collect(),
        outputs: outputs.into_iter().map(|o| DataId(o.to_owned())).collect(),
    }
}

fn custom(id: &str, cfg: NodeRunConfig) -> ResolvedNode {
    ResolvedNode {
        id: NodeId(id.to_owned()),
        kind: CoreNodeKind::Custom(CustomNode { run_config: cfg }),
    }
}

fn mapping(source: &str, operator: Option<&str>, output: &str) -> InputMapping {
    InputMapping {
        source: NodeId(source.to_owned()),
        operator: operator.map(|o| OperatorId(o.to_owned())),
        output: DataId(output.to_owned()),
    }
}

#[test]
fn source_and_sink_nodes_with_edge() {
    let nodes = vec![
        custom("cam", config(vec![], vec!["img"])),
        custom(
            "view",
            config(vec![("img", mapping("cam", None, "img"))], vec![]),
        ),
    ];
    let chart = visualize_nodes(&nodes);
    assert_eq!(
        chart.as_str(),
        "flowchart TB\n  cam[\\cam/]\n  view[/view\\]\n  cam -- img --> view\n"
    );
}

#[test]
fn renamed_output_gets_as_label() {
    let nodes = vec![
        custom("cam", config(vec![], vec!["img"])),
        custom(
            "view",
            config(vec![("frame", mapping("cam", None, "img"))], vec![]),
        ),
    ];
    let chart = visualize_nodes(&nodes);
    assert_eq!(
        chart.as_str(),
        "flowchart TB\n  cam[\\cam/]\n  view[/view\\]\n  cam -- img as frame --> view\n"
    );
}

#[test]
fn runtime_node_renders_subgraph_and_operator_edge() {
    let nodes = vec![
        ResolvedNode {
            id: NodeId("rt".to_owned()),
            kind: CoreNodeKind::Runtime(RuntimeNode {
                operators: vec![OperatorDefinition {
                    id: OperatorId("op1".to_owned()),
                    config: config(vec![], vec!["o"]),
                }],
            }),
        },
        custom(
            "sink",
            config(vec![("o", mapping("rt", Some("op1"), "o"))], vec![]),
        ),
    ];
    let chart = visualize_nodes(&nodes);
    assert_eq!(
        chart.as_str(),
        "flowchart TB\nsubgraph rt\n  rt/op1[\\op1/]\nend\n  sink[/sink\\]\n  rt/op1 -- o --> sink\n"
    );
}

#[test]
fn unresolved_source_draws_missing_placeholder() {
    let nodes = vec![custom(
        "t",
        config(vec![("x", mapping("ghost", None, "x"))], vec!["y"]),
    )];
    let chart = visualize_nodes(&nodes);
    assert_eq!(
        chart.as_str(),
        "flowchart TB\n  t\n  missing>missing] -- x --> t\n"
    );
}

#[test]
fn output_not_declared_draws_missing_placeholder() {
    let nodes = vec![
        custom("src", config(vec![], vec!["a"])),
        custom(
            "t",
            config(vec![("b", mapping("src", None, "b"))], vec![]),
        ),
    ];
    let chart = visualize_nodes(&nodes);
    assert_eq!(
        chart.as_str(),
        "flowchart TB\n  src[\\src/]\n  t[/t\\]\n  missing>missing] -- b --> t\n"
    );
}

#[test]
fn duplicate_node_ids_resolve_to_the_last_declaration() {
    let nodes = vec![
        custom("dup", config(vec![], vec!["o"])),
        custom("dup", config(vec![], vec![])),
        custom(
            "t",
            config(vec![("o", mapping("dup", None, "o"))], vec![]),
        ),
    ];
    let chart = visualize_nodes(&nodes);
    // the second declaration of `dup` wins and declares no outputs
    assert!(chart.ends_with("  missing>missing] -- o --> t\n"));
}

#[test]
fn visualize_node_appends_one_block() {
    let mut chart = String::from("flowchart TB\n");
    let node = custom("plain", config(vec![("i", mapping("x", None, "i"))], vec!["o"]));
    visualize_node(&node, &mut chart);
    assert_eq!(chart.as_str(), "flowchart TB\n  plain\n");
}
