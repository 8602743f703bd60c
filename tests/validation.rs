use tracecore::kinds::{EdgeKind, NodeKind, VerificationMethod};
use tracecore::model::{Edge, MetaEntry, MetaValue, Node, NodeData, PortData, RequirementData};
use tracecore::kinds::{PortDirection, RequirementPriority, RequirementStatus};
use tracecore::validation::{validate, validate_edge, validate_node, IssueSeverity, ValidationIssue};

fn node(id: u128, kind: NodeKind, name: &str, data: NodeData) -> Node {
    Node {
        id,
        project_id: 1,
        kind,
        name: name.to_string(),
        description: String::new(),
        data,
        meta: Vec::new(),
        created_at: 0,
        modified_at: 0,
    }
}

fn requirement(id: u128, name: &str, text: Option<&str>, verif: Option<VerificationMethod>) -> Node {
    node(
        id,
        NodeKind::Requirement,
        name,
        NodeData::Requirement(RequirementData {
            req_id: None,
            text: text.map(|t| t.to_string()),
            rationale: None,
            priority: RequirementPriority::Should,
            status: RequirementStatus::Draft,
            source: None,
            allocations: None,
            verification_method: verif,
        }),
    )
}

fn block(id: u128, name: &str) -> Node {
    node(id, NodeKind::Block, name, NodeData::Block(tracecore::model::BlockData {
        is_abstract: false,
        multiplicity: None,
        sim_params: None,
        sim_script: None,
    }))
}

fn port(id: u128, name: &str, type_label: Option<&str>) -> Node {
    node(id, NodeKind::Port, name, NodeData::Port(PortData {
        direction: PortDirection::InOut,
        type_ref: None,
        type_label: type_label.map(|t| t.to_string()),
        multiplicity: None,
    }))
}

fn edge(id: u128, kind: EdgeKind, source_id: u128, target_id: u128) -> Edge {
    Edge {
        id,
        project_id: 1,
        kind,
        source_id,
        target_id,
        label: String::new(),
        meta: Vec::new(),
        created_at: 0,
        modified_at: 0,
    }
}

fn codes(issues: &[ValidationIssue]) -> Vec<&'static str> {
    issues.iter().map(|i| i.code).collect()
}

#[test]
fn satisfies_between_blocks_reports_wrong_target() {
    let nodes = vec![block(1, "A"), block(2, "B")];
    let edges = vec![edge(10, EdgeKind::Satisfies, 1, 2)];
    let issues = validate(&nodes, &edges);
    let wrong: Vec<&ValidationIssue> =
        issues.iter().filter(|i| i.code == "SATISFIES_WRONG_TARGET").collect();
    assert_eq!(wrong.len(), 1);
    assert_eq!(wrong[0].node_id, Some(2));
    assert_eq!(wrong[0].edge_id, Some(10));
    assert_eq!(wrong[0].severity, IssueSeverity::Error);
    assert_eq!(wrong[0].message, "«satisfies» target must be a Requirement, got block");
    assert_eq!(codes(&issues), vec!["SATISFIES_WRONG_TARGET"]);
}

#[test]
fn dangling_source_reports_only_that() {
    let nodes = vec![block(2, "B")];
    let edges = vec![edge(10, EdgeKind::Satisfies, 99, 2)];
    let issues = validate(&nodes, &edges);
    assert_eq!(codes(&issues), vec!["EDGE_DANGLING_SOURCE"]);
    assert_eq!(issues[0].edge_id, Some(10));
    assert_eq!(issues[0].node_id, None);
    assert_eq!(issues[0].message, "Edge Satisfies has a missing source node");
}

#[test]
fn dangling_target_reports_only_that() {
    let nodes = vec![block(1, "A")];
    let edges = vec![edge(10, EdgeKind::Verifies, 1, 42)];
    assert_eq!(codes(&validate(&nodes, &edges)), vec!["EDGE_DANGLING_TARGET"]);
}

#[test]
fn port_type_mismatch_only_for_differing_types() {
    let nodes = vec![port(1, "p", Some("Voltage")), port(2, "q", Some("Current"))];
    let edges = vec![edge(10, EdgeKind::Connects, 1, 2)];
    let issues = validate(&nodes, &edges);
    assert_eq!(codes(&issues), vec!["PORT_TYPE_MISMATCH"]);
    assert_eq!(issues[0].severity, IssueSeverity::Warning);
    assert_eq!(issues[0].message, "Port type mismatch: «Voltage» connected to «Current»");

    let same = vec![port(1, "p", Some("Voltage")), port(2, "q", Some("Voltage"))];
    assert!(validate(&same, &edges).is_empty());

    let untyped = vec![port(1, "p", Some("Voltage")), port(2, "q", None)];
    assert!(validate(&untyped, &edges).is_empty());

    let empty_type = vec![port(1, "p", Some("")), port(2, "q", Some("Voltage"))];
    assert!(validate(&empty_type, &edges).is_empty());
    let empty_other = vec![port(1, "p", Some("Voltage")), port(2, "q", Some(""))];
    assert!(validate(&empty_other, &edges).is_empty());
}

#[test]
fn requirement_without_text_or_method() {
    let nodes = vec![requirement(5, "R", Some(""), None)];
    let issues = validate_node(&nodes[0]);
    assert_eq!(codes(&issues), vec!["REQ_NO_TEXT", "REQ_NO_VERIF"]);
    assert_eq!(issues[0].severity, IssueSeverity::Warning);
    assert_eq!(issues[1].severity, IssueSeverity::Info);
    assert!(issues.iter().all(|i| i.node_id == Some(5)));
    assert_eq!(issues[0].message, "Requirement 'R' has no requirement text");
    assert_eq!(issues[1].message, "Requirement 'R' has no verification method");
}

#[test]
fn requirement_with_blank_text_and_missing_text() {
    let blank = requirement(5, "R", Some("   "), Some(VerificationMethod::Test));
    assert_eq!(codes(&validate_node(&blank)), vec!["REQ_NO_TEXT"]);
    let missing = requirement(6, "R", None, Some(VerificationMethod::Test));
    assert_eq!(codes(&validate_node(&missing)), vec!["REQ_NO_TEXT"]);
    let fine = requirement(7, "R", Some("shall work"), Some(VerificationMethod::Test));
    assert!(validate_node(&fine).is_empty());
}

#[test]
fn blank_name_is_unnamed() {
    let n = block(1, "  \t ");
    let issues = validate_node(&n);
    assert_eq!(codes(&issues), vec!["NODE_UNNAMED"]);
    assert_eq!(issues[0].message, "block has no name");
    assert!(validate_node(&block(1, " x ")).is_empty());
}

#[test]
fn validation_is_deterministic() {
    let nodes = vec![
        requirement(1, "", None, None),
        block(2, "B"),
        port(3, "p", Some("A")),
        port(4, "q", Some("B")),
    ];
    let edges = vec![
        edge(10, EdgeKind::Satisfies, 2, 1),
        edge(11, EdgeKind::Connects, 3, 4),
        edge(12, EdgeKind::Verifies, 2, 1),
        edge(13, EdgeKind::Transition, 3, 4),
        edge(14, EdgeKind::BindingConnector, 1, 2),
        edge(15, EdgeKind::Traces, 7, 8),
    ];
    let first = validate(&nodes, &edges);
    let second = validate(&nodes, &edges);
    let strip = |v: &[ValidationIssue]| {
        v.iter()
            .map(|i| (i.severity, i.code, i.message.clone(), i.node_id, i.edge_id))
            .collect::<Vec<_>>()
    };
    assert_eq!(strip(&first), strip(&second));
    assert_eq!(
        codes(&first),
        vec![
            "NODE_UNNAMED",
            "REQ_NO_TEXT",
            "REQ_NO_VERIF",
            "PORT_TYPE_MISMATCH",
            "VERIFIES_WRONG_SOURCE",
            "TRANSITION_NOT_STATES",
            "BINDING_CONNECTOR_UNUSUAL",
            "EDGE_DANGLING_SOURCE",
        ]
    );
    assert_ne!(first[0].id, first[1].id);
}

#[test]
fn satisfies_from_non_block_is_unusual() {
    let nodes = vec![requirement(1, "R", Some("t"), Some(VerificationMethod::Test)), port(2, "p", None)];
    let issues = validate_edge(&edge(10, EdgeKind::Satisfies, 2, 1), &nodes);
    assert_eq!(codes(&issues), vec!["SATISFIES_UNUSUAL_SOURCE"]);
    assert_eq!(issues[0].node_id, Some(2));
}

#[test]
fn connects_to_requirement_is_invalid() {
    let nodes = vec![requirement(1, "R", Some("t"), Some(VerificationMethod::Test)), block(2, "B")];
    let issues = validate_edge(&edge(10, EdgeKind::Connects, 2, 1), &nodes);
    assert_eq!(codes(&issues), vec!["CONNECTS_INVALID_ENDPOINT"]);
}

#[test]
fn verifies_wrong_target_and_other_kinds_pass() {
    let tc = node(3, NodeKind::TestCase, "T", NodeData::Actor);
    let nodes = vec![tc, block(2, "B")];
    let issues = validate_edge(&edge(10, EdgeKind::Verifies, 3, 2), &nodes);
    assert_eq!(codes(&issues), vec!["VERIFIES_WRONG_TARGET"]);
    assert!(validate_edge(&edge(11, EdgeKind::Composes, 3, 2), &nodes).is_empty());
}

#[test]
fn metadata_does_not_affect_validation() {
    let mut n = block(1, "B");
    n.meta.push(MetaEntry { key: "actor".to_string(), value: MetaValue::Text("x".to_string()) });
    assert!(validate_node(&n).is_empty());
}

#[test]
fn unicode_whitespace_names_are_blank() {
    assert_eq!(codes(&validate_node(&block(1, "\u{3000}\u{a0}\n"))), vec!["NODE_UNNAMED"]);
    assert_eq!(codes(&validate_node(&block(1, ""))), vec!["NODE_UNNAMED"]);
}

#[test]
fn dangling_source_alone_among_edges() {
    let nodes = vec![block(1, "A"), block(2, "B")];
    let edges = vec![
        edge(10, EdgeKind::Satisfies, 1, 2),
        edge(11, EdgeKind::Verifies, 99, 2),
        edge(12, EdgeKind::Connects, 1, 2),
    ];
    let issues = validate(&nodes, &edges);
    let about: Vec<&'static str> = issues.iter().filter(|i| i.edge_id == Some(11)).map(|i| i.code).collect();
    assert_eq!(about, vec!["EDGE_DANGLING_SOURCE"]);
}
