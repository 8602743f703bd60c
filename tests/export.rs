use tracecore::export::{edge_uml_type, node_uml_type, to_markdown, to_xmi, xml_escape};
use tracecore::kinds::{EdgeKind, NodeKind, RequirementPriority, RequirementStatus, VerificationMethod};
use tracecore::model::{Edge, Node, NodeData, Project, RequirementData};

const P: u128 = 0x550e8400_e29b_41d4_a716_446655440000;

fn project(description: &str) -> Project {
    Project { id: P, name: "Car & Co".to_string(), description: description.to_string(), created_at: 0, modified_at: 0 }
}

fn node(id: u128, kind: NodeKind, name: &str, data: NodeData) -> Node {
    Node { id, project_id: P, kind, name: name.to_string(), description: String::new(), data, meta: Vec::new(), created_at: 0, modified_at: 0 }
}

fn req(id: u128, text: &str) -> Node {
    node(id, NodeKind::Requirement, "Brake", NodeData::Requirement(RequirementData {
        req_id: Some("REQ-1".to_string()),
        text: Some(text.to_string()),
        rationale: None,
        priority: RequirementPriority::Shall,
        status: RequirementStatus::Draft,
        source: None,
        allocations: None,
        verification_method: Some(VerificationMethod::Test),
    }))
}

fn edge(id: u128, kind: EdgeKind, s: u128, t: u128, label: &str) -> Edge {
    Edge { id, project_id: P, kind, source_id: s, target_id: t, label: label.to_string(), meta: Vec::new(), created_at: 0, modified_at: 0 }
}

#[test]
fn xml_escape_replaces_reserved_characters() {
    assert_eq!(xml_escape("a<b>&\"c'"), "a&lt;b&gt;&amp;&quot;c&apos;");
    assert_eq!(xml_escape("plain"), "plain");
    assert_eq!(xml_escape(""), "");
}

#[test]
fn uml_types_follow_kinds() {
    let (t, extra) = node_uml_type(&req(1, "x"));
    assert_eq!(t, "uml:Class");
    assert_eq!(extra, " isAbstract=\"false\"");
    let (t, extra) = node_uml_type(&node(2, NodeKind::Function, "f", NodeData::Function));
    assert_eq!(t, "uml:Activity");
    assert_eq!(extra, "");
    let (t, extra) = edge_uml_type(&edge(3, EdgeKind::Composes, 1, 2, "a<b"));
    assert_eq!(t, "uml:Association");
    assert_eq!(extra, " name=\"a&lt;b\" aggregation=\"composite\"");
    let (t, extra) = edge_uml_type(&edge(3, EdgeKind::Verifies, 1, 2, ""));
    assert_eq!(t, "uml:Dependency");
    assert_eq!(extra, "");
}

#[test]
fn markdown_report() {
    let nodes = vec![req(1, "stop | go"), node(2, NodeKind::Block, "Brakes", NodeData::Actor)];
    let edges = vec![edge(9, EdgeKind::Satisfies, 2, 1, ""), edge(10, EdgeKind::Traces, 2, 77, "")];
    let md = to_markdown(&project("A car."), &nodes, &edges);
    let expected = "# Car & Co\n\nA car.\n\n## Requirements\n\n| ID | Name | Text | Priority | Status | Verification |\n|---|---|---|---|---|---|\n| REQ-1 | Brake | stop \\| go | Shall | Draft | Test |\n\n## Traceability\n\n| Relationship | Source | Target |\n|---|---|---|\n| «satisfies» | Brakes | Brake |\n| «traces» | Brakes | ? |\n\n";
    assert_eq!(md, expected);
    assert_eq!(to_markdown(&project(""), &[], &[]), "# Car & Co\n\n");
}

#[test]
fn xmi_document() {
    let nodes = vec![req(1, "a<b")];
    let edges = vec![edge(2, EdgeKind::Derives, 1, 1, "")];
    let x = to_xmi(&project(""), &nodes, &edges);
    assert!(x.starts_with("<?xml version=\"1.0\" encoding=\"UTF-8\"?>\n<xmi:XMI xmi:version=\"2.1\"\n"));
    assert!(x.contains("  <uml:Model xmi:id=\"_550e8400e29b41d4a716446655440000\" name=\"Car &amp; Co\">\n"));
    assert!(x.contains("xmi:id=\"_550e8400e29b41d4a716446655440000_pkg\""));
    assert!(x.contains("      <packagedElement xmi:type=\"uml:Class\" xmi:id=\"_00000000000000000000000000000001\" name=\"Brake\" isAbstract=\"false\"/>\n"));
    assert!(x.contains("      <packagedElement xmi:type=\"uml:Abstraction\" xmi:id=\"_00000000000000000000000000000002\" client=\"_00000000000000000000000000000001\" supplier=\"_00000000000000000000000000000001\"/>\n"));
    assert!(x.contains("  <Requirements:Requirement xmi:id=\"_00000000000000000000000000000001_st\" base_Class=\"_00000000000000000000000000000001\" text=\"a&lt;b\"/>\n"));
    assert!(x.ends_with("    </packagedElement>\n  </uml:Model>\n  <Requirements:Requirement xmi:id=\"_00000000000000000000000000000001_st\" base_Class=\"_00000000000000000000000000000001\" text=\"a&lt;b\"/>\n</xmi:XMI>\n"));
}
