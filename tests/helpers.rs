use tracecore::ai::{chunk_text_by_sentences, extract_json_array, ContextBuilder, GraphRagExtractorConfig, NullProvider};
use tracecore::diagrams::layout::{group_by_kind, kind_display_label, kind_preferred_direction, GroupDirection};
use tracecore::diagrams::{bdd, ibd};
use tracecore::kinds::{
    diagram_kind_str, parse_diagram_kind, parse_edge_kind, parse_node_kind, parse_port_direction,
    parse_req_priority, parse_req_status, parse_test_status, parse_uc_level, parse_verification_method,
    DiagramKind, EdgeKind, NodeKind, PortDirection, RequirementPriority, RequirementStatus, ReviewStatus,
    SectionType, TestStatus, UseCaseLevel,
};
use tracecore::model::default_subsystem_knowledge_body_format;

#[test]
fn kind_names_parse_back() {
    assert_eq!(parse_node_kind("use_case"), Ok(NodeKind::UseCase));
    assert_eq!(parse_node_kind(NodeKind::ConstraintBlock.as_str()), Ok(NodeKind::ConstraintBlock));
    assert_eq!(parse_node_kind("widget"), Err("unknown node kind: widget".to_string()));
    assert_eq!(parse_edge_kind("binding_connector"), Ok(EdgeKind::BindingConnector));
    assert_eq!(parse_edge_kind("x"), Err("unknown edge kind: x".to_string()));
    assert_eq!(parse_diagram_kind("statemachine"), Ok(DiagramKind::StateMachine));
    assert_eq!(diagram_kind_str(&DiagramKind::UseCase), "usecase");
    assert_eq!(parse_verification_method("demonstration"), Ok(tracecore::kinds::VerificationMethod::Demonstration));
    assert_eq!(parse_req_priority(Some("shall")), RequirementPriority::Shall);
    assert_eq!(parse_req_priority(Some("bogus")), RequirementPriority::Should);
    assert_eq!(parse_req_status(None), RequirementStatus::Draft);
    assert_eq!(parse_port_direction(Some("inout")), PortDirection::InOut);
    assert_eq!(parse_port_direction(Some("in")), PortDirection::In);
    assert_eq!(parse_uc_level(Some("summary")), UseCaseLevel::Summary);
    assert_eq!(parse_test_status(Some("fail")), TestStatus::Fail);
    assert_eq!(SectionType::parse_or_default("bom_item"), SectionType::BomItem);
    assert_eq!(SectionType::parse_or_default("?"), SectionType::Paragraph);
    assert_eq!(ReviewStatus::parse_or_default("in_progress"), ReviewStatus::InProgress);
    assert_eq!(ReviewStatus::parse_or_default("?"), ReviewStatus::Open);
    assert_eq!(EdgeKind::BindingConnector.as_title(), "BindingConnector");
}

#[test]
fn json_array_is_cut_out() {
    assert_eq!(extract_json_array("Here: [1, [2], \"]\"] done").as_deref(), Some("[1, [2], \"]\"]"));
    assert_eq!(extract_json_array("```json\n[{\"a\": \"\\\"]\"}]\n```").as_deref(), Some("[{\"a\": \"\\\"]\"}]"));
    assert_eq!(extract_json_array("no array"), None);
    assert_eq!(extract_json_array("[1, 2"), None);
    assert_eq!(extract_json_array("é [\"ü\"]").as_deref(), Some("[\"ü\"]"));
}

#[test]
fn short_text_is_one_chunk() {
    assert_eq!(chunk_text_by_sentences("abc", 10, 2), vec!["abc".to_string()]);
    assert_eq!(chunk_text_by_sentences("", 0, 0), vec![String::new()]);
}

#[test]
fn long_text_is_cut_at_sentences() {
    let text = "One two. Three four. Five six.";
    let chunks = chunk_text_by_sentences(text, 10, 5);
    assert_eq!(chunks, vec!["One two. Three four.".to_string(), " Five six.".to_string()]);
    let overlapping = chunk_text_by_sentences("Aaaa. Bbbb cccc dddd eeee", 8, 18);
    assert_eq!(overlapping, vec!["Aaaa. Bb", " Bbbb cc", "cc dddd ", "eeee"]);
    let back = chunk_text_by_sentences("Aa. Bb. Cc dd ee ff gg hh", 9, 6);
    assert_eq!(back, vec!["Aa. Bb. C", " Cc dd ee", " dd ee ff", " ee ff gg", " ff gg hh"]);
    assert_eq!(chunk_text_by_sentences("abcdefghij", 4, 2), vec!["abcd", "cdef", "efgh", "ghij"]);
    let plain = "abcdefghij";
    assert_eq!(chunk_text_by_sentences(plain, 4, 0), vec!["abcd".to_string(), "efgh".to_string(), "ij".to_string()]);
}

#[test]
fn grouping_by_kind() {
    let nodes = vec![
        (1u128, "block".to_string()),
        (2u128, "state".to_string()),
        (3u128, "block".to_string()),
        (4u128, "widget".to_string()),
    ];
    let groups = group_by_kind(&nodes);
    assert_eq!(groups.len(), 3);
    assert_eq!(groups[0].id, "group-block");
    assert_eq!(groups[0].label, "Blocks");
    assert_eq!(groups[0].member_ids, vec![1, 3]);
    assert_eq!(groups[0].direction, GroupDirection::Down);
    assert_eq!(groups[1].label, "States");
    assert_eq!(groups[1].direction, GroupDirection::Right);
    assert_eq!(groups[2].label, "Widget");
    assert_eq!(groups[2].member_ids, vec![4]);
    assert_eq!(kind_display_label("éclair"), "Éclair");
    assert_eq!(kind_display_label(""), "");
    assert_eq!(kind_preferred_direction("action"), GroupDirection::Right);
    assert_eq!(GroupDirection::Right.as_elk_str(), "RIGHT");
}

#[test]
fn diagram_rules() {
    assert!(bdd::node_allowed(&NodeKind::Requirement));
    assert!(!bdd::node_allowed(&NodeKind::State));
    assert!(bdd::edge_allowed(&EdgeKind::Realizes));
    assert!(!bdd::edge_allowed(&EdgeKind::Connects));
    assert!(ibd::node_allowed(&NodeKind::Port));
    assert!(!ibd::node_allowed(&NodeKind::Requirement));
    assert!(ibd::edge_allowed(&EdgeKind::Connects));
    assert!(!ibd::edge_allowed(&EdgeKind::Satisfies));
}

#[test]
fn assistant_defaults() {
    let p = NullProvider;
    assert!(!p.is_available());
    assert_eq!(p.name(), "none");
    assert_eq!(p.unavailable_reason(), "no AI provider configured");
    let c = ContextBuilder::new("You are a systems engineer.".to_string());
    assert_eq!(c.system_prompt(), "You are a systems engineer.");
    let g = GraphRagExtractorConfig::default();
    assert_eq!(g.chunk_size, 800);
    assert_eq!(g.chunk_overlap, 150);
    assert_eq!(g.ollama_base_url, "http://localhost:11434");
    assert_eq!(default_subsystem_knowledge_body_format(), "plain");
}
