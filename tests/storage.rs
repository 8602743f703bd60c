use tracecore::kinds::{NodeKind, PortDirection, RequirementPriority, RequirementStatus, VerificationMethod};
use tracecore::model::{BlockData, ConstraintBlockData, NodeData, PortData, RequirementData};
use tracecore::storage::{build_node_data, flatten_node_data, NodeColumns};

fn requirement() -> NodeData {
    NodeData::Requirement(RequirementData {
        req_id: Some("REQ-7".to_string()),
        text: Some("shall stop".to_string()),
        rationale: None,
        priority: RequirementPriority::May,
        status: RequirementStatus::Obsolete,
        source: Some("spec".to_string()),
        allocations: Some(vec!["FPGA".to_string()]),
        verification_method: Some(VerificationMethod::Inspection),
    })
}

#[test]
fn requirement_columns() {
    let c = flatten_node_data(&requirement());
    assert_eq!(c.req_id.as_deref(), Some("REQ-7"));
    assert_eq!(c.req_priority.as_deref(), Some("may"));
    assert_eq!(c.req_status.as_deref(), Some("obsolete"));
    assert_eq!(c.req_allocations.as_deref(), Some("[\"FPGA\"]"));
    assert_eq!(c.req_verification_method.as_deref(), Some("inspection"));
    assert!(c.block_is_abstract.is_none() && c.port_direction.is_none());
    match build_node_data(&NodeKind::Requirement, &c) {
        Ok(NodeData::Requirement(r)) => {
            assert_eq!(r.req_id.as_deref(), Some("REQ-7"));
            assert_eq!(r.priority, RequirementPriority::May);
            assert_eq!(r.status, RequirementStatus::Obsolete);
            assert_eq!(r.allocations, Some(vec!["FPGA".to_string()]));
            assert_eq!(r.verification_method, Some(VerificationMethod::Inspection));
        }
        _ => panic!("expected a requirement"),
    }
}

#[test]
fn empty_allocations_read_back_as_absent() {
    let mut c = NodeColumns::none();
    c.req_allocations = Some("[]".to_string());
    match build_node_data(&NodeKind::Requirement, &c) {
        Ok(NodeData::Requirement(r)) => {
            assert_eq!(r.allocations, None);
            assert_eq!(r.priority, RequirementPriority::Should);
            assert_eq!(r.status, RequirementStatus::Draft);
        }
        _ => panic!("expected a requirement"),
    }
}

#[test]
fn unknown_verification_method_is_refused() {
    let mut c = NodeColumns::none();
    c.req_verification_method = Some("magic".to_string());
    match build_node_data(&NodeKind::Requirement, &c) {
        Err(e) => assert_eq!(e, "unknown verification method: magic"),
        Ok(_) => panic!("expected an error"),
    }
}

#[test]
fn port_columns_round_trip() {
    let id: u128 = 0x550e8400_e29b_41d4_a716_446655440000;
    let d = NodeData::Port(PortData {
        direction: PortDirection::Out,
        type_ref: Some(id),
        type_label: Some("Voltage".to_string()),
        multiplicity: None,
    });
    let c = flatten_node_data(&d);
    assert_eq!(c.port_direction.as_deref(), Some("out"));
    assert_eq!(c.port_type_ref.as_deref(), Some("550e8400-e29b-41d4-a716-446655440000"));
    match build_node_data(&NodeKind::Port, &c) {
        Ok(NodeData::Port(p)) => {
            assert_eq!(p.direction, PortDirection::Out);
            assert_eq!(p.type_ref, Some(id));
            assert_eq!(p.type_label.as_deref(), Some("Voltage"));
        }
        _ => panic!("expected a port"),
    }
    let mut bad = c.clone();
    bad.port_type_ref = Some("nope".to_string());
    match build_node_data(&NodeKind::Port, &bad) {
        Err(e) => assert_eq!(e, "invalid port type reference: nope"),
        Ok(_) => panic!("expected an error"),
    }
}

#[test]
fn block_and_constraint_columns() {
    let b = NodeData::Block(BlockData { is_abstract: true, multiplicity: Some("1".to_string()), sim_params: None, sim_script: None });
    let c = flatten_node_data(&b);
    assert_eq!(c.block_is_abstract, Some(1));
    match build_node_data(&NodeKind::Block, &c) {
        Ok(NodeData::Block(b)) => assert!(b.is_abstract),
        _ => panic!("expected a block"),
    }
    let cb = NodeData::ConstraintBlock(ConstraintBlockData { expression: Some("x < 1".to_string()), parameters: Some(vec!["x".to_string()]) });
    let c = flatten_node_data(&cb);
    assert_eq!(c.cb_parameters.as_deref(), Some("[\"x\"]"));
    match build_node_data(&NodeKind::ConstraintBlock, &c) {
        Ok(NodeData::ConstraintBlock(cb)) => assert_eq!(cb.parameters, Some(vec!["x".to_string()])),
        _ => panic!("expected a constraint block"),
    }
    assert!(matches!(build_node_data(&NodeKind::Actor, &NodeColumns::none()), Ok(NodeData::Actor)));
}
