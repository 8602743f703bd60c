use tracecore::history::{
    extract_history_actor, extract_history_source, history_limit, record_if_changed,
    requirement_snapshot_from_node, row_to_requirement_snapshot, RawRequirementRow,
    RequirementSnapshot,
};
use tracecore::kinds::{NodeKind, RequirementPriority, RequirementStatus, VerificationMethod};
use tracecore::model::{MetaEntry, MetaValue, Node, NodeData, RequirementData};

fn requirement(text: &str) -> Node {
    Node {
        id: 7,
        project_id: 3,
        kind: NodeKind::Requirement,
        name: "Braking".to_string(),
        description: "stops the car".to_string(),
        data: NodeData::Requirement(RequirementData {
            req_id: Some("REQ-001".to_string()),
            text: Some(text.to_string()),
            rationale: None,
            priority: RequirementPriority::Shall,
            status: RequirementStatus::Approved,
            source: None,
            allocations: Some(vec!["FPGA".to_string(), "MCU".to_string()]),
            verification_method: Some(VerificationMethod::Test),
        }),
        meta: Vec::new(),
        created_at: 100,
        modified_at: 200,
    }
}

/// The row the store holds after writing `n`.
fn stored(n: &Node) -> RawRequirementRow {
    let r = match &n.data {
        NodeData::Requirement(r) => r,
        _ => panic!("not a requirement"),
    };
    RawRequirementRow {
        name: Some(n.name.clone()),
        description: Some(n.description.clone()),
        req_id: r.req_id.clone(),
        req_text: r.text.clone(),
        req_rationale: r.rationale.clone(),
        req_priority: Some(r.priority.as_str().to_string()),
        req_status: Some(r.status.as_str().to_string()),
        req_source: r.source.clone(),
        req_allocations: r.allocations.as_ref().map(|v| format!("[{}]", v.iter().map(|a| format!("\"{a}\"")).collect::<Vec<_>>().join(","))),
        req_verification_method: r.verification_method.map(|v| v.as_str().to_string()),
    }
}

fn meta(key: &str, value: MetaValue) -> MetaEntry {
    MetaEntry { key: key.to_string(), value }
}

#[test]
fn snapshot_canonicalises_fields() {
    let s = requirement_snapshot_from_node(&requirement("A")).unwrap();
    assert_eq!(s.req_id, "REQ-001");
    assert_eq!(s.text, "A");
    assert_eq!(s.rationale, "");
    assert_eq!(s.priority, "shall");
    assert_eq!(s.status, "approved");
    assert_eq!(s.verification_method, "test");
    assert_eq!(s.allocations, vec!["FPGA".to_string(), "MCU".to_string()]);
    assert_eq!(s.description, "stops the car");
}

#[test]
fn stored_row_reads_as_same_snapshot() {
    let n = requirement("A");
    let from_row = row_to_requirement_snapshot(&stored(&n));
    let from_node = requirement_snapshot_from_node(&n).unwrap();
    assert!(from_row == from_node);
}

#[test]
fn unreadable_allocations_read_as_empty() {
    let mut row = stored(&requirement("A"));
    row.req_allocations = Some("not json".to_string());
    assert!(row_to_requirement_snapshot(&row).allocations.is_empty());
    row.req_allocations = Some("[\"x\"]".to_string());
    assert_eq!(row_to_requirement_snapshot(&row).allocations, vec!["x".to_string()]);
}

#[test]
fn metadata_only_edit_records_nothing() {
    let before = requirement("A");
    let mut after = before.clone();
    after.meta.push(meta("provenance", MetaValue::Text("import".to_string())));
    after.modified_at = 999;
    assert!(record_if_changed(Some(stored(&before)), &after).is_none());
}

#[test]
fn text_edit_records_one_entry() {
    let before = requirement("A");
    let after = requirement("B");
    let e = record_if_changed(Some(stored(&before)), &after).expect("an entry");
    assert_eq!(e.prev.text, "A");
    assert_eq!(e.next.text, "B");
    assert_eq!(e.node_id, 7);
    assert_eq!(e.project_id, 3);
    assert_eq!(e.ts, 200);
    assert_eq!(e.actor, "system");
    assert_eq!(e.source, "manual");
}

#[test]
fn identical_resave_records_nothing() {
    let n = requirement("A");
    assert!(record_if_changed(Some(stored(&n)), &n).is_none());
    assert!(record_if_changed(Some(stored(&n)), &n.clone()).is_none());
}

#[test]
fn new_requirement_is_recorded_from_nothing() {
    let n = requirement("A");
    let e = record_if_changed(None, &n).expect("an entry");
    assert!(e.prev == RequirementSnapshot::default());
    assert_eq!(e.next.text, "A");
}

#[test]
fn non_requirements_record_nothing() {
    let mut n = requirement("A");
    n.kind = NodeKind::Block;
    assert!(record_if_changed(None, &n).is_none());
    let mut m = requirement("A");
    m.data = NodeData::Actor;
    assert!(record_if_changed(None, &m).is_none());
    assert!(requirement_snapshot_from_node(&m).is_none());
}

#[test]
fn actor_and_source_come_from_metadata() {
    let mut n = requirement("A");
    assert_eq!(extract_history_actor(&n), "system");
    assert_eq!(extract_history_source(&n), "manual");
    n.meta.push(meta("ai_suggested", MetaValue::Flag(true)));
    assert_eq!(extract_history_source(&n), "ai");
    n.meta.push(meta("actor", MetaValue::Text("  ".to_string())));
    assert_eq!(extract_history_actor(&n), "system");
    n.meta.insert(0, meta("actor", MetaValue::Text("alice".to_string())));
    assert_eq!(extract_history_actor(&n), "alice");
    n.meta.push(meta("change_source", MetaValue::Text("import".to_string())));
    assert_eq!(extract_history_source(&n), "import");
    let mut m = requirement("A");
    m.meta.push(meta("ai_generated", MetaValue::Flag(false)));
    m.meta.push(meta("change_source", MetaValue::Json("42".to_string())));
    assert_eq!(extract_history_source(&m), "manual");
    m.meta.push(meta("ai_generated", MetaValue::Flag(true)));
    assert_eq!(extract_history_source(&m), "manual");
}

#[test]
fn history_limit_is_clamped() {
    assert_eq!(history_limit(None), 20);
    assert_eq!(history_limit(Some(0)), 1);
    assert_eq!(history_limit(Some(-5)), 1);
    assert_eq!(history_limit(Some(50)), 50);
    assert_eq!(history_limit(Some(200)), 200);
    assert_eq!(history_limit(Some(1000)), 200);
}

fn entry_at(node_id: u128, ts: i64, text: &str) -> tracecore::history::RequirementHistoryEntry {
    let mut n = requirement(text);
    n.id = node_id;
    n.modified_at = ts;
    record_if_changed(None, &n).expect("an entry")
}

#[test]
fn history_is_listed_newest_first_and_limited() {
    let log = vec![
        entry_at(7, 10, "a"),
        entry_at(8, 15, "other"),
        entry_at(7, 30, "c"),
        entry_at(7, 20, "b"),
    ];
    let listed = tracecore::history::list_history(&log, 7, None);
    let texts: Vec<&str> = listed.iter().map(|e| e.next.text.as_str()).collect();
    assert_eq!(texts, vec!["c", "b", "a"]);
    let one = tracecore::history::list_history(&log, 7, Some(0));
    assert_eq!(one.len(), 1);
    assert_eq!(one[0].ts, 30);
    assert!(tracecore::history::list_history(&log, 99, Some(5)).is_empty());
}

#[test]
fn written_row_reads_back_as_the_snapshot() {
    let n = requirement("A");
    let row = tracecore::history::stored_requirement_row(&n).expect("a requirement row");
    assert_eq!(row.req_allocations.as_deref(), Some("[\"FPGA\",\"MCU\"]"));
    assert_eq!(row.req_priority.as_deref(), Some("shall"));
    assert!(row_to_requirement_snapshot(&row) == requirement_snapshot_from_node(&n).unwrap());
    let mut edited = n.clone();
    edited.meta.push(meta("note", MetaValue::Text("x".to_string())));
    assert!(record_if_changed(Some(row.clone()), &edited).is_none());
    let e = record_if_changed(Some(row), &requirement("B")).expect("an entry");
    assert_eq!((e.prev.text.as_str(), e.next.text.as_str()), ("A", "B"));
    let mut actor = n.clone();
    actor.data = NodeData::Actor;
    assert!(tracecore::history::stored_requirement_row(&actor).is_none());
}

#[test]
fn metadata_keys_must_be_distinct() {
    let mut n = requirement("A");
    assert!(tracecore::model::meta_keys_distinct(&n.meta));
    n.meta.push(meta("actor", MetaValue::Text("a".to_string())));
    n.meta.push(meta("source", MetaValue::Flag(true)));
    assert!(tracecore::model::meta_keys_distinct(&n.meta));
    n.meta.push(meta("actor", MetaValue::Text("b".to_string())));
    assert!(!tracecore::model::meta_keys_distinct(&n.meta));
}
