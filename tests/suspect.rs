use tracecore::kinds::EdgeKind;
use tracecore::model::Edge;
use tracecore::suspect::SuspectLedger;

fn edge(id: u128, kind: EdgeKind, source_id: u128, target_id: u128) -> Edge {
    Edge {
        id,
        project_id: 1,
        kind,
        source_id,
        target_id,
        label: String::new(),
        meta: Vec::new(),
        created_at: 0,
        modified_at: 0,
    }
}

fn graph() -> Vec<Edge> {
    vec![
        edge(10, EdgeKind::Derives, 5, 6),
        edge(11, EdgeKind::Composes, 5, 7),
        edge(12, EdgeKind::Satisfies, 5, 8),
        edge(13, EdgeKind::Refines, 9, 5),
        edge(14, EdgeKind::Traces, 5, 9),
    ]
}

fn open_edges(l: &SuspectLedger, project: u128) -> Vec<u128> {
    let mut v: Vec<u128> = l.list_open(project).iter().map(|s| s.edge_id).collect();
    v.sort();
    v
}

#[test]
fn change_flags_derivation_edges_only() {
    let mut l = SuspectLedger::new();
    l.flag_downstream(&graph(), 1, 5, "requirement updated");
    assert_eq!(open_edges(&l, 1), vec![10, 12, 14]);
    let first = &l.links()[0];
    assert_eq!(first.source_node_id, 5);
    assert_eq!(first.target_node_id, 6);
    assert_eq!(first.flagged_reason, "requirement updated");
    assert!(first.flagged_at > 0);
    assert!(first.resolved_at.is_none());
}

#[test]
fn repeated_change_keeps_one_open_marker() {
    let mut l = SuspectLedger::new();
    l.flag_downstream(&graph(), 1, 5, "requirement updated");
    l.flag_downstream(&graph(), 1, 5, "requirement updated");
    assert_eq!(l.links().len(), 3);
    assert_eq!(open_edges(&l, 1), vec![10, 12, 14]);
}

#[test]
fn other_projects_are_not_flagged() {
    let mut l = SuspectLedger::new();
    l.flag_downstream(&graph(), 2, 5, "requirement updated");
    assert!(l.links().is_empty());
    l.flag_downstream(&graph(), 1, 5, "requirement updated");
    assert!(l.list_open(2).is_empty());
}

#[test]
fn resolve_closes_and_is_idempotent() {
    let mut l = SuspectLedger::new();
    l.flag_downstream(&graph(), 1, 5, "requirement updated");
    let id = l.links()[0].id;
    l.resolve(id, "alice");
    assert_eq!(open_edges(&l, 1), vec![12, 14]);
    let closed = l.links()[0].clone();
    assert_eq!(closed.resolved_by.as_deref(), Some("alice"));
    let when = closed.resolved_at.expect("resolved");
    l.resolve(id, "bob");
    assert_eq!(l.links()[0].resolved_at, Some(when));
    assert_eq!(l.links()[0].resolved_by.as_deref(), Some("alice"));
    l.resolve(12345, "nobody");
    assert_eq!(open_edges(&l, 1), vec![12, 14]);
}

#[test]
fn resolved_edge_can_be_flagged_again() {
    let mut l = SuspectLedger::new();
    let edges = vec![edge(10, EdgeKind::Derives, 5, 6)];
    l.flag_downstream(&edges, 1, 5, "first");
    let id = l.links()[0].id;
    l.resolve(id, "alice");
    l.flag_downstream(&edges, 1, 5, "second");
    assert_eq!(l.links().len(), 2);
    let open = l.list_open(1);
    assert_eq!(open.len(), 1);
    assert_eq!(open[0].flagged_reason, "second");
}

#[test]
fn open_markers_are_listed_newest_first() {
    let mut l = SuspectLedger::new();
    l.flag_downstream(&[edge(10, EdgeKind::Derives, 5, 6)], 1, 5, "older");
    let t0 = l.links()[0].flagged_at;
    while chrono::Utc::now().timestamp_millis() <= t0 {}
    l.flag_downstream(&[edge(11, EdgeKind::Derives, 5, 7)], 1, 5, "newer");
    let open = l.list_open(1);
    assert_eq!(open.len(), 2);
    assert_eq!(open[0].flagged_reason, "newer");
    assert_eq!(open[1].flagged_reason, "older");
}

#[test]
fn stored_markers_are_loaded_when_consistent() {
    let mut l = SuspectLedger::new();
    l.flag_downstream(&graph(), 1, 5, "requirement updated");
    let stored = l.links().clone();
    let loaded = SuspectLedger::from_links(stored.clone()).expect("consistent");
    assert_eq!(loaded.links().len(), 3);
    let mut twice = stored.clone();
    twice.push(stored[0].clone());
    assert!(SuspectLedger::from_links(twice).is_none());
    let mut closed = stored[0].clone();
    closed.resolved_at = Some(1);
    let mut with_closed = stored;
    with_closed.push(closed);
    assert!(SuspectLedger::from_links(with_closed).is_some());
}
