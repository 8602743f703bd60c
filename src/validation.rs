//! Structural and semantic validation of the whole graph: a pure function
//! from the current nodes and edges to the findings about them.
use vstd::prelude::*;
use crate::bindings::fresh_id;
use crate::kinds::{EdgeKind, NodeKind};
use crate::model::{Edge, Node, NodeData, RequirementData};
use crate::text::{blank, is_blank, owned, text_eq};

verus! {

/// How serious a finding is.
#[derive(Clone, Copy, Debug, PartialEq, Eq, Structural)]
pub enum IssueSeverity {
    Error,
    Warning,
    Info,
}

/// One finding of the validator. It is never stored: its id is drawn afresh
/// on every call.
#[derive(Clone, Debug)]
pub struct ValidationIssue {
    pub id: u128,
    pub severity: IssueSeverity,
    /// A stable code such as `EDGE_DANGLING_SOURCE`.
    pub code: &'static str,
    pub message: String,
    pub node_id: Option<u128>,
    pub edge_id: Option<u128>,
}

/// What a finding says, leaving out its freshly drawn id.
pub struct Finding {
    pub severity: IssueSeverity,
    pub code: Seq<char>,
    pub message: Seq<char>,
    pub node_id: Option<u128>,
    pub edge_id: Option<u128>,
}

impl ValidationIssue {
    pub open spec fn finding(self) -> Finding {
        Finding {
            severity: self.severity,
            code: self.code@,
            message: self.message@,
            node_id: self.node_id,
            edge_id: self.edge_id,
        }
    }
}

/// What a sequence of issues says, issue by issue.
pub open spec fn findings_of(issues: Seq<ValidationIssue>) -> Seq<Finding> {
    issues.map_values(|i: ValidationIssue| i.finding())
}

/// The first node with the given id.
pub open spec fn find_node(nodes: Seq<Node>, id: u128) -> Option<Node>
    decreases nodes.len(),
{
    if nodes.len() == 0 {
        None
    } else if nodes[0].id == id {
        Some(nodes[0])
    } else {
        find_node(nodes.drop_first(), id)
    }
}

/// A requirement whose text is missing or blank.
pub open spec fn text_missing(r: RequirementData) -> bool {
    match r.text {
        Some(t) => is_blank(t@),
        None => true,
    }
}

/// How a requirement is named in messages: its identifier, else the node's name.
pub open spec fn requirement_label(n: Node, r: RequirementData) -> Seq<char> {
    match r.req_id {
        Some(x) => x@,
        None => n.name@,
    }
}

/// The findings about one node, in the order they are reported.
pub open spec fn node_findings(n: Node) -> Seq<Finding> {
    let unnamed = if is_blank(n.name@) {
        seq![Finding {
            severity: IssueSeverity::Warning,
            code: "NODE_UNNAMED"@,
            message: n.kind.name() + " has no name"@,
            node_id: Some(n.id),
            edge_id: None,
        }]
    } else {
        Seq::empty()
    };
    match n.data {
        NodeData::Requirement(r) => {
            let no_text = if text_missing(r) {
                seq![Finding {
                    severity: IssueSeverity::Warning,
                    code: "REQ_NO_TEXT"@,
                    message: "Requirement '"@ + requirement_label(n, r) + "' has no requirement text"@,
                    node_id: Some(n.id),
                    edge_id: None,
                }]
            } else {
                Seq::empty()
            };
            let no_verif = if r.verification_method is None {
                seq![Finding {
                    severity: IssueSeverity::Info,
                    code: "REQ_NO_VERIF"@,
                    message: "Requirement '"@ + requirement_label(n, r) + "' has no verification method"@,
                    node_id: Some(n.id),
                    edge_id: None,
                }]
            } else {
                Seq::empty()
            };
            unnamed + no_text + no_verif
        },
        _ => unnamed,
    }
}

/// A finding about an edge alone, with no node reference.
pub open spec fn edge_finding(e: Edge, severity: IssueSeverity, code: Seq<char>, message: Seq<char>) -> Finding {
    Finding { severity, code, message, node_id: None, edge_id: Some(e.id) }
}

/// A finding about an edge and one of its endpoints.
pub open spec fn endpoint_finding(
    e: Edge,
    n: Node,
    severity: IssueSeverity,
    code: Seq<char>,
    message: Seq<char>,
) -> Finding {
    Finding { severity, code, message, node_id: Some(n.id), edge_id: Some(e.id) }
}

/// `f` if `cond` holds, else nothing.
pub open spec fn finding_if(cond: bool, f: Finding) -> Seq<Finding> {
    if cond {
        seq![f]
    } else {
        Seq::empty()
    }
}

/// Whether a node kind may end a connection.
pub open spec fn connectable(k: NodeKind) -> bool {
    k == NodeKind::Port || k == NodeKind::Block
}

/// Whether a node kind may end a binding connector.
pub open spec fn bindable(k: NodeKind) -> bool {
    k == NodeKind::Port || k == NodeKind::ConstraintBlock || k == NodeKind::Block
}

/// Two ports whose type names are both given, both non-empty, and differ.
pub open spec fn port_types_clash(s: Node, t: Node) -> bool {
    s.kind == NodeKind::Port && t.kind == NodeKind::Port && match (s.data, t.data) {
        (NodeData::Port(sp), NodeData::Port(tp)) => match (sp.type_label, tp.type_label) {
            (Some(a), Some(b)) => a@.len() > 0 && b@.len() > 0 && a@ != b@,
            _ => false,
        },
        _ => false,
    }
}

/// The typed port names of a clashing connection, as the message shows them.
pub open spec fn port_clash_message(s: Node, t: Node) -> Seq<char> {
    match (s.data, t.data) {
        (NodeData::Port(sp), NodeData::Port(tp)) => match (sp.type_label, tp.type_label) {
            (Some(a), Some(b)) => "Port type mismatch: «"@ + a@ + "» connected to «"@ + b@ + "»"@,
            _ => Seq::empty(),
        },
        _ => Seq::empty(),
    }
}

/// The kind-specific findings about an edge whose two endpoints exist.
pub open spec fn kind_findings(e: Edge, s: Node, t: Node) -> Seq<Finding> {
    match e.kind {
        EdgeKind::Satisfies => finding_if(
            t.kind != NodeKind::Requirement,
            endpoint_finding(e, t, IssueSeverity::Error, "SATISFIES_WRONG_TARGET"@,
                "«satisfies» target must be a Requirement, got "@ + t.kind.name()),
        ) + finding_if(
            s.kind != NodeKind::Block,
            endpoint_finding(e, s, IssueSeverity::Warning, "SATISFIES_UNUSUAL_SOURCE"@,
                "«satisfies» source is usually a Block, got "@ + s.kind.name()),
        ),
        EdgeKind::Verifies => finding_if(
            s.kind != NodeKind::TestCase,
            endpoint_finding(e, s, IssueSeverity::Error, "VERIFIES_WRONG_SOURCE"@,
                "«verifies» source must be a TestCase"@),
        ) + finding_if(
            t.kind != NodeKind::Requirement,
            endpoint_finding(e, t, IssueSeverity::Error, "VERIFIES_WRONG_TARGET"@,
                "«verifies» target must be a Requirement"@),
        ),
        EdgeKind::Connects => finding_if(
            !connectable(s.kind) || !connectable(t.kind),
            edge_finding(e, IssueSeverity::Error, "CONNECTS_INVALID_ENDPOINT"@,
                "«connects» endpoints must be Ports or Blocks"@),
        ) + finding_if(
            port_types_clash(s, t),
            edge_finding(e, IssueSeverity::Warning, "PORT_TYPE_MISMATCH"@, port_clash_message(s, t)),
        ),
        EdgeKind::Transition => finding_if(
            s.kind != NodeKind::State || t.kind != NodeKind::State,
            edge_finding(e, IssueSeverity::Error, "TRANSITION_NOT_STATES"@,
                "«transition» must link two States"@),
        ),
        EdgeKind::BindingConnector => finding_if(
            !bindable(s.kind) || !bindable(t.kind),
            edge_finding(e, IssueSeverity::Warning, "BINDING_CONNECTOR_UNUSUAL"@,
                "«bindingConnector» usually links Ports or ConstraintBlocks"@),
        ),
        _ => Seq::empty(),
    }
}

/// The findings about one edge: a dangling endpoint alone, or else the
/// rules of its kind.
pub open spec fn edge_findings(e: Edge, nodes: Seq<Node>) -> Seq<Finding> {
    match (find_node(nodes, e.source_id), find_node(nodes, e.target_id)) {
        (None, _) => seq![edge_finding(e, IssueSeverity::Error, "EDGE_DANGLING_SOURCE"@,
            "Edge "@ + e.kind.title() + " has a missing source node"@)],
        (_, None) => seq![edge_finding(e, IssueSeverity::Error, "EDGE_DANGLING_TARGET"@,
            "Edge "@ + e.kind.title() + " has a missing target node"@)],
        (Some(s), Some(t)) => kind_findings(e, s, t),
    }
}

/// The findings about every node, in node order.
pub open spec fn all_node_findings(nodes: Seq<Node>) -> Seq<Finding>
    decreases nodes.len(),
{
    if nodes.len() == 0 {
        Seq::empty()
    } else {
        all_node_findings(nodes.drop_last()) + node_findings(nodes.last())
    }
}

/// The findings about every edge, in edge order.
pub open spec fn all_edge_findings(edges: Seq<Edge>, nodes: Seq<Node>) -> Seq<Finding>
    decreases edges.len(),
{
    if edges.len() == 0 {
        Seq::empty()
    } else {
        all_edge_findings(edges.drop_last(), nodes) + edge_findings(edges.last(), nodes)
    }
}

/// Everything the validator reports about a graph, in order: node findings
/// in node order, then edge findings in edge order.
pub open spec fn graph_findings(nodes: Seq<Node>, edges: Seq<Edge>) -> Seq<Finding> {
    all_node_findings(nodes) + all_edge_findings(edges, nodes)
}

fn issue(
    severity: IssueSeverity,
    code: &'static str,
    message: String,
    node_id: Option<u128>,
    edge_id: Option<u128>,
) -> (r: ValidationIssue)
    ensures
        r.finding() == (Finding { severity, code: code@, message: message@, node_id, edge_id }),
{
    ValidationIssue { id: fresh_id(), severity, code, message, node_id, edge_id }
}

/// `a` followed by `b`, as a new `String`.
fn join2(a: &str, b: &str) -> (r: String)
    ensures
        r@ == a@ + b@,
{
    let mut s = owned(a);
    s.append(b);
    s
}

/// `a`, `b` and `c` one after the other, as a new `String`.
fn join3(a: &str, b: &str, c: &str) -> (r: String)
    ensures
        r@ == a@ + b@ + c@,
{
    let mut s = owned(a);
    s.append(b);
    s.append(c);
    s
}

proof fn lemma_findings_push(issues: Seq<ValidationIssue>, i: ValidationIssue)
    ensures
        findings_of(issues.push(i)) == findings_of(issues).push(i.finding()),
{
    assert(findings_of(issues.push(i)) =~= findings_of(issues).push(i.finding()));
}

proof fn lemma_findings_concat(a: Seq<ValidationIssue>, b: Seq<ValidationIssue>)
    ensures
        findings_of(a + b) == findings_of(a) + findings_of(b),
{
    assert(findings_of(a + b) =~= findings_of(a) + findings_of(b));
}

/// The findings about one node.
pub fn validate_node(node: &Node) -> (r: Vec<ValidationIssue>)
    ensures
        findings_of(r@) == node_findings(*node),
{
    let mut issues: Vec<ValidationIssue> = Vec::new();
    if blank(node.name.as_str()) {
        let i = issue(
            IssueSeverity::Warning,
            "NODE_UNNAMED",
            join2(node.kind.as_str(), " has no name"),
            Some(node.id),
            None,
        );
        proof { lemma_findings_push(issues@, i); }
        issues.push(i);
    }
    assert(findings_of(issues@) =~= (if is_blank(node.name@) {
        seq![Finding {
            severity: IssueSeverity::Warning,
            code: "NODE_UNNAMED"@,
            message: node.kind.name() + " has no name"@,
            node_id: Some(node.id),
            edge_id: None,
        }]
    } else {
        Seq::<Finding>::empty()
    }));
    if let NodeData::Requirement(r) = &node.data {
        let label: &str = match &r.req_id {
            Some(x) => x.as_str(),
            None => node.name.as_str(),
        };
        let missing = match &r.text {
            Some(t) => blank(t.as_str()),
            None => true,
        };
        if missing {
            let i = issue(
                IssueSeverity::Warning,
                "REQ_NO_TEXT",
                join3("Requirement '", label, "' has no requirement text"),
                Some(node.id),
                None,
            );
            proof { lemma_findings_push(issues@, i); }
            issues.push(i);
        }
        if r.verification_method.is_none() {
            let i = issue(
                IssueSeverity::Info,
                "REQ_NO_VERIF",
                join3("Requirement '", label, "' has no verification method"),
                Some(node.id),
                None,
            );
            proof { lemma_findings_push(issues@, i); }
            issues.push(i);
        }
        assert(findings_of(issues@) =~= node_findings(*node));
    }
    issues
}

/// The first node with the given id, if any.
pub(crate) fn find<'a>(nodes: &'a [Node], id: u128) -> (r: Option<&'a Node>)
    ensures
        match r {
            Some(n) => find_node(nodes@, id) == Some(*n),
            None => find_node(nodes@, id) is None,
        },
{
    let mut i: usize = 0;
    assert(nodes@.subrange(0, nodes@.len() as int) =~= nodes@);
    while i < nodes.len()
        invariant
            0 <= i <= nodes@.len(),
            find_node(nodes@, id) == find_node(nodes@.subrange(i as int, nodes@.len() as int), id),
        decreases nodes@.len() - i,
    {
        let ghost rest = nodes@.subrange(i as int, nodes@.len() as int);
        assert(rest.drop_first() =~= nodes@.subrange(i + 1, nodes@.len() as int));
        if nodes[i].id == id {
            return Some(&nodes[i]);
        }
        i = i + 1;
    }
    None
}

/// Whether a node kind may end a connection.
fn is_connectable(k: NodeKind) -> (r: bool)
    ensures
        r == connectable(k),
{
    k == NodeKind::Port || k == NodeKind::Block
}

/// Whether a node kind may end a binding connector.
fn is_bindable(k: NodeKind) -> (r: bool)
    ensures
        r == bindable(k),
{
    k == NodeKind::Port || k == NodeKind::ConstraintBlock || k == NodeKind::Block
}

/// The port type clash of a connection, with its message, if there is one.
fn port_clash(src: &Node, tgt: &Node) -> (r: Option<String>)
    ensures
        r is Some == port_types_clash(*src, *tgt),
        r matches Some(m) ==> m@ == port_clash_message(*src, *tgt),
{
    if src.kind == NodeKind::Port && tgt.kind == NodeKind::Port {
        if let (NodeData::Port(sp), NodeData::Port(tp)) = (&src.data, &tgt.data) {
            if let (Some(st), Some(tt)) = (&sp.type_label, &tp.type_label) {
                if st.as_str().unicode_len() > 0 && tt.as_str().unicode_len() > 0
                    && !text_eq(st.as_str(), tt.as_str()) {
                    let mut m = join3("Port type mismatch: «", st.as_str(), "» connected to «");
                    m.append(tt.as_str());
                    m.append("»");
                    return Some(m);
                }
            }
        }
    }
    None
}

/// The kind-specific findings about an edge whose two endpoints exist.
fn validate_kind(edge: &Edge, src: &Node, tgt: &Node) -> (r: Vec<ValidationIssue>)
    ensures
        findings_of(r@) == kind_findings(*edge, *src, *tgt),
{
    let mut issues: Vec<ValidationIssue> = Vec::new();
    match edge.kind {
        EdgeKind::Satisfies => {
            if tgt.kind != NodeKind::Requirement {
                let i = issue(
                    IssueSeverity::Error,
                    "SATISFIES_WRONG_TARGET",
                    join2("«satisfies» target must be a Requirement, got ", tgt.kind.as_str()),
                    Some(tgt.id),
                    Some(edge.id),
                );
                proof { lemma_findings_push(issues@, i); }
                issues.push(i);
            }
            if src.kind != NodeKind::Block {
                let i = issue(
                    IssueSeverity::Warning,
                    "SATISFIES_UNUSUAL_SOURCE",
                    join2("«satisfies» source is usually a Block, got ", src.kind.as_str()),
                    Some(src.id),
                    Some(edge.id),
                );
                proof { lemma_findings_push(issues@, i); }
                issues.push(i);
            }
        },
        EdgeKind::Verifies => {
            if src.kind != NodeKind::TestCase {
                let i = issue(
                    IssueSeverity::Error,
                    "VERIFIES_WRONG_SOURCE",
                    owned("«verifies» source must be a TestCase"),
                    Some(src.id),
                    Some(edge.id),
                );
                proof { lemma_findings_push(issues@, i); }
                issues.push(i);
            }
            if tgt.kind != NodeKind::Requirement {
                let i = issue(
                    IssueSeverity::Error,
                    "VERIFIES_WRONG_TARGET",
                    owned("«verifies» target must be a Requirement"),
                    Some(tgt.id),
                    Some(edge.id),
                );
                proof { lemma_findings_push(issues@, i); }
                issues.push(i);
            }
        },
        EdgeKind::Connects => {
            if !is_connectable(src.kind) || !is_connectable(tgt.kind) {
                let i = issue(
                    IssueSeverity::Error,
                    "CONNECTS_INVALID_ENDPOINT",
                    owned("«connects» endpoints must be Ports or Blocks"),
                    None,
                    Some(edge.id),
                );
                proof { lemma_findings_push(issues@, i); }
                issues.push(i);
            }
            if let Some(m) = port_clash(src, tgt) {
                let i = issue(IssueSeverity::Warning, "PORT_TYPE_MISMATCH", m, None, Some(edge.id));
                proof { lemma_findings_push(issues@, i); }
                issues.push(i);
            }
        },
        EdgeKind::Transition => {
            if src.kind != NodeKind::State || tgt.kind != NodeKind::State {
                let i = issue(
                    IssueSeverity::Error,
                    "TRANSITION_NOT_STATES",
                    owned("«transition» must link two States"),
                    None,
                    Some(edge.id),
                );
                proof { lemma_findings_push(issues@, i); }
                issues.push(i);
            }
        },
        EdgeKind::BindingConnector => {
            if !is_bindable(src.kind) || !is_bindable(tgt.kind) {
                let i = issue(
                    IssueSeverity::Warning,
                    "BINDING_CONNECTOR_UNUSUAL",
                    owned("«bindingConnector» usually links Ports or ConstraintBlocks"),
                    None,
                    Some(edge.id),
                );
                proof { lemma_findings_push(issues@, i); }
                issues.push(i);
            }
        },
        _ => {},
    }
    assert(findings_of(issues@) =~= kind_findings(*edge, *src, *tgt));
    issues
}

/// The findings about one edge: a dangling endpoint alone, or else the
/// rules of its kind.
pub fn validate_edge(edge: &Edge, nodes: &[Node]) -> (r: Vec<ValidationIssue>)
    ensures
        findings_of(r@) == edge_findings(*edge, nodes@),
{
    let source = find(nodes, edge.source_id);
    let target = find(nodes, edge.target_id);
    match (source, target) {
        (None, _) => {
            let i = issue(
                IssueSeverity::Error,
                "EDGE_DANGLING_SOURCE",
                join3("Edge ", edge.kind.as_title(), " has a missing source node"),
                None,
                Some(edge.id),
            );
            let r = vec![i];
            assert(findings_of(r@) =~= edge_findings(*edge, nodes@));
            r
        },
        (_, None) => {
            let i = issue(
                IssueSeverity::Error,
                "EDGE_DANGLING_TARGET",
                join3("Edge ", edge.kind.as_title(), " has a missing target node"),
                None,
                Some(edge.id),
            );
            let r = vec![i];
            assert(findings_of(r@) =~= edge_findings(*edge, nodes@));
            r
        },
        (Some(src), Some(tgt)) => validate_kind(edge, src, tgt),
    }
}

/// Runs every node rule and every edge rule over the graph. Returns no
/// issue when the model is valid.
pub fn validate(nodes: &[Node], edges: &[Edge]) -> (r: Vec<ValidationIssue>)
    ensures
        findings_of(r@) == graph_findings(nodes@, edges@),
{
    let mut issues: Vec<ValidationIssue> = Vec::new();
    let mut i: usize = 0;
    while i < nodes.len()
        invariant
            0 <= i <= nodes@.len(),
            findings_of(issues@) == all_node_findings(nodes@.take(i as int)),
        decreases nodes@.len() - i,
    {
        assert(nodes@.take(i + 1).drop_last() =~= nodes@.take(i as int));
        let mut more = validate_node(&nodes[i]);
        proof { lemma_findings_concat(issues@, more@); }
        issues.append(&mut more);
        i = i + 1;
    }
    assert(nodes@.take(nodes@.len() as int) =~= nodes@);
    let ghost node_part = findings_of(issues@);
    let mut j: usize = 0;
    while j < edges.len()
        invariant
            0 <= j <= edges@.len(),
            node_part == all_node_findings(nodes@),
            findings_of(issues@) == node_part + all_edge_findings(edges@.take(j as int), nodes@),
        decreases edges@.len() - j,
    {
        assert(edges@.take(j + 1).drop_last() =~= edges@.take(j as int));
        let mut more = validate_edge(&edges[j], nodes);
        proof { lemma_findings_concat(issues@, more@); }
        issues.append(&mut more);
        assert(node_part + all_edge_findings(edges@.take(j + 1), nodes@) =~= node_part
            + all_edge_findings(edges@.take(j as int), nodes@) + edge_findings(edges@[j as int], nodes@));
        j = j + 1;
    }
    assert(edges@.take(edges@.len() as int) =~= edges@);
    issues
}

/// Validation is deterministic: two runs on the same nodes and edges report
/// the same findings in the same order.
pub proof fn lemma_validate_deterministic(
    nodes: Seq<Node>,
    edges: Seq<Edge>,
    first: Seq<ValidationIssue>,
    second: Seq<ValidationIssue>,
)
    requires
        findings_of(first) == graph_findings(nodes, edges),
        findings_of(second) == graph_findings(nodes, edges),
    ensures
        findings_of(first) == findings_of(second),
        first.len() == second.len(),
{
    assert(findings_of(first).len() == first.len());
    assert(findings_of(second).len() == second.len());
}

/// The findings that concern the edge `id`, in order.
pub open spec fn about_edge(fs: Seq<Finding>, id: u128) -> Seq<Finding>
    decreases fs.len(),
{
    if fs.len() == 0 {
        Seq::empty()
    } else if fs.last().edge_id == Some(id) {
        about_edge(fs.drop_last(), id).push(fs.last())
    } else {
        about_edge(fs.drop_last(), id)
    }
}

proof fn lemma_about_edge_concat(a: Seq<Finding>, b: Seq<Finding>, id: u128)
    ensures
        about_edge(a + b, id) == about_edge(a, id) + about_edge(b, id),
    decreases b.len(),
{
    if b.len() == 0 {
        assert(a + b =~= a);
        assert(about_edge(a, id) + about_edge(b, id) =~= about_edge(a, id));
    } else {
        lemma_about_edge_concat(a, b.drop_last(), id);
        assert((a + b).drop_last() =~= a + b.drop_last());
        assert((a + b).last() == b.last());
        if b.last().edge_id == Some(id) {
            assert(about_edge(a, id) + about_edge(b.drop_last(), id).push(b.last()) =~= (about_edge(a, id)
                + about_edge(b.drop_last(), id)).push(b.last()));
        }
    }
}

proof fn lemma_about_edge_none(fs: Seq<Finding>, id: u128)
    requires
        forall|i: int| 0 <= i < fs.len() ==> fs[i].edge_id != Some(id),
    ensures
        about_edge(fs, id) == Seq::<Finding>::empty(),
    decreases fs.len(),
{
    if fs.len() > 0 {
        lemma_about_edge_none(fs.drop_last(), id);
    }
}

proof fn lemma_about_edge_all(fs: Seq<Finding>, id: u128)
    requires
        forall|i: int| 0 <= i < fs.len() ==> fs[i].edge_id == Some(id),
    ensures
        about_edge(fs, id) == fs,
    decreases fs.len(),
{
    if fs.len() > 0 {
        lemma_about_edge_all(fs.drop_last(), id);
        assert(fs.drop_last().push(fs.last()) =~= fs);
    }
}

proof fn lemma_node_findings_about_no_edge(nodes: Seq<Node>, id: u128)
    ensures
        about_edge(all_node_findings(nodes), id) == Seq::<Finding>::empty(),
    decreases nodes.len(),
{
    if nodes.len() > 0 {
        lemma_node_findings_about_no_edge(nodes.drop_last(), id);
        let f = node_findings(nodes.last());
        assert forall|i: int| 0 <= i < f.len() implies f[i].edge_id != Some(id) by {
            assert(f[i].edge_id is None);
        }
        lemma_about_edge_none(f, id);
        lemma_about_edge_concat(all_node_findings(nodes.drop_last()), f, id);
    }
}

proof fn lemma_edge_findings_tagged(e: Edge, nodes: Seq<Node>)
    ensures
        forall|i: int| 0 <= i < edge_findings(e, nodes).len() ==> edge_findings(e, nodes)[i].edge_id == Some(e.id),
{
}

proof fn lemma_other_edges_about(edges: Seq<Edge>, nodes: Seq<Node>, id: u128)
    requires
        forall|j: int| 0 <= j < edges.len() ==> edges[j].id != id,
    ensures
        about_edge(all_edge_findings(edges, nodes), id) == Seq::<Finding>::empty(),
    decreases edges.len(),
{
    if edges.len() > 0 {
        lemma_other_edges_about(edges.drop_last(), nodes, id);
        lemma_edge_findings_tagged(edges.last(), nodes);
        lemma_about_edge_none(edge_findings(edges.last(), nodes), id);
        lemma_about_edge_concat(all_edge_findings(edges.drop_last(), nodes), edge_findings(edges.last(), nodes), id);
    }
}

proof fn lemma_one_edge_about(edges: Seq<Edge>, nodes: Seq<Node>, k: int)
    requires
        0 <= k < edges.len(),
        forall|j: int| 0 <= j < edges.len() && j != k ==> edges[j].id != edges[k].id,
    ensures
        about_edge(all_edge_findings(edges, nodes), edges[k].id) == edge_findings(edges[k], nodes),
    decreases edges.len(),
{
    let id = edges[k].id;
    let prefix = edges.drop_last();
    lemma_about_edge_concat(all_edge_findings(prefix, nodes), edge_findings(edges.last(), nodes), id);
    lemma_edge_findings_tagged(edges.last(), nodes);
    if k == edges.len() - 1 {
        lemma_other_edges_about(prefix, nodes, id);
        lemma_about_edge_all(edge_findings(edges.last(), nodes), id);
        assert(Seq::<Finding>::empty() + edge_findings(edges[k], nodes) =~= edge_findings(edges[k], nodes));
    } else {
        lemma_one_edge_about(prefix, nodes, k);
        lemma_about_edge_none(edge_findings(edges.last(), nodes), id);
        assert(edge_findings(edges[k], nodes) + Seq::<Finding>::empty() =~= edge_findings(edges[k], nodes));
    }
}

proof fn lemma_find_node_absent(nodes: Seq<Node>, id: u128)
    requires
        forall|i: int| 0 <= i < nodes.len() ==> nodes[i].id != id,
    ensures
        find_node(nodes, id) is None,
    decreases nodes.len(),
{
    if nodes.len() > 0 {
        assert forall|i: int| 0 <= i < nodes.drop_first().len() implies nodes.drop_first()[i].id != id by {
            assert(nodes.drop_first()[i] == nodes[i + 1]);
        }
        lemma_find_node_absent(nodes.drop_first(), id);
    }
}

/// An edge, with an id no other edge has, whose source matches no node is
/// reported exactly once, as a dangling source, and no rule of its kind
/// runs: that one finding is all the validator says about it.
pub proof fn lemma_dangling_source_reported_alone(nodes: Seq<Node>, edges: Seq<Edge>, k: int)
    requires
        0 <= k < edges.len(),
        forall|j: int| 0 <= j < edges.len() && j != k ==> edges[j].id != edges[k].id,
        forall|i: int| 0 <= i < nodes.len() ==> nodes[i].id != edges[k].source_id,
    ensures
        about_edge(graph_findings(nodes, edges), edges[k].id) == seq![
            edge_finding(
                edges[k],
                IssueSeverity::Error,
                "EDGE_DANGLING_SOURCE"@,
                "Edge "@ + edges[k].kind.title() + " has a missing source node"@,
            ),
        ],
{
    let id = edges[k].id;
    lemma_find_node_absent(nodes, edges[k].source_id);
    lemma_about_edge_concat(all_node_findings(nodes), all_edge_findings(edges, nodes), id);
    lemma_node_findings_about_no_edge(nodes, id);
    lemma_one_edge_about(edges, nodes, k);
    assert(Seq::<Finding>::empty() + edge_findings(edges[k], nodes) =~= edge_findings(edges[k], nodes));
}

} // verus!
