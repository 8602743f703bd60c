//! Export of a project's graph as a Markdown report and as an XMI document
//! with SysML stereotypes.
use vstd::prelude::*;
use crate::bindings::{uuid_text, uuid_text_of};
use crate::kinds::{EdgeKind, NodeKind};
use crate::model::{Edge, Node, NodeData, Project};
use crate::text::{owned, text_or_empty};
use crate::validation::{find, find_node};

verus! {

// ── Text escaping ───────────────────────────────────────────────────────────

/// A character as written inside an XML attribute.
pub open spec fn xml_char(c: char) -> Seq<char> {
    if c == '&' {
        "&amp;"@
    } else if c == '<' {
        "&lt;"@
    } else if c == '>' {
        "&gt;"@
    } else if c == '"' {
        "&quot;"@
    } else if c == '\'' {
        "&apos;"@
    } else {
        seq![c]
    }
}

/// A text as written inside an XML attribute.
pub open spec fn xml_escaped(s: Seq<char>) -> Seq<char>
    decreases s.len(),
{
    if s.len() == 0 {
        Seq::empty()
    } else {
        xml_escaped(s.drop_last()) + xml_char(s.last())
    }
}

/// Escapes the five characters that XML reserves.
pub fn xml_escape(s: &str) -> (r: String)
    ensures
        r@ == xml_escaped(s@),
{
    let n = s.unicode_len();
    let mut out = String::new();
    let mut i: usize = 0;
    while i < n
        invariant
            n == s@.len(),
            0 <= i <= n,
            out@ == xml_escaped(s@.take(i as int)),
        decreases n - i,
    {
        let c = s.get_char(i);
        assert(s@.take(i + 1).drop_last() =~= s@.take(i as int));
        if c == '&' {
            out.append("&amp;");
        } else if c == '<' {
            out.append("&lt;");
        } else if c == '>' {
            out.append("&gt;");
        } else if c == '"' {
            out.append("&quot;");
        } else if c == '\'' {
            out.append("&apos;");
        } else {
            let piece = s.substring_char(i, i + 1);
            assert(piece@ =~= seq![c]);
            out.append(piece);
        }
        i = i + 1;
    }
    assert(s@.take(n as int) =~= s@);
    out
}

/// A text with its hyphens left out.
pub open spec fn without_hyphens(s: Seq<char>) -> Seq<char>
    decreases s.len(),
{
    if s.len() == 0 {
        Seq::empty()
    } else if s.last() == '-' {
        without_hyphens(s.drop_last())
    } else {
        without_hyphens(s.drop_last()).push(s.last())
    }
}

fn strip_hyphens(s: &str) -> (r: String)
    ensures
        r@ == without_hyphens(s@),
{
    let n = s.unicode_len();
    let mut out = String::new();
    let mut i: usize = 0;
    while i < n
        invariant
            n == s@.len(),
            0 <= i <= n,
            out@ == without_hyphens(s@.take(i as int)),
        decreases n - i,
    {
        assert(s@.take(i + 1).drop_last() =~= s@.take(i as int));
        if s.get_char(i) != '-' {
            let piece = s.substring_char(i, i + 1);
            assert(without_hyphens(s@.take(i + 1)) =~= out@ + piece@);
            out.append(piece);
        }
        i = i + 1;
    }
    assert(s@.take(n as int) =~= s@);
    out
}

/// The XMI id of an element: `_` and its identifier in hex without hyphens.
pub open spec fn xmi_id(id: u128) -> Seq<char> {
    "_"@ + without_hyphens(uuid_text_of(id))
}

fn xmi_id_of(id: u128) -> (r: String)
    ensures
        r@ == xmi_id(id),
{
    let mut r = owned("_");
    let hex = strip_hyphens(uuid_text(id).as_str());
    r.append(hex.as_str());
    r
}

// ── UML types ───────────────────────────────────────────────────────────────

/// The UML metaclass of a node kind.
pub open spec fn uml_type(k: NodeKind) -> Seq<char> {
    match k {
        NodeKind::Requirement => "uml:Class"@,
        NodeKind::Block => "uml:Class"@,
        NodeKind::Interface => "uml:Interface"@,
        NodeKind::Port => "uml:Port"@,
        NodeKind::UseCase => "uml:UseCase"@,
        NodeKind::Actor => "uml:Actor"@,
        NodeKind::TestCase => "uml:Operation"@,
        NodeKind::Stakeholder => "uml:Class"@,
        NodeKind::Function => "uml:Activity"@,
        NodeKind::External => "uml:Component"@,
        NodeKind::ValueType => "uml:DataType"@,
        NodeKind::ConstraintBlock => "uml:Class"@,
        NodeKind::State => "uml:State"@,
    }
}

/// The extra attributes of the UML element of a node kind.
pub open spec fn uml_extra(k: NodeKind) -> Seq<char> {
    match k {
        NodeKind::Requirement => " isAbstract=\"false\""@,
        NodeKind::ConstraintBlock => " isAbstract=\"false\""@,
        _ => Seq::empty(),
    }
}

/// The UML metaclass and extra attributes of a node.
pub fn node_uml_type(node: &Node) -> (r: (&'static str, String))
    ensures
        r.0@ == uml_type(node.kind),
        r.1@ == uml_extra(node.kind),
{
    match node.kind {
        NodeKind::Requirement => ("uml:Class", owned(" isAbstract=\"false\"")),
        NodeKind::Block => ("uml:Class", String::new()),
        NodeKind::Interface => ("uml:Interface", String::new()),
        NodeKind::Port => ("uml:Port", String::new()),
        NodeKind::UseCase => ("uml:UseCase", String::new()),
        NodeKind::Actor => ("uml:Actor", String::new()),
        NodeKind::TestCase => ("uml:Operation", String::new()),
        NodeKind::Stakeholder => ("uml:Class", String::new()),
        NodeKind::Function => ("uml:Activity", String::new()),
        NodeKind::External => ("uml:Component", String::new()),
        NodeKind::ValueType => ("uml:DataType", String::new()),
        NodeKind::ConstraintBlock => ("uml:Class", owned(" isAbstract=\"false\"")),
        NodeKind::State => ("uml:State", String::new()),
    }
}

/// The UML relationship of an edge kind.
pub open spec fn relation_type(k: EdgeKind) -> Seq<char> {
    match k {
        EdgeKind::Satisfies => "uml:Abstraction"@,
        EdgeKind::Realizes => "uml:Abstraction"@,
        EdgeKind::Traces => "uml:Abstraction"@,
        EdgeKind::Allocates => "uml:Abstraction"@,
        EdgeKind::Refines => "uml:Abstraction"@,
        EdgeKind::Derives => "uml:Abstraction"@,
        EdgeKind::Verifies => "uml:Dependency"@,
        EdgeKind::Connects => "uml:AssociationClass"@,
        EdgeKind::Composes => "uml:Association"@,
        EdgeKind::Specializes => "uml:Generalization"@,
        EdgeKind::Blocks => "uml:Dependency"@,
        EdgeKind::Transition => "uml:Transition"@,
        EdgeKind::BindingConnector => "uml:Dependency"@,
    }
}

/// The `name` attribute of an edge with a label.
pub open spec fn name_attr(e: Edge) -> Seq<char> {
    if e.label@.len() == 0 {
        Seq::empty()
    } else {
        " name=\""@ + xml_escaped(e.label@) + "\""@
    }
}

/// The extra attributes of the UML relationship of an edge.
pub open spec fn relation_extra(e: Edge) -> Seq<char> {
    if e.kind == EdgeKind::Composes {
        name_attr(e) + " aggregation=\"composite\""@
    } else {
        name_attr(e)
    }
}

/// The UML relationship and extra attributes of an edge.
pub fn edge_uml_type(edge: &Edge) -> (r: (&'static str, String))
    ensures
        r.0@ == relation_type(edge.kind),
        r.1@ == relation_extra(*edge),
{
    let mut name = String::new();
    if edge.label.as_str().unicode_len() != 0 {
        name.append(" name=\"");
        let escaped = xml_escape(edge.label.as_str());
        name.append(escaped.as_str());
        name.append("\"");
    }
    match edge.kind {
        EdgeKind::Satisfies | EdgeKind::Realizes | EdgeKind::Traces | EdgeKind::Allocates
        | EdgeKind::Refines | EdgeKind::Derives => ("uml:Abstraction", name),
        EdgeKind::Verifies => ("uml:Dependency", name),
        EdgeKind::Connects => ("uml:AssociationClass", name),
        EdgeKind::Composes => {
            name.append(" aggregation=\"composite\"");
            ("uml:Association", name)
        },
        EdgeKind::Specializes => ("uml:Generalization", name),
        EdgeKind::Blocks => ("uml:Dependency", name),
        EdgeKind::Transition => ("uml:Transition", name),
        EdgeKind::BindingConnector => ("uml:Dependency", name),
    }
}

// ── XMI ─────────────────────────────────────────────────────────────────────

/// The XML declaration and the opening tag of an XMI document.
pub open spec fn xmi_header() -> Seq<char> {
    "<?xml version=\"1.0\" encoding=\"UTF-8\"?>\n<xmi:XMI xmi:version=\"2.1\"\n  xmlns:xmi=\"http://schema.omg.org/spec/XMI/2.1\"\n  xmlns:uml=\"http://www.eclipse.org/uml2/5.0.0/UML\"\n  xmlns:SysML=\"http://www.eclipse.org/papyrus/2/SysML/1.6\"\n  xmlns:Blocks=\"http://www.eclipse.org/papyrus/2/SysML/1.6/Blocks\"\n  xmlns:Requirements=\"http://www.eclipse.org/papyrus/2/SysML/1.6/Requirements\">\n"@
}

/// The packaged element of a node.
pub open spec fn node_element(n: Node) -> Seq<char> {
    "      <packagedElement xmi:type=\""@ + uml_type(n.kind) + "\" xmi:id=\""@ + xmi_id(n.id)
        + "\" name=\""@ + xml_escaped(n.name@) + "\""@ + uml_extra(n.kind) + "/>\n"@
}

/// The packaged element of an edge.
pub open spec fn edge_element(e: Edge) -> Seq<char> {
    "      <packagedElement xmi:type=\""@ + relation_type(e.kind) + "\" xmi:id=\""@ + xmi_id(e.id)
        + "\" client=\""@ + xmi_id(e.source_id) + "\" supplier=\""@ + xmi_id(e.target_id) + "\""@
        + relation_extra(e) + "/>\n"@
}

/// The text of a requirement node, or nothing.
pub open spec fn node_text(n: Node) -> Seq<char> {
    match n.data {
        NodeData::Requirement(r) => text_or_empty(r.text),
        _ => Seq::empty(),
    }
}

/// The SysML stereotype application of a node, for the kinds that have one.
pub open spec fn stereotype(n: Node) -> Seq<char> {
    let nid = xmi_id(n.id);
    match n.kind {
        NodeKind::Block => "  <Blocks:Block xmi:id=\""@ + nid + "_st\" base_Class=\""@ + nid + "\"/>\n"@,
        NodeKind::Requirement => "  <Requirements:Requirement xmi:id=\""@ + nid + "_st\" base_Class=\""@ + nid
            + "\" text=\""@ + xml_escaped(node_text(n)) + "\"/>\n"@,
        NodeKind::ValueType => "  <Blocks:ValueType xmi:id=\""@ + nid + "_st\" base_DataType=\""@ + nid + "\"/>\n"@,
        NodeKind::ConstraintBlock => "  <Blocks:ConstraintBlock xmi:id=\""@ + nid + "_st\" base_Class=\""@ + nid
            + "\"/>\n"@,
        _ => Seq::empty(),
    }
}

/// The packaged elements of the nodes, in order.
pub open spec fn node_elements(nodes: Seq<Node>) -> Seq<char>
    decreases nodes.len(),
{
    if nodes.len() == 0 {
        Seq::empty()
    } else {
        node_elements(nodes.drop_last()) + node_element(nodes.last())
    }
}

/// The packaged elements of the edges, in order.
pub open spec fn edge_elements(edges: Seq<Edge>) -> Seq<char>
    decreases edges.len(),
{
    if edges.len() == 0 {
        Seq::empty()
    } else {
        edge_elements(edges.drop_last()) + edge_element(edges.last())
    }
}

/// The stereotype applications of the nodes, in order.
pub open spec fn stereotypes(nodes: Seq<Node>) -> Seq<char>
    decreases nodes.len(),
{
    if nodes.len() == 0 {
        Seq::empty()
    } else {
        stereotypes(nodes.drop_last()) + stereotype(nodes.last())
    }
}

/// The XMI document of a project.
pub open spec fn xmi_of(p: Project, nodes: Seq<Node>, edges: Seq<Edge>) -> Seq<char> {
    let mid = xmi_id(p.id);
    let name = xml_escaped(p.name@);
    xmi_header() + "  <uml:Model xmi:id=\""@ + mid + "\" name=\""@ + name + "\">\n"@
        + "    <packagedElement xmi:type=\"uml:Package\" xmi:id=\""@ + mid + "_pkg\" name=\""@ + name + "\">\n"@
        + node_elements(nodes) + edge_elements(edges)
        + "    </packagedElement>\n  </uml:Model>\n"@ + stereotypes(nodes)
        + "</xmi:XMI>\n"@
}

fn write_node_element(out: &mut String, node: &Node)
    ensures
        final(out)@ == old(out)@ + node_element(*node),
{
    let (uml, extra) = node_uml_type(node);
    let nid = xmi_id_of(node.id);
    let name = xml_escape(node.name.as_str());
    let ghost start = out@;
    out.append("      <packagedElement xmi:type=\"");
    out.append(uml);
    out.append("\" xmi:id=\"");
    out.append(nid.as_str());
    out.append("\" name=\"");
    out.append(name.as_str());
    out.append("\"");
    out.append(extra.as_str());
    out.append("/>\n");
    assert(out@ =~= start + node_element(*node));
}

fn write_edge_element(out: &mut String, edge: &Edge)
    ensures
        final(out)@ == old(out)@ + edge_element(*edge),
{
    let (rel, extra) = edge_uml_type(edge);
    let eid = xmi_id_of(edge.id);
    let src = xmi_id_of(edge.source_id);
    let tgt = xmi_id_of(edge.target_id);
    let ghost start = out@;
    out.append("      <packagedElement xmi:type=\"");
    out.append(rel);
    out.append("\" xmi:id=\"");
    out.append(eid.as_str());
    out.append("\" client=\"");
    out.append(src.as_str());
    out.append("\" supplier=\"");
    out.append(tgt.as_str());
    out.append("\"");
    out.append(extra.as_str());
    out.append("/>\n");
    assert(out@ =~= start + edge_element(*edge));
}

fn write_stereotype(out: &mut String, node: &Node)
    ensures
        final(out)@ == old(out)@ + stereotype(*node),
{
    let ghost start = out@;
    match node.kind {
        NodeKind::Block => {
            let nid = xmi_id_of(node.id);
            out.append("  <Blocks:Block xmi:id=\"");
            out.append(nid.as_str());
            out.append("_st\" base_Class=\"");
            out.append(nid.as_str());
            out.append("\"/>\n");
        },
        NodeKind::Requirement => {
            let nid = xmi_id_of(node.id);
            let text = match &node.data {
                NodeData::Requirement(r) => match &r.text {
                    Some(t) => xml_escape(t.as_str()),
                    None => String::new(),
                },
                _ => String::new(),
            };
            proof {
                reveal_with_fuel(xml_escaped, 1);
            }
            out.append("  <Requirements:Requirement xmi:id=\"");
            out.append(nid.as_str());
            out.append("_st\" base_Class=\"");
            out.append(nid.as_str());
            out.append("\" text=\"");
            out.append(text.as_str());
            out.append("\"/>\n");
        },
        NodeKind::ValueType => {
            let nid = xmi_id_of(node.id);
            out.append("  <Blocks:ValueType xmi:id=\"");
            out.append(nid.as_str());
            out.append("_st\" base_DataType=\"");
            out.append(nid.as_str());
            out.append("\"/>\n");
        },
        NodeKind::ConstraintBlock => {
            let nid = xmi_id_of(node.id);
            out.append("  <Blocks:ConstraintBlock xmi:id=\"");
            out.append(nid.as_str());
            out.append("_st\" base_Class=\"");
            out.append(nid.as_str());
            out.append("\"/>\n");
        },
        _ => {},
    }
    assert(out@ =~= start + stereotype(*node));
}

/// Writes a project's graph as an XMI 2.1 document with SysML 1.6
/// stereotypes: every node as a packaged element, every edge as a UML
/// relationship, then the stereotype of each block, requirement, value type
/// and constraint block.
pub fn to_xmi(project: &Project, nodes: &[Node], edges: &[Edge]) -> (r: String)
    ensures
        r@ == xmi_of(*project, nodes@, edges@),
{
    let mid = xmi_id_of(project.id);
    let name = xml_escape(project.name.as_str());
    let mut out = owned("<?xml version=\"1.0\" encoding=\"UTF-8\"?>\n<xmi:XMI xmi:version=\"2.1\"\n  xmlns:xmi=\"http://schema.omg.org/spec/XMI/2.1\"\n  xmlns:uml=\"http://www.eclipse.org/uml2/5.0.0/UML\"\n  xmlns:SysML=\"http://www.eclipse.org/papyrus/2/SysML/1.6\"\n  xmlns:Blocks=\"http://www.eclipse.org/papyrus/2/SysML/1.6/Blocks\"\n  xmlns:Requirements=\"http://www.eclipse.org/papyrus/2/SysML/1.6/Requirements\">\n");
    out.append("  <uml:Model xmi:id=\"");
    out.append(mid.as_str());
    out.append("\" name=\"");
    out.append(name.as_str());
    out.append("\">\n");
    out.append("    <packagedElement xmi:type=\"uml:Package\" xmi:id=\"");
    out.append(mid.as_str());
    out.append("_pkg\" name=\"");
    out.append(name.as_str());
    out.append("\">\n");
    let ghost head = out@;
    let mut i: usize = 0;
    while i < nodes.len()
        invariant
            0 <= i <= nodes@.len(),
            out@ == head + node_elements(nodes@.take(i as int)),
        decreases nodes@.len() - i,
    {
        assert(nodes@.take(i + 1).drop_last() =~= nodes@.take(i as int));
        write_node_element(&mut out, &nodes[i]);
        assert(out@ =~= head + node_elements(nodes@.take(i + 1)));
        i = i + 1;
    }
    assert(nodes@.take(nodes@.len() as int) =~= nodes@);
    let ghost with_nodes = out@;
    let mut j: usize = 0;
    while j < edges.len()
        invariant
            0 <= j <= edges@.len(),
            out@ == with_nodes + edge_elements(edges@.take(j as int)),
        decreases edges@.len() - j,
    {
        assert(edges@.take(j + 1).drop_last() =~= edges@.take(j as int));
        write_edge_element(&mut out, &edges[j]);
        assert(out@ =~= with_nodes + edge_elements(edges@.take(j + 1)));
        j = j + 1;
    }
    assert(edges@.take(edges@.len() as int) =~= edges@);
    out.append("    </packagedElement>\n  </uml:Model>\n");
    let ghost body = out@;
    let mut k: usize = 0;
    while k < nodes.len()
        invariant
            0 <= k <= nodes@.len(),
            out@ == body + stereotypes(nodes@.take(k as int)),
        decreases nodes@.len() - k,
    {
        assert(nodes@.take(k + 1).drop_last() =~= nodes@.take(k as int));
        write_stereotype(&mut out, &nodes[k]);
        assert(out@ =~= body + stereotypes(nodes@.take(k + 1)));
        k = k + 1;
    }
    assert(nodes@.take(nodes@.len() as int) =~= nodes@);
    out.append("</xmi:XMI>\n");
    assert(out@ =~= xmi_of(*project, nodes@, edges@));
    out
}

// ── Markdown ────────────────────────────────────────────────────────────────

/// A text with each `|` escaped for a Markdown table cell.
pub open spec fn pipes_escaped(s: Seq<char>) -> Seq<char>
    decreases s.len(),
{
    if s.len() == 0 {
        Seq::empty()
    } else if s.last() == '|' {
        pipes_escaped(s.drop_last()) + "\\|"@
    } else {
        pipes_escaped(s.drop_last()).push(s.last())
    }
}

fn escape_pipes(s: &str) -> (r: String)
    ensures
        r@ == pipes_escaped(s@),
{
    let n = s.unicode_len();
    let mut out = String::new();
    let mut i: usize = 0;
    while i < n
        invariant
            n == s@.len(),
            0 <= i <= n,
            out@ == pipes_escaped(s@.take(i as int)),
        decreases n - i,
    {
        assert(s@.take(i + 1).drop_last() =~= s@.take(i as int));
        if s.get_char(i) == '|' {
            out.append("\\|");
        } else {
            let piece = s.substring_char(i, i + 1);
            assert(pipes_escaped(s@.take(i + 1)) =~= out@ + piece@);
            out.append(piece);
        }
        i = i + 1;
    }
    assert(s@.take(n as int) =~= s@);
    out
}

/// The row of the requirements table for a node, if it is a requirement.
pub open spec fn requirement_row(n: Node) -> Seq<char> {
    if n.kind == NodeKind::Requirement {
        match n.data {
            NodeData::Requirement(r) => "| "@ + match r.req_id {
                Some(x) => x@,
                None => "-"@,
            } + " | "@ + n.name@ + " | "@ + pipes_escaped(text_or_empty(r.text)) + " | "@
                + r.priority.title() + " | "@ + r.status.title() + " | "@ + match r.verification_method {
                Some(v) => v.title(),
                None => "-"@,
            } + " |\n"@,
            _ => Seq::empty(),
        }
    } else {
        Seq::empty()
    }
}

/// The rows of the requirements table, in node order.
pub open spec fn requirement_rows(nodes: Seq<Node>) -> Seq<char>
    decreases nodes.len(),
{
    if nodes.len() == 0 {
        Seq::empty()
    } else {
        requirement_rows(nodes.drop_last()) + requirement_row(nodes.last())
    }
}

/// The name of the first node with the given id, or `?`.
pub open spec fn name_or_unknown(nodes: Seq<Node>, id: u128) -> Seq<char> {
    match find_node(nodes, id) {
        Some(n) => n.name@,
        None => "?"@,
    }
}

/// The row of the traceability table for an edge.
pub open spec fn trace_row(e: Edge, nodes: Seq<Node>) -> Seq<char> {
    "| «"@ + e.kind.name() + "» | "@ + name_or_unknown(nodes, e.source_id) + " | "@
        + name_or_unknown(nodes, e.target_id) + " |\n"@
}

/// The rows of the traceability table, in edge order.
pub open spec fn trace_rows(edges: Seq<Edge>, nodes: Seq<Node>) -> Seq<char>
    decreases edges.len(),
{
    if edges.len() == 0 {
        Seq::empty()
    } else {
        trace_rows(edges.drop_last(), nodes) + trace_row(edges.last(), nodes)
    }
}

/// Whether any node is a requirement.
pub open spec fn any_requirement(nodes: Seq<Node>) -> bool {
    exists|i: int| 0 <= i < nodes.len() && nodes[i].kind == NodeKind::Requirement
}

/// The Markdown report of a project.
pub open spec fn markdown_of(p: Project, nodes: Seq<Node>, edges: Seq<Edge>) -> Seq<char> {
    "# "@ + p.name@ + "\n\n"@ + (if p.description@.len() == 0 {
        Seq::empty()
    } else {
        p.description@ + "\n\n"@
    }) + (if any_requirement(nodes) {
        "## Requirements\n\n| ID | Name | Text | Priority | Status | Verification |\n|---|---|---|---|---|---|\n"@
            + requirement_rows(nodes) + "\n"@
    } else {
        Seq::empty()
    }) + (if edges.len() > 0 {
        "## Traceability\n\n| Relationship | Source | Target |\n|---|---|---|\n"@ + trace_rows(edges, nodes)
            + "\n"@
    } else {
        Seq::empty()
    })
}

fn append_row(out: &mut String, cells: &[&str; 6])
    ensures
        final(out)@ == old(out)@ + "| "@ + cells[0]@ + " | "@ + cells[1]@ + " | "@ + cells[2]@ + " | "@
            + cells[3]@ + " | "@ + cells[4]@ + " | "@ + cells[5]@ + " |\n"@,
{
    let ghost start = out@;
    out.append("| ");
    out.append(cells[0]);
    out.append(" | ");
    out.append(cells[1]);
    out.append(" | ");
    out.append(cells[2]);
    out.append(" | ");
    out.append(cells[3]);
    out.append(" | ");
    out.append(cells[4]);
    out.append(" | ");
    out.append(cells[5]);
    out.append(" |\n");
    assert(out@ =~= start + "| "@ + cells[0]@ + " | "@ + cells[1]@ + " | "@ + cells[2]@ + " | "@
        + cells[3]@ + " | "@ + cells[4]@ + " | "@ + cells[5]@ + " |\n"@);
}

#[verifier::rlimit(40)]
fn write_requirement_row(out: &mut String, node: &Node)
    ensures
        final(out)@ == old(out)@ + requirement_row(*node),
{
    if node.kind != NodeKind::Requirement {
        assert(old(out)@ + requirement_row(*node) =~= old(out)@);
        return;
    }
    match &node.data {
        NodeData::Requirement(r) => {
            let id: &str = match &r.req_id {
                Some(x) => x.as_str(),
                None => "-",
            };
            let empty = String::new();
            let text = escape_pipes(match &r.text {
                Some(t) => t.as_str(),
                None => empty.as_str(),
            });
            let method: &str = match &r.verification_method {
                Some(v) => v.as_title(),
                None => "-",
            };
            let cells = [id, node.name.as_str(), text.as_str(), r.priority.as_title(), r.status.as_title(), method];
            append_row(out, &cells);
        },
        _ => {
            assert(old(out)@ + requirement_row(*node) =~= old(out)@);
        },
    }
}

fn write_trace_row(out: &mut String, edge: &Edge, nodes: &[Node])
    ensures
        final(out)@ == old(out)@ + trace_row(*edge, nodes@),
{
    let ghost start = out@;
    let src: &str = match find(nodes, edge.source_id) {
        Some(n) => n.name.as_str(),
        None => "?",
    };
    let tgt: &str = match find(nodes, edge.target_id) {
        Some(n) => n.name.as_str(),
        None => "?",
    };
    out.append("| «");
    out.append(edge.kind.as_str());
    out.append("» | ");
    out.append(src);
    out.append(" | ");
    out.append(tgt);
    out.append(" |\n");
    assert(out@ =~= start + trace_row(*edge, nodes@));
}

/// Writes a project's graph as a Markdown report: a title, the
/// description, a table of the requirements and a table of the edges.
pub fn to_markdown(project: &Project, nodes: &[Node], edges: &[Edge]) -> (r: String)
    ensures
        r@ == markdown_of(*project, nodes@, edges@),
{
    let mut out = owned("# ");
    out.append(project.name.as_str());
    out.append("\n\n");
    if project.description.as_str().unicode_len() != 0 {
        out.append(project.description.as_str());
        out.append("\n\n");
    }
    let ghost head = out@;
    let mut has_requirement = false;
    let mut i: usize = 0;
    while i < nodes.len()
        invariant
            0 <= i <= nodes@.len(),
            has_requirement == exists|j: int| 0 <= j < i && nodes@[j].kind == NodeKind::Requirement,
        decreases nodes@.len() - i,
    {
        if nodes[i].kind == NodeKind::Requirement {
            has_requirement = true;
        }
        i = i + 1;
    }
    if has_requirement {
        out.append("## Requirements\n\n| ID | Name | Text | Priority | Status | Verification |\n|---|---|---|---|---|---|\n");
        let ghost table = out@;
        let mut k: usize = 0;
        while k < nodes.len()
            invariant
                0 <= k <= nodes@.len(),
                out@ == table + requirement_rows(nodes@.take(k as int)),
            decreases nodes@.len() - k,
        {
            assert(nodes@.take(k + 1).drop_last() =~= nodes@.take(k as int));
            write_requirement_row(&mut out, &nodes[k]);
            assert(out@ =~= table + requirement_rows(nodes@.take(k + 1)));
            k = k + 1;
        }
        assert(nodes@.take(nodes@.len() as int) =~= nodes@);
        out.append("\n");
    }
    let ghost middle = out@;
    if edges.len() > 0 {
        out.append("## Traceability\n\n| Relationship | Source | Target |\n|---|---|---|\n");
        let ghost table = out@;
        let mut j: usize = 0;
        while j < edges.len()
            invariant
                0 <= j <= edges@.len(),
                out@ == table + trace_rows(edges@.take(j as int), nodes@),
            decreases edges@.len() - j,
        {
            assert(edges@.take(j + 1).drop_last() =~= edges@.take(j as int));
            write_trace_row(&mut out, &edges[j], nodes);
            assert(out@ =~= table + trace_rows(edges@.take(j + 1), nodes@));
            j = j + 1;
        }
        assert(edges@.take(edges@.len() as int) =~= edges@);
        out.append("\n");
    }
    assert(out@ =~= markdown_of(*project, nodes@, edges@));
    out
}

} // verus!
