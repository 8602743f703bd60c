//! The grouping step of diagram layout: nodes are gathered into one compound
//! group per kind, each with a label and a preferred direction.
use vstd::prelude::*;
use crate::bindings::{uppercase_char, uppercase_of};
use crate::text::{owned, text_eq};

verus! {

/// The phases of the layout pipeline.
#[derive(Clone, Copy, Debug, PartialEq, Eq, Structural)]
pub enum LayoutPhase {
    /// Collect nodes and edges from the model.
    Build,
    /// Group nodes into compound clusters.
    Group,
    /// Run the layered layout algorithm.
    Elk,
    /// Apply positions and persist them.
    Finalise,
}

/// Progress of the layout pipeline, for the user interface.
#[derive(Clone, Debug)]
pub struct LayoutPhaseEvent {
    pub diagram_id: u128,
    pub phase: LayoutPhase,
    /// Human-readable status message.
    pub message: String,
}

impl LayoutPhaseEvent {
    pub fn new(diagram_id: u128, phase: LayoutPhase, message: String) -> (r: LayoutPhaseEvent)
        ensures
            r.diagram_id == diagram_id,
            r.phase == phase,
            r.message == message,
    {
        LayoutPhaseEvent { diagram_id, phase, message }
    }
}

/// The direction in which the members of a group are laid out.
#[derive(Clone, Copy, Debug, PartialEq, Eq, Structural)]
pub enum GroupDirection {
    Down,
    Right,
}

impl GroupDirection {
    /// The layout engine's name for the direction.
    pub fn as_elk_str(self) -> (r: &'static str)
        ensures
            r@ == (match self {
                GroupDirection::Down => "DOWN"@,
                GroupDirection::Right => "RIGHT"@,
            }),
    {
        match self {
            GroupDirection::Down => "DOWN",
            GroupDirection::Right => "RIGHT",
        }
    }
}

/// An edge of the layout engine's input graph.
#[derive(Clone, Debug)]
pub struct ElkEdge {
    pub id: String,
    pub sources: Vec<String>,
    pub targets: Vec<String>,
}

/// A group of nodes of one kind, laid out as one compound node.
#[derive(Clone, Debug)]
pub struct NodeGroup {
    /// `group-` followed by the kind, stable across runs.
    pub id: String,
    /// Label shown on the group's boundary.
    pub label: String,
    pub member_ids: Vec<u128>,
    pub direction: GroupDirection,
}

/// The label of the group of a kind: a plural name for the common kinds,
/// else the kind with its first character in upper case.
pub open spec fn kind_label(kind: Seq<char>) -> Seq<char> {
    if kind == "block"@ {
        "Blocks"@
    } else if kind == "requirement"@ {
        "Requirements"@
    } else if kind == "interface"@ {
        "Interfaces"@
    } else if kind == "port"@ {
        "Ports"@
    } else if kind == "actor"@ {
        "Actors"@
    } else if kind == "use_case"@ {
        "Use Cases"@
    } else if kind == "state"@ {
        "States"@
    } else if kind == "action"@ {
        "Actions"@
    } else if kind.len() == 0 {
        Seq::empty()
    } else {
        uppercase_of(kind[0]) + kind.drop_first()
    }
}

/// The preferred direction of the group of a kind: sideways for states and
/// actions, downwards for the rest.
pub open spec fn kind_direction(kind: Seq<char>) -> GroupDirection {
    if kind == "state"@ || kind == "action"@ {
        GroupDirection::Right
    } else {
        GroupDirection::Down
    }
}

/// The label of the group of a kind.
pub fn kind_display_label(kind: &str) -> (r: String)
    ensures
        r@ == kind_label(kind@),
{
    if text_eq(kind, "block") {
        owned("Blocks")
    } else if text_eq(kind, "requirement") {
        owned("Requirements")
    } else if text_eq(kind, "interface") {
        owned("Interfaces")
    } else if text_eq(kind, "port") {
        owned("Ports")
    } else if text_eq(kind, "actor") {
        owned("Actors")
    } else if text_eq(kind, "use_case") {
        owned("Use Cases")
    } else if text_eq(kind, "state") {
        owned("States")
    } else if text_eq(kind, "action") {
        owned("Actions")
    } else {
        let n = kind.unicode_len();
        if n == 0 {
            String::new()
        } else {
            let mut r = uppercase_char(kind.get_char(0));
            r.append(kind.substring_char(1, n));
            assert(kind@.subrange(1, n as int) =~= kind@.drop_first());
            r
        }
    }
}

/// The preferred direction of the group of a kind.
pub fn kind_preferred_direction(kind: &str) -> (r: GroupDirection)
    ensures
        r == kind_direction(kind@),
{
    if text_eq(kind, "state") || text_eq(kind, "action") {
        GroupDirection::Right
    } else {
        GroupDirection::Down
    }
}

/// The distinct kinds of the nodes, in order of first appearance.
pub open spec fn kinds_in_order(nodes: Seq<(u128, String)>) -> Seq<Seq<char>>
    decreases nodes.len(),
{
    if nodes.len() == 0 {
        Seq::empty()
    } else {
        let before = kinds_in_order(nodes.drop_last());
        let k = nodes.last().1@;
        if before.contains(k) {
            before
        } else {
            before.push(k)
        }
    }
}

/// The ids of the nodes of a kind, in node order.
pub open spec fn members_of(nodes: Seq<(u128, String)>, kind: Seq<char>) -> Seq<u128>
    decreases nodes.len(),
{
    if nodes.len() == 0 {
        Seq::empty()
    } else {
        let before = members_of(nodes.drop_last(), kind);
        if nodes.last().1@ == kind {
            before.push(nodes.last().0)
        } else {
            before
        }
    }
}

/// Gathers the nodes, given as id and kind name, into one group per kind, in
/// order of first appearance of each kind.
pub fn group_by_kind(nodes: &[(u128, String)]) -> (r: Vec<NodeGroup>)
    ensures
        r@.len() == kinds_in_order(nodes@).len(),
        forall|j: int|
            0 <= j < r@.len() ==> {
                let k = #[trigger] kinds_in_order(nodes@)[j];
                &&& r@[j].id@ == "group-"@ + k
                &&& r@[j].label@ == kind_label(k)
                &&& r@[j].member_ids@ == members_of(nodes@, k)
                &&& r@[j].direction == kind_direction(k)
            },
{
    let mut kinds: Vec<String> = Vec::new();
    let mut members: Vec<Vec<u128>> = Vec::new();
    let mut i: usize = 0;
    while i < nodes.len()
        invariant
            0 <= i <= nodes@.len(),
            kinds@.len() == members@.len(),
            kinds@.len() == kinds_in_order(nodes@.take(i as int)).len(),
            forall|j: int|
                0 <= j < kinds@.len() ==> #[trigger] kinds@[j]@ == kinds_in_order(nodes@.take(i as int))[j],
            forall|j: int|
                0 <= j < kinds@.len() ==> #[trigger] members@[j]@ == members_of(nodes@.take(i as int), kinds@[j]@),
        decreases nodes@.len() - i,
    {
        let ghost prefix = nodes@.take(i as int);
        let ghost next = nodes@.take(i + 1);
        assert(next.drop_last() =~= prefix);
        let (id, kind) = (nodes[i].0, &nodes[i].1);
        let mut found: usize = kinds.len();
        let mut j: usize = 0;
        while j < kinds.len()
            invariant
                0 <= j <= kinds@.len(),
                found <= kinds@.len(),
                found == kinds@.len() ==> forall|t: int| 0 <= t < j ==> kinds@[t]@ != kind@,
                found < kinds@.len() ==> kinds@[found as int]@ == kind@,
            decreases kinds@.len() - j,
        {
            if found == kinds.len() && text_eq(kinds[j].as_str(), kind.as_str()) {
                found = j;
            }
            j = j + 1;
        }
        proof {
            let ks = kinds_in_order(prefix);
            if found == kinds@.len() {
                assert(!ks.contains(kind@)) by {
                    if ks.contains(kind@) {
                        let t = choose|t: int| 0 <= t < ks.len() && ks[t] == kind@;
                        assert(kinds@[t]@ == ks[t]);
                    }
                }
            } else {
                assert(ks.contains(kind@)) by {
                    assert(ks[found as int] == kind@);
                }
            }
        }
        if found == kinds.len() {
            kinds.push(kind.clone());
            let mut v: Vec<u128> = Vec::new();
            v.push(id);
            members.push(v);
            proof {
                assert forall|j: int| 0 <= j < kinds@.len() implies #[trigger] members@[j]@ == members_of(next, kinds@[j]@) by {
                    if j == kinds@.len() - 1 {
                        assert(members_of(prefix, kind@) =~= Seq::<u128>::empty()) by {
                            lemma_no_members(prefix, kind@);
                        }
                    }
                }
            }
        } else {
            let mut v = copy_ids(&members[found]);
            v.push(id);
            members.set(found, v);
            proof {
                assert forall|j: int| 0 <= j < kinds@.len() implies #[trigger] members@[j]@ == members_of(next, kinds@[j]@) by {
                    if j != found {
                        assert(kinds@[j]@ != kind@) by {
                            lemma_kinds_distinct(prefix, j, found as int);
                        }
                    }
                }
            }
        }
        i = i + 1;
    }
    assert(nodes@.take(nodes@.len() as int) =~= nodes@);
    let mut groups: Vec<NodeGroup> = Vec::new();
    let mut g: usize = 0;
    while g < kinds.len()
        invariant
            0 <= g <= kinds@.len(),
            kinds@.len() == members@.len(),
            groups@.len() == g,
            kinds@.len() == kinds_in_order(nodes@).len(),
            forall|j: int| 0 <= j < kinds@.len() ==> #[trigger] kinds@[j]@ == kinds_in_order(nodes@)[j],
            forall|j: int| 0 <= j < kinds@.len() ==> #[trigger] members@[j]@ == members_of(nodes@, kinds@[j]@),
            forall|j: int|
                0 <= j < g ==> {
                    let k = #[trigger] kinds_in_order(nodes@)[j];
                    &&& groups@[j].id@ == "group-"@ + k
                    &&& groups@[j].label@ == kind_label(k)
                    &&& groups@[j].member_ids@ == members_of(nodes@, k)
                    &&& groups@[j].direction == kind_direction(k)
                },
        decreases kinds@.len() - g,
    {
        let kind = kinds[g].as_str();
        let mut id = owned("group-");
        id.append(kind);
        let ids = copy_ids(&members[g]);
        groups.push(NodeGroup {
            id,
            label: kind_display_label(kind),
            member_ids: ids,
            direction: kind_preferred_direction(kind),
        });
        assert(kinds_in_order(nodes@)[g as int] == kinds@[g as int]@);
        g = g + 1;
    }
    groups
}

/// A copy of a list of ids.
fn copy_ids(v: &Vec<u128>) -> (r: Vec<u128>)
    ensures
        r@ == v@,
{
    let mut r: Vec<u128> = Vec::new();
    let mut i: usize = 0;
    while i < v.len()
        invariant
            0 <= i <= v@.len(),
            r@ == v@.take(i as int),
        decreases v@.len() - i,
    {
        r.push(v[i]);
        assert(r@ =~= v@.take(i + 1));
        i = i + 1;
    }
    assert(v@.take(v@.len() as int) =~= v@);
    r
}

/// A kind that occurs in no node has no members.
proof fn lemma_no_members(nodes: Seq<(u128, String)>, kind: Seq<char>)
    requires
        !kinds_in_order(nodes).contains(kind),
    ensures
        members_of(nodes, kind) == Seq::<u128>::empty(),
    decreases nodes.len(),
{
    if nodes.len() > 0 {
        let before = kinds_in_order(nodes.drop_last());
        if before.contains(kind) {
            let t = choose|t: int| 0 <= t < before.len() && before[t] == kind;
            assert(kinds_in_order(nodes)[t] == kind);
        }
        if nodes.last().1@ == kind {
            assert(kinds_in_order(nodes)[before.len() as int] == kind);
        }
        lemma_no_members(nodes.drop_last(), kind);
    }
}

/// The kinds in order of first appearance are distinct.
proof fn lemma_kinds_distinct(nodes: Seq<(u128, String)>, a: int, b: int)
    requires
        0 <= a < kinds_in_order(nodes).len(),
        0 <= b < kinds_in_order(nodes).len(),
        a != b,
    ensures
        kinds_in_order(nodes)[a] != kinds_in_order(nodes)[b],
    decreases nodes.len(),
{
    if nodes.len() > 0 {
        let before = kinds_in_order(nodes.drop_last());
        if a < before.len() && b < before.len() {
            lemma_kinds_distinct(nodes.drop_last(), a, b);
        } else if a >= before.len() {
            assert(!before.contains(kinds_in_order(nodes)[a]));
            assert(before[b] == kinds_in_order(nodes)[b]);
        } else {
            assert(!before.contains(kinds_in_order(nodes)[b]));
            assert(before[a] == kinds_in_order(nodes)[a]);
        }
    }
}

} // verus!
