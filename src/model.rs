//! Nodes and edges of the artifact graph, with their kind-specific payloads.
//!
//! Identifiers are 128-bit integers (the value of a UUID) and timestamps are
//! milliseconds since the Unix epoch.
use vstd::prelude::*;
use crate::kinds::{
    EdgeKind, NodeKind, PortDirection, RequirementPriority, RequirementStatus, TestStatus,
    UseCaseLevel, VerificationMethod,
};

verus! {

/// A value of the open metadata map of a node or an edge.
#[derive(Clone, Debug)]
pub enum MetaValue {
    /// A JSON string.
    Text(String),
    /// A JSON boolean.
    Flag(bool),
    /// Any other JSON value, kept as its JSON text.
    Json(String),
}

/// One key of the open metadata map with its value.
#[derive(Clone, Debug)]
pub struct MetaEntry {
    pub key: String,
    pub value: MetaValue,
}

/// The value stored under `key`: the first entry that has that key.
pub open spec fn meta_lookup(meta: Seq<MetaEntry>, key: Seq<char>) -> Option<MetaValue>
    decreases meta.len(),
{
    if meta.len() == 0 {
        None
    } else if meta[0].key@ == key {
        Some(meta[0].value)
    } else {
        meta_lookup(meta.drop_first(), key)
    }
}

/// Payload of a requirement.
#[derive(Clone, Debug)]
pub struct RequirementData {
    /// Human-readable identifier, such as "REQ-001".
    pub req_id: Option<String>,
    pub text: Option<String>,
    pub rationale: Option<String>,
    pub priority: RequirementPriority,
    pub status: RequirementStatus,
    pub source: Option<String>,
    /// Subsystem allocation tags.
    pub allocations: Option<Vec<String>>,
    pub verification_method: Option<VerificationMethod>,
}

/// Payload of a block.
#[derive(Clone, Debug)]
pub struct BlockData {
    pub is_abstract: bool,
    pub multiplicity: Option<String>,
    /// Simulation parameters, kept as their JSON text.
    pub sim_params: Option<String>,
    pub sim_script: Option<String>,
}

/// Payload of a port.
#[derive(Clone, Debug)]
pub struct PortData {
    pub direction: PortDirection,
    /// Identifier of the type block (a soft reference).
    pub type_ref: Option<u128>,
    /// Human-readable type name, such as "Voltage".
    pub type_label: Option<String>,
    pub multiplicity: Option<String>,
}

/// Payload of a use case.
#[derive(Clone, Copy, Debug, PartialEq, Eq, Structural)]
pub struct UseCaseData {
    pub level: UseCaseLevel,
}

/// Payload of a test case.
#[derive(Clone, Debug)]
pub struct TestCaseData {
    pub procedure: Option<String>,
    pub expected: Option<String>,
    pub status: TestStatus,
}

/// Payload of a value type: a primitive with unit and constraint.
#[derive(Clone, Debug)]
pub struct ValueTypeData {
    pub base_type: Option<String>,
    pub unit: Option<String>,
    pub constraint: Option<String>,
}

/// Payload of a constraint block.
#[derive(Clone, Debug)]
pub struct ConstraintBlockData {
    pub expression: Option<String>,
    pub parameters: Option<Vec<String>>,
}

/// Payload of a state of a state machine.
#[derive(Clone, Debug)]
pub struct StateData {
    pub pseudo_kind: Option<String>,
    pub entry_action: Option<String>,
    pub exit_action: Option<String>,
    pub do_activity: Option<String>,
}

/// Kind-specific payload of a node.
#[derive(Clone, Debug)]
pub enum NodeData {
    Requirement(RequirementData),
    Block(BlockData),
    Interface,
    Port(PortData),
    UseCase(UseCaseData),
    Actor,
    TestCase(TestCaseData),
    Stakeholder,
    Function,
    External,
    ValueType(ValueTypeData),
    ConstraintBlock(ConstraintBlockData),
    State(StateData),
}

/// A typed artifact of a project.
#[derive(Clone, Debug)]
pub struct Node {
    pub id: u128,
    pub project_id: u128,
    pub kind: NodeKind,
    pub name: String,
    pub description: String,
    pub data: NodeData,
    /// Open metadata for annotations that nothing queries: a map, so its
    /// keys are unique (`meta_keys_unique`).
    pub meta: Vec<MetaEntry>,
    pub created_at: i64,
    pub modified_at: i64,
}

/// A typed traceability relation between two nodes. The endpoints are weak
/// references: nothing guarantees that a node with either id exists.
#[derive(Clone, Debug)]
pub struct Edge {
    pub id: u128,
    pub project_id: u128,
    pub kind: EdgeKind,
    pub source_id: u128,
    pub target_id: u128,
    pub label: String,
    /// Open metadata: a map, so its keys are unique (`meta_keys_unique`).
    pub meta: Vec<MetaEntry>,
    pub created_at: i64,
    pub modified_at: i64,
}

/// The invariant of a metadata map: no key occurs twice.
pub open spec fn meta_keys_unique(meta: Seq<MetaEntry>) -> bool {
    forall|i: int, j: int| 0 <= i < meta.len() && 0 <= j < meta.len() && meta[i].key@ == meta[j].key@ ==> i == j
}

/// In a metadata map with unique keys, the value stored under a key is that
/// of the one entry with the key, wherever it stands.
pub proof fn lemma_meta_lookup_unique(meta: Seq<MetaEntry>, i: int)
    requires
        meta_keys_unique(meta),
        0 <= i < meta.len(),
    ensures
        meta_lookup(meta, meta[i].key@) == Some(meta[i].value),
    decreases meta.len(),
{
    if i > 0 {
        let rest = meta.drop_first();
        assert(meta[0].key@ != meta[i].key@);
        assert(rest[i - 1] == meta[i]);
        assert(meta_keys_unique(rest)) by {
            assert forall|a: int, b: int| 0 <= a < rest.len() && 0 <= b < rest.len() && rest[a].key@ == rest[b].key@ implies a == b by {
                assert(rest[a] == meta[a + 1] && rest[b] == meta[b + 1]);
            }
        }
        lemma_meta_lookup_unique(rest, i - 1);
    }
}

impl Node {
    /// The invariant of a node: its metadata is a map.
    pub open spec fn wf(&self) -> bool {
        meta_keys_unique(self.meta@)
    }
}

impl Edge {
    /// The invariant of an edge: its metadata is a map.
    pub open spec fn wf(&self) -> bool {
        meta_keys_unique(self.meta@)
    }
}

/// Whether no key of a metadata map occurs twice.
pub fn meta_keys_distinct(meta: &Vec<MetaEntry>) -> (r: bool)
    ensures
        r == meta_keys_unique(meta@),
{
    let mut i: usize = 0;
    while i < meta.len()
        invariant
            0 <= i <= meta@.len(),
            forall|a: int, b: int|
                0 <= a < i && 0 <= b < meta@.len() && meta@[a].key@ == meta@[b].key@ ==> a == b,
        decreases meta@.len() - i,
    {
        let mut j: usize = 0;
        while j < meta.len()
            invariant
                0 <= i < meta@.len(),
                0 <= j <= meta@.len(),
                forall|b: int| 0 <= b < j && meta@[i as int].key@ == meta@[b].key@ ==> b == i,
            decreases meta@.len() - j,
        {
            if j != i && crate::text::text_eq(meta[i].key.as_str(), meta[j].key.as_str()) {
                return false;
            }
            j = j + 1;
        }
        i = i + 1;
    }
    true
}

/// Looks up the value stored under `key` in a metadata map.
pub fn meta_get<'a>(meta: &'a Vec<MetaEntry>, key: &str) -> (r: Option<&'a MetaValue>)
    ensures
        match r {
            Some(v) => meta_lookup(meta@, key@) == Some(*v),
            None => meta_lookup(meta@, key@) is None,
        },
{
    let mut i: usize = 0;
    assert(meta@.subrange(0, meta.len() as int) =~= meta@);
    while i < meta.len()
        invariant
            0 <= i <= meta.len(),
            meta_lookup(meta@, key@) == meta_lookup(meta@.subrange(i as int, meta.len() as int), key@),
        decreases meta.len() - i,
    {
        let ghost rest = meta@.subrange(i as int, meta.len() as int);
        assert(rest.drop_first() =~= meta@.subrange(i + 1, meta.len() as int));
        if crate::text::text_eq(meta[i].key.as_str(), key) {
            return Some(&meta[i].value);
        }
        i = i + 1;
    }
    None
}

/// A project: the owner of a graph of nodes and edges.
#[derive(Clone, Debug)]
pub struct Project {
    pub id: u128,
    pub name: String,
    pub description: String,
    pub created_at: i64,
    pub modified_at: i64,
}

/// The body format of a subsystem knowledge page that names none.
pub fn default_subsystem_knowledge_body_format() -> (r: String)
    ensures
        r@ == "plain"@,
{
    String::from_str("plain")
}

} // verus!
