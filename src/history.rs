//! Requirement snapshots, change detection and the audit entries recorded
//! when a requirement's meaningful content changes.
use vstd::prelude::*;
use crate::bindings::{fresh_id, json_string_list_of, parse_string_list};
use crate::storage::{flatten_node_data, opt_view};
use crate::kinds::NodeKind;
use crate::model::{meta_get, meta_lookup, MetaEntry, MetaValue, Node, NodeData, RequirementData};
use crate::text::{
    blank, copy_texts, is_blank, owned, owned_or_empty, text_eq, text_or_empty, texts, texts_eq,
};

verus! {

/// The comparable content of a requirement: every field that matters for
/// change tracking, with absent values read as empty and enum values as their
/// lowercase names.
#[derive(Clone, Debug)]
pub struct RequirementSnapshot {
    pub req_id: String,
    pub name: String,
    pub text: String,
    pub rationale: String,
    pub priority: String,
    pub status: String,
    pub verification_method: String,
    pub source: String,
    pub allocations: Vec<String>,
    pub description: String,
}

/// The mathematical value of a snapshot.
pub struct SnapshotModel {
    pub req_id: Seq<char>,
    pub name: Seq<char>,
    pub text: Seq<char>,
    pub rationale: Seq<char>,
    pub priority: Seq<char>,
    pub status: Seq<char>,
    pub verification_method: Seq<char>,
    pub source: Seq<char>,
    pub allocations: Seq<Seq<char>>,
    pub description: Seq<char>,
}

impl View for RequirementSnapshot {
    type V = SnapshotModel;

    open spec fn view(&self) -> SnapshotModel {
        SnapshotModel {
            req_id: self.req_id@,
            name: self.name@,
            text: self.text@,
            rationale: self.rationale@,
            priority: self.priority@,
            status: self.status@,
            verification_method: self.verification_method@,
            source: self.source@,
            allocations: texts(self.allocations@),
            description: self.description@,
        }
    }
}

/// The snapshot of nothing: every field empty.
pub open spec fn empty_snapshot() -> SnapshotModel {
    SnapshotModel {
        req_id: Seq::empty(),
        name: Seq::empty(),
        text: Seq::empty(),
        rationale: Seq::empty(),
        priority: Seq::empty(),
        status: Seq::empty(),
        verification_method: Seq::empty(),
        source: Seq::empty(),
        allocations: Seq::empty(),
        description: Seq::empty(),
    }
}

impl RequirementSnapshot {
    /// The snapshot of nothing: every field empty.
    pub fn empty() -> (r: RequirementSnapshot)
        ensures
            r@ == empty_snapshot(),
    {
        let r = RequirementSnapshot {
            req_id: String::new(),
            name: String::new(),
            text: String::new(),
            rationale: String::new(),
            priority: String::new(),
            status: String::new(),
            verification_method: String::new(),
            source: String::new(),
            allocations: Vec::new(),
            description: String::new(),
        };
        assert(r@.allocations =~= Seq::<Seq<char>>::empty());
        r
    }

    /// Full structural equality over all fields.
    pub fn same_as(&self, other: &RequirementSnapshot) -> (r: bool)
        ensures
            r == (self@ == other@),
    {
        text_eq(self.req_id.as_str(), other.req_id.as_str())
            && text_eq(self.name.as_str(), other.name.as_str())
            && text_eq(self.text.as_str(), other.text.as_str())
            && text_eq(self.rationale.as_str(), other.rationale.as_str())
            && text_eq(self.priority.as_str(), other.priority.as_str())
            && text_eq(self.status.as_str(), other.status.as_str())
            && text_eq(self.verification_method.as_str(), other.verification_method.as_str())
            && text_eq(self.source.as_str(), other.source.as_str())
            && texts_eq(&self.allocations, &other.allocations)
            && text_eq(self.description.as_str(), other.description.as_str())
    }
}

impl Default for RequirementSnapshot {
    fn default() -> (r: RequirementSnapshot)
        ensures
            r@ == empty_snapshot(),
    {
        RequirementSnapshot::empty()
    }
}

impl PartialEq for RequirementSnapshot {
    fn eq(&self, other: &RequirementSnapshot) -> (r: bool) {
        self.same_as(other)
    }
}

impl vstd::std_specs::cmp::PartialEqSpecImpl for RequirementSnapshot {
    open spec fn obeys_eq_spec() -> bool {
        true
    }

    open spec fn eq_spec(&self, other: &RequirementSnapshot) -> bool {
        self@ == other@
    }
}

/// The snapshot of a requirement's payload within its node.
pub open spec fn requirement_snapshot(n: Node, r: RequirementData) -> SnapshotModel {
    SnapshotModel {
        req_id: text_or_empty(r.req_id),
        name: n.name@,
        text: text_or_empty(r.text),
        rationale: text_or_empty(r.rationale),
        priority: r.priority.name(),
        status: r.status.name(),
        verification_method: match r.verification_method {
            Some(v) => v.name(),
            None => Seq::empty(),
        },
        source: text_or_empty(r.source),
        allocations: match r.allocations {
            Some(v) => texts(v@),
            None => Seq::empty(),
        },
        description: n.description@,
    }
}

/// The snapshot of a node, if it carries a requirement payload.
pub open spec fn snapshot_of(n: Node) -> Option<SnapshotModel> {
    match n.data {
        NodeData::Requirement(r) => Some(requirement_snapshot(n, r)),
        _ => None,
    }
}

/// Builds the snapshot of a node that carries a requirement payload.
pub fn requirement_snapshot_from_node(node: &Node) -> (r: Option<RequirementSnapshot>)
    ensures
        match r {
            Some(s) => snapshot_of(*node) == Some(s@),
            None => snapshot_of(*node) is None,
        },
{
    let req = match &node.data {
        NodeData::Requirement(r) => r,
        _ => return None,
    };
    let verification_method = match &req.verification_method {
        Some(v) => owned(v.as_str()),
        None => String::new(),
    };
    let allocations = match &req.allocations {
        Some(v) => copy_texts(v),
        None => Vec::new(),
    };
    let s = RequirementSnapshot {
        req_id: owned_or_empty(&req.req_id),
        name: node.name.clone(),
        text: owned_or_empty(&req.text),
        rationale: owned_or_empty(&req.rationale),
        priority: owned(req.priority.as_str()),
        status: owned(req.status.as_str()),
        verification_method,
        source: owned_or_empty(&req.source),
        allocations,
        description: node.description.clone(),
    };
    assert(s@.allocations =~= requirement_snapshot(*node, *req).allocations);
    Some(s)
}

/// The stored columns of a requirement as read back before it is written
/// again. Each may be absent; `req_allocations` is a JSON array of strings.
#[derive(Clone, Debug)]
pub struct RawRequirementRow {
    pub name: Option<String>,
    pub description: Option<String>,
    pub req_id: Option<String>,
    pub req_text: Option<String>,
    pub req_rationale: Option<String>,
    pub req_priority: Option<String>,
    pub req_status: Option<String>,
    pub req_source: Option<String>,
    pub req_allocations: Option<String>,
    pub req_verification_method: Option<String>,
}

/// The allocation list stored in a column: an unreadable or absent list
/// reads as empty.
pub open spec fn stored_allocations(raw: Option<String>) -> Seq<Seq<char>> {
    match raw {
        Some(t) => match json_string_list_of(t@) {
            Some(l) => l,
            None => Seq::empty(),
        },
        None => Seq::empty(),
    }
}

/// The snapshot of a stored requirement row.
pub open spec fn row_snapshot(row: RawRequirementRow) -> SnapshotModel {
    SnapshotModel {
        req_id: text_or_empty(row.req_id),
        name: text_or_empty(row.name),
        text: text_or_empty(row.req_text),
        rationale: text_or_empty(row.req_rationale),
        priority: text_or_empty(row.req_priority),
        status: text_or_empty(row.req_status),
        verification_method: text_or_empty(row.req_verification_method),
        source: text_or_empty(row.req_source),
        allocations: stored_allocations(row.req_allocations),
        description: text_or_empty(row.description),
    }
}

/// Builds the snapshot of a stored requirement row.
pub fn row_to_requirement_snapshot(row: &RawRequirementRow) -> (r: RequirementSnapshot)
    ensures
        r@ == row_snapshot(*row),
{
    let allocations = match &row.req_allocations {
        Some(raw) => match parse_string_list(raw.as_str()) {
            Some(list) => list,
            None => Vec::new(),
        },
        None => Vec::new(),
    };
    let r = RequirementSnapshot {
        req_id: owned_or_empty(&row.req_id),
        name: owned_or_empty(&row.name),
        text: owned_or_empty(&row.req_text),
        rationale: owned_or_empty(&row.req_rationale),
        priority: owned_or_empty(&row.req_priority),
        status: owned_or_empty(&row.req_status),
        verification_method: owned_or_empty(&row.req_verification_method),
        source: owned_or_empty(&row.req_source),
        allocations,
        description: owned_or_empty(&row.description),
    };
    assert(r@.allocations =~= row_snapshot(*row).allocations);
    r
}

/// `row` holds what writing the requirement node `n` stores: its name and
/// description, its fields by their stored names, and its allocations as
/// a text that reads back as the same list.
pub open spec fn row_written_for(row: RawRequirementRow, n: Node) -> bool {
    n.data is Requirement && {
        let r = n.data->Requirement_0;
        &&& opt_view(row.name) == Some(n.name@)
        &&& opt_view(row.description) == Some(n.description@)
        &&& opt_view(row.req_id) == opt_view(r.req_id)
        &&& opt_view(row.req_text) == opt_view(r.text)
        &&& opt_view(row.req_rationale) == opt_view(r.rationale)
        &&& opt_view(row.req_priority) == Some(r.priority.name())
        &&& opt_view(row.req_status) == Some(r.status.name())
        &&& opt_view(row.req_source) == opt_view(r.source)
        &&& opt_view(row.req_verification_method) == match r.verification_method {
            Some(v) => Some(v.name()),
            None => None,
        }
        &&& match r.allocations {
            Some(v) => opt_view(row.req_allocations) matches Some(t) && json_string_list_of(t) == Some(
                texts(v@),
            ),
            None => row.req_allocations is None,
        }
    }
}

/// The requirement row that writing `node` stores, if it is a requirement.
pub fn stored_requirement_row(node: &Node) -> (r: Option<RawRequirementRow>)
    ensures
        match r {
            Some(row) => row_written_for(row, *node),
            None => !(node.data is Requirement),
        },
{
    match &node.data {
        NodeData::Requirement(_) => {
            let c = flatten_node_data(&node.data);
            Some(RawRequirementRow {
                name: Some(node.name.clone()),
                description: Some(node.description.clone()),
                req_id: c.req_id,
                req_text: c.req_text,
                req_rationale: c.req_rationale,
                req_priority: c.req_priority,
                req_status: c.req_status,
                req_source: c.req_source,
                req_allocations: c.req_allocations,
                req_verification_method: c.req_verification_method,
            })
        },
        _ => None,
    }
}

/// The row written for a requirement reads back as that requirement's snapshot.
pub proof fn lemma_written_row_reads_back(row: RawRequirementRow, n: Node)
    requires
        row_written_for(row, n),
    ensures
        snapshot_of(n) == Some(row_snapshot(row)),
{
    let r = n.data->Requirement_0;
    assert(row_snapshot(row).allocations == requirement_snapshot(n, r).allocations);
    assert(row_snapshot(row) == requirement_snapshot(n, r));
}

/// The text stored under `key`, if it is a text that is not blank.
pub open spec fn meta_text(meta: Seq<MetaEntry>, key: Seq<char>) -> Option<Seq<char>> {
    match meta_lookup(meta, key) {
        Some(MetaValue::Text(s)) => if is_blank(s@) {
            None
        } else {
            Some(s@)
        },
        _ => None,
    }
}

/// Whether the flag stored under `key` is set.
pub open spec fn meta_flag(meta: Seq<MetaEntry>, key: Seq<char>) -> bool {
    meta_lookup(meta, key) == Some(MetaValue::Flag(true))
}

/// Who made a change: the `actor` tag of the metadata, else `system`.
pub open spec fn actor_of(meta: Seq<MetaEntry>) -> Seq<char> {
    match meta_text(meta, "actor"@) {
        Some(a) => a,
        None => "system"@,
    }
}

/// Where a change came from: the `change_source` tag of the metadata, else
/// `ai` for content flagged as generated or suggested by an AI, else `manual`.
pub open spec fn source_of(meta: Seq<MetaEntry>) -> Seq<char> {
    match meta_text(meta, "change_source"@) {
        Some(s) => s,
        None => if meta_flag(meta, "ai_generated"@) || meta_flag(meta, "ai_suggested"@) {
            "ai"@
        } else {
            "manual"@
        },
    }
}

/// The text stored under `key`, if it is a text that is not blank.
fn meta_text_value<'a>(meta: &'a Vec<MetaEntry>, key: &str) -> (r: Option<&'a str>)
    ensures
        match r {
            Some(s) => meta_text(meta@, key@) == Some(s@),
            None => meta_text(meta@, key@) is None,
        },
{
    match meta_get(meta, key) {
        Some(MetaValue::Text(s)) => if blank(s.as_str()) {
            None
        } else {
            Some(s.as_str())
        },
        _ => None,
    }
}

/// Whether the flag stored under `key` is set.
fn meta_flag_set(meta: &Vec<MetaEntry>, key: &str) -> (r: bool)
    ensures
        r == meta_flag(meta@, key@),
{
    match meta_get(meta, key) {
        Some(MetaValue::Flag(b)) => *b,
        _ => false,
    }
}

/// Who made the change to a node, for its history entry.
pub fn extract_history_actor(node: &Node) -> (r: String)
    ensures
        r@ == actor_of(node.meta@),
{
    match meta_text_value(&node.meta, "actor") {
        Some(a) => owned(a),
        None => owned("system"),
    }
}

/// Where the change to a node came from, for its history entry.
pub fn extract_history_source(node: &Node) -> (r: String)
    ensures
        r@ == source_of(node.meta@),
{
    if let Some(s) = meta_text_value(&node.meta, "change_source") {
        return owned(s);
    }
    if meta_flag_set(&node.meta, "ai_generated") || meta_flag_set(&node.meta, "ai_suggested") {
        return owned("ai");
    }
    owned("manual")
}

/// An immutable audit entry: the content of a requirement before and after
/// one meaningful change.
#[derive(Clone, Debug)]
pub struct RequirementHistoryEntry {
    pub id: u128,
    pub project_id: u128,
    pub node_id: u128,
    /// The node's own modification time.
    pub ts: i64,
    pub actor: String,
    /// `manual`, `ai`, `system` or an explicit tag.
    pub source: String,
    pub prev: RequirementSnapshot,
    pub next: RequirementSnapshot,
}

/// The content a requirement had before the write: that of its stored row,
/// or nothing at all for a new requirement.
pub open spec fn prior_snapshot(prior: Option<RawRequirementRow>) -> SnapshotModel {
    match prior {
        Some(row) => row_snapshot(row),
        None => empty_snapshot(),
    }
}

/// Whether writing `node` over `prior` changes a requirement's meaningful
/// content, so that a history entry is owed.
pub open spec fn history_due(prior: Option<RawRequirementRow>, node: Node) -> bool {
    node.kind == NodeKind::Requirement && match snapshot_of(node) {
        Some(next) => next != prior_snapshot(prior),
        None => false,
    }
}

/// What the recorder returns for a write of `node` over `prior`: an entry
/// exactly when one is due, which holds the node's ids, its modification
/// time, the actor and source of its metadata and both snapshots.
pub open spec fn recorded(
    prior: Option<RawRequirementRow>,
    node: Node,
    r: Option<RequirementHistoryEntry>,
) -> bool {
    &&& (r is Some <==> history_due(prior, node))
    &&& match r {
        Some(e) => {
            &&& e.project_id == node.project_id
            &&& e.node_id == node.id
            &&& e.ts == node.modified_at
            &&& e.actor@ == actor_of(node.meta@)
            &&& e.source@ == source_of(node.meta@)
            &&& e.prev@ == prior_snapshot(prior)
            &&& snapshot_of(node) == Some(e.next@)
        },
        None => true,
    }
}

/// The history entry owed for writing `node` over the stored row `prior_row`
/// (absent for a new node), or nothing when the requirement's meaningful
/// content is unchanged or the node is not a requirement.
pub fn record_if_changed(prior_row: Option<RawRequirementRow>, node: &Node) -> (r: Option<
    RequirementHistoryEntry,
>)
    ensures
        recorded(prior_row, *node, r),
{
    if node.kind != NodeKind::Requirement {
        return None;
    }
    let next = match requirement_snapshot_from_node(node) {
        Some(s) => s,
        None => return None,
    };
    let prev = match &prior_row {
        Some(row) => row_to_requirement_snapshot(row),
        None => RequirementSnapshot::empty(),
    };
    if prev.same_as(&next) {
        return None;
    }
    Some(RequirementHistoryEntry {
        id: fresh_id(),
        project_id: node.project_id,
        node_id: node.id,
        ts: node.modified_at,
        actor: extract_history_actor(node),
        source: extract_history_source(node),
        prev,
        next,
    })
}

/// How many history entries a listing returns: the requested number, 20
/// when none is given, and never fewer than 1 nor more than 200.
pub open spec fn history_limit_of(limit: Option<i64>) -> int {
    let l = match limit {
        Some(l) => l as int,
        None => 20,
    };
    if l < 1 {
        1
    } else if l > 200 {
        200
    } else {
        l
    }
}

/// Bounds the number of history entries a listing returns.
pub fn history_limit(limit: Option<i64>) -> (r: usize)
    ensures
        r as int == history_limit_of(limit),
        1 <= r <= 200,
{
    let l: i64 = match limit {
        Some(l) => l,
        None => 20,
    };
    if l < 1 {
        1
    } else if l > 200 {
        200
    } else {
        l as usize
    }
}

/// Two requirement payloads that agree on everything but their text.
pub open spec fn same_except_text(a: RequirementData, b: RequirementData) -> bool {
    &&& a.req_id == b.req_id
    &&& a.rationale == b.rationale
    &&& a.priority == b.priority
    &&& a.status == b.status
    &&& a.source == b.source
    &&& a.allocations == b.allocations
    &&& a.verification_method == b.verification_method
}

/// Re-saving a requirement with byte-identical meaningful fields over the
/// row written for it records no history entry.
pub proof fn lemma_resave_records_nothing(
    stored: RawRequirementRow,
    before: Node,
    node: Node,
    r: Option<RequirementHistoryEntry>,
)
    requires
        row_written_for(stored, before),
        snapshot_of(node) == snapshot_of(before),
        recorded(Some(stored), node, r),
    ensures
        r is None,
{
    lemma_written_row_reads_back(stored, before);
}

/// Editing only what lies outside a requirement's snapshot (its metadata,
/// its timestamps) over the row written for it records no history entry.
pub proof fn lemma_metadata_edit_records_nothing(
    stored: RawRequirementRow,
    before: Node,
    after: Node,
    r: Option<RequirementHistoryEntry>,
)
    requires
        row_written_for(stored, before),
        after.kind == before.kind,
        after.name == before.name,
        after.description == before.description,
        after.data == before.data,
        recorded(Some(stored), after, r),
    ensures
        r is None,
{
    lemma_written_row_reads_back(stored, before);
}

/// Editing the text of a stored requirement from `a` to a different `b`
/// records exactly one entry, whose snapshots are those of the requirement
/// before and after, holding `a` and `b`.
pub proof fn lemma_text_edit_records_one_entry(
    stored: RawRequirementRow,
    before: Node,
    after: Node,
    a: Seq<char>,
    b: Seq<char>,
    r: Option<RequirementHistoryEntry>,
)
    requires
        row_written_for(stored, before),
        before.kind == NodeKind::Requirement,
        after.kind == before.kind,
        after.name == before.name,
        after.description == before.description,
        after.data is Requirement,
        same_except_text(before.data->Requirement_0, after.data->Requirement_0),
        text_or_empty(before.data->Requirement_0.text) == a,
        text_or_empty(after.data->Requirement_0.text) == b,
        a != b,
        recorded(Some(stored), after, r),
    ensures
        r is Some,
        Some(r->Some_0.prev@) == snapshot_of(before),
        Some(r->Some_0.next@) == snapshot_of(after),
        r->Some_0.prev.text@ == a,
        r->Some_0.next.text@ == b,
{
    lemma_written_row_reads_back(stored, before);
    assert(snapshot_of(after)->Some_0.text != prior_snapshot(Some(stored)).text);
}

/// A newly created requirement, with no stored row before it, is always
/// recorded: its content differs from nothing.
pub proof fn lemma_new_requirement_recorded(node: Node, r: Option<RequirementHistoryEntry>)
    requires
        node.kind == NodeKind::Requirement,
        node.data is Requirement,
        recorded(None, node, r),
    ensures
        r is Some,
        r->Some_0.prev@ == empty_snapshot(),
{
    reveal_strlit("shall");
    reveal_strlit("should");
    reveal_strlit("may");
    let p = node.data->Requirement_0.priority;
    assert(p.name().len() > 0);
    assert(snapshot_of(node)->Some_0.priority.len() > 0);
}

impl RequirementSnapshot {
    /// A copy of this snapshot.
    pub fn copy(&self) -> (r: RequirementSnapshot)
        ensures
            r@ == self@,
    {
        RequirementSnapshot {
            req_id: self.req_id.clone(),
            name: self.name.clone(),
            text: self.text.clone(),
            rationale: self.rationale.clone(),
            priority: self.priority.clone(),
            status: self.status.clone(),
            verification_method: self.verification_method.clone(),
            source: self.source.clone(),
            allocations: copy_texts(&self.allocations),
            description: self.description.clone(),
        }
    }
}

/// What a history entry says.
pub struct EntryModel {
    pub id: u128,
    pub project_id: u128,
    pub node_id: u128,
    pub ts: i64,
    pub actor: Seq<char>,
    pub source: Seq<char>,
    pub prev: SnapshotModel,
    pub next: SnapshotModel,
}

impl View for RequirementHistoryEntry {
    type V = EntryModel;

    open spec fn view(&self) -> EntryModel {
        EntryModel {
            id: self.id,
            project_id: self.project_id,
            node_id: self.node_id,
            ts: self.ts,
            actor: self.actor@,
            source: self.source@,
            prev: self.prev@,
            next: self.next@,
        }
    }
}

impl RequirementHistoryEntry {
    /// A copy of this entry.
    pub fn copy(&self) -> (r: RequirementHistoryEntry)
        ensures
            r@ == self@,
    {
        RequirementHistoryEntry {
            id: self.id,
            project_id: self.project_id,
            node_id: self.node_id,
            ts: self.ts,
            actor: self.actor.clone(),
            source: self.source.clone(),
            prev: self.prev.copy(),
            next: self.next.copy(),
        }
    }
}

/// `x` placed into `s` before the first entry older than it.
pub open spec fn insert_newest_first(s: Seq<EntryModel>, x: EntryModel) -> Seq<EntryModel>
    decreases s.len(),
{
    if s.len() == 0 {
        seq![x]
    } else if s[0].ts < x.ts {
        seq![x] + s
    } else {
        seq![s[0]] + insert_newest_first(s.drop_first(), x)
    }
}

/// The entries of a node, newest first; entries of equal time keep the
/// order in which they were recorded.
pub open spec fn node_history(log: Seq<EntryModel>, node_id: u128) -> Seq<EntryModel>
    decreases log.len(),
{
    if log.len() == 0 {
        Seq::empty()
    } else {
        let rest = node_history(log.drop_last(), node_id);
        if log.last().node_id == node_id {
            insert_newest_first(rest, log.last())
        } else {
            rest
        }
    }
}

/// What a sequence of entries says, entry by entry.
pub open spec fn entry_models(log: Seq<RequirementHistoryEntry>) -> Seq<EntryModel> {
    log.map_values(|e: RequirementHistoryEntry| e@)
}

/// The listing of a node's history: its newest entries, at most as many as
/// the bounded limit.
pub open spec fn listed_history(log: Seq<EntryModel>, node_id: u128, limit: Option<i64>) -> Seq<EntryModel> {
    let h = node_history(log, node_id);
    if h.len() < history_limit_of(limit) {
        h
    } else {
        h.take(history_limit_of(limit))
    }
}

proof fn lemma_insert_newest_first_at(s: Seq<EntryModel>, x: EntryModel, k: int)
    requires
        0 <= k <= s.len(),
        forall|j: int| 0 <= j < k ==> s[j].ts >= x.ts,
        k < s.len() ==> s[k].ts < x.ts,
    ensures
        insert_newest_first(s, x) == s.insert(k, x),
    decreases s.len(),
{
    if s.len() == 0 {
        assert(s.insert(k, x) =~= seq![x]);
    } else if k == 0 {
        assert(s.insert(0, x) =~= seq![x] + s);
    } else {
        lemma_insert_newest_first_at(s.drop_first(), x, k - 1);
        assert(s.insert(k, x) =~= seq![s[0]] + s.drop_first().insert(k - 1, x));
    }
}

/// The history of a node from a log of entries: newest first, at most
/// `limit` entries after the limit is bounded to between 1 and 200 (20 when
/// none is given).
pub fn list_history(log: &[RequirementHistoryEntry], node_id: u128, limit: Option<i64>) -> (r: Vec<RequirementHistoryEntry>)
    ensures
        entry_models(r@) == listed_history(entry_models(log@), node_id, limit),
{
    let ghost models = entry_models(log@);
    let mut out: Vec<RequirementHistoryEntry> = Vec::new();
    let mut i: usize = 0;
    while i < log.len()
        invariant
            0 <= i <= log@.len(),
            models == entry_models(log@),
            out@.map_values(|e: RequirementHistoryEntry| e@) == node_history(models.take(i as int), node_id),
        decreases log@.len() - i,
    {
        assert(models.take(i + 1).drop_last() =~= models.take(i as int));
        let e = &log[i];
        if e.node_id == node_id {
            let mut k: usize = 0;
            while k < out.len() && out[k].ts >= e.ts
                invariant
                    0 <= k <= out@.len(),
                    forall|j: int| 0 <= j < k ==> out@[j].ts >= e.ts,
                decreases out@.len() - k,
            {
                k = k + 1;
            }
            let ghost before = out@.map_values(|x: RequirementHistoryEntry| x@);
            proof {
                lemma_insert_newest_first_at(before, e@, k as int);
            }
            out.insert(k, e.copy());
            assert(out@.map_values(|x: RequirementHistoryEntry| x@) =~= before.insert(k as int, e@));
        }
        i = i + 1;
    }
    assert(models.take(log@.len() as int) =~= models);
    let cap = history_limit(limit);
    if out.len() > cap {
        out.truncate(cap);
    }
    assert(node_history(models, node_id).take(node_history(models, node_id).len() as int) =~= node_history(models, node_id));
    assert(entry_models(out@) =~= listed_history(models, node_id, limit));
    out
}

} // verus!
