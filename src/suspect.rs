//! Suspect links: markers on derivation edges whose target may no longer be
//! justified by its source, because the source changed since the edge was
//! last reviewed. At most one marker per edge is open at any time.
use vstd::prelude::*;
use crate::bindings::{fresh_id, now_millis};
use crate::kinds::EdgeKind;
use crate::model::Edge;
use crate::text::owned;

verus! {

/// A marker on one edge. It is open until it is resolved; a resolved marker
/// is a closed historical record.
#[derive(Clone, Debug)]
pub struct SuspectLink {
    pub id: u128,
    pub project_id: u128,
    pub edge_id: u128,
    pub source_node_id: u128,
    pub target_node_id: u128,
    pub flagged_at: i64,
    pub flagged_reason: String,
    pub resolved_at: Option<i64>,
    pub resolved_by: Option<String>,
}

impl SuspectLink {
    /// A copy of this marker.
    pub fn copy(&self) -> (r: SuspectLink)
        ensures
            r == *self,
    {
        SuspectLink {
            id: self.id,
            project_id: self.project_id,
            edge_id: self.edge_id,
            source_node_id: self.source_node_id,
            target_node_id: self.target_node_id,
            flagged_at: self.flagged_at,
            flagged_reason: self.flagged_reason.clone(),
            resolved_at: self.resolved_at,
            resolved_by: match &self.resolved_by {
                Some(b) => Some(b.clone()),
                None => None,
            },
        }
    }
}

/// A marker that has not been resolved.
pub open spec fn is_open(l: SuspectLink) -> bool {
    l.resolved_at is None
}

/// Whether an open marker exists for the edge.
pub open spec fn has_open(links: Seq<SuspectLink>, edge_id: u128) -> bool {
    exists|i: int| 0 <= i < links.len() && links[i].edge_id == edge_id && is_open(links[i])
}

/// The central invariant: no two open markers share an edge.
pub open spec fn one_open_per_edge(links: Seq<SuspectLink>) -> bool {
    forall|i: int, j: int|
        0 <= i < links.len() && 0 <= j < links.len() && is_open(links[i]) && is_open(links[j])
            && links[i].edge_id == links[j].edge_id ==> i == j
}

/// The derivation kinds: relations whose target is justified by the
/// content of their source.
pub open spec fn is_derivation(k: EdgeKind) -> bool {
    k == EdgeKind::Derives || k == EdgeKind::Refines || k == EdgeKind::Traces
        || k == EdgeKind::Satisfies
}

/// An edge along which a change of `node_id` in `project_id` propagates.
pub open spec fn propagates(e: Edge, project_id: u128, node_id: u128) -> bool {
    e.project_id == project_id && e.source_id == node_id && is_derivation(e.kind)
}

/// Whether an edge with the given id is among `s`.
pub open spec fn edge_listed(s: Seq<Edge>, edge_id: u128) -> bool {
    exists|k: int| 0 <= k < s.len() && s[k].id == edge_id
}

/// The edges, in order, that a change of `node_id` flags anew: those along
/// which it propagates that have no open marker yet, each edge id once.
pub open spec fn to_flag(links: Seq<SuspectLink>, edges: Seq<Edge>, project_id: u128, node_id: u128) -> Seq<Edge>
    decreases edges.len(),
{
    if edges.len() == 0 {
        Seq::empty()
    } else {
        let before = to_flag(links, edges.drop_last(), project_id, node_id);
        let e = edges.last();
        if propagates(e, project_id, node_id) && !has_open(links, e.id) && !edge_listed(before, e.id) {
            before.push(e)
        } else {
            before
        }
    }
}

/// A new open marker for edge `e`, flagged by a change of `node_id`.
pub open spec fn new_marker(l: SuspectLink, e: Edge, project_id: u128, node_id: u128, reason: Seq<char>) -> bool {
    &&& l.project_id == project_id
    &&& l.edge_id == e.id
    &&& l.source_node_id == node_id
    &&& l.target_node_id == e.target_id
    &&& l.flagged_reason@ == reason
    &&& l.resolved_at is None
    &&& l.resolved_by is None
}

/// `new` is `old` followed by one new marker for each edge in `added`, in order.
pub open spec fn extended_by(
    old: Seq<SuspectLink>,
    new: Seq<SuspectLink>,
    added: Seq<Edge>,
    project_id: u128,
    node_id: u128,
    reason: Seq<char>,
) -> bool {
    &&& new.len() == old.len() + added.len()
    &&& forall|i: int| 0 <= i < old.len() ==> new[i] == old[i]
    &&& forall|k: int|
        0 <= k < added.len() ==> new_marker(#[trigger] new[old.len() + k], added[k], project_id, node_id, reason)
}

/// The markers after propagating a change of `node_id` over `edges`.
pub open spec fn flagged(
    old: Seq<SuspectLink>,
    new: Seq<SuspectLink>,
    edges: Seq<Edge>,
    project_id: u128,
    node_id: u128,
    reason: Seq<char>,
) -> bool {
    extended_by(old, new, to_flag(old, edges, project_id, node_id), project_id, node_id, reason)
}

/// Everything a propagation guarantees: the invariant still holds, the
/// markers are extended exactly as `flagged` says, and every edge along which
/// the change propagates has an open marker.
pub open spec fn propagated(
    old: Seq<SuspectLink>,
    new: Seq<SuspectLink>,
    edges: Seq<Edge>,
    project_id: u128,
    node_id: u128,
    reason: Seq<char>,
) -> bool {
    &&& one_open_per_edge(new)
    &&& flagged(old, new, edges, project_id, node_id, reason)
    &&& forall|j: int|
        0 <= j < edges.len() && propagates(#[trigger] edges[j], project_id, node_id)
            ==> has_open(new, edges[j].id)
}

/// `b` is the marker `a` resolved by `by`.
pub open spec fn resolution_of(a: SuspectLink, b: SuspectLink, by: Seq<char>) -> bool {
    &&& b.id == a.id
    &&& b.project_id == a.project_id
    &&& b.edge_id == a.edge_id
    &&& b.source_node_id == a.source_node_id
    &&& b.target_node_id == a.target_node_id
    &&& b.flagged_at == a.flagged_at
    &&& b.flagged_reason == a.flagged_reason
    &&& b.resolved_at is Some
    &&& b.resolved_by matches Some(x) && x@ == by
}

/// The markers after resolving `suspect_id`: each open marker with that id
/// is resolved; every other marker, resolved ones included, is unchanged.
pub open spec fn resolved(old: Seq<SuspectLink>, new: Seq<SuspectLink>, suspect_id: u128, by: Seq<char>) -> bool {
    &&& new.len() == old.len()
    &&& forall|i: int|
        0 <= i < old.len() ==> if old[i].id == suspect_id && is_open(old[i]) {
            resolution_of(old[i], #[trigger] new[i], by)
        } else {
            new[i] == old[i]
        }
}

/// `x` placed into `s` before the first marker flagged earlier than it.
pub open spec fn insert_by_time(s: Seq<SuspectLink>, x: SuspectLink) -> Seq<SuspectLink>
    decreases s.len(),
{
    if s.len() == 0 {
        seq![x]
    } else if s[0].flagged_at < x.flagged_at {
        seq![x] + s
    } else {
        seq![s[0]] + insert_by_time(s.drop_first(), x)
    }
}

/// The open markers of a project, newest flagged first.
pub open spec fn open_newest_first(links: Seq<SuspectLink>, project_id: u128) -> Seq<SuspectLink>
    decreases links.len(),
{
    if links.len() == 0 {
        Seq::empty()
    } else {
        let rest = open_newest_first(links.drop_last(), project_id);
        let l = links.last();
        if is_open(l) && l.project_id == project_id {
            insert_by_time(rest, l)
        } else {
            rest
        }
    }
}

/// The suspect markers of a store, kept so that no two open markers share
/// an edge.
pub struct SuspectLedger {
    links: Vec<SuspectLink>,
}

impl View for SuspectLedger {
    type V = Seq<SuspectLink>;

    closed spec fn view(&self) -> Seq<SuspectLink> {
        self.links@
    }
}

impl SuspectLedger {
    /// The ledger's invariant.
    pub open spec fn wf(&self) -> bool {
        one_open_per_edge(self@)
    }

    /// An empty ledger.
    pub fn new() -> (r: SuspectLedger)
        ensures
            r@ == Seq::<SuspectLink>::empty(),
            r.wf(),
    {
        SuspectLedger { links: Vec::new() }
    }

    /// A ledger holding `links`, if no two open markers among them share an
    /// edge.
    pub fn from_links(links: Vec<SuspectLink>) -> (r: Option<SuspectLedger>)
        ensures
            match r {
                Some(l) => l@ == links@ && l.wf(),
                None => !one_open_per_edge(links@),
            },
    {
        let mut i: usize = 0;
        while i < links.len()
            invariant
                0 <= i <= links@.len(),
                forall|a: int, b: int|
                    0 <= a < i && 0 <= b < links@.len() && is_open(links@[a]) && is_open(links@[b])
                        && links@[a].edge_id == links@[b].edge_id ==> a == b,
            decreases links@.len() - i,
        {
            if links[i].resolved_at.is_none() {
                let mut j: usize = 0;
                while j < links.len()
                    invariant
                        0 <= j <= links@.len(),
                        0 <= i < links@.len(),
                        is_open(links@[i as int]),
                        forall|b: int|
                            0 <= b < j && is_open(links@[b]) && links@[i as int].edge_id == links@[b].edge_id
                                ==> b == i,
                    decreases links@.len() - j,
                {
                    if j != i && links[j].resolved_at.is_none() && links[j].edge_id == links[i].edge_id {
                        return None;
                    }
                    j = j + 1;
                }
            }
            i = i + 1;
        }
        Some(SuspectLedger { links })
    }

    /// Every marker, open or resolved, in the order they were flagged.
    pub fn links(&self) -> (r: &Vec<SuspectLink>)
        ensures
            r@ == self@,
    {
        &self.links
    }

    /// Whether an open marker exists for the edge.
    pub fn open_for(&self, edge_id: u128) -> (r: bool)
        ensures
            r == has_open(self@, edge_id),
    {
        let mut i: usize = 0;
        while i < self.links.len()
            invariant
                0 <= i <= self.links@.len(),
                forall|j: int| 0 <= j < i ==> !(self.links@[j].edge_id == edge_id && is_open(self.links@[j])),
            decreases self.links@.len() - i,
        {
            if self.links[i].edge_id == edge_id && self.links[i].resolved_at.is_none() {
                return true;
            }
            i = i + 1;
        }
        false
    }

    /// Propagates a change of node `node_id` in project `project_id`: each
    /// derivation edge leaving that node gets a new open marker, unless one
    /// is already open for it. Repeating the call flags nothing more.
    pub fn flag_downstream(&mut self, edges: &[Edge], project_id: u128, node_id: u128, reason: &str)
        requires
            old(self).wf(),
        ensures
            final(self).wf(),
            propagated(old(self)@, final(self)@, edges@, project_id, node_id, reason@),
    {
        let ghost start = self.links@;
        let mut i: usize = 0;
        while i < edges.len()
            invariant
                0 <= i <= edges@.len(),
                extended_by(start, self.links@, to_flag(start, edges@.take(i as int), project_id, node_id), project_id, node_id, reason@),
                one_open_per_edge(self.links@),
                forall|j: int|
                    0 <= j < i && propagates(#[trigger] edges@[j], project_id, node_id)
                        ==> has_open(self.links@, edges@[j].id),
            decreases edges@.len() - i,
        {
            let e = &edges[i];
            let ghost before = to_flag(start, edges@.take(i as int), project_id, node_id);
            assert(edges@.take(i + 1).drop_last() =~= edges@.take(i as int));
            assert(edges@.take(i + 1).last() == edges@[i as int]);
            proof {
                lemma_open_after_extension(start, self.links@, before, project_id, node_id, reason@, e.id);
            }
            let kind_propagates = e.kind == EdgeKind::Derives || e.kind == EdgeKind::Refines
                || e.kind == EdgeKind::Traces || e.kind == EdgeKind::Satisfies;
            if kind_propagates && e.project_id == project_id && e.source_id == node_id
                && !self.open_for(e.id) {
                let link = SuspectLink {
                    id: fresh_id(),
                    project_id,
                    edge_id: e.id,
                    source_node_id: node_id,
                    target_node_id: e.target_id,
                    flagged_at: now_millis(),
                    flagged_reason: owned(reason),
                    resolved_at: None,
                    resolved_by: None,
                };
                let ghost prev = self.links@;
                self.links.push(link);
                proof {
                    let after = before.push(*e);
                    assert(self.links@ == prev.push(link));
                    assert forall|k: int| 0 <= k < after.len() implies new_marker(
                        #[trigger] self.links@[start.len() + k], after[k], project_id, node_id, reason@) by {
                        if k < before.len() {
                            assert(self.links@[start.len() + k] == prev[start.len() + k]);
                        }
                    }
                    assert forall|j: int|
                        0 <= j < i + 1 && propagates(#[trigger] edges@[j], project_id, node_id)
                            implies has_open(self.links@, edges@[j].id) by {
                        if j < i {
                            let w = choose|w: int| 0 <= w < prev.len() && prev[w].edge_id == edges@[j].id && is_open(prev[w]);
                            assert(self.links@[w] == prev[w]);
                        } else {
                            assert(self.links@[prev.len() as int] == link);
                        }
                    }
                }
            } else {
                proof {
                    assert forall|j: int|
                        0 <= j < i + 1 && propagates(#[trigger] edges@[j], project_id, node_id)
                            implies has_open(self.links@, edges@[j].id) by {
                    }
                }
            }
            i = i + 1;
        }
        assert(edges@.take(edges@.len() as int) =~= edges@);
    }
}

impl SuspectLedger {
    /// Resolves the marker `suspect_id` on behalf of `resolved_by`. Resolving
    /// a marker that is already resolved, or that does not exist, changes
    /// nothing and is no error.
    pub fn resolve(&mut self, suspect_id: u128, resolved_by: &str)
        requires
            old(self).wf(),
        ensures
            final(self).wf(),
            resolved(old(self)@, final(self)@, suspect_id, resolved_by@),
    {
        let ghost start = self.links@;
        let now = now_millis();
        let mut i: usize = 0;
        while i < self.links.len()
            invariant
                0 <= i <= self.links@.len(),
                self.links@.len() == start.len(),
                one_open_per_edge(start),
                forall|j: int|
                    0 <= j < start.len() && is_open(#[trigger] self.links@[j]) ==> is_open(start[j])
                        && self.links@[j].edge_id == start[j].edge_id,
                forall|j: int|
                    0 <= j < i ==> if start[j].id == suspect_id && is_open(start[j]) {
                        resolution_of(start[j], #[trigger] self.links@[j], resolved_by@)
                    } else {
                        self.links@[j] == start[j]
                    },
                forall|j: int| i <= j < start.len() ==> #[trigger] self.links@[j] == start[j],
            decreases start.len() - i,
        {
            if self.links[i].id == suspect_id && self.links[i].resolved_at.is_none() {
                let l = &self.links[i];
                let done = SuspectLink {
                    id: l.id,
                    project_id: l.project_id,
                    edge_id: l.edge_id,
                    source_node_id: l.source_node_id,
                    target_node_id: l.target_node_id,
                    flagged_at: l.flagged_at,
                    flagged_reason: l.flagged_reason.clone(),
                    resolved_at: Some(now),
                    resolved_by: Some(owned(resolved_by)),
                };
                self.links.set(i, done);
            }
            i = i + 1;
        }
    }

    /// The open markers of a project, newest flagged first.
    pub fn list_open(&self, project_id: u128) -> (r: Vec<SuspectLink>)
        ensures
            r@ == open_newest_first(self@, project_id),
    {
        let mut out: Vec<SuspectLink> = Vec::new();
        let mut i: usize = 0;
        while i < self.links.len()
            invariant
                0 <= i <= self.links@.len(),
                out@ == open_newest_first(self.links@.take(i as int), project_id),
            decreases self.links@.len() - i,
        {
            assert(self.links@.take(i + 1).drop_last() =~= self.links@.take(i as int));
            let l = &self.links[i];
            if l.resolved_at.is_none() && l.project_id == project_id {
                let mut k: usize = 0;
                while k < out.len() && out[k].flagged_at >= l.flagged_at
                    invariant
                        0 <= k <= out@.len(),
                        forall|j: int| 0 <= j < k ==> out@[j].flagged_at >= l.flagged_at,
                    decreases out@.len() - k,
                {
                    k = k + 1;
                }
                proof {
                    lemma_insert_by_time_at(out@, *l, k as int);
                }
                out.insert(k, l.copy());
            }
            i = i + 1;
        }
        assert(self.links@.take(self.links@.len() as int) =~= self.links@);
        out
    }
}

/// Placing `x` by time is inserting it at the first position whose marker
/// was flagged earlier than it.
proof fn lemma_insert_by_time_at(s: Seq<SuspectLink>, x: SuspectLink, k: int)
    requires
        0 <= k <= s.len(),
        forall|j: int| 0 <= j < k ==> s[j].flagged_at >= x.flagged_at,
        k < s.len() ==> s[k].flagged_at < x.flagged_at,
    ensures
        insert_by_time(s, x) == s.insert(k, x),
    decreases s.len(),
{
    if s.len() == 0 {
        assert(s.insert(k, x) =~= seq![x]);
    } else if k == 0 {
        assert(s.insert(0, x) =~= seq![x] + s);
    } else {
        lemma_insert_by_time_at(s.drop_first(), x, k - 1);
        assert(s.insert(k, x) =~= seq![s[0]] + s.drop_first().insert(k - 1, x));
    }
}

/// After `old` is extended by markers for `added`, an edge has an open
/// marker exactly when it had one before or it is among `added`.
proof fn lemma_open_after_extension(
    old: Seq<SuspectLink>,
    new: Seq<SuspectLink>,
    added: Seq<Edge>,
    project_id: u128,
    node_id: u128,
    reason: Seq<char>,
    edge_id: u128,
)
    requires
        extended_by(old, new, added, project_id, node_id, reason),
    ensures
        has_open(new, edge_id) == (has_open(old, edge_id) || edge_listed(added, edge_id)),
{
    if has_open(new, edge_id) {
        let w = choose|w: int| 0 <= w < new.len() && new[w].edge_id == edge_id && is_open(new[w]);
        if w >= old.len() {
            let k = w - old.len();
            assert(new_marker(new[old.len() + k], added[k], project_id, node_id, reason));
        } else {
            assert(new[w] == old[w]);
        }
    }
    if has_open(old, edge_id) {
        let w = choose|w: int| 0 <= w < old.len() && old[w].edge_id == edge_id && is_open(old[w]);
        assert(new[w] == old[w]);
    }
    if edge_listed(added, edge_id) {
        let k = choose|k: int| 0 <= k < added.len() && added[k].id == edge_id;
        assert(new_marker(new[old.len() + k], added[k], project_id, node_id, reason));
    }
}

/// An edge flagged anew had no open marker before.
proof fn lemma_to_flag_not_open(links: Seq<SuspectLink>, edges: Seq<Edge>, project_id: u128, node_id: u128, edge_id: u128)
    requires
        edge_listed(to_flag(links, edges, project_id, node_id), edge_id),
    ensures
        !has_open(links, edge_id),
    decreases edges.len(),
{
    if edges.len() > 0 {
        let before = to_flag(links, edges.drop_last(), project_id, node_id);
        let k = choose|k: int| 0 <= k < to_flag(links, edges, project_id, node_id).len()
            && to_flag(links, edges, project_id, node_id)[k].id == edge_id;
        if k < before.len() {
            assert(before[k].id == edge_id);
            lemma_to_flag_not_open(links, edges.drop_last(), project_id, node_id, edge_id);
        }
    }
}

/// After a node changes twice in a row with no resolution in between, each
/// derivation edge leaving it has exactly one open marker: the second
/// propagation adds none for it.
pub proof fn lemma_repeated_change_single_open(
    l0: Seq<SuspectLink>,
    l1: Seq<SuspectLink>,
    l2: Seq<SuspectLink>,
    edges: Seq<Edge>,
    project_id: u128,
    node_id: u128,
    first_reason: Seq<char>,
    second_reason: Seq<char>,
    j: int,
)
    requires
        one_open_per_edge(l0),
        propagated(l0, l1, edges, project_id, node_id, first_reason),
        propagated(l1, l2, edges, project_id, node_id, second_reason),
        0 <= j < edges.len(),
        propagates(edges[j], project_id, node_id),
    ensures
        has_open(l2, edges[j].id),
        forall|a: int, b: int|
            0 <= a < l2.len() && 0 <= b < l2.len() && is_open(l2[a]) && is_open(l2[b])
                && l2[a].edge_id == edges[j].id && l2[b].edge_id == edges[j].id ==> a == b,
        !edge_listed(to_flag(l1, edges, project_id, node_id), edges[j].id),
{
    if edge_listed(to_flag(l1, edges, project_id, node_id), edges[j].id) {
        lemma_to_flag_not_open(l1, edges, project_id, node_id, edges[j].id);
    }
}

/// Every marker placed by time is `x` or one of `s`.
proof fn lemma_insert_by_time_members(s: Seq<SuspectLink>, x: SuspectLink, y: SuspectLink)
    requires
        insert_by_time(s, x).contains(y),
    ensures
        y == x || s.contains(y),
    decreases s.len(),
{
    if s.len() > 0 && !(s[0].flagged_at < x.flagged_at) {
        let t = insert_by_time(s.drop_first(), x);
        let w = choose|w: int| 0 <= w < insert_by_time(s, x).len() && insert_by_time(s, x)[w] == y;
        assert(insert_by_time(s, x) == seq![s[0]] + t);
        if w > 0 {
            assert(t[w - 1] == y);
            lemma_insert_by_time_members(s.drop_first(), x, y);
            if y != x {
                let v = choose|v: int| 0 <= v < s.drop_first().len() && s.drop_first()[v] == y;
                assert(s[v + 1] == y);
            }
        } else {
            assert(s[0] == y);
        }
    } else if s.len() > 0 {
        let w = choose|w: int| 0 <= w < insert_by_time(s, x).len() && insert_by_time(s, x)[w] == y;
        if w > 0 {
            assert(s[w - 1] == y);
        }
    }
}

/// Each marker of a listing is an open marker of the project held by the ledger.
pub proof fn lemma_open_listing_members(links: Seq<SuspectLink>, project_id: u128, y: SuspectLink)
    requires
        open_newest_first(links, project_id).contains(y),
    ensures
        links.contains(y),
        is_open(y),
        y.project_id == project_id,
    decreases links.len(),
{
    if links.len() > 0 {
        let rest = open_newest_first(links.drop_last(), project_id);
        let l = links.last();
        if is_open(l) && l.project_id == project_id {
            lemma_insert_by_time_members(rest, l, y);
            if y != l {
                lemma_open_listing_members(links.drop_last(), project_id, y);
            }
        } else {
            lemma_open_listing_members(links.drop_last(), project_id, y);
        }
        if links.drop_last().contains(y) {
            let v = choose|v: int| 0 <= v < links.drop_last().len() && links.drop_last()[v] == y;
            assert(links[v] == y);
        }
        if y == l {
            assert(links[links.len() - 1] == y);
        }
    }
}

/// Once a marker is resolved it no longer appears among the open markers
/// of any project, and resolving it again changes nothing.
pub proof fn lemma_resolve_closes_and_repeats(
    l0: Seq<SuspectLink>,
    l1: Seq<SuspectLink>,
    l2: Seq<SuspectLink>,
    suspect_id: u128,
    first_by: Seq<char>,
    second_by: Seq<char>,
    project_id: u128,
)
    requires
        resolved(l0, l1, suspect_id, first_by),
        resolved(l1, l2, suspect_id, second_by),
    ensures
        forall|k: int|
            0 <= k < open_newest_first(l1, project_id).len()
                ==> #[trigger] open_newest_first(l1, project_id)[k].id != suspect_id,
        l2 == l1,
{
    assert forall|k: int| 0 <= k < open_newest_first(l1, project_id).len()
        implies #[trigger] open_newest_first(l1, project_id)[k].id != suspect_id by {
        let y = open_newest_first(l1, project_id)[k];
        assert(open_newest_first(l1, project_id).contains(y));
        lemma_open_listing_members(l1, project_id, y);
        let v = choose|v: int| 0 <= v < l1.len() && l1[v] == y;
        assert(l1[v] == l0[v] || resolution_of(l0[v], l1[v], first_by));
    }
    assert forall|i: int| 0 <= i < l1.len() implies l2[i] == l1[i] by {
        assert(l1[i] == l0[i] || resolution_of(l0[i], l1[i], first_by));
    }
    assert(l2 =~= l1);
}

/// Markers ordered from the newest flagged to the oldest.
pub open spec fn newest_first(s: Seq<SuspectLink>) -> bool {
    forall|i: int, j: int| 0 <= i < j < s.len() ==> s[i].flagged_at >= s[j].flagged_at
}

proof fn lemma_insert_by_time_sorted(s: Seq<SuspectLink>, x: SuspectLink)
    requires
        newest_first(s),
    ensures
        newest_first(insert_by_time(s, x)),
        insert_by_time(s, x).len() == s.len() + 1,
        insert_by_time(s, x)[0] == x || insert_by_time(s, x)[0] == s[0],
    decreases s.len(),
{
    if s.len() > 0 && !(s[0].flagged_at < x.flagged_at) {
        let t = s.drop_first();
        lemma_insert_by_time_sorted(t, x);
        let r = insert_by_time(s, x);
        assert(r == seq![s[0]] + insert_by_time(t, x));
        assert forall|i: int, j: int| 0 <= i < j < r.len() implies r[i].flagged_at >= r[j].flagged_at by {
            if i == 0 {
                let u = insert_by_time(t, x);
                assert(r[j] == u[j - 1]);
                if t.len() > 0 {
                    assert(u[0] == x || u[0] == t[0]);
                    assert(s[0].flagged_at >= t[0].flagged_at);
                    assert(u[0].flagged_at <= s[0].flagged_at);
                    if j - 1 > 0 {
                        assert(u[0].flagged_at >= u[j - 1].flagged_at);
                    }
                }
            }
        }
    } else if s.len() > 0 {
        let r = insert_by_time(s, x);
        assert forall|i: int, j: int| 0 <= i < j < r.len() implies r[i].flagged_at >= r[j].flagged_at by {
            if i == 0 {
                assert(s[0].flagged_at >= s[j - 1].flagged_at || j - 1 == 0);
            }
        }
    }
}

/// The open markers of a project are listed from the newest flagged to the oldest.
pub proof fn lemma_open_listing_newest_first(links: Seq<SuspectLink>, project_id: u128)
    ensures
        newest_first(open_newest_first(links, project_id)),
    decreases links.len(),
{
    if links.len() > 0 {
        lemma_open_listing_newest_first(links.drop_last(), project_id);
        let l = links.last();
        if is_open(l) && l.project_id == project_id {
            lemma_insert_by_time_sorted(open_newest_first(links.drop_last(), project_id), l);
        }
    }
}

} // verus!
