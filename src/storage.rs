//! The wide row in which a node's kind-specific payload is stored: one
//! column set shared by every kind, where the columns of other kinds stay
//! empty. Enum values are stored by their lowercase names and lists as JSON.
use vstd::prelude::*;
use crate::bindings::{
    encode_string_list, json_string_list_of, json_text_of_string_list, parse_string_list,
    parse_uuid, uuid_text, uuid_text_of, uuid_value_of,
};
use crate::kinds::{
    parse_port_direction, parse_req_priority, parse_req_status, parse_test_status,
    parse_uc_level, parse_verification_method, NodeKind, PortDirection, RequirementPriority,
    RequirementStatus, TestStatus, UseCaseLevel, VerificationMethod,
};
use crate::model::{
    BlockData, ConstraintBlockData, NodeData, PortData, RequirementData, StateData, TestCaseData,
    UseCaseData, ValueTypeData,
};
use crate::text::{owned, texts};

verus! {

/// The kind-specific columns of a stored node.
#[derive(Clone, Debug)]
pub struct NodeColumns {
    pub req_id: Option<String>,
    pub req_text: Option<String>,
    pub req_rationale: Option<String>,
    pub req_priority: Option<String>,
    pub req_status: Option<String>,
    pub req_source: Option<String>,
    pub req_allocations: Option<String>,
    pub req_verification_method: Option<String>,
    pub block_is_abstract: Option<i64>,
    pub block_multiplicity: Option<String>,
    pub port_direction: Option<String>,
    pub port_type_ref: Option<String>,
    pub port_type_name: Option<String>,
    pub port_multiplicity: Option<String>,
    pub uc_level: Option<String>,
    pub tc_procedure: Option<String>,
    pub tc_expected: Option<String>,
    pub tc_status: Option<String>,
    pub sim_params: Option<String>,
    pub sim_script: Option<String>,
    pub vt_base_type: Option<String>,
    pub vt_unit: Option<String>,
    pub vt_constraint: Option<String>,
    pub cb_expression: Option<String>,
    pub cb_parameters: Option<String>,
    pub state_pseudo_kind: Option<String>,
    pub state_entry: Option<String>,
    pub state_exit: Option<String>,
    pub state_do: Option<String>,
}

/// The mathematical value of the columns.
pub struct ColumnsModel {
    pub req_id: Option<Seq<char>>,
    pub req_text: Option<Seq<char>>,
    pub req_rationale: Option<Seq<char>>,
    pub req_priority: Option<Seq<char>>,
    pub req_status: Option<Seq<char>>,
    pub req_source: Option<Seq<char>>,
    pub req_allocations: Option<Seq<char>>,
    pub req_verification_method: Option<Seq<char>>,
    pub block_is_abstract: Option<i64>,
    pub block_multiplicity: Option<Seq<char>>,
    pub port_direction: Option<Seq<char>>,
    pub port_type_ref: Option<Seq<char>>,
    pub port_type_name: Option<Seq<char>>,
    pub port_multiplicity: Option<Seq<char>>,
    pub uc_level: Option<Seq<char>>,
    pub tc_procedure: Option<Seq<char>>,
    pub tc_expected: Option<Seq<char>>,
    pub tc_status: Option<Seq<char>>,
    pub sim_params: Option<Seq<char>>,
    pub sim_script: Option<Seq<char>>,
    pub vt_base_type: Option<Seq<char>>,
    pub vt_unit: Option<Seq<char>>,
    pub vt_constraint: Option<Seq<char>>,
    pub cb_expression: Option<Seq<char>>,
    pub cb_parameters: Option<Seq<char>>,
    pub state_pseudo_kind: Option<Seq<char>>,
    pub state_entry: Option<Seq<char>>,
    pub state_exit: Option<Seq<char>>,
    pub state_do: Option<Seq<char>>,
}

/// The text of an optional string.
pub open spec fn opt_view(o: Option<String>) -> Option<Seq<char>> {
    match o {
        Some(s) => Some(s@),
        None => None,
    }
}

/// The texts of an optional list of strings.
pub open spec fn opt_texts(o: Option<Vec<String>>) -> Option<Seq<Seq<char>>> {
    match o {
        Some(v) => Some(texts(v@)),
        None => None,
    }
}

impl NodeColumns {
    pub open spec fn model(self) -> ColumnsModel {
        ColumnsModel {
            req_id: opt_view(self.req_id),
            req_text: opt_view(self.req_text),
            req_rationale: opt_view(self.req_rationale),
            req_priority: opt_view(self.req_priority),
            req_status: opt_view(self.req_status),
            req_source: opt_view(self.req_source),
            req_allocations: opt_view(self.req_allocations),
            req_verification_method: opt_view(self.req_verification_method),
            block_is_abstract: self.block_is_abstract,
            block_multiplicity: opt_view(self.block_multiplicity),
            port_direction: opt_view(self.port_direction),
            port_type_ref: opt_view(self.port_type_ref),
            port_type_name: opt_view(self.port_type_name),
            port_multiplicity: opt_view(self.port_multiplicity),
            uc_level: opt_view(self.uc_level),
            tc_procedure: opt_view(self.tc_procedure),
            tc_expected: opt_view(self.tc_expected),
            tc_status: opt_view(self.tc_status),
            sim_params: opt_view(self.sim_params),
            sim_script: opt_view(self.sim_script),
            vt_base_type: opt_view(self.vt_base_type),
            vt_unit: opt_view(self.vt_unit),
            vt_constraint: opt_view(self.vt_constraint),
            cb_expression: opt_view(self.cb_expression),
            cb_parameters: opt_view(self.cb_parameters),
            state_pseudo_kind: opt_view(self.state_pseudo_kind),
            state_entry: opt_view(self.state_entry),
            state_exit: opt_view(self.state_exit),
            state_do: opt_view(self.state_do),
        }
    }

    /// Columns that are all empty.
    pub fn none() -> (r: NodeColumns)
        ensures
            r.model() == no_columns(),
    {
        NodeColumns {
            req_id: None,
            req_text: None,
            req_rationale: None,
            req_priority: None,
            req_status: None,
            req_source: None,
            req_allocations: None,
            req_verification_method: None,
            block_is_abstract: None,
            block_multiplicity: None,
            port_direction: None,
            port_type_ref: None,
            port_type_name: None,
            port_multiplicity: None,
            uc_level: None,
            tc_procedure: None,
            tc_expected: None,
            tc_status: None,
            sim_params: None,
            sim_script: None,
            vt_base_type: None,
            vt_unit: None,
            vt_constraint: None,
            cb_expression: None,
            cb_parameters: None,
            state_pseudo_kind: None,
            state_entry: None,
            state_exit: None,
            state_do: None,
        }
    }
}

/// Columns that are all empty.
pub open spec fn no_columns() -> ColumnsModel {
    ColumnsModel {
        req_id: None,
        req_text: None,
        req_rationale: None,
        req_priority: None,
        req_status: None,
        req_source: None,
        req_allocations: None,
        req_verification_method: None,
        block_is_abstract: None,
        block_multiplicity: None,
        port_direction: None,
        port_type_ref: None,
        port_type_name: None,
        port_multiplicity: None,
        uc_level: None,
        tc_procedure: None,
        tc_expected: None,
        tc_status: None,
        sim_params: None,
        sim_script: None,
        vt_base_type: None,
        vt_unit: None,
        vt_constraint: None,
        cb_expression: None,
        cb_parameters: None,
        state_pseudo_kind: None,
        state_entry: None,
        state_exit: None,
        state_do: None,
    }
}

/// How a list of strings is stored: its JSON text, or an empty array when
/// it cannot be encoded.
pub open spec fn list_column(l: Seq<Seq<char>>) -> Seq<char> {
    match json_text_of_string_list(l) {
        Some(t) => t,
        None => "[]"@,
    }
}

/// The columns that store a payload.
pub open spec fn data_columns(d: NodeData) -> ColumnsModel {
    match d {
        NodeData::Requirement(r) => ColumnsModel {
            req_id: opt_view(r.req_id),
            req_text: opt_view(r.text),
            req_rationale: opt_view(r.rationale),
            req_priority: Some(r.priority.name()),
            req_status: Some(r.status.name()),
            req_source: opt_view(r.source),
            req_allocations: match r.allocations {
                Some(v) => Some(list_column(texts(v@))),
                None => None,
            },
            req_verification_method: match r.verification_method {
                Some(v) => Some(v.name()),
                None => None,
            },
            block_is_abstract: None,
            block_multiplicity: None,
            port_direction: None,
            port_type_ref: None,
            port_type_name: None,
            port_multiplicity: None,
            uc_level: None,
            tc_procedure: None,
            tc_expected: None,
            tc_status: None,
            sim_params: None,
            sim_script: None,
            vt_base_type: None,
            vt_unit: None,
            vt_constraint: None,
            cb_expression: None,
            cb_parameters: None,
            state_pseudo_kind: None,
            state_entry: None,
            state_exit: None,
            state_do: None,
        },
        NodeData::Block(b) => ColumnsModel {
            req_id: None,
            req_text: None,
            req_rationale: None,
            req_priority: None,
            req_status: None,
            req_source: None,
            req_allocations: None,
            req_verification_method: None,
            block_is_abstract: Some(if b.is_abstract {
                1i64
            } else {
                0i64
            }),
            block_multiplicity: opt_view(b.multiplicity),
            port_direction: None,
            port_type_ref: None,
            port_type_name: None,
            port_multiplicity: None,
            uc_level: None,
            tc_procedure: None,
            tc_expected: None,
            tc_status: None,
            sim_params: opt_view(b.sim_params),
            sim_script: opt_view(b.sim_script),
            vt_base_type: None,
            vt_unit: None,
            vt_constraint: None,
            cb_expression: None,
            cb_parameters: None,
            state_pseudo_kind: None,
            state_entry: None,
            state_exit: None,
            state_do: None,
        },
        NodeData::Port(p) => ColumnsModel {
            req_id: None,
            req_text: None,
            req_rationale: None,
            req_priority: None,
            req_status: None,
            req_source: None,
            req_allocations: None,
            req_verification_method: None,
            block_is_abstract: None,
            block_multiplicity: None,
            port_direction: Some(p.direction.name()),
            port_type_ref: match p.type_ref {
                Some(u) => Some(uuid_text_of(u)),
                None => None,
            },
            port_type_name: opt_view(p.type_label),
            port_multiplicity: opt_view(p.multiplicity),
            uc_level: None,
            tc_procedure: None,
            tc_expected: None,
            tc_status: None,
            sim_params: None,
            sim_script: None,
            vt_base_type: None,
            vt_unit: None,
            vt_constraint: None,
            cb_expression: None,
            cb_parameters: None,
            state_pseudo_kind: None,
            state_entry: None,
            state_exit: None,
            state_do: None,
        },
        NodeData::UseCase(u) => ColumnsModel {
            req_id: None,
            req_text: None,
            req_rationale: None,
            req_priority: None,
            req_status: None,
            req_source: None,
            req_allocations: None,
            req_verification_method: None,
            block_is_abstract: None,
            block_multiplicity: None,
            port_direction: None,
            port_type_ref: None,
            port_type_name: None,
            port_multiplicity: None,
            uc_level: Some(u.level.name()),
            tc_procedure: None,
            tc_expected: None,
            tc_status: None,
            sim_params: None,
            sim_script: None,
            vt_base_type: None,
            vt_unit: None,
            vt_constraint: None,
            cb_expression: None,
            cb_parameters: None,
            state_pseudo_kind: None,
            state_entry: None,
            state_exit: None,
            state_do: None,
        },
        NodeData::TestCase(t) => ColumnsModel {
            req_id: None,
            req_text: None,
            req_rationale: None,
            req_priority: None,
            req_status: None,
            req_source: None,
            req_allocations: None,
            req_verification_method: None,
            block_is_abstract: None,
            block_multiplicity: None,
            port_direction: None,
            port_type_ref: None,
            port_type_name: None,
            port_multiplicity: None,
            uc_level: None,
            tc_procedure: opt_view(t.procedure),
            tc_expected: opt_view(t.expected),
            tc_status: Some(t.status.name()),
            sim_params: None,
            sim_script: None,
            vt_base_type: None,
            vt_unit: None,
            vt_constraint: None,
            cb_expression: None,
            cb_parameters: None,
            state_pseudo_kind: None,
            state_entry: None,
            state_exit: None,
            state_do: None,
        },
        NodeData::ValueType(v) => ColumnsModel {
            req_id: None,
            req_text: None,
            req_rationale: None,
            req_priority: None,
            req_status: None,
            req_source: None,
            req_allocations: None,
            req_verification_method: None,
            block_is_abstract: None,
            block_multiplicity: None,
            port_direction: None,
            port_type_ref: None,
            port_type_name: None,
            port_multiplicity: None,
            uc_level: None,
            tc_procedure: None,
            tc_expected: None,
            tc_status: None,
            sim_params: None,
            sim_script: None,
            vt_base_type: opt_view(v.base_type),
            vt_unit: opt_view(v.unit),
            vt_constraint: opt_view(v.constraint),
            cb_expression: None,
            cb_parameters: None,
            state_pseudo_kind: None,
            state_entry: None,
            state_exit: None,
            state_do: None,
        },
        NodeData::ConstraintBlock(c) => ColumnsModel {
            req_id: None,
            req_text: None,
            req_rationale: None,
            req_priority: None,
            req_status: None,
            req_source: None,
            req_allocations: None,
            req_verification_method: None,
            block_is_abstract: None,
            block_multiplicity: None,
            port_direction: None,
            port_type_ref: None,
            port_type_name: None,
            port_multiplicity: None,
            uc_level: None,
            tc_procedure: None,
            tc_expected: None,
            tc_status: None,
            sim_params: None,
            sim_script: None,
            vt_base_type: None,
            vt_unit: None,
            vt_constraint: None,
            cb_expression: opt_view(c.expression),
            cb_parameters: match c.parameters {
                Some(v) => json_text_of_string_list(texts(v@)),
                None => None,
            },
            state_pseudo_kind: None,
            state_entry: None,
            state_exit: None,
            state_do: None,
        },
        NodeData::State(s) => ColumnsModel {
            req_id: None,
            req_text: None,
            req_rationale: None,
            req_priority: None,
            req_status: None,
            req_source: None,
            req_allocations: None,
            req_verification_method: None,
            block_is_abstract: None,
            block_multiplicity: None,
            port_direction: None,
            port_type_ref: None,
            port_type_name: None,
            port_multiplicity: None,
            uc_level: None,
            tc_procedure: None,
            tc_expected: None,
            tc_status: None,
            sim_params: None,
            sim_script: None,
            vt_base_type: None,
            vt_unit: None,
            vt_constraint: None,
            cb_expression: None,
            cb_parameters: None,
            state_pseudo_kind: opt_view(s.pseudo_kind),
            state_entry: opt_view(s.entry_action),
            state_exit: opt_view(s.exit_action),
            state_do: opt_view(s.do_activity),
        },
        _ => no_columns(),
    }
}

/// A copy of an optional string.
fn copy_opt(o: &Option<String>) -> (r: Option<String>)
    ensures
        opt_view(r) == opt_view(*o),
{
    match o {
        Some(s) => Some(s.clone()),
        None => None,
    }
}

/// The text held by an optional string, borrowed.
fn as_text(o: &Option<String>) -> (r: Option<&str>)
    ensures
        match r {
            Some(t) => opt_view(*o) == Some(t@),
            None => o is None,
        },
{
    match o {
        Some(s) => Some(s.as_str()),
        None => None,
    }
}

/// The list columns of a payload's row read back as the lists written.
pub open spec fn lists_read_back(c: ColumnsModel, d: NodeData) -> bool {
    match d {
        NodeData::Requirement(r) => match r.allocations {
            Some(v) => c.req_allocations matches Some(t) && json_string_list_of(t) == Some(texts(v@)),
            None => c.req_allocations is None,
        },
        NodeData::ConstraintBlock(cb) => match cb.parameters {
            Some(v) => c.cb_parameters matches Some(t) && json_string_list_of(t) == Some(texts(v@)),
            None => c.cb_parameters is None,
        },
        NodeData::Port(p) => match p.type_ref {
            Some(u) => c.port_type_ref matches Some(t) && uuid_value_of(t) == Some(u),
            None => c.port_type_ref is None,
        },
        _ => true,
    }
}

/// Spreads a node's payload over the columns of its row.
pub fn flatten_node_data(data: &NodeData) -> (r: NodeColumns)
    ensures
        r.model() == data_columns(*data),
        lists_read_back(r.model(), *data),
{
    let mut c = NodeColumns::none();
    match data {
        NodeData::Requirement(r) => {
            c.req_id = copy_opt(&r.req_id);
            c.req_text = copy_opt(&r.text);
            c.req_rationale = copy_opt(&r.rationale);
            c.req_priority = Some(owned(r.priority.as_str()));
            c.req_status = Some(owned(r.status.as_str()));
            c.req_source = copy_opt(&r.source);
            c.req_allocations = match &r.allocations {
                Some(v) => match encode_string_list(v) {
                    Some(t) => Some(t),
                    None => Some(owned("[]")),
                },
                None => None,
            };
            c.req_verification_method = match &r.verification_method {
                Some(v) => Some(owned(v.as_str())),
                None => None,
            };
        },
        NodeData::Block(b) => {
            c.block_is_abstract = Some(if b.is_abstract { 1i64 } else { 0i64 });
            c.block_multiplicity = copy_opt(&b.multiplicity);
            c.sim_params = copy_opt(&b.sim_params);
            c.sim_script = copy_opt(&b.sim_script);
        },
        NodeData::Port(p) => {
            c.port_direction = Some(owned(p.direction.as_str()));
            c.port_type_ref = match p.type_ref {
                Some(u) => Some(uuid_text(u)),
                None => None,
            };
            c.port_type_name = copy_opt(&p.type_label);
            c.port_multiplicity = copy_opt(&p.multiplicity);
        },
        NodeData::UseCase(u) => {
            c.uc_level = Some(owned(u.level.as_str()));
        },
        NodeData::TestCase(t) => {
            c.tc_procedure = copy_opt(&t.procedure);
            c.tc_expected = copy_opt(&t.expected);
            c.tc_status = Some(owned(t.status.as_str()));
        },
        NodeData::ValueType(v) => {
            c.vt_base_type = copy_opt(&v.base_type);
            c.vt_unit = copy_opt(&v.unit);
            c.vt_constraint = copy_opt(&v.constraint);
        },
        NodeData::ConstraintBlock(cb) => {
            c.cb_expression = copy_opt(&cb.expression);
            c.cb_parameters = match &cb.parameters {
                Some(v) => encode_string_list(v),
                None => None,
            };
        },
        NodeData::State(s) => {
            c.state_pseudo_kind = copy_opt(&s.pseudo_kind);
            c.state_entry = copy_opt(&s.entry_action);
            c.state_exit = copy_opt(&s.exit_action);
            c.state_do = copy_opt(&s.do_activity);
        },
        _ => {},
    }
    c
}

/// A stored enum name read with a default, as the `parse_*` functions do.
pub open spec fn priority_from(o: Option<Seq<char>>) -> RequirementPriority {
    match o {
        Some(t) => match RequirementPriority::named(t) {
            Some(k) => k,
            None => RequirementPriority::Should,
        },
        None => RequirementPriority::Should,
    }
}

pub open spec fn status_from(o: Option<Seq<char>>) -> RequirementStatus {
    match o {
        Some(t) => match RequirementStatus::named(t) {
            Some(k) => k,
            None => RequirementStatus::Draft,
        },
        None => RequirementStatus::Draft,
    }
}

pub open spec fn direction_from(o: Option<Seq<char>>) -> PortDirection {
    match o {
        Some(t) => match PortDirection::named(t) {
            Some(k) => k,
            None => PortDirection::InOut,
        },
        None => PortDirection::InOut,
    }
}

pub open spec fn level_from(o: Option<Seq<char>>) -> UseCaseLevel {
    match o {
        Some(t) => match UseCaseLevel::named(t) {
            Some(k) => k,
            None => UseCaseLevel::User,
        },
        None => UseCaseLevel::User,
    }
}

pub open spec fn test_status_from(o: Option<Seq<char>>) -> TestStatus {
    match o {
        Some(t) => match TestStatus::named(t) {
            Some(k) => k,
            None => TestStatus::NotRun,
        },
        None => TestStatus::NotRun,
    }
}

/// The allocation list of a stored requirement: unreadable or empty lists
/// read as absent.
pub open spec fn allocations_from(o: Option<Seq<char>>) -> Option<Seq<Seq<char>>> {
    match o {
        Some(t) => match json_string_list_of(t) {
            Some(l) => if l.len() == 0 {
                None
            } else {
                Some(l)
            },
            None => None,
        },
        None => None,
    }
}

/// Why the columns of a row of the given kind cannot be read back, if they
/// cannot: an unknown verification method or an unreadable port type reference.
pub open spec fn build_failure(kind: NodeKind, c: ColumnsModel) -> Option<Seq<char>> {
    match kind {
        NodeKind::Requirement => match c.req_verification_method {
            Some(t) => if VerificationMethod::named(t) is None {
                Some("unknown verification method: "@ + t)
            } else {
                None
            },
            None => None,
        },
        NodeKind::Port => match c.port_type_ref {
            Some(t) => if uuid_value_of(t) is None {
                Some("invalid port type reference: "@ + t)
            } else {
                None
            },
            None => None,
        },
        _ => None,
    }
}

/// `d` is the payload of kind `kind` that the columns `c` hold.
pub open spec fn built_from(kind: NodeKind, c: ColumnsModel, d: NodeData) -> bool {
    match kind {
        NodeKind::Requirement => d matches NodeData::Requirement(r) && {
            &&& opt_view(r.req_id) == c.req_id
            &&& opt_view(r.text) == c.req_text
            &&& opt_view(r.rationale) == c.req_rationale
            &&& r.priority == priority_from(c.req_priority)
            &&& r.status == status_from(c.req_status)
            &&& opt_view(r.source) == c.req_source
            &&& opt_texts(r.allocations) == allocations_from(c.req_allocations)
            &&& r.verification_method == match c.req_verification_method {
                Some(t) => VerificationMethod::named(t),
                None => None,
            }
        },
        NodeKind::Block => d matches NodeData::Block(b) && {
            &&& b.is_abstract == (match c.block_is_abstract {
                Some(x) => x != 0,
                None => false,
            })
            &&& opt_view(b.multiplicity) == c.block_multiplicity
            &&& opt_view(b.sim_params) == c.sim_params
            &&& opt_view(b.sim_script) == c.sim_script
        },
        NodeKind::Port => d matches NodeData::Port(p) && {
            &&& p.direction == direction_from(c.port_direction)
            &&& p.type_ref == match c.port_type_ref {
                Some(t) => uuid_value_of(t),
                None => None,
            }
            &&& opt_view(p.type_label) == c.port_type_name
            &&& opt_view(p.multiplicity) == c.port_multiplicity
        },
        NodeKind::UseCase => d matches NodeData::UseCase(u) && u.level == level_from(c.uc_level),
        NodeKind::TestCase => d matches NodeData::TestCase(t) && {
            &&& opt_view(t.procedure) == c.tc_procedure
            &&& opt_view(t.expected) == c.tc_expected
            &&& t.status == test_status_from(c.tc_status)
        },
        NodeKind::Interface => d is Interface,
        NodeKind::Actor => d is Actor,
        NodeKind::Stakeholder => d is Stakeholder,
        NodeKind::Function => d is Function,
        NodeKind::External => d is External,
        NodeKind::ValueType => d matches NodeData::ValueType(v) && {
            &&& opt_view(v.base_type) == c.vt_base_type
            &&& opt_view(v.unit) == c.vt_unit
            &&& opt_view(v.constraint) == c.vt_constraint
        },
        NodeKind::ConstraintBlock => d matches NodeData::ConstraintBlock(cb) && {
            &&& opt_view(cb.expression) == c.cb_expression
            &&& opt_texts(cb.parameters) == match c.cb_parameters {
                Some(t) => json_string_list_of(t),
                None => None,
            }
        },
        NodeKind::State => d matches NodeData::State(s) && {
            &&& opt_view(s.pseudo_kind) == c.state_pseudo_kind
            &&& opt_view(s.entry_action) == c.state_entry
            &&& opt_view(s.exit_action) == c.state_exit
            &&& opt_view(s.do_activity) == c.state_do
        },
    }
}

/// A list of strings read from a column, if it is readable.
fn read_list(o: &Option<String>) -> (r: Option<Vec<String>>)
    ensures
        opt_texts(r) == match opt_view(*o) {
            Some(t) => json_string_list_of(t),
            None => None,
        },
{
    match o {
        Some(raw) => parse_string_list(raw.as_str()),
        None => None,
    }
}

/// Reads the payload of a node of kind `kind` back from the columns of its
/// row, or says why it cannot.
pub fn build_node_data(kind: &NodeKind, row: &NodeColumns) -> (r: Result<NodeData, String>)
    ensures
        match r {
            Ok(d) => build_failure(*kind, row.model()) is None && built_from(*kind, row.model(), d),
            Err(e) => build_failure(*kind, row.model()) == Some(e@),
        },
{
    match kind {
        NodeKind::Requirement => {
            let verification_method = match &row.req_verification_method {
                Some(t) => match parse_verification_method(t.as_str()) {
                    Ok(v) => Some(v),
                    Err(e) => return Err(e),
                },
                None => None,
            };
            let allocations = match read_list(&row.req_allocations) {
                Some(list) => if list.len() == 0 {
                    None
                } else {
                    Some(list)
                },
                None => None,
            };
            Ok(NodeData::Requirement(RequirementData {
                req_id: copy_opt(&row.req_id),
                text: copy_opt(&row.req_text),
                rationale: copy_opt(&row.req_rationale),
                priority: parse_req_priority(as_text(&row.req_priority)),
                status: parse_req_status(as_text(&row.req_status)),
                source: copy_opt(&row.req_source),
                allocations,
                verification_method,
            }))
        },
        NodeKind::Block => Ok(NodeData::Block(BlockData {
            is_abstract: match row.block_is_abstract {
                Some(x) => x != 0,
                None => false,
            },
            multiplicity: copy_opt(&row.block_multiplicity),
            sim_params: copy_opt(&row.sim_params),
            sim_script: copy_opt(&row.sim_script),
        })),
        NodeKind::Port => {
            let type_ref = match &row.port_type_ref {
                Some(t) => match parse_uuid(t.as_str()) {
                    Some(u) => Some(u),
                    None => {
                        let mut e = owned("invalid port type reference: ");
                        e.append(t.as_str());
                        return Err(e);
                    },
                },
                None => None,
            };
            Ok(NodeData::Port(PortData {
                direction: parse_port_direction(as_text(&row.port_direction)),
                type_ref,
                type_label: copy_opt(&row.port_type_name),
                multiplicity: copy_opt(&row.port_multiplicity),
            }))
        },
        NodeKind::UseCase => Ok(NodeData::UseCase(UseCaseData {
            level: parse_uc_level(as_text(&row.uc_level)),
        })),
        NodeKind::TestCase => Ok(NodeData::TestCase(TestCaseData {
            procedure: copy_opt(&row.tc_procedure),
            expected: copy_opt(&row.tc_expected),
            status: parse_test_status(as_text(&row.tc_status)),
        })),
        NodeKind::Interface => Ok(NodeData::Interface),
        NodeKind::Actor => Ok(NodeData::Actor),
        NodeKind::Stakeholder => Ok(NodeData::Stakeholder),
        NodeKind::Function => Ok(NodeData::Function),
        NodeKind::External => Ok(NodeData::External),
        NodeKind::ValueType => Ok(NodeData::ValueType(ValueTypeData {
            base_type: copy_opt(&row.vt_base_type),
            unit: copy_opt(&row.vt_unit),
            constraint: copy_opt(&row.vt_constraint),
        })),
        NodeKind::ConstraintBlock => Ok(NodeData::ConstraintBlock(ConstraintBlockData {
            expression: copy_opt(&row.cb_expression),
            parameters: read_list(&row.cb_parameters),
        })),
        NodeKind::State => Ok(NodeData::State(StateData {
            pseudo_kind: copy_opt(&row.state_pseudo_kind),
            entry_action: copy_opt(&row.state_entry),
            exit_action: copy_opt(&row.state_exit),
            do_activity: copy_opt(&row.state_do),
        })),
    }
}

} // verus!
