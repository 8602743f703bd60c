//! The kind taxonomy of the graph model and the textual name of each kind.
use vstd::prelude::*;
use crate::text::{owned, text_eq};

verus! {

/// The closed set of artifact kinds a node may have.
#[derive(Clone, Copy, Debug, PartialEq, Eq, Hash, Structural)]
pub enum NodeKind {
    Requirement,
    Block,
    Interface,
    Port,
    UseCase,
    Actor,
    TestCase,
    Stakeholder,
    Function,
    External,
    ValueType,
    ConstraintBlock,
    State,
}

impl NodeKind {
    /// The lowercase name under which this value is stored.
    pub open spec fn name(self) -> Seq<char> {
        match self {
            NodeKind::Requirement => "requirement"@,
            NodeKind::Block => "block"@,
            NodeKind::Interface => "interface"@,
            NodeKind::Port => "port"@,
            NodeKind::UseCase => "use_case"@,
            NodeKind::Actor => "actor"@,
            NodeKind::TestCase => "test_case"@,
            NodeKind::Stakeholder => "stakeholder"@,
            NodeKind::Function => "function"@,
            NodeKind::External => "external"@,
            NodeKind::ValueType => "value_type"@,
            NodeKind::ConstraintBlock => "constraint_block"@,
            NodeKind::State => "state"@,
        }
    }

    /// The value stored under `s`, if any.
    pub open spec fn named(s: Seq<char>) -> Option<NodeKind> {
        if s == "requirement"@ {
            Some(NodeKind::Requirement)
        } else if s == "block"@ {
            Some(NodeKind::Block)
        } else if s == "interface"@ {
            Some(NodeKind::Interface)
        } else if s == "port"@ {
            Some(NodeKind::Port)
        } else if s == "use_case"@ {
            Some(NodeKind::UseCase)
        } else if s == "actor"@ {
            Some(NodeKind::Actor)
        } else if s == "test_case"@ {
            Some(NodeKind::TestCase)
        } else if s == "stakeholder"@ {
            Some(NodeKind::Stakeholder)
        } else if s == "function"@ {
            Some(NodeKind::Function)
        } else if s == "external"@ {
            Some(NodeKind::External)
        } else if s == "value_type"@ {
            Some(NodeKind::ValueType)
        } else if s == "constraint_block"@ {
            Some(NodeKind::ConstraintBlock)
        } else if s == "state"@ {
            Some(NodeKind::State)
        } else {
            None
        }
    }

    /// The lowercase name under which this value is stored.
    pub fn as_str(&self) -> (r: &'static str)
        ensures
            r@ == self.name(),
    {
        match self {
            NodeKind::Requirement => "requirement",
            NodeKind::Block => "block",
            NodeKind::Interface => "interface",
            NodeKind::Port => "port",
            NodeKind::UseCase => "use_case",
            NodeKind::Actor => "actor",
            NodeKind::TestCase => "test_case",
            NodeKind::Stakeholder => "stakeholder",
            NodeKind::Function => "function",
            NodeKind::External => "external",
            NodeKind::ValueType => "value_type",
            NodeKind::ConstraintBlock => "constraint_block",
            NodeKind::State => "state",
        }
    }

    /// The value stored under `s`, if any.
    pub fn from_name(s: &str) -> (r: Option<NodeKind>)
        ensures
            r == NodeKind::named(s@),
    {
        if text_eq(s, "requirement") {
            Some(NodeKind::Requirement)
        } else if text_eq(s, "block") {
            Some(NodeKind::Block)
        } else if text_eq(s, "interface") {
            Some(NodeKind::Interface)
        } else if text_eq(s, "port") {
            Some(NodeKind::Port)
        } else if text_eq(s, "use_case") {
            Some(NodeKind::UseCase)
        } else if text_eq(s, "actor") {
            Some(NodeKind::Actor)
        } else if text_eq(s, "test_case") {
            Some(NodeKind::TestCase)
        } else if text_eq(s, "stakeholder") {
            Some(NodeKind::Stakeholder)
        } else if text_eq(s, "function") {
            Some(NodeKind::Function)
        } else if text_eq(s, "external") {
            Some(NodeKind::External)
        } else if text_eq(s, "value_type") {
            Some(NodeKind::ValueType)
        } else if text_eq(s, "constraint_block") {
            Some(NodeKind::ConstraintBlock)
        } else if text_eq(s, "state") {
            Some(NodeKind::State)
        } else {
            None
        }
    }
}

/// The closed set of traceability relations an edge may stand for.
#[derive(Clone, Copy, Debug, PartialEq, Eq, Hash, Structural)]
pub enum EdgeKind {
    Satisfies,
    Refines,
    Allocates,
    Realizes,
    Traces,
    Verifies,
    Connects,
    Composes,
    Specializes,
    Derives,
    Blocks,
    Transition,
    BindingConnector,
}

impl EdgeKind {
    /// The lowercase name under which this value is stored.
    pub open spec fn name(self) -> Seq<char> {
        match self {
            EdgeKind::Satisfies => "satisfies"@,
            EdgeKind::Refines => "refines"@,
            EdgeKind::Allocates => "allocates"@,
            EdgeKind::Realizes => "realizes"@,
            EdgeKind::Traces => "traces"@,
            EdgeKind::Verifies => "verifies"@,
            EdgeKind::Connects => "connects"@,
            EdgeKind::Composes => "composes"@,
            EdgeKind::Specializes => "specializes"@,
            EdgeKind::Derives => "derives"@,
            EdgeKind::Blocks => "blocks"@,
            EdgeKind::Transition => "transition"@,
            EdgeKind::BindingConnector => "binding_connector"@,
        }
    }

    /// The value stored under `s`, if any.
    pub open spec fn named(s: Seq<char>) -> Option<EdgeKind> {
        if s == "satisfies"@ {
            Some(EdgeKind::Satisfies)
        } else if s == "refines"@ {
            Some(EdgeKind::Refines)
        } else if s == "allocates"@ {
            Some(EdgeKind::Allocates)
        } else if s == "realizes"@ {
            Some(EdgeKind::Realizes)
        } else if s == "traces"@ {
            Some(EdgeKind::Traces)
        } else if s == "verifies"@ {
            Some(EdgeKind::Verifies)
        } else if s == "connects"@ {
            Some(EdgeKind::Connects)
        } else if s == "composes"@ {
            Some(EdgeKind::Composes)
        } else if s == "specializes"@ {
            Some(EdgeKind::Specializes)
        } else if s == "derives"@ {
            Some(EdgeKind::Derives)
        } else if s == "blocks"@ {
            Some(EdgeKind::Blocks)
        } else if s == "transition"@ {
            Some(EdgeKind::Transition)
        } else if s == "binding_connector"@ {
            Some(EdgeKind::BindingConnector)
        } else {
            None
        }
    }

    /// The lowercase name under which this value is stored.
    pub fn as_str(&self) -> (r: &'static str)
        ensures
            r@ == self.name(),
    {
        match self {
            EdgeKind::Satisfies => "satisfies",
            EdgeKind::Refines => "refines",
            EdgeKind::Allocates => "allocates",
            EdgeKind::Realizes => "realizes",
            EdgeKind::Traces => "traces",
            EdgeKind::Verifies => "verifies",
            EdgeKind::Connects => "connects",
            EdgeKind::Composes => "composes",
            EdgeKind::Specializes => "specializes",
            EdgeKind::Derives => "derives",
            EdgeKind::Blocks => "blocks",
            EdgeKind::Transition => "transition",
            EdgeKind::BindingConnector => "binding_connector",
        }
    }

    /// The value stored under `s`, if any.
    pub fn from_name(s: &str) -> (r: Option<EdgeKind>)
        ensures
            r == EdgeKind::named(s@),
    {
        if text_eq(s, "satisfies") {
            Some(EdgeKind::Satisfies)
        } else if text_eq(s, "refines") {
            Some(EdgeKind::Refines)
        } else if text_eq(s, "allocates") {
            Some(EdgeKind::Allocates)
        } else if text_eq(s, "realizes") {
            Some(EdgeKind::Realizes)
        } else if text_eq(s, "traces") {
            Some(EdgeKind::Traces)
        } else if text_eq(s, "verifies") {
            Some(EdgeKind::Verifies)
        } else if text_eq(s, "connects") {
            Some(EdgeKind::Connects)
        } else if text_eq(s, "composes") {
            Some(EdgeKind::Composes)
        } else if text_eq(s, "specializes") {
            Some(EdgeKind::Specializes)
        } else if text_eq(s, "derives") {
            Some(EdgeKind::Derives)
        } else if text_eq(s, "blocks") {
            Some(EdgeKind::Blocks)
        } else if text_eq(s, "transition") {
            Some(EdgeKind::Transition)
        } else if text_eq(s, "binding_connector") {
            Some(EdgeKind::BindingConnector)
        } else {
            None
        }
    }
}

/// The kinds of diagram a project may hold.
#[derive(Clone, Copy, Debug, PartialEq, Eq, Hash, Structural)]
pub enum DiagramKind {
    Bdd,
    Ibd,
    UseCase,
    Sequence,
    StateMachine,
    Parametric,
}

impl DiagramKind {
    /// The lowercase name under which this value is stored.
    pub open spec fn name(self) -> Seq<char> {
        match self {
            DiagramKind::Bdd => "bdd"@,
            DiagramKind::Ibd => "ibd"@,
            DiagramKind::UseCase => "usecase"@,
            DiagramKind::Sequence => "sequence"@,
            DiagramKind::StateMachine => "statemachine"@,
            DiagramKind::Parametric => "parametric"@,
        }
    }

    /// The value stored under `s`, if any.
    pub open spec fn named(s: Seq<char>) -> Option<DiagramKind> {
        if s == "bdd"@ {
            Some(DiagramKind::Bdd)
        } else if s == "ibd"@ {
            Some(DiagramKind::Ibd)
        } else if s == "usecase"@ {
            Some(DiagramKind::UseCase)
        } else if s == "sequence"@ {
            Some(DiagramKind::Sequence)
        } else if s == "statemachine"@ {
            Some(DiagramKind::StateMachine)
        } else if s == "parametric"@ {
            Some(DiagramKind::Parametric)
        } else {
            None
        }
    }

    /// The lowercase name under which this value is stored.
    pub fn as_str(&self) -> (r: &'static str)
        ensures
            r@ == self.name(),
    {
        match self {
            DiagramKind::Bdd => "bdd",
            DiagramKind::Ibd => "ibd",
            DiagramKind::UseCase => "usecase",
            DiagramKind::Sequence => "sequence",
            DiagramKind::StateMachine => "statemachine",
            DiagramKind::Parametric => "parametric",
        }
    }

    /// The value stored under `s`, if any.
    pub fn from_name(s: &str) -> (r: Option<DiagramKind>)
        ensures
            r == DiagramKind::named(s@),
    {
        if text_eq(s, "bdd") {
            Some(DiagramKind::Bdd)
        } else if text_eq(s, "ibd") {
            Some(DiagramKind::Ibd)
        } else if text_eq(s, "usecase") {
            Some(DiagramKind::UseCase)
        } else if text_eq(s, "sequence") {
            Some(DiagramKind::Sequence)
        } else if text_eq(s, "statemachine") {
            Some(DiagramKind::StateMachine)
        } else if text_eq(s, "parametric") {
            Some(DiagramKind::Parametric)
        } else {
            None
        }
    }
}

/// How binding a requirement is.
#[derive(Clone, Copy, Debug, PartialEq, Eq, Hash, Structural)]
pub enum RequirementPriority {
    Shall,
    Should,
    May,
}

impl RequirementPriority {
    /// The lowercase name under which this value is stored.
    pub open spec fn name(self) -> Seq<char> {
        match self {
            RequirementPriority::Shall => "shall"@,
            RequirementPriority::Should => "should"@,
            RequirementPriority::May => "may"@,
        }
    }

    /// The value stored under `s`, if any.
    pub open spec fn named(s: Seq<char>) -> Option<RequirementPriority> {
        if s == "shall"@ {
            Some(RequirementPriority::Shall)
        } else if s == "should"@ {
            Some(RequirementPriority::Should)
        } else if s == "may"@ {
            Some(RequirementPriority::May)
        } else {
            None
        }
    }

    /// The lowercase name under which this value is stored.
    pub fn as_str(&self) -> (r: &'static str)
        ensures
            r@ == self.name(),
    {
        match self {
            RequirementPriority::Shall => "shall",
            RequirementPriority::Should => "should",
            RequirementPriority::May => "may",
        }
    }

    /// The value stored under `s`, if any.
    pub fn from_name(s: &str) -> (r: Option<RequirementPriority>)
        ensures
            r == RequirementPriority::named(s@),
    {
        if text_eq(s, "shall") {
            Some(RequirementPriority::Shall)
        } else if text_eq(s, "should") {
            Some(RequirementPriority::Should)
        } else if text_eq(s, "may") {
            Some(RequirementPriority::May)
        } else {
            None
        }
    }
}

/// Where a requirement stands in its approval cycle.
#[derive(Clone, Copy, Debug, PartialEq, Eq, Hash, Structural)]
pub enum RequirementStatus {
    Draft,
    Approved,
    Obsolete,
}

impl RequirementStatus {
    /// The lowercase name under which this value is stored.
    pub open spec fn name(self) -> Seq<char> {
        match self {
            RequirementStatus::Draft => "draft"@,
            RequirementStatus::Approved => "approved"@,
            RequirementStatus::Obsolete => "obsolete"@,
        }
    }

    /// The value stored under `s`, if any.
    pub open spec fn named(s: Seq<char>) -> Option<RequirementStatus> {
        if s == "draft"@ {
            Some(RequirementStatus::Draft)
        } else if s == "approved"@ {
            Some(RequirementStatus::Approved)
        } else if s == "obsolete"@ {
            Some(RequirementStatus::Obsolete)
        } else {
            None
        }
    }

    /// The lowercase name under which this value is stored.
    pub fn as_str(&self) -> (r: &'static str)
        ensures
            r@ == self.name(),
    {
        match self {
            RequirementStatus::Draft => "draft",
            RequirementStatus::Approved => "approved",
            RequirementStatus::Obsolete => "obsolete",
        }
    }

    /// The value stored under `s`, if any.
    pub fn from_name(s: &str) -> (r: Option<RequirementStatus>)
        ensures
            r == RequirementStatus::named(s@),
    {
        if text_eq(s, "draft") {
            Some(RequirementStatus::Draft)
        } else if text_eq(s, "approved") {
            Some(RequirementStatus::Approved)
        } else if text_eq(s, "obsolete") {
            Some(RequirementStatus::Obsolete)
        } else {
            None
        }
    }
}

/// How a requirement is to be verified.
#[derive(Clone, Copy, Debug, PartialEq, Eq, Hash, Structural)]
pub enum VerificationMethod {
    Analysis,
    Test,
    Inspection,
    Demonstration,
}

impl VerificationMethod {
    /// The lowercase name under which this value is stored.
    pub open spec fn name(self) -> Seq<char> {
        match self {
            VerificationMethod::Analysis => "analysis"@,
            VerificationMethod::Test => "test"@,
            VerificationMethod::Inspection => "inspection"@,
            VerificationMethod::Demonstration => "demonstration"@,
        }
    }

    /// The value stored under `s`, if any.
    pub open spec fn named(s: Seq<char>) -> Option<VerificationMethod> {
        if s == "analysis"@ {
            Some(VerificationMethod::Analysis)
        } else if s == "test"@ {
            Some(VerificationMethod::Test)
        } else if s == "inspection"@ {
            Some(VerificationMethod::Inspection)
        } else if s == "demonstration"@ {
            Some(VerificationMethod::Demonstration)
        } else {
            None
        }
    }

    /// The lowercase name under which this value is stored.
    pub fn as_str(&self) -> (r: &'static str)
        ensures
            r@ == self.name(),
    {
        match self {
            VerificationMethod::Analysis => "analysis",
            VerificationMethod::Test => "test",
            VerificationMethod::Inspection => "inspection",
            VerificationMethod::Demonstration => "demonstration",
        }
    }

    /// The value stored under `s`, if any.
    pub fn from_name(s: &str) -> (r: Option<VerificationMethod>)
        ensures
            r == VerificationMethod::named(s@),
    {
        if text_eq(s, "analysis") {
            Some(VerificationMethod::Analysis)
        } else if text_eq(s, "test") {
            Some(VerificationMethod::Test)
        } else if text_eq(s, "inspection") {
            Some(VerificationMethod::Inspection)
        } else if text_eq(s, "demonstration") {
            Some(VerificationMethod::Demonstration)
        } else {
            None
        }
    }
}

/// The direction of flow through a port.
#[derive(Clone, Copy, Debug, PartialEq, Eq, Hash, Structural)]
pub enum PortDirection {
    In,
    Out,
    InOut,
}

impl PortDirection {
    /// The lowercase name under which this value is stored.
    pub open spec fn name(self) -> Seq<char> {
        match self {
            PortDirection::In => "in"@,
            PortDirection::Out => "out"@,
            PortDirection::InOut => "inout"@,
        }
    }

    /// The value stored under `s`, if any.
    pub open spec fn named(s: Seq<char>) -> Option<PortDirection> {
        if s == "in"@ {
            Some(PortDirection::In)
        } else if s == "out"@ {
            Some(PortDirection::Out)
        } else if s == "inout"@ {
            Some(PortDirection::InOut)
        } else {
            None
        }
    }

    /// The lowercase name under which this value is stored.
    pub fn as_str(&self) -> (r: &'static str)
        ensures
            r@ == self.name(),
    {
        match self {
            PortDirection::In => "in",
            PortDirection::Out => "out",
            PortDirection::InOut => "inout",
        }
    }

    /// The value stored under `s`, if any.
    pub fn from_name(s: &str) -> (r: Option<PortDirection>)
        ensures
            r == PortDirection::named(s@),
    {
        if text_eq(s, "in") {
            Some(PortDirection::In)
        } else if text_eq(s, "out") {
            Some(PortDirection::Out)
        } else if text_eq(s, "inout") {
            Some(PortDirection::InOut)
        } else {
            None
        }
    }
}

/// The level of detail of a use case.
#[derive(Clone, Copy, Debug, PartialEq, Eq, Hash, Structural)]
pub enum UseCaseLevel {
    Summary,
    User,
    Subfunction,
}

impl UseCaseLevel {
    /// The lowercase name under which this value is stored.
    pub open spec fn name(self) -> Seq<char> {
        match self {
            UseCaseLevel::Summary => "summary"@,
            UseCaseLevel::User => "user"@,
            UseCaseLevel::Subfunction => "subfunction"@,
        }
    }

    /// The value stored under `s`, if any.
    pub open spec fn named(s: Seq<char>) -> Option<UseCaseLevel> {
        if s == "summary"@ {
            Some(UseCaseLevel::Summary)
        } else if s == "user"@ {
            Some(UseCaseLevel::User)
        } else if s == "subfunction"@ {
            Some(UseCaseLevel::Subfunction)
        } else {
            None
        }
    }

    /// The lowercase name under which this value is stored.
    pub fn as_str(&self) -> (r: &'static str)
        ensures
            r@ == self.name(),
    {
        match self {
            UseCaseLevel::Summary => "summary",
            UseCaseLevel::User => "user",
            UseCaseLevel::Subfunction => "subfunction",
        }
    }

    /// The value stored under `s`, if any.
    pub fn from_name(s: &str) -> (r: Option<UseCaseLevel>)
        ensures
            r == UseCaseLevel::named(s@),
    {
        if text_eq(s, "summary") {
            Some(UseCaseLevel::Summary)
        } else if text_eq(s, "user") {
            Some(UseCaseLevel::User)
        } else if text_eq(s, "subfunction") {
            Some(UseCaseLevel::Subfunction)
        } else {
            None
        }
    }
}

/// The outcome of the last run of a test case.
#[derive(Clone, Copy, Debug, PartialEq, Eq, Hash, Structural)]
pub enum TestStatus {
    NotRun,
    Pass,
    Fail,
}

impl TestStatus {
    /// The lowercase name under which this value is stored.
    pub open spec fn name(self) -> Seq<char> {
        match self {
            TestStatus::NotRun => "notrun"@,
            TestStatus::Pass => "pass"@,
            TestStatus::Fail => "fail"@,
        }
    }

    /// The value stored under `s`, if any.
    pub open spec fn named(s: Seq<char>) -> Option<TestStatus> {
        if s == "notrun"@ {
            Some(TestStatus::NotRun)
        } else if s == "pass"@ {
            Some(TestStatus::Pass)
        } else if s == "fail"@ {
            Some(TestStatus::Fail)
        } else {
            None
        }
    }

    /// The lowercase name under which this value is stored.
    pub fn as_str(&self) -> (r: &'static str)
        ensures
            r@ == self.name(),
    {
        match self {
            TestStatus::NotRun => "notrun",
            TestStatus::Pass => "pass",
            TestStatus::Fail => "fail",
        }
    }

    /// The value stored under `s`, if any.
    pub fn from_name(s: &str) -> (r: Option<TestStatus>)
        ensures
            r == TestStatus::named(s@),
    {
        if text_eq(s, "notrun") {
            Some(TestStatus::NotRun)
        } else if text_eq(s, "pass") {
            Some(TestStatus::Pass)
        } else if text_eq(s, "fail") {
            Some(TestStatus::Fail)
        } else {
            None
        }
    }
}

/// The role of a section of an imported document.
#[derive(Clone, Copy, Debug, PartialEq, Eq, Hash, Structural)]
pub enum SectionType {
    Heading,
    Paragraph,
    Requirement,
    BomItem,
    BoeLine,
    SowSection,
    IcdInterface,
    ListItem,
}

impl SectionType {
    /// The lowercase name under which this value is stored.
    pub open spec fn name(self) -> Seq<char> {
        match self {
            SectionType::Heading => "heading"@,
            SectionType::Paragraph => "paragraph"@,
            SectionType::Requirement => "requirement"@,
            SectionType::BomItem => "bom_item"@,
            SectionType::BoeLine => "boe_line"@,
            SectionType::SowSection => "sow_section"@,
            SectionType::IcdInterface => "icd_interface"@,
            SectionType::ListItem => "list_item"@,
        }
    }

    /// The value stored under `s`, if any.
    pub open spec fn named(s: Seq<char>) -> Option<SectionType> {
        if s == "heading"@ {
            Some(SectionType::Heading)
        } else if s == "paragraph"@ {
            Some(SectionType::Paragraph)
        } else if s == "requirement"@ {
            Some(SectionType::Requirement)
        } else if s == "bom_item"@ {
            Some(SectionType::BomItem)
        } else if s == "boe_line"@ {
            Some(SectionType::BoeLine)
        } else if s == "sow_section"@ {
            Some(SectionType::SowSection)
        } else if s == "icd_interface"@ {
            Some(SectionType::IcdInterface)
        } else if s == "list_item"@ {
            Some(SectionType::ListItem)
        } else {
            None
        }
    }

    /// The lowercase name under which this value is stored.
    pub fn as_str(&self) -> (r: &'static str)
        ensures
            r@ == self.name(),
    {
        match self {
            SectionType::Heading => "heading",
            SectionType::Paragraph => "paragraph",
            SectionType::Requirement => "requirement",
            SectionType::BomItem => "bom_item",
            SectionType::BoeLine => "boe_line",
            SectionType::SowSection => "sow_section",
            SectionType::IcdInterface => "icd_interface",
            SectionType::ListItem => "list_item",
        }
    }

    /// The value stored under `s`, if any.
    pub fn from_name(s: &str) -> (r: Option<SectionType>)
        ensures
            r == SectionType::named(s@),
    {
        if text_eq(s, "heading") {
            Some(SectionType::Heading)
        } else if text_eq(s, "paragraph") {
            Some(SectionType::Paragraph)
        } else if text_eq(s, "requirement") {
            Some(SectionType::Requirement)
        } else if text_eq(s, "bom_item") {
            Some(SectionType::BomItem)
        } else if text_eq(s, "boe_line") {
            Some(SectionType::BoeLine)
        } else if text_eq(s, "sow_section") {
            Some(SectionType::SowSection)
        } else if text_eq(s, "icd_interface") {
            Some(SectionType::IcdInterface)
        } else if text_eq(s, "list_item") {
            Some(SectionType::ListItem)
        } else {
            None
        }
    }
}

/// The state of a review session.
#[derive(Clone, Copy, Debug, PartialEq, Eq, Hash, Structural)]
pub enum ReviewStatus {
    Open,
    InProgress,
    Approved,
    Rejected,
    Closed,
}

impl ReviewStatus {
    /// The lowercase name under which this value is stored.
    pub open spec fn name(self) -> Seq<char> {
        match self {
            ReviewStatus::Open => "open"@,
            ReviewStatus::InProgress => "in_progress"@,
            ReviewStatus::Approved => "approved"@,
            ReviewStatus::Rejected => "rejected"@,
            ReviewStatus::Closed => "closed"@,
        }
    }

    /// The value stored under `s`, if any.
    pub open spec fn named(s: Seq<char>) -> Option<ReviewStatus> {
        if s == "open"@ {
            Some(ReviewStatus::Open)
        } else if s == "in_progress"@ {
            Some(ReviewStatus::InProgress)
        } else if s == "approved"@ {
            Some(ReviewStatus::Approved)
        } else if s == "rejected"@ {
            Some(ReviewStatus::Rejected)
        } else if s == "closed"@ {
            Some(ReviewStatus::Closed)
        } else {
            None
        }
    }

    /// The lowercase name under which this value is stored.
    pub fn as_str(&self) -> (r: &'static str)
        ensures
            r@ == self.name(),
    {
        match self {
            ReviewStatus::Open => "open",
            ReviewStatus::InProgress => "in_progress",
            ReviewStatus::Approved => "approved",
            ReviewStatus::Rejected => "rejected",
            ReviewStatus::Closed => "closed",
        }
    }

    /// The value stored under `s`, if any.
    pub fn from_name(s: &str) -> (r: Option<ReviewStatus>)
        ensures
            r == ReviewStatus::named(s@),
    {
        if text_eq(s, "open") {
            Some(ReviewStatus::Open)
        } else if text_eq(s, "in_progress") {
            Some(ReviewStatus::InProgress)
        } else if text_eq(s, "approved") {
            Some(ReviewStatus::Approved)
        } else if text_eq(s, "rejected") {
            Some(ReviewStatus::Rejected)
        } else if text_eq(s, "closed") {
            Some(ReviewStatus::Closed)
        } else {
            None
        }
    }
}

impl EdgeKind {
    /// The capitalised name of the relation, as shown in messages.
    pub open spec fn title(self) -> Seq<char> {
        match self {
            EdgeKind::Satisfies => "Satisfies"@,
            EdgeKind::Refines => "Refines"@,
            EdgeKind::Allocates => "Allocates"@,
            EdgeKind::Realizes => "Realizes"@,
            EdgeKind::Traces => "Traces"@,
            EdgeKind::Verifies => "Verifies"@,
            EdgeKind::Connects => "Connects"@,
            EdgeKind::Composes => "Composes"@,
            EdgeKind::Specializes => "Specializes"@,
            EdgeKind::Derives => "Derives"@,
            EdgeKind::Blocks => "Blocks"@,
            EdgeKind::Transition => "Transition"@,
            EdgeKind::BindingConnector => "BindingConnector"@,
        }
    }

    /// The capitalised name of the relation, as shown in messages.
    pub fn as_title(&self) -> (r: &'static str)
        ensures
            r@ == self.title(),
    {
        match self {
            EdgeKind::Satisfies => "Satisfies",
            EdgeKind::Refines => "Refines",
            EdgeKind::Allocates => "Allocates",
            EdgeKind::Realizes => "Realizes",
            EdgeKind::Traces => "Traces",
            EdgeKind::Verifies => "Verifies",
            EdgeKind::Connects => "Connects",
            EdgeKind::Composes => "Composes",
            EdgeKind::Specializes => "Specializes",
            EdgeKind::Derives => "Derives",
            EdgeKind::Blocks => "Blocks",
            EdgeKind::Transition => "Transition",
            EdgeKind::BindingConnector => "BindingConnector",
        }
    }
}

impl RequirementPriority {
    /// The capitalised name of the value, as shown in documents.
    pub open spec fn title(self) -> Seq<char> {
        match self {
            RequirementPriority::Shall => "Shall"@,
            RequirementPriority::Should => "Should"@,
            RequirementPriority::May => "May"@,
        }
    }

    /// The capitalised name of the value, as shown in documents.
    pub fn as_title(&self) -> (r: &'static str)
        ensures
            r@ == self.title(),
    {
        match self {
            RequirementPriority::Shall => "Shall",
            RequirementPriority::Should => "Should",
            RequirementPriority::May => "May",
        }
    }
}

impl RequirementStatus {
    /// The capitalised name of the value, as shown in documents.
    pub open spec fn title(self) -> Seq<char> {
        match self {
            RequirementStatus::Draft => "Draft"@,
            RequirementStatus::Approved => "Approved"@,
            RequirementStatus::Obsolete => "Obsolete"@,
        }
    }

    /// The capitalised name of the value, as shown in documents.
    pub fn as_title(&self) -> (r: &'static str)
        ensures
            r@ == self.title(),
    {
        match self {
            RequirementStatus::Draft => "Draft",
            RequirementStatus::Approved => "Approved",
            RequirementStatus::Obsolete => "Obsolete",
        }
    }
}

impl VerificationMethod {
    /// The capitalised name of the value, as shown in documents.
    pub open spec fn title(self) -> Seq<char> {
        match self {
            VerificationMethod::Analysis => "Analysis"@,
            VerificationMethod::Test => "Test"@,
            VerificationMethod::Inspection => "Inspection"@,
            VerificationMethod::Demonstration => "Demonstration"@,
        }
    }

    /// The capitalised name of the value, as shown in documents.
    pub fn as_title(&self) -> (r: &'static str)
        ensures
            r@ == self.title(),
    {
        match self {
            VerificationMethod::Analysis => "Analysis",
            VerificationMethod::Test => "Test",
            VerificationMethod::Inspection => "Inspection",
            VerificationMethod::Demonstration => "Demonstration",
        }
    }
}

/// Reads a stored node kind.
/// Any other text is refused with the message `unknown node kind: <text>`.
pub fn parse_node_kind(s: &str) -> (r: Result<NodeKind, String>)
    ensures
        match r {
            Ok(k) => NodeKind::named(s@) == Some(k),
            Err(e) => NodeKind::named(s@) is None && e@ == "unknown node kind: "@ + s@,
        },
{
    match NodeKind::from_name(s) {
        Some(k) => Ok(k),
        None => {
            let mut e = owned("unknown node kind: ");
            e.append(s);
            Err(e)
        },
    }
}

/// Reads a stored edge kind.
/// Any other text is refused with the message `unknown edge kind: <text>`.
pub fn parse_edge_kind(s: &str) -> (r: Result<EdgeKind, String>)
    ensures
        match r {
            Ok(k) => EdgeKind::named(s@) == Some(k),
            Err(e) => EdgeKind::named(s@) is None && e@ == "unknown edge kind: "@ + s@,
        },
{
    match EdgeKind::from_name(s) {
        Some(k) => Ok(k),
        None => {
            let mut e = owned("unknown edge kind: ");
            e.append(s);
            Err(e)
        },
    }
}

/// Reads a stored diagram kind.
/// Any other text is refused with the message `unknown diagram kind: <text>`.
pub fn parse_diagram_kind(s: &str) -> (r: Result<DiagramKind, String>)
    ensures
        match r {
            Ok(k) => DiagramKind::named(s@) == Some(k),
            Err(e) => DiagramKind::named(s@) is None && e@ == "unknown diagram kind: "@ + s@,
        },
{
    match DiagramKind::from_name(s) {
        Some(k) => Ok(k),
        None => {
            let mut e = owned("unknown diagram kind: ");
            e.append(s);
            Err(e)
        },
    }
}

/// Reads a stored verification method.
/// Any other text is refused with the message `unknown verification method: <text>`.
pub fn parse_verification_method(s: &str) -> (r: Result<VerificationMethod, String>)
    ensures
        match r {
            Ok(k) => VerificationMethod::named(s@) == Some(k),
            Err(e) => VerificationMethod::named(s@) is None && e@ == "unknown verification method: "@ + s@,
        },
{
    match VerificationMethod::from_name(s) {
        Some(k) => Ok(k),
        None => {
            let mut e = owned("unknown verification method: ");
            e.append(s);
            Err(e)
        },
    }
}

/// The stored name of a diagram kind.
pub fn diagram_kind_str(k: &DiagramKind) -> (r: &'static str)
    ensures
        r@ == k.name(),
{
    k.as_str()
}

/// Reads a stored requirement priority.
/// A missing or unknown name reads as `RequirementPriority::Should`.
pub fn parse_req_priority(s: Option<&str>) -> (r: RequirementPriority)
    ensures
        r == (match s {
            Some(t) => match RequirementPriority::named(t@) {
                Some(k) => k,
                None => RequirementPriority::Should,
            },
            None => RequirementPriority::Should,
        }),
{
    match s {
        Some(t) => match RequirementPriority::from_name(t) {
            Some(k) => k,
            None => RequirementPriority::Should,
        },
        None => RequirementPriority::Should,
    }
}

/// Reads a stored requirement status.
/// A missing or unknown name reads as `RequirementStatus::Draft`.
pub fn parse_req_status(s: Option<&str>) -> (r: RequirementStatus)
    ensures
        r == (match s {
            Some(t) => match RequirementStatus::named(t@) {
                Some(k) => k,
                None => RequirementStatus::Draft,
            },
            None => RequirementStatus::Draft,
        }),
{
    match s {
        Some(t) => match RequirementStatus::from_name(t) {
            Some(k) => k,
            None => RequirementStatus::Draft,
        },
        None => RequirementStatus::Draft,
    }
}

/// Reads a stored port direction.
/// A missing or unknown name reads as `PortDirection::InOut`.
pub fn parse_port_direction(s: Option<&str>) -> (r: PortDirection)
    ensures
        r == (match s {
            Some(t) => match PortDirection::named(t@) {
                Some(k) => k,
                None => PortDirection::InOut,
            },
            None => PortDirection::InOut,
        }),
{
    match s {
        Some(t) => match PortDirection::from_name(t) {
            Some(k) => k,
            None => PortDirection::InOut,
        },
        None => PortDirection::InOut,
    }
}

/// Reads a stored use-case level.
/// A missing or unknown name reads as `UseCaseLevel::User`.
pub fn parse_uc_level(s: Option<&str>) -> (r: UseCaseLevel)
    ensures
        r == (match s {
            Some(t) => match UseCaseLevel::named(t@) {
                Some(k) => k,
                None => UseCaseLevel::User,
            },
            None => UseCaseLevel::User,
        }),
{
    match s {
        Some(t) => match UseCaseLevel::from_name(t) {
            Some(k) => k,
            None => UseCaseLevel::User,
        },
        None => UseCaseLevel::User,
    }
}

/// Reads a stored test status.
/// A missing or unknown name reads as `TestStatus::NotRun`.
pub fn parse_test_status(s: Option<&str>) -> (r: TestStatus)
    ensures
        r == (match s {
            Some(t) => match TestStatus::named(t@) {
                Some(k) => k,
                None => TestStatus::NotRun,
            },
            None => TestStatus::NotRun,
        }),
{
    match s {
        Some(t) => match TestStatus::from_name(t) {
            Some(k) => k,
            None => TestStatus::NotRun,
        },
        None => TestStatus::NotRun,
    }
}

impl SectionType {
    /// Reads a stored section type.
    /// Any unknown name reads as `SectionType::Paragraph`.
    pub fn parse_or_default(s: &str) -> (r: SectionType)
        ensures
            r == (match SectionType::named(s@) {
                Some(k) => k,
                None => SectionType::Paragraph,
            }),
    {
        match SectionType::from_name(s) {
            Some(k) => k,
            None => SectionType::Paragraph,
        }
    }
}

impl ReviewStatus {
    /// Reads a stored review status.
    /// Any unknown name reads as `ReviewStatus::Open`.
    pub fn parse_or_default(s: &str) -> (r: ReviewStatus)
        ensures
            r == (match ReviewStatus::named(s@) {
                Some(k) => k,
                None => ReviewStatus::Open,
            }),
    {
        match ReviewStatus::from_name(s) {
            Some(k) => k,
            None => ReviewStatus::Open,
        }
    }
}

/// The stored name of every node kind reads back as that same value.
pub proof fn lemma_node_kind_name_round_trip(k: NodeKind)
    ensures
        NodeKind::named(k.name()) == Some(k),
{
    reveal_strlit("requirement");
    reveal_strlit("block");
    reveal_strlit("interface");
    reveal_strlit("port");
    reveal_strlit("use_case");
    reveal_strlit("actor");
    reveal_strlit("test_case");
    reveal_strlit("stakeholder");
    reveal_strlit("function");
    reveal_strlit("external");
    reveal_strlit("value_type");
    reveal_strlit("constraint_block");
    reveal_strlit("state");
    assert("requirement"@.len() == 11);
    assert("block"@.len() == 5);
    assert("interface"@.len() == 9);
    assert("port"@.len() == 4);
    assert("use_case"@.len() == 8);
    assert("actor"@.len() == 5);
    assert("test_case"@.len() == 9);
    assert("stakeholder"@.len() == 11);
    assert("function"@.len() == 8);
    assert("external"@.len() == 8);
    assert("value_type"@.len() == 10);
    assert("constraint_block"@.len() == 16);
    assert("state"@.len() == 5);
    assert("requirement"@[0] == 'r');
    assert("stakeholder"@[0] == 's');
    assert("block"@[0] == 'b');
    assert("state"@[0] == 's');
    assert("interface"@[0] == 'i');
    assert("test_case"@[0] == 't');
    assert("actor"@[0] == 'a');
    assert("function"@[0] == 'f');
    assert("use_case"@[0] == 'u');
    assert("external"@[0] == 'e');
}

/// The stored name of every edge kind reads back as that same value.
pub proof fn lemma_edge_kind_name_round_trip(k: EdgeKind)
    ensures
        EdgeKind::named(k.name()) == Some(k),
{
    reveal_strlit("satisfies");
    reveal_strlit("refines");
    reveal_strlit("allocates");
    reveal_strlit("realizes");
    reveal_strlit("traces");
    reveal_strlit("verifies");
    reveal_strlit("connects");
    reveal_strlit("composes");
    reveal_strlit("specializes");
    reveal_strlit("derives");
    reveal_strlit("blocks");
    reveal_strlit("transition");
    reveal_strlit("binding_connector");
    assert("satisfies"@.len() == 9);
    assert("refines"@.len() == 7);
    assert("allocates"@.len() == 9);
    assert("realizes"@.len() == 8);
    assert("traces"@.len() == 6);
    assert("verifies"@.len() == 8);
    assert("connects"@.len() == 8);
    assert("composes"@.len() == 8);
    assert("specializes"@.len() == 11);
    assert("derives"@.len() == 7);
    assert("blocks"@.len() == 6);
    assert("transition"@.len() == 10);
    assert("binding_connector"@.len() == 17);
    assert("allocates"@[0] == 'a');
    assert("satisfies"@[0] == 's');
    assert("realizes"@[0] == 'r');
    assert("verifies"@[0] == 'v');
    assert("connects"@[0] == 'c');
    assert("composes"@[0] == 'c');
    assert("composes"@[2] == 'm');
    assert("connects"@[2] == 'n');
    assert("derives"@[0] == 'd');
    assert("refines"@[0] == 'r');
    assert("blocks"@[0] == 'b');
    assert("traces"@[0] == 't');
}

/// The stored name of every requirement priority reads back as that same value.
pub proof fn lemma_requirement_priority_name_round_trip(k: RequirementPriority)
    ensures
        RequirementPriority::named(k.name()) == Some(k),
{
    reveal_strlit("shall");
    reveal_strlit("should");
    reveal_strlit("may");
    assert("shall"@.len() == 5);
    assert("should"@.len() == 6);
    assert("may"@.len() == 3);
}

/// The stored name of every requirement status reads back as that same value.
pub proof fn lemma_requirement_status_name_round_trip(k: RequirementStatus)
    ensures
        RequirementStatus::named(k.name()) == Some(k),
{
    reveal_strlit("draft");
    reveal_strlit("approved");
    reveal_strlit("obsolete");
    assert("draft"@.len() == 5);
    assert("approved"@.len() == 8);
    assert("obsolete"@.len() == 8);
    assert("approved"@[0] == 'a');
    assert("obsolete"@[0] == 'o');
}

/// The stored name of every verification method reads back as that same value.
pub proof fn lemma_verification_method_name_round_trip(k: VerificationMethod)
    ensures
        VerificationMethod::named(k.name()) == Some(k),
{
    reveal_strlit("analysis");
    reveal_strlit("test");
    reveal_strlit("inspection");
    reveal_strlit("demonstration");
    assert("analysis"@.len() == 8);
    assert("test"@.len() == 4);
    assert("inspection"@.len() == 10);
    assert("demonstration"@.len() == 13);
}
} // verus!
