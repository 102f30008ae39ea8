//! Identifiers of the coordinator's domain: tenants, projects, users,
//! nodes, runs and the rest. Each is a string with its own type.
use crate::replicate::Replicate;
use vstd::prelude::*;

verus! {

#[derive(Clone, Debug, PartialEq, Eq, PartialOrd, Ord, Hash)]
pub struct TenantId {
    value: String,
}

#[derive(Clone, Debug, PartialEq, Eq, PartialOrd, Ord, Hash)]
pub struct ProjectId {
    value: String,
}

#[derive(Clone, Debug, PartialEq, Eq, PartialOrd, Ord, Hash)]
pub struct UserId {
    value: String,
}

#[derive(Clone, Debug, PartialEq, Eq, PartialOrd, Ord, Hash)]
pub struct NodeId {
    value: String,
}

#[derive(Clone, Debug, PartialEq, Eq, PartialOrd, Ord, Hash)]
pub struct AgentId {
    value: String,
}

#[derive(Clone, Debug, PartialEq, Eq, PartialOrd, Ord, Hash)]
pub struct RunId {
    value: String,
}

#[derive(Clone, Debug, PartialEq, Eq, PartialOrd, Ord, Hash)]
pub struct ProcessId {
    value: String,
}

#[derive(Clone, Debug, PartialEq, Eq, PartialOrd, Ord, Hash)]
pub struct TaskInstanceId {
    value: String,
}

#[derive(Clone, Debug, PartialEq, Eq, PartialOrd, Ord, Hash)]
pub struct TriggerId {
    value: String,
}

impl View for TenantId {
    type V = Seq<char>;

    closed spec fn view(&self) -> Seq<char> {
        self.value@
    }
}

impl View for ProjectId {
    type V = Seq<char>;

    closed spec fn view(&self) -> Seq<char> {
        self.value@
    }
}

impl View for UserId {
    type V = Seq<char>;

    closed spec fn view(&self) -> Seq<char> {
        self.value@
    }
}

impl View for NodeId {
    type V = Seq<char>;

    closed spec fn view(&self) -> Seq<char> {
        self.value@
    }
}

impl View for AgentId {
    type V = Seq<char>;

    closed spec fn view(&self) -> Seq<char> {
        self.value@
    }
}

impl View for RunId {
    type V = Seq<char>;

    closed spec fn view(&self) -> Seq<char> {
        self.value@
    }
}

impl View for ProcessId {
    type V = Seq<char>;

    closed spec fn view(&self) -> Seq<char> {
        self.value@
    }
}

impl View for TaskInstanceId {
    type V = Seq<char>;

    closed spec fn view(&self) -> Seq<char> {
        self.value@
    }
}

impl View for TriggerId {
    type V = Seq<char>;

    closed spec fn view(&self) -> Seq<char> {
        self.value@
    }
}

impl TenantId {
    pub fn new(value: String) -> (id: Self)
        ensures
            id@ == value@,
    {
        TenantId { value }
    }

    pub fn as_str(&self) -> (s: &str)
        ensures
            s@ == self@,
    {
        self.value.as_str()
    }

    /// A second identifier with the same text.
    pub fn duplicate(&self) -> (id: Self)
        ensures
            id@ == self@,
    {
        TenantId { value: self.value.clone() }
    }
}

impl ProjectId {
    pub fn new(value: String) -> (id: Self)
        ensures
            id@ == value@,
    {
        ProjectId { value }
    }

    pub fn as_str(&self) -> (s: &str)
        ensures
            s@ == self@,
    {
        self.value.as_str()
    }

    /// A second identifier with the same text.
    pub fn duplicate(&self) -> (id: Self)
        ensures
            id@ == self@,
    {
        ProjectId { value: self.value.clone() }
    }
}

impl UserId {
    pub fn new(value: String) -> (id: Self)
        ensures
            id@ == value@,
    {
        UserId { value }
    }

    pub fn as_str(&self) -> (s: &str)
        ensures
            s@ == self@,
    {
        self.value.as_str()
    }
}

impl NodeId {
    pub fn new(value: String) -> (id: Self)
        ensures
            id@ == value@,
    {
        NodeId { value }
    }

    pub fn as_str(&self) -> (s: &str)
        ensures
            s@ == self@,
    {
        self.value.as_str()
    }

    /// A second identifier with the same text.
    pub fn duplicate(&self) -> (id: Self)
        ensures
            id@ == self@,
    {
        NodeId { value: self.value.clone() }
    }
}

impl AgentId {
    pub fn new(value: String) -> (id: Self)
        ensures
            id@ == value@,
    {
        AgentId { value }
    }

    pub fn as_str(&self) -> (s: &str)
        ensures
            s@ == self@,
    {
        self.value.as_str()
    }
}

impl RunId {
    pub fn new(value: String) -> (id: Self)
        ensures
            id@ == value@,
    {
        RunId { value }
    }

    pub fn as_str(&self) -> (s: &str)
        ensures
            s@ == self@,
    {
        self.value.as_str()
    }
}

impl ProcessId {
    pub fn new(value: String) -> (id: Self)
        ensures
            id@ == value@,
    {
        ProcessId { value }
    }

    pub fn as_str(&self) -> (s: &str)
        ensures
            s@ == self@,
    {
        self.value.as_str()
    }
}

impl TaskInstanceId {
    pub fn new(value: String) -> (id: Self)
        ensures
            id@ == value@,
    {
        TaskInstanceId { value }
    }

    pub fn as_str(&self) -> (s: &str)
        ensures
            s@ == self@,
    {
        self.value.as_str()
    }
}

impl TriggerId {
    pub fn new(value: String) -> (id: Self)
        ensures
            id@ == value@,
    {
        TriggerId { value }
    }

    pub fn as_str(&self) -> (s: &str)
        ensures
            s@ == self@,
    {
        self.value.as_str()
    }
}

/// The kind of a credential, by its protocol name (such as
/// `CliDeviceSession`).
#[derive(Clone, Debug, PartialEq, Eq, Hash)]
pub struct CredentialKind {
    pub name: String,
}

/// The kind of a source provider, by its protocol name.
#[derive(Clone, Debug, PartialEq, Eq, Hash)]
pub struct SourceProviderKind {
    pub name: String,
}

/// A record of the wider system that this library stores and passes on
/// without reading it, held in its JSON form.
#[derive(Clone, Debug, PartialEq, Eq)]
pub struct StoredDocument {
    pub json: String,
}

// ---------------------------------------------------------------------
// Exact copies
// ---------------------------------------------------------------------

impl DeepView for TenantId {
    type V = TenantId;

    open spec fn deep_view(&self) -> TenantId {
        *self
    }
}

impl Replicate for TenantId {
    fn replicate(&self) -> (r: Self) {
        TenantId {
            value: self.value.clone(),
        }
    }
}

impl DeepView for ProjectId {
    type V = ProjectId;

    open spec fn deep_view(&self) -> ProjectId {
        *self
    }
}

impl Replicate for ProjectId {
    fn replicate(&self) -> (r: Self) {
        ProjectId {
            value: self.value.clone(),
        }
    }
}

impl DeepView for UserId {
    type V = UserId;

    open spec fn deep_view(&self) -> UserId {
        *self
    }
}

impl Replicate for UserId {
    fn replicate(&self) -> (r: Self) {
        UserId {
            value: self.value.clone(),
        }
    }
}

impl DeepView for NodeId {
    type V = NodeId;

    open spec fn deep_view(&self) -> NodeId {
        *self
    }
}

impl Replicate for NodeId {
    fn replicate(&self) -> (r: Self) {
        NodeId {
            value: self.value.clone(),
        }
    }
}

impl DeepView for AgentId {
    type V = AgentId;

    open spec fn deep_view(&self) -> AgentId {
        *self
    }
}

impl Replicate for AgentId {
    fn replicate(&self) -> (r: Self) {
        AgentId {
            value: self.value.clone(),
        }
    }
}

impl DeepView for RunId {
    type V = RunId;

    open spec fn deep_view(&self) -> RunId {
        *self
    }
}

impl Replicate for RunId {
    fn replicate(&self) -> (r: Self) {
        RunId {
            value: self.value.clone(),
        }
    }
}

impl DeepView for ProcessId {
    type V = ProcessId;

    open spec fn deep_view(&self) -> ProcessId {
        *self
    }
}

impl Replicate for ProcessId {
    fn replicate(&self) -> (r: Self) {
        ProcessId {
            value: self.value.clone(),
        }
    }
}

impl DeepView for TaskInstanceId {
    type V = TaskInstanceId;

    open spec fn deep_view(&self) -> TaskInstanceId {
        *self
    }
}

impl Replicate for TaskInstanceId {
    fn replicate(&self) -> (r: Self) {
        TaskInstanceId {
            value: self.value.clone(),
        }
    }
}

impl DeepView for TriggerId {
    type V = TriggerId;

    open spec fn deep_view(&self) -> TriggerId {
        *self
    }
}

impl Replicate for TriggerId {
    fn replicate(&self) -> (r: Self) {
        TriggerId {
            value: self.value.clone(),
        }
    }
}

impl DeepView for CredentialKind {
    type V = CredentialKind;

    open spec fn deep_view(&self) -> CredentialKind {
        *self
    }
}

impl Replicate for CredentialKind {
    fn replicate(&self) -> (r: Self) {
        CredentialKind {
            name: self.name.clone(),
        }
    }
}

impl DeepView for SourceProviderKind {
    type V = SourceProviderKind;

    open spec fn deep_view(&self) -> SourceProviderKind {
        *self
    }
}

impl Replicate for SourceProviderKind {
    fn replicate(&self) -> (r: Self) {
        SourceProviderKind {
            name: self.name.clone(),
        }
    }
}

impl DeepView for StoredDocument {
    type V = StoredDocument;

    open spec fn deep_view(&self) -> StoredDocument {
        *self
    }
}

impl Replicate for StoredDocument {
    fn replicate(&self) -> (r: Self) {
        StoredDocument {
            json: self.json.clone(),
        }
    }
}

} // verus!
