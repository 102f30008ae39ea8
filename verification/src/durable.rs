//! The coordinator's durable records, and the key under which a node
//! identity is stored together with the credential subject derived from it.
use crate::digest::Digest;
use crate::ids::{
    AgentId, CredentialKind, NodeId, ProcessId, ProjectId, RunId, SourceProviderKind,
    StoredDocument, TaskInstanceId, TenantId, TriggerId, UserId,
};
use crate::replicate::{replicate_all, Replicate};
use crate::text::{decimal, decimal_string};
use vstd::prelude::*;
use vstd::utf8::encode_utf8;

verus! {

#[derive(Clone, Debug, PartialEq, Eq)]
pub struct TenantRecord {
    pub id: TenantId,
}

#[derive(Clone, Debug, PartialEq, Eq)]
pub struct UserRecord {
    pub id: UserId,
    pub tenant: TenantId,
    pub credential_kind: CredentialKind,
}

#[derive(Clone, Debug, PartialEq, Eq)]
pub struct NodeIdentityRecord {
    pub id: NodeId,
    pub tenant: TenantId,
    pub project: ProjectId,
    pub public_key: String,
    pub enrollment_scope: String,
    pub last_seen_epoch_seconds: Option<u64>,
}

/// Where a node identity is stored: the node within its tenant and project.
#[derive(Clone, Debug, PartialEq, Eq, PartialOrd, Ord, Hash)]
pub struct NodeScopeKey {
    pub tenant: TenantId,
    pub project: ProjectId,
    pub node: NodeId,
}

impl View for NodeScopeKey {
    type V = (Seq<char>, Seq<char>, Seq<char>);

    open spec fn view(&self) -> (Seq<char>, Seq<char>, Seq<char>) {
        (self.tenant@, self.project@, self.node@)
    }
}

/// The number of bytes in the UTF-8 encoding of `s` (`str::len`).
pub open spec fn utf8_len(s: Seq<char>) -> nat {
    encode_utf8(s).len()
}

/// `node:` followed by each of tenant, project and node, each preceded by
/// its length in bytes and separated by colons.
pub open spec fn credential_subject_text(tenant: Seq<char>, project: Seq<char>, node: Seq<char>) -> Seq<
    char,
> {
    "node:"@ + (decimal(utf8_len(tenant)) + (":"@ + (tenant + (":"@ + (decimal(utf8_len(project)) + (
    ":"@ + (project + (":"@ + (decimal(utf8_len(node)) + (":"@ + node))))))))))
}

impl NodeScopeKey {
    pub fn new(tenant: TenantId, project: ProjectId, node: NodeId) -> (k: Self)
        ensures
            k.tenant == tenant,
            k.project == project,
            k.node == node,
    {
        NodeScopeKey { tenant, project, node }
    }

    pub fn from_refs(tenant: &TenantId, project: &ProjectId, node: &NodeId) -> (k: Self)
        ensures
            k@ == (tenant@, project@, node@),
    {
        Self::new(tenant.duplicate(), project.duplicate(), node.duplicate())
    }

    /// The subject of the node's credential. The byte lengths make the
    /// subject name exactly one key, whatever colons the parts hold.
    pub fn credential_subject(&self) -> (s: String)
        ensures
            s@ == credential_subject_text(self.tenant@, self.project@, self.node@),
    {
        let tenant = self.tenant.as_str();
        let project = self.project.as_str();
        let node = self.node.as_str();
        let tenant_len = tenant.as_bytes().len();
        let project_len = project.as_bytes().len();
        let node_len = node.as_bytes().len();
        let mut s = "node:".to_owned();
        s.append(decimal_string(tenant_len as u64).as_str());
        s.append(":");
        s.append(tenant);
        s.append(":");
        s.append(decimal_string(project_len as u64).as_str());
        s.append(":");
        s.append(project);
        s.append(":");
        s.append(decimal_string(node_len as u64).as_str());
        s.append(":");
        s.append(node);
        assert(s@ =~= credential_subject_text(self.tenant@, self.project@, self.node@));
        s
    }
}

// ---------------------------------------------------------------------
// The credential subject names one key
// ---------------------------------------------------------------------

proof fn lemma_encode_utf8_concat(a: Seq<char>, b: Seq<char>)
    ensures
        encode_utf8(a + b) == encode_utf8(a) + encode_utf8(b),
    decreases a.len(),
{
    if a.len() > 0 {
        assert((a + b).drop_first() =~= a.drop_first() + b);
        lemma_encode_utf8_concat(a.drop_first(), b);
        assert(encode_utf8(a + b) =~= encode_utf8(a) + encode_utf8(b));
    } else {
        assert(a + b =~= b);
        assert(encode_utf8(a) =~= Seq::<u8>::empty());
    }
}

proof fn lemma_encode_utf8_nonempty(a: Seq<char>)
    requires
        a.len() > 0,
    ensures
        utf8_len(a) > 0,
{
    vstd::utf8::encode_utf8_first_scalar(a);
}

proof fn lemma_digit_char_injective(a: nat, b: nat)
    requires
        a < 10,
        b < 10,
        crate::text::digit_char(a) == crate::text::digit_char(b),
    ensures
        a == b,
{
    vstd::utf8::char_u32_cast(crate::text::digit_char(a), (a + 48) as u32);
    vstd::utf8::char_u32_cast(crate::text::digit_char(b), (b + 48) as u32);
}

proof fn lemma_decimal_len(n: nat)
    ensures
        decimal(n).len() >= 1,
        n >= 10 ==> decimal(n).len() >= 2,
    decreases n,
{
    if n >= 10 {
        lemma_decimal_len(n / 10);
    }
}

proof fn lemma_decimal_digits(n: nat)
    ensures
        forall|i: int| 0 <= i < decimal(n).len() ==> #[trigger] decimal(n)[i] != ':',
    decreases n,
{
    reveal_strlit(":");
    if n >= 10 {
        lemma_decimal_digits(n / 10);
        assert forall|i: int| 0 <= i < decimal(n).len() implies #[trigger] decimal(n)[i] != ':' by {
            if i < decimal(n / 10).len() {
                assert(decimal(n)[i] == decimal(n / 10)[i]);
            } else {
                let d = n % 10;
                vstd::utf8::char_u32_cast(crate::text::digit_char(d), (d + 48) as u32);
            }
        }
    } else {
        vstd::utf8::char_u32_cast(crate::text::digit_char(n), (n + 48) as u32);
    }
}

proof fn lemma_decimal_injective(a: nat, b: nat)
    requires
        decimal(a) == decimal(b),
    ensures
        a == b,
    decreases a,
{
    lemma_decimal_len(a);
    lemma_decimal_len(b);
    if a < 10 && b < 10 {
        assert(decimal(a) =~= seq![crate::text::digit_char(a)]);
        assert(decimal(b) =~= seq![crate::text::digit_char(b)]);
        assert(decimal(a)[0] == decimal(b)[0]);
        assert(decimal(a)[0] == crate::text::digit_char(a));
        assert(decimal(b)[0] == crate::text::digit_char(b));
        lemma_digit_char_injective(a, b);
    } else if a >= 10 && b >= 10 {
        assert(decimal(a) == decimal(a / 10).push(crate::text::digit_char(a % 10)));
        assert(decimal(b) == decimal(b / 10).push(crate::text::digit_char(b % 10)));
        assert(decimal(a).last() == decimal(b).last());
        assert(decimal(a).last() == crate::text::digit_char(a % 10));
        assert(decimal(b).last() == crate::text::digit_char(b % 10));
        lemma_digit_char_injective(a % 10, b % 10);
        assert(decimal(a / 10) =~= decimal(a).drop_last());
        assert(decimal(b / 10) =~= decimal(b).drop_last());
        lemma_decimal_injective(a / 10, b / 10);
    }
}

/// A colon-free prefix ends at the first colon.
proof fn lemma_split_at_colon(x: Seq<char>, r1: Seq<char>, y: Seq<char>, r2: Seq<char>)
    requires
        forall|i: int| 0 <= i < x.len() ==> #[trigger] x[i] != ':',
        forall|i: int| 0 <= i < y.len() ==> #[trigger] y[i] != ':',
        x + (":"@ + r1) == y + (":"@ + r2),
    ensures
        x == y,
        r1 == r2,
{
    reveal_strlit(":");
    let l = x + (":"@ + r1);
    let r = y + (":"@ + r2);
    if x.len() < y.len() {
        assert(l[x.len() as int] == ':');
        assert(r[x.len() as int] == y[x.len() as int]);
    } else if y.len() < x.len() {
        assert(r[y.len() as int] == ':');
        assert(l[y.len() as int] == x[y.len() as int]);
    } else {
        assert(x =~= l.take(x.len() as int));
        assert(y =~= r.take(y.len() as int));
        assert(r1 =~= l.skip(x.len() as int + 1));
        assert(r2 =~= r.skip(y.len() as int + 1));
    }
}

/// Two strings of the same byte length that start the same text are equal.
proof fn lemma_split_by_length(s1: Seq<char>, r1: Seq<char>, s2: Seq<char>, r2: Seq<char>)
    requires
        utf8_len(s1) == utf8_len(s2),
        s1 + r1 == s2 + r2,
    ensures
        s1 == s2,
        r1 == r2,
{
    let whole = s1 + r1;
    assert forall|i: int| 0 <= i < s1.len() && i < s2.len() implies s1[i] == s2[i] by {
        assert((s1 + r1)[i] == s1[i]);
        assert((s2 + r2)[i] == s2[i]);
    }
    if s1.len() < s2.len() {
        assert(s1 =~= s2.take(s1.len() as int));
        assert(s2 =~= s1 + s2.skip(s1.len() as int));
        lemma_encode_utf8_concat(s1, s2.skip(s1.len() as int));
        lemma_encode_utf8_nonempty(s2.skip(s1.len() as int));
    } else if s2.len() < s1.len() {
        assert(s2 =~= s1.take(s2.len() as int));
        assert(s1 =~= s2 + s1.skip(s2.len() as int));
        lemma_encode_utf8_concat(s2, s1.skip(s2.len() as int));
        lemma_encode_utf8_nonempty(s1.skip(s2.len() as int));
    } else {
        assert(s1 =~= whole.take(s1.len() as int));
        assert(s2 =~= whole.take(s2.len() as int));
        assert(r1 =~= whole.skip(s1.len() as int));
        assert(r2 =~= whole.skip(s2.len() as int));
    }
}

/// One length-prefixed part: `len:text` followed by `rest`.
proof fn lemma_segment(s1: Seq<char>, r1: Seq<char>, s2: Seq<char>, r2: Seq<char>)
    requires
        decimal(utf8_len(s1)) + (":"@ + (s1 + r1)) == decimal(utf8_len(s2)) + (":"@ + (s2 + r2)),
    ensures
        s1 == s2,
        r1 == r2,
{
    lemma_decimal_digits(utf8_len(s1));
    lemma_decimal_digits(utf8_len(s2));
    lemma_split_at_colon(decimal(utf8_len(s1)), s1 + r1, decimal(utf8_len(s2)), s2 + r2);
    lemma_decimal_injective(utf8_len(s1), utf8_len(s2));
    lemma_split_by_length(s1, r1, s2, r2);
}

/// Different keys never share a credential subject.
pub proof fn credential_subject_is_injective(a: (Seq<char>, Seq<char>, Seq<char>), b: (Seq<char>, Seq<char>, Seq<char>))
    requires
        credential_subject_text(a.0, a.1, a.2) == credential_subject_text(b.0, b.1, b.2),
    ensures
        a == b,
{
    let pa = "node:"@;
    let ta = decimal(utf8_len(a.0)) + (":"@ + (a.0 + (":"@ + (decimal(utf8_len(a.1)) + (":"@ + (
    a.1 + (":"@ + (decimal(utf8_len(a.2)) + (":"@ + a.2)))))))));
    let tb = decimal(utf8_len(b.0)) + (":"@ + (b.0 + (":"@ + (decimal(utf8_len(b.1)) + (":"@ + (
    b.1 + (":"@ + (decimal(utf8_len(b.2)) + (":"@ + b.2)))))))));
    assert(ta =~= (pa + ta).skip(pa.len() as int));
    assert(tb =~= (pa + tb).skip(pa.len() as int));
    let ra = ":"@ + (decimal(utf8_len(a.1)) + (":"@ + (a.1 + (":"@ + (decimal(utf8_len(a.2)) + (
    ":"@ + a.2))))));
    let rb = ":"@ + (decimal(utf8_len(b.1)) + (":"@ + (b.1 + (":"@ + (decimal(utf8_len(b.2)) + (
    ":"@ + b.2))))));
    lemma_segment(a.0, ra, b.0, rb);
    reveal_strlit(":");
    let qa = decimal(utf8_len(a.1)) + (":"@ + (a.1 + (":"@ + (decimal(utf8_len(a.2)) + (":"@ + a.2)))));
    let qb = decimal(utf8_len(b.1)) + (":"@ + (b.1 + (":"@ + (decimal(utf8_len(b.2)) + (":"@ + b.2)))));
    assert(qa =~= ra.drop_first());
    assert(qb =~= rb.drop_first());
    let sa = ":"@ + (decimal(utf8_len(a.2)) + (":"@ + a.2));
    let sb = ":"@ + (decimal(utf8_len(b.2)) + (":"@ + b.2));
    lemma_segment(a.1, sa, b.1, sb);
    let ua = decimal(utf8_len(a.2)) + (":"@ + (a.2 + Seq::<char>::empty()));
    let ub = decimal(utf8_len(b.2)) + (":"@ + (b.2 + Seq::<char>::empty()));
    assert(ua =~= sa.drop_first());
    assert(ub =~= sb.drop_first());
    lemma_segment(a.2, Seq::<char>::empty(), b.2, Seq::<char>::empty());
}

// ---------------------------------------------------------------------
// Durable records
// ---------------------------------------------------------------------

#[derive(Clone, Debug, PartialEq, Eq)]
pub struct CredentialRecord {
    pub subject: String,
    pub tenant: TenantId,
    pub project: Option<ProjectId>,
    pub kind: CredentialKind,
    pub public_key_fingerprint: Option<Digest>,
}

#[derive(Clone, Debug, PartialEq, Eq)]
pub struct CliSessionRecord {
    pub session_digest: Digest,
    pub tenant: TenantId,
    pub project: ProjectId,
    pub user: UserId,
    pub credential_kind: CredentialKind,
    pub expires_at_epoch_seconds: Option<u64>,
    pub revoked: bool,
}

#[derive(Clone, Debug, PartialEq, Eq)]
pub struct SourceProviderConfigRecord {
    pub tenant: TenantId,
    pub project: ProjectId,
    pub provider: SourceProviderKind,
    pub manifest_digest: Digest,
}

#[derive(Clone, Debug, PartialEq, Eq)]
pub struct AccountPolicyState {
    pub account_status: String,
    pub suspended: bool,
    pub disabled: bool,
    pub deleted: bool,
    pub manual_review: bool,
    pub sanitized_reason: Option<String>,
    pub next_actions: Vec<String>,
}

#[derive(Clone, Debug, PartialEq, Eq)]
pub struct ProjectPermissionRecord {
    pub tenant: TenantId,
    pub project: ProjectId,
    pub user: UserId,
    pub can_debug: bool,
}

#[derive(Clone, Debug, PartialEq, Eq)]
pub struct AcceptedCommitTriggerRecord {
    pub tenant: TenantId,
    pub project: ProjectId,
    pub binding_id: String,
    pub body_digest: Digest,
    pub trigger: StoredDocument,
}

/// Compiler-specific retry budget and monotonically increasing fencing seed.
/// Live ownership, offer, acknowledgement, and lease state exist only in the
/// generic assignment registry.
#[derive(Clone, Copy, Debug, PartialEq, Eq, Structural)]
pub struct CompilerAssignmentRetryRecord {
    pub next_offer_epoch: u64,
    pub attempts: u8,
}

impl Default for CompilerAssignmentRetryRecord {
    fn default() -> (r: Self)
        ensures
            r.next_offer_epoch == 0,
            r.attempts == 0,
    {
        CompilerAssignmentRetryRecord { next_offer_epoch: 0, attempts: 0 }
    }
}

#[derive(Clone, Debug, PartialEq, Eq)]
pub enum AssignmentKind {
    WorkflowCompiler { run_id: RunId },
    ProcessTask { process: ProcessId, task: TaskInstanceId },
}

#[derive(Clone, Copy, Debug, PartialEq, Eq, Structural)]
pub enum AssignmentState {
    Pending,
    Offered,
    Acknowledged,
    Running,
    Terminal,
}

/// Durable generic authority for both process and system assignments.
#[derive(Clone, Debug, PartialEq, Eq)]
pub struct ActiveAssignmentRecord {
    pub assignment_id: String,
    pub kind: AssignmentKind,
    pub tenant: TenantId,
    pub project: ProjectId,
    pub node: NodeId,
    pub attempt_id: String,
    pub offer_epoch: u64,
    pub state: AssignmentState,
    pub offered_at: u64,
    pub acknowledged_at: Option<u64>,
    pub lease_expires_at: u64,
}

#[derive(Clone, Debug, PartialEq, Eq)]
pub struct TerminalAssignmentRecord {
    pub assignment_id: String,
    pub tenant: TenantId,
    pub project: ProjectId,
    pub node: NodeId,
    pub attempt_id: String,
    pub offer_epoch: u64,
    pub terminal_at: u64,
    pub replay_allowed: bool,
}

#[derive(Clone, Debug, PartialEq, Eq)]
pub struct AutomatedRunStageRecord {
    pub run: StoredDocument,
    pub run_key: Digest,
    pub source: Option<StoredDocument>,
    pub revision_environments: Vec<StoredDocument>,
    pub revision: Option<StoredDocument>,
    pub compilation_request: Option<StoredDocument>,
    pub assignment_retry: CompilerAssignmentRetryRecord,
    pub compiled_bundle: Option<StoredDocument>,
    pub compiled_summary: Option<StoredDocument>,
    pub trigger_context: Option<StoredDocument>,
    pub launch_attempt: Option<String>,
}

#[derive(Clone, Debug, PartialEq, Eq)]
pub struct ProjectEnvironmentRecord {
    pub tenant: TenantId,
    pub project: ProjectId,
    pub name: String,
    pub immutable_digest: Digest,
    pub definition: StoredDocument,
    pub enabled: bool,
    pub updated_at: u64,
}

#[derive(Clone, Debug, PartialEq, Eq)]
pub struct EncryptedProjectSecretRecord {
    pub tenant: TenantId,
    pub project: ProjectId,
    pub name: String,
    pub ciphertext_base64: String,
    pub nonce_base64: String,
    pub key_version: u32,
    pub allowed_entrypoint: String,
    pub allowed_task_definition: String,
    pub allowed_trusted_refs: Vec<String>,
    pub created_at: u64,
    pub updated_at: u64,
    pub revoked_at: Option<u64>,
}

#[derive(Clone, Debug, PartialEq, Eq)]
pub struct SecretAuditRecord {
    pub sequence: u64,
    pub tenant: TenantId,
    pub project: ProjectId,
    pub name: String,
    pub process: Option<ProcessId>,
    pub task: Option<TaskInstanceId>,
    pub node: Option<NodeId>,
    pub event: String,
    pub occurred_at: u64,
}

/// The key of a project-scoped entry: tenant, project and a name.
#[derive(Clone, Debug, PartialEq, Eq, PartialOrd, Ord, Hash)]
pub struct ProjectScopedName {
    pub tenant: TenantId,
    pub project: ProjectId,
    pub name: String,
}

/// The key of a project.
#[derive(Clone, Debug, PartialEq, Eq, PartialOrd, Ord, Hash)]
pub struct ProjectScope {
    pub tenant: TenantId,
    pub project: ProjectId,
}

/// A key of a commit trigger delivery: binding and delivery id.
#[derive(Clone, Debug, PartialEq, Eq, PartialOrd, Ord, Hash)]
pub struct DeliveryKey {
    pub binding_id: String,
    pub delivery_id: String,
}

/// The automation half of the durable state. Each map is held as its
/// entries in key order, the form in which it is persisted.
#[derive(Clone, Debug, Default)]
pub struct AutomationDurableState {
    pub accepted_commit_triggers: Vec<(TriggerId, AcceptedCommitTriggerRecord)>,
    pub trigger_deliveries: Vec<(DeliveryKey, TriggerId)>,
    pub automated_runs: Vec<(RunId, AutomatedRunStageRecord)>,
    pub automated_run_keys: Vec<(Digest, RunId)>,
    pub project_environments: Vec<(ProjectScopedName, ProjectEnvironmentRecord)>,
    pub encrypted_project_secrets: Vec<(ProjectScopedName, EncryptedProjectSecretRecord)>,
    pub secret_audit: Vec<SecretAuditRecord>,
    pub trusted_secret_nodes: Vec<(ProjectScope, NodeId)>,
    pub active_assignments: Vec<(String, ActiveAssignmentRecord)>,
    pub terminal_assignment_history: Vec<TerminalAssignmentRecord>,
}


/// The key of a tenant-scoped entry: tenant and a name.
#[derive(Clone, Debug, PartialEq, Eq, PartialOrd, Ord, Hash)]
pub struct TenantScopedName {
    pub tenant: TenantId,
    pub name: String,
}

/// The key of a user's permission within a project.
#[derive(Clone, Debug, PartialEq, Eq, PartialOrd, Ord, Hash)]
pub struct ProjectUserKey {
    pub tenant: TenantId,
    pub project: ProjectId,
    pub user: UserId,
}

/// The key of an agent's public key within a project.
#[derive(Clone, Debug, PartialEq, Eq, PartialOrd, Ord, Hash)]
pub struct ProjectAgentKey {
    pub tenant: TenantId,
    pub project: ProjectId,
    pub agent: AgentId,
}

/// Everything the coordinator persists. Each map is held as its entries in
/// key order; records of the wire protocol are kept as stored documents.
#[derive(Clone, Debug, Default)]
pub struct DurableState {
    pub tenants: Vec<(TenantId, TenantRecord)>,
    pub users: Vec<(UserId, UserRecord)>,
    pub projects: Vec<(ProjectId, StoredDocument)>,
    pub node_identities: Vec<(NodeScopeKey, NodeIdentityRecord)>,
    pub credentials: Vec<(String, CredentialRecord)>,
    pub cli_sessions: Vec<(Digest, CliSessionRecord)>,
    pub source_provider_configs: Vec<(ProjectScopedName, SourceProviderConfigRecord)>,
    pub service_policy_records: Vec<(TenantScopedName, StoredDocument)>,
    pub project_permissions: Vec<(ProjectUserKey, ProjectPermissionRecord)>,
    pub agent_public_keys: Vec<(ProjectAgentKey, StoredDocument)>,
    pub accepted_commit_triggers: Vec<(TriggerId, AcceptedCommitTriggerRecord)>,
    pub trigger_deliveries: Vec<(DeliveryKey, TriggerId)>,
    pub automated_runs: Vec<(RunId, AutomatedRunStageRecord)>,
    pub automated_run_keys: Vec<(Digest, RunId)>,
    pub project_environments: Vec<(ProjectScopedName, ProjectEnvironmentRecord)>,
    pub encrypted_project_secrets: Vec<(ProjectScopedName, EncryptedProjectSecretRecord)>,
    pub secret_audit: Vec<SecretAuditRecord>,
    pub trusted_secret_nodes: Vec<(ProjectScope, NodeId)>,
    pub active_assignments: Vec<(String, ActiveAssignmentRecord)>,
    pub terminal_assignment_history: Vec<TerminalAssignmentRecord>,
}

/// No two entries of a map have the same key.
pub open spec fn keys_unique<K: DeepView, V>(entries: Seq<(K, V)>) -> bool {
    forall|i: int, j: int|
        0 <= i < j < entries.len() ==> (#[trigger] entries[i]).0.deep_view() != (
        #[trigger] entries[j]).0.deep_view()
}

proof fn lemma_keys_unique_same<K: DeepView, V: DeepView>(a: Vec<(K, V)>, b: Vec<(K, V)>)
    requires
        a.deep_view() == b.deep_view(),
        keys_unique(a@),
    ensures
        keys_unique(b@),
{
    assert forall|i: int, j: int| 0 <= i < j < b@.len() implies (#[trigger] b@[i]).0.deep_view()
        != (#[trigger] b@[j]).0.deep_view() by {
        assert(a.deep_view().len() == a@.len() && b.deep_view().len() == b@.len());
        assert(a.deep_view()[i] == a@[i].deep_view());
        assert(b.deep_view()[i] == b@[i].deep_view());
        assert(a.deep_view()[j] == a@[j].deep_view());
        assert(b.deep_view()[j] == b@[j].deep_view());
        let ai = a@[i];
        let aj = a@[j];
        assert(ai.0.deep_view() != aj.0.deep_view());
    }
}

/// The automation half of a durable state, as it stands.
pub open spec fn automation_half(s: DurableState) -> AutomationDurableState {
    AutomationDurableState {
        accepted_commit_triggers: s.accepted_commit_triggers,
        trigger_deliveries: s.trigger_deliveries,
        automated_runs: s.automated_runs,
        automated_run_keys: s.automated_run_keys,
        project_environments: s.project_environments,
        encrypted_project_secrets: s.encrypted_project_secrets,
        secret_audit: s.secret_audit,
        trusted_secret_nodes: s.trusted_secret_nodes,
        active_assignments: s.active_assignments,
        terminal_assignment_history: s.terminal_assignment_history,
    }
}

/// `s` with its automation half replaced by `a`.
pub open spec fn with_automation(s: DurableState, a: AutomationDurableState) -> DurableState {
    DurableState {
        accepted_commit_triggers: a.accepted_commit_triggers,
        trigger_deliveries: a.trigger_deliveries,
        automated_runs: a.automated_runs,
        automated_run_keys: a.automated_run_keys,
        project_environments: a.project_environments,
        encrypted_project_secrets: a.encrypted_project_secrets,
        secret_audit: a.secret_audit,
        trusted_secret_nodes: a.trusted_secret_nodes,
        active_assignments: a.active_assignments,
        terminal_assignment_history: a.terminal_assignment_history,
        ..s
    }
}

/// The two automation halves hold the same entries, field by field.
pub open spec fn automation_same(a: AutomationDurableState, b: AutomationDurableState) -> bool {
    &&& a.accepted_commit_triggers.deep_view() == b.accepted_commit_triggers.deep_view()
    &&& a.trigger_deliveries.deep_view() == b.trigger_deliveries.deep_view()
    &&& a.automated_runs.deep_view() == b.automated_runs.deep_view()
    &&& a.automated_run_keys.deep_view() == b.automated_run_keys.deep_view()
    &&& a.project_environments.deep_view() == b.project_environments.deep_view()
    &&& a.encrypted_project_secrets.deep_view() == b.encrypted_project_secrets.deep_view()
    &&& a.secret_audit.deep_view() == b.secret_audit.deep_view()
    &&& a.trusted_secret_nodes.deep_view() == b.trusted_secret_nodes.deep_view()
    &&& a.active_assignments.deep_view() == b.active_assignments.deep_view()
    &&& a.terminal_assignment_history.deep_view() == b.terminal_assignment_history.deep_view()
}

/// The two states hold the same entries, field by field.
pub open spec fn state_same(a: DurableState, b: DurableState) -> bool {
    &&& a.tenants.deep_view() == b.tenants.deep_view()
    &&& a.users.deep_view() == b.users.deep_view()
    &&& a.projects.deep_view() == b.projects.deep_view()
    &&& a.node_identities.deep_view() == b.node_identities.deep_view()
    &&& a.credentials.deep_view() == b.credentials.deep_view()
    &&& a.cli_sessions.deep_view() == b.cli_sessions.deep_view()
    &&& a.source_provider_configs.deep_view() == b.source_provider_configs.deep_view()
    &&& a.service_policy_records.deep_view() == b.service_policy_records.deep_view()
    &&& a.project_permissions.deep_view() == b.project_permissions.deep_view()
    &&& a.agent_public_keys.deep_view() == b.agent_public_keys.deep_view()
    &&& automation_same(automation_half(a), automation_half(b))
}

/// Each map of the automation half holds every key once.
pub open spec fn automation_keys_unique(a: AutomationDurableState) -> bool {
    &&& keys_unique(a.accepted_commit_triggers@)
    &&& keys_unique(a.trigger_deliveries@)
    &&& keys_unique(a.automated_runs@)
    &&& keys_unique(a.automated_run_keys@)
    &&& keys_unique(a.project_environments@)
    &&& keys_unique(a.encrypted_project_secrets@)
    &&& keys_unique(a.trusted_secret_nodes@)
    &&& keys_unique(a.active_assignments@)
}

/// Each map of the state holds every key once, as a map does.
pub open spec fn state_keys_unique(s: DurableState) -> bool {
    &&& keys_unique(s.tenants@)
    &&& keys_unique(s.users@)
    &&& keys_unique(s.projects@)
    &&& keys_unique(s.node_identities@)
    &&& keys_unique(s.credentials@)
    &&& keys_unique(s.cli_sessions@)
    &&& keys_unique(s.source_provider_configs@)
    &&& keys_unique(s.service_policy_records@)
    &&& keys_unique(s.project_permissions@)
    &&& keys_unique(s.agent_public_keys@)
    &&& automation_keys_unique(automation_half(s))
}

proof fn lemma_automation_keys_same(a: AutomationDurableState, b: AutomationDurableState)
    requires
        automation_same(a, b),
        automation_keys_unique(a),
    ensures
        automation_keys_unique(b),
{
    lemma_keys_unique_same(a.accepted_commit_triggers, b.accepted_commit_triggers);
    lemma_keys_unique_same(a.trigger_deliveries, b.trigger_deliveries);
    lemma_keys_unique_same(a.automated_runs, b.automated_runs);
    lemma_keys_unique_same(a.automated_run_keys, b.automated_run_keys);
    lemma_keys_unique_same(a.project_environments, b.project_environments);
    lemma_keys_unique_same(a.encrypted_project_secrets, b.encrypted_project_secrets);
    lemma_keys_unique_same(a.trusted_secret_nodes, b.trusted_secret_nodes);
    lemma_keys_unique_same(a.active_assignments, b.active_assignments);
}

proof fn lemma_state_keys_same(a: DurableState, b: DurableState)
    requires
        state_same(a, b),
        state_keys_unique(a),
    ensures
        state_keys_unique(b),
{
    lemma_keys_unique_same(a.tenants, b.tenants);
    lemma_keys_unique_same(a.users, b.users);
    lemma_keys_unique_same(a.projects, b.projects);
    lemma_keys_unique_same(a.node_identities, b.node_identities);
    lemma_keys_unique_same(a.credentials, b.credentials);
    lemma_keys_unique_same(a.cli_sessions, b.cli_sessions);
    lemma_keys_unique_same(a.source_provider_configs, b.source_provider_configs);
    lemma_keys_unique_same(a.service_policy_records, b.service_policy_records);
    lemma_keys_unique_same(a.project_permissions, b.project_permissions);
    lemma_keys_unique_same(a.agent_public_keys, b.agent_public_keys);
    lemma_automation_keys_same(automation_half(a), automation_half(b));
}

impl DurableState {
    /// A copy of the automation half of the state; the state is unchanged.
    pub fn automation(&self) -> (r: AutomationDurableState)
        ensures
            automation_same(r, automation_half(*self)),
            state_keys_unique(*self) ==> automation_keys_unique(r),
    {
        let r = AutomationDurableState {
            accepted_commit_triggers: replicate_all(&self.accepted_commit_triggers),
            trigger_deliveries: replicate_all(&self.trigger_deliveries),
            automated_runs: replicate_all(&self.automated_runs),
            automated_run_keys: replicate_all(&self.automated_run_keys),
            project_environments: replicate_all(&self.project_environments),
            encrypted_project_secrets: replicate_all(&self.encrypted_project_secrets),
            secret_audit: replicate_all(&self.secret_audit),
            trusted_secret_nodes: replicate_all(&self.trusted_secret_nodes),
            active_assignments: replicate_all(&self.active_assignments),
            terminal_assignment_history: replicate_all(&self.terminal_assignment_history),
        };
        proof {
            if state_keys_unique(*self) {
                lemma_automation_keys_same(automation_half(*self), r);
            }
        }
        r
    }

    /// Replaces the automation half of the state with `state`; the rest is
    /// untouched.
    pub fn replace_automation(&mut self, state: AutomationDurableState)
        ensures
            *final(self) == with_automation(*old(self), state),
            state_keys_unique(*old(self)) && automation_keys_unique(state) ==> state_keys_unique(
                *final(self),
            ),
    {
        self.accepted_commit_triggers = state.accepted_commit_triggers;
        self.trigger_deliveries = state.trigger_deliveries;
        self.automated_runs = state.automated_runs;
        self.automated_run_keys = state.automated_run_keys;
        self.project_environments = state.project_environments;
        self.encrypted_project_secrets = state.encrypted_project_secrets;
        self.secret_audit = state.secret_audit;
        self.trusted_secret_nodes = state.trusted_secret_nodes;
        self.active_assignments = state.active_assignments;
        self.terminal_assignment_history = state.terminal_assignment_history;
    }

    /// A copy of the whole state.
    pub fn duplicate(&self) -> (r: DurableState)
        ensures
            state_same(r, *self),
            state_keys_unique(*self) ==> state_keys_unique(r),
    {
        let r = DurableState {
            tenants: replicate_all(&self.tenants),
            users: replicate_all(&self.users),
            projects: replicate_all(&self.projects),
            node_identities: replicate_all(&self.node_identities),
            credentials: replicate_all(&self.credentials),
            cli_sessions: replicate_all(&self.cli_sessions),
            source_provider_configs: replicate_all(&self.source_provider_configs),
            service_policy_records: replicate_all(&self.service_policy_records),
            project_permissions: replicate_all(&self.project_permissions),
            agent_public_keys: replicate_all(&self.agent_public_keys),
            accepted_commit_triggers: replicate_all(&self.accepted_commit_triggers),
            trigger_deliveries: replicate_all(&self.trigger_deliveries),
            automated_runs: replicate_all(&self.automated_runs),
            automated_run_keys: replicate_all(&self.automated_run_keys),
            project_environments: replicate_all(&self.project_environments),
            encrypted_project_secrets: replicate_all(&self.encrypted_project_secrets),
            secret_audit: replicate_all(&self.secret_audit),
            trusted_secret_nodes: replicate_all(&self.trusted_secret_nodes),
            active_assignments: replicate_all(&self.active_assignments),
            terminal_assignment_history: replicate_all(&self.terminal_assignment_history),
        };
        proof {
            if state_keys_unique(*self) {
                lemma_state_keys_same(*self, r);
            }
        }
        r
    }
}

/// Replacing the automation half with `a` makes `a` the automation half and
/// leaves the rest as it was; putting back the half a state already has
/// changes nothing; and of two replacements only the last one counts.
pub proof fn replacing_automation_reads_back(
    s: DurableState,
    a: AutomationDurableState,
    b: AutomationDurableState,
)
    ensures
        automation_half(with_automation(s, a)) == a,
        with_automation(with_automation(s, a), automation_half(s)) == s,
        with_automation(s, automation_half(s)) == s,
        with_automation(with_automation(s, a), b) == with_automation(s, b),
{
}

/// After the automation half was replaced by `a`, reading it gives `a`
/// field by field.
pub proof fn automation_reads_back_replacement(
    s: DurableState,
    a: AutomationDurableState,
    read: AutomationDurableState,
)
    requires
        automation_same(read, automation_half(with_automation(s, a))),
    ensures
        automation_same(read, a),
{
}

/// Putting back the automation half that was read from a state leaves
/// every field of the state as it was.
pub proof fn putting_back_automation_changes_nothing(s: DurableState, read: AutomationDurableState)
    requires
        automation_same(read, automation_half(s)),
    ensures
        state_same(with_automation(s, read), s),
{
}

/// Where the coordinator keeps its durable state.
pub trait DurableStore {
    fn load(&self) -> DurableState;

    fn save(&mut self, state: DurableState);
}

/// A durable store that may fail, with its own error.
pub trait FallibleDurableStore {
    type Error;

    fn load_state(&mut self) -> Result<DurableState, Self::Error>;

    fn save_state(&mut self, state: &DurableState) -> Result<(), Self::Error>;
}

/// A durable store held in memory.
#[derive(Clone, Debug, Default)]
pub struct InMemoryDurableStore {
    state: DurableState,
}

impl InMemoryDurableStore {
    /// The state the store holds.
    pub closed spec fn stored(&self) -> DurableState {
        self.state
    }
}

impl DurableStore for InMemoryDurableStore {
    /// A copy of the stored state; the store is unchanged.
    fn load(&self) -> (r: DurableState)
        ensures
            state_same(r, self.stored()),
            state_keys_unique(self.stored()) ==> state_keys_unique(r),
    {
        self.state.duplicate()
    }

    /// Stores `state` in place of what was there.
    fn save(&mut self, state: DurableState)
        ensures
            final(self).stored() == state,
    {
        self.state = state;
    }
}

/// After `saved` was stored, a load gives `saved` field by field, and so
/// does every later load.
pub proof fn load_after_save_returns_saved(
    store: InMemoryDurableStore,
    saved: DurableState,
    first: DurableState,
    second: DurableState,
)
    requires
        store.stored() == saved,
        state_same(first, store.stored()),
        state_same(second, store.stored()),
    ensures
        state_same(first, saved),
        state_same(first, second),
{
}

// ---------------------------------------------------------------------
// Exact copies of records and keys
// ---------------------------------------------------------------------

impl DeepView for TenantRecord {
    type V = TenantRecord;

    open spec fn deep_view(&self) -> TenantRecord {
        *self
    }
}

impl Replicate for TenantRecord {
    fn replicate(&self) -> (r: Self) {
        TenantRecord {
            id: self.id.replicate(),
        }
    }
}

impl DeepView for UserRecord {
    type V = UserRecord;

    open spec fn deep_view(&self) -> UserRecord {
        *self
    }
}

impl Replicate for UserRecord {
    fn replicate(&self) -> (r: Self) {
        UserRecord {
            id: self.id.replicate(),
            tenant: self.tenant.replicate(),
            credential_kind: self.credential_kind.replicate(),
        }
    }
}

impl DeepView for NodeIdentityRecord {
    type V = NodeIdentityRecord;

    open spec fn deep_view(&self) -> NodeIdentityRecord {
        *self
    }
}

impl Replicate for NodeIdentityRecord {
    fn replicate(&self) -> (r: Self) {
        NodeIdentityRecord {
            id: self.id.replicate(),
            tenant: self.tenant.replicate(),
            project: self.project.replicate(),
            public_key: self.public_key.clone(),
            enrollment_scope: self.enrollment_scope.clone(),
            last_seen_epoch_seconds: self.last_seen_epoch_seconds,
        }
    }
}

impl DeepView for NodeScopeKey {
    type V = NodeScopeKey;

    open spec fn deep_view(&self) -> NodeScopeKey {
        *self
    }
}

impl Replicate for NodeScopeKey {
    fn replicate(&self) -> (r: Self) {
        NodeScopeKey {
            tenant: self.tenant.replicate(),
            project: self.project.replicate(),
            node: self.node.replicate(),
        }
    }
}

impl DeepView for CredentialRecord {
    type V = CredentialRecord;

    open spec fn deep_view(&self) -> CredentialRecord {
        *self
    }
}

impl Replicate for CredentialRecord {
    fn replicate(&self) -> (r: Self) {
        CredentialRecord {
            subject: self.subject.clone(),
            tenant: self.tenant.replicate(),
            project: self.project.replicate(),
            kind: self.kind.replicate(),
            public_key_fingerprint: self.public_key_fingerprint.replicate(),
        }
    }
}

impl DeepView for CliSessionRecord {
    type V = CliSessionRecord;

    open spec fn deep_view(&self) -> CliSessionRecord {
        *self
    }
}

impl Replicate for CliSessionRecord {
    fn replicate(&self) -> (r: Self) {
        CliSessionRecord {
            session_digest: self.session_digest.replicate(),
            tenant: self.tenant.replicate(),
            project: self.project.replicate(),
            user: self.user.replicate(),
            credential_kind: self.credential_kind.replicate(),
            expires_at_epoch_seconds: self.expires_at_epoch_seconds,
            revoked: self.revoked,
        }
    }
}

impl DeepView for SourceProviderConfigRecord {
    type V = SourceProviderConfigRecord;

    open spec fn deep_view(&self) -> SourceProviderConfigRecord {
        *self
    }
}

impl Replicate for SourceProviderConfigRecord {
    fn replicate(&self) -> (r: Self) {
        SourceProviderConfigRecord {
            tenant: self.tenant.replicate(),
            project: self.project.replicate(),
            provider: self.provider.replicate(),
            manifest_digest: self.manifest_digest.replicate(),
        }
    }
}

impl DeepView for ProjectPermissionRecord {
    type V = ProjectPermissionRecord;

    open spec fn deep_view(&self) -> ProjectPermissionRecord {
        *self
    }
}

impl Replicate for ProjectPermissionRecord {
    fn replicate(&self) -> (r: Self) {
        ProjectPermissionRecord {
            tenant: self.tenant.replicate(),
            project: self.project.replicate(),
            user: self.user.replicate(),
            can_debug: self.can_debug,
        }
    }
}

impl DeepView for AcceptedCommitTriggerRecord {
    type V = AcceptedCommitTriggerRecord;

    open spec fn deep_view(&self) -> AcceptedCommitTriggerRecord {
        *self
    }
}

impl Replicate for AcceptedCommitTriggerRecord {
    fn replicate(&self) -> (r: Self) {
        AcceptedCommitTriggerRecord {
            tenant: self.tenant.replicate(),
            project: self.project.replicate(),
            binding_id: self.binding_id.clone(),
            body_digest: self.body_digest.replicate(),
            trigger: self.trigger.replicate(),
        }
    }
}

impl DeepView for CompilerAssignmentRetryRecord {
    type V = CompilerAssignmentRetryRecord;

    open spec fn deep_view(&self) -> CompilerAssignmentRetryRecord {
        *self
    }
}

impl Replicate for CompilerAssignmentRetryRecord {
    fn replicate(&self) -> (r: Self) {
        *self
    }
}

impl DeepView for AssignmentState {
    type V = AssignmentState;

    open spec fn deep_view(&self) -> AssignmentState {
        *self
    }
}

impl Replicate for AssignmentState {
    fn replicate(&self) -> (r: Self) {
        *self
    }
}

impl DeepView for AssignmentKind {
    type V = AssignmentKind;

    open spec fn deep_view(&self) -> AssignmentKind {
        *self
    }
}

impl Replicate for AssignmentKind {
    fn replicate(&self) -> (r: Self) {
        match self {
            AssignmentKind::WorkflowCompiler { run_id } => AssignmentKind::WorkflowCompiler {
                run_id: run_id.replicate(),
            },
            AssignmentKind::ProcessTask { process, task } => AssignmentKind::ProcessTask {
                process: process.replicate(),
                task: task.replicate(),
            },
        }
    }
}

impl DeepView for ActiveAssignmentRecord {
    type V = ActiveAssignmentRecord;

    open spec fn deep_view(&self) -> ActiveAssignmentRecord {
        *self
    }
}

impl Replicate for ActiveAssignmentRecord {
    fn replicate(&self) -> (r: Self) {
        ActiveAssignmentRecord {
            assignment_id: self.assignment_id.clone(),
            kind: self.kind.replicate(),
            tenant: self.tenant.replicate(),
            project: self.project.replicate(),
            node: self.node.replicate(),
            attempt_id: self.attempt_id.clone(),
            offer_epoch: self.offer_epoch,
            state: self.state,
            offered_at: self.offered_at,
            acknowledged_at: self.acknowledged_at,
            lease_expires_at: self.lease_expires_at,
        }
    }
}

impl DeepView for TerminalAssignmentRecord {
    type V = TerminalAssignmentRecord;

    open spec fn deep_view(&self) -> TerminalAssignmentRecord {
        *self
    }
}

impl Replicate for TerminalAssignmentRecord {
    fn replicate(&self) -> (r: Self) {
        TerminalAssignmentRecord {
            assignment_id: self.assignment_id.clone(),
            tenant: self.tenant.replicate(),
            project: self.project.replicate(),
            node: self.node.replicate(),
            attempt_id: self.attempt_id.clone(),
            offer_epoch: self.offer_epoch,
            terminal_at: self.terminal_at,
            replay_allowed: self.replay_allowed,
        }
    }
}

impl DeepView for ProjectEnvironmentRecord {
    type V = ProjectEnvironmentRecord;

    open spec fn deep_view(&self) -> ProjectEnvironmentRecord {
        *self
    }
}

impl Replicate for ProjectEnvironmentRecord {
    fn replicate(&self) -> (r: Self) {
        ProjectEnvironmentRecord {
            tenant: self.tenant.replicate(),
            project: self.project.replicate(),
            name: self.name.clone(),
            immutable_digest: self.immutable_digest.replicate(),
            definition: self.definition.replicate(),
            enabled: self.enabled,
            updated_at: self.updated_at,
        }
    }
}

impl DeepView for SecretAuditRecord {
    type V = SecretAuditRecord;

    open spec fn deep_view(&self) -> SecretAuditRecord {
        *self
    }
}

impl Replicate for SecretAuditRecord {
    fn replicate(&self) -> (r: Self) {
        SecretAuditRecord {
            sequence: self.sequence,
            tenant: self.tenant.replicate(),
            project: self.project.replicate(),
            name: self.name.clone(),
            process: self.process.replicate(),
            task: self.task.replicate(),
            node: self.node.replicate(),
            event: self.event.clone(),
            occurred_at: self.occurred_at,
        }
    }
}

impl DeepView for ProjectScopedName {
    type V = ProjectScopedName;

    open spec fn deep_view(&self) -> ProjectScopedName {
        *self
    }
}

impl Replicate for ProjectScopedName {
    fn replicate(&self) -> (r: Self) {
        ProjectScopedName {
            tenant: self.tenant.replicate(),
            project: self.project.replicate(),
            name: self.name.clone(),
        }
    }
}

impl DeepView for ProjectScope {
    type V = ProjectScope;

    open spec fn deep_view(&self) -> ProjectScope {
        *self
    }
}

impl Replicate for ProjectScope {
    fn replicate(&self) -> (r: Self) {
        ProjectScope {
            tenant: self.tenant.replicate(),
            project: self.project.replicate(),
        }
    }
}

impl DeepView for DeliveryKey {
    type V = DeliveryKey;

    open spec fn deep_view(&self) -> DeliveryKey {
        *self
    }
}

impl Replicate for DeliveryKey {
    fn replicate(&self) -> (r: Self) {
        DeliveryKey {
            binding_id: self.binding_id.clone(),
            delivery_id: self.delivery_id.clone(),
        }
    }
}

impl DeepView for TenantScopedName {
    type V = TenantScopedName;

    open spec fn deep_view(&self) -> TenantScopedName {
        *self
    }
}

impl Replicate for TenantScopedName {
    fn replicate(&self) -> (r: Self) {
        TenantScopedName {
            tenant: self.tenant.replicate(),
            name: self.name.clone(),
        }
    }
}

impl DeepView for ProjectUserKey {
    type V = ProjectUserKey;

    open spec fn deep_view(&self) -> ProjectUserKey {
        *self
    }
}

impl Replicate for ProjectUserKey {
    fn replicate(&self) -> (r: Self) {
        ProjectUserKey {
            tenant: self.tenant.replicate(),
            project: self.project.replicate(),
            user: self.user.replicate(),
        }
    }
}

impl DeepView for ProjectAgentKey {
    type V = ProjectAgentKey;

    open spec fn deep_view(&self) -> ProjectAgentKey {
        *self
    }
}

impl Replicate for ProjectAgentKey {
    fn replicate(&self) -> (r: Self) {
        ProjectAgentKey {
            tenant: self.tenant.replicate(),
            project: self.project.replicate(),
            agent: self.agent.replicate(),
        }
    }
}

/// An automated run stage with its list of revision environments taken by
/// view.
pub struct AutomatedRunStageView {
    pub run: StoredDocument,
    pub run_key: Digest,
    pub source: Option<StoredDocument>,
    pub revision_environments: Seq<StoredDocument>,
    pub revision: Option<StoredDocument>,
    pub compilation_request: Option<StoredDocument>,
    pub assignment_retry: CompilerAssignmentRetryRecord,
    pub compiled_bundle: Option<StoredDocument>,
    pub compiled_summary: Option<StoredDocument>,
    pub trigger_context: Option<StoredDocument>,
    pub launch_attempt: Option<String>,
}

impl DeepView for AutomatedRunStageRecord {
    type V = AutomatedRunStageView;

    open spec fn deep_view(&self) -> AutomatedRunStageView {
        AutomatedRunStageView {
            run: self.run,
            run_key: self.run_key,
            source: self.source,
            revision_environments: self.revision_environments.deep_view(),
            revision: self.revision,
            compilation_request: self.compilation_request,
            assignment_retry: self.assignment_retry,
            compiled_bundle: self.compiled_bundle,
            compiled_summary: self.compiled_summary,
            trigger_context: self.trigger_context,
            launch_attempt: self.launch_attempt,
        }
    }
}

impl Replicate for AutomatedRunStageRecord {
    fn replicate(&self) -> (r: Self) {
        AutomatedRunStageRecord {
            run: self.run.replicate(),
            run_key: self.run_key.replicate(),
            source: self.source.replicate(),
            revision_environments: replicate_all(&self.revision_environments),
            revision: self.revision.replicate(),
            compilation_request: self.compilation_request.replicate(),
            assignment_retry: self.assignment_retry,
            compiled_bundle: self.compiled_bundle.replicate(),
            compiled_summary: self.compiled_summary.replicate(),
            trigger_context: self.trigger_context.replicate(),
            launch_attempt: match &self.launch_attempt {
                Some(a) => Some(a.clone()),
                None => None,
            },
        }
    }
}

/// An encrypted project secret with its trusted references taken by view.
pub struct EncryptedProjectSecretView {
    pub tenant: TenantId,
    pub project: ProjectId,
    pub name: String,
    pub ciphertext_base64: String,
    pub nonce_base64: String,
    pub key_version: u32,
    pub allowed_entrypoint: String,
    pub allowed_task_definition: String,
    pub allowed_trusted_refs: Seq<Seq<char>>,
    pub created_at: u64,
    pub updated_at: u64,
    pub revoked_at: Option<u64>,
}

impl DeepView for EncryptedProjectSecretRecord {
    type V = EncryptedProjectSecretView;

    open spec fn deep_view(&self) -> EncryptedProjectSecretView {
        EncryptedProjectSecretView {
            tenant: self.tenant,
            project: self.project,
            name: self.name,
            ciphertext_base64: self.ciphertext_base64,
            nonce_base64: self.nonce_base64,
            key_version: self.key_version,
            allowed_entrypoint: self.allowed_entrypoint,
            allowed_task_definition: self.allowed_task_definition,
            allowed_trusted_refs: self.allowed_trusted_refs.deep_view(),
            created_at: self.created_at,
            updated_at: self.updated_at,
            revoked_at: self.revoked_at,
        }
    }
}

impl Replicate for EncryptedProjectSecretRecord {
    fn replicate(&self) -> (r: Self) {
        EncryptedProjectSecretRecord {
            tenant: self.tenant.replicate(),
            project: self.project.replicate(),
            name: self.name.clone(),
            ciphertext_base64: self.ciphertext_base64.clone(),
            nonce_base64: self.nonce_base64.clone(),
            key_version: self.key_version,
            allowed_entrypoint: self.allowed_entrypoint.clone(),
            allowed_task_definition: self.allowed_task_definition.clone(),
            allowed_trusted_refs: replicate_all(&self.allowed_trusted_refs),
            created_at: self.created_at,
            updated_at: self.updated_at,
            revoked_at: self.revoked_at,
        }
    }
}

} // verus!
