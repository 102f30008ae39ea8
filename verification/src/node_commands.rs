//! The decisions of the node commands that talk to a coordinator: whom they
//! address and under which scope, what they require before they send, how
//! each answer of the coordinator is judged, and the checks of a node's
//! locally stored credential.
use crate::auth::StoredCliSession;
use crate::digest::{sha256_text, Digest};
use crate::node::{
    effective_scope, session_field, session_or_effective_scope_value, CapabilityGrantDisclosure,
    NodeAttachPlan, NodeEnrollmentPlan, ScopeField,
};
use vstd::prelude::*;

verus! {

// ---------------------------------------------------------------------
// Scope
// ---------------------------------------------------------------------

/// The scope options that coordinator commands share.
pub struct CliScopeArgs {
    pub coordinator: Option<String>,
    pub tenant: String,
    pub project: String,
    pub user: String,
}

/// The coordinator and scope that a command acts under.
pub struct CommandScope {
    pub coordinator: String,
    pub tenant: String,
    pub project: String,
    pub user: String,
}

/// The coordinator a command addresses: the one on the command line, else
/// the stored session's.
pub open spec fn command_coordinator(
    scope: CliScopeArgs,
    stored_session: Option<StoredCliSession>,
) -> Option<Seq<char>> {
    match scope.coordinator {
        Some(c) => Some(c@),
        None => match stored_session {
            Some(s) => Some(s.coordinator@),
            None => None,
        },
    }
}

/// The value of one scope field: an authenticated stored session decides;
/// otherwise the command line, with the stored session's value in place of
/// the default.
pub open spec fn scope_value(
    stored_session: Option<StoredCliSession>,
    cli: Seq<char>,
    field: ScopeField,
    default: Seq<char>,
) -> Seq<char> {
    match stored_session {
        Some(s) => if s.session_secret is Some {
            session_field(s, field)
        } else {
            effective_scope(cli, Some(session_field(s, field)), default)
        },
        None => effective_scope(cli, None, default),
    }
}

/// The scope a command acts under, once it has a coordinator.
pub open spec fn command_scope_matches(
    r: CommandScope,
    scope: CliScopeArgs,
    stored_session: Option<StoredCliSession>,
) -> bool {
    &&& Some(r.coordinator@) == command_coordinator(scope, stored_session)
    &&& r.tenant@ == scope_value(stored_session, scope.tenant@, ScopeField::Tenant, "tenant"@)
    &&& r.project@ == scope_value(stored_session, scope.project@, ScopeField::Project, "project"@)
    &&& r.user@ == scope_value(stored_session, scope.user@, ScopeField::User, "user"@)
}

/// The coordinator and scope of a node command; `None` when neither the
/// command line nor a stored session names a coordinator.
pub fn resolve_command_scope(scope: &CliScopeArgs, stored_session: Option<&StoredCliSession>) -> (r:
    Option<CommandScope>)
    ensures
        match r {
            Some(c) => command_scope_matches(
                c,
                *scope,
                match stored_session {
                    Some(s) => Some(*s),
                    None => None,
                },
            ),
            None => command_coordinator(
                *scope,
                match stored_session {
                    Some(s) => Some(*s),
                    None => None,
                },
            ) is None,
        },
{
    let coordinator = match &scope.coordinator {
        Some(c) => c.clone(),
        None => match stored_session {
            Some(s) => s.coordinator.clone(),
            None => return None,
        },
    };
    let tenant = session_or_effective_scope_value(
        stored_session,
        scope.tenant.as_str(),
        ScopeField::Tenant,
        "tenant",
    );
    let project = session_or_effective_scope_value(
        stored_session,
        scope.project.as_str(),
        ScopeField::Project,
        "project",
    );
    let user = session_or_effective_scope_value(
        stored_session,
        scope.user.as_str(),
        ScopeField::User,
        "user",
    );
    Some(CommandScope { coordinator, tenant, project, user })
}

// ---------------------------------------------------------------------
// node revoke
// ---------------------------------------------------------------------

/// What `clusterflux node revoke` does before it sends anything.
pub enum NodeRevokePlan {
    /// Nothing happens without `--yes`; this command would confirm it.
    RequiresConfirmation { confirm_command: String },
    /// No coordinator is known.
    RequiresCoordinator,
    /// Ask this coordinator to revoke the node's credential.
    Revoke { scope: CommandScope },
}

/// The command that confirms revoking `node`.
pub open spec fn revoke_confirm_command(node: Seq<char>) -> Seq<char> {
    "clusterflux node revoke --node "@ + node + " --yes"@
}

/// The plan of `node revoke`: without `--yes` it only asks for
/// confirmation; with it, it revokes through the command's coordinator,
/// when there is one.
pub fn node_revoke_plan(
    scope: &CliScopeArgs,
    node: &str,
    yes: bool,
    stored_session: Option<&StoredCliSession>,
) -> (r: NodeRevokePlan)
    ensures
        !yes ==> (r matches NodeRevokePlan::RequiresConfirmation { confirm_command }
            && confirm_command@ == revoke_confirm_command(node@)),
        yes && command_coordinator(
            *scope,
            match stored_session {
                Some(s) => Some(*s),
                None => None,
            },
        ) is None ==> r is RequiresCoordinator,
        yes && command_coordinator(
            *scope,
            match stored_session {
                Some(s) => Some(*s),
                None => None,
            },
        ) is Some ==> (r matches NodeRevokePlan::Revoke { scope: c } && command_scope_matches(
            c,
            *scope,
            match stored_session {
                Some(s) => Some(*s),
                None => None,
            },
        )),
{
    if !yes {
        let mut confirm_command = "clusterflux node revoke --node ".to_owned();
        confirm_command.append(node);
        confirm_command.append(" --yes");
        return NodeRevokePlan::RequiresConfirmation { confirm_command };
    }
    match resolve_command_scope(scope, stored_session) {
        Some(c) => NodeRevokePlan::Revoke { scope: c },
        None => NodeRevokePlan::RequiresCoordinator,
    }
}

// ---------------------------------------------------------------------
// node enroll
// ---------------------------------------------------------------------

/// What `clusterflux node enroll` does before it sends anything.
pub enum NodeEnrollPlan {
    /// No coordinator is known: the command succeeds with a report that a
    /// coordinator is required, no grant, and the requested lifetime.
    RequiresCoordinator { requested_ttl_seconds: u64 },
    /// Ask this coordinator for a grant of the given lifetime.
    RequestGrant { scope: CommandScope, ttl_seconds: u64 },
}

/// The plan of `node enroll`: an enrollment grant is asked of the
/// command's coordinator when there is one; otherwise the command reports
/// that a coordinator is required, echoing the requested lifetime.
pub fn node_enroll_plan(
    scope: &CliScopeArgs,
    ttl_seconds: u64,
    stored_session: Option<&StoredCliSession>,
) -> (r: NodeEnrollPlan)
    ensures
        command_coordinator(
            *scope,
            match stored_session {
                Some(s) => Some(*s),
                None => None,
            },
        ) is None ==> r == (NodeEnrollPlan::RequiresCoordinator {
            requested_ttl_seconds: ttl_seconds,
        }),
        command_coordinator(
            *scope,
            match stored_session {
                Some(s) => Some(*s),
                None => None,
            },
        ) is Some ==> (r matches NodeEnrollPlan::RequestGrant { scope: c, ttl_seconds: t }
            && t == ttl_seconds && command_scope_matches(
            c,
            *scope,
            match stored_session {
                Some(s) => Some(*s),
                None => None,
            },
        )),
{
    match resolve_command_scope(scope, stored_session) {
        Some(c) => NodeEnrollPlan::RequestGrant { scope: c, ttl_seconds },
        None => NodeEnrollPlan::RequiresCoordinator { requested_ttl_seconds: ttl_seconds },
    }
}

// ---------------------------------------------------------------------
// Answers of the coordinator
// ---------------------------------------------------------------------

/// A coordinator answer that a node command does not expect.
#[derive(Clone, Copy, Debug, PartialEq, Eq, Structural)]
pub enum NodeCommandError {
    UnexpectedEnrollmentResponse,
    EnrollmentScopeMismatch,
    UnexpectedListResponse,
    UnexpectedRevokeResponse,
}

pub open spec fn node_command_error_message(e: NodeCommandError) -> Seq<char> {
    match e {
        NodeCommandError::UnexpectedEnrollmentResponse =>
            "coordinator returned an unexpected node-enrollment response"@,
        NodeCommandError::EnrollmentScopeMismatch =>
            "coordinator enrollment grant scope does not match the request"@,
        NodeCommandError::UnexpectedListResponse =>
            "coordinator returned an unexpected node-list response"@,
        NodeCommandError::UnexpectedRevokeResponse =>
            "coordinator returned an unexpected node-revoke response"@,
    }
}

impl NodeCommandError {
    pub fn message(&self) -> (s: &'static str)
        ensures
            s@ == node_command_error_message(*self),
    {
        match self {
            NodeCommandError::UnexpectedEnrollmentResponse =>
                "coordinator returned an unexpected node-enrollment response",
            NodeCommandError::EnrollmentScopeMismatch =>
                "coordinator enrollment grant scope does not match the request",
            NodeCommandError::UnexpectedListResponse =>
                "coordinator returned an unexpected node-list response",
            NodeCommandError::UnexpectedRevokeResponse =>
                "coordinator returned an unexpected node-revoke response",
        }
    }
}

/// The coordinator's answer to a request for a node enrollment grant.
pub enum EnrollmentGrantResponse {
    GrantCreated {
        tenant: String,
        project: String,
        grant: String,
        scope: String,
        expires_at_epoch_seconds: u64,
    },
    Other,
}

/// The `enrollment_grant` object of `node enroll`.
pub struct EnrollmentGrantSummary {
    pub grant: String,
    pub tenant: String,
    pub project: String,
    pub user: String,
    pub scope: String,
    pub ttl_seconds: u64,
    pub expires_at_epoch_seconds: u64,
    pub short_lived: bool,
    pub exchange_for_persistent_node_identity: bool,
    pub node_credentials_separate_from_user_session: bool,
}

/// The grant that the coordinator created, provided it is for the tenant
/// and project that were asked for.
pub fn node_enrollment_grant_summary(
    response: EnrollmentGrantResponse,
    tenant: &str,
    project: &str,
    user: &str,
    ttl_seconds: u64,
) -> (r: Result<EnrollmentGrantSummary, NodeCommandError>)
    ensures
        match response {
            EnrollmentGrantResponse::GrantCreated {
                tenant: t,
                project: p,
                grant,
                scope,
                expires_at_epoch_seconds,
            } => if t@ == tenant@ && p@ == project@ {
                r matches Ok(s) && s.grant == grant && s.tenant@ == tenant@ && s.project@
                    == project@ && s.user@ == user@ && s.scope == scope && s.ttl_seconds
                    == ttl_seconds && s.expires_at_epoch_seconds == expires_at_epoch_seconds
                    && s.short_lived && s.exchange_for_persistent_node_identity
                    && s.node_credentials_separate_from_user_session
            } else {
                r == Err::<EnrollmentGrantSummary, _>(NodeCommandError::EnrollmentScopeMismatch)
            },
            EnrollmentGrantResponse::Other => r == Err::<EnrollmentGrantSummary, _>(
                NodeCommandError::UnexpectedEnrollmentResponse,
            ),
        },
{
    match response {
        EnrollmentGrantResponse::GrantCreated {
            tenant: response_tenant,
            project: response_project,
            grant,
            scope,
            expires_at_epoch_seconds,
        } => {
            if !crate::text::str_eq(response_tenant.as_str(), tenant) || !crate::text::str_eq(
                response_project.as_str(),
                project,
            ) {
                return Err(NodeCommandError::EnrollmentScopeMismatch);
            }
            Ok(
                EnrollmentGrantSummary {
                    grant,
                    tenant: response_tenant,
                    project: response_project,
                    user: user.to_owned(),
                    scope,
                    ttl_seconds,
                    expires_at_epoch_seconds,
                    short_lived: true,
                    exchange_for_persistent_node_identity: true,
                    node_credentials_separate_from_user_session: true,
                },
            )
        },
        EnrollmentGrantResponse::Other => Err(NodeCommandError::UnexpectedEnrollmentResponse),
    }
}

/// Only a list of node summaries answers `node list` and `node status`.
pub fn check_node_list_response(is_node_summaries: bool) -> (r: Result<(), NodeCommandError>)
    ensures
        r is Ok <==> is_node_summaries,
        !is_node_summaries ==> r == Err::<(), _>(NodeCommandError::UnexpectedListResponse),
{
    if is_node_summaries {
        Ok(())
    } else {
        Err(NodeCommandError::UnexpectedListResponse)
    }
}

/// The coordinator's answer to a revocation.
#[derive(Clone, Copy, Debug, PartialEq, Eq, Structural)]
pub enum RevokeResponse {
    Revoked { descriptor_removed: bool, queued_assignments_removed: u64 },
    Other,
}

/// What a revocation removed: the node's descriptor, and how many queued
/// assignments.
#[derive(Clone, Copy, Debug, PartialEq, Eq, Structural)]
pub struct RevocationOutcome {
    pub credential_revoked: bool,
    pub descriptor_removed: bool,
    pub queued_assignments_removed: u64,
    pub node_credentials_separate_from_user_session: bool,
}

/// The outcome of a revocation that the coordinator confirmed.
pub fn node_revocation_outcome(response: RevokeResponse) -> (r: Result<
    RevocationOutcome,
    NodeCommandError,
>)
    ensures
        match response {
            RevokeResponse::Revoked { descriptor_removed, queued_assignments_removed } => r == Ok::<
                _,
                NodeCommandError,
            >(
                RevocationOutcome {
                    credential_revoked: true,
                    descriptor_removed,
                    queued_assignments_removed,
                    node_credentials_separate_from_user_session: true,
                },
            ),
            RevokeResponse::Other => r == Err::<RevocationOutcome, _>(
                NodeCommandError::UnexpectedRevokeResponse,
            ),
        },
{
    match response {
        RevokeResponse::Revoked { descriptor_removed, queued_assignments_removed } => Ok(
            RevocationOutcome {
                credential_revoked: true,
                descriptor_removed,
                queued_assignments_removed,
                node_credentials_separate_from_user_session: true,
            },
        ),
        RevokeResponse::Other => Err(NodeCommandError::UnexpectedRevokeResponse),
    }
}

// ---------------------------------------------------------------------
// node attach
// ---------------------------------------------------------------------

/// Why `node attach` stopped.
#[derive(Clone, Copy, Debug, PartialEq, Eq, Structural)]
pub enum NodeAttachError {
    CoordinatorRequired,
    PublicKeyMismatch,
    UnexpectedIdentityResponse,
    UnexpectedHeartbeatResponse,
    UnexpectedCapabilityResponse,
}

pub open spec fn node_attach_error_message(e: NodeAttachError) -> Seq<char> {
    match e {
        NodeAttachError::CoordinatorRequired => "node attach execution requires --coordinator"@,
        NodeAttachError::PublicKeyMismatch =>
            "node attach --public-key must match CLUSTERFLUX_NODE_PRIVATE_KEY or the stored local node credential"@,
        NodeAttachError::UnexpectedIdentityResponse =>
            "coordinator returned an unexpected node-identity response"@,
        NodeAttachError::UnexpectedHeartbeatResponse =>
            "coordinator returned an unexpected node-heartbeat response"@,
        NodeAttachError::UnexpectedCapabilityResponse =>
            "coordinator returned an unexpected node-capability response"@,
    }
}

impl NodeAttachError {
    pub fn message(&self) -> (s: &'static str)
        ensures
            s@ == node_attach_error_message(*self),
    {
        match self {
            NodeAttachError::CoordinatorRequired => "node attach execution requires --coordinator",
            NodeAttachError::PublicKeyMismatch =>
                "node attach --public-key must match CLUSTERFLUX_NODE_PRIVATE_KEY or the stored local node credential",
            NodeAttachError::UnexpectedIdentityResponse =>
                "coordinator returned an unexpected node-identity response",
            NodeAttachError::UnexpectedHeartbeatResponse =>
                "coordinator returned an unexpected node-heartbeat response",
            NodeAttachError::UnexpectedCapabilityResponse =>
                "coordinator returned an unexpected node-capability response",
        }
    }
}

/// The coordinator and public key that `node attach` uses: a coordinator
/// must be named, and a public key given on the command line must be the
/// one derived from the node's private key.
pub fn node_attach_preflight(
    coordinator: Option<String>,
    public_key: Option<String>,
    derived_public_key: String,
) -> (r: Result<(String, String), NodeAttachError>)
    ensures
        coordinator is None ==> r == Err::<(String, String), _>(NodeAttachError::CoordinatorRequired),
        coordinator matches Some(c) ==> match public_key {
            Some(k) => if k@ == derived_public_key@ {
                r matches Ok((rc, rk)) && rc == c && rk@ == derived_public_key@
            } else {
                r == Err::<(String, String), _>(NodeAttachError::PublicKeyMismatch)
            },
            None => r matches Ok((rc, rk)) && rc == c && rk == derived_public_key,
        },
{
    let coordinator = match coordinator {
        Some(c) => c,
        None => return Err(NodeAttachError::CoordinatorRequired),
    };
    let public_key = match public_key {
        Some(k) => k,
        None => derived_public_key.clone(),
    };
    if !crate::text::str_eq(public_key.as_str(), derived_public_key.as_str()) {
        return Err(NodeAttachError::PublicKeyMismatch);
    }
    Ok((coordinator, public_key))
}

/// What `node attach` shows about its exchange with the coordinator.
pub struct NodeAttachBoundaryEvidence {
    pub cli_contacted_coordinator: bool,
    pub coordinator_address: String,
    pub used_enrollment_exchange: bool,
    pub coordinator_session_requests: u64,
}

/// The report of a completed `node attach`.
pub struct NodeAttachReport {
    pub node: String,
    pub plan: NodeAttachPlan,
    pub grant_disclosures: Vec<CapabilityGrantDisclosure>,
    pub boundary: NodeAttachBoundaryEvidence,
}

fn copy_disclosures(v: &Vec<CapabilityGrantDisclosure>) -> (r: Vec<CapabilityGrantDisclosure>)
    ensures
        r@.map_values(|d: CapabilityGrantDisclosure| d@) == v@.map_values(
            |d: CapabilityGrantDisclosure| d@,
        ),
{
    let mut out: Vec<CapabilityGrantDisclosure> = Vec::new();
    for i in 0..v.len()
        invariant
            out@.len() == i,
            i <= v@.len(),
            forall|k: int| 0 <= k < i ==> #[trigger] out@[k]@ == v@[k]@,
    {
        let d = &v[i];
        out.push(
            CapabilityGrantDisclosure {
                capability: d.capability,
                grant: d.grant.clone(),
                description: d.description.clone(),
                risk: d.risk.clone(),
                coordinator_policy_limited: d.coordinator_policy_limited,
            },
        );
    }
    assert(out@.map_values(|d: CapabilityGrantDisclosure| d@) =~= v@.map_values(
        |d: CapabilityGrantDisclosure| d@,
    ));
    out
}

/// The report of a `node attach` that completed against `coordinator`
/// after `coordinator_session_requests` requests, for a node whose private
/// key gives `derived_public_key`: the enrollment, when there is one, is
/// fingerprinted by that key, and the evidence tells whether the
/// enrollment exchange was used.
pub fn node_attach_outcome(
    plan: NodeAttachPlan,
    coordinator: String,
    derived_public_key: &str,
    coordinator_session_requests: u64,
) -> (r: NodeAttachReport)
    ensures
        r.node == plan.node,
        r.plan.node == plan.node,
        r.plan.coordinator == plan.coordinator,
        r.plan.capabilities == plan.capabilities,
        r.plan.detection == plan.detection,
        r.plan.grant_disclosures == plan.grant_disclosures,
        r.grant_disclosures@.map_values(|d: CapabilityGrantDisclosure| d@)
            == plan.grant_disclosures@.map_values(|d: CapabilityGrantDisclosure| d@),
        r.boundary.cli_contacted_coordinator,
        r.boundary.coordinator_address == coordinator,
        r.boundary.used_enrollment_exchange == plan.enrollment is Some,
        r.boundary.coordinator_session_requests == coordinator_session_requests,
        r.plan.enrollment is Some <==> plan.enrollment is Some,
        plan.enrollment matches Some(e) ==> (r.plan.enrollment matches Some(re) && re.grant
            == e.grant && re.exchanges_short_lived_grant_for_long_lived_node_identity
            == e.exchanges_short_lived_grant_for_long_lived_node_identity
            && re.public_key_fingerprint@ == sha256_text(
            vstd::utf8::encode_utf8(derived_public_key@),
        )),
{
    let NodeAttachPlan { node, coordinator: plan_coordinator, capabilities, detection, grant_disclosures, enrollment } = plan;
    let used_enrollment_exchange = enrollment.is_some();
    let enrollment = match enrollment {
        Some(e) => Some(
            NodeEnrollmentPlan {
                grant: e.grant,
                public_key_fingerprint: Digest::sha256(derived_public_key.as_bytes()),
                exchanges_short_lived_grant_for_long_lived_node_identity: e.exchanges_short_lived_grant_for_long_lived_node_identity,
            },
        ),
        None => None,
    };
    let disclosures = copy_disclosures(&grant_disclosures);
    let report_node = node.clone();
    NodeAttachReport {
        node: report_node,
        plan: NodeAttachPlan {
            node,
            coordinator: plan_coordinator,
            capabilities,
            detection,
            grant_disclosures,
            enrollment,
        },
        grant_disclosures: disclosures,
        boundary: NodeAttachBoundaryEvidence {
            cli_contacted_coordinator: true,
            coordinator_address: coordinator,
            used_enrollment_exchange,
            coordinator_session_requests,
        },
    }
}

/// The exchanges of `node attach`, in order.
#[derive(Clone, Copy, Debug, PartialEq, Eq, Structural)]
pub enum NodeAttachStage {
    /// Register the node's identity, by exchanging an enrollment grant or
    /// by attaching directly.
    Identity { enrollment: bool },
    /// Send the signed heartbeat.
    Heartbeat,
    /// Report the node's capabilities.
    Capabilities,
}

/// The kind of a coordinator answer during `node attach`.
#[derive(Clone, Copy, Debug, PartialEq, Eq, Structural)]
pub enum NodeAttachAnswer {
    NodeAttached,
    NodeEnrollmentExchanged,
    NodeHeartbeat,
    NodeCapabilitiesRecorded,
    Other,
}

/// The stage after `stage` once the coordinator gave `answer`: `Ok(None)`
/// when the attach is complete.
pub open spec fn attach_step_spec(stage: NodeAttachStage, answer: NodeAttachAnswer) -> Result<
    Option<NodeAttachStage>,
    NodeAttachError,
> {
    match stage {
        NodeAttachStage::Identity { enrollment } => if (enrollment && answer
            == NodeAttachAnswer::NodeEnrollmentExchanged) || (!enrollment && answer
            == NodeAttachAnswer::NodeAttached) {
            Ok(Some(NodeAttachStage::Heartbeat))
        } else {
            Err(NodeAttachError::UnexpectedIdentityResponse)
        },
        NodeAttachStage::Heartbeat => if answer == NodeAttachAnswer::NodeHeartbeat {
            Ok(Some(NodeAttachStage::Capabilities))
        } else {
            Err(NodeAttachError::UnexpectedHeartbeatResponse)
        },
        NodeAttachStage::Capabilities => if answer == NodeAttachAnswer::NodeCapabilitiesRecorded {
            Ok(None)
        } else {
            Err(NodeAttachError::UnexpectedCapabilityResponse)
        },
    }
}

/// Judges the coordinator's answer at one stage of `node attach`.
pub fn node_attach_step(stage: NodeAttachStage, answer: NodeAttachAnswer) -> (r: Result<
    Option<NodeAttachStage>,
    NodeAttachError,
>)
    ensures
        r == attach_step_spec(stage, answer),
{
    match stage {
        NodeAttachStage::Identity { enrollment } => {
            if (enrollment && answer == NodeAttachAnswer::NodeEnrollmentExchanged) || (!enrollment
                && answer == NodeAttachAnswer::NodeAttached) {
                Ok(Some(NodeAttachStage::Heartbeat))
            } else {
                Err(NodeAttachError::UnexpectedIdentityResponse)
            }
        },
        NodeAttachStage::Heartbeat => {
            if answer == NodeAttachAnswer::NodeHeartbeat {
                Ok(Some(NodeAttachStage::Capabilities))
            } else {
                Err(NodeAttachError::UnexpectedHeartbeatResponse)
            }
        },
        NodeAttachStage::Capabilities => {
            if answer == NodeAttachAnswer::NodeCapabilitiesRecorded {
                Ok(None)
            } else {
                Err(NodeAttachError::UnexpectedCapabilityResponse)
            }
        },
    }
}

/// Where a run of `node attach` from `stage` ends when the coordinator
/// gives `answers` in turn: `Ok(None)` once complete, `Ok(Some(s))` when
/// it still waits at stage `s`.
pub open spec fn attach_run(stage: NodeAttachStage, answers: Seq<NodeAttachAnswer>) -> Result<
    Option<NodeAttachStage>,
    NodeAttachError,
>
    decreases answers.len(),
{
    if answers.len() == 0 {
        Ok(Some(stage))
    } else {
        match attach_step_spec(stage, answers[0]) {
            Ok(Some(next)) => attach_run(next, answers.drop_first()),
            other => other,
        }
    }
}

/// The identity answer that a run expects.
pub open spec fn identity_answer(enrollment: bool) -> NodeAttachAnswer {
    if enrollment {
        NodeAttachAnswer::NodeEnrollmentExchanged
    } else {
        NodeAttachAnswer::NodeAttached
    }
}

/// `node attach` completes after exactly three answers: the identity answer
/// that fits how the node enrolls, a heartbeat, and recorded capabilities,
/// in that order; any other third answer, or any wrong answer before it,
/// stops it with an error.
pub proof fn node_attach_completes_exactly_in_order(enrollment: bool, answers: Seq<NodeAttachAnswer>)
    requires
        answers.len() == 3,
    ensures
        attach_run(NodeAttachStage::Identity { enrollment }, answers) == Ok::<
            Option<NodeAttachStage>,
            NodeAttachError,
        >(None) <==> answers == seq![
            identity_answer(enrollment),
            NodeAttachAnswer::NodeHeartbeat,
            NodeAttachAnswer::NodeCapabilitiesRecorded,
        ],
        attach_run(NodeAttachStage::Identity { enrollment }, answers) is Err
            <==> answers != seq![
            identity_answer(enrollment),
            NodeAttachAnswer::NodeHeartbeat,
            NodeAttachAnswer::NodeCapabilitiesRecorded,
        ],
{
    reveal_with_fuel(attach_run, 4);
    let expected = seq![
        identity_answer(enrollment),
        NodeAttachAnswer::NodeHeartbeat,
        NodeAttachAnswer::NodeCapabilitiesRecorded,
    ];
    let a1 = answers.drop_first();
    let a2 = a1.drop_first();
    let a3 = a2.drop_first();
    assert(a3.len() == 0);
    assert(a1[0] == answers[1]);
    assert(a2[0] == answers[2]);
    let first = attach_step_spec(NodeAttachStage::Identity { enrollment }, answers[0]);
    if answers[0] != expected[0] {
        assert(first is Err);
        assert(answers != expected);
    } else {
        assert(first == Ok::<Option<NodeAttachStage>, NodeAttachError>(
            Some(NodeAttachStage::Heartbeat),
        ));
        let second = attach_step_spec(NodeAttachStage::Heartbeat, a1[0]);
        if answers[1] != expected[1] {
            assert(second is Err);
            assert(answers != expected);
        } else {
            let third = attach_step_spec(NodeAttachStage::Capabilities, a2[0]);
            assert(attach_run(NodeAttachStage::Capabilities, a2) == third);
            if answers[2] != expected[2] {
                assert(third is Err);
                assert(answers != expected);
            } else {
                assert(answers =~= expected);
            }
        }
    }
}

// ---------------------------------------------------------------------
// The local node credential
// ---------------------------------------------------------------------

/// What is at the path of a node's credential file.
#[derive(Clone, Copy, Debug, PartialEq, Eq, Structural)]
pub enum CredentialPathKind {
    Missing,
    SymbolicLink,
    NotRegularFile,
    RegularFile,
}

/// Why a stored node credential was not used.
pub enum NodeCredentialError {
    SymbolicLink { path: String },
    NotRegularFile { path: String },
    WrongNode { path: String, stored_node: String, node: String },
    KeyMismatch { path: String },
}

pub open spec fn node_credential_error_message(e: NodeCredentialError) -> Seq<char> {
    match e {
        NodeCredentialError::SymbolicLink { path } =>
            "refusing to read node credential through symbolic link "@ + path@,
        NodeCredentialError::NotRegularFile { path } => "node credential path "@ + path@
            + " is not a regular file"@,
        NodeCredentialError::WrongNode { path, stored_node, node } => "stored node credential "@
            + path@ + " belongs to node `"@ + stored_node@ + "` instead of `"@ + node@ + "`"@,
        NodeCredentialError::KeyMismatch { path } => "stored node credential "@ + path@
            + " has a public key that does not match its private key"@,
    }
}

impl NodeCredentialError {
    pub fn message(&self) -> (s: String)
        ensures
            s@ == node_credential_error_message(*self),
    {
        match self {
            NodeCredentialError::SymbolicLink { path } => {
                let mut s = "refusing to read node credential through symbolic link ".to_owned();
                s.append(path.as_str());
                s
            },
            NodeCredentialError::NotRegularFile { path } => {
                let mut s = "node credential path ".to_owned();
                s.append(path.as_str());
                s.append(" is not a regular file");
                s
            },
            NodeCredentialError::WrongNode { path, stored_node, node } => {
                let mut s = "stored node credential ".to_owned();
                s.append(path.as_str());
                s.append(" belongs to node `");
                s.append(stored_node.as_str());
                s.append("` instead of `");
                s.append(node.as_str());
                s.append("`");
                s
            },
            NodeCredentialError::KeyMismatch { path } => {
                let mut s = "stored node credential ".to_owned();
                s.append(path.as_str());
                s.append(" has a public key that does not match its private key");
                s
            },
        }
    }
}

/// Whether a credential file is there to be read: a regular file is, a
/// missing one is not, and a symbolic link or anything else is refused.
pub fn credential_file_present(kind: CredentialPathKind, path: &str) -> (r: Result<
    bool,
    NodeCredentialError,
>)
    ensures
        kind == CredentialPathKind::Missing ==> r matches Ok(false),
        kind == CredentialPathKind::RegularFile ==> r matches Ok(true),
        kind == CredentialPathKind::SymbolicLink ==> (r matches Err(
            NodeCredentialError::SymbolicLink { path: p },
        ) && p@ == path@),
        kind == CredentialPathKind::NotRegularFile ==> (r matches Err(
            NodeCredentialError::NotRegularFile { path: p },
        ) && p@ == path@),
{
    match kind {
        CredentialPathKind::Missing => Ok(false),
        CredentialPathKind::RegularFile => Ok(true),
        CredentialPathKind::SymbolicLink => Err(
            NodeCredentialError::SymbolicLink { path: path.to_owned() },
        ),
        CredentialPathKind::NotRegularFile => Err(
            NodeCredentialError::NotRegularFile { path: path.to_owned() },
        ),
    }
}

/// A stored credential may be used for `node` only when it was stored for
/// that node and its public key is the one its private key gives.
pub fn check_stored_node_credential(
    path: &str,
    stored_node: &str,
    node: &str,
    stored_public_key: &str,
    derived_public_key: &str,
) -> (r: Result<(), NodeCredentialError>)
    ensures
        stored_node@ != node@ ==> (r matches Err(
            NodeCredentialError::WrongNode { path: p, stored_node: s, node: n },
        ) && p@ == path@ && s@ == stored_node@ && n@ == node@),
        stored_node@ == node@ && stored_public_key@ != derived_public_key@ ==> (r matches Err(
            NodeCredentialError::KeyMismatch { path: p },
        ) && p@ == path@),
        r is Ok <==> stored_node@ == node@ && stored_public_key@ == derived_public_key@,
{
    if !crate::text::str_eq(stored_node, node) {
        return Err(
            NodeCredentialError::WrongNode {
                path: path.to_owned(),
                stored_node: stored_node.to_owned(),
                node: node.to_owned(),
            },
        );
    }
    if !crate::text::str_eq(stored_public_key, derived_public_key) {
        return Err(NodeCredentialError::KeyMismatch { path: path.to_owned() });
    }
    Ok(())
}

} // verus!
