use clusterflux::auth::{self_hosted_stored_session, StoredCliSession};
use clusterflux::node_commands::{
    check_node_list_response, check_stored_node_credential, credential_file_present,
    node_attach_preflight, node_attach_step, node_enrollment_grant_summary,
    node_enroll_plan, node_revocation_outcome, node_revoke_plan, NodeEnrollPlan, resolve_command_scope, CliScopeArgs,
    CredentialPathKind, EnrollmentGrantResponse, NodeAttachAnswer, NodeAttachError,
    NodeAttachStage, NodeCommandError, NodeRevokePlan, RevokeResponse,
};

fn defaults(coordinator: Option<&str>) -> CliScopeArgs {
    CliScopeArgs {
        coordinator: coordinator.map(str::to_owned),
        tenant: "tenant".to_owned(),
        project: "project".to_owned(),
        user: "user".to_owned(),
    }
}

fn unauthenticated_session() -> StoredCliSession {
    let mut session = self_hosted_stored_session(
        "stored:1",
        "t-stored".to_owned(),
        "p-stored".to_owned(),
        "u-stored".to_owned(),
        "secret".to_owned(),
        0,
    );
    session.session_secret = None;
    session
}

#[test]
fn command_scope_needs_a_coordinator() {
    assert!(resolve_command_scope(&defaults(None), None).is_none());
    let scope = resolve_command_scope(&defaults(Some("cli:1")), None).expect("scope");
    assert_eq!(scope.coordinator, "cli:1");
    assert_eq!(scope.tenant, "tenant");
    assert_eq!(scope.user, "user");
}

#[test]
fn authenticated_sessions_decide_the_scope() {
    let session = self_hosted_stored_session(
        "stored:1",
        "t-stored".to_owned(),
        "p-stored".to_owned(),
        "u-stored".to_owned(),
        "secret".to_owned(),
        0,
    );
    let args = CliScopeArgs {
        coordinator: None,
        tenant: "t-cli".to_owned(),
        project: "project".to_owned(),
        user: "user".to_owned(),
    };
    let scope = resolve_command_scope(&args, Some(&session)).expect("scope");
    assert_eq!(scope.coordinator, "stored:1");
    assert_eq!(scope.tenant, "t-stored");
    assert_eq!(scope.project, "p-stored");

    let plain = unauthenticated_session();
    let scope = resolve_command_scope(&args, Some(&plain)).expect("scope");
    assert_eq!(scope.tenant, "t-cli");
    assert_eq!(scope.project, "p-stored");
    assert_eq!(scope.user, "u-stored");
}

#[test]
fn revocation_asks_for_confirmation_first() {
    match node_revoke_plan(&defaults(Some("c:1")), "node-a", false, None) {
        NodeRevokePlan::RequiresConfirmation { confirm_command } => {
            assert_eq!(confirm_command, "clusterflux node revoke --node node-a --yes")
        }
        _ => panic!("expected a confirmation request"),
    }
    assert!(matches!(
        node_revoke_plan(&defaults(None), "node-a", true, None),
        NodeRevokePlan::RequiresCoordinator
    ));
    match node_revoke_plan(&defaults(Some("c:1")), "node-a", true, None) {
        NodeRevokePlan::Revoke { scope } => assert_eq!(scope.coordinator, "c:1"),
        _ => panic!("expected a revocation"),
    }
}

#[test]
fn enrollment_grants_must_match_the_requested_scope() {
    let grant = node_enrollment_grant_summary(
        EnrollmentGrantResponse::GrantCreated {
            tenant: "t".to_owned(),
            project: "p".to_owned(),
            grant: "g-1".to_owned(),
            scope: "node_enrollment".to_owned(),
            expires_at_epoch_seconds: 1900,
        },
        "t",
        "p",
        "u",
        900,
    )
    .ok()
    .expect("grant");
    assert_eq!(grant.grant, "g-1");
    assert_eq!(grant.user, "u");
    assert_eq!(grant.ttl_seconds, 900);
    assert_eq!(grant.expires_at_epoch_seconds, 1900);
    assert!(grant.short_lived && grant.exchange_for_persistent_node_identity);

    let other_tenant = node_enrollment_grant_summary(
        EnrollmentGrantResponse::GrantCreated {
            tenant: "other".to_owned(),
            project: "p".to_owned(),
            grant: "g-1".to_owned(),
            scope: "s".to_owned(),
            expires_at_epoch_seconds: 0,
        },
        "t",
        "p",
        "u",
        900,
    );
    assert!(matches!(other_tenant, Err(NodeCommandError::EnrollmentScopeMismatch)));
    assert_eq!(
        NodeCommandError::EnrollmentScopeMismatch.message(),
        "coordinator enrollment grant scope does not match the request"
    );
    assert!(matches!(
        node_enrollment_grant_summary(EnrollmentGrantResponse::Other, "t", "p", "u", 1),
        Err(NodeCommandError::UnexpectedEnrollmentResponse)
    ));
}

#[test]
fn list_and_revoke_answers_are_checked() {
    assert_eq!(check_node_list_response(true), Ok(()));
    assert_eq!(check_node_list_response(false), Err(NodeCommandError::UnexpectedListResponse));
    let outcome = node_revocation_outcome(RevokeResponse::Revoked {
        descriptor_removed: true,
        queued_assignments_removed: 3,
    })
    .expect("revoked");
    assert!(outcome.credential_revoked && outcome.descriptor_removed);
    assert_eq!(outcome.queued_assignments_removed, 3);
    assert_eq!(
        node_revocation_outcome(RevokeResponse::Other),
        Err(NodeCommandError::UnexpectedRevokeResponse)
    );
}

#[test]
fn attach_requires_a_coordinator_and_the_derived_key() {
    assert_eq!(
        node_attach_preflight(None, None, "pk".to_owned()),
        Err(NodeAttachError::CoordinatorRequired)
    );
    assert_eq!(
        node_attach_preflight(Some("c:1".to_owned()), Some("other".to_owned()), "pk".to_owned()),
        Err(NodeAttachError::PublicKeyMismatch)
    );
    assert_eq!(
        node_attach_preflight(Some("c:1".to_owned()), None, "pk".to_owned()),
        Ok(("c:1".to_owned(), "pk".to_owned()))
    );
    assert_eq!(
        node_attach_preflight(Some("c:1".to_owned()), Some("pk".to_owned()), "pk".to_owned()),
        Ok(("c:1".to_owned(), "pk".to_owned()))
    );
    assert!(NodeAttachError::PublicKeyMismatch.message().starts_with("node attach --public-key"));
}

#[test]
fn attach_walks_identity_heartbeat_capabilities() {
    let enrolled = NodeAttachStage::Identity { enrollment: true };
    assert_eq!(
        node_attach_step(enrolled, NodeAttachAnswer::NodeEnrollmentExchanged),
        Ok(Some(NodeAttachStage::Heartbeat))
    );
    assert_eq!(
        node_attach_step(enrolled, NodeAttachAnswer::NodeAttached),
        Err(NodeAttachError::UnexpectedIdentityResponse)
    );
    let direct = NodeAttachStage::Identity { enrollment: false };
    assert_eq!(
        node_attach_step(direct, NodeAttachAnswer::NodeAttached),
        Ok(Some(NodeAttachStage::Heartbeat))
    );
    assert_eq!(
        node_attach_step(NodeAttachStage::Heartbeat, NodeAttachAnswer::NodeHeartbeat),
        Ok(Some(NodeAttachStage::Capabilities))
    );
    assert_eq!(
        node_attach_step(NodeAttachStage::Heartbeat, NodeAttachAnswer::Other),
        Err(NodeAttachError::UnexpectedHeartbeatResponse)
    );
    assert_eq!(
        node_attach_step(NodeAttachStage::Capabilities, NodeAttachAnswer::NodeCapabilitiesRecorded),
        Ok(None)
    );
    assert_eq!(
        node_attach_step(NodeAttachStage::Capabilities, NodeAttachAnswer::NodeHeartbeat),
        Err(NodeAttachError::UnexpectedCapabilityResponse)
    );
}

#[test]
fn stored_node_credentials_are_checked_before_use() {
    assert!(matches!(credential_file_present(CredentialPathKind::Missing, "f.json"), Ok(false)));
    assert!(matches!(credential_file_present(CredentialPathKind::RegularFile, "f.json"), Ok(true)));
    let link = credential_file_present(CredentialPathKind::SymbolicLink, "f.json").err().expect("refused");
    assert_eq!(link.message(), "refusing to read node credential through symbolic link f.json");
    let dir = credential_file_present(CredentialPathKind::NotRegularFile, "f.json").err().expect("refused");
    assert_eq!(dir.message(), "node credential path f.json is not a regular file");

    let wrong = check_stored_node_credential("f.json", "node-b", "node-a", "pk", "pk").err().expect("refused");
    assert_eq!(wrong.message(), "stored node credential f.json belongs to node `node-b` instead of `node-a`");
    let mismatch = check_stored_node_credential("f.json", "node-a", "node-a", "pk", "other").err().expect("refused");
    assert_eq!(
        mismatch.message(),
        "stored node credential f.json has a public key that does not match its private key"
    );
    assert!(check_stored_node_credential("f.json", "node-a", "node-a", "pk", "pk").is_ok());
}

#[test]
fn enrollment_without_a_coordinator_reports_that_one_is_required() {
    match node_enroll_plan(&defaults(None), 900, None) {
        NodeEnrollPlan::RequiresCoordinator { requested_ttl_seconds } => assert_eq!(requested_ttl_seconds, 900),
        NodeEnrollPlan::RequestGrant { .. } => panic!("no coordinator is known"),
    }
    match node_enroll_plan(&defaults(Some("c:1")), 60, None) {
        NodeEnrollPlan::RequestGrant { scope, ttl_seconds } => {
            assert_eq!(scope.coordinator, "c:1");
            assert_eq!(ttl_seconds, 60);
        }
        NodeEnrollPlan::RequiresCoordinator { .. } => panic!("a coordinator was given"),
    }
}
