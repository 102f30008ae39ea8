use clusterflux::admin::{
    admin_replay_verdict, admin_request_step, suspend_tenant_step, admin_request_verdict, admin_status_response,
    AdminRequestStep, check_admin_request, AdminRequestRejection,
    ReplayAdmissionError,
};
use clusterflux::automation::{
    project_secret_value_base64, session_authority, ProjectSecretError, SessionAuthorityError,
};
use clusterflux::auth::StoredCliSession;
use clusterflux::capability::Capability;
use clusterflux::digest::Digest;
use clusterflux::durable::{
    AutomationDurableState, DurableState, DurableStore, InMemoryDurableStore, NodeScopeKey,
    SecretAuditRecord, TenantRecord,
};
use clusterflux::ids::{NodeId, ProjectId, TenantId};
use clusterflux::windows_dev::{
    BackendError, CommandBackendKind, CommandInvocation, GuestRuntimeKind,
    WindowsCommandDevBackend, WindowsSandboxStubBackend,
};

fn key(t: &str, p: &str, n: &str) -> NodeScopeKey {
    NodeScopeKey::new(TenantId::new(t.to_owned()), ProjectId::new(p.to_owned()), NodeId::new(n.to_owned()))
}

#[test]
fn credential_subjects_prefix_each_part_with_its_byte_length() {
    assert_eq!(key("acme", "web", "n1").credential_subject(), "node:4:acme:3:web:2:n1");
    assert_eq!(key("caf\u{e9}", "", "n").credential_subject(), "node:5:caf\u{e9}:0::1:n");
    // Colons inside parts cannot make two keys collide.
    assert_ne!(key("a:1:b", "c", "d").credential_subject(), key("a", "b:1:c", "d").credential_subject());
    let refs = NodeScopeKey::from_refs(
        &TenantId::new("acme".to_owned()),
        &ProjectId::new("web".to_owned()),
        &NodeId::new("n1".to_owned()),
    );
    assert_eq!(refs, key("acme", "web", "n1"));
}

#[test]
fn digests_are_sha256_text() {
    let d = Digest::sha256(b"abc");
    assert_eq!(d.as_str(), "sha256:ba7816bf8f01cfea414140de5dae2223b00361a396177a9cb410ff61f20015ad");
    assert!(d.is_valid_sha256());
    assert!(!Digest::from_text("sha256:ABC".to_owned()).is_valid_sha256());
    assert!(d.same_as(&Digest::sha256(b"abc")));
}

fn session(coordinator: &str, secret: Option<&str>) -> StoredCliSession {
    StoredCliSession {
        kind: "human".to_owned(),
        coordinator: coordinator.to_owned(),
        tenant: "t".to_owned(),
        project: "p".to_owned(),
        user: "u".to_owned(),
        cli_session_credential_kind: "CliDeviceSession".to_owned(),
        session_secret: secret.map(str::to_owned),
        token_expiry_posture: "expires_at".to_owned(),
        expires_at: None,
        provider_tokens_exposed_to_cli: false,
        provider_tokens_sent_to_nodes: false,
        created_at_unix_seconds: 0,
    }
}

#[test]
fn commands_act_through_the_matching_session() {
    let s = session("c:1", Some("secret"));
    assert_eq!(
        session_authority(&None, Some(&s)).ok(),
        Some(("c:1".to_owned(), "secret".to_owned()))
    );
    let other = session_authority(&Some("c:2".to_owned()), Some(&s)).unwrap_err();
    assert_eq!(other.message(), "no authenticated session matches c:2");
    assert!(matches!(session_authority(&None, None), Err(SessionAuthorityError::NoCoordinator)));
}

#[test]
fn project_secrets_drop_line_endings_and_check_size() {
    assert_eq!(
        project_secret_value_base64(true, b"sixteen-byte-key\r\n\n").ok(),
        Some("c2l4dGVlbi1ieXRlLWtleQ==".to_owned())
    );
    assert_eq!(project_secret_value_base64(true, b"short\n"), Err(ProjectSecretError::InvalidLength));
    assert_eq!(project_secret_value_base64(true, &vec![b'a'; 16385]), Err(ProjectSecretError::InvalidLength));
    assert_eq!(
        project_secret_value_base64(false, b"sixteen-byte-key"),
        Err(ProjectSecretError::StdinRequired)
    );
    assert_eq!(
        ProjectSecretError::StdinRequired.message(),
        "secret set requires --stdin; values are never accepted as arguments"
    );
}

#[test]
fn admin_requests_are_checked_in_order() {
    let proof = Digest::sha256(b"proof");
    let other = Digest::sha256(b"other");
    assert_eq!(check_admin_request(None, &proof, "nonce", 1000, 1000), Err(AdminRequestRejection::CredentialNotConfigured));
    assert_eq!(check_admin_request(Some(&proof), &proof, "  ", 1000, 1000), Err(AdminRequestRejection::InvalidNonce));
    assert_eq!(check_admin_request(Some(&proof), &proof, &"n".repeat(257), 1000, 1000), Err(AdminRequestRejection::InvalidNonce));
    assert_eq!(check_admin_request(Some(&proof), &proof, "nonce", 1000, 1301), Err(AdminRequestRejection::OutsideClockWindow));
    assert_eq!(check_admin_request(Some(&proof), &proof, "nonce", 1300, 1000), Ok(()));
    assert_eq!(check_admin_request(Some(&proof), &other, "nonce", 1000, 1000), Err(AdminRequestRejection::InvalidProof));
    assert_eq!(admin_replay_verdict(Err(ReplayAdmissionError::Duplicate)), Err(AdminRequestRejection::NonceReused));
    assert_eq!(admin_replay_verdict(Err(ReplayAdmissionError::Capacity)), Err(AdminRequestRejection::ReplayWindowFull));
    assert_eq!(admin_replay_verdict(Ok(())), Ok(()));
    assert_eq!(AdminRequestRejection::NonceReused.message(), "admin request nonce was already used");
    let status = admin_status_response("t".to_owned(), "u".to_owned(), true);
    assert_eq!(status.safe_default, "read_only");
}

#[test]
fn windows_backends_plan_or_refuse() {
    let invocation = CommandInvocation {
        program: "cmd".to_owned(),
        args: vec!["/C".to_owned(), "echo".to_owned()],
        working_directory: "C:\\work".to_owned(),
        timeout_ms: 1000,
    };
    let dev = WindowsCommandDevBackend;
    assert_eq!(dev.kind(), CommandBackendKind::WindowsCommandDev);
    let plan = dev.plan(&invocation).ok().expect("plan");
    assert_eq!(plan.guest_runtime, GuestRuntimeKind::Wasmtime);
    assert_eq!(plan.required_capability, Capability::WindowsCommandDev);
    assert!(plan.user_attached_development_execution);
    let stub = WindowsSandboxStubBackend;
    assert_eq!(stub.kind(), CommandBackendKind::StubbedWindowsSandbox);
    match stub.plan(&invocation) {
        Err(BackendError::Denied(message)) => assert!(message.starts_with("Windows sandbox backend is an explicit stub")),
        Ok(_) => panic!("the stub backend must refuse"),
    }
}

fn audit(sequence: u64) -> SecretAuditRecord {
    SecretAuditRecord {
        sequence,
        tenant: TenantId::new("t".to_owned()),
        project: ProjectId::new("p".to_owned()),
        name: "token".to_owned(),
        process: None,
        task: None,
        node: None,
        event: "read".to_owned(),
        occurred_at: 10 + sequence,
    }
}

#[test]
fn automation_half_reads_back_what_was_put_in() {
    let mut state = DurableState::default();
    state.tenants.push((TenantId::new("t".to_owned()), TenantRecord { id: TenantId::new("t".to_owned()) }));
    let mut automation = AutomationDurableState::default();
    automation.secret_audit.push(audit(1));
    automation.secret_audit.push(audit(2));
    state.replace_automation(automation.clone());
    let read = state.automation();
    assert_eq!(read.secret_audit, automation.secret_audit);
    assert_eq!(state.tenants.len(), 1);

    state.replace_automation(AutomationDurableState::default());
    assert!(state.automation().secret_audit.is_empty());
    assert_eq!(state.tenants.len(), 1);
}

#[test]
fn in_memory_store_loads_what_was_saved() {
    let mut store = InMemoryDurableStore::default();
    assert!(store.load().tenants.is_empty());
    let mut state = DurableState::default();
    state.secret_audit.push(audit(7));
    store.save(state);
    let loaded = store.load();
    assert_eq!(loaded.secret_audit, vec![audit(7)]);
    assert_eq!(store.load().secret_audit, vec![audit(7)]);
}

#[test]
fn nonces_are_admitted_only_after_every_precheck() {
    assert_eq!(admin_request_step(Ok(())), AdminRequestStep::AdmitNonce);
    assert_eq!(
        admin_request_step(Err(AdminRequestRejection::InvalidProof)),
        AdminRequestStep::Refuse(AdminRequestRejection::InvalidProof)
    );
    assert_eq!(
        admin_request_verdict(Err(AdminRequestRejection::OutsideClockWindow), Err(ReplayAdmissionError::Duplicate)),
        Err(AdminRequestRejection::OutsideClockWindow)
    );
    assert_eq!(
        admin_request_verdict(Ok(()), Err(ReplayAdmissionError::Duplicate)),
        Err(AdminRequestRejection::NonceReused)
    );
    assert_eq!(admin_request_verdict(Ok(()), Ok(())), Ok(()));
}

#[test]
fn a_duplicated_state_holds_the_same_entries() {
    let mut state = DurableState::default();
    state.tenants.push((TenantId::new("t".to_owned()), TenantRecord { id: TenantId::new("t".to_owned()) }));
    state.secret_audit.push(audit(3));
    let copy = state.duplicate();
    assert_eq!(copy.tenants, state.tenants);
    assert_eq!(copy.secret_audit, state.secret_audit);
    let automation = copy.automation();
    assert_eq!(automation.secret_audit, vec![audit(3)]);
}

#[test]
fn tenant_suspension_happens_only_after_admission() {
    assert_eq!(
        suspend_tenant_step(Err(AdminRequestRejection::InvalidProof), "t".to_owned(), "u".to_owned(), "x".to_owned()).err(),
        Some(AdminRequestRejection::InvalidProof)
    );
    let change = suspend_tenant_step(Ok(()), "t".to_owned(), "u".to_owned(), "x".to_owned())
        .ok()
        .expect("admitted");
    assert_eq!(change.actor_tenant.as_str(), "t");
    assert_eq!(change.actor.as_str(), "u");
    assert_eq!(change.actor_credential_kind.name, "CliDeviceSession");
    assert_eq!(change.target_tenant.as_str(), "x");
    assert!(change.persist_durable_state);
}
