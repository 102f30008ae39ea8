use clusterflux::auth::StoredCliSession;
use clusterflux::capability::{Capability, NodeCapabilities, Os};
use clusterflux::digest::Digest;
use clusterflux::node_commands::node_attach_outcome;
use clusterflux::node::{
    attach_plan, capability_grant_disclosures, default_node_id_from, effective_scope_value,
    local_node_credential_file_name, parse_capability, session_or_effective_scope_value,
    source_provider_backend_statuses, AttachArgs, LocalNodeFacts, ScopeField,
};

fn facts() -> LocalNodeFacts {
    LocalNodeFacts {
        detected: NodeCapabilities::detected(Os::Linux, "x86_64".to_owned(), false),
        default_node_id: "node-local".to_owned(),
        default_public_key: "pubkey".to_owned(),
        podman_available: false,
        git_available: true,
    }
}

#[test]
fn capability_names_parse() {
    assert_eq!(parse_capability("rootless-podman"), Some(Capability::RootlessPodman));
    assert_eq!(parse_capability("artifact-transfer"), Some(Capability::ArtifactTransfer));
    assert_eq!(parse_capability("Network"), None);
}

#[test]
fn disclosures_are_sorted_by_grant_then_capability() {
    let report = NodeCapabilities::detected(Os::Windows, "x86_64".to_owned(), false)
        .with_capability(Capability::Network)
        .with_capability(Capability::ArbitrarySyscalls);
    let disclosures = capability_grant_disclosures(&report);
    let order: Vec<(Capability, &str)> =
        disclosures.iter().map(|d| (d.capability, d.grant.as_str())).collect();
    assert_eq!(
        order,
        vec![
            (Capability::ArbitrarySyscalls, "arbitrary_syscalls"),
            (Capability::Command, "native_command_execution"),
            (Capability::WindowsCommandDev, "native_command_execution"),
            (Capability::Network, "network_access"),
            (Capability::SourceFilesystem, "source_access"),
            (Capability::SourceGit, "source_access"),
        ]
    );
    assert!(disclosures.iter().all(|d| d.coordinator_policy_limited));
}

#[test]
fn provider_statuses_follow_local_helpers() {
    let mut report = NodeCapabilities::detected(Os::Linux, "x86_64".to_owned(), false);
    report.source_providers.insert("custom".to_owned());
    let statuses = source_provider_backend_statuses(&report, false);
    let providers: Vec<&str> = statuses.iter().map(|s| s.provider.as_str()).collect();
    assert_eq!(providers, vec!["custom", "filesystem", "git"]);
    assert!(statuses[0].available && statuses[1].available);
    assert!(!statuses[2].available);
    assert_eq!(
        statuses[2].reason,
        "source provider `git` was detected but its local helper is missing"
    );
}

#[test]
fn attach_plan_applies_overrides() {
    let args = AttachArgs {
        coordinator: Some("127.0.0.1:7000".to_owned()),
        tenant: "tenant".to_owned(),
        project: "project".to_owned(),
        node: None,
        caps: vec![
            "network".to_owned(),
            "bogus".to_owned(),
            "command".to_owned(),
            "network".to_owned(),
        ],
        enrollment_grant: Some("grant-1".to_owned()),
        public_key: None,
        json: false,
    };
    let plan = attach_plan(args, facts());
    assert_eq!(plan.node, "node-local");
    assert!(plan.capabilities.capabilities.contains(Capability::Network));
    assert_eq!(
        plan.detection.recognized_capability_overrides,
        vec![Capability::Command, Capability::Network]
    );
    assert_eq!(plan.detection.unrecognized_capability_overrides, vec!["bogus".to_owned()]);
    assert_eq!(plan.detection.manual_capability_overrides.len(), 4);
    assert_eq!(plan.detection.command_backend, "native-command");
    assert!(plan.detection.container_backend.is_none());
    let enrollment = plan.enrollment.expect("enrollment plan");
    assert_eq!(enrollment.grant, "grant-1");
    assert_eq!(
        enrollment.public_key_fingerprint.as_str(),
        "sha256:b84b25628f800e36925811aa24aaf28c9f827333d2df990762b5c3a86eff7c9b"
    );
    assert!(plan.grant_disclosures.iter().any(|d| d.capability == Capability::Network));
}

fn stored(secret: Option<&str>) -> StoredCliSession {
    StoredCliSession {
        kind: "human".to_owned(),
        coordinator: "c".to_owned(),
        tenant: "stored-tenant".to_owned(),
        project: "stored-project".to_owned(),
        user: "stored-user".to_owned(),
        cli_session_credential_kind: "CliDeviceSession".to_owned(),
        session_secret: secret.map(str::to_owned),
        token_expiry_posture: "unknown_coordinator_session".to_owned(),
        expires_at: None,
        provider_tokens_exposed_to_cli: false,
        provider_tokens_sent_to_nodes: false,
        created_at_unix_seconds: 0,
    }
}

#[test]
fn scope_values_prefer_authenticated_sessions() {
    let with_secret = stored(Some("s"));
    assert_eq!(
        session_or_effective_scope_value(Some(&with_secret), "explicit", ScopeField::Tenant, "tenant"),
        "stored-tenant"
    );
    let without_secret = stored(None);
    assert_eq!(
        session_or_effective_scope_value(Some(&without_secret), "tenant", ScopeField::Tenant, "tenant"),
        "stored-tenant"
    );
    assert_eq!(
        session_or_effective_scope_value(Some(&without_secret), "explicit", ScopeField::User, "user"),
        "explicit"
    );
    assert_eq!(effective_scope_value("project", None, "project"), "project");
}

#[test]
fn node_ids_and_credential_files() {
    assert_eq!(default_node_id_from(None, Some("host".to_owned()), Some("pc".to_owned())), "host");
    assert_eq!(default_node_id_from(None, None, None), "node-local");
    assert_eq!(
        local_node_credential_file_name("node-a"),
        "66570ff05a2074043084d4aca94293ef067530dde94ff4e92b8d8459253eb779.json"
    );
}

#[test]
fn attach_report_fingerprints_the_derived_key() {
    let args = AttachArgs {
        coordinator: Some("127.0.0.1:7000".to_owned()),
        tenant: "tenant".to_owned(),
        project: "project".to_owned(),
        node: Some("node-a".to_owned()),
        caps: Vec::new(),
        enrollment_grant: Some("grant-1".to_owned()),
        public_key: None,
        json: false,
    };
    let plan = attach_plan(args, facts());
    let disclosures = plan.grant_disclosures.len();
    let report = node_attach_outcome(plan, "127.0.0.1:7000".to_owned(), "derived-key", 3);
    assert_eq!(report.node, "node-a");
    assert!(report.boundary.cli_contacted_coordinator);
    assert!(report.boundary.used_enrollment_exchange);
    assert_eq!(report.boundary.coordinator_address, "127.0.0.1:7000");
    assert_eq!(report.boundary.coordinator_session_requests, 3);
    assert_eq!(report.grant_disclosures.len(), disclosures);
    let enrollment = report.plan.enrollment.expect("enrollment");
    assert_eq!(enrollment.grant, "grant-1");
    assert_eq!(enrollment.public_key_fingerprint, Digest::sha256(b"derived-key"));

    let direct = AttachArgs {
        coordinator: Some("c:1".to_owned()),
        tenant: "tenant".to_owned(),
        project: "project".to_owned(),
        node: None,
        caps: Vec::new(),
        enrollment_grant: None,
        public_key: None,
        json: false,
    };
    let report = node_attach_outcome(attach_plan(direct, facts()), "c:1".to_owned(), "k", 3);
    assert!(!report.boundary.used_enrollment_exchange);
    assert!(report.plan.enrollment.is_none());
}
