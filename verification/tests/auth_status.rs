use clusterflux::account_status::{
    auth_state_value, auth_status_plan, auth_status_scope, AccountStatusSource, configured_coordinator, ProjectConfig, coordinator_auth_status_summary,
    unconfigured_account_status, AccountStatusReport, AuthStatusProbe, CliSessionSource,
    ModerationFlags, Reachability,
};
use clusterflux::auth::self_hosted_stored_session;
use clusterflux::node_commands::CliScopeArgs;

#[test]
fn coordinator_comes_from_the_first_source_that_names_one() {
    assert_eq!(
        configured_coordinator(Some("cli:1".to_owned()), Some("cfg:1".to_owned()), Some("s:1".to_owned())),
        Some("cli:1".to_owned())
    );
    assert_eq!(
        configured_coordinator(None, Some("cfg:1".to_owned()), Some("s:1".to_owned())),
        Some("cfg:1".to_owned())
    );
    assert_eq!(configured_coordinator(None, None, Some("s:1".to_owned())), Some("s:1".to_owned()));
    assert_eq!(configured_coordinator(None, None, None), None);
}

#[test]
fn unreachable_coordinator_leaves_the_account_unknown() {
    let summary = coordinator_auth_status_summary(AuthStatusProbe::ConnectFailed {
        message: "failed to connect to coordinator: connection refused".to_owned(),
    });
    assert!(summary.checked);
    assert_eq!(summary.reachable, Some(Reachability::Unreachable));
    assert_eq!(summary.account_status, "unknown");
    assert_eq!(summary.account_state_known, Some(false));
    assert_eq!(summary.suspension_known, Some(false));
    assert_eq!(summary.sensitive_moderation_details_exposed, Some(false));
    assert_eq!(summary.coordinator_session_requests, Some(0));
    assert_eq!(
        summary.next_actions,
        Some(vec!["clusterflux doctor".to_owned(), "check coordinator status".to_owned()])
    );
    assert_eq!(
        summary.error.as_deref(),
        Some("failed to connect to coordinator: connection refused")
    );
    let machine = summary.machine_error.expect("machine error");
    assert_eq!(machine.category, "connectivity");
}

#[test]
fn missing_credential_is_not_checked() {
    let summary = coordinator_auth_status_summary(AuthStatusProbe::CredentialUnavailable {
        message: "no cli session for this coordinator; login required".to_owned(),
    });
    assert!(!summary.checked);
    assert_eq!(summary.reachable, Some(Reachability::NotChecked));
    assert_eq!(summary.authenticated_for_current_project, Some(false));
    assert_eq!(summary.next_actions, Some(vec!["clusterflux login --browser".to_owned()]));
    assert_eq!(summary.machine_error.expect("machine error").category, "authentication");
}

#[test]
fn coordinator_errors_and_odd_answers_are_reported() {
    let error = coordinator_auth_status_summary(AuthStatusProbe::CoordinatorError {
        message: "tenant mismatch".to_owned(),
        requests: 1,
    });
    assert_eq!(error.reachable, Some(Reachability::Reachable));
    assert_eq!(error.coordinator_response_type.as_deref(), Some("error"));
    assert!(error.error.is_none());
    assert_eq!(error.coordinator_session_requests, Some(1));
    assert_eq!(error.machine_error.expect("machine error").category, "authorization");

    let failed = coordinator_auth_status_summary(AuthStatusProbe::RequestFailed {
        message: "closed session".to_owned(),
        requests: 2,
    });
    assert_eq!(failed.reachable, Some(Reachability::Unreachable));
    assert_eq!(failed.coordinator_session_requests, Some(2));

    let odd = coordinator_auth_status_summary(AuthStatusProbe::UnexpectedResponse { requests: 1 });
    assert!(odd.suspension_known.is_none());
    assert!(odd.account_state_known.is_none());
    assert_eq!(odd.next_actions, Some(vec!["clusterflux doctor".to_owned()]));
    assert_eq!(
        odd.machine_error.expect("machine error").message,
        "coordinator returned an unexpected auth-status response"
    );
}

#[test]
fn answered_status_passes_the_coordinators_view_through() {
    let flags = ModerationFlags { suspended: true, disabled: false, deleted: false, manual_review: true };
    let summary = coordinator_auth_status_summary(AuthStatusProbe::Answered {
        report: AccountStatusReport {
            flags,
            account_status: "suspended".to_owned(),
            sanitized_reason: Some("policy review".to_owned()),
            next_actions: vec!["contact support".to_owned()],
        },
        used_cli_session_credential: true,
        requests: 1,
    });
    assert!(summary.checked);
    assert_eq!(summary.account_status, "suspended");
    assert_eq!(summary.moderation, Some(flags));
    assert_eq!(summary.account_state_known, Some(true));
    assert_eq!(summary.suspension_known, Some(true));
    assert_eq!(summary.used_cli_session_credential, Some(true));
    assert_eq!(summary.sanitized_reason, Some(Some("policy review".to_owned())));
    assert_eq!(summary.coordinator_response_type.as_deref(), Some("auth_status"));
    assert_eq!(summary.sensitive_moderation_details_exposed, Some(false));
    assert!(summary.machine_error.is_none());
}

#[test]
fn no_coordinator_means_nothing_checked() {
    let summary = unconfigured_account_status();
    assert!(!summary.checked);
    assert_eq!(summary.reason.as_deref(), Some("no project or session coordinator configured"));
    assert_eq!(summary.account_status, "unknown");
    assert!(summary.machine_error.is_none());
}

#[test]
fn auth_state_describes_each_credential_source() {
    let anonymous = auth_state_value(CliSessionSource::Anonymous, None, None);
    assert!(!anonymous.authenticated);
    assert_eq!(anonymous.kind, "anonymous");
    assert_eq!(anonymous.token_expiry_posture, "no_session");

    let stored = self_hosted_stored_session("c:1", "t".to_owned(), "p".to_owned(), "u".to_owned(), "s".to_owned(), 9);
    let from_file = auth_state_value(CliSessionSource::Anonymous, Some(stored), None);
    assert!(from_file.authenticated);
    assert_eq!(from_file.kind, "self_hosted");
    assert_eq!(from_file.source, "session_file");
    assert_eq!(from_file.principal.as_deref(), Some("u"));
    assert_eq!(from_file.expires_at, Some(None));
    assert_eq!(from_file.token_expiry_posture, "configured_by_self_hosted_operator");

    let human = auth_state_value(CliSessionSource::HumanSession, None, Some("2030-01-01".to_owned()));
    assert_eq!(human.source, "CLUSTERFLUX_TOKEN");
    assert_eq!(human.token_expiry_posture, "expires_at");
    assert_eq!(human.provider_tokens_exposed_to_nodes, Some(false));
    let human_unknown = auth_state_value(CliSessionSource::HumanSession, None, None);
    assert_eq!(human_unknown.token_expiry_posture, "unknown_env_token");
    assert_eq!(human_unknown.expires_at, Some(None));

    let agent = auth_state_value(
        CliSessionSource::AgentPublicKey {
            agent: "ci".to_owned(),
            public_key_fingerprint: "sha256:ab".to_owned(),
            browser_interaction_required: false,
        },
        None,
        None,
    );
    assert_eq!(agent.kind, "agent_public_key");
    assert_eq!(agent.agent.as_deref(), Some("ci"));
    assert_eq!(agent.browser_interaction_required, Some(false));
    assert_eq!(agent.token_expiry_posture, "not_applicable_public_key");
}

fn scope_args(coordinator: Option<&str>, tenant: &str) -> CliScopeArgs {
    CliScopeArgs {
        coordinator: coordinator.map(str::to_owned),
        tenant: tenant.to_owned(),
        project: "project".to_owned(),
        user: "user".to_owned(),
    }
}

#[test]
fn auth_status_scope_prefers_configuration_over_the_session() {
    let config = ProjectConfig {
        tenant: "t-config".to_owned(),
        project: "p-config".to_owned(),
        user: "u-config".to_owned(),
        coordinator: None,
    };
    let session = self_hosted_stored_session("s:1", "t-s".to_owned(), "p-s".to_owned(), "u-s".to_owned(), "x".to_owned(), 0);
    let scope = auth_status_scope(&scope_args(None, "tenant"), Some(&config), Some(&session), "hosted:443");
    assert_eq!(scope.configured_coordinator.as_deref(), Some("s:1"));
    assert_eq!(scope.active_coordinator, "s:1");
    assert_eq!(scope.tenant, "t-config");
    assert_eq!(scope.project, "p-config");
    assert_eq!(scope.principal, "u-config");

    let explicit = auth_status_scope(&scope_args(Some("cli:1"), "t-cli"), Some(&config), Some(&session), "hosted:443");
    assert_eq!(explicit.active_coordinator, "cli:1");
    assert_eq!(explicit.tenant, "t-cli");

    let bare = auth_status_scope(&scope_args(None, "tenant"), None, Some(&session), "hosted:443");
    assert_eq!(bare.tenant, "t-s");
    let nothing = auth_status_scope(&scope_args(None, "tenant"), None, None, "hosted:443");
    assert!(nothing.configured_coordinator.is_none());
    assert_eq!(nothing.active_coordinator, "hosted:443");
    assert_eq!(nothing.tenant, "tenant");
}

#[test]
fn auth_status_asks_the_coordinator_only_without_a_mismatch() {
    let plan = auth_status_plan(Some("c:1".to_owned()), false, true);
    assert!(matches!(&plan.account_status, AccountStatusSource::AskCoordinator(c) if c == "c:1"));
    assert!(plan.session_matches_current_project);
    let mismatch = auth_status_plan(Some("c:1".to_owned()), true, true);
    assert!(matches!(mismatch.account_status, AccountStatusSource::ScopeMismatch));
    assert!(!mismatch.session_matches_current_project);
    let mismatch_only = auth_status_plan(None, true, true);
    assert!(matches!(mismatch_only.account_status, AccountStatusSource::ScopeMismatch));
    let nothing = auth_status_plan(None, false, false);
    assert!(matches!(nothing.account_status, AccountStatusSource::Unconfigured));
    assert!(!nothing.session_matches_current_project);
}
