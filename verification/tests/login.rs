use std::time::Duration;

use clusterflux::auth::{
    authorization_url_is_loopback_http, browser_login_retry_delay_ms,
    browser_login_timeout_seconds, check_self_hosted_auth_status, hosted_authorization_url_allowed, CoordinatorAuthStatus,
    login_completion_flags, login_plan, parse_u64, self_hosted_preflight,
    session_secret_from_line, stored_cli_session_from_login_response, url_parts_are_loopback_http,
    LoginArgs, LoginFlowPlan, LoginSessionError, SelfHostedError, UrlParts,
    BROWSER_LOGIN_POLL_INTERVAL_SECONDS,
};
use clusterflux::json::{contains_provider_token_field, JsonValue};
use clusterflux::text::decimal_string;
use clusterflux::weburl::UrlHost;

#[test]
fn browser_login_polling_interval_is_proxy_compatible() {
    assert!(Duration::from_secs(BROWSER_LOGIN_POLL_INTERVAL_SECONDS) >= Duration::from_secs(2));
}

#[test]
fn browser_login_allows_query_bearing_loopback_authorization_urls_only() {
    assert!(authorization_url_is_loopback_http(
        "http://127.0.0.1:8123/application/o/authorize/?state=fixture"
    ));
    assert!(authorization_url_is_loopback_http(
        "http://localhost:8123/authorize?state=fixture"
    ));
    assert!(authorization_url_is_loopback_http(
        "http://[::1]:8123/authorize?state=fixture"
    ));
    assert!(!authorization_url_is_loopback_http(
        "http://example.test/authorize?state=fixture"
    ));
    assert!(!authorization_url_is_loopback_http(
        "http://127.0.0.1.example.test/authorize?state=fixture"
    ));
    assert!(!authorization_url_is_loopback_http(
        "http://operator@127.0.0.1:8123/authorize?state=fixture"
    ));
    assert!(!authorization_url_is_loopback_http(
        "http://127.0.0.1:8123/authorize?state=fixture#fragment"
    ));
}

#[test]
fn loopback_parts_are_judged_without_parsing() {
    let parts = UrlParts {
        scheme: "http".to_owned(),
        username: String::new(),
        password: None,
        fragment: None,
        host: Some(UrlHost::Domain("LocalHost".to_owned())),
    };
    assert!(url_parts_are_loopback_http(&parts));
    let other_loopback = UrlParts { host: Some(UrlHost::Ipv4([127, 9, 9, 9])), ..parts };
    assert!(url_parts_are_loopback_http(&other_loopback));
    let https = UrlParts { scheme: "https".to_owned(), ..other_loopback };
    assert!(!url_parts_are_loopback_http(&https));
    let ipv6 = UrlParts {
        scheme: "http".to_owned(),
        username: String::new(),
        password: None,
        fragment: None,
        host: Some(UrlHost::Ipv6([0, 0, 0, 0, 0, 0, 0, 2])),
    };
    assert!(!url_parts_are_loopback_http(&ipv6));
    assert!(!authorization_url_is_loopback_http("not a url"));
    assert!(!authorization_url_is_loopback_http("https://localhost/authorize"));
}

#[test]
fn authorization_urls_must_be_https_unless_both_ends_are_loopback() {
    assert!(hosted_authorization_url_allowed("https://coordinator.example", false, "https://idp.example/auth"));
    assert!(!hosted_authorization_url_allowed("https://coordinator.example", false, "http://127.0.0.1/auth"));
    assert!(hosted_authorization_url_allowed("http://127.0.0.1:7000", true, "http://127.0.0.1/auth"));
    assert!(!hosted_authorization_url_allowed("http://127.0.0.1:7000", false, "http://127.0.0.1/auth"));
}

#[test]
fn login_plan_keeps_provider_secrets_on_the_server() {
    let plan = login_plan(LoginArgs {
        browser: true,
        non_interactive: false,
        plan: true,
        json: false,
        coordinator: "https://coordinator.example".to_owned(),
        project: "project".to_owned(),
    });
    assert_eq!(plan.coordinator, "https://coordinator.example");
    let LoginFlowPlan::Browser(flow) = plan.human_flow;
    assert!(flow.authorization_url.is_none());
    assert!(flow.server_owns_state && flow.server_owns_nonce && flow.pkce_required);
    assert!(!flow.cli_receives_provider_authorization_code);
}

fn object(entries: Vec<(&str, JsonValue)>) -> JsonValue {
    JsonValue::Object(entries.into_iter().map(|(k, v)| (k.to_owned(), v)).collect())
}

fn text(s: &str) -> JsonValue {
    JsonValue::String(s.to_owned())
}

#[test]
fn login_responses_become_stored_sessions() {
    let response = object(vec![(
        "session",
        object(vec![
            ("cli_session_credential_kind", text("CliDeviceSession")),
            ("cli_session_secret", text("s3cret")),
            ("expires_at_epoch_seconds", JsonValue::Number(Some(1700000000))),
            ("project", text("proj")),
            ("tenant", text("ten")),
            ("user", text("alice")),
        ]),
    )]);
    let stored =
        stored_cli_session_from_login_response("https://c.example", &response, false, false, 42)
            .expect("complete session");
    assert_eq!(stored.kind, "human");
    assert_eq!(stored.tenant, "ten");
    assert_eq!(stored.project, "proj");
    assert_eq!(stored.user, "alice");
    assert_eq!(stored.session_secret.as_deref(), Some("s3cret"));
    assert_eq!(stored.expires_at.as_deref(), Some("1700000000"));
    assert_eq!(stored.token_expiry_posture, "expires_at");
    assert_eq!(stored.created_at_unix_seconds, 42);

    let flags = login_completion_flags(&response);
    assert!(flags.scoped_cli_session_received);
    assert!(flags.provider_tokens_sent_to_nodes);
    assert!(!flags.provider_tokens_exposed_to_cli);

    let missing_user = object(vec![(
        "session",
        object(vec![("tenant", text("ten")), ("project", text("proj"))]),
    )]);
    assert!(matches!(
        stored_cli_session_from_login_response("c", &missing_user, false, false, 0),
        Err(LoginSessionError::MissingUser)
    ));
    assert!(matches!(
        stored_cli_session_from_login_response("c", &JsonValue::Null, false, false, 0),
        Err(LoginSessionError::MissingTenant)
    ));
    assert_eq!(
        LoginSessionError::MissingSessionSecret.message(),
        "hosted login session omitted CLI session secret"
    );
}

#[test]
fn provider_tokens_are_found_at_any_depth() {
    let nested = object(vec![(
        "items",
        JsonValue::Array(vec![object(vec![("refresh_token", JsonValue::Null)])]),
    )]);
    assert!(contains_provider_token_field(&nested));
    let clean = object(vec![("token_hint", text("access_token"))]);
    assert!(!contains_provider_token_field(&clean));
    let flags = login_completion_flags(&object(vec![(
        "session",
        object(vec![("provider_tokens_sent_to_nodes", JsonValue::Bool(false))]),
    )]));
    assert!(!flags.provider_tokens_sent_to_nodes);
    assert!(!flags.scoped_cli_session_received);
}

#[test]
fn self_hosted_sessions_are_checked_in_order() {
    assert!(matches!(self_hosted_preflight(false, Some("c:1"), "secret"), Err(SelfHostedError::StdinFlagRequired)));
    assert!(matches!(self_hosted_preflight(true, Some("  "), "secret"), Err(SelfHostedError::CoordinatorRequired)));
    assert!(matches!(self_hosted_preflight(true, Some("c:1"), " \n"), Err(SelfHostedError::EmptySessionSecret)));
    assert_eq!(self_hosted_preflight(true, Some("c:1"), "secret").ok(), Some("c:1".to_owned()));

    let answer = |authenticated| CoordinatorAuthStatus {
        tenant: "t".to_owned(),
        project: "p".to_owned(),
        actor: "u".to_owned(),
        authenticated,
    };
    let mismatch = check_self_hosted_auth_status(Some(&answer(true)), "t", "other", "u").unwrap_err();
    assert_eq!(
        mismatch.message(),
        "self-hosted session project mismatch: coordinator returned \"p\", expected \"other\""
    );
    assert!(matches!(
        check_self_hosted_auth_status(Some(&answer(false)), "t", "p", "u"),
        Err(SelfHostedError::NotConfirmed)
    ));
    assert!(check_self_hosted_auth_status(Some(&answer(true)), "t", "p", "u").is_ok());
    let unexpected = check_self_hosted_auth_status(None, "t", "p", "u").unwrap_err();
    assert!(matches!(unexpected, SelfHostedError::UnexpectedResponse));
    assert_eq!(
        unexpected.message(),
        "self-hosted coordinator returned an unexpected auth-status response"
    );
    assert_eq!(session_secret_from_line("abc\r\n"), Some("abc".to_owned()));
    assert_eq!(session_secret_from_line("  \n"), None);
}

#[test]
fn login_timing_follows_configuration() {
    assert_eq!(parse_u64("+42"), Some(42));
    for n in [0u64, 7, 10, 1_700_000_000, u64::MAX] {
        assert_eq!(parse_u64(&decimal_string(n)), Some(n));
    }
    assert_eq!(parse_u64("18446744073709551615"), Some(u64::MAX));
    assert_eq!(parse_u64("18446744073709551616"), None);
    assert_eq!(parse_u64("-1"), None);
    assert_eq!(parse_u64(""), None);
    assert_eq!(browser_login_timeout_seconds(Some("45")), 45);
    assert_eq!(browser_login_timeout_seconds(Some("0")), 300);
    assert_eq!(browser_login_timeout_seconds(None), 300);
    assert_eq!(browser_login_retry_delay_ms(Some(500)), 2000);
    assert_eq!(browser_login_retry_delay_ms(Some(5000)), 5000);
    assert_eq!(browser_login_retry_delay_ms(None), 2000);
}
