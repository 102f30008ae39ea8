use clusterflux::auth::LoginFlowPlan;
use clusterflux::browser_login::{
    browser_login_step, browser_login_success_lines, finalize_browser_login,
    non_interactive_browser_login_report, BrowserLoginError, BrowserLoginPhase, BrowserLoginStep,
    LoginExchange,
};
use clusterflux::json::JsonValue;

fn object(entries: Vec<(&str, JsonValue)>) -> JsonValue {
    JsonValue::Object(entries.into_iter().map(|(k, v)| (k.to_owned(), v)).collect())
}

fn text(s: &str) -> JsonValue {
    JsonValue::String(s.to_owned())
}

fn polling() -> BrowserLoginPhase {
    BrowserLoginPhase::Polling { transaction_id: "tx".to_owned(), polling_secret: "ps".to_owned() }
}

#[test]
fn started_login_opens_the_browser_at_an_https_url() {
    let step = browser_login_step(
        &BrowserLoginPhase::Starting,
        LoginExchange::Started {
            transaction_id: "tx-1".to_owned(),
            polling_secret: "secret-1".to_owned(),
            authorization_url: "https://idp.example/authorize?state=s".to_owned(),
        },
        "https://coordinator.example",
        false,
        0,
        300_000,
    );
    match step {
        BrowserLoginStep::OpenBrowser { plan, next } => {
            assert_eq!(plan.coordinator, "https://coordinator.example");
            let LoginFlowPlan::Browser(flow) = plan.human_flow;
            assert_eq!(flow.authorization_url.as_deref(), Some("https://idp.example/authorize?state=s"));
            assert!(flow.pkce_required);
            match next {
                BrowserLoginPhase::Polling { transaction_id, polling_secret } => {
                    assert_eq!(transaction_id, "tx-1");
                    assert_eq!(polling_secret, "secret-1");
                }
                BrowserLoginPhase::Starting => panic!("expected polling"),
            }
        }
        _ => panic!("expected the browser to open"),
    }
}

#[test]
fn plain_http_authorization_needs_loopback_on_both_ends() {
    let insecure = browser_login_step(
        &BrowserLoginPhase::Starting,
        LoginExchange::Started {
            transaction_id: "tx".to_owned(),
            polling_secret: "ps".to_owned(),
            authorization_url: "http://127.0.0.1:8123/authorize".to_owned(),
        },
        "https://coordinator.example",
        false,
        0,
        300_000,
    );
    match insecure {
        BrowserLoginStep::Fail(error) => {
            assert!(matches!(error, BrowserLoginError::InsecureAuthorizationUrl));
            assert!(error.message().starts_with("hosted login authorization URL must use HTTPS"));
        }
        _ => panic!("expected refusal"),
    }
    let loopback = browser_login_step(
        &BrowserLoginPhase::Starting,
        LoginExchange::Started {
            transaction_id: "tx".to_owned(),
            polling_secret: "ps".to_owned(),
            authorization_url: "http://127.0.0.1:8123/authorize".to_owned(),
        },
        "http://127.0.0.1:7000",
        true,
        0,
        300_000,
    );
    assert!(matches!(loopback, BrowserLoginStep::OpenBrowser { .. }));
}

#[test]
fn start_failures_are_named() {
    let rejected = browser_login_step(
        &BrowserLoginPhase::Starting,
        LoginExchange::CoordinatorError { message: "rate limited".to_owned() },
        "https://c.example",
        false,
        0,
        1000,
    );
    match rejected {
        BrowserLoginStep::Fail(error) => assert_eq!(
            error.message(),
            "coordinator returned an error while starting hosted browser login: rate limited"
        ),
        _ => panic!("expected failure"),
    }
    let pending_first = browser_login_step(
        &BrowserLoginPhase::Starting,
        LoginExchange::Pending,
        "https://c.example",
        false,
        0,
        1000,
    );
    assert!(matches!(pending_first, BrowserLoginStep::Fail(BrowserLoginError::NotStarted)));
}

#[test]
fn pending_logins_poll_until_the_deadline() {
    let step = browser_login_step(&polling(), LoginExchange::Pending, "https://c.example", false, 10_000, 12_000);
    assert!(matches!(step, BrowserLoginStep::PollAfter { delay_ms: 2000 }));
    let late = browser_login_step(&polling(), LoginExchange::Pending, "https://c.example", false, 10_001, 12_000);
    match late {
        BrowserLoginStep::Fail(error) => {
            assert_eq!(error.message(), "timed out waiting for hosted browser login completion")
        }
        _ => panic!("expected timeout"),
    }
    let overflow = browser_login_step(&polling(), LoginExchange::Pending, "https://c.example", false, u64::MAX, u64::MAX);
    assert!(matches!(overflow, BrowserLoginStep::Fail(BrowserLoginError::TimedOut)));
}

#[test]
fn rate_limits_wait_at_least_the_poll_interval() {
    let short = browser_login_step(
        &BrowserLoginPhase::Starting,
        LoginExchange::RateLimited { retry_after_ms: Some(100) },
        "https://c.example",
        false,
        0,
        300_000,
    );
    assert!(matches!(short, BrowserLoginStep::RetryAfter { delay_ms: 2000 }));
    let long = browser_login_step(
        &polling(),
        LoginExchange::RateLimited { retry_after_ms: Some(7000) },
        "https://c.example",
        false,
        0,
        300_000,
    );
    assert!(matches!(long, BrowserLoginStep::RetryAfter { delay_ms: 7000 }));
    let too_late = browser_login_step(
        &polling(),
        LoginExchange::RateLimited { retry_after_ms: Some(7000) },
        "https://c.example",
        false,
        295_000,
        300_000,
    );
    assert!(matches!(too_late, BrowserLoginStep::Fail(BrowserLoginError::TimedOut)));
}

#[test]
fn polling_ends_with_the_session_or_an_error() {
    let done = browser_login_step(&polling(), LoginExchange::SessionIssued, "https://c.example", false, 0, 1);
    assert!(matches!(done, BrowserLoginStep::Complete));
    let early = browser_login_step(
        &BrowserLoginPhase::Starting,
        LoginExchange::SessionIssued,
        "https://c.example",
        false,
        0,
        1,
    );
    assert!(matches!(early, BrowserLoginStep::Fail(BrowserLoginError::NotStarted)));
    let rejected = browser_login_step(
        &polling(),
        LoginExchange::CoordinatorError { message: "expired".to_owned() },
        "https://c.example",
        false,
        0,
        1,
    );
    match rejected {
        BrowserLoginStep::Fail(error) => assert_eq!(
            error.message(),
            "coordinator returned an error while polling hosted browser login: expired"
        ),
        _ => panic!("expected failure"),
    }
    let odd = browser_login_step(&polling(), LoginExchange::OtherResponse, "https://c.example", false, 0, 1);
    assert!(matches!(odd, BrowserLoginStep::Fail(BrowserLoginError::InvalidStatus)));
    let transport = browser_login_step(
        &polling(),
        LoginExchange::TransportFailed { message: "connection reset".to_owned() },
        "https://c.example",
        false,
        0,
        1,
    );
    match transport {
        BrowserLoginStep::Fail(error) => assert_eq!(error.message(), "connection reset"),
        _ => panic!("expected failure"),
    }
}

#[test]
fn finishing_stores_only_a_scoped_session() {
    let response = object(vec![(
        "session",
        object(vec![
            ("cli_session_credential_kind", text("CliDeviceSession")),
            ("session_secret", text("s3cret")),
            ("project", text("proj")),
            ("tenant", text("ten")),
            ("user", text("alice")),
            ("provider_tokens_sent_to_nodes", JsonValue::Bool(false)),
        ]),
    )]);
    let done = finalize_browser_login("https://c.example", &response, 3, 77).ok().expect("finished");
    assert!(done.boundary.cli_contacted_coordinator);
    assert!(done.boundary.scoped_cli_session_received);
    assert!(done.boundary.local_cli_session_file_written);
    assert!(!done.boundary.provider_tokens_persisted_locally);
    assert!(!done.boundary.provider_tokens_sent_to_nodes);
    assert_eq!(done.boundary.coordinator_session_requests, 3);
    let stored = done.session_to_store.expect("stored session");
    assert_eq!(stored.user, "alice");
    assert_eq!(stored.token_expiry_posture, "unknown_coordinator_session");
    assert_eq!(stored.created_at_unix_seconds, 77);

    let unscoped = object(vec![("session", object(vec![("tenant", text("ten"))]))]);
    let done = finalize_browser_login("https://c.example", &unscoped, 2, 0).ok().expect("finished");
    assert!(!done.boundary.scoped_cli_session_received);
    assert!(!done.boundary.local_cli_session_file_written);
    assert!(done.boundary.provider_tokens_sent_to_nodes);
    assert!(done.session_to_store.is_none());

    let incomplete = object(vec![(
        "session",
        object(vec![("cli_session_credential_kind", text("CliDeviceSession")), ("tenant", text("ten"))]),
    )]);
    assert!(finalize_browser_login("https://c.example", &incomplete, 1, 0).is_err());
}

#[test]
fn success_lines_name_the_account() {
    let response = object(vec![(
        "session",
        object(vec![("tenant", text("ten")), ("project", text("proj")), ("user", text("alice"))]),
    )]);
    assert_eq!(
        browser_login_success_lines("https://c.example", &response, true),
        vec![
            "Signed in to https://c.example as alice for ten/proj.".to_owned(),
            "Received a scoped CLI session from the coordinator.".to_owned(),
        ]
    );
    assert_eq!(
        browser_login_success_lines("https://c.example", &JsonValue::Null, false),
        vec!["Signed in to https://c.example as user for tenant/project.".to_owned()]
    );
}

#[test]
fn non_interactive_login_fails_safely() {
    let report = non_interactive_browser_login_report("https://c.example".to_owned());
    assert_eq!(report.status, "authentication_required");
    assert!(report.non_interactive && report.browser_requested && !report.browser_opened);
    assert!(report.safe_failure);
    assert_eq!(report.next_actions.len(), 3);
    assert_eq!(report.next_actions[1], "clusterflux login --browser --plan");
}
