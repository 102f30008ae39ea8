//! The hosted browser login as a sequence of decisions: after each answer of
//! the coordinator (or failure to get one) the CLI retries, opens the
//! browser, polls again, finishes, or gives up. The exchanges themselves,
//! the browser and the clock stay with the caller.
use crate::auth::{
    authorization_url_allowed, browser_login_retry_delay_ms, hosted_authorization_url_allowed,
    hosted_flow_guarantees, login_completion_flags, login_session, login_session_gap,
    scoped_session_received, started_login_plan, stored_cli_session_from_login_response,
    stored_login_session, tokens_sent_to_nodes, LoginFlowPlan, LoginPlan, LoginSessionError,
    StoredCliSession, BROWSER_LOGIN_POLL_INTERVAL_SECONDS,
};
use crate::json::{json_get, json_get_str, json_mentions_token, JsonValue};
use vstd::prelude::*;

verus! {

/// Where a hosted browser login stands.
pub enum BrowserLoginPhase {
    /// The coordinator has not started the login transaction yet.
    Starting,
    /// The transaction runs; it is polled with these credentials.
    Polling { transaction_id: String, polling_secret: String },
}

/// The outcome of one login request.
pub enum LoginExchange {
    /// The coordinator started a transaction.
    Started { transaction_id: String, polling_secret: String, authorization_url: String },
    /// The user has not finished in the browser yet.
    Pending,
    /// The coordinator issued the session.
    SessionIssued,
    /// The coordinator answered with an error.
    CoordinatorError { message: String },
    /// The coordinator answered with something that fits no step.
    OtherResponse,
    /// The coordinator refused the request for now (HTTP 429), possibly
    /// naming how long to wait.
    RateLimited { retry_after_ms: Option<u64> },
    /// The request failed otherwise.
    TransportFailed { message: String },
}

/// Why a hosted browser login stopped.
pub enum BrowserLoginError {
    StartRejected { message: String },
    NotStarted,
    InsecureAuthorizationUrl,
    PollRejected { message: String },
    InvalidStatus,
    TimedOut,
    Transport { message: String },
}

pub open spec fn browser_login_error_message(e: BrowserLoginError) -> Seq<char> {
    match e {
        BrowserLoginError::StartRejected { message } =>
            "coordinator returned an error while starting hosted browser login: "@ + message@,
        BrowserLoginError::NotStarted =>
            "coordinator did not start a hosted browser login transaction"@,
        BrowserLoginError::InsecureAuthorizationUrl =>
            "hosted login authorization URL must use HTTPS (plain HTTP is accepted only when both coordinator and identity provider are loopback test services)"@,
        BrowserLoginError::PollRejected { message } =>
            "coordinator returned an error while polling hosted browser login: "@ + message@,
        BrowserLoginError::InvalidStatus => "coordinator returned an invalid hosted login status"@,
        BrowserLoginError::TimedOut => "timed out waiting for hosted browser login completion"@,
        BrowserLoginError::Transport { message } => message@,
    }
}

impl BrowserLoginError {
    pub fn message(&self) -> (s: String)
        ensures
            s@ == browser_login_error_message(*self),
    {
        match self {
            BrowserLoginError::StartRejected { message } => {
                let mut s = "coordinator returned an error while starting hosted browser login: ".to_owned();
                s.append(message.as_str());
                s
            },
            BrowserLoginError::NotStarted => {
                "coordinator did not start a hosted browser login transaction".to_owned()
            },
            BrowserLoginError::InsecureAuthorizationUrl => {
                "hosted login authorization URL must use HTTPS (plain HTTP is accepted only when both coordinator and identity provider are loopback test services)".to_owned()
            },
            BrowserLoginError::PollRejected { message } => {
                let mut s = "coordinator returned an error while polling hosted browser login: ".to_owned();
                s.append(message.as_str());
                s
            },
            BrowserLoginError::InvalidStatus => {
                "coordinator returned an invalid hosted login status".to_owned()
            },
            BrowserLoginError::TimedOut => {
                "timed out waiting for hosted browser login completion".to_owned()
            },
            BrowserLoginError::Transport { message } => message.clone(),
        }
    }
}

/// What the CLI does next.
pub enum BrowserLoginStep {
    /// Send the same request again after `delay_ms`.
    RetryAfter { delay_ms: u64 },
    /// Open the browser at the plan's authorization URL, then poll the
    /// transaction at once.
    OpenBrowser { plan: LoginPlan, next: BrowserLoginPhase },
    /// Poll the transaction again after `delay_ms`.
    PollAfter { delay_ms: u64 },
    /// The session was issued: finish the login.
    Complete,
    /// Stop with this error.
    Fail(BrowserLoginError),
}

/// The pause before a rate-limited request is sent again.
pub open spec fn retry_delay(retry_after_ms: Option<u64>) -> int {
    let floor = BROWSER_LOGIN_POLL_INTERVAL_SECONDS * 1000;
    match retry_after_ms {
        Some(ms) => if ms > floor {
            ms as int
        } else {
            floor as int
        },
        None => floor as int,
    }
}

/// A pause of `delay_ms` from `now_ms` ends no later than the deadline.
pub open spec fn wait_fits(now_ms: u64, delay_ms: int, deadline_ms: u64) -> bool {
    now_ms + delay_ms <= deadline_ms
}

/// `step` waits `delay_ms` when the pause fits before the deadline, and
/// times out otherwise.
pub open spec fn wait_or_time_out(
    step: BrowserLoginStep,
    retry: bool,
    delay_ms: int,
    now_ms: u64,
    deadline_ms: u64,
) -> bool {
    if wait_fits(now_ms, delay_ms, deadline_ms) {
        if retry {
            step matches BrowserLoginStep::RetryAfter { delay_ms: d } && d == delay_ms
        } else {
            step matches BrowserLoginStep::PollAfter { delay_ms: d } && d == delay_ms
        }
    } else {
        step matches BrowserLoginStep::Fail(BrowserLoginError::TimedOut)
    }
}

/// The step that follows `exchange` in `phase`, at `now_ms`, for a login
/// that must finish by `deadline_ms`.
pub open spec fn login_step_spec(
    phase: BrowserLoginPhase,
    exchange: LoginExchange,
    coordinator: Seq<char>,
    coordinator_is_loopback: bool,
    now_ms: u64,
    deadline_ms: u64,
    step: BrowserLoginStep,
) -> bool {
    match exchange {
        LoginExchange::RateLimited { retry_after_ms } => wait_or_time_out(
            step,
            true,
            retry_delay(retry_after_ms),
            now_ms,
            deadline_ms,
        ),
        LoginExchange::TransportFailed { message } => step matches BrowserLoginStep::Fail(
            BrowserLoginError::Transport { message: m },
        ) && m@ == message@,
        _ => match phase {
            BrowserLoginPhase::Starting => match exchange {
                LoginExchange::Started { transaction_id, polling_secret, authorization_url } => {
                    if authorization_url_allowed(
                        coordinator,
                        coordinator_is_loopback,
                        authorization_url@,
                    ) {
                        step matches BrowserLoginStep::OpenBrowser { plan, next } && {
                            &&& plan.coordinator@ == coordinator
                            &&& plan.human_flow matches LoginFlowPlan::Browser(p)
                            &&& hosted_flow_guarantees(p)
                            &&& p.authorization_url matches Some(u) && u@ == authorization_url@
                            &&& next matches BrowserLoginPhase::Polling { transaction_id: t, polling_secret: s }
                            &&& t@ == transaction_id@
                            &&& s@ == polling_secret@
                        }
                    } else {
                        step matches BrowserLoginStep::Fail(
                            BrowserLoginError::InsecureAuthorizationUrl,
                        )
                    }
                },
                LoginExchange::CoordinatorError { message } => step matches BrowserLoginStep::Fail(
                    BrowserLoginError::StartRejected { message: m },
                ) && m@ == message@,
                _ => step matches BrowserLoginStep::Fail(BrowserLoginError::NotStarted),
            },
            BrowserLoginPhase::Polling { .. } => match exchange {
                LoginExchange::CoordinatorError { message } => step matches BrowserLoginStep::Fail(
                    BrowserLoginError::PollRejected { message: m },
                ) && m@ == message@,
                LoginExchange::Pending => wait_or_time_out(
                    step,
                    false,
                    BROWSER_LOGIN_POLL_INTERVAL_SECONDS * 1000,
                    now_ms,
                    deadline_ms,
                ),
                LoginExchange::SessionIssued => step is Complete,
                _ => step matches BrowserLoginStep::Fail(BrowserLoginError::InvalidStatus),
            },
        },
    }
}

fn wait_step(retry: bool, delay_ms: u64, now_ms: u64, deadline_ms: u64) -> (r: BrowserLoginStep)
    ensures
        wait_or_time_out(r, retry, delay_ms as int, now_ms, deadline_ms),
{
    let fits = match now_ms.checked_add(delay_ms) {
        Some(end) => end <= deadline_ms,
        None => false,
    };
    if !fits {
        BrowserLoginStep::Fail(BrowserLoginError::TimedOut)
    } else if retry {
        BrowserLoginStep::RetryAfter { delay_ms }
    } else {
        BrowserLoginStep::PollAfter { delay_ms }
    }
}

/// Decides what follows `exchange` in `phase`. Every pause it asks for
/// lasts at least the poll interval and ends by the deadline; the browser
/// is opened only at an authorization URL that a hosted login may use.
pub fn browser_login_step(
    phase: &BrowserLoginPhase,
    exchange: LoginExchange,
    coordinator: &str,
    coordinator_is_loopback: bool,
    now_ms: u64,
    deadline_ms: u64,
) -> (r: BrowserLoginStep)
    ensures
        login_step_spec(
            *phase,
            exchange,
            coordinator@,
            coordinator_is_loopback,
            now_ms,
            deadline_ms,
            r,
        ),
        r matches BrowserLoginStep::RetryAfter { delay_ms } ==> now_ms + delay_ms <= deadline_ms
            && delay_ms >= BROWSER_LOGIN_POLL_INTERVAL_SECONDS * 1000,
        r matches BrowserLoginStep::PollAfter { delay_ms } ==> now_ms + delay_ms <= deadline_ms
            && delay_ms == BROWSER_LOGIN_POLL_INTERVAL_SECONDS * 1000,
        r matches BrowserLoginStep::OpenBrowser { plan, .. } ==> (plan.human_flow matches LoginFlowPlan::Browser(
            p,
        ) && p.authorization_url matches Some(u) && authorization_url_allowed(
            coordinator@,
            coordinator_is_loopback,
            u@,
        )),
        r is Complete ==> *phase is Polling,
{
    match exchange {
        LoginExchange::RateLimited { retry_after_ms } => {
            let delay = browser_login_retry_delay_ms(retry_after_ms);
            wait_step(true, delay, now_ms, deadline_ms)
        },
        LoginExchange::TransportFailed { message } => {
            BrowserLoginStep::Fail(BrowserLoginError::Transport { message })
        },
        exchange => match phase {
            BrowserLoginPhase::Starting => match exchange {
                LoginExchange::Started { transaction_id, polling_secret, authorization_url } => {
                    if hosted_authorization_url_allowed(
                        coordinator,
                        coordinator_is_loopback,
                        authorization_url.as_str(),
                    ) {
                        let plan = started_login_plan(coordinator.to_owned(), authorization_url);
                        BrowserLoginStep::OpenBrowser {
                            plan,
                            next: BrowserLoginPhase::Polling { transaction_id, polling_secret },
                        }
                    } else {
                        BrowserLoginStep::Fail(BrowserLoginError::InsecureAuthorizationUrl)
                    }
                },
                LoginExchange::CoordinatorError { message } => {
                    BrowserLoginStep::Fail(BrowserLoginError::StartRejected { message })
                },
                _ => BrowserLoginStep::Fail(BrowserLoginError::NotStarted),
            },
            BrowserLoginPhase::Polling { .. } => match exchange {
                LoginExchange::CoordinatorError { message } => {
                    BrowserLoginStep::Fail(BrowserLoginError::PollRejected { message })
                },
                LoginExchange::Pending => {
                    wait_step(false, BROWSER_LOGIN_POLL_INTERVAL_SECONDS * 1000, now_ms, deadline_ms)
                },
                LoginExchange::SessionIssued => BrowserLoginStep::Complete,
                _ => BrowserLoginStep::Fail(BrowserLoginError::InvalidStatus),
            },
        },
    }
}

/// An HTTPS authorization URL is always accepted, whatever the
/// coordinator; a URL that is neither HTTPS nor plain HTTP is never.
pub proof fn https_authorization_urls_are_accepted(
    coordinator: Seq<char>,
    coordinator_is_loopback: bool,
    authorization_url: Seq<char>,
)
    ensures
        crate::text::starts_with(authorization_url, "https://"@) ==> authorization_url_allowed(
            coordinator,
            coordinator_is_loopback,
            authorization_url,
        ),
        !crate::text::starts_with(authorization_url, "https://"@) && !coordinator_is_loopback
            ==> !authorization_url_allowed(coordinator, coordinator_is_loopback, authorization_url),
{
}

/// Plain HTTP is accepted for an authorization URL only when the
/// coordinator is a plain-HTTP loopback service and the URL itself is a
/// loopback HTTP URL without credentials or fragment.
pub proof fn plain_http_only_between_loopback_services(
    coordinator: Seq<char>,
    coordinator_is_loopback: bool,
    authorization_url: Seq<char>,
)
    requires
        authorization_url_allowed(coordinator, coordinator_is_loopback, authorization_url),
        !crate::text::starts_with(authorization_url, "https://"@),
    ensures
        crate::text::starts_with(coordinator, "http://"@),
        coordinator_is_loopback,
        crate::auth::authorization_url_loopback(authorization_url),
{
}

/// An HTTPS authorization URL from a started transaction opens the browser
/// at that URL, for this coordinator, and the transaction is then polled
/// with the credentials it was started with.
pub proof fn started_https_login_opens_the_browser(
    exchange: LoginExchange,
    coordinator: Seq<char>,
    coordinator_is_loopback: bool,
    now_ms: u64,
    deadline_ms: u64,
    step: BrowserLoginStep,
)
    requires
        exchange matches LoginExchange::Started { authorization_url, .. } && crate::text::starts_with(
            authorization_url@,
            "https://"@,
        ),
        login_step_spec(
            BrowserLoginPhase::Starting,
            exchange,
            coordinator,
            coordinator_is_loopback,
            now_ms,
            deadline_ms,
            step,
        ),
    ensures
        exchange matches LoginExchange::Started { transaction_id, polling_secret, authorization_url }
            ==> (step matches BrowserLoginStep::OpenBrowser { plan, next } && plan.coordinator@
            == coordinator && (plan.human_flow matches LoginFlowPlan::Browser(p)
            && p.authorization_url matches Some(u) && u@ == authorization_url@) && (
        next matches BrowserLoginPhase::Polling { transaction_id: t, polling_secret: ps } && t@
            == transaction_id@ && ps@ == polling_secret@)),
{
}

/// While polling, a pending answer waits the two-second poll interval when
/// that ends by the deadline, and times out otherwise; an issued session
/// completes the login; an error answer stops it with that error's text.
pub proof fn polling_waits_completes_or_stops(
    transaction_id: String,
    polling_secret: String,
    exchange: LoginExchange,
    coordinator: Seq<char>,
    coordinator_is_loopback: bool,
    now_ms: u64,
    deadline_ms: u64,
    step: BrowserLoginStep,
)
    requires
        login_step_spec(
            BrowserLoginPhase::Polling { transaction_id, polling_secret },
            exchange,
            coordinator,
            coordinator_is_loopback,
            now_ms,
            deadline_ms,
            step,
        ),
    ensures
        exchange is Pending && now_ms + 2000 <= deadline_ms ==> step
            == (BrowserLoginStep::PollAfter { delay_ms: 2000 }),
        exchange is Pending && now_ms + 2000 > deadline_ms ==> step matches BrowserLoginStep::Fail(
            BrowserLoginError::TimedOut,
        ),
        exchange is SessionIssued ==> step is Complete,
        exchange matches LoginExchange::CoordinatorError { message } ==> (step matches BrowserLoginStep::Fail(
            e,
        ) && browser_login_error_message(e)
            == "coordinator returned an error while polling hosted browser login: "@ + message@),
{
}

/// A rate-limited request is sent again after what the coordinator asked,
/// but never sooner than two seconds, provided that ends by the deadline.
pub proof fn rate_limited_requests_wait_at_least_two_seconds(
    phase: BrowserLoginPhase,
    retry_after_ms: Option<u64>,
    coordinator: Seq<char>,
    coordinator_is_loopback: bool,
    now_ms: u64,
    deadline_ms: u64,
    step: BrowserLoginStep,
)
    requires
        login_step_spec(
            phase,
            LoginExchange::RateLimited { retry_after_ms },
            coordinator,
            coordinator_is_loopback,
            now_ms,
            deadline_ms,
            step,
        ),
    ensures
        ({
            let wanted: int = match retry_after_ms {
                Some(ms) => if ms >= 2000 {
                    ms as int
                } else {
                    2000
                },
                None => 2000,
            };
            &&& now_ms + wanted <= deadline_ms ==> (step matches BrowserLoginStep::RetryAfter { delay_ms }
                && delay_ms == wanted)
            &&& now_ms + wanted > deadline_ms ==> step matches BrowserLoginStep::Fail(
                BrowserLoginError::TimedOut,
            )
        }),
{
}

// ---------------------------------------------------------------------
// Finishing the login
// ---------------------------------------------------------------------

/// What a finished browser login shows about the boundary between the CLI,
/// the coordinator and the nodes.
pub struct LoginCompletionBoundaryEvidence {
    pub cli_contacted_coordinator: bool,
    pub coordinator_address: String,
    pub scoped_cli_session_received: bool,
    pub local_cli_session_file_written: bool,
    pub provider_tokens_persisted_locally: bool,
    pub provider_tokens_exposed_to_cli: bool,
    pub provider_tokens_sent_to_nodes: bool,
    pub coordinator_session_requests: u64,
}

/// A finished login: its evidence, and the session to store when the
/// coordinator issued a scoped CLI session.
pub struct LoginFinalization {
    pub boundary: LoginCompletionBoundaryEvidence,
    pub session_to_store: Option<StoredCliSession>,
}

/// The evidence and stored session of a login whose last answer was
/// `coordinator_response`, after `requests` requests. A scoped session is
/// stored (and its file counted as written); the login fails when that
/// session lacks a part.
pub fn finalize_browser_login(
    coordinator: &str,
    coordinator_response: &JsonValue,
    requests: u64,
    created_at_unix_seconds: u64,
) -> (r: Result<LoginFinalization, LoginSessionError>)
    ensures
        ({
            let scoped = scoped_session_received(*coordinator_response);
            let gap = login_session_gap(login_session(*coordinator_response));
            match r {
                Ok(f) => {
                    &&& !(scoped && gap is Some)
                    &&& f.boundary.cli_contacted_coordinator
                    &&& f.boundary.coordinator_address@ == coordinator@
                    &&& f.boundary.scoped_cli_session_received == scoped
                    &&& f.boundary.local_cli_session_file_written == scoped
                    &&& !f.boundary.provider_tokens_persisted_locally
                    &&& f.boundary.provider_tokens_exposed_to_cli == json_mentions_token(
                        *coordinator_response,
                    )
                    &&& f.boundary.provider_tokens_sent_to_nodes == tokens_sent_to_nodes(
                        *coordinator_response,
                    )
                    &&& f.boundary.coordinator_session_requests == requests
                    &&& (scoped <==> f.session_to_store is Some)
                    &&& (f.session_to_store matches Some(s) ==> s@ == stored_login_session(
                        coordinator@,
                        login_session(*coordinator_response),
                        json_mentions_token(*coordinator_response),
                        tokens_sent_to_nodes(*coordinator_response),
                        created_at_unix_seconds,
                    ))
                },
                Err(e) => scoped && gap == Some(e),
            }
        }),
{
    let flags = login_completion_flags(coordinator_response);
    let session_to_store = if flags.scoped_cli_session_received {
        match stored_cli_session_from_login_response(
            coordinator,
            coordinator_response,
            flags.provider_tokens_exposed_to_cli,
            flags.provider_tokens_sent_to_nodes,
            created_at_unix_seconds,
        ) {
            Ok(s) => Some(s),
            Err(e) => return Err(e),
        }
    } else {
        None
    };
    Ok(
        LoginFinalization {
            boundary: LoginCompletionBoundaryEvidence {
                cli_contacted_coordinator: true,
                coordinator_address: coordinator.to_owned(),
                scoped_cli_session_received: flags.scoped_cli_session_received,
                local_cli_session_file_written: flags.scoped_cli_session_received,
                provider_tokens_persisted_locally: false,
                provider_tokens_exposed_to_cli: flags.provider_tokens_exposed_to_cli,
                provider_tokens_sent_to_nodes: flags.provider_tokens_sent_to_nodes,
                coordinator_session_requests: requests,
            },
            session_to_store,
        },
    )
}

/// The session's value under `key` when it is a string, else `fallback`.
pub open spec fn session_text_or(response: JsonValue, key: Seq<char>, fallback: Seq<char>) -> Seq<
    char,
> {
    match json_get(response, "session"@) {
        Some(s) => match json_get_str(s, key) {
            Some(t) => t,
            None => fallback,
        },
        None => fallback,
    }
}

fn session_text_or_exec(response: &JsonValue, key: &str, fallback: &str) -> (r: String)
    ensures
        r@ == session_text_or(*response, key@, fallback@),
{
    match response.get("session") {
        Some(s) => match s.get(key) {
            Some(v) => match v.as_str() {
                Some(t) => t.to_owned(),
                None => fallback.to_owned(),
            },
            None => fallback.to_owned(),
        },
        None => fallback.to_owned(),
    }
}

/// The lines printed after a successful browser login: who signed in where,
/// and, when one arrived, that a scoped CLI session was received.
pub fn browser_login_success_lines(
    coordinator: &str,
    coordinator_response: &JsonValue,
    scoped_cli_session_received: bool,
) -> (r: Vec<String>)
    ensures
        r@.len() == if scoped_cli_session_received {
            2int
        } else {
            1int
        },
        r@[0]@ == "Signed in to "@ + coordinator@ + " as "@ + session_text_or(
            *coordinator_response,
            "user"@,
            "user"@,
        ) + " for "@ + session_text_or(*coordinator_response, "tenant"@, "tenant"@) + "/"@
            + session_text_or(*coordinator_response, "project"@, "project"@) + "."@,
        scoped_cli_session_received ==> r@[1]@
            == "Received a scoped CLI session from the coordinator."@,
{
    let tenant = session_text_or_exec(coordinator_response, "tenant", "tenant");
    let project = session_text_or_exec(coordinator_response, "project", "project");
    let user = session_text_or_exec(coordinator_response, "user", "user");
    let mut line = "Signed in to ".to_owned();
    line.append(coordinator);
    line.append(" as ");
    line.append(user.as_str());
    line.append(" for ");
    line.append(tenant.as_str());
    line.append("/");
    line.append(project.as_str());
    line.append(".");
    let mut lines: Vec<String> = Vec::new();
    lines.push(line);
    if scoped_cli_session_received {
        lines.push("Received a scoped CLI session from the coordinator.".to_owned());
    }
    lines
}

// ---------------------------------------------------------------------
// Non-interactive mode
// ---------------------------------------------------------------------

/// The report of a browser login that non-interactive mode forbids.
pub struct NonInteractiveLoginReport {
    pub status: String,
    pub coordinator: String,
    pub non_interactive: bool,
    pub browser_requested: bool,
    pub browser_opened: bool,
    pub safe_failure: bool,
    pub message: String,
    pub next_actions: Vec<&'static str>,
}

pub open spec fn non_interactive_next_actions() -> Seq<Seq<char>> {
    seq![
        "rerun without --non-interactive to open the browser"@,
        "clusterflux login --browser --plan"@,
        "use CLUSTERFLUX_AGENT_PRIVATE_KEY for automation"@,
    ]
}

/// A browser login in non-interactive mode fails safely: no browser is
/// opened, authentication is required, and the report names the ways on.
pub fn non_interactive_browser_login_report(coordinator: String) -> (r: NonInteractiveLoginReport)
    ensures
        r.status@ == "authentication_required"@,
        r.coordinator == coordinator,
        r.non_interactive,
        r.browser_requested,
        !r.browser_opened,
        r.safe_failure,
        r.message@
            == "browser login requires an interactive browser, but non-interactive mode is enabled"@,
        r.next_actions@.map_values(|a: &'static str| a@) == non_interactive_next_actions(),
{
    let next_actions = vec![
        "rerun without --non-interactive to open the browser",
        "clusterflux login --browser --plan",
        "use CLUSTERFLUX_AGENT_PRIVATE_KEY for automation",
    ];
    assert(next_actions@.map_values(|a: &'static str| a@) =~= non_interactive_next_actions());
    NonInteractiveLoginReport {
        status: "authentication_required".to_owned(),
        coordinator,
        non_interactive: true,
        browser_requested: true,
        browser_opened: false,
        safe_failure: true,
        message: "browser login requires an interactive browser, but non-interactive mode is enabled".to_owned(),
        next_actions,
    }
}

} // verus!
