//! What `clusterflux auth status` reports: which coordinator is in effect,
//! how the CLI is authenticated, and what is known of the account once the
//! coordinator was asked (or could not be asked).
use crate::auth::StoredCliSession;
use crate::errors::{category_of, cli_error_summary, summary_matches, CliErrorSummary};
use crate::node::{effective_scope, effective_scope_value};
use crate::node_commands::CliScopeArgs;
use vstd::prelude::*;

verus! {

/// The coordinator named by the first source that names one: the command
/// line, then the project configuration, then the stored CLI session.
pub fn configured_coordinator(
    cli: Option<String>,
    project_config: Option<String>,
    stored_session: Option<String>,
) -> (r: Option<String>)
    ensures
        r == match cli {
            Some(c) => Some(c),
            None => match project_config {
                Some(c) => Some(c),
                None => stored_session,
            },
        },
{
    match cli {
        Some(c) => Some(c),
        None => match project_config {
            Some(c) => Some(c),
            None => stored_session,
        },
    }
}

/// The project configuration file: the scope a project works in, and its
/// coordinator when one is set.
pub struct ProjectConfig {
    pub tenant: String,
    pub project: String,
    pub user: String,
    pub coordinator: Option<String>,
}

/// The coordinator and scope that `auth status` reports on.
pub struct AuthStatusScope {
    pub configured_coordinator: Option<String>,
    pub active_coordinator: String,
    pub tenant: String,
    pub project: String,
    pub principal: String,
}

/// A scope value as `auth status` resolves it: the command line, with the
/// project configuration's value (else the stored session's) in place of
/// the default.
pub open spec fn status_scope_value(
    cli: Seq<char>,
    config_value: Option<Seq<char>>,
    session_value: Option<Seq<char>>,
    default: Seq<char>,
) -> Seq<char> {
    effective_scope(
        cli,
        match config_value {
            Some(v) => Some(v),
            None => session_value,
        },
        default,
    )
}

fn fallback_str<'a>(config_value: Option<&'a str>, session_value: Option<&'a str>) -> (r: Option<
    &'a str,
>)
    ensures
        r == match config_value {
            Some(v) => Some(v),
            None => session_value,
        },
{
    match config_value {
        Some(v) => Some(v),
        None => session_value,
    }
}

pub open spec fn config_coordinator(config: Option<ProjectConfig>) -> Option<String> {
    match config {
        Some(c) => c.coordinator,
        None => None,
    }
}

pub open spec fn session_coordinator(session: Option<StoredCliSession>) -> Option<String> {
    match session {
        Some(s) => Some(s.coordinator),
        None => None,
    }
}

/// The coordinator and scope of `auth status`: the configured coordinator
/// (command line, project configuration, stored session), the endpoint
/// used when none is configured, and each scope value resolved against the
/// project configuration and the stored session.
pub fn auth_status_scope(
    args: &CliScopeArgs,
    config: Option<&ProjectConfig>,
    session: Option<&StoredCliSession>,
    default_endpoint: &str,
) -> (r: AuthStatusScope)
    ensures
        ({
            let cfg = match config {
                Some(c) => Some(*c),
                None => None,
            };
            let ses = match session {
                Some(s) => Some(*s),
                None => None,
            };
            &&& r.configured_coordinator == match args.coordinator {
                Some(c) => Some(c),
                None => match config_coordinator(cfg) {
                    Some(c) => Some(c),
                    None => session_coordinator(ses),
                },
            }
            &&& r.active_coordinator@ == match r.configured_coordinator {
                Some(c) => c@,
                None => default_endpoint@,
            }
            &&& r.tenant@ == status_scope_value(
                args.tenant@,
                match cfg {
                    Some(c) => Some(c.tenant@),
                    None => None,
                },
                match ses {
                    Some(s) => Some(s.tenant@),
                    None => None,
                },
                "tenant"@,
            )
            &&& r.project@ == status_scope_value(
                args.project@,
                match cfg {
                    Some(c) => Some(c.project@),
                    None => None,
                },
                match ses {
                    Some(s) => Some(s.project@),
                    None => None,
                },
                "project"@,
            )
            &&& r.principal@ == status_scope_value(
                args.user@,
                match cfg {
                    Some(c) => Some(c.user@),
                    None => None,
                },
                match ses {
                    Some(s) => Some(s.user@),
                    None => None,
                },
                "user"@,
            )
        }),
{
    let config_coordinator = match config {
        Some(c) => c.coordinator.clone(),
        None => None,
    };
    let session_coordinator = match session {
        Some(s) => Some(s.coordinator.clone()),
        None => None,
    };
    let configured = configured_coordinator(args.coordinator.clone(), config_coordinator, session_coordinator);
    let active_coordinator = match &configured {
        Some(c) => c.clone(),
        None => default_endpoint.to_owned(),
    };
    let tenant = effective_scope_value(
        args.tenant.as_str(),
        fallback_str(
            match config {
                Some(c) => Some(c.tenant.as_str()),
                None => None,
            },
            match session {
                Some(s) => Some(s.tenant.as_str()),
                None => None,
            },
        ),
        "tenant",
    );
    let project = effective_scope_value(
        args.project.as_str(),
        fallback_str(
            match config {
                Some(c) => Some(c.project.as_str()),
                None => None,
            },
            match session {
                Some(s) => Some(s.project.as_str()),
                None => None,
            },
        ),
        "project",
    );
    let principal = effective_scope_value(
        args.user.as_str(),
        fallback_str(
            match config {
                Some(c) => Some(c.user.as_str()),
                None => None,
            },
            match session {
                Some(s) => Some(s.user.as_str()),
                None => None,
            },
        ),
        "user",
    );
    AuthStatusScope {
        configured_coordinator: configured,
        active_coordinator,
        tenant,
        project,
        principal,
    }
}

/// Where the account status of `auth status` comes from.
pub enum AccountStatusSource {
    /// Ask this coordinator.
    AskCoordinator(String),
    /// Report that the stored session belongs to another scope.
    ScopeMismatch,
    /// Report that no coordinator is configured.
    Unconfigured,
}

/// What `auth status` reports beside the scope: where the account status
/// comes from, and whether the stored session matches the current project.
pub struct AuthStatusPlan {
    pub account_status: AccountStatusSource,
    pub session_matches_current_project: bool,
}

/// The coordinator is asked only when one is configured and the stored
/// session does not belong to another scope; otherwise a mismatch is
/// reported when there is one, and else that nothing is configured. The
/// session matches the project exactly when there is one and no mismatch.
pub fn auth_status_plan(
    configured_coordinator: Option<String>,
    scope_mismatch: bool,
    has_stored_session: bool,
) -> (r: AuthStatusPlan)
    ensures
        r.session_matches_current_project == (has_stored_session && !scope_mismatch),
        match configured_coordinator {
            Some(c) if !scope_mismatch => r.account_status matches AccountStatusSource::AskCoordinator(
                x,
            ) && x == c,
            _ => if scope_mismatch {
                r.account_status is ScopeMismatch
            } else {
                r.account_status is Unconfigured
            },
        },
{
    let account_status = match configured_coordinator {
        Some(c) if !scope_mismatch => AccountStatusSource::AskCoordinator(c),
        _ => if scope_mismatch {
            AccountStatusSource::ScopeMismatch
        } else {
            AccountStatusSource::Unconfigured
        },
    };
    AuthStatusPlan {
        account_status,
        session_matches_current_project: has_stored_session && !scope_mismatch,
    }
}

/// The moderation flags that the coordinator reports for an account.
#[derive(Clone, Copy, Debug, PartialEq, Eq, Structural)]
pub struct ModerationFlags {
    pub suspended: bool,
    pub disabled: bool,
    pub deleted: bool,
    pub manual_review: bool,
}

/// The coordinator's answer to an auth-status request.
pub struct AccountStatusReport {
    pub flags: ModerationFlags,
    pub account_status: String,
    pub sanitized_reason: Option<String>,
    pub next_actions: Vec<String>,
}

/// What came of asking the coordinator for the account's status.
pub enum AuthStatusProbe {
    /// No connection to the coordinator could be opened.
    ConnectFailed { message: String },
    /// No credential could be attached to the request.
    CredentialUnavailable { message: String },
    /// The request failed on an open connection.
    RequestFailed { message: String, requests: u64 },
    /// The coordinator answered with an error.
    CoordinatorError { message: String, requests: u64 },
    /// The coordinator answered with something other than an auth status.
    UnexpectedResponse { requests: u64 },
    /// The coordinator reported the account's status.
    Answered { report: AccountStatusReport, used_cli_session_credential: bool, requests: u64 },
}

#[derive(Clone, Copy, Debug, PartialEq, Eq, Structural)]
pub enum Reachability {
    Reachable,
    Unreachable,
    NotChecked,
}

/// The `coordinator_account_status` object of `auth status`. A field set to
/// `None` is left out of the report.
pub struct AccountStatusSummary {
    pub checked: bool,
    pub reachable: Option<Reachability>,
    pub source: Option<String>,
    pub reason: Option<String>,
    pub authenticated_for_current_project: Option<bool>,
    pub used_cli_session_credential: Option<bool>,
    pub account_status: String,
    pub suspension_known: Option<bool>,
    pub account_state_known: Option<bool>,
    pub moderation: Option<ModerationFlags>,
    pub sanitized_reason: Option<Option<String>>,
    pub sensitive_moderation_details_exposed: Option<bool>,
    pub signup_failure_details_exposed: Option<bool>,
    pub machine_error: Option<CliErrorSummary>,
    pub error: Option<String>,
    pub coordinator_response_type: Option<String>,
    pub next_actions: Option<Vec<String>>,
    pub coordinator_session_requests: Option<u64>,
}

/// The summary with its text taken by view and the machine error by the
/// message it summarises.
pub struct AccountStatusView {
    pub checked: bool,
    pub reachable: Option<Reachability>,
    pub source: Option<Seq<char>>,
    pub reason: Option<Seq<char>>,
    pub authenticated_for_current_project: Option<bool>,
    pub used_cli_session_credential: Option<bool>,
    pub account_status: Seq<char>,
    pub suspension_known: Option<bool>,
    pub account_state_known: Option<bool>,
    pub moderation: Option<ModerationFlags>,
    pub sanitized_reason: Option<Option<Seq<char>>>,
    pub sensitive_moderation_details_exposed: Option<bool>,
    pub signup_failure_details_exposed: Option<bool>,
    pub machine_error_message: Option<Seq<char>>,
    pub error: Option<Seq<char>>,
    pub coordinator_response_type: Option<Seq<char>>,
    pub next_actions: Option<Seq<Seq<char>>>,
    pub coordinator_session_requests: Option<u64>,
}

pub open spec fn opt_view(o: Option<String>) -> Option<Seq<char>> {
    match o {
        Some(s) => Some(s@),
        None => None,
    }
}

pub open spec fn strings_view(v: Seq<String>) -> Seq<Seq<char>> {
    v.map_values(|s: String| s@)
}

impl View for AccountStatusSummary {
    type V = AccountStatusView;

    open spec fn view(&self) -> AccountStatusView {
        AccountStatusView {
            checked: self.checked,
            reachable: self.reachable,
            source: opt_view(self.source),
            reason: opt_view(self.reason),
            authenticated_for_current_project: self.authenticated_for_current_project,
            used_cli_session_credential: self.used_cli_session_credential,
            account_status: self.account_status@,
            suspension_known: self.suspension_known,
            account_state_known: self.account_state_known,
            moderation: self.moderation,
            sanitized_reason: match self.sanitized_reason {
                Some(r) => Some(opt_view(r)),
                None => None,
            },
            sensitive_moderation_details_exposed: self.sensitive_moderation_details_exposed,
            signup_failure_details_exposed: self.signup_failure_details_exposed,
            machine_error_message: match self.machine_error {
                Some(e) => Some(e.message@),
                None => None,
            },
            error: opt_view(self.error),
            coordinator_response_type: opt_view(self.coordinator_response_type),
            next_actions: match self.next_actions {
                Some(a) => Some(strings_view(a@)),
                None => None,
            },
            coordinator_session_requests: self.coordinator_session_requests,
        }
    }
}

/// The machine error, where there is one, summarises its message under the
/// message's own category.
pub open spec fn machine_error_classified(s: AccountStatusSummary) -> bool {
    match s.machine_error {
        Some(e) => summary_matches(e, category_of(e.message@), e.message@),
        None => true,
    }
}

/// The report of an account whose status could not be learned.
pub open spec fn status_unknown(
    checked: bool,
    reachable: Reachability,
    authenticated_for_current_project: Option<bool>,
    message: Seq<char>,
    error: Option<Seq<char>>,
    response_type: Option<Seq<char>>,
    next_actions: Seq<Seq<char>>,
    requests: u64,
) -> AccountStatusView {
    AccountStatusView {
        checked,
        reachable: Some(reachable),
        source: Some("public_coordinator_api"@),
        reason: None,
        authenticated_for_current_project,
        used_cli_session_credential: None,
        account_status: "unknown"@,
        suspension_known: Some(false),
        account_state_known: Some(false),
        moderation: None,
        sanitized_reason: None,
        sensitive_moderation_details_exposed: Some(false),
        signup_failure_details_exposed: Some(false),
        machine_error_message: Some(message),
        error,
        coordinator_response_type: response_type,
        next_actions: Some(next_actions),
        coordinator_session_requests: Some(requests),
    }
}

pub open spec fn unreachable_actions() -> Seq<Seq<char>> {
    seq!["clusterflux doctor"@, "check coordinator status"@]
}

/// The message of an answer that is not an auth status.
pub open spec fn unexpected_response_message() -> Seq<char> {
    "coordinator returned an unexpected auth-status response"@
}

/// What `auth status` reports of the account, for each outcome of the
/// exchange with the coordinator.
pub open spec fn account_status_of(probe: AuthStatusProbe) -> AccountStatusView {
    match probe {
        AuthStatusProbe::ConnectFailed { message } => status_unknown(
            true,
            Reachability::Unreachable,
            None,
            message@,
            Some(message@),
            None,
            unreachable_actions(),
            0,
        ),
        AuthStatusProbe::CredentialUnavailable { message } => status_unknown(
            false,
            Reachability::NotChecked,
            Some(false),
            message@,
            Some(message@),
            None,
            seq!["clusterflux login --browser"@],
            0,
        ),
        AuthStatusProbe::RequestFailed { message, requests } => status_unknown(
            true,
            Reachability::Unreachable,
            None,
            message@,
            Some(message@),
            None,
            unreachable_actions(),
            requests,
        ),
        AuthStatusProbe::CoordinatorError { message, requests } => status_unknown(
            true,
            Reachability::Reachable,
            None,
            message@,
            None,
            Some("error"@),
            seq!["clusterflux doctor"@, "clusterflux login --browser"@],
            requests,
        ),
        AuthStatusProbe::UnexpectedResponse { requests } => AccountStatusView {
            checked: true,
            reachable: Some(Reachability::Reachable),
            source: Some("public_coordinator_api"@),
            reason: None,
            authenticated_for_current_project: None,
            used_cli_session_credential: None,
            account_status: "unknown"@,
            suspension_known: None,
            account_state_known: None,
            moderation: None,
            sanitized_reason: None,
            sensitive_moderation_details_exposed: None,
            signup_failure_details_exposed: None,
            machine_error_message: Some(unexpected_response_message()),
            error: None,
            coordinator_response_type: None,
            next_actions: Some(seq!["clusterflux doctor"@]),
            coordinator_session_requests: Some(requests),
        },
        AuthStatusProbe::Answered { report, used_cli_session_credential, requests } => AccountStatusView {
            checked: true,
            reachable: Some(Reachability::Reachable),
            source: Some("public_coordinator_api"@),
            reason: None,
            authenticated_for_current_project: None,
            used_cli_session_credential: Some(used_cli_session_credential),
            account_status: report.account_status@,
            suspension_known: Some(true),
            account_state_known: Some(true),
            moderation: Some(report.flags),
            sanitized_reason: Some(opt_view(report.sanitized_reason)),
            sensitive_moderation_details_exposed: Some(false),
            signup_failure_details_exposed: Some(false),
            machine_error_message: None,
            error: None,
            coordinator_response_type: Some("auth_status"@),
            next_actions: Some(strings_view(report.next_actions@)),
            coordinator_session_requests: Some(requests),
        },
    }
}

fn owned_actions(actions: &[&str]) -> (r: Vec<String>)
    ensures
        strings_view(r@) == actions@.map_values(|a: &str| a@),
{
    let mut out: Vec<String> = Vec::new();
    for i in 0..actions.len()
        invariant
            strings_view(out@) == actions@.take(i as int).map_values(|a: &str| a@),
    {
        let ghost before = out@;
        let owned = actions[i].to_owned();
        assert(owned@ == actions@[i as int]@);
        out.push(owned);
        assert(actions@.take(i + 1) =~= actions@.take(i as int).push(actions@[i as int]));
        assert(out@ =~= before.push(owned));
        assert(strings_view(out@) =~= strings_view(before).push(owned@));
        assert(strings_view(out@) =~= actions@.take(i + 1).map_values(|a: &str| a@));
    }
    assert(actions@.take(actions@.len() as int) =~= actions@);
    out
}

fn unknown_summary(
    checked: bool,
    reachable: Reachability,
    authenticated_for_current_project: Option<bool>,
    message: &str,
    error: Option<String>,
    response_type: Option<String>,
    next_actions: Vec<String>,
    requests: u64,
) -> (r: AccountStatusSummary)
    ensures
        r@ == status_unknown(
            checked,
            reachable,
            authenticated_for_current_project,
            message@,
            opt_view(error),
            opt_view(response_type),
            strings_view(next_actions@),
            requests,
        ),
        machine_error_classified(r),
{
    AccountStatusSummary {
        checked,
        reachable: Some(reachable),
        source: Some("public_coordinator_api".to_owned()),
        reason: None,
        authenticated_for_current_project,
        used_cli_session_credential: None,
        account_status: "unknown".to_owned(),
        suspension_known: Some(false),
        account_state_known: Some(false),
        moderation: None,
        sanitized_reason: None,
        sensitive_moderation_details_exposed: Some(false),
        signup_failure_details_exposed: Some(false),
        machine_error: Some(cli_error_summary(message)),
        error,
        coordinator_response_type: response_type,
        next_actions: Some(next_actions),
        coordinator_session_requests: Some(requests),
    }
}

/// The account status that `auth status` reports after its exchange with
/// the coordinator ended in `probe`.
pub fn coordinator_auth_status_summary(probe: AuthStatusProbe) -> (r: AccountStatusSummary)
    ensures
        r@ == account_status_of(probe),
        machine_error_classified(r),
{
    proof {
        reveal_strlit("clusterflux doctor");
        reveal_strlit("check coordinator status");
        reveal_strlit("clusterflux login --browser");
    }
    match probe {
        AuthStatusProbe::ConnectFailed { message } => {
            let actions = owned_actions(&["clusterflux doctor", "check coordinator status"]);
            assert(strings_view(actions@) =~= unreachable_actions());
            unknown_summary(
                true,
                Reachability::Unreachable,
                None,
                message.as_str(),
                Some(message.clone()),
                None,
                actions,
                0,
            )
        },
        AuthStatusProbe::CredentialUnavailable { message } => {
            let actions = owned_actions(&["clusterflux login --browser"]);
            assert(strings_view(actions@) =~= seq!["clusterflux login --browser"@]);
            unknown_summary(
                false,
                Reachability::NotChecked,
                Some(false),
                message.as_str(),
                Some(message.clone()),
                None,
                actions,
                0,
            )
        },
        AuthStatusProbe::RequestFailed { message, requests } => {
            let actions = owned_actions(&["clusterflux doctor", "check coordinator status"]);
            assert(strings_view(actions@) =~= unreachable_actions());
            unknown_summary(
                true,
                Reachability::Unreachable,
                None,
                message.as_str(),
                Some(message.clone()),
                None,
                actions,
                requests,
            )
        },
        AuthStatusProbe::CoordinatorError { message, requests } => {
            let actions = owned_actions(&["clusterflux doctor", "clusterflux login --browser"]);
            assert(strings_view(actions@) =~= seq![
                "clusterflux doctor"@,
                "clusterflux login --browser"@,
            ]);
            unknown_summary(
                true,
                Reachability::Reachable,
                None,
                message.as_str(),
                None,
                Some("error".to_owned()),
                actions,
                requests,
            )
        },
        AuthStatusProbe::UnexpectedResponse { requests } => {
            let actions = owned_actions(&["clusterflux doctor"]);
            assert(strings_view(actions@) =~= seq!["clusterflux doctor"@]);
            AccountStatusSummary {
                checked: true,
                reachable: Some(Reachability::Reachable),
                source: Some("public_coordinator_api".to_owned()),
                reason: None,
                authenticated_for_current_project: None,
                used_cli_session_credential: None,
                account_status: "unknown".to_owned(),
                suspension_known: None,
                account_state_known: None,
                moderation: None,
                sanitized_reason: None,
                sensitive_moderation_details_exposed: None,
                signup_failure_details_exposed: None,
                machine_error: Some(
                    cli_error_summary("coordinator returned an unexpected auth-status response"),
                ),
                error: None,
                coordinator_response_type: None,
                next_actions: Some(actions),
                coordinator_session_requests: Some(requests),
            }
        },
        AuthStatusProbe::Answered { report, used_cli_session_credential, requests } => {
            AccountStatusSummary {
                checked: true,
                reachable: Some(Reachability::Reachable),
                source: Some("public_coordinator_api".to_owned()),
                reason: None,
                authenticated_for_current_project: None,
                used_cli_session_credential: Some(used_cli_session_credential),
                account_status: report.account_status,
                suspension_known: Some(true),
                account_state_known: Some(true),
                moderation: Some(report.flags),
                sanitized_reason: Some(report.sanitized_reason),
                sensitive_moderation_details_exposed: Some(false),
                signup_failure_details_exposed: Some(false),
                machine_error: None,
                error: None,
                coordinator_response_type: Some("auth_status".to_owned()),
                next_actions: Some(report.next_actions),
                coordinator_session_requests: Some(requests),
            }
        },
    }
}

/// What `auth status` reports of the account when no coordinator is
/// configured: nothing was checked and nothing is known.
pub fn unconfigured_account_status() -> (r: AccountStatusSummary)
    ensures
        r@ == (AccountStatusView {
            checked: false,
            reachable: None,
            source: None,
            reason: Some("no project or session coordinator configured"@),
            authenticated_for_current_project: None,
            used_cli_session_credential: None,
            account_status: "unknown"@,
            suspension_known: Some(false),
            account_state_known: Some(false),
            moderation: None,
            sanitized_reason: None,
            sensitive_moderation_details_exposed: Some(false),
            signup_failure_details_exposed: Some(false),
            machine_error_message: None,
            error: None,
            coordinator_response_type: None,
            next_actions: None,
            coordinator_session_requests: None,
        }),
        machine_error_classified(r),
{
    AccountStatusSummary {
        checked: false,
        reachable: None,
        source: None,
        reason: Some("no project or session coordinator configured".to_owned()),
        authenticated_for_current_project: None,
        used_cli_session_credential: None,
        account_status: "unknown".to_owned(),
        suspension_known: Some(false),
        account_state_known: Some(false),
        moderation: None,
        sanitized_reason: None,
        sensitive_moderation_details_exposed: Some(false),
        signup_failure_details_exposed: Some(false),
        machine_error: None,
        error: None,
        coordinator_response_type: None,
        next_actions: None,
        coordinator_session_requests: None,
    }
}

/// The account's state is reported as known exactly when the coordinator
/// answered with an auth status, and then the moderation flags are the
/// coordinator's own.
pub proof fn account_state_known_only_from_coordinator(probe: AuthStatusProbe)
    ensures
        account_status_of(probe).account_state_known == Some(true) <==> probe is Answered,
        account_status_of(probe).suspension_known == Some(true) <==> probe is Answered,
        probe matches AuthStatusProbe::Answered { report, .. } ==> account_status_of(
            probe,
        ).moderation == Some(report.flags),
        !(probe is Answered) ==> account_status_of(probe).account_status == "unknown"@
            && account_status_of(probe).moderation is None,
{
}

/// When the coordinator answered, the report passes its answer through:
/// the account status, moderation flags, sanitized reason and next
/// actions; whether the stored CLI session credential was used, exactly as
/// the exchange says; and the number of requests made.
pub proof fn answered_status_passes_the_answer_through(probe: AuthStatusProbe)
    ensures
        probe matches AuthStatusProbe::Answered { report, used_cli_session_credential, requests }
            ==> {
            let v = account_status_of(probe);
            &&& v.checked
            &&& v.reachable == Some(Reachability::Reachable)
            &&& v.used_cli_session_credential == Some(used_cli_session_credential)
            &&& v.account_status == report.account_status@
            &&& v.moderation == Some(report.flags)
            &&& v.sanitized_reason == Some(opt_view(report.sanitized_reason))
            &&& v.next_actions == Some(report.next_actions@.map_values(|a: String| a@))
            &&& v.coordinator_session_requests == Some(requests)
            &&& v.machine_error_message is None
        },
{
}

/// A failed exchange reports the failure's own message, and as many
/// requests as were made: none when no connection or credential was had.
pub proof fn failures_report_their_message_and_requests(probe: AuthStatusProbe)
    ensures
        probe matches AuthStatusProbe::ConnectFailed { message } ==> account_status_of(
            probe,
        ).machine_error_message == Some(message@) && account_status_of(probe).error == Some(
            message@,
        ) && account_status_of(probe).coordinator_session_requests == Some(0u64)
            && account_status_of(probe).reachable == Some(Reachability::Unreachable),
        probe matches AuthStatusProbe::CredentialUnavailable { message } ==> account_status_of(
            probe,
        ).machine_error_message == Some(message@) && !account_status_of(probe).checked
            && account_status_of(probe).coordinator_session_requests == Some(0u64),
        probe matches AuthStatusProbe::RequestFailed { message, requests } ==> account_status_of(
            probe,
        ).machine_error_message == Some(message@) && account_status_of(probe).coordinator_session_requests
            == Some(requests),
        probe matches AuthStatusProbe::CoordinatorError { message, requests } ==> account_status_of(
            probe,
        ).machine_error_message == Some(message@) && account_status_of(probe).coordinator_session_requests
            == Some(requests) && account_status_of(probe).reachable == Some(Reachability::Reachable),
        probe matches AuthStatusProbe::UnexpectedResponse { requests } ==> account_status_of(
            probe,
        ).coordinator_session_requests == Some(requests),
{
}

/// Whatever the coordinator answered, the report never claims to expose
/// sensitive moderation details or signup-failure details.
pub proof fn moderation_details_never_exposed(probe: AuthStatusProbe)
    ensures
        account_status_of(probe).sensitive_moderation_details_exposed != Some(true),
        account_status_of(probe).signup_failure_details_exposed != Some(true),
{
}

/// A failed exchange always carries a machine-readable error and at least
/// one next action; an answered one carries no machine error.
pub proof fn failed_exchanges_explain_themselves(probe: AuthStatusProbe)
    ensures
        !(probe is Answered) <==> account_status_of(probe).machine_error_message is Some,
        !(probe is Answered) ==> (account_status_of(probe).next_actions matches Some(a) && a.len()
            >= 1),
{
}

// ---------------------------------------------------------------------
// The CLI's own authentication
// ---------------------------------------------------------------------

/// How the environment authenticates the CLI.
pub enum CliSessionSource {
    /// No credential in the environment.
    Anonymous,
    /// A human session token in `CLUSTERFLUX_TOKEN`.
    HumanSession,
    /// An agent's private key in `CLUSTERFLUX_AGENT_PRIVATE_KEY`.
    AgentPublicKey { agent: String, public_key_fingerprint: String, browser_interaction_required: bool },
}

/// The `session` object of `auth status`. A field set to `None` is left out
/// of the report; `expires_at` may be present and empty.
pub struct AuthState {
    pub kind: String,
    pub authenticated: bool,
    pub source: String,
    pub coordinator: Option<String>,
    pub tenant: Option<String>,
    pub project: Option<String>,
    pub principal: Option<String>,
    pub agent: Option<String>,
    pub public_key_fingerprint: Option<String>,
    pub browser_interaction_required: Option<bool>,
    pub cli_session_credential_kind: Option<String>,
    pub provider_tokens_exposed_to_cli: Option<bool>,
    pub provider_tokens_exposed_to_nodes: Option<bool>,
    pub expires_at: Option<Option<String>>,
    pub token_expiry_posture: String,
}

pub struct AuthStateView {
    pub kind: Seq<char>,
    pub authenticated: bool,
    pub source: Seq<char>,
    pub coordinator: Option<Seq<char>>,
    pub tenant: Option<Seq<char>>,
    pub project: Option<Seq<char>>,
    pub principal: Option<Seq<char>>,
    pub agent: Option<Seq<char>>,
    pub public_key_fingerprint: Option<Seq<char>>,
    pub browser_interaction_required: Option<bool>,
    pub cli_session_credential_kind: Option<Seq<char>>,
    pub provider_tokens_exposed_to_cli: Option<bool>,
    pub provider_tokens_exposed_to_nodes: Option<bool>,
    pub expires_at: Option<Option<Seq<char>>>,
    pub token_expiry_posture: Seq<char>,
}

impl View for AuthState {
    type V = AuthStateView;

    open spec fn view(&self) -> AuthStateView {
        AuthStateView {
            kind: self.kind@,
            authenticated: self.authenticated,
            source: self.source@,
            coordinator: opt_view(self.coordinator),
            tenant: opt_view(self.tenant),
            project: opt_view(self.project),
            principal: opt_view(self.principal),
            agent: opt_view(self.agent),
            public_key_fingerprint: opt_view(self.public_key_fingerprint),
            browser_interaction_required: self.browser_interaction_required,
            cli_session_credential_kind: opt_view(self.cli_session_credential_kind),
            provider_tokens_exposed_to_cli: self.provider_tokens_exposed_to_cli,
            provider_tokens_exposed_to_nodes: self.provider_tokens_exposed_to_nodes,
            expires_at: match self.expires_at {
                Some(e) => Some(opt_view(e)),
                None => None,
            },
            token_expiry_posture: self.token_expiry_posture@,
        }
    }
}

/// A report of `kind` from `source` with every optional field left out.
pub open spec fn bare_auth_state(
    kind: Seq<char>,
    authenticated: bool,
    source: Seq<char>,
    posture: Seq<char>,
) -> AuthStateView {
    AuthStateView {
        kind,
        authenticated,
        source,
        coordinator: None,
        tenant: None,
        project: None,
        principal: None,
        agent: None,
        public_key_fingerprint: None,
        browser_interaction_required: None,
        cli_session_credential_kind: None,
        provider_tokens_exposed_to_cli: None,
        provider_tokens_exposed_to_nodes: None,
        expires_at: None,
        token_expiry_posture: posture,
    }
}

/// How `auth status` describes the CLI's authentication. An anonymous
/// environment falls back to the stored CLI session; a human token's
/// expiry comes from `token_expires_at`.
pub open spec fn auth_state_of(
    source: CliSessionSource,
    stored_session: Option<StoredCliSession>,
    token_expires_at: Option<String>,
) -> AuthStateView {
    match source {
        CliSessionSource::Anonymous => match stored_session {
            Some(s) => AuthStateView {
                coordinator: Some(s.coordinator@),
                tenant: Some(s.tenant@),
                project: Some(s.project@),
                principal: Some(s.user@),
                cli_session_credential_kind: Some(s.cli_session_credential_kind@),
                provider_tokens_exposed_to_cli: Some(s.provider_tokens_exposed_to_cli),
                provider_tokens_exposed_to_nodes: Some(s.provider_tokens_sent_to_nodes),
                expires_at: Some(opt_view(s.expires_at)),
                ..bare_auth_state(s.kind@, true, "session_file"@, s.token_expiry_posture@)
            },
            None => bare_auth_state("anonymous"@, false, "environment"@, "no_session"@),
        },
        CliSessionSource::HumanSession => AuthStateView {
            provider_tokens_exposed_to_nodes: Some(false),
            expires_at: Some(opt_view(token_expires_at)),
            ..bare_auth_state(
                "human"@,
                true,
                "CLUSTERFLUX_TOKEN"@,
                if token_expires_at is Some {
                    "expires_at"@
                } else {
                    "unknown_env_token"@
                },
            )
        },
        CliSessionSource::AgentPublicKey {
            agent,
            public_key_fingerprint,
            browser_interaction_required,
        } => AuthStateView {
            agent: Some(agent@),
            public_key_fingerprint: Some(public_key_fingerprint@),
            browser_interaction_required: Some(browser_interaction_required),
            ..bare_auth_state(
                "agent_public_key"@,
                true,
                "CLUSTERFLUX_AGENT_PRIVATE_KEY"@,
                "not_applicable_public_key"@,
            )
        },
    }
}

fn bare_state(kind: String, authenticated: bool, source: String, posture: String) -> (r: AuthState)
    ensures
        r@ == bare_auth_state(kind@, authenticated, source@, posture@),
{
    AuthState {
        kind,
        authenticated,
        source,
        coordinator: None,
        tenant: None,
        project: None,
        principal: None,
        agent: None,
        public_key_fingerprint: None,
        browser_interaction_required: None,
        cli_session_credential_kind: None,
        provider_tokens_exposed_to_cli: None,
        provider_tokens_exposed_to_nodes: None,
        expires_at: None,
        token_expiry_posture: posture,
    }
}

/// The `session` object of `auth status`.
pub fn auth_state_value(
    source: CliSessionSource,
    stored_session: Option<StoredCliSession>,
    token_expires_at: Option<String>,
) -> (r: AuthState)
    ensures
        r@ == auth_state_of(source, stored_session, token_expires_at),
{
    match source {
        CliSessionSource::Anonymous => match stored_session {
            Some(s) => {
                let mut state = bare_state(
                    s.kind,
                    true,
                    "session_file".to_owned(),
                    s.token_expiry_posture,
                );
                state.coordinator = Some(s.coordinator);
                state.tenant = Some(s.tenant);
                state.project = Some(s.project);
                state.principal = Some(s.user);
                state.cli_session_credential_kind = Some(s.cli_session_credential_kind);
                state.provider_tokens_exposed_to_cli = Some(s.provider_tokens_exposed_to_cli);
                state.provider_tokens_exposed_to_nodes = Some(s.provider_tokens_sent_to_nodes);
                state.expires_at = Some(s.expires_at);
                state
            },
            None => bare_state(
                "anonymous".to_owned(),
                false,
                "environment".to_owned(),
                "no_session".to_owned(),
            ),
        },
        CliSessionSource::HumanSession => {
            let posture = if token_expires_at.is_some() {
                "expires_at".to_owned()
            } else {
                "unknown_env_token".to_owned()
            };
            let mut state = bare_state(
                "human".to_owned(),
                true,
                "CLUSTERFLUX_TOKEN".to_owned(),
                posture,
            );
            state.provider_tokens_exposed_to_nodes = Some(false);
            state.expires_at = Some(token_expires_at);
            state
        },
        CliSessionSource::AgentPublicKey {
            agent,
            public_key_fingerprint,
            browser_interaction_required,
        } => {
            let mut state = bare_state(
                "agent_public_key".to_owned(),
                true,
                "CLUSTERFLUX_AGENT_PRIVATE_KEY".to_owned(),
                "not_applicable_public_key".to_owned(),
            );
            state.agent = Some(agent);
            state.public_key_fingerprint = Some(public_key_fingerprint);
            state.browser_interaction_required = Some(browser_interaction_required);
            state
        },
    }
}

/// The CLI counts as authenticated exactly when the environment holds a
/// credential or a CLI session is stored.
pub proof fn authenticated_unless_anonymous_without_session(
    source: CliSessionSource,
    stored_session: Option<StoredCliSession>,
    token_expires_at: Option<String>,
)
    ensures
        !auth_state_of(source, stored_session, token_expires_at).authenticated <==> (
        source is Anonymous && stored_session is None),
{
}


/// With no credential in the environment, the report describes the stored
/// CLI session as it is: its kind, scope, principal, credential kind,
/// exposure flags, expiry and expiry posture, read from the session file.
pub proof fn anonymous_environment_reports_the_stored_session(
    session: StoredCliSession,
    token_expires_at: Option<String>,
)
    ensures
        ({
            let v = auth_state_of(CliSessionSource::Anonymous, Some(session), token_expires_at);
            &&& v.kind == session.kind@
            &&& v.authenticated
            &&& v.source == "session_file"@
            &&& v.coordinator == Some(session.coordinator@)
            &&& v.tenant == Some(session.tenant@)
            &&& v.project == Some(session.project@)
            &&& v.principal == Some(session.user@)
            &&& v.cli_session_credential_kind == Some(session.cli_session_credential_kind@)
            &&& v.provider_tokens_exposed_to_cli == Some(session.provider_tokens_exposed_to_cli)
            &&& v.provider_tokens_exposed_to_nodes == Some(session.provider_tokens_sent_to_nodes)
            &&& v.expires_at == Some(
                match session.expires_at {
                    Some(e) => Some(e@),
                    None => None,
                },
            )
            &&& v.token_expiry_posture == session.token_expiry_posture@
            &&& v.agent is None
        }),
{
}

/// A human token in the environment takes precedence over any stored
/// session: the report names the token, never the session's scope, and its
/// expiry posture is `expires_at` exactly when the token's expiry is known.
pub proof fn human_tokens_report_their_own_expiry(
    stored_session: Option<StoredCliSession>,
    token_expires_at: Option<String>,
)
    ensures
        ({
            let v = auth_state_of(CliSessionSource::HumanSession, stored_session, token_expires_at);
            &&& v.kind == "human"@
            &&& v.authenticated
            &&& v.source == "CLUSTERFLUX_TOKEN"@
            &&& v.expires_at == Some(
                match token_expires_at {
                    Some(e) => Some(e@),
                    None => None,
                },
            )
            &&& (v.token_expiry_posture == "expires_at"@ <==> token_expires_at is Some)
            &&& v.coordinator is None && v.tenant is None && v.project is None
            &&& v.principal is None
            &&& v.provider_tokens_exposed_to_nodes == Some(false)
        }),
{
    reveal_strlit("expires_at");
    reveal_strlit("unknown_env_token");
    assert("expires_at"@[0] != "unknown_env_token"@[0]);
}

/// An agent key in the environment takes precedence over any stored
/// session: the report carries the agent, its key fingerprint and whether
/// a browser interaction is required, and no session scope or expiry.
pub proof fn agent_keys_report_their_identity(
    agent: String,
    public_key_fingerprint: String,
    browser_interaction_required: bool,
    stored_session: Option<StoredCliSession>,
    token_expires_at: Option<String>,
)
    ensures
        ({
            let v = auth_state_of(
                CliSessionSource::AgentPublicKey {
                    agent,
                    public_key_fingerprint,
                    browser_interaction_required,
                },
                stored_session,
                token_expires_at,
            );
            &&& v.kind == "agent_public_key"@
            &&& v.authenticated
            &&& v.source == "CLUSTERFLUX_AGENT_PRIVATE_KEY"@
            &&& v.agent == Some(agent@)
            &&& v.public_key_fingerprint == Some(public_key_fingerprint@)
            &&& v.browser_interaction_required == Some(browser_interaction_required)
            &&& v.coordinator is None && v.tenant is None && v.project is None
            &&& v.expires_at is None
            &&& v.token_expiry_posture == "not_applicable_public_key"@
        }),
{
}

} // verus!
