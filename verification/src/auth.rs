//! The decisions of CLI sign-in: the login plan, which authorization URLs a
//! hosted browser login may open, how the session that the coordinator
//! hands back is stored, and the checks of a self-hosted session.
use crate::json::{json_as_bool, json_as_str, json_as_u64, json_get, json_get_str, json_mentions_token, contains_provider_token_field, JsonValue};
use crate::text::{
    chars_eq_ignore_ascii_case, chars_of, decimal, decimal_string, eq_ignore_ascii_case, is_blank,
    starts_with, starts_with_str, str_eq, str_is_blank,
};
use crate::weburl::{
    opt_host_view, opt_text_view, parse_url, url_fragment, url_fragment_of, url_host, url_host_of,
    url_parses, url_password, url_password_of, url_scheme, url_scheme_of, url_username,
    url_username_of, HostView, UrlHost,
};
use vstd::prelude::*;

verus! {

// ---------------------------------------------------------------------
// Login plan
// ---------------------------------------------------------------------

/// The options of `clusterflux login`.
pub struct LoginArgs {
    pub browser: bool,
    pub non_interactive: bool,
    pub plan: bool,
    pub json: bool,
    pub coordinator: String,
    pub project: String,
}

/// How a hosted browser login proceeds.
pub struct HostedBrowserLoginPlan {
    pub authorization_url: Option<String>,
    pub server_owns_state: bool,
    pub server_owns_nonce: bool,
    pub pkce_required: bool,
    pub hosted_callback: bool,
    pub cli_receives_provider_authorization_code: bool,
    pub cli_submits_identity_claims: bool,
}

pub enum LoginFlowPlan {
    Browser(HostedBrowserLoginPlan),
}

pub struct LoginPlan {
    pub coordinator: String,
    pub human_flow: LoginFlowPlan,
}

/// The guarantees of every hosted browser login: the server owns state,
/// nonce and callback, PKCE is required, and the CLI never sees the
/// provider's authorization code nor submits identity claims.
pub open spec fn hosted_flow_guarantees(p: HostedBrowserLoginPlan) -> bool {
    &&& p.server_owns_state
    &&& p.server_owns_nonce
    &&& p.pkce_required
    &&& p.hosted_callback
    &&& !p.cli_receives_provider_authorization_code
    &&& !p.cli_submits_identity_claims
}

/// The plan of a browser login against the chosen coordinator, before the
/// coordinator has named an authorization URL.
pub fn login_plan(args: LoginArgs) -> (r: LoginPlan)
    ensures
        r.coordinator == args.coordinator,
        r.human_flow matches LoginFlowPlan::Browser(p) && hosted_flow_guarantees(p)
            && p.authorization_url is None,
{
    let human_flow = LoginFlowPlan::Browser(
        HostedBrowserLoginPlan {
            authorization_url: None,
            server_owns_state: true,
            server_owns_nonce: true,
            pkce_required: true,
            hosted_callback: true,
            cli_receives_provider_authorization_code: false,
            cli_submits_identity_claims: false,
        },
    );
    LoginPlan { coordinator: args.coordinator, human_flow }
}

/// The plan once the coordinator has named the authorization URL.
pub fn started_login_plan(coordinator: String, authorization_url: String) -> (r: LoginPlan)
    ensures
        r.coordinator == coordinator,
        r.human_flow matches LoginFlowPlan::Browser(p) && hosted_flow_guarantees(p)
            && p.authorization_url == Some(authorization_url),
{
    LoginPlan {
        coordinator,
        human_flow: LoginFlowPlan::Browser(
            HostedBrowserLoginPlan {
                authorization_url: Some(authorization_url),
                server_owns_state: true,
                server_owns_nonce: true,
                pkce_required: true,
                hosted_callback: true,
                cli_receives_provider_authorization_code: false,
                cli_submits_identity_claims: false,
            },
        ),
    }
}

// ---------------------------------------------------------------------
// Authorization URLs
// ---------------------------------------------------------------------

/// What the loopback check reads of a parsed URL.
pub struct UrlParts {
    pub scheme: String,
    pub username: String,
    pub password: Option<String>,
    pub fragment: Option<String>,
    pub host: Option<UrlHost>,
}

/// A plain-HTTP URL to this machine, without credentials or fragment: the
/// host is `localhost` in any case, or a loopback address (`127.0.0.0/8`,
/// `::1`).
pub open spec fn loopback_http(
    scheme: Seq<char>,
    username: Seq<char>,
    password: Option<Seq<char>>,
    fragment: Option<Seq<char>>,
    host: Option<HostView>,
) -> bool {
    &&& scheme == "http"@
    &&& username.len() == 0
    &&& password is None
    &&& fragment is None
    &&& match host {
        Some(HostView::Domain(d)) => eq_ignore_ascii_case(d, "localhost"@),
        Some(HostView::Ipv4(octets)) => octets[0] == 127,
        Some(HostView::Ipv6(segments)) => segments == seq![0u16, 0, 0, 0, 0, 0, 0, 1],
        None => false,
    }
}

/// Whether the URL parsed from the text is a loopback plain-HTTP URL.
pub open spec fn authorization_url_loopback(value: Seq<char>) -> bool {
    url_parses(value) && loopback_http(
        url_scheme_of(value),
        url_username_of(value),
        url_password_of(value),
        url_fragment_of(value),
        url_host_of(value),
    )
}

fn host_is_loopback(host: &Option<UrlHost>) -> (r: bool)
    ensures
        r == match opt_host_view(*host) {
            Some(HostView::Domain(d)) => eq_ignore_ascii_case(d, "localhost"@),
            Some(HostView::Ipv4(octets)) => octets[0] == 127,
            Some(HostView::Ipv6(segments)) => segments == seq![0u16, 0, 0, 0, 0, 0, 0, 1],
            None => false,
        },
{
    match host {
        Some(UrlHost::Domain(d)) => {
            let dc = chars_of(d.as_str());
            let lc = chars_of("localhost");
            chars_eq_ignore_ascii_case(&dc, &lc)
        },
        Some(UrlHost::Ipv4(octets)) => octets[0] == 127,
        Some(UrlHost::Ipv6(segments)) => {
            let r = segments[0] == 0 && segments[1] == 0 && segments[2] == 0 && segments[3] == 0
                && segments[4] == 0 && segments[5] == 0 && segments[6] == 0 && segments[7] == 1;
            assert(r == (segments@ == seq![0u16, 0, 0, 0, 0, 0, 0, 1])) by {
                if r {
                    assert(segments@ =~= seq![0u16, 0, 0, 0, 0, 0, 0, 1]);
                }
            }
            r
        },
        None => false,
    }
}

/// Whether the parts describe a loopback plain-HTTP URL.
pub fn url_parts_are_loopback_http(parts: &UrlParts) -> (r: bool)
    ensures
        r == loopback_http(
            parts.scheme@,
            parts.username@,
            opt_text_view(parts.password),
            opt_text_view(parts.fragment),
            opt_host_view(parts.host),
        ),
{
    if !str_eq(parts.scheme.as_str(), "http") || !parts.username.as_str().is_empty()
        || parts.password.is_some() || parts.fragment.is_some() {
        return false;
    }
    host_is_loopback(&parts.host)
}

/// Whether an authorization URL points back to this machine over plain
/// HTTP, as a local test identity provider does.
pub fn authorization_url_is_loopback_http(value: &str) -> (r: bool)
    ensures
        r == authorization_url_loopback(value@),
{
    let parsed = match parse_url(value) {
        Some(p) => p,
        None => return false,
    };
    let parts = UrlParts {
        scheme: url_scheme(&parsed),
        username: url_username(&parsed),
        password: url_password(&parsed),
        fragment: url_fragment(&parsed),
        host: url_host(&parsed),
    };
    url_parts_are_loopback_http(&parts)
}

/// Whether a hosted login may open `authorization_url`: HTTPS always, plain
/// HTTP only when coordinator and identity provider are both loopback test
/// services.
pub open spec fn authorization_url_allowed(
    coordinator: Seq<char>,
    coordinator_is_loopback: bool,
    authorization_url: Seq<char>,
) -> bool {
    starts_with(authorization_url, "https://"@) || (starts_with(coordinator, "http://"@)
        && coordinator_is_loopback && authorization_url_loopback(authorization_url))
}

pub fn hosted_authorization_url_allowed(
    coordinator: &str,
    coordinator_is_loopback: bool,
    authorization_url: &str,
) -> (r: bool)
    ensures
        r == authorization_url_allowed(coordinator@, coordinator_is_loopback, authorization_url@),
{
    let loopback_test_flow = starts_with_str(coordinator, "http://") && coordinator_is_loopback
        && authorization_url_is_loopback_http(authorization_url);
    starts_with_str(authorization_url, "https://") || loopback_test_flow
}

// ---------------------------------------------------------------------
// The stored CLI session
// ---------------------------------------------------------------------

/// The CLI session kept in the local session file.
pub struct StoredCliSession {
    pub kind: String,
    pub coordinator: String,
    pub tenant: String,
    pub project: String,
    pub user: String,
    pub cli_session_credential_kind: String,
    pub session_secret: Option<String>,
    pub token_expiry_posture: String,
    pub expires_at: Option<String>,
    pub provider_tokens_exposed_to_cli: bool,
    pub provider_tokens_sent_to_nodes: bool,
    pub created_at_unix_seconds: u64,
}

pub struct StoredCliSessionView {
    pub kind: Seq<char>,
    pub coordinator: Seq<char>,
    pub tenant: Seq<char>,
    pub project: Seq<char>,
    pub user: Seq<char>,
    pub cli_session_credential_kind: Seq<char>,
    pub session_secret: Option<Seq<char>>,
    pub token_expiry_posture: Seq<char>,
    pub expires_at: Option<Seq<char>>,
    pub provider_tokens_exposed_to_cli: bool,
    pub provider_tokens_sent_to_nodes: bool,
    pub created_at_unix_seconds: u64,
}

impl View for StoredCliSession {
    type V = StoredCliSessionView;

    open spec fn view(&self) -> StoredCliSessionView {
        StoredCliSessionView {
            kind: self.kind@,
            coordinator: self.coordinator@,
            tenant: self.tenant@,
            project: self.project@,
            user: self.user@,
            cli_session_credential_kind: self.cli_session_credential_kind@,
            session_secret: opt_text_view(self.session_secret),
            token_expiry_posture: self.token_expiry_posture@,
            expires_at: opt_text_view(self.expires_at),
            provider_tokens_exposed_to_cli: self.provider_tokens_exposed_to_cli,
            provider_tokens_sent_to_nodes: self.provider_tokens_sent_to_nodes,
            created_at_unix_seconds: self.created_at_unix_seconds,
        }
    }
}

/// The `session` object of a login response, or `null` when it has none.
pub open spec fn login_session(response: JsonValue) -> JsonValue {
    match json_get(response, "session"@) {
        Some(s) => s,
        None => JsonValue::Null,
    }
}

/// The expiry that a login session announces: `expires_at` (or, when that
/// key is absent, `token_expires_at`) as text, else `expires_at_epoch_seconds`
/// in decimal.
pub open spec fn login_expires_at(session: JsonValue) -> Option<Seq<char>> {
    let first = match json_get(session, "expires_at"@) {
        Some(v) => Some(v),
        None => json_get(session, "token_expires_at"@),
    };
    let text = match first {
        Some(v) => json_as_str(v),
        None => None,
    };
    match text {
        Some(t) => Some(t),
        None => match json_get(session, "expires_at_epoch_seconds"@) {
            Some(v) => match json_as_u64(v) {
                Some(n) => Some(decimal(n as nat)),
                None => None,
            },
            None => None,
        },
    }
}

/// The CLI session secret: `cli_session_secret`, or `session_secret` when
/// that key is absent.
pub open spec fn login_session_secret(session: JsonValue) -> Option<Seq<char>> {
    let first = match json_get(session, "cli_session_secret"@) {
        Some(v) => Some(v),
        None => json_get(session, "session_secret"@),
    };
    match first {
        Some(v) => json_as_str(v),
        None => None,
    }
}

/// A login response that lacks part of the session.
#[derive(Clone, Copy, Debug, PartialEq, Eq, Structural)]
pub enum LoginSessionError {
    MissingTenant,
    MissingProject,
    MissingUser,
    MissingSessionSecret,
}

impl LoginSessionError {
    pub fn message(&self) -> (s: &'static str)
        ensures
            s@ == login_session_error_message(*self),
    {
        match self {
            LoginSessionError::MissingTenant => "hosted login session omitted tenant",
            LoginSessionError::MissingProject => "hosted login session omitted project",
            LoginSessionError::MissingUser => "hosted login session omitted user",
            LoginSessionError::MissingSessionSecret => "hosted login session omitted CLI session secret",
        }
    }
}

pub open spec fn login_session_error_message(e: LoginSessionError) -> Seq<char> {
    match e {
        LoginSessionError::MissingTenant => "hosted login session omitted tenant"@,
        LoginSessionError::MissingProject => "hosted login session omitted project"@,
        LoginSessionError::MissingUser => "hosted login session omitted user"@,
        LoginSessionError::MissingSessionSecret => "hosted login session omitted CLI session secret"@,
    }
}

/// The first part that the session lacks, checked in this order.
pub open spec fn login_session_gap(session: JsonValue) -> Option<LoginSessionError> {
    if json_get_str(session, "tenant"@) is None {
        Some(LoginSessionError::MissingTenant)
    } else if json_get_str(session, "project"@) is None {
        Some(LoginSessionError::MissingProject)
    } else if json_get_str(session, "user"@) is None {
        Some(LoginSessionError::MissingUser)
    } else if login_session_secret(session) is None {
        Some(LoginSessionError::MissingSessionSecret)
    } else {
        None
    }
}

/// The session that a complete login response is stored as.
pub open spec fn stored_login_session(
    coordinator: Seq<char>,
    session: JsonValue,
    provider_tokens_exposed_to_cli: bool,
    provider_tokens_sent_to_nodes: bool,
    created_at_unix_seconds: u64,
) -> StoredCliSessionView {
    StoredCliSessionView {
        kind: "human"@,
        coordinator,
        tenant: json_get_str(session, "tenant"@)->0,
        project: json_get_str(session, "project"@)->0,
        user: json_get_str(session, "user"@)->0,
        cli_session_credential_kind: match json_get_str(session, "cli_session_credential_kind"@) {
            Some(k) => k,
            None => "CliDeviceSession"@,
        },
        session_secret: login_session_secret(session),
        token_expiry_posture: if login_expires_at(session) is Some {
            "expires_at"@
        } else {
            "unknown_coordinator_session"@
        },
        expires_at: login_expires_at(session),
        provider_tokens_exposed_to_cli,
        provider_tokens_sent_to_nodes,
        created_at_unix_seconds,
    }
}

/// The stored session keeps the expiry that the login session announces
/// as text: `expires_at` when it is a string, else `token_expires_at` when
/// `expires_at` is absent and that is a string; its posture is then
/// `expires_at`.
pub proof fn stored_session_keeps_a_text_expiry(
    coordinator: Seq<char>,
    session: JsonValue,
    provider_tokens_exposed_to_cli: bool,
    provider_tokens_sent_to_nodes: bool,
    created_at_unix_seconds: u64,
    expiry: String,
)
    requires
        json_get(session, "expires_at"@) == Some(JsonValue::String(expiry)) || (json_get(
            session,
            "expires_at"@,
        ) is None && json_get(session, "token_expires_at"@) == Some(JsonValue::String(expiry))),
    ensures
        ({
            let stored = stored_login_session(
                coordinator,
                session,
                provider_tokens_exposed_to_cli,
                provider_tokens_sent_to_nodes,
                created_at_unix_seconds,
            );
            &&& stored.expires_at == Some(expiry@)
            &&& stored.token_expiry_posture == "expires_at"@
        }),
{
}

/// Without an expiry as text, a whole-number `expires_at_epoch_seconds`
/// is kept in decimal; with neither, the stored session has no expiry and
/// its posture is `unknown_coordinator_session`.
pub proof fn stored_session_expiry_without_text(
    coordinator: Seq<char>,
    session: JsonValue,
    provider_tokens_exposed_to_cli: bool,
    provider_tokens_sent_to_nodes: bool,
    created_at_unix_seconds: u64,
)
    requires
        !(json_get(session, "expires_at"@) matches Some(JsonValue::String(_))),
        !(json_get(session, "expires_at"@) is None && json_get(session, "token_expires_at"@) matches Some(
            JsonValue::String(_),
        )),
    ensures
        ({
            let stored = stored_login_session(
                coordinator,
                session,
                provider_tokens_exposed_to_cli,
                provider_tokens_sent_to_nodes,
                created_at_unix_seconds,
            );
            &&& json_get(session, "expires_at_epoch_seconds"@) matches Some(JsonValue::Number(Some(n)))
                ==> stored.expires_at == Some(decimal(n as nat))
                && stored.token_expiry_posture == "expires_at"@
            &&& !(json_get(session, "expires_at_epoch_seconds"@) matches Some(JsonValue::Number(Some(_))))
                ==> stored.expires_at is None && stored.token_expiry_posture
                == "unknown_coordinator_session"@
        }),
{
}

/// A login session is refused for the first part it lacks, checked in the
/// order tenant, project, user, CLI session secret; a part is lacking when
/// its key does not hold a string (for the secret: `cli_session_secret`,
/// else `session_secret` when that key is absent).
pub proof fn incomplete_login_sessions_name_the_first_gap(session: JsonValue)
    ensures
        !(json_get(session, "tenant"@) matches Some(JsonValue::String(_))) ==> login_session_gap(
            session,
        ) == Some(LoginSessionError::MissingTenant),
        json_get(session, "tenant"@) matches Some(JsonValue::String(_)) ==> (!(json_get(
            session,
            "project"@,
        ) matches Some(JsonValue::String(_))) ==> login_session_gap(session) == Some(
            LoginSessionError::MissingProject,
        )),
        (json_get(session, "tenant"@) matches Some(JsonValue::String(_))) && (json_get(
            session,
            "project"@,
        ) matches Some(JsonValue::String(_))) ==> (!(json_get(session, "user"@) matches Some(
            JsonValue::String(_),
        )) ==> login_session_gap(session) == Some(LoginSessionError::MissingUser)),
        (json_get(session, "tenant"@) matches Some(JsonValue::String(_))) && (json_get(
            session,
            "project"@,
        ) matches Some(JsonValue::String(_))) && (json_get(session, "user"@) matches Some(
            JsonValue::String(_),
        )) ==> (!((json_get(session, "cli_session_secret"@) matches Some(JsonValue::String(_)))
            || (json_get(session, "cli_session_secret"@) is None && json_get(
            session,
            "session_secret"@,
        ) matches Some(JsonValue::String(_)))) ==> login_session_gap(session) == Some(
            LoginSessionError::MissingSessionSecret,
        )),
{
}

/// The stored session is a `human` session with the login session's
/// tenant, project and user, its CLI session secret (`cli_session_secret`,
/// else `session_secret`), its credential kind (`CliDeviceSession` unless
/// the session names one), the coordinator it was received from, and the
/// given boundary flags and creation time.
pub proof fn stored_session_takes_the_login_scope(
    coordinator: Seq<char>,
    session: JsonValue,
    provider_tokens_exposed_to_cli: bool,
    provider_tokens_sent_to_nodes: bool,
    created_at_unix_seconds: u64,
    tenant: String,
    project: String,
    user: String,
    secret: String,
)
    requires
        json_get(session, "tenant"@) == Some(JsonValue::String(tenant)),
        json_get(session, "project"@) == Some(JsonValue::String(project)),
        json_get(session, "user"@) == Some(JsonValue::String(user)),
        json_get(session, "cli_session_secret"@) == Some(JsonValue::String(secret)) || (json_get(
            session,
            "cli_session_secret"@,
        ) is None && json_get(session, "session_secret"@) == Some(JsonValue::String(secret))),
    ensures
        login_session_gap(session) is None,
        ({
            let stored = stored_login_session(
                coordinator,
                session,
                provider_tokens_exposed_to_cli,
                provider_tokens_sent_to_nodes,
                created_at_unix_seconds,
            );
            &&& stored.kind == "human"@
            &&& stored.coordinator == coordinator
            &&& stored.tenant == tenant@
            &&& stored.project == project@
            &&& stored.user == user@
            &&& stored.session_secret == Some(secret@)
            &&& stored.cli_session_credential_kind == match json_get(
                session,
                "cli_session_credential_kind"@,
            ) {
                Some(JsonValue::String(k)) => k@,
                _ => "CliDeviceSession"@,
            }
            &&& stored.provider_tokens_exposed_to_cli == provider_tokens_exposed_to_cli
            &&& stored.provider_tokens_sent_to_nodes == provider_tokens_sent_to_nodes
            &&& stored.created_at_unix_seconds == created_at_unix_seconds
        }),
{
}

fn get_str<'a>(v: &'a JsonValue, key: &str) -> (r: Option<&'a str>)
    ensures
        match r {
            Some(s) => json_get_str(*v, key@) == Some(s@),
            None => json_get_str(*v, key@) is None,
        },
{
    match v.get(key) {
        Some(x) => x.as_str(),
        None => None,
    }
}

/// The CLI session to store from a hosted login response, created at
/// `created_at_unix_seconds`.
pub fn stored_cli_session_from_login_response(
    coordinator: &str,
    coordinator_response: &JsonValue,
    provider_tokens_exposed_to_cli: bool,
    provider_tokens_sent_to_nodes: bool,
    created_at_unix_seconds: u64,
) -> (r: Result<StoredCliSession, LoginSessionError>)
    ensures
        match r {
            Ok(s) => login_session_gap(login_session(*coordinator_response)) is None && s@
                == stored_login_session(
                coordinator@,
                login_session(*coordinator_response),
                provider_tokens_exposed_to_cli,
                provider_tokens_sent_to_nodes,
                created_at_unix_seconds,
            ),
            Err(e) => login_session_gap(login_session(*coordinator_response)) == Some(e),
        },
{
    let null = JsonValue::Null;
    let session = match coordinator_response.get("session") {
        Some(s) => s,
        None => &null,
    };
    let first = match session.get("expires_at") {
        Some(v) => Some(v),
        None => session.get("token_expires_at"),
    };
    let text = match first {
        Some(v) => v.as_str(),
        None => None,
    };
    let expires_at: Option<String> = match text {
        Some(t) => Some(t.to_owned()),
        None => match session.get("expires_at_epoch_seconds") {
            Some(v) => match v.as_u64() {
                Some(n) => Some(decimal_string(n)),
                None => None,
            },
            None => None,
        },
    };
    let tenant = match get_str(session, "tenant") {
        Some(t) => t,
        None => return Err(LoginSessionError::MissingTenant),
    };
    let project = match get_str(session, "project") {
        Some(t) => t,
        None => return Err(LoginSessionError::MissingProject),
    };
    let user = match get_str(session, "user") {
        Some(t) => t,
        None => return Err(LoginSessionError::MissingUser),
    };
    let secret_value = match session.get("cli_session_secret") {
        Some(v) => Some(v),
        None => session.get("session_secret"),
    };
    let session_secret = match secret_value {
        Some(v) => match v.as_str() {
            Some(t) => t,
            None => return Err(LoginSessionError::MissingSessionSecret),
        },
        None => return Err(LoginSessionError::MissingSessionSecret),
    };
    let credential_kind = match get_str(session, "cli_session_credential_kind") {
        Some(k) => k.to_owned(),
        None => "CliDeviceSession".to_owned(),
    };
    let token_expiry_posture = if expires_at.is_some() {
        "expires_at".to_owned()
    } else {
        "unknown_coordinator_session".to_owned()
    };
    Ok(
        StoredCliSession {
            kind: "human".to_owned(),
            coordinator: coordinator.to_owned(),
            tenant: tenant.to_owned(),
            project: project.to_owned(),
            user: user.to_owned(),
            cli_session_credential_kind: credential_kind,
            session_secret: Some(session_secret.to_owned()),
            token_expiry_posture,
            expires_at,
            provider_tokens_exposed_to_cli,
            provider_tokens_sent_to_nodes,
            created_at_unix_seconds,
        },
    )
}

/// What a finished browser login shows about the session boundary.
pub struct LoginCompletionFlags {
    pub scoped_cli_session_received: bool,
    pub provider_tokens_sent_to_nodes: bool,
    pub provider_tokens_exposed_to_cli: bool,
}

/// A scoped CLI session arrived when `/session/cli_session_credential_kind`
/// is `CliDeviceSession`.
pub open spec fn scoped_session_received(response: JsonValue) -> bool {
    match json_get(response, "session"@) {
        Some(s) => json_get_str(s, "cli_session_credential_kind"@) == Some("CliDeviceSession"@),
        None => false,
    }
}

/// Provider tokens count as sent to nodes unless
/// `/session/provider_tokens_sent_to_nodes` is the boolean `false`.
pub open spec fn tokens_sent_to_nodes(response: JsonValue) -> bool {
    match json_get(response, "session"@) {
        Some(s) => match json_get(s, "provider_tokens_sent_to_nodes"@) {
            Some(v) => match json_as_bool(v) {
                Some(b) => b,
                None => true,
            },
            None => true,
        },
        None => true,
    }
}

/// A scoped CLI session arrived exactly when the response's session names
/// the `CliDeviceSession` credential kind; provider tokens count as sent to
/// nodes unless the session says `false` for that, so a response without
/// a session is neither scoped nor reassuring.
pub proof fn login_boundary_flags_read_the_session(response: JsonValue, kind: String)
    ensures
        json_get(response, "session"@) is None ==> !scoped_session_received(response)
            && tokens_sent_to_nodes(response),
        json_get(response, "session"@) matches Some(s) ==> ((json_get(
            s,
            "provider_tokens_sent_to_nodes"@,
        ) == Some(JsonValue::Bool(false))) <==> !tokens_sent_to_nodes(response)),
        json_get(response, "session"@) matches Some(s) ==> (json_get(
            s,
            "cli_session_credential_kind"@,
        ) == Some(JsonValue::String(kind)) ==> (scoped_session_received(response) <==> kind@
            == "CliDeviceSession"@)),
        json_get(response, "session"@) matches Some(s) ==> (!(json_get(
            s,
            "cli_session_credential_kind"@,
        ) matches Some(JsonValue::String(_))) ==> !scoped_session_received(response)),
{
}

/// The boundary evidence of a login response.
pub fn login_completion_flags(coordinator_response: &JsonValue) -> (r: LoginCompletionFlags)
    ensures
        r.scoped_cli_session_received == scoped_session_received(*coordinator_response),
        r.provider_tokens_sent_to_nodes == tokens_sent_to_nodes(*coordinator_response),
        r.provider_tokens_exposed_to_cli == json_mentions_token(*coordinator_response),
{
    let session = coordinator_response.get("session");
    let scoped_cli_session_received = match session {
        Some(s) => match get_str(s, "cli_session_credential_kind") {
            Some(k) => str_eq(k, "CliDeviceSession"),
            None => false,
        },
        None => false,
    };
    let provider_tokens_sent_to_nodes = match session {
        Some(s) => match s.get("provider_tokens_sent_to_nodes") {
            Some(v) => match v.as_bool() {
                Some(b) => b,
                None => true,
            },
            None => true,
        },
        None => true,
    };
    LoginCompletionFlags {
        scoped_cli_session_received,
        provider_tokens_sent_to_nodes,
        provider_tokens_exposed_to_cli: contains_provider_token_field(coordinator_response),
    }
}

// ---------------------------------------------------------------------
// Self-hosted sessions
// ---------------------------------------------------------------------

/// `{:?}` of a string: the string in double quotes with escapes.
pub uninterp spec fn debug_quoted_text(s: Seq<char>) -> Seq<char>;

/// Calls `format!("{:?}", s)`, the `Debug` rendering of a string slice.
/// Trusted: the result is named `debug_quoted_text` of the string.
#[verifier::external_body]
fn debug_quoted(s: &str) -> (r: String)
    ensures
        r@ == debug_quoted_text(s@),
{
    format!("{:?}", s)
}

/// Why a self-hosted session cannot be configured.
pub enum SelfHostedError {
    StdinFlagRequired,
    CoordinatorRequired,
    EmptySessionSecret,
    UnexpectedResponse,
    ScopeMismatch { field: &'static str, actual: String, expected: String },
    NotConfirmed,
}

impl SelfHostedError {
    pub fn message(&self) -> (s: String)
        ensures
            s@ == self_hosted_error_message(*self),
    {
        match self {
            SelfHostedError::StdinFlagRequired => {
                "self-hosted session configuration requires --session-secret-stdin".to_owned()
            },
            SelfHostedError::CoordinatorRequired => {
                "self-hosted session configuration requires --coordinator <host:port>".to_owned()
            },
            SelfHostedError::EmptySessionSecret => {
                "self-hosted session secret from stdin must not be empty".to_owned()
            },
            SelfHostedError::UnexpectedResponse => {
                "self-hosted coordinator returned an unexpected auth-status response".to_owned()
            },
            SelfHostedError::ScopeMismatch { field, actual, expected } => {
                let mut s = "self-hosted session ".to_owned();
                s.append(field);
                s.append(" mismatch: coordinator returned ");
                s.append(debug_quoted(actual.as_str()).as_str());
                s.append(", expected ");
                s.append(debug_quoted(expected.as_str()).as_str());
                s
            },
            SelfHostedError::NotConfirmed => {
                "self-hosted coordinator did not confirm the CLI session".to_owned()
            },
        }
    }
}

pub open spec fn self_hosted_error_message(e: SelfHostedError) -> Seq<char> {
    match e {
        SelfHostedError::StdinFlagRequired => "self-hosted session configuration requires --session-secret-stdin"@,
        SelfHostedError::CoordinatorRequired => "self-hosted session configuration requires --coordinator <host:port>"@,
        SelfHostedError::EmptySessionSecret => "self-hosted session secret from stdin must not be empty"@,
        SelfHostedError::UnexpectedResponse => "self-hosted coordinator returned an unexpected auth-status response"@,
        SelfHostedError::ScopeMismatch { field, actual, expected } => "self-hosted session "@ + field@
            + " mismatch: coordinator returned "@ + debug_quoted_text(actual@) + ", expected "@
            + debug_quoted_text(expected@),
        SelfHostedError::NotConfirmed => "self-hosted coordinator did not confirm the CLI session"@,
    }
}

/// The checks before the coordinator is contacted: the secret must come
/// from standard input, a coordinator must be named, the secret must not
/// be blank. On success, the coordinator to contact.
pub fn self_hosted_preflight(
    session_secret_stdin: bool,
    coordinator: Option<&str>,
    session_secret: &str,
) -> (r: Result<String, SelfHostedError>)
    ensures
        !session_secret_stdin ==> r matches Err(SelfHostedError::StdinFlagRequired),
        session_secret_stdin && (coordinator is None || is_blank(coordinator->0@)) ==> r matches Err(
            SelfHostedError::CoordinatorRequired,
        ),
        session_secret_stdin && coordinator is Some && !is_blank(coordinator->0@) && is_blank(
            session_secret@,
        ) ==> r matches Err(SelfHostedError::EmptySessionSecret),
        session_secret_stdin && coordinator is Some && !is_blank(coordinator->0@) && !is_blank(
            session_secret@,
        ) ==> (r matches Ok(c) && c@ == coordinator->0@),
{
    if !session_secret_stdin {
        return Err(SelfHostedError::StdinFlagRequired);
    }
    let coordinator = match coordinator {
        Some(c) => {
            if str_is_blank(c) {
                return Err(SelfHostedError::CoordinatorRequired);
            }
            c
        },
        None => return Err(SelfHostedError::CoordinatorRequired),
    };
    if str_is_blank(session_secret) {
        return Err(SelfHostedError::EmptySessionSecret);
    }
    Ok(coordinator.to_owned())
}

/// The fields of the coordinator's auth-status answer that the check reads.
pub struct CoordinatorAuthStatus {
    pub tenant: String,
    pub project: String,
    pub actor: String,
    pub authenticated: bool,
}

/// What the coordinator's answer must show: it is an auth status, with the
/// expected tenant, project and actor (checked in that order) and a
/// confirmed session. `None` stands for an answer of any other kind.
pub fn check_self_hosted_auth_status(
    answer: Option<&CoordinatorAuthStatus>,
    expected_tenant: &str,
    expected_project: &str,
    expected_user: &str,
) -> (r: Result<(), SelfHostedError>)
    ensures
        answer is None ==> r matches Err(SelfHostedError::UnexpectedResponse),
        answer matches Some(a) ==> {
            &&& a.tenant@ != expected_tenant@ ==> (r matches Err(
                SelfHostedError::ScopeMismatch { field, actual, expected },
            ) && field@ == "tenant"@ && actual@ == a.tenant@ && expected@ == expected_tenant@)
            &&& a.tenant@ == expected_tenant@ && a.project@ != expected_project@ ==> (r matches Err(
                SelfHostedError::ScopeMismatch { field, actual, expected },
            ) && field@ == "project"@ && actual@ == a.project@ && expected@ == expected_project@)
            &&& a.tenant@ == expected_tenant@ && a.project@ == expected_project@ && a.actor@
                != expected_user@ ==> (r matches Err(
                SelfHostedError::ScopeMismatch { field, actual, expected },
            ) && field@ == "actor"@ && actual@ == a.actor@ && expected@ == expected_user@)
            &&& a.tenant@ == expected_tenant@ && a.project@ == expected_project@ && a.actor@
                == expected_user@ ==> (r is Ok <==> a.authenticated)
            &&& a.tenant@ == expected_tenant@ && a.project@ == expected_project@ && a.actor@
                == expected_user@ && !a.authenticated ==> r matches Err(
                SelfHostedError::NotConfirmed,
            )
        },
{
    let a = match answer {
        Some(a) => a,
        None => return Err(SelfHostedError::UnexpectedResponse),
    };
    if !str_eq(a.tenant.as_str(), expected_tenant) {
        return Err(
            SelfHostedError::ScopeMismatch {
                field: "tenant",
                actual: a.tenant.clone(),
                expected: expected_tenant.to_owned(),
            },
        );
    }
    if !str_eq(a.project.as_str(), expected_project) {
        return Err(
            SelfHostedError::ScopeMismatch {
                field: "project",
                actual: a.project.clone(),
                expected: expected_project.to_owned(),
            },
        );
    }
    if !str_eq(a.actor.as_str(), expected_user) {
        return Err(
            SelfHostedError::ScopeMismatch {
                field: "actor",
                actual: a.actor.clone(),
                expected: expected_user.to_owned(),
            },
        );
    }
    if !a.authenticated {
        return Err(SelfHostedError::NotConfirmed);
    }
    Ok(())
}

/// The session stored for a confirmed self-hosted coordinator.
pub fn self_hosted_stored_session(
    coordinator: &str,
    tenant: String,
    project: String,
    user: String,
    session_secret: String,
    created_at_unix_seconds: u64,
) -> (r: StoredCliSession)
    ensures
        r@ == (StoredCliSessionView {
            kind: "self_hosted"@,
            coordinator: coordinator@,
            tenant: tenant@,
            project: project@,
            user: user@,
            cli_session_credential_kind: "CliDeviceSession"@,
            session_secret: Some(session_secret@),
            token_expiry_posture: "configured_by_self_hosted_operator"@,
            expires_at: None,
            provider_tokens_exposed_to_cli: false,
            provider_tokens_sent_to_nodes: false,
            created_at_unix_seconds,
        }),
{
    StoredCliSession {
        kind: "self_hosted".to_owned(),
        coordinator: coordinator.to_owned(),
        tenant,
        project,
        user,
        cli_session_credential_kind: "CliDeviceSession".to_owned(),
        session_secret: Some(session_secret),
        token_expiry_posture: "configured_by_self_hosted_operator".to_owned(),
        expires_at: None,
        provider_tokens_exposed_to_cli: false,
        provider_tokens_sent_to_nodes: false,
        created_at_unix_seconds,
    }
}

pub open spec fn is_line_end(c: char) -> bool {
    c == '\r' || c == '\n'
}

pub open spec fn line_end_pred() -> spec_fn(char) -> bool {
    |c: char| is_line_end(c)
}

/// The secret on a line read from standard input, without its line ending;
/// `None` when nothing but whitespace is left.
pub fn session_secret_from_line(line: &str) -> (r: Option<String>)
    ensures
        ({
            let secret = line@.take(line@.len() - crate::text::trailing_run(line@, line_end_pred()));
            if is_blank(secret) {
                r is None
            } else {
                r matches Some(s) && s@ == secret
            }
        }),
{
    let cs = chars_of(line);
    let len = cs.len();
    let mut end = len;
    while end > 0 && (cs[end - 1] == '\r' || cs[end - 1] == '\n')
        invariant
            len == cs@.len(),
            cs@ == line@,
            0 <= end <= len,
            forall|k: int| end <= k < len ==> is_line_end(#[trigger] cs@[k]),
        decreases end,
    {
        end = end - 1;
    }
    proof {
        crate::text::lemma_trailing_run(cs@, line_end_pred(), len - end);
    }
    let mut secret: Vec<char> = Vec::new();
    for i in 0..end
        invariant
            end <= len == cs@.len(),
            secret@ == cs@.take(i as int),
    {
        secret.push(cs[i]);
        assert(cs@.take(i + 1) =~= cs@.take(i as int).push(cs@[i as int]));
    }
    let text = crate::text::string_from_chars(&secret);
    if str_is_blank(text.as_str()) {
        None
    } else {
        Some(text)
    }
}

// ---------------------------------------------------------------------
// Browser login timing
// ---------------------------------------------------------------------

/// How long a hosted browser login transaction may take by default.
pub const DEFAULT_BROWSER_LOGIN_TRANSACTION_TIMEOUT_SECONDS: u64 = 300;

/// The pause between two polls of a hosted browser login, which proxies in
/// front of the coordinator accept.
pub const BROWSER_LOGIN_POLL_INTERVAL_SECONDS: u64 = 2;

/// The value of a string of decimal digits.
pub open spec fn digits_value(s: Seq<char>) -> int
    decreases s.len(),
{
    if s.len() == 0 {
        0
    } else {
        digits_value(s.drop_last()) * 10 + ((s.last() as u32) - 48)
    }
}

pub open spec fn all_digits(s: Seq<char>) -> bool {
    forall|i: int| 0 <= i < s.len() ==> '0' <= #[trigger] s[i] && s[i] <= '9'
}

/// `str::parse::<u64>`: an optional `+`, then one or more decimal digits
/// whose value fits in `u64`.
pub open spec fn parsed_u64(s: Seq<char>) -> Option<u64> {
    let digits = if s.len() > 0 && s[0] == '+' {
        s.drop_first()
    } else {
        s
    };
    if digits.len() > 0 && all_digits(digits) && digits_value(digits) <= u64::MAX {
        Some(digits_value(digits) as u64)
    } else {
        None
    }
}

proof fn lemma_digits_value_grows(s: Seq<char>, k: int)
    requires
        all_digits(s),
        0 <= k <= s.len(),
    ensures
        0 <= digits_value(s.take(k)) <= digits_value(s),
    decreases s.len(),
{
    if k < s.len() {
        assert(all_digits(s.drop_last()));
        lemma_digits_value_grows(s.drop_last(), k);
        assert(s.drop_last().take(k) =~= s.take(k));
        assert(s.last() == s[s.len() - 1]);
    } else {
        assert(s.take(k) =~= s);
        if s.len() > 0 {
            assert(all_digits(s.drop_last()));
            lemma_digits_value_grows(s.drop_last(), 0);
            assert(s.last() == s[s.len() - 1]);
        }
    }
}

/// Parses a decimal `u64` as `str::parse` does.
pub fn parse_u64(text: &str) -> (r: Option<u64>)
    ensures
        r == parsed_u64(text@),
{
    let cs = chars_of(text);
    let start: usize = if cs.len() > 0 && cs[0] == '+' {
        1
    } else {
        0
    };
    let len = cs.len();
    let ghost digits = if cs@.len() > 0 && cs@[0] == '+' {
        cs@.drop_first()
    } else {
        cs@
    };
    assert(digits =~= cs@.skip(start as int));
    if start == len {
        return None;
    }
    let mut value: u64 = 0;
    let mut i = start;
    while i < len
        invariant
            cs@ == text@,
            len == cs@.len(),
            digits == cs@.skip(start as int),
            digits == (if text@.len() > 0 && text@[0] == '+' {
                text@.drop_first()
            } else {
                text@
            }),
            start <= i <= len,
            all_digits(digits.take(i - start)),
            value as int == digits_value(digits.take(i - start)),
        decreases len - i,
    {
        let c = cs[i];
        assert(digits[i - start] == c);
        if !('0' <= c && c <= '9') {
            assert(!all_digits(digits));
            return None;
        }
        let d: u64 = ((c as u32) - 48) as u64;
        assert(digits.take(i - start + 1).drop_last() =~= digits.take(i - start));
        assert(digits.take(i - start + 1).last() == c);
        if value > (u64::MAX - d) / 10 {
            proof {
                assert(digits_value(digits.take(i - start + 1)) == value * 10 + d);
                assert(value * 10 + d > u64::MAX) by (nonlinear_arith)
                    requires
                        value > (u64::MAX - d) / 10,
                        d <= 9,
                ;
                assert(all_digits(digits.take(i - start + 1)));
                if all_digits(digits) {
                    lemma_digits_value_grows(digits, i - start + 1);
                }
            }
            return None;
        }
        assert(value * 10 + d <= u64::MAX) by (nonlinear_arith)
            requires
                value <= (u64::MAX - d) / 10,
                d <= 9,
        ;
        value = value * 10 + d;
        i = i + 1;
        assert(all_digits(digits.take(i - start)));
    }
    assert(digits.take(len - start) =~= digits);
    Some(value)
}

/// The configured timeout of a hosted browser login in seconds: a positive
/// number from the configuration, else the default.
pub fn browser_login_timeout_seconds(configured: Option<&str>) -> (r: u64)
    ensures
        r == match configured {
            Some(text) => match parsed_u64(text@) {
                Some(n) => if n > 0 {
                    n
                } else {
                    DEFAULT_BROWSER_LOGIN_TRANSACTION_TIMEOUT_SECONDS
                },
                None => DEFAULT_BROWSER_LOGIN_TRANSACTION_TIMEOUT_SECONDS,
            },
            None => DEFAULT_BROWSER_LOGIN_TRANSACTION_TIMEOUT_SECONDS,
        },
{
    match configured {
        Some(text) => match parse_u64(text) {
            Some(n) => if n > 0 {
                n
            } else {
                DEFAULT_BROWSER_LOGIN_TRANSACTION_TIMEOUT_SECONDS
            },
            None => DEFAULT_BROWSER_LOGIN_TRANSACTION_TIMEOUT_SECONDS,
        },
        None => DEFAULT_BROWSER_LOGIN_TRANSACTION_TIMEOUT_SECONDS,
    }
}

/// The pause before retrying a rate-limited login request, in
/// milliseconds: what the coordinator asked for, but never less than the
/// poll interval.
pub fn browser_login_retry_delay_ms(retry_after_ms: Option<u64>) -> (r: u64)
    ensures
        r == match retry_after_ms {
            Some(ms) => if ms > BROWSER_LOGIN_POLL_INTERVAL_SECONDS * 1000 {
                ms
            } else {
                (BROWSER_LOGIN_POLL_INTERVAL_SECONDS * 1000) as u64
            },
            None => (BROWSER_LOGIN_POLL_INTERVAL_SECONDS * 1000) as u64,
        },
        r >= BROWSER_LOGIN_POLL_INTERVAL_SECONDS * 1000,
{
    let floor: u64 = BROWSER_LOGIN_POLL_INTERVAL_SECONDS * 1000;
    match retry_after_ms {
        Some(ms) => if ms > floor {
            ms
        } else {
            floor
        },
        None => floor,
    }
}


proof fn lemma_decimal_digits(n: nat)
    ensures
        decimal(n).len() >= 1,
        all_digits(decimal(n)),
        digits_value(decimal(n)) == n,
    decreases n,
{
    let s = decimal(n);
    if n < 10 {
        assert(s.drop_last() =~= Seq::<char>::empty());
        assert(s.last() == crate::text::digit_char(n));
        assert(digits_value(s) == digits_value(s.drop_last()) * 10 + ((s.last() as u32) - 48));
    } else {
        lemma_decimal_digits(n / 10);
        assert(s.drop_last() =~= decimal(n / 10));
        assert(s.last() == crate::text::digit_char(n % 10));
        assert(digits_value(s) == digits_value(s.drop_last()) * 10 + ((s.last() as u32) - 48));
        assert((n / 10) * 10 + n % 10 == n) by (nonlinear_arith);
        assert forall|i: int| 0 <= i < s.len() implies '0' <= #[trigger] s[i] && s[i] <= '9' by {
            if i < s.len() - 1 {
                assert(s[i] == decimal(n / 10)[i]);
            }
        }
    }
}

/// Rendering a number in decimal and parsing the text back gives the
/// number again.
pub proof fn decimal_text_parses_back(n: u64)
    ensures
        parsed_u64(decimal(n as nat)) == Some(n),
{
    lemma_decimal_digits(n as nat);
    let s = decimal(n as nat);
    assert(s[0] != '+');
}

} // verus!
