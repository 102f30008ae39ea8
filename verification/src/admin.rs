//! Admission of self-hosted admin requests: the admin credential must be
//! configured, the nonce well formed, the request recent, its proof correct
//! and its nonce new.
use crate::digest::Digest;
use crate::ids::{CredentialKind, TenantId, UserId};
use crate::text::{is_blank, str_is_blank};
use vstd::prelude::*;
use vstd::utf8::encode_utf8;

verus! {

/// How far, in seconds, an admin request's timestamp may be from the
/// coordinator's clock.
pub const ADMIN_REQUEST_MAX_CLOCK_SKEW_SECONDS: u64 = 300;

/// The longest admin nonce, in bytes.
pub const ADMIN_NONCE_MAX_BYTES: usize = 256;

/// Why the replay registry refused a nonce.
#[derive(Clone, Copy, Debug, PartialEq, Eq, Structural)]
pub enum ReplayAdmissionError {
    Duplicate,
    Capacity,
}

/// Why an admin request is refused.
#[derive(Clone, Copy, Debug, PartialEq, Eq, Structural)]
pub enum AdminRequestRejection {
    CredentialNotConfigured,
    InvalidNonce,
    OutsideClockWindow,
    InvalidProof,
    NonceReused,
    ReplayWindowFull,
}

impl AdminRequestRejection {
    /// The message of the refusal, which the coordinator reports as
    /// unauthorized.
    pub fn message(&self) -> (s: &'static str)
        ensures
            s@ == rejection_message(*self),
    {
        match self {
            AdminRequestRejection::CredentialNotConfigured => "self-hosted admin credential is not configured",
            AdminRequestRejection::InvalidNonce => "admin request nonce is missing or invalid",
            AdminRequestRejection::OutsideClockWindow => "admin request timestamp is outside the allowed 300-second window",
            AdminRequestRejection::InvalidProof => "admin request proof is invalid",
            AdminRequestRejection::NonceReused => "admin request nonce was already used",
            AdminRequestRejection::ReplayWindowFull => "admin request replay window is full; retry after the bounded signature window advances",
        }
    }
}

pub open spec fn rejection_message(r: AdminRequestRejection) -> Seq<char> {
    match r {
        AdminRequestRejection::CredentialNotConfigured => "self-hosted admin credential is not configured"@,
        AdminRequestRejection::InvalidNonce => "admin request nonce is missing or invalid"@,
        AdminRequestRejection::OutsideClockWindow => "admin request timestamp is outside the allowed 300-second window"@,
        AdminRequestRejection::InvalidProof => "admin request proof is invalid"@,
        AdminRequestRejection::NonceReused => "admin request nonce was already used"@,
        AdminRequestRejection::ReplayWindowFull => "admin request replay window is full; retry after the bounded signature window advances"@,
    }
}

/// `u64::abs_diff`.
pub open spec fn abs_diff(a: u64, b: u64) -> int {
    if a >= b {
        a - b
    } else {
        b - a
    }
}

/// The checks made before the nonce is admitted, in this order. The
/// expected proof is absent exactly when no admin credential is configured.
pub open spec fn admin_precheck(
    expected_proof: Option<Seq<char>>,
    admin_proof: Seq<char>,
    admin_nonce: Seq<char>,
    issued_at_epoch_seconds: u64,
    now_epoch_seconds: u64,
) -> Option<AdminRequestRejection> {
    if expected_proof is None {
        Some(AdminRequestRejection::CredentialNotConfigured)
    } else if is_blank(admin_nonce) || encode_utf8(admin_nonce).len() > ADMIN_NONCE_MAX_BYTES {
        Some(AdminRequestRejection::InvalidNonce)
    } else if abs_diff(now_epoch_seconds, issued_at_epoch_seconds)
        > ADMIN_REQUEST_MAX_CLOCK_SKEW_SECONDS {
        Some(AdminRequestRejection::OutsideClockWindow)
    } else if admin_proof != expected_proof->0 {
        Some(AdminRequestRejection::InvalidProof)
    } else {
        None
    }
}

/// Checks an admin request up to, and not including, the admission of its
/// nonce. `expected_proof` is the proof that the configured admin token
/// gives for this request, `None` when no admin token is configured.
pub fn check_admin_request(
    expected_proof: Option<&Digest>,
    admin_proof: &Digest,
    admin_nonce: &str,
    issued_at_epoch_seconds: u64,
    now_epoch_seconds: u64,
) -> (r: Result<(), AdminRequestRejection>)
    ensures
        match admin_precheck(
            match expected_proof {
                Some(p) => Some(p@),
                None => None,
            },
            admin_proof@,
            admin_nonce@,
            issued_at_epoch_seconds,
            now_epoch_seconds,
        ) {
            Some(rejection) => r == Err::<(), AdminRequestRejection>(rejection),
            None => r is Ok,
        },
{
    let expected = match expected_proof {
        Some(p) => p,
        None => return Err(AdminRequestRejection::CredentialNotConfigured),
    };
    if str_is_blank(admin_nonce) || admin_nonce.as_bytes().len() > ADMIN_NONCE_MAX_BYTES {
        return Err(AdminRequestRejection::InvalidNonce);
    }
    let skew = if now_epoch_seconds >= issued_at_epoch_seconds {
        now_epoch_seconds - issued_at_epoch_seconds
    } else {
        issued_at_epoch_seconds - now_epoch_seconds
    };
    if skew > ADMIN_REQUEST_MAX_CLOCK_SKEW_SECONDS {
        return Err(AdminRequestRejection::OutsideClockWindow);
    }
    if !admin_proof.same_as(expected) {
        return Err(AdminRequestRejection::InvalidProof);
    }
    Ok(())
}

/// The verdict once the replay registry has answered for the nonce.
pub fn admin_replay_verdict(admission: Result<(), ReplayAdmissionError>) -> (r: Result<
    (),
    AdminRequestRejection,
>)
    ensures
        admission is Ok <==> r is Ok,
        admission == Err::<(), ReplayAdmissionError>(ReplayAdmissionError::Duplicate) ==> r == Err::<
            (),
            AdminRequestRejection,
        >(AdminRequestRejection::NonceReused),
        admission == Err::<(), ReplayAdmissionError>(ReplayAdmissionError::Capacity) ==> r == Err::<
            (),
            AdminRequestRejection,
        >(AdminRequestRejection::ReplayWindowFull),
{
    match admission {
        Ok(()) => Ok(()),
        Err(ReplayAdmissionError::Duplicate) => Err(AdminRequestRejection::NonceReused),
        Err(ReplayAdmissionError::Capacity) => Err(AdminRequestRejection::ReplayWindowFull),
    }
}

/// The refusal that the replay registry's answer maps to, if any.
pub open spec fn replay_rejection(admission: Result<(), ReplayAdmissionError>) -> Option<
    AdminRequestRejection,
> {
    match admission {
        Ok(()) => None,
        Err(ReplayAdmissionError::Duplicate) => Some(AdminRequestRejection::NonceReused),
        Err(ReplayAdmissionError::Capacity) => Some(AdminRequestRejection::ReplayWindowFull),
    }
}

/// What the coordinator does with an admin request once its prechecks ran.
#[derive(Clone, Copy, Debug, PartialEq, Eq, Structural)]
pub enum AdminRequestStep {
    /// Refuse the request; its nonce is not offered to the replay registry.
    Refuse(AdminRequestRejection),
    /// Offer the nonce to the replay registry.
    AdmitNonce,
}

/// The nonce is offered to the replay registry only after every precheck
/// has passed; a failed precheck refuses the request at once.
pub fn admin_request_step(precheck: Result<(), AdminRequestRejection>) -> (r: AdminRequestStep)
    ensures
        match precheck {
            Ok(()) => r == AdminRequestStep::AdmitNonce,
            Err(e) => r == AdminRequestStep::Refuse(e),
        },
{
    match precheck {
        Ok(()) => AdminRequestStep::AdmitNonce,
        Err(e) => AdminRequestStep::Refuse(e),
    }
}

/// The verdict on an admin request: a failed precheck decides, and only
/// when every precheck passed does the registry's answer for the nonce.
pub fn admin_request_verdict(
    precheck: Result<(), AdminRequestRejection>,
    admission: Result<(), ReplayAdmissionError>,
) -> (r: Result<(), AdminRequestRejection>)
    ensures
        match precheck {
            Err(e) => r == Err::<(), AdminRequestRejection>(e),
            Ok(()) => match replay_rejection(admission) {
                Some(e) => r == Err::<(), AdminRequestRejection>(e),
                None => r is Ok,
            },
        },
{
    match admin_request_step(precheck) {
        AdminRequestStep::Refuse(e) => Err(e),
        AdminRequestStep::AdmitNonce => admin_replay_verdict(admission),
    }
}

/// The answer to an admin status request.
pub struct AdminStatusResponse {
    pub tenant: String,
    pub actor: String,
    pub suspended: bool,
    pub safe_default: String,
}

/// The status of `tenant` for `actor`; admin sessions default to read-only.
pub fn admin_status_response(tenant: String, actor: String, suspended: bool) -> (r:
    AdminStatusResponse)
    ensures
        r.tenant == tenant,
        r.actor == actor,
        r.suspended == suspended,
        r.safe_default@ == "read_only"@,
{
    AdminStatusResponse { tenant, actor, suspended, safe_default: "read_only".to_owned() }
}

/// The changes to the coordinator's state that suspending a tenant makes,
/// in order: record the acting tenant, record the actor as a CLI-session
/// user of it, suspend the target tenant on the actor's behalf, and persist
/// the durable state.
pub struct TenantSuspension {
    pub actor_tenant: TenantId,
    pub actor: UserId,
    pub actor_credential_kind: CredentialKind,
    pub target_tenant: TenantId,
    pub persist_durable_state: bool,
}

/// What a suspend-tenant request does once its admin checks gave
/// `verdict`: a refused request changes nothing and is answered with the
/// refusal; an admitted one makes the suspension's changes.
pub fn suspend_tenant_step(
    verdict: Result<(), AdminRequestRejection>,
    tenant: String,
    actor_user: String,
    target_tenant: String,
) -> (r: Result<TenantSuspension, AdminRequestRejection>)
    ensures
        match verdict {
            Err(e) => r == Err::<TenantSuspension, AdminRequestRejection>(e),
            Ok(()) => r matches Ok(c) && c.actor_tenant@ == tenant@ && c.actor@ == actor_user@
                && c.actor_credential_kind.name@ == "CliDeviceSession"@ && c.target_tenant@
                == target_tenant@ && c.persist_durable_state,
        },
{
    match verdict {
        Err(e) => Err(e),
        Ok(()) => Ok(
            TenantSuspension {
                actor_tenant: TenantId::new(tenant),
                actor: UserId::new(actor_user),
                actor_credential_kind: CredentialKind { name: "CliDeviceSession".to_owned() },
                target_tenant: TenantId::new(target_tenant),
                persist_durable_state: true,
            },
        ),
    }
}

/// The checks of an admin request, in order: without a configured admin
/// credential every request is refused; an empty nonce or one longer than
/// 256 bytes is refused next; then a timestamp more than 300 seconds from
/// the coordinator's clock; then a proof other than the expected one; a
/// request that passes all four is admitted to the nonce check.
pub proof fn admin_checks_in_order(
    expected_proof: Option<Seq<char>>,
    admin_proof: Seq<char>,
    admin_nonce: Seq<char>,
    issued_at_epoch_seconds: u64,
    now_epoch_seconds: u64,
)
    ensures
        ({
            let v = admin_precheck(
                expected_proof,
                admin_proof,
                admin_nonce,
                issued_at_epoch_seconds,
                now_epoch_seconds,
            );
            let nonce_bad = admin_nonce.len() == 0 || encode_utf8(admin_nonce).len() > 256;
            let skew: int = if now_epoch_seconds >= issued_at_epoch_seconds {
                now_epoch_seconds - issued_at_epoch_seconds
            } else {
                issued_at_epoch_seconds - now_epoch_seconds
            };
            &&& expected_proof is None ==> v == Some(AdminRequestRejection::CredentialNotConfigured)
            &&& expected_proof is Some && nonce_bad ==> v == Some(AdminRequestRejection::InvalidNonce)
            &&& expected_proof is Some && !is_blank(admin_nonce) && !nonce_bad && skew > 300 ==> v
                == Some(AdminRequestRejection::OutsideClockWindow)
            &&& expected_proof is Some && !is_blank(admin_nonce) && !nonce_bad && skew <= 300
                && expected_proof != Some(admin_proof) ==> v == Some(
                AdminRequestRejection::InvalidProof,
            )
            &&& expected_proof == Some(admin_proof) && !is_blank(admin_nonce) && !nonce_bad && skew
                <= 300 ==> v is None
        }),
{
}

/// An admin request that passes every check has a recent timestamp and a
/// well-formed nonce, and carries exactly the expected proof.
pub proof fn admitted_requests_are_recent_and_proven(
    expected_proof: Option<Seq<char>>,
    admin_proof: Seq<char>,
    admin_nonce: Seq<char>,
    issued_at_epoch_seconds: u64,
    now_epoch_seconds: u64,
)
    requires
        admin_precheck(
            expected_proof,
            admin_proof,
            admin_nonce,
            issued_at_epoch_seconds,
            now_epoch_seconds,
        ) is None,
    ensures
        expected_proof == Some(admin_proof),
        !is_blank(admin_nonce),
        encode_utf8(admin_nonce).len() <= ADMIN_NONCE_MAX_BYTES,
        now_epoch_seconds - ADMIN_REQUEST_MAX_CLOCK_SKEW_SECONDS <= issued_at_epoch_seconds
            <= now_epoch_seconds + ADMIN_REQUEST_MAX_CLOCK_SKEW_SECONDS,
{
}

} // verus!
