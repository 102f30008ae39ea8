//! Automated runs and project secrets: which coordinator and session a
//! command acts through, and how a project secret read from standard input
//! is prepared for the coordinator.
use crate::auth::StoredCliSession;
use crate::text::str_eq;
use crate::weburl::opt_text_view;
use vstd::prelude::*;

verus! {

/// Why a command has no coordinator session to act through.
pub enum SessionAuthorityError {
    NoCoordinator,
    NoMatchingSession(String),
}

impl SessionAuthorityError {
    pub fn message(&self) -> (s: String)
        ensures
            s@ == match self {
                SessionAuthorityError::NoCoordinator => "no coordinator is configured"@,
                SessionAuthorityError::NoMatchingSession(c) => "no authenticated session matches "@
                    + c@,
            },
    {
        match self {
            SessionAuthorityError::NoCoordinator => "no coordinator is configured".to_owned(),
            SessionAuthorityError::NoMatchingSession(c) => {
                let mut s = "no authenticated session matches ".to_owned();
                s.append(c.as_str());
                s
            },
        }
    }
}

/// The coordinator a command talks to: the configured one, else the one of
/// the stored session.
pub open spec fn authority_coordinator(
    configured: Option<Seq<char>>,
    stored: Option<StoredCliSession>,
) -> Option<Seq<char>> {
    match configured {
        Some(c) => Some(c),
        None => match stored {
            Some(s) => Some(s.coordinator@),
            None => None,
        },
    }
}

/// The secret of the stored session, when that session belongs to
/// `coordinator` and has one.
pub open spec fn authority_secret(coordinator: Seq<char>, stored: Option<StoredCliSession>) -> Option<
    Seq<char>,
> {
    match stored {
        Some(s) => if s.coordinator@ == coordinator {
            opt_text_view(s.session_secret)
        } else {
            None
        },
        None => None,
    }
}

/// The coordinator and session secret that a command acts through.
pub fn session_authority(
    configured: &Option<String>,
    stored: Option<&StoredCliSession>,
) -> (r: Result<(String, String), SessionAuthorityError>)
    ensures
        ({
            let stored_value = match stored {
                Some(s) => Some(*s),
                None => None,
            };
            match authority_coordinator(opt_text_view(*configured), stored_value) {
                None => r matches Err(SessionAuthorityError::NoCoordinator),
                Some(c) => match authority_secret(c, stored_value) {
                    None => r matches Err(SessionAuthorityError::NoMatchingSession(m)) && m@ == c,
                    Some(secret) => r matches Ok((rc, rs)) && rc@ == c && rs@ == secret,
                },
            }
        }),
{
    let coordinator = match configured {
        Some(c) => c.clone(),
        None => match stored {
            Some(s) => s.coordinator.clone(),
            None => return Err(SessionAuthorityError::NoCoordinator),
        },
    };
    let secret = match stored {
        Some(s) => if str_eq(s.coordinator.as_str(), coordinator.as_str()) {
            match &s.session_secret {
                Some(secret) => secret.clone(),
                None => return Err(SessionAuthorityError::NoMatchingSession(coordinator)),
            }
        } else {
            return Err(SessionAuthorityError::NoMatchingSession(coordinator));
        },
        None => return Err(SessionAuthorityError::NoMatchingSession(coordinator)),
    };
    Ok((coordinator, secret))
}

/// A command talks to the coordinator given on the command line, else to
/// the stored session's; it acts through the stored session's secret only
/// when that session belongs to the same coordinator and has a secret.
pub proof fn commands_act_through_the_matching_session(
    configured: Option<Seq<char>>,
    stored: Option<StoredCliSession>,
    coordinator: Seq<char>,
)
    ensures
        configured matches Some(c) ==> authority_coordinator(configured, stored) == Some(c),
        stored matches Some(s) ==> (configured is None ==> authority_coordinator(
            configured,
            stored,
        ) == Some(s.coordinator@)),
        configured is None && stored is None ==> authority_coordinator(configured, stored) is None,
        stored matches Some(s) ==> (s.coordinator@ == coordinator ==> authority_secret(
            coordinator,
            stored,
        ) == opt_text_view(s.session_secret)),
        stored matches Some(s) && s.coordinator@ != coordinator ==> authority_secret(
            coordinator,
            stored,
        ) is None,
        stored is None ==> authority_secret(coordinator, stored) is None,
{
}

// ---------------------------------------------------------------------
// Project secrets
// ---------------------------------------------------------------------

/// The fewest bytes a project secret may have.
pub const MIN_PROJECT_SECRET_BYTES: usize = 16;

/// The most bytes a project secret may have.
pub const MAX_PROJECT_SECRET_BYTES: usize = 16384;

/// The character of a 6-bit value in the standard base64 alphabet.
pub open spec fn base64_char(d: int) -> char {
    if d < 26 {
        (65 + d) as char
    } else if d < 52 {
        (97 + d - 26) as char
    } else if d < 62 {
        (48 + d - 52) as char
    } else if d == 62 {
        '+'
    } else {
        '/'
    }
}

/// Standard base64 with padding: each group of three bytes becomes four
/// characters of six bits each; a last group of one or two bytes is
/// padded with `=` to four characters.
pub open spec fn base64_standard(bytes: Seq<u8>) -> Seq<char>
    decreases bytes.len(),
{
    if bytes.len() == 0 {
        Seq::empty()
    } else if bytes.len() == 1 {
        let b0 = bytes[0] as int;
        seq![base64_char(b0 / 4), base64_char((b0 % 4) * 16), '=', '=']
    } else if bytes.len() == 2 {
        let b0 = bytes[0] as int;
        let b1 = bytes[1] as int;
        seq![
            base64_char(b0 / 4),
            base64_char((b0 % 4) * 16 + b1 / 16),
            base64_char((b1 % 16) * 4),
            '=',
        ]
    } else {
        let b0 = bytes[0] as int;
        let b1 = bytes[1] as int;
        let b2 = bytes[2] as int;
        seq![
            base64_char(b0 / 4),
            base64_char((b0 % 4) * 16 + b1 / 16),
            base64_char((b1 % 16) * 4 + b2 / 64),
            base64_char(b2 % 64),
        ] + base64_standard(bytes.subrange(3, bytes.len() as int))
    }
}

/// Calls `base64::engine::general_purpose::STANDARD.encode`. Trusted: the
/// result is the standard padded base64 text of the bytes.
#[verifier::external_body]
fn encode_base64(bytes: &[u8]) -> (r: String)
    ensures
        r@ == base64_standard(bytes@),
{
    base64::Engine::encode(&base64::engine::general_purpose::STANDARD, bytes)
}

pub open spec fn is_line_end_byte(b: u8) -> bool {
    b == 10 || b == 13
}

/// The bytes without trailing line feeds and carriage returns.
pub open spec fn without_line_ends(bytes: Seq<u8>) -> Seq<u8>
    decreases bytes.len(),
{
    if bytes.len() > 0 && is_line_end_byte(bytes.last()) {
        without_line_ends(bytes.drop_last())
    } else {
        bytes
    }
}

/// A project secret of the wrong size.
#[derive(Clone, Copy, Debug, PartialEq, Eq, Structural)]
pub enum ProjectSecretError {
    StdinRequired,
    InvalidLength,
}

impl ProjectSecretError {
    pub fn message(&self) -> (s: &'static str)
        ensures
            s@ == match self {
                ProjectSecretError::StdinRequired => "secret set requires --stdin; values are never accepted as arguments"@,
                ProjectSecretError::InvalidLength => "project secret must contain 16 through 16384 bytes"@,
            },
    {
        match self {
            ProjectSecretError::StdinRequired => "secret set requires --stdin; values are never accepted as arguments",
            ProjectSecretError::InvalidLength => "project secret must contain 16 through 16384 bytes",
        }
    }
}

/// The base64 text of a project secret read from standard input, after its
/// trailing line endings are dropped; the secret must then hold 16 through
/// 16384 bytes. Without `--stdin` nothing is read and the secret is refused.
pub fn project_secret_value_base64(stdin: bool, raw: &[u8]) -> (r: Result<
    String,
    ProjectSecretError,
>)
    ensures
        !stdin ==> r == Err::<String, ProjectSecretError>(ProjectSecretError::StdinRequired),
        stdin ==> ({
            let value = without_line_ends(raw@);
            if MIN_PROJECT_SECRET_BYTES <= value.len() <= MAX_PROJECT_SECRET_BYTES {
                r matches Ok(text) && text@ == base64_standard(value)
            } else {
                r == Err::<String, ProjectSecretError>(ProjectSecretError::InvalidLength)
            }
        }),
{
    if !stdin {
        return Err(ProjectSecretError::StdinRequired);
    }
    let mut end = raw.len();
    assert(raw@.take(end as int) =~= raw@);
    while end > 0 && (raw[end - 1] == 10 || raw[end - 1] == 13)
        invariant
            end <= raw@.len(),
            without_line_ends(raw@) == without_line_ends(raw@.take(end as int)),
        decreases end,
    {
        assert(raw@.take(end as int).drop_last() =~= raw@.take(end - 1));
        end = end - 1;
    }
    assert(without_line_ends(raw@.take(end as int)) == raw@.take(end as int)) by {
        if end > 0 {
            assert(raw@.take(end as int).last() == raw@[end - 1]);
        }
    }
    if end < MIN_PROJECT_SECRET_BYTES || end > MAX_PROJECT_SECRET_BYTES {
        return Err(ProjectSecretError::InvalidLength);
    }
    let mut value: Vec<u8> = Vec::new();
    for i in 0..end
        invariant
            end <= raw@.len(),
            value@ == raw@.take(i as int),
    {
        value.push(raw[i]);
        assert(raw@.take(i + 1) =~= raw@.take(i as int).push(raw@[i as int]));
    }
    Ok(encode_base64(value.as_slice()))
}

/// A secret without a trailing line ending is taken whole when it holds
/// 16 through 16384 bytes, and refused otherwise; line endings after it do
/// not change that.
pub proof fn project_secrets_are_taken_whole(raw: Seq<u8>, endings: Seq<u8>)
    requires
        raw.len() == 0 || !is_line_end_byte(raw.last()),
        forall|i: int| 0 <= i < endings.len() ==> is_line_end_byte(#[trigger] endings[i]),
    ensures
        without_line_ends(raw + endings) == raw,
    decreases endings.len(),
{
    if endings.len() == 0 {
        assert(raw + endings =~= raw);
    } else {
        let shorter = endings.drop_last();
        assert((raw + endings).drop_last() =~= raw + shorter);
        assert((raw + endings).last() == endings.last());
        project_secrets_are_taken_whole(raw, shorter);
    }
}

} // verus!
