//! Machine-readable classification of CLI error messages: a stable category,
//! its exit code, whether a user action can make a retry succeed, suggested
//! next commands, and for quota errors the resource that ran out.
use crate::text::{
    chars_of, contains_seq, contains_str, is_ascii_whitespace, lower_seq, lowercase_chars,
    find_chars, lemma_leading_run, lemma_trailing_run, leading_run, occurs_at, str_eq,
    string_from_chars, trailing_run, trim_both,
};
use vstd::prelude::*;

verus! {

// ---------------------------------------------------------------------
// Specification
// ---------------------------------------------------------------------

/// The locality failures that the coordinator reports in messages.
pub open spec fn locality_failure(m: Seq<char>) -> bool {
    ||| contains_seq(m, "direct connectivity unavailable"@)
    ||| contains_seq(m, "direct transfer"@)
    ||| contains_seq(m, "source snapshot unavailable"@)
    ||| (contains_seq(m, "required artifact"@) && contains_seq(m, "unavailable"@) && contains_seq(
        m,
        "direct connectivity"@,
    ))
    ||| contains_seq(m, "locality assumption"@)
}

pub open spec fn mentions_capability(m: Seq<char>) -> bool {
    ||| contains_seq(m, "no capable node"@)
    ||| contains_seq(m, "missing capability"@)
    ||| contains_seq(m, "capability"@)
    ||| contains_seq(m, "placement failed"@)
    ||| contains_seq(m, "cmd.run"@)
    ||| contains_seq(m, "node required"@)
}

pub open spec fn mentions_quota(m: Seq<char>) -> bool {
    ||| contains_seq(m, "quota"@)
    ||| contains_seq(m, "resource limit"@)
    ||| contains_seq(m, "limit exceeded"@)
    ||| contains_seq(m, "metering"@)
}

pub open spec fn mentions_policy(m: Seq<char>) -> bool {
    ||| contains_seq(m, "policy"@)
    ||| contains_seq(m, "disallowed"@)
    ||| contains_seq(m, "not allowed"@)
    ||| contains_seq(m, "suspended"@)
    ||| contains_seq(m, "blocked by"@)
    ||| contains_seq(m, "denied"@)
}

pub open spec fn mentions_authentication(m: Seq<char>) -> bool {
    ||| contains_seq(m, "unauthenticated"@)
    ||| contains_seq(m, "not authenticated"@)
    ||| contains_seq(m, "login required"@)
    ||| contains_seq(m, "browser login required"@)
    ||| contains_seq(m, "missing session"@)
    ||| contains_seq(m, "no cli session"@)
    ||| contains_seq(m, "session credential has expired"@)
    ||| contains_seq(m, "session credential has been revoked"@)
    ||| contains_seq(m, "401"@)
}

pub open spec fn mentions_authorization(m: Seq<char>) -> bool {
    ||| contains_seq(m, "unauthorized"@)
    ||| contains_seq(m, "not authorized"@)
    ||| contains_seq(m, "forbidden"@)
    ||| contains_seq(m, "permission"@)
    ||| contains_seq(m, "tenant mismatch"@)
    ||| contains_seq(m, "project mismatch"@)
}

pub open spec fn mentions_connectivity(m: Seq<char>) -> bool {
    ||| contains_seq(m, "failed to connect"@)
    ||| contains_seq(m, "connection refused"@)
    ||| contains_seq(m, "closed session"@)
    ||| contains_seq(m, "timed out"@)
    ||| contains_seq(m, "timeout"@)
    ||| contains_seq(m, "name resolution"@)
    ||| contains_seq(m, "network unreachable"@)
    ||| contains_seq(m, "dns"@)
}

pub open spec fn mentions_environment(m: Seq<char>) -> bool {
    ||| contains_seq(m, "missing environment"@)
    ||| contains_seq(m, "environment mismatch"@)
    ||| contains_seq(m, "incompatible environment"@)
    ||| contains_seq(m, "containerfile"@)
    ||| contains_seq(m, "dockerfile"@)
    ||| contains_seq(m, "envs/"@)
}

pub open spec fn mentions_program(m: Seq<char>) -> bool {
    ||| contains_seq(m, "task exited"@)
    ||| contains_seq(m, "exit status"@)
    ||| contains_seq(m, "status code"@)
    ||| contains_seq(m, "stderr"@)
    ||| contains_seq(m, "panic"@)
    ||| contains_seq(m, "program error"@)
    ||| contains_seq(m, "command failed"@)
}

/// The category of a message, checked in this order on its ASCII-lowercased
/// text; the first rule that matches decides.
pub open spec fn category_of(message: Seq<char>) -> Seq<char> {
    let m = lower_seq(message);
    if contains_seq(m, "already has active virtual process"@) || contains_seq(
        m,
        "active process"@,
    ) {
        "active_process"@
    } else if locality_failure(m) {
        "connectivity"@
    } else if mentions_capability(m) {
        "capability"@
    } else if mentions_quota(m) {
        "quota"@
    } else if mentions_policy(m) {
        "policy"@
    } else if mentions_authentication(m) {
        "authentication"@
    } else if mentions_authorization(m) {
        "authorization"@
    } else if mentions_connectivity(m) {
        "connectivity"@
    } else if mentions_environment(m) {
        "environment"@
    } else if mentions_program(m) {
        "program"@
    } else {
        "unknown"@
    }
}

/// The stable exit code of each category; anything else exits with 1.
pub open spec fn exit_code_of(category: Seq<char>) -> i64 {
    if category == "authentication"@ {
        20
    } else if category == "authorization"@ {
        21
    } else if category == "quota"@ {
        22
    } else if category == "policy"@ {
        23
    } else if category == "capability"@ {
        24
    } else if category == "connectivity"@ {
        25
    } else if category == "environment"@ {
        26
    } else if category == "program"@ {
        27
    } else if category == "active_process"@ {
        28
    } else {
        1
    }
}

/// The categories that a user action can resolve.
pub open spec fn known_category(category: Seq<char>) -> bool {
    ||| category == "authentication"@
    ||| category == "authorization"@
    ||| category == "quota"@
    ||| category == "policy"@
    ||| category == "capability"@
    ||| category == "connectivity"@
    ||| category == "environment"@
    ||| category == "program"@
    ||| category == "active_process"@
}

pub open spec fn next_actions_of(category: Seq<char>) -> Seq<Seq<char>> {
    if category == "authentication"@ {
        seq!["clusterflux login --browser"@, "clusterflux auth status"@]
    } else if category == "authorization"@ {
        seq![
            "clusterflux auth status"@,
            "check tenant/project selection"@,
            "ask an admin to grant access"@,
        ]
    } else if category == "quota"@ {
        seq!["clusterflux quota status"@, "reduce concurrent work or wait for usage to fall"@]
    } else if category == "policy"@ {
        seq!["clusterflux doctor"@, "check coordinator policy for this action"@]
    } else if category == "capability"@ {
        seq![
            "clusterflux node list"@,
            "attach a node with the required capabilities"@,
            "check tenant/project on the attached node"@,
        ]
    } else if category == "connectivity"@ {
        seq!["clusterflux doctor"@, "check the coordinator endpoint and network reachability"@]
    } else if category == "environment"@ {
        seq![
            "clusterflux inspect"@,
            "check envs/<name>/Containerfile or envs/<name>/Dockerfile"@,
        ]
    } else if category == "program"@ {
        seq!["clusterflux logs"@, "fix the program or task command and rerun"@]
    } else if category == "active_process"@ {
        seq![
            "clusterflux process list"@,
            "clusterflux process status"@,
            "clusterflux debug attach"@,
            "clusterflux process restart --yes"@,
            "clusterflux process cancel --yes"@,
            "clusterflux process abort --yes"@,
            "use another Coordinator Project"@,
        ]
    } else {
        seq!["clusterflux doctor"@, "rerun with --json for machine-readable details"@]
    }
}

/// The markers after which a quota message names its resource, tried in
/// this order.
pub open spec fn quota_markers() -> Seq<Seq<char>> {
    seq![
        "resource limit exceeded for "@,
        "quota unavailable for "@,
        "quota exceeded for "@,
        "limit exceeded for "@,
        "metering limit exceeded for "@,
        "quota limit for "@,
        "resource category "@,
        "resource="@,
        "resource:"@,
    ]
}

/// Characters that may make up a resource name.
pub open spec fn is_resource_char(c: char) -> bool {
    ('a' <= c && c <= 'z') || ('A' <= c && c <= 'Z') || ('0' <= c && c <= '9') || c == '_' || c
        == '-' || c == '.' || c == ':'
}

/// Characters trimmed from both ends of a resource name.
pub open spec fn is_resource_trim_char(c: char) -> bool {
    c == '.' || c == ':' || c == ','
}

pub open spec fn ascii_ws_pred() -> spec_fn(char) -> bool {
    |c: char| is_ascii_whitespace(c)
}

pub open spec fn resource_char_pred() -> spec_fn(char) -> bool {
    |c: char| is_resource_char(c)
}

pub open spec fn resource_trim_pred() -> spec_fn(char) -> bool {
    |c: char| is_resource_trim_char(c)
}

/// The resource name that follows position `start` of the message: skip
/// ASCII whitespace, take resource characters, trim `.`, `:` and `,`.
pub open spec fn resource_name_at(message: Seq<char>, start: int) -> Seq<char> {
    let rest = message.skip(start);
    let after_ws = rest.skip(leading_run(rest, ascii_ws_pred()) as int);
    let name = after_ws.take(leading_run(after_ws, resource_char_pred()) as int);
    trim_both(name, resource_trim_pred())
}

/// The first position at which `pat` occurs in `hay`.
pub open spec fn first_occurrence(hay: Seq<char>, pat: Seq<char>) -> Option<int> {
    if contains_seq(hay, pat) {
        Some(
            choose|i: int|
                occurs_at(hay, pat, i) && forall|j: int| 0 <= j < i ==> !occurs_at(hay, pat, j),
        )
    } else {
        None
    }
}

/// The resource named after the markers from index `k` on: the first marker
/// whose first occurrence is followed by a non-empty name decides.
#[verifier::opaque]
pub open spec fn quota_resource_from(message: Seq<char>, k: nat) -> Option<Seq<char>>
    decreases quota_markers().len() - k,
{
    if k >= quota_markers().len() {
        None
    } else {
        let marker = quota_markers()[k as int];
        match first_occurrence(lower_seq(message), marker) {
            Some(i) => {
                let name = resource_name_at(message, i + marker.len());
                if name.len() > 0 {
                    Some(name)
                } else {
                    quota_resource_from(message, k + 1)
                }
            },
            None => quota_resource_from(message, k + 1),
        }
    }
}

pub open spec fn quota_resource_of(message: Seq<char>) -> Option<Seq<char>> {
    quota_resource_from(message, 0)
}

pub open spec fn opt_string_view(o: Option<String>) -> Option<Seq<char>> {
    match o {
        Some(s) => Some(s@),
        None => None,
    }
}

// ---------------------------------------------------------------------
// Lemmas on runs
// ---------------------------------------------------------------------

proof fn lemma_quota_step(message: Seq<char>, k: nat, found: Option<int>)
    requires
        k < quota_markers().len(),
        found == first_occurrence(lower_seq(message), quota_markers()[k as int]),
    ensures
        quota_resource_from(message, k) == (match found {
            Some(i) => {
                let name = resource_name_at(message, i + quota_markers()[k as int].len());
                if name.len() > 0 {
                    Some(name)
                } else {
                    quota_resource_from(message, k + 1)
                }
            },
            None => quota_resource_from(message, k + 1),
        }),
{
    reveal(quota_resource_from);
}

proof fn lemma_quota_end(message: Seq<char>)
    ensures
        quota_resource_from(message, quota_markers().len()) == None::<Seq<char>>,
{
    reveal(quota_resource_from);
}

proof fn lemma_first_occurrence(hay: Seq<char>, pat: Seq<char>, i: int)
    requires
        occurs_at(hay, pat, i),
        forall|j: int| 0 <= j < i ==> !occurs_at(hay, pat, j),
    ensures
        first_occurrence(hay, pat) == Some(i),
{
    assert(contains_seq(hay, pat));
    let c = choose|c: int|
        occurs_at(hay, pat, c) && forall|j: int| 0 <= j < c ==> !occurs_at(hay, pat, j);
    assert(occurs_at(hay, pat, c) && forall|j: int| 0 <= j < c ==> !occurs_at(hay, pat, j));
    if c < i {
        assert(!occurs_at(hay, pat, c));
    }
    if i < c {
        assert(!occurs_at(hay, pat, i));
    }
}

proof fn lemma_leading_run_bounds(s: Seq<char>, p: spec_fn(char) -> bool)
    ensures
        leading_run(s, p) <= s.len(),
        forall|k: int| 0 <= k < leading_run(s, p) ==> p(#[trigger] s[k]),
        leading_run(s, p) < s.len() ==> !p(s[leading_run(s, p) as int]),
    decreases s.len(),
{
    if s.len() > 0 && p(s[0]) {
        let t = s.drop_first();
        lemma_leading_run_bounds(t, p);
        assert forall|k: int| 0 <= k < leading_run(s, p) implies p(#[trigger] s[k]) by {
            if k > 0 {
                assert(s[k] == t[k - 1]);
            }
        }
        if leading_run(s, p) < s.len() {
            assert(s[leading_run(s, p) as int] == t[leading_run(t, p) as int]);
        }
    }
}

proof fn lemma_trailing_run_bounds(s: Seq<char>, p: spec_fn(char) -> bool)
    ensures
        trailing_run(s, p) <= s.len(),
        forall|k: int| s.len() - trailing_run(s, p) <= k < s.len() ==> p(#[trigger] s[k]),
        trailing_run(s, p) < s.len() ==> !p(s[s.len() - 1 - trailing_run(s, p)]),
    decreases s.len(),
{
    if s.len() > 0 && p(s.last()) {
        let t = s.drop_last();
        lemma_trailing_run_bounds(t, p);
        assert forall|k: int| s.len() - trailing_run(s, p) <= k < s.len() implies p(
            #[trigger] s[k],
        ) by {
            if k < s.len() - 1 {
                assert(s[k] == t[k]);
            }
        }
        if trailing_run(s, p) < s.len() {
            assert(s[s.len() - 1 - trailing_run(s, p)] == t[t.len() - 1 - trailing_run(t, p)]);
        }
    }
}

/// What `resource_name_at` keeps: resource characters only, no trimmed
/// character at either end, and a piece of `rest` taken whole.
proof fn lemma_resource_name_shape(message: Seq<char>, start: int)
    ensures
        ({
            let n = resource_name_at(message, start);
            &&& forall|k: int| 0 <= k < n.len() ==> is_resource_char(#[trigger] n[k])
            &&& n.len() > 0 ==> !is_resource_trim_char(n[0]) && !is_resource_trim_char(
                n[n.len() - 1],
            )
            &&& (0 <= start <= message.len() ==> exists|j: int| occurs_at(message, n, j))
        }),
{
    let rest = message.skip(start);
    lemma_leading_run_bounds(rest, ascii_ws_pred());
    let lw = leading_run(rest, ascii_ws_pred()) as int;
    let after_ws = rest.skip(lw);
    lemma_leading_run_bounds(after_ws, resource_char_pred());
    let lr = leading_run(after_ws, resource_char_pred()) as int;
    let name = after_ws.take(lr);
    assert forall|k: int| 0 <= k < name.len() implies is_resource_char(#[trigger] name[k]) by {
        assert(name[k] == after_ws[k]);
        assert(resource_char_pred()(after_ws[k]));
    }
    lemma_leading_run_bounds(name, resource_trim_pred());
    let a = leading_run(name, resource_trim_pred()) as int;
    let u = name.skip(a);
    lemma_trailing_run_bounds(u, resource_trim_pred());
    let b = trailing_run(u, resource_trim_pred()) as int;
    let n = u.take(u.len() - b);
    assert(n == resource_name_at(message, start));
    assert forall|k: int| 0 <= k < n.len() implies is_resource_char(#[trigger] n[k]) by {
        assert(n[k] == u[k]);
        assert(u[k] == name[k + a]);
    }
    if n.len() > 0 {
        assert(n[0] == name[a]);
        assert(!resource_trim_pred()(name[a]));
        assert(n[n.len() - 1] == u[u.len() - 1 - b]);
        assert(!resource_trim_pred()(u[u.len() - 1 - b]));
    }
    if 0 <= start <= message.len() {
        let j = start + lw + a;
        assert(message.subrange(j, j + n.len()) =~= n) by {
            assert forall|k: int| 0 <= k < n.len() implies message.subrange(j, j + n.len())[k]
                == n[k] by {
                assert(n[k] == u[k]);
                assert(u[k] == name[k + a]);
                assert(name[k + a] == after_ws[k + a]);
                assert(after_ws[k + a] == rest[lw + k + a]);
                assert(rest[lw + k + a] == message[start + lw + k + a]);
            }
        }
        assert(occurs_at(message, n, j));
    }
}

/// A first occurrence exists wherever some occurrence does.
proof fn lemma_first_occurrence_exists(hay: Seq<char>, pat: Seq<char>, i: int)
    requires
        occurs_at(hay, pat, i),
    ensures
        first_occurrence(hay, pat) matches Some(f) && occurs_at(hay, pat, f),
    decreases i,
{
    if exists|l: int| 0 <= l < i && occurs_at(hay, pat, l) {
        let l = choose|l: int| 0 <= l < i && occurs_at(hay, pat, l);
        lemma_first_occurrence_exists(hay, pat, l);
    } else {
        lemma_first_occurrence(hay, pat, i);
    }
}

/// The shape that `lemma_quota_resource_shape` promises of a resource.
spec fn clean_resource(message: Seq<char>, n: Seq<char>) -> bool {
    &&& n.len() > 0
    &&& forall|q: int| 0 <= q < n.len() ==> is_resource_char(#[trigger] n[q])
    &&& !is_resource_trim_char(n[0]) && !is_resource_trim_char(n[n.len() - 1])
    &&& exists|j: int| occurs_at(message, n, j)
}

proof fn lemma_found_marker_name(message: Seq<char>, marker: Seq<char>, i: int)
    requires
        first_occurrence(lower_seq(message), marker) == Some(i),
        resource_name_at(message, i + marker.len()).len() > 0,
    ensures
        clean_resource(message, resource_name_at(message, i + marker.len())),
{
    let hay = lower_seq(message);
    assert(occurs_at(hay, marker, i)) by {
        assert(contains_seq(hay, marker));
        let w = choose|w: int| occurs_at(hay, marker, w);
        lemma_first_occurrence_exists(hay, marker, w);
    }
    assert(0 <= i + marker.len() <= message.len());
    lemma_resource_name_shape(message, i + marker.len());
}

proof fn lemma_quota_resource_shape(message: Seq<char>, k: nat)
    ensures
        quota_resource_from(message, k) matches Some(n) ==> clean_resource(message, n),
    decreases quota_markers().len() - k,
{
    if k >= quota_markers().len() {
        lemma_quota_end(message);
        assert(quota_resource_from(message, k) == None::<Seq<char>>) by {
            reveal(quota_resource_from);
        }
    } else {
        let marker = quota_markers()[k as int];
        let found = first_occurrence(lower_seq(message), marker);
        lemma_quota_step(message, k, found);
        lemma_quota_resource_shape(message, k + 1);
        if let Some(i) = found {
            if resource_name_at(message, i + marker.len()).len() > 0 {
                lemma_found_marker_name(message, marker, i);
            }
        }
    }
}

proof fn lemma_no_marker_no_resource(message: Seq<char>, k: nat)
    requires
        forall|j: int|
            k <= j < quota_markers().len() ==> !contains_seq(
                lower_seq(message),
                #[trigger] quota_markers()[j],
            ),
    ensures
        quota_resource_from(message, k) == None::<Seq<char>>,
    decreases quota_markers().len() - k,
{
    if k >= quota_markers().len() {
        reveal(quota_resource_from);
    } else {
        let marker = quota_markers()[k as int];
        assert(!contains_seq(lower_seq(message), marker));
        lemma_quota_step(message, k, None);
        lemma_no_marker_no_resource(message, k + 1);
    }
}

// ---------------------------------------------------------------------
// Executable functions
// ---------------------------------------------------------------------

/// Whether an (already lowercased) message reports a locality failure.
pub fn message_mentions_locality_failure(message: &str) -> (r: bool)
    ensures
        r == locality_failure(message@),
{
    let m = chars_of(message);
    locality_failure_chars(&m)
}

fn locality_failure_chars(m: &Vec<char>) -> (r: bool)
    ensures
        r == locality_failure(m@),
{
    contains_str(m, "direct connectivity unavailable") || contains_str(m, "direct transfer")
        || contains_str(m, "source snapshot unavailable") || (contains_str(m, "required artifact")
        && contains_str(m, "unavailable") && contains_str(m, "direct connectivity"))
        || contains_str(m, "locality assumption")
}

/// The category of an error message.
pub fn classify_cli_error_message(message: &str) -> (r: &'static str)
    ensures
        r@ == category_of(message@),
{
    let original = chars_of(message);
    let m = lowercase_chars(&original);
    if contains_str(&m, "already has active virtual process") || contains_str(&m, "active process") {
        return "active_process";
    }
    if locality_failure_chars(&m) {
        return "connectivity";
    }
    if contains_str(&m, "no capable node") || contains_str(&m, "missing capability")
        || contains_str(&m, "capability") || contains_str(&m, "placement failed")
        || contains_str(&m, "cmd.run") || contains_str(&m, "node required") {
        return "capability";
    }
    if contains_str(&m, "quota") || contains_str(&m, "resource limit") || contains_str(
        &m,
        "limit exceeded",
    ) || contains_str(&m, "metering") {
        return "quota";
    }
    if contains_str(&m, "policy") || contains_str(&m, "disallowed") || contains_str(
        &m,
        "not allowed",
    ) || contains_str(&m, "suspended") || contains_str(&m, "blocked by") || contains_str(
        &m,
        "denied",
    ) {
        return "policy";
    }
    if contains_str(&m, "unauthenticated") || contains_str(&m, "not authenticated")
        || contains_str(&m, "login required") || contains_str(&m, "browser login required")
        || contains_str(&m, "missing session") || contains_str(&m, "no cli session")
        || contains_str(&m, "session credential has expired") || contains_str(
        &m,
        "session credential has been revoked",
    ) || contains_str(&m, "401") {
        return "authentication";
    }
    if contains_str(&m, "unauthorized") || contains_str(&m, "not authorized") || contains_str(
        &m,
        "forbidden",
    ) || contains_str(&m, "permission") || contains_str(&m, "tenant mismatch") || contains_str(
        &m,
        "project mismatch",
    ) {
        return "authorization";
    }
    if contains_str(&m, "failed to connect") || contains_str(&m, "connection refused")
        || contains_str(&m, "closed session") || contains_str(&m, "timed out") || contains_str(
        &m,
        "timeout",
    ) || contains_str(&m, "name resolution") || contains_str(&m, "network unreachable")
        || contains_str(&m, "dns") {
        return "connectivity";
    }
    if contains_str(&m, "missing environment") || contains_str(&m, "environment mismatch")
        || contains_str(&m, "incompatible environment") || contains_str(&m, "containerfile")
        || contains_str(&m, "dockerfile") || contains_str(&m, "envs/") {
        return "environment";
    }
    if contains_str(&m, "task exited") || contains_str(&m, "exit status") || contains_str(
        &m,
        "status code",
    ) || contains_str(&m, "stderr") || contains_str(&m, "panic") || contains_str(
        &m,
        "program error",
    ) || contains_str(&m, "command failed") {
        return "program";
    }
    "unknown"
}

/// The stable exit code of a category.
pub fn cli_error_exit_code(category: &str) -> (r: i64)
    ensures
        r == exit_code_of(category@),
{
    if str_eq(category, "authentication") {
        20
    } else if str_eq(category, "authorization") {
        21
    } else if str_eq(category, "quota") {
        22
    } else if str_eq(category, "policy") {
        23
    } else if str_eq(category, "capability") {
        24
    } else if str_eq(category, "connectivity") {
        25
    } else if str_eq(category, "environment") {
        26
    } else if str_eq(category, "program") {
        27
    } else if str_eq(category, "active_process") {
        28
    } else {
        1
    }
}

/// Whether a retry can succeed once the user has acted on the category.
pub fn cli_error_retryable_after_user_action(category: &str) -> (r: bool)
    ensures
        r == known_category(category@),
{
    str_eq(category, "authentication") || str_eq(category, "authorization") || str_eq(
        category,
        "quota",
    ) || str_eq(category, "policy") || str_eq(category, "capability") || str_eq(
        category,
        "connectivity",
    ) || str_eq(category, "environment") || str_eq(category, "program") || str_eq(
        category,
        "active_process",
    )
}

pub open spec fn str_views(v: Seq<&'static str>) -> Seq<Seq<char>> {
    v.map_values(|s: &'static str| s@)
}

/// The commands suggested for a category.
pub fn cli_error_next_actions(category: &str) -> (r: Vec<&'static str>)
    ensures
        str_views(r@) == next_actions_of(category@),
{
    let r: Vec<&'static str> = if str_eq(category, "authentication") {
        vec!["clusterflux login --browser", "clusterflux auth status"]
    } else if str_eq(category, "authorization") {
        vec![
            "clusterflux auth status",
            "check tenant/project selection",
            "ask an admin to grant access",
        ]
    } else if str_eq(category, "quota") {
        vec!["clusterflux quota status", "reduce concurrent work or wait for usage to fall"]
    } else if str_eq(category, "policy") {
        vec!["clusterflux doctor", "check coordinator policy for this action"]
    } else if str_eq(category, "capability") {
        vec![
            "clusterflux node list",
            "attach a node with the required capabilities",
            "check tenant/project on the attached node",
        ]
    } else if str_eq(category, "connectivity") {
        vec!["clusterflux doctor", "check the coordinator endpoint and network reachability"]
    } else if str_eq(category, "environment") {
        vec!["clusterflux inspect", "check envs/<name>/Containerfile or envs/<name>/Dockerfile"]
    } else if str_eq(category, "program") {
        vec!["clusterflux logs", "fix the program or task command and rerun"]
    } else if str_eq(category, "active_process") {
        vec![
            "clusterflux process list",
            "clusterflux process status",
            "clusterflux debug attach",
            "clusterflux process restart --yes",
            "clusterflux process cancel --yes",
            "clusterflux process abort --yes",
            "use another Coordinator Project",
        ]
    } else {
        vec!["clusterflux doctor", "rerun with --json for machine-readable details"]
    };
    assert(str_views(r@) =~= next_actions_of(category@));
    r
}

fn is_ascii_whitespace_char(c: char) -> (r: bool)
    ensures
        r == is_ascii_whitespace(c),
{
    c == ' ' || c == '\t' || c == '\n' || c == '\x0C' || c == '\r'
}

fn is_resource_char_exec(c: char) -> (r: bool)
    ensures
        r == is_resource_char(c),
{
    ('a' <= c && c <= 'z') || ('A' <= c && c <= 'Z') || ('0' <= c && c <= '9') || c == '_' || c
        == '-' || c == '.' || c == ':'
}

fn is_resource_trim_char_exec(c: char) -> (r: bool)
    ensures
        r == is_resource_trim_char(c),
{
    c == '.' || c == ':' || c == ','
}

/// The resource name that follows position `start` of `chars`.
fn resource_name(chars: &Vec<char>, start: usize) -> (res: Vec<char>)
    requires
        start <= chars@.len(),
    ensures
        res@ == resource_name_at(chars@, start as int),
{
    let len = chars.len();
    let ghost s = chars@;
    let ghost rest = s.skip(start as int);
    let mut j = start;
    while j < len && is_ascii_whitespace_char(chars[j])
        invariant
            len == s.len(),
            s == chars@,
            rest == s.skip(start as int),
            start <= j <= len,
            forall|k: int| start <= k < j ==> is_ascii_whitespace(#[trigger] s[k]),
        decreases len - j,
    {
        j = j + 1;
    }
    proof {
        assert forall|k: int| 0 <= k < j - start implies (ascii_ws_pred())(#[trigger] rest[k]) by {
            assert(rest[k] == s[start + k]);
        }
        if j < len {
            assert(rest[j - start] == s[j as int]);
        }
        lemma_leading_run(rest, ascii_ws_pred(), j - start);
    }
    let ghost after_ws = rest.skip(j - start);
    assert(after_ws =~= s.skip(j as int));
    let mut e = j;
    while e < len && is_resource_char_exec(chars[e])
        invariant
            len == s.len(),
            s == chars@,
            j <= e <= len,
            forall|k: int| j <= k < e ==> is_resource_char(#[trigger] s[k]),
        decreases len - e,
    {
        e = e + 1;
    }
    let ghost name = after_ws.take(e - j);
    proof {
        assert forall|k: int| 0 <= k < e - j implies (resource_char_pred())(#[trigger] after_ws[k]) by {
            assert(after_ws[k] == s[j + k]);
        }
        if e < len {
            assert(after_ws[e - j] == s[e as int]);
        }
        lemma_leading_run(after_ws, resource_char_pred(), e - j);
        assert(name =~= s.subrange(j as int, e as int));
    }
    let mut a = j;
    while a < e && is_resource_trim_char_exec(chars[a])
        invariant
            len == s.len(),
            s == chars@,
            j <= a <= e <= len,
            forall|k: int| j <= k < a ==> is_resource_trim_char(#[trigger] s[k]),
        decreases e - a,
    {
        a = a + 1;
    }
    proof {
        assert forall|k: int| 0 <= k < a - j implies (resource_trim_pred())(#[trigger] name[k]) by {
            assert(name[k] == s[j + k]);
        }
        if a < e {
            assert(name[a - j] == s[a as int]);
        }
        lemma_leading_run(name, resource_trim_pred(), a - j);
    }
    let ghost u = name.skip(a - j);
    assert(u =~= s.subrange(a as int, e as int));
    let mut b = e;
    while b > a && is_resource_trim_char_exec(chars[b - 1])
        invariant
            len == s.len(),
            s == chars@,
            j <= a <= b <= e <= len,
            forall|k: int| b <= k < e ==> is_resource_trim_char(#[trigger] s[k]),
        decreases b,
    {
        b = b - 1;
    }
    proof {
        assert forall|k: int| u.len() - (e - b) <= k < u.len() implies (resource_trim_pred())(
            #[trigger] u[k],
        ) by {
            assert(u[k] == s[a + k]);
        }
        if e - b < u.len() {
            assert(u[u.len() - 1 - (e - b)] == s[b - 1]);
        }
        lemma_trailing_run(u, resource_trim_pred(), e - b);
        assert(u.take(u.len() - (e - b)) =~= s.subrange(a as int, b as int));
    }
    let mut out: Vec<char> = Vec::new();
    let mut i = a;
    while i < b
        invariant
            len == s.len(),
            s == chars@,
            a <= i <= b <= len,
            out@ =~= s.subrange(a as int, i as int),
        decreases b - i,
    {
        out.push(chars[i]);
        i = i + 1;
    }
    out
}

/// The resource that a quota message names, if any.
#[verifier::spinoff_prover]
pub fn quota_error_resource_category(message: &str) -> (r: Option<String>)
    ensures
        opt_string_view(r) == quota_resource_of(message@),
{
    let original = chars_of(message);
    let lower = lowercase_chars(&original);
    let markers: Vec<&'static str> = vec![
        "resource limit exceeded for ",
        "quota unavailable for ",
        "quota exceeded for ",
        "limit exceeded for ",
        "metering limit exceeded for ",
        "quota limit for ",
        "resource category ",
        "resource=",
        "resource:",
    ];
    assert(str_views(markers@) =~= quota_markers());
    let mut k: usize = 0;
    while k < markers.len()
        invariant
            str_views(markers@) == quota_markers(),
            original@ == message@,
            lower@ == lower_seq(message@),
            0 <= k <= markers@.len(),
            quota_resource_of(message@) == quota_resource_from(message@, k as nat),
        decreases markers.len() - k,
    {
        let marker = chars_of(markers[k]);
        assert(marker@ == quota_markers()[k as int]);
        let found = find_chars(&lower, &marker);
        proof {
            match found {
                Some(i) => {
                    lemma_first_occurrence(lower@, marker@, i as int);
                    lemma_quota_step(message@, k as nat, Some(i as int));
                },
                None => {
                    lemma_quota_step(message@, k as nat, None);
                },
            }
        }
        match found {
            Some(i) => {
                let lower_len = lower.len();
                assert(i + marker@.len() <= lower_len);
                let name = resource_name(&original, i + marker.len());
                if name.len() > 0 {
                    return Some(string_from_chars(&name));
                }
            },
            None => {},
        }
        k = k + 1;
    }
    proof {
        lemma_quota_end(message@);
    }
    None
}

/// The extra fields of a quota error summary.
pub struct QuotaErrorDetails {
    pub resource_category: String,
    pub community_tier_language: bool,
    pub community_tier_label: String,
    pub sensitive_abuse_heuristics_exposed: bool,
}

/// The machine-readable summary of a CLI error.
pub struct CliErrorSummary {
    pub category: String,
    pub stable_exit_code: i64,
    pub process_exit_code_applied: bool,
    pub retryable_after_user_action: bool,
    pub message: String,
    pub safe_failure: bool,
    pub next_actions: Vec<&'static str>,
    pub quota: Option<QuotaErrorDetails>,
}

/// What the summary of `message` under `category` holds.
pub open spec fn summary_matches(s: CliErrorSummary, category: Seq<char>, message: Seq<char>) -> bool {
    &&& s.category@ == category
    &&& s.stable_exit_code == exit_code_of(category)
    &&& !s.process_exit_code_applied
    &&& s.retryable_after_user_action == known_category(category)
    &&& s.message@ == message
    &&& s.safe_failure
    &&& str_views(s.next_actions@) == next_actions_of(category)
    &&& (category == "quota"@ <==> s.quota is Some)
    &&& (s.quota matches Some(q) ==> {
        &&& q.resource_category@ == (match quota_resource_of(message) {
            Some(r) => r,
            None => "unknown"@,
        })
        &&& q.community_tier_language
        &&& q.community_tier_label@ == "community tier"@
        &&& !q.sensitive_abuse_heuristics_exposed
    })
}

/// The category used by `cli_error_summary_with_default`.
pub open spec fn category_with_default(message: Seq<char>, default_category: Seq<char>) -> Seq<
    char,
> {
    if category_of(message) == "unknown"@ {
        default_category
    } else {
        category_of(message)
    }
}

/// The summary of `message` under a given category.
pub fn cli_error_summary_for_category(category: &str, message: &str) -> (r: CliErrorSummary)
    ensures
        summary_matches(r, category@, message@),
{
    let quota = if str_eq(category, "quota") {
        let resource_category = match quota_error_resource_category(message) {
            Some(resource) => resource,
            None => "unknown".to_owned(),
        };
        Some(
            QuotaErrorDetails {
                resource_category,
                community_tier_language: true,
                community_tier_label: "community tier".to_owned(),
                sensitive_abuse_heuristics_exposed: false,
            },
        )
    } else {
        None
    };
    CliErrorSummary {
        category: category.to_owned(),
        stable_exit_code: cli_error_exit_code(category),
        process_exit_code_applied: false,
        retryable_after_user_action: cli_error_retryable_after_user_action(category),
        message: message.to_owned(),
        safe_failure: true,
        next_actions: cli_error_next_actions(category),
        quota,
    }
}

/// The summary of an error message under its own category.
pub fn cli_error_summary(message: &str) -> (r: CliErrorSummary)
    ensures
        summary_matches(r, category_of(message@), message@),
{
    let category = classify_cli_error_message(message);
    cli_error_summary_for_category(category, message)
}

/// The summary of an error message, with `default_category` in place of
/// `unknown`.
pub fn cli_error_summary_with_default(message: &str, default_category: &'static str) -> (r:
    CliErrorSummary)
    ensures
        summary_matches(r, category_with_default(message@, default_category@), message@),
{
    let category = classify_cli_error_message(message);
    let category = if str_eq(category, "unknown") {
        default_category
    } else {
        category
    };
    cli_error_summary_for_category(category, message)
}

/// A category that a user action can resolve has its own exit code, and no
/// two categories share one; every other category exits with 1.
pub proof fn exit_codes_identify_categories(a: Seq<char>, b: Seq<char>)
    ensures
        known_category(a) <==> exit_code_of(a) != 1,
        known_category(a) ==> 20 <= exit_code_of(a) <= 28,
        known_category(a) && known_category(b) && exit_code_of(a) == exit_code_of(b) ==> a == b,
{
}

/// A message is always classified into one of the known categories or into
/// `unknown`, and only `unknown` exits with the generic code 1.
pub proof fn classification_is_total(message: Seq<char>)
    ensures
        known_category(category_of(message)) || category_of(message) == "unknown"@,
        exit_code_of(category_of(message)) == 1 <==> category_of(message) == "unknown"@,
        known_category(category_of(message)) <==> category_of(message) != "unknown"@,
{
    reveal_strlit("unknown");
    reveal_strlit("authentication");
    reveal_strlit("authorization");
    reveal_strlit("quota");
    reveal_strlit("policy");
    reveal_strlit("capability");
    reveal_strlit("connectivity");
    reveal_strlit("environment");
    reveal_strlit("program");
    reveal_strlit("active_process");
    assert("unknown"@[0] == 'u');
    assert("authentication"@[0] == 'a');
    assert("authorization"@[0] == 'a');
    assert("quota"@[0] == 'q');
    assert("policy"@[0] == 'p');
    assert("capability"@[0] == 'c');
    assert("connectivity"@[0] == 'c');
    assert("environment"@[0] == 'e');
    assert("program"@[0] == 'p');
    assert("active_process"@[0] == 'a');
}

/// Every category comes with at least one suggested next action.
pub proof fn next_actions_never_empty(category: Seq<char>)
    ensures
        next_actions_of(category).len() >= 2,
{
}

proof fn lemma_category_exit_codes()
    ensures
        exit_code_of("authentication"@) == 20,
        exit_code_of("authorization"@) == 21,
        exit_code_of("quota"@) == 22,
        exit_code_of("policy"@) == 23,
        exit_code_of("capability"@) == 24,
        exit_code_of("connectivity"@) == 25,
        exit_code_of("environment"@) == 26,
        exit_code_of("program"@) == 27,
        exit_code_of("active_process"@) == 28,
        exit_code_of("unknown"@) == 1,
{
    reveal_strlit("unknown");
    reveal_strlit("authentication");
    reveal_strlit("authorization");
    reveal_strlit("quota");
    reveal_strlit("policy");
    reveal_strlit("capability");
    reveal_strlit("connectivity");
    reveal_strlit("environment");
    reveal_strlit("program");
    reveal_strlit("active_process");
    assert("authentication"@[5] != "authorization"@[5]);
    assert("capability"@[1] != "connectivity"@[1]);
    assert("policy"@[1] != "program"@[1]);
    assert("quota"@[0] == 'q' && "authentication"@[0] == 'a' && "authorization"@[0] == 'a');
    assert("policy"@[0] == 'p' && "capability"@[0] == 'c' && "connectivity"@[0] == 'c');
    assert("environment"@[0] == 'e' && "program"@[0] == 'p' && "unknown"@[0] == 'u');
    assert("active_process"@[1] == 'c' && "authentication"@[1] == 'u'
        && "authorization"@[1] == 'u');
}

/// A message whose lowercased text contains one of `unauthorized`, `not authorized`, `forbidden`, `permission`, `tenant mismatch`, `project mismatch` is
/// classified `authorization`, with exit code 21, unless an earlier rule
/// (an active process, a locality failure, capability, quota, policy, authentication) already applies.
pub proof fn authorization_markers_classify_as_authorization(message: Seq<char>, marker: Seq<char>)
    requires
        marker == "unauthorized"@ || marker == "not authorized"@ || marker == "forbidden"@ || marker == "permission"@ || marker == "tenant mismatch"@ || marker == "project mismatch"@,
        contains_seq(lower_seq(message), marker),
        ({ let m = lower_seq(message); !(contains_seq(m, "already has active virtual process"@) || contains_seq(m, "active process"@)) }),
        ({ let m = lower_seq(message); !locality_failure(m) }),
        ({ let m = lower_seq(message); !mentions_capability(m) }),
        ({ let m = lower_seq(message); !mentions_quota(m) }),
        ({ let m = lower_seq(message); !mentions_policy(m) }),
        ({ let m = lower_seq(message); !mentions_authentication(m) }),
    ensures
        category_of(message) == "authorization"@,
        exit_code_of(category_of(message)) == 21,
{
    lemma_category_exit_codes();
}

/// A message whose lowercased text contains one of `unauthenticated`, `not authenticated`, `login required`, `browser login required`, `missing session`, `no cli session`, `session credential has expired`, `session credential has been revoked`, `401` is
/// classified `authentication`, with exit code 20, unless an earlier rule
/// (an active process, a locality failure, capability, quota, policy) already applies.
pub proof fn authentication_markers_classify_as_authentication(message: Seq<char>, marker: Seq<char>)
    requires
        marker == "unauthenticated"@ || marker == "not authenticated"@ || marker == "login required"@ || marker == "browser login required"@ || marker == "missing session"@ || marker == "no cli session"@ || marker == "session credential has expired"@ || marker == "session credential has been revoked"@ || marker == "401"@,
        contains_seq(lower_seq(message), marker),
        ({ let m = lower_seq(message); !(contains_seq(m, "already has active virtual process"@) || contains_seq(m, "active process"@)) }),
        ({ let m = lower_seq(message); !locality_failure(m) }),
        ({ let m = lower_seq(message); !mentions_capability(m) }),
        ({ let m = lower_seq(message); !mentions_quota(m) }),
        ({ let m = lower_seq(message); !mentions_policy(m) }),
    ensures
        category_of(message) == "authentication"@,
        exit_code_of(category_of(message)) == 20,
{
    lemma_category_exit_codes();
}

/// A message whose lowercased text contains one of `policy`, `disallowed`, `not allowed`, `suspended`, `blocked by`, `denied` is
/// classified `policy`, with exit code 23, unless an earlier rule
/// (an active process, a locality failure, capability, quota) already applies.
pub proof fn policy_markers_classify_as_policy(message: Seq<char>, marker: Seq<char>)
    requires
        marker == "policy"@ || marker == "disallowed"@ || marker == "not allowed"@ || marker == "suspended"@ || marker == "blocked by"@ || marker == "denied"@,
        contains_seq(lower_seq(message), marker),
        ({ let m = lower_seq(message); !(contains_seq(m, "already has active virtual process"@) || contains_seq(m, "active process"@)) }),
        ({ let m = lower_seq(message); !locality_failure(m) }),
        ({ let m = lower_seq(message); !mentions_capability(m) }),
        ({ let m = lower_seq(message); !mentions_quota(m) }),
    ensures
        category_of(message) == "policy"@,
        exit_code_of(category_of(message)) == 23,
{
    lemma_category_exit_codes();
}

/// A message whose lowercased text contains one of `quota`, `resource limit`, `limit exceeded`, `metering` is
/// classified `quota`, with exit code 22, unless an earlier rule
/// (an active process, a locality failure, capability) already applies.
pub proof fn quota_markers_classify_as_quota(message: Seq<char>, marker: Seq<char>)
    requires
        marker == "quota"@ || marker == "resource limit"@ || marker == "limit exceeded"@ || marker == "metering"@,
        contains_seq(lower_seq(message), marker),
        ({ let m = lower_seq(message); !(contains_seq(m, "already has active virtual process"@) || contains_seq(m, "active process"@)) }),
        ({ let m = lower_seq(message); !locality_failure(m) }),
        ({ let m = lower_seq(message); !mentions_capability(m) }),
    ensures
        category_of(message) == "quota"@,
        exit_code_of(category_of(message)) == 22,
{
    lemma_category_exit_codes();
}

/// A message whose lowercased text contains one of `no capable node`, `missing capability`, `capability`, `placement failed`, `cmd.run`, `node required` is
/// classified `capability`, with exit code 24, unless an earlier rule
/// (an active process, a locality failure) already applies.
pub proof fn capability_markers_classify_as_capability(message: Seq<char>, marker: Seq<char>)
    requires
        marker == "no capable node"@ || marker == "missing capability"@ || marker == "capability"@ || marker == "placement failed"@ || marker == "cmd.run"@ || marker == "node required"@,
        contains_seq(lower_seq(message), marker),
        ({ let m = lower_seq(message); !(contains_seq(m, "already has active virtual process"@) || contains_seq(m, "active process"@)) }),
        ({ let m = lower_seq(message); !locality_failure(m) }),
    ensures
        category_of(message) == "capability"@,
        exit_code_of(category_of(message)) == 24,
{
    lemma_category_exit_codes();
}

/// A message whose lowercased text contains one of `failed to connect`, `connection refused`, `closed session`, `timed out`, `timeout`, `name resolution`, `network unreachable`, `dns` is
/// classified `connectivity`, with exit code 25, unless an earlier rule
/// (an active process, a locality failure, capability, quota, policy, authentication, authorization) already applies.
pub proof fn connectivity_markers_classify_as_connectivity(message: Seq<char>, marker: Seq<char>)
    requires
        marker == "failed to connect"@ || marker == "connection refused"@ || marker == "closed session"@ || marker == "timed out"@ || marker == "timeout"@ || marker == "name resolution"@ || marker == "network unreachable"@ || marker == "dns"@,
        contains_seq(lower_seq(message), marker),
        ({ let m = lower_seq(message); !(contains_seq(m, "already has active virtual process"@) || contains_seq(m, "active process"@)) }),
        ({ let m = lower_seq(message); !locality_failure(m) }),
        ({ let m = lower_seq(message); !mentions_capability(m) }),
        ({ let m = lower_seq(message); !mentions_quota(m) }),
        ({ let m = lower_seq(message); !mentions_policy(m) }),
        ({ let m = lower_seq(message); !mentions_authentication(m) }),
        ({ let m = lower_seq(message); !mentions_authorization(m) }),
    ensures
        category_of(message) == "connectivity"@,
        exit_code_of(category_of(message)) == 25,
{
    lemma_category_exit_codes();
}

/// A message whose lowercased text contains one of `missing environment`, `environment mismatch`, `incompatible environment`, `containerfile`, `dockerfile`, `envs/` is
/// classified `environment`, with exit code 26, unless an earlier rule
/// (an active process, a locality failure, capability, quota, policy, authentication, authorization, connectivity) already applies.
pub proof fn environment_markers_classify_as_environment(message: Seq<char>, marker: Seq<char>)
    requires
        marker == "missing environment"@ || marker == "environment mismatch"@ || marker == "incompatible environment"@ || marker == "containerfile"@ || marker == "dockerfile"@ || marker == "envs/"@,
        contains_seq(lower_seq(message), marker),
        ({ let m = lower_seq(message); !(contains_seq(m, "already has active virtual process"@) || contains_seq(m, "active process"@)) }),
        ({ let m = lower_seq(message); !locality_failure(m) }),
        ({ let m = lower_seq(message); !mentions_capability(m) }),
        ({ let m = lower_seq(message); !mentions_quota(m) }),
        ({ let m = lower_seq(message); !mentions_policy(m) }),
        ({ let m = lower_seq(message); !mentions_authentication(m) }),
        ({ let m = lower_seq(message); !mentions_authorization(m) }),
        ({ let m = lower_seq(message); !mentions_connectivity(m) }),
    ensures
        category_of(message) == "environment"@,
        exit_code_of(category_of(message)) == 26,
{
    lemma_category_exit_codes();
}

/// A message whose lowercased text contains one of `task exited`, `exit status`, `status code`, `stderr`, `panic`, `program error`, `command failed` is
/// classified `program`, with exit code 27, unless an earlier rule
/// (an active process, a locality failure, capability, quota, policy, authentication, authorization, connectivity, environment) already applies.
pub proof fn program_markers_classify_as_program(message: Seq<char>, marker: Seq<char>)
    requires
        marker == "task exited"@ || marker == "exit status"@ || marker == "status code"@ || marker == "stderr"@ || marker == "panic"@ || marker == "program error"@ || marker == "command failed"@,
        contains_seq(lower_seq(message), marker),
        ({ let m = lower_seq(message); !(contains_seq(m, "already has active virtual process"@) || contains_seq(m, "active process"@)) }),
        ({ let m = lower_seq(message); !locality_failure(m) }),
        ({ let m = lower_seq(message); !mentions_capability(m) }),
        ({ let m = lower_seq(message); !mentions_quota(m) }),
        ({ let m = lower_seq(message); !mentions_policy(m) }),
        ({ let m = lower_seq(message); !mentions_authentication(m) }),
        ({ let m = lower_seq(message); !mentions_authorization(m) }),
        ({ let m = lower_seq(message); !mentions_connectivity(m) }),
        ({ let m = lower_seq(message); !mentions_environment(m) }),
    ensures
        category_of(message) == "program"@,
        exit_code_of(category_of(message)) == 27,
{
    lemma_category_exit_codes();
}

/// A message that matches no rule is classified `unknown` and exits with
/// the generic code 1; a classified message never does.
pub proof fn unmatched_messages_are_unknown(message: Seq<char>)
    ensures
        ({
            let m = lower_seq(message);
            !(contains_seq(m, "already has active virtual process"@) || contains_seq(m, "active process"@))
                && !locality_failure(m) && !mentions_capability(m) && !mentions_quota(m)
                && !mentions_policy(m) && !mentions_authentication(m) && !mentions_authorization(m)
                && !mentions_connectivity(m) && !mentions_environment(m) && !mentions_program(m)
        }) <==> category_of(message) == "unknown"@,
{
    reveal_strlit("unknown");
    reveal_strlit("authentication");
    reveal_strlit("authorization");
    reveal_strlit("quota");
    reveal_strlit("policy");
    reveal_strlit("capability");
    reveal_strlit("connectivity");
    reveal_strlit("environment");
    reveal_strlit("program");
    reveal_strlit("active_process");
    assert("unknown"@[0] == 'u');
    assert("authentication"@[0] == 'a');
    assert("authorization"@[0] == 'a');
    assert("quota"@[0] == 'q');
    assert("policy"@[0] == 'p');
    assert("capability"@[0] == 'c');
    assert("connectivity"@[0] == 'c');
    assert("environment"@[0] == 'e');
    assert("program"@[0] == 'p');
    assert("active_process"@[0] == 'a');
}

/// In every error summary the retry hint and the exit code agree: a retry
/// after a user action can succeed exactly when the exit code is not the
/// generic 1; quota details come exactly with the quota exit code 22; and
/// the summary is always a safe failure carrying its own message.
pub proof fn summaries_agree_with_their_exit_code(
    s: CliErrorSummary,
    category: Seq<char>,
    message: Seq<char>,
)
    requires
        summary_matches(s, category, message),
    ensures
        s.retryable_after_user_action <==> s.stable_exit_code != 1,
        s.quota is Some <==> s.stable_exit_code == 22,
        s.safe_failure,
        !s.process_exit_code_applied,
        s.message@ == message,
        s.next_actions@.len() >= 2,
{
    lemma_category_exit_codes();
    next_actions_never_empty(category);
    assert(s.next_actions@.len() == str_views(s.next_actions@).len());
}


/// A message whose lowercased text contains none of the markers
/// `resource limit exceeded for `, `quota unavailable for `,
/// `quota exceeded for `, `limit exceeded for `, `metering limit exceeded for `,
/// `quota limit for `, `resource category `, `resource=`, `resource:` names no
/// quota resource.
pub proof fn messages_without_quota_markers_name_no_resource(message: Seq<char>)
    requires
        !contains_seq(lower_seq(message), "resource limit exceeded for "@),
        !contains_seq(lower_seq(message), "quota unavailable for "@),
        !contains_seq(lower_seq(message), "quota exceeded for "@),
        !contains_seq(lower_seq(message), "limit exceeded for "@),
        !contains_seq(lower_seq(message), "metering limit exceeded for "@),
        !contains_seq(lower_seq(message), "quota limit for "@),
        !contains_seq(lower_seq(message), "resource category "@),
        !contains_seq(lower_seq(message), "resource="@),
        !contains_seq(lower_seq(message), "resource:"@),
    ensures
        quota_resource_of(message) == None::<Seq<char>>,
{
    assert forall|j: int| 0 <= j < quota_markers().len() implies !contains_seq(
        lower_seq(message),
        #[trigger] quota_markers()[j],
    ) by {
        if j == 0 {
        } else if j == 1 {
        } else if j == 2 {
        } else if j == 3 {
        } else if j == 4 {
        } else if j == 5 {
        } else if j == 6 {
        } else if j == 7 {
        } else {
        }
    }
    lemma_no_marker_no_resource(message, 0);
}

/// A quota resource, when one is named, is a non-empty piece of the message
/// exactly as written (case kept), made only of ASCII letters, digits, `_`,
/// `-`, `.` and `:`, and it neither starts nor ends with `.`, `:` or `,`.
pub proof fn quota_resources_are_clean_names(message: Seq<char>)
    ensures
        quota_resource_of(message) matches Some(n) ==> {
            &&& n.len() > 0
            &&& exists|j: int| occurs_at(message, n, j)
            &&& forall|q: int|
                0 <= q < n.len() ==> {
                    let c = #[trigger] n[q];
                    ('a' <= c && c <= 'z') || ('A' <= c && c <= 'Z') || ('0' <= c && c <= '9')
                        || c == '_' || c == '-' || c == '.' || c == ':'
                }
            &&& n[0] != '.' && n[0] != ':' && n[0] != ','
            &&& n[n.len() - 1] != '.' && n[n.len() - 1] != ':' && n[n.len() - 1] != ','
        },
{
    lemma_quota_resource_shape(message, 0);
}

proof fn lemma_quota_markers_skipped(message: Seq<char>, j: nat, k: nat)
    requires
        j <= k < quota_markers().len(),
        forall|l: int|
            j <= l < k ==> (first_occurrence(lower_seq(message), #[trigger] quota_markers()[l]) matches Some(i)
                ==> resource_name_at(message, i + quota_markers()[l].len()).len() == 0),
    ensures
        quota_resource_from(message, j) == quota_resource_from(message, k),
    decreases k - j,
{
    if j < k {
        let marker = quota_markers()[j as int];
        lemma_quota_step(message, j, first_occurrence(lower_seq(message), marker));
        lemma_quota_markers_skipped(message, j + 1, k);
    }
}

/// The markers are tried in the order `resource limit exceeded for `,
/// `quota unavailable for `, `quota exceeded for `, `limit exceeded for `,
/// `metering limit exceeded for `, `quota limit for `, `resource category `,
/// `resource=`, `resource:`: the resource is the name after the first
/// occurrence of the first marker in that order that is followed by a
/// non-empty name.
pub proof fn quota_resource_follows_the_first_named_marker(message: Seq<char>, k: int)
    requires
        0 <= k < 9,
        ({
            let markers = seq![
                "resource limit exceeded for "@,
                "quota unavailable for "@,
                "quota exceeded for "@,
                "limit exceeded for "@,
                "metering limit exceeded for "@,
                "quota limit for "@,
                "resource category "@,
                "resource="@,
                "resource:"@,
            ];
            &&& first_occurrence(lower_seq(message), markers[k]) matches Some(i)
                && resource_name_at(message, i + markers[k].len()).len() > 0
            &&& forall|l: int|
                0 <= l < k ==> (first_occurrence(lower_seq(message), #[trigger] markers[l]) matches Some(i)
                    ==> resource_name_at(message, i + markers[l].len()).len() == 0)
        }),
    ensures
        ({
            let markers = seq![
                "resource limit exceeded for "@,
                "quota unavailable for "@,
                "quota exceeded for "@,
                "limit exceeded for "@,
                "metering limit exceeded for "@,
                "quota limit for "@,
                "resource category "@,
                "resource="@,
                "resource:"@,
            ];
            quota_resource_of(message) == match first_occurrence(lower_seq(message), markers[k]) {
                Some(i) => Some(resource_name_at(message, i + markers[k].len())),
                None => None,
            }
        }),
{
    let markers = seq![
        "resource limit exceeded for "@,
        "quota unavailable for "@,
        "quota exceeded for "@,
        "limit exceeded for "@,
        "metering limit exceeded for "@,
        "quota limit for "@,
        "resource category "@,
        "resource="@,
        "resource:"@,
    ];
    assert(markers =~= quota_markers());
    lemma_quota_markers_skipped(message, 0, k as nat);
    lemma_quota_step(message, k as nat, first_occurrence(lower_seq(message), markers[k]));
}

} // verus!
