use clusterflux::errors::{
    classify_cli_error_message, cli_error_exit_code, cli_error_next_actions,
    cli_error_retryable_after_user_action, cli_error_summary, cli_error_summary_with_default,
    message_mentions_locality_failure, quota_error_resource_category,
};

#[test]
fn messages_are_classified_by_the_first_matching_rule() {
    assert_eq!(classify_cli_error_message("Project already has active virtual process vp-1"), "active_process");
    assert_eq!(classify_cli_error_message("Direct connectivity unavailable between nodes"), "connectivity");
    assert_eq!(classify_cli_error_message("no capable node for task"), "capability");
    assert_eq!(classify_cli_error_message("Quota exceeded for cpu_seconds"), "quota");
    assert_eq!(classify_cli_error_message("tenant is suspended"), "policy");
    assert_eq!(classify_cli_error_message("HTTP 401 from coordinator"), "authentication");
    assert_eq!(classify_cli_error_message("Forbidden"), "authorization");
    assert_eq!(classify_cli_error_message("connection refused"), "connectivity");
    assert_eq!(classify_cli_error_message("missing environment linux"), "environment");
    assert_eq!(classify_cli_error_message("task exited with exit status 3"), "program");
    assert_eq!(classify_cli_error_message("something odd"), "unknown");
    // Policy is checked before authentication.
    assert_eq!(classify_cli_error_message("login required by policy"), "policy");
}

#[test]
fn locality_failures_need_all_parts_of_the_artifact_rule() {
    assert!(message_mentions_locality_failure("required artifact unavailable without direct connectivity"));
    assert!(!message_mentions_locality_failure("required artifact unavailable"));
    assert!(message_mentions_locality_failure("locality assumption broken"));
}

#[test]
fn exit_codes_and_retry_hints_follow_the_category() {
    assert_eq!(cli_error_exit_code("authentication"), 20);
    assert_eq!(cli_error_exit_code("active_process"), 28);
    assert_eq!(cli_error_exit_code("unknown"), 1);
    assert!(cli_error_retryable_after_user_action("program"));
    assert!(!cli_error_retryable_after_user_action("unknown"));
    assert_eq!(
        cli_error_next_actions("authentication"),
        vec!["clusterflux login --browser", "clusterflux auth status"]
    );
    assert_eq!(cli_error_next_actions("whatever").len(), 2);
    assert_eq!(cli_error_next_actions("active_process").len(), 7);
}

#[test]
fn quota_resources_are_read_after_markers() {
    assert_eq!(
        quota_error_resource_category("Quota exceeded for cpu_seconds."),
        Some("cpu_seconds".to_owned())
    );
    assert_eq!(
        quota_error_resource_category("metering: resource=  storage.bytes, retry later"),
        Some("storage.bytes".to_owned())
    );
    assert_eq!(quota_error_resource_category("quota exceeded for ..."), None);
    assert_eq!(quota_error_resource_category("no markers here"), None);
    // The case of the resource name is kept.
    assert_eq!(
        quota_error_resource_category("RESOURCE LIMIT EXCEEDED FOR GpuHours:"),
        Some("GpuHours".to_owned())
    );
}

#[test]
fn summaries_carry_quota_details() {
    let summary = cli_error_summary("Quota exceeded for cpu_seconds");
    assert_eq!(summary.category, "quota");
    assert_eq!(summary.stable_exit_code, 22);
    assert!(summary.retryable_after_user_action);
    assert!(summary.safe_failure);
    assert!(!summary.process_exit_code_applied);
    let quota = summary.quota.expect("quota details");
    assert_eq!(quota.resource_category, "cpu_seconds");
    assert_eq!(quota.community_tier_label, "community tier");

    let unknown_quota = cli_error_summary("quota gone");
    assert_eq!(unknown_quota.quota.expect("details").resource_category, "unknown");

    let fallback = cli_error_summary_with_default("weird", "program");
    assert_eq!(fallback.category, "program");
    assert_eq!(fallback.stable_exit_code, 27);
    assert!(fallback.quota.is_none());
    let kept = cli_error_summary_with_default("timed out", "program");
    assert_eq!(kept.category, "connectivity");
}
