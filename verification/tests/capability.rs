use clusterflux::capability::{
    rootless_podman_probe_step, rootless_podman_probe_succeeded, valid_capability_label,
    valid_source_provider_id, BackendSet, Capability, CapabilityReportError, CapabilitySet,
    EnvironmentBackend, NodeCapabilities, NodeWorkPolicy, Os, PodmanProbeAction,
    PodmanProbeOutcome, SystemBundleCapability, SystemTaskSandbox,
};
use clusterflux::digest::Digest;
use clusterflux::sets::StringSet;

fn capabilities() -> NodeCapabilities {
    NodeCapabilities {
        os: Os::Linux,
        arch: "x86_64".to_owned(),
        capabilities: CapabilitySet::from_values(vec![Capability::Command]),
        environment_backends: BackendSet::new(),
        source_providers: StringSet::from_strings(vec!["filesystem".to_owned(), "git".to_owned()]),
        work_policy: NodeWorkPolicy::Normal,
        system_bundles: Vec::new(),
    }
}

fn bundle(id: &str) -> SystemBundleCapability {
    SystemBundleCapability {
        bundle_id: id.to_owned(),
        bundle_digest: Digest::sha256(id.as_bytes()),
        sdk_abi_version: 1,
        wasm_target: "wasm32-unknown-unknown".to_owned(),
        rust_toolchain: "1.80.0".to_owned(),
        environment_digest: Digest::sha256(b"env"),
        sandbox: SystemTaskSandbox::RootlessPodman,
        max_source_bytes: 1024,
        max_output_bytes: 1024,
        max_concurrent_assignments: 1,
    }
}

#[test]
fn capability_reports_validate_hostile_strings() {
    assert!(capabilities().validate_public_report().is_ok());

    let mut invalid_arch = capabilities();
    invalid_arch.arch = "x86_64\nmalicious".to_owned();
    assert_eq!(
        invalid_arch.validate_public_report(),
        Err(CapabilityReportError::InvalidArchitecture(
            "x86_64\nmalicious".to_owned()
        ))
    );

    let mut invalid_provider = capabilities();
    invalid_provider
        .source_providers
        .insert("../checkout".to_owned());
    assert_eq!(
        invalid_provider.validate_public_report(),
        Err(CapabilityReportError::InvalidSourceProvider(
            "../checkout".to_owned()
        ))
    );
}

#[test]
fn first_invalid_provider_in_sorted_order_is_reported() {
    let mut report = capabilities();
    report.source_providers.insert("Zeta".to_owned());
    report.source_providers.insert("../checkout".to_owned());
    // "../checkout" sorts before "Zeta", which sorts before "filesystem".
    assert_eq!(
        report.validate_public_report(),
        Err(CapabilityReportError::InvalidSourceProvider(
            "../checkout".to_owned()
        ))
    );
}

#[test]
fn invalid_os_label_is_reported() {
    let mut report = capabilities();
    report.os = Os::Other("bad os".to_owned());
    assert_eq!(
        report.validate_public_report(),
        Err(CapabilityReportError::InvalidOsLabel("bad os".to_owned()))
    );
    report.os = Os::Other("freebsd".to_owned());
    assert!(report.validate_public_report().is_ok());
}

#[test]
fn system_bundles_are_checked_for_limits_and_duplicates() {
    let mut report = capabilities();
    report.system_bundles.push(bundle("compiler"));
    assert!(report.validate_public_report().is_ok());

    let mut zero_limit = bundle("other");
    zero_limit.max_output_bytes = 0;
    let mut with_zero = capabilities();
    with_zero.system_bundles.push(zero_limit);
    assert_eq!(
        with_zero.validate_public_report(),
        Err(CapabilityReportError::InvalidSystemBundle(
            "metadata or limits are invalid".to_owned()
        ))
    );

    let mut blank_toolchain = bundle("other");
    blank_toolchain.rust_toolchain = " \t".to_owned();
    let mut with_blank = capabilities();
    with_blank.system_bundles.push(blank_toolchain);
    assert!(with_blank.validate_public_report().is_err());

    let mut bad_digest = bundle("other");
    bad_digest.bundle_digest = Digest::from_text("sha256:XYZ".to_owned());
    let mut with_bad_digest = capabilities();
    with_bad_digest.system_bundles.push(bad_digest);
    assert!(with_bad_digest.validate_public_report().is_err());

    let mut duplicated = capabilities();
    duplicated.system_bundles.push(bundle("compiler"));
    duplicated.system_bundles.push(bundle("compiler"));
    assert_eq!(
        duplicated.validate_public_report(),
        Err(CapabilityReportError::InvalidSystemBundle(
            "duplicate system bundle identity".to_owned()
        ))
    );
    assert_eq!(
        CapabilityReportError::InvalidSystemBundle("duplicate system bundle identity".to_owned())
            .message(),
        "system bundle capability is invalid: duplicate system bundle identity"
    );
}

#[test]
fn labels_follow_their_alphabets() {
    assert!(valid_capability_label("x86_64"));
    assert!(valid_capability_label("Aarch64.v8-a"));
    assert!(!valid_capability_label(""));
    assert!(!valid_capability_label(&"a".repeat(65)));
    assert!(valid_capability_label(&"a".repeat(64)));
    assert!(!valid_capability_label("arm\u{e9}"));
    assert!(valid_source_provider_id("git"));
    assert!(!valid_source_provider_id("Git"));
    assert!(!valid_source_provider_id("../checkout"));
}

#[test]
fn with_capability_adds_once_and_keeps_validation() {
    let report = capabilities();
    let mut required = CapabilitySet::new();
    required.insert(Capability::Network);
    assert!(!report.has_all(&required));
    let report = report.with_capability(Capability::Network);
    assert!(report.has_all(&required));
    let report = report.with_capability(Capability::Network);
    assert_eq!(report.capabilities.elements(), vec![Capability::Command, Capability::Network]);
    assert!(report.validate_public_report().is_ok());
}

#[test]
fn detected_linux_node_with_podman() {
    let report = NodeCapabilities::detected(Os::Linux, "x86_64".to_owned(), true);
    assert_eq!(
        report.capabilities.elements(),
        vec![
            Capability::Command,
            Capability::Containers,
            Capability::RootlessPodman,
            Capability::SourceFilesystem,
            Capability::SourceGit,
            Capability::VfsArtifacts,
            Capability::ArtifactTransfer,
        ]
    );
    assert_eq!(report.environment_backends.elements(), vec![EnvironmentBackend::Container]);
    assert_eq!(report.source_providers.len(), 2);
    assert_eq!(report.source_providers.get(0), "filesystem");
    assert_eq!(report.source_providers.get(1), "git");
    assert!(report.validate_public_report().is_ok());

    let windows = NodeCapabilities::detected(Os::Windows, "x86_64".to_owned(), false);
    assert!(windows.capabilities.contains(Capability::WindowsCommandDev));
    assert_eq!(windows.environment_backends.elements(), vec![EnvironmentBackend::WindowsCommandDev]);

    let mac = NodeCapabilities::detected(Os::Macos, "aarch64".to_owned(), true);
    assert_eq!(mac.capabilities.len(), 5);
    assert_eq!(mac.environment_backends.len(), 0);
}

#[test]
fn os_labels_map_to_platforms() {
    assert_eq!(Os::from_label("linux"), Os::Linux);
    assert_eq!(Os::from_label("windows"), Os::Windows);
    assert_eq!(Os::from_label("macos"), Os::Macos);
    assert_eq!(Os::from_label("freebsd"), Os::Other("freebsd".to_owned()));
}

#[test]
fn podman_probe_retries_inconclusive_attempts() {
    assert_eq!(rootless_podman_probe_step(0, PodmanProbeOutcome::Rootless), PodmanProbeAction::Available);
    assert_eq!(rootless_podman_probe_step(0, PodmanProbeOutcome::NotInstalled), PodmanProbeAction::Unavailable);
    assert_eq!(rootless_podman_probe_step(0, PodmanProbeOutcome::Inconclusive), PodmanProbeAction::RetryAfterPause);
    assert_eq!(rootless_podman_probe_step(1, PodmanProbeOutcome::Inconclusive), PodmanProbeAction::RetryAfterPause);
    assert_eq!(rootless_podman_probe_step(2, PodmanProbeOutcome::Inconclusive), PodmanProbeAction::Unavailable);
    assert!(rootless_podman_probe_succeeded(true, " true\n"));
    assert!(!rootless_podman_probe_succeeded(false, "true"));
    assert!(!rootless_podman_probe_succeeded(true, "false\n"));
}
