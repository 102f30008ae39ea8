//! What a node reports about itself: its platform, capabilities,
//! environment backends, source providers and system bundle profiles, and
//! the validation of such a report before it is published.
use crate::digest::{valid_sha256_text, Digest};
use crate::sets::{Ranked, RankedSet, StringSet};
use crate::text::{chars_of, is_blank, str_eq, str_is_blank, trim_both, trim_chars, whitespace_pred};
use vstd::prelude::*;

verus! {

#[derive(Clone, Copy, Debug, PartialEq, Eq, Structural, PartialOrd, Ord, Hash)]
pub enum Capability {
    Command,
    Containers,
    RootlessPodman,
    SourceFilesystem,
    SourceGit,
    HostFilesystem,
    Network,
    Secrets,
    InboundPorts,
    ArbitrarySyscalls,
    VfsArtifacts,
    ArtifactTransfer,
    WindowsCommandDev,
}

impl Ranked for Capability {
    open spec fn spec_rank(self) -> nat {
        match self {
            Capability::Command => 0,
            Capability::Containers => 1,
            Capability::RootlessPodman => 2,
            Capability::SourceFilesystem => 3,
            Capability::SourceGit => 4,
            Capability::HostFilesystem => 5,
            Capability::Network => 6,
            Capability::Secrets => 7,
            Capability::InboundPorts => 8,
            Capability::ArbitrarySyscalls => 9,
            Capability::VfsArtifacts => 10,
            Capability::ArtifactTransfer => 11,
            Capability::WindowsCommandDev => 12,
        }
    }

    proof fn rank_identifies(a: Self, b: Self) {
    }

    fn rank(&self) -> (r: u8) {
        match self {
            Capability::Command => 0,
            Capability::Containers => 1,
            Capability::RootlessPodman => 2,
            Capability::SourceFilesystem => 3,
            Capability::SourceGit => 4,
            Capability::HostFilesystem => 5,
            Capability::Network => 6,
            Capability::Secrets => 7,
            Capability::InboundPorts => 8,
            Capability::ArbitrarySyscalls => 9,
            Capability::VfsArtifacts => 10,
            Capability::ArtifactTransfer => 11,
            Capability::WindowsCommandDev => 12,
        }
    }
}

#[derive(Clone, Copy, Debug, PartialEq, Eq, Structural)]
pub enum NodeWorkPolicy {
    Normal,
    ExecutionOnly,
    SystemTasksOnly,
}

impl Default for NodeWorkPolicy {
    fn default() -> (r: Self)
        ensures
            r == NodeWorkPolicy::Normal,
    {
        NodeWorkPolicy::Normal
    }
}

#[derive(Clone, Copy, Debug, PartialEq, Eq, Structural)]
pub enum SystemTaskSandbox {
    RootlessPodman,
    Gvisor,
    DedicatedVm,
}

#[derive(Clone, Debug, PartialEq, Eq)]
pub struct SystemBundleCapability {
    pub bundle_id: String,
    pub bundle_digest: Digest,
    pub sdk_abi_version: u32,
    pub wasm_target: String,
    pub rust_toolchain: String,
    pub environment_digest: Digest,
    pub sandbox: SystemTaskSandbox,
    pub max_source_bytes: usize,
    pub max_output_bytes: usize,
    pub max_concurrent_assignments: u16,
}

#[derive(Clone, Copy, Debug, PartialEq, Eq, Structural, PartialOrd, Ord, Hash)]
pub enum EnvironmentBackend {
    Container,
    NixFlake,
    WindowsCommandDev,
}

impl Ranked for EnvironmentBackend {
    open spec fn spec_rank(self) -> nat {
        match self {
            EnvironmentBackend::Container => 0,
            EnvironmentBackend::NixFlake => 1,
            EnvironmentBackend::WindowsCommandDev => 2,
        }
    }

    proof fn rank_identifies(a: Self, b: Self) {
    }

    fn rank(&self) -> (r: u8) {
        match self {
            EnvironmentBackend::Container => 0,
            EnvironmentBackend::NixFlake => 1,
            EnvironmentBackend::WindowsCommandDev => 2,
        }
    }
}

#[derive(Clone, Debug, PartialEq, Eq, Hash)]
pub enum Os {
    Linux,
    Windows,
    Macos,
    Other(String),
}

impl Os {
    /// A second value equal to this one.
    pub fn duplicate(&self) -> (r: Os)
        ensures
            r == *self,
    {
        match self {
            Os::Linux => Os::Linux,
            Os::Windows => Os::Windows,
            Os::Macos => Os::Macos,
            Os::Other(label) => Os::Other(label.clone()),
        }
    }

    /// The platform of a Rust target OS label such as
    /// `std::env::consts::OS`.
    pub fn from_label(label: &str) -> (os: Os)
        ensures
            label@ == "linux"@ ==> os == Os::Linux,
            label@ == "windows"@ ==> os == Os::Windows,
            label@ == "macos"@ ==> os == Os::Macos,
            label@ != "linux"@ && label@ != "windows"@ && label@ != "macos"@ ==> (os matches Os::Other(
                l,
            ) && l@ == label@),
    {
        proof {
            reveal_strlit("linux");
            reveal_strlit("windows");
            reveal_strlit("macos");
            assert("linux"@[0] != "macos"@[0]);
        }
        if str_eq(label, "linux") {
            Os::Linux
        } else if str_eq(label, "windows") {
            Os::Windows
        } else if str_eq(label, "macos") {
            Os::Macos
        } else {
            Os::Other(label.to_owned())
        }
    }
}

pub type CapabilitySet = RankedSet<Capability>;

pub type BackendSet = RankedSet<EnvironmentBackend>;

pub struct NodeCapabilities {
    pub os: Os,
    pub arch: String,
    pub capabilities: CapabilitySet,
    pub environment_backends: BackendSet,
    pub source_providers: StringSet,
    pub work_policy: NodeWorkPolicy,
    pub system_bundles: Vec<SystemBundleCapability>,
}

#[derive(Clone, Debug, PartialEq, Eq)]
pub enum CapabilityReportError {
    InvalidArchitecture(String),
    InvalidOsLabel(String),
    InvalidSourceProvider(String),
    InvalidSystemBundle(String),
}

impl CapabilityReportError {
    /// The error's message.
    pub fn message(&self) -> (s: String)
        ensures
            s@ == report_error_message(self.view_verdict()),
    {
        let mut s = String::new();
        match self {
            CapabilityReportError::InvalidArchitecture(v) => {
                s.append("node architecture `");
                s.append(v.as_str());
                s.append("` is invalid");
            },
            CapabilityReportError::InvalidOsLabel(v) => {
                s.append("node OS label `");
                s.append(v.as_str());
                s.append("` is invalid");
            },
            CapabilityReportError::InvalidSourceProvider(v) => {
                s.append("source provider id `");
                s.append(v.as_str());
                s.append("` is invalid");
            },
            CapabilityReportError::InvalidSystemBundle(v) => {
                s.append("system bundle capability is invalid: ");
                s.append(v.as_str());
            },
        }
        s
    }

    pub open spec fn view_verdict(&self) -> ReportVerdict {
        match self {
            CapabilityReportError::InvalidArchitecture(v) => ReportVerdict::InvalidArchitecture(v@),
            CapabilityReportError::InvalidOsLabel(v) => ReportVerdict::InvalidOsLabel(v@),
            CapabilityReportError::InvalidSourceProvider(v) => ReportVerdict::InvalidSourceProvider(
                v@,
            ),
            CapabilityReportError::InvalidSystemBundle(v) => ReportVerdict::InvalidSystemBundle(v@),
        }
    }
}

/// The outcome of validating a report, over plain values.
pub enum ReportVerdict {
    Valid,
    InvalidArchitecture(Seq<char>),
    InvalidOsLabel(Seq<char>),
    InvalidSourceProvider(Seq<char>),
    InvalidSystemBundle(Seq<char>),
}

pub open spec fn report_error_message(v: ReportVerdict) -> Seq<char> {
    match v {
        ReportVerdict::InvalidArchitecture(s) => "node architecture `"@ + s + "` is invalid"@,
        ReportVerdict::InvalidOsLabel(s) => "node OS label `"@ + s + "` is invalid"@,
        ReportVerdict::InvalidSourceProvider(s) => "source provider id `"@ + s + "` is invalid"@,
        ReportVerdict::InvalidSystemBundle(s) => "system bundle capability is invalid: "@ + s,
        ReportVerdict::Valid => Seq::empty(),
    }
}

pub open spec fn verdict_of(r: Result<(), CapabilityReportError>) -> ReportVerdict {
    match r {
        Ok(()) => ReportVerdict::Valid,
        Err(e) => e.view_verdict(),
    }
}

// ---------------------------------------------------------------------
// Label rules
// ---------------------------------------------------------------------

pub open spec fn is_label_char(c: char) -> bool {
    ('a' <= c && c <= 'z') || ('A' <= c && c <= 'Z') || ('0' <= c && c <= '9') || c == '-' || c
        == '_' || c == '.'
}

pub open spec fn is_provider_char(c: char) -> bool {
    ('a' <= c && c <= 'z') || ('0' <= c && c <= '9') || c == '-' || c == '_' || c == '.'
}

/// A non-empty label of at most 64 ASCII letters, digits, `-`, `_` and `.`.
/// (Every such character is one byte, so the limit is the same in bytes.)
pub open spec fn valid_label(s: Seq<char>) -> bool {
    0 < s.len() <= 64 && forall|i: int| 0 <= i < s.len() ==> is_label_char(#[trigger] s[i])
}

/// Like a label, but without capital letters.
pub open spec fn valid_provider_id(s: Seq<char>) -> bool {
    0 < s.len() <= 64 && forall|i: int| 0 <= i < s.len() ==> is_provider_char(#[trigger] s[i])
}

fn is_label_char_exec(c: char) -> (r: bool)
    ensures
        r == is_label_char(c),
{
    ('a' <= c && c <= 'z') || ('A' <= c && c <= 'Z') || ('0' <= c && c <= '9') || c == '-' || c
        == '_' || c == '.'
}

fn is_provider_char_exec(c: char) -> (r: bool)
    ensures
        r == is_provider_char(c),
{
    ('a' <= c && c <= 'z') || ('0' <= c && c <= '9') || c == '-' || c == '_' || c == '.'
}

/// Whether `label` may stand in a public report as an architecture, OS or
/// bundle name.
pub fn valid_capability_label(label: &str) -> (r: bool)
    ensures
        r == valid_label(label@),
{
    let cs = chars_of(label);
    if cs.len() == 0 || cs.len() > 64 {
        return false;
    }
    for i in 0..cs.len()
        invariant
            cs@ == label@,
            forall|k: int| 0 <= k < i ==> is_label_char(#[trigger] cs@[k]),
    {
        if !is_label_char_exec(cs[i]) {
            return false;
        }
    }
    true
}

/// Whether `provider` may stand in a public report as a source provider id.
pub fn valid_source_provider_id(provider: &str) -> (r: bool)
    ensures
        r == valid_provider_id(provider@),
{
    let cs = chars_of(provider);
    if cs.len() == 0 || cs.len() > 64 {
        return false;
    }
    for i in 0..cs.len()
        invariant
            cs@ == provider@,
            forall|k: int| 0 <= k < i ==> is_provider_char(#[trigger] cs@[k]),
    {
        if !is_provider_char_exec(cs[i]) {
            return false;
        }
    }
    true
}

// ---------------------------------------------------------------------
// Report validation
// ---------------------------------------------------------------------

/// The first provider id, in set order, that is not valid.
pub open spec fn first_invalid_provider(s: Seq<Seq<char>>) -> Option<Seq<char>>
    decreases s.len(),
{
    if s.len() == 0 {
        None
    } else if !valid_provider_id(s[0]) {
        Some(s[0])
    } else {
        first_invalid_provider(s.drop_first())
    }
}

/// A system bundle profile whose metadata and limits are usable.
pub open spec fn bundle_is_valid(b: SystemBundleCapability) -> bool {
    &&& valid_label(b.bundle_id@)
    &&& valid_sha256_text(b.bundle_digest@)
    &&& b.sdk_abi_version != 0
    &&& b.wasm_target@ == "wasm32-unknown-unknown"@
    &&& !is_blank(b.rust_toolchain@)
    &&& valid_sha256_text(b.environment_digest@)
    &&& b.max_source_bytes != 0
    &&& b.max_output_bytes != 0
    &&& b.max_concurrent_assignments != 0
}

/// Two profiles name the same bundle when id and digest agree.
pub open spec fn same_bundle_identity(a: SystemBundleCapability, b: SystemBundleCapability) -> bool {
    a.bundle_id@ == b.bundle_id@ && a.bundle_digest@ == b.bundle_digest@
}

pub open spec fn has_duplicate_identity(bs: Seq<SystemBundleCapability>) -> bool {
    exists|i: int, j: int|
        0 <= i < j < bs.len() && #[trigger] same_bundle_identity(bs[i], bs[j])
}

/// The validation verdict of a report: the first rule that fails decides.
pub open spec fn report_verdict(n: NodeCapabilities) -> ReportVerdict {
    if !valid_label(n.arch@) {
        ReportVerdict::InvalidArchitecture(n.arch@)
    } else if n.os matches Os::Other(label) && !valid_label(label@) {
        ReportVerdict::InvalidOsLabel(n.os->Other_0@)
    } else if first_invalid_provider(n.source_providers@) is Some {
        ReportVerdict::InvalidSourceProvider(first_invalid_provider(n.source_providers@)->0)
    } else if exists|i: int|
        0 <= i < n.system_bundles@.len() && !bundle_is_valid(#[trigger] n.system_bundles@[i]) {
        ReportVerdict::InvalidSystemBundle("metadata or limits are invalid"@)
    } else if has_duplicate_identity(n.system_bundles@) {
        ReportVerdict::InvalidSystemBundle("duplicate system bundle identity"@)
    } else {
        ReportVerdict::Valid
    }
}

fn bundle_valid_exec(b: &SystemBundleCapability) -> (r: bool)
    ensures
        r == bundle_is_valid(*b),
{
    valid_capability_label(b.bundle_id.as_str()) && b.bundle_digest.is_valid_sha256()
        && b.sdk_abi_version != 0 && str_eq(b.wasm_target.as_str(), "wasm32-unknown-unknown")
        && !str_is_blank(b.rust_toolchain.as_str()) && b.environment_digest.is_valid_sha256()
        && b.max_source_bytes != 0 && b.max_output_bytes != 0 && b.max_concurrent_assignments != 0
}

fn has_duplicate_identity_exec(bs: &Vec<SystemBundleCapability>) -> (r: bool)
    ensures
        r == has_duplicate_identity(bs@),
{
    let n = bs.len();
    for i in 0..n
        invariant
            n == bs@.len(),
            forall|a: int, b: int| 0 <= a < i && a < b < n ==> !same_bundle_identity(bs@[a], bs@[b]),
    {
        for j in i + 1..n
            invariant
                n == bs@.len(),
                i < n,
                forall|a: int, b: int|
                    0 <= a < i && a < b < n ==> !same_bundle_identity(bs@[a], bs@[b]),
                forall|b: int| i < b < j ==> !same_bundle_identity(bs@[i as int], bs@[b]),
        {
            if str_eq(bs[i].bundle_id.as_str(), bs[j].bundle_id.as_str()) && bs[i].bundle_digest.same_as(
                &bs[j].bundle_digest,
            ) {
                assert(same_bundle_identity(bs@[i as int], bs@[j as int]));
                return true;
            }
        }
    }
    false
}

impl NodeCapabilities {
    /// The report of a node that adds `capability` to its capabilities.
    pub fn with_capability(self, capability: Capability) -> (r: Self)
        ensures
            r.capabilities@.to_set() == self.capabilities@.to_set().insert(capability),
            r.os == self.os,
            r.arch == self.arch,
            r.environment_backends == self.environment_backends,
            r.source_providers == self.source_providers,
            r.work_policy == self.work_policy,
            r.system_bundles == self.system_bundles,
    {
        let mut node = self;
        node.capabilities.insert(capability);
        node
    }

    /// Whether the node has every capability in `required`.
    pub fn has_all(&self, required: &CapabilitySet) -> (r: bool)
        ensures
            r == required@.to_set().subset_of(self.capabilities@.to_set()),
    {
        self.capabilities.contains_all(required)
    }

    /// Checks that the report may be published: its labels are safe and its
    /// system bundle profiles are usable and distinct.
    pub fn validate_public_report(&self) -> (r: Result<(), CapabilityReportError>)
        ensures
            verdict_of(r) == report_verdict(*self),
    {
        if !valid_capability_label(self.arch.as_str()) {
            return Err(CapabilityReportError::InvalidArchitecture(self.arch.clone()));
        }
        if let Os::Other(label) = &self.os {
            if !valid_capability_label(label.as_str()) {
                return Err(CapabilityReportError::InvalidOsLabel(label.clone()));
            }
        }
        let providers = &self.source_providers;
        let n = providers.len();
        assert(providers@.skip(0) =~= providers@);
        for i in 0..n
            invariant
                n == providers@.len(),
                providers@ == self.source_providers@,
                valid_label(self.arch@),
                !(self.os matches Os::Other(l) && !valid_label(l@)),
                first_invalid_provider(providers@) == first_invalid_provider(
                    providers@.skip(i as int),
                ),
        {
            let provider = providers.get(i);
            assert(providers@.skip(i as int)[0] == providers@[i as int]);
            if !valid_source_provider_id(provider.as_str()) {
                assert(first_invalid_provider(providers@.skip(i as int)) == Some(
                    providers@[i as int],
                ));

                return Err(CapabilityReportError::InvalidSourceProvider(provider.clone()));
            }
            assert(providers@.skip(i as int).drop_first() =~= providers@.skip(i + 1));
        }
        assert(first_invalid_provider(providers@.skip(n as int)) is None);
        let bundles = &self.system_bundles;
        for i in 0..bundles.len()
            invariant
                bundles@ == self.system_bundles@,
                valid_label(self.arch@),
                !(self.os matches Os::Other(l) && !valid_label(l@)),
                first_invalid_provider(self.source_providers@) is None,
                forall|k: int| 0 <= k < i ==> bundle_is_valid(#[trigger] bundles@[k]),
        {
            if !bundle_valid_exec(&bundles[i]) {
                assert(!bundle_is_valid(self.system_bundles@[i as int]));
                return Err(
                    CapabilityReportError::InvalidSystemBundle(
                        "metadata or limits are invalid".to_owned(),
                    ),
                );
            }
        }
        if has_duplicate_identity_exec(bundles) {
            return Err(
                CapabilityReportError::InvalidSystemBundle(
                    "duplicate system bundle identity".to_owned(),
                ),
            );
        }
        Ok(())
    }
}

// ---------------------------------------------------------------------
// Detection of the local node
// ---------------------------------------------------------------------

/// The capabilities that a node on `os` detects, given whether rootless
/// Podman answered the probe.
pub open spec fn detected_capabilities(os: Os, rootless_podman_available: bool) -> Set<Capability> {
    let base = set![
        Capability::Command,
        Capability::SourceFilesystem,
        Capability::SourceGit,
        Capability::VfsArtifacts,
        Capability::ArtifactTransfer,
    ];
    match os {
        Os::Linux => if rootless_podman_available {
            base.insert(Capability::Containers).insert(Capability::RootlessPodman)
        } else {
            base
        },
        Os::Windows => base.insert(Capability::WindowsCommandDev),
        _ => base,
    }
}

/// The environment backends that a node on `os` detects.
pub open spec fn detected_backends(os: Os, rootless_podman_available: bool) -> Set<
    EnvironmentBackend,
> {
    match os {
        Os::Linux => if rootless_podman_available {
            set![EnvironmentBackend::Container]
        } else {
            Set::empty()
        },
        Os::Windows => set![EnvironmentBackend::WindowsCommandDev],
        _ => Set::empty(),
    }
}

impl NodeCapabilities {
    /// The report of the local node, from its platform and the outcome of
    /// the rootless Podman probe.
    pub fn detected(os: Os, arch: String, rootless_podman_available: bool) -> (r: Self)
        ensures
            r.os == os,
            r.arch == arch,
            r.capabilities@.to_set() == detected_capabilities(os, rootless_podman_available),
            r.environment_backends@.to_set() == detected_backends(os, rootless_podman_available),
            r.source_providers@.to_set() == set!["filesystem"@, "git"@],
            r.work_policy == NodeWorkPolicy::Normal,
            r.system_bundles@.len() == 0,
    {
        let mut capabilities = RankedSet::from_values(
            vec![
                Capability::Command,
                Capability::SourceFilesystem,
                Capability::SourceGit,
                Capability::VfsArtifacts,
                Capability::ArtifactTransfer,
            ],
        );
        let ghost base = capabilities@.to_set();
        assert(base =~= set![
            Capability::Command,
            Capability::SourceFilesystem,
            Capability::SourceGit,
            Capability::VfsArtifacts,
            Capability::ArtifactTransfer,
        ]) by {
            assert(seq![
                Capability::Command,
                Capability::SourceFilesystem,
                Capability::SourceGit,
                Capability::VfsArtifacts,
                Capability::ArtifactTransfer,
            ].to_set() =~= set![
                Capability::Command,
                Capability::SourceFilesystem,
                Capability::SourceGit,
                Capability::VfsArtifacts,
                Capability::ArtifactTransfer,
            ]) by {
                broadcast use vstd::seq_lib::group_seq_properties;
            }
        }
        let mut environment_backends = RankedSet::new();
        assert(environment_backends@.to_set() =~= Set::<EnvironmentBackend>::empty());
        match &os {
            Os::Linux => {
                if rootless_podman_available {
                    capabilities.insert(Capability::Containers);
                    capabilities.insert(Capability::RootlessPodman);
                    environment_backends.insert(EnvironmentBackend::Container);
                }
            },
            Os::Windows => {
                capabilities.insert(Capability::WindowsCommandDev);
                environment_backends.insert(EnvironmentBackend::WindowsCommandDev);
            },
            _ => {},
        }
        let filesystem = "filesystem".to_owned();
        let git = "git".to_owned();
        let names = vec![filesystem, git];
        assert(crate::sets::string_views(names@) =~= seq!["filesystem"@, "git"@]);
        let source_providers = StringSet::from_strings(names);
        proof {
            let v = seq!["filesystem"@, "git"@];
            assert(v.to_set() =~= set!["filesystem"@, "git"@]) by {
                broadcast use vstd::seq_lib::group_seq_properties;
            }
        }
        NodeCapabilities {
            os,
            arch,
            capabilities,
            environment_backends,
            source_providers,
            work_policy: NodeWorkPolicy::Normal,
            system_bundles: Vec::new(),
        }
    }
}

/// What one attempt of the rootless Podman probe observed.
pub enum PodmanProbeOutcome {
    /// `podman info` ran and reported a rootless setup.
    Rootless,
    /// The `podman` program does not exist.
    NotInstalled,
    /// The program failed to run, failed, or reported something else.
    Inconclusive,
}

/// What to do after one attempt of the probe.
#[derive(Clone, Copy, Debug, PartialEq, Eq, Structural)]
pub enum PodmanProbeAction {
    Available,
    Unavailable,
    RetryAfterPause,
}

/// How many times the probe is attempted.
pub const PODMAN_PROBE_ATTEMPTS: usize = 3;

/// The decision after attempt number `attempt` (counted from 0) of the
/// rootless Podman probe.
pub fn rootless_podman_probe_step(attempt: usize, outcome: PodmanProbeOutcome) -> (r:
    PodmanProbeAction)
    ensures
        outcome is Rootless ==> r == PodmanProbeAction::Available,
        outcome is NotInstalled ==> r == PodmanProbeAction::Unavailable,
        outcome is Inconclusive ==> r == (if attempt + 1 < PODMAN_PROBE_ATTEMPTS {
            PodmanProbeAction::RetryAfterPause
        } else {
            PodmanProbeAction::Unavailable
        }),
{
    match outcome {
        PodmanProbeOutcome::Rootless => PodmanProbeAction::Available,
        PodmanProbeOutcome::NotInstalled => PodmanProbeAction::Unavailable,
        PodmanProbeOutcome::Inconclusive => {
            if attempt < PODMAN_PROBE_ATTEMPTS - 1 {
                PodmanProbeAction::RetryAfterPause
            } else {
                PodmanProbeAction::Unavailable
            }
        },
    }
}

/// Whether a finished `podman info` run reports a rootless setup: it
/// succeeded and its output, trimmed of whitespace, is `true`.
pub fn rootless_podman_probe_succeeded(status_success: bool, stdout: &str) -> (r: bool)
    ensures
        r == (status_success && trim_both(stdout@, whitespace_pred()) == "true"@),
{
    if !status_success {
        return false;
    }
    let cs = chars_of(stdout);
    let trimmed = trim_chars(&cs);
    let expected = chars_of("true");
    crate::text::chars_eq(&trimmed, &expected)
}

// ---------------------------------------------------------------------
// Laws
// ---------------------------------------------------------------------

/// Validation reads the platform labels, source providers and system
/// bundles only: two reports that agree on those get the same verdict, so
/// adding capabilities never changes whether a report is valid.
pub proof fn validation_ignores_capabilities(a: NodeCapabilities, b: NodeCapabilities)
    requires
        a.os == b.os,
        a.arch@ == b.arch@,
        a.source_providers@ == b.source_providers@,
        a.system_bundles@ == b.system_bundles@,
    ensures
        report_verdict(a) == report_verdict(b),
{
}

/// A node that has every required capability still has them after gaining
/// another one, and it always has the one it gained.
pub proof fn gaining_a_capability_keeps_requirements_met(
    capabilities: Set<Capability>,
    required: Set<Capability>,
    gained: Capability,
)
    ensures
        required.subset_of(capabilities) ==> required.subset_of(capabilities.insert(gained)),
        set![gained].subset_of(capabilities.insert(gained)),
{
}

/// Adding the same capability twice is the same as adding it once.
pub proof fn adding_a_capability_is_idempotent(capabilities: Set<Capability>, c: Capability)
    ensures
        capabilities.insert(c).insert(c) == capabilities.insert(c),
{
    assert(capabilities.insert(c).insert(c) =~= capabilities.insert(c));
}

/// A system bundle field that makes the bundle unusable: an id that is not
/// a label, a bundle or environment digest that is not `sha256:` text, ABI
/// version 0, a target other than `wasm32-unknown-unknown`, a blank
/// toolchain, or a zero source, output or concurrency limit.
pub open spec fn bundle_field_unusable(b: SystemBundleCapability) -> bool {
    ||| b.max_source_bytes == 0
    ||| b.max_output_bytes == 0
    ||| b.max_concurrent_assignments == 0
    ||| b.sdk_abi_version == 0
    ||| b.wasm_target@ != "wasm32-unknown-unknown"@
    ||| is_blank(b.rust_toolchain@)
    ||| !valid_label(b.bundle_id@)
    ||| !valid_sha256_text(b.bundle_digest@)
    ||| !valid_sha256_text(b.environment_digest@)
}

/// A report whose architecture, OS label and source providers pass is
/// refused with `metadata or limits are invalid` as soon as one of its
/// system bundles has an unusable field, such as a zero source limit.
pub proof fn unusable_bundles_are_refused(n: NodeCapabilities, i: int)
    requires
        valid_label(n.arch@),
        n.os matches Os::Other(l) ==> valid_label(l@),
        first_invalid_provider(n.source_providers@) is None,
        0 <= i < n.system_bundles@.len(),
        bundle_field_unusable(n.system_bundles@[i]),
    ensures
        report_verdict(n) == ReportVerdict::InvalidSystemBundle(
            "metadata or limits are invalid"@,
        ),
{
    assert(!bundle_is_valid(n.system_bundles@[i]));
}

/// A report whose architecture, OS label and source providers pass, whose
/// bundles all have usable fields, and in which no two bundles share id and
/// digest, is valid.
pub proof fn usable_distinct_bundles_are_valid(n: NodeCapabilities)
    requires
        valid_label(n.arch@),
        n.os matches Os::Other(l) ==> valid_label(l@),
        first_invalid_provider(n.source_providers@) is None,
        forall|i: int|
            0 <= i < n.system_bundles@.len() ==> !bundle_field_unusable(
                #[trigger] n.system_bundles@[i],
            ),
        forall|i: int, j: int|
            0 <= i < j < n.system_bundles@.len() ==> !((#[trigger] n.system_bundles@[i]).bundle_id@
                == (#[trigger] n.system_bundles@[j]).bundle_id@ && n.system_bundles@[i].bundle_digest@
                == n.system_bundles@[j].bundle_digest@),
    ensures
        report_verdict(n) == ReportVerdict::Valid,
{
    assert(!has_duplicate_identity(n.system_bundles@)) by {
        if has_duplicate_identity(n.system_bundles@) {
            let (i, j) = choose|i: int, j: int|
                0 <= i < j < n.system_bundles@.len() && #[trigger] same_bundle_identity(
                    n.system_bundles@[i],
                    n.system_bundles@[j],
                );
            assert(same_bundle_identity(n.system_bundles@[i], n.system_bundles@[j]));
        }
    }
}

/// An architecture that is empty, longer than 64 characters, or holds a
/// character other than an ASCII letter, digit, `-`, `_` or `.` (a newline,
/// a slash) is refused, naming the architecture.
pub proof fn malformed_architectures_are_refused(n: NodeCapabilities)
    requires
        n.arch@.len() == 0 || n.arch@.len() > 64 || exists|k: int|
            0 <= k < n.arch@.len() && !(('a' <= #[trigger] n.arch@[k] && n.arch@[k] <= 'z') || (
            'A' <= n.arch@[k] && n.arch@[k] <= 'Z') || ('0' <= n.arch@[k] && n.arch@[k] <= '9')
                || n.arch@[k] == '-' || n.arch@[k] == '_' || n.arch@[k] == '.'),
    ensures
        report_verdict(n) == ReportVerdict::InvalidArchitecture(n.arch@),
{
    if n.arch@.len() > 0 && n.arch@.len() <= 64 {
        let k = choose|k: int|
            0 <= k < n.arch@.len() && !(('a' <= #[trigger] n.arch@[k] && n.arch@[k] <= 'z') || (
            'A' <= n.arch@[k] && n.arch@[k] <= 'Z') || ('0' <= n.arch@[k] && n.arch@[k] <= '9')
                || n.arch@[k] == '-' || n.arch@[k] == '_' || n.arch@[k] == '.');
        assert(!is_label_char(n.arch@[k]));
    }
}

/// With a valid architecture, an OS given by a label that is empty, longer
/// than 64 characters, or holds a character other than an ASCII letter,
/// digit, `-`, `_` or `.` is refused, naming the label.
pub proof fn malformed_os_labels_are_refused(n: NodeCapabilities, label: String)
    requires
        valid_label(n.arch@),
        n.os == Os::Other(label),
        label@.len() == 0 || label@.len() > 64 || exists|k: int|
            0 <= k < label@.len() && !(('a' <= #[trigger] label@[k] && label@[k] <= 'z') || (
            'A' <= label@[k] && label@[k] <= 'Z') || ('0' <= label@[k] && label@[k] <= '9')
                || label@[k] == '-' || label@[k] == '_' || label@[k] == '.'),
    ensures
        report_verdict(n) == ReportVerdict::InvalidOsLabel(label@),
{
    if label@.len() > 0 && label@.len() <= 64 {
        let k = choose|k: int|
            0 <= k < label@.len() && !(('a' <= #[trigger] label@[k] && label@[k] <= 'z') || (
            'A' <= label@[k] && label@[k] <= 'Z') || ('0' <= label@[k] && label@[k] <= '9')
                || label@[k] == '-' || label@[k] == '_' || label@[k] == '.');
        assert(!is_label_char(label@[k]));
    }
}

/// A report whose architecture, OS label, source providers and bundle
/// fields all pass is refused with `duplicate system bundle identity` when
/// two of its bundles share both id and digest.
pub proof fn duplicate_bundles_are_refused(n: NodeCapabilities, i: int, j: int)
    requires
        valid_label(n.arch@),
        n.os matches Os::Other(l) ==> valid_label(l@),
        first_invalid_provider(n.source_providers@) is None,
        forall|k: int|
            0 <= k < n.system_bundles@.len() ==> !bundle_field_unusable(
                #[trigger] n.system_bundles@[k],
            ),
        0 <= i < j < n.system_bundles@.len(),
        n.system_bundles@[i].bundle_id@ == n.system_bundles@[j].bundle_id@,
        n.system_bundles@[i].bundle_digest@ == n.system_bundles@[j].bundle_digest@,
    ensures
        report_verdict(n) == ReportVerdict::InvalidSystemBundle(
            "duplicate system bundle identity"@,
        ),
{
    assert(same_bundle_identity(n.system_bundles@[i], n.system_bundles@[j]));
    assert(!exists|k: int|
        0 <= k < n.system_bundles@.len() && !bundle_is_valid(#[trigger] n.system_bundles@[k])) by {
        assert forall|k: int| 0 <= k < n.system_bundles@.len() implies bundle_is_valid(
            #[trigger] n.system_bundles@[k],
        ) by {
            assert(!bundle_field_unusable(n.system_bundles@[k]));
        }
    }
}

/// A source provider id that holds a capital letter or a character other
/// than a small ASCII letter, digit, `-`, `_` or `.` (such as `/` in
/// `../checkout`) makes a report with a valid architecture and OS label
/// fail on a source provider.
pub proof fn malformed_provider_ids_are_refused(n: NodeCapabilities, i: int, k: int)
    requires
        valid_label(n.arch@),
        n.os matches Os::Other(l) ==> valid_label(l@),
        0 <= i < n.source_providers@.len(),
        0 <= k < n.source_providers@[i].len(),
        !(('a' <= n.source_providers@[i][k] && n.source_providers@[i][k] <= 'z') || ('0'
            <= n.source_providers@[i][k] && n.source_providers@[i][k] <= '9')
            || n.source_providers@[i][k] == '-' || n.source_providers@[i][k] == '_'
            || n.source_providers@[i][k] == '.'),
    ensures
        report_verdict(n) matches ReportVerdict::InvalidSourceProvider(_),
{
    lemma_invalid_provider_found(n.source_providers@, i, k);
}

proof fn lemma_invalid_provider_found(s: Seq<Seq<char>>, i: int, k: int)
    requires
        0 <= i < s.len(),
        0 <= k < s[i].len(),
        !is_provider_char(s[i][k]),
    ensures
        first_invalid_provider(s) is Some,
    decreases s.len(),
{
    if valid_provider_id(s[0]) {
        if i == 0 {
            assert(!is_provider_char(s[0][k]));
        } else {
            assert(s.drop_first()[i - 1] == s[i]);
            lemma_invalid_provider_found(s.drop_first(), i - 1, k);
        }
    }
}

/// Every detected node can run commands, read source from the filesystem
/// and Git, and move artifacts; containers, rootless Podman and the
/// container backend are detected only on Linux with rootless Podman; the
/// Windows developer command capability and backend only on Windows; and
/// no capability that widens what tasks may reach is ever detected.
pub proof fn detection_follows_the_platform(os: Os, rootless_podman_available: bool)
    ensures
        ({
            let caps = detected_capabilities(os, rootless_podman_available);
            let backends = detected_backends(os, rootless_podman_available);
            let podman = os == Os::Linux && rootless_podman_available;
            &&& caps.contains(Capability::Command)
            &&& caps.contains(Capability::SourceFilesystem)
            &&& caps.contains(Capability::SourceGit)
            &&& caps.contains(Capability::VfsArtifacts)
            &&& caps.contains(Capability::ArtifactTransfer)
            &&& caps.contains(Capability::Containers) <==> podman
            &&& caps.contains(Capability::RootlessPodman) <==> podman
            &&& backends.contains(EnvironmentBackend::Container) <==> podman
            &&& caps.contains(Capability::WindowsCommandDev) <==> os == Os::Windows
            &&& backends.contains(EnvironmentBackend::WindowsCommandDev) <==> os == Os::Windows
            &&& !backends.contains(EnvironmentBackend::NixFlake)
            &&& !caps.contains(Capability::Network)
            &&& !caps.contains(Capability::Secrets)
            &&& !caps.contains(Capability::HostFilesystem)
            &&& !caps.contains(Capability::InboundPorts)
            &&& !caps.contains(Capability::ArbitrarySyscalls)
        }),
{
}

} // verus!
