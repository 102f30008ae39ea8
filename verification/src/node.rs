//! Planning `clusterflux node attach`: capability overrides, what the
//! attached node will disclose it grants to placed tasks, the detection
//! evidence, and the scope values that node commands act under.
use crate::auth::StoredCliSession;
use crate::capability::{Capability, CapabilitySet, EnvironmentBackend, NodeCapabilities, Os};
use crate::digest::{sha256_hex, sha256_text, sha256_of, Digest};
use crate::sets::{chars_lt, lemma_chars_lt_transitive, rank_sorted, Ranked, RankedSet};
use crate::text::{lower_hex, str_eq};
use vstd::prelude::*;

verus! {

// ---------------------------------------------------------------------
// Capability names
// ---------------------------------------------------------------------

/// The capability that a `--cap` value names.
pub open spec fn capability_named(name: Seq<char>) -> Option<Capability> {
    if name == "command"@ {
        Some(Capability::Command)
    } else if name == "containers"@ {
        Some(Capability::Containers)
    } else if name == "rootless-podman"@ {
        Some(Capability::RootlessPodman)
    } else if name == "source-filesystem"@ {
        Some(Capability::SourceFilesystem)
    } else if name == "source-git"@ {
        Some(Capability::SourceGit)
    } else if name == "host-filesystem"@ {
        Some(Capability::HostFilesystem)
    } else if name == "network"@ {
        Some(Capability::Network)
    } else if name == "secrets"@ {
        Some(Capability::Secrets)
    } else if name == "inbound-ports"@ {
        Some(Capability::InboundPorts)
    } else if name == "arbitrary-syscalls"@ {
        Some(Capability::ArbitrarySyscalls)
    } else if name == "vfs-artifacts"@ {
        Some(Capability::VfsArtifacts)
    } else if name == "windows-command-dev"@ {
        Some(Capability::WindowsCommandDev)
    } else if name == "artifact-transfer"@ {
        Some(Capability::ArtifactTransfer)
    } else {
        None
    }
}

/// The kebab-case name by which `--cap` names each capability.
pub open spec fn cap_flag_name(c: Capability) -> Seq<char> {
    match c {
        Capability::Command => "command"@,
        Capability::Containers => "containers"@,
        Capability::RootlessPodman => "rootless-podman"@,
        Capability::SourceFilesystem => "source-filesystem"@,
        Capability::SourceGit => "source-git"@,
        Capability::HostFilesystem => "host-filesystem"@,
        Capability::Network => "network"@,
        Capability::Secrets => "secrets"@,
        Capability::InboundPorts => "inbound-ports"@,
        Capability::ArbitrarySyscalls => "arbitrary-syscalls"@,
        Capability::VfsArtifacts => "vfs-artifacts"@,
        Capability::WindowsCommandDev => "windows-command-dev"@,
        Capability::ArtifactTransfer => "artifact-transfer"@,
    }
}

proof fn lemma_cap_flag_names_known()
    ensures
        cap_flag_name(Capability::Command).len() == 7,
        cap_flag_name(Capability::Containers).len() == 10,
        cap_flag_name(Capability::RootlessPodman).len() == 15,
        cap_flag_name(Capability::SourceFilesystem).len() == 17,
        cap_flag_name(Capability::SourceGit).len() == 10,
        cap_flag_name(Capability::HostFilesystem).len() == 15,
        cap_flag_name(Capability::Network).len() == 7,
        cap_flag_name(Capability::Secrets).len() == 7,
        cap_flag_name(Capability::InboundPorts).len() == 13,
        cap_flag_name(Capability::ArbitrarySyscalls).len() == 18,
        cap_flag_name(Capability::VfsArtifacts).len() == 13,
        cap_flag_name(Capability::WindowsCommandDev).len() == 19,
        cap_flag_name(Capability::ArtifactTransfer).len() == 17,
        cap_flag_name(Capability::Command)[0] == 'c' && cap_flag_name(Capability::Command)[1] == 'o' && cap_flag_name(Capability::Command)[2] == 'm',
        cap_flag_name(Capability::Containers)[0] == 'c' && cap_flag_name(Capability::Containers)[1] == 'o' && cap_flag_name(Capability::Containers)[2] == 'n',
        cap_flag_name(Capability::RootlessPodman)[0] == 'r' && cap_flag_name(Capability::RootlessPodman)[1] == 'o' && cap_flag_name(Capability::RootlessPodman)[2] == 'o',
        cap_flag_name(Capability::SourceFilesystem)[0] == 's' && cap_flag_name(Capability::SourceFilesystem)[1] == 'o' && cap_flag_name(Capability::SourceFilesystem)[2] == 'u',
        cap_flag_name(Capability::SourceGit)[0] == 's' && cap_flag_name(Capability::SourceGit)[1] == 'o' && cap_flag_name(Capability::SourceGit)[2] == 'u',
        cap_flag_name(Capability::HostFilesystem)[0] == 'h' && cap_flag_name(Capability::HostFilesystem)[1] == 'o' && cap_flag_name(Capability::HostFilesystem)[2] == 's',
        cap_flag_name(Capability::Network)[0] == 'n' && cap_flag_name(Capability::Network)[1] == 'e' && cap_flag_name(Capability::Network)[2] == 't',
        cap_flag_name(Capability::Secrets)[0] == 's' && cap_flag_name(Capability::Secrets)[1] == 'e' && cap_flag_name(Capability::Secrets)[2] == 'c',
        cap_flag_name(Capability::InboundPorts)[0] == 'i' && cap_flag_name(Capability::InboundPorts)[1] == 'n' && cap_flag_name(Capability::InboundPorts)[2] == 'b',
        cap_flag_name(Capability::ArbitrarySyscalls)[0] == 'a' && cap_flag_name(Capability::ArbitrarySyscalls)[1] == 'r' && cap_flag_name(Capability::ArbitrarySyscalls)[2] == 'b',
        cap_flag_name(Capability::VfsArtifacts)[0] == 'v' && cap_flag_name(Capability::VfsArtifacts)[1] == 'f' && cap_flag_name(Capability::VfsArtifacts)[2] == 's',
        cap_flag_name(Capability::WindowsCommandDev)[0] == 'w' && cap_flag_name(Capability::WindowsCommandDev)[1] == 'i' && cap_flag_name(Capability::WindowsCommandDev)[2] == 'n',
        cap_flag_name(Capability::ArtifactTransfer)[0] == 'a' && cap_flag_name(Capability::ArtifactTransfer)[1] == 'r' && cap_flag_name(Capability::ArtifactTransfer)[2] == 't',
{
    reveal_strlit("command");
    reveal_strlit("containers");
    reveal_strlit("rootless-podman");
    reveal_strlit("source-filesystem");
    reveal_strlit("source-git");
    reveal_strlit("host-filesystem");
    reveal_strlit("network");
    reveal_strlit("secrets");
    reveal_strlit("inbound-ports");
    reveal_strlit("arbitrary-syscalls");
    reveal_strlit("vfs-artifacts");
    reveal_strlit("windows-command-dev");
    reveal_strlit("artifact-transfer");
    assert("command"@[0] == 'c' && "command"@[1] == 'o' && "command"@[2] == 'm');
    assert("containers"@[0] == 'c' && "containers"@[1] == 'o' && "containers"@[2] == 'n');
    assert("rootless-podman"@[0] == 'r' && "rootless-podman"@[1] == 'o' && "rootless-podman"@[2] == 'o');
    assert("source-filesystem"@[0] == 's' && "source-filesystem"@[1] == 'o' && "source-filesystem"@[2] == 'u');
    assert("source-git"@[0] == 's' && "source-git"@[1] == 'o' && "source-git"@[2] == 'u');
    assert("host-filesystem"@[0] == 'h' && "host-filesystem"@[1] == 'o' && "host-filesystem"@[2] == 's');
    assert("network"@[0] == 'n' && "network"@[1] == 'e' && "network"@[2] == 't');
    assert("secrets"@[0] == 's' && "secrets"@[1] == 'e' && "secrets"@[2] == 'c');
    assert("inbound-ports"@[0] == 'i' && "inbound-ports"@[1] == 'n' && "inbound-ports"@[2] == 'b');
    assert("arbitrary-syscalls"@[0] == 'a' && "arbitrary-syscalls"@[1] == 'r' && "arbitrary-syscalls"@[2] == 'b');
    assert("vfs-artifacts"@[0] == 'v' && "vfs-artifacts"@[1] == 'f' && "vfs-artifacts"@[2] == 's');
    assert("windows-command-dev"@[0] == 'w' && "windows-command-dev"@[1] == 'i' && "windows-command-dev"@[2] == 'n');
    assert("artifact-transfer"@[0] == 'a' && "artifact-transfer"@[1] == 'r' && "artifact-transfer"@[2] == 't');
}

/// Every capability's `--cap` name parses to that capability, and a name
/// that parses to a capability is that capability's name.
pub proof fn capability_names_round_trip(c: Capability, name: Seq<char>)
    ensures
        capability_named(cap_flag_name(c)) == Some(c),
        capability_named(name) == Some(c) ==> name == cap_flag_name(c),
{
    lemma_cap_flag_names_known();
    reveal_strlit("command");
    reveal_strlit("containers");
    reveal_strlit("rootless-podman");
    reveal_strlit("source-filesystem");
    reveal_strlit("source-git");
    reveal_strlit("host-filesystem");
    reveal_strlit("network");
    reveal_strlit("secrets");
    reveal_strlit("inbound-ports");
    reveal_strlit("arbitrary-syscalls");
    reveal_strlit("vfs-artifacts");
    reveal_strlit("windows-command-dev");
    reveal_strlit("artifact-transfer");
}

/// The capability that a `--cap` value names, if any.
pub fn parse_capability(cap: &str) -> (r: Option<Capability>)
    ensures
        r == capability_named(cap@),
{
    if str_eq(cap, "command") {
        Some(Capability::Command)
    } else if str_eq(cap, "containers") {
        Some(Capability::Containers)
    } else if str_eq(cap, "rootless-podman") {
        Some(Capability::RootlessPodman)
    } else if str_eq(cap, "source-filesystem") {
        Some(Capability::SourceFilesystem)
    } else if str_eq(cap, "source-git") {
        Some(Capability::SourceGit)
    } else if str_eq(cap, "host-filesystem") {
        Some(Capability::HostFilesystem)
    } else if str_eq(cap, "network") {
        Some(Capability::Network)
    } else if str_eq(cap, "secrets") {
        Some(Capability::Secrets)
    } else if str_eq(cap, "inbound-ports") {
        Some(Capability::InboundPorts)
    } else if str_eq(cap, "arbitrary-syscalls") {
        Some(Capability::ArbitrarySyscalls)
    } else if str_eq(cap, "vfs-artifacts") {
        Some(Capability::VfsArtifacts)
    } else if str_eq(cap, "windows-command-dev") {
        Some(Capability::WindowsCommandDev)
    } else if str_eq(cap, "artifact-transfer") {
        Some(Capability::ArtifactTransfer)
    } else {
        None
    }
}

// ---------------------------------------------------------------------
// Grant disclosures
// ---------------------------------------------------------------------

/// What a capability grants to the tasks placed on the node.
pub struct CapabilityGrantDisclosure {
    pub capability: Capability,
    pub grant: String,
    pub description: String,
    pub risk: String,
    pub coordinator_policy_limited: bool,
}

pub struct DisclosureView {
    pub capability: Capability,
    pub grant: Seq<char>,
    pub description: Seq<char>,
    pub risk: Seq<char>,
    pub coordinator_policy_limited: bool,
}

impl View for CapabilityGrantDisclosure {
    type V = DisclosureView;

    open spec fn view(&self) -> DisclosureView {
        DisclosureView {
            capability: self.capability,
            grant: self.grant@,
            description: self.description@,
            risk: self.risk@,
            coordinator_policy_limited: self.coordinator_policy_limited,
        }
    }
}

pub open spec fn disclosure(
    capability: Capability,
    grant: Seq<char>,
    description: Seq<char>,
    risk: Seq<char>,
) -> DisclosureView {
    DisclosureView { capability, grant, description, risk, coordinator_policy_limited: true }
}

/// Every disclosure there is, ordered by grant and then by capability.
pub open spec fn disclosure_table() -> Seq<DisclosureView> {
    seq![
        disclosure(
            Capability::ArbitrarySyscalls,
            "arbitrary_syscalls"@,
            "placed tasks may use broader host syscall surface"@,
            "reduced host isolation"@,
        ),
        disclosure(
            Capability::HostFilesystem,
            "host_filesystem_access"@,
            "placed tasks may access configured host filesystem mounts"@,
            "host file visibility outside the project checkout"@,
        ),
        disclosure(
            Capability::InboundPorts,
            "inbound_ports"@,
            "placed tasks may expose inbound ports from this node"@,
            "network service exposure from the node environment"@,
        ),
        disclosure(
            Capability::Command,
            "native_command_execution"@,
            "placed tasks may run native commands on this node"@,
            "local process execution under the node account"@,
        ),
        disclosure(
            Capability::WindowsCommandDev,
            "native_command_execution"@,
            "placed tasks may run Windows developer commands on this node"@,
            "local process execution under the node account"@,
        ),
        disclosure(
            Capability::Network,
            "network_access"@,
            "placed tasks may use outbound network access from this node"@,
            "network egress from the node environment"@,
        ),
        disclosure(
            Capability::Secrets,
            "secret_access"@,
            "placed tasks may receive configured secret material"@,
            "secret exposure to authorized task code"@,
        ),
        disclosure(
            Capability::SourceFilesystem,
            "source_access"@,
            "placed tasks may read the local project/source checkout exposed by this node"@,
            "broad local source visibility"@,
        ),
        disclosure(
            Capability::SourceGit,
            "source_access"@,
            "placed tasks may use Git-backed source access exposed by this node"@,
            "source-provider visibility"@,
        ),
    ]
}

/// The entries of `t` whose capability the node has, in table order.
pub open spec fn granted(t: Seq<DisclosureView>, capabilities: Set<Capability>) -> Seq<
    DisclosureView,
>
    decreases t.len(),
{
    if t.len() == 0 {
        Seq::empty()
    } else {
        let g = granted(t.drop_last(), capabilities);
        if capabilities.contains(t.last().capability) {
            g.push(t.last())
        } else {
            g
        }
    }
}

/// The grant that each capability discloses, if it discloses one.
pub open spec fn disclosed_grant(c: Capability) -> Option<Seq<char>> {
    match c {
        Capability::Command => Some("native_command_execution"@),
        Capability::WindowsCommandDev => Some("native_command_execution"@),
        Capability::SourceFilesystem => Some("source_access"@),
        Capability::SourceGit => Some("source_access"@),
        Capability::Network => Some("network_access"@),
        Capability::HostFilesystem => Some("host_filesystem_access"@),
        Capability::Secrets => Some("secret_access"@),
        Capability::InboundPorts => Some("inbound_ports"@),
        Capability::ArbitrarySyscalls => Some("arbitrary_syscalls"@),
        _ => None,
    }
}

proof fn lemma_granted_contains(t: Seq<DisclosureView>, capabilities: Set<Capability>, x: DisclosureView)
    ensures
        granted(t, capabilities).contains(x) <==> t.contains(x) && capabilities.contains(
            x.capability,
        ),
    decreases t.len(),
{
    if t.len() > 0 {
        lemma_granted_contains(t.drop_last(), capabilities, x);
        let g = granted(t.drop_last(), capabilities);
        if t.contains(x) && !t.drop_last().contains(x) {
            assert(t.last() == x) by {
                let k = choose|k: int| 0 <= k < t.len() && t[k] == x;
                if k < t.len() - 1 {
                    assert(t.drop_last()[k] == x);
                }
            }
        }
        if t.drop_last().contains(x) {
            let k = choose|k: int| 0 <= k < t.drop_last().len() && t.drop_last()[k] == x;
            assert(t[k] == x);
        }
        if capabilities.contains(t.last().capability) {
            assert(g.push(t.last()).contains(x) <==> g.contains(x) || x == t.last()) by {
                if g.push(t.last()).contains(x) {
                    let k = choose|k: int| 0 <= k < g.push(t.last()).len() && g.push(t.last())[k] == x;
                    if k < g.len() {
                        assert(g[k] == x);
                    }
                }
                if x == t.last() {
                    assert(g.push(t.last())[g.len() as int] == x);
                }
                if g.contains(x) {
                    let k = choose|k: int| 0 <= k < g.len() && g[k] == x;
                    assert(g.push(t.last())[k] == x);
                }
            }
        }
        if t.contains(x) && x != t.last() {
            let k = choose|k: int| 0 <= k < t.len() && t[k] == x;
            assert(k < t.len() - 1);
            assert(t.drop_last()[k] == x);
        }
    }
}

/// A node discloses a capability exactly when it has it and the capability
/// grants something to placed tasks, and every disclosure names the grant
/// of its capability and is limited by coordinator policy.
pub proof fn disclosures_match_the_granted_capabilities(
    capabilities: Set<Capability>,
    x: DisclosureView,
    c: Capability,
)
    ensures
        granted(disclosure_table(), capabilities).contains(x) ==> capabilities.contains(
            x.capability,
        ) && disclosed_grant(x.capability) == Some(x.grant) && x.coordinator_policy_limited,
        capabilities.contains(c) && disclosed_grant(c) is Some ==> exists|k: int|
            0 <= k < granted(disclosure_table(), capabilities).len() && (#[trigger] granted(
                disclosure_table(),
                capabilities,
            )[k]).capability == c,
        disclosed_grant(c) is None ==> forall|k: int|
            0 <= k < granted(disclosure_table(), capabilities).len() ==> (#[trigger] granted(
                disclosure_table(),
                capabilities,
            )[k]).capability != c,
{
    let t = disclosure_table();
    let g = granted(t, capabilities);
    lemma_granted_contains(t, capabilities, x);
    if t.contains(x) {
        let k = choose|k: int| 0 <= k < t.len() && t[k] == x;
        assert(disclosed_grant(t[k].capability) == Some(t[k].grant));
    }
    if capabilities.contains(c) && disclosed_grant(c) is Some {
        let k: int = match c {
            Capability::ArbitrarySyscalls => 0,
            Capability::HostFilesystem => 1,
            Capability::InboundPorts => 2,
            Capability::Command => 3,
            Capability::WindowsCommandDev => 4,
            Capability::Network => 5,
            Capability::Secrets => 6,
            Capability::SourceFilesystem => 7,
            _ => 8,
        };
        assert(t[k].capability == c);
        lemma_granted_contains(t, capabilities, t[k]);
        assert(t.contains(t[k]));
        let j = choose|j: int| 0 <= j < g.len() && g[j] == t[k];
        assert(g[j].capability == c);
    }
    if disclosed_grant(c) is None {
        assert forall|k: int| 0 <= k < g.len() implies (#[trigger] g[k]).capability != c by {
            assert(g.contains(g[k]));
            lemma_granted_contains(t, capabilities, g[k]);
            let j = choose|j: int| 0 <= j < t.len() && t[j] == g[k];
            assert(disclosed_grant(t[j].capability) is Some);
        }
    }
}

/// The order of disclosures: by grant, then by capability.
pub open spec fn disclosed_before(a: DisclosureView, b: DisclosureView) -> bool {
    chars_lt(a.grant, b.grant) || (a.grant == b.grant && a.capability.spec_rank()
        < b.capability.spec_rank())
}

pub open spec fn disclosures_ordered(s: Seq<DisclosureView>) -> bool {
    forall|i: int, j: int| 0 <= i < j < s.len() ==> disclosed_before(s[i], s[j])
}

proof fn lemma_disclosed_before_transitive(a: DisclosureView, b: DisclosureView, c: DisclosureView)
    requires
        disclosed_before(a, b),
        disclosed_before(b, c),
    ensures
        disclosed_before(a, c),
{
    if chars_lt(a.grant, b.grant) && chars_lt(b.grant, c.grant) {
        lemma_chars_lt_transitive(a.grant, b.grant, c.grant);
    }
}

proof fn lemma_table_ordered()
    ensures
        disclosures_ordered(disclosure_table()),
{
    reveal_strlit("arbitrary_syscalls");
    reveal_strlit("host_filesystem_access");
    reveal_strlit("inbound_ports");
    reveal_strlit("native_command_execution");
    reveal_strlit("network_access");
    reveal_strlit("secret_access");
    reveal_strlit("source_access");
    let t = disclosure_table();
    // Neighbours are in order.
    assert(chars_lt(t[0].grant, t[1].grant));
    assert(chars_lt(t[1].grant, t[2].grant));
    assert(chars_lt(t[2].grant, t[3].grant));
    assert(disclosed_before(t[3], t[4]));
    let a = "native_command_execution"@;
    let b = "network_access"@;
    assert(a.drop_first()[0] == 'a' && b.drop_first()[0] == 'e');
    assert(chars_lt(a.drop_first(), b.drop_first()));
    assert(chars_lt(t[4].grant, t[5].grant));
    assert(chars_lt(t[5].grant, t[6].grant));
    let c = "secret_access"@;
    let d = "source_access"@;
    assert(c.drop_first()[0] == 'e' && d.drop_first()[0] == 'o');
    assert(chars_lt(c.drop_first(), d.drop_first()));
    assert(chars_lt(t[6].grant, t[7].grant));
    assert(disclosed_before(t[7], t[8]));
    assert forall|i: int| 0 <= i < 8 implies disclosed_before(t[i], #[trigger] t[i + 1]) by {
        if i == 0 {
        } else if i == 1 {
        } else if i == 2 {
        } else if i == 3 {
        } else if i == 4 {
        } else if i == 5 {
        } else if i == 6 {
        } else {
        }
    }
    lemma_chain_ordered(t);
}

proof fn lemma_chain_ordered(t: Seq<DisclosureView>)
    requires
        forall|i: int| 0 <= i < t.len() - 1 ==> disclosed_before(t[i], #[trigger] t[i + 1]),
    ensures
        disclosures_ordered(t),
    decreases t.len(),
{
    if t.len() > 0 {
        let u = t.drop_last();
        assert forall|i: int| 0 <= i < u.len() - 1 implies disclosed_before(u[i], #[trigger] u[i + 1]) by {
            assert(u[i] == t[i] && u[i + 1] == t[i + 1]);
        }
        lemma_chain_ordered(u);
        assert forall|i: int, j: int| 0 <= i < j < t.len() implies disclosed_before(t[i], t[j]) by {
            if j < t.len() - 1 {
                assert(u[i] == t[i] && u[j] == t[j]);
            } else {
                let p = j - 1;
                assert(disclosed_before(t[p], t[p + 1]));
                assert(t[p + 1] == t[j]);
                if i < p {
                    assert(u[i] == t[i] && u[p] == t[p]);
                    lemma_disclosed_before_transitive(t[i], t[p], t[j]);
                }
            }
        }
    }
}

proof fn lemma_granted_subsequence(t: Seq<DisclosureView>, capabilities: Set<Capability>)
    requires
        disclosures_ordered(t),
    ensures
        disclosures_ordered(granted(t, capabilities)),
        forall|i: int|
            0 <= i < granted(t, capabilities).len() ==> t.contains(
                #[trigger] granted(t, capabilities)[i],
            ),
    decreases t.len(),
{
    if t.len() > 0 {
        let u = t.drop_last();
        assert(disclosures_ordered(u)) by {
            assert forall|i: int, j: int| 0 <= i < j < u.len() implies disclosed_before(u[i], u[j]) by {
                assert(u[i] == t[i] && u[j] == t[j]);
            }
        }
        lemma_granted_subsequence(u, capabilities);
        let g = granted(u, capabilities);
        assert forall|i: int| 0 <= i < g.len() implies t.contains(#[trigger] g[i]) by {
            let k = choose|k: int| 0 <= k < u.len() && u[k] == g[i];
            assert(t[k] == g[i]);
        }
        if capabilities.contains(t.last().capability) {
            let h = g.push(t.last());
            assert forall|i: int, j: int| 0 <= i < j < h.len() implies disclosed_before(h[i], h[j]) by {
                if j == h.len() - 1 {
                    let k = choose|k: int| 0 <= k < u.len() && u[k] == g[i];
                    assert(t[k] == h[i]);
                    assert(k < t.len() - 1);
                } else {
                    assert(h[i] == g[i] && h[j] == g[j]);
                }
            }
            assert forall|i: int| 0 <= i < h.len() implies t.contains(#[trigger] h[i]) by {
                if i == h.len() - 1 {
                    assert(t[t.len() - 1] == h[i]);
                } else {
                    assert(h[i] == g[i]);
                }
            }
        }
    }
}

/// The disclosures of a node's capabilities, ordered by grant and then by
/// capability.
pub fn capability_grant_disclosures(capabilities: &NodeCapabilities) -> (r: Vec<
    CapabilityGrantDisclosure,
>)
    ensures
        r@.map_values(|d: CapabilityGrantDisclosure| d@) == granted(
            disclosure_table(),
            capabilities.capabilities@.to_set(),
        ),
        disclosures_ordered(r@.map_values(|d: CapabilityGrantDisclosure| d@)),
{
    let table: Vec<(Capability, &'static str, &'static str, &'static str)> = vec![
        (
            Capability::ArbitrarySyscalls,
            "arbitrary_syscalls",
            "placed tasks may use broader host syscall surface",
            "reduced host isolation",
        ),
        (
            Capability::HostFilesystem,
            "host_filesystem_access",
            "placed tasks may access configured host filesystem mounts",
            "host file visibility outside the project checkout",
        ),
        (
            Capability::InboundPorts,
            "inbound_ports",
            "placed tasks may expose inbound ports from this node",
            "network service exposure from the node environment",
        ),
        (
            Capability::Command,
            "native_command_execution",
            "placed tasks may run native commands on this node",
            "local process execution under the node account",
        ),
        (
            Capability::WindowsCommandDev,
            "native_command_execution",
            "placed tasks may run Windows developer commands on this node",
            "local process execution under the node account",
        ),
        (
            Capability::Network,
            "network_access",
            "placed tasks may use outbound network access from this node",
            "network egress from the node environment",
        ),
        (
            Capability::Secrets,
            "secret_access",
            "placed tasks may receive configured secret material",
            "secret exposure to authorized task code",
        ),
        (
            Capability::SourceFilesystem,
            "source_access",
            "placed tasks may read the local project/source checkout exposed by this node",
            "broad local source visibility",
        ),
        (
            Capability::SourceGit,
            "source_access",
            "placed tasks may use Git-backed source access exposed by this node",
            "source-provider visibility",
        ),
    ];
    let ghost spec_table = disclosure_table();
    assert(table@.len() == spec_table.len());
    assert forall|k: int| 0 <= k < table@.len() implies #[trigger] spec_table[k] == disclosure(
        table@[k].0,
        table@[k].1@,
        table@[k].2@,
        table@[k].3@,
    ) by {}
    let ghost caps = capabilities.capabilities@.to_set();
    let mut out: Vec<CapabilityGrantDisclosure> = Vec::new();
    for i in 0..table.len()
        invariant
            caps == capabilities.capabilities@.to_set(),
            table@.len() == spec_table.len(),
            spec_table == disclosure_table(),
            forall|k: int| 0 <= k < table@.len() ==> #[trigger] spec_table[k] == disclosure(
                table@[k].0,
                table@[k].1@,
                table@[k].2@,
                table@[k].3@,
            ),
            out@.map_values(|d: CapabilityGrantDisclosure| d@) == granted(
                spec_table.take(i as int),
                caps,
            ),
    {
        let entry = table[i];
        assert(spec_table.take(i + 1).drop_last() =~= spec_table.take(i as int));
        assert(spec_table.take(i + 1).last() == spec_table[i as int]);
        if capabilities.capabilities.contains(entry.0) {
            let d = CapabilityGrantDisclosure {
                capability: entry.0,
                grant: entry.1.to_owned(),
                description: entry.2.to_owned(),
                risk: entry.3.to_owned(),
                coordinator_policy_limited: true,
            };
            let ghost before = out@;
            out.push(d);
            assert(out@.map_values(|d: CapabilityGrantDisclosure| d@) =~= before.map_values(
                |d: CapabilityGrantDisclosure| d@,
            ).push(spec_table[i as int]));
        }
    }
    assert(spec_table.take(table@.len() as int) =~= spec_table);
    proof {
        lemma_table_ordered();
        lemma_granted_subsequence(spec_table, caps);
    }
    out
}

// ---------------------------------------------------------------------
// Detection evidence
// ---------------------------------------------------------------------

/// Whether the local helper of a source provider is available.
pub struct SourceProviderBackendStatus {
    pub provider: String,
    pub detected: bool,
    pub available: bool,
    pub reason: String,
}

pub struct SourceProviderBackendStatusView {
    pub provider: Seq<char>,
    pub detected: bool,
    pub available: bool,
    pub reason: Seq<char>,
}

impl View for SourceProviderBackendStatus {
    type V = SourceProviderBackendStatusView;

    open spec fn view(&self) -> SourceProviderBackendStatusView {
        SourceProviderBackendStatusView {
            provider: self.provider@,
            detected: self.detected,
            available: self.available,
            reason: self.reason@,
        }
    }
}

/// A provider's helper is available when the filesystem provider has the
/// source filesystem capability, when `git` is installed for the git
/// provider, and always for any other provider.
pub open spec fn provider_status(
    provider: Seq<char>,
    source_filesystem: bool,
    git_available: bool,
) -> SourceProviderBackendStatusView {
    let available = if provider == "filesystem"@ {
        source_filesystem
    } else if provider == "git"@ {
        git_available
    } else {
        true
    };
    SourceProviderBackendStatusView {
        provider,
        detected: true,
        available,
        reason: if available {
            "detected by local node capability probe"@
        } else {
            "source provider `"@ + provider + "` was detected but its local helper is missing"@
        },
    }
}

pub open spec fn status_views(v: Seq<SourceProviderBackendStatus>) -> Seq<
    SourceProviderBackendStatusView,
> {
    v.map_values(|s: SourceProviderBackendStatus| s@)
}

/// The status of each source provider of the node, in provider order.
pub fn source_provider_backend_statuses(
    capabilities: &NodeCapabilities,
    git_available: bool,
) -> (r: Vec<SourceProviderBackendStatus>)
    ensures
        status_views(r@) == capabilities.source_providers@.map_values(
            |p: Seq<char>|
                provider_status(
                    p,
                    capabilities.capabilities@.contains(Capability::SourceFilesystem),
                    git_available,
                ),
        ),
{
    let source_filesystem = capabilities.capabilities.contains(Capability::SourceFilesystem);
    let providers = &capabilities.source_providers;
    let ghost f = |p: Seq<char>| provider_status(p, source_filesystem, git_available);
    let mut out: Vec<SourceProviderBackendStatus> = Vec::new();
    let n = providers.len();
    for i in 0..n
        invariant
            n == providers@.len(),
            providers@ == capabilities.source_providers@,
            source_filesystem == capabilities.capabilities@.contains(Capability::SourceFilesystem),
            f == (|p: Seq<char>| provider_status(p, source_filesystem, git_available)),
            status_views(out@) == providers@.take(i as int).map_values(f),
    {
        let provider = providers.get(i);
        let available = if str_eq(provider.as_str(), "filesystem") {
            source_filesystem
        } else if str_eq(provider.as_str(), "git") {
            git_available
        } else {
            true
        };
        let reason = if available {
            "detected by local node capability probe".to_owned()
        } else {
            let mut text = "source provider `".to_owned();
            text.append(provider.as_str());
            text.append("` was detected but its local helper is missing");
            text
        };
        let status = SourceProviderBackendStatus {
            provider: provider.clone(),
            detected: true,
            available,
            reason,
        };
        assert(status@ == f(providers@[i as int]));
        let ghost before = out@;
        out.push(status);
        assert(status_views(out@) =~= status_views(before).push(status@));
        assert(providers@.take(i + 1).map_values(f) =~= providers@.take(i as int).map_values(f).push(
            f(providers@[i as int]),
        ));
    }
    assert(providers@.take(providers@.len() as int) =~= providers@);
    out
}

/// How the capabilities of an attaching node were found.
pub struct NodeAttachDetectionEvidence {
    pub auto_detected: bool,
    pub os: Os,
    pub arch: String,
    pub command_backend: String,
    pub command_backend_available: bool,
    pub container_backend: Option<String>,
    pub container_backend_reported: bool,
    pub container_backend_available: bool,
    pub source_provider_backends: Vec<SourceProviderBackendStatus>,
    pub manual_capability_overrides_allowed: bool,
    pub manual_capability_overrides: Vec<String>,
    pub recognized_capability_overrides: Vec<Capability>,
    pub unrecognized_capability_overrides: Vec<String>,
    pub os_arch_capabilities_require_manual_flags: bool,
}

/// The detection evidence of a node, with `podman_available` and
/// `git_available` telling whether those programs can be run.
pub fn node_attach_detection_evidence(
    capabilities: &NodeCapabilities,
    manual_capability_overrides: Vec<String>,
    recognized_capability_overrides: Vec<Capability>,
    unrecognized_capability_overrides: Vec<String>,
    podman_available: bool,
    git_available: bool,
) -> (r: NodeAttachDetectionEvidence)
    ensures
        r.auto_detected,
        r.os == capabilities.os,
        r.arch == capabilities.arch,
        r.command_backend_available == capabilities.capabilities@.contains(Capability::Command),
        r.command_backend@ == (if r.command_backend_available {
            "native-command"@
        } else {
            "unavailable"@
        }),
        r.container_backend_reported == capabilities.environment_backends@.contains(
            EnvironmentBackend::Container,
        ),
        r.container_backend_reported ==> (r.container_backend matches Some(b) && b@
            == "rootless-podman"@),
        !r.container_backend_reported ==> r.container_backend is None,
        r.container_backend_available == (r.container_backend_reported
            && capabilities.capabilities@.contains(Capability::RootlessPodman) && podman_available),
        status_views(r.source_provider_backends@) == capabilities.source_providers@.map_values(
            |p: Seq<char>|
                provider_status(
                    p,
                    capabilities.capabilities@.contains(Capability::SourceFilesystem),
                    git_available,
                ),
        ),
        r.manual_capability_overrides_allowed,
        r.manual_capability_overrides == manual_capability_overrides,
        r.recognized_capability_overrides == recognized_capability_overrides,
        r.unrecognized_capability_overrides == unrecognized_capability_overrides,
        !r.os_arch_capabilities_require_manual_flags,
{
    let command_backend_available = capabilities.capabilities.contains(Capability::Command);
    let container_backend_reported = capabilities.environment_backends.contains(
        EnvironmentBackend::Container,
    );
    let container_backend = if container_backend_reported {
        Some("rootless-podman".to_owned())
    } else {
        None
    };
    let container_backend_available = container_backend_reported
        && capabilities.capabilities.contains(Capability::RootlessPodman) && podman_available;
    NodeAttachDetectionEvidence {
        auto_detected: true,
        os: capabilities.os.duplicate(),
        arch: capabilities.arch.clone(),
        command_backend: if command_backend_available {
            "native-command".to_owned()
        } else {
            "unavailable".to_owned()
        },
        command_backend_available,
        container_backend,
        container_backend_reported,
        container_backend_available,
        source_provider_backends: source_provider_backend_statuses(capabilities, git_available),
        manual_capability_overrides_allowed: true,
        manual_capability_overrides,
        recognized_capability_overrides,
        unrecognized_capability_overrides,
        os_arch_capabilities_require_manual_flags: false,
    }
}

// ---------------------------------------------------------------------
// Attach plan
// ---------------------------------------------------------------------

/// The options of `clusterflux node attach`.
pub struct AttachArgs {
    pub coordinator: Option<String>,
    pub tenant: String,
    pub project: String,
    pub node: Option<String>,
    pub caps: Vec<String>,
    pub enrollment_grant: Option<String>,
    pub public_key: Option<String>,
    pub json: bool,
}

/// What the local machine contributes to an attach plan: its detected
/// report, its default node id, a public key for the plan when none is
/// given, and whether `podman` and `git` can be run.
pub struct LocalNodeFacts {
    pub detected: NodeCapabilities,
    pub default_node_id: String,
    pub default_public_key: String,
    pub podman_available: bool,
    pub git_available: bool,
}

/// The exchange of a short-lived enrollment grant for the node identity.
pub struct NodeEnrollmentPlan {
    pub grant: String,
    pub public_key_fingerprint: Digest,
    pub exchanges_short_lived_grant_for_long_lived_node_identity: bool,
}

pub struct NodeAttachPlan {
    pub node: String,
    pub coordinator: Option<String>,
    pub capabilities: NodeCapabilities,
    pub detection: NodeAttachDetectionEvidence,
    pub grant_disclosures: Vec<CapabilityGrantDisclosure>,
    pub enrollment: Option<NodeEnrollmentPlan>,
}

pub open spec fn text_views(v: Seq<String>) -> Seq<Seq<char>> {
    v.map_values(|s: String| s@)
}

/// The capabilities that the `--cap` values name.
pub open spec fn named_capabilities(caps: Seq<Seq<char>>) -> Set<Capability> {
    Set::new(|c: Capability| exists|i: int| 0 <= i < caps.len() && capability_named(caps[i]) == Some(c))
}

/// The `--cap` values that name no capability, in the order given.
pub open spec fn unrecognized_names(caps: Seq<Seq<char>>) -> Seq<Seq<char>>
    decreases caps.len(),
{
    if caps.len() == 0 {
        Seq::empty()
    } else {
        let u = unrecognized_names(caps.drop_last());
        if capability_named(caps.last()) is None {
            u.push(caps.last())
        } else {
            u
        }
    }
}

/// Every `--cap` value is accounted for: one that names a capability adds
/// that capability, one that names none is reported back as unrecognized, and
/// nothing else is reported.
pub proof fn overrides_are_granted_or_reported(caps: Seq<Seq<char>>)
    ensures
        forall|i: int|
            0 <= i < caps.len() ==> (capability_named(#[trigger] caps[i]) matches Some(c)
                ==> named_capabilities(caps).contains(c)),
        forall|i: int|
            0 <= i < caps.len() && capability_named(#[trigger] caps[i]) is None
                ==> unrecognized_names(caps).contains(caps[i]),
        forall|j: int|
            0 <= j < unrecognized_names(caps).len() ==> capability_named(
                #[trigger] unrecognized_names(caps)[j],
            ) is None && caps.contains(unrecognized_names(caps)[j]),
        unrecognized_names(caps).len() <= caps.len(),
    decreases caps.len(),
{
    assert forall|i: int|
        0 <= i < caps.len() && (capability_named(#[trigger] caps[i]) is Some) implies named_capabilities(
        caps,
    ).contains(capability_named(caps[i])->0) by {}
    if caps.len() > 0 {
        let prev = caps.drop_last();
        overrides_are_granted_or_reported(prev);
        let u = unrecognized_names(prev);
        assert forall|i: int|
            0 <= i < caps.len() && capability_named(#[trigger] caps[i]) is None implies unrecognized_names(
            caps,
        ).contains(caps[i]) by {
            if i < caps.len() - 1 {
                assert(prev[i] == caps[i]);
                let j = choose|j: int| 0 <= j < u.len() && u[j] == prev[i];
                if capability_named(caps.last()) is None {
                    assert(u.push(caps.last())[j] == caps[i]);
                }
            } else {
                assert(u.push(caps.last())[u.len() as int] == caps[i]);
            }
        }
        assert forall|j: int| 0 <= j < unrecognized_names(caps).len() implies capability_named(
            #[trigger] unrecognized_names(caps)[j],
        ) is None && caps.contains(unrecognized_names(caps)[j]) by {
            if j < u.len() {
                let i = choose|i: int| 0 <= i < prev.len() && prev[i] == u[j];
                assert(caps[i] == prev[i]);
                if capability_named(caps.last()) is None {
                    assert(u.push(caps.last())[j] == u[j]);
                }
            } else {
                assert(caps[caps.len() - 1] == caps.last());
            }
        }
    }
}

/// The plan of attaching the local node with the given options.
pub fn attach_plan(args: AttachArgs, local: LocalNodeFacts) -> (r: NodeAttachPlan)
    ensures
        r.capabilities.capabilities@.to_set() == local.detected.capabilities@.to_set().union(
            named_capabilities(text_views(args.caps@)),
        ),
        r.capabilities.os == local.detected.os,
        r.capabilities.arch == local.detected.arch,
        r.capabilities.environment_backends == local.detected.environment_backends,
        r.capabilities.source_providers == local.detected.source_providers,
        r.capabilities.work_policy == local.detected.work_policy,
        r.capabilities.system_bundles == local.detected.system_bundles,
        r.detection.recognized_capability_overrides@.to_set() == named_capabilities(
            text_views(args.caps@),
        ),
        rank_sorted(r.detection.recognized_capability_overrides@),
        text_views(r.detection.unrecognized_capability_overrides@) == unrecognized_names(
            text_views(args.caps@),
        ),
        r.detection.manual_capability_overrides == args.caps,
        r.detection.auto_detected,
        r.detection.manual_capability_overrides_allowed,
        !r.detection.os_arch_capabilities_require_manual_flags,
        r.detection.command_backend@ == (if r.detection.command_backend_available {
            "native-command"@
        } else {
            "unavailable"@
        }),
        r.detection.container_backend_reported == local.detected.environment_backends@.contains(
            EnvironmentBackend::Container,
        ),
        r.detection.container_backend_reported ==> (r.detection.container_backend matches Some(b)
            && b@ == "rootless-podman"@),
        !r.detection.container_backend_reported ==> r.detection.container_backend is None,
        r.detection.os == local.detected.os,
        r.detection.arch == local.detected.arch,
        r.detection.command_backend_available == r.capabilities.capabilities@.contains(
            Capability::Command,
        ),
        r.detection.container_backend_available == (local.detected.environment_backends@.contains(
            EnvironmentBackend::Container,
        ) && r.capabilities.capabilities@.contains(Capability::RootlessPodman)
            && local.podman_available),
        status_views(r.detection.source_provider_backends@)
            == local.detected.source_providers@.map_values(
            |p: Seq<char>|
                provider_status(
                    p,
                    r.capabilities.capabilities@.contains(Capability::SourceFilesystem),
                    local.git_available,
                ),
        ),
        r.grant_disclosures@.map_values(|d: CapabilityGrantDisclosure| d@) == granted(
            disclosure_table(),
            r.capabilities.capabilities@.to_set(),
        ),
        r.node@ == (match args.node {
            Some(n) => n@,
            None => local.default_node_id@,
        }),
        r.coordinator == args.coordinator,
        args.enrollment_grant is None ==> r.enrollment is None,
        args.enrollment_grant matches Some(grant) ==> (r.enrollment matches Some(e) && e.grant
            == grant && e.exchanges_short_lived_grant_for_long_lived_node_identity
            && e.public_key_fingerprint@ == sha256_text(
            vstd::utf8::encode_utf8(
                match args.public_key {
                    Some(k) => k@,
                    None => local.default_public_key@,
                },
            ),
        )),
{
    let LocalNodeFacts {
        detected,
        default_node_id,
        default_public_key,
        podman_available,
        git_available,
    } = local;
    let mut capabilities = detected;
    let ghost base = capabilities.capabilities@.to_set();
    let mut recognized: CapabilitySet = RankedSet::new();
    let mut unrecognized: Vec<String> = Vec::new();
    let ghost names = text_views(args.caps@);
    let n = args.caps.len();
    for i in 0..n
        invariant
            n == args.caps@.len(),
            names == text_views(args.caps@),
            capabilities.capabilities@.to_set() == base.union(
                named_capabilities(names.take(i as int)),
            ),
            recognized@.to_set() == named_capabilities(names.take(i as int)),
            text_views(unrecognized@) == unrecognized_names(names.take(i as int)),
            capabilities.os == detected.os,
            capabilities.arch == detected.arch,
            capabilities.environment_backends == detected.environment_backends,
            capabilities.source_providers == detected.source_providers,
            capabilities.work_policy == detected.work_policy,
            capabilities.system_bundles == detected.system_bundles,
    {
        let cap = &args.caps[i];
        let ghost prev = names.take(i as int);
        let ghost next = names.take(i + 1);
        assert(next.drop_last() =~= prev);
        assert(next.last() == cap@);
        let parsed = parse_capability(cap.as_str());
        match parsed {
            Some(c) => {
                recognized.insert(c);
                capabilities.capabilities.insert(c);
                assert(named_capabilities(next) =~= named_capabilities(prev).insert(c)) by {
                    assert forall|x: Capability| named_capabilities(next).contains(x) implies named_capabilities(
                        prev,
                    ).insert(c).contains(x) by {
                        let k = choose|k: int|
                            0 <= k < next.len() && capability_named(next[k]) == Some(x);
                        if k < prev.len() {
                            assert(prev[k] == next[k]);
                        }
                    }
                    assert forall|x: Capability| named_capabilities(prev).insert(c).contains(
                        x,
                    ) implies named_capabilities(next).contains(x) by {
                        if x == c {
                            assert(capability_named(next[i as int]) == Some(c));
                        } else {
                            let k = choose|k: int|
                                0 <= k < prev.len() && capability_named(prev[k]) == Some(x);
                            assert(prev[k] == next[k]);
                        }
                    }
                }
                assert(base.union(named_capabilities(prev)).insert(c) =~= base.union(
                    named_capabilities(next),
                ));
            },
            None => {
                let ghost before = unrecognized@;
                unrecognized.push(cap.clone());
                assert(text_views(unrecognized@) =~= text_views(before).push(cap@));
                assert(named_capabilities(next) =~= named_capabilities(prev)) by {
                    assert forall|x: Capability| named_capabilities(next).contains(x) implies named_capabilities(
                        prev,
                    ).contains(x) by {
                        let k = choose|k: int|
                            0 <= k < next.len() && capability_named(next[k]) == Some(x);
                        assert(k < prev.len());
                        assert(prev[k] == next[k]);
                    }
                    assert forall|x: Capability| named_capabilities(prev).contains(
                        x,
                    ) implies named_capabilities(next).contains(x) by {
                        let k = choose|k: int|
                            0 <= k < prev.len() && capability_named(prev[k]) == Some(x);
                        assert(prev[k] == next[k]);
                    }
                }
            },
        }
    }
    assert(names.take(n as int) =~= names);
    let recognized_capability_overrides = recognized.elements();
    let node = match args.node {
        Some(n) => n,
        None => default_node_id,
    };
    let public_key = match args.public_key {
        Some(k) => k,
        None => default_public_key,
    };
    let enrollment = match args.enrollment_grant {
        Some(grant) => Some(
            NodeEnrollmentPlan {
                grant,
                public_key_fingerprint: Digest::sha256(public_key.as_str().as_bytes()),
                exchanges_short_lived_grant_for_long_lived_node_identity: true,
            },
        ),
        None => None,
    };
    let detection = node_attach_detection_evidence(
        &capabilities,
        args.caps,
        recognized_capability_overrides,
        unrecognized,
        podman_available,
        git_available,
    );
    let grant_disclosures = capability_grant_disclosures(&capabilities);
    NodeAttachPlan {
        node,
        coordinator: args.coordinator,
        capabilities,
        detection,
        grant_disclosures,
        enrollment,
    }
}

/// The node id used when none is given: `CLUSTERFLUX_NODE_ID`, else
/// `HOSTNAME`, else `COMPUTERNAME`, else `node-local`.
pub fn default_node_id_from(
    node_id: Option<String>,
    hostname: Option<String>,
    computer_name: Option<String>,
) -> (r: String)
    ensures
        r@ == match (node_id, hostname, computer_name) {
            (Some(v), _, _) => v@,
            (None, Some(v), _) => v@,
            (None, None, Some(v)) => v@,
            (None, None, None) => "node-local"@,
        },
{
    match node_id {
        Some(v) => v,
        None => match hostname {
            Some(v) => v,
            None => match computer_name {
                Some(v) => v,
                None => "node-local".to_owned(),
            },
        },
    }
}

/// The name of the file that holds a node's local credential: the hex
/// SHA-256 digest of the node id, with `.json`.
pub fn local_node_credential_file_name(node: &str) -> (r: String)
    ensures
        r@ == lower_hex(sha256_of(vstd::utf8::encode_utf8(node@))) + ".json"@,
{
    let mut name = sha256_hex(node.as_bytes());
    name.append(".json");
    name
}

// ---------------------------------------------------------------------
// Scope values
// ---------------------------------------------------------------------

/// A scope field of a stored CLI session.
#[derive(Clone, Copy, Debug, PartialEq, Eq, Structural)]
pub enum ScopeField {
    Tenant,
    Project,
    User,
}

pub open spec fn session_field(s: StoredCliSession, field: ScopeField) -> Seq<char> {
    match field {
        ScopeField::Tenant => s.tenant@,
        ScopeField::Project => s.project@,
        ScopeField::User => s.user@,
    }
}

/// A scope value given on the command line wins; one left at its default
/// gives way to the configured value, when there is one.
pub open spec fn effective_scope(cli: Seq<char>, fallback: Option<Seq<char>>, default: Seq<char>) -> Seq<
    char,
> {
    if cli == default {
        match fallback {
            Some(f) => f,
            None => cli,
        }
    } else {
        cli
    }
}

/// The scope value in effect.
pub fn effective_scope_value(cli_value: &str, fallback: Option<&str>, default_value: &str) -> (r:
    String)
    ensures
        r@ == effective_scope(
            cli_value@,
            match fallback {
                Some(f) => Some(f@),
                None => None,
            },
            default_value@,
        ),
{
    if str_eq(cli_value, default_value) {
        match fallback {
            Some(f) => f.to_owned(),
            None => cli_value.to_owned(),
        }
    } else {
        cli_value.to_owned()
    }
}

fn session_field_str(s: &StoredCliSession, field: ScopeField) -> (r: &str)
    ensures
        r@ == session_field(*s, field),
{
    match field {
        ScopeField::Tenant => s.tenant.as_str(),
        ScopeField::Project => s.project.as_str(),
        ScopeField::User => s.user.as_str(),
    }
}

/// The scope value a node command acts under: an authenticated stored
/// session decides; otherwise the command line, falling back to the stored
/// session's value.
pub fn session_or_effective_scope_value(
    stored_session: Option<&StoredCliSession>,
    cli_value: &str,
    field: ScopeField,
    default_value: &str,
) -> (r: String)
    ensures
        r@ == match stored_session {
            Some(s) => if s.session_secret is Some {
                session_field(*s, field)
            } else {
                effective_scope(cli_value@, Some(session_field(*s, field)), default_value@)
            },
            None => effective_scope(cli_value@, None, default_value@),
        },
{
    match stored_session {
        Some(s) => if s.session_secret.is_some() {
            session_field_str(s, field).to_owned()
        } else {
            effective_scope_value(cli_value, Some(session_field_str(s, field)), default_value)
        },
        None => effective_scope_value(cli_value, None, default_value),
    }
}

} // verus!
