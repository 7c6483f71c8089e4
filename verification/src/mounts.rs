//! Bind-mount planning from detected host topology: candidate device paths
//! are bound only when probed present, core system paths are always bound
//! under the `/host` prefix, and one of two mutually exclusive extra sets is
//! chosen by whether the host is ostree-based.

use vstd::prelude::*;

verus! {

/// How mount events flow between host and container. Every mount this
/// planner emits propagates one-way, host to container subtree.
#[derive(PartialEq, Eq, Structural, Clone, Copy, Debug)]
pub enum Propagation {
    RecursiveSlave,
}

/// One bind mount of the engine invocation.
#[derive(Debug, Clone)]
pub struct MountSpec {
    pub host: String,
    pub container: String,
    pub propagation: Propagation,
}

/// The mathematical value of a mount: both paths as character sequences.
pub ghost struct MountModel {
    pub host: Seq<char>,
    pub container: Seq<char>,
    pub propagation: Propagation,
}

impl View for MountSpec {
    type V = MountModel;

    open spec fn view(&self) -> MountModel {
        MountModel { host: self.host@, container: self.container@, propagation: self.propagation }
    }
}

impl DeepView for MountSpec {
    type V = MountModel;

    open spec fn deep_view(&self) -> MountModel {
        self.view()
    }
}

/// A recursive-slave mount of `host` at `container`.
pub open spec fn mount_model(host: Seq<char>, container: Seq<char>) -> MountModel {
    MountModel { host, container, propagation: Propagation::RecursiveSlave }
}

/// The fixed candidate list of device paths: bound only when present.
pub open spec fn spec_device_candidates() -> Seq<Seq<char>> {
    seq!["/dev/bus"@, "/dev/dri"@, "/dev/fuse"@]
}

/// The core system paths, always bound under `/host`.
pub open spec fn spec_core_mounts() -> Seq<MountModel> {
    seq![
        mount_model("/usr"@, "/host/usr"@),
        mount_model("/var"@, "/host/var"@),
        mount_model("/etc"@, "/host/etc"@),
        mount_model("/run"@, "/host/run"@),
    ]
}

/// The host sides of the core system mounts.
pub open spec fn spec_core_hosts() -> Seq<Seq<char>> {
    seq!["/usr"@, "/var"@, "/etc"@, "/run"@]
}

/// The system-root storage mount of an ostree-based host.
pub open spec fn spec_sysroot_mount() -> MountModel {
    mount_model("/sysroot"@, "/host/sysroot"@)
}

/// The conventional user-data paths, bound only off ostree.
pub open spec fn spec_conventional_mounts() -> Seq<MountModel> {
    seq![
        mount_model("/media"@, "/host/media"@),
        mount_model("/mnt"@, "/host/mnt"@),
        mount_model("/home"@, "/host/home"@),
        mount_model("/srv"@, "/host/srv"@),
    ]
}

/// The host sides of the conventional user-data mounts.
pub open spec fn spec_conventional_hosts() -> Seq<Seq<char>> {
    seq!["/media"@, "/mnt"@, "/home"@, "/srv"@]
}

/// Device mounts bind each present path at the same path in the container.
pub open spec fn spec_device_mounts(devices: Seq<Seq<char>>) -> Seq<MountModel> {
    devices.map_values(|p: Seq<char>| mount_model(p, p))
}

/// What one probe of the host found: whether it is ostree-based, and which
/// of the candidate device paths exist. Computed fresh per run.
pub struct HostTopology {
    pub ostree_based: bool,
    pub devices: Vec<String>,
}

impl HostTopology {
    /// Every recorded device path is one of the fixed candidates.
    pub open spec fn wf(self) -> bool {
        forall|i: int|
            0 <= i < self.devices.deep_view().len() ==> spec_device_candidates().contains(
                #[trigger] self.devices.deep_view()[i],
            )
    }
}

/// The planned mount list: present devices first, then the core system
/// mounts, then exactly one of the two topology-dependent sets.
pub open spec fn spec_plan(t: HostTopology) -> Seq<MountModel> {
    spec_device_mounts(t.devices.deep_view()) + spec_core_mounts() + if t.ostree_based {
        seq![spec_sysroot_mount()]
    } else {
        spec_conventional_mounts()
    }
}

/// Relies on `std::path::Path::exists`: reports whether the path names an
/// entry present on the host filesystem at the time of the call. The answer
/// depends on the disk, so nothing is assumed of it; the planner is
/// verified for every outcome.
#[verifier::external_body]
fn path_exists(p: &str) -> bool {
    std::path::Path::new(p).exists()
}

/// The host is ostree-based exactly when the boot marker path
/// `/run/ostree-booted` exists. A filesystem probe: nothing is promised of
/// the answer, and the plan is verified for either topology.
pub fn is_ostree_based_host() -> bool {
    path_exists("/run/ostree-booted")
}

/// Probes the host once: the topology flag, plus those candidate device
/// paths that exist right now. Never guesses: a path enters the list only
/// on a positive probe.
pub fn probe() -> (t: HostTopology)
    ensures
        t.wf(),
{
    let mut devices: Vec<String> = Vec::new();
    if path_exists("/dev/bus") {
        devices.push(String::from_str("/dev/bus"));
    }
    if path_exists("/dev/dri") {
        devices.push(String::from_str("/dev/dri"));
    }
    if path_exists("/dev/fuse") {
        devices.push(String::from_str("/dev/fuse"));
    }
    let t = HostTopology { ostree_based: is_ostree_based_host(), devices };
    proof {
        assert(spec_device_candidates().contains("/dev/bus"@));
        assert(spec_device_candidates().contains("/dev/dri"@));
        assert(spec_device_candidates().contains("/dev/fuse"@));
    }
    t
}

/// A recursive-slave mount of two fixed paths.
fn fixed_mount(host: &'static str, container: &'static str) -> (m: MountSpec)
    ensures
        m@ == mount_model(host@, container@),
{
    MountSpec {
        host: String::from_str(host),
        container: String::from_str(container),
        propagation: Propagation::RecursiveSlave,
    }
}

/// Produces the bind-mount list for the probed topology.
pub fn plan(t: &HostTopology) -> (r: Vec<MountSpec>)
    ensures
        r.deep_view() == spec_plan(*t),
{
    let mut r: Vec<MountSpec> = Vec::new();
    let mut i: usize = 0;
    while i < t.devices.len()
        invariant
            i <= t.devices.len(),
            r.deep_view() =~= spec_device_mounts(t.devices.deep_view().take(i as int)),
        decreases t.devices.len() - i,
    {
        let ghost pre = r.deep_view();
        r.push(
            MountSpec {
                host: t.devices[i].clone(),
                container: t.devices[i].clone(),
                propagation: Propagation::RecursiveSlave,
            },
        );
        proof {
            let dv = t.devices.deep_view();
            assert(r.deep_view() =~= pre.push(mount_model(dv[i as int], dv[i as int])));
            assert(spec_device_mounts(dv.take(i as int + 1)) =~= spec_device_mounts(
                dv.take(i as int),
            ).push(mount_model(dv[i as int], dv[i as int])));
        }
        i += 1;
    }
    proof {
        assert(t.devices.deep_view().take(t.devices.len() as int) =~= t.devices.deep_view());
    }
    r.push(fixed_mount("/usr", "/host/usr"));
    r.push(fixed_mount("/var", "/host/var"));
    r.push(fixed_mount("/etc", "/host/etc"));
    r.push(fixed_mount("/run", "/host/run"));
    if t.ostree_based {
        r.push(fixed_mount("/sysroot", "/host/sysroot"));
    } else {
        r.push(fixed_mount("/media", "/host/media"));
        r.push(fixed_mount("/mnt", "/host/mnt"));
        r.push(fixed_mount("/home", "/host/home"));
        r.push(fixed_mount("/srv", "/host/srv"));
    }
    proof {
        assert(r.deep_view() =~= spec_plan(*t));
    }
    r
}

/// The host paths the plan treats as present: the positively probed device
/// paths, and the paths the design binds unconditionally — the core system
/// paths, plus the system root on an ostree host or the conventional
/// user-data paths otherwise.
pub open spec fn host_path_assumed_present(t: HostTopology, p: Seq<char>) -> bool {
    t.devices.deep_view().contains(p) || spec_core_hosts().contains(p) || (t.ostree_based && p
        == "/sysroot"@) || (!t.ostree_based && spec_conventional_hosts().contains(p))
}

/// Law: the plan never emits a mount whose host path it has no ground for —
/// every emitted host path was either probed present or belongs to the
/// fixed set the design binds unconditionally on that topology.
pub proof fn lemma_plan_hosts_present(t: HostTopology)
    ensures
        forall|j: int|
            0 <= j < spec_plan(t).len() ==> host_path_assumed_present(
                t,
                #[trigger] spec_plan(t)[j].host,
            ),
{
    let dv = t.devices.deep_view();
    assert forall|j: int| 0 <= j < spec_plan(t).len() implies host_path_assumed_present(
        t,
        #[trigger] spec_plan(t)[j].host,
    ) by {
        let n = dv.len() as int;
        if j < n {
            assert(spec_plan(t)[j] == mount_model(dv[j], dv[j]));
            assert(dv.contains(dv[j]));
        } else if j < n + 4 {
            assert(spec_plan(t)[j] == spec_core_mounts()[j - n]);
            assert(spec_core_hosts().contains(spec_core_mounts()[j - n].host));
        } else {
            if t.ostree_based {
                assert(spec_plan(t)[j] == spec_sysroot_mount());
            } else {
                assert(spec_plan(t)[j] == spec_conventional_mounts()[j - n - 4]);
                assert(spec_conventional_hosts().contains(
                    spec_conventional_mounts()[j - n - 4].host,
                ));
            }
        }
    }
}

/// A member of the candidate list is one of the three candidate literals.
proof fn lemma_candidate_cases(p: Seq<char>)
    requires
        spec_device_candidates().contains(p),
    ensures
        p == "/dev/bus"@ || p == "/dev/dri"@ || p == "/dev/fuse"@,
{
    let k = choose|k: int|
        0 <= k < spec_device_candidates().len() && spec_device_candidates()[k] == p;
    if k == 0 {
    } else if k == 1 {
    } else {
        assert(k == 2);
    }
}

/// A member of the core host list is one of the four core literals.
proof fn lemma_core_cases(p: Seq<char>)
    requires
        spec_core_hosts().contains(p),
    ensures
        p == "/usr"@ || p == "/var"@ || p == "/etc"@ || p == "/run"@,
{
    let k = choose|k: int| 0 <= k < spec_core_hosts().len() && spec_core_hosts()[k] == p;
    if k == 0 {
    } else if k == 1 {
    } else if k == 2 {
    } else {
        assert(k == 3);
    }
}

/// A path unlike every core literal is not a core host.
proof fn lemma_not_in_core(p: Seq<char>)
    requires
        p != "/usr"@,
        p != "/var"@,
        p != "/etc"@,
        p != "/run"@,
    ensures
        !spec_core_hosts().contains(p),
{
    if spec_core_hosts().contains(p) {
        lemma_core_cases(p);
    }
}

/// A path unlike every conventional literal is not a conventional host.
proof fn lemma_not_in_conventional(p: Seq<char>)
    requires
        p != "/media"@,
        p != "/mnt"@,
        p != "/home"@,
        p != "/srv"@,
    ensures
        !spec_conventional_hosts().contains(p),
{
    if spec_conventional_hosts().contains(p) {
        let k = choose|k: int|
            0 <= k < spec_conventional_hosts().len() && spec_conventional_hosts()[k] == p;
        if k == 0 {
        } else if k == 1 {
        } else if k == 2 {
        } else {
            assert(k == 3);
        }
    }
}

/// The fixed path literals never collide: no device candidate is a core,
/// conventional or system-root path.
proof fn lemma_path_facts()
    ensures
        forall|p: Seq<char>|
            #[trigger] spec_device_candidates().contains(p) ==> !spec_core_hosts().contains(p)
                && !spec_conventional_hosts().contains(p) && p != "/sysroot"@,
{
    reveal_strlit("/dev/bus");
    reveal_strlit("/dev/dri");
    reveal_strlit("/dev/fuse");
    reveal_strlit("/usr");
    reveal_strlit("/var");
    reveal_strlit("/etc");
    reveal_strlit("/run");
    reveal_strlit("/sysroot");
    reveal_strlit("/media");
    reveal_strlit("/mnt");
    reveal_strlit("/home");
    reveal_strlit("/srv");
    assert forall|p: Seq<char>| #[trigger]
        spec_device_candidates().contains(p) implies !spec_core_hosts().contains(p)
        && !spec_conventional_hosts().contains(p) && p != "/sysroot"@ by {
        reveal_strlit("/dev/bus");
        reveal_strlit("/dev/dri");
        reveal_strlit("/dev/fuse");
        reveal_strlit("/usr");
        reveal_strlit("/var");
        reveal_strlit("/etc");
        reveal_strlit("/run");
        reveal_strlit("/sysroot");
        reveal_strlit("/media");
        reveal_strlit("/mnt");
        reveal_strlit("/home");
        reveal_strlit("/srv");
        lemma_candidate_cases(p);
        assert("/dev/bus"@.len() == 8);
        assert("/dev/dri"@.len() == 8);
        assert("/dev/fuse"@.len() == 9);
        assert("/usr"@.len() == 4);
        assert("/var"@.len() == 4);
        assert("/etc"@.len() == 4);
        assert("/run"@.len() == 4);
        assert("/sysroot"@.len() == 8);
        assert("/media"@.len() == 6);
        assert("/mnt"@.len() == 4);
        assert("/home"@.len() == 5);
        assert("/srv"@.len() == 4);
        assert("/dev/bus"@[1] == 'd');
        assert("/dev/dri"@[1] == 'd');
        assert("/sysroot"@[1] == 's');
        assert(p != "/usr"@);
        assert(p != "/var"@);
        assert(p != "/etc"@);
        assert(p != "/run"@);
        lemma_not_in_core(p);
        assert(p != "/media"@);
        assert(p != "/mnt"@);
        assert(p != "/home"@);
        assert(p != "/srv"@);
        lemma_not_in_conventional(p);
        assert(p != "/sysroot"@);
    }
}

/// Law: a candidate device path appears as the host of a planned mount only
/// when the probe recorded it present.
pub proof fn lemma_plan_devices_probed(t: HostTopology)
    requires
        t.wf(),
    ensures
        forall|j: int|
            0 <= j < spec_plan(t).len() && spec_device_candidates().contains(
                #[trigger] spec_plan(t)[j].host,
            ) ==> t.devices.deep_view().contains(spec_plan(t)[j].host),
{
    lemma_path_facts();
    let dv = t.devices.deep_view();
    assert forall|j: int|
        0 <= j < spec_plan(t).len() && spec_device_candidates().contains(
            #[trigger] spec_plan(t)[j].host,
        ) implies t.devices.deep_view().contains(spec_plan(t)[j].host) by {
        let n = dv.len() as int;
        if j < n {
            assert(spec_plan(t)[j] == mount_model(dv[j], dv[j]));
            assert(dv.contains(dv[j]));
        } else if j < n + 4 {
            assert(spec_plan(t)[j] == spec_core_mounts()[j - n]);
            assert(spec_core_hosts().contains(spec_core_mounts()[j - n].host));
        } else {
            if t.ostree_based {
                assert(spec_plan(t)[j] == spec_sysroot_mount());
            } else {
                assert(spec_plan(t)[j] == spec_conventional_mounts()[j - n - 4]);
                assert(spec_conventional_hosts().contains(
                    spec_conventional_mounts()[j - n - 4].host,
                ));
            }
        }
    }
}

/// Law: the two topology branches are mutually exclusive. On an ostree host
/// the plan carries the system-root mount and no conventional user-data
/// mount; on a conventional host it carries all four conventional mounts
/// and never the system root.
pub proof fn lemma_plan_topology_branch(t: HostTopology)
    requires
        t.wf(),
    ensures
        t.ostree_based ==> spec_plan(t).contains(spec_sysroot_mount()),
        t.ostree_based ==> forall|j: int|
            0 <= j < spec_plan(t).len() ==> !spec_conventional_hosts().contains(
                #[trigger] spec_plan(t)[j].host,
            ),
        !t.ostree_based ==> forall|k: int|
            0 <= k < spec_conventional_mounts().len() ==> spec_plan(t).contains(
                #[trigger] spec_conventional_mounts()[k],
            ),
        !t.ostree_based ==> forall|j: int|
            0 <= j < spec_plan(t).len() ==> (#[trigger] spec_plan(t)[j]).host != "/sysroot"@,
{
    lemma_path_facts();
    lemma_core_facts();
    let dv = t.devices.deep_view();
    let n = dv.len() as int;
    if t.ostree_based {
        assert(spec_plan(t)[n + 4] == spec_sysroot_mount());
        assert(spec_plan(t).contains(spec_sysroot_mount()));
        assert forall|j: int|
            0 <= j < spec_plan(t).len() implies !spec_conventional_hosts().contains(
            #[trigger] spec_plan(t)[j].host,
        ) by {
            if j < n {
                assert(spec_plan(t)[j] == mount_model(dv[j], dv[j]));
                assert(spec_device_candidates().contains(dv[j]));
            } else if j < n + 4 {
                assert(spec_plan(t)[j] == spec_core_mounts()[j - n]);
                assert(spec_core_hosts().contains(spec_core_mounts()[j - n].host));
            } else {
                assert(spec_plan(t)[j] == spec_sysroot_mount());
            }
        }
    } else {
        assert forall|k: int|
            0 <= k < spec_conventional_mounts().len() implies spec_plan(t).contains(
            #[trigger] spec_conventional_mounts()[k],
        ) by {
            assert(spec_plan(t)[n + 4 + k] == spec_conventional_mounts()[k]);
        }
        assert forall|j: int| 0 <= j < spec_plan(t).len() implies (#[trigger] spec_plan(
            t,
        )[j]).host != "/sysroot"@ by {
            if j < n {
                assert(spec_plan(t)[j] == mount_model(dv[j], dv[j]));
                assert(spec_device_candidates().contains(dv[j]));
            } else if j < n + 4 {
                assert(spec_plan(t)[j] == spec_core_mounts()[j - n]);
                assert(spec_core_hosts().contains(spec_core_mounts()[j - n].host));
            } else {
                assert(spec_plan(t)[j] == spec_conventional_mounts()[j - n - 4]);
                assert(spec_conventional_hosts().contains(
                    spec_conventional_mounts()[j - n - 4].host,
                ));
            }
        }
    }
}

/// The core system paths never collide with the conventional user-data
/// paths or the system-root path.
proof fn lemma_core_facts()
    ensures
        forall|p: Seq<char>|
            #[trigger] spec_core_hosts().contains(p) ==> !spec_conventional_hosts().contains(p)
                && p != "/sysroot"@,
        !spec_conventional_hosts().contains("/sysroot"@),
{
    reveal_strlit("/usr");
    reveal_strlit("/var");
    reveal_strlit("/etc");
    reveal_strlit("/run");
    reveal_strlit("/sysroot");
    reveal_strlit("/media");
    reveal_strlit("/mnt");
    reveal_strlit("/home");
    reveal_strlit("/srv");
    assert forall|p: Seq<char>| #[trigger]
        spec_core_hosts().contains(p) implies !spec_conventional_hosts().contains(p) && p
        != "/sysroot"@ by {
        reveal_strlit("/usr");
        reveal_strlit("/var");
        reveal_strlit("/etc");
        reveal_strlit("/run");
        reveal_strlit("/sysroot");
        reveal_strlit("/media");
        reveal_strlit("/mnt");
        reveal_strlit("/home");
        reveal_strlit("/srv");
        lemma_core_cases(p);
        assert("/usr"@.len() == 4);
        assert("/var"@.len() == 4);
        assert("/etc"@.len() == 4);
        assert("/run"@.len() == 4);
        assert("/sysroot"@.len() == 8);
        assert("/media"@.len() == 6);
        assert("/mnt"@.len() == 4);
        assert("/home"@.len() == 5);
        assert("/srv"@.len() == 4);
        assert("/usr"@[1] == 'u');
        assert("/var"@[1] == 'v');
        assert("/etc"@[1] == 'e');
        assert("/run"@[1] == 'r');
        assert("/mnt"@[1] == 'm');
        assert("/srv"@[1] == 's');
        assert(p != "/media"@);
        assert(p != "/mnt"@);
        assert(p != "/home"@);
        assert(p != "/srv"@);
        lemma_not_in_conventional(p);
        assert(p != "/sysroot"@);
    }
    assert("/sysroot"@.len() == 8);
    assert("/media"@.len() == 6);
    assert("/mnt"@.len() == 4);
    assert("/home"@.len() == 5);
    assert("/srv"@.len() == 4);
    lemma_not_in_conventional("/sysroot"@);
}

} // verus!
