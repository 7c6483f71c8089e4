//! Session launch: turns the planned pieces — image, staged self-binary,
//! ID mappings, mounts and preserved environment — into the single engine
//! argument list, in its fixed order, and interprets the engine's exit.

use vstd::prelude::*;
use crate::errors::LaunchError;
use crate::idmap::IdMapping;
use crate::idmap::MAX_ID_COUNT;
use crate::idmap::compute;
use crate::idmap::plan_id_mappings;
use crate::idmap::spec_compute;
use crate::mounts::HostTopology;
use crate::mounts::MountModel;
use crate::mounts::MountSpec;
use crate::mounts::Propagation;
use crate::mounts::plan;
use crate::mounts::spec_plan;
use crate::strutil::spec_decimal;
use crate::strutil::u32_to_decimal;

verus! {

/// What one invocation was asked to launch. Constructed once at startup.
pub struct SessionConfig {
    /// The image reference to run.
    pub image: String,
    /// An optional in-container command override, appended after the image.
    pub command: Option<Vec<String>>,
}

/// The image used when the invocation names none.
pub fn default_image() -> (r: &'static str)
    ensures
        r@ == "registry.fedoraproject.org/f30/fedora-toolbox:30"@,
{
    "registry.fedoraproject.org/f30/fedora-toolbox:30"
}

/// Relies on `nix::unistd::getuid`: the invoking user's ID as the kernel
/// reports it. The answer depends on the process's credentials, so nothing
/// is assumed of it; the caller validates the range itself.
#[verifier::external_body]
fn current_uid() -> u32 {
    nix::unistd::getuid().into()
}

/// Reads the invoking identity and plans its ID mappings: the mappings
/// exist exactly when the identity lies strictly inside the ID space, and
/// the identity itself is returned so the caller can diagnose a refusal.
pub fn invoking_id_mappings() -> (r: (u32, Option<Vec<IdMapping>>))
    ensures
        r.1 is Some <==> (0 < r.0 && r.0 < MAX_ID_COUNT - 1),
        r.1 matches Some(v) ==> v@ == spec_compute(r.0, MAX_ID_COUNT),
{
    let uid = current_uid();
    (uid, plan_id_mappings(uid, MAX_ID_COUNT))
}

/// The text of one bind-mount flag.
pub open spec fn spec_volume_flag(m: MountModel) -> Seq<char> {
    "--volume="@ + m.host + ":"@ + m.container + ":rslave"@
}

/// The bind-mount flags of a mount list, in order.
pub open spec fn spec_volume_flags(ms: Seq<MountModel>) -> Seq<Seq<char>> {
    ms.map_values(|m: MountModel| spec_volume_flag(m))
}

/// Renders one bind-mount flag.
pub fn volume_flag(m: &MountSpec) -> (r: String)
    ensures
        r@ == spec_volume_flag(m@),
{
    let mut s = String::from_str("--volume=");
    s.append(m.host.as_str());
    s.append(":");
    s.append(m.container.as_str());
    s.append(":rslave");
    s
}

/// The text of one environment forwarding flag.
pub open spec fn spec_env_flag(name: Seq<char>, value: Seq<char>) -> Seq<char> {
    "--env="@ + name + "="@ + value
}

/// The forwarding flags of the preserved pairs, in order.
pub open spec fn spec_env_flags(env: Seq<(Seq<char>, Seq<char>)>) -> Seq<Seq<char>> {
    env.map_values(|p: (Seq<char>, Seq<char>)| spec_env_flag(p.0, p.1))
}

/// Renders one environment forwarding flag.
pub fn env_flag(name: &str, value: &str) -> (r: String)
    ensures
        r@ == spec_env_flag(name@, value@),
{
    let mut s = String::from_str("--env=");
    s.append(name);
    s.append("=");
    s.append(value);
    s
}

/// The text of one ID-mapping flag: the range's three numbers, colon
/// separated, in container-start, host-start, length order.
pub open spec fn spec_uidmap_flag(t: IdMapping) -> Seq<char> {
    "--uidmap="@ + spec_decimal(t.container_start as nat) + ":"@ + spec_decimal(
        t.host_start as nat,
    ) + ":"@ + spec_decimal(t.length as nat)
}

/// The three ID-mapping flags: exactly the computed mapping ranges of the
/// invoking identity, rendered in order.
pub open spec fn spec_uidmap_flags(real_uid: u32, max_id_count: u32) -> Seq<Seq<char>> {
    spec_compute(real_uid, max_id_count).map_values(|t: IdMapping| spec_uidmap_flag(t))
}

/// Renders one ID-mapping flag.
pub fn uidmap_flag(t: &IdMapping) -> (r: String)
    ensures
        r@ == spec_uidmap_flag(*t),
{
    let mut s = String::from_str("--uidmap=");
    let c = u32_to_decimal(t.container_start);
    s.append(c.as_str());
    s.append(":");
    let h = u32_to_decimal(t.host_start);
    s.append(h.as_str());
    s.append(":");
    let l = u32_to_decimal(t.length);
    s.append(l.as_str());
    s
}

/// Renders the three ID-mapping flags of the invoking identity.
pub fn uidmap_flags(real_uid: u32, max_id_count: u32) -> (r: Vec<String>)
    requires
        0 < real_uid,
        real_uid < max_id_count - 1,
    ensures
        r.deep_view() == spec_uidmap_flags(real_uid, max_id_count),
{
    let maps = compute(real_uid, max_id_count);
    let mut v: Vec<String> = Vec::new();
    v.push(uidmap_flag(&maps[0]));
    v.push(uidmap_flag(&maps[1]));
    v.push(uidmap_flag(&maps[2]));
    proof {
        assert(v.deep_view() =~= spec_uidmap_flags(real_uid, max_id_count));
    }
    v
}

/// The fixed leading arguments of every session: remove-on-exit,
/// interactive TTY, fixed hostname and container name, host networking,
/// privileged, and disabled mandatory-access-control labeling.
pub open spec fn spec_fixed_args() -> Seq<Seq<char>> {
    seq![
        "run"@,
        "--rm"@,
        "-ti"@,
        "--hostname"@,
        "toolbox"@,
        "--name"@,
        "coreos-toolbox"@,
        "--network"@,
        "host"@,
        "--privileged"@,
        "--security-opt"@,
        "label-disable"@,
    ]
}

/// The staged self-binary's mount flag: the binary appears in-container as
/// the entrypoint path.
pub open spec fn spec_entrypoint_volume(self_bin: Seq<char>) -> Seq<char> {
    spec_volume_flag(
        MountModel {
            host: self_bin,
            container: "/toolbox.entrypoint"@,
            propagation: Propagation::RecursiveSlave,
        },
    )
}

/// The whole engine argument list, in its fixed order: the fixed leading
/// arguments, the self-binary mount, the ID-mapping flags, the planned
/// mounts, the preserved environment, the entrypoint override, the image,
/// and any command override.
pub open spec fn spec_invocation(
    image: Seq<char>,
    command: Option<Seq<Seq<char>>>,
    self_bin: Seq<char>,
    real_uid: u32,
    t: HostTopology,
    env: Seq<(Seq<char>, Seq<char>)>,
) -> Seq<Seq<char>> {
    spec_fixed_args() + seq![spec_entrypoint_volume(self_bin)] + spec_uidmap_flags(
        real_uid,
        MAX_ID_COUNT,
    ) + spec_volume_flags(spec_plan(t)) + spec_env_flags(env) + seq![
        "--entrypoint=/toolbox.entrypoint"@,
    ] + seq![image] + (match command {
        Some(c) => c,
        None => Seq::<Seq<char>>::empty(),
    })
}

/// Assembles the engine invocation from the validated pieces. The invoking
/// identity must already have been found strictly inside the ID space.
pub fn assemble_invocation(
    config: &SessionConfig,
    self_bin: &str,
    real_uid: u32,
    t: &HostTopology,
    env: &Vec<(String, String)>,
) -> (argv: Vec<String>)
    requires
        0 < real_uid,
        real_uid < MAX_ID_COUNT - 1,
    ensures
        argv.deep_view() == spec_invocation(
            config.image@,
            config.command.deep_view(),
            self_bin@,
            real_uid,
            *t,
            env.deep_view(),
        ),
{
    let mut argv: Vec<String> = Vec::new();
    argv.push(String::from_str("run"));
    argv.push(String::from_str("--rm"));
    argv.push(String::from_str("-ti"));
    argv.push(String::from_str("--hostname"));
    argv.push(String::from_str("toolbox"));
    argv.push(String::from_str("--name"));
    argv.push(String::from_str("coreos-toolbox"));
    argv.push(String::from_str("--network"));
    argv.push(String::from_str("host"));
    argv.push(String::from_str("--privileged"));
    argv.push(String::from_str("--security-opt"));
    argv.push(String::from_str("label-disable"));
    proof {
        assert(argv.deep_view() =~= spec_fixed_args());
    }
    let entry_mount = MountSpec {
        host: String::from_str(self_bin),
        container: String::from_str("/toolbox.entrypoint"),
        propagation: Propagation::RecursiveSlave,
    };
    argv.push(volume_flag(&entry_mount));
    let ghost after_entry = spec_fixed_args() + seq![spec_entrypoint_volume(self_bin@)];
    proof {
        assert(argv.deep_view() =~= after_entry);
    }
    let maps = uidmap_flags(real_uid, MAX_ID_COUNT);
    proof {
        assert(maps@.len() == maps.deep_view().len());
        assert(maps.deep_view().len() == 3);
    }
    argv.push(maps[0].clone());
    argv.push(maps[1].clone());
    argv.push(maps[2].clone());
    let ghost after_maps = after_entry + spec_uidmap_flags(real_uid, MAX_ID_COUNT);
    proof {
        assert(maps.deep_view().len() == 3);
        assert(argv.deep_view() =~= after_maps);
    }
    let mounts = plan(t);
    let ghost mount_flags = spec_volume_flags(spec_plan(*t));
    let mut i: usize = 0;
    while i < mounts.len()
        invariant
            i <= mounts.len(),
            mounts.deep_view() == spec_plan(*t),
            mount_flags == spec_volume_flags(spec_plan(*t)),
            argv.deep_view() =~= after_maps + mount_flags.take(i as int),
        decreases mounts.len() - i,
    {
        let ghost pre = argv.deep_view();
        argv.push(volume_flag(&mounts[i]));
        proof {
            assert(argv.deep_view() =~= pre.push(spec_volume_flag(mounts.deep_view()[i as int])));
            assert(mount_flags[i as int] == spec_volume_flag(spec_plan(*t)[i as int]));
            assert(mount_flags.take(i as int + 1) =~= mount_flags.take(i as int).push(
                mount_flags[i as int],
            ));
        }
        i += 1;
    }
    let ghost after_mounts = after_maps + mount_flags;
    proof {
        assert(mount_flags.take(mounts.deep_view().len() as int) =~= mount_flags);
        assert(argv.deep_view() =~= after_mounts);
    }
    let ghost env_seq = spec_env_flags(env.deep_view());
    let mut j: usize = 0;
    while j < env.len()
        invariant
            j <= env.len(),
            env_seq == spec_env_flags(env.deep_view()),
            argv.deep_view() =~= after_mounts + env_seq.take(j as int),
        decreases env.len() - j,
    {
        let ghost pre = argv.deep_view();
        let pair = &env[j];
        argv.push(env_flag(pair.0.as_str(), pair.1.as_str()));
        proof {
            assert(argv.deep_view() =~= pre.push(
                spec_env_flag(env.deep_view()[j as int].0, env.deep_view()[j as int].1),
            ));
            assert(env_seq[j as int] == spec_env_flag(
                env.deep_view()[j as int].0,
                env.deep_view()[j as int].1,
            ));
            assert(env_seq.take(j as int + 1) =~= env_seq.take(j as int).push(env_seq[j as int]));
        }
        j += 1;
    }
    let ghost after_env = after_mounts + env_seq;
    proof {
        assert(env_seq.take(env.deep_view().len() as int) =~= env_seq);
        assert(argv.deep_view() =~= after_env);
    }
    argv.push(String::from_str("--entrypoint=/toolbox.entrypoint"));
    argv.push(config.image.clone());
    let ghost after_image = after_env + seq!["--entrypoint=/toolbox.entrypoint"@] + seq![
        config.image@,
    ];
    proof {
        assert(argv.deep_view() =~= after_image);
    }
    match &config.command {
        Some(cmd) => {
            let mut k: usize = 0;
            while k < cmd.len()
                invariant
                    k <= cmd.len(),
                    argv.deep_view() =~= after_image + cmd.deep_view().take(k as int),
                decreases cmd.len() - k,
            {
                let ghost pre = argv.deep_view();
                argv.push(cmd[k].clone());
                proof {
                    assert(argv.deep_view() =~= pre.push(cmd.deep_view()[k as int]));
                    assert(cmd.deep_view().take(k as int + 1) =~= cmd.deep_view().take(
                        k as int,
                    ).push(cmd.deep_view()[k as int]));
                }
                k += 1;
            }
            proof {
                assert(cmd.deep_view().take(cmd.deep_view().len() as int) =~= cmd.deep_view());
                assert(argv.deep_view() =~= after_image + cmd.deep_view());
            }
        },
        None => {
            proof {
                assert(argv.deep_view() =~= after_image + Seq::<Seq<char>>::empty());
            }
        },
    }
    proof {
        assert(argv.deep_view() =~= spec_invocation(
            config.image@,
            config.command.deep_view(),
            self_bin@,
            real_uid,
            *t,
            env.deep_view(),
        ));
    }
    argv
}

/// How the engine invocation ended, as the caller observed it.
pub enum EngineRunOutcome {
    /// The engine ran and its child exited with this status.
    Exited(i32),
    /// The engine process could not be started; carries the operation name.
    StartFailure(String),
}

/// Interprets the engine's exit: success only on a zero status; a non-zero
/// status surfaces the child's own status to the caller; a start failure
/// reports the engine unavailable.
pub fn conclude_run(outcome: EngineRunOutcome) -> (r: Result<(), LaunchError>)
    ensures
        r is Ok <==> (outcome is Exited && outcome->Exited_0 == 0),
        outcome is Exited && outcome->Exited_0 != 0 ==> (r matches Err(
            LaunchError::ChildProcessFailure(c),
        ) && c == outcome->Exited_0),
        outcome is StartFailure ==> (r matches Err(LaunchError::EngineUnavailable(m)) && m
            == outcome->StartFailure_0),
{
    match outcome {
        EngineRunOutcome::Exited(c) => {
            if c == 0 {
                Ok(())
            } else {
                Err(LaunchError::ChildProcessFailure(c))
            }
        },
        EngineRunOutcome::StartFailure(m) => Err(LaunchError::EngineUnavailable(m)),
    }
}

/// Demands the resolved path of the orchestrator's own executable: without
/// it nothing can be staged as the in-container entrypoint, which is fatal.
pub fn require_self_path(p: Option<String>) -> (r: Result<String, LaunchError>)
    ensures
        p matches Some(s) ==> (r matches Ok(v) && v == s),
        p is None ==> (r matches Err(LaunchError::SelfPathResolutionError(w)) && w@
            == "/proc/self/exe"@),
{
    match p {
        Some(s) => Ok(s),
        None => Err(LaunchError::SelfPathResolutionError(String::from_str("/proc/self/exe"))),
    }
}

} // verus!
