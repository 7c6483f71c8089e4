use coretoolbox::engine::engine_binary;
use coretoolbox::engine::image_list_argv;
use coretoolbox::engine::inspect_argv;
use coretoolbox::engine::pull_argv;
use coretoolbox::engine::varlink_activation_command;
use coretoolbox::envpass::EnvState;
use coretoolbox::envpass::collect_preserved;
use coretoolbox::envpass::getenv_required_utf8;
use coretoolbox::envpass::preserved_env_names;
use coretoolbox::errors::LaunchError;
use coretoolbox::launcher::EngineRunOutcome;
use coretoolbox::launcher::SessionConfig;
use coretoolbox::launcher::assemble_invocation;
use coretoolbox::launcher::conclude_run;
use coretoolbox::launcher::default_image;
use coretoolbox::launcher::env_flag;
use coretoolbox::launcher::invoking_id_mappings;
use coretoolbox::launcher::require_self_path;
use coretoolbox::launcher::uidmap_flags;
use coretoolbox::mode::Mode;
use coretoolbox::mode::select_mode;
use coretoolbox::mounts::HostTopology;
use coretoolbox::strutil::u32_to_decimal;

#[test]
fn decimal_rendering() {
    assert_eq!(u32_to_decimal(0), "0");
    assert_eq!(u32_to_decimal(7), "7");
    assert_eq!(u32_to_decimal(10), "10");
    assert_eq!(u32_to_decimal(65536), "65536");
    assert_eq!(u32_to_decimal(4294967295), "4294967295");
}

#[test]
fn mode_from_invocation_identity() {
    assert_eq!(select_mode("/toolbox.entrypoint", false), Mode::Entrypoint);
    assert_eq!(select_mode("/usr/bin/coretoolbox", true), Mode::Entrypoint);
    assert_eq!(select_mode("/usr/bin/coretoolbox", false), Mode::Host);
    assert_eq!(select_mode("entrypoint", false), Mode::Host);
}

#[test]
fn engine_binary_override() {
    assert_eq!(engine_binary(None), "podman");
    assert_eq!(engine_binary(Some("/opt/podman".to_string())), "/opt/podman");
    assert_eq!(varlink_activation_command("podman"), "podman varlink $VARLINK_ADDRESS");
}

#[test]
fn query_argument_lists() {
    assert_eq!(inspect_argv("my/image:tag"), vec!["inspect", "my/image:tag"]);
    assert_eq!(pull_argv("my/image:tag"), vec!["pull", "my/image:tag"]);
    assert_eq!(
        image_list_argv(&vec!["--filter".to_string(), "dangling=false".to_string()]),
        vec!["images", "--format", "json", "--filter", "dangling=false"]
    );
}

#[test]
fn uidmap_flag_text() {
    let flags = uidmap_flags(1000, 65536);
    assert_eq!(flags, vec!["--uidmap=1000:0:1", "--uidmap=0:1:1000", "--uidmap=1001:1001:64536"]);
}

#[test]
fn allowlist_order_and_contents() {
    let names = preserved_env_names();
    assert_eq!(names.len(), 18);
    assert_eq!(names[0], "COLORTERM");
    assert_eq!(names[7], "TERM");
    assert_eq!(names[17], "XDG_VTNR");
}

#[test]
fn absent_names_are_not_forwarded() {
    let lookups = vec![
        ("COLORTERM".to_string(), EnvState::Unset),
        ("TERM".to_string(), EnvState::Text("xterm".to_string())),
        ("LANG".to_string(), EnvState::Unset),
        ("SHELL".to_string(), EnvState::Text("/bin/bash".to_string())),
    ];
    let pairs = collect_preserved(lookups).unwrap();
    assert_eq!(
        pairs,
        vec![
            ("TERM".to_string(), "xterm".to_string()),
            ("SHELL".to_string(), "/bin/bash".to_string()),
        ]
    );
    assert!(pairs.iter().all(|p| p.0 != "COLORTERM" && p.0 != "LANG"));
}

#[test]
fn invalid_text_fails_naming_the_variable() {
    let lookups = vec![
        ("TERM".to_string(), EnvState::Text("xterm".to_string())),
        ("DISPLAY".to_string(), EnvState::NotText),
    ];
    match collect_preserved(lookups) {
        Err(e) => {
            match &e {
                LaunchError::EnvEncodingError(name) => assert_eq!(name, "DISPLAY"),
                other => panic!("expected an encoding error, got {:?}", other),
            }
            assert_eq!(e.message(), "DISPLAY contains invalid UTF-8");
        },
        Ok(p) => panic!("expected a failure, got {:?}", p),
    }
}

#[test]
fn first_offending_variable_is_named() {
    let lookups = vec![
        ("TERM".to_string(), EnvState::Unset),
        ("DISPLAY".to_string(), EnvState::NotText),
        ("LANG".to_string(), EnvState::NotText),
    ];
    match collect_preserved(lookups) {
        Err(LaunchError::EnvEncodingError(name)) => assert_eq!(name, "DISPLAY"),
        other => panic!("expected an encoding error, got {:?}", other),
    }
}

#[test]
fn image_listing_without_filters() {
    assert_eq!(image_list_argv(&vec![]), vec!["images", "--format", "json"]);
}

#[test]
fn required_env_lookup() {
    let ok = getenv_required_utf8("XDG_RUNTIME_DIR", EnvState::Text("/run/user/1000".to_string()));
    assert_eq!(ok.unwrap(), "/run/user/1000");
    let bad = getenv_required_utf8("XDG_RUNTIME_DIR", EnvState::NotText);
    assert!(matches!(bad, Err(LaunchError::EnvEncodingError(_))));
    let unset = getenv_required_utf8("XDG_RUNTIME_DIR", EnvState::Unset);
    assert!(matches!(unset, Err(LaunchError::SelfPathResolutionError(_))));
}

#[test]
fn self_path_is_required() {
    assert_eq!(require_self_path(Some("/usr/bin/ct".to_string())).unwrap(), "/usr/bin/ct");
    let missing = require_self_path(None);
    assert!(matches!(missing, Err(LaunchError::SelfPathResolutionError(_))));
}

#[test]
fn engine_exit_is_surfaced() {
    assert!(conclude_run(EngineRunOutcome::Exited(0)).is_ok());
    match conclude_run(EngineRunOutcome::Exited(7)) {
        Err(e) => {
            assert!(matches!(e, LaunchError::ChildProcessFailure(7)));
            assert_eq!(e.child_exit_code(), Some(7));
            assert_eq!(e.message(), "container exited with status 7");
        },
        Ok(()) => panic!("expected a child failure"),
    }
    match conclude_run(EngineRunOutcome::Exited(-2)) {
        Err(e) => assert_eq!(e.message(), "container exited with status -2"),
        Ok(()) => panic!("expected a child failure"),
    }
    let start = conclude_run(EngineRunOutcome::StartFailure("run".to_string()));
    assert!(matches!(start, Err(LaunchError::EngineUnavailable(_))));
}

#[test]
fn error_messages_carry_context() {
    assert_eq!(
        LaunchError::PullFailure("my/image:tag".to_string()).message(),
        "failed to pull image my/image:tag"
    );
    assert_eq!(
        LaunchError::InspectFailure("socket closed".to_string()).message(),
        "failed to inspect: socket closed"
    );
    assert_eq!(
        LaunchError::EngineUnavailable("inspect".to_string()).message(),
        "failed to start container engine: inspect"
    );
    assert_eq!(LaunchError::PullFailure("x".to_string()).child_exit_code(), None);
}

#[test]
fn full_invocation_ostree() {
    let config = SessionConfig { image: "my/image:tag".to_string(), command: None };
    let topo = HostTopology { ostree_based: true, devices: vec!["/dev/fuse".to_string()] };
    let env = vec![("TERM".to_string(), "xterm".to_string())];
    let argv = assemble_invocation(&config, "/usr/bin/ct", 1000, &topo, &env);
    let expected: Vec<&str> = vec![
        "run",
        "--rm",
        "-ti",
        "--hostname",
        "toolbox",
        "--name",
        "coreos-toolbox",
        "--network",
        "host",
        "--privileged",
        "--security-opt",
        "label-disable",
        "--volume=/usr/bin/ct:/toolbox.entrypoint:rslave",
        "--uidmap=1000:0:1",
        "--uidmap=0:1:1000",
        "--uidmap=1001:1001:64536",
        "--volume=/dev/fuse:/dev/fuse:rslave",
        "--volume=/usr:/host/usr:rslave",
        "--volume=/var:/host/var:rslave",
        "--volume=/etc:/host/etc:rslave",
        "--volume=/run:/host/run:rslave",
        "--volume=/sysroot:/host/sysroot:rslave",
        "--env=TERM=xterm",
        "--entrypoint=/toolbox.entrypoint",
        "my/image:tag",
    ];
    assert_eq!(argv, expected);
}

#[test]
fn full_invocation_conventional_with_command() {
    let config = SessionConfig {
        image: default_image().to_string(),
        command: Some(vec!["bash".to_string(), "-l".to_string()]),
    };
    let topo = HostTopology { ostree_based: false, devices: vec![] };
    let env: Vec<(String, String)> = vec![];
    let argv = assemble_invocation(&config, "/usr/bin/ct", 1, &topo, &env);
    assert_eq!(argv[12], "--volume=/usr/bin/ct:/toolbox.entrypoint:rslave");
    assert_eq!(argv[13], "--uidmap=1:0:1");
    assert_eq!(argv[14], "--uidmap=0:1:1");
    assert_eq!(argv[15], "--uidmap=2:2:65535");
    assert!(argv.contains(&"--volume=/home:/host/home:rslave".to_string()));
    assert!(argv.iter().all(|a| !a.contains("/sysroot")));
    assert_eq!(argv[argv.len() - 3], "registry.fedoraproject.org/f30/fedora-toolbox:30");
    assert_eq!(argv[argv.len() - 2], "bash");
    assert_eq!(argv[argv.len() - 1], "-l");
    assert!(env_flag("TERM", "xterm") == "--env=TERM=xterm");
}

#[test]
fn invoking_identity_is_validated() {
    let (uid, maps) = invoking_id_mappings();
    assert_eq!(maps.is_some(), uid > 0 && uid < 65535);
    if let Some(m) = maps {
        assert_eq!(m.len(), 3);
        assert_eq!(m[0].container_start, uid);
    }
}
