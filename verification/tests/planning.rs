use coretoolbox::idmap::IdMapping;
use coretoolbox::idmap::MAX_ID_COUNT;
use coretoolbox::idmap::compute;
use coretoolbox::idmap::plan_id_mappings;
use coretoolbox::mounts::HostTopology;
use coretoolbox::mounts::Propagation;
use coretoolbox::mounts::plan;
use coretoolbox::mounts::probe;

#[test]
fn mapping_example_values() {
    let maps = compute(1000, 65536);
    assert_eq!(maps.len(), 3);
    assert_eq!(maps[0], IdMapping { container_start: 1000, host_start: 0, length: 1 });
    assert_eq!(maps[1], IdMapping { container_start: 0, host_start: 1, length: 1000 });
    assert_eq!(maps[2], IdMapping { container_start: 1001, host_start: 1001, length: 64536 });
}

#[test]
fn mapping_boundaries_refused() {
    assert!(plan_id_mappings(0, MAX_ID_COUNT).is_none());
    assert!(plan_id_mappings(65535, MAX_ID_COUNT).is_none());
    assert!(plan_id_mappings(65536, MAX_ID_COUNT).is_none());
    let maps = plan_id_mappings(65534, MAX_ID_COUNT).expect("interior identity");
    assert_eq!(maps[2], IdMapping { container_start: 65535, host_start: 65535, length: 2 });
}

#[test]
fn mapping_covers_space_once() {
    let maps = compute(1000, 65536);
    for id in [0u64, 1, 999, 1000, 1001, 65535] {
        let covering = maps
            .iter()
            .filter(|m| {
                let s = m.container_start as u64;
                s <= id && id < s + m.length as u64
            })
            .count();
        assert_eq!(covering, 1, "container id {} covered once", id);
        let covering_host = maps
            .iter()
            .filter(|m| {
                let s = m.host_start as u64;
                s <= id && id < s + m.length as u64
            })
            .count();
        assert_eq!(covering_host, 1, "host id {} covered once", id);
    }
}

#[test]
fn plan_ostree_topology() {
    let t = HostTopology { ostree_based: true, devices: vec!["/dev/fuse".to_string()] };
    let mounts = plan(&t);
    let hosts: Vec<&str> = mounts.iter().map(|m| m.host.as_str()).collect();
    assert_eq!(hosts, vec!["/dev/fuse", "/usr", "/var", "/etc", "/run", "/sysroot"]);
    let containers: Vec<&str> = mounts.iter().map(|m| m.container.as_str()).collect();
    assert_eq!(
        containers,
        vec!["/dev/fuse", "/host/usr", "/host/var", "/host/etc", "/host/run", "/host/sysroot"]
    );
    for m in &mounts {
        assert_eq!(m.propagation, Propagation::RecursiveSlave);
    }
}

#[test]
fn plan_conventional_topology() {
    let t = HostTopology { ostree_based: false, devices: vec![] };
    let mounts = plan(&t);
    let hosts: Vec<&str> = mounts.iter().map(|m| m.host.as_str()).collect();
    assert_eq!(hosts, vec!["/usr", "/var", "/etc", "/run", "/media", "/mnt", "/home", "/srv"]);
    assert!(mounts.iter().all(|m| m.host != "/sysroot"));
}

#[test]
fn plan_emits_only_probed_devices() {
    let t = HostTopology { ostree_based: true, devices: vec![] };
    let mounts = plan(&t);
    assert!(mounts.iter().all(|m| !m.host.starts_with("/dev/")));
    let t2 = HostTopology {
        ostree_based: true,
        devices: vec!["/dev/bus".to_string(), "/dev/dri".to_string()],
    };
    let mounts2 = plan(&t2);
    assert!(mounts2.iter().any(|m| m.host == "/dev/bus" && m.container == "/dev/bus"));
    assert!(mounts2.iter().any(|m| m.host == "/dev/dri"));
    assert!(mounts2.iter().all(|m| m.host != "/dev/fuse"));
}

#[test]
fn probe_feeds_plan() {
    let t = probe();
    let mounts = plan(&t);
    assert!(mounts.len() >= 5);
    assert!(mounts.iter().any(|m| m.host == "/usr" && m.container == "/host/usr"));
}
