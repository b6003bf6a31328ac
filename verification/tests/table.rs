use arcbox::error::CoreError;
use arcbox::machine::{MachineMount, MachineState};
use arcbox::table::{needs_recovery, DistroSetup, MachineSettings, MachineTable, PersistedMachine};
use arcbox::vm::VmBackend;

fn settings() -> MachineSettings {
    MachineSettings {
        cpus: 2,
        memory_mb: 2048,
        disk_gb: 20,
        kernel: None,
        cmdline: Some("console=hvc0".to_string()),
        block_devices: Vec::new(),
        disk_path: Some("/data/dev.img".to_string()),
        backend: VmBackend::Vz,
        created_at: 1_700_000_000,
        mounts: vec![MachineMount {
            host_path: "/Users/me".to_string(),
            guest_path: "/mnt/me".to_string(),
            read_only: false,
        }],
    }
}

fn table() -> MachineTable {
    let mut t = MachineTable::new();
    t.create(
        "dev".to_string(),
        "vm-1".to_string(),
        settings(),
        Some(DistroSetup {
            name: "ubuntu".to_string(),
            version: Some("24.04".to_string()),
            ssh_key_path: "/keys/dev".to_string(),
        }),
    )
    .unwrap();
    t.create("plain".to_string(), "vm-2".to_string(), settings(), None).unwrap();
    t
}

#[test]
fn created_machines_hold_no_cid() {
    let t = table();
    assert_eq!(t.get_state("dev"), Some((MachineState::Created, None)));
    assert_eq!(t.ssh_key_path("dev"), Some("/keys/dev".to_string()));
    assert_eq!(t.ssh_key_path("plain"), None);
    assert!(t.has_machine("plain"));
    assert!(!t.has_machine("other"));
}

#[test]
fn duplicate_names_are_refused() {
    let mut t = table();
    match t.create("dev".to_string(), "vm-3".to_string(), settings(), None) {
        Err(CoreError::AlreadyExists(name)) => assert_eq!(name, "dev"),
        other => panic!("unexpected {other:?}"),
    }
    assert_eq!(t.get_state("dev"), Some((MachineState::Created, None)));
}

#[test]
fn start_assigns_the_lowest_free_cid() {
    let mut t = table();
    let (vm, cid) = t.assign_cid_for_start("dev").unwrap();
    assert_eq!((vm.as_str(), cid), ("vm-1", 3));
    t.mark_started("dev", cid, 1_700_000_100);
    let (_, cid2) = t.assign_cid_for_start("plain").unwrap();
    assert_eq!(cid2, 4);
    assert_eq!(
        t.assign_cid_for_start("dev").unwrap_err().to_string(),
        "machine 'dev' is already running"
    );
    assert!(matches!(
        t.assign_cid_for_start("ghost"),
        Err(CoreError::NotFound(ref n)) if n == "ghost"
    ));
}

#[test]
fn stop_clears_the_cid() {
    let mut t = table();
    t.mark_started("dev", 3, 1_700_000_100);
    assert_eq!(t.check_stop("dev").unwrap(), "vm-1");
    t.mark_stopped("dev");
    assert_eq!(t.get_state("dev"), Some((MachineState::Stopped, None)));
    assert_eq!(
        t.check_stop("dev").unwrap_err().to_string(),
        "machine 'dev' is not running"
    );
    assert!(matches!(t.check_stop("ghost"), Err(CoreError::NotFound(_))));
}

#[test]
fn graceful_stop_updates_the_record() {
    let mut t = table();
    t.mark_started("dev", 3, 1_700_000_100);
    assert_eq!(t.begin_graceful_stop("dev").unwrap(), "vm-1");
    assert_eq!(t.get_state("dev"), Some((MachineState::Stopping, Some(3))));
    assert!(matches!(t.finish_graceful_stop("dev", Ok(true)), Ok(true)));
    assert_eq!(t.get_state("dev"), Some((MachineState::Stopped, None)));

    t.mark_started("dev", 3, 1_700_000_200);
    t.begin_graceful_stop("dev").unwrap();
    assert!(matches!(t.finish_graceful_stop("dev", Ok(false)), Ok(false)));
    assert_eq!(t.get_state("dev"), Some((MachineState::Running, Some(3))));

    // A concurrent force stop is never undone.
    t.begin_graceful_stop("dev").unwrap();
    t.mark_stopped("dev");
    let r = t.finish_graceful_stop("dev", Err(CoreError::Vm("wait failed".to_string())));
    assert!(matches!(r, Err(CoreError::Vm(_))));
    assert_eq!(t.get_state("dev"), Some((MachineState::Stopped, None)));

    assert_eq!(
        t.begin_graceful_stop("plain").unwrap_err().to_string(),
        "machine 'plain' is not running"
    );
    assert!(matches!(t.finish_graceful_stop("ghost", Ok(true)), Err(CoreError::NotFound(_))));
}

fn persisted(name: &str, state: MachineState) -> PersistedMachine {
    PersistedMachine {
        name: name.to_string(),
        state,
        distro: Some("alpine".to_string()),
        distro_version: None,
        ssh_key_path: None,
        ip_address: Some("192.168.64.2".to_string()),
        started_at: Some(1_700_000_000),
        settings: settings(),
    }
}

#[test]
fn reload_recovers_running_machines_as_stopped() {
    let mut t = MachineTable::new();
    assert!(t.reload(persisted("a", MachineState::Running), "vm-a".to_string()));
    assert!(!t.reload(persisted("b", MachineState::Created), "vm-b".to_string()));
    assert_eq!(t.get_state("a"), Some((MachineState::Stopped, None)));
    assert_eq!(t.get_state("b"), Some((MachineState::Created, None)));
    let a = t.get("a").unwrap();
    assert_eq!(a.ip_address.as_deref(), Some("192.168.64.2"));
    assert_eq!(a.vm_id, "vm-a");
    assert!(needs_recovery(MachineState::Stopping));
    assert!(!needs_recovery(MachineState::Stopped));
    // Reloading a name again replaces its record.
    assert!(!t.reload(persisted("a", MachineState::Stopped), "vm-a2".to_string()));
    assert_eq!(t.check_backend_target("a").unwrap(), "vm-a2");
}

#[test]
fn backend_switch_and_ip_address() {
    let mut t = table();
    assert_eq!(t.check_backend_target("dev").unwrap(), "vm-1");
    t.mark_backend("dev", VmBackend::Hv);
    t.mark_started("dev", 3, 1_700_000_100);
    assert_eq!(
        t.check_backend_target("dev").unwrap_err().to_string(),
        "cannot switch backend while machine 'dev' is Running"
    );
    assert!(matches!(t.check_backend_target("ghost"), Err(CoreError::NotFound(_))));
    t.set_ip_address("dev", "192.168.64.5".to_string());
    let m = t.get("dev").unwrap();
    assert_eq!(m.ip_address.as_deref(), Some("192.168.64.5"));
    assert_eq!(m.started_at, Some(1_700_000_100));
    assert!(matches!(m.settings.backend, VmBackend::Hv));
    assert_eq!(m.settings.cpus, 2);
    assert_eq!(m.distro_version.as_deref(), Some("24.04"));
}
