use arcbox::error::CoreError;
use arcbox::machine::{
    boot_console, check_backend_switch, check_running, check_startable, default_distro_cmdline,
    finish_graceful_stop, force_stop_transition, lowest_free_cid, machine_shim_cmdline, mount_tag,
    plan_remove, begin_graceful_stop, rollback_stopping, validate_mount, BootShim,
    GracefulStopOutcome, HostArch, MachineBootKeys, MachineMount, MachineRootfs, MachineState,
};
use arcbox::provision::{
    plan_machine, reloaded_shares, BlockDevice, HostShares, MachineConfig,
};
use arcbox::vm::{
    check_restore_target, check_vm_reconfigurable, check_vm_removable, check_vm_running,
    after_shutdown_request, check_vm_startable, check_vm_stoppable, debug_console_socket, graceful_settle,
    graceful_start, graceful_wait, memory_bytes, rosetta_enabled, GracefulStart, GracefulWait,
    VmBackend,
};

fn keys() -> MachineBootKeys {
    MachineBootKeys {
        init_path: "/sbin/machine-init".to_string(),
        rootfs_key: "arcbox.rootfs=".to_string(),
        rootfs_type_key: "arcbox.rootfstype=".to_string(),
        data_key: "arcbox.data=".to_string(),
        mounts_key: "arcbox.mounts=".to_string(),
    }
}

fn mount(host: &str, guest: &str, read_only: bool) -> MachineMount {
    MachineMount {
        host_path: host.to_string(),
        guest_path: guest.to_string(),
        read_only,
    }
}

#[test]
fn kernel_command_lines() {
    assert_eq!(boot_console(HostArch::X86_64), "ttyS0");
    assert_eq!(boot_console(HostArch::Other), "hvc0");
    assert_eq!(mount_tag(0), "m0");
    assert_eq!(mount_tag(12), "m12");
    assert_eq!(
        default_distro_cmdline(HostArch::Other, "squashfs"),
        "console=hvc0 root=/dev/vda ro rootfstype=squashfs earlycon"
    );
    assert_eq!(
        machine_shim_cmdline(HostArch::X86_64, &keys(), "squashfs", &Vec::new()),
        "console=ttyS0 root=/dev/vda ro rootfstype=erofs earlycon init=/sbin/machine-init \
         arcbox.rootfs=/dev/vdb arcbox.rootfstype=squashfs arcbox.data=/dev/vdc"
    );
    let mounts = vec![mount("/a", "/work", false), mount("/b", "/data", true)];
    assert_eq!(
        machine_shim_cmdline(HostArch::Other, &keys(), "squashfs", &mounts),
        "console=hvc0 root=/dev/vda ro rootfstype=erofs earlycon init=/sbin/machine-init \
         arcbox.rootfs=/dev/vdb arcbox.rootfstype=squashfs arcbox.data=/dev/vdc \
         arcbox.mounts=m0=/work,m1=/data:ro"
    );
}

#[test]
fn mounts_are_validated() {
    assert!(validate_mount(&mount("/a", "/work", false), true).is_ok());
    assert_eq!(
        validate_mount(&mount("/a", "/work", false), false).unwrap_err().to_string(),
        "mount host path '/a' is not a directory"
    );
    assert_eq!(
        validate_mount(&mount("/a", "work", false), true).unwrap_err().to_string(),
        "mount guest path 'work' must be absolute"
    );
    assert_eq!(
        validate_mount(&mount("/a", "/w=x", false), true).unwrap_err().to_string(),
        "mount guest path '/w=x' must not contain ',' or '='"
    );
}

#[test]
fn cids_start_at_three_and_fill_gaps() {
    assert_eq!(lowest_free_cid(&[]), 3);
    assert_eq!(lowest_free_cid(&[Some(3), None, Some(4)]), 5);
    assert_eq!(lowest_free_cid(&[Some(4), Some(3), Some(6)]), 5);
    assert_eq!(lowest_free_cid(&[Some(5), Some(2)]), 3);
}

#[test]
fn machine_state_checks() {
    assert!(check_startable("m", MachineState::Stopped).is_ok());
    assert!(check_startable("m", MachineState::Created).is_ok());
    assert_eq!(
        check_startable("m", MachineState::Running).unwrap_err().to_string(),
        "machine 'm' is already running"
    );
    assert_eq!(
        check_startable("m", MachineState::Stopping).unwrap_err().to_string(),
        "machine 'm' is in transition state"
    );
    assert_eq!(
        check_running("m", MachineState::Created).unwrap_err().to_string(),
        "machine 'm' is not running"
    );
    assert_eq!(
        check_backend_switch("m", MachineState::Starting).unwrap_err().to_string(),
        "cannot switch backend while machine 'm' is Starting"
    );
    assert!(check_backend_switch("m", MachineState::Stopped).is_ok());
    assert_eq!(plan_remove(MachineState::Running, true).unwrap(), true);
    assert_eq!(plan_remove(MachineState::Stopped, false).unwrap(), false);
    assert_eq!(
        plan_remove(MachineState::Running, false).unwrap_err().to_string(),
        "cannot remove running machine (use --force)"
    );
}

#[test]
fn stop_transitions() {
    assert_eq!(
        force_stop_transition("m", MachineState::Stopping).unwrap(),
        MachineState::Stopped
    );
    assert!(force_stop_transition("m", MachineState::Created).is_err());
    assert_eq!(
        begin_graceful_stop("m", MachineState::Running).unwrap(),
        MachineState::Stopping
    );
    assert_eq!(rollback_stopping(MachineState::Stopping), MachineState::Running);
    assert_eq!(rollback_stopping(MachineState::Stopped), MachineState::Stopped);
    assert_eq!(
        finish_graceful_stop(MachineState::Stopping, GracefulStopOutcome::TimedOut),
        MachineState::Running
    );
    assert_eq!(
        finish_graceful_stop(MachineState::Stopped, GracefulStopOutcome::Failed),
        MachineState::Stopped
    );
    assert_eq!(
        finish_graceful_stop(MachineState::Stopping, GracefulStopOutcome::Stopped),
        MachineState::Stopped
    );
}

#[test]
fn vm_state_checks() {
    assert!(check_vm_startable(MachineState::Created).is_ok());
    assert_eq!(
        check_vm_startable(MachineState::Running).unwrap_err().to_string(),
        "cannot start VM in state Running"
    );
    assert_eq!(
        check_vm_stoppable(MachineState::Created).unwrap_err().to_string(),
        "cannot stop VM in state Created"
    );
    assert_eq!(
        check_vm_reconfigurable("guest_cid", MachineState::Starting)
            .unwrap_err()
            .to_string(),
        "cannot set guest_cid while VM is Starting"
    );
    assert!(check_vm_reconfigurable("backend", MachineState::Stopped).is_ok());
    assert_eq!(
        check_vm_running("cannot connect vsock: VM is ", MachineState::Stopped)
            .unwrap_err()
            .to_string(),
        "cannot connect vsock: VM is Stopped"
    );
    assert_eq!(
        check_vm_removable(MachineState::Running).unwrap_err().to_string(),
        "cannot remove running VM"
    );
}

#[test]
fn graceful_stop_protocol() {
    let start = |s| graceful_start("vm-1", Some(s));
    assert_eq!(start(MachineState::Running).unwrap(), GracefulStart::SendShutdown);
    assert_eq!(start(MachineState::Stopping).unwrap(), GracefulStart::AwaitStop);
    assert_eq!(start(MachineState::Stopped).unwrap(), GracefulStart::AlreadyStopped);
    assert!(start(MachineState::Starting).is_err());
    let w = graceful_wait("vm-1", Some(MachineState::Stopping), true);
    assert!(w.mark_stopping);
    assert_eq!(w.outcome.unwrap(), GracefulWait::TakeAndWait);
    let w = graceful_wait("vm-1", Some(MachineState::Stopped), true);
    assert!(!w.mark_stopping);
    assert_eq!(w.outcome.unwrap(), GracefulWait::AlreadyStopped);

    let done = graceful_settle(Some(MachineState::Stopping), Ok(true));
    assert_eq!(done.state, Some(MachineState::Stopped));
    assert!(!done.restore_vmm);
    assert!(matches!(done.result, Ok(true)));

    let timed_out = graceful_settle(Some(MachineState::Stopping), Ok(false));
    assert_eq!(timed_out.state, Some(MachineState::Running));
    assert!(timed_out.restore_vmm);
    assert!(matches!(timed_out.result, Ok(false)));

    // A concurrent stop already took the VM down: never resurrect it.
    let raced = graceful_settle(
        Some(MachineState::Stopped),
        Err(CoreError::Vm("wait failed".to_string())),
    );
    assert_eq!(raced.state, None);
    assert!(!raced.restore_vmm);
    assert!(matches!(raced.result, Err(CoreError::Vm(ref m)) if m == "wait failed"));

    let removed = graceful_settle(None, Ok(true));
    assert!(matches!(removed.result, Ok(true)));
    let removed = graceful_settle(None, Err(CoreError::LockPoisoned));
    assert!(matches!(removed.result, Ok(false)));
}

#[test]
fn snapshot_restore_targets() {
    assert!(check_restore_target("s1", true, "vm-a", "vm-a").is_ok());
    assert_eq!(
        check_restore_target("s1", false, "vm-a", "vm-a").unwrap_err().to_string(),
        "snapshot s1 is not a VM snapshot"
    );
    assert_eq!(
        check_restore_target("s1", true, "vm-b", "vm-a").unwrap_err().to_string(),
        "snapshot s1 belongs to VM vm-b, not vm-a"
    );
}

#[test]
fn vmm_config_pieces() {
    let key = "arcbox.debug_console=";
    assert_eq!(
        debug_console_socket(Some("console=hvc0 arcbox.debug_console=/tmp/c.sock quiet"), key),
        Some("/tmp/c.sock".to_string())
    );
    assert_eq!(
        debug_console_socket(Some("x=arcbox.debug_console=/no arcbox.debug_console=\t"), key),
        Some(String::new())
    );
    assert_eq!(debug_console_socket(Some("console=hvc0"), key), None);
    assert_eq!(debug_console_socket(None, key), None);
    assert!(rosetta_enabled(true, VmBackend::Vz));
    assert!(!rosetta_enabled(true, VmBackend::Hv));
    assert!(!rosetta_enabled(false, VmBackend::Vz));
    assert_eq!(memory_bytes(4096), 4096 * 1024 * 1024);
}

fn shares(users: bool, private: bool) -> HostShares {
    HostShares {
        data_dir: "/data".to_string(),
        data_tag: "arcbox".to_string(),
        users_path: "/Users".to_string(),
        users_tag: "users".to_string(),
        users_is_dir: users,
        private_path: "/private".to_string(),
        private_tag: "private".to_string(),
        private_is_dir: private,
    }
}

fn config(name: &str) -> MachineConfig {
    MachineConfig {
        name: name.to_string(),
        cpus: 2,
        memory_mb: 2048,
        disk_gb: 8,
        kernel: None,
        cmdline: None,
        block_devices: Vec::new(),
        rootfs: None,
        mounts: Vec::new(),
        distro: None,
        distro_version: None,
        backend: VmBackend::Vz,
        enable_rosetta: false,
    }
}

fn shim_rootfs() -> MachineRootfs {
    MachineRootfs {
        path: "/img/alpine.sqfs".to_string(),
        format: "squashfs".to_string(),
        shim: Some(BootShim {
            kernel: "/assets/kernel".to_string(),
            rootfs: "/assets/shim.erofs".to_string(),
        }),
    }
}

#[test]
fn machine_plans() {
    // A taken name is refused first.
    let err = plan_machine(&config("dev"), true, &Vec::new(), &shares(true, true), "/d", HostArch::Other, &keys())
        .unwrap_err();
    assert!(matches!(err, CoreError::AlreadyExists(ref n) if n == "dev"));

    // Mounts need the shim.
    let mut c = config("dev");
    c.mounts = vec![mount("/a", "/work", false)];
    let err = plan_machine(&c, false, &vec![true], &shares(false, false), "/d", HostArch::Other, &keys())
        .unwrap_err();
    assert_eq!(err.to_string(), "mounts require a shim-booted distro machine");

    // A shim-less rootfs needs a kernel.
    let mut c = config("dev");
    c.rootfs = Some(MachineRootfs { shim: None, ..shim_rootfs() });
    let err = plan_machine(&c, false, &Vec::new(), &shares(false, false), "/d", HostArch::Other, &keys())
        .unwrap_err();
    assert_eq!(
        err.to_string(),
        "a distro rootfs without a boot shim requires an explicit kernel (pass --kernel)"
    );

    // A shim machine with a mount and an extra device.
    let mut c = config("dev");
    c.rootfs = Some(shim_rootfs());
    c.mounts = vec![mount("/src", "/work", true)];
    c.block_devices = vec![BlockDevice { path: "/extra.img".to_string(), read_only: false }];
    let plan = plan_machine(&c, false, &vec![true], &shares(true, false), "/m/dev/data.img", HostArch::Other, &keys())
        .unwrap();
    let tags: Vec<&str> = plan.shared_dirs.iter().map(|s| s.tag.as_str()).collect();
    assert_eq!(tags, vec!["arcbox", "users", "m0"]);
    assert!(plan.shared_dirs[2].read_only);
    let devices: Vec<(&str, bool)> = plan
        .block_devices
        .iter()
        .map(|d| (d.path.as_str(), d.read_only))
        .collect();
    assert_eq!(
        devices,
        vec![
            ("/assets/shim.erofs", true),
            ("/img/alpine.sqfs", true),
            ("/m/dev/data.img", false),
            ("/extra.img", false),
        ]
    );
    assert_eq!(plan.kernel.as_deref(), Some("/assets/kernel"));
    assert_eq!(
        plan.cmdline.as_deref(),
        Some(machine_shim_cmdline(HostArch::Other, &keys(), "squashfs", &c.mounts).as_str())
    );
    assert_eq!(plan.data_disk, Some(("/m/dev/data.img".to_string(), 8 * 1024 * 1024 * 1024)));

    // A refused mount is reported with its own message.
    let err = plan_machine(&c, false, &vec![false], &shares(true, false), "/d", HostArch::Other, &keys())
        .unwrap_err();
    assert_eq!(err.to_string(), "mount host path '/src' is not a directory");

    // A plain VM keeps what it was given.
    let mut c = config("plain");
    c.kernel = Some("/k".to_string());
    c.cmdline = Some("quiet".to_string());
    let plan = plan_machine(&c, false, &Vec::new(), &shares(false, true), "/d", HostArch::Other, &keys())
        .unwrap();
    assert_eq!(plan.kernel.as_deref(), Some("/k"));
    assert_eq!(plan.cmdline.as_deref(), Some("quiet"));
    assert!(plan.block_devices.is_empty());
    assert!(plan.data_disk.is_none());
    assert_eq!(plan.shared_dirs.len(), 2);

    // A huge disk saturates.
    let mut c = config("big");
    c.rootfs = Some(shim_rootfs());
    c.disk_gb = u64::MAX;
    let plan = plan_machine(&c, false, &Vec::new(), &shares(false, false), "/d", HostArch::Other, &keys())
        .unwrap();
    assert_eq!(plan.data_disk.unwrap().1, u64::MAX);
}

#[test]
fn reloaded_machines_get_the_same_shares() {
    let mounts = vec![mount("/a", "/x", false), mount("/b", "/y", true)];
    let shares_now = reloaded_shares(&shares(true, true), &mounts);
    let tags: Vec<&str> = shares_now.iter().map(|s| s.tag.as_str()).collect();
    assert_eq!(tags, vec!["arcbox", "users", "private", "m0", "m1"]);
    assert!(shares_now[4].read_only);
}

#[test]
fn graceful_stop_refusals() {
    assert!(matches!(
        graceful_start("vm-9", None),
        Err(CoreError::NotFound(ref id)) if id == "vm-9"
    ));
    let w = graceful_wait("vm-9", None, false);
    assert!(!w.mark_stopping);
    assert!(matches!(w.outcome, Err(CoreError::NotFound(ref id)) if id == "vm-9"));
    let w = graceful_wait("vm-1", Some(MachineState::Running), false);
    assert!(w.mark_stopping);
    assert_eq!(w.outcome.unwrap_err().to_string(), "VMM not initialized");
}

#[test]
fn failed_shutdown_request_leaves_the_vm_running() {
    assert!(after_shutdown_request(true).is_none());
    let s = after_shutdown_request(false).unwrap();
    assert_eq!(s.state, None);
    assert!(!s.restore_vmm);
    assert!(matches!(s.result, Ok(false)));
}
