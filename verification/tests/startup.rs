use arcbox::address::{next_probe_delay, probe_timeout_error, INITIAL_PROBE_DELAY_MS};
use arcbox::address::{probe_ip_blocking, probe_system_info, select_routable_ip, ParsedIp, ProbeNext};
use arcbox::agent::PingResponse;
use arcbox::error::CoreError;
use arcbox::route::{add, remove, BridgeIface, HelperError, Subnet};
use arcbox::startup::{
    apply_daemon_overrides, dns_domain_from, dns_port_from, env_key, holders_step,
    is_daemon_path, needs_custom_dns_domain, process_alive, ready_banner, to_env_prefix,
    HolderWait, RuntimeSettings, Startup, VmArgs, DEFAULT_DNS_PORT,
};
use arcbox::usb::manager::{unsupported_platform_error, UsbManager};
use arcbox::usb::selector::UsbSelector;
use arcbox::usb::UsbDeviceInfo;

#[test]
fn startup_phases_run_in_order() {
    let startup = Startup::from_args("args", 7u8);
    let (args, handles) = startup.into_parts();
    assert_eq!((args, handles), ("args", 7u8));
    let startup = Startup::from_args("args", 7u8);
    let host = startup.prepare_host(1u32);
    assert_eq!(*host.early(), 1);
    let leased = host.acquire_daemon_lease("ctx");
    assert_eq!(*leased.ctx(), "ctx");
    let booted = leased.boot(vec![1, 2]);
    assert_eq!(booted.ctx().len(), 2);
    let services = booted.start_runtime_services("svc", false);
    assert!(!services.runs_linux_vm());
    let ready = services.mark_ready();
    assert_eq!(ready.into_context(), "svc");
}

#[test]
fn environment_settings() {
    assert_eq!(to_env_prefix("arcbox"), "ARCBOX");
    assert_eq!(to_env_prefix("arc-box"), "ARC_BOX");
    assert_eq!(env_key("DNS_PORT"), "ARCBOX_DNS_PORT");
    assert_eq!(dns_port_from(None), DEFAULT_DNS_PORT);
    assert_eq!(dns_port_from(Some("53")), 53);
    assert_eq!(dns_port_from(Some("+53")), 53);
    assert_eq!(dns_port_from(Some("65536")), 5553);
    assert_eq!(dns_port_from(Some(" 53")), 5553);
    assert_eq!(dns_domain_from(None), "arcbox.local");
    assert_eq!(dns_domain_from(Some("dev.test".to_string())), "dev.test");
    assert!(!needs_custom_dns_domain("arcbox.local"));
    assert!(needs_custom_dns_domain("arcbox.loca"));
    assert!(needs_custom_dns_domain("dev.test"));
}

#[test]
fn flags_win_over_the_config_file() {
    let mut s = RuntimeSettings {
        data_dir: "/old".to_string(),
        docker_socket: "/old.sock".to_string(),
        guest_docker_vsock_port: 2375,
        kernel_path: Some("/cfg/kernel".to_string()),
        autostart: true,
    };
    apply_daemon_overrides(
        &mut s,
        "/data",
        "/run/docker.sock",
        &VmArgs { guest_docker_vsock_port: None, kernel: None, no_linux_vm: false },
    );
    assert_eq!(s.data_dir, "/data");
    assert_eq!(s.docker_socket, "/run/docker.sock");
    assert_eq!(s.guest_docker_vsock_port, 2375);
    assert_eq!(s.kernel_path.as_deref(), Some("/cfg/kernel"));
    assert!(s.autostart);
    apply_daemon_overrides(
        &mut s,
        "/data",
        "/run/docker.sock",
        &VmArgs {
            guest_docker_vsock_port: Some(2376),
            kernel: Some("/cli/kernel".to_string()),
            no_linux_vm: true,
        },
    );
    assert_eq!(s.guest_docker_vsock_port, 2376);
    assert_eq!(s.kernel_path.as_deref(), Some("/cli/kernel"));
    assert!(!s.autostart);
}

#[test]
fn ready_banner_lines() {
    let lines = ready_banner(true, "/run/docker.sock", "/run/grpc.sock", 5553, "/data");
    assert_eq!(
        lines,
        vec![
            "ArcBox daemon started",
            "  Docker API: /run/docker.sock",
            "  gRPC API:   /run/grpc.sock",
            "  DNS:        127.0.0.1:5553",
            "  Data:       /data",
            "",
            "Use 'arcbox docker enable' to configure Docker CLI integration.",
            "Press Ctrl+C to stop.",
        ]
    );
    let lines = ready_banner(false, "/run/docker.sock", "/g", 53, "/d");
    assert_eq!(lines.len(), 7);
    assert_eq!(
        lines[5],
        "Running as a VM host only (--no-linux-vm): Docker and Kubernetes are disabled."
    );
}

#[test]
fn stale_daemon_checks() {
    assert!(is_daemon_path("/Applications/ArcBox.app/Contents/MacOS/arcbox-daemon"));
    assert!(is_daemon_path("/x/com.arcboxlabs.desktop.daemon"));
    assert!(!is_daemon_path("/usr/bin/arcbox"));
    assert!(process_alive(0, None, 1));
    assert!(process_alive(-1, Some(1), 1));
    assert!(!process_alive(-1, Some(3), 1));
    assert!(!process_alive(-1, None, 1));
    assert!(matches!(holders_step(&[42], 42, false), HolderWait::Released));
    assert!(matches!(holders_step(&[7, 42], 42, false), HolderWait::Wait));
    match holders_step(&[7, 42, 9], 42, true) {
        HolderWait::GiveUp(pids) => assert_eq!(pids, vec![7, 9]),
        other => panic!("unexpected {other:?}"),
    }
}

fn v4(a: u8, b: u8, c: u8, d: u8) -> Option<ParsedIp> {
    Some(ParsedIp::V4(u32::from_be_bytes([a, b, c, d])))
}

/// An IPv6 address from its first group and its last 64 bits.
fn v6(first: u16, low: u64) -> Option<ParsedIp> {
    Some(ParsedIp::V6((u128::from(first) << 112) | u128::from(low)))
}

#[test]
fn routable_address_choice() {
    // IPv4 wins over an earlier IPv6 candidate.
    assert_eq!(
        select_routable_ip(&[v6(0xfd00, 1), v4(192, 168, 64, 2)]),
        v4(192, 168, 64, 2)
    );
    // Loopback, multicast, unspecified and link-local are skipped; the first
    // remaining IPv6 address is kept.
    assert_eq!(
        select_routable_ip(&[
            None,
            v4(127, 0, 0, 1),
            v4(224, 0, 0, 1),
            v4(0, 0, 0, 0),
            v6(0, 1),
            v6(0xff02, 1),
            v6(0xfe80, 1),
            v6(0xfd00, 2),
            v6(0xfd00, 3),
        ]),
        v6(0xfd00, 2)
    );
    assert_eq!(select_routable_ip(&[v6(0xfe80, 0xabcd), None]), None);
    assert_eq!(select_routable_ip(&[]), None);
}

#[test]
fn probe_steps() {
    let ping = |pv| PingResponse {
        message: "pong".to_string(),
        version: "1".to_string(),
        protocol_version: pv,
    };
    assert!(matches!(
        probe_ip_blocking(Err(CoreError::Machine("refused".to_string()))),
        Ok(ProbeNext::Unreachable)
    ));
    assert!(matches!(probe_ip_blocking(Ok(ping(1))), Ok(ProbeNext::AskSystemInfo)));
    assert!(probe_ip_blocking(Ok(ping(0))).is_err());
    assert_eq!(probe_system_info(Ok(vec![v4(10, 0, 0, 5)])), v4(10, 0, 0, 5));
    assert_eq!(probe_system_info(Err(CoreError::LockPoisoned)), None);
}

#[test]
fn route_mutations_need_macos() {
    let subnet = Subnet { network: 0xc0a8_4000, prefix: 24 };
    let iface = BridgeIface { name: "bridge100".to_string() };
    match add(&subnet, &iface) {
        Err(HelperError::Other(m)) => assert_eq!(m, "route management requires macOS"),
        Ok(()) => panic!("route added"),
    }
    assert!(matches!(remove(&subnet), Err(HelperError::Other(_))));
}

fn info(id: u64, serial: Option<&str>) -> UsbDeviceInfo {
    UsbDeviceInfo {
        registry_id: id,
        vendor_id: 0x0403,
        product_id: 0x6001,
        name: Some("FT232R".to_string()),
        serial: serial.map(str::to_string),
    }
}

#[test]
fn usb_manager_lifecycle() {
    let sel: UsbSelector = "0403:6001".parse().unwrap();
    let mut m: UsbManager<u8, u32> = UsbManager::new();
    // Before the listener registers, attach and detach are refused.
    let err = m.attach_begin(&sel).unwrap_err();
    assert!(err.to_string().ends_with("the accessory listener is not registered"));
    assert!(m.detach_begin(&sel).is_err());

    m.listener_registered();
    m.accessory_connected(info(10, None), 1);
    assert_eq!(m.list().len(), 1);
    let (id, accessory) = m.attach_begin(&sel).unwrap();
    assert_eq!((id, accessory), (10, 1));
    // A failed attach reverts to available and returns the failure.
    let err = m.attach_finish(id, Err(CoreError::Vm("boom".to_string()))).unwrap_err();
    assert_eq!(err.to_string(), "boom");
    assert!(!m.list()[0].attached);
    let (id, _) = m.attach_begin(&sel).unwrap();
    m.attach_finish(id, Ok(99)).unwrap();
    assert!(m.list()[0].attached);
    // A failed detach leaves the device attached.
    let (id, device) = m.detach_begin(&sel).unwrap();
    assert_eq!(device, 99);
    assert!(m.detach_finish(id, Err(CoreError::Vm("busy".to_string()))).is_err());
    assert!(m.list()[0].attached);
    // Only the System VM's stop resets attachments.
    m.machine_stopped("other", "default");
    assert!(m.list()[0].attached);
    m.machine_stopped("default", "default");
    assert!(!m.list()[0].attached);
    // Disconnect reports whether the device was attached.
    let (id, _) = m.attach_begin(&sel).unwrap();
    m.attach_finish(id, Ok(5)).unwrap();
    assert!(m.accessory_disconnected(10));
    assert!(!m.accessory_disconnected(10));
    assert!(m.list().is_empty());
    assert_eq!(
        unsupported_platform_error().to_string(),
        "USB passthrough requires macOS 27 or later with the VZ backend"
    );
}

#[test]
fn resolver_hint_names_the_domain() {
    assert_eq!(arcbox::startup::check_resolver_installed("arcbox.local", true), None);
    assert_eq!(
        arcbox::startup::check_resolver_installed("arcbox.local", false).as_deref(),
        Some("Hint: Run 'sudo arcbox dns install' to enable *.arcbox.local DNS resolution.")
    );
}

#[test]
fn probe_backoff_grows_to_its_cap() {
    let mut delays = vec![INITIAL_PROBE_DELAY_MS];
    for _ in 0..7 {
        let next = next_probe_delay(*delays.last().unwrap());
        delays.push(next);
    }
    assert_eq!(delays, vec![50, 75, 112, 168, 252, 378, 500, 500]);
    assert_eq!(
        probe_timeout_error("dev").to_string(),
        "Machine 'dev' agent did not report a routable IP within timeout"
    );
}
