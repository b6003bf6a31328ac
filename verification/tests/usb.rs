use arcbox::usb::annotate::annotate_guest_paths;
use arcbox::usb::registry::UsbRegistry;
use arcbox::usb::selector::UsbSelector;
use arcbox::usb::{GuestUsbDevice, UsbDeviceInfo, UsbDeviceSnapshot};

fn info(id: u64, vid: u16, pid: u16, serial: Option<&str>) -> UsbDeviceInfo {
    UsbDeviceInfo {
        registry_id: id,
        vendor_id: vid,
        product_id: pid,
        name: None,
        serial: serial.map(str::to_string),
    }
}

fn selector(vid: u16, pid: u16, serial: Option<&str>) -> UsbSelector {
    UsbSelector {
        vendor_id: vid,
        product_id: pid,
        serial: serial.map(str::to_string),
    }
}

#[test]
fn connect_disconnect_lifecycle() {
    let mut reg: UsbRegistry<(), ()> = UsbRegistry::new();
    reg.connect(info(1, 0x1234, 0x5678, None), ());
    assert_eq!(reg.list().len(), 1);
    assert!(!reg.list()[0].attached);

    assert!(reg.disconnect(1).is_some());
    assert!(reg.disconnect(1).is_none());
    assert!(reg.list().is_empty());
}

#[test]
fn resolve_by_vid_pid_and_serial() {
    let mut reg: UsbRegistry<(), ()> = UsbRegistry::new();
    reg.connect(info(1, 0x1234, 0x5678, Some("AAA")), ());
    reg.connect(info(2, 0x1234, 0x5678, Some("BBB")), ());
    reg.connect(info(3, 0xffff, 0x0001, None), ());

    // Unique vid:pid resolves without a serial.
    assert_eq!(reg.resolve(&selector(0xffff, 0x0001, None)).unwrap(), 3);
    // Duplicate vid:pid needs the serial.
    assert!(reg.resolve(&selector(0x1234, 0x5678, None)).is_err());
    assert_eq!(
        reg.resolve(&selector(0x1234, 0x5678, Some("BBB"))).unwrap(),
        2
    );
    // No match.
    assert!(reg.resolve(&selector(0x0000, 0x0000, None)).is_err());
}

#[test]
fn attach_state_machine() {
    let mut reg: UsbRegistry<(), u32> = UsbRegistry::new();
    reg.connect(info(1, 0x1234, 0x5678, None), ());
    let sel = selector(0x1234, 0x5678, None);

    // Detach before attach is rejected.
    assert!(reg.begin_detach(&sel).is_err());

    let (id, ()) = reg.begin_attach(&sel).unwrap();
    assert_eq!(id, 1);
    // Double attach (in progress) is rejected.
    assert!(reg.begin_attach(&sel).is_err());

    reg.complete_attach(id, 42);
    assert!(reg.list()[0].attached);
    // Attach on an attached device is rejected.
    assert!(reg.begin_attach(&sel).is_err());

    let (id, device) = reg.begin_detach(&sel).unwrap();
    assert_eq!(device, 42);
    // Still attached until the detach completes.
    assert!(reg.list()[0].attached);
    reg.complete_detach(id);
    assert!(!reg.list()[0].attached);

    // Full cycle again works.
    assert!(reg.begin_attach(&sel).is_ok());
}

#[test]
fn failed_attach_reverts_to_available() {
    let mut reg: UsbRegistry<(), u32> = UsbRegistry::new();
    reg.connect(info(1, 0x1234, 0x5678, None), ());
    let sel = selector(0x1234, 0x5678, None);

    let (id, ()) = reg.begin_attach(&sel).unwrap();
    reg.abort_attach(id);
    assert!(!reg.list()[0].attached);
    assert!(reg.begin_attach(&sel).is_ok());
}

#[test]
fn vm_stop_resets_attachments() {
    let mut reg: UsbRegistry<(), u32> = UsbRegistry::new();
    reg.connect(info(1, 0x1234, 0x5678, None), ());
    let sel = selector(0x1234, 0x5678, None);

    let (id, ()) = reg.begin_attach(&sel).unwrap();
    reg.complete_attach(id, 42);
    assert!(reg.list()[0].attached);

    reg.reset_attachments();
    assert!(!reg.list()[0].attached);
    assert!(reg.begin_attach(&sel).is_ok());
}

#[test]
fn disconnect_while_attaching_drops_late_completion() {
    let mut reg: UsbRegistry<(), u32> = UsbRegistry::new();
    reg.connect(info(1, 0x1234, 0x5678, None), ());
    let sel = selector(0x1234, 0x5678, None);

    let (id, ()) = reg.begin_attach(&sel).unwrap();
    assert!(reg.disconnect(id).is_some());
    // The late completion for a vanished entry is a no-op.
    reg.complete_attach(id, 42);
    assert!(reg.list().is_empty());
}

#[test]
fn registry_lists_in_id_order_and_replaces_stale_entries() {
    let mut reg: UsbRegistry<u8, u32> = UsbRegistry::new();
    reg.connect(info(7, 0x0001, 0x0001, None), 1);
    reg.connect(info(3, 0x0002, 0x0002, None), 2);
    reg.connect(info(7, 0x0003, 0x0003, Some("NEW")), 3);
    let listed = reg.list();
    assert_eq!(listed.len(), 2);
    assert_eq!(listed[0].info.registry_id, 3);
    assert_eq!(listed[1].info.registry_id, 7);
    assert_eq!(listed[1].info.vendor_id, 0x0003);
    assert_eq!(listed[1].info.serial.as_deref(), Some("NEW"));
}

#[test]
fn registry_error_messages_name_the_selector() {
    let mut reg: UsbRegistry<(), u32> = UsbRegistry::new();
    reg.connect(info(1, 0x1234, 0x5678, Some("AAA")), ());
    reg.connect(info(2, 0x1234, 0x5678, Some("BBB")), ());
    let missing = reg.resolve(&selector(0x0403, 0x6001, None)).unwrap_err();
    assert_eq!(missing.to_string(), "USB device 0403:6001");
    let ambiguous = reg.resolve(&selector(0x1234, 0x5678, None)).unwrap_err();
    assert_eq!(
        ambiguous.to_string(),
        "USB selector 1234:5678 matches multiple devices; disambiguate with a serial (vid:pid:serial)"
    );
    let sel = selector(0x1234, 0x5678, Some("AAA"));
    assert_eq!(
        reg.begin_detach(&sel).unwrap_err().to_string(),
        "USB device 1234:5678:AAA is not attached"
    );
}

#[test]
fn parses_vid_pid() {
    let sel: UsbSelector = "0403:6001".parse().unwrap();
    assert_eq!(sel.vendor_id, 0x0403);
    assert_eq!(sel.product_id, 0x6001);
    assert_eq!(sel.serial, None);
    assert_eq!(sel.to_string(), "0403:6001");
}

#[test]
fn parses_serial_including_colons() {
    let sel: UsbSelector = "0403:6001:FT:A1".parse().unwrap();
    assert_eq!(sel.serial.as_deref(), Some("FT:A1"));
    assert_eq!(sel.to_string(), "0403:6001:FT:A1");
}

#[test]
fn accepts_short_hex_and_uppercase() {
    let sel: UsbSelector = "403:1".parse().unwrap();
    assert_eq!(sel.vendor_id, 0x0403);
    assert_eq!(sel.product_id, 0x0001);
    let sel: UsbSelector = "04FB:C532".parse().unwrap();
    assert_eq!(sel.vendor_id, 0x04fb);
    assert_eq!(sel.product_id, 0xc532);
}

#[test]
fn rejects_malformed() {
    for input in [
        "",
        "0403",
        "0403:",
        ":6001",
        "0403:60011",
        "xyz:6001",
        "0403:60g1",
    ] {
        assert!(input.parse::<UsbSelector>().is_err(), "accepted {input:?}");
    }
    // Trailing empty serial is treated as absent, not an error.
    let sel: UsbSelector = "0403:6001:".parse().unwrap();
    assert_eq!(sel.serial, None);
}

#[test]
fn matching_honors_optional_serial() {
    let info = UsbDeviceInfo {
        registry_id: 1,
        vendor_id: 0x0403,
        product_id: 0x6001,
        name: None,
        serial: Some("AAA".to_string()),
    };
    let base: UsbSelector = "0403:6001".parse().unwrap();
    assert!(base.matches(&info));
    let exact: UsbSelector = "0403:6001:AAA".parse().unwrap();
    assert!(exact.matches(&info));
    let wrong: UsbSelector = "0403:6001:BBB".parse().unwrap();
    assert!(!wrong.matches(&info));
    let other: UsbSelector = "0403:6002".parse().unwrap();
    assert!(!other.matches(&info));
}

#[test]
fn invalid_selector_message_quotes_the_input() {
    let err = UsbSelector::parse("xyz").unwrap_err();
    assert_eq!(
        err.to_string(),
        "invalid USB selector 'xyz': expected vid:pid[:serial] with 4-digit-max hex vid/pid (e.g. 0403:6001)"
    );
}

fn snapshot(vid: u16, pid: u16, serial: Option<&str>, attached: bool) -> UsbDeviceSnapshot {
    UsbDeviceSnapshot {
        info: UsbDeviceInfo {
            registry_id: 0,
            vendor_id: vid,
            product_id: pid,
            name: None,
            serial: serial.map(str::to_string),
        },
        attached,
        guest_path: None,
    }
}

fn guest(vid: u16, pid: u16, serial: Option<&str>, path: &str) -> GuestUsbDevice {
    GuestUsbDevice {
        vendor_id: vid,
        product_id: pid,
        serial: serial.map(str::to_string),
        dev_path: path.to_string(),
    }
}

#[test]
fn serial_match_wins_over_vid_pid_order() {
    let mut snapshots = vec![snapshot(0x1234, 0x5678, Some("BBB"), true)];
    let devices = vec![
        guest(0x1234, 0x5678, Some("AAA"), "/dev/bus/usb/001/002"),
        guest(0x1234, 0x5678, Some("BBB"), "/dev/bus/usb/001/003"),
    ];
    annotate_guest_paths(&mut snapshots, &devices);
    assert_eq!(
        snapshots[0].guest_path.as_deref(),
        Some("/dev/bus/usb/001/003")
    );
}

#[test]
fn serial_less_duplicates_pair_off() {
    let mut snapshots = vec![
        snapshot(0x1234, 0x5678, None, true),
        snapshot(0x1234, 0x5678, None, true),
    ];
    let devices = vec![
        guest(0x1234, 0x5678, None, "/dev/bus/usb/001/002"),
        guest(0x1234, 0x5678, None, "/dev/bus/usb/001/003"),
    ];
    annotate_guest_paths(&mut snapshots, &devices);
    assert_eq!(
        snapshots[0].guest_path.as_deref(),
        Some("/dev/bus/usb/001/002")
    );
    assert_eq!(
        snapshots[1].guest_path.as_deref(),
        Some("/dev/bus/usb/001/003")
    );
}

#[test]
fn detached_and_unmatched_stay_unannotated() {
    let mut snapshots = vec![
        snapshot(0x1234, 0x5678, None, false),
        snapshot(0xffff, 0x0001, None, true),
    ];
    let devices = vec![guest(0x1234, 0x5678, None, "/dev/bus/usb/001/002")];
    annotate_guest_paths(&mut snapshots, &devices);
    assert!(snapshots[0].guest_path.is_none());
    assert!(snapshots[1].guest_path.is_none());
}

#[test]
fn annotation_keeps_an_existing_guest_path() {
    let mut snapshots = vec![snapshot(0x1234, 0x5678, None, true)];
    snapshots[0].guest_path = Some("/dev/bus/usb/009/009".to_string());
    let devices = vec![guest(0x1234, 0x5678, None, "/dev/bus/usb/001/002")];
    annotate_guest_paths(&mut snapshots, &devices);
    assert_eq!(
        snapshots[0].guest_path.as_deref(),
        Some("/dev/bus/usb/009/009")
    );
}

#[test]
fn rejects_signed_hex_parts() {
    for input in ["+403:6001", "0403:+601", "+:6001"] {
        assert!(UsbSelector::parse(input).is_err(), "accepted {input:?}");
    }
}
