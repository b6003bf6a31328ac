use arcbox::guest::{list_usb_devices, parse_usb_device, UsbAttrFiles};

/// The attribute files of a fake sysfs device directory, as written with a
/// trailing newline.
fn device(attrs: &[(&str, &str)]) -> UsbAttrFiles {
    let get = |name: &str| {
        attrs
            .iter()
            .find(|(a, _)| *a == name)
            .map(|(_, v)| format!("{v}\n"))
    };
    UsbAttrFiles {
        busnum: get("busnum"),
        devnum: get("devnum"),
        id_vendor: get("idVendor"),
        id_product: get("idProduct"),
        serial: get("serial"),
    }
}

#[test]
fn parses_devices_and_skips_interfaces() {
    let entries = vec![
        // 1-1
        device(&[
            ("busnum", "1"),
            ("devnum", "2"),
            ("idVendor", "0403"),
            ("idProduct", "6001"),
            ("serial", "FTA1B2C3"),
        ]),
        // 1-1:1.0, an interface entry: no busnum/devnum/id attributes.
        device(&[("bInterfaceClass", "ff")]),
        // usb1, a root hub with no serial.
        device(&[
            ("busnum", "1"),
            ("devnum", "1"),
            ("idVendor", "1d6b"),
            ("idProduct", "0002"),
        ]),
    ];

    let devices = list_usb_devices(&entries);
    assert_eq!(devices.len(), 2);

    assert_eq!(devices[0].dev_path, "/dev/bus/usb/001/001");
    assert_eq!(devices[0].vendor_id, 0x1d6b);
    assert_eq!(devices[0].product_id, 0x0002);
    assert_eq!(devices[0].serial, "");

    assert_eq!(devices[1].dev_path, "/dev/bus/usb/001/002");
    assert_eq!(devices[1].vendor_id, 0x0403);
    assert_eq!(devices[1].product_id, 0x6001);
    assert_eq!(devices[1].serial, "FTA1B2C3");
}

#[test]
fn malformed_attributes_skip_the_entry() {
    let entries = vec![
        // 2-1
        device(&[
            ("busnum", "not-a-number"),
            ("devnum", "2"),
            ("idVendor", "0403"),
            ("idProduct", "6001"),
        ]),
        // 2-2: vendor ID out of u16 hex range.
        device(&[
            ("busnum", "2"),
            ("devnum", "3"),
            ("idVendor", "fffff"),
            ("idProduct", "6001"),
        ]),
    ];
    assert!(list_usb_devices(&entries).is_empty());
}

#[test]
fn parse_trims_and_pads_numbers() {
    let d = parse_usb_device(
        Some(" 12\n"),
        Some("+7"),
        Some("ABCD"),
        Some("1"),
        Some("  sn \n"),
    )
    .unwrap();
    assert_eq!(d.dev_path, "/dev/bus/usb/012/007");
    assert_eq!(d.vendor_id, 0xabcd);
    assert_eq!(d.product_id, 1);
    assert_eq!(d.serial, "sn");
    // Wide numbers are not cut.
    let d = parse_usb_device(Some("1234"), Some("5"), Some("1"), Some("2"), None).unwrap();
    assert_eq!(d.dev_path, "/dev/bus/usb/1234/005");
    assert!(parse_usb_device(Some(""), Some("1"), Some("1"), Some("1"), None).is_none());
    assert!(parse_usb_device(Some("1"), Some("1"), Some("-1"), Some("1"), None).is_none());
}

#[test]
fn listing_orders_by_device_node() {
    let entries = vec![
        device(&[("busnum", "3"), ("devnum", "1"), ("idVendor", "1"), ("idProduct", "1")]),
        device(&[("busnum", "1"), ("devnum", "9"), ("idVendor", "2"), ("idProduct", "2")]),
        device(&[("busnum", "2"), ("devnum", "4"), ("idVendor", "3"), ("idProduct", "3")]),
    ];
    let paths: Vec<String> = list_usb_devices(&entries)
        .into_iter()
        .map(|d| d.dev_path)
        .collect();
    assert_eq!(
        paths,
        vec![
            "/dev/bus/usb/001/009".to_string(),
            "/dev/bus/usb/002/004".to_string(),
            "/dev/bus/usb/003/001".to_string(),
        ]
    );
}
