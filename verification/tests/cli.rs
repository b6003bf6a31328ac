use arcbox::cli::{choose_grpc_socket, SocketSiblings};
use arcbox::cli::info_lines;
use arcbox::api::{agent_code_status, ApiError, GrpcCode};
use arcbox::error::CoreError;
use arcbox::cli::{
    attach_notice, backend_report, backend_switch_notice, detach_notice, device_row, label,
    no_usb_devices_notice, parse_selector, usb_list_header, BackendArg, OutputFormat,
    SystemVmBackend, UsbDevice, UsbDeviceSelector,
};

#[test]
fn selector_maps_to_wire_message() {
    let wire = parse_selector("0403:6001:FTA1B2C3").unwrap();
    assert_eq!(wire.vendor_id, 0x0403);
    assert_eq!(wire.product_id, 0x6001);
    assert_eq!(wire.serial, "FTA1B2C3");

    let wire = parse_selector("04fb:c532").unwrap();
    assert_eq!(wire.vendor_id, 0x04fb);
    assert_eq!(wire.product_id, 0xc532);
    assert_eq!(wire.serial, "");
}

#[test]
fn selector_rejects_malformed_input() {
    for input in ["", "0403", "0403:60011", "xyz:6001"] {
        assert!(parse_selector(input).is_err(), "accepted {input:?}");
    }
}

#[test]
fn list_rows_render_placeholders_and_values() {
    let attached = UsbDevice {
        vendor_id: 0x0403,
        product_id: 0x6001,
        name: "FT232R".to_string(),
        serial: "A1B2".to_string(),
        attached: true,
        guest_path: "/dev/bus/usb/001/002".to_string(),
    };
    assert_eq!(
        device_row(&attached),
        "0403:6001  FT232R                       A1B2                 attached   /dev/bus/usb/001/002"
    );

    let bare = UsbDevice {
        vendor_id: 0xffff,
        product_id: 0x0001,
        name: String::new(),
        serial: String::new(),
        attached: false,
        guest_path: String::new(),
    };
    assert_eq!(
        device_row(&bare),
        "ffff:0001  -                            -                    available  -"
    );
}

#[test]
fn list_header_matches_row_columns() {
    assert_eq!(
        usb_list_header(),
        format!(
            "{:<10} {:<28} {:<20} {:<10} GUEST PATH",
            "VID:PID", "NAME", "SERIAL", "STATE"
        )
    );
}

#[test]
fn long_values_are_not_cut() {
    let long = UsbDevice {
        vendor_id: 0x1,
        product_id: 0x2,
        name: "N".repeat(30),
        serial: "S".repeat(21),
        attached: false,
        guest_path: String::new(),
    };
    let expected = format!("0001:0002  {} {} available  -", "N".repeat(30), "S".repeat(21));
    assert_eq!(device_row(&long), expected);
}

#[test]
fn backend_labels_and_notices() {
    assert_eq!(SystemVmBackend::from(BackendArg::Hv), SystemVmBackend::Hv);
    assert_eq!(SystemVmBackend::from(BackendArg::Vz), SystemVmBackend::Vz);
    assert_eq!(label(SystemVmBackend::Hv), "hv (Hypervisor.framework + FEX)");
    assert_eq!(label(SystemVmBackend::Unspecified), "unspecified");
    assert_eq!(
        backend_switch_notice(SystemVmBackend::Vz),
        "Switching System VM backend to vz (Virtualization.framework) \u{2014} restarting the System VM..."
    );
    assert_eq!(
        backend_report(SystemVmBackend::Hv),
        "System VM backend: hv (Hypervisor.framework + FEX)"
    );
}

#[test]
fn attach_and_detach_notices_use_four_hex_digits() {
    let sel = UsbDeviceSelector {
        vendor_id: 0x403,
        product_id: 0x1,
        serial: String::new(),
    };
    assert_eq!(attach_notice(&sel), "Attached 0403:0001 to the System VM.");
    assert_eq!(detach_notice(&sel), "Detached 0403:0001 from the System VM.");
    assert!(no_usb_devices_notice().starts_with("No USB devices granted to ArcBox.\n"));
}

#[test]
fn invalid_selector_error_names_the_input() {
    let err = parse_selector("0403").unwrap_err();
    assert!(err.to_string().starts_with("invalid USB selector '0403'"));
}

#[test]
fn output_format_defaults_to_table() {
    assert_eq!(OutputFormat::default(), OutputFormat::Table);
}

#[test]
fn grpc_socket_choice() {
    let siblings = |p: bool, l: bool| SocketSiblings {
        preferred: "/run/arcbox-grpc.sock".to_string(),
        preferred_exists: p,
        legacy: "/run/arcbox.sock".to_string(),
        legacy_exists: l,
    };
    assert_eq!(
        choose_grpc_socket(Some("/x.sock".to_string()), Some(siblings(true, true)), "/d".to_string()),
        "/x.sock"
    );
    assert_eq!(
        choose_grpc_socket(None, Some(siblings(false, true)), "/d".to_string()),
        "/run/arcbox.sock"
    );
    assert_eq!(
        choose_grpc_socket(None, Some(siblings(false, false)), "/d".to_string()),
        "/run/arcbox-grpc.sock"
    );
    assert_eq!(choose_grpc_socket(None, None, "/d".to_string()), "/d");
}

#[test]
fn info_lines_report_the_host() {
    assert_eq!(
        info_lines("0.4.16", "linux", "aarch64", 8, Some(2)),
        vec![
            "ArcBox Version: 0.4.16",
            "OS: linux",
            "Arch: aarch64",
            "CPUs: 8",
            "Machines: 2",
        ]
    );
    assert_eq!(
        info_lines("1", "macos", "x86_64", 1, None)[4],
        "Machines: (daemon not running)"
    );
}

#[test]
fn api_errors_map_to_grpc_codes() {
    assert_eq!(agent_code_status(400), GrpcCode::InvalidArgument);
    assert_eq!(agent_code_status(404), GrpcCode::NotFound);
    assert_eq!(agent_code_status(409), GrpcCode::AlreadyExists);
    assert_eq!(agent_code_status(412), GrpcCode::FailedPrecondition);
    assert_eq!(agent_code_status(503), GrpcCode::Unavailable);
    assert_eq!(agent_code_status(500), GrpcCode::Internal);
    assert_eq!(ApiError::config("bad").status_code(), GrpcCode::InvalidArgument);
    assert_eq!(
        ApiError::Core(CoreError::InvalidState("x".to_string())).status_code(),
        GrpcCode::FailedPrecondition
    );
    assert_eq!(
        ApiError::Core(CoreError::Agent { code: 404, message: "gone".to_string() }).status_code(),
        GrpcCode::NotFound
    );
    assert_eq!(ApiError::Grpc("down".to_string()).status_code(), GrpcCode::Unavailable);
    assert_eq!(ApiError::Server("x".to_string()).status_code(), GrpcCode::Internal);
    assert_eq!(
        ApiError::Core(CoreError::Machine("x".to_string())).status_code(),
        GrpcCode::Internal
    );
}
