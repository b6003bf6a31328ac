use arcbox::rpc::{ErrorDecodeError, ErrorResponse};
use arcbox::wire::MessageType;

#[test]
fn message_type_roundtrip_known_values() {
    const CASES: &[(u32, MessageType)] = &[
            (0x0001, MessageType::PingRequest),
            (0x0002, MessageType::GetSystemInfoRequest),
            (0x0003, MessageType::EnsureRuntimeRequest),
            (0x0004, MessageType::RuntimeStatusRequest),
            (0x0005, MessageType::KubernetesStartRequest),
            (0x0006, MessageType::KubernetesStopRequest),
            (0x0007, MessageType::KubernetesDeleteRequest),
            (0x0008, MessageType::KubernetesStatusRequest),
            (0x0009, MessageType::KubernetesKubeconfigRequest),
            (0x000A, MessageType::ShutdownRequest),
            (0x000B, MessageType::MmapReadFileRequest),
            (0x000C, MessageType::DiskTrimRequest),
            (0x000D, MessageType::WatchReadinessRequest),
            (0x000E, MessageType::KillAgentRequest),
            (0x000F, MessageType::WatchMemoryPressureRequest),
            (0x0010, MessageType::WatchStatsRequest),
            (0x0011, MessageType::ContainerFsPathsRequest),
            (0x0012, MessageType::ImageFsPathsRequest),
            (0x0013, MessageType::ListGuestUsbDevicesRequest),
            (0x100F, MessageType::MemoryPressureEvent),
            (0x1010, MessageType::MachineStats),
            (0x1011, MessageType::ContainerFsPathsResponse),
            (0x1012, MessageType::ImageFsPathsResponse),
            (0x1013, MessageType::ListGuestUsbDevicesResponse),
            (0x1001, MessageType::PingResponse),
            (0x1002, MessageType::GetSystemInfoResponse),
            (0x1003, MessageType::EnsureRuntimeResponse),
            (0x1004, MessageType::RuntimeStatusResponse),
            (0x1005, MessageType::KubernetesStartResponse),
            (0x1006, MessageType::KubernetesStopResponse),
            (0x1007, MessageType::KubernetesDeleteResponse),
            (0x1008, MessageType::KubernetesStatusResponse),
            (0x1009, MessageType::KubernetesKubeconfigResponse),
            (0x100A, MessageType::ShutdownResponse),
            (0x100B, MessageType::MmapReadFileResponse),
            (0x100C, MessageType::DiskTrimResponse),
            (0x100D, MessageType::ReadinessEvent),
            (0x100E, MessageType::KillAgentResponse),
            (0x1030, MessageType::PortBindingsChanged),
            (0x1031, MessageType::PortBindingsRemoved),
            (0x0000, MessageType::Empty),
            (0xFFFF, MessageType::Error),
            // Sandbox CRUD.
            (0x0020, MessageType::SandboxCreateRequest),
            (0x0021, MessageType::SandboxStopRequest),
            (0x0022, MessageType::SandboxRemoveRequest),
            (0x0023, MessageType::SandboxInspectRequest),
            (0x0024, MessageType::SandboxListRequest),
            (0x1020, MessageType::SandboxCreateResponse),
            (0x1021, MessageType::SandboxStopResponse),
            (0x1022, MessageType::SandboxRemoveResponse),
            (0x1023, MessageType::SandboxInspectResponse),
            (0x1024, MessageType::SandboxListResponse),
            (0x0025, MessageType::SandboxPortForwardRequest),
            (0x0026, MessageType::SandboxPortForwardRemoveRequest),
            (0x1025, MessageType::SandboxPortForwardResponse),
            (0x1026, MessageType::SandboxPortForwardRemoveResponse),
            // Sandbox workload.
            (0x0030, MessageType::SandboxRunRequest),
            (0x0031, MessageType::SandboxExecRequest),
            (0x0032, MessageType::SandboxEventsRequest),
            (0x0033, MessageType::SandboxExecInput),
            (0x0034, MessageType::SandboxExecResize),
            (0x0035, MessageType::SandboxFileReadRequest),
            (0x0036, MessageType::SandboxFileWriteRequest),
            (0x0037, MessageType::SandboxFileChunk),
            (0x1035, MessageType::SandboxRunOutput),
            (0x1036, MessageType::SandboxExecOutput),
            (0x1037, MessageType::SandboxEvent),
            (0x1038, MessageType::SandboxFileData),
            (0x1039, MessageType::SandboxFileWriteResponse),
            // Sandbox snapshots.
            (0x0040, MessageType::SandboxCheckpointRequest),
            (0x0041, MessageType::SandboxRestoreRequest),
            (0x0042, MessageType::SandboxListSnapshotsRequest),
            (0x0043, MessageType::SandboxDeleteSnapshotRequest),
            (0x1040, MessageType::SandboxCheckpointResponse),
            (0x1041, MessageType::SandboxRestoreResponse),
            (0x1042, MessageType::SandboxListSnapshotsResponse),
            (0x1043, MessageType::SandboxDeleteSnapshotResponse),
            // Machine-level exec.
            (0x0050, MessageType::MachineExecRequest),
            (0x0051, MessageType::MachineExecInput),
            (0x0052, MessageType::MachineExecResize),
            (0x1050, MessageType::MachineExecOutput),
        ];

    for (raw, expected) in CASES {
        assert_eq!(MessageType::from_u32(*raw), Some(*expected));
    }
}

#[test]
fn message_type_rejects_unknown_values() {
    assert_eq!(MessageType::from_u32(0x9999), None);
    assert_eq!(MessageType::from_u32(0x1F00), None);
}

#[test]
fn is_sandbox_request_classifies_correctly() {
    assert!(MessageType::SandboxCreateRequest.is_sandbox_request());
    assert!(MessageType::SandboxRunRequest.is_sandbox_request());
    assert!(MessageType::SandboxFileReadRequest.is_sandbox_request());
    assert!(MessageType::SandboxFileWriteRequest.is_sandbox_request());
    assert!(MessageType::SandboxCheckpointRequest.is_sandbox_request());
    assert!(!MessageType::PingRequest.is_sandbox_request());
    assert!(!MessageType::SandboxCreateResponse.is_sandbox_request());
}

#[test]
fn is_kubernetes_request_classifies_correctly() {
    assert!(MessageType::KubernetesStartRequest.is_kubernetes_request());
    assert!(MessageType::KubernetesKubeconfigRequest.is_kubernetes_request());
    assert!(!MessageType::PingRequest.is_kubernetes_request());
    assert!(!MessageType::KubernetesStatusResponse.is_kubernetes_request());
}

#[test]
fn test_message_type_roundtrip() {
    assert_eq!(
        MessageType::from_u32(MessageType::PingRequest.wire_value()),
        Some(MessageType::PingRequest)
    );
    assert_eq!(
        MessageType::from_u32(MessageType::PingResponse.wire_value()),
        Some(MessageType::PingResponse)
    );
    assert_eq!(
        MessageType::from_u32(MessageType::PortBindingsChanged.wire_value()),
        Some(MessageType::PortBindingsChanged)
    );
}

#[test]
fn test_message_type_from_u32_requests() {
    assert_eq!(
        MessageType::from_u32(0x0001),
        Some(MessageType::PingRequest)
    );
    assert_eq!(
        MessageType::from_u32(0x0002),
        Some(MessageType::GetSystemInfoRequest)
    );
    assert_eq!(
        MessageType::from_u32(0x0003),
        Some(MessageType::EnsureRuntimeRequest)
    );
    assert_eq!(
        MessageType::from_u32(0x0004),
        Some(MessageType::RuntimeStatusRequest)
    );
}

#[test]
fn test_message_type_from_u32_responses() {
    assert_eq!(
        MessageType::from_u32(0x1001),
        Some(MessageType::PingResponse)
    );
    assert_eq!(
        MessageType::from_u32(0x1002),
        Some(MessageType::GetSystemInfoResponse)
    );
    assert_eq!(
        MessageType::from_u32(0x1003),
        Some(MessageType::EnsureRuntimeResponse)
    );
    assert_eq!(
        MessageType::from_u32(0x1004),
        Some(MessageType::RuntimeStatusResponse)
    );
}

#[test]
fn test_message_type_from_u32_special() {
    assert_eq!(MessageType::from_u32(0x0000), Some(MessageType::Empty));
    assert_eq!(MessageType::from_u32(0xFFFF), Some(MessageType::Error));
}

#[test]
fn test_message_type_from_u32_invalid() {
    assert_eq!(MessageType::from_u32(0x9999), None);
    assert_eq!(MessageType::from_u32(0x0FFF), None);
    assert_eq!(MessageType::from_u32(0x1F00), None);
}

#[test]
fn test_error_response_roundtrip() {
    let err = ErrorResponse::new(500, "internal error");
    let encoded = err.encode();
    let decoded = ErrorResponse::decode(&encoded).unwrap();

    assert_eq!(decoded.code, 500);
    assert_eq!(decoded.message, "internal error");
}

#[test]
fn every_kind_roundtrips_through_its_wire_value() {
    for raw in 0u32..0x2000 {
        if let Some(t) = MessageType::from_u32(raw) {
            assert_eq!(t.wire_value(), raw);
        }
    }
    assert_eq!(MessageType::Error.wire_value(), 0xFFFF);
}

#[test]
fn message_type_names_are_variant_names() {
    assert_eq!(MessageType::PingRequest.name(), "PingRequest");
    assert_eq!(MessageType::SandboxFileChunk.name(), "SandboxFileChunk");
    assert_eq!(format!("{:?}", MessageType::Error), MessageType::Error.name());
}

#[test]
fn error_response_encoding_is_code_length_message() {
    let bytes = ErrorResponse::new(-2, "ab").encode();
    assert_eq!(bytes, vec![0xff, 0xff, 0xff, 0xfe, 0, 0, 0, 2, b'a', b'b']);
}

#[test]
fn error_response_decode_rejects_short_and_truncated_and_non_utf8() {
    assert_eq!(
        ErrorResponse::decode(&[0, 0, 0]).unwrap_err(),
        ErrorDecodeError::TooShort
    );
    assert_eq!(
        ErrorResponse::decode(&[0, 0, 0, 1, 0, 0, 0, 5, b'x']).unwrap_err(),
        ErrorDecodeError::MessageTruncated
    );
    assert_eq!(
        ErrorResponse::decode(&[0, 0, 0, 1, 0, 0, 0, 1, 0xff]).unwrap_err(),
        ErrorDecodeError::InvalidUtf8
    );
}
