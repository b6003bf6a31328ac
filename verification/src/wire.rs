//! Wire-level constants and the RPC message-type table shared by host and
//! guest agent.

use vstd::prelude::*;

verus! {

/// Host-agent RPC protocol version this build speaks.
///
/// Carried in the ping response's `protocol_version` and checked by the
/// host during the boot handshake. Bumped when a change alters the meaning
/// of existing messages; purely additive changes don't need a bump.
pub const AGENT_PROTOCOL_VERSION: u32 = 1;

/// Oldest agent protocol version this host still accepts.
///
/// Agents reporting less (including `0`, agents that predate the handshake
/// field) are rejected at boot.
pub const MIN_AGENT_PROTOCOL_VERSION: u32 = 1;

/// Number of bytes in the fixed RPC frame header (`length` + `type`).
pub const FRAME_HEADER_SIZE: usize = 8;

/// Number of bytes in the fixed RPC error header (`code` + `message_len`).
pub const ERROR_HEADER_SIZE: usize = 8;

/// Number of bytes in the message type field.
pub const TYPE_FIELD_SIZE: usize = 4;

/// Number of bytes in the trace length field.
pub const TRACE_LEN_FIELD_SIZE: usize = 2;

/// RPC message types used by host and guest agent.
///
/// The numeric wire value of each kind is given by
/// [`MessageType::wire_value`]; requests live in `0x0000..0x0FFF`,
/// responses in `0x1000..0x1FFF`.
#[derive(Debug, Clone, Copy, PartialEq, Eq, Structural)]
pub enum MessageType {

    // Request types (0x0000 - 0x0FFF).
    PingRequest,
    GetSystemInfoRequest,
    EnsureRuntimeRequest,
    RuntimeStatusRequest,
    KubernetesStartRequest,
    KubernetesStopRequest,
    KubernetesDeleteRequest,
    KubernetesStatusRequest,
    KubernetesKubeconfigRequest,
    ShutdownRequest,
    /// Test-only: force the guest to mmap + read a file so the VirtioFS
    /// DAX path issues `FUSE_SETUPMAPPING`. Used by the ABX-362 E2E
    /// harness; not wired to any production CLI path.
    MmapReadFileRequest,
    /// Request the guest to run `fstrim` on data mount points so the host
    /// sparse image reclaims freed blocks.
    DiskTrimRequest,
    /// Opens a guest-driven readiness event stream.
    WatchReadinessRequest,
    /// Test-only: ask the agent to exit so PID 1 (busybox init) respawns it,
    /// exercising the supervision path. Used by the hv_e2e harness; not wired to
    /// any production CLI path.
    KillAgentRequest,
    /// Opens a guest-driven memory pressure event stream (used by the host
    /// while the idle balloon is shrunk).
    WatchMemoryPressureRequest,
    /// Opens a guest-driven machine resource stats stream (payload:
    /// `arcbox.v1.WatchStatsRequest`).
    WatchStatsRequest,
    /// Resolve a container's filesystem layer directories from containerd
    /// snapshot metadata (payload: `arcbox.agent.ContainerFsPathsRequest`).
    ContainerFsPathsRequest,
    /// Resolve an image's layer directories from containerd snapshot
    /// metadata (payload: `arcbox.agent.ImageFsPathsRequest`).
    ImageFsPathsRequest,
    /// List USB devices visible inside the guest from sysfs (payload:
    /// `arcbox.agent.ListGuestUsbDevicesRequest`).
    ListGuestUsbDevicesRequest,

    // Sandbox CRUD request types (0x0020 - 0x0026).
    SandboxCreateRequest,
    SandboxStopRequest,
    SandboxRemoveRequest,
    SandboxInspectRequest,
    SandboxListRequest,
    /// DNAT a reserved guest port to a sandbox port (payload:
    /// `sandbox.v1.SandboxPortForwardRequest`).
    SandboxPortForwardRequest,
    /// Remove a sandbox DNAT mapping (payload:
    /// `sandbox.v1.SandboxPortForwardRemoveRequest`).
    SandboxPortForwardRemoveRequest,

    // Sandbox workload request types (0x0030 - 0x0034).
    SandboxRunRequest,
    SandboxExecRequest,
    SandboxEventsRequest,
    /// Streaming stdin frame sent by the host after [`SandboxExecRequest`]
    /// to forward user input to the running process.
    SandboxExecInput,
    /// TTY resize frame sent by the host during an exec session. Payload is
    /// a prost-encoded `sandbox.v1.TerminalSize`.
    SandboxExecResize,
    /// Read a file from a sandbox (payload: `sandbox.v1.ReadFileRequest`).
    /// The agent answers with a stream of [`Self::SandboxFileData`] frames.
    SandboxFileReadRequest,
    /// Open a file-write stream into a sandbox (payload:
    /// `sandbox.v1.WriteFileOpen`), followed by [`Self::SandboxFileChunk`]
    /// frames and answered with [`Self::SandboxFileWriteResponse`].
    SandboxFileWriteRequest,
    /// One chunk of file content during a write stream (payload:
    /// `sandbox.v1.FileChunk`; `done == true` on the last chunk).
    SandboxFileChunk,

    // Sandbox snapshot request types (0x0040 - 0x0043).
    SandboxCheckpointRequest,
    SandboxRestoreRequest,
    SandboxListSnapshotsRequest,
    SandboxDeleteSnapshotRequest,

    /// Starts a machine-level exec: runs a command in the machine root (the
    /// agent's own mount namespace), streamed back as
    /// [`Self::MachineExecOutput`] frames (payload:
    /// `arcbox.v1.MachineExecRequest`).
    MachineExecRequest,
    /// Stdin bytes for an interactive machine session (raw payload; empty
    /// payload means stdin EOF).
    MachineExecInput,
    /// Terminal resize for an interactive machine session (payload:
    /// `arcbox.v1.TerminalSize`).
    MachineExecResize,

    // Response types (0x1000 - 0x1FFF).
    PingResponse,
    GetSystemInfoResponse,
    EnsureRuntimeResponse,
    RuntimeStatusResponse,
    KubernetesStartResponse,
    KubernetesStopResponse,
    KubernetesDeleteResponse,
    KubernetesStatusResponse,
    KubernetesKubeconfigResponse,
    ShutdownResponse,
    /// Test-only: response for `MmapReadFileRequest` (ABX-362).
    MmapReadFileResponse,
    /// Response to `DiskTrimRequest` with per-mount trim summary.
    DiskTrimResponse,
    /// Guest-driven readiness event frame.
    ReadinessEvent,
    /// Test-only: acknowledgement for `KillAgentRequest`.
    KillAgentResponse,
    /// Guest-driven memory pressure event frame.
    MemoryPressureEvent,
    /// One machine resource sample frame (payload:
    /// `arcbox.v1.MachineStats`).
    MachineStats,
    /// Answers [`Self::ContainerFsPathsRequest`] (payload:
    /// `arcbox.agent.ContainerFsPathsResponse`).
    ContainerFsPathsResponse,
    /// Answers [`Self::ImageFsPathsRequest`] (payload:
    /// `arcbox.agent.ImageFsPathsResponse`).
    ImageFsPathsResponse,
    /// Answers [`Self::ListGuestUsbDevicesRequest`] (payload:
    /// `arcbox.agent.ListGuestUsbDevicesResponse`).
    ListGuestUsbDevicesResponse,
    PortBindingsChanged,
    PortBindingsRemoved,

    // Sandbox CRUD response types (0x1020 - 0x1026).
    SandboxCreateResponse,
    SandboxStopResponse,
    SandboxRemoveResponse,
    SandboxInspectResponse,
    SandboxListResponse,
    /// Answers [`Self::SandboxPortForwardRequest`] (payload:
    /// `sandbox.v1.SandboxPortForwardResponse`).
    SandboxPortForwardResponse,
    /// Acknowledges [`Self::SandboxPortForwardRemoveRequest`] (empty payload).
    SandboxPortForwardRemoveResponse,

    // Sandbox workload response types (streaming).
    SandboxRunOutput,
    SandboxExecOutput,
    SandboxEvent,
    /// One chunk of file content answering [`Self::SandboxFileReadRequest`]
    /// (payload: `sandbox.v1.FileChunk`; `done == true` on the last chunk).
    SandboxFileData,
    /// Acknowledges a completed file-write stream (empty payload).
    SandboxFileWriteResponse,

    // Sandbox snapshot response types (0x1040 - 0x1043).
    SandboxCheckpointResponse,
    SandboxRestoreResponse,
    SandboxListSnapshotsResponse,
    SandboxDeleteSnapshotResponse,

    /// One machine exec output frame (payload: `arcbox.v1.MachineExecOutput`;
    /// `done == true` on the final frame carrying the exit code).
    MachineExecOutput,

    // Special types.
    Empty,
    Error,
}

/// The numeric wire value of a message kind.
pub open spec fn message_type_value(t: MessageType) -> u32 {
    match t {
        MessageType::PingRequest => 0x0001,
        MessageType::GetSystemInfoRequest => 0x0002,
        MessageType::EnsureRuntimeRequest => 0x0003,
        MessageType::RuntimeStatusRequest => 0x0004,
        MessageType::KubernetesStartRequest => 0x0005,
        MessageType::KubernetesStopRequest => 0x0006,
        MessageType::KubernetesDeleteRequest => 0x0007,
        MessageType::KubernetesStatusRequest => 0x0008,
        MessageType::KubernetesKubeconfigRequest => 0x0009,
        MessageType::ShutdownRequest => 0x000A,
        MessageType::MmapReadFileRequest => 0x000B,
        MessageType::DiskTrimRequest => 0x000C,
        MessageType::WatchReadinessRequest => 0x000D,
        MessageType::KillAgentRequest => 0x000E,
        MessageType::WatchMemoryPressureRequest => 0x000F,
        MessageType::WatchStatsRequest => 0x0010,
        MessageType::ContainerFsPathsRequest => 0x0011,
        MessageType::ImageFsPathsRequest => 0x0012,
        MessageType::ListGuestUsbDevicesRequest => 0x0013,
        MessageType::SandboxCreateRequest => 0x0020,
        MessageType::SandboxStopRequest => 0x0021,
        MessageType::SandboxRemoveRequest => 0x0022,
        MessageType::SandboxInspectRequest => 0x0023,
        MessageType::SandboxListRequest => 0x0024,
        MessageType::SandboxPortForwardRequest => 0x0025,
        MessageType::SandboxPortForwardRemoveRequest => 0x0026,
        MessageType::SandboxRunRequest => 0x0030,
        MessageType::SandboxExecRequest => 0x0031,
        MessageType::SandboxEventsRequest => 0x0032,
        MessageType::SandboxExecInput => 0x0033,
        MessageType::SandboxExecResize => 0x0034,
        MessageType::SandboxFileReadRequest => 0x0035,
        MessageType::SandboxFileWriteRequest => 0x0036,
        MessageType::SandboxFileChunk => 0x0037,
        MessageType::SandboxCheckpointRequest => 0x0040,
        MessageType::SandboxRestoreRequest => 0x0041,
        MessageType::SandboxListSnapshotsRequest => 0x0042,
        MessageType::SandboxDeleteSnapshotRequest => 0x0043,
        MessageType::MachineExecRequest => 0x0050,
        MessageType::MachineExecInput => 0x0051,
        MessageType::MachineExecResize => 0x0052,
        MessageType::PingResponse => 0x1001,
        MessageType::GetSystemInfoResponse => 0x1002,
        MessageType::EnsureRuntimeResponse => 0x1003,
        MessageType::RuntimeStatusResponse => 0x1004,
        MessageType::KubernetesStartResponse => 0x1005,
        MessageType::KubernetesStopResponse => 0x1006,
        MessageType::KubernetesDeleteResponse => 0x1007,
        MessageType::KubernetesStatusResponse => 0x1008,
        MessageType::KubernetesKubeconfigResponse => 0x1009,
        MessageType::ShutdownResponse => 0x100A,
        MessageType::MmapReadFileResponse => 0x100B,
        MessageType::DiskTrimResponse => 0x100C,
        MessageType::ReadinessEvent => 0x100D,
        MessageType::KillAgentResponse => 0x100E,
        MessageType::MemoryPressureEvent => 0x100F,
        MessageType::MachineStats => 0x1010,
        MessageType::ContainerFsPathsResponse => 0x1011,
        MessageType::ImageFsPathsResponse => 0x1012,
        MessageType::ListGuestUsbDevicesResponse => 0x1013,
        MessageType::PortBindingsChanged => 0x1030,
        MessageType::PortBindingsRemoved => 0x1031,
        MessageType::SandboxCreateResponse => 0x1020,
        MessageType::SandboxStopResponse => 0x1021,
        MessageType::SandboxRemoveResponse => 0x1022,
        MessageType::SandboxInspectResponse => 0x1023,
        MessageType::SandboxListResponse => 0x1024,
        MessageType::SandboxPortForwardResponse => 0x1025,
        MessageType::SandboxPortForwardRemoveResponse => 0x1026,
        MessageType::SandboxRunOutput => 0x1035,
        MessageType::SandboxExecOutput => 0x1036,
        MessageType::SandboxEvent => 0x1037,
        MessageType::SandboxFileData => 0x1038,
        MessageType::SandboxFileWriteResponse => 0x1039,
        MessageType::SandboxCheckpointResponse => 0x1040,
        MessageType::SandboxRestoreResponse => 0x1041,
        MessageType::SandboxListSnapshotsResponse => 0x1042,
        MessageType::SandboxDeleteSnapshotResponse => 0x1043,
        MessageType::MachineExecOutput => 0x1050,
        MessageType::Empty => 0x0000,
        MessageType::Error => 0xFFFF,
    }
}

/// The message kind a numeric wire value names, if any.
pub open spec fn message_type_of(value: u32) -> Option<MessageType> {
    if value == 0x0001 {
        Some(MessageType::PingRequest)
    } else if value == 0x0002 {
        Some(MessageType::GetSystemInfoRequest)
    } else if value == 0x0003 {
        Some(MessageType::EnsureRuntimeRequest)
    } else if value == 0x0004 {
        Some(MessageType::RuntimeStatusRequest)
    } else if value == 0x0005 {
        Some(MessageType::KubernetesStartRequest)
    } else if value == 0x0006 {
        Some(MessageType::KubernetesStopRequest)
    } else if value == 0x0007 {
        Some(MessageType::KubernetesDeleteRequest)
    } else if value == 0x0008 {
        Some(MessageType::KubernetesStatusRequest)
    } else if value == 0x0009 {
        Some(MessageType::KubernetesKubeconfigRequest)
    } else if value == 0x000A {
        Some(MessageType::ShutdownRequest)
    } else if value == 0x000B {
        Some(MessageType::MmapReadFileRequest)
    } else if value == 0x000C {
        Some(MessageType::DiskTrimRequest)
    } else if value == 0x000D {
        Some(MessageType::WatchReadinessRequest)
    } else if value == 0x000E {
        Some(MessageType::KillAgentRequest)
    } else if value == 0x000F {
        Some(MessageType::WatchMemoryPressureRequest)
    } else if value == 0x0010 {
        Some(MessageType::WatchStatsRequest)
    } else if value == 0x0011 {
        Some(MessageType::ContainerFsPathsRequest)
    } else if value == 0x0012 {
        Some(MessageType::ImageFsPathsRequest)
    } else if value == 0x0013 {
        Some(MessageType::ListGuestUsbDevicesRequest)
    } else if value == 0x0020 {
        Some(MessageType::SandboxCreateRequest)
    } else if value == 0x0021 {
        Some(MessageType::SandboxStopRequest)
    } else if value == 0x0022 {
        Some(MessageType::SandboxRemoveRequest)
    } else if value == 0x0023 {
        Some(MessageType::SandboxInspectRequest)
    } else if value == 0x0024 {
        Some(MessageType::SandboxListRequest)
    } else if value == 0x0025 {
        Some(MessageType::SandboxPortForwardRequest)
    } else if value == 0x0026 {
        Some(MessageType::SandboxPortForwardRemoveRequest)
    } else if value == 0x0030 {
        Some(MessageType::SandboxRunRequest)
    } else if value == 0x0031 {
        Some(MessageType::SandboxExecRequest)
    } else if value == 0x0032 {
        Some(MessageType::SandboxEventsRequest)
    } else if value == 0x0033 {
        Some(MessageType::SandboxExecInput)
    } else if value == 0x0034 {
        Some(MessageType::SandboxExecResize)
    } else if value == 0x0035 {
        Some(MessageType::SandboxFileReadRequest)
    } else if value == 0x0036 {
        Some(MessageType::SandboxFileWriteRequest)
    } else if value == 0x0037 {
        Some(MessageType::SandboxFileChunk)
    } else if value == 0x0040 {
        Some(MessageType::SandboxCheckpointRequest)
    } else if value == 0x0041 {
        Some(MessageType::SandboxRestoreRequest)
    } else if value == 0x0042 {
        Some(MessageType::SandboxListSnapshotsRequest)
    } else if value == 0x0043 {
        Some(MessageType::SandboxDeleteSnapshotRequest)
    } else if value == 0x0050 {
        Some(MessageType::MachineExecRequest)
    } else if value == 0x0051 {
        Some(MessageType::MachineExecInput)
    } else if value == 0x0052 {
        Some(MessageType::MachineExecResize)
    } else if value == 0x1001 {
        Some(MessageType::PingResponse)
    } else if value == 0x1002 {
        Some(MessageType::GetSystemInfoResponse)
    } else if value == 0x1003 {
        Some(MessageType::EnsureRuntimeResponse)
    } else if value == 0x1004 {
        Some(MessageType::RuntimeStatusResponse)
    } else if value == 0x1005 {
        Some(MessageType::KubernetesStartResponse)
    } else if value == 0x1006 {
        Some(MessageType::KubernetesStopResponse)
    } else if value == 0x1007 {
        Some(MessageType::KubernetesDeleteResponse)
    } else if value == 0x1008 {
        Some(MessageType::KubernetesStatusResponse)
    } else if value == 0x1009 {
        Some(MessageType::KubernetesKubeconfigResponse)
    } else if value == 0x100A {
        Some(MessageType::ShutdownResponse)
    } else if value == 0x100B {
        Some(MessageType::MmapReadFileResponse)
    } else if value == 0x100C {
        Some(MessageType::DiskTrimResponse)
    } else if value == 0x100D {
        Some(MessageType::ReadinessEvent)
    } else if value == 0x100E {
        Some(MessageType::KillAgentResponse)
    } else if value == 0x100F {
        Some(MessageType::MemoryPressureEvent)
    } else if value == 0x1010 {
        Some(MessageType::MachineStats)
    } else if value == 0x1011 {
        Some(MessageType::ContainerFsPathsResponse)
    } else if value == 0x1012 {
        Some(MessageType::ImageFsPathsResponse)
    } else if value == 0x1013 {
        Some(MessageType::ListGuestUsbDevicesResponse)
    } else if value == 0x1030 {
        Some(MessageType::PortBindingsChanged)
    } else if value == 0x1031 {
        Some(MessageType::PortBindingsRemoved)
    } else if value == 0x1020 {
        Some(MessageType::SandboxCreateResponse)
    } else if value == 0x1021 {
        Some(MessageType::SandboxStopResponse)
    } else if value == 0x1022 {
        Some(MessageType::SandboxRemoveResponse)
    } else if value == 0x1023 {
        Some(MessageType::SandboxInspectResponse)
    } else if value == 0x1024 {
        Some(MessageType::SandboxListResponse)
    } else if value == 0x1025 {
        Some(MessageType::SandboxPortForwardResponse)
    } else if value == 0x1026 {
        Some(MessageType::SandboxPortForwardRemoveResponse)
    } else if value == 0x1035 {
        Some(MessageType::SandboxRunOutput)
    } else if value == 0x1036 {
        Some(MessageType::SandboxExecOutput)
    } else if value == 0x1037 {
        Some(MessageType::SandboxEvent)
    } else if value == 0x1038 {
        Some(MessageType::SandboxFileData)
    } else if value == 0x1039 {
        Some(MessageType::SandboxFileWriteResponse)
    } else if value == 0x1040 {
        Some(MessageType::SandboxCheckpointResponse)
    } else if value == 0x1041 {
        Some(MessageType::SandboxRestoreResponse)
    } else if value == 0x1042 {
        Some(MessageType::SandboxListSnapshotsResponse)
    } else if value == 0x1043 {
        Some(MessageType::SandboxDeleteSnapshotResponse)
    } else if value == 0x1050 {
        Some(MessageType::MachineExecOutput)
    } else if value == 0x0000 {
        Some(MessageType::Empty)
    } else if value == 0xFFFF {
        Some(MessageType::Error)
    } else {
        None
    }
}

/// Whether a message kind is a sandbox request (handled by the sandbox
/// service rather than the standard RPC dispatcher).
pub open spec fn is_sandbox_kind(t: MessageType) -> bool {
    t is SandboxCreateRequest
        || t is SandboxStopRequest
        || t is SandboxRemoveRequest
        || t is SandboxInspectRequest
        || t is SandboxListRequest
        || t is SandboxRunRequest
        || t is SandboxExecRequest
        || t is SandboxEventsRequest
        || t is SandboxFileReadRequest
        || t is SandboxFileWriteRequest
        || t is SandboxPortForwardRequest
        || t is SandboxPortForwardRemoveRequest
        || t is SandboxCheckpointRequest
        || t is SandboxRestoreRequest
        || t is SandboxListSnapshotsRequest
        || t is SandboxDeleteSnapshotRequest
}

/// Whether a message kind is a Kubernetes management request.
pub open spec fn is_kubernetes_kind(t: MessageType) -> bool {
    t is KubernetesStartRequest
        || t is KubernetesStopRequest
        || t is KubernetesDeleteRequest
        || t is KubernetesStatusRequest
        || t is KubernetesKubeconfigRequest
}

/// The `Debug` name of a message kind: its variant name.
pub open spec fn message_type_name(t: MessageType) -> Seq<char> {
    match t {
        MessageType::PingRequest => "PingRequest"@,
        MessageType::GetSystemInfoRequest => "GetSystemInfoRequest"@,
        MessageType::EnsureRuntimeRequest => "EnsureRuntimeRequest"@,
        MessageType::RuntimeStatusRequest => "RuntimeStatusRequest"@,
        MessageType::KubernetesStartRequest => "KubernetesStartRequest"@,
        MessageType::KubernetesStopRequest => "KubernetesStopRequest"@,
        MessageType::KubernetesDeleteRequest => "KubernetesDeleteRequest"@,
        MessageType::KubernetesStatusRequest => "KubernetesStatusRequest"@,
        MessageType::KubernetesKubeconfigRequest => "KubernetesKubeconfigRequest"@,
        MessageType::ShutdownRequest => "ShutdownRequest"@,
        MessageType::MmapReadFileRequest => "MmapReadFileRequest"@,
        MessageType::DiskTrimRequest => "DiskTrimRequest"@,
        MessageType::WatchReadinessRequest => "WatchReadinessRequest"@,
        MessageType::KillAgentRequest => "KillAgentRequest"@,
        MessageType::WatchMemoryPressureRequest => "WatchMemoryPressureRequest"@,
        MessageType::WatchStatsRequest => "WatchStatsRequest"@,
        MessageType::ContainerFsPathsRequest => "ContainerFsPathsRequest"@,
        MessageType::ImageFsPathsRequest => "ImageFsPathsRequest"@,
        MessageType::ListGuestUsbDevicesRequest => "ListGuestUsbDevicesRequest"@,
        MessageType::SandboxCreateRequest => "SandboxCreateRequest"@,
        MessageType::SandboxStopRequest => "SandboxStopRequest"@,
        MessageType::SandboxRemoveRequest => "SandboxRemoveRequest"@,
        MessageType::SandboxInspectRequest => "SandboxInspectRequest"@,
        MessageType::SandboxListRequest => "SandboxListRequest"@,
        MessageType::SandboxPortForwardRequest => "SandboxPortForwardRequest"@,
        MessageType::SandboxPortForwardRemoveRequest => "SandboxPortForwardRemoveRequest"@,
        MessageType::SandboxRunRequest => "SandboxRunRequest"@,
        MessageType::SandboxExecRequest => "SandboxExecRequest"@,
        MessageType::SandboxEventsRequest => "SandboxEventsRequest"@,
        MessageType::SandboxExecInput => "SandboxExecInput"@,
        MessageType::SandboxExecResize => "SandboxExecResize"@,
        MessageType::SandboxFileReadRequest => "SandboxFileReadRequest"@,
        MessageType::SandboxFileWriteRequest => "SandboxFileWriteRequest"@,
        MessageType::SandboxFileChunk => "SandboxFileChunk"@,
        MessageType::SandboxCheckpointRequest => "SandboxCheckpointRequest"@,
        MessageType::SandboxRestoreRequest => "SandboxRestoreRequest"@,
        MessageType::SandboxListSnapshotsRequest => "SandboxListSnapshotsRequest"@,
        MessageType::SandboxDeleteSnapshotRequest => "SandboxDeleteSnapshotRequest"@,
        MessageType::MachineExecRequest => "MachineExecRequest"@,
        MessageType::MachineExecInput => "MachineExecInput"@,
        MessageType::MachineExecResize => "MachineExecResize"@,
        MessageType::PingResponse => "PingResponse"@,
        MessageType::GetSystemInfoResponse => "GetSystemInfoResponse"@,
        MessageType::EnsureRuntimeResponse => "EnsureRuntimeResponse"@,
        MessageType::RuntimeStatusResponse => "RuntimeStatusResponse"@,
        MessageType::KubernetesStartResponse => "KubernetesStartResponse"@,
        MessageType::KubernetesStopResponse => "KubernetesStopResponse"@,
        MessageType::KubernetesDeleteResponse => "KubernetesDeleteResponse"@,
        MessageType::KubernetesStatusResponse => "KubernetesStatusResponse"@,
        MessageType::KubernetesKubeconfigResponse => "KubernetesKubeconfigResponse"@,
        MessageType::ShutdownResponse => "ShutdownResponse"@,
        MessageType::MmapReadFileResponse => "MmapReadFileResponse"@,
        MessageType::DiskTrimResponse => "DiskTrimResponse"@,
        MessageType::ReadinessEvent => "ReadinessEvent"@,
        MessageType::KillAgentResponse => "KillAgentResponse"@,
        MessageType::MemoryPressureEvent => "MemoryPressureEvent"@,
        MessageType::MachineStats => "MachineStats"@,
        MessageType::ContainerFsPathsResponse => "ContainerFsPathsResponse"@,
        MessageType::ImageFsPathsResponse => "ImageFsPathsResponse"@,
        MessageType::ListGuestUsbDevicesResponse => "ListGuestUsbDevicesResponse"@,
        MessageType::PortBindingsChanged => "PortBindingsChanged"@,
        MessageType::PortBindingsRemoved => "PortBindingsRemoved"@,
        MessageType::SandboxCreateResponse => "SandboxCreateResponse"@,
        MessageType::SandboxStopResponse => "SandboxStopResponse"@,
        MessageType::SandboxRemoveResponse => "SandboxRemoveResponse"@,
        MessageType::SandboxInspectResponse => "SandboxInspectResponse"@,
        MessageType::SandboxListResponse => "SandboxListResponse"@,
        MessageType::SandboxPortForwardResponse => "SandboxPortForwardResponse"@,
        MessageType::SandboxPortForwardRemoveResponse => "SandboxPortForwardRemoveResponse"@,
        MessageType::SandboxRunOutput => "SandboxRunOutput"@,
        MessageType::SandboxExecOutput => "SandboxExecOutput"@,
        MessageType::SandboxEvent => "SandboxEvent"@,
        MessageType::SandboxFileData => "SandboxFileData"@,
        MessageType::SandboxFileWriteResponse => "SandboxFileWriteResponse"@,
        MessageType::SandboxCheckpointResponse => "SandboxCheckpointResponse"@,
        MessageType::SandboxRestoreResponse => "SandboxRestoreResponse"@,
        MessageType::SandboxListSnapshotsResponse => "SandboxListSnapshotsResponse"@,
        MessageType::SandboxDeleteSnapshotResponse => "SandboxDeleteSnapshotResponse"@,
        MessageType::MachineExecOutput => "MachineExecOutput"@,
        MessageType::Empty => "Empty"@,
        MessageType::Error => "Error"@,
    }
}

impl MessageType {
    /// The `Debug` name of this message kind.
    pub fn name(self) -> (r: &'static str)
        ensures
            r@ == message_type_name(self),
    {
        match self {
            MessageType::PingRequest => "PingRequest",
            MessageType::GetSystemInfoRequest => "GetSystemInfoRequest",
            MessageType::EnsureRuntimeRequest => "EnsureRuntimeRequest",
            MessageType::RuntimeStatusRequest => "RuntimeStatusRequest",
            MessageType::KubernetesStartRequest => "KubernetesStartRequest",
            MessageType::KubernetesStopRequest => "KubernetesStopRequest",
            MessageType::KubernetesDeleteRequest => "KubernetesDeleteRequest",
            MessageType::KubernetesStatusRequest => "KubernetesStatusRequest",
            MessageType::KubernetesKubeconfigRequest => "KubernetesKubeconfigRequest",
            MessageType::ShutdownRequest => "ShutdownRequest",
            MessageType::MmapReadFileRequest => "MmapReadFileRequest",
            MessageType::DiskTrimRequest => "DiskTrimRequest",
            MessageType::WatchReadinessRequest => "WatchReadinessRequest",
            MessageType::KillAgentRequest => "KillAgentRequest",
            MessageType::WatchMemoryPressureRequest => "WatchMemoryPressureRequest",
            MessageType::WatchStatsRequest => "WatchStatsRequest",
            MessageType::ContainerFsPathsRequest => "ContainerFsPathsRequest",
            MessageType::ImageFsPathsRequest => "ImageFsPathsRequest",
            MessageType::ListGuestUsbDevicesRequest => "ListGuestUsbDevicesRequest",
            MessageType::SandboxCreateRequest => "SandboxCreateRequest",
            MessageType::SandboxStopRequest => "SandboxStopRequest",
            MessageType::SandboxRemoveRequest => "SandboxRemoveRequest",
            MessageType::SandboxInspectRequest => "SandboxInspectRequest",
            MessageType::SandboxListRequest => "SandboxListRequest",
            MessageType::SandboxPortForwardRequest => "SandboxPortForwardRequest",
            MessageType::SandboxPortForwardRemoveRequest => "SandboxPortForwardRemoveRequest",
            MessageType::SandboxRunRequest => "SandboxRunRequest",
            MessageType::SandboxExecRequest => "SandboxExecRequest",
            MessageType::SandboxEventsRequest => "SandboxEventsRequest",
            MessageType::SandboxExecInput => "SandboxExecInput",
            MessageType::SandboxExecResize => "SandboxExecResize",
            MessageType::SandboxFileReadRequest => "SandboxFileReadRequest",
            MessageType::SandboxFileWriteRequest => "SandboxFileWriteRequest",
            MessageType::SandboxFileChunk => "SandboxFileChunk",
            MessageType::SandboxCheckpointRequest => "SandboxCheckpointRequest",
            MessageType::SandboxRestoreRequest => "SandboxRestoreRequest",
            MessageType::SandboxListSnapshotsRequest => "SandboxListSnapshotsRequest",
            MessageType::SandboxDeleteSnapshotRequest => "SandboxDeleteSnapshotRequest",
            MessageType::MachineExecRequest => "MachineExecRequest",
            MessageType::MachineExecInput => "MachineExecInput",
            MessageType::MachineExecResize => "MachineExecResize",
            MessageType::PingResponse => "PingResponse",
            MessageType::GetSystemInfoResponse => "GetSystemInfoResponse",
            MessageType::EnsureRuntimeResponse => "EnsureRuntimeResponse",
            MessageType::RuntimeStatusResponse => "RuntimeStatusResponse",
            MessageType::KubernetesStartResponse => "KubernetesStartResponse",
            MessageType::KubernetesStopResponse => "KubernetesStopResponse",
            MessageType::KubernetesDeleteResponse => "KubernetesDeleteResponse",
            MessageType::KubernetesStatusResponse => "KubernetesStatusResponse",
            MessageType::KubernetesKubeconfigResponse => "KubernetesKubeconfigResponse",
            MessageType::ShutdownResponse => "ShutdownResponse",
            MessageType::MmapReadFileResponse => "MmapReadFileResponse",
            MessageType::DiskTrimResponse => "DiskTrimResponse",
            MessageType::ReadinessEvent => "ReadinessEvent",
            MessageType::KillAgentResponse => "KillAgentResponse",
            MessageType::MemoryPressureEvent => "MemoryPressureEvent",
            MessageType::MachineStats => "MachineStats",
            MessageType::ContainerFsPathsResponse => "ContainerFsPathsResponse",
            MessageType::ImageFsPathsResponse => "ImageFsPathsResponse",
            MessageType::ListGuestUsbDevicesResponse => "ListGuestUsbDevicesResponse",
            MessageType::PortBindingsChanged => "PortBindingsChanged",
            MessageType::PortBindingsRemoved => "PortBindingsRemoved",
            MessageType::SandboxCreateResponse => "SandboxCreateResponse",
            MessageType::SandboxStopResponse => "SandboxStopResponse",
            MessageType::SandboxRemoveResponse => "SandboxRemoveResponse",
            MessageType::SandboxInspectResponse => "SandboxInspectResponse",
            MessageType::SandboxListResponse => "SandboxListResponse",
            MessageType::SandboxPortForwardResponse => "SandboxPortForwardResponse",
            MessageType::SandboxPortForwardRemoveResponse => "SandboxPortForwardRemoveResponse",
            MessageType::SandboxRunOutput => "SandboxRunOutput",
            MessageType::SandboxExecOutput => "SandboxExecOutput",
            MessageType::SandboxEvent => "SandboxEvent",
            MessageType::SandboxFileData => "SandboxFileData",
            MessageType::SandboxFileWriteResponse => "SandboxFileWriteResponse",
            MessageType::SandboxCheckpointResponse => "SandboxCheckpointResponse",
            MessageType::SandboxRestoreResponse => "SandboxRestoreResponse",
            MessageType::SandboxListSnapshotsResponse => "SandboxListSnapshotsResponse",
            MessageType::SandboxDeleteSnapshotResponse => "SandboxDeleteSnapshotResponse",
            MessageType::MachineExecOutput => "MachineExecOutput",
            MessageType::Empty => "Empty",
            MessageType::Error => "Error",
        }
    }

    /// Returns the numeric wire value of this message kind.
    pub fn wire_value(self) -> (v: u32)
        ensures
            v == message_type_value(self),
    {
        match self {
            MessageType::PingRequest => 0x0001,
            MessageType::GetSystemInfoRequest => 0x0002,
            MessageType::EnsureRuntimeRequest => 0x0003,
            MessageType::RuntimeStatusRequest => 0x0004,
            MessageType::KubernetesStartRequest => 0x0005,
            MessageType::KubernetesStopRequest => 0x0006,
            MessageType::KubernetesDeleteRequest => 0x0007,
            MessageType::KubernetesStatusRequest => 0x0008,
            MessageType::KubernetesKubeconfigRequest => 0x0009,
            MessageType::ShutdownRequest => 0x000A,
            MessageType::MmapReadFileRequest => 0x000B,
            MessageType::DiskTrimRequest => 0x000C,
            MessageType::WatchReadinessRequest => 0x000D,
            MessageType::KillAgentRequest => 0x000E,
            MessageType::WatchMemoryPressureRequest => 0x000F,
            MessageType::WatchStatsRequest => 0x0010,
            MessageType::ContainerFsPathsRequest => 0x0011,
            MessageType::ImageFsPathsRequest => 0x0012,
            MessageType::ListGuestUsbDevicesRequest => 0x0013,
            MessageType::SandboxCreateRequest => 0x0020,
            MessageType::SandboxStopRequest => 0x0021,
            MessageType::SandboxRemoveRequest => 0x0022,
            MessageType::SandboxInspectRequest => 0x0023,
            MessageType::SandboxListRequest => 0x0024,
            MessageType::SandboxPortForwardRequest => 0x0025,
            MessageType::SandboxPortForwardRemoveRequest => 0x0026,
            MessageType::SandboxRunRequest => 0x0030,
            MessageType::SandboxExecRequest => 0x0031,
            MessageType::SandboxEventsRequest => 0x0032,
            MessageType::SandboxExecInput => 0x0033,
            MessageType::SandboxExecResize => 0x0034,
            MessageType::SandboxFileReadRequest => 0x0035,
            MessageType::SandboxFileWriteRequest => 0x0036,
            MessageType::SandboxFileChunk => 0x0037,
            MessageType::SandboxCheckpointRequest => 0x0040,
            MessageType::SandboxRestoreRequest => 0x0041,
            MessageType::SandboxListSnapshotsRequest => 0x0042,
            MessageType::SandboxDeleteSnapshotRequest => 0x0043,
            MessageType::MachineExecRequest => 0x0050,
            MessageType::MachineExecInput => 0x0051,
            MessageType::MachineExecResize => 0x0052,
            MessageType::PingResponse => 0x1001,
            MessageType::GetSystemInfoResponse => 0x1002,
            MessageType::EnsureRuntimeResponse => 0x1003,
            MessageType::RuntimeStatusResponse => 0x1004,
            MessageType::KubernetesStartResponse => 0x1005,
            MessageType::KubernetesStopResponse => 0x1006,
            MessageType::KubernetesDeleteResponse => 0x1007,
            MessageType::KubernetesStatusResponse => 0x1008,
            MessageType::KubernetesKubeconfigResponse => 0x1009,
            MessageType::ShutdownResponse => 0x100A,
            MessageType::MmapReadFileResponse => 0x100B,
            MessageType::DiskTrimResponse => 0x100C,
            MessageType::ReadinessEvent => 0x100D,
            MessageType::KillAgentResponse => 0x100E,
            MessageType::MemoryPressureEvent => 0x100F,
            MessageType::MachineStats => 0x1010,
            MessageType::ContainerFsPathsResponse => 0x1011,
            MessageType::ImageFsPathsResponse => 0x1012,
            MessageType::ListGuestUsbDevicesResponse => 0x1013,
            MessageType::PortBindingsChanged => 0x1030,
            MessageType::PortBindingsRemoved => 0x1031,
            MessageType::SandboxCreateResponse => 0x1020,
            MessageType::SandboxStopResponse => 0x1021,
            MessageType::SandboxRemoveResponse => 0x1022,
            MessageType::SandboxInspectResponse => 0x1023,
            MessageType::SandboxListResponse => 0x1024,
            MessageType::SandboxPortForwardResponse => 0x1025,
            MessageType::SandboxPortForwardRemoveResponse => 0x1026,
            MessageType::SandboxRunOutput => 0x1035,
            MessageType::SandboxExecOutput => 0x1036,
            MessageType::SandboxEvent => 0x1037,
            MessageType::SandboxFileData => 0x1038,
            MessageType::SandboxFileWriteResponse => 0x1039,
            MessageType::SandboxCheckpointResponse => 0x1040,
            MessageType::SandboxRestoreResponse => 0x1041,
            MessageType::SandboxListSnapshotsResponse => 0x1042,
            MessageType::SandboxDeleteSnapshotResponse => 0x1043,
            MessageType::MachineExecOutput => 0x1050,
            MessageType::Empty => 0x0000,
            MessageType::Error => 0xFFFF,
        }
    }

    /// Converts a numeric wire value into a typed message kind.
    pub fn from_u32(value: u32) -> (r: Option<Self>)
        ensures
            r == message_type_of(value),
    {
        match value {
            0x0001 => Some(MessageType::PingRequest),
            0x0002 => Some(MessageType::GetSystemInfoRequest),
            0x0003 => Some(MessageType::EnsureRuntimeRequest),
            0x0004 => Some(MessageType::RuntimeStatusRequest),
            0x0005 => Some(MessageType::KubernetesStartRequest),
            0x0006 => Some(MessageType::KubernetesStopRequest),
            0x0007 => Some(MessageType::KubernetesDeleteRequest),
            0x0008 => Some(MessageType::KubernetesStatusRequest),
            0x0009 => Some(MessageType::KubernetesKubeconfigRequest),
            0x000A => Some(MessageType::ShutdownRequest),
            0x000B => Some(MessageType::MmapReadFileRequest),
            0x000C => Some(MessageType::DiskTrimRequest),
            0x000D => Some(MessageType::WatchReadinessRequest),
            0x000E => Some(MessageType::KillAgentRequest),
            0x000F => Some(MessageType::WatchMemoryPressureRequest),
            0x0010 => Some(MessageType::WatchStatsRequest),
            0x0011 => Some(MessageType::ContainerFsPathsRequest),
            0x0012 => Some(MessageType::ImageFsPathsRequest),
            0x0013 => Some(MessageType::ListGuestUsbDevicesRequest),
            0x0020 => Some(MessageType::SandboxCreateRequest),
            0x0021 => Some(MessageType::SandboxStopRequest),
            0x0022 => Some(MessageType::SandboxRemoveRequest),
            0x0023 => Some(MessageType::SandboxInspectRequest),
            0x0024 => Some(MessageType::SandboxListRequest),
            0x0025 => Some(MessageType::SandboxPortForwardRequest),
            0x0026 => Some(MessageType::SandboxPortForwardRemoveRequest),
            0x0030 => Some(MessageType::SandboxRunRequest),
            0x0031 => Some(MessageType::SandboxExecRequest),
            0x0032 => Some(MessageType::SandboxEventsRequest),
            0x0033 => Some(MessageType::SandboxExecInput),
            0x0034 => Some(MessageType::SandboxExecResize),
            0x0035 => Some(MessageType::SandboxFileReadRequest),
            0x0036 => Some(MessageType::SandboxFileWriteRequest),
            0x0037 => Some(MessageType::SandboxFileChunk),
            0x0040 => Some(MessageType::SandboxCheckpointRequest),
            0x0041 => Some(MessageType::SandboxRestoreRequest),
            0x0042 => Some(MessageType::SandboxListSnapshotsRequest),
            0x0043 => Some(MessageType::SandboxDeleteSnapshotRequest),
            0x0050 => Some(MessageType::MachineExecRequest),
            0x0051 => Some(MessageType::MachineExecInput),
            0x0052 => Some(MessageType::MachineExecResize),
            0x1001 => Some(MessageType::PingResponse),
            0x1002 => Some(MessageType::GetSystemInfoResponse),
            0x1003 => Some(MessageType::EnsureRuntimeResponse),
            0x1004 => Some(MessageType::RuntimeStatusResponse),
            0x1005 => Some(MessageType::KubernetesStartResponse),
            0x1006 => Some(MessageType::KubernetesStopResponse),
            0x1007 => Some(MessageType::KubernetesDeleteResponse),
            0x1008 => Some(MessageType::KubernetesStatusResponse),
            0x1009 => Some(MessageType::KubernetesKubeconfigResponse),
            0x100A => Some(MessageType::ShutdownResponse),
            0x100B => Some(MessageType::MmapReadFileResponse),
            0x100C => Some(MessageType::DiskTrimResponse),
            0x100D => Some(MessageType::ReadinessEvent),
            0x100E => Some(MessageType::KillAgentResponse),
            0x100F => Some(MessageType::MemoryPressureEvent),
            0x1010 => Some(MessageType::MachineStats),
            0x1011 => Some(MessageType::ContainerFsPathsResponse),
            0x1012 => Some(MessageType::ImageFsPathsResponse),
            0x1013 => Some(MessageType::ListGuestUsbDevicesResponse),
            0x1030 => Some(MessageType::PortBindingsChanged),
            0x1031 => Some(MessageType::PortBindingsRemoved),
            0x1020 => Some(MessageType::SandboxCreateResponse),
            0x1021 => Some(MessageType::SandboxStopResponse),
            0x1022 => Some(MessageType::SandboxRemoveResponse),
            0x1023 => Some(MessageType::SandboxInspectResponse),
            0x1024 => Some(MessageType::SandboxListResponse),
            0x1025 => Some(MessageType::SandboxPortForwardResponse),
            0x1026 => Some(MessageType::SandboxPortForwardRemoveResponse),
            0x1035 => Some(MessageType::SandboxRunOutput),
            0x1036 => Some(MessageType::SandboxExecOutput),
            0x1037 => Some(MessageType::SandboxEvent),
            0x1038 => Some(MessageType::SandboxFileData),
            0x1039 => Some(MessageType::SandboxFileWriteResponse),
            0x1040 => Some(MessageType::SandboxCheckpointResponse),
            0x1041 => Some(MessageType::SandboxRestoreResponse),
            0x1042 => Some(MessageType::SandboxListSnapshotsResponse),
            0x1043 => Some(MessageType::SandboxDeleteSnapshotResponse),
            0x1050 => Some(MessageType::MachineExecOutput),
            0x0000 => Some(MessageType::Empty),
            0xFFFF => Some(MessageType::Error),
            _ => None,
        }
    }

    /// Returns true if this message type is a sandbox request that should be
    /// handled by the sandbox service rather than the standard RPC dispatcher.
    pub fn is_sandbox_request(self) -> (b: bool)
        ensures
            b == is_sandbox_kind(self),
    {
        match self {
            MessageType::SandboxCreateRequest
            | MessageType::SandboxStopRequest
            | MessageType::SandboxRemoveRequest
            | MessageType::SandboxInspectRequest
            | MessageType::SandboxListRequest
            | MessageType::SandboxRunRequest
            | MessageType::SandboxExecRequest
            | MessageType::SandboxEventsRequest
            | MessageType::SandboxFileReadRequest
            | MessageType::SandboxFileWriteRequest
            | MessageType::SandboxPortForwardRequest
            | MessageType::SandboxPortForwardRemoveRequest
            | MessageType::SandboxCheckpointRequest
            | MessageType::SandboxRestoreRequest
            | MessageType::SandboxListSnapshotsRequest
            | MessageType::SandboxDeleteSnapshotRequest => true,
            _ => false,
        }
    }

    /// Returns true if this message type is a Kubernetes management request.
    pub fn is_kubernetes_request(self) -> (b: bool)
        ensures
            b == is_kubernetes_kind(self),
    {
        match self {
            MessageType::KubernetesStartRequest
            | MessageType::KubernetesStopRequest
            | MessageType::KubernetesDeleteRequest
            | MessageType::KubernetesStatusRequest
            | MessageType::KubernetesKubeconfigRequest => true,
            _ => false,
        }
    }
}

/// Decoding the wire value of any message kind gives that kind back.
pub proof fn lemma_message_type_roundtrip(t: MessageType)
    ensures
        message_type_of(message_type_value(t)) == Some(t),
{
}

/// Whenever a wire value decodes to a kind, that kind encodes to the same
/// wire value: the table is a bijection between the kinds and the values
/// it accepts.
pub proof fn lemma_message_type_decode_encode(value: u32)
    ensures
        message_type_of(value) matches Some(t) ==> message_type_value(t) == value,
{
}

/// Sandbox and Kubernetes requests are disjoint, and both are requests
/// (their wire values lie below `0x1000`).
pub proof fn lemma_request_classes(t: MessageType)
    ensures
        !(is_sandbox_kind(t) && is_kubernetes_kind(t)),
        is_sandbox_kind(t) ==> message_type_value(t) < 0x1000,
        is_kubernetes_kind(t) ==> message_type_value(t) < 0x1000,
{
}

} // verus!
