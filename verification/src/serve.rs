//! Guest-agent side of the RPC channel: routing of incoming requests, the
//! kinds of responses, and the decisions of the inline request handlers.
//!
//! The agent's I/O (reading frames, containerd queries, `mmap`, setting the
//! clock) stays with the caller; the functions here decide what to do and
//! what to answer.

use vstd::prelude::*;
use crate::agent::{ReadinessEvent, ReadinessKind};
use crate::rpc::ErrorResponse;
use crate::text::{chars_of, concat3};
use crate::wire::{message_type_name, message_type_value, is_sandbox_kind, MessageType};

verus! {

/// Linux `EINVAL`: invalid argument.
pub const EINVAL: i32 = 22;

/// Linux `EIO`: I/O error.
pub const EIO: i32 = 5;

/// Code of the error answered to a request that cannot be parsed.
pub const BAD_REQUEST: i32 = 400;

/// A request the agent answers from the request/response loop (as opposed
/// to the sandbox and machine-exec streams). Its payload is decoded by the
/// caller.
#[derive(Debug, Clone, Copy, PartialEq, Eq, Structural)]
pub enum RequestKind {
    Ping,
    GetSystemInfo,
    EnsureRuntime,
    RuntimeStatus,
    StartKubernetes,
    StopKubernetes,
    DeleteKubernetes,
    KubernetesStatus,
    KubernetesKubeconfig,
    Shutdown,
    MmapReadFile,
    DiskTrim,
    ContainerFsPaths,
    ImageFsPaths,
    ListGuestUsbDevices,
    /// Streaming: readiness events.
    WatchReadiness,
    /// Streaming: memory pressure events.
    WatchMemoryPressure,
    /// Streaming: machine stats.
    WatchStats,
    /// Test-only: exit so PID 1 respawns the agent.
    KillAgent,
}

/// The request a message kind carries, if it is one the request/response
/// loop handles.
pub open spec fn request_of(t: MessageType) -> Option<RequestKind> {
    match t {
        MessageType::PingRequest => Some(RequestKind::Ping),
        MessageType::GetSystemInfoRequest => Some(RequestKind::GetSystemInfo),
        MessageType::EnsureRuntimeRequest => Some(RequestKind::EnsureRuntime),
        MessageType::RuntimeStatusRequest => Some(RequestKind::RuntimeStatus),
        MessageType::KubernetesStartRequest => Some(RequestKind::StartKubernetes),
        MessageType::KubernetesStopRequest => Some(RequestKind::StopKubernetes),
        MessageType::KubernetesDeleteRequest => Some(RequestKind::DeleteKubernetes),
        MessageType::KubernetesStatusRequest => Some(RequestKind::KubernetesStatus),
        MessageType::KubernetesKubeconfigRequest => Some(RequestKind::KubernetesKubeconfig),
        MessageType::ShutdownRequest => Some(RequestKind::Shutdown),
        MessageType::MmapReadFileRequest => Some(RequestKind::MmapReadFile),
        MessageType::DiskTrimRequest => Some(RequestKind::DiskTrim),
        MessageType::ContainerFsPathsRequest => Some(RequestKind::ContainerFsPaths),
        MessageType::ImageFsPathsRequest => Some(RequestKind::ImageFsPaths),
        MessageType::ListGuestUsbDevicesRequest => Some(RequestKind::ListGuestUsbDevices),
        MessageType::WatchReadinessRequest => Some(RequestKind::WatchReadiness),
        MessageType::WatchMemoryPressureRequest => Some(RequestKind::WatchMemoryPressure),
        MessageType::WatchStatsRequest => Some(RequestKind::WatchStats),
        MessageType::KillAgentRequest => Some(RequestKind::KillAgent),
        _ => None,
    }
}

/// The refusal of a message kind the request loop does not handle.
pub open spec fn unexpected_message_text(t: MessageType) -> Seq<char> {
    "unexpected message type: "@ + message_type_name(t)
}

/// Parses the kind of request a message carries: the request for the kinds
/// the request/response loop handles, the refusal (naming the kind) for any
/// other.
pub fn parse_request(msg_type: MessageType) -> (r: Result<RequestKind, String>)
    ensures
        match request_of(msg_type) {
            Some(k) => r == Ok::<RequestKind, String>(k),
            None => r matches Err(m) && m@ == unexpected_message_text(msg_type),
        },
{
    match msg_type {
        MessageType::PingRequest => Ok(RequestKind::Ping),
        MessageType::GetSystemInfoRequest => Ok(RequestKind::GetSystemInfo),
        MessageType::EnsureRuntimeRequest => Ok(RequestKind::EnsureRuntime),
        MessageType::RuntimeStatusRequest => Ok(RequestKind::RuntimeStatus),
        MessageType::KubernetesStartRequest => Ok(RequestKind::StartKubernetes),
        MessageType::KubernetesStopRequest => Ok(RequestKind::StopKubernetes),
        MessageType::KubernetesDeleteRequest => Ok(RequestKind::DeleteKubernetes),
        MessageType::KubernetesStatusRequest => Ok(RequestKind::KubernetesStatus),
        MessageType::KubernetesKubeconfigRequest => Ok(RequestKind::KubernetesKubeconfig),
        MessageType::ShutdownRequest => Ok(RequestKind::Shutdown),
        MessageType::MmapReadFileRequest => Ok(RequestKind::MmapReadFile),
        MessageType::DiskTrimRequest => Ok(RequestKind::DiskTrim),
        MessageType::ContainerFsPathsRequest => Ok(RequestKind::ContainerFsPaths),
        MessageType::ImageFsPathsRequest => Ok(RequestKind::ImageFsPaths),
        MessageType::ListGuestUsbDevicesRequest => Ok(RequestKind::ListGuestUsbDevices),
        MessageType::WatchReadinessRequest => Ok(RequestKind::WatchReadiness),
        MessageType::WatchMemoryPressureRequest => Ok(RequestKind::WatchMemoryPressure),
        MessageType::WatchStatsRequest => Ok(RequestKind::WatchStats),
        MessageType::KillAgentRequest => Ok(RequestKind::KillAgent),
        _ => {
            proof {
                reveal_strlit("");
            }
            Err(concat3("unexpected message type: ", msg_type.name(), ""))
        },
    }
}

/// Where an incoming message goes.
#[derive(Debug, Clone)]
pub enum Route {
    /// The sandbox handler, which may stream several frames.
    Sandbox,
    /// The machine-level exec handler, which streams output frames.
    MachineExec,
    /// The request/response loop.
    Request(RequestKind),
    /// Answer with this error: the request cannot be parsed.
    Reject(ErrorResponse),
}

/// The route of an incoming message kind: sandbox requests first, then
/// machine exec, then the requests of the request loop; any other kind is
/// answered with a 400 error naming it.
pub open spec fn route_outcome(t: MessageType, r: Route) -> bool {
    if is_sandbox_kind(t) {
        r is Sandbox
    } else if t is MachineExecRequest {
        r is MachineExec
    } else {
        match request_of(t) {
            Some(k) => r == Route::Request(k),
            None => r matches Route::Reject(e) && e.code == BAD_REQUEST && e.message@
                == "invalid request: "@ + unexpected_message_text(t),
        }
    }
}

/// Routes an incoming message by its kind.
pub fn route_message(msg_type: MessageType) -> (r: Route)
    ensures
        route_outcome(msg_type, r),
{
    if msg_type.is_sandbox_request() {
        return Route::Sandbox;
    }
    if let MessageType::MachineExecRequest = msg_type {
        return Route::MachineExec;
    }
    proof {
        reveal_strlit("");
    }
    match parse_request(msg_type) {
        Ok(k) => Route::Request(k),
        Err(e) => Route::Reject(
            ErrorResponse { code: BAD_REQUEST, message: concat3("invalid request: ", e.as_str(), "") },
        ),
    }
}

/// What reading the next request of a connection brought.
#[derive(Debug, Clone)]
pub enum ReadOutcome {
    /// The peer closed the connection.
    PeerClosed,
    /// The read failed otherwise (an I/O error or an unreadable frame).
    Failed,
    /// A message of this kind, carrying this trace id.
    Message { msg_type: MessageType, trace_id: String },
}

/// What the connection loop does next.
#[derive(Debug, Clone)]
pub enum ServeAction {
    /// Stop serving: the peer went away, which is a clean end.
    Finish,
    /// Stop serving and report the read failure.
    Fail,
    /// Hand the message to the handler of its route (which decodes the
    /// payload), then read the next request.
    Dispatch { route: Route, trace_id: String },
    /// Write this error response, echoing the trace id, then read the next
    /// request.
    Answer { error: ErrorResponse, trace_id: String },
}

/// Whether the loop reads another request after this action.
pub open spec fn keeps_serving(a: ServeAction) -> bool {
    a is Dispatch || a is Answer
}

/// The loop's action after a read: a closed peer ends the connection
/// cleanly and any other read failure ends it with the error; a message
/// goes to its route, except that a kind the agent does not handle is
/// answered with the route's 400 error under the request's trace id.
pub open spec fn serve_outcome(read: ReadOutcome, a: ServeAction) -> bool {
    match read {
        ReadOutcome::PeerClosed => a is Finish,
        ReadOutcome::Failed => a is Fail,
        ReadOutcome::Message { msg_type, trace_id } => exists|r: Route|
            #![trigger route_outcome(msg_type, r)]
            route_outcome(msg_type, r) && match r {
                Route::Reject(e) => a == ServeAction::Answer { error: e, trace_id },
                _ => a == ServeAction::Dispatch { route: r, trace_id },
            },
    }
}

/// One turn of the connection loop: what to do with what the read brought.
pub fn serve_step(read: ReadOutcome) -> (a: ServeAction)
    ensures
        serve_outcome(read, a),
{
    match read {
        ReadOutcome::PeerClosed => ServeAction::Finish,
        ReadOutcome::Failed => ServeAction::Fail,
        ReadOutcome::Message { msg_type, trace_id } => {
            let route = route_message(msg_type);
            let ghost r = route;
            match route {
                Route::Reject(error) => ServeAction::Answer { error, trace_id },
                route => ServeAction::Dispatch { route, trace_id },
            }
        },
    }
}

/// The answer to a request whose kind the loop handles but whose payload
/// cannot be decoded: a 400 error, `invalid request: ` and the decoder's
/// message, under the request's trace id. The loop then reads on.
pub fn answer_undecodable(trace_id: String, detail: &str) -> (a: ServeAction)
    ensures
        a matches ServeAction::Answer { error, trace_id: t } && error.code == BAD_REQUEST
            && error.message@ == "invalid request: "@ + detail@ && t == trace_id,
        keeps_serving(a),
{
    proof {
        reveal_strlit("");
        assert("invalid request: "@ + detail@ + ""@ =~= "invalid request: "@ + detail@);
    }
    ServeAction::Answer {
        error: ErrorResponse { code: BAD_REQUEST, message: concat3("invalid request: ", detail, "") },
        trace_id,
    }
}

/// The kind of a response the agent sends (its payload aside).
#[derive(Debug, Clone, Copy, PartialEq, Eq, Structural)]
pub enum ResponseKind {
    Ping,
    SystemInfo,
    RuntimeEnsure,
    RuntimeStatus,
    KubernetesStart,
    KubernetesStop,
    KubernetesDelete,
    KubernetesStatus,
    KubernetesKubeconfig,
    Shutdown,
    DiskTrim,
    Empty,
    PortBindingsChanged,
    PortBindingsRemoved,
    ReadinessEvent,
    MemoryPressureEvent,
    Error,
    MmapReadFile,
    ContainerFsPaths,
    ImageFsPaths,
    GuestUsbDevices,
    /// Test-only: acknowledgement of a kill-agent request.
    KillAgent,
}

/// The message kind a response is sent as.
pub open spec fn response_type_of(k: ResponseKind) -> MessageType {
    match k {
        ResponseKind::Ping => MessageType::PingResponse,
        ResponseKind::SystemInfo => MessageType::GetSystemInfoResponse,
        ResponseKind::RuntimeEnsure => MessageType::EnsureRuntimeResponse,
        ResponseKind::RuntimeStatus => MessageType::RuntimeStatusResponse,
        ResponseKind::KubernetesStart => MessageType::KubernetesStartResponse,
        ResponseKind::KubernetesStop => MessageType::KubernetesStopResponse,
        ResponseKind::KubernetesDelete => MessageType::KubernetesDeleteResponse,
        ResponseKind::KubernetesStatus => MessageType::KubernetesStatusResponse,
        ResponseKind::KubernetesKubeconfig => MessageType::KubernetesKubeconfigResponse,
        ResponseKind::Shutdown => MessageType::ShutdownResponse,
        ResponseKind::DiskTrim => MessageType::DiskTrimResponse,
        ResponseKind::Empty => MessageType::Empty,
        ResponseKind::PortBindingsChanged => MessageType::PortBindingsChanged,
        ResponseKind::PortBindingsRemoved => MessageType::PortBindingsRemoved,
        ResponseKind::ReadinessEvent => MessageType::ReadinessEvent,
        ResponseKind::MemoryPressureEvent => MessageType::MemoryPressureEvent,
        ResponseKind::Error => MessageType::Error,
        ResponseKind::MmapReadFile => MessageType::MmapReadFileResponse,
        ResponseKind::ContainerFsPaths => MessageType::ContainerFsPathsResponse,
        ResponseKind::ImageFsPaths => MessageType::ImageFsPathsResponse,
        ResponseKind::GuestUsbDevices => MessageType::ListGuestUsbDevicesResponse,
        ResponseKind::KillAgent => MessageType::KillAgentResponse,
    }
}

impl ResponseKind {
    /// Returns the message type for this response.
    pub fn message_type(self) -> (t: MessageType)
        ensures
            t == response_type_of(self),
    {
        match self {
            ResponseKind::Ping => MessageType::PingResponse,
            ResponseKind::SystemInfo => MessageType::GetSystemInfoResponse,
            ResponseKind::RuntimeEnsure => MessageType::EnsureRuntimeResponse,
            ResponseKind::RuntimeStatus => MessageType::RuntimeStatusResponse,
            ResponseKind::KubernetesStart => MessageType::KubernetesStartResponse,
            ResponseKind::KubernetesStop => MessageType::KubernetesStopResponse,
            ResponseKind::KubernetesDelete => MessageType::KubernetesDeleteResponse,
            ResponseKind::KubernetesStatus => MessageType::KubernetesStatusResponse,
            ResponseKind::KubernetesKubeconfig => MessageType::KubernetesKubeconfigResponse,
            ResponseKind::Shutdown => MessageType::ShutdownResponse,
            ResponseKind::DiskTrim => MessageType::DiskTrimResponse,
            ResponseKind::Empty => MessageType::Empty,
            ResponseKind::PortBindingsChanged => MessageType::PortBindingsChanged,
            ResponseKind::PortBindingsRemoved => MessageType::PortBindingsRemoved,
            ResponseKind::ReadinessEvent => MessageType::ReadinessEvent,
            ResponseKind::MemoryPressureEvent => MessageType::MemoryPressureEvent,
            ResponseKind::Error => MessageType::Error,
            ResponseKind::MmapReadFile => MessageType::MmapReadFileResponse,
            ResponseKind::ContainerFsPaths => MessageType::ContainerFsPathsResponse,
            ResponseKind::ImageFsPaths => MessageType::ImageFsPathsResponse,
            ResponseKind::GuestUsbDevices => MessageType::ListGuestUsbDevicesResponse,
            ResponseKind::KillAgent => MessageType::KillAgentResponse,
        }
    }
}

/// The response kind a request of the request loop is answered with when
/// its handler succeeds (a failing handler answers with an error instead);
/// the streaming watches answer with event streams, not one response.
pub open spec fn answer_of(k: RequestKind) -> Option<ResponseKind> {
    match k {
        RequestKind::Ping => Some(ResponseKind::Ping),
        RequestKind::GetSystemInfo => Some(ResponseKind::SystemInfo),
        RequestKind::EnsureRuntime => Some(ResponseKind::RuntimeEnsure),
        RequestKind::RuntimeStatus => Some(ResponseKind::RuntimeStatus),
        RequestKind::StartKubernetes => Some(ResponseKind::KubernetesStart),
        RequestKind::StopKubernetes => Some(ResponseKind::KubernetesStop),
        RequestKind::DeleteKubernetes => Some(ResponseKind::KubernetesDelete),
        RequestKind::KubernetesStatus => Some(ResponseKind::KubernetesStatus),
        RequestKind::KubernetesKubeconfig => Some(ResponseKind::KubernetesKubeconfig),
        RequestKind::Shutdown => Some(ResponseKind::Shutdown),
        RequestKind::MmapReadFile => Some(ResponseKind::MmapReadFile),
        RequestKind::DiskTrim => Some(ResponseKind::DiskTrim),
        RequestKind::ContainerFsPaths => Some(ResponseKind::ContainerFsPaths),
        RequestKind::ImageFsPaths => Some(ResponseKind::ImageFsPaths),
        RequestKind::ListGuestUsbDevices => Some(ResponseKind::GuestUsbDevices),
        RequestKind::KillAgent => Some(ResponseKind::KillAgent),
        RequestKind::WatchReadiness => None,
        RequestKind::WatchMemoryPressure => None,
        RequestKind::WatchStats => None,
    }
}

impl RequestKind {
    /// The response kind this request is answered with when its handler
    /// succeeds; `None` for the streaming watches.
    pub fn answer_kind(self) -> (r: Option<ResponseKind>)
        ensures
            r == answer_of(self),
    {
        match self {
            RequestKind::Ping => Some(ResponseKind::Ping),
            RequestKind::GetSystemInfo => Some(ResponseKind::SystemInfo),
            RequestKind::EnsureRuntime => Some(ResponseKind::RuntimeEnsure),
            RequestKind::RuntimeStatus => Some(ResponseKind::RuntimeStatus),
            RequestKind::StartKubernetes => Some(ResponseKind::KubernetesStart),
            RequestKind::StopKubernetes => Some(ResponseKind::KubernetesStop),
            RequestKind::DeleteKubernetes => Some(ResponseKind::KubernetesDelete),
            RequestKind::KubernetesStatus => Some(ResponseKind::KubernetesStatus),
            RequestKind::KubernetesKubeconfig => Some(ResponseKind::KubernetesKubeconfig),
            RequestKind::Shutdown => Some(ResponseKind::Shutdown),
            RequestKind::MmapReadFile => Some(ResponseKind::MmapReadFile),
            RequestKind::DiskTrim => Some(ResponseKind::DiskTrim),
            RequestKind::ContainerFsPaths => Some(ResponseKind::ContainerFsPaths),
            RequestKind::ImageFsPaths => Some(ResponseKind::ImageFsPaths),
            RequestKind::ListGuestUsbDevices => Some(ResponseKind::GuestUsbDevices),
            RequestKind::KillAgent => Some(ResponseKind::KillAgent),
            RequestKind::WatchReadiness => None,
            RequestKind::WatchMemoryPressure => None,
            RequestKind::WatchStats => None,
        }
    }
}

/// The agent answers a unary request of the host with a message of the type
/// the host expects for it.
pub open spec fn agent_answers_with(request: MessageType, response: MessageType) -> bool {
    &&& !is_sandbox_kind(request)
    &&& !(request is MachineExecRequest)
    &&& request_of(request) matches Some(k)
    &&& answer_of(k) matches Some(rk)
    &&& response_type_of(rk) == response
}

/// Every unary call the host client makes is routed to the agent's request
/// loop and answered, on success, with the message type the host's reply
/// check expects.
pub proof fn lemma_host_and_agent_agree()
    ensures
        agent_answers_with(MessageType::PingRequest, MessageType::PingResponse),
        agent_answers_with(MessageType::GetSystemInfoRequest, MessageType::GetSystemInfoResponse),
        agent_answers_with(MessageType::EnsureRuntimeRequest, MessageType::EnsureRuntimeResponse),
        agent_answers_with(MessageType::RuntimeStatusRequest, MessageType::RuntimeStatusResponse),
        agent_answers_with(MessageType::KillAgentRequest, MessageType::KillAgentResponse),
        agent_answers_with(MessageType::MmapReadFileRequest, MessageType::MmapReadFileResponse),
        agent_answers_with(
            MessageType::ContainerFsPathsRequest,
            MessageType::ContainerFsPathsResponse,
        ),
        agent_answers_with(MessageType::ImageFsPathsRequest, MessageType::ImageFsPathsResponse),
        agent_answers_with(
            MessageType::ListGuestUsbDevicesRequest,
            MessageType::ListGuestUsbDevicesResponse,
        ),
        agent_answers_with(MessageType::DiskTrimRequest, MessageType::DiskTrimResponse),
        agent_answers_with(MessageType::KubernetesStartRequest, MessageType::KubernetesStartResponse),
        agent_answers_with(MessageType::KubernetesStopRequest, MessageType::KubernetesStopResponse),
        agent_answers_with(
            MessageType::KubernetesDeleteRequest,
            MessageType::KubernetesDeleteResponse,
        ),
        agent_answers_with(
            MessageType::KubernetesStatusRequest,
            MessageType::KubernetesStatusResponse,
        ),
        agent_answers_with(
            MessageType::KubernetesKubeconfigRequest,
            MessageType::KubernetesKubeconfigResponse,
        ),
{
}

/// The message kind the frames of a watch stream go out as; `None` for the
/// requests answered with one response.
pub open spec fn stream_event_of(k: RequestKind) -> Option<MessageType> {
    match k {
        RequestKind::WatchReadiness => Some(MessageType::ReadinessEvent),
        RequestKind::WatchMemoryPressure => Some(MessageType::MemoryPressureEvent),
        RequestKind::WatchStats => Some(MessageType::MachineStats),
        _ => None,
    }
}

/// The request loop handles exactly the request kinds numbered 0x0001 to
/// 0x0013 on the wire, and no two of them parse to the same request.
pub proof fn lemma_requests_parse_one_to_one(t: MessageType, u: MessageType)
    ensures
        request_of(t) is Some <==> 1 <= message_type_value(t) <= 0x0013,
        request_of(t) is Some && request_of(t) == request_of(u) ==> t == u,
{
}

/// Every request the loop handles is answered, or streamed, as the message
/// kind numbered 0x1000 above the request's own number: a unary request with
/// its response (a `ShutdownRequest` with a `ShutdownResponse`), a watch with
/// its events.
pub proof fn lemma_replies_pair_with_requests(t: MessageType)
    ensures
        request_of(t) matches Some(k) ==> match answer_of(k) {
            Some(rk) => message_type_value(response_type_of(rk)) == message_type_value(t) + 0x1000,
            None => stream_event_of(k) matches Some(e) && message_type_value(e) == message_type_value(t)
                + 0x1000,
        },
        request_of(t) matches Some(k) ==> (answer_of(k) is Some <==> stream_event_of(k) is None),
{
}

/// Distinct response kinds go out as distinct message kinds: the empty
/// acknowledgement as the message numbered 0, the error as 0xFFFF, and every
/// other response in the response range from 0x1000.
pub proof fn lemma_response_kinds_are_distinct(a: ResponseKind, b: ResponseKind)
    ensures
        a != b ==> response_type_of(a) != response_type_of(b),
        (message_type_value(response_type_of(a)) == 0) <==> a is Empty,
        (message_type_value(response_type_of(a)) == 0xFFFF) <==> a is Error,
        !(a is Empty) ==> message_type_value(response_type_of(a)) >= 0x1000,
{
}

/// The reply text of a ping: `pong`, or `pong: ` and the ping's message.
pub open spec fn ping_reply_text(message: Seq<char>) -> Seq<char> {
    if message.len() == 0 {
        "pong"@
    } else {
        "pong: "@ + message
    }
}

/// The reply text of a ping carrying `message`.
pub fn ping_reply_message(message: &str) -> (r: String)
    ensures
        r@ == ping_reply_text(message@),
{
    proof {
        reveal_strlit("");
    }
    let cs = chars_of(message);
    if cs.len() == 0 {
        "pong".to_owned()
    } else {
        concat3("pong: ", message, "")
    }
}

/// Whether a host timestamp can set the guest clock: only a positive one.
pub fn should_set_clock(timestamp_secs: i64) -> (b: bool)
    ensures
        b == (timestamp_secs > 0),
{
    timestamp_secs > 0
}

/// The grace period of a shutdown, in seconds: the requested one, or the
/// default when the request asks for none.
pub fn shutdown_grace_secs(timeout_seconds: u32, default_secs: u32) -> (g: u32)
    ensures
        g == (if timeout_seconds == 0 {
            default_secs
        } else {
            timeout_seconds
        }),
{
    if timeout_seconds == 0 {
        default_secs
    } else {
        timeout_seconds
    }
}

/// The `{:?}` (Debug) rendering of a string: quoted, with escapes.
pub uninterp spec fn str_debug(s: Seq<char>) -> Seq<char>;

/// `<str as Debug>::fmt` through `format!("{:?}")`: the quoted, escaped
/// rendering of `s`. The contract names the result; it claims only that it
/// depends on `s` alone.
#[verifier::external_body]
fn debug_quoted(s: &str) -> (r: String)
    ensures
        r@ == str_debug(s@),
{
    format!("{s:?}")
}

/// Whether a character is an ASCII letter or digit.
pub open spec fn is_ascii_alnum(c: char) -> bool {
    ('0' <= c <= '9') || ('a' <= c <= 'z') || ('A' <= c <= 'Z')
}

/// Whether a character is an ASCII hex digit (either case).
pub open spec fn is_ascii_hex(c: char) -> bool {
    ('0' <= c <= '9') || ('a' <= c <= 'f') || ('A' <= c <= 'F')
}

/// A container id accepted as a snapshot key: 1 to 128 ASCII letters and
/// digits.
pub open spec fn valid_container_id(id: Seq<char>) -> bool {
    0 < id.len() <= 128 && forall|i: int| 0 <= i < id.len() ==> is_ascii_alnum(#[trigger] id[i])
}

/// A top layer chain id accepted as a snapshot key: `sha256:` and 64 hex
/// digits.
pub open spec fn valid_chain_id(id: Seq<char>) -> bool {
    &&& id.len() == 71
    &&& id.subrange(0, 7) == "sha256:"@
    &&& forall|i: int| 7 <= i < 71 ==> is_ascii_hex(#[trigger] id[i])
}

fn all_ascii_alnum(cs: &[char]) -> (b: bool)
    ensures
        b == forall|i: int| 0 <= i < cs@.len() ==> is_ascii_alnum(#[trigger] cs@[i]),
{
    let mut i: usize = 0;
    while i < cs.len()
        invariant
            i <= cs@.len(),
            forall|k: int| 0 <= k < i ==> is_ascii_alnum(#[trigger] cs@[k]),
        decreases cs@.len() - i,
    {
        let c = cs[i];
        if !(('0' <= c && c <= '9') || ('a' <= c && c <= 'z') || ('A' <= c && c <= 'Z')) {
            return false;
        }
        i = i + 1;
    }
    true
}

/// Checks the untrusted container id of a `ContainerFsPaths` request before
/// it reaches containerd: an invalid one is answered with `EINVAL`.
pub fn check_container_id(id: &str) -> (r: Result<(), ErrorResponse>)
    ensures
        r is Ok <==> valid_container_id(id@),
        r matches Err(e) ==> e.code == EINVAL && e.message@ == "invalid container id "@ + str_debug(
            id@,
        ),
{
    let cs = chars_of(id);
    if cs.len() == 0 || cs.len() > 128 || !all_ascii_alnum(cs.as_slice()) {
        proof {
            reveal_strlit("");
        }
        let quoted = debug_quoted(id);
        return Err(
            ErrorResponse {
                code: EINVAL,
                message: concat3("invalid container id ", quoted.as_str(), ""),
            },
        );
    }
    Ok(())
}

/// Checks the untrusted chain id of an `ImageFsPaths` request before it
/// reaches containerd: an invalid one is answered with `EINVAL`.
pub fn check_chain_id(chain_id: &str) -> (r: Result<(), ErrorResponse>)
    ensures
        r is Ok <==> valid_chain_id(chain_id@),
        r matches Err(e) ==> e.code == EINVAL && e.message@ == "invalid top chain id "@
            + str_debug(chain_id@),
{
    let cs = chars_of(chain_id);
    let prefix = chars_of("sha256:");
    proof {
        reveal_strlit("sha256:");
        reveal_strlit("");
    }
    let mut ok = cs.len() == 71;
    if ok {
        let mut i: usize = 0;
        while i < 7
            invariant
                cs@.len() == 71,
                prefix@ == "sha256:"@,
                prefix@.len() == 7,
                i <= 7,
                ok == forall|k: int| 0 <= k < i ==> cs@[k] == prefix@[k],
            decreases 7 - i,
        {
            if cs[i] != prefix[i] {
                ok = false;
            }
            i = i + 1;
        }
        proof {
            if ok {
                assert(cs@.subrange(0, 7) =~= "sha256:"@);
            } else {
                assert(cs@.subrange(0, 7) != "sha256:"@) by {
                    let k = choose|k: int| 0 <= k < 7 && cs@[k] != prefix@[k];
                    assert(cs@.subrange(0, 7)[k] != "sha256:"@[k]);
                }
            }
        }
        let mut j: usize = 7;
        while ok && j < 71
            invariant
                cs@.len() == 71,
                7 <= j <= 71,
                ok ==> cs@.subrange(0, 7) == "sha256:"@,
                ok ==> forall|k: int| 7 <= k < j ==> is_ascii_hex(#[trigger] cs@[k]),
                !ok ==> !valid_chain_id(cs@),
            decreases 71 - j,
        {
            let c = cs[j];
            if !(('0' <= c && c <= '9') || ('a' <= c && c <= 'f') || ('A' <= c && c <= 'F')) {
                ok = false;
            }
            j = j + 1;
        }
    }
    if !ok {
        let quoted = debug_quoted(chain_id);
        return Err(
            ErrorResponse {
                code: EINVAL,
                message: concat3("invalid top chain id ", quoted.as_str(), ""),
            },
        );
    }
    Ok(())
}

/// Page size of guest mappings.
pub const PAGE_SIZE: u64 = 4096;

/// Largest `MmapReadFile` read, in bytes (64 MiB).
pub const MMAP_READ_CAP: u64 = 67108864;

/// The page-aligned mapping that covers a read.
#[derive(Debug, Clone, Copy, PartialEq, Eq, Structural)]
pub struct MmapWindow {
    /// Offset of the mapping: the read offset rounded down to a page.
    pub page_base: u64,
    /// Where the read starts inside the mapping.
    pub inner_off: u64,
    /// Length of the mapping: whole pages covering the read.
    pub mapped_len: u64,
}

/// What an `MmapReadFile` request asks for.
#[derive(Debug, Clone, Copy, PartialEq, Eq, Structural)]
pub enum MmapPlan {
    /// Nothing to read: answer with no data.
    Empty,
    /// Map this window and copy the read out of it.
    Window(MmapWindow),
}

/// The window covering `length` bytes from `offset`.
pub open spec fn mmap_window(offset: u64, length: u64) -> MmapWindow {
    let inner = offset % 4096;
    MmapWindow {
        page_base: (offset - inner) as u64,
        inner_off: inner as u64,
        mapped_len: (((inner + length + 4095) / 4096) * 4096) as u64,
    }
}

/// Plans an `MmapReadFile` read: an empty read maps nothing; a read over the
/// cap is refused with `EINVAL`; any other maps the whole pages around it.
pub fn mmap_plan(offset: u64, length: u64) -> (r: Result<MmapPlan, ErrorResponse>)
    ensures
        length == 0 ==> r == Ok::<MmapPlan, ErrorResponse>(MmapPlan::Empty),
        length > MMAP_READ_CAP ==> (r matches Err(e) && e.code == EINVAL && e.message@
            == "MmapReadFile length exceeds 64 MiB cap"@),
        0 < length <= MMAP_READ_CAP ==> r == Ok::<MmapPlan, ErrorResponse>(
            MmapPlan::Window(mmap_window(offset, length)),
        ),
{
    if length == 0 {
        return Ok(MmapPlan::Empty);
    }
    if length > MMAP_READ_CAP {
        return Err(
            ErrorResponse {
                code: EINVAL,
                message: "MmapReadFile length exceeds 64 MiB cap".to_owned(),
            },
        );
    }
    let page_base = offset & !(PAGE_SIZE - 1);
    assert(offset & !4095u64 == offset - offset % 4096) by (bit_vector);
    let inner_off = offset - page_base;
    let total_len = inner_off + length;
    let mapped_len = ((total_len + (PAGE_SIZE - 1)) / PAGE_SIZE) * PAGE_SIZE;
    Ok(MmapPlan::Window(MmapWindow { page_base, inner_off, mapped_len }))
}

/// The window maps whole pages from a page boundary, starts at or before the
/// read, and covers the read with less than a page to spare.
pub proof fn lemma_mmap_window_covers(offset: u64, length: u64)
    requires
        0 < length <= MMAP_READ_CAP,
    ensures
        mmap_window(offset, length).page_base % 4096 == 0,
        mmap_window(offset, length).mapped_len % 4096 == 0,
        mmap_window(offset, length).page_base + mmap_window(offset, length).inner_off == offset,
        mmap_window(offset, length).inner_off < 4096,
        mmap_window(offset, length).inner_off + length <= mmap_window(offset, length).mapped_len,
        mmap_window(offset, length).mapped_len < mmap_window(offset, length).inner_off + length
            + 4096,
{
    let inner = offset % 4096;
    let total = inner + length;
    assert((offset - inner) % 4096 == 0) by (nonlinear_arith)
        requires
            inner == offset % 4096,
    ;
    assert(((total + 4095) / 4096) * 4096 % 4096 == 0) by (nonlinear_arith);
    assert(total <= ((total + 4095) / 4096) * 4096 < total + 4096) by (nonlinear_arith)
        requires
            total >= 0,
    ;
}

/// What the runtime-ensure call reported.
#[derive(Debug, Clone)]
pub struct RuntimeEnsureSummary {
    /// The runtime is ready.
    pub ready: bool,
    /// Runtime endpoint, when known.
    pub endpoint: String,
    /// Message of the call.
    pub message: String,
}

/// What the runtime status call reported.
#[derive(Debug, Clone)]
pub struct RuntimeStatusSummary {
    /// The container engine answers.
    pub docker_ready: bool,
    /// Runtime endpoint, when known.
    pub endpoint: String,
    /// Status detail.
    pub detail: String,
    /// The runtime's service statuses, each as its encoded message.
    pub services: Vec<Vec<u8>>,
}

/// The first event of every readiness watch.
pub fn agent_ready_event() -> (e: ReadinessEvent)
    ensures
        e.kind == Some(ReadinessKind::AgentReady),
        e.endpoint@ == Seq::<char>::empty(),
        e.detail@ == "agent ready"@,
        e.services@ == Seq::<Vec<u8>>::empty(),
{
    ReadinessEvent {
        kind: Some(ReadinessKind::AgentReady),
        endpoint: String::new(),
        detail: "agent ready".to_owned(),
        services: Vec::new(),
    }
}

/// The event announcing that the runtime is being brought up.
pub fn runtime_starting_event() -> (e: ReadinessEvent)
    ensures
        e.kind == Some(ReadinessKind::RuntimeStarting),
        e.endpoint@ == Seq::<char>::empty(),
        e.detail@ == "ensuring guest runtime"@,
        e.services@ == Seq::<Vec<u8>>::empty(),
{
    ReadinessEvent {
        kind: Some(ReadinessKind::RuntimeStarting),
        endpoint: String::new(),
        detail: "ensuring guest runtime".to_owned(),
        services: Vec::new(),
    }
}

/// The watch's time budget in milliseconds: the requested one, at least 1.
pub fn watch_timeout_ms(timeout_ms: u32) -> (ms: u64)
    ensures
        ms == (if timeout_ms == 0 {
            1
        } else {
            timeout_ms
        }),
{
    if timeout_ms == 0 {
        1
    } else {
        timeout_ms as u64
    }
}

/// `preferred` unless it is empty, then `fallback`.
pub open spec fn or_else(preferred: Seq<char>, fallback: Seq<char>) -> Seq<char> {
    if preferred.len() == 0 {
        fallback
    } else {
        preferred
    }
}

fn or_else_string(preferred: &String, fallback: &String) -> (r: String)
    ensures
        r@ == or_else(preferred@, fallback@),
{
    let cs = chars_of(preferred.as_str());
    if cs.len() == 0 {
        fallback.clone()
    } else {
        preferred.clone()
    }
}

/// The outcome of one readiness check: the runtime is ready when either
/// call says so (the ready event takes the ensure call's endpoint and
/// message when it gave them, else the status ones); otherwise, once the
/// deadline passed, the failed event; otherwise none (check again). Both
/// events carry the status call's services.
pub open spec fn readiness_outcome(
    ensure: RuntimeEnsureSummary,
    status: RuntimeStatusSummary,
    deadline_passed: bool,
    r: Option<ReadinessEvent>,
) -> bool {
    if ensure.ready || status.docker_ready {
        r matches Some(e) && e.kind == Some(ReadinessKind::RuntimeReady) && e.endpoint@ == or_else(
            ensure.endpoint@,
            status.endpoint@,
        ) && e.detail@ == or_else(ensure.message@, status.detail@) && e.services == status.services
    } else if deadline_passed {
        r matches Some(e) && e.kind == Some(ReadinessKind::RuntimeFailed) && e.endpoint@
            == status.endpoint@ && e.detail@ == or_else(ensure.message@, status.detail@)
            && e.services == status.services
    } else {
        r is None
    }
}

/// Decides the readiness event after one check of the runtime.
pub fn readiness_check(
    ensure: &RuntimeEnsureSummary,
    status: RuntimeStatusSummary,
    deadline_passed: bool,
) -> (r: Option<ReadinessEvent>)
    ensures
        readiness_outcome(*ensure, status, deadline_passed, r),
{
    if ensure.ready || status.docker_ready {
        let endpoint = or_else_string(&ensure.endpoint, &status.endpoint);
        let detail = or_else_string(&ensure.message, &status.detail);
        return Some(
            ReadinessEvent {
                kind: Some(ReadinessKind::RuntimeReady),
                endpoint,
                detail,
                services: status.services,
            },
        );
    }
    if deadline_passed {
        let detail = or_else_string(&ensure.message, &status.detail);
        return Some(
            ReadinessEvent {
                kind: Some(ReadinessKind::RuntimeFailed),
                endpoint: status.endpoint,
                detail,
                services: status.services,
            },
        );
    }
    None
}

/// Where a readiness watch stands.
#[derive(Debug, Clone, Copy, PartialEq, Eq, Structural)]
pub enum WatchStage {
    /// Nothing sent yet.
    Opening,
    /// The agent-ready event went out and the runtime is to be started.
    Starting,
    /// The runtime is being checked until it is ready or the deadline passes.
    Polling,
    /// The watch is over.
    Finished,
}

/// One check of the runtime: what the ensure and status calls reported and
/// whether the watch's deadline has passed.
#[derive(Debug, Clone)]
pub struct ReadinessProbe {
    pub ensure: RuntimeEnsureSummary,
    pub status: RuntimeStatusSummary,
    pub deadline_passed: bool,
}

/// A step of a readiness watch: the event to write (if any) and the stage
/// that follows.
#[derive(Debug, Clone)]
pub struct WatchStep {
    pub frame: Option<ReadinessEvent>,
    pub next: WatchStage,
}

/// The kind of the event a step writes and the stage after it. Opening
/// writes agent-ready and ends unless the runtime is to be started;
/// starting writes runtime-starting; polling writes runtime-ready once
/// either call reports the runtime ready, else runtime-failed once the
/// deadline passed, and either ends the watch; otherwise (or with no check
/// to judge) it writes nothing and polls again. A finished watch writes
/// nothing.
pub open spec fn watch_transition(
    stage: WatchStage,
    start_runtime_if_needed: bool,
    probe: Option<(bool, bool)>,
) -> (Option<ReadinessKind>, WatchStage) {
    match stage {
        WatchStage::Opening => (
            Some(ReadinessKind::AgentReady),
            if start_runtime_if_needed {
                WatchStage::Starting
            } else {
                WatchStage::Finished
            },
        ),
        WatchStage::Starting => (Some(ReadinessKind::RuntimeStarting), WatchStage::Polling),
        WatchStage::Polling => match probe {
            Some((ready, deadline_passed)) => if ready {
                (Some(ReadinessKind::RuntimeReady), WatchStage::Finished)
            } else if deadline_passed {
                (Some(ReadinessKind::RuntimeFailed), WatchStage::Finished)
            } else {
                (None, WatchStage::Polling)
            },
            None => (None, WatchStage::Polling),
        },
        WatchStage::Finished => (None, WatchStage::Finished),
    }
}

/// The probe as the transition sees it: whether the runtime is ready and
/// whether the deadline passed.
pub open spec fn probe_summary(probe: Option<ReadinessProbe>) -> Option<(bool, bool)> {
    match probe {
        Some(p) => Some((p.ensure.ready || p.status.docker_ready, p.deadline_passed)),
        None => None,
    }
}

/// Advances a readiness watch by one step. The events are those of
/// [`agent_ready_event`], [`runtime_starting_event`] and [`readiness_check`].
pub fn watch_step(
    stage: WatchStage,
    start_runtime_if_needed: bool,
    probe: Option<ReadinessProbe>,
) -> (r: WatchStep)
    ensures
        r.next == watch_transition(stage, start_runtime_if_needed, probe_summary(probe)).1,
        match r.frame {
            Some(e) => watch_transition(stage, start_runtime_if_needed, probe_summary(probe)).0
                == Some(e.kind->0) && e.kind is Some,
            None => watch_transition(stage, start_runtime_if_needed, probe_summary(probe)).0 is None,
        },
        stage is Opening ==> (r.frame matches Some(e) && e.endpoint@ == Seq::<char>::empty()
            && e.detail@ == "agent ready"@ && e.services@ == Seq::<Vec<u8>>::empty()),
        stage is Starting ==> (r.frame matches Some(e) && e.endpoint@ == Seq::<char>::empty()
            && e.detail@ == "ensuring guest runtime"@ && e.services@ == Seq::<Vec<u8>>::empty()),
        stage is Polling ==> match probe {
            Some(p) => readiness_outcome(p.ensure, p.status, p.deadline_passed, r.frame),
            None => r.frame is None,
        },
{
    match stage {
        WatchStage::Opening => WatchStep {
            frame: Some(agent_ready_event()),
            next: if start_runtime_if_needed {
                WatchStage::Starting
            } else {
                WatchStage::Finished
            },
        },
        WatchStage::Starting => WatchStep {
            frame: Some(runtime_starting_event()),
            next: WatchStage::Polling,
        },
        WatchStage::Polling => match probe {
            Some(p) => {
                let ReadinessProbe { ensure, status, deadline_passed } = p;
                let frame = readiness_check(&ensure, status, deadline_passed);
                let next = if frame.is_some() {
                    WatchStage::Finished
                } else {
                    WatchStage::Polling
                };
                WatchStep { frame, next }
            },
            None => WatchStep { frame: None, next: WatchStage::Polling },
        },
        WatchStage::Finished => WatchStep { frame: None, next: WatchStage::Finished },
    }
}

/// The event kinds a watch writes from `stage` when its steps are fed
/// `probes` in turn (one per step; opening and starting ignore theirs).
pub open spec fn watch_run(
    stage: WatchStage,
    start_runtime_if_needed: bool,
    probes: Seq<Option<(bool, bool)>>,
) -> Seq<ReadinessKind>
    decreases probes.len(),
{
    if probes.len() == 0 {
        Seq::empty()
    } else {
        let (kind, next) = watch_transition(stage, start_runtime_if_needed, probes[0]);
        let rest = watch_run(next, start_runtime_if_needed, probes.drop_first());
        match kind {
            Some(k) => seq![k] + rest,
            None => rest,
        }
    }
}

/// Whether a check reports the end of the watch: ready, or past the deadline.
pub open spec fn probe_ends(probe: Option<(bool, bool)>) -> bool {
    probe matches Some((ready, passed)) && (ready || passed)
}

proof fn lemma_polling_run(start: bool, probes: Seq<Option<(bool, bool)>>)
    ensures
        watch_run(WatchStage::Finished, start, probes) == Seq::<ReadinessKind>::empty(),
        (exists|i: int| 0 <= i < probes.len() && probe_ends(#[trigger] probes[i])) ==> {
            let run = watch_run(WatchStage::Polling, start, probes);
            &&& run.len() == 1
            &&& run[0] == ReadinessKind::RuntimeReady || run[0] == ReadinessKind::RuntimeFailed
        },
        !(exists|i: int| 0 <= i < probes.len() && probe_ends(#[trigger] probes[i]))
            ==> watch_run(WatchStage::Polling, start, probes) == Seq::<ReadinessKind>::empty(),
    decreases probes.len(),
{
    if probes.len() > 0 {
        let tail = probes.drop_first();
        lemma_polling_run(start, tail);
        if !probe_ends(probes[0]) {
            assert forall|i: int| 0 <= i < tail.len() && probe_ends(#[trigger] tail[i]) implies
                (exists|j: int| 0 <= j < probes.len() && probe_ends(#[trigger] probes[j])) by {
                assert(probes[i + 1] == tail[i]);
            }
            if exists|i: int| 0 <= i < probes.len() && probe_ends(#[trigger] probes[i]) {
                let i = choose|i: int| 0 <= i < probes.len() && probe_ends(#[trigger] probes[i]);
                assert(i > 0);
                assert(tail[i - 1] == probes[i]);
            }
        } else {
            assert(probe_ends(probes[0]));
        }
    }
}

/// The events of a readiness watch: agent-ready first; nothing more unless
/// the runtime is to be started; otherwise runtime-starting, then exactly
/// one terminal event (ready or failed) once some check finds the runtime
/// ready or the deadline passed, and nothing after it.
pub proof fn lemma_readiness_watch_sequence(
    start_runtime_if_needed: bool,
    opening: Option<(bool, bool)>,
    starting: Option<(bool, bool)>,
    probes: Seq<Option<(bool, bool)>>,
)
    ensures
        ({
            let run = watch_run(
                WatchStage::Opening,
                start_runtime_if_needed,
                seq![opening, starting] + probes,
            );
            &&& run[0] == ReadinessKind::AgentReady
            &&& !start_runtime_if_needed ==> run.len() == 1
            &&& start_runtime_if_needed ==> {
                &&& run[1] == ReadinessKind::RuntimeStarting
                &&& (exists|i: int| 0 <= i < probes.len() && probe_ends(#[trigger] probes[i]))
                    ==> run.len() == 3 && (run[2] == ReadinessKind::RuntimeReady || run[2]
                    == ReadinessKind::RuntimeFailed)
                &&& !(exists|i: int| 0 <= i < probes.len() && probe_ends(#[trigger] probes[i]))
                    ==> run.len() == 2
            }
        }),
{
    let all = seq![opening, starting] + probes;
    assert(all.drop_first().drop_first() =~= probes);
    assert(all[0] == opening);
    assert(all.drop_first()[0] == starting);
    lemma_polling_run(start_runtime_if_needed, probes);
    lemma_polling_run(start_runtime_if_needed, all.drop_first().drop_first());
    lemma_polling_run(start_runtime_if_needed, all.drop_first());
    let s = start_runtime_if_needed;
    let poll = watch_run(WatchStage::Polling, s, probes);
    if s {
        assert(watch_run(WatchStage::Starting, s, all.drop_first()) == seq![
            ReadinessKind::RuntimeStarting,
        ] + poll);
        assert(watch_run(WatchStage::Opening, s, all) == seq![ReadinessKind::AgentReady] + (seq![
            ReadinessKind::RuntimeStarting,
        ] + poll));
    } else {
        assert(watch_run(WatchStage::Opening, s, all) == seq![ReadinessKind::AgentReady] + watch_run(
            WatchStage::Finished,
            s,
            all.drop_first(),
        ));
    }
}

} // verus!
