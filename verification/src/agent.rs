//! Host-side client of the guest agent: request framing, reply checking and
//! the decisions of the unary and streaming RPC exchanges.
//!
//! The transport itself (vsock or a socketpair fd) is driven by the caller:
//! a method here builds the frame to send, and a second step judges the
//! frame that came back. Protobuf payloads travel as bytes.

use vstd::prelude::*;
use crate::error::CoreError;
use crate::frame::{
    build_message, decode_raw, decode_raw_frame, frame_bytes, lemma_frame_roundtrip_raw,
    trace_field_len,
};
use crate::rpc::{decode_error_payload, error_payload, lemma_error_payload_roundtrip, ErrorResponse};
use crate::wire::lemma_message_type_roundtrip;
use vstd::utf8::encode_utf8;
use crate::text::{concat3, padded_number, push_str, string_of, text_with_number};
use crate::wire::{
    message_type_value, MessageType, AGENT_PROTOCOL_VERSION, MIN_AGENT_PROTOCOL_VERSION,
};
use vstd::string::StringSliceAdditionalSpecFns;

verus! {

/// A single client-to-guest message during an interactive exec session.
#[derive(Debug, Clone)]
pub enum ExecSessionInput {
    /// Raw bytes for the process's stdin. An empty payload signals EOF and
    /// ends the input stream.
    Stdin(Vec<u8>),
    /// Resize the pseudo-TTY (only meaningful for TTY sessions).
    Resize {
        /// Terminal width in columns.
        width: u16,
        /// Terminal height in rows.
        height: u16,
    },
}

/// A chunk in a sandbox file-write stream.
#[derive(Debug, Clone)]
pub enum WriteFileChunk {
    /// Payload bytes to append to the file.
    Data(Vec<u8>),
    /// The client stream ended without a terminating `done` chunk: the write
    /// must be aborted rather than finalized.
    Abort,
}

/// Which transport a client drives.
#[derive(Debug, Clone, Copy, PartialEq, Eq, Structural)]
pub enum AgentTransport {
    /// The async (tokio) vsock transport; supports every RPC.
    Async,
    /// The blocking socketpair transport; unary RPCs only.
    Blocking,
}

/// Agent client for a single VM.
#[derive(Debug)]
pub struct AgentClient {
    cid: u32,
    transport: AgentTransport,
    connected: bool,
}

/// What a client is: its VM CID, its transport, and whether it is connected.
pub struct AgentClientView {
    pub cid: u32,
    pub transport: AgentTransport,
    pub connected: bool,
}

impl View for AgentClient {
    type V = AgentClientView;

    closed spec fn view(&self) -> AgentClientView {
        AgentClientView { cid: self.cid, transport: self.transport, connected: self.connected }
    }
}

/// An error of the `Machine` kind with this message.
pub open spec fn machine_error(e: CoreError, m: Seq<char>) -> bool {
    e matches CoreError::Machine(t) && t@ == m
}

/// An error of the `Agent` kind with this code and message.
pub open spec fn agent_error(e: CoreError, code: i32, m: Seq<char>) -> bool {
    e matches CoreError::Agent { code: c, message } && c == code && message@ == m
}

/// The message for a reply frame that cannot be read.
pub open spec fn malformed_reply_text() -> Seq<char> {
    "malformed agent response frame"@
}

/// The message for an error reply whose payload cannot be read.
pub open spec fn malformed_error_text() -> Seq<char> {
    "malformed agent error response"@
}

/// `prefix` followed by the type value in four hex digits.
pub open spec fn hex_type_text(prefix: Seq<char>, v: u32) -> Seq<char> {
    prefix + padded_number(v as nat, 16, 4)
}

/// The message for an unexpected reply type, in hex.
pub open spec fn unexpected_type_text(v: u32) -> Seq<char> {
    hex_type_text("unexpected response type: 0x"@, v)
}

/// The message for an unexpected reply type, in decimal.
pub open spec fn unexpected_type_decimal_text(v: u32) -> Seq<char> {
    "unexpected response type: "@ + padded_number(v as nat, 10, 0)
}

/// The value of the error message type.
pub open spec fn error_type_value() -> u32 {
    message_type_value(MessageType::Error)
}

/// What reading a reply frame gives: its type value and payload, or the
/// error it carries. A frame that cannot be read, or an error frame whose
/// payload cannot be read, is an error of the `Machine` kind; an error
/// frame becomes an `Agent` error with its code and message.
pub open spec fn reply_outcome(raw: Seq<u8>, r: Result<(u32, Vec<u8>), CoreError>) -> bool {
    match decode_raw(raw) {
        None => r matches Err(e) && machine_error(e, malformed_reply_text()),
        Some((ty, _, payload, _)) => if ty == error_type_value() {
            match decode_error_payload(payload) {
                Ok((code, m)) => r matches Err(e) && agent_error(e, code, m),
                Err(_) => r matches Err(e) && machine_error(e, malformed_error_text()),
            }
        } else {
            r matches Ok((t, p)) && t == ty && p@ == payload
        },
    }
}

/// Reads a reply frame: its type value and payload, or the error it carries.
pub fn parse_reply(raw: &[u8]) -> (r: Result<(u32, Vec<u8>), CoreError>)
    ensures
        reply_outcome(raw@, r),
{
    let frame = match decode_raw_frame(raw) {
        Some(f) => f,
        None => return Err(CoreError::Machine("malformed agent response frame".to_owned())),
    };
    if frame.type_value == MessageType::Error.wire_value() {
        return match ErrorResponse::decode(frame.payload.as_slice()) {
            Ok(e) => Err(CoreError::Agent { code: e.code, message: e.message }),
            Err(_) => Err(CoreError::Machine("malformed agent error response".to_owned())),
        };
    }
    Ok((frame.type_value, frame.payload))
}

/// How a unary reply's type is checked.
#[derive(Debug, Clone, Copy, PartialEq, Eq, Structural)]
pub enum ReplyCheck {
    /// The reply must have the response type; a mismatch is reported in hex.
    Exact,
    /// The reply must have the response type; a mismatch is reported in
    /// decimal.
    ExactDecimal,
    /// The reply must have the response type or be empty (an
    /// acknowledgement); a mismatch is reported in hex.
    Ack,
}

/// Whether a reply of this type passes the check.
pub open spec fn reply_type_ok(response: MessageType, check: ReplyCheck, ty: u32) -> bool {
    ty == message_type_value(response) || (check is Ack && ty == message_type_value(
        MessageType::Empty,
    ))
}

/// A unary request framed for the blocking transport, with what its reply
/// must be.
#[derive(Debug, Clone)]
pub struct UnaryExchange {
    /// The frame to send.
    pub frame: Vec<u8>,
    /// The reply's expected type.
    pub response: MessageType,
    /// How the reply's type is checked.
    pub check: ReplyCheck,
}

/// The outcome of a unary exchange, given the reply frame: the reply's
/// payload, or the error the reply carries or its type causes.
pub open spec fn unary_outcome(
    response: MessageType,
    check: ReplyCheck,
    raw: Seq<u8>,
    r: Result<Vec<u8>, CoreError>,
) -> bool {
    match decode_raw(raw) {
        None => r matches Err(e) && machine_error(e, malformed_reply_text()),
        Some((ty, _, payload, _)) => if ty == error_type_value() {
            match decode_error_payload(payload) {
                Ok((code, m)) => r matches Err(e) && agent_error(e, code, m),
                Err(_) => r matches Err(e) && machine_error(e, malformed_error_text()),
            }
        } else if reply_type_ok(response, check, ty) {
            r matches Ok(p) && p@ == payload
        } else {
            r matches Err(e) && machine_error(
                e,
                match check {
                    ReplyCheck::ExactDecimal => unexpected_type_decimal_text(ty),
                    _ => unexpected_type_text(ty),
                },
            )
        },
    }
}

impl UnaryExchange {
    /// Judges the reply frame: the payload to decode, or the error.
    pub fn finish(&self, raw: &[u8]) -> (r: Result<Vec<u8>, CoreError>)
        ensures
            unary_outcome(self.response, self.check, raw@, r),
    {
        let (resp_type, payload) = match parse_reply(raw) {
            Ok(p) => p,
            Err(e) => return Err(e),
        };
        if resp_type == self.response.wire_value() {
            return Ok(payload);
        }
        match self.check {
            ReplyCheck::Ack => {
                if resp_type == MessageType::Empty.wire_value() {
                    return Ok(payload);
                }
                Err(
                    CoreError::Machine(
                        text_with_number("unexpected response type: 0x", resp_type, 16, 4),
                    ),
                )
            },
            ReplyCheck::Exact => Err(
                CoreError::Machine(text_with_number("unexpected response type: 0x", resp_type, 16, 4)),
            ),
            ReplyCheck::ExactDecimal => Err(
                CoreError::Machine(text_with_number("unexpected response type: ", resp_type, 10, 0)),
            ),
        }
    }
}

/// The frame of a request with no trace id.
pub open spec fn request_frame(msg_type: MessageType, payload: Seq<u8>) -> Seq<u8> {
    frame_bytes(message_type_value(msg_type), Seq::<u8>::empty(), payload)
}

/// Payloads short enough to be framed.
pub open spec fn frameable(payload: Seq<u8>) -> bool {
    payload.len() + 6 <= usize::MAX
}

/// What a blocking unary call on this client does: on the blocking transport,
/// the exchange of a request frame of this type and payload with its reply
/// check; on the async transport, the refusal.
pub open spec fn blocking_call(
    client: AgentClientView,
    request: MessageType,
    payload: Seq<u8>,
    response: MessageType,
    check: ReplyCheck,
    r: Result<UnaryExchange, CoreError>,
) -> bool {
    if client.transport is Blocking {
        r matches Ok(x) && x.frame@ == request_frame(request, payload) && x.response == response
            && x.check == check
    } else {
        r matches Err(e) && machine_error(e, "rpc_call_blocking called on async transport"@)
    }
}

/// A ping reply.
#[derive(Debug, Clone)]
pub struct PingResponse {
    /// Reply text.
    pub message: String,
    /// Agent version string.
    pub version: String,
    /// Wire protocol version the agent speaks (0 for agents that predate
    /// the handshake).
    pub protocol_version: u32,
}

/// The refusal of an agent whose protocol is older than the minimum.
pub open spec fn incompatible_agent_text(protocol_version: u32, version: Seq<char>) -> Seq<char> {
    "guest agent is incompatible with this daemon: agent protocol "@ + padded_number(
        protocol_version as nat,
        10,
        0,
    ) + " (agent version "@ + version + "), daemon requires >= "@ + padded_number(
        MIN_AGENT_PROTOCOL_VERSION as nat,
        10,
        0,
    )
        + ". The staged agent binary is stale \u{2014} reinstall or update ArcBox so the bundled agent is staged again"@
}

/// The readiness milestones the agent reports.
#[derive(Debug, Clone, Copy, PartialEq, Eq, Structural)]
pub enum ReadinessKind {
    /// The agent is up and answering.
    AgentReady,
    /// The agent is bringing the container runtime up.
    RuntimeStarting,
    /// The container runtime is ready.
    RuntimeReady,
    /// The container runtime did not become ready.
    RuntimeFailed,
}

/// A readiness event. `kind` is `None` for a kind value this host does not
/// know.
#[derive(Debug, Clone)]
pub struct ReadinessEvent {
    /// Milestone reported.
    pub kind: Option<ReadinessKind>,
    /// Runtime endpoint, when known.
    pub endpoint: String,
    /// Human-readable detail.
    pub detail: String,
    /// The runtime's service statuses, each as its encoded message.
    pub services: Vec<Vec<u8>>,
}

/// Whether a readiness event ends a watch: the runtime became ready or
/// failed.
pub open spec fn is_terminal_kind(kind: Option<ReadinessKind>) -> bool {
    kind == Some(ReadinessKind::RuntimeReady) || kind == Some(ReadinessKind::RuntimeFailed)
}

/// Whether a readiness event ends a watch.
pub fn readiness_event_is_terminal(event: &ReadinessEvent) -> (b: bool)
    ensures
        b == is_terminal_kind(event.kind),
{
    match event.kind {
        Some(ReadinessKind::RuntimeReady) | Some(ReadinessKind::RuntimeFailed) => true,
        _ => false,
    }
}

/// The watch timeout in milliseconds, saturated to `u32::MAX`.
pub fn readiness_timeout_ms(timeout_millis: u128) -> (ms: u32)
    ensures
        ms == (if timeout_millis <= u32::MAX {
            timeout_millis as u32
        } else {
            u32::MAX
        }),
{
    if timeout_millis <= 0xffff_ffff {
        timeout_millis as u32
    } else {
        u32::MAX
    }
}

/// An open readiness watch on the blocking transport.
#[derive(Debug, Clone)]
pub struct ReadinessWatch {
    /// The request frame to send.
    pub frame: Vec<u8>,
    /// Whether the runtime is to be started: when it is not, the first event
    /// ends the watch.
    pub start_runtime_if_needed: bool,
}

/// Whether a watch ends with this event: a terminal event, or any event
/// when the runtime is not being started.
pub open spec fn watch_ends(start_runtime_if_needed: bool, kind: Option<ReadinessKind>) -> bool {
    is_terminal_kind(kind) || !start_runtime_if_needed
}

impl ReadinessWatch {
    /// Whether the watch ends with `event`.
    pub fn ends_with(&self, event: &ReadinessEvent) -> (b: bool)
        ensures
            b == watch_ends(self.start_runtime_if_needed, event.kind),
    {
        readiness_event_is_terminal(event) || !self.start_runtime_if_needed
    }
}

/// What reading a streamed event frame gives: the payload of a frame of the
/// expected type, the error an error frame carries, or the refusal of any
/// other type with `label` in its message.
pub open spec fn event_outcome(
    expected: MessageType,
    label: Seq<char>,
    raw: Seq<u8>,
    r: Result<Vec<u8>, CoreError>,
) -> bool {
    match decode_raw(raw) {
        None => r matches Err(e) && machine_error(e, malformed_reply_text()),
        Some((ty, _, payload, _)) => if ty == error_type_value() {
            match decode_error_payload(payload) {
                Ok((code, m)) => r matches Err(e) && agent_error(e, code, m),
                Err(_) => r matches Err(e) && machine_error(e, malformed_error_text()),
            }
        } else if ty == message_type_value(expected) {
            r matches Ok(p) && p@ == payload
        } else {
            r matches Err(e) && machine_error(
                e,
                hex_type_text("unexpected "@ + label + " response type: 0x"@, ty),
            )
        },
    }
}

fn decode_event(raw: &[u8], expected: MessageType, label: &str) -> (r: Result<Vec<u8>, CoreError>)
    ensures
        event_outcome(expected, label@, raw@, r),
{
    let (resp_type, payload) = match parse_reply(raw) {
        Ok(p) => p,
        Err(e) => return Err(e),
    };
    if resp_type != expected.wire_value() {
        let prefix = concat3("unexpected ", label, " response type: 0x");
        return Err(CoreError::Machine(text_with_number(prefix.as_str(), resp_type, 16, 4)));
    }
    Ok(payload)
}

/// What a stream relay does with one frame of a streamed reply.
#[derive(Debug, Clone)]
pub enum RelayStep {
    /// Hand this payload to the consumer (after decoding it).
    Deliver(Vec<u8>),
    /// Hand this error to the consumer and end the stream.
    Fail(CoreError),
}

/// The code and message reported for an error frame whose payload cannot be
/// read, on a stream.
pub open spec fn stream_error_fallback(payload: Seq<u8>) -> (i32, Seq<char>) {
    match decode_error_payload(payload) {
        Ok((code, m)) => (code, m),
        Err(_) => (500, "unknown error"@),
    }
}

/// The relay's step for one frame: the payload of a frame of the expected
/// type; otherwise the error that ends the stream (an unreadable frame, the
/// error an error frame carries, with a fallback code and message when its
/// payload cannot be read, or an unexpected type).
pub open spec fn relay_outcome(expected: MessageType, raw: Seq<u8>, r: RelayStep) -> bool {
    match decode_raw(raw) {
        None => r matches RelayStep::Fail(e) && machine_error(e, malformed_reply_text()),
        Some((ty, _, payload, _)) => if ty == error_type_value() {
            r matches RelayStep::Fail(e) && agent_error(
                e,
                stream_error_fallback(payload).0,
                stream_error_fallback(payload).1,
            )
        } else if ty == message_type_value(expected) {
            r matches RelayStep::Deliver(p) && p@ == payload
        } else {
            r matches RelayStep::Fail(e) && machine_error(e, unexpected_type_text(ty))
        },
    }
}

/// The relay's step for one frame of a stream whose frames have type
/// `expected` (file data, exec or run output, sandbox events).
pub fn relay_frame(raw: &[u8], expected: MessageType) -> (r: RelayStep)
    ensures
        relay_outcome(expected, raw@, r),
{
    let frame = match decode_raw_frame(raw) {
        Some(f) => f,
        None => {
            return RelayStep::Fail(CoreError::Machine("malformed agent response frame".to_owned()));
        },
    };
    if frame.type_value == MessageType::Error.wire_value() {
        let (code, message) = match ErrorResponse::decode(frame.payload.as_slice()) {
            Ok(e) => (e.code, e.message),
            Err(_) => (500i32, "unknown error".to_owned()),
        };
        return RelayStep::Fail(CoreError::Agent { code, message });
    }
    if frame.type_value != expected.wire_value() {
        return RelayStep::Fail(
            CoreError::Machine(
                text_with_number("unexpected response type: 0x", frame.type_value, 16, 4),
            ),
        );
    }
    RelayStep::Deliver(frame.payload)
}

/// What the input pump of an exec session sends next.
#[derive(Debug, Clone)]
pub enum InputAction {
    /// Send this frame; `last` tells whether the pump stops afterwards.
    Send { frame: Vec<u8>, last: bool },
    /// Send a resize frame for this terminal size.
    Resize { width: u32, height: u32 },
}

/// The input pump's action for the next input (`None` once the input
/// channel closed): stdin bytes become an input frame, the empty one being
/// EOF and the last; a closed channel sends a best-effort EOF and stops; a
/// resize becomes a resize request.
pub open spec fn input_outcome(input_type: MessageType, input: Option<ExecSessionInput>, r: InputAction) -> bool {
    match input {
        Some(ExecSessionInput::Stdin(data)) => r matches InputAction::Send { frame, last }
            && frame@ == request_frame(input_type, data@) && last == (data@.len() == 0),
        Some(ExecSessionInput::Resize { width, height }) => r matches InputAction::Resize {
            width: w,
            height: h,
        } && w == width && h == height,
        None => r matches InputAction::Send { frame, last } && frame@ == request_frame(
            input_type,
            Seq::empty(),
        ) && last,
    }
}

/// The input pump's action for the next input of an exec session whose
/// input frames have type `input_type`.
pub fn exec_input_step(input: Option<ExecSessionInput>, input_type: MessageType) -> (r: InputAction)
    requires
        input matches Some(ExecSessionInput::Stdin(data)) ==> frameable(data@),
    ensures
        input_outcome(input_type, input, r),
{
    proof {
        reveal_strlit("");
    }
    match input {
        Some(ExecSessionInput::Stdin(data)) => {
            let last = data.len() == 0;
            InputAction::Send { frame: build_message(input_type, "", data.as_slice()), last }
        },
        Some(ExecSessionInput::Resize { width, height }) => InputAction::Resize {
            width: width as u32,
            height: height as u32,
        },
        None => {
            let empty: [u8; 0] = [];
            proof {
                assert(empty@ =~= Seq::<u8>::empty());
            }
            InputAction::Send { frame: build_message(input_type, "", &empty), last: true }
        },
    }
}

/// What the writer of a sandbox file upload does with the next item of its
/// data channel (`None` once the channel closed).
#[derive(Debug, Clone)]
pub enum WriteAction {
    /// Send a file chunk with this data and `done` flag; after the `done`
    /// chunk the writer reads the reply and stops.
    SendChunk { data: Vec<u8>, done: bool },
    /// Stop with this error, sending no `done` chunk, so that the guest
    /// discards the partial file.
    Abort(CoreError),
}

/// The refusal of an upload whose client stream ended before completion.
pub open spec fn aborted_write_text() -> Seq<char> {
    "write_file aborted: client stream ended before completion"@
}

/// The writer's action for one item: data goes out as a chunk that is not
/// the last; an abort stops with the refusal; a closed channel sends the
/// one empty `done` chunk.
pub open spec fn write_outcome(input: Option<WriteFileChunk>, r: WriteAction) -> bool {
    match input {
        Some(WriteFileChunk::Data(d)) => r matches WriteAction::SendChunk { data, done } && data@
            == d@ && !done,
        Some(WriteFileChunk::Abort) => r matches WriteAction::Abort(e) && machine_error(
            e,
            aborted_write_text(),
        ),
        None => r matches WriteAction::SendChunk { data, done } && data@.len() == 0 && done,
    }
}

/// Whether the writer stops after this action.
pub open spec fn write_stops(r: WriteAction) -> bool {
    r matches WriteAction::SendChunk { done, .. } ==> done
}

/// The next step of a sandbox file upload.
pub fn write_file_step(input: Option<WriteFileChunk>) -> (r: WriteAction)
    ensures
        write_outcome(input, r),
{
    match input {
        Some(WriteFileChunk::Data(d)) => WriteAction::SendChunk { data: d, done: false },
        Some(WriteFileChunk::Abort) => WriteAction::Abort(
            CoreError::Machine("write_file aborted: client stream ended before completion".to_owned()),
        ),
        None => WriteAction::SendChunk { data: Vec::new(), done: true },
    }
}

/// The chunks (data and `done` flag) an upload sends when its data channel
/// yields `inputs` in turn, and whether it was aborted. The writer stops at
/// the first abort or at the close of the channel.
pub open spec fn write_run(inputs: Seq<Option<WriteFileChunk>>) -> (Seq<(Seq<u8>, bool)>, bool)
    decreases inputs.len(),
{
    if inputs.len() == 0 {
        (Seq::empty(), false)
    } else {
        match inputs[0] {
            Some(WriteFileChunk::Data(d)) => {
                let rest = write_run(inputs.drop_first());
                (seq![(d@, false)] + rest.0, rest.1)
            },
            Some(WriteFileChunk::Abort) => (Seq::empty(), true),
            None => (seq![(Seq::<u8>::empty(), true)], false),
        }
    }
}

/// An upload of data items `d1 .. dn` sends one chunk per item, in order and
/// none of them `done`; then, when the channel closes, exactly one empty
/// `done` chunk; when it is aborted instead, no `done` chunk at all.
pub proof fn lemma_write_file_frames(data: Seq<Vec<u8>>, aborted: bool)
    ensures
        ({
            let inputs = data.map_values(|d: Vec<u8>| Some(WriteFileChunk::Data(d))) + seq![
                if aborted {
                    Some(WriteFileChunk::Abort)
                } else {
                    None
                },
            ];
            let sent = data.map_values(|d: Vec<u8>| (d@, false));
            &&& write_run(inputs).1 == aborted
            &&& aborted ==> write_run(inputs).0 == sent
            &&& !aborted ==> write_run(inputs).0 == sent + seq![(Seq::<u8>::empty(), true)]
        }),
    decreases data.len(),
{
    let last = if aborted {
        Some(WriteFileChunk::Abort)
    } else {
        None
    };
    let inputs = data.map_values(|d: Vec<u8>| Some(WriteFileChunk::Data(d))) + seq![last];
    if data.len() == 0 {
        assert(inputs =~= seq![last]);
        assert(inputs.drop_first().len() == 0);
        assert(data.map_values(|d: Vec<u8>| (d@, false)) =~= Seq::<(Seq<u8>, bool)>::empty());
    } else {
        let tail = data.drop_first();
        lemma_write_file_frames(tail, aborted);
        let tail_inputs = tail.map_values(|d: Vec<u8>| Some(WriteFileChunk::Data(d))) + seq![last];
        assert(inputs.drop_first() =~= tail_inputs);
        assert(inputs[0] == Some(WriteFileChunk::Data(data[0])));
        assert(data.map_values(|d: Vec<u8>| (d@, false)) =~= seq![(data[0]@, false)]
            + tail.map_values(|d: Vec<u8>| (d@, false)));
    }
}

/// The exchange that judges the reply to a finished upload: success on a
/// write-file response, the agent's error on an error response.
pub fn finish_write_file(raw: &[u8]) -> (r: Result<(), CoreError>)
    ensures
        exists|x: Result<Vec<u8>, CoreError>|
            #![trigger unary_outcome(MessageType::SandboxFileWriteResponse, ReplyCheck::Exact, raw@, x)]
            unary_outcome(MessageType::SandboxFileWriteResponse, ReplyCheck::Exact, raw@, x) && match x {
                Ok(_) => r is Ok,
                Err(e) => r == Err::<(), CoreError>(e),
            },
{
    let exchange = UnaryExchange {
        frame: Vec::new(),
        response: MessageType::SandboxFileWriteResponse,
        check: ReplyCheck::Exact,
    };
    let x = exchange.finish(raw);
    match x {
        Ok(_) => Ok(()),
        Err(e) => Err(e),
    }
}

/// Whether a stream relay goes on reading after handing out one frame: only
/// after a delivered item that is not the last (`done` is what the decoded
/// item says of itself; it is not looked at for a failure).
pub open spec fn relay_continues(step: RelayStep, done: bool) -> bool {
    step is Deliver && !done
}

/// Whether the relay reads the next frame after delivering this step.
pub fn relay_goes_on(step: &RelayStep, done: bool) -> (b: bool)
    ensures
        b == relay_continues(*step, done),
{
    match step {
        RelayStep::Deliver(_) => !done,
        RelayStep::Fail(_) => false,
    }
}

/// What a relay hands to its consumer when the frames of a stream are
/// judged as `steps` (each with its item's `done` flag): every step up to
/// and including the first failure or the first `done` item.
pub open spec fn relay_run(steps: Seq<(RelayStep, bool)>) -> Seq<(RelayStep, bool)>
    decreases steps.len(),
{
    if steps.len() == 0 {
        Seq::empty()
    } else if relay_continues(steps[0].0, steps[0].1) {
        seq![steps[0]] + relay_run(steps.drop_first())
    } else {
        seq![steps[0]]
    }
}

/// A relayed stream is the frames in order up to the first one that ends
/// it: every item handed out before the last is a delivery that is not
/// `done`, and when the stream stops early, its last item is a failure or
/// a `done` delivery.
pub proof fn lemma_relay_stops_at_first_end(steps: Seq<(RelayStep, bool)>)
    ensures
        relay_run(steps).len() <= steps.len(),
        relay_run(steps) =~= steps.take(relay_run(steps).len() as int),
        forall|i: int|
            0 <= i < relay_run(steps).len() - 1 ==> relay_continues(
                #[trigger] relay_run(steps)[i].0,
                relay_run(steps)[i].1,
            ),
        relay_run(steps).len() < steps.len() ==> relay_run(steps).len() > 0 && !relay_continues(
            relay_run(steps).last().0,
            relay_run(steps).last().1,
        ),
        relay_run(steps).len() == steps.len() ==> forall|i: int|
            0 <= i < steps.len() - 1 ==> relay_continues(#[trigger] steps[i].0, steps[i].1),
    decreases steps.len(),
{
    if steps.len() > 0 && relay_continues(steps[0].0, steps[0].1) {
        let tail = steps.drop_first();
        lemma_relay_stops_at_first_end(tail);
        let run = relay_run(steps);
        let tr = relay_run(tail);
        assert(run =~= seq![steps[0]] + tr);
        assert forall|i: int| 0 <= i < run.len() - 1 implies relay_continues(
            #[trigger] run[i].0,
            run[i].1,
        ) by {
            if i > 0 {
                assert(run[i] == tr[i - 1]);
            }
        }
        if run.len() == steps.len() {
            assert forall|i: int| 0 <= i < steps.len() - 1 implies relay_continues(
                #[trigger] steps[i].0,
                steps[i].1,
            ) by {
                if i > 0 {
                    assert(steps[i] == tail[i - 1]);
                    assert(tr[i - 1] == tail[i - 1]);
                }
            }
        }
        if run.len() < steps.len() {
            assert(run.last() == tr.last());
        }
    }
}

/// The frames the input pump of an exec session sends when its input
/// channel yields `inputs` in turn (`None` once closed): it stops after the
/// first frame that is the last (EOF, or the EOF sent on close).
pub open spec fn input_run(input_type: MessageType, inputs: Seq<Option<ExecSessionInput>>) -> Seq<
    Option<Seq<u8>>,
>
    decreases inputs.len(),
{
    if inputs.len() == 0 {
        Seq::empty()
    } else {
        match inputs[0] {
            Some(ExecSessionInput::Stdin(data)) => if data@.len() == 0 {
                seq![Some(request_frame(input_type, Seq::empty()))]
            } else {
                seq![Some(request_frame(input_type, data@))] + input_run(
                    input_type,
                    inputs.drop_first(),
                )
            },
            Some(ExecSessionInput::Resize { .. }) => seq![None] + input_run(
                input_type,
                inputs.drop_first(),
            ),
            None => seq![Some(request_frame(input_type, Seq::empty()))],
        }
    }
}

/// The input pump sends the inputs in order (a resize as its own frame,
/// `None` here) and the EOF frame, once sent, is the last frame it sends.
pub proof fn lemma_eof_is_last_input(input_type: MessageType, inputs: Seq<Option<ExecSessionInput>>)
    ensures
        input_run(input_type, inputs).len() <= inputs.len(),
        forall|i: int|
            0 <= i < input_run(input_type, inputs).len() - 1 ==> #[trigger] input_run(
                input_type,
                inputs,
            )[i] != Some(request_frame(input_type, Seq::empty())),
    decreases inputs.len(),
{
    if inputs.len() > 0 {
        let tail = inputs.drop_first();
        lemma_eof_is_last_input(input_type, tail);
        let run = input_run(input_type, inputs);
        let tr = input_run(input_type, tail);
        match inputs[0] {
            Some(ExecSessionInput::Stdin(data)) => if data@.len() > 0 {
                assert(run =~= seq![Some(request_frame(input_type, data@))] + tr);
                assert forall|i: int| 0 <= i < run.len() - 1 implies #[trigger] run[i] != Some(
                    request_frame(input_type, Seq::empty()),
                ) by {
                    if i == 0 {
                        lemma_request_frames_differ(input_type, data@);
                    } else {
                        assert(run[i] == tr[i - 1]);
                    }
                }
            },
            Some(ExecSessionInput::Resize { .. }) => {
                assert(run =~= seq![None] + tr);
                assert forall|i: int| 0 <= i < run.len() - 1 implies #[trigger] run[i] != Some(
                    request_frame(input_type, Seq::empty()),
                ) by {
                    if i > 0 {
                        assert(run[i] == tr[i - 1]);
                    }
                }
            },
            None => {},
        }
    }
}

proof fn lemma_request_frames_differ(input_type: MessageType, data: Seq<u8>)
    requires
        data.len() > 0,
    ensures
        request_frame(input_type, data) != request_frame(input_type, Seq::empty()),
{
    if request_frame(input_type, data) == request_frame(input_type, Seq::empty()) {
        assert(request_frame(input_type, data).len() == request_frame(input_type, Seq::empty()).len());
    }
}

impl AgentClient {
    /// Checks that a reply has the expected type.
    pub fn expect_response_type(resp_type: u32, expected: MessageType) -> (r: Result<(), CoreError>)
        ensures
            r is Ok <==> resp_type == message_type_value(expected),
            r matches Err(e) ==> machine_error(e, unexpected_type_text(resp_type)),
    {
        if resp_type == expected.wire_value() {
            Ok(())
        } else {
            Err(CoreError::Machine(text_with_number("unexpected response type: 0x", resp_type, 16, 4)))
        }
    }

    /// Checks that an acknowledgement has the expected type or is empty.
    pub fn expect_ack_response_type(resp_type: u32, expected: MessageType) -> (r: Result<(), CoreError>)
        ensures
            r is Ok <==> (resp_type == message_type_value(expected) || resp_type == message_type_value(
                MessageType::Empty,
            )),
            r matches Err(e) ==> machine_error(e, unexpected_type_text(resp_type)),
    {
        if resp_type == expected.wire_value() || resp_type == MessageType::Empty.wire_value() {
            Ok(())
        } else {
            Err(CoreError::Machine(text_with_number("unexpected response type: 0x", resp_type, 16, 4)))
        }
    }

    /// Reads a frame of a stats watch: the payload of a `MachineStats` frame.
    pub fn decode_machine_stats(raw: &[u8]) -> (r: Result<Vec<u8>, CoreError>)
        ensures
            event_outcome(MessageType::MachineStats, "stats"@, raw@, r),
    {
        decode_event(raw, MessageType::MachineStats, "stats")
    }

    /// Reads a frame of a memory pressure watch: the payload of a
    /// `MemoryPressureEvent` frame.
    pub fn decode_memory_pressure_event(raw: &[u8]) -> (r: Result<Vec<u8>, CoreError>)
        ensures
            event_outcome(MessageType::MemoryPressureEvent, "memory pressure"@, raw@, r),
    {
        decode_event(raw, MessageType::MemoryPressureEvent, "memory pressure")
    }

    /// Reads a frame of a readiness watch: the payload of a `ReadinessEvent`
    /// frame.
    pub fn decode_readiness_event(raw: &[u8]) -> (r: Result<Vec<u8>, CoreError>)
        ensures
            event_outcome(MessageType::ReadinessEvent, "readiness"@, raw@, r),
    {
        decode_event(raw, MessageType::ReadinessEvent, "readiness")
    }

    /// Creates a client for the VM with this CID on the async transport, not
    /// yet connected.
    pub fn new(cid: u32) -> (c: Self)
        ensures
            c@.cid == cid,
            c@.transport == AgentTransport::Async,
            !c@.connected,
    {
        Self { cid, transport: AgentTransport::Async, connected: false }
    }

    /// Creates a client over an already connected blocking transport (an fd
    /// the VM backend handed over).
    pub fn from_fd_blocking(cid: u32) -> (c: Self)
        ensures
            c@.cid == cid,
            c@.transport == AgentTransport::Blocking,
            c@.connected,
    {
        Self { cid, transport: AgentTransport::Blocking, connected: true }
    }

    /// Creates a client over an already connected async transport.
    pub fn from_fd_async(cid: u32) -> (c: Self)
        ensures
            c@.cid == cid,
            c@.transport == AgentTransport::Async,
            c@.connected,
    {
        Self { cid, transport: AgentTransport::Async, connected: true }
    }

    /// Returns the VM CID.
    pub fn cid(&self) -> (c: u32)
        ensures
            c == self@.cid,
    {
        self.cid
    }

    /// Returns true if this client uses the blocking transport.
    pub fn is_blocking(&self) -> (b: bool)
        ensures
            b == (self@.transport == AgentTransport::Blocking),
    {
        match self.transport {
            AgentTransport::Blocking => true,
            AgentTransport::Async => false,
        }
    }

    /// Whether the client is connected.
    pub fn is_connected(&self) -> (b: bool)
        ensures
            b == self@.connected,
    {
        self.connected
    }

    /// Whether a call must first dial the async transport: only an async
    /// client not yet connected (a blocking one is connected from creation).
    pub fn needs_dial(&self) -> (b: bool)
        ensures
            b == (!self@.connected && self@.transport == AgentTransport::Async),
    {
        !self.connected && !self.is_blocking()
    }

    /// Records a successful connect.
    pub fn mark_connected(&mut self)
        ensures
            final(self)@.connected,
            final(self)@.cid == old(self)@.cid,
            final(self)@.transport == old(self)@.transport,
    {
        self.connected = true;
    }

    /// Records a disconnect; returns whether the async transport must be
    /// closed (it was connected).
    pub fn disconnect(&mut self) -> (close_async: bool)
        ensures
            !final(self)@.connected,
            final(self)@.cid == old(self)@.cid,
            final(self)@.transport == old(self)@.transport,
            close_async == (old(self)@.connected && old(self)@.transport == AgentTransport::Async),
    {
        let close_async = self.connected && !self.is_blocking();
        self.connected = false;
        close_async
    }

    /// Frames a request for the blocking transport.
    pub fn rpc_call_blocking(&self, msg_type: MessageType, payload: &[u8]) -> (r: Result<
        Vec<u8>,
        CoreError,
    >)
        requires
            frameable(payload@),
        ensures
            self@.transport is Blocking ==> (r matches Ok(f) && f@ == request_frame(
                msg_type,
                payload@,
            )),
            self@.transport is Async ==> (r matches Err(e) && machine_error(
                e,
                "rpc_call_blocking called on async transport"@,
            )),
    {
        match self.transport {
            AgentTransport::Blocking => {
                proof {
                    reveal_strlit("");
                }
                Ok(build_message(msg_type, "", payload))
            },
            AgentTransport::Async => Err(
                CoreError::Machine("rpc_call_blocking called on async transport".to_owned()),
            ),
        }
    }

    fn unary_blocking(
        &self,
        request: MessageType,
        payload: &[u8],
        response: MessageType,
        check: ReplyCheck,
    ) -> (r: Result<UnaryExchange, CoreError>)
        requires
            frameable(payload@),
        ensures
            blocking_call(self@, request, payload@, response, check, r),
    {
        match self.rpc_call_blocking(request, payload) {
            Ok(frame) => Ok(UnaryExchange { frame, response, check }),
            Err(e) => Err(e),
        }
    }

    /// The exchange of a unary request (on either transport) carrying
    /// `trace_id` and `payload`, with its reply check.
    pub fn rpc_exchange(
        &self,
        request: MessageType,
        trace_id: &str,
        payload: &[u8],
        response: MessageType,
        check: ReplyCheck,
    ) -> (x: UnaryExchange)
        requires
            6 + trace_field_len(trace_id.spec_bytes()) + payload@.len() <= usize::MAX,
        ensures
            x.frame@ == frame_bytes(message_type_value(request), trace_id.spec_bytes(), payload@),
            x.response == response,
            x.check == check,
    {
        UnaryExchange { frame: build_message(request, trace_id, payload), response, check }
    }

    /// Test-only: the exchange that asks the agent to exit (so PID 1
    /// respawns it).
    pub fn kill_agent_blocking(&self) -> (r: Result<UnaryExchange, CoreError>)
        ensures
            blocking_call(
                self@,
                MessageType::KillAgentRequest,
                Seq::empty(),
                MessageType::KillAgentResponse,
                ReplyCheck::ExactDecimal,
                r,
            ),
    {
        let empty: [u8; 0] = [];
        proof {
            assert(empty@ =~= Seq::<u8>::empty());
        }
        self.unary_blocking(
            MessageType::KillAgentRequest,
            &empty,
            MessageType::KillAgentResponse,
            ReplyCheck::ExactDecimal,
        )
    }

    /// The exchange that asks for the guest's system information.
    pub fn get_system_info_blocking(&self) -> (r: Result<UnaryExchange, CoreError>)
        ensures
            blocking_call(
                self@,
                MessageType::GetSystemInfoRequest,
                Seq::empty(),
                MessageType::GetSystemInfoResponse,
                ReplyCheck::Exact,
                r,
            ),
    {
        let empty: [u8; 0] = [];
        proof {
            assert(empty@ =~= Seq::<u8>::empty());
        }
        self.unary_blocking(
            MessageType::GetSystemInfoRequest,
            &empty,
            MessageType::GetSystemInfoResponse,
            ReplyCheck::Exact,
        )
    }

    /// The exchange of a ping carrying this encoded `PingRequest`.
    pub fn ping_blocking(&self, request: &[u8]) -> (r: Result<UnaryExchange, CoreError>)
        requires
            frameable(request@),
        ensures
            blocking_call(
                self@,
                MessageType::PingRequest,
                request@,
                MessageType::PingResponse,
                ReplyCheck::Exact,
                r,
            ),
    {
        self.unary_blocking(
            MessageType::PingRequest,
            request,
            MessageType::PingResponse,
            ReplyCheck::Exact,
        )
    }

    /// Test-only: the exchange that has the guest `mmap` a file and return
    /// its bytes, carrying this encoded `MmapReadFileRequest`.
    pub fn mmap_read_file_blocking(&self, request: &[u8]) -> (r: Result<UnaryExchange, CoreError>)
        requires
            frameable(request@),
        ensures
            blocking_call(
                self@,
                MessageType::MmapReadFileRequest,
                request@,
                MessageType::MmapReadFileResponse,
                ReplyCheck::Exact,
                r,
            ),
    {
        self.unary_blocking(
            MessageType::MmapReadFileRequest,
            request,
            MessageType::MmapReadFileResponse,
            ReplyCheck::Exact,
        )
    }

    /// The exchange that ensures the guest runtime is ready, carrying this
    /// encoded `RuntimeEnsureRequest`.
    pub fn ensure_runtime_blocking(&self, request: &[u8]) -> (r: Result<UnaryExchange, CoreError>)
        requires
            frameable(request@),
        ensures
            blocking_call(
                self@,
                MessageType::EnsureRuntimeRequest,
                request@,
                MessageType::EnsureRuntimeResponse,
                ReplyCheck::ExactDecimal,
                r,
            ),
    {
        self.unary_blocking(
            MessageType::EnsureRuntimeRequest,
            request,
            MessageType::EnsureRuntimeResponse,
            ReplyCheck::ExactDecimal,
        )
    }

    /// The exchange that resolves a container's layer directories, carrying
    /// this encoded `ContainerFsPathsRequest`.
    pub fn container_fs_paths_blocking(&self, request: &[u8]) -> (r: Result<
        UnaryExchange,
        CoreError,
    >)
        requires
            frameable(request@),
        ensures
            blocking_call(
                self@,
                MessageType::ContainerFsPathsRequest,
                request@,
                MessageType::ContainerFsPathsResponse,
                ReplyCheck::Exact,
                r,
            ),
    {
        self.unary_blocking(
            MessageType::ContainerFsPathsRequest,
            request,
            MessageType::ContainerFsPathsResponse,
            ReplyCheck::Exact,
        )
    }

    /// The exchange that resolves an image's layer directories, carrying this
    /// encoded `ImageFsPathsRequest`.
    pub fn image_fs_paths_blocking(&self, request: &[u8]) -> (r: Result<UnaryExchange, CoreError>)
        requires
            frameable(request@),
        ensures
            blocking_call(
                self@,
                MessageType::ImageFsPathsRequest,
                request@,
                MessageType::ImageFsPathsResponse,
                ReplyCheck::Exact,
                r,
            ),
    {
        self.unary_blocking(
            MessageType::ImageFsPathsRequest,
            request,
            MessageType::ImageFsPathsResponse,
            ReplyCheck::Exact,
        )
    }

    /// Opens a readiness watch on the blocking transport: the request frame
    /// (carrying `trace_id` and this encoded `WatchReadinessRequest`), or the
    /// refusal on the async transport.
    pub fn watch_readiness_blocking(
        &self,
        start_runtime_if_needed: bool,
        trace_id: &str,
        request: &[u8],
    ) -> (r: Result<ReadinessWatch, CoreError>)
        requires
            6 + trace_field_len(trace_id.spec_bytes()) + request@.len() <= usize::MAX,
        ensures
            self@.transport is Blocking ==> (r matches Ok(w) && w.frame@ == frame_bytes(
                message_type_value(MessageType::WatchReadinessRequest),
                trace_id.spec_bytes(),
                request@,
            ) && w.start_runtime_if_needed == start_runtime_if_needed),
            self@.transport is Async ==> (r matches Err(e) && machine_error(
                e,
                "blocking readiness watch called on async transport"@,
            )),
    {
        match self.transport {
            AgentTransport::Blocking => Ok(
                ReadinessWatch {
                    frame: build_message(MessageType::WatchReadinessRequest, trace_id, request),
                    start_runtime_if_needed,
                },
            ),
            AgentTransport::Async => Err(
                CoreError::Machine("blocking readiness watch called on async transport".to_owned()),
            ),
        }
    }

    /// Verifies the agent's protocol version from a ping reply: agents older
    /// than the minimum (including those that predate the handshake and
    /// report 0) are refused; newer agents are accepted, since protocol
    /// evolution is additive.
    pub fn check_agent_protocol(resp: &PingResponse) -> (r: Result<(), CoreError>)
        ensures
            r is Ok <==> resp.protocol_version >= MIN_AGENT_PROTOCOL_VERSION,
            r matches Err(e) ==> machine_error(
                e,
                incompatible_agent_text(resp.protocol_version, resp.version@),
            ),
    {
        if resp.protocol_version < MIN_AGENT_PROTOCOL_VERSION {
            let mut out: Vec<char> = Vec::new();
            let head = text_with_number(
                "guest agent is incompatible with this daemon: agent protocol ",
                resp.protocol_version,
                10,
                0,
            );
            push_str(&mut out, head.as_str());
            push_str(&mut out, " (agent version ");
            push_str(&mut out, resp.version.as_str());
            let min = text_with_number("), daemon requires >= ", MIN_AGENT_PROTOCOL_VERSION, 10, 0);
            push_str(&mut out, min.as_str());
            push_str(
                &mut out,
                ". The staged agent binary is stale \u{2014} reinstall or update ArcBox so the bundled agent is staged again",
            );
            assert(out@ =~= incompatible_agent_text(resp.protocol_version, resp.version@));
            return Err(CoreError::Machine(string_of(out.as_slice())));
        }
        Ok(())
    }

    /// Whether the agent speaks a newer protocol than this host (accepted,
    /// but worth a warning).
    pub fn agent_protocol_is_newer(resp: &PingResponse) -> (b: bool)
        ensures
            b == (resp.protocol_version > AGENT_PROTOCOL_VERSION),
    {
        resp.protocol_version > AGENT_PROTOCOL_VERSION
    }
}

/// A reply the agent frames with the expected response type (and any trace
/// id) completes a unary exchange with exactly its payload.
pub proof fn lemma_unary_reply_roundtrip(
    response: MessageType,
    check: ReplyCheck,
    trace: Seq<u8>,
    payload: Seq<u8>,
    r: Result<Vec<u8>, CoreError>,
)
    requires
        6 + trace_field_len(trace) + payload.len() <= u32::MAX,
        response != MessageType::Error,
        unary_outcome(response, check, frame_bytes(message_type_value(response), trace, payload), r),
    ensures
        r matches Ok(p) && p@ == payload,
{
    let f = frame_bytes(message_type_value(response), trace, payload);
    lemma_frame_roundtrip_raw(message_type_value(response), trace, payload, Seq::empty());
    assert(f + Seq::<u8>::empty() =~= f);
    lemma_message_type_roundtrip(response);
    lemma_message_type_roundtrip(MessageType::Error);
}

/// An error response the agent frames (with any trace id) fails a unary
/// exchange with an `Agent` error carrying exactly its code and message.
pub proof fn lemma_error_reply_roundtrip(
    response: MessageType,
    check: ReplyCheck,
    trace: Seq<u8>,
    code: i32,
    message: Seq<char>,
    r: Result<Vec<u8>, CoreError>,
)
    requires
        6 + trace_field_len(trace) + error_payload(code, message).len() <= u32::MAX,
        unary_outcome(
            response,
            check,
            frame_bytes(error_type_value(), trace, error_payload(code, message)),
            r,
        ),
    ensures
        r matches Err(e) && agent_error(e, code, message),
{
    let p = error_payload(code, message);
    let f = frame_bytes(error_type_value(), trace, p);
    lemma_frame_roundtrip_raw(error_type_value(), trace, p, Seq::empty());
    assert(f + Seq::<u8>::empty() =~= f);
    assert(p.len() == 8 + encode_utf8(message).len());
    lemma_error_payload_roundtrip(code, message);
}

/// On a stream, a frame of the expected type is delivered with exactly its
/// payload, and an error response ends the stream with its code and message.
pub proof fn lemma_relay_roundtrip(
    expected: MessageType,
    trace: Seq<u8>,
    payload: Seq<u8>,
    code: i32,
    message: Seq<char>,
    data_step: RelayStep,
    error_step: RelayStep,
)
    requires
        6 + trace_field_len(trace) + payload.len() <= u32::MAX,
        6 + trace_field_len(trace) + error_payload(code, message).len() <= u32::MAX,
        expected != MessageType::Error,
        relay_outcome(expected, frame_bytes(message_type_value(expected), trace, payload), data_step),
        relay_outcome(
            expected,
            frame_bytes(error_type_value(), trace, error_payload(code, message)),
            error_step,
        ),
    ensures
        data_step matches RelayStep::Deliver(p) && p@ == payload,
        error_step matches RelayStep::Fail(e) && agent_error(e, code, message),
{
    let f = frame_bytes(message_type_value(expected), trace, payload);
    lemma_frame_roundtrip_raw(message_type_value(expected), trace, payload, Seq::empty());
    assert(f + Seq::<u8>::empty() =~= f);
    lemma_message_type_roundtrip(expected);
    lemma_message_type_roundtrip(MessageType::Error);
    let p = error_payload(code, message);
    let g = frame_bytes(error_type_value(), trace, p);
    lemma_frame_roundtrip_raw(error_type_value(), trace, p, Seq::empty());
    assert(g + Seq::<u8>::empty() =~= g);
    assert(p.len() == 8 + encode_utf8(message).len());
    lemma_error_payload_roundtrip(code, message);
}

/// An agent built from this tree speaks this host's protocol and passes the
/// handshake.
pub proof fn lemma_own_agent_is_accepted()
    ensures
        AGENT_PROTOCOL_VERSION >= MIN_AGENT_PROTOCOL_VERSION,
{
}

} // verus!
