use arcbox::agent::{
    exec_input_step, parse_reply,
    readiness_event_is_terminal, readiness_timeout_ms, relay_frame, write_file_step, finish_write_file, relay_goes_on, AgentClient,
    ExecSessionInput, InputAction, PingResponse, ReadinessEvent, ReadinessKind, RelayStep,
    ReplyCheck, WriteAction, WriteFileChunk,
};
use arcbox::error::CoreError;
use arcbox::frame::build_message;
use arcbox::rpc::ErrorResponse;
use arcbox::wire::{MessageType, AGENT_PROTOCOL_VERSION};

fn ping_response(protocol_version: u32) -> PingResponse {
    PingResponse {
        message: "pong".to_string(),
        version: "0.4.16".to_string(),
        protocol_version,
    }
}

#[test]
fn test_agent_client_new() {
    let client = AgentClient::new(3);
    assert_eq!(client.cid(), 3);
    assert!(!client.is_connected());
}

#[test]
fn pre_handshake_agent_is_rejected() {
    // Agents older than the handshake never set the field: protocol 0 must
    // be rejected, not silently accepted.
    let err = AgentClient::check_agent_protocol(&ping_response(0))
        .expect_err("protocol 0 must be rejected");
    assert!(err.to_string().contains("incompatible"));
}

#[test]
fn current_protocol_is_accepted() {
    let resp = ping_response(AGENT_PROTOCOL_VERSION);
    AgentClient::check_agent_protocol(&resp).expect("current protocol must pass");
}

#[test]
fn newer_agent_protocol_is_accepted_with_warning() {
    // Additive evolution: a newer agent understands an older host.
    let resp = ping_response(AGENT_PROTOCOL_VERSION + 1);
    AgentClient::check_agent_protocol(&resp).expect("newer protocol must pass");
    assert!(AgentClient::agent_protocol_is_newer(&resp));
    assert!(!AgentClient::agent_protocol_is_newer(&ping_response(AGENT_PROTOCOL_VERSION)));
}

#[test]
fn incompatible_agent_message_is_exact() {
    let err = AgentClient::check_agent_protocol(&ping_response(0)).unwrap_err();
    assert_eq!(
        err.to_string(),
        "guest agent is incompatible with this daemon: agent protocol 0 (agent version 0.4.16), daemon requires >= 1. The staged agent binary is stale \u{2014} reinstall or update ArcBox so the bundled agent is staged again"
    );
}

#[test]
fn blocking_calls_are_refused_on_the_async_transport() {
    let client = AgentClient::new(5);
    assert!(!client.is_blocking());
    let err = client.get_system_info_blocking().unwrap_err();
    assert_eq!(err.to_string(), "rpc_call_blocking called on async transport");
    let err = client.watch_readiness_blocking(true, "", &[]).unwrap_err();
    assert_eq!(
        err.to_string(),
        "blocking readiness watch called on async transport"
    );
}

#[test]
fn blocking_exchange_frames_the_request_and_reads_the_reply() {
    let client = AgentClient::from_fd_blocking(7);
    assert!(client.is_blocking());
    assert!(client.is_connected());
    let x = client.container_fs_paths_blocking(&[1, 2, 3]).unwrap();
    assert_eq!(
        x.frame,
        build_message(MessageType::ContainerFsPathsRequest, "", &[1, 2, 3])
    );
    // Header: length 4 + 2 + 0 + 3 = 9, type 0x0011, trace length 0.
    assert_eq!(x.frame, vec![0, 0, 0, 9, 0, 0, 0, 0x11, 0, 0, 1, 2, 3]);

    let reply = build_message(MessageType::ContainerFsPathsResponse, "trace-1", &[9, 8]);
    assert_eq!(x.finish(&reply).unwrap(), vec![9, 8]);

    let wrong = build_message(MessageType::PingResponse, "", &[]);
    assert_eq!(
        x.finish(&wrong).unwrap_err().to_string(),
        "unexpected response type: 0x1001"
    );
}

#[test]
fn decimal_checks_report_the_type_in_decimal() {
    let client = AgentClient::from_fd_blocking(7);
    let x = client.kill_agent_blocking().unwrap();
    assert_eq!(x.check, ReplyCheck::ExactDecimal);
    let wrong = build_message(MessageType::PingResponse, "", &[]);
    assert_eq!(
        x.finish(&wrong).unwrap_err().to_string(),
        "unexpected response type: 4097"
    );
    let ok = build_message(MessageType::KillAgentResponse, "", &[]);
    assert_eq!(x.finish(&ok).unwrap(), Vec::<u8>::new());
}

#[test]
fn error_replies_become_agent_errors() {
    let payload = ErrorResponse::new(404, "no such sandbox").encode();
    let raw = build_message(MessageType::Error, "t", &payload);
    match parse_reply(&raw) {
        Err(CoreError::Agent { code, message }) => {
            assert_eq!(code, 404);
            assert_eq!(message, "no such sandbox");
        }
        other => panic!("unexpected {other:?}"),
    }
    let bad = build_message(MessageType::Error, "", &[0, 1]);
    assert_eq!(
        parse_reply(&bad).unwrap_err().to_string(),
        "malformed agent error response"
    );
    assert_eq!(
        parse_reply(&[0, 0, 0]).unwrap_err().to_string(),
        "malformed agent response frame"
    );
}

#[test]
fn ack_accepts_empty_replies() {
    assert!(AgentClient::expect_ack_response_type(0, MessageType::SandboxStopResponse).is_ok());
    assert!(AgentClient::expect_ack_response_type(0x1021, MessageType::SandboxStopResponse).is_ok());
    assert_eq!(
        AgentClient::expect_ack_response_type(0x1022, MessageType::SandboxStopResponse)
            .unwrap_err()
            .to_string(),
        "unexpected response type: 0x1022"
    );
    assert!(AgentClient::expect_response_type(0, MessageType::SandboxStopResponse).is_err());
    assert_eq!(
        AgentClient::expect_response_type(0xab, MessageType::PingResponse)
            .unwrap_err()
            .to_string(),
        "unexpected response type: 0x00ab"
    );
}

#[test]
fn event_decoders_check_their_frame_type() {
    let stats = build_message(MessageType::MachineStats, "", &[1]);
    assert_eq!(AgentClient::decode_machine_stats(&stats).unwrap(), vec![1]);
    assert_eq!(
        AgentClient::decode_memory_pressure_event(&stats).unwrap_err().to_string(),
        "unexpected memory pressure response type: 0x1010"
    );
    assert_eq!(
        AgentClient::decode_readiness_event(&stats).unwrap_err().to_string(),
        "unexpected readiness response type: 0x1010"
    );
    let event = build_message(MessageType::ReadinessEvent, "", &[]);
    assert_eq!(
        AgentClient::decode_machine_stats(&event).unwrap_err().to_string(),
        "unexpected stats response type: 0x100d"
    );
}

#[test]
fn relay_delivers_expected_frames_and_ends_on_errors() {
    let data = build_message(MessageType::SandboxFileData, "", &[5, 6]);
    match relay_frame(&data, MessageType::SandboxFileData) {
        RelayStep::Deliver(p) => assert_eq!(p, vec![5, 6]),
        RelayStep::Fail(e) => panic!("unexpected {e:?}"),
    }
    // An unreadable error payload falls back to 500 / "unknown error".
    let bad_error = build_message(MessageType::Error, "", &[1]);
    match relay_frame(&bad_error, MessageType::SandboxFileData) {
        RelayStep::Fail(CoreError::Agent { code, message }) => {
            assert_eq!(code, 500);
            assert_eq!(message, "unknown error");
        }
        other => panic!("unexpected {other:?}"),
    }
    let wrong = build_message(MessageType::SandboxRunOutput, "", &[]);
    match relay_frame(&wrong, MessageType::SandboxFileData) {
        RelayStep::Fail(e) => assert_eq!(e.to_string(), "unexpected response type: 0x1035"),
        RelayStep::Deliver(_) => panic!("delivered a wrong frame"),
    }
}

#[test]
fn exec_input_pump_actions() {
    match exec_input_step(
        Some(ExecSessionInput::Stdin(vec![b'l', b's'])),
        MessageType::SandboxExecInput,
    ) {
        InputAction::Send { frame, last } => {
            assert_eq!(frame, build_message(MessageType::SandboxExecInput, "", b"ls"));
            assert!(!last);
        }
        InputAction::Resize { .. } => panic!("not a resize"),
    }
    match exec_input_step(Some(ExecSessionInput::Stdin(Vec::new())), MessageType::MachineExecInput) {
        InputAction::Send { last, .. } => assert!(last),
        InputAction::Resize { .. } => panic!("not a resize"),
    }
    match exec_input_step(
        Some(ExecSessionInput::Resize {
            width: 80,
            height: 24,
        }),
        MessageType::SandboxExecInput,
    ) {
        InputAction::Resize { width, height } => {
            assert_eq!((width, height), (80, 24));
        }
        InputAction::Send { .. } => panic!("not a send"),
    }
    match exec_input_step(None, MessageType::MachineExecInput) {
        InputAction::Send { frame, last } => {
            assert_eq!(frame, build_message(MessageType::MachineExecInput, "", &[]));
            assert!(last);
        }
        InputAction::Resize { .. } => panic!("not a resize"),
    }
}

#[test]
fn aborted_uploads_are_refused() {
    match write_file_step(Some(WriteFileChunk::Data(vec![1]))) {
        WriteAction::SendChunk { data, done } => {
            assert_eq!(data, vec![1]);
            assert!(!done);
        }
        other => panic!("unexpected {other:?}"),
    }
    match write_file_step(Some(WriteFileChunk::Abort)) {
        WriteAction::Abort(e) => assert_eq!(
            e.to_string(),
            "write_file aborted: client stream ended before completion"
        ),
        other => panic!("unexpected {other:?}"),
    }
}

#[test]
fn closed_upload_sends_one_empty_done_chunk() {
    match write_file_step(None) {
        WriteAction::SendChunk { data, done } => {
            assert!(data.is_empty());
            assert!(done);
        }
        other => panic!("unexpected {other:?}"),
    }
}

#[test]
fn upload_reply_is_checked() {
    let ok = build_message(MessageType::SandboxFileWriteResponse, "t", &[]);
    assert!(finish_write_file(&ok).is_ok());
    let err = ErrorResponse::new(403, "denied").encode();
    let err = build_message(MessageType::Error, "", &err);
    match finish_write_file(&err) {
        Err(CoreError::Agent { code, message }) => {
            assert_eq!(code, 403);
            assert_eq!(message, "denied");
        }
        other => panic!("unexpected {other:?}"),
    }
    let wrong = build_message(MessageType::Empty, "", &[]);
    assert_eq!(
        finish_write_file(&wrong).unwrap_err().to_string(),
        "unexpected response type: 0x0000"
    );
}

#[test]
fn relay_stops_after_done_or_failure() {
    let deliver = RelayStep::Deliver(vec![1, 2]);
    assert!(relay_goes_on(&deliver, false));
    assert!(!relay_goes_on(&deliver, true));
    let fail = RelayStep::Fail(CoreError::Machine("x".to_string()));
    assert!(!relay_goes_on(&fail, false));
}

#[test]
fn readiness_terminal_kinds_and_timeouts() {
    let ev = |kind| ReadinessEvent {
        kind,
        endpoint: String::new(),
        detail: String::new(),
        services: Vec::new(),
    };
    assert!(readiness_event_is_terminal(&ev(Some(ReadinessKind::RuntimeReady))));
    assert!(readiness_event_is_terminal(&ev(Some(ReadinessKind::RuntimeFailed))));
    assert!(!readiness_event_is_terminal(&ev(Some(ReadinessKind::AgentReady))));
    assert!(!readiness_event_is_terminal(&ev(None)));
    assert_eq!(readiness_timeout_ms(1500), 1500);
    assert_eq!(readiness_timeout_ms(1u128 << 40), u32::MAX);

    let client = AgentClient::from_fd_blocking(9);
    let watch = client.watch_readiness_blocking(false, "abc", &[1]).unwrap();
    assert!(watch.ends_with(&ev(Some(ReadinessKind::AgentReady))));
    let watch = client.watch_readiness_blocking(true, "abc", &[1]).unwrap();
    assert!(!watch.ends_with(&ev(Some(ReadinessKind::RuntimeStarting))));
    assert!(watch.ends_with(&ev(Some(ReadinessKind::RuntimeFailed))));
    assert_eq!(
        watch.frame,
        build_message(MessageType::WatchReadinessRequest, "abc", &[1])
    );
}

#[test]
fn connection_bookkeeping() {
    let mut client = AgentClient::new(4);
    assert!(client.needs_dial());
    client.mark_connected();
    assert!(!client.needs_dial());
    assert!(client.disconnect());
    assert!(!client.is_connected());
    let mut blocking = AgentClient::from_fd_blocking(4);
    assert!(!blocking.needs_dial());
    assert!(!blocking.disconnect());
}
