use arcbox::agent::ReadinessKind;
use arcbox::serve::{
    agent_ready_event, check_chain_id, check_container_id, mmap_plan, parse_request,
    ping_reply_message, readiness_check, route_message, runtime_starting_event,
    should_set_clock, shutdown_grace_secs, watch_timeout_ms, MmapPlan, MmapWindow,
    RequestKind, ResponseKind, Route, RuntimeEnsureSummary, RuntimeStatusSummary, EINVAL,
};
use arcbox::serve::{
    answer_undecodable, serve_step, watch_step, ReadOutcome, ReadinessProbe, ServeAction,
    WatchStage,
};
use arcbox::wire::MessageType;

#[test]
fn requests_route_to_their_handlers() {
    assert!(matches!(route_message(MessageType::SandboxCreateRequest), Route::Sandbox));
    assert!(matches!(route_message(MessageType::MachineExecRequest), Route::MachineExec));
    assert!(matches!(
        route_message(MessageType::PingRequest),
        Route::Request(RequestKind::Ping)
    ));
    assert!(matches!(
        route_message(MessageType::WatchReadinessRequest),
        Route::Request(RequestKind::WatchReadiness)
    ));
    match route_message(MessageType::PingResponse) {
        Route::Reject(e) => {
            assert_eq!(e.code, 400);
            assert_eq!(e.message, "invalid request: unexpected message type: PingResponse");
        }
        other => panic!("unexpected {other:?}"),
    }
    assert_eq!(parse_request(MessageType::ShutdownRequest), Ok(RequestKind::Shutdown));
    assert_eq!(parse_request(MessageType::KillAgentRequest), Ok(RequestKind::KillAgent));
    assert_eq!(
        parse_request(MessageType::SandboxExecInput),
        Err("unexpected message type: SandboxExecInput".to_string())
    );
}

#[test]
fn responses_carry_their_message_types() {
    assert_eq!(ResponseKind::Ping.message_type(), MessageType::PingResponse);
    assert_eq!(ResponseKind::Empty.message_type(), MessageType::Empty);
    assert_eq!(ResponseKind::Error.message_type(), MessageType::Error);
    assert_eq!(
        ResponseKind::GuestUsbDevices.message_type(),
        MessageType::ListGuestUsbDevicesResponse
    );
    assert_eq!(ResponseKind::KillAgent.message_type(), MessageType::KillAgentResponse);
}

#[test]
fn ping_replies_echo_the_message() {
    assert_eq!(ping_reply_message(""), "pong");
    assert_eq!(ping_reply_message("ping"), "pong: ping");
    assert!(!should_set_clock(0));
    assert!(!should_set_clock(-5));
    assert!(should_set_clock(1_700_000_000));
    assert_eq!(shutdown_grace_secs(0, 25), 25);
    assert_eq!(shutdown_grace_secs(10, 25), 10);
}

#[test]
fn container_ids_are_bounded_alphanumerics() {
    assert!(check_container_id(&"a".repeat(64)).is_ok());
    assert!(check_container_id(&"Z9".repeat(64)).is_ok());
    let err = check_container_id("").unwrap_err();
    assert_eq!(err.code, EINVAL);
    assert_eq!(err.message, "invalid container id \"\"");
    let err = check_container_id("abc/../x").unwrap_err();
    assert_eq!(err.message, "invalid container id \"abc/../x\"");
    assert!(check_container_id(&"a".repeat(129)).is_err());
}

#[test]
fn chain_ids_are_sha256_digests() {
    let good = format!("sha256:{}", "0123456789abcdefABCDEF0123456789".repeat(2));
    assert!(check_chain_id(&good).is_ok());
    let err = check_chain_id("sha512:00").unwrap_err();
    assert_eq!(err.code, EINVAL);
    assert_eq!(err.message, "invalid top chain id \"sha512:00\"");
    assert!(check_chain_id(&format!("sha256:{}", "g".repeat(64))).is_err());
    assert!(check_chain_id(&format!("sha256:{}", "0".repeat(63))).is_err());
}

#[test]
fn mmap_reads_map_whole_pages() {
    assert!(matches!(mmap_plan(123, 0), Ok(MmapPlan::Empty)));
    let err = mmap_plan(0, 64 * 1024 * 1024 + 1).unwrap_err();
    assert_eq!(err.code, EINVAL);
    assert_eq!(err.message, "MmapReadFile length exceeds 64 MiB cap");
    assert!(matches!(
        mmap_plan(0, 64 * 1024 * 1024),
        Ok(MmapPlan::Window(MmapWindow { page_base: 0, inner_off: 0, mapped_len: 67108864 }))
    ));
    match mmap_plan(5000, 100).unwrap() {
        MmapPlan::Window(w) => {
            assert_eq!(w, MmapWindow { page_base: 4096, inner_off: 904, mapped_len: 4096 });
        }
        MmapPlan::Empty => panic!("empty plan"),
    }
    match mmap_plan(4095, 2).unwrap() {
        MmapPlan::Window(w) => {
            assert_eq!(w, MmapWindow { page_base: 0, inner_off: 4095, mapped_len: 8192 });
        }
        MmapPlan::Empty => panic!("empty plan"),
    }
    match mmap_plan(u64::MAX, 1).unwrap() {
        MmapPlan::Window(w) => {
            assert_eq!(w.page_base, u64::MAX - 4095);
            assert_eq!(w.inner_off, 4095);
            assert_eq!(w.mapped_len, 4096);
        }
        MmapPlan::Empty => panic!("empty plan"),
    }
}

fn ensure(ready: bool, endpoint: &str, message: &str) -> RuntimeEnsureSummary {
    RuntimeEnsureSummary {
        ready,
        endpoint: endpoint.to_string(),
        message: message.to_string(),
    }
}

fn status(docker_ready: bool, endpoint: &str, detail: &str) -> RuntimeStatusSummary {
    RuntimeStatusSummary {
        docker_ready,
        endpoint: endpoint.to_string(),
        detail: detail.to_string(),
        services: vec![vec![1, 2], vec![3]],
    }
}

#[test]
fn readiness_watch_events() {
    let first = agent_ready_event();
    assert_eq!(first.kind, Some(ReadinessKind::AgentReady));
    assert_eq!(first.detail, "agent ready");
    assert_eq!(runtime_starting_event().detail, "ensuring guest runtime");
    assert_eq!(watch_timeout_ms(0), 1);
    assert_eq!(watch_timeout_ms(30_000), 30_000);

    // Ready from either call; the ensure call's fields win when present.
    let ev = readiness_check(&ensure(true, "", ""), status(false, "unix:///s", "up"), false)
        .unwrap();
    assert_eq!(ev.kind, Some(ReadinessKind::RuntimeReady));
    assert_eq!(ev.endpoint, "unix:///s");
    assert_eq!(ev.detail, "up");
    let ev = readiness_check(&ensure(false, "e", "m"), status(true, "s", "d"), true).unwrap();
    assert_eq!(ev.kind, Some(ReadinessKind::RuntimeReady));
    assert_eq!(ev.endpoint, "e");
    assert_eq!(ev.detail, "m");
    assert_eq!(ev.services, vec![vec![1, 2], vec![3]]);

    // Not ready: keep checking until the deadline, then fail.
    assert!(readiness_check(&ensure(false, "e", "m"), status(false, "s", "d"), false).is_none());
    let ev = readiness_check(&ensure(false, "e", ""), status(false, "s", "d"), true).unwrap();
    assert_eq!(ev.kind, Some(ReadinessKind::RuntimeFailed));
    assert_eq!(ev.endpoint, "s");
    assert_eq!(ev.detail, "d");
    assert_eq!(ev.services, vec![vec![1, 2], vec![3]]);
    assert!(agent_ready_event().services.is_empty());
}

#[test]
fn requests_are_answered_with_their_response_kinds() {
    assert_eq!(RequestKind::Ping.answer_kind(), Some(ResponseKind::Ping));
    assert_eq!(
        RequestKind::ListGuestUsbDevices.answer_kind(),
        Some(ResponseKind::GuestUsbDevices)
    );
    assert_eq!(RequestKind::KillAgent.answer_kind(), Some(ResponseKind::KillAgent));
    assert_eq!(RequestKind::WatchReadiness.answer_kind(), None);
    assert_eq!(
        RequestKind::EnsureRuntime.answer_kind().map(|k| k.message_type()),
        Some(MessageType::EnsureRuntimeResponse)
    );
}

#[test]
fn test_parse_request_ping() {
    assert_eq!(parse_request(MessageType::PingRequest), Ok(RequestKind::Ping));
}

#[test]
fn test_parse_request_shutdown() {
    assert_eq!(parse_request(MessageType::ShutdownRequest), Ok(RequestKind::Shutdown));
}

#[test]
fn connection_loop_steps() {
    assert!(matches!(serve_step(ReadOutcome::PeerClosed), ServeAction::Finish));
    assert!(matches!(serve_step(ReadOutcome::Failed), ServeAction::Fail));
    match serve_step(ReadOutcome::Message {
        msg_type: MessageType::PingRequest,
        trace_id: "t1".to_string(),
    }) {
        ServeAction::Dispatch { route: Route::Request(RequestKind::Ping), trace_id } => {
            assert_eq!(trace_id, "t1")
        }
        other => panic!("unexpected {other:?}"),
    }
    match serve_step(ReadOutcome::Message {
        msg_type: MessageType::PingResponse,
        trace_id: "t2".to_string(),
    }) {
        ServeAction::Answer { error, trace_id } => {
            assert_eq!(trace_id, "t2");
            assert_eq!(error.code, 400);
            assert_eq!(error.message, "invalid request: unexpected message type: PingResponse");
        }
        other => panic!("unexpected {other:?}"),
    }
}

#[test]
fn undecodable_payload_is_answered_and_serving_goes_on() {
    match answer_undecodable("t3".to_string(), "failed to decode Protobuf message") {
        ServeAction::Answer { error, trace_id } => {
            assert_eq!(trace_id, "t3");
            assert_eq!(error.code, 400);
            assert_eq!(error.message, "invalid request: failed to decode Protobuf message");
        }
        other => panic!("unexpected {other:?}"),
    }
}

fn probe(ready: bool, docker_ready: bool, deadline_passed: bool) -> ReadinessProbe {
    ReadinessProbe {
        ensure: RuntimeEnsureSummary {
            ready,
            endpoint: String::new(),
            message: String::new(),
        },
        status: RuntimeStatusSummary {
            docker_ready,
            endpoint: "unix:///run/docker.sock".to_string(),
            detail: "starting".to_string(),
            services: Vec::new(),
        },
        deadline_passed,
    }
}

#[test]
fn readiness_watch_runs_its_stages() {
    let s = watch_step(WatchStage::Opening, false, None);
    assert_eq!(s.frame.unwrap().kind, Some(ReadinessKind::AgentReady));
    assert_eq!(s.next, WatchStage::Finished);

    let s = watch_step(WatchStage::Opening, true, None);
    assert_eq!(s.next, WatchStage::Starting);
    let s = watch_step(s.next, true, None);
    assert_eq!(s.frame.unwrap().kind, Some(ReadinessKind::RuntimeStarting));
    assert_eq!(s.next, WatchStage::Polling);
    let s = watch_step(WatchStage::Polling, true, Some(probe(false, false, false)));
    assert!(s.frame.is_none());
    assert_eq!(s.next, WatchStage::Polling);
    let s = watch_step(WatchStage::Polling, true, Some(probe(false, true, false)));
    let e = s.frame.unwrap();
    assert_eq!(e.kind, Some(ReadinessKind::RuntimeReady));
    assert_eq!(e.endpoint, "unix:///run/docker.sock");
    assert_eq!(s.next, WatchStage::Finished);
    let s = watch_step(WatchStage::Polling, true, Some(probe(false, false, true)));
    assert_eq!(s.frame.unwrap().kind, Some(ReadinessKind::RuntimeFailed));
    assert_eq!(s.next, WatchStage::Finished);
    let s = watch_step(WatchStage::Finished, true, Some(probe(true, true, true)));
    assert!(s.frame.is_none());
}
