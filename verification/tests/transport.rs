use xsctp::ClientError;
use xsctp::CloseGuard;
use xsctp::Endpoint;
use xsctp::RecvEvent;
use xsctp::ServePhase;
use xsctp::SetupAction;
use xsctp::SetupError;
use xsctp::SetupStage;
use xsctp::dispatch_step;
use xsctp::effective_data_buf_size;
use xsctp::receive_step;
use xsctp::recv_buf_size;
use xsctp::resolve_peer;
use xsctp::send_complete;
use xsctp::server_setup_plan;
use xsctp::setup_failure;

const MIB: usize = 1024 * 1024;

#[test]
fn data_buf_default_and_cap() {
    assert_eq!(effective_data_buf_size(None), 4096);
    assert_eq!(effective_data_buf_size(Some(1000)), 1000);
    assert_eq!(effective_data_buf_size(Some(8 * MIB)), 8 * MIB);
    // a 16 MiB request is silently capped at the 8 MiB ceiling
    assert_eq!(effective_data_buf_size(Some(16 * MIB)), 8 * MIB);
    assert_eq!(effective_data_buf_size(Some(usize::MAX)), 8 * MIB);
}

#[test]
fn recv_buf_multiplier_and_cap() {
    assert_eq!(recv_buf_size(4096), 256 * 4096);
    assert_eq!(recv_buf_size(1000), 256_000);
    // 256 x 8 MiB = 2 GiB is far above the 64 MiB ceiling
    assert_eq!(recv_buf_size(8 * MIB), 64 * MIB);
    assert_eq!(recv_buf_size(256 * 1024), 64 * MIB);
    assert_eq!(recv_buf_size(256 * 1024 + 1), 64 * MIB);
}

#[test]
fn plan_without_keep_alive() {
    let p = server_setup_plan("127.0.0.1:9999", None, false);
    assert_eq!(p.data_buf_size, 4096);
    assert_eq!(
        p.actions,
        vec![
            SetupAction::CreateSocket,
            SetupAction::SetReuseAddr,
            SetupAction::SetReusePort,
            SetupAction::SetRecvBufSize { bytes: 256 * 4096 },
            SetupAction::Bind { endpoint: Endpoint::new(127, 0, 0, 1, 9999) },
            SetupAction::Listen { backlog: 6 },
        ]
    );
}

#[test]
fn plan_with_keep_alive_disables_autoclose() {
    let p = server_setup_plan("192.168.1.2:9458", Some(1000), true);
    assert_eq!(p.data_buf_size, 1000);
    assert_eq!(
        p.actions,
        vec![
            SetupAction::CreateSocket,
            // the protocol's autoclose option, bit for bit
            SetupAction::SetRawOption { level: 132, name: 4, value: 0 },
            SetupAction::SetReuseAddr,
            SetupAction::SetReusePort,
            SetupAction::SetRecvBufSize { bytes: 256_000 },
            SetupAction::Bind { endpoint: Endpoint::new(192, 168, 1, 2, 9458) },
            SetupAction::Listen { backlog: 6 },
        ]
    );
}

#[test]
fn plan_caps_sixteen_mib_request() {
    let p = server_setup_plan("127.0.0.1:9999", Some(16 * MIB), false);
    assert_eq!(p.data_buf_size, 8 * MIB);
    assert_eq!(p.actions[3], SetupAction::SetRecvBufSize { bytes: 64 * MIB });
}

#[test]
fn plan_rejects_malformed_address() {
    let p = server_setup_plan("not-an-address", None, false);
    assert_eq!(
        p.actions,
        vec![
            SetupAction::CreateSocket,
            SetupAction::SetReuseAddr,
            SetupAction::SetReusePort,
            SetupAction::SetRecvBufSize { bytes: 256 * 4096 },
            SetupAction::RejectAddress,
        ]
    );
}

#[test]
fn setup_failure_names_stage_and_errno() {
    assert_eq!(
        setup_failure(&SetupAction::CreateSocket, 24),
        SetupError::Os { stage: SetupStage::Socket, errno: 24 }
    );
    assert_eq!(
        setup_failure(&SetupAction::SetRawOption { level: 132, name: 4, value: 0 }, 92),
        SetupError::Os { stage: SetupStage::Autoclose, errno: 92 }
    );
    assert_eq!(
        setup_failure(&SetupAction::SetReuseAddr, 22),
        SetupError::Os { stage: SetupStage::ReuseAddr, errno: 22 }
    );
    assert_eq!(
        setup_failure(&SetupAction::SetReusePort, 22),
        SetupError::Os { stage: SetupStage::ReusePort, errno: 22 }
    );
    assert_eq!(
        setup_failure(&SetupAction::SetRecvBufSize { bytes: 1 }, 22),
        SetupError::Os { stage: SetupStage::RecvBuf, errno: 22 }
    );
    // an address already in exclusive use fails at the bind stage
    assert_eq!(
        setup_failure(&SetupAction::Bind { endpoint: Endpoint::new(127, 0, 0, 1, 1) }, 98),
        SetupError::Os { stage: SetupStage::Bind, errno: 98 }
    );
    assert_eq!(
        setup_failure(&SetupAction::Listen { backlog: 6 }, 22),
        SetupError::Os { stage: SetupStage::Listen, errno: 22 }
    );
    assert_eq!(setup_failure(&SetupAction::RejectAddress, 0), SetupError::AddrParse);
}

#[test]
fn resolve_peer_accepts_well_formed_address() {
    assert_eq!(resolve_peer("127.0.0.1:9999"), Ok(Endpoint::new(127, 0, 0, 1, 9999)));
    assert_eq!(resolve_peer("0.0.0.0:0"), Ok(Endpoint::new(0, 0, 0, 0, 0)));
    assert_eq!(
        resolve_peer("255.255.255.255:65535"),
        Ok(Endpoint::new(255, 255, 255, 255, 65535))
    );
}

#[test]
fn resolve_peer_rejects_malformed_address() {
    assert_eq!(resolve_peer("not-an-address"), Err(ClientError::AddrParse));
    assert_eq!(resolve_peer(""), Err(ClientError::AddrParse));
    assert_eq!(resolve_peer("127.0.0.1"), Err(ClientError::AddrParse));
    assert_eq!(resolve_peer("127.0.0.1:99999"), Err(ClientError::AddrParse));
    assert_eq!(resolve_peer("256.0.0.1:80"), Err(ClientError::AddrParse));
    assert_eq!(resolve_peer("[::1]:80"), Err(ClientError::AddrParse));
}

#[test]
fn endpoint_text_is_canonical() {
    assert_eq!(Endpoint::new(127, 0, 0, 1, 9999).to_text(), "127.0.0.1:9999");
    assert_eq!(Endpoint::new(0, 0, 0, 0, 0).to_text(), "0.0.0.0:0");
    assert_eq!(Endpoint::new(255, 255, 255, 255, 65535).to_text(), "255.255.255.255:65535");
    assert_eq!(Endpoint::new(192, 168, 1, 2, 9458).to_text(), "192.168.1.2:9458");
}

#[test]
fn endpoint_text_resolves_back() {
    let e = Endpoint::new(10, 20, 30, 40, 5060);
    assert_eq!(resolve_peer(&e.to_text()), Ok(e));
}

#[test]
fn receive_step_dispatches_messages_only() {
    let peer = Endpoint::new(127, 0, 0, 1, 9999);
    assert_eq!(
        receive_step(&RecvEvent::Message { len: 3, peer }, 8),
        ServePhase::Dispatch { len: 3, peer }
    );
    // a length beyond the buffer is clipped to it
    assert_eq!(
        receive_step(&RecvEvent::Message { len: 100, peer }, 8),
        ServePhase::Dispatch { len: 8, peer }
    );
    assert_eq!(receive_step(&RecvEvent::Failed { errno: 11 }, 8), ServePhase::AwaitMessage);
    assert_eq!(receive_step(&RecvEvent::NoSender { len: 3 }, 8), ServePhase::AwaitMessage);
}

#[test]
fn handler_failure_never_stops_the_loop() {
    let peer = Endpoint::new(127, 0, 0, 1, 9999);
    // message N: the handler fails; the loop decides to await the next one
    let first: Result<(), i32> = Err(13);
    assert_eq!(dispatch_step(&first), ServePhase::AwaitMessage);
    // message N + 1 is then received and handled as usual
    assert_eq!(
        receive_step(&RecvEvent::Message { len: 3, peer }, 8),
        ServePhase::Dispatch { len: 3, peer }
    );
    let second: Result<(), i32> = Ok(());
    assert_eq!(dispatch_step(&second), ServePhase::AwaitMessage);
}

#[test]
fn close_guard_orders_one_close() {
    let mut g = CloseGuard::new();
    assert!(g.release());
    assert!(!g.release());
    assert!(!g.release());
}

#[test]
fn send_count_must_match() {
    assert!(send_complete(3, 3));
    assert!(!send_complete(3, 2));
    assert!(!send_complete(0, 1));
}
