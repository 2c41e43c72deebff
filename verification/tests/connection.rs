use alvr_client_stream::common::{
    AlvrCodec, ConnectionError, ConnectionEvent, ConnectionSettings, FfrParam, IpAddress,
};
use alvr_client_stream::connection::{
    connect, disconnect, to_connection_settings, AudioConfig, ClientConfigPacket, ConnectOutcome,
    ConnectionState, FoveationVars, Orchestrator, Pipeline, PipelineAction, PipelineEvent,
    ServerControl, SessionSettings, StreamProtocol, CHANNEL_BUFFER_SIZE,
    CLIENT_HANDSHAKE_RESEND_INTERVAL_MS, CONTROL_CONNECT_RETRY_PAUSE_MS,
    NETWORK_KEEPALIVE_INTERVAL_MS, PLAYSPACE_SYNC_INTERVAL_MS, RETRY_CONNECT_MIN_INTERVAL_MS,
    SET_UP_STREAM_TIMEOUT_MS,
};
use alvr_client_stream::handshake::HandshakeReply;
use alvr_client_stream::session::Pacer;

fn server() -> IpAddress {
    IpAddress::V4 { v4: [192, 168, 1, 42] }
}

fn config() -> ClientConfigPacket {
    ClientConfigPacket {
        fps: 60.0f32.to_bits(),
        eye_resolution_width: 1832,
        eye_resolution_height: 1920,
        game_audio_sample_rate: 48000,
        dashboard_url: "http://192.168.1.42:8082/".into(),
        session_desc: "{}".into(),
    }
}

fn settings() -> SessionSettings {
    SessionSettings {
        stream_port: 9944,
        stream_protocol: StreamProtocol::Udp,
        enable_fec: true,
        codec: AlvrCodec::H264,
        client_request_realtime_decoder: true,
        foveated_rendering: None,
        clientside_prediction: false,
        game_audio: Some(AudioConfig { batch_ms: 10, average_buffering_ms: 50 }),
        microphone_sample_rate: None,
        client_dark_mode: false,
    }
}

/// Runs the events through the machine and gathers what observers are told
/// and what is to be done.
fn run(p: &mut Pipeline, events: Vec<PipelineEvent>) -> (Vec<ConnectionEvent>, Vec<PipelineAction>) {
    let mut told = Vec::new();
    let mut actions = Vec::new();
    for e in events {
        let out = p.step(e);
        told.extend(out.events);
        actions.push(out.action);
    }
    (told, actions)
}

fn up_to_stream_ready() -> Vec<PipelineEvent> {
    vec![
        PipelineEvent::AttemptStarted,
        PipelineEvent::ControlConnected { server_ip: server() },
        PipelineEvent::ConfigReceived { config: config() },
        PipelineEvent::ControlPacket { packet: ServerControl::StartStream },
        PipelineEvent::SettingsParsed { settings: Ok(settings()) },
        PipelineEvent::StreamReadySent,
    ]
}

#[test]
fn clean_connect() {
    let (mut p, first) = Pipeline::new();
    assert_eq!(p.state, ConnectionState::Initial);
    let mut events = up_to_stream_ready();
    events.push(PipelineEvent::StreamAccepted);
    let (mut told, actions) = run(&mut p, events);
    told.insert(0, first);
    assert_eq!(
        told,
        vec![
            ConnectionEvent::Initial,
            ConnectionEvent::ServerFound { ipaddr: server() },
            ConnectionEvent::StreamStart,
            ConnectionEvent::Connected {
                settings: ConnectionSettings {
                    fps: 60.0f32.to_bits(),
                    codec: AlvrCodec::H264,
                    realtime: true,
                    dark_mode: false,
                    dashboard_url: "http://192.168.1.42:8082/".into(),
                    ffr_param: None,
                },
            },
        ]
    );
    assert_eq!(
        actions,
        vec![
            PipelineAction::Discover,
            PipelineAction::ExchangeConfig,
            PipelineAction::AwaitFirstPacket,
            PipelineAction::ParseSettings,
            PipelineAction::ListenForStream { port: 9944, protocol: StreamProtocol::Udp },
            PipelineAction::AcceptStream { timeout_ms: 5000 },
            PipelineAction::RunSession,
        ]
    );
    assert_eq!(p.state, ConnectionState::Streaming);
    assert_eq!(p.server_ip, Some(server()));
    assert_eq!(p.settings, Some(settings()));
}

#[test]
fn states_follow_in_order() {
    let (mut p, _) = Pipeline::new();
    let mut seen = vec![p.state];
    let mut events = up_to_stream_ready();
    events.push(PipelineEvent::StreamAccepted);
    events.push(PipelineEvent::SessionEnded);
    events.push(PipelineEvent::RetryElapsed);
    for e in events {
        p.step(e);
        if *seen.last().unwrap() != p.state {
            seen.push(p.state);
        }
    }
    assert_eq!(
        seen,
        vec![
            ConnectionState::Initial,
            ConnectionState::Announcing,
            ConnectionState::ControlConnected,
            ConnectionState::SessionNegotiated,
            ConnectionState::StreamReady,
            ConnectionState::Streaming,
            ConnectionState::Disconnected,
            ConnectionState::Initial,
        ]
    );
    assert_eq!(p, Pipeline::new().0);
}

#[test]
fn broadcast_retry() {
    let (mut p, first) = Pipeline::new();
    assert_eq!(first, ConnectionEvent::Initial);
    let out = p.step(PipelineEvent::AttemptStarted);
    assert_eq!(out.action, PipelineAction::Discover);
    let mut announce = Pacer::new(0, CLIENT_HANDSHAKE_RESEND_INTERVAL_MS);
    let mut broadcasts = Vec::new();
    let mut told = Vec::new();
    for now in (0..3000u64).step_by(50) {
        if announce.is_due(now) {
            broadcasts.push(now);
            announce.advance();
        }
        let out = p.step(PipelineEvent::HandshakeReceived { reply: HandshakeReply::ClientEcho });
        told.extend(out.events);
        assert_eq!(out.action, PipelineAction::Proceed);
    }
    assert_eq!(broadcasts, vec![0, 1000, 2000]);
    assert!(told.is_empty());
    assert_eq!(p.state, ConnectionState::Announcing);
}

#[test]
fn untrusted_client() {
    let (mut p, _) = Pipeline::new();
    let (told, actions) = run(
        &mut p,
        vec![
            PipelineEvent::AttemptStarted,
            PipelineEvent::HandshakeReceived { reply: HandshakeReply::ClientUntrusted },
        ],
    );
    assert_eq!(told, vec![ConnectionEvent::Error { error: ConnectionError::ClientUntrusted }]);
    assert_eq!(actions[1], PipelineAction::WaitRetry { pause_ms: 1000 });
    assert_eq!(p.state, ConnectionState::Error);
    let (told, _) = run(&mut p, vec![PipelineEvent::ControlConnected { server_ip: server() }]);
    assert!(told.is_empty());
    assert_eq!(p.state, ConnectionState::Error);
    let (told, actions) = run(&mut p, vec![PipelineEvent::RetryElapsed]);
    assert_eq!(told, vec![ConnectionEvent::Initial]);
    assert_eq!(actions, vec![PipelineAction::Proceed]);
    assert_eq!(p.state, ConnectionState::Initial);
}

#[test]
fn incompatible_versions_and_malformed_packets_end_the_attempt() {
    let (mut p, _) = Pipeline::new();
    let (told, _) = run(
        &mut p,
        vec![
            PipelineEvent::AttemptStarted,
            PipelineEvent::HandshakeReceived { reply: HandshakeReply::IncompatibleVersions },
        ],
    );
    assert_eq!(told, vec![ConnectionEvent::Error { error: ConnectionError::IncompatibleVersions }]);
    let (mut p, _) = Pipeline::new();
    let (told, _) = run(
        &mut p,
        vec![
            PipelineEvent::AttemptStarted,
            PipelineEvent::HandshakeReceived { reply: HandshakeReply::Malformed },
        ],
    );
    assert_eq!(
        told,
        vec![ConnectionEvent::Error {
            error: ConnectionError::SystemError { cause: "Malformed handshake packet".into() },
        }]
    );
    assert_eq!(p.state, ConnectionState::Error);
}

#[test]
fn server_restart() {
    let (mut p, _) = Pipeline::new();
    let mut events = up_to_stream_ready();
    events.push(PipelineEvent::StreamAccepted);
    run(&mut p, events);
    let (told, actions) = run(
        &mut p,
        vec![
            PipelineEvent::ControlPacket { packet: ServerControl::TimeSync },
            PipelineEvent::ControlPacket { packet: ServerControl::Other },
            PipelineEvent::ControlPacket { packet: ServerControl::Restarting },
        ],
    );
    assert_eq!(told, vec![ConnectionEvent::ServerRestart]);
    assert_eq!(
        actions,
        vec![PipelineAction::Proceed, PipelineAction::Proceed, PipelineAction::Finish]
    );
    assert_eq!(p.state, ConnectionState::ServerRestart);
    let (told, _) = run(&mut p, vec![PipelineEvent::RetryElapsed]);
    assert!(told.is_empty());
    assert_eq!(p, Pipeline::new().0);
    let (_, actions) = run(&mut p, vec![PipelineEvent::AttemptStarted]);
    assert_eq!(actions, vec![PipelineAction::Discover]);
}

#[test]
fn restart_before_the_stream_starts_ends_the_attempt_cleanly() {
    let (mut p, _) = Pipeline::new();
    let (told, actions) = run(
        &mut p,
        vec![
            PipelineEvent::AttemptStarted,
            PipelineEvent::ControlConnected { server_ip: server() },
            PipelineEvent::ConfigReceived { config: config() },
            PipelineEvent::ControlPacket { packet: ServerControl::Restarting },
        ],
    );
    assert_eq!(
        told,
        vec![ConnectionEvent::ServerFound { ipaddr: server() }, ConnectionEvent::ServerRestart]
    );
    assert_eq!(actions[3], PipelineAction::Finish);
    assert_eq!(p.state, ConnectionState::ServerRestart);
}

#[test]
fn an_unexpected_first_packet_is_a_system_error() {
    for packet in [ServerControl::TimeSync, ServerControl::Other] {
        let (mut p, _) = Pipeline::new();
        let (told, _) = run(
            &mut p,
            vec![
                PipelineEvent::AttemptStarted,
                PipelineEvent::ControlConnected { server_ip: server() },
                PipelineEvent::ConfigReceived { config: config() },
                PipelineEvent::ControlPacket { packet },
            ],
        );
        assert_eq!(
            told[1],
            ConnectionEvent::Error {
                error: ConnectionError::SystemError { cause: "Unexpected packet".into() },
            }
        );
        assert_eq!(p.state, ConnectionState::Error);
    }
}

#[test]
fn a_session_description_that_cannot_be_read_is_a_system_error() {
    let (mut p, _) = Pipeline::new();
    let (told, actions) = run(
        &mut p,
        vec![
            PipelineEvent::AttemptStarted,
            PipelineEvent::ControlConnected { server_ip: server() },
            PipelineEvent::ConfigReceived { config: config() },
            PipelineEvent::ControlPacket { packet: ServerControl::StartStream },
            PipelineEvent::SettingsParsed { settings: Err("expected value at line 1".into()) },
        ],
    );
    assert_eq!(
        told,
        vec![
            ConnectionEvent::ServerFound { ipaddr: server() },
            ConnectionEvent::StreamStart,
            ConnectionEvent::Error {
                error: ConnectionError::SystemError { cause: "expected value at line 1".into() },
            },
        ]
    );
    assert_eq!(actions[4], PipelineAction::WaitRetry { pause_ms: RETRY_CONNECT_MIN_INTERVAL_MS });
}

#[test]
fn a_stream_that_is_not_taken_up_times_out() {
    let (mut p, _) = Pipeline::new();
    let mut events = up_to_stream_ready();
    events.push(PipelineEvent::StreamTimeout);
    let (told, actions) = run(&mut p, events);
    assert_eq!(
        told.last(),
        Some(&ConnectionEvent::Error { error: ConnectionError::TimeoutSetUpStream })
    );
    assert_eq!(actions[5], PipelineAction::AcceptStream { timeout_ms: SET_UP_STREAM_TIMEOUT_MS });
    assert_eq!(p.state, ConnectionState::Error);
    let (told, _) = run(&mut p, vec![PipelineEvent::StreamAccepted]);
    assert!(told.is_empty());
    assert_eq!(p.state, ConnectionState::Error);
}

#[test]
fn failures_outside_end_an_attempt_and_nothing_else() {
    let lost = ConnectionError::ServerDisconnected { cause: "reset by peer".into() };
    let (mut p, _) = Pipeline::new();
    let (told, _) = run(&mut p, vec![PipelineEvent::Failed { error: lost.clone() }]);
    assert!(told.is_empty());
    assert_eq!(p.state, ConnectionState::Initial);
    let (told, _) = run(
        &mut p,
        vec![
            PipelineEvent::AttemptStarted,
            PipelineEvent::Failed { error: ConnectionError::NetworkUnreachable },
            PipelineEvent::Failed { error: lost.clone() },
        ],
    );
    assert_eq!(told, vec![ConnectionEvent::Error { error: ConnectionError::NetworkUnreachable }]);
    let (mut p, _) = Pipeline::new();
    let mut events = up_to_stream_ready();
    events.push(PipelineEvent::StreamAccepted);
    events.push(PipelineEvent::Failed { error: lost.clone() });
    let (told, actions) = run(&mut p, events);
    assert_eq!(told.last(), Some(&ConnectionEvent::Error { error: lost }));
    assert_eq!(actions.last(), Some(&PipelineAction::WaitRetry { pause_ms: 1000 }));
}

#[test]
fn events_out_of_turn_change_nothing() {
    let (mut p, _) = Pipeline::new();
    let before = p.clone();
    let (told, actions) = run(
        &mut p,
        vec![
            PipelineEvent::ControlConnected { server_ip: server() },
            PipelineEvent::HandshakeReceived { reply: HandshakeReply::ClientUntrusted },
            PipelineEvent::ConfigReceived { config: config() },
            PipelineEvent::ControlPacket { packet: ServerControl::StartStream },
            PipelineEvent::SettingsParsed { settings: Ok(settings()) },
            PipelineEvent::StreamReadySent,
            PipelineEvent::StreamAccepted,
            PipelineEvent::StreamTimeout,
            PipelineEvent::SessionEnded,
            PipelineEvent::RetryElapsed,
        ],
    );
    assert!(told.is_empty());
    assert!(actions.iter().all(|a| *a == PipelineAction::Proceed));
    assert_eq!(p, before);
    run(&mut p, vec![PipelineEvent::AttemptStarted, PipelineEvent::ControlConnected { server_ip: server() }]);
    let (told, _) = run(
        &mut p,
        vec![
            PipelineEvent::ControlConnected { server_ip: IpAddress::V4 { v4: [10, 0, 0, 1] } },
            PipelineEvent::ControlPacket { packet: ServerControl::StartStream },
            PipelineEvent::AttemptStarted,
        ],
    );
    assert!(told.is_empty());
    assert_eq!(p.server_ip, Some(server()));
    assert_eq!(p.state, ConnectionState::ControlConnected);
}

#[test]
fn settings_for_observers() {
    let mut s = settings();
    s.codec = AlvrCodec::H265;
    s.client_dark_mode = true;
    s.client_request_realtime_decoder = false;
    s.foveated_rendering = Some(FoveationVars {
        center_size_x: 0.4f32.to_bits(),
        center_size_y: 0.35f32.to_bits(),
        center_shift_x: 0.4f32.to_bits(),
        center_shift_y: 0.1f32.to_bits(),
        edge_ratio_x: 4.0f32.to_bits(),
        edge_ratio_y: 5.0f32.to_bits(),
    });
    let mut c = config();
    c.eye_resolution_width = u32::MAX;
    assert_eq!(
        to_connection_settings(&c, &s),
        ConnectionSettings {
            fps: 60.0f32.to_bits(),
            codec: AlvrCodec::H265,
            realtime: false,
            dark_mode: true,
            dashboard_url: "http://192.168.1.42:8082/".into(),
            ffr_param: Some(FfrParam {
                eye_width: -1,
                eye_height: 1920,
                center_size_x: 0.4f32.to_bits(),
                center_size_y: 0.35f32.to_bits(),
                center_shift_x: 0.4f32.to_bits(),
                center_shift_y: 0.1f32.to_bits(),
                edge_ratio_x: 4.0f32.to_bits(),
                edge_ratio_y: 5.0f32.to_bits(),
            }),
        }
    );
}

#[test]
fn connect_and_disconnect() {
    let mut o = Orchestrator::new();
    assert_eq!(connect(&mut o), ConnectOutcome::Started);
    assert_eq!(connect(&mut o), ConnectOutcome::AlreadyConnected);
    assert!(o.connected);
    assert!(disconnect(&mut o));
    assert!(!disconnect(&mut o));
    assert!(!o.connected);
    assert_eq!(connect(&mut o), ConnectOutcome::Started);
    assert!(disconnect(&mut o));
}

#[test]
fn intervals_of_the_connection() {
    assert_eq!(CHANNEL_BUFFER_SIZE, 128);
    assert_eq!(RETRY_CONNECT_MIN_INTERVAL_MS, 1000);
    assert_eq!(CONTROL_CONNECT_RETRY_PAUSE_MS, 500);
    assert_eq!(CLIENT_HANDSHAKE_RESEND_INTERVAL_MS, 1000);
    assert_eq!(SET_UP_STREAM_TIMEOUT_MS, 5000);
    assert_eq!(PLAYSPACE_SYNC_INTERVAL_MS, 500);
    assert_eq!(NETWORK_KEEPALIVE_INTERVAL_MS, 1000);
}
