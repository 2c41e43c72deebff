//! The life of a connection as a state machine.
//!
//! Sockets, timers and tasks live outside this module. What happens there
//! arrives here as a `PipelineEvent`; the machine answers with its next
//! state, the `ConnectionEvent`s that observers are told, and the
//! `PipelineAction` to carry out next.
//!
//! An attempt runs `Initial`, `Announcing`, `ControlConnected`,
//! `SessionNegotiated`, `StreamReady`, `Streaming`, and ends in
//! `ServerRestart`, `Disconnected` or `Error`, from where the next attempt
//! starts at `Initial` again.

use vstd::prelude::*;
use crate::common::{
    AlvrCodec, ConnectionError, ConnectionEvent, ConnectionSettings, FfrParam, IpAddress,
};
use crate::handshake::{handshake_verdict, HandshakeReply};

verus! {

/// Packets that can wait in the control and unit channels.
pub const CHANNEL_BUFFER_SIZE: usize = 128;

/// Shortest time from the start of one attempt to the start of the next,
/// and the pause after a failed attempt, in milliseconds.
pub const RETRY_CONNECT_MIN_INTERVAL_MS: u64 = 1000;

/// Pause between two tries to reach the server's control socket.
pub const CONTROL_CONNECT_RETRY_PAUSE_MS: u64 = 500;

/// Time between two announcements.
pub const CLIENT_HANDSHAKE_RESEND_INTERVAL_MS: u64 = 1000;

/// Longest wait for the server to take up the stream.
pub const SET_UP_STREAM_TIMEOUT_MS: u64 = 5000;

/// Time between two looks at the play space.
pub const PLAYSPACE_SYNC_INTERVAL_MS: u64 = 500;

/// Time between two keep-alive packets.
pub const NETWORK_KEEPALIVE_INTERVAL_MS: u64 = 1000;

/// The transport of the stream socket.
#[derive(Debug, Clone, Copy, PartialEq, Eq, Structural)]
pub enum StreamProtocol {
    Udp,
    Tcp,
}

/// Shape of the game audio playback.
#[derive(Debug, Clone, Copy, PartialEq, Eq, Structural)]
pub struct AudioConfig {
    pub batch_ms: u64,
    pub average_buffering_ms: u64,
}

/// Settings of fixed foveated rendering; fractions as the bit patterns of
/// single-precision values.
#[derive(Debug, Clone, Copy, PartialEq, Eq, Structural)]
pub struct FoveationVars {
    pub center_size_x: u32,
    pub center_size_y: u32,
    pub center_shift_x: u32,
    pub center_shift_y: u32,
    pub edge_ratio_x: u32,
    pub edge_ratio_y: u32,
}

/// What a session takes from the settings that the server sent.
#[derive(Debug, Clone, Copy, PartialEq, Eq)]
pub struct SessionSettings {
    pub stream_port: u16,
    pub stream_protocol: StreamProtocol,
    pub enable_fec: bool,
    pub codec: AlvrCodec,
    pub client_request_realtime_decoder: bool,
    pub foveated_rendering: Option<FoveationVars>,
    pub clientside_prediction: bool,
    pub game_audio: Option<AudioConfig>,
    pub microphone_sample_rate: Option<u32>,
    pub client_dark_mode: bool,
}

/// What the server sends once the control socket stands.
#[derive(Debug, Clone, PartialEq, Eq)]
pub struct ClientConfigPacket {
    /// Frames per second, as the bit pattern of a single-precision value.
    pub fps: u32,
    pub eye_resolution_width: u32,
    pub eye_resolution_height: u32,
    pub game_audio_sample_rate: u32,
    pub dashboard_url: String,
    /// The session description as JSON.
    pub session_desc: String,
}

/// A packet from the server on the control channel, as far as the
/// connection cares.
#[derive(Debug, Clone, Copy, PartialEq, Eq, Structural)]
pub enum ServerControl {
    StartStream,
    Restarting,
    TimeSync,
    Other,
}

/// The states of a connection.
#[derive(Debug, Clone, Copy, PartialEq, Eq, Structural)]
pub enum ConnectionState {
    Initial,
    Announcing,
    ControlConnected,
    SessionNegotiated,
    StreamReady,
    Streaming,
    ServerRestart,
    Disconnected,
    Error,
}

/// What happened outside.
#[derive(Debug)]
pub enum PipelineEvent {
    /// An attempt begins.
    AttemptStarted,
    /// The control socket to the server at `server_ip` stands.
    ControlConnected { server_ip: IpAddress },
    /// A handshake packet came in on the discovery socket.
    HandshakeReceived { reply: HandshakeReply },
    /// The server sent its configuration.
    ConfigReceived { config: ClientConfigPacket },
    /// A packet came in on the control channel.
    ControlPacket { packet: ServerControl },
    /// The session description was read, or could not be, for the cause
    /// given.
    SettingsParsed { settings: Result<SessionSettings, String> },
    /// The stream socket listens and the server was told so.
    StreamReadySent,
    /// The server took up the stream.
    StreamAccepted,
    /// The server did not take up the stream in time.
    StreamTimeout,
    /// A loop of the running session ended without an error.
    SessionEnded,
    /// Something failed outside.
    Failed { error: ConnectionError },
    /// The pause before the next attempt is over.
    RetryElapsed,
}

/// What is to be done outside.
#[derive(Debug, Clone, Copy, PartialEq, Eq, Structural)]
pub enum PipelineAction {
    /// Nothing new: go on with what is under way.
    Proceed,
    /// Try to reach the server's control socket, and announce the client.
    Discover,
    /// Send the headset's description and wait for the configuration.
    ExchangeConfig,
    /// Wait for the first packet on the control channel.
    AwaitFirstPacket,
    /// Read the session description.
    ParseSettings,
    /// Listen for the stream and tell the server.
    ListenForStream { port: u16, protocol: StreamProtocol },
    /// Wait for the server to take up the stream, no longer than given.
    AcceptStream { timeout_ms: u64 },
    /// Run the loops of the session.
    RunSession,
    /// End the loops of the session, and start over when the shortest time
    /// between two attempts has passed.
    Finish,
    /// End the loops of the session, and start over after the pause.
    WaitRetry { pause_ms: u64 },
}

/// The connection: its state, and what it has learnt in this attempt.
#[derive(Debug, Clone, PartialEq, Eq)]
pub struct Pipeline {
    pub state: ConnectionState,
    pub server_ip: Option<IpAddress>,
    pub config: Option<ClientConfigPacket>,
    /// Whether the server has started the stream.
    pub stream_started: bool,
    pub settings: Option<SessionSettings>,
}

/// A step of the machine as plain values.
pub struct PipelineStep {
    pub next: Pipeline,
    pub events: Seq<ConnectionEvent>,
    pub action: PipelineAction,
}

/// What the machine hands out on a step.
pub struct StepOutput {
    pub events: Vec<ConnectionEvent>,
    pub action: PipelineAction,
}

/// What observers learn of a session from the server's configuration and
/// the settings.
pub open spec fn connection_settings(config: ClientConfigPacket, settings: SessionSettings)
    -> ConnectionSettings {
    ConnectionSettings {
        fps: config.fps,
        codec: settings.codec,
        realtime: settings.client_request_realtime_decoder,
        dark_mode: settings.client_dark_mode,
        dashboard_url: config.dashboard_url,
        ffr_param: match settings.foveated_rendering {
            Some(vars) => Some(
                FfrParam {
                    eye_width: config.eye_resolution_width as i32,
                    eye_height: config.eye_resolution_height as i32,
                    center_size_x: vars.center_size_x,
                    center_size_y: vars.center_size_y,
                    center_shift_x: vars.center_shift_x,
                    center_shift_y: vars.center_shift_y,
                    edge_ratio_x: vars.edge_ratio_x,
                    edge_ratio_y: vars.edge_ratio_y,
                },
            ),
            None => None,
        },
    }
}

/// What observers learn of a session; see `connection_settings`.
pub fn to_connection_settings(config: &ClientConfigPacket, settings: &SessionSettings) -> (r:
    ConnectionSettings)
    ensures
        r == connection_settings(*config, *settings),
{
    let ffr_param: Option<FfrParam> = match settings.foveated_rendering {
        Some(vars) => Some(
            FfrParam {
                eye_width: config.eye_resolution_width as i32,
                eye_height: config.eye_resolution_height as i32,
                center_size_x: vars.center_size_x,
                center_size_y: vars.center_size_y,
                center_shift_x: vars.center_shift_x,
                center_shift_y: vars.center_shift_y,
                edge_ratio_x: vars.edge_ratio_x,
                edge_ratio_y: vars.edge_ratio_y,
            },
        ),
        None => None,
    };
    ConnectionSettings {
        fps: config.fps,
        codec: settings.codec,
        realtime: settings.client_request_realtime_decoder,
        dark_mode: settings.client_dark_mode,
        dashboard_url: config.dashboard_url.clone(),
        ffr_param,
    }
}

impl Pipeline {
    /// The connection before the first attempt.
    pub open spec fn initial() -> Pipeline {
        Pipeline {
            state: ConnectionState::Initial,
            server_ip: None,
            config: None,
            stream_started: false,
            settings: None,
        }
    }

    /// Whether an attempt is under way.
    pub open spec fn active(self) -> bool {
        self.state == ConnectionState::Announcing || self.state == ConnectionState::ControlConnected
            || self.state == ConnectionState::SessionNegotiated || self.state
            == ConnectionState::StreamReady || self.state == ConnectionState::Streaming
    }

    /// The step that ends an attempt with `error`.
    pub open spec fn failed(self, error: ConnectionError) -> PipelineStep {
        PipelineStep {
            next: Pipeline { state: ConnectionState::Error, ..self },
            events: seq![ConnectionEvent::Error { error }],
            action: PipelineAction::WaitRetry { pause_ms: RETRY_CONNECT_MIN_INTERVAL_MS },
        }
    }

    /// The step that changes nothing.
    pub open spec fn ignored(self) -> PipelineStep {
        PipelineStep { next: self, events: Seq::empty(), action: PipelineAction::Proceed }
    }

    /// The step that ends an attempt because the server restarts.
    pub open spec fn restarting(self) -> PipelineStep {
        PipelineStep {
            next: Pipeline { state: ConnectionState::ServerRestart, ..self },
            events: seq![ConnectionEvent::ServerRestart],
            action: PipelineAction::Finish,
        }
    }

    /// Whether `step` ends the attempt with a system error whose cause
    /// reads `text`.
    pub open spec fn fails_with_text(self, step: PipelineStep, text: Seq<char>) -> bool {
        &&& step.next == Pipeline { state: ConnectionState::Error, ..self }
        &&& step.action == PipelineAction::WaitRetry { pause_ms: RETRY_CONNECT_MIN_INTERVAL_MS }
        &&& step.events.len() == 1
        &&& step.events[0] matches ConnectionEvent::Error {
            error: ConnectionError::SystemError { cause },
        } && cause@ == text
    }

    /// The step on `event`, where the event says all that the step needs.
    /// An event that the state does not wait for changes nothing.
    pub open spec fn next(self, event: PipelineEvent) -> PipelineStep {
        match event {
            PipelineEvent::AttemptStarted => if self.state == ConnectionState::Initial {
                PipelineStep {
                    next: Pipeline { state: ConnectionState::Announcing, ..Self::initial() },
                    events: Seq::empty(),
                    action: PipelineAction::Discover,
                }
            } else {
                self.ignored()
            },
            PipelineEvent::ControlConnected { server_ip } => if self.state
                == ConnectionState::Announcing {
                PipelineStep {
                    next: Pipeline {
                        state: ConnectionState::ControlConnected,
                        server_ip: Some(server_ip),
                        ..self
                    },
                    events: seq![ConnectionEvent::ServerFound { ipaddr: server_ip }],
                    action: PipelineAction::ExchangeConfig,
                }
            } else {
                self.ignored()
            },
            PipelineEvent::HandshakeReceived { reply } => if self.state
                == ConnectionState::Announcing {
                match reply {
                    HandshakeReply::ClientUntrusted => self.failed(ConnectionError::ClientUntrusted),
                    HandshakeReply::IncompatibleVersions => self.failed(
                        ConnectionError::IncompatibleVersions,
                    ),
                    _ => self.ignored(),
                }
            } else {
                self.ignored()
            },
            PipelineEvent::ConfigReceived { config } => if self.state
                == ConnectionState::ControlConnected && self.config.is_none() {
                PipelineStep {
                    next: Pipeline { config: Some(config), ..self },
                    events: Seq::empty(),
                    action: PipelineAction::AwaitFirstPacket,
                }
            } else {
                self.ignored()
            },
            PipelineEvent::ControlPacket { packet } => if self.state
                == ConnectionState::ControlConnected && self.config.is_some()
                && !self.stream_started {
                match packet {
                    ServerControl::StartStream => PipelineStep {
                        next: Pipeline { stream_started: true, ..self },
                        events: seq![ConnectionEvent::StreamStart],
                        action: PipelineAction::ParseSettings,
                    },
                    ServerControl::Restarting => self.restarting(),
                    _ => self.ignored(),
                }
            } else if self.state == ConnectionState::Streaming && packet
                == ServerControl::Restarting {
                self.restarting()
            } else {
                self.ignored()
            },
            PipelineEvent::SettingsParsed { settings } => if self.state
                == ConnectionState::ControlConnected && self.stream_started {
                match settings {
                    Ok(read) => PipelineStep {
                        next: Pipeline {
                            state: ConnectionState::SessionNegotiated,
                            settings: Some(read),
                            ..self
                        },
                        events: Seq::empty(),
                        action: PipelineAction::ListenForStream {
                            port: read.stream_port,
                            protocol: read.stream_protocol,
                        },
                    },
                    Err(cause) => self.failed(ConnectionError::SystemError { cause }),
                }
            } else {
                self.ignored()
            },
            PipelineEvent::StreamReadySent => if self.state == ConnectionState::SessionNegotiated {
                PipelineStep {
                    next: Pipeline { state: ConnectionState::StreamReady, ..self },
                    events: Seq::empty(),
                    action: PipelineAction::AcceptStream { timeout_ms: SET_UP_STREAM_TIMEOUT_MS },
                }
            } else {
                self.ignored()
            },
            PipelineEvent::StreamAccepted => if self.state == ConnectionState::StreamReady
                && self.config.is_some() && self.settings.is_some() {
                PipelineStep {
                    next: Pipeline { state: ConnectionState::Streaming, ..self },
                    events: seq![
                        ConnectionEvent::Connected {
                            settings: connection_settings(
                                self.config.unwrap(),
                                self.settings.unwrap(),
                            ),
                        },
                    ],
                    action: PipelineAction::RunSession,
                }
            } else {
                self.ignored()
            },
            PipelineEvent::StreamTimeout => if self.state == ConnectionState::StreamReady {
                self.failed(ConnectionError::TimeoutSetUpStream)
            } else {
                self.ignored()
            },
            PipelineEvent::SessionEnded => if self.state == ConnectionState::Streaming {
                PipelineStep {
                    next: Pipeline { state: ConnectionState::Disconnected, ..self },
                    events: Seq::empty(),
                    action: PipelineAction::Finish,
                }
            } else {
                self.ignored()
            },
            PipelineEvent::Failed { error } => if self.active() {
                self.failed(error)
            } else {
                self.ignored()
            },
            PipelineEvent::RetryElapsed => if self.state == ConnectionState::Error {
                PipelineStep {
                    next: Self::initial(),
                    events: seq![ConnectionEvent::Initial],
                    action: PipelineAction::Proceed,
                }
            } else if self.state == ConnectionState::ServerRestart || self.state
                == ConnectionState::Disconnected {
                PipelineStep {
                    next: Self::initial(),
                    events: Seq::empty(),
                    action: PipelineAction::Proceed,
                }
            } else {
                self.ignored()
            },
        }
    }

    /// Whether `step` is the step of the machine on `event`. It is
    /// `next(event)` but in two cases, where the error that ends the attempt
    /// carries a text of the machine's own: a handshake packet that is
    /// malformed while announcing, and a first control packet that neither
    /// starts the stream nor tells of a restart.
    pub open spec fn steps_to(self, event: PipelineEvent, step: PipelineStep) -> bool {
        match event {
            PipelineEvent::HandshakeReceived { reply } => if self.state
                == ConnectionState::Announcing && reply == HandshakeReply::Malformed {
                self.fails_with_text(step, "Malformed handshake packet"@)
            } else {
                step == self.next(event)
            },
            PipelineEvent::ControlPacket { packet } => if self.state
                == ConnectionState::ControlConnected && self.config.is_some()
                && !self.stream_started && packet != ServerControl::StartStream && packet
                != ServerControl::Restarting {
                self.fails_with_text(step, "Unexpected packet"@)
            } else {
                step == self.next(event)
            },
            _ => step == self.next(event),
        }
    }

    /// The connection before the first attempt, and the event that tells
    /// observers of it.
    pub fn new() -> (r: (Pipeline, ConnectionEvent))
        ensures
            r.0 == Pipeline::initial(),
            r.1 == ConnectionEvent::Initial,
    {
        (
            Pipeline {
                state: ConnectionState::Initial,
                server_ip: None,
                config: None,
                stream_started: false,
                settings: None,
            },
            ConnectionEvent::Initial,
        )
    }

    /// Ends the attempt with `error`.
    fn fail(&mut self, error: ConnectionError) -> (out: StepOutput)
        ensures
            (PipelineStep { next: *final(self), events: out.events@, action: out.action })
                == old(self).failed(error),
    {
        self.state = ConnectionState::Error;
        let mut events: Vec<ConnectionEvent> = Vec::new();
        events.push(ConnectionEvent::Error { error });
        assert(events@ =~= seq![ConnectionEvent::Error { error }]);
        StepOutput {
            events,
            action: PipelineAction::WaitRetry { pause_ms: RETRY_CONNECT_MIN_INTERVAL_MS },
        }
    }

    /// Ends the attempt because the server restarts.
    fn restart(&mut self) -> (out: StepOutput)
        ensures
            (PipelineStep { next: *final(self), events: out.events@, action: out.action })
                == old(self).restarting(),
    {
        self.state = ConnectionState::ServerRestart;
        let mut events: Vec<ConnectionEvent> = Vec::new();
        events.push(ConnectionEvent::ServerRestart);
        assert(events@ =~= seq![ConnectionEvent::ServerRestart]);
        StepOutput { events, action: PipelineAction::Finish }
    }

    /// Back to the start.
    fn clear(&mut self)
        ensures
            *final(self) == Pipeline::initial(),
    {
        self.state = ConnectionState::Initial;
        self.server_ip = None;
        self.config = None;
        self.stream_started = false;
        self.settings = None;
    }

    /// Takes in what happened outside, and tells what observers are to
    /// learn and what is to be done next; see `steps_to` and `next`.
    pub fn step(&mut self, event: PipelineEvent) -> (out: StepOutput)
        ensures
            old(self).steps_to(
                event,
                PipelineStep { next: *final(self), events: out.events@, action: out.action },
            ),
    {
        let mut events: Vec<ConnectionEvent> = Vec::new();
        let mut action: PipelineAction = PipelineAction::Proceed;
        assert(events@ =~= Seq::<ConnectionEvent>::empty());
        match event {
            PipelineEvent::AttemptStarted => {
                if self.state == ConnectionState::Initial {
                    self.clear();
                    self.state = ConnectionState::Announcing;
                    action = PipelineAction::Discover;
                }
            },
            PipelineEvent::ControlConnected { server_ip } => {
                if self.state == ConnectionState::Announcing {
                    self.state = ConnectionState::ControlConnected;
                    self.server_ip = Some(server_ip);
                    events.push(ConnectionEvent::ServerFound { ipaddr: server_ip });
                    assert(events@ =~= seq![ConnectionEvent::ServerFound { ipaddr: server_ip }]);
                    action = PipelineAction::ExchangeConfig;
                }
            },
            PipelineEvent::HandshakeReceived { reply } => {
                if self.state == ConnectionState::Announcing {
                    match handshake_verdict(reply) {
                        Some(error) => {
                            let out = self.fail(error);
                            assert(out.events@[0] == ConnectionEvent::Error { error });
                            return out;
                        },
                        None => {},
                    }
                }
            },
            PipelineEvent::ConfigReceived { config } => {
                if self.state == ConnectionState::ControlConnected && self.config.is_none() {
                    self.config = Some(config);
                    action = PipelineAction::AwaitFirstPacket;
                }
            },
            PipelineEvent::ControlPacket { packet } => {
                if self.state == ConnectionState::ControlConnected && self.config.is_some()
                    && !self.stream_started {
                    match packet {
                        ServerControl::StartStream => {
                            self.stream_started = true;
                            events.push(ConnectionEvent::StreamStart);
                            assert(events@ =~= seq![ConnectionEvent::StreamStart]);
                            action = PipelineAction::ParseSettings;
                        },
                        ServerControl::Restarting => {
                            return self.restart();
                        },
                        _ => {
                            let error = ConnectionError::SystemError {
                                cause: "Unexpected packet".to_owned(),
                            };
                            let out = self.fail(error);
                            assert(out.events@[0] == ConnectionEvent::Error { error });
                            return out;
                        },
                    }
                } else if self.state == ConnectionState::Streaming {
                    match packet {
                        ServerControl::Restarting => {
                            return self.restart();
                        },
                        _ => {},
                    }
                }
            },
            PipelineEvent::SettingsParsed { settings } => {
                if self.state == ConnectionState::ControlConnected && self.stream_started {
                    match settings {
                        Ok(read) => {
                            self.state = ConnectionState::SessionNegotiated;
                            self.settings = Some(read);
                            action = PipelineAction::ListenForStream {
                                port: read.stream_port,
                                protocol: read.stream_protocol,
                            };
                        },
                        Err(cause) => {
                            return self.fail(ConnectionError::SystemError { cause });
                        },
                    }
                }
            },
            PipelineEvent::StreamReadySent => {
                if self.state == ConnectionState::SessionNegotiated {
                    self.state = ConnectionState::StreamReady;
                    action = PipelineAction::AcceptStream { timeout_ms: SET_UP_STREAM_TIMEOUT_MS };
                }
            },
            PipelineEvent::StreamAccepted => {
                if self.state == ConnectionState::StreamReady {
                    match (&self.config, &self.settings) {
                        (Some(config), Some(settings)) => {
                            let told = to_connection_settings(config, settings);
                            events.push(ConnectionEvent::Connected { settings: told });
                            assert(events@ =~= seq![ConnectionEvent::Connected { settings: told }]);
                            action = PipelineAction::RunSession;
                            self.state = ConnectionState::Streaming;
                        },
                        _ => {},
                    }
                }
            },
            PipelineEvent::StreamTimeout => {
                if self.state == ConnectionState::StreamReady {
                    return self.fail(ConnectionError::TimeoutSetUpStream);
                }
            },
            PipelineEvent::SessionEnded => {
                if self.state == ConnectionState::Streaming {
                    self.state = ConnectionState::Disconnected;
                    action = PipelineAction::Finish;
                }
            },
            PipelineEvent::Failed { error } => {
                if self.state == ConnectionState::Announcing || self.state
                    == ConnectionState::ControlConnected || self.state
                    == ConnectionState::SessionNegotiated || self.state
                    == ConnectionState::StreamReady || self.state == ConnectionState::Streaming {
                    return self.fail(error);
                }
            },
            PipelineEvent::RetryElapsed => {
                if self.state == ConnectionState::Error {
                    self.clear();
                    events.push(ConnectionEvent::Initial);
                    assert(events@ =~= seq![ConnectionEvent::Initial]);
                } else if self.state == ConnectionState::ServerRestart || self.state
                    == ConnectionState::Disconnected {
                    self.clear();
                }
            },
        }
        StepOutput { events, action }
    }
}

/// A server is found at most once in an attempt: whatever the state, of
/// two control connections that are reported in a row, the second changes
/// nothing and tells observers nothing.
pub proof fn lemma_server_found_once(p: Pipeline, first: IpAddress, second: IpAddress)
    ensures
        ({
            let a = p.next(PipelineEvent::ControlConnected { server_ip: first });
            let b = a.next.next(PipelineEvent::ControlConnected { server_ip: second });
            b == a.next.ignored()
        }),
{
}

/// A refusal while announcing ends the attempt: observers are told the
/// error, and after the pause the connection is back at the start, of which
/// observers are told too.
pub proof fn lemma_refusal_returns_to_initial(p: Pipeline, reply: HandshakeReply)
    requires
        p.state == ConnectionState::Announcing,
        reply == HandshakeReply::ClientUntrusted || reply == HandshakeReply::IncompatibleVersions,
    ensures
        ({
            let a = p.next(PipelineEvent::HandshakeReceived { reply });
            let b = a.next.next(PipelineEvent::RetryElapsed);
            &&& a.events == seq![
                ConnectionEvent::Error {
                    error: if reply == HandshakeReply::ClientUntrusted {
                        ConnectionError::ClientUntrusted
                    } else {
                        ConnectionError::IncompatibleVersions
                    },
                },
            ]
            &&& a.action == PipelineAction::WaitRetry { pause_ms: RETRY_CONNECT_MIN_INTERVAL_MS }
            &&& b.events == seq![ConnectionEvent::Initial]
            &&& b.next == Pipeline::initial()
        }),
{
}

/// A restart of the server ends the session: observers are told of the
/// restart, and the connection is back at the start before the next
/// attempt.
pub proof fn lemma_restart_returns_to_initial(p: Pipeline)
    requires
        p.state == ConnectionState::Streaming,
    ensures
        ({
            let a = p.next(PipelineEvent::ControlPacket { packet: ServerControl::Restarting });
            let b = a.next.next(PipelineEvent::RetryElapsed);
            &&& a.events == seq![ConnectionEvent::ServerRestart]
            &&& a.next.state == ConnectionState::ServerRestart
            &&& a.action == PipelineAction::Finish
            &&& b.events.len() == 0
            &&& b.next == Pipeline::initial()
        }),
{
}

/// The connection that runs the session; at most one at a time.
#[derive(Debug, Clone, Copy, PartialEq, Eq, Structural)]
pub struct Orchestrator {
    pub connected: bool,
}

/// What `connect` found.
#[derive(Debug, Clone, Copy, PartialEq, Eq, Structural)]
pub enum ConnectOutcome {
    /// The connection was started.
    Started,
    /// A connection is running already; nothing was started.
    AlreadyConnected,
}

impl Orchestrator {
    /// No connection.
    pub fn new() -> (o: Orchestrator)
        ensures
            !o.connected,
    {
        Orchestrator { connected: false }
    }
}

/// Starts the connection, unless one is running.
pub fn connect(orchestrator: &mut Orchestrator) -> (outcome: ConnectOutcome)
    ensures
        final(orchestrator).connected,
        outcome == if old(orchestrator).connected {
            ConnectOutcome::AlreadyConnected
        } else {
            ConnectOutcome::Started
        },
{
    if orchestrator.connected {
        ConnectOutcome::AlreadyConnected
    } else {
        orchestrator.connected = true;
        ConnectOutcome::Started
    }
}

/// Ends the connection. The result tells whether one was running.
pub fn disconnect(orchestrator: &mut Orchestrator) -> (was_connected: bool)
    ensures
        !final(orchestrator).connected,
        was_connected == old(orchestrator).connected,
{
    let was_connected: bool = orchestrator.connected;
    orchestrator.connected = false;
    was_connected
}

} // verus!
