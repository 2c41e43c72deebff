//! Values handed to the embedding application: the codec in use, the
//! connection events and the errors that end a connection.

use vstd::prelude::*;
use vstd::std_specs::convert::FromSpecImpl;

verus! {

/// The video codec of the stream.
#[derive(Debug, Clone, Copy, PartialEq, Eq, Structural)]
pub enum AlvrCodec {
    H264,
    H265,
    Unknown,
}

impl AlvrCodec {
    /// The codec that the number `n` selects.
    pub open spec fn of_number(n: u32) -> AlvrCodec {
        if n == 0 {
            AlvrCodec::H264
        } else if n == 1 {
            AlvrCodec::H265
        } else {
            AlvrCodec::Unknown
        }
    }
}

impl From<u32> for AlvrCodec {
    fn from(n: u32) -> (codec: AlvrCodec) {
        if n == 0 {
            AlvrCodec::H264
        } else if n == 1 {
            AlvrCodec::H265
        } else {
            AlvrCodec::Unknown
        }
    }
}

impl FromSpecImpl<u32> for AlvrCodec {
    open spec fn obeys_from_spec() -> bool {
        true
    }

    open spec fn from_spec(n: u32) -> AlvrCodec {
        AlvrCodec::of_number(n)
    }
}

/// Why a connection attempt or a running connection ended.
#[derive(Debug, Clone, PartialEq, Eq)]
pub enum ConnectionError {
    /// The discovery broadcast could not be sent.
    NetworkUnreachable,
    /// The server does not trust this client.
    ClientUntrusted,
    /// Client and server versions do not match.
    IncompatibleVersions,
    /// The stream socket was not accepted in time.
    TimeoutSetUpStream,
    /// A socket failed while the session was running.
    ServerDisconnected { cause: String },
    /// An unexpected packet, a serialization failure or an internal failure.
    SystemError { cause: String },
}

impl From<String> for ConnectionError {
    fn from(cause: String) -> (error: ConnectionError) {
        ConnectionError::SystemError { cause }
    }
}

impl FromSpecImpl<String> for ConnectionError {
    open spec fn obeys_from_spec() -> bool {
        true
    }

    open spec fn from_spec(cause: String) -> ConnectionError {
        ConnectionError::SystemError { cause }
    }
}

/// The address of a peer, as its octets in network order.
#[derive(Debug, Clone, Copy, PartialEq, Eq)]
pub enum IpAddress {
    V4 { v4: [u8; 4] },
    V6 { v6: [u8; 16] },
}

/// Parameters of fixed foveated rendering. Fractions are carried as the bit
/// patterns of their single-precision values.
#[derive(Debug, Clone, Copy, PartialEq, Eq)]
pub struct FfrParam {
    pub eye_width: i32,
    pub eye_height: i32,
    pub center_size_x: u32,
    pub center_size_y: u32,
    pub center_shift_x: u32,
    pub center_shift_y: u32,
    pub edge_ratio_x: u32,
    pub edge_ratio_y: u32,
}

/// What an observer learns when the stream is set up.
#[derive(Debug, Clone, PartialEq, Eq)]
pub struct ConnectionSettings {
    /// Frames per second, as the bit pattern of a single-precision value.
    pub fps: u32,
    pub codec: AlvrCodec,
    pub realtime: bool,
    pub dark_mode: bool,
    pub dashboard_url: String,
    pub ffr_param: Option<FfrParam>,
}

/// A step of the connection's life that observers are told of.
#[derive(Debug, Clone, PartialEq, Eq)]
pub enum ConnectionEvent {
    Initial,
    ServerFound { ipaddr: IpAddress },
    Connected { settings: ConnectionSettings },
    StreamStart,
    ServerRestart,
    Error { error: ConnectionError },
}

} // verus!
