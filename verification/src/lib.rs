//! Client-side streaming core of a VR headset client: packet codecs, forward
//! error correction, NAL extraction, latency accounting and the connection
//! state machine.

pub mod audio;
pub mod buffer_queue;
pub mod byte_buf;
pub mod common;
pub mod connection;
pub mod fec;
pub mod fec_geometry;
pub mod fec_laws;
pub mod frame_map;
pub mod handshake;
pub mod latency_controller;
pub mod legacy_packets;
pub mod legacy_stream;
pub mod nal;
pub mod rs_codec;
pub mod session;
pub mod util;
pub mod wire;
