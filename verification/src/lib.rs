//! Shared logic of a real-time audio streaming tool: the messages that the
//! server and the client exchange and their length-prefixed framing, the
//! byte encoding of audio samples, and the decisions of the server's and the
//! client's loops.
use vstd::prelude::*;

pub mod cli;
pub mod cli_commands;
pub mod client;
pub mod protocol;
pub mod sample;
pub mod server;

pub use protocol::{AudioConfig, DeviceSampleFormat, FrameError, Message, SampleFormat, UnsupportedSampleFormat};
pub use protocol::{decode_frame, encode_frame};
pub use sample::AudioSample;

verus! {

/// Default server port for audio streaming.
pub const DEFAULT_PORT: u16 = 8080;

/// Default buffer size for audio streaming (4 KiB chunks).
pub const DEFAULT_BUFFER_SIZE: usize = 4096;

} // verus!
