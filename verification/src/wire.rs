//! The NanaLive Link v1 messages, as the receiver reads and writes them.
//!
//! The encoding of these messages belongs to the protocol; what stands here is
//! what the receiver's rules look at.
use vstd::prelude::*;

verus! {

/// The one protocol version that this receiver speaks.
pub const PROTOCOL_VERSION_V1: u16 = 1;

/// Why the protocol refused an encoded message, in its own words.
#[derive(Clone, Debug, PartialEq, Eq)]
pub struct ProtocolError {
    pub message: String,
}

/// A colour codec.
#[derive(Clone, Copy, Debug, PartialEq, Eq, Structural)]
pub enum ColorCodec {
    H264,
    Unknown(u64),
}

/// An alpha codec.
#[derive(Clone, Copy, Debug, PartialEq, Eq, Structural)]
pub enum AlphaCodec {
    A8T1,
    Unknown(u64),
}

/// What one side of a session can handle.
#[derive(Clone, Debug, PartialEq, Eq)]
pub struct MediaCapabilities {
    pub protocol_versions: Vec<u16>,
    pub color_codecs: Vec<ColorCodec>,
    pub alpha_codecs: Vec<AlphaCodec>,
    pub max_width: u32,
    pub max_height: u32,
    pub max_fps: u32,
    pub hardware_decode: bool,
    pub local_spout: bool,
}

impl MediaCapabilities {
    /// The side speaks v1 and handles H.264 colour with A8T1 alpha.
    pub open spec fn speaks_v1(self) -> bool {
        &&& self.protocol_versions@.contains(PROTOCOL_VERSION_V1)
        &&& self.color_codecs@.contains(ColorCodec::H264)
        &&& self.alpha_codecs@.contains(AlphaCodec::A8T1)
    }

    /// Whether the side speaks v1 and handles H.264 colour with A8T1 alpha.
    pub fn supports_v1(&self) -> (supported: bool)
        ensures
            supported == self.speaks_v1(),
    {
        has_version(&self.protocol_versions, PROTOCOL_VERSION_V1) && has_color_codec(
            &self.color_codecs,
            ColorCodec::H264,
        ) && has_alpha_codec(&self.alpha_codecs, AlphaCodec::A8T1)
    }
}

/// Whether `wanted` is among `versions`.
pub fn has_version(versions: &Vec<u16>, wanted: u16) -> (found: bool)
    ensures
        found == versions@.contains(wanted),
{
    let mut i: usize = 0;
    while i < versions.len()
        invariant
            i <= versions@.len(),
            forall|k: int| 0 <= k < i ==> versions@[k] != wanted,
        decreases versions@.len() - i,
    {
        if versions[i] == wanted {
            assert(versions@[i as int] == wanted);
            return true;
        }
        i += 1;
    }
    false
}

/// Whether `wanted` is among `codecs`.
fn has_color_codec(codecs: &Vec<ColorCodec>, wanted: ColorCodec) -> (found: bool)
    ensures
        found == codecs@.contains(wanted),
{
    let mut i: usize = 0;
    while i < codecs.len()
        invariant
            i <= codecs@.len(),
            forall|k: int| 0 <= k < i ==> codecs@[k] != wanted,
        decreases codecs@.len() - i,
    {
        if codecs[i] == wanted {
            assert(codecs@[i as int] == wanted);
            return true;
        }
        i += 1;
    }
    false
}

/// Whether `wanted` is among `codecs`.
fn has_alpha_codec(codecs: &Vec<AlphaCodec>, wanted: AlphaCodec) -> (found: bool)
    ensures
        found == codecs@.contains(wanted),
{
    let mut i: usize = 0;
    while i < codecs.len()
        invariant
            i <= codecs@.len(),
            forall|k: int| 0 <= k < i ==> codecs@[k] != wanted,
        decreases codecs@.len() - i,
    {
        if codecs[i] == wanted {
            assert(codecs@[i as int] == wanted);
            return true;
        }
        i += 1;
    }
    false
}

/// The media stream that the sender announces.
#[derive(Clone, Copy, Debug, PartialEq, Eq, Structural)]
pub struct MediaConfiguration {
    pub generation: u16,
    pub width: u32,
    pub height: u32,
    pub fps: u32,
    pub color_codec: ColorCodec,
    pub alpha_codec: AlphaCodec,
    pub target_bitrate_bps: u32,
    pub max_bitrate_bps: u32,
}

/// What the receiver tells the sender once a second.
#[derive(Clone, Copy, Debug, PartialEq, Eq, Structural)]
pub struct ReceiverReport {
    pub generation: u16,
    pub last_complete_color_frame: Option<u32>,
    pub last_complete_alpha_frame: Option<u32>,
    pub incomplete_frames: u64,
    pub dropped_frames: u64,
    pub decode_queue_depth: u16,
    pub playout_latency_us: u32,
    pub rtt_us: u32,
    pub jitter_us: u32,
    pub hardware_decode_active: bool,
    pub requested_bitrate_bps: u32,
    pub requested_fps: u32,
    pub requested_alpha_codec: AlphaCodec,
}

/// The body of a control message.
#[derive(Clone, Debug, PartialEq, Eq)]
pub enum ControlPayload {
    Hello { endpoint_nonce: [u8; 16], supported_versions: Vec<u16> },
    Capabilities(MediaCapabilities),
    Configure(MediaConfiguration),
    Reconfigure(MediaConfiguration),
    Start,
    Stop,
    Ping { nonce: u64, sent_at_us: u64 },
    Pong { nonce: u64, sent_at_us: u64 },
    RequestIdr { generation: u16 },
    ReceiverReport(ReceiverReport),
    Error,
    Goodbye,
    Unknown,
}

/// A message on the reliable control stream.
#[derive(Clone, Debug, PartialEq, Eq)]
pub struct ControlMessage {
    pub version: u16,
    pub payload: ControlPayload,
}

impl ControlMessage {
    /// A message of protocol version 1.
    pub fn v1(payload: ControlPayload) -> (message: Self)
        ensures
            message == (ControlMessage { version: PROTOCOL_VERSION_V1, payload }),
    {
        ControlMessage { version: PROTOCOL_VERSION_V1, payload }
    }
}

/// Which plane of a frame a datagram belongs to.
#[derive(Clone, Copy, Debug, PartialEq, Eq, Structural)]
pub enum MediaFlow {
    Color,
    Alpha,
    Unknown(u64),
}

/// The part of a media datagram's header that the receiver's rules read.
#[derive(Clone, Copy, Debug, PartialEq, Eq, Structural)]
pub struct MediaChunkHeader {
    pub flow: MediaFlow,
    pub generation: u16,
    pub frame_id: u32,
    pub pts_us: u64,
}

/// What reassembling one datagram came to.
#[derive(Clone, Copy, Debug, PartialEq, Eq, Structural)]
pub enum ReassemblyOutcome {
    Pending,
    Duplicate,
    /// The datagram completed one plane of a frame.
    Completed { flow: MediaFlow, frame_id: u32 },
    DroppedExpired,
    DroppedOldGeneration,
}

/// The two complete planes of one frame, both still encoded.
#[derive(Clone, Debug, PartialEq, Eq)]
pub struct SynchronizedPair {
    pub generation: u16,
    pub frame_id: u32,
    pub pts_us: u64,
    pub color: Vec<u8>,
}

/// A decoded alpha plane and the frame that it names.
#[derive(Clone, Debug, PartialEq, Eq)]
pub struct AlphaFrame {
    pub generation: u16,
    pub frame_id: u32,
    pub pts_us: u64,
    pub width: u32,
    pub height: u32,
    pub alpha: Vec<u8>,
}

} // verus!
