//! The receiver session: negotiation, frame synchronisation and reports.
//!
//! The wire formats, the reassembly of datagrams and the alpha codec belong to
//! the protocol. A session is driven by what they came to: each event method
//! takes such an outcome and says what to do next.
use crate::adaptive::AdaptiveController;
use crate::model::{CoreModel, InflightFrame};
use crate::ordered::{keys_of, remove_all, trim};
use crate::wire::{
    has_version, AlphaCodec, AlphaFrame, ColorCodec, ControlMessage, ControlPayload,
    MediaCapabilities, MediaChunkHeader, MediaConfiguration, MediaFlow, ProtocolError,
    ReassemblyOutcome, ReceiverReport, SynchronizedPair, PROTOCOL_VERSION_V1,
};
use std::collections::{BTreeMap, VecDeque};
use vstd::prelude::*;
use vstd::string::StringExecFns;

verus! {

broadcast use {vstd::std_specs::btree::group_btree_axioms, vstd::laws_cmp::group_laws_cmp};

pub const MAX_WIDTH: u32 = 1_920;

pub const MAX_HEIGHT: u32 = 1_080;

pub const MAX_FPS: u32 = 60;

/// Frames that may be awaited at once.
pub const MAX_INCOMPLETE_FRAMES: usize = 2;

/// Flows that may be reassembled at once: each awaited frame can contribute one
/// colour flow and one alpha flow.
pub const MAX_REASSEMBLED_FLOWS: usize = MAX_INCOMPLETE_FRAMES * 2;

/// Frames that may wait at once for their other plane.
pub const MAX_UNPAIRED_FRAMES: usize = MAX_INCOMPLETE_FRAMES;

/// Given-up frames that are remembered at once.
pub const MAX_DROPPED_FRAME_TOMBSTONES: usize = 8;

/// The furthest that a presentation time may lie ahead of the clock anchor.
pub const MAX_PLAYOUT_HORIZON_US: u64 = 2_000_000;

pub const MAX_PLAYOUT_HORIZON_NS: u64 = 2_000_000_000;

/// The time over which shown frames are counted for the frame rate.
pub const PUBLISH_WINDOW_NS: u64 = 1_000_000_000;

/// How far the negotiation of a session has come.
#[derive(Clone, Copy, Debug, PartialEq, Eq, Structural)]
pub enum SessionPhase {
    AwaitingHello,
    AwaitingConfiguration,
    Configured,
    Streaming,
    Stopped,
    Closed,
}

/// A complete frame: encoded colour, decoded alpha, and when to show it.
#[derive(Clone, Debug, PartialEq, Eq)]
pub struct PreparedFrame {
    pub generation: u16,
    pub frame_id: u32,
    pub pts_us: u64,
    pub width: u32,
    pub height: u32,
    pub h264: Vec<u8>,
    pub alpha: Vec<u8>,
    pub playout_at: u64,
}

/// Counters and measurements of a session.
#[derive(Clone, Copy, Debug, PartialEq, Eq, Structural)]
pub struct ReceiverDiagnostics {
    pub incomplete_frames: u64,
    pub dropped_frames: u64,
    pub late_frames: u64,
    pub replaced_ready_frames: u64,
    pub completed_frames: u64,
    pub decode_failures: u64,
    pub idr_requests: u64,
    pub last_complete_color_frame: Option<u32>,
    pub last_complete_alpha_frame: Option<u32>,
    pub last_published_frame: Option<u32>,
    pub rtt_us: u32,
    pub jitter_us: u32,
    pub playout_latency_us: u32,
    pub receive_to_publish_latency_us: u32,
    pub alpha_decode_cpu_us: u32,
    pub color_decode_submit_cpu_us: u32,
    pub composite_enqueue_cpu_us: u32,
    pub spout_publish_cpu_us: u32,
    pub complete_frame_fps: u32,
    pub jitter_buffer_depth: u16,
    pub latest_frame_drops: u64,
}

impl ReceiverDiagnostics {
    /// Nothing counted, nothing measured.
    pub open spec fn zero() -> Self {
        ReceiverDiagnostics {
            incomplete_frames: 0,
            dropped_frames: 0,
            late_frames: 0,
            replaced_ready_frames: 0,
            completed_frames: 0,
            decode_failures: 0,
            idr_requests: 0,
            last_complete_color_frame: None,
            last_complete_alpha_frame: None,
            last_published_frame: None,
            rtt_us: 0,
            jitter_us: 0,
            playout_latency_us: 0,
            receive_to_publish_latency_us: 0,
            alpha_decode_cpu_us: 0,
            color_decode_submit_cpu_us: 0,
            composite_enqueue_cpu_us: 0,
            spout_publish_cpu_us: 0,
            complete_frame_fps: 0,
            jitter_buffer_depth: 0,
            latest_frame_drops: 0,
        }
    }
}

impl Default for ReceiverDiagnostics {
    fn default() -> (diagnostics: Self)
        ensures
            diagnostics == ReceiverDiagnostics::zero(),
    {
        ReceiverDiagnostics {
            incomplete_frames: 0,
            dropped_frames: 0,
            late_frames: 0,
            replaced_ready_frames: 0,
            completed_frames: 0,
            decode_failures: 0,
            idr_requests: 0,
            last_complete_color_frame: None,
            last_complete_alpha_frame: None,
            last_published_frame: None,
            rtt_us: 0,
            jitter_us: 0,
            playout_latency_us: 0,
            receive_to_publish_latency_us: 0,
            alpha_decode_cpu_us: 0,
            color_decode_submit_cpu_us: 0,
            composite_enqueue_cpu_us: 0,
            spout_publish_cpu_us: 0,
            complete_frame_fps: 0,
            jitter_buffer_depth: 0,
            latest_frame_drops: 0,
        }
    }
}

/// A message that does not fit the state of the session.
#[derive(Clone, Copy, Debug, PartialEq, Eq, Structural)]
pub enum ControlFault {
    UnsupportedVersion,
    NoCommonVersion,
    CapabilitiesOutsideNegotiation,
    StartBeforeConfigure,
    ReceiverOnlyMessage,
    MediaWhileNotStreaming,
    MediaBeforeConfigure,
    ConfigureBeforeCapabilities,
}

impl ControlFault {
    pub open spec fn message(self) -> Seq<char> {
        match self {
            ControlFault::UnsupportedVersion => "unsupported protocol version"@,
            ControlFault::NoCommonVersion => "no common protocol version"@,
            ControlFault::CapabilitiesOutsideNegotiation
            => "sender capabilities outside negotiation"@,
            ControlFault::StartBeforeConfigure => "start before configure"@,
            ControlFault::ReceiverOnlyMessage
            => "sender emitted a receiver-only or unknown control message"@,
            ControlFault::MediaWhileNotStreaming => "media received while not streaming"@,
            ControlFault::MediaBeforeConfigure => "media received before configure"@,
            ControlFault::ConfigureBeforeCapabilities => "configure before sender capabilities"@,
        }
    }

    /// The message shown for this fault.
    pub fn text(&self) -> (text: &'static str)
        ensures
            text@ == self.message(),
    {
        match self {
            ControlFault::UnsupportedVersion => "unsupported protocol version",
            ControlFault::NoCommonVersion => "no common protocol version",
            ControlFault::CapabilitiesOutsideNegotiation
            => "sender capabilities outside negotiation",
            ControlFault::StartBeforeConfigure => "start before configure",
            ControlFault::ReceiverOnlyMessage
            => "sender emitted a receiver-only or unknown control message",
            ControlFault::MediaWhileNotStreaming => "media received while not streaming",
            ControlFault::MediaBeforeConfigure => "media received before configure",
            ControlFault::ConfigureBeforeCapabilities => "configure before sender capabilities",
        }
    }
}

/// Why a message was refused.
#[derive(Clone, Debug, PartialEq, Eq)]
pub enum ReceiverError {
    Protocol(ProtocolError),
    InvalidControl(ControlFault),
    UnsupportedConfiguration,
    InconsistentAlpha,
}

impl ReceiverError {
    pub open spec fn message(self) -> Seq<char> {
        match self {
            ReceiverError::Protocol(error) => "protocol error: "@ + error.message@,
            ReceiverError::InvalidControl(fault) => "invalid control state: "@ + fault.message(),
            ReceiverError::UnsupportedConfiguration => "unsupported media configuration"@,
            ReceiverError::InconsistentAlpha
            => "alpha metadata does not match the synchronized color frame"@,
        }
    }

    /// The message shown for this error.
    pub fn text(&self) -> (text: String)
        ensures
            text@ == self.message(),
    {
        match self {
            ReceiverError::Protocol(error) => {
                let mut text: String = "protocol error: ".to_owned();
                text.append(error.message.as_str());
                text
            },
            ReceiverError::InvalidControl(fault) => {
                let mut text: String = "invalid control state: ".to_owned();
                text.append(fault.text());
                text
            },
            ReceiverError::UnsupportedConfiguration => "unsupported media configuration".to_owned(),
            ReceiverError::InconsistentAlpha
            => "alpha metadata does not match the synchronized color frame".to_owned(),
        }
    }
}

impl From<ProtocolError> for ReceiverError {
    fn from(error: ProtocolError) -> (wrapped: Self) {
        ReceiverError::Protocol(error)
    }
}

impl vstd::std_specs::convert::FromSpecImpl<ProtocolError> for ReceiverError {
    open spec fn obeys_from_spec() -> bool {
        true
    }

    open spec fn from_spec(error: ProtocolError) -> Self {
        ReceiverError::Protocol(error)
    }
}

/// What a datagram needs on its way through reassembly.
#[derive(Clone, Copy, Debug, PartialEq, Eq, Structural)]
pub struct MediaTicket {
    pub generation: u16,
    pub frame_id: u32,
    pub received_at: u64,
    /// When the frame is to be shown.
    pub deadline: u64,
    pub width: u32,
    pub height: u32,
}

/// What to do with a media datagram.
#[derive(Clone, Copy, Debug, PartialEq, Eq, Structural)]
pub enum MediaAction {
    /// It belongs to another generation: nothing.
    Discard,
    /// Its frame was given up: let reassembly forget what is out of date.
    ExpireOnly,
    /// Let reassembly forget what is out of date, then hand it the datagram.
    Reassemble(MediaTicket),
}

/// What to do after reassembly took a datagram.
#[derive(Clone, Copy, Debug, PartialEq, Eq, Structural)]
pub enum ReassemblyAction {
    Done,
    /// Hand the complete plane to the synchronizer.
    Synchronize,
}

/// What an accepted control message asks for.
#[derive(Clone, Debug, PartialEq, Eq)]
pub struct ControlOutcome {
    /// Messages to send back.
    pub responses: Vec<ControlMessage>,
    /// Reassembly and synchronizer are to start empty again.
    pub reset_media: bool,
}

/// One integer for a frame, ordered by generation and then by frame id.
pub fn frame_key(generation: u16, frame_id: u32) -> (key: u64)
    ensures
        key == crate::model::frame_key(generation, frame_id),
{
    generation as u64 * 0x1_0000_0000 + frame_id as u64
}

/// A duration in whole microseconds, as far as 32 bits hold it.
pub fn elapsed_us(duration_ns: u64) -> (micros: u32)
    ensures
        micros == crate::model::clamped_u32(duration_ns as int / 1_000),
{
    clamp_u32(duration_ns / 1_000)
}

/// `value` where it fits 32 bits, else the largest such value.
fn clamp_u32(value: u64) -> (clamped: u32)
    ensures
        clamped == crate::model::clamped_u32(value as int),
{
    if value <= u32::MAX as u64 {
        value as u32
    } else {
        u32::MAX
    }
}

/// `at` and `delay` later, or `at` itself where the clock cannot hold that.
fn later(at: u64, delay: u64) -> (time: u64)
    ensures
        time == crate::model::later(at, delay as int),
{
    match at.checked_add(delay) {
        Some(time) => time,
        None => at,
    }
}

/// A receiver session.
pub struct ReceiverCore {
    phase: SessionPhase,
    sender_capabilities: Option<MediaCapabilities>,
    configuration: Option<MediaConfiguration>,
    inflight_frames: BTreeMap<u64, InflightFrame>,
    dropped_frames: BTreeMap<u64, u64>,
    next_insertion_order: u64,
    clock_anchor: Option<(u64, u64)>,
    latest_ready: Option<PreparedFrame>,
    frame_received_at: BTreeMap<u64, u64>,
    request_idr_pending: bool,
    diagnostics: ReceiverDiagnostics,
    adaptive: AdaptiveController,
    published_window: VecDeque<u64>,
}

impl View for ReceiverCore {
    type V = CoreModel;

    closed spec fn view(&self) -> CoreModel {
        CoreModel {
            phase: self.phase,
            sender_capabilities: self.sender_capabilities,
            configuration: self.configuration,
            inflight: self.inflight_frames@,
            dropped: self.dropped_frames@,
            next_insertion_order: self.next_insertion_order,
            clock_anchor: self.clock_anchor,
            latest_ready: self.latest_ready,
            received_at: self.frame_received_at@,
            request_idr_pending: self.request_idr_pending,
            diagnostics: self.diagnostics,
            adaptive: self.adaptive,
            published_window: self.published_window@,
        }
    }
}

impl ReceiverCore {
    /// A session before its first message.
    pub fn new() -> (core: Self)
        ensures
            core@ == CoreModel::initial(),
            core@.inv(),
    {
        ReceiverCore {
            phase: SessionPhase::AwaitingHello,
            sender_capabilities: None,
            configuration: None,
            inflight_frames: BTreeMap::new(),
            dropped_frames: BTreeMap::new(),
            next_insertion_order: 0,
            clock_anchor: None,
            latest_ready: None,
            frame_received_at: BTreeMap::new(),
            request_idr_pending: false,
            diagnostics: ReceiverDiagnostics::default(),
            adaptive: AdaptiveController::unconfigured(),
            published_window: VecDeque::new(),
        }
    }

    /// Brings the reported buffer depth up to date.
    fn refresh_jitter_buffer_depth(&mut self)
        ensures
            final(self)@ == old(self)@.refreshed(),
    {
        let awaited: usize = self.inflight_frames.len();
        let ready: usize = if self.latest_ready.is_some() {
            1
        } else {
            0
        };
        let depth: usize = awaited.saturating_add(ready);
        self.diagnostics.jitter_buffer_depth = if depth <= u16::MAX as usize {
            depth as u16
        } else {
            u16::MAX
        };
    }

    /// Asks for a key frame, unless a request is still waiting.
    fn queue_idr_request(&mut self)
        ensures
            final(self)@ == old(self)@.idr_queued(),
    {
        if !self.request_idr_pending {
            self.diagnostics.idr_requests = self.diagnostics.idr_requests.saturating_add(1);
            self.request_idr_pending = true;
        }
    }

    /// Gives up an awaited frame.
    fn drop_incomplete_frame(&mut self, key: u64, late: bool)
        ensures
            final(self)@ == old(self)@.frame_dropped(key, late),
    {
        let frame: InflightFrame = match self.inflight_frames.remove(&key) {
            Some(frame) => frame,
            None => {
                assert(self@ =~= old(self)@);
                return;
            },
        };
        self.diagnostics.incomplete_frames = self.diagnostics.incomplete_frames.saturating_add(1);
        self.diagnostics.dropped_frames = self.diagnostics.dropped_frames.saturating_add(1);
        if late {
            self.diagnostics.late_frames = self.diagnostics.late_frames.saturating_add(1);
        }
        self.queue_idr_request();
        self.dropped_frames.insert(key, later(frame.deadline, MAX_PLAYOUT_HORIZON_NS));
        trim(&mut self.dropped_frames, MAX_DROPPED_FRAME_TOMBSTONES);
        self.refresh_jitter_buffer_depth();
    }

    /// How far the negotiation has come.
    pub fn phase(&self) -> (phase: SessionPhase)
        ensures
            phase == self@.phase,
    {
        self.phase
    }

    /// The stream that the sender announced.
    pub fn configuration(&self) -> (configuration: Option<&MediaConfiguration>)
        ensures
            match configuration {
                Some(configuration) => self@.configuration == Some(*configuration),
                None => self@.configuration is None,
            },
    {
        self.configuration.as_ref()
    }

    /// Counters and measurements of this session.
    pub fn diagnostics(&self) -> (diagnostics: &ReceiverDiagnostics)
        ensures
            *diagnostics == self@.diagnostics,
    {
        &self.diagnostics
    }

    /// What this receiver can handle.
    pub fn capabilities() -> (capabilities: MediaCapabilities)
        ensures
            crate::model::receiver_limits(capabilities),
    {
        let mut protocol_versions: Vec<u16> = Vec::new();
        protocol_versions.push(PROTOCOL_VERSION_V1);
        let mut color_codecs: Vec<ColorCodec> = Vec::new();
        color_codecs.push(ColorCodec::H264);
        let mut alpha_codecs: Vec<AlphaCodec> = Vec::new();
        alpha_codecs.push(AlphaCodec::A8T1);
        assert(protocol_versions@ =~= seq![PROTOCOL_VERSION_V1]);
        assert(color_codecs@ =~= seq![ColorCodec::H264]);
        assert(alpha_codecs@ =~= seq![AlphaCodec::A8T1]);
        MediaCapabilities {
            protocol_versions,
            color_codecs,
            alpha_codecs,
            max_width: MAX_WIDTH,
            max_height: MAX_HEIGHT,
            max_fps: MAX_FPS,
            hardware_decode: true,
            local_spout: true,
        }
    }

    /// Takes a control message. `validation` is the protocol's own verdict on
    /// the capabilities or the configuration that the message carries. A
    /// refused message changes nothing.
    pub fn handle_control(
        &mut self,
        message: ControlMessage,
        validation: Result<(), ProtocolError>,
    ) -> (result: Result<ControlOutcome, ReceiverError>)
        requires
            old(self)@.inv(),
        ensures
            final(self)@.inv(),
            match old(self)@.control_refusal(message, validation) {
                Some(error) => {
                    &&& result == Err::<ControlOutcome, ReceiverError>(error)
                    &&& final(self)@ == old(self)@
                },
                None => {
                    &&& result matches Ok(outcome)
                    &&& outcome.reset_media == crate::model::resets_media(message)
                    &&& crate::model::answers(message, outcome.responses@)
                    &&& final(self)@ == old(self)@.controlled(message)
                },
            },
    {
        if message.version != PROTOCOL_VERSION_V1 {
            return Err(ReceiverError::InvalidControl(ControlFault::UnsupportedVersion));
        }
        let mut responses: Vec<ControlMessage> = Vec::new();
        let mut reset_media: bool = false;
        match message.payload {
            ControlPayload::Hello { endpoint_nonce: _, supported_versions } => {
                if !has_version(&supported_versions, PROTOCOL_VERSION_V1) {
                    return Err(ReceiverError::InvalidControl(ControlFault::NoCommonVersion));
                }
                self.phase = SessionPhase::AwaitingConfiguration;
                responses.push(
                    ControlMessage::v1(ControlPayload::Capabilities(Self::capabilities())),
                );
            },
            ControlPayload::Configure(configuration) => {
                match self.apply_configuration(configuration, false, validation) {
                    Ok(_) => {},
                    Err(error) => return Err(error),
                }
                reset_media = true;
            },
            ControlPayload::Reconfigure(configuration) => {
                match self.apply_configuration(configuration, true, validation) {
                    Ok(_) => {},
                    Err(error) => return Err(error),
                }
                reset_media = true;
            },
            ControlPayload::Capabilities(capabilities) => {
                if self.phase != SessionPhase::AwaitingConfiguration {
                    return Err(
                        ReceiverError::InvalidControl(ControlFault::CapabilitiesOutsideNegotiation),
                    );
                }
                match validation {
                    Ok(_) => {},
                    Err(error) => return Err(ReceiverError::Protocol(error)),
                }
                if !capabilities.supports_v1() {
                    return Err(ReceiverError::UnsupportedConfiguration);
                }
                self.sender_capabilities = Some(capabilities);
            },
            ControlPayload::Start => {
                if self.configuration.is_none() {
                    return Err(ReceiverError::InvalidControl(ControlFault::StartBeforeConfigure));
                }
                self.phase = SessionPhase::Streaming;
            },
            ControlPayload::Stop => {
                self.phase = SessionPhase::Stopped;
                self.reset_media_state();
                reset_media = true;
            },
            ControlPayload::Ping { nonce, sent_at_us } => {
                responses.push(ControlMessage::v1(ControlPayload::Pong { nonce, sent_at_us }));
            },
            ControlPayload::Goodbye => {
                self.phase = SessionPhase::Closed;
                self.reset_media_state();
                reset_media = true;
            },
            _ => {
                return Err(ReceiverError::InvalidControl(ControlFault::ReceiverOnlyMessage));
            },
        }
        Ok(ControlOutcome { responses, reset_media })
    }

    /// Takes the header of a media datagram that arrived at `received_at`, or
    /// the protocol's refusal of it, and says what to do with the datagram.
    pub fn push_media_datagram(
        &mut self,
        header: Result<MediaChunkHeader, ProtocolError>,
        received_at: u64,
    ) -> (result: Result<MediaAction, ReceiverError>)
        requires
            old(self)@.inv(),
        ensures
            final(self)@.inv(),
            (final(self)@, result) == old(self)@.pushed(header, received_at),
    {
        if self.phase != SessionPhase::Streaming {
            return Err(ReceiverError::InvalidControl(ControlFault::MediaWhileNotStreaming));
        }
        let configuration: MediaConfiguration = match self.configuration {
            Some(configuration) => configuration,
            None => {
                return Err(ReceiverError::InvalidControl(ControlFault::MediaBeforeConfigure));
            },
        };
        let header: MediaChunkHeader = match header {
            Ok(header) => header,
            Err(error) => return Err(ReceiverError::Protocol(error)),
        };
        if header.generation != configuration.generation {
            self.diagnostics.dropped_frames = self.diagnostics.dropped_frames.saturating_add(1);
            return Ok(MediaAction::Discard);
        }
        let deadline: u64 = self.playout_deadline(header.pts_us, received_at, configuration.fps);
        let key: u64 = frame_key(header.generation, header.frame_id);
        self.expire(received_at);
        if self.dropped_frames.contains_key(&key) {
            return Ok(MediaAction::ExpireOnly);
        }
        self.track_inflight_frame(key, deadline, received_at);
        Ok(
            MediaAction::Reassemble(
                MediaTicket {
                    generation: header.generation,
                    frame_id: header.frame_id,
                    received_at,
                    deadline,
                    width: configuration.width,
                    height: configuration.height,
                },
            ),
        )
    }

    /// Takes what reassembly made of a datagram.
    pub fn note_reassembly(
        &mut self,
        ticket: &MediaTicket,
        outcome: Result<ReassemblyOutcome, ProtocolError>,
    ) -> (result: Result<ReassemblyAction, ReceiverError>)
        requires
            old(self)@.inv(),
        ensures
            final(self)@.inv(),
            (final(self)@, result) == old(self)@.reassembled(*ticket, outcome),
    {
        let outcome: ReassemblyOutcome = match outcome {
            Ok(outcome) => outcome,
            Err(error) => return Err(ReceiverError::Protocol(error)),
        };
        match outcome {
            ReassemblyOutcome::Pending | ReassemblyOutcome::Duplicate => {},
            ReassemblyOutcome::Completed { flow, frame_id } => {
                if flow == MediaFlow::Color {
                    self.diagnostics.last_complete_color_frame = Some(frame_id);
                } else if flow == MediaFlow::Alpha {
                    self.diagnostics.last_complete_alpha_frame = Some(frame_id);
                }
                return Ok(ReassemblyAction::Synchronize);
            },
            ReassemblyOutcome::DroppedExpired => {
                let key: u64 = frame_key(ticket.generation, ticket.frame_id);
                proof {
                    crate::model::lemma_frame_dropped(self@, key, true);
                }
                self.drop_incomplete_frame(key, true);
            },
            ReassemblyOutcome::DroppedOldGeneration => {
                self.diagnostics.dropped_frames = self.diagnostics.dropped_frames.saturating_add(1);
            },
        }
        self.refresh_jitter_buffer_depth();
        Ok(ReassemblyAction::Done)
    }

    /// Takes the verdict of the synchronizer on a complete plane: whether the
    /// other plane was there too. True asks for the alpha plane to be decoded.
    pub fn note_synchronization(
        &mut self,
        complete: Result<bool, ProtocolError>,
    ) -> (result: Result<bool, ReceiverError>)
        requires
            old(self)@.inv(),
        ensures
            final(self)@ == old(self)@,
            match complete {
                Ok(complete) => result == Ok::<bool, ReceiverError>(complete),
                Err(error) => result == Err::<bool, ReceiverError>(ReceiverError::Protocol(error)),
            },
    {
        match complete {
            Ok(complete) => Ok(complete),
            Err(error) => Err(ReceiverError::Protocol(error)),
        }
    }

    /// Takes the decoded alpha plane of a complete pair, or the protocol's
    /// refusal of it, and the time that decoding took. The pair becomes the one
    /// ready frame; a ready frame that nobody took is replaced.
    pub fn note_alpha(
        &mut self,
        ticket: &MediaTicket,
        pair: SynchronizedPair,
        alpha: Result<AlphaFrame, ProtocolError>,
        decode_ns: u64,
    ) -> (result: Result<(), ReceiverError>)
        requires
            old(self)@.inv(),
        ensures
            final(self)@.inv(),
            (final(self)@, result) == old(self)@.alpha_decoded(*ticket, pair, alpha, decode_ns),
    {
        let alpha: AlphaFrame = match alpha {
            Ok(alpha) => alpha,
            Err(error) => return Err(ReceiverError::Protocol(error)),
        };
        self.diagnostics.alpha_decode_cpu_us = elapsed_us(decode_ns);
        if alpha.generation != pair.generation || alpha.frame_id != pair.frame_id || alpha.pts_us
            != pair.pts_us || alpha.width != ticket.width || alpha.height != ticket.height {
            return Err(ReceiverError::InconsistentAlpha);
        }
        proof {
            crate::model::lemma_completed(self@, *ticket, pair, alpha);
        }
        let key: u64 = frame_key(pair.generation, pair.frame_id);
        let first_received_at: u64 = match self.inflight_frames.remove(&key) {
            Some(frame) => frame.first_received_at,
            None => ticket.received_at,
        };
        self.frame_received_at.insert(pair.frame_id as u64, first_received_at);
        trim(&mut self.frame_received_at, MAX_INCOMPLETE_FRAMES);
        if self.latest_ready.is_some() {
            self.diagnostics.replaced_ready_frames =
            self.diagnostics.replaced_ready_frames.saturating_add(1);
            self.diagnostics.dropped_frames = self.diagnostics.dropped_frames.saturating_add(1);
            self.diagnostics.latest_frame_drops =
            self.diagnostics.latest_frame_drops.saturating_add(1);
        }
        self.latest_ready = Some(
            PreparedFrame {
                generation: pair.generation,
                frame_id: pair.frame_id,
                pts_us: pair.pts_us,
                width: alpha.width,
                height: alpha.height,
                h264: pair.color,
                alpha: alpha.alpha,
                playout_at: ticket.deadline,
            },
        );
        self.diagnostics.completed_frames = self.diagnostics.completed_frames.saturating_add(1);
        self.refresh_jitter_buffer_depth();
        Ok(())
    }

    /// Gives up the awaited frames that are due at `now`, and forgets the
    /// given-up frames whose time has run out.
    pub fn expire(&mut self, now: u64)
        requires
            old(self)@.inv(),
        ensures
            final(self)@.inv(),
            final(self)@ == old(self)@.expired(now),
    {
        proof {
            crate::model::lemma_expired(self@, now);
        }
        let due: Vec<u64> = self.due_frames(now);
        let mut i: usize = 0;
        proof {
            assert(due@.take(0) =~= Seq::<u64>::empty());
        }
        while i < due.len()
            invariant
                i <= due@.len(),
                self@ == old(self)@.frames_late(due@.take(i as int)),
            decreases due@.len() - i,
        {
            self.drop_incomplete_frame(due[i], true);
            proof {
                assert(due@.take(i + 1).drop_last() =~= due@.take(i as int));
            }
            i += 1;
        }
        proof {
            assert(due@.take(i as int) =~= due@);
        }
        self.forget_tombstones(now);
        self.refresh_jitter_buffer_depth();
    }

    /// The ready frame, if it is to be shown by `now`.
    pub fn take_latest_frame(&mut self, now: u64) -> (frame: Option<PreparedFrame>)
        requires
            old(self)@.inv(),
        ensures
            final(self)@.inv(),
            (final(self)@, frame) == old(self)@.frame_taken(now),
    {
        let due: bool = match &self.latest_ready {
            Some(frame) => frame.playout_at <= now,
            None => false,
        };
        if due {
            let frame: Option<PreparedFrame> = self.latest_ready.take();
            self.refresh_jitter_buffer_depth();
            frame
        } else {
            None
        }
    }

    /// How many frames are ready: none or one.
    pub fn ready_queue_depth(&self) -> (depth: u16)
        ensures
            depth == if self@.latest_ready is Some { 1int } else { 0int },
    {
        if self.latest_ready.is_some() {
            1
        } else {
            0
        }
    }

    /// How many frames are awaited.
    pub fn inflight_frame_count(&self) -> (count: usize)
        ensures
            count == self@.inflight.dom().len(),
    {
        self.inflight_frames.len()
    }

    /// How many given-up frames are remembered.
    pub fn dropped_frame_count(&self) -> (count: usize)
        ensures
            count == self@.dropped.dom().len(),
    {
        self.dropped_frames.len()
    }

    /// When an awaited frame is given up at the latest.
    pub fn inflight_deadline(&self, generation: u16, frame_id: u32) -> (deadline: Option<u64>)
        ensures
            ({
                let key = crate::model::frame_key(generation, frame_id);
                deadline == if self@.inflight.contains_key(key) {
                    Some(self@.inflight[key].deadline)
                } else {
                    None
                }
            }),
    {
        let key: u64 = frame_key(generation, frame_id);
        match self.inflight_frames.get(&key) {
            Some(frame) => Some(frame.deadline),
            None => None,
        }
    }

    /// Counts a frame that could not be decoded, and asks for a key frame.
    pub fn note_decode_failure(&mut self)
        requires
            old(self)@.inv(),
        ensures
            final(self)@.inv(),
            final(self)@ == old(self)@.decode_failed(),
    {
        self.diagnostics.decode_failures = self.diagnostics.decode_failures.saturating_add(1);
        self.diagnostics.dropped_frames = self.diagnostics.dropped_frames.saturating_add(1);
        self.queue_idr_request();
    }

    /// Takes note that a frame was shown.
    pub fn note_published(&mut self, frame_id: u32, published_at: u64)
        requires
            old(self)@.inv(),
        ensures
            final(self)@.inv(),
            final(self)@ == old(self)@.published(frame_id, published_at),
    {
        self.diagnostics.last_published_frame = Some(frame_id);
        let id: u64 = frame_id as u64;
        match self.frame_received_at.remove(&id) {
            Some(received_at) => {
                let latency: u32 = elapsed_us(published_at.saturating_sub(received_at));
                self.diagnostics.playout_latency_us = latency;
                self.diagnostics.receive_to_publish_latency_us = latency;
            },
            None => {},
        }
        self.published_window.push_back(published_at);
        self.trim_published_window(published_at);
    }

    /// Counts a frame that the output was too busy to take.
    pub fn note_spout_skipped(&mut self)
        requires
            old(self)@.inv(),
        ensures
            final(self)@.inv(),
            final(self)@ == old(self)@.spout_skipped(),
    {
        self.diagnostics.dropped_frames = self.diagnostics.dropped_frames.saturating_add(1);
        self.diagnostics.latest_frame_drops = self.diagnostics.latest_frame_drops.saturating_add(1);
    }

    /// Takes the times that the output pipeline measured.
    pub fn update_pipeline_diagnostics(
        &mut self,
        color_decode_submit_cpu_us: u32,
        composite_enqueue_cpu_us: u32,
        spout_publish_cpu_us: u32,
    )
        requires
            old(self)@.inv(),
        ensures
            final(self)@.inv(),
            final(self)@ == old(self)@.pipeline_observed(
                color_decode_submit_cpu_us,
                composite_enqueue_cpu_us,
                spout_publish_cpu_us,
            ),
    {
        self.diagnostics.color_decode_submit_cpu_us = color_decode_submit_cpu_us;
        self.diagnostics.composite_enqueue_cpu_us = composite_enqueue_cpu_us;
        self.diagnostics.spout_publish_cpu_us = spout_publish_cpu_us;
    }

    /// Takes a measurement of the network, and adapts what is requested.
    pub fn update_network_diagnostics(
        &mut self,
        rtt_us: u64,
        jitter_us: u64,
        estimated_send_rate_bps: Option<u64>,
    )
        requires
            old(self)@.inv(),
        ensures
            final(self)@.inv(),
            final(self)@ == old(self)@.network_observed(rtt_us, jitter_us, estimated_send_rate_bps),
    {
        self.diagnostics.rtt_us = clamp_u32(rtt_us);
        self.diagnostics.jitter_us = clamp_u32(jitter_us);
        self.adaptive.observe(
            self.diagnostics.incomplete_frames,
            self.diagnostics.rtt_us,
            estimated_send_rate_bps,
        );
    }

    /// The request for a key frame, once for each time that one became needed.
    pub fn take_idr_request(&mut self) -> (request: Option<ControlMessage>)
        requires
            old(self)@.inv(),
        ensures
            final(self)@.inv(),
            final(self)@ == old(self)@.idr_taken(),
            request == old(self)@.idr_request(),
    {
        if !self.request_idr_pending {
            return None;
        }
        self.request_idr_pending = false;
        match &self.configuration {
            Some(configuration) => Some(
                ControlMessage::v1(
                    ControlPayload::RequestIdr { generation: configuration.generation },
                ),
            ),
            None => None,
        }
    }

    /// The report on this session at `now`.
    pub fn receiver_report(
        &mut self,
        now: u64,
        decode_queue_depth: u16,
        hardware_decode_active: bool,
    ) -> (report: ControlMessage)
        requires
            old(self)@.inv(),
        ensures
            final(self)@.inv(),
            final(self)@ == old(self)@.reported(now),
            report == old(self)@.report(decode_queue_depth, hardware_decode_active),
    {
        self.trim_published_window(now);
        let generation: u16 = match &self.configuration {
            Some(configuration) => configuration.generation,
            None => 0,
        };
        ControlMessage::v1(
            ControlPayload::ReceiverReport(
                ReceiverReport {
                    generation,
                    last_complete_color_frame: self.diagnostics.last_complete_color_frame,
                    last_complete_alpha_frame: self.diagnostics.last_complete_alpha_frame,
                    incomplete_frames: self.diagnostics.incomplete_frames,
                    dropped_frames: self.diagnostics.dropped_frames,
                    decode_queue_depth,
                    playout_latency_us: self.diagnostics.playout_latency_us,
                    rtt_us: self.diagnostics.rtt_us,
                    jitter_us: self.diagnostics.jitter_us,
                    hardware_decode_active,
                    requested_bitrate_bps: self.adaptive.requested_bitrate_bps,
                    requested_fps: self.adaptive.requested_fps,
                    requested_alpha_codec: AlphaCodec::A8T1,
                },
            ),
        )
    }

    /// Prepares the session for a new connection. Reassembly and synchronizer
    /// are to start empty again, too.
    pub fn reset_for_reconnect(&mut self)
        requires
            old(self)@.inv(),
        ensures
            final(self)@.inv(),
            final(self)@ == old(self)@.reconnected(),
    {
        self.phase = SessionPhase::AwaitingHello;
        self.sender_capabilities = None;
        self.configuration = None;
        self.adaptive = AdaptiveController::unconfigured();
        self.reset_media_state();
    }

    /// Takes a configuration that lies within what both sides can handle.
    fn apply_configuration(
        &mut self,
        configuration: MediaConfiguration,
        reconfigure: bool,
        validation: Result<(), ProtocolError>,
    ) -> (result: Result<(), ReceiverError>)
        requires
            old(self)@.inv(),
        ensures
            final(self)@.inv(),
            match old(self)@.configuration_refusal(configuration, validation) {
                Some(error) => {
                    &&& result == Err::<(), ReceiverError>(error)
                    &&& final(self)@ == old(self)@
                },
                None => {
                    &&& result is Ok
                    &&& final(self)@ == old(self)@.configured(configuration, reconfigure)
                },
            },
    {
        match validation {
            Ok(_) => {},
            Err(error) => return Err(ReceiverError::Protocol(error)),
        }
        let (max_width, max_height, max_fps): (u32, u32, u32) = match &self.sender_capabilities {
            Some(sender) => (sender.max_width, sender.max_height, sender.max_fps),
            None => {
                return Err(
                    ReceiverError::InvalidControl(ControlFault::ConfigureBeforeCapabilities),
                );
            },
        };
        if configuration.width > MAX_WIDTH || configuration.height > MAX_HEIGHT || configuration.fps
            > MAX_FPS || configuration.width > max_width || configuration.height > max_height
            || configuration.fps > max_fps {
            return Err(ReceiverError::UnsupportedConfiguration);
        }
        if reconfigure {
            self.adaptive.reconfigure(&configuration, self.diagnostics.incomplete_frames);
        } else {
            self.adaptive =
            AdaptiveController::new(&configuration, self.diagnostics.incomplete_frames);
        }
        self.configuration = Some(configuration);
        self.phase = SessionPhase::Configured;
        self.reset_media_state();
        Ok(())
    }

    /// Forgets all media.
    fn reset_media_state(&mut self)
        ensures
            final(self)@ == old(self)@.media_reset(),
    {
        self.inflight_frames.clear();
        self.dropped_frames.clear();
        self.clock_anchor = None;
        self.latest_ready = None;
        self.frame_received_at.clear();
        self.request_idr_pending = false;
        self.published_window.clear();
        self.refresh_jitter_buffer_depth();
    }

    /// When a frame that arrives now is to be shown; keeps the clock anchor.
    fn playout_deadline(&mut self, pts_us: u64, received_at: u64, fps: u32) -> (deadline: u64)
        ensures
            deadline == crate::model::playout_time(
                old(self)@.clock_anchor,
                pts_us,
                received_at,
                fps,
            ),
            final(self)@ == (CoreModel {
                clock_anchor: crate::model::next_anchor(
                    old(self)@.clock_anchor,
                    pts_us,
                    received_at,
                ),
                ..old(self)@
            }),
    {
        let divisor: u64 = if fps == 0 {
            1
        } else {
            fps as u64
        };
        let delay: u64 = 1_000_000 / divisor * 1_000;
        let fallback: u64 = later(received_at, delay);
        let (anchor_pts, anchor_time): (u64, u64) = match self.clock_anchor {
            Some(anchor) => anchor,
            None => {
                self.clock_anchor = Some((pts_us, received_at));
                return fallback;
            },
        };
        if pts_us < anchor_pts || pts_us - anchor_pts > MAX_PLAYOUT_HORIZON_US {
            self.clock_anchor = Some((pts_us, received_at));
            return fallback;
        }
        let offset: u64 = (pts_us - anchor_pts) * 1_000;
        match anchor_time.checked_add(offset + delay) {
            Some(deadline) => deadline,
            None => fallback,
        }
    }

    /// Awaits the frame `key`; the oldest awaited frame makes room for it.
    fn track_inflight_frame(&mut self, key: u64, deadline: u64, received_at: u64)
        requires
            old(self)@.inv(),
            !old(self)@.dropped.contains_key(key),
        ensures
            final(self)@.inv(),
            final(self)@ == old(self)@.awaited(key, deadline, received_at),
    {
        proof {
            crate::model::lemma_awaited(self@, key, deadline, received_at);
        }
        let known: Option<InflightFrame> = match self.inflight_frames.get(&key) {
            Some(frame) => Some(*frame),
            None => None,
        };
        match known {
            Some(frame) => {
                let earlier: u64 = if frame.deadline <= deadline {
                    frame.deadline
                } else {
                    deadline
                };
                self.inflight_frames.insert(
                    key,
                    InflightFrame {
                        deadline: earlier,
                        insertion_order: frame.insertion_order,
                        first_received_at: frame.first_received_at,
                    },
                );
                return;
            },
            None => {},
        }
        if self.inflight_frames.len() >= MAX_INCOMPLETE_FRAMES {
            let oldest: u64 = self.oldest_inflight_frame();
            self.drop_incomplete_frame(oldest, false);
        }
        let insertion_order: u64 = self.next_insertion_order;
        self.next_insertion_order = if insertion_order < u64::MAX {
            insertion_order + 1
        } else {
            0
        };
        self.inflight_frames.insert(
            key,
            InflightFrame { deadline, insertion_order, first_received_at: received_at },
        );
        self.refresh_jitter_buffer_depth();
    }

    /// The awaited frame that came first.
    fn oldest_inflight_frame(&self) -> (key: u64)
        requires
            self@.inflight.dom().len() > 0,
        ensures
            key == crate::model::oldest_key(self@.inflight),
    {
        let keys: Vec<u64> = keys_of(&self.inflight_frames);
        let mut oldest: u64 = keys[0];
        proof {
            assert(keys@.to_set().contains(keys@[0]));
            assert(keys@.take(1)[0] == oldest);
        }
        let mut least: u64 = match self.inflight_frames.get(&oldest) {
            Some(frame) => frame.insertion_order,
            None => 0,
        };
        let mut i: usize = 1;
        while i < keys.len()
            invariant
                1 <= i <= keys@.len(),
                crate::ordered::lists(keys@, self@.inflight.dom()),
                keys@.take(i as int).contains(oldest),
                self@.inflight.contains_key(oldest),
                least == self@.inflight[oldest].insertion_order,
                forall|k: int|
                    0 <= k < i ==> least < self@.inflight[#[trigger] keys@[k]].insertion_order || (
                    least == self@.inflight[keys@[k]].insertion_order && oldest <= keys@[k]),
            decreases keys@.len() - i,
        {
            let key: u64 = keys[i];
            proof {
                assert(keys@.to_set().contains(keys@[i as int]));
                let k = keys@.take(i as int).index_of(oldest);
                assert(keys@[k] == oldest);
                assert(keys@.take(i + 1)[k] == oldest);
                assert(keys@.take(i + 1)[i as int] == key);
            }
            let order: u64 = match self.inflight_frames.get(&key) {
                Some(frame) => frame.insertion_order,
                None => 0,
            };
            if order < least {
                oldest = key;
                least = order;
            }
            i += 1;
        }
        proof {
            assert forall|other: u64| #[trigger] self@.inflight.contains_key(other) implies least
                < self@.inflight[other].insertion_order || (least
                == self@.inflight[other].insertion_order && oldest <= other) by {
                assert(keys@.to_set().contains(other));
                let k = keys@.index_of(other);
                assert(keys@[k] == other);
            }
            crate::model::lemma_oldest_is_unique(self@.inflight, oldest);
        }
        oldest
    }

    /// The awaited frames that are due at `now`, in order.
    fn due_frames(&self, now: u64) -> (due: Vec<u64>)
        ensures
            due@ == crate::model::due_keys(self@.inflight, now),
    {
        let keys: Vec<u64> = keys_of(&self.inflight_frames);
        let ghost is_due = |key: u64| self@.inflight[key].deadline <= now;
        let mut due: Vec<u64> = Vec::new();
        let mut i: usize = 0;
        proof {
            assert(keys@.take(0).filter(is_due) =~= Seq::<u64>::empty()) by {
                reveal(Seq::filter);
            }
        }
        while i < keys.len()
            invariant
                i <= keys@.len(),
                crate::ordered::lists(keys@, self@.inflight.dom()),
                is_due == (|key: u64| self@.inflight[key].deadline <= now),
                due@ == keys@.take(i as int).filter(is_due),
            decreases keys@.len() - i,
        {
            let key: u64 = keys[i];
            proof {
                assert(keys@.to_set().contains(keys@[i as int]));
                reveal(Seq::filter);
                assert(keys@.take(i + 1).drop_last() =~= keys@.take(i as int));
                assert(keys@.take(i + 1).last() == key);
            }
            let late: bool = match self.inflight_frames.get(&key) {
                Some(frame) => frame.deadline <= now,
                None => false,
            };
            if late {
                due.push(key);
            }
            i += 1;
        }
        proof {
            assert(keys@.take(i as int) =~= keys@);
        }
        due
    }

    /// Forgets the given-up frames whose time has run out at `now`.
    fn forget_tombstones(&mut self, now: u64)
        ensures
            final(self)@ == (CoreModel {
                dropped: old(self)@.dropped.filter_keys(
                    |key: u64| old(self)@.dropped[key] > now,
                ),
                ..old(self)@
            }),
    {
        let keys: Vec<u64> = keys_of(&self.dropped_frames);
        let mut gone: Vec<u64> = Vec::new();
        let mut i: usize = 0;
        while i < keys.len()
            invariant
                i <= keys@.len(),
                crate::ordered::lists(keys@, self@.dropped.dom()),
                forall|key: u64| #[trigger]
                    gone@.contains(key) <==> keys@.take(i as int).contains(key)
                        && self@.dropped[key] <= now,
            decreases keys@.len() - i,
        {
            let key: u64 = keys[i];
            let ghost before = gone@;
            proof {
                assert(keys@.to_set().contains(keys@[i as int]));
            }
            let run_out: bool = match self.dropped_frames.get(&key) {
                Some(until) => *until <= now,
                None => false,
            };
            if run_out {
                gone.push(key);
            }
            proof {
                let shorter = keys@.take(i as int);
                let longer = keys@.take(i + 1);
                assert(longer =~= shorter.push(key));
                assert forall|x: u64| longer.contains(x) <==> shorter.contains(x) || x == key by {
                    if shorter.contains(x) {
                        assert(longer[shorter.index_of(x)] == x);
                    }
                    assert(longer[i as int] == key);
                }
                assert forall|x: u64| #[trigger] gone@.contains(x) <==> before.contains(x) || (
                run_out && x == key) by {
                    if before.contains(x) {
                        assert(gone@[before.index_of(x)] == x);
                    }
                    if run_out {
                        assert(gone@[before.len() as int] == key);
                    }
                }
                assert forall|x: u64| #[trigger] gone@.contains(x) <==> longer.contains(x)
                    && self@.dropped[x] <= now by {
                    assert(longer.contains(x) <==> shorter.contains(x) || x == key);
                    assert(before.contains(x) <==> shorter.contains(x) && self@.dropped[x] <= now);
                }
            }
            i += 1;
        }
        let ghost dropped = self@.dropped;
        proof {
            assert(keys@.take(i as int) =~= keys@);
        }
        remove_all(&mut self.dropped_frames, &gone);
        proof {
            assert forall|key: u64| dropped.contains_key(key) && !gone@.to_set().contains(key)
                <==> dropped.contains_key(key) && dropped[key] > now by {
                assert(gone@.to_set().contains(key) <==> gone@.contains(key));
                if dropped.contains_key(key) {
                    assert(keys@.to_set().contains(key));
                }
            }
            assert(self@.dropped =~= dropped.filter_keys(|key: u64| dropped[key] > now));
        }
    }

    /// Forgets shown frames that lie too far back, and counts the rest.
    fn trim_published_window(&mut self, now: u64)
        ensures
            final(self)@ == old(self)@.reported(now),
    {
        let ghost window = self.published_window@;
        while self.published_window.len() > 0 && now.saturating_sub(self.published_window[0])
            > PUBLISH_WINDOW_NS
            invariant
                crate::model::recent(self.published_window@, now) == crate::model::recent(
                    window,
                    now,
                ),
                self@ == (CoreModel {
                    published_window: self.published_window@,
                    ..old(self)@
                }),
            decreases self.published_window@.len(),
        {
            self.published_window.pop_front();
        }
        self.diagnostics.complete_frame_fps = clamp_u32(self.published_window.len() as u64);
    }
}

} // verus!
