//! What a receiver session is, and what each event makes of it.
//!
//! A point in time is a number of nanoseconds on the receiver's monotonic
//! clock.
use crate::adaptive::AdaptiveController;
use crate::receiver::{
    ControlFault, MediaAction, MediaTicket, PreparedFrame, ReassemblyAction, ReceiverDiagnostics,
    ReceiverError, SessionPhase, MAX_DROPPED_FRAME_TOMBSTONES, MAX_FPS, MAX_HEIGHT,
    MAX_INCOMPLETE_FRAMES, MAX_PLAYOUT_HORIZON_NS, MAX_PLAYOUT_HORIZON_US, MAX_WIDTH,
    PUBLISH_WINDOW_NS,
};
use crate::wire::{
    AlphaFrame, ControlMessage, ControlPayload, MediaCapabilities, MediaChunkHeader,
    MediaConfiguration, MediaFlow, ProtocolError, ReassemblyOutcome, ReceiverReport,
    SynchronizedPair, PROTOCOL_VERSION_V1,
};
use vstd::prelude::*;

verus! {

/// A frame of which at least one datagram came, and which is not complete.
#[derive(Clone, Copy, Debug, PartialEq, Eq, Structural)]
pub struct InflightFrame {
    pub deadline: u64,
    pub insertion_order: u64,
    pub first_received_at: u64,
}

/// The state of a receiver session. Frames are keyed by [`frame_key`].
#[verifier::ext_equal]
pub ghost struct CoreModel {
    pub phase: SessionPhase,
    pub sender_capabilities: Option<MediaCapabilities>,
    pub configuration: Option<MediaConfiguration>,
    pub inflight: Map<u64, InflightFrame>,
    /// Frames that were given up, until the time from which they may return.
    pub dropped: Map<u64, u64>,
    pub next_insertion_order: u64,
    /// A presentation time, and the time at which it arrived.
    pub clock_anchor: Option<(u64, u64)>,
    pub latest_ready: Option<PreparedFrame>,
    /// When the first datagram of each complete frame came, by frame id.
    pub received_at: Map<u64, u64>,
    pub request_idr_pending: bool,
    pub diagnostics: ReceiverDiagnostics,
    pub adaptive: AdaptiveController,
    pub published_window: Seq<u64>,
}

/// One integer for a frame, ordered by generation and then by frame id.
pub open spec fn frame_key(generation: u16, frame_id: u32) -> u64 {
    (generation * 0x1_0000_0000 + frame_id) as u64
}

/// `count` and one more, unless it is at its limit.
pub open spec fn counted(count: u64) -> u64 {
    if count < u64::MAX {
        (count + 1) as u64
    } else {
        count
    }
}

/// `value` where it fits 32 bits, else the largest such value.
pub open spec fn clamped_u32(value: int) -> u32 {
    if value <= u32::MAX {
        value as u32
    } else {
        u32::MAX
    }
}

/// `value` where it fits 16 bits, else the largest such value.
pub open spec fn clamped_u16(value: int) -> u16 {
    if value <= u16::MAX {
        value as u16
    } else {
        u16::MAX
    }
}

/// `at` and `delay` later, or `at` itself where the clock cannot hold that.
pub open spec fn later(at: u64, delay: int) -> u64 {
    if at + delay <= u64::MAX {
        (at + delay) as u64
    } else {
        at
    }
}

/// How long one frame is shown.
pub open spec fn frame_delay(fps: u32) -> int {
    1_000_000int / (if fps == 0 { 1int } else { fps as int }) * 1_000
}

/// The anchor places `pts_us` within the playout horizon.
pub open spec fn anchored(anchor: Option<(u64, u64)>, pts_us: u64) -> bool {
    match anchor {
        Some((anchor_pts, _)) => anchor_pts <= pts_us <= anchor_pts + MAX_PLAYOUT_HORIZON_US,
        None => false,
    }
}

/// When a frame is to be shown: one frame after the time at which its
/// presentation time falls due by the anchor, or one frame after its arrival
/// where the anchor does not place it.
pub open spec fn playout_time(
    anchor: Option<(u64, u64)>,
    pts_us: u64,
    received_at: u64,
    fps: u32,
) -> u64 {
    let (anchor_pts, anchor_time) = anchor->Some_0;
    let due = anchor_time + (pts_us - anchor_pts) * 1_000 + frame_delay(fps);
    if anchored(anchor, pts_us) && due <= u64::MAX {
        due as u64
    } else {
        later(received_at, frame_delay(fps))
    }
}

/// The anchor after a frame with `pts_us` arrived.
pub open spec fn next_anchor(anchor: Option<(u64, u64)>, pts_us: u64, received_at: u64) -> Option<
    (u64, u64),
> {
    if anchored(anchor, pts_us) {
        anchor
    } else {
        Some((pts_us, received_at))
    }
}

/// `key` came before every other frame of `inflight`.
pub open spec fn is_oldest(inflight: Map<u64, InflightFrame>, key: u64) -> bool {
    &&& inflight.contains_key(key)
    &&& forall|other: u64| #[trigger]
        inflight.contains_key(other) ==> inflight[key].insertion_order
            < inflight[other].insertion_order || (inflight[key].insertion_order
            == inflight[other].insertion_order && key <= other)
}

/// The frame of `inflight` that came first.
pub open spec fn oldest_key(inflight: Map<u64, InflightFrame>) -> u64 {
    choose|key: u64| is_oldest(inflight, key)
}

/// The keys of `inflight`, in order, that are due by `now`.
pub open spec fn due_keys(inflight: Map<u64, InflightFrame>, now: u64) -> Seq<u64> {
    crate::ordered::sorted_keys(inflight).filter(|key: u64| inflight[key].deadline <= now)
}

/// `window` without its leading entries that are too old at `now`.
pub open spec fn recent(window: Seq<u64>, now: u64) -> Seq<u64>
    decreases window.len(),
{
    if window.len() > 0 && now - window[0] > PUBLISH_WINDOW_NS {
        recent(window.subrange(1, window.len() as int), now)
    } else {
        window
    }
}

/// Whether a control message makes the receiver forget all media.
pub open spec fn resets_media(message: ControlMessage) -> bool {
    message.payload is Configure || message.payload is Reconfigure || message.payload is Stop
        || message.payload is Goodbye
}

/// What this receiver can handle.
pub open spec fn receiver_limits(capabilities: MediaCapabilities) -> bool {
    &&& capabilities.protocol_versions@ == seq![PROTOCOL_VERSION_V1]
    &&& capabilities.color_codecs@ == seq![crate::wire::ColorCodec::H264]
    &&& capabilities.alpha_codecs@ == seq![crate::wire::AlphaCodec::A8T1]
    &&& capabilities.max_width == MAX_WIDTH
    &&& capabilities.max_height == MAX_HEIGHT
    &&& capabilities.max_fps == MAX_FPS
    &&& capabilities.hardware_decode
    &&& capabilities.local_spout
}

/// What an accepted control message is answered: a greeting by the receiver's
/// capabilities, a ping by its pong, anything else by nothing.
pub open spec fn answers(message: ControlMessage, responses: Seq<ControlMessage>) -> bool {
    match message.payload {
        ControlPayload::Hello { .. } => {
            &&& responses.len() == 1
            &&& responses[0].version == PROTOCOL_VERSION_V1
            &&& responses[0].payload matches ControlPayload::Capabilities(capabilities)
                && receiver_limits(capabilities)
        },
        ControlPayload::Ping { nonce, sent_at_us } => responses == seq![
            ControlMessage {
                version: PROTOCOL_VERSION_V1,
                payload: ControlPayload::Pong { nonce, sent_at_us },
            },
        ],
        _ => responses.len() == 0,
    }
}

/// The configuration lies within what the receiver and the sender can handle.
pub open spec fn within_limits(
    configuration: MediaConfiguration,
    sender: MediaCapabilities,
) -> bool {
    &&& configuration.width <= MAX_WIDTH
    &&& configuration.height <= MAX_HEIGHT
    &&& configuration.fps <= MAX_FPS
    &&& configuration.width <= sender.max_width
    &&& configuration.height <= sender.max_height
    &&& configuration.fps <= sender.max_fps
}

/// A decoded alpha plane belongs to the frame that it came with.
pub open spec fn alpha_matches(ticket: MediaTicket, pair: SynchronizedPair, alpha: AlphaFrame) -> bool {
    &&& alpha.generation == pair.generation
    &&& alpha.frame_id == pair.frame_id
    &&& alpha.pts_us == pair.pts_us
    &&& alpha.width == ticket.width
    &&& alpha.height == ticket.height
}

impl CoreModel {
    /// A session before its first message.
    pub open spec fn initial() -> Self {
        CoreModel {
            phase: SessionPhase::AwaitingHello,
            sender_capabilities: None,
            configuration: None,
            inflight: Map::empty(),
            dropped: Map::empty(),
            next_insertion_order: 0,
            clock_anchor: None,
            latest_ready: None,
            received_at: Map::empty(),
            request_idr_pending: false,
            diagnostics: ReceiverDiagnostics::zero(),
            adaptive: AdaptiveController::idle(),
            published_window: Seq::empty(),
        }
    }

    /// What holds of every session at every time: all media state is bounded,
    /// the reported buffer depth is the true one, no frame is both awaited and
    /// given up, and media flows only under a configuration that the receiver
    /// can handle.
    pub open spec fn inv(self) -> bool {
        &&& self.inflight.dom().finite()
        &&& self.inflight.dom().len() <= MAX_INCOMPLETE_FRAMES
        &&& self.dropped.dom().finite()
        &&& self.dropped.dom().len() <= MAX_DROPPED_FRAME_TOMBSTONES
        &&& self.received_at.dom().finite()
        &&& self.received_at.dom().len() <= MAX_INCOMPLETE_FRAMES
        &&& forall|key: u64| #[trigger]
            self.inflight.contains_key(key) ==> !self.dropped.contains_key(key)
        &&& self.diagnostics.jitter_buffer_depth == self.buffered()
        &&& self.phase == SessionPhase::Streaming ==> self.configuration is Some
        &&& self.configuration matches Some(configuration) ==> {
            &&& configuration.width <= MAX_WIDTH
            &&& configuration.height <= MAX_HEIGHT
            &&& configuration.fps <= MAX_FPS
        }
        &&& self.adaptive.nominal_fps <= MAX_FPS
    }

    /// The frames that are awaited or ready.
    pub open spec fn buffered(self) -> int {
        self.inflight.dom().len() + if self.latest_ready is Some { 1int } else { 0int }
    }

    /// The reported buffer depth brought up to date.
    pub open spec fn refreshed(self) -> Self {
        CoreModel {
            diagnostics: ReceiverDiagnostics {
                jitter_buffer_depth: clamped_u16(self.buffered()),
                ..self.diagnostics
            },
            ..self
        }
    }

    /// One more frame counted as dropped.
    pub open spec fn drop_counted(self) -> Self {
        CoreModel {
            diagnostics: ReceiverDiagnostics {
                dropped_frames: counted(self.diagnostics.dropped_frames),
                ..self.diagnostics
            },
            ..self
        }
    }

    /// A key frame is wanted; a request that is still waiting stands for it.
    pub open spec fn idr_queued(self) -> Self {
        if self.request_idr_pending {
            self
        } else {
            CoreModel {
                request_idr_pending: true,
                diagnostics: ReceiverDiagnostics {
                    idr_requests: counted(self.diagnostics.idr_requests),
                    ..self.diagnostics
                },
                ..self
            }
        }
    }

    /// An awaited frame is given up: it is counted, a key frame is wanted, and
    /// what still comes of it is ignored until its tombstone runs out.
    pub open spec fn frame_dropped(self, key: u64, late: bool) -> Self {
        if !self.inflight.contains_key(key) {
            self
        } else {
            let marked = CoreModel {
                inflight: self.inflight.remove(key),
                diagnostics: ReceiverDiagnostics {
                    incomplete_frames: counted(self.diagnostics.incomplete_frames),
                    dropped_frames: counted(self.diagnostics.dropped_frames),
                    late_frames: if late {
                        counted(self.diagnostics.late_frames)
                    } else {
                        self.diagnostics.late_frames
                    },
                    ..self.diagnostics
                },
                ..self
            }.idr_queued();
            CoreModel {
                dropped: crate::ordered::keep_largest(
                    self.dropped.insert(
                        key,
                        later(self.inflight[key].deadline, MAX_PLAYOUT_HORIZON_NS as int),
                    ),
                    MAX_DROPPED_FRAME_TOMBSTONES as nat,
                ),
                ..marked
            }.refreshed()
        }
    }

    /// Several awaited frames are given up for being late, one after the other.
    pub open spec fn frames_late(self, keys: Seq<u64>) -> Self
        decreases keys.len(),
    {
        if keys.len() == 0 {
            self
        } else {
            self.frames_late(keys.drop_last()).frame_dropped(keys.last(), true)
        }
    }

    /// The session at `now`: awaited frames that are due are given up, and
    /// tombstones that have run out are gone.
    pub open spec fn expired(self, now: u64) -> Self {
        let late = self.frames_late(due_keys(self.inflight, now));
        CoreModel {
            dropped: late.dropped.filter_keys(|key: u64| late.dropped[key] > now),
            ..late
        }.refreshed()
    }

    /// Room for one more awaited frame, by giving up the oldest one.
    pub open spec fn made_room(self) -> Self {
        if self.inflight.dom().len() >= MAX_INCOMPLETE_FRAMES {
            self.frame_dropped(oldest_key(self.inflight), false)
        } else {
            self
        }
    }

    /// A datagram of the frame `key` came.
    pub open spec fn awaited(self, key: u64, deadline: u64, received_at: u64) -> Self {
        if self.inflight.contains_key(key) {
            let frame = self.inflight[key];
            CoreModel {
                inflight: self.inflight.insert(
                    key,
                    InflightFrame {
                        deadline: if frame.deadline <= deadline {
                            frame.deadline
                        } else {
                            deadline
                        },
                        ..frame
                    },
                ),
                ..self
            }
        } else {
            let room = self.made_room();
            CoreModel {
                inflight: room.inflight.insert(
                    key,
                    InflightFrame {
                        deadline,
                        insertion_order: room.next_insertion_order,
                        first_received_at: received_at,
                    },
                ),
                next_insertion_order: if room.next_insertion_order < u64::MAX {
                    (room.next_insertion_order + 1) as u64
                } else {
                    0
                },
                ..room
            }.refreshed()
        }
    }

    /// The session, and what is to be done with a media datagram, once its
    /// header was read.
    pub open spec fn pushed(
        self,
        header: Result<MediaChunkHeader, ProtocolError>,
        received_at: u64,
    ) -> (Self, Result<MediaAction, ReceiverError>) {
        if self.phase != SessionPhase::Streaming {
            (
                self,
                Err(ReceiverError::InvalidControl(ControlFault::MediaWhileNotStreaming)),
            )
        } else {
            match (self.configuration, header) {
                (None, _) => (
                    self,
                    Err(ReceiverError::InvalidControl(ControlFault::MediaBeforeConfigure)),
                ),
                (_, Err(error)) => (self, Err(ReceiverError::Protocol(error))),
                (Some(configuration), Ok(header)) => if header.generation
                    != configuration.generation {
                    (self.drop_counted(), Ok(MediaAction::Discard))
                } else {
                    let deadline = playout_time(
                        self.clock_anchor,
                        header.pts_us,
                        received_at,
                        configuration.fps,
                    );
                    let key = frame_key(header.generation, header.frame_id);
                    let current = CoreModel {
                        clock_anchor: next_anchor(self.clock_anchor, header.pts_us, received_at),
                        ..self
                    }.expired(received_at);
                    if current.dropped.contains_key(key) {
                        (current, Ok(MediaAction::ExpireOnly))
                    } else {
                        (
                            current.awaited(key, deadline, received_at),
                            Ok(
                                MediaAction::Reassemble(
                                    MediaTicket {
                                        generation: header.generation,
                                        frame_id: header.frame_id,
                                        received_at,
                                        deadline,
                                        width: configuration.width,
                                        height: configuration.height,
                                    },
                                ),
                            ),
                        )
                    }
                },
            }
        }
    }

    /// The session, and what is to be done next, after a datagram was handed to
    /// reassembly.
    pub open spec fn reassembled(
        self,
        ticket: MediaTicket,
        outcome: Result<ReassemblyOutcome, ProtocolError>,
    ) -> (Self, Result<ReassemblyAction, ReceiverError>) {
        match outcome {
            Err(error) => (self, Err(ReceiverError::Protocol(error))),
            Ok(ReassemblyOutcome::Pending) => (self.refreshed(), Ok(ReassemblyAction::Done)),
            Ok(ReassemblyOutcome::Duplicate) => (self.refreshed(), Ok(ReassemblyAction::Done)),
            Ok(ReassemblyOutcome::Completed { flow, frame_id }) => (
                CoreModel {
                    diagnostics: ReceiverDiagnostics {
                        last_complete_color_frame: if flow == MediaFlow::Color {
                            Some(frame_id)
                        } else {
                            self.diagnostics.last_complete_color_frame
                        },
                        last_complete_alpha_frame: if flow == MediaFlow::Alpha {
                            Some(frame_id)
                        } else {
                            self.diagnostics.last_complete_alpha_frame
                        },
                        ..self.diagnostics
                    },
                    ..self
                },
                Ok(ReassemblyAction::Synchronize),
            ),
            Ok(ReassemblyOutcome::DroppedExpired) => (
                self.frame_dropped(frame_key(ticket.generation, ticket.frame_id), true).refreshed(),
                Ok(ReassemblyAction::Done),
            ),
            Ok(ReassemblyOutcome::DroppedOldGeneration) => (
                self.drop_counted().refreshed(),
                Ok(ReassemblyAction::Done),
            ),
        }
    }

    /// A complete, decoded pair becomes the one ready frame.
    pub open spec fn completed(self, ticket: MediaTicket, pair: SynchronizedPair, alpha: AlphaFrame) -> Self {
        let key = frame_key(pair.generation, pair.frame_id);
        let replaced = self.latest_ready is Some;
        CoreModel {
            inflight: self.inflight.remove(key),
            received_at: crate::ordered::keep_largest(
                self.received_at.insert(
                    pair.frame_id as u64,
                    if self.inflight.contains_key(key) {
                        self.inflight[key].first_received_at
                    } else {
                        ticket.received_at
                    },
                ),
                MAX_INCOMPLETE_FRAMES as nat,
            ),
            latest_ready: Some(
                PreparedFrame {
                    generation: pair.generation,
                    frame_id: pair.frame_id,
                    pts_us: pair.pts_us,
                    width: alpha.width,
                    height: alpha.height,
                    h264: pair.color,
                    alpha: alpha.alpha,
                    playout_at: ticket.deadline,
                },
            ),
            diagnostics: ReceiverDiagnostics {
                replaced_ready_frames: if replaced {
                    counted(self.diagnostics.replaced_ready_frames)
                } else {
                    self.diagnostics.replaced_ready_frames
                },
                dropped_frames: if replaced {
                    counted(self.diagnostics.dropped_frames)
                } else {
                    self.diagnostics.dropped_frames
                },
                latest_frame_drops: if replaced {
                    counted(self.diagnostics.latest_frame_drops)
                } else {
                    self.diagnostics.latest_frame_drops
                },
                completed_frames: counted(self.diagnostics.completed_frames),
                ..self.diagnostics
            },
            ..self
        }.refreshed()
    }

    /// The session after the alpha plane of a complete pair was decoded.
    pub open spec fn alpha_decoded(
        self,
        ticket: MediaTicket,
        pair: SynchronizedPair,
        alpha: Result<AlphaFrame, ProtocolError>,
        decode_ns: u64,
    ) -> (Self, Result<(), ReceiverError>) {
        match alpha {
            Err(error) => (self, Err(ReceiverError::Protocol(error))),
            Ok(alpha) => {
                let timed = CoreModel {
                    diagnostics: ReceiverDiagnostics {
                        alpha_decode_cpu_us: clamped_u32(decode_ns as int / 1_000),
                        ..self.diagnostics
                    },
                    ..self
                };
                if alpha_matches(ticket, pair, alpha) {
                    (timed.completed(ticket, pair, alpha), Ok(()))
                } else {
                    (timed, Err(ReceiverError::InconsistentAlpha))
                }
            },
        }
    }

    /// The session after the ready frame was asked for at `now`.
    pub open spec fn frame_taken(self, now: u64) -> (Self, Option<PreparedFrame>) {
        match self.latest_ready {
            Some(frame) => if frame.playout_at <= now {
                (CoreModel { latest_ready: None, ..self }.refreshed(), Some(frame))
            } else {
                (self, None)
            },
            None => (self, None),
        }
    }

    /// The session after a frame was shown.
    pub open spec fn published(self, frame_id: u32, published_at: u64) -> Self {
        let known = self.received_at.contains_key(frame_id as u64);
        let since = published_at - self.received_at[frame_id as u64];
        let latency = clamped_u32(if since > 0 { since / 1_000 } else { 0 });
        let window = recent(self.published_window.push(published_at), published_at);
        CoreModel {
            received_at: self.received_at.remove(frame_id as u64),
            published_window: window,
            diagnostics: ReceiverDiagnostics {
                last_published_frame: Some(frame_id),
                playout_latency_us: if known {
                    latency
                } else {
                    self.diagnostics.playout_latency_us
                },
                receive_to_publish_latency_us: if known {
                    latency
                } else {
                    self.diagnostics.receive_to_publish_latency_us
                },
                complete_frame_fps: clamped_u32(window.len() as int),
                ..self.diagnostics
            },
            ..self
        }
    }

    /// The session after a frame could not be decoded.
    pub open spec fn decode_failed(self) -> Self {
        CoreModel {
            diagnostics: ReceiverDiagnostics {
                decode_failures: counted(self.diagnostics.decode_failures),
                dropped_frames: counted(self.diagnostics.dropped_frames),
                ..self.diagnostics
            },
            ..self
        }.idr_queued()
    }

    /// The session after the output was too busy to take a frame.
    pub open spec fn spout_skipped(self) -> Self {
        CoreModel {
            diagnostics: ReceiverDiagnostics {
                dropped_frames: counted(self.diagnostics.dropped_frames),
                latest_frame_drops: counted(self.diagnostics.latest_frame_drops),
                ..self.diagnostics
            },
            ..self
        }
    }

    /// The session after the output pipeline was measured.
    pub open spec fn pipeline_observed(
        self,
        color_decode_submit_cpu_us: u32,
        composite_enqueue_cpu_us: u32,
        spout_publish_cpu_us: u32,
    ) -> Self {
        CoreModel {
            diagnostics: ReceiverDiagnostics {
                color_decode_submit_cpu_us,
                composite_enqueue_cpu_us,
                spout_publish_cpu_us,
                ..self.diagnostics
            },
            ..self
        }
    }

    /// The session after the network was measured.
    pub open spec fn network_observed(self, rtt_us: u64, jitter_us: u64, estimate: Option<u64>) -> Self {
        CoreModel {
            diagnostics: ReceiverDiagnostics {
                rtt_us: clamped_u32(rtt_us as int),
                jitter_us: clamped_u32(jitter_us as int),
                ..self.diagnostics
            },
            adaptive: self.adaptive.observed(
                self.diagnostics.incomplete_frames,
                clamped_u32(rtt_us as int),
                estimate,
            ),
            ..self
        }
    }

    /// The session after the key frame request was collected.
    pub open spec fn idr_taken(self) -> Self {
        CoreModel { request_idr_pending: false, ..self }
    }

    /// The request that is collected, if one is waiting.
    pub open spec fn idr_request(self) -> Option<ControlMessage> {
        match self.configuration {
            Some(configuration) => if self.request_idr_pending {
                Some(
                    ControlMessage {
                        version: PROTOCOL_VERSION_V1,
                        payload: ControlPayload::RequestIdr {
                            generation: configuration.generation,
                        },
                    },
                )
            } else {
                None
            },
            None => None,
        }
    }

    /// The session after a report at `now`.
    pub open spec fn reported(self, now: u64) -> Self {
        let window = recent(self.published_window, now);
        CoreModel {
            published_window: window,
            diagnostics: ReceiverDiagnostics {
                complete_frame_fps: clamped_u32(window.len() as int),
                ..self.diagnostics
            },
            ..self
        }
    }

    /// The report on this session.
    pub open spec fn report(self, decode_queue_depth: u16, hardware_decode_active: bool) -> ControlMessage {
        ControlMessage {
            version: PROTOCOL_VERSION_V1,
            payload: ControlPayload::ReceiverReport(
                ReceiverReport {
                    generation: match self.configuration {
                        Some(configuration) => configuration.generation,
                        None => 0,
                    },
                    last_complete_color_frame: self.diagnostics.last_complete_color_frame,
                    last_complete_alpha_frame: self.diagnostics.last_complete_alpha_frame,
                    incomplete_frames: self.diagnostics.incomplete_frames,
                    dropped_frames: self.diagnostics.dropped_frames,
                    decode_queue_depth,
                    playout_latency_us: self.diagnostics.playout_latency_us,
                    rtt_us: self.diagnostics.rtt_us,
                    jitter_us: self.diagnostics.jitter_us,
                    hardware_decode_active,
                    requested_bitrate_bps: self.adaptive.requested_bitrate_bps,
                    requested_fps: self.adaptive.requested_fps,
                    requested_alpha_codec: crate::wire::AlphaCodec::A8T1,
                },
            ),
        }
    }

    /// The session with all media forgotten.
    pub open spec fn media_reset(self) -> Self {
        CoreModel {
            inflight: Map::empty(),
            dropped: Map::empty(),
            clock_anchor: None,
            latest_ready: None,
            received_at: Map::empty(),
            request_idr_pending: false,
            published_window: Seq::empty(),
            ..self
        }.refreshed()
    }

    /// The session ready for a new connection; its counters go on.
    pub open spec fn reconnected(self) -> Self {
        CoreModel {
            phase: SessionPhase::AwaitingHello,
            sender_capabilities: None,
            configuration: None,
            adaptive: AdaptiveController::idle(),
            ..self
        }.media_reset()
    }

    /// Why a configuration is refused. `validation` is the protocol's own
    /// verdict on it.
    pub open spec fn configuration_refusal(
        self,
        configuration: MediaConfiguration,
        validation: Result<(), ProtocolError>,
    ) -> Option<ReceiverError> {
        match (validation, self.sender_capabilities) {
            (Err(error), _) => Some(ReceiverError::Protocol(error)),
            (_, None) => Some(
                ReceiverError::InvalidControl(ControlFault::ConfigureBeforeCapabilities),
            ),
            (_, Some(sender)) => if within_limits(configuration, sender) {
                None
            } else {
                Some(ReceiverError::UnsupportedConfiguration)
            },
        }
    }

    /// Why a control message is refused. `validation` is the protocol's own
    /// verdict on the capabilities or the configuration that it carries.
    pub open spec fn control_refusal(
        self,
        message: ControlMessage,
        validation: Result<(), ProtocolError>,
    ) -> Option<ReceiverError> {
        if message.version != PROTOCOL_VERSION_V1 {
            Some(ReceiverError::InvalidControl(ControlFault::UnsupportedVersion))
        } else {
            match message.payload {
                ControlPayload::Hello { supported_versions, .. } => if supported_versions@.contains(
                    PROTOCOL_VERSION_V1,
                ) {
                    None
                } else {
                    Some(ReceiverError::InvalidControl(ControlFault::NoCommonVersion))
                },
                ControlPayload::Configure(configuration) => self.configuration_refusal(
                    configuration,
                    validation,
                ),
                ControlPayload::Reconfigure(configuration) => self.configuration_refusal(
                    configuration,
                    validation,
                ),
                ControlPayload::Capabilities(capabilities) => if self.phase
                    != SessionPhase::AwaitingConfiguration {
                    Some(ReceiverError::InvalidControl(ControlFault::CapabilitiesOutsideNegotiation))
                } else {
                    match validation {
                        Err(error) => Some(ReceiverError::Protocol(error)),
                        Ok(_) => if capabilities.speaks_v1() {
                            None
                        } else {
                            Some(ReceiverError::UnsupportedConfiguration)
                        },
                    }
                },
                ControlPayload::Start => if self.configuration is Some {
                    None
                } else {
                    Some(ReceiverError::InvalidControl(ControlFault::StartBeforeConfigure))
                },
                ControlPayload::Stop => None,
                ControlPayload::Ping { .. } => None,
                ControlPayload::Goodbye => None,
                _ => Some(ReceiverError::InvalidControl(ControlFault::ReceiverOnlyMessage)),
            }
        }
    }

    /// The session after an accepted configuration.
    pub open spec fn configured(self, configuration: MediaConfiguration, reconfigure: bool) -> Self {
        CoreModel {
            adaptive: if reconfigure {
                self.adaptive.reconfigured(configuration, self.diagnostics.incomplete_frames)
            } else {
                AdaptiveController::configured(configuration, self.diagnostics.incomplete_frames)
            },
            configuration: Some(configuration),
            phase: SessionPhase::Configured,
            ..self
        }.media_reset()
    }

    /// The session after an accepted control message.
    pub open spec fn controlled(self, message: ControlMessage) -> Self {
        match message.payload {
            ControlPayload::Hello { .. } => CoreModel {
                phase: SessionPhase::AwaitingConfiguration,
                ..self
            },
            ControlPayload::Configure(configuration) => self.configured(configuration, false),
            ControlPayload::Reconfigure(configuration) => self.configured(configuration, true),
            ControlPayload::Capabilities(capabilities) => CoreModel {
                sender_capabilities: Some(capabilities),
                ..self
            },
            ControlPayload::Start => CoreModel { phase: SessionPhase::Streaming, ..self },
            ControlPayload::Stop => CoreModel { phase: SessionPhase::Stopped, ..self }.media_reset(),
            ControlPayload::Goodbye => CoreModel {
                phase: SessionPhase::Closed,
                ..self
            }.media_reset(),
            _ => self,
        }
    }
}

/// Some awaited frame came first.
pub proof fn lemma_oldest_exists(inflight: Map<u64, InflightFrame>)
    requires
        inflight.dom().finite(),
        inflight.dom().len() > 0,
    ensures
        is_oldest(inflight, oldest_key(inflight)),
    decreases inflight.dom().len(),
{
    let one = inflight.dom().choose();
    let rest = inflight.remove(one);
    if rest.dom().len() == 0 {
        assert forall|other: u64| #[trigger] inflight.contains_key(other) implies other == one by {
            if other != one {
                assert(rest.dom().contains(other));
            }
        }
        assert(is_oldest(inflight, one));
    } else {
        lemma_oldest_exists(rest);
        let best = oldest_key(rest);
        let one_first = inflight[one].insertion_order < inflight[best].insertion_order || (
        inflight[one].insertion_order == inflight[best].insertion_order && one <= best);
        let first = if one_first { one } else { best };
        assert forall|other: u64| #[trigger] inflight.contains_key(other) implies
            inflight[first].insertion_order < inflight[other].insertion_order || (
            inflight[first].insertion_order == inflight[other].insertion_order && first <= other) by {
            if other != one {
                assert(rest.contains_key(other));
            }
        }
        assert(is_oldest(inflight, first));
    }
}

/// Only one awaited frame came first.
pub proof fn lemma_oldest_is_unique(inflight: Map<u64, InflightFrame>, key: u64)
    requires
        is_oldest(inflight, key),
    ensures
        key == oldest_key(inflight),
{
    let chosen = oldest_key(inflight);
    assert(is_oldest(inflight, chosen));
    assert(inflight.contains_key(key) && inflight.contains_key(chosen));
}

/// What is due is exactly the awaited frames whose deadline has passed.
pub proof fn lemma_due_keys(inflight: Map<u64, InflightFrame>, now: u64)
    requires
        inflight.dom().finite(),
    ensures
        forall|key: u64| #[trigger]
            due_keys(inflight, now).contains(key) <==> inflight.contains_key(key)
                && inflight[key].deadline <= now,
{
    broadcast use vstd::seq_lib::group_filter_ensures;

    crate::ordered::lemma_sorted_keys(inflight);
    let keys = crate::ordered::sorted_keys(inflight);
    let due = |key: u64| inflight[key].deadline <= now;
    assert(due_keys(inflight, now) == keys.filter(due));
    assert forall|key: u64| #[trigger]
        due_keys(inflight, now).contains(key) <==> inflight.contains_key(key)
            && inflight[key].deadline <= now by {
        if keys.filter(due).contains(key) {
            keys.lemma_filter_contains_rev(due, key);
            assert(keys.to_set().contains(key));
            let i = keys.filter(due).index_of(key);
            assert(due(keys.filter(due)[i]));
        }
        if inflight.contains_key(key) && inflight[key].deadline <= now {
            assert(keys.to_set().contains(key));
            let i = keys.index_of(key);
            assert(due(keys[i]));
            assert(keys.filter(due).contains(keys[i]));
        }
    }
}

/// Giving up a frame keeps the session consistent and touches no other frame.
pub proof fn lemma_frame_dropped(session: CoreModel, key: u64, late: bool)
    requires
        session.inv(),
    ensures
        session.frame_dropped(key, late).inv(),
        session.frame_dropped(key, late).inflight == session.inflight.remove(key),
        forall|other: u64| #[trigger]
            session.frame_dropped(key, late).dropped.contains_key(other) ==> other == key
                || session.dropped.contains_key(other),
{
    let next = session.frame_dropped(key, late);
    if session.inflight.contains_key(key) {
        let marked = session.dropped.insert(
            key,
            later(session.inflight[key].deadline, MAX_PLAYOUT_HORIZON_NS as int),
        );
        crate::ordered::lemma_keep_largest(marked, MAX_DROPPED_FRAME_TOMBSTONES as nat);
        assert forall|other: u64| #[trigger] next.inflight.contains_key(other) implies
            !next.dropped.contains_key(other) by {
            assert(session.inflight.contains_key(other));
            if next.dropped.contains_key(other) {
                assert(marked.contains_key(other));
            }
        }
        assert forall|other: u64| #[trigger] next.dropped.contains_key(other) implies other == key
            || session.dropped.contains_key(other) by {
            assert(marked.contains_key(other));
        }
    } else {
        assert(session.inflight.remove(key) =~= session.inflight);
    }
}

/// Giving up several frames keeps the session consistent.
pub proof fn lemma_frames_late(session: CoreModel, keys: Seq<u64>)
    requires
        session.inv(),
    ensures
        session.frames_late(keys).inv(),
        session.frames_late(keys).inflight == session.inflight.remove_keys(keys.to_set()),
        session.frames_late(keys).latest_ready == session.latest_ready,
        session.frames_late(keys).configuration == session.configuration,
        session.frames_late(keys).phase == session.phase,
        forall|other: u64| #[trigger]
            session.frames_late(keys).dropped.contains_key(other) ==> keys.contains(other)
                || session.dropped.contains_key(other),
    decreases keys.len(),
{
    if keys.len() == 0 {
        assert(session.inflight.remove_keys(keys.to_set()) =~= session.inflight);
    } else {
        let before = keys.drop_last();
        lemma_frames_late(session, before);
        lemma_frame_dropped(session.frames_late(before), keys.last(), true);
        assert forall|x: u64| keys.contains(x) <==> before.contains(x) || x == keys.last() by {
            if keys.contains(x) {
                let i = keys.index_of(x);
                if i < before.len() {
                    assert(before[i] == x);
                }
            }
            if before.contains(x) {
                assert(keys[before.index_of(x)] == x);
            }
            assert(keys[keys.len() - 1] == keys.last());
        }
        assert(session.frames_late(keys).inflight =~= session.inflight.remove_keys(keys.to_set()));
    }
}

/// Expiry keeps the session consistent: what stays awaited is what is not yet
/// due, and what stays given up has not run out.
pub proof fn lemma_expired(session: CoreModel, now: u64)
    requires
        session.inv(),
    ensures
        session.expired(now).inv(),
        session.expired(now).inflight == session.inflight.filter_keys(
            |key: u64| session.inflight[key].deadline > now,
        ),
        session.expired(now).latest_ready == session.latest_ready,
        session.expired(now).configuration == session.configuration,
        session.expired(now).phase == session.phase,
        forall|key: u64| #[trigger]
            session.expired(now).dropped.contains_key(key) ==> session.expired(now).dropped[key]
                > now,
{
    let keys = due_keys(session.inflight, now);
    let late = session.frames_late(keys);
    lemma_due_keys(session.inflight, now);
    lemma_frames_late(session, keys);
    let next = session.expired(now);
    assert(next.inflight =~= session.inflight.filter_keys(
        |key: u64| session.inflight[key].deadline > now,
    )) by {
        assert forall|key: u64| next.inflight.contains_key(key) <==> session.inflight.contains_key(
            key,
        ) && session.inflight[key].deadline > now by {
            assert(keys.to_set().contains(key) <==> keys.contains(key));
        }
    }
    vstd::set_lib::lemma_len_subset(next.dropped.dom(), late.dropped.dom());
    assert forall|key: u64| #[trigger] next.inflight.contains_key(key) implies
        !next.dropped.contains_key(key) by {
        assert(late.inflight.contains_key(key));
    }
}

/// Awaiting a frame that was not given up keeps the session consistent.
pub proof fn lemma_awaited(session: CoreModel, key: u64, deadline: u64, received_at: u64)
    requires
        session.inv(),
        !session.dropped.contains_key(key),
    ensures
        session.awaited(key, deadline, received_at).inv(),
        session.awaited(key, deadline, received_at).inflight.contains_key(key),
        !session.awaited(key, deadline, received_at).dropped.contains_key(key),
{
    let next = session.awaited(key, deadline, received_at);
    if session.inflight.contains_key(key) {
        assert(next.inflight.dom() =~= session.inflight.dom());
    } else {
        let room = session.made_room();
        if session.inflight.dom().len() >= MAX_INCOMPLETE_FRAMES {
            lemma_oldest_exists(session.inflight);
            lemma_frame_dropped(session, oldest_key(session.inflight), false);
        }
        assert(room.inflight.dom().len() < MAX_INCOMPLETE_FRAMES);
        assert(!room.dropped.contains_key(key));
    }
}

/// Completing a frame keeps the session consistent.
pub proof fn lemma_completed(
    session: CoreModel,
    ticket: MediaTicket,
    pair: SynchronizedPair,
    alpha: AlphaFrame,
)
    requires
        session.inv(),
    ensures
        session.completed(ticket, pair, alpha).inv(),
{
    let key = frame_key(pair.generation, pair.frame_id);
    let arrival = if session.inflight.contains_key(key) {
        session.inflight[key].first_received_at
    } else {
        ticket.received_at
    };
    crate::ordered::lemma_keep_largest(
        session.received_at.insert(pair.frame_id as u64, arrival),
        MAX_INCOMPLETE_FRAMES as nat,
    );
    vstd::set_lib::lemma_len_subset(session.inflight.remove(key).dom(), session.inflight.dom());
}

} // verus!
