//! One connection to a sender: its session, its pipeline and its reports.
use crate::model::CoreModel;
use crate::receiver::{
    ControlOutcome, MediaAction, MediaTicket, PreparedFrame, ReassemblyAction, ReceiverCore,
    ReceiverError, SessionPhase,
};
use crate::windows::pipeline::{PipelineTelemetry, PublishResult, PublishedFrame};
use crate::windows::tray::TrayState;
use crate::wire::{
    AlphaFrame, ControlMessage, MediaChunkHeader, ProtocolError, ReassemblyOutcome,
    SynchronizedPair,
};
use vstd::prelude::*;

verus! {

/// The time between two reports.
pub const REPORT_INTERVAL_NS: u64 = 1_000_000_000;

/// The state of a connection.
#[verifier::ext_equal]
pub ghost struct ConnectionView {
    pub core: CoreModel,
    /// The generation that the hardware pipeline was made for, if there is one.
    pub pipeline: Option<u16>,
    pub next_report: u64,
}

/// A point in time one report interval later.
pub open spec fn next_report_after(now: u64) -> u64 {
    if now + REPORT_INTERVAL_NS <= u64::MAX {
        (now + REPORT_INTERVAL_NS) as u64
    } else {
        u64::MAX
    }
}

/// What an accepted control message asks for.
#[derive(Clone, Debug, PartialEq, Eq)]
pub struct ControlStep {
    pub outcome: ControlOutcome,
    /// The hardware pipeline is to be given up.
    pub drop_pipeline: bool,
}

/// A frame that is to be shown.
#[derive(Clone, Debug, PartialEq, Eq)]
pub struct FrameStep {
    pub frame: PreparedFrame,
    /// A new hardware pipeline is to be made for it first.
    pub needs_pipeline: bool,
}

/// What became of a frame in the hardware pipeline.
#[derive(Clone, Copy, Debug, PartialEq, Eq, Structural)]
pub enum PublishOutcome {
    /// It was offered to the output.
    Published(PublishedFrame),
    /// The decoder has not delivered a frame yet.
    Waiting,
    /// The pipeline rejected it.
    Rejected,
}

/// What a measurement of the connection says.
#[derive(Clone, Copy, Debug, PartialEq, Eq, Structural)]
pub struct LinkTelemetry {
    pub rtt_us: Option<u64>,
    pub jitter_us: u64,
    pub estimated_send_rate_bps: Option<u64>,
}

/// The session over one connection, with what is known of its pipeline.
pub struct ConnectionSession {
    core: ReceiverCore,
    pipeline: Option<u16>,
    next_report: u64,
}

impl View for ConnectionSession {
    type V = ConnectionView;

    closed spec fn view(&self) -> ConnectionView {
        ConnectionView {
            core: self.core@,
            pipeline: self.pipeline,
            next_report: self.next_report,
        }
    }
}

impl ConnectionView {
    /// After an accepted control message.
    pub open spec fn controlled(self, message: ControlMessage) -> Self {
        let next = self.core.controlled(message);
        ConnectionView {
            core: next,
            pipeline: if next.phase == SessionPhase::Streaming {
                self.pipeline
            } else {
                None
            },
            ..self
        }
    }

    /// After a frame went through the pipeline.
    pub open spec fn shown(self, outcome: PublishOutcome, telemetry: PipelineTelemetry, now: u64) -> Self {
        let measured = self.core.pipeline_observed(
            telemetry.color_decode_submit_cpu_us,
            telemetry.composite_enqueue_cpu_us,
            telemetry.spout_publish_cpu_us,
        );
        match outcome {
            PublishOutcome::Published(published) => match published.result {
                PublishResult::Sent => ConnectionView {
                    core: measured.published(published.frame_id, now),
                    ..self
                },
                PublishResult::SkippedAccessTimeout => ConnectionView {
                    core: measured.spout_skipped(),
                    ..self
                },
            },
            PublishOutcome::Waiting => ConnectionView { core: measured, ..self },
            PublishOutcome::Rejected => ConnectionView {
                core: measured.decode_failed(),
                pipeline: None,
                ..self
            },
        }
    }

    /// A new pipeline is needed for a frame of this generation.
    pub open spec fn needs_pipeline(self, generation: u16) -> bool {
        self.pipeline != Some(generation)
    }

    /// The connection after it was asked at `now` for the frame that is to be
    /// shown, with that frame.
    pub open spec fn frame_due(self, now: u64) -> (Self, Option<PreparedFrame>) {
        let (core, frame) = self.core.expired(now).frame_taken(now);
        (ConnectionView { core, ..self }, frame)
    }

    /// The connection after a pipeline was made for a generation.
    pub open spec fn with_pipeline(self, generation: u16) -> Self {
        ConnectionView { pipeline: Some(generation), ..self }
    }

    /// The connection after a report that was due at `now` and made at
    /// `made_at`.
    pub open spec fn after_report(self, now: u64, made_at: u64, telemetry: LinkTelemetry) -> Self {
        ConnectionView {
            core: self.measured(telemetry).reported(made_at),
            next_report: next_report_after(now),
            ..self
        }
    }

    /// The report on this connection.
    pub open spec fn report_on(self, telemetry: LinkTelemetry, decode_queue_depth: u16) -> ControlMessage {
        self.measured(telemetry).report(decode_queue_depth, self.pipeline is Some)
    }

    /// The session after it was measured, before it reports.
    pub open spec fn measured(self, telemetry: LinkTelemetry) -> CoreModel {
        self.core.network_observed(
            match telemetry.rtt_us {
                Some(rtt_us) => rtt_us,
                None => 0,
            },
            telemetry.jitter_us,
            telemetry.estimated_send_rate_bps,
        )
    }
}

/// What the tray shows of a frame that went through the pipeline.
pub open spec fn tray_shows(
    outcome: PublishOutcome,
    spout_name: Seq<char>,
    state: Option<TrayState>,
) -> bool {
    match outcome {
        PublishOutcome::Published(published) => match published.result {
            PublishResult::Sent => state matches Some(TrayState::SpoutActive(name)) && name@
                == spout_name,
            PublishResult::SkippedAccessTimeout => state is None,
        },
        PublishOutcome::Waiting => state is None,
        PublishOutcome::Rejected => state matches Some(TrayState::Error(error)) && error@
            == "Media pipeline unavailable"@,
    }
}

impl ConnectionSession {
    /// A connection that was just accepted.
    pub fn begin(now: u64) -> (session: Self)
        ensures
            session@.core.inv(),
            session@ == (ConnectionView {
                core: CoreModel::initial(),
                pipeline: None,
                next_report: next_report_after(now),
            }),
    {
        ConnectionSession {
            core: ReceiverCore::new(),
            pipeline: None,
            next_report: now.saturating_add(REPORT_INTERVAL_NS),
        }
    }

    /// The session of this connection.
    pub fn session(&self) -> (session: &ReceiverCore)
        ensures
            session@ == self@.core,
    {
        &self.core
    }

    /// Takes a control message. Unless the session streams after it, the
    /// pipeline is given up. A refused message changes nothing.
    pub fn control(&mut self, message: ControlMessage, validation: Result<(), ProtocolError>) -> (
        result: Result<ControlStep, ReceiverError>)
        requires
            old(self)@.core.inv(),
        ensures
            final(self)@.core.inv(),
            match old(self)@.core.control_refusal(message, validation) {
                Some(error) => {
                    &&& result == Err::<ControlStep, ReceiverError>(error)
                    &&& final(self)@ == old(self)@
                },
                None => {
                    &&& result matches Ok(step)
                    &&& step.outcome.reset_media == crate::model::resets_media(message)
                    &&& crate::model::answers(message, step.outcome.responses@)
                    &&& step.drop_pipeline == (final(self)@.core.phase != SessionPhase::Streaming)
                    &&& final(self)@ == old(self)@.controlled(message)
                },
            },
    {
        let outcome: ControlOutcome = match self.core.handle_control(message, validation) {
            Ok(outcome) => outcome,
            Err(error) => return Err(error),
        };
        let drop_pipeline: bool = self.core.phase() != SessionPhase::Streaming;
        if drop_pipeline {
            self.pipeline = None;
        }
        Ok(ControlStep { outcome, drop_pipeline })
    }

    /// Takes the header of a media datagram, or the protocol's refusal of it.
    pub fn media(&mut self, header: Result<MediaChunkHeader, ProtocolError>, received_at: u64) -> (
        result: Result<MediaAction, ReceiverError>)
        requires
            old(self)@.core.inv(),
        ensures
            final(self)@.core.inv(),
            final(self)@ == (ConnectionView { core: final(self)@.core, ..old(self)@ }),
            (final(self)@.core, result) == old(self)@.core.pushed(header, received_at),
    {
        self.core.push_media_datagram(header, received_at)
    }

    /// Takes what reassembly made of a datagram.
    pub fn reassembly(
        &mut self,
        ticket: &MediaTicket,
        outcome: Result<ReassemblyOutcome, ProtocolError>,
    ) -> (result: Result<ReassemblyAction, ReceiverError>)
        requires
            old(self)@.core.inv(),
        ensures
            final(self)@.core.inv(),
            final(self)@ == (ConnectionView { core: final(self)@.core, ..old(self)@ }),
            (final(self)@.core, result) == old(self)@.core.reassembled(*ticket, outcome),
    {
        self.core.note_reassembly(ticket, outcome)
    }

    /// Takes the verdict of the synchronizer on a complete plane. True asks for
    /// the alpha plane of the complete pair to be decoded.
    pub fn synchronization(&mut self, complete: Result<bool, ProtocolError>) -> (result: Result<
        bool,
        ReceiverError,
    >)
        requires
            old(self)@.core.inv(),
        ensures
            final(self)@ == old(self)@,
            match complete {
                Ok(complete) => result == Ok::<bool, ReceiverError>(complete),
                Err(error) => result == Err::<bool, ReceiverError>(ReceiverError::Protocol(error)),
            },
    {
        self.core.note_synchronization(complete)
    }

    /// Takes the decoded alpha plane of a complete pair.
    pub fn alpha(
        &mut self,
        ticket: &MediaTicket,
        pair: SynchronizedPair,
        alpha: Result<AlphaFrame, ProtocolError>,
        decode_ns: u64,
    ) -> (result: Result<(), ReceiverError>)
        requires
            old(self)@.core.inv(),
        ensures
            final(self)@.core.inv(),
            final(self)@ == (ConnectionView { core: final(self)@.core, ..old(self)@ }),
            (final(self)@.core, result) == old(self)@.core.alpha_decoded(
                *ticket,
                pair,
                alpha,
                decode_ns,
            ),
    {
        self.core.note_alpha(ticket, pair, alpha, decode_ns)
    }

    /// Gives up what is overdue at `now`, and takes the frame that is to be
    /// shown. A pipeline serves the frames of one generation.
    pub fn due_frame(&mut self, now: u64) -> (step: Option<FrameStep>)
        requires
            old(self)@.core.inv(),
        ensures
            final(self)@.core.inv(),
            ({
                let (next, frame) = old(self)@.frame_due(now);
                &&& final(self)@ == next
                &&& match (step, frame) {
                    (Some(step), Some(frame)) => {
                        &&& step.frame == frame
                        &&& step.needs_pipeline == old(self)@.needs_pipeline(frame.generation)
                    },
                    (None, None) => true,
                    _ => false,
                }
            }),
    {
        self.core.expire(now);
        match self.core.take_latest_frame(now) {
            Some(frame) => {
                let needs_pipeline: bool = match self.pipeline {
                    Some(generation) => generation != frame.generation,
                    None => true,
                };
                Some(FrameStep { frame, needs_pipeline })
            },
            None => None,
        }
    }

    /// Notes that a pipeline was made for a generation. The tray shows it.
    pub fn pipeline_made(&mut self, generation: u16) -> (state: TrayState)
        requires
            old(self)@.core.inv(),
        ensures
            final(self)@ == old(self)@.with_pipeline(generation),
            state == TrayState::Decoding,
    {
        self.pipeline = Some(generation);
        TrayState::Decoding
    }

    /// Takes what became of a frame in the pipeline, and says what the tray
    /// shows. A pipeline that rejected a frame is given up.
    pub fn frame_shown(
        &mut self,
        outcome: PublishOutcome,
        telemetry: PipelineTelemetry,
        spout_name: &str,
        now: u64,
    ) -> (state: Option<TrayState>)
        requires
            old(self)@.core.inv(),
        ensures
            final(self)@.core.inv(),
            final(self)@ == old(self)@.shown(outcome, telemetry, now),
            tray_shows(outcome, spout_name@, state),
    {
        self.core.update_pipeline_diagnostics(
            telemetry.color_decode_submit_cpu_us,
            telemetry.composite_enqueue_cpu_us,
            telemetry.spout_publish_cpu_us,
        );
        match outcome {
            PublishOutcome::Published(published) => match published.result {
                PublishResult::Sent => {
                    self.core.note_published(published.frame_id, now);
                    Some(TrayState::SpoutActive(spout_name.to_owned()))
                },
                PublishResult::SkippedAccessTimeout => {
                    self.core.note_spout_skipped();
                    None
                },
            },
            PublishOutcome::Waiting => None,
            PublishOutcome::Rejected => {
                self.core.note_decode_failure();
                self.pipeline = None;
                Some(TrayState::Error("Media pipeline unavailable".to_owned()))
            },
        }
    }

    /// The request for a key frame, if one is to be sent.
    pub fn key_frame_request(&mut self) -> (request: Option<ControlMessage>)
        requires
            old(self)@.core.inv(),
        ensures
            final(self)@.core.inv(),
            final(self)@ == (ConnectionView { core: old(self)@.core.idr_taken(), ..old(self)@ }),
            request == old(self)@.core.idr_request(),
    {
        self.core.take_idr_request()
    }

    /// Whether a report is due at `now`.
    pub fn report_due(&self, now: u64) -> (due: bool)
        ensures
            due == (now >= self@.next_report),
    {
        now >= self.next_report
    }

    /// Takes a measurement of the connection and gives the report that was due
    /// at `now`. It is made at `made_at`, which is where its frame rate ends.
    pub fn report(
        &mut self,
        now: u64,
        made_at: u64,
        telemetry: LinkTelemetry,
        decode_queue_depth: u16,
    ) -> (report: ControlMessage)
        requires
            old(self)@.core.inv(),
        ensures
            final(self)@.core.inv(),
            final(self)@ == old(self)@.after_report(now, made_at, telemetry),
            report == old(self)@.report_on(telemetry, decode_queue_depth),
    {
        let rtt_us: u64 = match telemetry.rtt_us {
            Some(rtt_us) => rtt_us,
            None => 0,
        };
        self.core.update_network_diagnostics(
            rtt_us,
            telemetry.jitter_us,
            telemetry.estimated_send_rate_bps,
        );
        self.next_report = now.saturating_add(REPORT_INTERVAL_NS);
        self.core.receiver_report(made_at, decode_queue_depth, self.pipeline.is_some())
    }
}

/// A pipeline is given up with what it was made for: when the configuration
/// changes, when the sender stops or leaves, and when it rejects a frame, which
/// also asks for a key frame. Nothing else that happens to a frame ends it.
pub proof fn law_pipeline_ends_with_its_stream(
    connection: ConnectionView,
    message: ControlMessage,
    telemetry: PipelineTelemetry,
    published: PublishedFrame,
    now: u64,
)
    ensures
        crate::model::resets_media(message) ==> connection.controlled(message).pipeline is None,
        connection.shown(PublishOutcome::Rejected, telemetry, now).pipeline is None,
        connection.shown(PublishOutcome::Rejected, telemetry, now).core.request_idr_pending,
        connection.shown(PublishOutcome::Waiting, telemetry, now).pipeline == connection.pipeline,
        connection.shown(PublishOutcome::Published(published), telemetry, now).pipeline
            == connection.pipeline,
        message.payload is Ping && connection.core.phase == SessionPhase::Streaming
            ==> connection.controlled(message) == connection,
        connection.controlled(message).core == connection.core.controlled(message),
        connection.controlled(message).next_report == connection.next_report,
        connection.controlled(message).core.phase == SessionPhase::Streaming
            ==> connection.controlled(message).pipeline == connection.pipeline,
{
}

/// Reports are a report interval apart: after a report, none is due before the
/// interval has passed, up to the end of the clock.
pub proof fn law_reports_keep_their_interval(now: u64, later: u64)
    requires
        now + REPORT_INTERVAL_NS <= u64::MAX,
    ensures
        later >= next_report_after(now) <==> later - now >= REPORT_INTERVAL_NS,
        REPORT_INTERVAL_NS == 1_000_000_000,
{
}


/// A pipeline serves the frames of one generation: once it was made, no frame of
/// that generation needs another, until it is given up, and every frame of
/// another generation does. Without a pipeline every frame needs one.
pub proof fn law_pipeline_serves_one_generation(
    connection: ConnectionView,
    generation: u16,
    other: u16,
    telemetry: PipelineTelemetry,
    now: u64,
)
    ensures
        ({
            let made = connection.with_pipeline(generation);
            let rejected = made.shown(PublishOutcome::Rejected, telemetry, now);
            &&& !made.needs_pipeline(generation)
            &&& other != generation ==> made.needs_pipeline(other)
            &&& made.frame_due(now).0.pipeline == Some(generation)
            &&& made.core == connection.core
            &&& made.next_report == connection.next_report
            &&& rejected.needs_pipeline(generation)
            &&& connection.pipeline is None ==> connection.needs_pipeline(other)
        }),
{
}

/// What became of a frame is noted with the times that it took. A frame that was
/// sent counts as shown, one that the output skipped as dropped, and one that
/// the pipeline rejected as undecodable; one that still waits counts as nothing.
pub proof fn law_shown_frame_is_noted_once(
    connection: ConnectionView,
    frame_id: u32,
    telemetry: PipelineTelemetry,
    now: u64,
)
    requires
        connection.core.diagnostics.dropped_frames < u64::MAX,
        connection.core.diagnostics.decode_failures < u64::MAX,
        connection.core.diagnostics.latest_frame_drops < u64::MAX,
    ensures
        ({
            let before = connection.core.diagnostics;
            let sent = connection.shown(
                PublishOutcome::Published(PublishedFrame { frame_id, result: PublishResult::Sent }),
                telemetry,
                now,
            );
            let skipped = connection.shown(
                PublishOutcome::Published(
                    PublishedFrame { frame_id, result: PublishResult::SkippedAccessTimeout },
                ),
                telemetry,
                now,
            );
            let waiting = connection.shown(PublishOutcome::Waiting, telemetry, now);
            let rejected = connection.shown(PublishOutcome::Rejected, telemetry, now);
            &&& waiting.core.diagnostics.color_decode_submit_cpu_us
                == telemetry.color_decode_submit_cpu_us
            &&& waiting.core.diagnostics.composite_enqueue_cpu_us
                == telemetry.composite_enqueue_cpu_us
            &&& waiting.core.diagnostics.spout_publish_cpu_us == telemetry.spout_publish_cpu_us
            &&& waiting.core.diagnostics.dropped_frames == before.dropped_frames
            &&& waiting.core.diagnostics.last_published_frame == before.last_published_frame
            &&& sent.core.diagnostics.last_published_frame == Some(frame_id)
            &&& sent.core.diagnostics.dropped_frames == before.dropped_frames
            &&& sent.core.published_window.len() > 0
            &&& sent.core.diagnostics.spout_publish_cpu_us == telemetry.spout_publish_cpu_us
            &&& skipped.core.diagnostics.last_published_frame == before.last_published_frame
            &&& skipped.core.diagnostics.dropped_frames == before.dropped_frames + 1
            &&& skipped.core.diagnostics.latest_frame_drops == before.latest_frame_drops + 1
            &&& skipped.core.diagnostics.decode_failures == before.decode_failures
            &&& rejected.core.diagnostics.dropped_frames == before.dropped_frames + 1
            &&& rejected.core.diagnostics.decode_failures == before.decode_failures + 1
            &&& rejected.core.diagnostics.latest_frame_drops == before.latest_frame_drops
            &&& rejected.core.diagnostics.last_published_frame == before.last_published_frame
        }),
{
    let window = connection.core.published_window.push(now);
    lemma_recent_keeps_the_present(window, now);
}

/// What was shown just now is recent.
proof fn lemma_recent_keeps_the_present(window: Seq<u64>, now: u64)
    requires
        window.len() > 0,
        window.last() == now,
    ensures
        crate::model::recent(window, now).len() > 0,
    decreases window.len(),
{
    if now - window[0] > crate::receiver::PUBLISH_WINDOW_NS {
        lemma_recent_keeps_the_present(window.subrange(1, window.len() as int), now);
    }
}

/// A report says what was just measured: the round trip, or nothing where none
/// is known, and the jitter, each in its own field; the generation that is
/// configured; the depth of the decode queue; and that the hardware decodes
/// exactly while there is a pipeline. The next report is due one second later.
pub proof fn law_report_says_what_was_measured(
    connection: ConnectionView,
    now: u64,
    made_at: u64,
    telemetry: LinkTelemetry,
    decode_queue_depth: u16,
)
    ensures
        ({
            let message = connection.report_on(telemetry, decode_queue_depth);
            let report = message.payload->ReceiverReport_0;
            let next = connection.after_report(now, made_at, telemetry);
            &&& message.version == 1
            &&& message.payload is ReceiverReport
            &&& telemetry.rtt_us is None ==> report.rtt_us == 0
            &&& telemetry.rtt_us matches Some(rtt_us) ==> report.rtt_us == if rtt_us <= u32::MAX {
                rtt_us
            } else {
                u32::MAX as u64
            }
            &&& report.jitter_us == if telemetry.jitter_us <= u32::MAX {
                telemetry.jitter_us
            } else {
                u32::MAX as u64
            }
            &&& report.decode_queue_depth == decode_queue_depth
            &&& report.hardware_decode_active == (connection.pipeline is Some)
            &&& connection.core.configuration matches Some(configuration) ==> report.generation
                == configuration.generation
            &&& report.incomplete_frames == connection.core.diagnostics.incomplete_frames
            &&& report.dropped_frames == connection.core.diagnostics.dropped_frames
            &&& report.requested_bitrate_bps == next.core.adaptive.requested_bitrate_bps
            &&& report.requested_fps == next.core.adaptive.requested_fps
            &&& now + 1_000_000_000 <= u64::MAX ==> next.next_report - now == 1_000_000_000
            &&& next.pipeline == connection.pipeline
        }),
{
}


/// The frame that is to be shown is the ready one, from its time on, and what is
/// overdue is given up first: no frame whose deadline has passed stays awaited.
pub proof fn law_due_frame_is_the_ready_one(connection: ConnectionView, now: u64)
    requires
        connection.core.inv(),
    ensures
        ({
            let (next, frame) = connection.frame_due(now);
            &&& frame == match connection.core.latest_ready {
                Some(ready) => if ready.playout_at <= now {
                    Some(ready)
                } else {
                    None
                },
                None => None,
            }
            &&& frame is Some ==> next.core.latest_ready is None
            &&& frame is None ==> next.core.latest_ready == connection.core.latest_ready
            &&& forall|key: u64| #[trigger]
                next.core.inflight.contains_key(key) <==> connection.core.inflight.contains_key(key)
                    && connection.core.inflight[key].deadline > now
            &&& next.pipeline == connection.pipeline
            &&& next.next_report == connection.next_report
        }),
{
    crate::model::lemma_expired(connection.core, now);
}

/// A measurement of the connection reaches the controller: a round trip of more
/// than 150 milliseconds, or an estimated send rate below the requested bitrate,
/// lowers that bitrate in the report that follows, as long as it is above one
/// million bits a second.
pub proof fn law_measurements_reach_the_controller(
    connection: ConnectionView,
    telemetry: LinkTelemetry,
    decode_queue_depth: u16,
)
    requires
        connection.core.adaptive.nominal_bitrate_bps > 0,
        connection.core.adaptive.requested_bitrate_bps > 1_000_000,
        (telemetry.rtt_us matches Some(rtt_us) && rtt_us > 150_000) || (
        telemetry.estimated_send_rate_bps matches Some(rate) && 0 < rate
            < connection.core.adaptive.requested_bitrate_bps),
    ensures
        connection.report_on(
            telemetry,
            decode_queue_depth,
        ).payload->ReceiverReport_0.requested_bitrate_bps
            < connection.core.adaptive.requested_bitrate_bps,
{
}

/// The frame rate of a report ends where the report is made, and the next report
/// is due by when this one was: neither depends on the other time.
pub proof fn law_report_has_two_times(
    connection: ConnectionView,
    now: u64,
    other_now: u64,
    made_at: u64,
    other_made_at: u64,
    telemetry: LinkTelemetry,
)
    ensures
        connection.after_report(now, made_at, telemetry).core == connection.after_report(
            other_now,
            made_at,
            telemetry,
        ).core,
        connection.after_report(now, made_at, telemetry).next_report == connection.after_report(
            now,
            other_made_at,
            telemetry,
        ).next_report,
        connection.after_report(now, made_at, telemetry).core.diagnostics.complete_frame_fps
            == connection.core.reported(made_at).diagnostics.complete_frame_fps,
{
}

} // verus!
