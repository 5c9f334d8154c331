//! What a sender's control messages do, and what it is told.
use crate::model::{answers, resets_media, CoreModel};
use crate::receiver::{
    ControlFault, MediaAction, PreparedFrame, ReceiverDiagnostics, ReceiverError, SessionPhase,
};
use crate::wire::{
    AlphaCodec, ColorCodec, ControlMessage, ControlPayload, MediaCapabilities, MediaChunkHeader,
    MediaConfiguration, ProtocolError, ReceiverReport,
};
use vstd::prelude::*;

verus! {

/// A greeting is answered by what the receiver handles, once: version 1, H.264
/// colour and A8T1 alpha, up to 1920 by 1080 at 60 frames a second, decoded in
/// hardware and shown through Spout.
pub proof fn law_greeting_is_answered_by_the_limits(
    hello: ControlMessage,
    responses: Seq<ControlMessage>,
)
    requires
        hello.payload is Hello,
        answers(hello, responses),
    ensures
        responses.len() == 1,
        responses[0].version == 1,
        responses[0].payload matches ControlPayload::Capabilities(offered) && {
            &&& offered.protocol_versions@ == seq![1u16]
            &&& offered.color_codecs@ == seq![ColorCodec::H264]
            &&& offered.alpha_codecs@ == seq![AlphaCodec::A8T1]
            &&& offered.max_width == 1_920
            &&& offered.max_height == 1_080
            &&& offered.max_fps == 60
            &&& offered.hardware_decode
            &&& offered.local_spout
        },
{
}

/// A ping comes back as its own pong: what a sender measures between the two is
/// the round trip of that very ping. Two pings are told apart by their pongs.
/// Nothing else but a greeting is answered.
pub proof fn law_pong_echoes_its_ping(
    message: ControlMessage,
    other: ControlMessage,
    responses: Seq<ControlMessage>,
)
    requires
        answers(message, responses),
    ensures
        message.payload matches ControlPayload::Ping { nonce, sent_at_us } ==> {
            &&& responses.len() == 1
            &&& responses[0].version == 1
            &&& responses[0].payload matches ControlPayload::Pong {
                nonce: echoed,
                sent_at_us: echoed_at,
            }
            &&& echoed == nonce
            &&& echoed_at == sent_at_us
        },
        message.payload is Ping && other.payload is Ping && answers(other, responses)
            ==> message.payload == other.payload,
        !(message.payload is Ping) && !(message.payload is Hello) ==> responses.len() == 0,
{
}

/// A configuration is accepted exactly where the protocol has nothing against
/// it, the sender has said what it can handle, and the stream is no larger and
/// no faster than 1920 by 1080 at 60 frames a second and than the sender's own
/// limits.
pub proof fn law_configuration_is_accepted_within_both_limits(
    session: CoreModel,
    configuration: MediaConfiguration,
    reconfigure: bool,
    validation: Result<(), ProtocolError>,
)
    ensures
        ({
            let message = ControlMessage {
                version: 1,
                payload: if reconfigure {
                    ControlPayload::Reconfigure(configuration)
                } else {
                    ControlPayload::Configure(configuration)
                },
            };
            let refusal = session.control_refusal(message, validation);
            &&& refusal is None <==> {
                &&& validation is Ok
                &&& session.sender_capabilities matches Some(sender)
                &&& configuration.width <= 1_920 && configuration.width <= sender.max_width
                &&& configuration.height <= 1_080 && configuration.height <= sender.max_height
                &&& configuration.fps <= 60 && configuration.fps <= sender.max_fps
            }
            &&& validation matches Err(error) ==> refusal == Some(ReceiverError::Protocol(error))
            &&& validation is Ok && session.sender_capabilities is None ==> refusal == Some(
                ReceiverError::InvalidControl(ControlFault::ConfigureBeforeCapabilities),
            )
            &&& validation is Ok && session.sender_capabilities is Some && refusal is Some
                ==> refusal == Some(ReceiverError::UnsupportedConfiguration)
        }),
{
}

/// Capabilities are taken only between the greeting and the configuration, and
/// only of a sender that speaks version 1 with H.264 colour and A8T1 alpha; they
/// are remembered as they came.
pub proof fn law_capabilities_are_negotiated(
    session: CoreModel,
    capabilities: MediaCapabilities,
    validation: Result<(), ProtocolError>,
)
    ensures
        ({
            let message = ControlMessage {
                version: 1,
                payload: ControlPayload::Capabilities(capabilities),
            };
            let refusal = session.control_refusal(message, validation);
            let negotiating = session.phase == SessionPhase::AwaitingConfiguration;
            &&& refusal is None <==> {
                &&& negotiating
                &&& validation is Ok
                &&& capabilities.protocol_versions@.contains(1)
                &&& capabilities.color_codecs@.contains(ColorCodec::H264)
                &&& capabilities.alpha_codecs@.contains(AlphaCodec::A8T1)
            }
            &&& !negotiating ==> refusal == Some(
                ReceiverError::InvalidControl(ControlFault::CapabilitiesOutsideNegotiation),
            )
            &&& negotiating && validation is Err ==> refusal == Some(
                ReceiverError::Protocol(validation->Err_0),
            )
            &&& negotiating && validation is Ok && refusal is Some ==> refusal == Some(
                ReceiverError::UnsupportedConfiguration,
            )
            &&& session.controlled(message) == (CoreModel {
                sender_capabilities: Some(capabilities),
                ..session
            })
        }),
{
}

/// Each other message has its own condition: a message of another version is
/// refused whatever it says; a greeting needs version 1 among those that the
/// sender speaks; a stream starts only under a configuration; stopping, leaving
/// and pinging are always accepted; and what only a receiver sends is refused.
pub proof fn law_messages_are_refused_by_their_kind(
    session: CoreModel,
    message: ControlMessage,
    validation: Result<(), ProtocolError>,
)
    ensures
        ({
            let refusal = session.control_refusal(message, validation);
            &&& message.version != 1 ==> refusal == Some(
                ReceiverError::InvalidControl(ControlFault::UnsupportedVersion),
            )
            &&& message.version == 1 ==> {
                &&& message.payload matches ControlPayload::Hello { supported_versions, .. } ==> {
                    &&& supported_versions@.contains(1) ==> refusal is None
                    &&& !supported_versions@.contains(1) ==> refusal == Some(
                        ReceiverError::InvalidControl(ControlFault::NoCommonVersion),
                    )
                }
                &&& message.payload is Start && session.configuration is Some ==> refusal is None
                &&& message.payload is Start && session.configuration is None ==> refusal == Some(
                    ReceiverError::InvalidControl(ControlFault::StartBeforeConfigure),
                )
                &&& message.payload is Stop || message.payload is Goodbye || message.payload is Ping
                    ==> refusal is None
                &&& message.payload is Pong || message.payload is RequestIdr || message.payload
                    is ReceiverReport || message.payload is Error || message.payload is Unknown
                    ==> refusal == Some(
                    ReceiverError::InvalidControl(ControlFault::ReceiverOnlyMessage),
                )
            }
        }),
{
}

/// A session holds no media: nothing is awaited, given up, ready or remembered
/// as shown, the clock is not fixed, and no request is left over.
pub open spec fn holds_no_media(session: CoreModel) -> bool {
    &&& session.inflight == Map::<u64, crate::model::InflightFrame>::empty()
    &&& session.dropped == Map::<u64, u64>::empty()
    &&& session.received_at == Map::<u64, u64>::empty()
    &&& session.published_window.len() == 0
    &&& session.clock_anchor is None
    &&& session.latest_ready is None
    &&& !session.request_idr_pending
    &&& session.diagnostics.jitter_buffer_depth == 0
}

/// Two sessions have counted and measured the same, apart from the frames that
/// are buffered.
pub open spec fn counted_alike(one: CoreModel, other: CoreModel) -> bool {
    one.diagnostics == ReceiverDiagnostics {
        jitter_buffer_depth: one.diagnostics.jitter_buffer_depth,
        ..other.diagnostics
    }
}

/// A configuration, a stop and a goodbye make the receiver forget all media, in
/// the session and in reassembly; a greeting, capabilities, a start and a ping
/// leave all of it alone. Nothing of it touches the counters.
pub proof fn law_media_is_forgotten_with_its_stream(session: CoreModel, message: ControlMessage)
    ensures
        ({
            let next = session.controlled(message);
            let ends = {
                ||| message.payload is Configure
                ||| message.payload is Reconfigure
                ||| message.payload is Stop
                ||| message.payload is Goodbye
            };
            &&& resets_media(message) == ends
            &&& ends ==> holds_no_media(next)
            &&& !ends ==> next == (CoreModel {
                phase: next.phase,
                sender_capabilities: next.sender_capabilities,
                ..session
            })
            &&& counted_alike(next, session)
        }),
{
}

/// Every message leads to the phase of its own: a greeting opens the
/// negotiation, a configuration is set, a start lets media flow, a stop ends
/// that, and a goodbye closes the session. Only a configuration changes what is
/// streamed, and only capabilities change what the sender can handle.
pub proof fn law_messages_lead_to_their_phases(session: CoreModel, message: ControlMessage)
    ensures
        ({
            let next = session.controlled(message);
            &&& message.payload is Hello ==> next.phase == SessionPhase::AwaitingConfiguration
            &&& message.payload is Start ==> next.phase == SessionPhase::Streaming
            &&& message.payload is Stop ==> next.phase == SessionPhase::Stopped
            &&& message.payload is Goodbye ==> next.phase == SessionPhase::Closed
            &&& message.payload is Ping ==> next == session
            &&& message.payload is Capabilities ==> next.phase == session.phase
            &&& match message.payload {
                ControlPayload::Configure(configuration) => {
                    &&& next.phase == SessionPhase::Configured
                    &&& next.configuration == Some(configuration)
                    &&& next.adaptive.requested_bitrate_bps == configuration.target_bitrate_bps
                    &&& next.adaptive.requested_fps == configuration.fps
                    &&& next.adaptive.nominal_bitrate_bps == configuration.target_bitrate_bps
                    &&& next.adaptive.nominal_fps == configuration.fps
                },
                ControlPayload::Reconfigure(configuration) => {
                    &&& next.phase == SessionPhase::Configured
                    &&& next.configuration == Some(configuration)
                    &&& next.adaptive.requested_bitrate_bps == configuration.target_bitrate_bps
                    &&& next.adaptive.requested_fps == configuration.fps
                    &&& next.adaptive.nominal_bitrate_bps >= session.adaptive.nominal_bitrate_bps
                    &&& next.adaptive.nominal_fps >= session.adaptive.nominal_fps
                },
                _ => {
                    &&& next.configuration == session.configuration
                    &&& next.adaptive == session.adaptive
                },
            }
            &&& !(message.payload is Capabilities) ==> next.sender_capabilities
                == session.sender_capabilities
        }),
{
}

/// Media is taken only while the session streams. Before that, after a stop and
/// after a goodbye it is refused, and changes nothing; so does a datagram that
/// the protocol cannot read.
pub proof fn law_media_needs_a_stream(
    session: CoreModel,
    header: Result<MediaChunkHeader, ProtocolError>,
    received_at: u64,
)
    requires
        session.inv(),
    ensures
        ({
            let (next, result) = session.pushed(header, received_at);
            &&& session.phase != SessionPhase::Streaming ==> {
                &&& next == session
                &&& result == Err::<MediaAction, ReceiverError>(
                    ReceiverError::InvalidControl(ControlFault::MediaWhileNotStreaming),
                )
            }
            &&& session.phase == SessionPhase::Streaming ==> {
                &&& header matches Err(error) ==> {
                    &&& next == session
                    &&& result == Err::<MediaAction, ReceiverError>(ReceiverError::Protocol(error))
                }
                &&& header is Ok ==> result is Ok
            }
        }),
{
}

/// A new connection starts over: nothing of the old negotiation, configuration
/// or media is left, and nothing is requested; the counters go on.
pub proof fn law_reconnect_starts_over(session: CoreModel, now: u64)
    ensures
        ({
            let next = session.reconnected();
            &&& next.phase == SessionPhase::AwaitingHello
            &&& next.sender_capabilities is None
            &&& next.configuration is None
            &&& holds_no_media(next)
            &&& counted_alike(next, session)
            &&& next.adaptive.requested_bitrate_bps == 0
            &&& next.adaptive.requested_fps == 0
            &&& next.frame_taken(now).1 is None
            &&& next.idr_request() is None
        }),
{
}

/// What a report says.
pub open spec fn reads(message: ControlMessage) -> ReceiverReport {
    message.payload->ReceiverReport_0
}

/// A report names the generation of the configuration, or generation 0 where
/// there is none, and repeats the session's counters, measurements and requests,
/// each in its own field, with the queue depth and the state of the decoder as
/// they were given.
pub proof fn law_report_repeats_the_session(
    session: CoreModel,
    decode_queue_depth: u16,
    hardware_decode_active: bool,
)
    ensures
        ({
            let message = session.report(decode_queue_depth, hardware_decode_active);
            let report = reads(message);
            &&& message.version == 1
            &&& message.payload is ReceiverReport
            &&& session.configuration matches Some(configuration) ==> report.generation
                == configuration.generation
            &&& session.configuration is None ==> report.generation == 0
            &&& report.last_complete_color_frame == session.diagnostics.last_complete_color_frame
            &&& report.last_complete_alpha_frame == session.diagnostics.last_complete_alpha_frame
            &&& report.incomplete_frames == session.diagnostics.incomplete_frames
            &&& report.dropped_frames == session.diagnostics.dropped_frames
            &&& report.decode_queue_depth == decode_queue_depth
            &&& report.playout_latency_us == session.diagnostics.playout_latency_us
            &&& report.rtt_us == session.diagnostics.rtt_us
            &&& report.jitter_us == session.diagnostics.jitter_us
            &&& report.hardware_decode_active == hardware_decode_active
            &&& report.requested_bitrate_bps == session.adaptive.requested_bitrate_bps
            &&& report.requested_fps == session.adaptive.requested_fps
            &&& report.requested_alpha_codec == AlphaCodec::A8T1
        }),
{
}

/// A report tells what happened: a measured round trip and jitter, the complete
/// colour and alpha plane that came last, a frame that was dropped, and the
/// bitrate and frame rate of a configuration that was just set, each where it
/// belongs and nowhere else.
pub proof fn law_report_tells_what_happened(
    session: CoreModel,
    rtt_us: u64,
    jitter_us: u64,
    estimate: Option<u64>,
    configuration: MediaConfiguration,
    depth: u16,
    active: bool,
)
    ensures
        ({
            let before = reads(session.report(depth, active));
            let measured = reads(
                session.network_observed(rtt_us, jitter_us, estimate).report(depth, active),
            );
            let configured = reads(
                session.controlled(
                    ControlMessage {
                        version: 1,
                        payload: ControlPayload::Configure(configuration),
                    },
                ).report(depth, active),
            );
            let failed = reads(session.decode_failed().report(depth, active));
            let skipped = reads(session.spout_skipped().report(depth, active));
            &&& measured == (ReceiverReport {
                rtt_us: if rtt_us <= 0xffff_ffff {
                    rtt_us as u32
                } else {
                    0xffff_ffff
                },
                jitter_us: if jitter_us <= 0xffff_ffff {
                    jitter_us as u32
                } else {
                    0xffff_ffff
                },
                requested_bitrate_bps: measured.requested_bitrate_bps,
                requested_fps: measured.requested_fps,
                ..before
            })
            &&& configured == (ReceiverReport {
                generation: configuration.generation,
                requested_bitrate_bps: configuration.target_bitrate_bps,
                requested_fps: configuration.fps,
                ..before
            })
            &&& before.dropped_frames < u64::MAX ==> {
                &&& failed == (ReceiverReport {
                    dropped_frames: (before.dropped_frames + 1) as u64,
                    ..before
                })
                &&& skipped == failed
            }
        }),
{
}

/// Making a report changes nothing but the frame rate that is shown, and a
/// session that was measured has its measurements where they belong: each time
/// that the pipeline took in its own field, and nothing else.
pub proof fn law_measurements_are_kept_apart(
    session: CoreModel,
    decode_us: u32,
    composite_us: u32,
    publish_us: u32,
    now: u64,
)
    ensures
        ({
            let next = session.pipeline_observed(decode_us, composite_us, publish_us);
            let reported = session.reported(now);
            &&& next.diagnostics.color_decode_submit_cpu_us == decode_us
            &&& next.diagnostics.composite_enqueue_cpu_us == composite_us
            &&& next.diagnostics.spout_publish_cpu_us == publish_us
            &&& next == (CoreModel {
                diagnostics: ReceiverDiagnostics {
                    color_decode_submit_cpu_us: decode_us,
                    composite_enqueue_cpu_us: composite_us,
                    spout_publish_cpu_us: publish_us,
                    ..session.diagnostics
                },
                ..session
            })
            &&& reported == (CoreModel {
                published_window: reported.published_window,
                diagnostics: ReceiverDiagnostics {
                    complete_frame_fps: reported.diagnostics.complete_frame_fps,
                    ..session.diagnostics
                },
                ..session
            })
        }),
{
}

/// Every drop has its own counter beside the common one: a frame that could not
/// be decoded, one that the output skipped, and a datagram of another
/// generation. Only the first asks for a key frame.
pub proof fn law_drops_are_counted_by_their_cause(
    session: CoreModel,
    header: MediaChunkHeader,
    received_at: u64,
)
    requires
        session.inv(),
        session.phase == SessionPhase::Streaming,
        session.configuration->Some_0.generation != header.generation,
        session.diagnostics.dropped_frames < u64::MAX,
        session.diagnostics.decode_failures < u64::MAX,
        session.diagnostics.latest_frame_drops < u64::MAX,
        session.diagnostics.idr_requests < u64::MAX,
    ensures
        ({
            let dropped = (session.diagnostics.dropped_frames + 1) as u64;
            let failed = session.decode_failed();
            &&& session.pushed(Ok(header), received_at).0 == (CoreModel {
                diagnostics: ReceiverDiagnostics { dropped_frames: dropped, ..session.diagnostics },
                ..session
            })
            &&& session.spout_skipped() == (CoreModel {
                diagnostics: ReceiverDiagnostics {
                    dropped_frames: dropped,
                    latest_frame_drops: (session.diagnostics.latest_frame_drops + 1) as u64,
                    ..session.diagnostics
                },
                ..session
            })
            &&& failed == (CoreModel {
                request_idr_pending: true,
                diagnostics: ReceiverDiagnostics {
                    dropped_frames: dropped,
                    decode_failures: (session.diagnostics.decode_failures + 1) as u64,
                    idr_requests: if session.request_idr_pending {
                        session.diagnostics.idr_requests
                    } else {
                        (session.diagnostics.idr_requests + 1) as u64
                    },
                    ..session.diagnostics
                },
                ..session
            })
        }),
{
}

/// Taking the ready frame hands it out once, as it is and not before its time,
/// and changes nothing else.
pub proof fn law_ready_frame_is_taken_once(session: CoreModel, frame: PreparedFrame, now: u64)
    requires
        session.inv(),
        session.latest_ready == Some(frame),
    ensures
        ({
            let (next, taken) = session.frame_taken(now);
            &&& now < frame.playout_at ==> taken is None && next == session
            &&& now >= frame.playout_at ==> {
                &&& taken == Some(frame)
                &&& next.latest_ready is None
                &&& next.inflight == session.inflight
                &&& next.diagnostics.jitter_buffer_depth == session.diagnostics.jitter_buffer_depth
                    - 1
                &&& counted_alike(next, session)
                &&& next.frame_taken(u64::MAX).1 is None
            }
        }),
{
}


/// A session begins before its greeting, with nothing negotiated, configured,
/// requested, buffered, counted or measured.
pub proof fn law_session_begins_with_nothing()
    ensures
        ({
            let session = CoreModel::initial();
            let counts = session.diagnostics;
            &&& session.inv()
            &&& session.phase == SessionPhase::AwaitingHello
            &&& session.sender_capabilities is None
            &&& session.configuration is None
            &&& holds_no_media(session)
            &&& session.adaptive.requested_bitrate_bps == 0
            &&& session.adaptive.requested_fps == 0
            &&& counts.incomplete_frames == 0 && counts.dropped_frames == 0
            &&& counts.late_frames == 0 && counts.replaced_ready_frames == 0
            &&& counts.completed_frames == 0 && counts.decode_failures == 0
            &&& counts.idr_requests == 0 && counts.latest_frame_drops == 0
            &&& counts.last_complete_color_frame is None
            &&& counts.last_complete_alpha_frame is None
            &&& counts.last_published_frame is None
            &&& counts.rtt_us == 0 && counts.jitter_us == 0
            &&& counts.playout_latency_us == 0 && counts.receive_to_publish_latency_us == 0
            &&& counts.alpha_decode_cpu_us == 0 && counts.color_decode_submit_cpu_us == 0
            &&& counts.composite_enqueue_cpu_us == 0 && counts.spout_publish_cpu_us == 0
            &&& counts.complete_frame_fps == 0
        }),
{
}

} // verus!
