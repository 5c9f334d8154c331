use nanalive_link_receiver::receiver::{
    elapsed_us, frame_key, ControlFault, MediaAction, MediaTicket, PreparedFrame, ReassemblyAction,
    ReceiverCore, ReceiverDiagnostics, ReceiverError, SessionPhase, MAX_DROPPED_FRAME_TOMBSTONES,
    MAX_FPS, MAX_HEIGHT, MAX_INCOMPLETE_FRAMES, MAX_PLAYOUT_HORIZON_NS, MAX_WIDTH,
};
use nanalive_link_receiver::wire::{
    AlphaCodec, AlphaFrame, ColorCodec, ControlMessage, ControlPayload, MediaCapabilities,
    MediaChunkHeader, MediaConfiguration, MediaFlow, ProtocolError, ReassemblyOutcome,
    ReceiverReport, SynchronizedPair, PROTOCOL_VERSION_V1,
};

const NOW: u64 = 5_000_000_000;
const MILLISECOND: u64 = 1_000_000;

fn message(payload: ControlPayload) -> ControlMessage {
    ControlMessage::v1(payload)
}

fn hello() -> ControlMessage {
    message(ControlPayload::Hello {
        endpoint_nonce: [1; 16],
        supported_versions: vec![PROTOCOL_VERSION_V1],
    })
}

fn sender_capabilities() -> MediaCapabilities {
    MediaCapabilities {
        protocol_versions: vec![PROTOCOL_VERSION_V1],
        color_codecs: vec![ColorCodec::H264],
        alpha_codecs: vec![AlphaCodec::A8T1],
        max_width: MAX_WIDTH,
        max_height: MAX_HEIGHT,
        max_fps: MAX_FPS,
        hardware_decode: false,
        local_spout: false,
    }
}

fn small_configuration(generation: u16) -> MediaConfiguration {
    MediaConfiguration {
        generation,
        width: 2,
        height: 2,
        fps: 60,
        color_codec: ColorCodec::H264,
        alpha_codec: AlphaCodec::A8T1,
        target_bitrate_bps: 1_000_000,
        max_bitrate_bps: 2_000_000,
    }
}

fn configure(core: &mut ReceiverCore, generation: u16) {
    core.handle_control(hello(), Ok(())).unwrap();
    core.handle_control(
        message(ControlPayload::Capabilities(sender_capabilities())),
        Ok(()),
    )
    .unwrap();
    core.handle_control(
        message(ControlPayload::Configure(small_configuration(generation))),
        Ok(()),
    )
    .unwrap();
    core.handle_control(message(ControlPayload::Start), Ok(()))
        .unwrap();
}

fn header(flow: MediaFlow, generation: u16, frame_id: u32, pts_us: u64) -> MediaChunkHeader {
    MediaChunkHeader {
        flow,
        generation,
        frame_id,
        pts_us,
    }
}

fn push(
    core: &mut ReceiverCore,
    flow: MediaFlow,
    generation: u16,
    frame_id: u32,
    pts_us: u64,
    now: u64,
) -> MediaTicket {
    match core
        .push_media_datagram(Ok(header(flow, generation, frame_id, pts_us)), now)
        .unwrap()
    {
        MediaAction::Reassemble(ticket) => ticket,
        other => panic!("datagram was not awaited: {other:?}"),
    }
}

/// One plane in two datagrams, the second of which completes it.
fn push_plane(
    core: &mut ReceiverCore,
    flow: MediaFlow,
    generation: u16,
    frame_id: u32,
    pts_us: u64,
    now: u64,
) -> MediaTicket {
    let ticket = push(core, flow, generation, frame_id, pts_us, now);
    assert_eq!(
        core.note_reassembly(&ticket, Ok(ReassemblyOutcome::Pending)),
        Ok(ReassemblyAction::Done)
    );
    let ticket = push(core, flow, generation, frame_id, pts_us, now);
    assert_eq!(
        core.note_reassembly(&ticket, Ok(ReassemblyOutcome::Completed { flow, frame_id })),
        Ok(ReassemblyAction::Synchronize)
    );
    ticket
}

fn pair(generation: u16, frame_id: u32, pts_us: u64) -> SynchronizedPair {
    SynchronizedPair {
        generation,
        frame_id,
        pts_us,
        color: b"h264-access-unit".to_vec(),
    }
}

fn alpha(generation: u16, frame_id: u32, pts_us: u64) -> AlphaFrame {
    AlphaFrame {
        generation,
        frame_id,
        pts_us,
        width: 2,
        height: 2,
        alpha: vec![0, 64, 128, 255],
    }
}

fn push_pair(core: &mut ReceiverCore, generation: u16, frame_id: u32, pts_us: u64, now: u64) {
    push_plane(core, MediaFlow::Color, generation, frame_id, pts_us, now);
    assert_eq!(core.note_synchronization(Ok(false)), Ok(false));
    let ticket = push_plane(core, MediaFlow::Alpha, generation, frame_id, pts_us, now);
    assert_eq!(core.note_synchronization(Ok(true)), Ok(true));
    core.note_alpha(
        &ticket,
        pair(generation, frame_id, pts_us),
        Ok(alpha(generation, frame_id, pts_us)),
        0,
    )
    .unwrap();
}

fn report_of(message: ControlMessage) -> ReceiverReport {
    match message.payload {
        ControlPayload::ReceiverReport(report) => report,
        _ => panic!("receiver report expected"),
    }
}

fn refusal(text: &str) -> ProtocolError {
    ProtocolError {
        message: text.to_owned(),
    }
}

#[test]
fn negotiates_and_reassembles_out_of_order_color_alpha_pair() {
    let mut core = ReceiverCore::new();
    configure(&mut core, 7);
    let now = NOW;
    push_pair(&mut core, 7, 5, 1_000, now);
    let frame = core.take_latest_frame(now + 20 * MILLISECOND).unwrap();
    assert_eq!(frame.h264, b"h264-access-unit");
    assert_eq!(frame.alpha, vec![0, 64, 128, 255]);
    assert_eq!(core.diagnostics().completed_frames, 1);
}

#[test]
fn latest_complete_pair_replaces_undecoded_older_pair() {
    let mut core = ReceiverCore::new();
    configure(&mut core, 1);
    let now = NOW;
    for id in [1, 2] {
        push_pair(&mut core, 1, id, u64::from(id) * 16_667, now);
    }
    assert_eq!(
        core.take_latest_frame(now + 40 * MILLISECOND)
            .unwrap()
            .frame_id,
        2
    );
    assert_eq!(core.diagnostics().replaced_ready_frames, 1);
}

#[test]
fn queue_depth_query_does_not_consume_ready_frame() {
    let mut core = ReceiverCore::new();
    configure(&mut core, 1);
    let now = NOW;
    push_pair(&mut core, 1, 3, 0, now);
    assert_eq!(core.ready_queue_depth(), 1);
    assert_eq!(core.ready_queue_depth(), 1);
    assert_eq!(
        core.take_latest_frame(now + 20 * MILLISECOND)
            .unwrap()
            .frame_id,
        3
    );
}

#[test]
fn mutsuki_protocol_bound_control_stream_round_trips_negotiation() {
    let mut core = ReceiverCore::new();
    let response = core
        .handle_control(hello(), Ok(()))
        .unwrap()
        .responses
        .remove(0);
    assert!(matches!(response.payload, ControlPayload::Capabilities(_)));
    for message in [
        ControlMessage::v1(ControlPayload::Capabilities(MediaCapabilities {
            protocol_versions: vec![PROTOCOL_VERSION_V1],
            color_codecs: vec![ColorCodec::H264],
            alpha_codecs: vec![AlphaCodec::A8T1],
            max_width: 1_920,
            max_height: 1_080,
            max_fps: 60,
            hardware_decode: false,
            local_spout: false,
        })),
        ControlMessage::v1(ControlPayload::Configure(MediaConfiguration {
            generation: 1,
            width: 1_920,
            height: 1_080,
            fps: 60,
            color_codec: ColorCodec::H264,
            alpha_codec: AlphaCodec::A8T1,
            target_bitrate_bps: 10_000_000,
            max_bitrate_bps: 20_000_000,
        })),
        ControlMessage::v1(ControlPayload::Start),
    ] {
        core.handle_control(message, Ok(())).unwrap();
    }
    assert_eq!(core.phase(), SessionPhase::Streaming);
}

#[test]
fn expired_p_frame_requests_one_idr_for_current_generation() {
    let mut core = ReceiverCore::new();
    configure(&mut core, 9);
    let now = NOW;
    let ticket = push(&mut core, MediaFlow::Color, 9, 10, 0, now);
    core.note_reassembly(&ticket, Ok(ReassemblyOutcome::Pending))
        .unwrap();
    core.expire(now + 20 * MILLISECOND);
    let request = core.take_idr_request().unwrap();
    assert_eq!(
        request.payload,
        ControlPayload::RequestIdr { generation: 9 }
    );
    assert!(core.take_idr_request().is_none());
}

#[test]
fn complete_color_without_alpha_expires_pair_and_requests_idr() {
    let mut core = ReceiverCore::new();
    configure(&mut core, 9);
    let now = NOW;
    push_plane(&mut core, MediaFlow::Color, 9, 10, 0, now);
    assert_eq!(core.note_synchronization(Ok(false)), Ok(false));
    assert_eq!(core.inflight_frame_count(), 1);
    assert_eq!(core.diagnostics().jitter_buffer_depth, 1);
    core.expire(now + 20 * MILLISECOND);
    assert_eq!(core.diagnostics().incomplete_frames, 1);
    assert_eq!(core.diagnostics().jitter_buffer_depth, 0);
    assert!(matches!(
        core.take_idr_request().unwrap().payload,
        ControlPayload::RequestIdr { generation: 9 }
    ));
}

#[test]
fn complete_alpha_without_color_is_bounded_and_requests_idr() {
    let mut core = ReceiverCore::new();
    configure(&mut core, 3);
    let now = NOW;
    push_plane(&mut core, MediaFlow::Alpha, 3, 4, 0, now);
    assert_eq!(core.note_synchronization(Ok(false)), Ok(false));
    core.expire(now + 20 * MILLISECOND);
    assert_eq!(core.diagnostics().incomplete_frames, 1);
    assert!(core.take_idr_request().is_some());
    assert_eq!(core.inflight_frame_count(), 0);
}

#[test]
fn extreme_pts_reanchors_without_panicking_or_extending_frame_state() {
    let mut core = ReceiverCore::new();
    configure(&mut core, 1);
    let now = NOW;
    for (frame_id, pts_us) in [(1, 0), (2, u64::MAX)] {
        let ticket = push(&mut core, MediaFlow::Color, 1, frame_id, pts_us, now);
        core.note_reassembly(&ticket, Ok(ReassemblyOutcome::Pending))
            .unwrap();
    }
    assert!(core.inflight_frame_count() <= MAX_INCOMPLETE_FRAMES);
    for frame_id in [1, 2] {
        assert!(core.inflight_deadline(1, frame_id).unwrap() <= now + MAX_PLAYOUT_HORIZON_NS);
    }
}

#[test]
fn sustained_distinct_incomplete_frames_keep_all_receiver_state_bounded() {
    let mut core = ReceiverCore::new();
    configure(&mut core, 1);
    let now = NOW;
    for frame_id in 0..100 {
        let ticket = push(
            &mut core,
            MediaFlow::Color,
            1,
            frame_id,
            u64::from(frame_id) * 1_000,
            now,
        );
        core.note_reassembly(&ticket, Ok(ReassemblyOutcome::Pending))
            .unwrap();
        assert!(core.inflight_frame_count() <= MAX_INCOMPLETE_FRAMES);
        assert!(core.dropped_frame_count() <= MAX_DROPPED_FRAME_TOMBSTONES);
        assert!(usize::from(core.diagnostics().jitter_buffer_depth) <= MAX_INCOMPLETE_FRAMES);
    }
    assert!(core.take_idr_request().is_some());
}

#[test]
fn reconfigure_discards_old_generation_and_resets_latest_queue() {
    let mut core = ReceiverCore::new();
    configure(&mut core, 1);
    push_pair(&mut core, 1, 1, 0, NOW);
    let mut next = *core.configuration().unwrap();
    next.generation = 2;
    let outcome = core
        .handle_control(message(ControlPayload::Reconfigure(next)), Ok(()))
        .unwrap();
    assert!(outcome.reset_media);
    assert!(core.take_latest_frame(NOW + 1_000 * MILLISECOND).is_none());
    assert_eq!(core.phase(), SessionPhase::Configured);
}

#[test]
fn ping_and_report_are_real_protocol_messages() {
    let mut core = ReceiverCore::new();
    let pong = core
        .handle_control(
            message(ControlPayload::Ping {
                nonce: 4,
                sent_at_us: 8,
            }),
            Ok(()),
        )
        .unwrap()
        .responses;
    assert_eq!(
        pong[0].payload,
        ControlPayload::Pong {
            nonce: 4,
            sent_at_us: 8
        }
    );
    configure(&mut core, 1);
    let received_at = NOW;
    push_pair(&mut core, 1, 9, 0, received_at);
    let frame = core
        .take_latest_frame(received_at + 20 * MILLISECOND)
        .unwrap();
    core.note_published(frame.frame_id, received_at + 20 * MILLISECOND);
    core.update_network_diagnostics(500, 20, Some(2_000_000));
    let report = report_of(core.receiver_report(received_at + 21 * MILLISECOND, 1, false));
    assert_eq!(report.rtt_us, 500);
    assert_eq!(report.playout_latency_us, 20_000);
    assert!(!report.hardware_decode_active);
}

#[test]
fn adaptive_report_lowers_bitrate_before_fps_and_recovers_with_debounce() {
    let mut core = ReceiverCore::new();
    core.handle_control(hello(), Ok(())).unwrap();
    core.handle_control(
        message(ControlPayload::Capabilities(sender_capabilities())),
        Ok(()),
    )
    .unwrap();
    core.handle_control(
        message(ControlPayload::Configure(MediaConfiguration {
            generation: 1,
            width: 1_920,
            height: 1_080,
            fps: 60,
            color_codec: ColorCodec::H264,
            alpha_codec: AlphaCodec::A8T1,
            target_bitrate_bps: 100_000_000,
            max_bitrate_bps: 100_000_000,
        })),
        Ok(()),
    )
    .unwrap();
    core.update_network_diagnostics(20_000, 100, Some(10_000_000));
    let constrained = report_of(core.receiver_report(NOW, 0, true));
    assert_eq!(constrained.requested_bitrate_bps, 8_000_000);
    assert_eq!(constrained.requested_fps, 60);

    let mut adaptive_configuration = *core.configuration().unwrap();
    adaptive_configuration.generation = 2;
    adaptive_configuration.target_bitrate_bps = constrained.requested_bitrate_bps;
    core.handle_control(
        message(ControlPayload::Reconfigure(adaptive_configuration)),
        Ok(()),
    )
    .unwrap();
    core.handle_control(message(ControlPayload::Start), Ok(()))
        .unwrap();
    assert_eq!(core.phase(), SessionPhase::Streaming);
    assert_eq!(
        core.push_media_datagram(Ok(header(MediaFlow::Color, 1, 99, 0)), NOW),
        Ok(MediaAction::Discard)
    );
    assert!(core.diagnostics().dropped_frames > 0);

    for _ in 0..4 {
        core.update_network_diagnostics(20_000, 100, Some(200_000_000));
    }
    let debounced = report_of(core.receiver_report(NOW, 0, true));
    assert_eq!(debounced.requested_bitrate_bps, 8_000_000);
    core.update_network_diagnostics(20_000, 100, Some(200_000_000));
    let recovering = report_of(core.receiver_report(NOW, 0, true));
    assert_eq!(recovering.requested_bitrate_bps, 18_000_000);
    assert_eq!(recovering.requested_alpha_codec, AlphaCodec::A8T1);
}

#[test]
fn a_fresh_session_counts_and_holds_nothing() {
    let core = ReceiverCore::new();
    assert_eq!(core.phase(), SessionPhase::AwaitingHello);
    assert!(core.configuration().is_none());
    assert_eq!(*core.diagnostics(), ReceiverDiagnostics::default());
    assert_eq!(core.ready_queue_depth(), 0);
    assert_eq!(core.inflight_deadline(0, 0), None);
}

#[test]
fn capabilities_are_the_receiver_limits() {
    assert_eq!(
        ReceiverCore::capabilities(),
        MediaCapabilities {
            protocol_versions: vec![1],
            color_codecs: vec![ColorCodec::H264],
            alpha_codecs: vec![AlphaCodec::A8T1],
            max_width: 1_920,
            max_height: 1_080,
            max_fps: 60,
            hardware_decode: true,
            local_spout: true,
        }
    );
}

#[test]
fn each_control_fault_has_its_message_and_changes_nothing() {
    let mut core = ReceiverCore::new();
    let old_version = ControlMessage {
        version: 2,
        payload: ControlPayload::Start,
    };
    let cases: Vec<(ControlMessage, ControlFault, &str)> = vec![
        (
            old_version,
            ControlFault::UnsupportedVersion,
            "invalid control state: unsupported protocol version",
        ),
        (
            message(ControlPayload::Hello {
                endpoint_nonce: [0; 16],
                supported_versions: vec![2, 3],
            }),
            ControlFault::NoCommonVersion,
            "invalid control state: no common protocol version",
        ),
        (
            message(ControlPayload::Capabilities(sender_capabilities())),
            ControlFault::CapabilitiesOutsideNegotiation,
            "invalid control state: sender capabilities outside negotiation",
        ),
        (
            message(ControlPayload::Start),
            ControlFault::StartBeforeConfigure,
            "invalid control state: start before configure",
        ),
        (
            message(ControlPayload::Configure(small_configuration(1))),
            ControlFault::ConfigureBeforeCapabilities,
            "invalid control state: configure before sender capabilities",
        ),
        (
            message(ControlPayload::Pong {
                nonce: 1,
                sent_at_us: 2,
            }),
            ControlFault::ReceiverOnlyMessage,
            "invalid control state: sender emitted a receiver-only or unknown control message",
        ),
    ];
    for (control, fault, text) in cases {
        let error = core.handle_control(control, Ok(())).unwrap_err();
        assert_eq!(error, ReceiverError::InvalidControl(fault));
        assert_eq!(error.text(), text);
        assert_eq!(core.phase(), SessionPhase::AwaitingHello);
    }
    for payload in [
        ControlPayload::Unknown,
        ControlPayload::Error,
        ControlPayload::RequestIdr { generation: 1 },
    ] {
        assert_eq!(
            core.handle_control(message(payload), Ok(())),
            Err(ReceiverError::InvalidControl(
                ControlFault::ReceiverOnlyMessage
            ))
        );
    }
}

#[test]
fn media_needs_a_stream() {
    let mut core = ReceiverCore::new();
    let error = core
        .push_media_datagram(Ok(header(MediaFlow::Color, 1, 1, 0)), NOW)
        .unwrap_err();
    assert_eq!(error.text(), "invalid control state: media received while not streaming");
    assert_eq!(
        ControlFault::MediaBeforeConfigure.text(),
        "media received before configure"
    );
    configure(&mut core, 1);
    let error = core
        .push_media_datagram(Err(refusal("short header")), NOW)
        .unwrap_err();
    assert_eq!(error.text(), "protocol error: short header");
    assert_eq!(
        ReceiverError::from(refusal("x")),
        ReceiverError::Protocol(refusal("x"))
    );
}

#[test]
fn configurations_beyond_either_side_are_refused() {
    let mut core = ReceiverCore::new();
    core.handle_control(hello(), Ok(())).unwrap();
    let mut weak = sender_capabilities();
    weak.max_width = 640;
    core.handle_control(message(ControlPayload::Capabilities(weak)), Ok(()))
        .unwrap();
    let mut wide = small_configuration(1);
    wide.width = 641;
    let error = core
        .handle_control(message(ControlPayload::Configure(wide)), Ok(()))
        .unwrap_err();
    assert_eq!(error, ReceiverError::UnsupportedConfiguration);
    assert_eq!(error.text(), "unsupported media configuration");
    assert_eq!(core.phase(), SessionPhase::AwaitingConfiguration);
    assert_eq!(
        core.handle_control(
            message(ControlPayload::Configure(small_configuration(1))),
            Err(refusal("odd width"))
        ),
        Err(ReceiverError::Protocol(refusal("odd width")))
    );
    let mut fast = small_configuration(1);
    fast.fps = 61;
    assert_eq!(
        core.handle_control(message(ControlPayload::Configure(fast)), Ok(())),
        Err(ReceiverError::UnsupportedConfiguration)
    );
    wide.width = 640;
    core.handle_control(message(ControlPayload::Configure(wide)), Ok(()))
        .unwrap();
    assert_eq!(core.phase(), SessionPhase::Configured);
}

#[test]
fn capabilities_without_a_common_codec_are_refused() {
    let mut core = ReceiverCore::new();
    core.handle_control(hello(), Ok(())).unwrap();
    for broken in 0..3 {
        let mut offer = sender_capabilities();
        match broken {
            0 => offer.protocol_versions = vec![7],
            1 => offer.color_codecs = vec![ColorCodec::Unknown(9)],
            _ => offer.alpha_codecs = vec![],
        }
        assert_eq!(
            core.handle_control(message(ControlPayload::Capabilities(offer)), Ok(())),
            Err(ReceiverError::UnsupportedConfiguration)
        );
    }
    assert_eq!(
        core.handle_control(
            message(ControlPayload::Capabilities(sender_capabilities())),
            Err(refusal("no codecs"))
        ),
        Err(ReceiverError::Protocol(refusal("no codecs")))
    );
}

#[test]
fn stop_and_goodbye_forget_all_media() {
    for (payload, phase) in [
        (ControlPayload::Stop, SessionPhase::Stopped),
        (ControlPayload::Goodbye, SessionPhase::Closed),
    ] {
        let mut core = ReceiverCore::new();
        configure(&mut core, 1);
        push_pair(&mut core, 1, 1, 0, NOW);
        push(&mut core, MediaFlow::Color, 1, 2, 16_667, NOW);
        let outcome = core.handle_control(message(payload), Ok(())).unwrap();
        assert!(outcome.reset_media);
        assert!(outcome.responses.is_empty());
        assert_eq!(core.phase(), phase);
        assert_eq!(core.diagnostics().jitter_buffer_depth, 0);
        assert_eq!(core.inflight_frame_count(), 0);
        assert_eq!(core.ready_queue_depth(), 0);
    }
}

#[test]
fn a_frame_is_shown_one_frame_after_its_arrival_and_not_before() {
    let mut core = ReceiverCore::new();
    configure(&mut core, 1);
    push_pair(&mut core, 1, 1, 0, NOW);
    // 60 frames a second: 16 666 whole microseconds.
    assert_eq!(core.take_latest_frame(NOW + 16_665_999), None);
    let frame: PreparedFrame = core.take_latest_frame(NOW + 16_666_000).unwrap();
    assert_eq!(frame.playout_at, NOW + 16_666_000);
    assert_eq!(frame.generation, 1);
    assert_eq!((frame.width, frame.height), (2, 2));
    assert_eq!(core.take_latest_frame(NOW + 16_666_000), None);
}

#[test]
fn presentation_times_are_placed_by_the_first_one() {
    let mut core = ReceiverCore::new();
    configure(&mut core, 1);
    let first = push(&mut core, MediaFlow::Color, 1, 1, 1_000, NOW);
    assert_eq!(first.deadline, NOW + 16_666_000);
    // Late by 5 ms, yet due by its presentation time.
    let second = push(
        &mut core,
        MediaFlow::Color,
        1,
        2,
        21_000,
        NOW + 5 * MILLISECOND,
    );
    assert_eq!(second.deadline, NOW + 20 * MILLISECOND + 16_666_000);
    // Before the anchor: the anchor moves.
    let third = push(
        &mut core,
        MediaFlow::Color,
        1,
        3,
        0,
        NOW + 6 * MILLISECOND,
    );
    assert_eq!(third.deadline, NOW + 6 * MILLISECOND + 16_666_000);
    // Two seconds ahead is within the horizon, a microsecond more is not.
    let fourth = push(
        &mut core,
        MediaFlow::Color,
        1,
        4,
        2_000_000,
        NOW + 7 * MILLISECOND,
    );
    assert_eq!(
        fourth.deadline,
        NOW + 6 * MILLISECOND + 2_000 * MILLISECOND + 16_666_000
    );
    let fifth = push(
        &mut core,
        MediaFlow::Color,
        1,
        5,
        2_000_001,
        NOW + 7 * MILLISECOND,
    );
    assert_eq!(fifth.deadline, NOW + 7 * MILLISECOND + 16_666_000);
}

#[test]
fn the_end_of_the_clock_does_not_overflow() {
    let mut core = ReceiverCore::new();
    configure(&mut core, 1);
    let ticket = push(&mut core, MediaFlow::Color, 1, 1, 0, u64::MAX - 1);
    assert_eq!(ticket.deadline, u64::MAX - 1);
    core.expire(u64::MAX - 1);
    assert_eq!(core.dropped_frame_count(), 0);
    assert_eq!(core.diagnostics().late_frames, 1);
}

#[test]
fn a_given_up_frame_is_ignored_until_its_tombstone_runs_out() {
    let mut core = ReceiverCore::new();
    configure(&mut core, 1);
    push(&mut core, MediaFlow::Color, 1, 1, 0, NOW);
    core.expire(NOW + 20 * MILLISECOND);
    assert_eq!(core.dropped_frame_count(), 1);
    assert_eq!(
        core.push_media_datagram(
            Ok(header(MediaFlow::Color, 1, 1, 0)),
            NOW + 21 * MILLISECOND
        ),
        Ok(MediaAction::ExpireOnly)
    );
    assert_eq!(core.inflight_frame_count(), 0);
    let later = NOW + 16_666_000 + MAX_PLAYOUT_HORIZON_NS;
    assert!(matches!(
        core.push_media_datagram(Ok(header(MediaFlow::Color, 1, 1, 0)), later),
        Ok(MediaAction::Reassemble(_))
    ));
    assert_eq!(core.inflight_frame_count(), 1);
}

#[test]
fn a_given_up_frame_stays_given_up_while_eight_are_marked() {
    let mut core = ReceiverCore::new();
    configure(&mut core, 1);
    // Nine frames come, and seven of them make room for others.
    for frame_id in 1..=9 {
        push(&mut core, MediaFlow::Color, 1, frame_id, 0, NOW);
    }
    assert_eq!(core.diagnostics().incomplete_frames, 7);
    core.expire(NOW + 1);
    let before = *core.diagnostics();
    for frame_id in 1..=7 {
        assert_eq!(
            core.push_media_datagram(Ok(header(MediaFlow::Alpha, 1, frame_id, 0)), NOW + 2),
            Ok(MediaAction::ExpireOnly)
        );
    }
    assert_eq!(*core.diagnostics(), before);
    assert_eq!(core.inflight_frame_count(), 2);
    // With more than eight, the marks of the earliest frames are pushed out.
    for frame_id in 10..=11 {
        push(&mut core, MediaFlow::Color, 1, frame_id, 0, NOW + 3);
    }
    assert_eq!(core.diagnostics().incomplete_frames, 9);
    push(&mut core, MediaFlow::Color, 1, 1, 0, NOW + 4);
}

#[test]
fn the_frame_rate_counts_the_last_second() {
    let mut core = ReceiverCore::new();
    configure(&mut core, 1);
    let second = 1_000 * MILLISECOND;
    for (step, rate) in [(0, 1), (100, 2), (100, 3), (1_000, 4), (1_050, 4), (1_101, 3)] {
        core.note_published(step as u32, NOW + step * MILLISECOND);
        core.expire(NOW + step * MILLISECOND);
        assert_eq!(core.diagnostics().complete_frame_fps, rate);
        assert_eq!(core.diagnostics().last_published_frame, Some(step as u32));
    }
    core.note_published(7, NOW + 5 * second);
    assert_eq!(core.diagnostics().complete_frame_fps, 1);
}

#[test]
fn the_oldest_awaited_frame_makes_room() {
    let mut core = ReceiverCore::new();
    configure(&mut core, 1);
    for frame_id in [9, 3, 5] {
        push(&mut core, MediaFlow::Color, 1, frame_id, 0, NOW);
    }
    assert_eq!(core.inflight_deadline(1, 9), None);
    assert!(core.inflight_deadline(1, 3).is_some());
    assert!(core.inflight_deadline(1, 5).is_some());
    assert_eq!(core.diagnostics().incomplete_frames, 1);
    assert_eq!(core.diagnostics().late_frames, 0);
    assert_eq!(core.diagnostics().dropped_frames, 1);
}

#[test]
fn reassembly_outcomes_are_counted() {
    let mut core = ReceiverCore::new();
    configure(&mut core, 1);
    let ticket = push(&mut core, MediaFlow::Color, 1, 1, 0, NOW);
    assert_eq!(
        core.note_reassembly(&ticket, Ok(ReassemblyOutcome::Duplicate)),
        Ok(ReassemblyAction::Done)
    );
    assert_eq!(core.diagnostics().dropped_frames, 0);
    assert_eq!(
        core.note_reassembly(&ticket, Ok(ReassemblyOutcome::DroppedOldGeneration)),
        Ok(ReassemblyAction::Done)
    );
    assert_eq!(core.diagnostics().dropped_frames, 1);
    assert_eq!(core.diagnostics().incomplete_frames, 0);
    assert_eq!(
        core.note_reassembly(&ticket, Ok(ReassemblyOutcome::DroppedExpired)),
        Ok(ReassemblyAction::Done)
    );
    assert_eq!(core.diagnostics().dropped_frames, 2);
    assert_eq!(core.diagnostics().incomplete_frames, 1);
    assert_eq!(core.diagnostics().late_frames, 1);
    assert_eq!(
        core.note_reassembly(&ticket, Err(refusal("bad chunk"))),
        Err(ReceiverError::Protocol(refusal("bad chunk")))
    );
    assert_eq!(
        core.note_synchronization(Err(refusal("full"))),
        Err(ReceiverError::Protocol(refusal("full")))
    );
}

#[test]
fn a_foreign_alpha_plane_is_refused_and_a_broken_one_too() {
    let mut core = ReceiverCore::new();
    configure(&mut core, 1);
    let ticket = push_plane(&mut core, MediaFlow::Alpha, 1, 1, 7, NOW);
    let mut wrong = alpha(1, 1, 7);
    wrong.width = 3;
    let error = core
        .note_alpha(&ticket, pair(1, 1, 7), Ok(wrong), 2_999)
        .unwrap_err();
    assert_eq!(error, ReceiverError::InconsistentAlpha);
    assert_eq!(
        error.text(),
        "alpha metadata does not match the synchronized color frame"
    );
    assert_eq!(core.diagnostics().alpha_decode_cpu_us, 2);
    assert_eq!(core.diagnostics().completed_frames, 0);
    assert_eq!(
        core.note_alpha(&ticket, pair(1, 1, 7), Err(refusal("tile")), 9_000),
        Err(ReceiverError::Protocol(refusal("tile")))
    );
    assert_eq!(core.diagnostics().alpha_decode_cpu_us, 2);
    core.note_alpha(&ticket, pair(1, 1, 7), Ok(alpha(1, 1, 7)), 9_000)
        .unwrap();
    assert_eq!(core.diagnostics().completed_frames, 1);
    assert_eq!(core.diagnostics().last_complete_alpha_frame, Some(1));
    assert_eq!(core.diagnostics().last_complete_color_frame, None);
}

#[test]
fn decode_failures_and_skips_are_told_apart() {
    let mut core = ReceiverCore::new();
    configure(&mut core, 4);
    core.note_decode_failure();
    core.note_decode_failure();
    assert_eq!(core.diagnostics().decode_failures, 2);
    assert_eq!(core.diagnostics().dropped_frames, 2);
    assert_eq!(core.diagnostics().idr_requests, 1);
    core.note_spout_skipped();
    assert_eq!(core.diagnostics().dropped_frames, 3);
    assert_eq!(core.diagnostics().latest_frame_drops, 1);
    assert_eq!(core.diagnostics().incomplete_frames, 0);
    assert!(core.take_idr_request().is_some());
    core.note_decode_failure();
    assert_eq!(core.diagnostics().idr_requests, 2);
}

#[test]
fn shown_frames_are_counted_over_one_second() {
    let mut core = ReceiverCore::new();
    configure(&mut core, 1);
    core.note_published(1, NOW);
    core.note_published(2, NOW + 500 * MILLISECOND);
    core.note_published(3, NOW + 1_000 * MILLISECOND);
    assert_eq!(core.diagnostics().complete_frame_fps, 3);
    assert_eq!(core.diagnostics().last_published_frame, Some(3));
    assert_eq!(core.diagnostics().playout_latency_us, 0);
    core.receiver_report(NOW + 1_000 * MILLISECOND + 1, 0, true);
    assert_eq!(core.diagnostics().complete_frame_fps, 2);
    core.receiver_report(NOW + 9_000 * MILLISECOND, 0, true);
    assert_eq!(core.diagnostics().complete_frame_fps, 0);
}

#[test]
fn latency_is_measured_from_the_first_datagram() {
    let mut core = ReceiverCore::new();
    configure(&mut core, 1);
    push_plane(&mut core, MediaFlow::Color, 1, 9, 0, NOW);
    let ticket = push_plane(&mut core, MediaFlow::Alpha, 1, 9, 0, NOW + 3 * MILLISECOND);
    core.note_alpha(&ticket, pair(1, 9, 0), Ok(alpha(1, 9, 0)), 0)
        .unwrap();
    core.note_published(9, NOW + 25 * MILLISECOND);
    assert_eq!(core.diagnostics().playout_latency_us, 25_000);
    assert_eq!(core.diagnostics().receive_to_publish_latency_us, 25_000);
}

#[test]
fn measurements_are_clamped_and_kept() {
    let mut core = ReceiverCore::new();
    core.update_network_diagnostics(u64::MAX, 70, None);
    core.update_pipeline_diagnostics(1, 2, 3);
    assert_eq!(core.diagnostics().rtt_us, u32::MAX);
    assert_eq!(core.diagnostics().jitter_us, 70);
    assert_eq!(core.diagnostics().color_decode_submit_cpu_us, 1);
    assert_eq!(core.diagnostics().composite_enqueue_cpu_us, 2);
    assert_eq!(core.diagnostics().spout_publish_cpu_us, 3);
    assert_eq!(elapsed_us(1_999), 1);
    assert_eq!(elapsed_us(u64::MAX), u32::MAX);
}

#[test]
fn a_report_before_configuration_names_no_generation() {
    let mut core = ReceiverCore::new();
    let message = core.receiver_report(NOW, 3, true);
    assert_eq!(message.version, 1);
    let report = report_of(message);
    assert_eq!(report.generation, 0);
    assert_eq!(report.decode_queue_depth, 3);
    assert!(report.hardware_decode_active);
    assert_eq!(report.requested_bitrate_bps, 0);
    core.note_decode_failure();
    assert!(core.take_idr_request().is_none());
}

#[test]
fn reconnecting_starts_over_and_keeps_counting() {
    let mut core = ReceiverCore::new();
    configure(&mut core, 1);
    push_pair(&mut core, 1, 1, 0, NOW);
    core.note_decode_failure();
    core.reset_for_reconnect();
    assert_eq!(core.phase(), SessionPhase::AwaitingHello);
    assert!(core.configuration().is_none());
    assert!(core.take_idr_request().is_none());
    assert_eq!(core.ready_queue_depth(), 0);
    assert_eq!(core.diagnostics().completed_frames, 1);
    assert_eq!(core.diagnostics().decode_failures, 1);
    configure(&mut core, 2);
    assert_eq!(core.phase(), SessionPhase::Streaming);
}

#[test]
fn frame_keys_order_by_generation_and_frame() {
    assert_eq!(frame_key(0, 0), 0);
    assert_eq!(frame_key(1, 2), 0x1_0000_0002);
    assert!(frame_key(1, u32::MAX) < frame_key(2, 0));
    assert!(frame_key(3, 4) < frame_key(3, 5));
}
