use nanalive_link_receiver::connection::{
    ConnectionSession, LinkTelemetry, PublishOutcome, REPORT_INTERVAL_NS,
};
use nanalive_link_receiver::receiver::{MediaAction, PreparedFrame, ReassemblyAction, SessionPhase};
use nanalive_link_receiver::serving::{ServeEvent, ServeLoop, ServeStage};
use nanalive_link_receiver::startup::{
    advertisement_continues, advertisement_deadline, advertisement_end,
    check_advertised_address, clamp_unix_ms, default_windows_state_dir,
    discovery_host, discovery_name, ephemeral_discovery_name, keyring_name_from_digest,
    keyring_service_name, plan_start, select_identity_source, AdvertisedAddress, IdentitySource,
    StartPlan, StartupFault,
};
use nanalive_link_receiver::transport::{
    after_receive, after_send, media_protocol, send_deadline, validate_transport_metadata,
    ReceiveOutcome, ReceiveStep, SendOutcome, SendStep, TransportFault,
};
use nanalive_link_receiver::windows::decoder::{
    access_unit_length, check_d3d11_aware, check_output_samples, frame_size_attribute,
    pts_from_sample_time, sample_time_hns, select_decoder, DecoderAction, DecoderEvent,
    DecoderFault, DecoderRefusal, Submission, SubmitStage,
};
use nanalive_link_receiver::windows::pipeline::{PipelineFault, SpoutStatus};
use nanalive_link_receiver::windows::tray::{receiver_icon, TrayMenuEntry};
use nanalive_link_receiver::windows::{
    HardwarePipeline, PipelineTelemetry, PublishResult, PublishedFrame, TrayController, TrayState,
};
use nanalive_link_receiver::wire::{
    AlphaCodec, AlphaFrame, ColorCodec, ControlMessage, ControlPayload, MediaCapabilities,
    MediaChunkHeader, MediaConfiguration, MediaFlow, ReassemblyOutcome, SynchronizedPair,
};

const NOW: u64 = 3_000_000_000;

fn frame(frame_id: u32, pts_us: u64) -> PreparedFrame {
    PreparedFrame {
        generation: 1,
        frame_id,
        pts_us,
        width: 2,
        height: 2,
        h264: vec![1],
        alpha: vec![frame_id as u8; 4],
        playout_at: 0,
    }
}

#[test]
fn the_pipeline_matches_decoded_colour_to_its_own_alpha() {
    let mut pipeline = HardwarePipeline::new(2, 2);
    assert_eq!(pipeline.decode_queue_depth(), 0);
    pipeline.publish(&frame(1, 100)).unwrap();
    assert_eq!(pipeline.match_decoded(&[], 1_500), None);
    assert_eq!(pipeline.decode_queue_depth(), 1);
    pipeline.publish(&frame(2, 200)).unwrap();
    assert_eq!(pipeline.decode_queue_depth(), 2);
    let matched = pipeline.match_decoded(&[100, 200, 200], 2_500).unwrap();
    assert_eq!(matched.index, 1);
    assert_eq!(matched.frame_id, 2);
    assert_eq!(matched.alpha, vec![2; 4]);
    assert_eq!(pipeline.decode_queue_depth(), 0);
    assert_eq!(pipeline.check_alpha(&matched.alpha), Ok(()));
    assert_eq!(pipeline.check_alpha(&[0; 3]), Err(PipelineFault::AlphaLength));
    pipeline.note_composite(7_000);
    assert_eq!(
        pipeline.finish(2, SpoutStatus::Sent, 9_999),
        Ok(PublishedFrame {
            frame_id: 2,
            result: PublishResult::Sent
        })
    );
    assert_eq!(
        pipeline.telemetry(),
        PipelineTelemetry {
            color_decode_submit_cpu_us: 2,
            composite_enqueue_cpu_us: 7,
            spout_publish_cpu_us: 9,
        }
    );
    assert_eq!(PipelineTelemetry::default().spout_publish_cpu_us, 0);
}

#[test]
fn the_pipeline_refuses_what_it_cannot_show() {
    let mut pipeline = HardwarePipeline::new(2, 3);
    let fault = pipeline.publish(&frame(1, 100)).unwrap_err();
    assert_eq!(fault, PipelineFault::DimensionsChanged);
    assert_eq!(fault.text(), "frame dimensions changed without reconfiguration");
    assert_eq!(pipeline.decode_queue_depth(), 0);
    assert_eq!(
        PipelineFault::AlphaLength.text(),
        "decoded A8T1 alpha length does not match frame dimensions"
    );
    assert_eq!(
        pipeline.finish(4, SpoutStatus::SkippedAccessTimeout, 0),
        Ok(PublishedFrame {
            frame_id: 4,
            result: PublishResult::SkippedAccessTimeout
        })
    );
    let fault = pipeline
        .finish(4, SpoutStatus::Other("DeviceLost".to_owned()), 0)
        .unwrap_err();
    assert_eq!(fault.text(), "Spout publish failed with status DeviceLost");
}

#[test]
fn presentation_times_survive_the_decoder() {
    for pts_us in [0, 1, 16_667, 922_337_203_685_477_580] {
        assert_eq!(pts_from_sample_time(sample_time_hns(pts_us)), pts_us);
    }
    assert_eq!(sample_time_hns(123), 1_230);
    assert_eq!(sample_time_hns(922_337_203_685_477_581), i64::MAX);
    assert_eq!(sample_time_hns(u64::MAX), i64::MAX);
    assert_eq!(pts_from_sample_time(-5), 0);
    assert_eq!(pts_from_sample_time(19), 1);
    assert_eq!(frame_size_attribute(1_920, 1_080), (1_920 << 32) | 1_080);
    assert_eq!(access_unit_length(17), Some(17));
}

#[test]
fn an_access_unit_is_retried_once_after_its_output_was_collected() {
    let mut submission = Submission::begin();
    assert_eq!(submission.stage.action(), DecoderAction::OfferInput);
    assert_eq!(
        submission.advance(DecoderEvent::InputNotAccepting),
        Ok(DecoderAction::CollectOutput)
    );
    assert_eq!(
        submission.advance(DecoderEvent::Output(10)),
        Ok(DecoderAction::CollectOutput)
    );
    assert_eq!(
        submission.advance(DecoderEvent::NeedMoreInput),
        Ok(DecoderAction::OfferInput)
    );
    assert_eq!(
        submission.advance(DecoderEvent::InputAccepted),
        Ok(DecoderAction::CollectOutput)
    );
    for pts_us in [20, 30, 40] {
        assert_eq!(
            submission.advance(DecoderEvent::Output(pts_us)),
            Ok(DecoderAction::CollectOutput)
        );
    }
    assert_eq!(
        submission.advance(DecoderEvent::Output(50)),
        Ok(DecoderAction::Done)
    );
    assert_eq!(submission.stage, SubmitStage::Finished);
    assert_eq!(submission.decoded_pts, vec![10, 20, 30, 40, 50]);
}

#[test]
fn decoder_faults_end_a_submission() {
    let mut submission = Submission::begin();
    assert_eq!(
        submission.advance(DecoderEvent::InputFailed),
        Err(DecoderFault::SubmitFailed)
    );
    assert_eq!(
        submission.advance(DecoderEvent::Output(1)),
        Err(DecoderFault::OutOfOrder)
    );
    submission.advance(DecoderEvent::InputNotAccepting).unwrap();
    submission.advance(DecoderEvent::NeedMoreInput).unwrap();
    assert_eq!(
        submission.advance(DecoderEvent::InputNotAccepting),
        Err(DecoderFault::RetryFailed)
    );
    submission.advance(DecoderEvent::InputAccepted).unwrap();
    assert_eq!(
        submission.advance(DecoderEvent::OutputFailed),
        Err(DecoderFault::OutputFailed)
    );
    assert_eq!(DecoderFault::SubmitFailed.text(), "submit H.264 access unit");
    assert_eq!(
        DecoderFault::RetryFailed.text(),
        "retry H.264 access unit after draining decoder output"
    );
}

#[test]
fn the_tray_shows_states_in_order_and_hands_out_a_reconnect_once() {
    let mut tray = TrayController::start();
    assert_eq!(tray.next_state(), None);
    tray.set_state(TrayState::Listening("0.0.0.0:59631".to_owned()));
    tray.set_state(TrayState::Decoding);
    assert_eq!(
        tray.next_state(),
        Some(TrayState::Listening("0.0.0.0:59631".to_owned()))
    );
    assert_eq!(tray.next_state(), Some(TrayState::Decoding));
    assert!(!tray.take_reconnect());
    tray.menu_clicked(TrayMenuEntry::Other);
    assert!(!tray.take_reconnect());
    tray.menu_clicked(TrayMenuEntry::Reconnect);
    assert!(tray.take_reconnect());
    assert!(!tray.take_reconnect());
    assert!(tray.keep_running());
    tray.menu_clicked(TrayMenuEntry::Reconnect);
    assert!(!tray.keep_running());
    assert!(tray.keep_running());
    assert!(!tray.is_shutdown());
    tray.menu_clicked(TrayMenuEntry::Exit);
    assert!(tray.is_shutdown());
    assert!(!tray.keep_running());
    let mut other = TrayController::start();
    other.ask_shutdown();
    assert!(other.is_shutdown());
}

#[test]
fn tray_states_have_their_texts() {
    for (state, text) in [
        (TrayState::Listening("a".to_owned()), "Listening: a"),
        (TrayState::Connected("b".to_owned()), "Connected: b"),
        (TrayState::Decoding, "Hardware decoding active"),
        (TrayState::SpoutActive("c".to_owned()), "Spout active: c"),
        (TrayState::Error("d".to_owned()), "Error: d"),
    ] {
        assert_eq!(state.text(), text);
        assert_eq!(state.tooltip(), format!("NanaLive Link - {text}"));
    }
}

#[test]
fn the_icon_is_a_framed_square() {
    let rgba = receiver_icon();
    assert_eq!(rgba.len(), 1_024);
    let pixel = |x: usize, y: usize| rgba[(y * 16 + x) * 4..(y * 16 + x) * 4 + 4].to_vec();
    assert_eq!(pixel(0, 0), vec![0, 0, 0, 0]);
    assert_eq!(pixel(1, 4), vec![0, 0, 0, 0]);
    assert_eq!(pixel(2, 2), vec![105, 75, 220, 255]);
    assert_eq!(pixel(4, 3), vec![255, 255, 255, 255]);
    assert_eq!(pixel(3, 11), vec![255, 255, 255, 255]);
    assert_eq!(pixel(13, 13), vec![105, 75, 220, 255]);
    assert_eq!(pixel(14, 4), vec![0, 0, 0, 0]);
}

#[test]
fn datagrams_come_on_their_own_flow() {
    let header = |flow| MediaChunkHeader {
        flow,
        generation: 7,
        frame_id: 1,
        pts_us: 0,
    };
    let color = header(MediaFlow::Color);
    let alpha = header(MediaFlow::Alpha);
    assert_eq!(validate_transport_metadata(&color, 1, 7), Ok(()));
    assert_eq!(validate_transport_metadata(&alpha, 2, 7), Ok(()));
    assert_eq!(
        validate_transport_metadata(&color, 2, 7),
        Err(TransportFault::FlowMismatch)
    );
    assert_eq!(
        validate_transport_metadata(&alpha, 2, 65_543),
        Err(TransportFault::GenerationMismatch)
    );
    assert_eq!(
        validate_transport_metadata(&header(MediaFlow::Unknown(9)), 1, 7),
        Err(TransportFault::UnknownFlow)
    );
    assert_eq!(TransportFault::UnknownFlow.text(), "unknown NanaLive media flow");
    assert_eq!(media_protocol(), "nanalive.link.media");
}

#[test]
fn a_blocked_send_is_tried_for_a_quarter_second() {
    assert_eq!(send_deadline(NOW), NOW + 250_000_000);
    assert_eq!(send_deadline(u64::MAX), u64::MAX);
    assert_eq!(after_send(SendOutcome::Sent, 9, 1), SendStep::Done);
    assert_eq!(after_send(SendOutcome::WouldBlock, 1, 2), SendStep::Retry);
    assert_eq!(after_send(SendOutcome::WouldBlock, 2, 2), SendStep::Fail);
    assert_eq!(after_send(SendOutcome::Failed, 1, 2), SendStep::Fail);
    assert_eq!(after_receive(ReceiveOutcome::Received), ReceiveStep::Handle);
    assert_eq!(after_receive(ReceiveOutcome::Nothing), ReceiveStep::Drained);
    assert_eq!(after_receive(ReceiveOutcome::WouldBlock), ReceiveStep::Drained);
    assert_eq!(after_receive(ReceiveOutcome::Failed), ReceiveStep::Fail);
}

#[test]
fn the_state_directory_lies_below_local_app_data() {
    assert_eq!(default_windows_state_dir(Some(29)), Ok("NanaLiveLinkReceiver"));
    assert_eq!(
        default_windows_state_dir(None),
        Err(StartupFault::StateDirUnavailable)
    );
    assert_eq!(
        default_windows_state_dir(Some(0)),
        Err(StartupFault::StateDirEmpty)
    );
    assert_eq!(
        StartupFault::StateDirUnavailable.text(),
        "Windows LocalAppData is unavailable; pass --state-dir explicitly"
    );
}

#[test]
fn a_start_is_planned_by_its_arguments() {
    assert_eq!(
        select_identity_source(true, true, true),
        Ok(IdentitySource::Supplied)
    );
    assert_eq!(
        select_identity_source(false, false, false),
        Ok(IdentitySource::Stored)
    );
    assert_eq!(
        select_identity_source(true, false, true),
        Err(StartupFault::PartialIdentity)
    );
    assert_eq!(plan_start(false, true, true), Ok(StartPlan::ServeOrInvite));
    assert_eq!(
        plan_start(true, false, true),
        Err(StartupFault::InvitationFileRequired)
    );
    assert_eq!(plan_start(true, true, false), Ok(StartPlan::Preview));
    assert_eq!(plan_start(true, true, true), Ok(StartPlan::Complete));
    assert_eq!(
        check_advertised_address(AdvertisedAddress::Missing, 1),
        Err(StartupFault::AdvertisedAddressRequired)
    );
    assert_eq!(
        check_advertised_address(AdvertisedAddress::Unreadable, 1),
        Err(StartupFault::AdvertisedAddressUnreachable)
    );
    assert_eq!(
        check_advertised_address(AdvertisedAddress::Port(2), 1),
        Err(StartupFault::PortMismatch)
    );
    assert_eq!(
        check_advertised_address(AdvertisedAddress::Port(59_631), 59_631),
        Ok(())
    );
}

#[test]
fn an_advertisement_ends_with_its_invitation_or_when_it_is_cancelled() {
    let deadline = advertisement_deadline(NOW, 600);
    assert_eq!(deadline, NOW + 600_000_000_000);
    assert_eq!(advertisement_deadline(NOW, u64::MAX), u64::MAX);
    assert_eq!(advertisement_deadline(u64::MAX - 5, 600), u64::MAX);
    let mut tray = TrayController::start();
    assert!(advertisement_continues(&mut tray, NOW, deadline));
    assert!(!advertisement_continues(&mut tray, deadline, deadline));
    tray.menu_clicked(TrayMenuEntry::Reconnect);
    assert!(!advertisement_continues(&mut tray, NOW, deadline));
    assert!(advertisement_continues(&mut tray, NOW, deadline));
    assert_eq!(
        advertisement_end(deadline, deadline),
        "pairing invitation expired; discovery advertisement stopped"
    );
    assert_eq!(
        advertisement_end(deadline - 1, deadline),
        "pairing invitation cancelled; discovery advertisement stopped"
    );
}

#[test]
fn the_receiver_listens_again_after_every_session() {
    let (mut serving, shown) = ServeLoop::begin("192.0.2.9:59631", false);
    assert_eq!(shown, TrayState::Listening("192.0.2.9:59631".to_owned()));
    assert_eq!(serving.stage(), ServeStage::Listening);
    assert_eq!(
        serving.advance(ServeEvent::AcceptFailed, false),
        vec![TrayState::Error("Unable to accept sender".to_owned())]
    );
    assert_eq!(serving.stage(), ServeStage::Listening);
    assert_eq!(serving.advance(ServeEvent::ControlAsked, false), vec![]);
    assert_eq!(serving.stage(), ServeStage::Listening);
    let connected = ServeEvent::Accepted("192.0.2.1:5".to_owned());
    assert_eq!(
        serving.advance(connected.clone(), false),
        vec![TrayState::Connected("192.0.2.1:5".to_owned())]
    );
    assert_eq!(serving.stage(), ServeStage::Serving);
    assert_eq!(
        serving.advance(ServeEvent::SessionEnded { failed: true }, false),
        vec![
            TrayState::Error("Receiver session failed".to_owned()),
            TrayState::Listening("192.0.2.9:59631".to_owned())
        ]
    );
    assert_eq!(serving.stage(), ServeStage::Listening);
    serving.advance(connected.clone(), false);
    assert_eq!(
        serving.advance(ServeEvent::SessionEnded { failed: false }, false),
        vec![TrayState::Listening("192.0.2.9:59631".to_owned())]
    );
    serving.advance(connected.clone(), false);
    assert_eq!(
        serving.advance(ServeEvent::SessionEnded { failed: true }, true),
        vec![TrayState::Error("Receiver session failed".to_owned())]
    );
    assert_eq!(serving.stage(), ServeStage::Ended);
    // Nothing brings it back.
    assert_eq!(serving.advance(connected, false), vec![]);
    assert_eq!(serving.stage(), ServeStage::Ended);
    assert_eq!(ServeLoop::begin("l", true).0.stage(), ServeStage::Ended);
}

#[test]
fn discovery_names_are_temporary() {
    assert_eq!(
        discovery_name([0, 1, 2, 3, 4, 5, 254, 255]),
        "nanalive-link-000102030405feff"
    );
    assert_eq!(discovery_host("x"), "x.local.");
    let first = ephemeral_discovery_name().unwrap();
    let second = ephemeral_discovery_name().unwrap();
    assert_eq!(first.len(), 30);
    assert_ne!(first, second);
    assert_ne!(first, discovery_name([0; 8]));
}

#[test]
fn key_store_entries_are_named_by_the_trust_store_path() {
    // The digest of "abc" begins with ba7816bf8f01cfea.
    assert_eq!(
        keyring_service_name("abc"),
        "nanalive-link-receiver-ba7816bf8f01cfea"
    );
    assert_eq!(
        keyring_name_from_digest(&[0x1f; 32]),
        "nanalive-link-receiver-1f1f1f1f1f1f1f1f"
    );
    assert_eq!(clamp_unix_ms(5), 5);
    assert_eq!(clamp_unix_ms(u128::from(u64::MAX) + 1), u64::MAX);
}

fn control(session: &mut ConnectionSession, payload: ControlPayload) -> bool {
    session
        .control(ControlMessage::v1(payload), Ok(()))
        .unwrap()
        .drop_pipeline
}

fn streaming(generation: u16) -> ConnectionSession {
    let mut session = ConnectionSession::begin(NOW);
    assert!(control(
        &mut session,
        ControlPayload::Hello {
            endpoint_nonce: [1; 16],
            supported_versions: vec![1],
        }
    ));
    control(
        &mut session,
        ControlPayload::Capabilities(MediaCapabilities {
            protocol_versions: vec![1],
            color_codecs: vec![ColorCodec::H264],
            alpha_codecs: vec![AlphaCodec::A8T1],
            max_width: 1_920,
            max_height: 1_080,
            max_fps: 60,
            hardware_decode: true,
            local_spout: true,
        }),
    );
    control(
        &mut session,
        ControlPayload::Configure(MediaConfiguration {
            generation,
            width: 2,
            height: 2,
            fps: 60,
            color_codec: ColorCodec::H264,
            alpha_codec: AlphaCodec::A8T1,
            target_bitrate_bps: 1_000_000,
            max_bitrate_bps: 2_000_000,
        }),
    );
    assert!(!control(&mut session, ControlPayload::Start));
    session
}

fn send_frame(session: &mut ConnectionSession, generation: u16, frame_id: u32) {
    let header = MediaChunkHeader {
        flow: MediaFlow::Alpha,
        generation,
        frame_id,
        pts_us: 0,
    };
    let ticket = match session.media(Ok(header), NOW).unwrap() {
        MediaAction::Reassemble(ticket) => ticket,
        other => panic!("datagram was not awaited: {other:?}"),
    };
    let complete = ReassemblyOutcome::Completed {
        flow: MediaFlow::Alpha,
        frame_id,
    };
    assert_eq!(
        session.reassembly(&ticket, Ok(complete)),
        Ok(ReassemblyAction::Synchronize)
    );
    assert_eq!(session.synchronization(Ok(true)), Ok(true));
    session
        .alpha(
            &ticket,
            SynchronizedPair {
                generation,
                frame_id,
                pts_us: 0,
                color: vec![1],
            },
            Ok(AlphaFrame {
                generation,
                frame_id,
                pts_us: 0,
                width: 2,
                height: 2,
                alpha: vec![0; 4],
            }),
            0,
        )
        .unwrap();
}

#[test]
fn a_connection_makes_and_gives_up_its_pipeline() {
    let mut session = streaming(4);
    send_frame(&mut session, 4, 1);
    let due = NOW + 20_000_000;
    assert_eq!(session.due_frame(NOW), None);
    let step = session.due_frame(due).unwrap();
    assert!(step.needs_pipeline);
    assert_eq!(session.pipeline_made(step.frame.generation), TrayState::Decoding);
    let telemetry = PipelineTelemetry {
        color_decode_submit_cpu_us: 1,
        composite_enqueue_cpu_us: 2,
        spout_publish_cpu_us: 3,
    };
    let sent = PublishOutcome::Published(PublishedFrame {
        frame_id: 1,
        result: PublishResult::Sent,
    });
    assert_eq!(
        session.frame_shown(sent, telemetry, "NanaLive Link", due),
        Some(TrayState::SpoutActive("NanaLive Link".to_owned()))
    );
    assert_eq!(session.session().diagnostics().last_published_frame, Some(1));
    assert_eq!(session.session().diagnostics().spout_publish_cpu_us, 3);
    assert_eq!(session.key_frame_request(), None);

    send_frame(&mut session, 4, 2);
    let step = session.due_frame(due).unwrap();
    assert!(!step.needs_pipeline);
    assert_eq!(
        session.frame_shown(PublishOutcome::Waiting, telemetry, "s", due),
        None
    );
    let skipped = PublishOutcome::Published(PublishedFrame {
        frame_id: 2,
        result: PublishResult::SkippedAccessTimeout,
    });
    assert_eq!(session.frame_shown(skipped, telemetry, "s", due), None);
    assert_eq!(session.session().diagnostics().latest_frame_drops, 1);
    assert_eq!(
        session.frame_shown(PublishOutcome::Rejected, telemetry, "s", due),
        Some(TrayState::Error("Media pipeline unavailable".to_owned()))
    );
    assert_eq!(session.session().diagnostics().decode_failures, 1);
    assert!(matches!(
        session.key_frame_request().unwrap().payload,
        ControlPayload::RequestIdr { generation: 4 }
    ));
    send_frame(&mut session, 4, 3);
    assert!(session.due_frame(due).unwrap().needs_pipeline);
    assert!(control(&mut session, ControlPayload::Stop));
    assert_eq!(session.session().phase(), SessionPhase::Stopped);
}

#[test]
fn reports_come_once_a_second() {
    let mut session = streaming(1);
    let first = NOW + REPORT_INTERVAL_NS;
    assert!(!session.report_due(first - 1));
    assert!(session.report_due(first));
    let telemetry = LinkTelemetry {
        rtt_us: Some(500),
        jitter_us: 7,
        estimated_send_rate_bps: None,
    };
    let report = match session.report(first + 5, first + 5, telemetry, 2).payload {
        ControlPayload::ReceiverReport(report) => report,
        _ => panic!("receiver report expected"),
    };
    assert_eq!(report.rtt_us, 500);
    assert_eq!(report.jitter_us, 7);
    assert_eq!(report.decode_queue_depth, 2);
    assert!(!report.hardware_decode_active);
    assert!(!session.report_due(first + 5 + REPORT_INTERVAL_NS - 1));
    assert!(session.report_due(first + 5 + REPORT_INTERVAL_NS));
    session.pipeline_made(1);
    let quiet = LinkTelemetry {
        rtt_us: None,
        ..telemetry
    };
    let report = match session.report(first, first, quiet, 0).payload {
        ControlPayload::ReceiverReport(report) => report,
        _ => panic!("receiver report expected"),
    };
    assert_eq!(report.rtt_us, 0);
    assert!(report.hardware_decode_active);
}

#[test]
fn only_a_hardware_decoder_on_d3d11_is_used() {
    assert_eq!(select_decoder(&[]), Err(DecoderRefusal::NoneInstalled));
    assert_eq!(
        select_decoder(&[false, false]),
        Err(DecoderRefusal::NothingToActivate)
    );
    assert_eq!(select_decoder(&[false, true, true]), Ok(1));
    assert_eq!(check_d3d11_aware(Some(1)), Ok(()));
    assert_eq!(check_d3d11_aware(Some(0)), Err(DecoderRefusal::NotD3d11Aware));
    assert_eq!(check_d3d11_aware(None), Err(DecoderRefusal::NotD3d11Aware));
    assert_eq!(check_output_samples(0x0000_0107, 0x100), Ok(()));
    assert_eq!(
        check_output_samples(0x0000_0007, 0x100),
        Err(DecoderRefusal::NoOutputSamples)
    );
    assert_eq!(
        DecoderRefusal::NoneInstalled.text(),
        "no hardware H.264 decoder with NV12 D3D11 output is installed"
    );
    assert_eq!(
        DecoderRefusal::NothingToActivate.text(),
        "hardware decoder enumeration returned empty activations"
    );
    assert_eq!(
        DecoderRefusal::NotD3d11Aware.text(),
        "the selected H.264 decoder is not D3D11-aware"
    );
    assert_eq!(
        DecoderRefusal::NoOutputSamples.text(),
        "hardware decoder does not provide zero-copy D3D11 output samples"
    );
}
