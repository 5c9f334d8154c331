use nanalive_link_receiver::adaptive::{lower_fps, AdaptiveController};
use nanalive_link_receiver::wire::{AlphaCodec, ColorCodec, MediaConfiguration};

fn configuration(target_bitrate_bps: u32, fps: u32) -> MediaConfiguration {
    MediaConfiguration {
        generation: 1,
        width: 1_920,
        height: 1_080,
        fps,
        color_codec: ColorCodec::H264,
        alpha_codec: AlphaCodec::A8T1,
        target_bitrate_bps,
        max_bitrate_bps: target_bitrate_bps,
    }
}

#[test]
fn an_unconfigured_controller_ignores_the_network() {
    let mut controller = AdaptiveController::unconfigured();
    controller.observe(9, 900_000, Some(1));
    assert_eq!(controller, AdaptiveController::unconfigured());
}

#[test]
fn loss_lowers_the_bitrate_by_a_fifth_down_to_the_floor_and_then_the_frame_rate() {
    let mut controller = AdaptiveController::new(&configuration(1_500_000, 60), 0);
    controller.observe(1, 0, None);
    assert_eq!(controller.requested_bitrate_bps, 1_200_000);
    controller.observe(2, 0, None);
    assert_eq!(controller.requested_bitrate_bps, 1_000_000);
    assert_eq!(controller.requested_fps, 60);
    controller.observe(3, 0, None);
    assert_eq!(controller.requested_bitrate_bps, 1_000_000);
    assert_eq!(controller.requested_fps, 30);
    controller.observe(3, 150_001, None);
    assert_eq!(controller.requested_fps, 24);
    controller.observe(3, 150_001, None);
    assert_eq!(controller.requested_fps, 24);
}

#[test]
fn a_constrained_rate_alone_never_lowers_the_frame_rate() {
    let mut controller = AdaptiveController::new(&configuration(900_000, 60), 0);
    controller.observe(0, 0, Some(500_000));
    assert_eq!(controller.requested_bitrate_bps, 900_000);
    assert_eq!(controller.requested_fps, 60);
    controller.observe(0, 0, Some(0));
    assert_eq!(controller.healthy_intervals, 1);
}

#[test]
fn large_bitrates_saturate_before_they_are_lowered() {
    let mut controller = AdaptiveController::new(&configuration(u32::MAX, 60), 0);
    controller.observe(1, 0, None);
    assert_eq!(controller.requested_bitrate_bps, u32::MAX / 100);
}

#[test]
fn five_healthy_observations_raise_one_step() {
    let mut controller = AdaptiveController::new(&configuration(10_000_000, 60), 0);
    controller.reconfigure(&configuration(9_500_000, 58), 0);
    assert_eq!(controller.nominal_bitrate_bps, 10_000_000);
    assert_eq!(controller.nominal_fps, 60);
    for _ in 0..4 {
        controller.observe(0, 0, None);
    }
    assert_eq!(controller.requested_bitrate_bps, 9_500_000);
    controller.observe(0, 0, None);
    assert_eq!(controller.requested_bitrate_bps, 10_000_000);
    assert_eq!(controller.requested_fps, 58);
    for _ in 0..5 {
        controller.observe(0, 0, None);
    }
    assert_eq!(controller.requested_fps, 60);
}

#[test]
fn one_unhealthy_observation_restarts_the_debounce() {
    let mut controller = AdaptiveController::new(&configuration(10_000_000, 60), 0);
    controller.reconfigure(&configuration(5_000_000, 60), 0);
    for _ in 0..4 {
        controller.observe(0, 0, None);
    }
    controller.observe(0, 200_000, None);
    assert_eq!(controller.requested_bitrate_bps, 4_000_000);
    for _ in 0..4 {
        controller.observe(0, 0, None);
    }
    assert_eq!(controller.requested_bitrate_bps, 4_000_000);
    controller.observe(0, 0, None);
    assert_eq!(controller.requested_bitrate_bps, 5_000_000);
}

#[test]
fn frame_rates_step_down_to_thirty_and_twenty_four() {
    assert_eq!(lower_fps(60), 30);
    assert_eq!(lower_fps(31), 30);
    assert_eq!(lower_fps(30), 24);
    assert_eq!(lower_fps(25), 24);
    assert_eq!(lower_fps(24), 24);
    assert_eq!(lower_fps(15), 15);
    assert_eq!(lower_fps(10), 15);
}

#[test]
fn the_largest_frame_rates_are_approached_in_steps() {
    let mut controller = AdaptiveController::new(&configuration(1_000_000, u32::MAX), 0);
    for _ in 0..5 {
        controller.observe(0, 0, None);
    }
    assert_eq!(controller.requested_fps, u32::MAX);
    controller.requested_fps = u32::MAX - 6;
    for _ in 0..5 {
        controller.observe(0, 0, None);
    }
    assert_eq!(controller.requested_fps, u32::MAX);
    controller.requested_fps = 24;
    for _ in 0..5 {
        controller.observe(0, 0, None);
    }
    assert_eq!(controller.requested_fps, 30);
}
