//! The bitrate and frame rate that the receiver asks the sender for.
use crate::wire::MediaConfiguration;
use vstd::prelude::*;

verus! {

/// A round trip longer than this is a sign of congestion.
pub const CONGESTED_RTT_US: u32 = 150_000;

/// Healthy observations needed before anything is raised again.
pub const RECOVERY_INTERVALS: u8 = 5;

/// The lowest bitrate that congestion alone makes the receiver ask for.
pub const BITRATE_FLOOR_BPS: u32 = 1_000_000;

/// Adapts the requested stream to what the network carries: the bitrate is
/// lowered first, the frame rate only when the bitrate cannot be, and both come
/// back in steps after a run of healthy observations.
#[derive(Clone, Copy, Debug, PartialEq, Eq, Structural)]
pub struct AdaptiveController {
    pub nominal_bitrate_bps: u32,
    pub nominal_fps: u32,
    pub requested_bitrate_bps: u32,
    pub requested_fps: u32,
    pub previous_incomplete: u64,
    pub healthy_intervals: u8,
}

pub open spec fn min(a: int, b: int) -> int {
    if a <= b {
        a
    } else {
        b
    }
}

pub open spec fn max(a: int, b: int) -> int {
    if a >= b {
        a
    } else {
        b
    }
}

/// Four fifths of `value`, where the product saturates at `limit`.
pub open spec fn four_fifths(value: int, limit: int) -> int {
    min(value * 80, limit) / 100
}

/// The next lower frame rate.
pub open spec fn lowered_fps(fps: u32) -> u32 {
    if fps > 30 {
        30
    } else if fps >= 25 {
        24
    } else if fps >= 15 {
        fps
    } else {
        15
    }
}

impl AdaptiveController {
    /// Before any configuration: nothing is requested.
    pub open spec fn idle() -> Self {
        AdaptiveController {
            nominal_bitrate_bps: 0,
            nominal_fps: 0,
            requested_bitrate_bps: 0,
            requested_fps: 0,
            previous_incomplete: 0,
            healthy_intervals: 0,
        }
    }

    /// A fresh controller for a configuration.
    pub open spec fn configured(configuration: MediaConfiguration, incomplete: u64) -> Self {
        AdaptiveController {
            nominal_bitrate_bps: configuration.target_bitrate_bps,
            nominal_fps: configuration.fps,
            requested_bitrate_bps: configuration.target_bitrate_bps,
            requested_fps: configuration.fps,
            previous_incomplete: incomplete,
            healthy_intervals: 0,
        }
    }

    /// The same controller after the sender changed its configuration. The
    /// nominal values never go down: a sender that follows a lowered request
    /// can still recover.
    pub open spec fn reconfigured(self, configuration: MediaConfiguration, incomplete: u64) -> Self {
        AdaptiveController {
            nominal_bitrate_bps: max(
                self.nominal_bitrate_bps as int,
                configuration.target_bitrate_bps as int,
            ) as u32,
            nominal_fps: max(self.nominal_fps as int, configuration.fps as int) as u32,
            requested_bitrate_bps: configuration.target_bitrate_bps,
            requested_fps: configuration.fps,
            previous_incomplete: incomplete,
            healthy_intervals: 0,
        }
    }

    /// Frames were lost since the last observation.
    pub open spec fn sees_loss(self, incomplete: u64) -> bool {
        incomplete > self.previous_incomplete
    }

    /// The estimated send rate, where it lies below what is requested.
    pub open spec fn constraint(self, estimate: Option<u64>) -> Option<u64> {
        match estimate {
            Some(rate) => if 0 < rate && rate < self.requested_bitrate_bps {
                Some(rate)
            } else {
                None
            },
            None => None,
        }
    }

    /// Loss or a long round trip.
    pub open spec fn congested(self, incomplete: u64, rtt_us: u32) -> bool {
        self.sees_loss(incomplete) || rtt_us > CONGESTED_RTT_US
    }

    pub open spec fn unhealthy(self, incomplete: u64, rtt_us: u32, estimate: Option<u64>) -> bool {
        self.congested(incomplete, rtt_us) || self.constraint(estimate) is Some
    }

    /// The bitrate that an unhealthy observation aims at.
    pub open spec fn bitrate_target(self, estimate: Option<u64>) -> int {
        let wanted = match self.constraint(estimate) {
            Some(rate) => four_fifths(rate as int, u64::MAX as int),
            None => four_fifths(self.requested_bitrate_bps as int, u32::MAX as int),
        };
        max(wanted, min(BITRATE_FLOOR_BPS as int, self.nominal_bitrate_bps as int))
    }

    /// The controller after one observation.
    pub open spec fn observed(self, incomplete: u64, rtt_us: u32, estimate: Option<u64>) -> Self {
        let target = self.bitrate_target(estimate);
        if self.nominal_bitrate_bps == 0 {
            self
        } else if self.unhealthy(incomplete, rtt_us, estimate) {
            AdaptiveController {
                previous_incomplete: incomplete,
                healthy_intervals: 0,
                requested_bitrate_bps: if target < self.requested_bitrate_bps {
                    target as u32
                } else {
                    self.requested_bitrate_bps
                },
                requested_fps: if target >= self.requested_bitrate_bps && self.congested(
                    incomplete,
                    rtt_us,
                ) {
                    lowered_fps(self.requested_fps)
                } else {
                    self.requested_fps
                },
                ..self
            }
        } else if self.healthy_intervals + 1 < RECOVERY_INTERVALS {
            AdaptiveController {
                previous_incomplete: incomplete,
                healthy_intervals: (self.healthy_intervals + 1) as u8,
                ..self
            }
        } else if self.requested_bitrate_bps < self.nominal_bitrate_bps {
            AdaptiveController {
                previous_incomplete: incomplete,
                healthy_intervals: 0,
                requested_bitrate_bps: min(
                    self.requested_bitrate_bps + max(self.nominal_bitrate_bps as int / 10, 1),
                    self.nominal_bitrate_bps as int,
                ) as u32,
                ..self
            }
        } else {
            AdaptiveController {
                previous_incomplete: incomplete,
                healthy_intervals: 0,
                requested_fps: if self.requested_fps < self.nominal_fps {
                    min(self.requested_fps + 6, self.nominal_fps as int) as u32
                } else {
                    self.requested_fps
                },
                ..self
            }
        }
    }

    /// An observation raises the frame rate by one step: it ends a run of healthy
    /// ones, and the bitrate is back at its nominal value.
    pub open spec fn raises_fps(self, incomplete: u64, rtt_us: u32, estimate: Option<u64>) -> bool {
        &&& self.nominal_bitrate_bps > 0
        &&& !self.unhealthy(incomplete, rtt_us, estimate)
        &&& self.healthy_intervals + 1 >= RECOVERY_INTERVALS
        &&& self.requested_bitrate_bps >= self.nominal_bitrate_bps
        &&& self.requested_fps < self.nominal_fps
    }

    /// A controller that requests nothing.
    pub fn unconfigured() -> (controller: Self)
        ensures
            controller == Self::idle(),
    {
        AdaptiveController {
            nominal_bitrate_bps: 0,
            nominal_fps: 0,
            requested_bitrate_bps: 0,
            requested_fps: 0,
            previous_incomplete: 0,
            healthy_intervals: 0,
        }
    }

    /// A fresh controller for a configuration.
    pub fn new(configuration: &MediaConfiguration, previous_incomplete: u64) -> (controller: Self)
        ensures
            controller == Self::configured(*configuration, previous_incomplete),
    {
        AdaptiveController {
            nominal_bitrate_bps: configuration.target_bitrate_bps,
            nominal_fps: configuration.fps,
            requested_bitrate_bps: configuration.target_bitrate_bps,
            requested_fps: configuration.fps,
            previous_incomplete,
            healthy_intervals: 0,
        }
    }

    /// Follows a changed configuration.
    pub fn reconfigure(&mut self, configuration: &MediaConfiguration, previous_incomplete: u64)
        ensures
            *final(self) == old(self).reconfigured(*configuration, previous_incomplete),
    {
        if self.nominal_bitrate_bps < configuration.target_bitrate_bps {
            self.nominal_bitrate_bps = configuration.target_bitrate_bps;
        }
        if self.nominal_fps < configuration.fps {
            self.nominal_fps = configuration.fps;
        }
        self.requested_bitrate_bps = configuration.target_bitrate_bps;
        self.requested_fps = configuration.fps;
        self.previous_incomplete = previous_incomplete;
        self.healthy_intervals = 0;
    }

    /// Takes one observation of the network into account.
    ///
    /// Only incomplete media assembly counts as loss: frames that were dropped
    /// on purpose, such as a ready frame that a newer one replaced, do not.
    pub fn observe(&mut self, incomplete: u64, rtt_us: u32, estimated_send_rate_bps: Option<u64>)
        requires
            old(self).raises_fps(incomplete, rtt_us, estimated_send_rate_bps) ==> old(
                self,
            ).requested_fps <= u32::MAX - 6,
        ensures
            *final(self) == old(self).observed(incomplete, rtt_us, estimated_send_rate_bps),
    {
        if self.nominal_bitrate_bps == 0 {
            return;
        }
        let loss: bool = incomplete > self.previous_incomplete;
        self.previous_incomplete = incomplete;
        let constrained_rate: Option<u64> = match estimated_send_rate_bps {
            Some(rate) => if 0 < rate && rate < self.requested_bitrate_bps as u64 {
                Some(rate)
            } else {
                None
            },
            None => None,
        };
        let congested: bool = loss || rtt_us > CONGESTED_RTT_US;
        if congested || constrained_rate.is_some() {
            self.healthy_intervals = 0;
            let floor: u32 = if BITRATE_FLOOR_BPS <= self.nominal_bitrate_bps {
                BITRATE_FLOOR_BPS
            } else {
                self.nominal_bitrate_bps
            };
            let wanted: u32 = match constrained_rate {
                Some(rate) => (rate * 80 / 100) as u32,
                None => {
                    let product: u64 = self.requested_bitrate_bps as u64 * 80;
                    let limit: u64 = u32::MAX as u64;
                    (if product <= limit {
                        product / 100
                    } else {
                        limit / 100
                    }) as u32
                },
            };
            let target: u32 = if wanted >= floor {
                wanted
            } else {
                floor
            };
            if target < self.requested_bitrate_bps {
                self.requested_bitrate_bps = target;
            } else if congested {
                self.requested_fps = lower_fps(self.requested_fps);
            }
            return;
        }
        self.healthy_intervals = self.healthy_intervals.saturating_add(1);
        if self.healthy_intervals < RECOVERY_INTERVALS {
            return;
        }
        self.healthy_intervals = 0;
        if self.requested_bitrate_bps < self.nominal_bitrate_bps {
            let tenth: u32 = self.nominal_bitrate_bps / 10;
            let step: u32 = if tenth >= 1 {
                tenth
            } else {
                1
            };
            let raised: u32 = self.requested_bitrate_bps.saturating_add(step);
            self.requested_bitrate_bps = if raised <= self.nominal_bitrate_bps {
                raised
            } else {
                self.nominal_bitrate_bps
            };
        } else if self.requested_fps < self.nominal_fps {
            let raised: u32 = self.requested_fps + 6;
            self.requested_fps = if raised <= self.nominal_fps {
                raised
            } else {
                self.nominal_fps
            };
        }
    }
}

/// The frame rate is lowered only where the bitrate is already at its floor,
/// and never in the same observation as the bitrate.
pub proof fn law_bitrate_is_lowered_before_fps(
    controller: AdaptiveController,
    incomplete: u64,
    rtt_us: u32,
    estimate: Option<u64>,
)
    ensures
        ({
            let next = controller.observed(incomplete, rtt_us, estimate);
            next.requested_fps < controller.requested_fps ==> {
                &&& next.requested_bitrate_bps == controller.requested_bitrate_bps
                &&& controller.requested_bitrate_bps <= BITRATE_FLOOR_BPS
                &&& controller.congested(incomplete, rtt_us)
            }
        }),
{
}

/// Congestion never lowers the requested bitrate below the floor, nor does it
/// raise it.
pub proof fn law_bitrate_keeps_its_floor(
    controller: AdaptiveController,
    incomplete: u64,
    rtt_us: u32,
    estimate: Option<u64>,
)
    requires
        controller.unhealthy(incomplete, rtt_us, estimate),
    ensures
        ({
            let next = controller.observed(incomplete, rtt_us, estimate);
            let floor = min(BITRATE_FLOOR_BPS as int, controller.nominal_bitrate_bps as int);
            &&& next.requested_bitrate_bps <= controller.requested_bitrate_bps
            &&& next.requested_bitrate_bps >= min(floor, controller.requested_bitrate_bps as int)
        }),
{
}

/// What is requested stays within the nominal values, for nominal frame rates
/// of at least fifteen.
pub proof fn law_requests_stay_within_nominal(
    controller: AdaptiveController,
    incomplete: u64,
    rtt_us: u32,
    estimate: Option<u64>,
)
    requires
        controller.requested_bitrate_bps <= controller.nominal_bitrate_bps,
        controller.requested_fps <= controller.nominal_fps,
        controller.nominal_fps >= 15,
    ensures
        ({
            let next = controller.observed(incomplete, rtt_us, estimate);
            &&& next.requested_bitrate_bps <= next.nominal_bitrate_bps
            &&& next.requested_fps <= next.nominal_fps
            &&& next.nominal_bitrate_bps == controller.nominal_bitrate_bps
            &&& next.nominal_fps == controller.nominal_fps
        }),
{
}

/// Healthy observations, one after the other.
pub open spec fn healthy_run(
    controller: AdaptiveController,
    observations: Seq<(u64, u32, Option<u64>)>,
) -> bool
    decreases observations.len(),
{
    if observations.len() == 0 {
        true
    } else {
        let before = after_run(controller, observations.drop_last());
        let (incomplete, rtt_us, estimate) = observations.last();
        &&& healthy_run(controller, observations.drop_last())
        &&& !before.unhealthy(incomplete, rtt_us, estimate)
    }
}

/// The controller after some observations.
pub open spec fn after_run(
    controller: AdaptiveController,
    observations: Seq<(u64, u32, Option<u64>)>,
) -> AdaptiveController
    decreases observations.len(),
{
    if observations.len() == 0 {
        controller
    } else {
        let (incomplete, rtt_us, estimate) = observations.last();
        after_run(controller, observations.drop_last()).observed(incomplete, rtt_us, estimate)
    }
}

/// Recovery is debounced: after an unhealthy observation, fewer than five
/// healthy ones change nothing that is requested, and the fifth raises the
/// bitrate by a tenth of its nominal value, up to that value.
pub proof fn law_recovery_is_debounced(
    controller: AdaptiveController,
    observations: Seq<(u64, u32, Option<u64>)>,
)
    requires
        controller.nominal_bitrate_bps > 0,
        controller.healthy_intervals == 0,
        observations.len() <= RECOVERY_INTERVALS,
        healthy_run(controller, observations),
    ensures
        ({
            let next = after_run(controller, observations);
            &&& next.nominal_bitrate_bps == controller.nominal_bitrate_bps
            &&& next.nominal_fps == controller.nominal_fps
            &&& observations.len() < RECOVERY_INTERVALS ==> {
                &&& next.requested_bitrate_bps == controller.requested_bitrate_bps
                &&& next.requested_fps == controller.requested_fps
                &&& next.healthy_intervals == observations.len()
            }
            &&& observations.len() == RECOVERY_INTERVALS && controller.requested_bitrate_bps
                < controller.nominal_bitrate_bps ==> {
                &&& next.requested_bitrate_bps == min(
                    controller.requested_bitrate_bps + max(
                        controller.nominal_bitrate_bps as int / 10,
                        1,
                    ),
                    controller.nominal_bitrate_bps as int,
                )
                &&& next.requested_fps == controller.requested_fps
            }
        }),
    decreases observations.len(),
{
    if observations.len() > 0 {
        law_recovery_is_debounced(controller, observations.drop_last());
    }
}

/// Loss, or a round trip of more than 150 milliseconds, lowers the bitrate by a
/// fifth, rounded down, but not below one million bits a second; and where no
/// rate was estimated, nothing else lowers it. The frame rate stays meanwhile.
pub proof fn law_congestion_takes_a_fifth(
    controller: AdaptiveController,
    incomplete: u64,
    rtt_us: u32,
)
    requires
        controller.nominal_bitrate_bps >= 1_000_000,
        controller.requested_bitrate_bps > 1_000_000,
        controller.requested_bitrate_bps * 80 <= u32::MAX,
    ensures
        ({
            let next = controller.observed(incomplete, rtt_us, None);
            let before = controller.requested_bitrate_bps;
            let after = next.requested_bitrate_bps;
            let congested = incomplete > controller.previous_incomplete || rtt_us > 150_000;
            &&& congested && 4 * before >= 5_000_000 ==> 5 * after <= 4 * before < 5 * (after + 1)
            &&& congested && 4 * before < 5_000_000 ==> after == 1_000_000
            &&& !congested ==> after >= before
            &&& congested ==> next.requested_fps == controller.requested_fps
            &&& congested ==> next.healthy_intervals == 0
        }),
{
}

/// Where the bitrate cannot be lowered any more, congestion lowers the frame rate
/// instead: to the next of thirty and twenty-four frames a second, and no
/// further. A rate of fifteen to twenty-four stays, and a smaller one becomes
/// fifteen.
pub proof fn law_frame_rate_falls_in_two_steps(
    controller: AdaptiveController,
    incomplete: u64,
    rtt_us: u32,
)
    requires
        controller.nominal_bitrate_bps > 0,
        controller.requested_bitrate_bps <= 1_000_000,
        controller.requested_bitrate_bps <= controller.nominal_bitrate_bps,
        incomplete > controller.previous_incomplete || rtt_us > 150_000,
    ensures
        ({
            let next = controller.observed(incomplete, rtt_us, None);
            let before = controller.requested_fps;
            let after = next.requested_fps;
            &&& next.requested_bitrate_bps == controller.requested_bitrate_bps
            &&& before > 24 ==> {
                &&& after == 30 || after == 24
                &&& after < before
                &&& before > 30 ==> after == 30
            }
            &&& 15 <= before <= 24 ==> after == before
            &&& before < 15 ==> after == 15
        }),
{
}

/// A healthy observation is one without loss, with a round trip of at most 150
/// milliseconds, and without an estimated rate below the requested one. The
/// fifth in a row raises one thing by one step, and starts the count anew: the
/// bitrate by a tenth of its nominal value, or by one bit a second where that is
/// nothing, and once it is back, the frame rate by six; neither beyond its
/// nominal value. Any other healthy observation only counts.
pub proof fn law_fifth_healthy_observation_raises(
    controller: AdaptiveController,
    incomplete: u64,
    rtt_us: u32,
    estimate: Option<u64>,
)
    requires
        controller.nominal_bitrate_bps > 0,
        controller.requested_bitrate_bps <= controller.nominal_bitrate_bps,
        controller.requested_fps <= controller.nominal_fps,
        incomplete <= controller.previous_incomplete,
        rtt_us <= 150_000,
        estimate matches Some(rate) ==> rate == 0 || rate >= controller.requested_bitrate_bps,
    ensures
        ({
            let next = controller.observed(incomplete, rtt_us, estimate);
            let bitrate = next.requested_bitrate_bps - controller.requested_bitrate_bps;
            let rate = next.requested_fps - controller.requested_fps;
            let nominal = controller.nominal_bitrate_bps;
            &&& next.previous_incomplete == incomplete
            &&& next.nominal_bitrate_bps == nominal
            &&& next.nominal_fps == controller.nominal_fps
            &&& controller.healthy_intervals < 4 ==> {
                &&& bitrate == 0
                &&& rate == 0
                &&& next.healthy_intervals == controller.healthy_intervals + 1
            }
            &&& controller.healthy_intervals >= 4 ==> {
                &&& next.healthy_intervals == 0
                &&& controller.requested_bitrate_bps < nominal ==> {
                    &&& rate == 0
                    &&& bitrate > 0
                    &&& next.requested_bitrate_bps == nominal || bitrate == 1 && nominal < 10
                        || 10 * bitrate <= nominal < 10 * (bitrate + 1)
                    &&& next.requested_bitrate_bps <= nominal
                    &&& nominal >= 10 ==> 10 * bitrate <= nominal
                }
                &&& controller.requested_bitrate_bps == nominal ==> {
                    &&& bitrate == 0
                    &&& 0 <= rate <= 6
                    &&& rate == 6 || next.requested_fps == controller.nominal_fps
                    &&& next.requested_fps <= controller.nominal_fps
                }
            }
        }),
{
}

/// Only losses since the last observation count: an observation that repeats the
/// count of the one before it, on a short round trip and without an estimate, is
/// healthy.
pub proof fn law_loss_counts_once(
    controller: AdaptiveController,
    incomplete: u64,
    rtt_us: u32,
    estimate: Option<u64>,
)
    requires
        controller.nominal_bitrate_bps > 0,
    ensures
        ({
            let next = controller.observed(incomplete, rtt_us, estimate);
            let again = next.observed(incomplete, 0, None);
            &&& next.previous_incomplete == incomplete
            &&& again.requested_bitrate_bps >= next.requested_bitrate_bps
            &&& again.requested_fps >= next.requested_fps
        }),
{
}

/// A configuration is requested as it was announced; a later one of the same
/// connection moves the request, but never takes back how far recovery may go.
/// Losses from before do not count against it. Without a configuration nothing
/// is requested, whatever the network does.
pub proof fn law_requests_follow_the_configuration(
    controller: AdaptiveController,
    first: MediaConfiguration,
    second: MediaConfiguration,
    incomplete: u64,
    rtt_us: u32,
    estimate: Option<u64>,
)
    ensures
        ({
            let fresh = AdaptiveController::configured(first, incomplete);
            let moved = controller.reconfigured(second, incomplete);
            let idle = AdaptiveController::idle().observed(incomplete, rtt_us, estimate);
            &&& fresh.requested_bitrate_bps == first.target_bitrate_bps
            &&& fresh.requested_fps == first.fps
            &&& fresh.nominal_bitrate_bps == first.target_bitrate_bps
            &&& fresh.nominal_fps == first.fps
            &&& fresh.previous_incomplete == incomplete
            &&& fresh.healthy_intervals == 0
            &&& moved.requested_bitrate_bps == second.target_bitrate_bps
            &&& moved.requested_fps == second.fps
            &&& moved.previous_incomplete == incomplete
            &&& moved.healthy_intervals == 0
            &&& moved.nominal_bitrate_bps >= controller.nominal_bitrate_bps
            &&& moved.nominal_bitrate_bps >= second.target_bitrate_bps
            &&& moved.nominal_bitrate_bps == controller.nominal_bitrate_bps
                || moved.nominal_bitrate_bps == second.target_bitrate_bps
            &&& moved.nominal_fps >= controller.nominal_fps
            &&& moved.nominal_fps >= second.fps
            &&& moved.nominal_fps == controller.nominal_fps || moved.nominal_fps == second.fps
            &&& idle.requested_bitrate_bps == 0
            &&& idle.requested_fps == 0
        }),
{
}

/// The next lower frame rate.
pub fn lower_fps(fps: u32) -> (lower: u32)
    ensures
        lower == lowered_fps(fps),
{
    if fps > 30 {
        30
    } else if fps >= 25 {
        24
    } else if fps >= 15 {
        fps
    } else {
        15
    }
}

} // verus!
