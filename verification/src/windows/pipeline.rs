//! The hardware pipeline's own rules: what is decoded, matched and shown.
use crate::frame_matcher::PendingAlphaFrames;
use crate::receiver::{elapsed_us, PreparedFrame};
use vstd::prelude::*;
use vstd::string::StringExecFns;

verus! {

/// Frames that may wait for the decoder at once.
pub const PENDING_ALPHA_LIMIT: usize = 2;

/// Whether the output took a frame.
#[derive(Clone, Copy, Debug, PartialEq, Eq, Structural)]
pub enum PublishResult {
    Sent,
    SkippedAccessTimeout,
}

/// A frame that was offered to the output.
#[derive(Clone, Copy, Debug, PartialEq, Eq, Structural)]
pub struct PublishedFrame {
    pub frame_id: u32,
    pub result: PublishResult,
}

/// CPU times of the last frame.
#[derive(Clone, Copy, Debug, PartialEq, Eq, Structural)]
pub struct PipelineTelemetry {
    /// CPU time spent submitting input and draining available decoder output.
    pub color_decode_submit_cpu_us: u32,
    /// CPU time spent recording the composite commands. This is not GPU
    /// execution time.
    pub composite_enqueue_cpu_us: u32,
    /// CPU time spent in the texture-publish call. This is not GPU copy time.
    pub spout_publish_cpu_us: u32,
}

impl Default for PipelineTelemetry {
    fn default() -> (telemetry: Self)
        ensures
            telemetry == (PipelineTelemetry {
                color_decode_submit_cpu_us: 0,
                composite_enqueue_cpu_us: 0,
                spout_publish_cpu_us: 0,
            }),
    {
        PipelineTelemetry {
            color_decode_submit_cpu_us: 0,
            composite_enqueue_cpu_us: 0,
            spout_publish_cpu_us: 0,
        }
    }
}

/// What the output said to a frame.
#[derive(Clone, Debug, PartialEq, Eq)]
pub enum SpoutStatus {
    Sent,
    SkippedAccessTimeout,
    /// Anything else, in the output's own words.
    Other(String),
}

/// Why the pipeline rejected a frame.
#[derive(Clone, Debug, PartialEq, Eq)]
pub enum PipelineFault {
    DimensionsChanged,
    AlphaLength,
    /// The output's own word for its status.
    PublishFailed(String),
}

impl PipelineFault {
    pub open spec fn message(self) -> Seq<char> {
        match self {
            PipelineFault::DimensionsChanged
            => "frame dimensions changed without reconfiguration"@,
            PipelineFault::AlphaLength
            => "decoded A8T1 alpha length does not match frame dimensions"@,
            PipelineFault::PublishFailed(status) => "Spout publish failed with status "@ + status@,
        }
    }

    /// The message shown for this fault.
    pub fn text(&self) -> (text: String)
        ensures
            text@ == self.message(),
    {
        match self {
            PipelineFault::DimensionsChanged
            => "frame dimensions changed without reconfiguration".to_owned(),
            PipelineFault::AlphaLength
            => "decoded A8T1 alpha length does not match frame dimensions".to_owned(),
            PipelineFault::PublishFailed(status) => {
                let mut text: String = "Spout publish failed with status ".to_owned();
                text.append(status.as_str());
                text
            },
        }
    }
}

/// A decoded frame that found its alpha plane.
#[derive(Clone, Debug, PartialEq, Eq)]
pub struct MatchedFrame {
    /// Which of the decoded frames it is.
    pub index: usize,
    pub frame_id: u32,
    pub alpha: Vec<u8>,
}

/// The first place at which `decoded` holds `pts_us`.
pub open spec fn is_first(decoded: Seq<u64>, pts_us: u64, index: int) -> bool {
    &&& 0 <= index < decoded.len()
    &&& decoded[index] == pts_us
    &&& forall|i: int| 0 <= i < index ==> decoded[i] != pts_us
}

/// The state of a hardware pipeline of one frame size. The devices behind it
/// are driven by the caller, between its steps: a frame is first announced by
/// [`HardwarePipeline::publish`], the decoder's output is handed to
/// [`HardwarePipeline::match_decoded`], the composite follows where
/// [`HardwarePipeline::check_alpha`] allows it, and the output's verdict goes to
/// [`HardwarePipeline::finish`].
pub struct HardwarePipeline {
    width: u32,
    height: u32,
    pending_alpha: PendingAlphaFrames,
    telemetry: PipelineTelemetry,
}

impl HardwarePipeline {
    pub closed spec fn spec_width(&self) -> u32 {
        self.width
    }

    pub closed spec fn spec_height(&self) -> u32 {
        self.height
    }

    pub closed spec fn spec_telemetry(&self) -> PipelineTelemetry {
        self.telemetry
    }

    /// The alpha planes that wait for their colour.
    pub closed spec fn waiting(&self) -> Map<u64, (u32, Seq<u8>)> {
        self.pending_alpha@
    }

    /// At most two planes wait.
    pub closed spec fn wf(&self) -> bool {
        &&& self.pending_alpha.wf()
        &&& self.pending_alpha.limit() == PENDING_ALPHA_LIMIT
    }

    /// The size stays.
    pub open spec fn same_size(&self, other: &Self) -> bool {
        &&& self.spec_width() == other.spec_width()
        &&& self.spec_height() == other.spec_height()
    }

    /// The pipeline shows frames of this size.
    pub open spec fn shows_size(&self, width: u32, height: u32) -> bool {
        width == self.spec_width() && height == self.spec_height()
    }

    /// A pipeline for frames of one size.
    pub fn new(width: u32, height: u32) -> (pipeline: Self)
        ensures
            pipeline.wf(),
            pipeline.spec_width() == width,
            pipeline.spec_height() == height,
            pipeline.waiting() == Map::<u64, (u32, Seq<u8>)>::empty(),
            pipeline.spec_telemetry() == (PipelineTelemetry {
                color_decode_submit_cpu_us: 0,
                composite_enqueue_cpu_us: 0,
                spout_publish_cpu_us: 0,
            }),
    {
        HardwarePipeline {
            width,
            height,
            pending_alpha: PendingAlphaFrames::new(PENDING_ALPHA_LIMIT),
            telemetry: PipelineTelemetry::default(),
        }
    }

    /// CPU times of the last frame.
    pub fn telemetry(&self) -> (telemetry: PipelineTelemetry)
        ensures
            telemetry == self.spec_telemetry(),
    {
        self.telemetry
    }

    /// Frames that were submitted and whose output has not come back: the alpha
    /// planes that still wait.
    pub fn decode_queue_depth(&self) -> (depth: u16)
        requires
            self.wf(),
        ensures
            depth == self.waiting().dom().len(),
            depth <= PENDING_ALPHA_LIMIT,
            depth <= 2,
    {
        let waiting: usize = self.pending_alpha.len();
        waiting as u16
    }

    /// Announces a frame whose colour is about to be decoded: its alpha plane
    /// waits, and the earliest of the waiting planes makes room.
    pub fn publish(&mut self, frame: &PreparedFrame) -> (result: Result<(), PipelineFault>)
        requires
            old(self).wf(),
        ensures
            final(self).wf(),
            final(self).same_size(old(self)),
            final(self).spec_telemetry() == old(self).spec_telemetry(),
            match result {
                Ok(_) => {
                    &&& old(self).shows_size(frame.width, frame.height)
                    &&& final(self).waiting() == crate::ordered::keep_largest(
                        old(self).waiting().insert(frame.pts_us, (frame.frame_id, frame.alpha@)),
                        PENDING_ALPHA_LIMIT as nat,
                    )
                },
                Err(fault) => {
                    &&& fault == PipelineFault::DimensionsChanged
                    &&& !old(self).shows_size(frame.width, frame.height)
                    &&& final(self).waiting() == old(self).waiting()
                },
            },
    {
        if frame.width != self.width || frame.height != self.height {
            return Err(PipelineFault::DimensionsChanged);
        }
        let alpha: Vec<u8> = frame.alpha.clone();
        assert(alpha@ =~= frame.alpha@);
        self.pending_alpha.insert(frame.pts_us, frame.frame_id, alpha);
        Ok(())
    }

    /// Takes the presentation times of what the decoder delivered in
    /// `submit_ns`, and picks the latest frame whose alpha plane waits. Earlier
    /// planes are forgotten with it.
    pub fn match_decoded(&mut self, decoded_pts: &[u64], submit_ns: u64) -> (matched: Option<
        MatchedFrame,
    >)
        requires
            old(self).wf(),
        ensures
            final(self).wf(),
            final(self).same_size(old(self)),
            final(self).spec_telemetry() == (PipelineTelemetry {
                color_decode_submit_cpu_us: crate::model::clamped_u32(submit_ns as int / 1_000),
                ..old(self).spec_telemetry()
            }),
            match matched {
                Some(frame) => {
                    let pts_us = decoded_pts@[frame.index as int];
                    &&& is_first(decoded_pts@, pts_us, frame.index as int)
                    &&& crate::frame_matcher::is_latest_match(
                        old(self).waiting(),
                        decoded_pts@,
                        pts_us,
                    )
                    &&& old(self).waiting()[pts_us] == (frame.frame_id, frame.alpha@)
                    &&& final(self).waiting() == old(self).waiting().filter_keys(
                        |key: u64| key > pts_us,
                    )
                },
                None => {
                    &&& final(self).waiting() == old(self).waiting()
                    &&& forall|i: int|
                        0 <= i < decoded_pts@.len() ==> !old(self).waiting().contains_key(
                            #[trigger] decoded_pts@[i],
                        )
                },
            },
    {
        self.telemetry.color_decode_submit_cpu_us = elapsed_us(submit_ns);
        let (pts_us, frame_id, alpha): (u64, u32, Vec<u8>) =
            match self.pending_alpha.take_latest_matching(decoded_pts) {
            Some(matched) => matched,
            None => return None,
        };
        let mut index: usize = 0;
        while index < decoded_pts.len() && decoded_pts[index] != pts_us
            invariant
                index <= decoded_pts@.len(),
                forall|i: int| 0 <= i < index ==> decoded_pts@[i] != pts_us,
            decreases decoded_pts@.len() - index,
        {
            index += 1;
        }
        Some(MatchedFrame { index, frame_id, alpha })
    }

    /// Whether an alpha plane covers the frame, so that it can be composited.
    pub fn check_alpha(&self, alpha: &[u8]) -> (result: Result<(), PipelineFault>)
        ensures
            match result {
                Ok(_) => alpha@.len() == covered(self.spec_width(), self.spec_height()),
                Err(fault) => {
                    &&& alpha@.len() != covered(self.spec_width(), self.spec_height())
                    &&& fault == PipelineFault::AlphaLength
                },
            },
    {
        let width: u128 = self.width as u128;
        let height: u128 = self.height as u128;
        assert(width * height <= u32::MAX * u32::MAX) by (nonlinear_arith)
            requires
                width <= u32::MAX,
                height <= u32::MAX,
        ;
        let pixels: u128 = width * height;
        let limit: u128 = usize::MAX as u128;
        let expected: u128 = if pixels <= limit {
            pixels
        } else {
            limit
        };
        if alpha.len() as u128 != expected {
            return Err(PipelineFault::AlphaLength);
        }
        Ok(())
    }

    /// Notes how long recording the composite took.
    pub fn note_composite(&mut self, composite_ns: u64)
        requires
            old(self).wf(),
        ensures
            final(self).wf(),
            final(self).same_size(old(self)),
            final(self).waiting() == old(self).waiting(),
            final(self).spec_telemetry() == (PipelineTelemetry {
                composite_enqueue_cpu_us: crate::model::clamped_u32(composite_ns as int / 1_000),
                ..old(self).spec_telemetry()
            }),
    {
        self.telemetry.composite_enqueue_cpu_us = elapsed_us(composite_ns);
    }

    /// Takes what the output said to a frame, and how long it took to say so.
    pub fn finish(
        &mut self,
        frame_id: u32,
        status: SpoutStatus,
        publish_ns: u64,
    ) -> (published: Result<PublishedFrame, PipelineFault>)
        requires
            old(self).wf(),
        ensures
            final(self).wf(),
            final(self).same_size(old(self)),
            final(self).waiting() == old(self).waiting(),
            final(self).spec_telemetry() == (PipelineTelemetry {
                spout_publish_cpu_us: crate::model::clamped_u32(publish_ns as int / 1_000),
                ..old(self).spec_telemetry()
            }),
            published == match status {
                SpoutStatus::Sent => Ok::<PublishedFrame, PipelineFault>(
                    PublishedFrame { frame_id, result: PublishResult::Sent },
                ),
                SpoutStatus::SkippedAccessTimeout => Ok(
                    PublishedFrame { frame_id, result: PublishResult::SkippedAccessTimeout },
                ),
                SpoutStatus::Other(status) => Err(PipelineFault::PublishFailed(status)),
            },
    {
        self.telemetry.spout_publish_cpu_us = elapsed_us(publish_ns);
        match status {
            SpoutStatus::Sent => Ok(PublishedFrame { frame_id, result: PublishResult::Sent }),
            SpoutStatus::SkippedAccessTimeout => Ok(
                PublishedFrame { frame_id, result: PublishResult::SkippedAccessTimeout },
            ),
            SpoutStatus::Other(status) => Err(PipelineFault::PublishFailed(status)),
        }
    }
}

/// The bytes of an alpha plane of this size, one for each pixel, as far as an
/// address can count them.
pub open spec fn covered(width: u32, height: u32) -> int {
    if width * height <= usize::MAX {
        width * height
    } else {
        usize::MAX as int
    }
}

/// Colour and alpha are shown together only where their presentation times
/// agree: a plane that waited alone for a time is matched by exactly the
/// decoded frame with that time.
pub proof fn law_alpha_is_matched_by_its_own_time(
    waiting: Map<u64, (u32, Seq<u8>)>,
    decoded: Seq<u64>,
    pts_us: u64,
    matched: u64,
)
    requires
        waiting.dom() == set![pts_us],
        crate::frame_matcher::is_latest_match(waiting, decoded, matched),
    ensures
        matched == pts_us,
        decoded.contains(pts_us),
{
}


/// A pipeline that was made for a size takes frames of that size and of no
/// other: neither the width nor the height may differ, and they do not stand in
/// for one another.
pub proof fn law_pipeline_shows_one_size(pipeline: &HardwarePipeline, width: u32, height: u32)
    requires
        pipeline.shows_size(width, height),
    ensures
        forall|other: u32| other != width ==> !#[trigger] pipeline.shows_size(other, height),
        forall|other: u32| other != height ==> !#[trigger] pipeline.shows_size(width, other),
        width != height ==> !pipeline.shows_size(height, width),
{
}

/// An alpha plane has one byte for each pixel: a row more is a width of bytes
/// more, and a column more is a height of bytes more, as far as an address can
/// count them.
pub proof fn law_alpha_has_one_byte_for_each_pixel(width: u32, height: u32)
    requires
        width < u32::MAX,
        height < u32::MAX,
        (width + 1) * (height + 1) <= usize::MAX,
    ensures
        covered(width, 0) == 0,
        covered(0, height) == 0,
        covered(width, (height + 1) as u32) == covered(width, height) + width,
        covered((width + 1) as u32, height) == covered(width, height) + height,
        covered(width, height) == width * height,
{
    let w = width as int;
    let h = height as int;
    assert((w + 1) * (h + 1) == w * h + w + h + 1) by (nonlinear_arith);
    assert(w * (h + 1) == w * h + w) by (nonlinear_arith);
    assert((w + 1) * h == w * h + h) by (nonlinear_arith);
    assert(w * 0 == 0 && 0 * h == 0) by (nonlinear_arith);
    assert(w * h >= 0) by (nonlinear_arith)
        requires
            w >= 0,
            h >= 0,
    ;
}

} // verus!
