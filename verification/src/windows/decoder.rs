//! Which hardware decoder is used, and how access units go through it.
use vstd::prelude::*;

verus! {

/// Outputs that are collected in one go before the decoder is left alone.
pub const DRAIN_LIMIT: u8 = 4;

/// The sample time, in units of 100 ns, that stands for a presentation time.
pub open spec fn sample_time(pts_us: u64) -> i64 {
    if pts_us * 10 <= i64::MAX {
        (pts_us * 10) as i64
    } else {
        i64::MAX
    }
}

/// The presentation time that a sample time stands for.
pub open spec fn presentation_time(sample_time_hns: i64) -> u64 {
    if sample_time_hns > 0 {
        (sample_time_hns as int / 10) as u64
    } else {
        0
    }
}

/// The sample time, in units of 100 ns, that stands for a presentation time.
pub fn sample_time_hns(pts_us: u64) -> (time: i64)
    ensures
        time == sample_time(pts_us),
{
    if pts_us <= 922_337_203_685_477_580 {
        (pts_us * 10) as i64
    } else {
        i64::MAX
    }
}

/// The presentation time that a sample time stands for.
pub fn pts_from_sample_time(sample_time_hns: i64) -> (pts_us: u64)
    ensures
        pts_us == presentation_time(sample_time_hns),
{
    if sample_time_hns > 0 {
        sample_time_hns as u64 / 10
    } else {
        0
    }
}

/// A presentation time comes back from the decoder unchanged, up to the largest
/// one that a sample time can hold; beyond, it comes back as that one.
pub proof fn law_presentation_time_survives_the_decoder(pts_us: u64)
    ensures
        pts_us * 10 <= i64::MAX ==> presentation_time(sample_time(pts_us)) == pts_us,
        pts_us * 10 > i64::MAX ==> presentation_time(sample_time(pts_us)) == i64::MAX as int / 10,
{
}

/// The length of an access unit, where a media buffer can hold it.
pub open spec fn buffer_length(length: usize) -> Option<u32> {
    if length <= u32::MAX {
        Some(length as u32)
    } else {
        None
    }
}

/// An access unit is taken at its full length or not at all, and every length
/// that 32 bits hold is taken.
pub proof fn law_access_units_are_taken_whole(length: usize)
    ensures
        buffer_length(length) is Some <==> length <= 0xffff_ffff,
        buffer_length(length) matches Some(taken) ==> taken == length,
{
}

/// The length of an access unit, where a media buffer can hold it.
pub fn access_unit_length(length: usize) -> (accepted: Option<u32>)
    ensures
        accepted == buffer_length(length),
{
    if length as u64 <= u32::MAX as u64 {
        Some(length as u32)
    } else {
        None
    }
}

/// Width and height in one attribute.
pub open spec fn packed_size(width: u32, height: u32) -> int {
    width * 0x1_0000_0000 + height
}

/// Both sizes can be read from the attribute: the width is its upper half, the
/// height its lower half.
pub proof fn law_frame_size_is_read_back(width: u32, height: u32)
    ensures
        packed_size(width, height) / 0x1_0000_0000 == width,
        packed_size(width, height) % 0x1_0000_0000 == height,
        packed_size(width, height) <= u64::MAX,
{
}

/// Width and height in one attribute: the width in the upper half.
pub fn frame_size_attribute(width: u32, height: u32) -> (attribute: u64)
    ensures
        attribute == packed_size(width, height),
{
    let upper: u64 = width as u64;
    let lower: u64 = height as u64;
    assert((upper << 32) | lower == upper * 0x1_0000_0000 + lower) by (bit_vector)
        requires
            upper <= 0xffff_ffff,
            lower <= 0xffff_ffff,
    ;
    (upper << 32) | lower
}

/// Why a decoder is not used. There is no software decoder to fall back on.
#[derive(Clone, Copy, Debug, PartialEq, Eq, Structural)]
pub enum DecoderRefusal {
    NoneInstalled,
    NothingToActivate,
    NotD3d11Aware,
    NoOutputSamples,
}

impl DecoderRefusal {
    pub open spec fn message(self) -> Seq<char> {
        match self {
            DecoderRefusal::NoneInstalled =>
                "no hardware H.264 decoder with NV12 D3D11 output is installed"@,
            DecoderRefusal::NothingToActivate =>
                "hardware decoder enumeration returned empty activations"@,
            DecoderRefusal::NotD3d11Aware => "the selected H.264 decoder is not D3D11-aware"@,
            DecoderRefusal::NoOutputSamples =>
                "hardware decoder does not provide zero-copy D3D11 output samples"@,
        }
    }

    /// The message shown for this refusal.
    pub fn text(&self) -> (text: &'static str)
        ensures
            text@ == self.message(),
    {
        match self {
            DecoderRefusal::NoneInstalled =>
                "no hardware H.264 decoder with NV12 D3D11 output is installed",
            DecoderRefusal::NothingToActivate =>
                "hardware decoder enumeration returned empty activations",
            DecoderRefusal::NotD3d11Aware => "the selected H.264 decoder is not D3D11-aware",
            DecoderRefusal::NoOutputSamples =>
                "hardware decoder does not provide zero-copy D3D11 output samples",
        }
    }
}

/// Picks the decoder to activate: the first of the enumerated ones that can be.
/// The system lists the decoders that it prefers first.
pub fn select_decoder(activatable: &[bool]) -> (result: Result<usize, DecoderRefusal>)
    ensures
        match result {
            Ok(index) => {
                &&& index < activatable@.len()
                &&& activatable@[index as int]
                &&& forall|k: int| 0 <= k < index ==> !activatable@[k]
            },
            Err(refusal) => {
                &&& !activatable@.contains(true)
                &&& refusal == if activatable@.len() == 0 {
                    DecoderRefusal::NoneInstalled
                } else {
                    DecoderRefusal::NothingToActivate
                }
            },
        },
{
    if activatable.len() == 0 {
        return Err(DecoderRefusal::NoneInstalled);
    }
    let mut i: usize = 0;
    while i < activatable.len()
        invariant
            i <= activatable@.len(),
            forall|k: int| 0 <= k < i ==> !activatable@[k],
        decreases activatable@.len() - i,
    {
        if activatable[i] {
            return Ok(i);
        }
        i += 1;
    }
    Err(DecoderRefusal::NothingToActivate)
}

/// Whether a decoder works on D3D11, by its attribute.
pub open spec fn d3d11_verdict(attribute: Option<u32>) -> Result<(), DecoderRefusal> {
    match attribute {
        Some(value) => if value != 0 {
            Ok(())
        } else {
            Err(DecoderRefusal::NotD3d11Aware)
        },
        None => Err(DecoderRefusal::NotD3d11Aware),
    }
}

/// Whether a decoder hands out its own output samples, by its flags.
pub open spec fn samples_verdict(flags: u32, provides_samples: u32) -> Result<(), DecoderRefusal> {
    if flags & provides_samples != 0 {
        Ok(())
    } else {
        Err(DecoderRefusal::NoOutputSamples)
    }
}

/// A decoder is used whatever value it says that it works on D3D11 by, as long as
/// it is not zero, and whatever other flags it has beside the one for its own
/// output samples; without either it is refused for that.
pub proof fn law_decoders_are_refused_for_what_they_lack(value: u32, flags: u32, provided: u32)
    ensures
        d3d11_verdict(Some(value)) is Ok <==> value != 0,
        d3d11_verdict(None) == d3d11_verdict(Some(0)),
        d3d11_verdict(None) == Err::<(), DecoderRefusal>(DecoderRefusal::NotD3d11Aware),
        provided != 0 ==> samples_verdict(flags | provided, provided) is Ok,
        samples_verdict(flags & !provided, provided) == Err::<(), DecoderRefusal>(
            DecoderRefusal::NoOutputSamples,
        ),
{
    assert((flags | provided) & provided == provided) by (bit_vector);
    assert((flags & !provided) & provided == 0) by (bit_vector);
}

/// A decoder that does not say that it works on D3D11 is refused.
pub fn check_d3d11_aware(attribute: Option<u32>) -> (result: Result<(), DecoderRefusal>)
    ensures
        result == d3d11_verdict(attribute),
{
    match attribute {
        Some(value) if value != 0 => Ok(()),
        _ => Err(DecoderRefusal::NotD3d11Aware),
    }
}

/// A decoder that does not hand out its own output samples is refused.
pub fn check_output_samples(flags: u32, provides_samples: u32) -> (result: Result<
    (),
    DecoderRefusal,
>)
    ensures
        result == samples_verdict(flags, provides_samples),
{
    if flags & provides_samples != 0 {
        Ok(())
    } else {
        Err(DecoderRefusal::NoOutputSamples)
    }
}

/// Where the submission of one access unit stands.
#[derive(Clone, Copy, Debug, PartialEq, Eq, Structural)]
pub enum SubmitStage {
    /// The access unit was offered.
    Offered,
    /// It was not accepted; so many outputs were collected to make room.
    MakingRoom(u8),
    /// It was offered again.
    Retried,
    /// It was accepted; so many outputs were collected since.
    Draining(u8),
    /// Everything that was to be done is done.
    Finished,
}

/// What the decoder did.
#[derive(Clone, Copy, Debug, PartialEq, Eq, Structural)]
pub enum DecoderEvent {
    InputAccepted,
    /// The decoder takes no input before its output is collected.
    InputNotAccepting,
    InputFailed,
    /// A decoded frame with this presentation time.
    Output(u64),
    NeedMoreInput,
    OutputFailed,
}

/// What to do with the decoder next.
#[derive(Clone, Copy, Debug, PartialEq, Eq, Structural)]
pub enum DecoderAction {
    OfferInput,
    CollectOutput,
    Done,
}

/// Why an access unit was not decoded.
#[derive(Clone, Copy, Debug, PartialEq, Eq, Structural)]
pub enum DecoderFault {
    SubmitFailed,
    RetryFailed,
    OutputFailed,
    /// The event does not answer the action that was asked for.
    OutOfOrder,
}

impl DecoderFault {
    pub open spec fn message(self) -> Seq<char> {
        match self {
            DecoderFault::SubmitFailed => "submit H.264 access unit"@,
            DecoderFault::RetryFailed => "retry H.264 access unit after draining decoder output"@,
            DecoderFault::OutputFailed => "receive hardware-decoded frame"@,
            DecoderFault::OutOfOrder => "hardware decoder event out of order"@,
        }
    }

    /// The message shown for this fault.
    pub fn text(&self) -> (text: &'static str)
        ensures
            text@ == self.message(),
    {
        match self {
            DecoderFault::SubmitFailed => "submit H.264 access unit",
            DecoderFault::RetryFailed => "retry H.264 access unit after draining decoder output",
            DecoderFault::OutputFailed => "receive hardware-decoded frame",
            DecoderFault::OutOfOrder => "hardware decoder event out of order",
        }
    }
}

/// The stage after an output attempt of a drain that had collected `count`.
pub open spec fn drained(
    count: u8,
    event: DecoderEvent,
    draining: spec_fn(u8) -> SubmitStage,
    after: SubmitStage,
) -> Result<SubmitStage, DecoderFault> {
    match event {
        DecoderEvent::Output(_) => if count + 1 < DRAIN_LIMIT {
            Ok(draining((count + 1) as u8))
        } else {
            Ok(after)
        },
        DecoderEvent::NeedMoreInput => Ok(after),
        DecoderEvent::OutputFailed => Err(DecoderFault::OutputFailed),
        _ => Err(DecoderFault::OutOfOrder),
    }
}

impl SubmitStage {
    /// The stage that follows an event.
    pub open spec fn followed_by(self, event: DecoderEvent) -> Result<SubmitStage, DecoderFault> {
        match self {
            SubmitStage::Offered => match event {
                DecoderEvent::InputAccepted => Ok(SubmitStage::Draining(0)),
                DecoderEvent::InputNotAccepting => Ok(SubmitStage::MakingRoom(0)),
                DecoderEvent::InputFailed => Err(DecoderFault::SubmitFailed),
                _ => Err(DecoderFault::OutOfOrder),
            },
            SubmitStage::MakingRoom(count) => drained(
                count,
                event,
                |count: u8| SubmitStage::MakingRoom(count),
                SubmitStage::Retried,
            ),
            SubmitStage::Retried => match event {
                DecoderEvent::InputAccepted => Ok(SubmitStage::Draining(0)),
                DecoderEvent::InputNotAccepting => Err(DecoderFault::RetryFailed),
                DecoderEvent::InputFailed => Err(DecoderFault::RetryFailed),
                _ => Err(DecoderFault::OutOfOrder),
            },
            SubmitStage::Draining(count) => drained(
                count,
                event,
                |count: u8| SubmitStage::Draining(count),
                SubmitStage::Finished,
            ),
            SubmitStage::Finished => Err(DecoderFault::OutOfOrder),
        }
    }

    /// What is to be done at this stage.
    pub open spec fn asks_for(self) -> DecoderAction {
        match self {
            SubmitStage::Offered => DecoderAction::OfferInput,
            SubmitStage::MakingRoom(_) => DecoderAction::CollectOutput,
            SubmitStage::Retried => DecoderAction::OfferInput,
            SubmitStage::Draining(_) => DecoderAction::CollectOutput,
            SubmitStage::Finished => DecoderAction::Done,
        }
    }

    /// How many events may still follow.
    pub open spec fn remaining(self) -> int {
        match self {
            SubmitStage::Offered => 2 * DRAIN_LIMIT + 2,
            SubmitStage::MakingRoom(count) => 2 * DRAIN_LIMIT + 1 - count,
            SubmitStage::Retried => DRAIN_LIMIT + 1,
            SubmitStage::Draining(count) => DRAIN_LIMIT - count,
            SubmitStage::Finished => 0,
        }
    }

    /// A drain stops at its limit.
    pub open spec fn wf(self) -> bool {
        match self {
            SubmitStage::MakingRoom(count) => count < DRAIN_LIMIT,
            SubmitStage::Draining(count) => count < DRAIN_LIMIT,
            _ => true,
        }
    }

    /// What is to be done at this stage.
    pub fn action(&self) -> (action: DecoderAction)
        ensures
            action == self.asks_for(),
    {
        match self {
            SubmitStage::Offered | SubmitStage::Retried => DecoderAction::OfferInput,
            SubmitStage::MakingRoom(_) | SubmitStage::Draining(_) => DecoderAction::CollectOutput,
            SubmitStage::Finished => DecoderAction::Done,
        }
    }
}

/// One access unit on its way through the decoder, with the presentation times
/// of what was decoded meanwhile.
#[derive(Clone, Debug, PartialEq, Eq)]
pub struct Submission {
    pub stage: SubmitStage,
    pub decoded_pts: Vec<u64>,
}

impl Submission {
    /// An access unit that is about to be offered.
    pub fn begin() -> (submission: Self)
        ensures
            submission.stage == SubmitStage::Offered,
            submission.decoded_pts@ == Seq::<u64>::empty(),
    {
        Submission { stage: SubmitStage::Offered, decoded_pts: Vec::new() }
    }

    /// Takes what the decoder did, and says what to do next. A fault changes
    /// nothing.
    pub fn advance(&mut self, event: DecoderEvent) -> (action: Result<DecoderAction, DecoderFault>)
        requires
            old(self).stage.wf(),
        ensures
            final(self).stage.wf(),
            match old(self).stage.followed_by(event) {
                Ok(stage) => {
                    &&& action == Ok::<DecoderAction, DecoderFault>(stage.asks_for())
                    &&& final(self).stage == stage
                    &&& final(self).decoded_pts@ == match event {
                        DecoderEvent::Output(pts_us) => old(self).decoded_pts@.push(pts_us),
                        _ => old(self).decoded_pts@,
                    }
                },
                Err(fault) => {
                    &&& action == Err::<DecoderAction, DecoderFault>(fault)
                    &&& *final(self) == *old(self)
                },
            },
    {
        let stage: SubmitStage = match (self.stage, event) {
            (SubmitStage::Offered, DecoderEvent::InputAccepted) => SubmitStage::Draining(0),
            (SubmitStage::Offered, DecoderEvent::InputNotAccepting) => SubmitStage::MakingRoom(0),
            (SubmitStage::Offered, DecoderEvent::InputFailed) => {
                return Err(DecoderFault::SubmitFailed);
            },
            (SubmitStage::Retried, DecoderEvent::InputAccepted) => SubmitStage::Draining(0),
            (SubmitStage::Retried, DecoderEvent::InputNotAccepting) => {
                return Err(DecoderFault::RetryFailed);
            },
            (SubmitStage::Retried, DecoderEvent::InputFailed) => {
                return Err(DecoderFault::RetryFailed);
            },
            (SubmitStage::MakingRoom(count), DecoderEvent::Output(_)) => if count + 1
                < DRAIN_LIMIT {
                SubmitStage::MakingRoom(count + 1)
            } else {
                SubmitStage::Retried
            },
            (SubmitStage::MakingRoom(_), DecoderEvent::NeedMoreInput) => SubmitStage::Retried,
            (SubmitStage::MakingRoom(_), DecoderEvent::OutputFailed) => {
                return Err(DecoderFault::OutputFailed);
            },
            (SubmitStage::Draining(count), DecoderEvent::Output(_)) => if count + 1 < DRAIN_LIMIT {
                SubmitStage::Draining(count + 1)
            } else {
                SubmitStage::Finished
            },
            (SubmitStage::Draining(_), DecoderEvent::NeedMoreInput) => SubmitStage::Finished,
            (SubmitStage::Draining(_), DecoderEvent::OutputFailed) => {
                return Err(DecoderFault::OutputFailed);
            },
            _ => return Err(DecoderFault::OutOfOrder),
        };
        match event {
            DecoderEvent::Output(pts_us) => self.decoded_pts.push(pts_us),
            _ => {},
        }
        self.stage = stage;
        Ok(stage.action())
    }
}

/// A submission ends: every event that is not a fault brings it nearer to its
/// end, and the access unit is offered twice at most.
pub proof fn law_submission_ends(stage: SubmitStage, event: DecoderEvent)
    requires
        stage.wf(),
    ensures
        stage.remaining() >= 0,
        stage.remaining() == 0 <==> stage == SubmitStage::Finished,
        stage.followed_by(event) matches Ok(next) ==> {
            &&& next.wf()
            &&& next.remaining() < stage.remaining()
            &&& next != SubmitStage::Offered
            &&& next == SubmitStage::Retried ==> stage is MakingRoom
        },
{
}


/// A sample time counts ten units for each microsecond, up to the largest one,
/// and a presentation time is read from it in whole microseconds: neither a
/// negative sample time nor a part of a microsecond counts.
pub proof fn law_sample_times_count_tens(pts_us: u64, sample_time_hns: i64)
    ensures
        pts_us <= 922_337_203_685_477_580 ==> sample_time(pts_us) == 10 * pts_us,
        pts_us > 922_337_203_685_477_580 ==> sample_time(pts_us) == i64::MAX,
        sample_time_hns >= 0 ==> 10 * presentation_time(sample_time_hns) <= sample_time_hns < 10 * (
        presentation_time(sample_time_hns) + 1),
        sample_time_hns < 0 ==> presentation_time(sample_time_hns) == 0,
{
}

/// The stage after some outputs in a row, where none of them is a fault.
pub open spec fn after_outputs(stage: SubmitStage, outputs: Seq<u64>) -> Result<
    SubmitStage,
    DecoderFault,
>
    decreases outputs.len(),
{
    if outputs.len() == 0 {
        Ok(stage)
    } else {
        match after_outputs(stage, outputs.drop_last()) {
            Err(fault) => Err(fault),
            Ok(stage) => stage.followed_by(DecoderEvent::Output(outputs.last())),
        }
    }
}

/// Of an accepted access unit at most four outputs are collected: after fewer
/// the decoder is asked for more, after the fourth it is left alone, and another
/// one is out of order. Where room was made for an access unit, at most four are
/// collected too, and then it is offered again.
pub proof fn law_four_outputs_are_collected(outputs: Seq<u64>)
    ensures
        outputs.len() < 4 ==> {
            &&& after_outputs(SubmitStage::Draining(0), outputs) matches Ok(stage)
            &&& stage.asks_for() == DecoderAction::CollectOutput
            &&& stage == SubmitStage::Draining(outputs.len() as u8)
        },
        outputs.len() == 4 ==> after_outputs(SubmitStage::Draining(0), outputs) == Ok::<
            SubmitStage,
            DecoderFault,
        >(SubmitStage::Finished),
        outputs.len() > 4 ==> after_outputs(SubmitStage::Draining(0), outputs) == Err::<
            SubmitStage,
            DecoderFault,
        >(DecoderFault::OutOfOrder),
        outputs.len() < 4 ==> after_outputs(SubmitStage::MakingRoom(0), outputs) == Ok::<
            SubmitStage,
            DecoderFault,
        >(SubmitStage::MakingRoom(outputs.len() as u8)),
        outputs.len() == 4 ==> {
            &&& after_outputs(SubmitStage::MakingRoom(0), outputs) matches Ok(stage)
            &&& stage == SubmitStage::Retried
            &&& stage.asks_for() == DecoderAction::OfferInput
        },
    decreases outputs.len(),
{
    if outputs.len() > 0 {
        law_four_outputs_are_collected(outputs.drop_last());
    }
}

/// An access unit is offered, and where the decoder takes none, offered once more
/// after its output was collected; a second refusal is a fault. An accepted one
/// is done once the decoder needs more input. Each fault says at which step it
/// came: at the first offer, at the second, or while output was collected.
pub proof fn law_access_unit_is_offered_twice_at_most(count: u8)
    requires
        count < 4,
    ensures
        SubmitStage::Offered.asks_for() == DecoderAction::OfferInput,
        SubmitStage::Finished.asks_for() == DecoderAction::Done,
        SubmitStage::Offered.followed_by(DecoderEvent::InputAccepted) == Ok::<
            SubmitStage,
            DecoderFault,
        >(SubmitStage::Draining(0)),
        SubmitStage::Retried.followed_by(DecoderEvent::InputAccepted) == Ok::<
            SubmitStage,
            DecoderFault,
        >(SubmitStage::Draining(0)),
        SubmitStage::Offered.followed_by(DecoderEvent::InputNotAccepting) == Ok::<
            SubmitStage,
            DecoderFault,
        >(SubmitStage::MakingRoom(0)),
        SubmitStage::Offered.followed_by(DecoderEvent::InputFailed) == Err::<
            SubmitStage,
            DecoderFault,
        >(DecoderFault::SubmitFailed),
        SubmitStage::Retried.followed_by(DecoderEvent::InputNotAccepting) == Err::<
            SubmitStage,
            DecoderFault,
        >(DecoderFault::RetryFailed),
        SubmitStage::Retried.followed_by(DecoderEvent::InputFailed) == Err::<
            SubmitStage,
            DecoderFault,
        >(DecoderFault::RetryFailed),
        SubmitStage::MakingRoom(count).followed_by(DecoderEvent::NeedMoreInput) == Ok::<
            SubmitStage,
            DecoderFault,
        >(SubmitStage::Retried),
        SubmitStage::Draining(count).followed_by(DecoderEvent::NeedMoreInput) == Ok::<
            SubmitStage,
            DecoderFault,
        >(SubmitStage::Finished),
        SubmitStage::MakingRoom(count).followed_by(DecoderEvent::OutputFailed) == Err::<
            SubmitStage,
            DecoderFault,
        >(DecoderFault::OutputFailed),
        SubmitStage::Draining(count).followed_by(DecoderEvent::OutputFailed) == Err::<
            SubmitStage,
            DecoderFault,
        >(DecoderFault::OutputFailed),
{
}

} // verus!
