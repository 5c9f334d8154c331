//! How messages and datagrams go over the link.
use crate::wire::{MediaChunkHeader, MediaFlow};
use vstd::prelude::*;

verus! {

/// The flow that carries colour datagrams.
pub const COLOR_FLOW: u64 = 1;

/// The flow that carries alpha datagrams.
pub const ALPHA_FLOW: u64 = 2;

/// How long a control message is tried to be sent.
pub const SEND_WINDOW_NS: u64 = 250_000_000;

/// Why a datagram or a message was refused at the transport.
#[derive(Clone, Copy, Debug, PartialEq, Eq, Structural)]
pub enum TransportFault {
    UnknownFlow,
    FlowMismatch,
    GenerationMismatch,
    ReceiveControl,
    ReceiveMedia,
    SendControl,
}

impl TransportFault {
    pub open spec fn message(self) -> Seq<char> {
        match self {
            TransportFault::UnknownFlow => "unknown NanaLive media flow"@,
            TransportFault::FlowMismatch
            => "MutsukiLink flow does not match NanaLive media header"@,
            TransportFault::GenerationMismatch
            => "MutsukiLink generation does not match NanaLive media header"@,
            TransportFault::ReceiveControl => "receive MutsukiLink control message"@,
            TransportFault::ReceiveMedia => "receive MutsukiLink media datagram"@,
            TransportFault::SendControl => "send MutsukiLink control message"@,
        }
    }

    /// The message shown for this fault.
    pub fn text(&self) -> (text: &'static str)
        ensures
            text@ == self.message(),
    {
        match self {
            TransportFault::UnknownFlow => "unknown NanaLive media flow",
            TransportFault::FlowMismatch => "MutsukiLink flow does not match NanaLive media header",
            TransportFault::GenerationMismatch
            => "MutsukiLink generation does not match NanaLive media header",
            TransportFault::ReceiveControl => "receive MutsukiLink control message",
            TransportFault::ReceiveMedia => "receive MutsukiLink media datagram",
            TransportFault::SendControl => "send MutsukiLink control message",
        }
    }
}

/// The flow that a plane belongs on, where there is one.
pub open spec fn flow_of(flow: MediaFlow) -> Option<u64> {
    match flow {
        MediaFlow::Color => Some(COLOR_FLOW),
        MediaFlow::Alpha => Some(ALPHA_FLOW),
        MediaFlow::Unknown(_) => None,
    }
}

/// Why a datagram that came on a flow and under a generation is refused, if it
/// is: its header names another.
pub open spec fn metadata_fault(header: MediaChunkHeader, flow: u64, generation: u32) -> Option<
    TransportFault,
> {
    match flow_of(header.flow) {
        None => Some(TransportFault::UnknownFlow),
        Some(expected) => if flow != expected {
            Some(TransportFault::FlowMismatch)
        } else if generation != header.generation {
            Some(TransportFault::GenerationMismatch)
        } else {
            None
        },
    }
}

/// Checks that a datagram came on the flow and under the generation that its
/// header names.
pub fn validate_transport_metadata(header: &MediaChunkHeader, flow: u64, generation: u32) -> (result:
    Result<(), TransportFault>)
    ensures
        result == match metadata_fault(*header, flow, generation) {
            Some(fault) => Err::<(), TransportFault>(fault),
            None => Ok(()),
        },
{
    let expected: u64 = match header.flow {
        MediaFlow::Color => COLOR_FLOW,
        MediaFlow::Alpha => ALPHA_FLOW,
        MediaFlow::Unknown(_) => return Err(TransportFault::UnknownFlow),
    };
    if flow != expected {
        return Err(TransportFault::FlowMismatch);
    }
    if generation != header.generation as u32 {
        return Err(TransportFault::GenerationMismatch);
    }
    Ok(())
}

/// What came of one attempt to receive.
#[derive(Clone, Copy, Debug, PartialEq, Eq, Structural)]
pub enum ReceiveOutcome {
    Received,
    Nothing,
    WouldBlock,
    Failed,
}

/// What to do after an attempt to receive.
#[derive(Clone, Copy, Debug, PartialEq, Eq, Structural)]
pub enum ReceiveStep {
    /// Handle what was received, and try again.
    Handle,
    /// Nothing more is waiting.
    Drained,
    /// Give up with the transport's error.
    Fail,
}

/// What to do after an attempt to receive.
pub fn after_receive(outcome: ReceiveOutcome) -> (step: ReceiveStep)
    ensures
        step == match outcome {
            ReceiveOutcome::Received => ReceiveStep::Handle,
            ReceiveOutcome::Nothing => ReceiveStep::Drained,
            ReceiveOutcome::WouldBlock => ReceiveStep::Drained,
            ReceiveOutcome::Failed => ReceiveStep::Fail,
        },
{
    match outcome {
        ReceiveOutcome::Received => ReceiveStep::Handle,
        ReceiveOutcome::Nothing | ReceiveOutcome::WouldBlock => ReceiveStep::Drained,
        ReceiveOutcome::Failed => ReceiveStep::Fail,
    }
}

/// What came of one attempt to send.
#[derive(Clone, Copy, Debug, PartialEq, Eq, Structural)]
pub enum SendOutcome {
    Sent,
    WouldBlock,
    Failed,
}

/// What to do after an attempt to send.
#[derive(Clone, Copy, Debug, PartialEq, Eq, Structural)]
pub enum SendStep {
    Done,
    /// Wait a little, and try again.
    Retry,
    /// Give up with the transport's error.
    Fail,
}

/// Until when a message that is sent now is tried again.
pub open spec fn tried_until(now: u64) -> u64 {
    if now + SEND_WINDOW_NS <= u64::MAX {
        (now + SEND_WINDOW_NS) as u64
    } else {
        u64::MAX
    }
}

/// What to do after an attempt to send that ended at `now`.
pub open spec fn send_step(outcome: SendOutcome, now: u64, deadline: u64) -> SendStep {
    match outcome {
        SendOutcome::Sent => SendStep::Done,
        SendOutcome::WouldBlock => if now < deadline {
            SendStep::Retry
        } else {
            SendStep::Fail
        },
        SendOutcome::Failed => SendStep::Fail,
    }
}

/// Until when a message that is sent now is tried again.
pub fn send_deadline(now: u64) -> (deadline: u64)
    ensures
        deadline == tried_until(now),
{
    now.saturating_add(SEND_WINDOW_NS)
}

/// What to do after an attempt to send that ended at `now`: a transport that
/// would block is tried again until the deadline.
pub fn after_send(outcome: SendOutcome, now: u64, deadline: u64) -> (step: SendStep)
    ensures
        step == send_step(outcome, now, deadline),
{
    match outcome {
        SendOutcome::Sent => SendStep::Done,
        SendOutcome::WouldBlock => if now < deadline {
            SendStep::Retry
        } else {
            SendStep::Fail
        },
        SendOutcome::Failed => SendStep::Fail,
    }
}

/// The protocol under which media and control go over the link.
pub fn media_protocol() -> (name: &'static str)
    ensures
        name@ == "nanalive.link.media"@,
{
    "nanalive.link.media"
}

/// What the link says of a datagram is what its header says: two datagrams that
/// are let through on the same flow under the same generation are of the same
/// known plane and the same generation.
pub proof fn law_accepted_datagram_is_bound(
    header: MediaChunkHeader,
    other: MediaChunkHeader,
    flow: u64,
    generation: u32,
)
    requires
        metadata_fault(header, flow, generation) is None,
        metadata_fault(other, flow, generation) is None,
    ensures
        header.flow == other.flow,
        header.generation == other.generation,
        header.flow == MediaFlow::Color || header.flow == MediaFlow::Alpha,
        header.generation == generation,
        header.flow == MediaFlow::Color <==> flow == 1,
        header.flow == MediaFlow::Alpha <==> flow == 2,
{
}


/// A datagram is let through exactly where it came on the flow of its plane,
/// colour on the first and alpha on the second, and under its own generation;
/// else it is said which of them is wrong, the plane first and the generation
/// last.
pub proof fn law_datagrams_come_on_their_own_flow(
    header: MediaChunkHeader,
    flow: u64,
    generation: u32,
)
    ensures
        metadata_fault(header, flow, generation) is None <==> {
            &&& (header.flow == MediaFlow::Color && flow == 1) || (header.flow == MediaFlow::Alpha
                && flow == 2)
            &&& generation == header.generation
        },
        header.flow is Unknown ==> metadata_fault(header, flow, generation) == Some(
            TransportFault::UnknownFlow,
        ),
        header.flow == MediaFlow::Color && flow != 1 || header.flow == MediaFlow::Alpha && flow != 2
            ==> metadata_fault(header, flow, generation) == Some(TransportFault::FlowMismatch),
        (header.flow == MediaFlow::Color && flow == 1 || header.flow == MediaFlow::Alpha && flow
            == 2) && generation != header.generation ==> metadata_fault(header, flow, generation)
            == Some(TransportFault::GenerationMismatch),
{
}

/// A message is tried for a quarter of a second, up to the end of the clock: as
/// long as the transport would block, it is tried again until then and given up
/// from then on. A message that was sent is done at any time, and a broken
/// transport is never tried again.
pub proof fn law_blocked_send_is_tried_for_a_quarter_second(now: u64, ended: u64)
    ensures
        now + 250_000_000 <= u64::MAX ==> {
            send_step(SendOutcome::WouldBlock, ended, tried_until(now)) == if ended - now
                < 250_000_000 {
                SendStep::Retry
            } else {
                SendStep::Fail
            }
        },
        now + 250_000_000 > u64::MAX ==> (send_step(
            SendOutcome::WouldBlock,
            ended,
            tried_until(now),
        ) == SendStep::Fail <==> ended == u64::MAX),
        send_step(SendOutcome::Sent, ended, tried_until(now)) == SendStep::Done,
        send_step(SendOutcome::Failed, ended, tried_until(now)) == SendStep::Fail,
{
}

} // verus!
