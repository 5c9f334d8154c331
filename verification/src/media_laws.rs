//! What becomes of a frame between its first datagram and the output.
use crate::history_laws::{after_each, forgets_media, keeps_media, lemma_shorter_run_keeps_media};
use crate::model::{
    due_keys, frame_key, lemma_awaited, lemma_expired, lemma_oldest_is_unique, next_anchor,
    playout_time, CoreModel,
};
use crate::receiver::{
    MediaAction, MediaTicket, ReassemblyAction, ReceiverDiagnostics, ReceiverError, SessionPhase,
};
use crate::session_laws::{after, SessionEvent};
use crate::wire::{
    AlphaFrame, MediaChunkHeader, ProtocolError, ReassemblyOutcome, SynchronizedPair,
};
use vstd::prelude::*;

verus! {

/// The session streams media of the generation that a datagram names.
pub open spec fn streams(session: CoreModel, header: MediaChunkHeader) -> bool {
    &&& session.inv()
    &&& session.phase == SessionPhase::Streaming
    &&& session.configuration->Some_0.generation == header.generation
}

/// The ticket with which a datagram goes to reassembly, where it does.
pub open spec fn ticket_of(
    session: CoreModel,
    header: MediaChunkHeader,
    received_at: u64,
) -> Option<MediaTicket> {
    match session.pushed(Ok(header), received_at).1 {
        Ok(MediaAction::Reassemble(ticket)) => Some(ticket),
        _ => None,
    }
}

/// A delay is one frame long: a whole number of microseconds, and the largest
/// such that `fps` of them fit into a second.
pub open spec fn lasts_one_frame(delay: int, fps: u32) -> bool {
    &&& delay >= 0
    &&& delay % 1_000 == 0
    &&& delay * fps <= 1_000_000_000
    &&& 1_000_000_000 < (delay + 1_000) * fps
}

/// The clock anchor does not place a presentation time: there is none, or the
/// time lies before it or more than two seconds ahead of it.
pub open spec fn out_of_reach(session: CoreModel, pts_us: u64) -> bool {
    session.clock_anchor matches Some((anchor_pts, _)) ==> pts_us < anchor_pts || pts_us
        > anchor_pts + 2_000_000
}

/// Giving up frames leaves the clock anchor and what is ready alone.
proof fn lemma_late_frames_keep_the_rest(session: CoreModel, keys: Seq<u64>)
    ensures
        session.frames_late(keys).clock_anchor == session.clock_anchor,
        session.frames_late(keys).received_at == session.received_at,
        session.frames_late(keys).next_insertion_order == session.next_insertion_order,
    decreases keys.len(),
{
    if keys.len() > 0 {
        lemma_late_frames_keep_the_rest(session, keys.drop_last());
    }
}

/// A datagram of the current generation either goes to reassembly, and its frame
/// is awaited, or its frame is one that was given up. Its ticket names the frame
/// and the time of the datagram, and the size of the configuration.
pub proof fn law_datagram_is_received_under_its_configuration(
    session: CoreModel,
    header: MediaChunkHeader,
    received_at: u64,
)
    requires
        streams(session, header),
    ensures
        ({
            let (next, result) = session.pushed(Ok(header), received_at);
            let key = frame_key(header.generation, header.frame_id);
            &&& next.configuration == session.configuration
            &&& next.phase == session.phase
            &&& match ticket_of(session, header, received_at) {
                Some(ticket) => {
                    &&& ticket.generation == header.generation
                    &&& ticket.frame_id == header.frame_id
                    &&& ticket.received_at == received_at
                    &&& ticket.width == session.configuration->Some_0.width
                    &&& ticket.height == session.configuration->Some_0.height
                    &&& next.inflight.contains_key(key)
                    &&& !next.dropped.contains_key(key)
                },
                None => {
                    &&& result == Ok::<MediaAction, ReceiverError>(MediaAction::ExpireOnly)
                    &&& next.dropped.contains_key(key)
                    &&& !next.inflight.contains_key(key)
                },
            }
        }),
{
    let anchored = CoreModel {
        clock_anchor: next_anchor(session.clock_anchor, header.pts_us, received_at),
        ..session
    };
    let current = anchored.expired(received_at);
    let key = frame_key(header.generation, header.frame_id);
    lemma_expired(anchored, received_at);
    if !current.dropped.contains_key(key) {
        lemma_awaited(
            current,
            key,
            playout_time(
                session.clock_anchor,
                header.pts_us,
                received_at,
                session.configuration->Some_0.fps,
            ),
            received_at,
        );
    }
}

/// What is handed out is what was received: a frame has the size of the
/// configuration under which its datagrams came, the generation, frame id,
/// presentation time and colour of its pair, the alpha of its decoded plane, and
/// is handed out from the time on that its ticket named. A decoded plane that
/// names another frame, or has another size, is refused, and nothing but the
/// time that its decoding took is noted.
pub proof fn law_frame_has_the_size_of_its_configuration(
    session: CoreModel,
    header: MediaChunkHeader,
    received_at: u64,
    meanwhile: CoreModel,
    pair: SynchronizedPair,
    alpha: AlphaFrame,
    decode_ns: u64,
    now: u64,
)
    requires
        streams(session, header),
        ticket_of(session, header, received_at) is Some,
    ensures
        ({
            let ticket = ticket_of(session, header, received_at)->Some_0;
            let configuration = session.configuration->Some_0;
            let (next, result) = meanwhile.alpha_decoded(ticket, pair, Ok(alpha), decode_ns);
            let belongs = {
                &&& alpha.generation == pair.generation
                &&& alpha.frame_id == pair.frame_id
                &&& alpha.pts_us == pair.pts_us
                &&& alpha.width == configuration.width
                &&& alpha.height == configuration.height
            };
            &&& belongs ==> {
                &&& result is Ok
                &&& next.frame_taken(now).1 is Some <==> now >= ticket.deadline
                &&& next.frame_taken(now).1 matches Some(frame) ==> {
                    &&& frame.width == configuration.width
                    &&& frame.height == configuration.height
                    &&& frame.playout_at == ticket.deadline
                    &&& frame.generation == pair.generation
                    &&& frame.frame_id == pair.frame_id
                    &&& frame.pts_us == pair.pts_us
                    &&& frame.h264 == pair.color
                    &&& frame.alpha == alpha.alpha
                }
                &&& !next.inflight.contains_key(frame_key(pair.generation, pair.frame_id))
            }
            &&& !belongs ==> {
                &&& result == Err::<(), ReceiverError>(ReceiverError::InconsistentAlpha)
                &&& next == (CoreModel {
                    diagnostics: ReceiverDiagnostics {
                        alpha_decode_cpu_us: next.diagnostics.alpha_decode_cpu_us,
                        ..meanwhile.diagnostics
                    },
                    ..meanwhile
                })
            }
            &&& next.diagnostics.alpha_decode_cpu_us == if decode_ns / 1_000 <= 0xffff_ffff {
                decode_ns / 1_000
            } else {
                0xffff_ffff
            }
        }),
{
}

/// An undecodable alpha plane is refused with the protocol's own error, and
/// changes nothing.
pub proof fn law_undecodable_alpha_changes_nothing(
    session: CoreModel,
    ticket: MediaTicket,
    pair: SynchronizedPair,
    error: ProtocolError,
    decode_ns: u64,
)
    ensures
        session.alpha_decoded(ticket, pair, Err(error), decode_ns) == (
            session,
            Err::<(), ReceiverError>(ReceiverError::Protocol(error)),
        ),
{
}

/// A frame that the clock anchor does not place is shown one frame of the
/// configured rate after its arrival, so that as many frames in a row as the
/// rate names span one second, to within as many microseconds. Without a rate, a
/// frame lasts one second.
pub proof fn law_first_frame_waits_one_frame(
    session: CoreModel,
    header: MediaChunkHeader,
    received_at: u64,
)
    requires
        streams(session, header),
        out_of_reach(session, header.pts_us),
        ticket_of(session, header, received_at) is Some,
    ensures
        ({
            let fps = if session.configuration->Some_0.fps == 0 {
                1
            } else {
                session.configuration->Some_0.fps
            };
            let deadline = ticket_of(session, header, received_at)->Some_0.deadline;
            &&& received_at + 1_000_000_000 <= u64::MAX ==> lasts_one_frame(
                deadline - received_at,
                fps,
            )
            &&& deadline != received_at ==> lasts_one_frame(deadline - received_at, fps)
        }),
{
    let fps = if session.configuration->Some_0.fps == 0 {
        1int
    } else {
        session.configuration->Some_0.fps as int
    };
    let micros = 1_000_000int / fps;
    assert(0 <= micros <= 1_000_000 && micros * fps <= 1_000_000 < (micros + 1) * fps)
        by (nonlinear_arith)
        requires
            fps > 0,
            micros == 1_000_000int / fps,
    ;
    let delay = micros * 1_000;
    assert(delay * fps == 1_000 * (micros * fps)) by (nonlinear_arith)
        requires
            delay == micros * 1_000,
    ;
    assert((delay + 1_000) * fps == 1_000 * ((micros + 1) * fps)) by (nonlinear_arith)
        requires
            delay == micros * 1_000,
    ;
    assert(delay % 1_000 == 0);
}

/// At a higher rate no frame waits longer for its turn, and one rate has one
/// delay.
pub proof fn law_higher_rates_do_not_wait_longer(delay: int, other: int, fps: u32, higher: u32)
    requires
        0 < fps <= higher,
        lasts_one_frame(delay, fps),
        lasts_one_frame(other, higher),
    ensures
        other <= delay,
        fps == higher ==> other == delay,
{
    if other > delay {
        assert(other >= delay + 1_000);
        assert((delay + 1_000) * fps <= other * higher) by (nonlinear_arith)
            requires
                0 <= delay + 1_000 <= other,
                0 < fps <= higher,
        ;
    }
    if fps == higher && other < delay {
        assert(delay >= other + 1_000);
        assert((other + 1_000) * fps <= delay * fps) by (nonlinear_arith)
            requires
                0 <= other + 1_000 <= delay,
                0 < fps,
        ;
    }
}

/// An event does not move the clock anchor, nor the configuration, unless it
/// makes the session forget its media or is a datagram that the anchor does not
/// place.
proof fn lemma_event_keeps_anchor(session: CoreModel, event: SessionEvent)
    requires
        !forgets_media(session, event),
        event matches SessionEvent::Datagram(Ok(header), _) ==> !out_of_reach(
            session,
            header.pts_us,
        ),
    ensures
        after(session, event).clock_anchor == session.clock_anchor,
        after(session, event).configuration == session.configuration,
{
    reveal(after);
    match event {
        SessionEvent::Datagram(header, received_at) => {
            if header is Ok {
                let anchored = CoreModel {
                    clock_anchor: next_anchor(
                        session.clock_anchor,
                        header->Ok_0.pts_us,
                        received_at,
                    ),
                    ..session
                };
                let keys = due_keys(anchored.inflight, received_at);
                lemma_late_frames_keep_the_rest(anchored, keys);
                lemma_late_frames_keep_configuration(anchored, keys);
            }
        },
        SessionEvent::Expire(now) => {
            lemma_late_frames_keep_the_rest(session, due_keys(session.inflight, now));
            lemma_late_frames_keep_configuration(session, due_keys(session.inflight, now));
        },
        _ => {},
    }
}

/// Giving up frames does not change what is streamed.
proof fn lemma_late_frames_keep_configuration(session: CoreModel, keys: Seq<u64>)
    ensures
        session.frames_late(keys).configuration == session.configuration,
        session.frames_late(keys).phase == session.phase,
    decreases keys.len(),
{
    if keys.len() > 0 {
        lemma_late_frames_keep_configuration(session, keys.drop_last());
    }
}

/// No datagram of a run lies before a presentation time, or more than two
/// seconds after it.
pub open spec fn stays_near(events: Seq<SessionEvent>, pts_us: u64) -> bool {
    forall|j: int|
        0 <= j < events.len() ==> (#[trigger] events[j] matches SessionEvent::Datagram(
            Ok(header),
            _,
        ) ==> pts_us <= header.pts_us <= pts_us + 2_000_000)
}

/// The anchor stays where it is during a run that stays near it.
proof fn lemma_run_keeps_anchor(start: CoreModel, events: Seq<SessionEvent>, pts_us: u64, time: u64)
    requires
        start.clock_anchor == Some((pts_us, time)),
        keeps_media(start, events),
        stays_near(events, pts_us),
    ensures
        after_each(start, events).clock_anchor == Some((pts_us, time)),
        after_each(start, events).configuration == start.configuration,
    decreases events.len(),
{
    if events.len() > 0 {
        let before = events.drop_last();
        lemma_shorter_run_keeps_media(start, events);
        assert forall|j: int| 0 <= j < before.len() implies (
        #[trigger] before[j] matches SessionEvent::Datagram(Ok(header), _) ==> pts_us
            <= header.pts_us <= pts_us + 2_000_000) by {
            assert(before[j] == events[j]);
        }
        lemma_run_keeps_anchor(start, before, pts_us, time);
        assert(events[events.len() - 1] == events.last());
        lemma_event_keeps_anchor(after_each(start, before), events.last());
    }
}

/// Frames are shown as far apart as their presentation times are, whenever they
/// arrive and whatever else happens in between: the first frame that the clock
/// anchor does not place fixes the clock, and it stays fixed until the media is
/// forgotten or a frame comes that lies before it or more than two seconds ahead
/// of it.
pub proof fn law_frames_keep_their_distance(
    session: CoreModel,
    first: MediaChunkHeader,
    first_at: u64,
    events: Seq<SessionEvent>,
    header: MediaChunkHeader,
    received_at: u64,
)
    requires
        streams(session, first),
        out_of_reach(session, first.pts_us),
        ticket_of(session, first, first_at) is Some,
        keeps_media(session.pushed(Ok(first), first_at).0, events),
        stays_near(events, first.pts_us),
        ({
            let later = after_each(session.pushed(Ok(first), first_at).0, events);
            &&& later.phase == SessionPhase::Streaming
            &&& later.configuration->Some_0.generation == header.generation
            &&& ticket_of(later, header, received_at) is Some
        }),
        first.pts_us <= header.pts_us <= first.pts_us + 2_000_000,
        first_at + 3_000_000_000 <= u64::MAX,
    ensures
        ({
            let later = after_each(session.pushed(Ok(first), first_at).0, events);
            let one = ticket_of(session, first, first_at)->Some_0.deadline;
            let other = ticket_of(later, header, received_at)->Some_0.deadline;
            other - one == (header.pts_us - first.pts_us) * 1_000
        }),
{
    let anchored = CoreModel {
        clock_anchor: next_anchor(session.clock_anchor, first.pts_us, first_at),
        ..session
    };
    let keys = due_keys(anchored.inflight, first_at);
    lemma_late_frames_keep_the_rest(anchored, keys);
    lemma_late_frames_keep_configuration(anchored, keys);
    let next = session.pushed(Ok(first), first_at).0;
    assert(next.clock_anchor == Some((first.pts_us, first_at)));
    assert(next.configuration == session.configuration);
    lemma_run_keeps_anchor(next, events, first.pts_us, first_at);
    let divisor = if session.configuration->Some_0.fps == 0 {
        1int
    } else {
        session.configuration->Some_0.fps as int
    };
    assert(0 <= 1_000_000int / divisor <= 1_000_000) by (nonlinear_arith)
        requires
            divisor >= 1,
    ;
}

/// A frame keeps the time of its first datagram and the earliest of its
/// deadlines, however many datagrams of it come.
pub proof fn law_frame_keeps_its_first_arrival(
    session: CoreModel,
    key: u64,
    deadline: u64,
    received_at: u64,
    other_deadline: u64,
    later: u64,
)
    requires
        session.inv(),
        !session.inflight.contains_key(key),
        !session.dropped.contains_key(key),
    ensures
        ({
            let once = session.awaited(key, deadline, received_at);
            let twice = once.awaited(key, other_deadline, later);
            &&& once.inflight.contains_key(key)
            &&& once.inflight[key].deadline == deadline
            &&& once.inflight[key].first_received_at == received_at
            &&& twice.inflight.dom() == once.inflight.dom()
            &&& twice.inflight[key].first_received_at == received_at
            &&& twice.inflight[key].deadline <= deadline
            &&& twice.inflight[key].deadline <= other_deadline
            &&& twice.inflight[key].deadline == deadline || twice.inflight[key].deadline
                == other_deadline
            &&& forall|other: u64| #[trigger]
                once.inflight.contains_key(other) && other != key ==> twice.inflight[other]
                    == once.inflight[other]
            &&& twice.diagnostics == once.diagnostics
        }),
{
    let once = session.awaited(key, deadline, received_at);
    let twice = once.awaited(key, other_deadline, later);
    assert(twice.inflight.dom() =~= once.inflight.dom());
}

/// Two frames are awaited at most, and the one that came first makes room for
/// the next: it is counted as incomplete and dropped, not as late, a key frame
/// is wanted, and what still comes of it is ignored until two seconds after its
/// deadline.
pub proof fn law_first_frame_makes_room(
    session: CoreModel,
    first: u64,
    second: u64,
    third: u64,
    deadlines: (u64, u64, u64),
    times: (u64, u64, u64),
)
    requires
        session.inv(),
        session.inflight.dom().len() == 0,
        session.next_insertion_order <= u64::MAX - 3,
        first != second,
        second != third,
        first != third,
        session.dropped.dom().len() == 0,
        session.diagnostics.incomplete_frames < u64::MAX,
        session.diagnostics.dropped_frames < u64::MAX,
        deadlines.0 + 2_000_000_000 <= u64::MAX,
    ensures
        ({
            let two = session.awaited(first, deadlines.0, times.0).awaited(
                second,
                deadlines.1,
                times.1,
            );
            let three = two.awaited(third, deadlines.2, times.2);
            &&& two.inflight.contains_key(first) && two.inflight.contains_key(second)
            &&& two.diagnostics.incomplete_frames == session.diagnostics.incomplete_frames
            &&& !three.inflight.contains_key(first)
            &&& three.inflight.contains_key(second)
            &&& three.inflight.contains_key(third)
            &&& three.dropped.contains_key(first)
            &&& three.dropped[first] == deadlines.0 + 2_000_000_000
            &&& three.request_idr_pending
            &&& three.diagnostics.incomplete_frames == session.diagnostics.incomplete_frames + 1
            &&& three.diagnostics.dropped_frames == session.diagnostics.dropped_frames + 1
            &&& three.diagnostics.late_frames == session.diagnostics.late_frames
            &&& session.diagnostics.idr_requests < u64::MAX ==> three.diagnostics.idr_requests
                == session.diagnostics.idr_requests + if session.request_idr_pending {
                0int
            } else {
                1
            }
            &&& three.diagnostics == (ReceiverDiagnostics {
                incomplete_frames: three.diagnostics.incomplete_frames,
                dropped_frames: three.diagnostics.dropped_frames,
                idr_requests: three.diagnostics.idr_requests,
                jitter_buffer_depth: three.diagnostics.jitter_buffer_depth,
                ..session.diagnostics
            })
            &&& three.diagnostics.jitter_buffer_depth == two.diagnostics.jitter_buffer_depth
        }),
{
    let one = session.awaited(first, deadlines.0, times.0);
    let two = one.awaited(second, deadlines.1, times.1);
    let three = two.awaited(third, deadlines.2, times.2);
    assert(session.inflight.dom() =~= Set::empty());
    assert(session.dropped.dom() =~= Set::empty());
    assert(session.inflight =~= Map::empty());
    assert(session.dropped =~= Map::empty());
    assert(one.inflight =~= Map::empty().insert(first, one.inflight[first]));
    assert(two.inflight.dom() =~= Set::empty().insert(first).insert(second));
    assert(crate::model::is_oldest(two.inflight, first));
    lemma_oldest_is_unique(two.inflight, first);
    let marked = two.dropped.insert(
        first,
        crate::model::later(two.inflight[first].deadline, 2_000_000_000),
    );
    assert(marked.dom() =~= Set::empty().insert(first));
    crate::ordered::lemma_keep_largest(marked, 8);
    assert(three.inflight.dom() =~= Set::empty().insert(second).insert(third));
}

/// What reassembly made of a datagram is noted once and in its own place. A
/// complete plane is noted as the last one of its kind and goes to the
/// synchronizer; one of an old generation is counted as dropped; a frame that
/// reassembly gave up is counted as late where it was still awaited, and not at
/// all where it was not; what is pending, a duplicate or refused is not counted.
pub proof fn law_reassembly_is_noted_in_its_place(session: CoreModel, ticket: MediaTicket)
    requires
        session.inv(),
        session.diagnostics.dropped_frames < u64::MAX,
        session.diagnostics.incomplete_frames < u64::MAX,
        session.diagnostics.late_frames < u64::MAX,
    ensures
        forall|id: u32|
            ({
                let (next, result) = #[trigger] session.reassembled(
                    ticket,
                    Ok(
                        ReassemblyOutcome::Completed {
                            flow: crate::wire::MediaFlow::Color,
                            frame_id: id,
                        },
                    ),
                );
                &&& result == Ok::<ReassemblyAction, ReceiverError>(ReassemblyAction::Synchronize)
                &&& next == (CoreModel {
                    diagnostics: ReceiverDiagnostics {
                        last_complete_color_frame: Some(id),
                        ..session.diagnostics
                    },
                    ..session
                })
            }),
        forall|id: u32|
            ({
                let (next, result) = #[trigger] session.reassembled(
                    ticket,
                    Ok(
                        ReassemblyOutcome::Completed {
                            flow: crate::wire::MediaFlow::Alpha,
                            frame_id: id,
                        },
                    ),
                );
                &&& result == Ok::<ReassemblyAction, ReceiverError>(ReassemblyAction::Synchronize)
                &&& next == (CoreModel {
                    diagnostics: ReceiverDiagnostics {
                        last_complete_alpha_frame: Some(id),
                        ..session.diagnostics
                    },
                    ..session
                })
            }),
        ({
            let (next, result) = session.reassembled(
                ticket,
                Ok(ReassemblyOutcome::DroppedOldGeneration),
            );
            &&& result == Ok::<ReassemblyAction, ReceiverError>(ReassemblyAction::Done)
            &&& next == (CoreModel {
                diagnostics: ReceiverDiagnostics {
                    dropped_frames: (session.diagnostics.dropped_frames + 1) as u64,
                    ..session.diagnostics
                },
                ..session
            })
        }),
        ({
            let (next, result) = session.reassembled(ticket, Ok(ReassemblyOutcome::DroppedExpired));
            let key = frame_key(ticket.generation, ticket.frame_id);
            &&& result == Ok::<ReassemblyAction, ReceiverError>(ReassemblyAction::Done)
            &&& !session.inflight.contains_key(key) ==> next == session
            &&& session.inflight.contains_key(key) ==> {
                &&& next.inflight == session.inflight.remove(key)
                &&& next.diagnostics.late_frames == session.diagnostics.late_frames + 1
                &&& next.diagnostics.incomplete_frames == session.diagnostics.incomplete_frames + 1
                &&& next.diagnostics.dropped_frames == session.diagnostics.dropped_frames + 1
                &&& session.diagnostics.idr_requests < u64::MAX ==> next.diagnostics.idr_requests
                    == session.diagnostics.idr_requests + if session.request_idr_pending {
                    0int
                } else {
                    1
                }
                &&& next.diagnostics == (ReceiverDiagnostics {
                    incomplete_frames: next.diagnostics.incomplete_frames,
                    dropped_frames: next.diagnostics.dropped_frames,
                    late_frames: next.diagnostics.late_frames,
                    idr_requests: next.diagnostics.idr_requests,
                    jitter_buffer_depth: next.diagnostics.jitter_buffer_depth,
                    ..session.diagnostics
                })
                &&& next.request_idr_pending
            }
        }),
        session.reassembled(ticket, Ok(ReassemblyOutcome::Pending)) == (
            session,
            Ok::<ReassemblyAction, ReceiverError>(ReassemblyAction::Done),
        ),
        session.reassembled(ticket, Ok(ReassemblyOutcome::Duplicate)) == (
            session,
            Ok::<ReassemblyAction, ReceiverError>(ReassemblyAction::Done),
        ),
        forall|id: u32, flow: u64|
            ({
                &&& #[trigger] session.reassembled(
                    ticket,
                    Ok(
                        ReassemblyOutcome::Completed {
                            flow: crate::wire::MediaFlow::Unknown(flow),
                            frame_id: id,
                        },
                    ),
                ) == (
                    session,
                    Ok::<ReassemblyAction, ReceiverError>(ReassemblyAction::Synchronize),
                )
            }),
        forall|error: ProtocolError| #[trigger]
            session.reassembled(ticket, Err(error)) == (
                session,
                Err::<ReassemblyAction, ReceiverError>(ReceiverError::Protocol(error)),
            ),
{
    crate::model::lemma_frame_dropped(
        session,
        frame_key(ticket.generation, ticket.frame_id),
        true,
    );
}

/// The latency of a shown frame is the time since its first datagram came, in
/// whole microseconds, whichever datagram completed it.
pub proof fn law_latency_counts_from_the_first_datagram(
    session: CoreModel,
    deadline: u64,
    received_at: u64,
    ticket: MediaTicket,
    pair: SynchronizedPair,
    alpha: AlphaFrame,
    decode_ns: u64,
    published_at: u64,
)
    requires
        session.inv(),
        session.received_at.dom().len() == 0,
        crate::model::alpha_matches(ticket, pair, alpha),
        ({
            let key = frame_key(pair.generation, pair.frame_id);
            !session.inflight.contains_key(key) && !session.dropped.contains_key(key)
        }),
        received_at <= published_at,
        (published_at - received_at) / 1_000 <= u32::MAX,
    ensures
        ({
            let key = frame_key(pair.generation, pair.frame_id);
            let awaited = session.awaited(key, deadline, received_at);
            let ready = awaited.alpha_decoded(ticket, pair, Ok(alpha), decode_ns).0;
            let shown = ready.published(pair.frame_id, published_at);
            &&& shown.diagnostics.playout_latency_us == (published_at - received_at) / 1_000
            &&& shown.diagnostics.receive_to_publish_latency_us == (published_at - received_at)
                / 1_000
            &&& shown.diagnostics.last_published_frame == Some(pair.frame_id)
            &&& shown.received_at.dom().len() == 0
        }),
{
    let key = frame_key(pair.generation, pair.frame_id);
    let awaited = session.awaited(key, deadline, received_at);
    lemma_awaited(session, key, deadline, received_at);
    assert(awaited.inflight[key].first_received_at == received_at);
    assert(awaited.received_at == session.received_at);
    assert(session.received_at.dom() =~= Set::empty());
    let kept = session.received_at.insert(pair.frame_id as u64, received_at);
    assert(kept.dom() =~= Set::empty().insert(pair.frame_id as u64));
    crate::ordered::lemma_keep_largest(kept, 2);
    let ready = awaited.alpha_decoded(ticket, pair, Ok(alpha), decode_ns).0;
    assert(ready.received_at == kept);
    assert(ready.received_at.remove(pair.frame_id as u64).dom() =~= Set::empty());
}


/// A frame that completes although it is no longer awaited is measured from the
/// datagram that completed it.
pub proof fn law_latency_of_an_unawaited_frame(
    session: CoreModel,
    ticket: MediaTicket,
    pair: SynchronizedPair,
    alpha: AlphaFrame,
    decode_ns: u64,
    published_at: u64,
)
    requires
        session.inv(),
        session.received_at.dom().len() == 0,
        crate::model::alpha_matches(ticket, pair, alpha),
        !session.inflight.contains_key(frame_key(pair.generation, pair.frame_id)),
        ticket.received_at <= published_at,
        (published_at - ticket.received_at) / 1_000 <= u32::MAX,
    ensures
        ({
            let ready = session.alpha_decoded(ticket, pair, Ok(alpha), decode_ns).0;
            let shown = ready.published(pair.frame_id, published_at);
            shown.diagnostics.playout_latency_us == (published_at - ticket.received_at) / 1_000
        }),
{
    assert(session.received_at.dom() =~= Set::empty());
    let kept = session.received_at.insert(pair.frame_id as u64, ticket.received_at);
    assert(kept.dom() =~= Set::empty().insert(pair.frame_id as u64));
    crate::ordered::lemma_keep_largest(kept, 2);
}

/// The arrival times of two complete frames are kept at once: the latency of
/// each can still be told when it is shown, whichever is shown first, and a frame
/// that is not known leaves the latency as it was.
pub proof fn law_two_arrivals_are_kept(
    session: CoreModel,
    one: (MediaTicket, SynchronizedPair, AlphaFrame),
    other: (MediaTicket, SynchronizedPair, AlphaFrame),
    published_at: u64,
    unknown: u32,
)
    requires
        session.inv(),
        session.inflight.dom().len() == 0,
        session.received_at.dom().len() == 0,
        one.1.frame_id != other.1.frame_id,
        one.0.received_at <= published_at,
        other.0.received_at <= published_at,
        (published_at - one.0.received_at) / 1_000 <= u32::MAX,
        (published_at - other.0.received_at) / 1_000 <= u32::MAX,
        unknown != one.1.frame_id,
        unknown != other.1.frame_id,
    ensures
        ({
            let both = session.completed(one.0, one.1, one.2).completed(other.0, other.1, other.2);
            &&& both.published(one.1.frame_id, published_at).diagnostics.playout_latency_us == (
            published_at - one.0.received_at) / 1_000
            &&& both.published(other.1.frame_id, published_at).diagnostics.playout_latency_us == (
            published_at - other.0.received_at) / 1_000
            &&& both.published(unknown, published_at).diagnostics.playout_latency_us
                == session.diagnostics.playout_latency_us
            &&& both.published(unknown, published_at).diagnostics.last_published_frame == Some(
                unknown,
            )
        }),
{
    assert(session.inflight.dom() =~= Set::empty());
    assert(session.received_at.dom() =~= Set::empty());
    let first = one.1.frame_id as u64;
    let second = other.1.frame_id as u64;
    let kept = session.received_at.insert(first, one.0.received_at);
    assert(kept.dom() =~= Set::empty().insert(first));
    crate::ordered::lemma_keep_largest(kept, 2);
    let once = session.completed(one.0, one.1, one.2);
    assert(once.received_at == kept);
    assert(!once.inflight.contains_key(frame_key(other.1.generation, other.1.frame_id)));
    let grown = kept.insert(second, other.0.received_at);
    assert(grown.dom() =~= Set::empty().insert(first).insert(second));
    crate::ordered::lemma_keep_largest(grown, 2);
    let both = once.completed(other.0, other.1, other.2);
    assert(both.received_at == grown);
    assert(both.diagnostics.playout_latency_us == session.diagnostics.playout_latency_us);
}

/// Giving up other frames does not renew the mark of a frame that is not awaited.
proof fn lemma_mark_is_not_renewed(session: CoreModel, keys: Seq<u64>, key: u64)
    requires
        session.inv(),
        !session.inflight.contains_key(key),
    ensures
        session.frames_late(keys).dropped.contains_key(key) ==> session.dropped.contains_key(key)
            && session.frames_late(keys).dropped[key] == session.dropped[key],
    decreases keys.len(),
{
    if keys.len() > 0 {
        let before = keys.drop_last();
        lemma_mark_is_not_renewed(session, before, key);
        crate::model::lemma_frames_late(session, before);
        let middle = session.frames_late(before);
        let last = keys.last();
        if middle.inflight.contains_key(last) {
            assert(session.inflight.contains_key(last));
            let marked = middle.dropped.insert(
                last,
                crate::model::later(middle.inflight[last].deadline, 2_000_000_000),
            );
            crate::ordered::lemma_keep_largest(marked, 8);
        }
    }
}

/// A frame that was given up may return once its mark has run out: what comes of
/// it from then on is awaited again, as of a new frame.
pub proof fn law_given_up_frame_may_return(
    session: CoreModel,
    header: MediaChunkHeader,
    received_at: u64,
)
    requires
        streams(session, header),
        ({
            let key = frame_key(header.generation, header.frame_id);
            &&& !session.inflight.contains_key(key)
            &&& session.dropped.contains_key(key) ==> session.dropped[key] <= received_at
        }),
    ensures
        ({
            let next = session.pushed(Ok(header), received_at).0;
            let key = frame_key(header.generation, header.frame_id);
            &&& ticket_of(session, header, received_at) matches Some(ticket)
            &&& next.inflight.contains_key(key)
            &&& next.inflight[key].first_received_at == received_at
            &&& next.inflight[key].deadline == ticket.deadline
        }),
{
    let anchored = CoreModel {
        clock_anchor: next_anchor(session.clock_anchor, header.pts_us, received_at),
        ..session
    };
    let key = frame_key(header.generation, header.frame_id);
    lemma_mark_is_not_renewed(anchored, due_keys(anchored.inflight, received_at), key);
    lemma_expired(anchored, received_at);
    let current = anchored.expired(received_at);
    assert(!current.dropped.contains_key(key));
    assert(!current.inflight.contains_key(key));
}

/// Reassembly holds what the session awaits: a colour and an alpha flow for each
/// of the two frames, and as many frames without their other plane.
pub proof fn law_reassembly_holds_what_is_awaited()
    ensures
        crate::receiver::MAX_INCOMPLETE_FRAMES == 2,
        crate::receiver::MAX_REASSEMBLED_FLOWS == 2 * crate::receiver::MAX_INCOMPLETE_FRAMES,
        crate::receiver::MAX_UNPAIRED_FRAMES == crate::receiver::MAX_INCOMPLETE_FRAMES,
{
}


/// The arrival of a datagram gives up what is overdue by then, before its own
/// frame is awaited: no other frame whose deadline has passed stays awaited, and
/// one whose deadline is still to come makes room only where two are awaited.
pub proof fn law_arrival_gives_up_what_is_overdue(
    session: CoreModel,
    header: MediaChunkHeader,
    received_at: u64,
    key: u64,
)
    requires
        streams(session, header),
        key != frame_key(header.generation, header.frame_id),
        session.inflight.contains_key(key),
    ensures
        ({
            let next = session.pushed(Ok(header), received_at).0;
            &&& session.inflight[key].deadline <= received_at ==> !next.inflight.contains_key(key)
            &&& next.inflight.contains_key(key) ==> next.inflight[key] == session.inflight[key]
            &&& session.inflight[key].deadline > received_at && session.inflight.dom().len() < 2
                ==> next.inflight.contains_key(key)
        }),
{
    let anchored = CoreModel {
        clock_anchor: next_anchor(session.clock_anchor, header.pts_us, received_at),
        ..session
    };
    let current = anchored.expired(received_at);
    lemma_expired(anchored, received_at);
    vstd::set_lib::lemma_len_subset(current.inflight.dom(), session.inflight.dom());
    if current.inflight.dom().len() > 0 {
        crate::model::lemma_oldest_exists(current.inflight);
    }
}

} // verus!
