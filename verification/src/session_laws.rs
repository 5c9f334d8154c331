//! What holds of receiver sessions as a whole.
use crate::adaptive::AdaptiveController;
use crate::model::{
    alpha_matches, anchored, due_keys, frame_delay, frame_key, later, lemma_awaited,
    lemma_completed, lemma_due_keys, lemma_expired, lemma_frame_dropped, lemma_frames_late,
    next_anchor, playout_time, within_limits, CoreModel,
};
use crate::receiver::{
    MediaAction, MediaTicket, ReceiverDiagnostics, SessionPhase, MAX_DROPPED_FRAME_TOMBSTONES,
    MAX_INCOMPLETE_FRAMES, MAX_PLAYOUT_HORIZON_NS,
};
use crate::wire::{
    AlphaFrame, ControlMessage, ControlPayload, MediaCapabilities, MediaChunkHeader,
    MediaConfiguration, ProtocolError, ReassemblyOutcome, SynchronizedPair, PROTOCOL_VERSION_V1,
};
use vstd::prelude::*;

verus! {

/// Something that happens to a session: one call of each method that may change
/// it.
pub ghost enum SessionEvent {
    Control(ControlMessage, Result<(), ProtocolError>),
    Datagram(Result<MediaChunkHeader, ProtocolError>, u64),
    Reassembly(MediaTicket, Result<ReassemblyOutcome, ProtocolError>),
    Alpha(MediaTicket, SynchronizedPair, Result<AlphaFrame, ProtocolError>, u64),
    Expire(u64),
    Take(u64),
    DecodeFailure,
    Published(u32, u64),
    SpoutSkipped,
    /// The times of decoding, compositing and publishing one frame.
    Pipeline(u32, u32, u32),
    Network(u64, u64, Option<u64>),
    IdrRequest,
    Report(u64),
    Reconnect,
}

/// The session after one event. A refused control message changes nothing.
#[verifier::opaque]
pub open spec fn after(session: CoreModel, event: SessionEvent) -> CoreModel {
    match event {
        SessionEvent::Control(message, validation) => if session.control_refusal(
            message,
            validation,
        ) is None {
            session.controlled(message)
        } else {
            session
        },
        SessionEvent::Datagram(header, received_at) => session.pushed(header, received_at).0,
        SessionEvent::Reassembly(ticket, outcome) => session.reassembled(ticket, outcome).0,
        SessionEvent::Alpha(ticket, pair, alpha, decode_ns) => session.alpha_decoded(
            ticket,
            pair,
            alpha,
            decode_ns,
        ).0,
        SessionEvent::Expire(now) => session.expired(now),
        SessionEvent::Take(now) => session.frame_taken(now).0,
        SessionEvent::DecodeFailure => session.decode_failed(),
        SessionEvent::Published(frame_id, published_at) => session.published(
            frame_id,
            published_at,
        ),
        SessionEvent::SpoutSkipped => session.spout_skipped(),
        SessionEvent::Pipeline(decode_us, composite_us, publish_us) => session.pipeline_observed(
            decode_us,
            composite_us,
            publish_us,
        ),
        SessionEvent::Network(rtt_us, jitter_us, estimate) => session.network_observed(
            rtt_us,
            jitter_us,
            estimate,
        ),
        SessionEvent::IdrRequest => session.idr_taken(),
        SessionEvent::Report(now) => session.reported(now),
        SessionEvent::Reconnect => session.reconnected(),
    }
}

/// The session after some events, from its start.
pub open spec fn after_all(events: Seq<SessionEvent>) -> CoreModel
    decreases events.len(),
{
    if events.len() == 0 {
        CoreModel::initial()
    } else {
        after(after_all(events.drop_last()), events.last())
    }
}

/// No event breaks what holds of every session.
pub proof fn lemma_event_keeps_invariant(session: CoreModel, event: SessionEvent)
    requires
        session.inv(),
    ensures
        after(session, event).inv(),
{
    reveal(after);
    match event {
        SessionEvent::Datagram(header, received_at) => {
            if session.phase == SessionPhase::Streaming && header is Ok {
                let header = header->Ok_0;
                let anchored = CoreModel {
                    clock_anchor: next_anchor(session.clock_anchor, header.pts_us, received_at),
                    ..session
                };
                lemma_expired(anchored, received_at);
                let current = anchored.expired(received_at);
                let key = frame_key(header.generation, header.frame_id);
                let deadline = playout_time(
                    session.clock_anchor,
                    header.pts_us,
                    received_at,
                    session.configuration->Some_0.fps,
                );
                if !current.dropped.contains_key(key) {
                    lemma_awaited(current, key, deadline, received_at);
                }
            }
        },
        SessionEvent::Reassembly(ticket, outcome) => {
            lemma_frame_dropped(session, frame_key(ticket.generation, ticket.frame_id), true);
        },
        SessionEvent::Alpha(ticket, pair, alpha, decode_ns) => {
            if alpha is Ok {
                let timed = CoreModel {
                    diagnostics: ReceiverDiagnostics {
                        alpha_decode_cpu_us: crate::model::clamped_u32(decode_ns as int / 1_000),
                        ..session.diagnostics
                    },
                    ..session
                };
                lemma_completed(timed, ticket, pair, alpha->Ok_0);
            }
        },
        SessionEvent::Expire(now) => {
            lemma_expired(session, now);
        },
        SessionEvent::Published(frame_id, published_at) => {
            vstd::set_lib::lemma_len_subset(
                session.received_at.remove(frame_id as u64).dom(),
                session.received_at.dom(),
            );
        },
        _ => {},
    }
}

/// Whatever happens to a session, its state stays bounded and consistent: at
/// most two frames are awaited, eight given-up frames are remembered, and two
/// arrival times are kept; the reported buffer depth is the true one and never
/// more than three; no frame is both awaited and given up; and media flows only
/// under a configuration of at most 1920 by 1080 at 60 frames a second.
pub proof fn law_every_session_is_bounded(events: Seq<SessionEvent>)
    ensures
        ({
            let session = after_all(events);
            &&& session.inv()
            &&& session.inflight.dom().len() <= 2
            &&& session.dropped.dom().len() <= 8
            &&& session.received_at.dom().len() <= 2
            &&& session.diagnostics.jitter_buffer_depth == session.inflight.dom().len()
                + if session.latest_ready is Some {
                1int
            } else {
                0
            }
            &&& session.diagnostics.jitter_buffer_depth <= 3
            &&& session.phase == SessionPhase::Streaming ==> session.configuration is Some
            &&& session.configuration matches Some(configuration) ==> configuration.width <= 1_920
                && configuration.height <= 1_080 && configuration.fps <= 60
            &&& session.inflight.dom().disjoint(session.dropped.dom())
        }),
    decreases events.len(),
{
    if events.len() > 0 {
        law_every_session_is_bounded(events.drop_last());
        lemma_event_keeps_invariant(after_all(events.drop_last()), events.last());
    }
    assert forall|key: u64| #[trigger]
        after_all(events).inflight.dom().contains(key) implies !after_all(
        events,
    ).dropped.dom().contains(key) by {
        assert(after_all(events).inflight.contains_key(key));
    }
}

/// A sender that greets with a common version, offers what the receiver can
/// handle and configures a stream within the limits of both sides is accepted
/// at each step, and the session streams that configuration.
pub proof fn law_negotiation_reaches_streaming(
    session: CoreModel,
    hello: ControlMessage,
    capabilities: MediaCapabilities,
    configuration: MediaConfiguration,
)
    requires
        session.inv(),
        hello.version == PROTOCOL_VERSION_V1,
        hello.payload matches ControlPayload::Hello { supported_versions, .. }
            && supported_versions@.contains(PROTOCOL_VERSION_V1),
        capabilities.speaks_v1(),
        within_limits(configuration, capabilities),
    ensures
        ({
            let offer = ControlMessage {
                version: PROTOCOL_VERSION_V1,
                payload: ControlPayload::Capabilities(capabilities),
            };
            let configure = ControlMessage {
                version: PROTOCOL_VERSION_V1,
                payload: ControlPayload::Configure(configuration),
            };
            let start = ControlMessage {
                version: PROTOCOL_VERSION_V1,
                payload: ControlPayload::Start,
            };
            let greeted = session.controlled(hello);
            let offered = greeted.controlled(offer);
            let configured = offered.controlled(configure);
            let streaming = configured.controlled(start);
            &&& session.control_refusal(hello, Ok(())) is None
            &&& greeted.control_refusal(offer, Ok(())) is None
            &&& offered.control_refusal(configure, Ok(())) is None
            &&& configured.control_refusal(start, Ok(())) is None
            &&& streaming.phase == SessionPhase::Streaming
            &&& streaming.configuration == Some(configuration)
            &&& streaming.adaptive == AdaptiveController::configured(
                configuration,
                session.diagnostics.incomplete_frames,
            )
        }),
{
}

/// A complete pair whose alpha plane belongs to it is shown, unchanged and in the
/// size that its ticket names, from its playout time on and not before.
pub proof fn law_complete_pair_is_shown_from_its_time_on(
    session: CoreModel,
    ticket: MediaTicket,
    pair: SynchronizedPair,
    alpha: AlphaFrame,
    decode_ns: u64,
    now: u64,
)
    requires
        session.inv(),
        alpha_matches(ticket, pair, alpha),
    ensures
        ({
            let (next, result) = session.alpha_decoded(ticket, pair, Ok(alpha), decode_ns);
            let (shown, frame) = next.frame_taken(now);
            &&& result is Ok
            &&& now < ticket.deadline ==> frame is None && shown == next
            &&& ticket.deadline <= now ==> {
                &&& frame matches Some(frame)
                &&& frame.generation == pair.generation
                &&& frame.frame_id == pair.frame_id
                &&& frame.pts_us == pair.pts_us
                &&& frame.h264@ == pair.color@
                &&& frame.width == ticket.width
                &&& frame.height == ticket.height
                &&& frame.playout_at == ticket.deadline
                &&& frame.alpha@ == alpha.alpha@
                &&& shown.frame_taken(now).1 is None
            }
        }),
{
}

/// Only the latest complete pair is shown: a pair that nobody took is replaced
/// by the next one, and counted as such, among the dropped frames too. Every
/// pair is counted as complete.
pub proof fn law_latest_complete_pair_wins(
    session: CoreModel,
    earlier: (MediaTicket, SynchronizedPair, AlphaFrame),
    latest: (MediaTicket, SynchronizedPair, AlphaFrame),
)
    requires
        session.inv(),
        session.latest_ready is None,
        session.diagnostics.replaced_ready_frames < u64::MAX,
    ensures
        ({
            let once = session.completed(earlier.0, earlier.1, earlier.2);
            let twice = once.completed(latest.0, latest.1, latest.2);
            &&& twice.frame_taken(u64::MAX).1 matches Some(frame)
            &&& frame.frame_id == latest.1.frame_id
            &&& once.diagnostics.replaced_ready_frames == session.diagnostics.replaced_ready_frames
            &&& twice.diagnostics.replaced_ready_frames == session.diagnostics.replaced_ready_frames
                + 1
            &&& once.diagnostics.dropped_frames == session.diagnostics.dropped_frames
            &&& session.diagnostics.dropped_frames < u64::MAX ==> twice.diagnostics.dropped_frames
                == session.diagnostics.dropped_frames + 1
            &&& once.diagnostics.latest_frame_drops == session.diagnostics.latest_frame_drops
            &&& session.diagnostics.latest_frame_drops < u64::MAX
                ==> twice.diagnostics.latest_frame_drops == session.diagnostics.latest_frame_drops
                + 1
            &&& session.diagnostics.completed_frames < u64::MAX - 1 ==> {
                &&& once.diagnostics.completed_frames == session.diagnostics.completed_frames + 1
                &&& twice.diagnostics.completed_frames == session.diagnostics.completed_frames + 2
            }
            &&& twice.diagnostics.late_frames == session.diagnostics.late_frames
            &&& twice.diagnostics.decode_failures == session.diagnostics.decode_failures
            &&& twice.request_idr_pending == session.request_idr_pending
        }),
{
}

/// A request for a key frame is handed out once, names the current generation,
/// and stands for every need that arose since the last one.
pub proof fn law_one_key_frame_request_is_outstanding(session: CoreModel)
    requires
        session.configuration is Some,
    ensures
        ({
            let failed = session.decode_failed();
            let again = failed.decode_failed();
            &&& failed.idr_request() == Some(
                ControlMessage {
                    version: PROTOCOL_VERSION_V1,
                    payload: ControlPayload::RequestIdr {
                        generation: session.configuration->Some_0.generation,
                    },
                },
            )
            &&& again.idr_request() == failed.idr_request()
            &&& again.diagnostics.idr_requests == failed.diagnostics.idr_requests
            &&& session.diagnostics.idr_requests < u64::MAX ==> failed.diagnostics.idr_requests
                == session.diagnostics.idr_requests + if session.request_idr_pending {
                0int
            } else {
                1
            }
            &&& again.idr_taken().idr_request() is None
            &&& again.idr_taken() == (CoreModel { request_idr_pending: false, ..again })
        }),
{
}

/// What giving up frames does to the counters.
pub proof fn lemma_frames_late_counted(session: CoreModel, keys: Seq<u64>)
    requires
        session.inv(),
        keys.no_duplicates(),
        forall|i: int| 0 <= i < keys.len() ==> session.inflight.contains_key(#[trigger] keys[i]),
        session.diagnostics.incomplete_frames + keys.len() <= u64::MAX,
    ensures
        ({
            let late = session.frames_late(keys);
            &&& late.diagnostics.incomplete_frames == session.diagnostics.incomplete_frames
                + keys.len()
            &&& session.diagnostics.dropped_frames + keys.len() <= u64::MAX
                ==> late.diagnostics.dropped_frames == session.diagnostics.dropped_frames
                + keys.len()
            &&& session.diagnostics.late_frames + keys.len() <= u64::MAX
                ==> late.diagnostics.late_frames == session.diagnostics.late_frames + keys.len()
            &&& late.request_idr_pending == (session.request_idr_pending || keys.len() > 0)
            &&& session.diagnostics.idr_requests < u64::MAX ==> late.diagnostics.idr_requests
                == session.diagnostics.idr_requests + if keys.len() > 0
                && !session.request_idr_pending {
                1int
            } else {
                0
            }
            &&& late.diagnostics == (ReceiverDiagnostics {
                incomplete_frames: late.diagnostics.incomplete_frames,
                dropped_frames: late.diagnostics.dropped_frames,
                late_frames: late.diagnostics.late_frames,
                idr_requests: late.diagnostics.idr_requests,
                jitter_buffer_depth: late.diagnostics.jitter_buffer_depth,
                ..session.diagnostics
            })
        }),
    decreases keys.len(),
{
    if keys.len() > 0 {
        let before = keys.drop_last();
        assert forall|i: int| 0 <= i < before.len() implies session.inflight.contains_key(
            #[trigger] before[i],
        ) by {
            assert(before[i] == keys[i]);
        }
        lemma_frames_late_counted(session, before);
        lemma_frames_late(session, before);
        assert(session.inflight.contains_key(keys[keys.len() - 1]));
        assert(!before.to_set().contains(keys.last())) by {
            if before.contains(keys.last()) {
                let i = before.index_of(keys.last());
                assert(keys[i] == keys[keys.len() - 1]);
            }
        }
    }
}

/// The awaited frames whose deadline has passed.
pub open spec fn overdue(session: CoreModel, now: u64) -> Set<u64> {
    session.inflight.dom().filter(|key: u64| session.inflight[key].deadline <= now)
}

/// Expiry gives up each overdue frame once.
pub proof fn lemma_expiry_counts(session: CoreModel, now: u64)
    requires
        session.inv(),
        session.diagnostics.incomplete_frames <= u64::MAX - MAX_INCOMPLETE_FRAMES,
    ensures
        ({
            let next = session.expired(now);
            let count = overdue(session, now).len();
            &&& overdue(session, now).finite()
            &&& count == due_keys(session.inflight, now).len()
            &&& count <= MAX_INCOMPLETE_FRAMES
            &&& next.diagnostics.incomplete_frames == session.diagnostics.incomplete_frames + count
            &&& session.diagnostics.dropped_frames + count <= u64::MAX
                ==> next.diagnostics.dropped_frames == session.diagnostics.dropped_frames + count
            &&& session.diagnostics.late_frames + count <= u64::MAX ==> next.diagnostics.late_frames
                == session.diagnostics.late_frames + count
            &&& next.request_idr_pending == (session.request_idr_pending || count > 0)
            &&& session.diagnostics.idr_requests < u64::MAX ==> next.diagnostics.idr_requests
                == session.diagnostics.idr_requests + if count > 0 && !session.request_idr_pending {
                1int
            } else {
                0
            }
            &&& next.diagnostics == (ReceiverDiagnostics {
                incomplete_frames: next.diagnostics.incomplete_frames,
                dropped_frames: next.diagnostics.dropped_frames,
                late_frames: next.diagnostics.late_frames,
                idr_requests: next.diagnostics.idr_requests,
                jitter_buffer_depth: next.diagnostics.jitter_buffer_depth,
                ..session.diagnostics
            })
            &&& forall|key: u64|
                overdue(session, now).contains(key) <==> #[trigger] session.inflight.contains_key(
                    key,
                ) && session.inflight[key].deadline <= now
        }),
{
    let keys = due_keys(session.inflight, now);
    lemma_due_keys(session.inflight, now);
    crate::ordered::lemma_sorted_keys(session.inflight);
    let sorted = crate::ordered::sorted_keys(session.inflight);
    crate::ordered::lemma_increasing_len(sorted);
    let due = |key: u64| session.inflight[key].deadline <= now;
    lemma_filter_keeps_distinct(sorted, due);
    assert(keys == sorted.filter(due));
    assert forall|i: int| 0 <= i < keys.len() implies session.inflight.contains_key(
        #[trigger] keys[i],
    ) by {
        assert(keys.contains(keys[i]));
    }
    assert(keys.len() <= MAX_INCOMPLETE_FRAMES) by {
        sorted.lemma_filter_len(due);
    }
    keys.unique_seq_to_set();
    assert(keys.to_set() =~= overdue(session, now)) by {
        assert forall|key: u64| keys.to_set().contains(key) <==> overdue(session, now).contains(
            key,
        ) by {
            assert(keys.to_set().contains(key) <==> keys.contains(key));
        }
    }
    lemma_frames_late_counted(session, keys);
}

/// Awaited frames that are due are given up, whichever plane was missing: each
/// is counted as incomplete, as dropped and as late, none stays awaited, and one
/// key frame of the current generation is requested for all of them. A frame that
/// is not due stays awaited as it is, and nothing else is counted.
pub proof fn law_overdue_frames_are_given_up(session: CoreModel, now: u64, key: u64)
    requires
        session.inv(),
        session.configuration is Some,
        session.inflight.contains_key(key),
        session.inflight[key].deadline <= now,
        session.diagnostics.incomplete_frames <= u64::MAX - MAX_INCOMPLETE_FRAMES,
    ensures
        ({
            let next = session.expired(now);
            let count = session.inflight.dom().filter(
                |key: u64| session.inflight[key].deadline <= now,
            ).len();
            &&& !next.inflight.contains_key(key)
            &&& forall|other: u64| #[trigger]
                next.inflight.contains_key(other) ==> next.inflight[other].deadline > now
            &&& forall|other: u64| #[trigger]
                session.inflight.contains_key(other) && session.inflight[other].deadline > now
                    ==> next.inflight.contains_key(other) && next.inflight[other]
                    == session.inflight[other]
            &&& count == due_keys(session.inflight, now).len()
            &&& next.diagnostics.incomplete_frames == session.diagnostics.incomplete_frames + count
            &&& next.diagnostics.incomplete_frames > session.diagnostics.incomplete_frames
            &&& session.diagnostics.dropped_frames + count <= u64::MAX
                ==> next.diagnostics.dropped_frames == session.diagnostics.dropped_frames + count
            &&& session.diagnostics.late_frames + count <= u64::MAX ==> next.diagnostics.late_frames
                == session.diagnostics.late_frames + count
            &&& session.diagnostics.idr_requests < u64::MAX ==> next.diagnostics.idr_requests
                == session.diagnostics.idr_requests + if session.request_idr_pending {
                0int
            } else {
                1
            }
            &&& next.diagnostics == (ReceiverDiagnostics {
                incomplete_frames: next.diagnostics.incomplete_frames,
                dropped_frames: next.diagnostics.dropped_frames,
                late_frames: next.diagnostics.late_frames,
                idr_requests: next.diagnostics.idr_requests,
                jitter_buffer_depth: next.diagnostics.jitter_buffer_depth,
                ..session.diagnostics
            })
            &&& next.latest_ready == session.latest_ready
            &&& next.idr_request() == Some(
                ControlMessage {
                    version: PROTOCOL_VERSION_V1,
                    payload: ControlPayload::RequestIdr {
                        generation: session.configuration->Some_0.generation,
                    },
                },
            )
        }),
{
    lemma_expired(session, now);
    lemma_expiry_counts(session, now);
    assert(overdue(session, now).contains(key));
    if overdue(session, now).len() == 0 {
        assert(overdue(session, now) =~= Set::empty());
    }
}

/// Filtering distinct values leaves them distinct, and no more of them.
pub proof fn lemma_filter_keeps_distinct(values: Seq<u64>, keep: spec_fn(u64) -> bool)
    requires
        values.no_duplicates(),
    ensures
        values.filter(keep).no_duplicates(),
        values.filter(keep).len() <= values.len(),
    decreases values.len(),
{
    reveal(Seq::filter);
    if values.len() > 0 {
        let rest = values.drop_last();
        lemma_filter_keeps_distinct(rest, keep);
        if keep(values.last()) && rest.filter(keep).contains(values.last()) {
            rest.lemma_filter_contains_rev(keep, values.last());
            let i = rest.index_of(values.last());
            assert(values[i] == values[values.len() - 1]);
        }
    }
}

/// The given-up frames, and those that fall due, whose key is larger.
pub open spec fn later_casualties(session: CoreModel, now: u64, key: u64) -> Set<u64> {
    session.dropped.dom().union(due_keys(session.inflight, now).to_set()).filter(
        |other: u64| other > key,
    )
}

/// A key stays in a bounded map while fewer than `limit` keys are larger.
proof fn lemma_key_is_kept(map: Map<u64, u64>, limit: nat, key: u64, larger: Set<u64>)
    requires
        map.dom().finite(),
        map.contains_key(key),
        larger.finite(),
        larger.len() < limit,
        forall|other: u64| #[trigger] map.contains_key(other) && other > key ==> larger.contains(other),
    ensures
        crate::ordered::keep_largest(map, limit).contains_key(key),
        crate::ordered::keep_largest(map, limit)[key] == map[key],
{
    crate::ordered::lemma_keep_largest(map, limit);
    let kept = crate::ordered::keep_largest(map, limit);
    if !kept.contains_key(key) {
        assert(kept.dom().len() == limit);
        assert forall|other: u64| kept.dom().contains(other) implies larger.contains(other) by {
            assert(kept.contains_key(other));
            assert(map.contains_key(other));
        }
        vstd::set_lib::lemma_len_subset(kept.dom(), larger);
    }
}

/// A tombstone outlives the giving up of other frames while fewer than eight
/// larger ones crowd it out.
proof fn lemma_tombstone_survives(session: CoreModel, keys: Seq<u64>, key: u64, larger: Set<u64>)
    requires
        session.inv(),
        session.dropped.contains_key(key),
        larger.finite(),
        larger.len() < MAX_DROPPED_FRAME_TOMBSTONES,
        forall|other: u64| #[trigger]
            session.dropped.contains_key(other) && other > key ==> larger.contains(other),
        forall|other: u64| #[trigger] keys.contains(other) && other > key ==> larger.contains(other),
    ensures
        session.frames_late(keys).dropped.contains_key(key),
        session.frames_late(keys).dropped[key] == session.dropped[key],
    decreases keys.len(),
{
    if keys.len() > 0 {
        let before = keys.drop_last();
        let last = keys.last();
        assert forall|other: u64| #[trigger] before.contains(other) && other > key implies
            larger.contains(other) by {
            assert(keys[before.index_of(other)] == other);
            assert(keys.contains(other));
        }
        assert(keys.contains(keys[keys.len() - 1]));
        lemma_tombstone_survives(session, before, key, larger);
        lemma_frames_late(session, before);
        let middle = session.frames_late(before);
        if middle.inflight.contains_key(last) {
            assert(session.inflight.contains_key(last));
            let marked = middle.dropped.insert(
                last,
                later(middle.inflight[last].deadline, MAX_PLAYOUT_HORIZON_NS as int),
            );
            assert(last != key);
            assert forall|other: u64| #[trigger] marked.contains_key(other) && other > key implies
                larger.contains(other) by {
                if other != last {
                    assert(middle.dropped.contains_key(other));
                    if !before.contains(other) {
                        assert(session.dropped.contains_key(other));
                    }
                }
            }
            lemma_key_is_kept(marked, MAX_DROPPED_FRAME_TOMBSTONES as nat, key, larger);
        }
    }
}

/// What still comes of a given-up frame is ignored until its tombstone runs
/// out, unless eight given-up frames with larger keys have pushed it out.
pub proof fn law_given_up_frame_is_ignored(
    session: CoreModel,
    header: MediaChunkHeader,
    received_at: u64,
)
    requires
        session.inv(),
        session.phase == SessionPhase::Streaming,
        session.configuration->Some_0.generation == header.generation,
        ({
            let key = frame_key(header.generation, header.frame_id);
            &&& session.dropped.contains_key(key)
            &&& session.dropped[key] > received_at
            &&& later_casualties(session, received_at, key).len() < MAX_DROPPED_FRAME_TOMBSTONES
        }),
    ensures
        ({
            let key = frame_key(header.generation, header.frame_id);
            let (next, result) = session.pushed(Ok(header), received_at);
            &&& result == Ok::<MediaAction, crate::receiver::ReceiverError>(MediaAction::ExpireOnly)
            &&& !next.inflight.contains_key(key)
            &&& next.dropped.contains_key(key)
        }),
{
    let key = frame_key(header.generation, header.frame_id);
    let anchored = CoreModel {
        clock_anchor: next_anchor(session.clock_anchor, header.pts_us, received_at),
        ..session
    };
    let keys = due_keys(session.inflight, received_at);
    let larger = later_casualties(session, received_at, key);
    assert(keys.to_set().finite()) by {
        vstd::seq_lib::seq_to_set_is_finite(keys);
    }
    assert forall|other: u64| #[trigger]
        anchored.dropped.contains_key(other) && other > key implies larger.contains(other) by {}
    assert forall|other: u64| #[trigger] keys.contains(other) && other > key implies larger.contains(
        other,
    ) by {
        assert(keys.to_set().contains(other));
    }
    lemma_tombstone_survives(anchored, keys, key, larger);
    lemma_expired(anchored, received_at);
    let current = anchored.expired(received_at);
    assert(current.dropped.contains_key(key));
}

/// A datagram of another generation is counted as dropped and changes nothing
/// else: no frame is awaited for it.
pub proof fn law_other_generations_are_only_counted(
    session: CoreModel,
    header: MediaChunkHeader,
    received_at: u64,
)
    requires
        session.inv(),
        session.phase == SessionPhase::Streaming,
        session.configuration->Some_0.generation != header.generation,
    ensures
        session.pushed(Ok(header), received_at) == (
            session.drop_counted(),
            Ok::<MediaAction, crate::receiver::ReceiverError>(MediaAction::Discard),
        ),
{
}

/// Frames that are dropped on purpose are no sign of loss: a datagram of
/// another generation, a replaced ready frame, a frame that the output skipped
/// and one that could not be decoded leave what the adaptive controller sees
/// unchanged.
pub proof fn law_intended_drops_are_no_loss(
    session: CoreModel,
    ticket: MediaTicket,
    pair: SynchronizedPair,
    alpha: AlphaFrame,
)
    ensures
        ({
            let incomplete = session.diagnostics.incomplete_frames;
            &&& session.drop_counted().diagnostics.incomplete_frames == incomplete
            &&& session.completed(ticket, pair, alpha).diagnostics.incomplete_frames == incomplete
            &&& session.spout_skipped().diagnostics.incomplete_frames == incomplete
            &&& session.decode_failed().diagnostics.incomplete_frames == incomplete
            &&& session.drop_counted().adaptive == session.adaptive
            &&& session.completed(ticket, pair, alpha).adaptive == session.adaptive
            &&& session.spout_skipped().adaptive == session.adaptive
            &&& session.decode_failed().adaptive == session.adaptive
        }),
{
}

/// A changed configuration makes the receiver forget every frame: none is
/// ready, awaited or remembered as given up or shown, no request is left over,
/// and the sender has to start again.
pub proof fn law_reconfigure_forgets_all_frames(
    session: CoreModel,
    configuration: MediaConfiguration,
    now: u64,
)
    ensures
        ({
            let next = session.controlled(
                ControlMessage {
                    version: PROTOCOL_VERSION_V1,
                    payload: ControlPayload::Reconfigure(configuration),
                },
            );
            &&& next.phase == SessionPhase::Configured
            &&& next.configuration == Some(configuration)
            &&& next.frame_taken(now) == (next, None::<crate::receiver::PreparedFrame>)
            &&& next.inflight.dom().len() == 0
            &&& next.dropped.dom().len() == 0
            &&& next.published_window.len() == 0
            &&& next.diagnostics.jitter_buffer_depth == 0
            &&& next.idr_request() is None
        }),
{
}

/// Whatever presentation time a sender claims, a frame is shown no earlier than
/// the clock anchor allows and no later than the playout horizon and one frame
/// after its arrival; outside the horizon, it is one frame after its arrival.
pub proof fn law_playout_is_bounded(
    anchor: Option<(u64, u64)>,
    pts_us: u64,
    received_at: u64,
    fps: u32,
)
    requires
        anchor matches Some((_, anchor_time)) ==> anchor_time <= received_at,
    ensures
        ({
            let deadline = playout_time(anchor, pts_us, received_at, fps);
            &&& deadline <= received_at + MAX_PLAYOUT_HORIZON_NS + frame_delay(fps)
            &&& frame_delay(fps) <= 1_000_000_000
            &&& !anchored(anchor, pts_us) ==> deadline == later(received_at, frame_delay(fps))
            &&& next_anchor(anchor, pts_us, received_at) matches Some((_, time))
            &&& time <= received_at
        }),
{
    let divisor = if fps == 0 { 1int } else { fps as int };
    assert(0 <= 1_000_000int / divisor <= 1_000_000) by (nonlinear_arith)
        requires
            divisor >= 1,
    ;
}

/// One integer stands for each frame, and later frames of a generation, as well
/// as later generations, have larger ones.
pub proof fn law_frame_keys_order_frames(
    generation: u16,
    frame_id: u32,
    other_generation: u16,
    other_frame_id: u32,
)
    ensures
        frame_key(generation, frame_id) == frame_key(other_generation, other_frame_id) <==> (
        generation == other_generation && frame_id == other_frame_id),
        frame_key(generation, frame_id) < frame_key(other_generation, other_frame_id) <==> (
        generation < other_generation || (generation == other_generation && frame_id
            < other_frame_id)),
{
}

} // verus!
