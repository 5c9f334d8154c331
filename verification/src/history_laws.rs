//! What holds of a receiver session over a run of events.
use crate::adaptive::AdaptiveController;
use crate::model::{
    clamped_u32, due_keys, frame_key, later, lemma_due_keys, lemma_expired, lemma_frame_dropped,
    lemma_frames_late, lemma_oldest_exists, next_anchor, oldest_key, recent, resets_media,
    CoreModel,
};
use crate::receiver::{
    MediaAction, ReceiverError, SessionPhase, MAX_DROPPED_FRAME_TOMBSTONES, MAX_INCOMPLETE_FRAMES,
    PUBLISH_WINDOW_NS,
};
use crate::session_laws::{
    after, lemma_event_keeps_invariant, lemma_expiry_counts, lemma_filter_keeps_distinct,
    lemma_frames_late_counted, overdue, SessionEvent,
};
use crate::wire::MediaChunkHeader;
use vstd::prelude::*;

verus! {

/// The session after some events, from a given one on.
pub open spec fn after_each(start: CoreModel, events: Seq<SessionEvent>) -> CoreModel
    decreases events.len(),
{
    if events.len() == 0 {
        start
    } else {
        after(after_each(start, events.drop_last()), events.last())
    }
}

/// The event makes the session forget all media.
pub open spec fn forgets_media(session: CoreModel, event: SessionEvent) -> bool {
    match event {
        SessionEvent::Control(message, validation) => resets_media(message)
            && session.control_refusal(message, validation) is None,
        SessionEvent::Reconnect => true,
        _ => false,
    }
}

/// No event of a run makes the session forget its media.
pub open spec fn keeps_media(start: CoreModel, events: Seq<SessionEvent>) -> bool {
    forall|j: int|
        0 <= j < events.len() ==> !forgets_media(
            after_each(start, events.take(j)),
            #[trigger] events[j],
        )
}

/// The event comes before a point in time, where its own time matters to frames
/// that are awaited or given up.
pub open spec fn comes_before(event: SessionEvent, time: u64) -> bool {
    match event {
        SessionEvent::Datagram(_, received_at) => received_at < time,
        SessionEvent::Expire(now) => now < time,
        _ => true,
    }
}

/// Until when an awaited frame is ignored once it is given up.
pub open spec fn ignored_until(session: CoreModel, key: u64) -> u64 {
    later(session.inflight[key].deadline, 2_000_000_000)
}

/// How many frames were given up on the way from one session to another.
pub open spec fn given_up(from: CoreModel, to: CoreModel) -> int {
    to.diagnostics.incomplete_frames - from.diagnostics.incomplete_frames
}

/// What the frames that are given up leave behind on the way from one session to
/// another, by `now`: while there is room, every mark that is still in force
/// stays, and every frame that is no longer awaited has one.
spec fn marks_frames(from: CoreModel, to: CoreModel, now: Option<u64>) -> bool {
    &&& given_up(from, to) >= 0
    &&& to.dropped.dom().len() <= from.dropped.dom().len() + given_up(from, to)
    &&& from.dropped.dom().len() + given_up(from, to) <= MAX_DROPPED_FRAME_TOMBSTONES ==> {
        &&& forall|key: u64| #[trigger]
            from.dropped.contains_key(key) && (now matches Some(now) ==> now < from.dropped[key])
                ==> to.dropped.contains_key(key) && to.dropped[key] == from.dropped[key]
        &&& forall|key: u64| #[trigger]
            from.inflight.contains_key(key) && !to.inflight.contains_key(key) && (now matches Some(
                now,
            ) ==> now < ignored_until(from, key)) ==> to.dropped.contains_key(key)
                && to.dropped[key] == ignored_until(from, key)
    }
}

/// Giving up a frame marks it.
proof fn lemma_frame_is_marked(session: CoreModel, key: u64, late: bool)
    requires
        session.inv(),
        session.inflight.contains_key(key),
        session.diagnostics.incomplete_frames < u64::MAX,
    ensures
        marks_frames(session, session.frame_dropped(key, late), None),
        given_up(session, session.frame_dropped(key, late)) == 1,
{
    lemma_frame_dropped(session, key, late);
    let marked = session.dropped.insert(key, ignored_until(session, key));
    assert(!session.dropped.contains_key(key));
    crate::ordered::lemma_keep_largest(marked, MAX_DROPPED_FRAME_TOMBSTONES as nat);
    vstd::set_lib::lemma_len_subset(
        session.frame_dropped(key, late).dropped.dom(),
        marked.dom(),
    );
}

/// Giving up several frames for being late marks them.
proof fn lemma_late_frames_are_marked(session: CoreModel, keys: Seq<u64>)
    requires
        session.inv(),
        keys.no_duplicates(),
        forall|i: int| 0 <= i < keys.len() ==> session.inflight.contains_key(#[trigger] keys[i]),
        session.diagnostics.incomplete_frames + keys.len() <= u64::MAX,
    ensures
        marks_frames(session, session.frames_late(keys), None),
        given_up(session, session.frames_late(keys)) == keys.len(),
    decreases keys.len(),
{
    lemma_frames_late_counted(session, keys);
    if keys.len() > 0 {
        let before = keys.drop_last();
        assert forall|i: int| 0 <= i < before.len() implies session.inflight.contains_key(
            #[trigger] before[i],
        ) by {
            assert(before[i] == keys[i]);
        }
        lemma_late_frames_are_marked(session, before);
        lemma_frames_late(session, before);
        lemma_frames_late(session, keys);
        let middle = session.frames_late(before);
        assert(session.inflight.contains_key(keys[keys.len() - 1]));
        assert(!before.to_set().contains(keys.last())) by {
            if before.contains(keys.last()) {
                let i = before.index_of(keys.last());
                assert(keys[i] == keys[keys.len() - 1]);
            }
        }
        assert(middle.inflight.contains_key(keys.last()));
        lemma_frame_is_marked(middle, keys.last(), true);
    }
}

/// Expiry marks the frames that it gives up.
proof fn lemma_expiry_marks_frames(session: CoreModel, now: u64)
    requires
        session.inv(),
        session.diagnostics.incomplete_frames + MAX_INCOMPLETE_FRAMES <= u64::MAX,
    ensures
        marks_frames(session, session.expired(now), Some(now)),
        given_up(session, session.expired(now)) <= MAX_INCOMPLETE_FRAMES,
{
    let keys = due_keys(session.inflight, now);
    lemma_due_keys(session.inflight, now);
    lemma_expired(session, now);
    crate::ordered::lemma_sorted_keys(session.inflight);
    let sorted = crate::ordered::sorted_keys(session.inflight);
    crate::ordered::lemma_increasing_len(sorted);
    let due = |key: u64| session.inflight[key].deadline <= now;
    lemma_filter_keeps_distinct(sorted, due);
    assert(keys == sorted.filter(due));
    assert forall|i: int| 0 <= i < keys.len() implies session.inflight.contains_key(
        #[trigger] keys[i],
    ) by {
        assert(keys.contains(keys[i]));
    }
    lemma_late_frames_are_marked(session, keys);
    lemma_frames_late(session, keys);
    let late = session.frames_late(keys);
    let next = session.expired(now);
    assert(next.inflight == late.inflight);
    vstd::set_lib::lemma_len_subset(next.dropped.dom(), late.dropped.dom());
}

/// Awaiting a frame marks the one that makes room for it.
proof fn lemma_awaiting_marks_frames(
    session: CoreModel,
    key: u64,
    deadline: u64,
    received_at: u64,
)
    requires
        session.inv(),
        session.diagnostics.incomplete_frames < u64::MAX,
    ensures
        marks_frames(session, session.awaited(key, deadline, received_at), None),
        given_up(session, session.awaited(key, deadline, received_at)) <= 1,
{
    if !session.inflight.contains_key(key) && session.inflight.dom().len()
        >= MAX_INCOMPLETE_FRAMES {
        lemma_oldest_exists(session.inflight);
        lemma_frame_is_marked(session, oldest_key(session.inflight), false);
    }
}

/// Every event that keeps the media marks the frames that it gives up; only a
/// completed frame is no longer awaited without having been given up.
proof fn lemma_event_marks_frames(session: CoreModel, event: SessionEvent)
    requires
        session.inv(),
        !forgets_media(session, event),
        session.diagnostics.incomplete_frames + MAX_INCOMPLETE_FRAMES + 1 <= u64::MAX,
    ensures
        ({
            let next = after(session, event);
            &&& given_up(session, next) >= 0
            &&& next.dropped.dom().len() <= session.dropped.dom().len() + given_up(session, next)
            &&& session.dropped.dom().len() + given_up(session, next)
                <= MAX_DROPPED_FRAME_TOMBSTONES ==> {
                &&& forall|key: u64| #[trigger]
                    session.dropped.contains_key(key) && comes_before(event, session.dropped[key])
                        ==> next.dropped.contains_key(key) && next.dropped[key]
                        == session.dropped[key]
                &&& forall|key: u64| #[trigger]
                    session.inflight.contains_key(key) && !next.inflight.contains_key(key) && !(
                    event is Alpha) && comes_before(event, ignored_until(session, key))
                        ==> next.dropped.contains_key(key) && next.dropped[key] == ignored_until(
                        session,
                        key,
                    )
            }
        }),
{
    reveal(after);
    match event {
        SessionEvent::Datagram(header, received_at) => {
            if session.phase == SessionPhase::Streaming && header is Ok
                && header->Ok_0.generation == session.configuration->Some_0.generation {
                let header = header->Ok_0;
                let anchored = CoreModel {
                    clock_anchor: next_anchor(session.clock_anchor, header.pts_us, received_at),
                    ..session
                };
                let current = anchored.expired(received_at);
                let key = frame_key(header.generation, header.frame_id);
                lemma_expired(anchored, received_at);
                lemma_expiry_marks_frames(anchored, received_at);
                let next = after(session, event);
                if !current.dropped.contains_key(key) {
                    let deadline = crate::model::playout_time(
                        session.clock_anchor,
                        header.pts_us,
                        received_at,
                        session.configuration->Some_0.fps,
                    );
                    lemma_awaiting_marks_frames(current, key, deadline, received_at);
                    assert(next == current.awaited(key, deadline, received_at));
                }
                assert forall|other: u64| #[trigger]
                    session.inflight.contains_key(other) implies anchored.inflight.contains_key(
                    other,
                ) && ignored_until(anchored, other) == ignored_until(session, other) by {}
                assert forall|other: u64| #[trigger]
                    current.inflight.contains_key(other) implies ignored_until(current, other)
                    == ignored_until(session, other) by {}
            }
        },
        SessionEvent::Reassembly(ticket, outcome) => {
            let key = frame_key(ticket.generation, ticket.frame_id);
            if session.inflight.contains_key(key) {
                lemma_frame_is_marked(session, key, true);
            }
        },
        SessionEvent::Expire(now) => {
            lemma_expiry_marks_frames(session, now);
        },
        _ => {},
    }
}

/// The count of incomplete frames never falls.
proof fn lemma_late_frames_only_add(session: CoreModel, keys: Seq<u64>)
    ensures
        given_up(session, session.frames_late(keys)) >= 0,
    decreases keys.len(),
{
    if keys.len() > 0 {
        lemma_late_frames_only_add(session, keys.drop_last());
    }
}

/// The count of incomplete frames never falls.
proof fn lemma_event_only_adds(session: CoreModel, event: SessionEvent)
    ensures
        given_up(session, after(session, event)) >= 0,
{
    reveal(after);
    match event {
        SessionEvent::Datagram(header, received_at) => {
            if header is Ok {
                let header = header->Ok_0;
                let anchored = CoreModel {
                    clock_anchor: next_anchor(session.clock_anchor, header.pts_us, received_at),
                    ..session
                };
                lemma_late_frames_only_add(anchored, due_keys(anchored.inflight, received_at));
            }
        },
        SessionEvent::Expire(now) => {
            lemma_late_frames_only_add(session, due_keys(session.inflight, now));
        },
        _ => {},
    }
}

/// The first events of a run keep the media where the whole run does.
pub proof fn lemma_shorter_run_keeps_media(start: CoreModel, events: Seq<SessionEvent>)
    requires
        events.len() > 0,
        keeps_media(start, events),
    ensures
        keeps_media(start, events.drop_last()),
        !forgets_media(after_each(start, events.drop_last()), events.last()),
{
    let before = events.drop_last();
    assert forall|j: int| 0 <= j < before.len() implies !forgets_media(
        after_each(start, before.take(j)),
        #[trigger] before[j],
    ) by {
        assert(before.take(j) =~= events.take(j));
        assert(!forgets_media(after_each(start, events.take(j)), events[j]));
    }
    assert(events.take(events.len() - 1) =~= before);
    assert(!forgets_media(after_each(start, before), events[events.len() - 1]));
}

/// A session that has forgotten its media has no more marks than frames that it
/// gave up since.
proof fn lemma_run_is_counted(start: CoreModel, events: Seq<SessionEvent>)
    requires
        start.inv(),
        start.dropped.dom().len() == 0,
        keeps_media(start, events),
        start.diagnostics.incomplete_frames + 2 * MAX_DROPPED_FRAME_TOMBSTONES <= u64::MAX,
        given_up(start, after_each(start, events)) <= MAX_DROPPED_FRAME_TOMBSTONES,
    ensures
        after_each(start, events).inv(),
        0 <= given_up(start, after_each(start, events)),
        after_each(start, events).dropped.dom().len() <= given_up(
            start,
            after_each(start, events),
        ),
    decreases events.len(),
{
    if events.len() > 0 {
        let before = events.drop_last();
        lemma_shorter_run_keeps_media(start, events);
        lemma_event_only_adds(after_each(start, before), events.last());
        lemma_run_is_counted(start, before);
        lemma_event_keeps_invariant(after_each(start, before), events.last());
        lemma_event_marks_frames(after_each(start, before), events.last());
    }
}

/// The mark of a frame that was given up by the event at `k` outlasts the rest
/// of the run.
proof fn lemma_mark_lasts(start: CoreModel, events: Seq<SessionEvent>, k: int, key: u64)
    requires
        start.inv(),
        start.dropped.dom().len() == 0,
        keeps_media(start, events),
        start.diagnostics.incomplete_frames + 2 * MAX_DROPPED_FRAME_TOMBSTONES <= u64::MAX,
        given_up(start, after_each(start, events)) <= MAX_DROPPED_FRAME_TOMBSTONES,
        gives_up(start, events, k, key),
        forall|j: int|
            k <= j < events.len() ==> comes_before(
                #[trigger] events[j],
                ignored_until(after_each(start, events.take(k)), key),
            ),
    ensures
        after_each(start, events).dropped.contains_key(key),
        after_each(start, events).dropped[key] == ignored_until(
            after_each(start, events.take(k)),
            key,
        ),
    decreases events.len(),
{
    let before = events.drop_last();
    let session = after_each(start, before);
    lemma_shorter_run_keeps_media(start, events);
    lemma_event_only_adds(session, events.last());
    lemma_run_is_counted(start, before);
    lemma_event_marks_frames(session, events.last());
    assert(comes_before(
        events[events.len() - 1],
        ignored_until(after_each(start, events.take(k)), key),
    ));
    if k == events.len() - 1 {
        assert(events.take(k) =~= before);
        assert(events.take(k + 1) =~= events);
        assert(session.inflight.contains_key(key));
    } else {
        assert(before.take(k) =~= events.take(k));
        assert(before.take(k + 1) =~= events.take(k + 1));
        assert forall|j: int| k <= j < before.len() implies comes_before(
            #[trigger] before[j],
            ignored_until(after_each(start, before.take(k)), key),
        ) by {
            assert(before[j] == events[j]);
        }
        lemma_mark_lasts(start, before, k, key);
        assert(session.dropped.contains_key(key));
    }
}

/// The event at `k` gives a frame up: it is awaited before and not after, and no
/// plane of it was decoded.
pub open spec fn gives_up(start: CoreModel, events: Seq<SessionEvent>, k: int, key: u64) -> bool {
    &&& 0 <= k < events.len()
    &&& after_each(start, events.take(k)).inflight.contains_key(key)
    &&& !after_each(start, events.take(k + 1)).inflight.contains_key(key)
    &&& !(events[k] is Alpha)
}

/// Giving up frames does not look at the clock anchor.
proof fn lemma_late_frames_ignore_anchor(
    session: CoreModel,
    anchor: Option<(u64, u64)>,
    keys: Seq<u64>,
)
    ensures
        (CoreModel { clock_anchor: anchor, ..session }).frames_late(keys) == (CoreModel {
            clock_anchor: anchor,
            ..session.frames_late(keys)
        }),
    decreases keys.len(),
{
    if keys.len() > 0 {
        lemma_late_frames_ignore_anchor(session, anchor, keys.drop_last());
    }
}

/// A frame that was given up does not come back. Once a session gave it up, for
/// being late or for making room, whatever still comes of it within the playout
/// horizon after its deadline does no more than the passing of time does, apart
/// from the clock anchor: nothing of it is counted again, awaited or completed.
/// That holds as long as no more than eight frames were given up since the media
/// was last forgotten, the ones included that fall due on arrival of the
/// datagram; with more, the mark of the frame may have been pushed out.
pub proof fn law_given_up_frame_stays_given_up(
    start: CoreModel,
    events: Seq<SessionEvent>,
    k: int,
    header: MediaChunkHeader,
    received_at: u64,
)
    requires
        start.inv(),
        start.dropped.dom().len() == 0,
        keeps_media(start, events),
        ({
            let key = frame_key(header.generation, header.frame_id);
            let until = ignored_until(after_each(start, events.take(k)), key);
            &&& gives_up(start, events, k, key)
            &&& received_at < until
            &&& forall|j: int|
                k <= j < events.len() ==> comes_before(#[trigger] events[j], until)
        }),
        after_each(start, events).phase == SessionPhase::Streaming,
        after_each(start, events).configuration->Some_0.generation == header.generation,
        start.diagnostics.incomplete_frames + 16 <= u64::MAX,
        given_up(start, after_each(start, events).expired(received_at))
            <= 8,
    ensures
        ({
            let session = after_each(start, events);
            let key = frame_key(header.generation, header.frame_id);
            let (next, result) = session.pushed(Ok(header), received_at);
            &&& result == Ok::<MediaAction, ReceiverError>(MediaAction::ExpireOnly)
            &&& next == (CoreModel {
                clock_anchor: next_anchor(session.clock_anchor, header.pts_us, received_at),
                ..session.expired(received_at)
            })
            &&& next.dropped.contains_key(key)
            &&& !next.inflight.contains_key(key)
        }),
{
    let session = after_each(start, events);
    let key = frame_key(header.generation, header.frame_id);
    let anchor = next_anchor(session.clock_anchor, header.pts_us, received_at);
    let expired = session.expired(received_at);
    assert(given_up(session, expired) >= 0) by {
        lemma_late_frames_only_add(session, due_keys(session.inflight, received_at));
    }
    lemma_run_is_counted(start, events);
    lemma_mark_lasts(start, events, k, key);
    lemma_expiry_marks_frames(session, received_at);
    lemma_expired(session, received_at);
    lemma_late_frames_ignore_anchor(session, anchor, due_keys(session.inflight, received_at));
    assert((CoreModel { clock_anchor: anchor, ..session }).expired(received_at) == (CoreModel {
        clock_anchor: anchor,
        ..expired
    }));
    assert(session.dropped.contains_key(key));
    assert(expired.dropped.contains_key(key));
}

/// The times at which frames were shown, in a run of events.
pub open spec fn publications(events: Seq<SessionEvent>) -> Seq<u64>
    decreases events.len(),
{
    if events.len() == 0 {
        Seq::empty()
    } else {
        match events.last() {
            SessionEvent::Published(_, published_at) => publications(events.drop_last()).push(
                published_at,
            ),
            _ => publications(events.drop_last()),
        }
    }
}

/// How many of some times lie within the last second before `now`.
pub open spec fn within_last_second(times: Seq<u64>, now: u64) -> nat {
    Set::new(|i: int| 0 <= i < times.len() && now - times[i] <= 1_000_000_000).len()
}

/// Times that do not go back.
pub open spec fn non_decreasing(times: Seq<u64>) -> bool {
    forall|i: int, j: int| 0 <= i <= j < times.len() ==> times[i] <= times[j]
}

/// What is too old at one time is too old later.
proof fn lemma_recent_in_steps(window: Seq<u64>, earlier: u64, now: u64)
    requires
        earlier <= now,
    ensures
        recent(recent(window, earlier).push(now), now) == recent(window.push(now), now),
    decreases window.len(),
{
    if window.len() > 0 && earlier - window[0] > PUBLISH_WINDOW_NS {
        let rest = window.subrange(1, window.len() as int);
        lemma_recent_in_steps(rest, earlier, now);
        assert(window.push(now)[0] == window[0]);
        assert(window.push(now).subrange(1, window.push(now).len() as int) =~= rest.push(now));
    }
}

/// The recent part of a window is its end, from the first time that is recent.
proof fn lemma_recent_is_the_end(window: Seq<u64>, now: u64)
    ensures
        recent(window, now).len() <= window.len(),
        recent(window, now) == window.skip(window.len() - recent(window, now).len()),
        forall|i: int|
            0 <= i < window.len() - recent(window, now).len() ==> now - #[trigger] window[i]
                > PUBLISH_WINDOW_NS,
        recent(window, now).len() > 0 ==> now - recent(window, now)[0] <= PUBLISH_WINDOW_NS,
    decreases window.len(),
{
    if window.len() > 0 && now - window[0] > PUBLISH_WINDOW_NS {
        let rest = window.subrange(1, window.len() as int);
        lemma_recent_is_the_end(rest, now);
        let kept = recent(window, now);
        assert(rest.skip(rest.len() - kept.len()) =~= window.skip(window.len() - kept.len()));
        assert forall|i: int| 0 <= i < window.len() - kept.len() implies now - #[trigger] window[i]
            > PUBLISH_WINDOW_NS by {
            if i > 0 {
                assert(rest[i - 1] == window[i]);
            }
        }
    } else {
        assert(window.skip(0) =~= window);
    }
}

/// Of times that do not go back, the recent part is as long as there are times
/// within the last second.
proof fn lemma_recent_counts(times: Seq<u64>, now: u64)
    requires
        non_decreasing(times),
    ensures
        recent(times, now).len() == within_last_second(times, now),
{
    lemma_recent_is_the_end(times, now);
    let kept = recent(times, now);
    let first = times.len() - kept.len();
    let indices = Set::new(|i: int| 0 <= i < times.len() && now - times[i] <= PUBLISH_WINDOW_NS);
    assert forall|i: int| indices.contains(i) <==> first <= i < times.len() by {
        if first <= i < times.len() {
            assert(kept[0] == times[first]);
            assert(times[first] <= times[i]);
        }
    }
    assert(indices =~= vstd::set_lib::set_int_range(first, times.len() as int));
    vstd::set_lib::lemma_int_range(first, times.len() as int);
}

/// The window of shown frames is the recent part of all that were shown.
proof fn lemma_window_is_recent(start: CoreModel, events: Seq<SessionEvent>)
    requires
        start.published_window.len() == 0,
        keeps_media(start, events),
        forall|j: int| 0 <= j < events.len() ==> !(#[trigger] events[j] is Report),
        non_decreasing(publications(events)),
    ensures
        ({
            let times = publications(events);
            after_each(start, events).published_window == if times.len() == 0 {
                Seq::empty()
            } else {
                recent(times, times.last())
            }
        }),
    decreases events.len(),
{
    if events.len() == 0 {
        assert(start.published_window =~= Seq::empty());
    } else {
        let before = events.drop_last();
        let times = publications(events);
        let earlier = publications(before);
        lemma_shorter_run_keeps_media(start, events);
        assert forall|j: int| 0 <= j < before.len() implies !(#[trigger] before[j] is Report) by {
            assert(before[j] == events[j]);
        }
        assert(!(events[events.len() - 1] is Report));
        assert(non_decreasing(earlier)) by {
            if events.last() is Published {
                assert forall|i: int, j: int| 0 <= i <= j < earlier.len() implies earlier[i]
                    <= earlier[j] by {
                    assert(times[i] == earlier[i] && times[j] == earlier[j]);
                }
            }
        }
        lemma_window_is_recent(start, before);
        lemma_event_and_window(after_each(start, before), events.last());
        if let SessionEvent::Published(frame_id, published_at) = events.last() {
            if earlier.len() > 0 {
                assert(times[earlier.len() - 1] == earlier.last());
                assert(times[times.len() - 1] == published_at);
                lemma_recent_in_steps(earlier, earlier.last(), published_at);
            } else {
                assert(earlier =~= Seq::empty());
            }
        }
    }
}

/// Of the events that keep the media, only a shown frame and a report touch the
/// window of shown frames.
proof fn lemma_event_and_window(session: CoreModel, event: SessionEvent)
    requires
        !forgets_media(session, event),
        !(event is Report),
    ensures
        after(session, event).published_window == match event {
            SessionEvent::Published(_, published_at) => recent(
                session.published_window.push(published_at),
                published_at,
            ),
            _ => session.published_window,
        },
{
    reveal(after);
    match event {
        SessionEvent::Datagram(header, received_at) => {
            if header is Ok {
                let anchored = CoreModel {
                    clock_anchor: next_anchor(
                        session.clock_anchor,
                        header->Ok_0.pts_us,
                        received_at,
                    ),
                    ..session
                };
                lemma_late_frames_keep_window(anchored, due_keys(anchored.inflight, received_at));
            }
        },
        SessionEvent::Expire(now) => {
            lemma_late_frames_keep_window(session, due_keys(session.inflight, now));
        },
        _ => {},
    }
}

/// Giving up frames does not touch the window of shown frames.
proof fn lemma_late_frames_keep_window(session: CoreModel, keys: Seq<u64>)
    ensures
        session.frames_late(keys).published_window == session.published_window,
    decreases keys.len(),
{
    if keys.len() > 0 {
        lemma_late_frames_keep_window(session, keys.drop_last());
    }
}

/// The reported frame rate is the number of frames that were shown within the
/// last second, whatever else happened since the media was last forgotten, as
/// long as the clock did not go back and no report came in between. The frame
/// that was shown last is remembered, and its latency is the time since its
/// first datagram came, where that is still known.
pub proof fn law_frame_rate_counts_the_last_second(
    start: CoreModel,
    events: Seq<SessionEvent>,
    frame_id: u32,
    published_at: u64,
)
    requires
        start.published_window.len() == 0,
        events.len() > 0,
        events.last() == SessionEvent::Published(frame_id, published_at),
        keeps_media(start, events),
        forall|j: int| 0 <= j < events.len() ==> !(#[trigger] events[j] is Report),
        non_decreasing(publications(events)),
    ensures
        ({
            let before = after_each(start, events.drop_last());
            let shown = after_each(start, events).diagnostics;
            let id = frame_id as u64;
            &&& shown.complete_frame_fps == clamped_u32(
                within_last_second(publications(events), published_at) as int,
            )
            &&& shown.last_published_frame == Some(frame_id)
            &&& shown.playout_latency_us == if before.received_at.contains_key(id) {
                clamped_u32(
                    if published_at >= before.received_at[id] {
                        (published_at - before.received_at[id]) / 1_000
                    } else {
                        0
                    },
                )
            } else {
                before.diagnostics.playout_latency_us
            }
            &&& shown.receive_to_publish_latency_us == if before.received_at.contains_key(id) {
                shown.playout_latency_us
            } else {
                before.diagnostics.receive_to_publish_latency_us
            }
        }),
{
    reveal(after);
    let times = publications(events);
    assert(times.last() == published_at);
    lemma_window_is_recent(start, events);
    lemma_recent_counts(times, published_at);
}

/// The frame rate in a report is the number of frames that were shown within
/// the second before the report, whatever else happened since the media was last
/// forgotten, as long as the clock did not go back and no other report came in
/// between.
pub proof fn law_report_counts_the_last_second(
    start: CoreModel,
    events: Seq<SessionEvent>,
    now: u64,
)
    requires
        start.published_window.len() == 0,
        keeps_media(start, events),
        forall|j: int| 0 <= j < events.len() ==> !(#[trigger] events[j] is Report),
        non_decreasing(publications(events)),
        publications(events).len() > 0 ==> publications(events).last() <= now,
    ensures
        after(after_each(start, events), SessionEvent::Report(now)).diagnostics.complete_frame_fps
            == clamped_u32(within_last_second(publications(events), now) as int),
{
    reveal(after);
    let times = publications(events);
    lemma_window_is_recent(start, events);
    if times.len() > 0 {
        lemma_recent_again(times, times.last(), now);
    } else {
        assert(times =~= Seq::empty());
    }
    lemma_recent_counts(times, now);
}

/// What is too old at one time is too old later.
proof fn lemma_recent_again(window: Seq<u64>, earlier: u64, now: u64)
    requires
        earlier <= now,
    ensures
        recent(recent(window, earlier), now) == recent(window, now),
    decreases window.len(),
{
    if window.len() > 0 && earlier - window[0] > PUBLISH_WINDOW_NS {
        lemma_recent_again(window.subrange(1, window.len() as int), earlier, now);
    }
}

/// The event begins an interval over which loss is counted: the network is
/// measured, or a configuration is set.
pub open spec fn begins_interval(session: CoreModel, event: SessionEvent) -> bool {
    match event {
        SessionEvent::Network(_, _, _) => session.adaptive.nominal_bitrate_bps > 0,
        SessionEvent::Control(message, validation) => {
            &&& session.control_refusal(message, validation) is None
            &&& message.payload is Configure || message.payload is Reconfigure
        },
        _ => false,
    }
}

/// No event of a run measures the network.
pub open spec fn goes_unmeasured(events: Seq<SessionEvent>) -> bool {
    forall|j: int| 0 <= j < events.len() ==> !(#[trigger] events[j] is Network)
}

/// Giving up frames is none of the controller's business until the network is
/// measured.
proof fn lemma_late_frames_keep_controller(session: CoreModel, keys: Seq<u64>)
    ensures
        session.frames_late(keys).adaptive == session.adaptive,
    decreases keys.len(),
{
    if keys.len() > 0 {
        lemma_late_frames_keep_controller(session, keys.drop_last());
    }
}

/// Only a measurement, a configuration and a new connection change what is
/// requested.
proof fn lemma_event_keeps_controller(session: CoreModel, event: SessionEvent)
    requires
        !forgets_media(session, event),
        !(event is Network),
    ensures
        after(session, event).adaptive == session.adaptive,
{
    reveal(after);
    match event {
        SessionEvent::Datagram(header, received_at) => {
            if header is Ok {
                let anchored = CoreModel {
                    clock_anchor: next_anchor(
                        session.clock_anchor,
                        header->Ok_0.pts_us,
                        received_at,
                    ),
                    ..session
                };
                lemma_late_frames_keep_controller(
                    anchored,
                    due_keys(anchored.inflight, received_at),
                );
            }
        },
        SessionEvent::Expire(now) => {
            lemma_late_frames_keep_controller(session, due_keys(session.inflight, now));
        },
        _ => {},
    }
}

/// A run without a measurement leaves the controller alone, and its count of
/// incomplete frames only grows.
proof fn lemma_run_keeps_controller(start: CoreModel, events: Seq<SessionEvent>)
    requires
        start.inv(),
        keeps_media(start, events),
        goes_unmeasured(events),
    ensures
        after_each(start, events).adaptive == start.adaptive,
        after_each(start, events).inv(),
        given_up(start, after_each(start, events)) >= 0,
    decreases events.len(),
{
    if events.len() > 0 {
        let before = events.drop_last();
        lemma_shorter_run_keeps_media(start, events);
        assert forall|j: int| 0 <= j < before.len() implies !(#[trigger] before[j] is Network) by {
            assert(before[j] == events[j]);
        }
        assert(!(events[events.len() - 1] is Network));
        lemma_run_keeps_controller(start, before);
        lemma_event_keeps_controller(after_each(start, before), events.last());
        lemma_event_keeps_invariant(after_each(start, before), events.last());
        lemma_event_only_adds(after_each(start, before), events.last());
    }
}

/// An event that gives a frame up counts it.
proof fn lemma_given_up_frame_is_counted(session: CoreModel, event: SessionEvent, key: u64)
    requires
        session.inv(),
        !forgets_media(session, event),
        session.inflight.contains_key(key),
        !after(session, event).inflight.contains_key(key),
        !(event is Alpha),
        session.diagnostics.incomplete_frames + MAX_INCOMPLETE_FRAMES + 1 <= u64::MAX,
    ensures
        given_up(session, after(session, event)) > 0,
{
    reveal(after);
    match event {
        SessionEvent::Datagram(header, received_at) => {
            if session.phase == SessionPhase::Streaming && header is Ok
                && header->Ok_0.generation == session.configuration->Some_0.generation {
                let header = header->Ok_0;
                let anchored = CoreModel {
                    clock_anchor: next_anchor(session.clock_anchor, header.pts_us, received_at),
                    ..session
                };
                let current = anchored.expired(received_at);
                lemma_expired(anchored, received_at);
                lemma_expiry_counts(anchored, received_at);
                assert(anchored.inflight.contains_key(key));
                if session.inflight[key].deadline <= received_at {
                    let late = overdue(anchored, received_at);
                    assert(late.contains(key));
                    if late.len() == 0 {
                        assert(late =~= Set::empty());
                    }
                } else {
                    assert(current.inflight.contains_key(key));
                    lemma_oldest_exists(current.inflight);
                }
            }
        },
        SessionEvent::Expire(now) => {
            lemma_expired(session, now);
            lemma_expiry_counts(session, now);
            let late = overdue(session, now);
            assert(late.contains(key));
            if late.len() == 0 {
                assert(late =~= Set::empty());
            }
        },
        _ => {},
    }
}

/// A run in which a frame was given up has counted it.
proof fn lemma_run_counts_its_loss(start: CoreModel, events: Seq<SessionEvent>, k: int, key: u64)
    requires
        start.inv(),
        keeps_media(start, events),
        goes_unmeasured(events),
        gives_up(start, events, k, key),
        after_each(start, events).diagnostics.incomplete_frames + MAX_INCOMPLETE_FRAMES + 1
            <= u64::MAX,
    ensures
        given_up(start, after_each(start, events)) > 0,
    decreases events.len(),
{
    let before = events.drop_last();
    let session = after_each(start, before);
    lemma_shorter_run_keeps_media(start, events);
    assert forall|j: int| 0 <= j < before.len() implies !(#[trigger] before[j] is Network) by {
        assert(before[j] == events[j]);
    }
    lemma_run_keeps_controller(start, before);
    lemma_event_only_adds(session, events.last());
    if k == events.len() - 1 {
        assert(events.take(k) =~= before);
        assert(events.take(k + 1) =~= events);
        lemma_given_up_frame_is_counted(session, events.last(), key);
    } else {
        assert(before.take(k) =~= events.take(k));
        assert(before.take(k + 1) =~= events.take(k + 1));
        lemma_run_counts_its_loss(start, before, k, key);
    }
}

/// An interval begins with the count of incomplete frames as it stands.
proof fn lemma_interval_begins_even(session: CoreModel, event: SessionEvent)
    requires
        session.inv(),
        begins_interval(session, event),
    ensures
        after(session, event).inv(),
        after(session, event).adaptive.previous_incomplete == after(
            session,
            event,
        ).diagnostics.incomplete_frames,
{
    lemma_event_keeps_invariant(session, event);
    reveal(after);
}

/// A measurement shows the controller the incomplete frames so far.
proof fn lemma_measurement_is_observed(
    session: CoreModel,
    rtt_us: u64,
    jitter_us: u64,
    estimate: Option<u64>,
)
    ensures
        after(session, SessionEvent::Network(rtt_us, jitter_us, estimate)).adaptive
            == session.adaptive.observed(
            session.diagnostics.incomplete_frames,
            clamped_u32(rtt_us as int),
            estimate,
        ),
{
    reveal(after);
}

/// What loss does to the bitrate.
proof fn lemma_loss_is_answered(
    controller: AdaptiveController,
    incomplete: u64,
    rtt_us: u32,
    estimate: Option<u64>,
)
    requires
        controller.nominal_bitrate_bps > 0,
        controller.requested_bitrate_bps > 1_000_000,
        incomplete > controller.previous_incomplete,
    ensures
        ({
            let requested = controller.requested_bitrate_bps;
            let next = controller.observed(incomplete, rtt_us, estimate);
            &&& next.requested_bitrate_bps < requested
            &&& next.requested_fps == controller.requested_fps
            &&& (estimate matches Some(rate) ==> rate == 0 || rate >= requested) && requested * 80
                <= u32::MAX ==> {
                ||| 5 * next.requested_bitrate_bps <= 4 * requested < 5 * (
                next.requested_bitrate_bps + 1) && next.requested_bitrate_bps >= 1_000_000
                ||| 4 * requested < 5_000_000 && next.requested_bitrate_bps == 1_000_000
                ||| controller.nominal_bitrate_bps < 1_000_000
            }
        }),
{
}

/// Loss lowers the requested bitrate: where a frame was given up since the
/// network was last measured, or since the configuration was set, the next
/// measurement lowers the bitrate, as long as it is above its floor of one
/// million bits a second. It falls by a fifth, where no smaller send rate is
/// estimated, and not below the floor; the frame rate stays.
pub proof fn law_given_up_frame_lowers_the_bitrate(
    session: CoreModel,
    first: SessionEvent,
    events: Seq<SessionEvent>,
    k: int,
    key: u64,
    rtt_us: u64,
    jitter_us: u64,
    estimate: Option<u64>,
)
    requires
        session.inv(),
        begins_interval(session, first),
        ({
            let start = after(session, first);
            &&& keeps_media(start, events)
            &&& goes_unmeasured(events)
            &&& gives_up(start, events, k, key) || given_up(start, after_each(start, events)) > 0
            &&& after_each(start, events).diagnostics.incomplete_frames <= u64::MAX - 3
            &&& start.adaptive.nominal_bitrate_bps > 0
            &&& start.adaptive.requested_bitrate_bps > 1_000_000
        }),
    ensures
        ({
            let start = after(session, first);
            let requested = start.adaptive.requested_bitrate_bps;
            let next = after(
                after_each(start, events),
                SessionEvent::Network(rtt_us, jitter_us, estimate),
            ).adaptive;
            &&& next.requested_bitrate_bps < requested
            &&& next.requested_fps == start.adaptive.requested_fps
            &&& (estimate matches Some(rate) ==> rate == 0 || rate >= requested) && requested * 80
                <= u32::MAX ==> {
                ||| 5 * next.requested_bitrate_bps <= 4 * requested < 5 * (
                next.requested_bitrate_bps + 1) && next.requested_bitrate_bps >= 1_000_000
                ||| 4 * requested < 5_000_000 && next.requested_bitrate_bps == 1_000_000
                ||| start.adaptive.nominal_bitrate_bps < 1_000_000
            }
        }),
{
    let start = after(session, first);
    lemma_interval_begins_even(session, first);
    lemma_run_keeps_controller(start, events);
    if gives_up(start, events, k, key) {
        lemma_run_counts_its_loss(start, events, k, key);
    }
    let measured = after_each(start, events);
    lemma_measurement_is_observed(measured, rtt_us, jitter_us, estimate);
    lemma_loss_is_answered(
        start.adaptive,
        measured.diagnostics.incomplete_frames,
        clamped_u32(rtt_us as int),
        estimate,
    );
}

/// Without loss the requested bitrate does not fall: where no frame was given up
/// since the network was last measured, or since the configuration was set, the
/// round trip is no longer than 150 milliseconds and no smaller send rate is
/// estimated, neither the bitrate nor the frame rate is lowered, however many
/// frames were replaced, skipped, undecodable or of another generation.
pub proof fn law_bitrate_does_not_fall_without_loss(
    session: CoreModel,
    first: SessionEvent,
    events: Seq<SessionEvent>,
    rtt_us: u64,
    jitter_us: u64,
    estimate: Option<u64>,
)
    requires
        session.inv(),
        begins_interval(session, first),
        ({
            let start = after(session, first);
            &&& keeps_media(start, events)
            &&& goes_unmeasured(events)
            &&& given_up(start, after_each(start, events)) == 0
            &&& estimate matches Some(rate) ==> rate == 0 || rate
                >= start.adaptive.requested_bitrate_bps
        }),
        rtt_us <= 150_000,
    ensures
        ({
            let start = after(session, first);
            let next = after(
                after_each(start, events),
                SessionEvent::Network(rtt_us, jitter_us, estimate),
            ).adaptive;
            &&& next.requested_bitrate_bps >= start.adaptive.requested_bitrate_bps
            &&& next.requested_fps >= start.adaptive.requested_fps
        }),
{
    let start = after(session, first);
    lemma_interval_begins_even(session, first);
    lemma_run_keeps_controller(start, events);
    lemma_measurement_is_observed(after_each(start, events), rtt_us, jitter_us, estimate);
}

/// The event cannot give a frame up: no datagram comes, no time passes for the
/// frames that are awaited, and reassembly has given none up.
pub open spec fn gives_up_nothing(event: SessionEvent) -> bool {
    match event {
        SessionEvent::Datagram(_, _) => false,
        SessionEvent::Expire(_) => false,
        SessionEvent::Reassembly(_, Ok(crate::wire::ReassemblyOutcome::DroppedExpired)) => false,
        _ => true,
    }
}

/// Events that cannot give a frame up are no loss, in any number: complete and
/// replaced frames, frames that were shown, skipped by the output or could not be
/// decoded, reports and key frame requests leave the count of incomplete frames
/// as it is, and with it the bitrate.
pub proof fn law_only_given_up_frames_are_loss(start: CoreModel, events: Seq<SessionEvent>)
    requires
        forall|j: int| 0 <= j < events.len() ==> gives_up_nothing(#[trigger] events[j]),
    ensures
        given_up(start, after_each(start, events)) == 0,
    decreases events.len(),
{
    if events.len() > 0 {
        let before = events.drop_last();
        assert forall|j: int| 0 <= j < before.len() implies gives_up_nothing(
            #[trigger] before[j],
        ) by {
            assert(before[j] == events[j]);
        }
        law_only_given_up_frames_are_loss(start, before);
        assert(gives_up_nothing(events[events.len() - 1]));
        reveal(after);
    }
}

/// A long round trip, or an estimated send rate below what is requested, lowers
/// the bitrate too, without any loss.
pub proof fn law_congestion_lowers_the_bitrate(
    session: CoreModel,
    rtt_us: u64,
    jitter_us: u64,
    estimate: Option<u64>,
)
    requires
        session.adaptive.nominal_bitrate_bps > 0,
        session.adaptive.requested_bitrate_bps > 1_000_000,
        rtt_us > 150_000 || (estimate matches Some(rate) && 0 < rate
            < session.adaptive.requested_bitrate_bps),
    ensures
        ({
            let next = session.network_observed(rtt_us, jitter_us, estimate).adaptive;
            &&& next.requested_bitrate_bps < session.adaptive.requested_bitrate_bps
            &&& next.requested_fps == session.adaptive.requested_fps
            &&& estimate matches Some(rate) ==> 0 < rate < session.adaptive.requested_bitrate_bps
                ==> {
                ||| 5 * next.requested_bitrate_bps <= 4 * rate < 5 * (next.requested_bitrate_bps
                    + 1)
                ||| 4 * rate < 5_000_000 && next.requested_bitrate_bps <= 1_000_000
            }
        }),
{
}

} // verus!
