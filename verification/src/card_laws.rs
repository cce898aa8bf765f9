//! What holds of the card whatever happens to it.
use crate::api::{or_empty, QueueView, TrackView};
use crate::card::{
    cancelled, clock_text, seconds_in, settled_as, Action, Acts, Event, Model, Msg, Timer, FADE_MS,
    QUEUE_FETCH, QUEUE_ROWS, SETTLE_MS,
};
use crate::mpris;
use crate::mpris::SnapshotView;
use crate::text;
use vstd::prelude::*;

verus! {

/// Whether a timer is running.
pub open spec fn running(m: Model, timer: Timer) -> bool {
    match timer {
        Timer::Dwell => m.dwell,
        Timer::Grace => m.grace,
        Timer::Unmap => m.unmap,
        Timer::Tick => m.tick,
        Timer::Lookup => m.lookup_debounce,
        Timer::CopyFeedback => m.copy_feedback,
    }
}

/// Every timer runs only where it serves something.
pub open spec fn timers_fit(m: Model) -> bool {
    &&& m.dwell == (m.hovered() && !m.open)
    &&& m.grace == (!m.hovered() && m.open)
    &&& m.tick == m.open
    &&& m.unmap ==> !m.open
    &&& m.lookup_debounce ==> m.open
    &&& m.copy_feedback ==> m.open
}

/// What can happen in a state: a timer that is not running does not run out,
/// and the player is read, art is looked up and things are clicked only while
/// the card is open.
pub open spec fn possible(m: Model, event: Event) -> bool {
    match event {
        Event::Elapsed(timer) => running(m, timer),
        Event::Read { .. } => m.open,
        Event::ArtLooked { .. } => m.open,
        Event::Star => m.open,
        Event::Identity => m.open,
        _ => true,
    }
}

/// A card that knows nothing runs no timer.
pub proof fn law_a_blank_card_fits()
    ensures
        timers_fit(Model::blank()),
{
}

/// Whatever happens, every timer runs only where it serves something.
pub proof fn law_timers_follow_the_card(m: Model, event: Event)
    requires
        timers_fit(m),
        possible(m, event),
    ensures
        timers_fit(m.step(event).0),
{
}

/// While the card is hidden and the cursor elsewhere, no timer runs.
pub proof fn law_a_hidden_card_runs_no_timer(m: Model, timer: Timer)
    requires
        timers_fit(m),
        !m.open,
        !m.unmap,
        !m.hovered(),
    ensures
        !running(m, timer),
{
}

/// Whether an action reads the player, looks at the disk or sends a request.
pub open spec fn expensive(action: Action<Seq<char>>) -> bool {
    match action {
        Action::Refresh { .. } => true,
        Action::Art { .. } => true,
        Action::FetchArt { .. } => true,
        Action::FetchQueue { .. } => true,
        Action::FetchLiked { .. } => true,
        Action::FetchPrevious { .. } => true,
        Action::SetLiked { .. } => true,
        _ => false,
    }
}

/// The rows that are drawn are labelled in order, each with what it is to say.
proof fn lemma_rows(m: Model, count: nat)
    requires
        count <= QUEUE_ROWS,
    ensures
        forall|i: int|
            0 <= i < m.rows(count).len() ==> (#[trigger] m.rows(count)[i] matches Action::QueueRow {
                index,
                label,
            } && index < count && m.row(index as int) == Some(label)),
    decreases count,
{
    if count > 0 {
        lemma_rows(m, (count - 1) as nat);
    }
}

/// A card that is closed, or closes, reads nothing, looks at no file and sends
/// no request.
#[verifier::rlimit(40)]
pub proof fn law_a_closed_card_is_silent(m: Model, event: Event)
    requires
        timers_fit(m),
        possible(m, event),
        !m.step(event).0.open,
    ensures
        forall|i: int| 0 <= i < m.step(event).1.len() ==> !expensive(#[trigger] m.step(event).1[i]),
{
    match event {
        Event::Worker { msg, now } => {
            match msg {
                Msg::Queue { generation, queue } => {
                    let done = Model { queue_inflight: None, ..m };
                    lemma_rows(done.take_queue(queue@, now).0, QUEUE_ROWS as nat);
                },
                Msg::QueueFailed { generation } => {
                    lemma_rows(Model { queue_inflight: None, ..m }, QUEUE_ROWS as nat);
                },
                _ => {},
            }
        },
        _ => {},
    }
}

/// What becomes of a timer as actions are carried out; `None` where a running
/// timer is started again, or one that is not running is stopped.
pub open spec fn carried_out(was: bool, actions: Acts, timer: Timer) -> Option<bool>
    decreases actions.len(),
{
    if actions.len() == 0 {
        Some(was)
    } else {
        match carried_out(was, actions.drop_last(), timer) {
            Some(on) => match actions.last() {
                Action::Arm(t) if t == timer => if on {
                    None
                } else {
                    Some(true)
                },
                Action::Disarm(t) if t == timer => if on {
                    Some(false)
                } else {
                    None
                },
                _ => Some(on),
            },
            None => None,
        }
    }
}

proof fn lemma_carried_out_in_turn(was: bool, a: Acts, b: Acts, timer: Timer)
    ensures
        carried_out(was, a + b, timer) == (match carried_out(was, a, timer) {
            Some(on) => carried_out(on, b, timer),
            None => None,
        }),
    decreases b.len(),
{
    if b.len() == 0 {
        assert(a + b == a);
    } else {
        assert((a + b).drop_last() == a + b.drop_last());
        lemma_carried_out_in_turn(was, a, b.drop_last(), timer);
    }
}

pub open spec fn leaves_timers(action: Action<Seq<char>>) -> bool {
    !(action is Arm) && !(action is Disarm)
}

proof fn lemma_carried_out_idle(was: bool, a: Acts, timer: Timer)
    requires
        forall|i: int| 0 <= i < a.len() ==> leaves_timers(#[trigger] a[i]),
    ensures
        carried_out(was, a, timer) == Some(was),
    decreases a.len(),
{
    if a.len() > 0 {
        assert forall|i: int| 0 <= i < a.drop_last().len() implies leaves_timers(
            #[trigger] a.drop_last()[i],
        ) by {
            assert(a.drop_last()[i] == a[i]);
        }
        lemma_carried_out_idle(was, a.drop_last(), timer);
    }
}

proof fn lemma_carried_out_rows(was: bool, m: Model, timer: Timer)
    ensures
        carried_out(was, m.render_queue(), timer) == Some(was),
{
    lemma_rows(m, QUEUE_ROWS as nat);
    lemma_carried_out_idle(was, m.render_queue(), timer);
}

/// Whether a timer is running once an event has come, before it is acted on: one
/// that ran out has stopped by itself, but for the tick, which goes on.
pub open spec fn still_running(m: Model, event: Event, timer: Timer) -> bool {
    running(m, timer) && !(event == Event::Elapsed(timer) && timer != Timer::Tick)
}

#[verifier::rlimit(40)]
proof fn lemma_refresh_carried_out(
    m: Model,
    opening: bool,
    reading: Option<SnapshotView>,
    has_player: bool,
    now: u64,
    timer: Timer,
)
    ensures
        carried_out(running(m, timer), m.refresh(opening, reading, has_player, now).1, timer)
            == Some(running(m.refresh(opening, reading, has_player, now).0, timer)),
{
    let was = running(m, timer);
    match reading {
        Some(snap) if snap.title.len() > 0 => {
            let drawn = m.drawn(snap);
            lemma_carried_out_idle(was, m.draw(snap), timer);
            if m.rendered != snap.track_id {
                let painted = drawn.apply_liked(None);
                let scheduled = painted.0.schedule_lookups();
                let first = seq![
                    Action::Art { url: snap.art_url, generation: drawn.generation },
                ] + painted.1;
                lemma_carried_out_idle(was, first, timer);
                lemma_schedule_carried_out(painted.0, timer);
                lemma_carried_out_in_turn(was, first, scheduled.1, timer);
                lemma_carried_out_rows(running(scheduled.0, timer), scheduled.0, timer);
                lemma_carried_out_in_turn(
                    was,
                    first + scheduled.1,
                    scheduled.0.render_queue(),
                    timer,
                );
                lemma_carried_out_in_turn(
                    was,
                    m.draw(snap),
                    drawn.begin_track(snap.art_url).1,
                    timer,
                );
            } else if opening && (drawn.queue_stale(now) || drawn.liked is None) {
                lemma_schedule_carried_out(drawn, timer);
                lemma_carried_out_in_turn(was, m.draw(snap), drawn.schedule_lookups().1, timer);
            }
        },
        _ => {
            lemma_carried_out_idle(was, m.refresh(opening, reading, has_player, now).1, timer);
        },
    }
}

proof fn lemma_cancelled_carried_out(was: bool, on: bool, stopped: Timer, timer: Timer)
    requires
        stopped == timer ==> on == was,
    ensures
        carried_out(was, cancelled(on, stopped), timer) == Some(was && stopped != timer),
{
    reveal_with_fuel(carried_out, 2);
}

proof fn lemma_arm_carried_out(was: bool, started: Timer, timer: Timer)
    requires
        started == timer ==> !was,
    ensures
        carried_out(was, seq![Action::Arm(started)], timer) == Some(was || started == timer),
{
    reveal_with_fuel(carried_out, 2);
}

proof fn lemma_hover_carried_out(m: Model, is_trigger: bool, inside: bool, timer: Timer)
    requires
        timers_fit(m),
    ensures
        carried_out(running(m, timer), m.set_hovered(is_trigger, inside).1, timer) == Some(
            running(m.set_hovered(is_trigger, inside).0, timer),
        ),
{
    let was = running(m, timer);
    let moved = if is_trigger {
        Model { in_trigger: inside, ..m }
    } else {
        Model { in_popup: inside, ..m }
    };
    let (stopped, started, on, starts) = if moved.hovered() {
        (Timer::Grace, Timer::Dwell, m.grace, !m.open && !m.dwell)
    } else {
        (Timer::Dwell, Timer::Grace, m.dwell, m.open && !m.grace)
    };
    lemma_cancelled_carried_out(was, on, stopped, timer);
    if starts {
        lemma_arm_carried_out(was && stopped != timer, started, timer);
        lemma_carried_out_in_turn(
            was,
            cancelled(on, stopped),
            seq![Action::Arm(started)],
            timer,
        );
    } else {
        assert(moved.reevaluate().1 == cancelled(on, stopped));
    }
}

proof fn lemma_open_carried_out(m: Model, timer: Timer)
    requires
        timers_fit(m),
        m.dwell,
    ensures
        carried_out(running(m, timer) && timer != Timer::Dwell, m.elapsed(Timer::Dwell).1, timer)
            == Some(running(m.elapsed(Timer::Dwell).0, timer)),
{
    let was = running(m, timer) && timer != Timer::Dwell;
    let stop = cancelled(m.unmap, Timer::Unmap);
    let show = seq![
        Action::Refresh::<Seq<char>> { opening: true },
        Action::Present,
        Action::RevealWhenIdle,
    ];
    let tick = seq![Action::Arm::<Seq<char>>(Timer::Tick)];
    let after = was && timer != Timer::Unmap;
    assert(m.elapsed(Timer::Dwell).1 == stop + show + tick);
    lemma_cancelled_carried_out(was, m.unmap, Timer::Unmap, timer);
    lemma_carried_out_idle(after, show, timer);
    lemma_carried_out_in_turn(was, stop, show, timer);
    lemma_arm_carried_out(after, Timer::Tick, timer);
    lemma_carried_out_in_turn(was, stop + show, tick, timer);
}

proof fn lemma_close_carried_out(m: Model, timer: Timer)
    requires
        timers_fit(m),
        m.grace,
    ensures
        carried_out(running(m, timer) && timer != Timer::Grace, m.elapsed(Timer::Grace).1, timer)
            == Some(running(m.elapsed(Timer::Grace).0, timer)),
{
    let was = running(m, timer) && timer != Timer::Grace;
    let tick = cancelled(m.tick, Timer::Tick);
    let lookup = cancelled(m.lookup_debounce, Timer::Lookup);
    let copied = cancelled(m.copy_feedback, Timer::CopyFeedback);
    let fade = seq![Action::Reveal::<Seq<char>>(false)];
    let unmap = seq![Action::Arm::<Seq<char>>(Timer::Unmap)];
    assert(m.elapsed(Timer::Grace).1 == tick + lookup + copied + fade + unmap);
    let a = was && timer != Timer::Tick;
    let b = a && timer != Timer::Lookup;
    let c = b && timer != Timer::CopyFeedback;
    lemma_cancelled_carried_out(was, m.tick, Timer::Tick, timer);
    lemma_cancelled_carried_out(a, m.lookup_debounce, Timer::Lookup, timer);
    lemma_carried_out_in_turn(was, tick, lookup, timer);
    lemma_cancelled_carried_out(b, m.copy_feedback, Timer::CopyFeedback, timer);
    lemma_carried_out_in_turn(was, tick + lookup, copied, timer);
    lemma_carried_out_idle(c, fade, timer);
    lemma_carried_out_in_turn(was, tick + lookup + copied, fade, timer);
    lemma_arm_carried_out(c, Timer::Unmap, timer);
    lemma_carried_out_in_turn(was, tick + lookup + copied + fade, unmap, timer);
}

proof fn lemma_copy_carried_out(m: Model, timer: Timer)
    ensures
        carried_out(running(m, timer), m.copy_link().1, timer) == Some(
            running(m.copy_link().0, timer),
        ),
{
    let was = running(m, timer);
    if let Some(id) = m.playing_id() {
        let copy = seq![Action::Copy(mpris::link(id))];
        let stop = cancelled(m.copy_feedback, Timer::CopyFeedback);
        let say = seq![Action::Artist("Link copied"@)];
        let arm = seq![Action::Arm::<Seq<char>>(Timer::CopyFeedback)];
        let after = was && timer != Timer::CopyFeedback;
        assert(m.copy_link().1 == copy + stop + say + arm);
        lemma_carried_out_idle(was, copy, timer);
        lemma_cancelled_carried_out(was, m.copy_feedback, Timer::CopyFeedback, timer);
        lemma_carried_out_in_turn(was, copy, stop, timer);
        lemma_carried_out_idle(after, say, timer);
        lemma_carried_out_in_turn(was, copy + stop, say, timer);
        lemma_arm_carried_out(after, Timer::CopyFeedback, timer);
        lemma_carried_out_in_turn(was, copy + stop + say, arm, timer);
    }
}

proof fn lemma_worker_carried_out(m: Model, msg: Msg, now: u64, timer: Timer)
    ensures
        carried_out(running(m, timer), m.handle(msg, now).1, timer) == Some(
            running(m.handle(msg, now).0, timer),
        ),
{
    match msg {
        Msg::Queue { generation, queue } => {
            let done = Model { queue_inflight: None, ..m };
            lemma_rows(done.take_queue(queue@, now).0, QUEUE_ROWS as nat);
        },
        Msg::QueueFailed { generation } => {
            lemma_rows(Model { queue_inflight: None, ..m }, QUEUE_ROWS as nat);
        },
        _ => {},
    }
    lemma_carried_out_idle(running(m, timer), m.handle(msg, now).1, timer);
}

proof fn lemma_schedule_carried_out(m: Model, timer: Timer)
    ensures
        carried_out(running(m, timer), m.schedule_lookups().1, timer) == Some(
            running(m.schedule_lookups().0, timer),
        ),
{
    reveal_with_fuel(carried_out, 3);
    let stop = cancelled(m.lookup_debounce, Timer::Lookup);
    assert(m.schedule_lookups().1.drop_last() == stop);
    assert(m.lookup_debounce ==> stop.drop_last() == Seq::<Action<Seq<char>>>::empty());
}

/// The timers are what the card takes them to be: no timer is started while it
/// runs or stopped while it does not, and the actions leave each as the card
/// then has it.
pub proof fn law_timers_are_as_noted(m: Model, event: Event, timer: Timer)
    requires
        timers_fit(m),
        possible(m, event),
    ensures
        carried_out(still_running(m, event, timer), m.step(event).1, timer) == Some(
            running(m.step(event).0, timer),
        ),
{
    let was = still_running(m, event, timer);
    let actions = m.step(event).1;
    match event {
        Event::Read { opening, reading, has_player, now } => {
            lemma_refresh_carried_out(
                m,
                opening,
                mpris::opt_snapshot(reading),
                has_player,
                now,
                timer,
            );
        },
        Event::Hover { is_trigger, inside } => {
            lemma_hover_carried_out(m, is_trigger, inside, timer);
        },
        Event::Elapsed(Timer::Dwell) => {
            lemma_open_carried_out(m, timer);
        },
        Event::Elapsed(Timer::Grace) => {
            lemma_close_carried_out(m, timer);
        },
        Event::Identity => {
            lemma_copy_carried_out(m, timer);
        },
        Event::Worker { msg, now } => {
            lemma_worker_carried_out(m, msg, now, timer);
        },
        _ => {
            lemma_carried_out_idle(was, actions, timer);
        },
    }
}

/// Merely crossing the strip summons nothing: the card ends up as it was.
pub proof fn law_a_crossing_summons_nothing(m: Model)
    requires
        timers_fit(m),
        !m.open,
        !m.hovered(),
    ensures
        ({
            let entered = m.set_hovered(true, true);
            let left = entered.0.set_hovered(true, false);
            &&& left.0 == m
            &&& entered.1 == seq![Action::Arm::<Seq<char>>(Timer::Dwell)]
            &&& left.1 == seq![Action::Disarm::<Seq<char>>(Timer::Dwell)]
        }),
{
}

/// Moving from the strip into the card does not close it, in whichever order the
/// two crossings are noticed.
pub proof fn law_the_handover_keeps_the_card_open(m: Model)
    requires
        timers_fit(m),
        m.open,
        m.in_trigger,
        !m.in_popup,
    ensures
        ({
            let left = m.set_hovered(true, false).0;
            let early = m.set_hovered(false, true).0;
            let handed_over = Model { in_trigger: false, in_popup: true, ..m };
            &&& left.set_hovered(false, true).0 == handed_over
            &&& early.set_hovered(true, false).0 == handed_over
        }),
{
}

/// The surface is unmapped only once the fade has ended, and a player that was
/// given a beat to settle is read before a grace period that began with it is
/// over.
pub proof fn law_delays_are_in_order()
    ensures
        Timer::Unmap.millis_of() > FADE_MS,
        SETTLE_MS < Timer::Grace.millis_of(),
{
}

/// Whether an event says that another track than the one drawn is playing.
pub open spec fn is_track_change(m: Model, event: Event) -> bool {
    event matches Event::Read { reading, .. } && m.begins_track(mpris::opt_snapshot(reading))
}

/// Every track change begins a new generation, and nothing else does.
pub proof fn law_generations_count_track_changes(m: Model, event: Event)
    requires
        m.can_count(event),
    ensures
        m.step(event).0.generation == m.generation + if is_track_change(m, event) {
            1int
        } else {
            0int
        },
{
}

/// The window never grows longer than what is fetched, as long as no more is
/// handed in than was asked for.
pub proof fn law_the_window_stays_bounded(m: Model, event: Event)
    requires
        m.queue.len() <= QUEUE_FETCH,
        event matches Event::Worker { msg: Msg::Queue { queue, .. }, .. } ==> queue@.next.len()
            <= QUEUE_FETCH,
    ensures
        m.step(event).0.queue.len() <= QUEUE_FETCH,
{
}

/// After a skip to the head of a full window every row still has a track to
/// show.
pub proof fn law_a_skip_keeps_a_full_set_of_rows(
    m: Model,
    snap: SnapshotView,
    outgoing: Option<TrackView>,
)
    requires
        m.queue.len() == QUEUE_FETCH,
        mpris::id_in(snap) matches Some(id) && m.queue[0].is(id),
    ensures
        m.slide(snap, outgoing).queue.len() == QUEUE_ROWS,
        m.slide(snap, outgoing).prev == outgoing,
        forall|i: int|
            0 <= i < QUEUE_ROWS ==> #[trigger] m.slide(snap, outgoing).queue[i] == m.queue[i + 1],
{
}

/// Skipping forward and then back leaves the queue as it was. What lies behind
/// the track is then unknown.
pub proof fn law_forward_then_back(
    m: Model,
    left: SnapshotView,
    landed: SnapshotView,
    left_track: TrackView,
)
    requires
        1 <= m.queue.len() <= QUEUE_FETCH,
        mpris::id_in(landed) matches Some(id) && m.queue[0].is(id),
        mpris::id_in(left) matches Some(id) && left_track.is(id) && (m.queue.len() > 1
            ==> !m.queue[1].is(id)),
    ensures
        m.slide(landed, Some(left_track)).slide(left, Some(m.queue[0])) == (Model {
            prev: None,
            ..m
        }),
{
    let back = m.slide(landed, Some(left_track)).slide(left, Some(m.queue[0]));
    assert(back.queue == m.queue);
}

/// Skipping back and then forward leaves the tracks ahead as they were, but for
/// one that the bounded window had to let go, and what was behind is behind
/// again.
pub proof fn law_back_then_forward(
    m: Model,
    left: SnapshotView,
    landed: SnapshotView,
    left_track: TrackView,
    landed_track: TrackView,
)
    requires
        m.queue.len() <= QUEUE_FETCH,
        mpris::id_in(landed) matches Some(id) && (m.prev matches Some(prev) && prev.is(id)) && (
        m.queue.len() > 0 ==> !m.queue[0].is(id)),
        mpris::id_in(left) matches Some(id) && left_track.is(id),
    ensures
        m.slide(landed, Some(left_track)).slide(left, Some(landed_track)) == (Model {
            prev: Some(landed_track),
            queue: if m.queue.len() == QUEUE_FETCH {
                m.queue.drop_last()
            } else {
                m.queue
            },
            ..m
        }),
{
    let again = m.slide(landed, Some(left_track)).slide(left, Some(landed_track));
    assert(again.queue == if m.queue.len() == QUEUE_FETCH {
        m.queue.drop_last()
    } else {
        m.queue
    });
}

/// A jump to a track that is neither next nor the one before, or to one without
/// an id, leaves the window alone.
pub proof fn law_a_jump_leaves_the_window_alone(
    m: Model,
    snap: SnapshotView,
    outgoing: Option<TrackView>,
)
    requires
        mpris::id_in(snap) matches Some(id) ==> !(m.queue.len() > 0 && m.queue[0].is(id)) && !(
        m.prev matches Some(prev) && prev.is(id)),
    ensures
        m.slide(snap, outgoing) == m,
{
}

/// Restarting a track shifts nothing and asks for nothing.
pub proof fn law_a_restart_shifts_nothing(
    m: Model,
    snap: SnapshotView,
    has_player: bool,
    now: u64,
)
    requires
        snap.title.len() > 0,
        snap.track_id == m.rendered,
    ensures
        m.refresh(false, Some(snap), has_player, now) == (
            Model { snap: Some(snap), ..m },
            m.draw(snap),
        ),
{
}

/// The model once a request is no longer under way.
pub open spec fn no_longer_under_way(m: Model, msg: Msg) -> Model {
    match msg {
        Msg::Art { .. } => Model { art_inflight: None, ..m },
        Msg::Queue { .. } => Model { queue_inflight: None, ..m },
        Msg::QueueFailed { .. } => Model { queue_inflight: None, ..m },
        Msg::Liked { .. } => Model { liked_inflight: None, ..m },
        Msg::Previous { .. } => Model { prev_inflight: None, ..m },
    }
}

/// A result that was asked for before the track moved on is dropped: nothing is
/// drawn and nothing learned.
pub proof fn law_stale_results_are_dropped(m: Model, msg: Msg, now: u64)
    requires
        msg.stamp() != m.generation,
    ensures
        m.handle(msg, now) == (
            no_longer_under_way(m, msg),
            Seq::<Action<Seq<char>>>::empty(),
        ),
{
}

/// Whether an action is one of the Web API lookups.
pub open spec fn is_lookup(action: Action<Seq<char>>) -> bool {
    action is FetchQueue || action is FetchLiked || action is FetchPrevious
}

pub open spec fn lookup_kind(action: Action<Seq<char>>) -> int {
    match action {
        Action::FetchQueue { .. } => 1,
        Action::FetchLiked { .. } => 2,
        Action::FetchPrevious { .. } => 3,
        _ => 0,
    }
}

/// Whether a lookup is stamped with this generation.
pub open spec fn stamped(action: Action<Seq<char>>, generation: u64) -> bool {
    match action {
        Action::FetchQueue { generation: g } => g == generation,
        Action::FetchLiked { generation: g, .. } => g == generation,
        Action::FetchPrevious { generation: g } => g == generation,
        _ => true,
    }
}

/// Lookups are made only when the debounce has run out.
#[verifier::rlimit(40)]
pub proof fn law_lookups_wait_for_the_debounce(m: Model, event: Event)
    requires
        event != Event::Elapsed(Timer::Lookup),
    ensures
        forall|i: int| 0 <= i < m.step(event).1.len() ==> !is_lookup(#[trigger] m.step(event).1[i]),
{
    match event {
        Event::Read { opening, reading, has_player, now } => {
            lemma_refresh_makes_no_lookup(
                m,
                opening,
                mpris::opt_snapshot(reading),
                has_player,
                now,
            );
        },
        Event::Worker { msg, now } => {
            lemma_worker_makes_no_lookup(m, msg, now);
        },
        Event::Elapsed(timer) => {
            lemma_elapsed_makes_no_lookup(m, timer);
        },
        _ => {},
    }
}

#[verifier::rlimit(60)]
proof fn lemma_elapsed_makes_no_lookup(m: Model, timer: Timer)
    requires
        timer != Timer::Lookup,
    ensures
        forall|i: int|
            0 <= i < m.elapsed(timer).1.len() ==> !is_lookup(#[trigger] m.elapsed(timer).1[i]),
{
}

proof fn lemma_worker_makes_no_lookup(m: Model, msg: Msg, now: u64)
    ensures
        forall|i: int|
            0 <= i < m.handle(msg, now).1.len() ==> !is_lookup(#[trigger] m.handle(msg, now).1[i]),
{
    match msg {
        Msg::Queue { generation, queue } => {
            let done = Model { queue_inflight: None, ..m };
            lemma_rows(done.take_queue(queue@, now).0, QUEUE_ROWS as nat);
        },
        Msg::QueueFailed { generation } => {
            lemma_rows(Model { queue_inflight: None, ..m }, QUEUE_ROWS as nat);
        },
        _ => {},
    }
}

/// A round of lookups asks for the queue, the saved state and the history at
/// most once each, for the generation of that moment, and a second round for
/// the same generation asks for nothing that is still under way.
pub proof fn law_a_round_asks_once(m: Model)
    ensures
        m.look_up().1.len() <= 3,
        forall|i: int, j: int|
            0 <= i < j < m.look_up().1.len() ==> #[trigger] lookup_kind(m.look_up().1[i])
                != #[trigger] lookup_kind(m.look_up().1[j]),
        forall|i: int|
            0 <= i < m.look_up().1.len() ==> is_lookup(#[trigger] m.look_up().1[i]) && stamped(
                m.look_up().1[i],
                m.generation,
            ),
        m.look_up().0.look_up().1 == Seq::<Action<Seq<char>>>::empty(),
{
}

#[verifier::rlimit(40)]
proof fn lemma_refresh_makes_no_lookup(
    m: Model,
    opening: bool,
    reading: Option<SnapshotView>,
    has_player: bool,
    now: u64,
)
    ensures
        forall|i: int|
            0 <= i < m.refresh(opening, reading, has_player, now).1.len() ==> !is_lookup(
                #[trigger] m.refresh(opening, reading, has_player, now).1[i],
            ),
{
    if let Some(snap) = reading {
        lemma_rows(m.drawn(snap).begin_track(snap.art_url).0, QUEUE_ROWS as nat);
    }
}

/// A burst of track changes costs one round of requests, for the track it ended
/// on: each change puts off the lookups that the one before it scheduled.
pub proof fn law_a_burst_costs_one_round(m: Model, event: Event)
    requires
        is_track_change(m, event),
    ensures
        m.step(event).0.lookup_debounce,
        m.step(event).1.contains(Action::Arm(Timer::Lookup)),
        m.lookup_debounce ==> m.step(event).1.contains(Action::Disarm(Timer::Lookup)),
{
    if let Event::Read { reading: Some(snap), .. } = event {
        lemma_track_change_schedules(m, snap@);
    }
}

proof fn lemma_track_change_schedules(m: Model, snap: SnapshotView)
    ensures
        ({
            let begun = m.drawn(snap).begin_track(snap.art_url);
            let actions = m.draw(snap) + begun.1;
            &&& begun.0.lookup_debounce
            &&& actions.contains(Action::Arm(Timer::Lookup))
            &&& m.lookup_debounce ==> actions.contains(Action::Disarm(Timer::Lookup))
        }),
{
    let drawn = m.drawn(snap);
    let painted = drawn.apply_liked(None);
    let scheduled = painted.0.schedule_lookups();
    let art = seq![Action::Art { url: snap.art_url, generation: drawn.generation }];
    let first = m.draw(snap) + art + painted.1;
    let actions = m.draw(snap) + drawn.begin_track(snap.art_url).1;
    assert(actions == first + scheduled.1 + scheduled.0.render_queue());
    assert(actions[first.len() + scheduled.1.len() - 1] == Action::Arm::<Seq<char>>(Timer::Lookup));
    if m.lookup_debounce {
        assert(actions[first.len() as int] == Action::Disarm::<Seq<char>>(Timer::Lookup));
    }
}

/// The history is asked only where local history can't supply the track before.
pub proof fn law_local_history_comes_first(m: Model)
    requires
        m.prev is Some,
    ensures
        forall|i: int|
            0 <= i < m.look_up().1.len() ==> !(#[trigger] m.look_up().1[i] is FetchPrevious),
{
}

/// What history says is never taken for the track before where it names the one
/// that is playing.
pub proof fn law_an_echo_is_discarded(m: Model, track: TrackView)
    requires
        track.is(or_empty(m.playing_id())),
    ensures
        m.take_previous(Some(track)) == m,
{
}

/// A change of track blanks nothing: every row that is drawn shows a track of
/// the window, the rows past its end and the art hold what they show.
#[verifier::rlimit(40)]
pub proof fn law_a_track_change_blanks_nothing(m: Model, event: Event)
    requires
        is_track_change(m, event),
    ensures
        forall|i: int|
            0 <= i < m.step(event).1.len() ==> !(#[trigger] m.step(event).1[i] is ArtPlaceholder)
                && (m.step(event).1[i] matches Action::QueueRow { index, label } ==> index
                < m.step(event).0.queue.len() && label == m.step(event).0.queue[index as int].title
                + "  ·  "@ + m.step(event).0.queue[index as int].artist),
{
    if let Event::Read { reading: Some(snap), .. } = event {
        lemma_rows(m.drawn(snap@).begin_track(snap@.art_url).0, QUEUE_ROWS as nat);
    }
}

/// Art that is still to be fetched leaves what is shown in place.
pub proof fn law_art_is_held_until_it_is_fetched(m: Model, url: Seq<char>, generation: u64)
    requires
        url.len() > 0,
    ensures
        forall|i: int|
            0 <= i < m.set_art(url, generation, None).1.len()
                ==> #[trigger] m.set_art(url, generation, None).1[i] is FetchArt,
{
}

/// A row is blanked only once no fresh rows are on their way.
pub proof fn law_rows_are_held_while_a_fetch_is_pending(m: Model, index: int)
    requires
        m.queue_pending(),
        index >= m.queue.len(),
    ensures
        m.row(index) is None,
{
}

/// Without an active playback session the queue comes back empty, and once no
/// other is on its way every row shows a dash.
pub proof fn law_an_empty_queue_shows_dashes(m: Model, queue: QueueView, now: u64, index: int)
    requires
        queue.next.len() == 0,
        !m.queue_pending(),
        0 <= index < QUEUE_ROWS,
    ensures
        m.take_queue(queue, now).0.row(index) == Some("—"@),
{
}

/// The star shows the new state at once, and ends up with it where Spotify
/// accepts and with the old one where it refuses.
pub proof fn law_a_refused_toggle_is_reverted(m: Model, accepted: bool, now: u64)
    requires
        m.liked is Some,
        m.playing_id() is Some,
    ensures
        ({
            let current = m.liked->0;
            let shown = m.toggle_liked().0;
            let reply = Msg::Liked {
                generation: m.generation,
                liked: settled_as(accepted, current, !current),
            };
            &&& shown.liked == Some(!current)
            &&& shown.handle(reply, now).0.liked == Some(
                if accepted {
                    !current
                } else {
                    current
                },
            )
        }),
{
}

/// A stale artist list is never attributed to another track than its own.
pub proof fn law_artist_lists_stay_with_their_track(m: Model, snap: SnapshotView)
    requires
        m.artists matches Some((for_id, _)) ==> mpris::id_in(snap) != Some(for_id),
    ensures
        m.track_of(snap).artist == snap.artist,
        !m.copy_feedback ==> m.render_artist(snap) == seq![Action::Artist(snap.artist)],
{
}

/// The copy confirmation stays until its time is up: nothing else is written
/// where it shows.
pub proof fn law_the_tick_leaves_the_confirmation(m: Model, snap: SnapshotView)
    requires
        m.copy_feedback,
    ensures
        m.render_artist(snap) == Seq::<Action<Seq<char>>>::empty(),
{
}

/// A time reads as minutes, a colon, and the seconds as two digits below sixty.
pub proof fn law_clock_has_two_digit_seconds(microseconds: i64)
    ensures
        ({
            let s = clock_text(microseconds);
            let seconds = seconds_in(microseconds);
            let tail = s.skip(s.len() - 3);
            &&& s.len() >= 4
            &&& s.take(s.len() - 3) == text::decimal(seconds / 60)
            &&& tail == seq![':', text::digit(seconds % 60 / 10), text::digit(seconds % 10)]
        }),
{
    reveal_strlit(":");
    reveal_strlit("0");
    reveal_with_fuel(text::decimal, 2);
    let s = clock_text(microseconds);
    let seconds = seconds_in(microseconds);
    let minutes = text::decimal(seconds / 60);
    assert(minutes.len() >= 1);
    assert(seconds % 60 % 10 == seconds % 10);
    assert(s == minutes + seq![':', text::digit(seconds % 60 / 10), text::digit(seconds % 10)]);
    assert(s.take(s.len() - 3) == minutes);
}

} // verus!
