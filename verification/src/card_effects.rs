//! What each event comes to: what is then shown, asked for and remembered.
use crate::api::{Queue, Track, TrackView};
use crate::card::{
    acts, clock_text, seconds_in, settled_as, Action, Acts, Event, Model, Msg, State, Timer, FADE_MS,
    ICON_LIKED, ICON_NO_ART, ICON_PAUSE, ICON_PLAY, ICON_UNLIKED, SETTLE_MS,
};
use crate::mpris;
use crate::mpris::{Snapshot, SnapshotView};
use vstd::prelude::*;

verus! {

/// What an action is about. Two actions of one kind would undo or repeat each
/// other.
pub enum Kind {
    Arm(Timer),
    Disarm(Timer),
    Refresh,
    RefreshSoon,
    Present,
    RevealWhenIdle,
    Reveal,
    Hide,
    ReleaseHeap,
    Face,
    Title,
    Artist,
    PlayIcon,
    Progress,
    Elapsed,
    Total,
    Art,
    ArtShown,
    FetchArt,
    Star,
    Row(int),
    FetchQueue,
    FetchLiked,
    FetchPrevious,
    SetLiked,
    Copy,
}

pub open spec fn kind(action: Action<Seq<char>>) -> Kind {
    match action {
        Action::Arm(t) => Kind::Arm(t),
        Action::Disarm(t) => Kind::Disarm(t),
        Action::Refresh { .. } => Kind::Refresh,
        Action::RefreshSoon => Kind::RefreshSoon,
        Action::Present => Kind::Present,
        Action::RevealWhenIdle => Kind::RevealWhenIdle,
        Action::Reveal(_) => Kind::Reveal,
        Action::Hide => Kind::Hide,
        Action::ReleaseHeap => Kind::ReleaseHeap,
        Action::ShowIdle(_) => Kind::Face,
        Action::ShowPlaying => Kind::Face,
        Action::Title(_) => Kind::Title,
        Action::Artist(_) => Kind::Artist,
        Action::PlayIcon { .. } => Kind::PlayIcon,
        Action::Progress { .. } => Kind::Progress,
        Action::Elapsed(_) => Kind::Elapsed,
        Action::Total(_) => Kind::Total,
        Action::Art { .. } => Kind::Art,
        Action::ArtFile(_) => Kind::ArtShown,
        Action::ArtPlaceholder => Kind::ArtShown,
        Action::FetchArt { .. } => Kind::FetchArt,
        Action::LikeFace { .. } => Kind::Star,
        Action::QueueRow { index, .. } => Kind::Row(index as int),
        Action::FetchQueue { .. } => Kind::FetchQueue,
        Action::FetchLiked { .. } => Kind::FetchLiked,
        Action::FetchPrevious { .. } => Kind::FetchPrevious,
        Action::SetLiked { .. } => Kind::SetLiked,
        Action::Copy(_) => Kind::Copy,
    }
}

/// Whether there is no action of a kind.
pub open spec fn none(actions: Acts, k: Kind) -> bool {
    forall|i: int| 0 <= i < actions.len() ==> kind(#[trigger] actions[i]) != k
}

/// Whether `action` is there once, and no other of its kind.
pub open spec fn sole(actions: Acts, action: Action<Seq<char>>) -> bool {
    exists|i: int|
        0 <= i < actions.len() && #[trigger] actions[i] == action && forall|j: int|
            0 <= j < actions.len() && kind(#[trigger] actions[j]) == kind(action) ==> j == i
}

proof fn lemma_none_join(a: Acts, b: Acts, k: Kind)
    requires
        none(a, k),
        none(b, k),
    ensures
        none(a + b, k),
{
    assert forall|i: int| 0 <= i < (a + b).len() implies kind(#[trigger] (a + b)[i]) != k by {
        if i < a.len() {
            assert((a + b)[i] == a[i]);
        } else {
            assert((a + b)[i] == b[i - a.len()]);
        }
    }
}

proof fn lemma_sole_join(a: Acts, b: Acts, action: Action<Seq<char>>)
    requires
        sole(a, action) && none(b, kind(action)) || none(a, kind(action)) && sole(b, action),
    ensures
        sole(a + b, action),
{
    let whole = a + b;
    let at = if sole(a, action) && none(b, kind(action)) {
        choose|i: int|
            0 <= i < a.len() && #[trigger] a[i] == action && forall|j: int|
                0 <= j < a.len() && kind(#[trigger] a[j]) == kind(action) ==> j == i
    } else {
        a.len() + choose|i: int|
            0 <= i < b.len() && #[trigger] b[i] == action && forall|j: int|
                0 <= j < b.len() && kind(#[trigger] b[j]) == kind(action) ==> j == i
    };
    assert(whole[at] == action);
    assert forall|j: int|
        0 <= j < whole.len() && kind(#[trigger] whole[j]) == kind(action) implies j == at by {
        if j < a.len() {
            assert(whole[j] == a[j]);
        } else {
            assert(whole[j] == b[j - a.len()]);
        }
    }
}

/// Whether every action is of one of these kinds.
pub open spec fn only(actions: Acts, kinds: Set<Kind>) -> bool {
    forall|i: int| 0 <= i < actions.len() ==> kinds.contains(kind(#[trigger] actions[i]))
}

/// The label of a row that shows this track.
pub open spec fn row_label(track: TrackView) -> Seq<char> {
    track.title + "  ·  "@ + track.artist
}

proof fn lemma_rows(m: Model, count: nat)
    requires
        count <= 3,
    ensures
        forall|i: int|
            0 <= i < m.rows(count).len() ==> (#[trigger] m.rows(count)[i] matches Action::QueueRow {
                index,
                ..
            } && index < count),
        forall|index: usize|
            index < count && index < m.queue.len() ==> #[trigger] sole(
                m.rows(count),
                Action::QueueRow { index, label: row_label(m.queue[index as int]) },
            ),
        forall|index: usize|
            index < count && index >= m.queue.len() && !m.queue_pending() ==> #[trigger] sole(
                m.rows(count),
                Action::QueueRow { index, label: "—"@ },
            ),
        m.queue_pending() ==> forall|index: int|
            index >= m.queue.len() ==> #[trigger] none(m.rows(count), Kind::Row(index)),
    decreases count,
{
    if count > 0 {
        let above = m.rows((count - 1) as nat);
        lemma_rows(m, (count - 1) as nat);
        match m.row(count - 1) {
            Some(label) => {
                let drawn = Action::QueueRow { index: (count - 1) as usize, label };
                let last = seq![drawn];
                assert(m.rows(count) == above + last);
                assert(last[0] == drawn);
                assert(none(above, kind(drawn)));
                assert(sole(last, drawn));
                lemma_sole_join(above, last, drawn);
                assert forall|index: usize|
                    index < count && index < m.queue.len() implies #[trigger] sole(
                    m.rows(count),
                    Action::QueueRow { index, label: row_label(m.queue[index as int]) },
                ) by {
                    let row = Action::QueueRow { index, label: row_label(m.queue[index as int]) };
                    if index < count - 1 {
                        assert(sole(above, row));
                        assert(none(last, kind(row)));
                        lemma_sole_join(above, last, row);
                    }
                }
                assert forall|index: usize|
                    index < count && index >= m.queue.len()
                        && !m.queue_pending() implies #[trigger] sole(
                    m.rows(count),
                    Action::QueueRow { index, label: "—"@ },
                ) by {
                    let row = Action::QueueRow { index, label: "—"@ };
                    if index < count - 1 {
                        assert(sole(above, row));
                        assert(none(last, kind(row)));
                        lemma_sole_join(above, last, row);
                    }
                }
                if m.queue_pending() {
                    assert forall|index: int| index >= m.queue.len() implies #[trigger] none(
                        m.rows(count),
                        Kind::Row(index),
                    ) by {
                        assert(none(above, Kind::Row(index)));
                        lemma_none_join(above, last, Kind::Row(index));
                    }
                }
            },
            None => {
                assert(m.rows(count) == above);
            },
        }
    }
}

/// Whether the up-next list is drawn from a model: each of the three rows that
/// the queue has a track for shows it, fetch or no fetch; a row past its end is
/// left as it is while fresh rows are on their way, and else shows a dash.
pub open spec fn rows_drawn(actions: Acts, m: Model) -> bool {
    &&& forall|index: usize|
        index < 3 && index < m.queue.len() ==> #[trigger] sole(
            actions,
            Action::QueueRow { index, label: row_label(m.queue[index as int]) },
        )
    &&& forall|index: usize|
        m.queue.len() <= index < 3 && m.queue_inflight is None && !m.lookup_debounce
            ==> #[trigger] sole(actions, Action::QueueRow { index, label: "—"@ })
    &&& m.queue_inflight is Some || m.lookup_debounce ==> forall|index: int|
        index >= m.queue.len() ==> #[trigger] none(actions, Kind::Row(index))
    &&& forall|index: int| index >= 3 ==> #[trigger] none(actions, Kind::Row(index))
}

/// Drawing the queue shows its tracks in the three rows, fetch or no fetch, and
/// does nothing else: a row past the end is left as it is while fresh rows are on
/// their way, and else shows a dash.
pub proof fn law_rows_show_the_queue(m: Model)
    ensures
        rows_drawn(m.render_queue(), m),
        forall|index: usize|
            index < 3 && index < m.queue.len() ==> #[trigger] sole(
                m.render_queue(),
                Action::QueueRow {
                    index,
                    label: m.queue[index as int].title + "  ·  "@ + m.queue[index as int].artist,
                },
            ),
        forall|index: usize|
            m.queue.len() <= index < 3 && m.queue_inflight is None && !m.lookup_debounce
                ==> #[trigger] sole(m.render_queue(), Action::QueueRow { index, label: "—"@ }),
        m.queue_inflight is Some || m.lookup_debounce ==> forall|index: int|
            index >= m.queue.len() ==> #[trigger] none(m.render_queue(), Kind::Row(index)),
        only(m.render_queue(), set![Kind::Row(0), Kind::Row(1), Kind::Row(2)]),
{
    lemma_rows(m, 3);
    assert forall|index: usize| index < 3 && index < m.queue.len() implies #[trigger] sole(
        m.render_queue(),
        Action::QueueRow {
            index,
            label: m.queue[index as int].title + "  ·  "@ + m.queue[index as int].artist,
        },
    ) by {
        assert(sole(
            m.rows(3),
            Action::QueueRow { index, label: row_label(m.queue[index as int]) },
        ));
    }
}

proof fn lemma_sole_at(actions: Acts, at: int, action: Action<Seq<char>>)
    requires
        0 <= at < actions.len(),
        actions[at] == action,
        forall|j: int|
            0 <= j < actions.len() && kind(#[trigger] actions[j]) == kind(action) ==> j == at,
    ensures
        sole(actions, action),
{
}

/// Whether the artist line is left alone while a copy confirmation shows in it,
/// and else says these artists.
pub open spec fn artist_drawn(actions: Acts, confirming: bool, artists: Seq<char>) -> bool {
    if confirming {
        none(actions, Kind::Artist)
    } else {
        sole(actions, Action::Artist(artists))
    }
}

/// Whether the player is drawn as a snapshot has it, each part once.
pub open spec fn player_drawn(actions: Acts, snap: SnapshotView) -> bool {
    &&& sole(actions, Action::ShowPlaying)
    &&& sole(actions, Action::Title(snap.title))
    &&& sole(actions, Action::PlayIcon { playing: snap.playing })
    &&& sole(
        actions,
        Action::Progress { position_us: snap.position_us, length_us: snap.length_us },
    )
    &&& sole(actions, Action::Elapsed(clock_text(snap.position_us)))
    &&& sole(actions, Action::Total(clock_text(snap.length_us)))
}

proof fn lemma_draw(m: Model, snap: SnapshotView)
    ensures
        player_drawn(m.draw(snap), snap),
        artist_drawn(m.draw(snap), m.copy_feedback, m.artist_line(snap)),
        only(
            m.draw(snap),
            set![
                Kind::Face,
                Kind::Title,
                Kind::Artist,
                Kind::PlayIcon,
                Kind::Progress,
                Kind::Elapsed,
                Kind::Total,
            ],
        ),
{
    let drawn = m.draw(snap);
    let more = if m.copy_feedback {
        0int
    } else {
        1int
    };
    assert(drawn.len() == 6 + more);
    lemma_sole_at(drawn, 0, Action::ShowPlaying);
    lemma_sole_at(drawn, 1, Action::Title(snap.title));
    if !m.copy_feedback {
        lemma_sole_at(drawn, 2, Action::Artist(m.artist_line(snap)));
    }
    lemma_sole_at(drawn, 2 + more, Action::PlayIcon { playing: snap.playing });
    lemma_sole_at(
        drawn,
        3 + more,
        Action::Progress { position_us: snap.position_us, length_us: snap.length_us },
    );
    lemma_sole_at(drawn, 4 + more, Action::Elapsed(clock_text(snap.position_us)));
    lemma_sole_at(drawn, 5 + more, Action::Total(clock_text(snap.length_us)));
}

/// What follows the drawing of the player when the player was read.
spec fn changes(m: Model, opening: bool, snap: SnapshotView, now: u64) -> Acts {
    let drawn = m.drawn(snap);
    if m.rendered != snap.track_id {
        drawn.begin_track(snap.art_url).1
    } else if opening && (drawn.queue_stale(now) || drawn.liked is None) {
        drawn.schedule_lookups().1
    } else {
        Seq::empty()
    }
}

proof fn lemma_player_drawn_join(a: Acts, b: Acts, snap: SnapshotView)
    requires
        player_drawn(a, snap),
        none(b, Kind::Face),
        none(b, Kind::Title),
        none(b, Kind::PlayIcon),
        none(b, Kind::Progress),
        none(b, Kind::Elapsed),
        none(b, Kind::Total),
    ensures
        player_drawn(a + b, snap),
{
    lemma_sole_join(a, b, Action::ShowPlaying);
    lemma_sole_join(a, b, Action::Title(snap.title));
    lemma_sole_join(a, b, Action::PlayIcon { playing: snap.playing });
    lemma_sole_join(
        a,
        b,
        Action::Progress { position_us: snap.position_us, length_us: snap.length_us },
    );
    lemma_sole_join(a, b, Action::Elapsed(clock_text(snap.position_us)));
    lemma_sole_join(a, b, Action::Total(clock_text(snap.length_us)));
}

spec fn change_kinds() -> Set<Kind> {
    set![
        Kind::Art,
        Kind::Star,
        Kind::Arm(Timer::Lookup),
        Kind::Disarm(Timer::Lookup),
        Kind::Row(0),
        Kind::Row(1),
        Kind::Row(2),
    ]
}

proof fn lemma_schedule(m: Model)
    ensures
        sole(m.schedule_lookups().1, Action::Arm(Timer::Lookup)),
        m.lookup_debounce ==> sole(m.schedule_lookups().1, Action::Disarm(Timer::Lookup)),
        !m.lookup_debounce ==> none(m.schedule_lookups().1, Kind::Disarm(Timer::Lookup)),
        only(
            m.schedule_lookups().1,
            set![Kind::Arm(Timer::Lookup), Kind::Disarm(Timer::Lookup)],
        ),
{
    let a = m.schedule_lookups().1;
    if m.lookup_debounce {
        lemma_sole_at(a, 0, Action::Disarm(Timer::Lookup));
        lemma_sole_at(a, 1, Action::Arm(Timer::Lookup));
    } else {
        lemma_sole_at(a, 0, Action::Arm(Timer::Lookup));
    }
}

proof fn lemma_rows_drawn_join(a: Acts, b: Acts, m: Model)
    requires
        rows_drawn(b, m),
        forall|index: int| #[trigger] none(a, Kind::Row(index)),
    ensures
        rows_drawn(a + b, m),
{
    assert forall|index: usize| index < 3 && index < m.queue.len() implies #[trigger] sole(
        a + b,
        Action::QueueRow { index, label: row_label(m.queue[index as int]) },
    ) by {
        let row = Action::QueueRow { index, label: row_label(m.queue[index as int]) };
        assert(none(a, Kind::Row(index as int)));
        assert(sole(b, row));
        lemma_sole_join(a, b, row);
    }
    assert forall|index: usize|
        m.queue.len() <= index < 3 && m.queue_inflight is None
            && !m.lookup_debounce implies #[trigger] sole(
        a + b,
        Action::QueueRow { index, label: "—"@ },
    ) by {
        let row = Action::QueueRow { index, label: "—"@ };
        assert(none(a, Kind::Row(index as int)));
        assert(sole(b, row));
        lemma_sole_join(a, b, row);
    }
    assert forall|index: int| none(b, Kind::Row(index)) implies #[trigger] none(
        a + b,
        Kind::Row(index),
    ) by {
        assert(none(a, Kind::Row(index)));
        lemma_none_join(a, b, Kind::Row(index));
    }
}

proof fn lemma_rows_drawn_then(a: Acts, b: Acts, m: Model)
    requires
        rows_drawn(a, m),
        forall|index: int| #[trigger] none(b, Kind::Row(index)),
    ensures
        rows_drawn(a + b, m),
{
    assert forall|index: usize| index < 3 && index < m.queue.len() implies #[trigger] sole(
        a + b,
        Action::QueueRow { index, label: row_label(m.queue[index as int]) },
    ) by {
        let row = Action::QueueRow { index, label: row_label(m.queue[index as int]) };
        assert(none(b, Kind::Row(index as int)));
        assert(sole(a, row));
        lemma_sole_join(a, b, row);
    }
    assert forall|index: usize|
        m.queue.len() <= index < 3 && m.queue_inflight is None
            && !m.lookup_debounce implies #[trigger] sole(
        a + b,
        Action::QueueRow { index, label: "—"@ },
    ) by {
        let row = Action::QueueRow { index, label: "—"@ };
        assert(none(b, Kind::Row(index as int)));
        assert(sole(a, row));
        lemma_sole_join(a, b, row);
    }
    assert forall|index: int| none(a, Kind::Row(index)) implies #[trigger] none(
        a + b,
        Kind::Row(index),
    ) by {
        assert(none(b, Kind::Row(index)));
        lemma_none_join(a, b, Kind::Row(index));
    }
}

/// Whether the lookups are put off: the timer is started, after it is stopped
/// where it was running.
pub open spec fn lookups_put_off(actions: Acts, running: bool) -> bool {
    &&& sole(actions, Action::Arm(Timer::Lookup))
    &&& running ==> sole(actions, Action::Disarm(Timer::Lookup))
    &&& !running ==> none(actions, Kind::Disarm(Timer::Lookup))
}

proof fn lemma_put_off_join(a: Acts, b: Acts, running: bool)
    requires
        lookups_put_off(a, running) && none(b, Kind::Arm(Timer::Lookup)) && none(
            b,
            Kind::Disarm(Timer::Lookup),
        ) || lookups_put_off(b, running) && none(a, Kind::Arm(Timer::Lookup)) && none(
            a,
            Kind::Disarm(Timer::Lookup),
        ),
    ensures
        lookups_put_off(a + b, running),
{
    lemma_sole_join(a, b, Action::Arm(Timer::Lookup));
    if running {
        lemma_sole_join(a, b, Action::Disarm(Timer::Lookup));
    } else {
        lemma_none_join(a, b, Kind::Disarm(Timer::Lookup));
    }
}

proof fn lemma_begin_track(m: Model, art_url: Seq<char>)
    ensures
        ({
            let (after, actions) = m.begin_track(art_url);
            &&& after == (Model { liked: None, lookup_debounce: true, ..m })
            &&& sole(actions, Action::Art { url: art_url, generation: m.generation })
            &&& sole(actions, Action::LikeFace { starred: false, unknown: true })
            &&& lookups_put_off(actions, m.lookup_debounce)
            &&& rows_drawn(actions, after)
            &&& only(actions, change_kinds())
        }),
{
    let (after, actions) = m.begin_track(art_url);
    let first = seq![Action::Art { url: art_url, generation: m.generation }]
        + m.apply_liked(None).1;
    let second = m.apply_liked(None).0.schedule_lookups().1;
    let rows = after.render_queue();
    assert(actions == first + second + rows);
    law_rows_show_the_queue(after);
    lemma_schedule(m.apply_liked(None).0);
    lemma_sole_at(first, 0, Action::Art { url: art_url, generation: m.generation });
    lemma_sole_at(first, 1, Action::LikeFace { starred: false, unknown: true });
    lemma_sole_join(first, second, Action::Art { url: art_url, generation: m.generation });
    lemma_sole_join(
        first + second,
        rows,
        Action::Art { url: art_url, generation: m.generation },
    );
    lemma_sole_join(first, second, Action::LikeFace { starred: false, unknown: true });
    lemma_sole_join(first + second, rows, Action::LikeFace { starred: false, unknown: true });
    lemma_put_off_join(first, second, m.lookup_debounce);
    lemma_put_off_join(first + second, rows, m.lookup_debounce);
    assert forall|index: int| #[trigger] none(first + second, Kind::Row(index)) by {
        lemma_none_join(first, second, Kind::Row(index));
    }
    lemma_rows_drawn_join(first + second, rows, after);
}

/// A reading.
pub open spec fn read(
    opening: bool,
    reading: Option<Snapshot>,
    has_player: bool,
    now: u64,
) -> Event {
    Event::Read { opening, reading, has_player, now }
}

/// Whether a reading gives reason to look things up again: another track, or a
/// card that opens on what is unknown or ten seconds old.
pub open spec fn calls_for_lookups(m: Model, opening: bool, snap: SnapshotView, now: u64) -> bool {
    ||| snap.track_id != m.rendered
    ||| opening && m.liked is None
    ||| opening && now - m.queue_fetched_at >= 10
}

/// A reading with a title is drawn as it is: the title, whether it plays, how far
/// it has come and how long it is, each once.
pub proof fn law_a_reading_is_drawn(
    m: Model,
    opening: bool,
    snap: Snapshot,
    has_player: bool,
    now: u64,
)
    requires
        snap@.title.len() > 0,
    ensures
        ({
            let actions = m.step(Event::Read { opening, reading: Some(snap), has_player, now }).1;
            &&& sole(actions, Action::ShowPlaying)
            &&& sole(actions, Action::Title(snap@.title))
            &&& sole(actions, Action::PlayIcon { playing: snap@.playing })
            &&& sole(
                actions,
                Action::Progress { position_us: snap@.position_us, length_us: snap@.length_us },
            )
            &&& sole(actions, Action::Elapsed(clock_text(snap@.position_us)))
            &&& sole(actions, Action::Total(clock_text(snap@.length_us)))
            &&& m.copy_feedback ==> none(actions, Kind::Artist)
            &&& !m.copy_feedback && m.artists is None ==> sole(
                actions,
                Action::Artist(snap@.artist),
            )
            &&& m.artists matches Some((id, list)) ==> (!m.copy_feedback && mpris::id_in(snap@)
                == Some(id) ==> sole(actions, Action::Artist(list)))
            &&& m.artists matches Some((id, _)) ==> (!m.copy_feedback && mpris::id_in(snap@)
                != Some(id) ==> sole(actions, Action::Artist(snap@.artist)))
        }),
{
    let actions = m.step(read(opening, Some(snap), has_player, now)).1;
    let rest = changes(m, opening, snap@, now);
    assert(actions == m.draw(snap@) + rest);
    lemma_draw(m, snap@);
    lemma_begin_track(m.drawn(snap@), snap@.art_url);
    lemma_schedule(m.drawn(snap@));
    assert(only(rest, change_kinds()));
    lemma_player_drawn_join(m.draw(snap@), rest, snap@);
    let artists = m.artist_line(snap@);
    if m.copy_feedback {
        lemma_none_join(m.draw(snap@), rest, Kind::Artist);
    } else {
        lemma_sole_join(m.draw(snap@), rest, Action::Artist(artists));
    }
}

/// What a reading of another track begins: its art is looked for, the star reads
/// as unknown, the lookups are put off, and the window is drawn as it now is. A
/// reading of the same track does none of this, but for the lookups, which it may
/// call for when the card opens.
pub proof fn law_another_track_is_begun(
    m: Model,
    opening: bool,
    snap: Snapshot,
    has_player: bool,
    now: u64,
)
    requires
        snap@.title.len() > 0,
        snap@.track_id != m.rendered ==> m.generation < u64::MAX,
    ensures
        ({
            let (after, actions) = m.step(read(opening, Some(snap), has_player, now));
            let changed = snap@.track_id != m.rendered;
            &&& changed ==> sole(
                actions,
                Action::Art { url: snap@.art_url, generation: (m.generation + 1) as u64 },
            )
            &&& changed ==> sole(actions, Action::LikeFace { starred: false, unknown: true })
            &&& changed ==> rows_drawn(actions, after)
            &&& !changed ==> none(actions, Kind::Art) && none(actions, Kind::Star) && forall|
                index: int,
            | #[trigger] none(actions, Kind::Row(index))
            &&& if calls_for_lookups(m, opening, snap@, now) {
                lookups_put_off(actions, m.lookup_debounce)
            } else {
                none(actions, Kind::Arm(Timer::Lookup)) && none(
                    actions,
                    Kind::Disarm(Timer::Lookup),
                )
            }
        }),
{
    let actions = m.step(read(opening, Some(snap), has_player, now)).1;
    let after = m.step(read(opening, Some(snap), has_player, now)).0;
    let rest = changes(m, opening, snap@, now);
    let drawing = m.draw(snap@);
    assert(actions == drawing + rest);
    lemma_draw(m, snap@);
    let drawn = m.drawn(snap@);
    if m.rendered != snap@.track_id {
        lemma_begin_track(drawn, snap@.art_url);
        lemma_sole_join(
            drawing,
            rest,
            Action::Art { url: snap@.art_url, generation: drawn.generation },
        );
        lemma_sole_join(drawing, rest, Action::LikeFace { starred: false, unknown: true });
        lemma_rows_drawn_join(drawing, rest, after);
        lemma_put_off_join(drawing, rest, m.lookup_debounce);
    } else {
        lemma_schedule(drawn);
        lemma_none_join(drawing, rest, Kind::Art);
        lemma_none_join(drawing, rest, Kind::Star);
        assert forall|index: int| #[trigger] none(actions, Kind::Row(index)) by {
            lemma_none_join(drawing, rest, Kind::Row(index));
        }
        if calls_for_lookups(m, opening, snap@, now) {
            lemma_put_off_join(drawing, rest, m.lookup_debounce);
        } else {
            lemma_none_join(drawing, rest, Kind::Arm(Timer::Lookup));
            lemma_none_join(drawing, rest, Kind::Disarm(Timer::Lookup));
        }
    }
}

/// A reading does nothing else: no surface is moved, nothing is fetched or
/// changed, and the art that is shown stays.
pub proof fn law_a_reading_only_draws(
    m: Model,
    opening: bool,
    reading: Option<Snapshot>,
    has_player: bool,
    now: u64,
)
    ensures
        only(
            m.step(read(opening, reading, has_player, now)).1,
            set![
                Kind::Face,
                Kind::Title,
                Kind::Artist,
                Kind::PlayIcon,
                Kind::Progress,
                Kind::Elapsed,
                Kind::Total,
                Kind::Art,
                Kind::Star,
                Kind::Arm(Timer::Lookup),
                Kind::Disarm(Timer::Lookup),
                Kind::Row(0),
                Kind::Row(1),
                Kind::Row(2),
            ],
        ),
{
    if let Some(snap) = reading {
        lemma_draw(m, snap@);
        lemma_begin_track(m.drawn(snap@), snap@.art_url);
        lemma_schedule(m.drawn(snap@));
    }
}

/// What a reading with a title leaves behind: the snapshot, and which track is
/// drawn. Only another track changes the window, the star and the generation.
pub proof fn law_a_reading_is_remembered(
    m: Model,
    opening: bool,
    snap: Snapshot,
    has_player: bool,
    now: u64,
)
    requires
        snap@.title.len() > 0,
        snap@.track_id != m.rendered ==> m.generation < u64::MAX,
    ensures
        ({
            let after = m.step(read(opening, Some(snap), has_player, now)).0;
            let changed = snap@.track_id != m.rendered;
            &&& after == (Model {
                snap: Some(snap@),
                rendered: snap@.track_id,
                generation: (m.generation + if changed {
                    1int
                } else {
                    0int
                }) as u64,
                liked: if changed {
                    None
                } else {
                    m.liked
                },
                lookup_debounce: m.lookup_debounce || calls_for_lookups(m, opening, snap@, now),
                queue: after.queue,
                prev: after.prev,
                ..m
            })
            &&& !changed ==> after.queue == m.queue && after.prev == m.prev
        }),
{
}

/// Where the player has nothing to say, one line says so in place of it, and no
/// track counts as drawn.
pub proof fn law_silence_is_said(
    m: Model,
    opening: bool,
    reading: Option<Snapshot>,
    has_player: bool,
    now: u64,
)
    requires
        reading matches Some(snap) ==> snap@.title.len() == 0,
    ensures
        ({
            let (after, actions) = m.step(read(opening, reading, has_player, now));
            &&& actions == seq![
                Action::ShowIdle(
                    if has_player {
                        "Nothing playing"@
                    } else {
                        "No session bus"@
                    },
                ),
            ]
            &&& after == (Model { snap: None, rendered: Seq::empty(), ..m })
        }),
{
}

/// A snapshot as a track keeps its title, its id and its artists.
pub proof fn law_a_snapshot_becomes_its_track(m: Model, snap: SnapshotView)
    ensures
        m.track_of(snap).title == snap.title,
        mpris::id_in(snap) matches Some(id) ==> m.track_of(snap).id == id,
        mpris::id_in(snap) is None ==> m.track_of(snap).id.len() == 0,
        m.artists matches Some((id, list)) ==> (mpris::id_in(snap) == Some(id) ==> m.track_of(
            snap,
        ).artist == list),
        m.artists matches Some((id, _)) ==> (mpris::id_in(snap) != Some(id) ==> m.track_of(
            snap,
        ).artist == snap.artist),
        m.artists is None ==> m.track_of(snap).artist == snap.artist,
{
}

/// A skip forward, onto the head of the queue: the head is taken off and nothing
/// else, and what was drawn before is now behind, with its own title.
pub proof fn law_a_skip_forward_shifts_the_window(
    m: Model,
    opening: bool,
    before: SnapshotView,
    snap: Snapshot,
    has_player: bool,
    now: u64,
)
    requires
        snap@.title.len() > 0,
        snap@.track_id != m.rendered,
        m.snap == Some(before),
        m.queue.len() > 0,
        m.queue[0].id.len() > 0,
        mpris::id_in(snap@) == Some(m.queue[0].id),
    ensures
        ({
            let after = m.step(read(opening, Some(snap), has_player, now)).0;
            &&& after.queue.len() == m.queue.len() - 1
            &&& forall|i: int| 0 <= i < after.queue.len() ==> #[trigger] after.queue[i] == m.queue[i
                + 1]
            &&& after.prev matches Some(left) && left.title == before.title && left == m.track_of(
                before,
            )
        }),
{
}

/// A skip back, onto the track behind: what was drawn before goes to the head of
/// the queue, with its own title, in front of the rest, of which the last goes
/// where there are more than four. What lies further behind is unknown.
pub proof fn law_a_skip_back_shifts_the_window(
    m: Model,
    opening: bool,
    before: SnapshotView,
    snap: Snapshot,
    has_player: bool,
    now: u64,
)
    requires
        snap@.title.len() > 0,
        snap@.track_id != m.rendered,
        m.snap == Some(before),
        m.prev matches Some(prev) && prev.id.len() > 0 && mpris::id_in(snap@) == Some(prev.id),
        m.queue.len() > 0 ==> mpris::id_in(snap@) != Some(m.queue[0].id),
    ensures
        ({
            let after = m.step(read(opening, Some(snap), has_player, now)).0;
            &&& after.queue.len() == if m.queue.len() < 4 {
                m.queue.len() + 1
            } else {
                4
            }
            &&& after.queue[0].title == before.title
            &&& after.queue[0] == m.track_of(before)
            &&& forall|i: int| 0 < i < after.queue.len() ==> #[trigger] after.queue[i] == m.queue[i
                - 1]
            &&& after.prev is None
        }),
{
}

/// Any other change of track leaves the window alone, and so does a change to the
/// track behind from nothing, but for what is behind.
pub proof fn law_any_other_change_leaves_the_window(
    m: Model,
    opening: bool,
    snap: Snapshot,
    has_player: bool,
    now: u64,
)
    requires
        snap@.title.len() > 0,
        m.queue.len() > 0 && m.queue[0].id.len() > 0 ==> mpris::id_in(snap@) != Some(
            m.queue[0].id,
        ),
    ensures
        ({
            let after = m.step(read(opening, Some(snap), has_player, now)).0;
            let back = m.prev matches Some(prev) && prev.id.len() > 0 && mpris::id_in(snap@)
                == Some(prev.id);
            &&& !back || m.snap is None ==> after.queue == m.queue
            &&& !back ==> after.prev == m.prev
        }),
{
}

/// A skip from nothing drawn leaves nothing behind: the head of the queue is
/// taken off all the same, and a skip back leaves the queue as it is.
pub proof fn law_a_skip_from_nothing_leaves_nothing_behind(
    m: Model,
    opening: bool,
    snap: Snapshot,
    has_player: bool,
    now: u64,
)
    requires
        snap@.title.len() > 0,
        snap@.track_id != m.rendered,
        m.snap is None,
        mpris::id_in(snap@) matches Some(id) && id.len() > 0 && ((m.queue.len() > 0
            && m.queue[0].id == id) || (m.prev matches Some(prev) && prev.id == id)),
    ensures
        ({
            let after = m.step(read(opening, Some(snap), has_player, now)).0;
            let forward = m.queue.len() > 0 && mpris::id_in(snap@) == Some(m.queue[0].id);
            &&& after.prev is None
            &&& after.queue.len() == m.queue.len() - if forward {
                1int
            } else {
                0int
            }
            &&& forward ==> forall|i: int|
                0 <= i < after.queue.len() ==> #[trigger] after.queue[i] == m.queue[i + 1]
            &&& !forward ==> after.queue == m.queue
        }),
{
}

/// A crossing is noted for the surface it is of, and changes nothing but that and
/// the two timers that it may start or stop.
pub proof fn law_a_crossing_is_noted(m: Model, is_trigger: bool, inside: bool)
    ensures
        ({
            let (after, actions) = m.step(Event::Hover { is_trigger, inside });
            &&& is_trigger ==> after.in_trigger == inside && after.in_popup == m.in_popup
            &&& !is_trigger ==> after.in_popup == inside && after.in_trigger == m.in_trigger
            &&& after == (Model {
                in_trigger: after.in_trigger,
                in_popup: after.in_popup,
                dwell: after.dwell,
                grace: after.grace,
                ..m
            })
            &&& only(
                actions,
                set![
                    Kind::Arm(Timer::Dwell),
                    Kind::Disarm(Timer::Dwell),
                    Kind::Arm(Timer::Grace),
                    Kind::Disarm(Timer::Grace),
                ],
            )
        }),
{
}

/// A cursor on a closed card has it open after the dwell, unless that runs
/// already; one that has left an open card has it close after the grace. The other
/// of the two timers is stopped where it runs.
pub proof fn law_a_crossing_starts_the_right_timer(m: Model, is_trigger: bool, inside: bool)
    ensures
        ({
            let (after, actions) = m.step(Event::Hover { is_trigger, inside });
            if after.in_trigger || after.in_popup {
                &&& !after.grace
                &&& m.grace ==> sole(actions, Action::Disarm(Timer::Grace))
                &&& !m.open ==> after.dwell
                &&& m.open ==> after.dwell == m.dwell
                &&& !m.open && !m.dwell ==> sole(actions, Action::Arm(Timer::Dwell))
                &&& m.open || m.dwell ==> none(actions, Kind::Arm(Timer::Dwell))
                &&& !m.grace ==> none(actions, Kind::Disarm(Timer::Grace))
                &&& none(actions, Kind::Arm(Timer::Grace))
                &&& none(actions, Kind::Disarm(Timer::Dwell))
            } else {
                &&& !after.dwell
                &&& m.dwell ==> sole(actions, Action::Disarm(Timer::Dwell))
                &&& m.open ==> after.grace
                &&& !m.open ==> after.grace == m.grace
                &&& m.open && !m.grace ==> sole(actions, Action::Arm(Timer::Grace))
                &&& !m.open || m.grace ==> none(actions, Kind::Arm(Timer::Grace))
                &&& !m.dwell ==> none(actions, Kind::Disarm(Timer::Dwell))
                &&& none(actions, Kind::Arm(Timer::Dwell))
                &&& none(actions, Kind::Disarm(Timer::Grace))
            }
        }),
{
    let (after, actions) = m.step(Event::Hover { is_trigger, inside });
    if after.in_trigger || after.in_popup {
        let stops = if m.grace {
            1int
        } else {
            0int
        };
        if m.grace {
            lemma_sole_at(actions, 0, Action::Disarm(Timer::Grace));
        }
        if !m.open && !m.dwell {
            lemma_sole_at(actions, stops, Action::Arm(Timer::Dwell));
        }
    } else {
        let stops = if m.dwell {
            1int
        } else {
            0int
        };
        if m.dwell {
            lemma_sole_at(actions, 0, Action::Disarm(Timer::Dwell));
        }
        if m.open && !m.grace {
            lemma_sole_at(actions, stops, Action::Arm(Timer::Grace));
        }
    }
}

/// When the dwell is over a closed card opens: it is filled before it is mapped,
/// mapped before it is faded in, and redrawn every tick. An unmapping that is
/// due is called off.
pub proof fn law_the_card_opens(m: Model)
    requires
        !m.open,
    ensures
        ({
            let (after, actions) = m.step(Event::Elapsed(Timer::Dwell));
            &&& after == (Model { dwell: false, open: true, unmap: false, tick: true, ..m })
            &&& sole(actions, Action::Refresh { opening: true })
            &&& sole(actions, Action::Present)
            &&& sole(actions, Action::RevealWhenIdle)
            &&& sole(actions, Action::Arm(Timer::Tick))
            &&& m.unmap ==> sole(actions, Action::Disarm(Timer::Unmap))
            &&& only(
                actions,
                set![
                    Kind::Refresh,
                    Kind::Present,
                    Kind::RevealWhenIdle,
                    Kind::Arm(Timer::Tick),
                    Kind::Disarm(Timer::Unmap),
                ],
            )
            &&& actions.len() == 4 + if m.unmap {
                1int
            } else {
                0int
            }
            &&& forall|i: int, j: int|
                0 <= i < actions.len() && 0 <= j < actions.len() && kind(#[trigger] actions[i])
                    == Kind::Refresh && kind(#[trigger] actions[j]) == Kind::Present ==> i < j
            &&& forall|i: int, j: int|
                0 <= i < actions.len() && 0 <= j < actions.len() && kind(#[trigger] actions[i])
                    == Kind::Present && kind(#[trigger] actions[j]) == Kind::RevealWhenIdle ==> i
                    < j
        }),
{
    let actions = m.step(Event::Elapsed(Timer::Dwell)).1;
    let more = if m.unmap {
        1int
    } else {
        0int
    };
    if m.unmap {
        lemma_sole_at(actions, 0, Action::Disarm(Timer::Unmap));
    }
    lemma_sole_at(actions, more, Action::Refresh { opening: true });
    lemma_sole_at(actions, 1 + more, Action::Present);
    lemma_sole_at(actions, 2 + more, Action::RevealWhenIdle);
    lemma_sole_at(actions, 3 + more, Action::Arm(Timer::Tick));
}

/// When the grace is over the card closes: it fades out, is unmapped later, and
/// every timer that serves an open card is stopped where it runs. What is known of
/// the music stays known.
pub proof fn law_the_card_closes(m: Model)
    ensures
        ({
            let (after, actions) = m.step(Event::Elapsed(Timer::Grace));
            &&& after == (Model {
                grace: false,
                open: false,
                tick: false,
                lookup_debounce: false,
                copy_feedback: false,
                unmap: true,
                ..m
            })
            &&& sole(actions, Action::Reveal(false))
            &&& sole(actions, Action::Arm(Timer::Unmap))
            &&& m.tick ==> sole(actions, Action::Disarm(Timer::Tick))
            &&& m.lookup_debounce ==> sole(actions, Action::Disarm(Timer::Lookup))
            &&& m.copy_feedback ==> sole(actions, Action::Disarm(Timer::CopyFeedback))
            &&& only(
                actions,
                set![
                    Kind::Reveal,
                    Kind::Arm(Timer::Unmap),
                    Kind::Disarm(Timer::Tick),
                    Kind::Disarm(Timer::Lookup),
                    Kind::Disarm(Timer::CopyFeedback),
                ],
            )
        }),
{
    let actions = m.step(Event::Elapsed(Timer::Grace)).1;
    let one = if m.tick {
        1int
    } else {
        0int
    };
    let two = one + if m.lookup_debounce {
        1int
    } else {
        0int
    };
    let three = two + if m.copy_feedback {
        1int
    } else {
        0int
    };
    if m.tick {
        lemma_sole_at(actions, 0, Action::Disarm(Timer::Tick));
    }
    if m.lookup_debounce {
        lemma_sole_at(actions, one, Action::Disarm(Timer::Lookup));
    }
    if m.copy_feedback {
        lemma_sole_at(actions, two, Action::Disarm(Timer::CopyFeedback));
    }
    lemma_sole_at(actions, three, Action::Reveal(false));
    lemma_sole_at(actions, three + 1, Action::Arm(Timer::Unmap));
}

/// When the fade is over a card that is still closed is unmapped, and the heap is
/// released; one that has opened again is left alone.
pub proof fn law_a_faded_card_is_unmapped(m: Model)
    ensures
        ({
            let (after, actions) = m.step(Event::Elapsed(Timer::Unmap));
            &&& after == (Model { unmap: false, ..m })
            &&& m.open ==> actions.len() == 0
            &&& !m.open ==> actions.len() == 2 && sole(actions, Action::Hide) && sole(
                actions,
                Action::ReleaseHeap,
            )
        }),
{
    let actions = m.step(Event::Elapsed(Timer::Unmap)).1;
    if !m.open {
        lemma_sole_at(actions, 0, Action::Hide);
        lemma_sole_at(actions, 1, Action::ReleaseHeap);
    }
}

/// An open card is faded in once it is mapped, and read anew at every tick and
/// when the player has settled; a closed one is neither. None of this changes
/// what the card knows.
pub proof fn law_an_open_card_is_kept_up(m: Model)
    ensures
        m.step(Event::Idle).0 == m,
        m.step(Event::Settled).0 == m,
        m.step(Event::Elapsed(Timer::Tick)).0 == m,
        m.step(Event::Transport).0 == m,
        m.open ==> m.step(Event::Idle).1 == seq![Action::Reveal::<Seq<char>>(true)],
        m.open ==> m.step(Event::Settled).1 == seq![
            Action::Refresh::<Seq<char>> { opening: false },
        ],
        !m.open ==> m.step(Event::Idle).1.len() == 0 && m.step(Event::Settled).1.len() == 0,
        m.step(Event::Elapsed(Timer::Tick)).1 == seq![
            Action::Refresh::<Seq<char>> { opening: false },
        ],
        m.step(Event::Transport).1 == seq![Action::RefreshSoon::<Seq<char>>],
{
}

/// A click on the star asks for one change of the library, of the track that is
/// playing: to the opposite of what was known, which the star then shows. As long
/// as the track or its state is unknown, a click does nothing.
pub proof fn law_a_click_on_the_star_toggles(m: Model, snap: SnapshotView, id: Seq<char>, saved: bool)
    requires
        m.snap == Some(snap),
        mpris::id_in(snap) == Some(id),
        m.liked == Some(saved),
    ensures
        ({
            let (after, actions) = m.step(Event::Star);
            let target = !saved;
            &&& sole(
                actions,
                Action::SetLiked { generation: m.generation, id, current: saved, target },
            )
            &&& sole(actions, Action::LikeFace { starred: target, unknown: false })
            &&& actions.len() == 2
            &&& after == (Model { liked: Some(target), ..m })
        }),
{
    let actions = m.step(Event::Star).1;
    lemma_sole_at(actions, 0, Action::LikeFace { starred: !saved, unknown: false });
    lemma_sole_at(
        actions,
        1,
        Action::SetLiked { generation: m.generation, id, current: saved, target: !saved },
    );
}

/// As long as the track that is playing or its saved state is unknown, a click on
/// the star does nothing; nor does a click on the song without an id.
pub proof fn law_a_click_on_the_unknown_does_nothing(m: Model)
    ensures
        (m.liked is None || m.snap is None || (m.snap matches Some(snap) && mpris::id_in(
            snap,
        ) is None)) ==> m.step(Event::Star).0 == m && m.step(Event::Star).1.len() == 0,
        (m.snap is None || (m.snap matches Some(snap) && mpris::id_in(snap) is None)) ==> m.step(
            Event::Identity,
        ).0 == m && m.step(Event::Identity).1.len() == 0,
{
}

/// The star never shows anything but what is known, whatever happens, and what is
/// known never changes without its being shown.
pub proof fn law_the_star_shows_what_is_known(m: Model, event: Event)
    ensures
        ({
            let (after, actions) = m.step(event);
            &&& forall|i: int|
                0 <= i < actions.len() ==> (#[trigger] actions[i] matches Action::LikeFace {
                    starred,
                    unknown,
                } ==> starred == (after.liked == Some(true)) && unknown == (after.liked is None))
            &&& after.liked != m.liked ==> exists|i: int|
                0 <= i < actions.len() && #[trigger] actions[i] is LikeFace
        }),
{
    let (after, actions) = m.step(event);
    match event {
        Event::Read { opening, reading, has_player, now } => {
            if let Some(snap) = reading {
                if snap@.title.len() > 0 {
                    lemma_star_of_reading(m, opening, snap, has_player, now);
                }
            }
        },
        Event::Worker { msg, now } => {
            lemma_star_of_worker(m, msg, now);
        },
        Event::Star => {
            if after.liked != m.liked {
                assert(actions[0] is LikeFace);
            }
        },
        Event::Elapsed(timer) => {
            lemma_star_of_timer(m, timer);
        },
        _ => {},
    }
}

proof fn lemma_star_of_timer(m: Model, timer: Timer)
    ensures
        m.step(Event::Elapsed(timer)).0.liked == m.liked,
        none(m.step(Event::Elapsed(timer)).1, Kind::Star),
{
    match timer {
        Timer::Dwell => {
            if !m.open {
                law_the_card_opens(m);
            }
        },
        Timer::Grace => {
            law_the_card_closes(m);
        },
        Timer::Unmap => {
            law_a_faded_card_is_unmapped(m);
        },
        Timer::Tick => {
            law_an_open_card_is_kept_up(m);
        },
        Timer::Lookup => {
            law_a_round_asks_for_what_is_due(m);
        },
        Timer::CopyFeedback => {
            law_the_artists_come_back(m);
        },
    }
}

#[verifier::rlimit(40)]
proof fn lemma_star_of_reading(
    m: Model,
    opening: bool,
    snap: Snapshot,
    has_player: bool,
    now: u64,
)
    requires
        snap@.title.len() > 0,
    ensures
        ({
            let (after, actions) = m.step(read(opening, Some(snap), has_player, now));
            &&& forall|i: int|
                0 <= i < actions.len() ==> (#[trigger] actions[i] matches Action::LikeFace {
                    starred,
                    unknown,
                } ==> starred == (after.liked == Some(true)) && unknown == (after.liked is None))
            &&& after.liked != m.liked ==> exists|i: int|
                0 <= i < actions.len() && #[trigger] actions[i] is LikeFace
        }),
{
    let (after, actions) = m.step(read(opening, Some(snap), has_player, now));
    let drawing = m.draw(snap@);
    let rest = changes(m, opening, snap@, now);
    let drawn = m.drawn(snap@);
    assert(actions == drawing + rest);
    lemma_draw(m, snap@);
    if m.rendered != snap@.track_id {
        lemma_begin_track(drawn, snap@.art_url);
        let face = Action::LikeFace { starred: false, unknown: true };
        lemma_sole_join(drawing, rest, face);
        let at = choose|i: int|
            0 <= i < actions.len() && #[trigger] actions[i] == face && forall|j: int|
                0 <= j < actions.len() && kind(#[trigger] actions[j]) == kind(face) ==> j == i;
        assert(actions[at] is LikeFace);
    } else {
        lemma_schedule(drawn);
        lemma_none_join(drawing, rest, Kind::Star);
    }
}

proof fn lemma_star_of_worker(m: Model, msg: Msg, now: u64)
    ensures
        ({
            let (after, actions) = m.handle(msg, now);
            &&& forall|i: int|
                0 <= i < actions.len() ==> (#[trigger] actions[i] matches Action::LikeFace {
                    starred,
                    unknown,
                } ==> starred == (after.liked == Some(true)) && unknown == (after.liked is None))
            &&& after.liked != m.liked ==> exists|i: int|
                0 <= i < actions.len() && #[trigger] actions[i] is LikeFace
        }),
{
    let (after, actions) = m.handle(msg, now);
    match msg {
        Msg::Queue { generation, queue } => {
            let done = Model { queue_inflight: None, ..m };
            lemma_rows(done.take_queue(queue@, now).0, 3);
        },
        Msg::QueueFailed { generation } => {
            lemma_rows(Model { queue_inflight: None, ..m }, 3);
        },
        Msg::Liked { generation, liked } => {
            if generation == m.generation {
                assert(actions[0] is LikeFace);
            }
        },
        _ => {},
    }
}

/// A click on the song puts its bare link on the clipboard, and the artist line
/// says so until its time, which starts anew with every click, is up.
pub proof fn law_a_click_on_the_song_copies_its_link(m: Model, snap: SnapshotView, id: Seq<char>)
    requires
        m.snap == Some(snap),
        mpris::id_in(snap) == Some(id),
    ensures
        ({
            let (after, actions) = m.step(Event::Identity);
            &&& sole(actions, Action::Copy("https://open.spotify.com/track/"@ + id))
            &&& sole(actions, Action::Artist("Link copied"@))
            &&& sole(actions, Action::Arm(Timer::CopyFeedback))
            &&& m.copy_feedback ==> sole(actions, Action::Disarm(Timer::CopyFeedback))
            &&& actions.len() == 3 + if m.copy_feedback {
                1int
            } else {
                0int
            }
            &&& after == (Model { copy_feedback: true, ..m })
        }),
{
    let actions = m.step(Event::Identity).1;
    let more = if m.copy_feedback {
        1int
    } else {
        0int
    };
    lemma_sole_at(actions, 0, Action::Copy("https://open.spotify.com/track/"@ + id));
    if m.copy_feedback {
        lemma_sole_at(actions, 1, Action::Disarm(Timer::CopyFeedback));
    }
    lemma_sole_at(actions, 1 + more, Action::Artist("Link copied"@));
    lemma_sole_at(actions, 2 + more, Action::Arm(Timer::CopyFeedback));
}

/// When the confirmation's time is up the artist line says the artists again.
pub proof fn law_the_artists_come_back(m: Model)
    ensures
        ({
            let (after, actions) = m.step(Event::Elapsed(Timer::CopyFeedback));
            &&& after == (Model { copy_feedback: false, ..m })
            &&& m.snap is None ==> actions.len() == 0
            &&& m.snap matches Some(snap) ==> actions == seq![
                Action::Artist(m.track_of(snap).artist),
            ]
        }),
{
}

/// A round of lookups asks for the queue, for the saved state of what is playing
/// and for the history, each just where it is due: not where it is under way for
/// this generation, the saved state only of a track with an id, and the history
/// only where the track behind is unknown. What is asked for is under way.
pub proof fn law_a_round_asks_for_what_is_due(m: Model)
    ensures
        ({
            let (after, actions) = m.step(Event::Elapsed(Timer::Lookup));
            let generation = m.generation;
            let queue_due = m.queue_inflight != Some(generation);
            let history_due = m.prev is None && m.prev_inflight != Some(generation);
            &&& queue_due ==> sole(actions, Action::FetchQueue { generation })
            &&& !queue_due ==> none(actions, Kind::FetchQueue)
            &&& history_due ==> sole(actions, Action::FetchPrevious { generation })
            &&& !history_due ==> none(actions, Kind::FetchPrevious)
            &&& m.snap matches Some(snap) ==> (mpris::id_in(snap) matches Some(id) ==> (
            m.liked_inflight != Some(generation) ==> sole(
                actions,
                Action::FetchLiked { generation, id },
            ) && after.liked_inflight == Some(generation)))
            &&& (m.snap is None || m.liked_inflight == Some(generation) || (m.snap matches Some(
                snap,
            ) && mpris::id_in(snap) is None)) ==> none(actions, Kind::FetchLiked)
                && after.liked_inflight == m.liked_inflight
            &&& after == (Model {
                lookup_debounce: false,
                queue_inflight: Some(generation),
                prev_inflight: if history_due {
                    Some(generation)
                } else {
                    m.prev_inflight
                },
                liked_inflight: after.liked_inflight,
                ..m
            })
            &&& only(actions, set![Kind::FetchQueue, Kind::FetchLiked, Kind::FetchPrevious])
        }),
{
    let due = Model { lookup_debounce: false, ..m };
    let (one, queue) = due.fetch_queue();
    let (two, liked) = one.fetch_liked();
    let (three, history) = two.fetch_previous();
    let actions = m.step(Event::Elapsed(Timer::Lookup)).1;
    assert(actions == queue + liked + history);
    lemma_queue_fetch(due);
    lemma_liked_fetch(one);
    lemma_previous_fetch(two);
    let generation = m.generation;
    if m.queue_inflight != Some(generation) {
        lemma_sole_join(queue, liked, Action::FetchQueue { generation });
        lemma_sole_join(queue + liked, history, Action::FetchQueue { generation });
    } else {
        lemma_none_join(queue, liked, Kind::FetchQueue);
        lemma_none_join(queue + liked, history, Kind::FetchQueue);
    }
    if liked.len() > 0 {
        lemma_sole_join(queue, liked, liked[0]);
        lemma_sole_join(queue + liked, history, liked[0]);
    } else {
        lemma_none_join(queue, liked, Kind::FetchLiked);
        lemma_none_join(queue + liked, history, Kind::FetchLiked);
    }
    lemma_none_join(queue, liked, Kind::FetchPrevious);
    if m.prev is None && m.prev_inflight != Some(generation) {
        lemma_sole_join(queue + liked, history, Action::FetchPrevious { generation });
    } else {
        lemma_none_join(queue + liked, history, Kind::FetchPrevious);
    }
    let kinds = set![Kind::FetchQueue, Kind::FetchLiked, Kind::FetchPrevious];
    assert(only(queue + liked, kinds));
    assert(only(queue + liked + history, kinds));
}

proof fn lemma_queue_fetch(m: Model)
    ensures
        ({
            let (after, actions) = m.fetch_queue();
            &&& after == (Model { queue_inflight: Some(m.generation), ..m })
            &&& m.queue_inflight != Some(m.generation) ==> sole(
                actions,
                Action::FetchQueue { generation: m.generation },
            )
            &&& m.queue_inflight == Some(m.generation) ==> actions.len() == 0
            &&& only(actions, set![Kind::FetchQueue])
        }),
{
    if m.queue_inflight != Some(m.generation) {
        lemma_sole_at(m.fetch_queue().1, 0, Action::FetchQueue { generation: m.generation });
    }
}

proof fn lemma_liked_fetch(m: Model)
    ensures
        ({
            let (after, actions) = m.fetch_liked();
            &&& after == (Model { liked_inflight: after.liked_inflight, ..m })
            &&& actions.len() > 0 ==> sole(actions, actions[0]) && kind(actions[0])
                == Kind::FetchLiked
            &&& only(actions, set![Kind::FetchLiked])
        }),
{
    let actions = m.fetch_liked().1;
    if actions.len() > 0 {
        lemma_sole_at(actions, 0, actions[0]);
    }
}

proof fn lemma_previous_fetch(m: Model)
    ensures
        ({
            let (after, actions) = m.fetch_previous();
            let due = m.prev is None && m.prev_inflight != Some(m.generation);
            &&& after == (Model {
                prev_inflight: if due {
                    Some(m.generation)
                } else {
                    m.prev_inflight
                },
                ..m
            })
            &&& due ==> sole(actions, Action::FetchPrevious { generation: m.generation })
            &&& !due ==> actions.len() == 0
            &&& only(actions, set![Kind::FetchPrevious])
        }),
{
    if m.prev is None && m.prev_inflight != Some(m.generation) {
        lemma_sole_at(
            m.fetch_previous().1,
            0,
            Action::FetchPrevious { generation: m.generation },
        );
    }
}

/// The star is painted as what is known of the track: full where it is saved, and
/// as unknown only where that is.
pub proof fn law_the_star_is_painted(m: Model, liked: Option<bool>)
    ensures
        m.apply_liked(liked) == (
            Model { liked, ..m },
            seq![
                match liked {
                    Some(saved) => Action::LikeFace::<Seq<char>> { starred: saved, unknown: false },
                    None => Action::LikeFace::<Seq<char>> { starred: false, unknown: true },
                },
            ],
        ),
{
}

/// What Spotify accepts stands; what it refuses is as it was.
pub proof fn law_a_refusal_leaves_what_was(current: bool, target: bool)
    ensures
        settled_as(true, current, target) == target,
        settled_as(false, current, target) == current,
{
}

/// Every event can be taken, but for one more track than can be counted.
pub proof fn law_every_event_can_be_taken(m: Model, event: Event)
    ensures
        m.generation < u64::MAX ==> m.can_count(event),
        !(event is Read) ==> m.can_count(event),
        event matches Event::Read { reading: Some(snap), .. } ==> (snap@.title.len() == 0
            || snap@.track_id == m.rendered ==> m.can_count(event)),
        event matches Event::Read { reading: None, .. } ==> m.can_count(event),
{
}

/// A dwell that ends on an open card changes nothing.
pub proof fn law_an_open_card_is_not_opened_again(m: Model)
    requires
        m.open,
    ensures
        m.step(Event::Elapsed(Timer::Dwell)).0 == (Model { dwell: false, ..m }),
        m.step(Event::Elapsed(Timer::Dwell)).1.len() == 0,
{
}

/// The timers run this long, in milliseconds.
pub proof fn law_the_timers_run_this_long()
    ensures
        Timer::Dwell.millis_of() == 120,
        Timer::Grace.millis_of() == 200,
        Timer::Unmap.millis_of() == 180,
        Timer::Tick.millis_of() == 1000,
        Timer::Lookup.millis_of() == 350,
        Timer::CopyFeedback.millis_of() == 1200,
{
}

/// Art that is on disk is shown from there; a track without art shows that it has
/// none; any other art is fetched, unless that is under way for this generation.
pub proof fn law_art_is_shown_or_fetched(
    m: Model,
    url: String,
    generation: u64,
    cached: Option<String>,
)
    ensures
        ({
            let (after, actions) = m.step(Event::ArtLooked { url, generation, cached });
            match cached {
                Some(path) => after == m && actions == seq![Action::ArtFile(path@)],
                None => if url@.len() == 0 {
                    after == m && actions == seq![Action::ArtPlaceholder::<Seq<char>>]
                } else if m.art_inflight == Some(generation) {
                    after == m && actions.len() == 0
                } else {
                    &&& after == (Model { art_inflight: Some(generation), ..m })
                    &&& actions == seq![Action::FetchArt { url: url@, generation }]
                },
            }
        }),
{
}

/// Art that comes in for the track that is drawn is shown.
pub proof fn law_fetched_art_is_shown(m: Model, path: String, now: u64)
    ensures
        m.handle(Msg::Art { generation: m.generation, path }, now) == (
            Model { art_inflight: None, ..m },
            seq![Action::ArtFile(path@)],
        ),
{
}

/// A queue that comes in for the track that is drawn replaces the window, at this
/// second, and is drawn; with it comes the full artist list of what is playing,
/// which the artist line then says.
pub proof fn law_a_queue_replaces_the_window(
    m: Model,
    queue: Queue,
    now: u64,
)
    ensures
        ({
            let (after, actions) = m.handle(Msg::Queue { generation: m.generation, queue }, now);
            &&& after.queue == queue@.next
            &&& after.queue_fetched_at == now
            &&& queue@.now matches Some(track) ==> after.artists == Some((track.id, track.artist))
            &&& queue@.now is None ==> after.artists == m.artists
            &&& after == (Model {
                queue_inflight: None,
                queue: after.queue,
                queue_fetched_at: after.queue_fetched_at,
                artists: after.artists,
                ..m
            })
            &&& rows_drawn(actions, after)
            &&& m.snap is None ==> none(actions, Kind::Artist)
            &&& m.copy_feedback ==> none(actions, Kind::Artist)
            &&& m.snap matches Some(snap) ==> (!m.copy_feedback ==> sole(
                actions,
                Action::Artist(after.track_of(snap).artist),
            ))
            &&& only(actions, set![Kind::Row(0), Kind::Row(1), Kind::Row(2), Kind::Artist])
        }),
{
    let (after, actions) = m.handle(Msg::Queue { generation: m.generation, queue }, now);
    law_rows_show_the_queue(after);
    let rows = after.render_queue();
    match m.snap {
        Some(snap) => {
            let line = after.render_artist(snap);
            let artists = after.artist_line(snap);
            assert(actions == rows + line);
            lemma_rows_drawn_then(rows, line, after);
            if m.copy_feedback {
                lemma_none_join(rows, line, Kind::Artist);
            } else {
                lemma_sole_at(line, 0, Action::Artist(artists));
                lemma_sole_join(rows, line, Action::Artist(artists));
            }
        },
        None => {
            assert(actions == rows);
        },
    }
}

/// A queue that cannot be had leaves what is known, and the rows are drawn anew,
/// so that those past the end settle.
pub proof fn law_a_failed_queue_settles_the_rows(m: Model, now: u64)
    ensures
        ({
            let (after, actions) = m.handle(Msg::QueueFailed { generation: m.generation }, now);
            &&& after == (Model { queue_inflight: None, ..m })
            &&& rows_drawn(actions, after)
            &&& only(actions, set![Kind::Row(0), Kind::Row(1), Kind::Row(2)])
        }),
{
    law_rows_show_the_queue(Model { queue_inflight: None, ..m });
}

/// What the library check says of the track that is drawn is known from then on,
/// and shown.
pub proof fn law_the_saved_state_is_learned(m: Model, liked: bool, now: u64)
    ensures
        m.handle(Msg::Liked { generation: m.generation, liked }, now) == (
            Model { liked_inflight: None, liked: Some(liked), ..m },
            seq![Action::LikeFace::<Seq<char>> { starred: liked, unknown: false }],
        ),
{
}

/// What history says is behind the track that is drawn is taken for it, unless it
/// names that track itself; nothing is drawn.
pub proof fn law_history_says_what_is_behind(
    m: Model,
    track: Option<Track>,
    now: u64,
)
    ensures
        ({
            let (after, actions) = m.handle(
                Msg::Previous { generation: m.generation, track },
                now,
            );
            let echo = track matches Some(t) && t@.id.len() > 0 && (m.snap matches Some(snap)
                && mpris::id_in(snap) == Some(t@.id));
            &&& actions.len() == 0
            &&& after == (Model { prev_inflight: None, prev: after.prev, ..m })
            &&& echo ==> after.prev == m.prev
            &&& !echo ==> match track {
                Some(t) => after.prev == Some(t@),
                None => after.prev is None,
            }
        }),
{
}

/// Whatever is reported, only the request that it answers is no longer under way.
pub proof fn law_a_report_ends_its_request(m: Model, msg: Msg, now: u64)
    ensures
        ({
            let after = m.step(Event::Worker { msg, now }).0;
            &&& after.art_inflight == if msg is Art {
                None
            } else {
                m.art_inflight
            }
            &&& after.queue_inflight == if msg is Queue || msg is QueueFailed {
                None
            } else {
                m.queue_inflight
            }
            &&& after.liked_inflight == if msg is Liked {
                None
            } else {
                m.liked_inflight
            }
            &&& after.prev_inflight == if msg is Previous {
                None
            } else {
                m.prev_inflight
            }
            &&& m.step(Event::Worker { msg, now }) == m.handle(msg, now)
        }),
{
}

/// A click on the bar seeks in the track that is playing, where that has a name
/// and a length and the bar a width.
pub proof fn law_what_is_playing_can_be_sought_in(m: Model, width: i32)
    ensures
        m.seekable(width) matches Some((track_id, length_us)) ==> width > 0 && length_us > 0
            && track_id.len() > 0 && (m.snap matches Some(snap) && snap.track_id == track_id
            && snap.length_us == length_us),
        m.seekable(width) is None ==> width <= 0 || m.snap is None || (m.snap matches Some(snap)
            && (snap.length_us <= 0 || snap.track_id.len() == 0)),
{
}

/// Whole seconds are counted: a time reads as the second that has begun, and one
/// before the start as the start.
pub proof fn law_the_clock_counts_whole_seconds(microseconds: i64)
    ensures
        ({
            let seconds = seconds_in(microseconds);
            &&& microseconds >= 0 ==> seconds * 1_000_000 <= microseconds < (seconds + 1)
                * 1_000_000
            &&& microseconds < 0 ==> seconds == 0
        }),
{
}

/// A card that knows nothing shows nothing, has nothing under way and is closed.
pub proof fn law_a_blank_card_knows_nothing()
    ensures
        ({
            let m = Model::blank();
            &&& !m.open && !m.in_trigger && !m.in_popup
            &&& m.rendered.len() == 0 && m.snap is None && m.queue.len() == 0 && m.prev is None
            &&& m.liked is None && m.artists is None
            &&& m.generation == 0 && m.queue_fetched_at == 0
            &&& m.queue_inflight is None && m.prev_inflight is None && m.liked_inflight is None
                && m.art_inflight is None
        }),
{
}

/// What an action says is what it is seen to say, text by text.
pub proof fn law_actions_are_seen_as_they_are(
    s: String,
    timer: Timer,
    flag: bool,
    other: bool,
    generation: u64,
    index: usize,
    position_us: i64,
    length_us: i64,
)
    ensures
        Action::<String>::Arm(timer)@ == Action::<Seq<char>>::Arm(timer),
        Action::<String>::Disarm(timer)@ == Action::<Seq<char>>::Disarm(timer),
        (Action::<String>::Refresh { opening: flag })@ == (Action::<Seq<char>>::Refresh {
            opening: flag,
        }),
        Action::<String>::RefreshSoon@ == Action::<Seq<char>>::RefreshSoon,
        Action::<String>::Present@ == Action::<Seq<char>>::Present,
        Action::<String>::RevealWhenIdle@ == Action::<Seq<char>>::RevealWhenIdle,
        Action::<String>::Reveal(flag)@ == Action::<Seq<char>>::Reveal(flag),
        Action::<String>::Hide@ == Action::<Seq<char>>::Hide,
        Action::<String>::ReleaseHeap@ == Action::<Seq<char>>::ReleaseHeap,
        Action::ShowIdle(s)@ == Action::ShowIdle(s@),
        Action::<String>::ShowPlaying@ == Action::<Seq<char>>::ShowPlaying,
        Action::Title(s)@ == Action::Title(s@),
        Action::Artist(s)@ == Action::Artist(s@),
        (Action::<String>::PlayIcon { playing: flag })@ == (Action::<Seq<char>>::PlayIcon {
            playing: flag,
        }),
        (Action::<String>::Progress { position_us, length_us })@ == (Action::<
            Seq<char>,
        >::Progress { position_us, length_us }),
        Action::Elapsed(s)@ == Action::Elapsed(s@),
        Action::Total(s)@ == Action::Total(s@),
        (Action::Art { url: s, generation })@ == (Action::Art { url: s@, generation }),
        Action::ArtFile(s)@ == Action::ArtFile(s@),
        Action::<String>::ArtPlaceholder@ == Action::<Seq<char>>::ArtPlaceholder,
        (Action::FetchArt { url: s, generation })@ == (Action::FetchArt { url: s@, generation }),
        (Action::<String>::LikeFace { starred: flag, unknown: other })@ == (Action::<
            Seq<char>,
        >::LikeFace { starred: flag, unknown: other }),
        (Action::QueueRow { index, label: s })@ == (Action::QueueRow { index, label: s@ }),
        (Action::<String>::FetchQueue { generation })@ == (Action::<Seq<char>>::FetchQueue {
            generation,
        }),
        (Action::FetchLiked { generation, id: s })@ == (Action::FetchLiked { generation, id: s@ }),
        (Action::<String>::FetchPrevious { generation })@ == (Action::<
            Seq<char>,
        >::FetchPrevious { generation }),
        (Action::SetLiked { generation, id: s, current: flag, target: other })@ == (
        Action::SetLiked { generation, id: s@, current: flag, target: other }),
        Action::Copy(s)@ == Action::Copy(s@),
{
}

/// Actions are seen in the order in which they are to be carried out.
pub proof fn law_actions_are_seen_in_order(list: Seq<Action<String>>)
    ensures
        acts(list).len() == list.len(),
        forall|i: int| 0 <= i < list.len() ==> #[trigger] acts(list)[i] == list[i]@,
{
}

/// What the card knows is seen as it is.
pub proof fn law_the_card_is_seen_as_it_is(state: State)
    ensures
        ({
            let m = state@;
            &&& m.in_trigger == state.in_trigger && m.in_popup == state.in_popup && m.open
                == state.open
            &&& m.dwell == state.dwell && m.grace == state.grace && m.unmap == state.unmap && m.tick
                == state.tick
            &&& m.lookup_debounce == state.lookup_debounce && m.copy_feedback
                == state.copy_feedback
            &&& m.rendered == state.rendered@ && m.generation == state.generation
            &&& m.queue_fetched_at == state.queue_fetched_at && m.liked == state.liked
            &&& m.queue_inflight == state.queue_inflight && m.prev_inflight == state.prev_inflight
            &&& m.liked_inflight == state.liked_inflight && m.art_inflight == state.art_inflight
            &&& m.queue.len() == state.queue@.len() && forall|i: int|
                0 <= i < m.queue.len() ==> #[trigger] m.queue[i] == state.queue@[i]@
            &&& state.prev matches Some(track) ==> m.prev == Some(track@)
            &&& state.prev is None ==> m.prev is None
            &&& state.artists matches Some((id, list)) ==> m.artists == Some((id@, list@))
            &&& state.artists is None ==> m.artists is None
            &&& state.snap matches Some(snap) ==> m.snap == Some(snap@)
            &&& state.snap is None ==> m.snap is None
        }),
{
}

/// The icons go by these names; the player is given this long to settle, and the
/// card to fade.
pub proof fn law_icons_go_by_name()
    ensures
        ICON_PLAY@ == "media-playback-start-symbolic"@,
        ICON_PAUSE@ == "media-playback-pause-symbolic"@,
        ICON_NO_ART@ == "audio-x-generic-symbolic"@,
        ICON_LIKED@ == "starred-symbolic"@,
        ICON_UNLIKED@ == "non-starred-symbolic"@,
        SETTLE_MS == 120,
        FADE_MS == 150,
{
}

} // verus!
