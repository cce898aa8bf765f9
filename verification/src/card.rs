//! The card: what it knows, and what it does about everything that happens.
//!
//! [`State`] decides; whoever owns the surfaces hands it events and carries out
//! the [`Action`]s that come back, in order. Everything expensive is gated
//! behind visibility: while the card is hidden no timer runs and nothing is
//! looked up.
use crate::api;
use crate::api::{opt_track, tracks, Queue, Track, TrackView};
use crate::mpris;
use crate::mpris::{opt_snapshot, spotify_id, track_link, Snapshot, SnapshotView};
use crate::text;
use crate::text::{concat, same_text, to_decimal};
use vstd::prelude::*;
use vstd::string::*;

verus! {

/// Up-next rows on the card.
pub const QUEUE_ROWS: usize = 3;

/// Rows actually fetched. One spare beyond what's shown, so that after a skip
/// the window still has a full set of rows to draw before the refetch lands —
/// the cached window spans [prev, current, next … next+3].
pub const QUEUE_FETCH: usize = QUEUE_ROWS + 1;

/// Don't re-ask Spotify for the queue more often than this, in seconds.
pub const QUEUE_TTL: u64 = 10;

/// How long the card takes to fade, in milliseconds.
pub const FADE_MS: u32 = 150;

/// Spotify applies transport changes asynchronously, so give it a beat before
/// re-reading — otherwise the card redraws the pre-click state. Milliseconds.
pub const SETTLE_MS: u64 = 120;

pub const ICON_PLAY: &'static str = "media-playback-start-symbolic";

pub const ICON_PAUSE: &'static str = "media-playback-pause-symbolic";

pub const ICON_NO_ART: &'static str = "audio-x-generic-symbolic";

pub const ICON_LIKED: &'static str = "starred-symbolic";

pub const ICON_UNLIKED: &'static str = "non-starred-symbolic";

/// The icon that offers to pause what is playing, or to play what is not.
pub fn play_icon(playing: bool) -> (name: &'static str)
    ensures
        name@ == (if playing {
            ICON_PAUSE@
        } else {
            ICON_PLAY@
        }),
{
    if playing {
        ICON_PAUSE
    } else {
        ICON_PLAY
    }
}

/// The icon of the star. Adwaita ships no heart pair, so a star stands in.
pub fn like_icon(starred: bool) -> (name: &'static str)
    ensures
        name@ == (if starred {
            ICON_LIKED@
        } else {
            ICON_UNLIKED@
        }),
{
    if starred {
        ICON_LIKED
    } else {
        ICON_UNLIKED
    }
}

/// The timers that the card runs.
#[derive(PartialEq, Eq, Structural, Clone, Copy, Debug)]
pub enum Timer {
    /// The cursor must sit on the strip this long before the card opens, so
    /// merely crossing the top edge doesn't summon it.
    Dwell,
    /// Grace after the cursor leaves, which also covers the handover as it
    /// moves from the strip into the card.
    Grace,
    /// From closing until the faded card is unmapped.
    Unmap,
    /// Redraws the open card, again and again.
    Tick,
    /// Web API lookups wait this long after a track change, so holding down
    /// skip fires one round of requests instead of one per track.
    Lookup,
    /// How long "Link copied" replaces the artist line.
    CopyFeedback,
}

impl Timer {
    pub open spec fn millis_of(self) -> u64 {
        match self {
            Timer::Dwell => 120,
            Timer::Grace => 200,
            Timer::Unmap => (FADE_MS + 30) as u64,
            Timer::Tick => 1000,
            Timer::Lookup => 350,
            Timer::CopyFeedback => 1200,
        }
    }

    /// How long the timer runs, in milliseconds.
    pub fn millis(self) -> (ms: u64)
        ensures
            ms == self.millis_of(),
    {
        match self {
            Timer::Dwell => 120,
            Timer::Grace => 200,
            Timer::Unmap => FADE_MS as u64 + 30,
            Timer::Tick => 1000,
            Timer::Lookup => 350,
            Timer::CopyFeedback => 1200,
        }
    }
}

/// Something to be done to the surfaces, the timers or the outside world.
#[derive(PartialEq, Debug)]
pub enum Action<S> {
    /// Start this timer. All but [`Timer::Tick`] run once.
    Arm(Timer),
    /// Stop this timer, which is running.
    Disarm(Timer),
    /// Read the player and report [`Event::Read`].
    Refresh { opening: bool },
    /// Do so once the player has settled.
    RefreshSoon,
    /// Map the card.
    Present,
    /// Report [`Event::Idle`] once the card is mapped: a fade that starts
    /// earlier is skipped.
    RevealWhenIdle,
    /// Fade the card in or out.
    Reveal(bool),
    /// Unmap the card.
    Hide,
    /// Hand unused heap back to the system.
    ReleaseHeap,
    /// Show this line in place of the player.
    ShowIdle(S),
    /// Show the player.
    ShowPlaying,
    Title(S),
    Artist(S),
    /// Offer to pause what is playing, or to play what is not.
    PlayIcon { playing: bool },
    Progress { position_us: i64, length_us: i64 },
    Elapsed(S),
    Total(S),
    /// Look whether this art is cached and report [`Event::ArtLooked`].
    Art { url: S, generation: u64 },
    /// Show the image in this file.
    ArtFile(S),
    /// Show that there is no art.
    ArtPlaceholder,
    /// Fetch this art and report [`Msg::Art`].
    FetchArt { url: S, generation: u64 },
    /// Paint the star: full or empty, and whether that is not known yet.
    LikeFace { starred: bool, unknown: bool },
    /// Label this row of the up-next list.
    QueueRow { index: usize, label: S },
    /// Ask for the queue and report [`Msg::Queue`] or [`Msg::QueueFailed`].
    FetchQueue { generation: u64 },
    /// Ask whether this track is saved and report [`Msg::Liked`].
    FetchLiked { generation: u64, id: S },
    /// Ask for the track played last and report [`Msg::Previous`].
    FetchPrevious { generation: u64 },
    /// Save this track or take it out, and report what [`settled`] gives as
    /// [`Msg::Liked`].
    SetLiked { generation: u64, id: S, current: bool, target: bool },
    /// Put this on the clipboard.
    Copy(S),
}

impl View for Action<String> {
    type V = Action<Seq<char>>;

    open spec fn view(&self) -> Action<Seq<char>> {
        match self {
            Action::Arm(t) => Action::Arm(*t),
            Action::Disarm(t) => Action::Disarm(*t),
            Action::Refresh { opening } => Action::Refresh { opening: *opening },
            Action::RefreshSoon => Action::RefreshSoon,
            Action::Present => Action::Present,
            Action::RevealWhenIdle => Action::RevealWhenIdle,
            Action::Reveal(shown) => Action::Reveal(*shown),
            Action::Hide => Action::Hide,
            Action::ReleaseHeap => Action::ReleaseHeap,
            Action::ShowIdle(s) => Action::ShowIdle(s@),
            Action::ShowPlaying => Action::ShowPlaying,
            Action::Title(s) => Action::Title(s@),
            Action::Artist(s) => Action::Artist(s@),
            Action::PlayIcon { playing } => Action::PlayIcon { playing: *playing },
            Action::Progress { position_us, length_us } => Action::Progress {
                position_us: *position_us,
                length_us: *length_us,
            },
            Action::Elapsed(s) => Action::Elapsed(s@),
            Action::Total(s) => Action::Total(s@),
            Action::Art { url, generation } => Action::Art { url: url@, generation: *generation },
            Action::ArtFile(s) => Action::ArtFile(s@),
            Action::ArtPlaceholder => Action::ArtPlaceholder,
            Action::FetchArt { url, generation } => Action::FetchArt {
                url: url@,
                generation: *generation,
            },
            Action::LikeFace { starred, unknown } => Action::LikeFace {
                starred: *starred,
                unknown: *unknown,
            },
            Action::QueueRow { index, label } => Action::QueueRow { index: *index, label: label@ },
            Action::FetchQueue { generation } => Action::FetchQueue { generation: *generation },
            Action::FetchLiked { generation, id } => Action::FetchLiked {
                generation: *generation,
                id: id@,
            },
            Action::FetchPrevious { generation } => Action::FetchPrevious {
                generation: *generation,
            },
            Action::SetLiked { generation, id, current, target } => Action::SetLiked {
                generation: *generation,
                id: id@,
                current: *current,
                target: *target,
            },
            Action::Copy(s) => Action::Copy(s@),
        }
    }
}

pub type Acts = Seq<Action<Seq<char>>>;

pub open spec fn acts(list: Seq<Action<String>>) -> Acts {
    list.map_values(|a: Action<String>| a@)
}

fn emit(out: &mut Vec<Action<String>>, action: Action<String>)
    ensures
        acts(final(out)@) == acts(old(out)@).push(action@),
{
    out.push(action);
}

/// What the card knows.
pub struct State {
    pub in_trigger: bool,
    pub in_popup: bool,
    pub open: bool,
    /// Whether [`Timer::Dwell`] is running; and so on for the others.
    pub dwell: bool,
    pub grace: bool,
    pub unmap: bool,
    pub tick: bool,
    /// Track currently drawn on the card, for change detection.
    pub rendered: String,
    /// Bumped on every track change; stamps async requests.
    pub generation: u64,
    pub queue_fetched_at: u64,
    pub queue_inflight: Option<u64>,
    /// Shared debounce for the Web API lookups.
    pub lookup_debounce: bool,
    /// The window ahead of the current track, up to [`QUEUE_FETCH`] long.
    pub queue: Vec<Track>,
    /// The track behind the current one, so a backward skip shifts rather than
    /// blanks. Usually free — it's whatever we just moved off — and only
    /// fetched when we have no local history for it.
    pub prev: Option<Track>,
    pub prev_inflight: Option<u64>,
    /// `None` until the library check for the current track comes back.
    pub liked: Option<bool>,
    pub liked_inflight: Option<u64>,
    /// Full artist list from the Web API, keyed by track id, since MPRIS only
    /// reports the primary artist.
    pub artists: Option<(String, String)>,
    /// Set while the copy confirmation is showing, so the tick doesn't
    /// overwrite it.
    pub copy_feedback: bool,
    pub art_inflight: Option<u64>,
    /// Last snapshot, kept so the seek gesture knows what it's seeking in.
    pub snap: Option<Snapshot>,
}

/// What the card knows, as mathematical values.
#[verifier::ext_equal]
pub struct Model {
    pub in_trigger: bool,
    pub in_popup: bool,
    pub open: bool,
    pub dwell: bool,
    pub grace: bool,
    pub unmap: bool,
    pub tick: bool,
    pub rendered: Seq<char>,
    pub generation: u64,
    pub queue_fetched_at: u64,
    pub queue_inflight: Option<u64>,
    pub lookup_debounce: bool,
    pub queue: Seq<TrackView>,
    pub prev: Option<TrackView>,
    pub prev_inflight: Option<u64>,
    pub liked: Option<bool>,
    pub liked_inflight: Option<u64>,
    pub artists: Option<(Seq<char>, Seq<char>)>,
    pub copy_feedback: bool,
    pub art_inflight: Option<u64>,
    pub snap: Option<SnapshotView>,
}

pub open spec fn opt_names(names: Option<(String, String)>) -> Option<(Seq<char>, Seq<char>)> {
    match names {
        Some((id, artists)) => Some((id@, artists@)),
        None => None,
    }
}

impl View for State {
    type V = Model;

    open spec fn view(&self) -> Model {
        Model {
            in_trigger: self.in_trigger,
            in_popup: self.in_popup,
            open: self.open,
            dwell: self.dwell,
            grace: self.grace,
            unmap: self.unmap,
            tick: self.tick,
            rendered: self.rendered@,
            generation: self.generation,
            queue_fetched_at: self.queue_fetched_at,
            queue_inflight: self.queue_inflight,
            lookup_debounce: self.lookup_debounce,
            queue: tracks(self.queue@),
            prev: opt_track(self.prev),
            prev_inflight: self.prev_inflight,
            liked: self.liked,
            liked_inflight: self.liked_inflight,
            artists: opt_names(self.artists),
            copy_feedback: self.copy_feedback,
            art_inflight: self.art_inflight,
            snap: opt_snapshot(self.snap),
        }
    }
}

impl Model {
    /// A card that knows nothing, closed and with the cursor elsewhere.
    pub open spec fn blank() -> Model {
        Model {
            in_trigger: false,
            in_popup: false,
            open: false,
            dwell: false,
            grace: false,
            unmap: false,
            tick: false,
            rendered: Seq::empty(),
            generation: 0,
            queue_fetched_at: 0,
            queue_inflight: None,
            lookup_debounce: false,
            queue: Seq::empty(),
            prev: None,
            prev_inflight: None,
            liked: None,
            liked_inflight: None,
            artists: None,
            copy_feedback: false,
            art_inflight: None,
            snap: None,
        }
    }
}

impl Default for State {
    fn default() -> (blank: Self)
        ensures
            blank@ == Model::blank(),
    {
        State {
            in_trigger: false,
            in_popup: false,
            open: false,
            dwell: false,
            grace: false,
            unmap: false,
            tick: false,
            rendered: String::new(),
            generation: 0,
            queue_fetched_at: 0,
            queue_inflight: None,
            lookup_debounce: false,
            queue: Vec::new(),
            prev: None,
            prev_inflight: None,
            liked: None,
            liked_inflight: None,
            artists: None,
            copy_feedback: false,
            art_inflight: None,
            snap: None,
        }
    }
}

impl Model {
    /// What the artist line says of `snap`: the Web API's full list where it is
    /// for that track. A stale list is ignored rather than briefly attributed
    /// to the wrong song.
    pub open spec fn artist_line(self, snap: SnapshotView) -> Seq<char> {
        match self.artists {
            Some((for_id, artists)) if mpris::id_in(snap) == Some(for_id) => artists,
            _ => snap.artist,
        }
    }

    /// A snapshot as a track, with the Web API's full artist list in place of
    /// MPRIS's primary artist where it is for that track.
    pub open spec fn track_of(self, snap: SnapshotView) -> TrackView {
        TrackView {
            id: api::or_empty(mpris::id_in(snap)),
            title: snap.title,
            artist: self.artist_line(snap),
        }
    }

    /// The window once `snap` is what plays, and `outgoing` what played before.
    ///
    /// Forward, onto the head of the queue: the head is taken off, and what
    /// played becomes the previous track. Back, onto the previous track: what
    /// played goes to the head of the queue, whose length stays bounded, and
    /// what lies further behind is unknown. Anything else leaves it alone.
    pub open spec fn slide(self, snap: SnapshotView, outgoing: Option<TrackView>) -> Model {
        match mpris::id_in(snap) {
            Some(id) => if self.queue.len() > 0 && self.queue[0].is(id) {
                Model { queue: self.queue.skip(1), prev: outgoing, ..self }
            } else if self.prev matches Some(prev) && prev.is(id) {
                Model {
                    queue: match outgoing {
                        Some(track) => {
                            let longer = seq![track] + self.queue;
                            longer.take(api::at_most(QUEUE_FETCH as nat, longer.len()))
                        },
                        None => self.queue,
                    },
                    prev: None,
                    ..self
                }
            } else {
                self
            },
            None => self,
        }
    }
}

impl State {
    /// The artists of the track in a snapshot: the Web API's full list when we
    /// have it for that track. A track without an id never has one.
    fn artist_line(&self, snap: &Snapshot) -> (line: String)
        ensures
            line@ == self@.artist_line(snap@),
    {
        if let Some((for_id, artists)) = &self.artists {
            if let Some(id) = spotify_id(snap) {
                if same_text(id.as_str(), for_id.as_str()) {
                    return artists.clone();
                }
            }
        }
        snap.artist.clone()
    }

    /// Turn a snapshot into a Track, preferring the Web API's full artist list
    /// over MPRIS's primary-artist-only value when we have it for that track.
    pub fn track_of(&self, snap: &Snapshot) -> (track: Track)
        ensures
            track@ == self@.track_of(snap@),
    {
        let id = match spotify_id(snap) {
            Some(id) => id,
            None => String::new(),
        };
        Track { id, title: snap.title.clone(), artist: self.artist_line(snap) }
    }

    /// Slide the cached window when the track changes, so a skip in either
    /// direction draws correctly before the refetch lands.
    ///
    /// Driven by the observed track id, never by which button was pressed —
    /// which matters because Spotify's `Previous` restarts the current track
    /// when you're a few seconds in rather than moving back. That produces no
    /// id change, so nothing shifts.
    pub fn slide_window(&mut self, snap: &Snapshot, outgoing: Option<Track>)
        ensures
            final(self)@ == old(self)@.slide(snap@, opt_track(outgoing)),
    {
        let id = match spotify_id(snap) {
            Some(id) => id,
            None => {
                return;
            },
        };
        if self.queue.len() > 0 && self.queue[0].is(id.as_str()) {
            let ghost before = self.queue@;
            self.queue.remove(0);
            self.prev = outgoing;
            proof {
                assert(tracks(self.queue@) == tracks(before).skip(1));
            }
            return;
        }
        let back = match &self.prev {
            Some(prev) => prev.is(id.as_str()),
            None => false,
        };
        if back {
            if let Some(track) = outgoing {
                let ghost before = self.queue@;
                self.queue.insert(0, track);
                let ghost longer = self.queue@;
                self.queue.truncate(QUEUE_FETCH);
                proof {
                    assert(tracks(longer) == seq![track@] + tracks(before));
                    assert(tracks(self.queue@) == tracks(longer).take(
                        api::at_most(QUEUE_FETCH as nat, longer.len()),
                    ));
                }
            }
            // Whatever sits behind the new position is unknown until the next
            // lookup round refills it.
            self.prev = None;
        }
        // Any other jump leaves the window alone: the refetch replaces it,
        // which beats blanking the card in the meantime.
    }
}

/// What stopping a timer takes: nothing where it is not running.
pub open spec fn cancelled(running: bool, timer: Timer) -> Acts {
    if running {
        seq![Action::Disarm(timer)]
    } else {
        Seq::empty()
    }
}

impl Model {
    pub open spec fn hovered(self) -> bool {
        self.in_trigger || self.in_popup
    }

    /// The single place that decides whether the card should be opening or
    /// closing.
    pub open spec fn reevaluate(self) -> (Model, Acts) {
        if self.hovered() {
            let opening = !self.open && !self.dwell;
            (
                Model { grace: false, dwell: self.dwell || opening, ..self },
                cancelled(self.grace, Timer::Grace) + if opening {
                    seq![Action::Arm(Timer::Dwell)]
                } else {
                    Seq::empty()
                },
            )
        } else {
            let closing = self.open && !self.grace;
            (
                Model { dwell: false, grace: self.grace || closing, ..self },
                cancelled(self.dwell, Timer::Dwell) + if closing {
                    seq![Action::Arm(Timer::Grace)]
                } else {
                    Seq::empty()
                },
            )
        }
    }

    /// The cursor came into, or left, the strip or the card.
    pub open spec fn set_hovered(self, is_trigger: bool, inside: bool) -> (Model, Acts) {
        let moved = if is_trigger {
            Model { in_trigger: inside, ..self }
        } else {
            Model { in_popup: inside, ..self }
        };
        moved.reevaluate()
    }

    /// Opens a closed card: it is filled, mapped and faded in, and redrawn every
    /// tick from then on.
    pub open spec fn open_up(self) -> (Model, Acts) {
        if self.open {
            (self, Seq::empty())
        } else {
            (
                Model { open: true, unmap: false, tick: true, ..self },
                cancelled(self.unmap, Timer::Unmap) + seq![
                    Action::Refresh { opening: true },
                    Action::Present,
                    Action::RevealWhenIdle,
                    Action::Arm(Timer::Tick),
                ],
            )
        }
    }

    /// Closes the card: every timer that serves the open card is stopped, and
    /// it fades out before it is unmapped.
    pub open spec fn close_down(self) -> (Model, Acts) {
        (
            Model {
                open: false,
                tick: false,
                lookup_debounce: false,
                copy_feedback: false,
                unmap: true,
                ..self
            },
            cancelled(self.tick, Timer::Tick) + cancelled(self.lookup_debounce, Timer::Lookup)
                + cancelled(self.copy_feedback, Timer::CopyFeedback) + seq![
                Action::Reveal(false),
                Action::Arm(Timer::Unmap),
            ],
        )
    }

    /// The fade has ended: the card is unmapped if it is still closed.
    pub open spec fn unmapped(self) -> (Model, Acts) {
        (
            Model { unmap: false, ..self },
            if self.open {
                Seq::empty()
            } else {
                seq![Action::Hide, Action::ReleaseHeap]
            },
        )
    }
}

fn cancel(running: bool, timer: Timer, out: &mut Vec<Action<String>>)
    ensures
        acts(final(out)@) == acts(old(out)@) + cancelled(running, timer),
{
    if running {
        emit(out, Action::Disarm(timer));
    }
}

impl State {
    /// The cursor came into, or left, the strip or the card.
    pub fn set_hovered(&mut self, is_trigger: bool, inside: bool, out: &mut Vec<Action<String>>)
        ensures
            final(self)@ == old(self)@.set_hovered(is_trigger, inside).0,
            acts(final(out)@) == acts(old(out)@) + old(self)@.set_hovered(is_trigger, inside).1,
    {
        if is_trigger {
            self.in_trigger = inside;
        } else {
            self.in_popup = inside;
        }
        self.reevaluate(out);
    }

    /// The single place that decides whether the card should be opening or
    /// closing.
    pub fn reevaluate(&mut self, out: &mut Vec<Action<String>>)
        ensures
            final(self)@ == old(self)@.reevaluate().0,
            acts(final(out)@) == acts(old(out)@) + old(self)@.reevaluate().1,
    {
        let hovered = self.in_trigger || self.in_popup;
        if hovered {
            cancel(self.grace, Timer::Grace, out);
            self.grace = false;
            if !self.open && !self.dwell {
                self.dwell = true;
                emit(out, Action::Arm(Timer::Dwell));
            }
        } else {
            cancel(self.dwell, Timer::Dwell, out);
            self.dwell = false;
            if self.open && !self.grace {
                self.grace = true;
                emit(out, Action::Arm(Timer::Grace));
            }
        }
    }

    /// Opens a closed card.
    pub fn open(&mut self, out: &mut Vec<Action<String>>)
        ensures
            final(self)@ == old(self)@.open_up().0,
            acts(final(out)@) == acts(old(out)@) + old(self)@.open_up().1,
    {
        if self.open {
            return;
        }
        self.open = true;
        cancel(self.unmap, Timer::Unmap, out);
        self.unmap = false;
        emit(out, Action::Refresh { opening: true });
        emit(out, Action::Present);
        // Let the surface map before the fade starts, or the fade is skipped.
        emit(out, Action::RevealWhenIdle);
        self.tick = true;
        emit(out, Action::Arm(Timer::Tick));
    }

    /// Closes the card, and stops everything that only serves the open one.
    #[verifier::rlimit(40)]
    pub fn close(&mut self, out: &mut Vec<Action<String>>)
        ensures
            final(self)@ == old(self)@.close_down().0,
            acts(final(out)@) == acts(old(out)@) + old(self)@.close_down().1,
    {
        self.open = false;
        cancel(self.tick, Timer::Tick, out);
        self.tick = false;
        cancel(self.lookup_debounce, Timer::Lookup, out);
        self.lookup_debounce = false;
        cancel(self.copy_feedback, Timer::CopyFeedback, out);
        self.copy_feedback = false;
        emit(out, Action::Reveal(false));
        self.unmap = true;
        emit(out, Action::Arm(Timer::Unmap));
    }

    /// The fade has ended.
    pub fn unmap(&mut self, out: &mut Vec<Action<String>>)
        ensures
            final(self)@ == old(self)@.unmapped().0,
            acts(final(out)@) == acts(old(out)@) + old(self)@.unmapped().1,
    {
        self.unmap = false;
        if !self.open {
            emit(out, Action::Hide);
            emit(out, Action::ReleaseHeap);
        }
    }
}

/// Whole seconds; a time before the start counts as the start.
pub open spec fn seconds_in(microseconds: i64) -> nat {
    if microseconds < 0 {
        0
    } else {
        (microseconds / 1_000_000) as nat
    }
}

/// Minutes, a colon, and the seconds in two digits.
pub open spec fn clock_text(microseconds: i64) -> Seq<char> {
    let seconds = seconds_in(microseconds);
    text::decimal(seconds / 60) + ":"@ + if seconds % 60 < 10 {
        "0"@ + text::decimal(seconds % 60)
    } else {
        text::decimal(seconds % 60)
    }
}

pub fn clock(microseconds: i64) -> (s: String)
    ensures
        s@ == clock_text(microseconds),
{
    let seconds: u64 = if microseconds < 0 {
        0
    } else {
        microseconds as u64 / 1_000_000
    };
    let mut s = to_decimal(seconds / 60);
    s.append(":");
    if seconds % 60 < 10 {
        s.append("0");
    }
    s.append(to_decimal(seconds % 60).as_str());
    proof {
        assert(s@ == clock_text(microseconds));
    }
    s
}

impl Model {
    /// A copy confirmation that is showing in the artist line is left be.
    pub open spec fn render_artist(self, snap: SnapshotView) -> Acts {
        if self.copy_feedback {
            Seq::empty()
        } else {
            seq![Action::Artist(self.artist_line(snap))]
        }
    }

    /// Paints the liked state; `None` means "not known yet".
    pub open spec fn apply_liked(self, liked: Option<bool>) -> (Model, Acts) {
        (
            Model { liked, ..self },
            seq![Action::LikeFace { starred: liked == Some(true), unknown: liked is None }],
        )
    }

    /// Whether fresh rows are on their way.
    pub open spec fn queue_pending(self) -> bool {
        self.queue_inflight is Some || self.lookup_debounce
    }

    /// What row `index` is to say; `None` leaves it as it is.
    pub open spec fn row(self, index: int) -> Option<Seq<char>> {
        if index < self.queue.len() {
            Some(self.queue[index].title + "  ·  "@ + self.queue[index].artist)
        } else if self.queue_pending() {
            None
        } else {
            Some("—"@)
        }
    }

    pub open spec fn rows(self, count: nat) -> Acts
        decreases count,
    {
        if count == 0 {
            Seq::empty()
        } else {
            let above = self.rows((count - 1) as nat);
            match self.row(count - 1) {
                Some(label) => above.push(
                    Action::QueueRow { index: (count - 1) as usize, label },
                ),
                None => above,
            }
        }
    }

    /// Draws the cached queue. Rows past the end of what we know are left alone
    /// while a fetch is in flight, so nothing blanks out mid-update.
    pub open spec fn render_queue(self) -> Acts {
        self.rows(QUEUE_ROWS as nat)
    }

    /// All Web API lookups share one debounced timer, so a burst of skips
    /// resolves to a single round of requests.
    pub open spec fn schedule_lookups(self) -> (Model, Acts) {
        (
            Model { lookup_debounce: true, ..self },
            cancelled(self.lookup_debounce, Timer::Lookup).push(Action::Arm(Timer::Lookup)),
        )
    }

    /// The model once `snap` is drawn: where it names another track than the
    /// one drawn before, a new generation begins and the window slides.
    pub open spec fn drawn(self, snap: SnapshotView) -> Model {
        if self.rendered != snap.track_id {
            let next = Model {
                snap: Some(snap),
                generation: (self.generation + 1) as u64,
                rendered: snap.track_id,
                ..self
            };
            next.slide(
                snap,
                match self.snap {
                    Some(before) => Some(self.track_of(before)),
                    None => None,
                },
            )
        } else {
            Model { snap: Some(snap), ..self }
        }
    }

    /// What draws `snap`, but for what depends on the track having changed.
    pub open spec fn draw(self, snap: SnapshotView) -> Acts {
        seq![Action::ShowPlaying, Action::Title(snap.title)] + self.render_artist(snap) + seq![
            Action::PlayIcon { playing: snap.playing },
            Action::Progress { position_us: snap.position_us, length_us: snap.length_us },
            Action::Elapsed(clock_text(snap.position_us)),
            Action::Total(clock_text(snap.length_us)),
        ]
    }

    /// Another track has begun: its art is shown, whether it is liked is not
    /// known, and the lookups are scheduled before the queue is drawn, so that
    /// rows past the end of the window hold what they say until the refetch
    /// lands.
    pub open spec fn begin_track(self, art_url: Seq<char>) -> (Model, Acts) {
        let painted = self.apply_liked(None);
        let scheduled = painted.0.schedule_lookups();
        (
            scheduled.0,
            seq![Action::Art { url: art_url, generation: self.generation }] + painted.1
                + scheduled.1 + scheduled.0.render_queue(),
        )
    }

    pub open spec fn queue_stale(self, now: u64) -> bool {
        now >= self.queue_fetched_at && now - self.queue_fetched_at >= QUEUE_TTL
    }

    /// Whether a reading is of another track than the one drawn.
    pub open spec fn begins_track(self, reading: Option<SnapshotView>) -> bool {
        reading matches Some(snap) && snap.title.len() > 0 && self.rendered != snap.track_id
    }

    /// The player was read: `reading` is what it said, `now` when. `opening`
    /// forces a lookup of what is stale or unknown even when the track hasn't
    /// changed, so a re-hover picks up reordering.
    pub open spec fn refresh(
        self,
        opening: bool,
        reading: Option<SnapshotView>,
        has_player: bool,
        now: u64,
    ) -> (Model, Acts) {
        match reading {
            Some(snap) if snap.title.len() > 0 => {
                let drawn = self.drawn(snap);
                if self.rendered != snap.track_id {
                    let (model, changes) = drawn.begin_track(snap.art_url);
                    (model, self.draw(snap) + changes)
                } else if opening && (drawn.queue_stale(now) || drawn.liked is None) {
                    let (model, changes) = drawn.schedule_lookups();
                    (model, self.draw(snap) + changes)
                } else {
                    (drawn, self.draw(snap))
                }
            },
            _ => (
                Model { snap: None, rendered: Seq::empty(), ..self },
                seq![
                    Action::ShowIdle(
                        if has_player {
                            "Nothing playing"@
                        } else {
                            "No session bus"@
                        },
                    ),
                ],
            ),
        }
    }
}

impl State {
    /// Prefer the Web API's full artist list over MPRIS's primary-artist-only
    /// value.
    pub fn render_artist(&self, snap: &Snapshot, out: &mut Vec<Action<String>>)
        ensures
            acts(final(out)@) == acts(old(out)@) + self@.render_artist(snap@),
    {
        if self.copy_feedback {
            return;
        }
        emit(out, Action::Artist(self.artist_line(snap)));
    }

    /// Paint the liked state. `None` means "not known yet".
    pub fn apply_liked(&mut self, liked: Option<bool>, out: &mut Vec<Action<String>>)
        ensures
            final(self)@ == old(self)@.apply_liked(liked).0,
            acts(final(out)@) == acts(old(out)@) + old(self)@.apply_liked(liked).1,
    {
        self.liked = liked;
        let starred = match liked {
            Some(liked) => liked,
            None => false,
        };
        emit(out, Action::LikeFace { starred, unknown: liked.is_none() });
    }

    /// Draw the cached queue.
    pub fn render_queue(&self, out: &mut Vec<Action<String>>)
        ensures
            acts(final(out)@) == acts(old(out)@) + self@.render_queue(),
    {
        let pending = self.queue_inflight.is_some() || self.lookup_debounce;
        let ghost before = acts(out@);
        let mut index: usize = 0;
        while index < QUEUE_ROWS
            invariant
                index <= QUEUE_ROWS,
                pending == self@.queue_pending(),
                acts(out@) == before + self@.rows(index as nat),
            decreases QUEUE_ROWS - index,
        {
            if index < self.queue.len() {
                let track = &self.queue[index];
                let label = concat(
                    concat(track.title.as_str(), "  ·  ").as_str(),
                    track.artist.as_str(),
                );
                emit(out, Action::QueueRow { index, label });
            } else if !pending {
                emit(out, Action::QueueRow { index, label: "—".to_owned() });
            }
            index = index + 1;
        }
    }

    /// Has the lookups made once the track has settled.
    pub fn schedule_lookups(&mut self, out: &mut Vec<Action<String>>)
        ensures
            final(self)@ == old(self)@.schedule_lookups().0,
            acts(final(out)@) == acts(old(out)@) + old(self)@.schedule_lookups().1,
    {
        cancel(self.lookup_debounce, Timer::Lookup, out);
        self.lookup_debounce = true;
        emit(out, Action::Arm(Timer::Lookup));
    }

    /// Draws what a snapshot says, but for what depends on the track having
    /// changed.
    #[verifier::rlimit(40)]
    fn draw(&self, snap: &Snapshot, out: &mut Vec<Action<String>>)
        ensures
            acts(final(out)@) == acts(old(out)@) + self@.draw(snap@),
    {
        emit(out, Action::ShowPlaying);
        emit(out, Action::Title(snap.title.clone()));
        self.render_artist(snap, out);
        emit(out, Action::PlayIcon { playing: snap.playing });
        emit(
            out,
            Action::Progress { position_us: snap.position_us, length_us: snap.length_us },
        );
        emit(out, Action::Elapsed(clock(snap.position_us)));
        emit(out, Action::Total(clock(snap.length_us)));
    }

    /// Notes that a snapshot is drawn, and slides the window if it is of
    /// another track than the one drawn before.
    fn note_drawn(&mut self, snap: &Snapshot)
        requires
            old(self)@.rendered != snap@.track_id ==> old(self).generation < u64::MAX,
        ensures
            final(self)@ == old(self)@.drawn(snap@),
    {
        let outgoing = match &self.snap {
            Some(before) => Some(self.track_of(before)),
            None => None,
        };
        let changed = !same_text(self.rendered.as_str(), snap.track_id.as_str());
        self.snap = Some(snap.clone());
        if changed {
            self.generation = self.generation + 1;
            self.rendered = snap.track_id.clone();
            self.slide_window(snap, outgoing);
        }
    }

    /// Redraws from what the player said. `reading` is `None` where it could
    /// not be read, `has_player` whether there is one to be read at all.
    #[verifier::rlimit(40)]
    pub fn refresh(
        &mut self,
        opening: bool,
        reading: Option<Snapshot>,
        has_player: bool,
        now: u64,
        out: &mut Vec<Action<String>>,
    )
        requires
            old(self)@.begins_track(opt_snapshot(reading)) ==> old(self).generation < u64::MAX,
        ensures
            final(self)@ == old(self)@.refresh(opening, opt_snapshot(reading), has_player, now).0,
            acts(final(out)@) == acts(old(out)@) + old(self)@.refresh(
                opening,
                opt_snapshot(reading),
                has_player,
                now,
            ).1,
    {
        let snap = match reading {
            Some(snap) => if snap.title.as_str().is_empty() {
                None
            } else {
                Some(snap)
            },
            None => None,
        };
        let snap = match snap {
            Some(snap) => snap,
            None => {
                let label = if has_player {
                    "Nothing playing"
                } else {
                    "No session bus"
                };
                emit(out, Action::ShowIdle(label.to_owned()));
                self.snap = None;
                self.rendered = String::new();
                return;
            },
        };
        self.draw(&snap, out);
        let changed = !same_text(self.rendered.as_str(), snap.track_id.as_str());
        self.note_drawn(&snap);
        let stale = now >= self.queue_fetched_at && now - self.queue_fetched_at >= QUEUE_TTL;
        if changed {
            self.begin_track(snap.art_url.as_str(), out);
        } else if opening && (stale || self.liked.is_none()) {
            self.schedule_lookups(out);
        }
    }

    #[verifier::rlimit(40)]
    fn begin_track(&mut self, art_url: &str, out: &mut Vec<Action<String>>)
        ensures
            final(self)@ == old(self)@.begin_track(art_url@).0,
            acts(final(out)@) == acts(old(out)@) + old(self)@.begin_track(art_url@).1,
    {
        emit(out, Action::Art { url: art_url.to_owned(), generation: self.generation });
        self.apply_liked(None, out);
        self.schedule_lookups(out);
        self.render_queue(out);
    }
}

/// Results from worker threads, tagged with the generation they were requested
/// for, so results for a track we've already moved past get dropped.
pub enum Msg {
    Art { generation: u64, path: String },
    Queue { generation: u64, queue: Queue },
    QueueFailed { generation: u64 },
    Liked { generation: u64, liked: bool },
    Previous { generation: u64, track: Option<Track> },
}

impl Msg {
    pub open spec fn stamp(self) -> u64 {
        match self {
            Msg::Art { generation, .. } => generation,
            Msg::Queue { generation, .. } => generation,
            Msg::QueueFailed { generation } => generation,
            Msg::Liked { generation, .. } => generation,
            Msg::Previous { generation, .. } => generation,
        }
    }
}

impl Model {
    /// The id of what is playing.
    pub open spec fn playing_id(self) -> Option<Seq<char>> {
        match self.snap {
            Some(snap) => mpris::id_in(snap),
            None => None,
        }
    }

    /// Asks for the queue, unless that is under way for this generation.
    pub open spec fn fetch_queue(self) -> (Model, Acts) {
        if self.queue_inflight == Some(self.generation) {
            (self, Seq::empty())
        } else {
            (
                Model { queue_inflight: Some(self.generation), ..self },
                seq![Action::FetchQueue { generation: self.generation }],
            )
        }
    }

    /// Asks whether the track that is playing is saved, unless that is under
    /// way for this generation.
    pub open spec fn fetch_liked(self) -> (Model, Acts) {
        match self.playing_id() {
            Some(id) => if self.liked_inflight == Some(self.generation) {
                (self, Seq::empty())
            } else {
                (
                    Model { liked_inflight: Some(self.generation), ..self },
                    seq![Action::FetchLiked { generation: self.generation, id }],
                )
            },
            None => (self, Seq::empty()),
        }
    }

    /// Asks for the track played last, unless local history supplies it or that
    /// is under way for this generation.
    pub open spec fn fetch_previous(self) -> (Model, Acts) {
        if self.prev is Some || self.prev_inflight == Some(self.generation) {
            (self, Seq::empty())
        } else {
            (
                Model { prev_inflight: Some(self.generation), ..self },
                seq![Action::FetchPrevious { generation: self.generation }],
            )
        }
    }

    /// The lookups are due, for whatever track we actually landed on.
    pub open spec fn look_up(self) -> (Model, Acts) {
        let due = Model { lookup_debounce: false, ..self };
        let queue = due.fetch_queue();
        let liked = queue.0.fetch_liked();
        let previous = liked.0.fetch_previous();
        (previous.0, queue.1 + liked.1 + previous.1)
    }

    /// The link of what is playing goes to the clipboard, and the artist line
    /// says so for a while.
    pub open spec fn copy_link(self) -> (Model, Acts) {
        match self.playing_id() {
            Some(id) => (
                Model { copy_feedback: true, ..self },
                seq![Action::Copy(mpris::link(id))] + cancelled(
                    self.copy_feedback,
                    Timer::CopyFeedback,
                ) + seq![
                    Action::Artist("Link copied"@),
                    Action::Arm(Timer::CopyFeedback),
                ],
            ),
            None => (self, Seq::empty()),
        }
    }

    pub open spec fn end_feedback(self) -> (Model, Acts) {
        let after = Model { copy_feedback: false, ..self };
        (
            after,
            match self.snap {
                Some(snap) => after.render_artist(snap),
                None => Seq::empty(),
            },
        )
    }

    /// Shows the art at `url`: at once where it is `cached`. Until it has been
    /// fetched the art shown before stays; only a track without any is shown
    /// as such.
    pub open spec fn set_art(
        self,
        url: Seq<char>,
        generation: u64,
        cached: Option<Seq<char>>,
    ) -> (Model, Acts) {
        match cached {
            Some(path) => (self, seq![Action::ArtFile(path)]),
            None => if url.len() == 0 {
                (self, seq![Action::ArtPlaceholder])
            } else if self.art_inflight == Some(generation) {
                (self, Seq::empty())
            } else {
                (
                    Model { art_inflight: Some(generation), ..self },
                    seq![Action::FetchArt { url, generation }],
                )
            },
        }
    }

    /// The star was clicked: it shows the new state at once. Nothing to toggle
    /// until the library check has come back.
    pub open spec fn toggle_liked(self) -> (Model, Acts) {
        match (self.liked, self.playing_id()) {
            (Some(current), Some(id)) => {
                let shown = self.apply_liked(Some(!current));
                (
                    shown.0,
                    shown.1.push(
                        Action::SetLiked {
                            generation: self.generation,
                            id,
                            current,
                            target: !current,
                        },
                    ),
                )
            },
            _ => (self, Seq::empty()),
        }
    }

    /// What can be sought in: the track and its length, where a click on a bar
    /// of this width means a position in it.
    pub open spec fn seekable(self, width: i32) -> Option<(Seq<char>, i64)> {
        match self.snap {
            Some(snap) => if width > 0 && snap.length_us > 0 && snap.track_id.len() > 0 {
                Some((snap.track_id, snap.length_us))
            } else {
                None
            },
            None => None,
        }
    }

    /// A queue has come in: it replaces the window, and brings the full artist
    /// list of what is playing along.
    pub open spec fn take_queue(self, queue: api::QueueView, now: u64) -> (Model, Acts) {
        let fresh = Model {
            queue: queue.next,
            queue_fetched_at: now,
            artists: match queue.now {
                Some(track) => Some((track.id, track.artist)),
                None => self.artists,
            },
            ..self
        };
        (
            fresh,
            fresh.render_queue() + match self.snap {
                Some(snap) => fresh.render_artist(snap),
                None => Seq::empty(),
            },
        )
    }

    /// What history says was played last. It includes the current track once
    /// that has played far enough, which would make a backward skip look like a
    /// jump: such an answer is discarded.
    pub open spec fn take_previous(self, track: Option<TrackView>) -> Model {
        if track matches Some(t) && t.is(api::or_empty(self.playing_id())) {
            self
        } else {
            Model { prev: track, ..self }
        }
    }

    /// A worker reported. What was requested for a track we've already moved
    /// past is dropped, but is no longer under way.
    pub open spec fn handle(self, msg: Msg, now: u64) -> (Model, Acts) {
        match msg {
            Msg::Art { generation, path } => (
                Model { art_inflight: None, ..self },
                if generation == self.generation {
                    seq![Action::ArtFile(path@)]
                } else {
                    Seq::empty()
                },
            ),
            Msg::Queue { generation, queue } => {
                let done = Model { queue_inflight: None, ..self };
                if generation == self.generation {
                    done.take_queue(queue@, now)
                } else {
                    (done, Seq::empty())
                }
            },
            Msg::QueueFailed { generation } => {
                // Whatever's on screen stays; the rows that nothing is known of
                // settle.
                let done = Model { queue_inflight: None, ..self };
                (
                    done,
                    if generation == self.generation {
                        done.render_queue()
                    } else {
                        Seq::empty()
                    },
                )
            },
            Msg::Liked { generation, liked } => {
                let done = Model { liked_inflight: None, ..self };
                if generation == self.generation {
                    done.apply_liked(Some(liked))
                } else {
                    (done, Seq::empty())
                }
            },
            Msg::Previous { generation, track } => {
                let done = Model { prev_inflight: None, ..self };
                (
                    if generation == self.generation {
                        done.take_previous(opt_track(track))
                    } else {
                        done
                    },
                    Seq::empty(),
                )
            },
        }
    }
}

pub open spec fn settled_as(accepted: bool, current: bool, target: bool) -> bool {
    if accepted {
        target
    } else {
        current
    }
}

/// What the star shows once a toggle has been `accepted` or refused.
pub fn settled(accepted: bool, current: bool, target: bool) -> (liked: bool)
    ensures
        liked == settled_as(accepted, current, target),
{
    if accepted {
        target
    } else {
        current
    }
}

fn is_stamp(slot: Option<u64>, generation: u64) -> (yes: bool)
    ensures
        yes == (slot == Some(generation)),
{
    match slot {
        Some(stamp) => stamp == generation,
        None => false,
    }
}

impl State {
    fn playing_id(&self) -> (id: Option<String>)
        ensures
            text::opt_text(id) == self@.playing_id(),
    {
        match &self.snap {
            Some(snap) => spotify_id(snap),
            None => None,
        }
    }

    pub fn fetch_queue(&mut self, out: &mut Vec<Action<String>>)
        ensures
            final(self)@ == old(self)@.fetch_queue().0,
            acts(final(out)@) == acts(old(out)@) + old(self)@.fetch_queue().1,
    {
        if is_stamp(self.queue_inflight, self.generation) {
            return;
        }
        self.queue_inflight = Some(self.generation);
        emit(out, Action::FetchQueue { generation: self.generation });
    }

    pub fn fetch_liked(&mut self, out: &mut Vec<Action<String>>)
        ensures
            final(self)@ == old(self)@.fetch_liked().0,
            acts(final(out)@) == acts(old(out)@) + old(self)@.fetch_liked().1,
    {
        if let Some(id) = self.playing_id() {
            if !is_stamp(self.liked_inflight, self.generation) {
                self.liked_inflight = Some(self.generation);
                emit(out, Action::FetchLiked { generation: self.generation, id });
            }
        }
    }

    /// Only asks Spotify when local history can't supply the previous track —
    /// after a cold open, or immediately after a backward skip.
    pub fn fetch_previous(&mut self, out: &mut Vec<Action<String>>)
        ensures
            final(self)@ == old(self)@.fetch_previous().0,
            acts(final(out)@) == acts(old(out)@) + old(self)@.fetch_previous().1,
    {
        if self.prev.is_some() || is_stamp(self.prev_inflight, self.generation) {
            return;
        }
        self.prev_inflight = Some(self.generation);
        emit(out, Action::FetchPrevious { generation: self.generation });
    }

    /// The debounce has ended: one round of requests for wherever we landed.
    #[verifier::rlimit(40)]
    pub fn look_up(&mut self, out: &mut Vec<Action<String>>)
        ensures
            final(self)@ == old(self)@.look_up().0,
            acts(final(out)@) == acts(old(out)@) + old(self)@.look_up().1,
    {
        let ghost before = acts(out@);
        self.lookup_debounce = false;
        let ghost due = self@;
        self.fetch_queue(out);
        self.fetch_liked(out);
        self.fetch_previous(out);
        proof {
            let queue = due.fetch_queue();
            let liked = queue.0.fetch_liked();
            let previous = liked.0.fetch_previous();
            assert(due == (Model { lookup_debounce: false, ..old(self)@ }));
            assert(acts(out@) == before + queue.1 + liked.1 + previous.1);
            assert(before + queue.1 + liked.1 + previous.1 == before + (queue.1 + liked.1
                + previous.1));
        }
    }

    /// Copy a clean track URL — no `?si=` share parameter, which is what makes
    /// Spotify's own "copy link" output a tracking URL.
    #[verifier::rlimit(40)]
    pub fn copy_link(&mut self, out: &mut Vec<Action<String>>)
        ensures
            final(self)@ == old(self)@.copy_link().0,
            acts(final(out)@) == acts(old(out)@) + old(self)@.copy_link().1,
    {
        if let Some(id) = self.playing_id() {
            emit(out, Action::Copy(track_link(id.as_str())));
            cancel(self.copy_feedback, Timer::CopyFeedback, out);
            emit(out, Action::Artist("Link copied".to_owned()));
            self.copy_feedback = true;
            emit(out, Action::Arm(Timer::CopyFeedback));
        }
    }

    /// The copy confirmation has been shown long enough.
    pub fn end_feedback(&mut self, out: &mut Vec<Action<String>>)
        ensures
            final(self)@ == old(self)@.end_feedback().0,
            acts(final(out)@) == acts(old(out)@) + old(self)@.end_feedback().1,
    {
        self.copy_feedback = false;
        if let Some(snap) = &self.snap {
            self.render_artist(snap, out);
        }
    }

    /// Show the art at `url`; `cached` is where it lies on disk, if it does.
    pub fn set_art(
        &mut self,
        url: &str,
        generation: u64,
        cached: Option<String>,
        out: &mut Vec<Action<String>>,
    )
        ensures
            final(self)@ == old(self)@.set_art(url@, generation, text::opt_text(cached)).0,
            acts(final(out)@) == acts(old(out)@) + old(self)@.set_art(
                url@,
                generation,
                text::opt_text(cached),
            ).1,
    {
        if let Some(path) = cached {
            emit(out, Action::ArtFile(path));
            return;
        }
        if url.is_empty() {
            emit(out, Action::ArtPlaceholder);
            return;
        }
        if is_stamp(self.art_inflight, generation) {
            return;
        }
        self.art_inflight = Some(generation);
        emit(out, Action::FetchArt { url: url.to_owned(), generation });
    }

    /// The star was clicked.
    pub fn toggle_liked(&mut self, out: &mut Vec<Action<String>>)
        ensures
            final(self)@ == old(self)@.toggle_liked().0,
            acts(final(out)@) == acts(old(out)@) + old(self)@.toggle_liked().1,
    {
        if let (Some(current), Some(id)) = (self.liked, self.playing_id()) {
            let generation = self.generation;
            let target = !current;
            // Show the new state at once; it is reverted if Spotify refuses.
            self.apply_liked(Some(target), out);
            emit(out, Action::SetLiked { generation, id, current, target });
        }
    }

    /// What a click on a seek bar of this width can seek in: a track and its
    /// length.
    pub fn seekable(&self, width: i32) -> (range: Option<(String, i64)>)
        ensures
            (match range {
                Some((track_id, length_us)) => Some((track_id@, length_us)),
                None => None,
            }) == self@.seekable(width),
    {
        match &self.snap {
            Some(snap) => if width > 0 && snap.length_us > 0 && !snap.track_id.as_str().is_empty() {
                Some((snap.track_id.clone(), snap.length_us))
            } else {
                None
            },
            None => None,
        }
    }

    #[verifier::rlimit(40)]
    fn take_queue(&mut self, queue: Queue, now: u64, out: &mut Vec<Action<String>>)
        ensures
            final(self)@ == old(self)@.take_queue(queue@, now).0,
            acts(final(out)@) == acts(old(out)@) + old(self)@.take_queue(queue@, now).1,
    {
        self.queue = queue.next;
        self.queue_fetched_at = now;
        if let Some(track) = queue.now {
            self.artists = Some((track.id, track.artist));
        }
        self.render_queue(out);
        if let Some(snap) = &self.snap {
            self.render_artist(snap, out);
        }
    }

    fn take_previous(&mut self, track: Option<Track>)
        ensures
            final(self)@ == old(self)@.take_previous(opt_track(track)),
    {
        let playing = match self.playing_id() {
            Some(id) => id,
            None => String::new(),
        };
        let echo = match &track {
            Some(track) => track.is(playing.as_str()),
            None => false,
        };
        if !echo {
            self.prev = track;
        }
    }

    /// A worker reported, at `now`.
    #[verifier::rlimit(40)]
    pub fn handle(&mut self, msg: Msg, now: u64, out: &mut Vec<Action<String>>)
        ensures
            final(self)@ == old(self)@.handle(msg, now).0,
            acts(final(out)@) == acts(old(out)@) + old(self)@.handle(msg, now).1,
    {
        match msg {
            Msg::Art { generation, path } => {
                if generation == self.generation {
                    emit(out, Action::ArtFile(path));
                }
                self.art_inflight = None;
            },
            Msg::Queue { generation, queue } => {
                self.queue_inflight = None;
                if generation == self.generation {
                    self.take_queue(queue, now, out);
                }
            },
            Msg::QueueFailed { generation } => {
                self.queue_inflight = None;
                if generation == self.generation {
                    self.render_queue(out);
                }
            },
            Msg::Liked { generation, liked } => {
                self.liked_inflight = None;
                if generation == self.generation {
                    self.apply_liked(Some(liked), out);
                }
            },
            Msg::Previous { generation, track } => {
                self.prev_inflight = None;
                if generation == self.generation {
                    self.take_previous(track);
                }
            },
        }
    }
}

/// Everything that can happen to the card.
pub enum Event {
    /// The cursor came into, or left, the strip or the card.
    Hover { is_trigger: bool, inside: bool },
    /// A timer ran out.
    Elapsed(Timer),
    /// The mapped card is ready to be faded in.
    Idle,
    /// The player has settled. Nothing is read for a card that has closed
    /// meanwhile.
    Settled,
    /// The player was read.
    Read { opening: bool, reading: Option<Snapshot>, has_player: bool, now: u64 },
    /// Art was looked up on disk.
    ArtLooked { url: String, generation: u64, cached: Option<String> },
    /// A transport button was clicked, or a position was sought.
    Transport,
    /// The star was clicked.
    Star,
    /// The art, title or artist was clicked.
    Identity,
    /// A worker reported.
    Worker { msg: Msg, now: u64 },
}

impl Model {
    /// Whether the generation that `event` begins, if it begins one, can be
    /// counted.
    pub open spec fn can_count(self, event: Event) -> bool {
        event matches Event::Read { reading, .. } ==> (self.begins_track(opt_snapshot(reading))
            ==> self.generation < u64::MAX)
    }

    pub open spec fn elapsed(self, timer: Timer) -> (Model, Acts) {
        match timer {
            Timer::Dwell => Model { dwell: false, ..self }.open_up(),
            Timer::Grace => Model { grace: false, ..self }.close_down(),
            Timer::Unmap => self.unmapped(),
            Timer::Tick => (self, seq![Action::Refresh { opening: false }]),
            Timer::Lookup => self.look_up(),
            Timer::CopyFeedback => self.end_feedback(),
        }
    }

    /// What follows `event`.
    pub open spec fn step(self, event: Event) -> (Model, Acts) {
        match event {
            Event::Hover { is_trigger, inside } => self.set_hovered(is_trigger, inside),
            Event::Elapsed(timer) => self.elapsed(timer),
            Event::Idle => (
                self,
                if self.open {
                    seq![Action::Reveal(true)]
                } else {
                    Seq::empty()
                },
            ),
            Event::Settled => (
                self,
                if self.open {
                    seq![Action::Refresh { opening: false }]
                } else {
                    Seq::empty()
                },
            ),
            Event::Read { opening, reading, has_player, now } => self.refresh(
                opening,
                opt_snapshot(reading),
                has_player,
                now,
            ),
            Event::ArtLooked { url, generation, cached } => self.set_art(
                url@,
                generation,
                text::opt_text(cached),
            ),
            Event::Transport => (self, seq![Action::RefreshSoon]),
            Event::Star => self.toggle_liked(),
            Event::Identity => self.copy_link(),
            Event::Worker { msg, now } => self.handle(msg, now),
        }
    }
}

impl State {
    fn elapsed(&mut self, timer: Timer, out: &mut Vec<Action<String>>)
        ensures
            final(self)@ == old(self)@.elapsed(timer).0,
            acts(final(out)@) == acts(old(out)@) + old(self)@.elapsed(timer).1,
    {
        match timer {
            Timer::Dwell => {
                self.dwell = false;
                self.open(out);
            },
            Timer::Grace => {
                self.grace = false;
                self.close(out);
            },
            Timer::Unmap => self.unmap(out),
            Timer::Tick => emit(out, Action::Refresh { opening: false }),
            Timer::Lookup => self.look_up(out),
            Timer::CopyFeedback => self.end_feedback(out),
        }
    }

    /// Whether an event can be stepped on: all can, until the track changes are
    /// more than 64 bits count.
    pub fn accepts(&self, event: &Event) -> (yes: bool)
        ensures
            yes == self@.can_count(*event),
    {
        match event {
            Event::Read { reading: Some(snap), .. } => {
                self.generation < u64::MAX || snap.title.as_str().is_empty() || same_text(
                    self.rendered.as_str(),
                    snap.track_id.as_str(),
                )
            },
            _ => true,
        }
    }

    /// Takes note of an event and says what to do about it, in order. Track
    /// changes are counted in 64 bits.
    #[verifier::rlimit(40)]
    pub fn step(&mut self, event: Event) -> (out: Vec<Action<String>>)
        requires
            old(self)@.can_count(event),
        ensures
            final(self)@ == old(self)@.step(event).0,
            acts(out@) == old(self)@.step(event).1,
    {
        let mut out: Vec<Action<String>> = Vec::new();
        proof {
            assert(acts(out@) == Seq::<Action<Seq<char>>>::empty());
        }
        match event {
            Event::Hover { is_trigger, inside } => self.set_hovered(is_trigger, inside, &mut out),
            Event::Elapsed(timer) => self.elapsed(timer, &mut out),
            Event::Idle => if self.open {
                emit(&mut out, Action::Reveal(true));
            },
            Event::Settled => if self.open {
                emit(&mut out, Action::Refresh { opening: false });
            },
            Event::Read { opening, reading, has_player, now } => self.refresh(
                opening,
                reading,
                has_player,
                now,
                &mut out,
            ),
            Event::ArtLooked { url, generation, cached } => self.set_art(
                url.as_str(),
                generation,
                cached,
                &mut out,
            ),
            Event::Transport => emit(&mut out, Action::RefreshSoon),
            Event::Star => self.toggle_liked(&mut out),
            Event::Identity => self.copy_link(&mut out),
            Event::Worker { msg, now } => self.handle(msg, now, &mut out),
        }
        out
    }
}

} // verus!
