use spotify_peek::api::{Queue, Track};
use spotify_peek::card::{
    clock, like_icon, play_icon, settled, Action, Event, Msg, State, Timer, FADE_MS, QUEUE_FETCH,
    QUEUE_ROWS, SETTLE_MS,
};
use spotify_peek::mpris::{spotify_id, Snapshot};

fn track(id: &str) -> Track {
    Track {
        id: id.into(),
        title: id.into(),
        artist: "someone".into(),
    }
}

/// A snapshot as MPRIS delivers it, with the object-path style track id.
fn playing(id: &str) -> Snapshot {
    Snapshot {
        track_id: format!("/com/spotify/track/{id}"),
        title: id.into(),
        ..Default::default()
    }
}

fn window(prev: Option<&str>, queue: &[&str]) -> State {
    State {
        prev: prev.map(track),
        queue: queue.iter().map(|id| track(id)).collect(),
        ..Default::default()
    }
}

fn ids(tracks: &[Track]) -> Vec<&str> {
    tracks.iter().map(|t| t.id.as_str()).collect()
}

#[test]
fn skipping_forward_promotes_the_queue_head() {
    let mut state = window(None, &["b", "c", "d", "e"]);
    state.slide_window(&playing("b"), Some(track("a")));

    assert_eq!(ids(&state.queue), ["c", "d", "e"], "head is consumed");
    assert_eq!(
        state.prev.as_ref().map(|t| t.id.as_str()),
        Some("a"),
        "the track we left becomes prev, for free"
    );
}

#[test]
fn skipping_back_pushes_the_current_track_onto_the_queue() {
    let mut state = window(Some("a"), &["c", "d"]);
    state.slide_window(&playing("a"), Some(track("b")));

    assert_eq!(ids(&state.queue), ["b", "c", "d"]);
    assert!(state.prev.is_none(), "what's behind 'a' is now unknown");
}

#[test]
fn the_window_stays_bounded_when_skipping_back() {
    let mut state = window(Some("a"), &["c", "d", "e", "f"]);
    state.slide_window(&playing("a"), Some(track("b")));
    assert_eq!(state.queue.len(), QUEUE_FETCH);
}

/// Jumping somewhere unrelated must leave the window alone rather than
/// blanking it; the refetch replaces it a moment later.
#[test]
fn an_unrelated_jump_leaves_the_window_alone() {
    let mut state = window(Some("a"), &["c", "d"]);
    state.slide_window(&playing("zzz"), Some(track("b")));

    assert_eq!(ids(&state.queue), ["c", "d"]);
    assert_eq!(state.prev.as_ref().map(|t| t.id.as_str()), Some("a"));
}

/// Spotify's `Previous` restarts the current track when you're a few
/// seconds in. That's no id change, so nothing may shift.
#[test]
fn restarting_the_same_track_does_not_shift() {
    let mut state = window(Some("a"), &["c", "d"]);
    state.slide_window(&playing("b"), Some(track("b")));

    assert_eq!(ids(&state.queue), ["c", "d"]);
    assert_eq!(state.prev.as_ref().map(|t| t.id.as_str()), Some("a"));
}

#[test]
fn full_artist_list_wins_over_mpris_when_it_matches() {
    let mut state = window(None, &[]);
    state.artists = Some(("b".into(), "Drake, Kanye West".into()));

    let mut snap = playing("b");
    snap.artist = "Drake".into();
    assert_eq!(state.track_of(&snap).artist, "Drake, Kanye West");

    // ...but a list belonging to a different track is ignored.
    let mut other = playing("zzz");
    other.artist = "Someone Else".into();
    assert_eq!(state.track_of(&other).artist, "Someone Else");
}

#[test]
fn formats_times_as_minutes_and_seconds() {
    assert_eq!(clock(0), "0:00");
    assert_eq!(clock(65_000_000), "1:05");
    assert_eq!(clock(-5), "0:00");
}

#[test]
fn extracts_the_base62_id_from_the_mpris_path() {
    assert_eq!(
        spotify_id(&playing("7oDbkGSI3IRz")).as_deref(),
        Some("7oDbkGSI3IRz")
    );
    assert!(spotify_id(&Snapshot::default()).is_none());
}

#[test]
fn clock_covers_the_extremes() {
    assert_eq!(clock(59_999_999), "0:59");
    assert_eq!(clock(60_000_000), "1:00");
    assert_eq!(clock(3_600_000_000), "60:00");
    assert_eq!(clock(i64::MIN), "0:00");
    assert_eq!(clock(i64::MAX), "153722867280:54");
}

fn hover(inside: bool) -> Event {
    Event::Hover { is_trigger: true, inside }
}

fn read(opening: bool, snap: Option<Snapshot>, now: u64) -> Event {
    Event::Read { opening, reading: snap, has_player: true, now }
}

/// A card that has been opened and shows `id`.
fn opened(id: &str) -> State {
    let mut state = State::default();
    state.step(hover(true));
    state.step(Event::Elapsed(Timer::Dwell));
    state.step(read(true, Some(playing(id)), 100));
    state
}

#[test]
fn the_card_opens_after_the_dwell() {
    let mut state = State::default();
    assert_eq!(state.step(hover(true)), [Action::Arm(Timer::Dwell)]);
    assert!(!state.open);
    assert_eq!(state.step(hover(true)), [], "the dwell goes on");
    assert_eq!(
        state.step(Event::Elapsed(Timer::Dwell)),
        [
            Action::Refresh { opening: true },
            Action::Present,
            Action::RevealWhenIdle,
            Action::Arm(Timer::Tick),
        ]
    );
    assert!(state.open);
    assert_eq!(state.step(Event::Idle), [Action::Reveal(true)]);
    assert_eq!(
        state.step(Event::Elapsed(Timer::Tick)),
        [Action::Refresh { opening: false }]
    );
}

#[test]
fn a_crossing_summons_nothing() {
    let mut state = State::default();
    state.step(hover(true));
    assert_eq!(state.step(hover(false)), [Action::Disarm(Timer::Dwell)]);
    assert!(!state.open && !state.dwell && !state.grace);
    assert_eq!(state.step(Event::Idle), [], "a closed card is not revealed");
}

#[test]
fn the_handover_keeps_the_card_open() {
    let mut state = opened("a");
    assert_eq!(state.step(hover(false)), [Action::Arm(Timer::Grace)]);
    assert_eq!(
        state.step(Event::Hover { is_trigger: false, inside: true }),
        [Action::Disarm(Timer::Grace)]
    );
    assert!(state.open && state.in_popup && !state.in_trigger);
}

#[test]
fn leaving_cancels_everything() {
    let mut state = opened("a");
    state.step(Event::Identity);
    assert!(state.lookup_debounce && state.copy_feedback);
    state.step(hover(false));
    assert_eq!(
        state.step(Event::Elapsed(Timer::Grace)),
        [
            Action::Disarm(Timer::Tick),
            Action::Disarm(Timer::Lookup),
            Action::Disarm(Timer::CopyFeedback),
            Action::Reveal(false),
            Action::Arm(Timer::Unmap),
        ]
    );
    assert_eq!(state.step(Event::Settled), [], "a closed card reads nothing");
    assert_eq!(
        state.step(Event::Elapsed(Timer::Unmap)),
        [Action::Hide, Action::ReleaseHeap]
    );
    let timers = [
        state.dwell,
        state.grace,
        state.unmap,
        state.tick,
        state.lookup_debounce,
        state.copy_feedback,
    ];
    assert_eq!(timers, [false; 6]);
}

#[test]
fn reopening_during_the_fade_stops_the_unmap() {
    let mut state = opened("a");
    state.step(hover(false));
    state.step(Event::Elapsed(Timer::Grace));
    state.step(hover(true));
    let actions = state.step(Event::Elapsed(Timer::Dwell));
    assert_eq!(actions[0], Action::Disarm(Timer::Unmap));
    assert!(state.open && !state.unmap);
    let mut out = Vec::new();
    state.unmap(&mut out);
    assert_eq!(out, [], "an open card is not hidden");
    state.open(&mut out);
    assert_eq!(out, [], "an open card is not opened again");
}

#[test]
fn delays_are_in_order() {
    assert_eq!(Timer::Dwell.millis(), 120);
    assert_eq!(Timer::Grace.millis(), 200);
    assert_eq!(Timer::Unmap.millis(), 180);
    assert_eq!(Timer::Tick.millis(), 1000);
    assert_eq!(Timer::Lookup.millis(), 350);
    assert_eq!(Timer::CopyFeedback.millis(), 1200);
    assert!(Timer::Unmap.millis() > u64::from(FADE_MS));
    assert!(SETTLE_MS < Timer::Grace.millis());
}

#[test]
fn a_track_change_redraws_everything() {
    let mut state = opened("a");
    state.queue = vec![track("b"), track("c")];
    state.liked = Some(true);
    let mut snap = playing("b");
    snap.artist = "Drake".into();
    snap.playing = true;
    snap.position_us = 65_000_000;
    snap.length_us = 120_000_000;
    snap.art_url = "https://i.scdn.co/image/x1".into();
    assert_eq!(state.generation, 1);
    assert_eq!(
        state.step(read(false, Some(snap), 101)),
        [
            Action::ShowPlaying,
            Action::Title("b".into()),
            Action::Artist("Drake".into()),
            Action::PlayIcon { playing: true },
            Action::Progress { position_us: 65_000_000, length_us: 120_000_000 },
            Action::Elapsed("1:05".into()),
            Action::Total("2:00".into()),
            Action::Art { url: "https://i.scdn.co/image/x1".into(), generation: 2 },
            Action::LikeFace { starred: false, unknown: true },
            Action::Disarm(Timer::Lookup),
            Action::Arm(Timer::Lookup),
            Action::QueueRow { index: 0, label: "c  ·  someone".into() },
        ],
        "the rows past the window are left as they are"
    );
    assert_eq!(state.prev.as_ref().map(|t| t.id.as_str()), Some("a"));
    assert_eq!(state.generation, 2);
    assert!(state.liked.is_none());
}

#[test]
fn a_restart_shifts_nothing() {
    let mut state = opened("a");
    state.queue = vec![track("a"), track("b")];
    let actions = state.step(read(false, Some(playing("a")), 200));
    assert_eq!(actions.len(), 7, "nothing but the player is redrawn");
    assert_eq!(ids(&state.queue), ["a", "b"]);
    assert_eq!(state.generation, 1);
}

#[test]
fn a_rehover_looks_up_what_is_stale_or_unknown() {
    let mut state = opened("a");
    state.lookup_debounce = false;
    state.liked = Some(false);
    state.queue_fetched_at = 100;
    let fresh = state.step(read(true, Some(playing("a")), 109));
    assert!(!fresh.contains(&Action::Arm(Timer::Lookup)));
    let earlier = state.step(read(true, Some(playing("a")), 50));
    assert!(!earlier.contains(&Action::Arm(Timer::Lookup)));
    let tick = state.step(read(false, Some(playing("a")), 110));
    assert!(!tick.contains(&Action::Arm(Timer::Lookup)));
    let stale = state.step(read(true, Some(playing("a")), 110));
    assert_eq!(stale.last(), Some(&Action::Arm(Timer::Lookup)));
    state.lookup_debounce = false;
    state.liked = None;
    let unknown = state.step(read(true, Some(playing("a")), 101));
    assert_eq!(unknown.last(), Some(&Action::Arm(Timer::Lookup)));
}

#[test]
fn nothing_playing_is_said() {
    let mut state = opened("a");
    assert_eq!(
        state.step(read(false, None, 1)),
        [Action::ShowIdle("Nothing playing".into())]
    );
    assert!(state.snap.is_none() && state.rendered.is_empty());
    assert_eq!(
        state.step(read(false, Some(Snapshot::default()), 1)),
        [Action::ShowIdle("Nothing playing".into())],
        "a reading without a title is none"
    );
    assert_eq!(
        state.step(Event::Read { opening: true, reading: None, has_player: false, now: 1 }),
        [Action::ShowIdle("No session bus".into())]
    );
}

#[test]
fn a_burst_costs_one_round() {
    let mut state = opened("a");
    for id in ["b", "c", "d"] {
        let actions = state.step(read(false, Some(playing(id)), 1));
        assert!(actions.contains(&Action::Disarm(Timer::Lookup)));
        assert!(actions.contains(&Action::Arm(Timer::Lookup)));
    }
    assert_eq!(
        state.step(Event::Elapsed(Timer::Lookup)),
        [
            Action::FetchQueue { generation: 4 },
            Action::FetchLiked { generation: 4, id: "d".into() },
            Action::FetchPrevious { generation: 4 },
        ]
    );
    let mut again = Vec::new();
    state.look_up(&mut again);
    assert_eq!(again, [], "all of it is under way");
}

#[test]
fn local_history_comes_first() {
    let mut state = opened("a");
    state.prev = Some(track("z"));
    let actions = state.step(Event::Elapsed(Timer::Lookup));
    assert!(!actions.contains(&Action::FetchPrevious { generation: 1 }));
    assert_eq!(actions.len(), 2);
}

#[test]
fn a_track_without_an_id_is_not_looked_up() {
    let mut state = opened("local-file");
    let actions = state.step(Event::Elapsed(Timer::Lookup));
    assert_eq!(
        actions,
        [
            Action::FetchQueue { generation: 1 },
            Action::FetchPrevious { generation: 1 },
        ]
    );
    assert_eq!(state.step(Event::Identity), []);
    state.liked = Some(false);
    assert_eq!(state.step(Event::Star), []);
}

fn worker(msg: Msg) -> Event {
    Event::Worker { msg, now: 777 }
}

#[test]
fn a_queue_replaces_the_window() {
    let mut state = opened("a");
    state.step(Event::Elapsed(Timer::Lookup));
    let queue = Queue {
        now: Some(Track { id: "a".into(), title: "a".into(), artist: "X, Y".into() }),
        next: vec![track("b"), track("c")],
    };
    assert_eq!(
        state.step(worker(Msg::Queue { generation: 1, queue })),
        [
            Action::QueueRow { index: 0, label: "b  ·  someone".into() },
            Action::QueueRow { index: 1, label: "c  ·  someone".into() },
            Action::QueueRow { index: 2, label: "—".into() },
            Action::Artist("X, Y".into()),
        ]
    );
    assert_eq!(state.queue_fetched_at, 777);
    assert!(state.queue_inflight.is_none());
    assert_eq!(QUEUE_ROWS, 3);
}

#[test]
fn rows_are_held_while_a_fetch_is_pending() {
    let mut state = window(None, &["b"]);
    state.queue_inflight = Some(0);
    let mut out = Vec::new();
    state.render_queue(&mut out);
    assert_eq!(out, [Action::QueueRow { index: 0, label: "b  ·  someone".into() }]);
    state.queue_inflight = None;
    let mut settled = Vec::new();
    state.render_queue(&mut settled);
    assert_eq!(settled.len(), 3);
    assert_eq!(settled[2], Action::QueueRow { index: 2, label: "—".into() });
}

#[test]
fn stale_results_are_dropped() {
    let mut state = opened("a");
    state.step(Event::Elapsed(Timer::Lookup));
    state.step(read(false, Some(playing("b")), 1));
    state.art_inflight = Some(1);
    let queue = Queue { now: Some(track("a")), next: vec![track("x")] };
    assert_eq!(state.step(worker(Msg::Queue { generation: 1, queue })), []);
    assert_eq!(state.step(worker(Msg::QueueFailed { generation: 1 })), []);
    assert_eq!(state.step(worker(Msg::Liked { generation: 1, liked: true })), []);
    assert_eq!(
        state.step(worker(Msg::Previous { generation: 1, track: Some(track("x")) })),
        []
    );
    assert_eq!(state.step(worker(Msg::Art { generation: 1, path: "/x".into() })), []);
    assert!(state.queue.is_empty() && state.artists.is_none() && state.liked.is_none());
    assert!(state.prev.is_none());
    let under_way = [
        state.queue_inflight,
        state.liked_inflight,
        state.prev_inflight,
        state.art_inflight,
    ];
    assert_eq!(under_way, [None; 4]);
}

#[test]
fn a_failed_queue_settles_unknown_rows() {
    let mut state = opened("a");
    state.step(Event::Elapsed(Timer::Lookup));
    let actions = state.step(worker(Msg::QueueFailed { generation: 1 }));
    assert_eq!(actions.len(), 3);
    assert_eq!(actions[0], Action::QueueRow { index: 0, label: "—".into() });
}

#[test]
fn an_echo_of_the_current_track_is_discarded() {
    let mut state = opened("a");
    state.step(worker(Msg::Previous { generation: 1, track: Some(track("a")) }));
    assert!(state.prev.is_none());
    state.step(worker(Msg::Previous { generation: 1, track: Some(track("z")) }));
    assert_eq!(state.prev.as_ref().map(|t| t.id.as_str()), Some("z"));
    state.step(worker(Msg::Previous { generation: 1, track: None }));
    assert!(state.prev.is_none());
}

#[test]
fn a_toggle_shows_at_once_and_is_reverted_when_refused() {
    let mut state = opened("a");
    assert_eq!(state.step(Event::Star), [], "nothing to toggle yet");
    state.step(worker(Msg::Liked { generation: 1, liked: false }));
    assert_eq!(
        state.step(Event::Star),
        [
            Action::LikeFace { starred: true, unknown: false },
            Action::SetLiked { generation: 1, id: "a".into(), current: false, target: true },
        ]
    );
    assert_eq!(state.liked, Some(true));
    let refused = settled(false, false, true);
    assert_eq!(
        state.step(worker(Msg::Liked { generation: 1, liked: refused })),
        [Action::LikeFace { starred: false, unknown: false }]
    );
    assert!(settled(true, false, true));
}

#[test]
fn copying_puts_a_clean_link_on_the_clipboard() {
    let mut state = opened("a");
    assert_eq!(
        state.step(Event::Identity),
        [
            Action::Copy("https://open.spotify.com/track/a".into()),
            Action::Artist("Link copied".into()),
            Action::Arm(Timer::CopyFeedback),
        ]
    );
    let tick = state.step(read(false, Some(playing("a")), 1));
    assert!(
        !tick.iter().any(|a| matches!(a, Action::Artist(_))),
        "the confirmation stays"
    );
    assert_eq!(
        state.step(Event::Identity)[1],
        Action::Disarm(Timer::CopyFeedback),
        "a second copy starts the time anew"
    );
    assert_eq!(
        state.step(Event::Elapsed(Timer::CopyFeedback)),
        [Action::Artist(String::new())]
    );
}

#[test]
fn art_is_held_until_it_is_fetched() {
    let mut state = opened("a");
    let looked = |cached: Option<&str>, url: &str| Event::ArtLooked {
        url: url.into(),
        generation: 1,
        cached: cached.map(String::from),
    };
    let url = "https://i.scdn.co/image/x1";
    assert_eq!(
        state.step(looked(Some("/c/x1"), url)),
        [Action::ArtFile("/c/x1".into())]
    );
    assert_eq!(
        state.step(looked(None, url)),
        [Action::FetchArt { url: url.into(), generation: 1 }]
    );
    assert_eq!(state.step(looked(None, url)), [], "it is under way");
    assert_eq!(
        state.step(worker(Msg::Art { generation: 1, path: "/c/x1".into() })),
        [Action::ArtFile("/c/x1".into())]
    );
    assert_eq!(state.step(looked(None, "")), [Action::ArtPlaceholder]);
}

#[test]
fn only_a_track_of_some_length_can_be_sought_in() {
    let mut state = opened("a");
    assert!(state.seekable(100).is_none(), "the length is not known");
    let mut snap = playing("a");
    snap.length_us = 5;
    state.step(read(false, Some(snap), 1));
    assert_eq!(
        state.seekable(100),
        Some(("/com/spotify/track/a".to_string(), 5))
    );
    assert!(state.seekable(0).is_none());
    assert!(state.seekable(-1).is_none());
    assert_eq!(state.step(Event::Transport), [Action::RefreshSoon]);
    assert_eq!(
        state.step(Event::Settled),
        [Action::Refresh { opening: false }]
    );
    state.step(read(false, None, 1));
    assert!(state.seekable(100).is_none(), "nothing is playing");
}

#[test]
fn forward_then_back_restores_the_queue() {
    let mut state = window(Some("z"), &["b", "c", "d", "e"]);
    state.slide_window(&playing("b"), Some(track("a")));
    state.slide_window(&playing("a"), Some(track("b")));
    assert_eq!(ids(&state.queue), ["b", "c", "d", "e"]);
    assert!(state.prev.is_none());
    state.prev = Some(track("z"));
    state.slide_window(&playing("z"), Some(track("a")));
    state.slide_window(&playing("a"), Some(track("z")));
    assert_eq!(ids(&state.queue), ["b", "c", "d"]);
    assert_eq!(state.prev.as_ref().map(|t| t.id.as_str()), Some("z"));
}

#[test]
fn anonymous_tracks_share_no_artist_list() {
    let mut state = window(None, &[""]);
    state.artists = Some(("".into(), "Somebody".into()));
    let mut local = playing("local-file");
    local.artist = "Somebody Else".into();
    assert_eq!(state.track_of(&local).artist, "Somebody Else");
    assert_eq!(state.track_of(&local).id, "");
    state.slide_window(&local, Some(track("a")));
    assert_eq!(ids(&state.queue), [""], "nor does the window move");
}

#[test]
fn icons_follow_the_state() {
    assert_eq!(play_icon(true), "media-playback-pause-symbolic");
    assert_eq!(play_icon(false), "media-playback-start-symbolic");
    assert_eq!(like_icon(true), "starred-symbolic");
    assert_eq!(like_icon(false), "non-starred-symbolic");
}

#[test]
fn only_a_track_change_needs_another_generation() {
    let mut state = opened("a");
    state.generation = u64::MAX;
    assert!(!state.accepts(&read(false, Some(playing("b")), 1)));
    assert!(state.accepts(&read(false, Some(playing("a")), 1)));
    assert!(state.accepts(&read(false, Some(Snapshot::default()), 1)));
    assert!(state.accepts(&read(false, None, 1)));
    assert!(state.accepts(&hover(false)));
    state.step(read(false, Some(playing("a")), 1));
    assert_eq!(state.generation, u64::MAX);
    state.generation = 7;
    assert!(state.accepts(&read(false, Some(playing("b")), 1)));
}
