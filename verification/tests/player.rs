use spotify_peek::mpris::{snapshot, spotify_id, track_link, Snapshot, Variant};

fn text(s: &str) -> Variant {
    Variant::Text(s.into())
}

fn entries(list: Vec<(&str, Variant)>) -> Vec<(String, Variant)> {
    list.into_iter().map(|(k, v)| (k.to_string(), v)).collect()
}

/// The answer of a player whose metadata is `meta`.
fn answer(meta: Vec<(&str, Variant)>) -> Vec<(String, Variant)> {
    entries(vec![
        ("PlaybackStatus", text("Playing")),
        ("Metadata", Variant::Dict(entries(meta))),
        ("Position", Variant::Signed(65)),
    ])
}

#[test]
fn a_full_answer_is_read() {
    let props = answer(vec![
        ("xesam:title", text("Forever")),
        ("xesam:artist", Variant::Texts(vec!["Drake".into(), "Eminem".into()])),
        ("mpris:trackid", text("/com/spotify/track/4wpX")),
        ("mpris:artUrl", text("https://i.scdn.co/image/x1")),
        ("xesam:url", text("https://open.spotify.com/track/4wpX")),
        ("mpris:length", Variant::Unsigned(357_000_000)),
    ]);
    assert_eq!(
        snapshot(&props),
        Snapshot {
            playing: true,
            title: "Forever".into(),
            artist: "Drake, Eminem".into(),
            track_id: "/com/spotify/track/4wpX".into(),
            art_url: "https://i.scdn.co/image/x1".into(),
            url: "https://open.spotify.com/track/4wpX".into(),
            position_us: 65,
            length_us: 357_000_000,
        }
    );
}

#[test]
fn absent_and_mistyped_properties_read_as_empty() {
    assert_eq!(snapshot(&entries(vec![])), Snapshot::default());
    let bare = entries(vec![
        ("Metadata", text("x")),
        ("PlaybackStatus", text("Playing")),
        ("Position", Variant::Signed(7)),
    ]);
    assert_eq!(
        snapshot(&bare),
        Snapshot { playing: true, position_us: 7, ..Default::default() },
        "a player without metadata is still there"
    );
    let props = entries(vec![
        ("Metadata", Variant::Dict(entries(vec![
            ("xesam:title", Variant::Signed(1)),
            ("xesam:artist", text("not a list")),
            ("mpris:trackid", Variant::Other),
            ("mpris:length", text("long")),
        ]))),
        ("PlaybackStatus", text("Paused")),
        ("Position", Variant::Unsigned(9)),
    ]);
    assert_eq!(snapshot(&props), Snapshot::default());
}

#[test]
fn track_ids_come_as_texts_and_as_object_paths() {
    let id = |meta| snapshot(&answer(meta)).track_id;
    let path = || Variant::ObjectPath("/org/mpris/track/1".into());
    assert_eq!(id(vec![("mpris:trackid", path())]), "/org/mpris/track/1");
    assert_eq!(
        id(vec![("mpris:trackid", path()), ("xesam:trackid", text("x"))]),
        "x"
    );
    assert_eq!(
        id(vec![("mpris:trackid", text("m")), ("xesam:trackid", Variant::Signed(1))]),
        "m"
    );
    assert_eq!(
        id(vec![
            ("xesam:trackid", Variant::ObjectPath("/a".into())),
            ("mpris:trackid", text("/b")),
        ]),
        "/b",
        "only a text counts there"
    );
    assert_eq!(id(vec![("xesam:trackid", path())]), "");
    assert_eq!(id(vec![]), "");
}

#[test]
fn lengths_come_unsigned_and_signed() {
    let length = |v| snapshot(&answer(vec![("mpris:length", v)])).length_us;
    assert_eq!(length(Variant::Unsigned(5)), 5);
    assert_eq!(length(Variant::Signed(5)), 5);
    assert_eq!(length(Variant::Signed(-5)), -5);
    assert_eq!(length(Variant::Unsigned(u64::MAX)), -1);
    assert_eq!(length(Variant::Unsigned(1 << 63)), i64::MIN);
}

#[test]
fn ids_come_from_the_web_address_first() {
    let id = |url: &str, track_id: &str| {
        spotify_id(&Snapshot {
            url: url.into(),
            track_id: track_id.into(),
            ..Default::default()
        })
    };
    let some = |s: &str| Some(s.to_string());
    assert_eq!(id("https://open.spotify.com/track/web", "/org/mpris/track/1"), some("web"));
    assert_eq!(id("", "/com/spotify/track/legacy"), some("legacy"));
    assert_eq!(id("https://open.spotify.com/episode/e", "/com/spotify/track/t"), some("t"));
    assert_eq!(id("https://open.spotify.com/track/a?si=b", "/x/t"), some("t"));
    assert_eq!(id("", "/com/spotify/local/some-file"), None);
    assert_eq!(id("", "bare"), some("bare"));
    assert_eq!(id("", "/trailing/"), None);
}

#[test]
fn links_are_clean_and_lead_back() {
    let link = track_link("4wpX");
    assert_eq!(link, "https://open.spotify.com/track/4wpX");
    assert!(!link.contains('?'));
    let snap = Snapshot { url: link, ..Default::default() };
    assert_eq!(spotify_id(&snap).as_deref(), Some("4wpX"));
}
