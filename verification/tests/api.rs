use spotify_peek::api::{parse_queue, parse_recently_played, Track};

/// Shape copied from a live `GET /v1/me/player/queue` response.
const SAMPLE: &str = r#"{
    "currently_playing": {
        "id": "4wpXFtC0lIeXdMPXQvKmuU",
        "name": "Forever",
        "artists": [
            { "name": "Drake" }, { "name": "Kanye West" },
            { "name": "Lil Wayne" }, { "name": "Eminem" }
        ]
    },
    "queue": [
        { "id": "q1", "name": "there he go", "artists": [{ "name": "sosocamo" }] },
        { "id": "q2", "name": "DIE TRYING", "artists": [{ "name": "PARTYNEXTDOOR" }, { "name": "Yebba" }] },
        { "id": "q3", "name": "LORD LIFT ME UP", "artists": [{ "name": "Ye" }] },
        { "id": "q4", "name": "SKY CITY", "artists": [{ "name": "Drake" }] }
    ]
}"#;

/// Shape copied from a live `GET /v1/me/player/recently-played` response.
const HISTORY: &str = r#"{
    "items": [
        { "track": { "id": "h1", "name": "SUZY", "artists": [{ "name": "DONDA" }, { "name": "Ye" }] } }
    ]
}"#;

#[test]
fn reads_titles_and_joins_artists() {
    let queue = parse_queue(SAMPLE, 3).unwrap();
    assert_eq!(queue.next.len(), 3, "limit is respected");
    assert_eq!(queue.next[0].title, "there he go");
    assert_eq!(queue.next[0].artist, "sosocamo");
    assert_eq!(queue.next[1].artist, "PARTYNEXTDOOR, Yebba");
}

/// The reason this endpoint is worth parsing at all: MPRIS would only give
/// us "Drake" for this track.
#[test]
fn now_playing_keeps_every_artist() {
    let now = parse_queue(SAMPLE, 3).unwrap().now.unwrap();
    assert_eq!(now.id, "4wpXFtC0lIeXdMPXQvKmuU");
    assert_eq!(now.artist, "Drake, Kanye West, Lil Wayne, Eminem");
}

#[test]
fn empty_queue_is_not_an_error() {
    let queue = parse_queue(r#"{"queue": [], "currently_playing": null}"#, 3).unwrap();
    assert!(queue.next.is_empty());
    assert!(queue.now.is_none());
}

#[test]
fn missing_queue_is_an_error() {
    assert!(parse_queue(r#"{"error": {"status": 403}}"#, 3).is_err());
}

#[test]
fn reads_the_previous_track_from_history() {
    let prev = parse_recently_played(HISTORY).unwrap().unwrap();
    assert_eq!(prev.id, "h1");
    assert_eq!(prev.title, "SUZY");
    assert_eq!(prev.artist, "DONDA, Ye");
}

#[test]
fn empty_history_is_not_an_error() {
    assert!(parse_recently_played(r#"{"items": []}"#).unwrap().is_none());
}

/// Local files and some podcast items arrive without an id; those must
/// never be treated as matching another track.
#[test]
fn tracks_without_an_id_never_match() {
    let anonymous = Track::default();
    assert!(!anonymous.is(""));
    assert!(!anonymous.is("q1"));
    assert!(parse_queue(SAMPLE, 4).unwrap().next[0].is("q1"));
}
