use spotify_peek::api::{HISTORY, LIKED, QUEUE, SET_LIKED};
use spotify_peek::auth::{
    client_credentials, exchange, our_cached_token, read_json, spotlike_env, spotlike_token,
    store_token, token_cache, token_reply, Ask, CallError, Event, Exchange, Keep, Session, Stage,
    Turn,
};
use spotify_peek::json::{parse_json, Json};

fn doc(text: &str) -> Json {
    parse_json(text).ok().unwrap()
}

fn document(text: &str) -> Event {
    Event::Document(Ok(doc(text)))
}

fn missing() -> Event {
    Event::Document(Err("/x: gone".into()))
}

/// Steps on an event that has to be acceptable.
fn step(session: &mut Session, event: Event, now: u64) -> Turn<String> {
    assert!(session.accepts(&event, now));
    session.step(event, now)
}

#[test]
fn files_lie_below_home() {
    assert_eq!(token_cache("/h"), "/h/.cache/spotify-peek/token.json");
    assert_eq!(spotlike_env("/h"), "/h/.config/spotlike/env");
    assert_eq!(spotlike_token("/h"), "/h/.local/share/spotlike/token.json");
}

#[test]
fn credentials_are_read_from_settings() {
    let raw = "# RSPOTIFY_CLIENT_ID=no\r\n\n  RSPOTIFY_CLIENT_ID=first \nOTHER=1\nplain\n\
               RSPOTIFY_CLIENT_SECRET=a=b\nRSPOTIFY_CLIENT_ID=last\r\n";
    assert_eq!(
        client_credentials("/h", Ok(raw.into())),
        Ok(("last".to_string(), "a=b".to_string()))
    );
}

#[test]
fn credentials_that_are_not_there_are_an_error() {
    assert_eq!(
        client_credentials("/h", Ok("RSPOTIFY_CLIENT_ID=x".into())),
        Err("no client credentials in spotlike env".to_string())
    );
    assert_eq!(
        client_credentials("/h", Err("gone".into())),
        Err("/h/.config/spotlike/env: gone".to_string())
    );
    assert_eq!(
        client_credentials("/h", Ok("RSPOTIFY_CLIENT_ID =x\nRSPOTIFY_CLIENT_SECRET=y".into())),
        Err("no client credentials in spotlike env".to_string()),
        "the space belongs to the name"
    );
}

#[test]
fn json_files_that_cannot_be_read_are_errors() {
    assert_eq!(
        read_json("/f", Err("gone".into())).err().unwrap(),
        "/f: gone"
    );
    assert_eq!(
        read_json("/f", Ok("".into())).err().unwrap(),
        "/f: EOF while parsing a value at line 1 column 0"
    );
    assert!(read_json("/f", Ok("{}".into())).is_ok());
}

#[test]
fn a_cached_token_is_dead_within_the_slack() {
    let cache = doc(r#"{"access_token": "t", "expires_at": 1000}"#);
    assert_eq!(our_cached_token(&cache, 939).as_deref(), Some("t"));
    assert_eq!(our_cached_token(&cache, 940), None);
    assert_eq!(our_cached_token(&doc(r#"{"access_token": "t"}"#), 0), None);
    assert_eq!(our_cached_token(&doc(r#"{"expires_at": 1000}"#), 0), None);
}

#[test]
fn a_kept_token_is_read_back() {
    let keep = store_token("/h", "t\"1", 3600, 1000);
    assert_eq!(
        keep,
        Keep {
            dir: "/h/.cache/spotify-peek".to_string(),
            path: "/h/.cache/spotify-peek/token.json".to_string(),
            contents: r#"{"access_token":"t\"1","expires_at":4600}"#.to_string(),
        }
    );
    let cache = doc(&keep.contents);
    assert_eq!(our_cached_token(&cache, 1000).as_deref(), Some("t\"1"));
    assert_eq!(our_cached_token(&cache, 4600), None);
}

#[test]
fn the_exchange_is_authorized_with_the_client() {
    assert_eq!(
        exchange("id", "secret", "r"),
        Exchange {
            url: "https://accounts.spotify.com/api/token".to_string(),
            authorization: "Basic aWQ6c2VjcmV0".to_string(),
            content_type: "application/x-www-form-urlencoded".to_string(),
            form: "grant_type=refresh_token&refresh_token=r".to_string(),
        }
    );
    assert_eq!(exchange("", "", "").authorization, "Basic Og==");
}

#[test]
fn the_token_reply_is_read() {
    assert_eq!(
        token_reply(Err("http status: 400".into())).err().unwrap(),
        "token refresh: http status: 400"
    );
    assert_eq!(
        token_reply(Ok("".into())).err().unwrap(),
        "token refresh: EOF while parsing a value at line 1 column 0"
    );
    assert!(token_reply(Ok("{}".into())).is_ok());
}

fn refused() -> Event {
    Event::Called(Err(CallError { status: Some(401), message: "http status: 401".into() }))
}

#[test]
fn a_live_cached_token_is_used_at_once() {
    let (mut session, turn) = Session::start("queue", "/h");
    assert_eq!(
        turn,
        Turn {
            keep: None,
            ask: Ask::ReadDocument("/h/.cache/spotify-peek/token.json".to_string()),
        }
    );
    let turn = step(&mut session, document(r#"{"access_token": "t", "expires_at": 2000}"#), 1000);
    assert_eq!(turn, Turn { keep: None, ask: Ask::Call("t".to_string()) });
    let turn = step(&mut session, Event::Called(Ok("body".into())), 1000);
    assert_eq!(turn.ask, Ask::Finish(Ok("body".to_string())));
    assert!(matches!(session.stage, Stage::Finished));
    assert!(!session.accepts(&missing(), 0), "it is over");
}

#[test]
fn a_live_token_of_spotlike_is_borrowed_and_kept() {
    let (mut session, _) = Session::start("queue", "/h");
    let turn = step(&mut session, missing(), 1000);
    assert_eq!(
        turn.ask,
        Ask::ReadDocument("/h/.local/share/spotlike/token.json".to_string())
    );
    let theirs = r#"{"access_token": "b", "obtained_at": 900, "expires_in": 161, "refresh_token": "r"}"#;
    let turn = step(&mut session, document(theirs), 1000);
    assert_eq!(turn.ask, Ask::Call("b".to_string()));
    assert_eq!(
        turn.keep.unwrap().contents,
        r#"{"access_token":"b","expires_at":1061}"#
    );
}

#[test]
fn a_dead_token_of_spotlike_is_refreshed() {
    let (mut session, _) = Session::start("queue", "/h");
    step(&mut session, missing(), 1000);
    let theirs = r#"{"access_token": "b", "obtained_at": 900, "expires_in": 160, "refresh_token": "r"}"#;
    let turn = step(&mut session, document(theirs), 1000);
    assert_eq!(turn.ask, Ask::ReadSettings("/h/.config/spotlike/env".to_string()));
    let turn = step(&mut session, Event::Credentials(Ok(("id".into(), "secret".into()))), 1000);
    assert_eq!(
        turn.ask,
        Ask::ReadDocument("/h/.local/share/spotlike/token.json".to_string())
    );
    let turn = step(&mut session, document(theirs), 1000);
    assert_eq!(turn.ask, Ask::Exchange(exchange("id", "secret", "r")));
    let turn = step(
        &mut session,
        Event::Granted(Ok(doc(r#"{"access_token": "n", "expires_in": 10}"#))),
        1000,
    );
    assert_eq!(turn.ask, Ask::Call("n".to_string()));
    assert_eq!(turn.keep, Some(store_token("/h", "n", 10, 1000)));
}

#[test]
fn one_refusal_is_forgiven() {
    let (mut session, _) = Session::start("liked", "/h");
    step(&mut session, document(r#"{"access_token": "t", "expires_at": 2000}"#), 1000);
    let turn = step(&mut session, refused(), 1000);
    assert_eq!(turn.ask, Ask::ReadSettings("/h/.config/spotlike/env".to_string()));
    step(&mut session, Event::Credentials(Ok(("id".into(), "secret".into()))), 1000);
    step(&mut session, document(r#"{"refresh_token": "r"}"#), 1000);
    let turn = step(&mut session, Event::Granted(Ok(doc(r#"{"access_token": "n"}"#))), 1000);
    assert_eq!(turn.ask, Ask::Call("n".to_string()));
    assert_eq!(
        turn.keep,
        Some(store_token("/h", "n", 3600, 1000)),
        "a life of an hour is taken for granted"
    );
    let turn = step(&mut session, refused(), 1000);
    assert_eq!(
        turn.ask,
        Ask::Finish(Err("liked: http status: 401".to_string()))
    );
}

#[test]
fn every_other_failure_is_final() {
    let (mut session, _) = Session::start("history", "/h");
    step(&mut session, document(r#"{"access_token": "t", "expires_at": 2000}"#), 1000);
    let failed = Event::Called(Err(CallError { status: Some(500), message: "http status: 500".into() }));
    let turn = step(&mut session, failed, 1000);
    assert_eq!(
        turn.ask,
        Ask::Finish(Err("history: http status: 500".to_string()))
    );

    let (mut session, _) = Session::start("history", "/h");
    step(&mut session, missing(), 1000);
    step(&mut session, missing(), 1000);
    let turn = step(&mut session, Event::Credentials(Err("no client".into())), 1000);
    assert_eq!(turn.ask, Ask::Finish(Err("no client".to_string())));
}

#[test]
fn failures_bear_the_label_of_their_request() {
    for (label, says) in [
        (HISTORY, "history: down"),
        (QUEUE, "queue: down"),
        (LIKED, "liked: down"),
        (SET_LIKED, "set liked: down"),
    ] {
        let (mut session, _) = Session::start(label, "/h");
        step(&mut session, document(r#"{"access_token": "t", "expires_at": 2000}"#), 1000);
        let failed = Event::Called(Err(CallError { status: None, message: "down".into() }));
        assert_eq!(
            step(&mut session, failed, 1000).ask,
            Ask::Finish(Err(says.to_string()))
        );
    }
}

/// A request that is about to spend the refresh token.
fn refreshing() -> Session {
    let (mut session, _) = Session::start("queue", "/h");
    step(&mut session, missing(), 1000);
    step(&mut session, document("{}"), 1000);
    step(&mut session, Event::Credentials(Ok(("id".into(), "secret".into()))), 1000);
    session
}

#[test]
fn a_refresh_can_fail_at_every_step() {
    let mut session = refreshing();
    assert_eq!(
        step(&mut session, missing(), 1000).ask,
        Ask::Finish(Err("/x: gone".to_string()))
    );
    let mut session = refreshing();
    assert_eq!(
        step(&mut session, document(r#"{"refresh_token": 1}"#), 1000).ask,
        Ask::Finish(Err("no refresh token in spotlike token.json".to_string()))
    );
    let mut session = refreshing();
    step(&mut session, document(r#"{"refresh_token": "r"}"#), 1000);
    assert_eq!(
        step(&mut session, Event::Granted(Err("token refresh: down".into())), 1000).ask,
        Ask::Finish(Err("token refresh: down".to_string()))
    );
    let mut session = refreshing();
    step(&mut session, document(r#"{"refresh_token": "r"}"#), 1000);
    assert_eq!(
        step(&mut session, Event::Granted(Ok(doc("{}"))), 1000).ask,
        Ask::Finish(Err("token refresh: no access_token in response".to_string()))
    );
}

#[test]
fn times_that_do_not_fit_the_clock_are_not_accepted() {
    let (mut session, _) = Session::start("queue", "/h");
    let cache = r#"{"access_token": "t", "expires_at": 2000}"#;
    assert!(!session.accepts(&document(cache), u64::MAX - 59));
    assert!(session.accepts(&document(cache), u64::MAX - 60));
    assert!(session.accepts(&document("{}"), u64::MAX), "no expiry to weigh");
    assert!(session.accepts(&missing(), u64::MAX));
    assert!(!session.accepts(&refused(), 1000), "nothing was called");
    step(&mut session, missing(), 1000);
    let late = r#"{"access_token": "b", "obtained_at": 18446744073709551615, "expires_in": 1}"#;
    assert!(!session.accepts(&document(late), 1000));
    let anonymous = r#"{"obtained_at": 18446744073709551615, "expires_in": 1}"#;
    assert!(session.accepts(&document(anonymous), u64::MAX));
    let theirs = r#"{"access_token": "b", "obtained_at": 900, "expires_in": 161}"#;
    assert!(!session.accepts(&document(theirs), u64::MAX - 59));
    let mut session = refreshing();
    step(&mut session, document(r#"{"refresh_token": "r"}"#), 1000);
    let late = r#"{"access_token": "n", "expires_in": 18446744073709551615}"#;
    assert!(!session.accepts(&Event::Granted(Ok(doc(late))), 1000));
    assert!(session.accepts(&Event::Granted(Ok(doc("{}"))), u64::MAX));
}
