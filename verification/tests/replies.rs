use spotify_peek::api::{
    cache_dir, history_request, is_liked, liked_request, parse_liked, parse_queue,
    parse_recently_played, previously_played, queue, queue_request, set_liked, Method,
};
use spotify_peek::json::{parse_json, write_record, Field};

#[test]
fn a_queue_is_cut_to_the_limit_in_order() {
    let body = r#"{"queue": [{"id": "a"}, {"id": "b"}, {"id": "c"}]}"#;
    let ids = |limit: usize| -> Vec<String> {
        let queue = parse_queue(body, limit).unwrap();
        queue.next.into_iter().map(|t| t.id).collect()
    };
    assert_eq!(ids(0), Vec::<String>::new());
    assert_eq!(ids(2), ["a", "b"]);
    assert_eq!(ids(9), ["a", "b", "c"]);
    assert!(parse_queue(body, 1).unwrap().now.is_none());
}

#[test]
fn members_of_the_wrong_type_read_as_absent() {
    let body = r#"{"queue": [{"id": 7, "name": null, "artists": [{"name": 1}, {"name": "Ye"}, 3]}, 4]}"#;
    let queue = parse_queue(body, 4).unwrap();
    assert_eq!(queue.next[0].id, "");
    assert_eq!(queue.next[0].title, "");
    assert_eq!(queue.next[0].artist, "Ye");
    assert_eq!(queue.next[1].title, "");
    assert!(parse_queue(r#"{"queue": {}}"#, 3).is_err());
}

#[test]
fn of_two_members_with_one_name_the_later_counts() {
    let queue = parse_queue(r#"{"queue": 1, "queue": [{"id": "a", "id": "b"}]}"#, 3).unwrap();
    assert_eq!(queue.next[0].id, "b");
}

#[test]
fn replies_that_do_not_parse_are_errors() {
    let why = parse_queue("nonsense", 3).err().unwrap();
    assert_eq!(why, "queue: expected ident at line 1 column 2");
    let why = parse_recently_played("[").err().unwrap();
    assert_eq!(why, "history: EOF while parsing a list at line 1 column 1");
    assert_eq!(
        parse_queue("{}", 3).err().unwrap(),
        "queue: no queue in response"
    );
}

#[test]
fn histories_without_a_track_name_none() {
    for body in ["{}", "[]", r#"{"items": [{}]}"#, r#"{"items": 1}"#] {
        assert!(parse_recently_played(body).unwrap().is_none());
    }
    let blank = parse_recently_played(r#"{"items": [{"track": null}]}"#).unwrap();
    assert_eq!(blank.unwrap().id, "");
}

#[test]
fn the_library_check_is_read() {
    assert_eq!(parse_liked("[true]"), Ok(true));
    assert_eq!(parse_liked("[false, true]"), Ok(false));
    for body in ["[]", "{}", "[1]", "oops"] {
        assert_eq!(
            parse_liked(body),
            Err(format!("liked: unexpected response {body}"))
        );
    }
}

#[test]
fn failed_calls_are_handed_on() {
    let why = || Err("no network".to_string());
    assert_eq!(is_liked(why()), Err("no network".to_string()));
    assert_eq!(queue(why(), 3).err().unwrap(), "no network");
    assert_eq!(previously_played(why()).err().unwrap(), "no network");
    assert_eq!(is_liked(Ok("[true]".into())), Ok(true));
    assert!(queue(Ok(r#"{"queue": []}"#.into()), 3).unwrap().next.is_empty());
    assert!(previously_played(Ok("{}".into())).unwrap().is_none());
}

#[test]
fn requests_carry_the_token() {
    let request = queue_request("t");
    assert_eq!(request.method, Method::Get);
    assert_eq!(request.url, "https://api.spotify.com/v1/me/player/queue");
    assert_eq!(request.authorization, "Bearer t");
    let request = history_request("t");
    assert_eq!(request.method, Method::Get);
    assert_eq!(
        request.url,
        "https://api.spotify.com/v1/me/player/recently-played?limit=1"
    );
    let request = liked_request("x", "t");
    assert_eq!(request.method, Method::Get);
    assert_eq!(
        request.url,
        "https://api.spotify.com/v1/me/tracks/contains?ids=x"
    );
    let save = set_liked("x", true, "t");
    assert_eq!(save.method, Method::Put);
    assert_eq!(save.url, "https://api.spotify.com/v1/me/tracks?ids=x");
    assert_eq!(save.authorization, "Bearer t");
    assert_eq!(set_liked("x", false, "t").method, Method::Delete);
}

#[test]
fn the_cache_lies_below_home() {
    assert_eq!(cache_dir("/home/a"), "/home/a/.cache/spotify-peek");
    assert_eq!(cache_dir("/home/a/"), "/home/a/.cache/spotify-peek");
    assert_eq!(cache_dir(""), ".cache/spotify-peek");
}

#[test]
fn numbers_are_read_as_far_as_they_fit() {
    let doc = parse_json(r#"{"a": 18446744073709551615, "b": -1, "c": 1.5, "d": 2e0}"#)
        .ok()
        .unwrap();
    assert_eq!(doc.number_member("a"), Some(u64::MAX));
    assert_eq!(doc.number_member("b"), None);
    assert_eq!(doc.number_member("c"), None);
    assert_eq!(doc.number_member("d"), None);
    assert_eq!(doc.number_member("e"), None);
}

#[test]
fn what_is_written_is_read_back() {
    let fields = vec![
        ("name".to_string(), Field::Text("a \"quoted\"\n—".to_string())),
        ("count".to_string(), Field::Number(u64::MAX)),
    ];
    let text = write_record(fields);
    assert_eq!(
        text,
        r#"{"count":18446744073709551615,"name":"a \"quoted\"\n—"}"#
    );
    let doc = parse_json(&text).ok().unwrap();
    assert_eq!(doc.text_member("name").unwrap(), "a \"quoted\"\n—");
    assert_eq!(doc.number_member("count"), Some(u64::MAX));
    assert_eq!(write_record(Vec::new()), "{}");
}
