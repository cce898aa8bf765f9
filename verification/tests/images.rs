use spotify_peek::art::{art_dir, cache_path, cached, fetch, Ask, Event, MAX_BYTES};

const URL: &str = "https://i.scdn.co/image/ab67616d";

#[test]
fn the_last_segment_is_the_key() {
    assert_eq!(art_dir("/h"), "/h/.cache/spotify-peek/art");
    assert_eq!(
        cache_path("/h", URL).as_deref(),
        Some("/h/.cache/spotify-peek/art/ab67616d")
    );
    assert_eq!(
        cache_path("/h", "bare").as_deref(),
        Some("/h/.cache/spotify-peek/art/bare")
    );
    for url in ["", "https://i.scdn.co/", "https://i.scdn.co/..", "x/a.part", "x/é", "x/a?b"] {
        assert!(cache_path("/h", url).is_none());
    }
}

#[test]
fn only_what_is_on_disk_is_cached() {
    assert_eq!(cached("/h", URL, true), cache_path("/h", URL));
    assert!(cached("/h", URL, false).is_none());
    assert!(cached("/h", "x/..", true).is_none());
}

#[test]
fn a_download_is_written_beside_its_place() {
    let path = "/h/.cache/spotify-peek/art/ab67616d".to_string();
    let (mut download, ask) = fetch("/h", URL);
    assert_eq!(ask, Ask::Look(path.clone()));
    assert_eq!(
        download.step(Event::Looked(false)),
        Ask::Download { url: URL.to_string(), limit: MAX_BYTES }
    );
    assert!(!download.accepts(&Event::Looked(true)));
    let image = Event::Downloaded(Ok(vec![1, 2, 3]));
    assert!(download.accepts(&image));
    assert_eq!(
        download.step(image),
        Ask::MakeDir("/h/.cache/spotify-peek/art".to_string())
    );
    assert_eq!(
        download.step(Event::Done(Ok(()))),
        Ask::Write { path: format!("{path}.part"), image: vec![1, 2, 3] }
    );
    assert_eq!(
        download.step(Event::Done(Ok(()))),
        Ask::Rename { from: format!("{path}.part"), to: path.clone() }
    );
    assert_eq!(download.step(Event::Done(Ok(()))), Ask::Finish(Ok(path)));
    assert!(!download.accepts(&Event::Done(Ok(()))), "it is over");
}

#[test]
fn a_cached_image_is_not_downloaded() {
    let (mut download, _) = fetch("/h", URL);
    assert_eq!(
        download.step(Event::Looked(true)),
        Ask::Finish(Ok("/h/.cache/spotify-peek/art/ab67616d".to_string()))
    );
}

#[test]
fn downloads_can_fail_at_every_step() {
    let (_, ask) = fetch("/h", "x/..");
    assert_eq!(ask, Ask::Finish(Err("unexpected art url".to_string())));

    let (mut download, _) = fetch("/h", URL);
    download.step(Event::Looked(false));
    assert_eq!(
        download.step(Event::Downloaded(Err("down".into()))),
        Ask::Finish(Err("art: down".to_string()))
    );

    for done in 0..3 {
        let (mut download, _) = fetch("/h", URL);
        download.step(Event::Looked(false));
        download.step(Event::Downloaded(Ok(vec![1])));
        for _ in 0..done {
            download.step(Event::Done(Ok(())));
        }
        assert_eq!(
            download.step(Event::Done(Err("disk full".into()))),
            Ask::Finish(Err("art: disk full".to_string()))
        );
    }
}

#[test]
fn no_more_than_the_cap_is_written() {
    let cap = MAX_BYTES as usize;
    for (len, kept) in [(cap - 1, cap - 1), (cap, cap), (cap + 3, cap)] {
        let (mut download, _) = fetch("/h", URL);
        download.step(Event::Looked(false));
        let mut image = vec![1; len];
        image[0] = 9;
        download.step(Event::Downloaded(Ok(image)));
        let Ask::Write { image, .. } = download.step(Event::Done(Ok(()))) else {
            panic!("the image is to be written");
        };
        assert_eq!(image.len(), kept);
        assert_eq!(image[..2], [9, 1], "the first bytes are kept");
    }
}
