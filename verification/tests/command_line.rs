use spotify_peek::cli::{options, parse_cycles, stylesheet, Beat, Options, Probe};

fn asked(args: &[&str]) -> Options {
    options(&args.iter().map(|a| a.to_string()).collect())
}

#[test]
fn the_flags_are_understood() {
    assert_eq!(asked(&["peek"]), Options { debug_open: false, cycles: None });
    assert_eq!(
        asked(&["peek", "--debug-cycle", "60", "--debug-open"]),
        Options { debug_open: true, cycles: Some(60) }
    );
    assert_eq!(asked(&["peek", "--debug-cycle"]).cycles, None);
    assert_eq!(
        asked(&["peek", "--debug-cycle", "--debug-cycle", "3"]).cycles,
        None,
        "the first flag counts"
    );
    assert!(!asked(&["peek", "--debug-opened"]).debug_open);
}

#[test]
fn cycles_are_whole_numbers() {
    assert_eq!(parse_cycles("0"), Some(0));
    assert_eq!(parse_cycles("+7"), Some(7));
    assert_eq!(parse_cycles("007"), Some(7));
    assert_eq!(parse_cycles("4294967295"), Some(u32::MAX));
    for text in ["", "+", "-1", " 1", "1 ", "1_0", "++1", "4294967296", "99999999999999999999", "9999999999x"] {
        assert_eq!(parse_cycles(text), None);
    }
    for n in [0, 9, 10, 1234567890] {
        assert_eq!(parse_cycles(&format!("{n}")), Some(n), "it is read back");
    }
}

#[test]
fn the_probe_opens_and_closes() {
    assert!(Probe::accepts(2));
    let mut probe = Probe::new(2);
    assert!(!probe.is_over());
    let opens = || Beat { open: true, report: None, last: false };
    assert_eq!(probe.beat(), opens());
    assert_eq!(probe.beat(), Beat { open: false, report: Some(1), last: false });
    assert_eq!(probe.beat(), opens());
    assert_eq!(probe.beat(), Beat { open: false, report: Some(2), last: true });
    assert!(probe.is_over());
    assert!(Probe::new(0).is_over(), "none opened, none closed");
}

#[test]
fn some_numbers_of_cycles_cannot_be_counted() {
    assert!(Probe::accepts(0));
    assert!(Probe::accepts(u32::MAX / 2));
    assert!(!Probe::accepts(u32::MAX / 2 + 1));
}

#[test]
fn the_stylesheet_lies_below_home() {
    assert_eq!(
        stylesheet("/h"),
        "/h/.config/hypr/scripts/spotify-peek/style.css"
    );
}
