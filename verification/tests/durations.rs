use jukebox::{can_show, format_duration, Duration, Metadata, Track};

fn shown(secs: u64) -> String {
    format_duration(&Duration::new(secs, 0))
}

fn track(duration: Option<Duration>) -> Track {
    Track {
        metadata: Metadata { title: None, artist: None, duration },
        url: "http://example.com/".to_string(),
    }
}

#[test]
fn nothing_is_shown_as_zeros() {
    assert_eq!(shown(0), "0h0m0s");
}

#[test]
fn seconds_minutes_and_hours() {
    assert_eq!(shown(1), "0h0m1s");
    assert_eq!(shown(59), "0h0m59s");
    assert_eq!(shown(61), "0h1m1s");
    assert_eq!(shown(200), "0h3m20s");
    assert_eq!(shown(3661), "1h1m1s");
    assert_eq!(shown(36_000 + 125), "10h2m5s");
}

#[test]
fn even_minutes_and_hours_keep_sixty_seconds() {
    assert_eq!(shown(60), "0h0m60s");
    assert_eq!(shown(120), "0h1m60s");
    assert_eq!(shown(3600), "0h59m60s");
    assert_eq!(shown(7200), "1h59m60s");
    assert_eq!(shown(3601), "1h0m1s");
}

#[test]
fn nanoseconds_are_not_shown() {
    assert_eq!(format_duration(&Duration::new(5, 999_999_999)), "0h0m5s");
}

#[test]
fn parts_add_up() {
    for secs in [0u64, 1, 60, 61, 119, 3599, 3600, 3601, 86_400, 100_000] {
        let text = shown(secs);
        let h: u64 = text[..text.find('h').unwrap()].parse().unwrap();
        let m: u64 = text[text.find('h').unwrap() + 1..text.find('m').unwrap()].parse().unwrap();
        let s: u64 = text[text.find('m').unwrap() + 1..text.len() - 1].parse().unwrap();
        assert_eq!(3600 * h + 60 * m + s, secs);
        assert!(m < 60);
        assert!(s <= 60);
    }
}

#[test]
fn different_seconds_are_shown_differently() {
    let mut seen: Vec<String> = Vec::new();
    for secs in 0..4000 {
        let text = shown(secs);
        assert!(!seen.contains(&text));
        seen.push(text);
    }
}

#[test]
fn hours_have_a_limit() {
    assert!(can_show(&Duration::new(0, 0)));
    assert!(can_show(&Duration::new(7_730_941_132_800, 999_999_999)));
    assert!(!can_show(&Duration::new(7_730_941_132_801, 0)));
    assert!(!can_show(&Duration::new(u64::MAX, 0)));
}

#[test]
fn subtraction_borrows_a_second() {
    let long = Duration::new(10, 100);
    let short = Duration::new(3, 200);
    assert_eq!(long.minus(&short), Duration::new(6, 999_999_900));
    assert_eq!(long.minus(&long), Duration::new(0, 0));
    assert_eq!(Duration::new(10, 300).minus(&short), Duration::new(7, 100));
    assert!(short.shorter_than(&long));
    assert!(!long.shorter_than(&long));
    assert!(Duration::new(3, 199).shorter_than(&short));
    assert_eq!(long.as_secs(), 10);
}

#[test]
fn a_track_tells_what_it_knows() {
    let known = Track {
        metadata: Metadata {
            title: Some("Song".to_string()),
            artist: Some("Band".to_string()),
            duration: Some(Duration::new(200, 0)),
        },
        url: "http://example.com/".to_string(),
    };
    assert_eq!(known.name(), "Song");
    assert_eq!(known.artist(), "Band");
    assert_eq!(known.duration(), "0h3m20s");
}

#[test]
fn a_track_has_stand_ins_for_the_rest() {
    let unknown = track(None);
    assert_eq!(unknown.name(), "<no title>");
    assert_eq!(unknown.artist(), "<no artist>");
    assert_eq!(unknown.duration(), "<no duration>");
}

#[test]
fn a_track_is_made_of_its_url_and_metadata() {
    let url = "http://example.com/song".to_string();
    let metadata = Metadata { title: Some("Song".to_string()), artist: None, duration: None };
    let made = Track::from_url(&url, Ok(metadata)).unwrap();
    assert_eq!(made.url, url);
    assert_eq!(made.name(), "Song");
    assert_eq!(Track::from_url(&url, Err("gone".to_string())).unwrap_err(), "gone");
}

#[test]
fn a_copy_of_a_track_is_the_same() {
    let one = track(Some(Duration::new(7, 0)));
    let two = one.clone();
    assert_eq!(two.url, one.url);
    assert_eq!(two.name(), one.name());
    assert_eq!(two.duration(), "0h0m7s");
}
