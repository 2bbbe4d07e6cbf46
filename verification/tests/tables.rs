use jukebox::{can_draw, can_list, list_queue, list_table, Duration, Error, Metadata, Track};
use std::collections::VecDeque;

fn track(title: &str, artist: &str, secs: u64) -> Track {
    Track {
        metadata: Metadata {
            title: Some(title.to_string()),
            artist: Some(artist.to_string()),
            duration: Some(Duration::new(secs, 0)),
        },
        url: "http://example.com/".to_string(),
    }
}

fn rows(rows: &[&[&str]]) -> Vec<Vec<String>> {
    rows.iter().map(|row| row.iter().map(|cell| cell.to_string()).collect()).collect()
}

#[test]
fn an_empty_queue_is_not_listed() {
    let q: VecDeque<Track> = VecDeque::new();
    assert!(can_list(&q));
    assert_eq!(list_queue(&q), Err(Error::NoSongsPlaying));
}

#[test]
fn one_track() {
    let q: VecDeque<Track> = VecDeque::from(vec![track("T", "A", 200)]);
    assert!(can_list(&q));
    assert_eq!(
        list_queue(&q).unwrap(),
        "```\n┌─┬─┬─┬───────┐\n│0│T│A│0h3m20s│\n└─┴─┴─┴───────┘\n```"
    );
}

#[test]
fn tracks_are_numbered_in_order() {
    let mut nameless = track("", "", 0);
    nameless.metadata = Metadata { title: None, artist: None, duration: None };
    let q: VecDeque<Track> = VecDeque::from(vec![track("One", "A", 61), nameless]);
    assert!(can_list(&q));
    let wanted = "```\n\
        ┌─┬──────────┬───────────┬─────────────┐\n\
        │0│One       │A          │0h1m1s       │\n\
        ├─┼──────────┼───────────┼─────────────┤\n\
        │1│<no title>│<no artist>│<no duration>│\n\
        └─┴──────────┴───────────┴─────────────┘\n```";
    assert_eq!(list_queue(&q).unwrap(), wanted);
}

#[test]
fn a_drawn_table_is_set_in_a_block() {
    assert_eq!(list_table(Ok("table".to_string())).unwrap(), "```\ntable\n```");
    assert_eq!(
        list_table(Err("no table".to_string())),
        Err(Error::Failed { text: "no table".to_string() })
    );
}

#[test]
fn accents_that_fit_their_column_are_drawn() {
    let q: VecDeque<Track> = VecDeque::from(vec![track("é", "A", 1), track("abc", "A", 1)]);
    assert!(can_list(&q));
    assert!(list_queue(&q).unwrap().contains("│0│é │A│0h0m1s│\n"));
}

#[test]
fn a_column_may_not_cut_a_character() {
    let cut: VecDeque<Track> = VecDeque::from(vec![track("é", "A", 1)]);
    assert!(!can_list(&cut));
    let whole: VecDeque<Track> = VecDeque::from(vec![track("éé", "A", 1)]);
    assert!(can_list(&whole));
    assert!(list_queue(&whole).unwrap().contains("│0│é│A│0h0m1s│\n"));
}

#[test]
fn what_reaches_into_the_next_column_counts() {
    // The last of the three characters comes to stand in the next column.
    let shown: VecDeque<Track> =
        VecDeque::from(vec![track("日本語", "", 1), track("abc", "abc", 1)]);
    assert!(can_list(&shown));
    assert!(list_queue(&shown).unwrap().contains("│0│日│語│0h0m1s│\n"));
    // Here its first byte is covered.
    let torn: VecDeque<Track> =
        VecDeque::from(vec![track("日本語", "A", 1), track("abc", "abcd", 1)]);
    assert!(!can_list(&torn));
    // Here all of it is.
    let covered: VecDeque<Track> =
        VecDeque::from(vec![track("日本語", "xyz", 1), track("abc", "abcd", 1)]);
    assert!(can_list(&covered));
    assert!(list_queue(&covered).unwrap().contains("│0│日│xyz │0h0m1s│\n"));
}

#[test]
fn ascii_text_is_always_listed() {
    let q: VecDeque<Track> = VecDeque::from(vec![
        track("", "", 0),
        track("a \t`|\u{7f}", "~", 3600),
        track("A long title, longer than all others", "Somebody", 12345),
    ]);
    assert!(can_list(&q));
    assert_eq!(list_queue(&q).unwrap().lines().count(), 9);
}

#[test]
fn durations_beyond_the_limit_are_not_listed() {
    let q: VecDeque<Track> = VecDeque::from(vec![track("T", "A", u64::MAX)]);
    assert!(!can_list(&q));
}

#[test]
fn tables_without_cells_cannot_be_drawn() {
    assert!(!can_draw(&rows(&[])));
    assert!(!can_draw(&rows(&[&[]])));
    assert!(can_draw(&rows(&[&["a"]])));
}

#[test]
fn no_row_may_be_longer_than_the_first() {
    assert!(can_draw(&rows(&[&["a", "b"], &["c"]])));
    assert!(!can_draw(&rows(&[&["a"], &["b", "c"]])));
}
