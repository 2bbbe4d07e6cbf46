use jukebox::{
    tell_position, Action, Duration, Errand, Error, Event, Guild, Handler, Metadata, Reach, Request,
    Step, Track, TrackEnd, VoiceState, Waiting,
};
use std::collections::HashMap;

const GUILD: u64 = 10;
const CHANNEL: u64 = 20;
const AUTHOR: u64 = 30;

fn guild_of(id: u64, channel_id: Option<u64>) -> Event {
    let mut voice_states: HashMap<u64, VoiceState> = HashMap::new();
    voice_states.insert(AUTHOR, VoiceState { channel_id });
    Event::Guild { guild: Guild { id, voice_states } }
}

fn here() -> Event {
    guild_of(GUILD, Some(CHANNEL))
}

fn done() -> Event {
    Event::Done { result: Ok(()) }
}

fn failed(text: &str) -> Event {
    Event::Done { result: Err(text.to_string()) }
}

fn fetched(title: &str, secs: u64) -> Event {
    Event::Fetched {
        fetched: Ok(Metadata {
            title: Some(title.to_string()),
            artist: None,
            duration: Some(Duration::new(secs, 0)),
        }),
    }
}

fn started(id: u128) -> Event {
    Event::Started { song: Ok(id) }
}

fn position(secs: u64) -> Event {
    Event::Position { position: Ok(Duration::new(secs, 0)) }
}

/// Goes on with a step, which must be waiting for something.
fn go_on(bot: &mut Handler, step: Step, event: Event) -> Step {
    match step {
        Step::Perform { then, .. } => {
            assert!(bot.accepts(&then, &event));
            bot.resume(then, event)
        }
        Step::Done => panic!("nothing to go on with"),
    }
}

fn run(bot: &mut Handler, content: &str, events: Vec<Event>) -> Step {
    let mut step = Handler::message(content, AUTHOR);
    for event in events {
        step = go_on(bot, step, event);
    }
    step
}

/// Plays a first track, for which the channel is joined.
fn play_first(bot: &mut Handler, title: &str, id: u128) {
    let step = run(
        bot,
        "\"play http://a/",
        vec![here(), done(), done(), fetched(title, 200), started(id)],
    );
    assert!(matches!(step, Step::Done));
}

fn queue(bot: &mut Handler, title: &str) {
    let step = run(bot, "\"play http://a/", vec![here(), fetched(title, 200)]);
    assert!(matches!(step, Step::Done));
}

fn said(step: &Step) -> &str {
    match step {
        Step::Perform { action: Action::Say { text }, .. } => text.as_str(),
        other => panic!("{:?}", other),
    }
}

fn titles(bot: &Handler) -> Vec<String> {
    bot.get_call_by_guild_id(GUILD).unwrap().q.iter().map(|t| t.name()).collect()
}

fn now_playing(bot: &Handler) -> Option<(String, u128)> {
    bot.get_call_by_guild_id(GUILD).unwrap().now_playing.as_ref().map(|p| (p.t.name(), p.h))
}

fn named(title: &str, id: u128) -> Option<(String, u128)> {
    Some((title.to_string(), id))
}

#[test]
fn the_first_track_joins_the_channel_and_starts() {
    let mut bot = Handler::new();
    let step = Handler::message("\"play HTTP://A", AUTHOR);
    let step = go_on(&mut bot, step, here());
    assert!(matches!(
        step,
        Step::Perform { action: Action::Join { guild_id: GUILD, channel_id: CHANNEL }, .. }
    ));
    let step = go_on(&mut bot, step, done());
    assert!(matches!(step, Step::Perform { action: Action::Deafen { guild_id: GUILD }, .. }));
    assert!(bot.get_call_by_guild_id(GUILD).is_none());
    let step = go_on(&mut bot, step, done());
    match &step {
        Step::Perform { action: Action::Fetch { url }, .. } => assert_eq!(url, "http://a/"),
        other => panic!("{:?}", other),
    }
    assert_eq!(bot.get_call_by_guild_id(GUILD).unwrap().channel_id, CHANNEL);
    assert_eq!(bot.get_call_by_guild_id(GUILD).unwrap().guild_id, GUILD);
    let step = go_on(&mut bot, step, fetched("One", 200));
    match &step {
        Step::Perform { action: Action::Start { guild_id, track }, .. } => {
            assert_eq!(*guild_id, GUILD);
            assert_eq!(track.name(), "One");
            assert_eq!(track.url, "http://a/");
        }
        other => panic!("{:?}", other),
    }
    assert_eq!(now_playing(&bot), None);
    let step = go_on(&mut bot, step, started(1));
    assert!(matches!(step, Step::Done));
    assert_eq!(now_playing(&bot), named("One", 1));
    assert_eq!(titles(&bot), vec!["One"]);
}

#[test]
fn later_tracks_wait_their_turn() {
    let mut bot = Handler::new();
    play_first(&mut bot, "One", 1);
    queue(&mut bot, "Two");
    queue(&mut bot, "Three");
    assert_eq!(titles(&bot), vec!["One", "Two", "Three"]);
    assert_eq!(now_playing(&bot), named("One", 1));
    match bot.track_end(1) {
        TrackEnd::Next { guild_id: GUILD, track } => {
            assert_eq!(track.name(), "Two");
            assert_eq!(bot.track_started(GUILD, track, Ok(2)), Ok(()));
        }
        other => panic!("{:?}", other),
    }
    assert_eq!(titles(&bot), vec!["Two", "Three"]);
    assert_eq!(now_playing(&bot), named("Two", 2));
    match bot.track_end(2) {
        TrackEnd::Next { track, .. } => assert_eq!(bot.track_started(GUILD, track, Ok(3)), Ok(())),
        other => panic!("{:?}", other),
    }
    assert!(matches!(bot.track_end(3), TrackEnd::QueueEnded));
    assert_eq!(titles(&bot).len(), 0);
    assert_eq!(now_playing(&bot), None);
}

#[test]
fn a_skip_starts_the_next_track() {
    let mut bot = Handler::new();
    play_first(&mut bot, "One", 1);
    queue(&mut bot, "Two");
    let step = run(&mut bot, "\"skip", vec![here()]);
    assert!(matches!(step, Step::Perform { action: Action::Stop { id: 1 }, .. }));
    assert_eq!(now_playing(&bot), named("One", 1));
    let step = go_on(&mut bot, step, done());
    match &step {
        Step::Perform { action: Action::Start { track, .. }, .. } => {
            assert_eq!(track.name(), "Two")
        }
        other => panic!("{:?}", other),
    }
    assert_eq!(now_playing(&bot), None);
    assert!(matches!(go_on(&mut bot, step, started(2)), Step::Done));
    assert_eq!(now_playing(&bot), named("Two", 2));
    assert!(matches!(run(&mut bot, "\"skip", vec![here(), done()]), Step::Done));
    assert_eq!(titles(&bot).len(), 0);
}

#[test]
fn a_skipped_track_does_not_advance_the_queue_again() {
    let mut bot = Handler::new();
    play_first(&mut bot, "One", 1);
    queue(&mut bot, "Two");
    queue(&mut bot, "Three");
    run(&mut bot, "\"skip", vec![here(), done(), started(2)]);
    assert!(matches!(bot.track_end(1), TrackEnd::OtherPlaying { playing: 2 }));
    assert_eq!(titles(&bot), vec!["Two", "Three"]);
    assert_eq!(now_playing(&bot), named("Two", 2));
    assert!(matches!(bot.track_end(1), TrackEnd::NotPlayed));
}

#[test]
fn an_end_after_the_last_skip_finds_nothing_playing() {
    let mut bot = Handler::new();
    play_first(&mut bot, "One", 1);
    run(&mut bot, "\"skip", vec![here(), done()]);
    assert!(matches!(bot.track_end(1), TrackEnd::NothingPlaying { guild_id: GUILD }));
}

#[test]
fn there_may_be_nothing_to_skip() {
    let mut bot = Handler::new();
    let step = run(&mut bot, "\"skip", vec![here(), done(), done()]);
    assert_eq!(said(&step), "Nothing playing to skip");
    assert!(bot.get_call_by_guild_id(GUILD).is_some());
    assert!(matches!(go_on(&mut bot, step, done()), Step::Done));
}

#[test]
fn the_author_must_be_in_a_voice_channel() {
    let mut bot = Handler::new();
    let step = run(&mut bot, "\"skip", vec![guild_of(GUILD, None)]);
    assert_eq!(said(&step), "err: not in a voice channel");
    let nobody = Event::Guild { guild: Guild { id: GUILD, voice_states: HashMap::new() } };
    let step = run(&mut bot, "\"play http://a/", vec![nobody]);
    assert_eq!(said(&step), "err: not in a voice channel");
    assert!(bot.get_call_by_guild_id(GUILD).is_none());
}

#[test]
fn the_bot_is_in_one_channel_of_a_guild() {
    let mut bot = Handler::new();
    play_first(&mut bot, "One", 1);
    let step = run(&mut bot, "\"skip", vec![guild_of(GUILD, Some(21))]);
    assert_eq!(said(&step), "err: already in another channel: 21");
    assert_eq!(bot.get_call_by_channel_id(GUILD, CHANNEL), Ok(Reach::Joined));
    assert_eq!(
        bot.get_call_by_channel_id(GUILD, 21),
        Err(Error::AlreadyInAnotherChannel { channel_id: 21 })
    );
    assert_eq!(bot.get_call_by_channel_id(11, 21), Ok(Reach::ToJoin));
}

#[test]
fn a_channel_that_cannot_be_joined_leaves_nothing_behind() {
    let mut bot = Handler::new();
    let step = run(&mut bot, "\"skip", vec![here(), failed("no gateway")]);
    assert_eq!(said(&step), "err: no gateway");
    let step = run(&mut bot, "\"skip", vec![here(), done(), failed("not deaf")]);
    assert_eq!(said(&step), "err: not deaf");
    assert!(bot.get_call_by_guild_id(GUILD).is_none());
}

#[test]
fn a_track_that_cannot_be_fetched_is_not_queued() {
    let mut bot = Handler::new();
    play_first(&mut bot, "One", 1);
    let missing = Event::Fetched { fetched: Err("no such video".to_string()) };
    let step = run(&mut bot, "\"play http://a/", vec![here(), missing]);
    assert_eq!(said(&step), "err: no such video");
    assert_eq!(titles(&bot), vec!["One"]);
}

#[test]
fn a_track_that_does_not_start_stays_in_the_queue() {
    let mut bot = Handler::new();
    let unplayable = Event::Started { song: Err("no sound".to_string()) };
    let step = run(
        &mut bot,
        "\"play http://a/",
        vec![here(), done(), done(), fetched("One", 200), unplayable],
    );
    assert_eq!(said(&step), "err: no sound");
    assert_eq!(titles(&bot), vec!["One"]);
    assert_eq!(now_playing(&bot), None);
    // The next track is started, though it is not in front.
    let step = run(&mut bot, "\"play http://a/", vec![here(), fetched("Two", 200), started(2)]);
    assert!(matches!(step, Step::Done));
    assert_eq!(titles(&bot), vec!["One", "Two"]);
    assert_eq!(now_playing(&bot), named("Two", 2));
}

#[test]
fn a_track_that_does_not_stop_is_not_skipped() {
    let mut bot = Handler::new();
    play_first(&mut bot, "One", 1);
    let step = run(&mut bot, "\"skip", vec![here(), failed("gone")]);
    assert_eq!(said(&step), "err: gone");
    assert_eq!(now_playing(&bot), named("One", 1));
    assert_eq!(titles(&bot), vec!["One"]);
}

#[test]
fn a_next_track_that_does_not_start_is_noted_as_nothing() {
    let mut bot = Handler::new();
    play_first(&mut bot, "One", 1);
    queue(&mut bot, "Two");
    match bot.track_end(1) {
        TrackEnd::Next { track, .. } => {
            assert_eq!(
                bot.track_started(GUILD, track, Err("no sound".to_string())),
                Err("no sound".to_string())
            );
        }
        other => panic!("{:?}", other),
    }
    assert_eq!(titles(&bot), vec!["Two"]);
    assert_eq!(now_playing(&bot), None);
}

#[test]
fn an_answer_that_cannot_be_sent_is_reported() {
    let mut bot = Handler::new();
    let step = Handler::message("\"play nonsense", AUTHOR);
    let step = go_on(&mut bot, step, failed("too long"));
    assert_eq!(said(&step), "err: too long");
    assert!(matches!(go_on(&mut bot, step, failed("still too long")), Step::Done));
    let step = Handler::message("\"play nonsense", AUTHOR);
    assert!(matches!(go_on(&mut bot, step, done()), Step::Done));
}

#[test]
fn the_queue_is_listed() {
    let mut bot = Handler::new();
    let step = run(&mut bot, "\"queue", vec![here()]);
    assert_eq!(said(&step), "err: not in any channel");
    run(&mut bot, "\"skip", vec![here(), done(), done()]);
    let step = run(&mut bot, "\"queue", vec![here()]);
    assert_eq!(said(&step), "err: No songs playing");
    run(&mut bot, "\"play http://a/", vec![here(), fetched("One", 200), started(1)]);
    let step = run(&mut bot, "\"queue", vec![guild_of(GUILD, None)]);
    assert_eq!(
        said(&step),
        "```\n┌─┬───┬───────────┬───────┐\n│0│One│<no artist>│0h3m20s│\n└─┴───┴───────────┴───────┘\n```"
    );
    assert!(matches!(step, Step::Perform { then: Waiting::Sent, .. }));
}

#[test]
fn a_queue_that_cannot_be_listed_is_not_accepted() {
    let mut bot = Handler::new();
    play_first(&mut bot, "é", 1);
    let waiting = Waiting::Guild { author_id: AUTHOR, request: Request::Queue };
    assert!(!bot.accepts(&waiting, &here()));
    assert!(bot.accepts(&waiting, &guild_of(11, None)));
}

#[test]
fn a_disconnect_stops_leaves_and_forgets() {
    let mut bot = Handler::new();
    play_first(&mut bot, "One", 1);
    let step = run(&mut bot, "\"disconnect", vec![guild_of(GUILD, None)]);
    assert!(matches!(step, Step::Perform { action: Action::Stop { id: 1 }, .. }));
    assert!(bot.get_call_by_guild_id(GUILD).is_none());
    let step = go_on(&mut bot, step, failed("already stopped"));
    assert!(matches!(step, Step::Perform { action: Action::Leave { guild_id: GUILD }, .. }));
    assert!(matches!(go_on(&mut bot, step, done()), Step::Done));
    let step = run(&mut bot, "\"disconnect", vec![here()]);
    assert_eq!(said(&step), "err: not in any voice channel");
    let step = run(&mut bot, "\"queue", vec![here()]);
    assert_eq!(said(&step), "err: not in any channel");
    let step = run(&mut bot, "\"playing", vec![here()]);
    assert_eq!(said(&step), "err: not in any channel");
    assert!(matches!(bot.track_end(1), TrackEnd::NoQueue { guild_id: GUILD }));
}

#[test]
fn a_silent_call_is_left_at_once() {
    let mut bot = Handler::new();
    run(&mut bot, "\"skip", vec![here(), done(), done()]);
    let step = run(&mut bot, "\"disconnect", vec![here()]);
    assert!(matches!(step, Step::Perform { action: Action::Leave { guild_id: GUILD }, .. }));
    let step = go_on(&mut bot, step, failed("no connection"));
    assert_eq!(said(&step), "err: no connection");
    assert!(bot.get_call_by_guild_id(GUILD).is_none());
}

#[test]
fn what_is_playing_is_told_with_what_is_left() {
    let mut bot = Handler::new();
    let step = run(&mut bot, "\"playing", vec![here()]);
    assert_eq!(said(&step), "err: not in any channel");
    run(&mut bot, "\"skip", vec![here(), done(), done()]);
    let step = run(&mut bot, "\"playing", vec![here()]);
    assert_eq!(said(&step), "err: no song is playing");
    run(&mut bot, "\"play http://a/", vec![here(), fetched("One", 200), started(1)]);
    let step = run(&mut bot, "\"playing", vec![here()]);
    assert!(matches!(step, Step::Perform { action: Action::Position { id: 1 }, .. }));
    let step = go_on(&mut bot, step, position(75));
    assert_eq!(said(&step), "Playing: One\nLeft: 0h2m5s");
}

#[test]
fn the_time_left_may_be_unknown() {
    let track = Track {
        metadata: Metadata { title: Some("One".to_string()), artist: None, duration: None },
        url: "http://a/".to_string(),
    };
    let step = tell_position(&track, Ok(Duration::new(5, 0)));
    assert_eq!(said(&step), "err: no duration metadata");
    let step = tell_position(&track, Err("track ended".to_string()));
    assert_eq!(said(&step), "err: track ended");
}

#[test]
fn a_position_beyond_the_end_is_not_accepted() {
    let mut bot = Handler::new();
    play_first(&mut bot, "One", 1);
    match run(&mut bot, "\"playing", vec![here()]) {
        Step::Perform { then, .. } => {
            assert!(bot.accepts(&then, &position(200)));
            assert!(!bot.accepts(&then, &position(201)));
            assert!(!bot.accepts(&then, &done()));
        }
        Step::Done => panic!(),
    }
}

#[test]
fn guilds_are_separate() {
    let mut bot = Handler::new();
    play_first(&mut bot, "One", 1);
    queue(&mut bot, "Two");
    let there = || guild_of(11, Some(22));
    let step = run(
        &mut bot,
        "\"play http://b/",
        vec![there(), done(), done(), fetched("Other", 10), started(2)],
    );
    assert!(matches!(step, Step::Done));
    run(&mut bot, "\"skip", vec![there(), done()]);
    assert_eq!(titles(&bot), vec!["One", "Two"]);
    assert_eq!(now_playing(&bot), named("One", 1));
    run(&mut bot, "\"disconnect", vec![there(), done()]);
    assert!(bot.get_call_by_guild_id(11).is_none());
    assert_eq!(now_playing(&bot), named("One", 1));
}

#[test]
fn unknown_tracks_end_without_effect() {
    let mut bot = Handler::new();
    play_first(&mut bot, "One", 1);
    assert!(matches!(bot.track_end(99), TrackEnd::NotPlayed));
    assert_eq!(now_playing(&bot), named("One", 1));
}

#[test]
fn a_command_takes_six_actions_at_most() {
    let mut bot = Handler::new();
    let events = vec![
        here(),
        done(),
        done(),
        fetched("One", 200),
        Event::Started { song: Err("no sound".to_string()) },
        done(),
    ];
    assert!(matches!(run(&mut bot, "\"play http://a/", events), Step::Done));
}

#[test]
fn an_event_must_be_the_one_waited_for() {
    let bot = Handler::new();
    let waiting = Waiting::Fetch { guild_id: GUILD, url: "http://a/".to_string() };
    assert!(!bot.accepts(&waiting, &fetched("One", 200)));
    assert!(!bot.accepts(&waiting, &done()));
    let joining =
        Waiting::Join { guild_id: GUILD, channel_id: CHANNEL, errand: Errand::Skip };
    assert!(bot.accepts(&joining, &done()));
    assert!(!bot.accepts(&joining, &here()));
}
