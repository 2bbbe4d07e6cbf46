use jukebox::{
    parse_command, parse_url, play_link, report_error, song_ended, Action, BadUrl, Command, Errand,
    Error, EventContext, Handler, PlayMode, Queue, QueueKey, Request, Step, Waiting,
};

fn said(step: &Step) -> Option<&str> {
    match step {
        Step::Perform { action: Action::Say { text }, .. } => Some(text.as_str()),
        _ => None,
    }
}

fn replied(step: &Step) -> Option<&str> {
    match step {
        Step::Perform { action: Action::Reply { text }, then: Waiting::Sent } => {
            Some(text.as_str())
        }
        _ => None,
    }
}

#[test]
fn commands_follow_a_quotation_mark() {
    assert_eq!(parse_command("\"skip"), Some(Command::Skip));
    assert_eq!(parse_command("\"queue"), Some(Command::Queue));
    assert_eq!(parse_command("\"disconnect"), Some(Command::Disconnect));
    assert_eq!(parse_command("\"playing"), Some(Command::Playing));
    assert_eq!(parse_command("\"help"), Some(Command::Help));
    assert_eq!(parse_command("skip"), None);
    assert_eq!(parse_command(""), None);
    assert_eq!(parse_command("\""), None);
}

#[test]
fn commands_are_exact() {
    assert_eq!(parse_command("\"skip "), None);
    assert_eq!(parse_command("\" skip"), None);
    assert_eq!(parse_command("\"Skip"), None);
    assert_eq!(parse_command("\"play"), None);
    assert_eq!(parse_command("\"plays x"), None);
    assert_eq!(parse_command("\u{201c}skip"), None);
}

#[test]
fn the_link_of_a_play_command_is_trimmed() {
    let wanted = Some(Command::Play { link: "http://a/ b".to_string() });
    assert_eq!(parse_command("\"play http://a/ b"), wanted);
    assert_eq!(parse_command("\"play \t\u{a0}http://a/ b\u{3000}\n "), wanted);
    assert_eq!(parse_command("\"play "), Some(Command::Play { link: String::new() }));
    assert_eq!(parse_command("\"play \u{2003} "), Some(Command::Play { link: String::new() }));
    assert_eq!(
        parse_command("\"play \u{200b}x"),
        Some(Command::Play { link: "\u{200b}x".to_string() })
    );
}

#[test]
fn trimming_agrees_with_the_standard_library() {
    let mut c: u32 = 0;
    while c < 0x11000 {
        if let Some(c) = char::from_u32(c) {
            let link = format!("{}x{}", c, c);
            let wanted = Some(Command::Play { link: link.trim().to_string() });
            assert_eq!(parse_command(&format!("\"play {}", link)), wanted);
        }
        c += 1;
    }
}

#[test]
fn other_messages_are_not_answered() {
    assert!(matches!(Handler::message("hello", 1), Step::Done));
    assert!(matches!(Handler::message("", 1), Step::Done));
    assert!(matches!(Handler::message("\"stop", 1), Step::Done));
}

#[test]
fn help_is_told_as_an_error() {
    let step = Handler::message("\"help", 1);
    assert_eq!(
        said(&step),
        Some("err: ```Help\n\tplay <url> - Play a url that youtube-dl supports\n\tskip - Skip\n\tqueue - Show the queueueue\n\tdisconnect\n\tplaying - Info about the playing song```")
    );
    assert!(matches!(step, Step::Perform { then: Waiting::Reported, .. }));
}

#[test]
fn urls_are_read_in_their_normal_form() {
    assert_eq!(parse_url("HTTP://Example.COM:80/a b"), Ok("http://example.com/a%20b".to_string()));
    assert_eq!(parse_url("https://youtu.be/x?t=1#y"), Ok("https://youtu.be/x?t=1#y".to_string()));
    assert_eq!(parse_url("not a url"), Err(BadUrl));
    assert_eq!(parse_url(""), Err(BadUrl));
    assert_eq!(parse_url("../song"), Err(BadUrl));
}

#[test]
fn a_bad_link_is_quoted_in_a_reply() {
    let step = Handler::message("\"play not a url", 1);
    assert_eq!(replied(&step), Some("unable to parse URL \"not a url\""));
    let step = Handler::message("\"play a\"b\n\tc", 1);
    assert_eq!(replied(&step), Some("unable to parse URL \"a\\\"b\\n\\tc\""));
    assert_eq!(replied(&play_link("x", Err(BadUrl), 1)), Some("unable to parse URL \"x\""));
}

#[test]
fn a_good_link_is_played_where_the_author_is() {
    match Handler::message("\"play HTTP://Example.com", 42) {
        Step::Perform {
            action: Action::FindGuild,
            then:
                Waiting::Guild {
                    author_id,
                    request: Request::InCall { errand: Errand::Play { url } },
                },
        } => {
            assert_eq!(author_id, 42);
            assert_eq!(url, "http://example.com/");
        }
        other => panic!("{:?}", other),
    }
    match play_link("x", Ok("http://x/".to_string()), 7) {
        Step::Perform {
            action: Action::FindGuild,
            then:
                Waiting::Guild {
                    author_id: 7,
                    request: Request::InCall { errand: Errand::Play { url } },
                },
        } => assert_eq!(url, "http://x/"),
        other => panic!("{:?}", other),
    }
}

#[test]
fn other_commands_look_up_the_guild() {
    assert!(matches!(
        Handler::message("\"skip", 5),
        Step::Perform {
            action: Action::FindGuild,
            then: Waiting::Guild { author_id: 5, request: Request::InCall { errand: Errand::Skip } },
        }
    ));
    assert!(matches!(
        Handler::message("\"queue", 5),
        Step::Perform { action: Action::FindGuild, then: Waiting::Guild { request: Request::Queue, .. } }
    ));
    assert!(matches!(
        Handler::message("\"disconnect", 5),
        Step::Perform {
            action: Action::FindGuild,
            then: Waiting::Guild { request: Request::Disconnect, .. }
        }
    ));
    assert!(matches!(
        Handler::message("\"playing", 5),
        Step::Perform {
            action: Action::FindGuild,
            then: Waiting::Guild { request: Request::Playing, .. }
        }
    ));
}

#[test]
fn each_error_has_its_text() {
    let text = |e: Error| report_error(&e);
    assert_eq!(text(Error::NotInAVoiceChannel), "err: not in a voice channel");
    assert_eq!(
        text(Error::AlreadyInAnotherChannel { channel_id: 18446744073709551615 }),
        "err: already in another channel: 18446744073709551615"
    );
    assert_eq!(
        text(Error::AlreadyInAnotherChannel { channel_id: 1020 }),
        "err: already in another channel: 1020"
    );
    assert_eq!(text(Error::NotInAnyChannel), "err: not in any channel");
    assert_eq!(text(Error::NotInAnyVoiceChannel), "err: not in any voice channel");
    assert_eq!(text(Error::NoSongsPlaying), "err: No songs playing");
    assert_eq!(text(Error::NoSongIsPlaying), "err: no song is playing");
    assert_eq!(text(Error::NoDurationMetadata), "err: no duration metadata");
    assert_eq!(text(Error::Failed { text: "boom".to_string() }), "err: boom");
}

#[test]
fn only_the_end_of_a_single_track_counts() {
    let tracks = |tracks: Vec<(PlayMode, u128)>| song_ended(&EventContext::Track { tracks });
    assert_eq!(tracks(vec![(PlayMode::End, 9)]), Some(9));
    assert_eq!(tracks(vec![(PlayMode::Stop, 9)]), None);
    assert_eq!(tracks(vec![(PlayMode::Play, 9)]), None);
    assert_eq!(tracks(vec![(PlayMode::Pause, 9)]), None);
    assert_eq!(tracks(vec![(PlayMode::Other, 9)]), None);
    assert_eq!(tracks(vec![]), None);
    assert_eq!(tracks(vec![(PlayMode::End, 9), (PlayMode::End, 8)]), None);
    assert_eq!(song_ended(&EventContext::Other), None);
}

#[test]
fn a_new_queue_is_empty() {
    let queue = Queue::default();
    assert_eq!(queue.queue.len(), 0);
    let _key = QueueKey;
}
