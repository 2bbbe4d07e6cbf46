//! What each operation does, told by what goes in and what comes out: by the
//! fields of the calls, the tracks and the events, and by the texts that are
//! said.

use crate::call::{CallQueue, CallView};
use crate::command::{command_in, parse_command, Command, CommandView};
use crate::duration::{
    can_show, format_duration, hours_shown, minutes_shown, parts_are_unique, seconds_shown, shown,
    showable, Duration,
};
use crate::error::{report_error, Error};
use crate::handler::{
    goes_on, play_link, tell_position, Handler, HandlerView, Reach, TrackEnd,
};
use crate::laws::law_shown_parts_add_up;
use crate::link::{parse_url, url_read, BadUrl};
use crate::song::{song_ended, EventContext, PlayMode};
use crate::step::{Action, Errand, Event, Guild, Request, Step, Waiting};
use crate::table::{
    can_draw, can_list, cells, column_start, column_width, counted_size, drawable, drawn,
    durations_showable, laid_byte, laid_column, list_queue, list_table, listable, queue_cells, widths,
};
use crate::text::{
    begins_with, characters, decimal, decimal_text, digit, quoted, same_text, trim, trimmed,
    white_space,
};
use crate::track::{Metadata, Track};
use std::collections::VecDeque;
use vstd::prelude::*;
use vstd::utf8::{
    encode_utf8, encode_utf8_valid_utf8, is_ascii_chars_encode_utf8, valid_utf8, valid_utf8_concat,
};

verus! {

/// A step says a text, and nothing else.
pub open spec fn says_text(step: Step, text: Seq<char>) -> bool {
    step matches Step::Perform { action: Action::Say { text: said }, then: Waiting::Sent }
        && said@ == text
}

/// A step replies with a text, and nothing else.
pub open spec fn replies_text(step: Step, text: Seq<char>) -> bool {
    step matches Step::Perform { action: Action::Reply { text: said }, then: Waiting::Sent }
        && said@ == text
}

/// A step tells the channel of an error, and nothing else.
pub open spec fn reports_text(step: Step, text: Seq<char>) -> bool {
    step matches Step::Perform { action: Action::Say { text: said }, then: Waiting::Reported }
        && said@ == "err: "@ + text
}

/// The calls of two states are the same but in one guild, and all else is.
pub open spec fn differs_only_in(before: HandlerView, after: HandlerView, guild_id: u64) -> bool {
    &&& after.track_calls == before.track_calls
    &&& forall|other: u64|
        other != guild_id ==> {
            &&& (#[trigger] after.calls.contains_key(other)) == before.calls.contains_key(other)
            &&& after.calls[other] == before.calls[other]
        }
}

/// Every run of `Handler::resume` goes on as `goes_on` says.
pub proof fn law_resume_goes_on(waiting: Waiting, event: Event)
    ensures
        forall|handler: &mut Handler, step: Step| #[trigger]
            call_ensures(Handler::resume, (handler, waiting, event), step) ==> goes_on(
                (*handler)@,
                waiting,
                event,
                (*final(handler))@,
                step,
            ),
{
}

/// Every run of `Handler::track_end` ends as `track_end_of` and
/// `after_track_end` say.
pub proof fn law_track_end_ends(id: u128)
    ensures
        forall|handler: &mut Handler, end: TrackEnd| #[trigger]
            call_ensures(Handler::track_end, (handler, id), end) ==> {
                &&& end == (*handler)@.track_end_of(id)
                &&& (*final(handler))@ == (*handler)@.after_track_end(id)
            },
{
}

/// When metadata is fetched for a link, the queue of the guild grows at its
/// end by a track of just that metadata and just that link, whether or not
/// something is playing. The track is started at once if nothing is.
pub proof fn law_play_queues_what_was_asked_for(
    before: HandlerView,
    guild_id: u64,
    url: String,
    metadata: Metadata,
    after: HandlerView,
    step: Step,
)
    requires
        before.calls.contains_key(guild_id),
        goes_on(
            before,
            Waiting::Fetch { guild_id, url },
            Event::Fetched { fetched: Ok(metadata) },
            after,
            step,
        ),
    ensures
        differs_only_in(before, after, guild_id),
        after.calls.contains_key(guild_id),
        ({
            let was = before.calls[guild_id];
            let is = after.calls[guild_id];
            &&& is.q.len() == was.q.len() + 1
            &&& is.q.last().metadata == metadata
            &&& is.q.last().url == url
            &&& forall|i: int| 0 <= i < was.q.len() ==> is.q[i] == was.q[i]
            &&& is.now_playing == was.now_playing
            &&& is.guild_id == was.guild_id
            &&& is.channel_id == was.channel_id
            &&& was.now_playing is Some ==> step is Done
            &&& was.now_playing is None ==> step == (Step::Perform {
                action: Action::Start { guild_id, track: Track { metadata, url } },
                then: Waiting::Start { guild_id, track: Track { metadata, url } },
            })
        }),
{
}

/// A track that is queued behind the only one in a queue is the one that
/// comes next when that one ends: its link is the link that was asked for.
pub proof fn law_link_asked_for_is_played_next(
    before: HandlerView,
    guild_id: u64,
    url: String,
    metadata: Metadata,
    after: HandlerView,
    step: Step,
    id: u128,
)
    requires
        before.calls.contains_key(guild_id),
        before.calls[guild_id].q.len() == 1,
        before.calls[guild_id].now_playing matches Some(playing) && playing.h == id,
        before.track_calls.contains_key(id),
        before.track_calls[id] == guild_id,
        goes_on(
            before,
            Waiting::Fetch { guild_id, url },
            Event::Fetched { fetched: Ok(metadata) },
            after,
            step,
        ),
    ensures
        after.track_end_of(id) matches TrackEnd::Next { guild_id: g, track } && g == guild_id
            && track.url == url && track.metadata == metadata,
{
}

/// A track that has started is what plays, under the id of its playback. The
/// queue stays as it is.
pub proof fn law_started_track_plays(
    before: HandlerView,
    guild_id: u64,
    track: Track,
    id: u128,
    after: HandlerView,
    step: Step,
)
    requires
        before.calls.contains_key(guild_id),
        goes_on(
            before,
            Waiting::Start { guild_id, track },
            Event::Started { song: Ok(id) },
            after,
            step,
        ),
    ensures
        step is Done,
        after.calls.contains_key(guild_id),
        after.calls[guild_id].now_playing matches Some(playing) && playing.t == track && playing.h
            == id,
        after.calls[guild_id].q == before.calls[guild_id].q,
        after.calls[guild_id].guild_id == before.calls[guild_id].guild_id,
        after.calls[guild_id].channel_id == before.calls[guild_id].channel_id,
        after.track_calls.contains_key(id),
        after.track_calls[id] == guild_id,
        forall|other: u128|
            other != id ==> {
                &&& (#[trigger] after.track_calls.contains_key(other))
                    == before.track_calls.contains_key(other)
                &&& after.track_calls[other] == before.track_calls[other]
            },
        forall|other: u64|
            other != guild_id ==> {
                &&& (#[trigger] after.calls.contains_key(other)) == before.calls.contains_key(other)
                &&& after.calls[other] == before.calls[other]
            },
{
}

/// When the stop of a skip succeeds, the queue loses its first track and no
/// other, and nothing is playing. The second track of the old queue is then
/// started, if there was one.
pub proof fn law_skip_drops_the_first_track(
    before: HandlerView,
    guild_id: u64,
    after: HandlerView,
    step: Step,
)
    requires
        before.calls.contains_key(guild_id),
        goes_on(
            before,
            Waiting::Stop { guild_id },
            Event::Done { result: Ok(()) },
            after,
            step,
        ),
    ensures
        differs_only_in(before, after, guild_id),
        after.calls.contains_key(guild_id),
        ({
            let was = before.calls[guild_id];
            let is = after.calls[guild_id];
            &&& was.q.len() > 0 ==> is.q.len() == was.q.len() - 1
            &&& was.q.len() == 0 ==> is.q.len() == 0
            &&& forall|i: int| 0 <= i < was.q.len() - 1 ==> is.q[i] == #[trigger] was.q[i + 1]
            &&& is.now_playing is None
            &&& is.guild_id == was.guild_id
            &&& is.channel_id == was.channel_id
            &&& was.q.len() >= 2 ==> step == (Step::Perform {
                action: Action::Start { guild_id, track: was.q[1] },
                then: Waiting::Start { guild_id, track: was.q[1] },
            })
            &&& was.q.len() < 2 ==> step is Done
        }),
{
}

/// When the playback that goes on in a guild ends, its queue loses its first
/// track and no other. With two tracks or more in the queue, the second one
/// comes next; with fewer, the queue has ended.
pub proof fn law_ended_track_gives_way_to_the_second(before: HandlerView, id: u128)
    requires
        before.track_calls.contains_key(id),
        before.calls.contains_key(before.track_calls[id]),
        before.calls[before.track_calls[id]].now_playing matches Some(playing) && playing.h == id,
    ensures
        ({
            let guild_id = before.track_calls[id];
            let after = before.after_track_end(id);
            let was = before.calls[guild_id];
            let is = after.calls[guild_id];
            &&& was.q.len() >= 2 ==> before.track_end_of(id) == (TrackEnd::Next {
                guild_id,
                track: was.q[1],
            })
            &&& was.q.len() < 2 ==> before.track_end_of(id) is QueueEnded
            &&& after.calls.contains_key(guild_id)
            &&& was.q.len() > 0 ==> is.q.len() == was.q.len() - 1
            &&& was.q.len() == 0 ==> is.q.len() == 0
            &&& forall|i: int| 0 <= i < was.q.len() - 1 ==> is.q[i] == #[trigger] was.q[i + 1]
            &&& is.now_playing is None
            &&& is.guild_id == was.guild_id
            &&& is.channel_id == was.channel_id
        }),
{
}

/// The end of a track forgets its playback and no other, and leaves all calls
/// as they are but that in which it was playing.
pub proof fn law_track_end_leaves_the_rest_alone(before: HandlerView, id: u128, other: u64)
    requires
        !({
            &&& before.track_calls.contains_key(id)
            &&& before.track_calls[id] == other
            &&& before.calls.contains_key(other)
            &&& before.calls[other].now_playing matches Some(playing) && playing.h == id
        }),
    ensures
        before.after_track_end(id).track_calls == before.track_calls.remove(id),
        before.after_track_end(id).calls.contains_key(other) == before.calls.contains_key(other),
        before.after_track_end(id).calls[other] == before.calls[other],
{
}

/// The end of a track that is not playing in its guild is told for what it
/// is.
pub proof fn law_stray_track_ends_are_told_apart(before: HandlerView, id: u128)
    ensures
        !before.track_calls.contains_key(id) <==> before.track_end_of(id) is NotPlayed,
        before.track_calls.contains_key(id) ==> ({
            let guild_id = before.track_calls[id];
            let call = before.calls[guild_id];
            &&& !before.calls.contains_key(guild_id) ==> before.track_end_of(id)
                == (TrackEnd::NoQueue { guild_id })
            &&& before.calls.contains_key(guild_id) && call.now_playing is None
                ==> before.track_end_of(id) == (TrackEnd::NothingPlaying { guild_id })
            &&& before.calls.contains_key(guild_id) ==> (call.now_playing matches Some(playing)
                ==> (playing.h != id ==> before.track_end_of(id) == (TrackEnd::OtherPlaying {
                playing: playing.h,
            })))
        }),
{
}

/// An errand in a call that the bot is in: to play a link, just that link is
/// fetched; to skip, what plays is stopped, or the lack of it is told.
pub open spec fn takes_up(call: CallView, guild_id: u64, errand: Errand, step: Step) -> bool {
    match errand {
        Errand::Play { url } => step == (Step::Perform {
            action: Action::Fetch { url },
            then: Waiting::Fetch { guild_id, url },
        }),
        Errand::Skip => match call.now_playing {
            Some(playing) => step == (Step::Perform {
                action: Action::Stop { id: playing.h },
                then: Waiting::Stop { guild_id },
            }),
            None => says_text(step, "Nothing playing to skip"@),
        },
    }
}

/// An errand is done in the channel that the author of the message is in. The
/// bot joins it if it has no call in the guild, takes the errand up if it is
/// there, and says so if it is elsewhere or if the author is nowhere.
pub proof fn law_errands_are_done_where_the_author_is(
    before: HandlerView,
    author_id: u64,
    errand: Errand,
    guild: Guild,
    after: HandlerView,
    step: Step,
)
    requires
        goes_on(
            before,
            Waiting::Guild { author_id, request: Request::InCall { errand } },
            Event::Guild { guild },
            after,
            step,
        ),
    ensures
        after == before,
        !guild.voice_states@.contains_key(author_id) ==> reports_text(
            step,
            "not in a voice channel"@,
        ),
        guild.voice_states@.contains_key(author_id) ==> match guild.voice_states@[author_id].channel_id {
            None => reports_text(step, "not in a voice channel"@),
            Some(channel_id) => {
                &&& !before.calls.contains_key(guild.id) ==> step == (Step::Perform {
                    action: Action::Join { guild_id: guild.id, channel_id },
                    then: Waiting::Join { guild_id: guild.id, channel_id, errand },
                })
                &&& before.calls.contains_key(guild.id) && before.calls[guild.id].channel_id
                    != channel_id ==> reports_text(
                    step,
                    "already in another channel: "@ + decimal(channel_id as nat),
                )
                &&& before.calls.contains_key(guild.id) && before.calls[guild.id].channel_id
                    == channel_id ==> takes_up(before.calls[guild.id], guild.id, errand, step)
            },
        },
{
}

/// Once a channel is joined the bot goes deaf there, and once it is deaf it
/// has an empty call in that channel and takes the errand up.
pub proof fn law_joining_opens_an_empty_call(
    before: HandlerView,
    guild_id: u64,
    channel_id: u64,
    errand: Errand,
    after: HandlerView,
    step: Step,
)
    ensures
        goes_on(
            before,
            Waiting::Join { guild_id, channel_id, errand },
            Event::Done { result: Ok(()) },
            after,
            step,
        ) ==> {
            &&& after == before
            &&& step == (Step::Perform {
                action: Action::Deafen { guild_id },
                then: Waiting::Deafen { guild_id, channel_id, errand },
            })
        },
        goes_on(
            before,
            Waiting::Deafen { guild_id, channel_id, errand },
            Event::Done { result: Ok(()) },
            after,
            step,
        ) ==> {
            &&& differs_only_in(before, after, guild_id)
            &&& after.calls.contains_key(guild_id)
            &&& after.calls[guild_id].q.len() == 0
            &&& after.calls[guild_id].now_playing is None
            &&& after.calls[guild_id].guild_id == guild_id
            &&& after.calls[guild_id].channel_id == channel_id
            &&& takes_up(after.calls[guild_id], guild_id, errand, step)
        },
{
}

/// To disconnect forgets the call of the guild and nothing else. What plays
/// there is stopped, and then, whatever came of that, the call is left.
pub proof fn law_disconnect_stops_and_leaves(
    before: HandlerView,
    author_id: u64,
    guild: Guild,
    after: HandlerView,
    step: Step,
)
    requires
        goes_on(
            before,
            Waiting::Guild { author_id, request: Request::Disconnect },
            Event::Guild { guild },
            after,
            step,
        ),
    ensures
        differs_only_in(before, after, guild.id),
        !after.calls.contains_key(guild.id),
        !before.calls.contains_key(guild.id) ==> reports_text(step, "not in any voice channel"@),
        before.calls.contains_key(guild.id) ==> match before.calls[guild.id].now_playing {
            None => step == (Step::Perform {
                action: Action::Leave { guild_id: guild.id },
                then: Waiting::Leave,
            }),
            Some(playing) => {
                &&& step == (Step::Perform {
                    action: Action::Stop { id: playing.h },
                    then: Waiting::Halt { guild_id: guild.id },
                })
                &&& forall|result: Result<(), String>, later: HandlerView, next: Step| #[trigger]
                    goes_on(
                        after,
                        Waiting::Halt { guild_id: guild.id },
                        Event::Done { result },
                        later,
                        next,
                    ) ==> later == after && next == (Step::Perform {
                        action: Action::Leave { guild_id: guild.id },
                        then: Waiting::Leave,
                    })
            },
        },
{
}

/// What playing comes to, over its two steps: the position that is asked for
/// is that of the playback that goes on, and what is then said is the title of
/// the track that plays and that track's duration less the position, whatever
/// waits behind it.
pub proof fn law_playing_tells_of_the_track_that_plays(
    before: HandlerView,
    author_id: u64,
    guild: Guild,
    after: HandlerView,
    step: Step,
    position: Duration,
    later: HandlerView,
    last: Step,
)
    requires
        before.calls.contains_key(guild.id),
        before.calls[guild.id].now_playing is Some,
        goes_on(
            before,
            Waiting::Guild { author_id, request: Request::Playing },
            Event::Guild { guild },
            after,
            step,
        ),
        step matches Step::Perform { then, .. } ==> goes_on(
            after,
            then,
            Event::Position { position: Ok(position) },
            later,
            last,
        ),
    ensures
        after == before,
        later == before,
        ({
            let playing = before.calls[guild.id].now_playing.unwrap();
            &&& step matches Step::Perform { action: Action::Position { id }, .. } && id
                == playing.h
            &&& match playing.t.metadata.duration {
                None => reports_text(last, "no duration metadata"@),
                Some(duration) => says_text(
                    last,
                    "Playing: "@ + (match playing.t.metadata.title {
                        Some(title) => title@,
                        None => "<no title>"@,
                    }) + "\nLeft: "@ + shown(
                        ((duration@ - position@) as nat) / 1_000_000_000,
                    ),
                ),
            }
        }),
{
}

/// Where nothing plays, playing says so.
pub proof fn law_playing_tells_of_silence(
    before: HandlerView,
    author_id: u64,
    guild: Guild,
    after: HandlerView,
    step: Step,
)
    requires
        goes_on(
            before,
            Waiting::Guild { author_id, request: Request::Playing },
            Event::Guild { guild },
            after,
            step,
        ),
    ensures
        after == before,
        !before.calls.contains_key(guild.id) ==> reports_text(step, "not in any channel"@),
        before.calls.contains_key(guild.id) && before.calls[guild.id].now_playing is None
            ==> reports_text(step, "no song is playing"@),
{
}

/// An answer that is sent, a call that is left and an error that is reported
/// end a command. None of them changes anything.
pub proof fn law_last_actions_end_a_command(
    before: HandlerView,
    waiting: Waiting,
    result: Result<(), String>,
    after: HandlerView,
    step: Step,
)
    requires
        waiting is Sent || waiting is Leave || waiting is Reported,
        goes_on(before, waiting, Event::Done { result }, after, step),
    ensures
        after == before,
        result is Ok || waiting is Reported ==> step is Done,
        !(waiting is Reported) ==> (result matches Err(text) ==> reports_text(step, text@)),
{
}

/// What fails is reported in the words of the failure, and changes nothing.
pub proof fn law_failures_are_reported_as_they_came(
    before: HandlerView,
    waiting: Waiting,
    text: String,
    after: HandlerView,
    step: Step,
)
    ensures
        (waiting is Fetch && goes_on(
            before,
            waiting,
            Event::Fetched { fetched: Err(text) },
            after,
            step,
        )) ==> after == before && reports_text(step, text@),
        (waiting is Start && goes_on(
            before,
            waiting,
            Event::Started { song: Err(text) },
            after,
            step,
        )) ==> after == before && reports_text(step, text@),
        (waiting is Position && goes_on(
            before,
            waiting,
            Event::Position { position: Err(text) },
            after,
            step,
        )) ==> after == before && reports_text(step, text@),
        ((waiting is Join || waiting is Deafen || waiting is Stop || waiting is Leave
            || waiting is Sent) && goes_on(
            before,
            waiting,
            Event::Done { result: Err(text) },
            after,
            step,
        )) ==> after == before && reports_text(step, text@),
{
}

/// The number that a row of digits writes.
pub open spec fn number_written(text: Seq<char>) -> int
    decreases text.len(),
{
    if text.len() == 0 {
        0
    } else {
        10 * number_written(text.drop_last()) + (text.last() as int - '0' as int)
    }
}

/// A text writes a number in decimal: digits, without a zero in front unless
/// it is the only one.
pub open spec fn writes_number(text: Seq<char>, n: nat) -> bool {
    &&& text.len() > 0
    &&& forall|i: int| 0 <= i < text.len() ==> '0' <= #[trigger] text[i] <= '9'
    &&& text.len() > 1 ==> text[0] != '0'
    &&& number_written(text) == n
}

/// Numbers are written in decimal.
pub proof fn law_decimal_writes_the_number(n: nat)
    ensures
        writes_number(decimal(n), n),
    decreases n,
{
    reveal_with_fuel(number_written, 2);
    if n < 10 {
        assert(decimal(n).drop_last() =~= Seq::<char>::empty());
        assert(decimal(n).last() == digit(n));
    } else {
        law_decimal_writes_the_number(n / 10);
        assert(decimal(n).drop_last() =~= decimal(n / 10));
        assert(decimal(n).last() == digit(n % 10));
        assert(decimal(n)[0] == decimal(n / 10)[0]);
        if n / 10 < 10 {
            assert(decimal(n / 10)[0] == digit(n / 10));
        }
    }
}

/// A text shows so many seconds as hours, minutes and seconds that add up to
/// them, with fewer than sixty minutes, and with one to sixty seconds unless
/// there are none at all.
pub open spec fn shows_seconds(text: Seq<char>, secs: nat) -> bool {
    exists|h: nat, m: nat, s: nat|
        {
            &&& secs == 3600 * h + 60 * m + s
            &&& m < 60
            &&& s <= 60
            &&& secs > 0 ==> s >= 1
            &&& text == #[trigger] decimal(h) + "h"@ + #[trigger] decimal(m) + "m"@
                + #[trigger] decimal(s) + "s"@
        }
}

/// A span is shown as hours, minutes and seconds that add up to it.
pub proof fn law_format_duration_shows_the_seconds(d: Duration, text: String)
    requires
        call_ensures(format_duration, (&d,), text),
    ensures
        shows_seconds(text@, d@ / 1_000_000_000),
{
    law_shown_is_the_text_of_the_seconds(text@, d@ / 1_000_000_000);
}

/// The text of so many seconds is `shown` of them, and there is no other.
pub proof fn law_shown_is_the_text_of_the_seconds(text: Seq<char>, secs: nat)
    ensures
        shows_seconds(text, secs) <==> text == shown(secs),
{
    let h = hours_shown(secs);
    let m = minutes_shown(secs);
    let s = seconds_shown(secs);
    law_shown_parts_add_up(secs);
    assert(shown(secs) == decimal(h) + "h"@ + decimal(m) + "m"@ + decimal(s) + "s"@);
    if shows_seconds(text, secs) {
        let (h2, m2, s2) = choose|h: nat, m: nat, s: nat|
            {
                &&& secs == 3600 * h + 60 * m + s
                &&& m < 60
                &&& s <= 60
                &&& secs > 0 ==> s >= 1
                &&& text == #[trigger] decimal(h) + "h"@ + #[trigger] decimal(m) + "m"@
                    + #[trigger] decimal(s) + "s"@
            };
        parts_are_unique(secs, h2 as int, m2 as int, s2 as int);
    }
}

/// A span can be shown if its whole hours, with one second to spare, can be
/// counted in 32 bits with a sign. That is also all that is asked of it.
pub proof fn law_spans_up_to_the_limit_can_be_shown(d: Duration, can: bool)
    ensures
        showable(d@ / 1_000_000_000) <==> d@ / 1_000_000_000 <= 3600 * 0x8000_0000,
        call_ensures(can_show, (&d,), can) ==> (can <==> d@ / 1_000_000_000 <= 3600 * 0x8000_0000),
        d@ / 1_000_000_000 <= 3600 * 0x8000_0000 ==> call_requires(format_duration, (&d,)),
{
}

/// To take one span from another leaves what makes up the difference.
pub proof fn law_spans_subtract(a: Duration, b: Duration, left: Duration, shorter: bool)
    ensures
        call_ensures(Duration::minus, (&a, &b), left) && b@ <= a@ ==> left@ + b@ == a@,
        call_ensures(Duration::shorter_than, (&a, &b), shorter) ==> (shorter <==> a@ < b@),
        b@ <= a@ ==> call_requires(Duration::minus, (&a, &b)),
{
}

/// A span is made of its seconds and nanoseconds.
pub proof fn law_spans_are_seconds_and_nanoseconds(secs: u64, nanos: u32, d: Duration, whole: u64)
    requires
        nanos < 1_000_000_000,
        call_ensures(Duration::new, (secs, nanos), d),
    ensures
        d@ == secs * 1_000_000_000 + nanos,
        call_ensures(Duration::as_secs, (&d,), whole) ==> whole == secs,
{
}

/// What is shown of a track is its own title, artist and duration, or a
/// stand-in for each that it lacks.
pub proof fn law_tracks_show_what_they_hold(track: Track, text: String)
    ensures
        call_ensures(Track::name, (&track,), text) ==> text@ == (match track.metadata.title {
            Some(title) => title@,
            None => "<no title>"@,
        }),
        call_ensures(Track::artist, (&track,), text) ==> text@ == (match track.metadata.artist {
            Some(artist) => artist@,
            None => "<no artist>"@,
        }),
        call_ensures(Track::duration, (&track,), text) ==> match track.metadata.duration {
            Some(d) => shows_seconds(text@, d@ / 1_000_000_000),
            None => text@ == "<no duration>"@,
        },
{
    if let Some(d) = track.metadata.duration {
        law_shown_is_the_text_of_the_seconds(text@, d@ / 1_000_000_000);
    }
}

/// A track is made of the link it was fetched from and the metadata that came.
pub proof fn law_tracks_are_made_of_what_was_fetched(
    url: String,
    fetched: Result<Metadata, String>,
    res: Result<Track, String>,
)
    requires
        call_ensures(Track::from_url, (&url, fetched), res),
    ensures
        res is Ok <==> fetched is Ok,
        fetched matches Ok(metadata) ==> (res matches Ok(track) && track.url == url
            && track.metadata == metadata),
        fetched matches Err(text) ==> (res matches Err(e) && e == text),
{
}

/// The end of a song is told of an event about a single track that has ended,
/// and of no other.
pub proof fn law_song_ended_names_the_one_that_ended(
    tracks: Vec<(PlayMode, u128)>,
    ended: Option<u128>,
)
    requires
        call_ensures(song_ended, (&EventContext::Track { tracks },), ended),
    ensures
        ended is Some <==> tracks@.len() == 1 && tracks@[0].0 is End,
        ended matches Some(id) ==> id == tracks@[0].1,
{
}

/// Other events are not about songs that ended.
pub proof fn law_other_events_end_no_song(ended: Option<u128>)
    requires
        call_ensures(song_ended, (&EventContext::Other,), ended),
    ensures
        ended is None,
{
}

/// What is said of an error, for every channel and every failure.
pub proof fn law_errors_say_what_happened(error: Error, text: String)
    ensures
        call_ensures(report_error, (&error,), text) ==> exists|message: Seq<char>|
            text@ == "err: "@ + message && #[trigger] is_message(error, message),
        call_ensures(Error::message, (&error,), text) ==> is_message(error, text@),
{
    assert(is_message(error, error.spec_message()));
}

/// The message of an error.
pub open spec fn is_message(error: Error, message: Seq<char>) -> bool {
    match error {
        Error::NotInAVoiceChannel => message == "not in a voice channel"@,
        Error::AlreadyInAnotherChannel { channel_id } => message == "already in another channel: "@
            + decimal(channel_id as nat),
        Error::NotInAnyChannel => message == "not in any channel"@,
        Error::NotInAnyVoiceChannel => message == "not in any voice channel"@,
        Error::NoSongsPlaying => message == "No songs playing"@,
        Error::NoSongIsPlaying => message == "no song is playing"@,
        Error::NoDurationMetadata => message == "no duration metadata"@,
        Error::Help => message
            == "```Help\n\tplay <url> - Play a url that youtube-dl supports\n\tskip - Skip\n\tqueue - Show the queueueue\n\tdisconnect\n\tplaying - Info about the playing song```"@,
        Error::Failed { text } => message == text@,
    }
}

/// The call of a guild is the one that is kept for it, and a channel is come
/// by as that call says.
pub proof fn law_calls_are_found_by_guild_and_channel(
    handler: Handler,
    guild_id: u64,
    channel_id: u64,
    call: Option<&CallQueue>,
    res: Result<Reach, Error>,
)
    ensures
        call_ensures(Handler::get_call_by_guild_id, (&handler, guild_id), call) ==> {
            &&& call is Some <==> handler@.calls.contains_key(guild_id)
            &&& call matches Some(c) ==> {
                &&& c.q@ == handler@.calls[guild_id].q
                &&& c.now_playing == handler@.calls[guild_id].now_playing
                &&& c.guild_id == handler@.calls[guild_id].guild_id
                &&& c.channel_id == handler@.calls[guild_id].channel_id
            }
        },
        call_ensures(Handler::get_call_by_channel_id, (&handler, guild_id, channel_id), res) ==> {
            &&& res == Ok::<Reach, Error>(Reach::ToJoin) <==> !handler@.calls.contains_key(guild_id)
            &&& res == Ok::<Reach, Error>(Reach::Joined) <==> handler@.calls.contains_key(guild_id)
                && handler@.calls[guild_id].channel_id == channel_id
            &&& res is Err ==> res == Err::<Reach, Error>(
                Error::AlreadyInAnotherChannel { channel_id },
            )
        },
{
}

/// A member is in the channel that the member's voice state names.
pub proof fn law_members_are_where_they_are_heard(
    guild: Guild,
    user_id: u64,
    channel_id: Option<u64>,
)
    requires
        call_ensures(Guild::voice_channel, (&guild, user_id), channel_id),
    ensures
        guild.voice_states@.contains_key(user_id) ==> channel_id
            == guild.voice_states@[user_id].channel_id,
        !guild.voice_states@.contains_key(user_id) ==> channel_id is None,
{
}

/// A new bot has no calls and knows of no playbacks.
pub proof fn law_new_bots_have_no_calls(handler: Handler, guild_id: u64, id: u128)
    requires
        call_ensures(Handler::new, (), handler),
    ensures
        !handler@.calls.contains_key(guild_id),
        !handler@.track_calls.contains_key(id),
{
}

/// The white space that Unicode knows, by code point.
pub proof fn law_white_space_is_what_unicode_says(c: char)
    ensures
        white_space(c) <==> ({
            let n = c as u32;
            ||| n == 9 || n == 10 || n == 11 || n == 12 || n == 13 || n == 32 || n == 133 || n == 160
            ||| n == 5760 || n == 8232 || n == 8233 || n == 8239 || n == 8287 || n == 12288
            ||| 8192 <= n <= 8202
        }),
{
}

/// All of a text is white space.
pub open spec fn all_white(text: Seq<char>) -> bool {
    forall|i: int| 0 <= i < text.len() ==> white_space(#[trigger] text[i])
}

/// A text neither starts nor ends with white space.
pub open spec fn has_no_white_ends(text: Seq<char>) -> bool {
    text.len() > 0 ==> !white_space(text.first()) && !white_space(text.last())
}

/// Whatever white space stands around a text, trimming gives the text.
pub proof fn law_trimming_takes_off_white_space(
    front: Seq<char>,
    inner: Seq<char>,
    back: Seq<char>,
)
    requires
        all_white(front),
        all_white(back),
        has_no_white_ends(inner),
    ensures
        trimmed(front + inner + back) == inner,
    decreases front.len() + back.len(),
{
    let text = front + inner + back;
    if front.len() > 0 {
        assert(text.first() == front[0]);
        assert(text.drop_first() =~= front.drop_first() + inner + back);
        law_trimming_takes_off_white_space(front.drop_first(), inner, back);
    } else if back.len() > 0 {
        if inner.len() > 0 {
            assert(text.first() == inner.first());
            assert(text.last() == back.last());
            assert(back.last() == back[back.len() - 1]);
            assert(text.drop_last() =~= front + inner + back.drop_last());
            law_trimming_takes_off_white_space(front, inner, back.drop_last());
        } else {
            assert(text.first() == back[0]);
            assert(text.drop_first() =~= front + inner + back.drop_first());
            law_trimming_takes_off_white_space(front, inner, back.drop_first());
        }
    } else {
        assert(text =~= inner);
    }
}

proof fn longer_front(c: char, front: Seq<char>, inner: Seq<char>, back: Seq<char>)
    ensures
        seq![c] + (front + inner + back) == (seq![c] + front) + inner + back,
{
    assert(seq![c] + (front + inner + back) =~= (seq![c] + front) + inner + back);
}

proof fn longer_back(c: char, front: Seq<char>, inner: Seq<char>, back: Seq<char>)
    ensures
        (front + inner + back).push(c) == front + inner + back.push(c),
{
    assert((front + inner + back).push(c) =~= front + inner + back.push(c));
}

/// Every text is white space around its trimmed self.
#[verifier::spinoff_prover]
pub proof fn law_texts_are_trimmed_between_white_space(text: Seq<char>) -> (ends: (
    Seq<char>,
    Seq<char>,
))
    ensures
        all_white(ends.0),
        all_white(ends.1),
        has_no_white_ends(trimmed(text)),
        text == ends.0 + trimmed(text) + ends.1,
    decreases text.len(),
{
    if text.len() > 0 && white_space(text.first()) {
        let (front, back) = law_texts_are_trimmed_between_white_space(text.drop_first());
        let longer = seq![text.first()] + front;
        assert(text =~= seq![text.first()] + text.drop_first());
        longer_front(text.first(), front, trimmed(text), back);
        assert forall|i: int| 0 <= i < longer.len() implies white_space(#[trigger] longer[i]) by {
            if i > 0 {
                assert(longer[i] == front[i - 1]);
            }
        }
        (longer, back)
    } else if text.len() > 0 && white_space(text.last()) {
        let (front, back) = law_texts_are_trimmed_between_white_space(text.drop_last());
        assert(text =~= text.drop_last().push(text.last()));
        longer_back(text.last(), front, trimmed(text), back);
        (front, back.push(text.last()))
    } else {
        assert(text =~= Seq::<char>::empty() + text + Seq::<char>::empty());
        (Seq::empty(), Seq::empty())
    }
}

/// The function `trim` takes off just the white space at the two ends.
pub proof fn law_trim_trims(text: &str, inner: &str, front: Seq<char>, middle: Seq<char>, back: Seq<char>)
    requires
        call_ensures(trim, (text,), inner),
        text@ == front + middle + back,
        all_white(front),
        all_white(back),
        has_no_white_ends(middle),
    ensures
        inner@ == middle,
{
    law_trimming_takes_off_white_space(front, middle, back);
}

/// A message that asks to play a link, whatever white space stands around the
/// link: it is answered with the link in quotes if it is no URL, and else the
/// author's guild is looked up, to play the URL that was read.
pub proof fn law_play_messages_ask_for_their_link(
    content: &str,
    author_id: u64,
    step: Step,
    front: Seq<char>,
    link: Seq<char>,
    back: Seq<char>,
)
    requires
        call_ensures(Handler::message, (content, author_id), step),
        content@ == "\"play "@ + front + link + back,
        all_white(front),
        all_white(back),
        has_no_white_ends(link),
    ensures
        match url_read(link) {
            None => replies_text(step, "unable to parse URL "@ + quoted(link)),
            Some(url) => step matches Step::Perform {
                action: Action::FindGuild,
                then: Waiting::Guild {
                    author_id: author,
                    request: Request::InCall { errand: Errand::Play { url: asked } },
                },
            } && author == author_id && asked@ == url,
        },
{
    reveal_strlit("\"play ");
    reveal_strlit("play ");
    let rest = content@.skip(1);
    assert(content@[0] == '"');
    assert(rest =~= "play "@ + (front + link + back));
    assert("play "@ =~= rest.subrange(0, 5));
    assert(rest.skip(5) =~= front + link + back);
    law_trimming_takes_off_white_space(front, link, back);
    assert(command_in(content@) == Some(CommandView::Play { link }));
}

/// What the other commands lead to, whoever sends them.
pub proof fn law_other_commands_are_exact(content: &str, author_id: u64, step: Step)
    requires
        call_ensures(Handler::message, (content, author_id), step),
    ensures
        content@ == "\"skip"@ ==> step == (Step::Perform {
            action: Action::FindGuild,
            then: Waiting::Guild {
                author_id,
                request: Request::InCall { errand: Errand::Skip },
            },
        }),
        content@ == "\"queue"@ ==> step == (Step::Perform {
            action: Action::FindGuild,
            then: Waiting::Guild { author_id, request: Request::Queue },
        }),
        content@ == "\"disconnect"@ ==> step == (Step::Perform {
            action: Action::FindGuild,
            then: Waiting::Guild { author_id, request: Request::Disconnect },
        }),
        content@ == "\"playing"@ ==> step == (Step::Perform {
            action: Action::FindGuild,
            then: Waiting::Guild { author_id, request: Request::Playing },
        }),
        content@ == "\"help"@ ==> reports_text(
            step,
            "```Help\n\tplay <url> - Play a url that youtube-dl supports\n\tskip - Skip\n\tqueue - Show the queueueue\n\tdisconnect\n\tplaying - Info about the playing song```"@,
        ),
        !"\"play "@.is_prefix_of(content@) && content@ != "\"skip"@ && content@ != "\"queue"@
            && content@ != "\"disconnect"@ && content@ != "\"playing"@ && content@ != "\"help"@
            ==> step is Done,
{
    reveal_strlit("\"play ");
    reveal_strlit("play ");
    reveal_strlit("\"skip");
    reveal_strlit("skip");
    reveal_strlit("\"queue");
    reveal_strlit("queue");
    reveal_strlit("\"disconnect");
    reveal_strlit("disconnect");
    reveal_strlit("\"playing");
    reveal_strlit("playing");
    reveal_strlit("\"help");
    reveal_strlit("help");
    let rest = content@.skip(1);
    let mark = seq!['"'];
    assert("\"skip"@ =~= mark + "skip"@);
    assert("\"queue"@ =~= mark + "queue"@);
    assert("\"disconnect"@ =~= mark + "disconnect"@);
    assert("\"playing"@ =~= mark + "playing"@);
    assert("\"help"@ =~= mark + "help"@);
    assert("play "@[0] == 'p' && "play "@[4] == ' ' && "skip"@[0] == 's');
    if content@ == "\"skip"@ {
        assert(rest =~= "skip"@);
    } else if content@ == "\"queue"@ {
        assert(rest =~= "queue"@);
        assert(rest.subrange(0, 5)[0] == 'q');
    } else if content@ == "\"disconnect"@ {
        assert(rest =~= "disconnect"@);
        assert(rest.subrange(0, 5)[0] == 'd');
    } else if content@ == "\"playing"@ {
        assert(rest =~= "playing"@);
        assert(rest.subrange(0, 5)[4] == 'i');
    } else if content@ == "\"help"@ {
        assert(rest =~= "help"@);
        assert(rest[0] == 'h');
    } else if content@.len() > 0 && content@[0] == '"' {
        assert(content@ =~= mark + rest);
        if "play "@.is_prefix_of(rest) {
            assert forall|i: int| 0 <= i < 6 implies content@[i] == "\"play "@[i] by {
                if i > 0 {
                    assert("play "@[i - 1] == rest.subrange(0, 5)[i - 1]);
                }
            }
            assert("\"play "@ =~= content@.subrange(0, 6));
        }
    }
}

/// A URL is read as the URL reader reads it.
pub proof fn law_links_are_read_as_urls(text: &str, res: Result<String, BadUrl>)
    requires
        call_ensures(parse_url, (text,), res),
    ensures
        res is Ok <==> url_read(text@) is Some,
        res matches Ok(url) ==> url_read(text@) == Some(url@),
{
}

/// The command in a message, if it asks to play something, has the link that
/// was written, without the white space around it.
pub proof fn law_play_commands_hold_their_link(
    content: &str,
    command: Option<Command>,
    front: Seq<char>,
    link: Seq<char>,
    back: Seq<char>,
)
    requires
        call_ensures(parse_command, (content,), command),
        content@ == "\"play "@ + front + link + back,
        all_white(front),
        all_white(back),
        has_no_white_ends(link),
    ensures
        command matches Some(Command::Play { link: found }) && found@ == link,
{
    reveal_strlit("\"play ");
    reveal_strlit("play ");
    let rest = content@.skip(1);
    assert(content@[0] == '"');
    assert(rest =~= "play "@ + (front + link + back));
    assert("play "@ =~= rest.subrange(0, 5));
    assert(rest.skip(5) =~= front + link + back);
    law_trimming_takes_off_white_space(front, link, back);
    assert(command_in(content@) == Some(CommandView::Play { link }));
}

/// A table has a row for each track of a queue, and in the row of a track
/// stand its place, counted from zero, its title, its artist and its duration.
pub open spec fn is_table_of(table: Seq<Seq<Seq<char>>>, q: Seq<Track>) -> bool {
    &&& table.len() == q.len()
    &&& forall|i: int|
        0 <= i < q.len() ==> {
            &&& (#[trigger] table[i]).len() == 4
            &&& table[i][0] == decimal(i as nat)
            &&& table[i][1] == (match q[i].metadata.title {
                Some(title) => title@,
                None => "<no title>"@,
            })
            &&& table[i][2] == (match q[i].metadata.artist {
                Some(artist) => artist@,
                None => "<no artist>"@,
            })
            &&& table[i][3] == (match q[i].metadata.duration {
                Some(d) => shown(d@ / 1_000_000_000),
                None => "<no duration>"@,
            })
        }
}

/// The table of a queue has a row for each of its tracks, and it is the only
/// such table.
pub proof fn law_queue_table_has_a_row_for_each_track(table: Seq<Seq<Seq<char>>>, q: Seq<Track>)
    ensures
        is_table_of(table, q) <==> table == queue_cells(q),
{
    assert(is_table_of(queue_cells(q), q));
    if is_table_of(table, q) {
        assert forall|i: int| 0 <= i < q.len() implies table[i] == queue_cells(q)[i] by {
            assert(table[i] =~= queue_cells(q)[i]);
        }
        assert(table =~= queue_cells(q));
    }
}

/// To list the queue of a guild says the table with a row for each of its
/// tracks, as it is drawn, in a block of its own.
pub proof fn law_queue_lists_every_track(
    before: HandlerView,
    author_id: u64,
    guild: Guild,
    after: HandlerView,
    step: Step,
    table: Seq<Seq<Seq<char>>>,
)
    requires
        goes_on(
            before,
            Waiting::Guild { author_id, request: Request::Queue },
            Event::Guild { guild },
            after,
            step,
        ),
    ensures
        after == before,
        !before.calls.contains_key(guild.id) ==> reports_text(step, "not in any channel"@),
        before.calls.contains_key(guild.id) && before.calls[guild.id].q.len() == 0 ==> reports_text(
            step,
            "No songs playing"@,
        ),
        before.calls.contains_key(guild.id) && before.calls[guild.id].q.len() > 0 && is_table_of(
            table,
            before.calls[guild.id].q,
        ) ==> match drawn(table) {
            Ok(text) => says_text(step, "```\n"@ + text + "\n```"@),
            Err(text) => reports_text(step, text),
        },
{
    if before.calls.contains_key(guild.id) {
        law_queue_table_has_a_row_for_each_track(table, before.calls[guild.id].q);
    }
}

/// The function `list_queue` lists every track too.
pub proof fn law_list_queue_lists_every_track(
    q: VecDeque<Track>,
    res: Result<String, Error>,
    table: Seq<Seq<Seq<char>>>,
)
    requires
        call_ensures(list_queue, (&q,), res),
        is_table_of(table, q@),
    ensures
        q@.len() == 0 ==> res == Err::<String, Error>(Error::NoSongsPlaying),
        q@.len() > 0 ==> match drawn(table) {
            Ok(text) => res matches Ok(said) && said@ == "```\n"@ + text + "\n```"@,
            Err(text) => res matches Err(Error::Failed { text: said }) && said@ == text,
        },
{
    law_queue_table_has_a_row_for_each_track(table, q@);
}

/// A drawn table is said as it is, in a block of its own.
pub proof fn law_tables_are_set_in_blocks(table: Result<String, String>, res: Result<String, Error>)
    requires
        call_ensures(list_table, (table,), res),
    ensures
        match table {
            Ok(text) => res matches Ok(said) && said@ == "```\n"@ + text@ + "\n```"@,
            Err(text) => res matches Err(Error::Failed { text: said }) && said@ == text@,
        },
{
}

/// The cells that are drawn are those of the rows, each in its place.
pub proof fn law_cells_are_those_of_the_rows(rows: Seq<Vec<String>>, r: int, c: int)
    requires
        0 <= r < rows.len(),
        0 <= c < rows[r]@.len(),
    ensures
        cells(rows).len() == rows.len(),
        cells(rows)[r].len() == rows[r]@.len(),
        cells(rows)[r][c] == rows[r]@[c]@,
{
}

/// The durations in a queue are within the limit of what can be shown.
pub open spec fn durations_within_limit(q: Seq<Track>) -> bool {
    forall|i: int|
        0 <= i < q.len() ==> ((#[trigger] q[i]).metadata.duration matches Some(d) ==> d@
            / 1_000_000_000 <= 3600 * 0x8000_0000)
}

/// A queue can be listed if its durations can be shown and the table with a
/// row for each of its tracks can be drawn, and that is all that is asked.
pub proof fn law_queues_can_be_listed_if_drawn(
    q: VecDeque<Track>,
    can: bool,
    table: Seq<Seq<Seq<char>>>,
)
    requires
        is_table_of(table, q@),
    ensures
        listable(q@) <==> durations_within_limit(q@) && (q@.len() > 0 ==> drawable(table)),
        call_ensures(can_list, (&q,), can) ==> (can <==> durations_within_limit(q@)
            && (q@.len() > 0 ==> drawable(table))),
        durations_within_limit(q@) && (q@.len() > 0 ==> drawable(table)) ==> call_requires(
            list_queue,
            (&q,),
        ),
{
    law_queue_table_has_a_row_for_each_track(table, q@);
    assert(durations_within_limit(q@) <==> durations_showable(q@)) by {
        if durations_within_limit(q@) {
            assert forall|i: int| 0 <= i < q@.len() implies (
            #[trigger] q@[i]).has_showable_duration() by {
                assert(q@[i].metadata.duration matches Some(d) ==> showable(d@ / 1_000_000_000));
            }
        }
        if durations_showable(q@) {
            assert forall|i: int| 0 <= i < q@.len() implies ((
            #[trigger] q@[i]).metadata.duration matches Some(d) ==> d@ / 1_000_000_000 <= 3600
                * 0x8000_0000) by {
                assert(q@[i].has_showable_duration());
            }
        }
    }
}

/// A command is taken on whenever what came is what was waited for and the
/// call it goes on in is there, or is not there where it was to be joined. Two
/// commands ask for more: a queue must be listable, and a position may not be
/// beyond the end of its track.
pub proof fn law_commands_go_on_where_they_can(
    handler: Handler,
    waiting: Waiting,
    event: Event,
    accepts: bool,
)
    requires
        call_ensures(Handler::accepts, (&handler, &waiting, &event), accepts),
    ensures
        match (waiting, event) {
            (Waiting::Guild { request, .. }, Event::Guild { guild }) => if request is Queue
                && handler@.calls.contains_key(guild.id) {
                accepts == listable(handler@.calls[guild.id].q)
            } else {
                accepts
            },
            (Waiting::Join { guild_id, .. }, Event::Done { .. }) => accepts
                == !handler@.calls.contains_key(guild_id),
            (Waiting::Deafen { guild_id, .. }, Event::Done { .. }) => accepts
                == !handler@.calls.contains_key(guild_id),
            (Waiting::Fetch { guild_id, .. }, Event::Fetched { .. }) => accepts
                == handler@.calls.contains_key(guild_id),
            (Waiting::Start { guild_id, .. }, Event::Started { .. }) => accepts
                == handler@.calls.contains_key(guild_id),
            (Waiting::Stop { guild_id }, Event::Done { .. }) => accepts
                == handler@.calls.contains_key(guild_id),
            (Waiting::Position { track }, Event::Position { position }) => match (
                track.metadata.duration,
                position,
            ) {
                (Some(d), Ok(p)) => accepts == (p@ <= d@ && ((d@ - p@) as nat) / 1_000_000_000
                    <= 3600 * 0x8000_0000),
                _ => accepts,
            },
            (Waiting::Halt { .. }, Event::Done { .. }) => accepts,
            (Waiting::Leave, Event::Done { .. }) => accepts,
            (Waiting::Sent, Event::Done { .. }) => accepts,
            (Waiting::Reported, Event::Done { .. }) => accepts,
            _ => !accepts,
        },
        accepts ==> forall|same: &mut Handler|
            (*same)@ == handler@ ==> #[trigger] call_requires(
                Handler::resume,
                (same, waiting, event),
            ),
{
}

/// The width of a column is that of its widest cell.
pub proof fn law_columns_are_as_wide_as_their_widest_cell(
    rows: Seq<Seq<Seq<char>>>,
    column: int,
    count: nat,
)
    requires
        0 <= column,
        count <= rows.len(),
    ensures
        forall|r: int|
            0 <= r < count && column < (#[trigger] rows[r]).len() ==> rows[r][column].len()
                <= column_width(rows, column, count),
        column_width(rows, column, count) > 0 ==> exists|r: int|
            0 <= r < count && column < (#[trigger] rows[r]).len() && rows[r][column].len()
                == column_width(rows, column, count),
    decreases count,
{
    if count > 0 {
        law_columns_are_as_wide_as_their_widest_cell(rows, column, (count - 1) as nat);
        let row = rows[count - 1];
        let above = column_width(rows, column, (count - 1) as nat);
        if column < row.len() && row[column].len() > above {
            assert(rows[count - 1][column].len() == column_width(rows, column, count));
        } else if above > 0 {
            let r = choose|r: int|
                0 <= r < count - 1 && column < (#[trigger] rows[r]).len() && rows[r][column].len()
                    == above;
            assert(rows[r][column].len() == column_width(rows, column, count));
        }
    }
}

/// A cell lies over a place of its line.
pub open spec fn covers(row: Seq<Seq<char>>, widths: Seq<nat>, column: int, place: int) -> bool {
    column_start(widths, column) <= place < column_start(widths, column) + encode_utf8(
        row[column],
    ).len()
}

/// In each place of a line stands a byte of the last cell that lies over it.
pub proof fn law_the_last_cell_is_on_top(
    row: Seq<Seq<char>>,
    widths: Seq<nat>,
    count: nat,
    place: int,
    column: int,
)
    requires
        0 <= column < count,
        covers(row, widths, column, place),
        forall|later: int|
            column < later < count ==> !#[trigger] covers(row, widths, later, place),
    ensures
        laid_byte(row, widths, count, place) == encode_utf8(row[column])[place - column_start(
            widths,
            column,
        )],
    decreases count,
{
    if column < count - 1 {
        assert(!covers(row, widths, count - 1, place));
        law_the_last_cell_is_on_top(row, widths, (count - 1) as nat, place, column);
    }
}

/// Where no cell lies, a line is blank.
pub proof fn law_lines_are_blank_where_no_cell_lies(
    row: Seq<Seq<char>>,
    widths: Seq<nat>,
    count: nat,
    place: int,
)
    requires
        forall|column: int|
            0 <= column < count ==> !#[trigger] covers(row, widths, column, place),
    ensures
        laid_byte(row, widths, count, place) == 0x20,
    decreases count,
{
    if count > 0 {
        assert(!covers(row, widths, count - 1, place));
        law_lines_are_blank_where_no_cell_lies(row, widths, (count - 1) as nat, place);
    }
}

/// Columns follow each other with a bar of three bytes in between.
pub proof fn law_columns_follow_each_other(widths: Seq<nat>, column: int, later: int)
    requires
        0 <= column < later,
    ensures
        column_start(widths, 0) == 0,
        later == column + 1 ==> column_start(widths, later) == column_start(widths, column)
            + widths[column] + 3,
        column_start(widths, column) + widths[column] + 3 <= column_start(widths, later),
    decreases later - column,
{
    if column < later - 1 {
        law_columns_follow_each_other(widths, column, later - 1);
    }
}

proof fn starts_are_bounded(rows: Seq<Seq<Seq<char>>>, longest: nat, column: int)
    requires
        rows.len() > 0,
        0 <= column <= rows[0].len(),
        forall|r: int, c: int|
            0 <= r < rows.len() && 0 <= c < rows[r].len() ==> (#[trigger] rows[r][c]).len()
                <= longest,
    ensures
        column_start(widths(rows), column) <= column * longest + 3 * column,
    decreases column,
{
    if column > 0 {
        starts_are_bounded(rows, longest, column - 1);
        law_columns_are_as_wide_as_their_widest_cell(rows, column - 1, rows.len());
        assert(column_width(rows, column - 1, rows.len()) <= longest);
        assert(column * longest == (column - 1) * longest + longest) by (nonlinear_arith);
    } else {
        assert(column * longest == 0) by (nonlinear_arith)
            requires
                column == 0,
        ;
    }
}

proof fn spaces_are_utf8(count: nat) -> (bytes: Seq<u8>)
    ensures
        bytes == Seq::new(count, |i: int| 0x20u8),
        valid_utf8(bytes),
{
    let bytes = Seq::new(count, |i: int| 0x20u8);
    let chars = Seq::new(count, |i: int| ' ');
    is_ascii_chars_encode_utf8(chars);
    assert forall|i: int| 0 <= i < count implies encode_utf8(chars)[i] == bytes[i] by {
        assert(chars[i] as u8 == 0x20u8);
    }
    assert(encode_utf8(chars) =~= bytes);
    encode_utf8_valid_utf8(chars);
    bytes
}

/// A cell that fits its column, in a row whose other cells fit theirs, stands
/// in its column whole, with blanks behind it.
#[verifier::spinoff_prover]
pub proof fn law_fitting_cells_are_laid_whole(row: Seq<Seq<char>>, widths: Seq<nat>, column: int)
    requires
        0 <= column < row.len(),
        forall|c: int| 0 <= c < row.len() ==> encode_utf8(#[trigger] row[c]).len() <= widths[c],
    ensures
        laid_column(row, widths, column) == encode_utf8(row[column]) + Seq::new(
            (widths[column] - encode_utf8(row[column]).len()) as nat,
            |i: int| 0x20u8,
        ),
{
    let bytes = encode_utf8(row[column]);
    let spaces = Seq::new((widths[column] - bytes.len()) as nat, |i: int| 0x20u8);
    let laid = laid_column(row, widths, column);
    assert forall|k: int| 0 <= k < widths[column] implies #[trigger] laid[k] == (bytes
        + spaces)[k] by {
        let place = column_start(widths, column) + k;
        assert forall|other: int| 0 <= other < row.len() && other != column implies !#[trigger] covers(
            row,
            widths,
            other,
            place,
        ) by {
            assert(encode_utf8(row[other]).len() <= widths[other]);
            if other < column {
                law_columns_follow_each_other(widths, other, column);
            } else {
                law_columns_follow_each_other(widths, column, other);
            }
        }
        if k < bytes.len() {
            assert(covers(row, widths, column, place));
            law_the_last_cell_is_on_top(row, widths, row.len(), place, column);
        } else {
            assert(!covers(row, widths, column, place));
            law_lines_are_blank_where_no_cell_lies(row, widths, row.len(), place);
        }
    }
    assert(laid =~= bytes + spaces);
}

/// A table can be drawn if each cell, in bytes, is no longer than the widest
/// cell of its column is in characters, no row is longer than the first, and
/// there is room for as many lines of as many longest cells.
#[verifier::spinoff_prover]
pub proof fn law_fitting_tables_can_be_drawn(rows: Seq<Seq<Seq<char>>>, longest: nat)
    requires
        rows.len() > 0,
        rows[0].len() > 0,
        forall|r: int| 0 <= r < rows.len() ==> (#[trigger] rows[r]).len() <= rows[0].len(),
        forall|r: int, c: int|
            0 <= r < rows.len() && 0 <= c < rows[r].len() ==> (#[trigger] rows[r][c]).len()
                <= longest,
        4 * ((rows[0].len() * longest + rows[0].len() + 1) * (2 * rows.len() + 1) + 2 * rows.len())
            <= isize::MAX,
        forall|r: int, c: int|
            0 <= r < rows.len() && 0 <= c < rows[r].len() ==> exists|widest: int|
                0 <= widest < rows.len() && c < rows[widest].len() && encode_utf8(
                    #[trigger] rows[r][c],
                ).len() <= (#[trigger] rows[widest][c]).len(),
    ensures
        drawable(rows),
{
    let w = widths(rows);
    let n = rows[0].len();
    starts_are_bounded(rows, longest, n as int);
    let line = column_start(w, n as int) - 2 * n + 1;
    let most = n * longest + n + 1;
    let lines = 2 * rows.len() + 1;
    assert(line * lines <= most * lines) by (nonlinear_arith)
        requires
            line <= most,
            lines >= 0,
    ;
    assert(counted_size(rows) == line * lines + 2 * rows.len());
    assert forall|r: int, c: int| 0 <= r < rows.len() && 0 <= c < rows[r].len() implies valid_utf8(
        #[trigger] laid_column(rows[r], w, c),
    ) by {
        let row = rows[r];
        assert forall|c2: int| 0 <= c2 < row.len() implies encode_utf8(#[trigger] row[c2]).len()
            <= w[c2] by {
            law_columns_are_as_wide_as_their_widest_cell(rows, c2, rows.len());
            assert(rows[r][c2] == row[c2]);
            let widest = choose|widest: int|
                0 <= widest < rows.len() && c2 < rows[widest].len() && encode_utf8(
                    rows[r][c2],
                ).len() <= (#[trigger] rows[widest][c2]).len();
            assert(rows[widest][c2].len() <= column_width(rows, c2, rows.len()));
        }
        let bytes = encode_utf8(row[c]);
        let spaces = spaces_are_utf8((w[c] - bytes.len()) as nat);
        law_fitting_cells_are_laid_whole(row, w, c);
        encode_utf8_valid_utf8(row[c]);
        valid_utf8_concat(bytes, spaces);
    }
}

/// A table that can be drawn cuts no character at the end of a column.
pub proof fn law_drawn_tables_cut_no_character(
    rows: Seq<Seq<Seq<char>>>,
    r: int,
    c: int,
    width: nat,
)
    requires
        drawable(rows),
        0 <= r < rows.len(),
        0 <= c < rows[r].len(),
        forall|other: int|
            0 <= other < rows.len() && c < (#[trigger] rows[other]).len() ==> rows[other][c].len()
                <= width,
        exists|other: int|
            0 <= other < rows.len() && c < (#[trigger] rows[other]).len() && rows[other][c].len()
                == width,
        encode_utf8(rows[r][c]).len() >= width,
    ensures
        valid_utf8(encode_utf8(rows[r][c]).take(width as int)),
{
    let w = widths(rows);
    let row = rows[r];
    law_columns_are_as_wide_as_their_widest_cell(rows, c, rows.len());
    let widest = choose|other: int|
        0 <= other < rows.len() && c < (#[trigger] rows[other]).len() && rows[other][c].len()
            == width;
    assert(rows[widest][c].len() <= column_width(rows, c, rows.len()));
    assert(rows[r].len() <= rows[0].len());
    assert(w[c] == width);
    let bytes = encode_utf8(row[c]);
    let start = column_start(w, c);
    assert forall|k: int| 0 <= k < width implies #[trigger] laid_column(row, w, c)[k]
        == bytes.take(width as int)[k] by {
        let place = start + k;
        assert(covers(row, w, c, place));
        assert forall|later: int| c < later < row.len() implies !#[trigger] covers(
            row,
            w,
            later,
            place,
        ) by {
            law_columns_follow_each_other(w, c, later);
        }
        law_the_last_cell_is_on_top(row, w, row.len(), place, c);
    }
    assert(laid_column(row, w, c) =~= bytes.take(width as int));
}

/// What a call is after each of its own operations, field by field.
pub proof fn law_calls_change_by_one_track(track: Track, id: u128)
    ensures
        forall|call: &mut CallQueue, start: bool| #[trigger]
            call_ensures(CallQueue::enqueue, (call, track), start) ==> {
                &&& final(call).q@ == call.q@.push(track)
                &&& final(call).now_playing == call.now_playing
                &&& final(call).guild_id == call.guild_id
                &&& final(call).channel_id == call.channel_id
                &&& start == (call.now_playing is None)
            },
        forall|call: &mut CallQueue, nothing: ()| #[trigger]
            call_ensures(CallQueue::play, (call, track, id), nothing) ==> {
                &&& final(call).q@ == call.q@
                &&& final(call).now_playing matches Some(playing) && playing.t == track
                    && playing.h == id
                &&& final(call).guild_id == call.guild_id
                &&& final(call).channel_id == call.channel_id
            },
        forall|call: &mut CallQueue, next: Option<Track>| #[trigger]
            call_ensures(CallQueue::advance, (call,), next) ==> {
                &&& call.q@.len() > 0 ==> final(call).q@ == call.q@.skip(1)
                &&& call.q@.len() == 0 ==> final(call).q@ == call.q@
                &&& final(call).now_playing is None
                &&& final(call).guild_id == call.guild_id
                &&& final(call).channel_id == call.channel_id
                &&& next is Some <==> call.q@.len() >= 2
                &&& next matches Some(t) ==> t == call.q@[1]
            },
{
}

/// A call that was just joined is empty and silent.
pub proof fn law_new_calls_are_empty(guild_id: u64, channel_id: u64, call: CallQueue)
    requires
        call_ensures(CallQueue::new, (guild_id, channel_id), call),
    ensures
        call.q@.len() == 0,
        call.now_playing is None,
        call.guild_id == guild_id,
        call.channel_id == channel_id,
{
}

/// A playback is noted for its guild if it was started, and nothing else
/// changes.
pub proof fn law_playbacks_are_noted_once_started(guild_id: u64, song: Result<u128, String>)
    ensures
        forall|handler: &mut Handler, res: Result<u128, String>| #[trigger]
            call_ensures(Handler::start_track, (handler, guild_id, song), res) ==> {
                &&& res == song
                &&& (*final(handler))@.calls == (*handler)@.calls
                &&& song is Err ==> (*final(handler))@ == (*handler)@
                &&& song matches Ok(id) ==> (*final(handler))@.track_calls
                    == (*handler)@.track_calls.insert(id, guild_id)
            },
{
}

/// A track that has started is noted as what plays in its guild, and one that
/// has not changes nothing.
pub proof fn law_started_tracks_are_noted(guild_id: u64, track: Track, song: Result<u128, String>)
    ensures
        forall|handler: &mut Handler, res: Result<(), String>|
            (*handler)@.calls.contains_key(guild_id) && #[trigger] call_ensures(
                Handler::track_started,
                (handler, guild_id, track, song),
                res,
            ) ==> {
                let before = (*handler)@;
                let after = (*final(handler))@;
                &&& song matches Err(text) ==> after == before && res == Err::<(), String>(text)
                &&& song matches Ok(id) ==> {
                    &&& res is Ok
                    &&& after.track_calls == before.track_calls.insert(id, guild_id)
                    &&& after.calls.dom() == before.calls.dom()
                    &&& after.calls.remove(guild_id) == before.calls.remove(guild_id)
                    &&& after.calls[guild_id].q == before.calls[guild_id].q
                    &&& after.calls[guild_id].now_playing matches Some(playing) && playing.t
                        == track && playing.h == id
                    &&& after.calls[guild_id].guild_id == before.calls[guild_id].guild_id
                    &&& after.calls[guild_id].channel_id == before.calls[guild_id].channel_id
                }
            },
{
    assert forall|handler: &mut Handler, res: Result<(), String>|
        (*handler)@.calls.contains_key(guild_id) && #[trigger] call_ensures(
            Handler::track_started,
            (handler, guild_id, track, song),
            res,
        ) implies {
        let before = (*handler)@;
        let after = (*final(handler))@;
        song is Ok ==> after.calls.dom() == before.calls.dom() && after.calls.remove(guild_id)
            == before.calls.remove(guild_id)
    } by {
        if song is Ok {
            assert((*final(handler))@.calls.dom() =~= (*handler)@.calls.dom());
            assert((*final(handler))@.calls.remove(guild_id) =~= (*handler)@.calls.remove(
                guild_id,
            ));
        }
    }
}

/// To disconnect forgets the call of a guild, and nothing else.
pub proof fn law_disconnect_forgets_one_call(guild_id: u64)
    ensures
        forall|handler: &mut Handler, step: Step| #[trigger]
            call_ensures(Handler::disconnect, (handler, guild_id), step) ==> {
                let before = (*handler)@;
                let after = (*final(handler))@;
                &&& after.track_calls == before.track_calls
                &&& after.calls == before.calls.remove(guild_id)
                &&& !before.calls.contains_key(guild_id) ==> reports_text(
                    step,
                    "not in any voice channel"@,
                )
                &&& before.calls.contains_key(guild_id) ==> match before.calls[guild_id].now_playing {
                    None => step == (Step::Perform {
                        action: Action::Leave { guild_id },
                        then: Waiting::Leave,
                    }),
                    Some(playing) => step == (Step::Perform {
                        action: Action::Stop { id: playing.h },
                        then: Waiting::Halt { guild_id },
                    }),
                }
            },
{
}

/// To play what was fetched does what going on with the fetch does.
pub proof fn law_play_goes_on_with_the_fetch(
    guild_id: u64,
    url: String,
    fetched: Result<Metadata, String>,
)
    ensures
        forall|handler: &mut Handler, step: Step| #[trigger]
            call_ensures(Handler::play, (handler, guild_id, url, fetched), step) ==> goes_on(
                (*handler)@,
                Waiting::Fetch { guild_id, url },
                Event::Fetched { fetched },
                (*final(handler))@,
                step,
            ),
{
}

/// The steps that change nothing: a skip, a listing, an errand and a look at
/// what plays are what going on with their command gives.
pub proof fn law_first_steps_are_those_of_their_commands(
    handler: Handler,
    guild: Guild,
    author_id: u64,
    errand: Errand,
    step: Step,
)
    ensures
        handler@.calls.contains_key(guild.id) && call_ensures(
            Handler::skip,
            (&handler, guild.id),
            step,
        ) ==> takes_up(handler@.calls[guild.id], guild.id, Errand::Skip, step),
        call_ensures(Handler::print_queue, (&handler, guild.id), step) ==> goes_on(
            handler@,
            Waiting::Guild { author_id, request: Request::Queue },
            Event::Guild { guild },
            handler@,
            step,
        ),
        call_ensures(Handler::playing, (&handler, guild.id), step) ==> goes_on(
            handler@,
            Waiting::Guild { author_id, request: Request::Playing },
            Event::Guild { guild },
            handler@,
            step,
        ),
        call_ensures(Handler::get_or_join_call, (&handler, &guild, author_id, errand), step)
            ==> goes_on(
            handler@,
            Waiting::Guild { author_id, request: Request::InCall { errand } },
            Event::Guild { guild },
            handler@,
            step,
        ),
{
}

/// What is told of a track is its own title and what is left of its own
/// duration.
pub proof fn law_tell_position_tells_of_its_track(
    track: Track,
    position: Result<Duration, String>,
    step: Step,
)
    requires
        call_ensures(tell_position, (&track, position), step),
    ensures
        position matches Err(text) ==> reports_text(step, text@),
        position matches Ok(p) ==> match track.metadata.duration {
            None => reports_text(step, "no duration metadata"@),
            Some(d) => says_text(
                step,
                "Playing: "@ + (match track.metadata.title {
                    Some(title) => title@,
                    None => "<no title>"@,
                }) + "\nLeft: "@ + shown(((d@ - p@) as nat) / 1_000_000_000),
            ),
        },
{
}

/// What a play command comes to once its link was read: the guild is looked up
/// for the author, to play the URL, or the link is answered in quotes.
pub proof fn law_links_that_were_read_are_played(
    link: &str,
    url: Result<String, BadUrl>,
    author_id: u64,
    step: Step,
)
    requires
        call_ensures(play_link, (link, url, author_id), step),
    ensures
        url is Err ==> replies_text(step, "unable to parse URL "@ + quoted(link@)),
        url matches Ok(asked) ==> step matches Step::Perform {
            action: Action::FindGuild,
            then: Waiting::Guild {
                author_id: author,
                request: Request::InCall { errand: Errand::Play { url: played } },
            },
        } && author == author_id && played@ == asked@,
{
}

/// Steps are made of what they are to tell.
pub proof fn law_steps_tell_what_they_are_made_of(
    text: String,
    error: Error,
    result: Result<(), String>,
    step: Step,
)
    ensures
        call_ensures(Step::say, (text,), step) ==> says_text(step, text@),
        call_ensures(Step::reply, (text,), step) ==> replies_text(step, text@),
        call_ensures(Step::report, (&error,), step) ==> exists|message: Seq<char>|
            reports_text(step, message) && #[trigger] is_message(error, message),
        call_ensures(Step::finish, (result,), step) ==> match result {
            Ok(_) => step == Step::Done,
            Err(failure) => reports_text(step, failure@),
        },
{
    assert(is_message(error, error.spec_message()));
}

/// Texts are compared character by character.
pub proof fn law_texts_are_compared_by_their_characters(a: &str, b: &str, answer: bool)
    ensures
        call_ensures(same_text, (a, b), answer) ==> answer == (a@.len() == b@.len() && forall|i: int|
            0 <= i < a@.len() ==> #[trigger] a@[i] == b@[i]),
        call_ensures(begins_with, (a, b), answer) ==> answer == (a@.len() >= b@.len()
            && forall|i: int| 0 <= i < b@.len() ==> #[trigger] a@[i] == b@[i]),
{
    if a@.len() == b@.len() && forall|i: int| 0 <= i < a@.len() ==> #[trigger] a@[i] == b@[i] {
        assert(a@ =~= b@);
    }
    if a@.len() >= b@.len() {
        if forall|i: int| 0 <= i < b@.len() ==> #[trigger] a@[i] == b@[i] {
            assert(b@ =~= a@.subrange(0, b@.len() as int));
        }
        if b@ == a@.subrange(0, b@.len() as int) {
            assert forall|i: int| 0 <= i < b@.len() implies #[trigger] a@[i] == b@[i] by {
                assert(a@[i] == a@.subrange(0, b@.len() as int)[i]);
            }
        }
    }
}

/// The characters of a text are its characters, and its decimal texts are those
/// of the numbers they write.
pub proof fn law_texts_are_their_characters(text: &str, chars: Vec<char>, n: u64, written: String)
    ensures
        call_ensures(characters, (text,), chars) ==> chars@ == text@,
        call_ensures(decimal_text, (n,), written) ==> writes_number(written@, n as nat),
{
    law_decimal_writes_the_number(n as nat);
}

/// A table can be drawn where `can_draw` says so, and only there.
pub proof fn law_can_draw_tells_what_can_be_drawn(rows: Vec<Vec<String>>, can: bool)
    requires
        call_ensures(can_draw, (&rows,), can),
    ensures
        can == drawable(cells(rows@)),
{
}

proof fn starts_are_bounded_below(rows: Seq<Seq<Seq<char>>>, shortest: nat, column: int)
    requires
        rows.len() > 0,
        0 <= column <= rows[0].len(),
        forall|c: int|
            0 <= c < rows[0].len() ==> shortest <= #[trigger] column_width(rows, c, rows.len()),
    ensures
        column * shortest + 3 * column <= column_start(widths(rows), column),
    decreases column,
{
    if column > 0 {
        starts_are_bounded_below(rows, shortest, column - 1);
        assert(shortest <= column_width(rows, column - 1, rows.len()));
        assert(column * shortest == (column - 1) * shortest + shortest) by (nonlinear_arith);
    } else {
        assert(column * shortest == 0) by (nonlinear_arith)
            requires
                column == 0,
        ;
    }
}

/// A table that can be drawn has a cell in its first row, has no longer row
/// than that, and has room for its lines: if each column holds a cell of so
/// many characters at least, in the row that is named for it, the lines that
/// they make fit.
pub proof fn law_drawn_tables_have_room(
    rows: Seq<Seq<Seq<char>>>,
    shortest: nat,
    holders: Seq<int>,
)
    requires
        drawable(rows),
        forall|c: int|
            0 <= c < rows[0].len() ==> {
                let r = #[trigger] holders[c];
                0 <= r < rows.len() && c < rows[r].len() && shortest <= rows[r][c].len()
            },
    ensures
        rows.len() > 0,
        rows[0].len() > 0,
        forall|r: int| 0 <= r < rows.len() ==> (#[trigger] rows[r]).len() <= rows[0].len(),
        4 * ((rows[0].len() * shortest + rows[0].len() + 1) * (2 * rows.len() + 1) + 2 * rows.len())
            <= isize::MAX,
{
    let n = rows[0].len();
    assert forall|c: int| 0 <= c < n implies shortest <= #[trigger] column_width(
        rows,
        c,
        rows.len(),
    ) by {
        let r = holders[c];
        law_columns_are_as_wide_as_their_widest_cell(rows, c, rows.len());
        assert(rows[r][c].len() <= column_width(rows, c, rows.len()));
    }
    starts_are_bounded_below(rows, shortest, n as int);
    let line = column_start(widths(rows), n as int) - 2 * n + 1;
    let least = n * shortest + n + 1;
    let lines = 2 * rows.len() + 1;
    assert(least * lines <= line * lines) by (nonlinear_arith)
        requires
            least <= line,
            lines >= 0,
    ;
    assert(counted_size(rows) == line * lines + 2 * rows.len());
}

/// A well-formed bot keeps each call under the guild it is in, and whatever
/// happens to it, it still does.
pub proof fn law_calls_stay_under_their_guilds(
    before: HandlerView,
    waiting: Waiting,
    event: Event,
    after: HandlerView,
    step: Step,
    id: u128,
)
    ensures
        before.is_well_formed() <==> forall|guild_id: u64| #[trigger]
            before.calls.contains_key(guild_id) ==> before.calls[guild_id].guild_id == guild_id,
        before.is_well_formed() && before.accepts(waiting, event) && goes_on(
            before,
            waiting,
            event,
            after,
            step,
        ) ==> forall|guild_id: u64| #[trigger]
            after.calls.contains_key(guild_id) ==> after.calls[guild_id].guild_id == guild_id,
        before.is_well_formed() ==> forall|guild_id: u64| #[trigger]
            before.after_track_end(id).calls.contains_key(guild_id)
                ==> before.after_track_end(id).calls[guild_id].guild_id == guild_id,
{
}

} // verus!
