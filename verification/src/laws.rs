//! What holds of the bot as a whole.

use crate::call::{CallView, PlayingTrack};
use crate::duration::{hours_shown, minutes_shown, seconds_shown, shown};
use crate::error::Error;
use crate::handler::{goes_on, starts_message, starts_track, HandlerView, Reach, TrackEnd};
use crate::step::{Action, Event, Step, Waiting};
use crate::table::{
    column_start, counted_size, drawable, durations_showable, laid_byte, laid_column, listable,
    queue_cells, widths,
};
use crate::text::{decimal, digit, trimmed, white_space};
use crate::track::Track;
use vstd::prelude::*;
use vstd::utf8::{
    encode_utf8, encode_utf8_valid_utf8, is_ascii_chars, is_ascii_chars_encode_utf8, valid_utf8,
};

verus! {

/// The hours, minutes and seconds that are shown add up to the span, and
/// minutes and seconds stay in their ranges: an even minute is shown as sixty
/// seconds.
pub proof fn law_shown_parts_add_up(secs: nat)
    ensures
        secs == 3600 * hours_shown(secs) + 60 * minutes_shown(secs) + seconds_shown(secs),
        minutes_shown(secs) < 60,
        secs > 0 ==> 1 <= seconds_shown(secs) <= 60,
        secs == 0 ==> seconds_shown(secs) == 0,
{
}

proof fn decimal_is_digits(n: nat)
    ensures
        decimal(n).len() > 0,
        forall|i: int| 0 <= i < decimal(n).len() ==> '0' <= #[trigger] decimal(n)[i] <= '9',
    decreases n,
{
    if n >= 10 {
        decimal_is_digits(n / 10);
    }
}

proof fn decimal_is_unique(a: nat, b: nat)
    requires
        decimal(a) == decimal(b),
    ensures
        a == b,
    decreases a,
{
    decimal_is_digits(a / 10);
    decimal_is_digits(b / 10);
    if a >= 10 && b >= 10 {
        assert(decimal(a).drop_last() =~= decimal(a / 10));
        assert(decimal(b).drop_last() =~= decimal(b / 10));
        assert(decimal(a).last() == digit(a % 10) && decimal(b).last() == digit(b % 10));
        assert(a % 10 == b % 10);
        decimal_is_unique(a / 10, b / 10);
    } else if a < 10 && b < 10 {
        assert(decimal(a)[0] == digit(a) && decimal(b)[0] == digit(b));
    } else if a < 10 {
        assert(decimal(a) == seq![digit(a)]);
        assert(decimal(b) == decimal(b / 10).push(digit(b % 10)));
    } else {
        assert(decimal(a) == decimal(a / 10).push(digit(a % 10)));
        assert(decimal(b) == seq![digit(b)]);
    }
}

/// Two numbers followed by the same mark and a rest are told apart.
proof fn number_ends_at_its_mark(a: nat, b: nat, mark: char, r: Seq<char>, s: Seq<char>)
    requires
        mark > '9',
        decimal(a) + seq![mark] + r == decimal(b) + seq![mark] + s,
    ensures
        a == b,
        r == s,
{
    let x = decimal(a) + seq![mark] + r;
    let y = decimal(b) + seq![mark] + s;
    decimal_is_digits(a);
    decimal_is_digits(b);
    if decimal(a).len() < decimal(b).len() {
        assert(x[decimal(a).len() as int] == mark);
        assert(y[decimal(a).len() as int] == decimal(b)[decimal(a).len() as int]);
    } else if decimal(b).len() < decimal(a).len() {
        assert(y[decimal(b).len() as int] == mark);
        assert(x[decimal(b).len() as int] == decimal(a)[decimal(b).len() as int]);
    }
    let len = decimal(a).len() as int;
    assert(decimal(a) =~= x.take(len));
    assert(decimal(b) =~= y.take(len));
    assert(r =~= x.skip(len + 1));
    assert(s =~= y.skip(len + 1));
    decimal_is_unique(a, b);
}

/// Spans of different whole seconds are shown differently.
pub proof fn law_shown_is_unique(a: nat, b: nat)
    requires
        shown(a) == shown(b),
    ensures
        a == b,
{
    reveal_strlit("h");
    reveal_strlit("m");
    reveal_strlit("s");
    assert("h"@ =~= seq!['h']);
    assert("m"@ =~= seq!['m']);
    assert("s"@ =~= seq!['s']);
    let none = Seq::<char>::empty();
    let s_a = decimal(seconds_shown(a)) + seq!['s'] + none;
    let s_b = decimal(seconds_shown(b)) + seq!['s'] + none;
    let m_a = decimal(minutes_shown(a)) + seq!['m'] + s_a;
    let m_b = decimal(minutes_shown(b)) + seq!['m'] + s_b;
    assert(shown(a) =~= decimal(hours_shown(a)) + seq!['h'] + m_a);
    assert(shown(b) =~= decimal(hours_shown(b)) + seq!['h'] + m_b);
    number_ends_at_its_mark(hours_shown(a), hours_shown(b), 'h', m_a, m_b);
    number_ends_at_its_mark(minutes_shown(a), minutes_shown(b), 'm', s_a, s_b);
    number_ends_at_its_mark(seconds_shown(a), seconds_shown(b), 's', none, none);
    law_shown_parts_add_up(a);
    law_shown_parts_add_up(b);
}

proof fn laid_bytes_are_ascii(row: Seq<Seq<char>>, widths: Seq<nat>, count: nat, place: int)
    requires
        count <= row.len(),
        forall|c: int| 0 <= c < row.len() ==> is_ascii_chars(#[trigger] row[c]),
    ensures
        laid_byte(row, widths, count, place) < 128,
    decreases count,
{
    if count > 0 {
        laid_bytes_are_ascii(row, widths, (count - 1) as nat, place);
        let cell = row[count - 1];
        is_ascii_chars_encode_utf8(cell);
        let start = column_start(widths, count - 1);
        if start <= place < start + encode_utf8(cell).len() {
            assert(cell[place - start] as u8 == encode_utf8(cell)[place - start]);
        }
    }
}

proof fn ascii_bytes_are_utf8(bytes: Seq<u8>)
    requires
        forall|i: int| 0 <= i < bytes.len() ==> #[trigger] bytes[i] < 128,
    ensures
        valid_utf8(bytes),
{
    let chars = Seq::new(bytes.len(), |i: int| bytes[i] as char);
    is_ascii_chars_encode_utf8(chars);
    assert forall|i: int| 0 <= i < bytes.len() implies encode_utf8(chars)[i] == bytes[i] by {
        assert(chars[i] as u8 == bytes[i]);
    }
    assert(encode_utf8(chars) =~= bytes);
    encode_utf8_valid_utf8(chars);
}

/// A table of ASCII text can be drawn, if no row is longer than the first and
/// it is not too large to count.
pub proof fn law_ascii_tables_can_be_drawn(rows: Seq<Seq<Seq<char>>>)
    requires
        rows.len() > 0,
        rows[0].len() > 0,
        forall|r: int| 0 <= r < rows.len() ==> (#[trigger] rows[r]).len() <= rows[0].len(),
        4 * counted_size(rows) <= isize::MAX,
        forall|r: int, c: int|
            0 <= r < rows.len() && 0 <= c < rows[r].len() ==> is_ascii_chars(
                #[trigger] rows[r][c],
            ),
    ensures
        drawable(rows),
{
    assert forall|r: int, c: int| 0 <= r < rows.len() && 0 <= c < rows[r].len() implies valid_utf8(
        #[trigger] laid_column(rows[r], widths(rows), c),
    ) by {
        let row = rows[r];
        let w = widths(rows);
        let bytes = laid_column(row, w, c);
        assert forall|k: int| 0 <= k < bytes.len() implies #[trigger] bytes[k] < 128 by {
            laid_bytes_are_ascii(row, w, row.len(), column_start(w, c) + k);
        }
        ascii_bytes_are_utf8(bytes);
    }
}

proof fn shown_is_ascii(secs: nat)
    ensures
        is_ascii_chars(shown(secs)),
{
    reveal_strlit("h");
    reveal_strlit("m");
    reveal_strlit("s");
    decimal_is_digits(hours_shown(secs));
    decimal_is_digits(minutes_shown(secs));
    decimal_is_digits(seconds_shown(secs));
}

/// A queue can be listed if its titles and artists are ASCII text, its
/// durations can be shown, and its table is not too large to count.
pub proof fn law_ascii_queues_can_be_listed(q: Seq<Track>)
    requires
        durations_showable(q),
        forall|i: int|
            0 <= i < q.len() ==> is_ascii_chars((#[trigger] q[i]).title_text()) && is_ascii_chars(
                q[i].artist_text(),
            ),
        4 * counted_size(queue_cells(q)) <= isize::MAX,
    ensures
        listable(q),
{
    let rows = queue_cells(q);
    reveal_strlit("<no duration>");
    assert forall|r: int, c: int| 0 <= r < rows.len() && 0 <= c < rows[r].len() implies is_ascii_chars(
        #[trigger] rows[r][c],
    ) by {
        decimal_is_digits(r as nat);
        assert(q[r].has_showable_duration());
        if let Some(d) = q[r].metadata.duration {
            shown_is_ascii(d.seconds());
        }
    }
    if q.len() > 0 {
        law_ascii_tables_can_be_drawn(rows);
    }
}

/// The guild that a command is about, once it is known.
pub open spec fn guild_concerned(waiting: Waiting, event: Event) -> Option<u64> {
    match (waiting, event) {
        (Waiting::Guild { .. }, Event::Guild { guild }) => Some(guild.id),
        (Waiting::Deafen { guild_id, .. }, _) => Some(guild_id),
        (Waiting::Fetch { guild_id, .. }, _) => Some(guild_id),
        (Waiting::Start { guild_id, .. }, _) => Some(guild_id),
        (Waiting::Stop { guild_id }, _) => Some(guild_id),
        _ => None,
    }
}

/// A command in one guild leaves the calls of all other guilds as they are.
pub proof fn law_guilds_are_separate(
    before: HandlerView,
    waiting: Waiting,
    event: Event,
    after: HandlerView,
    step: Step,
    other: u64,
)
    requires
        before.accepts(waiting, event),
        goes_on(before, waiting, event, after, step),
        guild_concerned(waiting, event) != Some(other),
    ensures
        after.calls.contains_key(other) == before.calls.contains_key(other),
        after.calls.contains_key(other) ==> after.calls[other] == before.calls[other],
{
}

/// The guild in whose call a command goes on.
pub open spec fn guild_of(waiting: Waiting) -> Option<u64> {
    match waiting {
        Waiting::Join { guild_id, .. } => Some(guild_id),
        Waiting::Deafen { guild_id, .. } => Some(guild_id),
        Waiting::Fetch { guild_id, .. } => Some(guild_id),
        Waiting::Start { guild_id, .. } => Some(guild_id),
        Waiting::Stop { guild_id } => Some(guild_id),
        _ => None,
    }
}

/// A command that waits in one guild can still go on there after a step of a
/// command in another guild.
pub proof fn law_commands_do_not_disturb_other_guilds(
    before: HandlerView,
    waiting: Waiting,
    event: Event,
    after: HandlerView,
    step: Step,
    other: Waiting,
)
    requires
        before.accepts(waiting, event),
        goes_on(before, waiting, event, after, step),
        guild_of(other) matches Some(guild_id) ==> guild_concerned(waiting, event) != Some(guild_id),
        before.holds(other),
    ensures
        after.holds(other),
{
}

/// A command that waits can still go on after the end of any track.
pub proof fn law_track_ends_do_not_disturb_commands(before: HandlerView, id: u128, other: Waiting)
    requires
        before.holds(other),
    ensures
        before.after_track_end(id).holds(other),
{
}

/// The bot stays in the channel it joined for as long as it has the call.
pub proof fn law_calls_keep_their_channel(
    before: HandlerView,
    waiting: Waiting,
    event: Event,
    after: HandlerView,
    step: Step,
    guild_id: u64,
)
    requires
        before.accepts(waiting, event),
        goes_on(before, waiting, event, after, step),
        before.calls.contains_key(guild_id),
        after.calls.contains_key(guild_id),
    ensures
        after.calls[guild_id].channel_id == before.calls[guild_id].channel_id,
        after.calls[guild_id].guild_id == before.calls[guild_id].guild_id,
{
}

/// What went wrong, if an event says that an action failed.
pub open spec fn failure(event: Event) -> Option<Seq<char>> {
    match event {
        Event::Fetched { fetched: Err(text) } => Some(text@),
        Event::Started { song: Err(text) } => Some(text@),
        Event::Position { position: Err(text) } => Some(text@),
        Event::Done { result: Err(text) } => Some(text@),
        _ => None,
    }
}

/// An action that fails changes nothing, and its failure is reported. The two
/// exceptions are failures that nobody asks about: that of stopping the track
/// in a call that is left anyway, and that of reporting an error.
pub proof fn law_failures_change_nothing(
    before: HandlerView,
    waiting: Waiting,
    event: Event,
    after: HandlerView,
    step: Step,
)
    requires
        before.accepts(waiting, event),
        goes_on(before, waiting, event, after, step),
        failure(event) is Some,
    ensures
        after == before,
        !(waiting is Halt) && !(waiting is Reported) ==> step.reports(failure(event).unwrap()),
{
}

/// All calls but that of one guild play what stands in front of their queues.
pub open spec fn fronts_play_but(handler: HandlerView, except: Option<u64>) -> bool {
    forall|guild_id: u64| #[trigger]
        handler.calls.contains_key(guild_id) && except != Some(guild_id)
            ==> handler.calls[guild_id].plays_its_front()
}

/// All calls play what stands in front of their queues, or the one that does
/// not yet is about to start it.
pub open spec fn fronts_play(handler: HandlerView, step: Step) -> bool {
    match step {
        Step::Perform { then: Waiting::Start { guild_id, track }, .. } => {
            &&& fronts_play_but(handler, Some(guild_id))
            &&& handler.calls.contains_key(guild_id)
            &&& handler.calls[guild_id].now_playing is None
            &&& handler.calls[guild_id].q.len() > 0
            &&& handler.calls[guild_id].q[0] == track
        },
        _ => fronts_play_but(handler, None),
    }
}

/// Commands keep the front of each queue playing, as long as no track fails to
/// start.
pub proof fn law_commands_keep_fronts_playing(
    before: HandlerView,
    action: Action,
    waiting: Waiting,
    event: Event,
    after: HandlerView,
    step: Step,
)
    requires
        before.accepts(waiting, event),
        goes_on(before, waiting, event, after, step),
        fronts_play(before, Step::Perform { action, then: waiting }),
        !(waiting is Start && failure(event) is Some),
    ensures
        fronts_play(after, step),
{
}

/// The end of a track keeps the front of each queue playing, once the track
/// that comes next is started.
pub proof fn law_track_ends_keep_fronts_playing(before: HandlerView, id: u128)
    requires
        fronts_play(before, Step::Done),
    ensures
        match before.track_end_of(id) {
            TrackEnd::Next { guild_id, track } => fronts_play(
                before.after_track_end(id),
                starts_track(guild_id, track),
            ),
            _ => fronts_play(before.after_track_end(id), Step::Done),
        },
{
}

/// Each playback that goes on in a call is noted under the guild of the call.
pub open spec fn playbacks_are_known(handler: HandlerView) -> bool {
    forall|guild_id: u64| #[trigger]
        handler.calls.contains_key(guild_id) ==> (handler.calls[guild_id].now_playing matches Some(
            playing,
        ) ==> handler.track_calls.contains_key(playing.h) && handler.track_calls[playing.h]
            == guild_id)
}

/// Commands keep the playbacks noted, as long as a new playback gets an id
/// that no noted one has.
pub proof fn law_commands_keep_playbacks_known(
    before: HandlerView,
    waiting: Waiting,
    event: Event,
    after: HandlerView,
    step: Step,
)
    requires
        before.accepts(waiting, event),
        goes_on(before, waiting, event, after, step),
        playbacks_are_known(before),
        event matches Event::Started { song: Ok(id) } ==> !before.track_calls.contains_key(id),
    ensures
        playbacks_are_known(after),
{
}

/// The end of a track keeps the other playbacks noted.
pub proof fn law_track_ends_keep_playbacks_known(before: HandlerView, id: u128)
    requires
        playbacks_are_known(before),
    ensures
        playbacks_are_known(before.after_track_end(id)),
{
}

/// A track ends once: its end is not known of a second time.
pub proof fn law_tracks_end_once(before: HandlerView, id: u128)
    ensures
        before.after_track_end(id).track_end_of(id) == TrackEnd::NotPlayed,
        before.after_track_end(id).after_track_end(id) == before.after_track_end(id),
{
    assert(before.after_track_end(id).after_track_end(id) =~= before.after_track_end(id));
}

/// A track that was skipped does not move the queue on again when its end
/// comes in, whether or not another track was started in between.
pub proof fn law_skipped_track_does_not_advance(
    before: HandlerView,
    guild_id: u64,
    skipped: PlayingTrack,
    next: Track,
    id: u128,
)
    requires
        playbacks_are_known(before),
        before.calls.contains_key(guild_id),
        before.calls[guild_id].now_playing == Some(skipped),
        id != skipped.h,
    ensures
        ({
            let stopped = before.with_call(guild_id, before.calls[guild_id].advanced());
            let started = stopped.playing(guild_id, next, id);
            &&& stopped.after_track_end(skipped.h).calls == stopped.calls
            &&& started.after_track_end(skipped.h).calls == started.calls
        }),
{
}

/// When the playback that goes on in a guild ends, the track behind it is next
/// if there is one, and the others keep their order. It is next only then, and
/// the queue has ended only if it held one track at most.
pub proof fn law_next_track_is_the_second(before: HandlerView, id: u128)
    ensures
        ({
            let guild_id = before.track_calls[id];
            let call = before.calls[guild_id];
            let q = call.q;
            let after = before.after_track_end(id);
            &&& before.track_end_of(id) is Next ==> {
                &&& q.len() > 1
                &&& before.track_end_of(id) == (TrackEnd::Next { guild_id, track: q[1] })
                &&& after.calls[guild_id].q == q.skip(1)
            }
            &&& before.track_end_of(id) is QueueEnded ==> q.len() <= 1
            &&& before.track_calls.contains_key(id) && before.calls.contains_key(guild_id) && (
            call.now_playing matches Some(playing) && playing.h == id) && q.len() >= 2 ==> {
                &&& before.track_end_of(id) == (TrackEnd::Next { guild_id, track: q[1] })
                &&& after.calls[guild_id].q == q.skip(1)
            }
        }),
{
}

/// A call after so many of its tracks are done with.
pub open spec fn advanced_times(call: CallView, times: nat) -> CallView
    decreases times,
{
    if times == 0 {
        call
    } else {
        advanced_times(call, (times - 1) as nat).advanced()
    }
}

/// A call after more tracks are queued.
pub open spec fn queued_all(call: CallView, tracks: Seq<Track>) -> CallView
    decreases tracks.len(),
{
    if tracks.len() == 0 {
        call
    } else {
        queued_all(call, tracks.drop_last()).queued(tracks.last())
    }
}

proof fn queued_all_appends(call: CallView, tracks: Seq<Track>)
    ensures
        queued_all(call, tracks).q == call.q + tracks,
    decreases tracks.len(),
{
    if tracks.len() > 0 {
        queued_all_appends(call, tracks.drop_last());
        assert(call.q + tracks =~= (call.q + tracks.drop_last()).push(tracks.last()));
    } else {
        assert(call.q + tracks =~= call.q);
    }
}

proof fn advanced_times_skips(call: CallView, times: nat)
    requires
        times <= call.q.len(),
    ensures
        advanced_times(call, times).q == call.q.skip(times as int),
    decreases times,
{
    if times > 0 {
        advanced_times_skips(call, (times - 1) as nat);
        assert(call.q.skip(times as int) =~= call.q.skip(times - 1).drop_first());
    } else {
        assert(call.q.skip(0) =~= call.q);
    }
}

/// Tracks come up in the order in which they were queued: a track is in front
/// once all that stood before it are done with, whatever is queued after it.
pub proof fn law_tracks_come_in_order(call: CallView, track: Track, later: Seq<Track>)
    ensures
        ({
            let after = advanced_times(queued_all(call.queued(track), later), call.q.len());
            after.q == seq![track] + later
        }),
{
    let queued = queued_all(call.queued(track), later);
    queued_all_appends(call.queued(track), later);
    advanced_times_skips(queued, call.q.len());
    assert(queued.q.skip(call.q.len() as int) =~= seq![track] + later);
}

/// To queue a track while another plays changes neither what plays nor what
/// stands before it.
pub proof fn law_queueing_does_not_interrupt(
    before: HandlerView,
    guild_id: u64,
    url: String,
    event: Event,
    after: HandlerView,
    step: Step,
)
    requires
        before.accepts(Waiting::Fetch { guild_id, url }, event),
        goes_on(before, Waiting::Fetch { guild_id, url }, event, after, step),
        before.calls[guild_id].now_playing is Some,
        failure(event) is None,
    ensures
        step == Step::Done,
        after.calls[guild_id].now_playing == before.calls[guild_id].now_playing,
        before.calls[guild_id].q.is_prefix_of(after.calls[guild_id].q),
        after.calls[guild_id].q.len() == before.calls[guild_id].q.len() + 1,
        after.track_calls == before.track_calls,
{
    assert(before.calls[guild_id].q =~= after.calls[guild_id].q.subrange(
        0,
        before.calls[guild_id].q.len() as int,
    ));
}

/// A call that was left is forgotten: nothing can be listed, told of or left
/// there, and any channel of the guild can be joined.
pub proof fn law_left_call_is_forgotten(
    before: HandlerView,
    guild_id: u64,
    channel_id: u64,
    step: Step,
)
    ensures
        ({
            let after = before.without_call(guild_id);
            &&& after.reach(guild_id, channel_id) == Ok::<Reach, Error>(Reach::ToJoin)
            &&& after.lists_queue(guild_id, step) == step.reports(
                Error::NotInAnyChannel.spec_message(),
            )
            &&& after.asks_position(guild_id, step) == step.reports(
                Error::NotInAnyChannel.spec_message(),
            )
            &&& after.leaves(guild_id, step) == step.reports(
                Error::NotInAnyVoiceChannel.spec_message(),
            )
        }),
{
}

/// A message that does not start with a quotation mark is not answered.
pub proof fn law_other_messages_are_ignored(content: Seq<char>, author_id: u64, step: Step)
    requires
        starts_message(content, author_id, step),
        content.len() == 0 || content[0] != '"',
    ensures
        step == Step::Done,
{
}

/// A link has no white space at its ends.
pub proof fn law_trimmed_has_no_white_ends(text: Seq<char>)
    ensures
        trimmed(text).len() > 0 ==> !white_space(trimmed(text).first()) && !white_space(
            trimmed(text).last(),
        ),
        trimmed(trimmed(text)) == trimmed(text),
    decreases text.len(),
{
    if text.len() > 0 && white_space(text.first()) {
        law_trimmed_has_no_white_ends(text.drop_first());
    } else if text.len() > 0 && white_space(text.last()) {
        law_trimmed_has_no_white_ends(text.drop_last());
    }
}

} // verus!
