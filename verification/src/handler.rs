//! The bot: the calls it has joined, and how it carries out commands in them.

use crate::call::{CallQueue, CallView};
use crate::command::{command_in, parse_command, Command, CommandView};
use crate::duration::{can_show, format_duration, shown, showable, Duration, NANOS_PER_SEC};
use crate::error::Error;
use crate::link::{parse_url, url_read, BadUrl};
use crate::step::{Action, Errand, Event, Guild, Request, Step, Waiting};
use crate::table::{can_list, drawn, list_queue, listable, listed, queue_cells};
use crate::text::{quote, quoted};
use crate::track::{Metadata, Track};
use std::collections::HashMap;
use vstd::prelude::*;

verus! {

broadcast use vstd::std_specs::hash::group_hash_axioms;

/// The bot: its calls by guild, and the guild of each playback it started.
#[derive(Debug)]
pub struct Handler {
    calls: HashMap<u64, CallQueue>,
    track_calls: HashMap<u128, u64>,
}

/// What the bot keeps, as maps.
#[verifier::ext_equal]
pub struct HandlerView {
    pub calls: Map<u64, CallView>,
    pub track_calls: Map<u128, u64>,
}

impl View for Handler {
    type V = HandlerView;

    closed spec fn view(&self) -> HandlerView {
        HandlerView {
            calls: self.calls@.map_values(|call: CallQueue| call@),
            track_calls: self.track_calls@,
        }
    }
}

/// How the call of a channel is come by.
#[derive(Clone, Copy, Debug, PartialEq, Eq, Structural)]
pub enum Reach {
    /// The bot is in the channel.
    Joined,
    /// The channel is to be joined.
    ToJoin,
}

/// What the end of a track leads to.
#[derive(Debug)]
pub enum TrackEnd {
    /// The bot was not playing it.
    NotPlayed,
    /// The bot has no call in its guild any more.
    NoQueue { guild_id: u64 },
    /// Nothing is playing in its guild.
    NothingPlaying { guild_id: u64 },
    /// Another playback is going on in its guild.
    OtherPlaying { playing: u128 },
    /// Its queue is at an end.
    QueueEnded,
    /// The next track of its queue is to be started.
    Next { guild_id: u64, track: Track },
}

impl HandlerView {
    /// A bot without calls.
    pub open spec fn idle() -> HandlerView {
        HandlerView { calls: Map::empty(), track_calls: Map::empty() }
    }

    /// Each call is kept under the id of its guild.
    pub open spec fn is_well_formed(self) -> bool {
        forall|guild_id: u64| #[trigger]
            self.calls.contains_key(guild_id) ==> self.calls[guild_id].guild_id == guild_id
    }

    /// The bot with a call changed or added.
    pub open spec fn with_call(self, guild_id: u64, call: CallView) -> HandlerView {
        HandlerView { calls: self.calls.insert(guild_id, call), ..self }
    }

    /// The bot without the call of a guild.
    pub open spec fn without_call(self, guild_id: u64) -> HandlerView {
        HandlerView { calls: self.calls.remove(guild_id), ..self }
    }

    /// The bot with a playback noted.
    pub open spec fn with_playback(self, id: u128, guild_id: u64) -> HandlerView {
        HandlerView { track_calls: self.track_calls.insert(id, guild_id), ..self }
    }

    /// The bot with a playback forgotten.
    pub open spec fn without_playback(self, id: u128) -> HandlerView {
        HandlerView { track_calls: self.track_calls.remove(id), ..self }
    }

    /// The bot while a call plays a track that was just started.
    pub open spec fn playing(self, guild_id: u64, track: Track, id: u128) -> HandlerView {
        self.with_call(guild_id, self.calls[guild_id].playing(track, id)).with_playback(
            id,
            guild_id,
        )
    }

    /// How the call of a channel is come by, or why it cannot be.
    pub open spec fn reach(self, guild_id: u64, channel_id: u64) -> Result<Reach, Error> {
        if !self.calls.contains_key(guild_id) {
            Ok(Reach::ToJoin)
        } else if self.calls[guild_id].channel_id == channel_id {
            Ok(Reach::Joined)
        } else {
            Err(Error::AlreadyInAnotherChannel { channel_id })
        }
    }

    /// The first step of an errand in a call that the bot is in.
    pub open spec fn starts_errand(self, guild_id: u64, errand: Errand, step: Step) -> bool {
        match errand {
            Errand::Play { url } => step == (Step::Perform {
                action: Action::Fetch { url },
                then: Waiting::Fetch { guild_id, url },
            }),
            Errand::Skip => match self.calls[guild_id].now_playing {
                None => step.says("Nothing playing to skip"@),
                Some(playing) => step == (Step::Perform {
                    action: Action::Stop { id: playing.h },
                    then: Waiting::Stop { guild_id },
                }),
            },
        }
    }

    /// The step of an errand once the guild is known.
    pub open spec fn enters_call(
        self,
        guild: Guild,
        author_id: u64,
        errand: Errand,
        step: Step,
    ) -> bool {
        match guild.channel_of(author_id) {
            None => step.reports(Error::NotInAVoiceChannel.spec_message()),
            Some(channel_id) => match self.reach(guild.id, channel_id) {
                Ok(Reach::Joined) => self.starts_errand(guild.id, errand, step),
                Ok(Reach::ToJoin) => step == (Step::Perform {
                    action: Action::Join { guild_id: guild.id, channel_id },
                    then: Waiting::Join { guild_id: guild.id, channel_id, errand },
                }),
                Err(error) => step.reports(error.spec_message()),
            },
        }
    }

    /// The step that lists the queue of a guild.
    pub open spec fn lists_queue(self, guild_id: u64, step: Step) -> bool {
        if !self.calls.contains_key(guild_id) {
            step.reports(Error::NotInAnyChannel.spec_message())
        } else if self.calls[guild_id].q.len() == 0 {
            step.reports(Error::NoSongsPlaying.spec_message())
        } else {
            match listed(drawn(queue_cells(self.calls[guild_id].q))) {
                Ok(text) => step.says(text),
                Err(text) => step.reports(text),
            }
        }
    }

    /// The step that leaves the call of a guild, if there is one.
    pub open spec fn leaves(self, guild_id: u64, step: Step) -> bool {
        if !self.calls.contains_key(guild_id) {
            step.reports(Error::NotInAnyVoiceChannel.spec_message())
        } else {
            match self.calls[guild_id].now_playing {
                Some(playing) => step == (Step::Perform {
                    action: Action::Stop { id: playing.h },
                    then: Waiting::Halt { guild_id },
                }),
                None => step == (Step::Perform {
                    action: Action::Leave { guild_id },
                    then: Waiting::Leave,
                }),
            }
        }
    }

    /// The step that asks how far the track of a guild has come.
    pub open spec fn asks_position(self, guild_id: u64, step: Step) -> bool {
        if !self.calls.contains_key(guild_id) {
            step.reports(Error::NotInAnyChannel.spec_message())
        } else {
            match self.calls[guild_id].now_playing {
                None => step.reports(Error::NoSongIsPlaying.spec_message()),
                Some(playing) => step == (Step::Perform {
                    action: Action::Position { id: playing.h },
                    then: Waiting::Position { track: playing.t },
                }),
            }
        }
    }

    /// What the end of a track leads to.
    pub open spec fn track_end_of(self, id: u128) -> TrackEnd {
        if !self.track_calls.contains_key(id) {
            TrackEnd::NotPlayed
        } else {
            let guild_id = self.track_calls[id];
            if !self.calls.contains_key(guild_id) {
                TrackEnd::NoQueue { guild_id }
            } else {
                match self.calls[guild_id].now_playing {
                    None => TrackEnd::NothingPlaying { guild_id },
                    Some(playing) => if playing.h != id {
                        TrackEnd::OtherPlaying { playing: playing.h }
                    } else if self.calls[guild_id].advanced().q.len() == 0 {
                        TrackEnd::QueueEnded
                    } else {
                        TrackEnd::Next {
                            guild_id,
                            track: self.calls[guild_id].advanced().q[0],
                        }
                    },
                }
            }
        }
    }

    /// The bot after the end of a track: the playback is forgotten, and if it
    /// is the one going on in its guild, the queue there moves on.
    pub open spec fn after_track_end(self, id: u128) -> HandlerView {
        match self.track_end_of(id) {
            TrackEnd::QueueEnded | TrackEnd::Next { .. } => {
                let guild_id = self.track_calls[id];
                self.without_playback(id).with_call(guild_id, self.calls[guild_id].advanced())
            },
            _ => self.without_playback(id),
        }
    }

    /// A command can go on from here: the call it goes on in is there, or is
    /// not there yet if it was to be joined.
    pub open spec fn holds(self, waiting: Waiting) -> bool {
        match waiting {
            Waiting::Join { guild_id, .. } | Waiting::Deafen { guild_id, .. } =>
                !self.calls.contains_key(guild_id),
            Waiting::Fetch { guild_id, .. } => self.calls.contains_key(guild_id),
            Waiting::Start { guild_id, .. } => self.calls.contains_key(guild_id),
            Waiting::Stop { guild_id } => self.calls.contains_key(guild_id),
            _ => true,
        }
    }

    /// What is to be shown can be shown: a queue that is to be listed, and the
    /// time left of a track, which is not beyond its end.
    pub open spec fn can_show(self, waiting: Waiting, event: Event) -> bool {
        match (waiting, event) {
            (Waiting::Guild { request: Request::Queue, .. }, Event::Guild { guild }) =>
                self.calls.contains_key(guild.id) ==> listable(self.calls[guild.id].q),
            (Waiting::Position { track }, Event::Position { position }) => has_showable_rest(
                track,
                position,
            ),
            _ => true,
        }
    }

    /// An event can be taken: it is what is waited for, the command can go on
    /// from here, and what is to be shown can be shown.
    pub open spec fn accepts(self, waiting: Waiting, event: Event) -> bool {
        &&& waiting.is_answered_by(event)
        &&& self.holds(waiting)
        &&& self.can_show(waiting, event)
    }
}

/// The whole seconds left of a span.
pub open spec fn seconds_left(duration: Duration, position: Duration) -> nat {
    ((duration@ - position@) as nat) / NANOS_PER_SEC as nat
}

/// What is left of a track can be shown, where that is to be: the position is
/// not beyond the end.
pub open spec fn has_showable_rest(track: Track, position: Result<Duration, String>) -> bool {
    match (track.metadata.duration, position) {
        (Some(duration), Ok(position)) => position@ <= duration@ && showable(
            seconds_left(duration, position),
        ),
        _ => true,
    }
}

/// What is said of a track that is playing.
pub open spec fn playing_text(track: Track, duration: Duration, position: Duration) -> Seq<char> {
    "Playing: "@ + track.title_text() + "\nLeft: "@ + shown(seconds_left(duration, position))
}

/// The step that tells of the track that is playing, from what asking for its
/// position came to.
pub open spec fn tells_position(
    track: Track,
    position: Result<Duration, String>,
    step: Step,
) -> bool {
    match position {
        Err(text) => step.reports(text@),
        Ok(position) => match track.metadata.duration {
            None => step.reports(Error::NoDurationMetadata.spec_message()),
            Some(duration) => step.says(playing_text(track, duration, position)),
        },
    }
}

/// The first step of a play command, from what reading its link came to.
pub open spec fn starts_play(
    link: Seq<char>,
    url: Option<Seq<char>>,
    author_id: u64,
    step: Step,
) -> bool {
    match url {
        None => step.replies("unable to parse URL "@ + quoted(link)),
        Some(url) => {
            &&& step matches Step::Perform {
                action: Action::FindGuild,
                then: Waiting::Guild {
                    author_id: a,
                    request: Request::InCall { errand: Errand::Play { url: u } },
                },
            }
            &&& a == author_id
            &&& u@ == url
        },
    }
}

/// The step that looks up the guild for a request.
pub open spec fn asks_guild(author_id: u64, request: Request) -> Step {
    Step::Perform { action: Action::FindGuild, then: Waiting::Guild { author_id, request } }
}

/// The first step for a message.
pub open spec fn starts_message(content: Seq<char>, author_id: u64, step: Step) -> bool {
    match command_in(content) {
        None => step == Step::Done,
        Some(CommandView::Play { link }) => starts_play(link, url_read(link), author_id, step),
        Some(CommandView::Skip) => step == asks_guild(
            author_id,
            Request::InCall { errand: Errand::Skip },
        ),
        Some(CommandView::Queue) => step == asks_guild(author_id, Request::Queue),
        Some(CommandView::Disconnect) => step == asks_guild(author_id, Request::Disconnect),
        Some(CommandView::Playing) => step == asks_guild(author_id, Request::Playing),
        Some(CommandView::Help) => step.reports(Error::Help.spec_message()),
    }
}

/// How a command goes on with an event: the bot after it, and the next step.
pub open spec fn goes_on(
    before: HandlerView,
    waiting: Waiting,
    event: Event,
    after: HandlerView,
    step: Step,
) -> bool {
    match (waiting, event) {
        (Waiting::Guild { author_id, request }, Event::Guild { guild }) => match request {
            Request::InCall { errand } => {
                &&& after == before
                &&& before.enters_call(guild, author_id, errand, step)
            },
            Request::Queue => after == before && before.lists_queue(guild.id, step),
            Request::Disconnect => {
                &&& after == before.without_call(guild.id)
                &&& before.leaves(guild.id, step)
            },
            Request::Playing => after == before && before.asks_position(guild.id, step),
        },
        (Waiting::Join { guild_id, channel_id, errand }, Event::Done { result }) => {
            &&& after == before
            &&& match result {
                Ok(_) => step == (Step::Perform {
                    action: Action::Deafen { guild_id },
                    then: Waiting::Deafen { guild_id, channel_id, errand },
                }),
                Err(text) => step.reports(text@),
            }
        },
        (Waiting::Deafen { guild_id, channel_id, errand }, Event::Done { result }) => match result {
            Ok(_) => {
                &&& after == before.with_call(guild_id, CallView::opened(guild_id, channel_id))
                &&& after.starts_errand(guild_id, errand, step)
            },
            Err(text) => after == before && step.reports(text@),
        },
        (Waiting::Fetch { guild_id, url }, Event::Fetched { fetched }) => match fetched {
            Ok(metadata) => {
                let track = Track { metadata, url };
                let call = before.calls[guild_id];
                &&& after == before.with_call(guild_id, call.queued(track))
                &&& step == (if call.now_playing is None {
                    starts_track(guild_id, track)
                } else {
                    Step::Done
                })
            },
            Err(text) => after == before && step.reports(text@),
        },
        (Waiting::Start { guild_id, track }, Event::Started { song }) => match song {
            Ok(id) => after == before.playing(guild_id, track, id) && step == Step::Done,
            Err(text) => after == before && step.reports(text@),
        },
        (Waiting::Stop { guild_id }, Event::Done { result }) => match result {
            Ok(_) => {
                let call = before.calls[guild_id].advanced();
                &&& after == before.with_call(guild_id, call)
                &&& step == (if call.q.len() > 0 {
                    starts_track(guild_id, call.q[0])
                } else {
                    Step::Done
                })
            },
            Err(text) => after == before && step.reports(text@),
        },
        (Waiting::Position { track }, Event::Position { position }) => {
            &&& after == before
            &&& tells_position(track, position, step)
        },
        (Waiting::Halt { guild_id }, Event::Done { .. }) => {
            &&& after == before
            &&& step == (Step::Perform {
                action: Action::Leave { guild_id },
                then: Waiting::Leave,
            })
        },
        (Waiting::Leave, Event::Done { result }) | (Waiting::Sent, Event::Done { result }) => {
            &&& after == before
            &&& match result {
                Ok(_) => step == Step::Done,
                Err(text) => step.reports(text@),
            }
        },
        (Waiting::Reported, Event::Done { .. }) => after == before && step == Step::Done,
        _ => true,
    }
}

/// The step that starts a track.
pub open spec fn starts_track(guild_id: u64, track: Track) -> Step {
    Step::Perform {
        action: Action::Start { guild_id, track },
        then: Waiting::Start { guild_id, track },
    }
}

/// The step that starts a track.
fn start_step(guild_id: u64, track: Track) -> (step: Step)
    ensures
        step == starts_track(guild_id, track),
{
    Step::Perform {
        action: Action::Start { guild_id, track: track.clone() },
        then: Waiting::Start { guild_id, track },
    }
}

/// The first step of a play command, from what reading its link came to.
pub fn play_link(link: &str, url: Result<String, BadUrl>, author_id: u64) -> (step: Step)
    ensures
        starts_play(
            link@,
            (match url {
                Ok(url) => Some(url@),
                Err(_) => None,
            }),
            author_id,
            step,
        ),
{
    match url {
        Ok(url) => Step::Perform {
            action: Action::FindGuild,
            then: Waiting::Guild {
                author_id,
                request: Request::InCall { errand: Errand::Play { url } },
            },
        },
        Err(_) => {
            let mut text = "unable to parse URL ".to_owned();
            text.append(quote(link).as_str());
            Step::reply(text)
        },
    }
}

/// Tells of the track that is playing, from what asking for its position came
/// to.
pub fn tell_position(track: &Track, position: Result<Duration, String>) -> (step: Step)
    requires
        has_showable_rest(*track, position),
    ensures
        tells_position(*track, position, step),
{
    match position {
        Err(text) => Step::report(&Error::Failed { text }),
        Ok(position) => match &track.metadata.duration {
            None => Step::report(&Error::NoDurationMetadata),
            Some(duration) => {
                let left: Duration = duration.minus(&position);
                let mut text = "Playing: ".to_owned();
                text.append(track.name().as_str());
                text.append("\nLeft: ");
                text.append(format_duration(&left).as_str());
                Step::say(text)
            },
        },
    }
}

impl Handler {
    /// A bot without calls.
    pub fn new() -> (handler: Handler)
        ensures
            handler@ == HandlerView::idle(),
            handler@.is_well_formed(),
    {
        let handler = Handler { calls: HashMap::new(), track_calls: HashMap::new() };
        assert(handler@.calls =~= Map::empty());
        handler
    }

    /// Takes the call of a guild out.
    fn take_call(&mut self, guild_id: u64) -> (call: Option<CallQueue>)
        ensures
            final(self)@ == old(self)@.without_call(guild_id),
            match call {
                Some(call) => old(self)@.calls.contains_key(guild_id) && call@
                    == old(self)@.calls[guild_id],
                None => !old(self)@.calls.contains_key(guild_id),
            },
    {
        let call = self.calls.remove(&guild_id);
        assert(self@ =~= old(self)@.without_call(guild_id));
        call
    }

    /// Puts the call of a guild in.
    fn put_call(&mut self, guild_id: u64, call: CallQueue)
        ensures
            final(self)@ == old(self)@.with_call(guild_id, call@),
    {
        let ghost view = call@;
        self.calls.insert(guild_id, call);
        assert(self@ =~= old(self)@.with_call(guild_id, view));
    }

    /// The first step for a message.
    pub fn message(content: &str, author_id: u64) -> (step: Step)
        ensures
            starts_message(content@, author_id, step),
            step.is_consistent(),
            step matches Step::Perform { then, .. } ==> forall|handler: HandlerView| #[trigger]
                handler.holds(then),
            step.actions_left() <= 6,
    {
        let request: Request = match parse_command(content) {
            None => {
                return Step::Done;
            },
            Some(Command::Play { link }) => {
                return play_link(link.as_str(), parse_url(link.as_str()), author_id);
            },
            Some(Command::Help) => {
                return Step::report(&Error::Help);
            },
            Some(Command::Skip) => Request::InCall { errand: Errand::Skip },
            Some(Command::Queue) => Request::Queue,
            Some(Command::Disconnect) => Request::Disconnect,
            Some(Command::Playing) => Request::Playing,
        };
        Step::Perform { action: Action::FindGuild, then: Waiting::Guild { author_id, request } }
    }

    /// The call of a guild, if the bot is in one.
    pub fn get_call_by_guild_id(&self, guild_id: u64) -> (call: Option<&CallQueue>)
        ensures
            match call {
                Some(call) => self@.calls.contains_key(guild_id) && call@ == self@.calls[guild_id],
                None => !self@.calls.contains_key(guild_id),
            },
    {
        self.calls.get(&guild_id)
    }

    /// How the call of a channel is come by. The bot is in one channel of a
    /// guild at most.
    pub fn get_call_by_channel_id(&self, guild_id: u64, channel_id: u64) -> (res: Result<
        Reach,
        Error,
    >)
        ensures
            res == self@.reach(guild_id, channel_id),
    {
        match self.get_call_by_guild_id(guild_id) {
            Some(call) => {
                if call.channel_id != channel_id {
                    Err(Error::AlreadyInAnotherChannel { channel_id })
                } else {
                    Ok(Reach::Joined)
                }
            },
            None => Ok(Reach::ToJoin),
        }
    }

    /// The first step of an errand in a call that the bot is in.
    fn start_errand(&self, guild_id: u64, errand: Errand) -> (step: Step)
        requires
            self@.calls.contains_key(guild_id),
        ensures
            self@.starts_errand(guild_id, errand, step),
    {
        match errand {
            Errand::Play { url } => Step::Perform {
                action: Action::Fetch { url: url.clone() },
                then: Waiting::Fetch { guild_id, url },
            },
            Errand::Skip => self.skip(guild_id),
        }
    }

    /// The first step of a skip in a call that the bot is in.
    pub fn skip(&self, guild_id: u64) -> (step: Step)
        requires
            self@.calls.contains_key(guild_id),
        ensures
            self@.starts_errand(guild_id, Errand::Skip, step),
    {
        if let Some(call) = self.get_call_by_guild_id(guild_id) {
            if let Some(playing) = &call.now_playing {
                return Step::Perform {
                    action: Action::Stop { id: playing.h },
                    then: Waiting::Stop { guild_id },
                };
            }
        }
        Step::say("Nothing playing to skip".to_owned())
    }

    /// The step of an errand once the guild is known: the author's channel is
    /// joined, unless the bot is in it.
    pub fn get_or_join_call(&self, guild: &Guild, author_id: u64, errand: Errand) -> (step: Step)
        ensures
            self@.enters_call(*guild, author_id, errand, step),
    {
        match guild.voice_channel(author_id) {
            None => Step::report(&Error::NotInAVoiceChannel),
            Some(channel_id) => match self.get_call_by_channel_id(guild.id, channel_id) {
                Ok(Reach::Joined) => self.start_errand(guild.id, errand),
                Ok(Reach::ToJoin) => Step::Perform {
                    action: Action::Join { guild_id: guild.id, channel_id },
                    then: Waiting::Join { guild_id: guild.id, channel_id, errand },
                },
                Err(error) => Step::report(&error),
            },
        }
    }

    /// The step that lists the queue of a guild.
    pub fn print_queue(&self, guild_id: u64) -> (step: Step)
        requires
            self@.calls.contains_key(guild_id) ==> listable(self@.calls[guild_id].q),
        ensures
            self@.lists_queue(guild_id, step),
    {
        match self.get_call_by_guild_id(guild_id) {
            None => Step::report(&Error::NotInAnyChannel),
            Some(call) => match list_queue(&call.q) {
                Ok(text) => Step::say(text),
                Err(error) => Step::report(&error),
            },
        }
    }

    /// Forgets the call of a guild, and gives the step that leaves it.
    pub fn disconnect(&mut self, guild_id: u64) -> (step: Step)
        ensures
            final(self)@ == old(self)@.without_call(guild_id),
            old(self)@.leaves(guild_id, step),
            old(self)@.is_well_formed() ==> final(self)@.is_well_formed(),
    {
        match self.take_call(guild_id) {
            None => Step::report(&Error::NotInAnyVoiceChannel),
            Some(call) => match &call.now_playing {
                Some(playing) => Step::Perform {
                    action: Action::Stop { id: playing.h },
                    then: Waiting::Halt { guild_id },
                },
                None => Step::Perform { action: Action::Leave { guild_id }, then: Waiting::Leave },
            },
        }
    }

    /// The step that asks how far the track of a guild has come.
    pub fn playing(&self, guild_id: u64) -> (step: Step)
        ensures
            self@.asks_position(guild_id, step),
    {
        match self.get_call_by_guild_id(guild_id) {
            None => Step::report(&Error::NotInAnyChannel),
            Some(call) => match &call.now_playing {
                None => Step::report(&Error::NoSongIsPlaying),
                Some(playing) => Step::Perform {
                    action: Action::Position { id: playing.h },
                    then: Waiting::Position { track: playing.t.clone() },
                },
            },
        }
    }

    /// Puts a track that was fetched at the end of a queue. It is started at
    /// once if nothing is playing there.
    pub fn play(&mut self, guild_id: u64, url: String, fetched: Result<Metadata, String>) -> (step:
        Step)
        requires
            old(self)@.calls.contains_key(guild_id),
        ensures
            goes_on(
                old(self)@,
                Waiting::Fetch { guild_id, url },
                Event::Fetched { fetched },
                final(self)@,
                step,
            ),
            old(self)@.is_well_formed() ==> final(self)@.is_well_formed(),
    {
        match Track::from_url(&url, fetched) {
            Ok(track) => {
                let mut start: bool = false;
                if let Some(mut call) = self.take_call(guild_id) {
                    start = call.enqueue(track.clone());
                    self.put_call(guild_id, call);
                }
                assert(self@ =~= old(self)@.with_call(
                    guild_id,
                    old(self)@.calls[guild_id].queued(track),
                ));
                if start {
                    start_step(guild_id, track)
                } else {
                    Step::Done
                }
            },
            Err(text) => Step::report(&Error::Failed { text }),
        }
    }

    /// Notes which guild a playback belongs to, if the track was started.
    pub fn start_track(&mut self, guild_id: u64, song: Result<u128, String>) -> (res: Result<
        u128,
        String,
    >)
        ensures
            res == song,
            final(self)@ == (match song {
                Ok(id) => old(self)@.with_playback(id, guild_id),
                Err(_) => old(self)@,
            }),
    {
        if let Ok(id) = &song {
            self.track_calls.insert(*id, guild_id);
        }
        song
    }

    /// Notes that a track is playing in a guild, if it was started.
    pub fn track_started(
        &mut self,
        guild_id: u64,
        track: Track,
        song: Result<u128, String>,
    ) -> (res: Result<(), String>)
        requires
            old(self)@.calls.contains_key(guild_id),
        ensures
            match song {
                Ok(id) => {
                    &&& res == Ok::<(), String>(())
                    &&& final(self)@ == old(self)@.playing(guild_id, track, id)
                },
                Err(text) => res == Err::<(), String>(text) && final(self)@ == old(self)@,
            },
            old(self)@.is_well_formed() ==> final(self)@.is_well_formed(),
    {
        match self.start_track(guild_id, song) {
            Ok(id) => {
                if let Some(mut call) = self.take_call(guild_id) {
                    call.play(track, id);
                    self.put_call(guild_id, call);
                }
                assert(self@ =~= old(self)@.playing(guild_id, track, id));
                Ok(())
            },
            Err(text) => Err(text),
        }
    }

    /// Moves the queue of a guild on. Gives the track that is then to be
    /// started, if there is one.
    fn advance(&mut self, guild_id: u64) -> (next: Option<Track>)
        requires
            old(self)@.calls.contains_key(guild_id),
        ensures
            ({
                let call = old(self)@.calls[guild_id].advanced();
                &&& final(self)@ == old(self)@.with_call(guild_id, call)
                &&& next == (if call.q.len() > 0 {
                    Some(call.q[0])
                } else {
                    None
                })
            }),
    {
        let mut next: Option<Track> = None;
        if let Some(mut call) = self.take_call(guild_id) {
            next = call.advance();
            self.put_call(guild_id, call);
        }
        assert(self@ =~= old(self)@.with_call(guild_id, old(self)@.calls[guild_id].advanced()));
        next
    }

    /// Takes the end of a track: forgets its playback, and moves the queue on
    /// if it is the one going on in its guild.
    pub fn track_end(&mut self, id: u128) -> (end: TrackEnd)
        ensures
            end == old(self)@.track_end_of(id),
            final(self)@ == old(self)@.after_track_end(id),
            old(self)@.is_well_formed() ==> final(self)@.is_well_formed(),
    {
        let guild_id: u64 = match self.track_calls.remove(&id) {
            None => {
                assert(self@ =~= old(self)@.without_playback(id));
                return TrackEnd::NotPlayed;
            },
            Some(guild_id) => guild_id,
        };
        assert(self@ =~= old(self)@.without_playback(id));
        match self.get_call_by_guild_id(guild_id) {
            None => {
                return TrackEnd::NoQueue { guild_id };
            },
            Some(call) => match &call.now_playing {
                None => {
                    return TrackEnd::NothingPlaying { guild_id };
                },
                Some(playing) => {
                    if playing.h != id {
                        return TrackEnd::OtherPlaying { playing: playing.h };
                    }
                },
            },
        }
        match self.advance(guild_id) {
            Some(track) => TrackEnd::Next { guild_id, track },
            None => TrackEnd::QueueEnded,
        }
    }

    /// Tells whether an event can be taken.
    pub fn accepts(&self, waiting: &Waiting, event: &Event) -> (accepts: bool)
        ensures
            accepts == self@.accepts(*waiting, *event),
    {
        match (waiting, event) {
            (Waiting::Guild { request, .. }, Event::Guild { guild }) => match request {
                Request::Queue => match self.get_call_by_guild_id(guild.id) {
                    Some(call) => can_list(&call.q),
                    None => true,
                },
                _ => true,
            },
            (Waiting::Join { guild_id, .. }, Event::Done { .. }) => self.get_call_by_guild_id(
                *guild_id,
            ).is_none(),
            (Waiting::Deafen { guild_id, .. }, Event::Done { .. }) => self.get_call_by_guild_id(
                *guild_id,
            ).is_none(),
            (Waiting::Fetch { guild_id, .. }, Event::Fetched { .. }) => self.get_call_by_guild_id(
                *guild_id,
            ).is_some(),
            (Waiting::Start { guild_id, .. }, Event::Started { .. }) => self.get_call_by_guild_id(
                *guild_id,
            ).is_some(),
            (Waiting::Stop { guild_id }, Event::Done { .. }) => self.get_call_by_guild_id(
                *guild_id,
            ).is_some(),
            (Waiting::Position { track }, Event::Position { position }) => match (
                &track.metadata.duration,
                position,
            ) {
                (Some(duration), Ok(position)) => !duration.shorter_than(position) && can_show(
                    &duration.minus(position),
                ),
                _ => true,
            },
            (Waiting::Halt { .. }, Event::Done { .. }) => true,
            (Waiting::Leave, Event::Done { .. }) => true,
            (Waiting::Sent, Event::Done { .. }) => true,
            (Waiting::Reported, Event::Done { .. }) => true,
            _ => false,
        }
    }

    /// Goes on with a command, from what came of its last action.
    pub fn resume(&mut self, waiting: Waiting, event: Event) -> (step: Step)
        requires
            old(self)@.accepts(waiting, event),
        ensures
            goes_on(old(self)@, waiting, event, final(self)@, step),
            step.is_consistent(),
            step.actions_left() < waiting.actions_left(),
            step matches Step::Perform { then, .. } ==> final(self)@.holds(then),
            old(self)@.is_well_formed() ==> final(self)@.is_well_formed(),
    {
        match (waiting, event) {
            (Waiting::Guild { author_id, request }, Event::Guild { guild }) => match request {
                Request::InCall { errand } => self.get_or_join_call(&guild, author_id, errand),
                Request::Queue => self.print_queue(guild.id),
                Request::Disconnect => self.disconnect(guild.id),
                Request::Playing => self.playing(guild.id),
            },
            (Waiting::Join { guild_id, channel_id, errand }, Event::Done { result }) => {
                match result {
                    Ok(_) => Step::Perform {
                        action: Action::Deafen { guild_id },
                        then: Waiting::Deafen { guild_id, channel_id, errand },
                    },
                    Err(text) => Step::report(&Error::Failed { text }),
                }
            },
            (Waiting::Deafen { guild_id, channel_id, errand }, Event::Done { result }) => {
                match result {
                    Ok(_) => {
                        self.put_call(guild_id, CallQueue::new(guild_id, channel_id));
                        self.start_errand(guild_id, errand)
                    },
                    Err(text) => Step::report(&Error::Failed { text }),
                }
            },
            (Waiting::Fetch { guild_id, url }, Event::Fetched { fetched }) => self.play(
                guild_id,
                url,
                fetched,
            ),
            (Waiting::Start { guild_id, track }, Event::Started { song }) => Step::finish(
                self.track_started(guild_id, track, song),
            ),
            (Waiting::Stop { guild_id }, Event::Done { result }) => match result {
                Ok(_) => match self.advance(guild_id) {
                    Some(track) => start_step(guild_id, track),
                    None => Step::Done,
                },
                Err(text) => Step::report(&Error::Failed { text }),
            },
            (Waiting::Position { track }, Event::Position { position }) => tell_position(
                &track,
                position,
            ),
            (Waiting::Halt { guild_id }, Event::Done { .. }) => Step::Perform {
                action: Action::Leave { guild_id },
                then: Waiting::Leave,
            },
            (Waiting::Leave, Event::Done { result }) => Step::finish(result),
            (Waiting::Sent, Event::Done { result }) => Step::finish(result),
            _ => Step::Done,
        }
    }
}

} // verus!
