//! The steps in which a command is carried out. The bot decides what is to be
//! done; what came of it decides how it goes on.

use crate::duration::Duration;
use crate::error::{report_error, Error};
use crate::track::{Metadata, Track};
use std::collections::HashMap;
use vstd::prelude::*;

verus! {

/// Where a member of a guild is heard.
#[derive(Clone, Copy, Debug)]
pub struct VoiceState {
    pub channel_id: Option<u64>,
}

/// A guild: its id and the voice states of its members, by their ids.
#[derive(Debug)]
pub struct Guild {
    pub id: u64,
    pub voice_states: HashMap<u64, VoiceState>,
}

impl Guild {
    /// The voice channel that a member is in.
    pub open spec fn channel_of(self, user_id: u64) -> Option<u64> {
        if self.voice_states@.contains_key(user_id) {
            self.voice_states@[user_id].channel_id
        } else {
            None
        }
    }

    /// Finds the voice channel that a member is in.
    pub fn voice_channel(&self, user_id: u64) -> (channel_id: Option<u64>)
        ensures
            channel_id == self.channel_of(user_id),
    {
        broadcast use vstd::std_specs::hash::group_hash_axioms;

        match self.voice_states.get(&user_id) {
            Some(state) => state.channel_id,
            None => None,
        }
    }
}

/// What is done in a call that the author of a message is in.
#[derive(Debug)]
pub enum Errand {
    Play { url: String },
    Skip,
}

/// What is done in a guild.
#[derive(Debug)]
pub enum Request {
    /// Something in the author's call, which is joined if need be.
    InCall { errand: Errand },
    Queue,
    Disconnect,
    Playing,
}

/// Something to be done outside.
#[derive(Debug)]
pub enum Action {
    /// Look up the guild that the message came from.
    FindGuild,
    /// Join a voice channel.
    Join { guild_id: u64, channel_id: u64 },
    /// Go deaf in the call just joined.
    Deafen { guild_id: u64 },
    /// Fetch the metadata of what is at a URL.
    Fetch { url: String },
    /// Start to play a track in the call of a guild.
    Start { guild_id: u64, track: Track },
    /// Stop a playback.
    Stop { id: u128 },
    /// Ask how far a playback has come.
    Position { id: u128 },
    /// Leave the call of a guild.
    Leave { guild_id: u64 },
    /// Say something in the channel of the message.
    Say { text: String },
    /// Reply to the message.
    Reply { text: String },
}

/// What came of an action. A failure comes with its text.
#[derive(Debug)]
pub enum Event {
    /// The guild was found.
    Guild { guild: Guild },
    /// The metadata was fetched, or not.
    Fetched { fetched: Result<Metadata, String> },
    /// The track was started and its playback has this id, or not.
    Started { song: Result<u128, String> },
    /// The playback has come this far, or there is no telling.
    Position { position: Result<Duration, String> },
    /// Any other action was done, or not.
    Done { result: Result<(), String> },
}

/// How a command goes on when it is known what came of the last action.
#[derive(Debug)]
pub enum Waiting {
    /// For the guild.
    Guild { author_id: u64, request: Request },
    /// For a channel to be joined.
    Join { guild_id: u64, channel_id: u64, errand: Errand },
    /// For the bot to be deaf there.
    Deafen { guild_id: u64, channel_id: u64, errand: Errand },
    /// For the metadata of a track to be queued.
    Fetch { guild_id: u64, url: String },
    /// For a track to start.
    Start { guild_id: u64, track: Track },
    /// For a track to stop that is to be skipped.
    Stop { guild_id: u64 },
    /// For the position in the track that is playing.
    Position { track: Track },
    /// For the track to stop that was playing in a call to be left.
    Halt { guild_id: u64 },
    /// For a call to be left.
    Leave,
    /// For an answer to be sent.
    Sent,
    /// For an error to be reported.
    Reported,
}

/// The next step of a command.
#[derive(Debug)]
pub enum Step {
    /// There is nothing left to do.
    Done,
    /// An action, and how to go on after it.
    Perform { action: Action, then: Waiting },
}

impl Waiting {
    /// Whether an event is what is waited for.
    pub open spec fn is_answered_by(self, event: Event) -> bool {
        match self {
            Waiting::Guild { .. } => event is Guild,
            Waiting::Fetch { .. } => event is Fetched,
            Waiting::Start { .. } => event is Started,
            Waiting::Position { .. } => event is Position,
            _ => event is Done,
        }
    }

    /// A bound on the actions that are still to come, the one waited for
    /// counted in.
    pub open spec fn actions_left(self) -> nat {
        match self {
            Waiting::Guild { .. } => 6,
            Waiting::Join { .. } => 5,
            Waiting::Deafen { .. } => 4,
            Waiting::Fetch { .. } => 3,
            Waiting::Stop { .. } => 3,
            Waiting::Position { .. } => 3,
            Waiting::Halt { .. } => 3,
            Waiting::Start { .. } => 2,
            Waiting::Leave => 2,
            Waiting::Sent => 2,
            Waiting::Reported => 1,
        }
    }
}

impl Action {
    /// Whether what comes of the action is an event of a certain kind.
    pub open spec fn gives(self, event: Event) -> bool {
        match self {
            Action::FindGuild => event is Guild,
            Action::Fetch { .. } => event is Fetched,
            Action::Start { .. } => event is Started,
            Action::Position { .. } => event is Position,
            _ => event is Done,
        }
    }
}

impl Step {
    /// The step says a text in the channel.
    pub open spec fn says(self, text: Seq<char>) -> bool {
        self matches Step::Perform { action: Action::Say { text: t }, then } && t@ == text && then
            == Waiting::Sent
    }

    /// The step replies to the message.
    pub open spec fn replies(self, text: Seq<char>) -> bool {
        self matches Step::Perform { action: Action::Reply { text: t }, then } && t@ == text && then
            == Waiting::Sent
    }

    /// The step reports an error in the channel, the last thing a command does.
    pub open spec fn reports(self, text: Seq<char>) -> bool {
        self matches Step::Perform { action: Action::Say { text: t }, then } && t@ == "err: "@
            + text && then == Waiting::Reported
    }

    /// A bound on the actions that are still to come.
    pub open spec fn actions_left(self) -> nat {
        match self {
            Step::Done => 0,
            Step::Perform { then, .. } => then.actions_left(),
        }
    }

    /// What comes of the action, where there is one, is what is waited for.
    pub open spec fn is_consistent(self) -> bool {
        self matches Step::Perform { action, then } ==> forall|event: Event| #[trigger]
            action.gives(event) == then.is_answered_by(event)
    }

    /// The step that says a text.
    pub fn say(text: String) -> (step: Step)
        ensures
            step.says(text@),
    {
        Step::Perform { action: Action::Say { text }, then: Waiting::Sent }
    }

    /// The step that replies to the message.
    pub fn reply(text: String) -> (step: Step)
        ensures
            step.replies(text@),
    {
        Step::Perform { action: Action::Reply { text }, then: Waiting::Sent }
    }

    /// The step that reports an error.
    pub fn report(error: &Error) -> (step: Step)
        ensures
            step.reports(error.spec_message()),
    {
        Step::Perform {
            action: Action::Say { text: report_error(error) },
            then: Waiting::Reported,
        }
    }

    /// The end of a command whose last action may have failed.
    pub fn finish(result: Result<(), String>) -> (step: Step)
        ensures
            match result {
                Ok(_) => step == Step::Done,
                Err(text) => step.reports(text@),
            },
    {
        match result {
            Ok(_) => Step::Done,
            Err(text) => Step::report(&Error::Failed { text }),
        }
    }
}

} // verus!
