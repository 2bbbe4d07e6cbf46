//! What can go wrong with a command, and how it is told.

use crate::text::{decimal, decimal_text};
use vstd::prelude::*;

verus! {

/// Why a command came to nothing.
#[derive(Debug, PartialEq, Eq)]
pub enum Error {
    /// The author of the message is in no voice channel.
    NotInAVoiceChannel,
    /// The bot is in another channel of the guild than the one asked for.
    AlreadyInAnotherChannel { channel_id: u64 },
    /// The bot is in no channel of the guild.
    NotInAnyChannel,
    /// The bot is in no channel of the guild that it could leave.
    NotInAnyVoiceChannel,
    /// There is nothing in the queue to list.
    NoSongsPlaying,
    /// There is no song to tell anything of.
    NoSongIsPlaying,
    /// The song that is playing came without a duration.
    NoDurationMetadata,
    /// Help was asked for. It is told as errors are.
    Help,
    /// Something that the bot relies on failed, and said so.
    Failed { text: String },
}

impl Error {
    /// What is said of the error.
    pub open spec fn spec_message(self) -> Seq<char> {
        match self {
            Error::NotInAVoiceChannel => "not in a voice channel"@,
            Error::AlreadyInAnotherChannel { channel_id } => "already in another channel: "@
                + decimal(channel_id as nat),
            Error::NotInAnyChannel => "not in any channel"@,
            Error::NotInAnyVoiceChannel => "not in any voice channel"@,
            Error::NoSongsPlaying => "No songs playing"@,
            Error::NoSongIsPlaying => "no song is playing"@,
            Error::NoDurationMetadata => "no duration metadata"@,
            Error::Help =>
                "```Help\n\tplay <url> - Play a url that youtube-dl supports\n\tskip - Skip\n\tqueue - Show the queueueue\n\tdisconnect\n\tplaying - Info about the playing song```"@,
            Error::Failed { text } => text@,
        }
    }

    /// Says what the error is.
    pub fn message(&self) -> (text: String)
        ensures
            text@ == self.spec_message(),
    {
        match self {
            Error::NotInAVoiceChannel => "not in a voice channel".to_owned(),
            Error::AlreadyInAnotherChannel { channel_id } => {
                let mut text = "already in another channel: ".to_owned();
                text.append(decimal_text(*channel_id).as_str());
                text
            },
            Error::NotInAnyChannel => "not in any channel".to_owned(),
            Error::NotInAnyVoiceChannel => "not in any voice channel".to_owned(),
            Error::NoSongsPlaying => "No songs playing".to_owned(),
            Error::NoSongIsPlaying => "no song is playing".to_owned(),
            Error::NoDurationMetadata => "no duration metadata".to_owned(),
            Error::Help =>
                "```Help\n\tplay <url> - Play a url that youtube-dl supports\n\tskip - Skip\n\tqueue - Show the queueueue\n\tdisconnect\n\tplaying - Info about the playing song```".to_owned(),
            Error::Failed { text } => text.clone(),
        }
    }
}

/// What the channel is told of an error.
pub open spec fn error_report(error: Error) -> Seq<char> {
    "err: "@ + error.spec_message()
}

/// Tells the channel of an error.
pub fn report_error(error: &Error) -> (text: String)
    ensures
        text@ == error_report(*error),
{
    let mut text = "err: ".to_owned();
    text.append(error.message().as_str());
    text
}

} // verus!
