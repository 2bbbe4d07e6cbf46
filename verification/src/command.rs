//! The commands that the bot takes from messages.

use crate::text::{begins_with, same_text, trim, trimmed};
use vstd::prelude::*;

verus! {

/// What a message asks of the bot.
#[derive(Debug, PartialEq, Eq)]
pub enum Command {
    /// Play what is at a link.
    Play { link: String },
    /// Go on to the next track.
    Skip,
    /// List the queue.
    Queue,
    /// Leave the call.
    Disconnect,
    /// Tell what is playing.
    Playing,
    /// List the commands.
    Help,
}

/// A command with its text as a sequence of characters.
pub enum CommandView {
    Play { link: Seq<char> },
    Skip,
    Queue,
    Disconnect,
    Playing,
    Help,
}

impl View for Command {
    type V = CommandView;

    open spec fn view(&self) -> CommandView {
        match *self {
            Command::Play { link } => CommandView::Play { link: link@ },
            Command::Skip => CommandView::Skip,
            Command::Queue => CommandView::Queue,
            Command::Disconnect => CommandView::Disconnect,
            Command::Playing => CommandView::Playing,
            Command::Help => CommandView::Help,
        }
    }
}

/// What a message that starts with a quotation mark asks for, by what follows
/// the mark.
pub open spec fn asked(rest: Seq<char>) -> Option<CommandView> {
    if "play "@.is_prefix_of(rest) {
        Some(CommandView::Play { link: trimmed(rest.skip(5)) })
    } else if rest == "skip"@ {
        Some(CommandView::Skip)
    } else if rest == "queue"@ {
        Some(CommandView::Queue)
    } else if rest == "disconnect"@ {
        Some(CommandView::Disconnect)
    } else if rest == "playing"@ {
        Some(CommandView::Playing)
    } else if rest == "help"@ {
        Some(CommandView::Help)
    } else {
        None
    }
}

/// The command in a message, if there is one.
pub open spec fn command_in(content: Seq<char>) -> Option<CommandView> {
    if content.len() > 0 && content[0] == '"' {
        asked(content.skip(1))
    } else {
        None
    }
}

/// Reads the command in a message.
pub fn parse_command(content: &str) -> (command: Option<Command>)
    ensures
        match command_in(content@) {
            Some(wanted) => command matches Some(c) && c@ == wanted,
            None => command is None,
        },
{
    let len: usize = content.unicode_len();
    if len == 0 || content.get_char(0) != '"' {
        return None;
    }
    let rest: &str = content.substring_char(1, len);
    assert(rest@ == content@.skip(1));
    proof {
        reveal_strlit("play ");
    }
    if begins_with(rest, "play ") {
        let link: &str = trim(rest.substring_char(5, len - 1));
        assert(rest@.subrange(5, len - 1) == rest@.skip(5));
        Some(Command::Play { link: link.to_owned() })
    } else if same_text(rest, "skip") {
        Some(Command::Skip)
    } else if same_text(rest, "queue") {
        Some(Command::Queue)
    } else if same_text(rest, "disconnect") {
        Some(Command::Disconnect)
    } else if same_text(rest, "playing") {
        Some(Command::Playing)
    } else if same_text(rest, "help") {
        Some(Command::Help)
    } else {
        None
    }
}

} // verus!
