//! What the player tells of the songs it plays.

use vstd::prelude::*;

verus! {

/// How a track stands with the player.
#[derive(Clone, Copy, Debug, PartialEq, Eq, Structural)]
pub enum PlayMode {
    Play,
    Pause,
    /// The track was stopped by hand.
    Stop,
    /// The track came to its end.
    End,
    /// Any other state the player may have.
    Other,
}

/// What an event of the player is about.
#[derive(Debug)]
pub enum EventContext {
    /// Tracks, each with its state and its id.
    Track { tracks: Vec<(PlayMode, u128)> },
    /// Anything else.
    Other,
}

/// The id of the track that has come to its end, if an event says so: an event
/// about a single track that has ended.
pub fn song_ended(context: &EventContext) -> (ended: Option<u128>)
    ensures
        ended == (match *context {
            EventContext::Track { tracks } => if tracks@.len() == 1 && tracks@[0].0
                == PlayMode::End {
                Some(tracks@[0].1)
            } else {
                None
            },
            EventContext::Other => None,
        }),
{
    match context {
        EventContext::Track { tracks } => {
            if tracks.len() == 1 && tracks[0].0 == PlayMode::End {
                Some(tracks[0].1)
            } else {
                None
            }
        },
        EventContext::Other => None,
    }
}

} // verus!
