//! A call of the bot: the channel it is in, what it plays there, and what
//! waits to be played.

use crate::track::Track;
use std::collections::VecDeque;
use vstd::prelude::*;

verus! {

/// A track that is playing, with the id that the player gave this playback.
#[derive(Debug)]
pub struct PlayingTrack {
    pub t: Track,
    pub h: u128,
}

/// The queue of a call. The track that is playing stays in it, in front.
#[derive(Debug)]
pub struct CallQueue {
    pub q: VecDeque<Track>,
    pub now_playing: Option<PlayingTrack>,
    pub guild_id: u64,
    pub channel_id: u64,
}

/// A call with its queue as a sequence, the next track first.
#[verifier::ext_equal]
pub struct CallView {
    pub q: Seq<Track>,
    pub now_playing: Option<PlayingTrack>,
    pub guild_id: u64,
    pub channel_id: u64,
}

impl View for CallQueue {
    type V = CallView;

    open spec fn view(&self) -> CallView {
        CallView {
            q: self.q@,
            now_playing: self.now_playing,
            guild_id: self.guild_id,
            channel_id: self.channel_id,
        }
    }
}

impl CallView {
    /// A call that was just joined.
    pub open spec fn opened(guild_id: u64, channel_id: u64) -> CallView {
        CallView { q: Seq::empty(), now_playing: None, guild_id, channel_id }
    }

    /// The call with one more track at the end of its queue.
    pub open spec fn queued(self, track: Track) -> CallView {
        CallView { q: self.q.push(track), ..self }
    }

    /// The call while it plays a track.
    pub open spec fn playing(self, track: Track, id: u128) -> CallView {
        CallView { now_playing: Some(PlayingTrack { t: track, h: id }), ..self }
    }

    /// The call with nothing playing and the front of its queue gone.
    pub open spec fn advanced(self) -> CallView {
        CallView {
            q: if self.q.len() > 0 {
                self.q.drop_first()
            } else {
                self.q
            },
            now_playing: None,
            ..self
        }
    }

    /// What plays is what stands in front, and nothing plays only where
    /// nothing waits.
    pub open spec fn plays_its_front(self) -> bool {
        match self.now_playing {
            None => self.q.len() == 0,
            Some(playing) => self.q.len() > 0 && self.q[0] == playing.t,
        }
    }
}

impl CallQueue {
    /// A call that was just joined.
    pub fn new(guild_id: u64, channel_id: u64) -> (call: CallQueue)
        ensures
            call@ == CallView::opened(guild_id, channel_id),
    {
        CallQueue { q: VecDeque::new(), now_playing: None, guild_id, channel_id }
    }

    /// Puts a track at the end of the queue. It is to be started at once if
    /// nothing is playing.
    pub fn enqueue(&mut self, track: Track) -> (start: bool)
        ensures
            final(self)@ == old(self)@.queued(track),
            start == (old(self)@.now_playing is None),
    {
        self.q.push_back(track);
        self.now_playing.is_none()
    }

    /// Notes that a track is playing.
    pub fn play(&mut self, track: Track, id: u128)
        ensures
            final(self)@ == old(self)@.playing(track, id),
    {
        self.now_playing = Some(PlayingTrack { t: track, h: id });
    }

    /// Drops what was playing and takes the front off the queue. Gives the
    /// track that is then to be started, if there is one.
    pub fn advance(&mut self) -> (next: Option<Track>)
        ensures
            final(self)@ == old(self)@.advanced(),
            next == (if final(self)@.q.len() > 0 {
                Some(final(self)@.q[0])
            } else {
                None
            }),
    {
        self.now_playing = None;
        let _ = self.q.pop_front();
        if self.q.len() > 0 {
            Some(self.q[0].clone())
        } else {
            None
        }
    }
}

} // verus!
