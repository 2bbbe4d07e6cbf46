//! The queue that is kept with a client, and the key it is kept under.

use crate::track::Track;
use std::collections::VecDeque;
use vstd::prelude::*;

verus! {

/// The tracks that wait to be played, the next one in front.
#[derive(Debug)]
pub struct Queue {
    pub queue: VecDeque<Track>,
}

/// The key under which a client keeps its `Queue`.
#[derive(Clone, Copy, Debug)]
pub struct QueueKey;

impl Default for Queue {
    fn default() -> (queue: Self)
        ensures
            queue.queue@ == Seq::<Track>::empty(),
    {
        Queue { queue: VecDeque::new() }
    }
}

} // verus!
