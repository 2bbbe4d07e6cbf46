//! The decisions of a music bot: what it answers to a message, which track
//! it plays next, and what it keeps of the calls it has joined.

pub mod call;
pub mod command;
pub mod duration;
pub mod error;
pub mod handler;
pub mod laws;
pub mod link;
pub mod operations;
pub mod queue;
pub mod song;
pub mod step;
pub mod table;
pub mod text;
pub mod track;

pub use call::{CallQueue, PlayingTrack};
pub use command::{parse_command, Command};
pub use duration::{can_show, format_duration, Duration};
pub use error::{report_error, Error};
pub use handler::{play_link, tell_position, Handler, Reach, TrackEnd};
pub use link::{parse_url, BadUrl};
pub use queue::{Queue, QueueKey};
pub use song::{song_ended, EventContext, PlayMode};
pub use step::{Action, Errand, Event, Guild, Request, Step, VoiceState, Waiting};
pub use table::{can_draw, can_list, list_queue, list_table};
pub use track::{Metadata, Track};
