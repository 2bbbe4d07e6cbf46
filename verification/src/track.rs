//! Tracks: what is played, and what is known of it.

use crate::duration::{format_duration, shown, showable, Duration};
use vstd::prelude::*;

verus! {

/// What the source of a track tells of it.
#[derive(Debug)]
pub struct Metadata {
    pub title: Option<String>,
    pub artist: Option<String>,
    pub duration: Option<Duration>,
}

/// A track in a queue: its metadata and the URL it is played from.
#[derive(Debug)]
pub struct Track {
    pub metadata: Metadata,
    pub url: String,
}

/// Copies a text that may be absent.
fn copy_text(text: &Option<String>) -> (copy: Option<String>)
    ensures
        copy == *text,
{
    match text {
        Some(s) => Some(s.clone()),
        None => None,
    }
}

impl Clone for Metadata {
    fn clone(&self) -> (copy: Self)
        ensures
            copy == *self,
    {
        Metadata {
            title: copy_text(&self.title),
            artist: copy_text(&self.artist),
            duration: self.duration,
        }
    }
}

impl Clone for Track {
    fn clone(&self) -> (copy: Self)
        ensures
            copy == *self,
    {
        Track { metadata: self.metadata.clone(), url: self.url.clone() }
    }
}

impl Track {
    /// The title, or a stand-in for it.
    pub open spec fn title_text(self) -> Seq<char> {
        match self.metadata.title {
            None => "<no title>"@,
            Some(s) => s@,
        }
    }

    /// The artist, or a stand-in for it.
    pub open spec fn artist_text(self) -> Seq<char> {
        match self.metadata.artist {
            None => "<no artist>"@,
            Some(s) => s@,
        }
    }

    /// The duration as it is shown, or a stand-in for it.
    pub open spec fn duration_text(self) -> Seq<char> {
        match self.metadata.duration {
            None => "<no duration>"@,
            Some(d) => shown(d.seconds()),
        }
    }

    /// Whether the duration, where there is one, can be shown.
    pub open spec fn has_showable_duration(self) -> bool {
        self.metadata.duration matches Some(d) ==> showable(d.seconds())
    }

    /// The track at a URL, from what fetching its metadata came to.
    pub fn from_url(url: &String, fetched: Result<Metadata, String>) -> (res: Result<Self, String>)
        ensures
            match fetched {
                Ok(metadata) => res == Ok::<Track, String>(Track { metadata, url: *url }),
                Err(e) => res == Err::<Track, String>(e),
            },
    {
        match fetched {
            Ok(metadata) => Ok(Track { metadata, url: url.clone() }),
            Err(e) => Err(e),
        }
    }

    /// The title of the track.
    pub fn name(&self) -> (text: String)
        ensures
            text@ == self.title_text(),
    {
        match &self.metadata.title {
            None => "<no title>".to_owned(),
            Some(s) => s.clone(),
        }
    }

    /// The artist of the track.
    pub fn artist(&self) -> (text: String)
        ensures
            text@ == self.artist_text(),
    {
        match &self.metadata.artist {
            None => "<no artist>".to_owned(),
            Some(s) => s.clone(),
        }
    }

    /// How long the track is.
    pub fn duration(&self) -> (text: String)
        requires
            self.has_showable_duration(),
        ensures
            text@ == self.duration_text(),
    {
        match &self.metadata.duration {
            None => "<no duration>".to_owned(),
            Some(d) => format_duration(d),
        }
    }
}

} // verus!
