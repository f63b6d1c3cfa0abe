//! What a ticket asks for: the expected content and the search constraints
//! that steer query construction.

use vstd::prelude::*;

use crate::converter::AudioFormat;

verus! {

/// Audio preferences for searching.
#[derive(Debug, Clone)]
pub struct AudioSearchConstraints {
    /// Preferred formats, most preferred first.
    pub preferred_formats: Vec<AudioFormat>,
    /// Minimum bitrate for lossy formats.
    pub min_bitrate_kbps: Option<u32>,
    /// Avoid compilation releases.
    pub avoid_compilations: bool,
    /// Avoid live recordings.
    pub avoid_live: bool,
}

/// Search constraints attached to a ticket.
#[derive(Debug, Clone)]
pub struct SearchConstraints {
    /// Audio preferences, if any.
    pub audio: Option<AudioSearchConstraints>,
}

/// One expected track of an album.
#[derive(Debug, Clone)]
pub struct ExpectedTrack {
    /// Track number.
    pub number: u32,
    /// Track title.
    pub title: String,
    /// Duration in seconds.
    pub duration_secs: Option<u32>,
    /// Duration in milliseconds.
    pub duration_ms: Option<u64>,
    /// Disc number.
    pub disc_number: Option<u32>,
}

impl ExpectedTrack {
    /// A track with a number and a title only.
    pub fn new(number: u32, title: &str) -> (t: Self)
        ensures
            t.number == number,
            t.title@ == title@,
            t.duration_secs is None,
            t.duration_ms is None,
            t.disc_number is None,
    {
        ExpectedTrack {
            number,
            title: title.to_owned(),
            duration_secs: None,
            duration_ms: None,
            disc_number: None,
        }
    }
}

/// The content a ticket expects to acquire.
#[derive(Debug, Clone)]
pub enum ExpectedContent {
    /// A music album.
    Album { artist: Option<String>, title: String, tracks: Vec<ExpectedTrack> },
    /// A single music track.
    Track { artist: Option<String>, title: String },
    /// A movie.
    Movie { title: String, year: Option<u32> },
    /// Episodes of a TV season.
    TvEpisode { series: String, season: u32, episodes: Vec<u32> },
}

/// Everything query construction knows about a ticket.
#[derive(Debug, Clone)]
pub struct QueryContext {
    /// Free-form tags.
    pub tags: Vec<String>,
    /// Free-form description.
    pub description: String,
    /// Structured expectation, if known.
    pub expected: Option<ExpectedContent>,
    /// Search constraints, if any.
    pub search_constraints: Option<SearchConstraints>,
}

/// The audio constraints of a context, if it has any.
pub open spec fn context_audio(c: QueryContext) -> Option<AudioSearchConstraints> {
    match c.search_constraints {
        Some(sc) => sc.audio,
        None => None,
    }
}

impl QueryContext {
    /// The audio constraints of this context, if any.
    pub fn audio_constraints(&self) -> (a: Option<&AudioSearchConstraints>)
        ensures
            match a {
                Some(x) => context_audio(*self) == Some(*x),
                None => context_audio(*self) is None,
            },
    {
        match &self.search_constraints {
            Some(sc) => match &sc.audio {
                Some(a) => Some(a),
                None => None,
            },
            None => None,
        }
    }
}

} // verus!
