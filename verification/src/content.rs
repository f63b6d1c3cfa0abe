//! Content-type dispatch: routes discography handling to the music logic
//! according to what a ticket expects, and the errors of content processing.

use vstd::prelude::*;

use crate::music::{
    artist_cleanable, discography_queries, is_artist_cleanable, looks_like_discography,
};
use crate::converter::{join_path, path_join};
use crate::music::str_views;
use crate::searcher::TorrentCandidate;
use crate::text::{concat2, concat3, concat4, push_string, to_uppercase, uppercase, views};
use crate::ticket::{context_audio, ExpectedContent, QueryContext};

verus! {

/// The expected artist of a music ticket (`None` also for non-music tickets
/// and for music tickets without an artist).
pub open spec fn music_artist(c: QueryContext) -> Option<Seq<char>> {
    match c.expected {
        Some(ExpectedContent::Album { artist, .. }) | Some(ExpectedContent::Track { artist, .. }) => {
            match artist {
                Some(a) => Some(a@),
                None => None,
            }
        },
        _ => None,
    }
}

/// The ticket expects music (an album or a track).
pub open spec fn is_music(c: QueryContext) -> bool {
    c.expected matches Some(ExpectedContent::Album { .. }) || c.expected matches Some(
        ExpectedContent::Track { .. },
    )
}

/// The music ticket's artist, if any, can be cleaned without failure.
pub open spec fn fallback_defined(c: QueryContext) -> bool {
    music_artist(c) matches Some(a) ==> artist_cleanable(a)
}

fn music_artist_of(context: &QueryContext) -> (r: Option<&str>)
    ensures
        match r {
            Some(a) => music_artist(*context) == Some(a@),
            None => music_artist(*context) is None,
        },
        r is Some ==> is_music(*context),
{
    match &context.expected {
        Some(ExpectedContent::Album { artist, .. }) | Some(ExpectedContent::Track { artist, .. }) => {
            match artist {
                Some(a) => Some(a.as_str()),
                None => None,
            }
        },
        _ => None,
    }
}

/// Fallback discography/collection queries: for music tickets those of the
/// expected artist, otherwise none.
pub fn build_fallback_queries(context: &QueryContext) -> (q: Vec<String>)
    requires
        fallback_defined(*context),
    ensures
        views(q@) == if is_music(*context) {
            discography_queries(music_artist(*context), context_audio(*context))
        } else {
            seq![]
        },
{
    if !(context.expected matches Some(ExpectedContent::Album { .. })
        || context.expected matches Some(ExpectedContent::Track { .. })) {
        let v: Vec<String> = Vec::new();
        assert(views(v@) =~= seq![]);
        return v;
    }
    let artist = music_artist_of(context);
    let audio = context.audio_constraints();
    crate::music::build_discography_queries(artist, audio)
}

/// Fallback queries, or `None` when the ticket's artist cannot be cleaned.
pub fn try_build_fallback_queries(context: &QueryContext) -> (q: Option<Vec<String>>)
    ensures
        fallback_defined(*context) ==> (q matches Some(v) && views(v@) == if is_music(*context) {
            discography_queries(music_artist(*context), context_audio(*context))
        } else {
            seq![]
        }),
        !fallback_defined(*context) ==> q is None,
{
    let ok = match music_artist_of(context) {
        Some(a) => is_artist_cleanable(a),
        None => true,
    };
    if ok {
        Some(build_fallback_queries(context))
    } else {
        None
    }
}

/// Whether a candidate for a music ticket looks like a discography; never
/// for other tickets.
pub fn is_discography_candidate(context: &QueryContext, candidate: &TorrentCandidate) -> (b: bool)
    ensures
        b == (is_music(*context) && looks_like_discography(
            music_artist(*context),
            candidate.title@,
            candidate.size_bytes,
        )),
{
    if !(context.expected matches Some(ExpectedContent::Album { .. })
        || context.expected matches Some(ExpectedContent::Track { .. })) {
        return false;
    }
    let artist = music_artist_of(context);
    crate::music::is_discography_candidate(artist, candidate)
}

/// Errors that can occur during content processing.
#[derive(Debug)]
pub enum ContentError {
    /// Failed to fetch an external asset.
    FetchFailed { asset_type: String, reason: String },
    /// I/O error during post-processing.
    Io(std::io::Error),
    /// HTTP error during an external API call.
    Http(String),
    /// An external API returned an error.
    ApiError { service: String, message: String },
    /// Content not found in an external service.
    NotFound { content_type: String, query: String },
}

/// The message of a content error; the I/O variant's message comes from the
/// operating system and is not composed here.
pub open spec fn content_error_message(e: ContentError) -> Option<Seq<char>> {
    match e {
        ContentError::FetchFailed { asset_type, reason } => Some(
            "failed to fetch "@ + asset_type@ + ": "@ + reason@,
        ),
        ContentError::Io(_) => None,
        ContentError::Http(h) => Some("HTTP error: "@ + h@),
        ContentError::ApiError { service, message } => Some(
            "API error from "@ + service@ + ": "@ + message@,
        ),
        ContentError::NotFound { content_type, query } => Some(
            content_type@ + " not found: "@ + query@,
        ),
    }
}

impl ContentError {
    /// The error message, for the variants whose message is made of their own
    /// text.
    pub fn message(&self) -> (m: Option<String>)
        ensures
            (match m {
                Some(s) => Some(s@),
                None => None,
            }) == content_error_message(*self),
    {
        match self {
            ContentError::Io(_) => None,
            ContentError::Http(h) => Some(concat2("HTTP error: ", h.as_str())),
            ContentError::ApiError { service, message } => Some(
                concat4("API error from ", service.as_str(), ": ", message.as_str()),
            ),
            ContentError::NotFound { content_type, query } => Some(
                concat3(content_type.as_str(), " not found: ", query.as_str()),
            ),
            ContentError::FetchFailed { asset_type, reason } => Some(
                concat4("failed to fetch ", asset_type.as_str(), ": ", reason.as_str()),
            ),
        }
    }
}

/// Result of post-processing after a download completes.
#[derive(Debug, Clone)]
pub struct PostProcessResult {
    /// Cover art found or fetched (music).
    pub cover_art_path: Option<String>,
    /// Subtitle files fetched (video).
    pub subtitle_paths: Vec<String>,
    /// Further metadata fetched, as JSON text.
    pub metadata: Option<String>,
    /// Non-fatal issues met.
    pub warnings: Vec<String>,
}

impl Default for PostProcessResult {
    /// Nothing done.
    fn default() -> (r: Self)
        ensures
            r.cover_art_path is None,
            r.subtitle_paths@.len() == 0,
            r.metadata is None,
            r.warnings@.len() == 0,
    {
        PostProcessResult {
            cover_art_path: None,
            subtitle_paths: Vec::new(),
            metadata: None,
            warnings: Vec::new(),
        }
    }
}

impl PostProcessResult {
    /// A result of no post-processing.
    pub fn empty() -> (r: Self)
        ensures
            r.cover_art_path is None,
            r.subtitle_paths@.len() == 0,
            r.metadata is None,
            r.warnings@.len() == 0,
    {
        Self::default()
    }

    /// A result holding cover art.
    pub fn with_cover_art(path: String) -> (r: Self)
        ensures
            r.cover_art_path == Some(path),
            r.subtitle_paths@.len() == 0,
            r.metadata is None,
            r.warnings@.len() == 0,
    {
        PostProcessResult { cover_art_path: Some(path), ..Self::default() }
    }

    /// A result holding subtitles.
    pub fn with_subtitles(paths: Vec<String>) -> (r: Self)
        ensures
            r.cover_art_path is None,
            r.subtitle_paths == paths,
            r.metadata is None,
            r.warnings@.len() == 0,
    {
        PostProcessResult { subtitle_paths: paths, ..Self::default() }
    }

    /// Adds a warning.
    pub fn add_warning(&mut self, warning: String)
        ensures
            final(self).cover_art_path == old(self).cover_art_path,
            final(self).subtitle_paths == old(self).subtitle_paths,
            final(self).metadata == old(self).metadata,
            final(self).warnings@ == old(self).warnings@.push(warning),
    {
        self.warnings.push(warning);
    }
}

/// File names under which cover art is looked for, in order.
pub open spec fn cover_art_names() -> Seq<Seq<char>> {
    seq![
        "cover.jpg"@,
        "cover.jpeg"@,
        "cover.png"@,
        "folder.jpg"@,
        "folder.jpeg"@,
        "folder.png"@,
        "front.jpg"@,
        "front.jpeg"@,
        "front.png"@,
        "album.jpg"@,
        "album.jpeg"@,
        "album.png"@,
    ]
}

fn cover_art_name_list() -> (v: Vec<&'static str>)
    ensures
        str_views(v@) == cover_art_names(),
{
    let mut v: Vec<&'static str> = Vec::new();
    v.push("cover.jpg");
    v.push("cover.jpeg");
    v.push("cover.png");
    v.push("folder.jpg");
    v.push("folder.jpeg");
    v.push("folder.png");
    v.push("front.jpg");
    v.push("front.jpeg");
    v.push("front.png");
    v.push("album.jpg");
    v.push("album.jpeg");
    v.push("album.png");
    assert(str_views(v@) =~= cover_art_names());
    v
}

/// The paths checked for cover art at the top of a download, in order:
/// each name, then the same name in upper case.
pub open spec fn top_cover_candidates(dir: Seq<char>, names: Seq<Seq<char>>) -> Seq<Seq<char>>
    decreases names.len(),
{
    if names.len() == 0 {
        Seq::empty()
    } else {
        top_cover_candidates(dir, names.drop_last()) + seq![
            path_join(dir, names.last()),
            path_join(dir, uppercase(names.last())),
        ]
    }
}

proof fn lemma_top_cover_candidates_len(dir: Seq<char>, names: Seq<Seq<char>>)
    ensures
        top_cover_candidates(dir, names).len() == 2 * names.len(),
    decreases names.len(),
{
    if names.len() > 0 {
        lemma_top_cover_candidates_len(dir, names.drop_last());
    }
}

proof fn lemma_top_cover_candidates_at(dir: Seq<char>, names: Seq<Seq<char>>, i: int)
    requires
        0 <= i < names.len(),
    ensures
        top_cover_candidates(dir, names).len() == 2 * names.len(),
        top_cover_candidates(dir, names)[2 * i] == path_join(dir, names[i]),
        top_cover_candidates(dir, names)[2 * i + 1] == path_join(dir, uppercase(names[i])),
    decreases names.len(),
{
    lemma_top_cover_candidates_len(dir, names);
    let prev = names.drop_last();
    lemma_top_cover_candidates_len(dir, prev);
    let whole = top_cover_candidates(dir, names);
    let before = top_cover_candidates(dir, prev);
    assert(whole == before + seq![path_join(dir, names.last()), path_join(dir, uppercase(names.last()))]);
    if i < names.len() - 1 {
        lemma_top_cover_candidates_at(dir, prev, i);
        assert(prev[i] == names[i]);
        assert(whole[2 * i] == before[2 * i]);
        assert(whole[2 * i + 1] == before[2 * i + 1]);
    } else {
        assert(whole[2 * i] == path_join(dir, names.last()));
        assert(whole[2 * i + 1] == path_join(dir, uppercase(names.last())));
    }
}

/// The cover art looked for at the top of a download: for each of
/// cover, folder, front and album with the endings .jpg, .jpeg and .png (in
/// that order), the name as written and then in upper case, each joined to
/// the download directory.
pub proof fn lemma_cover_art_looked_for(dir: Seq<char>, i: int)
    requires
        0 <= i < 12,
    ensures
        top_cover_candidates(dir, cover_art_names()).len() == 24,
        top_cover_candidates(dir, cover_art_names())[2 * i] == path_join(
            dir,
            seq![
                "cover.jpg"@, "cover.jpeg"@, "cover.png"@, "folder.jpg"@, "folder.jpeg"@,
                "folder.png"@, "front.jpg"@, "front.jpeg"@, "front.png"@, "album.jpg"@,
                "album.jpeg"@, "album.png"@,
            ][i],
        ),
        top_cover_candidates(dir, cover_art_names())[2 * i + 1] == path_join(
            dir,
            uppercase(
                seq![
                    "cover.jpg"@, "cover.jpeg"@, "cover.png"@, "folder.jpg"@, "folder.jpeg"@,
                    "folder.png"@, "front.jpg"@, "front.jpeg"@, "front.png"@, "album.jpg"@,
                    "album.jpeg"@, "album.png"@,
                ][i],
            ),
        ),
{
    assert(cover_art_names() =~= seq![
        "cover.jpg"@, "cover.jpeg"@, "cover.png"@, "folder.jpg"@, "folder.jpeg"@, "folder.png"@,
        "front.jpg"@, "front.jpeg"@, "front.png"@, "album.jpg"@, "album.jpeg"@, "album.png"@,
    ]);
    lemma_top_cover_candidates_at(dir, cover_art_names(), i);
}

/// The paths checked for existing cover art directly in `dir`, in order.
pub fn cover_art_candidates(dir: &str) -> (v: Vec<String>)
    ensures
        views(v@) == top_cover_candidates(dir@, cover_art_names()),
{
    let names = cover_art_name_list();
    let mut out: Vec<String> = Vec::new();
    let mut i: usize = 0;
    while i < names.len()
        invariant
            i <= names@.len(),
            str_views(names@) == cover_art_names(),
            views(out@) == top_cover_candidates(dir@, str_views(names@).take(i as int)),
        decreases names@.len() - i,
    {
        let name = names[i];
        push_string(&mut out, join_path(dir, name));
        let upper = to_uppercase(name);
        push_string(&mut out, join_path(dir, upper.as_str()));
        assert(str_views(names@).take(i as int + 1).drop_last() =~= str_views(names@).take(i as int));
        assert(str_views(names@).take(i as int + 1).last() == name@);
        i += 1;
    }
    assert(str_views(names@).take(names@.len() as int) =~= str_views(names@));
    out
}

/// The paths checked for cover art in a subdirectory (a disc folder), in
/// order: each name as written.
pub fn subdir_cover_art_candidates(subdir: &str) -> (v: Vec<String>)
    ensures
        views(v@) == cover_art_names().map_values(|n: Seq<char>| path_join(subdir@, n)),
{
    let names = cover_art_name_list();
    let mut out: Vec<String> = Vec::new();
    let mut i: usize = 0;
    while i < names.len()
        invariant
            i <= names@.len(),
            str_views(names@) == cover_art_names(),
            views(out@) == str_views(names@).take(i as int).map_values(
                |n: Seq<char>| path_join(subdir@, n),
            ),
        decreases names@.len() - i,
    {
        let name = names[i];
        push_string(&mut out, join_path(subdir, name));
        assert(str_views(names@).take(i as int + 1).map_values(|n: Seq<char>| path_join(subdir@, n))
            =~= str_views(names@).take(i as int).map_values(|n: Seq<char>| path_join(subdir@, n)).push(
            path_join(subdir@, name@),
        ));
        i += 1;
    }
    assert(str_views(names@).take(names@.len() as int) =~= str_views(names@));
    out
}

} // verus!
