//! Music-specific search logic: cleaning artist and title text, building
//! search queries for albums, tracks and discographies, and recognising
//! discography releases.

use vstd::prelude::*;

use crate::converter::AudioFormat;
use crate::pattern::{compile_pattern, regex_compiles, regex_finds};
use crate::searcher::TorrentCandidate;
use crate::text::{
    concat2, concat3, concat4, copy_string, cut_before_marker, lowercase, marker_cut_defined,
    marker_cut_ok,
    normalize_text, normalized, push_string, remove_all, remove_pattern, seq_contains, starts_with, str_eq,
    str_contains, to_lowercase, truncate_at_marker, views,
};
use crate::ticket::{context_audio, AudioSearchConstraints, ExpectedContent, QueryContext};

verus! {

// ---------------------------------------------------------------------------
// Text cleaning
// ---------------------------------------------------------------------------

/// Artist cleaning can be carried out: each featuring-marker cut falls on a
/// character boundary of the text being cut.
pub open spec fn artist_cleanable(a: Seq<char>) -> bool {
    let c1 = cut_before_marker(a, " feat"@);
    let c2 = cut_before_marker(c1, " ft."@);
    &&& marker_cut_defined(a, " feat"@)
    &&& marker_cut_defined(c1, " ft."@)
    &&& marker_cut_defined(c2, " ft "@)
}

/// An artist name with featured artists dropped and whitespace normalised.
pub open spec fn cleaned_artist(a: Seq<char>) -> Seq<char> {
    normalized(
        cut_before_marker(cut_before_marker(cut_before_marker(a, " feat"@), " ft."@), " ft "@),
    )
}

/// A track title with its "(feat ...)" part dropped and whitespace normalised.
pub open spec fn cleaned_track_title(t: Seq<char>) -> Seq<char> {
    normalized(cut_before_marker(t, " (feat"@))
}

/// An album title with edition suffixes removed and whitespace normalised.
pub open spec fn cleaned_album_title(t: Seq<char>) -> Seq<char> {
    normalized(
        remove_all(
            remove_all(
                remove_all(
                    remove_all(
                        remove_all(
                            remove_all(
                                remove_all(
                                    remove_all(remove_all(t, "(Deluxe Edition)"@), "(Deluxe)"@),
                                    "(Remastered)"@,
                                ),
                                "(Remaster)"@,
                            ),
                            "[Remastered]"@,
                        ),
                        "(Anniversary Edition)"@,
                    ),
                    "(Special Edition)"@,
                ),
                "(Expanded Edition)"@,
            ),
            "(Bonus Track Version)"@,
        ),
    )
}

/// Cleans an artist name for searching: drops " feat…", " ft." and " ft "
/// parts (found case-insensitively) and normalises whitespace.
pub fn clean_artist_name(artist: &str) -> (r: String)
    requires
        artist_cleanable(artist@),
    ensures
        r@ == cleaned_artist(artist@),
{
    let r1 = truncate_at_marker(artist, " feat");
    let r2 = truncate_at_marker(r1.as_str(), " ft.");
    let r3 = truncate_at_marker(r2.as_str(), " ft ");
    normalize_text(r3.as_str())
}

/// Cleans a track title for searching: drops a " (feat…" part (found
/// case-insensitively) and normalises whitespace.
pub fn clean_track_title(title: &str) -> (r: String)
    requires
        marker_cut_defined(title@, " (feat"@),
    ensures
        r@ == cleaned_track_title(title@),
{
    let r1 = truncate_at_marker(title, " (feat");
    normalize_text(r1.as_str())
}

/// Cleans an album title for searching: removes common edition suffixes and
/// normalises whitespace.
pub fn clean_album_title(title: &str) -> (r: String)
    ensures
        r@ == cleaned_album_title(title@),
{
    let mut result = remove_pattern(title, "(Deluxe Edition)");
    result = remove_pattern(result.as_str(), "(Deluxe)");
    result = remove_pattern(result.as_str(), "(Remastered)");
    result = remove_pattern(result.as_str(), "(Remaster)");
    result = remove_pattern(result.as_str(), "[Remastered]");
    result = remove_pattern(result.as_str(), "(Anniversary Edition)");
    result = remove_pattern(result.as_str(), "(Special Edition)");
    result = remove_pattern(result.as_str(), "(Expanded Edition)");
    result = remove_pattern(result.as_str(), "(Bonus Track Version)");
    normalize_text(result.as_str())
}

/// Whether an artist name can be cleaned (see [`artist_cleanable`]).
pub fn is_artist_cleanable(artist: &str) -> (b: bool)
    ensures
        b == artist_cleanable(artist@),
{
    if !marker_cut_ok(artist, " feat") {
        return false;
    }
    let c1 = truncate_at_marker(artist, " feat");
    if !marker_cut_ok(c1.as_str(), " ft.") {
        return false;
    }
    let c2 = truncate_at_marker(c1.as_str(), " ft.");
    marker_cut_ok(c2.as_str(), " ft ")
}

/// Cleans an artist name when that is possible; `None` for a name whose
/// featuring marker, found in its lower-cased form, does not fall on a
/// character boundary of the name itself.
pub fn try_clean_artist_name(artist: &str) -> (r: Option<String>)
    ensures
        artist_cleanable(artist@) ==> (r matches Some(s) && s@ == cleaned_artist(artist@)),
        !artist_cleanable(artist@) ==> r is None,
{
    if is_artist_cleanable(artist) {
        Some(clean_artist_name(artist))
    } else {
        None
    }
}

/// Cleans a track title when that is possible; `None` when its featuring
/// marker does not fall on a character boundary of the title.
pub fn try_clean_track_title(title: &str) -> (r: Option<String>)
    ensures
        marker_cut_defined(title@, " (feat"@) ==> (r matches Some(s) && s@ == cleaned_track_title(
            title@,
        )),
        !marker_cut_defined(title@, " (feat"@) ==> r is None,
{
    if marker_cut_ok(title, " (feat") {
        Some(clean_track_title(title))
    } else {
        None
    }
}

// ---------------------------------------------------------------------------
// Format keywords
// ---------------------------------------------------------------------------

/// The search keyword for an audio format (WAV has none).
pub open spec fn format_keyword(f: AudioFormat) -> Option<Seq<char>> {
    match f {
        AudioFormat::Flac => Some("FLAC"@),
        AudioFormat::Alac => Some("ALAC"@),
        AudioFormat::Aac => Some("AAC"@),
        AudioFormat::Mp3 => Some("MP3"@),
        AudioFormat::Opus => Some("OPUS"@),
        AudioFormat::OggVorbis => Some("OGG"@),
        AudioFormat::Wav => None,
    }
}

/// Keywords of a list of formats, in order, skipping formats without one.
pub open spec fn keywords_of(fs: Seq<AudioFormat>) -> Seq<Seq<char>>
    decreases fs.len(),
{
    if fs.len() == 0 {
        seq![]
    } else {
        keywords_of(fs.drop_last()) + match format_keyword(fs.last()) {
            Some(k) => seq![k],
            None => seq![],
        }
    }
}

/// Keywords used in queries: those of the preferred formats when any are
/// given, otherwise just "FLAC".
pub open spec fn format_keywords(c: Option<AudioSearchConstraints>) -> Seq<Seq<char>> {
    match c {
        Some(c) => if c.preferred_formats@.len() > 0 {
            keywords_of(c.preferred_formats@)
        } else {
            seq!["FLAC"@]
        },
        None => seq!["FLAC"@],
    }
}

/// The character sequences of a list of string slices.
pub open spec fn str_views(v: Seq<&str>) -> Seq<Seq<char>> {
    v.map_values(|s: &str| s@)
}

fn keyword_for(f: &AudioFormat) -> (k: Option<&'static str>)
    ensures
        match k {
            Some(s) => format_keyword(*f) == Some(s@),
            None => format_keyword(*f) is None,
        },
{
    match f {
        AudioFormat::Flac => Some("FLAC"),
        AudioFormat::Alac => Some("ALAC"),
        AudioFormat::Aac => Some("AAC"),
        AudioFormat::Mp3 => Some("MP3"),
        AudioFormat::Opus => Some("OPUS"),
        AudioFormat::OggVorbis => Some("OGG"),
        AudioFormat::Wav => None,
    }
}

/// Format keywords from audio constraints, defaulting to FLAC.
pub fn get_format_keywords(constraints: Option<&AudioSearchConstraints>) -> (k: Vec<&'static str>)
    ensures
        str_views(k@) == format_keywords(
            match constraints {
                Some(c) => Some(*c),
                None => None,
            },
        ),
{
    if let Some(c) = constraints {
        if c.preferred_formats.len() > 0 {
            let mut out: Vec<&'static str> = Vec::new();
            let mut i: usize = 0;
            while i < c.preferred_formats.len()
                invariant
                    i <= c.preferred_formats@.len(),
                    str_views(out@) == keywords_of(c.preferred_formats@.take(i as int)),
                decreases c.preferred_formats.len() - i,
            {
                let ghost before = out@;
                match keyword_for(&c.preferred_formats[i]) {
                    Some(s) => {
                        out.push(s);
                    },
                    None => {},
                }
                assert(c.preferred_formats@.take(i as int + 1).drop_last() =~= c.preferred_formats@.take(i as int));
                assert(str_views(out@) =~= keywords_of(c.preferred_formats@.take(i as int + 1)));
                i += 1;
            }
            assert(c.preferred_formats@.take(c.preferred_formats@.len() as int) =~= c.preferred_formats@);
            return out;
        }
    }
    let mut out: Vec<&'static str> = Vec::new();
    out.push("FLAC");
    assert(str_views(out@) =~= seq!["FLAC"@]);
    out
}

// ---------------------------------------------------------------------------
// Query de-duplication
// ---------------------------------------------------------------------------

/// Lower-cased forms of a list of texts.
pub open spec fn lowered(qs: Seq<Seq<char>>) -> Seq<Seq<char>> {
    qs.map_values(|q: Seq<char>| lowercase(q))
}

/// Adding one query: kept when its lower-cased form is non-empty and not
/// already present among the kept queries.
pub open spec fn add_query_step(acc: Seq<Seq<char>>, q: Seq<char>) -> Seq<Seq<char>> {
    if lowercase(q).len() > 0 && !lowered(acc).contains(lowercase(q)) {
        acc.push(q)
    } else {
        acc
    }
}

/// The queries kept from a candidate list, in order.
pub open spec fn dedup_queries(cands: Seq<Seq<char>>) -> Seq<Seq<char>>
    decreases cands.len(),
{
    if cands.len() == 0 {
        seq![]
    } else {
        add_query_step(dedup_queries(cands.drop_last()), cands.last())
    }
}

/// Adds `query` unless an equal query (ignoring case) was already added or it
/// is empty; `seen` holds the lower-cased forms of the queries added so far.
pub fn add_query(queries: &mut Vec<String>, seen: &mut Vec<String>, query: String)
    requires
        views(old(seen)@) == lowered(views(old(queries)@)),
    ensures
        views(final(queries)@) == add_query_step(views(old(queries)@), query@),
        views(final(seen)@) == lowered(views(final(queries)@)),
{
    let normalized = to_lowercase(query.as_str());
    if normalized.as_str().is_empty() {
        return;
    }
    let mut i: usize = 0;
    while i < seen.len()
        invariant
            i <= seen@.len(),
            views(seen@) == lowered(views(queries@)),
            seen == old(seen),
            queries == old(queries),
            normalized@ == lowercase(query@),
            forall|j: int| 0 <= j < i ==> seen@[j]@ != normalized@,
        decreases seen.len() - i,
    {
        if seen[i] == normalized {
            assert(lowered(views(queries@))[i as int] == lowercase(query@));
            return;
        }
        i += 1;
    }
    proof {
        if lowered(views(queries@)).contains(lowercase(query@)) {
            let j = choose|j: int| 0 <= j < lowered(views(queries@)).len() && lowered(views(queries@))[j] == lowercase(query@);
            assert(seen@[j]@ == normalized@);
        }
    }
    let ghost qv = query@;
    let ghost old_q = views(queries@);
    push_string(seen, normalized);
    push_string(queries, query);
    assert(lowered(old_q.push(qv)) =~= lowered(old_q).push(lowercase(qv)));
}

/// Keeps the first of each group of candidates equal up to case, dropping
/// empty ones.
pub fn dedup_query_list(cands: &Vec<String>) -> (q: Vec<String>)
    ensures
        views(q@) == dedup_queries(views(cands@)),
{
    let mut queries: Vec<String> = Vec::new();
    let mut seen: Vec<String> = Vec::new();
    let mut i: usize = 0;
    while i < cands.len()
        invariant
            i <= cands@.len(),
            views(queries@) == dedup_queries(views(cands@.take(i as int))),
            views(seen@) == lowered(views(queries@)),
        decreases cands.len() - i,
    {
        let c = copy_string(&cands[i]);
        add_query(&mut queries, &mut seen, c);
        assert(views(cands@.take(i as int + 1)).drop_last() =~= views(cands@.take(i as int)));
        i += 1;
    }
    assert(cands@.take(cands@.len() as int) =~= cands@);
    queries
}

// ---------------------------------------------------------------------------
// Candidate queries
// ---------------------------------------------------------------------------

/// `p` followed by each keyword.
pub open spec fn with_prefix(p: Seq<char>, kws: Seq<Seq<char>>) -> Seq<Seq<char>> {
    kws.map_values(|k: Seq<char>| p + k)
}

fn push_with_prefix(out: &mut Vec<String>, prefix: &str, kws: &Vec<&'static str>)
    ensures
        views(final(out)@) == views(old(out)@) + with_prefix(prefix@, str_views(kws@)),
{
    let mut i: usize = 0;
    while i < kws.len()
        invariant
            i <= kws@.len(),
            views(out@) == views(old(out)@) + with_prefix(prefix@, str_views(kws@.take(i as int))),
        decreases kws.len() - i,
    {
        push_string(out, concat2(prefix, kws[i]));
        assert(with_prefix(prefix@, str_views(kws@.take(i as int + 1))) =~= with_prefix(
            prefix@,
            str_views(kws@.take(i as int)),
        ).push(prefix@ + kws@[i as int]@));
        i += 1;
    }
    assert(kws@.take(kws@.len() as int) =~= kws@);
}

/// Candidate queries for an artist's discography, before de-duplication.
pub open spec fn discography_candidates(a: Seq<char>, kws: Seq<Seq<char>>) -> Seq<Seq<char>> {
    with_prefix(a + " discography "@, kws) + seq![a + " discography"@] + with_prefix(
        a + " complete "@,
        kws,
    ) + seq![
        a + " complete discography"@,
        a + " complete collection"@,
        a + " collection"@,
        a + " all albums"@,
        a + " studio albums"@,
        a + " anthology"@,
        a + " box set"@,
    ] + with_prefix(a + " "@, kws)
}

/// Discography queries for an optional artist and audio constraints.
pub open spec fn discography_queries(
    artist: Option<Seq<char>>,
    c: Option<AudioSearchConstraints>,
) -> Seq<Seq<char>> {
    match artist {
        Some(a) => dedup_queries(discography_candidates(cleaned_artist(a), format_keywords(c))),
        None => seq![],
    }
}

/// Builds discography/collection queries, used as a fallback when
/// album-specific searches fail. Without an artist there are none.
pub fn build_discography_queries(
    artist: Option<&str>,
    audio_constraints: Option<&AudioSearchConstraints>,
) -> (q: Vec<String>)
    requires
        artist matches Some(a) ==> artist_cleanable(a@),
    ensures
        views(q@) == discography_queries(
            match artist {
                Some(a) => Some(a@),
                None => None,
            },
            match audio_constraints {
                Some(c) => Some(*c),
                None => None,
            },
        ),
{
    let artist = match artist {
        Some(a) => a,
        None => {
            return Vec::new();
        },
    };
    let a = clean_artist_name(artist);
    let kws = get_format_keywords(audio_constraints);
    let mut cands: Vec<String> = Vec::new();
    push_with_prefix(&mut cands, concat2(a.as_str(), " discography ").as_str(), &kws);
    push_string(&mut cands, concat2(a.as_str(), " discography"));
    push_with_prefix(&mut cands, concat2(a.as_str(), " complete ").as_str(), &kws);
    push_string(&mut cands, concat2(a.as_str(), " complete discography"));
    push_string(&mut cands, concat2(a.as_str(), " complete collection"));
    push_string(&mut cands, concat2(a.as_str(), " collection"));
    push_string(&mut cands, concat2(a.as_str(), " all albums"));
    push_string(&mut cands, concat2(a.as_str(), " studio albums"));
    push_string(&mut cands, concat2(a.as_str(), " anthology"));
    push_string(&mut cands, concat2(a.as_str(), " box set"));
    push_with_prefix(&mut cands, concat2(a.as_str(), " ").as_str(), &kws);
    assert(views(cands@) =~= discography_candidates(
        a@,
        format_keywords(
            match audio_constraints {
                Some(c) => Some(*c),
                None => None,
            },
        ),
    ));
    dedup_query_list(&cands)
}


/// Candidate queries for an album, before de-duplication; `a` is the cleaned
/// artist and `t` the cleaned title.
pub open spec fn album_candidates(
    a: Option<Seq<char>>,
    t: Seq<char>,
    kws: Seq<Seq<char>>,
    track_count: nat,
) -> Seq<Seq<char>> {
    (match a {
        Some(a) => with_prefix(a + " "@ + t + " "@, kws) + seq![a + " "@ + t, t + " "@ + a]
            + with_prefix(a + " "@, kws),
        None => seq![],
    }) + with_prefix(t + " "@, kws) + seq![t] + (match a {
        Some(a) => if track_count > 8 {
            seq![a + " complete album"@]
        } else {
            seq![]
        },
        None => seq![],
    })
}

/// Album queries for an optional artist, a title and the expected track count.
pub open spec fn album_queries(
    artist: Option<Seq<char>>,
    title: Seq<char>,
    track_count: nat,
    c: Option<AudioSearchConstraints>,
) -> Seq<Seq<char>> {
    dedup_queries(
        album_candidates(
            match artist {
                Some(a) => Some(cleaned_artist(a)),
                None => None,
            },
            cleaned_album_title(title),
            format_keywords(c),
            track_count,
        ),
    )
}

/// Builds album queries: artist and title with each preferred format
/// keyword, artist and title in both orders, artist with each keyword, title
/// with each keyword, the bare title, and for albums of more than eight
/// tracks "{artist} complete album".
pub fn build_album_queries(
    artist: Option<&str>,
    title: &str,
    track_count: usize,
    audio_constraints: Option<&AudioSearchConstraints>,
) -> (q: Vec<String>)
    requires
        artist matches Some(a) ==> artist_cleanable(a@),
    ensures
        views(q@) == album_queries(
            match artist {
                Some(a) => Some(a@),
                None => None,
            },
            title@,
            track_count as nat,
            match audio_constraints {
                Some(c) => Some(*c),
                None => None,
            },
        ),
{
    build_album_queries_inner(artist, title, track_count, audio_constraints, false)
}

/// Album query construction; the discography flag does not change the result.
pub fn build_album_queries_inner(
    artist: Option<&str>,
    title: &str,
    track_count: usize,
    audio_constraints: Option<&AudioSearchConstraints>,
    discography_mode: bool,
) -> (q: Vec<String>)
    requires
        artist matches Some(a) ==> artist_cleanable(a@),
    ensures
        views(q@) == album_queries(
            match artist {
                Some(a) => Some(a@),
                None => None,
            },
            title@,
            track_count as nat,
            match audio_constraints {
                Some(c) => Some(*c),
                None => None,
            },
        ),
{
    let t = clean_album_title(title);
    let kws = get_format_keywords(audio_constraints);
    let mut cands: Vec<String> = Vec::new();
    let ghost mut ca: Option<Seq<char>> = None;
    if let Some(artist) = artist {
        let a = clean_artist_name(artist);
        proof {
            ca = Some(a@);
        }
        push_with_prefix(&mut cands, concat4(a.as_str(), " ", t.as_str(), " ").as_str(), &kws);
        push_string(&mut cands, concat3(a.as_str(), " ", t.as_str()));
        push_string(&mut cands, concat3(t.as_str(), " ", a.as_str()));
        push_with_prefix(&mut cands, concat2(a.as_str(), " ").as_str(), &kws);
    }
    push_with_prefix(&mut cands, concat2(t.as_str(), " ").as_str(), &kws);
    push_string(&mut cands, copy_string(&t));
    if track_count > 8 {
        if let Some(artist) = artist {
            let a = clean_artist_name(artist);
            push_string(&mut cands, concat2(a.as_str(), " complete album"));
        }
    }
    assert(views(cands@) =~= album_candidates(
        match artist {
            Some(a) => Some(cleaned_artist(a@)),
            None => None,
        },
        cleaned_album_title(title@),
        format_keywords(
            match audio_constraints {
                Some(c) => Some(*c),
                None => None,
            },
        ),
        track_count as nat,
    ));
    dedup_query_list(&cands)
}

/// Candidate queries for a track, before de-duplication; `a` is the cleaned
/// artist and `t` the cleaned title.
pub open spec fn track_candidates(a: Option<Seq<char>>, t: Seq<char>, kws: Seq<Seq<char>>) -> Seq<
    Seq<char>,
> {
    (match a {
        Some(a) => seq![a + " "@ + t, t + " "@ + a] + with_prefix(a + " "@ + t + " "@, kws),
        None => seq![],
    }) + seq![t]
}

/// Track queries for an optional artist and a title.
pub open spec fn track_queries(
    artist: Option<Seq<char>>,
    title: Seq<char>,
    c: Option<AudioSearchConstraints>,
) -> Seq<Seq<char>> {
    dedup_queries(
        track_candidates(
            match artist {
                Some(a) => Some(cleaned_artist(a)),
                None => None,
            },
            cleaned_track_title(title),
            format_keywords(c),
        ),
    )
}

/// Builds track queries: artist and title in both orders, artist and title
/// with each format keyword, then the bare title.
pub fn build_track_queries(
    artist: Option<&str>,
    title: &str,
    audio_constraints: Option<&AudioSearchConstraints>,
) -> (q: Vec<String>)
    requires
        artist matches Some(a) ==> artist_cleanable(a@),
        marker_cut_defined(title@, " (feat"@),
    ensures
        views(q@) == track_queries(
            match artist {
                Some(a) => Some(a@),
                None => None,
            },
            title@,
            match audio_constraints {
                Some(c) => Some(*c),
                None => None,
            },
        ),
{
    let t = clean_track_title(title);
    let kws = get_format_keywords(audio_constraints);
    let mut cands: Vec<String> = Vec::new();
    if let Some(artist) = artist {
        let a = clean_artist_name(artist);
        push_string(&mut cands, concat3(a.as_str(), " ", t.as_str()));
        push_string(&mut cands, concat3(t.as_str(), " ", a.as_str()));
        push_with_prefix(&mut cands, concat4(a.as_str(), " ", t.as_str(), " ").as_str(), &kws);
    }
    push_string(&mut cands, copy_string(&t));
    assert(views(cands@) =~= track_candidates(
        match artist {
            Some(a) => Some(cleaned_artist(a@)),
            None => None,
        },
        cleaned_track_title(title@),
        format_keywords(
            match audio_constraints {
                Some(c) => Some(*c),
                None => None,
            },
        ),
    ));
    dedup_query_list(&cands)
}

/// Whether an optional artist can be cleaned.
fn artist_ok(artist: Option<&str>) -> (b: bool)
    ensures
        b == (artist matches Some(a) ==> artist_cleanable(a@)),
{
    match artist {
        Some(a) => is_artist_cleanable(a),
        None => true,
    }
}

/// Discography queries, or `None` when the artist cannot be cleaned.
pub fn try_build_discography_queries(
    artist: Option<&str>,
    audio_constraints: Option<&AudioSearchConstraints>,
) -> (q: Option<Vec<String>>)
    ensures
        (artist matches Some(a) ==> artist_cleanable(a@)) ==> (q matches Some(v) && views(v@)
            == discography_queries(
            match artist {
                Some(a) => Some(a@),
                None => None,
            },
            match audio_constraints {
                Some(c) => Some(*c),
                None => None,
            },
        )),
        !(artist matches Some(a) ==> artist_cleanable(a@)) ==> q is None,
{
    if artist_ok(artist) {
        Some(build_discography_queries(artist, audio_constraints))
    } else {
        None
    }
}

/// Album queries, or `None` when the artist cannot be cleaned.
pub fn try_build_album_queries(
    artist: Option<&str>,
    title: &str,
    track_count: usize,
    audio_constraints: Option<&AudioSearchConstraints>,
) -> (q: Option<Vec<String>>)
    ensures
        (artist matches Some(a) ==> artist_cleanable(a@)) ==> (q matches Some(v) && views(v@)
            == album_queries(
            match artist {
                Some(a) => Some(a@),
                None => None,
            },
            title@,
            track_count as nat,
            match audio_constraints {
                Some(c) => Some(*c),
                None => None,
            },
        )),
        !(artist matches Some(a) ==> artist_cleanable(a@)) ==> q is None,
{
    if artist_ok(artist) {
        Some(build_album_queries(artist, title, track_count, audio_constraints))
    } else {
        None
    }
}

/// Track queries, or `None` when the artist or the title cannot be cleaned.
pub fn try_build_track_queries(
    artist: Option<&str>,
    title: &str,
    audio_constraints: Option<&AudioSearchConstraints>,
) -> (q: Option<Vec<String>>)
    ensures
        ((artist matches Some(a) ==> artist_cleanable(a@)) && marker_cut_defined(
            title@,
            " (feat"@,
        )) ==> (q matches Some(v) && views(v@) == track_queries(
            match artist {
                Some(a) => Some(a@),
                None => None,
            },
            title@,
            match audio_constraints {
                Some(c) => Some(*c),
                None => None,
            },
        )),
        !((artist matches Some(a) ==> artist_cleanable(a@)) && marker_cut_defined(
            title@,
            " (feat"@,
        )) ==> q is None,
{
    if artist_ok(artist) && marker_cut_ok(title, " (feat") {
        Some(build_track_queries(artist, title, audio_constraints))
    } else {
        None
    }
}

// ---------------------------------------------------------------------------
// Query construction for a music ticket
// ---------------------------------------------------------------------------

/// Queries built for a music ticket, with the method that built them.
#[derive(Debug, Clone)]
pub struct MusicQueries {
    /// The queries, most specific first.
    pub queries: Vec<String>,
    /// The method that built them ("music").
    pub method: String,
}

/// Why no music queries were built.
#[derive(Debug, Clone, Copy, PartialEq, Eq, Structural)]
pub enum QueryBuildError {
    /// The ticket does not expect an album or a track; the generic builder
    /// handles it.
    NotMusic,
    /// The ticket's content gave no query.
    NoQueriesGenerated,
}

/// An optional text, as a sequence.
pub open spec fn opt_text(o: Option<String>) -> Option<Seq<char>> {
    match o {
        Some(s) => Some(s@),
        None => None,
    }
}

/// The queries of a music ticket: album queries (with the expected track
/// count) for an album, track queries for a track, none otherwise.
pub open spec fn music_query_list(c: QueryContext) -> Seq<Seq<char>> {
    match c.expected {
        Some(ExpectedContent::Album { artist, title, tracks }) => album_queries(
            opt_text(artist),
            title@,
            tracks@.len(),
            context_audio(c),
        ),
        Some(ExpectedContent::Track { artist, title }) => track_queries(
            opt_text(artist),
            title@,
            context_audio(c),
        ),
        _ => seq![],
    }
}

/// The ticket's artist and track title can be cleaned without failure.
pub open spec fn music_queries_defined(c: QueryContext) -> bool {
    match c.expected {
        Some(ExpectedContent::Album { artist, .. }) => opt_text(artist) matches Some(a) ==> artist_cleanable(a),
        Some(ExpectedContent::Track { artist, title }) => (opt_text(artist) matches Some(a)
            ==> artist_cleanable(a)) && marker_cut_defined(title@, " (feat"@),
        _ => true,
    }
}

/// The outcome of building music queries for a ticket.
pub open spec fn music_queries_outcome(c: QueryContext, r: Result<MusicQueries, QueryBuildError>) -> bool {
    if !(c.expected matches Some(ExpectedContent::Album { .. }) || c.expected matches Some(
        ExpectedContent::Track { .. },
    )) {
        r == Err::<MusicQueries, QueryBuildError>(QueryBuildError::NotMusic)
    } else if music_query_list(c).len() == 0 {
        r == Err::<MusicQueries, QueryBuildError>(QueryBuildError::NoQueriesGenerated)
    } else {
        r matches Ok(m) && views(m.queries@) == music_query_list(c) && m.method@ == "music"@
    }
}

/// Builds the search queries of a music ticket (see [`music_query_list`]).
pub fn build_queries(context: &QueryContext) -> (r: Result<MusicQueries, QueryBuildError>)
    requires
        music_queries_defined(*context),
    ensures
        music_queries_outcome(*context, r),
{
    let audio = context.audio_constraints();
    let queries = match &context.expected {
        Some(ExpectedContent::Album { artist, title, tracks }) => {
            let a: Option<&str> = match artist {
                Some(x) => Some(x.as_str()),
                None => None,
            };
            build_album_queries(a, title.as_str(), tracks.len(), audio)
        },
        Some(ExpectedContent::Track { artist, title }) => {
            let a: Option<&str> = match artist {
                Some(x) => Some(x.as_str()),
                None => None,
            };
            build_track_queries(a, title.as_str(), audio)
        },
        _ => {
            return Err(QueryBuildError::NotMusic);
        },
    };
    if queries.len() == 0 {
        return Err(QueryBuildError::NoQueriesGenerated);
    }
    Ok(MusicQueries { queries, method: "music".to_owned() })
}

/// Builds the search queries of a music ticket, or `None` when its artist
/// or track title cannot be cleaned.
pub fn try_build_queries(context: &QueryContext) -> (r: Option<Result<MusicQueries, QueryBuildError>>)
    ensures
        music_queries_defined(*context) ==> (r matches Some(q) && music_queries_outcome(*context, q)),
        !music_queries_defined(*context) ==> r is None,
{
    let ok = match &context.expected {
        Some(ExpectedContent::Album { artist, .. }) => match artist {
            Some(a) => is_artist_cleanable(a.as_str()),
            None => true,
        },
        Some(ExpectedContent::Track { artist, title }) => (match artist {
            Some(a) => is_artist_cleanable(a.as_str()),
            None => true,
        }) && marker_cut_ok(title.as_str(), " (feat"),
        _ => true,
    };
    if ok {
        Some(build_queries(context))
    } else {
        None
    }
}

// ---------------------------------------------------------------------------
// Small classifiers
// ---------------------------------------------------------------------------

/// Words ignored when matching titles.
pub open spec fn stop_word(w: Seq<char>) -> bool {
    ||| w == "the"@
    ||| w == "a"@
    ||| w == "an"@
    ||| w == "and"@
    ||| w == "or"@
    ||| w == "of"@
    ||| w == "in"@
    ||| w == "on"@
    ||| w == "at"@
    ||| w == "to"@
    ||| w == "for"@
    ||| w == "by"@
}

/// Whether a word is a stop word.
pub fn is_stop_word(word: &str) -> (b: bool)
    ensures
        b == stop_word(word@),
{
    str_eq(word, "the") || str_eq(word, "a") || str_eq(word, "an") || str_eq(word, "and")
        || str_eq(word, "or") || str_eq(word, "of") || str_eq(word, "in") || str_eq(word, "on")
        || str_eq(word, "at") || str_eq(word, "to") || str_eq(word, "for") || str_eq(word, "by")
}

/// The title mentions an encoding context that makes a number read as a bitrate.
pub open spec fn mentions_encoding(title: Seq<char>) -> bool {
    ||| seq_contains(title, "kbps"@)
    ||| seq_contains(title, "mp3"@)
    ||| seq_contains(title, "aac"@)
    ||| seq_contains(title, "cbr"@)
    ||| seq_contains(title, "vbr"@)
}

/// Bitrate read from a title: the first of 320, 256, 192, 160, 128, 96, 64
/// that occurs in it, provided the title mentions an encoding context.
pub open spec fn title_bitrate(title: Seq<char>) -> Option<u32> {
    if !mentions_encoding(title) {
        None
    } else if seq_contains(title, "320"@) {
        Some(320)
    } else if seq_contains(title, "256"@) {
        Some(256)
    } else if seq_contains(title, "192"@) {
        Some(192)
    } else if seq_contains(title, "160"@) {
        Some(160)
    } else if seq_contains(title, "128"@) {
        Some(128)
    } else if seq_contains(title, "96"@) {
        Some(96)
    } else if seq_contains(title, "64"@) {
        Some(64)
    } else {
        None
    }
}

/// Extracts a bitrate (in kbps) from a release title.
pub fn extract_bitrate(title: &str) -> (b: Option<u32>)
    ensures
        b == title_bitrate(title@),
{
    let ctx = str_contains(title, "kbps") || str_contains(title, "mp3") || str_contains(
        title,
        "aac",
    ) || str_contains(title, "cbr") || str_contains(title, "vbr");
    if !ctx {
        return None;
    }
    if str_contains(title, "320") {
        Some(320)
    } else if str_contains(title, "256") {
        Some(256)
    } else if str_contains(title, "192") {
        Some(192)
    } else if str_contains(title, "160") {
        Some(160)
    } else if str_contains(title, "128") {
        Some(128)
    } else if str_contains(title, "96") {
        Some(96)
    } else if str_contains(title, "64") {
        Some(64)
    } else {
        None
    }
}

// ---------------------------------------------------------------------------
// Discography detection
// ---------------------------------------------------------------------------

/// Title keywords that mark a discography or collection release.
pub open spec fn discography_keywords() -> Seq<Seq<char>> {
    seq![
        "discography"@,
        "discografia"@,
        "complete"@,
        "collection"@,
        "anthology"@,
        "box set"@,
        "boxset"@,
        "all albums"@,
        "studio albums"@,
        "complete works"@,
        "complete albums"@,
        "1965-"@,
        "1970-"@,
        "1975-"@,
        "1980-"@,
        "1985-"@,
        "1990-"@,
        "1995-"@,
        "2000-"@,
        "2005-"@,
        "2010-"@,
        "2015-"@,
        "2020-"@,
    ]
}

fn discography_keyword_list() -> (v: Vec<&'static str>)
    ensures
        str_views(v@) == discography_keywords(),
{
    let mut v: Vec<&'static str> = Vec::new();
    v.push("discography");
    v.push("discografia");
    v.push("complete");
    v.push("collection");
    v.push("anthology");
    v.push("box set");
    v.push("boxset");
    v.push("all albums");
    v.push("studio albums");
    v.push("complete works");
    v.push("complete albums");
    v.push("1965-");
    v.push("1970-");
    v.push("1975-");
    v.push("1980-");
    v.push("1985-");
    v.push("1990-");
    v.push("1995-");
    v.push("2000-");
    v.push("2005-");
    v.push("2010-");
    v.push("2015-");
    v.push("2020-");
    assert(str_views(v@) =~= discography_keywords());
    v
}

/// The regular expression for a year range such as "1970-2010".
pub open spec fn year_range_pattern() -> Seq<char> {
    "\\b(19|20)\\d{2}\\s*[-–]\\s*(19|20)\\d{2}\\b"@
}

/// Some keyword of `kws` occurs in `t`.
pub open spec fn contains_any(t: Seq<char>, kws: Seq<Seq<char>>) -> bool {
    exists|i: int| 0 <= i < kws.len() && seq_contains(t, #[trigger] kws[i])
}

/// Whether a release looks like a discography: a keyword in its lower-cased
/// title, a year range in it, or a size above 5 GB with the lower-cased
/// artist name in the title.
pub open spec fn looks_like_discography(artist: Option<Seq<char>>, title: Seq<char>, size: u64) -> bool {
    let t = lowercase(title);
    ||| contains_any(t, discography_keywords())
    ||| (regex_compiles(year_range_pattern()) && regex_finds(year_range_pattern(), t))
    ||| (size > 5_000_000_000 && (match artist {
        Some(a) => seq_contains(t, lowercase(a)),
        None => false,
    }))
}

pub(crate) fn contains_any_of(t: &str, kws: &Vec<&'static str>) -> (b: bool)
    ensures
        b == contains_any(t@, str_views(kws@)),
{
    let mut i: usize = 0;
    while i < kws.len()
        invariant
            i <= kws@.len(),
            forall|j: int| 0 <= j < i ==> !seq_contains(t@, #[trigger] str_views(kws@)[j]),
        decreases kws.len() - i,
    {
        if str_contains(t, kws[i]) {
            assert(seq_contains(t@, str_views(kws@)[i as int]));
            return true;
        }
        i += 1;
    }
    false
}

/// Whether a candidate appears to be a discography or collection.
pub fn is_discography_candidate(artist: Option<&str>, candidate: &TorrentCandidate) -> (b: bool)
    ensures
        b == looks_like_discography(
            match artist {
                Some(a) => Some(a@),
                None => None,
            },
            candidate.title@,
            candidate.size_bytes,
        ),
{
    let title_lower = to_lowercase(candidate.title.as_str());
    let kws = discography_keyword_list();
    if contains_any_of(title_lower.as_str(), &kws) {
        return true;
    }
    if let Some(re) = compile_pattern("\\b(19|20)\\d{2}\\s*[-–]\\s*(19|20)\\d{2}\\b") {
        if re.is_match(title_lower.as_str()) {
            return true;
        }
    }
    if candidate.size_bytes > 5_000_000_000 {
        if let Some(artist) = artist {
            let artist_lower = to_lowercase(artist);
            if str_contains(title_lower.as_str(), artist_lower.as_str()) {
                return true;
            }
        }
    }
    false
}


// ---------------------------------------------------------------------------
// Laws of query construction
// ---------------------------------------------------------------------------

/// De-duplication keeps only candidates, never an empty one (ignoring case),
/// never two equal up to case, and loses no candidate: every candidate whose
/// lower-cased form is non-empty has a kept query equal to it up to case.
pub proof fn lemma_dedup_queries(cands: Seq<Seq<char>>)
    ensures
        forall|i: int|
            0 <= i < dedup_queries(cands).len() ==> cands.contains(
                #[trigger] dedup_queries(cands)[i],
            ) && lowercase(dedup_queries(cands)[i]).len() > 0,
        forall|i: int, j: int|
            0 <= i < j < dedup_queries(cands).len() ==> lowercase(
                #[trigger] dedup_queries(cands)[i],
            ) != lowercase(#[trigger] dedup_queries(cands)[j]),
        forall|k: int|
            0 <= k < cands.len() && lowercase(#[trigger] cands[k]).len() > 0 ==> lowered(
                dedup_queries(cands),
            ).contains(lowercase(cands[k])),
    decreases cands.len(),
{
    if cands.len() > 0 {
        let prev_c = cands.drop_last();
        lemma_dedup_queries(prev_c);
        let prev = dedup_queries(prev_c);
        let q = cands.last();
        let d = dedup_queries(cands);
        assert(d == add_query_step(prev, q));
        assert forall|i: int| 0 <= i < d.len() implies cands.contains(#[trigger] d[i])
            && lowercase(d[i]).len() > 0 by {
            if i < prev.len() {
                assert(d[i] == prev[i]);
                let w = choose|w: int| 0 <= w < prev_c.len() && prev_c[w] == prev[i];
                assert(cands[w] == prev_c[w]);
            } else {
                assert(d[i] == q);
                assert(cands[cands.len() - 1] == q);
            }
        }
        assert forall|i: int, j: int| 0 <= i < j < d.len() implies lowercase(#[trigger] d[i])
            != lowercase(#[trigger] d[j]) by {
            if j < prev.len() {
                assert(d[i] == prev[i] && d[j] == prev[j]);
            } else {
                assert(d[j] == q);
                assert(d[i] == prev[i]);
                assert(lowered(prev)[i] == lowercase(prev[i]));
            }
        }
        assert forall|k: int| 0 <= k < cands.len() && lowercase(#[trigger] cands[k]).len() > 0
            implies lowered(d).contains(lowercase(cands[k])) by {
            if k < cands.len() - 1 {
                assert(cands[k] == prev_c[k]);
                let w = choose|w: int| 0 <= w < lowered(prev).len() && lowered(prev)[w] == lowercase(prev_c[k]);
                assert(lowered(d)[w] == lowered(prev)[w]);
            } else {
                assert(cands[k] == q);
                if lowered(prev).contains(lowercase(q)) {
                    let w = choose|w: int| 0 <= w < lowered(prev).len() && lowered(prev)[w] == lowercase(q);
                    assert(lowered(d)[w] == lowered(prev)[w]);
                } else {
                    assert(lowered(d)[d.len() - 1] == lowercase(q));
                }
            }
        }
    }
}

/// Some keyword of a list occurs in a text exactly when some member of the
/// list does.
pub proof fn lemma_contains_any_members(t: Seq<char>, kws: Seq<Seq<char>>)
    ensures
        contains_any(t, kws) <==> exists|k: Seq<char>| kws.contains(k) && #[trigger] seq_contains(t, k),
{
    if contains_any(t, kws) {
        let i = choose|i: int| 0 <= i < kws.len() && seq_contains(t, #[trigger] kws[i]);
        assert(kws.contains(kws[i]));
    }
    if exists|k: Seq<char>| kws.contains(k) && #[trigger] seq_contains(t, k) {
        let k = choose|k: Seq<char>| kws.contains(k) && #[trigger] seq_contains(t, k);
        let i = choose|i: int| 0 <= i < kws.len() && kws[i] == k;
        assert(seq_contains(t, kws[i]));
    }
}

/// Keywords of a list of formats are those of each format in turn.
proof fn lemma_keywords_of_filter_map(fs: Seq<AudioFormat>)
    ensures
        keywords_of(fs) == fs.filter_map(|f: AudioFormat| format_keyword(f)),
    decreases fs.len(),
{
    if fs.len() > 0 {
        lemma_keywords_of_filter_map(fs.drop_last());
    }
}

/// The format keywords of search constraints: when formats are preferred,
/// the upper-case name of each preferred format in order (FLAC, ALAC, AAC,
/// MP3, OPUS, OGG), WAV being left out; otherwise "FLAC" alone.  So every
/// preferred format other than WAV is searched for by name, once per time
/// it is listed, and nothing else is.
pub proof fn lemma_format_keywords_name_each_preference(c: Option<AudioSearchConstraints>)
    ensures
        format_keywords(c) == match c {
            Some(a) => if a.preferred_formats@.len() > 0 {
                a.preferred_formats@.filter_map(
                    |f: AudioFormat|
                        match f {
                            AudioFormat::Flac => Some("FLAC"@),
                            AudioFormat::Alac => Some("ALAC"@),
                            AudioFormat::Aac => Some("AAC"@),
                            AudioFormat::Mp3 => Some("MP3"@),
                            AudioFormat::Opus => Some("OPUS"@),
                            AudioFormat::OggVorbis => Some("OGG"@),
                            AudioFormat::Wav => None,
                        },
                )
            } else {
                seq!["FLAC"@]
            },
            None => seq!["FLAC"@],
        },
{
    if let Some(a) = c {
        lemma_keywords_of_filter_map(a.preferred_formats@);
        let named = |f: AudioFormat|
            match f {
                AudioFormat::Flac => Some("FLAC"@),
                AudioFormat::Alac => Some("ALAC"@),
                AudioFormat::Aac => Some("AAC"@),
                AudioFormat::Mp3 => Some("MP3"@),
                AudioFormat::Opus => Some("OPUS"@),
                AudioFormat::OggVorbis => Some("OGG"@),
                AudioFormat::Wav => None,
            };
        assert((|f: AudioFormat| format_keyword(f)) =~= named);
    }
}

/// A release whose lower-cased title names a collection (discography,
/// discografia, complete, collection, anthology, box set, boxset, all or
/// studio albums, complete works or albums) or the start of a year range
/// from 1965- to 2020- in steps of five years is taken for a discography,
/// whatever the artist and size.
pub proof fn lemma_collection_titles_are_discographies(
    artist: Option<Seq<char>>,
    title: Seq<char>,
    size: u64,
    k: Seq<char>,
)
    requires
        seq![
            "discography"@, "discografia"@, "complete"@, "collection"@, "anthology"@, "box set"@,
            "boxset"@, "all albums"@, "studio albums"@, "complete works"@, "complete albums"@,
            "1965-"@, "1970-"@, "1975-"@, "1980-"@, "1985-"@, "1990-"@, "1995-"@, "2000-"@,
            "2005-"@, "2010-"@, "2015-"@, "2020-"@,
        ].contains(k),
        seq_contains(lowercase(title), k),
    ensures
        looks_like_discography(artist, title, size),
{
    assert(discography_keywords() =~= seq![
            "discography"@, "discografia"@, "complete"@, "collection"@, "anthology"@, "box set"@,
            "boxset"@, "all albums"@, "studio albums"@, "complete works"@, "complete albums"@,
            "1965-"@, "1970-"@, "1975-"@, "1980-"@, "1985-"@, "1990-"@, "1995-"@, "2000-"@,
            "2005-"@, "2010-"@, "2015-"@, "2020-"@,
        ]);
    lemma_contains_any_members(lowercase(title), discography_keywords());
}

/// The bitrate read from a title: none unless the title mentions an
/// encoding (kbps, mp3, aac, cbr or vbr); otherwise the first of 320, 256,
/// 192, 160, 128, 96 and 64 that the title contains, if any.
pub proof fn lemma_title_bitrates(title: Seq<char>)
    ensures
        !(seq_contains(title, "kbps"@) || seq_contains(title, "mp3"@) || seq_contains(title, "aac"@)
            || seq_contains(title, "cbr"@) || seq_contains(title, "vbr"@)) ==> title_bitrate(title) is None,
        (seq_contains(title, "kbps"@) || seq_contains(title, "mp3"@) || seq_contains(title, "aac"@)
            || seq_contains(title, "cbr"@) || seq_contains(title, "vbr"@)) ==> title_bitrate(title) == if seq_contains(title, "320"@) {
            Some(320u32)
        } else if seq_contains(title, "256"@) {
            Some(256u32)
        } else if seq_contains(title, "192"@) {
            Some(192u32)
        } else if seq_contains(title, "160"@) {
            Some(160u32)
        } else if seq_contains(title, "128"@) {
            Some(128u32)
        } else if seq_contains(title, "96"@) {
            Some(96u32)
        } else if seq_contains(title, "64"@) {
            Some(64u32)
        } else {
            None
        },
{
}

/// The stop words ignored when matching titles are exactly: the, a, an,
/// and, or, of, in, on, at, to, for, by.
pub proof fn lemma_stop_words(w: Seq<char>)
    ensures
        stop_word(w) <==> seq!["the"@, "a"@, "an"@, "and"@, "or"@, "of"@, "in"@, "on"@, "at"@,
            "to"@, "for"@, "by"@].contains(w),
{
    let l = seq!["the"@, "a"@, "an"@, "and"@, "or"@, "of"@, "in"@, "on"@, "at"@, "to"@, "for"@, "by"@];
    if stop_word(w) {
        if w == "the"@ { assert(l[0] == w); }
        else if w == "a"@ { assert(l[1] == w); }
        else if w == "an"@ { assert(l[2] == w); }
        else if w == "and"@ { assert(l[3] == w); }
        else if w == "or"@ { assert(l[4] == w); }
        else if w == "of"@ { assert(l[5] == w); }
        else if w == "in"@ { assert(l[6] == w); }
        else if w == "on"@ { assert(l[7] == w); }
        else if w == "at"@ { assert(l[8] == w); }
        else if w == "to"@ { assert(l[9] == w); }
        else if w == "for"@ { assert(l[10] == w); }
        else { assert(l[11] == w); }
    }
}

/// A release over 5 GB whose title contains the artist's name, ignoring
/// case, is taken for a discography.
pub proof fn lemma_large_release_with_artist_is_discography(artist: Seq<char>, title: Seq<char>, size: u64)
    requires
        size > 5_000_000_000,
        seq_contains(lowercase(title), lowercase(artist)),
    ensures
        looks_like_discography(Some(artist), title, size),
{
}

/// Discography detection does not depend on the case of the artist name:
/// two names that lower-case alike give the same answer.
pub proof fn lemma_discography_ignores_artist_case(a1: Seq<char>, a2: Seq<char>, title: Seq<char>, size: u64)
    requires
        lowercase(a1) == lowercase(a2),
    ensures
        looks_like_discography(Some(a1), title, size) == looks_like_discography(Some(a2), title, size),
{
}

proof fn lemma_concat_starts_with(a: Seq<char>, b: Seq<char>)
    ensures
        starts_with(a + b, a),
{
    assert((a + b).take(a.len() as int) =~= a);
}

proof fn lemma_prefixed_start_with(a: Seq<char>, x: Seq<char>, kws: Seq<Seq<char>>)
    ensures
        forall|i: int| 0 <= i < kws.len() ==> starts_with(#[trigger] with_prefix(a + x, kws)[i], a),
{
    assert forall|i: int| 0 <= i < kws.len() implies starts_with(#[trigger] with_prefix(a + x, kws)[i], a) by {
        lemma_concat_starts_with(a, x + kws[i]);
        assert(with_prefix(a + x, kws)[i] =~= a + (x + kws[i]));
    }
}

/// Every discography query begins with the cleaned artist name, and the
/// queries are pairwise different up to case.
pub proof fn lemma_discography_queries_name_the_artist(
    a: Seq<char>,
    c: Option<AudioSearchConstraints>,
)
    ensures
        forall|i: int|
            0 <= i < discography_queries(Some(a), c).len() ==> starts_with(
                #[trigger] discography_queries(Some(a), c)[i],
                cleaned_artist(a),
            ),
        forall|i: int, j: int|
            0 <= i < j < discography_queries(Some(a), c).len() ==> lowercase(
                #[trigger] discography_queries(Some(a), c)[i],
            ) != lowercase(#[trigger] discography_queries(Some(a), c)[j]),
{
    let ca = cleaned_artist(a);
    let kws = format_keywords(c);
    let cands = discography_candidates(ca, kws);
    lemma_dedup_queries(cands);
    lemma_prefixed_start_with(ca, " discography "@, kws);
    lemma_prefixed_start_with(ca, " complete "@, kws);
    lemma_prefixed_start_with(ca, " "@, kws);
    lemma_concat_starts_with(ca, " discography"@);
    lemma_concat_starts_with(ca, " complete discography"@);
    lemma_concat_starts_with(ca, " complete collection"@);
    lemma_concat_starts_with(ca, " collection"@);
    lemma_concat_starts_with(ca, " all albums"@);
    lemma_concat_starts_with(ca, " studio albums"@);
    lemma_concat_starts_with(ca, " anthology"@);
    lemma_concat_starts_with(ca, " box set"@);
    assert forall|k: int| 0 <= k < cands.len() implies starts_with(#[trigger] cands[k], ca) by {
        let n = kws.len() as int;
        let part1 = with_prefix(ca + " discography "@, kws);
        let part3 = with_prefix(ca + " complete "@, kws);
        let part5 = with_prefix(ca + " "@, kws);
        if k < n {
            assert(cands[k] == part1[k]);
        } else if k == n {
            assert(cands[k] == ca + " discography"@);
        } else if k < 2 * n + 1 {
            assert(cands[k] == part3[k - n - 1]);
        } else if k < 2 * n + 8 {
            let idx = k - 2 * n - 1;
            if idx == 0 { assert(cands[k] == ca + " complete discography"@); }
            else if idx == 1 { assert(cands[k] == ca + " complete collection"@); }
            else if idx == 2 { assert(cands[k] == ca + " collection"@); }
            else if idx == 3 { assert(cands[k] == ca + " all albums"@); }
            else if idx == 4 { assert(cands[k] == ca + " studio albums"@); }
            else if idx == 5 { assert(cands[k] == ca + " anthology"@); }
            else { assert(cands[k] == ca + " box set"@); }
        } else {
            assert(cands[k] == part5[k - 2 * n - 8]);
        }
    }
    let d = discography_queries(Some(a), c);
    assert forall|i: int| 0 <= i < d.len() implies starts_with(#[trigger] d[i], ca) by {
        let w = choose|w: int| 0 <= w < cands.len() && cands[w] == d[i];
    }
}

} // verus!
