//! Signals used to rank music search results: the audio quality a release
//! title announces, how well the release is seeded, whether the title names
//! one of the user's preferred formats or a bitrate below the wanted one,
//! the red flags in it, and how a mapped track count compares with the
//! catalog's, and which words of an album or track title occur in a file
//! path.  Titles are taken lower-cased.  The fractional weights and ratios
//! that combine these signals into a score are applied by the caller.

use vstd::prelude::*;

use crate::converter::AudioFormat;
use crate::music::{
    clean_album_title, cleaned_album_title, contains_any, contains_any_of, lemma_contains_any_members, extract_bitrate,
    is_stop_word, stop_word, str_views, title_bitrate,
};
use crate::text::{
    ends_with, lowercase, seq_contains, split_words, str_contains, str_ends_with, to_lowercase,
    views, words_of,
};
use vstd::utf8::encode_utf8;

verus! {

// ---------------------------------------------------------------------------
// Announced format
// ---------------------------------------------------------------------------

/// The audio quality a release title announces.
#[derive(Debug, Clone, Copy, PartialEq, Eq, Structural)]
pub enum FormatClass {
    /// A lossless or high-resolution format.
    Lossless,
    /// A high-bitrate lossy encoding (320 kbps or V0).
    HighBitrate,
    /// Some other lossy format.
    Lossy,
    /// No format keyword.
    Unstated,
}

/// Keywords of lossless releases when ranking albums and tracks.
pub open spec fn release_lossless_keywords() -> Seq<Seq<char>> {
    seq!["flac"@, "24bit"@, "24-bit"@, "hi-res"@, "dsd"@, "alac"@]
}

/// Keywords of lossy releases when ranking albums and tracks.
pub open spec fn release_lossy_keywords() -> Seq<Seq<char>> {
    seq!["mp3"@, "aac"@, "ogg"@]
}

/// Keywords of lossless releases when ranking discographies.
pub open spec fn discography_lossless_keywords() -> Seq<Seq<char>> {
    seq!["flac"@, "24bit"@, "hi-res"@]
}

/// Keywords of lossy releases when ranking discographies.
pub open spec fn discography_lossy_keywords() -> Seq<Seq<char>> {
    seq!["mp3"@, "aac"@]
}

/// Keywords of high-bitrate lossy encodings.
pub open spec fn high_bitrate_keywords() -> Seq<Seq<char>> {
    seq!["320"@, "v0"@]
}

/// The class of a title: lossless keywords take precedence over
/// high-bitrate ones, which take precedence over lossy ones.
pub open spec fn format_class_of(
    title: Seq<char>,
    lossless: Seq<Seq<char>>,
    lossy: Seq<Seq<char>>,
) -> FormatClass {
    if contains_any(title, lossless) {
        FormatClass::Lossless
    } else if contains_any(title, high_bitrate_keywords()) {
        FormatClass::HighBitrate
    } else if contains_any(title, lossy) {
        FormatClass::Lossy
    } else {
        FormatClass::Unstated
    }
}

/// How album and track release titles are classified: lossless when the
/// title names FLAC, 24bit, 24-bit, hi-res, DSD or ALAC; else high bitrate
/// when it names 320 or V0; else lossy when it names MP3, AAC or OGG; else
/// unstated.
pub proof fn lemma_release_format_classes(title: Seq<char>)
    ensures
        (format_class_of(title, release_lossless_keywords(), release_lossy_keywords())
            == FormatClass::Lossless) <==> (exists|k: Seq<char>|
            seq!["flac"@, "24bit"@, "24-bit"@, "hi-res"@, "dsd"@, "alac"@].contains(k)
                && #[trigger] seq_contains(title, k)),
        (format_class_of(title, release_lossless_keywords(), release_lossy_keywords())
            == FormatClass::HighBitrate) <==> (!(exists|k: Seq<char>|
            seq!["flac"@, "24bit"@, "24-bit"@, "hi-res"@, "dsd"@, "alac"@].contains(k)
                && #[trigger] seq_contains(title, k)) && exists|k: Seq<char>|
            seq!["320"@, "v0"@].contains(k) && #[trigger] seq_contains(title, k)),
        (format_class_of(title, release_lossless_keywords(), release_lossy_keywords())
            == FormatClass::Lossy) <==> (!(exists|k: Seq<char>|
            seq!["flac"@, "24bit"@, "24-bit"@, "hi-res"@, "dsd"@, "alac"@].contains(k)
                && #[trigger] seq_contains(title, k)) && !(exists|k: Seq<char>|
            seq!["320"@, "v0"@].contains(k) && #[trigger] seq_contains(title, k)) && exists|
            k: Seq<char>,
        | seq!["mp3"@, "aac"@, "ogg"@].contains(k) && #[trigger] seq_contains(title, k)),
{
    assert(release_lossless_keywords() =~= seq!["flac"@, "24bit"@, "24-bit"@, "hi-res"@, "dsd"@, "alac"@]);
    assert(high_bitrate_keywords() =~= seq!["320"@, "v0"@]);
    assert(release_lossy_keywords() =~= seq!["mp3"@, "aac"@, "ogg"@]);
    lemma_contains_any_members(title, release_lossless_keywords());
    lemma_contains_any_members(title, high_bitrate_keywords());
    lemma_contains_any_members(title, release_lossy_keywords());
}

/// How discography titles are classified: lossless when the title names
/// FLAC, 24bit or hi-res; else high bitrate when it names 320 or V0; else
/// lossy when it names MP3 or AAC; else unstated.
pub proof fn lemma_discography_format_classes(title: Seq<char>)
    ensures
        (format_class_of(title, discography_lossless_keywords(), discography_lossy_keywords())
            == FormatClass::Lossless) <==> (exists|k: Seq<char>|
            seq!["flac"@, "24bit"@, "hi-res"@].contains(k) && #[trigger] seq_contains(title, k)),
        (format_class_of(title, discography_lossless_keywords(), discography_lossy_keywords())
            == FormatClass::HighBitrate) <==> (!(exists|k: Seq<char>|
            seq!["flac"@, "24bit"@, "hi-res"@].contains(k) && #[trigger] seq_contains(title, k))
            && exists|k: Seq<char>| seq!["320"@, "v0"@].contains(k) && #[trigger] seq_contains(title, k)),
        (format_class_of(title, discography_lossless_keywords(), discography_lossy_keywords())
            == FormatClass::Lossy) <==> (!(exists|k: Seq<char>|
            seq!["flac"@, "24bit"@, "hi-res"@].contains(k) && #[trigger] seq_contains(title, k))
            && !(exists|k: Seq<char>| seq!["320"@, "v0"@].contains(k) && #[trigger] seq_contains(title, k))
            && exists|k: Seq<char>| seq!["mp3"@, "aac"@].contains(k) && #[trigger] seq_contains(title, k)),
{
    assert(discography_lossless_keywords() =~= seq!["flac"@, "24bit"@, "hi-res"@]);
    assert(high_bitrate_keywords() =~= seq!["320"@, "v0"@]);
    assert(discography_lossy_keywords() =~= seq!["mp3"@, "aac"@]);
    lemma_contains_any_members(title, discography_lossless_keywords());
    lemma_contains_any_members(title, high_bitrate_keywords());
    lemma_contains_any_members(title, discography_lossy_keywords());
}

/// The red flags of a lower-cased title: a compilation when it names
/// various artist(s), "v.a.", "va -" or compilation; a sample when it names
/// sample, preview or promo; live when it has "[live]", "(live)" or
/// " live "; a tribute when it names tribute, "covered by" or karaoke; a
/// video when it names DVD, Blu-ray or "concert video".
pub proof fn lemma_red_flag_keywords(title: Seq<char>)
    ensures
        red_flags_of(title).compilation <==> exists|k: Seq<char>|
            seq!["various artist"@, "v.a."@, "va -"@, "compilation"@].contains(k)
                && #[trigger] seq_contains(title, k),
        red_flags_of(title).sample <==> exists|k: Seq<char>|
            seq!["sample"@, "preview"@, "promo"@].contains(k) && #[trigger] seq_contains(title, k),
        red_flags_of(title).live <==> exists|k: Seq<char>|
            seq!["[live]"@, "(live)"@, " live "@].contains(k) && #[trigger] seq_contains(title, k),
        red_flags_of(title).tribute <==> exists|k: Seq<char>|
            seq!["tribute"@, "covered by"@, "karaoke"@].contains(k) && #[trigger] seq_contains(title, k),
        red_flags_of(title).video <==> exists|k: Seq<char>|
            seq!["dvd"@, "blu-ray"@, "concert video"@].contains(k) && #[trigger] seq_contains(title, k),
{
    assert(compilation_keywords() =~= seq!["various artist"@, "v.a."@, "va -"@, "compilation"@]);
    assert(sample_keywords() =~= seq!["sample"@, "preview"@, "promo"@]);
    assert(live_keywords() =~= seq!["[live]"@, "(live)"@, " live "@]);
    assert(tribute_keywords() =~= seq!["tribute"@, "covered by"@, "karaoke"@]);
    assert(video_keywords() =~= seq!["dvd"@, "blu-ray"@, "concert video"@]);
    lemma_contains_any_members(title, compilation_keywords());
    lemma_contains_any_members(title, sample_keywords());
    lemma_contains_any_members(title, live_keywords());
    lemma_contains_any_members(title, tribute_keywords());
    lemma_contains_any_members(title, video_keywords());
}

/// A lower-cased path is an audio file exactly when it ends with flac,
/// mp3, ogg, opus, m4a, aac, wav or alac.
pub proof fn lemma_audio_endings(path: Seq<char>)
    ensures
        audio_path(path) <==> exists|k: Seq<char>|
            seq!["flac"@, "mp3"@, "ogg"@, "opus"@, "m4a"@, "aac"@, "wav"@, "alac"@].contains(k)
                && #[trigger] ends_with(path, k),
{
    let l = seq!["flac"@, "mp3"@, "ogg"@, "opus"@, "m4a"@, "aac"@, "wav"@, "alac"@];
    assert(audio_endings() =~= l);
    if audio_path(path) {
        let i = choose|i: int| 0 <= i < audio_endings().len() && ends_with(path, #[trigger] audio_endings()[i]);
        assert(l.contains(l[i]));
    }
    if exists|k: Seq<char>| l.contains(k) && #[trigger] ends_with(path, k) {
        let k = choose|k: Seq<char>| l.contains(k) && #[trigger] ends_with(path, k);
        let i = choose|i: int| 0 <= i < l.len() && l[i] == k;
        assert(ends_with(path, audio_endings()[i]));
    }
}

/// A preferred format is named in a lower-cased title when the title
/// contains its name: flac, alac, aac, mp3, opus, and ogg or vorbis for Ogg
/// Vorbis; WAV is never named.
pub proof fn lemma_preferred_format_names(f: AudioFormat, title: Seq<char>)
    ensures
        format_named_in(f, title) <==> match f {
            AudioFormat::Flac => seq_contains(title, "flac"@),
            AudioFormat::Alac => seq_contains(title, "alac"@),
            AudioFormat::Aac => seq_contains(title, "aac"@),
            AudioFormat::Mp3 => seq_contains(title, "mp3"@),
            AudioFormat::Opus => seq_contains(title, "opus"@),
            AudioFormat::OggVorbis => seq_contains(title, "ogg"@) || seq_contains(title, "vorbis"@),
            AudioFormat::Wav => false,
        },
{
}

/// A title naming a lossless format, ALAC among them, is lossless.
pub proof fn lemma_lossless_names_are_lossless(title: Seq<char>, k: Seq<char>)
    requires
        k == "flac"@ || k == "24bit"@ || k == "24-bit"@ || k == "hi-res"@ || k == "dsd"@ || k == "alac"@,
        seq_contains(title, k),
    ensures
        format_class_of(title, release_lossless_keywords(), release_lossy_keywords()) == FormatClass::Lossless,
{
    lemma_release_format_classes(title);
    assert(seq!["flac"@, "24bit"@, "24-bit"@, "hi-res"@, "dsd"@, "alac"@].contains(k)) by {
        let l = seq!["flac"@, "24bit"@, "24-bit"@, "hi-res"@, "dsd"@, "alac"@];
        if k == "flac"@ { assert(l[0] == k); }
        else if k == "24bit"@ { assert(l[1] == k); }
        else if k == "24-bit"@ { assert(l[2] == k); }
        else if k == "hi-res"@ { assert(l[3] == k); }
        else if k == "dsd"@ { assert(l[4] == k); }
        else { assert(l[5] == k); }
    }
}

fn high_bitrate_list() -> (v: Vec<&'static str>)
    ensures
        str_views(v@) == high_bitrate_keywords(),
{
    let mut v: Vec<&'static str> = Vec::new();
    v.push("320");
    v.push("v0");
    assert(str_views(v@) =~= high_bitrate_keywords());
    v
}

fn classify(title: &str, lossless: &Vec<&'static str>, lossy: &Vec<&'static str>) -> (c: FormatClass)
    ensures
        c == format_class_of(title@, str_views(lossless@), str_views(lossy@)),
{
    if contains_any_of(title, lossless) {
        FormatClass::Lossless
    } else if contains_any_of(title, &high_bitrate_list()) {
        FormatClass::HighBitrate
    } else if contains_any_of(title, lossy) {
        FormatClass::Lossy
    } else {
        FormatClass::Unstated
    }
}

/// The format class of a lower-cased album or track release title.
pub fn release_format_class(title: &str) -> (c: FormatClass)
    ensures
        c == format_class_of(title@, release_lossless_keywords(), release_lossy_keywords()),
{
    let mut lossless: Vec<&'static str> = Vec::new();
    lossless.push("flac");
    lossless.push("24bit");
    lossless.push("24-bit");
    lossless.push("hi-res");
    lossless.push("dsd");
    lossless.push("alac");
    assert(str_views(lossless@) =~= release_lossless_keywords());
    let mut lossy: Vec<&'static str> = Vec::new();
    lossy.push("mp3");
    lossy.push("aac");
    lossy.push("ogg");
    assert(str_views(lossy@) =~= release_lossy_keywords());
    classify(title, &lossless, &lossy)
}

/// The format class of a lower-cased discography release title.
pub fn discography_format_class(title: &str) -> (c: FormatClass)
    ensures
        c == format_class_of(title@, discography_lossless_keywords(), discography_lossy_keywords()),
{
    let mut lossless: Vec<&'static str> = Vec::new();
    lossless.push("flac");
    lossless.push("24bit");
    lossless.push("hi-res");
    assert(str_views(lossless@) =~= discography_lossless_keywords());
    let mut lossy: Vec<&'static str> = Vec::new();
    lossy.push("mp3");
    lossy.push("aac");
    assert(str_views(lossy@) =~= discography_lossy_keywords());
    classify(title, &lossless, &lossy)
}

// ---------------------------------------------------------------------------
// Seeding
// ---------------------------------------------------------------------------

/// How well a release is seeded.
#[derive(Debug, Clone, Copy, PartialEq, Eq, Structural)]
pub enum SeederTier {
    /// No seeders.
    Dead,
    /// One or two seeders.
    Scarce,
    /// Three to ten seeders.
    Moderate,
    /// Eleven to fifty seeders.
    Healthy,
    /// More than fifty seeders.
    Abundant,
}

/// The tier of a seeder count.
pub open spec fn seeder_tier_of(seeders: u32) -> SeederTier {
    if seeders == 0 {
        SeederTier::Dead
    } else if seeders <= 2 {
        SeederTier::Scarce
    } else if seeders <= 10 {
        SeederTier::Moderate
    } else if seeders <= 50 {
        SeederTier::Healthy
    } else {
        SeederTier::Abundant
    }
}

/// Seeder tiers: none is dead, one or two scarce, three to ten moderate,
/// eleven to fifty healthy, more than fifty abundant; more seeders never
/// give a lower tier.
pub proof fn lemma_seeder_tiers(a: u32, b: u32)
    ensures
        a == 0 <==> seeder_tier_of(a) == SeederTier::Dead,
        (1 <= a && a <= 2) <==> seeder_tier_of(a) == SeederTier::Scarce,
        (3 <= a && a <= 10) <==> seeder_tier_of(a) == SeederTier::Moderate,
        (11 <= a && a <= 50) <==> seeder_tier_of(a) == SeederTier::Healthy,
        a > 50 <==> seeder_tier_of(a) == SeederTier::Abundant,
        a <= b && seeder_tier_of(b) == SeederTier::Dead ==> seeder_tier_of(a) == SeederTier::Dead,
        a <= b && seeder_tier_of(a) == SeederTier::Abundant ==> seeder_tier_of(b) == SeederTier::Abundant,
{
}

/// The tier of a seeder count.
pub fn seeder_tier(seeders: u32) -> (t: SeederTier)
    ensures
        t == seeder_tier_of(seeders),
{
    if seeders == 0 {
        SeederTier::Dead
    } else if seeders <= 2 {
        SeederTier::Scarce
    } else if seeders <= 10 {
        SeederTier::Moderate
    } else if seeders <= 50 {
        SeederTier::Healthy
    } else {
        SeederTier::Abundant
    }
}

// ---------------------------------------------------------------------------
// The user's preferences
// ---------------------------------------------------------------------------

/// A lower-cased title names format `f` (WAV has no keyword).
pub open spec fn format_named_in(f: AudioFormat, title: Seq<char>) -> bool {
    match f {
        AudioFormat::Flac => seq_contains(title, "flac"@),
        AudioFormat::Alac => seq_contains(title, "alac"@),
        AudioFormat::Aac => seq_contains(title, "aac"@),
        AudioFormat::Mp3 => seq_contains(title, "mp3"@),
        AudioFormat::Opus => seq_contains(title, "opus"@),
        AudioFormat::OggVorbis => seq_contains(title, "ogg"@) || seq_contains(title, "vorbis"@),
        AudioFormat::Wav => false,
    }
}

fn names_format(f: AudioFormat, title: &str) -> (b: bool)
    ensures
        b == format_named_in(f, title@),
{
    match f {
        AudioFormat::Flac => str_contains(title, "flac"),
        AudioFormat::Alac => str_contains(title, "alac"),
        AudioFormat::Aac => str_contains(title, "aac"),
        AudioFormat::Mp3 => str_contains(title, "mp3"),
        AudioFormat::Opus => str_contains(title, "opus"),
        AudioFormat::OggVorbis => str_contains(title, "ogg") || str_contains(title, "vorbis"),
        AudioFormat::Wav => false,
    }
}

/// Whether a lower-cased title names one of the preferred formats.
pub fn names_preferred_format(preferred: &Vec<AudioFormat>, title: &str) -> (b: bool)
    ensures
        b == exists|i: int| 0 <= i < preferred@.len() && format_named_in(#[trigger] preferred@[i], title@),
{
    let mut i: usize = 0;
    while i < preferred.len()
        invariant
            i <= preferred@.len(),
            forall|j: int| 0 <= j < i ==> !format_named_in(#[trigger] preferred@[j], title@),
        decreases preferred.len() - i,
    {
        if names_format(preferred[i], title) {
            return true;
        }
        i += 1;
    }
    false
}

/// How a title's bitrate compares with the wanted minimum.
#[derive(Debug, Clone, Copy, PartialEq, Eq, Structural)]
pub enum BitrateCheck {
    /// No minimum wanted, or no bitrate in the title.
    NotApplicable,
    /// The title's bitrate reaches the minimum.
    Meets,
    /// The title's bitrate is below the minimum.
    Below,
}

/// The comparison of a title's bitrate with the wanted minimum.
pub open spec fn bitrate_check_of(min_bitrate_kbps: Option<u32>, title: Seq<char>) -> BitrateCheck {
    match min_bitrate_kbps {
        None => BitrateCheck::NotApplicable,
        Some(min) => match title_bitrate(title) {
            None => BitrateCheck::NotApplicable,
            Some(b) => if b >= min {
                BitrateCheck::Meets
            } else {
                BitrateCheck::Below
            },
        },
    }
}

/// Compares the bitrate a lower-cased title states with the wanted minimum.
pub fn check_bitrate(min_bitrate_kbps: Option<u32>, title: &str) -> (c: BitrateCheck)
    ensures
        c == bitrate_check_of(min_bitrate_kbps, title@),
{
    match min_bitrate_kbps {
        None => BitrateCheck::NotApplicable,
        Some(min) => match extract_bitrate(title) {
            None => BitrateCheck::NotApplicable,
            Some(b) => if b >= min {
                BitrateCheck::Meets
            } else {
                BitrateCheck::Below
            },
        },
    }
}

// ---------------------------------------------------------------------------
// Red flags
// ---------------------------------------------------------------------------

/// Keywords of compilations and various-artists releases.
pub open spec fn compilation_keywords() -> Seq<Seq<char>> {
    seq!["various artist"@, "v.a."@, "va -"@, "compilation"@]
}

/// Keywords of samplers, previews and promotional releases.
pub open spec fn sample_keywords() -> Seq<Seq<char>> {
    seq!["sample"@, "preview"@, "promo"@]
}

/// Keywords of live recordings.
pub open spec fn live_keywords() -> Seq<Seq<char>> {
    seq!["[live]"@, "(live)"@, " live "@]
}

/// Keywords of tribute, cover and karaoke albums.
pub open spec fn tribute_keywords() -> Seq<Seq<char>> {
    seq!["tribute"@, "covered by"@, "karaoke"@]
}

/// Keywords of video releases.
pub open spec fn video_keywords() -> Seq<Seq<char>> {
    seq!["dvd"@, "blu-ray"@, "concert video"@]
}

/// The red flags found in a release title.
#[derive(Debug, Clone, Copy, PartialEq, Eq, Structural)]
pub struct RedFlags {
    /// A compilation or various-artists release.
    pub compilation: bool,
    /// A sampler, preview or promotional release.
    pub sample: bool,
    /// A live recording.
    pub live: bool,
    /// A tribute, cover or karaoke album.
    pub tribute: bool,
    /// A video rather than an audio release.
    pub video: bool,
}

/// The red flags of a lower-cased title.
pub open spec fn red_flags_of(title: Seq<char>) -> RedFlags {
    RedFlags {
        compilation: contains_any(title, compilation_keywords()),
        sample: contains_any(title, sample_keywords()),
        live: contains_any(title, live_keywords()),
        tribute: contains_any(title, tribute_keywords()),
        video: contains_any(title, video_keywords()),
    }
}

/// Finds the red flags in a lower-cased release title.
pub fn red_flags(title: &str) -> (f: RedFlags)
    ensures
        f == red_flags_of(title@),
{
    let mut comp: Vec<&'static str> = Vec::new();
    comp.push("various artist");
    comp.push("v.a.");
    comp.push("va -");
    comp.push("compilation");
    assert(str_views(comp@) =~= compilation_keywords());
    let mut sample: Vec<&'static str> = Vec::new();
    sample.push("sample");
    sample.push("preview");
    sample.push("promo");
    assert(str_views(sample@) =~= sample_keywords());
    let mut live: Vec<&'static str> = Vec::new();
    live.push("[live]");
    live.push("(live)");
    live.push(" live ");
    assert(str_views(live@) =~= live_keywords());
    let mut tribute: Vec<&'static str> = Vec::new();
    tribute.push("tribute");
    tribute.push("covered by");
    tribute.push("karaoke");
    assert(str_views(tribute@) =~= tribute_keywords());
    let mut video: Vec<&'static str> = Vec::new();
    video.push("dvd");
    video.push("blu-ray");
    video.push("concert video");
    assert(str_views(video@) =~= video_keywords());
    RedFlags {
        compilation: contains_any_of(title, &comp),
        sample: contains_any_of(title, &sample),
        live: contains_any_of(title, &live),
        tribute: contains_any_of(title, &tribute),
        video: contains_any_of(title, &video),
    }
}

/// How strongly a red flag counts against a release.
#[derive(Debug, Clone, Copy, PartialEq, Eq, Structural)]
pub enum Penalty {
    /// Not at all.
    Waived,
    /// Mildly.
    Mild,
    /// Strongly.
    Strong,
}

/// A compilation counts strongly when the user avoids compilations, mildly
/// when a specific artist is expected, and not otherwise.
pub open spec fn compilation_penalty_of(
    is_compilation: bool,
    avoid_compilations: bool,
    artist_expected: bool,
) -> Penalty {
    if !is_compilation {
        Penalty::Waived
    } else if avoid_compilations {
        Penalty::Strong
    } else if artist_expected {
        Penalty::Mild
    } else {
        Penalty::Waived
    }
}

/// How a compilation flag counts.
pub fn compilation_penalty(is_compilation: bool, avoid_compilations: bool, artist_expected: bool) -> (p: Penalty)
    ensures
        p == compilation_penalty_of(is_compilation, avoid_compilations, artist_expected),
{
    if !is_compilation {
        Penalty::Waived
    } else if avoid_compilations {
        Penalty::Strong
    } else if artist_expected {
        Penalty::Mild
    } else {
        Penalty::Waived
    }
}

/// A live recording counts strongly when the user avoids live recordings,
/// mildly when the expected title (lower-cased) does not mention "live" or
/// there is none, and not otherwise.
pub open spec fn live_penalty_of(
    is_live: bool,
    avoid_live: bool,
    expected_title: Option<Seq<char>>,
) -> Penalty {
    if !is_live {
        Penalty::Waived
    } else if avoid_live {
        Penalty::Strong
    } else if (match expected_title {
        Some(t) => !seq_contains(lowercase(t), "live"@),
        None => true,
    }) {
        Penalty::Mild
    } else {
        Penalty::Waived
    }
}

/// How a live-recording flag counts.
pub fn live_penalty(is_live: bool, avoid_live: bool, expected_title: Option<&str>) -> (p: Penalty)
    ensures
        p == live_penalty_of(
            is_live,
            avoid_live,
            match expected_title {
                Some(t) => Some(t@),
                None => None,
            },
        ),
{
    if !is_live {
        Penalty::Waived
    } else if avoid_live {
        Penalty::Strong
    } else {
        let expected_not_live = match expected_title {
            Some(t) => {
                let lower = to_lowercase(t);
                !str_contains(lower.as_str(), "live")
            },
            None => true,
        };
        if expected_not_live {
            Penalty::Mild
        } else {
            Penalty::Waived
        }
    }
}

// ---------------------------------------------------------------------------
// Track count against the catalog
// ---------------------------------------------------------------------------

/// How the number of mapped tracks compares with the catalog's count.
#[derive(Debug, Clone, Copy, PartialEq, Eq, Structural)]
pub enum TrackCountCheck {
    /// Nothing mapped, or no count in the catalog.
    Unchecked,
    /// The counts are equal.
    Exact,
    /// They differ by one or two (bonus tracks).
    Close,
    /// They differ by more than half the catalog's count.
    Mismatch,
    /// They differ, but not by much.
    Inconclusive,
}

/// A count as a 32-bit signed integer reads it (counts above `i32::MAX`
/// wrap to negative values).
pub open spec fn as_signed(n: u32) -> int {
    if n <= i32::MAX {
        n as int
    } else {
        n - 0x1_0000_0000
    }
}

/// The comparison of `mapped` tracks with the catalog's `expected` count,
/// with the difference taken between the counts read as signed integers.
pub open spec fn track_count_check_of(mapped: u32, expected: u32) -> TrackCountCheck {
    let d = as_signed(mapped) - as_signed(expected);
    let diff = if d < 0 {
        -d
    } else {
        d
    };
    if mapped == 0 || expected == 0 {
        TrackCountCheck::Unchecked
    } else if mapped == expected {
        TrackCountCheck::Exact
    } else if diff <= 2 {
        TrackCountCheck::Close
    } else if diff > expected / 2 {
        TrackCountCheck::Mismatch
    } else {
        TrackCountCheck::Inconclusive
    }
}

/// Compares the number of mapped tracks with the catalog's count.  The
/// difference of the two counts, read as signed integers, must fit in an
/// `i32`.
pub fn check_track_count(mapped: u32, expected: u32) -> (c: TrackCountCheck)
    requires
        mapped == 0 || expected == 0 || (i32::MIN <= as_signed(mapped) - as_signed(expected)
            <= i32::MAX),
    ensures
        c == track_count_check_of(mapped, expected),
{
    if mapped == 0 || expected == 0 {
        return TrackCountCheck::Unchecked;
    }
    if mapped == expected {
        return TrackCountCheck::Exact;
    }
    let m: i64 = if mapped <= 2147483647 {
        mapped as i64
    } else {
        mapped as i64 - 4294967296
    };
    let e: i64 = if expected <= 2147483647 {
        expected as i64
    } else {
        expected as i64 - 4294967296
    };
    let d: i64 = m - e;
    let diff: i64 = if d < 0 {
        -d
    } else {
        d
    };
    if diff <= 2 {
        TrackCountCheck::Close
    } else if diff > (expected / 2) as i64 {
        TrackCountCheck::Mismatch
    } else {
        TrackCountCheck::Inconclusive
    }
}

// ---------------------------------------------------------------------------
// Words of titles found in file paths
// ---------------------------------------------------------------------------

/// A word that counts when matching titles: longer than two bytes (in UTF-8)
/// and not a stop word.
pub open spec fn significant(w: Seq<char>) -> bool {
    encode_utf8(w).len() > 2 && !stop_word(w)
}

/// The significant words of a list, in order.
pub open spec fn significant_words(ws: Seq<Seq<char>>) -> Seq<Seq<char>>
    decreases ws.len(),
{
    if ws.len() == 0 {
        seq![]
    } else if significant(ws.last()) {
        significant_words(ws.drop_last()).push(ws.last())
    } else {
        significant_words(ws.drop_last())
    }
}

/// The significant words of a text, in order.
pub fn significant_words_in(text: &str) -> (out: Vec<String>)
    ensures
        views(out@) == significant_words(words_of(text@)),
{
    let words = split_words(text);
    let mut out: Vec<String> = Vec::new();
    let mut i: usize = 0;
    while i < words.len()
        invariant
            i <= words@.len(),
            views(words@) == words_of(text@),
            views(out@) == significant_words(views(words@).take(i as int)),
        decreases words.len() - i,
    {
        let w = &words[i];
        assert(views(words@).take(i as int + 1).drop_last() =~= views(words@).take(i as int));
        assert(views(words@).take(i as int + 1).last() == w@);
        let ws = w.as_str();
        if ws.as_bytes().len() > 2 && !is_stop_word(ws) {
            let ghost before = views(out@);
            out.push(w.clone());
            assert(views(out@) =~= before.push(w@));
        }
        i += 1;
    }
    assert(views(words@).take(words@.len() as int) =~= views(words@));
    out
}

/// How many of `words` occur in `text`.
pub open spec fn hit_count(words: Seq<Seq<char>>, text: Seq<char>) -> nat
    decreases words.len(),
{
    if words.len() == 0 {
        0
    } else {
        hit_count(words.drop_last(), text) + if seq_contains(text, words.last()) {
            1nat
        } else {
            0nat
        }
    }
}

/// Counts the words of `words` that occur in `text`.
pub fn count_hits(words: &Vec<String>, text: &str) -> (n: usize)
    ensures
        n == hit_count(views(words@), text@),
{
    let mut n: usize = 0;
    let mut i: usize = 0;
    while i < words.len()
        invariant
            i <= words@.len(),
            n <= i,
            n == hit_count(views(words@).take(i as int), text@),
        decreases words.len() - i,
    {
        assert(views(words@).take(i as int + 1).drop_last() =~= views(words@).take(i as int));
        assert(views(words@).take(i as int + 1).last() == words@[i as int]@);
        if str_contains(text, words[i].as_str()) {
            n += 1;
        }
        i += 1;
    }
    assert(views(words@).take(words@.len() as int) =~= views(words@));
    n
}

/// The words of an album title used to find the album in a file listing.
#[derive(Debug, Clone)]
pub struct AlbumWords {
    /// The cleaned, lower-cased title.
    pub clean: String,
    /// Its significant words.
    pub significant: Vec<String>,
}

/// The matching words of an album title.
pub fn album_words(title: &str) -> (a: AlbumWords)
    ensures
        a.clean@ == lowercase(cleaned_album_title(title@)),
        views(a.significant@) == significant_words(words_of(a.clean@)),
{
    let cleaned = clean_album_title(title);
    let clean = to_lowercase(cleaned.as_str());
    let significant = significant_words_in(clean.as_str());
    AlbumWords { clean, significant }
}

/// How a text bears out a title.
#[derive(Debug, Clone, Copy, PartialEq, Eq, Structural)]
pub enum WordEvidence {
    /// The title has no significant word: whether the whole title occurs.
    Phrase(bool),
    /// How many of the title's significant words occur, out of how many.
    Words { hits: usize, total: usize },
}

/// The evidence that `text` gives of a title whose text is `phrase` and
/// whose significant words are `significant`.
pub open spec fn word_evidence_of(
    phrase: Seq<char>,
    significant: Seq<Seq<char>>,
    text: Seq<char>,
) -> WordEvidence {
    if significant.len() == 0 {
        WordEvidence::Phrase(seq_contains(text, phrase))
    } else {
        WordEvidence::Words { hits: hit_count(significant, text) as usize, total: significant.len() as usize }
    }
}

/// The evidence that a lower-cased text gives of a title.
pub fn word_evidence(phrase: &str, significant: &Vec<String>, text: &str) -> (e: WordEvidence)
    ensures
        e == word_evidence_of(phrase@, views(significant@), text@),
        e matches WordEvidence::Words { hits, total } ==> hits <= total,
{
    if significant.len() == 0 {
        WordEvidence::Phrase(str_contains(text, phrase))
    } else {
        let hits = count_hits(significant, text);
        proof {
            lemma_hit_count_bounded(views(significant@), text@);
        }
        WordEvidence::Words { hits, total: significant.len() }
    }
}

/// No more words occur than there are.
proof fn lemma_hit_count_bounded(words: Seq<Seq<char>>, text: Seq<char>)
    ensures
        hit_count(words, text) <= words.len(),
    decreases words.len(),
{
    if words.len() > 0 {
        lemma_hit_count_bounded(words.drop_last(), text);
    }
}

/// File-name endings of audio files.
pub open spec fn audio_endings() -> Seq<Seq<char>> {
    seq!["flac"@, "mp3"@, "ogg"@, "opus"@, "m4a"@, "aac"@, "wav"@, "alac"@]
}

/// A lower-cased path names an audio file: it ends with an audio ending.
pub open spec fn audio_path(path: Seq<char>) -> bool {
    exists|i: int| 0 <= i < audio_endings().len() && ends_with(path, #[trigger] audio_endings()[i])
}

/// Whether a lower-cased path names an audio file.
pub fn is_audio_path(path: &str) -> (b: bool)
    ensures
        b == audio_path(path@),
{
    let mut endings: Vec<&'static str> = Vec::new();
    endings.push("flac");
    endings.push("mp3");
    endings.push("ogg");
    endings.push("opus");
    endings.push("m4a");
    endings.push("aac");
    endings.push("wav");
    endings.push("alac");
    assert(str_views(endings@) =~= audio_endings());
    let mut i: usize = 0;
    while i < endings.len()
        invariant
            i <= endings@.len(),
            str_views(endings@) == audio_endings(),
            forall|j: int| 0 <= j < i ==> !ends_with(path@, #[trigger] audio_endings()[j]),
        decreases endings.len() - i,
    {
        if str_ends_with(path, endings[i]) {
            assert(ends_with(path@, audio_endings()[i as int]));
            return true;
        }
        assert(str_views(endings@)[i as int] == endings@[i as int]@);
        i += 1;
    }
    false
}

} // verus!
