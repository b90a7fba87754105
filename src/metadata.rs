use vstd::prelude::*;
use crate::text::{
    extension_of, first_index, lowercase_text, parse_decimal, parse_unsigned, split_extension,
    find_char, lowercased, stem_of, title_case_text, title_cased, trim_text, trimmed,
};

verus! {

/// An instant in UTC: seconds since the Unix epoch and the nanoseconds past them.
#[derive(Clone, Copy, PartialEq, Eq, Structural, Debug)]
pub struct Timestamp {
    pub seconds: i64,
    pub nanos: u32,
}

/// The codecs the library tells apart.
#[derive(Clone, Copy, PartialEq, Eq, Structural, Debug)]
pub enum CodecKind {
    Vorbis,
    Mp3,
    Flac,
    Other,
}

/// The standard tag keys the library reads; every other key is `Other`.
#[derive(Clone, Copy, PartialEq, Eq, Structural, Debug)]
pub enum TagKey {
    TrackTitle,
    Artist,
    Album,
    AlbumArtist,
    Date,
    ReleaseDate,
    TrackNumber,
    DiscNumber,
    Genre,
    Other,
}

/// One tag of an audio file's latest metadata revision, its value as text.
#[derive(Clone, Debug)]
pub struct Tag {
    pub key: TagKey,
    pub value: String,
}

/// What probing an audio container found: its default track's codec
/// parameters and the tags of its latest metadata revision (empty if none).
#[derive(Clone, Debug)]
pub struct ProbedAudio {
    pub codec: CodecKind,
    pub bits_per_coded_sample: Option<u32>,
    /// The nominal bit rate of a Vorbis identification header, in bits per second.
    pub vorbis_nominal_bitrate: Option<i32>,
    /// The time base as (numerator, denominator).
    pub time_base: Option<(u32, u32)>,
    pub n_frames: Option<u64>,
    pub tags: Vec<Tag>,
}

/// The metadata of one song, as derived from its file.
#[derive(Clone, Debug)]
pub struct SongMetadata {
    pub title: Option<String>,
    pub artist: Option<String>,
    pub album: Option<String>,
    pub album_artist: Option<String>,
    pub date: Option<Timestamp>,
    pub track_number: Option<u32>,
    pub disc_number: Option<u32>,
    pub bit_rate: Option<u32>,
    /// The duration in whole seconds.
    pub duration: Option<u64>,
    pub genre: Option<String>,
    pub content_type: Option<String>,
    pub suffix: Option<String>,
}

pub open spec fn opt_view(o: Option<String>) -> Option<Seq<char>> {
    match o {
        Some(s) => Some(s@),
        None => None,
    }
}

/// `a` if it holds a value, else `b`.
pub open spec fn or_else<T>(a: Option<T>, b: Option<T>) -> Option<T> {
    if a.is_some() {
        a
    } else {
        b
    }
}

/// What chrono's `DateTime::parse_from_rfc3339` reads from a text, as a UTC
/// instant.
pub uninterp spec fn rfc3339_instant(s: Seq<char>) -> Option<(i64, u32)>;

/// What chrono's `NaiveDate::parse_from_str` with "%Y-%m-%d" reads from a text,
/// as the Unix seconds of that day's midnight in UTC.
pub uninterp spec fn ymd_midnight(s: Seq<char>) -> Option<i64>;

/// What chrono's `Datelike::with_year` makes of the epoch's `DateTime<Utc>`: the
/// Unix seconds of January 1st of that year, midnight UTC, where chrono can
/// represent it.
pub uninterp spec fn year_start(year: i32) -> Option<i64>;

/// What symphonia-metadata's `id3v1::util::genre_name` gives for an index.
pub uninterp spec fn legacy_genre(index: u8) -> Option<Seq<char>>;

/// Relies on chrono's `DateTime::parse_from_rfc3339`, `timestamp` and
/// `timestamp_subsec_nanos`.
#[verifier::external_body]
fn parse_rfc3339(s: &str) -> (r: Option<(i64, u32)>)
    ensures
        r == rfc3339_instant(s@),
{
    match chrono::DateTime::parse_from_rfc3339(s) {
        Ok(d) => Some((d.timestamp(), d.timestamp_subsec_nanos())),
        Err(_) => None,
    }
}

/// Relies on chrono's `NaiveDate::parse_from_str` with the format "%Y-%m-%d".
#[verifier::external_body]
fn parse_ymd(s: &str) -> (r: Option<i64>)
    ensures
        r == ymd_midnight(s@),
{
    match chrono::NaiveDate::parse_from_str(s, "%Y-%m-%d") {
        Ok(d) => Some(d.and_time(chrono::NaiveTime::default()).and_utc().timestamp()),
        Err(_) => None,
    }
}

/// Relies on chrono's `Datelike::with_year` on `DateTime::<Utc>::default()`.
#[verifier::external_body]
fn start_of_year(year: i32) -> (r: Option<i64>)
    ensures
        r == year_start(year),
{
    match chrono::Datelike::with_year(&chrono::DateTime::<chrono::Utc>::default(), year) {
        Some(d) => Some(d.timestamp()),
        None => None,
    }
}

/// Relies on symphonia-metadata's `id3v1::util::genre_name`.
#[verifier::external_body]
fn id3v1_genre_name(index: u8) -> (r: Option<String>)
    ensures
        opt_view(r) == legacy_genre(index),
{
    match symphonia_metadata::id3v1::util::genre_name(index) {
        Some(g) => Some(g.to_string()),
        None => None,
    }
}

/// Relies on symphonia's `TimeBase::new` (which panics on a zero part) and
/// `TimeBase::calc_time`, whose whole seconds are `frames * numer / denom`
/// rounded down, wrapped to 64 bits: above 2^52 it divides integers; below,
/// the rounded float quotient stays within 1/denom of the exact one, so its
/// truncation is the exact floor.
#[verifier::external_body]
fn time_base_seconds(numer: u32, denom: u32, frames: u64) -> (r: u64)
    requires
        numer > 0,
        denom > 0,
    ensures
        r as int == ((frames as int * numer as int) / denom as int) % 0x1_0000_0000_0000_0000,
{
    symphonia::core::units::TimeBase::new(numer, denom).calc_time(frames).seconds
}

/// The value of the first tag with `key` at or after `from`.
pub open spec fn first_tag(tags: Seq<Tag>, key: TagKey, from: int) -> Option<Seq<char>>
    decreases tags.len() - from,
{
    if from < 0 || from >= tags.len() {
        None
    } else if tags[from].key == key {
        Some(tags[from].value@)
    } else {
        first_tag(tags, key, from + 1)
    }
}

pub open spec fn tag_value(tags: Seq<Tag>, key: TagKey) -> Option<Seq<char>> {
    first_tag(tags, key, 0)
}

/// The value of the first tag with `key`.
pub fn find_tag(tags: &Vec<Tag>, key: TagKey) -> (r: Option<String>)
    ensures
        opt_view(r) == tag_value(tags@, key),
{
    let mut i: usize = 0;
    while i < tags.len()
        invariant
            i <= tags@.len(),
            tag_value(tags@, key) == first_tag(tags@, key, i as int),
        decreases tags@.len() - i,
    {
        if tags[i].key == key {
            return Some(tags[i].value.clone());
        }
        i = i + 1;
    }
    None
}

/// The year a tag text names when it is a bare year: exactly four decimal digits.
pub open spec fn bare_year(s: Seq<char>) -> Option<int> {
    if s.len() == 4 && s[0] != '+' {
        parse_unsigned(s, 9999)
    } else {
        None
    }
}

/// The date a tag text denotes: an RFC 3339 instant, else a `YYYY-MM-DD` day,
/// else a bare four-digit year, at midnight UTC; any other text gives none.
pub open spec fn tag_date(s: Seq<char>) -> Option<Timestamp> {
    match rfc3339_instant(s) {
        Some(p) => Some(Timestamp { seconds: p.0, nanos: p.1 }),
        None => match ymd_midnight(s) {
            Some(sec) => Some(Timestamp { seconds: sec, nanos: 0 }),
            None => match bare_year(s) {
                Some(y) => match year_start(y as i32) {
                    Some(sec) => Some(Timestamp { seconds: sec, nanos: 0 }),
                    None => None,
                },
                None => None,
            },
        },
    }
}

fn parse_bare_year(s: &str) -> (r: Option<u32>)
    ensures
        match r {
            Some(y) => bare_year(s@) == Some(y as int) && y <= 9999,
            None => bare_year(s@) == None::<int>,
        },
{
    if s.unicode_len() == 4 && s.get_char(0) != '+' {
        parse_decimal(s, 9999)
    } else {
        None
    }
}

/// Reads a tag's date as `tag_date` describes.
pub fn parse_tag_date(s: &str) -> (r: Option<Timestamp>)
    ensures
        r == tag_date(s@),
{
    match parse_rfc3339(s) {
        Some(p) => Some(Timestamp { seconds: p.0, nanos: p.1 }),
        None => match parse_ymd(s) {
            Some(sec) => Some(Timestamp { seconds: sec, nanos: 0 }),
            None => match parse_bare_year(s) {
                Some(y) => match start_of_year(y as i32) {
                    Some(sec) => Some(Timestamp { seconds: sec, nanos: 0 }),
                    None => None,
                },
                None => None,
            },
        },
    }
}

/// The legacy genre index of a text of the form "(N)", N a decimal up to 255.
pub open spec fn genre_code(g: Seq<char>) -> Option<int> {
    if g.len() >= 2 && g[0] == '(' && g[g.len() - 1] == ')' {
        parse_unsigned(g.subrange(1, g.len() - 1), 255)
    } else {
        None
    }
}

/// A genre tag with its legacy index resolved to the genre's name; any other
/// text, and an index without a name, stays as it is.
pub open spec fn resolved_genre(g: Seq<char>) -> Seq<char> {
    match genre_code(g) {
        Some(id) => match legacy_genre(id as u8) {
            Some(name) => name,
            None => g,
        },
        None => g,
    }
}

/// Resolves a genre tag as `resolved_genre` describes.
pub fn resolve_genre(g: String) -> (r: String)
    ensures
        r@ == resolved_genre(g@),
{
    let n = g.as_str().unicode_len();
    if n >= 2 && g.as_str().get_char(0) == '(' && g.as_str().get_char(n - 1) == ')' {
        let inner = g.as_str().substring_char(1, n - 1);
        match parse_decimal(inner, 255) {
            Some(id) => match id3v1_genre_name(id as u8) {
                Some(name) => name,
                None => g,
            },
            None => g,
        }
    } else {
        g
    }
}

/// A positive Vorbis nominal bit rate in kilobits per second, rounded down.
pub open spec fn nominal_kbps(n: i32) -> Option<u32> {
    if n > 0 {
        Some((n / 1000) as u32)
    } else {
        None
    }
}

fn kbps(n: i32) -> (r: Option<u32>)
    ensures
        r == nominal_kbps(n),
{
    if n > 0 {
        Some((n as u32) / 1000)
    } else {
        None
    }
}

/// The content type that a codec is served as.
pub open spec fn content_type_of(c: CodecKind) -> Option<Seq<char>> {
    match c {
        CodecKind::Vorbis => Some("audio/ogg"@),
        CodecKind::Mp3 => Some("audio/mp3"@),
        CodecKind::Flac => Some("audio/flac"@),
        CodecKind::Other => None,
    }
}

/// The bit rate: the codec's bits per coded sample, else a Vorbis stream's
/// positive nominal bit rate in kilobits per second.
pub open spec fn bit_rate_of(p: ProbedAudio) -> Option<u32> {
    match p.bits_per_coded_sample {
        Some(b) => Some(b),
        None => if p.codec == CodecKind::Vorbis {
            match p.vorbis_nominal_bitrate {
                Some(n) => nominal_kbps(n),
                None => None,
            }
        } else {
            None
        },
    }
}

/// The duration in whole seconds, from the time base and the frame count.
pub open spec fn duration_of(p: ProbedAudio) -> Option<u64> {
    match (p.time_base, p.n_frames) {
        (Some(tb), Some(f)) => if tb.0 > 0 && tb.1 > 0 {
            Some((((f as int * tb.0 as int) / tb.1 as int) % 0x1_0000_0000_0000_0000) as u64)
        } else {
            None
        },
        _ => None,
    }
}

/// The number in a tag, read as std's `FromStr` for `u32` reads it.
pub open spec fn tag_number(tags: Seq<Tag>, key: TagKey) -> Option<u32> {
    match tag_value(tags, key) {
        Some(t) => match parse_unsigned(t, 0xffff_ffff) {
            Some(v) => Some(v as u32),
            None => None,
        },
        None => None,
    }
}

/// The artist and title a file name gives by the pattern `ARTIST - TITLE`:
/// its stem split at the first '-', each side trimmed and title-cased.
pub open spec fn name_fallback(name: Seq<char>) -> Option<(Seq<char>, Seq<char>)> {
    let stem = stem_of(name);
    let h = first_index(stem, '-', 0);
    if h < 0 {
        None
    } else {
        Some(
            (
                title_cased(trimmed(stem.subrange(0, h))),
                title_cased(trimmed(stem.subrange(h + 1, stem.len() as int))),
            ),
        )
    }
}

pub open spec fn fallback_artist(name: Seq<char>) -> Option<Seq<char>> {
    match name_fallback(name) {
        Some(p) => Some(p.0),
        None => None,
    }
}

pub open spec fn fallback_title(name: Seq<char>) -> Option<Seq<char>> {
    match name_fallback(name) {
        Some(p) => Some(p.1),
        None => None,
    }
}

/// Derives (artist, title) from a file name by the pattern `ARTIST - TITLE`.
pub fn artist_title_from_file_name(name: &str) -> (r: Option<(String, String)>)
    ensures
        match r {
            Some(p) => name_fallback(name@) == Some((p.0@, p.1@)),
            None => name_fallback(name@) == None::<(Seq<char>, Seq<char>)>,
        },
{
    let (stem, _) = split_extension(name);
    let s = stem.as_str();
    match find_char(s, '-') {
        Some(h) => {
            let n = s.unicode_len();
            let artist = title_case_text(trim_text(s.substring_char(0, h)).as_str());
            let title = title_case_text(trim_text(s.substring_char(h + 1, n)).as_str());
            Some((artist, title))
        },
        None => None,
    }
}

impl SongMetadata {
    /// Whether the metadata can make a song: a non-empty title and artist.
    pub open spec fn spec_is_valid(&self) -> bool {
        &&& match self.title {
            Some(t) => t@.len() > 0,
            None => false,
        }
        &&& match self.artist {
            Some(a) => a@.len() > 0,
            None => false,
        }
    }

    pub fn is_valid(&self) -> (r: bool)
        ensures
            r == self.spec_is_valid(),
    {
        let title_ok = match &self.title {
            Some(t) => t.as_str().unicode_len() > 0,
            None => false,
        };
        let artist_ok = match &self.artist {
            Some(a) => a.as_str().unicode_len() > 0,
            None => false,
        };
        title_ok && artist_ok
    }

    /// The artist's name.
    pub fn artist(&self) -> (r: &str)
        requires
            self.artist.is_some(),
        ensures
            opt_view(self.artist) == Some(r@),
    {
        match &self.artist {
            Some(a) => a.as_str(),
            None => "",
        }
    }
}

fn fill(v: Option<String>, fallback: Option<String>) -> (r: Option<String>)
    ensures
        opt_view(r) == or_else(opt_view(v), opt_view(fallback)),
{
    match v {
        Some(s) => Some(s),
        None => fallback,
    }
}

fn tag_number_of(tags: &Vec<Tag>, key: TagKey) -> (r: Option<u32>)
    ensures
        r == tag_number(tags@, key),
{
    match find_tag(tags, key) {
        Some(t) => parse_decimal(t.as_str(), 0xffff_ffff),
        None => None,
    }
}

/// Derives a song's metadata from its file name and what probing its
/// container found. Tags come first; where tags give no title or no artist,
/// the file name's `ARTIST - TITLE` pattern fills only what is missing.
pub fn metadata_from_probe(file_name: &str, probe: &ProbedAudio) -> (r: SongMetadata)
    ensures
        opt_view(r.title) == or_else(
            tag_value(probe.tags@, TagKey::TrackTitle),
            fallback_title(file_name@),
        ),
        opt_view(r.artist) == or_else(
            tag_value(probe.tags@, TagKey::Artist),
            fallback_artist(file_name@),
        ),
        opt_view(r.album) == tag_value(probe.tags@, TagKey::Album),
        opt_view(r.album_artist) == or_else(
            or_else(
                tag_value(probe.tags@, TagKey::AlbumArtist),
                tag_value(probe.tags@, TagKey::Artist),
            ),
            fallback_artist(file_name@),
        ),
        r.date == (match or_else(
            tag_value(probe.tags@, TagKey::Date),
            tag_value(probe.tags@, TagKey::ReleaseDate),
        ) {
            Some(d) => tag_date(d),
            None => None,
        }),
        r.track_number == tag_number(probe.tags@, TagKey::TrackNumber),
        r.disc_number == tag_number(probe.tags@, TagKey::DiscNumber),
        opt_view(r.genre) == (match tag_value(probe.tags@, TagKey::Genre) {
            Some(g) => Some(resolved_genre(g)),
            None => None,
        }),
        r.bit_rate == bit_rate_of(*probe),
        r.duration == duration_of(*probe),
        opt_view(r.content_type) == content_type_of(probe.codec),
        opt_view(r.suffix) == (match extension_of(file_name@) {
            Some(e) => Some(lowercased(e)),
            None => None,
        }),
{
    let tags = &probe.tags;
    let (_, ext) = split_extension(file_name);
    let suffix = match ext {
        Some(e) => Some(lowercase_text(e.as_str())),
        None => None,
    };
    let content_type = match probe.codec {
        CodecKind::Vorbis => Some(String::from_str("audio/ogg")),
        CodecKind::Mp3 => Some(String::from_str("audio/mp3")),
        CodecKind::Flac => Some(String::from_str("audio/flac")),
        CodecKind::Other => None,
    };
    let bit_rate = match probe.bits_per_coded_sample {
        Some(b) => Some(b),
        None => if probe.codec == CodecKind::Vorbis {
            match probe.vorbis_nominal_bitrate {
                Some(n) => kbps(n),
                None => None,
            }
        } else {
            None
        },
    };
    let duration = match (probe.time_base, probe.n_frames) {
        (Some(tb), Some(f)) => if tb.0 > 0 && tb.1 > 0 {
            Some(time_base_seconds(tb.0, tb.1, f))
        } else {
            None
        },
        _ => None,
    };
    let date = match fill(find_tag(tags, TagKey::Date), find_tag(tags, TagKey::ReleaseDate)) {
        Some(d) => parse_tag_date(d.as_str()),
        None => None,
    };
    let genre = match find_tag(tags, TagKey::Genre) {
        Some(g) => Some(resolve_genre(g)),
        None => None,
    };
    let (fb_artist, fb_title) = match artist_title_from_file_name(file_name) {
        Some(p) => (Some(p.0), Some(p.1)),
        None => (None, None),
    };
    let tag_artist = find_tag(tags, TagKey::Artist);
    let album_artist = fill(
        fill(find_tag(tags, TagKey::AlbumArtist), tag_artist.clone()),
        fb_artist.clone(),
    );
    SongMetadata {
        title: fill(find_tag(tags, TagKey::TrackTitle), fb_title),
        artist: fill(tag_artist, fb_artist),
        album: find_tag(tags, TagKey::Album),
        album_artist,
        date,
        track_number: tag_number_of(tags, TagKey::TrackNumber),
        disc_number: tag_number_of(tags, TagKey::DiscNumber),
        bit_rate,
        duration,
        genre,
        content_type,
        suffix,
    }
}

} // verus!
