use vstd::prelude::*;
use crate::ids::EntityId;
use crate::metadata::{opt_view, or_else, Timestamp};
use crate::responses::{
    CoverArtArchiveImagesResponse, DiscogsMasterResponse, DiscogsResourceResponse,
    DiscogsSearchResult, MusicbrainzArtist, MusicbrainzRecording,
};
use crate::text::{title_case_text, title_cased, transliterate_text, transliterated};

verus! {

/// How long a file is left alone after an enrichment attempt: 96 hours.
pub const COOLDOWN_SECONDS: i64 = 345600;

/// How many candidates are enriched at a time.
pub const CHUNK_SIZE: usize = 8;

/// Which of a song's enrichable columns are still empty.
#[derive(Clone, Copy, PartialEq, Eq, Structural, Debug)]
pub struct EnrichmentGaps {
    pub song_cover_art: bool,
    pub artist_cover_art: bool,
    pub album_cover_art: bool,
    pub genre: bool,
}

/// A song picked for enrichment, with what the lookups need.
#[derive(Clone, Debug)]
pub struct SongInfo {
    pub path: String,
    pub folder_child_id: EntityId,
    pub song_id: EntityId,
    pub song_title: String,
    pub album_id: Option<EntityId>,
    pub album_title: Option<String>,
    pub artist_id: EntityId,
    pub artist_name: String,
}

/// Whether `a` is strictly earlier than `b`.
pub open spec fn earlier(a: Timestamp, b: Timestamp) -> bool {
    a.seconds < b.seconds || (a.seconds == b.seconds && a.nanos < b.nanos)
}

/// The instant one cooldown before `now`.
pub open spec fn cooldown_start(now: Timestamp) -> Timestamp {
    Timestamp { seconds: (now.seconds - COOLDOWN_SECONDS) as i64, nanos: now.nanos }
}

pub open spec fn has_gap(g: EnrichmentGaps) -> bool {
    g.song_cover_art || g.artist_cover_art || g.album_cover_art || g.genre
}

/// A song is a candidate when one of its enrichable columns is empty and its
/// file was not touched since the start of the cooldown.
pub open spec fn candidate(g: EnrichmentGaps, last_updated: Option<Timestamp>, now: Timestamp) -> bool {
    has_gap(g) && match last_updated {
        Some(t) => earlier(t, cooldown_start(now)),
        None => true,
    }
}

/// The instant one cooldown before `now`.
pub fn cooldown_cutoff(now: Timestamp) -> (r: Timestamp)
    requires
        now.seconds >= i64::MIN + COOLDOWN_SECONDS,
    ensures
        r == cooldown_start(now),
{
    Timestamp { seconds: now.seconds - COOLDOWN_SECONDS, nanos: now.nanos }
}

/// Whether a song is due for enrichment.
pub fn is_enrichment_candidate(
    gaps: EnrichmentGaps,
    last_updated: Option<Timestamp>,
    now: Timestamp,
) -> (r: bool)
    requires
        now.seconds >= i64::MIN + COOLDOWN_SECONDS,
    ensures
        r == candidate(gaps, last_updated, now),
{
    if !(gaps.song_cover_art || gaps.artist_cover_art || gaps.album_cover_art || gaps.genre) {
        return false;
    }
    match last_updated {
        Some(t) => {
            let cut = cooldown_cutoff(now);
            t.seconds < cut.seconds || (t.seconds == cut.seconds && t.nanos < cut.nanos)
        },
        None => true,
    }
}

/// A file touched within the cooldown is never a candidate, whatever it lacks.
pub proof fn lemma_cooldown_respected(g: EnrichmentGaps, t: Timestamp, now: Timestamp)
    requires
        !earlier(t, cooldown_start(now)),
    ensures
        !candidate(g, Some(t), now),
{
}

pub open spec fn last_opt<T>(s: Seq<T>) -> Option<T> {
    if s.len() == 0 {
        None
    } else {
        Some(s.last())
    }
}

/// The recording's last tag's name.
pub open spec fn recording_tag(rec: MusicbrainzRecording) -> Option<Seq<char>> {
    match last_opt(rec.tags@) {
        Some(t) => Some(t.name@),
        None => None,
    }
}

/// The registry identifier of the recording's last credited artist.
pub open spec fn credited_artist(rec: MusicbrainzRecording) -> Option<Seq<char>> {
    match last_opt(rec.artist_credit@) {
        Some(c) => Some(c.artist.id@),
        None => None,
    }
}

pub open spec fn artist_tag(a: MusicbrainzArtist) -> Option<Seq<char>> {
    match last_opt(a.tags@) {
        Some(t) => Some(t.name@),
        None => None,
    }
}

/// A marketplace result's last genre.
pub open spec fn marketplace_genre_of(r: DiscogsSearchResult) -> Option<Seq<char>> {
    match last_opt(r.genre@) {
        Some(g) => Some(g@),
        None => None,
    }
}

pub fn recording_genre(rec: &MusicbrainzRecording) -> (r: Option<String>)
    ensures
        opt_view(r) == recording_tag(*rec),
{
    let n = rec.tags.len();
    if n == 0 {
        None
    } else {
        Some(rec.tags[n - 1].name.clone())
    }
}

pub fn credited_artist_id(rec: &MusicbrainzRecording) -> (r: Option<String>)
    ensures
        opt_view(r) == credited_artist(*rec),
{
    let n = rec.artist_credit.len();
    if n == 0 {
        None
    } else {
        Some(rec.artist_credit[n - 1].artist.id.clone())
    }
}

/// The identifier of the recording's last release, whose artwork is looked up.
pub fn last_release_id(rec: &MusicbrainzRecording) -> (r: Option<String>)
    ensures
        opt_view(r) == (match last_opt(rec.releases@) {
            Some(rel) => Some(rel.id@),
            None => None,
        }),
{
    let n = rec.releases.len();
    if n == 0 {
        None
    } else {
        Some(rec.releases[n - 1].id.clone())
    }
}

pub fn artist_genre(a: &MusicbrainzArtist) -> (r: Option<String>)
    ensures
        opt_view(r) == artist_tag(*a),
{
    let n = a.tags.len();
    if n == 0 {
        None
    } else {
        Some(a.tags[n - 1].name.clone())
    }
}

pub fn marketplace_genre(result: &DiscogsSearchResult) -> (r: Option<String>)
    ensures
        opt_view(r) == marketplace_genre_of(*result),
{
    let n = result.genre.len();
    if n == 0 {
        None
    } else {
        Some(result.genre[n - 1].clone())
    }
}

/// The genre to write: nothing if the song has one; else the first found of
/// the recording's tag, its artist's tag and the marketplace's genre, title-cased.
pub open spec fn genre_to_write(
    current: Option<Seq<char>>,
    recording: Option<Seq<char>>,
    artist: Option<Seq<char>>,
    marketplace: Option<Seq<char>>,
) -> Option<Seq<char>> {
    if current.is_some() {
        None
    } else {
        match or_else(or_else(recording, artist), marketplace) {
            Some(g) => Some(title_cased(g)),
            None => None,
        }
    }
}

/// Decides the genre update of a song.
pub fn genre_update(
    current: &Option<String>,
    recording: Option<String>,
    artist: Option<String>,
    marketplace: Option<String>,
) -> (r: Option<String>)
    ensures
        opt_view(r) == genre_to_write(
            opt_view(*current),
            opt_view(recording),
            opt_view(artist),
            opt_view(marketplace),
        ),
{
    if current.is_some() {
        return None;
    }
    let found = match recording {
        Some(g) => Some(g),
        None => match artist {
            Some(g) => Some(g),
            None => marketplace,
        },
    };
    match found {
        Some(g) => Some(title_case_text(g.as_str())),
        None => None,
    }
}

/// The registry identifier to record for an artist: nothing if one is known.
pub fn registry_id_update(current: &Option<String>, rec: &MusicbrainzRecording) -> (r: Option<String>)
    ensures
        current.is_some() ==> r.is_none(),
        current.is_none() ==> opt_view(r) == credited_artist(*rec),
{
    if current.is_some() {
        None
    } else {
        credited_artist_id(rec)
    }
}

/// The cover art URL to fetch: nothing if the column is set or no non-empty
/// URL was found.
pub open spec fn cover_to_fetch(current: Option<EntityId>, url: Option<Seq<char>>) -> Option<Seq<char>> {
    if current.is_some() {
        None
    } else {
        match url {
            Some(u) => if u.len() > 0 {
                Some(u)
            } else {
                None
            },
            None => None,
        }
    }
}

/// Decides a cover art update.
pub fn cover_update(current: Option<EntityId>, url: Option<String>) -> (r: Option<String>)
    ensures
        opt_view(r) == cover_to_fetch(current, opt_view(url)),
{
    if current.is_some() {
        return None;
    }
    match url {
        Some(u) => if u.as_str().unicode_len() > 0 {
            Some(u)
        } else {
            None
        },
        None => None,
    }
}

/// The marketplace link to follow for artwork: only with a token, and only a
/// non-empty URL.
pub fn marketplace_link_to_fetch(token: &Option<String>, url: &Option<String>) -> (r: Option<String>)
    ensures
        opt_view(r) == (if token.is_some() {
            match opt_view(*url) {
                Some(u) => if u.len() > 0 {
                    Some(u)
                } else {
                    None
                },
                None => None,
            }
        } else {
            None
        }),
{
    if token.is_none() {
        return None;
    }
    match url {
        Some(u) => if u.as_str().unicode_len() > 0 {
            Some(u.clone())
        } else {
            None
        },
        None => None,
    }
}

/// The last image of the artwork archive's answer.
pub fn archive_image_url(resp: &CoverArtArchiveImagesResponse) -> (r: Option<String>)
    ensures
        opt_view(r) == (match last_opt(resp.images@) {
            Some(i) => opt_view(i.image),
            None => None,
        }),
{
    let n = resp.images.len();
    if n == 0 {
        None
    } else {
        resp.images[n - 1].image.clone()
    }
}

/// A marketplace result's cover image, else its thumbnail.
pub fn marketplace_cover_url(result: &DiscogsSearchResult) -> (r: Option<String>)
    ensures
        opt_view(r) == or_else(opt_view(result.cover_image), opt_view(result.thumb)),
{
    match &result.cover_image {
        Some(c) => Some(c.clone()),
        None => result.thumb.clone(),
    }
}

/// The last image of a master release.
pub fn master_image_url(master: &DiscogsMasterResponse) -> (r: Option<String>)
    ensures
        opt_view(r) == (match last_opt(master.images@) {
            Some(i) => opt_view(i.resource_url),
            None => None,
        }),
{
    let n = master.images.len();
    if n == 0 {
        None
    } else {
        master.images[n - 1].resource_url.clone()
    }
}

/// The thumbnail of a release resource's last artist.
pub fn resource_thumbnail_url(resource: &DiscogsResourceResponse) -> (r: Option<String>)
    ensures
        opt_view(r) == (match last_opt(resource.artists@) {
            Some(a) => opt_view(a.thumbnail_url),
            None => None,
        }),
{
    let n = resource.artists.len();
    if n == 0 {
        None
    } else {
        resource.artists[n - 1].thumbnail_url.clone()
    }
}

/// Enrichment fills only empty columns: a song with a genre, or a row with
/// cover art, gets no new value, whatever the providers return.
pub proof fn lemma_enrichment_never_clobbers(
    genre: Seq<char>,
    recording: Option<Seq<char>>,
    artist: Option<Seq<char>>,
    marketplace: Option<Seq<char>>,
    cover: EntityId,
    url: Option<Seq<char>>,
)
    ensures
        genre_to_write(Some(genre), recording, artist, marketplace).is_none(),
        cover_to_fetch(Some(cover), url).is_none(),
{
}

/// The registry's recording search text.
pub fn recording_query(title: &str, artist: &str, album: Option<&str>) -> (r: String)
    ensures
        r@ == "query=title:"@ + title@ + " AND artist:"@ + artist@ + (match album {
            Some(a) => " AND release:"@ + a@,
            None => Seq::<char>::empty(),
        }),
{
    let q = String::from_str("query=title:").concat(title).concat(" AND artist:").concat(artist);
    match album {
        Some(a) => {
            let r = q.concat(" AND release:").concat(a);
            assert(r@ =~= "query=title:"@ + title@ + " AND artist:"@ + artist@ + (" AND release:"@ + a@));
            r
        },
        None => {
            assert(q@ =~= "query=title:"@ + title@ + " AND artist:"@ + artist@ + Seq::<char>::empty());
            q
        },
    }
}

/// The registry's artist search text.
pub fn artist_query(artist_id: &str) -> (r: String)
    ensures
        r@ == "arid:"@ + artist_id@,
{
    String::from_str("arid:").concat(artist_id)
}

/// The marketplace search parameters for a song: transliterated artist, album
/// title (empty without one) and track, then the token. Without the album, the
/// retry's parameters leave the album title out.
pub fn marketplace_search_params(
    artist: &str,
    album: Option<&str>,
    title: &str,
    token: &str,
    with_album: bool,
) -> (r: Vec<(String, String)>)
    ensures
        with_album ==> r@.len() == 4 && r@[0].0@ == "artist"@ && r@[0].1@ == transliterated(artist@)
            && r@[1].0@ == "release_title"@ && r@[1].1@ == (match album {
            Some(a) => transliterated(a@),
            None => Seq::<char>::empty(),
        }) && r@[2].0@ == "track"@ && r@[2].1@ == transliterated(title@) && r@[3].0@ == "token"@
            && r@[3].1@ == token@,
        !with_album ==> r@.len() == 3 && r@[0].0@ == "artist"@ && r@[0].1@ == transliterated(
            artist@,
        ) && r@[1].0@ == "track"@ && r@[1].1@ == transliterated(title@) && r@[2].0@ == "token"@
            && r@[2].1@ == token@,
{
    let mut params: Vec<(String, String)> = Vec::new();
    params.push((String::from_str("artist"), transliterate_text(artist)));
    if with_album {
        let release = match album {
            Some(a) => transliterate_text(a),
            None => String::new(),
        };
        params.push((String::from_str("release_title"), release));
    }
    params.push((String::from_str("track"), transliterate_text(title)));
    params.push((String::from_str("token"), token.to_string()));
    params
}

} // verus!
