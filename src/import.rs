use vstd::prelude::*;
use crate::catalog::{DbAlbum, DbArtist, DbFailedFolderChild, DbFolder, DbFolderChild, DbSong};
use crate::ids::{hyphenated, key_id, str_to_uuid, EntityId};
use crate::metadata::{
    fallback_artist, fallback_title, name_fallback, opt_view, or_else, tag_value, SongMetadata,
    Tag, TagKey, Timestamp,
};

verus! {

/// The logical key of an album: its title followed by its primary artist's name.
pub open spec fn album_key(title: Seq<char>, artist: Seq<char>) -> Seq<char> {
    title + artist
}

/// The logical key of a song: its title, then the hyphenated text of its
/// artist's identifier and of its album's (nil when it has none).
pub open spec fn song_key(title: Seq<char>, artist_id: EntityId, album_id: Option<EntityId>) -> Seq<
    char,
> {
    title + hyphenated(artist_id.value) + hyphenated(
        match album_id {
            Some(a) => a.value,
            None => 0,
        },
    )
}

/// What a file contributes to the catalog, by identifier: the keys of the rows
/// an import writes, with the file's path.
pub enum PlanKeys {
    Failed { id: EntityId, path: Seq<char> },
    Song {
        album: Option<EntityId>,
        artist: EntityId,
        album_artist: Option<EntityId>,
        link: Option<(EntityId, EntityId)>,
        song: EntityId,
        child: EntityId,
        path: Seq<char>,
    },
}

impl PlanKeys {
    pub open spec fn path(self) -> Seq<char> {
        match self {
            PlanKeys::Failed { path, .. } => path,
            PlanKeys::Song { path, .. } => path,
        }
    }
}

/// The keys an import of the file at `path` writes, given what was extracted
/// from it: a failure record unless the metadata is valid.
pub open spec fn expected_keys(path: Seq<char>, md: Option<SongMetadata>) -> PlanKeys {
    match md {
        Some(m) => if m.spec_is_valid() {
            let title = m.title.unwrap()@;
            let artist = m.artist.unwrap()@;
            let album_id = match m.album {
                Some(t) => Some(
                    key_id(
                        album_key(
                            t@,
                            match m.album_artist {
                                Some(aa) => aa@,
                                None => artist,
                            },
                        ),
                    ),
                ),
                None => None,
            };
            let artist_id = key_id(artist);
            let album_artist_id = match m.album_artist {
                Some(aa) => Some(key_id(aa@)),
                None => None,
            };
            PlanKeys::Song {
                album: album_id,
                artist: artist_id,
                album_artist: album_artist_id,
                link: match album_id {
                    Some(a) => Some(
                        (
                            a,
                            match album_artist_id {
                                Some(x) => x,
                                None => artist_id,
                            },
                        ),
                    ),
                    None => None,
                },
                song: key_id(song_key(title, artist_id, album_id)),
                child: key_id(path),
                path,
            }
        } else {
            PlanKeys::Failed { id: key_id(path), path }
        },
        None => PlanKeys::Failed { id: key_id(path), path },
    }
}

/// The rows that importing one file writes, in the order they are written.
#[derive(Clone, Debug)]
pub struct SongImport {
    pub album: Option<DbAlbum>,
    pub artist: DbArtist,
    pub album_artist: Option<DbArtist>,
    /// The (album, artist) association.
    pub album_link: Option<(EntityId, EntityId)>,
    pub song: DbSong,
    pub child: DbFolderChild,
}

/// What to write for one new file.
#[derive(Clone, Debug)]
pub enum FileImport {
    Failed(DbFailedFolderChild),
    Song(SongImport),
}

impl FileImport {
    /// The identifiers and path of the rows this plan writes.
    pub open spec fn keys(self) -> PlanKeys {
        match self {
            FileImport::Failed(f) => PlanKeys::Failed { id: f.folder_child_id, path: f.path@ },
            FileImport::Song(s) => PlanKeys::Song {
                album: match s.album {
                    Some(a) => Some(a.album_id),
                    None => None,
                },
                artist: s.artist.artist_id,
                album_artist: match s.album_artist {
                    Some(a) => Some(a.artist_id),
                    None => None,
                },
                link: s.album_link,
                song: s.song.song_id,
                child: s.child.folder_child_id,
                path: s.child.path@,
            },
        }
    }
}

/// What to do with a file found during an import.
#[derive(Clone, Copy, PartialEq, Eq, Structural, Debug)]
pub enum FileDecision {
    /// It was recorded as failed before: skip it without reading it.
    SkipFailed,
    /// It is in the catalog already.
    SkipImported,
    Import,
}

/// Decides on a file from whether its path is recorded as failed and whether
/// it is already in the catalog.
pub fn file_decision(previously_failed: bool, already_imported: bool) -> (r: FileDecision)
    ensures
        previously_failed ==> r == FileDecision::SkipFailed,
        !previously_failed && already_imported ==> r == FileDecision::SkipImported,
        !previously_failed && !already_imported ==> r == FileDecision::Import,
{
    if previously_failed {
        FileDecision::SkipFailed
    } else if already_imported {
        FileDecision::SkipImported
    } else {
        FileDecision::Import
    }
}

/// The root folder's row.
pub fn root_folder(now: Timestamp) -> (r: DbFolder)
    ensures
        r.folder_id.value == 0,
        r.parent_id.is_none(),
        r.name@ == "root"@,
        r.cover_art_id.is_none(),
        r.created == now,
{
    DbFolder {
        folder_id: EntityId::nil(),
        parent_id: None,
        name: String::from_str("root"),
        cover_art_id: None,
        created: now,
    }
}

/// The identifier of the folder at `path`: nil for the library root, else
/// the identifier of the path.
pub fn folder_id_for(path: &str, root: &str) -> (r: EntityId)
    ensures
        path@ == root@ ==> r.value == 0,
        path@ != root@ ==> r == key_id(path@),
{
    let p = path.to_string();
    let q = root.to_string();
    if p == q {
        EntityId::nil()
    } else {
        str_to_uuid(path)
    }
}

/// The row of a folder below the root, linked to its parent.
pub fn folder_row(path: &str, name: &str, parent_id: EntityId, now: Timestamp) -> (r: DbFolder)
    ensures
        r.folder_id == key_id(path@),
        r.parent_id == Some(parent_id),
        r.name@ == name@,
        r.cover_art_id.is_none(),
        r.created == now,
{
    DbFolder {
        folder_id: str_to_uuid(path),
        parent_id: Some(parent_id),
        name: name.to_string(),
        cover_art_id: None,
        created: now,
    }
}

/// The song row of a valid extraction.
pub open spec fn song_row_of(
    s: DbSong,
    m: SongMetadata,
    artist_id: EntityId,
    album_id: Option<EntityId>,
    size: u32,
    now: Timestamp,
) -> bool {
    &&& s.title@ == m.title.unwrap()@
    &&& s.created == now
    &&& s.date == m.date
    &&& s.cover_art_id.is_none()
    &&& s.artist_id == Some(artist_id)
    &&& s.album_id == album_id
    &&& s.content_type == m.content_type
    &&& s.suffix == m.suffix
    &&& s.size == Some(size)
    &&& s.track_number == m.track_number
    &&& s.disc_number == m.disc_number
    &&& s.duration == m.duration
    &&& s.bit_rate == m.bit_rate
    &&& s.genre == m.genre
}

fn failed_plan(path: &str, folder_id: EntityId) -> (r: FileImport)
    ensures
        r.keys() == (PlanKeys::Failed { id: key_id(path@), path: path@ }),
        r matches FileImport::Failed(f) && f.folder_id == folder_id,
{
    FileImport::Failed(
        DbFailedFolderChild {
            folder_child_id: str_to_uuid(path),
            folder_id,
            path: path.to_string(),
        },
    )
}

/// Plans the import of a new file at `path` in folder `folder_id`, from what
/// extraction gave (`None` where it failed). An invalid or missing extraction
/// gives a failure record; a valid one gives album, artists, their link, the
/// song and the file's row, with identifiers derived from logical keys alone.
pub fn plan_file_import(
    path: &str,
    folder_id: EntityId,
    size: u32,
    now: Timestamp,
    metadata: Option<SongMetadata>,
) -> (r: FileImport)
    ensures
        r.keys() == expected_keys(path@, metadata),
        match r {
            FileImport::Failed(f) => f.folder_id == folder_id,
            FileImport::Song(s) => {
                let m = metadata.unwrap();
                &&& s.child.folder_id == folder_id
                &&& s.child.name@ == m.title.unwrap()@
                &&& s.child.song_id == Some(s.song.song_id)
                &&& s.child.last_updated.is_none()
                &&& s.artist.name@ == m.artist.unwrap()@
                &&& s.artist.cover_art_id.is_none()
                &&& s.artist.musicbrainz_id.is_none()
                &&& (s.album_artist matches Some(a) ==> a.name@ == m.album_artist.unwrap()@
                    && a.cover_art_id.is_none() && a.musicbrainz_id.is_none())
                &&& (s.album matches Some(a) ==> a.title@ == m.album.unwrap()@
                    && a.cover_art_id.is_none())
                &&& song_row_of(
                    s.song,
                    m,
                    s.artist.artist_id,
                    match s.album {
                        Some(a) => Some(a.album_id),
                        None => None,
                    },
                    size,
                    now,
                )
            },
        },
{
    let m = match metadata {
        Some(m) => m,
        None => {
            return failed_plan(path, folder_id);
        },
    };
    if !m.is_valid() {
        return failed_plan(path, folder_id);
    }
    let title: String = match &m.title {
        Some(t) => t.clone(),
        None => String::new(),
    };
    let artist_name: String = match &m.artist {
        Some(a) => a.clone(),
        None => String::new(),
    };
    let album = match &m.album {
        Some(t) => {
            let primary = match &m.album_artist {
                Some(aa) => aa.clone(),
                None => artist_name.clone(),
            };
            let key = t.clone().concat(primary.as_str());
            Some(DbAlbum { album_id: str_to_uuid(key.as_str()), title: t.clone(), cover_art_id: None })
        },
        None => None,
    };
    let album_id = match &album {
        Some(a) => Some(a.album_id),
        None => None,
    };
    let artist_id = str_to_uuid(artist_name.as_str());
    let artist = DbArtist {
        artist_id,
        name: artist_name.clone(),
        cover_art_id: None,
        musicbrainz_id: None,
    };
    let album_artist = match &m.album_artist {
        Some(aa) => Some(
            DbArtist {
                artist_id: str_to_uuid(aa.as_str()),
                name: aa.clone(),
                cover_art_id: None,
                musicbrainz_id: None,
            },
        ),
        None => None,
    };
    let album_link = match album_id {
        Some(a) => Some(
            (
                a,
                match &album_artist {
                    Some(x) => x.artist_id,
                    None => artist_id,
                },
            ),
        ),
        None => None,
    };
    let album_text = match album_id {
        Some(a) => a.to_text(),
        None => EntityId::nil().to_text(),
    };
    let song_key = title.clone().concat(artist_id.to_text().as_str()).concat(album_text.as_str());
    let song_id = str_to_uuid(song_key.as_str());
    let song = DbSong {
        song_id,
        title: title.clone(),
        created: now,
        date: m.date,
        cover_art_id: None,
        artist_id: Some(artist_id),
        album_id,
        content_type: m.content_type.clone(),
        suffix: m.suffix.clone(),
        size: Some(size),
        track_number: m.track_number,
        disc_number: m.disc_number,
        duration: m.duration,
        bit_rate: m.bit_rate,
        genre: m.genre.clone(),
    };
    let child = DbFolderChild {
        folder_child_id: str_to_uuid(path),
        folder_id,
        path: path.to_string(),
        name: title,
        song_id: Some(song_id),
        last_updated: None,
    };
    FileImport::Song(SongImport { album, artist, album_artist, album_link, song, child })
}

/// The catalog as the importer sees it: the identifiers present in each table,
/// with the path of each file row and failure record. Rows are only ever
/// inserted if absent, so a present row never changes.
pub struct CatalogKeys {
    pub children: Map<EntityId, Seq<char>>,
    pub failed: Map<EntityId, Seq<char>>,
    pub albums: Set<EntityId>,
    pub artists: Set<EntityId>,
    pub album_artists: Set<(EntityId, EntityId)>,
    pub songs: Set<EntityId>,
}

/// Inserts `k` with `v` unless `k` is present.
pub open spec fn insert_or_ignore<K, V>(m: Map<K, V>, k: K, v: V) -> Map<K, V> {
    if m.contains_key(k) {
        m
    } else {
        m.insert(k, v)
    }
}

pub open spec fn opt_insert<T>(s: Set<T>, x: Option<T>) -> Set<T> {
    match x {
        Some(v) => s.insert(v),
        None => s,
    }
}

/// The catalog after writing a plan's rows, each insert-or-ignore.
pub open spec fn apply_plan(c: CatalogKeys, p: PlanKeys) -> CatalogKeys {
    match p {
        PlanKeys::Failed { id, path } => CatalogKeys {
            failed: insert_or_ignore(c.failed, id, path),
            ..c
        },
        PlanKeys::Song { album, artist, album_artist, link, song, child, path } => CatalogKeys {
            children: insert_or_ignore(c.children, child, path),
            albums: opt_insert(c.albums, album),
            artists: opt_insert(c.artists.insert(artist), album_artist),
            album_artists: opt_insert(c.album_artists, link),
            songs: c.songs.insert(song),
            ..c
        },
    }
}

/// Whether the catalog holds a failure record for `path`.
pub open spec fn failed_path(c: CatalogKeys, path: Seq<char>) -> bool {
    exists|k: EntityId| c.failed.contains_key(k) && c.failed[k] == path
}

/// Whether the catalog holds a file row for `path`.
pub open spec fn imported_path(c: CatalogKeys, path: Seq<char>) -> bool {
    exists|k: EntityId| c.children.contains_key(k) && c.children[k] == path
}

/// One file's turn in an import: skipped if its path is recorded as failed or
/// imported, else its plan is written.
pub open spec fn import_step(c: CatalogKeys, p: PlanKeys) -> CatalogKeys {
    if failed_path(c, p.path()) || imported_path(c, p.path()) {
        c
    } else {
        apply_plan(c, p)
    }
}

/// An import run over the plans of a tree's files, in order.
pub open spec fn import_run(c: CatalogKeys, plans: Seq<PlanKeys>) -> CatalogKeys
    decreases plans.len(),
{
    if plans.len() == 0 {
        c
    } else {
        import_run(import_step(c, plans[0]), plans.drop_first())
    }
}

/// `d` holds every row of `c`, unchanged.
pub open spec fn extends(c: CatalogKeys, d: CatalogKeys) -> bool {
    &&& forall|k: EntityId| #[trigger]
        c.children.contains_key(k) ==> d.children.contains_key(k) && d.children[k]
            == c.children[k]
    &&& forall|k: EntityId| #[trigger]
        c.failed.contains_key(k) ==> d.failed.contains_key(k) && d.failed[k] == c.failed[k]
    &&& c.albums.subset_of(d.albums)
    &&& c.artists.subset_of(d.artists)
    &&& c.album_artists.subset_of(d.album_artists)
    &&& c.songs.subset_of(d.songs)
}

/// Every row of the plan is present.
pub open spec fn holds_plan(c: CatalogKeys, p: PlanKeys) -> bool {
    match p {
        PlanKeys::Failed { id, .. } => c.failed.contains_key(id),
        PlanKeys::Song { album, artist, album_artist, link, song, child, .. } => {
            &&& c.children.contains_key(child)
            &&& (album matches Some(a) ==> c.albums.contains(a))
            &&& c.artists.contains(artist)
            &&& (album_artist matches Some(a) ==> c.artists.contains(a))
            &&& (link matches Some(l) ==> c.album_artists.contains(l))
            &&& c.songs.contains(song)
        },
    }
}

/// A later import of the file changes nothing: it is skipped, or its rows are there.
pub open spec fn settled(c: CatalogKeys, p: PlanKeys) -> bool {
    failed_path(c, p.path()) || imported_path(c, p.path()) || holds_plan(c, p)
}

proof fn lemma_extends_trans(a: CatalogKeys, b: CatalogKeys, c: CatalogKeys)
    requires
        extends(a, b),
        extends(b, c),
    ensures
        extends(a, c),
{
}

proof fn lemma_apply_extends(c: CatalogKeys, p: PlanKeys)
    ensures
        extends(c, apply_plan(c, p)),
        holds_plan(apply_plan(c, p), p),
{
}

proof fn lemma_step_extends(c: CatalogKeys, p: PlanKeys)
    ensures
        extends(c, import_step(c, p)),
        settled(import_step(c, p), p),
{
    lemma_apply_extends(c, p);
}

proof fn lemma_settled_persists(c: CatalogKeys, d: CatalogKeys, p: PlanKeys)
    requires
        settled(c, p),
        extends(c, d),
    ensures
        settled(d, p),
{
    if failed_path(c, p.path()) {
        let k = choose|k: EntityId| c.failed.contains_key(k) && c.failed[k] == p.path();
        assert(d.failed.contains_key(k) && d.failed[k] == p.path());
    } else if imported_path(c, p.path()) {
        let k = choose|k: EntityId| c.children.contains_key(k) && c.children[k] == p.path();
        assert(d.children.contains_key(k) && d.children[k] == p.path());
    }
}

proof fn lemma_settled_step_is_noop(c: CatalogKeys, p: PlanKeys)
    requires
        settled(c, p),
    ensures
        import_step(c, p) == c,
{
    if !(failed_path(c, p.path()) || imported_path(c, p.path())) {
        let d = apply_plan(c, p);
        match p {
            PlanKeys::Failed { id, path } => {
                assert(d.failed =~= c.failed);
            },
            PlanKeys::Song { album, artist, album_artist, link, song, child, path } => {
                assert(d.children =~= c.children);
                assert(d.albums =~= c.albums);
                assert(d.artists =~= c.artists);
                assert(d.album_artists =~= c.album_artists);
                assert(d.songs =~= c.songs);
            },
        }
    }
}

proof fn lemma_run_settles(c: CatalogKeys, plans: Seq<PlanKeys>)
    ensures
        extends(c, import_run(c, plans)),
        forall|i: int| 0 <= i < plans.len() ==> settled(import_run(c, plans), #[trigger] plans[i]),
    decreases plans.len(),
{
    if plans.len() > 0 {
        let c1 = import_step(c, plans[0]);
        let rest = plans.drop_first();
        lemma_step_extends(c, plans[0]);
        lemma_run_settles(c1, rest);
        lemma_extends_trans(c, c1, import_run(c1, rest));
        lemma_settled_persists(c1, import_run(c1, rest), plans[0]);
        assert forall|i: int| 0 <= i < plans.len() implies settled(
            import_run(c, plans),
            #[trigger] plans[i],
        ) by {
            if i > 0 {
                assert(plans[i] == rest[i - 1]);
            }
        }
    }
}

proof fn lemma_run_over_settled(c: CatalogKeys, plans: Seq<PlanKeys>)
    requires
        forall|i: int| 0 <= i < plans.len() ==> settled(c, #[trigger] plans[i]),
    ensures
        import_run(c, plans) == c,
    decreases plans.len(),
{
    if plans.len() > 0 {
        lemma_settled_step_is_noop(c, plans[0]);
        let rest = plans.drop_first();
        assert forall|i: int| 0 <= i < rest.len() implies settled(c, #[trigger] rest[i]) by {
            assert(rest[i] == plans[i + 1]);
        }
        lemma_run_over_settled(c, rest);
    }
}

/// Importing an unchanged tree a second time leaves the catalog as the first
/// import left it: the same rows under the same identifiers. The plans of a
/// file depend on its path and extracted metadata alone, not on the time of
/// the run (see `plan_file_import`), so both runs see the same plans.
pub proof fn lemma_import_idempotent(c: CatalogKeys, plans: Seq<PlanKeys>)
    ensures
        import_run(import_run(c, plans), plans) == import_run(c, plans),
{
    lemma_run_settles(c, plans);
    lemma_run_over_settled(import_run(c, plans), plans);
}

/// The identifiers a file's import writes do not depend on when it runs nor on
/// the file's size: two plans of the same file and metadata have equal keys.
pub proof fn lemma_plan_keys_time_independent(
    path: &str,
    folder_id: EntityId,
    size1: u32,
    size2: u32,
    now1: Timestamp,
    now2: Timestamp,
    md: Option<SongMetadata>,
    p1: FileImport,
    p2: FileImport,
)
    requires
        call_ensures(plan_file_import, (path, folder_id, size1, now1, md), p1),
        call_ensures(plan_file_import, (path, folder_id, size2, now2, md), p2),
    ensures
        p1.keys() == p2.keys(),
{
}

/// A file whose extraction failed or gave invalid metadata is recorded as
/// failed, and the next import skips it without reading it again; this holds
/// unless another path already owns the failure record's identifier.
pub proof fn lemma_failed_file_not_retried(c: CatalogKeys, path: Seq<char>, md: Option<SongMetadata>)
    requires
        md matches Some(m) ==> !m.spec_is_valid(),
        c.failed.contains_key(key_id(path)) ==> c.failed[key_id(path)] == path,
    ensures
        expected_keys(path, md) matches PlanKeys::Failed { .. },
        failed_path(import_step(c, expected_keys(path, md)), path)
            || imported_path(import_step(c, expected_keys(path, md)), path),
{
    let p = expected_keys(path, md);
    let d = import_step(c, p);
    if !(failed_path(c, path) || imported_path(c, path)) {
        assert(d.failed.contains_key(key_id(path)) && d.failed[key_id(path)] == path);
    }
}

/// A file whose tags give neither title nor artist, named `ARTIST - TITLE`,
/// makes a song titled by the trimmed, title-cased part after the first '-'
/// and credited to the artist named by the part before it.
pub proof fn lemma_fallback_names_song(
    file_name: Seq<char>,
    tags: Seq<Tag>,
    md: SongMetadata,
    path: Seq<char>,
    artist: Seq<char>,
    title: Seq<char>,
)
    requires
        tag_value(tags, TagKey::TrackTitle).is_none(),
        tag_value(tags, TagKey::Artist).is_none(),
        name_fallback(file_name) == Some((artist, title)),
        artist.len() > 0,
        title.len() > 0,
        opt_view(md.title) == or_else(tag_value(tags, TagKey::TrackTitle), fallback_title(file_name)),
        opt_view(md.artist) == or_else(tag_value(tags, TagKey::Artist), fallback_artist(file_name)),
    ensures
        md.spec_is_valid(),
        md.title.unwrap()@ == title,
        md.artist.unwrap()@ == artist,
        expected_keys(path, Some(md)) matches PlanKeys::Song { artist: a, .. } && a == key_id(
            artist,
        ),
{
}

} // verus!
