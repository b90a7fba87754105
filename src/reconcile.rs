use vstd::prelude::*;
use crate::ids::EntityId;

verus! {

/// A file row of a folder, with whether its path still exists on disk.
#[derive(Clone, Copy, PartialEq, Eq, Structural, Debug)]
pub struct ChildEntry {
    pub folder_child_id: EntityId,
    pub song_id: Option<EntityId>,
    pub exists: bool,
}

/// A deletion the reconciler performs, in order.
#[derive(Clone, Copy, PartialEq, Eq, Structural, Debug)]
pub enum DeleteOp {
    /// Delete the file row, its failure record and its song.
    RemoveChild { folder_child_id: EntityId, song_id: Option<EntityId> },
    /// Delete the folder row.
    RemoveFolder { folder_id: EntityId },
}

/// The deletions for a folder's vanished files, in the order of its children.
pub open spec fn child_ops(children: Seq<ChildEntry>) -> Seq<DeleteOp>
    decreases children.len(),
{
    if children.len() == 0 {
        seq![]
    } else {
        let r = child_ops(children.drop_last());
        let c = children.last();
        if c.exists {
            r
        } else {
            r.push(DeleteOp::RemoveChild { folder_child_id: c.folder_child_id, song_id: c.song_id })
        }
    }
}

/// A folder's sweep: its vanished files first, then the folder itself if its
/// path is gone.
pub open spec fn sweep_ops(folder_id: EntityId, folder_exists: bool, children: Seq<ChildEntry>) -> Seq<
    DeleteOp,
> {
    child_ops(children) + if folder_exists {
        Seq::<DeleteOp>::empty()
    } else {
        seq![DeleteOp::RemoveFolder { folder_id }]
    }
}

/// Plans the deletions for one folder, from the existence on disk of the
/// folder and of each of its files.
pub fn folder_sweep(folder_id: EntityId, folder_exists: bool, children: &Vec<ChildEntry>) -> (r: Vec<
    DeleteOp,
>)
    ensures
        r@ == sweep_ops(folder_id, folder_exists, children@),
{
    let mut ops: Vec<DeleteOp> = Vec::new();
    let mut i: usize = 0;
    while i < children.len()
        invariant
            i <= children@.len(),
            ops@ == child_ops(children@.subrange(0, i as int)),
        decreases children@.len() - i,
    {
        let c = children[i];
        assert(children@.subrange(0, i + 1).drop_last() =~= children@.subrange(0, i as int));
        if !c.exists {
            ops.push(DeleteOp::RemoveChild { folder_child_id: c.folder_child_id, song_id: c.song_id });
        }
        i = i + 1;
    }
    assert(children@.subrange(0, children@.len() as int) =~= children@);
    if !folder_exists {
        ops.push(DeleteOp::RemoveFolder { folder_id });
        assert(ops@ =~= sweep_ops(folder_id, folder_exists, children@));
    } else {
        assert(ops@ =~= sweep_ops(folder_id, folder_exists, children@));
    }
    ops
}

/// The identifiers a song row refers to.
#[derive(Clone, Copy, PartialEq, Eq, Structural, Debug)]
pub struct SongLinks {
    pub song_id: EntityId,
    pub album_id: Option<EntityId>,
    pub artist_id: Option<EntityId>,
    pub cover_art_id: Option<EntityId>,
}

/// How a song may refer to an identifier.
#[derive(Clone, Copy, PartialEq, Eq, Structural, Debug)]
pub enum RefKind {
    Album,
    Artist,
    /// As its own identifier, its album's or its artist's.
    Any,
}

pub open spec fn refers(s: SongLinks, kind: RefKind, x: EntityId) -> bool {
    match kind {
        RefKind::Album => s.album_id == Some(x),
        RefKind::Artist => s.artist_id == Some(x),
        RefKind::Any => s.song_id == x || s.album_id == Some(x) || s.artist_id == Some(x),
    }
}

pub open spec fn referenced(songs: Seq<SongLinks>, kind: RefKind, x: EntityId) -> bool {
    exists|i: int| 0 <= i < songs.len() && refers(#[trigger] songs[i], kind, x)
}

/// Whether some song has this album and this artist.
pub open spec fn pair_referenced(songs: Seq<SongLinks>, link: (EntityId, EntityId)) -> bool {
    exists|i: int|
        0 <= i < songs.len() && (#[trigger] songs[i]).album_id == Some(link.0) && songs[i].artist_id
            == Some(link.1)
}

/// The identifiers among `ids` that no song refers to in the given way.
pub open spec fn orphan_ids(ids: Seq<EntityId>, songs: Seq<SongLinks>, kind: RefKind) -> Seq<
    EntityId,
>
    decreases ids.len(),
{
    if ids.len() == 0 {
        seq![]
    } else {
        let r = orphan_ids(ids.drop_last(), songs, kind);
        if referenced(songs, kind, ids.last()) {
            r
        } else {
            r.push(ids.last())
        }
    }
}

/// The album-artist links among `links` that no song carries.
pub open spec fn orphan_links(links: Seq<(EntityId, EntityId)>, songs: Seq<SongLinks>) -> Seq<
    (EntityId, EntityId),
>
    decreases links.len(),
{
    if links.len() == 0 {
        seq![]
    } else {
        let r = orphan_links(links.drop_last(), songs);
        if pair_referenced(songs, links.last()) {
            r
        } else {
            r.push(links.last())
        }
    }
}

fn is_referenced(songs: &Vec<SongLinks>, kind: RefKind, x: EntityId) -> (r: bool)
    ensures
        r == referenced(songs@, kind, x),
{
    let mut i: usize = 0;
    while i < songs.len()
        invariant
            i <= songs@.len(),
            forall|j: int| 0 <= j < i ==> !refers(#[trigger] songs@[j], kind, x),
        decreases songs@.len() - i,
    {
        let s = songs[i];
        let hit = match kind {
            RefKind::Album => s.album_id == Some(x),
            RefKind::Artist => s.artist_id == Some(x),
            RefKind::Any => s.song_id == x || s.album_id == Some(x) || s.artist_id == Some(x),
        };
        if hit {
            assert(refers(songs@[i as int], kind, x));
            return true;
        }
        i = i + 1;
    }
    false
}

fn is_pair_referenced(songs: &Vec<SongLinks>, link: (EntityId, EntityId)) -> (r: bool)
    ensures
        r == pair_referenced(songs@, link),
{
    let mut i: usize = 0;
    while i < songs.len()
        invariant
            i <= songs@.len(),
            forall|j: int|
                0 <= j < i ==> !((#[trigger] songs@[j]).album_id == Some(link.0)
                    && songs@[j].artist_id == Some(link.1)),
        decreases songs@.len() - i,
    {
        let s = songs[i];
        if s.album_id == Some(link.0) && s.artist_id == Some(link.1) {
            return true;
        }
        i = i + 1;
    }
    false
}

fn unreferenced_ids(ids: &Vec<EntityId>, songs: &Vec<SongLinks>, kind: RefKind) -> (r: Vec<EntityId>)
    ensures
        r@ == orphan_ids(ids@, songs@, kind),
{
    let mut out: Vec<EntityId> = Vec::new();
    let mut i: usize = 0;
    while i < ids.len()
        invariant
            i <= ids@.len(),
            out@ == orphan_ids(ids@.subrange(0, i as int), songs@, kind),
        decreases ids@.len() - i,
    {
        assert(ids@.subrange(0, i + 1).drop_last() =~= ids@.subrange(0, i as int));
        let x = ids[i];
        if !is_referenced(songs, kind, x) {
            out.push(x);
        }
        i = i + 1;
    }
    assert(ids@.subrange(0, ids@.len() as int) =~= ids@);
    out
}

fn unreferenced_links(links: &Vec<(EntityId, EntityId)>, songs: &Vec<SongLinks>) -> (r: Vec<
    (EntityId, EntityId),
>)
    ensures
        r@ == orphan_links(links@, songs@),
{
    let mut out: Vec<(EntityId, EntityId)> = Vec::new();
    let mut i: usize = 0;
    while i < links.len()
        invariant
            i <= links@.len(),
            out@ == orphan_links(links@.subrange(0, i as int), songs@),
        decreases links@.len() - i,
    {
        assert(links@.subrange(0, i + 1).drop_last() =~= links@.subrange(0, i as int));
        let l = links[i];
        if !is_pair_referenced(songs, l) {
            out.push(l);
        }
        i = i + 1;
    }
    assert(links@.subrange(0, links@.len() as int) =~= links@);
    out
}

/// Whether cover art `c` is still in use: a song shows it, or an album or an
/// artist that still has songs does.
pub open spec fn cover_in_use(
    songs: Seq<SongLinks>,
    album_covers: Seq<(EntityId, EntityId)>,
    artist_covers: Seq<(EntityId, EntityId)>,
    c: EntityId,
) -> bool {
    ||| exists|i: int| 0 <= i < songs.len() && (#[trigger] songs[i]).cover_art_id == Some(c)
    ||| exists|j: int|
        0 <= j < album_covers.len() && (#[trigger] album_covers[j]).1 == c && referenced(
            songs,
            RefKind::Album,
            album_covers[j].0,
        )
    ||| exists|j: int|
        0 <= j < artist_covers.len() && (#[trigger] artist_covers[j]).1 == c && referenced(
            songs,
            RefKind::Artist,
            artist_covers[j].0,
        )
}

/// The cover art among `ids` that nothing surviving uses.
pub open spec fn unused_covers(
    ids: Seq<EntityId>,
    songs: Seq<SongLinks>,
    album_covers: Seq<(EntityId, EntityId)>,
    artist_covers: Seq<(EntityId, EntityId)>,
) -> Seq<EntityId>
    decreases ids.len(),
{
    if ids.len() == 0 {
        seq![]
    } else {
        let r = unused_covers(ids.drop_last(), songs, album_covers, artist_covers);
        if cover_in_use(songs, album_covers, artist_covers, ids.last()) {
            r
        } else {
            r.push(ids.last())
        }
    }
}

fn owner_cover_in_use(
    owners: &Vec<(EntityId, EntityId)>,
    songs: &Vec<SongLinks>,
    kind: RefKind,
    c: EntityId,
) -> (r: bool)
    ensures
        r == exists|j: int|
            0 <= j < owners@.len() && (#[trigger] owners@[j]).1 == c && referenced(
                songs@,
                kind,
                owners@[j].0,
            ),
{
    let mut j: usize = 0;
    while j < owners.len()
        invariant
            j <= owners@.len(),
            forall|k: int|
                0 <= k < j ==> !((#[trigger] owners@[k]).1 == c && referenced(
                    songs@,
                    kind,
                    owners@[k].0,
                )),
        decreases owners@.len() - j,
    {
        let o = owners[j];
        if o.1 == c && is_referenced(songs, kind, o.0) {
            return true;
        }
        j = j + 1;
    }
    false
}

fn is_cover_in_use(snapshot: &CatalogSnapshot, c: EntityId) -> (r: bool)
    ensures
        r == cover_in_use(
            snapshot.songs@,
            snapshot.album_covers@,
            snapshot.artist_covers@,
            c,
        ),
{
    let mut i: usize = 0;
    while i < snapshot.songs.len()
        invariant
            i <= snapshot.songs@.len(),
            forall|k: int|
                0 <= k < i ==> (#[trigger] snapshot.songs@[k]).cover_art_id != Some(c),
        decreases snapshot.songs@.len() - i,
    {
        if snapshot.songs[i].cover_art_id == Some(c) {
            assert(snapshot.songs@[i as int].cover_art_id == Some(c));
            return true;
        }
        i = i + 1;
    }
    owner_cover_in_use(&snapshot.album_covers, &snapshot.songs, RefKind::Album, c)
        || owner_cover_in_use(
        &snapshot.artist_covers,
        &snapshot.songs,
        RefKind::Artist,
        c,
    )
}

fn unused_cover_ids(snapshot: &CatalogSnapshot) -> (r: Vec<EntityId>)
    ensures
        r@ == unused_covers(
            snapshot.cover_art@,
            snapshot.songs@,
            snapshot.album_covers@,
            snapshot.artist_covers@,
        ),
{
    let ids = &snapshot.cover_art;
    let mut out: Vec<EntityId> = Vec::new();
    let mut i: usize = 0;
    while i < ids.len()
        invariant
            i <= ids@.len(),
            out@ == unused_covers(
                ids@.subrange(0, i as int),
                snapshot.songs@,
                snapshot.album_covers@,
                snapshot.artist_covers@,
            ),
        decreases ids@.len() - i,
    {
        assert(ids@.subrange(0, i + 1).drop_last() =~= ids@.subrange(0, i as int));
        let c = ids[i];
        if !is_cover_in_use(snapshot, c) {
            out.push(c);
        }
        i = i + 1;
    }
    assert(ids@.subrange(0, ids@.len() as int) =~= ids@);
    out
}

/// The catalog's rows as the orphan cleanup reads them, after the file sweep.
#[derive(Clone, Debug)]
pub struct CatalogSnapshot {
    pub songs: Vec<SongLinks>,
    pub album_links: Vec<(EntityId, EntityId)>,
    pub albums: Vec<EntityId>,
    pub artists: Vec<EntityId>,
    /// Each album that has cover art, with its cover art's identifier.
    pub album_covers: Vec<(EntityId, EntityId)>,
    /// Each artist that has cover art, with its cover art's identifier.
    pub artist_covers: Vec<(EntityId, EntityId)>,
    pub cover_art: Vec<EntityId>,
    pub starred: Vec<EntityId>,
}

/// The rows the orphan cleanup deletes.
#[derive(Clone, Debug)]
pub struct Orphans {
    pub album_links: Vec<(EntityId, EntityId)>,
    pub albums: Vec<EntityId>,
    pub artists: Vec<EntityId>,
    pub cover_art: Vec<EntityId>,
    pub starred: Vec<EntityId>,
}

/// Finds the rows that nothing surviving refers to: album-artist links no
/// song carries, albums and artists without songs, cover art that no song,
/// and no album or artist that still has songs, shows, and starred rows whose
/// identifier is no song's, nor any song's album's or artist's.
pub fn find_orphans(snapshot: &CatalogSnapshot) -> (r: Orphans)
    ensures
        r.album_links@ == orphan_links(snapshot.album_links@, snapshot.songs@),
        r.albums@ == orphan_ids(snapshot.albums@, snapshot.songs@, RefKind::Album),
        r.artists@ == orphan_ids(snapshot.artists@, snapshot.songs@, RefKind::Artist),
        r.cover_art@ == unused_covers(
            snapshot.cover_art@,
            snapshot.songs@,
            snapshot.album_covers@,
            snapshot.artist_covers@,
        ),
        r.starred@ == orphan_ids(snapshot.starred@, snapshot.songs@, RefKind::Any),
{
    let songs = &snapshot.songs;
    Orphans {
        album_links: unreferenced_links(&snapshot.album_links, songs),
        albums: unreferenced_ids(&snapshot.albums, songs, RefKind::Album),
        artists: unreferenced_ids(&snapshot.artists, songs, RefKind::Artist),
        cover_art: unused_cover_ids(snapshot),
        starred: unreferenced_ids(&snapshot.starred, songs, RefKind::Any),
    }
}

/// Whether the op deletes the song with identifier `id`.
pub open spec fn op_deletes_song(op: DeleteOp, id: EntityId) -> bool {
    match op {
        DeleteOp::RemoveChild { song_id, .. } => song_id == Some(id),
        DeleteOp::RemoveFolder { .. } => false,
    }
}

pub open spec fn deletes_song(ops: Seq<DeleteOp>, id: EntityId) -> bool {
    exists|i: int| 0 <= i < ops.len() && op_deletes_song(#[trigger] ops[i], id)
}

/// The songs left after the ops.
pub open spec fn surviving_songs(songs: Seq<SongLinks>, ops: Seq<DeleteOp>) -> Seq<SongLinks>
    decreases songs.len(),
{
    if songs.len() == 0 {
        seq![]
    } else {
        let r = surviving_songs(songs.drop_last(), ops);
        if deletes_song(ops, songs.last().song_id) {
            r
        } else {
            r.push(songs.last())
        }
    }
}

proof fn lemma_child_ops_has(children: Seq<ChildEntry>, j: int)
    requires
        0 <= j < children.len(),
        !children[j].exists,
    ensures
        child_ops(children).contains(
            DeleteOp::RemoveChild {
                folder_child_id: children[j].folder_child_id,
                song_id: children[j].song_id,
            },
        ),
    decreases children.len(),
{
    let op = DeleteOp::RemoveChild {
        folder_child_id: children[j].folder_child_id,
        song_id: children[j].song_id,
    };
    let r = child_ops(children.drop_last());
    if j == children.len() - 1 {
        assert(child_ops(children) == r.push(op));
        assert(r.push(op)[r.len() as int] == op);
    } else {
        assert(children.drop_last()[j] == children[j]);
        lemma_child_ops_has(children.drop_last(), j);
        let k = choose|k: int| 0 <= k < r.len() && r[k] == op;
        if !children.last().exists {
            assert(r.push(children.last().removal())[k] == op) by {
                assert(child_ops(children) == r.push(children.last().removal()));
            }
        }
    }
}

impl ChildEntry {
    /// The deletion of this file.
    pub open spec fn removal(self) -> DeleteOp {
        DeleteOp::RemoveChild { folder_child_id: self.folder_child_id, song_id: self.song_id }
    }
}

proof fn lemma_surviving_songs(songs: Seq<SongLinks>, ops: Seq<DeleteOp>, x: SongLinks)
    ensures
        surviving_songs(songs, ops).contains(x) <==> (songs.contains(x) && !deletes_song(
            ops,
            x.song_id,
        )),
    decreases songs.len(),
{
    if songs.len() > 0 {
        let p = songs.drop_last();
        lemma_surviving_songs(p, ops, x);
        let r = surviving_songs(p, ops);
        if songs.contains(x) && !deletes_song(ops, x.song_id) {
            let k = choose|k: int| 0 <= k < songs.len() && songs[k] == x;
            if k < songs.len() - 1 {
                assert(p[k] == x);
            }
        }
        if p.contains(x) {
            let k = choose|k: int| 0 <= k < p.len() && p[k] == x;
            assert(songs[k] == x);
        }
        if !deletes_song(ops, songs.last().song_id) {
            assert(r.push(songs.last())[r.len() as int] == songs.last());
            assert(songs[songs.len() - 1] == songs.last());
            if r.push(songs.last()).contains(x) {
                let k = choose|k: int| 0 <= k < r.len() + 1 && r.push(songs.last())[k] == x;
                if k < r.len() {
                    assert(r[k] == x);
                }
            }
            if r.contains(x) {
                let k = choose|k: int| 0 <= k < r.len() && r[k] == x;
                assert(r.push(songs.last())[k] == x);
            }
        } else {
            assert(songs[songs.len() - 1] == songs.last());
        }
    }
}

proof fn lemma_orphan_ids(ids: Seq<EntityId>, songs: Seq<SongLinks>, kind: RefKind, x: EntityId)
    ensures
        orphan_ids(ids, songs, kind).contains(x) <==> (ids.contains(x) && !referenced(
            songs,
            kind,
            x,
        )),
    decreases ids.len(),
{
    if ids.len() > 0 {
        let p = ids.drop_last();
        lemma_orphan_ids(p, songs, kind, x);
        let r = orphan_ids(p, songs, kind);
        assert(ids[ids.len() - 1] == ids.last());
        if ids.contains(x) {
            let k = choose|k: int| 0 <= k < ids.len() && ids[k] == x;
            if k < ids.len() - 1 {
                assert(p[k] == x);
            }
        }
        if p.contains(x) {
            let k = choose|k: int| 0 <= k < p.len() && p[k] == x;
            assert(ids[k] == x);
        }
        if !referenced(songs, kind, ids.last()) {
            assert(r.push(ids.last())[r.len() as int] == ids.last());
            if r.push(ids.last()).contains(x) {
                let k = choose|k: int| 0 <= k < r.len() + 1 && r.push(ids.last())[k] == x;
                if k < r.len() {
                    assert(r[k] == x);
                }
            }
            if r.contains(x) {
                let k = choose|k: int| 0 <= k < r.len() && r[k] == x;
                assert(r.push(ids.last())[k] == x);
            }
        }
    }
}

proof fn lemma_orphan_links(
    links: Seq<(EntityId, EntityId)>,
    songs: Seq<SongLinks>,
    x: (EntityId, EntityId),
)
    ensures
        orphan_links(links, songs).contains(x) <==> (links.contains(x) && !pair_referenced(
            songs,
            x,
        )),
    decreases links.len(),
{
    if links.len() > 0 {
        let p = links.drop_last();
        lemma_orphan_links(p, songs, x);
        let r = orphan_links(p, songs);
        assert(links[links.len() - 1] == links.last());
        if links.contains(x) {
            let k = choose|k: int| 0 <= k < links.len() && links[k] == x;
            if k < links.len() - 1 {
                assert(p[k] == x);
            }
        }
        if p.contains(x) {
            let k = choose|k: int| 0 <= k < p.len() && p[k] == x;
            assert(links[k] == x);
        }
        if !pair_referenced(songs, links.last()) {
            assert(r.push(links.last())[r.len() as int] == links.last());
            if r.push(links.last()).contains(x) {
                let k = choose|k: int| 0 <= k < r.len() + 1 && r.push(links.last())[k] == x;
                if k < r.len() {
                    assert(r[k] == x);
                }
            }
            if r.contains(x) {
                let k = choose|k: int| 0 <= k < r.len() && r[k] == x;
                assert(r.push(links.last())[k] == x);
            }
        }
    }
}

proof fn lemma_unused_covers(
    ids: Seq<EntityId>,
    songs: Seq<SongLinks>,
    album_covers: Seq<(EntityId, EntityId)>,
    artist_covers: Seq<(EntityId, EntityId)>,
    x: EntityId,
)
    ensures
        unused_covers(ids, songs, album_covers, artist_covers).contains(x) <==> (ids.contains(x)
            && !cover_in_use(songs, album_covers, artist_covers, x)),
    decreases ids.len(),
{
    if ids.len() > 0 {
        let p = ids.drop_last();
        lemma_unused_covers(p, songs, album_covers, artist_covers, x);
        let r = unused_covers(p, songs, album_covers, artist_covers);
        assert(ids[ids.len() - 1] == ids.last());
        if ids.contains(x) {
            let k = choose|k: int| 0 <= k < ids.len() && ids[k] == x;
            if k < ids.len() - 1 {
                assert(p[k] == x);
            }
        }
        if p.contains(x) {
            let k = choose|k: int| 0 <= k < p.len() && p[k] == x;
            assert(ids[k] == x);
        }
        if !cover_in_use(songs, album_covers, artist_covers, ids.last()) {
            assert(r.push(ids.last())[r.len() as int] == ids.last());
            if r.push(ids.last()).contains(x) {
                let k = choose|k: int| 0 <= k < r.len() + 1 && r.push(ids.last())[k] == x;
                if k < r.len() {
                    assert(r[k] == x);
                }
            }
            if r.contains(x) {
                let k = choose|k: int| 0 <= k < r.len() && r[k] == x;
                assert(r.push(ids.last())[k] == x);
            }
        }
    }
}

/// The orphan cleanup deletes exactly the cover art that nothing surviving
/// shows: art of a surviving song, or of an album or artist that still has
/// songs, stays.
pub proof fn lemma_cover_art_in_use_kept(
    ids: Seq<EntityId>,
    songs: Seq<SongLinks>,
    album_covers: Seq<(EntityId, EntityId)>,
    artist_covers: Seq<(EntityId, EntityId)>,
    c: EntityId,
)
    ensures
        cover_in_use(songs, album_covers, artist_covers, c) ==> !unused_covers(
            ids,
            songs,
            album_covers,
            artist_covers,
        ).contains(c),
        ids.contains(c) && !cover_in_use(songs, album_covers, artist_covers, c)
            ==> unused_covers(ids, songs, album_covers, artist_covers).contains(c),
{
    lemma_unused_covers(ids, songs, album_covers, artist_covers, c);
}

/// Deleting the last file of an album from disk and reconciling removes the
/// file's row and its song; the orphan cleanup that follows removes the album
/// and its album-artist links.
pub proof fn lemma_reconciliation_cascade(
    folder_id: EntityId,
    folder_exists: bool,
    children: Seq<ChildEntry>,
    j: int,
    songs: Seq<SongLinks>,
    album_links: Seq<(EntityId, EntityId)>,
    albums: Seq<EntityId>,
    gone: EntityId,
    album: EntityId,
)
    requires
        0 <= j < children.len(),
        !children[j].exists,
        children[j].song_id == Some(gone),
        forall|k: int| 0 <= k < songs.len() && (#[trigger] songs[k]).album_id == Some(album)
            ==> songs[k].song_id == gone,
        albums.contains(album),
    ensures
        sweep_ops(folder_id, folder_exists, children).contains(
            DeleteOp::RemoveChild { folder_child_id: children[j].folder_child_id, song_id: Some(gone) },
        ),
        forall|s: SongLinks| #[trigger]
            surviving_songs(songs, sweep_ops(folder_id, folder_exists, children)).contains(s)
                ==> s.song_id != gone,
        orphan_ids(
            albums,
            surviving_songs(songs, sweep_ops(folder_id, folder_exists, children)),
            RefKind::Album,
        ).contains(album),
        forall|l: (EntityId, EntityId)|
            album_links.contains(l) && l.0 == album ==> #[trigger] orphan_links(
                album_links,
                surviving_songs(songs, sweep_ops(folder_id, folder_exists, children)),
            ).contains(l),
{
    let ops = sweep_ops(folder_id, folder_exists, children);
    let rest = surviving_songs(songs, ops);
    let op = DeleteOp::RemoveChild { folder_child_id: children[j].folder_child_id, song_id: Some(gone) };
    lemma_child_ops_has(children, j);
    let k = choose|k: int| 0 <= k < child_ops(children).len() && child_ops(children)[k] == op;
    assert(ops[k] == op);
    assert(op_deletes_song(ops[k], gone));
    assert forall|s: SongLinks| #[trigger] rest.contains(s) implies s.song_id != gone by {
        lemma_surviving_songs(songs, ops, s);
    }
    assert(!referenced(rest, RefKind::Album, album)) by {
        if referenced(rest, RefKind::Album, album) {
            let i = choose|i: int| 0 <= i < rest.len() && refers(#[trigger] rest[i], RefKind::Album, album);
            assert(rest.contains(rest[i]));
            lemma_surviving_songs(songs, ops, rest[i]);
            let m = choose|m: int| 0 <= m < songs.len() && songs[m] == rest[i];
            assert(songs[m].album_id == Some(album));
        }
    }
    lemma_orphan_ids(albums, rest, RefKind::Album, album);
    assert forall|l: (EntityId, EntityId)|
        album_links.contains(l) && l.0 == album implies #[trigger] orphan_links(
            album_links,
            rest,
        ).contains(l) by {
        lemma_orphan_links(album_links, rest, l);
        if pair_referenced(rest, l) {
            let i = choose|i: int|
                0 <= i < rest.len() && (#[trigger] rest[i]).album_id == Some(l.0)
                    && rest[i].artist_id == Some(l.1);
            assert(refers(rest[i], RefKind::Album, album));
        }
    }
}

/// A song whose file is still on disk survives reconciliation, and so do its
/// album, its artist and its album-artist link: the cleanup keeps an artist
/// while another of its songs survives.
pub proof fn lemma_reconciliation_keeps_survivors(
    folder_id: EntityId,
    folder_exists: bool,
    children: Seq<ChildEntry>,
    songs: Seq<SongLinks>,
    album_links: Seq<(EntityId, EntityId)>,
    albums: Seq<EntityId>,
    artists: Seq<EntityId>,
    other: SongLinks,
)
    requires
        songs.contains(other),
        !deletes_song(sweep_ops(folder_id, folder_exists, children), other.song_id),
    ensures
        surviving_songs(songs, sweep_ops(folder_id, folder_exists, children)).contains(other),
        forall|r: EntityId|
            other.artist_id == Some(r) ==> !(#[trigger] orphan_ids(
                artists,
                surviving_songs(songs, sweep_ops(folder_id, folder_exists, children)),
                RefKind::Artist,
            ).contains(r)),
        forall|a: EntityId|
            other.album_id == Some(a) ==> !(#[trigger] orphan_ids(
                albums,
                surviving_songs(songs, sweep_ops(folder_id, folder_exists, children)),
                RefKind::Album,
            ).contains(a)),
        forall|a: EntityId, r: EntityId|
            other.album_id == Some(a) && other.artist_id == Some(r) ==> !(#[trigger] orphan_links(
                album_links,
                surviving_songs(songs, sweep_ops(folder_id, folder_exists, children)),
            ).contains((a, r))),
{
    let ops = sweep_ops(folder_id, folder_exists, children);
    let rest = surviving_songs(songs, ops);
    lemma_surviving_songs(songs, ops, other);
    let w = choose|i: int| 0 <= i < rest.len() && rest[i] == other;
    assert forall|r: EntityId| other.artist_id == Some(r) implies !(#[trigger] orphan_ids(
        artists,
        rest,
        RefKind::Artist,
    ).contains(r)) by {
        assert(refers(rest[w], RefKind::Artist, r));
        lemma_orphan_ids(artists, rest, RefKind::Artist, r);
    }
    assert forall|a: EntityId| other.album_id == Some(a) implies !(#[trigger] orphan_ids(
        albums,
        rest,
        RefKind::Album,
    ).contains(a)) by {
        assert(refers(rest[w], RefKind::Album, a));
        lemma_orphan_ids(albums, rest, RefKind::Album, a);
    }
    assert forall|a: EntityId, r: EntityId|
        other.album_id == Some(a) && other.artist_id == Some(r) implies !(#[trigger] orphan_links(
            album_links,
            rest,
        ).contains((a, r))) by {
        assert(pair_referenced(rest, (a, r)));
        lemma_orphan_links(album_links, rest, (a, r));
    }
}

} // verus!
