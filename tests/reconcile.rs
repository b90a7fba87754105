use beatlocker::ids::str_to_uuid;
use beatlocker::reconcile::{
    find_orphans, folder_sweep, CatalogSnapshot, ChildEntry, DeleteOp, SongLinks,
};

#[test]
fn sweep_removes_vanished_children_then_folder() {
    let folder = str_to_uuid("f");
    let a = ChildEntry { folder_child_id: str_to_uuid("f/a"), song_id: Some(str_to_uuid("sa")), exists: true };
    let b = ChildEntry { folder_child_id: str_to_uuid("f/b"), song_id: Some(str_to_uuid("sb")), exists: false };
    let c = ChildEntry { folder_child_id: str_to_uuid("f/c"), song_id: None, exists: false };
    let ops = folder_sweep(folder, false, &vec![a, b, c]);
    assert_eq!(
        ops,
        vec![
            DeleteOp::RemoveChild { folder_child_id: b.folder_child_id, song_id: b.song_id },
            DeleteOp::RemoveChild { folder_child_id: c.folder_child_id, song_id: None },
            DeleteOp::RemoveFolder { folder_id: folder },
        ]
    );
    assert_eq!(folder_sweep(folder, true, &vec![a]), vec![]);
}

#[test]
fn reconciliation_cascade() {
    // The last song of album "Tiki" is gone; its artist keeps another song.
    let artist = str_to_uuid("Richard Bona");
    let other_artist = str_to_uuid("Alex Gopher");
    let tiki = str_to_uuid("TikiRichard Bona");
    let motorway = str_to_uuid("MotorwayAlex Gopher");
    let cover = str_to_uuid("/images/1.jpg");
    let surviving = vec![
        SongLinks { song_id: str_to_uuid("s1"), album_id: None, artist_id: Some(artist), cover_art_id: None },
        SongLinks { song_id: str_to_uuid("s2"), album_id: Some(motorway), artist_id: Some(other_artist), cover_art_id: None },
    ];
    let snapshot = CatalogSnapshot {
        songs: surviving.clone(),
        album_links: vec![(tiki, artist), (motorway, other_artist)],
        albums: vec![tiki, motorway],
        artists: vec![artist, other_artist, str_to_uuid("Nobody")],
        album_covers: vec![],
        artist_covers: vec![],
        cover_art: vec![cover, artist],
        starred: vec![str_to_uuid("s1"), str_to_uuid("gone-song"), tiki],
    };
    let o = find_orphans(&snapshot);
    assert_eq!(o.album_links, vec![(tiki, artist)]);
    assert_eq!(o.albums, vec![tiki]);
    assert_eq!(o.artists, vec![str_to_uuid("Nobody")]);
    assert_eq!(o.cover_art, vec![cover, artist]);
    assert_eq!(o.starred, vec![str_to_uuid("gone-song"), tiki]);
}

#[test]
fn empty_catalog_has_no_orphans() {
    let o = find_orphans(&CatalogSnapshot {
        songs: vec![],
        album_links: vec![],
        albums: vec![],
        artists: vec![],
        album_covers: vec![],
        artist_covers: vec![],
        cover_art: vec![],
        starred: vec![],
    });
    assert!(o.albums.is_empty() && o.artists.is_empty() && o.album_links.is_empty());
}

#[test]
fn cover_art_in_use_is_kept() {
    let song_art = str_to_uuid("/song.jpg");
    let album_art = str_to_uuid("/album.jpg");
    let artist_art = str_to_uuid("/artist.jpg");
    let stale_album_art = str_to_uuid("/gone-album.jpg");
    let unused = str_to_uuid("/unused.jpg");
    let album = str_to_uuid("AlbumArtist");
    let gone_album = str_to_uuid("GoneArtist");
    let artist = str_to_uuid("Artist");
    let snapshot = CatalogSnapshot {
        songs: vec![SongLinks {
            song_id: str_to_uuid("s"),
            album_id: Some(album),
            artist_id: Some(artist),
            cover_art_id: Some(song_art),
        }],
        album_links: vec![],
        albums: vec![album, gone_album],
        artists: vec![artist],
        album_covers: vec![(album, album_art), (gone_album, stale_album_art)],
        artist_covers: vec![(artist, artist_art)],
        cover_art: vec![song_art, album_art, artist_art, stale_album_art, unused],
        starred: vec![],
    };
    let o = find_orphans(&snapshot);
    assert_eq!(o.cover_art, vec![stale_album_art, unused]);
    assert_eq!(o.albums, vec![gone_album]);
}
