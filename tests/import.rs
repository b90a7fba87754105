use beatlocker::ids::{str_to_uuid, EntityId};
use beatlocker::import::{
    file_decision, folder_id_for, folder_row, plan_file_import, root_folder, FileDecision,
    FileImport,
};
use beatlocker::metadata::{metadata_from_probe, CodecKind, ProbedAudio, SongMetadata, Tag, TagKey, Timestamp};

fn metadata(title: Option<&str>, artist: Option<&str>, album: Option<&str>, album_artist: Option<&str>) -> SongMetadata {
    SongMetadata {
        title: title.map(|s| s.to_string()),
        artist: artist.map(|s| s.to_string()),
        album: album.map(|s| s.to_string()),
        album_artist: album_artist.map(|s| s.to_string()),
        date: None,
        track_number: Some(3),
        disc_number: None,
        bit_rate: Some(160),
        duration: Some(6),
        genre: Some("Jazz".to_string()),
        content_type: Some("audio/ogg".to_string()),
        suffix: Some("ogg".to_string()),
    }
}

const NOW: Timestamp = Timestamp { seconds: 1580601600, nanos: 0 };

#[test]
fn valid_file_plans_all_rows() {
    let folder = str_to_uuid("lib/Richard Bona");
    let md = metadata(Some("Ba Senge"), Some("Richard Bona"), Some("Tiki"), Some("Richard Bona"));
    let plan = plan_file_import("lib/Richard Bona/x.ogg", folder, 1234, NOW, Some(md));
    let s = match plan {
        FileImport::Song(s) => s,
        FileImport::Failed(_) => panic!("expected a song"),
    };
    let artist_id = str_to_uuid("Richard Bona");
    let album_id = str_to_uuid("TikiRichard Bona");
    assert_eq!(s.artist.artist_id, artist_id);
    assert_eq!(s.artist.name, "Richard Bona");
    assert_eq!(s.album.as_ref().unwrap().album_id, album_id);
    assert_eq!(s.album.as_ref().unwrap().title, "Tiki");
    assert_eq!(s.album_artist.as_ref().unwrap().artist_id, artist_id);
    assert_eq!(s.album_link, Some((album_id, artist_id)));
    let song_key = format!("Ba Senge{}{}", artist_id.to_text(), album_id.to_text());
    assert_eq!(s.song.song_id, str_to_uuid(&song_key));
    assert_eq!(s.song.title, "Ba Senge");
    assert_eq!(s.song.created, NOW);
    assert_eq!(s.song.size, Some(1234));
    assert_eq!(s.song.artist_id, Some(artist_id));
    assert_eq!(s.song.album_id, Some(album_id));
    assert_eq!(s.song.genre, Some("Jazz".to_string()));
    assert_eq!(s.song.track_number, Some(3));
    assert_eq!(s.child.folder_child_id, str_to_uuid("lib/Richard Bona/x.ogg"));
    assert_eq!(s.child.folder_id, folder);
    assert_eq!(s.child.path, "lib/Richard Bona/x.ogg");
    assert_eq!(s.child.name, "Ba Senge");
    assert_eq!(s.child.song_id, Some(s.song.song_id));
    assert_eq!(s.child.last_updated, None);
}

#[test]
fn song_without_album_uses_nil_album_key() {
    let md = metadata(Some("Solo"), Some("Someone"), None, None);
    let plan = plan_file_import("a/b.ogg", EntityId::nil(), 1, NOW, Some(md));
    let s = match plan {
        FileImport::Song(s) => s,
        FileImport::Failed(_) => panic!("expected a song"),
    };
    assert!(s.album.is_none());
    assert!(s.album_artist.is_none());
    assert!(s.album_link.is_none());
    let artist_id = str_to_uuid("Someone");
    let key = format!("Solo{}00000000-0000-0000-0000-000000000000", artist_id.to_text());
    assert_eq!(s.song.song_id, str_to_uuid(&key));
}

#[test]
fn distinct_album_artist_owns_the_album() {
    let md = metadata(Some("Track"), Some("Guest"), Some("Shared"), Some("Various Artists"));
    let plan = plan_file_import("v/t.ogg", EntityId::nil(), 1, NOW, Some(md));
    let s = match plan {
        FileImport::Song(s) => s,
        FileImport::Failed(_) => panic!("expected a song"),
    };
    let album_id = str_to_uuid("SharedVarious Artists");
    let various = str_to_uuid("Various Artists");
    assert_eq!(s.album.unwrap().album_id, album_id);
    assert_eq!(s.album_artist.unwrap().artist_id, various);
    assert_eq!(s.album_link, Some((album_id, various)));
    assert_eq!(s.artist.artist_id, str_to_uuid("Guest"));
}

#[test]
fn identifiers_do_not_depend_on_time_or_size() {
    let md = metadata(Some("Ba Senge"), Some("Richard Bona"), Some("Tiki"), None);
    let a = plan_file_import("p.ogg", EntityId::nil(), 1, NOW, Some(md.clone()));
    let b = plan_file_import("p.ogg", EntityId::nil(), 99, Timestamp { seconds: 0, nanos: 5 }, Some(md));
    match (a, b) {
        (FileImport::Song(a), FileImport::Song(b)) => {
            assert_eq!(a.song.song_id, b.song.song_id);
            assert_eq!(a.album_link, b.album_link);
            assert_eq!(a.child.folder_child_id, b.child.folder_child_id);
            assert_ne!(a.song.created, b.song.created);
        }
        _ => panic!("expected songs"),
    }
}

#[test]
fn invalid_or_missing_metadata_is_quarantined() {
    let folder = str_to_uuid("lib/x");
    for md in [None, Some(metadata(None, Some("A"), None, None)), Some(metadata(Some("T"), None, None, None))] {
        match plan_file_import("lib/x/readme.txt", folder, 10, NOW, md) {
            FileImport::Failed(f) => {
                assert_eq!(f.folder_child_id, str_to_uuid("lib/x/readme.txt"));
                assert_eq!(f.folder_id, folder);
                assert_eq!(f.path, "lib/x/readme.txt");
            }
            FileImport::Song(_) => panic!("expected a failure record"),
        }
    }
}

#[test]
fn fallback_name_makes_a_song() {
    let probe = ProbedAudio {
        codec: CodecKind::Vorbis,
        bits_per_coded_sample: None,
        vorbis_nominal_bitrate: None,
        time_base: None,
        n_frames: None,
        tags: vec![Tag { key: TagKey::Genre, value: "(12)".to_string() }],
    };
    let md = metadata_from_probe("Foo - Bar.ogg", &probe);
    match plan_file_import("d/Foo - Bar.ogg", EntityId::nil(), 5, NOW, Some(md)) {
        FileImport::Song(s) => {
            assert_eq!(s.song.title, "Bar");
            assert_eq!(s.artist.name, "Foo");
            assert_eq!(s.song.genre, Some("Other".to_string()));
        }
        FileImport::Failed(_) => panic!("expected a song"),
    }
}

#[test]
fn decisions_skip_known_files() {
    assert_eq!(file_decision(true, false), FileDecision::SkipFailed);
    assert_eq!(file_decision(true, true), FileDecision::SkipFailed);
    assert_eq!(file_decision(false, true), FileDecision::SkipImported);
    assert_eq!(file_decision(false, false), FileDecision::Import);
}

#[test]
fn folder_rows() {
    let root = root_folder(NOW);
    assert!(root.folder_id.is_nil());
    assert_eq!(root.name, "root");
    assert_eq!(root.parent_id, None);
    assert_eq!(folder_id_for("tests/data", "tests/data"), EntityId::nil());
    assert_eq!(folder_id_for("tests/data/Motorway OST", "tests/data"), str_to_uuid("tests/data/Motorway OST"));
    assert_eq!(
        str_to_uuid("tests/data/Motorway OST").to_text(),
        "68f8b71b-d9b4-c77e-c7f1-e4af263bcd93"
    );
    let f = folder_row("tests/data/Motorway OST", "Motorway OST", EntityId::nil(), NOW);
    assert_eq!(f.folder_id, str_to_uuid("tests/data/Motorway OST"));
    assert_eq!(f.parent_id, Some(EntityId::nil()));
    assert_eq!(f.name, "Motorway OST");
    assert_eq!(f.created, NOW);
}
