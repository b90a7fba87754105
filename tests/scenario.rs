use beatlocker::ids::{str_to_uuid, EntityId};
use beatlocker::import::{folder_id_for, plan_file_import, FileImport};
use beatlocker::metadata::{metadata_from_probe, CodecKind, ProbedAudio, Tag, TagKey, Timestamp};
use std::collections::BTreeSet;

fn probe(tags: &[(TagKey, &str)]) -> ProbedAudio {
    ProbedAudio {
        codec: CodecKind::Mp3,
        bits_per_coded_sample: None,
        vorbis_nominal_bitrate: None,
        time_base: Some((1, 44100)),
        n_frames: Some(44100),
        tags: tags.iter().map(|(k, v)| Tag { key: *k, value: v.to_string() }).collect(),
    }
}

#[test]
fn import_tree_with_shared_album() {
    let root = "lib";
    let files = [
        ("lib/folder1", "Artist1 - Song1.mp3", vec![(TagKey::Album, "Artist1_Album1")]),
        ("lib/folder2", "Artist2 - Song2.mp3", vec![(TagKey::Album, "Artist2_Album1")]),
        ("lib/folder3", "Artist1 - Shared1.mp3", vec![(TagKey::Album, "SharedAlbum"), (TagKey::AlbumArtist, "Various Artists")]),
        ("lib/folder3", "Artist2 - Shared2.mp3", vec![(TagKey::Album, "SharedAlbum"), (TagKey::AlbumArtist, "Various Artists")]),
    ];
    let now = Timestamp { seconds: 1580601600, nanos: 0 };
    let mut albums = BTreeSet::new();
    let mut album_titles = BTreeSet::new();
    let mut artists = BTreeSet::new();
    let mut songs = BTreeSet::new();
    let mut folders = BTreeSet::new();
    for (folder, name, tags) in files.iter() {
        let folder_id = folder_id_for(folder, root);
        folders.insert(folder_id.value);
        let md = metadata_from_probe(name, &probe(tags));
        let path = format!("{folder}/{name}");
        match plan_file_import(&path, folder_id, 100, now, Some(md)) {
            FileImport::Song(s) => {
                let album = s.album.expect("every file has an album");
                albums.insert(album.album_id.value);
                album_titles.insert(album.title);
                artists.insert(s.artist.artist_id.value);
                if let Some(a) = s.album_artist {
                    artists.insert(a.artist_id.value);
                }
                songs.insert(s.song.song_id.value);
            }
            FileImport::Failed(_) => panic!("every file is valid"),
        }
    }
    assert_eq!(folders.len(), 3);
    assert_eq!(albums.len(), 3);
    assert_eq!(artists.len(), 3);
    assert_eq!(songs.len(), 4);
    assert!(albums.contains(&str_to_uuid("SharedAlbumVarious Artists").value));
    assert!(!folders.contains(&EntityId::nil().value));
    let ordered: Vec<String> = album_titles.into_iter().collect();
    assert_eq!(ordered, vec!["Artist1_Album1", "Artist2_Album1", "SharedAlbum"]);
}
