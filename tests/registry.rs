use beatlocker::metadata::Timestamp;
use beatlocker::registry::{
    max_track_count, rank_releases, release_from_match, RegistryCredit, RegistryRecording,
    RegistryRelease,
};

fn release(id: &str, title: &str, tracks: Vec<u32>) -> RegistryRelease {
    RegistryRelease {
        id: id.to_string(),
        title: title.to_string(),
        artist_credit: vec![],
        date: None,
        track_counts: tracks,
    }
}

#[test]
fn releases_rank_by_track_count_then_distance() {
    let releases = vec![
        release("a", "Tiki", vec![10]),
        release("b", "Tiki", vec![5, 12]),
        release("c", "Tik", vec![5]),
        release("d", "Tiki", vec![5]),
        release("e", "Tiki", vec![3, 5]),
    ];
    assert_eq!(rank_releases(&releases, Some("Tiki")), vec![3, 4, 2, 0, 1]);
    assert_eq!(rank_releases(&vec![], Some("Tiki")), Vec::<usize>::new());
    // Without an album, the distance is the title's length.
    let two = vec![release("x", "Long title", vec![1]), release("y", "Ab", vec![1])];
    assert_eq!(rank_releases(&two, None), vec![1, 0]);
}

#[test]
fn track_counts_take_the_largest() {
    assert_eq!(max_track_count(&vec![]), 0);
    assert_eq!(max_track_count(&vec![4, 11, 7]), 11);
}

#[test]
fn release_from_matched_recording() {
    let rec = RegistryRecording {
        id: "rec-1".to_string(),
        title: "Ba Senge".to_string(),
        artist_credit: vec![
            RegistryCredit { artist_id: "art-1".to_string(), name: "Richard Bona".to_string() },
            RegistryCredit { artist_id: "art-2".to_string(), name: "Guest".to_string() },
        ],
        genres: vec!["jazz".to_string(), "world".to_string()],
    };
    let mut rel = release("rel-1", "Tiki", vec![12]);
    rel.date = Some(Timestamp { seconds: 1136073600, nanos: 0 });
    let r = release_from_match(&rec, &rel);
    assert_eq!(r.song.0.as_str(), "mb:rec-1");
    assert_eq!(r.song.1, "Ba Senge");
    let album = r.album.as_ref().unwrap();
    assert_eq!((album.0.as_str(), album.1.as_str()), ("mb:rel-1", "Tiki"));
    let artist = r.artist.as_ref().unwrap();
    assert_eq!((artist.0.as_str(), artist.1.as_str()), ("mb:art-1", "Richard Bona"));
    assert!(r.album_artist.is_none());
    assert_eq!(r.genre, Some("jazz".to_string()));
    assert_eq!(r.release_date, Some(Timestamp { seconds: 1136073600, nanos: 0 }));
}
