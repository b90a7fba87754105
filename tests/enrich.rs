use beatlocker::enrich::{
    archive_image_url, artist_query, cooldown_cutoff, cover_update, credited_artist_id,
    genre_update, is_enrichment_candidate, marketplace_cover_url, marketplace_genre,
    marketplace_link_to_fetch, marketplace_search_params, master_image_url, recording_genre, recording_query,
    registry_id_update, resource_thumbnail_url, EnrichmentGaps, COOLDOWN_SECONDS,
};
use beatlocker::ids::str_to_uuid;
use beatlocker::metadata::Timestamp;
use beatlocker::responses::{
    CoverArtArchiveImage, CoverArtArchiveImagesResponse, DiscogsArtist, DiscogsImage,
    DiscogsMasterResponse, DiscogsResourceResponse, DiscogsSearchResult, MusicbrainzArtist,
    MusicbrainzArtistCredit, MusicbrainzRecording, MusicbrainzTag,
};

const NOW: Timestamp = Timestamp { seconds: 1_700_000_000, nanos: 0 };

fn gaps(genre: bool) -> EnrichmentGaps {
    EnrichmentGaps { song_cover_art: false, artist_cover_art: false, album_cover_art: false, genre }
}

#[test]
fn cooldown_excludes_recent_files() {
    assert_eq!(COOLDOWN_SECONDS, 96 * 3600);
    let cut = cooldown_cutoff(NOW);
    assert_eq!(cut, Timestamp { seconds: 1_700_000_000 - 345_600, nanos: 0 });
    let recent = Timestamp { seconds: NOW.seconds - 3600, nanos: 0 };
    let old = Timestamp { seconds: NOW.seconds - 345_601, nanos: 0 };
    assert!(!is_enrichment_candidate(gaps(true), Some(recent), NOW));
    assert!(!is_enrichment_candidate(gaps(true), Some(cut), NOW));
    assert!(is_enrichment_candidate(gaps(true), Some(old), NOW));
    assert!(is_enrichment_candidate(gaps(true), None, NOW));
    assert!(!is_enrichment_candidate(gaps(false), None, NOW));
}

fn tag(name: &str) -> MusicbrainzTag {
    MusicbrainzTag { name: name.to_string() }
}

#[test]
fn preset_genre_is_never_replaced() {
    let current = Some("Manual".to_string());
    assert_eq!(genre_update(&current, Some("rock".to_string()), None, Some("Pop".to_string())), None);
    assert_eq!(genre_update(&None, None, Some("world music".to_string()), Some("Pop".to_string())), Some("World Music".to_string()));
    assert_eq!(genre_update(&None, None, None, Some("hip hop".to_string())), Some("Hip Hop".to_string()));
    assert_eq!(genre_update(&None, None, None, None), None);
}

#[test]
fn cover_updates_fill_only_empty_columns() {
    let id = str_to_uuid("x");
    assert_eq!(cover_update(Some(id), Some("http://a/b.jpg".to_string())), None);
    assert_eq!(cover_update(None, Some("".to_string())), None);
    assert_eq!(cover_update(None, None), None);
    assert_eq!(cover_update(None, Some("http://a/b.jpg".to_string())), Some("http://a/b.jpg".to_string()));
}

#[test]
fn recording_fields_use_last_entries() {
    let rec = MusicbrainzRecording {
        artist_credit: vec![
            MusicbrainzArtistCredit { artist: MusicbrainzArtist { id: "a1".to_string(), tags: vec![] } },
            MusicbrainzArtistCredit { artist: MusicbrainzArtist { id: "a2".to_string(), tags: vec![] } },
        ],
        releases: vec![],
        tags: vec![tag("jazz"), tag("afro")],
    };
    assert_eq!(recording_genre(&rec), Some("afro".to_string()));
    assert_eq!(credited_artist_id(&rec), Some("a2".to_string()));
    assert_eq!(registry_id_update(&None, &rec), Some("a2".to_string()));
    assert_eq!(registry_id_update(&Some("known".to_string()), &rec), None);
}

#[test]
fn provider_urls_are_picked() {
    let archive = CoverArtArchiveImagesResponse {
        images: vec![
            CoverArtArchiveImage { image: Some("u1".to_string()) },
            CoverArtArchiveImage { image: Some("u2".to_string()) },
        ],
    };
    assert_eq!(archive_image_url(&archive), Some("u2".to_string()));
    assert_eq!(archive_image_url(&CoverArtArchiveImagesResponse { images: vec![] }), None);
    let result = DiscogsSearchResult {
        genre: vec!["Jazz".to_string(), "Funk".to_string()],
        cover_image: None,
        thumb: Some("thumb".to_string()),
        master_url: None,
        resource_url: None,
    };
    assert_eq!(marketplace_cover_url(&result), Some("thumb".to_string()));
    assert_eq!(marketplace_genre(&result), Some("Funk".to_string()));
    let master = DiscogsMasterResponse { images: vec![DiscogsImage { resource_url: Some("m".to_string()) }] };
    assert_eq!(master_image_url(&master), Some("m".to_string()));
    let resource = DiscogsResourceResponse {
        artists: vec![DiscogsArtist { thumbnail_url: Some("t1".to_string()) }, DiscogsArtist { thumbnail_url: None }],
    };
    assert_eq!(resource_thumbnail_url(&resource), None);
}

#[test]
fn queries_are_built() {
    assert_eq!(
        recording_query("Ba Senge", "Richard Bona", Some("Tiki")),
        "query=title:Ba Senge AND artist:Richard Bona AND release:Tiki"
    );
    assert_eq!(recording_query("T", "A", None), "query=title:T AND artist:A");
    assert_eq!(artist_query("abc"), "arid:abc");
    let p = marketplace_search_params("Beyoncé", Some("Lemonadé"), "Hold Up", "tok", true);
    assert_eq!(
        p,
        vec![
            ("artist".to_string(), "Beyonce".to_string()),
            ("release_title".to_string(), "Lemonade".to_string()),
            ("track".to_string(), "Hold Up".to_string()),
            ("token".to_string(), "tok".to_string()),
        ]
    );
    let p = marketplace_search_params("Beyoncé", None, "Hold Up", "tok", false);
    assert_eq!(p.len(), 3);
    assert_eq!(p[1], ("track".to_string(), "Hold Up".to_string()));
}

#[test]
fn marketplace_links_need_a_token_and_a_url() {
    let url = Some("https://api.discogs.com/masters/1".to_string());
    let token = Some("tok".to_string());
    assert_eq!(marketplace_link_to_fetch(&token, &url), url);
    assert_eq!(marketplace_link_to_fetch(&None, &url), None);
    assert_eq!(marketplace_link_to_fetch(&token, &Some(String::new())), None);
    assert_eq!(marketplace_link_to_fetch(&token, &None), None);
}
