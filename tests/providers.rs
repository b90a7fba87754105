use beatlocker::providers::{
    ends_search, search_outcome, DiscogsProvider, FindCoverArtQuery, InfoProviderList, InfoProviderOptions,
    MbProvider, ProviderKind, ProviderUri,
};
use beatlocker::responses::{DiscogsArtist, LastFmArtist, LastFmImage};

#[test]
fn provider_uri_joins_with_colon() {
    let u = ProviderUri::from_provider("mb", "1234");
    assert_eq!(u.as_str(), "mb:1234");
    assert_eq!(u.to_text(), "mb:1234");
}

#[test]
fn provider_list_order() {
    let l = InfoProviderList::new(&InfoProviderOptions { discogs_token: None });
    assert_eq!(l.providers, vec![ProviderKind::Musicbrainz]);
    let l = InfoProviderList::new(&InfoProviderOptions { discogs_token: Some("t".to_string()) });
    assert_eq!(l.providers, vec![ProviderKind::Musicbrainz, ProviderKind::Discogs]);
}

#[test]
fn discogs_urls() {
    let p = DiscogsProvider::new("tok");
    let q = FindCoverArtQuery { album: Some("Tiki"), artist: None, song_title: None };
    assert_eq!(
        p.search_url(&q),
        "https://api.discogs.com/database/search?release_title=Tiki&artist=&token=tok"
    );
    assert_eq!(p.resource_url("https://x/r/1"), "https://x/r/1?token=tok");
    let artists = vec![
        DiscogsArtist { thumbnail_url: None },
        DiscogsArtist { thumbnail_url: Some("a".to_string()) },
        DiscogsArtist { thumbnail_url: Some("b".to_string()) },
    ];
    assert_eq!(DiscogsProvider::first_thumbnail(&artists), Some("a".to_string()));
}

#[test]
fn archive_host_urls_are_skipped() {
    let _ = MbProvider::new();
    assert!(!MbProvider::is_usable_cover_url("http://coverartarchive.org/release/1/front"));
    assert!(MbProvider::is_usable_cover_url("https://coverartarchive.org/release/1/front"));
    assert!(MbProvider::is_usable_cover_url("http://cover"));
}

#[test]
fn lastfm_image_by_size() {
    let a = LastFmArtist {
        url: None,
        image: vec![
            LastFmImage { text: "s".to_string(), size: "small".to_string() },
            LastFmImage { text: "m".to_string(), size: "medium".to_string() },
            LastFmImage { text: "m2".to_string(), size: "medium".to_string() },
        ],
        bio: None,
    };
    assert_eq!(a.image("medium"), Some("m".to_string()));
    assert_eq!(a.image("large"), None);
}

#[test]
fn search_stops_at_first_hit_or_error() {
    let hit: Result<Option<String>, String> = Ok(Some("x".to_string()));
    let none: Result<Option<String>, String> = Ok(None);
    let err: Result<Option<String>, String> = Err("boom".to_string());
    assert!(ends_search(&hit));
    assert!(ends_search(&err));
    assert!(!ends_search(&none));
    assert_eq!(search_outcome(&vec![none.clone(), err.clone(), hit.clone()]), err);
    assert_eq!(search_outcome(&vec![none.clone(), hit.clone(), err.clone()]), hit);
    assert_eq!(search_outcome(&vec![none.clone(), none.clone()]), Ok(None));
    assert_eq!(search_outcome(&vec![]), Ok(None));
}
