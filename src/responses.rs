use vstd::prelude::*;

verus! {

/// A marketplace database search.
#[derive(Clone, Debug)]
pub struct DiscogsSearchResponse {
    pub results: Vec<DiscogsSearchResult>,
}

#[derive(Clone, Debug)]
pub struct DiscogsSearchResult {
    pub genre: Vec<String>,
    pub cover_image: Option<String>,
    pub thumb: Option<String>,
    pub master_url: Option<String>,
    pub resource_url: Option<String>,
}

/// A marketplace master release.
#[derive(Clone, Debug)]
pub struct DiscogsMasterResponse {
    pub images: Vec<DiscogsImage>,
}

/// A marketplace release resource.
#[derive(Clone, Debug)]
pub struct DiscogsResourceResponse {
    pub artists: Vec<DiscogsArtist>,
}

#[derive(Clone, Debug)]
pub struct DiscogsArtist {
    pub thumbnail_url: Option<String>,
}

#[derive(Clone, Debug)]
pub struct DiscogsImage {
    pub resource_url: Option<String>,
}

/// A metadata registry recording search.
#[derive(Clone, Debug)]
pub struct MusicbrainzRecordingsResponse {
    pub recordings: Vec<MusicbrainzRecording>,
}

#[derive(Clone, Debug)]
pub struct MusicbrainzRecording {
    pub artist_credit: Vec<MusicbrainzArtistCredit>,
    pub releases: Vec<MusicbrainzRelease>,
    pub tags: Vec<MusicbrainzTag>,
}

#[derive(Clone, Debug)]
pub struct MusicbrainzRelease {
    pub id: String,
}

#[derive(Clone, Debug)]
pub struct MusicbrainzArtistCredit {
    pub artist: MusicbrainzArtist,
}

#[derive(Clone, Debug)]
pub struct MusicbrainzArtist {
    pub id: String,
    pub tags: Vec<MusicbrainzTag>,
}

#[derive(Clone, Debug)]
pub struct MusicbrainzTag {
    pub name: String,
}

/// A metadata registry artist search.
#[derive(Clone, Debug)]
pub struct MusicbrainzArtistsResponse {
    pub artists: Vec<MusicbrainzArtist>,
}

/// The artwork archive's images of a release.
#[derive(Clone, Debug)]
pub struct CoverArtArchiveImagesResponse {
    pub images: Vec<CoverArtArchiveImage>,
}

#[derive(Clone, Debug)]
pub struct CoverArtArchiveImage {
    pub image: Option<String>,
}

/// A scrobbling service's artist lookup.
#[derive(Clone, Debug)]
pub struct LastFmArtistResponse {
    pub artist: Option<LastFmArtist>,
}

#[derive(Clone, Debug)]
pub struct LastFmArtist {
    pub url: Option<String>,
    pub image: Vec<LastFmImage>,
    pub bio: Option<LastFmBio>,
}

#[derive(Clone, Debug)]
pub struct LastFmImage {
    pub text: String,
    pub size: String,
}

#[derive(Clone, Debug)]
pub struct LastFmBio {
    pub summary: String,
}

/// The text of the first image of `size` at or after `from`.
pub open spec fn image_of_size(images: Seq<LastFmImage>, size: Seq<char>, from: int) -> Option<
    Seq<char>,
>
    decreases images.len() - from,
{
    if from < 0 || from >= images.len() {
        None
    } else if images[from].size@ == size {
        Some(images[from].text@)
    } else {
        image_of_size(images, size, from + 1)
    }
}

impl LastFmArtist {
    /// The URL of the artist's first image of the given size.
    pub fn image(&self, size: &str) -> (r: Option<String>)
        ensures
            match r {
                Some(t) => image_of_size(self.image@, size@, 0) == Some(t@),
                None => image_of_size(self.image@, size@, 0) == None::<Seq<char>>,
            },
    {
        let wanted = size.to_string();
        let mut i: usize = 0;
        while i < self.image.len()
            invariant
                i <= self.image@.len(),
                wanted@ == size@,
                image_of_size(self.image@, size@, 0) == image_of_size(self.image@, size@, i as int),
            decreases self.image@.len() - i,
        {
            if self.image[i].size == wanted {
                return Some(self.image[i].text.clone());
            }
            i = i + 1;
        }
        None
    }
}

} // verus!
