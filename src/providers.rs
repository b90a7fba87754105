use vstd::prelude::*;
use crate::metadata::Timestamp;
use crate::responses::DiscogsArtist;

verus! {

/// A provider-qualified identifier, written `provider:uri`.
pub struct ProviderUri(String);

impl View for ProviderUri {
    type V = Seq<char>;

    closed spec fn view(&self) -> Seq<char> {
        self.0@
    }
}

impl ProviderUri {
    pub fn as_str(&self) -> (r: &str)
        ensures
            r@ == self@,
    {
        self.0.as_str()
    }

    pub fn from_provider(provider: &str, uri: &str) -> (r: ProviderUri)
        ensures
            r@ == provider@ + ":"@ + uri@,
    {
        ProviderUri(provider.to_string().concat(":").concat(uri))
    }

    /// The identifier's text.
    pub fn to_text(&self) -> (r: String)
        ensures
            r@ == self@,
    {
        self.0.clone()
    }
}

/// What to look a release up by.
pub struct FindReleaseQuery<'a> {
    pub album: Option<&'a str>,
    pub artist: &'a str,
    pub song_title: Option<&'a str>,
}

/// What to look cover art or an artist photo up by.
pub struct FindCoverArtQuery<'a> {
    pub album: Option<&'a str>,
    pub artist: Option<&'a str>,
    pub song_title: Option<&'a str>,
}

/// A release as a provider describes it.
pub struct Release {
    pub album: Option<(ProviderUri, String)>,
    pub album_artist: Option<(ProviderUri, String)>,
    pub artist: Option<(ProviderUri, String)>,
    pub song: (ProviderUri, String),
    pub genre: Option<String>,
    pub release_date: Option<Timestamp>,
}

/// Which providers are configured: the marketplace needs a token.
pub struct InfoProviderOptions {
    pub discogs_token: Option<String>,
}

/// The metadata registry's provider.
pub struct MbProvider {}

impl MbProvider {
    pub fn new() -> (r: MbProvider) {
        MbProvider {  }
    }

    /// Whether a cover art URL the registry's archive gave is used: not one on
    /// the archive's plain-HTTP host.
    pub fn is_usable_cover_url(url: &str) -> (r: bool)
        ensures
            r == !(url@.len() >= "http://coverartarchive.org"@.len() && url@.subrange(
                0,
                "http://coverartarchive.org"@.len() as int,
            ) == "http://coverartarchive.org"@),
    {
        let prefix = "http://coverartarchive.org";
        let n = prefix.unicode_len();
        if url.unicode_len() < n {
            return true;
        }
        let head = url.substring_char(0, n);
        let a = head.to_string();
        let b = prefix.to_string();
        !(a == b)
    }
}

/// The marketplace's provider.
pub struct DiscogsProvider {
    token: String,
}

impl DiscogsProvider {
    pub closed spec fn spec_token(&self) -> Seq<char> {
        self.token@
    }

    pub fn new(token: &str) -> (r: DiscogsProvider)
        ensures
            r.spec_token() == token@,
    {
        DiscogsProvider { token: token.to_string() }
    }

    /// The marketplace search for an artist photo.
    pub fn search_url(&self, query: &FindCoverArtQuery) -> (r: String)
        ensures
            r@ == "https://api.discogs.com/database/search?release_title="@ + (match query.album {
                Some(a) => a@,
                None => Seq::<char>::empty(),
            }) + "&artist="@ + (match query.artist {
                Some(a) => a@,
                None => Seq::<char>::empty(),
            }) + "&token="@ + self.spec_token(),
    {
        let album = match query.album {
            Some(a) => a,
            None => "",
        };
        let artist = match query.artist {
            Some(a) => a,
            None => "",
        };
        proof {
            reveal_strlit("");
        }
        String::from_str("https://api.discogs.com/database/search?release_title=").concat(
            album,
        ).concat("&artist=").concat(artist).concat("&token=").concat(self.token.as_str())
    }

    /// A release resource's URL with the token.
    pub fn resource_url(&self, resource: &str) -> (r: String)
        ensures
            r@ == resource@ + "?token="@ + self.spec_token(),
    {
        resource.to_string().concat("?token=").concat(self.token.as_str())
    }

    /// The first thumbnail among a release resource's artists.
    pub fn first_thumbnail(artists: &Vec<DiscogsArtist>) -> (r: Option<String>)
        ensures
            r.is_some() <==> exists|i: int|
                0 <= i < artists@.len() && (#[trigger] artists@[i]).thumbnail_url.is_some(),
            r.is_some() ==> exists|i: int|
                0 <= i < artists@.len() && (#[trigger] artists@[i]).thumbnail_url == r && forall|
                    j: int,
                | 0 <= j < i ==> (#[trigger] artists@[j]).thumbnail_url.is_none(),
    {
        let mut i: usize = 0;
        while i < artists.len()
            invariant
                i <= artists@.len(),
                forall|j: int| 0 <= j < i ==> (#[trigger] artists@[j]).thumbnail_url.is_none(),
            decreases artists@.len() - i,
        {
            if artists[i].thumbnail_url.is_some() {
                let r = artists[i].thumbnail_url.clone();
                assert(artists@[i as int].thumbnail_url == r);
                return r;
            }
            i = i + 1;
        }
        None
    }
}

/// The providers, in the order they are asked.
#[derive(Clone, Copy, PartialEq, Eq, Structural, Debug)]
pub enum ProviderKind {
    Musicbrainz,
    Discogs,
}

/// The configured providers in priority order: the registry always, then the
/// marketplace when it has a token.
pub struct InfoProviderList {
    pub providers: Vec<ProviderKind>,
    pub discogs: Option<DiscogsProvider>,
}

impl InfoProviderList {
    pub fn new(options: &InfoProviderOptions) -> (r: InfoProviderList)
        ensures
            options.discogs_token.is_some() ==> r.providers@ == seq![
                ProviderKind::Musicbrainz,
                ProviderKind::Discogs,
            ] && (r.discogs matches Some(d) && d.spec_token()
                == options.discogs_token.unwrap()@),
            options.discogs_token.is_none() ==> r.providers@ == seq![ProviderKind::Musicbrainz]
                && r.discogs.is_none(),
    {
        let mut providers: Vec<ProviderKind> = Vec::new();
        providers.push(ProviderKind::Musicbrainz);
        match &options.discogs_token {
            Some(token) => {
                providers.push(ProviderKind::Discogs);
                InfoProviderList { providers, discogs: Some(DiscogsProvider::new(token.as_str())) }
            },
            None => InfoProviderList { providers, discogs: None },
        }
    }
}

/// What a search over providers asked in order ends with: the first answer
/// that is a hit or an error; `Ok(None)` when every provider has nothing.
pub open spec fn first_outcome(answers: Seq<Result<Option<String>, String>>) -> Result<
    Option<String>,
    String,
>
    decreases answers.len(),
{
    if answers.len() == 0 {
        Ok(None)
    } else {
        match answers[0] {
            Ok(None) => first_outcome(answers.drop_first()),
            _ => answers[0],
        }
    }
}

/// Whether a provider's answer ends the search: a hit or an error does, and
/// no later provider is asked; "nothing found" asks the next one.
pub fn ends_search(answer: &Result<Option<String>, String>) -> (r: bool)
    ensures
        r == !(*answer matches Ok(None)),
{
    match answer {
        Ok(None) => false,
        _ => true,
    }
}

fn copy_answer(answer: &Result<Option<String>, String>) -> (r: Result<Option<String>, String>)
    ensures
        r == *answer,
{
    match answer {
        Ok(Some(x)) => Ok(Some(x.clone())),
        Ok(None) => Ok(None),
        Err(e) => Err(e.clone()),
    }
}

/// The outcome of asking providers in order, given their answers: the first
/// that ends the search, else nothing found.
pub fn search_outcome(answers: &Vec<Result<Option<String>, String>>) -> (r: Result<
    Option<String>,
    String,
>)
    ensures
        r == first_outcome(answers@),
{
    let mut i: usize = 0;
    assert(answers@.subrange(0, answers@.len() as int) =~= answers@);
    while i < answers.len()
        invariant
            i <= answers@.len(),
            first_outcome(answers@) == first_outcome(
                answers@.subrange(i as int, answers@.len() as int),
            ),
        decreases answers@.len() - i,
    {
        let ghost rest = answers@.subrange(i as int, answers@.len() as int);
        if ends_search(&answers[i]) {
            return copy_answer(&answers[i]);
        }
        assert(rest.drop_first() =~= answers@.subrange(i + 1, answers@.len() as int));
        i = i + 1;
    }
    Ok(None)
}

/// Asking providers one at a time and stopping where `ends_search` says gives
/// `first_outcome`: a provider after the first hit or error is never needed.
pub proof fn lemma_search_stops_early(answers: Seq<Result<Option<String>, String>>, i: int)
    requires
        0 <= i < answers.len(),
        !(answers[i] matches Ok(None)),
        forall|k: int| 0 <= k < i ==> (#[trigger] answers[k]) matches Ok(None),
    ensures
        first_outcome(answers) == answers[i],
        forall|later: Seq<Result<Option<String>, String>>|
            #[trigger] first_outcome(answers.subrange(0, i + 1) + later) == answers[i],
    decreases i,
{
    if i > 0 {
        let tail = answers.drop_first();
        assert forall|k: int| 0 <= k < i - 1 implies (#[trigger] tail[k]) matches Ok(None) by {
            assert(tail[k] == answers[k + 1]);
        }
        lemma_search_stops_early(tail, i - 1);
        assert forall|later: Seq<Result<Option<String>, String>>|
            #[trigger] first_outcome(answers.subrange(0, i + 1) + later) == answers[i] by {
            let full = answers.subrange(0, i + 1) + later;
            assert(full[0] == answers[0]);
            assert(full.drop_first() =~= tail.subrange(0, i) + later);
            assert(first_outcome(tail.subrange(0, i - 1 + 1) + later) == tail[i - 1]);
        }
    } else {
        assert forall|later: Seq<Result<Option<String>, String>>|
            #[trigger] first_outcome(answers.subrange(0, i + 1) + later) == answers[i] by {
            let full = answers.subrange(0, i + 1) + later;
            assert(full[0] == answers[0]);
        }
    }
}

} // verus!
