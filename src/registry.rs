use vstd::prelude::*;
use vstd::set_lib::{lemma_int_range, lemma_len_subset, set_int_range};
use crate::metadata::Timestamp;
use crate::providers::{ProviderUri, Release};

verus! {

/// An artist credited on a registry recording or release.
#[derive(Clone, Debug)]
pub struct RegistryCredit {
    pub artist_id: String,
    pub name: String,
}

/// A release as the metadata registry describes it.
#[derive(Clone, Debug)]
pub struct RegistryRelease {
    pub id: String,
    pub title: String,
    pub artist_credit: Vec<RegistryCredit>,
    /// The release day, at midnight UTC.
    pub date: Option<Timestamp>,
    /// The track count of each medium.
    pub track_counts: Vec<u32>,
}

/// A recording as the metadata registry describes it.
#[derive(Clone, Debug)]
pub struct RegistryRecording {
    pub id: String,
    pub title: String,
    pub artist_credit: Vec<RegistryCredit>,
    pub genres: Vec<String>,
}

/// What distance's `damerau_levenshtein` gives for two texts.
pub uninterp spec fn damerau_of(a: Seq<char>, b: Seq<char>) -> usize;

/// Relies on distance's `damerau_levenshtein`: the edit distance of the two
/// texts, a function of their characters alone.
#[verifier::external_body]
fn edit_distance(a: &str, b: &str) -> (r: usize)
    ensures
        r == damerau_of(a@, b@),
{
    distance::damerau_levenshtein(a, b)
}

/// The name and identifier of the first credit, if any.
pub open spec fn first_credit(credits: Seq<RegistryCredit>) -> Option<(Seq<char>, Seq<char>)> {
    if credits.len() == 0 {
        None
    } else {
        Some((credits[0].artist_id@, credits[0].name@))
    }
}

pub open spec fn uri_pair_is(
    p: Option<(ProviderUri, String)>,
    expected: Option<(Seq<char>, Seq<char>)>,
) -> bool {
    match (p, expected) {
        (Some(x), Some(e)) => x.0@ == "mb"@ + ":"@ + e.0 && x.1@ == e.1,
        (None, None) => true,
        _ => false,
    }
}

fn credit_pair(credits: &Vec<RegistryCredit>) -> (r: Option<(ProviderUri, String)>)
    ensures
        uri_pair_is(r, first_credit(credits@)),
{
    proof {
        reveal_strlit("mb");
    }
    if credits.len() == 0 {
        None
    } else {
        let c = &credits[0];
        Some((ProviderUri::from_provider("mb", c.artist_id.as_str()), c.name.clone()))
    }
}

/// The release a matched recording and release describe: the song and album
/// under the registry's identifiers, the artists of their first credits, the
/// recording's first genre and the release day.
pub fn release_from_match(rec: &RegistryRecording, rel: &RegistryRelease) -> (r: Release)
    ensures
        r.song.0@ == "mb"@ + ":"@ + rec.id@,
        r.song.1@ == rec.title@,
        uri_pair_is(r.album, Some((rel.id@, rel.title@))),
        uri_pair_is(r.artist, first_credit(rec.artist_credit@)),
        uri_pair_is(r.album_artist, first_credit(rel.artist_credit@)),
        match r.genre {
            Some(g) => rec.genres@.len() > 0 && g@ == rec.genres@[0]@,
            None => rec.genres@.len() == 0,
        },
        r.release_date == rel.date,
{
    proof {
        reveal_strlit("mb");
    }
    let genre = if rec.genres.len() == 0 {
        None
    } else {
        Some(rec.genres[0].clone())
    };
    Release {
        album: Some((ProviderUri::from_provider("mb", rel.id.as_str()), rel.title.clone())),
        album_artist: credit_pair(&rel.artist_credit),
        artist: credit_pair(&rec.artist_credit),
        song: (ProviderUri::from_provider("mb", rec.id.as_str()), rec.title.clone()),
        genre,
        release_date: rel.date,
    }
}

/// The largest of the counts, 0 for none.
pub open spec fn max_count(s: Seq<u32>) -> u32
    decreases s.len(),
{
    if s.len() == 0 {
        0
    } else {
        let m = max_count(s.drop_last());
        if s.last() > m {
            s.last()
        } else {
            m
        }
    }
}

pub fn max_track_count(counts: &Vec<u32>) -> (r: u32)
    ensures
        r == max_count(counts@),
{
    let mut m: u32 = 0;
    let mut i: usize = 0;
    while i < counts.len()
        invariant
            i <= counts@.len(),
            m == max_count(counts@.subrange(0, i as int)),
        decreases counts@.len() - i,
    {
        assert(counts@.subrange(0, i + 1).drop_last() =~= counts@.subrange(0, i as int));
        if counts[i] > m {
            m = counts[i];
        }
        i = i + 1;
    }
    assert(counts@.subrange(0, counts@.len() as int) =~= counts@);
    m
}

/// The ranking key of a release against the album looked for: its largest
/// medium's track count, then its title's edit distance to the album.
pub open spec fn rank_key(rel: RegistryRelease, album: Seq<char>) -> (u32, usize) {
    (max_count(rel.track_counts@), damerau_of(album, rel.title@))
}

/// Whether index `a` comes before index `b`: a smaller key, or an equal key
/// and an earlier position.
pub open spec fn ranks_before(keys: Seq<(u32, usize)>, a: int, b: int) -> bool {
    keys[a].0 < keys[b].0 || (keys[a].0 == keys[b].0 && (keys[a].1 < keys[b].1 || (keys[a].1
        == keys[b].1 && a < b)))
}

pub open spec fn album_or_empty(album: Option<&str>) -> Seq<char> {
    match album {
        Some(a) => a@,
        None => Seq::<char>::empty(),
    }
}

/// Ranks releases by `rank_key` ascending, keeping the given order among
/// equal keys: the result lists every index once, in ranked order.
pub fn rank_releases(releases: &Vec<RegistryRelease>, album: Option<&str>) -> (r: Vec<usize>)
    ensures
        r@.len() == releases@.len(),
        forall|k: int| 0 <= k < r@.len() ==> (#[trigger] r@[k]) < releases@.len(),
        forall|i: int, j: int|
            0 <= i < j < r@.len() ==> ranks_before(
                Seq::new(
                    releases@.len(),
                    |x: int| rank_key(releases@[x], album_or_empty(album)),
                ),
                #[trigger] r@[i] as int,
                #[trigger] r@[j] as int,
            ),
{
    let target: &str = match album {
        Some(a) => a,
        None => "",
    };
    proof {
        reveal_strlit("");
    }
    let n = releases.len();
    let ghost keys = Seq::new(n as nat, |x: int| rank_key(releases@[x], album_or_empty(album)));
    let mut tracks: Vec<u32> = Vec::new();
    let mut dists: Vec<usize> = Vec::new();
    let mut i: usize = 0;
    while i < n
        invariant
            n == releases@.len(),
            i <= n,
            tracks@.len() == i,
            dists@.len() == i,
            target@ == album_or_empty(album),
            keys == Seq::new(n as nat, |x: int| rank_key(releases@[x], album_or_empty(album))),
            forall|x: int| 0 <= x < i ==> (tracks@[x], dists@[x]) == #[trigger] keys[x],
        decreases n - i,
    {
        tracks.push(max_track_count(&releases[i].track_counts));
        dists.push(edit_distance(target, releases[i].title.as_str()));
        i = i + 1;
    }
    let mut used: Vec<bool> = Vec::new();
    let mut j: usize = 0;
    while j < n
        invariant
            j <= n,
            used@.len() == j,
            forall|x: int| 0 <= x < j ==> !(#[trigger] used@[x]),
        decreases n - j,
    {
        used.push(false);
        j = j + 1;
    }
    let mut order: Vec<usize> = Vec::new();
    while order.len() < n
        invariant
            n == releases@.len(),
            tracks@.len() == n,
            dists@.len() == n,
            used@.len() == n,
            keys.len() == n,
            forall|x: int| 0 <= x < n ==> (tracks@[x], dists@[x]) == #[trigger] keys[x],
            keys == Seq::new(n as nat, |x: int| rank_key(releases@[x], album_or_empty(album))),
            order@.len() <= n,
            forall|k: int| 0 <= k < order@.len() ==> (#[trigger] order@[k]) < n,
            forall|x: int| 0 <= x < n ==> (#[trigger] used@[x] <==> order@.contains(x as usize)),
            forall|a: int, b: int|
                0 <= a < b < order@.len() ==> ranks_before(
                    keys,
                    #[trigger] order@[a] as int,
                    #[trigger] order@[b] as int,
                ),
            forall|k: int, x: int|
                0 <= k < order@.len() && 0 <= x < n && !#[trigger] used@[x] ==> ranks_before(
                    keys,
                    #[trigger] order@[k] as int,
                    x,
                ),
            forall|a: int, b: int|
                0 <= a < b < order@.len() ==> #[trigger] order@[a] != #[trigger] order@[b],
        decreases n - order@.len(),
    {
        // Some index is still unused: the used ones are the order's, all distinct.
        let mut best: usize = n;
        let mut x: usize = 0;
        while x < n
            invariant
                n == tracks@.len(),
                n == dists@.len(),
                n == used@.len(),
                keys.len() == n,
                forall|y: int| 0 <= y < n ==> (tracks@[y], dists@[y]) == #[trigger] keys[y],
                x <= n,
                best == n || (best < x && !used@[best as int]),
                best < n ==> forall|y: int|
                    0 <= y < x && !used@[y] && y != best ==> ranks_before(keys, best as int, y),
                best == n ==> forall|y: int| 0 <= y < x ==> used@[y],
            decreases n - x,
        {
            if !used[x] {
                if best == n {
                    best = x;
                } else {
                    let better = tracks[x] < tracks[best] || (tracks[x] == tracks[best]
                        && dists[x] < dists[best]);
                    assert(keys[x as int] == (tracks@[x as int], dists@[x as int]));
                    assert(keys[best as int] == (tracks@[best as int], dists@[best as int]));
                    if better {
                        best = x;
                    }
                }
            }
            x = x + 1;
        }
        if best == n {
            proof {
                lemma_all_used_means_full(order@, used@, n as int);
            }
            assert(false);
        }
        let ghost old_order = order@;
        order.push(best);
        used.set(best, true);
        assert forall|y: int| 0 <= y < n implies (#[trigger] used@[y] <==> order@.contains(
            y as usize,
        )) by {
            if y == best as int {
                assert(order@[order@.len() - 1] == best);
            } else {
                if order@.contains(y as usize) {
                    let k = choose|k: int| 0 <= k < order@.len() && order@[k] == y as usize;
                    assert(old_order[k] == y as usize);
                }
                if old_order.contains(y as usize) {
                    let k = choose|k: int| 0 <= k < old_order.len() && old_order[k] == y as usize;
                    assert(order@[k] == y as usize);
                }
            }
        }
        assert forall|a: int, b: int| 0 <= a < b < order@.len() implies #[trigger] order@[a]
            != #[trigger] order@[b] by {
            if b == order@.len() - 1 {
                assert(old_order.contains(order@[a]));
            }
        }
    }
    order
}

proof fn lemma_all_used_means_full(order: Seq<usize>, used: Seq<bool>, n: int)
    requires
        0 <= n <= usize::MAX,
        used.len() == n,
        order.len() < n,
        forall|x: int| 0 <= x < n ==> (#[trigger] used[x] <==> order.contains(x as usize)),
    ensures
        exists|y: int| 0 <= y < n && !used[y],
{
    broadcast use vstd::seq_lib::group_seq_properties;

    if forall|y: int| 0 <= y < n ==> used[y] {
        let m = order.map_values(|v: usize| v as int);
        lemma_int_range(0, n);
        assert forall|x: int| set_int_range(0, n).contains(x) implies m.to_set().contains(x) by {
            assert(used[x]);
            assert(order.contains(x as usize));
            let k = choose|k: int| 0 <= k < order.len() && order[k] == x as usize;
            assert(m[k] == order[k] as int);
            assert(m[k] == x);
            assert(m.contains(x));
        }
        m.lemma_cardinality_of_set();
        lemma_len_subset(set_int_range(0, n), m.to_set());
    }
}

} // verus!
