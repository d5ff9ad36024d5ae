//! Data model of the first watch tracker's library listing: media kinds,
//! library directories, shows, and seasons with watched-episode counts.

use vstd::prelude::*;

verus! {

/// The kind of media in a library entry of the watch tracker.
#[derive(Clone, Copy, Debug, PartialEq, Eq, Structural)]
pub enum MediaKind {
    /// A movie.
    Movie,
    /// A TV show.
    TV,
    /// A TV show's season.
    TVSeason,
    /// A single TV show's season's episode.
    TVEpisode,
    /// The pseudo-season entry "All Episodes".
    AllEpisodes,
    /// A music library entry.
    Music,
}

/// The kind a season listing falls back to when the source reports none:
/// the "All Episodes" pseudo-season.
pub fn all_episodes_pseudoseason() -> (r: MediaKind)
    ensures
        r == MediaKind::AllEpisodes,
{
    MediaKind::AllEpisodes
}

/// A top-level media library entry.
#[derive(Debug)]
pub struct Directory {
    /// ID of the entry.
    pub id: u32,
    /// Kind of media that this library section contains.
    pub kind: MediaKind,
    /// Name assigned in the UI.
    pub title: String,
}

impl Clone for Directory {
    fn clone(&self) -> (r: Self)
        ensures
            r == *self,
    {
        Directory { id: self.id, kind: self.kind, title: self.title.clone() }
    }
}

/// A TV show media library entry.
#[derive(Debug)]
pub struct Show {
    /// ID of this library subsection.
    pub id: String,
    /// Kind of media (should be `TV`).
    pub kind: MediaKind,
    /// Name of the show.
    pub title: String,
}

/// A season of a TV show as the watch tracker lists it.
#[derive(Debug)]
pub struct Season {
    /// ID of the library entry.
    pub id: String,
    /// Name of the show that this season is for.
    pub show_name: String,
    /// Title of the season.
    pub title: String,
    /// Kind of the season: either `TVSeason` or `AllEpisodes`.
    pub kind: MediaKind,
    /// Number of episodes in the season that the tracker indexes.
    pub episodes: u32,
    /// Number of episodes that have been marked "viewed".
    pub viewed_episodes: u32,
}

impl Clone for Season {
    fn clone(&self) -> (r: Self)
        ensures
            r == *self,
    {
        Season {
            id: self.id.clone(),
            show_name: self.show_name.clone(),
            title: self.title.clone(),
            kind: self.kind,
            episodes: self.episodes,
            viewed_episodes: self.viewed_episodes,
        }
    }
}

impl Season {
    /// True if all episodes in the season (that the tracker knows about)
    /// have been watched.
    pub fn fully_watched(&self) -> (r: bool)
        ensures
            r == (self.viewed_episodes == self.episodes),
    {
        self.viewed_episodes == self.episodes
    }
}

/// The library directories that hold TV, among the first `n`, in order.
pub open spec fn spec_tv_prefix(dirs: Seq<Directory>, n: nat) -> Seq<Directory>
    decreases n,
{
    if n == 0 || n > dirs.len() {
        Seq::empty()
    } else {
        let pre = spec_tv_prefix(dirs, (n - 1) as nat);
        if dirs[n - 1].kind == MediaKind::TV {
            pre.push(dirs[n - 1])
        } else {
            pre
        }
    }
}

/// The library directories that hold TV, in listing order.
pub open spec fn spec_tv_libraries(dirs: Seq<Directory>) -> Seq<Directory> {
    spec_tv_prefix(dirs, dirs.len())
}

/// Keeps only the library sections that hold TV shows.
pub fn tv_libraries(dirs: &Vec<Directory>) -> (r: Vec<Directory>)
    ensures
        r@ == spec_tv_libraries(dirs@),
{
    let mut out: Vec<Directory> = Vec::new();
    let n = dirs.len();
    proof {
        assert(out@ =~= spec_tv_prefix(dirs@, 0));
    }
    for k in 0..n
        invariant
            n == dirs@.len(),
            out@ == spec_tv_prefix(dirs@, k as nat),
    {
        if dirs[k].kind == MediaKind::TV {
            out.push(dirs[k].clone());
        }
    }
    out
}

/// The seasons that are real seasons (not the "All Episodes"
/// pseudo-season), among the first `n`, in order.
pub open spec fn spec_real_prefix(seasons: Seq<Season>, n: nat) -> Seq<Season>
    decreases n,
{
    if n == 0 || n > seasons.len() {
        Seq::empty()
    } else {
        let pre = spec_real_prefix(seasons, (n - 1) as nat);
        if seasons[n - 1].kind != MediaKind::AllEpisodes {
            pre.push(seasons[n - 1])
        } else {
            pre
        }
    }
}

/// The seasons that are real seasons, in listing order.
pub open spec fn spec_real_seasons(seasons: Seq<Season>) -> Seq<Season> {
    spec_real_prefix(seasons, seasons.len())
}

/// Drops the "All Episodes" pseudo-season entries from a season listing.
pub fn real_seasons(seasons: Vec<Season>) -> (r: Vec<Season>)
    ensures
        r@ == spec_real_seasons(seasons@),
{
    let mut out: Vec<Season> = Vec::new();
    let n = seasons.len();
    proof {
        assert(out@ =~= spec_real_prefix(seasons@, 0));
    }
    for k in 0..n
        invariant
            n == seasons@.len(),
            out@ == spec_real_prefix(seasons@, k as nat),
    {
        if !(seasons[k].kind == MediaKind::AllEpisodes) {
            out.push(seasons[k].clone());
        }
    }
    out
}


/// The watched-set keys harvested from the first `n` seasons of a
/// listing: one (show name, season title) pair per fully watched season,
/// in listing order.
pub open spec fn spec_watched_keys_prefix(seasons: Seq<Season>, n: nat) -> Seq<
    (Seq<char>, Seq<char>),
>
    decreases n,
{
    if n == 0 || n > seasons.len() {
        Seq::empty()
    } else {
        let pre = spec_watched_keys_prefix(seasons, (n - 1) as nat);
        if seasons[n - 1].viewed_episodes == seasons[n - 1].episodes {
            pre.push((seasons[n - 1].show_name@, seasons[n - 1].title@))
        } else {
            pre
        }
    }
}

/// Builds the watched set from a full season listing: every fully watched
/// season contributes its (show name, season title) key.
pub fn watched_seasons_of_listing(seasons: &Vec<Season>) -> (r: crate::watched::WatchedSeasons)
    ensures
        r.spec_keys() == spec_watched_keys_prefix(seasons@, seasons@.len()),
{
    let mut r = crate::watched::WatchedSeasons::new();
    let n = seasons.len();
    proof {
        assert(r.spec_keys() =~= spec_watched_keys_prefix(seasons@, 0));
    }
    for k in 0..n
        invariant
            n == seasons@.len(),
            r.spec_keys() == spec_watched_keys_prefix(seasons@, k as nat),
    {
        if seasons[k].fully_watched() {
            r.insert(seasons[k].show_name.clone(), seasons[k].title.clone());
        }
    }
    r
}


/// A key stands in the harvested watched set iff some fully watched
/// season of the listing carries it.
pub proof fn lemma_watched_keys_characterization(seasons: Seq<Season>, n: nat)
    requires
        n <= seasons.len(),
    ensures
        forall|t: Seq<char>, l: Seq<char>|
            #[trigger] spec_watched_keys_prefix(seasons, n).contains((t, l)) <==> exists|i: int|
                0 <= i < n && seasons[i].viewed_episodes == seasons[i].episodes && seasons[
                    i
                ].show_name@ == t && seasons[i].title@ == l,
    decreases n,
{
    let cur = spec_watched_keys_prefix(seasons, n);
    if n == 0 {
        assert(forall|t: Seq<char>, l: Seq<char>| !cur.contains((t, l)));
    } else {
        lemma_watched_keys_characterization(seasons, (n - 1) as nat);
        let pre = spec_watched_keys_prefix(seasons, (n - 1) as nat);
        if seasons[n - 1].viewed_episodes == seasons[n - 1].episodes {
            assert(cur == pre.push((seasons[n - 1].show_name@, seasons[n - 1].title@)));
            assert forall|t: Seq<char>, l: Seq<char>| #[trigger] cur.contains((t, l)) implies exists|i: int|
                0 <= i < n && seasons[i].viewed_episodes == seasons[i].episodes && seasons[
                    i
                ].show_name@ == t && seasons[i].title@ == l by {
                let idx = choose|idx: int| 0 <= idx < cur.len() && cur[idx] == (t, l);
                if idx < pre.len() {
                    assert(pre[idx] == (t, l));
                    assert(pre.contains((t, l)));
                } else {
                    assert(seasons[n - 1].show_name@ == t && seasons[n - 1].title@ == l);
                }
            }
            assert forall|t: Seq<char>, l: Seq<char>|
                (exists|i: int|
                    0 <= i < n && seasons[i].viewed_episodes == seasons[i].episodes && seasons[
                        i
                    ].show_name@ == t && seasons[i].title@ == l) implies #[trigger] cur.contains(
                (t, l)) by {
                let i = choose|i: int|
                    0 <= i < n && seasons[i].viewed_episodes == seasons[i].episodes && seasons[
                        i
                    ].show_name@ == t && seasons[i].title@ == l;
                if i == n - 1 {
                    assert(cur[cur.len() - 1] == (t, l));
                } else {
                    assert(pre.contains((t, l)));
                    let idx = choose|idx: int| 0 <= idx < pre.len() && pre[idx] == (t, l);
                    assert(cur[idx] == (t, l));
                }
            }
        } else {
            assert(cur == pre);
            assert forall|t: Seq<char>, l: Seq<char>|
                (exists|i: int|
                    0 <= i < n && seasons[i].viewed_episodes == seasons[i].episodes && seasons[
                        i
                    ].show_name@ == t && seasons[i].title@ == l) implies #[trigger] cur.contains(
                (t, l)) by {
                let i = choose|i: int|
                    0 <= i < n && seasons[i].viewed_episodes == seasons[i].episodes && seasons[
                        i
                    ].show_name@ == t && seasons[i].title@ == l;
                assert(i != n - 1);
                assert(pre.contains((t, l)));
            }
        }
    }
}

} // verus!
