//! Data model of the second watch tracker's API: seasons with per-user
//! watched state, and the user listing that scopes the queries.

use vstd::prelude::*;

verus! {

/// User-specific data for a season of TV.
#[derive(Clone, Copy, Debug, PartialEq, Eq, Structural)]
pub struct SeasonUserData {
    /// How many episodes of the season the user has not played yet.
    pub unplayed_item_count: usize,
}

/// A season of TV shows as the second watch tracker lists it.
#[derive(Debug)]
pub struct Season {
    /// Name of the season.
    pub name: String,
    /// Name of the series.
    pub series_name: String,
    /// ID of the season's library entry.
    pub id: String,
    /// The querying user's watched state for the season.
    pub user_data: SeasonUserData,
}

impl Clone for Season {
    fn clone(&self) -> (r: Self)
        ensures
            r == *self,
    {
        Season {
            name: self.name.clone(),
            series_name: self.series_name.clone(),
            id: self.id.clone(),
            user_data: self.user_data,
        }
    }
}

impl Season {
    /// True if the user has no unwatched episodes left in this season
    /// (i.e., is fully caught up).
    pub fn fully_watched(&self) -> (r: bool)
        ensures
            r == (self.user_data.unplayed_item_count == 0),
    {
        self.user_data.unplayed_item_count == 0
    }
}

/// One entry of the tracker's user listing.
#[derive(Debug)]
pub struct User {
    /// Login name of the user.
    pub name: String,
    /// Opaque ID the API addresses the user by.
    pub id: String,
}

impl Clone for User {
    fn clone(&self) -> (r: Self)
        ensures
            r == *self,
    {
        User { name: self.name.clone(), id: self.id.clone() }
    }
}

/// Looks a user ID up by name: the ID of the first user with that name, or
/// `None` when the listing has no such user.
pub fn find_user_id(users: &Vec<User>, name: &str) -> (r: Option<String>)
    ensures
        match r {
            Some(id) => exists|i: int|
                {
                    &&& 0 <= i < users@.len()
                    &&& users@[i].name@ == name@
                    &&& id@ == users@[i].id@
                    &&& forall|m: int| 0 <= m < i ==> users@[m].name@ != name@
                },
            None => forall|m: int| 0 <= m < users@.len() ==> users@[m].name@ != name@,
        },
{
    let wanted = name.to_owned();
    let mut k: usize = 0;
    while k < users.len()
        invariant
            k <= users@.len(),
            wanted@ == name@,
            forall|m: int| 0 <= m < k ==> users@[m].name@ != name@,
        decreases users@.len() - k,
    {
        if users[k].name == wanted {
            let id = users[k].id.clone();
            proof {
                let i = k as int;
                assert(0 <= i < users@.len() && users@[i].name@ == name@ && id@ == users@[i].id@
                    && (forall|m: int| 0 <= m < i ==> users@[m].name@ != name@));
            }
            return Some(id);
        }
        k += 1;
    }
    None
}


/// The watched-set keys harvested from the first `n` seasons of a
/// listing: one (series name, season name) pair per fully watched season,
/// in listing order.
pub open spec fn spec_watched_keys_prefix(seasons: Seq<Season>, n: nat) -> Seq<
    (Seq<char>, Seq<char>),
>
    decreases n,
{
    if n == 0 || n > seasons.len() {
        Seq::empty()
    } else {
        let pre = spec_watched_keys_prefix(seasons, (n - 1) as nat);
        if seasons[n - 1].user_data.unplayed_item_count == 0 {
            pre.push((seasons[n - 1].series_name@, seasons[n - 1].name@))
        } else {
            pre
        }
    }
}

/// Builds the watched set from a full season listing: every season the
/// user is fully caught up on contributes its (series name, season name)
/// key.
pub fn watched_seasons_of_listing(seasons: &Vec<Season>) -> (r: crate::watched::WatchedSeasons)
    ensures
        r.spec_keys() == spec_watched_keys_prefix(seasons@, seasons@.len()),
{
    let mut r = crate::watched::WatchedSeasons::new();
    let n = seasons.len();
    proof {
        assert(r.spec_keys() =~= spec_watched_keys_prefix(seasons@, 0));
    }
    for k in 0..n
        invariant
            n == seasons@.len(),
            r.spec_keys() == spec_watched_keys_prefix(seasons@, k as nat),
    {
        if seasons[k].fully_watched() {
            r.insert(seasons[k].series_name.clone(), seasons[k].name.clone());
        }
    }
    r
}


/// A key stands in the harvested watched set iff some fully caught-up
/// season of the listing carries it.
pub proof fn lemma_watched_keys_characterization(seasons: Seq<Season>, n: nat)
    requires
        n <= seasons.len(),
    ensures
        forall|t: Seq<char>, l: Seq<char>|
            #[trigger] spec_watched_keys_prefix(seasons, n).contains((t, l)) <==> exists|i: int|
                0 <= i < n && seasons[i].user_data.unplayed_item_count == 0 && seasons[
                    i
                ].series_name@ == t && seasons[i].name@ == l,
    decreases n,
{
    let cur = spec_watched_keys_prefix(seasons, n);
    if n == 0 {
        assert(forall|t: Seq<char>, l: Seq<char>| !cur.contains((t, l)));
    } else {
        lemma_watched_keys_characterization(seasons, (n - 1) as nat);
        let pre = spec_watched_keys_prefix(seasons, (n - 1) as nat);
        if seasons[n - 1].user_data.unplayed_item_count == 0 {
            assert(cur == pre.push((seasons[n - 1].series_name@, seasons[n - 1].name@)));
            assert forall|t: Seq<char>, l: Seq<char>| #[trigger] cur.contains((t, l)) implies exists|i: int|
                0 <= i < n && seasons[i].user_data.unplayed_item_count == 0 && seasons[
                    i
                ].series_name@ == t && seasons[i].name@ == l by {
                let idx = choose|idx: int| 0 <= idx < cur.len() && cur[idx] == (t, l);
                if idx < pre.len() {
                    assert(pre[idx] == (t, l));
                    assert(pre.contains((t, l)));
                } else {
                    assert(seasons[n - 1].series_name@ == t && seasons[n - 1].name@ == l);
                }
            }
            assert forall|t: Seq<char>, l: Seq<char>|
                (exists|i: int|
                    0 <= i < n && seasons[i].user_data.unplayed_item_count == 0 && seasons[
                        i
                    ].series_name@ == t && seasons[i].name@ == l) implies #[trigger] cur.contains(
                (t, l)) by {
                let i = choose|i: int|
                    0 <= i < n && seasons[i].user_data.unplayed_item_count == 0 && seasons[
                        i
                    ].series_name@ == t && seasons[i].name@ == l;
                if i == n - 1 {
                    assert(cur[cur.len() - 1] == (t, l));
                } else {
                    assert(pre.contains((t, l)));
                    let idx = choose|idx: int| 0 <= idx < pre.len() && pre[idx] == (t, l);
                    assert(cur[idx] == (t, l));
                }
            }
        } else {
            assert(cur == pre);
            assert forall|t: Seq<char>, l: Seq<char>|
                (exists|i: int|
                    0 <= i < n && seasons[i].user_data.unplayed_item_count == 0 && seasons[
                        i
                    ].series_name@ == t && seasons[i].name@ == l) implies #[trigger] cur.contains(
                (t, l)) by {
                let i = choose|i: int|
                    0 <= i < n && seasons[i].user_data.unplayed_item_count == 0 && seasons[
                        i
                    ].series_name@ == t && seasons[i].name@ == l;
                assert(i != n - 1);
                assert(pre.contains((t, l)));
            }
        }
    }
}

} // verus!
