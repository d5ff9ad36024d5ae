//! The set of fully-watched seasons, keyed the way the two trackers are
//! cross-referenced: by series title and a formatted "Season N" label.
//!
//! The key is a free-text title plus a label assumed identical between the
//! download tracker and the watch tracker; that comparison policy lives
//! here, in one place, so it can be swapped out later.

use vstd::prelude::*;

use crate::digits::dec_string;
use crate::digits::spec_dec;

verus! {

/// The label under which the watch tracker lists season `n`: "Season N".
pub open spec fn spec_season_label(n: nat) -> Seq<char> {
    "Season "@ + spec_dec(n)
}

/// Formats the season label used for watched-set lookups.
pub fn season_label(n: u32) -> (r: String)
    ensures
        r@ == spec_season_label(n as nat),
{
    let mut s = "Season ".to_owned();
    let num = dec_string(n as u128);
    s.append(num.as_str());
    s
}

/// The set of (series title, season label) pairs that the watch tracker
/// reports as fully watched. Used purely for membership testing.
#[derive(Debug)]
pub struct WatchedSeasons {
    keys: Vec<(String, String)>,
}

impl WatchedSeasons {
    /// The keys as (title, label) character sequences, in insertion order.
    pub closed spec fn spec_keys(&self) -> Seq<(Seq<char>, Seq<char>)> {
        self.keys@.map_values(|k: (String, String)| (k.0@, k.1@))
    }

    /// True when the pair (title, label) was inserted.
    pub open spec fn spec_contains(&self, title: Seq<char>, label: Seq<char>) -> bool {
        self.spec_keys().contains((title, label))
    }

    /// An empty watched set.
    pub fn new() -> (r: WatchedSeasons)
        ensures
            r.spec_keys() == Seq::<(Seq<char>, Seq<char>)>::empty(),
    {
        let r = WatchedSeasons { keys: Vec::new() };
        proof {
            assert(r.spec_keys() =~= Seq::<(Seq<char>, Seq<char>)>::empty());
        }
        r
    }

    /// Records one fully-watched season.
    pub fn insert(&mut self, title: String, label: String)
        ensures
            final(self).spec_keys() == old(self).spec_keys().push((title@, label@)),
    {
        self.keys.push((title, label));
        proof {
            assert(self.spec_keys() =~= old(self).spec_keys().push(
                (self.keys@.last().0@, self.keys@.last().1@),
            ));
        }
    }

    /// Membership test under the title-and-label comparison policy.
    pub fn contains(&self, title: &str, label: &str) -> (r: bool)
        ensures
            r == self.spec_contains(title@, label@),
    {
        let t = title.to_owned();
        let l = label.to_owned();
        let mut k: usize = 0;
        while k < self.keys.len()
            invariant
                k <= self.keys@.len(),
                t@ == title@,
                l@ == label@,
                forall|m: int|
                    0 <= m < k ==> !(self.keys@[m].0@ == title@ && self.keys@[m].1@ == label@),
            decreases self.keys@.len() - k,
        {
            if self.keys[k].0 == t && self.keys[k].1 == l {
                proof {
                    assert(self.spec_keys()[k as int] == (title@, label@));
                }
                return true;
            }
            k += 1;
        }
        proof {
            assert(forall|m: int|
                0 <= m < self.spec_keys().len() ==> self.spec_keys()[m] != (title@, label@));
        }
        false
    }
}

} // verus!
