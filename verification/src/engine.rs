//! The retention decision engine: a pure function from the frozen
//! inventories of the two trackers, the exemption tag, the retention
//! duration and the decision instant to the set of seasons eligible for
//! deletion.
//!
//! A season is eligible iff its series is not tagged exempt, the season is
//! fully watched, it is not airing (no next air date), its previous airing
//! lies more than the retention duration before the decision instant, and
//! it occupies space on disk. Series without an eligible season do not
//! appear in the result; input order is preserved.

use vstd::prelude::*;

use crate::sonarr::Season;
use crate::sonarr::Series;
use crate::sonarr::TagId;
use crate::sonarr::tags_contain;
use crate::watched::WatchedSeasons;
use crate::watched::season_label;
use crate::watched::spec_season_label;

verus! {

/// True when the exemption tag is configured and the series carries it.
pub open spec fn series_exempt(series: Series, exemption_tag: Option<TagId>) -> bool {
    match exemption_tag {
        Some(t) => series.tags@.contains(t),
        None => false,
    }
}

/// True when the season last aired more than `retain_secs` before
/// `now_ts`. A season that never aired is not old enough.
pub open spec fn season_old_enough(season: Season, retain_secs: u64, now_ts: i64) -> bool {
    match season.statistics.previous_airing {
        Some(prev) => prev + retain_secs < now_ts,
        None => false,
    }
}

/// The retention policy, in full: a season may be deleted iff its series
/// is not exempt, the season is in the watched set under its label, it is
/// not airing, it is old enough, and deleting it reclaims space.
pub open spec fn season_eligible(
    series: Series,
    season: Season,
    watched: WatchedSeasons,
    exemption_tag: Option<TagId>,
    retain_secs: u64,
    now_ts: i64,
) -> bool {
    &&& !series_exempt(series, exemption_tag)
    &&& watched.spec_contains(series.title@, spec_season_label(season.season_number as nat))
    &&& season.statistics.next_airing is None
    &&& season_old_enough(season, retain_secs, now_ts)
    &&& season.statistics.size_on_disk > 0
}

/// The indices of the eligible seasons among the first `n` seasons of
/// `series`, in increasing order.
pub open spec fn spec_eligible_prefix(
    series: Series,
    watched: WatchedSeasons,
    exemption_tag: Option<TagId>,
    retain_secs: u64,
    now_ts: i64,
    n: nat,
) -> Seq<usize>
    decreases n,
{
    if n == 0 || n > series.seasons@.len() {
        Seq::empty()
    } else {
        let pre = spec_eligible_prefix(
            series,
            watched,
            exemption_tag,
            retain_secs,
            now_ts,
            (n - 1) as nat,
        );
        if season_eligible(
            series,
            series.seasons@[n - 1],
            watched,
            exemption_tag,
            retain_secs,
            now_ts,
        ) {
            pre.push((n - 1) as usize)
        } else {
            pre
        }
    }
}

/// The indices of all eligible seasons of `series`, in increasing order.
pub open spec fn spec_eligible_seasons(
    series: Series,
    watched: WatchedSeasons,
    exemption_tag: Option<TagId>,
    retain_secs: u64,
    now_ts: i64,
) -> Seq<usize> {
    spec_eligible_prefix(
        series,
        watched,
        exemption_tag,
        retain_secs,
        now_ts,
        series.seasons@.len(),
    )
}

/// The decision over the first `n` series: one entry per series with at
/// least one eligible season, carrying the series' index and its eligible
/// season indices, in input order.
pub open spec fn spec_decide_prefix(
    serieses: Seq<Series>,
    watched: WatchedSeasons,
    exemption_tag: Option<TagId>,
    retain_secs: u64,
    now_ts: i64,
    n: nat,
) -> Seq<(usize, Seq<usize>)>
    decreases n,
{
    if n == 0 || n > serieses.len() {
        Seq::empty()
    } else {
        let pre = spec_decide_prefix(
            serieses,
            watched,
            exemption_tag,
            retain_secs,
            now_ts,
            (n - 1) as nat,
        );
        let elig = spec_eligible_seasons(
            serieses[n - 1],
            watched,
            exemption_tag,
            retain_secs,
            now_ts,
        );
        if elig.len() > 0 {
            pre.push(((n - 1) as usize, elig))
        } else {
            pre
        }
    }
}

/// The full retention decision over the input inventory.
pub open spec fn spec_decide(
    serieses: Seq<Series>,
    watched: WatchedSeasons,
    exemption_tag: Option<TagId>,
    retain_secs: u64,
    now_ts: i64,
) -> Seq<(usize, Seq<usize>)> {
    spec_decide_prefix(serieses, watched, exemption_tag, retain_secs, now_ts, serieses.len())
}

/// Tests one season against the retention policy.
pub fn is_eligible(
    series: &Series,
    season: &Season,
    watched: &WatchedSeasons,
    exemption_tag: Option<TagId>,
    retain_secs: u64,
    now_ts: i64,
) -> (r: bool)
    ensures
        r == season_eligible(*series, *season, *watched, exemption_tag, retain_secs, now_ts),
{
    let exempt = match exemption_tag {
        Some(t) => tags_contain(&series.tags, t),
        None => false,
    };
    if exempt {
        return false;
    }
    let label = season_label(season.season_number);
    if !watched.contains(series.title.as_str(), label.as_str()) {
        return false;
    }
    if season.statistics.next_airing.is_some() {
        return false;
    }
    let old_enough = match season.statistics.previous_airing {
        Some(prev) => (prev as i128) + (retain_secs as i128) < (now_ts as i128),
        None => false,
    };
    if !old_enough {
        return false;
    }
    season.statistics.size_on_disk > 0
}

/// Collects the indices of the eligible seasons of one series.
pub fn eligible_seasons(
    series: &Series,
    watched: &WatchedSeasons,
    exemption_tag: Option<TagId>,
    retain_secs: u64,
    now_ts: i64,
) -> (r: Vec<usize>)
    ensures
        r@ == spec_eligible_seasons(*series, *watched, exemption_tag, retain_secs, now_ts),
{
    let mut out: Vec<usize> = Vec::new();
    let n = series.seasons.len();
    proof {
        assert(out@ =~= spec_eligible_prefix(
            *series,
            *watched,
            exemption_tag,
            retain_secs,
            now_ts,
            0,
        ));
    }
    for k in 0..n
        invariant
            n == series.seasons@.len(),
            out@ == spec_eligible_prefix(
                *series,
                *watched,
                exemption_tag,
                retain_secs,
                now_ts,
                k as nat,
            ),
    {
        if is_eligible(series, &series.seasons[k], watched, exemption_tag, retain_secs, now_ts) {
            out.push(k);
        }
    }
    out
}

/// Computes the retention decision: for each series with at least one
/// eligible season, its index in `serieses` paired with the indices of its
/// eligible seasons, both in input order.
pub fn decide(
    serieses: &Vec<Series>,
    watched: &WatchedSeasons,
    exemption_tag: Option<TagId>,
    retain_secs: u64,
    now_ts: i64,
) -> (r: Vec<(usize, Vec<usize>)>)
    ensures
        r.deep_view() == spec_decide(serieses@, *watched, exemption_tag, retain_secs, now_ts),
{
    let mut out: Vec<(usize, Vec<usize>)> = Vec::new();
    let n = serieses.len();
    proof {
        assert(out.deep_view() =~= spec_decide_prefix(
            serieses@,
            *watched,
            exemption_tag,
            retain_secs,
            now_ts,
            0,
        ));
    }
    for k in 0..n
        invariant
            n == serieses@.len(),
            out.deep_view() == spec_decide_prefix(
                serieses@,
                *watched,
                exemption_tag,
                retain_secs,
                now_ts,
                k as nat,
            ),
    {
        let elig = eligible_seasons(&serieses[k], watched, exemption_tag, retain_secs, now_ts);
        if elig.len() > 0 {
            let ghost before = out.deep_view();
            out.push((k, elig));
            proof {
                assert(elig.deep_view() =~= elig@);
                assert(out.deep_view() =~= before.push((k, elig@)));
            }
        }
    }
    out
}


/// Where the decision `d` records season `j` of the series at index `i`.
pub open spec fn decision_contains(d: Seq<(usize, Seq<usize>)>, i: usize, j: usize) -> bool {
    exists|k: int| 0 <= k < d.len() && d[k].0 == i && d[k].1.contains(j)
}

proof fn lemma_eligible_prefix_characterization(
    series: Series,
    watched: WatchedSeasons,
    exemption_tag: Option<TagId>,
    retain_secs: u64,
    now_ts: i64,
    n: nat,
)
    requires
        n <= series.seasons@.len(),
        series.seasons@.len() <= usize::MAX,
    ensures
        forall|j: usize|
            #[trigger] spec_eligible_prefix(
                series,
                watched,
                exemption_tag,
                retain_secs,
                now_ts,
                n,
            ).contains(j) <==> ((j as nat) < n && season_eligible(
                series,
                series.seasons@[j as int],
                watched,
                exemption_tag,
                retain_secs,
                now_ts,
            )),
    decreases n,
{
    let cur = spec_eligible_prefix(series, watched, exemption_tag, retain_secs, now_ts, n);
    if n == 0 {
        assert(forall|j: usize| !cur.contains(j));
    } else {
        lemma_eligible_prefix_characterization(
            series,
            watched,
            exemption_tag,
            retain_secs,
            now_ts,
            (n - 1) as nat,
        );
        let pre = spec_eligible_prefix(
            series,
            watched,
            exemption_tag,
            retain_secs,
            now_ts,
            (n - 1) as nat,
        );
        let last = (n - 1) as usize;
        if season_eligible(
            series,
            series.seasons@[n - 1],
            watched,
            exemption_tag,
            retain_secs,
            now_ts,
        ) {
            assert(cur == pre.push(last));
            assert forall|j: usize| cur.contains(j) implies ((j as nat) < n && season_eligible(
                series,
                series.seasons@[j as int],
                watched,
                exemption_tag,
                retain_secs,
                now_ts,
            )) by {
                let idx = choose|idx: int| 0 <= idx < cur.len() && cur[idx] == j;
                if idx < pre.len() {
                    assert(pre[idx] == j);
                    assert(pre.contains(j));
                } else {
                    assert(j == last);
                }
            }
            assert forall|j: usize| ((j as nat) < n && season_eligible(
                series,
                series.seasons@[j as int],
                watched,
                exemption_tag,
                retain_secs,
                now_ts,
            )) implies cur.contains(j) by {
                if j == last {
                    assert(cur[cur.len() - 1] == j);
                } else {
                    assert(pre.contains(j));
                    let idx = choose|idx: int| 0 <= idx < pre.len() && pre[idx] == j;
                    assert(cur[idx] == j);
                }
            }
        } else {
            assert(cur == pre);
            assert forall|j: usize| ((j as nat) < n && season_eligible(
                series,
                series.seasons@[j as int],
                watched,
                exemption_tag,
                retain_secs,
                now_ts,
            )) implies cur.contains(j) by {
                assert(j != last);
                assert(pre.contains(j));
            }
        }
    }
}

spec fn decide_prefix_entries_ok(
    d: Seq<(usize, Seq<usize>)>,
    serieses: Seq<Series>,
    watched: WatchedSeasons,
    exemption_tag: Option<TagId>,
    retain_secs: u64,
    now_ts: i64,
    n: nat,
) -> bool {
    forall|k: int|
        0 <= k < d.len() ==> {
            &&& ((#[trigger] d[k]).0 as nat) < n
            &&& d[k].1 == spec_eligible_seasons(
                serieses[d[k].0 as int],
                watched,
                exemption_tag,
                retain_secs,
                now_ts,
            )
            &&& d[k].1.len() > 0
        }
}

spec fn decide_prefix_complete(
    d: Seq<(usize, Seq<usize>)>,
    serieses: Seq<Series>,
    watched: WatchedSeasons,
    exemption_tag: Option<TagId>,
    retain_secs: u64,
    now_ts: i64,
    n: nat,
) -> bool {
    forall|i: int|
        (0 <= i < n && spec_eligible_seasons(
            #[trigger] serieses[i],
            watched,
            exemption_tag,
            retain_secs,
            now_ts,
        ).len() > 0) ==> exists|k: int| 0 <= k < d.len() && (#[trigger] d[k]).0 == i
}

proof fn lemma_decide_prefix_props(
    serieses: Seq<Series>,
    watched: WatchedSeasons,
    exemption_tag: Option<TagId>,
    retain_secs: u64,
    now_ts: i64,
    n: nat,
)
    requires
        n <= serieses.len(),
        serieses.len() <= usize::MAX,
    ensures
        decide_prefix_entries_ok(
            spec_decide_prefix(serieses, watched, exemption_tag, retain_secs, now_ts, n),
            serieses,
            watched,
            exemption_tag,
            retain_secs,
            now_ts,
            n,
        ),
        decide_prefix_complete(
            spec_decide_prefix(serieses, watched, exemption_tag, retain_secs, now_ts, n),
            serieses,
            watched,
            exemption_tag,
            retain_secs,
            now_ts,
            n,
        ),
    decreases n,
{
    if n == 0 {
    } else {
        lemma_decide_prefix_props(
            serieses,
            watched,
            exemption_tag,
            retain_secs,
            now_ts,
            (n - 1) as nat,
        );
        let pre = spec_decide_prefix(
            serieses,
            watched,
            exemption_tag,
            retain_secs,
            now_ts,
            (n - 1) as nat,
        );
        let cur = spec_decide_prefix(serieses, watched, exemption_tag, retain_secs, now_ts, n);
        let elig = spec_eligible_seasons(
            serieses[n - 1],
            watched,
            exemption_tag,
            retain_secs,
            now_ts,
        );
        if elig.len() > 0 {
            assert(cur == pre.push(((n - 1) as usize, elig)));
            assert forall|i: int|
                (0 <= i < n && spec_eligible_seasons(
                    #[trigger] serieses[i],
                    watched,
                    exemption_tag,
                    retain_secs,
                    now_ts,
                ).len() > 0) implies exists|k: int|
                0 <= k < cur.len() && (#[trigger] cur[k]).0 == i by {
                if i == n - 1 {
                    assert(cur[cur.len() - 1].0 == i);
                } else {
                    let k = choose|k: int| 0 <= k < pre.len() && (#[trigger] pre[k]).0 == i;
                    assert(cur[k].0 == i);
                }
            }
        } else {
            assert(cur == pre);
        }
    }
}

/// The retention policy, characterized at the decision level: season `j`
/// of series `i` stands in the decision iff it is eligible — not
/// tagged-exempt, watched, not airing, old enough, and non-empty on disk.
pub proof fn lemma_decision_characterizes_eligibility(
    serieses: Seq<Series>,
    watched: WatchedSeasons,
    exemption_tag: Option<TagId>,
    retain_secs: u64,
    now_ts: i64,
    i: usize,
    j: usize,
)
    requires
        serieses.len() <= usize::MAX,
        (i as nat) < serieses.len(),
        serieses[i as int].seasons@.len() <= usize::MAX,
        (j as nat) < serieses[i as int].seasons@.len(),
    ensures
        decision_contains(
            spec_decide(serieses, watched, exemption_tag, retain_secs, now_ts),
            i,
            j,
        ) <==> season_eligible(
            serieses[i as int],
            serieses[i as int].seasons@[j as int],
            watched,
            exemption_tag,
            retain_secs,
            now_ts,
        ),
{
    let d = spec_decide(serieses, watched, exemption_tag, retain_secs, now_ts);
    lemma_decide_prefix_props(
        serieses,
        watched,
        exemption_tag,
        retain_secs,
        now_ts,
        serieses.len(),
    );
    lemma_eligible_prefix_characterization(
        serieses[i as int],
        watched,
        exemption_tag,
        retain_secs,
        now_ts,
        serieses[i as int].seasons@.len(),
    );
    let elig = spec_eligible_seasons(
        serieses[i as int],
        watched,
        exemption_tag,
        retain_secs,
        now_ts,
    );
    if decision_contains(d, i, j) {
        let k = choose|k: int| 0 <= k < d.len() && d[k].0 == i && d[k].1.contains(j);
        assert(d[k].1 == elig);
    }
    if season_eligible(
        serieses[i as int],
        serieses[i as int].seasons@[j as int],
        watched,
        exemption_tag,
        retain_secs,
        now_ts,
    ) {
        assert(elig.contains(j));
        let k = choose|k: int| 0 <= k < d.len() && (#[trigger] d[k]).0 == i;
        assert(d[k].1.contains(j));
        assert(decision_contains(d, i, j));
    }
}

/// A season with a next-airing instant is never in the decision,
/// regardless of its other fields.
pub proof fn lemma_airing_never_deleted(
    serieses: Seq<Series>,
    watched: WatchedSeasons,
    exemption_tag: Option<TagId>,
    retain_secs: u64,
    now_ts: i64,
    i: usize,
    j: usize,
)
    requires
        serieses.len() <= usize::MAX,
        (i as nat) < serieses.len(),
        serieses[i as int].seasons@.len() <= usize::MAX,
        (j as nat) < serieses[i as int].seasons@.len(),
        serieses[i as int].seasons@[j as int].statistics.next_airing is Some,
    ensures
        !decision_contains(
            spec_decide(serieses, watched, exemption_tag, retain_secs, now_ts),
            i,
            j,
        ),
{
    lemma_decision_characterizes_eligibility(
        serieses,
        watched,
        exemption_tag,
        retain_secs,
        now_ts,
        i,
        j,
    );
}

/// A season occupying no disk space is never in the decision, even if
/// otherwise eligible.
pub proof fn lemma_empty_season_never_deleted(
    serieses: Seq<Series>,
    watched: WatchedSeasons,
    exemption_tag: Option<TagId>,
    retain_secs: u64,
    now_ts: i64,
    i: usize,
    j: usize,
)
    requires
        serieses.len() <= usize::MAX,
        (i as nat) < serieses.len(),
        serieses[i as int].seasons@.len() <= usize::MAX,
        (j as nat) < serieses[i as int].seasons@.len(),
        serieses[i as int].seasons@[j as int].statistics.size_on_disk == 0,
    ensures
        !decision_contains(
            spec_decide(serieses, watched, exemption_tag, retain_secs, now_ts),
            i,
            j,
        ),
{
    lemma_decision_characterizes_eligibility(
        serieses,
        watched,
        exemption_tag,
        retain_secs,
        now_ts,
        i,
        j,
    );
}

/// No season of a series carrying the exemption tag is ever in the
/// decision, even if every one of its seasons would otherwise qualify.
pub proof fn lemma_exempt_series_never_deleted(
    serieses: Seq<Series>,
    watched: WatchedSeasons,
    exemption_tag: Option<TagId>,
    retain_secs: u64,
    now_ts: i64,
    i: usize,
    j: usize,
)
    requires
        serieses.len() <= usize::MAX,
        (i as nat) < serieses.len(),
        serieses[i as int].seasons@.len() <= usize::MAX,
        (j as nat) < serieses[i as int].seasons@.len(),
        exemption_tag is Some,
        serieses[i as int].tags@.contains(exemption_tag->0),
    ensures
        !decision_contains(
            spec_decide(serieses, watched, exemption_tag, retain_secs, now_ts),
            i,
            j,
        ),
{
    lemma_decision_characterizes_eligibility(
        serieses,
        watched,
        exemption_tag,
        retain_secs,
        now_ts,
        i,
        j,
    );
}

/// The decision is a pure function of the frozen inputs: two runs over the
/// same snapshot yield the identical eligible set.
pub proof fn lemma_decision_idempotent(
    r1: Seq<(usize, Seq<usize>)>,
    r2: Seq<(usize, Seq<usize>)>,
    serieses: Seq<Series>,
    watched: WatchedSeasons,
    exemption_tag: Option<TagId>,
    retain_secs: u64,
    now_ts: i64,
)
    requires
        r1 == spec_decide(serieses, watched, exemption_tag, retain_secs, now_ts),
        r2 == spec_decide(serieses, watched, exemption_tag, retain_secs, now_ts),
    ensures
        r1 == r2,
{
}

} // verus!
