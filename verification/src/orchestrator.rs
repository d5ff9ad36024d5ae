//! Per-step decisions of the deletion protocol.
//!
//! The caller walks the retention decision series by series: it fetches
//! that series' episode files once, partitions them by season with
//! [`season_file_indices`], reports, and — when not in dry-run mode —
//! unmonitors the season and deletes its files. The wire calls stay with
//! the caller; this module decides which files belong to a season, how the
//! monitored flag changes, and how each delete response is answered:
//! success and not-found finish the file, server errors are retried with
//! exponential backoff up to an explicit bound, anything else is fatal.

use vstd::prelude::*;

use crate::sonarr::EpisodeFile;
use crate::sonarr::Season;

verus! {

/// The indices of the files among the first `n` of `files` that belong to
/// season `season_number`, in increasing order.
pub open spec fn spec_file_prefix(files: Seq<EpisodeFile>, season_number: u32, n: nat) -> Seq<
    usize,
>
    decreases n,
{
    if n == 0 || n > files.len() {
        Seq::empty()
    } else {
        let pre = spec_file_prefix(files, season_number, (n - 1) as nat);
        if files[n - 1].season_number == season_number {
            pre.push((n - 1) as usize)
        } else {
            pre
        }
    }
}

/// The indices of all files of `files` that belong to season
/// `season_number`, in increasing order.
pub open spec fn spec_season_file_indices(files: Seq<EpisodeFile>, season_number: u32) -> Seq<
    usize,
> {
    spec_file_prefix(files, season_number, files.len())
}

/// Partitions a series' episode files: returns the indices of the files
/// that belong to the given season, in input order.
pub fn season_file_indices(files: &Vec<EpisodeFile>, season_number: u32) -> (r: Vec<usize>)
    ensures
        r@ == spec_season_file_indices(files@, season_number),
{
    let mut out: Vec<usize> = Vec::new();
    let n = files.len();
    proof {
        assert(out@ =~= spec_file_prefix(files@, season_number, 0));
    }
    for k in 0..n
        invariant
            n == files@.len(),
            out@ == spec_file_prefix(files@, season_number, k as nat),
    {
        if files[k].season_number == season_number {
            out.push(k);
        }
    }
    out
}

/// A file index stands in the partition iff that file belongs to the season.
pub proof fn lemma_file_partition_characterization(
    files: Seq<EpisodeFile>,
    season_number: u32,
    n: nat,
)
    requires
        n <= files.len(),
        files.len() <= usize::MAX,
    ensures
        forall|j: usize|
            #[trigger] spec_file_prefix(files, season_number, n).contains(j) <==> ((j as nat) < n
                && files[j as int].season_number == season_number),
    decreases n,
{
    let cur = spec_file_prefix(files, season_number, n);
    if n == 0 {
        assert(forall|j: usize| !cur.contains(j));
    } else {
        lemma_file_partition_characterization(files, season_number, (n - 1) as nat);
        let pre = spec_file_prefix(files, season_number, (n - 1) as nat);
        let last = (n - 1) as usize;
        if files[n - 1].season_number == season_number {
            assert(cur == pre.push(last));
            assert forall|j: usize| cur.contains(j) implies ((j as nat) < n && files[
                j as int
            ].season_number == season_number) by {
                let idx = choose|idx: int| 0 <= idx < cur.len() && cur[idx] == j;
                if idx < pre.len() {
                    assert(pre[idx] == j);
                    assert(pre.contains(j));
                } else {
                    assert(j == last);
                }
            }
            assert forall|j: usize| ((j as nat) < n && files[j as int].season_number
                == season_number) implies cur.contains(j) by {
                if j == last {
                    assert(cur[cur.len() - 1] == j);
                } else {
                    assert(pre.contains(j));
                    let idx = choose|idx: int| 0 <= idx < pre.len() && pre[idx] == j;
                    assert(cur[idx] == j);
                }
            }
        } else {
            assert(cur == pre);
            assert forall|j: usize| ((j as nat) < n && files[j as int].season_number
                == season_number) implies cur.contains(j) by {
                assert(j != last);
                assert(pre.contains(j));
            }
        }
    }
}

/// Clears the monitored flag of the first season with the given number, so
/// the download tracker stops re-fetching it. Only that flag changes; no
/// other season and no other field is touched. Returns the index of the
/// season it updated, or `None` when the series has no such season.
pub fn set_season_unmonitored(seasons: &mut Vec<Season>, season_number: u32) -> (r: Option<usize>)
    ensures
        match r {
            Some(i) => {
                &&& (i as nat) < old(seasons)@.len()
                &&& old(seasons)@[i as int].season_number == season_number
                &&& forall|m: int|
                    0 <= m < i as int ==> old(seasons)@[m].season_number != season_number
                &&& final(seasons)@ == old(seasons)@.update(
                    i as int,
                    Season { monitored: false, ..old(seasons)@[i as int] },
                )
            },
            None => {
                &&& final(seasons)@ == old(seasons)@
                &&& forall|m: int|
                    0 <= m < old(seasons)@.len() ==> old(seasons)@[m].season_number
                        != season_number
            },
        },
{
    let n = seasons.len();
    let mut k: usize = 0;
    while k < n
        invariant
            n == seasons@.len(),
            k <= n,
            seasons@ == old(seasons)@,
            forall|m: int| 0 <= m < k ==> seasons@[m].season_number != season_number,
        decreases n - k,
    {
        if seasons[k].season_number == season_number {
            let found = seasons[k];
            seasons[k] = Season { monitored: false, ..found };
            return Some(k);
        }
        k += 1;
    }
    None
}

/// How one delete response from the server is read.
#[derive(Clone, Copy, Debug, PartialEq, Eq, Structural)]
pub enum DeleteResponse {
    /// The server carried the deletion out (or reported no error).
    Success,
    /// The server no longer has the file: the target is already absent.
    NotFound,
    /// A server-side failure that may pass on a retry.
    ServerError,
    /// Any other client-side error: fatal for this file.
    ClientError,
}

/// Reads an HTTP status code as a delete response. Statuses that the
/// server does not report as an error count as success.
pub open spec fn spec_classify_status(status: u16) -> DeleteResponse {
    if status == 404 {
        DeleteResponse::NotFound
    } else if 500 <= status < 600 {
        DeleteResponse::ServerError
    } else if 400 <= status < 500 {
        DeleteResponse::ClientError
    } else {
        DeleteResponse::Success
    }
}

/// Classifies the HTTP status of one delete attempt.
pub fn classify_status(status: u16) -> (r: DeleteResponse)
    ensures
        r == spec_classify_status(status),
{
    if status == 404 {
        DeleteResponse::NotFound
    } else if 500 <= status && status < 600 {
        DeleteResponse::ServerError
    } else if 400 <= status && status < 500 {
        DeleteResponse::ClientError
    } else {
        DeleteResponse::Success
    }
}

/// The explicit retry bound and starting backoff for file deletion.
#[derive(Clone, Copy, Debug, PartialEq, Eq, Structural)]
pub struct RetryPolicy {
    /// Delay before the first retry, in milliseconds.
    pub initial_delay_ms: u64,
    /// How many retries are allowed after the first attempt.
    pub max_retries: u32,
}

/// The state of one file's delete-with-retry loop.
#[derive(Clone, Copy, Debug, PartialEq, Eq, Structural)]
pub struct RetryState {
    /// Retries already spent on this file.
    pub retries_made: u32,
    /// Delay before the next retry, in milliseconds.
    pub next_delay_ms: u64,
}

/// What the caller must do next with one file.
#[derive(Clone, Copy, Debug, PartialEq, Eq, Structural)]
pub enum DeleteAction {
    /// The file is gone (deleted now, or already absent): report success.
    Done,
    /// Wait this many milliseconds, then send the delete again.
    Wait(u64),
    /// Give up on this file and surface the failure.
    Fail,
}

/// The backoff doubles after every retry, saturating instead of
/// overflowing.
pub open spec fn spec_next_delay(delay_ms: u64) -> u64 {
    if delay_ms > u64::MAX / 2 {
        u64::MAX
    } else {
        (delay_ms * 2) as u64
    }
}

/// The delete protocol, one step: how the retry state and the caller's
/// next action follow from one classified server response.
pub open spec fn spec_delete_step(
    policy: RetryPolicy,
    state: RetryState,
    resp: DeleteResponse,
) -> (RetryState, DeleteAction) {
    match resp {
        DeleteResponse::Success => (state, DeleteAction::Done),
        DeleteResponse::NotFound => (state, DeleteAction::Done),
        DeleteResponse::ClientError => (state, DeleteAction::Fail),
        DeleteResponse::ServerError => {
            if state.retries_made < policy.max_retries {
                (
                    RetryState {
                        retries_made: (state.retries_made + 1) as u32,
                        next_delay_ms: spec_next_delay(state.next_delay_ms),
                    },
                    DeleteAction::Wait(state.next_delay_ms),
                )
            } else {
                (state, DeleteAction::Fail)
            }
        },
    }
}

impl RetryPolicy {
    /// The state a file's delete loop starts in.
    pub fn start(&self) -> (r: RetryState)
        ensures
            r == (RetryState { retries_made: 0, next_delay_ms: self.initial_delay_ms }),
    {
        RetryState { retries_made: 0, next_delay_ms: self.initial_delay_ms }
    }
}

/// Advances one file's delete loop on the HTTP status of the last attempt:
/// returns the new retry state and the action the caller owes.
pub fn delete_step(policy: &RetryPolicy, state: RetryState, status: u16) -> (r: (
    RetryState,
    DeleteAction,
))
    ensures
        r == spec_delete_step(*policy, state, spec_classify_status(status)),
{
    match classify_status(status) {
        DeleteResponse::Success => (state, DeleteAction::Done),
        DeleteResponse::NotFound => (state, DeleteAction::Done),
        DeleteResponse::ClientError => (state, DeleteAction::Fail),
        DeleteResponse::ServerError => {
            if state.retries_made < policy.max_retries {
                let next_delay: u64 = if state.next_delay_ms > u64::MAX / 2 {
                    u64::MAX
                } else {
                    state.next_delay_ms * 2
                };
                (
                    RetryState { retries_made: state.retries_made + 1, next_delay_ms: next_delay },
                    DeleteAction::Wait(state.next_delay_ms),
                )
            } else {
                (state, DeleteAction::Fail)
            }
        },
    }
}

/// Deleting a file the server no longer has (not-found) reports success to
/// the caller, whatever the retry state: it is never an error.
pub proof fn lemma_not_found_reports_success(policy: RetryPolicy, state: RetryState)
    ensures
        spec_delete_step(policy, state, spec_classify_status(404)).1 == DeleteAction::Done,
        spec_delete_step(policy, state, spec_classify_status(404)).0 == state,
{
}

} // verus!
