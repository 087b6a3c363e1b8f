//! Stage 3 of the pipeline: where each resource goes on disk, which
//! resources a job fetches at all, and how the per-fetch retry loop
//! behaves.
//!
//! The caller performs the existence checks, the network fetches and the
//! file writes; it reports their outcomes as plain values. Everything the
//! stage decides from those values stands here, verified: a resource's
//! destination path, the skip of a file already on disk, and the
//! stop-on-first-success shape of the retry loop.

use vstd::prelude::*;

use crate::text::{join_path, join_path_spec, last_segment, last_segment_spec};

verus! {

/// The destination of one resource: the file named by the URL's last
/// path segment, under the run's directory.
pub open spec fn resource_path_spec(dir: Seq<char>, url: Seq<char>) -> Seq<char> {
    join_path_spec(dir, last_segment_spec(url))
}

/// Derives where a resource URL's payload is stored.
pub fn resource_path(dir: &str, url: &str) -> (r: String)
    ensures
        r@ == resource_path_spec(dir@, url@),
{
    let name = last_segment(url);
    join_path(dir, name.as_str())
}

/// What one job does with one resource: the destination path, and
/// whether a fetch is needed at all - it is exactly when no file is at
/// that path yet.
pub struct ResourceAction {
    pub path: String,
    pub fetch: bool,
}

/// What a correct stage-3 plan says: one action per resource URL, the
/// path derived from the URL, a fetch planned exactly for the resources
/// whose files are not on disk.
pub open spec fn plan_matches(
    acts: Seq<ResourceAction>,
    dir: Seq<char>,
    urls: Seq<Seq<char>>,
    on_disk: Seq<bool>,
) -> bool {
    &&& acts.len() == urls.len()
    &&& acts.len() == on_disk.len()
    &&& forall|i: int|
        0 <= i < acts.len() ==> (#[trigger] acts[i]).path@ == resource_path_spec(dir, urls[i])
    &&& forall|i: int| 0 <= i < acts.len() ==> (#[trigger] acts[i]).fetch == !on_disk[i]
}

/// Plans one job's stage 3: for each resource URL, given whether its
/// file is already on disk, the destination path and the decision to
/// fetch or to skip. The existence check precedes every fetch: a file
/// already present is never fetched again.
pub fn plan_fetches(dir: &str, urls: &Vec<String>, on_disk: &Vec<bool>) -> (r: Vec<ResourceAction>)
    requires
        urls@.len() == on_disk@.len(),
    ensures
        plan_matches(r@, dir@, urls@.map_values(|u: String| u@), on_disk@),
{
    let ghost url_views = urls@.map_values(|u: String| u@);
    let mut r: Vec<ResourceAction> = Vec::new();
    let n = urls.len();
    let mut i: usize = 0;
    while i < n
        invariant
            0 <= i <= n,
            n == urls@.len(),
            n == on_disk@.len(),
            url_views == urls@.map_values(|u: String| u@),
            r@.len() == i,
            forall|k: int|
                0 <= k < i ==> (#[trigger] r@[k]).path@ == resource_path_spec(dir@, url_views[k]),
            forall|k: int| 0 <= k < i ==> (#[trigger] r@[k]).fetch == !on_disk@[k],
        decreases n - i,
    {
        let path = resource_path(dir, urls[i].as_str());
        let fetch = !on_disk[i];
        r.push(ResourceAction { path, fetch });
        i = i + 1;
    }
    r
}

/// Re-running a job whose files are all on disk is idempotent: a plan
/// for the same directory and URLs maps every resource to the same path
/// as any earlier run, and plans not a single fetch.
pub proof fn lemma_rerun_fetches_nothing(
    acts: Seq<ResourceAction>,
    dir: Seq<char>,
    urls: Seq<Seq<char>>,
    on_disk: Seq<bool>,
)
    requires
        plan_matches(acts, dir, urls, on_disk),
        forall|i: int| 0 <= i < on_disk.len() ==> on_disk[i],
    ensures
        forall|i: int| 0 <= i < acts.len() ==> !(#[trigger] acts[i]).fetch,
        forall|i: int|
            0 <= i < acts.len() ==> (#[trigger] acts[i]).path@ == resource_path_spec(
                dir,
                urls[i],
            ),
{
}

/// How many attempts the stage-3 retry loop makes before it writes the
/// file, given which fetch attempts would succeed: the position of the
/// first success, counted from one; `None` when every attempt in
/// `outcomes` fails, so the loop is still retrying past them.
pub open spec fn attempts_until_success(outcomes: Seq<bool>) -> Option<nat>
    decreases outcomes.len(),
{
    if outcomes.len() == 0 {
        None
    } else if outcomes[0] {
        Some(1nat)
    } else {
        match attempts_until_success(outcomes.drop_first()) {
            Some(k) => Some((k + 1) as nat),
            None => None,
        }
    }
}

/// The retry loop of one fetch, driven by recorded outcomes: attempts
/// run in order, every failure is retried at once, and the first success
/// writes the file and stops the loop. Returns how many attempts ran;
/// `None` when all of `outcomes` fail, as the live loop would still be
/// retrying.
pub fn fetch_attempts(outcomes: &Vec<bool>) -> (r: Option<usize>)
    ensures
        match r {
            Some(k) => attempts_until_success(outcomes@) == Some(k as nat),
            None => attempts_until_success(outcomes@) is None,
        },
{
    let n = outcomes.len();
    let mut i: usize = 0;
    proof {
        assert(outcomes@.subrange(0, n as int) =~= outcomes@);
    }
    while i < n
        invariant
            0 <= i <= n,
            n == outcomes@.len(),
            attempts_until_success(outcomes@) == match attempts_until_success(
                outcomes@.subrange(i as int, n as int),
            ) {
                Some(k) => Some((k + i) as nat),
                None => None::<nat>,
            },
        decreases n - i,
    {
        let ghost rest = outcomes@.subrange(i as int, n as int);
        if outcomes[i] {
            proof {
                assert(rest[0]);
                assert(attempts_until_success(rest) == Some(1nat));
            }
            return Some(i + 1);
        }
        i = i + 1;
        proof {
            assert(!rest[0]);
            assert(rest.drop_first() =~= outcomes@.subrange(i as int, n as int));
        }
    }
    proof {
        assert(outcomes@.subrange(i as int, n as int) =~= Seq::<bool>::empty());
    }
    None
}

/// Retry convergence: when the first `k` attempts fail and attempt
/// `k + 1` succeeds, the retry loop writes the file and stops after
/// exactly `k + 1` attempts.
pub proof fn lemma_retry_converges(outcomes: Seq<bool>, k: int)
    requires
        0 <= k < outcomes.len(),
        outcomes[k],
        forall|j: int| 0 <= j < k ==> !outcomes[j],
    ensures
        attempts_until_success(outcomes) == Some((k + 1) as nat),
    decreases k,
{
    if k == 0 {
    } else {
        lemma_retry_converges(outcomes.drop_first(), k - 1);
    }
}

} // verus!
