//! Source-query logic: the recency filter of the reviewing query, the
//! branch queries derived from recent push events, and the selection of
//! the viewer account from a username lookup.
//!
//! The fetches themselves are plain HTTP reads and live outside the
//! library; these functions hold every decision the sources make.

use vstd::prelude::*;
use crate::model::{Id, MergeRequest, PushEvent, User};

verus! {

/// Number of seconds in 15 days. A merge request whose last update lies
/// strictly less than this many seconds in the past has a whole-day age of
/// at most 14 days and is kept by the reviewing query.
pub const RECENT_WINDOW_SECONDS: i64 = 1296000;

/// The reviewing query keeps a merge request updated at `updated_at` when
/// its age at `now` (both in seconds since the Unix epoch) is at most 14
/// whole days: strictly less than 15 days of seconds. An update in the
/// future is trivially recent.
pub open spec fn spec_is_recent(updated_at: i64, now: i64) -> bool {
    now - updated_at < RECENT_WINDOW_SECONDS
}

/// The subsequence of `mrs`, in order, whose members are recent at `now`.
pub open spec fn spec_recent_of(mrs: Seq<MergeRequest>, now: i64) -> Seq<MergeRequest>
    decreases mrs.len(),
{
    if mrs.len() == 0 {
        Seq::empty()
    } else {
        let rest = spec_recent_of(mrs.drop_last(), now);
        if spec_is_recent(mrs.last().updated_at, now) {
            rest.push(mrs.last())
        } else {
            rest
        }
    }
}

/// The merge request updated at `updated_at` is within the 14-day window
/// as of `now`.
pub fn is_recent(updated_at: i64, now: i64) -> (r: bool)
    ensures
        r == spec_is_recent(updated_at, now),
{
    (now as i128) - (updated_at as i128) < RECENT_WINDOW_SECONDS as i128
}

/// Keeps exactly the merge requests updated within the last 14 whole days
/// as of `now`, in their original order.
pub fn filter_recent(mrs: Vec<MergeRequest>, now: i64) -> (r: Vec<MergeRequest>)
    ensures
        r@ == spec_recent_of(mrs@, now),
{
    let ghost orig = mrs@;
    let mut rest = mrs;
    let mut out: Vec<MergeRequest> = Vec::new();
    while rest.len() > 0
        invariant
            rest@.len() <= orig.len(),
            rest@ == orig.subrange(orig.len() - rest.len(), orig.len() as int),
            out@ == spec_recent_of(orig.subrange(0, orig.len() - rest.len()), now),
        decreases rest.len(),
    {
        let ghost done: int = orig.len() - rest.len();
        let mr = rest.remove(0);
        proof {
            assert(orig.subrange(done, orig.len() as int).remove(0) =~= orig.subrange(
                done + 1,
                orig.len() as int,
            ));
            assert(orig.subrange(0, done + 1).drop_last() =~= orig.subrange(0, done));
            assert(orig.subrange(0, done + 1).last() == orig[done]);
            assert(mr == orig[done]);
        }
        if is_recent(mr.updated_at, now) {
            out.push(mr);
        }
        proof {
            assert(out@ == spec_recent_of(orig.subrange(0, done + 1), now));
        }
    }
    proof {
        assert(orig.subrange(0, orig.len() as int) =~= orig);
    }
    out
}

/// Keeps exactly the merge requests updated within the last 14 whole days,
/// measured against the wall clock at the moment of the call. Every outcome
/// is the recency filter applied at some instant; which instant the clock
/// yields is outside the library.
pub fn recent_only(mrs: Vec<MergeRequest>) -> (r: Vec<MergeRequest>)
    ensures
        exists|now: i64| r@ == spec_recent_of(mrs@, now),
{
    let ghost orig = mrs@;
    let now = now_unix_seconds();
    let r = filter_recent(mrs, now);
    proof {
        assert(r@ == spec_recent_of(orig, now));
    }
    r
}

/// Relies on chrono::Utc::now and chrono::DateTime::timestamp: the current
/// wall-clock instant in whole seconds since the Unix epoch. Nothing is
/// promised of the value; callers state what holds of every outcome.
#[verifier::external_body]
fn now_unix_seconds() -> i64 {
    chrono::Utc::now().timestamp()
}

/// One branch lookup derived from a push event: open merge requests whose
/// source branch matches `branch`, scoped to the pushed-to project.
#[derive(PartialEq, Eq, Debug)]
pub struct BranchQuery {
    pub project_id: Id,
    pub branch: String,
}

/// The branch queries that a sequence of push events gives rise to, in
/// order: one per push that carries a branch reference; a push without one
/// contributes nothing.
pub open spec fn spec_branch_queries(pushes: Seq<PushEvent>) -> Seq<BranchQuery>
    decreases pushes.len(),
{
    if pushes.len() == 0 {
        Seq::empty()
    } else {
        let rest = spec_branch_queries(pushes.drop_last());
        match pushes.last().branch {
            Some(b) => rest.push(BranchQuery { project_id: pushes.last().project_id, branch: b }),
            None => rest,
        }
    }
}

/// Turns recent push events into the branch lookups to perform: one per
/// push with a branch reference, in order; a push without one is skipped.
pub fn push_branch_queries(pushes: Vec<PushEvent>) -> (r: Vec<BranchQuery>)
    ensures
        r@ == spec_branch_queries(pushes@),
{
    let ghost orig = pushes@;
    let mut rest = pushes;
    let mut out: Vec<BranchQuery> = Vec::new();
    while rest.len() > 0
        invariant
            rest@.len() <= orig.len(),
            rest@ == orig.subrange(orig.len() - rest.len(), orig.len() as int),
            out@ == spec_branch_queries(orig.subrange(0, orig.len() - rest.len())),
        decreases rest.len(),
    {
        let ghost done: int = orig.len() - rest.len();
        let p = rest.remove(0);
        proof {
            assert(orig.subrange(done, orig.len() as int).remove(0) =~= orig.subrange(
                done + 1,
                orig.len() as int,
            ));
            assert(orig.subrange(0, done + 1).drop_last() =~= orig.subrange(0, done));
            assert(orig.subrange(0, done + 1).last() == orig[done]);
            assert(p == orig[done]);
        }
        match p.branch {
            Some(b) => {
                out.push(BranchQuery { project_id: p.project_id, branch: b });
            },
            None => {},
        }
        proof {
            assert(out@ == spec_branch_queries(orig.subrange(0, done + 1)));
        }
    }
    proof {
        assert(orig.subrange(0, orig.len() as int) =~= orig);
    }
    out
}

/// Push events without a branch reference give rise to no branch query at
/// all: a push history of only branchless pushes yields an empty lookup
/// list.
pub proof fn lemma_branchless_pushes_contribute_nothing(pushes: Seq<PushEvent>)
    requires
        forall|k: int| 0 <= k < pushes.len() ==> pushes[k].branch is None,
    ensures
        spec_branch_queries(pushes).len() == 0,
    decreases pushes.len(),
{
    if pushes.len() > 0 {
        lemma_branchless_pushes_contribute_nothing(pushes.drop_last());
    }
}

/// Selects the viewer account from a username lookup: the first account
/// returned, or nothing when the username matched no account.
pub fn pick_user(users: Vec<User>) -> (r: Option<User>)
    ensures
        match r {
            Some(u) => users@.len() > 0 && u == users@[0],
            None => users@.len() == 0,
        },
{
    let mut users = users;
    if users.len() > 0 {
        Some(users.remove(0))
    } else {
        None
    }
}

} // verus!
