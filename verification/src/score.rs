//! Priority scorer: a pure function from (merge request, approval state,
//! viewer) to an integer score. Higher score means more actionable; the
//! score drives both sort order and highlighting.
//!
//! The score is the sum of eight independent rule deltas, every rule
//! evaluated unconditionally.

use vstd::prelude::*;
use vstd::string::StringExecFns;
use crate::model::{ApprovalInfo, MergeRequest, User};

verus! {

/// Username of the automated merge bot.
pub open spec fn spec_bot_name() -> Seq<char> {
    "nomadic-margebot"@
}

/// The viewer is one of the merge request's assignees.
pub open spec fn spec_is_assignee(mr: &MergeRequest, user: &User) -> bool {
    exists|k: int| 0 <= k < mr.assignees@.len() && mr.assignees@[k].id == user.id
}

/// The viewer is named in the merge request's reviewing list.
pub open spec fn spec_is_reviewer(mr: &MergeRequest, user: &User) -> bool {
    exists|k: int| 0 <= k < mr.reviewers@.len() && mr.reviewers@[k].id == user.id
}

/// The viewer already appears in the approved-by list.
pub open spec fn spec_has_approved(info: &ApprovalInfo, user: &User) -> bool {
    exists|k: int| 0 <= k < info.approved_by@.len() && info.approved_by@[k].user.id == user.id
}

/// Every assignee's username equals the bot account; vacuously true of a
/// merge request with no assignees at all.
pub open spec fn spec_all_assignees_bot(mr: &MergeRequest) -> bool {
    forall|k: int| 0 <= k < mr.assignees@.len() ==> mr.assignees@[k].username@ == spec_bot_name()
}

/// The merge request targets a main-line branch.
pub open spec fn spec_targets_main(mr: &MergeRequest) -> bool {
    mr.target_branch@ == "main"@ || mr.target_branch@ == "master"@
}

/// +5 when the viewer is an assignee and the merge request is not a draft.
pub open spec fn delta_assignee(mr: &MergeRequest, user: &User) -> int {
    if spec_is_assignee(mr, user) && !mr.draft {
        5
    } else {
        0
    }
}

/// +2 when the target branch is "main" or "master".
pub open spec fn delta_main_branch(mr: &MergeRequest) -> int {
    if spec_targets_main(mr) {
        2
    } else {
        0
    }
}

/// +1 when the viewer is the author.
pub open spec fn delta_author(mr: &MergeRequest, user: &User) -> int {
    if mr.author.id == user.id {
        1
    } else {
        0
    }
}

/// +1 when the viewer is named in the reviewing list.
pub open spec fn delta_reviewer(mr: &MergeRequest, user: &User) -> int {
    if spec_is_reviewer(mr, user) {
        1
    } else {
        0
    }
}

/// -1 when the merge request has merge conflicts.
pub open spec fn delta_conflicts(mr: &MergeRequest) -> int {
    if mr.has_conflicts {
        -1
    } else {
        0
    }
}

/// -1 when the viewer already approved.
pub open spec fn delta_approved(info: &ApprovalInfo, user: &User) -> int {
    if spec_has_approved(info, user) {
        -1
    } else {
        0
    }
}

/// -2 when no further approvals are required.
pub open spec fn delta_none_required(info: &ApprovalInfo) -> int {
    if info.approvals_left < 1 {
        -2
    } else {
        0
    }
}

/// -5 when the merge request is assigned only to the automated merge bot.
pub open spec fn delta_bot_only(mr: &MergeRequest) -> int {
    if spec_all_assignees_bot(mr) {
        -5
    } else {
        0
    }
}

/// The priority score: the sum of all eight rule deltas, base 0.
pub open spec fn spec_priority(mr: &MergeRequest, info: &ApprovalInfo, user: &User) -> int {
    delta_assignee(mr, user) + delta_main_branch(mr) + delta_author(mr, user)
        + delta_reviewer(mr, user) + delta_conflicts(mr) + delta_approved(info, user)
        + delta_none_required(info) + delta_bot_only(mr)
}

/// The bot-only penalty applies regardless of every other delta: whenever
/// all assignees are the bot account, the score is exactly 5 less than the
/// sum of the remaining seven rules, whatever they contribute.
pub proof fn lemma_bot_only_penalty(mr: &MergeRequest, info: &ApprovalInfo, user: &User)
    requires
        spec_all_assignees_bot(mr),
    ensures
        spec_priority(mr, info, user) == delta_assignee(mr, user) + delta_main_branch(mr)
            + delta_author(mr, user) + delta_reviewer(mr, user) + delta_conflicts(mr)
            + delta_approved(info, user) + delta_none_required(info) - 5,
{
}

/// The score is a pure function of its inputs: equal inputs always yield
/// the equal score, in this call and in any later one.
pub proof fn lemma_priority_deterministic(
    mr1: &MergeRequest,
    info1: &ApprovalInfo,
    user1: &User,
    mr2: &MergeRequest,
    info2: &ApprovalInfo,
    user2: &User,
)
    requires
        mr1 == mr2,
        info1 == info2,
        user1 == user2,
    ensures
        spec_priority(mr1, info1, user1) == spec_priority(mr2, info2, user2),
{
}

/// The viewer is one of the merge request's assignees.
pub fn is_assignee(mr: &MergeRequest, user: &User) -> (r: bool)
    ensures
        r == spec_is_assignee(mr, user),
{
    let mut k: usize = 0;
    while k < mr.assignees.len()
        invariant
            k <= mr.assignees.len(),
            forall|j: int| 0 <= j < k ==> mr.assignees@[j].id != user.id,
        decreases mr.assignees.len() - k,
    {
        if mr.assignees[k].id == user.id {
            return true;
        }
        k += 1;
    }
    false
}

/// The viewer is named in the merge request's reviewing list.
pub fn is_reviewer(mr: &MergeRequest, user: &User) -> (r: bool)
    ensures
        r == spec_is_reviewer(mr, user),
{
    let mut k: usize = 0;
    while k < mr.reviewers.len()
        invariant
            k <= mr.reviewers.len(),
            forall|j: int| 0 <= j < k ==> mr.reviewers@[j].id != user.id,
        decreases mr.reviewers.len() - k,
    {
        if mr.reviewers[k].id == user.id {
            return true;
        }
        k += 1;
    }
    false
}

/// The viewer already appears in the approved-by list.
pub fn has_approved(info: &ApprovalInfo, user: &User) -> (r: bool)
    ensures
        r == spec_has_approved(info, user),
{
    let mut k: usize = 0;
    while k < info.approved_by.len()
        invariant
            k <= info.approved_by.len(),
            forall|j: int| 0 <= j < k ==> info.approved_by@[j].user.id != user.id,
        decreases info.approved_by.len() - k,
    {
        if info.approved_by[k].user.id == user.id {
            return true;
        }
        k += 1;
    }
    false
}

/// Every assignee's username equals the bot account.
pub fn all_assignees_bot(mr: &MergeRequest) -> (r: bool)
    ensures
        r == spec_all_assignees_bot(mr),
{
    let bot: String = String::from_str("nomadic-margebot");
    let mut k: usize = 0;
    while k < mr.assignees.len()
        invariant
            k <= mr.assignees.len(),
            bot@ == spec_bot_name(),
            forall|j: int| 0 <= j < k ==> mr.assignees@[j].username@ == spec_bot_name(),
        decreases mr.assignees.len() - k,
    {
        if !(mr.assignees[k].username == bot) {
            return false;
        }
        k += 1;
    }
    true
}

/// The merge request targets a main-line branch: "main" or "master".
pub fn targets_main_branch(mr: &MergeRequest) -> (r: bool)
    ensures
        r == spec_targets_main(mr),
{
    let main: String = String::from_str("main");
    let master: String = String::from_str("master");
    mr.target_branch == main || mr.target_branch == master
}

/// The priority score of one merge request for the given viewer: the sum
/// of all eight rule deltas.
pub fn priority(mr: &MergeRequest, info: &ApprovalInfo, user: &User) -> (r: isize)
    ensures
        r == spec_priority(mr, info, user),
{
    let mut prio: isize = 0;

    if is_assignee(mr, user) && !mr.draft {
        prio += 5;
    }

    if targets_main_branch(mr) {
        prio += 2;
    }

    if mr.author.id == user.id {
        prio += 1;
    }

    if is_reviewer(mr, user) {
        prio += 1;
    }

    if mr.has_conflicts {
        prio -= 1;
    }

    if has_approved(info, user) {
        prio -= 1;
    }

    if info.approvals_left < 1 {
        prio -= 2;
    }

    if all_assignees_bot(mr) {
        prio -= 5;
    }

    prio
}

} // verus!
