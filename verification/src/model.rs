//! Record model: typed representations of users, merge requests, approval
//! state and push events, as one poll tick sees them.
//!
//! Entities are created fresh each tick from API responses and never mutated
//! in place; merge requests are deduplicated by their global `id`, never by
//! the project-local `iid`.

use vstd::prelude::*;

verus! {

/// Numeric identity of an entity.
#[derive(Clone, Copy, PartialEq, Eq, Structural, Hash, Debug)]
pub struct Id(pub usize);

/// An account on the hosting platform. Compared by `id` for every
/// "is this the viewer" check.
#[derive(PartialEq, Eq, Debug)]
pub struct User {
    pub id: Id,
    pub name: String,
    pub username: String,
}

/// Milestone a merge request is attached to, if any.
#[derive(PartialEq, Eq, Debug)]
pub struct Milestone {
    pub title: String,
}

/// Reference strings of a merge request, e.g. `group/project!42`.
#[derive(PartialEq, Eq, Debug)]
pub struct References {
    pub full: String,
}

/// A recent push by the viewer. A push with no branch reference contributes
/// nothing to the branch-derived source.
#[derive(PartialEq, Eq, Debug)]
pub struct PushEvent {
    pub project_id: Id,
    pub branch: Option<String>,
}

/// One merge request as returned by a source query. `updated_at` is the
/// last-update instant in whole seconds since the Unix epoch.
#[derive(PartialEq, Eq, Debug)]
pub struct MergeRequest {
    pub id: Id,
    pub iid: Id,
    pub project_id: Id,
    pub title: String,
    pub milestone: Option<Milestone>,
    pub draft: bool,
    pub has_conflicts: bool,
    pub references: References,
    pub target_branch: String,
    pub web_url: String,
    pub updated_at: i64,
    pub author: User,
    pub assignees: Vec<User>,
    pub reviewers: Vec<User>,
}

/// One user that has approved a merge request.
#[derive(PartialEq, Eq, Debug)]
pub struct Approver {
    pub user: User,
}

/// Approval state of one merge request, fetched in the same tick as the
/// merge request itself.
#[derive(PartialEq, Eq, Debug)]
pub struct ApprovalInfo {
    pub approvals_left: usize,
    pub approved_by: Vec<Approver>,
}

/// A merge request paired with its approval state: the unit that scoring
/// and rendering operate on. Scoring never observes a merge request without
/// its matching approval data.
#[derive(PartialEq, Eq, Debug)]
pub struct Entry {
    pub mr: MergeRequest,
    pub approvals: ApprovalInfo,
}

} // verus!
