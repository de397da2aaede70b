use mr_dashboard::aggregate::aggregate;
use mr_dashboard::model::{ApprovalInfo, Approver, Id, MergeRequest, PushEvent, References, User};
use mr_dashboard::score::priority;
use mr_dashboard::sources::{filter_recent, pick_user, push_branch_queries, recent_only};

fn user(id: usize, username: &str) -> User {
    User { id: Id(id), name: username.to_string(), username: username.to_string() }
}

fn mr(id: usize) -> MergeRequest {
    MergeRequest {
        id: Id(id),
        iid: Id(id),
        project_id: Id(1),
        title: format!("change {}", id),
        milestone: None,
        draft: false,
        has_conflicts: false,
        references: References { full: format!("group/project!{}", id) },
        target_branch: "feature".to_string(),
        web_url: format!("https://example.invalid/mr/{}", id),
        updated_at: 1_700_000_000,
        author: user(900, "someone-else"),
        assignees: vec![user(901, "another-colleague")],
        reviewers: vec![],
    }
}

fn approvals(left: usize, approvers: Vec<User>) -> ApprovalInfo {
    ApprovalInfo {
        approvals_left: left,
        approved_by: approvers.into_iter().map(|u| Approver { user: u }).collect(),
    }
}

fn sorted_ids(mrs: &[MergeRequest]) -> Vec<usize> {
    let mut ids: Vec<usize> = mrs.iter().map(|m| m.id.0).collect();
    ids.sort();
    ids
}

#[test]
fn union_completeness() {
    let branch_derived = vec![mr(1), mr(2)];
    let reviewing = vec![mr(2), mr(3)];
    let assigned = vec![mr(4)];
    let authored = vec![];
    let merged = aggregate(branch_derived, reviewing, assigned, authored);
    assert_eq!(sorted_ids(&merged), vec![1, 2, 3, 4]);
}

#[test]
fn union_of_empties_is_empty() {
    let merged = aggregate(vec![], vec![], vec![], vec![]);
    assert!(merged.is_empty());
}

#[test]
fn dedup_keeps_each_id_once() {
    let merged = aggregate(vec![mr(7)], vec![mr(7)], vec![mr(7), mr(8)], vec![mr(8)]);
    assert_eq!(sorted_ids(&merged), vec![7, 8]);
    assert_eq!(merged.iter().filter(|m| m.id.0 == 7).count(), 1);
    assert_eq!(merged.iter().filter(|m| m.id.0 == 8).count(), 1);
}

#[test]
fn age_filter_boundaries() {
    let now: i64 = 2_000_000_000;
    let day: i64 = 86_400;
    let mut fifteen_days_old = mr(1);
    fifteen_days_old.updated_at = now - 15 * day;
    let mut fourteen_days_old = mr(2);
    fourteen_days_old.updated_at = now - 14 * day;
    let kept = filter_recent(vec![fifteen_days_old, fourteen_days_old], now);
    assert_eq!(sorted_ids(&kept), vec![2]);
}

#[test]
fn age_filter_keeps_future_updates() {
    let now: i64 = 2_000_000_000;
    let mut updated_later = mr(1);
    updated_later.updated_at = now + 60;
    let kept = filter_recent(vec![updated_later], now);
    assert_eq!(sorted_ids(&kept), vec![1]);
}

#[test]
fn recent_only_measures_against_the_clock() {
    let just_updated = chrono::Utc::now().timestamp();
    let mut fresh = mr(1);
    fresh.updated_at = just_updated;
    let mut ancient = mr(2);
    ancient.updated_at = just_updated - 400 * 86_400;
    let kept = recent_only(vec![fresh, ancient]);
    assert_eq!(sorted_ids(&kept), vec![1]);
}

#[test]
fn scoring_is_deterministic() {
    let viewer = user(10, "viewer");
    let subject = mr(1);
    let info = approvals(1, vec![]);
    let first = priority(&subject, &info, &viewer);
    let second = priority(&subject, &info, &viewer);
    assert_eq!(first, second);
}

#[test]
fn scoring_example_sums_to_five() {
    let viewer = user(10, "viewer");
    let mut subject = mr(1);
    subject.assignees = vec![user(10, "viewer")];
    subject.draft = false;
    subject.target_branch = "main".to_string();
    subject.author = user(10, "viewer");
    subject.has_conflicts = true;
    let info = approvals(0, vec![]);
    assert_eq!(priority(&subject, &info, &viewer), 5);
}

#[test]
fn bot_only_assignment_scores_minus_five() {
    let viewer = user(10, "viewer");
    let mut subject = mr(1);
    subject.assignees = vec![user(500, "nomadic-margebot")];
    let info = approvals(1, vec![]);
    assert_eq!(priority(&subject, &info, &viewer), -5);
}

#[test]
fn bot_only_penalty_combines_with_other_deltas() {
    let viewer = user(10, "viewer");
    let mut subject = mr(1);
    subject.assignees = vec![user(500, "nomadic-margebot")];
    subject.author = user(10, "viewer");
    let info = approvals(1, vec![]);
    assert_eq!(priority(&subject, &info, &viewer), -4);
}

#[test]
fn no_assignees_counts_as_bot_only() {
    let viewer = user(10, "viewer");
    let mut subject = mr(1);
    subject.assignees = vec![];
    let info = approvals(1, vec![]);
    assert_eq!(priority(&subject, &info, &viewer), -5);
}

#[test]
fn approved_by_viewer_lowers_the_score() {
    let viewer = user(10, "viewer");
    let subject = mr(1);
    let info = approvals(1, vec![user(10, "viewer")]);
    assert_eq!(priority(&subject, &info, &viewer), -1);
}

#[test]
fn reviewer_bonus_applies() {
    let viewer = user(10, "viewer");
    let mut subject = mr(1);
    subject.reviewers = vec![user(10, "viewer")];
    let info = approvals(1, vec![]);
    assert_eq!(priority(&subject, &info, &viewer), 1);
}

#[test]
fn draft_suppresses_the_assignee_bonus() {
    let viewer = user(10, "viewer");
    let mut subject = mr(1);
    subject.assignees = vec![user(10, "viewer")];
    subject.draft = true;
    let info = approvals(1, vec![]);
    assert_eq!(priority(&subject, &info, &viewer), 0);
}

#[test]
fn push_without_branch_contributes_nothing() {
    let pushes = vec![PushEvent { project_id: Id(3), branch: None }];
    let queries = push_branch_queries(pushes);
    assert!(queries.is_empty());
}

#[test]
fn push_with_branch_contributes_one_query() {
    let pushes = vec![
        PushEvent { project_id: Id(3), branch: None },
        PushEvent { project_id: Id(4), branch: Some("topic".to_string()) },
    ];
    let queries = push_branch_queries(pushes);
    assert_eq!(queries.len(), 1);
    assert_eq!(queries[0].project_id, Id(4));
    assert_eq!(queries[0].branch, "topic");
}

#[test]
fn pick_user_takes_the_first_match() {
    let found = pick_user(vec![user(1, "first"), user(2, "second")]);
    assert_eq!(found.unwrap().username, "first");
}

#[test]
fn pick_user_reports_no_match() {
    assert_eq!(pick_user(vec![]), None);
}
