use mr_dashboard::model::{ApprovalInfo, Approver, Entry, Id, MergeRequest, References, User};
use mr_dashboard::render::{
    cell, make_link, ref_width, render_rows, sort_by_priority, title_width, Highlight,
};

fn user(id: usize, username: &str) -> User {
    User { id: Id(id), name: username.to_string(), username: username.to_string() }
}

fn mr(id: usize) -> MergeRequest {
    MergeRequest {
        id: Id(id),
        iid: Id(id),
        project_id: Id(1),
        title: format!("change {}", id),
        milestone: None,
        draft: false,
        has_conflicts: false,
        references: References { full: format!("group/project!{}", id) },
        target_branch: "feature".to_string(),
        web_url: format!("https://example.invalid/mr/{}", id),
        updated_at: 1_700_000_000,
        author: user(900, "someone-else"),
        assignees: vec![user(901, "another-colleague")],
        reviewers: vec![],
    }
}

fn entry(subject: MergeRequest, approvals_left: usize, approvers: Vec<User>) -> Entry {
    Entry {
        mr: subject,
        approvals: ApprovalInfo {
            approvals_left,
            approved_by: approvers.into_iter().map(|u| Approver { user: u }).collect(),
        },
    }
}

#[test]
fn truncation_yields_exact_width_with_ellipsis() {
    let long_title = "a".repeat(50);
    let shaped = cell(10, &long_title);
    assert_eq!(shaped.chars().count(), 10);
    assert!(shaped.ends_with("..."));
    assert_eq!(shaped, format!("{}...", "a".repeat(7)));
}

#[test]
fn short_cells_are_padded_to_exact_width() {
    assert_eq!(cell(5, "ab"), "ab   ");
    assert_eq!(cell(2, "ab"), "ab");
}

#[test]
fn hyperlink_wraps_the_cell() {
    let link = make_link("https://example.invalid/mr/1", "body");
    assert_eq!(link, "\x1B]8;;https://example.invalid/mr/1\x1B\\body\x1B]8;;\x1B\\");
}

#[test]
fn sort_order_is_descending_by_score() {
    let viewer = user(10, "viewer");

    // Score 5: viewer assignee on a non-draft main-line MR it authored,
    // with conflicts, nothing left to approve.
    let mut five = mr(1);
    five.assignees = vec![user(10, "viewer")];
    five.target_branch = "main".to_string();
    five.author = user(10, "viewer");
    five.has_conflicts = true;
    let five = entry(five, 0, vec![]);

    // Score -1: merge conflicts and nothing else.
    let mut minus_one = mr(2);
    minus_one.has_conflicts = true;
    let minus_one = entry(minus_one, 1, vec![]);

    // Score 2: targets a main-line branch and nothing else.
    let mut two = mr(3);
    two.target_branch = "master".to_string();
    let two = entry(two, 1, vec![]);

    let sorted = sort_by_priority(vec![five, minus_one, two], &viewer);
    let ids: Vec<usize> = sorted.iter().map(|e| e.mr.id.0).collect();
    assert_eq!(ids, vec![1, 3, 2]);
}

#[test]
fn reference_width_defaults_to_25_when_empty() {
    assert_eq!(ref_width(&vec![]), 25);
}

#[test]
fn reference_width_is_the_longest_reference() {
    let mut a = mr(1);
    a.references = References { full: "g/p!1".to_string() };
    let mut b = mr(2);
    b.references = References { full: "group/project!22".to_string() };
    let entries = vec![entry(a, 1, vec![]), entry(b, 1, vec![])];
    assert_eq!(ref_width(&entries), 16);
}

#[test]
fn title_width_uses_the_remaining_terminal_width() {
    assert_eq!(title_width(&vec![], 100, 25), 42);
}

#[test]
fn title_width_falls_back_to_the_longest_title() {
    let mut a = mr(1);
    a.title = "a short title".to_string();
    let entries = vec![entry(a, 1, vec![])];
    assert_eq!(title_width(&entries, 30, 25), 13);
    assert_eq!(title_width(&vec![], 30, 25), 40);
}

#[test]
fn rows_carry_cells_highlight_and_authorship() {
    let viewer = user(10, "viewer");
    let mut subject = mr(1);
    subject.references = References { full: "g/p!1".to_string() };
    subject.title = "fix".to_string();
    subject.web_url = "https://example.invalid/mr/1".to_string();
    subject.author = user(10, "viewer");
    subject.assignees = vec![user(10, "viewer")];
    subject.target_branch = "main".to_string();
    let entries = vec![entry(subject, 1, vec![])];
    let rows = render_rows(&entries, &viewer, 100).unwrap();
    assert_eq!(rows.len(), 1);
    let row = &rows[0];
    // ref_width defaults to the single reference's length, 5.
    assert_eq!(row.reference_cell, "\x1B]8;;https://example.invalid/mr/1\x1B\\g/p!1\x1B]8;;\x1B\\");
    // title column: 100 - 5 - 33 = 62 wide.
    assert_eq!(row.title_cell, format!("fix{}", " ".repeat(59)));
    assert_eq!(row.author_cell, "viewer         ");
    assert_eq!(row.assignees_cell, "viewer         ");
    assert_eq!(row.highlight, Highlight::UrgentMainline);
    assert!(row.author_is_viewer);
}

#[test]
fn highlight_policy_covers_every_class() {
    let viewer = user(10, "viewer");

    let mut urgent_other = mr(1);
    urgent_other.assignees = vec![user(10, "viewer")];
    let entries = vec![entry(urgent_other, 1, vec![])];
    assert_eq!(render_rows(&entries, &viewer, 200).unwrap()[0].highlight, Highlight::UrgentOther);

    let resolved = entry(mr(2), 0, vec![]);
    let entries = vec![resolved];
    assert_eq!(render_rows(&entries, &viewer, 200).unwrap()[0].highlight, Highlight::Resolved);

    let approved = entry(mr(3), 1, vec![user(10, "viewer")]);
    let entries = vec![approved];
    assert_eq!(render_rows(&entries, &viewer, 200).unwrap()[0].highlight, Highlight::Resolved);

    let mut muted = mr(4);
    muted.draft = true;
    let entries = vec![entry(muted, 1, vec![])];
    assert_eq!(render_rows(&entries, &viewer, 200).unwrap()[0].highlight, Highlight::Draft);

    let entries = vec![entry(mr(5), 1, vec![])];
    assert_eq!(render_rows(&entries, &viewer, 200).unwrap()[0].highlight, Highlight::Normal);
}

#[test]
fn rows_refuse_a_title_column_too_narrow_to_truncate() {
    let viewer = user(10, "viewer");
    let mut subject = mr(1);
    subject.references = References { full: "refs!".to_string() };
    subject.title = "a title longer than two columns".to_string();
    let entries = vec![entry(subject, 1, vec![])];
    // Terminal width 40 leaves 40 - 5 - 33 = 2 columns for the title.
    assert!(render_rows(&entries, &viewer, 40).is_none());
}

#[test]
fn rows_accept_a_narrow_title_column_when_titles_fit() {
    let viewer = user(10, "viewer");
    let mut subject = mr(1);
    subject.references = References { full: "refs!".to_string() };
    subject.title = "ok".to_string();
    let entries = vec![entry(subject, 1, vec![])];
    let rows = render_rows(&entries, &viewer, 40).unwrap();
    assert_eq!(rows[0].title_cell, "ok");
}
