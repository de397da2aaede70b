//! Presentation formatter: sorts entries by descending score, computes
//! column widths, shapes each cell to exact width, and picks the
//! highlighting of every row. Rendering is a pure projection of already
//! scored data; nothing here feeds back into scoring.

use vstd::prelude::*;
use vstd::multiset::Multiset;
use vstd::string::{StrSliceExecFns, StringExecFns};
use crate::model::{ApprovalInfo, Entry, MergeRequest, User};
use crate::score::{
    has_approved,
    is_assignee,
    priority,
    spec_has_approved,
    spec_is_assignee,
    spec_priority,
    spec_targets_main,
    targets_main_branch,
};

verus! {

/// The score of one entry for the given viewer.
pub open spec fn spec_entry_priority(e: Entry, user: &User) -> int {
    spec_priority(&e.mr, &e.approvals, user)
}

/// Entries stand in descending score order: no entry is followed by one
/// that scores higher.
pub open spec fn spec_sorted_desc(entries: Seq<Entry>, user: &User) -> bool {
    forall|i: int, j: int|
        0 <= i < j < entries.len() ==> spec_entry_priority(entries[i], user)
            >= spec_entry_priority(entries[j], user)
}

/// Sorts the entries by descending priority score for the given viewer.
/// The result is a reordering of the input: same entries, same
/// multiplicities, highest score first.
pub fn sort_by_priority(entries: Vec<Entry>, user: &User) -> (r: Vec<Entry>)
    ensures
        r@.to_multiset() == entries@.to_multiset(),
        r@.len() == entries@.len(),
        spec_sorted_desc(r@, user),
{
    broadcast use vstd::seq_lib::group_to_multiset_ensures;

    let ghost orig = entries@;
    let mut rest = entries;
    let mut out: Vec<Entry> = Vec::new();
    while rest.len() > 0
        invariant
            out@.len() + rest@.len() == orig.len(),
            out@.to_multiset().add(rest@.to_multiset()) == orig.to_multiset(),
            spec_sorted_desc(out@, user),
            forall|i: int, j: int|
                0 <= i < out@.len() && 0 <= j < rest@.len() ==> spec_entry_priority(
                    out@[i],
                    user,
                ) >= spec_entry_priority(rest@[j], user),
        decreases rest.len(),
    {
        let mut m: usize = 0;
        let mut best = priority(&rest[0].mr, &rest[0].approvals, user);
        let mut j: usize = 1;
        while j < rest.len()
            invariant
                m < j <= rest.len(),
                rest@.len() > 0,
                best == spec_entry_priority(rest@[m as int], user),
                forall|k: int|
                    0 <= k < j ==> best >= spec_entry_priority(rest@[k], user),
            decreases rest.len() - j,
        {
            let p = priority(&rest[j].mr, &rest[j].approvals, user);
            if p > best {
                m = j;
                best = p;
            }
            j += 1;
        }
        let ghost before = rest@;
        let ghost out_before = out@;
        let e = rest.remove(m);
        out.push(e);
        proof {
            before.to_multiset_ensures();
            out_before.to_multiset_ensures();
            assert(before.contains(before[m as int]));
            assert(before.to_multiset().count(e) > 0);
            assert(out@ == out_before.push(e));
            assert(rest@ == before.remove(m as int));
            assert(out@.to_multiset() =~= out_before.to_multiset().insert(e));
            assert(rest@.to_multiset() =~= before.to_multiset().remove(e));
            assert(out@.to_multiset().add(rest@.to_multiset()) =~= out_before.to_multiset().add(
                before.to_multiset(),
            ));
            assert forall|i: int, j2: int|
                0 <= i < out@.len() && 0 <= j2 < rest@.len() implies spec_entry_priority(
                out@[i],
                user,
            ) >= spec_entry_priority(rest@[j2], user) by {
                if j2 < m {
                    assert(rest@[j2] == before[j2]);
                } else {
                    assert(rest@[j2] == before[j2 + 1]);
                }
                if i < out@.len() - 1 {
                    assert(out@[i] == out_before[i]);
                } else {
                    assert(out@[i] == e);
                }
            }
            assert forall|i: int, j2: int| 0 <= i < j2 < out@.len() implies spec_entry_priority(
                out@[i],
                user,
            ) >= spec_entry_priority(out@[j2], user) by {
                assert(out@[i] == out_before[i]);
                if j2 < out@.len() - 1 {
                    assert(out@[j2] == out_before[j2]);
                } else {
                    assert(out@[j2] == e);
                    assert(before[m as int] == e);
                }
            }
        }
    }
    proof {
        rest@.to_multiset_ensures();
        out@.to_multiset_ensures();
        assert(rest@.to_multiset() =~= Multiset::<Entry>::empty());
        assert(out@.to_multiset() =~= orig.to_multiset());
    }
    out
}

/// A run of `n` spaces.
pub open spec fn spec_spaces(n: nat) -> Seq<char> {
    Seq::new(n, |i: int| ' ')
}

/// One table cell of exactly `width` characters: a body that fits is
/// padded with trailing spaces; a longer one is cut to `width - 3`
/// characters followed by an ellipsis.
pub open spec fn spec_cell(width: int, body: Seq<char>) -> Seq<char> {
    if body.len() <= width {
        body + spec_spaces((width - body.len()) as nat)
    } else {
        body.subrange(
            0,
            if width >= 3 {
                width - 3
            } else {
                0
            },
        ) + "..."@
    }
}

/// Shapes one cell body to exactly `width` characters: pads a short body
/// with trailing spaces, truncates a long one to `width - 3` characters
/// plus an ellipsis. A column narrower than the ellipsis itself cannot
/// hold a truncated body.
pub fn cell(width: usize, body: &str) -> (r: String)
    requires
        body@.len() > width ==> width >= 3,
    ensures
        r@ == spec_cell(width as int, body@),
        r@.len() == width,
{
    let len = body.unicode_len();
    if len > width {
        let prefix = body.substring_char(0, width - 3);
        let r = prefix.to_owned().concat("...");
        proof {
            reveal_strlit("...");
        }
        r
    } else {
        let mut r = body.to_owned();
        let mut i: usize = len;
        proof {
            assert(r@ =~= body@ + spec_spaces(0));
        }
        while i < width
            invariant
                len <= i <= width,
                body@.len() == len,
                r@ == body@ + spec_spaces((i - len) as nat),
            decreases width - i,
        {
            r.append(" ");
            proof {
                reveal_strlit(" ");
                assert(" "@ =~= seq![' ']);
                assert(body@ + spec_spaces((i + 1 - len) as nat) =~= (body@ + spec_spaces(
                    (i - len) as nat,
                )) + " "@);
            }
            i += 1;
        }
        r
    }
}

/// A terminal hyperlink: the escape-sequence convention wrapping `title`
/// so that it points at `url`.
pub open spec fn spec_link(url: Seq<char>, title: Seq<char>) -> Seq<char> {
    "\x1B]8;;"@ + url + "\x1B\\"@ + title + "\x1B]8;;\x1B\\"@
}

/// Wraps a cell in the terminal hyperlink escape sequence pointing at
/// `url`.
pub fn make_link(url: &str, title: &str) -> (r: String)
    ensures
        r@ == spec_link(url@, title@),
{
    String::from_str("\x1B]8;;").concat(url).concat("\x1B\\").concat(title).concat(
        "\x1B]8;;\x1B\\",
    )
}

/// Width of the reference column: the longest reference string among the
/// entries, or a floor of 25 when there are none.
pub open spec fn spec_ref_width(entries: Seq<Entry>) -> int
    decreases entries.len(),
{
    if entries.len() == 0 {
        25
    } else {
        let rest = spec_ref_width(entries.drop_last());
        let last = entries.last().mr.references.full@.len() as int;
        if entries.len() == 1 {
            last
        } else if last > rest {
            last
        } else {
            rest
        }
    }
}

/// The reference column is wide enough for every entry, and when entries
/// exist its width is realized by one of them.
pub proof fn lemma_ref_width_bounds(entries: Seq<Entry>)
    ensures
        forall|k: int|
            0 <= k < entries.len() ==> entries[k].mr.references.full@.len() <= spec_ref_width(
                entries,
            ),
        entries.len() > 0 ==> exists|k: int|
            0 <= k < entries.len() && entries[k].mr.references.full@.len() == spec_ref_width(
                entries,
            ),
    decreases entries.len(),
{
    if entries.len() > 0 {
        lemma_ref_width_bounds(entries.drop_last());
        assert forall|k: int| 0 <= k < entries.len() implies entries[k].mr.references.full@.len()
            <= spec_ref_width(entries) by {
            if k < entries.len() - 1 {
                assert(entries.drop_last()[k] == entries[k]);
            }
        }
        if entries.len() == 1 {
            assert(entries[0].mr.references.full@.len() == spec_ref_width(entries));
        } else {
            let last = entries.last().mr.references.full@.len() as int;
            let rest = spec_ref_width(entries.drop_last());
            if last > rest {
                assert(entries[entries.len() - 1].mr.references.full@.len() == spec_ref_width(
                    entries,
                ));
            } else {
                let k = choose|k: int|
                    0 <= k < entries.drop_last().len() && entries.drop_last()[k]
                        .mr.references.full@.len() == rest;
                assert(entries[k].mr.references.full@.len() == spec_ref_width(entries));
            }
        }
    }
}

/// Computes the reference column width from the entries.
pub fn ref_width(entries: &Vec<Entry>) -> (r: usize)
    ensures
        r == spec_ref_width(entries@),
{
    let mut i: usize = 0;
    let mut best: usize = 25;
    let mut found = false;
    while i < entries.len()
        invariant
            i <= entries.len(),
            !found ==> i == 0 && best == 25,
            found ==> i > 0 && best == spec_ref_width(entries@.subrange(0, i as int)),
        decreases entries.len() - i,
    {
        let w = entries[i].mr.references.full.as_str().unicode_len();
        proof {
            assert(entries@.subrange(0, i + 1).drop_last() =~= entries@.subrange(0, i as int));
            assert(entries@.subrange(0, i + 1).last() == entries@[i as int]);
        }
        if !found {
            best = w;
            found = true;
        } else if w > best {
            best = w;
        }
        i += 1;
    }
    proof {
        if entries@.len() > 0 {
            assert(entries@.subrange(0, entries@.len() as int) =~= entries@);
        }
    }
    best
}

/// Width of the title column: what remains of the terminal width after the
/// reference column, two fixed 15-character columns and three separating
/// spaces; when nothing remains, the longest title, or a floor of 40 when
/// there are no entries.
pub open spec fn spec_title_width(entries: Seq<Entry>, term_width: int, ref_w: int) -> int {
    if term_width - ref_w - 33 > 0 {
        term_width - ref_w - 33
    } else {
        spec_max_title_len(entries)
    }
}

/// The longest title among the entries, or a floor of 40 when there are
/// none.
pub open spec fn spec_max_title_len(entries: Seq<Entry>) -> int
    decreases entries.len(),
{
    if entries.len() == 0 {
        40
    } else {
        let rest = spec_max_title_len(entries.drop_last());
        let last = entries.last().mr.title@.len() as int;
        if entries.len() == 1 {
            last
        } else if last > rest {
            last
        } else {
            rest
        }
    }
}

/// Computes the title column width from the entries, the terminal width
/// and the reference column width.
pub fn title_width(entries: &Vec<Entry>, term_width: usize, ref_w: usize) -> (r: usize)
    ensures
        r == spec_title_width(entries@, term_width as int, ref_w as int),
{
    if term_width > ref_w && term_width - ref_w > 33 {
        term_width - ref_w - 33
    } else {
        let mut i: usize = 0;
        let mut best: usize = 40;
        let mut found = false;
        while i < entries.len()
            invariant
                i <= entries.len(),
                !found ==> i == 0 && best == 40,
                found ==> i > 0 && best == spec_max_title_len(entries@.subrange(0, i as int)),
            decreases entries.len() - i,
        {
            let w = entries[i].mr.title.as_str().unicode_len();
            proof {
                assert(entries@.subrange(0, i + 1).drop_last() =~= entries@.subrange(
                    0,
                    i as int,
                ));
                assert(entries@.subrange(0, i + 1).last() == entries@[i as int]);
            }
            if !found {
                best = w;
                found = true;
            } else if w > best {
                best = w;
            }
            i += 1;
        }
        proof {
            if entries@.len() > 0 {
                assert(entries@.subrange(0, entries@.len() as int) =~= entries@);
            }
        }
        best
    }
}

/// The color class of one row, by the fixed highlighting policy: action
/// needed on a main-line merge request, action needed elsewhere, resolved
/// or requirement satisfied, draft, or plain.
#[derive(Clone, Copy, PartialEq, Eq, Structural, Debug)]
pub enum Highlight {
    UrgentMainline,
    UrgentOther,
    Resolved,
    Draft,
    Normal,
}

/// The highlighting policy: the viewer's own non-draft assignments stand
/// out, main-line ones most; merge requests needing nothing further are
/// marked resolved; drafts are muted; everything else is plain.
pub open spec fn spec_highlight(mr: &MergeRequest, info: &ApprovalInfo, user: &User) -> Highlight {
    if spec_is_assignee(mr, user) && !mr.draft {
        if spec_targets_main(mr) {
            Highlight::UrgentMainline
        } else {
            Highlight::UrgentOther
        }
    } else if info.approvals_left < 1 || spec_has_approved(info, user) {
        Highlight::Resolved
    } else if mr.draft {
        Highlight::Draft
    } else {
        Highlight::Normal
    }
}

/// Picks the color class of one row.
pub fn highlight(mr: &MergeRequest, info: &ApprovalInfo, user: &User) -> (h: Highlight)
    ensures
        h == spec_highlight(mr, info, user),
{
    if is_assignee(mr, user) && !mr.draft {
        if targets_main_branch(mr) {
            Highlight::UrgentMainline
        } else {
            Highlight::UrgentOther
        }
    } else if info.approvals_left < 1 || has_approved(info, user) {
        Highlight::Resolved
    } else if mr.draft {
        Highlight::Draft
    } else {
        Highlight::Normal
    }
}

/// The usernames of a user list, in order.
pub open spec fn spec_usernames(users: Seq<User>) -> Seq<Seq<char>> {
    users.map_values(|u: User| u.username@)
}

/// The names joined into one string, each followed by a single space.
pub open spec fn spec_joined(names: Seq<Seq<char>>) -> Seq<char>
    decreases names.len(),
{
    if names.len() == 0 {
        Seq::empty()
    } else {
        spec_joined(names.drop_last()) + names.last() + " "@
    }
}

/// Joins the assignees' usernames into one string, each followed by a
/// single space, in order.
pub fn assignee_names(mr: &MergeRequest) -> (r: String)
    ensures
        r@ == spec_joined(spec_usernames(mr.assignees@)),
{
    let ghost names = spec_usernames(mr.assignees@);
    let mut r = String::new();
    let mut i: usize = 0;
    proof {
        assert(names.subrange(0, 0) =~= Seq::<Seq<char>>::empty());
    }
    while i < mr.assignees.len()
        invariant
            i <= mr.assignees.len(),
            names == spec_usernames(mr.assignees@),
            r@ == spec_joined(names.subrange(0, i as int)),
        decreases mr.assignees.len() - i,
    {
        r.append(mr.assignees[i].username.as_str());
        r.append(" ");
        proof {
            reveal_strlit(" ");
            assert(names.subrange(0, i + 1).drop_last() =~= names.subrange(0, i as int));
            assert(names.subrange(0, i + 1).last() == names[i as int]);
            assert(names[i as int] == mr.assignees@[i as int].username@);
            assert(spec_joined(names.subrange(0, i + 1)) =~= (spec_joined(
                names.subrange(0, i as int),
            ) + names[i as int]) + " "@);
        }
        i += 1;
    }
    proof {
        assert(names.subrange(0, names.len() as int) =~= names);
    }
    r
}

/// One fully shaped table row: every cell already at its exact width, the
/// reference cell wrapped in the hyperlink escape sequence, together with
/// the row's color class and whether the author cell names the viewer.
#[derive(PartialEq, Eq, Debug)]
pub struct Row {
    pub reference_cell: String,
    pub title_cell: String,
    pub author_cell: String,
    pub assignees_cell: String,
    pub highlight: Highlight,
    pub author_is_viewer: bool,
}

/// Width of the two fixed author and assignee columns.
pub const NAME_COLUMN_WIDTH: usize = 15;

/// Shapes one entry into a row: reference cell of width `ref_w` wrapped as
/// a hyperlink to the merge request's URL, title cell of width `title_w`,
/// author and assignee cells of the fixed name-column width, plus the
/// row's color class and whether the viewer authored it.
pub fn render_row(e: &Entry, user: &User, ref_w: usize, title_w: usize) -> (row: Row)
    requires
        e.mr.references.full@.len() > ref_w ==> ref_w >= 3,
        e.mr.title@.len() > title_w ==> title_w >= 3,
    ensures
        row.reference_cell@ == spec_link(
            e.mr.web_url@,
            spec_cell(ref_w as int, e.mr.references.full@),
        ),
        row.title_cell@ == spec_cell(title_w as int, e.mr.title@),
        row.author_cell@ == spec_cell(NAME_COLUMN_WIDTH as int, e.mr.author.username@),
        row.assignees_cell@ == spec_cell(
            NAME_COLUMN_WIDTH as int,
            spec_joined(spec_usernames(e.mr.assignees@)),
        ),
        row.highlight == spec_highlight(&e.mr, &e.approvals, user),
        row.author_is_viewer == (e.mr.author.id == user.id),
{
    let link_body = cell(ref_w, e.mr.references.full.as_str());
    let reference_cell = make_link(e.mr.web_url.as_str(), link_body.as_str());
    let title_cell = cell(title_w, e.mr.title.as_str());
    let author_cell = cell(NAME_COLUMN_WIDTH, e.mr.author.username.as_str());
    let joined = assignee_names(&e.mr);
    let assignees_cell = cell(NAME_COLUMN_WIDTH, joined.as_str());
    let hl = highlight(&e.mr, &e.approvals, user);
    let author_is_viewer = e.mr.author.id == user.id;
    Row {
        reference_cell,
        title_cell,
        author_cell,
        assignees_cell,
        highlight: hl,
        author_is_viewer,
    }
}

/// Every title fits the title column, or the column is at least wide
/// enough to hold a truncated body.
pub open spec fn spec_titles_fit(entries: Seq<Entry>, title_w: int) -> bool {
    forall|k: int|
        0 <= k < entries.len() ==> (entries[k].mr.title@.len() > title_w ==> title_w >= 3)
}

/// Shapes every entry, in order, into a table row, computing the column
/// widths from the entries and the terminal width. Yields nothing exactly
/// when some title is too long for a title column narrower than the
/// ellipsis; otherwise one row per entry, in order.
pub fn render_rows(entries: &Vec<Entry>, user: &User, term_width: usize) -> (r: Option<
    Vec<Row>,
>)
    ensures
        ({
            let rw = spec_ref_width(entries@);
            let tw = spec_title_width(entries@, term_width as int, rw);
            &&& (r is Some <==> spec_titles_fit(entries@, tw))
            &&& match r {
                Some(rows) => rows@.len() == entries@.len() && forall|k: int|
                    0 <= k < entries@.len() ==> {
                        let row = #[trigger] rows@[k];
                        let e = entries@[k];
                        &&& row.reference_cell@ == spec_link(
                            e.mr.web_url@,
                            spec_cell(rw, e.mr.references.full@),
                        )
                        &&& row.title_cell@ == spec_cell(tw, e.mr.title@)
                        &&& row.author_cell@ == spec_cell(
                            NAME_COLUMN_WIDTH as int,
                            e.mr.author.username@,
                        )
                        &&& row.assignees_cell@ == spec_cell(
                            NAME_COLUMN_WIDTH as int,
                            spec_joined(spec_usernames(e.mr.assignees@)),
                        )
                        &&& row.highlight == spec_highlight(&e.mr, &e.approvals, user)
                        &&& row.author_is_viewer == (e.mr.author.id == user.id)
                    },
                None => true,
            }
        }),
{
    let rw = ref_width(entries);
    let tw = title_width(entries, term_width, rw);
    proof {
        lemma_ref_width_bounds(entries@);
    }
    if tw < 3 {
        let mut k: usize = 0;
        while k < entries.len()
            invariant
                k <= entries.len(),
                tw == spec_title_width(entries@, term_width as int, spec_ref_width(entries@)),
                tw < 3,
                forall|j: int| 0 <= j < k ==> entries@[j].mr.title@.len() <= tw,
            decreases entries.len() - k,
        {
            if entries[k].mr.title.as_str().unicode_len() > tw {
                return None;
            }
            k += 1;
        }
    }
    let mut rows: Vec<Row> = Vec::new();
    let mut k: usize = 0;
    while k < entries.len()
        invariant
            k <= entries.len(),
            rw == spec_ref_width(entries@),
            tw == spec_title_width(entries@, term_width as int, rw as int),
            spec_titles_fit(entries@, tw as int),
            forall|j: int|
                0 <= j < entries@.len() ==> entries@[j].mr.references.full@.len() <= rw,
            rows@.len() == k,
            forall|j: int|
                0 <= j < k ==> {
                    let row = #[trigger] rows@[j];
                    let e = entries@[j];
                    &&& row.reference_cell@ == spec_link(
                        e.mr.web_url@,
                        spec_cell(rw as int, e.mr.references.full@),
                    )
                    &&& row.title_cell@ == spec_cell(tw as int, e.mr.title@)
                    &&& row.author_cell@ == spec_cell(
                        NAME_COLUMN_WIDTH as int,
                        e.mr.author.username@,
                    )
                    &&& row.assignees_cell@ == spec_cell(
                        NAME_COLUMN_WIDTH as int,
                        spec_joined(spec_usernames(e.mr.assignees@)),
                    )
                    &&& row.highlight == spec_highlight(&e.mr, &e.approvals, user)
                    &&& row.author_is_viewer == (e.mr.author.id == user.id)
                },
        decreases entries.len() - k,
    {
        let row = render_row(&entries[k], user, rw, tw);
        rows.push(row);
        k += 1;
    }
    Some(rows)
}

} // verus!
