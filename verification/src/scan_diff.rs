//! Screen comparing two scans: a per-category summary and the list of the selected category.

use vstd::prelude::*;

use crate::canvas::{
    no_lines, no_rows, push_line, render_footer, Canvas, Color, Frame, Line, LineModel, ListState,
    Row, RowModel, Style, Widget, WidgetModel,
};
use crate::commander_screen::add_plain;
use crate::layout::{split_three, ThreeRows};
use crate::path::{FilePath, PathView};
use crate::text::{ellipsize_left, push_i64, push_usize};
use crate::wizard::push_text_row;

verus! {

/// One difference between two scans.
#[derive(Debug, Clone)]
pub enum FileChange {
    /// A duplicate of what the older scan had arrived.
    NewDupCandidate { path: FilePath, peers_in_old: Vec<FilePath> },
    MovedByInode { from: FilePath, to: FilePath },
    MovedByHash { from: FilePath, to: FilePath },
    Modified { old_path: FilePath, new_path: FilePath },
    Deleted { path: FilePath },
    New { path: FilePath },
}

/// The differences between two scans.
#[derive(Debug, Clone)]
pub struct DiffReport {
    pub old_scan_id: i64,
    pub new_scan_id: i64,
    pub root: FilePath,
    pub unchanged_count: usize,
    pub new_dup_candidates: Vec<FileChange>,
    pub moved_inode: Vec<FileChange>,
    pub moved_hash: Vec<FileChange>,
    pub modified: Vec<FileChange>,
    pub deleted: Vec<FileChange>,
    pub new: Vec<FileChange>,
}

/// The comparison as it is shown.
#[derive(Debug, Clone)]
pub struct ScanDiffState {
    pub report: Option<DiffReport>,
    pub loading: bool,
    pub category: usize,
    pub list: ListState,
}

/// Name of a category.
pub open spec fn category_name(index: int) -> Seq<char> {
    if index == 0 {
        "New duplicates"@
    } else if index == 1 {
        "Moved (inode)"@
    } else if index == 2 {
        "Moved (hash)"@
    } else if index == 3 {
        "Modified"@
    } else if index == 4 {
        "Deleted"@
    } else {
        "New"@
    }
}

/// Listed categories in the order they cycle through with Tab. "Unchanged" is only a counter in
/// the header, not surfaced in the list.
pub fn categories() -> (r: [&'static str; 6])
    ensures
        forall|i: int| 0 <= i < 6 ==> (#[trigger] r@[i])@ == category_name(i),
{
    ["New duplicates", "Moved (inode)", "Moved (hash)", "Modified", "Deleted", "New"]
}

/// The changes of a category.
pub open spec fn changes_in(report: DiffReport, index: int) -> Seq<FileChange> {
    if index == 0 {
        report.new_dup_candidates@
    } else if index == 1 {
        report.moved_inode@
    } else if index == 2 {
        report.moved_hash@
    } else if index == 3 {
        report.modified@
    } else if index == 4 {
        report.deleted@
    } else if index == 5 {
        report.new@
    } else {
        Seq::empty()
    }
}

/// The list of changes for the selected category.
pub fn category_changes(report: &DiffReport, index: usize) -> (r: &[FileChange])
    ensures
        r@ == changes_in(*report, index as int),
{
    match index {
        0 => report.new_dup_candidates.as_slice(),
        1 => report.moved_inode.as_slice(),
        2 => report.moved_hash.as_slice(),
        3 => report.modified.as_slice(),
        4 => report.deleted.as_slice(),
        5 => report.new.as_slice(),
        _ => {
            let none: &[FileChange] = &[];
            assert(none@ =~= Seq::empty());
            none
        },
    }
}

/// Length of the current category (for cursor navigation).
pub fn category_len(state: &ScanDiffState) -> (r: usize)
    ensures
        r == (match state.report {
            Some(report) => changes_in(report, state.category as int).len(),
            None => 0,
        }),
{
    match &state.report {
        Some(report) => category_changes(report, state.category).len(),
        None => 0,
    }
}

/// A path as it is listed: escaped first and cut then, so that no cut leaves part of a sequence.
pub open spec fn listed(path: PathView, width: int) -> Seq<char> {
    crate::text::left_cut(path.shown_safely(), width)
}

/// The line for a change.
pub open spec fn change_words(change: FileChange, width: int) -> Seq<char> {
    match change {
        FileChange::NewDupCandidate { path, peers_in_old } => listed(path@, width)
            + "  ← duplicate of: "@ + (if peers_in_old@.len() > 0 {
            peers_in_old@[0]@.shown_safely()
        } else {
            ""@
        }),
        FileChange::MovedByInode { from, to } => listed(from@, width) + " → "@ + listed(
            to@,
            width,
        ),
        FileChange::MovedByHash { from, to } => listed(from@, width) + " → "@ + listed(to@, width)
            + " (by content)"@,
        FileChange::Modified { old_path: _, new_path } => listed(new_path@, width),
        FileChange::Deleted { path } => listed(path@, width),
        FileChange::New { path } => listed(path@, width),
    }
}

fn cut(path: &FilePath, width: usize) -> (r: String)
    ensures
        r@ == listed(path@, width as int),
{
    ellipsize_left(path.display_safely().as_str(), width)
}

/// Human-readable line for a single change.
pub fn change_line(change: &FileChange, width: usize) -> (r: String)
    ensures
        r@ == change_words(*change, width as int),
{
    match change {
        FileChange::NewDupCandidate { path, peers_in_old } => {
            let mut text = cut(path, width);
            text.push_str("  ← duplicate of: ");
            if peers_in_old.len() > 0 {
                text.push_str(peers_in_old[0].display_safely().as_str());
            } else {
                text.push_str("");
            }
            text
        },
        FileChange::MovedByInode { from, to } => {
            let mut text = cut(from, width);
            text.push_str(" → ");
            text.push_str(cut(to, width).as_str());
            text
        },
        FileChange::MovedByHash { from, to } => {
            let mut text = cut(from, width);
            text.push_str(" → ");
            text.push_str(cut(to, width).as_str());
            text.push_str(" (by content)");
            text
        },
        FileChange::Modified { new_path, .. } => cut(new_path, width),
        FileChange::Deleted { path } => cut(path, width),
        FileChange::New { path } => cut(path, width),
    }
}

/// Counters across all categories.
pub open spec fn summary_words(report: DiffReport) -> Seq<LineModel> {
    seq![
        crate::canvas::text_line(
            "  Scans #"@ + crate::text::signed_decimal(report.old_scan_id as int) + " ↔ #"@
                + crate::text::signed_decimal(report.new_scan_id as int) + " · root "@
                + report.root@.shown_safely(),
        ),
        crate::canvas::text_line(
            "  Unchanged: "@ + crate::text::decimal(report.unchanged_count as nat)
                + " · Moved: inode "@ + crate::text::decimal(report.moved_inode@.len())
                + " / hash "@ + crate::text::decimal(report.moved_hash@.len()),
        ),
        crate::canvas::text_line(
            "  Modified: "@ + crate::text::decimal(report.modified@.len()) + " · Deleted: "@
                + crate::text::decimal(report.deleted@.len()) + " · New: "@
                + crate::text::decimal(report.new@.len()),
        ),
        LineModel {
            style: crate::summary::loud(Color::Yellow),
            ..crate::canvas::text_line(
                "  New duplicates (a duplicate arrived): "@ + crate::text::decimal(
                    report.new_dup_candidates@.len(),
                ),
            )
        },
    ]
}

/// Summary text: counters across all categories.
pub fn summary_text(report: &DiffReport) -> (r: Vec<Line>)
    ensures
        crate::canvas::lines_model(r@) == summary_words(*report),
{
    let mut lines = no_lines();
    let mut scans = "  Scans #".to_string();
    push_i64(&mut scans, report.old_scan_id);
    scans.push_str(" ↔ #");
    push_i64(&mut scans, report.new_scan_id);
    scans.push_str(" · root ");
    scans.push_str(report.root.display_safely().as_str());
    push_line(&mut lines, Line::text(scans));
    let mut moved = "  Unchanged: ".to_string();
    push_usize(&mut moved, report.unchanged_count);
    moved.push_str(" · Moved: inode ");
    push_usize(&mut moved, report.moved_inode.len());
    moved.push_str(" / hash ");
    push_usize(&mut moved, report.moved_hash.len());
    push_line(&mut lines, Line::text(moved));
    let mut changed = "  Modified: ".to_string();
    push_usize(&mut changed, report.modified.len());
    changed.push_str(" · Deleted: ");
    push_usize(&mut changed, report.deleted.len());
    changed.push_str(" · New: ");
    push_usize(&mut changed, report.new.len());
    push_line(&mut lines, Line::text(changed));
    let mut arrived = "  New duplicates (a duplicate arrived): ".to_string();
    push_usize(&mut arrived, report.new_dup_candidates.len());
    push_line(&mut lines, Line::text(arrived).over(Style::color(Color::Yellow).bold()));
    assert(crate::canvas::lines_model(lines@) =~= summary_words(*report));
    lines
}

/// The head of the comparison.
pub open spec fn diff_head(state: ScanDiffState) -> Seq<LineModel> {
    if state.loading {
        seq![crate::canvas::text_line("  Computing the differences between scans…"@)]
    } else {
        match state.report {
            Some(report) => summary_words(report),
            None => seq![crate::canvas::text_line("  No data to compare"@)],
        }
    }
}

fn head_lines(state: &ScanDiffState) -> (r: Vec<Line>)
    ensures
        crate::canvas::lines_model(r@) == diff_head(*state),
{
    if !state.loading {
        if let Some(report) = &state.report {
            return summary_text(report);
        }
    }
    let mut lines = no_lines();
    if state.loading {
        add_plain(&mut lines, "  Computing the differences between scans…");
    } else {
        add_plain(&mut lines, "  No data to compare");
    }
    assert(crate::canvas::lines_model(lines@) =~= diff_head(*state));
    lines
}

/// The title of the list.
pub open spec fn list_title(state: ScanDiffState) -> Seq<char> {
    match state.report {
        Some(report) => " "@ + category_name(state.category as int) + " ("@ + crate::text::decimal(
            changes_in(report, state.category as int).len(),
        ) + ") — Tab next category "@,
        None => " — "@,
    }
}

/// The rows of the list.
pub open spec fn list_rows(state: ScanDiffState, width: int) -> Seq<RowModel> {
    match state.report {
        Some(report) => changes_in(report, state.category as int).map_values(
            |c: FileChange| crate::wizard::text_row(change_words(c, width)),
        ),
        None => Seq::empty(),
    }
}

fn rows_of(changes: &[FileChange], width: usize) -> (r: Vec<Row>)
    ensures
        crate::canvas::rows_model(r@) == changes@.map_values(
            |c: FileChange| crate::wizard::text_row(change_words(c, width as int)),
        ),
{
    let ghost all = changes@.map_values(
        |c: FileChange| crate::wizard::text_row(change_words(c, width as int)),
    );
    let mut rows = no_rows();
    let mut i: usize = 0;
    assert(crate::canvas::rows_model(rows@) =~= all.take(0));
    while i < changes.len()
        invariant
            i <= changes@.len(),
            all == changes@.map_values(
                |c: FileChange| crate::wizard::text_row(change_words(c, width as int)),
            ),
            crate::canvas::rows_model(rows@) == all.take(i as int),
        decreases changes@.len() - i,
    {
        push_text_row(&mut rows, change_line(&changes[i], width));
        assert(all.take(i as int).push(all[i as int]) =~= all.take(i as int + 1));
        i = i + 1;
    }
    assert(all.take(all.len() as int) =~= all);
    rows
}

/// The comparison on screen.
pub open spec fn diff_widgets(state: ScanDiffState, at: ThreeRows, status: Seq<char>) -> Seq<
    WidgetModel,
> {
    let width = if at.middle.width > 4 {
        at.middle.width - 4
    } else {
        0
    };
    seq![
        crate::canvas::framed_text(
            at.top,
            diff_head(state),
            crate::canvas::plain_frame(" Scan comparison "@),
        ),
        WidgetModel::List {
            area: at.middle,
            rows: list_rows(state, width),
            state: state.list,
            frame: Some(crate::canvas::plain_frame(list_title(state))),
            pointer: true,
            highlight: crate::canvas::reversed_style(),
        },
        crate::canvas::footer(
            at.bottom,
            status,
            "↑↓ select · Tab/Shift+Tab category · Esc/F10 back"@,
        ),
    ]
}

fn title_of(state: &ScanDiffState) -> (r: String)
    requires
        state.category < 6,
    ensures
        r@ == list_title(*state),
{
    match &state.report {
        Some(report) => {
            let names = categories();
            let name: &'static str = names[state.category];
            assert(names@[state.category as int]@ == category_name(state.category as int));
            let mut title = " ".to_string();
            title.push_str(name);
            title.push_str(" (");
            push_usize(&mut title, category_changes(report, state.category).len());
            title.push_str(") — Tab next category ");
            title
        },
        None => " — ".to_string(),
    }
}

/// Draws the comparison in an area that was split into `at`.
pub fn render_at(canvas: &mut Canvas, state: &ScanDiffState, at: &ThreeRows, status: &str)
    requires
        state.category < 6,
    ensures
        final(canvas).area == old(canvas).area,
        final(canvas)@ == old(canvas)@ + diff_widgets(*state, *at, status@),
{
    let ghost before = canvas@;
    canvas.text(at.top, head_lines(state), Frame::fixed(" Scan comparison "));
    let width: usize = at.middle.width.saturating_sub(4) as usize;
    let rows = match &state.report {
        Some(report) => rows_of(category_changes(report, state.category), width),
        None => no_rows(),
    };
    canvas.put(
        Widget::List {
            area: at.middle,
            rows,
            state: state.list,
            frame: Some(Frame::titled(title_of(state))),
            pointer: true,
            highlight: Style::swapped(),
        },
    );
    render_footer(canvas, at.bottom, status, "↑↓ select · Tab/Shift+Tab category · Esc/F10 back");
    assert(canvas@ =~= before + diff_widgets(*state, *at, status@));
}

/// The comparison of two scans.
pub fn render(canvas: &mut Canvas, state: &ScanDiffState, status: &str)
    requires
        state.category < 6,
    ensures
        final(canvas).area == old(canvas).area,
        exists|at: ThreeRows|
            #[trigger] crate::layout::three_rows(old(canvas).area, 5, 3, 4, at) && final(canvas)@
                == old(canvas)@ + diff_widgets(*state, at, status@),
{
    let at = split_three(canvas.area, 5, 3, 4);
    render_at(canvas, state, &at, status);
}

/// However narrow the list, what is listed of a path holds no control character.
pub proof fn law_a_cut_path_is_inert(path: PathView, width: int)
    ensures
        crate::text::inert(listed(path, width)),
{
    crate::text::law_escaped_text_is_inert(path.shown());
    crate::text::law_cut_of_inert_text_is_inert(path.shown_safely(), width);
}

} // verus!
