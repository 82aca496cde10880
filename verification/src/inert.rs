//! The one rule every screen shares: a file name is data, and nothing in it reaches the terminal
//! as a control character.

use vstd::prelude::*;

use crate::canvas::{Color, LineModel, RowModel, SpanModel, Style, WidgetModel};
use crate::dedup::DedupStatus;
use crate::entries::{EntryModel, Mark};
use crate::model::{ActionKind, PlannedAction};
use crate::path::PathView;
use crate::scan_diff::FileChange;
use crate::setup::Root;
use crate::summary::ActionOutcome;

verus! {

proof fn lemma_sum(a: Seq<char>, b: Seq<char>)
    requires
        crate::text::inert(a),
        crate::text::inert(b),
    ensures
        crate::text::inert(a + b),
{
    assert forall|i: int| 0 <= i < (a + b).len() implies !crate::text::control(
        #[trigger] (a + b)[i],
    ) by {
        if i < a.len() {
            assert((a + b)[i] == a[i]);
        } else {
            assert((a + b)[i] == b[i - a.len()]);
        }
    }
}

proof fn lemma_padded(t: Seq<char>, width: int)
    requires
        crate::text::inert(t),
    ensures
        crate::text::inert(crate::text::padded_right(t, width)),
        crate::text::inert(crate::text::padded_left(t, width)),
{
    let spaces = crate::text::repeated(' ', width - t.len());
    assert(crate::text::inert(spaces));
    lemma_sum(t, spaces);
    lemma_sum(spaces, t);
}

proof fn lemma_decimal(n: nat)
    ensures
        crate::text::inert(crate::text::decimal(n)),
    decreases n,
{
    assert(!crate::text::control(crate::text::digit((n % 10) as int)));
    if n < 10 {
        assert(crate::text::decimal(n) == seq![crate::text::digit(n as int)]);
    } else {
        lemma_decimal(n / 10);
        let head = crate::text::decimal(n / 10);
        assert forall|i: int| 0 <= i < crate::text::decimal(n).len() implies !crate::text::control(
            #[trigger] crate::text::decimal(n)[i],
        ) by {
            if i < head.len() {
                assert(crate::text::decimal(n)[i] == head[i]);
            }
        }
    }
}

proof fn lemma_size(bytes: nat)
    ensures
        crate::text::inert(crate::units::size_text(bytes)),
        crate::text::inert(crate::panel::size_columns(bytes)),
{
    let number = crate::units::size_number(bytes);
    let unit = crate::units::unit_name(crate::units::unit_index(bytes));
    reveal_strlit("B");
    reveal_strlit("KiB");
    reveal_strlit("MiB");
    reveal_strlit("GiB");
    reveal_strlit("TiB");
    reveal_strlit(" ");
    assert(crate::text::inert(number)) by {
        let index = crate::units::unit_index(bytes);
        let tenths = crate::units::round_half_even(
            10 * crate::units::nearest_double(bytes),
            crate::units::unit_bytes(index),
        );
        lemma_decimal(bytes);
        lemma_decimal(tenths / 10);
        lemma_decimal(tenths % 10);
        lemma_sum(crate::text::decimal(tenths / 10), seq!['.']);
        lemma_sum(
            crate::text::decimal(tenths / 10) + seq!['.'],
            crate::text::decimal(tenths % 10),
        );
    }
    lemma_sum(number, " "@);
    lemma_sum(number + " "@, unit);
    lemma_padded(number, 6);
    lemma_padded(unit, 3);
    lemma_sum(crate::text::padded_left(number, 6), " "@);
    lemma_sum(
        crate::text::padded_left(number, 6) + " "@,
        crate::text::padded_right(unit, 3),
    );
}

proof fn lemma_path(path: PathView, width: int)
    ensures
        crate::text::inert(path.shown_safely()),
        crate::text::inert(crate::text::left_cut(path.shown_safely(), width)),
{
    crate::text::law_escaped_text_is_inert(path.shown());
    crate::text::law_cut_of_inert_text_is_inert(path.shown_safely(), width);
}

proof fn lemma_with(line: LineModel, text: Seq<char>, style: Style)
    requires
        line.inert(),
        crate::text::inert(text),
    ensures
        line.with(text, style).inert(),
{
    let more = line.with(text, style);
    assert forall|i: int| 0 <= i < more.spans.len() implies crate::text::inert(
        (#[trigger] more.spans[i]).text,
    ) by {
        if i < line.spans.len() {
            assert(more.spans[i] == line.spans[i]);
        }
    }
}

proof fn lemma_text_line(text: Seq<char>, style: Style)
    requires
        crate::text::inert(text),
    ensures
        crate::canvas::text_line(text).inert(),
        crate::canvas::styled_line(text, style).inert(),
{
    lemma_with(crate::canvas::blank_line(), text, crate::canvas::plain_style());
    lemma_with(crate::canvas::blank_line(), text, style);
}

/// No line of a row holds a control character.
pub open spec fn inert_row(row: RowModel) -> bool {
    forall|i: int| 0 <= i < row.lines.len() ==> (#[trigger] row.lines[i]).inert()
}

/// A panel's row shows an entry of any name without a control character. (The date and the
/// comparison glyph are not names: they are taken as they come.)
pub proof fn law_a_panel_row_is_inert(
    e: EntryModel,
    width: u16,
    status: DedupStatus,
    mark: Option<Mark>,
    is_cross: bool,
    dir_size: Option<u64>,
    compare: Option<(char, Color)>,
    date: Seq<char>,
)
    requires
        crate::text::inert(date),
        compare matches Some((glyph, _)) ==> !crate::text::control(glyph),
    ensures
        crate::panel::entry_row(e, width, status, mark, is_cross, dir_size, compare, date).inert(),
{
    let row = crate::panel::entry_row(
        e,
        width,
        status,
        mark,
        is_cross,
        dir_size,
        compare,
        date,
    );
    let columns = crate::panel::name_columns(e);
    let room = crate::panel::name_width(width, compare is Some);
    let name = crate::text::fitted(crate::text::escaped(columns.0), room);
    let extension = crate::text::fitted(crate::text::escaped(columns.1), 5);
    crate::text::law_escaped_text_is_inert(columns.0);
    crate::text::law_escaped_text_is_inert(columns.1);
    crate::text::law_cut_of_inert_text_is_inert(crate::text::escaped(columns.0), room);
    crate::text::law_cut_of_inert_text_is_inert(crate::text::escaped(columns.1), 5);
    lemma_padded(name, room);
    lemma_padded(extension, 5);
    lemma_padded(date, 10);
    let size = crate::panel::size_shown(e, dir_size);
    assert(crate::text::inert(size)) by {
        lemma_size(e.size as nat);
        if let Some(bytes) = dir_size {
            lemma_size(bytes as nat);
        }
        reveal_strlit("<DIR>");
    }
    lemma_padded(size, 10);
    reveal_strlit(" ");
    assert forall|i: int| 0 <= i < row.spans.len() implies crate::text::inert(
        (#[trigger] row.spans[i]).text,
    ) by {
        assert(i <= 12);
    }
}

/// The row of an entry as a screen shows it, with the date that `short_date` gives for it, holds no
/// control character.
pub proof fn law_a_dated_row_is_inert(
    e: EntryModel,
    width: u16,
    status: DedupStatus,
    mark: Option<Mark>,
    is_cross: bool,
    dir_size: Option<u64>,
    compare: Option<(char, Color)>,
    date: Seq<char>,
)
    requires
        crate::panel::dated(e.mtime, date),
        compare matches Some((glyph, _)) ==> !crate::text::control(glyph),
    ensures
        crate::panel::entry_row(e, width, status, mark, is_cross, dir_size, compare, date).inert(),
{
    crate::panel::law_a_shown_date_is_inert(e.mtime, date);
    law_a_panel_row_is_inert(e, width, status, mark, is_cross, dir_size, compare, date);
}

/// Rows of plain paths hold no control character, whatever the paths are.
pub proof fn law_path_rows_are_inert(paths: Seq<PathView>, total: int, i: int)
    requires
        0 <= i < crate::panel::path_rows(paths, total).len(),
    ensures
        inert_row(crate::panel::path_rows(paths, total)[i]),
{
    reveal_strlit("  ");
    reveal_strlit("  … and ");
    reveal_strlit(" more");
    let row = crate::panel::path_rows(paths, total)[i];
    if i < paths.len() {
        lemma_path(paths[i], 0);
        lemma_sum("  "@, paths[i].shown_safely());
        lemma_text_line("  "@ + paths[i].shown_safely(), crate::canvas::plain_style());
        assert(row.lines[0] == crate::canvas::text_line("  "@ + paths[i].shown_safely()));
    } else {
        let rest = crate::text::decimal((total - paths.len()) as nat);
        lemma_decimal((total - paths.len()) as nat);
        lemma_sum("  … and "@, rest);
        lemma_sum("  … and "@ + rest, " more"@);
        lemma_text_line("  … and "@ + rest + " more"@, crate::canvas::plain_style());
        assert(row.lines[0] == crate::canvas::text_line("  … and "@ + rest + " more"@));
    }
}

/// A directory nothing vouches for is shown without a control character.
pub proof fn law_an_unverified_row_is_inert(path: PathView, first: bool)
    ensures
        inert_row(crate::panel::unverified_row(path, first)),
{
    reveal_strlit("★?");
    reveal_strlit("? ");
    lemma_path(path, 0);
    let lead = if first {
        "★?"@
    } else {
        "? "@
    };
    let line = crate::canvas::blank_line().with(lead, crate::canvas::colored(Color::DarkGray));
    lemma_with(crate::canvas::blank_line(), lead, crate::canvas::colored(Color::DarkGray));
    lemma_with(line, path.shown_safely(), crate::canvas::plain_style());
    assert(crate::panel::unverified_row(path, first).lines[0] == line.with(
        path.shown_safely(),
        crate::canvas::plain_style(),
    ));
}

proof fn lemma_label(kind: ActionKind)
    ensures
        crate::text::inert(crate::model::action_label(kind)),
{
    reveal_strlit("DELETE");
    reveal_strlit("HARDLINK");
    reveal_strlit("REFLINK");
}

/// The review names the target of an action without a control character.
pub proof fn law_a_planned_action_is_inert(action: PlannedAction)
    ensures
        crate::text::inert(crate::review::action_text(action)),
{
    reveal_strlit("  ");
    reveal_strlit("   (");
    reveal_strlit(")");
    let label = crate::text::padded_right(crate::model::action_label(action.kind), 9);
    lemma_label(action.kind);
    lemma_padded(crate::model::action_label(action.kind), 9);
    lemma_path(action.target@, 0);
    lemma_size(action.size as nat);
    lemma_sum(label, "  "@);
    lemma_sum(label + "  "@, action.target@.shown_safely());
    lemma_sum(label + "  "@ + action.target@.shown_safely(), "   ("@);
    lemma_sum(
        label + "  "@ + action.target@.shown_safely() + "   ("@,
        crate::units::size_text(action.size as nat),
    );
    lemma_sum(
        label + "  "@ + action.target@.shown_safely() + "   ("@ + crate::units::size_text(
            action.size as nat,
        ),
        ")"@,
    );
}

/// The confirmation quotes a target without a control character.
pub proof fn law_a_quoted_target_is_inert(kind: ActionKind, target: PathView)
    ensures
        crate::text::inert(crate::overlay::sample_line(kind, target)),
{
    reveal_strlit("  ");
    reveal_strlit(" ");
    let label = crate::text::padded_right(crate::model::action_label(kind), 9);
    lemma_label(kind);
    lemma_padded(crate::model::action_label(kind), 9);
    lemma_path(target, 52);
    lemma_sum("  "@, label);
    lemma_sum("  "@ + label, " "@);
    lemma_sum("  "@ + label + " "@, crate::text::left_cut(target.shown_safely(), 52));
}

/// The comparison of scans lists a change without a control character, however it is cut.
pub proof fn law_a_change_is_inert(change: FileChange, width: int)
    ensures
        crate::text::inert(crate::scan_diff::change_words(change, width)),
{
    reveal_strlit("");
    reveal_strlit("  ← duplicate of: ");
    reveal_strlit(" → ");
    reveal_strlit(" (by content)");
    match change {
        FileChange::NewDupCandidate { path, peers_in_old } => {
            lemma_path(path@, width);
            let head = crate::scan_diff::listed(path@, width);
            lemma_sum(head, "  ← duplicate of: "@);
            if peers_in_old@.len() > 0 {
                lemma_path(peers_in_old@[0]@, 0);
                lemma_sum(head + "  ← duplicate of: "@, peers_in_old@[0]@.shown_safely());
            } else {
                lemma_sum(head + "  ← duplicate of: "@, ""@);
            }
        },
        FileChange::MovedByInode { from, to } => {
            lemma_moved(from@, to@, width);
        },
        FileChange::MovedByHash { from, to } => {
            lemma_moved(from@, to@, width);
            lemma_sum(
                crate::scan_diff::listed(from@, width) + " → "@ + crate::scan_diff::listed(
                    to@,
                    width,
                ),
                " (by content)"@,
            );
        },
        FileChange::Modified { old_path: _, new_path } => {
            lemma_path(new_path@, width);
        },
        FileChange::Deleted { path } => {
            lemma_path(path@, width);
        },
        FileChange::New { path } => {
            lemma_path(path@, width);
        },
    }
}

proof fn lemma_moved(from: PathView, to: PathView, width: int)
    ensures
        crate::text::inert(
            crate::scan_diff::listed(from, width) + " → "@ + crate::scan_diff::listed(to, width),
        ),
{
    reveal_strlit(" → ");
    lemma_path(from, width);
    lemma_path(to, width);
    lemma_sum(crate::scan_diff::listed(from, width), " → "@);
    lemma_sum(
        crate::scan_diff::listed(from, width) + " → "@,
        crate::scan_diff::listed(to, width),
    );
}

/// The roots of a saved scan are shown without a control character.
pub proof fn law_joined_paths_are_inert(paths: Seq<PathView>)
    ensures
        crate::text::inert(crate::wizard::joined(paths)),
    decreases paths.len(),
{
    reveal_strlit("");
    reveal_strlit(", ");
    if paths.len() == 1 {
        lemma_path(paths[0], 0);
    } else if paths.len() > 1 {
        law_joined_paths_are_inert(paths.drop_last());
        lemma_path(paths.last(), 0);
        lemma_sum(crate::wizard::joined(paths.drop_last()), ", "@);
        lemma_sum(
            crate::wizard::joined(paths.drop_last()) + ", "@,
            paths.last().shown_safely(),
        );
    }
}

/// The folder picker names a folder without a control character.
pub proof fn law_a_folder_is_inert(path: PathView)
    ensures
        crate::text::inert(crate::setup::folder_words(path)),
{
    reveal_strlit("/");
    lemma_path(path, 0);
    match path.file_name() {
        Some(name) => {
            crate::text::law_escaped_text_is_inert(crate::text::lossy_text(name));
            lemma_sum(crate::text::escaped(crate::text::lossy_text(name)), "/"@);
        },
        None => {
            lemma_sum(path.shown_safely(), "/"@);
        },
    }
}

/// The scan setup shows where a root is without a control character. (A dataset's label is not a
/// file name: it is taken as it comes.)
pub proof fn law_a_root_is_inert(root: Root)
    requires
        crate::text::inert(root.label@),
    ensures
        crate::text::inert(crate::setup::root_words(root)),
{
    reveal_strlit("[x]");
    reveal_strlit("[ ]");
    reveal_strlit("  ");
    reveal_strlit("   →  ");
    reveal_strlit("  [folder]  ");
    let mark = if root.selected {
        "[x]"@
    } else {
        "[ ]"@
    };
    lemma_path(root.path@, 0);
    lemma_sum(mark, "  "@);
    lemma_sum(mark + "  "@, root.label@);
    lemma_sum(mark + "  "@ + root.label@, "   →  "@);
    lemma_sum(mark + "  "@ + root.label@ + "   →  "@, root.path@.shown_safely());
    lemma_sum(mark, "  [folder]  "@);
    lemma_sum(mark + "  [folder]  "@, root.path@.shown_safely());
}

/// The path a scan is working on is shown without a control character, at any width.
pub proof fn law_the_current_path_is_inert(area: crate::canvas::Rect, path: PathView)
    ensures
        crate::progress::path_widget(area, path) matches WidgetModel::Text { lines, .. }
            && lines.len() == 1 && lines[0].inert(),
{
    reveal_strlit("  ");
    let width = if area.width > 2 {
        area.width - 2
    } else {
        0
    };
    lemma_path(path, width);
    let shown = crate::text::left_cut(path.shown_safely(), width);
    lemma_sum("  "@, shown);
    lemma_text_line("  "@ + shown, crate::canvas::plain_style());
}

/// The summary's line for an action that failed holds no control character, neither from its path
/// nor from the words of the failure.
pub proof fn law_a_failure_is_inert(lines: Seq<LineModel>, outcomes: Seq<ActionOutcome>)
    requires
        outcomes.len() > 0,
        outcomes.last().result is Err,
    ensures
        crate::summary::failure_lines(lines, outcomes).last().inert(),
{
    let o = outcomes.last();
    let message = o.result->Err_0;
    reveal_strlit("    ✗ ");
    reveal_strlit(" ");
    reveal_strlit(" — ");
    let label = crate::model::action_label(o.kind);
    let said = crate::text::escaped(message@);
    lemma_label(o.kind);
    lemma_path(o.target@, 0);
    crate::text::law_escaped_text_is_inert(message@);
    lemma_sum("    ✗ "@, label);
    lemma_sum("    ✗ "@ + label, " "@);
    lemma_sum("    ✗ "@ + label + " "@, o.target@.shown_safely());
    lemma_sum("    ✗ "@ + label + " "@ + o.target@.shown_safely(), " — "@);
    lemma_sum("    ✗ "@ + label + " "@ + o.target@.shown_safely() + " — "@, said);
    let text = "    ✗ "@ + label + " "@ + o.target@.shown_safely() + " — "@ + said;
    let line = crate::summary::over_line(text, crate::canvas::colored(Color::Red));
    assert(line.spans =~= seq![SpanModel { text, style: crate::canvas::plain_style() }]);
    assert(line.inert());
}

} // verus!
