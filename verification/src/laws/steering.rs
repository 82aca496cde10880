//! Keys, cursors and panels: what each key leads to and where it leaves the panels.

use vstd::prelude::*;

use crate::app::{AppModel, CommanderModel, EffectModel, Screen};
use crate::commander::Command;
use crate::entries::{EntryKind, EntryModel, Mark, PanelView, SortKey, Standing};
use crate::keys::{KeyCode, KeyEvent};
use crate::panels::PanelModel;
use crate::path::PathView;
use crate::state::{CompareMode, LoadTarget, Overlay};

verus! {

// ---------------------------------------------------------------------------------------------
// Keys.
// ---------------------------------------------------------------------------------------------
/// A key pressed outside the second layer, where rows are entries, runs the command that it stands
/// for and nothing else; the prefix arms the layer, and pressed again disarms it.
pub proof fn law_a_plain_key_runs_its_command(a: AppModel, code: KeyCode, b: AppModel)
    requires
        a.commander.triage is None,
        !a.commander.second_layer,
        a.commander.active_panel().view == PanelView::Files || a.commander.active_panel().view
            == PanelView::DirsOnly,
        crate::commander::key_dispatched(a, KeyEvent { code, shift: false }, b),
    ensures
        code != KeyCode::Char('`') ==> crate::commander::done(
            a,
            crate::commander::key_command(code),
            KeyEvent { code, shift: false },
            b,
        ),
        code == KeyCode::Char('`') ==> crate::commander::done(
            AppModel { commander: CommanderModel { second_layer: true, ..a.commander }, ..a },
            Command::Nothing,
            KeyEvent { code, shift: false },
            b,
        ),
{
    assert(crate::board_screen::layer_set(a, false) == a);
}

/// F1 is help, F2 a scan, F3 properties, F4 a hash, F5 to F8 the marks hardlink, reflink, keeper
/// and delete, F9 the menu, F10 the way out, F11 the plan, F12 the sessions; no other is anything.
pub proof fn law_each_function_key_has_its_command(n: u8)
    ensures
        ({
            let command = crate::commander::key_command(KeyCode::F(n));
            &&& command == Command::Help <==> n == 1
            &&& command == Command::Scan <==> n == 2
            &&& command == Command::Info <==> n == 3
            &&& command == Command::Hash <==> n == 4
            &&& command == Command::SetMark(Mark::Hardlink) <==> n == 5
            &&& command == Command::SetMark(Mark::Reflink) <==> n == 6
            &&& command == Command::SetMark(Mark::Keeper) <==> n == 7
            &&& command == Command::SetMark(Mark::Delete) <==> n == 8
            &&& command == Command::Menu <==> n == 9
            &&& command == Command::Quit <==> n == 10
            &&& command == Command::Execute <==> n == 11
            &&& command == Command::Sessions <==> n == 12
            &&& command == Command::Nothing <==> n == 0 || n > 12
        }),
{
}

/// `x` is the plan, `s` the sort, `v` the mode, `,` the comparison, `m` a move, `u` its undo, `o` a
/// jump, `q` the way out, `j` and `k` the cursor, a space the mark, `?` help; no other letter is
/// anything.
pub proof fn law_each_letter_has_its_command(c: char)
    ensures
        ({
            let command = crate::commander::key_command(KeyCode::Char(c));
            &&& command == Command::Help <==> c == '?'
            &&& command == Command::Execute <==> c == 'x' || c == 'X'
            &&& command == Command::ToggleMark <==> c == ' '
            &&& command == Command::Sort <==> c == 's' || c == 'S'
            &&& command == Command::CycleView <==> c == 'v' || c == 'V'
            &&& command == Command::Compare <==> c == ','
            &&& command == Command::BeginTriage <==> c == 'm' || c == 'M'
            &&& command == Command::Undo <==> c == 'u' || c == 'U'
            &&& command == Command::Quit <==> c == 'q' || c == 'Q'
            &&& command == Command::Cursor(1) <==> c == 'j'
            &&& command == Command::Cursor((-1) as i32) <==> c == 'k'
            &&& command == Command::Jump <==> c == 'o' || c == 'O'
            &&& !(command is SetMark) && !(command is Triage) && !(command is Shift)
            &&& command is Cursor ==> c == 'j' || c == 'k'
        }),
{
}

/// Arrows and pages move the cursor, Home and End take it past either end, Tab and the side arrows
/// move the focus, Enter goes in, Backspace up, Insert selects.
pub proof fn law_each_other_key_has_its_command(code: KeyCode)
    requires
        !(code is F),
        !(code is Char),
    ensures
        ({
            let command = crate::commander::key_command(code);
            &&& command == Command::Select <==> code == KeyCode::Insert
            &&& command == Command::FocusNext <==> code == KeyCode::Tab || code == KeyCode::Right
            &&& command == Command::FocusPrev <==> code == KeyCode::BackTab || code
                == KeyCode::Left
            &&& command == Command::Enter <==> code == KeyCode::Enter
            &&& command == Command::Parent <==> code == KeyCode::Backspace
            &&& command is Cursor ==> {
                let by = command->Cursor_0;
                &&& code == KeyCode::Up ==> by == -1
                &&& code == KeyCode::Down ==> by == 1
                &&& code == KeyCode::PageUp ==> by == -15
                &&& code == KeyCode::PageDown ==> by == 15
                &&& code == KeyCode::Home ==> by < -1_000_000_000
                &&& code == KeyCode::End ==> by > 1_000_000_000
            }
            &&& command is Cursor <==> code == KeyCode::Up || code == KeyCode::Down || code
                == KeyCode::PageUp || code == KeyCode::PageDown || code == KeyCode::Home || code
                == KeyCode::End
        }),
{
}

/// Each command does the work that it is called by, on the active panel and the row under its
/// cursor, and nothing else.
pub proof fn law_each_command_does_its_work(
    a: AppModel,
    command: Command,
    key: KeyEvent,
    b: AppModel,
)
    requires
        crate::commander::done(a, command, key, b),
    ensures
        match command {
            Command::Nothing => b == a,
            Command::Help => b == (AppModel { show_help: true, ..a }),
            Command::Quit => b == (AppModel { should_quit: true, ..a }),
            Command::Menu => b == a.with_overlay(Overlay::Menu { cursor: 0 }),
            Command::Sessions => b == a.send(EffectModel::OpenWizard(Screen::Resume)),
            Command::Scan => b == crate::scans::scan_started(a),
            Command::Info => crate::commander::info_asked(a, b),
            Command::Hash => b == crate::scans::hash_requested(a),
            Command::SetMark(mark) => b == crate::marks::cursor_marked(a, mark),
            Command::ToggleMark => b == crate::marks::mark_toggled(a),
            Command::Select => b == a.with_panel(
                a.commander.active as int,
                crate::marks::select_toggled(a.commander.active_panel()),
            ),
            Command::Execute => crate::actions::execution_prepared(a, b),
            Command::Sort => b == crate::navigate::sort_cycled(a),
            Command::CycleView => b == crate::navigate::view_cycled(a),
            Command::Compare => b == crate::navigate::compare_toggled(a),
            Command::BeginTriage => b == crate::triage::triage_begun(a),
            Command::Triage => b == crate::triage::triage_key(a, key),
            Command::Undo => b == crate::moves::undo_started(a),
            Command::Jump => b == crate::jump::jumped(a),
            Command::FocusNext => b == (AppModel {
                commander: crate::app::focused_next(a.commander),
                ..a
            }),
            Command::FocusPrev => b == (AppModel {
                commander: crate::app::focused_prev(a.commander),
                ..a
            }),
            Command::Cursor(by) => b == crate::navigate::cursor_moved(a, by as int),
            Command::Enter => b == crate::navigate::sent_to(
                a,
                a.commander.active as int,
                crate::navigate::enterable(a.commander.active_panel().selected()),
            ),
            Command::Parent => b == crate::navigate::sent_to(
                a,
                a.commander.active as int,
                a.commander.active_panel().cwd.parent(),
            ),
            Command::Shift(n) => b == crate::menu::shifted(a, n),
            Command::RowRefused => b == a.say(
                "Row commands need «files» or «directories» view (press v)"@,
            ),
        },
{
    reveal(crate::commander::done);
}

/// A scan is asked for of the active panel's directory alone.
pub proof fn law_f2_scans_the_active_directory(a: AppModel)
    ensures
        crate::scans::scan_started(a).outbox == a.outbox.push(
            EffectModel::Scan(seq![a.commander.panels[a.commander.active as int].cwd]),
        ),
        crate::scans::scan_started(a).commander.panels == a.commander.panels,
{
}

/// With Shift or behind the prefix a function key is one of the second layer, which is then
/// disarmed: F1 puts all panels in one directory, F2 compares, F3 adds a panel and F4 takes one
/// away, F5 changes the root, F6 measures a directory, F9 sets up a scan, F12 opens the Board, and
/// no other key does anything.
pub proof fn law_each_shifted_key_does_its_work(a: AppModel, n: u8, shift: bool)
    requires
        a.commander.triage is None,
        shift || a.commander.second_layer,
    ensures
        crate::commander::commanded(a.commander, KeyEvent { code: KeyCode::F(n), shift }) == (
            Command::Shift(n),
            false,
        ),
        n == 1 ==> crate::menu::shifted(a, n) == crate::compare::synced(a),
        n == 2 ==> crate::menu::shifted(a, n) == crate::compare::compared(a),
        n == 3 ==> crate::menu::shifted(a, n) == crate::menu::panel_added_to(a),
        n == 4 ==> crate::menu::shifted(a, n) == crate::menu::panel_removed_from(a),
        n == 5 ==> crate::menu::shifted(a, n) == crate::compare::root_changed(a),
        n == 6 ==> crate::menu::shifted(a, n) == crate::sizes::size_requested(a),
        n == 9 ==> crate::menu::shifted(a, n).outbox == a.outbox.push(
            EffectModel::OpenWizard(Screen::ScanConfig),
        ),
        n == 12 ==> crate::menu::shifted(a, n) == crate::board::board_toggled(a),
        n == 0 || n == 7 || n == 8 || n == 10 || n == 11 || n > 12 ==> crate::menu::shifted(a, n)
            == a,
{
    reveal(crate::menu::shifted);
}

/// Each item of the menu does what its label says.
pub proof fn law_each_menu_item_does_what_it_says(a: AppModel, index: int, b: AppModel)
    requires
        0 <= index < 14,
        crate::menu::action_done(a, crate::menu::menu_action(index), b),
    ensures
        ({
            let label = crate::menu::menu_label(index);
            let at = |i: int, text: Seq<char>| index == i ==> label == text;
            &&& at(0, "Scan the active panel's directory"@)
            &&& at(3, "Execute marked actions (F11 or x)"@)
            &&& at(4, "Clear all marks of the active panel"@)
            &&& at(8, "Compare panels (Shift+F2)"@)
            &&& index == 0 ==> b == crate::scans::scan_started(a)
            &&& index == 1 ==> b.outbox == a.outbox.push(
                EffectModel::OpenWizard(Screen::ScanConfig),
            )
            &&& index == 2 ==> b.outbox == a.outbox.push(EffectModel::OpenWizard(Screen::Resume))
            &&& index == 3 ==> crate::actions::execution_prepared(a, b)
            &&& index == 4 ==> b == crate::menu::marks_cleared(a)
            &&& index == 5 ==> b == crate::scans::dedup_reloaded(a)
            &&& index == 6 ==> b == crate::navigate::view_cycled(a)
            &&& index == 7 ==> b == crate::compare::synced(a)
            &&& index == 8 ==> b == crate::compare::compared(a)
            &&& index == 9 ==> b == crate::menu::panel_added_to(a)
            &&& index == 10 ==> b == crate::menu::panel_removed_from(a)
            &&& index == 11 ==> b == crate::compare::root_changed(a)
            &&& index == 12 ==> b == crate::sizes::size_requested(a)
            &&& index == 13 ==> b == (AppModel { show_help: true, ..a })
        }),
{
    reveal(crate::menu::action_done);
    reveal(crate::menu::shifted);
}

/// The menu's clearing takes every mark off the active panel, and off no other, and asks the store
/// for nothing.
pub proof fn law_clearing_marks_clears_one_panel(a: AppModel)
    requires
        a.valid(),
    ensures
        ({
            let b = crate::menu::marks_cleared(a);
            let i = a.commander.active as int;
            &&& b.commander.panels[i].marks.dom().is_empty()
            &&& b.commander.panels[i].entries == a.commander.panels[i].entries
            &&& b.outbox == a.outbox
            &&& forall|j: int|
                0 <= j < a.commander.panels.len() && j != i ==> (#[trigger] b.commander.panels[j])
                    == a.commander.panels[j]
        }),
{
}

// ---------------------------------------------------------------------------------------------
// Panels and focus.
// ---------------------------------------------------------------------------------------------
/// The focus steps to the next panel and from the last to the first, and back the other way;
/// nothing else changes.
pub proof fn law_the_focus_steps_by_one(c: CommanderModel)
    requires
        c.valid(),
    ensures
        crate::app::focused_next(c).active == (c.active + 1) % (c.panels.len() as int),
        crate::app::focused_prev(c).active == (c.active + c.panels.len() - 1) % (
        c.panels.len() as int),
        crate::app::focused_next(c).panels == c.panels,
        crate::app::focused_prev(c).panels == c.panels,
{
    let n = c.panels.len() as int;
    if n == 2 {
    } else if n == 3 {
    } else {
        assert(n == 4);
    }
}

/// A panel is added exactly where there are fewer than four and the window has 36 columns for each
/// of them and one more. It comes last, has the focus, shows the directory of the panel that had
/// it, carries no marks, and is read; the others stay as they are.
pub proof fn law_a_panel_is_added_where_it_fits(a: AppModel)
    requires
        a.valid(),
    ensures
        ({
            let b = crate::menu::panel_added_to(a);
            let n = a.commander.panels.len() as int;
            let fits = n < 4 && (n + 1) * 36 <= a.commander.term_width;
            &&& !fits ==> b.commander.panels == a.commander.panels && b.commander.active
                == a.commander.active && b.outbox == a.outbox
            &&& fits ==> {
                &&& b.commander.panels.len() == n + 1 && b.commander.active == n
                &&& b.commander.panels[n].cwd == a.commander.panels[a.commander.active as int].cwd
                &&& b.commander.panels[n].marks.dom().is_empty()
                &&& b.commander.panels[n].loading
                &&& b.outbox.len() == a.outbox.len() + 1 && b.outbox.drop_last() == a.outbox
                &&& b.outbox.last() matches EffectModel::LoadPanel(r) && r.dir
                    == b.commander.panels[n].cwd && r.generation
                    == b.commander.panels[n].generation && r.target == LoadTarget::Commander(
                    n as usize,
                )
                &&& forall|j: int|
                    0 <= j < n ==> (#[trigger] b.commander.panels[j]) == a.commander.panels[j]
            }
        }),
{
    let b = crate::menu::panel_added_to(a);
    if b.outbox.len() > a.outbox.len() {
        assert(b.outbox.drop_last() =~= a.outbox);
    }
}

/// The active panel is taken away where there are more than two; the others keep their order, and
/// the focus is on the one that took its place, or on the last.
pub proof fn law_the_active_panel_is_taken_away(a: AppModel)
    requires
        a.valid(),
    ensures
        ({
            let b = crate::menu::panel_removed_from(a);
            let n = a.commander.panels.len() as int;
            let i = a.commander.active as int;
            &&& n <= 2 ==> b.commander.panels == a.commander.panels && b.commander.active == i
            &&& n > 2 ==> {
                &&& b.commander.panels.len() == n - 1
                &&& forall|j: int|
                    0 <= j < n - 1 ==> (#[trigger] b.commander.panels[j]) == a.commander.panels[if j
                        < i {
                        j
                    } else {
                        j + 1
                    }]
                &&& b.commander.active == if i == n - 1 {
                    n - 2
                } else {
                    i
                }
            }
            &&& b.outbox == a.outbox
        }),
{
}

/// The cursor moves by as many rows as it is told, and stops at either end.
pub proof fn law_the_cursor_moves_and_stops(p: PanelModel, delta: int, len: int)
    requires
        0 < len <= usize::MAX,
        p.list.selected is Some,
    ensures
        ({
            let at = p.list.selected->Some_0 + delta;
            let q = p.move_cursor_within(delta, len);
            &&& 0 <= at < len ==> q.list.selected == Some(at as usize)
            &&& at < 0 ==> q.list.selected == Some(0usize)
            &&& at >= len ==> q.list.selected == Some((len - 1) as usize)
            &&& q.entries == p.entries && q.marks == p.marks && q.cwd == p.cwd
        }),
{
}

/// A cursor key moves the active panel's cursor over the rows that its mode shows: its entries,
/// the groups, or the rows of what it watches. Nothing else changes.
pub proof fn law_the_rows_are_those_of_the_mode(c: CommanderModel, index: int)
    requires
        0 <= index < c.panels.len(),
    ensures
        ({
            let p = c.panels[index];
            let n = crate::navigate::row_count(c, index);
            &&& p.view == PanelView::Files || p.view == PanelView::DirsOnly ==> n == p.entries.len()
            &&& p.view == PanelView::GroupList ==> n == c.group_summaries.len()
            &&& p.view == PanelView::DirGroupList ==> n == c.dir_group_summaries.len()
            &&& (p.view == PanelView::GroupFiles || p.view == PanelView::DuplicatesOfCursor)
                && index >= c.watch_cache.len() ==> n == 0
            &&& p.view == PanelView::DirGroupFiles && index >= c.watch_dir_cache.len() ==> n == 0
        }),
{
}

/// Enter goes into a directory, and up where the cursor is on `..`; on a file it goes nowhere.
pub proof fn law_enter_goes_into_directories(a: AppModel, at: int)
    requires
        a.valid(),
        0 <= at < a.commander.panels[a.commander.active as int].entries.len() <= usize::MAX,
        a.commander.panels[a.commander.active as int].list.selected == Some(at as usize),
    ensures
        ({
            let i = a.commander.active as int;
            let p = a.commander.panels[i];
            let b = crate::navigate::sent_to(a, i, crate::navigate::enterable(p.selected()));
            &&& p.entries[at].kind == EntryKind::File ==> b == a
            &&& p.entries[at].kind != EntryKind::File ==> b.commander.panels[i].cwd
                == p.entries[at].path && b.commander.panels[i].loading && b.outbox.len()
                == a.outbox.len() + 1 && (b.outbox.last() matches EffectModel::LoadPanel(r)
                && r.dir == p.entries[at].path && r.previous == Some(p.cwd) && r.target
                == LoadTarget::Commander(a.commander.active))
        }),
{
}

/// A listing is shown where it was asked for and nowhere else, and only while it is the one that
/// is waited for.
pub proof fn law_a_listing_goes_where_it_was_asked_for(
    a: AppModel,
    index: usize,
    generation: u64,
    entries: Seq<EntryModel>,
    previous: Option<PathView>,
)
    requires
        index < a.commander.panels.len(),
    ensures
        ({
            let b = crate::answers::listing_delivered(
                a,
                LoadTarget::Commander(index),
                generation,
                entries,
                previous,
            );
            let p = a.commander.panels[index as int];
            let q = b.commander.panels[index as int];
            &&& generation != p.generation ==> q == p
            &&& generation == p.generation ==> !q.loading && q.cwd == p.cwd && q.marks == p.marks
            &&& generation == p.generation && p.view != PanelView::DirsOnly ==> q.entries
                == crate::entries::sorted_list(entries, p.sort)
            &&& forall|j: int|
                0 <= j < a.commander.panels.len() && j != index ==> (
                #[trigger] b.commander.panels[j]) == a.commander.panels[j]
            &&& b.outbox == a.outbox
        }),
{
}

// ---------------------------------------------------------------------------------------------
// Sort and mode.
// ---------------------------------------------------------------------------------------------
/// The sort goes from name to size to type to date and round, the mode from files to directories,
/// groups, the files of a group, duplicates, directory groups and the directories of a group.
pub proof fn law_the_cycles_have_an_order()
    ensures
        crate::entries::next_sort(SortKey::Name) == SortKey::Size,
        crate::entries::next_sort(SortKey::Size) == SortKey::Type,
        crate::entries::next_sort(SortKey::Type) == SortKey::Date,
        crate::entries::next_sort(SortKey::Date) == SortKey::Name,
        crate::entries::next_view(PanelView::Files) == PanelView::DirsOnly,
        crate::entries::next_view(PanelView::DirsOnly) == PanelView::GroupList,
        crate::entries::next_view(PanelView::GroupList) == PanelView::GroupFiles,
        crate::entries::next_view(PanelView::GroupFiles) == PanelView::DuplicatesOfCursor,
        crate::entries::next_view(PanelView::DuplicatesOfCursor) == PanelView::DirGroupList,
        crate::entries::next_view(PanelView::DirGroupList) == PanelView::DirGroupFiles,
        crate::entries::next_view(PanelView::DirGroupFiles) == PanelView::Files,
{
}

/// Text is ordered by its first difference, the smaller character first, and a beginning before
/// what it begins.
pub proof fn law_text_is_ordered_by_its_first_difference(a: Seq<char>, b: Seq<char>, at: int)
    requires
        0 <= at <= a.len(),
        at <= b.len(),
        forall|i: int| 0 <= i < at ==> a[i] == b[i],
        at < a.len() && at < b.len() ==> a[at] != b[at],
        at < a.len() || at < b.len(),
    ensures
        crate::entries::text_order(a, b) == Standing::Before <==> at == a.len() || (at < b.len()
            && a[at] < b[at]),
        crate::entries::text_order(a, b) == Standing::After <==> at == b.len() || (at < a.len()
            && b[at] < a[at]),
    decreases at,
{
    if at > 0 {
        assert(a[0] == b[0]);
        let x = a.drop_first();
        let y = b.drop_first();
        assert forall|i: int| 0 <= i < at - 1 implies x[i] == y[i] by {
            assert(x[i] == a[i + 1] && y[i] == b[i + 1]);
        }
        if at < a.len() {
            assert(x[at - 1] == a[at]);
        }
        if at < b.len() {
            assert(y[at - 1] == b[at]);
        }
        law_text_is_ordered_by_its_first_difference(x, y, at - 1);
    }
}

/// A sorted panel has `..` on top, then directories, then files; among either, the larger first by
/// size, the newer first by date, by the name otherwise, and by the name where those are equal.
pub proof fn law_a_sorted_panel_is_in_order(
    list: Seq<EntryModel>,
    sort: SortKey,
    i: int,
    j: int,
)
    requires
        0 <= i < j < list.len(),
    ensures
        ({
            let sorted = crate::entries::sorted_list(list, sort);
            let (x, y) = (sorted[i], sorted[j]);
            &&& sorted.len() == list.len()
            &&& y.kind == EntryKind::Parent ==> x.kind == EntryKind::Parent
            &&& y.kind == EntryKind::Dir ==> x.kind != EntryKind::File
            &&& x.kind == y.kind && sort == SortKey::Size ==> x.size >= y.size
            &&& x.kind == y.kind && sort == SortKey::Date ==> x.mtime >= y.mtime
            &&& x.kind == y.kind && (sort == SortKey::Name || (sort == SortKey::Size && x.size
                == y.size) || (sort == SortKey::Date && x.mtime == y.mtime))
                ==> crate::entries::text_order(x.name, y.name) != Standing::After
            &&& x.kind == y.kind && sort == SortKey::Type ==> crate::entries::text_order(
                crate::entries::extension_key(x.name),
                crate::entries::extension_key(y.name),
            ) != Standing::After
            &&& x.kind == y.kind && sort == SortKey::Type && crate::entries::extension_key(x.name)
                == crate::entries::extension_key(y.name) ==> crate::entries::text_order(
                x.name,
                y.name,
            ) != Standing::After
        }),
{
    let sorted = crate::entries::sorted_list(list, sort);
    crate::entries::lemma_sorted_list_exists(list, sort);
    crate::entries::law_sorted_entries_are_in_order(list, sort, sorted, i, j);
    let (x, y) = (sorted[i], sorted[j]);
    lemma_level(crate::entries::extension_key(x.name));
}

proof fn lemma_level(t: Seq<char>)
    ensures
        crate::entries::text_order(t, t) == Standing::Level,
    decreases t.len(),
{
    if t.len() > 0 {
        lemma_level(t.drop_first());
    }
}

/// `s` sorts the active panel's own entries by the next key, says which, and keeps the marks.
pub proof fn law_s_sorts_by_the_next_key(a: AppModel)
    requires
        a.valid(),
    ensures
        ({
            let b = crate::navigate::sort_cycled(a);
            let i = a.commander.active as int;
            let (p, q) = (a.commander.panels[i], b.commander.panels[i]);
            &&& p.sort == SortKey::Name ==> q.sort == SortKey::Size && b.commander.status
                == "Sort: "@ + "size"@
            &&& p.sort == SortKey::Size ==> q.sort == SortKey::Type && b.commander.status
                == "Sort: "@ + "type"@
            &&& p.sort == SortKey::Type ==> q.sort == SortKey::Date && b.commander.status
                == "Sort: "@ + "date"@
            &&& p.sort == SortKey::Date ==> q.sort == SortKey::Name && b.commander.status
                == "Sort: "@ + "name"@
            &&& q.entries == crate::entries::sorted_list(p.entries, q.sort)
            &&& q.marks == p.marks && q.cwd == p.cwd && b.outbox == a.outbox
            &&& forall|j: int|
                0 <= j < a.commander.panels.len() && j != i ==> (#[trigger] b.commander.panels[j])
                    == a.commander.panels[j]
        }),
{
}

/// `v` puts the active panel in its next mode, and reads its directory again exactly where that
/// mode shows entries.
pub proof fn law_v_changes_the_mode(a: AppModel)
    requires
        a.valid(),
    ensures
        ({
            let b = crate::navigate::view_cycled(a);
            let i = a.commander.active as int;
            let (p, q) = (a.commander.panels[i], b.commander.panels[i]);
            &&& q.view == crate::entries::next_view(p.view)
            &&& q.cwd == p.cwd && q.marks == p.marks && q.list.selected is None
            &&& q.view == PanelView::Files || q.view == PanelView::DirsOnly ==> b.outbox.len()
                == a.outbox.len() + 1 && (b.outbox.last() matches EffectModel::LoadPanel(r)
                && r.dir == p.cwd && r.target == LoadTarget::Commander(a.commander.active))
            &&& !(q.view == PanelView::Files || q.view == PanelView::DirsOnly) ==> b.outbox
                == a.outbox
            &&& forall|j: int|
                0 <= j < a.commander.panels.len() && j != i ==> (#[trigger] b.commander.panels[j])
                    == a.commander.panels[j]
        }),
{
}

/// `,` switches the comparison on and off.
pub proof fn law_the_comparison_is_switched(a: AppModel)
    ensures
        (crate::navigate::compare_toggled(a).commander.compare_mode == CompareMode::Off) != (
        a.commander.compare_mode == CompareMode::Off),
        crate::navigate::compare_toggled(a).commander.panels == a.commander.panels,
        crate::navigate::compare_toggled(a).outbox == a.outbox,
{
}

// ---------------------------------------------------------------------------------------------
// The jump.
// ---------------------------------------------------------------------------------------------
/// `o` on a file of a group opens the directory that holds it in the panel on the right, in the
/// mode of files, and is to land on that very file.
pub proof fn law_o_opens_the_files_directory(a: AppModel, file: PathView, parent: PathView)
    requires
        a.valid(),
        a.commander.active + 1 < a.commander.panels.len(),
        crate::jump::jump_target(a.commander) == Ok::<(PathView, PathView), Seq<char>>(
            (file, parent),
        ),
    ensures
        file.parent() == Some(parent),
        ({
            let b = crate::jump::jumped(a);
            let dest = a.commander.active + 1;
            &&& b.commander.panels[dest].cwd == parent
            &&& b.commander.panels[dest].view == PanelView::Files
            &&& b.outbox.len() == a.outbox.len() + 1
            &&& b.outbox.last() matches EffectModel::LoadPanel(r) && r.dir == parent && r.previous
                == Some(file) && r.target == LoadTarget::Commander(dest as usize)
            &&& b.commander.pending_jump matches Some(j) && j.panel == dest && j.file == file
                && j.generation == b.commander.panels[dest].generation
            &&& b.commander.panels[a.commander.active as int]
                == a.commander.panels[a.commander.active as int]
        }),
{
}

/// The file that a jump leads to is the one on the cursor's row of the group that the active panel
/// shows; in any other mode there is none.
pub proof fn law_o_takes_the_row_under_the_cursor(c: CommanderModel, file: PathView, up: PathView)
    requires
        c.valid(),
        crate::jump::jump_target(c) == Ok::<(PathView, PathView), Seq<char>>((file, up)),
    ensures
        ({
            let p = c.panels[c.active as int];
            &&& p.view == PanelView::GroupFiles || p.view == PanelView::DuplicatesOfCursor
            &&& p.list.selected matches Some(row) && c.active < c.watch_cache.len() && (
            c.watch_cache[c.active as int].file_group() matches Some(group) && row
                < group.files@.len() && file == group.files@[row as int].path@)
        }),
{
}

// ---------------------------------------------------------------------------------------------
// Who gets a key.
// ---------------------------------------------------------------------------------------------
/// Esc stops a running auto-select before anything else; the Board takes the other keys while it
/// is shown, an open overlay while it is open, and only then a key does its own work.
pub proof fn law_the_topmost_takes_the_key(a: AppModel, key: KeyEvent, b: AppModel)
    requires
        crate::commander::commander_key(a, key, b),
    ensures
        a.auto_select && key.code == KeyCode::Esc ==> b.outbox == a.outbox.push(
            EffectModel::CancelAutoSelect,
        ) && b.commander == a.commander,
        !(a.auto_select && key.code == KeyCode::Esc) && a.commander.board_active ==> b
            == crate::board_screen::board_key(a, key),
        !(a.auto_select && key.code == KeyCode::Esc) && !a.commander.board_active
            && !(a.commander.overlay is Closed) ==> crate::commander::overlay_key(a, key, b),
        !(a.auto_select && key.code == KeyCode::Esc) && !a.commander.board_active
            && a.commander.overlay is Closed ==> crate::commander::key_dispatched(a, key, b),
{
}

/// In the menu the arrows move the cursor round the items, Enter closes it and does the item under
/// the cursor, Esc and F9 close it and do nothing.
pub proof fn law_the_menu_does_the_item_under_the_cursor(
    a: AppModel,
    key: KeyEvent,
    cursor: usize,
    b: AppModel,
)
    requires
        cursor < 14,
        a.commander.overlay == (Overlay::Menu { cursor }),
        crate::commander::overlay_key(a, key, b),
    ensures
        key.code == KeyCode::Down ==> b.commander.overlay == (Overlay::Menu {
            cursor: if cursor == 13 {
                0
            } else {
                (cursor + 1) as usize
            },
        }) && b.outbox == a.outbox,
        key.code == KeyCode::Up ==> b.commander.overlay == (Overlay::Menu {
            cursor: if cursor == 0 {
                13
            } else {
                (cursor - 1) as usize
            },
        }) && b.outbox == a.outbox,
        key.code == KeyCode::Esc || key.code == KeyCode::F(9) ==> b.commander.overlay is Closed
            && b.outbox == a.outbox && b.commander.panels == a.commander.panels,
        key.code == KeyCode::Enter ==> crate::menu::action_done(
            AppModel {
                commander: CommanderModel { overlay: Overlay::Closed, ..a.commander },
                ..a
            },
            crate::menu::menu_action(cursor as int),
            b,
        ),
{
}

/// The properties are closed by Esc, F3 and Enter, and by nothing else.
pub proof fn law_the_properties_are_closed(a: AppModel, key: KeyEvent, b: AppModel)
    requires
        a.commander.overlay is FileInfo,
        crate::commander::overlay_key(a, key, b),
    ensures
        key.code == KeyCode::Esc || key.code == KeyCode::F(3) || key.code == KeyCode::Enter
            ==> b.commander.overlay is Closed,
        !(key.code == KeyCode::Esc || key.code == KeyCode::F(3) || key.code == KeyCode::Enter)
            ==> b == a,
        b.outbox == a.outbox,
{
}

/// The questions of a plan and of a scan are answered by the keys of those questions.
pub proof fn law_a_question_takes_its_own_keys(a: AppModel, key: KeyEvent, b: AppModel)
    requires
        crate::commander::overlay_key(a, key, b),
    ensures
        a.commander.overlay is Confirm ==> crate::confirm::confirm_key(a, key, b),
        a.commander.overlay is ResumeScan ==> b == crate::confirm::resume_key(a, key),
{
}

/// Where rows are not entries, the keys that work on a row (properties, hash, the four marks, the
/// space, `m`, Insert and Enter) do nothing but say so.
pub proof fn law_no_entry_no_row_command(a: AppModel, code: KeyCode, b: AppModel)
    requires
        a.commander.triage is None,
        !a.commander.second_layer,
        a.commander.active_panel().view != PanelView::Files,
        a.commander.active_panel().view != PanelView::DirsOnly,
        code == KeyCode::F(3) || code == KeyCode::F(4) || code == KeyCode::F(5) || code
            == KeyCode::F(6) || code == KeyCode::F(7) || code == KeyCode::F(8) || code
            == KeyCode::Char(' ') || code == KeyCode::Char('m') || code == KeyCode::Char('M')
            || code == KeyCode::Insert || code == KeyCode::Enter,
        crate::commander::key_dispatched(a, KeyEvent { code, shift: false }, b),
    ensures
        b.commander.panels == a.commander.panels,
        b.outbox == a.outbox,
        b.commander.triage is None,
        b.commander.status == "Row commands need «files» or «directories» view (press v)"@,
{
    crate::commander::law_row_commands_need_rows(a, KeyEvent { code, shift: false }, b);
}

} // verus!
