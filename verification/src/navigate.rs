//! Moving the commander's panels about the filesystem.

use vstd::prelude::*;

use crate::app::{App, AppModel, CommanderModel, Effect, EffectModel};
use crate::browser::group_rows;
use crate::entries::{sort_entries, EntryModel, PanelView};
use crate::keys::view_exposes_entries;
use crate::panels::{find_path, Panel, PanelModel};
use crate::path::{FilePath, PathView};
use crate::state::{
    BoardModel, BoardState, CompareMode, LoadModel, LoadTarget, PanelLoadRequest, WatchResult,
};

verus! {

// ---------------------------------------------------------------------------------------------
// Reading a directory.
// ---------------------------------------------------------------------------------------------
/// The next navigation number.
pub open spec fn next_generation(generation: u64) -> u64 {
    if generation == u64::MAX {
        0
    } else {
        (generation + 1) as u64
    }
}

/// A panel whose directory is about to be read anew.
pub open spec fn awaiting(p: PanelModel) -> PanelModel {
    PanelModel { loading: true, generation: next_generation(p.generation), ..p }
}

/// A panel moved to another directory, of which nothing is known yet.
pub open spec fn moved_to(p: PanelModel, dir: PathView) -> PanelModel {
    PanelModel {
        cwd: dir,
        entries: Seq::empty(),
        list: crate::canvas::list_selected(p.list, None),
        ..p
    }
}

/// The request to read a panel's directory.
pub open spec fn reading(target: LoadTarget, p: PanelModel, previous: Option<PathView>) -> LoadModel {
    LoadModel { target, generation: p.generation, dir: p.cwd, previous }
}

/// The path of the entry under the cursor.
pub open spec fn cursor_path(p: PanelModel) -> Option<PathView> {
    match p.selected() {
        Some(entry) => Some(entry.path),
        None => None,
    }
}

fn path_under_cursor(panel: &Panel) -> (r: Option<FilePath>)
    ensures
        crate::panels::path_model(r) == cursor_path(panel@),
{
    match panel.selected() {
        Some(entry) => Some(entry.path.copy()),
        None => None,
    }
}

/// Marks a panel as waiting for its directory and says what to read.
pub fn start_reading(panel: &mut Panel, target: LoadTarget, previous: Option<FilePath>) -> (r:
    PanelLoadRequest)
    ensures
        final(panel)@ == awaiting(old(panel)@),
        r@ == reading(target, final(panel)@, crate::panels::path_model(previous)),
{
    panel.loading = true;
    panel.generation = if panel.generation == u64::MAX {
        0
    } else {
        panel.generation + 1
    };
    PanelLoadRequest { target, generation: panel.generation, dir: panel.cwd.copy(), previous }
}

/// A commander panel sent to another directory: its old content is gone at once, the new one is
/// asked for, and the cursor is to land on `previous`.
pub open spec fn navigated(a: AppModel, index: int, dir: PathView, previous: PathView) -> AppModel {
    let p = awaiting(moved_to(a.commander.panels[index], dir));
    a.with_panel(index, p).send(
        EffectModel::LoadPanel(reading(LoadTarget::Commander(index as usize), p, Some(previous))),
    )
}

/// Navigates panel `index` to the directory `target`: reading happens in the background, the
/// panel is marked «loading…», a result stale by its number is discarded. The cursor lands where
/// the panel came from.
pub fn navigate_panel(app: &mut App, index: usize, target: FilePath)
    requires
        index < old(app)@.commander.panels.len(),
    ensures
        final(app)@ == navigated(
            old(app)@,
            index as int,
            target@,
            old(app)@.commander.panels[index as int].cwd,
        ),
{
    let previous = app.commander.panels[index].cwd.copy();
    navigate_panel_with_cursor(app, index, target, previous);
}

/// The same with the cursor landing on `cursor_file` after loading.
pub fn navigate_panel_with_cursor(
    app: &mut App,
    index: usize,
    target_dir: FilePath,
    cursor_file: FilePath,
)
    requires
        index < old(app)@.commander.panels.len(),
    ensures
        final(app)@ == navigated(old(app)@, index as int, target_dir@, cursor_file@),
{
    let ghost p = app@.commander.panels[index as int];
    let panel = app.commander.panel_mut(index);
    panel.cwd = target_dir;
    panel.entries = Vec::new();
    panel.list.select(None);
    assert(panel@.entries =~= moved_to(p, target_dir@).entries);
    let request = start_reading(panel, LoadTarget::Commander(index), Some(cursor_file));
    app.send(Effect::LoadPanel(request));
}

/// A Board with one of its panels asked for again.
pub open spec fn board_awaiting(board: BoardModel, target: LoadTarget) -> BoardModel {
    match target {
        LoadTarget::BoardReceiver(i) => if i < board.receivers.len() {
            BoardModel {
                receivers: board.receivers.update(i as int, awaiting(board.receivers[i as int])),
                ..board
            }
        } else {
            board
        },
        LoadTarget::BoardSource => BoardModel { source: awaiting(board.source), ..board },
        LoadTarget::Commander(_) => board,
    }
}

/// The panel of a Board at an address.
pub open spec fn board_panel(board: BoardModel, target: LoadTarget) -> Option<PanelModel> {
    match target {
        LoadTarget::BoardReceiver(i) => if i < board.receivers.len() {
            Some(board.receivers[i as int])
        } else {
            None
        },
        LoadTarget::BoardSource => Some(board.source),
        LoadTarget::Commander(_) => None,
    }
}

/// A panel asked for again, the cursor to land on `keep` or to stay where it is.
pub open spec fn reloaded(a: AppModel, target: LoadTarget, keep: Option<PathView>) -> AppModel {
    match target {
        LoadTarget::Commander(i) => if i < a.commander.panels.len() {
            let p = a.commander.panels[i as int];
            a.with_panel(i as int, awaiting(p)).send(reread_effect(target, p, keep))
        } else {
            a
        },
        _ => match a.commander.board {
            Some(board) => match board_panel(board, target) {
                Some(p) => a.with_board(Some(board_awaiting(board, target))).send(
                    reread_effect(target, p, keep),
                ),
                None => a,
            },
            None => a,
        },
    }
}

/// The request to read a panel's directory again.
pub open spec fn reread_effect(target: LoadTarget, p: PanelModel, keep: Option<PathView>) -> EffectModel {
    EffectModel::LoadPanel(reading(target, awaiting(p), landing_path(p, keep)))
}

/// Where the cursor is to land.
pub open spec fn landing_path(p: PanelModel, keep: Option<PathView>) -> Option<PathView> {
    match keep {
        Some(path) => Some(path),
        None => cursor_path(p),
    }
}

fn reread(panel: &mut Panel, target: LoadTarget, keep: Option<FilePath>) -> (r: Effect)
    ensures
        final(panel)@ == awaiting(old(panel)@),
        r@ == reread_effect(target, old(panel)@, crate::panels::path_model(keep)),
{
    let previous = match keep {
        Some(path) => Some(path),
        None => path_under_cursor(panel),
    };
    Effect::LoadPanel(start_reading(panel, target, previous))
}

fn reread_receiver(board: &mut BoardState, i: usize, keep: Option<FilePath>) -> (r: Effect)
    requires
        i < old(board)@.receivers.len(),
    ensures
        final(board)@ == (BoardModel {
            receivers: old(board)@.receivers.update(
                i as int,
                awaiting(old(board)@.receivers[i as int]),
            ),
            ..old(board)@
        }),
        r@ == reread_effect(
            LoadTarget::BoardReceiver(i),
            old(board)@.receivers[i as int],
            crate::panels::path_model(keep),
        ),
{
    let ghost b = board@;
    let panel = &mut board.receivers[i];
    let effect = reread(panel, LoadTarget::BoardReceiver(i), keep);
    assert(board@.receivers =~= b.receivers.update(i as int, awaiting(b.receivers[i as int])));
    effect
}

fn reload_commander(app: &mut App, i: usize, keep: Option<FilePath>)
    requires
        i < old(app)@.commander.panels.len(),
    ensures
        final(app)@ == reloaded(
            old(app)@,
            LoadTarget::Commander(i),
            crate::panels::path_model(keep),
        ),
{
    let effect = reread(app.commander.panel_mut(i), LoadTarget::Commander(i), keep);
    app.send(effect);
}

fn board_has(board: &BoardState, target: LoadTarget) -> (r: bool)
    ensures
        r == (board_panel(board@, target) is Some),
{
    match target {
        LoadTarget::BoardReceiver(i) => i < board.receivers.len(),
        LoadTarget::BoardSource => true,
        LoadTarget::Commander(_) => false,
    }
}

fn reread_board(board: &mut BoardState, target: LoadTarget, keep: Option<FilePath>) -> (r: Effect)
    requires
        board_panel(old(board)@, target) is Some,
    ensures
        final(board)@ == board_awaiting(old(board)@, target),
        r@ == reread_effect(
            target,
            board_panel(old(board)@, target).unwrap(),
            crate::panels::path_model(keep),
        ),
{
    match target {
        LoadTarget::BoardReceiver(i) => reread_receiver(board, i, keep),
        _ => reread(&mut board.source, target, keep),
    }
}

fn reload_board(app: &mut App, target: LoadTarget, keep: Option<FilePath>)
    requires
        !(target is Commander),
    ensures
        final(app)@ == reloaded(old(app)@, target, crate::panels::path_model(keep)),
{
    let known = match &app.commander.board {
        Some(board) => board_has(board, target),
        None => false,
    };
    if !known {
        return;
    }
    match app.take_board() {
        Some(mut board) => {
            let effect = reread_board(&mut board, target, keep);
            app.put_board(board);
            app.send(effect);
        },
        None => {},
    }
}

/// Re-reads a panel (commander or Board) by its target in the background, placing the cursor on
/// `keep`, otherwise preserving the current position.
pub fn reload_target(app: &mut App, target: LoadTarget, keep: Option<FilePath>)
    ensures
        final(app)@ == reloaded(old(app)@, target, crate::panels::path_model(keep)),
{
    match target {
        LoadTarget::Commander(i) => {
            if i < app.commander.panels.len() {
                reload_commander(app, i, keep);
            }
        },
        _ => reload_board(app, target, keep),
    }
}

/// Re-reads panel `index`'s directory in the background, preserving the cursor position.
pub fn reload_panel(app: &mut App, index: usize)
    ensures
        final(app)@ == reloaded(old(app)@, LoadTarget::Commander(index), None),
{
    reload_target(app, LoadTarget::Commander(index), None);
}

/// A panel that was sent elsewhere takes no notice of an answer to an earlier request: only the
/// answer with its current number is let in.
pub proof fn law_stale_answers_are_discarded(
    p: PanelModel,
    entries: Seq<EntryModel>,
    previous: Option<PathView>,
)
    ensures
        awaiting(p).generation != p.generation,
        crate::panels::panel_load(awaiting(p), p.generation, entries, previous) == awaiting(p),
{
}

/// The directory that entering an entry leads to.
pub open spec fn enterable(entry: Option<EntryModel>) -> Option<PathView> {
    match entry {
        Some(e) => if e.is_dir() {
            Some(e.path)
        } else {
            None
        },
        None => None,
    }
}

/// A panel sent to a directory, if there is one to go to.
pub open spec fn sent_to(a: AppModel, index: int, dir: Option<PathView>) -> AppModel {
    match dir {
        Some(path) => navigated(a, index, path, a.commander.panels[index].cwd),
        None => a,
    }
}

/// Double-click on entry of panel `index`: enters the directory under the entry (for the `..`
/// entry — goes up a level). On a file — nothing, and nothing in a view that shows no entries.
pub fn open_panel_entry(app: &mut App, index: usize, entry: usize)
    requires
        index < old(app)@.commander.panels.len(),
    ensures
        final(app)@ == opened_entry(old(app)@, index as int, entry),
{
    if !view_exposes_entries(app.commander.panels[index].view) {
        return;
    }
    let panel = &app.commander.panels[index];
    if entry >= panel.entries.len() || !panel.entries[entry].is_dir() {
        return;
    }
    let target = panel.entries[entry].path.copy();
    navigate_panel(app, index, target);
}

/// An entry opened by a double click.
pub open spec fn opened_entry(a: AppModel, index: int, entry: usize) -> AppModel {
    let p = a.commander.panels[index];
    if crate::panel::shows_entries(p.view) && entry < p.entries.len() {
        sent_to(a, index, enterable(Some(p.entries[entry as int])))
    } else {
        a
    }
}

/// Enter: enters the directory under the cursor.
pub fn enter_selected(app: &mut App)
    requires
        old(app)@.valid(),
    ensures
        final(app)@ == sent_to(
            old(app)@,
            old(app)@.commander.active as int,
            enterable(old(app)@.commander.active_panel().selected()),
        ),
{
    let index: usize = app.commander.active;
    let target = match app.commander.active_panel().selected() {
        Some(entry) => {
            if !entry.is_dir() {
                return;
            }
            entry.path.copy()
        },
        None => {
            return;
        },
    };
    navigate_panel(app, index, target);
}

/// Backspace: navigates to the parent directory.
pub fn go_parent(app: &mut App)
    requires
        old(app)@.valid(),
    ensures
        final(app)@ == sent_to(
            old(app)@,
            old(app)@.commander.active as int,
            old(app)@.commander.active_panel().cwd.parent(),
        ),
{
    let index: usize = app.commander.active;
    match app.commander.active_panel().cwd.parent() {
        Some(parent) => navigate_panel(app, index, parent),
        None => {},
    }
}

// ---------------------------------------------------------------------------------------------
// Cursor, sort, mode.
// ---------------------------------------------------------------------------------------------
/// A panel sorted by the next key, the cursor on the entry it was on.
pub open spec fn resorted(p: PanelModel) -> PanelModel {
    let sort = crate::entries::next_sort(p.sort);
    let entries = crate::entries::sorted_list(p.entries, sort);
    let q = PanelModel { sort, entries, ..p };
    match cursor_path(p) {
        Some(path) => {
            let at = crate::panels::position_of(entries, path);
            if at < entries.len() {
                q.select(at)
            } else {
                q
            }
        },
        None => q,
    }
}

fn resort(panel: &mut Panel)
    ensures
        final(panel)@ == resorted(old(panel)@),
{
    let ghost p = panel@;
    let current = path_under_cursor(panel);
    panel.sort = panel.sort.next();
    sort_entries(&mut panel.entries, panel.sort);
    match current {
        Some(path) => {
            match find_path(&panel.entries, &path) {
                Some(at) => panel.select(at),
                None => {},
            }
        },
        None => {},
    }
}

/// Key `s`: cycles the active panel's sort key.
pub fn cycle_sort(app: &mut App)
    requires
        old(app)@.valid(),
    ensures
        final(app)@ == sort_cycled(old(app)@),
        final(app)@.valid(),
{
    resort(app.commander.active_panel_mut());
    let mut status = "Sort: ".to_string();
    status.push_str(app.commander.active_panel().sort.label());
    app.say(status);
}

/// The active panel sorted by the next key.
pub open spec fn sort_cycled(a: AppModel) -> AppModel {
    let p = resorted(a.commander.active_panel());
    a.with_panel(a.commander.active as int, p).say("Sort: "@ + crate::entries::sort_label(p.sort))
}

/// Terminal rows one entry of a panel occupies at this panel width.
pub open spec fn entry_height(view: PanelView, width: u16) -> u16 {
    if view == PanelView::GroupList {
        crate::browser::rows_of_group(width) as u16
    } else {
        1
    }
}

/// Terminal rows one entry of a panel occupies at this panel width. Only the file-group list is
/// taller than a row: its reclaim claim gets lines of its own so the qualifier and its number
/// cannot be cut off.
pub fn rows_per_entry(view: PanelView, width: u16) -> (r: u16)
    ensures
        r == entry_height(view, width),
        r >= 1,
{
    match view {
        PanelView::GroupList => group_rows(width),
        _ => 1,
    }
}

/// How many rows an answer has.
pub open spec fn answer_rows(result: Option<WatchResult>) -> nat {
    match result {
        Some(WatchResult::FileGroup(group, _)) => group.files@.len(),
        Some(WatchResult::DirGroup(open)) => open.group.paths@.len(),
        Some(WatchResult::InnerDupes { paths, .. }) => paths@.len(),
        Some(WatchResult::InnerCandidates { paths, .. }) => paths@.len(),
        None => 0,
    }
}

/// Length of a panel's navigable list — depends on its mode.
pub open spec fn row_count(c: CommanderModel, index: int) -> nat {
    let p = c.panels[index];
    match p.view {
        PanelView::Files => p.entries.len(),
        PanelView::DirsOnly => p.entries.len(),
        PanelView::GroupList => c.group_summaries.len(),
        PanelView::GroupFiles => if index < c.watch_cache.len() {
            match c.watch_cache[index].file_group() {
                Some(group) => group.files@.len(),
                None => 0,
            }
        } else {
            0
        },
        PanelView::DuplicatesOfCursor => if index < c.watch_cache.len() {
            answer_rows(c.watch_cache[index].result)
        } else {
            0
        },
        PanelView::DirGroupList => c.dir_group_summaries.len(),
        PanelView::DirGroupFiles => if index < c.watch_dir_cache.len() {
            match c.watch_dir_cache[index] {
                Some(open) => open.group.paths@.len(),
                None => 0,
            }
        } else {
            0
        },
    }
}

fn rows_of_answer(result: &Option<WatchResult>) -> (r: usize)
    ensures
        r == answer_rows(*result),
{
    match result {
        Some(WatchResult::FileGroup(group, _)) => group.files.len(),
        Some(WatchResult::DirGroup(open)) => open.group.paths.len(),
        Some(WatchResult::InnerDupes { paths, .. }) => paths.len(),
        Some(WatchResult::InnerCandidates { paths, .. }) => paths.len(),
        None => 0,
    }
}

/// Length of panel `index`'s navigable list — depends on its mode.
pub fn panel_row_count(app: &App, index: usize) -> (r: usize)
    requires
        index < app@.commander.panels.len(),
    ensures
        r == row_count(app@.commander, index as int),
{
    let c = &app.commander;
    match c.panels[index].view {
        PanelView::Files => c.panels[index].entries.len(),
        PanelView::DirsOnly => c.panels[index].entries.len(),
        PanelView::GroupList => c.group_summaries.len(),
        PanelView::GroupFiles => {
            if index < c.watch_cache.len() {
                match c.watch_cache[index].as_file_group() {
                    Some(group) => group.files.len(),
                    None => 0,
                }
            } else {
                0
            }
        },
        PanelView::DuplicatesOfCursor => {
            if index < c.watch_cache.len() {
                rows_of_answer(&c.watch_cache[index].result)
            } else {
                0
            }
        },
        PanelView::DirGroupList => c.dir_group_summaries.len(),
        PanelView::DirGroupFiles => {
            if index < c.watch_dir_cache.len() {
                match &c.watch_dir_cache[index] {
                    Some(open) => open.group.paths.len(),
                    None => 0,
                }
            } else {
                0
            }
        },
    }
}

/// The active panel's cursor moved, within what its mode shows.
pub open spec fn cursor_moved(a: AppModel, delta: int) -> AppModel {
    let index = a.commander.active as int;
    a.with_panel(
        index,
        a.commander.active_panel().move_cursor_within(delta, row_count(a.commander, index) as int),
    )
}

/// Shifts the active panel's cursor, accounting for its mode.
pub fn move_active_cursor(app: &mut App, delta: i32)
    requires
        old(app)@.valid(),
    ensures
        final(app)@ == cursor_moved(old(app)@, delta as int),
        final(app)@.valid(),
{
    let index: usize = app.commander.active;
    let len: usize = panel_row_count(app, index);
    let panel = app.commander.active_panel_mut();
    panel.move_cursor_within(delta, len);
}

/// What a mode needs beside it.
pub open spec fn view_hint(view: PanelView) -> Seq<char> {
    match view {
        PanelView::DuplicatesOfCursor =>
            " · needs «files» or «directories» on the left with the cursor · o — file's directory"@,
        PanelView::GroupFiles =>
            " · needs «groups» on the left · o — file's directory in the adjacent panel"@,
        PanelView::DirGroupFiles => " · needs «directory groups» on the left"@,
        _ => ""@,
    }
}

/// The active panel in its next mode; a mode of entries has its directory read again.
pub open spec fn view_cycled(a: AppModel) -> AppModel {
    let p = a.commander.active_panel();
    let view = crate::entries::next_view(p.view);
    let b = a.with_panel(
        a.commander.active as int,
        PanelModel { view, list: crate::canvas::list_selected(p.list, None), ..p },
    ).say("Panel mode: "@ + crate::entries::view_label(view) + view_hint(view));
    if crate::panel::shows_entries(view) {
        reloaded(b, LoadTarget::Commander(a.commander.active), None)
    } else {
        b
    }
}

fn view_status(view: PanelView) -> (r: String)
    ensures
        r@ == "Panel mode: "@ + crate::entries::view_label(view) + view_hint(view),
{
    let hint: &str = match view {
        PanelView::DuplicatesOfCursor =>
            " · needs «files» or «directories» on the left with the cursor · o — file's directory",
        PanelView::GroupFiles =>
            " · needs «groups» on the left · o — file's directory in the adjacent panel",
        PanelView::DirGroupFiles => " · needs «directory groups» on the left",
        _ => "",
    };
    let mut status = "Panel mode: ".to_string();
    status.push_str(view.label());
    status.push_str(hint);
    status
}

fn step_view(panel: &mut Panel) -> (r: PanelView)
    ensures
        r == crate::entries::next_view(old(panel)@.view),
        final(panel)@ == (PanelModel {
            view: r,
            list: crate::canvas::list_selected(old(panel)@.list, None),
            ..old(panel)@
        }),
{
    panel.view = panel.view.next();
    panel.list.select(None);
    panel.view
}

/// Key `v`: cycles the active panel's mode.
pub fn cycle_view(app: &mut App)
    requires
        old(app)@.valid(),
    ensures
        final(app)@ == view_cycled(old(app)@),
        final(app)@.valid(),
{
    let index: usize = app.commander.active;
    let view = step_view(app.commander.active_panel_mut());
    app.say(view_status(view));
    if view_exposes_entries(view) {
        reload_panel(app, index);
    }
}

/// Side-by-side comparison switched over.
pub open spec fn compare_toggled(a: AppModel) -> AppModel {
    let mode = if a.commander.compare_mode == CompareMode::Off {
        CompareMode::SideBySide
    } else {
        CompareMode::Off
    };
    AppModel { commander: CommanderModel { compare_mode: mode, ..a.commander }, ..a }.say(
        if mode == CompareMode::SideBySide {
            "Panel comparison: on (= identical · ≈ similar · ~ differs · + only here)"@
        } else {
            "Panel comparison: off"@
        },
    )
}

/// Key `,`: toggles side-by-side comparison of adjacent panels.
pub fn toggle_compare(app: &mut App)
    ensures
        final(app)@ == compare_toggled(old(app)@),
{
    match app.commander.compare_mode {
        CompareMode::Off => {
            app.commander.compare_mode = CompareMode::SideBySide;
            app.say_str("Panel comparison: on (= identical · ≈ similar · ~ differs · + only here)");
        },
        CompareMode::SideBySide => {
            app.commander.compare_mode = CompareMode::Off;
            app.say_str("Panel comparison: off");
        },
    }
}

} // verus!
