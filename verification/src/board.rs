//! Triage Board — a separate five-panel screen for manual file layout.
//!
//! Centre — source, 4 receivers in the corners with labels 1–4. The commander's panels are not
//! touched: the Board is drawn on top of them and intercepts input while it is active. Focus
//! cycles across all 5 panels; navigation and moves act on the focused one. A digit 1–4 sends the
//! file under the cursor (or the selected batch) from the focused panel to that receiver.

use vstd::prelude::*;

use crate::app::{
    App, AppModel, CommanderModel, CommanderState, Effect, EffectModel, Receiver, SaveNotice,
};
use crate::marks::toggle_selection;
use crate::moves::{affected_of, apply_undo};
use crate::navigate::{reload_target, start_reading};
use crate::panels::{Panel, PanelModel};
use crate::path::{FilePath, PathView};
use crate::sizes::{invalidate_dir_sizes, push_path};
use crate::state::{BoardModel, BoardState, LoadTarget, TriageModel, TriagePending};
use crate::text::push_usize;
use crate::triage::{collect_source_batch, copy_paths, drop_marks, next_survivor, spawn_move};

verus! {

// ---------------------------------------------------------------------------------------------
// Slots.
// ---------------------------------------------------------------------------------------------
impl BoardModel {
    /// The panel of a focus slot: the source, or a receiver.
    pub open spec fn slot(self, focus: int) -> PanelModel {
        if focus == 0 {
            self.source
        } else {
            self.receivers[focus - 1]
        }
    }

    /// The Board with the panel of a slot replaced.
    pub open spec fn with_slot(self, focus: int, panel: PanelModel) -> BoardModel {
        if focus == 0 {
            BoardModel { source: panel, ..self }
        } else {
            BoardModel { receivers: self.receivers.update(focus - 1, panel), ..self }
        }
    }
}

impl BoardState {
    /// The panel of slot `focus` (0 — source, 1–4 — receivers).
    pub fn slot(&self, focus: usize) -> (r: &Panel)
        requires
            self@.valid(),
            focus <= 4,
        ensures
            r@ == self@.slot(focus as int),
    {
        if focus == 0 {
            &self.source
        } else {
            &self.receivers[focus - 1]
        }
    }

    /// The panel of slot `focus`, to work on it.
    pub fn slot_mut(&mut self, focus: usize) -> (r: &mut Panel)
        requires
            old(self)@.valid(),
            focus <= 4,
        ensures
            r@ == old(self)@.slot(focus as int),
            final(self)@ == old(self)@.with_slot(focus as int, final(r)@),
    {
        if focus == 0 {
            &mut self.source
        } else {
            proof {
                crate::app::lemma_one_panel_replaced(self.receivers@, focus - 1);
            }
            &mut self.receivers[focus - 1]
        }
    }
}

/// Where the background load of a focus slot goes.
pub open spec fn slot_target(focus: usize) -> LoadTarget {
    if focus == 0 {
        LoadTarget::BoardSource
    } else {
        LoadTarget::BoardReceiver((focus - 1) as usize)
    }
}

/// Background-load target for the focus slot.
pub fn focus_target(focus: usize) -> (r: LoadTarget)
    ensures
        r == slot_target(focus),
{
    if focus == 0 {
        LoadTarget::BoardSource
    } else {
        LoadTarget::BoardReceiver(focus - 1)
    }
}

/// The current focus slot.
pub open spec fn focus_of(c: CommanderModel) -> usize {
    match c.board {
        Some(board) => board.focus,
        None => 0,
    }
}

/// Current focus slot (0 — source, 1–4 — receivers).
pub fn current_focus(app: &App) -> (r: usize)
    ensures
        r == focus_of(app@.commander),
{
    match &app.commander.board {
        Some(board) => board.focus,
        None => 0,
    }
}

/// The application with the panel of the focused slot replaced.
pub open spec fn refocused(a: AppModel, panel: PanelModel) -> AppModel {
    match a.commander.board {
        Some(board) => a.with_board(Some(board.with_slot(board.focus as int, panel))),
        None => a,
    }
}

// ---------------------------------------------------------------------------------------------
// Focus and cursor.
// ---------------------------------------------------------------------------------------------
/// The focus one slot on or back, round the five panels.
pub open spec fn focus_stepped(a: AppModel, forward: bool) -> AppModel {
    match a.commander.board {
        Some(board) => focus_set(
            a,
            (if forward {
                (board.focus + 1) % 5
            } else {
                (board.focus + 4) % 5
            }) as usize,
        ),
        None => a,
    }
}

/// The focus on a slot.
pub open spec fn focus_set(a: AppModel, focus: usize) -> AppModel {
    match a.commander.board {
        Some(board) => a.with_board(Some(BoardModel { focus, ..board })),
        None => a,
    }
}

/// Cycles focus by one slot, wrapping around (5 panels total).
pub fn focus_step(app: &mut App, forward: bool)
    requires
        old(app)@.valid(),
    ensures
        final(app)@ == focus_stepped(old(app)@, forward),
        final(app)@.valid(),
{
    let focus: usize = current_focus(app);
    let next: usize = if forward {
        if focus < 4 {
            focus + 1
        } else {
            0
        }
    } else {
        if focus > 0 {
            focus - 1
        } else {
            4
        }
    };
    set_focus(app, next);
}

/// Sets focus to slot `focus`.
pub fn set_focus(app: &mut App, focus: usize)
    ensures
        final(app)@ == focus_set(old(app)@, focus),
        old(app)@.valid() && focus <= 4 ==> final(app)@.valid(),
{
    if let Some(mut board) = app.take_board() {
        board.focus = focus;
        app.put_board(board);
    }
}

/// Stepping the focus forth and back ends where it began, and five steps go all the way round.
pub proof fn law_the_board_focus_goes_round(a: AppModel)
    requires
        a.valid(),
        a.commander.board is Some,
    ensures
        focus_of(focus_stepped(focus_stepped(a, true), false).commander) == focus_of(a.commander),
        focus_of(
            focus_stepped(
                focus_stepped(
                    focus_stepped(focus_stepped(focus_stepped(a, true), true), true),
                    true,
                ),
                true,
            ).commander,
        ) == focus_of(a.commander),
{
}

/// The cursor of the focused panel moved.
pub open spec fn focused_cursor_moved(a: AppModel, delta: int) -> AppModel {
    match a.commander.board {
        Some(board) => refocused(a, board.slot(board.focus as int).move_cursor(delta)),
        None => a,
    }
}

/// Moves the focused panel's cursor by `delta`.
pub fn move_focused_cursor(app: &mut App, delta: i32)
    requires
        old(app)@.valid(),
    ensures
        final(app)@ == focused_cursor_moved(old(app)@, delta as int),
        final(app)@.valid(),
{
    if let Some(mut board) = app.take_board() {
        let focus: usize = board.focus;
        board.slot_mut(focus).move_cursor(delta);
        app.put_board(board);
    }
}

/// The cursor of the focused panel on an entry.
pub open spec fn cursor_set(a: AppModel, entry: int) -> AppModel {
    match a.commander.board {
        Some(board) => refocused(a, board.slot(board.focus as int).select(entry)),
        None => a,
    }
}

/// Sets the cursor of the focused panel to entry `entry`.
pub fn set_cursor(app: &mut App, entry: usize)
    requires
        old(app)@.valid(),
    ensures
        final(app)@ == cursor_set(old(app)@, entry as int),
        final(app)@.valid(),
{
    if let Some(mut board) = app.take_board() {
        let focus: usize = board.focus;
        board.slot_mut(focus).select(entry);
        app.put_board(board);
    }
}

/// The entry under the focused panel's cursor in the batch or out of it.
pub open spec fn focused_marked(a: AppModel) -> AppModel {
    match a.commander.board {
        Some(board) => refocused(
            a,
            crate::marks::select_toggled(board.slot(board.focus as int)),
        ),
        None => a,
    }
}

/// Insert: marks/unmarks the entry under the focused panel's cursor into the batch and steps
/// down. File or directory (folder layout); not `..`.
pub fn mark_focused_cursor(app: &mut App)
    requires
        old(app)@.valid(),
    ensures
        final(app)@ == focused_marked(old(app)@),
        final(app)@.valid(),
{
    if let Some(mut board) = app.take_board() {
        let focus: usize = board.focus;
        toggle_selection(board.slot_mut(focus));
        app.put_board(board);
    }
}

// ---------------------------------------------------------------------------------------------
// Navigation.
// ---------------------------------------------------------------------------------------------
/// The focused panel sent to a directory: its old content is gone at once, the new one is asked
/// for, and the cursor is to return to the directory it left.
pub open spec fn focused_sent(a: AppModel, dir: PathView) -> AppModel {
    match a.commander.board {
        Some(board) => {
            let p = board.slot(board.focus as int);
            let moved = crate::navigate::awaiting(crate::navigate::moved_to(p, dir));
            refocused(a, moved).send(
                EffectModel::LoadPanel(
                    crate::navigate::reading(slot_target(board.focus), moved, Some(p.cwd)),
                ),
            )
        },
        None => a,
    }
}

/// Navigates the focused panel into directory `dir`: read in the background, the panel is marked
/// "loading…", the cursor will return to the directory it left.
pub fn navigate(app: &mut App, dir: FilePath)
    requires
        old(app)@.valid(),
    ensures
        final(app)@ == focused_sent(old(app)@, dir@),
        final(app)@.valid(),
{
    if let Some(mut board) = app.take_board() {
        let focus: usize = board.focus;
        let target = focus_target(focus);
        let panel = board.slot_mut(focus);
        let ghost p = panel@;
        let previous = panel.cwd.copy();
        panel.cwd = dir;
        panel.entries = Vec::new();
        panel.list.select(None);
        assert(panel@.entries =~= crate::navigate::moved_to(p, dir@).entries);
        let request = start_reading(panel, target, Some(previous));
        app.put_board(board);
        app.send(Effect::LoadPanel(request));
    }
}

/// The focused panel sent to a directory, if there is one to go to.
pub open spec fn focused_sent_to(a: AppModel, dir: Option<PathView>) -> AppModel {
    match dir {
        Some(dir) => focused_sent(a, dir),
        None => a,
    }
}

/// The directory under the focused panel's cursor.
pub open spec fn focused_dir(c: CommanderModel) -> Option<PathView> {
    match c.board {
        Some(board) => crate::navigate::enterable(board.slot(board.focus as int).selected()),
        None => None,
    }
}

/// Enter: enters the directory under the focused panel's cursor (for a file — nothing).
pub fn enter_focused(app: &mut App)
    requires
        old(app)@.valid(),
    ensures
        final(app)@ == focused_sent_to(old(app)@, focused_dir(old(app)@.commander)),
        final(app)@.valid(),
{
    let dir = match &app.commander.board {
        Some(board) => match board.slot(board.focus).selected() {
            Some(entry) => {
                if entry.is_dir() {
                    Some(entry.path.copy())
                } else {
                    None
                }
            },
            None => None,
        },
        None => None,
    };
    if let Some(dir) = dir {
        navigate(app, dir);
    }
}

/// The parent of the focused panel's directory.
pub open spec fn focused_parent(c: CommanderModel) -> Option<PathView> {
    match c.board {
        Some(board) => board.slot(board.focus as int).cwd.parent(),
        None => None,
    }
}

/// Backspace: moves to the parent directory of the focused panel.
pub fn parent_focused(app: &mut App)
    requires
        old(app)@.valid(),
    ensures
        final(app)@ == focused_sent_to(old(app)@, focused_parent(old(app)@.commander)),
        final(app)@.valid(),
{
    let dir = match &app.commander.board {
        Some(board) => board.slot(board.focus).cwd.parent(),
        None => None,
    };
    if let Some(dir) = dir {
        navigate(app, dir);
    }
}

// ---------------------------------------------------------------------------------------------
// Reading the panels.
// ---------------------------------------------------------------------------------------------
/// The source and all four receivers asked for again.
pub open spec fn all_reloaded(a: AppModel) -> AppModel {
    let source = crate::navigate::reloaded(a, LoadTarget::BoardSource, None);
    let first = crate::navigate::reloaded(source, LoadTarget::BoardReceiver(0), None);
    let second = crate::navigate::reloaded(first, LoadTarget::BoardReceiver(1), None);
    let third = crate::navigate::reloaded(second, LoadTarget::BoardReceiver(2), None);
    crate::navigate::reloaded(third, LoadTarget::BoardReceiver(3), None)
}

proof fn lemma_reloaded_valid(a: AppModel, target: LoadTarget, keep: Option<PathView>)
    requires
        a.valid(),
    ensures
        crate::navigate::reloaded(a, target, keep).valid(),
        crate::navigate::reloaded(a, target, keep).commander.board is Some
            == a.commander.board is Some,
{
}

/// Starts background loading of the source and all 4 receivers.
pub fn reload_all(app: &mut App)
    ensures
        final(app)@ == all_reloaded(old(app)@),
        old(app)@.valid() ==> final(app)@.valid(),
{
    let ghost a = app@;
    reload_target(app, LoadTarget::BoardSource, None);
    let ghost source = app@;
    reload_target(app, LoadTarget::BoardReceiver(0), None);
    let ghost first = app@;
    reload_target(app, LoadTarget::BoardReceiver(1), None);
    let ghost second = app@;
    reload_target(app, LoadTarget::BoardReceiver(2), None);
    let ghost third = app@;
    reload_target(app, LoadTarget::BoardReceiver(3), None);
    proof {
        if a.valid() {
            lemma_reloaded_valid(a, LoadTarget::BoardSource, None);
            lemma_reloaded_valid(source, LoadTarget::BoardReceiver(0), None);
            lemma_reloaded_valid(first, LoadTarget::BoardReceiver(1), None);
            lemma_reloaded_valid(second, LoadTarget::BoardReceiver(2), None);
            lemma_reloaded_valid(third, LoadTarget::BoardReceiver(3), None);
        }
    }
}

// ---------------------------------------------------------------------------------------------
// The saved layout.
// ---------------------------------------------------------------------------------------------
/// The name of the file that the layout is kept in: `board.json`.
pub open spec fn layout_name() -> Seq<u8> {
    seq![98u8, 111u8, 97u8, 114u8, 100u8, 46u8, 106u8, 115u8, 111u8, 110u8]
}

/// Where the layout is kept: beside the checkpoint database.
pub open spec fn layout_file(db_path: PathView) -> Option<PathView> {
    match db_path.parent() {
        Some(dir) => Some(dir.child(layout_name())),
        None => None,
    }
}

/// File path of the saved Board layout: `<state_dir>/board.json`.
pub fn layout_path(app: &App) -> (r: Option<FilePath>)
    ensures
        crate::panels::path_model(r) == layout_file(app@.db_path),
{
    match app.db_path.parent() {
        Some(dir) => {
            let name: Vec<u8> = vec![98u8, 111, 97, 114, 100, 46, 106, 115, 111, 110];
            assert(name@ =~= layout_name());
            Some(dir.child(&name))
        },
        None => None,
    }
}

/// The directories of the receivers.
pub open spec fn receiver_dirs(board: BoardModel) -> Seq<PathView> {
    board.receivers.map_values(|p: PanelModel| p.cwd)
}

/// The request to save the layout; nothing where there is no Board or no place for it.
pub open spec fn save_effect(a: AppModel, notice: SaveNotice) -> Option<EffectModel> {
    match a.commander.board {
        Some(board) => match layout_file(a.db_path) {
            Some(path) => Some(
                EffectModel::SaveLayout {
                    path,
                    source: board.source.cwd,
                    receivers: receiver_dirs(board),
                    notice,
                },
            ),
            None => None,
        },
        None => None,
    }
}

fn dirs_of(panels: &Vec<Panel>) -> (r: Vec<FilePath>)
    ensures
        crate::model::paths_model(r@) == crate::state::panels_model(panels@).map_values(
            |p: PanelModel| p.cwd,
        ),
{
    let ghost all = crate::state::panels_model(panels@).map_values(|p: PanelModel| p.cwd);
    let mut out: Vec<FilePath> = Vec::new();
    let mut i: usize = 0;
    assert(crate::model::paths_model(out@) =~= all.take(0));
    while i < panels.len()
        invariant
            i <= panels@.len(),
            all == crate::state::panels_model(panels@).map_values(|p: PanelModel| p.cwd),
            crate::model::paths_model(out@) == all.take(i as int),
        decreases panels@.len() - i,
    {
        push_path(&mut out, panels[i].cwd.copy());
        assert(all.take(i as int).push(all[i as int]) =~= all.take(i as int + 1));
        i = i + 1;
    }
    assert(all.take(all.len() as int) =~= all);
    out
}

fn layout_request(app: &App, notice: SaveNotice) -> (r: Option<Effect>)
    ensures
        match r {
            Some(effect) => save_effect(app@, notice) == Some(effect@),
            None => save_effect(app@, notice) is None,
        },
{
    match &app.commander.board {
        Some(board) => match layout_path(app) {
            Some(path) => Some(
                Effect::SaveLayout {
                    path,
                    source: board.source.cwd.copy(),
                    receivers: dirs_of(&board.receivers),
                    notice,
                },
            ),
            None => None,
        },
        None => None,
    }
}

/// What the status line says of a saved layout, or of one that could not be saved.
pub open spec fn save_status(notice: SaveNotice, saved: bool) -> Option<Seq<char>> {
    match notice {
        SaveNotice::Asked => Some(
            if saved {
                "Board layout saved"@
            } else {
                "Failed to save layout"@
            },
        ),
        SaveNotice::Closing => Some(
            if saved {
                "Board closed · layout saved"@
            } else {
                "Board closed"@
            },
        ),
        SaveNotice::Silent => None,
    }
}

/// The layout's save answered.
pub open spec fn save_reported(a: AppModel, notice: SaveNotice, saved: bool) -> AppModel {
    match save_status(notice, saved) {
        Some(status) => a.say(status),
        None => a,
    }
}

/// The layout on its way to be saved, or reported as not saved at once.
pub open spec fn layout_sent(a: AppModel, notice: SaveNotice) -> AppModel {
    match save_effect(a, notice) {
        Some(effect) => a.send(effect),
        None => save_reported(a, notice, false),
    }
}

/// Sends the current Board panel directories to be saved.
pub fn save_layout(app: &mut App, notice: SaveNotice)
    ensures
        final(app)@ == layout_sent(old(app)@, notice),
{
    match layout_request(app, notice) {
        Some(effect) => app.send(effect),
        None => layout_saved(app, notice, false),
    }
}

/// Reports whether the layout was saved.
pub fn layout_saved(app: &mut App, notice: SaveNotice, saved: bool)
    ensures
        final(app)@ == save_reported(old(app)@, notice, saved),
{
    match notice {
        SaveNotice::Asked => {
            if saved {
                app.say_str("Board layout saved");
            } else {
                app.say_str("Failed to save layout");
            }
        },
        SaveNotice::Closing => {
            if saved {
                app.say_str("Board closed · layout saved");
            } else {
                app.say_str("Board closed");
            }
        },
        SaveNotice::Silent => {},
    }
}

// ---------------------------------------------------------------------------------------------
// Opening and closing.
// ---------------------------------------------------------------------------------------------
/// The Board on screen, its source in focus.
pub open spec fn board_shown(a: AppModel) -> AppModel {
    AppModel {
        commander: CommanderModel {
            board: match a.commander.board {
                Some(board) => Some(BoardModel { assign_pending: false, focus: 0, ..board }),
                None => None,
            },
            board_active: true,
            status: "Board: Tab panel · 1-4 send · a+N receiver · S save · Esc exit"@,
            ..a.commander
        },
        show_help: false,
        ..a
    }
}

fn show_board(app: &mut App)
    ensures
        final(app)@ == board_shown(old(app)@),
        old(app)@.valid() ==> final(app)@.valid(),
{
    if let Some(mut board) = app.take_board() {
        board.assign_pending = false;
        board.focus = 0;
        app.put_board(board);
    }
    app.commander.board_active = true;
    app.show_help = false;
    app.say_str("Board: Tab panel · 1-4 send · a+N receiver · S save · Esc exit");
}

/// The directory of a panel, or `src` where there is no such panel.
pub open spec fn dir_or(c: CommanderModel, index: int, src: PathView) -> PathView {
    if index < c.panels.len() {
        c.panels[index].cwd
    } else {
        src
    }
}

/// The Board as it is first opened: over the saved directories, otherwise over those of the
/// commander's panels.
pub open spec fn first_board(c: CommanderModel, saved: Option<(PathView, Seq<PathView>)>) -> BoardModel {
    match saved {
        Some((source, receivers)) => crate::state::new_board(source, receivers),
        None => {
            let src = c.active_panel().cwd;
            crate::state::new_board(
                src,
                seq![dir_or(c, 0, src), dir_or(c, 1, src), dir_or(c, 2, src), dir_or(c, 3, src)],
            )
        },
    }
}

/// The Board opened for the first time: built, its panels asked for, and shown.
pub open spec fn board_opened(a: AppModel, saved: Option<(PathView, Seq<PathView>)>) -> AppModel {
    if a.commander.board is Some {
        board_shown(a)
    } else {
        board_shown(all_reloaded(a.with_board(Some(first_board(a.commander, saved)))))
    }
}

/// The content of a saved layout.
pub open spec fn saved_model(saved: Option<(FilePath, [FilePath; 4])>) -> Option<
    (PathView, Seq<PathView>),
> {
    match saved {
        Some((source, receivers)) => Some((source@, crate::model::paths_model(receivers@))),
        None => None,
    }
}

fn dir_of_panel(commander: &CommanderState, index: usize, src: &FilePath) -> (r: FilePath)
    ensures
        r@ == dir_or(commander@, index as int, src@),
{
    if index < commander.panels.len() {
        commander.panels[index].cwd.copy()
    } else {
        src.copy()
    }
}

fn build_board(commander: &CommanderState, saved: Option<(FilePath, [FilePath; 4])>) -> (r: BoardState)
    requires
        commander@.valid(),
    ensures
        r@ == first_board(commander@, saved_model(saved)),
        r@.valid(),
{
    match saved {
        Some((source, receivers)) => BoardState::new(source, receivers),
        None => {
            let src = commander.active_panel().cwd.copy();
            let receivers = [
                dir_of_panel(commander, 0, &src),
                dir_of_panel(commander, 1, &src),
                dir_of_panel(commander, 2, &src),
                dir_of_panel(commander, 3, &src),
            ];
            assert(crate::model::paths_model(receivers@) =~= seq![
                dir_or(commander@, 0, src@),
                dir_or(commander@, 1, src@),
                dir_or(commander@, 2, src@),
                dir_or(commander@, 3, src@),
            ]);
            BoardState::new(src, receivers)
        },
    }
}

/// Opens the Board, over the saved layout if one was found.
pub fn open_board(app: &mut App, saved: Option<(FilePath, [FilePath; 4])>)
    requires
        old(app)@.valid(),
    ensures
        final(app)@ == board_opened(old(app)@, saved_model(saved)),
        final(app)@.valid(),
{
    if app.commander.board.is_none() {
        let board = build_board(&app.commander, saved);
        app.put_board(board);
        reload_all(app);
    }
    show_board(app);
}

/// The Board opened or closed: an open one is closed and its layout saved; one that was shown
/// before is shown again; for the first showing the saved layout is asked for, where there is a
/// place to keep one.
pub open spec fn board_toggled(a: AppModel) -> AppModel {
    if a.commander.board_active {
        board_closed(a)
    } else if a.commander.board is Some {
        board_shown(a)
    } else {
        match layout_file(a.db_path) {
            Some(path) => a.send(EffectModel::LoadLayout(path)),
            None => board_opened(a, None),
        }
    }
}

/// The Board closed and its layout sent to be saved.
pub open spec fn board_closed(a: AppModel) -> AppModel {
    layout_sent(
        AppModel { commander: CommanderModel { board_active: false, ..a.commander }, ..a },
        SaveNotice::Closing,
    )
}

fn close_board(app: &mut App)
    requires
        old(app)@.valid(),
    ensures
        final(app)@ == board_closed(old(app)@),
        final(app)@.valid(),
{
    app.commander.board_active = false;
    save_layout(app, SaveNotice::Closing);
}

/// Opens/closes the Triage Board. The Board is kept in memory between shows within a session.
pub fn toggle(app: &mut App)
    requires
        old(app)@.valid(),
    ensures
        final(app)@ == board_toggled(old(app)@),
        final(app)@.valid(),
{
    if app.commander.board_active {
        close_board(app);
        return;
    }
    if app.commander.board.is_some() {
        show_board(app);
        return;
    }
    match layout_path(app) {
        Some(path) => app.send(Effect::LoadLayout(path)),
        None => open_board(app, None),
    }
}

/// Closing the Board and opening it again within a session finds its panels as they were.
pub proof fn law_the_board_is_kept(a: AppModel)
    requires
        a.commander.board_active,
        a.commander.board is Some,
    ensures
        ({
            let again = board_toggled(board_toggled(a));
            &&& again.commander.board_active
            &&& again.commander.board matches Some(board)
            &&& board.source == a.commander.board.unwrap().source
            &&& board.receivers == a.commander.board.unwrap().receivers
            &&& board.focus == 0
        }),
{
}

// ---------------------------------------------------------------------------------------------
// Assigning a receiver.
// ---------------------------------------------------------------------------------------------
/// Receiver-directory assignment is armed.
pub open spec fn assigning(c: CommanderModel) -> bool {
    match c.board {
        Some(board) => board.assign_pending,
        None => false,
    }
}

/// Whether receiver directory assignment mode is armed (`a` pressed).
pub fn assign_pending(app: &App) -> (r: bool)
    ensures
        r == assigning(app@.commander),
{
    match &app.commander.board {
        Some(board) => board.assign_pending,
        None => false,
    }
}

/// Assignment armed or disarmed.
pub open spec fn assignment(a: AppModel, armed: bool) -> AppModel {
    match a.commander.board {
        Some(board) => a.with_board(Some(BoardModel { assign_pending: armed, ..board })),
        None => a,
    }
}

fn arm(app: &mut App, armed: bool)
    ensures
        final(app)@ == assignment(old(app)@, armed),
        old(app)@.valid() ==> final(app)@.valid(),
{
    if let Some(mut board) = app.take_board() {
        board.assign_pending = armed;
        app.put_board(board);
    }
}

/// `a`: arms assignment — the next digit 1–4 assigns the focused panel's current directory to a
/// receiver (the centre works as a folder browser).
pub fn begin_assign(app: &mut App)
    ensures
        final(app)@ == assignment(old(app)@, true).say(
            "Assign receiver: digit 1–4 = current focused directory · Esc cancel"@,
        ),
        old(app)@.valid() ==> final(app)@.valid(),
{
    arm(app, true);
    app.say_str("Assign receiver: digit 1–4 = current focused directory · Esc cancel");
}

/// Clears assignment mode.
pub fn clear_assign(app: &mut App)
    ensures
        final(app)@ == assignment(old(app)@, false).say("Assignment cancelled"@),
        old(app)@.valid() ==> final(app)@.valid(),
{
    arm(app, false);
    app.say_str("Assignment cancelled");
}

/// A receiver over another directory, of which nothing is known yet: neither its entries nor any
/// mark.
pub open spec fn reassigned(p: PanelModel, dir: PathView) -> PanelModel {
    PanelModel { marks: Map::empty(), ..crate::navigate::moved_to(p, dir) }
}

/// The focused panel's directory assigned to a receiver, which is then read.
pub open spec fn receiver_assigned(a: AppModel, receiver: usize) -> AppModel {
    match a.commander.board {
        Some(board) => {
            let dir = board.slot(board.focus as int).cwd;
            let assigned = BoardModel {
                receivers: board.receivers.update(
                    receiver as int,
                    reassigned(board.receivers[receiver as int], dir),
                ),
                assign_pending: false,
                ..board
            };
            crate::navigate::reloaded(
                a.with_board(Some(assigned)),
                LoadTarget::BoardReceiver(receiver),
                None,
            ).say(
                "Receiver "@ + crate::text::decimal((receiver + 1) as nat) + " ← "@ + dir.shown_safely(),
            )
        },
        None => a,
    }
}

fn reassign(board: &mut BoardState, receiver: usize, dir: FilePath)
    requires
        old(board)@.valid(),
        receiver < 4,
    ensures
        final(board)@ == (BoardModel {
            receivers: old(board)@.receivers.update(
                receiver as int,
                reassigned(old(board)@.receivers[receiver as int], dir@),
            ),
            assign_pending: false,
            ..old(board)@
        }),
{
    board.assign_pending = false;
    let panel = board.slot_mut(receiver + 1);
    let ghost p = panel@;
    panel.cwd = dir;
    panel.entries = Vec::new();
    panel.list.select(None);
    panel.marks.clear();
    assert(panel@.entries =~= reassigned(p, dir@).entries);
}

/// Assigns the focused panel's current directory to receiver `receiver` and loads it.
pub fn assign_receiver(app: &mut App, receiver: usize)
    requires
        old(app)@.valid(),
        receiver < 4,
    ensures
        final(app)@ == receiver_assigned(old(app)@, receiver),
        final(app)@.valid(),
{
    if let Some(mut board) = app.take_board() {
        let dir = board.slot(board.focus).cwd.copy();
        let mut status = "Receiver ".to_string();
        push_usize(&mut status, receiver + 1);
        status.push_str(" ← ");
        status.push_str(dir.display_safely().as_str());
        reassign(&mut board, receiver, dir);
        app.put_board(board);
        proof {
            lemma_reloaded_valid(app@, LoadTarget::BoardReceiver(receiver), None);
        }
        reload_target(app, LoadTarget::BoardReceiver(receiver), None);
        app.say(status);
    }
}

// ---------------------------------------------------------------------------------------------
// Moves.
// ---------------------------------------------------------------------------------------------
/// A digit pressed: the receiver may not be the focused panel, there must be something to send,
/// and the batch waits until its safeguard snapshots are taken.
pub open spec fn board_send(a: AppModel, receiver: usize) -> AppModel {
    if focus_of(a.commander) == receiver + 1 {
        a.say("Receiver matches the focused panel"@)
    } else {
        match a.commander.board {
            Some(board) => {
                let sources = crate::triage::source_batch(board.slot(board.focus as int));
                if sources.len() == 0 {
                    a.say("No file/directory under the cursor or marked"@)
                } else {
                    a.with_board(
                        Some(
                            BoardModel {
                                sending: Some(TriageModel { sources, source_panel: board.focus }),
                                ..board
                            },
                        ),
                    ).send(
                        EffectModel::Safeguard { sources, receiver: Receiver::Board(receiver) },
                    )
                }
            },
            None => a,
        }
    }
}

fn hold_batch(board: &mut BoardState) -> (r: Vec<FilePath>)
    requires
        old(board)@.valid(),
    ensures
        ({
            let b = old(board)@;
            let sources = crate::triage::source_batch(b.slot(b.focus as int));
            &&& crate::model::paths_model(r@) == sources
            &&& final(board)@ == (if sources.len() == 0 {
                b
            } else {
                BoardModel {
                    sending: Some(TriageModel { sources, source_panel: b.focus }),
                    ..b
                }
            })
        }),
{
    let sources = collect_source_batch(board.slot(board.focus));
    assert(crate::model::paths_model(sources@).len() == sources@.len());
    if sources.len() > 0 {
        board.sending = Some(
            TriagePending { sources: copy_paths(&sources), source_panel: board.focus },
        );
    }
    sources
}

/// Digit 1–4: asks for the safeguard of moving the entry under the focused panel's cursor (or the
/// marked batch) into receiver `receiver`; the move follows its answer.
pub fn send_to_receiver(app: &mut App, receiver: usize)
    requires
        old(app)@.valid(),
        receiver < 4,
    ensures
        final(app)@ == board_send(old(app)@, receiver),
        final(app)@.valid(),
{
    let focus: usize = current_focus(app);
    if focus == receiver + 1 {
        app.say_str("Receiver matches the focused panel");
        return;
    }
    let sources = match &mut app.commander.board {
        Some(board) => hold_batch(board),
        None => {
            return;
        },
    };
    assert(crate::model::paths_model(sources@).len() == sources@.len());
    if sources.len() == 0 {
        app.say_str("No file/directory under the cursor or marked");
        return;
    }
    app.send(Effect::Safeguard { sources, receiver: Receiver::Board(receiver) });
}

/// A Board move under way: the marks are taken off what moves, the batch goes out, and both
/// panels are to be read again after it.
#[verifier::opaque]
pub open spec fn board_launched(
    a: AppModel,
    board: BoardModel,
    batch: TriageModel,
    receiver: usize,
) -> AppModel {
    let from = batch.source_panel as int;
    let p = crate::triage::without_marks(board.slot(from), batch.sources);
    crate::triage::move_spawned(
        a.with_board(Some(BoardModel { sending: None, ..board }.with_slot(from, p))),
        batch.sources,
        board.receivers[receiver as int].cwd,
        seq![
            (slot_target(batch.source_panel), crate::triage::survivor(p, batch.sources)),
            (LoadTarget::BoardReceiver(receiver), None),
        ],
        "receiver "@ + crate::text::decimal((receiver + 1) as nat),
    )
}

/// The Board without a waiting batch.
pub open spec fn batch_dropped(a: AppModel) -> AppModel {
    match a.commander.board {
        Some(board) => a.with_board(Some(BoardModel { sending: None, ..board })),
        None => a,
    }
}

/// The safeguard's answer: a failure is said and the marks are intact; otherwise the batch that
/// waited for it moves.
pub open spec fn board_answered(a: AppModel, receiver: usize, failure: Option<Seq<char>>) -> AppModel {
    match failure {
        Some(message) => batch_dropped(a).say(message),
        None => match a.commander.board {
            Some(board) => match board.sending {
                Some(batch) => board_launched(a, board, batch, receiver),
                None => a,
            },
            None => a,
        },
    }
}

fn reload_list(from: LoadTarget, keep: Option<FilePath>, receiver: usize) -> (r: Vec<
    (LoadTarget, Option<FilePath>),
>)
    ensures
        crate::state::reload_model(r@) == seq![
            (from, crate::panels::path_model(keep)),
            (LoadTarget::BoardReceiver(receiver), None),
        ],
{
    let ghost kept = crate::panels::path_model(keep);
    let mut reload: Vec<(LoadTarget, Option<FilePath>)> = Vec::new();
    reload.push((from, keep));
    reload.push((LoadTarget::BoardReceiver(receiver), None));
    assert(crate::state::reload_model(reload@) =~= seq![
        (from, kept),
        (LoadTarget::BoardReceiver(receiver), None),
    ]);
    reload
}

fn release_batch(board: &mut BoardState, sources: &Vec<FilePath>, from: usize, receiver: usize) -> (r:
    Vec<(LoadTarget, Option<FilePath>)>)
    requires
        old(board)@.valid(),
        from <= 4,
    ensures
        ({
            let b = old(board)@;
            let batch = crate::model::paths_model(sources@);
            let p = crate::triage::without_marks(b.slot(from as int), batch);
            &&& final(board)@ == b.with_slot(from as int, p)
            &&& crate::state::reload_model(r@) == seq![
                (slot_target(from), crate::triage::survivor(p, batch)),
                (LoadTarget::BoardReceiver(receiver), None),
            ]
        }),
{
    drop_marks(board.slot_mut(from), sources);
    let keep = next_survivor(board.slot(from), sources);
    reload_list(focus_target(from), keep, receiver)
}

proof fn lemma_board_put(a: AppModel, board: Option<BoardModel>)
    ensures
        a.with_board(None).with_board(board) == a.with_board(board),
{
}

proof fn lemma_spawned_valid(
    a: AppModel,
    sources: Seq<PathView>,
    dest_dir: PathView,
    reload: Seq<(LoadTarget, Option<PathView>)>,
    label: Seq<char>,
)
    requires
        a.valid(),
    ensures
        crate::triage::move_spawned(a, sources, dest_dir, reload, label).valid(),
{
}

proof fn lemma_launched_valid(a: AppModel, board: BoardModel, batch: TriageModel, receiver: usize)
    requires
        a.valid(),
        board.valid(),
        batch.source_panel <= 4,
    ensures
        board_launched(a, board, batch, receiver).valid(),
        board_launched(
            a.with_board(None),
            BoardModel { sending: None, ..board },
            batch,
            receiver,
        ) == board_launched(a, board, batch, receiver),
{
    reveal(board_launched);
    let from = batch.source_panel as int;
    let p = crate::triage::without_marks(board.slot(from), batch.sources);
    let after = BoardModel { sending: None, ..board }.with_slot(from, p);
    assert(after.valid());
    lemma_board_put(a, Some(after));
    assert(a.with_board(Some(after)).valid());
    lemma_spawned_valid(
        a.with_board(Some(after)),
        batch.sources,
        board.receivers[receiver as int].cwd,
        seq![
            (slot_target(batch.source_panel), crate::triage::survivor(p, batch.sources)),
            (LoadTarget::BoardReceiver(receiver), None),
        ],
        "receiver "@ + crate::text::decimal((receiver + 1) as nat),
    );
}

fn launch_with(app: &mut App, mut board: BoardState, batch: TriagePending, receiver: usize)
    requires
        board@.valid(),
        board@.sending is None,
        batch.source_panel <= 4,
        receiver < 4,
    ensures
        final(app)@ == board_launched(old(app)@, board@, batch@, receiver),
{
    proof {
        reveal(board_launched);
    }
    let dest_dir = board.slot(receiver + 1).cwd.copy();
    let reload = release_batch(&mut board, &batch.sources, batch.source_panel, receiver);
    let mut label = "receiver ".to_string();
    push_usize(&mut label, receiver + 1);
    app.put_board(board);
    spawn_move(app, batch.sources, dest_dir, reload, label);
}

/// Launches the move that was waiting for its safeguard snapshots, or says why there is none.
/// The source cursor auto-advances to the next surviving item.
pub fn launch_board_move(app: &mut App, receiver: usize, failure: Option<String>)
    requires
        old(app)@.valid(),
        receiver < 4,
    ensures
        final(app)@ == board_answered(
            old(app)@,
            receiver,
            crate::triage::failure_model(failure),
        ),
        final(app)@.valid(),
{
    if let Some(message) = failure {
        drop_batch(app);
        app.say(message);
        return;
    }
    let ghost a = app@;
    let taken = app.take_board();
    if let Some(mut board) = taken {
        let ghost before = board@;
        let batch = take_batch(&mut board);
        match batch {
            Some(batch) => {
                proof {
                    lemma_launched_valid(a, before, batch@, receiver);
                }
                launch_with(app, board, batch, receiver);
            },
            None => {
                proof {
                    lemma_board_put(a, Some(board@));
                }
                app.put_board(board);
            },
        }
    }
}

fn take_batch(board: &mut BoardState) -> (r: Option<TriagePending>)
    ensures
        crate::state::pending_model(r) == old(board)@.sending,
        final(board)@ == (BoardModel { sending: None, ..old(board)@ }),
{
    board.sending.take()
}

fn drop_batch(app: &mut App)
    ensures
        final(app)@ == batch_dropped(old(app)@),
        old(app)@.valid() ==> final(app)@.valid(),
{
    if let Some(board) = &mut app.commander.board {
        board.sending = None;
    }
}

/// A Board move whose safeguard failed changes nothing but the status: every mark still stands,
/// and nothing waits any more.
pub proof fn law_a_failed_safeguard_keeps_the_board(a: AppModel, receiver: usize, message: Seq<char>)
    ensures
        board_answered(a, receiver, Some(message)).commander.board == batch_dropped(
            a,
        ).commander.board,
        board_answered(a, receiver, Some(message)).outbox == a.outbox,
{
}

/// What moves into a receiver is the batch whose safeguard was asked for, whatever the Board shows
/// and focuses by the time of the answer.
pub proof fn law_the_board_moves_what_was_safeguarded(a: AppModel, b: AppModel, receiver: usize)
    requires
        !a.read_only && !b.read_only,
        focus_of(a.commander) != receiver + 1,
        a.commander.board matches Some(board) && crate::triage::source_batch(
            board.slot(board.focus as int),
        ).len() > 0,
        b.commander.board matches Some(later) && board_send(
            a,
            receiver,
        ).commander.board matches Some(sent) && later.sending == sent.sending,
    ensures
        ({
            let board = a.commander.board->Some_0;
            let sources = crate::triage::source_batch(board.slot(board.focus as int));
            &&& board_send(a, receiver).outbox == a.outbox.push(
                EffectModel::Safeguard { sources, receiver: Receiver::Board(receiver) },
            )
            &&& board_answered(b, receiver, None).outbox.drop_last() == b.outbox
            &&& board_answered(b, receiver, None).outbox.last() matches EffectModel::Move(request)
                && request.sources == sources && request.dest_dir
                == b.commander.board->Some_0.receivers[receiver as int].cwd
        }),
{
    reveal(board_launched);
    let out = board_answered(b, receiver, None).outbox;
    assert(out.drop_last() =~= b.outbox);
}

/// What the Board's status line says of an undone move.
pub open spec fn board_undo_status(restored: nat, failed: nat) -> Seq<char> {
    if failed == 0 {
        "Undone: "@ + crate::text::decimal(restored) + " restored"@
    } else {
        "Partially undone: "@ + crate::text::decimal(restored) + " restored, "@
            + crate::text::decimal(failed) + " errors"@
    }
}

/// A move undone on the Board: said so, the stale sizes forgotten, every Board panel read again.
pub open spec fn board_undone(a: AppModel, items: Seq<(PathView, PathView)>, failed: usize) -> AppModel {
    all_reloaded(
        crate::sizes::sizes_forgotten(
            a.say(board_undo_status((items.len() - failed) as nat, failed as nat)),
            crate::moves::affected_paths(items),
        ),
    )
}

/// An undone move applied: to the Board where it is open, otherwise to the commander.
pub open spec fn undone(a: AppModel, items: Seq<(PathView, PathView)>, failed: usize) -> AppModel {
    if a.commander.board_active {
        board_undone(a, items, failed)
    } else {
        crate::moves::undo_finished(a, items, failed)
    }
}

/// Applies an undo of which `failed` items could not be put back.
pub fn finish_undo(app: &mut App, items: &Vec<(FilePath, FilePath)>, failed: usize)
    requires
        failed <= items@.len(),
    ensures
        final(app)@ == undone(old(app)@, crate::state::pairs_model(items@), failed),
{
    if !app.commander.board_active {
        apply_undo(app, items, failed);
        return;
    }
    assert(crate::state::pairs_model(items@).len() == items@.len());
    let restored: usize = items.len() - failed;
    let affected = affected_of(items);
    let mut status = if failed == 0 {
        "Undone: ".to_string()
    } else {
        "Partially undone: ".to_string()
    };
    push_usize(&mut status, restored);
    if failed == 0 {
        status.push_str(" restored");
    } else {
        status.push_str(" restored, ");
        push_usize(&mut status, failed);
        status.push_str(" errors");
    }
    app.say(status);
    invalidate_dir_sizes(app, &affected);
    reload_all(app);
}

} // verus!
