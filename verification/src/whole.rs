//! Whatever the commander does, it stays in order: from two to four panels with one in focus, a
//! menu whose cursor is on an item, and a Board that is whole.

use vstd::prelude::*;

use crate::app::{AppModel, SaveNotice};
use crate::board_screen::BoardCommand;
use crate::commander::Command;
use crate::keys::KeyEvent;
use crate::menu::MenuAction;
use crate::panels::PanelModel;
use crate::path::PathView;

verus! {

proof fn lemma_synced(a: AppModel, cwd: PathView, count: int)
    requires
        a.valid(),
        count <= a.commander.panels.len(),
    ensures
        crate::compare::synced_upto(a, cwd, count).valid(),
        crate::compare::synced_upto(a, cwd, count).commander.panels.len()
            == a.commander.panels.len(),
    decreases count,
{
    if count > 0 {
        lemma_synced(a, cwd, count - 1);
    }
}

proof fn lemma_shifted(a: AppModel, n: u8)
    requires
        a.valid(),
    ensures
        crate::menu::shifted(a, n).valid(),
{
    reveal(crate::menu::shifted);
    if n == 1 {
        lemma_synced(a, a.commander.active_panel().cwd, a.commander.panels.len() as int);
    } else if n == 2 {
        assert(crate::compare::compared(a).valid());
    } else if n == 3 {
        assert(crate::menu::panel_added_to(a).valid());
    } else if n == 4 {
        assert(crate::menu::panel_removed_from(a).valid());
    } else if n == 5 {
        assert(crate::compare::root_changed(a).valid());
    } else if n == 6 {
        assert(crate::sizes::size_requested(a).valid());
    } else if n == 12 {
        assert(crate::board::board_toggled(a).valid());
    }
}

proof fn lemma_action(a: AppModel, action: MenuAction, b: AppModel)
    requires
        a.valid(),
        crate::menu::action_done(a, action, b),
    ensures
        b.valid(),
{
    reveal(crate::menu::action_done);
    match action {
        MenuAction::ShiftLayer(n) => lemma_shifted(a, n),
        MenuAction::ReloadDedup => assert(b.valid()),
        MenuAction::CycleView => assert(b.valid()),
        MenuAction::ClearMarks => assert(b.valid()),
        _ => assert(b.valid()),
    }
}

proof fn lemma_done(a: AppModel, command: Command, key: KeyEvent, b: AppModel)
    requires
        a.valid(),
        crate::commander::done(a, command, key, b),
    ensures
        b.valid(),
{
    reveal(crate::commander::done);
    match command {
        Command::Shift(n) => lemma_shifted(a, n),
        Command::Triage => assert(b.valid()),
        Command::Info => assert(b.valid()),
        Command::Hash => assert(b.valid()),
        Command::SetMark(_) => assert(b.valid()),
        Command::Execute => assert(b.valid()),
        Command::ToggleMark => assert(b.valid()),
        Command::Sort => assert(b.valid()),
        Command::CycleView => assert(b.valid()),
        Command::BeginTriage => assert(b.valid()),
        Command::Undo => assert(b.valid()),
        Command::Cursor(_) => assert(b.valid()),
        Command::Enter => assert(b.valid()),
        Command::Parent => assert(b.valid()),
        Command::Jump => assert(b.valid()),
        _ => assert(b.valid()),
    }
}

proof fn lemma_toggled(a: AppModel)
    requires
        a.valid(),
    ensures
        crate::board::board_toggled(a).valid(),
{
}

proof fn lemma_assigned(a: AppModel, n: usize)
    requires
        a.valid(),
        n < 4,
    ensures
        crate::board::receiver_assigned(a, n).valid(),
{
}

proof fn lemma_sent_to(a: AppModel, dir: Option<PathView>)
    requires
        a.valid(),
    ensures
        crate::board::focused_sent_to(a, dir).valid(),
{
}

proof fn lemma_focused(a: AppModel, panel: PanelModel)
    requires
        a.valid(),
    ensures
        crate::board::refocused(a, panel).valid(),
{
}

proof fn lemma_layout_sent(a: AppModel, notice: SaveNotice)
    requires
        a.valid(),
    ensures
        crate::board::layout_sent(a, notice).valid(),
{
}

proof fn lemma_board_send(a: AppModel, n: usize)
    requires
        a.valid(),
    ensures
        crate::board::board_send(a, n).valid(),
{
}

proof fn lemma_stepped(a: AppModel, forward: bool)
    requires
        a.valid(),
    ensures
        crate::board::focus_stepped(a, forward).valid(),
{
}

proof fn lemma_assignment(a: AppModel, armed: bool)
    requires
        a.valid(),
    ensures
        crate::board::assignment(a, armed).valid(),
{
}

proof fn lemma_undo(a: AppModel)
    requires
        a.valid(),
    ensures
        crate::moves::undo_started(a).valid(),
{
}

#[verifier::rlimit(100)]
#[verifier::spinoff_prover]
proof fn lemma_board_command(a: AppModel, command: BoardCommand)
    requires
        a.valid(),
        command matches BoardCommand::Assign(n) ==> n < 4,
    ensures
        crate::board_screen::command_run(a, command).valid(),
{
    reveal(crate::board_screen::command_run);
    match command {
        BoardCommand::Nothing => {},
        BoardCommand::Toggle => lemma_toggled(a),
        BoardCommand::Assign(n) => lemma_assigned(a, n),
        BoardCommand::CancelAssign => lemma_assignment(a, false),
        BoardCommand::BeginAssign => lemma_assignment(a, true),
        BoardCommand::Focus(forward) => lemma_stepped(a, forward),
        BoardCommand::Cursor(delta) => {
            if let Some(board) = a.commander.board {
                lemma_focused(a, board.slot(board.focus as int).move_cursor(delta as int));
            }
        },
        BoardCommand::Mark => {
            if let Some(board) = a.commander.board {
                lemma_focused(a, crate::marks::select_toggled(board.slot(board.focus as int)));
            }
        },
        BoardCommand::Enter => lemma_sent_to(a, crate::board::focused_dir(a.commander)),
        BoardCommand::Parent => lemma_sent_to(a, crate::board::focused_parent(a.commander)),
        BoardCommand::Send(n) => lemma_board_send(a, n),
        BoardCommand::Save => lemma_layout_sent(a, SaveNotice::Asked),
        BoardCommand::Undo => lemma_undo(a),
        BoardCommand::Quit => lemma_layout_sent(a, SaveNotice::Silent),
    }
}

proof fn lemma_board_key(a: AppModel, key: KeyEvent)
    requires
        a.valid(),
    ensures
        crate::board_screen::board_key(a, key).valid(),
{
    let command = crate::board_screen::board_command(
        key,
        a.commander.second_layer,
        crate::board::assigning(a.commander),
    );
    lemma_board_command(crate::board_screen::layer_set(a, false), command);
}

/// A key leaves the commander in order.
pub proof fn law_a_key_keeps_the_commander_whole(a: AppModel, key: KeyEvent, b: AppModel)
    requires
        a.valid(),
        crate::commander::commander_key(a, key, b),
    ensures
        b.valid(),
{
    if key.code == crate::keys::KeyCode::Esc && a.auto_select {
    } else if a.commander.board_active {
        lemma_board_key(a, key);
    } else if !(a.commander.overlay is Closed) {
        match a.commander.overlay {
            crate::state::Overlay::Menu { cursor } => {
                if key.code == crate::keys::KeyCode::Enter {
                    lemma_action(
                        a.with_overlay(crate::state::Overlay::Closed),
                        crate::menu::menu_action(cursor as int),
                        b,
                    );
                }
            },
            _ => {},
        }
    } else {
        let (command, layer) = crate::commander::commanded(a.commander, key);
        lemma_done(crate::board_screen::layer_set(a, layer), command, key, b);
    }
}

} // verus!
