//! The Board: a source and four receivers, the keys that work on them, and the layout that is kept.

use vstd::prelude::*;

use crate::app::{AppModel, CommanderModel, EffectModel, SaveNotice};
use crate::board_screen::BoardCommand;
use crate::keys::{KeyCode, KeyEvent};
use crate::path::PathView;
use crate::state::{BoardModel, LoadTarget};

verus! {

// ---------------------------------------------------------------------------------------------
// Keys.
// ---------------------------------------------------------------------------------------------
/// The digits name the receivers in order, and nothing else does.
pub proof fn law_a_digit_is_its_receiver(c: char)
    ensures
        crate::board_screen::receiver_digit(c) == Some(0usize) <==> c == '1',
        crate::board_screen::receiver_digit(c) == Some(1usize) <==> c == '2',
        crate::board_screen::receiver_digit(c) == Some(2usize) <==> c == '3',
        crate::board_screen::receiver_digit(c) == Some(3usize) <==> c == '4',
        crate::board_screen::receiver_digit(c) is None <==> c < '1' || c > '4',
{
}

/// While no assignment is armed a digit sends to its receiver, `a` arms one, `s` saves, `u` undoes,
/// `q` leaves for good, Esc closes; Tab, the arrows, Enter, Backspace and Insert work on the
/// focused panel.
pub proof fn law_each_board_key_has_its_command(key: KeyEvent, n: usize)
    requires
        n < 4,
    ensures
        ({
            let command = crate::board_screen::board_command(key, false, false);
            let letter = |lower: char, upper: char|
                key.code == KeyCode::Char(lower) || key.code == KeyCode::Char(upper);
            &&& command == BoardCommand::Send(n) <==> key.code == KeyCode::Char(
                ('1' as int + n) as char,
            )
            &&& command == BoardCommand::BeginAssign <==> letter('a', 'A')
            &&& command == BoardCommand::Save <==> letter('s', 'S')
            &&& command == BoardCommand::Undo <==> letter('u', 'U')
            &&& command == BoardCommand::Quit <==> letter('q', 'Q')
            &&& command == BoardCommand::Toggle <==> key.code == KeyCode::Esc || (key.code
                == KeyCode::F(12) && key.shift)
            &&& command == BoardCommand::Focus(true) <==> key.code == KeyCode::Tab || key.code
                == KeyCode::Right
            &&& command == BoardCommand::Focus(false) <==> key.code == KeyCode::BackTab || key.code
                == KeyCode::Left
            &&& command == BoardCommand::Cursor((-1) as i32) <==> key.code == KeyCode::Up
                || key.code == KeyCode::Char('k')
            &&& command == BoardCommand::Cursor(1) <==> key.code == KeyCode::Down || key.code
                == KeyCode::Char('j')
            &&& key.code == KeyCode::PageUp ==> command == BoardCommand::Cursor((-15) as i32)
            &&& key.code == KeyCode::PageDown ==> command == BoardCommand::Cursor(15)
            &&& key.code == KeyCode::Home ==> command is Cursor && command->Cursor_0
                < -1_000_000_000
            &&& key.code == KeyCode::End ==> command is Cursor && command->Cursor_0 > 1_000_000_000
            &&& command == BoardCommand::Enter <==> key.code == KeyCode::Enter
            &&& command == BoardCommand::Parent <==> key.code == KeyCode::Backspace
            &&& command == BoardCommand::Mark <==> key.code == KeyCode::Insert
            &&& !(command is Assign) && !(command is CancelAssign)
        }),
{
    assert(('1' as int + 0) as char == '1');
    assert(('1' as int + 1) as char == '2');
    assert(('1' as int + 2) as char == '3');
    assert(('1' as int + 3) as char == '4');
    assert(n == 0 || n == 1 || n == 2 || n == 3);
}

/// While an assignment is armed a digit assigns its receiver and any other key cancels; nothing
/// is sent or moved by it.
pub proof fn law_an_armed_digit_assigns(key: KeyEvent, n: usize)
    requires
        n < 4,
        key.code != KeyCode::F(12),
    ensures
        ({
            let command = crate::board_screen::board_command(key, false, true);
            &&& key.code == KeyCode::Char('1') ==> command == BoardCommand::Assign(0)
            &&& key.code == KeyCode::Char('2') ==> command == BoardCommand::Assign(1)
            &&& key.code == KeyCode::Char('3') ==> command == BoardCommand::Assign(2)
            &&& key.code == KeyCode::Char('4') ==> command == BoardCommand::Assign(3)
            &&& !(key.code matches KeyCode::Char(c) && '1' <= c <= '4') ==> command
                == BoardCommand::CancelAssign
        }),
{
}

/// Every command runs as what it is called.
pub proof fn law_a_board_command_runs(a: AppModel, n: usize, forward: bool, by: i32)
    ensures
        crate::board_screen::command_run(a, BoardCommand::Send(n)) == crate::board::board_send(a, n),
        crate::board_screen::command_run(a, BoardCommand::Assign(n))
            == crate::board::receiver_assigned(a, n),
        crate::board_screen::command_run(a, BoardCommand::Undo) == crate::moves::undo_started(a),
        crate::board_screen::command_run(a, BoardCommand::Mark) == crate::board::focused_marked(a),
        crate::board_screen::command_run(a, BoardCommand::Focus(forward))
            == crate::board::focus_stepped(a, forward),
        crate::board_screen::command_run(a, BoardCommand::Cursor(by))
            == crate::board::focused_cursor_moved(a, by as int),
        crate::board_screen::command_run(a, BoardCommand::Toggle) == crate::board::board_toggled(a),
{
    reveal(crate::board_screen::command_run);
}

/// Enter and Backspace go where the focused panel's cursor and directory say; `s` saves the
/// layout; `q` leaves, with the layout saved.
pub proof fn law_a_board_command_goes(a: AppModel)
    ensures
        crate::board_screen::command_run(a, BoardCommand::Enter) == crate::board::focused_sent_to(
            a,
            crate::board::focused_dir(a.commander),
        ),
        crate::board_screen::command_run(a, BoardCommand::Parent) == crate::board::focused_sent_to(
            a,
            crate::board::focused_parent(a.commander),
        ),
        crate::board_screen::command_run(a, BoardCommand::Save) == crate::board::layout_sent(
            a,
            SaveNotice::Asked,
        ),
        crate::board_screen::command_run(a, BoardCommand::Quit).should_quit,
        crate::board_screen::command_run(a, BoardCommand::Quit).outbox
            == crate::board::layout_sent(a, SaveNotice::Silent).outbox,
        crate::board_screen::command_run(a, BoardCommand::Nothing) == a,
{
    reveal(crate::board_screen::command_run);
}

// ---------------------------------------------------------------------------------------------
// The focused panel.
// ---------------------------------------------------------------------------------------------
/// The first slot is the source, the others are the receivers in order; a slot that is replaced
/// is the one that is read there afterwards, and the others stay.
pub proof fn law_the_slots_are_the_panels(
    board: BoardModel,
    focus: int,
    other: int,
    panel: crate::panels::PanelModel,
)
    requires
        board.receivers.len() == 4,
        0 <= focus < 5,
        0 <= other < 5,
    ensures
        board.slot(0) == board.source,
        board.slot(1) == board.receivers[0],
        board.slot(2) == board.receivers[1],
        board.slot(3) == board.receivers[2],
        board.slot(4) == board.receivers[3],
        board.with_slot(focus, panel).slot(other) == if other == focus {
            panel
        } else {
            board.slot(other)
        },
        board.with_slot(focus, panel).focus == board.focus,
        board.with_slot(focus, panel).sending == board.sending,
{
}

/// A slot is read under its own name.
pub proof fn law_a_slot_is_read_under_its_name(focus: usize)
    ensures
        crate::board::slot_target(focus) == LoadTarget::BoardSource <==> focus == 0,
        focus > 0 ==> crate::board::slot_target(focus) == LoadTarget::BoardReceiver(
            (focus - 1) as usize,
        ),
{
}

/// The focus steps round the five panels, one at a time, either way.
pub proof fn law_the_board_focus_steps_by_one(a: AppModel, board: BoardModel)
    requires
        a.commander.board == Some(board),
        board.focus < 5,
    ensures
        crate::board::focus_stepped(a, true).commander.board == Some(
            BoardModel {
                focus: if board.focus == 4 {
                    0
                } else {
                    (board.focus + 1) as usize
                },
                ..board
            },
        ),
        crate::board::focus_stepped(a, false).commander.board == Some(
            BoardModel {
                focus: if board.focus == 0 {
                    4
                } else {
                    (board.focus - 1) as usize
                },
                ..board
            },
        ),
{
}

/// Insert and the cursor keys work on the focused panel and leave the other four alone; nothing is
/// sent.
pub proof fn law_the_focused_panel_is_worked_on(
    a: AppModel,
    board: BoardModel,
    delta: int,
    other: int,
)
    requires
        a.commander.board == Some(board),
        board.receivers.len() == 4,
        board.focus < 5,
        0 <= other < 5,
        other != board.focus,
    ensures
        crate::board::focused_marked(a).commander.board matches Some(b) && b.slot(
            board.focus as int,
        ) == crate::marks::select_toggled(board.slot(board.focus as int)) && b.slot(other)
            == board.slot(other),
        crate::board::focused_cursor_moved(a, delta).commander.board matches Some(b) && b.slot(
            board.focus as int,
        ) == board.slot(board.focus as int).move_cursor(delta) && b.slot(other) == board.slot(
            other,
        ),
        crate::board::focused_marked(a).outbox == a.outbox,
        crate::board::focused_cursor_moved(a, delta).outbox == a.outbox,
{
}

/// The focused panel goes to the directory it is sent to, which is read for it; the others stay.
pub proof fn law_the_focused_panel_goes(
    a: AppModel,
    board: BoardModel,
    dir: PathView,
    other: int,
)
    requires
        a.commander.board == Some(board),
        board.receivers.len() == 4,
        board.focus < 5,
        0 <= other < 5,
        other != board.focus,
    ensures
        ({
            let b = crate::board::focused_sent_to(a, Some(dir));
            &&& b.commander.board matches Some(after) && after.slot(board.focus as int).cwd == dir
                && after.slot(board.focus as int).loading && after.slot(other) == board.slot(other)
                && b.outbox.len() == a.outbox.len() + 1 && (b.outbox.last() matches EffectModel::LoadPanel(
                r,
            ) && r.dir == dir && r.target == crate::board::slot_target(board.focus) && r.generation
                == after.slot(board.focus as int).generation && r.previous == Some(
                board.slot(board.focus as int).cwd,
            ))
            &&& crate::board::focused_sent_to(a, None) == a
        }),
{
}

// ---------------------------------------------------------------------------------------------
// Receivers and the layout.
// ---------------------------------------------------------------------------------------------
/// An assigned receiver shows the directory of the focused panel, without marks, and is read; the
/// source and the other receivers stay, and no file moves.
pub proof fn law_an_assigned_receiver_shows_the_focused_directory(
    a: AppModel,
    board: BoardModel,
    receiver: usize,
    other: int,
)
    requires
        a.commander.board == Some(board),
        board.receivers.len() == 4,
        board.focus < 5,
        receiver < 4,
        0 <= other < 4,
        other != receiver,
    ensures
        ({
            let b = crate::board::receiver_assigned(a, receiver);
            let dir = board.slot(board.focus as int).cwd;
            b.commander.board matches Some(after) && after.receivers.len() == 4
                && after.receivers[receiver as int].cwd == dir
                && after.receivers[receiver as int].marks.dom().is_empty()
                && after.receivers[other] == board.receivers[other] && after.source
                == board.source && !after.assign_pending && b.outbox.len() == a.outbox.len() + 1
                && (b.outbox.last() matches EffectModel::LoadPanel(r) && r.dir == dir && r.target
                == LoadTarget::BoardReceiver(receiver))
        }),
{
    let after = crate::board::receiver_assigned(a, receiver).commander.board->Some_0;
    assert(after.receivers[other] == board.receivers[other]);
}

/// The layout that is saved is the source's directory and the receivers' in order, in the file
/// `board.json` beside the database.
pub proof fn law_the_layout_saved_is_the_one_shown(
    a: AppModel,
    board: BoardModel,
    parent: PathView,
    notice: SaveNotice,
    i: int,
)
    requires
        a.commander.board == Some(board),
        a.db_path.parent() == Some(parent),
        0 <= i < board.receivers.len(),
    ensures
        ({
            let b = crate::board::layout_sent(a, notice);
            &&& b.commander == a.commander && b.outbox.len() == a.outbox.len() + 1
            &&& b.outbox.last() matches EffectModel::SaveLayout {
                path,
                source,
                receivers,
                notice: told,
            } && path == parent.child(
                seq![
                    'b' as u8,
                    'o' as u8,
                    'a' as u8,
                    'r' as u8,
                    'd' as u8,
                    '.' as u8,
                    'j' as u8,
                    's' as u8,
                    'o' as u8,
                    'n' as u8,
                ],
            ) && source == board.source.cwd && receivers.len() == board.receivers.len()
                && receivers[i] == board.receivers[i].cwd && told == notice
        }),
{
    assert(crate::board::layout_name() =~= seq![
        'b' as u8,
        'o' as u8,
        'a' as u8,
        'r' as u8,
        'd' as u8,
        '.' as u8,
        'j' as u8,
        's' as u8,
        'o' as u8,
        'n' as u8,
    ]);
}

/// A first Board takes the saved layout; without one its source is the active panel's directory
/// and its receivers are the panels' directories, the source's where there are too few.
pub proof fn law_a_first_board_takes_the_layout(
    c: CommanderModel,
    source: PathView,
    receivers: Seq<PathView>,
    i: int,
)
    requires
        c.valid(),
        receivers.len() == 4,
        0 <= i < 4,
    ensures
        crate::board::first_board(c, Some((source, receivers))).source.cwd == source,
        crate::board::first_board(c, Some((source, receivers))).receivers[i].cwd == receivers[i],
        crate::board::first_board(c, None).source.cwd == c.panels[c.active as int].cwd,
        crate::board::first_board(c, None).receivers.len() == 4,
        crate::board::first_board(c, None).receivers[i].cwd == if i < c.panels.len() {
            c.panels[i].cwd
        } else {
            c.panels[c.active as int].cwd
        },
{
}

/// The Board opens from its kept state, or from a layout that is asked for first; open, it closes
/// with its layout saved.
pub proof fn law_the_board_opens_and_closes(a: AppModel)
    ensures
        ({
            let b = crate::board::board_toggled(a);
            let file = crate::board::layout_file(a.db_path);
            &&& a.commander.board_active ==> !b.commander.board_active && b.commander.board
                == a.commander.board
            &&& !a.commander.board_active && a.commander.board is Some ==> b.commander.board_active
                && b.outbox == a.outbox
            &&& !a.commander.board_active && a.commander.board is None && file is Some ==> b.outbox
                == a.outbox.push(EffectModel::LoadLayout(file->Some_0)) && b.commander
                == a.commander
            &&& a.commander.board_active && a.commander.board is Some && file is Some
                ==> b.outbox.len() == a.outbox.len() + 1 && b.outbox.last() is SaveLayout
        }),
{
}

/// The layout is told as saved exactly where it was, a refusal likewise, and a silent saving not at
/// all.
pub proof fn law_a_saving_is_told_as_it_went(saved: bool)
    ensures
        crate::board::save_status(SaveNotice::Asked, true) == Some("Board layout saved"@),
        crate::board::save_status(SaveNotice::Asked, false) == Some("Failed to save layout"@),
        crate::board::save_status(SaveNotice::Closing, true) == Some(
            "Board closed · layout saved"@,
        ),
        crate::board::save_status(SaveNotice::Closing, false) == Some("Board closed"@),
        crate::board::save_status(SaveNotice::Silent, saved) is None,
{
}

/// A listing for the Board goes to the slot that asked, while it is the one that is waited for, and
/// to no other.
pub proof fn law_a_board_listing_goes_where_it_was_asked_for(
    a: AppModel,
    board: BoardModel,
    focus: usize,
    generation: u64,
    entries: Seq<crate::entries::EntryModel>,
    previous: Option<PathView>,
    other: int,
)
    requires
        a.commander.board == Some(board),
        board.receivers.len() == 4,
        focus < 5,
        0 <= other < 5,
        other != focus,
    ensures
        ({
            let b = crate::answers::listing_delivered(
                a,
                crate::board::slot_target(focus),
                generation,
                entries,
                previous,
            );
            b.commander.board matches Some(after) && after.slot(other) == board.slot(other) && (
            generation != board.slot(focus as int).generation ==> after.slot(focus as int)
                == board.slot(focus as int)) && (generation == board.slot(focus as int).generation
                ==> after.slot(focus as int) == crate::panels::loaded(
                board.slot(focus as int),
                entries,
                previous,
            )) && b.commander.panels == a.commander.panels && b.outbox == a.outbox
        }),
{
}

/// After an undo on the Board all five panels are read again, and the status tells how many items
/// came back.
pub proof fn law_a_board_undo_reads_all_five(
    a: AppModel,
    board: BoardModel,
    items: Seq<(PathView, PathView)>,
    failed: usize,
    focus: usize,
)
    requires
        a.commander.board == Some(board),
        a.commander.board_active,
        board.receivers.len() == 4,
        failed <= items.len(),
        focus < 5,
    ensures
        ({
            let b = crate::board::undone(a, items, failed);
            let n = a.outbox.len() as int;
            &&& b.outbox.len() == n + 5
            &&& b.outbox[n + focus] matches EffectModel::LoadPanel(r) && r.target
                == crate::board::slot_target(focus) && r.dir == board.slot(focus as int).cwd
            &&& failed == 0 ==> b.commander.status == "Undone: "@ + crate::text::decimal(
                items.len(),
            ) + " restored"@
            &&& failed > 0 ==> b.commander.status == "Partially undone: "@ + crate::text::decimal(
                (items.len() - failed) as nat,
            ) + " restored, "@ + crate::text::decimal(failed as nat) + " errors"@
        }),
{
    let status = crate::board::board_undo_status((items.len() - failed) as nat, failed as nat);
    let told = crate::sizes::sizes_forgotten(a.say(status), crate::moves::affected_paths(items));
    assert(told.commander.board == a.commander.board && told.outbox == a.outbox);
    assert(focus == 0 || focus == 1 || focus == 2 || focus == 3 || focus == 4);
}

/// A Board that was not there is made, shown and read, all five panels of it; one that was there
/// is shown as it was left, with the focus on the source.
pub proof fn law_an_opened_board_is_read(
    a: AppModel,
    saved: Option<(PathView, Seq<PathView>)>,
    focus: usize,
)
    requires
        a.valid(),
        saved matches Some(s) ==> s.1.len() == 4,
        focus < 5,
    ensures
        ({
            let b = crate::board::board_opened(a, saved);
            let n = a.outbox.len() as int;
            &&& b.commander.board_active
            &&& a.commander.board is None ==> b.outbox.len() == n + 5 && (
            b.outbox[n + focus] matches EffectModel::LoadPanel(r) && r.target
                == crate::board::slot_target(focus) && r.dir == crate::board::first_board(
                a.commander,
                saved,
            ).slot(focus as int).cwd)
            &&& a.commander.board matches Some(board) ==> b.outbox == a.outbox && (
            b.commander.board matches Some(after) && after.focus == 0 && after.source
                == board.source && after.receivers == board.receivers && !after.assign_pending)
        }),
{
    assert(focus == 0 || focus == 1 || focus == 2 || focus == 3 || focus == 4);
}

/// On the Board the prefix arms and disarms the second layer, and any other key disarms it and runs
/// its command.
pub proof fn law_a_board_key_runs_its_command(a: AppModel, key: KeyEvent, board: BoardModel)
    requires
        a.commander.board == Some(board),
    ensures
        key.code == KeyCode::Char('`') ==> crate::board_screen::board_key(a, key) == (AppModel {
            commander: CommanderModel { second_layer: !a.commander.second_layer, ..a.commander },
            ..a
        }),
        key.code != KeyCode::Char('`') ==> crate::board_screen::board_key(a, key)
            == crate::board_screen::command_run(
            AppModel { commander: CommanderModel { second_layer: false, ..a.commander }, ..a },
            crate::board_screen::board_command(
                key,
                a.commander.second_layer,
                board.assign_pending,
            ),
        ),
{
}

} // verus!
