//! Keys and mouse of the multi-panel file manager.

use vstd::prelude::*;

use crate::actions::prepare_execution;
use crate::app::{App, AppModel, CommanderModel, CommanderState, Effect, EffectModel, Screen};
use crate::board_screen::set_layer;
use crate::canvas::Rect;
use crate::confirm::{on_key_confirm, on_key_resume_scan};
use crate::entries::Mark;
use crate::jump::jump_to_cursor_dir;
use crate::keys::{
    first_layer_key, is_entries_row_command, is_second_click, view_exposes_entries, KeyCode,
    KeyEvent, MouseEvent, MouseKind,
};
use crate::layout::{max_panels, panel_rects, regions, Regions};
use crate::marks::{mark_cursor, select_toggle_cursor, toggle_mark_cursor};
use crate::menu::{on_key_menu, on_shift_fkey, set_overlay};
use crate::moves::undo_last_move;
use crate::navigate::{
    cycle_sort, cycle_view, enter_selected, go_parent, move_active_cursor, open_panel_entry,
    panel_row_count, rows_per_entry, toggle_compare,
};
use crate::scans::{hash_cursor, scan_active_panel, show_file_info};
use crate::state::Overlay;
use crate::triage::{begin_triage, on_triage_key};

verus! {

// ---------------------------------------------------------------------------------------------
// What a key means.
// ---------------------------------------------------------------------------------------------
/// What a key asks of the commander.
#[derive(Debug, Clone, Copy, PartialEq, Eq, Structural)]
pub enum Command {
    Nothing,
    /// The receiver of a move is awaited: the key goes there.
    Triage,
    /// A second-layer F-key.
    Shift(u8),
    /// A row command in a view that shows no entries.
    RowRefused,
    Help,
    Scan,
    Info,
    Hash,
    Menu,
    Quit,
    Sessions,
    SetMark(Mark),
    Execute,
    ToggleMark,
    Sort,
    CycleView,
    Compare,
    BeginTriage,
    Undo,
    Select,
    FocusNext,
    FocusPrev,
    /// Move the cursor.
    Cursor(i32),
    Enter,
    Parent,
    Jump,
}

/// What a letter asks for.
pub open spec fn letter_command(c: char) -> Command {
    if c == '?' {
        Command::Help
    } else if c == 'x' || c == 'X' {
        Command::Execute
    } else if c == ' ' {
        Command::ToggleMark
    } else if c == 's' || c == 'S' {
        Command::Sort
    } else if c == 'v' || c == 'V' {
        Command::CycleView
    } else if c == ',' {
        Command::Compare
    } else if c == 'm' || c == 'M' {
        Command::BeginTriage
    } else if c == 'u' || c == 'U' {
        Command::Undo
    } else if c == 'q' || c == 'Q' {
        Command::Quit
    } else if c == 'k' {
        Command::Cursor((-1) as i32)
    } else if c == 'j' {
        Command::Cursor(1)
    } else if c == 'o' || c == 'O' {
        Command::Jump
    } else {
        Command::Nothing
    }
}

/// What a first-layer F-key asks for.
pub open spec fn fkey_command(n: u8) -> Command {
    if n == 1 {
        Command::Help
    } else if n == 2 {
        Command::Scan
    } else if n == 3 {
        Command::Info
    } else if n == 4 {
        Command::Hash
    } else if n == 5 {
        Command::SetMark(Mark::Hardlink)
    } else if n == 6 {
        Command::SetMark(Mark::Reflink)
    } else if n == 7 {
        Command::SetMark(Mark::Keeper)
    } else if n == 8 {
        Command::SetMark(Mark::Delete)
    } else if n == 9 {
        Command::Menu
    } else if n == 10 {
        Command::Quit
    } else if n == 11 {
        Command::Execute
    } else if n == 12 {
        Command::Sessions
    } else {
        Command::Nothing
    }
}

/// What a key asks for by itself.
pub open spec fn key_command(code: KeyCode) -> Command {
    match code {
        KeyCode::F(n) => fkey_command(n),
        KeyCode::Char(c) => letter_command(c),
        KeyCode::Insert => Command::Select,
        KeyCode::Tab => Command::FocusNext,
        KeyCode::Right => Command::FocusNext,
        KeyCode::BackTab => Command::FocusPrev,
        KeyCode::Left => Command::FocusPrev,
        KeyCode::Up => Command::Cursor((-1) as i32),
        KeyCode::Down => Command::Cursor(1),
        KeyCode::PageUp => Command::Cursor((-15) as i32),
        KeyCode::PageDown => Command::Cursor(15),
        KeyCode::Home => Command::Cursor((-1073741824) as i32),
        KeyCode::End => Command::Cursor(1073741823),
        KeyCode::Enter => Command::Enter,
        KeyCode::Backspace => Command::Parent,
        _ => Command::Nothing,
    }
}

/// What a key asks for where the layer is settled: row commands need rows.
pub open spec fn plain_command(c: CommanderModel, code: KeyCode) -> Command {
    if crate::keys::row_command(code) && !crate::panel::shows_entries(c.active_panel().view) {
        Command::RowRefused
    } else {
        key_command(code)
    }
}

/// What a key asks for, and whether the second layer is armed after it.
pub open spec fn commanded(c: CommanderModel, key: KeyEvent) -> (Command, bool) {
    if c.triage is Some {
        (Command::Triage, c.second_layer)
    } else {
        match key.code {
            KeyCode::F(n) => if key.shift || c.second_layer {
                (Command::Shift(n), false)
            } else {
                (plain_command(c, key.code), false)
            },
            KeyCode::Char('`') => (Command::Nothing, !c.second_layer),
            code => if c.second_layer {
                match crate::keys::digit_key(code) {
                    Some(n) => (plain_command(c, KeyCode::F(n)), false),
                    None => (plain_command(c, code), false),
                }
            } else {
                (plain_command(c, code), false)
            },
        }
    }
}

fn read_letter(c: char) -> (r: Command)
    ensures
        r == letter_command(c),
{
    match c {
        '?' => Command::Help,
        'x' => Command::Execute,
        'X' => Command::Execute,
        ' ' => Command::ToggleMark,
        's' => Command::Sort,
        'S' => Command::Sort,
        'v' => Command::CycleView,
        'V' => Command::CycleView,
        ',' => Command::Compare,
        'm' => Command::BeginTriage,
        'M' => Command::BeginTriage,
        'u' => Command::Undo,
        'U' => Command::Undo,
        'q' => Command::Quit,
        'Q' => Command::Quit,
        'k' => Command::Cursor(-1),
        'j' => Command::Cursor(1),
        'o' => Command::Jump,
        'O' => Command::Jump,
        _ => Command::Nothing,
    }
}

fn read_fkey(n: u8) -> (r: Command)
    ensures
        r == fkey_command(n),
{
    match n {
        1 => Command::Help,
        2 => Command::Scan,
        3 => Command::Info,
        4 => Command::Hash,
        5 => Command::SetMark(Mark::Hardlink),
        6 => Command::SetMark(Mark::Reflink),
        7 => Command::SetMark(Mark::Keeper),
        8 => Command::SetMark(Mark::Delete),
        9 => Command::Menu,
        10 => Command::Quit,
        11 => Command::Execute,
        12 => Command::Sessions,
        _ => Command::Nothing,
    }
}

fn read_key(code: KeyCode) -> (r: Command)
    ensures
        r == key_command(code),
{
    match code {
        KeyCode::F(n) => read_fkey(n),
        KeyCode::Char(c) => read_letter(c),
        KeyCode::Insert => Command::Select,
        KeyCode::Tab => Command::FocusNext,
        KeyCode::Right => Command::FocusNext,
        KeyCode::BackTab => Command::FocusPrev,
        KeyCode::Left => Command::FocusPrev,
        KeyCode::Up => Command::Cursor(-1),
        KeyCode::Down => Command::Cursor(1),
        KeyCode::PageUp => Command::Cursor(-15),
        KeyCode::PageDown => Command::Cursor(15),
        KeyCode::Home => Command::Cursor(-1073741824),
        KeyCode::End => Command::Cursor(1073741823),
        KeyCode::Enter => Command::Enter,
        KeyCode::Backspace => Command::Parent,
        _ => Command::Nothing,
    }
}

fn read_plain(commander: &CommanderState, code: KeyCode) -> (r: Command)
    requires
        commander@.valid(),
    ensures
        r == plain_command(commander@, code),
{
    if is_entries_row_command(code) && !view_exposes_entries(commander.active_panel().view) {
        Command::RowRefused
    } else {
        read_key(code)
    }
}

/// Reads a key: what it asks for, and whether the second layer is armed after it.
pub fn read_command(commander: &CommanderState, key: KeyEvent) -> (r: (Command, bool))
    requires
        commander@.valid(),
    ensures
        r == commanded(commander@, key),
{
    if commander.triage.is_some() {
        return (Command::Triage, commander.second_layer);
    }
    match key.code {
        KeyCode::F(n) => {
            if key.shift || commander.second_layer {
                (Command::Shift(n), false)
            } else {
                (read_plain(commander, key.code), false)
            }
        },
        KeyCode::Char('`') => (Command::Nothing, !commander.second_layer),
        code => {
            if commander.second_layer {
                match first_layer_key(code) {
                    Some(n) => (read_plain(commander, KeyCode::F(n)), false),
                    None => (read_plain(commander, code), false),
                }
            } else {
                (read_plain(commander, code), false)
            }
        },
    }
}

// ---------------------------------------------------------------------------------------------
// What a command does.
// ---------------------------------------------------------------------------------------------
/// The properties of the entry under the cursor, with its date.
pub open spec fn info_asked(a: AppModel, b: AppModel) -> bool {
    exists|date: Seq<char>|
        crate::scans::cursor_dated(a, date) && b == #[trigger] crate::scans::info_shown(a, date)
}

/// What a command does.
#[verifier::opaque]
pub open spec fn done(a: AppModel, command: Command, key: KeyEvent, b: AppModel) -> bool {
    match command {
        Command::Nothing => b == a,
        Command::Triage => b == crate::triage::triage_key(a, key),
        Command::Shift(n) => b == crate::menu::shifted(a, n),
        Command::RowRefused => b == a.say(
            "Row commands need «files» or «directories» view (press v)"@,
        ),
        Command::Help => b == (AppModel { show_help: true, ..a }),
        Command::Scan => b == crate::scans::scan_started(a),
        Command::Info => info_asked(a, b),
        Command::Hash => b == crate::scans::hash_requested(a),
        Command::Menu => b == a.with_overlay(Overlay::Menu { cursor: 0 }),
        Command::Quit => b == (AppModel { should_quit: true, ..a }),
        Command::Sessions => b == a.send(EffectModel::OpenWizard(Screen::Resume)),
        Command::SetMark(mark) => b == crate::marks::cursor_marked(a, mark),
        Command::Execute => crate::actions::execution_prepared(a, b),
        Command::ToggleMark => b == crate::marks::mark_toggled(a),
        Command::Sort => b == crate::navigate::sort_cycled(a),
        Command::CycleView => b == crate::navigate::view_cycled(a),
        Command::Compare => b == crate::navigate::compare_toggled(a),
        Command::BeginTriage => b == crate::triage::triage_begun(a),
        Command::Undo => b == crate::moves::undo_started(a),
        Command::Select => b == a.with_panel(
            a.commander.active as int,
            crate::marks::select_toggled(a.commander.active_panel()),
        ),
        Command::FocusNext => b == (AppModel {
            commander: crate::app::focused_next(a.commander),
            ..a
        }),
        Command::FocusPrev => b == (AppModel {
            commander: crate::app::focused_prev(a.commander),
            ..a
        }),
        Command::Cursor(delta) => b == crate::navigate::cursor_moved(a, delta as int),
        Command::Enter => b == crate::navigate::sent_to(
            a,
            a.commander.active as int,
            crate::navigate::enterable(a.commander.active_panel().selected()),
        ),
        Command::Parent => b == crate::navigate::sent_to(
            a,
            a.commander.active as int,
            a.commander.active_panel().cwd.parent(),
        ),
        Command::Jump => b == crate::jump::jumped(a),
    }
}

fn run_command(app: &mut App, command: Command, key: KeyEvent)
    requires
        old(app)@.valid(),
    ensures
        done(old(app)@, command, key, final(app)@),
{
    reveal(done);
    match command {
        Command::Nothing => {},
        Command::Triage => on_triage_key(app, key),
        Command::Shift(n) => on_shift_fkey(app, n),
        Command::RowRefused => app.say_str(
            "Row commands need «files» or «directories» view (press v)",
        ),
        Command::Help => {
            app.show_help = true;
        },
        Command::Scan => scan_active_panel(app),
        Command::Info => show_file_info(app),
        Command::Hash => hash_cursor(app),
        Command::Menu => set_overlay(app, Overlay::Menu { cursor: 0 }),
        Command::Quit => {
            app.should_quit = true;
        },
        Command::Sessions => app.send(Effect::OpenWizard(Screen::Resume)),
        Command::SetMark(mark) => mark_cursor(app, mark),
        Command::Execute => prepare_execution(app),
        Command::ToggleMark => toggle_mark_cursor(app),
        Command::Sort => cycle_sort(app),
        Command::CycleView => cycle_view(app),
        Command::Compare => toggle_compare(app),
        Command::BeginTriage => begin_triage(app),
        Command::Undo => undo_last_move(app),
        Command::Select => select_toggle_cursor(app),
        Command::FocusNext => app.commander.focus_next(),
        Command::FocusPrev => app.commander.focus_prev(),
        Command::Cursor(delta) => move_active_cursor(app, delta),
        Command::Enter => enter_selected(app),
        Command::Parent => go_parent(app),
        Command::Jump => jump_to_cursor_dir(app),
    }
}

/// What a key does outside modal overlays: the second layer is settled first, then the command
/// runs.
pub open spec fn key_dispatched(a: AppModel, key: KeyEvent, b: AppModel) -> bool {
    let (command, layer) = commanded(a.commander, key);
    done(crate::board_screen::layer_set(a, layer), command, key, b)
}

/// Key dispatcher for the active commander screen (outside modal overlays).
pub fn dispatch_key(app: &mut App, key: KeyEvent)
    requires
        old(app)@.valid(),
    ensures
        key_dispatched(old(app)@, key, final(app)@),
{
    let (command, layer) = read_command(&app.commander, key);
    set_layer(app, layer);
    run_command(app, command, key);
}

/// Row commands run exactly in the views whose rows are entries; every other view refuses them,
/// and changes nothing but the status line and the armed layer.
pub proof fn law_row_commands_need_rows(a: AppModel, key: KeyEvent, b: AppModel)
    requires
        a.commander.triage is None,
        !a.commander.second_layer,
        !key.shift,
        crate::keys::row_command(key.code),
        key_dispatched(a, key, b),
    ensures
        !crate::panel::shows_entries(a.commander.active_panel().view) ==> b
            == crate::board_screen::layer_set(a, false).say(
            "Row commands need «files» or «directories» view (press v)"@,
        ),
        crate::panel::shows_entries(a.commander.active_panel().view) ==> done(
            crate::board_screen::layer_set(a, false),
            key_command(key.code),
            key,
            b,
        ),
{
    reveal(done);
}

/// What an F-key does is also reached by the prefix and a digit: no terminal that keeps F10 or F11
/// for itself takes a command away.
pub proof fn law_a_digit_stands_for_its_key(c: CommanderModel, code: KeyCode, n: u8)
    requires
        c.triage is None,
        crate::keys::digit_key(code) == Some(n),
    ensures
        commanded(CommanderModel { second_layer: true, ..c }, KeyEvent { code, shift: false }).0
            == commanded(
            CommanderModel { second_layer: false, ..c },
            KeyEvent { code: KeyCode::F(n), shift: false },
        ).0,
{
}

// ---------------------------------------------------------------------------------------------
// Input as a whole.
// ---------------------------------------------------------------------------------------------
/// What a key does while an overlay is open.
pub open spec fn overlay_key(a: AppModel, key: KeyEvent, b: AppModel) -> bool {
    match a.commander.overlay {
        Overlay::Menu { cursor } => crate::menu::menu_key(a, key, cursor, b),
        Overlay::Confirm { .. } => crate::confirm::confirm_key(a, key, b),
        Overlay::FileInfo => b == (if key.code == KeyCode::Esc || key.code == KeyCode::F(3)
            || key.code == KeyCode::Enter {
            a.with_overlay(Overlay::Closed)
        } else {
            a
        }),
        Overlay::ResumeScan => b == crate::confirm::resume_key(a, key),
        Overlay::Closed => b == a,
    }
}

/// Input while an overlay is open.
pub fn on_key_overlay(app: &mut App, key: KeyEvent)
    requires
        old(app)@.valid(),
    ensures
        overlay_key(old(app)@, key, final(app)@),
{
    match app.commander.overlay {
        Overlay::Menu { cursor } => on_key_menu(app, key, cursor),
        Overlay::Confirm { .. } => on_key_confirm(app, key),
        Overlay::FileInfo => {
            if matches!(key.code, KeyCode::Esc | KeyCode::F(3) | KeyCode::Enter) {
                set_overlay(app, Overlay::Closed);
            }
        },
        Overlay::ResumeScan => on_key_resume_scan(app, key),
        Overlay::Closed => {},
    }
}

/// What a key does: Esc stops a running auto-select; the Board takes every other key while it is
/// shown, then an open overlay does.
pub open spec fn commander_key(a: AppModel, key: KeyEvent, b: AppModel) -> bool {
    if key.code == KeyCode::Esc && a.auto_select {
        b == a.send(EffectModel::CancelAutoSelect)
    } else if a.commander.board_active {
        b == crate::board_screen::board_key(a, key)
    } else if !(a.commander.overlay is Closed) {
        overlay_key(a, key, b)
    } else {
        key_dispatched(a, key, b)
    }
}

/// Handles a key in commander mode.
pub fn on_key(app: &mut App, key: KeyEvent)
    requires
        old(app)@.valid(),
    ensures
        commander_key(old(app)@, key, final(app)@),
{
    if matches!(key.code, KeyCode::Esc) && app.auto_select {
        app.send(Effect::CancelAutoSelect);
        return;
    }
    if app.commander.board_active {
        crate::board_screen::on_key(app, key);
        return;
    }
    if !matches!(app.commander.overlay, Overlay::Closed) {
        on_key_overlay(app, key);
        return;
    }
    dispatch_key(app, key);
}

// ---------------------------------------------------------------------------------------------
// The mouse.
// ---------------------------------------------------------------------------------------------
/// How many panels are shown: as many as fit, at least one.
pub open spec fn panels_shown(c: CommanderModel, width: u16) -> int {
    let fits = crate::layout::panels_that_fit(width);
    if c.panels.len() < fits {
        c.panels.len() as int
    } else {
        fits
    }
}

/// How many panels to actually show (no more than fit by width).
pub fn visible_panel_count(commander: &CommanderState, width: u16) -> (r: usize)
    requires
        commander@.valid(),
    ensures
        r == panels_shown(commander@, width),
        1 <= r <= 4,
{
    assert(commander@.panels.len() == commander.panels@.len());
    let fits: usize = max_panels(width);
    if commander.panels.len() < fits {
        commander.panels.len()
    } else {
        fits
    }
}

/// The first panel shown: the window always has the active panel in it.
pub open spec fn first_shown(c: CommanderModel, visible: int) -> int {
    if c.active < visible {
        0
    } else {
        c.active + 1 - visible
    }
}

/// The active panel is always in the window of those shown, and the window does not run past the
/// last panel.
pub proof fn law_the_active_panel_is_shown(c: CommanderModel, width: u16)
    requires
        c.valid(),
    ensures
        first_shown(c, panels_shown(c, width)) <= c.active < first_shown(
            c,
            panels_shown(c, width),
        ) + panels_shown(c, width) <= c.panels.len(),
{
}

/// The entry of a panel under a row of the screen, by the height of its entries.
pub open spec fn entry_hit(c: CommanderModel, index: int, rect: Rect, row: u16) -> Option<usize> {
    let p = c.panels[index];
    let line = row - rect.y - 1;
    let inner = if rect.height > 2 {
        rect.height - 2
    } else {
        0
    };
    let entry = p.list.offset + line / crate::navigate::entry_height(p.view, rect.width) as int;
    if line < 0 || line >= inner || entry >= crate::navigate::row_count(c, index) {
        None
    } else {
        Some(entry as usize)
    }
}

/// The first of the shown panels, from a slot on, that covers a point.
pub open spec fn slot_hit(
    c: CommanderModel,
    rects: Seq<Rect>,
    start: int,
    from: int,
    column: u16,
    row: u16,
) -> Option<int>
    decreases rects.len() - from,
{
    if from < 0 || from >= rects.len() || start + from >= c.panels.len() {
        None
    } else if rects[from].covers(column, row) {
        Some(from)
    } else {
        slot_hit(c, rects, start, from + 1, column, row)
    }
}

/// Which panel, and which of its entries, is under a point, where the shown panels take `rects`.
pub open spec fn hit(
    c: CommanderModel,
    at: Regions,
    rects: Seq<Rect>,
    column: u16,
    row: u16,
) -> Option<(int, Option<usize>)> {
    let start = first_shown(c, panels_shown(c, at.panels.width));
    if !at.panels.covers(column, row) {
        None
    } else {
        match slot_hit(c, rects, start, 0, column, row) {
            Some(slot) => Some((start + slot, entry_hit(c, start + slot, rects[slot], row))),
            None => None,
        }
    }
}

fn entry_at(app: &App, index: usize, rect: Rect, row: u16) -> (r: Option<usize>)
    requires
        index < app@.commander.panels.len(),
    ensures
        r == entry_hit(app@.commander, index as int, rect, row),
{
    let panel = &app.commander.panels[index];
    let count: usize = panel_row_count(app, index);
    let height: u16 = rows_per_entry(panel.view, rect.width);
    let inner: u16 = rect.height.saturating_sub(2);
    if row <= rect.y {
        return None;
    }
    let line: u16 = row - rect.y - 1;
    if line >= inner {
        return None;
    }
    let down: usize = (line / height) as usize;
    if panel.list.offset >= count || count - panel.list.offset <= down {
        return None;
    }
    Some(panel.list.offset + down)
}

/// Which panel (and which of its entries, if the cursor is on an entry row) is under the point,
/// where the shown panels take `rects`.
pub fn panel_hit(app: &App, at: &Regions, rects: &Vec<Rect>, column: u16, row: u16) -> (r: Option<
    (usize, Option<usize>),
>)
    requires
        app@.valid(),
        rects@.len() <= u16::MAX,
    ensures
        match r {
            Some((index, entry)) => hit(app@.commander, *at, rects@, column, row) == Some(
                (index as int, entry),
            ) && index < app@.commander.panels.len(),
            None => hit(app@.commander, *at, rects@, column, row) is None,
        },
{
    if !at.panels.contains(column, row) {
        return None;
    }
    assert(app@.commander.panels.len() == app.commander.panels@.len());
    let total: usize = app.commander.panels.len();
    let visible: usize = visible_panel_count(&app.commander, at.panels.width);
    let start: usize = if app.commander.active < visible {
        0
    } else {
        app.commander.active + 1 - visible
    };
    let ghost c = app@.commander;
    let mut slot: usize = 0;
    while slot < rects.len() && start + slot < total
        invariant
            slot <= rects@.len() <= u16::MAX,
            start <= 4,
            total == app@.commander.panels.len(),
            c == app@.commander,
            start == first_shown(c, panels_shown(c, at.panels.width)),
            at.panels.covers(column, row),
            slot_hit(c, rects@, start as int, 0, column, row) == slot_hit(
                c,
                rects@,
                start as int,
                slot as int,
                column,
                row,
            ),
        decreases rects@.len() - slot,
    {
        if rects[slot].contains(column, row) {
            let entry = entry_at(app, start + slot, rects[slot], row);
            return Some((start + slot, entry));
        }
        slot = slot + 1;
    }
    None
}

/// The focus on a panel.
pub open spec fn panel_focused(a: AppModel, index: int) -> AppModel {
    AppModel { commander: CommanderModel { active: index as usize, ..a.commander }, ..a }
}

fn focus_panel(app: &mut App, index: usize)
    requires
        old(app)@.valid(),
        index < old(app)@.commander.panels.len(),
    ensures
        final(app)@ == panel_focused(old(app)@, index as int),
        final(app)@.valid(),
{
    app.commander.active = index;
}

/// A click on an entry: focus and cursor go there; the second click of a double click opens it.
pub open spec fn entry_clicked(a: AppModel, index: int, entry: usize, now: u64) -> AppModel {
    let there = panel_focused(a, index).with_panel(
        index,
        a.commander.panels[index].select(entry as int),
    );
    if crate::keys::second_click(a.commander.last_click, now, index as usize, entry) {
        crate::navigate::opened_entry(
            crate::board_screen::click_noted(there, None),
            index,
            entry,
        )
    } else {
        crate::board_screen::click_noted(there, Some((now, index as usize, entry)))
    }
}

fn note_click(app: &mut App, click: Option<(u64, usize, usize)>)
    ensures
        final(app)@ == crate::board_screen::click_noted(old(app)@, click),
{
    app.commander.last_click = click;
}

fn click_entry(app: &mut App, index: usize, entry: usize, now: u64)
    requires
        old(app)@.valid(),
        index < old(app)@.commander.panels.len(),
    ensures
        final(app)@ == entry_clicked(old(app)@, index as int, entry, now),
{
    let double = is_second_click(app.commander.last_click, now, index, entry);
    focus_panel(app, index);
    app.panel_mut(index).select(entry);
    if double {
        note_click(app, None);
        open_panel_entry(app, index, entry);
    } else {
        note_click(app, Some((now, index, entry)));
    }
}

/// A click on the F-key line: the key under the pointer, in the armed layer.
pub open spec fn footer_key(c: CommanderModel, fkeys: Rect, column: u16) -> KeyEvent {
    KeyEvent {
        code: KeyCode::F(
            crate::keys::clicked_key(
                if column > fkeys.x {
                    column - fkeys.x
                } else {
                    0
                },
                fkeys.width as int,
            ) as u8,
        ),
        shift: c.second_layer,
    }
}

fn key_of_click(commander: &CommanderState, fkeys: Rect, column: u16) -> (r: KeyEvent)
    requires
        fkeys.width > 0,
    ensures
        r == footer_key(commander@, fkeys, column),
{
    let rel: u32 = column.saturating_sub(fkeys.x) as u32;
    let cell: u32 = rel * 12 / fkeys.width as u32 + 1;
    let n: u8 = if cell < 12 {
        cell as u8
    } else {
        12
    };
    KeyEvent { code: KeyCode::F(n), shift: commander.second_layer }
}

/// The wheel over a panel: the focus goes there and its cursor moves.
pub open spec fn wheeled(
    a: AppModel,
    under: Option<(int, Option<usize>)>,
    delta: int,
) -> AppModel {
    match under {
        Some((index, _)) => crate::navigate::cursor_moved(panel_focused(a, index), delta),
        None => a,
    }
}

/// What the mouse does on a screen split into `at`, where the shown panels take `rects`: a click
/// on the F-key line runs the key, one on an entry goes there, the wheel scrolls.
pub open spec fn moused(
    a: AppModel,
    mouse: MouseEvent,
    at: Regions,
    rects: Seq<Rect>,
    now: u64,
    b: AppModel,
) -> bool {
    let under = hit(a.commander, at, rects, mouse.column, mouse.row);
    match mouse.kind {
        MouseKind::LeftDown => if at.fkeys.covers(mouse.column, mouse.row) && at.fkeys.width > 0 {
            key_dispatched(a, footer_key(a.commander, at.fkeys, mouse.column), b)
        } else {
            match under {
                Some((index, Some(entry))) => b == entry_clicked(a, index, entry, now),
                _ => b == a,
            }
        },
        MouseKind::ScrollDown => b == wheeled(a, under, 1),
        MouseKind::ScrollUp => b == wheeled(a, under, -1),
        MouseKind::Other => b == a,
    }
}

fn wheel(app: &mut App, under: Option<(usize, Option<usize>)>, delta: i32)
    requires
        old(app)@.valid(),
        under matches Some((index, _)) ==> index < old(app)@.commander.panels.len(),
    ensures
        final(app)@ == wheeled(
            old(app)@,
            match under {
                Some((index, entry)) => Some((index as int, entry)),
                None => None,
            },
            delta as int,
        ),
{
    if let Some((index, _)) = under {
        focus_panel(app, index);
        move_active_cursor(app, delta);
    }
}

/// The mouse on a screen split into `at`, where the shown panels take `rects`; `now` is in
/// milliseconds.
pub fn mouse_at(app: &mut App, mouse: MouseEvent, at: &Regions, rects: &Vec<Rect>, now: u64)
    requires
        old(app)@.valid(),
        rects@.len() <= u16::MAX,
    ensures
        moused(old(app)@, mouse, *at, rects@, now, final(app)@),
{
    match mouse.kind {
        MouseKind::LeftDown => {
            if at.fkeys.contains(mouse.column, mouse.row) && at.fkeys.width > 0 {
                let key = key_of_click(&app.commander, at.fkeys, mouse.column);
                dispatch_key(app, key);
                return;
            }
            if let Some((index, Some(entry))) = panel_hit(
                app,
                at,
                rects,
                mouse.column,
                mouse.row,
            ) {
                click_entry(app, index, entry, now);
            }
        },
        MouseKind::ScrollDown => {
            let under = panel_hit(app, at, rects, mouse.column, mouse.row);
            wheel(app, under, 1);
        },
        MouseKind::ScrollUp => {
            let under = panel_hit(app, at, rects, mouse.column, mouse.row);
            wheel(app, under, -1);
        },
        MouseKind::Other => {},
    }
}

/// The screen's regions as they are split.
pub open spec fn regions_of(at: Regions, area: Rect) -> bool {
    &&& at.header.within(area) && at.panels.within(area) && at.status.within(area)
        && at.fkeys.within(area)
    &&& crate::layout::bounded(area) ==> at == crate::layout::screen_regions(area)
}

/// Panels side by side in an area.
pub open spec fn panels_in(rects: Seq<Rect>, area: Rect, count: int) -> bool {
    &&& rects.len() == count
    &&& forall|i: int|
        0 <= i < rects.len() ==> (#[trigger] rects[i]).within(area) && rects[i].y == area.y
            && rects[i].height == area.height
    &&& crate::layout::bounded(area) && count <= 32 ==> forall|i: int|
        0 <= i < rects.len() ==> #[trigger] rects[i] == crate::layout::panel_slot(area, count, i)
}

/// What the mouse does in commander mode: the Board takes it while it is shown; an open overlay
/// and an awaited receiver ignore it.
pub open spec fn commander_mouse(a: AppModel, mouse: MouseEvent, now: u64, b: AppModel) -> bool {
    if a.commander.board_active {
        exists|rows: crate::layout::ThreeRows, slots: crate::layout::BoardRegions|
            crate::board_screen::rows_within(rows, crate::board_screen::screen_of(a.commander))
                && #[trigger] crate::board_screen::slots_within(slots, rows.top) && b
                == crate::board_screen::board_mouse(a, mouse, slots, now)
    } else if !(a.commander.overlay is Closed) || a.commander.triage is Some {
        b == a
    } else {
        exists|at: Regions, rects: Seq<Rect>|
            regions_of(at, crate::board_screen::screen_of(a.commander)) && #[trigger] panels_in(
                rects,
                at.panels,
                panels_shown(a.commander, at.panels.width),
            ) && moused(a, mouse, at, rects, now, b)
    }
}

/// Handling of mouse events in commander mode: a left click on a panel entry moves focus and the
/// cursor, a double click on a directory enters it, a click on the footer runs an F-command, the
/// wheel scrolls the panel. `now` is in milliseconds.
pub fn on_mouse(app: &mut App, mouse: MouseEvent, now: u64)
    requires
        old(app)@.valid(),
    ensures
        commander_mouse(old(app)@, mouse, now, final(app)@),
{
    if app.commander.board_active {
        crate::board_screen::on_mouse(app, mouse, now);
        return;
    }
    if !matches!(app.commander.overlay, Overlay::Closed) || app.commander.triage.is_some() {
        return;
    }
    let area = Rect {
        x: 0,
        y: 0,
        width: app.commander.term_width,
        height: app.commander.term_height,
    };
    let at = regions(area);
    let visible: usize = visible_panel_count(&app.commander, at.panels.width);
    let rects = panel_rects(at.panels, visible);
    assert(regions_of(at, area));
    assert(panels_in(rects@, at.panels, visible as int));
    mouse_at(app, mouse, &at, &rects, now);
}

} // verus!
