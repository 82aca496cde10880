//! The Triage Board on screen: its input and its picture.

use vstd::prelude::*;

use crate::app::{App, AppModel, CommanderModel, CommanderState, SaveNotice};
use crate::board::{
    assign_pending, assign_receiver, begin_assign, clear_assign, enter_focused, focus_step,
    mark_focused_cursor, move_focused_cursor, parent_focused, save_layout, send_to_receiver,
    set_cursor, set_focus, toggle,
};
use crate::canvas::{
    no_lines, push_line, Canvas, Color, Line, Rect, Style, Widget, WidgetModel,
};
use crate::keys::{is_second_click, KeyCode, KeyEvent, MouseEvent, MouseKind};
use crate::layout::{board_regions, split_rows, BoardRegions, Extent, ThreeRows};
use crate::moves::undo_last_move;
use crate::panel::{render_panel, MatchKey, Scene, SceneModel};
use crate::panels::{Panel, PanelModel};
use crate::state::{BoardModel, BoardState};
use crate::text::push_usize;

verus! {

// ---------------------------------------------------------------------------------------------
// Keys.
// ---------------------------------------------------------------------------------------------
/// What a key means on the Board.
#[derive(Debug, Clone, Copy, PartialEq, Eq, Structural)]
pub enum BoardCommand {
    Nothing,
    /// Close the Board.
    Toggle,
    /// Assign the focused directory to a receiver.
    Assign(usize),
    CancelAssign,
    /// Focus the next panel, or the previous one.
    Focus(bool),
    /// Move the cursor.
    Cursor(i32),
    Enter,
    Parent,
    Mark,
    /// Send to a receiver.
    Send(usize),
    BeginAssign,
    Save,
    Undo,
    Quit,
}

/// The receiver that a digit names.
pub open spec fn receiver_digit(c: char) -> Option<usize> {
    if '1' <= c <= '4' {
        Some((c as int - '1' as int) as usize)
    } else {
        None
    }
}

fn digit_of(c: char) -> (r: Option<usize>)
    ensures
        r == receiver_digit(c),
        r matches Some(n) ==> n < 4,
{
    if '1' <= c && c <= '4' {
        Some((c as u32 - 49) as usize)
    } else {
        None
    }
}

/// What a letter or digit means.
pub open spec fn board_letter(c: char) -> BoardCommand {
    match receiver_digit(c) {
        Some(n) => BoardCommand::Send(n),
        None => if c == 'k' {
            BoardCommand::Cursor((-1) as i32)
        } else if c == 'j' {
            BoardCommand::Cursor(1)
        } else if c == 'a' || c == 'A' {
            BoardCommand::BeginAssign
        } else if c == 's' || c == 'S' {
            BoardCommand::Save
        } else if c == 'u' || c == 'U' {
            BoardCommand::Undo
        } else if c == 'q' || c == 'Q' {
            BoardCommand::Quit
        } else {
            BoardCommand::Nothing
        },
    }
}

/// What a key means: F12 in the second layer or with Shift closes the Board; while an assignment
/// is armed a digit assigns and everything else cancels; otherwise the key does its own work.
pub open spec fn board_command(key: KeyEvent, layered: bool, assigning: bool) -> BoardCommand {
    if key.code == KeyCode::F(12) && (layered || key.shift) {
        BoardCommand::Toggle
    } else if assigning {
        match key.code {
            KeyCode::Char(c) => match receiver_digit(c) {
                Some(n) => BoardCommand::Assign(n),
                None => BoardCommand::CancelAssign,
            },
            _ => BoardCommand::CancelAssign,
        }
    } else {
        match key.code {
            KeyCode::Esc => BoardCommand::Toggle,
            KeyCode::Tab => BoardCommand::Focus(true),
            KeyCode::Right => BoardCommand::Focus(true),
            KeyCode::BackTab => BoardCommand::Focus(false),
            KeyCode::Left => BoardCommand::Focus(false),
            KeyCode::Up => BoardCommand::Cursor((-1) as i32),
            KeyCode::Down => BoardCommand::Cursor(1),
            KeyCode::PageUp => BoardCommand::Cursor((-15) as i32),
            KeyCode::PageDown => BoardCommand::Cursor(15),
            KeyCode::Home => BoardCommand::Cursor((-1073741824) as i32),
            KeyCode::End => BoardCommand::Cursor(1073741823),
            KeyCode::Enter => BoardCommand::Enter,
            KeyCode::Backspace => BoardCommand::Parent,
            KeyCode::Insert => BoardCommand::Mark,
            KeyCode::Char(c) => board_letter(c),
            _ => BoardCommand::Nothing,
        }
    }
}

fn letter_command(c: char) -> (r: BoardCommand)
    ensures
        r == board_letter(c),
        r matches BoardCommand::Send(n) ==> n < 4,
{
    if let Some(n) = digit_of(c) {
        return BoardCommand::Send(n);
    }
    match c {
        'k' => BoardCommand::Cursor(-1),
        'j' => BoardCommand::Cursor(1),
        'a' => BoardCommand::BeginAssign,
        'A' => BoardCommand::BeginAssign,
        's' => BoardCommand::Save,
        'S' => BoardCommand::Save,
        'u' => BoardCommand::Undo,
        'U' => BoardCommand::Undo,
        'q' => BoardCommand::Quit,
        'Q' => BoardCommand::Quit,
        _ => BoardCommand::Nothing,
    }
}

/// Reads a key.
pub fn command_of(key: KeyEvent, layered: bool, assigning: bool) -> (r: BoardCommand)
    ensures
        r == board_command(key, layered, assigning),
        r matches BoardCommand::Send(n) ==> n < 4,
        r matches BoardCommand::Assign(n) ==> n < 4,
{
    if matches!(key.code, KeyCode::F(12)) && (layered || key.shift) {
        return BoardCommand::Toggle;
    }
    if assigning {
        return match key.code {
            KeyCode::Char(c) => match digit_of(c) {
                Some(n) => BoardCommand::Assign(n),
                None => BoardCommand::CancelAssign,
            },
            _ => BoardCommand::CancelAssign,
        };
    }
    match key.code {
        KeyCode::Esc => BoardCommand::Toggle,
        KeyCode::Tab => BoardCommand::Focus(true),
        KeyCode::Right => BoardCommand::Focus(true),
        KeyCode::BackTab => BoardCommand::Focus(false),
        KeyCode::Left => BoardCommand::Focus(false),
        KeyCode::Up => BoardCommand::Cursor(-1),
        KeyCode::Down => BoardCommand::Cursor(1),
        KeyCode::PageUp => BoardCommand::Cursor(-15),
        KeyCode::PageDown => BoardCommand::Cursor(15),
        KeyCode::Home => BoardCommand::Cursor(-1073741824),
        KeyCode::End => BoardCommand::Cursor(1073741823),
        KeyCode::Enter => BoardCommand::Enter,
        KeyCode::Backspace => BoardCommand::Parent,
        KeyCode::Insert => BoardCommand::Mark,
        KeyCode::Char(c) => letter_command(c),
        _ => BoardCommand::Nothing,
    }
}

/// The second layer armed or not.
pub open spec fn layer_set(a: AppModel, armed: bool) -> AppModel {
    AppModel { commander: CommanderModel { second_layer: armed, ..a.commander }, ..a }
}

/// Arms or disarms the second layer.
pub fn set_layer(app: &mut App, armed: bool)
    ensures
        final(app)@ == layer_set(old(app)@, armed),
        old(app)@.valid() ==> final(app)@.valid(),
{
    app.commander.second_layer = armed;
}

/// The Board left for good, its layout sent to be saved.
pub open spec fn board_quit(a: AppModel) -> AppModel {
    AppModel { should_quit: true, ..crate::board::layout_sent(a, SaveNotice::Silent) }
}

/// A command carried out.
#[verifier::opaque]
pub open spec fn command_run(a: AppModel, command: BoardCommand) -> AppModel {
    match command {
        BoardCommand::Nothing => a,
        BoardCommand::Toggle => crate::board::board_toggled(a),
        BoardCommand::Assign(n) => crate::board::receiver_assigned(a, n),
        BoardCommand::CancelAssign => crate::board::assignment(a, false).say(
            "Assignment cancelled"@,
        ),
        BoardCommand::Focus(forward) => crate::board::focus_stepped(a, forward),
        BoardCommand::Cursor(delta) => crate::board::focused_cursor_moved(a, delta as int),
        BoardCommand::Enter => crate::board::focused_sent_to(
            a,
            crate::board::focused_dir(a.commander),
        ),
        BoardCommand::Parent => crate::board::focused_sent_to(
            a,
            crate::board::focused_parent(a.commander),
        ),
        BoardCommand::Mark => crate::board::focused_marked(a),
        BoardCommand::Send(n) => crate::board::board_send(a, n),
        BoardCommand::BeginAssign => crate::board::assignment(a, true).say(
            "Assign receiver: digit 1–4 = current focused directory · Esc cancel"@,
        ),
        BoardCommand::Save => crate::board::layout_sent(a, SaveNotice::Asked),
        BoardCommand::Undo => crate::moves::undo_started(a),
        BoardCommand::Quit => board_quit(a),
    }
}

fn quit(app: &mut App)
    ensures
        final(app)@ == board_quit(old(app)@),
{
    save_layout(app, SaveNotice::Silent);
    app.should_quit = true;
}

fn run_command(app: &mut App, command: BoardCommand)
    requires
        old(app)@.valid(),
        command matches BoardCommand::Send(n) ==> n < 4,
        command matches BoardCommand::Assign(n) ==> n < 4,
    ensures
        final(app)@ == command_run(old(app)@, command),
{
    reveal(command_run);
    match command {
        BoardCommand::Nothing => {},
        BoardCommand::Toggle => toggle(app),
        BoardCommand::Assign(n) => assign_receiver(app, n),
        BoardCommand::CancelAssign => clear_assign(app),
        BoardCommand::Focus(forward) => focus_step(app, forward),
        BoardCommand::Cursor(delta) => move_focused_cursor(app, delta),
        BoardCommand::Enter => enter_focused(app),
        BoardCommand::Parent => parent_focused(app),
        BoardCommand::Mark => mark_focused_cursor(app),
        BoardCommand::Send(n) => send_to_receiver(app, n),
        BoardCommand::BeginAssign => begin_assign(app),
        BoardCommand::Save => save_layout(app, SaveNotice::Asked),
        BoardCommand::Undo => undo_last_move(app),
        BoardCommand::Quit => quit(app),
    }
}

/// A key on the Board: the prefix arms or disarms the second layer, any other key disarms it and
/// does its work.
pub open spec fn board_key(a: AppModel, key: KeyEvent) -> AppModel {
    if key.code == KeyCode::Char('`') {
        layer_set(a, !a.commander.second_layer)
    } else {
        command_run(
            layer_set(a, false),
            board_command(key, a.commander.second_layer, crate::board::assigning(a.commander)),
        )
    }
}

/// Triage Board input. Focus cycles across all 5 panels; `↑↓/Enter/Backspace/Insert` act on the
/// focused panel; `1`–`4` — send to receiver; `a`+digit — assign a directory to a receiver; `u` —
/// undo; `Esc`/`` `+F12 `` — exit.
pub fn on_key(app: &mut App, key: KeyEvent)
    requires
        old(app)@.valid(),
    ensures
        final(app)@ == board_key(old(app)@, key),
{
    let layered = app.commander.second_layer;
    if matches!(key.code, KeyCode::Char('`')) {
        set_layer(app, !layered);
        return;
    }
    let assigning = assign_pending(app);
    set_layer(app, false);
    run_command(app, command_of(key, layered, assigning));
}

/// While an assignment is armed no key moves, marks or sends anything.
pub proof fn law_an_armed_assignment_swallows_keys(key: KeyEvent, layered: bool)
    ensures
        board_command(key, layered, true) is Toggle || board_command(key, layered, true) is Assign
            || board_command(key, layered, true) is CancelAssign,
{
}

// ---------------------------------------------------------------------------------------------
// Mouse.
// ---------------------------------------------------------------------------------------------
/// The Board's rows: a status line as far as there is one row, a legend as far as there are two, and
/// the panels above them.
pub open spec fn board_strips(area: Rect) -> ThreeRows {
    let h = area.height as int;
    let status: int = if h >= 1 {
        1
    } else {
        0
    };
    let legend: int = if h >= 2 {
        1
    } else {
        0
    };
    ThreeRows {
        top: crate::layout::strip(area, 0, h - status - legend),
        middle: crate::layout::strip(area, h - status - legend, status),
        bottom: crate::layout::strip(area, h - legend, legend),
    }
}

/// The Board's rows lie in the area they were split from, one below the other: the status line comes
/// before the legend, and the panels have what is left.
pub open spec fn rows_within(rows: ThreeRows, area: Rect) -> bool {
    &&& rows.top.within(area) && rows.middle.within(area) && rows.bottom.within(area)
    &&& crate::layout::bounded(area) ==> rows == board_strips(area)
}

/// The Board's panels lie in the area they were split from.
pub open spec fn slots_within(slots: BoardRegions, area: Rect) -> bool {
    &&& slots.left_top.within(area) && slots.left_bot.within(area) && slots.center.within(area)
        && slots.right_top.within(area) && slots.right_bot.within(area)
    &&& crate::layout::bounded(area) ==> slots == crate::layout::board_slots(area)
}

/// Splits the Board area vertically: panels, status line, legend.
pub fn board_rows(area: Rect) -> (r: ThreeRows)
    ensures
        rows_within(r, area),
{
    let extents: Vec<Extent> = vec![Extent::Min(0), Extent::Length(1), Extent::Length(1)];
    let rows = split_rows(&extents, area);
    proof {
        reveal_with_fuel(crate::layout::asked, 4);
        reveal_with_fuel(crate::layout::strip_start, 4);
        assert(rows@[0].within(area) && rows@[1].within(area) && rows@[2].within(area));
        if crate::layout::bounded(area) {
            if area.height >= 2 {
                assert(crate::layout::settled(extents@, area.height as int, 0));
            } else {
                assert(crate::layout::crowded(extents@, area.height as int, 0));
                assert(crate::layout::footed(extents@));
                let spans = crate::layout::row_spans(rows@);
                assert(spans[1].0 == spans[0].0 + spans[0].1);
                assert(spans[2].0 == spans[1].0 + spans[1].1);
            }
            let strips = board_strips(area);
            assert(rows@[0] == strips.top);
            assert(rows@[1] == strips.middle);
            assert(rows@[2] == strips.bottom);
        }
    }
    ThreeRows { top: rows[0], middle: rows[1], bottom: rows[2] }
}

/// The rectangle of a focus slot.
pub open spec fn slot_rect(slots: BoardRegions, focus: int) -> Rect {
    if focus == 0 {
        slots.center
    } else if focus == 1 {
        slots.left_top
    } else if focus == 2 {
        slots.left_bot
    } else if focus == 3 {
        slots.right_top
    } else {
        slots.right_bot
    }
}

/// The focus slot under a point, the source first.
pub open spec fn slot_at(slots: BoardRegions, column: u16, row: u16) -> Option<usize> {
    if slots.center.covers(column, row) {
        Some(0)
    } else if slots.left_top.covers(column, row) {
        Some(1)
    } else if slots.left_bot.covers(column, row) {
        Some(2)
    } else if slots.right_top.covers(column, row) {
        Some(3)
    } else if slots.right_bot.covers(column, row) {
        Some(4)
    } else {
        None
    }
}

fn find_slot(slots: &BoardRegions, column: u16, row: u16) -> (r: Option<(usize, Rect)>)
    ensures
        match r {
            Some((focus, rect)) => slot_at(*slots, column, row) == Some(focus) && focus <= 4
                && rect == slot_rect(*slots, focus as int),
            None => slot_at(*slots, column, row) is None,
        },
{
    if slots.center.contains(column, row) {
        Some((0, slots.center))
    } else if slots.left_top.contains(column, row) {
        Some((1, slots.left_top))
    } else if slots.left_bot.contains(column, row) {
        Some((2, slots.left_bot))
    } else if slots.right_top.contains(column, row) {
        Some((3, slots.right_top))
    } else if slots.right_bot.contains(column, row) {
        Some((4, slots.right_bot))
    } else {
        None
    }
}

/// The entry of a panel under a row of the screen: entries start below the top border and end
/// above the lower one.
pub open spec fn entry_under(p: PanelModel, rect: Rect, row: u16) -> Option<usize> {
    let line = row - rect.y - 1;
    let inner = if rect.height > 2 {
        rect.height - 2
    } else {
        0
    };
    let index = p.list.offset + line;
    if line < 0 || line >= inner || index >= p.entries.len() {
        None
    } else {
        Some(index as usize)
    }
}

/// Which entry of a panel is under row `row` of the screen, where the panel takes `rect`.
pub fn entry_at(panel: &Panel, rect: Rect, row: u16) -> (r: Option<usize>)
    ensures
        r == entry_under(panel@, rect, row),
{
    assert(panel@.entries.len() == panel.entries@.len());
    let inner: u16 = rect.height.saturating_sub(2);
    if row <= rect.y {
        return None;
    }
    let line: u16 = row - rect.y - 1;
    if line >= inner {
        return None;
    }
    if panel.list.offset >= panel.entries.len() || panel.entries.len() - panel.list.offset
        <= line as usize {
        return None;
    }
    Some(panel.list.offset + line as usize)
}

/// The last click forgotten or remembered.
pub open spec fn click_noted(a: AppModel, click: Option<(u64, usize, usize)>) -> AppModel {
    AppModel { commander: CommanderModel { last_click: click, ..a.commander }, ..a }
}

/// The focus on a slot and the cursor on one of its entries.
pub open spec fn clicked(a: AppModel, focus: usize, entry: usize) -> AppModel {
    crate::board::cursor_set(crate::board::focus_set(a, focus), entry as int)
}

/// A click on an entry: focus and cursor go there; the second click of a double click enters the
/// directory.
pub open spec fn entry_clicked(a: AppModel, focus: usize, entry: usize, now: u64) -> AppModel {
    let there = clicked(a, focus, entry);
    if crate::keys::second_click(a.commander.last_click, now, focus, entry) {
        let open = click_noted(there, None);
        crate::board::focused_sent_to(open, crate::board::focused_dir(open.commander))
    } else {
        click_noted(there, Some((now, focus, entry)))
    }
}

/// The panel of a slot, if there is a Board.
pub open spec fn slot_entry(c: CommanderModel, focus: usize, rect: Rect, row: u16) -> Option<usize> {
    match c.board {
        Some(board) => entry_under(board.slot(focus as int), rect, row),
        None => None,
    }
}

/// What the mouse does on the Board whose panels take `slots`: a left click focuses the panel and
/// puts the cursor on the entry, the wheel scrolls the panel under the pointer.
pub open spec fn board_mouse(a: AppModel, mouse: MouseEvent, slots: BoardRegions, now: u64) -> AppModel {
    match slot_at(slots, mouse.column, mouse.row) {
        None => a,
        Some(focus) => match mouse.kind {
            MouseKind::LeftDown => match slot_entry(
                a.commander,
                focus,
                slot_rect(slots, focus as int),
                mouse.row,
            ) {
                Some(entry) => entry_clicked(a, focus, entry, now),
                None => crate::board::focus_set(a, focus),
            },
            MouseKind::ScrollDown => crate::board::focused_cursor_moved(
                crate::board::focus_set(a, focus),
                1,
            ),
            MouseKind::ScrollUp => crate::board::focused_cursor_moved(
                crate::board::focus_set(a, focus),
                -1,
            ),
            MouseKind::Other => a,
        },
    }
}

fn note_click(app: &mut App, click: Option<(u64, usize, usize)>)
    ensures
        final(app)@ == click_noted(old(app)@, click),
        old(app)@.valid() ==> final(app)@.valid(),
{
    app.commander.last_click = click;
}

fn click_entry(app: &mut App, focus: usize, entry: usize, now: u64)
    requires
        old(app)@.valid(),
        focus <= 4,
    ensures
        final(app)@ == entry_clicked(old(app)@, focus, entry, now),
{
    let double = is_second_click(app.commander.last_click, now, focus, entry);
    set_focus(app, focus);
    set_cursor(app, entry);
    if double {
        note_click(app, None);
        enter_focused(app);
    } else {
        note_click(app, Some((now, focus, entry)));
    }
}

fn entry_of_slot(app: &App, focus: usize, rect: Rect, row: u16) -> (r: Option<usize>)
    requires
        app@.valid(),
        focus <= 4,
    ensures
        r == slot_entry(app@.commander, focus, rect, row),
{
    match &app.commander.board {
        Some(board) => entry_at(board.slot(focus), rect, row),
        None => None,
    }
}

/// Mouse on the Board whose panels take `slots`; `now` is in milliseconds.
pub fn mouse_at(app: &mut App, mouse: MouseEvent, slots: &BoardRegions, now: u64)
    requires
        old(app)@.valid(),
    ensures
        final(app)@ == board_mouse(old(app)@, mouse, *slots, now),
{
    let (focus, rect) = match find_slot(slots, mouse.column, mouse.row) {
        Some(found) => found,
        None => {
            return;
        },
    };
    match mouse.kind {
        MouseKind::LeftDown => match entry_of_slot(app, focus, rect, mouse.row) {
            Some(entry) => click_entry(app, focus, entry, now),
            None => set_focus(app, focus),
        },
        MouseKind::ScrollDown => {
            set_focus(app, focus);
            move_focused_cursor(app, 1);
        },
        MouseKind::ScrollUp => {
            set_focus(app, focus);
            move_focused_cursor(app, -1);
        },
        MouseKind::Other => {},
    }
}

/// The screen that was last drawn.
pub open spec fn screen_of(c: CommanderModel) -> Rect {
    Rect { x: 0, y: 0, width: c.term_width, height: c.term_height }
}

/// Mouse in the Board: left click — focus the panel + cursor on the entry (a double click on a
/// directory enters it), wheel — scroll the panel under the cursor.
pub fn on_mouse(app: &mut App, mouse: MouseEvent, now: u64)
    requires
        old(app)@.valid(),
    ensures
        exists|rows: ThreeRows, slots: BoardRegions|
            rows_within(rows, screen_of(old(app)@.commander)) && #[trigger] slots_within(
                slots,
                rows.top,
            ) && final(app)@ == board_mouse(old(app)@, mouse, slots, now),
{
    let area = Rect {
        x: 0,
        y: 0,
        width: app.commander.term_width,
        height: app.commander.term_height,
    };
    let rows = board_rows(area);
    let slots = board_regions(rows.top);
    assert(slots_within(slots, rows.top));
    mouse_at(app, mouse, &slots, now);
}

// ---------------------------------------------------------------------------------------------
// The picture.
// ---------------------------------------------------------------------------------------------
/// How a panel of the Board is drawn: with its own heading, and nothing but its directory's dedup
/// data and the known directory sizes.
pub open spec fn board_scene(
    c: CommanderModel,
    p: PanelModel,
    index: usize,
    focused: bool,
    label: Seq<char>,
) -> SceneModel {
    SceneModel {
        dedup: crate::compare::panel_dedup(c, p),
        dedup_error: None,
        cross: Seq::empty(),
        dir_sizes: c.dir_size_cache,
        group_summaries: Seq::empty(),
        dir_groups: Seq::empty(),
        dir_groups_error: None,
        source: None,
        source_dir_group: None,
        compare_peer: None,
        scan_id: None,
        index,
        focused,
        label: Some(label),
    }
}

/// The heading of a slot.
pub open spec fn slot_label(focus: int) -> Seq<char> {
    if focus == 0 {
        "SOURCE"@
    } else if focus == 1 {
        "1"@
    } else if focus == 2 {
        "2"@
    } else if focus == 3 {
        "3"@
    } else {
        "4"@
    }
}

/// The scene of a slot.
pub open spec fn slot_scene(c: CommanderModel, board: BoardModel, focus: int) -> SceneModel {
    board_scene(
        c,
        board.slot(focus),
        if focus == 0 {
            0
        } else {
            (focus - 1) as usize
        },
        board.focus == focus,
        slot_label(focus),
    )
}

/// The pictures of the first slots.
pub open spec fn slots_drawn(
    c: CommanderModel,
    board: BoardModel,
    slots: BoardRegions,
    dates: Seq<Seq<Seq<char>>>,
    count: int,
) -> Seq<WidgetModel>
    decreases count,
{
    if count <= 0 {
        Seq::empty()
    } else {
        slots_drawn(c, board, slots, dates, count - 1) + crate::panel::panel_widgets(
            slot_rect(slots, count - 1),
            board.slot(count - 1),
            slot_scene(c, board, count - 1),
            dates[count - 1],
        )
    }
}

/// The Board after the first slots were drawn: their windows follow their cursors.
pub open spec fn board_after(
    c: CommanderModel,
    board: BoardModel,
    slots: BoardRegions,
    count: int,
) -> BoardModel
    decreases count,
{
    if count <= 0 {
        board
    } else {
        board_after(c, board, slots, count - 1).with_slot(
            count - 1,
            crate::panel::panel_drawn(
                slot_rect(slots, count - 1),
                board.slot(count - 1),
                slot_scene(c, board, count - 1),
            ),
        )
    }
}

/// The status line of the Board.
pub open spec fn board_status(c: CommanderModel) -> Seq<char> {
    let said = if c.status.len() == 0 {
        "Triage Board"@
    } else {
        c.status
    };
    if c.move_pending > 0 {
        " "@ + said + "  [background moves: "@ + crate::text::decimal(c.move_pending as nat)
            + "]"@
    } else {
        " "@ + said
    }
}

/// One line of text in a colour.
pub open spec fn colored_text(area: Rect, text: Seq<char>, color: Color) -> WidgetModel {
    WidgetModel::Text {
        area,
        lines: seq![crate::canvas::text_line(text)],
        style: crate::canvas::colored(color),
        frame: None,
        wrap: false,
        centered: false,
    }
}

/// Puts one line of text in a colour.
pub fn put_colored(canvas: &mut Canvas, area: Rect, text: String, color: Color)
    ensures
        final(canvas).area == old(canvas).area,
        final(canvas)@ == old(canvas)@.push(colored_text(area, text@, color)),
{
    let mut lines = no_lines();
    let ghost said = crate::canvas::text_line(text@);
    push_line(&mut lines, Line::text(text));
    assert(crate::canvas::lines_model(lines@) =~= seq![said]);
    canvas.put(
        Widget::Text {
            area,
            lines,
            style: Style::color(color),
            frame: None,
            wrap: false,
            centered: false,
        },
    );
}

/// What the Board's keys are.
pub open spec fn board_legend() -> Seq<char> {
    " Tab/←→ panel · ↑↓ file · Enter enter · Insert batch · 1-4 send · a+N receiver · S save · u undo · Esc exit"@
}

/// The picture of the Board, or of its absence.
pub open spec fn board_widgets(
    c: CommanderModel,
    rows: ThreeRows,
    slots: BoardRegions,
    dates: Seq<Seq<Seq<char>>>,
) -> Seq<WidgetModel> {
    match c.board {
        Some(board) => slots_drawn(c, board, slots, dates, 5).push(
            colored_text(rows.middle, board_status(c), Color::Gray),
        ).push(colored_text(rows.bottom, board_legend(), Color::DarkGray)),
        None => seq![colored_text(rows.top, "  Board — not initialized"@, Color::DarkGray)],
    }
}

/// The application after the Board was drawn.
pub open spec fn board_drawn(a: AppModel, area: Rect, slots: BoardRegions) -> AppModel {
    AppModel {
        commander: CommanderModel {
            term_width: area.width,
            term_height: area.height,
            board: match a.commander.board {
                Some(board) => Some(board_after(a.commander, board, slots, 5)),
                None => None,
            },
            ..a.commander
        },
        ..a
    }
}

fn label_of(focus: usize) -> (r: &'static str)
    ensures
        r@ == slot_label(focus as int),
{
    match focus {
        0 => "SOURCE",
        1 => "1",
        2 => "2",
        3 => "3",
        _ => "4",
    }
}

fn rect_of(slots: &BoardRegions, focus: usize) -> (r: Rect)
    ensures
        r == slot_rect(*slots, focus as int),
{
    match focus {
        0 => slots.center,
        1 => slots.left_top,
        2 => slots.left_bot,
        3 => slots.right_top,
        _ => slots.right_bot,
    }
}

fn draw_panel(
    canvas: &mut Canvas,
    area: Rect,
    panel: &mut Panel,
    commander: &CommanderState,
    index: usize,
    focused: bool,
    label: &str,
)
    requires
        crate::layout::bounded(area),
        index < usize::MAX,
    ensures
        final(canvas).area == old(canvas).area,
        exists|dates: Seq<Seq<char>>|
            crate::panel::window_dated(area, old(panel)@, dates) && final(canvas)@ == old(canvas)@
                + #[trigger] crate::panel::panel_widgets(
                area,
                old(panel)@,
                board_scene(commander@, old(panel)@, index, focused, label@),
                dates,
            ),
        final(panel)@ == crate::panel::panel_drawn(
            area,
            old(panel)@,
            board_scene(commander@, old(panel)@, index, focused, label@),
        ),
{
    let cross: Vec<MatchKey> = Vec::new();
    let groups: Vec<crate::model::GroupSummary> = Vec::new();
    let dir_groups: Vec<crate::model::DirGroupSummary> = Vec::new();
    let cwd = panel.cwd.copy();
    let scene = Scene {
        dedup: commander.dedup.dir(&cwd),
        dedup_error: None,
        cross: &cross,
        dir_sizes: &commander.dir_size_cache,
        group_summaries: &groups,
        dir_groups: &dir_groups,
        dir_groups_error: None,
        source: None,
        source_dir_group: None,
        compare_peer: None,
        scan_id: None,
        index,
        focused,
        label: Some(label),
    };
    proof {
        let want = board_scene(commander@, panel@, index, focused, label@);
        assert(scene@.cross =~= want.cross);
        assert(scene@.group_summaries =~= want.group_summaries);
        assert(scene@.dir_groups =~= want.dir_groups);
        assert(scene@.dedup == want.dedup);
        assert(scene@ =~= want);
    }
    render_panel(canvas, area, panel, &scene);
}

proof fn lemma_slots_untouched(c: CommanderModel, board: BoardModel, slots: BoardRegions, count: int, at: int)
    requires
        board.valid(),
        0 <= count <= at <= 4,
    ensures
        board_after(c, board, slots, count).valid(),
        board_after(c, board, slots, count).focus == board.focus,
        board_after(c, board, slots, count).slot(at) == board.slot(at),
    decreases count,
{
    if count > 0 {
        lemma_slots_untouched(c, board, slots, count - 1, at);
        lemma_slots_untouched(c, board, slots, count - 1, count - 1);
    }
}

proof fn lemma_dates_irrelevant(
    c: CommanderModel,
    board: BoardModel,
    slots: BoardRegions,
    one: Seq<Seq<Seq<char>>>,
    other: Seq<Seq<Seq<char>>>,
    count: int,
)
    requires
        forall|i: int| 0 <= i < count ==> one[i] == other[i],
    ensures
        slots_drawn(c, board, slots, one, count) == slots_drawn(c, board, slots, other, count),
    decreases count,
{
    if count > 0 {
        lemma_dates_irrelevant(c, board, slots, one, other, count - 1);
    }
}

/// The dates that the Board's panels are drawn with, each of its own panel's entries.
#[verifier::opaque]
pub open spec fn slots_dated(
    board: BoardModel,
    slots: BoardRegions,
    dates: Seq<Seq<Seq<char>>>,
) -> bool {
    forall|i: int|
        0 <= i < dates.len() ==> crate::panel::window_dated(
            slot_rect(slots, i),
            board.slot(i),
            #[trigger] dates[i],
        )
}

proof fn lemma_slots_dated(
    board: BoardModel,
    slots: BoardRegions,
    dates: Seq<Seq<Seq<char>>>,
    more: Seq<Seq<char>>,
)
    requires
        slots_dated(board, slots, dates),
        crate::panel::window_dated(
            slot_rect(slots, dates.len() as int),
            board.slot(dates.len() as int),
            more,
        ),
    ensures
        slots_dated(board, slots, dates.push(more)),
{
    reveal(slots_dated);
    assert forall|i: int| 0 <= i < dates.push(more).len() implies crate::panel::window_dated(
        slot_rect(slots, i),
        board.slot(i),
        #[trigger] dates.push(more)[i],
    ) by {
        if i < dates.len() {
            assert(dates.push(more)[i] == dates[i]);
        }
    }
}

fn draw_slots(
    canvas: &mut Canvas,
    commander: &CommanderState,
    board: &mut BoardState,
    slots: &BoardRegions,
)
    requires
        old(board)@.valid(),
        forall|i: int| 0 <= i < 5 ==> crate::layout::bounded(#[trigger] slot_rect(*slots, i)),
    ensures
        final(canvas).area == old(canvas).area,
        final(board)@ == board_after(commander@, old(board)@, *slots, 5),
        exists|dates: Seq<Seq<Seq<char>>>|
            dates.len() == 5 && slots_dated(old(board)@, *slots, dates) && final(canvas)@
                == old(canvas)@ + #[trigger] slots_drawn(
                commander@,
                old(board)@,
                *slots,
                dates,
                5,
            ),
{
    let ghost c = commander@;
    let ghost b = board@;
    let ghost before = canvas@;
    let ghost mut dates: Seq<Seq<Seq<char>>> = Seq::empty();
    let mut i: usize = 0;
    assert(canvas@ =~= before + slots_drawn(c, b, *slots, dates, 0));
    assert(slots_dated(b, *slots, dates)) by {
        reveal(slots_dated);
    }
    while i < 5
        invariant
            i <= 5,
            c == commander@,
            b.valid(),
            forall|i: int| 0 <= i < 5 ==> crate::layout::bounded(#[trigger] slot_rect(*slots, i)),
            canvas.area == old(canvas).area,
            dates.len() == i,
            slots_dated(b, *slots, dates),
            board@ == board_after(c, b, *slots, i as int),
            canvas@ == before + slots_drawn(c, b, *slots, dates, i as int),
        decreases 5 - i,
    {
        let ghost mid = canvas@;
        proof {
            lemma_slots_untouched(c, b, *slots, i as int, i as int);
        }
        let focused = board.focus == i;
        let area = rect_of(slots, i);
        let index: usize = if i == 0 {
            0
        } else {
            i - 1
        };
        let panel = board.slot_mut(i);
        draw_panel(canvas, area, panel, commander, index, focused, label_of(i));
        proof {
            let scene = slot_scene(c, b, i as int);
            let shown = choose|d: Seq<Seq<char>>|
                crate::panel::window_dated(slot_rect(*slots, i as int), b.slot(i as int), d)
                    && canvas@ == mid + #[trigger] crate::panel::panel_widgets(
                    slot_rect(*slots, i as int),
                    b.slot(i as int),
                    scene,
                    d,
                );
            let more = dates.push(shown);
            lemma_slots_dated(b, *slots, dates, shown);
            lemma_dates_irrelevant(c, b, *slots, dates, more, i as int);
            assert(before + slots_drawn(c, b, *slots, more, i as int + 1) =~= (before
                + slots_drawn(c, b, *slots, more, i as int)) + crate::panel::panel_widgets(
                slot_rect(*slots, i as int),
                b.slot(i as int),
                scene,
                shown,
            ));
            dates = more;
        }
        i = i + 1;
    }
}

fn status_text(commander: &CommanderState) -> (r: String)
    ensures
        r@ == board_status(commander@),
{
    let mut text = " ".to_string();
    if crate::text::char_count(commander.status.as_str()) == 0 {
        text.push_str("Triage Board");
    } else {
        text.push_str(commander.status.as_str());
    }
    if commander.move_pending > 0 {
        text.push_str("  [background moves: ");
        push_usize(&mut text, commander.move_pending);
        text.push_str("]");
    }
    text
}

/// The picture of the Board, with the dates of the entries that its panels show.
pub open spec fn pictured(
    c: CommanderModel,
    rows: ThreeRows,
    slots: BoardRegions,
    before: Seq<WidgetModel>,
    after: Seq<WidgetModel>,
) -> bool {
    exists|dates: Seq<Seq<Seq<char>>>|
        (c.board matches Some(board) ==> dates.len() == 5 && slots_dated(board, slots, dates))
            && after == before + #[trigger] board_widgets(c, rows, slots, dates)
}

fn set_screen(app: &mut App, area: Rect)
    ensures
        final(app)@ == (AppModel {
            commander: CommanderModel {
                term_width: area.width,
                term_height: area.height,
                ..old(app)@.commander
            },
            ..old(app)@
        }),
{
    app.commander.term_width = area.width;
    app.commander.term_height = area.height;
}

fn draw_board(
    canvas: &mut Canvas,
    commander: &CommanderState,
    board: &mut BoardState,
    rows: &ThreeRows,
    slots: &BoardRegions,
)
    requires
        old(board)@.valid(),
        forall|i: int| 0 <= i < 5 ==> crate::layout::bounded(#[trigger] slot_rect(*slots, i)),
    ensures
        final(canvas).area == old(canvas).area,
        final(board)@ == board_after(commander@, old(board)@, *slots, 5),
        exists|dates: Seq<Seq<Seq<char>>>|
            dates.len() == 5 && slots_dated(old(board)@, *slots, dates) && final(canvas)@
                == old(canvas)@ + (#[trigger] slots_drawn(
                commander@,
                old(board)@,
                *slots,
                dates,
                5,
            )).push(colored_text(rows.middle, board_status(commander@), Color::Gray)).push(
                colored_text(rows.bottom, board_legend(), Color::DarkGray),
            ),
{
    let ghost before = canvas@;
    let ghost b = board@;
    draw_slots(canvas, commander, board, slots);
    let ghost dates = choose|dates: Seq<Seq<Seq<char>>>|
        dates.len() == 5 && slots_dated(b, *slots, dates) && canvas@ == before
            + #[trigger] slots_drawn(commander@, b, *slots, dates, 5);
    put_colored(canvas, rows.middle, status_text(commander), Color::Gray);
    put_colored(
        canvas,
        rows.bottom,
        " Tab/←→ panel · ↑↓ file · Enter enter · Insert batch · 1-4 send · a+N receiver · S save · u undo · Esc exit".to_string(),
        Color::DarkGray,
    );
    assert(canvas@ =~= before + slots_drawn(commander@, b, *slots, dates, 5).push(
        colored_text(rows.middle, board_status(commander@), Color::Gray),
    ).push(colored_text(rows.bottom, board_legend(), Color::DarkGray)));
}

proof fn lemma_scene_without_board(
    c: CommanderModel,
    other: CommanderModel,
    board: BoardModel,
    slots: BoardRegions,
    dates: Seq<Seq<Seq<char>>>,
    count: int,
)
    requires
        c.dedup == other.dedup,
        c.dir_size_cache == other.dir_size_cache,
    ensures
        slots_drawn(c, board, slots, dates, count) == slots_drawn(other, board, slots, dates, count),
        board_after(c, board, slots, count) == board_after(other, board, slots, count),
    decreases count,
{
    if count > 0 {
        lemma_scene_without_board(c, other, board, slots, dates, count - 1);
        assert(slot_scene(c, board, count - 1) == slot_scene(other, board, count - 1));
    }
}

/// Draws the Board in an area that was split into `rows` and `slots`.
pub fn render_at(canvas: &mut Canvas, app: &mut App, area: Rect, rows: &ThreeRows, slots: &BoardRegions)
    requires
        old(app)@.valid(),
        forall|i: int| 0 <= i < 5 ==> crate::layout::bounded(#[trigger] slot_rect(*slots, i)),
    ensures
        final(canvas).area == old(canvas).area,
        final(app)@ == board_drawn(old(app)@, area, *slots),
        pictured(old(app)@.commander, *rows, *slots, old(canvas)@, final(canvas)@),
{
    let ghost a = app@;
    let ghost before = canvas@;
    set_screen(app, area);
    match app.take_board() {
        None => {
            put_colored(
                canvas,
                rows.top,
                "  Board — not initialized".to_string(),
                Color::DarkGray,
            );
            proof {
                let none: Seq<Seq<Seq<char>>> = Seq::empty();
                assert(canvas@ =~= before + board_widgets(a.commander, *rows, *slots, none));
            }
        },
        Some(mut board) => {
            let ghost b = board@;
            draw_board(canvas, &app.commander, &mut board, rows, slots);
            proof {
                let c = app@.commander;
                let dates = choose|dates: Seq<Seq<Seq<char>>>|
                    dates.len() == 5 && slots_dated(b, *slots, dates) && canvas@ == before + (
                    #[trigger] slots_drawn(c, b, *slots, dates, 5)).push(
                        colored_text(rows.middle, board_status(c), Color::Gray),
                    ).push(colored_text(rows.bottom, board_legend(), Color::DarkGray));
                lemma_scene_without_board(c, a.commander, b, *slots, dates, 5);
                assert(board_status(c) == board_status(a.commander));
                assert(canvas@ == before + board_widgets(a.commander, *rows, *slots, dates));
            }
            app.put_board(board);
        },
    }
}

/// Renders the Triage Board screen: source in the centre, 4 receivers in the corners, status line
/// and legend at the bottom. The focused panel is highlighted.
pub fn render(canvas: &mut Canvas, app: &mut App)
    requires
        old(app)@.valid(),
        crate::layout::bounded(old(canvas).area),
    ensures
        final(canvas).area == old(canvas).area,
        exists|rows: ThreeRows, slots: BoardRegions|
            rows_within(rows, old(canvas).area) && #[trigger] slots_within(slots, rows.top)
                && final(app)@ == board_drawn(old(app)@, old(canvas).area, slots) && pictured(
                old(app)@.commander,
                rows,
                slots,
                old(canvas)@,
                final(canvas)@,
            ),
{
    let area = canvas.area;
    let rows = board_rows(area);
    let slots = board_regions(rows.top);
    assert(slots_within(slots, rows.top));
    assert forall|i: int| 0 <= i < 5 implies crate::layout::bounded(#[trigger] slot_rect(slots, i)) by {
        assert(slot_rect(slots, i).within(rows.top));
    }
    render_at(canvas, app, area, &rows, &slots);
}

} // verus!
