//! Keys, mouse events and the F-key layers of the commander.

use vstd::prelude::*;

use crate::canvas::{no_lines, push_line, Canvas, Color, Line, LineModel, Rect, Style, WidgetModel};
use crate::entries::PanelView;
use crate::text::{char_count, fit, pad_right, push_usize};

verus! {

/// A key.
#[derive(Debug, Clone, Copy, PartialEq, Eq, Structural)]
pub enum KeyCode {
    F(u8),
    Char(char),
    Enter,
    Esc,
    Tab,
    BackTab,
    Backspace,
    Insert,
    Left,
    Right,
    Up,
    Down,
    PageUp,
    PageDown,
    Home,
    End,
    Other,
}

/// A key press.
#[derive(Debug, Clone, Copy, PartialEq, Eq, Structural)]
pub struct KeyEvent {
    pub code: KeyCode,
    pub shift: bool,
}

impl KeyEvent {
    /// A key pressed by itself.
    pub fn plain(code: KeyCode) -> (r: KeyEvent)
        ensures
            r == (KeyEvent { code, shift: false }),
    {
        KeyEvent { code, shift: false }
    }
}

/// What the mouse did.
#[derive(Debug, Clone, Copy, PartialEq, Eq, Structural)]
pub enum MouseKind {
    LeftDown,
    ScrollDown,
    ScrollUp,
    Other,
}

/// A mouse event and where it happened.
#[derive(Debug, Clone, Copy, PartialEq, Eq, Structural)]
pub struct MouseEvent {
    pub kind: MouseKind,
    pub column: u16,
    pub row: u16,
}

/// Two clicks on one entry within so many milliseconds are a double click.
pub const DOUBLE_CLICK: u64 = 400;

/// A click completes a double click: the one before hit the same entry of the same panel, and not
/// too long ago.
pub open spec fn second_click(
    last: Option<(u64, usize, usize)>,
    now: u64,
    panel: usize,
    entry: usize,
) -> bool {
    match last {
        Some((when, p, e)) => p == panel && e == entry && now - when <= DOUBLE_CLICK,
        None => false,
    }
}

/// Whether a click at `now` (in milliseconds) completes a double click.
pub fn is_second_click(
    last: Option<(u64, usize, usize)>,
    now: u64,
    panel: usize,
    entry: usize,
) -> (r: bool)
    ensures
        r == second_click(last, now, panel, entry),
{
    match last {
        Some((when, p, e)) => p == panel && e == entry && (now < when || now - when
            <= DOUBLE_CLICK),
        None => false,
    }
}

/// Short labels of the first-layer F-keys for the footer.
pub open spec fn first_label(index: int) -> Seq<char> {
    if index == 0 {
        "Help"@
    } else if index == 1 {
        "Scan"@
    } else if index == 2 {
        "File"@
    } else if index == 3 {
        "Hash"@
    } else if index == 4 {
        "Hard"@
    } else if index == 5 {
        "Ref"@
    } else if index == 6 {
        "Keep"@
    } else if index == 7 {
        "Del"@
    } else if index == 8 {
        "Menu"@
    } else if index == 9 {
        "Exit"@
    } else if index == 10 {
        "Exec"@
    } else {
        "Sessions"@
    }
}

/// Short labels of the first-layer F-keys (F1..F12) for the footer.
pub fn first_layer() -> (r: [&'static str; 12])
    ensures
        forall|i: int| 0 <= i < 12 ==> #[trigger] r@[i]@ == first_label(i),
{
    [
        "Help",
        "Scan",
        "File",
        "Hash",
        "Hard",
        "Ref",
        "Keep",
        "Del",
        "Menu",
        "Exit",
        "Exec",
        "Sessions",
    ]
}

/// A single second-layer F-key command (prefix `` ` `` or `Shift+F`): the one source for the
/// footer (`short`) and the help screen (`long`). Empty — the key is not assigned.
#[derive(Debug, Clone, Copy)]
pub struct KeyHint {
    pub fkey: u8,
    pub short: &'static str,
    pub long: &'static str,
}

/// Short labels of the second-layer F-keys.
pub open spec fn second_label(index: int) -> Seq<char> {
    if index == 0 {
        "Sync"@
    } else if index == 1 {
        "Compare"@
    } else if index == 2 {
        "+Panel"@
    } else if index == 3 {
        "-Panel"@
    } else if index == 4 {
        "Root"@
    } else if index == 5 {
        "Size"@
    } else if index == 8 {
        "Wizard"@
    } else if index == 11 {
        "Board"@
    } else {
        ""@
    }
}

/// What the second-layer F-keys do, in words.
pub open spec fn second_words(index: int) -> Seq<char> {
    if index == 0 {
        "synchronize panels"@
    } else if index == 1 {
        "compare panels (files and folders)"@
    } else if index == 2 {
        "add a panel"@
    } else if index == 3 {
        "remove a panel"@
    } else if index == 4 {
        "change the active panel's root"@
    } else if index == 5 {
        "recompute the directory size"@
    } else if index == 8 {
        "scan configuration wizard"@
    } else if index == 11 {
        "Triage Board (file triage)"@
    } else {
        ""@
    }
}

/// The second layer of F-keys.
pub fn second_layer() -> (r: [KeyHint; 12])
    ensures
        forall|i: int|
            0 <= i < 12 ==> #[trigger] r@[i].fkey == i + 1 && r@[i].short@ == second_label(i)
                && r@[i].long@ == second_words(i),
{
    [
        KeyHint { fkey: 1, short: "Sync", long: "synchronize panels" },
        KeyHint { fkey: 2, short: "Compare", long: "compare panels (files and folders)" },
        KeyHint { fkey: 3, short: "+Panel", long: "add a panel" },
        KeyHint { fkey: 4, short: "-Panel", long: "remove a panel" },
        KeyHint { fkey: 5, short: "Root", long: "change the active panel's root" },
        KeyHint { fkey: 6, short: "Size", long: "recompute the directory size" },
        KeyHint { fkey: 7, short: "", long: "" },
        KeyHint { fkey: 8, short: "", long: "" },
        KeyHint { fkey: 9, short: "Wizard", long: "scan configuration wizard" },
        KeyHint { fkey: 10, short: "", long: "" },
        KeyHint { fkey: 11, short: "", long: "" },
        KeyHint { fkey: 12, short: "Board", long: "Triage Board (file triage)" },
    ]
}

/// The second-layer F-keys that do something.
pub open spec fn dispatched(n: u8) -> bool {
    1 <= n <= 6 || n == 9 || n == 12
}

/// The second-layer F-keys that do something.
pub fn second_layer_dispatch() -> (r: [u8; 8])
    ensures
        r@ == seq![1u8, 2, 3, 4, 5, 6, 9, 12],
{
    let keys: [u8; 8] = [1, 2, 3, 4, 5, 6, 9, 12];
    assert(keys@ =~= seq![1u8, 2, 3, 4, 5, 6, 9, 12]);
    keys
}

/// A second-layer key has a label exactly where it does something, and a description exactly
/// where it has a label.
pub proof fn law_the_layer_says_what_it_does(n: u8)
    requires
        1 <= n <= 12,
    ensures
        dispatched(n) <==> second_label(n - 1).len() > 0,
        dispatched(n) <==> second_words(n - 1).len() > 0,
        dispatched(n) <==> seq![1u8, 2, 3, 4, 5, 6, 9, 12].contains(n),
{
    reveal_strlit("");
    reveal_strlit("Sync");
    reveal_strlit("Compare");
    reveal_strlit("+Panel");
    reveal_strlit("-Panel");
    reveal_strlit("Root");
    reveal_strlit("Size");
    reveal_strlit("Wizard");
    reveal_strlit("Board");
    reveal_strlit("synchronize panels");
    reveal_strlit("compare panels (files and folders)");
    reveal_strlit("add a panel");
    reveal_strlit("remove a panel");
    reveal_strlit("change the active panel's root");
    reveal_strlit("recompute the directory size");
    reveal_strlit("scan configuration wizard");
    reveal_strlit("Triage Board (file triage)");
    let keys = seq![1u8, 2, 3, 4, 5, 6, 9, 12];
    if 1 <= n <= 6 {
        assert(keys[n - 1] == n);
    }
    if n == 9 {
        assert(keys[6] == n);
    }
    if n == 12 {
        assert(keys[7] == n);
    }
}

/// The column where the cell of an F-key begins.
pub open spec fn cell_start(index: int, total: int) -> int {
    index * total / 12
}

/// What a footer cell says.
pub open spec fn footer_label(index: int, second: bool) -> Seq<char> {
    if second {
        second_label(index)
    } else {
        first_label(index)
    }
}

/// Columns left for the label of a cell, after its number.
pub open spec fn label_width(index: int, total: int) -> int {
    let cell = cell_start(index + 1, total) - cell_start(index, total);
    let digits = crate::text::decimal((index + 1) as nat).len();
    if cell > digits {
        cell - digits
    } else {
        0
    }
}

/// The look of a footer label.
pub open spec fn footer_look(second: bool) -> Style {
    Style {
        fg: Some(Color::Black),
        bg: Some(
            if second {
                Color::Yellow
            } else {
                Color::Cyan
            },
        ),
        bold: false,
        dim: false,
        reversed: false,
    }
}

/// The first cells of the footer: each key's number, then its label filled to the cell.
pub open spec fn footer_cells(count: int, total: int, second: bool) -> LineModel
    decreases count,
{
    if count <= 0 {
        crate::canvas::blank_line()
    } else {
        let index = count - 1;
        let room = label_width(index, total);
        let label = crate::text::fitted(footer_label(index, second), room);
        footer_cells(index, total, second).with(
            crate::text::decimal(count as nat),
            crate::canvas::plain_style(),
        ).with(
            crate::text::padded_right(label, room),
            if label.len() == 0 {
                crate::canvas::plain_style()
            } else {
                footer_look(second)
            },
        )
    }
}

/// The F-key line.
pub open spec fn fkeys(area: Rect, second: bool) -> WidgetModel {
    crate::canvas::bare_text(area, seq![footer_cells(12, area.width as int, second)])
}

/// Draws the F-key line: the fill is only on the labels, the digits stay without one.
pub fn render_fkeys(canvas: &mut Canvas, area: Rect, second: bool)
    ensures
        final(canvas).area == old(canvas).area,
        final(canvas)@ == old(canvas)@.push(fkeys(area, second)),
{
    let fill = if second {
        Style::color(Color::Black).on(Color::Yellow)
    } else {
        Style::color(Color::Black).on(Color::Cyan)
    };
    let total: usize = area.width as usize;
    let first = first_layer();
    let other = second_layer();
    let mut line = Line::blank();
    let mut index: usize = 0;
    while index < 12
        invariant
            index <= 12,
            total == area.width,
            fill == footer_look(second),
            forall|i: int| 0 <= i < 12 ==> #[trigger] first@[i]@ == first_label(i),
            forall|i: int|
                0 <= i < 12 ==> #[trigger] other@[i].fkey == i + 1 && other@[i].short@
                    == second_label(i) && other@[i].long@ == second_words(i),
            line@ == footer_cells(index as int, area.width as int, second),
        decreases 12 - index,
    {
        let mut num = String::new();
        push_usize(&mut num, index + 1);
        assert(num@ =~= crate::text::decimal((index + 1) as nat));
        let label: &'static str = if second {
            assert(other@[index as int].fkey == index + 1);
            other[index].short
        } else {
            assert(first@[index as int]@ == first_label(index as int));
            first[index]
        };
        assert((index + 1) * total <= 12 * 65535 && index * total <= (index + 1) * total)
            by (nonlinear_arith)
            requires
                index < 12,
                total <= 65535,
        ;
        let cell: usize = (index + 1) * total / 12 - index * total / 12;
        let room: usize = cell.saturating_sub(char_count(num.as_str()));
        let text = fit(label, room);
        let count: usize = char_count(text.as_str());
        let filled = pad_right(text.as_str(), room);
        line.add(num, Style::new());
        if count == 0 {
            line.add(filled, Style::new());
        } else {
            line.add(filled, fill);
        }
        index = index + 1;
    }
    let mut lines = no_lines();
    push_line(&mut lines, line);
    assert(crate::canvas::lines_model(lines@) =~= seq![
        footer_cells(12, area.width as int, second),
    ]);
    canvas.bare(area, lines);
}

proof fn lemma_footer_width(count: int, total: int, second: bool)
    requires
        0 <= count <= 12,
        24 <= total,
    ensures
        crate::panel::spans_width(footer_cells(count, total, second).spans) == cell_start(
            count,
            total,
        ),
    decreases count,
{
    if count > 0 {
        let index = count - 1;
        lemma_footer_width(index, total, second);
        let room = label_width(index, total);
        let label = crate::text::fitted(footer_label(index, second), room);
        let digits = crate::text::decimal(count as nat);
        reveal_with_fuel(crate::text::decimal, 3);
        assert(digits.len() <= 2);
        assert(cell_start(count, total) - cell_start(index, total) >= 2) by (nonlinear_arith)
            requires
                index == count - 1,
                0 < count <= 12,
                24 <= total,
        {
        }
        crate::text::law_cuts_respect_the_width(footer_label(index, second), room);
        let before = footer_cells(index, total, second);
        let numbered = before.with(digits, crate::canvas::plain_style());
        assert(numbered.spans.drop_last() =~= before.spans);
        let after = footer_cells(count, total, second);
        assert(after.spans.drop_last() =~= numbered.spans);
        assert(after.spans.last().text == crate::text::padded_right(label, room));
        assert(crate::text::padded_right(label, room).len() == room);
        assert(crate::panel::spans_width(numbered.spans) == crate::panel::spans_width(before.spans)
            + digits.len());
        assert(crate::panel::spans_width(after.spans) == crate::panel::spans_width(numbered.spans)
            + room);
        assert(room == cell_start(count, total) - cell_start(index, total) - digits.len());
    } else {
        assert(footer_cells(0, total, second).spans.len() == 0);
        assert(0 * total == 0) by (nonlinear_arith);
    }
}

/// On a screen of 24 columns or more the twelve cells fill the F-key line exactly.
pub proof fn law_the_footer_fills_the_line(total: int, second: bool)
    requires
        24 <= total,
    ensures
        crate::panel::spans_width(footer_cells(12, total, second).spans) == total,
{
    lemma_footer_width(12, total, second);
}

/// The key that a click on a column of the F-key line runs.
pub open spec fn clicked_key(column: int, width: int) -> int {
    let n = column * 12 / width + 1;
    if n < 12 {
        n
    } else {
        12
    }
}

/// A click on the F-key line runs the key whose cell it lies in, or the one before where it lies
/// on the first column of a cell that does not begin on a whole twelfth.
pub proof fn law_a_click_runs_the_key_under_it(column: int, width: int)
    requires
        0 <= column < width,
    ensures
        ({
            let n = clicked_key(column, width);
            &&& 1 <= n <= 12
            &&& cell_start(n - 1, width) <= column
            &&& column < cell_start(n, width) || (column == cell_start(n, width) && n * width % 12
                != 0)
        }),
{
    let n = clicked_key(column, width);
    assert(0 <= column * 12 / width < 12 && (column * 12 / width) * width <= column * 12 && column
        * 12 < (column * 12 / width) * width + width) by (nonlinear_arith)
        requires
            0 <= column < width,
    ;
    assert((n - 1) * width == n * width - width) by (nonlinear_arith);
}

/// Keys whose handlers read the entry under the cursor.
pub open spec fn row_command(code: KeyCode) -> bool {
    match code {
        KeyCode::F(n) => 3 <= n <= 8,
        KeyCode::Char(c) => c == ' ' || c == 'm' || c == 'M',
        KeyCode::Insert => true,
        KeyCode::Enter => true,
        _ => false,
    }
}

/// Keys whose handlers read the entry under the cursor.
pub fn is_entries_row_command(code: KeyCode) -> (r: bool)
    ensures
        r == row_command(code),
{
    match code {
        KeyCode::F(n) => 3 <= n && n <= 8,
        KeyCode::Char(c) => c == ' ' || c == 'm' || c == 'M',
        KeyCode::Insert => true,
        KeyCode::Enter => true,
        _ => false,
    }
}

/// The first-layer F-key that the digit row reaches after the prefix key.
pub open spec fn digit_key(code: KeyCode) -> Option<u8> {
    match code {
        KeyCode::Char(c) => if '1' <= c <= '9' {
            Some((c as int - '0' as int) as u8)
        } else if c == '0' {
            Some(10)
        } else if c == '-' {
            Some(11)
        } else if c == '=' {
            Some(12)
        } else {
            None
        },
        _ => None,
    }
}

/// The prefix key followed by the digit row reaches a first-layer F-key: 1-9 → F1-F9, 0 → F10,
/// `-` → F11, `=` → F12, in the order the keys sit above the letters.
pub fn first_layer_key(code: KeyCode) -> (r: Option<u8>)
    ensures
        r == digit_key(code),
{
    match code {
        KeyCode::Char(c) => {
            if '1' <= c && c <= '9' {
                Some((c as u32 - 48) as u8)
            } else if c == '0' {
                Some(10)
            } else if c == '-' {
                Some(11)
            } else if c == '=' {
                Some(12)
            } else {
                None
            }
        },
        _ => None,
    }
}

/// The key of the digit row that reaches a first-layer F-key.
pub open spec fn digit_for(n: u8) -> char {
    if n <= 9 {
        (48 + n) as char
    } else if n == 10 {
        '0'
    } else if n == 11 {
        '-'
    } else {
        '='
    }
}

/// Every first-layer F-key is reachable by the digit row.
pub proof fn law_every_key_has_a_digit(n: u8)
    requires
        1 <= n <= 12,
    ensures
        digit_key(KeyCode::Char(digit_for(n))) == Some(n),
{
}

/// Views whose rows come from the panel's entries; group views draw groups instead.
pub fn view_exposes_entries(view: PanelView) -> (r: bool)
    ensures
        r == crate::panel::shows_entries(view),
{
    matches!(view, PanelView::Files | PanelView::DirsOnly)
}

} // verus!
