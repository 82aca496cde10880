//! The duplicate browser: a list of groups beside the files of one of them.
//!
//! The lists are drawn by the browser screen and by the commander panels alike.

use vstd::prelude::*;

use crate::assoc::Assoc;
use crate::canvas::{
    no_lines, no_rows, push_line, push_row, visible_window, Canvas, Color, Frame, FrameModel, Line,
    LineModel, ListState, Rect, Row, RowModel, SpanModel, Style, Widget, WidgetModel,
};
use crate::layout::{split_rows, split_three, split_two, Extent, ThreeRows, TwoPanes};
use crate::model::{
    ActionKind, DirGroup, DirGroupSummary, DuplicateGroup, FileEntry, FileModel, GroupSummary,
    PathStyle,
};
use crate::path::PathView;
use crate::reclaim::{GroupClaim, ReclaimEstimate};
use crate::text::{pad_right, push_i64, push_repeated, push_u64, push_usize, slice_chars};
use crate::units::{human_bytes, links_phrase, objects_cell, reclaim_cell, reclaim_phrase};

verus! {

/// Active browser tab: `Files` — groups of identical files "by payoff", `Dirs` — groups of twin
/// folders.
#[derive(Debug, Clone, Copy, PartialEq, Eq, Default, Structural)]
pub enum BrowserTab {
    #[default]
    Files,
    Dirs,
}

// ---------------------------------------------------------------------------------------------
// Paging.
// ---------------------------------------------------------------------------------------------
/// Entries of one page step: what is visible less one, at least one; twenty rows are taken for a
/// list that has not been drawn yet.
pub open spec fn page_rows(visible_rows: u16) -> int {
    if visible_rows == 0 {
        19
    } else if visible_rows == 1 {
        1
    } else {
        visible_rows - 1
    }
}

/// PgUp/PgDn page step in the browser: `visible_rows - 1` entries in the `delta_pages` direction.
pub fn page_step(visible_rows: u16, delta_pages: i32) -> (r: i32)
    requires
        i32::MIN <= page_rows(visible_rows) * delta_pages <= i32::MAX,
    ensures
        r == page_rows(visible_rows) * delta_pages,
{
    let effective: u16 = if visible_rows == 0 {
        20
    } else {
        visible_rows
    };
    let less: i32 = effective.saturating_sub(1) as i32;
    let step: i32 = if less < 1 {
        1
    } else {
        less
    };
    step * delta_pages
}

// ---------------------------------------------------------------------------------------------
// Word wrap.
// ---------------------------------------------------------------------------------------------
/// The stretches of a text between its spaces; a text without spaces is one word.
pub open spec fn words(text: Seq<char>) -> Seq<Seq<char>>
    decreases text.len(),
{
    if text.len() == 0 {
        seq![Seq::empty()]
    } else if text.last() == ' ' {
        words(text.drop_last()).push(Seq::empty())
    } else {
        let before = words(text.drop_last());
        before.drop_last().push(before.last().push(text.last()))
    }
}

/// Greedy wrap of a sequence of words: a word joins the last line if it still fits there.
pub open spec fn wrapped(ws: Seq<Seq<char>>, columns: int) -> Seq<Seq<char>>
    decreases ws.len(),
{
    if ws.len() == 0 {
        Seq::empty()
    } else {
        let before = wrapped(ws.drop_last(), columns);
        let word = ws.last();
        if before.len() > 0 && before.last().len() + 1 + word.len() <= columns {
            before.drop_last().push(before.last() + seq![' '] + word)
        } else {
            before.push(word)
        }
    }
}

/// The lines of a text in so many columns; without columns there is no wrapping.
pub open spec fn wrapped_text(text: Seq<char>, columns: int) -> Seq<Seq<char>> {
    if columns == 0 {
        seq![text]
    } else {
        wrapped(words(text), columns)
    }
}

/// The contents of several strings.
pub open spec fn strings_model(strings: Seq<String>) -> Seq<Seq<char>> {
    strings.map_values(|s: String| s@)
}

proof fn lemma_words_nonempty(text: Seq<char>)
    ensures
        words(text).len() >= 1,
    decreases text.len(),
{
    if text.len() > 0 {
        lemma_words_nonempty(text.drop_last());
    }
}

/// A text has no more words than characters and one.
pub proof fn lemma_words_count(text: Seq<char>)
    ensures
        1 <= words(text).len() <= text.len() + 1,
    decreases text.len(),
{
    if text.len() > 0 {
        lemma_words_count(text.drop_last());
    }
}

/// Wrapping makes no more lines than there are words, and at least one where there is a word.
pub proof fn lemma_wrapped_count(ws: Seq<Seq<char>>, columns: int)
    ensures
        wrapped(ws, columns).len() <= ws.len(),
        ws.len() > 0 ==> wrapped(ws, columns).len() > 0,
    decreases ws.len(),
{
    if ws.len() > 0 {
        lemma_wrapped_count(ws.drop_last(), columns);
    }
}

fn split_words(text: &str) -> (r: Vec<String>)
    ensures
        strings_model(r@) == words(text@),
        r@.len() >= 1,
{
    let chars = crate::text::chars_of(text);
    let mut out: Vec<String> = Vec::new();
    let mut word = String::new();
    let mut i: usize = 0;
    assert(strings_model(out@).push(word@) =~= words(chars@.take(0)));
    while i < chars.len()
        invariant
            i <= chars@.len(),
            strings_model(out@).push(word@) == words(chars@.take(i as int)),
        decreases chars@.len() - i,
    {
        let c = chars[i];
        let ghost done = chars@.take(i as int);
        let ghost before = strings_model(out@);
        let ghost last = word@;
        proof {
            assert(chars@.take(i as int + 1).drop_last() =~= done);
            assert(words(done).drop_last() =~= before);
            assert(words(done).last() == last);
        }
        if c == ' ' {
            out.push(word);
            word = String::new();
            assert(strings_model(out@) =~= before.push(last));
            assert(strings_model(out@).push(word@) =~= words(chars@.take(i as int + 1)));
        } else {
            word.push(c);
            assert(strings_model(out@).push(word@) =~= words(chars@.take(i as int + 1)));
        }
        i = i + 1;
    }
    let ghost before = strings_model(out@);
    out.push(word);
    assert(strings_model(out@) =~= before.push(word@));
    assert(chars@.take(chars@.len() as int) =~= chars@);
    out
}

/// Greedy word wrap. A word wider than the column count gets a line of its own and is left to the
/// terminal to clip.
pub fn wrap_words(text: &str, columns: usize) -> (r: Vec<String>)
    ensures
        strings_model(r@) == wrapped_text(text@, columns as int),
        1 <= r@.len() <= text@.len() + 1,
{
    if columns == 0 {
        let mut out: Vec<String> = Vec::new();
        out.push(text.to_string());
        assert(strings_model(out@) =~= seq![text@]);
        return out;
    }
    let ws = split_words(text);
    let mut lines: Vec<String> = Vec::new();
    let mut i: usize = 0;
    assert(strings_model(lines@) =~= wrapped(strings_model(ws@).take(0), columns as int));
    while i < ws.len()
        invariant
            i <= ws@.len(),
            columns > 0,
            strings_model(lines@) == wrapped(strings_model(ws@).take(i as int), columns as int),
            lines@.len() == strings_model(lines@).len(),
        decreases ws@.len() - i,
    {
        let ghost done = strings_model(ws@).take(i as int);
        let ghost next = strings_model(ws@).take(i as int + 1);
        let ghost before = strings_model(lines@);
        let word = ws[i].as_str();
        proof {
            assert(next.drop_last() =~= done);
            assert(next.last() == word@);
        }
        let n: usize = lines.len();
        let width: usize = word.unicode_len();
        let joins = if n > 0 {
            let used: usize = lines[n - 1].as_str().unicode_len();
            assert(before.last() == lines@[n - 1]@);
            used < columns && width <= columns - used - 1
        } else {
            false
        };
        if joins {
            let mut line = String::new();
            line.push_str(lines[n - 1].as_str());
            line.push(' ');
            line.push_str(word);
            assert(line@ =~= before.last() + seq![' '] + word@);
            lines.set(n - 1, line);
            assert(strings_model(lines@) =~= before.drop_last().push(
                before.last() + seq![' '] + word@,
            ));
        } else {
            lines.push(word.to_string());
            assert(strings_model(lines@) =~= before.push(word@));
        }
        i = i + 1;
    }
    proof {
        assert(strings_model(ws@).take(ws@.len() as int) =~= strings_model(ws@));
        lemma_wrapped_count(words(text@), columns as int);
        lemma_words_count(text@);
    }
    lines
}

// ---------------------------------------------------------------------------------------------
// Height of a group row.
// ---------------------------------------------------------------------------------------------
/// Indent that marks the reclaim claim as a continuation of the counters above it.
pub const CLAIM_INDENT: &'static str = "  ";

/// Columns a list panel spends before any item text: two borders and the pointer beside the
/// cursor, which is reserved on every row.
pub const LIST_CHROME: usize = 4;

/// The largest byte figure the row height reckons with: the row height has to be a function of
/// the panel width alone.
pub const WIDEST_FIGURE: u64 = 1023 * 0x100_0000_0000;

/// Columns of the claim in a panel this wide.
pub open spec fn columns_for_claim(width: u16) -> int {
    if width >= 6 {
        width - 6
    } else {
        0
    }
}

/// Columns the reclaim claim gets on a line of its own in a list panel this wide.
pub fn claim_columns(width: u16) -> (r: usize)
    ensures
        r == columns_for_claim(width),
{
    (width as usize).saturating_sub(LIST_CHROME + 2)
}

/// The claim that the row height is measured by.
pub open spec fn widest_claim() -> Seq<char> {
    "guaranteed after quarantine purge: "@ + crate::units::size_text(WIDEST_FIGURE as nat)
}

/// Terminal rows of one entry of the file-group list in a panel this wide.
pub open spec fn rows_of_group(width: u16) -> int {
    1 + wrapped_text(widest_claim(), columns_for_claim(width)).len() as int
}

proof fn lemma_widest_claim_is_short()
    ensures
        widest_claim().len() < 200,
{
    reveal_strlit("guaranteed after quarantine purge: ");
    reveal_strlit("TiB");
    reveal_strlit(" ");
    assert(crate::units::size_text(WIDEST_FIGURE as nat).len() < 100) by {
        let b = WIDEST_FIGURE as nat;
        assert(crate::units::double_spacing(b, 1) == 1);
        assert(crate::units::round_half_even(b, 1) == b);
        assert(crate::units::nearest_double(b) == b);
        assert(crate::units::round_half_even(10 * b, 0x100_0000_0000) == 10230);
        assert(crate::units::one_decimal(10230).len() == 6) by {
            reveal_with_fuel(crate::text::decimal, 5);
        }
    }
}

/// Terminal rows one entry of the file-group list occupies at this panel width: the counters, plus
/// however many lines the widest possible claim needs beneath them. Width alone, never content, so
/// a click at a row maps to an entry without knowing what any row says.
pub fn group_rows(width: u16) -> (r: u16)
    ensures
        r == rows_of_group(width),
        r >= 2,
{
    let widest = reclaim_cell(ReclaimEstimate::exact(WIDEST_FIGURE));
    let lines = wrap_words(widest.as_str(), claim_columns(width));
    proof {
        lemma_widest_claim_is_short();
        assert(widest@ == widest_claim());
    }
    1 + lines.len() as u16
}

/// Groups that fit in a panel of this size: the borders, then whole groups; at least one.
pub open spec fn fitting_groups(area: Rect) -> int {
    let inner = if area.height >= 2 {
        area.height - 2
    } else {
        0
    };
    let fits = inner / rows_of_group(area.width);
    if fits < 1 {
        1
    } else {
        fits
    }
}

/// How many groups fit in a panel of this size. At least one, so a window too short to hold a
/// whole entry still shows the selected one rather than nothing.
pub fn groups_that_fit(area: Rect) -> (r: usize)
    ensures
        r == fitting_groups(area),
        r >= 1,
{
    let rows: u16 = group_rows(area.width);
    let fits: u16 = area.height.saturating_sub(2) / rows;
    if fits < 1 {
        1
    } else {
        fits as usize
    }
}

// ---------------------------------------------------------------------------------------------
// Separators.
// ---------------------------------------------------------------------------------------------
/// Step of the visual separators in the browser lists. A separator is not selectable.
pub const SEPARATOR_EVERY: usize = 25;

/// A separator's text: the entry number, a space, dashes to the right edge.
pub open spec fn separator(global_pos: nat, inner_width: int) -> Seq<char> {
    let prefix = crate::text::decimal(global_pos) + " "@;
    prefix + crate::text::repeated('-', inner_width - prefix.len())
}

/// Separator text: `<N> <----...>`, the number at the left edge. A prefix longer than the width
/// gets no dashes.
pub fn separator_text(global_pos: usize, inner_width: usize) -> (r: String)
    ensures
        r@ == separator(global_pos as nat, inner_width as int),
{
    let mut out = String::new();
    push_usize(&mut out, global_pos);
    assert(out@ =~= crate::text::decimal(global_pos as nat));
    out.push_str(" ");
    let used: usize = out.as_str().unicode_len();
    let dashes: usize = inner_width.saturating_sub(used);
    let ghost prefix = out@;
    push_repeated(&mut out, '-', dashes);
    assert(out@ =~= separator(global_pos as nat, inner_width as int));
    out
}

/// A separator as a list entry.
pub open spec fn separator_row(global_pos: nat, inner_width: int) -> crate::canvas::RowModel {
    crate::canvas::RowModel {
        lines: seq![crate::canvas::text_line(separator(global_pos, inner_width))],
        style: crate::canvas::colored(Color::DarkGray),
    }
}

/// Separator line as a list entry, in dark gray.
pub fn separator_line(global_pos: usize, inner_width: usize) -> (r: Row)
    ensures
        r@ == separator_row(global_pos as nat, inner_width as int),
{
    Row::of(Line::text(separator_text(global_pos, inner_width))).over(
        Style::color(Color::DarkGray),
    )
}

/// Separators between the entries `start` and `cursor`: one after every twenty-fifth entry.
pub open spec fn separators_between(start: int, cursor: int) -> int {
    if cursor <= start {
        0
    } else {
        cursor / 25 - start / 25
    }
}

/// How many separators lie inside the window `[start, cursor)`.
pub fn separators_before_cursor(start: usize, cursor: usize) -> (r: usize)
    ensures
        r == separators_between(start as int, cursor as int),
{
    if cursor <= start {
        return 0;
    }
    let mut count: usize = 0;
    let mut i: usize = start;
    while i < cursor
        invariant
            start <= i <= cursor,
            count == i as int / 25 - start as int / 25,
        decreases cursor - i,
    {
        if (i + 1) % SEPARATOR_EVERY == 0 {
            count = count + 1;
        }
        i = i + 1;
    }
    count
}

/// Row of the window, separators counted, at which an entry is drawn.
pub open spec fn visual_row_of(start: int, index: int) -> int {
    index - start + separators_between(start, index)
}

/// Reverse mapping of a visual row to the real entry index (for mouse clicks). A row that holds a
/// separator, or lies outside the list, selects nothing.
pub fn visual_to_real_index(start: usize, visual_row: usize, total: usize) -> (r: Option<usize>)
    ensures
        r matches Some(index) ==> start <= index < total && visual_row_of(
            start as int,
            index as int,
        ) == visual_row,
        r is None ==> forall|index: int|
            start <= index < total ==> #[trigger] visual_row_of(start as int, index) != visual_row,
{
    let mut visual: usize = 0;
    let mut idx: usize = start;
    while idx < total
        invariant
            start <= idx,
            visual == visual_row_of(start as int, idx as int),
            visual <= visual_row,
            visual <= 2 * (idx - start),
            idx <= total || idx == start,
            forall|index: int|
                start <= index < idx ==> #[trigger] visual_row_of(start as int, index) < visual_row,
        decreases total - idx,
    {
        if visual == visual_row {
            return Some(idx);
        }
        assert(visual_row_of(start as int, idx as int) < visual_row);
        visual = visual + 1;
        let next_global: usize = idx + 1;
        if next_global % SEPARATOR_EVERY == 0 && next_global < total {
            if visual == visual_row {
                proof {
                    assert forall|index: int| start <= index < total implies
                        #[trigger] visual_row_of(start as int, index) != visual_row by {
                        if index > idx {
                            lemma_visual_row_grows(start as int, idx as int + 1, index);
                        }
                    }
                }
                return None;
            }
            visual = visual + 1;
        }
        if next_global == total {
            return None;
        }
        idx = idx + 1;
    }
    None
}

proof fn lemma_visual_row_grows(start: int, a: int, b: int)
    requires
        start <= a <= b,
    ensures
        visual_row_of(start, a) + (b - a) <= visual_row_of(start, b),
{
}

/// A click on the row where an entry is drawn selects that entry and no other: the mapping from
/// rows to entries undoes the drawing, and what lies between the entries selects nothing.
pub proof fn law_clicks_undo_the_drawing(start: int, a: int, b: int)
    requires
        0 <= start <= a,
        start <= b,
    ensures
        visual_row_of(start, a) == visual_row_of(start, b) <==> a == b,
        visual_row_of(start, start) == 0,
        visual_row_of(start, a + 1) - visual_row_of(start, a) == (if (a + 1) % 25 == 0 {
            2int
        } else {
            1int
        }),
{
    if a < b {
        lemma_visual_row_grows(start, a, b);
    }
    if b < a {
        lemma_visual_row_grows(start, b, a);
    }
}

/// The entries of a window with the separators that belong between them: entry `k` of the window
/// is entry `start + k` of the list, and one follows each whose number is a multiple of 25 unless
/// it is the list's last.
pub open spec fn with_separators(
    items: Seq<crate::canvas::RowModel>,
    start: int,
    total: int,
    inner_width: int,
) -> Seq<crate::canvas::RowModel>
    decreases items.len(),
{
    if items.len() == 0 {
        Seq::empty()
    } else {
        let before = with_separators(items.drop_last(), start, total, inner_width).push(items.last());
        let number = start + items.len();
        if number % 25 == 0 && number < total {
            before.push(separator_row(number as nat, inner_width))
        } else {
            before
        }
    }
}

/// Puts separators between the entries `start..` of a list of `total` entries.
pub fn items_with_separators(
    start: usize,
    total: usize,
    inner_width: usize,
    items: Vec<Row>,
) -> (r: Vec<Row>)
    requires
        start + items@.len() <= usize::MAX,
    ensures
        crate::canvas::rows_model(r@) == with_separators(
            crate::canvas::rows_model(items@),
            start as int,
            total as int,
            inner_width as int,
        ),
{
    let ghost all = crate::canvas::rows_model(items@);
    let mut out = no_rows();
    let mut rest = items;
    let mut todo: Vec<Row> = Vec::new();
    while rest.len() > 0
        invariant
            rest@.len() + todo@.len() == all.len(),
            crate::canvas::rows_model(rest@) == all.take(rest@.len() as int),
            forall|k: int|
                0 <= k < todo@.len() ==> (#[trigger] todo@[k])@ == all[all.len() - 1 - k],
        decreases rest@.len(),
    {
        let ghost n = rest@.len() as int;
        proof {
            assert(rest@.last()@ == crate::canvas::rows_model(rest@)[n - 1]);
        }
        match rest.pop() {
            Some(row) => {
                todo.push(row);
            },
            None => {},
        }
        assert(crate::canvas::rows_model(rest@) =~= all.take(n - 1));
    }
    let mut done: usize = 0;
    assert(crate::canvas::rows_model(out@) =~= with_separators(
        all.take(0),
        start as int,
        total as int,
        inner_width as int,
    ));
    while todo.len() > 0
        invariant
            done + todo@.len() == all.len(),
            start + all.len() <= usize::MAX,
            forall|k: int|
                0 <= k < todo@.len() ==> (#[trigger] todo@[k])@ == all[all.len() - 1 - k],
            crate::canvas::rows_model(out@) == with_separators(
                all.take(done as int),
                start as int,
                total as int,
                inner_width as int,
            ),
        decreases todo@.len(),
    {
        let ghost next = all.take(done as int + 1);
        proof {
            assert(next.drop_last() =~= all.take(done as int));
            assert(todo@.last()@ == all[done as int]);
        }
        match todo.pop() {
            Some(row) => {
                push_row(&mut out, row);
            },
            None => {},
        }
        done = done + 1;
        let number: usize = start + done;
        if number % SEPARATOR_EVERY == 0 && number < total {
            push_row(&mut out, separator_line(number, inner_width));
        }
    }
    assert(all.take(all.len() as int) =~= all);
    out
}


// ---------------------------------------------------------------------------------------------
// Paths of a group.
// ---------------------------------------------------------------------------------------------
/// Index of the last `/`, or -1.
pub open spec fn last_slash(t: Seq<char>) -> int
    decreases t.len(),
{
    if t.len() == 0 {
        -1
    } else if t.last() == '/' {
        t.len() - 1
    } else {
        last_slash(t.drop_last())
    }
}

proof fn lemma_last_slash(t: Seq<char>)
    ensures
        -1 <= last_slash(t) < t.len(),
        last_slash(t) >= 0 ==> t[last_slash(t)] == '/',
        forall|i: int| last_slash(t) < i < t.len() ==> t[i] != '/',
    decreases t.len(),
{
    if t.len() > 0 && t.last() != '/' {
        lemma_last_slash(t.drop_last());
        assert forall|i: int| last_slash(t) < i < t.len() implies t[i] != '/' by {
            if i < t.len() - 1 {
                assert(t.drop_last()[i] == t[i]);
            }
        }
    }
}

proof fn lemma_last_slash_is(t: Seq<char>, at: int)
    requires
        -1 <= at < t.len(),
        at >= 0 ==> t[at] == '/',
        forall|i: int| at < i < t.len() ==> t[i] != '/',
    ensures
        last_slash(t) == at,
{
    lemma_last_slash(t);
}

/// The directory of a printed path, with its trailing `/`.
pub open spec fn dir_part(t: Seq<char>) -> Seq<char> {
    t.take(last_slash(t) + 1)
}

/// The file name of a printed path.
pub open spec fn name_part(t: Seq<char>) -> Seq<char> {
    t.skip(last_slash(t) + 1)
}

/// Splits a path into the directory (with a trailing `/`) and the file name.
pub fn split_path(path: &str) -> (r: (String, String))
    ensures
        r.0@ == dir_part(path@),
        r.1@ == name_part(path@),
{
    let chars = crate::text::chars_of(path);
    let mut cut: usize = chars.len();
    while cut > 0 && chars[cut - 1] != '/'
        invariant
            cut <= chars@.len(),
            forall|i: int| cut <= i < chars@.len() ==> chars@[i] != '/',
        decreases cut,
    {
        cut = cut - 1;
    }
    proof {
        lemma_last_slash_is(chars@, cut as int - 1);
    }
    let dir = slice_chars(&chars, 0, cut);
    let name = slice_chars(&chars, cut, chars.len());
    assert(dir@ =~= dir_part(path@));
    assert(name@ =~= name_part(path@));
    (dir, name)
}

/// Dim look of the directory part.
pub open spec fn dir_style() -> Style {
    crate::canvas::colored(Color::DarkGray)
}

/// Look of the file name.
pub open spec fn name_style(color: Option<Color>) -> Style {
    Style { fg: color, bg: None, bold: true, dim: false, reversed: false }
}

/// Colour of a directory level.
pub open spec fn level_color(depth: int) -> Color {
    if depth % 4 == 0 {
        Color::Cyan
    } else if depth % 4 == 1 {
        Color::Blue
    } else if depth % 4 == 2 {
        Color::Green
    } else {
        Color::Magenta
    }
}

/// How many named levels a directory text has.
pub open spec fn levels(dir: Seq<char>) -> int
    decreases dir.len(),
    via levels_decreases
{
    if dir.len() == 0 {
        0
    } else {
        let body = dir.drop_last();
        let rest = body.take(last_slash(body) + 1);
        levels(rest) + (if rest.len() < body.len() {
            1int
        } else {
            0int
        })
    }
}

#[via_fn]
proof fn levels_decreases(dir: Seq<char>) {
    if dir.len() > 0 {
        lemma_last_slash(dir.drop_last());
    }
}

/// A directory text level by level: each name in the colour of its level, each `/` dimmed.
pub open spec fn level_spans(dir: Seq<char>) -> Seq<SpanModel>
    decreases dir.len(),
    via level_spans_decreases
{
    if dir.len() == 0 {
        Seq::empty()
    } else {
        let body = dir.drop_last();
        let rest = body.take(last_slash(body) + 1);
        let name = body.skip(last_slash(body) + 1);
        let slash = SpanModel { text: "/"@, style: dir_style() };
        if name.len() > 0 {
            level_spans(rest).push(
                SpanModel { text: name, style: crate::canvas::colored(level_color(levels(rest))) },
            ).push(slash)
        } else {
            level_spans(rest).push(slash)
        }
    }
}

#[via_fn]
proof fn level_spans_decreases(dir: Seq<char>) {
    if dir.len() > 0 {
        lemma_last_slash(dir.drop_last());
    }
}

/// A text without the `/` it ends in.
pub open spec fn without_trailing_slashes(t: Seq<char>) -> Seq<char>
    decreases t.len(),
{
    if t.len() > 0 && t.last() == '/' {
        without_trailing_slashes(t.drop_last())
    } else {
        t
    }
}

/// The spans of a printed path.
pub open spec fn path_spans_model(
    path: Seq<char>,
    style: PathStyle,
    name_color: Option<Color>,
) -> Seq<SpanModel> {
    let dir = dir_part(path);
    let name = SpanModel { text: name_part(path), style: name_style(name_color) };
    match style {
        PathStyle::DimDir => seq![SpanModel { text: dir, style: dir_style() }, name],
        PathStyle::NameFirst => seq![
            name,
            SpanModel { text: "  ·  "@, style: dir_style() },
            SpanModel { text: without_trailing_slashes(dir), style: dir_style() },
        ],
        PathStyle::TreeGraded => level_spans(dir).push(name),
    }
}

fn trim_slashes(text: &str) -> (r: String)
    ensures
        r@ == without_trailing_slashes(text@),
{
    let chars = crate::text::chars_of(text);
    let mut n: usize = chars.len();
    assert(chars@.take(n as int) =~= chars@);
    while n > 0 && chars[n - 1] == '/'
        invariant
            n <= chars@.len(),
            without_trailing_slashes(chars@.take(n as int)) == without_trailing_slashes(chars@),
        decreases n,
    {
        assert(chars@.take(n as int).drop_last() =~= chars@.take(n - 1));
        n = n - 1;
    }
    assert(chars@.subrange(0, n as int) =~= chars@.take(n as int));
    slice_chars(&chars, 0, n)
}

fn color_of_level(depth: usize) -> (r: Color)
    ensures
        r == level_color(depth as int),
{
    let step: usize = depth % 4;
    if step == 0 {
        Color::Cyan
    } else if step == 1 {
        Color::Blue
    } else if step == 2 {
        Color::Green
    } else {
        Color::Magenta
    }
}

/// Adds the spans of a printed path to a line, in the selected way of writing paths.
pub fn path_spans(line: &mut Line, path: &str, style: PathStyle, name_color: Option<Color>)
    ensures
        final(line)@.style == old(line)@.style,
        final(line)@.spans == old(line)@.spans + path_spans_model(path@, style, name_color),
{
    let (dir, name) = split_path(path);
    let dim = Style::color(Color::DarkGray);
    let name_look = Style { fg: name_color, bg: None, bold: true, dim: false, reversed: false };
    let ghost before = line@.spans;
    match style {
        PathStyle::DimDir => {
            line.add(dir, dim);
            line.add(name, name_look);
            assert(line@.spans =~= before + path_spans_model(path@, style, name_color));
        },
        PathStyle::NameFirst => {
            line.add(name, name_look);
            line.add_str("  ·  ", dim);
            line.add(trim_slashes(dir.as_str()), dim);
            assert(line@.spans =~= before + path_spans_model(path@, style, name_color));
        },
        PathStyle::TreeGraded => {
            let chars = crate::text::chars_of(dir.as_str());
            let ghost look = line@.style;
            let mut depth: usize = 0;
            let mut start: usize = 0;
            let mut index: usize = 0;
            proof {
                lemma_last_slash(path@);
                assert(chars@.take(0) =~= Seq::<char>::empty());
                assert(before + level_spans(chars@.take(0)) =~= before);
            }
            while index < chars.len()
                invariant
                    start <= index <= chars@.len(),
                    start > 0 ==> chars@[start - 1] == '/',
                    forall|k: int| start <= k < index ==> chars@[k] != '/',
                    line@.style == look,
                    line@.spans == before + level_spans(chars@.take(start as int)),
                    depth == levels(chars@.take(start as int)),
                    depth <= start,
                    dim == dir_style(),
                decreases chars@.len() - index,
            {
                if chars[index] == '/' {
                    let ghost body = chars@.take(index as int);
                    let ghost next = chars@.take(index as int + 1);
                    proof {
                        assert(next.drop_last() =~= body);
                        lemma_last_slash_is(body, start - 1);
                        assert(body.take(start as int) =~= chars@.take(start as int));
                        assert(body.skip(start as int) =~= chars@.subrange(
                            start as int,
                            index as int,
                        ));
                    }
                    let ghost prior = line@.spans;
                    if start < index {
                        line.add(
                            slice_chars(&chars, start, index),
                            Style::color(color_of_level(depth)),
                        );
                        depth = depth + 1;
                    }
                    line.add_str("/", dim);
                    assert(line@.spans =~= before + level_spans(next));
                    start = index + 1;
                }
                index = index + 1;
            }
            proof {
                lemma_last_slash(path@);
                if chars@.len() > 0 {
                    assert(chars@[chars@.len() - 1] == '/');
                    assert(start == chars@.len());
                }
                assert(chars@.take(start as int) =~= chars@);
            }
            line.add(name, name_look);
            assert(line@.spans =~= before + path_spans_model(path@, style, name_color));
        },
    }
}

/// The printed names of a group's files.
pub open spec fn file_names(files: Seq<FileModel>) -> Seq<Seq<char>> {
    files.map_values(|f: FileModel| name_part(f.path.shown()))
}

/// Names in the order of their first appearance, each once.
pub open spec fn distinct(names: Seq<Seq<char>>) -> Seq<Seq<char>>
    decreases names.len(),
{
    if names.len() == 0 {
        Seq::empty()
    } else {
        let before = distinct(names.drop_last());
        if before.contains(names.last()) {
            before
        } else {
            before.push(names.last())
        }
    }
}

/// Colour of the n-th distinct name.
pub open spec fn name_color(n: int) -> Color {
    if n % 5 == 0 {
        Color::Yellow
    } else if n % 5 == 1 {
        Color::Magenta
    } else if n % 5 == 2 {
        Color::Cyan
    } else if n % 5 == 3 {
        Color::Green
    } else {
        Color::Blue
    }
}

/// The colours of a sequence of distinct names.
pub open spec fn colors_of(names: Seq<Seq<char>>) -> Map<Seq<char>, Color> {
    Map::new(|n: Seq<char>| names.contains(n), |n: Seq<char>| name_color(names.index_of(n)))
}

/// The colours of a group's file names: by first appearance, and none where all names agree.
pub open spec fn palette(files: Seq<FileModel>) -> Map<Seq<char>, Color> {
    let names = distinct(file_names(files));
    if names.len() < 2 {
        Map::empty()
    } else {
        colors_of(names)
    }
}

fn nth_name_color(n: usize) -> (r: Color)
    ensures
        r == name_color(n as int),
{
    let step: usize = n % 5;
    if step == 0 {
        Color::Yellow
    } else if step == 1 {
        Color::Magenta
    } else if step == 2 {
        Color::Cyan
    } else if step == 3 {
        Color::Green
    } else {
        Color::Blue
    }
}

proof fn lemma_distinct_has_no_duplicates(names: Seq<Seq<char>>)
    ensures
        distinct(names).no_duplicates(),
        distinct(names).len() <= names.len(),
    decreases names.len(),
{
    if names.len() > 0 {
        lemma_distinct_has_no_duplicates(names.drop_last());
    }
}

/// A "file name → color" map for a group. Empty if all names match — then the name is drawn
/// bright by default. The color is assigned in the order of the name's first appearance.
pub fn name_palette(group: &DuplicateGroup) -> (r: Assoc<String, Color>)
    ensures
        r@ == palette(crate::model::files_model(group.files@)),
{
    let ghost names = file_names(crate::model::files_model(group.files@));
    let mut colors: Assoc<String, Color> = Assoc::new();
    let mut count: usize = 0;
    let mut i: usize = 0;
    assert(colors@ =~= colors_of(distinct(names.take(0))));
    while i < group.files.len()
        invariant
            i <= group.files@.len(),
            names == file_names(crate::model::files_model(group.files@)),
            colors@ == colors_of(distinct(names.take(i as int))),
            count == distinct(names.take(i as int)).len(),
            count <= i,
        decreases group.files@.len() - i,
    {
        let path = group.files[i].path.display();
        let (_, name) = split_path(path.as_str());
        let ghost known = distinct(names.take(i as int));
        proof {
            assert(names.take(i as int + 1).drop_last() =~= names.take(i as int));
            assert(names.take(i as int + 1).last() == name@);
            lemma_distinct_has_no_duplicates(names.take(i as int));
        }
        if !colors.contains(&name) {
            let ghost fresh = known.push(name@);
            colors.insert(name, nth_name_color(count));
            proof {
                assert(!known.contains(name@));
                assert forall|n: Seq<char>| fresh.contains(n) <==> known.contains(n) || n
                    == name@ by {
                    if known.contains(n) {
                        let k = known.index_of(n);
                        assert(fresh[k] == n);
                    }
                    if n == name@ {
                        assert(fresh[known.len() as int] == n);
                    }
                }
                assert(fresh.no_duplicates());
                assert forall|n: Seq<char>| fresh.contains(n) implies fresh.index_of(n) == (if n
                    == name@ {
                    known.len() as int
                } else {
                    known.index_of(n)
                }) by {
                    let k = if n == name@ {
                        known.len() as int
                    } else {
                        known.index_of(n)
                    };
                    assert(fresh[k] == n);
                    assert(fresh[fresh.index_of(n)] == n);
                }
                assert(colors@ =~= colors_of(fresh));
            }
            count = count + 1;
        } else {
            assert(known.contains(name@));
        }
        i = i + 1;
    }
    assert(names.take(names.len() as int) =~= names);
    if count < 2 {
        return Assoc::new();
    }
    colors
}


// ---------------------------------------------------------------------------------------------
// Lists.
// ---------------------------------------------------------------------------------------------
/// Look of a border: cyan round the panel in focus.
pub open spec fn focus_look(focused: bool) -> Style {
    if focused {
        crate::canvas::colored(Color::Cyan)
    } else {
        crate::canvas::plain_style()
    }
}

/// Look of a border: cyan round the panel in focus.
pub fn focus_style(focused: bool) -> (r: Style)
    ensures
        r == focus_look(focused),
{
    if focused {
        Style::color(Color::Cyan)
    } else {
        Style::new()
    }
}

/// Dim plain text.
pub open spec fn dim_style() -> Style {
    Style { fg: None, bg: None, bold: false, dim: true, reversed: false }
}

/// A list whose entries are those of the window, with the cursor in it.
pub open spec fn window_list(
    area: Rect,
    rows: Seq<RowModel>,
    mark: Option<usize>,
    frame: Option<FrameModel>,
) -> WidgetModel {
    WidgetModel::List {
        area,
        rows,
        state: ListState { selected: mark, offset: 0 },
        frame,
        pointer: true,
        highlight: crate::canvas::reversed_style(),
    }
}

/// `#` and a number in a column of four.
pub open spec fn rank_column(rank: int) -> Seq<char> {
    "#"@ + crate::text::padded_right(crate::text::signed_decimal(rank), 4)
}

fn push_rank(out: &mut String, rank: i64)
    ensures
        final(out)@ == old(out)@ + rank_column(rank as int),
{
    let mut digits = String::new();
    push_i64(&mut digits, rank);
    assert(digits@ =~= crate::text::signed_decimal(rank as int));
    let column = pad_right(digits.as_str(), 4);
    out.push_str("#");
    out.push_str(column.as_str());
    assert(out@ =~= old(out)@ + rank_column(rank as int));
}

/// The counters of a group row: pathnames and allocations are different questions.
pub open spec fn group_counters(group: GroupSummary) -> Seq<char> {
    rank_column(group.rank as int) + " "@ + crate::text::decimal(group.file_count as nat)
        + " files · "@ + crate::units::objects_words(group.object_count as nat, group.reclaim)
        + " · "@ + crate::units::size_text(group.size_bytes as nat)
}

/// The claim lines of a group row: the claim wrapped, cut or padded to so many lines.
pub open spec fn claim_lines(group: GroupSummary, columns: int, count: int) -> Seq<LineModel> {
    let lines = wrapped_text(crate::units::reclaim_cell_words(group.reclaim), columns);
    Seq::new(
        count as nat,
        |i: int|
            crate::canvas::styled_line(
                CLAIM_INDENT@ + (if i < lines.len() {
                    lines[i]
                } else {
                    Seq::empty()
                }),
                dim_style(),
            ),
    )
}

/// A row of the group list in a panel this wide.
pub open spec fn group_row(group: GroupSummary, width: u16) -> RowModel {
    RowModel {
        lines: seq![crate::canvas::text_line(group_counters(group))] + claim_lines(
            group,
            columns_for_claim(width),
            rows_of_group(width) - 1,
        ),
        style: crate::canvas::plain_style(),
    }
}

fn group_row_of(group: &GroupSummary, width: u16) -> (r: Row)
    ensures
        r@ == group_row(*group, width),
{
    let mut counters = String::new();
    push_rank(&mut counters, group.rank);
    assert(counters@ =~= rank_column(group.rank as int));
    counters.push_str(" ");
    push_u64(&mut counters, group.file_count);
    counters.push_str(" files · ");
    counters.push_str(objects_cell(group.object_count, group.reclaim).as_str());
    counters.push_str(" · ");
    counters.push_str(human_bytes(group.size_bytes).as_str());
    let mut lines = no_lines();
    push_line(&mut lines, Line::text(counters));
    let columns: usize = claim_columns(width);
    let count: usize = (group_rows(width) - 1) as usize;
    let wrapped_claim = wrap_words(reclaim_cell(group.reclaim).as_str(), columns);
    let dim = Style::new().dim();
    let ghost head = seq![crate::canvas::text_line(group_counters(*group))];
    let ghost claims = claim_lines(*group, columns as int, count as int);
    let mut index: usize = 0;
    assert(crate::canvas::lines_model(lines@) =~= head + claims.take(0));
    while index < count
        invariant
            index <= count,
            dim == dim_style(),
            strings_model(wrapped_claim@) == wrapped_text(
                crate::units::reclaim_cell_words(group.reclaim),
                columns as int,
            ),
            claims == claim_lines(*group, columns as int, count as int),
            crate::canvas::lines_model(lines@) == head + claims.take(index as int),
        decreases count - index,
    {
        let mut text = CLAIM_INDENT.to_string();
        if index < wrapped_claim.len() {
            text.push_str(wrapped_claim[index].as_str());
            assert(wrapped_claim@[index as int]@ == strings_model(wrapped_claim@)[index as int]);
        } else {
            assert(text@ =~= CLAIM_INDENT@ + Seq::<char>::empty());
        }
        push_line(&mut lines, Line::styled(text, dim));
        index = index + 1;
        assert(crate::canvas::lines_model(lines@) =~= head + claims.take(index as int));
    }
    let row = Row { lines, style: Style::new() };
    assert(claims.take(count as int) =~= claims);
    assert(row@.lines =~= group_row(*group, width).lines);
    row
}

/// The rows of a window of the group list.
pub open spec fn group_window(groups: Seq<GroupSummary>, from: int, to: int, width: u16) -> Seq<
    RowModel,
> {
    groups.subrange(from, to).map_values(|g: GroupSummary| group_row(g, width))
}

/// The group list as a widget.
pub open spec fn group_list(
    area: Rect,
    groups: Seq<GroupSummary>,
    state: ListState,
    focused: bool,
    title: LineModel,
) -> WidgetModel {
    let rows = fitting_groups(area);
    let total = groups.len() as int;
    window_list(
        area,
        group_window(
            groups,
            crate::canvas::window_begin(state, total, rows),
            crate::canvas::window_end(state, total, rows),
            area.width,
        ),
        crate::canvas::window_mark(state, total, rows),
        Some(FrameModel { title, border: focus_look(focused) }),
    )
}

/// Draws the list of duplicate groups. Only the groups of the visible window are formatted, and
/// every entry has the same height whatever its own claim needs.
pub fn render_group_list(
    canvas: &mut Canvas,
    area: Rect,
    groups: &[GroupSummary],
    state: &mut ListState,
    focused: bool,
    title: Line,
)
    ensures
        final(canvas).area == old(canvas).area,
        final(canvas)@ == old(canvas)@.push(
            group_list(area, groups@, *old(state), focused, title@),
        ),
        *final(state) == crate::canvas::window_placed(
            *old(state),
            groups@.len() as int,
            fitting_groups(area),
        ),
{
    let rows: usize = groups_that_fit(area);
    let (start, local_sel) = visible_window(state, groups.len(), rows);
    let end: usize = if rows <= groups.len() - start {
        start + rows
    } else {
        groups.len()
    };
    let mut items = no_rows();
    let ghost window = group_window(groups@, start as int, end as int, area.width);
    let mut i: usize = start;
    assert(crate::canvas::rows_model(items@) =~= window.take(0));
    while i < end
        invariant
            start <= i <= end <= groups@.len(),
            window == group_window(groups@, start as int, end as int, area.width),
            crate::canvas::rows_model(items@) == window.take(i - start),
        decreases end - i,
    {
        push_row(&mut items, group_row_of(&groups[i], area.width));
        assert(window.take(i - start).push(window[i - start]) =~= window.take(i + 1 - start));
        i = i + 1;
    }
    assert(window.take(end - start) =~= window);
    canvas.put(
        Widget::List {
            area,
            rows: items,
            state: ListState { selected: local_sel, offset: 0 },
            frame: Some(Frame { title, border: focus_style(focused) }),
            pointer: true,
            highlight: Style::swapped(),
        },
    );
}

/// The keeper of a group: its first file marked as such.
pub open spec fn keeper_index(files: Seq<FileModel>) -> int
    decreases files.len(),
{
    if files.len() == 0 {
        0
    } else if files[0].is_keeper {
        0
    } else {
        1 + keeper_index(files.drop_first())
    }
}

proof fn lemma_keeper_is(files: Seq<FileModel>, at: int)
    requires
        0 <= at <= files.len(),
        at < files.len() ==> files[at].is_keeper,
        forall|i: int| 0 <= i < at ==> !(#[trigger] files[i]).is_keeper,
    ensures
        keeper_index(files) == at,
    decreases files.len(),
{
    if files.len() > 0 && at > 0 {
        assert(!files[0].is_keeper);
        let rest = files.drop_first();
        assert forall|i: int| 0 <= i < at - 1 implies !(#[trigger] rest[i]).is_keeper by {
            assert(rest[i] == files[i + 1]);
        }
        lemma_keeper_is(rest, at - 1);
    }
}

/// A file that shares the keeper's allocation without being the keeper.
pub open spec fn already_linked(file: FileModel, files: Seq<FileModel>) -> bool {
    let k = keeper_index(files);
    !file.is_keeper && k < files.len() && file.same_physical(files[k])
}

/// The sign before a file of a group.
pub open spec fn file_prefix(file: FileModel, linked: bool) -> SpanModel {
    let (text, color) = if file.is_keeper {
        ("★ "@, Color::Green)
    } else if linked {
        ("= "@, Color::DarkGray)
    } else {
        match file.action {
            Some(ActionKind::Delete) => ("x "@, Color::Red),
            Some(ActionKind::Hardlink) => ("h "@, Color::Cyan),
            Some(ActionKind::Reflink) => ("c "@, Color::Cyan),
            None => ("  "@, Color::Reset),
        }
    };
    SpanModel { text, style: name_style(Some(color)) }
}

/// The remark behind a file of a group; absent where there is nothing to say.
pub open spec fn file_suffix(file: FileModel, linked: bool) -> Option<SpanModel> {
    if file.is_keeper {
        Some(SpanModel { text: "  (keeper)"@, style: crate::canvas::colored(Color::Green) })
    } else if linked {
        Some(
            SpanModel {
                text: "  (already linked — 0 payoff)"@,
                style: crate::canvas::colored(Color::DarkGray),
            },
        )
    } else {
        match file.action {
            Some(kind) => Some(
                SpanModel {
                    text: "  -> "@ + crate::model::action_label(kind),
                    style: crate::canvas::colored(
                        if kind == ActionKind::Delete {
                            Color::Red
                        } else {
                            Color::Cyan
                        },
                    ),
                },
            ),
            None => None,
        }
    }
}

/// Colour of a file's name, where the group has colours.
pub open spec fn color_for_name(colors: Map<Seq<char>, Color>, name: Seq<char>) -> Option<Color> {
    if colors.dom().contains(name) {
        Some(colors[name])
    } else {
        None
    }
}

/// The row of one file of a group.
pub open spec fn file_row(
    file: FileModel,
    linked: bool,
    colors: Map<Seq<char>, Color>,
    path_style: PathStyle,
) -> RowModel {
    let head = seq![file_prefix(file, linked)];
    let path = path_spans_model(
        file.path.shown_safely(),
        path_style,
        color_for_name(colors, name_part(file.path.shown())),
    );
    let spans = match file_suffix(file, linked) {
        Some(suffix) => (head + path).push(suffix),
        None => head + path,
    };
    RowModel {
        lines: seq![LineModel { spans, style: crate::canvas::plain_style() }],
        style: if linked {
            dim_style()
        } else {
            crate::canvas::plain_style()
        },
    }
}

fn file_row_of(
    file: &FileEntry,
    linked: bool,
    colors: &Assoc<String, Color>,
    path_style: PathStyle,
) -> (r: Row)
    ensures
        r@ == file_row(file@, linked, colors@, path_style),
{
    let (prefix, prefix_color): (&str, Color) = if file.is_keeper {
        ("★ ", Color::Green)
    } else if linked {
        ("= ", Color::DarkGray)
    } else {
        match file.action {
            Some(ActionKind::Delete) => ("x ", Color::Red),
            Some(ActionKind::Hardlink) => ("h ", Color::Cyan),
            Some(ActionKind::Reflink) => ("c ", Color::Cyan),
            None => ("  ", Color::Reset),
        }
    };
    let shown = file.path.display();
    let (_, name) = split_path(shown.as_str());
    let name_color: Option<Color> = match colors.get(&name) {
        Some(color) => Some(*color),
        None => None,
    };
    let safe = crate::text::terminal(shown.as_str());
    let mut line = Line::blank();
    line.add_str(prefix, Style::color(prefix_color).bold());
    assert(line@.spans =~= seq![file_prefix(file@, linked)]);
    path_spans(&mut line, safe.as_str(), path_style, name_color);
    if file.is_keeper {
        line.add_str("  (keeper)", Style::color(Color::Green));
    } else if linked {
        line.add_str("  (already linked — 0 payoff)", Style::color(Color::DarkGray));
    } else {
        match file.action {
            Some(kind) => {
                let color = match kind {
                    ActionKind::Delete => Color::Red,
                    ActionKind::Hardlink => Color::Cyan,
                    ActionKind::Reflink => Color::Cyan,
                };
                let mut suffix = "  -> ".to_string();
                suffix.push_str(kind.label());
                line.add(suffix, Style::color(color));
            },
            None => {},
        }
    }
    let row = Row::of(line);
    if linked {
        let row = row.over(Style::new().dim());
        assert(row@ =~= file_row(file@, linked, colors@, path_style));
        row
    } else {
        assert(row@ =~= file_row(file@, linked, colors@, path_style));
        row
    }
}

/// The rows of a window of a group's files.
pub open spec fn file_window(
    files: Seq<FileModel>,
    from: int,
    to: int,
    colors: Map<Seq<char>, Color>,
    path_style: PathStyle,
) -> Seq<RowModel> {
    Seq::new(
        (to - from) as nat,
        |i: int|
            file_row(files[from + i], already_linked(files[from + i], files), colors, path_style),
    )
}

/// The statement an open group makes of itself.
pub open spec fn claim_statement(claim: GroupClaim) -> Seq<char> {
    crate::units::reclaim_words(claim.reclaim) + " · "@ + crate::units::links_words(claim.links)
}

/// Whether an open group has room for its own statement above the files.
pub open spec fn claim_shown(area: Rect, claim: Option<GroupClaim>) -> bool {
    claim is Some && area.spec_inner().height > 1
}

/// What is left for the files of an open group.
pub open spec fn files_area(area: Rect, claim: Option<GroupClaim>) -> Rect {
    let inner = area.spec_inner();
    if claim_shown(area, claim) {
        crate::layout::strip(inner, 1, inner.height - 1)
    } else {
        inner
    }
}

/// The files of a group, windowed and separated, with the cursor moved past the separators.
pub open spec fn file_list(
    area: Rect,
    inner_width: int,
    files: Seq<FileModel>,
    colors: Map<Seq<char>, Color>,
    state: ListState,
    path_style: PathStyle,
) -> WidgetModel {
    let rows = area.height as int;
    let total = files.len() as int;
    let from = crate::canvas::window_begin(state, total, rows);
    let to = crate::canvas::window_end(state, total, rows);
    let mark = crate::canvas::window_mark(state, total, rows);
    window_list(
        area,
        with_separators(
            file_window(files, from, to, colors, path_style),
            from,
            total,
            inner_width,
        ),
        match mark {
            Some(m) => Some((m + separators_between(from, from + m)) as usize),
            None => None,
        },
        None,
    )
}

/// An open group as widgets: the border, the group's own statement where there is room for it,
/// and its files.
pub open spec fn group_files(
    area: Rect,
    files: Option<Seq<FileModel>>,
    claim: Option<GroupClaim>,
    colors: Map<Seq<char>, Color>,
    state: ListState,
    path_style: PathStyle,
    focused: bool,
    title: Seq<char>,
) -> Seq<WidgetModel> {
    let inner = area.spec_inner();
    let border = WidgetModel::Border {
        area,
        border: FrameModel {
            title: crate::canvas::text_line(title),
            border: focus_look(focused),
        },
    };
    let head = if claim_shown(area, claim) {
        seq![
            border,
            WidgetModel::Text {
                area: crate::layout::strip(inner, 0, 1),
                lines: seq![crate::canvas::text_line(claim_statement(claim->0))],
                style: dim_style(),
                frame: None,
                wrap: false,
                centered: false,
            },
        ]
    } else {
        seq![border]
    };
    let list_area = files_area(area, claim);
    match files {
        Some(fs) => head.push(
            file_list(list_area, inner.width as int, fs, colors, state, path_style),
        ),
        None => head.push(window_list(list_area, Seq::empty(), None, None)),
    }
}

/// The list state after an open group has been drawn.
pub open spec fn group_files_state(
    area: Rect,
    files: Option<Seq<FileModel>>,
    claim: Option<GroupClaim>,
    state: ListState,
) -> ListState {
    match files {
        Some(fs) => crate::canvas::window_placed(
            state,
            fs.len() as int,
            files_area(area, claim).height as int,
        ),
        None => ListState { selected: state.selected, offset: 0 },
    }
}

/// The content of a group that may be absent.
pub open spec fn open_files(group: Option<&DuplicateGroup>) -> Option<Seq<FileModel>> {
    match group {
        Some(g) => Some(crate::model::files_model(g.files@)),
        None => None,
    }
}

fn find_keeper(files: &Vec<FileEntry>) -> (r: usize)
    ensures
        r == keeper_index(crate::model::files_model(files@)),
        r <= files@.len(),
{
    let ghost model = crate::model::files_model(files@);
    let mut i: usize = 0;
    while i < files.len()
        invariant
            i <= files@.len(),
            model == crate::model::files_model(files@),
            forall|k: int| 0 <= k < i ==> !(#[trigger] model[k]).is_keeper,
        decreases files@.len() - i,
    {
        if files[i].is_keeper {
            proof {
                lemma_keeper_is(model, i as int);
            }
            return i;
        }
        i = i + 1;
    }
    proof {
        lemma_keeper_is(model, i as int);
    }
    i
}

fn put_file_list(
    canvas: &mut Canvas,
    area: Rect,
    inner_width: u16,
    group: &DuplicateGroup,
    name_colors: &Assoc<String, Color>,
    state: &mut ListState,
    path_style: PathStyle,
)
    ensures
        final(canvas).area == old(canvas).area,
        final(canvas)@ == old(canvas)@.push(
            file_list(
                area,
                inner_width as int,
                crate::model::files_model(group.files@),
                name_colors@,
                *old(state),
                path_style,
            ),
        ),
        *final(state) == crate::canvas::window_placed(
            *old(state),
            group.files@.len() as int,
            area.height as int,
        ),
{
    let rows: usize = area.height as usize;
    let total: usize = group.files.len();
    let (start, local_sel) = visible_window(state, total, rows);
    let end: usize = if rows <= total - start {
        start + rows
    } else {
        total
    };
    let keeper: usize = find_keeper(&group.files);
    let ghost files = crate::model::files_model(group.files@);
    let ghost window = file_window(files, start as int, end as int, name_colors@, path_style);
    let mut items = no_rows();
    let mut i: usize = start;
    assert(crate::canvas::rows_model(items@) =~= window.take(0));
    while i < end
        invariant
            start <= i <= end <= group.files@.len(),
            keeper == keeper_index(files),
            files == crate::model::files_model(group.files@),
            window == file_window(files, start as int, end as int, name_colors@, path_style),
            crate::canvas::rows_model(items@) == window.take(i - start),
        decreases end - i,
    {
        let file = &group.files[i];
        let linked = !file.is_keeper && keeper < group.files.len() && file.same_physical(
            &group.files[keeper],
        );
        assert(linked == already_linked(files[i as int], files));
        push_row(&mut items, file_row_of(file, linked, name_colors, path_style));
        assert(window.take(i - start).push(window[i - start]) =~= window.take(i + 1 - start));
        i = i + 1;
    }
    assert(window.take(end - start) =~= window);
    let marked: Option<usize> = match local_sel {
        Some(sel) => {
            let separators: usize = separators_before_cursor(start, start + sel);
            proof {
                lemma_separators_are_few(start as int, start + sel, area.height);
            }
            Some(sel + separators)
        },
        None => None,
    };
    assert(items@.len() == crate::canvas::rows_model(items@).len());
    let separated = items_with_separators(start, total, inner_width as usize, items);
    canvas.put(
        Widget::List {
            area,
            rows: separated,
            state: ListState { selected: marked, offset: 0 },
            frame: None,
            pointer: true,
            highlight: Style::swapped(),
        },
    );
}

fn put_claim(canvas: &mut Canvas, inner: Rect, claim: GroupClaim) -> (rest: Rect)
    requires
        crate::layout::bounded(inner),
        inner.height > 1,
    ensures
        final(canvas).area == old(canvas).area,
        final(canvas)@ == old(canvas)@.push(
            WidgetModel::Text {
                area: crate::layout::strip(inner, 0, 1),
                lines: seq![crate::canvas::text_line(claim_statement(claim))],
                style: dim_style(),
                frame: None,
                wrap: false,
                centered: false,
            },
        ),
        rest == crate::layout::strip(inner, 1, inner.height - 1),
{
    let extents: Vec<Extent> = vec![Extent::Length(1), Extent::Min(0)];
    let split = split_rows(&extents, inner);
    proof {
        reveal_with_fuel(crate::layout::asked, 3);
        reveal_with_fuel(crate::layout::strip_start, 3);
        assert(crate::layout::settled(extents@, inner.height as int, 1));
        assert(split@[0] == crate::layout::strip(inner, 0, 1));
        assert(split@[1] == crate::layout::strip(inner, 1, inner.height - 1));
    }
    let mut text = reclaim_phrase(claim.reclaim);
    text.push_str(" · ");
    text.push_str(links_phrase(claim.links).as_str());
    let mut lines = no_lines();
    push_line(&mut lines, Line::text(text));
    assert(crate::canvas::lines_model(lines@) =~= seq![
        crate::canvas::text_line(claim_statement(claim)),
    ]);
    canvas.put(
        Widget::Text {
            area: split[0],
            lines,
            style: Style::new().dim(),
            frame: None,
            wrap: false,
            centered: false,
        },
    );
    split[1]
}

/// Draws the files of a group. The group's own statement gets a line inside the border; only the
/// files of the visible window are formatted.
#[verifier::spinoff_prover]
#[verifier::rlimit(40)]
pub fn render_group_files(
    canvas: &mut Canvas,
    area: Rect,
    group: Option<&DuplicateGroup>,
    claim: Option<GroupClaim>,
    name_colors: &Assoc<String, Color>,
    state: &mut ListState,
    path_style: PathStyle,
    focused: bool,
    title: &str,
)
    requires
        crate::layout::bounded(area),
    ensures
        final(canvas).area == old(canvas).area,
        final(canvas)@ == old(canvas)@ + group_files(
            area,
            open_files(group),
            claim,
            name_colors@,
            *old(state),
            path_style,
            focused,
            title@,
        ),
        *final(state) == group_files_state(area, open_files(group), claim, *old(state)),
{
    let ghost before = canvas@;
    let inner = area.inner();
    canvas.put(
        Widget::Border {
            area,
            border: Frame { title: Line::fixed(title), border: focus_style(focused) },
        },
    );
    let list_area = match claim {
        Some(claim) => if inner.height > 1 {
            put_claim(canvas, inner, claim)
        } else {
            inner
        },
        None => inner,
    };
    match group {
        Some(group) => {
            put_file_list(canvas, list_area, inner.width, group, name_colors, state, path_style);
        },
        None => {
            state.offset = 0;
            canvas.put(
                Widget::List {
                    area: list_area,
                    rows: no_rows(),
                    state: ListState::new(),
                    frame: None,
                    pointer: true,
                    highlight: Style::swapped(),
                },
            );
        },
    }
    assert(canvas@ =~= before + group_files(
        area,
        open_files(group),
        claim,
        name_colors@,
        *old(state),
        path_style,
        focused,
        title@,
    ));
}

proof fn lemma_separators_are_few(start: int, cursor: int, rows: u16)
    requires
        0 <= start <= cursor,
        cursor - start < rows,
    ensures
        separators_between(start, cursor) <= cursor - start + 1,
        cursor - start + separators_between(start, cursor) <= 2 * 0xffff + 1,
{
}


// ---------------------------------------------------------------------------------------------
// Directory groups.
// ---------------------------------------------------------------------------------------------
/// Rows of a bordered list of one-line entries.
pub open spec fn inner_rows(area: Rect) -> int {
    if area.height >= 2 {
        area.height - 2
    } else {
        0
    }
}

/// A windowed list of one-line entries.
pub open spec fn text_list(
    area: Rect,
    texts: Seq<Seq<char>>,
    state: ListState,
    frame: FrameModel,
) -> WidgetModel {
    let rows = inner_rows(area);
    let total = texts.len() as int;
    window_list(
        area,
        texts.subrange(
            crate::canvas::window_begin(state, total, rows),
            crate::canvas::window_end(state, total, rows),
        ).map_values(|t: Seq<char>| crate::canvas::row_of_line(crate::canvas::text_line(t))),
        crate::canvas::window_mark(state, total, rows),
        Some(frame),
    )
}

/// The counters of a directory group with its paths.
pub open spec fn dir_group_text(group: DirGroup) -> Seq<char> {
    rank_column(group.id as int) + " "@ + crate::text::decimal(group.paths@.len()) + " directories · "@
        + crate::text::decimal(group.file_count as nat) + " files · "@ + crate::units::size_text(
        group.size_per_dir as nat,
    ) + " · free "@ + crate::units::size_text(group.reclaimable as nat)
}

fn dir_group_line(group: &DirGroup) -> (r: String)
    ensures
        r@ == dir_group_text(*group),
{
    let mut out = String::new();
    push_rank(&mut out, group.id);
    assert(out@ =~= rank_column(group.id as int));
    out.push_str(" ");
    push_usize(&mut out, group.paths.len());
    out.push_str(" directories · ");
    push_u64(&mut out, group.file_count);
    out.push_str(" files · ");
    out.push_str(human_bytes(group.size_per_dir).as_str());
    out.push_str(" · free ");
    out.push_str(human_bytes(group.reclaimable).as_str());
    out
}

/// The counters of several directory groups.
pub open spec fn dir_group_texts(groups: Seq<DirGroup>) -> Seq<Seq<char>> {
    groups.map_values(|g: DirGroup| dir_group_text(g))
}

/// Draws the list of duplicate-directory groups.
pub fn render_dir_group_list(
    canvas: &mut Canvas,
    area: Rect,
    groups: &[DirGroup],
    state: &mut ListState,
    focused: bool,
    title: &str,
)
    ensures
        final(canvas).area == old(canvas).area,
        final(canvas)@ == old(canvas)@.push(
            text_list(
                area,
                dir_group_texts(groups@),
                *old(state),
                FrameModel { title: crate::canvas::text_line(title@), border: focus_look(focused) },
            ),
        ),
        *final(state) == crate::canvas::window_placed(
            *old(state),
            groups@.len() as int,
            inner_rows(area),
        ),
{
    let rows: usize = (area.height as usize).saturating_sub(2);
    let (start, local_sel) = visible_window(state, groups.len(), rows);
    let end: usize = if rows <= groups.len() - start {
        start + rows
    } else {
        groups.len()
    };
    let ghost window = dir_group_texts(groups@).subrange(start as int, end as int).map_values(
        |t: Seq<char>| crate::canvas::row_of_line(crate::canvas::text_line(t)),
    );
    let mut items = no_rows();
    let mut i: usize = start;
    assert(crate::canvas::rows_model(items@) =~= window.take(0));
    while i < end
        invariant
            start <= i <= end <= groups@.len(),
            window == dir_group_texts(groups@).subrange(start as int, end as int).map_values(
                |t: Seq<char>| crate::canvas::row_of_line(crate::canvas::text_line(t)),
            ),
            crate::canvas::rows_model(items@) == window.take(i - start),
        decreases end - i,
    {
        push_row(&mut items, Row::of(Line::text(dir_group_line(&groups[i]))));
        assert(window.take(i - start).push(window[i - start]) =~= window.take(i + 1 - start));
        i = i + 1;
    }
    assert(window.take(end - start) =~= window);
    canvas.put(
        Widget::List {
            area,
            rows: items,
            state: ListState { selected: local_sel, offset: 0 },
            frame: Some(Frame { title: Line::fixed(title), border: focus_style(focused) }),
            pointer: true,
            highlight: Style::swapped(),
        },
    );
}

/// The counters of a directory group without its paths.
pub open spec fn dir_summary_text(group: DirGroupSummary) -> Seq<char> {
    rank_column(group.rank as int) + " "@ + crate::text::decimal(group.dir_count as nat)
        + " dirs · "@ + crate::text::decimal(group.file_count as nat) + " files · free "@
        + crate::units::size_text(group.reclaim as nat)
}

fn dir_summary_line(group: &DirGroupSummary) -> (r: String)
    ensures
        r@ == dir_summary_text(*group),
{
    let mut out = String::new();
    push_rank(&mut out, group.rank);
    assert(out@ =~= rank_column(group.rank as int));
    out.push_str(" ");
    push_u64(&mut out, group.dir_count);
    out.push_str(" dirs · ");
    push_u64(&mut out, group.file_count);
    out.push_str(" files · free ");
    out.push_str(human_bytes(group.reclaim).as_str());
    out
}

/// The counters of several directory groups without their paths.
pub open spec fn dir_summary_texts(groups: Seq<DirGroupSummary>) -> Seq<Seq<char>> {
    groups.map_values(|g: DirGroupSummary| dir_summary_text(g))
}

/// Draws the list of dir-group summaries for the browser's folder tab.
pub fn render_dir_group_summary_list(
    canvas: &mut Canvas,
    area: Rect,
    groups: &[DirGroupSummary],
    state: &mut ListState,
    focused: bool,
    title: Line,
)
    ensures
        final(canvas).area == old(canvas).area,
        final(canvas)@ == old(canvas)@.push(
            text_list(
                area,
                dir_summary_texts(groups@),
                *old(state),
                FrameModel { title: title@, border: focus_look(focused) },
            ),
        ),
        *final(state) == crate::canvas::window_placed(
            *old(state),
            groups@.len() as int,
            inner_rows(area),
        ),
{
    let rows: usize = (area.height as usize).saturating_sub(2);
    let (start, local_sel) = visible_window(state, groups.len(), rows);
    let end: usize = if rows <= groups.len() - start {
        start + rows
    } else {
        groups.len()
    };
    let ghost window = dir_summary_texts(groups@).subrange(start as int, end as int).map_values(
        |t: Seq<char>| crate::canvas::row_of_line(crate::canvas::text_line(t)),
    );
    let mut items = no_rows();
    let mut i: usize = start;
    assert(crate::canvas::rows_model(items@) =~= window.take(0));
    while i < end
        invariant
            start <= i <= end <= groups@.len(),
            window == dir_summary_texts(groups@).subrange(start as int, end as int).map_values(
                |t: Seq<char>| crate::canvas::row_of_line(crate::canvas::text_line(t)),
            ),
            crate::canvas::rows_model(items@) == window.take(i - start),
        decreases end - i,
    {
        push_row(&mut items, Row::of(Line::text(dir_summary_line(&groups[i]))));
        assert(window.take(i - start).push(window[i - start]) =~= window.take(i + 1 - start));
        i = i + 1;
    }
    assert(window.take(end - start) =~= window);
    canvas.put(
        Widget::List {
            area,
            rows: items,
            state: ListState { selected: local_sel, offset: 0 },
            frame: Some(Frame { title, border: focus_style(focused) }),
            pointer: true,
            highlight: Style::swapped(),
        },
    );
}

/// The row of one directory of a group; the keeper has a star, and its name in words where
/// `remark` asks for it.
pub open spec fn dir_row(path: PathView, is_keeper: bool, remark: bool) -> RowModel {
    let line = crate::canvas::blank_line().with(
        if is_keeper {
            "★ "@
        } else {
            "  "@
        },
        name_style(
            Some(
                if is_keeper {
                    Color::Green
                } else {
                    Color::Reset
                },
            ),
        ),
    ).with(path.shown_safely(), crate::canvas::plain_style());
    crate::canvas::row_of_line(
        if is_keeper && remark {
            line.with("  (keeper)"@, crate::canvas::colored(Color::Green))
        } else {
            line
        },
    )
}

/// The rows of a group's directories.
pub open spec fn dir_rows(paths: Seq<PathView>, keeper: int, remark: bool) -> Seq<RowModel> {
    Seq::new(paths.len(), |i: int| dir_row(paths[i], i == keeper, remark))
}

/// The directories of a group that may be absent.
pub open spec fn open_dirs(group: Option<&DirGroup>) -> Seq<PathView> {
    match group {
        Some(g) => crate::model::paths_model(g.paths@),
        None => Seq::empty(),
    }
}

/// The directories of a group as a widget.
pub open spec fn dir_group_files(
    area: Rect,
    paths: Seq<PathView>,
    keeper: int,
    remark: bool,
    state: ListState,
    focused: bool,
    title: Seq<char>,
) -> WidgetModel {
    WidgetModel::List {
        area,
        rows: dir_rows(paths, keeper, remark),
        state,
        frame: Some(
            FrameModel { title: crate::canvas::text_line(title), border: focus_look(focused) },
        ),
        pointer: true,
        highlight: crate::canvas::reversed_style(),
    }
}

fn put_dir_rows(
    canvas: &mut Canvas,
    area: Rect,
    group: Option<&DirGroup>,
    keeper: usize,
    remark: bool,
    state: &ListState,
    focused: bool,
    title: &str,
)
    ensures
        final(canvas).area == old(canvas).area,
        final(canvas)@ == old(canvas)@.push(
            dir_group_files(
                area,
                open_dirs(group),
                keeper as int,
                remark,
                *state,
                focused,
                title@,
            ),
        ),
{
    let mut items = no_rows();
    let ghost all = dir_rows(open_dirs(group), keeper as int, remark);
    match group {
        Some(group) => {
            let mut i: usize = 0;
            assert(crate::canvas::rows_model(items@) =~= all.take(0));
            while i < group.paths.len()
                invariant
                    i <= group.paths@.len(),
                    all == dir_rows(
                        crate::model::paths_model(group.paths@),
                        keeper as int,
                        remark,
                    ),
                    crate::canvas::rows_model(items@) == all.take(i as int),
                decreases group.paths@.len() - i,
            {
                let is_keeper = i == keeper;
                let (prefix, color): (&str, Color) = if is_keeper {
                    ("★ ", Color::Green)
                } else {
                    ("  ", Color::Reset)
                };
                let mut line = Line::blank();
                line.add_str(prefix, Style::color(color).bold());
                line.add(group.paths[i].display_safely(), Style::new());
                if is_keeper && remark {
                    line.add_str("  (keeper)", Style::color(Color::Green));
                }
                push_row(&mut items, Row::of(line));
                assert(all.take(i as int).push(all[i as int]) =~= all.take(i as int + 1));
                i = i + 1;
            }
            assert(all.take(group.paths@.len() as int) =~= all);
        },
        None => {},
    }
    assert(crate::canvas::rows_model(items@) =~= all);
    canvas.put(
        Widget::List {
            area,
            rows: items,
            state: *state,
            frame: Some(Frame { title: Line::fixed(title), border: focus_style(focused) }),
            pointer: true,
            highlight: Style::swapped(),
        },
    );
}

/// Draws the directory paths of a group for the commander. The first directory is marked as the
/// keeper (★).
pub fn render_dir_group_files(
    canvas: &mut Canvas,
    area: Rect,
    group: Option<&DirGroup>,
    state: &ListState,
    focused: bool,
    title: &str,
)
    ensures
        final(canvas).area == old(canvas).area,
        final(canvas)@ == old(canvas)@.push(
            dir_group_files(area, open_dirs(group), 0, false, *state, focused, title@),
        ),
{
    put_dir_rows(canvas, area, group, 0, false, state, focused, title);
}

/// Draws the directory paths of a group with a configurable keeper.
pub fn render_dir_group_files_with_keeper(
    canvas: &mut Canvas,
    area: Rect,
    group: Option<&DirGroup>,
    keeper_index: usize,
    state: &ListState,
    focused: bool,
    title: &str,
)
    ensures
        final(canvas).area == old(canvas).area,
        final(canvas)@ == old(canvas)@.push(
            dir_group_files(
                area,
                open_dirs(group),
                keeper_index as int,
                true,
                *state,
                focused,
                title@,
            ),
        ),
{
    put_dir_rows(canvas, area, group, keeper_index, true, state, focused, title);
}

// ---------------------------------------------------------------------------------------------
// The browser screen.
// ---------------------------------------------------------------------------------------------
/// Title of the left panel: the tabs, the active one in bold and the other dimmed.
pub open spec fn groups_title(active: BrowserTab) -> LineModel {
    let bold = Style { fg: None, bg: None, bold: true, dim: false, reversed: false };
    crate::canvas::text_line(" Groups "@).with(
        "[1] Folders"@,
        if active == BrowserTab::Dirs {
            bold
        } else {
            dim_style()
        },
    ).with(" "@, crate::canvas::plain_style()).with(
        "[2] Files"@,
        if active == BrowserTab::Files {
            bold
        } else {
            dim_style()
        },
    ).with(" (by payoff) "@, crate::canvas::plain_style())
}

/// Title of the browser's left panel with embedded tabs.
pub fn groups_panel_title(active: BrowserTab) -> (r: Line)
    ensures
        r@ == groups_title(active),
{
    let bold = Style::new().bold();
    let dim = Style::new().dim();
    let mut line = Line::fixed(" Groups ");
    line.add_str(
        "[1] Folders",
        if active == BrowserTab::Dirs {
            bold
        } else {
            dim
        },
    );
    line.add_str(" ", Style::new());
    line.add_str(
        "[2] Files",
        if active == BrowserTab::Files {
            bold
        } else {
            dim
        },
    );
    line.add_str(" (by payoff) ", Style::new());
    line
}

/// What the browser knows and where it stands.
#[derive(Debug, Clone)]
pub struct BrowserState {
    pub tab: BrowserTab,
    pub focus_files: bool,
    pub path_style: PathStyle,
    pub files_scanned: u64,
    pub reclaim: ReclaimEstimate,
    pub already_linked_sets: u64,
    pub marked_count: usize,
    pub group_summaries: Vec<GroupSummary>,
    pub group_state: ListState,
    pub open_group: Option<DuplicateGroup>,
    pub open_group_claim: Option<GroupClaim>,
    pub open_group_colors: Assoc<String, Color>,
    pub file_state: ListState,
    pub dir_group_summaries: Vec<DirGroupSummary>,
    pub dir_groups_reclaim_total: u64,
    pub dir_group_state: ListState,
    pub open_dir_group: Option<DirGroup>,
    pub dir_keeper_index: usize,
    pub dir_file_state: ListState,
    pub group_visible_rows: u16,
    pub files_visible_rows: u16,
    pub groups_area: Option<Rect>,
    pub files_area: Option<Rect>,
    pub tab_dirs_area: Option<Rect>,
    pub tab_files_area: Option<Rect>,
}

/// Where the parts of the browser screen lie.
#[derive(Debug, Clone, Copy, PartialEq, Eq, Structural)]
pub struct BrowserRegions {
    pub header: Rect,
    pub groups: Rect,
    pub files: Rect,
    pub footer: Rect,
}

/// The header's lines: counters of the active tab and, on the file tab, the scan's reclaim.
pub open spec fn header_lines(b: BrowserState) -> Seq<LineModel> {
    match b.tab {
        BrowserTab::Files => seq![
            crate::canvas::text_line(
                " Groups: "@ + crate::text::decimal(b.group_summaries@.len()) + "   Scanned: "@
                    + crate::text::decimal(b.files_scanned as nat) + "   Marked: "@
                    + crate::text::decimal(b.marked_count as nat) + " "@,
            ),
            crate::canvas::text_line(
                " "@ + crate::units::reclaim_words(b.reclaim) + "   already linked sets: "@
                    + crate::text::decimal(b.already_linked_sets as nat) + " "@,
            ),
        ],
        BrowserTab::Dirs => seq![
            crate::canvas::text_line(
                " Groups: "@ + crate::text::decimal(b.dir_group_summaries@.len())
                    + "   Scanned: "@ + crate::text::decimal(b.files_scanned as nat)
                    + "   Will free: "@ + crate::units::size_text(b.dir_groups_reclaim_total as nat)
                    + "   Marked: "@ + crate::text::decimal(b.marked_count as nat) + " "@,
            ),
            crate::canvas::text_line(
                " already linked sets: "@ + crate::text::decimal(b.already_linked_sets as nat) + " "@,
            ),
        ],
    }
}

fn header_of(b: &BrowserState) -> (r: Vec<Line>)
    ensures
        crate::canvas::lines_model(r@) == header_lines(*b),
{
    let mut first = " Groups: ".to_string();
    let mut second;
    match b.tab {
        BrowserTab::Files => {
            push_usize(&mut first, b.group_summaries.len());
            first.push_str("   Scanned: ");
            push_u64(&mut first, b.files_scanned);
            first.push_str("   Marked: ");
            push_usize(&mut first, b.marked_count);
            first.push_str(" ");
            second = " ".to_string();
            second.push_str(reclaim_phrase(b.reclaim).as_str());
            second.push_str("   already linked sets: ");
            push_u64(&mut second, b.already_linked_sets);
            second.push_str(" ");
        },
        BrowserTab::Dirs => {
            push_usize(&mut first, b.dir_group_summaries.len());
            first.push_str("   Scanned: ");
            push_u64(&mut first, b.files_scanned);
            first.push_str("   Will free: ");
            first.push_str(human_bytes(b.dir_groups_reclaim_total).as_str());
            first.push_str("   Marked: ");
            push_usize(&mut first, b.marked_count);
            first.push_str(" ");
            second = " already linked sets: ".to_string();
            push_u64(&mut second, b.already_linked_sets);
            second.push_str(" ");
        },
    }
    let mut lines = no_lines();
    push_line(&mut lines, Line::text(first));
    push_line(&mut lines, Line::text(second));
    assert(crate::canvas::lines_model(lines@) =~= header_lines(*b));
    lines
}

/// The program's name and version on a blue stripe.
pub open spec fn brand(version: Seq<char>) -> SpanModel {
    SpanModel {
        text: " DedupCommando v"@ + version + " "@,
        style: Style {
            fg: Some(Color::White),
            bg: Some(Color::Blue),
            bold: true,
            dim: false,
            reversed: false,
        },
    }
}

/// A title of the brand and a caption.
pub open spec fn brand_title(version: Seq<char>, caption: Seq<char>) -> LineModel {
    crate::canvas::blank_line().with(brand(version).text, brand(version).style).with(
        caption,
        crate::canvas::plain_style(),
    )
}

/// A title of the brand and a caption.
pub fn branded(version: &str, caption: &str) -> (r: Line)
    ensures
        r@ == brand_title(version@, caption@),
{
    let mut stripe = " DedupCommando v".to_string();
    stripe.push_str(version);
    stripe.push_str(" ");
    let mut line = Line::blank();
    line.add(stripe, Style::color(Color::White).on(Color::Blue).bold());
    line.add_str(caption, Style::new());
    line
}

/// The key hints of the browser.
pub const BROWSER_HINTS: &'static str = "1=Folders 2=Files · Tab · ↑↓/PgUp·PgDn/g·G · LMB·wheel · Enter=keeper · d/h/c=mark · Space=unmark · a=auto · v=view · r=review · ?=help";

/// Title of the files of the open group.
pub open spec fn files_title(style: PathStyle) -> Seq<char> {
    " Group files · view: "@ + crate::model::path_style_label(style) + " "@
}

/// The two lists of the active tab.
pub open spec fn tab_widgets(b: BrowserState, at: BrowserRegions) -> Seq<WidgetModel> {
    match b.tab {
        BrowserTab::Files => seq![
            group_list(
                at.groups,
                b.group_summaries@,
                b.group_state,
                !b.focus_files,
                groups_title(BrowserTab::Files),
            ),
        ] + group_files(
            at.files,
            match b.open_group {
                Some(g) => Some(crate::model::files_model(g.files@)),
                None => None,
            },
            b.open_group_claim,
            b.open_group_colors@,
            b.file_state,
            b.path_style,
            b.focus_files,
            files_title(b.path_style),
        ),
        BrowserTab::Dirs => seq![
            text_list(
                at.groups,
                dir_summary_texts(b.dir_group_summaries@),
                b.dir_group_state,
                FrameModel {
                    title: groups_title(BrowserTab::Dirs),
                    border: focus_look(!b.focus_files),
                },
            ),
            dir_group_files(
                at.files,
                match b.open_dir_group {
                    Some(g) => crate::model::paths_model(g.paths@),
                    None => Seq::empty(),
                },
                b.dir_keeper_index as int,
                true,
                b.dir_file_state,
                b.focus_files,
                " Group folders "@,
            ),
        ],
    }
}

/// A column moved to the right, as far as columns go.
pub open spec fn column_after(x: u16, by: int) -> u16 {
    if x + by <= u16::MAX {
        (x + by) as u16
    } else {
        u16::MAX
    }
}

/// What the browser remembers of a drawn frame: how far a page reaches, where the panels and the
/// tabs lie for the mouse, and the windows of the lists.
pub open spec fn browser_drawn(b: BrowserState, at: BrowserRegions) -> BrowserState {
    let noted = BrowserState {
        group_visible_rows: match b.tab {
            BrowserTab::Files => fitting_groups(at.groups) as u16,
            BrowserTab::Dirs => inner_rows(at.groups) as u16,
        },
        files_visible_rows: inner_rows(at.files) as u16,
        groups_area: Some(at.groups),
        files_area: Some(at.files),
        tab_dirs_area: Some(
            Rect { x: column_after(at.groups.x, 9), y: at.groups.y, width: 11, height: 1 },
        ),
        tab_files_area: Some(
            Rect { x: column_after(at.groups.x, 21), y: at.groups.y, width: 9, height: 1 },
        ),
        ..b
    };
    match b.tab {
        BrowserTab::Files => BrowserState {
            group_state: crate::canvas::window_placed(
                b.group_state,
                b.group_summaries@.len() as int,
                fitting_groups(at.groups),
            ),
            file_state: group_files_state(
                at.files,
                match b.open_group {
                    Some(g) => Some(crate::model::files_model(g.files@)),
                    None => None,
                },
                b.open_group_claim,
                b.file_state,
            ),
            ..noted
        },
        BrowserTab::Dirs => BrowserState {
            dir_group_state: crate::canvas::window_placed(
                b.dir_group_state,
                b.dir_group_summaries@.len() as int,
                inner_rows(at.groups),
            ),
            ..noted
        },
    }
}

/// The browser screen as widgets.
pub open spec fn browser_widgets(
    b: BrowserState,
    at: BrowserRegions,
    version: Seq<char>,
    status: Seq<char>,
) -> Seq<WidgetModel> {
    seq![
        crate::canvas::framed_text(
            at.header,
            header_lines(b),
            FrameModel {
                title: brand_title(version, " Duplicates "@),
                border: crate::canvas::plain_style(),
            },
        ),
    ] + tab_widgets(b, at) + seq![crate::canvas::footer(at.footer, status, BROWSER_HINTS@)]
}

fn render_files_tab(canvas: &mut Canvas, b: &mut BrowserState, at: BrowserRegions)
    requires
        crate::layout::bounded(at.files),
        old(b).tab == BrowserTab::Files,
    ensures
        final(canvas).area == old(canvas).area,
        final(canvas)@ == old(canvas)@ + tab_widgets(*old(b), at),
        *final(b) == (BrowserState {
            group_state: browser_drawn(*old(b), at).group_state,
            file_state: browser_drawn(*old(b), at).file_state,
            ..*old(b)
        }),
{
    let ghost before = canvas@;
    let focus_files = b.focus_files;
    let mut group_state = b.group_state;
    render_group_list(
        canvas,
        at.groups,
        b.group_summaries.as_slice(),
        &mut group_state,
        !focus_files,
        groups_panel_title(BrowserTab::Files),
    );
    b.group_state = group_state;
    let mut title = " Group files · view: ".to_string();
    title.push_str(b.path_style.label());
    title.push_str(" ");
    let mut file_state = b.file_state;
    render_group_files(
        canvas,
        at.files,
        b.open_group.as_ref(),
        b.open_group_claim,
        &b.open_group_colors,
        &mut file_state,
        b.path_style,
        focus_files,
        title.as_str(),
    );
    b.file_state = file_state;
    assert(canvas@ =~= before + tab_widgets(*old(b), at));
}

fn render_dirs_tab(canvas: &mut Canvas, b: &mut BrowserState, at: BrowserRegions)
    requires
        old(b).tab == BrowserTab::Dirs,
    ensures
        final(canvas).area == old(canvas).area,
        final(canvas)@ == old(canvas)@ + tab_widgets(*old(b), at),
        *final(b) == (BrowserState {
            dir_group_state: browser_drawn(*old(b), at).dir_group_state,
            ..*old(b)
        }),
{
    let ghost before = canvas@;
    let mut state = b.dir_group_state;
    render_dir_group_summary_list(
        canvas,
        at.groups,
        b.dir_group_summaries.as_slice(),
        &mut state,
        !b.focus_files,
        groups_panel_title(BrowserTab::Dirs),
    );
    b.dir_group_state = state;
    render_dir_group_files_with_keeper(
        canvas,
        at.files,
        b.open_dir_group.as_ref(),
        b.dir_keeper_index,
        &b.dir_file_state,
        b.focus_files,
        " Group folders ",
    );
    assert(canvas@ =~= before + tab_widgets(*old(b), at));
}

/// Draws the browser with its parts where `at` says.
pub fn render_at(
    canvas: &mut Canvas,
    b: &mut BrowserState,
    at: BrowserRegions,
    version: &str,
    status: &str,
)
    requires
        crate::layout::bounded(at.files),
    ensures
        final(canvas).area == old(canvas).area,
        final(canvas)@ == old(canvas)@ + browser_widgets(*old(b), at, version@, status@),
        *final(b) == browser_drawn(*old(b), at),
{
    let ghost before = canvas@;
    let ghost given = *b;
    canvas.text(
        at.header,
        header_of(b),
        Frame { title: branded(version, " Duplicates "), border: Style::new() },
    );
    b.group_visible_rows = match b.tab {
        BrowserTab::Files => {
            let fits: usize = groups_that_fit(at.groups);
            proof {
                lemma_fitting_groups_fit(at.groups);
            }
            fits as u16
        },
        BrowserTab::Dirs => at.groups.height.saturating_sub(2),
    };
    b.files_visible_rows = at.files.height.saturating_sub(2);
    b.groups_area = Some(at.groups);
    b.files_area = Some(at.files);
    b.tab_dirs_area = Some(
        Rect { x: at.groups.x.saturating_add(9), y: at.groups.y, width: 11, height: 1 },
    );
    b.tab_files_area = Some(
        Rect { x: at.groups.x.saturating_add(21), y: at.groups.y, width: 9, height: 1 },
    );
    let ghost noted = *b;
    assert(tab_widgets(noted, at) == tab_widgets(given, at));
    match b.tab {
        BrowserTab::Files => {
            render_files_tab(canvas, b, at);
        },
        BrowserTab::Dirs => {
            render_dirs_tab(canvas, b, at);
        },
    }
    crate::canvas::render_footer(canvas, at.footer, status, BROWSER_HINTS);
    assert(canvas@ =~= before + browser_widgets(given, at, version@, status@));
}

proof fn lemma_fitting_groups_fit(area: Rect)
    ensures
        1 <= fitting_groups(area) <= u16::MAX,
{
    let n = rows_of_group(area.width);
    let inner = if area.height >= 2 {
        area.height - 2
    } else {
        0
    };
    assert(inner / n <= inner) by (nonlinear_arith)
        requires
            n >= 1,
            inner >= 0,
    ;
}

/// How the browser's parts lie on a screen: the header and the footer of four rows where they
/// fit, the groups in a pane of 52 columns where it fits.
pub open spec fn browser_regions(area: Rect, at: BrowserRegions) -> bool {
    exists|rows: ThreeRows, panes: TwoPanes|
        #![trigger crate::layout::three_rows(area, 4, 0, 4, rows), crate::layout::two_panes(
            rows.middle,
            52,
            panes,
        )]
        crate::layout::three_rows(area, 4, 0, 4, rows) && crate::layout::two_panes(
            rows.middle,
            52,
            panes,
        ) && at == (BrowserRegions {
            header: rows.top,
            groups: panes.left,
            files: panes.right,
            footer: rows.bottom,
        })
}

/// Duplicate-browsing screen: a groups panel + a files panel.
pub fn render(canvas: &mut Canvas, b: &mut BrowserState, version: &str, status: &str)
    requires
        crate::layout::bounded(old(canvas).area),
    ensures
        final(canvas).area == old(canvas).area,
        exists|at: BrowserRegions|
            #![trigger browser_regions(old(canvas).area, at)]
            browser_regions(old(canvas).area, at) && final(canvas)@ == old(canvas)@
                + browser_widgets(*old(b), at, version@, status@) && *final(b) == browser_drawn(
                *old(b),
                at,
            ),
{
    let rows = split_three(canvas.area, 4, 0, 4);
    let panes = split_two(rows.middle, 52);
    let at = BrowserRegions {
        header: rows.top,
        groups: panes.left,
        files: panes.right,
        footer: rows.bottom,
    };
    assert(browser_regions(canvas.area, at));
    render_at(canvas, b, at, version, status);
}

} // verus!
