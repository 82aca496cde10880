//! Directories: what is read, what is shown of it, where the cursor lands, and where it points.

use vstd::prelude::*;

use crate::app::{AppModel, CommanderModel};
use crate::canvas::Rect;
use crate::entries::{EntryKind, EntryModel, PanelView};
use crate::keys::{MouseEvent, MouseKind};
use crate::layout::{BoardRegions, Regions};
use crate::panels::{PanelModel, RawEntry};
use crate::path::PathView;
use crate::state::BoardModel;

verus! {

// ---------------------------------------------------------------------------------------------
// Reading.
// ---------------------------------------------------------------------------------------------
/// A listing holds what was found and nothing else, each under the directory that was read, with
/// its size and date, a directory where its mode says so and a file otherwise; before them stands
/// the way up, where there is one.
pub proof fn law_a_listing_holds_what_was_found(
    dir: PathView,
    found: Seq<RawEntry>,
    i: int,
)
    requires
        0 <= i < found.len(),
    ensures
        ({
            let list = crate::panels::listing(dir, found);
            let up: int = if dir.parent() is Some {
                1
            } else {
                0
            };
            let e = list[up + i];
            &&& list.len() == found.len() + up
            &&& dir.parent() matches Some(parent) ==> list[0].kind == EntryKind::Parent
                && list[0].path == parent
            &&& e.path == dir.child(found[i].name@)
            &&& e.size == found[i].size && e.mtime == found[i].mtime
            &&& e.device == found[i].device && e.inode == found[i].inode
            &&& e.kind == EntryKind::Dir <==> found[i].mode & 0xf000u32 == 0x4000u32
            &&& e.kind == EntryKind::File <==> found[i].mode & 0xf000u32 != 0x4000u32
        }),
{
}

/// Where only directories are shown, every entry but the files is, in the order it had.
pub proof fn law_only_directories_are_left(entries: Seq<EntryModel>)
    ensures
        crate::panels::only_dirs(entries) == entries.filter(
            |e: EntryModel| e.kind != EntryKind::File,
        ),
    decreases entries.len(),
{
    reveal(Seq::filter);
    if entries.len() > 0 {
        law_only_directories_are_left(entries.drop_last());
    }
}

/// The position of a path is that of the first entry with it.
pub proof fn law_a_path_is_found_where_it_is(entries: Seq<EntryModel>, path: PathView, at: int)
    requires
        0 <= at < entries.len(),
        entries[at].path.key() == path.key(),
        forall|i: int| 0 <= i < at ==> (#[trigger] entries[i]).path.key() != path.key(),
    ensures
        crate::panels::position_of(entries, path) == at,
    decreases at,
{
    if at > 0 {
        assert(entries[0].path.key() != path.key());
        let rest = entries.drop_first();
        assert(rest[at - 1] == entries[at]);
        assert forall|i: int| 0 <= i < at - 1 implies (#[trigger] rest[i]).path.key()
            != path.key() by {
            assert(rest[i] == entries[i + 1]);
        }
        law_a_path_is_found_where_it_is(rest, path, at - 1);
    }
}

/// A path that no entry has is found nowhere.
pub proof fn law_an_absent_path_is_found_nowhere(entries: Seq<EntryModel>, path: PathView)
    requires
        forall|i: int|
            0 <= i < entries.len() ==> (#[trigger] entries[i]).path.key() != path.key(),
    ensures
        crate::panels::position_of(entries, path) == entries.len(),
    decreases entries.len(),
{
    if entries.len() > 0 {
        assert(entries[0].path.key() != path.key());
        let rest = entries.drop_first();
        assert forall|i: int| 0 <= i < rest.len() implies (#[trigger] rest[i]).path.key()
            != path.key() by {
            assert(rest[i] == entries[i + 1]);
        }
        law_an_absent_path_is_found_nowhere(rest, path);
    }
}

/// After a panel was read the cursor is on the entry that was asked for, and on the first one where
/// it is not there; the panel keeps its directory, its marks, its sort and its mode.
pub proof fn law_the_cursor_lands_where_it_was_asked(
    p: PanelModel,
    entries: Seq<EntryModel>,
    path: PathView,
    at: int,
)
    requires
        entries.len() <= usize::MAX,
        p.view != PanelView::DirsOnly,
    ensures
        ({
            let q = crate::panels::loaded(p, entries, Some(path));
            let there = 0 <= at < q.entries.len() && q.entries[at].path.key() == path.key()
                && forall|i: int| 0 <= i < at ==> (#[trigger] q.entries[i]).path.key()
                != path.key();
            let absent = forall|i: int|
                0 <= i < q.entries.len() ==> (#[trigger] q.entries[i]).path.key() != path.key();
            &&& there ==> q.list.selected == Some(at as usize)
            &&& absent && entries.len() > 0 ==> q.list.selected == Some(0usize)
            &&& q.entries.len() == entries.len()
            &&& q.cwd == p.cwd && q.marks == p.marks && q.sort == p.sort && q.view == p.view
        }),
{
    crate::entries::lemma_sorted_list_exists(entries, p.sort);
    let q = crate::panels::loaded(p, entries, Some(path));
    if 0 <= at < q.entries.len() && q.entries[at].path.key() == path.key() && forall|i: int|
        0 <= i < at ==> (#[trigger] q.entries[i]).path.key() != path.key() {
        law_a_path_is_found_where_it_is(q.entries, path, at);
    }
    if forall|i: int|
        0 <= i < q.entries.len() ==> (#[trigger] q.entries[i]).path.key() != path.key() {
        law_an_absent_path_is_found_nowhere(q.entries, path);
    }
}

/// A new panel shows what its directory holds; where that cannot be read, or holds nothing, the
/// root.
pub proof fn law_a_new_panel_falls_back_to_the_root(
    start: PathView,
    found: Vec<RawEntry>,
    root_found: Option<Vec<RawEntry>>,
)
    requires
        start.parent() is Some,
    ensures
        crate::panels::new_panel(start, Some(found), root_found).cwd == start,
        crate::panels::new_panel(start, Some(found), root_found).entries.len() == found@.len() + 1,
        root_found matches Some(f) ==> crate::panels::new_panel(start, None, root_found).cwd
            == crate::path::path_of(seq!['/' as u8]),
{
    let listing = crate::panels::listing(start, found@);
    crate::entries::lemma_sorted_list_exists(listing, crate::entries::SortKey::Name);
    let once = crate::entries::sorted_list(listing, crate::entries::SortKey::Name);
    crate::entries::lemma_sorted_list_exists(once, crate::entries::SortKey::Name);
}

// ---------------------------------------------------------------------------------------------
// The pointer.
// ---------------------------------------------------------------------------------------------
/// A click on a panel's row means the entry drawn there: the first of the window on the first row
/// inside the frame, each as many rows high as its mode draws it; the frame and the rows past the
/// last entry mean none.
pub proof fn law_a_click_means_the_entry_drawn_there(
    c: CommanderModel,
    index: int,
    rect: Rect,
    row: u16,
    entry: usize,
)
    requires
        0 <= index < c.panels.len(),
        crate::navigate::entry_height(c.panels[index].view, rect.width) > 0,
        crate::commander::entry_hit(c, index, rect, row) == Some(entry),
        crate::navigate::row_count(c, index) <= usize::MAX,
    ensures
        ({
            let p = c.panels[index];
            let height = crate::navigate::entry_height(p.view, rect.width) as int;
            let line = row - rect.y - 1;
            &&& 0 <= line < rect.height - 2
            &&& p.list.offset <= entry < crate::navigate::row_count(c, index)
            &&& (entry - p.list.offset) * height <= line < (entry - p.list.offset + 1) * height
            &&& p.view != PanelView::GroupList ==> height == 1
        }),
{
    let p = c.panels[index];
    let height = crate::navigate::entry_height(p.view, rect.width) as int;
    let line = row - rect.y - 1;
    let n = line / height;
    assert(n * height <= line < (n + 1) * height && n >= 0) by (nonlinear_arith)
        requires
            n == line / height,
            height > 0,
            line >= 0,
    ;
}

/// Two clicks on one entry of one panel within 400 milliseconds are a double click, and no others.
pub proof fn law_a_double_click_is_quick_and_on_one_entry(
    when: u64,
    panel: usize,
    entry: usize,
    now: u64,
    there: usize,
    that: usize,
)
    ensures
        crate::keys::second_click(Some((when, panel, entry)), now, there, that) <==> panel == there
            && entry == that && now <= when + 400,
        !crate::keys::second_click(None, now, there, that),
{
}

/// A click gives its panel the focus and puts the cursor on its entry; the first one is remembered
/// and opens nothing.
pub proof fn law_a_click_takes_the_focus_and_the_cursor(
    a: AppModel,
    index: int,
    entry: usize,
    now: u64,
)
    requires
        a.valid(),
        0 <= index < a.commander.panels.len(),
        entry < a.commander.panels[index].entries.len() <= usize::MAX,
    ensures
        ({
            let b = crate::commander::entry_clicked(a, index, entry, now);
            let again = crate::keys::second_click(
                a.commander.last_click,
                now,
                index as usize,
                entry,
            );
            &&& b.commander.active == index
            &&& !again ==> b.commander.panels[index].list.selected == Some(entry) && b.outbox
                == a.outbox && b.commander.last_click == Some((now, index as usize, entry))
            &&& again ==> b.commander.last_click is None
            &&& again && a.commander.panels[index].view == PanelView::Files
                && a.commander.panels[index].entries[entry as int].kind == EntryKind::Dir
                ==> b.commander.panels[index].cwd
                == a.commander.panels[index].entries[entry as int].path
        }),
{
}

/// The wheel gives the panel under the pointer the focus and moves its cursor by one row.
pub proof fn law_the_wheel_moves_the_panel_under_it(
    a: AppModel,
    mouse: MouseEvent,
    at: Regions,
    rects: Seq<Rect>,
    now: u64,
    b: AppModel,
    index: int,
    entry: Option<usize>,
)
    requires
        a.valid(),
        0 <= index < a.commander.panels.len(),
        crate::commander::hit(a.commander, at, rects, mouse.column, mouse.row) == Some(
            (index, entry),
        ),
        crate::commander::moused(a, mouse, at, rects, now, b),
    ensures
        mouse.kind == MouseKind::ScrollDown || mouse.kind == MouseKind::ScrollUp
            ==> b.commander.active == index && b.outbox == a.outbox,
        mouse.kind == MouseKind::ScrollDown ==> b.commander.panels[index]
            == a.commander.panels[index].move_cursor_within(
            1,
            crate::navigate::row_count(
                CommanderModel { active: index as usize, ..a.commander },
                index,
            ) as int,
        ),
        mouse.kind == MouseKind::ScrollUp ==> b.commander.panels[index]
            == a.commander.panels[index].move_cursor_within(
            -1,
            crate::navigate::row_count(
                CommanderModel { active: index as usize, ..a.commander },
                index,
            ) as int,
        ),
        mouse.kind == MouseKind::Other ==> b == a,
{
}

/// The pointer means the panel in whose rectangle it is, counted from the first one shown.
pub proof fn law_the_pointer_means_the_panel_under_it(
    c: CommanderModel,
    rects: Seq<Rect>,
    start: int,
    from: int,
    column: u16,
    row: u16,
)
    requires
        0 <= from,
    ensures
        crate::commander::slot_hit(c, rects, start, from, column, row) matches Some(slot) ==> from
            <= slot < rects.len() && rects[slot].covers(column, row) && forall|k: int|
            from <= k < slot ==> !(#[trigger] rects[k]).covers(column, row),
        crate::commander::slot_hit(c, rects, start, from, column, row) is None ==> forall|k: int|
            from <= k < rects.len() && start + k < c.panels.len() ==> !(
            #[trigger] rects[k]).covers(column, row),
    decreases rects.len() - from,
{
    if from < rects.len() && start + from < c.panels.len() && !rects[from].covers(column, row) {
        law_the_pointer_means_the_panel_under_it(c, rects, start, from + 1, column, row);
    }
}

/// On the Board the pointer means the slot under it, and a click gives that slot the focus.
pub proof fn law_the_board_pointer_means_the_slot_under_it(
    a: AppModel,
    board: BoardModel,
    mouse: MouseEvent,
    slots: BoardRegions,
    now: u64,
    focus: usize,
)
    requires
        a.commander.board == Some(board),
        board.receivers.len() == 4,
        crate::board_screen::slot_at(slots, mouse.column, mouse.row) == Some(focus),
        mouse.kind != MouseKind::Other,
        crate::board_screen::slot_entry(
            a.commander,
            focus,
            crate::board_screen::slot_rect(slots, focus as int),
            mouse.row,
        ) is None,
    ensures
        focus == 0 ==> slots.center.covers(mouse.column, mouse.row),
        focus == 1 ==> slots.left_top.covers(mouse.column, mouse.row),
        focus == 2 ==> slots.left_bot.covers(mouse.column, mouse.row),
        focus == 3 ==> slots.right_top.covers(mouse.column, mouse.row),
        focus == 4 ==> slots.right_bot.covers(mouse.column, mouse.row),
        focus <= 4,
        crate::board_screen::board_mouse(a, mouse, slots, now).commander.board matches Some(b)
            && b.focus == focus,
        mouse.kind == MouseKind::ScrollDown ==> (crate::board_screen::board_mouse(
            a,
            mouse,
            slots,
            now,
        ).commander.board matches Some(b) && b.slot(focus as int) == board.slot(
            focus as int,
        ).move_cursor(1)),
        mouse.kind == MouseKind::ScrollUp ==> (crate::board_screen::board_mouse(
            a,
            mouse,
            slots,
            now,
        ).commander.board matches Some(b) && b.slot(focus as int) == board.slot(
            focus as int,
        ).move_cursor(-1)),
{
}

/// A row of a slot inside its frame means the entry drawn there.
pub proof fn law_a_board_row_means_its_entry(p: PanelModel, rect: Rect, row: u16, entry: usize)
    requires
        p.entries.len() <= usize::MAX,
    ensures
        crate::board_screen::entry_under(p, rect, row) == Some(entry) <==> rect.y < row && row + 1
            < rect.y + rect.height && entry == p.list.offset + (row - rect.y - 1) && entry
            < p.entries.len(),
{
}

// ---------------------------------------------------------------------------------------------
// Order.
// ---------------------------------------------------------------------------------------------
/// Names are ordered by their first differing byte, the smaller first, and a beginning before what
/// it begins.
pub proof fn law_names_are_ordered_by_their_first_difference(a: Seq<u8>, b: Seq<u8>, at: int)
    requires
        0 <= at <= a.len(),
        at <= b.len(),
        forall|i: int| 0 <= i < at ==> a[i] == b[i],
        at < a.len() && at < b.len() ==> a[at] != b[at],
        at < a.len() || at < b.len(),
    ensures
        crate::order::bytes_before(a, b) <==> at == a.len() || (at < b.len() && a[at] < b[at]),
    decreases at,
{
    if at > 0 {
        assert(a[0] == b[0]);
        let x = a.skip(1);
        let y = b.skip(1);
        assert forall|i: int| 0 <= i < at - 1 implies x[i] == y[i] by {
            assert(x[i] == a[i + 1] && y[i] == b[i + 1]);
        }
        if at < a.len() {
            assert(x[at - 1] == a[at]);
        }
        if at < b.len() {
            assert(y[at - 1] == b[at]);
        }
        law_names_are_ordered_by_their_first_difference(x, y, at - 1);
    }
}

/// Paths are ordered by their first differing component, and a directory before what lies below it.
pub proof fn law_paths_are_ordered_by_their_components(
    a: Seq<Seq<u8>>,
    b: Seq<Seq<u8>>,
    at: int,
)
    requires
        0 <= at <= a.len(),
        at <= b.len(),
        forall|i: int| 0 <= i < at ==> a[i] == b[i],
        at < a.len() && at < b.len() ==> a[at] != b[at] && crate::order::part_rank(a[at]) == 2
            && crate::order::part_rank(b[at]) == 2,
        at < a.len() || at < b.len(),
    ensures
        crate::order::parts_before(a, b) <==> at == a.len() || (at < b.len()
            && crate::order::bytes_before(a[at], b[at])),
    decreases at,
{
    if at > 0 {
        assert(a[0] == b[0]);
        let x = a.skip(1);
        let y = b.skip(1);
        assert forall|i: int| 0 <= i < at - 1 implies x[i] == y[i] by {
            assert(x[i] == a[i + 1] && y[i] == b[i + 1]);
        }
        if at < a.len() {
            assert(x[at - 1] == a[at]);
        }
        if at < b.len() {
            assert(y[at - 1] == b[at]);
        }
        law_paths_are_ordered_by_their_components(x, y, at - 1);
    }
}

} // verus!
