//! Marks on panel entries: set at once on screen, durable only once the store has answered.

use vstd::prelude::*;

use crate::app::{App, AppModel, Effect, EffectModel, MarkModel, MarkWrite};
use crate::entries::{EntryKind, EntryModel, Mark, PanelEntry};
use crate::panels::{Panel, PanelModel};
use crate::path::{FilePath, PathView};

verus! {

/// A mark that the store keeps: everything but a selection.
pub open spec fn durable(mark: Option<Mark>) -> bool {
    mark == Some(Mark::Keeper) || mark == Some(Mark::Delete) || mark == Some(Mark::Hardlink) || mark
        == Some(Mark::Reflink)
}

fn is_durable(mark: Option<Mark>) -> (r: bool)
    ensures
        r == durable(mark),
{
    match mark {
        Some(Mark::Selected) => false,
        Some(_) => true,
        None => false,
    }
}

/// A panel with a mark put on a path, or taken off it.
pub open spec fn with_mark(p: PanelModel, path: PathView, mark: Option<Mark>) -> PanelModel {
    PanelModel {
        marks: match mark {
            Some(m) => p.marks.insert(path.key(), m),
            None => p.marks.remove(path.key()),
        },
        ..p
    }
}

fn set_mark(panel: &mut Panel, path: &FilePath, mark: Option<Mark>)
    ensures
        final(panel)@ == with_mark(old(panel)@, path@, mark),
{
    match mark {
        Some(m) => panel.marks.insert(path.copy(), m),
        None => {
            panel.marks.remove(path);
        },
    }
}

/// A panel with a mark set under the cursor and the cursor moved on.
pub open spec fn marked_on(p: PanelModel, path: PathView, mark: Option<Mark>) -> PanelModel {
    with_mark(p, path, mark).move_cursor(1)
}

fn mark_on_panel(panel: &mut Panel, path: &FilePath, mark: Option<Mark>)
    ensures
        final(panel)@ == marked_on(old(panel)@, path@, mark),
{
    set_mark(panel, path, mark);
    panel.move_cursor(1);
}

/// The refusal of a second durable write while one is unacknowledged.
pub open spec fn waiting_words() -> Seq<char> {
    "Mark still saving — wait for Mark saved before marking again"@
}

/// Why a durable mark keystroke must wait, if it must: exactly one unacknowledged durable write is
/// allowed.
pub fn single_flight_refusal(app: &App) -> (r: Option<String>)
    ensures
        r is Some <==> app@.pending_marks > 0,
        r matches Some(text) ==> text@ == waiting_words(),
{
    if app.pending_marks > 0 {
        Some("Mark still saving — wait for Mark saved before marking again".to_string())
    } else {
        None
    }
}

/// Where a mark goes.
#[derive(Debug, Clone, Copy, PartialEq, Eq, Structural)]
pub enum MarkRoute {
    /// Nowhere: it would have to be durable, and no scan is loaded.
    Refused,
    /// Nowhere but the panel.
    Local,
    /// To the store.
    Store,
}

/// Where a mark goes: without a scan only what need not be durable; with one, whatever changes
/// what the store holds.
pub open spec fn mark_route(scan: Option<i64>, mark: Option<Mark>, previous: Option<Mark>) -> MarkRoute {
    if scan is None {
        if durable(mark) {
            MarkRoute::Refused
        } else {
            MarkRoute::Local
        }
    } else if durable(mark) || durable(previous) {
        MarkRoute::Store
    } else {
        MarkRoute::Local
    }
}

/// Decides where a mark goes. Fail-closed: a mark that nothing durable could stand behind is
/// refused rather than kept as a pretence.
pub fn persist_mark(scan: Option<i64>, mark: Option<Mark>, previous: Option<Mark>) -> (r: MarkRoute)
    ensures
        r == mark_route(scan, mark, previous),
{
    if scan.is_none() {
        if is_durable(mark) {
            return MarkRoute::Refused;
        }
        return MarkRoute::Local;
    }
    if is_durable(mark) || is_durable(previous) {
        MarkRoute::Store
    } else {
        MarkRoute::Local
    }
}

/// What the store is asked to write for an entry.
pub open spec fn mark_write(
    panel: usize,
    e: EntryModel,
    mark: Option<Mark>,
    previous: Option<Mark>,
    row: Option<usize>,
) -> MarkModel {
    MarkModel {
        panel,
        path: e.path,
        size: e.size,
        mtime: e.mtime,
        device: e.device,
        inode: e.inode,
        is_keeper: mark == Some(Mark::Keeper),
        action: match mark {
            Some(m) => crate::entries::mark_action(m),
            None => None,
        },
        previous,
        mark,
        row,
    }
}

fn write_for(
    panel: usize,
    entry: &PanelEntry,
    mark: Option<Mark>,
    previous: Option<Mark>,
    row: Option<usize>,
) -> (r: MarkWrite)
    ensures
        r@ == mark_write(panel, entry@, mark, previous, row),
{
    MarkWrite {
        panel,
        path: entry.path.copy(),
        size: entry.size,
        mtime: entry.mtime,
        device: entry.device,
        inode: entry.inode,
        is_keeper: match mark {
            Some(Mark::Keeper) => true,
            _ => false,
        },
        action: match mark {
            Some(m) => m.action(),
            None => None,
        },
        previous,
        mark,
        row,
    }
}

/// A mark submitted to the store: one more write is unacknowledged, and the status says that it is
/// being saved, not that it is.
pub open spec fn submitted(a: AppModel, write: MarkModel) -> AppModel {
    AppModel { pending_marks: more(a.pending_marks), ..a }.say(
        "Saving mark — "@ + write.path.shown_safely(),
    ).send(EffectModel::SaveMark(write))
}

/// One more, as far as there are numbers.
pub open spec fn more(n: usize) -> usize {
    if n < usize::MAX {
        (n + 1) as usize
    } else {
        n
    }
}

fn submit(app: &mut App, write: MarkWrite)
    ensures
        final(app)@ == submitted(old(app)@, write@),
{
    if app.pending_marks < usize::MAX {
        app.pending_marks = app.pending_marks + 1;
    }
    let mut status = "Saving mark — ".to_string();
    status.push_str(write.path.display_safely().as_str());
    app.say(status);
    app.send(Effect::SaveMark(write));
}

/// A mark applied to the active panel's entry under the cursor, and sent to the store where it
/// goes there. A refused one leaves the panel as it was.
pub open spec fn mark_applied(
    a: AppModel,
    e: EntryModel,
    mark: Option<Mark>,
    previous: Option<Mark>,
) -> AppModel {
    let active = a.commander.active;
    let p = a.commander.active_panel();
    let b = a.with_panel(active as int, marked_on(p, e.path, mark));
    match mark_route(a.commander.dedup_scan_id, mark, previous) {
        MarkRoute::Refused => a.say(
            "The mark was not saved: no scan is loaded — load one (F2/F12) before marking files"@,
        ),
        MarkRoute::Local => b,
        MarkRoute::Store => submitted(b, mark_write(active, e, mark, previous, p.list.selected)),
    }
}

fn mark_active(app: &mut App, path: &FilePath, mark: Option<Mark>)
    requires
        old(app)@.valid(),
    ensures
        final(app)@ == old(app)@.with_panel(
            old(app)@.commander.active as int,
            marked_on(old(app)@.commander.active_panel(), path@, mark),
        ),
{
    let active: usize = app.commander.active;
    mark_on_panel(app.panel_mut(active), path, mark);
}

fn apply_mark(app: &mut App, entry: &PanelEntry, mark: Option<Mark>, previous: Option<Mark>)
    requires
        old(app)@.valid(),
    ensures
        final(app)@ == mark_applied(old(app)@, entry@, mark, previous),
{
    let active: usize = app.commander.active;
    let row: Option<usize> = app.commander.active_panel().list.selected;
    let route = persist_mark(app.commander.dedup_scan_id, mark, previous);
    if let MarkRoute::Refused = route {
        app.say_str(
            "The mark was not saved: no scan is loaded — load one (F2/F12) before marking files",
        );
        return;
    }
    mark_active(app, &entry.path, mark);
    if let MarkRoute::Store = route {
        submit(app, write_for(active, entry, mark, previous, row));
    }
}

/// Why no mark may be set, if none may.
pub open spec fn mark_refusal(a: AppModel, mark: Mark) -> Option<Seq<char>> {
    if a.read_only {
        Some("Read-only mode — "@ + "marking files"@ + " is disabled"@)
    } else if mark == Mark::Reflink && !a.reflink_safe {
        Some("reflink unavailable — needs ZFS 2.3+ with block cloning enabled"@)
    } else if a.pending_marks > 0 {
        Some(waiting_words())
    } else {
        match a.commander.active_panel().selected() {
            Some(entry) => if entry.kind == EntryKind::File {
                None
            } else {
                Some("A mark can only be set on a file"@)
            },
            None => Some("A mark can only be set on a file"@),
        }
    }
}

/// A mark set on the file under the cursor, or the reason why not.
pub open spec fn cursor_marked(a: AppModel, mark: Mark) -> AppModel {
    match mark_refusal(a, mark) {
        Some(message) => a.say(message),
        None => {
            let e = a.commander.active_panel().selected().unwrap();
            mark_applied(
                a,
                e,
                Some(mark),
                a.commander.active_panel().mark_on(e.path),
            )
        },
    }
}

/// Sets the mark `mark` on the file under the active panel's cursor. Every refusal comes before
/// the row is touched and before the cursor moves.
pub fn mark_cursor(app: &mut App, mark: Mark)
    requires
        old(app)@.valid(),
    ensures
        final(app)@ == cursor_marked(old(app)@, mark),
{
    if app.deny_if_read_only("marking files") {
        return;
    }
    if matches!(mark, Mark::Reflink) && !app.reflink_safe {
        app.say_str("reflink unavailable — needs ZFS 2.3+ with block cloning enabled");
        return;
    }
    if let Some(waiting) = single_flight_refusal(app) {
        app.say(waiting);
        return;
    }
    let entry = match app.commander.active_panel().selected() {
        Some(entry) => match entry.kind {
            EntryKind::File => Some(entry.copy()),
            _ => None,
        },
        None => None,
    };
    match entry {
        Some(entry) => {
            let previous = app.commander.active_panel().mark_on(&entry.path);
            apply_mark(app, &entry, Some(mark), previous);
        },
        None => app.say_str("A mark can only be set on a file"),
    }
}

/// What Space does to a mark: anything that stands is removed, a bare entry is selected.
pub open spec fn toggled(standing: Option<Mark>) -> Option<Mark> {
    match standing {
        Some(_) => None,
        None => Some(Mark::Selected),
    }
}

/// An entry that can be selected: a file or a directory, not `..`.
pub open spec fn selectable(p: PanelModel) -> Option<EntryModel> {
    match p.selected() {
        Some(entry) => if entry.kind == EntryKind::Parent {
            None
        } else {
            Some(entry)
        },
        None => None,
    }
}

fn selectable_entry(panel: &Panel) -> (r: Option<PanelEntry>)
    ensures
        match r {
            Some(entry) => selectable(panel@) == Some(entry@),
            None => selectable(panel@) is None,
        },
{
    match panel.selected() {
        Some(entry) => match entry.kind {
            EntryKind::Parent => None,
            _ => Some(entry.copy()),
        },
        None => None,
    }
}

/// Space: the mark of the entry under the cursor removed, or the entry selected. Only clearing a
/// durable mark waits for the store.
pub open spec fn mark_toggled(a: AppModel) -> AppModel {
    if a.read_only {
        a.refuse_observer("marking files"@)
    } else {
        match selectable(a.commander.active_panel()) {
            None => a,
            Some(e) => {
                let standing = a.commander.active_panel().mark_on(e.path);
                if durable(standing) && a.pending_marks > 0 {
                    a.say(waiting_words())
                } else {
                    mark_applied(a, e, toggled(standing), standing)
                }
            },
        }
    }
}

/// Space: removes the mark from the entry under the cursor or sets «selected» (a file or
/// directory — for triage; `..` is not selected).
pub fn toggle_mark_cursor(app: &mut App)
    requires
        old(app)@.valid(),
    ensures
        final(app)@ == mark_toggled(old(app)@),
{
    if app.deny_if_read_only("marking files") {
        return;
    }
    let entry = match selectable_entry(app.commander.active_panel()) {
        Some(entry) => entry,
        None => {
            return;
        },
    };
    let standing = app.commander.active_panel().mark_on(&entry.path);
    if is_durable(standing) {
        if let Some(waiting) = single_flight_refusal(app) {
            app.say(waiting);
            return;
        }
    }
    let new_mark = match standing {
        Some(_) => None,
        None => Some(Mark::Selected),
    };
    apply_mark(app, &entry, new_mark, standing);
}

/// Insert: the entry under the cursor selected into the batch or dropped from it, and the cursor
/// moved on.
pub open spec fn select_toggled(p: PanelModel) -> PanelModel {
    match selectable(p) {
        None => p,
        Some(e) => match p.mark_on(e.path) {
            Some(Mark::Selected) => marked_on(p, e.path, None),
            Some(_) => p.move_cursor(1),
            None => marked_on(p, e.path, Some(Mark::Selected)),
        },
    }
}

/// Insert on a panel: the entry under the cursor into the batch or out of it.
pub fn toggle_selection(panel: &mut Panel)
    ensures
        final(panel)@ == select_toggled(old(panel)@),
{
    let entry = match selectable_entry(panel) {
        Some(entry) => entry,
        None => {
            return;
        },
    };
    match panel.mark_on(&entry.path) {
        Some(Mark::Selected) => mark_on_panel(panel, &entry.path, None),
        Some(_) => panel.move_cursor(1),
        None => mark_on_panel(panel, &entry.path, Some(Mark::Selected)),
    }
}

/// Insert: selects/deselects the entry under the cursor into the batch and steps down. Durable
/// marks are not touched; nothing is written.
pub fn select_toggle_cursor(app: &mut App)
    requires
        old(app)@.valid(),
    ensures
        final(app)@ == old(app)@.with_panel(
            old(app)@.commander.active as int,
            select_toggled(old(app)@.commander.active_panel()),
        ),
{
    toggle_selection(app.commander.active_panel_mut());
}

// ---------------------------------------------------------------------------------------------
// The store's answer.
// ---------------------------------------------------------------------------------------------
/// One less, not below nothing.
pub open spec fn less(n: usize) -> usize {
    if n > 0 {
        (n - 1) as usize
    } else {
        0
    }
}

/// What a saved mark means.
pub open spec fn mark_meaning(mark: Option<Mark>) -> Seq<char> {
    match mark {
        Some(Mark::Keeper) => "keeper"@,
        Some(Mark::Delete) => "delete"@,
        Some(Mark::Hardlink) => "hardlink"@,
        Some(Mark::Reflink) => "reflink"@,
        _ => "cleared"@,
    }
}

/// The store took the mark: the write is acknowledged, and the status names what it means.
pub open spec fn mark_acknowledged(a: AppModel, write: MarkModel) -> AppModel {
    AppModel { pending_marks: less(a.pending_marks), ..a }.say(
        "Mark saved: "@ + mark_meaning(write.mark) + " — "@ + write.path.shown_safely(),
    )
}

/// The store acknowledged a mark.
pub fn mark_saved(app: &mut App, write: &MarkWrite)
    ensures
        final(app)@ == mark_acknowledged(old(app)@, write@),
{
    if app.pending_marks > 0 {
        app.pending_marks = app.pending_marks - 1;
    }
    let mut status = "Mark saved: ".to_string();
    status.push_str(
        match write.mark {
            Some(Mark::Keeper) => "keeper",
            Some(Mark::Delete) => "delete",
            Some(Mark::Hardlink) => "hardlink",
            Some(Mark::Reflink) => "reflink",
            _ => "cleared",
        },
    );
    status.push_str(" — ");
    status.push_str(write.path.display_safely().as_str());
    app.say(status);
}

/// A panel as it was before a mark: the mark that stood there, and the cursor on its row.
pub open spec fn unmarked(p: PanelModel, write: MarkModel) -> PanelModel {
    let q = with_mark(p, write.path, write.previous);
    PanelModel { list: crate::canvas::list_selected(q.list, write.row), ..q }
}

/// What a refused mark is reported as.
pub open spec fn refused_words(write: MarkModel, reason: Seq<char>) -> Seq<char> {
    (if durable(write.mark) {
        "The mark was not saved: "@
    } else {
        "The mark was not cleared: "@
    }) + reason
}

/// The store refused the mark: the panel shows again what the store still holds, and the reason
/// is said.
pub open spec fn mark_undone(a: AppModel, write: MarkModel, reason: Seq<char>) -> AppModel {
    let b = AppModel { pending_marks: less(a.pending_marks), ..a }.say(
        refused_words(write, reason),
    );
    if write.panel < b.commander.panels.len() {
        b.with_panel(
            write.panel as int,
            unmarked(b.commander.panels[write.panel as int], write),
        )
    } else {
        b
    }
}

fn unmark(panel: &mut Panel, write: &MarkWrite)
    ensures
        final(panel)@ == unmarked(old(panel)@, write@),
{
    set_mark(panel, &write.path, write.previous);
    panel.list.select(write.row);
}

fn refusal_text(write: &MarkWrite, reason: &str) -> (r: String)
    ensures
        r@ == refused_words(write@, reason@),
{
    let mut status = if is_durable(write.mark) {
        "The mark was not saved: ".to_string()
    } else {
        "The mark was not cleared: ".to_string()
    };
    status.push_str(reason);
    status
}

fn acknowledge(app: &mut App, status: String)
    ensures
        final(app)@ == (AppModel { pending_marks: less(old(app)@.pending_marks), ..old(app)@ }).say(
            status@,
        ),
{
    if app.pending_marks > 0 {
        app.pending_marks = app.pending_marks - 1;
    }
    app.say(status);
}

/// The store refused a mark, or could not be reached: the row and the cursor go back.
pub fn mark_refused(app: &mut App, write: &MarkWrite, reason: &str)
    ensures
        final(app)@ == mark_undone(old(app)@, write@, reason@),
{
    acknowledge(app, refusal_text(write, reason));
    if write.panel < app.commander.panels.len() {
        unmark(app.panel_mut(write.panel), write);
    }
}

// ---------------------------------------------------------------------------------------------
// Laws.
// ---------------------------------------------------------------------------------------------
/// Exactly one durable write is under way at a time: while one is unacknowledged, a mark key says
/// so and changes nothing else, and no key sends a second one.
pub proof fn law_one_write_at_a_time(a: AppModel, mark: Mark)
    requires
        a.valid(),
        a.pending_marks > 0,
    ensures
        cursor_marked(a, mark) == a.say(cursor_marked(a, mark).commander.status),
        cursor_marked(a, mark).outbox == a.outbox,
        mark_toggled(a).outbox == a.outbox,
        mark_toggled(a).pending_marks == a.pending_marks,
{
}

/// A triage selection is never fenced: Space on a bare entry selects it whatever is under way.
pub proof fn law_a_selection_is_not_fenced(a: AppModel, e: EntryModel)
    requires
        a.valid(),
        !a.read_only,
        selectable(a.commander.active_panel()) == Some(e),
        a.commander.active_panel().mark_on(e.path) is None,
    ensures
        mark_toggled(a) == a.with_panel(
            a.commander.active as int,
            marked_on(a.commander.active_panel(), e.path, Some(Mark::Selected)),
        ),
{
}

/// An observer sets no mark: neither key changes anything but the status.
pub proof fn law_an_observer_marks_nothing(a: AppModel, mark: Mark)
    requires
        a.read_only,
    ensures
        cursor_marked(a, mark) == a.refuse_observer("marking files"@),
        mark_toggled(a) == a.refuse_observer("marking files"@),
{
}

/// A refused mark leaves no trace on the panel it was set on: its marks and its cursor are what
/// they were.
pub proof fn law_a_refused_mark_is_taken_back(
    p: PanelModel,
    panel: usize,
    e: EntryModel,
    mark: Option<Mark>,
)
    ensures
        ({
            let write = mark_write(panel, e, mark, p.mark_on(e.path), p.list.selected);
            let after = unmarked(marked_on(p, e.path, mark), write);
            &&& after.marks == p.marks
            &&& after.list.selected == p.list.selected
            &&& after.entries == p.entries
        }),
{
    let write = mark_write(panel, e, mark, p.mark_on(e.path), p.list.selected);
    let after = unmarked(marked_on(p, e.path, mark), write);
    assert(after.marks =~= p.marks);
}

/// Insert twice on an entry leaves its mark as it was, whatever it was.
pub proof fn law_insert_twice_restores_the_mark(p: PanelModel, row: int)
    requires
        selectable(p) is Some,
        p.list.selected == Some(row as usize),
        0 <= row < p.entries.len() <= usize::MAX,
    ensures
        ({
            let once = select_toggled(p);
            let back = PanelModel { list: p.list, ..once };
            select_toggled(back).marks == p.marks
        }),
{
    let once = select_toggled(p);
    let back = PanelModel { list: p.list, ..once };
    assert(back.selected() == p.selected());
    assert(select_toggled(back).marks =~= p.marks);
}

} // verus!
