//! Marks: what a key sets, what the store is asked to keep, what a plan is asked for.

use vstd::prelude::*;

use crate::app::{AppModel, EffectModel, MarkIntent};
use crate::entries::{EntryKind, Mark};
use crate::model::ActionKind;
use crate::panels::PanelModel;
use crate::path::PathKey;

verus! {

/// A mark stands for one action, the one it is named after; a selection and a keeper for none.
pub proof fn law_a_mark_stands_for_its_action(mark: Mark)
    ensures
        crate::entries::mark_action(mark) == Some(ActionKind::Hardlink) <==> mark == Mark::Hardlink,
        crate::entries::mark_action(mark) == Some(ActionKind::Reflink) <==> mark == Mark::Reflink,
        crate::entries::mark_action(mark) == Some(ActionKind::Delete) <==> mark == Mark::Delete,
        crate::entries::mark_action(mark) is None <==> mark == Mark::Selected || mark
            == Mark::Keeper,
{
}

/// Marks are told apart by their glyphs: `*` for a selection, and the initial of each of the
/// others, a clone for a reflink.
pub proof fn law_a_glyph_names_its_mark(mark: Mark)
    ensures
        crate::entries::mark_glyph(mark) == '*' <==> mark == Mark::Selected,
        crate::entries::mark_glyph(mark) == 'K' <==> mark == Mark::Keeper,
        crate::entries::mark_glyph(mark) == 'D' <==> mark == Mark::Delete,
        crate::entries::mark_glyph(mark) == 'H' <==> mark == Mark::Hardlink,
        crate::entries::mark_glyph(mark) == 'C' <==> mark == Mark::Reflink,
{
}

/// Whatever key leads to a write, the store is asked for what the mark says, on the file that was
/// under the cursor: an action exactly where the mark is one, a keeper exactly where it is that,
/// and neither where the mark is cleared. What stood before and where the cursor was go along.
pub proof fn law_a_write_says_what_the_mark_says(
    panel: usize,
    e: crate::entries::EntryModel,
    mark: Option<Mark>,
    previous: Option<Mark>,
    row: Option<usize>,
)
    ensures
        ({
            let w = crate::marks::mark_write(panel, e, mark, previous, row);
            &&& w.action == Some(ActionKind::Hardlink) <==> mark == Some(Mark::Hardlink)
            &&& w.action == Some(ActionKind::Reflink) <==> mark == Some(Mark::Reflink)
            &&& w.action == Some(ActionKind::Delete) <==> mark == Some(Mark::Delete)
            &&& w.is_keeper <==> mark == Some(Mark::Keeper)
            &&& w.mark == mark && w.previous == previous && w.row == row && w.panel == panel
            &&& w.path == e.path && w.size == e.size && w.mtime == e.mtime
            &&& w.device == e.device && w.inode == e.inode
        }),
{
}

/// A mark key with a scan loaded on a file: the file carries that mark and no other file's mark
/// changes, and the store is asked, once, to keep exactly that mark on exactly that file.
pub proof fn law_a_mark_key_marks_and_saves(a: AppModel, mark: Mark, at: int)
    requires
        a.valid(),
        !a.read_only,
        mark != Mark::Selected,
        mark == Mark::Reflink ==> a.reflink_safe,
        a.pending_marks == 0,
        a.commander.dedup_scan_id is Some,
        0 <= at < a.commander.panels[a.commander.active as int].entries.len() <= usize::MAX,
        a.commander.panels[a.commander.active as int].list.selected == Some(at as usize),
        a.commander.panels[a.commander.active as int].entries[at].kind == EntryKind::File,
    ensures
        ({
            let i = a.commander.active as int;
            let p = a.commander.panels[i];
            let e = p.entries[at];
            let b = crate::marks::cursor_marked(a, mark);
            &&& b.commander.panels.len() == a.commander.panels.len()
            &&& forall|j: int|
                0 <= j < a.commander.panels.len() && j != i ==> #[trigger] b.commander.panels[j]
                    == a.commander.panels[j]
            &&& b.commander.panels[i].marks == p.marks.insert(e.path.key(), mark)
            &&& b.commander.panels[i].entries == p.entries && b.commander.panels[i].cwd == p.cwd
            &&& b.commander.panels[i].list.selected == Some(
                (if at + 1 < p.entries.len() {
                    at + 1
                } else {
                    at
                }) as usize,
            )
            &&& b.pending_marks == 1
            &&& b.outbox.len() == a.outbox.len() + 1
            &&& b.outbox.drop_last() == a.outbox
            &&& b.outbox.last() matches EffectModel::SaveMark(w) && {
                &&& w.path == e.path && w.size == e.size && w.mtime == e.mtime
                &&& w.device == e.device && w.inode == e.inode
                &&& w.action == Some(ActionKind::Hardlink) <==> mark == Mark::Hardlink
                &&& w.action == Some(ActionKind::Reflink) <==> mark == Mark::Reflink
                &&& w.action == Some(ActionKind::Delete) <==> mark == Mark::Delete
                &&& w.is_keeper <==> mark == Mark::Keeper
                &&& w.previous == p.mark_on(e.path) && w.mark == Some(mark)
                &&& w.panel == i && w.row == Some(at as usize)
            }
        }),
{
    let b = crate::marks::cursor_marked(a, mark);
    assert(b.outbox.drop_last() =~= a.outbox);
}

/// Without a scan no mark is set and none is sent: a mark that nothing stands behind is not shown.
pub proof fn law_no_scan_no_mark(a: AppModel, mark: Mark)
    requires
        mark != Mark::Selected,
        a.commander.dedup_scan_id is None,
    ensures
        crate::marks::cursor_marked(a, mark).commander.panels == a.commander.panels,
        crate::marks::cursor_marked(a, mark).outbox == a.outbox,
        crate::marks::cursor_marked(a, mark).pending_marks == a.pending_marks,
{
}

/// A mark is for files: with the cursor on anything else, or nowhere, a mark key marks nothing and
/// sends nothing. A reflink is for pools that clone safely: elsewhere it is not set.
pub proof fn law_only_files_are_marked(a: AppModel, mark: Mark)
    requires
        a.valid(),
        (a.commander.active_panel().selected() matches Some(e) ==> e.kind != EntryKind::File) || (
        mark == Mark::Reflink && !a.reflink_safe),
    ensures
        crate::marks::cursor_marked(a, mark).commander.panels == a.commander.panels,
        crate::marks::cursor_marked(a, mark).outbox == a.outbox,
        crate::marks::cursor_marked(a, mark).pending_marks == a.pending_marks,
{
}

/// Space takes off whatever mark stands, and selects where none does, a file and a directory
/// alike. The store is told exactly where it held the mark, and told that there is none.
pub proof fn law_space_clears_or_selects(a: AppModel, at: int)
    requires
        a.valid(),
        !a.read_only,
        a.pending_marks == 0,
        0 <= at < a.commander.panels[a.commander.active as int].entries.len() <= usize::MAX,
        a.commander.panels[a.commander.active as int].list.selected == Some(at as usize),
        a.commander.panels[a.commander.active as int].entries[at].kind != EntryKind::Parent,
    ensures
        ({
            let i = a.commander.active as int;
            let p = a.commander.panels[i];
            let e = p.entries[at];
            let k = e.path.key();
            let b = crate::marks::mark_toggled(a);
            let held = p.marks.dom().contains(k) && p.marks[k] != Mark::Selected;
            &&& p.marks.dom().contains(k) ==> b.commander.panels[i].marks == p.marks.remove(k)
            &&& !p.marks.dom().contains(k) ==> b.commander.panels[i].marks == p.marks.insert(
                k,
                Mark::Selected,
            )
            &&& !held || a.commander.dedup_scan_id is None ==> b.outbox == a.outbox
                && b.pending_marks == 0
            &&& held && a.commander.dedup_scan_id is Some ==> b.outbox.len() == a.outbox.len() + 1
                && b.outbox.drop_last() == a.outbox && b.pending_marks == 1 && (
            b.outbox.last() matches EffectModel::SaveMark(w) && w.path == e.path && w.action is None
                && !w.is_keeper && w.mark is None && w.previous == Some(p.marks[k]))
        }),
{
    let b = crate::marks::mark_toggled(a);
    if b.outbox.len() > a.outbox.len() {
        assert(b.outbox.drop_last() =~= a.outbox);
    }
}

/// Insert selects and deselects and touches no mark that the store keeps, and steps down.
pub proof fn law_insert_touches_no_kept_mark(p: PanelModel, key: PathKey)
    ensures
        ({
            let q = crate::marks::select_toggled(p);
            &&& p.marks.dom().contains(key) && p.marks[key] != Mark::Selected
                ==> q.marks.dom().contains(key) && q.marks[key] == p.marks[key]
            &&& q.marks.dom().contains(key) && !p.marks.dom().contains(key) ==> q.marks[key]
                == Mark::Selected
            &&& q.entries == p.entries && q.cwd == p.cwd
        }),
{
}

/// On an entry that carries no mark Insert selects it, on a selected one it drops the selection,
/// and no other entry changes.
pub proof fn law_insert_selects_the_row(p: PanelModel, at: int)
    requires
        0 <= at < p.entries.len() <= usize::MAX,
        p.list.selected == Some(at as usize),
        p.entries[at].kind != EntryKind::Parent,
    ensures
        ({
            let k = p.entries[at].path.key();
            let q = crate::marks::select_toggled(p);
            &&& !p.marks.dom().contains(k) ==> q.marks == p.marks.insert(k, Mark::Selected)
            &&& p.marks.dom().contains(k) && p.marks[k] == Mark::Selected ==> q.marks
                == p.marks.remove(k)
            &&& p.marks.dom().contains(k) && p.marks[k] != Mark::Selected ==> q.marks == p.marks
            &&& q.list.selected == Some(
                (if at + 1 < p.entries.len() {
                    at + 1
                } else {
                    at
                }) as usize,
            )
        }),
{
}

/// The store's yes frees the way for the next mark and leaves the panels as they are; what the
/// status says was saved is what the mark is.
pub proof fn law_a_saved_mark_is_named(a: AppModel, write: crate::app::MarkModel)
    ensures
        ({
            let b = crate::marks::mark_acknowledged(a, write);
            let said = |meaning: Seq<char>|
                b.commander.status == "Mark saved: "@ + meaning + " — "@ + crate::text::escaped(
                    crate::text::lossy_text(write.path.text),
                );
            &&& b.commander.panels == a.commander.panels && b.outbox == a.outbox
            &&& a.pending_marks > 0 ==> b.pending_marks == a.pending_marks - 1
            &&& write.mark == Some(Mark::Keeper) ==> said("keeper"@)
            &&& write.mark == Some(Mark::Delete) ==> said("delete"@)
            &&& write.mark == Some(Mark::Hardlink) ==> said("hardlink"@)
            &&& write.mark == Some(Mark::Reflink) ==> said("reflink"@)
            &&& write.mark is None ==> said("cleared"@)
        }),
{
}

/// The store's no puts back what stood, on the panel and the row that the mark was set on, frees
/// the way for the next mark, and touches no other panel.
pub proof fn law_a_refused_mark_goes_back(
    a: AppModel,
    write: crate::app::MarkModel,
    reason: Seq<char>,
)
    requires
        write.panel < a.commander.panels.len(),
    ensures
        ({
            let b = crate::marks::mark_undone(a, write, reason);
            let p = a.commander.panels[write.panel as int];
            let q = b.commander.panels[write.panel as int];
            let k = write.path.key();
            &&& a.pending_marks > 0 ==> b.pending_marks == a.pending_marks - 1
            &&& b.outbox == a.outbox && b.commander.panels.len() == a.commander.panels.len()
            &&& write.previous matches Some(m) ==> q.marks == p.marks.insert(k, m)
            &&& write.previous is None ==> q.marks == p.marks.remove(k)
            &&& q.list.selected == write.row && q.entries == p.entries
            &&& forall|j: int|
                0 <= j < a.commander.panels.len() && j != write.panel ==> (
                #[trigger] b.commander.panels[j]) == a.commander.panels[j]
        }),
{
}

// ---------------------------------------------------------------------------------------------
// The plan.
// ---------------------------------------------------------------------------------------------
proof fn lemma_named(requests: Seq<(PathKey, MarkIntent)>, path: PathKey, intent: MarkIntent)
    ensures
        requests.contains((path, intent)) <==> crate::actions::naming(requests, path).contains(
            (path, intent),
        ),
    decreases requests.len(),
{
    let named = crate::actions::naming(requests, path);
    let request = (path, intent);
    if requests.len() > 0 {
        let front = requests.drop_last();
        let before = crate::actions::naming(front, path);
        lemma_named(front, path, intent);
        if requests.contains(request) {
            let i = requests.index_of(request);
            if i < front.len() {
                assert(front[i] == request);
                let k = before.index_of(request);
                assert(named[k] == request);
            } else {
                assert(named.last() == request);
            }
        }
        if named.contains(request) {
            let k = named.index_of(request);
            if k < before.len() {
                assert(before[k] == request);
                let i = front.index_of(request);
                assert(requests[i] == request);
            } else {
                assert(requests.last() == request);
            }
        }
    }
}

proof fn lemma_asked(panels: Seq<PanelModel>, path: PathKey, intent: MarkIntent, mark: Mark)
    requires
        crate::actions::intent_of(mark) == Some(intent),
        forall|other: Mark|
            #[trigger] crate::actions::intent_of(other) == Some(intent) ==> other == mark,
    ensures
        crate::actions::requests_for(panels, path).contains((path, intent)) <==> exists|p: int|
            0 <= p < panels.len() && (#[trigger] panels[p]).marks.contains_pair(path, mark),
    decreases panels.len(),
{
    let asked = crate::actions::requests_for(panels, path);
    let request = (path, intent);
    if panels.len() > 0 {
        let front = panels.drop_last();
        let before = crate::actions::requests_for(front, path);
        let own = crate::actions::panel_request(panels.last().marks, path);
        lemma_asked(front, path, intent, mark);
        assert(asked == before + own);
        if asked.contains(request) {
            let k = asked.index_of(request);
            if k < before.len() {
                assert(before[k] == request);
                let p = choose|p: int|
                    0 <= p < front.len() && (#[trigger] front[p]).marks.contains_pair(path, mark);
                assert(panels[p] == front[p]);
            } else {
                assert(own[k - before.len()] == request);
                assert(panels[panels.len() - 1].marks.contains_pair(path, mark));
            }
        }
        if exists|p: int|
            0 <= p < panels.len() && (#[trigger] panels[p]).marks.contains_pair(path, mark) {
            let p = choose|p: int|
                0 <= p < panels.len() && (#[trigger] panels[p]).marks.contains_pair(path, mark);
            if p < front.len() {
                assert(front[p] == panels[p]);
                let k = before.index_of(request);
                assert(asked[k] == request);
            } else {
                assert(own[0] == request);
                assert(asked[before.len() as int] == request);
            }
        }
    }
}

/// A plan is asked for what the marks say and nothing else: a path is to be hardlinked, cloned,
/// deleted or kept exactly where some panel marks it so, and a selection asks for nothing.
pub proof fn law_a_request_does_what_its_mark_says(
    panels: Seq<PanelModel>,
    requests: Seq<(PathKey, MarkIntent)>,
    path: PathKey,
)
    requires
        crate::actions::submitted(panels, requests),
    ensures
        requests.contains((path, MarkIntent::Act(ActionKind::Reflink))) <==> exists|p: int|
            0 <= p < panels.len() && (#[trigger] panels[p]).marks.contains_pair(
                path,
                Mark::Reflink,
            ),
        requests.contains((path, MarkIntent::Act(ActionKind::Hardlink))) <==> exists|p: int|
            0 <= p < panels.len() && (#[trigger] panels[p]).marks.contains_pair(
                path,
                Mark::Hardlink,
            ),
        requests.contains((path, MarkIntent::Act(ActionKind::Delete))) <==> exists|p: int|
            0 <= p < panels.len() && (#[trigger] panels[p]).marks.contains_pair(path, Mark::Delete),
        requests.contains((path, MarkIntent::Keeper)) <==> exists|p: int|
            0 <= p < panels.len() && (#[trigger] panels[p]).marks.contains_pair(path, Mark::Keeper),
{
    assert(crate::actions::naming(requests, path) == crate::actions::requests_for(panels, path));
    lemma_named(requests, path, MarkIntent::Act(ActionKind::Reflink));
    lemma_named(requests, path, MarkIntent::Act(ActionKind::Hardlink));
    lemma_named(requests, path, MarkIntent::Act(ActionKind::Delete));
    lemma_named(requests, path, MarkIntent::Keeper);
    lemma_asked(panels, path, MarkIntent::Act(ActionKind::Reflink), Mark::Reflink);
    lemma_asked(panels, path, MarkIntent::Act(ActionKind::Hardlink), Mark::Hardlink);
    lemma_asked(panels, path, MarkIntent::Act(ActionKind::Delete), Mark::Delete);
    lemma_asked(panels, path, MarkIntent::Keeper, Mark::Keeper);
}

/// A path marked in several panels is submitted once for each of them.
pub proof fn law_every_panel_submits_its_mark(
    panels: Seq<PanelModel>,
    requests: Seq<(PathKey, MarkIntent)>,
    path: PathKey,
)
    requires
        crate::actions::submitted(panels, requests),
    ensures
        requests.filter(|r: (PathKey, MarkIntent)| r.0 == path).len() == panels.filter(
            |p: PanelModel| p.marks.dom().contains(path) && p.marks[path] != Mark::Selected,
        ).len(),
{
    assert(crate::actions::naming(requests, path) == crate::actions::requests_for(panels, path));
    lemma_naming_is_a_filter(requests, path);
    lemma_requests_are_counted(panels, path);
}

proof fn lemma_naming_is_a_filter(requests: Seq<(PathKey, MarkIntent)>, path: PathKey)
    ensures
        crate::actions::naming(requests, path).len() == requests.filter(
            |r: (PathKey, MarkIntent)| r.0 == path,
        ).len(),
    decreases requests.len(),
{
    reveal(Seq::filter);
    if requests.len() > 0 {
        lemma_naming_is_a_filter(requests.drop_last(), path);
    }
}

proof fn lemma_requests_are_counted(panels: Seq<PanelModel>, path: PathKey)
    ensures
        crate::actions::requests_for(panels, path).len() == panels.filter(
            |p: PanelModel| p.marks.dom().contains(path) && p.marks[path] != Mark::Selected,
        ).len(),
    decreases panels.len(),
{
    reveal(Seq::filter);
    if panels.len() > 0 {
        lemma_requests_are_counted(panels.drop_last(), path);
    }
}

/// F11 with marks set, a scan loaded and nothing in flight asks for one plan, and the plan is
/// asked for what the marks say.
pub proof fn law_f11_asks_for_the_marks(a: AppModel, b: AppModel, path: PathKey, marked: int)
    requires
        crate::actions::execution_prepared(a, b),
        !a.read_only,
        a.pending_marks == 0,
        a.commander.dedup_scan_id is Some,
        0 <= marked < a.commander.panels.len(),
        a.commander.panels[marked].marks.dom().contains(path),
        a.commander.panels[marked].marks[path] != Mark::Selected,
    ensures
        b.outbox.len() == a.outbox.len() + 1,
        b.outbox.drop_last() == a.outbox,
        b.commander.panels == a.commander.panels,
        b.outbox.last() matches EffectModel::BuildPlan(requests) && {
            let mark = a.commander.panels[marked].marks[path];
            &&& mark == Mark::Reflink ==> requests.contains(
                (path, MarkIntent::Act(ActionKind::Reflink)),
            )
            &&& mark == Mark::Hardlink ==> requests.contains(
                (path, MarkIntent::Act(ActionKind::Hardlink)),
            )
            &&& mark == Mark::Delete ==> requests.contains(
                (path, MarkIntent::Act(ActionKind::Delete)),
            )
            &&& mark == Mark::Keeper ==> requests.contains((path, MarkIntent::Keeper))
            &&& forall|i: int|
                0 <= i < requests.len() ==> exists|p: int|
                    0 <= p < a.commander.panels.len() && (
                    #[trigger] a.commander.panels[p]).marks.contains_pair(
                        (#[trigger] requests[i]).0,
                        match requests[i].1 {
                            MarkIntent::Keeper => Mark::Keeper,
                            MarkIntent::Act(ActionKind::Delete) => Mark::Delete,
                            MarkIntent::Act(ActionKind::Hardlink) => Mark::Hardlink,
                            MarkIntent::Act(ActionKind::Reflink) => Mark::Reflink,
                        },
                    )
        },
{
    let requests = choose|requests: Seq<(PathKey, MarkIntent)>|
        #[trigger] crate::actions::submitted(a.commander.panels, requests) && b
            == crate::actions::plan_asked(a, requests);
    law_a_request_does_what_its_mark_says(a.commander.panels, requests, path);
    assert(a.commander.panels[marked].marks.contains_pair(
        path,
        a.commander.panels[marked].marks[path],
    ));
    assert(requests.len() > 0);
    assert(b.outbox.drop_last() =~= a.outbox);
    assert forall|i: int| 0 <= i < requests.len() implies exists|p: int|
        0 <= p < a.commander.panels.len() && (#[trigger] a.commander.panels[p]).marks.contains_pair(
            (#[trigger] requests[i]).0,
            match requests[i].1 {
                MarkIntent::Keeper => Mark::Keeper,
                MarkIntent::Act(ActionKind::Delete) => Mark::Delete,
                MarkIntent::Act(ActionKind::Hardlink) => Mark::Hardlink,
                MarkIntent::Act(ActionKind::Reflink) => Mark::Reflink,
            },
        ) by {
        law_a_request_does_what_its_mark_says(a.commander.panels, requests, requests[i].0);
        assert(requests.contains(requests[i]));
    }
}

/// F11 asks for nothing where nothing is marked for an action or as a keeper, where no scan is
/// loaded, while a mark is on its way, and in an observer's window.
pub proof fn law_f11_without_a_ground_asks_nothing(a: AppModel, b: AppModel)
    requires
        crate::actions::execution_prepared(a, b),
        a.read_only || a.pending_marks > 0 || a.commander.dedup_scan_id is None || forall|
            p: int,
            path: PathKey,
        |
            0 <= p < a.commander.panels.len() && #[trigger] a.commander.panels[p].marks.dom().contains(
                path,
            ) ==> a.commander.panels[p].marks[path] == Mark::Selected,
    ensures
        b.outbox == a.outbox,
        b.commander.panels == a.commander.panels,
{
    let requests = choose|requests: Seq<(PathKey, MarkIntent)>|
        #[trigger] crate::actions::submitted(a.commander.panels, requests) && b
            == crate::actions::plan_asked(a, requests);
    if requests.len() > 0 {
        law_a_request_does_what_its_mark_says(a.commander.panels, requests, requests[0].0);
        assert(requests.contains(requests[0]));
        match requests[0].1 {
            MarkIntent::Keeper => {},
            MarkIntent::Act(kind) => {
                match kind {
                    ActionKind::Delete => {},
                    ActionKind::Hardlink => {},
                    ActionKind::Reflink => {},
                }
            },
        }
    }
}

} // verus!
