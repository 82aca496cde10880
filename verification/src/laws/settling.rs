//! After a move and after its undo: what is read again, measured again and told.

use vstd::prelude::*;

use crate::app::{AppModel, DedupModel, EffectModel};
use crate::entries::{EntryKind, EntryModel};
use crate::moves::OutcomeModel;
use crate::panels::PanelModel;
use crate::path::PathView;
use crate::state::LoadTarget;

verus! {

/// What was sent stays sent, and the status, the log and the panels' directories and marks stay.
pub open spec fn carries_on(a: AppModel, b: AppModel) -> bool {
    &&& a.outbox.len() <= b.outbox.len()
    &&& forall|k: int|
        0 <= k < a.outbox.len() ==> (#[trigger] b.outbox[k]) == a.outbox[k]
    &&& b.commander.status == a.commander.status
    &&& b.commander.move_log == a.commander.move_log
    &&& b.commander.panels.len() == a.commander.panels.len()
    &&& forall|i: int|
        0 <= i < a.commander.panels.len() ==> (#[trigger] b.commander.panels[i]).cwd
            == a.commander.panels[i].cwd && b.commander.panels[i].marks
            == a.commander.panels[i].marks && b.commander.panels[i].entries
            == a.commander.panels[i].entries
}

/// From `from` on, a panel's directory was asked for.
pub open spec fn asked_for(b: AppModel, from: int, index: int, dir: PathView) -> bool {
    exists|k: int|
        from <= k < b.outbox.len() && #[trigger] reads(b.outbox[k], index, dir)
}

/// An effect that reads a panel's directory.
pub open spec fn reads(effect: EffectModel, index: int, dir: PathView) -> bool {
    effect matches EffectModel::LoadPanel(r) && r.target == LoadTarget::Commander(index as usize)
        && r.dir == dir
}

proof fn lemma_reloaded(a: AppModel, target: LoadTarget, keep: Option<PathView>)
    requires
        a.commander.panels.len() <= usize::MAX,
    ensures
        carries_on(a, crate::navigate::reloaded(a, target, keep)),
        target matches LoadTarget::Commander(i) ==> i < a.commander.panels.len() ==> asked_for(
            crate::navigate::reloaded(a, target, keep),
            a.outbox.len() as int,
            i as int,
            a.commander.panels[i as int].cwd,
        ),
{
    let b = crate::navigate::reloaded(a, target, keep);
    if let LoadTarget::Commander(i) = target {
        if i < a.commander.panels.len() {
            assert(reads(
                b.outbox[a.outbox.len() as int],
                i as int,
                a.commander.panels[i as int].cwd,
            ));
        }
    }
}

proof fn lemma_carried(a: AppModel, b: AppModel, c: AppModel, from: int, index: int, dir: PathView)
    requires
        0 <= from,
        carries_on(a, b),
        carries_on(b, c),
    ensures
        carries_on(a, c),
        asked_for(b, from, index, dir) ==> asked_for(c, from, index, dir),
{
    assert forall|k: int| 0 <= k < a.outbox.len() implies (#[trigger] c.outbox[k])
        == a.outbox[k] by {
        assert(b.outbox[k] == a.outbox[k]);
    }
    assert forall|i: int| 0 <= i < a.commander.panels.len() implies (
    #[trigger] c.commander.panels[i]).cwd == a.commander.panels[i].cwd
        && c.commander.panels[i].marks == a.commander.panels[i].marks
        && c.commander.panels[i].entries == a.commander.panels[i].entries by {
        assert(b.commander.panels[i].cwd == a.commander.panels[i].cwd);
    }
    if asked_for(b, from, index, dir) {
        let k = choose|k: int|
            from <= k < b.outbox.len() && #[trigger] reads(b.outbox[k], index, dir);
        assert(c.outbox[k] == b.outbox[k]);
        assert(reads(c.outbox[k], index, dir));
    }
}

proof fn lemma_all_reloaded(a: AppModel, reload: Seq<(LoadTarget, Option<PathView>)>, index: int)
    requires
        a.commander.panels.len() <= usize::MAX,
        0 <= index < a.commander.panels.len(),
    ensures
        carries_on(a, crate::moves::all_reloaded(a, reload)),
        crate::moves::asked_targets(reload).contains(LoadTarget::Commander(index as usize))
            ==> asked_for(
            crate::moves::all_reloaded(a, reload),
            a.outbox.len() as int,
            index,
            a.commander.panels[index].cwd,
        ),
    decreases reload.len(),
{
    let targets = crate::moves::asked_targets(reload);
    let here = LoadTarget::Commander(index as usize);
    if reload.len() > 0 {
        let inner = reload.drop_last();
        lemma_all_reloaded(a, inner, index);
        let b = crate::moves::all_reloaded(a, inner);
        let c = crate::moves::all_reloaded(a, reload);
        lemma_reloaded(b, reload.last().0, reload.last().1);
        let dir = a.commander.panels[index].cwd;
        lemma_carried(a, b, c, a.outbox.len() as int, index, dir);
        if targets.contains(here) {
            let k = choose|k: int| 0 <= k < targets.len() && targets[k] == here;
            if k < inner.len() {
                assert(crate::moves::asked_targets(inner)[k] == here);
            } else {
                assert(b.commander.panels[index].cwd == dir);
                lemma_later(c, b.outbox.len() as int, a.outbox.len() as int, index, dir);
            }
        }
    }
}

proof fn lemma_later(b: AppModel, from: int, earlier: int, index: int, dir: PathView)
    requires
        earlier <= from,
        asked_for(b, from, index, dir),
    ensures
        asked_for(b, earlier, index, dir),
{
    let k = choose|k: int| from <= k < b.outbox.len() && #[trigger] reads(b.outbox[k], index, dir);
    assert(reads(b.outbox[k], index, dir));
}

proof fn lemma_others_reloaded(
    a: AppModel,
    targets: Seq<LoadTarget>,
    already: Seq<LoadTarget>,
    index: int,
)
    requires
        a.commander.panels.len() <= usize::MAX,
        0 <= index < a.commander.panels.len(),
    ensures
        carries_on(a, crate::moves::others_reloaded(a, targets, already)),
        targets.contains(LoadTarget::Commander(index as usize)) && !already.contains(
            LoadTarget::Commander(index as usize),
        ) ==> asked_for(
            crate::moves::others_reloaded(a, targets, already),
            a.outbox.len() as int,
            index,
            a.commander.panels[index].cwd,
        ),
    decreases targets.len(),
{
    let here = LoadTarget::Commander(index as usize);
    if targets.len() > 0 {
        let inner = targets.drop_last();
        lemma_others_reloaded(a, inner, already, index);
        let b = crate::moves::others_reloaded(a, inner, already);
        let c = crate::moves::others_reloaded(a, targets, already);
        let dir = a.commander.panels[index].cwd;
        lemma_reloaded(b, targets.last(), None);
        lemma_carried(a, b, c, a.outbox.len() as int, index, dir);
        if targets.contains(here) && !already.contains(here) {
            let k = choose|k: int| 0 <= k < targets.len() && targets[k] == here;
            if k < inner.len() {
                assert(inner[k] == here);
            } else {
                assert(b.commander.panels[index].cwd == dir);
                lemma_later(c, b.outbox.len() as int, a.outbox.len() as int, index, dir);
            }
        }
    }
}

proof fn lemma_all_enqueued(a: AppModel, dirs: Seq<PathView>)
    ensures
        carries_on(a, crate::sizes::all_enqueued(a, dirs)),
    decreases dirs.len(),
{
    if dirs.len() > 0 {
        lemma_all_enqueued(a, dirs.drop_last());
        let b = crate::sizes::all_enqueued(a, dirs.drop_last());
        let c = crate::sizes::all_enqueued(a, dirs);
        assert(carries_on(b, c));
        lemma_carried(a, b, c, 0, 0, a.db_path);
    }
}

/// The panel was asked for by the move itself, or it shows a directory that an item left or came
/// into.
pub open spec fn concerned(c: crate::app::CommanderModel, o: OutcomeModel, index: int) -> bool {
    ||| exists|k: int|
        0 <= k < o.reload.len() && (#[trigger] o.reload[k]).0 == LoadTarget::Commander(
            index as usize,
        )
    ||| exists|k: int|
        0 <= k < o.moved.len() && (((#[trigger] o.moved[k]).0.parent() matches Some(from)
            && from.key() == c.panels[index].cwd.key()) || (o.moved[k].1.parent() matches Some(to)
            && to.key() == c.panels[index].cwd.key()))
}

/// When a move has ended, what landed is logged for the undo, what is to be hashed is hashed, every
/// panel that it concerns is read again, the status tells the outcome, and no panel changes its
/// directory or its marks.
pub proof fn law_an_ended_move_is_settled(
    a: AppModel,
    o: OutcomeModel,
    dedup: DedupModel,
    index: int,
)
    requires
        a.commander.panels.len() <= usize::MAX,
        0 <= index < a.commander.panels.len(),
    ensures
        ({
            let b = crate::moves::move_applied(a, o, dedup);
            let from = a.outbox.len() as int;
            &&& o.moved.len() > 0 ==> b.commander.move_log == a.commander.move_log.push(o.moved)
            &&& o.moved.len() == 0 ==> b.commander.move_log == a.commander.move_log
            &&& b.commander.status == crate::moves::move_status(o)
            &&& o.to_hash.len() > 0 ==> b.outbox.len() > from && b.outbox[from]
                == EffectModel::HashBatch(o.to_hash)
            &&& concerned(a.commander, o, index) ==> asked_for(
                b,
                from,
                index,
                a.commander.panels[index].cwd,
            )
            &&& b.commander.panels[index].cwd == a.commander.panels[index].cwd
            &&& b.commander.panels[index].marks == a.commander.panels[index].marks
        }),
{
    let from = a.outbox.len() as int;
    let dir = a.commander.panels[index].cwd;
    let booked = crate::moves::move_booked(a, o, dedup);
    let hashing = if o.to_hash.len() > 0 {
        booked.send(EffectModel::HashBatch(o.to_hash))
    } else {
        booked
    };
    let told = hashing.say(crate::moves::move_status(o));
    let asked = crate::moves::all_reloaded(told, o.reload);
    let targets = crate::moves::touched_targets(asked.commander, o.moved);
    let already = crate::moves::asked_targets(o.reload);
    let others = crate::moves::others_reloaded(asked, targets, already);
    let stale = crate::sizes::stale_dirs(
        others.commander,
        crate::moves::affected_paths(o.moved),
    );
    let b = crate::sizes::all_enqueued(others, stale);
    let here = LoadTarget::Commander(index as usize);
    assert(told.commander.panels == a.commander.panels);
    lemma_all_reloaded(told, o.reload, index);
    lemma_others_reloaded(asked, targets, already, index);
    lemma_all_enqueued(others, stale);
    lemma_carried(told, asked, others, told.outbox.len() as int, index, dir);
    lemma_carried(told, others, b, told.outbox.len() as int, index, dir);
    assert(asked.commander.panels[index].cwd == dir);
    if o.to_hash.len() > 0 {
        assert(told.outbox[from] == EffectModel::HashBatch(o.to_hash));
        assert(b.outbox[from] == told.outbox[from]);
    }
    if concerned(a.commander, o, index) {
        if already.contains(here) {
            lemma_later(b, told.outbox.len() as int, from, index, dir);
        } else {
            assert forall|k: int| 0 <= k < o.reload.len() implies (#[trigger] o.reload[k]).0
                != here by {
                if o.reload[k].0 == here {
                    assert(already[k] == here);
                }
            }
            crate::laws::working::law_the_touched_panels_are_read_again(
                asked.commander.panels,
                o.moved,
                asked.commander.panels.len() as int,
                index,
            );
            assert(asked.commander.panels[index].cwd.key() == dir.key());
            let last = crate::moves::touched_upto(
                asked.commander.panels,
                o.moved,
                asked.commander.panels.len() as int,
                false,
            );
            assert(last.contains(here)) by {
                let k = choose|k: int|
                    0 <= k < o.moved.len() && (((#[trigger] o.moved[k]).0.parent() matches Some(f)
                        && f.key() == dir.key()) || (o.moved[k].1.parent() matches Some(t)
                        && t.key() == dir.key()));
                assert(o.moved[k] == o.moved[k]);
            }
            let j = choose|j: int| 0 <= j < last.len() && last[j] == here;
            let first = targets.len() - last.len();
            assert(targets[first + j] == here);
            lemma_carried(asked, others, b, asked.outbox.len() as int, index, dir);
            lemma_later(b, asked.outbox.len() as int, from, index, dir);
        }
    }
}

proof fn lemma_panels_reloaded(a: AppModel, count: int, index: int)
    requires
        0 <= count <= a.commander.panels.len() <= usize::MAX,
        0 <= index < a.commander.panels.len(),
    ensures
        carries_on(a, crate::moves::panels_reloaded(a, count)),
        index < count ==> asked_for(
            crate::moves::panels_reloaded(a, count),
            a.outbox.len() as int,
            index,
            a.commander.panels[index].cwd,
        ),
    decreases count,
{
    if count > 0 {
        lemma_panels_reloaded(a, count - 1, index);
        let b = crate::moves::panels_reloaded(a, count - 1);
        let c = crate::moves::panels_reloaded(a, count);
        let dir = a.commander.panels[index].cwd;
        lemma_reloaded(b, LoadTarget::Commander((count - 1) as usize), None);
        lemma_carried(a, b, c, a.outbox.len() as int, index, dir);
        if index == count - 1 {
            assert(b.commander.panels[index].cwd == dir);
            lemma_later(c, b.outbox.len() as int, a.outbox.len() as int, index, dir);
        }
    }
}

/// When an undo has ended every panel is read again, the status tells how many items came back, and
/// no size of a directory above a restored path is believed.
pub proof fn law_an_ended_undo_is_settled(
    a: AppModel,
    items: Seq<(PathView, PathView)>,
    failed: usize,
    index: int,
)
    requires
        failed <= items.len(),
        a.commander.panels.len() <= usize::MAX,
        0 <= index < a.commander.panels.len(),
    ensures
        ({
            let b = crate::moves::undo_finished(a, items, failed);
            &&& asked_for(b, a.outbox.len() as int, index, a.commander.panels[index].cwd)
            &&& b.commander.status == crate::moves::undo_status(
                (items.len() - failed) as nat,
                failed as nat,
            )
            &&& b.commander.move_log == a.commander.move_log
            &&& b.commander.panels[index].marks == a.commander.panels[index].marks
        }),
{
    let told = crate::sizes::sizes_forgotten(
        a.say(crate::moves::undo_status((items.len() - failed) as nat, failed as nat)),
        crate::moves::affected_paths(items),
    );
    assert(told.commander.panels == a.commander.panels);
    lemma_panels_reloaded(told, a.commander.panels.len() as int, index);
}

// ---------------------------------------------------------------------------------------------
// Sizes after a move.
// ---------------------------------------------------------------------------------------------
proof fn lemma_touched_dirs(
    entries: Seq<EntryModel>,
    affected: Seq<PathView>,
    out: Seq<PathView>,
    key: crate::path::PathKey,
)
    ensures
        crate::path::keys_of(crate::sizes::touched_dirs(entries, affected, out)).contains(key)
            <==> crate::path::keys_of(out).contains(key) || exists|i: int|
            0 <= i < entries.len() && (#[trigger] entries[i]).kind == EntryKind::Dir
                && entries[i].path.key() == key && crate::sizes::touches(affected, entries[i].path),
    decreases entries.len(),
{
    if entries.len() > 0 {
        let inner = entries.drop_last();
        let e = entries.last();
        lemma_touched_dirs(inner, affected, out, key);
        let before = crate::sizes::touched_dirs(inner, affected, out);
        let all = crate::sizes::touched_dirs(entries, affected, out);
        let before_keys = crate::path::keys_of(before);
        let all_keys = crate::path::keys_of(all);
        assert(entries[entries.len() - 1] == e);
        if before_keys.contains(key) {
            let k = choose|k: int| 0 <= k < before_keys.len() && before_keys[k] == key;
            assert(all_keys[k] == key);
        }
        if all != before {
            assert(all == before.push(e.path));
            assert(all_keys[before.len() as int] == e.path.key());
            if all_keys.contains(key) {
                let k = choose|k: int| 0 <= k < all_keys.len() && all_keys[k] == key;
                if k < before.len() {
                    assert(before_keys[k] == key);
                }
            }
        }
        if exists|i: int|
            0 <= i < entries.len() && (#[trigger] entries[i]).kind == EntryKind::Dir
                && entries[i].path.key() == key && crate::sizes::touches(
                affected,
                entries[i].path,
            ) {
            let i = choose|i: int|
                0 <= i < entries.len() && (#[trigger] entries[i]).kind == EntryKind::Dir
                    && entries[i].path.key() == key && crate::sizes::touches(
                    affected,
                    entries[i].path,
                );
            if i < inner.len() {
                assert(inner[i] == entries[i]);
            }
        }
        if exists|i: int|
            0 <= i < inner.len() && (#[trigger] inner[i]).kind == EntryKind::Dir
                && inner[i].path.key() == key && crate::sizes::touches(affected, inner[i].path) {
            let i = choose|i: int|
                0 <= i < inner.len() && (#[trigger] inner[i]).kind == EntryKind::Dir
                    && inner[i].path.key() == key && crate::sizes::touches(
                    affected,
                    inner[i].path,
                );
            assert(entries[i] == inner[i]);
        }
    }
}

/// A directory that a panel shows is measured again exactly where a path that moved is it or lies
/// below it, and no other directory is.
pub proof fn law_the_touched_directories_are_measured_again(
    panels: Seq<PanelModel>,
    affected: Seq<PathView>,
    key: crate::path::PathKey,
)
    ensures
        crate::path::keys_of(
            crate::sizes::touched_in(panels, affected, Seq::empty()),
        ).contains(key) <==> exists|p: int, i: int|
            0 <= p < panels.len() && 0 <= i < panels[p].entries.len()
                && (#[trigger] panels[p].entries[i]).kind == EntryKind::Dir
                && panels[p].entries[i].path.key() == key && exists|k: int|
                0 <= k < affected.len() && (#[trigger] affected[k]).starts_with(
                    panels[p].entries[i].path,
                ),
    decreases panels.len(),
{
    let none = Seq::<PathView>::empty();
    if panels.len() > 0 {
        let inner = panels.drop_last();
        law_the_touched_directories_are_measured_again(inner, affected, key);
        let before = crate::sizes::touched_in(inner, affected, none);
        let last = panels.last();
        lemma_touched_dirs(last.entries, affected, before, key);
        assert(panels[panels.len() - 1] == last);
        if crate::path::keys_of(before).contains(key) {
            let (p, i) = choose|p: int, i: int|
                0 <= p < inner.len() && 0 <= i < inner[p].entries.len()
                    && (#[trigger] inner[p].entries[i]).kind == EntryKind::Dir
                    && inner[p].entries[i].path.key() == key && exists|k: int|
                    0 <= k < affected.len() && (#[trigger] affected[k]).starts_with(
                        inner[p].entries[i].path,
                    );
            assert(panels[p] == inner[p]);
            assert(panels[p].entries[i].kind == EntryKind::Dir);
        }
        if exists|i: int|
            0 <= i < last.entries.len() && (#[trigger] last.entries[i]).kind == EntryKind::Dir
                && last.entries[i].path.key() == key && crate::sizes::touches(
                affected,
                last.entries[i].path,
            ) {
            let i = choose|i: int|
                0 <= i < last.entries.len() && (#[trigger] last.entries[i]).kind == EntryKind::Dir
                    && last.entries[i].path.key() == key && crate::sizes::touches(
                    affected,
                    last.entries[i].path,
                );
            assert(panels[panels.len() - 1].entries[i].kind == EntryKind::Dir);
        }
        if exists|p: int, i: int|
            0 <= p < panels.len() && 0 <= i < panels[p].entries.len()
                && (#[trigger] panels[p].entries[i]).kind == EntryKind::Dir
                && panels[p].entries[i].path.key() == key && exists|k: int|
                0 <= k < affected.len() && (#[trigger] affected[k]).starts_with(
                    panels[p].entries[i].path,
                ) {
            let (p, i) = choose|p: int, i: int|
                0 <= p < panels.len() && 0 <= i < panels[p].entries.len()
                    && (#[trigger] panels[p].entries[i]).kind == EntryKind::Dir
                    && panels[p].entries[i].path.key() == key && exists|k: int|
                    0 <= k < affected.len() && (#[trigger] affected[k]).starts_with(
                        panels[p].entries[i].path,
                    );
            if p < inner.len() {
                assert(inner[p] == panels[p]);
                assert(inner[p].entries[i].kind == EntryKind::Dir);
            } else {
                assert(crate::sizes::touches(affected, last.entries[i].path));
            }
        }
    } else {
        assert(crate::path::keys_of(none) =~= Seq::empty());
    }
}

/// Every panel is looked through: the Board's five, where there is one, and the commander's.
pub proof fn law_every_panel_is_looked_through(
    c: crate::app::CommanderModel,
    board: crate::state::BoardModel,
    i: int,
)
    ensures
        0 <= i < c.panels.len() ==> crate::sizes::all_panels(c).contains(c.panels[i]),
        c.board == Some(board) ==> crate::sizes::all_panels(c).contains(board.source),
        c.board == Some(board) && 0 <= i < board.receivers.len() ==> crate::sizes::all_panels(
            c,
        ).contains(board.receivers[i]),
{
    let all = crate::sizes::all_panels(c);
    let n = all.len() - c.panels.len();
    if 0 <= i < c.panels.len() {
        assert(all[n + i] == c.panels[i]);
    }
    if c.board == Some(board) {
        assert(all[0] == board.source);
        if 0 <= i < board.receivers.len() {
            assert(all[1 + i] == board.receivers[i]);
        }
    }
}

/// A directory is measured once at a time, its old size forgotten meanwhile, and a pseudo file
/// system never.
pub proof fn law_a_directory_is_measured_once_at_a_time(a: AppModel, dir: PathView)
    ensures
        ({
            let b = crate::sizes::enqueued(a, dir);
            let asked = !crate::sizes::pseudo(dir) && !a.commander.dir_size_pending.dom().contains(
                dir.key(),
            );
            &&& asked ==> b.outbox == a.outbox.push(EffectModel::SizeDir(dir))
                && b.commander.dir_size_pending.dom().contains(dir.key())
                && !b.commander.dir_size_cache.dom().contains(dir.key())
            &&& !asked ==> b == a
        }),
{
}

} // verus!
