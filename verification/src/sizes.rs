//! Directory sizes: measured in the background, forgotten when something moves.

use vstd::prelude::*;

use crate::app::{App, AppModel, CommanderModel, Effect, EffectModel};
use crate::entries::{EntryKind, EntryModel};
use crate::panels::{Panel, PanelModel};
use crate::path::{same_bytes, FilePath, PathKey, PathView};

verus! {

/// Names at the root that are not places for files: `proc`, `sys`, `dev`, `run`.
pub open spec fn pseudo_name(name: Seq<u8>) -> bool {
    ||| name == seq![112u8, 114u8, 111u8, 99u8]
    ||| name == seq![115u8, 121u8, 115u8]
    ||| name == seq![100u8, 101u8, 118u8]
    ||| name == seq![114u8, 117u8, 110u8]
}

/// A path of a pseudo-FS (/proc, /sys, /dev, /run), or one below it.
pub open spec fn pseudo(path: PathView) -> bool {
    path.absolute && path.parts.len() > 0 && pseudo_name(path.parts[0])
}

/// The path belongs to a pseudo-FS (/proc, /sys, /dev, /run) — the directory size there is
/// meaningless and is not computed.
pub fn is_pseudo_fs(path: &FilePath) -> (r: bool)
    ensures
        r == pseudo(path@),
{
    if !path.absolute || path.parts.len() == 0 {
        return false;
    }
    let name = &path.parts[0];
    assert(path@.parts[0] == name@);
    let proc_name: Vec<u8> = vec![112u8, 114u8, 111u8, 99u8];
    let sys_name: Vec<u8> = vec![115u8, 121u8, 115u8];
    let dev_name: Vec<u8> = vec![100u8, 101u8, 118u8];
    let run_name: Vec<u8> = vec![114u8, 117u8, 110u8];
    assert(proc_name@ =~= seq![112u8, 114u8, 111u8, 99u8]);
    assert(sys_name@ =~= seq![115u8, 121u8, 115u8]);
    assert(dev_name@ =~= seq![100u8, 101u8, 118u8]);
    assert(run_name@ =~= seq![114u8, 117u8, 110u8]);
    same_bytes(name, &proc_name) || same_bytes(name, &sys_name) || same_bytes(name, &dev_name)
        || same_bytes(name, &run_name)
}

// ---------------------------------------------------------------------------------------------
// Measuring.
// ---------------------------------------------------------------------------------------------
/// What a directory entry counts for.
#[derive(Debug, Clone, Copy, PartialEq, Eq, Structural)]
pub enum SizedKind {
    /// A file of so many bytes.
    File(u64),
    /// A directory, to be walked.
    Dir,
    /// A link, a device or what could not be looked at: nothing.
    Other,
}

/// A walk over a directory tree: what was counted so far, and the directories still to read with
/// their depths.
#[derive(Debug, Clone)]
pub struct SizeWalk {
    pub total: u64,
    pub todo: Vec<(FilePath, u32)>,
}

/// The content of directories to read.
pub open spec fn todo_model(todo: Seq<(FilePath, u32)>) -> Seq<(PathView, u32)> {
    todo.map_values(|d: (FilePath, u32)| (d.0@, d.1))
}

/// A directory is walked: not deeper than 64, and nowhere in a pseudo-FS.
pub open spec fn walked(dir: PathView, depth: int) -> bool {
    depth <= 64 && !pseudo(dir)
}

/// The files of a listing, added up; a sum that does not fit stays at its most.
pub open spec fn bytes_of(found: Seq<(Vec<u8>, SizedKind)>, start: int) -> int
    decreases found.len(),
{
    if found.len() == 0 {
        start
    } else {
        let before = bytes_of(found.drop_last(), start);
        match found.last().1 {
            SizedKind::File(size) => if before + size > u64::MAX {
                u64::MAX as int
            } else {
                before + size
            },
            _ => before,
        }
    }
}

/// The directories of a listing that are to be walked.
pub open spec fn subdirs_of(dir: PathView, depth: u32, found: Seq<(Vec<u8>, SizedKind)>) -> Seq<
    (PathView, u32),
>
    decreases found.len(),
{
    if found.len() == 0 {
        Seq::empty()
    } else {
        let before = subdirs_of(dir, depth, found.drop_last());
        let child = dir.child(found.last().0@);
        if found.last().1 == SizedKind::Dir && walked(child, depth + 1) {
            before.push((child, (depth + 1) as u32))
        } else {
            before
        }
    }
}

impl SizeWalk {
    /// A walk about to read its directory.
    pub fn new(dir: FilePath) -> (r: SizeWalk)
        ensures
            r.total == 0,
            todo_model(r.todo@) == (if walked(dir@, 0) {
                seq![(dir@, 0u32)]
            } else {
                Seq::empty()
            }),
    {
        let mut todo: Vec<(FilePath, u32)> = Vec::new();
        let ghost start = dir@;
        if !is_pseudo_fs(&dir) {
            todo.push((dir, 0));
        }
        assert(todo_model(todo@) =~= (if walked(start, 0) {
            seq![(start, 0u32)]
        } else {
            Seq::empty()
        }));
        SizeWalk { total: 0, todo }
    }

    /// Counts what was found in a directory: files add to the total, directories are put off,
    /// links and the rest count for nothing.
    pub fn count(&mut self, dir: &FilePath, depth: u32, found: &Vec<(Vec<u8>, SizedKind)>)
        requires
            depth <= 64,
        ensures
            final(self).total == bytes_of(found@, old(self).total as int),
            todo_model(final(self).todo@) == todo_model(old(self).todo@) + subdirs_of(
                dir@,
                depth,
                found@,
            ),
    {
        let ghost before = todo_model(self.todo@);
        let ghost start = self.total;
        let mut i: usize = 0;
        assert(todo_model(self.todo@) =~= before + subdirs_of(dir@, depth, found@.take(0)));
        while i < found.len()
            invariant
                i <= found@.len(),
                depth <= 64,
                self.total == bytes_of(found@.take(i as int), start as int),
                todo_model(self.todo@) == before + subdirs_of(dir@, depth, found@.take(i as int)),
            decreases found@.len() - i,
        {
            let ghost rest = subdirs_of(dir@, depth, found@.take(i as int));
            assert(found@.take(i as int + 1).drop_last() =~= found@.take(i as int));
            match found[i].1 {
                SizedKind::File(size) => {
                    self.total = if size > u64::MAX - self.total {
                        u64::MAX
                    } else {
                        self.total + size
                    };
                },
                SizedKind::Dir => {
                    let child = dir.child(&found[i].0);
                    if depth < 64 && !is_pseudo_fs(&child) {
                        let ghost view = child@;
                        let ghost todo = self.todo@;
                        self.todo.push((child, depth + 1));
                        assert(todo_model(self.todo@) =~= todo_model(todo).push(
                            (view, (depth + 1) as u32),
                        ));
                        assert(before + rest.push((view, (depth + 1) as u32)) =~= (before
                            + rest).push((view, (depth + 1) as u32)));
                    }
                },
                SizedKind::Other => {},
            }
            i = i + 1;
        }
        assert(found@.take(found@.len() as int) =~= found@);
    }
}

/// Nothing in a pseudo-FS and nothing deeper than 64 levels is ever put on the list of
/// directories to read.
pub proof fn law_the_walk_keeps_out_of_pseudo_fs(
    dir: PathView,
    depth: u32,
    found: Seq<(Vec<u8>, SizedKind)>,
)
    requires
        depth <= 64,
    ensures
        forall|i: int|
            0 <= i < subdirs_of(dir, depth, found).len() ==> {
                let sub = #[trigger] subdirs_of(dir, depth, found)[i];
                !pseudo(sub.0) && sub.1 == depth + 1 && sub.1 <= 64 && (
                sub.0.parent() matches Some(up) && up.key() == dir.key())
            },
    decreases found.len(),
{
    if found.len() > 0 {
        law_the_walk_keeps_out_of_pseudo_fs(dir, depth, found.drop_last());
        let child = dir.child(found.last().0@);
        assert(child.parts.drop_last() =~= dir.parts);
    }
}

// ---------------------------------------------------------------------------------------------
// What the commander knows.
// ---------------------------------------------------------------------------------------------
/// A directory queued for measuring, unless it has no size or is being measured already.
pub open spec fn enqueued(a: AppModel, path: PathView) -> AppModel {
    let c = a.commander;
    if pseudo(path) || c.dir_size_pending.dom().contains(path.key()) {
        a
    } else {
        AppModel {
            commander: CommanderModel {
                dir_size_cache: c.dir_size_cache.remove(path.key()),
                dir_size_pending: c.dir_size_pending.insert(path.key(), ()),
                ..c
            },
            ..a
        }.send(EffectModel::SizeDir(path))
    }
}

/// Queues directory `path` for a background size recompute: clears the old value and marks it
/// pending, so that a stale one is not shown. Skips pseudo-FS and directories already being
/// computed.
pub fn enqueue_dir_size(app: &mut App, path: FilePath)
    ensures
        final(app)@ == enqueued(old(app)@, path@),
{
    if is_pseudo_fs(&path) || app.commander.dir_size_pending.contains(&path) {
        return;
    }
    app.commander.dir_size_cache.remove(&path);
    app.commander.dir_size_pending.insert(path.copy(), ());
    app.send(Effect::SizeDir(path));
}

/// The command to measure the directory under the cursor, and what it says.
pub open spec fn size_requested(a: AppModel) -> AppModel {
    match a.commander.active_panel().selected() {
        Some(entry) => if entry.kind != EntryKind::Dir {
            a.say("Not a directory under the cursor"@)
        } else if pseudo(entry.path) {
            a.say(entry.path.shown_safely() + " — pseudo-FS, size not computed"@)
        } else if a.commander.dir_size_pending.dom().contains(entry.path.key()) {
            a.say("Size already being computed: "@ + entry.path.shown_safely())
        } else {
            enqueued(a.say("Computing directory size: "@ + entry.path.shown_safely()), entry.path)
        },
        None => a.say("Not a directory under the cursor"@),
    }
}

/// Shift+F6: computes the size of the directory under the cursor in the background. The size is
/// computed only by this command.
pub fn recompute_dir_size(app: &mut App)
    requires
        old(app)@.valid(),
    ensures
        final(app)@ == size_requested(old(app)@),
{
    let path = match app.commander.active_panel().selected() {
        Some(entry) => match entry.kind {
            EntryKind::Dir => Some(entry.path.copy()),
            _ => None,
        },
        None => None,
    };
    let path = match path {
        Some(path) => path,
        None => {
            app.say_str("Not a directory under the cursor");
            return;
        },
    };
    if is_pseudo_fs(&path) {
        let mut status = path.display_safely();
        status.push_str(" — pseudo-FS, size not computed");
        app.say(status);
        return;
    }
    if app.commander.dir_size_pending.contains(&path) {
        let mut status = "Size already being computed: ".to_string();
        status.push_str(path.display_safely().as_str());
        app.say(status);
        return;
    }
    let mut status = "Computing directory size: ".to_string();
    status.push_str(path.display_safely().as_str());
    app.say(status);
    enqueue_dir_size(app, path);
}

/// Every size but those of a path and its ancestors.
pub open spec fn without_ancestors<V>(sizes: Map<PathKey, V>, path: PathView) -> Map<PathKey, V> {
    sizes.restrict(sizes.dom().filter(|p: PathKey| !path.key().below(p)))
}

/// Every size but those of some paths and their ancestors.
pub open spec fn without_affected<V>(sizes: Map<PathKey, V>, paths: Seq<PathView>) -> Map<
    PathKey,
    V,
>
    decreases paths.len(),
{
    if paths.len() == 0 {
        sizes
    } else {
        without_ancestors(without_affected(sizes, paths.drop_last()), paths.last())
    }
}

/// The sizes that a move has made stale, forgotten.
pub open spec fn sizes_forgotten(a: AppModel, paths: Seq<PathView>) -> AppModel {
    AppModel {
        commander: CommanderModel {
            dir_size_cache: without_affected(a.commander.dir_size_cache, paths),
            dir_size_pending: without_affected(a.commander.dir_size_pending, paths),
            ..a.commander
        },
        ..a
    }
}

fn forget_upwards<V>(sizes: &mut crate::assoc::Assoc<FilePath, V>, path: &FilePath)
    ensures
        final(sizes)@ == without_ancestors(old(sizes)@, path@),
{
    let ghost before = sizes@;
    let mut node: Option<FilePath> = Some(path.copy());
    let ghost mut len: int = path@.parts.len() as int;
    assert(path@.parts.take(path@.parts.len() as int) =~= path@.parts);
    assert(sizes@ =~= before.restrict(
        before.dom().filter(|p: PathKey| !(path@.key().below(p) && p.parts.len() > len)),
    ));
    while node.is_some()
        invariant
            -1 <= len <= path@.parts.len(),
            node is Some <==> len >= 0,
            node matches Some(dir) ==> dir@.absolute == path@.absolute && dir@.parts
                == path@.parts.take(len),
            sizes@ == before.restrict(
                before.dom().filter(|p: PathKey| !(path@.key().below(p) && p.parts.len() > len)),
            ),
        decreases len + 1,
    {
        match node {
            Some(dir) => {
                let ghost held = sizes@;
                sizes.remove(&dir);
                proof {
                    assert forall|p: PathKey|
                        path@.key().below(p) && p.parts.len() > len - 1 <==> (
                        path@.key().below(p) && p.parts.len() > len) || p == dir@.key() by {
                        if path@.key().below(p) && p.parts.len() == len {
                            assert(p =~= dir@.key());
                        }
                        if p == dir@.key() {
                            assert(path@.parts.take(len).len() == len);
                        }
                    }
                    assert(sizes@ =~= before.restrict(
                        before.dom().filter(
                            |p: PathKey| !(path@.key().below(p) && p.parts.len() > len - 1),
                        ),
                    ));
                    if len > 0 {
                        assert(dir@.parts.drop_last() =~= path@.parts.take(len - 1));
                    }
                }
                node = dir.parent();
                proof {
                    len = len - 1;
                }
            },
            None => {},
        }
    }
    assert(sizes@ =~= without_ancestors(before, path@));
}

fn forget_affected<V>(sizes: &mut crate::assoc::Assoc<FilePath, V>, paths: &Vec<FilePath>)
    ensures
        final(sizes)@ == without_affected(old(sizes)@, crate::model::paths_model(paths@)),
{
    let ghost before = sizes@;
    let ghost all = crate::model::paths_model(paths@);
    let mut i: usize = 0;
    assert(without_affected(before, all.take(0)) == before);
    while i < paths.len()
        invariant
            i <= paths@.len(),
            all == crate::model::paths_model(paths@),
            sizes@ == without_affected(before, all.take(i as int)),
        decreases paths@.len() - i,
    {
        assert(all.take(i as int + 1).drop_last() =~= all.take(i as int));
        forget_upwards(sizes, &paths[i]);
        i = i + 1;
    }
    assert(all.take(all.len() as int) =~= all);
}

/// Resets the directory sizes of every affected path and of all its ancestors: after a move or an
/// undo the sizes of the parent directories are stale.
pub fn invalidate_dir_sizes(app: &mut App, paths: &Vec<FilePath>)
    ensures
        final(app)@ == sizes_forgotten(old(app)@, crate::model::paths_model(paths@)),
        final(app).commander.dedup == old(app).commander.dedup,
{
    forget_affected(&mut app.commander.dir_size_cache, paths);
    forget_affected(&mut app.commander.dir_size_pending, paths);
}

/// A size survives a move exactly when nothing moved into, out of or below its directory.
pub proof fn law_only_stale_sizes_are_forgotten<V>(
    sizes: Map<PathKey, V>,
    paths: Seq<PathView>,
    dir: PathKey,
)
    ensures
        without_affected(sizes, paths).dom().contains(dir) <==> sizes.dom().contains(dir) && forall|
            i: int,
        |
            0 <= i < paths.len() ==> !(#[trigger] paths[i]).key().below(dir),
        without_affected(sizes, paths).dom().contains(dir) ==> without_affected(sizes, paths)[dir]
            == sizes[dir],
    decreases paths.len(),
{
    if paths.len() > 0 {
        law_only_stale_sizes_are_forgotten(sizes, paths.drop_last(), dir);
        assert forall|i: int| 0 <= i < paths.len() - 1 implies paths.drop_last()[i] == paths[i] by {
        }
        if without_affected(sizes, paths).dom().contains(dir) {
            assert forall|i: int| 0 <= i < paths.len() implies !(#[trigger] paths[i]).key().below(
                dir,
            ) by {
                if i < paths.len() - 1 {
                    assert(paths.drop_last()[i] == paths[i]);
                }
            }
        }
        if sizes.dom().contains(dir) && forall|i: int|
            0 <= i < paths.len() ==> !(#[trigger] paths[i]).key().below(dir) {
            assert forall|i: int|
                0 <= i < paths.drop_last().len() implies !(#[trigger] paths.drop_last()[i]).key().below(
                dir,
            ) by {
                assert(paths.drop_last()[i] == paths[i]);
            }
            assert(!paths[paths.len() - 1].key().below(dir));
        }
    }
}

// ---------------------------------------------------------------------------------------------
// After a move.
// ---------------------------------------------------------------------------------------------
/// Some path lies in a directory or is it.
pub open spec fn touches(affected: Seq<PathView>, dir: PathView) -> bool {
    exists|i: int| 0 <= i < affected.len() && (#[trigger] affected[i]).starts_with(dir)
}

/// The directories of a list of entries that something moved into or out of, added to others
/// without repeating any.
pub open spec fn touched_dirs(
    entries: Seq<EntryModel>,
    affected: Seq<PathView>,
    out: Seq<PathView>,
) -> Seq<PathView>
    decreases entries.len(),
{
    if entries.len() == 0 {
        out
    } else {
        let before = touched_dirs(entries.drop_last(), affected, out);
        let e = entries.last();
        if e.kind == EntryKind::Dir && touches(affected, e.path) && !crate::path::keys_of(
            before,
        ).contains(e.path.key()) {
            before.push(e.path)
        } else {
            before
        }
    }
}

/// The same over several panels.
pub open spec fn touched_in(
    panels: Seq<PanelModel>,
    affected: Seq<PathView>,
    out: Seq<PathView>,
) -> Seq<PathView>
    decreases panels.len(),
{
    if panels.len() == 0 {
        out
    } else {
        touched_dirs(
            panels.last().entries,
            affected,
            touched_in(panels.drop_last(), affected, out),
        )
    }
}

/// The panels on screen in the order they are looked through: the Board's, then the commander's.
pub open spec fn all_panels(c: CommanderModel) -> Seq<PanelModel> {
    (match c.board {
        Some(board) => seq![board.source] + board.receivers,
        None => Seq::empty(),
    }) + c.panels
}

/// Directories queued one after the other.
pub open spec fn all_enqueued(a: AppModel, dirs: Seq<PathView>) -> AppModel
    decreases dirs.len(),
{
    if dirs.len() == 0 {
        a
    } else {
        enqueued(all_enqueued(a, dirs.drop_last()), dirs.last())
    }
}

/// Whether a path is among others.
pub fn holds_path(paths: &Vec<FilePath>, path: &FilePath) -> (r: bool)
    ensures
        r == crate::path::keys_of(crate::model::paths_model(paths@)).contains(path@.key()),
{
    let ghost keys = crate::path::keys_of(crate::model::paths_model(paths@));
    let mut i: usize = 0;
    while i < paths.len()
        invariant
            i <= paths@.len(),
            keys == crate::path::keys_of(crate::model::paths_model(paths@)),
            forall|j: int| 0 <= j < i ==> keys[j] != path@.key(),
        decreases paths@.len() - i,
    {
        assert(keys[i as int] == paths@[i as int]@.key());
        if paths[i].same(path) {
            return true;
        }
        i = i + 1;
    }
    false
}

fn is_touched(affected: &Vec<FilePath>, dir: &FilePath) -> (r: bool)
    ensures
        r == touches(crate::model::paths_model(affected@), dir@),
{
    let ghost all = crate::model::paths_model(affected@);
    let mut i: usize = 0;
    while i < affected.len()
        invariant
            i <= affected@.len(),
            all == crate::model::paths_model(affected@),
            forall|j: int| 0 <= j < i ==> !(#[trigger] all[j]).starts_with(dir@),
        decreases affected@.len() - i,
    {
        if affected[i].starts_with(dir) {
            assert(all[i as int].starts_with(dir@));
            return true;
        }
        i = i + 1;
    }
    false
}

/// Adds a path, keeping the contents in step.
pub fn push_path(paths: &mut Vec<FilePath>, path: FilePath)
    ensures
        crate::model::paths_model(final(paths)@) == crate::model::paths_model(old(paths)@).push(
            path@,
        ),
{
    paths.push(path);
    assert(crate::model::paths_model(paths@) =~= crate::model::paths_model(old(paths)@).push(path@));
}

fn collect(panel: &Panel, affected: &Vec<FilePath>, out: &mut Vec<FilePath>)
    ensures
        crate::model::paths_model(final(out)@) == touched_dirs(
            panel@.entries,
            crate::model::paths_model(affected@),
            crate::model::paths_model(old(out)@),
        ),
{
    let ghost all = panel@.entries;
    let ghost start = crate::model::paths_model(out@);
    let ghost moved = crate::model::paths_model(affected@);
    let mut i: usize = 0;
    while i < panel.entries.len()
        invariant
            i <= panel.entries@.len(),
            all == crate::entries::entries_model(panel.entries@),
            moved == crate::model::paths_model(affected@),
            crate::model::paths_model(out@) == touched_dirs(all.take(i as int), moved, start),
        decreases panel.entries@.len() - i,
    {
        assert(all.take(i as int + 1).drop_last() =~= all.take(i as int));
        let entry = &panel.entries[i];
        assert(all[i as int] == entry@);
        let is_dir = matches!(entry.kind, EntryKind::Dir);
        if is_dir && is_touched(affected, &entry.path) && !holds_path(out, &entry.path) {
            push_path(out, entry.path.copy());
        }
        i = i + 1;
    }
    assert(all.take(all.len() as int) =~= all);
}

fn collect_all(panels: &Vec<Panel>, affected: &Vec<FilePath>, out: &mut Vec<FilePath>)
    ensures
        crate::model::paths_model(final(out)@) == touched_in(
            crate::state::panels_model(panels@),
            crate::model::paths_model(affected@),
            crate::model::paths_model(old(out)@),
        ),
{
    let ghost all = crate::state::panels_model(panels@);
    let ghost start = crate::model::paths_model(out@);
    let mut i: usize = 0;
    while i < panels.len()
        invariant
            i <= panels@.len(),
            all == crate::state::panels_model(panels@),
            crate::model::paths_model(out@) == touched_in(
                all.take(i as int),
                crate::model::paths_model(affected@),
                start,
            ),
        decreases panels@.len() - i,
    {
        assert(all.take(i as int + 1).drop_last() =~= all.take(i as int));
        collect(&panels[i], affected, out);
        i = i + 1;
    }
    assert(all.take(all.len() as int) =~= all);
}

proof fn lemma_touched_in_splits(
    first: Seq<PanelModel>,
    second: Seq<PanelModel>,
    affected: Seq<PathView>,
    out: Seq<PathView>,
)
    ensures
        touched_in(first + second, affected, out) == touched_in(
            second,
            affected,
            touched_in(first, affected, out),
        ),
    decreases second.len(),
{
    if second.len() == 0 {
        assert(first + second =~= first);
    } else {
        lemma_touched_in_splits(first, second.drop_last(), affected, out);
        assert((first + second).drop_last() =~= first + second.drop_last());
    }
}

/// The visible directories that something moved into or out of.
pub open spec fn stale_dirs(c: CommanderModel, affected: Seq<PathView>) -> Seq<PathView> {
    touched_in(all_panels(c), affected, Seq::empty())
}

fn visible_stale_dirs(app: &App, affected: &Vec<FilePath>) -> (r: Vec<FilePath>)
    ensures
        crate::model::paths_model(r@) == stale_dirs(
            app@.commander,
            crate::model::paths_model(affected@),
        ),
{
    let ghost moved = crate::model::paths_model(affected@);
    let mut dirs: Vec<FilePath> = Vec::new();
    assert(crate::model::paths_model(dirs@) =~= Seq::empty());
    match &app.commander.board {
        Some(board) => {
            collect(&board.source, affected, &mut dirs);
            proof {
                reveal_with_fuel(touched_in, 2);
                assert(seq![board@.source].drop_last() =~= Seq::empty());
                lemma_touched_in_splits(
                    seq![board@.source],
                    board@.receivers,
                    moved,
                    Seq::empty(),
                );
            }
            collect_all(&board.receivers, affected, &mut dirs);
        },
        None => {},
    }
    proof {
        let first = match app@.commander.board {
            Some(board) => seq![board.source] + board.receivers,
            None => Seq::empty(),
        };
        lemma_touched_in_splits(first, app@.commander.panels, moved, Seq::empty());
    }
    collect_all(&app.commander.panels, affected, &mut dirs);
    dirs
}

/// Recomputes in the background the size of every currently visible directory entry into or out
/// of which something moved.
pub fn refresh_affected_dir_sizes(app: &mut App, affected: &Vec<FilePath>)
    ensures
        final(app)@ == all_enqueued(
            old(app)@,
            stale_dirs(old(app)@.commander, crate::model::paths_model(affected@)),
        ),
{
    let ghost a = app@;
    let dirs = visible_stale_dirs(app, affected);
    let ghost all = crate::model::paths_model(dirs@);
    let mut i: usize = 0;
    while i < dirs.len()
        invariant
            i <= dirs@.len(),
            all == crate::model::paths_model(dirs@),
            app@ == all_enqueued(a, all.take(i as int)),
        decreases dirs@.len() - i,
    {
        assert(all.take(i as int + 1).drop_last() =~= all.take(i as int));
        enqueue_dir_size(app, dirs[i].copy());
        i = i + 1;
    }
    assert(all.take(all.len() as int) =~= all);
}

} // verus!
