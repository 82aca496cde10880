//! Plans, scans, sizes, snapshots and what a move leaves behind: what is asked for and what an
//! answer changes.

use vstd::prelude::*;

use crate::answers::LoadedScan;
use crate::app::{AppMode, AppModel, CommanderModel, Dataset, DedupModel, EffectModel};
use crate::entries::{EntryKind, EntryModel};
use crate::keys::{KeyCode, KeyEvent};
use crate::model::ActionPlan;
use crate::moves::OutcomeModel;
use crate::path::{PathKey, PathView};
use crate::sizes::SizedKind;
use crate::state::{ConfirmTab, LoadTarget, Overlay, ScriptModel};

verus! {

// ---------------------------------------------------------------------------------------------
// The plan.
// ---------------------------------------------------------------------------------------------
/// What is shown for confirmation is the plan that was built, with its own script.
pub proof fn law_the_plan_shown_is_the_plan_built(a: AppModel, plan: ActionPlan, script: Seq<char>)
    ensures
        ({
            let b = crate::actions::plan_seated(a, plan, script);
            &&& b.commander.pending_plan == Some(plan)
            &&& b.commander.confirm_script == ScriptModel::Ready(script)
            &&& b.commander.overlay is Confirm
            &&& b.outbox == a.outbox
            &&& b.commander.panels == a.commander.panels
        }),
{
}

/// `y` applies the pending plan, once, and takes it away.
pub proof fn law_y_applies_the_pending_plan(
    a: AppModel,
    tab: ConfirmTab,
    key: KeyEvent,
    plan: ActionPlan,
    b: AppModel,
)
    requires
        a.commander.overlay == (Overlay::Confirm { tab }),
        key.code == KeyCode::Char('y') || key.code == KeyCode::Char('Y'),
        a.commander.pending_plan == Some(plan),
        crate::confirm::confirm_key(a, key, b),
    ensures
        !a.read_only && !(a.commander.confirm_script is Invalidated) ==> b.outbox
            == a.outbox.push(EffectModel::Apply(plan)) && b.commander.pending_plan is None
            && b.commander.overlay is Closed && b.mode == AppMode::Wizard,
        a.read_only || a.commander.confirm_script is Invalidated ==> b.outbox == a.outbox && b.mode
            == a.mode,
        a.read_only ==> b.commander.pending_plan is None && b.commander.overlay is Closed,
        !a.read_only && a.commander.confirm_script is Invalidated ==> b.commander.overlay
            == a.commander.overlay,
{
}

/// `n` and Esc drop the plan, and nothing is applied or sent.
pub proof fn law_n_drops_the_plan(a: AppModel, tab: ConfirmTab, key: KeyEvent, b: AppModel)
    requires
        a.commander.overlay == (Overlay::Confirm { tab }),
        key.code == KeyCode::Char('n') || key.code == KeyCode::Char('N') || key.code
            == KeyCode::Esc,
        crate::confirm::confirm_key(a, key, b),
    ensures
        b.outbox == a.outbox,
        b.commander.pending_plan is None,
        b.commander.confirm_script is Absent,
        b.commander.overlay is Closed,
        b.commander.panels == a.commander.panels,
{
}

/// `s` writes the script shown, under `plans` beside the database, and keeps the plan; Tab turns
/// the page, and the plan stays as it is.
pub proof fn law_s_saves_the_script_shown(
    a: AppModel,
    tab: ConfirmTab,
    key: KeyEvent,
    script: Seq<char>,
    parent: PathView,
    b: AppModel,
)
    requires
        a.commander.overlay == (Overlay::Confirm { tab }),
        a.commander.confirm_script == ScriptModel::Ready(script),
        a.db_path.parent() == Some(parent),
        crate::confirm::confirm_key(a, key, b),
    ensures
        key.code == KeyCode::Char('s') || key.code == KeyCode::Char('S') ==> b.commander
            == a.commander && b.outbox.len() == a.outbox.len() + 1 && b.outbox.drop_last()
            == a.outbox && (b.outbox.last() matches EffectModel::SaveScript {
            dir,
            name,
            script: saved,
        } && dir == parent.child(
            seq!['p' as u8, 'l' as u8, 'a' as u8, 'n' as u8, 's' as u8],
        ) && saved == script && name.len() >= 3 && name.subrange(name.len() - 3, name.len() as int)
            == seq!['.', 's', 'h']),
        key.code == KeyCode::Tab ==> b.outbox == a.outbox && b.commander.pending_plan
            == a.commander.pending_plan && b.commander.overlay == (Overlay::Confirm {
            tab: if tab == ConfirmTab::Summary {
                ConfirmTab::Commands
            } else {
                ConfirmTab::Summary
            },
        }),
{
    if key.code == KeyCode::Char('s') || key.code == KeyCode::Char('S') {
        reveal_strlit(".sh");
        let stamp = choose|stamp: Seq<char>|
            crate::moments::numeric_date(stamp) && b == #[trigger] crate::confirm::script_sent(
                a,
                stamp,
            );
        let name = stamp + ".sh"@;
        assert(name.subrange(name.len() - 3, name.len() as int) =~= seq!['.', 's', 'h']);
        assert(b.outbox.drop_last() =~= a.outbox);
        assert(crate::confirm::plans_name() =~= seq![
            'p' as u8,
            'l' as u8,
            'a' as u8,
            'n' as u8,
            's' as u8,
        ]);
    }
}

// ---------------------------------------------------------------------------------------------
// Scans.
// ---------------------------------------------------------------------------------------------
/// Resuming resumes the unfinished scan, opening opens the complete one, a new scan takes the
/// roots that were asked for; Esc sends nothing.
pub proof fn law_each_offer_is_taken_as_made(a: AppModel, key: KeyEvent)
    ensures
        ({
            let b = crate::confirm::resume_key(a, key);
            let c = a.commander;
            let r = key.code == KeyCode::Char('r') || key.code == KeyCode::Char('R');
            let o = key.code == KeyCode::Char('o') || key.code == KeyCode::Char('O');
            let n = key.code == KeyCode::Char('n') || key.code == KeyCode::Char('N');
            let enter = key.code == KeyCode::Enter;
            &&& (r || enter) && c.resume_unfinished is Some ==> b.outbox == a.outbox.push(
                EffectModel::Resume(c.resume_unfinished->Some_0.scan_id),
            )
            &&& (o || (enter && c.resume_unfinished is None)) && c.resume_complete is Some
                ==> b.outbox == a.outbox.push(
                EffectModel::OpenCompleted(c.resume_complete->Some_0.scan_id),
            )
            &&& n ==> b.outbox == a.outbox.push(EffectModel::ScanNew(c.pending_scan_roots))
            &&& key.code == KeyCode::Esc ==> b.outbox == a.outbox && b.commander.overlay is Closed
            &&& b.outbox != a.outbox ==> b.commander.overlay is Closed
                && b.commander.pending_scan_roots.len() == 0
            &&& r && c.resume_unfinished is None ==> b == a
            &&& o && c.resume_complete is None ==> b == a
        }),
{
    let b = crate::confirm::resume_key(a, key);
    if b.outbox.len() == a.outbox.len() {
    } else {
        assert(b.outbox.len() == a.outbox.len() + 1);
    }
}

/// What the history holds decides whether a scan starts at once: with nothing in it the roots are
/// scanned; with an unfinished or a complete scan of them both are offered, as they are.
pub proof fn law_what_was_scanned_is_offered(
    a: AppModel,
    roots: Seq<PathView>,
    unfinished: Option<crate::model::ResumeInfo>,
    complete: Option<crate::model::ResumeInfo>,
)
    ensures
        ({
            let b = crate::answers::probe_settled(a, roots, Ok((unfinished, complete)));
            &&& unfinished is None && complete is None ==> b.outbox == a.outbox.push(
                EffectModel::ScanNew(roots),
            ) && b.commander == a.commander
            &&& unfinished is Some || complete is Some ==> b.outbox == a.outbox
                && b.commander.overlay is ResumeScan && b.commander.resume_unfinished == unfinished
                && b.commander.resume_complete == complete && b.commander.pending_scan_roots
                == roots
        }),
{
}

/// A scan is switched to exactly where it is not the one in use: the covering scan is loaded, and
/// where none covers the directory what was known is forgotten.
pub proof fn law_the_covering_scan_is_used(a: AppModel)
    requires
        a.valid(),
        a.commander.scan_coverage_cache.dom().contains(
            a.commander.panels[a.commander.active as int].cwd.key(),
        ),
    ensures
        ({
            let cwd = a.commander.panels[a.commander.active as int].cwd;
            let covering = a.commander.scan_coverage_cache[cwd.key()];
            let b = crate::scans::auto_switched(a);
            &&& covering == a.commander.dedup_scan_id ==> b == a
            &&& covering != a.commander.dedup_scan_id ==> (covering matches Some(id) ==> b.outbox
                == a.outbox.push(EffectModel::LoadDedup(id)))
            &&& covering != a.commander.dedup_scan_id && covering is None ==> b.outbox == a.outbox
                && b.commander.dedup_scan_id is None
                && b.commander.dedup.by_cwd.dom().is_empty()
                && b.commander.group_summaries.len() == 0
                && b.commander.dir_group_summaries.len() == 0
            &&& b.commander.panels == a.commander.panels
        }),
{
}

/// A directory of which nothing is known is asked about, once.
pub proof fn law_an_unknown_directory_is_asked_about(a: AppModel)
    requires
        a.valid(),
        !a.commander.scan_coverage_cache.dom().contains(
            a.commander.panels[a.commander.active as int].cwd.key(),
        ),
    ensures
        ({
            let cwd = a.commander.panels[a.commander.active as int].cwd;
            let b = crate::scans::auto_switched(a);
            &&& !a.commander.coverage_asked.dom().contains(cwd.key()) ==> b.outbox
                == a.outbox.push(EffectModel::CoveringScan(cwd))
                && b.commander.coverage_asked.dom().contains(cwd.key())
            &&& a.commander.coverage_asked.dom().contains(cwd.key()) ==> b == a
        }),
{
}

/// The answer is kept for the directory that was asked about, and the question is open no more.
pub proof fn law_an_answer_is_kept_for_its_directory(
    a: AppModel,
    cwd: PathView,
    scan: Option<i64>,
)
    ensures
        ({
            let b = crate::scans::coverage_known(a, cwd, scan);
            &&& b.commander.scan_coverage_cache.contains_pair(cwd.key(), scan)
            &&& forall|other: PathKey|
                other != cwd.key() ==> (b.commander.scan_coverage_cache.dom().contains(other)
                    == #[trigger] a.commander.scan_coverage_cache.dom().contains(other))
        }),
{
}

/// Refreshing forgets which scans cover what, and asks anew.
pub proof fn law_refreshing_asks_anew(a: AppModel)
    requires
        a.valid(),
    ensures
        crate::scans::dedup_reloaded(a).outbox == a.outbox.push(
            EffectModel::CoveringScan(a.commander.panels[a.commander.active as int].cwd),
        ),
        crate::scans::dedup_reloaded(a).commander.scan_coverage_cache.dom().is_empty(),
{
}

/// A loaded scan is used with its own groups and directory groups, and no standing of the scan
/// before is kept.
pub proof fn law_a_loaded_scan_is_used_whole(c: CommanderModel, scan: LoadedScan)
    ensures
        ({
            let d = crate::answers::scan_installed(c, scan);
            &&& d.dedup_scan_id == Some(scan.id)
            &&& d.group_summaries == scan.groups@ && d.group_ids == scan.group_ids@
            &&& d.dir_group_summaries == scan.dir_groups@ && d.dir_groups_error
                == scan.dir_groups_error
            &&& d.candidates == scan.candidates && d.scan_created_at == scan.created_at
            &&& d.dedup.by_cwd.dom().is_empty() && d.dedup.pending.dom().is_empty()
            &&& d.watch_cache.len() == 0 && d.watch_dir_cache.len() == 0
            &&& d.panels == c.panels && d.move_log == c.move_log && d.pending_plan
                == c.pending_plan
        }),
{
}

/// The paths of a kind are those of the entries of that kind: each of them, and no other.
pub proof fn law_paths_of_a_kind_are_its_entries(
    entries: Seq<EntryModel>,
    kind: EntryKind,
    path: PathView,
)
    ensures
        crate::scans::paths_of_kind(entries, kind).contains(path) <==> exists|i: int|
            0 <= i < entries.len() && (#[trigger] entries[i]).kind == kind && entries[i].path
                == path,
    decreases entries.len(),
{
    if entries.len() > 0 {
        let before = entries.drop_last();
        law_paths_of_a_kind_are_its_entries(before, kind, path);
        let paths = crate::scans::paths_of_kind(before, kind);
        let last = entries.last();
        assert(paths.push(last.path).contains(path) <==> paths.contains(path) || last.path == path)
            by {
            if paths.contains(path) {
                let k = choose|k: int| 0 <= k < paths.len() && paths[k] == path;
                assert(paths.push(last.path)[k] == path);
            }
            if last.path == path {
                assert(paths.push(last.path)[paths.len() as int] == path);
            }
        }
        if exists|i: int|
            0 <= i < entries.len() && (#[trigger] entries[i]).kind == kind && entries[i].path
                == path {
            let i = choose|i: int|
                0 <= i < entries.len() && (#[trigger] entries[i]).kind == kind && entries[i].path
                    == path;
            if i < before.len() {
                assert(before[i] == entries[i]);
            }
        }
        if paths.contains(path) {
            let i = choose|i: int|
                0 <= i < before.len() && (#[trigger] before[i]).kind == kind && before[i].path
                    == path;
            assert(entries[i] == before[i]);
        }
        assert(entries[entries.len() - 1] == last);
    }
}

/// A panel's standing is asked for with the files and the directories that it shows, under its own
/// directory, and only where a scan is in use.
pub proof fn law_a_panel_asks_about_what_it_shows(a: AppModel, index: usize, path: PathView)
    requires
        index < a.commander.panels.len(),
    ensures
        ({
            let b = crate::scans::dedup_fetched(a, LoadTarget::Commander(index));
            let p = a.commander.panels[index as int];
            &&& a.commander.dedup_scan_id is None ==> b == a
            &&& a.commander.dedup_scan_id is Some ==> b.outbox.len() == a.outbox.len() + 1 && (
            b.outbox.last() matches EffectModel::PanelData { target, cwd, files, dirs } && target
                == LoadTarget::Commander(index) && cwd == p.cwd && (files.contains(path)
                <==> exists|i: int|
                0 <= i < p.entries.len() && (#[trigger] p.entries[i]).kind == EntryKind::File
                    && p.entries[i].path == path) && (dirs.contains(path) <==> exists|i: int|
                0 <= i < p.entries.len() && (#[trigger] p.entries[i]).kind == EntryKind::Dir
                    && p.entries[i].path == path))
            &&& a.commander.dedup_scan_id is Some ==> b.commander.dedup.pending.dom().contains(
                p.cwd.key(),
            ) && b.commander.dedup.by_cwd == a.commander.dedup.by_cwd
        }),
{
    let p = a.commander.panels[index as int];
    law_paths_of_a_kind_are_its_entries(p.entries, EntryKind::File, path);
    law_paths_of_a_kind_are_its_entries(p.entries, EntryKind::Dir, path);
}

/// F4 hashes the file under the cursor and nothing else.
pub proof fn law_f4_hashes_the_file_under_the_cursor(a: AppModel, at: int)
    requires
        a.valid(),
        0 <= at < a.commander.panels[a.commander.active as int].entries.len() <= usize::MAX,
        a.commander.panels[a.commander.active as int].list.selected == Some(at as usize),
    ensures
        ({
            let e = a.commander.panels[a.commander.active as int].entries[at];
            let b = crate::scans::hash_requested(a);
            &&& e.kind == EntryKind::File ==> b.outbox == a.outbox.push(EffectModel::Hash(e.path))
            &&& e.kind != EntryKind::File ==> b.outbox == a.outbox
            &&& b.commander.panels == a.commander.panels
        }),
{
}

// ---------------------------------------------------------------------------------------------
// Sizes.
// ---------------------------------------------------------------------------------------------
/// The bytes of the regular files found so far, without a limit.
pub open spec fn plain_sum(found: Seq<(Vec<u8>, SizedKind)>) -> int
    decreases found.len(),
{
    if found.len() == 0 {
        0
    } else {
        plain_sum(found.drop_last()) + match found.last().1 {
            SizedKind::File(size) => size as int,
            _ => 0,
        }
    }
}

/// A directory's size is the sum of its files, cut off at the largest number there is.
pub proof fn law_a_size_is_the_sum_of_the_files(found: Seq<(Vec<u8>, SizedKind)>, start: int)
    requires
        0 <= start <= u64::MAX,
    ensures
        plain_sum(found) >= 0,
        crate::sizes::bytes_of(found, start) == if start + plain_sum(found) > u64::MAX {
            u64::MAX as int
        } else {
            start + plain_sum(found)
        },
    decreases found.len(),
{
    if found.len() > 0 {
        law_a_size_is_the_sum_of_the_files(found.drop_last(), start);
    }
}

/// The walk goes on into the directories that were found: each of them that is no pseudo file
/// system and not too deep, one level further down; and into nothing else.
pub proof fn law_the_walk_goes_into_directories(
    dir: PathView,
    depth: u32,
    found: Seq<(Vec<u8>, SizedKind)>,
    i: int,
)
    requires
        depth < 64,
        0 <= i < found.len(),
    ensures
        found[i].1 == SizedKind::Dir && !crate::sizes::pseudo(dir.child(found[i].0@))
            ==> crate::sizes::subdirs_of(dir, depth, found).contains(
            (dir.child(found[i].0@), (depth + 1) as u32),
        ),
        forall|k: int|
            0 <= k < crate::sizes::subdirs_of(dir, depth, found).len() ==> (
            #[trigger] crate::sizes::subdirs_of(dir, depth, found)[k]).1 == depth + 1
                && !crate::sizes::pseudo(crate::sizes::subdirs_of(dir, depth, found)[k].0),
    decreases found.len(),
{
    let before = found.drop_last();
    let inner = crate::sizes::subdirs_of(dir, depth, before);
    let child = (dir.child(found.last().0@), (depth + 1) as u32);
    if before.len() > 0 {
        law_the_walk_goes_into_directories(dir, depth, before, if i < before.len() { i } else { 0 });
    }
    if i < before.len() {
        assert(before[i] == found[i]);
        if inner.contains((dir.child(found[i].0@), (depth + 1) as u32)) {
            let k = choose|k: int|
                0 <= k < inner.len() && inner[k] == (dir.child(found[i].0@), (depth + 1) as u32);
            assert(inner.push(child)[k] == inner[k]);
        }
    } else {
        assert(inner.push(child)[inner.len() as int] == child);
    }
}

/// Shift+F6 measures the directory under the cursor, once at a time, and no pseudo file system.
pub proof fn law_the_directory_under_the_cursor_is_measured(a: AppModel, at: int)
    requires
        a.valid(),
        0 <= at < a.commander.panels[a.commander.active as int].entries.len() <= usize::MAX,
        a.commander.panels[a.commander.active as int].list.selected == Some(at as usize),
    ensures
        ({
            let e = a.commander.panels[a.commander.active as int].entries[at];
            let b = crate::sizes::size_requested(a);
            let measured = e.kind == EntryKind::Dir && !crate::sizes::pseudo(e.path)
                && !a.commander.dir_size_pending.dom().contains(e.path.key());
            &&& measured ==> b.outbox == a.outbox.push(EffectModel::SizeDir(e.path))
                && b.commander.dir_size_pending.dom().contains(e.path.key())
                && !b.commander.dir_size_cache.dom().contains(e.path.key())
            &&& !measured ==> b.outbox == a.outbox && b.commander.dir_size_pending
                == a.commander.dir_size_pending && b.commander.dir_size_cache
                == a.commander.dir_size_cache
        }),
{
}

/// The pseudo file systems are `/proc`, `/sys`, `/dev` and `/run` and what lies below them.
pub proof fn law_the_pseudo_file_systems(path: PathView)
    ensures
        crate::sizes::pseudo(path) <==> path.absolute && path.parts.len() > 0 && (path.parts[0]
            == seq!['p' as u8, 'r' as u8, 'o' as u8, 'c' as u8] || path.parts[0]
            == seq!['s' as u8, 'y' as u8, 's' as u8] || path.parts[0]
            == seq!['d' as u8, 'e' as u8, 'v' as u8] || path.parts[0]
            == seq!['r' as u8, 'u' as u8, 'n' as u8]),
{
}

// ---------------------------------------------------------------------------------------------
// Snapshots.
// ---------------------------------------------------------------------------------------------
/// A device's dataset is the first that names the device; without one there is none.
pub proof fn law_a_device_has_its_dataset(datasets: Seq<Dataset>, device: u64, at: int)
    requires
        0 <= at < datasets.len(),
        datasets[at].device_id == Some(device),
        forall|i: int| 0 <= i < at ==> (#[trigger] datasets[i]).device_id != Some(device),
    ensures
        crate::snapshots::dataset_of(datasets, device) == Some(datasets[at].name@),
    decreases at,
{
    if at > 0 {
        let rest = datasets.skip(1);
        assert(rest[at - 1] == datasets[at]);
        assert(datasets[0].device_id != Some(device));
        assert forall|i: int| 0 <= i < at - 1 implies (#[trigger] rest[i]).device_id != Some(
            device,
        ) by {
            assert(rest[i] == datasets[i + 1]);
        }
        law_a_device_has_its_dataset(rest, device, at - 1);
    }
}

/// A device that no dataset names has none.
pub proof fn law_an_unnamed_device_has_no_dataset(datasets: Seq<Dataset>, device: u64)
    requires
        forall|i: int|
            0 <= i < datasets.len() ==> (#[trigger] datasets[i]).device_id != Some(device),
    ensures
        crate::snapshots::dataset_of(datasets, device) is None,
    decreases datasets.len(),
{
    if datasets.len() > 0 {
        let rest = datasets.skip(1);
        assert(datasets[0].device_id != Some(device));
        assert forall|i: int| 0 <= i < rest.len() implies (#[trigger] rest[i]).device_id != Some(
            device,
        ) by {
            assert(rest[i] == datasets[i + 1]);
        }
        law_an_unnamed_device_has_no_dataset(rest, device);
    }
}

/// Every dataset that a source lies on is snapshotted, none other, and none twice.
pub proof fn law_every_touched_dataset_is_snapshotted(
    datasets: Seq<Dataset>,
    devices: Seq<Option<u64>>,
    name: Seq<char>,
)
    ensures
        crate::snapshots::snapshot_datasets(datasets, devices).contains(name) <==> exists|i: int|
            0 <= i < devices.len() && ((#[trigger] devices[i]) matches Some(device)
                && crate::snapshots::dataset_of(datasets, device) == Some(name)),
        crate::snapshots::snapshot_datasets(datasets, devices).no_duplicates(),
    decreases devices.len(),
{
    let all = crate::snapshots::snapshot_datasets(datasets, devices);
    if devices.len() > 0 {
        let inner = devices.drop_last();
        law_every_touched_dataset_is_snapshotted(datasets, inner, name);
        let before = crate::snapshots::snapshot_datasets(datasets, inner);
        let last = devices.last();
        assert(devices[devices.len() - 1] == last);
        if all != before {
            let added = all.last();
            assert(all == before.push(added));
            assert(all[before.len() as int] == added);
            if before.contains(name) {
                let k = choose|k: int| 0 <= k < before.len() && before[k] == name;
                assert(all[k] == name);
            }
        }
        if exists|i: int|
            0 <= i < devices.len() && ((#[trigger] devices[i]) matches Some(device)
                && crate::snapshots::dataset_of(datasets, device) == Some(name)) {
            let i = choose|i: int|
                0 <= i < devices.len() && ((#[trigger] devices[i]) matches Some(device)
                    && crate::snapshots::dataset_of(datasets, device) == Some(name));
            if i < inner.len() {
                assert(inner[i] == devices[i]);
            }
        }
        if before.contains(name) {
            let i = choose|i: int|
                0 <= i < inner.len() && ((#[trigger] inner[i]) matches Some(device)
                    && crate::snapshots::dataset_of(datasets, device) == Some(name));
            assert(devices[i] == inner[i]);
        }
    }
}

// ---------------------------------------------------------------------------------------------
// What a move leaves behind.
// ---------------------------------------------------------------------------------------------
/// The paths that a move affects are where each item was and where it went.
pub proof fn law_a_move_affects_both_ends(moved: Seq<(PathView, PathView)>, i: int)
    requires
        0 <= i < moved.len(),
    ensures
        crate::moves::affected_paths(moved).contains(moved[i].0),
        crate::moves::affected_paths(moved).contains(moved[i].1),
        crate::moves::affected_paths(moved).len() == 2 * moved.len(),
    decreases moved.len(),
{
    let before = crate::moves::affected_paths(moved.drop_last());
    let all = crate::moves::affected_paths(moved);
    assert(all[before.len() as int] == moved.last().0);
    assert(all[before.len() as int + 1] == moved.last().1);
    if moved.drop_last().len() > 0 {
        law_a_move_affects_both_ends(
            moved.drop_last(),
            if i < moved.len() - 1 {
                i
            } else {
                0
            },
        );
    }
    if i < moved.len() - 1 {
        assert(moved.drop_last()[i] == moved[i]);
        let j = choose|j: int| 0 <= j < before.len() && before[j] == moved[i].0;
        let k = choose|k: int| 0 <= k < before.len() && before[k] == moved[i].1;
        assert(all[j] == moved[i].0 && all[k] == moved[i].1);
    }
}

/// What landed is logged for the undo as it stands, where anything landed; one move fewer is in
/// flight, no size of a directory above a moved path is believed, and the panels stay.
pub proof fn law_what_moved_can_be_undone(a: AppModel, o: OutcomeModel, dedup: DedupModel)
    ensures
        ({
            let b = crate::moves::move_booked(a, o, dedup);
            &&& o.moved.len() > 0 ==> b.commander.move_log == a.commander.move_log.push(o.moved)
            &&& o.moved.len() == 0 ==> b.commander.move_log == a.commander.move_log
            &&& b.commander.move_pending == if a.commander.move_pending == 0 {
                0
            } else {
                a.commander.move_pending - 1
            }
            &&& b.commander.panels == a.commander.panels && b.outbox == a.outbox
        }),
{
}

/// A directory is read again exactly where a moved item lay in it or went into it.
pub proof fn law_the_touched_panels_are_read_again(
    panels: Seq<crate::panels::PanelModel>,
    moved: Seq<(PathView, PathView)>,
    count: int,
    i: int,
)
    requires
        0 <= i < count <= panels.len() <= usize::MAX,
    ensures
        crate::moves::touched_upto(panels, moved, count, false).contains(
            LoadTarget::Commander(i as usize),
        ) <==> exists|k: int|
            0 <= k < moved.len() && (((#[trigger] moved[k]).0.parent() matches Some(from)
                && from.key() == panels[i].cwd.key()) || (moved[k].1.parent() matches Some(to)
                && to.key() == panels[i].cwd.key())),
{
    lemma_touched_upto(panels, moved, count, i);
    let dir = panels[i].cwd;
    if crate::moves::touched_dir(moved, dir) {
        let k = choose|k: int|
            0 <= k < moved.len() && (crate::moves::lies_in((#[trigger] moved[k]).0, dir)
                || crate::moves::lies_in(moved[k].1, dir));
        assert(crate::moves::lies_in(moved[k].0, dir) || crate::moves::lies_in(moved[k].1, dir));
    }
    if exists|k: int|
        0 <= k < moved.len() && (((#[trigger] moved[k]).0.parent() matches Some(from) && from.key()
            == dir.key()) || (moved[k].1.parent() matches Some(to) && to.key() == dir.key())) {
        let k = choose|k: int|
            0 <= k < moved.len() && (((#[trigger] moved[k]).0.parent() matches Some(from)
                && from.key() == dir.key()) || (moved[k].1.parent() matches Some(to) && to.key()
                == dir.key()));
        assert(crate::moves::lies_in(moved[k].0, dir) || crate::moves::lies_in(moved[k].1, dir));
    }
}

proof fn lemma_touched_upto(
    panels: Seq<crate::panels::PanelModel>,
    moved: Seq<(PathView, PathView)>,
    count: int,
    i: int,
)
    requires
        0 <= i < panels.len() <= usize::MAX,
        0 <= count <= panels.len(),
    ensures
        crate::moves::touched_upto(panels, moved, count, false).contains(
            LoadTarget::Commander(i as usize),
        ) <==> i < count && crate::moves::touched_dir(moved, panels[i].cwd),
    decreases count,
{
    if count > 0 {
        lemma_touched_upto(panels, moved, count - 1, i);
        let before = crate::moves::touched_upto(panels, moved, count - 1, false);
        let all = crate::moves::touched_upto(panels, moved, count, false);
        let here = LoadTarget::Commander(i as usize);
        if all != before {
            let added = LoadTarget::Commander((count - 1) as usize);
            assert(all == before.push(added));
            assert(all[before.len() as int] == added);
            if before.contains(here) {
                let k = choose|k: int| 0 <= k < before.len() && before[k] == here;
                assert(all[k] == here);
            }
        }
    }
}

/// `u` puts the last move back: each item from where it went to where it was, the last first.
pub proof fn law_u_puts_the_last_move_back(a: AppModel)
    ensures
        ({
            let b = crate::moves::undo_started(a);
            let log = a.commander.move_log;
            &&& log.len() == 0 ==> b.outbox == a.outbox && b.commander.move_log == log
            &&& log.len() > 0 ==> {
                &&& b.outbox.len() == a.outbox.len() + 1 && b.outbox.drop_last() == a.outbox
                &&& b.outbox.last() matches EffectModel::Restore(items) && items.len()
                    == log.last().len() && forall|i: int|
                    0 <= i < items.len() ==> (#[trigger] items[i]) == log.last()[log.last().len()
                        - 1 - i]
                &&& b.commander.move_log == log.drop_last()
            }
            &&& b.commander.panels == a.commander.panels
        }),
{
    let b = crate::moves::undo_started(a);
    if a.commander.move_log.len() > 0 {
        assert(b.outbox.drop_last() =~= a.outbox);
    }
}

/// A failed move says so; a move that worked says how many items went, how many did not, and how
/// many were duplicates, where there were any.
pub proof fn law_the_outcome_is_told(o: OutcomeModel)
    ensures
        ({
            let told = crate::moves::move_status(o);
            let n = crate::text::decimal(o.moved.len());
            let failed = crate::text::decimal(o.failed as nat);
            let dups = crate::text::decimal(o.dups as nat);
            let to = "→ "@ + o.label;
            &&& o.error matches Some(error) ==> told == to + ": move failed — "@ + error
            &&& o.error is None && o.failed == 0 && o.dups == 0 ==> told == to + ": moved "@ + n
            &&& o.error is None && o.failed > 0 && o.dups == 0 ==> told == to + ": moved "@ + n
                + ", errors "@ + failed + " (reasons in dedcom.log)"@
            &&& o.error is None && o.failed == 0 && o.dups > 0 ==> told == to + ": moved "@ + n
                + " · duplicates: "@ + dups
            &&& o.error is None && o.failed > 0 && o.dups > 0 ==> told == to + ": moved "@ + n
                + ", errors "@ + failed + " (reasons in dedcom.log)"@ + " · duplicates: "@ + dups
        }),
{
}

/// After an undo the status says how many came back and how many did not.
pub proof fn law_an_undo_is_told(
    a: AppModel,
    items: Seq<(PathView, PathView)>,
    failed: usize,
)
    requires
        failed <= items.len(),
    ensures
        failed == 0 ==> crate::moves::undo_status((items.len() - failed) as nat, failed as nat)
            == "Undone: restored "@ + crate::text::decimal(items.len()),
        failed > 0 ==> crate::moves::undo_status((items.len() - failed) as nat, failed as nat)
            == "Partially undone: restored "@ + crate::text::decimal(
            (items.len() - failed) as nat,
        ) + ", errors "@ + crate::text::decimal(failed as nat),
{
}

// ---------------------------------------------------------------------------------------------
// Answers.
// ---------------------------------------------------------------------------------------------
/// A measured size is kept for the directory that was measured, which is waited for no more; every
/// other size and every other question stays.
pub proof fn law_a_size_is_kept_for_its_directory(
    a: AppModel,
    path: PathView,
    size: u64,
    other: PathKey,
)
    requires
        other != path.key(),
    ensures
        ({
            let b = crate::answers::size_recorded(a, path, size);
            &&& b.commander.dir_size_cache.contains_pair(path.key(), size)
            &&& !b.commander.dir_size_pending.dom().contains(path.key())
            &&& b.commander.dir_size_cache.dom().contains(other)
                == a.commander.dir_size_cache.dom().contains(other)
            &&& a.commander.dir_size_cache.dom().contains(other)
                ==> b.commander.dir_size_cache[other] == a.commander.dir_size_cache[other]
            &&& b.commander.dir_size_pending.dom().contains(other)
                == a.commander.dir_size_pending.dom().contains(other)
            &&& b.commander.panels == a.commander.panels && b.outbox == a.outbox
        }),
{
}

/// What the store says of a directory, or why it cannot be read, is kept for that directory, which
/// is waited for no more; what is known of every other stays.
pub proof fn law_a_standing_is_kept_for_its_directory(
    a: AppModel,
    cwd: PathView,
    dir: Result<crate::dedup::DirDedup, String>,
    other: PathKey,
)
    requires
        other != cwd.key(),
    ensures
        ({
            let b = crate::answers::standing_known(a, cwd, dir);
            &&& b.commander.dedup.by_cwd.contains_pair(cwd.key(), dir)
            &&& !b.commander.dedup.pending.dom().contains(cwd.key())
            &&& b.commander.dedup.by_cwd.dom().contains(other)
                == a.commander.dedup.by_cwd.dom().contains(other)
            &&& a.commander.dedup.by_cwd.dom().contains(other) ==> b.commander.dedup.by_cwd[other]
                == a.commander.dedup.by_cwd[other]
            &&& b.commander.dedup.pending.dom().contains(other)
                == a.commander.dedup.pending.dom().contains(other)
            &&& b.commander.panels == a.commander.panels && b.outbox == a.outbox
        }),
{
}

/// A list of sessions is shown while it is the one that is waited for; a failure keeps the list
/// that was shown. Either way nothing is waited for any more.
pub proof fn law_the_sessions_asked_for_are_shown(
    s: crate::sessions::SessionsState,
    generation: u64,
    found: Vec<crate::model::ResumeInfo>,
    why: String,
)
    ensures
        generation != s.generation ==> crate::answers::sessions_settled(s, generation, Ok(found))
            == s,
        generation == s.generation ==> ({
            let t = crate::answers::sessions_settled(s, generation, Ok(found));
            &&& t.sessions == found && !t.loading
            &&& t.cursor == if s.cursor < found@.len() {
                s.cursor
            } else {
                0
            }
        }),
        generation == s.generation ==> ({
            let t = crate::answers::sessions_settled(s, generation, Err(why));
            t.sessions == s.sessions && !t.loading && t.cursor == s.cursor
        }),
{
}

/// The first two panels start in the first two directories given; with one given both start in it,
/// with none at the root.
pub proof fn law_the_panels_start_where_they_are_told(dirs: Seq<PathView>)
    ensures
        dirs.len() >= 1 ==> crate::app::first_start(dirs) == dirs[0],
        dirs.len() >= 2 ==> crate::app::second_start(dirs) == dirs[1],
        dirs.len() == 1 ==> crate::app::second_start(dirs) == dirs[0],
        dirs.len() == 0 ==> crate::app::first_start(dirs) == crate::path::path_of(seq!['/' as u8])
            && crate::app::second_start(dirs) == crate::path::path_of(seq!['/' as u8]),
{
}

} // verus!
