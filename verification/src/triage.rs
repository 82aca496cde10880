//! Manual triage: batches of files moved from panel to panel, and back.

use vstd::prelude::*;

use crate::app::{App, AppModel, CommanderModel, CommanderState, Effect, EffectModel, Receiver};
use crate::entries::{EntryKind, EntryModel, Mark, PanelEntry};
use crate::keys::{KeyCode, KeyEvent};
use crate::panels::{Panel, PanelModel};
use crate::path::{FilePath, PathKey, PathView};
use crate::sizes::{holds_path, push_path};
use crate::state::{LoadTarget, MoveModel, MoveRequest, TriageModel, TriagePending};
use crate::text::push_usize;

verus! {

// ---------------------------------------------------------------------------------------------
// The batch.
// ---------------------------------------------------------------------------------------------
/// The selected entries of a panel, in display order.
pub open spec fn selected_paths(entries: Seq<EntryModel>, marks: Map<PathKey, Mark>) -> Seq<PathView>
    decreases entries.len(),
{
    if entries.len() == 0 {
        Seq::empty()
    } else {
        let before = selected_paths(entries.drop_last(), marks);
        let e = entries.last();
        if e.kind != EntryKind::Parent && marks.dom().contains(e.path.key()) && marks[e.path.key()]
            == Mark::Selected {
            before.push(e.path)
        } else {
            before
        }
    }
}

/// What a move takes from a panel: the selected entries, or else the one under the cursor.
pub open spec fn source_batch(p: PanelModel) -> Seq<PathView> {
    let selected = selected_paths(p.entries, p.marks);
    if selected.len() > 0 {
        selected
    } else {
        match crate::marks::selectable(p) {
            Some(entry) => seq![entry.path],
            None => Seq::empty(),
        }
    }
}

/// Panel entries (files and directories) marked selected, in display order; if there are none —
/// the single entry under the cursor (a file or directory, not `..`).
pub fn collect_source_batch(panel: &Panel) -> (r: Vec<FilePath>)
    ensures
        crate::model::paths_model(r@) == source_batch(panel@),
{
    let ghost all = panel@.entries;
    let mut selected: Vec<FilePath> = Vec::new();
    let mut i: usize = 0;
    assert(crate::model::paths_model(selected@) =~= Seq::empty());
    while i < panel.entries.len()
        invariant
            i <= panel.entries@.len(),
            all == crate::entries::entries_model(panel.entries@),
            crate::model::paths_model(selected@) == selected_paths(
                all.take(i as int),
                panel@.marks,
            ),
        decreases panel.entries@.len() - i,
    {
        assert(all.take(i as int + 1).drop_last() =~= all.take(i as int));
        assert(all[i as int] == panel.entries@[i as int]@);
        let wanted = !matches!(panel.entries[i].kind, EntryKind::Parent) && matches!(
            panel.mark_on(&panel.entries[i].path),
            Some(Mark::Selected)
        );
        if wanted {
            push_path(&mut selected, panel.entries[i].path.copy());
        }
        i = i + 1;
    }
    assert(all.take(all.len() as int) =~= all);
    assert(crate::model::paths_model(selected@).len() == selected@.len());
    if selected.len() > 0 {
        return selected;
    }
    let mut one: Vec<FilePath> = Vec::new();
    assert(crate::model::paths_model(one@) =~= Seq::empty());
    match panel.selected() {
        Some(entry) => {
            if !matches!(entry.kind, EntryKind::Parent) {
                push_path(&mut one, entry.path.copy());
                assert(crate::model::paths_model(one@) =~= seq![entry@.path]);
            }
        },
        None => {},
    }
    one
}

/// `m`: the batch fixed, the receiver awaited; or nothing to move.
pub open spec fn triage_begun(a: AppModel) -> AppModel {
    let c = a.commander;
    let sources = source_batch(c.active_panel());
    if sources.len() == 0 {
        a.say("No file under the cursor or selection to move"@)
    } else {
        AppModel {
            commander: CommanderModel {
                triage: Some(TriageModel { sources, source_panel: c.active }),
                ..c
            },
            ..a
        }
    }
}

/// `m`: starts triage — fixes the source batch, awaits the receiver digit.
pub fn begin_triage(app: &mut App)
    requires
        old(app)@.valid(),
    ensures
        final(app)@ == triage_begun(old(app)@),
{
    let active: usize = app.commander.active;
    let sources = collect_source_batch(app.commander.active_panel());
    assert(crate::model::paths_model(sources@).len() == sources@.len());
    if sources.len() == 0 {
        app.say_str("No file under the cursor or selection to move");
        return;
    }
    app.commander.triage = Some(TriagePending { sources, source_panel: active });
}

// ---------------------------------------------------------------------------------------------
// The cursor after a move.
// ---------------------------------------------------------------------------------------------
/// An entry that a move leaves behind.
pub open spec fn survives(e: EntryModel, moved: Seq<PathView>) -> bool {
    e.kind != EntryKind::Parent && !crate::path::keys_of(moved).contains(e.path.key())
}

/// The first survivor from an index on, or the number of entries.
pub open spec fn survivor_from(entries: Seq<EntryModel>, moved: Seq<PathView>, from: int) -> int
    decreases entries.len() - from,
{
    if from < 0 || from >= entries.len() {
        entries.len() as int
    } else if survives(entries[from], moved) {
        from
    } else {
        survivor_from(entries, moved, from + 1)
    }
}

/// The last survivor before an index, or -1.
pub open spec fn survivor_before(entries: Seq<EntryModel>, moved: Seq<PathView>, before: int) -> int
    decreases before,
{
    if before <= 0 || before > entries.len() {
        -1
    } else if survives(entries[before - 1], moved) {
        before - 1
    } else {
        survivor_before(entries, moved, before - 1)
    }
}

/// Where the cursor goes after a move: the first survivor from the cursor downward, otherwise the
/// nearest one upward; otherwise nowhere.
pub open spec fn survivor(p: PanelModel, moved: Seq<PathView>) -> Option<PathView> {
    let len = p.entries.len() as int;
    let cursor = if p.cursor() < len {
        p.cursor()
    } else {
        len
    };
    let down = survivor_from(p.entries, moved, cursor);
    let up = survivor_before(p.entries, moved, cursor);
    if down < len {
        Some(p.entries[down].path)
    } else if up >= 0 {
        Some(p.entries[up].path)
    } else {
        None
    }
}

fn entry_survives(entry: &PanelEntry, moved: &Vec<FilePath>) -> (r: bool)
    ensures
        r == survives(entry@, crate::model::paths_model(moved@)),
{
    !matches!(entry.kind, EntryKind::Parent) && !holds_path(moved, &entry.path)
}

/// The path of the entry the `panel` cursor will land on after moving `moved`: the first
/// surviving item (file or directory) from the cursor downward, otherwise upward; otherwise none.
pub fn next_survivor(panel: &Panel, moved: &Vec<FilePath>) -> (r: Option<FilePath>)
    ensures
        crate::panels::path_model(r) == survivor(panel@, crate::model::paths_model(moved@)),
{
    let ghost all = panel@.entries;
    let ghost gone = crate::model::paths_model(moved@);
    let len: usize = panel.entries.len();
    let cursor: usize = if panel.cursor() < len {
        panel.cursor()
    } else {
        len
    };
    let mut down: usize = cursor;
    while down < len && !entry_survives(&panel.entries[down], moved)
        invariant
            cursor <= down <= len,
            len == panel.entries@.len(),
            all == crate::entries::entries_model(panel.entries@),
            gone == crate::model::paths_model(moved@),
            survivor_from(all, gone, cursor as int) == survivor_from(all, gone, down as int),
        decreases len - down,
    {
        assert(all[down as int] == panel.entries@[down as int]@);
        down = down + 1;
    }
    if down < len {
        assert(all[down as int] == panel.entries@[down as int]@);
        return Some(panel.entries[down].path.copy());
    }
    let mut up: usize = cursor;
    while up > 0 && !entry_survives(&panel.entries[up - 1], moved)
        invariant
            up <= cursor <= len,
            len == panel.entries@.len(),
            all == crate::entries::entries_model(panel.entries@),
            gone == crate::model::paths_model(moved@),
            survivor_before(all, gone, cursor as int) == survivor_before(all, gone, up as int),
        decreases up,
    {
        assert(all[up - 1] == panel.entries@[up - 1]@);
        up = up - 1;
    }
    if up > 0 {
        assert(all[up - 1] == panel.entries@[up - 1]@);
        return Some(panel.entries[up - 1].path.copy());
    }
    None
}

proof fn lemma_survivor_from(entries: Seq<EntryModel>, moved: Seq<PathView>, from: int)
    requires
        0 <= from <= entries.len(),
    ensures
        from <= survivor_from(entries, moved, from) <= entries.len(),
        survivor_from(entries, moved, from) < entries.len() ==> survives(
            entries[survivor_from(entries, moved, from)],
            moved,
        ),
        forall|i: int|
            from <= i < survivor_from(entries, moved, from) ==> !survives(
                #[trigger] entries[i],
                moved,
            ),
    decreases entries.len() - from,
{
    if from < entries.len() && !survives(entries[from], moved) {
        lemma_survivor_from(entries, moved, from + 1);
    }
}

proof fn lemma_survivor_before(entries: Seq<EntryModel>, moved: Seq<PathView>, before: int)
    requires
        0 <= before <= entries.len(),
    ensures
        -1 <= survivor_before(entries, moved, before) < before || before == 0,
        survivor_before(entries, moved, before) < entries.len(),
        survivor_before(entries, moved, before) >= 0 ==> survives(
            entries[survivor_before(entries, moved, before)],
            moved,
        ),
        forall|i: int|
            survivor_before(entries, moved, before) < i < before && i >= 0 ==> !survives(
                #[trigger] entries[i],
                moved,
            ),
    decreases before,
{
    if before > 0 && !survives(entries[before - 1], moved) {
        lemma_survivor_before(entries, moved, before - 1);
    }
}

/// The cursor never lands on what was moved away nor on `..`, and it lands nowhere only where
/// nothing is left.
pub proof fn law_the_cursor_lands_on_a_survivor(p: PanelModel, moved: Seq<PathView>)
    ensures
        survivor(p, moved) matches Some(path) ==> !crate::path::keys_of(moved).contains(
            path.key(),
        ) && exists|i: int|
            0 <= i < p.entries.len() && (#[trigger] p.entries[i]).path == path && survives(
                p.entries[i],
                moved,
            ),
        survivor(p, moved) is None <==> forall|i: int|
            0 <= i < p.entries.len() ==> !survives(#[trigger] p.entries[i], moved),
{
    let len = p.entries.len() as int;
    let cursor = if p.cursor() < len {
        p.cursor()
    } else {
        len
    };
    lemma_survivor_from(p.entries, moved, cursor);
    lemma_survivor_before(p.entries, moved, cursor);
    let down = survivor_from(p.entries, moved, cursor);
    let up = survivor_before(p.entries, moved, cursor);
    if down < len {
        assert(p.entries[down].path == survivor(p, moved).unwrap());
    } else if up >= 0 {
        assert(p.entries[up].path == survivor(p, moved).unwrap());
    }
}

// ---------------------------------------------------------------------------------------------
// Launching a move.
// ---------------------------------------------------------------------------------------------
/// A batch sent to be moved: an observer is refused, an empty batch is nothing.
pub open spec fn move_spawned(
    a: AppModel,
    sources: Seq<PathView>,
    dest_dir: PathView,
    reload: Seq<(LoadTarget, Option<PathView>)>,
    label: Seq<char>,
) -> AppModel {
    if a.read_only {
        a.refuse_observer("moving files"@)
    } else if sources.len() == 0 {
        a
    } else {
        AppModel {
            commander: CommanderModel {
                move_pending: crate::marks::more(a.commander.move_pending),
                ..a.commander
            },
            ..a
        }.say(
            "→ "@ + label + ": moving "@ + crate::text::decimal(sources.len()) + "…"@,
        ).send(
            EffectModel::Move(
                MoveModel {
                    sources,
                    dest_dir,
                    scan_id: a.commander.dedup_scan_id,
                    reload,
                    label,
                },
            ),
        )
    }
}

fn count_move(app: &mut App)
    ensures
        final(app)@ == (AppModel {
            commander: CommanderModel {
                move_pending: crate::marks::more(old(app)@.commander.move_pending),
                ..old(app)@.commander
            },
            ..old(app)@
        }),
{
    if app.commander.move_pending < usize::MAX {
        app.commander.move_pending = app.commander.move_pending + 1;
    }
}

/// Starts the background move batch `sources` → `dest_dir`. The safeguard snapshots are the
/// caller's, before this call. `reload` — which panels to re-read and where to put the cursor
/// after completion; `label` — for the status line.
pub fn spawn_move(
    app: &mut App,
    sources: Vec<FilePath>,
    dest_dir: FilePath,
    reload: Vec<(LoadTarget, Option<FilePath>)>,
    label: String,
)
    ensures
        final(app)@ == move_spawned(
            old(app)@,
            crate::model::paths_model(sources@),
            dest_dir@,
            crate::state::reload_model(reload@),
            label@,
        ),
{
    if app.deny_if_read_only("moving files") {
        return;
    }
    assert(crate::model::paths_model(sources@).len() == sources@.len());
    if sources.len() == 0 {
        return;
    }
    let scan_id: Option<i64> = app.commander.dedup_scan_id;
    let mut status = "→ ".to_string();
    status.push_str(label.as_str());
    status.push_str(": moving ");
    push_usize(&mut status, sources.len());
    status.push_str("…");
    count_move(app);
    app.say(status);
    app.send(Effect::Move(MoveRequest { sources, dest_dir, scan_id, reload, label }));
}

/// Why a triage move to a panel cannot start, if it cannot.
pub open spec fn triage_refusal(c: CommanderModel, target: int) -> Option<Seq<char>> {
    match c.triage {
        None => None,
        Some(pending) => if target >= c.panels.len() {
            Some("No panel "@ + crate::text::decimal((target + 1) as nat))
        } else if target == pending.source_panel {
            Some("The target matches the source"@)
        } else {
            None
        },
    }
}

/// A receiver chosen: a refusal leaves the wait as it was, and otherwise the safeguard snapshots
/// come first.
pub open spec fn triage_move(a: AppModel, target: usize) -> AppModel {
    match a.commander.triage {
        None => a,
        Some(pending) => match triage_refusal(a.commander, target as int) {
            Some(message) => a.say(message),
            None => a.send(
                EffectModel::Safeguard {
                    sources: pending.sources,
                    receiver: Receiver::Panel(target),
                },
            ),
        },
    }
}

/// Copies several paths.
pub fn copy_paths(paths: &Vec<FilePath>) -> (r: Vec<FilePath>)
    ensures
        crate::model::paths_model(r@) == crate::model::paths_model(paths@),
{
    let ghost all = crate::model::paths_model(paths@);
    let mut out: Vec<FilePath> = Vec::new();
    let mut i: usize = 0;
    assert(crate::model::paths_model(out@) =~= all.take(0));
    while i < paths.len()
        invariant
            i <= paths@.len(),
            all == crate::model::paths_model(paths@),
            crate::model::paths_model(out@) == all.take(i as int),
        decreases paths@.len() - i,
    {
        push_path(&mut out, paths[i].copy());
        assert(all.take(i as int).push(all[i as int]) =~= all.take(i as int + 1));
        i = i + 1;
    }
    assert(all.take(all.len() as int) =~= all);
    out
}

fn refusal_of(commander: &CommanderState, target: usize) -> (r: Option<String>)
    requires
        target < usize::MAX,
    ensures
        match r {
            Some(text) => triage_refusal(commander@, target as int) == Some(text@),
            None => triage_refusal(commander@, target as int) is None,
        },
{
    match &commander.triage {
        Some(pending) => {
            if target >= commander.panels.len() {
                let mut text = "No panel ".to_string();
                push_usize(&mut text, target + 1);
                return Some(text);
            }
            if target == pending.source_panel {
                return Some("The target matches the source".to_string());
            }
            None
        },
        None => None,
    }
}

fn triage_sources(commander: &CommanderState) -> (r: Option<Vec<FilePath>>)
    ensures
        match r {
            Some(paths) => commander@.triage matches Some(pending) && pending.sources
                == crate::model::paths_model(paths@),
            None => commander@.triage is None,
        },
{
    match &commander.triage {
        Some(pending) => Some(copy_paths(&pending.sources)),
        None => None,
    }
}

/// Chooses panel `target` as the receiver: nothing is moved before the safeguard snapshots are
/// taken.
pub fn perform_triage_move(app: &mut App, target: usize)
    requires
        target < usize::MAX,
    ensures
        final(app)@ == triage_move(old(app)@, target),
{
    let sources = match triage_sources(&app.commander) {
        Some(sources) => sources,
        None => {
            return;
        },
    };
    match refusal_of(&app.commander, target) {
        Some(message) => app.say(message),
        None => app.send(Effect::Safeguard { sources, receiver: Receiver::Panel(target) }),
    }
}

/// Input during triage: Esc cancels, a digit names the receiver, everything else is swallowed.
pub open spec fn triage_key(a: AppModel, key: KeyEvent) -> AppModel {
    match key.code {
        KeyCode::Esc => triage_over(a).say("Move cancelled"@),
        KeyCode::Char(c) => if '1' <= c <= '4' {
            triage_move(a, (c as int - '1' as int) as usize)
        } else {
            a
        },
        _ => a,
    }
}

/// Input during triage: a digit 1-4 — the receiver, Esc — cancel, everything else is swallowed.
pub fn on_triage_key(app: &mut App, key: KeyEvent)
    ensures
        final(app)@ == triage_key(old(app)@, key),
{
    match key.code {
        KeyCode::Esc => {
            app.commander.triage = None;
            app.say_str("Move cancelled");
        },
        KeyCode::Char(c) => {
            if '1' <= c && c <= '4' {
                let target: usize = (c as u32 - 49) as usize;
                perform_triage_move(app, target);
            }
        },
        _ => {},
    }
}

/// A panel without the marks on some paths.
pub open spec fn without_marks(p: PanelModel, paths: Seq<PathView>) -> PanelModel
    decreases paths.len(),
{
    if paths.len() == 0 {
        p
    } else {
        crate::marks::with_mark(without_marks(p, paths.drop_last()), paths.last(), None)
    }
}

/// Takes the marks off some paths.
pub fn drop_marks(panel: &mut Panel, paths: &Vec<FilePath>)
    ensures
        final(panel)@ == without_marks(old(panel)@, crate::model::paths_model(paths@)),
{
    let ghost p = panel@;
    let ghost all = crate::model::paths_model(paths@);
    let mut i: usize = 0;
    while i < paths.len()
        invariant
            i <= paths@.len(),
            all == crate::model::paths_model(paths@),
            panel@ == without_marks(p, all.take(i as int)),
        decreases paths@.len() - i,
    {
        assert(all.take(i as int + 1).drop_last() =~= all.take(i as int));
        panel.marks.remove(&paths[i]);
        i = i + 1;
    }
    assert(all.take(all.len() as int) =~= all);
}

/// Nothing but marks changes, and only on those paths.
pub proof fn lemma_without_marks(p: PanelModel, paths: Seq<PathView>)
    ensures
        without_marks(p, paths).cwd == p.cwd,
        without_marks(p, paths).entries == p.entries,
        without_marks(p, paths).list == p.list,
        forall|key: PathKey|
            #[trigger] without_marks(p, paths).marks.dom().contains(key)
                <==> p.marks.dom().contains(key) && !crate::path::keys_of(paths).contains(key),
    decreases paths.len(),
{
    if paths.len() > 0 {
        lemma_without_marks(p, paths.drop_last());
        let keys = crate::path::keys_of(paths);
        let fewer = crate::path::keys_of(paths.drop_last());
        assert(fewer =~= keys.drop_last());
        assert forall|key: PathKey|
            #[trigger] without_marks(p, paths).marks.dom().contains(key)
                <==> p.marks.dom().contains(key) && !keys.contains(key) by {
            assert(keys.contains(key) <==> fewer.contains(key) || key == paths.last().key()) by {
                if keys.contains(key) {
                    let i = keys.index_of(key);
                    if i < keys.len() - 1 {
                        assert(fewer[i] == key);
                    }
                }
                if fewer.contains(key) {
                    let i = fewer.index_of(key);
                    assert(keys[i] == key);
                }
                assert(keys[keys.len() - 1] == paths.last().key());
            }
        }
    }
}

/// The wait for a receiver over.
pub open spec fn triage_over(a: AppModel) -> AppModel {
    AppModel { commander: CommanderModel { triage: None, ..a.commander }, ..a }
}

/// A triage move under way: the selection is taken off the moved entries, the
/// batch goes out, and both panels are to be read again after it.
pub open spec fn triage_launched(a: AppModel, pending: TriageModel, target: usize) -> AppModel {
    let source = pending.source_panel as int;
    let p = without_marks(a.commander.panels[source], pending.sources);
    move_spawned(
        a.with_panel(source, p),
        pending.sources,
        a.with_panel(source, p).commander.panels[target as int].cwd,
        seq![
            (LoadTarget::Commander(pending.source_panel), survivor(p, pending.sources)),
            (LoadTarget::Commander(target), None),
        ],
        "panel "@ + crate::text::decimal((target + 1) as nat),
    )
}

/// The safeguard's answer: a failure is said, and the wait and the marks are intact, so that the
/// move can be tried again.
pub open spec fn triage_answered(a: AppModel, target: usize, failure: Option<Seq<char>>) -> AppModel {
    match a.commander.triage {
        None => a,
        Some(pending) => match failure {
            Some(message) => a.say(message),
            None => if triage_refusal(a.commander, target as int) is Some || pending.source_panel
                >= a.commander.panels.len() {
                a
            } else {
                triage_launched(triage_over(a), pending, target)
            },
        },
    }
}

/// The content of a failure that may be absent.
pub open spec fn failure_model(failure: Option<String>) -> Option<Seq<char>> {
    match failure {
        Some(text) => Some(text@),
        None => None,
    }
}

fn take_triage(app: &mut App) -> (r: Option<TriagePending>)
    ensures
        match r {
            Some(pending) => old(app)@.commander.triage == Some(pending@),
            None => old(app)@.commander.triage is None,
        },
        final(app)@ == triage_over(old(app)@),
{
    app.commander.triage.take()
}

fn reload_pair(source: usize, keep: Option<FilePath>, target: usize) -> (r: Vec<
    (LoadTarget, Option<FilePath>),
>)
    ensures
        crate::state::reload_model(r@) == seq![
            (LoadTarget::Commander(source), crate::panels::path_model(keep)),
            (LoadTarget::Commander(target), None),
        ],
{
    let ghost kept = crate::panels::path_model(keep);
    let mut reload: Vec<(LoadTarget, Option<FilePath>)> = Vec::new();
    reload.push((LoadTarget::Commander(source), keep));
    reload.push((LoadTarget::Commander(target), None));
    assert(crate::state::reload_model(reload@) =~= seq![
        (LoadTarget::Commander(source), kept),
        (LoadTarget::Commander(target), None),
    ]);
    reload
}

fn launch(app: &mut App, pending: TriagePending, target: usize)
    requires
        pending.source_panel < old(app)@.commander.panels.len(),
        target < old(app)@.commander.panels.len(),
        target < usize::MAX,
    ensures
        final(app)@ == triage_launched(old(app)@, pending@, target),
{
    let source: usize = pending.source_panel;
    drop_marks(app.panel_mut(source), &pending.sources);
    assert(app@.commander.panels.len() == app.commander.panels@.len());
    assert(app@.commander.panels[source as int] == app.commander.panels@[source as int]@);
    assert(app@.commander.panels[target as int] == app.commander.panels@[target as int]@);
    let keep = next_survivor(&app.commander.panels[source], &pending.sources);
    let dest_dir = app.commander.panels[target].cwd.copy();
    let reload = reload_pair(source, keep, target);
    let mut label = "panel ".to_string();
    push_usize(&mut label, target + 1);
    spawn_move(app, pending.sources, dest_dir, reload, label);
}

fn launchable(commander: &CommanderState, target: usize) -> (r: bool)
    requires
        target < usize::MAX,
    ensures
        r == (commander@.triage matches Some(pending) && triage_refusal(
            commander@,
            target as int,
        ) is None && pending.source_panel < commander@.panels.len()),
{
    match &commander.triage {
        Some(pending) => pending.source_panel < commander.panels.len() && target
            < commander.panels.len() && target != pending.source_panel,
        None => false,
    }
}

/// Launches the move that was waiting for its safeguard snapshots, or says why there is none.
pub fn launch_triage(app: &mut App, target: usize, failure: Option<String>)
    requires
        target < usize::MAX,
    ensures
        final(app)@ == triage_answered(old(app)@, target, failure_model(failure)),
{
    if app.commander.triage.is_none() {
        return;
    }
    if let Some(message) = failure {
        app.say(message);
        return;
    }
    if !launchable(&app.commander, target) {
        return;
    }
    if let Some(pending) = take_triage(app) {
        launch(app, pending, target);
    }
}

/// A move whose safeguard failed changes nothing but the status: the batch still waits and every
/// mark still stands.
pub proof fn law_a_failed_safeguard_moves_nothing(a: AppModel, target: usize, message: Seq<char>)
    ensures
        ({
            let after = triage_answered(a, target, Some(message));
            &&& after.commander.triage == a.commander.triage
            &&& after.commander.panels == a.commander.panels
            &&& after.outbox == a.outbox
        }),
{
}

/// No file is sent to be moved by the key alone: before its safeguard has answered a batch only
/// asks for it.
pub proof fn law_nothing_moves_before_its_snapshot(a: AppModel, target: usize)
    ensures
        triage_move(a, target).outbox == a.outbox || (exists|sources: Seq<PathView>|
            triage_move(a, target).outbox == a.outbox.push(
                #[trigger] safeguard_effect(sources, target),
            )),
        triage_move(a, target).commander.triage == a.commander.triage,
{
    if let Some(pending) = a.commander.triage {
        assert(safeguard_effect(pending.sources, target) == (EffectModel::Safeguard {
            sources: pending.sources,
            receiver: Receiver::Panel(target),
        }));
    }
}

/// What moves is the batch whose safeguard was asked for, whatever the panels show and mark by the
/// time of the answer, and it moves to where the chosen panel then stands.
pub proof fn law_triage_moves_what_was_safeguarded(a: AppModel, b: AppModel, target: usize)
    requires
        !b.read_only,
        a.commander.triage matches Some(pending) && pending.sources.len() > 0
            && pending.source_panel < b.commander.panels.len(),
        triage_refusal(a.commander, target as int) is None,
        triage_refusal(b.commander, target as int) is None,
        b.commander.triage == a.commander.triage,
    ensures
        ({
            let sources = a.commander.triage->Some_0.sources;
            &&& triage_move(a, target).outbox == a.outbox.push(safeguard_effect(sources, target))
            &&& triage_answered(b, target, None).outbox.drop_last() == b.outbox
            &&& triage_answered(b, target, None).outbox.last() matches EffectModel::Move(request)
                && request.sources == sources && request.dest_dir
                == b.commander.panels[target as int].cwd
        }),
{
    let pending = a.commander.triage->Some_0;
    let source = pending.source_panel as int;
    lemma_without_marks(b.commander.panels[source], pending.sources);
    let out = triage_answered(b, target, None).outbox;
    assert(out.drop_last() =~= b.outbox);
}

/// The request for the safeguard snapshots of a batch.
pub open spec fn safeguard_effect(sources: Seq<PathView>, target: usize) -> EffectModel {
    EffectModel::Safeguard { sources, receiver: Receiver::Panel(target) }
}

} // verus!
