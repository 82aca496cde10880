//! What a finished move does to the commander, and how one is taken back.

use vstd::prelude::*;

use crate::app::{App, AppModel, CommanderModel, CommanderState, DedupModel, Effect, EffectModel};
use crate::dedup::DedupCache;
use crate::navigate::{reload_panel, reload_target};
use crate::panels::{Panel, PanelModel};
use crate::path::{FilePath, PathView};
use crate::sizes::{invalidate_dir_sizes, push_path, refresh_affected_dir_sizes};
use crate::state::{BoardModel, LoadTarget, MoveRecord};
use crate::text::push_usize;

verus! {

/// Result of a background move batch.
#[derive(Debug, Clone)]
pub struct MoveBatchOutcome {
    /// Pairs (from, to) for the Undo log.
    pub moved: Vec<(FilePath, FilePath)>,
    /// Known hashes of moved files — into the in-memory index.
    pub hashes: Vec<(FilePath, [u8; 32])>,
    /// Moved files without a known hash — to be hashed in the background.
    pub to_hash: Vec<FilePath>,
    /// How many items failed to move.
    pub failed: usize,
    /// How many were moved as duplicates (name `name.dupN`).
    pub dups: usize,
    /// Which panels to re-read and where to put the cursor.
    pub reload: Vec<(LoadTarget, Option<FilePath>)>,
    /// Label for the status line (e.g. «receiver 2» / «panel 2»).
    pub label: String,
    /// The batch died instead of returning: there is no breakdown by item.
    pub error: Option<String>,
}

/// The content of a move's result.
pub struct OutcomeModel {
    pub moved: Seq<(PathView, PathView)>,
    pub hashes: Seq<(FilePath, [u8; 32])>,
    pub to_hash: Seq<PathView>,
    pub failed: usize,
    pub dups: usize,
    pub reload: Seq<(LoadTarget, Option<PathView>)>,
    pub label: Seq<char>,
    pub error: Option<Seq<char>>,
}

impl View for MoveBatchOutcome {
    type V = OutcomeModel;

    open spec fn view(&self) -> OutcomeModel {
        OutcomeModel {
            moved: crate::state::pairs_model(self.moved@),
            hashes: self.hashes@,
            to_hash: crate::model::paths_model(self.to_hash@),
            failed: self.failed,
            dups: self.dups,
            reload: crate::state::reload_model(self.reload@),
            label: self.label@,
            error: crate::triage::failure_model(self.error),
        }
    }
}

impl Default for MoveBatchOutcome {
    fn default() -> (r: MoveBatchOutcome)
        ensures
            r@.moved == Seq::<(PathView, PathView)>::empty(),
            r@.hashes == Seq::<(FilePath, [u8; 32])>::empty(),
            r@.to_hash == Seq::<PathView>::empty(),
            r@.reload == Seq::<(LoadTarget, Option<PathView>)>::empty(),
            r@.label == Seq::<char>::empty(),
            r.failed == 0,
            r.dups == 0,
            r.error is None,
    {
        MoveBatchOutcome {
            moved: Vec::new(),
            hashes: Vec::new(),
            to_hash: Vec::new(),
            failed: 0,
            dups: 0,
            reload: Vec::new(),
            label: String::new(),
            error: None,
        }
    }
}

// ---------------------------------------------------------------------------------------------
// Which panels a move touched.
// ---------------------------------------------------------------------------------------------
/// The paths that a move left and reached, in turn.
pub open spec fn affected_paths(moved: Seq<(PathView, PathView)>) -> Seq<PathView>
    decreases moved.len(),
{
    if moved.len() == 0 {
        Seq::empty()
    } else {
        affected_paths(moved.drop_last()).push(moved.last().0).push(moved.last().1)
    }
}

/// The paths that a move left and reached.
pub fn affected_of(moved: &Vec<(FilePath, FilePath)>) -> (r: Vec<FilePath>)
    ensures
        crate::model::paths_model(r@) == affected_paths(crate::state::pairs_model(moved@)),
{
    let ghost all = crate::state::pairs_model(moved@);
    let mut out: Vec<FilePath> = Vec::new();
    let mut i: usize = 0;
    assert(crate::model::paths_model(out@) =~= Seq::empty());
    while i < moved.len()
        invariant
            i <= moved@.len(),
            all == crate::state::pairs_model(moved@),
            crate::model::paths_model(out@) == affected_paths(all.take(i as int)),
        decreases moved@.len() - i,
    {
        assert(all.take(i as int + 1).drop_last() =~= all.take(i as int));
        push_path(&mut out, moved[i].0.copy());
        push_path(&mut out, moved[i].1.copy());
        i = i + 1;
    }
    assert(all.take(all.len() as int) =~= all);
    out
}

/// Something moved into a directory or out of it.
pub open spec fn touched_dir(moved: Seq<(PathView, PathView)>, dir: PathView) -> bool {
    exists|i: int|
        0 <= i < moved.len() && (lies_in((#[trigger] moved[i]).0, dir) || lies_in(moved[i].1, dir))
}

/// A path lies directly in a directory.
pub open spec fn lies_in(path: PathView, dir: PathView) -> bool {
    path.parent() matches Some(parent) && parent.key() == dir.key()
}

fn is_parent(path: &FilePath, dir: &FilePath) -> (r: bool)
    ensures
        r == lies_in(path@, dir@),
{
    match path.parent() {
        Some(parent) => parent.same(dir),
        None => false,
    }
}

fn is_touched_dir(moved: &Vec<(FilePath, FilePath)>, dir: &FilePath) -> (r: bool)
    ensures
        r == touched_dir(crate::state::pairs_model(moved@), dir@),
{
    let ghost all = crate::state::pairs_model(moved@);
    let mut i: usize = 0;
    while i < moved.len()
        invariant
            i <= moved@.len(),
            all == crate::state::pairs_model(moved@),
            forall|k: int|
                0 <= k < i ==> !lies_in((#[trigger] all[k]).0, dir@) && !lies_in(all[k].1, dir@),
        decreases moved@.len() - i,
    {
        assert(all[i as int] == (moved@[i as int].0@, moved@[i as int].1@));
        if is_parent(&moved[i].0, dir) || is_parent(&moved[i].1, dir) {
            return true;
        }
        i = i + 1;
    }
    false
}

/// The first panels of a row that show a touched directory.
pub open spec fn touched_upto(
    panels: Seq<PanelModel>,
    moved: Seq<(PathView, PathView)>,
    count: int,
    board: bool,
) -> Seq<LoadTarget>
    decreases count,
{
    if count <= 0 {
        Seq::empty()
    } else {
        let before = touched_upto(panels, moved, count - 1, board);
        if touched_dir(moved, panels[count - 1].cwd) {
            before.push(
                if board {
                    LoadTarget::BoardReceiver((count - 1) as usize)
                } else {
                    LoadTarget::Commander((count - 1) as usize)
                },
            )
        } else {
            before
        }
    }
}

/// The panels of the Board that show a touched directory.
pub open spec fn touched_board(board: BoardModel, moved: Seq<(PathView, PathView)>) -> Seq<
    LoadTarget,
> {
    (if touched_dir(moved, board.source.cwd) {
        seq![LoadTarget::BoardSource]
    } else {
        Seq::empty()
    }) + touched_upto(board.receivers, moved, board.receivers.len() as int, true)
}

/// Every open panel that shows a touched directory: the Board's, then the commander's.
pub open spec fn touched_targets(c: CommanderModel, moved: Seq<(PathView, PathView)>) -> Seq<
    LoadTarget,
> {
    (match c.board {
        Some(board) => touched_board(board, moved),
        None => Seq::empty(),
    }) + touched_upto(c.panels, moved, c.panels.len() as int, false)
}

fn push_touched(
    targets: &mut Vec<LoadTarget>,
    panels: &Vec<Panel>,
    moved: &Vec<(FilePath, FilePath)>,
    board: bool,
)
    ensures
        final(targets)@ == old(targets)@ + touched_upto(
            crate::state::panels_model(panels@),
            crate::state::pairs_model(moved@),
            panels@.len() as int,
            board,
        ),
{
    let ghost before = targets@;
    let ghost all = crate::state::panels_model(panels@);
    let ghost pairs = crate::state::pairs_model(moved@);
    let mut i: usize = 0;
    assert(targets@ =~= before + touched_upto(all, pairs, 0, board));
    while i < panels.len()
        invariant
            i <= panels@.len(),
            all == crate::state::panels_model(panels@),
            pairs == crate::state::pairs_model(moved@),
            targets@ == before + touched_upto(all, pairs, i as int, board),
        decreases panels@.len() - i,
    {
        assert(all[i as int] == panels@[i as int]@);
        let ghost upto = touched_upto(all, pairs, i as int, board);
        if is_touched_dir(moved, &panels[i].cwd) {
            let target = if board {
                LoadTarget::BoardReceiver(i)
            } else {
                LoadTarget::Commander(i)
            };
            targets.push(target);
            assert(before + upto.push(target) =~= (before + upto).push(target));
        }
        i = i + 1;
    }
}

fn targets_of(commander: &CommanderState, moved: &Vec<(FilePath, FilePath)>) -> (r: Vec<LoadTarget>)
    ensures
        r@ == touched_targets(commander@, crate::state::pairs_model(moved@)),
{
    let ghost pairs = crate::state::pairs_model(moved@);
    let mut targets: Vec<LoadTarget> = Vec::new();
    match &commander.board {
        Some(board) => {
            if is_touched_dir(moved, &board.source.cwd) {
                targets.push(LoadTarget::BoardSource);
            }
            push_touched(&mut targets, &board.receivers, moved, true);
            assert(targets@ =~= touched_board(board@, pairs));
        },
        None => {},
    }
    let ghost upper = targets@;
    push_touched(&mut targets, &commander.panels, moved, false);
    assert(commander@.panels.len() == commander.panels@.len());
    assert(targets@ =~= touched_targets(commander@, pairs));
    targets
}

/// Panels read again one after the other, but for those that already were.
pub open spec fn others_reloaded(
    a: AppModel,
    targets: Seq<LoadTarget>,
    already: Seq<LoadTarget>,
) -> AppModel
    decreases targets.len(),
{
    if targets.len() == 0 {
        a
    } else {
        let before = others_reloaded(a, targets.drop_last(), already);
        if already.contains(targets.last()) {
            before
        } else {
            crate::navigate::reloaded(before, targets.last(), None)
        }
    }
}

fn holds_target(targets: &Vec<LoadTarget>, target: LoadTarget) -> (r: bool)
    ensures
        r == targets@.contains(target),
{
    let mut i: usize = 0;
    while i < targets.len()
        invariant
            i <= targets@.len(),
            forall|k: int| 0 <= k < i ==> targets@[k] != target,
        decreases targets@.len() - i,
    {
        if targets[i] == target {
            return true;
        }
        i = i + 1;
    }
    false
}

/// Re-reads every open panel (of the Board or the commander) whose directory is the direct parent
/// of a moved item, except those already re-read.
pub fn reload_touched_panels(
    app: &mut App,
    moved: &Vec<(FilePath, FilePath)>,
    already: &Vec<LoadTarget>,
)
    ensures
        final(app)@ == others_reloaded(
            old(app)@,
            touched_targets(old(app)@.commander, crate::state::pairs_model(moved@)),
            already@,
        ),
{
    let ghost a = app@;
    let targets = targets_of(&app.commander, moved);
    let mut i: usize = 0;
    while i < targets.len()
        invariant
            i <= targets@.len(),
            app@ == others_reloaded(a, targets@.take(i as int), already@),
        decreases targets@.len() - i,
    {
        assert(targets@.take(i as int + 1).drop_last() =~= targets@.take(i as int));
        if !holds_target(already, targets[i]) {
            reload_target(app, targets[i], None);
        }
        i = i + 1;
    }
    assert(targets@.take(targets@.len() as int) =~= targets@);
}

/// Panels read again as asked for.
pub open spec fn all_reloaded(a: AppModel, reload: Seq<(LoadTarget, Option<PathView>)>) -> AppModel
    decreases reload.len(),
{
    if reload.len() == 0 {
        a
    } else {
        crate::navigate::reloaded(
            all_reloaded(a, reload.drop_last()),
            reload.last().0,
            reload.last().1,
        )
    }
}

fn reload_asked(app: &mut App, reload: &Vec<(LoadTarget, Option<FilePath>)>)
    ensures
        final(app)@ == all_reloaded(old(app)@, crate::state::reload_model(reload@)),
{
    let ghost a = app@;
    let ghost all = crate::state::reload_model(reload@);
    let mut i: usize = 0;
    while i < reload.len()
        invariant
            i <= reload@.len(),
            all == crate::state::reload_model(reload@),
            app@ == all_reloaded(a, all.take(i as int)),
        decreases reload@.len() - i,
    {
        assert(all.take(i as int + 1).drop_last() =~= all.take(i as int));
        let keep = match &reload[i].1 {
            Some(path) => Some(path.copy()),
            None => None,
        };
        reload_target(app, reload[i].0, keep);
        i = i + 1;
    }
    assert(all.take(all.len() as int) =~= all);
}

/// The addressees of reload requests.
pub open spec fn asked_targets(reload: Seq<(LoadTarget, Option<PathView>)>) -> Seq<LoadTarget> {
    reload.map_values(|r: (LoadTarget, Option<PathView>)| r.0)
}

fn targets_asked(reload: &Vec<(LoadTarget, Option<FilePath>)>) -> (r: Vec<LoadTarget>)
    ensures
        r@ == asked_targets(crate::state::reload_model(reload@)),
{
    let mut out: Vec<LoadTarget> = Vec::new();
    let mut i: usize = 0;
    while i < reload.len()
        invariant
            i <= reload@.len(),
            out@.len() == i,
            forall|k: int| 0 <= k < i ==> out@[k] == reload@[k].0,
        decreases reload@.len() - i,
    {
        out.push(reload[i].0);
        i = i + 1;
    }
    assert(out@ =~= asked_targets(crate::state::reload_model(reload@)));
    out
}

// ---------------------------------------------------------------------------------------------
// The outcome applied.
// ---------------------------------------------------------------------------------------------
/// What the status line says of a finished move.
pub open spec fn move_status(o: OutcomeModel) -> Seq<char> {
    match o.error {
        Some(error) => "→ "@ + o.label + ": move failed — "@ + error,
        None => {
            let moved = if o.failed == 0 {
                "→ "@ + o.label + ": moved "@ + crate::text::decimal(o.moved.len())
            } else {
                "→ "@ + o.label + ": moved "@ + crate::text::decimal(o.moved.len()) + ", errors "@
                    + crate::text::decimal(o.failed as nat) + " (reasons in dedcom.log)"@
            };
            if o.dups > 0 {
                moved + " · duplicates: "@ + crate::text::decimal(o.dups as nat)
            } else {
                moved
            }
        },
    }
}

fn status_of_move(o: &MoveBatchOutcome) -> (r: String)
    ensures
        r@ == move_status(o@),
{
    assert(o@.moved.len() == o.moved@.len());
    let mut status = "→ ".to_string();
    status.push_str(o.label.as_str());
    match &o.error {
        Some(error) => {
            status.push_str(": move failed — ");
            status.push_str(error.as_str());
            return status;
        },
        None => {},
    }
    status.push_str(": moved ");
    push_usize(&mut status, o.moved.len());
    if o.failed > 0 {
        status.push_str(", errors ");
        push_usize(&mut status, o.failed);
        status.push_str(" (reasons in dedcom.log)");
    }
    if o.dups > 0 {
        status.push_str(" · duplicates: ");
        push_usize(&mut status, o.dups);
    }
    status
}

/// The books after a move: one batch less under way, the stale sizes forgotten, the moved pairs
/// in the Undo log, and the dedup data as handed in.
pub open spec fn move_booked(a: AppModel, o: OutcomeModel, dedup: DedupModel) -> AppModel {
    let c = a.commander;
    let forgotten = crate::sizes::sizes_forgotten(a, affected_paths(o.moved));
    AppModel {
        commander: CommanderModel {
            move_pending: crate::marks::less(c.move_pending),
            move_log: if o.moved.len() > 0 {
                c.move_log.push(o.moved)
            } else {
                c.move_log
            },
            dedup,
            ..forgotten.commander
        },
        ..forgotten
    }
}

/// Everything a finished move does: the books, files to hash, the status, and every panel that
/// shows a touched directory read again.
pub open spec fn move_applied(a: AppModel, o: OutcomeModel, dedup: DedupModel) -> AppModel {
    let booked = move_booked(a, o, dedup);
    let hashing = if o.to_hash.len() > 0 {
        booked.send(EffectModel::HashBatch(o.to_hash))
    } else {
        booked
    };
    let asked = all_reloaded(hashing.say(move_status(o)), o.reload);
    let others = others_reloaded(
        asked,
        touched_targets(asked.commander, o.moved),
        asked_targets(o.reload),
    );
    crate::sizes::all_enqueued(
        others,
        crate::sizes::stale_dirs(others.commander, affected_paths(o.moved)),
    )
}

fn log_move(commander: &mut CommanderState, moved: Vec<(FilePath, FilePath)>)
    ensures
        final(commander)@ == (CommanderModel {
            move_pending: crate::marks::less(old(commander)@.move_pending),
            move_log: if moved@.len() > 0 {
                old(commander)@.move_log.push(crate::state::pairs_model(moved@))
            } else {
                old(commander)@.move_log
            },
            ..old(commander)@
        }),
        final(commander).dedup == old(commander).dedup,
{
    if commander.move_pending > 0 {
        commander.move_pending = commander.move_pending - 1;
    }
    if moved.len() > 0 {
        let ghost before = commander@.move_log;
        let record = MoveRecord { items: moved };
        let ghost view = record@;
        commander.move_log.push(record);
        assert(commander@.move_log =~= before.push(view));
    }
}

fn copy_pairs(pairs: &Vec<(FilePath, FilePath)>) -> (r: Vec<(FilePath, FilePath)>)
    ensures
        crate::state::pairs_model(r@) == crate::state::pairs_model(pairs@),
        r@.len() == pairs@.len(),
{
    let ghost all = crate::state::pairs_model(pairs@);
    let mut out: Vec<(FilePath, FilePath)> = Vec::new();
    let mut i: usize = 0;
    while i < pairs.len()
        invariant
            i <= pairs@.len(),
            out@.len() == i,
            forall|k: int|
                0 <= k < i ==> (#[trigger] out@[k]).0@ == pairs@[k].0@ && out@[k].1@
                    == pairs@[k].1@,
        decreases pairs@.len() - i,
    {
        out.push((pairs[i].0.copy(), pairs[i].1.copy()));
        i = i + 1;
    }
    assert(crate::state::pairs_model(out@) =~= all);
    out
}

fn add_hashes(app: &mut App, hashes: &Vec<(FilePath, [u8; 32])>)
    ensures
        crate::dedup::hashes_added(
            old(app).commander.dedup,
            final(app).commander.dedup,
            hashes@,
        ),
        final(app)@ == (AppModel {
            commander: CommanderModel {
                dedup: final(app).commander.dedup@,
                ..old(app)@.commander
            },
            ..old(app)@
        }),
{
    app.commander.dedup.insert_hashes(hashes);
}

fn book_move(app: &mut App, o: &MoveBatchOutcome, affected: &Vec<FilePath>)
    requires
        crate::model::paths_model(affected@) == affected_paths(o@.moved),
    ensures
        crate::dedup::hashes_added(
            old(app).commander.dedup,
            final(app).commander.dedup,
            o.hashes@,
        ),
        final(app)@ == move_booked(old(app)@, o@, final(app).commander.dedup@),
{
    invalidate_dir_sizes(app, affected);
    log_move(&mut app.commander, copy_pairs(&o.moved));
    assert(o@.moved.len() == o.moved@.len());
    add_hashes(app, &o.hashes);
}

fn finish_move(app: &mut App, o: MoveBatchOutcome, affected: &Vec<FilePath>)
    requires
        crate::model::paths_model(affected@) == affected_paths(o@.moved),
    ensures
        ({
            let booked = old(app)@;
            let hashing = if o@.to_hash.len() > 0 {
                booked.send(EffectModel::HashBatch(o@.to_hash))
            } else {
                booked
            };
            let asked = all_reloaded(hashing.say(move_status(o@)), o@.reload);
            let others = others_reloaded(
                asked,
                touched_targets(asked.commander, o@.moved),
                asked_targets(o@.reload),
            );
            final(app)@ == crate::sizes::all_enqueued(
                others,
                crate::sizes::stale_dirs(others.commander, affected_paths(o@.moved)),
            )
        }),
{
    let status = status_of_move(&o);
    let explicit = targets_asked(&o.reload);
    assert(o@.to_hash.len() == o.to_hash@.len());
    if o.to_hash.len() > 0 {
        app.send(Effect::HashBatch(o.to_hash));
    }
    app.say(status);
    reload_asked(app, &o.reload);
    reload_touched_panels(app, &o.moved, &explicit);
    refresh_affected_dir_sizes(app, affected);
}

/// Applies a background move batch's result: the Undo log, the hash index, hashing of unknowns,
/// status and re-reading of panels.
pub fn apply_move_outcome(app: &mut App, outcome: MoveBatchOutcome)
    ensures
        exists|dedup: DedupCache|
            #[trigger] crate::dedup::hashes_added(
                old(app).commander.dedup,
                dedup,
                outcome.hashes@,
            ) && final(app)@ == move_applied(old(app)@, outcome@, dedup@),
{
    let affected = affected_of(&outcome.moved);
    book_move(app, &outcome, &affected);
    let ghost dedup = app.commander.dedup;
    finish_move(app, outcome, &affected);
    assert(crate::dedup::hashes_added(old(app).commander.dedup, dedup, outcome.hashes@));
}

// ---------------------------------------------------------------------------------------------
// Undo.
// ---------------------------------------------------------------------------------------------
/// The last move taken off the log and sent to be taken back, its last item first; or nothing to
/// undo.
pub open spec fn undo_started(a: AppModel) -> AppModel {
    let log = a.commander.move_log;
    if log.len() == 0 {
        a.say("Nothing to undo"@)
    } else {
        AppModel {
            commander: CommanderModel { move_log: log.drop_last(), ..a.commander },
            ..a
        }.send(EffectModel::Restore(log.last().reverse()))
    }
}

fn reversed(items: &Vec<(FilePath, FilePath)>) -> (r: Vec<(FilePath, FilePath)>)
    ensures
        crate::state::pairs_model(r@) == crate::state::pairs_model(items@).reverse(),
{
    let ghost all = crate::state::pairs_model(items@);
    let mut out: Vec<(FilePath, FilePath)> = Vec::new();
    let mut i: usize = items.len();
    while i > 0
        invariant
            i <= items@.len(),
            out@.len() == items@.len() - i,
            forall|k: int|
                0 <= k < out@.len() ==> (#[trigger] out@[k]).0@ == items@[items@.len() - 1 - k].0@
                    && out@[k].1@ == items@[items@.len() - 1 - k].1@,
        decreases i,
    {
        i = i - 1;
        out.push((items[i].0.copy(), items[i].1.copy()));
    }
    assert(crate::state::pairs_model(out@) =~= all.reverse());
    out
}

fn pop_move(app: &mut App) -> (r: Option<MoveRecord>)
    ensures
        match r {
            Some(record) => old(app)@.commander.move_log.len() > 0
                && old(app)@.commander.move_log.last() == record@ && final(app)@ == (AppModel {
                commander: CommanderModel {
                    move_log: old(app)@.commander.move_log.drop_last(),
                    ..old(app)@.commander
                },
                ..old(app)@
            }),
            None => old(app)@.commander.move_log.len() == 0 && final(app)@ == old(app)@,
        },
{
    let ghost before = app@.commander.move_log;
    assert(before.len() == app.commander.move_log@.len());
    if app.commander.move_log.len() == 0 {
        return None;
    }
    let record = app.commander.move_log.pop();
    assert(app@.commander.move_log =~= before.drop_last());
    record
}

/// `u`: undoes the last move — returns its files to their original paths, the last one first.
pub fn undo_last_move(app: &mut App)
    ensures
        final(app)@ == undo_started(old(app)@),
{
    match pop_move(app) {
        Some(record) => {
            let items = reversed(&record.items);
            app.send(Effect::Restore(items));
        },
        None => app.say_str("Nothing to undo"),
    }
}

/// What the status line says of an undone move.
pub open spec fn undo_status(restored: nat, failed: nat) -> Seq<char> {
    if failed == 0 {
        "Undone: restored "@ + crate::text::decimal(restored)
    } else {
        "Partially undone: restored "@ + crate::text::decimal(restored) + ", errors "@
            + crate::text::decimal(failed)
    }
}

/// The first panels of the commander read again.
pub open spec fn panels_reloaded(a: AppModel, count: int) -> AppModel
    decreases count,
{
    if count <= 0 {
        a
    } else {
        crate::navigate::reloaded(
            panels_reloaded(a, count - 1),
            LoadTarget::Commander((count - 1) as usize),
            None,
        )
    }
}

/// An undone move: said so, the stale sizes forgotten, every panel read again.
pub open spec fn undo_finished(a: AppModel, items: Seq<(PathView, PathView)>, failed: usize) -> AppModel {
    panels_reloaded(
        crate::sizes::sizes_forgotten(
            a.say(undo_status((items.len() - failed) as nat, failed as nat)),
            affected_paths(items),
        ),
        a.commander.panels.len() as int,
    )
}

/// Re-reads every panel of the commander.
pub fn reload_panels(app: &mut App)
    ensures
        final(app)@ == panels_reloaded(old(app)@, old(app)@.commander.panels.len() as int),
{
    let ghost a = app@;
    let count: usize = app.commander.panels.len();
    assert(a.commander.panels.len() == count);
    let mut i: usize = 0;
    while i < count
        invariant
            i <= count,
            app@ == panels_reloaded(a, i as int),
        decreases count - i,
    {
        reload_panel(app, i);
        i = i + 1;
    }
}

/// Says how an undo went.
pub fn undo_words(restored: usize, failed: usize) -> (r: String)
    ensures
        r@ == undo_status(restored as nat, failed as nat),
{
    let mut status = if failed == 0 {
        "Undone: restored ".to_string()
    } else {
        "Partially undone: restored ".to_string()
    };
    push_usize(&mut status, restored);
    if failed > 0 {
        status.push_str(", errors ");
        push_usize(&mut status, failed);
    }
    status
}

/// Applies an undo of which `failed` items could not be put back.
pub fn apply_undo(app: &mut App, items: &Vec<(FilePath, FilePath)>, failed: usize)
    requires
        failed <= items@.len(),
    ensures
        final(app)@ == undo_finished(old(app)@, crate::state::pairs_model(items@), failed),
{
    assert(crate::state::pairs_model(items@).len() == items@.len());
    let affected = affected_of(items);
    app.say(undo_words(items.len() - failed, failed));
    invalidate_dir_sizes(app, &affected);
    reload_panels(app);
}

/// An undo takes back exactly the last move, its items in the opposite order: the log is what it
/// was before that move.
pub proof fn law_undo_takes_back_the_last_move(a: AppModel, moved: Seq<(PathView, PathView)>)
    ensures
        ({
            let b = AppModel {
                commander: CommanderModel {
                    move_log: a.commander.move_log.push(moved),
                    ..a.commander
                },
                ..a
            };
            &&& undo_started(b).commander.move_log == a.commander.move_log
            &&& undo_started(b).outbox == a.outbox.push(EffectModel::Restore(moved.reverse()))
        }),
{
    assert(a.commander.move_log.push(moved).drop_last() =~= a.commander.move_log);
}

} // verus!
