//! Moves: what is taken, where it goes, what is written down and how it is taken back.

use vstd::prelude::*;

use crate::app::{AppModel, EffectModel, Receiver};
use crate::batch::{Answer, BatchModel, ItemKind, StageModel, TaskModel, WantedModel};
use crate::entries::{EntryKind, EntryModel, Mark};
use crate::keys::{KeyCode, KeyEvent};
use crate::move_batch::{FileStep, Look, Reading};
use crate::panels::PanelModel;
use crate::path::{FilePath, PathKey, PathView};
use crate::state::{LoadTarget, TriageModel};

verus! {

// ---------------------------------------------------------------------------------------------
// The batch.
// ---------------------------------------------------------------------------------------------
proof fn lemma_selected(entries: Seq<EntryModel>, marks: Map<PathKey, Mark>) -> (rows: Seq<int>)
    ensures
        rows.len() == crate::triage::selected_paths(entries, marks).len(),
        forall|k: int|
            0 <= k < rows.len() ==> 0 <= (#[trigger] rows[k]) < entries.len()
                && entries[rows[k]].kind != EntryKind::Parent && marks.contains_pair(
                entries[rows[k]].path.key(),
                Mark::Selected,
            ) && crate::triage::selected_paths(entries, marks)[k] == entries[rows[k]].path,
        forall|j: int, k: int|
            0 <= j < k < rows.len() ==> (#[trigger] rows[j]) < (#[trigger] rows[k]),
        forall|i: int|
            #![trigger entries[i]]
            0 <= i < entries.len() && entries[i].kind != EntryKind::Parent && marks.contains_pair(
                entries[i].path.key(),
                Mark::Selected,
            ) ==> rows.contains(i),
    decreases entries.len(),
{
    if entries.len() == 0 {
        Seq::empty()
    } else {
        let front = entries.drop_last();
        let before = lemma_selected(front, marks);
        let e = entries.last();
        let last = entries.len() - 1;
        if e.kind != EntryKind::Parent && marks.contains_pair(e.path.key(), Mark::Selected) {
            let rows = before.push(last);
            assert forall|i: int|
                #![trigger entries[i]]
                0 <= i < entries.len() && entries[i].kind != EntryKind::Parent
                    && marks.contains_pair(
                    entries[i].path.key(),
                    Mark::Selected,
                ) implies rows.contains(i) by {
                if i < last {
                    assert(front[i] == entries[i]);
                    let k = before.index_of(i);
                    assert(rows[k] == i);
                } else {
                    assert(rows[before.len() as int] == i);
                }
            }
            assert forall|k: int| 0 <= k < rows.len() implies 0 <= (#[trigger] rows[k])
                < entries.len() && entries[rows[k]].kind != EntryKind::Parent
                && marks.contains_pair(entries[rows[k]].path.key(), Mark::Selected)
                && crate::triage::selected_paths(entries, marks)[k] == entries[rows[k]].path by {
                if k < before.len() {
                    assert(rows[k] == before[k]);
                    assert(front[before[k]] == entries[before[k]]);
                }
            }
            rows
        } else {
            assert forall|i: int|
                #![trigger entries[i]]
                0 <= i < entries.len() && entries[i].kind != EntryKind::Parent
                    && marks.contains_pair(
                    entries[i].path.key(),
                    Mark::Selected,
                ) implies before.contains(i) by {
                assert(i < last);
                assert(front[i] == entries[i]);
            }
            assert forall|k: int| 0 <= k < before.len() implies 0 <= (#[trigger] before[k])
                < entries.len() && entries[before[k]].kind != EntryKind::Parent
                && marks.contains_pair(entries[before[k]].path.key(), Mark::Selected)
                && crate::triage::selected_paths(entries, marks)[k] == entries[before[k]].path by {
                assert(front[before[k]] == entries[before[k]]);
            }
            before
        }
    }
}

/// Where entries are selected, the batch is exactly those, files and directories alike, each once
/// and in the order they are listed; `rows` are their rows.
pub proof fn law_the_batch_is_the_selection(p: PanelModel, selected: int) -> (rows: Seq<int>)
    requires
        0 <= selected < p.entries.len(),
        p.entries[selected].kind != EntryKind::Parent,
        p.marks.contains_pair(p.entries[selected].path.key(), Mark::Selected),
    ensures
        ({
            let batch = crate::triage::source_batch(p);
            &&& rows.len() == batch.len()
            &&& forall|k: int|
                0 <= k < batch.len() ==> 0 <= (#[trigger] rows[k]) < p.entries.len() && batch[k]
                    == p.entries[rows[k]].path
            &&& forall|j: int, k: int|
                0 <= j < k < rows.len() ==> (#[trigger] rows[j]) < (#[trigger] rows[k])
            &&& forall|i: int|
                #![trigger p.entries[i]]
                0 <= i < p.entries.len() ==> (rows.contains(i) <==> (p.entries[i].kind
                    == EntryKind::File || p.entries[i].kind == EntryKind::Dir)
                    && p.marks.contains_pair(p.entries[i].path.key(), Mark::Selected))
        }),
{
    let rows = lemma_selected(p.entries, p.marks);
    assert(rows.contains(selected));
    assert forall|i: int|
        #![trigger p.entries[i]]
        0 <= i < p.entries.len() && rows.contains(i) implies p.entries[i].kind != EntryKind::Parent
            && p.marks.contains_pair(p.entries[i].path.key(), Mark::Selected) by {
        let k = rows.index_of(i);
        assert(rows[k] == i);
    }
    rows
}

/// Where nothing is selected, the batch is the one entry under the cursor, a file or a directory;
/// it is empty where the cursor is on `..` or on nothing.
pub proof fn law_the_batch_falls_back_to_the_cursor(p: PanelModel, at: int)
    requires
        p.list.selected == Some(at as usize) || (p.list.selected is None && at == 0),
        0 <= at <= usize::MAX,
        forall|i: int|
            #![trigger p.entries[i]]
            0 <= i < p.entries.len() && p.entries[i].kind != EntryKind::Parent
                ==> !p.marks.contains_pair(p.entries[i].path.key(), Mark::Selected),
    ensures
        at < p.entries.len() && p.entries[at].kind != EntryKind::Parent
            ==> crate::triage::source_batch(p) == seq![p.entries[at].path],
        at >= p.entries.len() || p.entries[at].kind == EntryKind::Parent
            ==> crate::triage::source_batch(p).len() == 0,
{
    let rows = lemma_selected(p.entries, p.marks);
    if rows.len() > 0 {
        assert(0 <= rows[0] < p.entries.len());
        assert(p.marks.contains_pair(p.entries[rows[0]].path.key(), Mark::Selected));
    }
}

/// `m` fixes the batch of the active panel and remembers the panel; nothing is sent, no mark
/// changes.
pub proof fn law_m_holds_the_batch(a: AppModel)
    requires
        a.valid(),
    ensures
        ({
            let batch = crate::triage::source_batch(a.commander.panels[a.commander.active as int]);
            let b = crate::triage::triage_begun(a);
            &&& b.outbox == a.outbox && b.commander.panels == a.commander.panels
            &&& batch.len() > 0 ==> b.commander.triage == Some(
                TriageModel { sources: batch, source_panel: a.commander.active },
            )
            &&& batch.len() == 0 ==> b.commander.triage == a.commander.triage
        }),
{
}

/// While a receiver is awaited, a digit names the panel of that number, counted from one; the
/// waiting batch, whole, is handed to the safeguard for that panel. The source itself and a panel
/// that is not there are refused, Esc gives up, and every other key is swallowed.
pub proof fn law_a_digit_names_the_receiver(a: AppModel, key: KeyEvent, pending: TriageModel)
    requires
        a.commander.triage == Some(pending),
    ensures
        ({
            let b = crate::triage::triage_key(a, key);
            let sent = |n: int|
                if n - 1 < a.commander.panels.len() && n - 1 != pending.source_panel {
                    b.outbox == a.outbox.push(
                        EffectModel::Safeguard {
                            sources: pending.sources,
                            receiver: Receiver::Panel((n - 1) as usize),
                        },
                    )
                } else {
                    b.outbox == a.outbox
                };
            &&& key.code == KeyCode::Char('1') ==> sent(1)
            &&& key.code == KeyCode::Char('2') ==> sent(2)
            &&& key.code == KeyCode::Char('3') ==> sent(3)
            &&& key.code == KeyCode::Char('4') ==> sent(4)
            &&& key.code == KeyCode::Esc ==> b.commander.triage is None && b.outbox == a.outbox
            &&& key.code != KeyCode::Esc ==> b.commander.triage == Some(pending)
            &&& !(key.code == KeyCode::Char('1') || key.code == KeyCode::Char('2') || key.code
                == KeyCode::Char('3') || key.code == KeyCode::Char('4') || key.code
                == KeyCode::Esc) ==> b == a
            &&& b.commander.panels == a.commander.panels
        }),
{
}

proof fn lemma_other_marks(p: PanelModel, paths: Seq<PathView>, key: PathKey)
    ensures
        !crate::path::keys_of(paths).contains(key) ==> (crate::triage::without_marks(
            p,
            paths,
        ).marks.dom().contains(key) <==> p.marks.dom().contains(key)) && (
        p.marks.dom().contains(key) ==> crate::triage::without_marks(p, paths).marks[key]
            == p.marks[key]),
    decreases paths.len(),
{
    if paths.len() > 0 {
        let keys = crate::path::keys_of(paths);
        let fewer = crate::path::keys_of(paths.drop_last());
        lemma_other_marks(p, paths.drop_last(), key);
        if !keys.contains(key) {
            assert(!fewer.contains(key)) by {
                if fewer.contains(key) {
                    let i = fewer.index_of(key);
                    assert(keys[i] == key);
                }
            }
            assert(keys[keys.len() - 1] == paths.last().key());
        }
    }
}

/// Once the safeguard stands, the batch and nothing else is sent to the chosen panel's directory,
/// the wait is over, the moved entries lose their marks and every other mark stays; the two panels
/// are to be read again, and the move is named after the receiver.
pub proof fn law_the_safeguarded_batch_moves(
    a: AppModel,
    pending: TriageModel,
    target: usize,
    key: PathKey,
)
    requires
        a.commander.triage == Some(pending),
        !a.read_only,
        pending.sources.len() > 0,
        pending.source_panel < a.commander.panels.len(),
        target < a.commander.panels.len(),
        target != pending.source_panel,
    ensures
        ({
            let b = crate::triage::triage_answered(a, target, None);
            let from = pending.source_panel as int;
            let p = a.commander.panels[from];
            let q = b.commander.panels[from];
            &&& b.commander.triage is None
            &&& b.outbox.len() == a.outbox.len() + 1 && b.outbox.drop_last() == a.outbox
            &&& b.outbox.last() matches EffectModel::Move(m) && {
                &&& m.sources == pending.sources
                &&& m.dest_dir == a.commander.panels[target as int].cwd
                &&& m.scan_id == a.commander.dedup_scan_id
                &&& m.reload.len() == 2
                &&& m.reload[0].0 == LoadTarget::Commander(pending.source_panel)
                &&& m.reload[1] == (LoadTarget::Commander(target), None::<PathView>)
                &&& m.label == "panel "@ + crate::text::decimal((target + 1) as nat)
            }
            &&& q.entries == p.entries && q.cwd == p.cwd
            &&& crate::path::keys_of(pending.sources).contains(key) ==> !q.marks.dom().contains(key)
            &&& !crate::path::keys_of(pending.sources).contains(key) ==> (
            q.marks.dom().contains(key) <==> p.marks.dom().contains(key))
            &&& !crate::path::keys_of(pending.sources).contains(key) && p.marks.dom().contains(key)
                ==> q.marks[key] == p.marks[key]
            &&& forall|j: int|
                0 <= j < a.commander.panels.len() && j != from ==> (#[trigger] b.commander.panels[j])
                    == a.commander.panels[j]
            &&& a.commander.move_pending < usize::MAX ==> b.commander.move_pending
                == a.commander.move_pending + 1
        }),
{
    let p = a.commander.panels[pending.source_panel as int];
    crate::triage::lemma_without_marks(p, pending.sources);
    lemma_other_marks(p, pending.sources, key);
    let b = crate::triage::triage_answered(a, target, None);
    assert(b.outbox.drop_last() =~= a.outbox);
}

/// An observer moves nothing: no batch is sent, whatever it is and wherever it would go.
pub proof fn law_an_observer_moves_nothing(
    a: AppModel,
    sources: Seq<PathView>,
    dest: PathView,
    reload: Seq<(LoadTarget, Option<PathView>)>,
    label: Seq<char>,
)
    requires
        a.read_only,
    ensures
        crate::triage::move_spawned(a, sources, dest, reload, label).outbox == a.outbox,
        crate::triage::move_spawned(a, sources, dest, reload, label).commander.panels
            == a.commander.panels,
{
}

proof fn lemma_down(entries: Seq<EntryModel>, moved: Seq<PathView>, from: int)
    requires
        0 <= from <= entries.len(),
    ensures
        from <= crate::triage::survivor_from(entries, moved, from) <= entries.len(),
        forall|i: int|
            #![trigger entries[i]]
            from <= i < crate::triage::survivor_from(entries, moved, from) ==> entries[i].kind
                == EntryKind::Parent || crate::path::keys_of(moved).contains(
                entries[i].path.key(),
            ),
        crate::triage::survivor_from(entries, moved, from) < entries.len() ==> {
            let e = entries[crate::triage::survivor_from(entries, moved, from)];
            e.kind != EntryKind::Parent && !crate::path::keys_of(moved).contains(e.path.key())
        },
    decreases entries.len() - from,
{
    if from < entries.len() && !crate::triage::survives(entries[from], moved) {
        lemma_down(entries, moved, from + 1);
    }
}

proof fn lemma_up(entries: Seq<EntryModel>, moved: Seq<PathView>, before: int)
    requires
        0 <= before <= entries.len(),
    ensures
        -1 <= crate::triage::survivor_before(entries, moved, before) < before || before == 0,
        crate::triage::survivor_before(entries, moved, before) >= -1,
        forall|i: int|
            #![trigger entries[i]]
            crate::triage::survivor_before(entries, moved, before) < i < before && 0 <= i
                ==> entries[i].kind == EntryKind::Parent || crate::path::keys_of(moved).contains(
                entries[i].path.key(),
            ),
        crate::triage::survivor_before(entries, moved, before) >= 0 ==> {
            let e = entries[crate::triage::survivor_before(entries, moved, before)];
            e.kind != EntryKind::Parent && !crate::path::keys_of(moved).contains(e.path.key())
        },
    decreases before,
{
    if before > 0 && !crate::triage::survives(entries[before - 1], moved) {
        lemma_up(entries, moved, before - 1);
    }
}

/// After a move the cursor is to land on the first entry from the cursor downward that stays, and
/// only where all of those are gone on the nearest one above.
pub proof fn law_the_cursor_steps_down_before_up(p: PanelModel, moved: Seq<PathView>, stays: int)
    requires
        0 <= stays < p.entries.len(),
        p.entries[stays].kind != EntryKind::Parent,
        !crate::path::keys_of(moved).contains(p.entries[stays].path.key()),
        p.list.selected is Some,
    ensures
        exists|i: int|
            #![trigger p.entries[i]]
            0 <= i < p.entries.len() && crate::triage::survivor(p, moved) == Some(p.entries[i].path)
                && p.entries[i].kind != EntryKind::Parent && !crate::path::keys_of(moved).contains(
                p.entries[i].path.key(),
            ) && (stays >= p.list.selected->Some_0 ==> p.list.selected->Some_0 <= i <= stays) && (
            stays < p.list.selected->Some_0 ==> i >= stays),
{
    let len = p.entries.len() as int;
    let cursor = if p.cursor() < len {
        p.cursor()
    } else {
        len
    };
    lemma_down(p.entries, moved, cursor);
    lemma_up(p.entries, moved, cursor);
    let down = crate::triage::survivor_from(p.entries, moved, cursor);
    let up = crate::triage::survivor_before(p.entries, moved, cursor);
    let e = p.entries[stays];
    if down < len {
        let found = p.entries[down];
    } else {
        assert(up >= 0);
        let found = p.entries[up];
    }
}

// ---------------------------------------------------------------------------------------------
// The Board.
// ---------------------------------------------------------------------------------------------
/// On the Board a digit sends the batch of the focused panel, the source where the focus is there
/// and else the receiver of that number, to the receiver of the digit; the batch is held until the
/// safeguard answers, and a panel never sends to itself.
pub proof fn law_a_board_digit_sends_the_focused_batch(a: AppModel, receiver: usize)
    requires
        a.commander.board matches Some(board) && board.valid(),
        receiver < 4,
    ensures
        ({
            let board = a.commander.board->Some_0;
            let from = if board.focus == 0 {
                board.source
            } else {
                board.receivers[board.focus - 1]
            };
            let batch = crate::triage::source_batch(from);
            let b = crate::board::board_send(a, receiver);
            &&& board.focus == receiver + 1 || batch.len() == 0 ==> b.outbox == a.outbox
                && b.commander.board == a.commander.board
            &&& board.focus != receiver + 1 && batch.len() > 0 ==> b.outbox == a.outbox.push(
                EffectModel::Safeguard { sources: batch, receiver: Receiver::Board(receiver) },
            ) && (b.commander.board matches Some(later) && later.sending == Some(
                TriageModel { sources: batch, source_panel: board.focus },
            ) && later.source == board.source && later.receivers == board.receivers && later.focus
                == board.focus)
        }),
{
}

/// Once the safeguard stands, the held batch goes to the directory of the receiver that was named,
/// and is no longer held.
pub proof fn law_the_held_batch_moves(a: AppModel, receiver: usize, batch: TriageModel)
    requires
        !a.read_only,
        a.commander.board matches Some(board) && board.valid() && board.sending == Some(batch),
        batch.sources.len() > 0,
        batch.source_panel <= 4,
        receiver < 4,
    ensures
        ({
            let board = a.commander.board->Some_0;
            let b = crate::board::board_answered(a, receiver, None);
            &&& b.outbox.len() == a.outbox.len() + 1 && b.outbox.drop_last() == a.outbox
            &&& b.outbox.last() matches EffectModel::Move(m) && {
                &&& m.sources == batch.sources
                &&& m.dest_dir == board.receivers[receiver as int].cwd
                &&& m.reload.len() == 2
                &&& m.reload[0].0 == (if batch.source_panel == 0 {
                    LoadTarget::BoardSource
                } else {
                    LoadTarget::BoardReceiver((batch.source_panel - 1) as usize)
                })
                &&& m.reload[1] == (LoadTarget::BoardReceiver(receiver), None::<PathView>)
                &&& m.label == "receiver "@ + crate::text::decimal((receiver + 1) as nat)
            }
            &&& b.commander.board matches Some(later) && later.sending is None
            &&& b.commander.panels == a.commander.panels
        }),
{
    reveal(crate::board::board_launched);
    let b = crate::board::board_answered(a, receiver, None);
    assert(b.outbox.drop_last() =~= a.outbox);
}

// ---------------------------------------------------------------------------------------------
// The machine that moves.
// ---------------------------------------------------------------------------------------------
/// A link and an item that cannot be looked at are not moved: they are counted as failed, once.
/// A file is compared with what the destination holds, and a directory goes under its own name.
pub proof fn law_what_an_item_is_decides(
    m: BatchModel,
    src: PathView,
    dest_dir: PathView,
    kind: ItemKind,
)
    requires
        m.stage == (StageModel::Looking { src, dest_dir }),
        m.tally.failed < usize::MAX,
    ensures
        crate::batch::wants(m.stage) == WantedModel::Look(src),
        ({
            let n = crate::batch::answered(m, Answer::Kind(kind));
            &&& n.tally.moved == m.tally.moved && n.tally.dups == m.tally.dups
            &&& kind is Missing || kind is Link ==> n.tally.failed == m.tally.failed + 1
            &&& kind is File ==> n.tally == m.tally && n.todo == m.todo && crate::batch::wants(
                n.stage,
            ) == WantedModel::Sizes(dest_dir)
            &&& kind is Dir && src.file_name() is Some ==> n.tally == m.tally && n.todo == m.todo
                && crate::batch::wants(n.stage) == WantedModel::IsDir(
                dest_dir.child(src.file_name()->Some_0),
            )
            &&& kind is Dir && src.file_name() is None ==> n.tally.failed == m.tally.failed + 1
        }),
{
}

/// A directory is moved whole where nothing of its name stands in the destination; where a
/// directory of that name stands there, its content is listed to be poured into it.
pub proof fn law_a_standing_directory_is_merged_into(
    m: BatchModel,
    src: PathView,
    dest_dir: PathView,
    target: PathView,
    there: bool,
)
    requires
        m.stage == (StageModel::Landing { src, dest_dir, target }),
    ensures
        ({
            let n = crate::batch::answered(m, Answer::IsDir(there));
            &&& n.tally == m.tally && n.todo == m.todo
            &&& there ==> crate::batch::wants(n.stage) == WantedModel::List(src)
            &&& !there ==> crate::batch::wants(n.stage) == (WantedModel::MoveDir { src, dest_dir })
        }),
{
}

/// An item that landed is in the Undo log with where it came from and where it is, once; a file's
/// hash goes to the index where it is known, and the file to be hashed where it is not; duplicates
/// are counted. An item that did not land is counted as failed, and is not in the log.
pub proof fn law_what_landed_is_logged(m: BatchModel, dest: Option<FilePath>)
    requires
        m.stage is MovingFile || m.stage is MovingDir,
        m.tally.failed < usize::MAX,
        m.tally.dups < usize::MAX,
    ensures
        ({
            let n = crate::batch::answered(m, Answer::Moved(dest));
            let src = match m.stage {
                StageModel::MovingFile { src, .. } => src,
                StageModel::MovingDir { src, .. } => src,
                _ => arbitrary(),
            };
            &&& dest matches Some(at) ==> n.tally.moved == m.tally.moved.push((src, at@))
                && n.tally.failed == m.tally.failed
            &&& dest is None ==> n.tally.moved == m.tally.moved && n.tally.failed == m.tally.failed
                + 1 && n.tally.dups == m.tally.dups
            &&& dest matches Some(at) ==> (m.stage matches StageModel::MovingFile {
                duplicate,
                hash,
                ..
            } ==> {
                &&& n.tally.dups == m.tally.dups + if duplicate {
                    1int
                } else {
                    0int
                }
                &&& hash matches Some(h) ==> n.tally.hashes == m.tally.hashes.push((at@, h))
                    && n.tally.to_hash == m.tally.to_hash
                &&& hash is None ==> n.tally.to_hash == m.tally.to_hash.push(at@) && n.tally.hashes
                    == m.tally.hashes
            })
            &&& m.stage is MovingDir ==> n.tally.dups == m.tally.dups && n.tally.hashes
                == m.tally.hashes && n.tally.to_hash == m.tally.to_hash
        }),
{
}

/// What the batch asks to have moved is the item at hand, into the directory it was sent to.
pub proof fn law_the_item_at_hand_is_moved(stage: StageModel)
    ensures
        stage matches StageModel::MovingFile { src, dest_dir, duplicate, hash }
            ==> crate::batch::wants(stage) == (WantedModel::MoveFile {
            src,
            dest_dir,
            duplicate,
            hash,
        }),
        stage matches StageModel::MovingDir { src, dest_dir } ==> crate::batch::wants(stage) == (
        WantedModel::MoveDir { src, dest_dir }),
        stage matches StageModel::Removing { dir, .. } ==> crate::batch::wants(stage)
            == WantedModel::Remove(dir),
        crate::batch::wants(stage) is Nothing <==> stage is Done,
{
}

/// The batch ends exactly when nothing is left, and takes up what comes next otherwise.
pub proof fn law_the_batch_goes_on_to_its_end(tally: crate::batch::Tally, todo: Seq<TaskModel>)
    ensures
        ({
            let n = crate::batch::next_task(tally, todo);
            &&& n.tally == tally
            &&& n.stage is Done <==> todo.len() == 0
            &&& todo.len() > 0 ==> n.todo == todo.drop_last()
            &&& todo.len() > 0 ==> (todo.last() matches TaskModel::Move { src, dest_dir } ==> n.stage
                == (StageModel::Looking { src, dest_dir }))
            &&& todo.len() > 0 ==> (todo.last() matches TaskModel::Close { dir, failed_before }
                ==> n.stage == (StageModel::Removing { dir, failed_before }))
        }),
{
}

/// The items are taken in the order they were handed over, each into the directory of the batch.
pub proof fn law_the_items_keep_their_order(sources: Seq<PathView>, dest_dir: PathView, i: int)
    requires
        0 <= i < sources.len(),
    ensures
        crate::batch::tasks_of(sources, dest_dir).len() == sources.len(),
        crate::batch::tasks_of(sources, dest_dir)[sources.len() - 1 - i] == (TaskModel::Move {
            src: sources[i],
            dest_dir,
        }),
{
}

/// A merged directory that could not be removed is a failure of its own exactly where nothing
/// under it had failed; one that was removed is none.
pub proof fn law_one_loss_is_not_told_twice(
    m: BatchModel,
    dir: PathView,
    failed_before: usize,
    removed: bool,
)
    requires
        m.stage == (StageModel::Removing { dir, failed_before }),
        m.tally.failed < usize::MAX,
    ensures
        ({
            let n = crate::batch::answered(m, Answer::Removed(removed));
            &&& removed || m.tally.failed != failed_before ==> n.tally.failed == m.tally.failed
            &&& !removed && m.tally.failed == failed_before ==> n.tally.failed == m.tally.failed + 1
            &&& n.tally.moved == m.tally.moved
        }),
{
}

// ---------------------------------------------------------------------------------------------
// Duplicates.
// ---------------------------------------------------------------------------------------------
proof fn lemma_files_of_size(dir: PathView, found: Seq<(Vec<u8>, Look)>, size: u64, path: PathView)
    ensures
        crate::move_batch::files_of_size(dir, found, size).contains(path) <==> exists|i: int|
            0 <= i < found.len() && (#[trigger] found[i]).1 == Look::File(size) && path
                == dir.child(found[i].0@),
    decreases found.len(),
{
    if found.len() > 0 {
        let front = found.drop_last();
        let before = crate::move_batch::files_of_size(dir, front, size);
        let all = crate::move_batch::files_of_size(dir, found, size);
        lemma_files_of_size(dir, front, size, path);
        if all.contains(path) {
            let k = all.index_of(path);
            if k < before.len() {
                assert(before[k] == path);
                let i = choose|i: int|
                    0 <= i < front.len() && (#[trigger] front[i]).1 == Look::File(size) && path
                        == dir.child(front[i].0@);
                assert(found[i] == front[i]);
            } else {
                assert(found[found.len() - 1].1 == Look::File(size));
            }
        }
        if exists|i: int|
            0 <= i < found.len() && (#[trigger] found[i]).1 == Look::File(size) && path
                == dir.child(found[i].0@) {
            let i = choose|i: int|
                0 <= i < found.len() && (#[trigger] found[i]).1 == Look::File(size) && path
                    == dir.child(found[i].0@);
            if i < front.len() {
                assert(front[i] == found[i]);
                let k = before.index_of(path);
                assert(all[k] == path);
            } else {
                assert(all.last() == path);
            }
        }
    }
}

/// The candidates that a file is compared with are the regular files of exactly its size in the
/// destination, all of them and nothing else.
pub proof fn law_the_candidates_are_the_files_of_the_size(
    dir: PathView,
    found: Seq<(Vec<u8>, Look)>,
    size: u64,
    path: PathView,
)
    ensures
        crate::move_batch::by_name(
            crate::move_batch::files_of_size(dir, found, size),
        ).contains(path) <==> exists|i: int|
            0 <= i < found.len() && (#[trigger] found[i]).1 == Look::File(size) && path
                == dir.child(found[i].0@),
{
    broadcast use vstd::seq_lib::group_to_multiset_ensures;

    let files = crate::move_batch::files_of_size(dir, found, size);
    lemma_files_of_size(dir, found, size, path);
    crate::move_batch::law_the_name_order_rearranges(files);
    let sorted = crate::move_batch::by_name(files);
    assert(sorted.to_multiset() == files.to_multiset());
    assert(sorted.contains(path) <==> sorted.to_multiset().contains(path));
    assert(files.contains(path) <==> files.to_multiset().contains(path));
}

/// A file is moved as a duplicate exactly where a candidate of its size has its content, and under
/// its own name exactly where there is no candidate or all of them were read, or are gone, and
/// differ; it stays where that cannot be told. While it can still be told, reading goes on.
pub proof fn law_content_decides_the_name(m: crate::move_batch::FileMoveModel)
    requires
        m.readings.len() <= m.candidates,
        m.candidates > 0,
        m.own is Some && !m.own_unread,
    ensures
        crate::move_batch::file_step(m) == FileStep::MoveAsDuplicate <==> m.readings.contains(
            Reading::Same,
        ),
        crate::move_batch::file_step(m) == FileStep::MoveInto <==> m.readings.len() == m.candidates
            && !m.readings.contains(Reading::Same) && !m.readings.contains(Reading::Unread),
        crate::move_batch::file_step(m) == FileStep::Leave <==> m.readings.len() == m.candidates
            && !m.readings.contains(Reading::Same) && m.readings.contains(Reading::Unread),
        crate::move_batch::file_step(m) is HashCandidate <==> m.readings.len() < m.candidates
            && !m.readings.contains(Reading::Same),
        crate::move_batch::file_step(m) matches FileStep::HashCandidate(i) ==> i
            == m.readings.len(),
{
    crate::move_batch::law_no_name_is_picked_by_default(m);
    lemma_unread(m.readings);
    if m.readings.contains(Reading::Same) {
        let i = m.readings.index_of(Reading::Same);
        assert(m.readings[i] == Reading::Same);
    }
}

proof fn lemma_unread(readings: Seq<Reading>)
    ensures
        crate::move_batch::first_unread(readings) <= readings.len(),
        crate::move_batch::first_unread(readings) < readings.len() <==> readings.contains(
            Reading::Unread,
        ),
    decreases readings.len(),
{
    if readings.len() > 0 {
        let front = readings.drop_last();
        lemma_unread(front);
        if readings.contains(Reading::Unread) {
            let i = readings.index_of(Reading::Unread);
            if i < front.len() {
                assert(front[i] == Reading::Unread);
            }
        }
        if front.contains(Reading::Unread) {
            let i = front.index_of(Reading::Unread);
            assert(readings[i] == Reading::Unread);
        }
        if readings.last() == Reading::Unread {
            assert(readings[readings.len() - 1] == Reading::Unread);
        }
    }
}

/// A candidate has the file's content exactly where the two hashes agree; where it could not be
/// hashed it is gone or unread, and never taken for different.
pub proof fn law_hashes_decide_the_content(own: [u8; 32], other: [u8; 32], gone: bool)
    ensures
        crate::move_batch::reading_of(Some(own), Some(other), gone) == Reading::Same <==> own@
            == other@,
        crate::move_batch::reading_of(Some(own), Some(other), gone) == Reading::Different <==> own@
            != other@,
        crate::move_batch::reading_of(Some(own), None, true) == Reading::Gone,
        crate::move_batch::reading_of(Some(own), None, false) == Reading::Unread,
{
}

/// A duplicate keeps its stem and its extension: its name is the file's own with `.dup` and a
/// number put before the last dot, or at the end where there is no extension. A dot at the very
/// front begins no extension.
pub proof fn law_a_duplicate_keeps_its_name(path: PathView, n: nat) -> (at: int)
    requires
        path.file_name() is Some,
    ensures
        ({
            let name = path.file_name()->Some_0;
            &&& 0 <= at <= name.len()
            &&& crate::move_batch::dup_name(path, n) == name.take(at) + seq![
                46u8,
                100u8,
                117u8,
                112u8,
            ] + crate::move_batch::decimal_bytes(n) + name.skip(at)
            &&& at < name.len() ==> at > 0 && name[at] == 46u8
            &&& forall|i: int| at < i < name.len() && i > 0 ==> name[i] != 46u8
        }),
{
    let name = path.file_name()->Some_0;
    let dot = crate::move_batch::extension_dot(name);
    lemma_extension_dot(name);
    let at = if dot >= 0 {
        dot
    } else {
        name.len() as int
    };
    assert(name.take(name.len() as int) =~= name);
    assert(name.skip(name.len() as int) =~= Seq::empty());
    assert(crate::move_batch::dup_name(path, n) =~= name.take(at) + seq![46u8, 100u8, 117u8, 112u8]
        + crate::move_batch::decimal_bytes(n) + name.skip(at));
    at
}

proof fn lemma_extension_dot(name: Seq<u8>)
    ensures
        ({
            let dot = crate::move_batch::extension_dot(name);
            &&& -1 <= dot < name.len() && dot != 0
            &&& dot > 0 ==> name[dot] == 46u8
            &&& forall|i: int| dot < i < name.len() && i > 0 ==> name[i] != 46u8
        }),
    decreases name.len(),
{
    if name.len() > 1 && name.last() != 46u8 {
        let shorter = name.drop_last();
        lemma_extension_dot(shorter);
        let dot = crate::move_batch::extension_dot(name);
        assert forall|i: int| dot < i < name.len() && i > 0 implies name[i] != 46u8 by {
            if i < shorter.len() {
                assert(shorter[i] == name[i]);
            }
        }
    }
}

/// The number of a duplicate is written in decimal: its last digit is the number's, and what is
/// before it is the number of tens.
pub proof fn law_a_duplicate_is_numbered_in_decimal(n: nat)
    ensures
        crate::move_batch::decimal_bytes(n).last() == 48 + n % 10,
        n < 10 ==> crate::move_batch::decimal_bytes(n).len() == 1,
        n >= 10 ==> crate::move_batch::decimal_bytes(n).drop_last()
            == crate::move_batch::decimal_bytes(n / 10),
{
    if n >= 10 {
        assert(crate::move_batch::decimal_bytes(n).drop_last()
            =~= crate::move_batch::decimal_bytes(n / 10));
    }
}

// ---------------------------------------------------------------------------------------------
// The machine, step by step.
// ---------------------------------------------------------------------------------------------
/// A batch begins with its first item and with nothing counted; without items it has ended.
pub proof fn law_a_batch_begins_with_its_first_item(sources: Seq<PathView>, dest_dir: PathView)
    ensures
        ({
            let m = crate::batch::next_task(
                crate::batch::nothing_moved(),
                crate::batch::tasks_of(sources, dest_dir),
            );
            &&& m.tally.moved.len() == 0 && m.tally.failed == 0 && m.tally.dups == 0
            &&& m.tally.hashes.len() == 0 && m.tally.to_hash.len() == 0 && m.tally.error is None
            &&& sources.len() == 0 ==> m.stage is Done
            &&& sources.len() > 0 ==> m.stage == (StageModel::Looking {
                src: sources[0],
                dest_dir,
            }) && m.todo.len() == sources.len() - 1
        }),
{
}

proof fn lemma_first_refused(found: Seq<(Vec<u8>, Look)>)
    ensures
        0 <= crate::move_batch::first_refused(found) <= found.len(),
        crate::move_batch::first_refused(found) < found.len() <==> exists|i: int|
            0 <= i < found.len() && (#[trigger] found[i]).1 == Look::Refused,
    decreases found.len(),
{
    if found.len() > 0 {
        let front = found.drop_last();
        lemma_first_refused(front);
        assert(found[found.len() - 1] == found.last());
        if exists|i: int| 0 <= i < found.len() && (#[trigger] found[i]).1 == Look::Refused {
            let i = choose|i: int|
                0 <= i < found.len() && (#[trigger] found[i]).1 == Look::Refused;
            if i < front.len() {
                assert(front[i] == found[i]);
            }
        }
        if exists|i: int| 0 <= i < front.len() && (#[trigger] front[i]).1 == Look::Refused {
            let i = choose|i: int|
                0 <= i < front.len() && (#[trigger] front[i]).1 == Look::Refused;
            assert(found[i] == front[i]);
        }
    }
}

proof fn lemma_no_more_than_found(dir: PathView, found: Seq<(Vec<u8>, Look)>, size: u64)
    ensures
        crate::move_batch::files_of_size(dir, found, size).len() <= found.len(),
    decreases found.len(),
{
    if found.len() > 0 {
        lemma_no_more_than_found(dir, found.drop_last(), size);
    }
}

/// A file stays, as failed, where its destination cannot be read or something in it cannot be
/// looked at; it is moved at once where nothing there has its size; and where something has, its
/// own content is read first.
pub proof fn law_a_file_is_compared_where_it_goes(
    m: BatchModel,
    src: PathView,
    size: u64,
    dest_dir: PathView,
    found: Vec<(Vec<u8>, Look)>,
)
    requires
        m.stage == (StageModel::Sizing { src, size, dest_dir }),
        m.tally.failed < usize::MAX,
        found@.len() <= usize::MAX,
    ensures
        ({
            let n = crate::batch::answered(m, Answer::Sizes(Some(found)));
            let none = crate::batch::answered(m, Answer::Sizes(None));
            let refused = exists|i: int|
                0 <= i < found@.len() && (#[trigger] found@[i]).1 == Look::Refused;
            let rivals = exists|i: int|
                0 <= i < found@.len() && (#[trigger] found@[i]).1 == Look::File(size);
            &&& none.tally.failed == m.tally.failed + 1 && none.tally.moved == m.tally.moved
            &&& refused ==> n.tally.failed == m.tally.failed + 1 && n.tally.moved == m.tally.moved
            &&& !refused && !rivals ==> n.tally == m.tally && n.todo == m.todo
                && crate::batch::wants(n.stage) == (WantedModel::MoveFile {
                src,
                dest_dir,
                duplicate: false,
                hash: None,
            })
            &&& !refused && rivals ==> n.tally == m.tally && n.todo == m.todo
                && crate::batch::wants(n.stage) == WantedModel::Hash(src)
        }),
{
    lemma_first_refused(found@);
    let files = crate::move_batch::files_of_size(dest_dir, found@, size);
    let candidates = crate::move_batch::by_name(files);
    lemma_no_more_than_found(dest_dir, found@, size);
    crate::move_batch::law_the_name_order_rearranges(files);
    candidates.to_multiset_ensures();
    files.to_multiset_ensures();
    assert(candidates.len() == files.len());
    if exists|i: int| 0 <= i < found@.len() && (#[trigger] found@[i]).1 == Look::File(size) {
        let i = choose|i: int|
            0 <= i < found@.len() && (#[trigger] found@[i]).1 == Look::File(size);
        lemma_files_of_size(dest_dir, found@, size, dest_dir.child(found@[i].0@));
        assert(files.contains(dest_dir.child(found@[i].0@)));
    } else if files.len() > 0 {
        lemma_files_of_size(dest_dir, found@, size, files[0]);
        assert(files.contains(files[0]));
    }
}

/// The file's own content is read first, and it stays, as failed, where that cannot be; then the
/// candidates are read one after another. Content met again makes the file a duplicate at once;
/// when all are read it goes under its own name, unless one of them could not be read.
pub proof fn law_the_candidates_are_read_in_turn(
    m: BatchModel,
    src: PathView,
    dest_dir: PathView,
    candidates: Seq<PathView>,
    file: crate::move_batch::FileMoveModel,
    hash: Option<[u8; 32]>,
    gone: bool,
)
    requires
        m.stage == (StageModel::Comparing { src, dest_dir, candidates, file }),
        m.tally.failed < usize::MAX,
        file.candidates == candidates.len(),
        file.readings.len() < candidates.len(),
        !file.own_unread,
        !file.readings.contains(Reading::Same),
    ensures
        ({
            let n = crate::batch::answered(m, Answer::Hashed { hash, gone });
            let next = file.readings.len() as int;
            let last = next + 1 == candidates.len();
            let unread = file.readings.contains(Reading::Unread) || (hash is None && !gone);
            &&& file.own is None ==> crate::batch::wants(m.stage) == WantedModel::Hash(src)
            &&& file.own is None && hash is None ==> n.tally.failed == m.tally.failed + 1
            &&& file.own is None && hash is Some ==> n.tally == m.tally && crate::batch::wants(
                n.stage,
            ) == WantedModel::Hash(candidates[next])
            &&& file.own matches Some(own) ==> {
                let same = hash matches Some(h) && h@ == own@;
                &&& crate::batch::wants(m.stage) == WantedModel::Hash(candidates[next])
                &&& same ==> n.tally == m.tally && crate::batch::wants(n.stage) == (
                WantedModel::MoveFile { src, dest_dir, duplicate: true, hash: Some(own) })
                &&& !same && !last ==> n.tally == m.tally && crate::batch::wants(n.stage)
                    == WantedModel::Hash(candidates[next + 1])
                &&& !same && last && !unread ==> n.tally == m.tally && crate::batch::wants(n.stage)
                    == (WantedModel::MoveFile {
                    src,
                    dest_dir,
                    duplicate: false,
                    hash: Some(own),
                })
                &&& !same && last && unread ==> n.tally.failed == m.tally.failed + 1
                    && n.tally.moved == m.tally.moved
            }
        }),
{
    let next = file.readings.len() as int;
    assert forall|i: int| 0 <= i < file.readings.len() implies (#[trigger] file.readings[i])
        != Reading::Same by {
        assert(file.readings.contains(file.readings[i]));
    }
    if file.own is Some {
        let reading = crate::move_batch::reading_of(file.own, hash, gone);
        let readings = file.readings.push(reading);
        let after = crate::move_batch::candidate_read(file, hash, gone);
        assert(after.readings == readings);
        law_content_decides_the_name(after);
        assert(readings[next] == reading);
        assert(readings.contains(Reading::Same) <==> reading == Reading::Same) by {
            if readings.contains(Reading::Same) {
                let i = readings.index_of(Reading::Same);
                if i < next {
                    assert(file.readings[i] == readings[i]);
                }
            }
        }
        assert(readings.contains(Reading::Unread) <==> file.readings.contains(Reading::Unread)
            || reading == Reading::Unread) by {
            if readings.contains(Reading::Unread) {
                let i = readings.index_of(Reading::Unread);
                if i < next {
                    assert(file.readings[i] == readings[i]);
                }
            }
            if file.readings.contains(Reading::Unread) {
                let i = file.readings.index_of(Reading::Unread);
                assert(readings[i] == Reading::Unread);
            }
        }
    }
}

/// The children of a merged directory are those that its listing names, each under that directory.
pub proof fn law_the_children_are_those_listed(
    dir: PathView,
    listing: Seq<Option<Vec<u8>>>,
    path: PathView,
)
    ensures
        crate::batch::listed_children(dir, listing).contains(path) <==> exists|i: int|
            0 <= i < listing.len() && ((#[trigger] listing[i]) matches Some(name) && path
                == dir.child(name@)),
        crate::batch::listed_children(dir, listing).len() + crate::batch::withheld(listing)
            == listing.len(),
    decreases listing.len(),
{
    if listing.len() > 0 {
        let front = listing.drop_last();
        law_the_children_are_those_listed(dir, front, path);
        let before = crate::batch::listed_children(dir, front);
        let all = crate::batch::listed_children(dir, listing);
        assert(listing[listing.len() - 1] == listing.last());
        if before.contains(path) {
            let k = before.index_of(path);
            assert(all[k] == path);
            let i = choose|i: int|
                0 <= i < front.len() && ((#[trigger] front[i]) matches Some(name) && path
                    == dir.child(name@));
            assert(listing[i] == front[i]);
        }
        if listing.last() matches Some(name) && path == dir.child(name@) {
            assert(all[before.len() as int] == path);
        }
        if exists|i: int|
            0 <= i < listing.len() && ((#[trigger] listing[i]) matches Some(name) && path
                == dir.child(name@)) {
            let i = choose|i: int|
                0 <= i < listing.len() && ((#[trigger] listing[i]) matches Some(name) && path
                    == dir.child(name@));
            if i < front.len() {
                assert(front[i] == listing[i]);
            }
        }
    }
}

proof fn lemma_failing_by(t: crate::batch::Tally, count: nat)
    requires
        t.failed + count <= usize::MAX,
    ensures
        t.failing_by(count).failed == t.failed + count,
        t.failing_by(count).moved == t.moved,
    decreases count,
{
    if count > 0 {
        lemma_failing_by(t, (count - 1) as nat);
    }
}

/// A child that a listing withholds counts as failed, and so does a directory that cannot be
/// listed; nothing has moved by listing it.
pub proof fn law_what_cannot_be_listed_has_failed(
    m: BatchModel,
    src: PathView,
    target: PathView,
    names: Vec<Option<Vec<u8>>>,
)
    requires
        m.stage == (StageModel::Opening { src, target }),
        m.tally.failed + names@.len() < usize::MAX,
    ensures
        ({
            let n = crate::batch::answered(m, Answer::Listing(Some(names)));
            let none = crate::batch::answered(m, Answer::Listing(None));
            &&& n.tally.failed == m.tally.failed + names@.len() - crate::batch::listed_children(
                src,
                names@,
            ).len()
            &&& n.tally.moved == m.tally.moved
            &&& none.tally.failed == m.tally.failed + 1 && none.tally.moved == m.tally.moved
        }),
{
    law_the_children_are_those_listed(src, names@, src);
    lemma_failing_by(m.tally, crate::batch::withheld(names@));
}

/// A duplicate takes the first number whose name is free.
pub proof fn law_a_duplicate_takes_the_first_free_name<F: Fn(&FilePath) -> bool>(
    dir: PathView,
    src: PathView,
    present: F,
    name: Option<PathView>,
    first: nat,
)
    requires
        crate::move_batch::first_free(dir, src, present, name),
        1 <= first <= u32::MAX,
        !crate::move_batch::taken(present, dir.child(crate::move_batch::dup_name(src, first))),
        forall|n: nat|
            1 <= n < first ==> !crate::move_batch::free(
                present,
                dir.child(#[trigger] crate::move_batch::dup_name(src, n)),
            ),
    ensures
        name == Some(dir.child(crate::move_batch::dup_name(src, first))),
{
    let here = dir.child(crate::move_batch::dup_name(src, first));
    if let Some(path) = name {
        let n = choose|n: nat|
            #![trigger crate::move_batch::dup_name(src, n)]
            1 <= n && path == dir.child(crate::move_batch::dup_name(src, n))
                && crate::move_batch::free(present, path) && forall|k: nat|
                1 <= k < n ==> crate::move_batch::taken(
                    present,
                    dir.child(#[trigger] crate::move_batch::dup_name(src, k)),
                );
        if n > first {
            assert(crate::move_batch::taken(present, here));
        }
    } else {
        assert(crate::move_batch::taken(present, here));
    }
}

} // verus!
