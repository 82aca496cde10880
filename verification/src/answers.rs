//! What comes back from the background: listings, sizes, and what the store answers.

use vstd::prelude::*;

use crate::app::{App, AppModel, CommanderModel, DedupModel, Effect, EffectModel};
use crate::dedup::{DirDedup, GroupId};
use crate::entries::{EntryModel, PanelEntry};
use crate::jump::check_jump_landed;
use crate::model::{DirGroupSummary, GroupSummary, ResumeInfo};
use crate::panels::apply_panel_load;
use crate::path::{FilePath, PathView};
use crate::scans::fetch_panel_dedup;
use crate::sessions::SessionsState;
use crate::state::{
    BoardModel, BoardState, LoadTarget, OpenDirGroup, Overlay, WatchEmpty, WatchEntry, WatchKey,
    WatchKeyModel, WatchModel, WatchResult, WatchSubject, WatchUnavailable,
};

verus! {

// ---------------------------------------------------------------------------------------------
// Panels.
// ---------------------------------------------------------------------------------------------
/// The Board after a listing of one of its panels came in.
pub open spec fn board_listed(
    board: BoardModel,
    target: LoadTarget,
    generation: u64,
    entries: Seq<EntryModel>,
    previous: Option<PathView>,
) -> BoardModel {
    match target {
        LoadTarget::BoardSource => BoardModel {
            source: crate::panels::panel_load(board.source, generation, entries, previous),
            ..board
        },
        LoadTarget::BoardReceiver(index) => if index < board.receivers.len() {
            BoardModel {
                receivers: board.receivers.update(
                    index as int,
                    crate::panels::panel_load(
                        board.receivers[index as int],
                        generation,
                        entries,
                        previous,
                    ),
                ),
                ..board
            }
        } else {
            board
        },
        LoadTarget::Commander(_) => board,
    }
}

/// A listing delivered to the panel it was read for. A commander panel's listing settles the jump
/// that waited for it.
pub open spec fn listing_delivered(
    a: AppModel,
    target: LoadTarget,
    generation: u64,
    entries: Seq<EntryModel>,
    previous: Option<PathView>,
) -> AppModel {
    match target {
        LoadTarget::Commander(index) => if index < a.commander.panels.len() {
            let shown = a.with_panel(
                index as int,
                crate::panels::panel_load(
                    a.commander.panels[index as int],
                    generation,
                    entries,
                    previous,
                ),
            );
            AppModel {
                commander: crate::jump::jump_checked(shown.commander, index, generation),
                ..shown
            }
        } else {
            a
        },
        _ => match a.commander.board {
            Some(board) => a.with_board(
                Some(board_listed(board, target, generation, entries, previous)),
            ),
            None => a,
        },
    }
}

fn list_board(
    board: &mut BoardState,
    target: LoadTarget,
    generation: u64,
    entries: Vec<PanelEntry>,
    previous: Option<FilePath>,
)
    ensures
        final(board)@ == board_listed(
            old(board)@,
            target,
            generation,
            crate::entries::entries_model(entries@),
            crate::panels::path_model(previous),
        ),
{
    match target {
        LoadTarget::BoardSource => apply_panel_load(
            &mut board.source,
            generation,
            entries,
            previous,
        ),
        LoadTarget::BoardReceiver(index) => {
            assert(board@.receivers.len() == board.receivers@.len());
            if index < board.receivers.len() {
                proof {
                    crate::app::lemma_one_panel_replaced(board.receivers@, index as int);
                }
                apply_panel_load(&mut board.receivers[index], generation, entries, previous);
            }
        },
        LoadTarget::Commander(_) => {},
    }
}

/// Delivers a listing read in the background, and asks for the dedup attributes of what it shows.
/// A stale listing changes nothing in its panel.
pub fn panel_loaded(
    app: &mut App,
    target: LoadTarget,
    generation: u64,
    entries: Vec<PanelEntry>,
    previous: Option<FilePath>,
)
    ensures
        final(app)@ == crate::scans::dedup_fetched(
            listing_delivered(
                old(app)@,
                target,
                generation,
                crate::entries::entries_model(entries@),
                crate::panels::path_model(previous),
            ),
            target,
        ),
{
    match target {
        LoadTarget::Commander(index) => {
            assert(app@.commander.panels.len() == app.commander.panels@.len());
            if index < app.commander.panels.len() {
                apply_panel_load(app.panel_mut(index), generation, entries, previous);
                check_jump_landed(&mut app.commander, index, generation);
            }
        },
        _ => {
            if let Some(board) = &mut app.commander.board {
                list_board(board, target, generation, entries, previous);
            }
        },
    }
    fetch_panel_dedup(app, target);
}

/// The size of a directory put in, and the directory waited for no more.
pub open spec fn size_recorded(a: AppModel, path: PathView, size: u64) -> AppModel {
    AppModel {
        commander: CommanderModel {
            dir_size_pending: a.commander.dir_size_pending.remove(path.key()),
            dir_size_cache: a.commander.dir_size_cache.insert(path.key(), size),
            ..a.commander
        },
        ..a
    }
}

/// Records the size of a directory.
pub fn dir_sized(app: &mut App, path: FilePath, size: u64)
    ensures
        final(app)@ == size_recorded(old(app)@, path@, size),
{
    app.commander.dir_size_pending.remove(&path);
    app.commander.dir_size_cache.insert(path, size);
}

// ---------------------------------------------------------------------------------------------
// What the store says.
// ---------------------------------------------------------------------------------------------
/// What a watching panel's question came to.
#[derive(Debug, Clone)]
pub enum WatchAnswer {
    /// There is something to show.
    Found(WatchResult),
    /// There is nothing, and this is why.
    Nothing(WatchEmpty),
    /// It could not be read.
    Failed(String),
}

/// What a question was about: a directory, or a group of files.
pub open spec fn subject_of(key: WatchKeyModel) -> WatchSubject {
    match key {
        WatchKeyModel::DirOf(_) => WatchSubject::DirectoryGroup,
        _ => WatchSubject::FileGroup,
    }
}

/// An entry as its answer leaves it: a result, a reason for emptiness or a failure, never two of
/// them.
pub open spec fn entry_answered(key: WatchKeyModel, answer: WatchAnswer) -> WatchModel {
    let blank = WatchModel {
        key: Some(key),
        result: None,
        empty: WatchEmpty::NoSource,
        unavailable: None,
    };
    match answer {
        WatchAnswer::Found(result) => WatchModel { result: Some(result), ..blank },
        WatchAnswer::Nothing(reason) => WatchModel { empty: reason, ..blank },
        WatchAnswer::Failed(detail) => WatchModel {
            unavailable: Some(WatchUnavailable { subject: subject_of(key), detail }),
            ..blank
        },
    }
}

/// A panel watches what the answer is about.
pub open spec fn still_watched(c: CommanderModel, panel: usize, key: WatchKeyModel) -> bool {
    panel < c.watch_cache.len() && crate::state::watch_id(
        c.watch_cache[panel as int].key,
    ) == Some(key.id())
}

/// The answer to a watching panel's question; one that the panel no longer waits for is dropped.
pub open spec fn watch_settled(
    a: AppModel,
    panel: usize,
    key: WatchKeyModel,
    answer: WatchAnswer,
) -> AppModel {
    if still_watched(a.commander, panel, key) {
        AppModel {
            commander: CommanderModel {
                watch_cache: a.commander.watch_cache.update(
                    panel as int,
                    entry_answered(key, answer),
                ),
                ..a.commander
            },
            ..a
        }
    } else {
        a
    }
}

fn entry_for(key: &WatchKey, answer: WatchAnswer) -> (r: WatchEntry)
    ensures
        r@ == entry_answered(key@, answer),
{
    let mut entry = WatchEntry {
        key: Some(key.copy()),
        result: None,
        empty: WatchEmpty::NoSource,
        unavailable: None,
    };
    match answer {
        WatchAnswer::Found(result) => {
            entry.result = Some(result);
        },
        WatchAnswer::Nothing(reason) => {
            entry.empty = reason;
        },
        WatchAnswer::Failed(detail) => {
            let subject = match key {
                WatchKey::DirOf(_) => WatchSubject::DirectoryGroup,
                _ => WatchSubject::FileGroup,
            };
            entry.unavailable = Some(WatchUnavailable { subject, detail });
        },
    }
    entry
}

/// Takes the answer to what panel `panel` watches.
pub fn watch_answered(app: &mut App, panel: usize, key: &WatchKey, answer: WatchAnswer)
    ensures
        final(app)@ == watch_settled(old(app)@, panel, key@, answer),
{
    assert(app@.commander.watch_cache.len() == app.commander.watch_cache@.len());
    if panel >= app.commander.watch_cache.len() {
        return;
    }
    assert(app@.commander.watch_cache[panel as int] == app.commander.watch_cache@[panel as int]@);
    let waits = match &app.commander.watch_cache[panel].key {
        Some(asked) => asked.same(key),
        None => false,
    };
    if !waits {
        return;
    }
    let ghost before = app@.commander.watch_cache;
    app.commander.watch_cache.set(panel, entry_for(key, answer));
    assert(app@.commander.watch_cache =~= before.update(
        panel as int,
        entry_answered(key@, answer),
    ));
}

/// A failure is cached like any other answer: while the source stays the same, bringing the
/// panels in step asks nothing again and keeps what stands.
pub proof fn law_an_answer_stays_cached(a: AppModel, i: int, key: WatchKeyModel, answer: WatchAnswer)
    requires
        0 <= i < a.commander.watch_cache.len(),
        i <= usize::MAX,
        crate::state::watch_id(crate::watch::wanted_key(a.commander, i)) == Some(key.id()),
        crate::state::watch_id(a.commander.watch_cache[i].key) == Some(key.id()),
    ensures
        ({
            let b = watch_settled(a, i as usize, key, answer);
            &&& b.commander.watch_cache[i] == entry_answered(key, answer)
            &&& crate::watch::watched(b, i) == b
        }),
{
    let b = watch_settled(a, i as usize, key, answer);
    crate::watch::lemma_keys_depend_on_panels(b.commander, a.commander, i);
}

/// Nothing shown, nothing claimed: a failure leaves neither a result nor a reason for emptiness,
/// and an absence is no failure.
pub proof fn law_an_answer_is_one_thing(key: WatchKeyModel, answer: WatchAnswer)
    ensures
        ({
            let e = entry_answered(key, answer);
            &&& answer is Failed <==> e.unavailable is Some
            &&& answer is Found <==> e.result is Some
            &&& !(answer is Nothing) ==> e.empty == WatchEmpty::NoSource
            &&& e.key == Some(key)
        }),
{
}

/// A directory group put in for the panel that shows it.
pub open spec fn group_placed(
    a: AppModel,
    panel: usize,
    signature: Seq<char>,
    group: Option<OpenDirGroup>,
) -> AppModel {
    if panel < a.commander.watch_dir_keys.len() && panel < a.commander.watch_dir_cache.len()
        && a.commander.watch_dir_keys[panel as int] == Some(signature) {
        AppModel {
            commander: CommanderModel {
                watch_dir_cache: a.commander.watch_dir_cache.update(panel as int, group),
                ..a.commander
            },
            ..a
        }
    } else {
        a
    }
}

/// Takes a directory group opened by its signature for panel `panel`; one that the panel no longer
/// shows is dropped.
pub fn dir_group_opened(app: &mut App, panel: usize, signature: &String, group: Option<OpenDirGroup>)
    ensures
        final(app)@ == group_placed(old(app)@, panel, signature@, group),
{
    assert(app@.commander.watch_dir_keys.len() == app.commander.watch_dir_keys@.len());
    assert(app@.commander.watch_dir_cache.len() == app.commander.watch_dir_cache@.len());
    if panel >= app.commander.watch_dir_keys.len() || panel >= app.commander.watch_dir_cache.len() {
        return;
    }
    let waits = match &app.commander.watch_dir_keys[panel] {
        Some(asked) => *asked == *signature,
        None => false,
    };
    if waits {
        app.commander.watch_dir_cache.set(panel, group);
    }
}

/// What is known of a directory put in, and the directory waited for no more.
pub open spec fn standing_known(
    a: AppModel,
    cwd: PathView,
    dir: Result<DirDedup, String>,
) -> AppModel {
    AppModel {
        commander: CommanderModel {
            dedup: DedupModel {
                by_cwd: a.commander.dedup.by_cwd.insert(cwd.key(), dir),
                pending: a.commander.dedup.pending.remove(cwd.key()),
            },
            ..a.commander
        },
        ..a
    }
}

/// Takes the dedup attributes of a panel's directory, or why they could not be read.
pub fn dedup_answered(app: &mut App, cwd: FilePath, dir: Result<DirDedup, String>)
    ensures
        final(app)@ == standing_known(old(app)@, cwd@, dir),
{
    app.commander.dedup.insert_dir(cwd, dir);
}

/// A scan whose overlay was read whole.
#[derive(Debug, Clone)]
pub struct LoadedScan {
    pub id: i64,
    pub created_at: Option<String>,
    pub groups: Vec<GroupSummary>,
    pub group_ids: Vec<GroupId>,
    pub candidates: Option<u64>,
    pub dir_groups: Vec<DirGroupSummary>,
    pub dir_groups_error: Option<String>,
}

/// A scan put in place of the one before, whole: what was known of the old one is forgotten.
pub open spec fn scan_installed(c: CommanderModel, scan: LoadedScan) -> CommanderModel {
    CommanderModel {
        dedup_scan_id: Some(scan.id),
        scan_created_at: scan.created_at,
        group_summaries: scan.groups@,
        group_ids: scan.group_ids@,
        candidates: scan.candidates,
        dir_group_summaries: scan.dir_groups@,
        dir_groups_error: scan.dir_groups_error,
        groups_loaded_for: Some(scan.id),
        ..crate::scans::scan_dropped(c)
    }
}

/// Puts a scan in place.
pub fn scan_loaded(app: &mut App, scan: LoadedScan)
    ensures
        final(app)@ == (AppModel {
            commander: scan_installed(old(app)@.commander, scan),
            ..old(app)@
        }),
{
    crate::scans::drop_scan(app);
    app.commander.dedup_scan_id = Some(scan.id);
    app.commander.scan_created_at = scan.created_at;
    app.commander.group_summaries = scan.groups;
    app.commander.group_ids = scan.group_ids;
    app.commander.candidates = scan.candidates;
    app.commander.dir_group_summaries = scan.dir_groups;
    app.commander.dir_groups_error = scan.dir_groups_error;
    app.commander.groups_loaded_for = Some(scan.id);
}

/// Shows the properties of an entry, complete with what the store knows of it.
pub fn info_answered(app: &mut App, lines: Vec<String>)
    ensures
        final(app)@ == (AppModel {
            commander: CommanderModel {
                info_lines: crate::browser::strings_model(lines@),
                overlay: Overlay::FileInfo,
                ..old(app)@.commander
            },
            ..old(app)@
        }),
{
    app.commander.info_lines = lines;
    app.commander.overlay = Overlay::FileInfo;
}

// ---------------------------------------------------------------------------------------------
// The history of scans.
// ---------------------------------------------------------------------------------------------
/// What a probe for earlier scans of some roots found: one unfinished, and the last complete one;
/// or why it found nothing out.
pub type Probe = Result<(Option<ResumeInfo>, Option<ResumeInfo>), String>;

/// The answer to a probe. Only a history that was read and is empty is permission to scan anew; one
/// that holds something is put to the operator, and one that could not be read is said.
pub open spec fn probe_settled(a: AppModel, roots: Seq<PathView>, probe: Probe) -> AppModel {
    match probe {
        Err(reason) => a.say(reason@),
        Ok((None, None)) => a.send(EffectModel::ScanNew(roots)),
        Ok((unfinished, complete)) => AppModel {
            commander: CommanderModel {
                pending_scan_roots: roots,
                resume_unfinished: unfinished,
                resume_complete: complete,
                overlay: Overlay::ResumeScan,
                ..a.commander
            },
            ..a
        },
    }
}

/// Takes the answer to the probe for earlier scans of `roots`.
pub fn probe_answered(app: &mut App, roots: Vec<FilePath>, probe: Probe)
    ensures
        final(app)@ == probe_settled(old(app)@, crate::model::paths_model(roots@), probe),
{
    match probe {
        Err(reason) => app.say(reason),
        Ok((None, None)) => app.send(Effect::ScanNew(roots)),
        Ok((unfinished, complete)) => {
            app.commander.pending_scan_roots = roots;
            app.commander.resume_unfinished = unfinished;
            app.commander.resume_complete = complete;
            app.commander.overlay = Overlay::ResumeScan;
        },
    }
}

/// Nothing is scanned on the strength of a history that could not be read or is not empty.
pub proof fn law_only_an_empty_history_scans_anew(a: AppModel, roots: Seq<PathView>, probe: Probe)
    ensures
        probe_settled(a, roots, probe).outbox != a.outbox ==> probe == Probe::Ok((None, None)),
        probe == Probe::Ok((None, None)) ==> probe_settled(a, roots, probe).outbox
            == a.outbox.push(EffectModel::ScanNew(roots)),
{
}

/// The list of saved scans after an answer: a superseded one changes nothing, and one that failed
/// is no empty list.
pub open spec fn sessions_settled(
    s: SessionsState,
    generation: u64,
    found: Result<Vec<ResumeInfo>, String>,
) -> SessionsState {
    if generation != s.generation {
        s
    } else {
        match found {
            Ok(sessions) => SessionsState {
                sessions,
                cursor: if s.cursor < sessions@.len() {
                    s.cursor
                } else {
                    0
                },
                loading: false,
                ..s
            },
            Err(_) => SessionsState { loading: false, ..s },
        }
    }
}

/// Takes the list of saved scans; hands back why it could not be read, where that is the current
/// answer.
pub fn sessions_ready(
    s: &mut SessionsState,
    generation: u64,
    found: Result<Vec<ResumeInfo>, String>,
) -> (r: Option<String>)
    ensures
        *final(s) == sessions_settled(*old(s), generation, found),
        r == (match found {
            Err(reason) if generation == old(s).generation => Some(reason),
            _ => None,
        }),
{
    if generation != s.generation {
        return None;
    }
    s.loading = false;
    match found {
        Ok(sessions) => {
            if s.cursor >= sessions.len() {
                s.cursor = 0;
            }
            s.sessions = sessions;
            None
        },
        Err(reason) => Some(reason),
    }
}

} // verus!
