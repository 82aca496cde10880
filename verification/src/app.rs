//! The application's state as the commander sees it, and the work it hands out.
//!
//! Whatever needs the outside world — reading a directory, asking the store, moving files — is
//! put into an outbox as an effect; the caller performs it and hands the answer back.

use vstd::prelude::*;

use crate::assoc::Assoc;
use crate::dedup::{DedupCache, DirDedup, GroupId};
use crate::entries::Mark;
use crate::layout::max_panels;
use crate::model::{ActionKind, ActionPlan, DirGroupSummary, GroupSummary, ResumeInfo};
use crate::panels::{Panel, PanelModel};
use crate::path::{FilePath, PathKey, PathView};
use crate::state::{
    BoardModel, BoardState, CompareMode, ConfirmScript, ConfirmScroll, DigestModel, JumpModel,
    LoadModel, LoadTarget, MoveModel, MoveRecord, MoveRequest, OpenDirGroup, Overlay, PanelLoadRequest,
    PendingJump, PlanDigest, ScriptModel, TriageModel, TriagePending, WatchEntry, WatchModel,
};
use crate::text::push_usize;

verus! {

/// A screen of the wizard.
#[derive(Debug, Clone, Copy, PartialEq, Eq, Structural)]
pub enum Screen {
    ScanConfig,
    FolderPicker,
    Resume,
    Scanning,
    Applying,
    Browser,
    ActionReview,
    Summary,
    ScanDiff,
    Trash,
}

/// Which of the two interfaces is on screen.
#[derive(Debug, Clone, Copy, PartialEq, Eq, Structural)]
pub enum AppMode {
    Commander,
    Wizard,
}

/// What a panel's mark asks the plan for.
#[derive(Debug, Clone, Copy, PartialEq, Eq, Structural)]
pub enum MarkIntent {
    Keeper,
    Act(ActionKind),
}

/// A mark submitted to the plan authority.
#[derive(Debug, Clone)]
pub struct RequestedMark {
    pub path: FilePath,
    pub intent: MarkIntent,
}

/// The contents of submitted marks: a file counts by the components of its path.
pub open spec fn requests_model(marks: Seq<RequestedMark>) -> Seq<(PathKey, MarkIntent)> {
    marks.map_values(|m: RequestedMark| (m.path@.key(), m.intent))
}

/// A durable mark on its way to the store.
#[derive(Debug, Clone)]
pub struct MarkWrite {
    pub panel: usize,
    pub path: FilePath,
    pub size: u64,
    pub mtime: i64,
    pub device: u64,
    pub inode: u64,
    pub is_keeper: bool,
    pub action: Option<ActionKind>,
    pub previous: Option<Mark>,
    pub mark: Option<Mark>,
    /// Where the cursor was.
    pub row: Option<usize>,
}

/// The content of a mark on its way to the store.
#[verifier::ext_equal]
pub struct MarkModel {
    pub panel: usize,
    pub path: PathView,
    pub size: u64,
    pub mtime: i64,
    pub device: u64,
    pub inode: u64,
    pub is_keeper: bool,
    pub action: Option<ActionKind>,
    pub previous: Option<Mark>,
    pub mark: Option<Mark>,
    /// Where the cursor was.
    pub row: Option<usize>,
}

impl View for MarkWrite {
    type V = MarkModel;

    open spec fn view(&self) -> MarkModel {
        MarkModel {
            panel: self.panel,
            path: self.path@,
            size: self.size,
            mtime: self.mtime,
            device: self.device,
            inode: self.inode,
            is_keeper: self.is_keeper,
            action: self.action,
            previous: self.previous,
            mark: self.mark,
            row: self.row,
        }
    }
}

/// Where a move goes: a commander panel or a receiver of the Board.
#[derive(Debug, Clone, Copy, PartialEq, Eq, Structural)]
pub enum Receiver {
    Panel(usize),
    Board(usize),
}

/// What a saved Board layout is reported as.
#[derive(Debug, Clone, Copy, PartialEq, Eq, Structural)]
pub enum SaveNotice {
    /// It was asked for.
    Asked,
    /// The Board was closed.
    Closing,
    /// Not at all: the program is about to end.
    Silent,
}

/// Work for the outside world.
#[derive(Debug, Clone)]
pub enum Effect {
    /// Read a panel's directory.
    LoadPanel(PanelLoadRequest),
    /// Move a batch of files.
    Move(MoveRequest),
    /// Measure a directory.
    SizeDir(FilePath),
    /// Hash a file on request.
    Hash(FilePath),
    /// Hash moved files quietly.
    HashBatch(Vec<FilePath>),
    /// Put moved files back, in this order: from the second path to the first.
    Restore(Vec<(FilePath, FilePath)>),
    /// Open the wizard on a screen.
    OpenWizard(Screen),
    /// Scan roots, asking first where a history exists.
    Scan(Vec<FilePath>),
    /// Scan roots anew.
    ScanNew(Vec<FilePath>),
    /// Resume an unfinished scan.
    Resume(i64),
    /// Open a completed scan.
    OpenCompleted(i64),
    /// Load a scan's dedup overlay.
    LoadDedup(i64),
    /// Which scan covers a directory?
    CoveringScan(FilePath),
    /// What group is this, for a watching panel?
    WatchGroup { panel: usize, id: GroupId },
    /// What is this file a duplicate of, for a watching panel?
    WatchFile { panel: usize, path: FilePath },
    /// What is this directory a twin of, for a watching panel?
    WatchDir { panel: usize, path: FilePath },
    /// Open a directory group for a watching panel.
    OpenDirGroup { panel: usize, signature: String },
    /// What does the authority know of this file? The lines so far come along.
    FileInfo { path: FilePath, lines: Vec<String> },
    /// Dedup attributes of a panel's entries.
    PanelData {
        target: LoadTarget,
        cwd: FilePath,
        files: Vec<FilePath>,
        dirs: Vec<FilePath>,
    },
    /// Make a mark durable, or clear one.
    SaveMark(MarkWrite),
    /// Build a plan from marks.
    BuildPlan(Vec<RequestedMark>),
    /// Apply a plan.
    Apply(ActionPlan),
    /// Save the confirmation's script in a directory, under a name.
    SaveScript { dir: FilePath, name: String, script: String },
    /// Save the Board's directories to a file.
    SaveLayout { path: FilePath, source: FilePath, receivers: Vec<FilePath>, notice: SaveNotice },
    /// Read the Board's directories from a file, if there are any.
    LoadLayout(FilePath),
    /// Take the safeguard snapshots of the sources' datasets, then launch the move.
    Safeguard { sources: Vec<FilePath>, receiver: Receiver },
    /// Stop a running auto-select.
    CancelAutoSelect,
}

/// The content of an effect.
#[verifier::ext_equal]
pub enum EffectModel {
    LoadPanel(LoadModel),
    Move(MoveModel),
    SizeDir(PathView),
    Hash(PathView),
    HashBatch(Seq<PathView>),
    Restore(Seq<(PathView, PathView)>),
    OpenWizard(Screen),
    Scan(Seq<PathView>),
    ScanNew(Seq<PathView>),
    Resume(i64),
    OpenCompleted(i64),
    LoadDedup(i64),
    CoveringScan(PathView),
    WatchGroup { panel: usize, id: GroupId },
    WatchFile { panel: usize, path: PathView },
    WatchDir { panel: usize, path: PathView },
    OpenDirGroup { panel: usize, signature: Seq<char> },
    FileInfo { path: PathView, lines: Seq<Seq<char>> },
    PanelData { target: LoadTarget, cwd: PathView, files: Seq<PathView>, dirs: Seq<PathView> },
    SaveMark(MarkModel),
    BuildPlan(Seq<(PathKey, MarkIntent)>),
    Apply(ActionPlan),
    SaveScript { dir: PathView, name: Seq<char>, script: Seq<char> },
    SaveLayout { path: PathView, source: PathView, receivers: Seq<PathView>, notice: SaveNotice },
    LoadLayout(PathView),
    Safeguard { sources: Seq<PathView>, receiver: Receiver },
    CancelAutoSelect,
}

impl View for Effect {
    type V = EffectModel;

    open spec fn view(&self) -> EffectModel {
        match *self {
            Effect::LoadPanel(request) => EffectModel::LoadPanel(request@),
            Effect::Move(request) => EffectModel::Move(request@),
            Effect::SizeDir(path) => EffectModel::SizeDir(path@),
            Effect::Hash(path) => EffectModel::Hash(path@),
            Effect::HashBatch(paths) => EffectModel::HashBatch(crate::model::paths_model(paths@)),
            Effect::Restore(items) => EffectModel::Restore(crate::state::pairs_model(items@)),
            Effect::OpenWizard(screen) => EffectModel::OpenWizard(screen),
            Effect::Scan(roots) => EffectModel::Scan(crate::model::paths_model(roots@)),
            Effect::ScanNew(roots) => EffectModel::ScanNew(crate::model::paths_model(roots@)),
            Effect::Resume(id) => EffectModel::Resume(id),
            Effect::OpenCompleted(id) => EffectModel::OpenCompleted(id),
            Effect::LoadDedup(id) => EffectModel::LoadDedup(id),
            Effect::CoveringScan(path) => EffectModel::CoveringScan(path@),
            Effect::WatchGroup { panel, id } => EffectModel::WatchGroup { panel, id },
            Effect::WatchFile { panel, path } => EffectModel::WatchFile { panel, path: path@ },
            Effect::WatchDir { panel, path } => EffectModel::WatchDir { panel, path: path@ },
            Effect::OpenDirGroup { panel, signature } => EffectModel::OpenDirGroup {
                panel,
                signature: signature@,
            },
            Effect::FileInfo { path, lines } => EffectModel::FileInfo {
                path: path@,
                lines: crate::browser::strings_model(lines@),
            },
            Effect::PanelData { target, cwd, files, dirs } => EffectModel::PanelData {
                target,
                cwd: cwd@,
                files: crate::model::paths_model(files@),
                dirs: crate::model::paths_model(dirs@),
            },
            Effect::SaveMark(write) => EffectModel::SaveMark(write@),
            Effect::BuildPlan(marks) => EffectModel::BuildPlan(requests_model(marks@)),
            Effect::Apply(plan) => EffectModel::Apply(plan),
            Effect::SaveScript { dir, name, script } => EffectModel::SaveScript {
                dir: dir@,
                name: name@,
                script: script@,
            },
            Effect::SaveLayout { path, source, receivers, notice } => EffectModel::SaveLayout {
                path: path@,
                source: source@,
                receivers: crate::model::paths_model(receivers@),
                notice,
            },
            Effect::LoadLayout(path) => EffectModel::LoadLayout(path@),
            Effect::Safeguard { sources, receiver } => EffectModel::Safeguard {
                sources: crate::model::paths_model(sources@),
                receiver,
            },
            Effect::CancelAutoSelect => EffectModel::CancelAutoSelect,
        }
    }
}

/// Items of the F9 menu.
pub const MENU_ITEMS: usize = 14;

/// State of the commander interface.
#[derive(Debug, Clone)]
pub struct CommanderState {
    /// Panels — from 2 to 4.
    pub panels: Vec<Panel>,
    /// Roots of the ZFS datasets — for quickly changing a panel's root.
    pub roots: Vec<FilePath>,
    /// Index of the focused panel.
    pub active: usize,
    /// Status line (empty — the active panel's directory is shown).
    pub status: String,
    /// The wizard was opened from the commander — exiting the wizard returns here.
    pub return_to_commander: bool,
    /// Dedup cache over the directories of the visible panels.
    pub dedup: DedupCache,
    /// The scan the dedup overlay is read from (`None` — no data).
    pub dedup_scan_id: Option<i64>,
    /// When that scan was made.
    pub scan_created_at: Option<String>,
    /// Scan group summaries for the GroupList/GroupFiles modes.
    pub group_summaries: Vec<GroupSummary>,
    /// The identities of those groups, in the same order.
    pub group_ids: Vec<GroupId>,
    /// Candidates the scan left unverified.
    pub candidates: Option<u64>,
    /// Groups of duplicate directories for DirGroupList/DirGroupFiles.
    pub dir_group_summaries: Vec<DirGroupSummary>,
    /// Why the directory groups could not be read.
    pub dir_groups_error: Option<String>,
    /// Scan for which the summaries and directory groups are loaded.
    pub groups_loaded_for: Option<i64>,
    /// Which scan covers a directory; a value of `None` — no covering scan.
    pub scan_coverage_cache: Assoc<FilePath, Option<i64>>,
    /// Directories whose covering scan was asked for and not yet answered.
    pub coverage_asked: Assoc<FilePath, ()>,
    /// Resolved groups of "watching" panels by panel index.
    pub watch_cache: Vec<WatchEntry>,
    /// Resolved directory groups of "watching" panels by panel index.
    pub watch_dir_cache: Vec<Option<OpenDirGroup>>,
    /// Signatures those directory groups were asked for by.
    pub watch_dir_keys: Vec<Option<String>>,
    /// Background sizes of directories not covered by a scan.
    pub dir_size_cache: Assoc<FilePath, u64>,
    /// Directories with an already-started background size computation.
    pub dir_size_pending: Assoc<FilePath, ()>,
    /// The second layer of F-keys is armed.
    pub second_layer: bool,
    /// Terminal size from the previous frame.
    pub term_width: u16,
    pub term_height: u16,
    /// The open modal overlay.
    pub overlay: Overlay,
    /// Comparison mode of neighbouring panels.
    pub compare_mode: CompareMode,
    /// The action plan awaiting F11 confirmation, what describes it and how far its script is
    /// scrolled.
    pub pending_plan: Option<ActionPlan>,
    pub confirm_script: ConfirmScript,
    pub confirm_digest: PlanDigest,
    pub confirm_scroll: ConfirmScroll,
    /// A move awaiting a receiver.
    pub triage: Option<TriagePending>,
    /// Triage move journal for Undo (`u`); newest at the end.
    pub move_log: Vec<MoveRecord>,
    /// Datasets for which a safety snapshot has already been taken this run.
    pub snapshotted: Assoc<String, ()>,
    /// File info lines for the F3 overlay.
    pub info_lines: Vec<String>,
    /// The last left mouse click: (milliseconds, panel index, entry index).
    pub last_click: Option<(u64, usize, usize)>,
    /// Triage Board; preserved between showings.
    pub board: Option<BoardState>,
    /// The Board is shown and intercepts input.
    pub board_active: bool,
    /// Number of background move batches in progress.
    pub move_pending: usize,
    /// Roots of the scan awaiting confirmation (F2).
    pub pending_scan_roots: Vec<FilePath>,
    /// What the F2 overlay offers.
    pub resume_unfinished: Option<ResumeInfo>,
    pub resume_complete: Option<ResumeInfo>,
    /// A pending "o" jump.
    pub pending_jump: Option<PendingJump>,
}

/// The content of the commander.
pub struct CommanderModel {
    pub panels: Seq<PanelModel>,
    pub roots: Seq<PathView>,
    pub active: usize,
    pub status: Seq<char>,
    pub return_to_commander: bool,
    pub dedup: DedupModel,
    pub dedup_scan_id: Option<i64>,
    pub scan_created_at: Option<String>,
    pub group_summaries: Seq<GroupSummary>,
    pub group_ids: Seq<GroupId>,
    pub candidates: Option<u64>,
    pub dir_group_summaries: Seq<DirGroupSummary>,
    pub dir_groups_error: Option<String>,
    pub groups_loaded_for: Option<i64>,
    pub scan_coverage_cache: Map<PathKey, Option<i64>>,
    pub coverage_asked: Map<PathKey, ()>,
    pub watch_cache: Seq<WatchModel>,
    pub watch_dir_cache: Seq<Option<OpenDirGroup>>,
    pub watch_dir_keys: Seq<Option<Seq<char>>>,
    pub dir_size_cache: Map<PathKey, u64>,
    pub dir_size_pending: Map<PathKey, ()>,
    pub second_layer: bool,
    pub term_width: u16,
    pub term_height: u16,
    pub overlay: Overlay,
    pub compare_mode: CompareMode,
    pub pending_plan: Option<ActionPlan>,
    pub confirm_script: ScriptModel,
    pub confirm_digest: DigestModel,
    pub confirm_scroll: ConfirmScroll,
    pub triage: Option<TriageModel>,
    pub move_log: Seq<Seq<(PathView, PathView)>>,
    pub snapshotted: Map<Seq<char>, ()>,
    pub info_lines: Seq<Seq<char>>,
    pub last_click: Option<(u64, usize, usize)>,
    pub board: Option<BoardModel>,
    pub board_active: bool,
    pub move_pending: usize,
    pub pending_scan_roots: Seq<PathView>,
    pub resume_unfinished: Option<ResumeInfo>,
    pub resume_complete: Option<ResumeInfo>,
    pub pending_jump: Option<JumpModel>,
}

/// The content of the dedup cache.
#[verifier::ext_equal]
pub struct DedupModel {
    pub by_cwd: Map<PathKey, Result<DirDedup, String>>,
    pub pending: Map<PathKey, ()>,
}

impl View for DedupCache {
    type V = DedupModel;

    open spec fn view(&self) -> DedupModel {
        DedupModel { by_cwd: self.by_cwd@, pending: self.pending@ }
    }
}

/// The contents of signatures that may be absent.
pub open spec fn signatures_model(keys: Seq<Option<String>>) -> Seq<Option<Seq<char>>> {
    keys.map_values(
        |k: Option<String>|
            match k {
                Some(s) => Some(s@),
                None => None,
            },
    )
}

impl View for CommanderState {
    type V = CommanderModel;

    open spec fn view(&self) -> CommanderModel {
        CommanderModel {
            panels: crate::state::panels_model(self.panels@),
            roots: crate::model::paths_model(self.roots@),
            active: self.active,
            status: self.status@,
            return_to_commander: self.return_to_commander,
            dedup: self.dedup@,
            dedup_scan_id: self.dedup_scan_id,
            scan_created_at: self.scan_created_at,
            group_summaries: self.group_summaries@,
            group_ids: self.group_ids@,
            candidates: self.candidates,
            dir_group_summaries: self.dir_group_summaries@,
            dir_groups_error: self.dir_groups_error,
            groups_loaded_for: self.groups_loaded_for,
            scan_coverage_cache: self.scan_coverage_cache@,
            coverage_asked: self.coverage_asked@,
            watch_cache: crate::state::watches_model(self.watch_cache@),
            watch_dir_cache: self.watch_dir_cache@,
            watch_dir_keys: signatures_model(self.watch_dir_keys@),
            dir_size_cache: self.dir_size_cache@,
            dir_size_pending: self.dir_size_pending@,
            second_layer: self.second_layer,
            term_width: self.term_width,
            term_height: self.term_height,
            overlay: self.overlay,
            compare_mode: self.compare_mode,
            pending_plan: self.pending_plan,
            confirm_script: self.confirm_script@,
            confirm_digest: self.confirm_digest@,
            confirm_scroll: self.confirm_scroll,
            triage: match self.triage {
                Some(pending) => Some(pending@),
                None => None,
            },
            move_log: self.move_log@.map_values(|r: MoveRecord| r@),
            snapshotted: self.snapshotted@,
            info_lines: crate::browser::strings_model(self.info_lines@),
            last_click: self.last_click,
            board: match self.board {
                Some(board) => Some(board@),
                None => None,
            },
            board_active: self.board_active,
            move_pending: self.move_pending,
            pending_scan_roots: crate::model::paths_model(self.pending_scan_roots@),
            resume_unfinished: self.resume_unfinished,
            resume_complete: self.resume_complete,
            pending_jump: match self.pending_jump {
                Some(jump) => Some(jump@),
                None => None,
            },
        }
    }
}

impl CommanderModel {
    /// From two to four panels, the focus on one of them, the menu's cursor on one of its items,
    /// and a Board that is whole.
    pub open spec fn valid(self) -> bool {
        &&& 2 <= self.panels.len() <= 4
        &&& self.active < self.panels.len()
        &&& (self.overlay matches Overlay::Menu { cursor } ==> cursor < MENU_ITEMS)
        &&& (self.board matches Some(board) ==> board.valid())
    }

    /// The focused panel.
    pub open spec fn active_panel(self) -> PanelModel {
        self.panels[self.active as int]
    }

    /// The commander with one panel replaced.
    pub open spec fn with_panel(self, index: int, panel: PanelModel) -> CommanderModel {
        CommanderModel { panels: self.panels.update(index, panel), ..self }
    }

    /// The commander with another status line.
    pub open spec fn say(self, status: Seq<char>) -> CommanderModel {
        CommanderModel { status, ..self }
    }
}

/// A dataset of the pool: its name and the device its files carry.
#[derive(Debug, Clone)]
pub struct Dataset {
    pub name: String,
    pub device_id: Option<u64>,
}

/// The application.
#[derive(Debug, Clone)]
pub struct App {
    pub commander: CommanderState,
    pub mode: AppMode,
    /// An observer: nothing may be changed.
    pub read_only: bool,
    /// Block cloning is available and enabled.
    pub reflink_safe: bool,
    pub datasets: Vec<Dataset>,
    pub zfs_warnings: usize,
    /// Durable marks that the store has not acknowledged.
    pub pending_marks: usize,
    /// An auto-select is running.
    pub auto_select: bool,
    pub show_help: bool,
    pub should_quit: bool,
    pub results_from_sessions: bool,
    /// The checkpoint database.
    pub db_path: FilePath,
    /// Work handed out and not yet taken.
    pub outbox: Vec<Effect>,
}

/// The content of the application.
pub struct AppModel {
    pub commander: CommanderModel,
    pub mode: AppMode,
    pub read_only: bool,
    pub reflink_safe: bool,
    pub datasets: Seq<Dataset>,
    pub zfs_warnings: usize,
    pub pending_marks: usize,
    pub auto_select: bool,
    pub show_help: bool,
    pub should_quit: bool,
    pub results_from_sessions: bool,
    pub db_path: PathView,
    pub outbox: Seq<EffectModel>,
}

/// The contents of several effects.
pub open spec fn effects_model(effects: Seq<Effect>) -> Seq<EffectModel> {
    effects.map_values(|e: Effect| e@)
}

impl View for App {
    type V = AppModel;

    open spec fn view(&self) -> AppModel {
        AppModel {
            commander: self.commander@,
            mode: self.mode,
            read_only: self.read_only,
            reflink_safe: self.reflink_safe,
            datasets: self.datasets@,
            zfs_warnings: self.zfs_warnings,
            pending_marks: self.pending_marks,
            auto_select: self.auto_select,
            show_help: self.show_help,
            should_quit: self.should_quit,
            results_from_sessions: self.results_from_sessions,
            db_path: self.db_path@,
            outbox: effects_model(self.outbox@),
        }
    }
}

impl AppModel {
    /// The commander is in order.
    pub open spec fn valid(self) -> bool {
        self.commander.valid()
    }

    /// The application with another status line.
    pub open spec fn say(self, status: Seq<char>) -> AppModel {
        AppModel { commander: self.commander.say(status), ..self }
    }

    /// The application with one more effect in the outbox.
    pub open spec fn send(self, effect: EffectModel) -> AppModel {
        AppModel { outbox: self.outbox.push(effect), ..self }
    }

    /// The application with one panel replaced.
    pub open spec fn with_panel(self, index: int, panel: PanelModel) -> AppModel {
        AppModel { commander: self.commander.with_panel(index, panel), ..self }
    }

    /// The application with another Board, or without one.
    pub open spec fn with_board(self, board: Option<BoardModel>) -> AppModel {
        AppModel { commander: CommanderModel { board, ..self.commander }, ..self }
    }

    /// The application with another overlay.
    pub open spec fn with_overlay(self, overlay: Overlay) -> AppModel {
        AppModel { commander: CommanderModel { overlay, ..self.commander }, ..self }
    }

    /// The refusal of a change to an observer.
    pub open spec fn refuse_observer(self, what: Seq<char>) -> AppModel {
        self.say("Read-only mode — "@ + what + " is disabled"@)
    }
}

impl App {
    /// A panel of the commander (mutable reference).
    pub fn panel_mut(&mut self, index: usize) -> (r: &mut Panel)
        requires
            index < old(self)@.commander.panels.len(),
        ensures
            r@ == old(self)@.commander.panels[index as int],
            final(self)@ == old(self)@.with_panel(index as int, final(r)@),
    {
        self.commander.panel_mut(index)
    }

    /// Hands out work.
    pub fn send(&mut self, effect: Effect)
        ensures
            final(self)@ == old(self)@.send(effect@),
    {
        self.outbox.push(effect);
        assert(self@.outbox =~= old(self)@.outbox.push(effect@));
    }

    /// Sets the commander's status line.
    pub fn say(&mut self, status: String)
        ensures
            final(self)@ == old(self)@.say(status@),
    {
        self.commander.status = status;
    }

    /// Sets the commander's status line to fixed text.
    pub fn say_str(&mut self, status: &str)
        ensures
            final(self)@ == old(self)@.say(status@),
    {
        self.commander.status = status.to_string();
    }

    /// Takes the Board out, to work on it.
    pub fn take_board(&mut self) -> (r: Option<BoardState>)
        ensures
            r is Some <==> old(self)@.commander.board is Some,
            r matches Some(board) ==> Some(board@) == old(self)@.commander.board,
            final(self)@ == old(self)@.with_board(None),
    {
        self.commander.board.take()
    }

    /// Puts the Board in.
    pub fn put_board(&mut self, board: BoardState)
        ensures
            final(self)@ == old(self)@.with_board(Some(board@)),
    {
        self.commander.board = Some(board);
    }

    /// Why no plan may be built now, if none may: a plan may not overtake a mark the store has not
    /// accepted yet.
    pub fn plan_gate_refusal(&self) -> (r: Option<String>)
        ensures
            r is Some <==> self@.pending_marks > 0,
            r matches Some(reason) ==> reason@ == plan_gate_words(),
    {
        if self.pending_marks > 0 {
            Some("A mark is still saving — wait for Mark saved before building a plan".to_string())
        } else {
            None
        }
    }

    /// Refuses a change to an observer and says so.
    pub fn deny_if_read_only(&mut self, what: &str) -> (r: bool)
        ensures
            r == old(self).read_only,
            final(self)@ == (if r {
                old(self)@.refuse_observer(what@)
            } else {
                old(self)@
            }),
    {
        if !self.read_only {
            return false;
        }
        let mut text = "Read-only mode — ".to_string();
        text.push_str(what);
        text.push_str(" is disabled");
        self.commander.status = text;
        true
    }
}

/// The refusal of a plan while a mark is unacknowledged.
pub open spec fn plan_gate_words() -> Seq<char> {
    "A mark is still saving — wait for Mark saved before building a plan"@
}

/// The first of the starting directories, or the root.
pub open spec fn first_start(start_dirs: Seq<PathView>) -> PathView {
    if start_dirs.len() > 0 {
        start_dirs[0]
    } else {
        crate::path::path_of(seq![47u8])
    }
}

/// The second of the starting directories, or the first.
pub open spec fn second_start(start_dirs: Seq<PathView>) -> PathView {
    if start_dirs.len() > 1 {
        start_dirs[1]
    } else {
        first_start(start_dirs)
    }
}

/// The directories that the first two panels start in.
pub fn start_paths(start_dirs: &Vec<FilePath>) -> (r: (FilePath, FilePath))
    ensures
        r.0@ == first_start(crate::model::paths_model(start_dirs@)),
        r.1@ == second_start(crate::model::paths_model(start_dirs@)),
{
    let first = if start_dirs.len() > 0 {
        start_dirs[0].copy()
    } else {
        FilePath::root()
    };
    let second = if start_dirs.len() > 1 {
        start_dirs[1].copy()
    } else {
        first.copy()
    };
    (first, second)
}

/// A commander as it starts: two panels and nothing else.
pub open spec fn new_commander(roots: Seq<PathView>, first: PanelModel, second: PanelModel) -> CommanderModel {
    CommanderModel {
        panels: seq![first, second],
        roots,
        active: 0,
        status: Seq::empty(),
        return_to_commander: false,
        dedup: DedupModel { by_cwd: Map::empty(), pending: Map::empty() },
        dedup_scan_id: None,
        scan_created_at: None,
        group_summaries: Seq::empty(),
        group_ids: Seq::empty(),
        candidates: None,
        dir_group_summaries: Seq::empty(),
        dir_groups_error: None,
        groups_loaded_for: None,
        scan_coverage_cache: Map::empty(),
        coverage_asked: Map::empty(),
        watch_cache: Seq::empty(),
        watch_dir_cache: Seq::empty(),
        watch_dir_keys: Seq::empty(),
        dir_size_cache: Map::empty(),
        dir_size_pending: Map::empty(),
        second_layer: false,
        term_width: 80,
        term_height: 24,
        overlay: Overlay::Closed,
        compare_mode: CompareMode::Off,
        pending_plan: None,
        confirm_script: ScriptModel::Absent,
        confirm_digest: crate::state::empty_digest(),
        confirm_scroll: crate::state::no_scroll(),
        triage: None,
        move_log: Seq::empty(),
        snapshotted: Map::empty(),
        info_lines: Seq::empty(),
        last_click: None,
        board: None,
        board_active: false,
        move_pending: 0,
        pending_scan_roots: Seq::empty(),
        resume_unfinished: None,
        resume_complete: None,
        pending_jump: None,
    }
}

/// Replacing a panel replaces its content.
pub proof fn lemma_one_panel_replaced(panels: Seq<Panel>, index: int)
    requires
        0 <= index < panels.len(),
    ensures
        forall|p: Panel|
            #[trigger] crate::state::panels_model(panels.update(index, p))
                == crate::state::panels_model(panels).update(index, p@),
{
    assert forall|p: Panel|
        #[trigger] crate::state::panels_model(panels.update(index, p)) == crate::state::panels_model(
            panels,
        ).update(index, p@) by {
        assert(crate::state::panels_model(panels.update(index, p)) =~= crate::state::panels_model(
            panels,
        ).update(index, p@));
    }
}

impl CommanderState {
    /// Creates the commander over two panels that have been set up in the starting directories.
    pub fn new(start_dirs: Vec<FilePath>, first: Panel, second: Panel) -> (r: CommanderState)
        ensures
            r@ == new_commander(crate::model::paths_model(start_dirs@), first@, second@),
            r@.valid(),
    {
        let mut panels: Vec<Panel> = Vec::new();
        panels.push(first);
        panels.push(second);
        let r = CommanderState {
            panels,
            roots: start_dirs,
            active: 0,
            status: String::new(),
            return_to_commander: false,
            dedup: DedupCache::default(),
            dedup_scan_id: None,
            scan_created_at: None,
            group_summaries: Vec::new(),
            group_ids: Vec::new(),
            candidates: None,
            dir_group_summaries: Vec::new(),
            dir_groups_error: None,
            groups_loaded_for: None,
            scan_coverage_cache: Assoc::new(),
            coverage_asked: Assoc::new(),
            watch_cache: Vec::new(),
            watch_dir_cache: Vec::new(),
            watch_dir_keys: Vec::new(),
            dir_size_cache: Assoc::new(),
            dir_size_pending: Assoc::new(),
            second_layer: false,
            term_width: 80,
            term_height: 24,
            overlay: Overlay::Closed,
            compare_mode: CompareMode::Off,
            pending_plan: None,
            confirm_script: ConfirmScript::Absent,
            confirm_digest: PlanDigest::default(),
            confirm_scroll: ConfirmScroll::default(),
            triage: None,
            move_log: Vec::new(),
            snapshotted: Assoc::new(),
            info_lines: Vec::new(),
            last_click: None,
            board: None,
            board_active: false,
            move_pending: 0,
            pending_scan_roots: Vec::new(),
            resume_unfinished: None,
            resume_complete: None,
            pending_jump: None,
        };
        proof {
            let want = new_commander(crate::model::paths_model(start_dirs@), first@, second@);
            assert(r@.panels =~= want.panels);
            assert(r@.status =~= want.status);
            assert(r@.group_summaries =~= want.group_summaries);
            assert(r@.group_ids =~= want.group_ids);
            assert(r@.dir_group_summaries =~= want.dir_group_summaries);
            assert(r@.watch_cache =~= want.watch_cache);
            assert(r@.watch_dir_cache =~= want.watch_dir_cache);
            assert(r@.watch_dir_keys =~= want.watch_dir_keys);
            assert(r@.move_log =~= want.move_log);
            assert(r@.info_lines =~= want.info_lines);
            assert(r@.pending_scan_roots =~= want.pending_scan_roots);
        }
        r
    }

    /// The focused panel.
    pub fn active_panel(&self) -> (r: &Panel)
        requires
            self@.valid(),
        ensures
            r@ == self@.active_panel(),
    {
        &self.panels[self.active]
    }

    /// The focused panel (mutable reference).
    pub fn active_panel_mut(&mut self) -> (r: &mut Panel)
        requires
            old(self)@.valid(),
        ensures
            r@ == old(self)@.active_panel(),
            final(self)@ == old(self)@.with_panel(old(self).active as int, final(r)@),
    {
        let at: usize = self.active;
        self.panel_mut(at)
    }

    /// A panel (mutable reference).
    pub fn panel_mut(&mut self, index: usize) -> (r: &mut Panel)
        requires
            index < old(self)@.panels.len(),
        ensures
            r@ == old(self)@.panels[index as int],
            final(self)@ == old(self)@.with_panel(index as int, final(r)@),
    {
        proof {
            lemma_one_panel_replaced(self.panels@, index as int);
        }
        let r = &mut self.panels[index];
        r
    }

    /// Moves focus to the next panel.
    pub fn focus_next(&mut self)
        requires
            old(self)@.valid(),
        ensures
            final(self)@ == focused_next(old(self)@),
            final(self)@.valid(),
    {
        self.active = if self.active + 1 < self.panels.len() {
            self.active + 1
        } else {
            0
        };
    }

    /// Moves focus to the previous panel.
    pub fn focus_prev(&mut self)
        requires
            old(self)@.valid(),
        ensures
            final(self)@ == focused_prev(old(self)@),
            final(self)@.valid(),
    {
        self.active = if self.active > 0 {
            self.active - 1
        } else {
            self.panels.len() - 1
        };
    }

    /// Adds a panel at the active panel's directory, without reading it; the caller asks for it
    /// to be loaded. Returns the index of the new panel.
    pub fn add_panel(&mut self) -> (r: Result<usize, String>)
        requires
            old(self)@.valid(),
        ensures
            final(self)@.valid(),
            match r {
                Ok(index) => panel_addition(old(self)@) is None && index == old(self)@.panels.len()
                    && final(self)@ == panel_added(old(self)@),
                Err(message) => panel_addition(old(self)@) == Some(message@) && final(self)@
                    == old(self)@,
            },
    {
        if self.panels.len() >= 4 {
            return Err("Maximum of 4 panels".to_string());
        }
        let fits: usize = max_panels(self.term_width);
        if self.panels.len() >= fits {
            let mut message = "The window width fits no more than ".to_string();
            push_usize(&mut message, fits);
            message.push_str(" panels — widen the terminal");
            return Err(message);
        }
        let cwd = self.active_panel().cwd.copy();
        self.panels.push(Panel::empty(cwd));
        let index: usize = self.panels.len() - 1;
        self.active = index;
        assert(self@.panels =~= panel_added(old(self)@).panels);
        Ok(index)
    }

    /// Removes the active panel, if there are more than two.
    pub fn remove_panel(&mut self) -> (r: Result<(), String>)
        requires
            old(self)@.valid(),
        ensures
            final(self)@.valid(),
            match r {
                Ok(_) => old(self)@.panels.len() > 2 && final(self)@ == panel_removed(old(self)@),
                Err(message) => old(self)@.panels.len() == 2 && message@ == "Minimum of 2 panels"@
                    && final(self)@ == old(self)@,
            },
    {
        if self.panels.len() <= 2 {
            return Err("Minimum of 2 panels".to_string());
        }
        let at: usize = self.active;
        self.panels.remove(at);
        if self.active >= self.panels.len() {
            self.active = self.panels.len() - 1;
        }
        assert(self@.panels =~= panel_removed(old(self)@).panels);
        Ok(())
    }
}

/// The focus one panel on, round and round.
pub open spec fn focused_next(c: CommanderModel) -> CommanderModel {
    CommanderModel {
        active: if c.active + 1 < c.panels.len() {
            (c.active + 1) as usize
        } else {
            0
        },
        ..c
    }
}

/// The focus one panel back, round and round.
pub open spec fn focused_prev(c: CommanderModel) -> CommanderModel {
    CommanderModel {
        active: if c.active > 0 {
            (c.active - 1) as usize
        } else {
            (c.panels.len() - 1) as usize
        },
        ..c
    }
}

/// Why no panel can be added, if none can.
pub open spec fn panel_addition(c: CommanderModel) -> Option<Seq<char>> {
    let fits = crate::layout::panels_that_fit(c.term_width);
    if c.panels.len() >= 4 {
        Some("Maximum of 4 panels"@)
    } else if c.panels.len() >= fits {
        Some(
            "The window width fits no more than "@ + crate::text::decimal(fits as nat)
                + " panels — widen the terminal"@,
        )
    } else {
        None
    }
}

/// One more panel, in the active panel's directory and in focus.
pub open spec fn panel_added(c: CommanderModel) -> CommanderModel {
    CommanderModel {
        panels: c.panels.push(crate::panels::empty_panel(c.active_panel().cwd)),
        active: c.panels.len() as usize,
        ..c
    }
}

/// The active panel gone, the focus on the one that took its place or on the last.
pub open spec fn panel_removed(c: CommanderModel) -> CommanderModel {
    CommanderModel {
        panels: c.panels.remove(c.active as int),
        active: if c.active < c.panels.len() - 1 {
            c.active
        } else {
            (c.panels.len() - 2) as usize
        },
        ..c
    }
}

/// Stepping the focus forth and back ends where it began, and as many steps as there are panels
/// go all the way round.
pub proof fn law_focus_goes_round(c: CommanderModel)
    requires
        c.valid(),
    ensures
        focused_prev(focused_next(c)) == c,
        focused_next(focused_prev(c)) == c,
        c.panels.len() == 2 ==> focused_next(focused_next(c)) == c,
        c.panels.len() == 3 ==> focused_next(focused_next(focused_next(c))) == c,
        c.panels.len() == 4 ==> focused_next(focused_next(focused_next(focused_next(c)))) == c,
{
    assert(focused_prev(focused_next(c)) == c);
    assert(focused_next(focused_prev(c)) == c);
    assert(c.panels.len() == 2 ==> focused_next(focused_next(c)) =~= c);
    assert(c.panels.len() == 3 ==> focused_next(focused_next(focused_next(c))) =~= c);
    assert(c.panels.len() == 4 ==> focused_next(focused_next(focused_next(focused_next(c))))
        =~= c);
}

/// However panels are added and removed, there are from two to four of them and one is in focus.
pub proof fn law_two_to_four_panels(c: CommanderModel)
    requires
        c.valid(),
    ensures
        panel_addition(c) is None ==> panel_added(c).valid(),
        c.panels.len() > 2 ==> panel_removed(c).valid(),
        panel_addition(c) is None ==> panel_removed(panel_added(c)).panels == c.panels,
{
    if panel_addition(c) is None {
        assert(panel_removed(panel_added(c)).panels =~= c.panels);
    }
}

} // verus!
