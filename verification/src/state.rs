//! State of the multi-panel interface: panels, overlays and everything that waits for an answer.

use vstd::prelude::*;

use crate::dedup::DirTrust;
use crate::model::{ActionKind, ActionPlan, DirGroup, DuplicateGroup, PlannedAction};
use crate::panels::{Panel, PanelModel};
use crate::path::{FilePath, PathKey, PathView};
use crate::reclaim::GroupClaim;

verus! {

/// Where to route the result of a background directory load: a panel of the commander, the Board
/// source, or one of the Board receivers.
#[derive(Debug, Clone, Copy, PartialEq, Eq, Structural)]
pub enum LoadTarget {
    Commander(usize),
    BoardSource,
    BoardReceiver(usize),
}

/// Request to the background reader: read directory `dir` for the `target` addressee.
/// `generation` — the navigation version (a stale response is discarded),
/// `previous` — the path to return the cursor to after loading.
#[derive(Debug, Clone)]
pub struct PanelLoadRequest {
    pub target: LoadTarget,
    pub generation: u64,
    pub dir: FilePath,
    pub previous: Option<FilePath>,
}

/// The content of a load request.
#[verifier::ext_equal]
pub struct LoadModel {
    pub target: LoadTarget,
    pub generation: u64,
    pub dir: PathView,
    pub previous: Option<PathView>,
}

impl View for PanelLoadRequest {
    type V = LoadModel;

    open spec fn view(&self) -> LoadModel {
        LoadModel {
            target: self.target,
            generation: self.generation,
            dir: self.dir@,
            previous: crate::panels::path_model(self.previous),
        }
    }
}

/// Request to the single background move worker: a batch of `sources` → `dest_dir`.
/// `reload`/`label` — for applying the result after completion; `scan_id` — for the journal.
#[derive(Debug, Clone)]
pub struct MoveRequest {
    pub sources: Vec<FilePath>,
    pub dest_dir: FilePath,
    pub scan_id: Option<i64>,
    pub reload: Vec<(LoadTarget, Option<FilePath>)>,
    pub label: String,
}

/// The content of a move request.
#[verifier::ext_equal]
pub struct MoveModel {
    pub sources: Seq<PathView>,
    pub dest_dir: PathView,
    pub scan_id: Option<i64>,
    pub reload: Seq<(LoadTarget, Option<PathView>)>,
    pub label: Seq<char>,
}

/// The contents of reload requests.
pub open spec fn reload_model(reload: Seq<(LoadTarget, Option<FilePath>)>) -> Seq<
    (LoadTarget, Option<PathView>),
> {
    reload.map_values(
        |r: (LoadTarget, Option<FilePath>)| (r.0, crate::panels::path_model(r.1)),
    )
}

impl View for MoveRequest {
    type V = MoveModel;

    open spec fn view(&self) -> MoveModel {
        MoveModel {
            sources: crate::model::paths_model(self.sources@),
            dest_dir: self.dest_dir@,
            scan_id: self.scan_id,
            reload: reload_model(self.reload@),
            label: self.label@,
        }
    }
}

/// Tab of the F11 confirmation overlay.
#[derive(Debug, Clone, Copy, PartialEq, Eq, Default, Structural)]
pub enum ConfirmTab {
    /// Human-readable summary: how many actions and how much will be freed.
    #[default]
    Summary,
    /// Full shell-script of the plan — for audit and manual launch.
    Commands,
}

/// Modal overlay on top of the commander panels.
#[derive(Debug, Clone, Copy, PartialEq, Eq, Default, Structural)]
pub enum Overlay {
    /// No overlay.
    #[default]
    Closed,
    /// F9 dropdown menu; stores the cursor position.
    Menu { cursor: usize },
    /// Confirmation of executing F11 actions; `tab` — the active tab.
    Confirm { tab: ConfirmTab },
    /// File info (F3).
    FileInfo,
    /// F2: summary over the roots + selection.
    ResumeScan,
}

/// Comparison mode of neighbouring panels.
#[derive(Debug, Clone, Copy, PartialEq, Eq, Default, Structural)]
pub enum CompareMode {
    /// Ordinary view without comparison.
    #[default]
    Off,
    /// Side-by-side: each file gets a match glyph against the neighbouring panel.
    SideBySide,
}

/// Pending triage move: the source is fixed by the `m` key, awaiting the digit of the receiver
/// panel.
#[derive(Debug, Clone)]
pub struct TriagePending {
    pub sources: Vec<FilePath>,
    pub source_panel: usize,
}

/// The content of a pending triage move.
#[verifier::ext_equal]
pub struct TriageModel {
    pub sources: Seq<PathView>,
    pub source_panel: usize,
}

impl View for TriagePending {
    type V = TriageModel;

    open spec fn view(&self) -> TriageModel {
        TriageModel {
            sources: crate::model::paths_model(self.sources@),
            source_panel: self.source_panel,
        }
    }
}

/// A move-journal record for Undo (`u`): (from, to) pairs of a single operation.
#[derive(Debug, Clone)]
pub struct MoveRecord {
    pub items: Vec<(FilePath, FilePath)>,
}

/// The contents of (from, to) pairs.
pub open spec fn pairs_model(items: Seq<(FilePath, FilePath)>) -> Seq<(PathView, PathView)> {
    items.map_values(|p: (FilePath, FilePath)| (p.0@, p.1@))
}

impl View for MoveRecord {
    type V = Seq<(PathView, PathView)>;

    open spec fn view(&self) -> Seq<(PathView, PathView)> {
        pairs_model(self.items@)
    }
}

/// Triage Board state: the source in the middle and four receivers round it, panels of its own.
#[derive(Debug, Clone)]
pub struct BoardState {
    /// The source in the centre — the "inbox" being sorted.
    pub source: Panel,
    /// 4 receivers: 0=top-left(1), 1=bottom-left(2), 2=top-right(3), 3=bottom-right(4).
    pub receivers: Vec<Panel>,
    /// The focused panel: 0 = source, 1–4 = receivers `receivers[focus-1]`.
    pub focus: usize,
    /// The receiver-directory-assignment mode is armed.
    pub assign_pending: bool,
    /// A batch that waits for its safeguard snapshots, and the panel it was taken from.
    pub sending: Option<TriagePending>,
}

/// The content of the Board.
#[verifier::ext_equal]
pub struct BoardModel {
    pub source: PanelModel,
    pub receivers: Seq<PanelModel>,
    pub focus: usize,
    pub assign_pending: bool,
    pub sending: Option<TriageModel>,
}

/// The content of a batch that may be absent.
pub open spec fn pending_model(pending: Option<TriagePending>) -> Option<TriageModel> {
    match pending {
        Some(p) => Some(p@),
        None => None,
    }
}

/// The contents of several panels.
pub open spec fn panels_model(panels: Seq<Panel>) -> Seq<PanelModel> {
    panels.map_values(|p: Panel| p@)
}

impl View for BoardState {
    type V = BoardModel;

    open spec fn view(&self) -> BoardModel {
        BoardModel {
            source: self.source@,
            receivers: panels_model(self.receivers@),
            focus: self.focus,
            assign_pending: self.assign_pending,
            sending: pending_model(self.sending),
        }
    }
}

impl BoardModel {
    /// Four receivers, the focus on one of the five panels, and a waiting batch from one of them.
    pub open spec fn valid(self) -> bool {
        &&& self.receivers.len() == 4 && self.focus <= 4
        &&& self.sending matches Some(batch) ==> batch.source_panel <= 4
    }
}

/// A Board whose panels wait for their directories.
pub open spec fn new_board(source: PathView, receivers: Seq<PathView>) -> BoardModel {
    BoardModel {
        source: crate::panels::empty_panel(source),
        receivers: receivers.map_values(|p: PathView| crate::panels::empty_panel(p)),
        focus: 0,
        assign_pending: false,
        sending: None,
    }
}

impl BoardState {
    /// Builds the Board from starting directories. The panels are empty — the content is loaded
    /// in the background.
    pub fn new(source: FilePath, receivers: [FilePath; 4]) -> (r: BoardState)
        ensures
            r@ == new_board(source@, crate::model::paths_model(receivers@)),
            r@.valid(),
    {
        let mut panels: Vec<Panel> = Vec::new();
        panels.push(Panel::empty(receivers[0].copy()));
        panels.push(Panel::empty(receivers[1].copy()));
        panels.push(Panel::empty(receivers[2].copy()));
        panels.push(Panel::empty(receivers[3].copy()));
        let r = BoardState {
            source: Panel::empty(source),
            receivers: panels,
            focus: 0,
            assign_pending: false,
            sending: None,
        };
        assert(r@.receivers =~= new_board(
            source@,
            crate::model::paths_model(receivers@),
        ).receivers);
        r
    }
}

/// Cache key for the resolved group of a "watching" panel.
#[derive(Debug, Clone)]
pub enum WatchKey {
    /// GroupFiles: index of the selected group in the neighbouring GroupList panel.
    Group(usize),
    /// DuplicatesOfCursor: path of the file under the cursor of the neighbouring panel.
    DupOf(FilePath),
    /// DuplicatesOfCursor for a directory under the cursor.
    DirOf(FilePath),
}

/// The content of a watch key.
pub enum WatchKeyModel {
    Group(usize),
    DupOf(PathView),
    DirOf(PathView),
}

/// What a watched source is told apart by: a path counts by its components.
pub enum WatchId {
    Group(usize),
    DupOf(PathKey),
    DirOf(PathKey),
}

impl WatchKeyModel {
    /// What the key is told apart by.
    pub open spec fn id(self) -> WatchId {
        match self {
            WatchKeyModel::Group(index) => WatchId::Group(index),
            WatchKeyModel::DupOf(path) => WatchId::DupOf(path.key()),
            WatchKeyModel::DirOf(path) => WatchId::DirOf(path.key()),
        }
    }
}

/// What a watched source that may be absent is told apart by.
pub open spec fn watch_id(key: Option<WatchKeyModel>) -> Option<WatchId> {
    match key {
        Some(k) => Some(k.id()),
        None => None,
    }
}

impl View for WatchKey {
    type V = WatchKeyModel;

    open spec fn view(&self) -> WatchKeyModel {
        match *self {
            WatchKey::Group(index) => WatchKeyModel::Group(index),
            WatchKey::DupOf(path) => WatchKeyModel::DupOf(path@),
            WatchKey::DirOf(path) => WatchKeyModel::DirOf(path@),
        }
    }
}

impl WatchKey {
    /// Two keys point at the same source.
    pub fn same(&self, other: &WatchKey) -> (r: bool)
        ensures
            r == (self@.id() == other@.id()),
    {
        match (self, other) {
            (WatchKey::Group(a), WatchKey::Group(b)) => *a == *b,
            (WatchKey::DupOf(a), WatchKey::DupOf(b)) => a.same(b),
            (WatchKey::DirOf(a), WatchKey::DirOf(b)) => a.same(b),
            _ => false,
        }
    }

    /// The same key again.
    pub fn copy(&self) -> (r: WatchKey)
        ensures
            r@ == self@,
    {
        match self {
            WatchKey::Group(index) => WatchKey::Group(*index),
            WatchKey::DupOf(path) => WatchKey::DupOf(path.copy()),
            WatchKey::DirOf(path) => WatchKey::DirOf(path.copy()),
        }
    }
}

/// The content of a watch key that may be absent.
pub open spec fn key_model(key: Option<WatchKey>) -> Option<WatchKeyModel> {
    match key {
        Some(k) => Some(k@),
        None => None,
    }
}

/// An open directory group and the trust it was read with.
#[derive(Debug, Clone)]
pub struct OpenDirGroup {
    pub group: DirGroup,
    pub trust: DirTrust,
}

/// What resolved for a "watching" panel.
#[derive(Debug, Clone)]
pub enum WatchResult {
    /// A group of duplicate files and what it claims.
    FileGroup(DuplicateGroup, Option<GroupClaim>),
    /// Cursor on a directory that has a twin.
    DirGroup(OpenDirGroup),
    /// Cursor on a directory without a twin, but with duplicate files inside.
    InnerDupes { paths: Vec<FilePath>, total: usize },
    /// The same with candidates that nothing vouches for.
    InnerCandidates { paths: Vec<FilePath>, total: usize },
}

/// The reason a watching panel has nothing to show.
#[derive(Debug, Clone, Copy, PartialEq, Eq, Default, Structural)]
pub enum WatchEmpty {
    /// No neighbouring source, or its cursor is on `..`, or the panel does not watch.
    #[default]
    NoSource,
    /// The source and cursor exist, but what is under the cursor is not covered by the scan.
    NotInScan,
    /// Covered by a scan, but no duplicates were found.
    NoDuplicates,
}

/// What could not be read for a watching panel.
#[derive(Debug, Clone, Copy, PartialEq, Eq, Structural)]
pub enum WatchSubject {
    DirectoryGroup,
    FileGroup,
}

/// A watching panel's source exists but its answer failed.
#[derive(Debug, Clone)]
pub struct WatchUnavailable {
    pub subject: WatchSubject,
    pub detail: String,
}

/// Cache entry of a "watching" panel: the source key, the resolved result and the reason for
/// emptiness.
#[derive(Debug, Clone)]
pub struct WatchEntry {
    pub key: Option<WatchKey>,
    pub result: Option<WatchResult>,
    pub empty: WatchEmpty,
    pub unavailable: Option<WatchUnavailable>,
}

/// The content of a watch entry.
#[verifier::ext_equal]
pub struct WatchModel {
    pub key: Option<WatchKeyModel>,
    pub result: Option<WatchResult>,
    pub empty: WatchEmpty,
    pub unavailable: Option<WatchUnavailable>,
}

impl View for WatchEntry {
    type V = WatchModel;

    open spec fn view(&self) -> WatchModel {
        WatchModel {
            key: key_model(self.key),
            result: self.result,
            empty: self.empty,
            unavailable: self.unavailable,
        }
    }
}

/// A watch entry that has not been resolved.
pub open spec fn unresolved() -> WatchModel {
    WatchModel { key: None, result: None, empty: WatchEmpty::NoSource, unavailable: None }
}

impl Default for WatchEntry {
    fn default() -> (r: WatchEntry)
        ensures
            r@ == unresolved(),
    {
        WatchEntry { key: None, result: None, empty: WatchEmpty::NoSource, unavailable: None }
    }
}

impl WatchModel {
    /// The file group of a result, if it is one.
    pub open spec fn file_group(self) -> Option<DuplicateGroup> {
        match self.result {
            Some(WatchResult::FileGroup(group, _)) => Some(group),
            _ => None,
        }
    }
}

impl WatchEntry {
    /// The file group from the result, if it is one.
    pub fn as_file_group(&self) -> (r: Option<&DuplicateGroup>)
        ensures
            r is Some <==> self@.file_group() is Some,
            r matches Some(group) ==> Some(*group) == self@.file_group(),
    {
        match &self.result {
            Some(WatchResult::FileGroup(group, _)) => Some(group),
            _ => None,
        }
    }
}

/// The contents of several watch entries.
pub open spec fn watches_model(entries: Seq<WatchEntry>) -> Seq<WatchModel> {
    entries.map_values(|e: WatchEntry| e@)
}

/// A pending jump on the `o` key — for the "not found" status after the load of the target panel.
#[derive(Debug, Clone)]
pub struct PendingJump {
    /// Index of the target commander panel.
    pub panel: usize,
    /// Navigation version (for discarding stale responses).
    pub generation: u64,
    /// Path of the file the cursor is expected to land on.
    pub file: FilePath,
}

/// The content of a pending jump.
#[verifier::ext_equal]
pub struct JumpModel {
    pub panel: usize,
    pub generation: u64,
    pub file: PathView,
}

impl View for PendingJump {
    type V = JumpModel;

    open spec fn view(&self) -> JumpModel {
        JumpModel { panel: self.panel, generation: self.generation, file: self.file@ }
    }
}

/// The script of the confirmation: absent, ready to be saved and run, or no longer valid.
#[derive(Debug, Clone)]
pub enum ConfirmScript {
    Absent,
    Ready(String),
    Invalidated(String),
}

/// The content of a confirmation script.
pub enum ScriptModel {
    Absent,
    Ready(Seq<char>),
    Invalidated(Seq<char>),
}

impl View for ConfirmScript {
    type V = ScriptModel;

    open spec fn view(&self) -> ScriptModel {
        match *self {
            ConfirmScript::Absent => ScriptModel::Absent,
            ConfirmScript::Ready(script) => ScriptModel::Ready(script@),
            ConfirmScript::Invalidated(reason) => ScriptModel::Invalidated(reason@),
        }
    }
}

impl ConfirmScript {
    /// The script, while it may still be executed.
    pub fn ready(&self) -> (r: Option<&str>)
        ensures
            r is Some <==> self@ is Ready,
            r matches Some(script) ==> self@ == ScriptModel::Ready(script@),
    {
        match self {
            ConfirmScript::Ready(script) => Some(script.as_str()),
            _ => None,
        }
    }

    /// Why the script may not be executed any more.
    pub fn invalidated(&self) -> (r: Option<&str>)
        ensures
            r is Some <==> self@ is Invalidated,
            r matches Some(reason) ==> self@ == ScriptModel::Invalidated(reason@),
    {
        match self {
            ConfirmScript::Invalidated(reason) => Some(reason.as_str()),
            _ => None,
        }
    }
}

/// Scroll position in the script of the confirmation: the first line shown, the number of lines,
/// and the rows of the last drawn window.
#[derive(Debug, Clone, Copy, PartialEq, Eq, Structural)]
pub struct ConfirmScroll {
    pub offset: usize,
    pub total: usize,
    pub rows: u16,
}

/// Nothing to scroll.
pub open spec fn no_scroll() -> ConfirmScroll {
    ConfirmScroll { offset: 0, total: 0, rows: 0 }
}

impl Default for ConfirmScroll {
    fn default() -> (r: ConfirmScroll)
        ensures
            r == no_scroll(),
    {
        ConfirmScroll { offset: 0, total: 0, rows: 0 }
    }
}

impl ConfirmScroll {
    /// The furthest offset that still fills the window.
    pub open spec fn spec_max_offset(self) -> int {
        if self.total > self.rows {
            self.total - self.rows
        } else {
            0
        }
    }

    /// The scroll held to the script.
    pub open spec fn clamped(self, offset: int) -> ConfirmScroll {
        ConfirmScroll {
            offset: if offset < 0 {
                0
            } else if offset > self.spec_max_offset() {
                self.spec_max_offset() as usize
            } else {
                offset as usize
            },
            ..self
        }
    }

    /// First and last line shown, counted from one; nothing where no line is shown.
    pub open spec fn spec_visible_range(self) -> Option<(usize, usize)> {
        if self.total == 0 || self.rows == 0 || self.offset >= self.total {
            None
        } else {
            Some(
                (
                    (self.offset + 1) as usize,
                    (if self.offset + self.rows < self.total {
                        self.offset + self.rows
                    } else {
                        self.total as int
                    }) as usize,
                ),
            )
        }
    }

    /// The furthest offset that still fills the window.
    pub fn max_offset(&self) -> (r: usize)
        ensures
            r == self.spec_max_offset(),
    {
        self.total.saturating_sub(self.rows as usize)
    }

    /// Moves the window by `delta` lines, never outside the script.
    pub fn scroll_by(&mut self, delta: i32)
        ensures
            *final(self) == old(self).clamped(old(self).offset + delta),
    {
        let max: usize = self.max_offset();
        let next: i128 = self.offset as i128 + delta as i128;
        if next < 0 {
            self.offset = 0;
        } else if next > max as i128 {
            self.offset = max;
        } else {
            self.offset = next as usize;
        }
    }

    /// Brings the window back inside the script.
    pub fn clamp(&mut self)
        ensures
            *final(self) == old(self).clamped(old(self).offset as int),
    {
        let max: usize = self.max_offset();
        if self.offset > max {
            self.offset = max;
        }
    }

    /// First and last line shown, counted from one.
    pub fn visible_range(&self) -> (r: Option<(usize, usize)>)
        ensures
            r == self.spec_visible_range(),
    {
        if self.total == 0 || self.rows == 0 || self.offset >= self.total {
            return None;
        }
        let shown: usize = self.total - self.offset;
        let last: usize = if (self.rows as usize) < shown {
            self.offset + self.rows as usize
        } else {
            self.total
        };
        Some((self.offset + 1, last))
    }
}

/// Scrolling never leaves the script: the window stays between the top and the last full page.
pub proof fn law_scrolling_stays_inside(scroll: ConfirmScroll, delta: int)
    ensures
        0 <= scroll.clamped(scroll.offset + delta).offset <= scroll.spec_max_offset(),
        scroll.clamped(scroll.offset + delta).total == scroll.total,
        scroll.clamped(scroll.spec_max_offset()).offset + scroll.rows >= scroll.total,
        scroll.clamped(scroll.clamped(delta).offset as int) == scroll.clamped(delta),
{
}

/// How many targets of a plan the confirmation quotes by name.
pub const SAMPLE_QUOTA: usize = 5;

/// What the confirmation says of a plan: how many actions of each kind, the first few targets and
/// how many are not named.
#[derive(Debug, Clone)]
pub struct PlanDigest {
    pub counts: Vec<(ActionKind, usize)>,
    pub samples: Vec<(ActionKind, FilePath)>,
    pub hidden: usize,
    pub covered_objects: usize,
    pub reclaim: u64,
}

/// The content of a plan digest.
#[verifier::ext_equal]
pub struct DigestModel {
    pub counts: Seq<(ActionKind, usize)>,
    pub samples: Seq<(ActionKind, PathView)>,
    pub hidden: usize,
    pub covered_objects: usize,
    pub reclaim: u64,
}

impl View for PlanDigest {
    type V = DigestModel;

    open spec fn view(&self) -> DigestModel {
        DigestModel {
            counts: self.counts@,
            samples: samples_model(self.samples@),
            hidden: self.hidden,
            covered_objects: self.covered_objects,
            reclaim: self.reclaim,
        }
    }
}

/// The contents of quoted targets.
pub open spec fn samples_model(samples: Seq<(ActionKind, FilePath)>) -> Seq<
    (ActionKind, PathView),
> {
    samples.map_values(|s: (ActionKind, FilePath)| (s.0, s.1@))
}

/// A digest of nothing.
pub open spec fn empty_digest() -> DigestModel {
    DigestModel {
        counts: Seq::empty(),
        samples: Seq::empty(),
        hidden: 0,
        covered_objects: 0,
        reclaim: 0,
    }
}

impl Default for PlanDigest {
    fn default() -> (r: PlanDigest)
        ensures
            r@ == empty_digest(),
    {
        let r = PlanDigest {
            counts: Vec::new(),
            samples: Vec::new(),
            hidden: 0,
            covered_objects: 0,
            reclaim: 0,
        };
        assert(r@.samples =~= empty_digest().samples);
        assert(r@.counts =~= empty_digest().counts);
        r
    }
}

/// Actions of one kind.
pub open spec fn count_of(actions: Seq<PlannedAction>, kind: ActionKind) -> nat
    decreases actions.len(),
{
    if actions.len() == 0 {
        0
    } else {
        count_of(actions.drop_last(), kind) + (if actions.last().kind == kind {
            1nat
        } else {
            0nat
        })
    }
}

/// A kind with its number, where there are any.
pub open spec fn counted(actions: Seq<PlannedAction>, kind: ActionKind) -> Seq<(ActionKind, usize)> {
    if count_of(actions, kind) > 0 {
        seq![(kind, count_of(actions, kind) as usize)]
    } else {
        Seq::empty()
    }
}

/// The digest of a list of actions.
pub open spec fn digest_of(actions: Seq<PlannedAction>) -> DigestModel {
    let named = if actions.len() < 5 {
        actions.len() as int
    } else {
        5
    };
    DigestModel {
        counts: counted(actions, ActionKind::Delete) + counted(actions, ActionKind::Hardlink)
            + counted(actions, ActionKind::Reflink),
        samples: actions.take(named).map_values(|a: PlannedAction| (a.kind, a.target@)),
        hidden: (actions.len() - named) as usize,
        covered_objects: 0,
        reclaim: 0,
    }
}

proof fn lemma_count_fits(actions: Seq<PlannedAction>, kind: ActionKind)
    ensures
        count_of(actions, kind) <= actions.len(),
    decreases actions.len(),
{
    if actions.len() > 0 {
        lemma_count_fits(actions.drop_last(), kind);
    }
}

fn count_kind(actions: &[PlannedAction], kind: ActionKind) -> (r: usize)
    ensures
        r == count_of(actions@, kind),
{
    let mut count: usize = 0;
    let mut i: usize = 0;
    while i < actions.len()
        invariant
            i <= actions@.len(),
            count == count_of(actions@.take(i as int), kind),
            count <= i,
        decreases actions@.len() - i,
    {
        proof {
            assert(actions@.take(i as int + 1).drop_last() =~= actions@.take(i as int));
        }
        if actions[i].kind == kind {
            count = count + 1;
        }
        i = i + 1;
    }
    assert(actions@.take(actions@.len() as int) =~= actions@);
    count
}

impl PlanDigest {
    /// The digest of a list of actions; its worth is filled in from the plan.
    pub fn of(actions: &[PlannedAction]) -> (r: PlanDigest)
        ensures
            r@ == digest_of(actions@),
    {
        let mut counts: Vec<(ActionKind, usize)> = Vec::new();
        let deletes: usize = count_kind(actions, ActionKind::Delete);
        if deletes > 0 {
            counts.push((ActionKind::Delete, deletes));
        }
        assert(counts@ =~= counted(actions@, ActionKind::Delete));
        let hardlinks: usize = count_kind(actions, ActionKind::Hardlink);
        if hardlinks > 0 {
            counts.push((ActionKind::Hardlink, hardlinks));
        }
        assert(counts@ =~= counted(actions@, ActionKind::Delete) + counted(
            actions@,
            ActionKind::Hardlink,
        ));
        let reflinks: usize = count_kind(actions, ActionKind::Reflink);
        if reflinks > 0 {
            counts.push((ActionKind::Reflink, reflinks));
        }
        let named: usize = if actions.len() < SAMPLE_QUOTA {
            actions.len()
        } else {
            SAMPLE_QUOTA
        };
        let mut samples: Vec<(ActionKind, FilePath)> = Vec::new();
        let mut i: usize = 0;
        while i < named
            invariant
                i <= named <= actions@.len(),
                samples@.len() == i,
                forall|k: int|
                    0 <= k < i ==> (#[trigger] samples@[k]).0 == actions@[k].kind && samples@[k].1@
                        == actions@[k].target@,
            decreases named - i,
        {
            samples.push((actions[i].kind, actions[i].target.copy()));
            i = i + 1;
        }
        let r = PlanDigest {
            counts,
            samples,
            hidden: actions.len() - named,
            covered_objects: 0,
            reclaim: 0,
        };
        assert(r@.counts =~= digest_of(actions@).counts);
        assert(r@.samples =~= digest_of(actions@).samples);
        r
    }
}

/// The digest of a plan.
pub open spec fn plan_digest(plan: ActionPlan) -> DigestModel {
    DigestModel {
        covered_objects: plan.summary.covered_objects,
        reclaim: plan.summary.estimate.guaranteed,
        ..digest_of(plan.actions@)
    }
}

impl ActionPlan {
    /// What the confirmation says of the plan.
    pub fn digest(&self) -> (r: PlanDigest)
        ensures
            r@ == plan_digest(*self),
    {
        let mut digest = PlanDigest::of(self.actions.as_slice());
        digest.covered_objects = self.summary.covered_objects;
        digest.reclaim = self.summary.estimate.guaranteed_bytes();
        digest
    }
}

/// A plan is quoted whole or says how many of its targets it does not name: named and hidden add
/// up to the plan.
pub proof fn law_a_digest_accounts_for_every_action(actions: Seq<PlannedAction>)
    requires
        actions.len() <= usize::MAX,
    ensures
        digest_of(actions).samples.len() + digest_of(actions).hidden == actions.len(),
        digest_of(actions).samples.len() <= 5,
        count_of(actions, ActionKind::Delete) + count_of(actions, ActionKind::Hardlink) + count_of(
            actions,
            ActionKind::Reflink,
        ) == actions.len(),
    decreases actions.len(),
{
    if actions.len() > 0 {
        law_a_digest_accounts_for_every_action(actions.drop_last());
    }
}

} // verus!
