//! The records that the screens show: duplicate groups, directory groups and their actions.

use vstd::prelude::*;

use crate::path::{FilePath, PathView};
use crate::reclaim::ReclaimEstimate;

verus! {

/// What is done with a duplicate.
#[derive(Debug, Clone, Copy, PartialEq, Eq, Structural)]
pub enum ActionKind {
    Delete,
    Hardlink,
    Reflink,
}

/// Name of an action.
pub open spec fn action_label(kind: ActionKind) -> Seq<char> {
    match kind {
        ActionKind::Delete => "DELETE"@,
        ActionKind::Hardlink => "HARDLINK"@,
        ActionKind::Reflink => "REFLINK"@,
    }
}

/// Name of an action in running text.
pub open spec fn action_word(kind: ActionKind) -> Seq<char> {
    match kind {
        ActionKind::Delete => "delete"@,
        ActionKind::Hardlink => "hardlink"@,
        ActionKind::Reflink => "reflink"@,
    }
}

impl ActionKind {
    /// Name of the action in running text.
    pub fn word(self) -> (r: &'static str)
        ensures
            r@ == action_word(self),
    {
        match self {
            ActionKind::Delete => "delete",
            ActionKind::Hardlink => "hardlink",
            ActionKind::Reflink => "reflink",
        }
    }

    /// Name of the action.
    pub fn label(self) -> (r: &'static str)
        ensures
            r@ == action_label(self),
    {
        match self {
            ActionKind::Delete => "DELETE",
            ActionKind::Hardlink => "HARDLINK",
            ActionKind::Reflink => "REFLINK",
        }
    }
}

/// One file of a duplicate group.
#[derive(Debug, Clone)]
pub struct FileEntry {
    pub path: FilePath,
    pub size: u64,
    pub device: u64,
    pub inode: u64,
    pub is_keeper: bool,
    pub action: Option<ActionKind>,
}

/// The content of a file of a duplicate group.
#[verifier::ext_equal]
pub struct FileModel {
    pub path: PathView,
    pub size: u64,
    pub device: u64,
    pub inode: u64,
    pub is_keeper: bool,
    pub action: Option<ActionKind>,
}

impl View for FileEntry {
    type V = FileModel;

    open spec fn view(&self) -> FileModel {
        FileModel {
            path: self.path@,
            size: self.size,
            device: self.device,
            inode: self.inode,
            is_keeper: self.is_keeper,
            action: self.action,
        }
    }
}

impl FileModel {
    /// Two entries are names of one allocation.
    pub open spec fn same_physical(self, other: FileModel) -> bool {
        self.device == other.device && self.inode == other.inode
    }
}

impl FileEntry {
    /// Whether two entries are names of one allocation.
    pub fn same_physical(&self, other: &FileEntry) -> (r: bool)
        ensures
            r == self@.same_physical(other@),
    {
        self.device == other.device && self.inode == other.inode
    }
}

/// A group of files with one content.
#[derive(Debug, Clone)]
pub struct DuplicateGroup {
    pub id: i64,
    pub size_bytes: u64,
    pub hash: String,
    pub files: Vec<FileEntry>,
}

/// The contents of several files of a group.
pub open spec fn files_model(files: Seq<FileEntry>) -> Seq<FileModel> {
    files.map_values(|f: FileEntry| f@)
}

/// A row of the group list: a group without its files.
#[derive(Debug, Clone)]
pub struct GroupSummary {
    pub rank: i64,
    pub hash: String,
    pub file_count: u64,
    pub size_bytes: u64,
    pub object_count: u64,
    pub reclaim: ReclaimEstimate,
}

/// A group of directories with one content.
#[derive(Debug, Clone)]
pub struct DirGroup {
    pub id: i64,
    pub paths: Vec<FilePath>,
    pub file_count: u64,
    pub size_per_dir: u64,
    pub reclaimable: u64,
}

/// A row of the directory-group list: a group without its paths.
#[derive(Debug, Clone)]
pub struct DirGroupSummary {
    pub rank: i64,
    pub signature: String,
    pub dir_count: u64,
    pub file_count: u64,
    pub reclaim: u64,
}

/// The contents of several paths.
pub open spec fn paths_model(paths: Seq<FilePath>) -> Seq<PathView> {
    paths.map_values(|p: FilePath| p@)
}

/// How the files of a group are written.
#[derive(Debug, Clone, Copy, PartialEq, Eq, Structural)]
pub enum PathStyle {
    /// The directory dimmed, then the name.
    DimDir,
    /// The name, then the directory.
    NameFirst,
    /// Each level of the directory in a colour of its own, then the name.
    TreeGraded,
}

/// Caption of a way of writing paths.
pub open spec fn path_style_label(style: PathStyle) -> Seq<char> {
    match style {
        PathStyle::DimDir => "dim directory"@,
        PathStyle::NameFirst => "name first"@,
        PathStyle::TreeGraded => "tree"@,
    }
}

impl PathStyle {
    /// Caption of the way of writing paths.
    pub fn label(self) -> (r: &'static str)
        ensures
            r@ == path_style_label(self),
    {
        match self {
            PathStyle::DimDir => "dim directory",
            PathStyle::NameFirst => "name first",
            PathStyle::TreeGraded => "tree",
        }
    }
}


/// One action of a plan.
#[derive(Debug, Clone)]
pub struct PlannedAction {
    pub kind: ActionKind,
    pub target: FilePath,
    pub keeper: FilePath,
    pub target_device: u64,
    pub keeper_device: u64,
    pub size: u64,
    pub expected_hash: String,
}

/// Why an allocation of a plan is worth nothing, or less than it seems.
#[derive(Debug, Clone)]
pub struct PlanWarning {
    pub path: FilePath,
    pub reason: String,
}

/// What a plan amounts to.
#[derive(Debug, Clone)]
pub struct PlanSummary {
    pub actions: usize,
    pub covered_objects: usize,
    pub estimate: ReclaimEstimate,
    pub warnings: Vec<PlanWarning>,
}

/// A plan as the store built it.
#[derive(Debug, Clone)]
pub struct ActionPlan {
    pub actions: Vec<PlannedAction>,
    pub summary: PlanSummary,
}

/// Whether and how far a scan got.
#[derive(Debug, Clone, Copy, PartialEq, Eq, Structural)]
pub enum ScanStatus {
    Walking,
    Hashing,
    Complete,
    CompleteWithWarnings,
    Aborted,
}

impl ScanStatus {
    /// A scan whose result can be opened.
    pub open spec fn spec_is_completed(self) -> bool {
        self == ScanStatus::Complete || self == ScanStatus::CompleteWithWarnings
    }

    /// Whether the scan's result can be opened.
    pub fn is_completed(self) -> (r: bool)
        ensures
            r == self.spec_is_completed(),
    {
        match self {
            ScanStatus::Complete => true,
            ScanStatus::CompleteWithWarnings => true,
            _ => false,
        }
    }
}

/// A saved scan.
#[derive(Debug, Clone)]
pub struct ResumeInfo {
    pub scan_id: i64,
    pub created_at: String,
    pub status: ScanStatus,
    pub roots: Vec<FilePath>,
    pub files_total: u64,
    pub files_hashed: u64,
    pub cand_bytes_total: u64,
    pub cand_bytes_hashed: u64,
    pub files_scanned: u64,
    pub reclaimable_bytes: u64,
    pub reclaim: ReclaimEstimate,
}

} // verus!
