//! The background move of a batch, as a machine that says what it wants to know or to have done,
//! and takes the answers. The looking, listing, hashing and moving is the caller's.
//!
//! Files are moved dedup-aware: a duplicate lands as `name.dupN`. A directory is moved whole, or
//! its contents are poured into the one that bears its name already, child by child.

use vstd::prelude::*;

use crate::move_batch::{same_size_files, sort_by_name, FileMove, FileMoveModel, FileStep, Look};
use crate::moves::MoveBatchOutcome;
use crate::state::LoadTarget;
use crate::path::{FilePath, PathView};
use crate::sizes::push_path;

verus! {

// ---------------------------------------------------------------------------------------------
// What is counted.
// ---------------------------------------------------------------------------------------------
/// What a batch has come to so far.
#[verifier::ext_equal]
pub struct Tally {
    pub moved: Seq<(PathView, PathView)>,
    pub hashes: Seq<(PathView, [u8; 32])>,
    pub to_hash: Seq<PathView>,
    pub failed: usize,
    pub dups: usize,
    pub reload: Seq<(LoadTarget, Option<PathView>)>,
    pub label: Seq<char>,
    pub error: Option<Seq<char>>,
}

/// What an outcome holds.
pub open spec fn tally(out: MoveBatchOutcome) -> Tally {
    Tally {
        moved: out@.moved,
        hashes: out.hashes@.map_values(|known: (FilePath, [u8; 32])| (known.0@, known.1)),
        to_hash: out@.to_hash,
        failed: out.failed,
        dups: out.dups,
        reload: out@.reload,
        label: out@.label,
        error: out@.error,
    }
}

impl Tally {
    /// One item more has failed.
    pub open spec fn failing(self) -> Tally {
        Tally { failed: crate::marks::more(self.failed), ..self }
    }

    /// So many items more have failed.
    pub open spec fn failing_by(self, count: nat) -> Tally
        decreases count,
    {
        if count == 0 {
            self
        } else {
            self.failing_by((count - 1) as nat).failing()
        }
    }

    /// A directory arrived whole: its pair is in the Undo log.
    pub open spec fn with_dir(self, src: PathView, dest: PathView) -> Tally {
        Tally { moved: self.moved.push((src, dest)), ..self }
    }

    /// A file arrived: its pair is in the Undo log, its hash in the index or itself among those to
    /// be hashed, and a duplicate is counted as one.
    pub open spec fn with_file(
        self,
        src: PathView,
        dest: PathView,
        hash: Option<[u8; 32]>,
        duplicate: bool,
    ) -> Tally {
        Tally {
            moved: self.moved.push((src, dest)),
            hashes: match hash {
                Some(h) => self.hashes.push((dest, h)),
                None => self.hashes,
            },
            to_hash: match hash {
                Some(_) => self.to_hash,
                None => self.to_hash.push(dest),
            },
            dups: if duplicate {
                crate::marks::more(self.dups)
            } else {
                self.dups
            },
            ..self
        }
    }
}

/// Counts an item that failed to move.
pub fn fail(out: &mut MoveBatchOutcome)
    ensures
        tally(*final(out)) == tally(*old(out)).failing(),
{
    if out.failed < usize::MAX {
        out.failed = out.failed + 1;
    }
}

fn log_pair(moved: &mut Vec<(FilePath, FilePath)>, src: FilePath, dest: FilePath)
    ensures
        crate::state::pairs_model(final(moved)@) == crate::state::pairs_model(old(moved)@).push(
            (src@, dest@),
        ),
{
    let ghost before = crate::state::pairs_model(moved@);
    let ghost pair = (src@, dest@);
    moved.push((src, dest));
    assert(crate::state::pairs_model(moved@) =~= before.push(pair));
}

/// Counts a file that was moved from `src` to `dest`.
pub fn file_moved(
    out: &mut MoveBatchOutcome,
    src: &FilePath,
    dest: &FilePath,
    hash: Option<[u8; 32]>,
    duplicate: bool,
)
    ensures
        tally(*final(out)) == tally(*old(out)).with_file(src@, dest@, hash, duplicate),
{
    let ghost before = tally(*out);
    match hash {
        Some(h) => {
            out.hashes.push((dest.copy(), h));
            assert(tally(*out).hashes =~= before.hashes.push((dest@, h)));
        },
        None => push_path(&mut out.to_hash, dest.copy()),
    }
    if duplicate && out.dups < usize::MAX {
        out.dups = out.dups + 1;
    }
    log_pair(&mut out.moved, src.copy(), dest.copy());
}

/// Counts a directory that was moved whole from `src` to `dest`.
pub fn dir_moved(out: &mut MoveBatchOutcome, src: &FilePath, dest: &FilePath)
    ensures
        tally(*final(out)) == tally(*old(out)).with_dir(src@, dest@),
{
    log_pair(&mut out.moved, src.copy(), dest.copy());
}

/// The outcome of a batch that died instead of returning: every source counts as failed.
pub fn batch_died(sources: usize, error: String) -> (r: MoveBatchOutcome)
    ensures
        tally(r) == (Tally { failed: sources, error: Some(error@), ..nothing_moved() }),
{
    let mut out = MoveBatchOutcome::default();
    out.failed = sources;
    out.error = Some(error);
    assert(tally(out) =~= (Tally { failed: sources, error: Some(error@), ..nothing_moved() }));
    out
}

/// A batch that has come to nothing yet.
pub open spec fn nothing_moved() -> Tally {
    Tally {
        moved: Seq::empty(),
        hashes: Seq::empty(),
        to_hash: Seq::empty(),
        failed: 0,
        dups: 0,
        reload: Seq::empty(),
        label: Seq::empty(),
        error: None,
    }
}

// ---------------------------------------------------------------------------------------------
// The machine.
// ---------------------------------------------------------------------------------------------
/// Work that is still to be done.
#[derive(Debug, Clone)]
pub enum Task {
    /// Move an item into a directory.
    Move { src: FilePath, dest_dir: FilePath },
    /// Remove a directory whose contents were merged; so many items had failed before.
    Close { dir: FilePath, failed_before: usize },
}

/// The content of a piece of work.
#[verifier::ext_equal]
pub enum TaskModel {
    Move { src: PathView, dest_dir: PathView },
    Close { dir: PathView, failed_before: usize },
}

impl View for Task {
    type V = TaskModel;

    open spec fn view(&self) -> TaskModel {
        match *self {
            Task::Move { src, dest_dir } => TaskModel::Move { src: src@, dest_dir: dest_dir@ },
            Task::Close { dir, failed_before } => TaskModel::Close { dir: dir@, failed_before },
        }
    }
}

/// The contents of the work that is still to be done, the next at the end.
pub open spec fn tasks_model(tasks: Seq<Task>) -> Seq<TaskModel> {
    tasks.map_values(|task: Task| task@)
}

/// What the batch is at.
#[derive(Debug, Clone)]
pub enum Stage {
    /// What is the item?
    Looking { src: FilePath, dest_dir: FilePath },
    /// Does a directory stand where this one would land?
    Landing { src: FilePath, dest_dir: FilePath, target: FilePath },
    /// What does the directory hold that is to be merged?
    Opening { src: FilePath, target: FilePath },
    /// A directory is moved whole.
    MovingDir { src: FilePath, dest_dir: FilePath },
    /// Which files in the destination are of the same size?
    Sizing { src: FilePath, size: u64, dest_dir: FilePath },
    /// Is the file a duplicate of a candidate?
    Comparing { src: FilePath, dest_dir: FilePath, candidates: Vec<FilePath>, file: FileMove },
    /// A file is moved.
    MovingFile { src: FilePath, dest_dir: FilePath, duplicate: bool, hash: Option<[u8; 32]> },
    /// An emptied directory is removed.
    Removing { dir: FilePath, failed_before: usize },
    /// All is done.
    Done,
}

/// The content of a stage.
#[verifier::ext_equal]
pub enum StageModel {
    Looking { src: PathView, dest_dir: PathView },
    Landing { src: PathView, dest_dir: PathView, target: PathView },
    Opening { src: PathView, target: PathView },
    MovingDir { src: PathView, dest_dir: PathView },
    Sizing { src: PathView, size: u64, dest_dir: PathView },
    Comparing {
        src: PathView,
        dest_dir: PathView,
        candidates: Seq<PathView>,
        file: FileMoveModel,
    },
    MovingFile { src: PathView, dest_dir: PathView, duplicate: bool, hash: Option<[u8; 32]> },
    Removing { dir: PathView, failed_before: usize },
    Done,
}

impl View for Stage {
    type V = StageModel;

    open spec fn view(&self) -> StageModel {
        match *self {
            Stage::Looking { src, dest_dir } => StageModel::Looking {
                src: src@,
                dest_dir: dest_dir@,
            },
            Stage::Landing { src, dest_dir, target } => StageModel::Landing {
                src: src@,
                dest_dir: dest_dir@,
                target: target@,
            },
            Stage::Opening { src, target } => StageModel::Opening { src: src@, target: target@ },
            Stage::MovingDir { src, dest_dir } => StageModel::MovingDir {
                src: src@,
                dest_dir: dest_dir@,
            },
            Stage::Sizing { src, size, dest_dir } => StageModel::Sizing {
                src: src@,
                size,
                dest_dir: dest_dir@,
            },
            Stage::Comparing { src, dest_dir, candidates, file } => StageModel::Comparing {
                src: src@,
                dest_dir: dest_dir@,
                candidates: crate::model::paths_model(candidates@),
                file: file@,
            },
            Stage::MovingFile { src, dest_dir, duplicate, hash } => StageModel::MovingFile {
                src: src@,
                dest_dir: dest_dir@,
                duplicate,
                hash,
            },
            Stage::Removing { dir, failed_before } => StageModel::Removing {
                dir: dir@,
                failed_before,
            },
            Stage::Done => StageModel::Done,
        }
    }
}

/// A batch on its way.
pub struct Batch {
    pub out: MoveBatchOutcome,
    /// What is left, the next at the end.
    pub todo: Vec<Task>,
    pub stage: Stage,
}

/// The content of a batch.
#[verifier::ext_equal]
pub struct BatchModel {
    pub tally: Tally,
    pub todo: Seq<TaskModel>,
    pub stage: StageModel,
}

impl View for Batch {
    type V = BatchModel;

    open spec fn view(&self) -> BatchModel {
        BatchModel {
            tally: tally(self.out),
            todo: tasks_model(self.todo@),
            stage: self.stage@,
        }
    }
}

/// What a source item is.
#[derive(Debug, Clone, Copy, PartialEq, Eq, Structural)]
pub enum ItemKind {
    /// It could not be looked at.
    Missing,
    /// A symbolic link: links are not moved.
    Link,
    Dir,
    /// A file of so many bytes.
    File(u64),
}

/// What the batch is told.
#[derive(Debug, Clone)]
pub enum Answer {
    /// What the item is.
    Kind(ItemKind),
    /// Whether a directory stands there.
    IsDir(bool),
    /// The names in the directory, each that could not be handed over as none; nothing where the
    /// directory could not be opened.
    Listing(Option<Vec<Option<Vec<u8>>>>),
    /// The destination's entries; nothing where it could not be listed.
    Sizes(Option<Vec<(Vec<u8>, Look)>>),
    /// A hash, or that it could not be taken; `gone` says that the file is.
    Hashed { hash: Option<[u8; 32]>, gone: bool },
    /// Where the item landed, or that it could not be moved.
    Moved(Option<FilePath>),
    /// Whether the directory was removed.
    Removed(bool),
}

/// What the batch wants.
#[derive(Debug)]
pub enum Wanted<'a> {
    /// A look at the item.
    Look(&'a FilePath),
    /// To know whether a directory stands there.
    IsDir(&'a FilePath),
    /// The names in a directory.
    List(&'a FilePath),
    /// The entries of a directory with what they are.
    Sizes(&'a FilePath),
    /// A file's hash.
    Hash(&'a FilePath),
    /// A directory moved whole.
    MoveDir { src: &'a FilePath, dest_dir: &'a FilePath },
    /// A file moved under its own name, or as a duplicate under the first free one; the journal
    /// says which, and the hash where it is known.
    MoveFile {
        src: &'a FilePath,
        dest_dir: &'a FilePath,
        duplicate: bool,
        hash: Option<[u8; 32]>,
    },
    /// A directory removed.
    Remove(&'a FilePath),
    /// Nothing more.
    Nothing,
}

/// The content of what the batch wants.
pub enum WantedModel {
    Look(PathView),
    IsDir(PathView),
    List(PathView),
    Sizes(PathView),
    Hash(PathView),
    MoveDir { src: PathView, dest_dir: PathView },
    MoveFile { src: PathView, dest_dir: PathView, duplicate: bool, hash: Option<[u8; 32]> },
    Remove(PathView),
    Nothing,
}

impl<'a> View for Wanted<'a> {
    type V = WantedModel;

    open spec fn view(&self) -> WantedModel {
        match *self {
            Wanted::Look(path) => WantedModel::Look(path@),
            Wanted::IsDir(path) => WantedModel::IsDir(path@),
            Wanted::List(path) => WantedModel::List(path@),
            Wanted::Sizes(path) => WantedModel::Sizes(path@),
            Wanted::Hash(path) => WantedModel::Hash(path@),
            Wanted::MoveDir { src, dest_dir } => WantedModel::MoveDir {
                src: src@,
                dest_dir: dest_dir@,
            },
            Wanted::MoveFile { src, dest_dir, duplicate, hash } => WantedModel::MoveFile {
                src: src@,
                dest_dir: dest_dir@,
                duplicate,
                hash,
            },
            Wanted::Remove(path) => WantedModel::Remove(path@),
            Wanted::Nothing => WantedModel::Nothing,
        }
    }
}

/// The items of a batch as work, the first one last.
pub open spec fn tasks_of(sources: Seq<PathView>, dest_dir: PathView) -> Seq<TaskModel> {
    Seq::new(
        sources.len(),
        |i: int| TaskModel::Move { src: sources[sources.len() - 1 - i], dest_dir },
    )
}

/// The batch turns to the next piece of work.
pub open spec fn next_task(tally: Tally, todo: Seq<TaskModel>) -> BatchModel {
    if todo.len() == 0 {
        BatchModel { tally, todo, stage: StageModel::Done }
    } else {
        BatchModel {
            tally,
            todo: todo.drop_last(),
            stage: match todo.last() {
                TaskModel::Move { src, dest_dir } => StageModel::Looking { src, dest_dir },
                TaskModel::Close { dir, failed_before } => StageModel::Removing {
                    dir,
                    failed_before,
                },
            },
        }
    }
}

/// The item at hand failed, and the batch turns to the next.
pub open spec fn failed_item(m: BatchModel) -> BatchModel {
    next_task(m.tally.failing(), m.todo)
}

/// Where a directory would land.
pub open spec fn dir_target(src: PathView, dest_dir: PathView) -> Option<PathView> {
    match src.file_name() {
        Some(name) => Some(dest_dir.child(name)),
        None => None,
    }
}

/// The item turned out to be of a kind: links and what could not be looked at fail, and so does a
/// directory without a name.
pub open spec fn item_seen(m: BatchModel, src: PathView, dest_dir: PathView, kind: ItemKind) -> BatchModel {
    match kind {
        ItemKind::Missing => failed_item(m),
        ItemKind::Link => failed_item(m),
        ItemKind::Dir => match dir_target(src, dest_dir) {
            Some(target) => BatchModel {
                stage: StageModel::Landing { src, dest_dir, target },
                ..m
            },
            None => failed_item(m),
        },
        ItemKind::File(size) => BatchModel {
            stage: StageModel::Sizing { src, size, dest_dir },
            ..m
        },
    }
}

/// The children that a listing handed over, as paths.
pub open spec fn listed_children(dir: PathView, listing: Seq<Option<Vec<u8>>>) -> Seq<PathView>
    decreases listing.len(),
{
    if listing.len() == 0 {
        Seq::empty()
    } else {
        let before = listed_children(dir, listing.drop_last());
        match listing.last() {
            Some(name) => before.push(dir.child(name@)),
            None => before,
        }
    }
}

/// Entries that a listing could not hand over.
pub open spec fn withheld(listing: Seq<Option<Vec<u8>>>) -> nat
    decreases listing.len(),
{
    if listing.len() == 0 {
        0
    } else {
        withheld(listing.drop_last()) + if listing.last() is None {
            1nat
        } else {
            0nat
        }
    }
}

/// A directory to be merged was opened: each entry that was not handed over has failed, the
/// children are moved in the one canonical order, and then the directory is removed.
pub open spec fn dir_opened(
    m: BatchModel,
    src: PathView,
    target: PathView,
    listing: Option<Vec<Option<Vec<u8>>>>,
) -> BatchModel {
    match listing {
        Some(names) => next_task(
            m.tally.failing_by(withheld(names@)),
            m.todo.push(TaskModel::Close { dir: src, failed_before: m.tally.failed }) + tasks_of(
                crate::move_batch::by_name(listed_children(src, names@)),
                target,
            ),
        ),
        None => failed_item(m),
    }
}

/// The file's move goes on as far as is known.
pub open spec fn file_judged(
    m: BatchModel,
    src: PathView,
    dest_dir: PathView,
    candidates: Seq<PathView>,
    file: FileMoveModel,
) -> BatchModel {
    match crate::move_batch::file_step(file) {
        FileStep::HashOwn => BatchModel {
            stage: StageModel::Comparing { src, dest_dir, candidates, file },
            ..m
        },
        FileStep::HashCandidate(_) => BatchModel {
            stage: StageModel::Comparing { src, dest_dir, candidates, file },
            ..m
        },
        FileStep::MoveInto => BatchModel {
            stage: StageModel::MovingFile { src, dest_dir, duplicate: false, hash: file.own },
            ..m
        },
        FileStep::MoveAsDuplicate => BatchModel {
            stage: StageModel::MovingFile { src, dest_dir, duplicate: true, hash: file.own },
            ..m
        },
        FileStep::Leave => failed_item(m),
    }
}

/// The destination was listed: without an answer for every entry the file fails.
pub open spec fn sizes_known(
    m: BatchModel,
    src: PathView,
    size: u64,
    dest_dir: PathView,
    found: Option<Vec<(Vec<u8>, Look)>>,
) -> BatchModel {
    match found {
        Some(entries) => if crate::move_batch::first_refused(entries@) < entries@.len() {
            failed_item(m)
        } else {
            let candidates = crate::move_batch::by_name(
                crate::move_batch::files_of_size(dest_dir, entries@, size),
            );
            file_judged(
                m,
                src,
                dest_dir,
                candidates,
                crate::move_batch::unread_move(candidates.len() as usize),
            )
        },
        None => failed_item(m),
    }
}

/// A hash came, or did not: the file's own first, then those of the candidates.
pub open spec fn hash_known(
    file: FileMoveModel,
    hash: Option<[u8; 32]>,
    gone: bool,
) -> FileMoveModel {
    if crate::move_batch::file_step(file) == FileStep::HashOwn {
        crate::move_batch::own_read(file, hash)
    } else {
        crate::move_batch::candidate_read(file, hash, gone)
    }
}

/// The item landed, or could not be moved.
pub open spec fn item_moved(m: BatchModel, dest: Option<FilePath>) -> BatchModel {
    match (m.stage, dest) {
        (StageModel::MovingDir { src, .. }, Some(at)) => next_task(
            m.tally.with_dir(src, at@),
            m.todo,
        ),
        (StageModel::MovingFile { src, duplicate, hash, .. }, Some(at)) => next_task(
            m.tally.with_file(src, at@, hash, duplicate),
            m.todo,
        ),
        _ => failed_item(m),
    }
}

/// A merged directory was removed, or stayed: one that is still standing is a failure of its own
/// only where nothing under it failed already — one loss is not reported twice.
pub open spec fn dir_closed(m: BatchModel, failed_before: usize, removed: bool) -> BatchModel {
    if !removed && m.tally.failed == failed_before {
        failed_item(m)
    } else {
        next_task(m.tally, m.todo)
    }
}

/// The batch after an answer. An answer to another question changes nothing.
pub open spec fn answered(m: BatchModel, answer: Answer) -> BatchModel {
    match (m.stage, answer) {
        (StageModel::Looking { src, dest_dir }, Answer::Kind(kind)) => item_seen(
            m,
            src,
            dest_dir,
            kind,
        ),
        (StageModel::Landing { src, dest_dir, target }, Answer::IsDir(there)) => BatchModel {
            stage: if there {
                StageModel::Opening { src, target }
            } else {
                StageModel::MovingDir { src, dest_dir }
            },
            ..m
        },
        (StageModel::Opening { src, target }, Answer::Listing(listing)) => dir_opened(
            m,
            src,
            target,
            listing,
        ),
        (StageModel::MovingDir { .. }, Answer::Moved(dest)) => item_moved(m, dest),
        (StageModel::Sizing { src, size, dest_dir }, Answer::Sizes(found)) => sizes_known(
            m,
            src,
            size,
            dest_dir,
            found,
        ),
        (
            StageModel::Comparing { src, dest_dir, candidates, file },
            Answer::Hashed { hash, gone },
        ) => file_judged(m, src, dest_dir, candidates, hash_known(file, hash, gone)),
        (StageModel::MovingFile { .. }, Answer::Moved(dest)) => item_moved(m, dest),
        (StageModel::Removing { failed_before, .. }, Answer::Removed(removed)) => dir_closed(
            m,
            failed_before,
            removed,
        ),
        _ => m,
    }
}

/// What a stage wants.
pub open spec fn wants(stage: StageModel) -> WantedModel {
    match stage {
        StageModel::Looking { src, .. } => WantedModel::Look(src),
        StageModel::Landing { target, .. } => WantedModel::IsDir(target),
        StageModel::Opening { src, .. } => WantedModel::List(src),
        StageModel::MovingDir { src, dest_dir } => WantedModel::MoveDir { src, dest_dir },
        StageModel::Sizing { dest_dir, .. } => WantedModel::Sizes(dest_dir),
        StageModel::Comparing { src, candidates, file, .. } => match crate::move_batch::file_step(
            file,
        ) {
            FileStep::HashCandidate(i) => if i < candidates.len() {
                WantedModel::Hash(candidates[i as int])
            } else {
                WantedModel::Hash(src)
            },
            _ => WantedModel::Hash(src),
        },
        StageModel::MovingFile { src, dest_dir, duplicate, hash } => WantedModel::MoveFile {
            src,
            dest_dir,
            duplicate,
            hash,
        },
        StageModel::Removing { dir, .. } => WantedModel::Remove(dir),
        StageModel::Done => WantedModel::Nothing,
    }
}

fn push_task(todo: &mut Vec<Task>, task: Task)
    ensures
        tasks_model(final(todo)@) == tasks_model(old(todo)@).push(task@),
{
    let ghost before = tasks_model(todo@);
    todo.push(task);
    assert(tasks_model(todo@) =~= before.push(task@));
}

fn push_items(todo: &mut Vec<Task>, sources: &Vec<FilePath>, dest_dir: &FilePath)
    ensures
        tasks_model(final(todo)@) == tasks_model(old(todo)@) + tasks_of(
            crate::model::paths_model(sources@),
            dest_dir@,
        ),
{
    let ghost before = tasks_model(todo@);
    let ghost all = tasks_of(crate::model::paths_model(sources@), dest_dir@);
    let mut left: usize = sources.len();
    assert(tasks_model(todo@) =~= before + all.take(0));
    while left > 0
        invariant
            left <= sources@.len(),
            all == tasks_of(crate::model::paths_model(sources@), dest_dir@),
            tasks_model(todo@) == before + all.take(sources@.len() - left),
        decreases left,
    {
        left = left - 1;
        push_task(todo, Task::Move { src: sources[left].copy(), dest_dir: dest_dir.copy() });
        assert(before + all.take(sources@.len() - left - 1).push(all[sources@.len() - left - 1])
            =~= (before + all.take(sources@.len() - left - 1)).push(
            all[sources@.len() - left - 1],
        ));
        assert(all.take(sources@.len() - left - 1).push(all[sources@.len() - left - 1])
            =~= all.take(sources@.len() - left));
    }
    assert(all.take(all.len() as int) =~= all);
}

/// Starts the move of `sources` into the directory `dest_dir`.
pub fn run_batch(sources: &Vec<FilePath>, dest_dir: &FilePath) -> (r: Batch)
    ensures
        r@ == next_task(
            nothing_moved(),
            tasks_of(crate::model::paths_model(sources@), dest_dir@),
        ),
{
    let mut todo: Vec<Task> = Vec::new();
    push_items(&mut todo, sources, dest_dir);
    assert(tasks_model(todo@) =~= tasks_of(crate::model::paths_model(sources@), dest_dir@));
    let mut batch = Batch { out: MoveBatchOutcome::default(), todo, stage: Stage::Done };
    assert(tally(batch.out) =~= nothing_moved());
    batch.turn();
    batch
}

fn children_of(dir: &FilePath, listing: &Vec<Option<Vec<u8>>>, out: &mut MoveBatchOutcome) -> (r:
    Vec<FilePath>)
    ensures
        crate::model::paths_model(r@) == crate::move_batch::by_name(
            listed_children(dir@, listing@),
        ),
        tally(*final(out)) == tally(*old(out)).failing_by(withheld(listing@)),
{
    let ghost before = tally(*out);
    let mut children: Vec<FilePath> = Vec::new();
    let mut i: usize = 0;
    assert(crate::model::paths_model(children@) =~= Seq::empty());
    while i < listing.len()
        invariant
            i <= listing@.len(),
            crate::model::paths_model(children@) == listed_children(
                dir@,
                listing@.take(i as int),
            ),
            tally(*out) == before.failing_by(withheld(listing@.take(i as int))),
        decreases listing@.len() - i,
    {
        assert(listing@.take(i as int + 1).drop_last() =~= listing@.take(i as int));
        match &listing[i] {
            Some(name) => push_path(&mut children, dir.child(name)),
            None => fail(out),
        }
        i = i + 1;
    }
    assert(listing@.take(listing@.len() as int) =~= listing@);
    sort_by_name(children)
}

/// Where a directory would land in `dest_dir`; nowhere if it has no name.
pub fn landing_of(src: &FilePath, dest_dir: &FilePath) -> (r: Option<FilePath>)
    ensures
        crate::panels::path_model(r) == dir_target(src@, dest_dir@),
{
    match src.file_name() {
        Some(name) => Some(dest_dir.child(&name)),
        None => None,
    }
}

impl Batch {
    /// Turns to the next piece of work.
    fn turn(&mut self)
        ensures
            final(self)@ == next_task(old(self)@.tally, old(self)@.todo),
    {
        let ghost before = self@;
        match self.todo.pop() {
            Some(task) => {
                assert(tasks_model(self.todo@) =~= before.todo.drop_last());
                self.stage = match task {
                    Task::Move { src, dest_dir } => Stage::Looking { src, dest_dir },
                    Task::Close { dir, failed_before } => Stage::Removing { dir, failed_before },
                };
            },
            None => {
                self.stage = Stage::Done;
            },
        }
    }

    /// Counts the item at hand as failed and turns to the next.
    fn skip(&mut self)
        ensures
            final(self)@ == failed_item(old(self)@),
    {
        fail(&mut self.out);
        self.turn();
    }

    /// The item turned out to be of a kind.
    fn move_item(&mut self, src: FilePath, dest_dir: FilePath, kind: ItemKind)
        ensures
            final(self)@ == item_seen(old(self)@, src@, dest_dir@, kind),
    {
        match kind {
            ItemKind::Missing => self.skip(),
            ItemKind::Link => self.skip(),
            ItemKind::Dir => match landing_of(&src, &dest_dir) {
                Some(target) => {
                    self.stage = Stage::Landing { src, dest_dir, target };
                },
                None => self.skip(),
            },
            ItemKind::File(size) => {
                self.stage = Stage::Sizing { src, size, dest_dir };
            },
        }
    }

    /// Merges the contents of `src` into the existing directory `target`: the children are moved
    /// in the order of their names, so that of several with equal content the same one keeps its
    /// name wherever the merge runs; then the emptied `src` is removed.
    fn merge_dir(
        &mut self,
        src: FilePath,
        target: FilePath,
        listing: Option<Vec<Option<Vec<u8>>>>,
    )
        ensures
            final(self)@ == dir_opened(old(self)@, src@, target@, listing),
    {
        match listing {
            Some(names) => {
                let failed_before: usize = self.out.failed;
                let children = children_of(&src, &names, &mut self.out);
                push_task(&mut self.todo, Task::Close { dir: src, failed_before });
                push_items(&mut self.todo, &children, &target);
                self.turn();
            },
            None => self.skip(),
        }
    }

    /// The file's move goes on as far as is known.
    fn move_file_item(
        &mut self,
        src: FilePath,
        dest_dir: FilePath,
        candidates: Vec<FilePath>,
        file: FileMove,
    )
        ensures
            final(self)@ == file_judged(
                old(self)@,
                src@,
                dest_dir@,
                crate::model::paths_model(candidates@),
                file@,
            ),
    {
        let hash = file.own;
        match file.next_step() {
            FileStep::MoveInto => {
                self.stage = Stage::MovingFile { src, dest_dir, duplicate: false, hash };
            },
            FileStep::MoveAsDuplicate => {
                self.stage = Stage::MovingFile { src, dest_dir, duplicate: true, hash };
            },
            FileStep::Leave => self.skip(),
            _ => {
                self.stage = Stage::Comparing { src, dest_dir, candidates, file };
            },
        }
    }

    /// The destination was listed.
    fn sizes_listed(
        &mut self,
        src: FilePath,
        size: u64,
        dest_dir: FilePath,
        found: Option<Vec<(Vec<u8>, Look)>>,
    )
        ensures
            final(self)@ == sizes_known(old(self)@, src@, size, dest_dir@, found),
    {
        match found {
            Some(entries) => match same_size_files(&dest_dir, &entries, size) {
                Ok(candidates) => {
                    let file = FileMove::new(candidates.len());
                    self.move_file_item(src, dest_dir, candidates, file);
                },
                Err(_) => self.skip(),
            },
            None => self.skip(),
        }
    }

    /// The end of a merge.
    fn close_dir(&mut self, failed_before: usize, removed: bool)
        ensures
            final(self)@ == dir_closed(old(self)@, failed_before, removed),
    {
        if !removed && self.out.failed == failed_before {
            self.skip();
        } else {
            self.turn();
        }
    }

    /// What the batch wants next.
    pub fn wanted(&self) -> (r: Wanted<'_>)
        ensures
            r@ == wants(self@.stage),
    {
        match &self.stage {
            Stage::Looking { src, .. } => Wanted::Look(src),
            Stage::Landing { target, .. } => Wanted::IsDir(target),
            Stage::Opening { src, .. } => Wanted::List(src),
            Stage::MovingDir { src, dest_dir } => Wanted::MoveDir { src, dest_dir },
            Stage::Sizing { dest_dir, .. } => Wanted::Sizes(dest_dir),
            Stage::Comparing { src, candidates, file, .. } => match file.next_step() {
                FileStep::HashCandidate(i) => {
                    if i < candidates.len() {
                        Wanted::Hash(&candidates[i])
                    } else {
                        Wanted::Hash(src)
                    }
                },
                _ => Wanted::Hash(src),
            },
            Stage::MovingFile { src, dest_dir, duplicate, hash } => Wanted::MoveFile {
                src,
                dest_dir,
                duplicate: *duplicate,
                hash: *hash,
            },
            Stage::Removing { dir, .. } => Wanted::Remove(dir),
            Stage::Done => Wanted::Nothing,
        }
    }

    /// Takes an answer.
    pub fn answer(&mut self, answer: Answer)
        ensures
            final(self)@ == answered(old(self)@, answer),
    {
        let mut stage = Stage::Done;
        std::mem::swap(&mut stage, &mut self.stage);
        match (stage, answer) {
            (Stage::Looking { src, dest_dir }, Answer::Kind(kind)) => self.move_item(
                src,
                dest_dir,
                kind,
            ),
            (Stage::Landing { src, dest_dir, target }, Answer::IsDir(there)) => {
                self.stage = if there {
                    Stage::Opening { src, target }
                } else {
                    Stage::MovingDir { src, dest_dir }
                };
            },
            (Stage::Opening { src, target }, Answer::Listing(listing)) => self.merge_dir(
                src,
                target,
                listing,
            ),
            (Stage::MovingDir { src, .. }, Answer::Moved(dest)) => match dest {
                Some(at) => {
                    dir_moved(&mut self.out, &src, &at);
                    self.turn();
                },
                None => self.skip(),
            },
            (Stage::Sizing { src, size, dest_dir }, Answer::Sizes(found)) => self.sizes_listed(
                src,
                size,
                dest_dir,
                found,
            ),
            (
                Stage::Comparing { src, dest_dir, candidates, file },
                Answer::Hashed { hash, gone },
            ) => {
                let mut file = file;
                match file.next_step() {
                    FileStep::HashOwn => file.own_hashed(hash),
                    _ => file.candidate_hashed(hash, gone),
                }
                self.move_file_item(src, dest_dir, candidates, file);
            },
            (Stage::MovingFile { src, duplicate, hash, .. }, Answer::Moved(dest)) => match dest {
                Some(at) => {
                    file_moved(&mut self.out, &src, &at, hash, duplicate);
                    self.turn();
                },
                None => self.skip(),
            },
            (Stage::Removing { failed_before, .. }, Answer::Removed(removed)) => self.close_dir(
                failed_before,
                removed,
            ),
            (other, _) => {
                self.stage = other;
            },
        }
    }
}

// ---------------------------------------------------------------------------------------------
// Laws.
// ---------------------------------------------------------------------------------------------
/// How many of the pieces of work are items.
pub open spec fn items_left(todo: Seq<TaskModel>) -> nat
    decreases todo.len(),
{
    if todo.len() == 0 {
        0
    } else {
        items_left(todo.drop_last()) + if todo.last() is Move {
            1nat
        } else {
            0nat
        }
    }
}

/// An item is at hand.
pub open spec fn at_an_item(stage: StageModel) -> bool {
    !(stage is Removing || stage is Done)
}

/// All items of the batch: those still to come, the one at hand, those moved and those failed.
pub open spec fn all_items(m: BatchModel) -> nat {
    items_left(m.todo) + (if at_an_item(m.stage) {
        1nat
    } else {
        0nat
    }) + m.tally.moved.len() + m.tally.failed as nat
}

/// No item is lost and none is counted twice: whatever is answered, an item at hand stays at hand
/// or is counted exactly once, as moved or as failed. (A directory that is opened makes way for
/// its children, and one that is closed was an item already.)
pub proof fn law_no_item_is_lost(m: BatchModel, answer: Answer)
    requires
        m.tally.failed < usize::MAX,
        !(m.stage is Opening && answer is Listing && answer->Listing_0 is Some),
        !(m.stage is Removing),
    ensures
        all_items(answered(m, answer)) == all_items(m),
{
    if m.todo.len() > 0 {
        assert(items_left(m.todo) == items_left(m.todo.drop_last()) + if m.todo.last() is Move {
            1nat
        } else {
            0nat
        });
    }
}

proof fn lemma_failing_by(t: Tally, count: nat)
    ensures
        t.failing_by(count).failed >= t.failed,
        t.failing_by(count) == (Tally { failed: t.failing_by(count).failed, ..t }),
    decreases count,
{
    if count > 0 {
        lemma_failing_by(t, (count - 1) as nat);
    }
}

/// What is counted stays counted: failures and duplicates never fall, and the Undo log only grows
/// at its end.
pub proof fn law_what_is_counted_stays(m: BatchModel, answer: Answer)
    ensures
        answered(m, answer).tally.failed >= m.tally.failed,
        answered(m, answer).tally.dups >= m.tally.dups,
        m.tally.moved.is_prefix_of(answered(m, answer).tally.moved),
{
    if let Answer::Listing(Some(names)) = answer {
        lemma_failing_by(m.tally, withheld(names@));
    }
}

/// A directory that opened is merged in the order of its children's names, beginning with the
/// first; an empty one is removed at once.
pub proof fn law_a_merge_follows_the_names(
    m: BatchModel,
    src: PathView,
    target: PathView,
    names: Vec<Option<Vec<u8>>>,
)
    ensures
        ({
            let children = crate::move_batch::by_name(listed_children(src, names@));
            let r = dir_opened(m, src, target, Some(names));
            if children.len() == 0 {
                r.stage == (StageModel::Removing { dir: src, failed_before: m.tally.failed })
            } else {
                &&& r.stage == (StageModel::Looking { src: children[0], dest_dir: target })
                &&& forall|i: int|
                    1 <= i < children.len() ==> r.todo[r.todo.len() - i] == (TaskModel::Move {
                        src: #[trigger] children[i],
                        dest_dir: target,
                    })
            }
        }),
{
    let children = crate::move_batch::by_name(listed_children(src, names@));
    let base = m.todo.push(TaskModel::Close { dir: src, failed_before: m.tally.failed });
    let todo = base + tasks_of(children, target);
    assert forall|i: int| 1 <= i < children.len() implies todo.drop_last()[todo.len() - 1 - i] == (
    TaskModel::Move { src: #[trigger] children[i], dest_dir: target }) by {
        assert(todo[todo.len() - 1 - i] == tasks_of(children, target)[children.len() - 1 - i]);
    }
}

} // verus!
