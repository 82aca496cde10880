//! Panel dedup overlay: what the last scan says of the files of the visible directories.
//!
//! Only the directories of open panels are held; a directory whose read failed is held as its
//! error, never as an empty directory.

use vstd::prelude::*;

use crate::assoc::Assoc;
use crate::path::{FilePath, PathKey, PathView};
use crate::text::hex_encode;

verus! {

/// Identity of a published duplicate group.
#[derive(Debug, Clone, Copy, PartialEq, Eq, Structural)]
pub struct GroupId {
    pub scan_id: i64,
    pub rank: i64,
    pub generation: i64,
}

/// Why a file has no trusted answer.
#[derive(Debug, Clone, Copy, PartialEq, Eq, Structural)]
pub enum PanelMiss {
    /// The scan has no published authority.
    Unknown,
    /// The authority named the file's group inconsistent.
    Inconsistent,
}

/// What the store says of a file of a panel.
#[derive(Debug, Clone, Copy, PartialEq, Eq, Structural)]
pub enum PanelFileStatus {
    NotInScan,
    NotHashed,
    LikelyBySizeMtime { peers: u64 },
    InGroup { id: GroupId, members: u64, distinct_devices: u64 },
    NotGrouped,
    Unavailable(PanelMiss),
}

/// A file of a panel as the store answers it.
#[derive(Debug, Clone)]
pub struct PanelFile {
    pub status: PanelFileStatus,
    pub hash_text: Option<String>,
}

/// Whether a directory signature is vouched for.
#[derive(Debug, Clone, Copy, PartialEq, Eq, Structural)]
pub enum DirTrust {
    Trusted,
    Untrusted,
}

/// A directory's content signature and the trust it was read with.
#[derive(Debug, Clone)]
pub struct LiveDirSignature {
    pub signature: String,
    pub trust: DirTrust,
}

/// Everything one panel refresh answered.
#[derive(Debug, Clone)]
pub struct PanelData {
    pub files: Vec<(FilePath, PanelFile)>,
    pub dir_sizes: Assoc<FilePath, u64>,
    pub dir_signatures: Assoc<FilePath, LiveDirSignature>,
}

/// File status with respect to deduplication (color semaphore).
#[derive(Debug, Clone, Copy, PartialEq, Eq, Structural)]
pub enum DedupStatus {
    /// The file is not in the manifest of the last scan.
    NotInScan,
    /// In the manifest, but not yet hashed.
    Unhashed,
    /// Hashed and in the manifest, but a member of no current group.
    HashedUnique,
    /// Not hashed, but size+mtime matched another — a likely duplicate.
    LikelyDuplicate,
    /// A member of a published group: a duplicate the authority vouches for.
    VerifiedDup,
    /// A member of a published group whose allocations sit on different devices — a hardlink
    /// is impossible.
    DangerousDup,
    /// No trusted answer for this row. It takes no part in exact matching.
    Unavailable,
}

/// Glyph of a status.
pub open spec fn status_glyph(status: DedupStatus) -> char {
    match status {
        DedupStatus::NotInScan => '·',
        DedupStatus::Unhashed => '?',
        DedupStatus::HashedUnique => '-',
        DedupStatus::LikelyDuplicate => '≈',
        DedupStatus::VerifiedDup => '=',
        DedupStatus::DangerousDup => '⚠',
        DedupStatus::Unavailable => '?',
    }
}

/// The semaphore of a membership.
pub open spec fn semaphore(status: PanelFileStatus) -> DedupStatus {
    match status {
        PanelFileStatus::NotInScan => DedupStatus::NotInScan,
        PanelFileStatus::NotHashed => DedupStatus::Unhashed,
        PanelFileStatus::LikelyBySizeMtime { peers } => DedupStatus::LikelyDuplicate,
        PanelFileStatus::InGroup { id, members, distinct_devices } => if distinct_devices > 1 {
            DedupStatus::DangerousDup
        } else {
            DedupStatus::VerifiedDup
        },
        PanelFileStatus::NotGrouped => DedupStatus::HashedUnique,
        PanelFileStatus::Unavailable(miss) => DedupStatus::Unavailable,
    }
}

/// A status that only a published group can give.
pub open spec fn vouched(status: DedupStatus) -> bool {
    status == DedupStatus::VerifiedDup || status == DedupStatus::DangerousDup
}

impl DedupStatus {
    /// Status glyph for the panel column.
    pub fn glyph(self) -> (r: char)
        ensures
            r == status_glyph(self),
    {
        match self {
            DedupStatus::NotInScan => '·',
            DedupStatus::Unhashed => '?',
            DedupStatus::HashedUnique => '-',
            DedupStatus::LikelyDuplicate => '≈',
            DedupStatus::VerifiedDup => '=',
            DedupStatus::DangerousDup => '⚠',
            DedupStatus::Unavailable => '?',
        }
    }

    /// The semaphore, derived from membership rather than from a digest count: `=` means that the
    /// file is a member of a group the authority published, not that some row shares its digest.
    pub fn from_membership(status: &PanelFileStatus) -> (r: DedupStatus)
        ensures
            r == semaphore(*status),
    {
        match status {
            PanelFileStatus::NotInScan => DedupStatus::NotInScan,
            PanelFileStatus::NotHashed => DedupStatus::Unhashed,
            PanelFileStatus::LikelyBySizeMtime { .. } => DedupStatus::LikelyDuplicate,
            PanelFileStatus::InGroup { distinct_devices, .. } => {
                if *distinct_devices > 1 {
                    DedupStatus::DangerousDup
                } else {
                    DedupStatus::VerifiedDup
                }
            },
            PanelFileStatus::NotGrouped => DedupStatus::HashedUnique,
            PanelFileStatus::Unavailable(_) => DedupStatus::Unavailable,
        }
    }
}

/// The `=` and `⚠` glyphs are earned by membership of a published group and by nothing else.
pub proof fn law_only_membership_is_vouched_for(status: PanelFileStatus)
    ensures
        vouched(semaphore(status)) <==> status is InGroup,
        status_glyph(semaphore(status)) == '=' ==> status is InGroup,
{
}

/// Dedup attributes of a single panel directory: the status and hash of each file, the size and
/// typed signature of each subdirectory.
#[derive(Debug, Clone)]
pub struct DirDedup {
    /// file path → dedup status.
    pub status: Assoc<FilePath, DedupStatus>,
    /// file path → hex hash (hashed only). A digest is content, never the key of a match.
    pub hashes: Assoc<FilePath, String>,
    /// file path → the identity of the published group it belongs to: what cross-panel matching
    /// is keyed on.
    pub groups: Assoc<FilePath, GroupId>,
    /// subdirectory path → total size of scan files under it.
    pub dir_sizes: Assoc<FilePath, u64>,
    /// subdirectory path → content signature with the trust it was read with.
    pub dir_signatures: Assoc<FilePath, LiveDirSignature>,
}

/// Statuses of the files a refresh answered; of two answers for one path the later stands.
pub open spec fn statuses_of(files: Seq<(FilePath, PanelFile)>) -> Map<PathKey, DedupStatus>
    decreases files.len(),
{
    if files.len() == 0 {
        Map::empty()
    } else {
        statuses_of(files.drop_last()).insert(
            files.last().0@.key(),
            semaphore(files.last().1.status),
        )
    }
}

/// Hashes of the files a refresh answered.
pub open spec fn hashes_of(files: Seq<(FilePath, PanelFile)>) -> Map<PathKey, String>
    decreases files.len(),
{
    if files.len() == 0 {
        Map::empty()
    } else {
        match files.last().1.hash_text {
            Some(hash) => hashes_of(files.drop_last()).insert(files.last().0@.key(), hash),
            None => hashes_of(files.drop_last()),
        }
    }
}

/// Published groups of the files a refresh answered.
pub open spec fn groups_of(files: Seq<(FilePath, PanelFile)>) -> Map<PathKey, GroupId>
    decreases files.len(),
{
    if files.len() == 0 {
        Map::empty()
    } else {
        match files.last().1.status {
            PanelFileStatus::InGroup { id, members, distinct_devices } => groups_of(
                files.drop_last(),
            ).insert(files.last().0@.key(), id),
            _ => groups_of(files.drop_last()),
        }
    }
}

impl Default for DirDedup {
    fn default() -> (r: DirDedup)
        ensures
            r.status@ == Map::<PathKey, DedupStatus>::empty(),
            r.hashes@ == Map::<PathKey, String>::empty(),
            r.groups@ == Map::<PathKey, GroupId>::empty(),
            r.dir_sizes@ == Map::<PathKey, u64>::empty(),
            r.dir_signatures@ == Map::<PathKey, LiveDirSignature>::empty(),
    {
        DirDedup {
            status: Assoc::new(),
            hashes: Assoc::new(),
            groups: Assoc::new(),
            dir_sizes: Assoc::new(),
            dir_signatures: Assoc::new(),
        }
    }
}

impl DirDedup {
    /// Everything one panel refresh answered, in the shape the panel renders.
    pub fn from_panel(data: PanelData) -> (r: DirDedup)
        ensures
            r.status@ == statuses_of(data.files@),
            r.hashes@ == hashes_of(data.files@),
            r.groups@ == groups_of(data.files@),
            r.dir_sizes == data.dir_sizes,
            r.dir_signatures == data.dir_signatures,
    {
        let PanelData { files, dir_sizes, dir_signatures } = data;
        let mut status: Assoc<FilePath, DedupStatus> = Assoc::new();
        let mut hashes: Assoc<FilePath, String> = Assoc::new();
        let mut groups: Assoc<FilePath, GroupId> = Assoc::new();
        let mut i: usize = 0;
        proof {
            assert(files@.take(0).len() == 0);
        }
        while i < files.len()
            invariant
                i <= files@.len(),
                status@ == statuses_of(files@.take(i as int)),
                hashes@ == hashes_of(files@.take(i as int)),
                groups@ == groups_of(files@.take(i as int)),
            decreases files@.len() - i,
        {
            let (path, file) = &files[i];
            proof {
                assert(files@.take(i as int + 1).drop_last() =~= files@.take(i as int));
                assert(files@.take(i as int + 1).last() == files@[i as int]);
            }
            match &file.status {
                PanelFileStatus::InGroup { id, .. } => {
                    groups.insert(path.copy(), *id);
                },
                _ => {},
            }
            match &file.hash_text {
                Some(hash) => {
                    hashes.insert(path.copy(), hash.clone());
                },
                None => {},
            }
            status.insert(path.copy(), DedupStatus::from_membership(&file.status));
            i = i + 1;
        }
        assert(files@.take(files@.len() as int) =~= files@);
        DirDedup { status, hashes, groups, dir_sizes, dir_signatures }
    }

    /// Status of a file; a file that is not in the table is not in the scan.
    pub open spec fn spec_status_for(self, path: PathView) -> DedupStatus {
        if self.status@.dom().contains(path.key()) {
            self.status@[path.key()]
        } else {
            DedupStatus::NotInScan
        }
    }

    /// Status of file `path` (not in the map → NotInScan).
    pub fn status_for(&self, path: &FilePath) -> (r: DedupStatus)
        ensures
            r == self.spec_status_for(path@),
    {
        match self.status.get(path) {
            Some(status) => *status,
            None => DedupStatus::NotInScan,
        }
    }

    /// Hash text of a file.
    pub open spec fn spec_hash_for(self, path: PathView) -> Option<Seq<char>> {
        if self.hashes@.dom().contains(path.key()) {
            Some(self.hashes@[path.key()]@)
        } else {
            None
        }
    }

    /// hex hash of file `path`, if it is hashed. For display and comparison heuristics only.
    pub fn hash_for(&self, path: &FilePath) -> (r: Option<&str>)
        ensures
            r is Some <==> self.spec_hash_for(path@) is Some,
            r matches Some(hash) ==> Some(hash@) == self.spec_hash_for(path@),
    {
        match self.hashes.get(path) {
            Some(hash) => Some(hash.as_str()),
            None => None,
        }
    }

    /// Published group of a file.
    pub open spec fn spec_group_of(self, path: PathView) -> Option<GroupId> {
        if self.groups@.dom().contains(path.key()) {
            Some(self.groups@[path.key()])
        } else {
            None
        }
    }

    /// The published identity of file `path`'s group — the only key an exact match may use.
    pub fn group_of(&self, path: &FilePath) -> (r: Option<GroupId>)
        ensures
            r == self.spec_group_of(path@),
    {
        match self.groups.get(path) {
            Some(id) => Some(*id),
            None => None,
        }
    }

    /// Size of the scan files under a subdirectory.
    pub open spec fn spec_dir_size(self, path: PathView) -> Option<u64> {
        if self.dir_sizes@.dom().contains(path.key()) {
            Some(self.dir_sizes@[path.key()])
        } else {
            None
        }
    }

    /// Total size of scan files under subdirectory `path`.
    pub fn dir_size(&self, path: &FilePath) -> (r: Option<u64>)
        ensures
            r == self.spec_dir_size(path@),
    {
        match self.dir_sizes.get(path) {
            Some(size) => Some(*size),
            None => None,
        }
    }

    /// The signature of a subdirectory where it is trusted.
    pub open spec fn spec_trusted_dir_signature(self, path: PathView) -> Option<Seq<char>> {
        if self.dir_signatures@.dom().contains(path.key())
            && self.dir_signatures@[path.key()].trust == DirTrust::Trusted {
            Some(self.dir_signatures@[path.key()].signature@)
        } else {
            None
        }
    }

    /// The trusted content signature of subdirectory `path` — the only form that may enter a
    /// cross-panel exact-match set, a match count or bright highlighting.
    pub fn trusted_dir_signature(&self, path: &FilePath) -> (r: Option<&str>)
        ensures
            r is Some <==> self.spec_trusted_dir_signature(path@) is Some,
            r matches Some(signature) ==> Some(signature@) == self.spec_trusted_dir_signature(path@),
    {
        match self.dir_signatures.get(path) {
            Some(live) => if live.trust == DirTrust::Trusted {
                Some(live.signature.as_str())
            } else {
                None
            },
            None => None,
        }
    }

    /// The signature and trust of subdirectory `path`, for rendering the explicit unverified
    /// state. Never feeds a match set.
    pub fn dir_signature_state(&self, path: &FilePath) -> (r: Option<(&str, DirTrust)>)
        ensures
            r is Some <==> self.dir_signatures@.dom().contains(path@.key()),
            r matches Some(state) ==> state.0@ == self.dir_signatures@[path@.key()].signature@ && state.1
                == self.dir_signatures@[path@.key()].trust,
    {
        match self.dir_signatures.get(path) {
            Some(live) => Some((live.signature.as_str(), live.trust)),
            None => None,
        }
    }
}

/// Dedup cache keyed by the directories of visible panels.
///
/// A failed load is cached as its error rather than as an empty directory.
#[derive(Debug, Clone)]
pub struct DedupCache {
    pub by_cwd: Assoc<FilePath, Result<DirDedup, String>>,
    /// Directories with a started but unfinished background request.
    pub pending: Assoc<FilePath, ()>,
}

impl Default for DedupCache {
    fn default() -> (r: DedupCache)
        ensures
            r.by_cwd@ == Map::<PathKey, Result<DirDedup, String>>::empty(),
            r.pending@ == Map::<PathKey, ()>::empty(),
    {
        DedupCache { by_cwd: Assoc::new(), pending: Assoc::new() }
    }
}

/// Another file of the directory has the same hash.
pub open spec fn has_twin(hashes: Map<PathKey, String>, path: PathKey, hex: Seq<char>) -> bool {
    exists|other: PathKey|
        other != path && #[trigger] hashes.dom().contains(other) && hashes[other]@ == hex
}

/// A file of the directory that has this hash.
pub open spec fn shares(hashes: Map<PathKey, String>, path: PathKey, hex: Seq<char>) -> bool {
    hashes.dom().contains(path) && hashes[path]@ == hex
}

/// The statuses of a directory once the files that share a hash have been told so; what the
/// authority vouches for is not touched.
pub open spec fn told(
    status: Map<PathKey, DedupStatus>,
    sharing: spec_fn(PathKey) -> bool,
    verdict: DedupStatus,
) -> Map<PathKey, DedupStatus> {
    Map::new(
        |p: PathKey| status.dom().contains(p) || sharing(p),
        |p: PathKey|
            if sharing(p) && !(status.dom().contains(p) && vouched(status[p])) {
                verdict
            } else {
                status[p]
            },
    )
}

/// A cache with a hash added to the directory of its file, and nothing else changed: what the
/// authority vouches for keeps its verdict, the files that share the hash are told.
pub open spec fn hash_added(before: DedupCache, after: DedupCache, path: PathView, hash: Seq<u8>) -> bool {
    &&& after.pending == before.pending
    &&& path.parent() is None ==> after.by_cwd@ =~= before.by_cwd@
    &&& path.parent() matches Some(parent) ==> {
        let hex = crate::text::hex_text(hash);
        &&& after.by_cwd@.dom() =~= before.by_cwd@.dom().insert(parent.key())
        &&& forall|cwd: PathKey|
            cwd != parent.key() && before.by_cwd@.dom().contains(cwd) ==> #[trigger] after.by_cwd@[cwd]
                == before.by_cwd@[cwd]
        &&& after.spec_dir(parent) matches Some(dir) && {
            &&& dir.hashes@.dom() =~= before.base_hashes(parent).dom().insert(path.key())
            &&& dir.hashes@[path.key()]@ == hex
            &&& dir.hashes@ =~= before.base_hashes(parent).insert(
                path.key(),
                dir.hashes@[path.key()],
            )
            &&& dir.groups@ =~= before.base_groups(parent)
            &&& dir.dir_sizes@ =~= before.base_dir_sizes(parent)
            &&& dir.dir_signatures@ =~= before.base_dir_signatures(parent)
            &&& dir.status@ =~= told(
                before.base_status(parent),
                |p: PathKey| shares(dir.hashes@, p, hex),
                if has_twin(dir.hashes@, path.key(), hex) {
                    DedupStatus::LikelyDuplicate
                } else {
                    DedupStatus::HashedUnique
                },
            )
        }
    }
}

/// Hashes added one after the other.
pub open spec fn hashes_added(
    before: DedupCache,
    after: DedupCache,
    items: Seq<(FilePath, [u8; 32])>,
) -> bool
    decreases items.len(),
{
    if items.len() == 0 {
        after == before
    } else {
        exists|mid: DedupCache|
            hashes_added(before, mid, items.drop_last()) && #[trigger] hash_added(
                mid,
                after,
                items.last().0@,
                items.last().1@,
            )
    }
}

impl DedupCache {
    /// Adds several hashes, one after the other.
    pub fn insert_hashes(&mut self, items: &Vec<(FilePath, [u8; 32])>)
        ensures
            hashes_added(*old(self), *final(self), items@),
    {
        let ghost before = *self;
        let mut i: usize = 0;
        while i < items.len()
            invariant
                i <= items@.len(),
                hashes_added(before, *self, items@.take(i as int)),
            decreases items@.len() - i,
        {
            let ghost mid = *self;
            self.insert_hash(items[i].0.copy(), items[i].1);
            proof {
                let upto = items@.take(i as int + 1);
                assert(upto.drop_last() =~= items@.take(i as int));
                assert(upto.last() == items@[i as int]);
                assert(hashes_added(before, mid, upto.drop_last()) && hash_added(
                    mid,
                    *self,
                    upto.last().0@,
                    upto.last().1@,
                ));
                assert(upto.len() > 0);
                assert(hashes_added(before, *self, upto));
            }
            i = i + 1;
        }
        assert(items@.take(items@.len() as int) =~= items@);
    }

    /// What is loaded of a directory.
    pub open spec fn spec_dir(self, cwd: PathView) -> Option<DirDedup> {
        if self.by_cwd@.dom().contains(cwd.key()) {
            match self.by_cwd@[cwd.key()] {
                Ok(dir) => Some(dir),
                Err(_) => None,
            }
        } else {
            None
        }
    }

    /// Dedup data of directory `cwd`, if already loaded successfully. A failed load answers
    /// `None` here — fail-closed: no statuses, no signatures, no highlight.
    pub fn dir(&self, cwd: &FilePath) -> (r: Option<&DirDedup>)
        ensures
            r is Some <==> self.spec_dir(cwd@) is Some,
            r matches Some(dir) ==> Some(*dir) == self.spec_dir(cwd@),
    {
        match self.by_cwd.get(cwd) {
            Some(slot) => match slot {
                Ok(dir) => Some(dir),
                Err(_) => None,
            },
            None => None,
        }
    }

    /// The error a directory's read ended in.
    pub open spec fn spec_error(self, cwd: PathView) -> Option<Seq<char>> {
        if self.by_cwd@.dom().contains(cwd.key()) {
            match self.by_cwd@[cwd.key()] {
                Ok(_) => None,
                Err(message) => Some(message@),
            }
        } else {
            None
        }
    }

    /// The load error for directory `cwd`, if its background read failed.
    pub fn error(&self, cwd: &FilePath) -> (r: Option<&str>)
        ensures
            r is Some <==> self.spec_error(cwd@) is Some,
            r matches Some(message) ==> Some(message@) == self.spec_error(cwd@),
    {
        match self.by_cwd.get(cwd) {
            Some(slot) => match slot {
                Ok(_) => None,
                Err(message) => Some(message.as_str()),
            },
            None => None,
        }
    }

    /// A background request is running for directory `cwd` (still loading).
    pub fn is_pending(&self, cwd: &FilePath) -> (r: bool)
        ensures
            r == self.pending@.dom().contains(cwd@.key()),
    {
        self.pending.contains(cwd)
    }

    /// The scan has files under a directory.
    pub open spec fn spec_covered(self, cwd: PathView) -> bool {
        match self.spec_dir(cwd) {
            Some(dir) => dir.status@ != Map::<PathKey, DedupStatus>::empty() || dir.dir_sizes@
                != Map::<PathKey, u64>::empty(),
            None => false,
        }
    }

    /// Directory `cwd` is covered by the scan — there are scan files under it (directly in
    /// the directory or in subdirectories).
    pub fn covered(&self, cwd: &FilePath) -> (r: bool)
        ensures
            r == self.spec_covered(cwd@),
    {
        match self.dir(cwd) {
            Some(dir) => !dir.status.is_empty() || !dir.dir_sizes.is_empty(),
            None => false,
        }
    }

    /// Marks `cwd` as "fetch started".
    pub fn mark_pending(&mut self, cwd: FilePath)
        ensures
            final(self).by_cwd == old(self).by_cwd,
            final(self).pending@ == old(self).pending@.insert(cwd@.key(), ()),
    {
        self.pending.insert(cwd, ());
    }

    /// Places the result of a directory's background request into the cache (clears pending).
    pub fn insert_dir(&mut self, cwd: FilePath, dir: Result<DirDedup, String>)
        ensures
            final(self).pending@ == old(self).pending@.remove(cwd@.key()),
            final(self).by_cwd@ == old(self).by_cwd@.insert(cwd@.key(), dir),
    {
        self.pending.remove(&cwd);
        self.by_cwd.insert(cwd, dir);
    }

    /// Discards the cache of directories not in `keep` (the panels' current directories) —
    /// keeps memory at the level of the number of open panels.
    pub fn prune(&mut self, keep: &Assoc<FilePath, ()>)
        ensures
            final(self).pending == old(self).pending,
            final(self).by_cwd@ == old(self).by_cwd@.restrict(keep@.dom()),
    {
        self.by_cwd.retain_keys(keep);
    }

    /// A directory's data before a hash is added to it; an error, or nothing, is an empty start.
    pub open spec fn base_status(self, cwd: PathView) -> Map<PathKey, DedupStatus> {
        match self.spec_dir(cwd) {
            Some(dir) => dir.status@,
            None => Map::empty(),
        }
    }

    /// A directory's hashes before one is added.
    pub open spec fn base_hashes(self, cwd: PathView) -> Map<PathKey, String> {
        match self.spec_dir(cwd) {
            Some(dir) => dir.hashes@,
            None => Map::empty(),
        }
    }

    /// A directory's published groups before a hash is added.
    pub open spec fn base_groups(self, cwd: PathView) -> Map<PathKey, GroupId> {
        match self.spec_dir(cwd) {
            Some(dir) => dir.groups@,
            None => Map::empty(),
        }
    }

    /// A directory's subdirectory sizes before a hash is added.
    pub open spec fn base_dir_sizes(self, cwd: PathView) -> Map<PathKey, u64> {
        match self.spec_dir(cwd) {
            Some(dir) => dir.dir_sizes@,
            None => Map::empty(),
        }
    }

    /// A directory's subdirectory signatures before a hash is added.
    pub open spec fn base_dir_signatures(self, cwd: PathView) -> Map<PathKey, LiveDirSignature> {
        match self.spec_dir(cwd) {
            Some(dir) => dir.dir_signatures@,
            None => Map::empty(),
        }
    }

    /// Adds a hash computed on demand for a file into its directory's cache.
    ///
    /// The hash is compared with the other hashes of the same directory, which is a candidate
    /// signal, not membership: matching digests become `≈` and never `=`, and what the authority
    /// vouches for keeps its verdict. Fresh information supersedes a cached error.
    pub fn insert_hash(&mut self, path: FilePath, hash: [u8; 32])
        ensures
            hash_added(*old(self), *final(self), path@, hash@),
    {
        let parent = match path.parent() {
            Some(parent) => parent,
            None => {
                return ;
            },
        };
        let hex = hex_encode(&hash);
        let slot = self.by_cwd.remove(&parent);
        let mut dir = match slot {
            Some(Ok(dir)) => dir,
            Some(Err(_)) => DirDedup::default(),
            None => DirDedup::default(),
        };
        let ghost base = dir.status@;
        dir.hashes.insert(path.copy(), hex.clone());
        let ghost hashes = dir.hashes@;
        let ghost target = path@.key();
        let mut twin = false;
        let mut i: usize = 0;
        while i < dir.hashes.rows.len()
            invariant
                i <= dir.hashes.rows@.len(),
                hashes == dir.hashes@,
                target == path@.key(),
                twin == (exists|k: int|
                    #![trigger dir.hashes.rows@[k]]
                    0 <= k < i && dir.hashes.rows@[k].0@.key() != target && shares(
                        hashes,
                        dir.hashes.rows@[k].0@.key(),
                        hex@,
                    )),
            decreases dir.hashes.rows@.len() - i,
        {
            let key = &dir.hashes.rows[i].0;
            let same = match dir.hashes.get(key) {
                Some(other) => *other == hex,
                None => false,
            };
            assert(same == shares(hashes, dir.hashes.rows@[i as int].0@.key(), hex@));
            if same && !key.same(&path) {
                twin = true;
            }
            i = i + 1;
        }
        proof {
            assert(twin == has_twin(hashes, target, hex@)) by {
                if twin {
                    let k = choose|k: int|
                        #![trigger dir.hashes.rows@[k]]
                        0 <= k < i && dir.hashes.rows@[k].0@.key() != target && shares(
                            hashes,
                            dir.hashes.rows@[k].0@.key(),
                            hex@,
                        );
                    assert(hashes.dom().contains(dir.hashes.rows@[k].0@.key()));
                }
                if has_twin(hashes, target, hex@) {
                    let other = choose|other: PathKey|
                        other != target && #[trigger] hashes.dom().contains(other)
                            && hashes[other]@ == hex@;
                    crate::assoc::lemma_keys_are_rows(dir.hashes, other);
                }
            }
        }
        let verdict = if twin {
            DedupStatus::LikelyDuplicate
        } else {
            DedupStatus::HashedUnique
        };
        let mut j: usize = 0;
        let ghost reached = |p: PathKey, n: int|
            exists|k: int|
                #![trigger dir.hashes.rows@[k]]
                0 <= k < n && dir.hashes.rows@[k].0@.key() == p && shares(hashes, p, hex@);
        proof {
            assert(dir.status@ =~= told(base, |p: PathKey| reached(p, 0), verdict));
        }
        while j < dir.hashes.rows.len()
            invariant
                j <= dir.hashes.rows@.len(),
                hashes == dir.hashes@,
                !vouched(verdict),
                reached == (|p: PathKey, n: int|
                    exists|k: int|
                        #![trigger dir.hashes.rows@[k]]
                        0 <= k < n && dir.hashes.rows@[k].0@.key() == p && shares(hashes, p, hex@)),
                dir.status@ == told(base, |p: PathKey| reached(p, j as int), verdict),
                dir.groups@ == old(self).base_groups(parent@),
                dir.dir_sizes@ == old(self).base_dir_sizes(parent@),
                dir.dir_signatures@ == old(self).base_dir_signatures(parent@),
            decreases dir.hashes.rows@.len() - j,
        {
            let key = dir.hashes.rows[j].0.copy();
            let same = match dir.hashes.get(&key) {
                Some(other) => *other == hex,
                None => false,
            };
            let ghost here = dir.hashes.rows@[j as int].0@.key();
            assert(same == shares(hashes, here, hex@));
            let ghost before = dir.status@;
            let ghost next = |p: PathKey| reached(p, j as int + 1);
            proof {
                assert forall|p: PathKey| #[trigger]
                    next(p) == (reached(p, j as int) || (p == here && same)) by {
                    if p == here && same {
                        assert(dir.hashes.rows@[j as int].0@.key() == p);
                    }
                }
            }
            if same {
                let kept = match dir.status.get(&key) {
                    Some(current) => match current {
                        DedupStatus::VerifiedDup => true,
                        DedupStatus::DangerousDup => true,
                        _ => false,
                    },
                    None => false,
                };
                if !kept {
                    dir.status.insert(key, verdict);
                    proof {
                        assert forall|p: PathKey| dir.status@.dom().contains(p) == told(
                            base,
                            next,
                            verdict,
                        ).dom().contains(p) by {
                            assert(next(p) == (reached(p, j as int) || (p == here && same)));
                        }
                        assert forall|p: PathKey| dir.status@.dom().contains(p) implies dir.status@[p]
                            == told(base, next, verdict)[p] by {
                            assert(next(p) == (reached(p, j as int) || (p == here && same)));
                        }
                        assert(dir.status@ =~= told(base, next, verdict));
                    }
                } else {
                    proof {
                        assert forall|p: PathKey| dir.status@.dom().contains(p) == told(
                            base,
                            next,
                            verdict,
                        ).dom().contains(p) by {
                            assert(next(p) == (reached(p, j as int) || (p == here && same)));
                        }
                        assert forall|p: PathKey| dir.status@.dom().contains(p) implies dir.status@[p]
                            == told(base, next, verdict)[p] by {
                            assert(next(p) == (reached(p, j as int) || (p == here && same)));
                        }
                        assert(dir.status@ =~= told(base, next, verdict));
                    }
                }
            } else {
                proof {
                    assert forall|p: PathKey| #[trigger] next(p) == reached(p, j as int) by {}
                    assert(dir.status@ =~= told(base, next, verdict));
                }
            }
            j = j + 1;
        }
        proof {
            let sharing = |p: PathKey| shares(hashes, p, hex@);
            let all = |p: PathKey| reached(p, j as int);
            assert forall|p: PathKey| #[trigger] all(p) == sharing(p) by {
                if sharing(p) {
                    crate::assoc::lemma_keys_are_rows(dir.hashes, p);
                }
            }
            assert(dir.status@ =~= told(base, sharing, verdict));
        }
        self.by_cwd.insert(parent, Ok(dir));
    }
}

/// A hash computed on demand says no more than "likely": whatever is called verified or dangerous
/// afterwards was so before, and whatever was so before still is.
pub proof fn law_a_local_hash_vouches_for_nothing(
    status: Map<PathKey, DedupStatus>,
    sharing: spec_fn(PathKey) -> bool,
    twin: bool,
    path: PathKey,
)
    ensures
        ({
            let verdict = if twin {
                DedupStatus::LikelyDuplicate
            } else {
                DedupStatus::HashedUnique
            };
            let after = told(status, sharing, verdict);
            (after.dom().contains(path) && vouched(after[path])) <==> (status.dom().contains(path)
                && vouched(status[path]))
        }),
{
}

/// A failed load is an error state and never an empty directory: nothing can be built from it, and
/// its message stays readable.
pub proof fn law_a_failed_load_is_not_an_empty_directory(
    before: DedupCache,
    after: DedupCache,
    cwd: PathView,
    message: String,
)
    requires
        after.by_cwd@ == before.by_cwd@.insert(cwd.key(), Err::<DirDedup, String>(message)),
    ensures
        after.spec_dir(cwd) is None,
        !after.spec_covered(cwd),
        after.spec_error(cwd) == Some(message@),
{
}

} // verus!
