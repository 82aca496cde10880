//! Decisions of a background move: what counts as a duplicate, under which name it lands, in what
//! order a directory is merged, and what is counted as failed. The reading, hashing and moving is
//! the caller's; every answer comes back here.

use vstd::prelude::*;

use crate::order::name_before;
use crate::path::{FilePath, PathView};
use crate::sizes::push_path;

verus! {

// ---------------------------------------------------------------------------------------------
// Names in order.
// ---------------------------------------------------------------------------------------------
/// The name a path is sorted by: its last component, nothing where it has none.
pub open spec fn name_key(path: PathView) -> Seq<u8> {
    match path.file_name() {
        Some(name) => name,
        None => Seq::empty(),
    }
}

/// A list of paths sorted by their names.
pub open spec fn sorted_by_name(paths: Seq<PathView>) -> bool {
    forall|i: int, j: int|
        0 <= i < j < paths.len() ==> !crate::order::bytes_before(
            name_key(#[trigger] paths[j]),
            name_key(#[trigger] paths[i]),
        )
}

/// Raw bytes of a path's final component — the sort key. Raw bytes and not text: decoding could
/// make two names that differ on disk compare equal.
pub fn file_name_bytes(path: &FilePath) -> (r: Vec<u8>)
    ensures
        r@ == name_key(path@),
{
    match path.file_name() {
        Some(name) => name,
        None => {
            let none: Vec<u8> = Vec::new();
            assert(none@ =~= Seq::<u8>::empty());
            none
        },
    }
}

/// A list with one more path put where its name belongs, behind those of the same name.
pub open spec fn inserted_by_name(sorted: Seq<PathView>, path: PathView) -> Seq<PathView>
    decreases sorted.len(),
{
    if sorted.len() == 0 {
        seq![path]
    } else if crate::order::bytes_before(name_key(path), name_key(sorted.last())) {
        inserted_by_name(sorted.drop_last(), path).push(sorted.last())
    } else {
        sorted.push(path)
    }
}

/// A list of paths in the order of their names.
pub open spec fn by_name(paths: Seq<PathView>) -> Seq<PathView>
    decreases paths.len(),
{
    if paths.len() == 0 {
        Seq::empty()
    } else {
        inserted_by_name(by_name(paths.drop_last()), paths.last())
    }
}

proof fn lemma_inserted(sorted: Seq<PathView>, path: PathView)
    requires
        sorted_by_name(sorted),
    ensures
        sorted_by_name(inserted_by_name(sorted, path)),
        inserted_by_name(sorted, path).len() == sorted.len() + 1,
        inserted_by_name(sorted, path).to_multiset() =~= sorted.to_multiset().insert(path),
        forall|p: PathView|
            #[trigger] inserted_by_name(sorted, path).contains(p) ==> sorted.contains(p) || p
                == path,
    decreases sorted.len(),
{
    broadcast use vstd::seq_lib::group_to_multiset_ensures;

    let out = inserted_by_name(sorted, path);
    if sorted.len() == 0 {
        assert(sorted =~= Seq::empty());
        assert(seq![path] =~= Seq::empty().push(path));
    } else if crate::order::bytes_before(name_key(path), name_key(sorted.last())) {
        let front = sorted.drop_last();
        assert(sorted_by_name(front)) by {
            assert forall|i: int, j: int| 0 <= i < j < front.len() implies !crate::order::bytes_before(
                name_key(#[trigger] front[j]),
                name_key(#[trigger] front[i]),
            ) by {
                assert(front[i] == sorted[i] && front[j] == sorted[j]);
            }
        }
        lemma_inserted(front, path);
        let head = inserted_by_name(front, path);
        assert(sorted =~= front.push(sorted.last()));
        crate::order::lemma_before_asymmetric(name_key(path), name_key(sorted.last()));
        assert forall|i: int, j: int| 0 <= i < j < out.len() implies !crate::order::bytes_before(
            name_key(#[trigger] out[j]),
            name_key(#[trigger] out[i]),
        ) by {
            if j < head.len() {
                assert(out[i] == head[i] && out[j] == head[j]);
            } else {
                assert(out[i] == head[i] && head.contains(head[i]));
                if front.contains(head[i]) {
                    let k = front.index_of(head[i]);
                    assert(sorted[k] == head[i] && sorted[sorted.len() - 1] == sorted.last());
                }
            }
        }
        assert forall|p: PathView| #[trigger] out.contains(p) implies sorted.contains(p) || p
            == path by {
            let k = out.index_of(p);
            if k < head.len() {
                assert(head[k] == p && head.contains(p));
                if front.contains(p) {
                    let m = front.index_of(p);
                    assert(sorted[m] == p);
                }
            } else {
                assert(sorted[sorted.len() - 1] == p);
            }
        }
    } else {
        assert forall|i: int, j: int| 0 <= i < j < out.len() implies !crate::order::bytes_before(
            name_key(#[trigger] out[j]),
            name_key(#[trigger] out[i]),
        ) by {
            if j == sorted.len() {
                assert(out[i] == sorted[i]);
                if i < sorted.len() - 1 {
                    assert(!crate::order::bytes_before(
                        name_key(sorted[sorted.len() - 1]),
                        name_key(sorted[i]),
                    ));
                    crate::order::lemma_before_transitive(
                        name_key(sorted[i]),
                        name_key(sorted.last()),
                        name_key(path),
                    );
                }
            } else {
                assert(out[i] == sorted[i] && out[j] == sorted[j]);
            }
        }
        assert forall|p: PathView| #[trigger] out.contains(p) implies sorted.contains(p) || p
            == path by {
            let k = out.index_of(p);
            if k < sorted.len() {
                assert(sorted[k] == p);
            }
        }
    }
}

/// Putting paths in the order of their names rearranges them and nothing else.
pub proof fn law_the_name_order_rearranges(paths: Seq<PathView>)
    ensures
        sorted_by_name(by_name(paths)),
        by_name(paths).len() == paths.len(),
        by_name(paths).to_multiset() =~= paths.to_multiset(),
    decreases paths.len(),
{
    broadcast use vstd::seq_lib::group_to_multiset_ensures;

    if paths.len() > 0 {
        law_the_name_order_rearranges(paths.drop_last());
        lemma_inserted(by_name(paths.drop_last()), paths.last());
        assert(paths =~= paths.drop_last().push(paths.last()));
    } else {
        assert(paths =~= Seq::empty());
    }
}

fn insert_by_name(sorted: &mut Vec<FilePath>, path: FilePath)
    ensures
        crate::model::paths_model(final(sorted)@) == inserted_by_name(
            crate::model::paths_model(old(sorted)@),
            path@,
        ),
{
    let ghost all = crate::model::paths_model(sorted@);
    let ghost view = path@;
    let key = file_name_bytes(&path);
    let mut at: usize = sorted.len();
    assert(all.take(all.len() as int) =~= all);
    assert(all.skip(all.len() as int) =~= Seq::empty());
    assert(inserted_by_name(all, view) =~= inserted_by_name(all.take(at as int), view) + all.skip(
        at as int,
    ));
    while at > 0 && name_before(&key, &file_name_bytes(&sorted[at - 1]))
        invariant
            at <= sorted@.len(),
            all == crate::model::paths_model(sorted@),
            key@ == name_key(view),
            inserted_by_name(all, view) == inserted_by_name(all.take(at as int), view) + all.skip(
                at as int,
            ),
        decreases at,
    {
        proof {
            let upto = all.take(at as int);
            assert(upto.drop_last() =~= all.take(at - 1));
            assert(upto.last() == all[at - 1]);
            assert(all[at - 1] == sorted@[at - 1]@);
            assert(inserted_by_name(all.take(at - 1), view).push(all[at - 1]) + all.skip(at as int)
                =~= inserted_by_name(all.take(at - 1), view) + all.skip(at - 1));
        }
        at = at - 1;
    }
    proof {
        if at > 0 {
            assert(all.take(at as int).last() == all[at - 1]);
            assert(all[at - 1] == sorted@[at - 1]@);
        }
        assert(inserted_by_name(all.take(at as int), view) =~= all.take(at as int).push(view));
    }
    sorted.insert(at, path);
    assert(crate::model::paths_model(sorted@) =~= all.take(at as int).push(view) + all.skip(
        at as int,
    ));
}

/// Puts paths in the canonical order, by the raw bytes of their names.
pub fn sort_by_name(paths: Vec<FilePath>) -> (r: Vec<FilePath>)
    ensures
        crate::model::paths_model(r@) == by_name(crate::model::paths_model(paths@)),
{
    let ghost all = crate::model::paths_model(paths@);
    let mut sorted: Vec<FilePath> = Vec::new();
    let mut i: usize = 0;
    assert(crate::model::paths_model(sorted@) =~= by_name(all.take(0)));
    while i < paths.len()
        invariant
            i <= paths@.len(),
            all == crate::model::paths_model(paths@),
            crate::model::paths_model(sorted@) == by_name(all.take(i as int)),
        decreases paths@.len() - i,
    {
        assert(all.take(i as int + 1).drop_last() =~= all.take(i as int));
        insert_by_name(&mut sorted, paths[i].copy());
        i = i + 1;
    }
    assert(all.take(all.len() as int) =~= all);
    sorted
}

// ---------------------------------------------------------------------------------------------
// Candidates of the same size.
// ---------------------------------------------------------------------------------------------
/// What a look at a directory entry found.
#[derive(Debug, Clone, Copy, PartialEq, Eq, Structural)]
pub enum Look {
    /// A regular file of so many bytes.
    File(u64),
    /// Something else.
    Other,
    /// It was gone by then: no longer an entry.
    Gone,
    /// It could not be looked at.
    Refused,
}

/// The first entry that could not be looked at, or the number of entries.
pub open spec fn first_refused(found: Seq<(Vec<u8>, Look)>) -> int
    decreases found.len(),
{
    if found.len() == 0 {
        0
    } else if first_refused(found.drop_last()) < found.len() - 1 {
        first_refused(found.drop_last())
    } else if found.last().1 == Look::Refused {
        found.len() - 1
    } else {
        found.len() as int
    }
}

/// The files of one size among the entries of a directory.
pub open spec fn files_of_size(dir: PathView, found: Seq<(Vec<u8>, Look)>, size: u64) -> Seq<PathView>
    decreases found.len(),
{
    if found.len() == 0 {
        Seq::empty()
    } else {
        let before = files_of_size(dir, found.drop_last(), size);
        if found.last().1 == Look::File(size) {
            before.push(dir.child(found.last().0@))
        } else {
            before
        }
    }
}

/// The regular files of `size` bytes in a directory, in the order of their names. One entry that
/// could not be looked at fails the listing: a directory only partly read cannot answer "nothing
/// here duplicates it". The error is the index of the entry.
pub fn same_size_files(dir: &FilePath, found: &Vec<(Vec<u8>, Look)>, size: u64) -> (r: Result<
    Vec<FilePath>,
    usize,
>)
    ensures
        match r {
            Ok(paths) => first_refused(found@) == found@.len() && crate::model::paths_model(paths@)
                == by_name(files_of_size(dir@, found@, size)),
            Err(at) => at == first_refused(found@) && at < found@.len(),
        },
{
    let mut out: Vec<FilePath> = Vec::new();
    let mut i: usize = 0;
    assert(crate::model::paths_model(out@) =~= Seq::empty());
    while i < found.len()
        invariant
            i <= found@.len(),
            first_refused(found@.take(i as int)) == i,
            crate::model::paths_model(out@) == files_of_size(dir@, found@.take(i as int), size),
        decreases found@.len() - i,
    {
        assert(found@.take(i as int + 1).drop_last() =~= found@.take(i as int));
        match found[i].1 {
            Look::File(len) => {
                if len == size {
                    push_path(&mut out, dir.child(&found[i].0));
                }
            },
            Look::Refused => {
                proof {
                    lemma_refused_stays(found@, i as int + 1);
                }
                return Err(i);
            },
            _ => {},
        }
        i = i + 1;
    }
    assert(found@.take(found@.len() as int) =~= found@);
    Ok(sort_by_name(out))
}

proof fn lemma_refused_stays(found: Seq<(Vec<u8>, Look)>, upto: int)
    requires
        0 < upto <= found.len(),
        first_refused(found.take(upto)) < upto,
    ensures
        first_refused(found) == first_refused(found.take(upto)),
    decreases found.len(),
{
    if upto < found.len() {
        assert(found.drop_last().take(upto) =~= found.take(upto));
        lemma_refused_stays(found.drop_last(), upto);
    } else {
        assert(found.take(upto) =~= found);
    }
}

// ---------------------------------------------------------------------------------------------
// Is it a duplicate?
// ---------------------------------------------------------------------------------------------
/// What reading a candidate's content came to.
#[derive(Debug, Clone, Copy, PartialEq, Eq, Structural)]
pub enum Reading {
    /// It has the content of the file being moved.
    Same,
    /// It has another.
    Different,
    /// It was gone by then: no longer a candidate.
    Gone,
    /// It could not be read.
    Unread,
}

/// Whether a file duplicates something.
#[derive(Debug, Clone, Copy, PartialEq, Eq, Structural)]
pub enum Verdict {
    Duplicate,
    Distinct,
    /// Not to be told: the candidate at this index could not be read.
    Unknown(usize),
}

/// Some candidate has the same content.
pub open spec fn has_same(readings: Seq<Reading>) -> bool {
    exists|i: int| 0 <= i < readings.len() && #[trigger] readings[i] == Reading::Same
}

/// The first candidate that could not be read, or their number.
pub open spec fn first_unread(readings: Seq<Reading>) -> int
    decreases readings.len(),
{
    if readings.len() == 0 {
        0
    } else if first_unread(readings.drop_last()) < readings.len() - 1 {
        first_unread(readings.drop_last())
    } else if readings.last() == Reading::Unread {
        readings.len() - 1
    } else {
        readings.len() as int
    }
}

/// A twin settles the question whatever else could not be read; without one, an
/// unread candidate leaves it open.
pub open spec fn verdict(readings: Seq<Reading>) -> Verdict {
    if has_same(readings) {
        Verdict::Duplicate
    } else if first_unread(readings) < readings.len() {
        Verdict::Unknown(first_unread(readings) as usize)
    } else {
        Verdict::Distinct
    }
}

proof fn lemma_first_unread(readings: Seq<Reading>)
    ensures
        0 <= first_unread(readings) <= readings.len(),
        first_unread(readings) < readings.len() ==> readings[first_unread(readings)]
            == Reading::Unread,
        forall|i: int|
            0 <= i < first_unread(readings) ==> #[trigger] readings[i] != Reading::Unread,
    decreases readings.len(),
{
    if readings.len() > 0 {
        lemma_first_unread(readings.drop_last());
        assert forall|i: int| 0 <= i < first_unread(readings) implies #[trigger] readings[i]
            != Reading::Unread by {
            if i < readings.len() - 1 {
                assert(readings.drop_last()[i] == readings[i]);
            }
        }
    }
}

/// The verdict does not depend on the order in which the candidates were read, but for which of
/// the unread ones is named: a duplicate is one in any order, and so is a file that is distinct.
pub proof fn law_the_verdict_has_no_order(a: Seq<Reading>, b: Seq<Reading>)
    requires
        a.to_multiset() == b.to_multiset(),
    ensures
        verdict(a) is Duplicate <==> verdict(b) is Duplicate,
        verdict(a) is Distinct <==> verdict(b) is Distinct,
{
    broadcast use vstd::seq_lib::group_to_multiset_ensures;

    lemma_first_unread(a);
    lemma_first_unread(b);
    lemma_membership(a, b, Reading::Same);
    lemma_membership(a, b, Reading::Unread);
    assert(has_same(a) <==> a.contains(Reading::Same));
    assert(has_same(b) <==> b.contains(Reading::Same));
    assert(first_unread(a) < a.len() <==> a.contains(Reading::Unread)) by {
        if a.contains(Reading::Unread) {
            let i = a.index_of(Reading::Unread);
            if first_unread(a) == a.len() {
                assert(a[i] != Reading::Unread);
            }
        }
    }
    assert(first_unread(b) < b.len() <==> b.contains(Reading::Unread)) by {
        if b.contains(Reading::Unread) {
            let i = b.index_of(Reading::Unread);
            if first_unread(b) == b.len() {
                assert(b[i] != Reading::Unread);
            }
        }
    }
}

proof fn lemma_membership(a: Seq<Reading>, b: Seq<Reading>, r: Reading)
    requires
        a.to_multiset() == b.to_multiset(),
    ensures
        a.contains(r) <==> b.contains(r),
{
    broadcast use vstd::seq_lib::group_to_multiset_ensures;

    assert(a.contains(r) <==> a.to_multiset().contains(r));
    assert(b.contains(r) <==> b.to_multiset().contains(r));
}

/// What a file's move does next.
#[derive(Debug, Clone, Copy, PartialEq, Eq, Structural)]
pub enum FileStep {
    /// Hash the file itself.
    HashOwn,
    /// Hash the candidate at this index.
    HashCandidate(usize),
    /// Move it into the directory under its own name.
    MoveInto,
    /// Move it under the first free duplicate name.
    MoveAsDuplicate,
    /// Leave it: whether it is a duplicate cannot be told.
    Leave,
}

/// The move of one file: how many candidates of its size there are, its own hash once it is known,
/// and what reading the candidates came to so far.
#[derive(Debug, Clone)]
pub struct FileMove {
    pub candidates: usize,
    pub own: Option<[u8; 32]>,
    pub readings: Vec<Reading>,
    /// The file itself could not be read.
    pub own_unread: bool,
}

/// The content of a file's move.
#[verifier::ext_equal]
pub struct FileMoveModel {
    pub candidates: usize,
    pub own: Option<[u8; 32]>,
    pub readings: Seq<Reading>,
    pub own_unread: bool,
}

impl View for FileMove {
    type V = FileMoveModel;

    open spec fn view(&self) -> FileMoveModel {
        FileMoveModel {
            candidates: self.candidates,
            own: self.own,
            readings: self.readings@,
            own_unread: self.own_unread,
        }
    }
}

/// A file's move before anything was read.
pub open spec fn unread_move(candidates: usize) -> FileMoveModel {
    FileMoveModel { candidates, own: None, readings: Seq::empty(), own_unread: false }
}

/// A file's move once the file itself was read, or could not be.
pub open spec fn own_read(m: FileMoveModel, hash: Option<[u8; 32]>) -> FileMoveModel {
    FileMoveModel { own: hash, own_unread: hash is None, ..m }
}

/// What reading a candidate came to.
pub open spec fn reading_of(own: Option<[u8; 32]>, hash: Option<[u8; 32]>, gone: bool) -> Reading {
    match hash {
        Some(other) => if own is Some && other@ == own->Some_0@ {
            Reading::Same
        } else {
            Reading::Different
        },
        None => if gone {
            Reading::Gone
        } else {
            Reading::Unread
        },
    }
}

/// A file's move once one candidate more was read, or could not be.
pub open spec fn candidate_read(m: FileMoveModel, hash: Option<[u8; 32]>, gone: bool) -> FileMoveModel {
    FileMoveModel { readings: m.readings.push(reading_of(m.own, hash, gone)), ..m }
}

/// The next step: without candidates no hash is needed; candidates are read only until a twin is
/// found.
pub open spec fn file_step(m: FileMoveModel) -> FileStep {
    if m.candidates == 0 {
        FileStep::MoveInto
    } else if m.own_unread {
        FileStep::Leave
    } else if m.own is None {
        FileStep::HashOwn
    } else if has_same(m.readings) {
        FileStep::MoveAsDuplicate
    } else if m.readings.len() < m.candidates {
        FileStep::HashCandidate(m.readings.len() as usize)
    } else {
        match verdict(m.readings) {
            Verdict::Duplicate => FileStep::MoveAsDuplicate,
            Verdict::Distinct => FileStep::MoveInto,
            Verdict::Unknown(_) => FileStep::Leave,
        }
    }
}

fn judge(readings: &Vec<Reading>) -> (r: Verdict)
    ensures
        r == verdict(readings@),
{
    let mut unread: usize = readings.len();
    let mut i: usize = 0;
    while i < readings.len()
        invariant
            i <= readings@.len(),
            forall|k: int| 0 <= k < i ==> #[trigger] readings@[k] != Reading::Same,
            unread == readings@.len() ==> first_unread(readings@.take(i as int)) == i,
            unread < readings@.len() ==> unread < i && first_unread(readings@.take(i as int))
                == unread,
            unread <= readings@.len(),
        decreases readings@.len() - i,
    {
        assert(readings@.take(i as int + 1).drop_last() =~= readings@.take(i as int));
        match readings[i] {
            Reading::Same => {
                assert(readings@[i as int] == Reading::Same);
                return Verdict::Duplicate;
            },
            Reading::Unread => {
                if unread == readings.len() {
                    unread = i;
                }
            },
            _ => {},
        }
        i = i + 1;
    }
    assert(readings@.take(readings@.len() as int) =~= readings@);
    if unread < readings.len() {
        Verdict::Unknown(unread)
    } else {
        Verdict::Distinct
    }
}

/// Two hashes are the same.
pub fn same_hash(a: &[u8; 32], b: &[u8; 32]) -> (r: bool)
    ensures
        r == (a@ == b@),
{
    let mut i: usize = 0;
    while i < 32
        invariant
            i <= 32,
            forall|k: int| 0 <= k < i ==> a@[k] == b@[k],
        decreases 32 - i,
    {
        if a[i] != b[i] {
            return false;
        }
        i = i + 1;
    }
    assert(a@ =~= b@);
    true
}

impl FileMove {
    /// The move of a file that has so many candidates of its size.
    pub fn new(candidates: usize) -> (r: FileMove)
        ensures
            r@ == unread_move(candidates),
    {
        FileMove { candidates, own: None, readings: Vec::new(), own_unread: false }
    }

    /// What comes next.
    pub fn next_step(&self) -> (r: FileStep)
        ensures
            r == file_step(self@),
    {
        if self.candidates == 0 {
            return FileStep::MoveInto;
        }
        if self.own_unread {
            return FileStep::Leave;
        }
        if self.own.is_none() {
            return FileStep::HashOwn;
        }
        match judge(&self.readings) {
            Verdict::Duplicate => FileStep::MoveAsDuplicate,
            Verdict::Distinct => {
                if self.readings.len() < self.candidates {
                    FileStep::HashCandidate(self.readings.len())
                } else {
                    FileStep::MoveInto
                }
            },
            Verdict::Unknown(_) => {
                if self.readings.len() < self.candidates {
                    FileStep::HashCandidate(self.readings.len())
                } else {
                    FileStep::Leave
                }
            },
        }
    }

    /// The file's own hash, or that it could not be taken.
    pub fn own_hashed(&mut self, hash: Option<[u8; 32]>)
        ensures
            final(self)@ == own_read(old(self)@, hash),
    {
        self.own = hash;
        self.own_unread = hash.is_none();
    }

    /// The hash of the next candidate; `gone` says that there is none because the candidate is.
    pub fn candidate_hashed(&mut self, hash: Option<[u8; 32]>, gone: bool)
        ensures
            final(self)@ == candidate_read(old(self)@, hash, gone),
    {
        let reading = match hash {
            Some(other) => match self.own {
                Some(own) => {
                    if same_hash(&other, &own) {
                        Reading::Same
                    } else {
                        Reading::Different
                    }
                },
                None => Reading::Different,
            },
            None => {
                if gone {
                    Reading::Gone
                } else {
                    Reading::Unread
                }
            },
        };
        self.readings.push(reading);
    }
}

/// A file lands under its own name only if nothing in the destination can be its duplicate: there
/// is no candidate, or every one was read or is gone and none is the same. It lands as a duplicate
/// only if a twin was found. A file that could not be read itself stays, if it has candidates.
pub proof fn law_no_name_is_picked_by_default(m: FileMoveModel)
    requires
        m.readings.len() <= m.candidates,
    ensures
        file_step(m) == FileStep::MoveAsDuplicate ==> has_same(m.readings),
        file_step(m) == FileStep::MoveInto ==> m.candidates == 0 || (m.readings.len()
            == m.candidates && forall|i: int|
            0 <= i < m.readings.len() ==> #[trigger] m.readings[i] != Reading::Same
                && m.readings[i] != Reading::Unread),
        m.own_unread && m.candidates > 0 ==> file_step(m) == FileStep::Leave,
{
    lemma_first_unread(m.readings);
}

// ---------------------------------------------------------------------------------------------
// Duplicate names.
// ---------------------------------------------------------------------------------------------
/// The last dot of a name that starts an extension: not its first byte; -1 where there is none.
pub open spec fn extension_dot(name: Seq<u8>) -> int
    decreases name.len(),
{
    if name.len() <= 1 {
        -1
    } else if name.last() == 46u8 {
        name.len() - 1
    } else {
        extension_dot(name.drop_last())
    }
}

/// A file's name without its extension; nothing where it has no name.
pub open spec fn stem_of(path: PathView) -> Seq<u8> {
    let name = name_key(path);
    let dot = extension_dot(name);
    if dot >= 0 {
        name.take(dot)
    } else {
        name
    }
}

/// A file's extension with the dot before it; nothing where it has none.
pub open spec fn dotted_extension(path: PathView) -> Seq<u8> {
    let name = name_key(path);
    let dot = extension_dot(name);
    if dot >= 0 {
        name.skip(dot)
    } else {
        Seq::empty()
    }
}

/// `.dup` and a number, as bytes.
pub open spec fn dup_marker(n: nat) -> Seq<u8> {
    seq![46u8, 100u8, 117u8, 112u8] + decimal_bytes(n)
}

/// A number in decimal, as bytes.
pub open spec fn decimal_bytes(n: nat) -> Seq<u8>
    decreases n,
{
    if n < 10 {
        seq![(48 + n) as u8]
    } else {
        decimal_bytes(n / 10).push((48 + n % 10) as u8)
    }
}

/// The `n`th duplicate name of a file: `{stem}.dup{n}{.ext}`, assembled from the raw bytes of its
/// name.
pub open spec fn dup_name(path: PathView, n: nat) -> Seq<u8> {
    stem_of(path) + dup_marker(n) + dotted_extension(path)
}

fn push_bytes(out: &mut Vec<u8>, bytes: &Vec<u8>, from: usize, to: usize)
    requires
        from <= to <= bytes@.len(),
    ensures
        final(out)@ == old(out)@ + bytes@.subrange(from as int, to as int),
{
    let ghost start = out@;
    let mut i: usize = from;
    assert(out@ =~= start + bytes@.subrange(from as int, from as int));
    while i < to
        invariant
            from <= i <= to <= bytes@.len(),
            out@ == start + bytes@.subrange(from as int, i as int),
        decreases to - i,
    {
        out.push(bytes[i]);
        assert(out@ =~= start + bytes@.subrange(from as int, i as int + 1));
        i = i + 1;
    }
}

fn push_decimal(out: &mut Vec<u8>, n: u32)
    ensures
        final(out)@ == old(out)@ + decimal_bytes(n as nat),
    decreases n,
{
    let ghost start = out@;
    if n < 10 {
        out.push((48 + n) as u8);
        assert(out@ =~= start + decimal_bytes(n as nat));
    } else {
        push_decimal(out, n / 10);
        out.push((48 + n % 10) as u8);
        assert(out@ =~= start + decimal_bytes(n as nat));
    }
}

fn find_extension(name: &Vec<u8>) -> (r: Option<usize>)
    ensures
        match r {
            Some(dot) => dot == extension_dot(name@) && dot < name@.len(),
            None => extension_dot(name@) < 0,
        },
{
    let mut len: usize = name.len();
    assert(name@.take(len as int) =~= name@);
    while len > 1
        invariant
            len <= name@.len(),
            extension_dot(name@) == extension_dot(name@.take(len as int)),
        decreases len,
    {
        let ghost upto = name@.take(len as int);
        assert(upto.last() == name@[len - 1]);
        assert(upto.drop_last() =~= name@.take(len - 1));
        if name[len - 1] == 46u8 {
            return Some(len - 1);
        }
        len = len - 1;
    }
    None
}

/// The `n`th name a duplicate of `src` may take in directory `dir`.
pub fn dup_candidate(dir: &FilePath, src: &FilePath, n: u32) -> (r: FilePath)
    ensures
        r@ == dir@.child(dup_name(src@, n as nat)),
{
    let name = file_name_bytes(src);
    let dot: usize = match find_extension(&name) {
        Some(dot) => dot,
        None => name.len(),
    };
    let mut out: Vec<u8> = Vec::new();
    push_bytes(&mut out, &name, 0, dot);
    assert(out@ =~= stem_of(src@));
    out.push(46u8);
    out.push(100u8);
    out.push(117u8);
    out.push(112u8);
    push_decimal(&mut out, n);
    assert(out@ =~= stem_of(src@) + dup_marker(n as nat));
    push_bytes(&mut out, &name, dot, name.len());
    assert(out@ =~= dup_name(src@, n as nat));
    dir.child(&out)
}

/// A name is the first free one `{stem}.dup{N}{.ext}` for the duplicate, as `present` answers, and
/// there is none where all of them are taken.
pub open spec fn first_free<F: Fn(&FilePath) -> bool>(
    dir: PathView,
    src: PathView,
    present: F,
    name: Option<PathView>,
) -> bool {
    match name {
        Some(path) => exists|n: nat|
            #![trigger dup_name(src, n)]
            1 <= n && path == dir.child(dup_name(src, n)) && free(present, path) && forall|m: nat|
                1 <= m < n ==> taken(present, dir.child(#[trigger] dup_name(src, m))),
        None => forall|m: nat|
            1 <= m <= u32::MAX ==> taken(present, dir.child(#[trigger] dup_name(src, m))),
    }
}

/// The first free name `{stem}.dup{N}{.ext}` in directory `dir` for the duplicate `src`, as
/// `present` answers; none where all of them are taken.
pub fn dup_dest<F: Fn(&FilePath) -> bool>(dir: &FilePath, src: &FilePath, present: F) -> (r: Option<
    FilePath,
>)
    requires
        forall|path: &FilePath| call_requires(present, (path,)),
    ensures
        first_free(dir@, src@, present, crate::panels::path_model(r)),
{
    let mut n: u32 = 1;
    loop
        invariant
            n >= 1,
            forall|path: &FilePath| call_requires(present, (path,)),
            forall|m: nat| 1 <= m < n ==> taken(present, dir@.child(#[trigger] dup_name(src@, m))),
        decreases u32::MAX - n,
    {
        let candidate = dup_candidate(dir, src, n);
        let found = present(&candidate);
        assert(call_ensures(present, (&candidate,), found));
        if !found {
            assert(free(present, candidate@));
            assert(candidate@ == dir@.child(dup_name(src@, n as nat)));
            return Some(candidate);
        }
        assert(taken(present, candidate@));
        if n == u32::MAX {
            return None;
        }
        n = n + 1;
    }
}

/// The answer may have been that a path is not there.
pub open spec fn free<F: Fn(&FilePath) -> bool>(present: F, path: PathView) -> bool {
    exists|p: &FilePath| p@ == path && #[trigger] call_ensures(present, (p,), false)
}

/// The answer may have been that a path is there.
pub open spec fn taken<F: Fn(&FilePath) -> bool>(present: F, path: PathView) -> bool {
    exists|p: &FilePath| p@ == path && #[trigger] call_ensures(present, (p,), true)
}

proof fn lemma_decimal_bytes(m: nat, n: nat)
    requires
        decimal_bytes(m) == decimal_bytes(n),
    ensures
        m == n,
    decreases m,
{
    if m < 10 && n < 10 {
        assert(decimal_bytes(m)[0] == (48 + m) as u8);
        assert(decimal_bytes(n)[0] == (48 + n) as u8);
    } else if m >= 10 && n >= 10 {
        let a = decimal_bytes(m / 10).push((48 + m % 10) as u8);
        let b = decimal_bytes(n / 10).push((48 + n % 10) as u8);
        assert(a == decimal_bytes(m) && b == decimal_bytes(n));
        assert(a.drop_last() =~= decimal_bytes(m / 10));
        assert(b.drop_last() =~= decimal_bytes(n / 10));
        assert(a.last() == (48 + m % 10) as u8 && b.last() == (48 + n % 10) as u8);
        assert(m % 10 == n % 10);
        lemma_decimal_bytes(m / 10, n / 10);
        assert(m == 10 * (m / 10) + m % 10);
        assert(n == 10 * (n / 10) + n % 10);
    } else {
        lemma_decimal_len(m);
        lemma_decimal_len(n);
    }
}

proof fn lemma_decimal_len(n: nat)
    ensures
        decimal_bytes(n).len() >= 1,
        n >= 10 ==> decimal_bytes(n).len() >= 2,
    decreases n,
{
    if n >= 10 {
        lemma_decimal_len(n / 10);
    }
}

/// Duplicates of files with different stems or extensions never queue up under one name, whatever
/// bytes their names hold; and one file's duplicate names are all different.
pub proof fn law_duplicate_names_do_not_collapse(a: PathView, b: PathView, m: nat, n: nat)
    ensures
        dup_name(a, m) == dup_name(a, n) ==> m == n,
        dotted_extension(a) == dotted_extension(b) && dup_name(a, n) == dup_name(b, n) ==> stem_of(
            a,
        ) == stem_of(b),
{
    if dup_name(a, m) == dup_name(a, n) {
        let stem = stem_of(a);
        let ext = dotted_extension(a);
        let x = decimal_bytes(m);
        let y = decimal_bytes(n);
        let one = dup_name(a, m);
        let other = dup_name(a, n);
        assert(x.len() == y.len()) by {
            assert(one.len() == stem.len() + 4 + x.len() + ext.len());
            assert(other.len() == stem.len() + 4 + y.len() + ext.len());
        }
        assert forall|i: int| 0 <= i < x.len() implies x[i] == y[i] by {
            assert(one[stem.len() + 4 + i] == x[i]);
            assert(other[stem.len() + 4 + i] == y[i]);
        }
        assert(x =~= y);
        lemma_decimal_bytes(m, n);
    }
    if dotted_extension(a) == dotted_extension(b) && dup_name(a, n) == dup_name(b, n) {
        let one = dup_name(a, n);
        let other = dup_name(b, n);
        assert(stem_of(a).len() == stem_of(b).len()) by {
            assert(one.len() == stem_of(a).len() + dup_marker(n).len() + dotted_extension(
                a,
            ).len());
            assert(other.len() == stem_of(b).len() + dup_marker(n).len() + dotted_extension(
                b,
            ).len());
        }
        assert forall|i: int| 0 <= i < stem_of(a).len() implies stem_of(a)[i] == stem_of(b)[i] by {
            assert(one[i] == stem_of(a)[i]);
            assert(other[i] == stem_of(b)[i]);
        }
        assert(stem_of(a) =~= stem_of(b));
    }
}

} // verus!
