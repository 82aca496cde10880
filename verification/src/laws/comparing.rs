//! Comparison: what counts as the same, within a directory and between panels.

use vstd::prelude::*;

use crate::app::{AppModel, CommanderModel, EffectModel};
use crate::dedup::{
    DedupCache, DedupStatus, DirDedup, DirTrust, GroupId, PanelFile, PanelFileStatus,
};
use crate::entries::{EntryKind, EntryModel};
use crate::panel::{ComparePeer, MatchKeyModel};
use crate::path::{FilePath, PathKey, PathView};
use crate::state::LoadTarget;

verus! {

// ---------------------------------------------------------------------------------------------
// Panel against panel.
// ---------------------------------------------------------------------------------------------
/// A file of one panel is in a published group that a file of another panel is in too.
pub open spec fn file_shared(
    here: DirDedup,
    e: EntryModel,
    there: DirDedup,
    others: Seq<EntryModel>,
) -> bool {
    e.kind == EntryKind::File && here.groups@.dom().contains(e.path.key()) && exists|n: int|
        0 <= n < others.len() && (#[trigger] others[n]).kind == EntryKind::File
            && there.groups@.contains_pair(others[n].path.key(), here.groups@[e.path.key()])
}

/// A directory of one panel has a trusted signature that a directory of another panel has too.
pub open spec fn dir_shared(
    here: DirDedup,
    e: EntryModel,
    there: DirDedup,
    others: Seq<EntryModel>,
) -> bool {
    &&& e.kind == EntryKind::Dir
    &&& here.dir_signatures@.dom().contains(e.path.key())
    &&& here.dir_signatures@[e.path.key()].trust == DirTrust::Trusted
    &&& exists|n: int|
        0 <= n < others.len() && (#[trigger] others[n]).kind == EntryKind::Dir
            && there.dir_signatures@.dom().contains(others[n].path.key())
            && there.dir_signatures@[others[n].path.key()].trust == DirTrust::Trusted
            && there.dir_signatures@[others[n].path.key()].signature@
            == here.dir_signatures@[e.path.key()].signature@
}

proof fn lemma_files_counted(
    here: DirDedup,
    entries: Seq<EntryModel>,
    there: DirDedup,
    others: Seq<EntryModel>,
)
    ensures
        crate::compare::matching_files(Some(here), entries, Some(there), others) == entries.filter(
            |e: EntryModel| file_shared(here, e, there, others),
        ).len(),
    decreases entries.len(),
{
    reveal(Seq::filter);
    if entries.len() > 0 {
        lemma_files_counted(here, entries.drop_last(), there, others);
        let e = entries.last();
        if let Some(id) = crate::compare::file_group(Some(here), e) {
            if crate::compare::has_group(Some(there), others, id) {
                let n = choose|n: int|
                    0 <= n < others.len() && crate::compare::file_group(
                        Some(there),
                        #[trigger] others[n],
                    ) == Some(id);
                assert(others[n].kind == EntryKind::File);
            }
            if file_shared(here, e, there, others) {
                let n = choose|n: int|
                    0 <= n < others.len() && (#[trigger] others[n]).kind == EntryKind::File
                        && there.groups@.contains_pair(
                        others[n].path.key(),
                        here.groups@[e.path.key()],
                    );
                assert(crate::compare::file_group(Some(there), others[n]) == Some(id));
            }
        }
    }
}

proof fn lemma_dirs_counted(
    here: DirDedup,
    entries: Seq<EntryModel>,
    there: DirDedup,
    others: Seq<EntryModel>,
)
    ensures
        crate::compare::matching_dirs(Some(here), entries, Some(there), others) == entries.filter(
            |e: EntryModel| dir_shared(here, e, there, others),
        ).len(),
    decreases entries.len(),
{
    reveal(Seq::filter);
    if entries.len() > 0 {
        lemma_dirs_counted(here, entries.drop_last(), there, others);
        let e = entries.last();
        if let Some(sig) = crate::compare::dir_signature(Some(here), e) {
            if crate::compare::has_signature(Some(there), others, sig) {
                let n = choose|n: int|
                    0 <= n < others.len() && crate::compare::dir_signature(
                        Some(there),
                        #[trigger] others[n],
                    ) == Some(sig);
                assert(others[n].kind == EntryKind::Dir);
            }
            if dir_shared(here, e, there, others) {
                let n = choose|n: int|
                    0 <= n < others.len() && (#[trigger] others[n]).kind == EntryKind::Dir
                        && there.dir_signatures@.dom().contains(others[n].path.key())
                        && there.dir_signatures@[others[n].path.key()].trust == DirTrust::Trusted
                        && there.dir_signatures@[others[n].path.key()].signature@
                        == here.dir_signatures@[e.path.key()].signature@;
                assert(crate::compare::dir_signature(Some(there), others[n]) == Some(sig));
            }
        }
    }
}

/// Shift+F2 with both directories covered tells, of the active panel and the panel after it, how
/// many files of the active one are in a published group that a file of the other is in, and how
/// many of its directories have a trusted signature that a directory of the other has. Nothing
/// else changes.
pub proof fn law_the_comparison_counts_what_both_have(a: AppModel, here: DirDedup, there: DirDedup)
    requires
        a.valid(),
        ({
            let i = a.commander.active as int;
            let j = (i + 1) % (a.commander.panels.len() as int);
            let (p, q) = (a.commander.panels[i], a.commander.panels[j]);
            &&& a.commander.dedup.by_cwd.contains_pair(p.cwd.key(), Ok::<DirDedup, String>(here))
            &&& a.commander.dedup.by_cwd.contains_pair(q.cwd.key(), Ok::<DirDedup, String>(there))
            &&& !a.commander.dedup.pending.dom().contains(p.cwd.key())
            &&& !a.commander.dedup.pending.dom().contains(q.cwd.key())
            &&& (exists|k: PathKey| #[trigger] here.status@.dom().contains(k)) || (exists|
                k: PathKey,
            | #[trigger]
                here.dir_sizes@.dom().contains(k))
            &&& (exists|k: PathKey| #[trigger] there.status@.dom().contains(k)) || (exists|
                k: PathKey,
            | #[trigger]
                there.dir_sizes@.dom().contains(k))
        }),
    ensures
        ({
            let i = a.commander.active as int;
            let j = (i + 1) % (a.commander.panels.len() as int);
            let (p, q) = (a.commander.panels[i], a.commander.panels[j]);
            let files = p.entries.filter(
                |e: EntryModel| file_shared(here, e, there, q.entries),
            ).len();
            let dirs = p.entries.filter(
                |e: EntryModel| dir_shared(here, e, there, q.entries),
            ).len();
            let b = crate::compare::compared(a);
            &&& b.commander.status == "Panel comparison "@ + crate::text::decimal((i + 1) as nat)
                + "↔"@ + crate::text::decimal((j + 1) as nat) + ": matching files "@
                + crate::text::decimal(files) + ", folders "@ + crate::text::decimal(dirs)
            &&& b.outbox == a.outbox && b.commander.panels == a.commander.panels
        }),
{
    let i = a.commander.active as int;
    let j = (i + 1) % (a.commander.panels.len() as int);
    assert(j == crate::compare::neighbour(a.commander)) by {
        if i + 1 < a.commander.panels.len() {
            vstd::arithmetic::div_mod::lemma_small_mod(
                (i + 1) as nat,
                a.commander.panels.len(),
            );
        } else {
            vstd::arithmetic::div_mod::lemma_mod_self_0(a.commander.panels.len() as int);
        }
    }
    let (p, q) = (a.commander.panels[i], a.commander.panels[j]);
    lemma_files_counted(here, p.entries, there, q.entries);
    lemma_dirs_counted(here, p.entries, there, q.entries);
    assert(crate::compare::covered_dir(a.commander, p)) by {
        lemma_covered(here);
    }
    assert(crate::compare::covered_dir(a.commander, q)) by {
        lemma_covered(there);
    }
}

proof fn lemma_covered(dir: DirDedup)
    requires
        (exists|k: PathKey| #[trigger] dir.status@.dom().contains(k)) || (exists|k: PathKey|
            #[trigger] dir.dir_sizes@.dom().contains(k)),
    ensures
        dir.status@ != Map::<PathKey, DedupStatus>::empty() || dir.dir_sizes@ != Map::<
            PathKey,
            u64,
        >::empty(),
{
}

/// Where the other panel has no file in a group of the active one, no file matches.
pub proof fn law_nothing_shared_nothing_counted(
    here: DirDedup,
    entries: Seq<EntryModel>,
    there: DirDedup,
    others: Seq<EntryModel>,
)
    requires
        forall|m: int, n: int|
            0 <= m < entries.len() && 0 <= n < others.len() && (#[trigger] entries[m]).kind
                == EntryKind::File && (#[trigger] others[n]).kind == EntryKind::File
                && here.groups@.dom().contains(entries[m].path.key())
                && there.groups@.dom().contains(others[n].path.key())
                ==> here.groups@[entries[m].path.key()] != there.groups@[others[n].path.key()],
    ensures
        crate::compare::matching_files(Some(here), entries, Some(there), others) == 0,
    decreases entries.len(),
{
    if entries.len() > 0 {
        let front = entries.drop_last();
        assert(forall|m: int| 0 <= m < front.len() ==> front[m] == #[trigger] entries[m]);
        law_nothing_shared_nothing_counted(here, front, there, others);
        let e = entries[entries.len() - 1];
        if let Some(id) = crate::compare::file_group(Some(here), e) {
            if crate::compare::has_group(Some(there), others, id) {
                let n = choose|n: int|
                    0 <= n < others.len() && crate::compare::file_group(
                        Some(there),
                        #[trigger] others[n],
                    ) == Some(id);
                assert(others[n].kind == EntryKind::File);
            }
        }
    }
}

/// Shift+F2 where a directory of the two is not covered by the scan asks for a scan of exactly
/// those two; while one of them is still being read, it asks for nothing.
pub proof fn law_an_uncovered_comparison_scans_both(a: AppModel)
    requires
        a.valid(),
    ensures
        ({
            let i = a.commander.active as int;
            let j: int = if i + 1 == a.commander.panels.len() {
                0
            } else {
                i + 1
            };
            let (p, q) = (a.commander.panels[i], a.commander.panels[j]);
            let b = crate::compare::compared(a);
            let busy = a.commander.dedup.pending.dom().contains(p.cwd.key())
                || a.commander.dedup.pending.dom().contains(q.cwd.key());
            let unread = !a.commander.dedup.by_cwd.dom().contains(p.cwd.key())
                || !a.commander.dedup.by_cwd.dom().contains(q.cwd.key())
                || a.commander.dedup.by_cwd[p.cwd.key()] is Err
                || a.commander.dedup.by_cwd[q.cwd.key()] is Err;
            &&& busy ==> b.outbox == a.outbox
            &&& !busy && unread ==> b.outbox == a.outbox.push(
                EffectModel::Scan(seq![p.cwd, q.cwd]),
            )
            &&& b.commander.panels == a.commander.panels
        }),
{
}

/// A row lights up across panels exactly where two panels hold entries that agree: files in one
/// published group, directories of one trusted signature.
pub proof fn law_a_cross_match_needs_two_panels(c: CommanderModel, id: GroupId)
    ensures
        crate::compare::crosses(c, MatchKeyModel::Group(id)) <==> exists|
            i: int,
            j: int,
            m: int,
            n: int,
        |
            #![trigger c.panels[i].entries[m], c.panels[j].entries[n]]
            0 <= i < j < c.panels.len() && 0 <= m < c.panels[i].entries.len() && 0 <= n
                < c.panels[j].entries.len() && in_group(c, i, m, id) && in_group(c, j, n, id),
{
    if crate::compare::crosses(c, MatchKeyModel::Group(id)) {
        let (i, j) = choose|i: int, j: int|
            0 <= i < j < c.panels.len() && #[trigger] crate::compare::panel_has_key(
                c,
                i,
                MatchKeyModel::Group(id),
            ) && #[trigger] crate::compare::panel_has_key(c, j, MatchKeyModel::Group(id));
        let m = lemma_has_group(c, i, id);
        let n = lemma_has_group(c, j, id);
        assert(c.panels[i].entries[m] == c.panels[i].entries[m] && c.panels[j].entries[n]
            == c.panels[j].entries[n]);
    }
    if exists|i: int, j: int, m: int, n: int|
        #![trigger c.panels[i].entries[m], c.panels[j].entries[n]]
        0 <= i < j < c.panels.len() && 0 <= m < c.panels[i].entries.len() && 0 <= n
            < c.panels[j].entries.len() && in_group(c, i, m, id) && in_group(c, j, n, id) {
        let (i, j, m, n) = choose|i: int, j: int, m: int, n: int|
            #![trigger c.panels[i].entries[m], c.panels[j].entries[n]]
            0 <= i < j < c.panels.len() && 0 <= m < c.panels[i].entries.len() && 0 <= n
                < c.panels[j].entries.len() && in_group(c, i, m, id) && in_group(c, j, n, id);
        assert(crate::panel::entry_key(
            crate::compare::panel_dedup(c, c.panels[i]),
            c.panels[i].entries[m],
        ) == Some(MatchKeyModel::Group(id)));
        assert(crate::panel::entry_key(
            crate::compare::panel_dedup(c, c.panels[j]),
            c.panels[j].entries[n],
        ) == Some(MatchKeyModel::Group(id)));
        assert(crate::compare::panel_has_key(c, i, MatchKeyModel::Group(id)));
        assert(crate::compare::panel_has_key(c, j, MatchKeyModel::Group(id)));
    }
}

/// An entry of a panel is a file in a published group.
pub open spec fn in_group(c: CommanderModel, i: int, m: int, id: GroupId) -> bool {
    let p = c.panels[i];
    &&& p.entries[m].kind == EntryKind::File
    &&& c.dedup.by_cwd.dom().contains(p.cwd.key())
    &&& c.dedup.by_cwd[p.cwd.key()] matches Ok(dir) && dir.groups@.contains_pair(
        p.entries[m].path.key(),
        id,
    )
}

proof fn lemma_has_group(c: CommanderModel, i: int, id: GroupId) -> (m: int)
    requires
        crate::compare::panel_has_key(c, i, MatchKeyModel::Group(id)),
    ensures
        0 <= m < c.panels[i].entries.len(),
        in_group(c, i, m, id),
{
    let p = c.panels[i];
    choose|m: int|
        0 <= m < p.entries.len() && crate::panel::entry_key(
            crate::compare::panel_dedup(c, p),
            #[trigger] p.entries[m],
        ) == Some(MatchKeyModel::Group(id))
}

/// Side by side, a file is marked `+` exactly where the other panel has no file of its name, `=`
/// exactly where both are in one published group, `≈` exactly where the groups do not decide and
/// size and time agree, and `~` in every other case. Nothing but a file is marked.
pub proof fn law_the_glyph_tells_the_comparison(
    e: EntryModel,
    peer: Map<Seq<char>, ComparePeer>,
    dir: DirDedup,
)
    ensures
        ({
            let glyph = crate::panel::comparison(e, peer, Some(dir)).0;
            let there = peer.dom().contains(e.name);
            let other = peer[e.name];
            let grouped = dir.groups@.dom().contains(e.path.key());
            &&& e.kind != EntryKind::File <==> glyph == ' '
            &&& glyph == '+' <==> e.kind == EntryKind::File && !there
            &&& glyph == '=' <==> e.kind == EntryKind::File && there && grouped && other.group
                == Some(dir.groups@[e.path.key()])
            &&& glyph == '≈' <==> e.kind == EntryKind::File && there && !(grouped && other.group
                is Some) && e.size == other.size && e.mtime == other.mtime
            &&& glyph == ' ' || glyph == '+' || glyph == '=' || glyph == '≈' || glyph == '~'
        }),
{
}

/// The neighbour's file under a name is its last file of that name, with its size, its time and
/// its group; a directory is under no name.
pub proof fn law_a_peer_is_a_file_of_the_name(
    entries: Seq<EntryModel>,
    dir: Option<DirDedup>,
    name: Seq<char>,
)
    ensures
        ({
            let peers = crate::compare::peer_files(entries, dir);
            &&& peers.dom().contains(name) <==> exists|i: int|
                0 <= i < entries.len() && (#[trigger] entries[i]).kind == EntryKind::File
                    && entries[i].name == name
            &&& peers.dom().contains(name) ==> exists|i: int|
                0 <= i < entries.len() && (#[trigger] entries[i]).kind == EntryKind::File
                    && entries[i].name == name && peers[name].size == entries[i].size
                    && peers[name].mtime == entries[i].mtime && peers[name].group
                    == crate::panel::group_in(dir, entries[i].path) && forall|j: int|
                    i < j < entries.len() && (#[trigger] entries[j]).kind == EntryKind::File
                        ==> entries[j].name != name
        }),
    decreases entries.len(),
{
    if entries.len() > 0 {
        let front = entries.drop_last();
        let last = entries.len() - 1;
        let before = crate::compare::peer_files(front, dir);
        law_a_peer_is_a_file_of_the_name(front, dir, name);
        assert(forall|j: int| 0 <= j < last ==> front[j] == #[trigger] entries[j]);
        if entries.last().kind == EntryKind::File && entries.last().name == name {
            assert(entries[last].kind == EntryKind::File);
        } else if before.dom().contains(name) {
            let i = choose|i: int|
                0 <= i < front.len() && (#[trigger] front[i]).kind == EntryKind::File
                    && front[i].name == name && before[name].size == front[i].size
                    && before[name].mtime == front[i].mtime && before[name].group
                    == crate::panel::group_in(dir, front[i].path) && forall|j: int|
                    i < j < front.len() && (#[trigger] front[j]).kind == EntryKind::File
                        ==> front[j].name != name;
            assert(entries[i] == front[i]);
            assert forall|j: int|
                i < j < entries.len() && (#[trigger] entries[j]).kind == EntryKind::File implies
                entries[j].name != name by {
                if j < last {
                    assert(front[j] == entries[j]);
                }
            }
        }
    }
}

// ---------------------------------------------------------------------------------------------
// What is known of a file.
// ---------------------------------------------------------------------------------------------
/// What the authority answers of a file is what is shown: a member of a published group is a
/// verified duplicate, a dangerous one where the group spans devices; a file that shares size and
/// time is a likely one; a file in no group is unique, one without a hash is unhashed, one outside
/// the scan is outside, and one that could not be asked about is none of these.
pub proof fn law_the_semaphore_tells_the_membership(status: PanelFileStatus)
    ensures
        ({
            let s = crate::dedup::semaphore(status);
            &&& s == DedupStatus::VerifiedDup <==> (status matches PanelFileStatus::InGroup {
                distinct_devices,
                ..
            } && distinct_devices <= 1)
            &&& s == DedupStatus::DangerousDup <==> (status matches PanelFileStatus::InGroup {
                distinct_devices,
                ..
            } && distinct_devices > 1)
            &&& s == DedupStatus::LikelyDuplicate <==> status is LikelyBySizeMtime
            &&& s == DedupStatus::HashedUnique <==> status is NotGrouped
            &&& s == DedupStatus::Unhashed <==> status is NotHashed
            &&& s == DedupStatus::NotInScan <==> status is NotInScan
            &&& s == DedupStatus::Unavailable <==> status is Unavailable
        }),
{
}

/// Each standing has its own glyph, but that what is not known is `?` in either case.
pub proof fn law_the_status_glyph_tells_the_status(status: DedupStatus)
    ensures
        ({
            let glyph = crate::dedup::status_glyph(status);
            &&& glyph == '=' <==> status == DedupStatus::VerifiedDup
            &&& glyph == '⚠' <==> status == DedupStatus::DangerousDup
            &&& glyph == '≈' <==> status == DedupStatus::LikelyDuplicate
            &&& glyph == '-' <==> status == DedupStatus::HashedUnique
            &&& glyph == '·' <==> status == DedupStatus::NotInScan
            &&& glyph == '?' <==> status == DedupStatus::Unhashed || status
                == DedupStatus::Unavailable
        }),
{
}

/// Of the answers for one path the last one stands: its status, and its group where it is in one.
pub proof fn law_the_last_answer_stands(files: Seq<(FilePath, PanelFile)>, at: int)
    requires
        0 <= at < files.len(),
        forall|j: int|
            at < j < files.len() ==> (#[trigger] files[j]).0@.key() != files[at].0@.key(),
    ensures
        crate::dedup::statuses_of(files).contains_pair(
            files[at].0@.key(),
            crate::dedup::semaphore(files[at].1.status),
        ),
        files[at].1.status matches PanelFileStatus::InGroup { id, .. } ==> crate::dedup::groups_of(
            files,
        ).contains_pair(files[at].0@.key(), id),
        files[at].1.hash_text matches Some(hash) ==> crate::dedup::hashes_of(files).contains_pair(
            files[at].0@.key(),
            hash,
        ),
    decreases files.len(),
{
    if at < files.len() - 1 {
        let front = files.drop_last();
        assert(forall|j: int| 0 <= j < front.len() ==> front[j] == #[trigger] files[j]);
        law_the_last_answer_stands(front, at);
        assert(files[files.len() - 1].0@.key() != files[at].0@.key());
    }
}

/// Nothing is known of a path that no answer is about.
pub proof fn law_no_answer_no_status(files: Seq<(FilePath, PanelFile)>, path: PathKey)
    requires
        forall|j: int| 0 <= j < files.len() ==> (#[trigger] files[j]).0@.key() != path,
    ensures
        !crate::dedup::statuses_of(files).dom().contains(path),
        !crate::dedup::groups_of(files).dom().contains(path),
        !crate::dedup::hashes_of(files).dom().contains(path),
    decreases files.len(),
{
    if files.len() > 0 {
        let front = files.drop_last();
        assert(forall|j: int| 0 <= j < front.len() ==> front[j] == #[trigger] files[j]);
        law_no_answer_no_status(front, path);
        assert(files[files.len() - 1].0@.key() != path);
    }
}

/// A file's dedup standing is that under its own path, and outside the scan where there is none; a
/// signature counts only where it is trusted.
pub proof fn law_a_path_has_its_own_standing(dir: DirDedup, path: PathView)
    ensures
        ({
            let k = path.key();
            &&& dir.status@.dom().contains(k) ==> dir.spec_status_for(path) == dir.status@[k]
            &&& !dir.status@.dom().contains(k) ==> dir.spec_status_for(path)
                == DedupStatus::NotInScan
            &&& dir.spec_group_of(path) == (if dir.groups@.dom().contains(k) {
                Some(dir.groups@[k])
            } else {
                None
            })
            &&& dir.spec_dir_size(path) == (if dir.dir_sizes@.dom().contains(k) {
                Some(dir.dir_sizes@[k])
            } else {
                None
            })
            &&& dir.spec_trusted_dir_signature(path) is Some <==> dir.dir_signatures@.dom().contains(
                k,
            ) && dir.dir_signatures@[k].trust == DirTrust::Trusted
            &&& dir.spec_trusted_dir_signature(path) matches Some(sig) ==> sig
                == dir.dir_signatures@[k].signature@
        }),
{
}

/// A hash taken on demand goes to the file's own directory. Every file there with that hash is
/// then a likely duplicate where another one has it too, and unique where none has; what the
/// authority vouches for keeps its standing, and so does every file with another hash.
pub proof fn law_a_hash_tells_its_directory(
    before: DedupCache,
    after: DedupCache,
    path: PathView,
    hash: Seq<u8>,
    other: PathKey,
)
    requires
        crate::dedup::hash_added(before, after, path, hash),
        path.parent() is Some,
    ensures
        ({
            let cwd = path.parent()->Some_0.key();
            let hex = crate::text::hex_text(hash);
            &&& after.by_cwd@.dom().contains(cwd)
            &&& after.by_cwd@[cwd] matches Ok(dir) && {
                let base = if before.by_cwd@.dom().contains(cwd) && before.by_cwd@[cwd] is Ok {
                    before.by_cwd@[cwd]->Ok_0.status@
                } else {
                    Map::empty()
                };
                let same = dir.hashes@.dom().contains(other) && dir.hashes@[other]@ == hex;
                let twin = exists|k: PathKey|
                    k != path.key() && #[trigger] dir.hashes@.dom().contains(k) && dir.hashes@[k]@
                        == hex;
                let kept = base.dom().contains(other) && (base[other] == DedupStatus::VerifiedDup
                    || base[other] == DedupStatus::DangerousDup);
                &&& dir.hashes@.dom().contains(path.key()) && dir.hashes@[path.key()]@ == hex
                &&& same && !kept && twin ==> dir.status@.contains_pair(
                    other,
                    DedupStatus::LikelyDuplicate,
                )
                &&& same && !kept && !twin ==> dir.status@.contains_pair(
                    other,
                    DedupStatus::HashedUnique,
                )
                &&& !same || kept ==> (dir.status@.dom().contains(other) <==> base.dom().contains(
                    other,
                )) && (base.dom().contains(other) ==> dir.status@[other] == base[other])
            }
            &&& other != cwd ==> (after.by_cwd@.dom().contains(other)
                <==> before.by_cwd@.dom().contains(other))
            &&& other != cwd && before.by_cwd@.dom().contains(other) ==> after.by_cwd@[other]
                == before.by_cwd@[other]
        }),
{
    let parent = path.parent()->Some_0;
    let dir = after.spec_dir(parent)->Some_0;
    let hex = crate::text::hex_text(hash);
    assert(crate::dedup::has_twin(dir.hashes@, path.key(), hex) <==> exists|k: PathKey|
        k != path.key() && #[trigger] dir.hashes@.dom().contains(k) && dir.hashes@[k]@ == hex);
}

// ---------------------------------------------------------------------------------------------
// Panels sent about.
// ---------------------------------------------------------------------------------------------
/// A panel sent to a directory shows that directory, empty and loading until it is read; the read
/// is asked for once, under the panel's new number, and is to come back to where the panel was.
pub proof fn law_a_sent_panel_is_read(a: AppModel, index: int, dir: PathView, previous: PathView)
    requires
        0 <= index < a.commander.panels.len() <= usize::MAX,
        a.commander.panels[index].generation < u64::MAX,
    ensures
        ({
            let b = crate::navigate::navigated(a, index, dir, previous);
            let p = b.commander.panels[index];
            &&& p.cwd == dir && p.entries.len() == 0 && p.loading
            &&& p.generation == a.commander.panels[index].generation + 1
            &&& p.marks == a.commander.panels[index].marks
            &&& p.sort == a.commander.panels[index].sort && p.view
                == a.commander.panels[index].view
            &&& b.outbox.len() == a.outbox.len() + 1 && b.outbox.drop_last() == a.outbox
            &&& b.outbox.last() matches EffectModel::LoadPanel(r) && r.dir == dir && r.generation
                == p.generation && r.target == LoadTarget::Commander(index as usize) && r.previous
                == Some(previous)
            &&& forall|j: int|
                0 <= j < a.commander.panels.len() && j != index ==> (
                #[trigger] b.commander.panels[j]) == a.commander.panels[j]
        }),
{
    let b = crate::navigate::navigated(a, index, dir, previous);
    assert(b.outbox.drop_last() =~= a.outbox);
}

/// The next root is the one after the panel's own, the first after the last, and the first where
/// the panel shows none of them.
pub proof fn law_the_roots_go_round(roots: Seq<PathView>, cwd: PathView, at: int)
    requires
        0 <= at < roots.len(),
    ensures
        roots[at].key() == cwd.key() && (forall|i: int|
            0 <= i < at ==> (#[trigger] roots[i]).key() != cwd.key()) ==> crate::compare::next_root(
            roots,
            cwd,
        ) == roots[if at + 1 == roots.len() {
            0
        } else {
            at + 1
        }],
        (forall|i: int| 0 <= i < roots.len() ==> (#[trigger] roots[i]).key() != cwd.key())
            ==> crate::compare::next_root(roots, cwd) == roots[0],
{
    lemma_position(roots, cwd);
}

proof fn lemma_position(paths: Seq<PathView>, path: PathView)
    ensures
        ({
            let at = crate::compare::path_position(paths, path);
            &&& 0 <= at <= paths.len()
            &&& at < paths.len() ==> paths[at].key() == path.key()
            &&& forall|i: int| 0 <= i < at ==> (#[trigger] paths[i]).key() != path.key()
        }),
    decreases paths.len(),
{
    if paths.len() > 0 && paths[0].key() != path.key() {
        let rest = paths.skip(1);
        lemma_position(rest, path);
        let at = crate::compare::path_position(paths, path);
        assert forall|i: int| 0 <= i < at implies (#[trigger] paths[i]).key() != path.key() by {
            if i > 0 {
                assert(rest[i - 1] == paths[i]);
            }
        }
    }
}

/// The root key sends the active panel to the root after its own, and no other panel; without roots
/// it sends none.
pub proof fn law_the_root_key_sends_the_active_panel(a: AppModel)
    requires
        a.valid(),
    ensures
        ({
            let b = crate::compare::root_changed(a);
            let i = a.commander.active as int;
            let cwd = a.commander.panels[i].cwd;
            &&& a.commander.roots.len() == 0 ==> b.commander.panels == a.commander.panels
                && b.outbox == a.outbox
            &&& a.commander.roots.len() > 0 ==> {
                &&& b.commander.panels[i].cwd == crate::compare::next_root(a.commander.roots, cwd)
                &&& b.outbox.len() == a.outbox.len() + 1
                &&& b.outbox.last() matches EffectModel::LoadPanel(r) && r.dir
                    == b.commander.panels[i].cwd && r.target == LoadTarget::Commander(
                    a.commander.active,
                )
            }
            &&& forall|j: int|
                0 <= j < a.commander.panels.len() && j != i ==> (#[trigger] b.commander.panels[j])
                    == a.commander.panels[j]
        }),
{
}

} // verus!
