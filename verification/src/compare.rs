//! Panels held against each other.

use vstd::prelude::*;

use crate::app::{App, AppModel, CommanderModel, Effect, EffectModel};
use crate::assoc::Assoc;
use crate::dedup::{DedupStatus, DirDedup, GroupId};
use crate::entries::{EntryKind, EntryModel, PanelEntry};
use crate::navigate::navigate_panel;
use crate::panel::{holds_key, match_key, ComparePeer, MatchKey, MatchKeyModel};
use crate::panels::{Panel, PanelModel};
use crate::path::{FilePath, PathKey, PathView};
use crate::text::push_usize;

verus! {

// ---------------------------------------------------------------------------------------------
// Cross-panel matches.
// ---------------------------------------------------------------------------------------------
/// The keys a panel's entries match by.
pub open spec fn panel_has_key(c: CommanderModel, index: int, key: MatchKeyModel) -> bool {
    let p = c.panels[index];
    exists|i: int|
        0 <= i < p.entries.len() && crate::panel::entry_key(
            panel_dedup(c, p),
            #[trigger] p.entries[i],
        ) == Some(key)
}

/// The dedup data of a panel's directory.
pub open spec fn panel_dedup(c: CommanderModel, p: PanelModel) -> Option<DirDedup> {
    if c.dedup.by_cwd.dom().contains(p.cwd.key()) {
        match c.dedup.by_cwd[p.cwd.key()] {
            Ok(dir) => Some(dir),
            Err(_) => None,
        }
    } else {
        None
    }
}

/// A key occurs in two or more panels.
pub open spec fn crosses(c: CommanderModel, key: MatchKeyModel) -> bool {
    exists|i: int, j: int|
        0 <= i < j < c.panels.len() && #[trigger] panel_has_key(c, i, key)
            && #[trigger] panel_has_key(c, j, key)
}

fn keys_of_panel(app: &App, index: usize) -> (r: Vec<MatchKey>)
    requires
        index < app@.commander.panels.len(),
    ensures
        forall|key: MatchKeyModel|
            #[trigger] crate::panel::keys_model(r@).contains(key) <==> panel_has_key(
                app@.commander,
                index as int,
                key,
            ),
{
    let panel = &app.commander.panels[index];
    let dir = app.commander.dedup.dir(&panel.cwd);
    let ghost p = app@.commander.panels[index as int];
    let ghost d = panel_dedup(app@.commander, p);
    let mut keys: Vec<MatchKey> = Vec::new();
    let mut i: usize = 0;
    while i < panel.entries.len()
        invariant
            i <= panel.entries@.len(),
            p == panel@,
            d == crate::panel::owned(dir),
            forall|key: MatchKeyModel|
                #[trigger] crate::panel::keys_model(keys@).contains(key) <==> exists|k: int|
                    0 <= k < i && crate::panel::entry_key(d, #[trigger] p.entries[k]) == Some(key),
        decreases panel.entries@.len() - i,
    {
        let ghost before = crate::panel::keys_model(keys@);
        let ghost known = keys@;
        assert(p.entries[i as int] == panel.entries@[i as int]@);
        match match_key(dir, &panel.entries[i]) {
            Some(key) => {
                let ghost found = key@;
                if !holds_key(&keys, &key) {
                    keys.push(key);
                    assert(crate::panel::keys_model(keys@) =~= before.push(found));
                }
                proof {
                    assert forall|k: MatchKeyModel|
                        #[trigger] crate::panel::keys_model(keys@).contains(k) <==> before.contains(
                            k,
                        ) || k == found by {
                        let now = crate::panel::keys_model(keys@);
                        if now.len() > before.len() {
                            assert(now[before.len() as int] == found);
                            if before.contains(k) {
                                let at = before.index_of(k);
                                assert(now[at] == k);
                            }
                            if now.contains(k) && k != found {
                                let at = now.index_of(k);
                                assert(before[at] == k);
                            }
                        }
                    }
                }
            },
            None => {},
        }
        proof {
            assert forall|key: MatchKeyModel|
                #[trigger] crate::panel::keys_model(keys@).contains(key) <==> exists|k: int|
                    0 <= k < i + 1 && crate::panel::entry_key(d, #[trigger] p.entries[k]) == Some(
                        key,
                    ) by {
                if crate::panel::keys_model(keys@).contains(key) {
                    if before.contains(key) {
                        let k = choose|k: int|
                            0 <= k < i && crate::panel::entry_key(d, #[trigger] p.entries[k])
                                == Some(key);
                        assert(crate::panel::entry_key(d, p.entries[k]) == Some(key));
                    } else {
                        assert(crate::panel::entry_key(d, p.entries[i as int]) == Some(key));
                    }
                }
                if exists|k: int|
                    0 <= k < i + 1 && crate::panel::entry_key(d, #[trigger] p.entries[k]) == Some(
                        key,
                    ) {
                    let k = choose|k: int|
                        0 <= k < i + 1 && crate::panel::entry_key(d, #[trigger] p.entries[k])
                            == Some(key);
                    if k < i {
                        assert(before.contains(key));
                    }
                }
            }
        }
        i = i + 1;
    }
    keys
}

/// The published groups and the trusted directory signatures that appear in two or more panels —
/// cross-panel matches for bright highlighting. Files are keyed by the identity of the published
/// group, never by a digest; a row with no membership contributes no key at all.
pub fn cross_panel_keys(app: &App) -> (r: Vec<MatchKey>)
    ensures
        forall|key: MatchKeyModel|
            #[trigger] crate::panel::keys_model(r@).contains(key) <==> crosses(app@.commander, key),
{
    let ghost c = app@.commander;
    let mut cross: Vec<MatchKey> = Vec::new();
    let mut j: usize = 0;
    while j < app.commander.panels.len()
        invariant
            j <= app.commander.panels@.len(),
            c == app@.commander,
            forall|key: MatchKeyModel|
                #[trigger] crate::panel::keys_model(cross@).contains(key) <==> crosses_among(
                    c,
                    key,
                    j as int,
                ),
        decreases app.commander.panels@.len() - j,
    {
        let here = keys_of_panel(app, j);
        let ghost before = crate::panel::keys_model(cross@);
        let ghost mine = crate::panel::keys_model(here@);
        let mut k: usize = 0;
        while k < here.len()
            invariant
                k <= here@.len(),
                j < app.commander.panels@.len(),
                c == app@.commander,
                mine == crate::panel::keys_model(here@),
                forall|key: MatchKeyModel|
                    #[trigger] crate::panel::keys_model(cross@).contains(key) <==> before.contains(
                        key,
                    ) || (exists|i: int, n: int|
                        0 <= i < j && 0 <= n < k && mine[n] == key && #[trigger] panel_has_key(
                            c,
                            i,
                            key,
                        ) && #[trigger] marked(n)),
            decreases here@.len() - k,
        {
            let ghost held = crate::panel::keys_model(cross@);
            let seen = key_below(app, j, &here[k]);
            let ghost found = here@[k as int]@;
            assert(mine[k as int] == found);
            if seen && !holds_key(&cross, &here[k]) {
                cross.push(copy_key(&here[k]));
                assert(crate::panel::keys_model(cross@) =~= held.push(found));
            }
            proof {
                let now = crate::panel::keys_model(cross@);
                assert forall|key: MatchKeyModel| #[trigger] now.contains(key) <==> held.contains(
                    key,
                ) || (seen && key == found) by {
                    if now.len() > held.len() {
                        assert(now[held.len() as int] == found);
                        if held.contains(key) {
                            let at = held.index_of(key);
                            assert(now[at] == key);
                        }
                        if now.contains(key) && key != found {
                            let at = now.index_of(key);
                            assert(held[at] == key);
                        }
                    }
                }
                assert(marked(k as int));
                assert forall|key: MatchKeyModel|
                    #[trigger] now.contains(key) <==> before.contains(key) || (exists|
                        i: int,
                        n: int,
                    |
                        0 <= i < j && 0 <= n < k + 1 && mine[n] == key && #[trigger] panel_has_key(
                            c,
                            i,
                            key,
                        ) && #[trigger] marked(n)) by {
                    if now.contains(key) && !held.contains(key) {
                        let i = choose|i: int| 0 <= i < j && #[trigger] panel_has_key(c, i, found);
                        assert(panel_has_key(c, i, key) && marked(k as int));
                    }
                    if exists|i: int, n: int|
                        0 <= i < j && 0 <= n < k + 1 && mine[n] == key && #[trigger] panel_has_key(
                            c,
                            i,
                            key,
                        ) && #[trigger] marked(n) {
                        let (i, n) = choose|i: int, n: int|
                            0 <= i < j && 0 <= n < k + 1 && mine[n] == key
                                && #[trigger] panel_has_key(c, i, key) && #[trigger] marked(n);
                        if n < k {
                            assert(panel_has_key(c, i, key) && marked(n));
                        }
                    }
                }
            }
            k = k + 1;
        }
        proof {
            assert forall|key: MatchKeyModel|
                #[trigger] crate::panel::keys_model(cross@).contains(key) <==> crosses_among(
                    c,
                    key,
                    j + 1,
                ) by {
                if crate::panel::keys_model(cross@).contains(key) && !before.contains(key) {
                    let (i, n) = choose|i: int, n: int|
                        0 <= i < j && 0 <= n < here@.len() && mine[n] == key
                            && #[trigger] panel_has_key(c, i, key) && #[trigger] marked(n);
                    assert(mine.contains(key));
                    assert(panel_has_key(c, j as int, key));
                    assert(panel_has_key(c, i, key));
                }
                if crosses_among(c, key, j + 1) && !crosses_among(c, key, j as int) {
                    let (a, b) = choose|a: int, b: int|
                        0 <= a < b < j + 1 && #[trigger] panel_has_key(c, a, key)
                            && #[trigger] panel_has_key(c, b, key);
                    assert(b == j);
                    assert(mine.contains(key));
                    let n = mine.index_of(key);
                    assert(panel_has_key(c, a, key) && marked(n));
                }
            }
        }
        j = j + 1;
    }
    assert forall|key: MatchKeyModel|
        #[trigger] crate::panel::keys_model(cross@).contains(key) <==> crosses(c, key) by {
        assert(crosses_among(c, key, c.panels.len() as int) <==> crosses(c, key));
    }
    cross
}

/// A key occurs in two of the first panels.
pub open spec fn crosses_among(c: CommanderModel, key: MatchKeyModel, count: int) -> bool {
    exists|i: int, j: int|
        0 <= i < j < count && #[trigger] panel_has_key(c, i, key) && #[trigger] panel_has_key(
            c,
            j,
            key,
        )
}

spec fn marked(n: int) -> bool {
    true
}

fn copy_key(key: &MatchKey) -> (r: MatchKey)
    ensures
        r@ == key@,
{
    match key {
        MatchKey::Group(id) => MatchKey::Group(*id),
        MatchKey::Directory(signature) => MatchKey::Directory(signature.as_str().to_string()),
    }
}

/// Whether one of the panels before `count` has the key.
fn key_below(app: &App, count: usize, key: &MatchKey) -> (r: bool)
    requires
        count <= app@.commander.panels.len(),
    ensures
        r == exists|i: int|
            0 <= i < count && #[trigger] panel_has_key(app@.commander, i, key@),
{
    let ghost c = app@.commander;
    let mut i: usize = 0;
    while i < count
        invariant
            i <= count <= app@.commander.panels.len(),
            c == app@.commander,
            forall|k: int| 0 <= k < i ==> !#[trigger] panel_has_key(c, k, key@),
        decreases count - i,
    {
        if entry_with_key(app, i, key) {
            assert(panel_has_key(c, i as int, key@));
            return true;
        }
        i = i + 1;
    }
    false
}

fn entry_with_key(app: &App, index: usize, key: &MatchKey) -> (r: bool)
    requires
        index < app@.commander.panels.len(),
    ensures
        r == panel_has_key(app@.commander, index as int, key@),
{
    let panel = &app.commander.panels[index];
    let dir = app.commander.dedup.dir(&panel.cwd);
    let ghost p = app@.commander.panels[index as int];
    let ghost d = panel_dedup(app@.commander, p);
    let mut i: usize = 0;
    while i < panel.entries.len()
        invariant
            i <= panel.entries@.len(),
            p == panel@,
            p == app@.commander.panels[index as int],
            d == panel_dedup(app@.commander, p),
            d == crate::panel::owned(dir),
            forall|k: int|
                0 <= k < i ==> crate::panel::entry_key(d, #[trigger] p.entries[k]) != Some(key@),
        decreases panel.entries@.len() - i,
    {
        assert(p.entries[i as int] == panel.entries@[i as int]@);
        match match_key(dir, &panel.entries[i]) {
            Some(found) => {
                if found.same(key) {
                    assert(crate::panel::entry_key(d, p.entries[i as int]) == Some(key@));
                    return true;
                }
            },
            None => {},
        }
        i = i + 1;
    }
    false
}

/// Only what a published group or a trusted signature vouches for ever lights up: a key that
/// crosses panels is the key of an entry in each of two of them.
pub proof fn law_cross_matches_are_vouched_for(c: CommanderModel, key: MatchKeyModel)
    requires
        crosses(c, key),
    ensures
        exists|i: int, j: int, m: int, n: int|
            0 <= i < j < c.panels.len() && 0 <= m < c.panels[i].entries.len() && 0 <= n
                < c.panels[j].entries.len() && crate::panel::entry_key(
                panel_dedup(c, c.panels[i]),
                #[trigger] c.panels[i].entries[m],
            ) == Some(key) && crate::panel::entry_key(
                panel_dedup(c, c.panels[j]),
                #[trigger] c.panels[j].entries[n],
            ) == Some(key),
{
    let (i, j) = choose|i: int, j: int|
        0 <= i < j < c.panels.len() && #[trigger] panel_has_key(c, i, key)
            && #[trigger] panel_has_key(c, j, key);
    let m = choose|m: int|
        0 <= m < c.panels[i].entries.len() && crate::panel::entry_key(
            panel_dedup(c, c.panels[i]),
            #[trigger] c.panels[i].entries[m],
        ) == Some(key);
    let n = choose|n: int|
        0 <= n < c.panels[j].entries.len() && crate::panel::entry_key(
            panel_dedup(c, c.panels[j]),
            #[trigger] c.panels[j].entries[n],
        ) == Some(key);
    assert(crate::panel::entry_key(panel_dedup(c, c.panels[i]), c.panels[i].entries[m]) == Some(
        key,
    ));
    assert(crate::panel::entry_key(panel_dedup(c, c.panels[j]), c.panels[j].entries[n]) == Some(
        key,
    ));
}

// ---------------------------------------------------------------------------------------------
// Side by side.
// ---------------------------------------------------------------------------------------------
/// What a panel has under its files' names; of several with one name the last.
pub open spec fn peer_files(entries: Seq<EntryModel>, dir: Option<DirDedup>) -> Map<
    Seq<char>,
    ComparePeer,
>
    decreases entries.len(),
{
    if entries.len() == 0 {
        Map::empty()
    } else {
        let before = peer_files(entries.drop_last(), dir);
        let e = entries.last();
        if e.kind == EntryKind::File {
            before.insert(
                e.name,
                ComparePeer {
                    size: e.size,
                    mtime: e.mtime,
                    group: crate::panel::group_in(dir, e.path),
                },
            )
        } else {
            before
        }
    }
}

/// Map of panel `panel_index`'s files for side-by-side comparison: file name → size and time plus
/// the published identity of its group. The identity is what decides «identical».
pub fn build_compare_peer(app: &App, panel_index: usize) -> (r: Assoc<String, ComparePeer>)
    requires
        panel_index < app@.commander.panels.len(),
    ensures
        r@ == peer_files(
            app@.commander.panels[panel_index as int].entries,
            panel_dedup(app@.commander, app@.commander.panels[panel_index as int]),
        ),
{
    let panel = &app.commander.panels[panel_index];
    let dir = app.commander.dedup.dir(&panel.cwd);
    let ghost all = panel@.entries;
    let ghost d = crate::panel::owned(dir);
    let mut map: Assoc<String, ComparePeer> = Assoc::new();
    let mut i: usize = 0;
    assert(map@ =~= peer_files(all.take(0), d));
    while i < panel.entries.len()
        invariant
            i <= panel.entries@.len(),
            all == crate::entries::entries_model(panel.entries@),
            d == crate::panel::owned(dir),
            map@ == peer_files(all.take(i as int), d),
        decreases panel.entries@.len() - i,
    {
        assert(all.take(i as int + 1).drop_last() =~= all.take(i as int));
        let entry = &panel.entries[i];
        assert(all[i as int] == entry@);
        if matches!(entry.kind, EntryKind::File) {
            let group = match dir {
                Some(d) => d.group_of(&entry.path),
                None => None,
            };
            map.insert(
                entry.name.as_str().to_string(),
                ComparePeer { size: entry.size, mtime: entry.mtime, group },
            );
        }
        i = i + 1;
    }
    assert(all.take(all.len() as int) =~= all);
    map
}

// ---------------------------------------------------------------------------------------------
// Counting matches.
// ---------------------------------------------------------------------------------------------
/// The published group of a file entry, as far as it has one.
pub open spec fn file_group(dir: Option<DirDedup>, e: EntryModel) -> Option<GroupId> {
    match dir {
        Some(d) => if e.kind == EntryKind::File {
            d.spec_group_of(e.path)
        } else {
            None
        },
        None => None,
    }
}

/// The trusted signature of a directory entry.
pub open spec fn dir_signature(dir: Option<DirDedup>, e: EntryModel) -> Option<Seq<char>> {
    match dir {
        Some(d) => if e.kind == EntryKind::Dir {
            d.spec_trusted_dir_signature(e.path)
        } else {
            None
        },
        None => None,
    }
}

/// Some file is in this group.
pub open spec fn has_group(dir: Option<DirDedup>, entries: Seq<EntryModel>, id: GroupId) -> bool {
    exists|i: int| 0 <= i < entries.len() && file_group(dir, #[trigger] entries[i]) == Some(id)
}

/// Some directory has this trusted signature.
pub open spec fn has_signature(
    dir: Option<DirDedup>,
    entries: Seq<EntryModel>,
    signature: Seq<char>,
) -> bool {
    exists|i: int|
        0 <= i < entries.len() && dir_signature(dir, #[trigger] entries[i]) == Some(signature)
}

/// How many files are in a group that some file of the other panel is in.
pub open spec fn matching_files(
    dir: Option<DirDedup>,
    entries: Seq<EntryModel>,
    other_dir: Option<DirDedup>,
    other: Seq<EntryModel>,
) -> nat
    decreases entries.len(),
{
    if entries.len() == 0 {
        0
    } else {
        matching_files(dir, entries.drop_last(), other_dir, other) + match file_group(
            dir,
            entries.last(),
        ) {
            Some(id) => if has_group(other_dir, other, id) {
                1nat
            } else {
                0nat
            },
            None => 0nat,
        }
    }
}

/// How many directories have a trusted signature that some directory of the other panel has.
pub open spec fn matching_dirs(
    dir: Option<DirDedup>,
    entries: Seq<EntryModel>,
    other_dir: Option<DirDedup>,
    other: Seq<EntryModel>,
) -> nat
    decreases entries.len(),
{
    if entries.len() == 0 {
        0
    } else {
        matching_dirs(dir, entries.drop_last(), other_dir, other) + match dir_signature(
            dir,
            entries.last(),
        ) {
            Some(signature) => if has_signature(other_dir, other, signature) {
                1nat
            } else {
                0nat
            },
            None => 0nat,
        }
    }
}

fn find_group(dir: Option<&DirDedup>, panel: &Panel, id: GroupId) -> (r: bool)
    ensures
        r == has_group(crate::panel::owned(dir), panel@.entries, id),
{
    let ghost all = panel@.entries;
    let ghost d = crate::panel::owned(dir);
    let mut i: usize = 0;
    while i < panel.entries.len()
        invariant
            i <= panel.entries@.len(),
            all == crate::entries::entries_model(panel.entries@),
            d == crate::panel::owned(dir),
            forall|k: int| 0 <= k < i ==> file_group(d, #[trigger] all[k]) != Some(id),
        decreases panel.entries@.len() - i,
    {
        assert(all[i as int] == panel.entries@[i as int]@);
        if matches!(panel.entries[i].kind, EntryKind::File) {
            if let Some(d) = dir {
                if let Some(found) = d.group_of(&panel.entries[i].path) {
                    if found == id {
                        return true;
                    }
                }
            }
        }
        i = i + 1;
    }
    false
}

fn find_signature(dir: Option<&DirDedup>, panel: &Panel, signature: &str) -> (r: bool)
    ensures
        r == has_signature(crate::panel::owned(dir), panel@.entries, signature@),
{
    let ghost all = panel@.entries;
    let ghost d = crate::panel::owned(dir);
    let mut i: usize = 0;
    while i < panel.entries.len()
        invariant
            i <= panel.entries@.len(),
            all == crate::entries::entries_model(panel.entries@),
            d == crate::panel::owned(dir),
            forall|k: int| 0 <= k < i ==> dir_signature(d, #[trigger] all[k]) != Some(signature@),
        decreases panel.entries@.len() - i,
    {
        assert(all[i as int] == panel.entries@[i as int]@);
        if matches!(panel.entries[i].kind, EntryKind::Dir) {
            match dir {
                Some(d) => match d.trusted_dir_signature(&panel.entries[i].path) {
                    Some(found) => {
                        let found: String = found.to_string();
                        let wanted: String = signature.to_string();
                        if found == wanted {
                            return true;
                        }
                    },
                    None => {},
                },
                None => {},
            }
        }
        i = i + 1;
    }
    false
}

fn matches_entry(
    active_dedup: Option<&DirDedup>,
    other_dedup: Option<&DirDedup>,
    entry: &PanelEntry,
    other: &Panel,
) -> (r: (bool, bool))
    ensures
        r.0 == (file_group(crate::panel::owned(active_dedup), entry@) matches Some(id) && has_group(
            crate::panel::owned(other_dedup),
            other@.entries,
            id,
        )),
        r.1 == (dir_signature(crate::panel::owned(active_dedup), entry@) matches Some(sig)
            && has_signature(crate::panel::owned(other_dedup), other@.entries, sig)),
{
    match active_dedup {
        Some(d) => match entry.kind {
            EntryKind::File => match d.group_of(&entry.path) {
                Some(id) => (find_group(other_dedup, other, id), false),
                None => (false, false),
            },
            EntryKind::Dir => match d.trusted_dir_signature(&entry.path) {
                Some(sig) => (false, find_signature(other_dedup, other, sig)),
                None => (false, false),
            },
            EntryKind::Parent => (false, false),
        },
        None => (false, false),
    }
}

/// A digest is never the key of a match: where no file of a panel has a published group, no file
/// matches, whatever the digests are.
pub proof fn law_a_digest_matches_nothing(
    dir: Option<DirDedup>,
    entries: Seq<EntryModel>,
    other_dir: Option<DirDedup>,
    other: Seq<EntryModel>,
)
    requires
        (forall|i: int| 0 <= i < entries.len() ==> file_group(dir, #[trigger] entries[i]) is None)
            || (forall|i: int|
            0 <= i < other.len() ==> file_group(other_dir, #[trigger] other[i]) is None),
    ensures
        matching_files(dir, entries, other_dir, other) == 0,
    decreases entries.len(),
{
    if entries.len() > 0 {
        let rest = entries.drop_last();
        assert(forall|i: int| 0 <= i < rest.len() ==> rest[i] == #[trigger] entries[i]);
        assert((forall|i: int| 0 <= i < rest.len() ==> file_group(dir, #[trigger] rest[i]) is None)
            || (forall|i: int|
            0 <= i < other.len() ==> file_group(other_dir, #[trigger] other[i]) is None));
        law_a_digest_matches_nothing(dir, rest, other_dir, other);
        assert(entries.last() == entries[entries.len() - 1]);
    }
}

/// Counts matching files and folders between the active and adjacent panels: files by their
/// published groups, folders by trusted signatures only.
pub fn count_panel_matches(
    active_dedup: Option<&DirDedup>,
    other_dedup: Option<&DirDedup>,
    active: &Panel,
    other: &Panel,
) -> (r: (usize, usize))
    ensures
        r.0 == matching_files(
            crate::panel::owned(active_dedup),
            active@.entries,
            crate::panel::owned(other_dedup),
            other@.entries,
        ),
        r.1 == matching_dirs(
            crate::panel::owned(active_dedup),
            active@.entries,
            crate::panel::owned(other_dedup),
            other@.entries,
        ),
{
    let ghost all = active@.entries;
    let ghost mine = crate::panel::owned(active_dedup);
    let ghost theirs = crate::panel::owned(other_dedup);
    let mut files: usize = 0;
    let mut dirs: usize = 0;
    let mut i: usize = 0;
    while i < active.entries.len()
        invariant
            i <= active.entries@.len(),
            all == crate::entries::entries_model(active.entries@),
            mine == crate::panel::owned(active_dedup),
            theirs == crate::panel::owned(other_dedup),
            files == matching_files(mine, all.take(i as int), theirs, other@.entries),
            dirs == matching_dirs(mine, all.take(i as int), theirs, other@.entries),
            files <= i,
            dirs <= i,
        decreases active.entries@.len() - i,
    {
        assert(all.take(i as int + 1).drop_last() =~= all.take(i as int));
        assert(all[i as int] == active.entries@[i as int]@);
        let (file, dir) = matches_entry(active_dedup, other_dedup, &active.entries[i], other);
        if file {
            files = files + 1;
        }
        if dir {
            dirs = dirs + 1;
        }
        i = i + 1;
    }
    assert(all.take(all.len() as int) =~= all);
    (files, dirs)
}

/// The panel after another, round and round.
pub open spec fn neighbour(c: CommanderModel) -> int {
    if c.active + 1 < c.panels.len() {
        c.active + 1
    } else {
        0
    }
}

/// A panel's directory is covered by the scan: there are scan files in it or below.
pub open spec fn covered_dir(c: CommanderModel, p: PanelModel) -> bool {
    match panel_dedup(c, p) {
        Some(d) => d.status@ != Map::<PathKey, DedupStatus>::empty() || d.dir_sizes@ != Map::<
            PathKey,
            u64,
        >::empty(),
        None => false,
    }
}

/// The comparison of the active panel with its neighbour: the number of matches where both are
/// covered by a scan, a scan of the two directories otherwise.
pub open spec fn compared(a: AppModel) -> AppModel {
    let c = a.commander;
    let other = neighbour(c);
    let p = c.active_panel();
    let q = c.panels[other];
    if c.dedup.pending.dom().contains(p.cwd.key()) || c.dedup.pending.dom().contains(
        q.cwd.key(),
    ) {
        a.say("Overlay is still loading — retry later"@)
    } else if covered_dir(c, p) && covered_dir(c, q) {
        a.say(
            "Panel comparison "@ + crate::text::decimal((c.active + 1) as nat) + "↔"@
                + crate::text::decimal((other + 1) as nat) + ": matching files "@
                + crate::text::decimal(
                matching_files(panel_dedup(c, p), p.entries, panel_dedup(c, q), q.entries),
            ) + ", folders "@ + crate::text::decimal(
                matching_dirs(panel_dedup(c, p), p.entries, panel_dedup(c, q), q.entries),
            ),
        )
    } else {
        a.say("Scanning for comparison: "@ + p.cwd.shown_safely() + " ↔ "@ + q.cwd.shown_safely()).send(
            EffectModel::Scan(seq![p.cwd, q.cwd]),
        )
    }
}

fn comparison_status(active: usize, other: usize, files: usize, dirs: usize) -> (r: String)
    requires
        active < usize::MAX,
        other < usize::MAX,
    ensures
        r@ == "Panel comparison "@ + crate::text::decimal((active + 1) as nat) + "↔"@
            + crate::text::decimal((other + 1) as nat) + ": matching files "@
            + crate::text::decimal(files as nat) + ", folders "@ + crate::text::decimal(
            dirs as nat,
        ),
{
    let mut status = "Panel comparison ".to_string();
    push_usize(&mut status, active + 1);
    status.push_str("↔");
    push_usize(&mut status, other + 1);
    status.push_str(": matching files ");
    push_usize(&mut status, files);
    status.push_str(", folders ");
    push_usize(&mut status, dirs);
    status
}

/// Shift+F2: compares the directories of the active and adjacent panels.
pub fn compare_panels(app: &mut App)
    requires
        old(app)@.valid(),
    ensures
        final(app)@ == compared(old(app)@),
{
    let active: usize = app.commander.active;
    let other: usize = if active + 1 < app.commander.panels.len() {
        active + 1
    } else {
        0
    };
    let c = &app.commander;
    let p = &c.panels[active];
    let q = &c.panels[other];
    if c.dedup.is_pending(&p.cwd) || c.dedup.is_pending(&q.cwd) {
        app.say_str("Overlay is still loading — retry later");
        return;
    }
    if c.dedup.covered(&p.cwd) && c.dedup.covered(&q.cwd) {
        let (files, dirs) = count_panel_matches(c.dedup.dir(&p.cwd), c.dedup.dir(&q.cwd), p, q);
        let status = comparison_status(active, other, files, dirs);
        app.say(status);
        return;
    }
    let mut status = "Scanning for comparison: ".to_string();
    status.push_str(p.cwd.display_safely().as_str());
    status.push_str(" ↔ ");
    status.push_str(q.cwd.display_safely().as_str());
    let roots: Vec<FilePath> = vec![p.cwd.copy(), q.cwd.copy()];
    assert(crate::model::paths_model(roots@) =~= seq![p@.cwd, q@.cwd]);
    app.say(status);
    app.send(Effect::Scan(roots));
}

// ---------------------------------------------------------------------------------------------
// Panels sent to each other's directories.
// ---------------------------------------------------------------------------------------------
/// Position of a path among others, or their number.
pub open spec fn path_position(paths: Seq<PathView>, path: PathView) -> int
    decreases paths.len(),
{
    if paths.len() == 0 {
        0
    } else if paths[0].key() == path.key() {
        0
    } else {
        1 + path_position(paths.skip(1), path)
    }
}

proof fn lemma_path_position(paths: Seq<PathView>, path: PathView, at: int)
    requires
        0 <= at <= paths.len(),
        forall|i: int| 0 <= i < at ==> (#[trigger] paths[i]).key() != path.key(),
        at < paths.len() ==> paths[at].key() == path.key(),
    ensures
        path_position(paths, path) == at,
    decreases paths.len(),
{
    if paths.len() > 0 && at > 0 {
        assert(paths[0].key() != path.key());
        assert forall|i: int| 0 <= i < at - 1 implies (#[trigger] paths.skip(1)[i]).key()
            != path.key() by {
            assert(paths.skip(1)[i] == paths[i + 1]);
        }
        lemma_path_position(paths.skip(1), path, at - 1);
    }
}

/// The root after the one a panel shows, the first where it shows none.
pub open spec fn next_root(roots: Seq<PathView>, cwd: PathView) -> PathView {
    let at = path_position(roots, cwd);
    if at < roots.len() {
        if at + 1 < roots.len() {
            roots[at + 1]
        } else {
            roots[0]
        }
    } else {
        roots[0]
    }
}

/// The active panel sent to the next dataset.
pub open spec fn root_changed(a: AppModel) -> AppModel {
    let c = a.commander;
    if c.roots.len() == 0 {
        a.say("No ZFS datasets to change the panel root"@)
    } else {
        let cwd = c.active_panel().cwd;
        let target = next_root(c.roots, cwd);
        crate::navigate::navigated(a, c.active as int, target, cwd).say(
            "Panel "@ + crate::text::decimal((c.active + 1) as nat) + " → "@ + target.shown_safely(),
        )
    }
}

fn find_root(roots: &Vec<FilePath>, cwd: &FilePath) -> (r: usize)
    ensures
        r == path_position(crate::model::paths_model(roots@), cwd@),
        r <= roots@.len(),
{
    let ghost all = crate::model::paths_model(roots@);
    let mut i: usize = 0;
    while i < roots.len()
        invariant
            i <= roots@.len(),
            all == crate::model::paths_model(roots@),
            forall|k: int| 0 <= k < i ==> (#[trigger] all[k]).key() != cwd@.key(),
        decreases roots@.len() - i,
    {
        if roots[i].same(cwd) {
            proof {
                lemma_path_position(all, cwd@, i as int);
            }
            return i;
        }
        i = i + 1;
    }
    proof {
        lemma_path_position(all, cwd@, i as int);
    }
    i
}

/// Shift+F5: switches the active panel's root to the next ZFS dataset.
pub fn change_panel_root(app: &mut App)
    requires
        old(app)@.valid(),
    ensures
        final(app)@ == root_changed(old(app)@),
{
    if app.commander.roots.len() == 0 {
        app.say_str("No ZFS datasets to change the panel root");
        return;
    }
    let index: usize = app.commander.active;
    let at: usize = find_root(&app.commander.roots, &app.commander.panels[index].cwd);
    let next: usize = if at < app.commander.roots.len() && at + 1 < app.commander.roots.len() {
        at + 1
    } else {
        0
    };
    let target = app.commander.roots[next].copy();
    let mut status = "Panel ".to_string();
    push_usize(&mut status, index + 1);
    status.push_str(" → ");
    status.push_str(target.display_safely().as_str());
    navigate_panel(app, index, target);
    app.say(status);
}

/// The first panels but the active one sent to a directory.
pub open spec fn synced_upto(a: AppModel, cwd: PathView, count: int) -> AppModel
    decreases count,
{
    if count <= 0 {
        a
    } else {
        let before = synced_upto(a, cwd, count - 1);
        if count - 1 == a.commander.active {
            before
        } else {
            crate::navigate::navigated(
                before,
                count - 1,
                cwd,
                before.commander.panels[count - 1].cwd,
            )
        }
    }
}

/// The active panel's directory in all panels.
pub open spec fn synced(a: AppModel) -> AppModel {
    let cwd = a.commander.active_panel().cwd;
    synced_upto(a, cwd, a.commander.panels.len() as int).say(
        "Panels synchronized: "@ + cwd.shown_safely(),
    )
}

/// Shift+F1: opens the active panel's directory in all the other panels.
pub fn sync_panels(app: &mut App)
    requires
        old(app)@.valid(),
    ensures
        final(app)@ == synced(old(app)@),
{
    let ghost a = app@;
    let active: usize = app.commander.active;
    let cwd = app.commander.panels[active].cwd.copy();
    let count: usize = app.commander.panels.len();
    let mut index: usize = 0;
    while index < count
        invariant
            index <= count,
            count == a.commander.panels.len(),
            active == a.commander.active,
            app@ == synced_upto(a, cwd@, index as int),
            app@.commander.panels.len() == count,
        decreases count - index,
    {
        if index != active {
            navigate_panel(app, index, cwd.copy());
        }
        index = index + 1;
    }
    let mut status = "Panels synchronized: ".to_string();
    status.push_str(cwd.display_safely().as_str());
    app.say(status);
}

proof fn lemma_synced_upto(a: AppModel, cwd: PathView, count: int)
    requires
        0 <= count <= a.commander.panels.len(),
    ensures
        synced_upto(a, cwd, count).commander.panels.len() == a.commander.panels.len(),
        forall|i: int|
            0 <= i < count && i != a.commander.active ==> (#[trigger] synced_upto(
                a,
                cwd,
                count,
            ).commander.panels[i]).cwd == cwd,
        forall|i: int|
            0 <= i < a.commander.panels.len() && (i >= count || i == a.commander.active)
                ==> #[trigger] synced_upto(a, cwd, count).commander.panels[i]
                == a.commander.panels[i],
    decreases count,
{
    if count > 0 {
        lemma_synced_upto(a, cwd, count - 1);
    }
}

/// After synchronizing every panel shows the active panel's directory, and the active one was
/// not touched.
pub proof fn law_synchronized_panels_agree(a: AppModel)
    requires
        a.valid(),
    ensures
        forall|i: int|
            0 <= i < a.commander.panels.len() ==> (#[trigger] synced(a).commander.panels[i]).cwd
                == a.commander.active_panel().cwd,
        synced(a).commander.panels[a.commander.active as int] == a.commander.active_panel(),
{
    lemma_synced_upto(a, a.commander.active_panel().cwd, a.commander.panels.len() as int);
}

} // verus!
