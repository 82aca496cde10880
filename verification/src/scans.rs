//! Scans as the commander starts, picks and shows them.

use vstd::prelude::*;

use crate::app::{App, AppModel, CommanderModel, DedupModel, Effect, EffectModel};
use crate::dedup::DedupCache;
use crate::entries::{EntryKind, EntryModel};
use crate::panel::date_of;
use crate::path::{FilePath, PathView};
use crate::state::{LoadTarget, Overlay};
use crate::text::{push_i64, terminal};
use crate::units::human_bytes;

verus! {

/// A scan of the active panel's directory asked for.
pub open spec fn scan_started(a: AppModel) -> AppModel {
    let cwd = a.commander.active_panel().cwd;
    a.say("Scanning: "@ + cwd.shown_safely()).send(EffectModel::Scan(seq![cwd]))
}

/// Starts a scan of the active panel's directory.
pub fn scan_active_panel(app: &mut App)
    requires
        old(app)@.valid(),
    ensures
        final(app)@ == scan_started(old(app)@),
{
    let cwd = app.commander.active_panel().cwd.copy();
    let mut status = "Scanning: ".to_string();
    status.push_str(cwd.display_safely().as_str());
    app.say(status);
    let mut roots: Vec<FilePath> = Vec::new();
    let ghost view = cwd@;
    roots.push(cwd);
    assert(crate::model::paths_model(roots@) =~= seq![view]);
    app.send(Effect::Scan(roots));
}

/// The commander without a scan: nothing of the old one is left.
pub open spec fn scan_dropped(c: CommanderModel) -> CommanderModel {
    CommanderModel {
        dedup: DedupModel { by_cwd: Map::empty(), pending: Map::empty() },
        dedup_scan_id: None,
        group_summaries: Seq::empty(),
        group_ids: Seq::empty(),
        candidates: None,
        scan_created_at: None,
        dir_group_summaries: Seq::empty(),
        dir_groups_error: None,
        groups_loaded_for: None,
        watch_cache: Seq::empty(),
        watch_dir_cache: Seq::empty(),
        ..c
    }
}

/// The scan that covers a directory taken into use, or the one in use dropped where none does.
pub open spec fn switched(a: AppModel, cwd: PathView, target: Option<i64>) -> AppModel {
    if target == a.commander.dedup_scan_id {
        a
    } else {
        match target {
            Some(id) => a.say(
                "Scan #"@ + crate::text::signed_decimal(id as int) + " activated"@,
            ).send(EffectModel::LoadDedup(id)),
            None => AppModel {
                commander: scan_dropped(
                    a.commander.say("No scan for "@ + cwd.shown_safely() + " · F12 — select"@),
                ),
                ..a
            },
        }
    }
}

/// Forgets the scan and everything known of it.
pub fn drop_scan(app: &mut App)
    ensures
        final(app)@ == (AppModel { commander: scan_dropped(old(app)@.commander), ..old(app)@ }),
{
    app.commander.dedup = DedupCache::default();
    app.commander.dedup_scan_id = None;
    app.commander.group_summaries = Vec::new();
    app.commander.group_ids = Vec::new();
    app.commander.candidates = None;
    app.commander.scan_created_at = None;
    app.commander.dir_group_summaries = Vec::new();
    app.commander.dir_groups_error = None;
    app.commander.groups_loaded_for = None;
    app.commander.watch_cache = Vec::new();
    app.commander.watch_dir_cache = Vec::new();
    proof {
        let want = scan_dropped(old(app)@.commander);
        assert(app@.commander.group_summaries =~= want.group_summaries);
        assert(app@.commander.group_ids =~= want.group_ids);
        assert(app@.commander.dir_group_summaries =~= want.dir_group_summaries);
        assert(app@.commander.watch_cache =~= want.watch_cache);
        assert(app@.commander.watch_dir_cache =~= want.watch_dir_cache);
    }
}

/// Applies the auto-switch result. The scan in use is left alone where it is the one; another is
/// loaded whole; none — the overlay is dropped, without falling back to a scan of some other part
/// of the tree.
pub fn apply_auto_switch(app: &mut App, cwd: &FilePath, target: Option<i64>)
    ensures
        final(app)@ == switched(old(app)@, cwd@, target),
{
    match (target, app.commander.dedup_scan_id) {
        (None, None) => {
            return;
        },
        (Some(a), Some(b)) => {
            if a == b {
                return;
            }
        },
        _ => {},
    }
    match target {
        Some(id) => {
            let mut status = "Scan #".to_string();
            push_i64(&mut status, id);
            status.push_str(" activated");
            app.say(status);
            app.send(Effect::LoadDedup(id));
        },
        None => {
            let mut status = "No scan for ".to_string();
            status.push_str(cwd.display_safely().as_str());
            status.push_str(" · F12 — select");
            app.say(status);
            drop_scan(app);
        },
    }
}

/// The scan for the active panel's directory: the one known to cover it, or the question which
/// one does, asked once.
pub open spec fn auto_switched(a: AppModel) -> AppModel {
    let c = a.commander;
    let cwd = c.active_panel().cwd;
    if c.scan_coverage_cache.dom().contains(cwd.key()) {
        switched(a, cwd, c.scan_coverage_cache[cwd.key()])
    } else if c.coverage_asked.dom().contains(cwd.key()) {
        a
    } else {
        AppModel {
            commander: CommanderModel { coverage_asked: c.coverage_asked.insert(cwd.key(), ()), ..c },
            ..a
        }.send(EffectModel::CoveringScan(cwd))
    }
}

/// Picks the scan that covers the active panel's directory; one that is not known yet is asked
/// for once, and until the answer comes nothing is decided.
pub fn maybe_auto_switch_scan(app: &mut App)
    requires
        old(app)@.valid(),
    ensures
        final(app)@ == auto_switched(old(app)@),
{
    let cwd = app.commander.active_panel().cwd.copy();
    let known: Option<Option<i64>> = match app.commander.scan_coverage_cache.get(&cwd) {
        Some(cached) => Some(*cached),
        None => None,
    };
    match known {
        Some(cached) => apply_auto_switch(app, &cwd, cached),
        None => {
            if !app.commander.coverage_asked.contains(&cwd) {
                app.commander.coverage_asked.insert(cwd.copy(), ());
                app.send(Effect::CoveringScan(cwd));
            }
        },
    }
}

/// A directory that is not decided yet is asked for once, however many frames go by.
pub proof fn law_coverage_is_asked_once(a: AppModel)
    requires
        !a.commander.scan_coverage_cache.dom().contains(a.commander.active_panel().cwd.key()),
    ensures
        auto_switched(auto_switched(a)) == auto_switched(a),
        a.commander.coverage_asked.dom().contains(a.commander.active_panel().cwd.key())
            ==> auto_switched(a) == a,
{
}

/// The covering scan of a directory known: remembered, and what the active panel asks for done.
pub open spec fn coverage_known(a: AppModel, cwd: PathView, scan: Option<i64>) -> AppModel {
    let c = a.commander;
    auto_switched(
        AppModel {
            commander: CommanderModel {
                scan_coverage_cache: c.scan_coverage_cache.insert(cwd.key(), scan),
                coverage_asked: c.coverage_asked.remove(cwd.key()),
                ..c
            },
            ..a
        },
    )
}

/// Takes the answer which scan covers a directory, if any does.
pub fn coverage_answered(app: &mut App, cwd: &FilePath, scan: Option<i64>)
    requires
        old(app)@.valid(),
    ensures
        final(app)@ == coverage_known(old(app)@, cwd@, scan),
{
    app.commander.scan_coverage_cache.insert(cwd.copy(), scan);
    app.commander.coverage_asked.remove(cwd);
    maybe_auto_switch_scan(app);
}

/// The overlay asked for anew: what was known of coverage, and what was asked, is forgotten first.
pub open spec fn dedup_reloaded(a: AppModel) -> AppModel {
    auto_switched(
        AppModel {
            commander: CommanderModel {
                scan_coverage_cache: Map::empty(),
                coverage_asked: Map::empty(),
                ..a.commander
            },
            ..a
        },
    ).say("Refreshing the dedup overlay…"@)
}

/// Rebuilds the dedup overlay.
pub fn reload_dedup(app: &mut App)
    requires
        old(app)@.valid(),
    ensures
        final(app)@ == dedup_reloaded(old(app)@),
{
    app.commander.scan_coverage_cache.clear();
    app.commander.coverage_asked.clear();
    maybe_auto_switch_scan(app);
    app.say_str("Refreshing the dedup overlay…");
}

/// The hash of the file under the cursor asked for.
pub open spec fn hash_requested(a: AppModel) -> AppModel {
    match a.commander.active_panel().selected() {
        Some(entry) => if entry.kind == EntryKind::File {
            a.say("Hashing: "@ + entry.path.shown_safely()).send(EffectModel::Hash(entry.path))
        } else {
            a.say("Only a file can be hashed"@)
        },
        None => a.say("Only a file can be hashed"@),
    }
}

/// F4: computes the hash of the file under the cursor in the background.
pub fn hash_cursor(app: &mut App)
    requires
        old(app)@.valid(),
    ensures
        final(app)@ == hash_requested(old(app)@),
{
    let path = match app.commander.active_panel().selected() {
        Some(entry) => match entry.kind {
            EntryKind::File => Some(entry.path.copy()),
            _ => None,
        },
        None => None,
    };
    match path {
        Some(path) => {
            let mut status = "Hashing: ".to_string();
            status.push_str(path.display_safely().as_str());
            app.say(status);
            app.send(Effect::Hash(path));
        },
        None => app.say_str("Only a file can be hashed"),
    }
}

/// The properties of an entry that need no store: name, path and, for a file, size and date.
pub open spec fn property_lines(e: EntryModel, date: Seq<char>) -> Seq<Seq<char>> {
    let head = seq!["Name:     "@ + crate::text::escaped(e.name), "Path:     "@ + e.path.shown_safely()];
    if e.kind == EntryKind::File {
        let sized = head.push("Size:     "@ + crate::units::size_text(e.size as nat));
        if e.mtime > 0 {
            sized.push("Modified: "@ + date)
        } else {
            sized
        }
    } else {
        head
    }
}

/// The properties of the entry under the cursor: a file's are handed on to be completed, any
/// other entry's are shown at once.
pub open spec fn info_shown(a: AppModel, date: Seq<char>) -> AppModel {
    match a.commander.active_panel().selected() {
        Some(entry) => if entry.kind == EntryKind::File {
            a.send(
                EffectModel::FileInfo { path: entry.path, lines: property_lines(entry, date) },
            )
        } else {
            AppModel {
                commander: CommanderModel {
                    info_lines: property_lines(entry, date),
                    overlay: Overlay::FileInfo,
                    ..a.commander
                },
                ..a
            }
        },
        None => a,
    }
}

fn push_property(lines: &mut Vec<String>, label: &str, value: &str)
    ensures
        crate::browser::strings_model(final(lines)@) == crate::browser::strings_model(
            old(lines)@,
        ).push(label@ + value@),
{
    let mut text = label.to_string();
    text.push_str(value);
    lines.push(text);
    assert(crate::browser::strings_model(lines@) =~= crate::browser::strings_model(
        old(lines)@,
    ).push(label@ + value@));
}

/// F3: shows the details of the entry under the cursor; `date` is the entry's date.
pub fn show_file_info_dated(app: &mut App, date: &str)
    requires
        old(app)@.valid(),
    ensures
        final(app)@ == info_shown(old(app)@, date@),
{
    let (lines, path) = match app.commander.active_panel().selected() {
        Some(entry) => {
            let ghost e = entry@;
            let mut lines: Vec<String> = Vec::new();
            assert(crate::browser::strings_model(lines@) =~= Seq::empty());
            push_property(&mut lines, "Name:     ", terminal(entry.name.as_str()).as_str());
            push_property(&mut lines, "Path:     ", entry.path.display_safely().as_str());
            let mut path: Option<FilePath> = None;
            if matches!(entry.kind, EntryKind::File) {
                push_property(&mut lines, "Size:     ", human_bytes(entry.size).as_str());
                if entry.mtime > 0 {
                    push_property(&mut lines, "Modified: ", date);
                }
                path = Some(entry.path.copy());
            }
            assert(crate::browser::strings_model(lines@) =~= property_lines(e, date@));
            (lines, path)
        },
        None => {
            return;
        },
    };
    match path {
        Some(path) => app.send(Effect::FileInfo { path, lines }),
        None => {
            app.commander.info_lines = lines;
            app.commander.overlay = Overlay::FileInfo;
        },
    }
}

/// The date shown for the entry under the cursor: none where its moment is not after the start
/// of 1970.
pub open spec fn cursor_dated(a: AppModel, date: Seq<char>) -> bool {
    match a.commander.active_panel().selected() {
        Some(e) => if e.mtime > 0 {
            crate::panel::dated(e.mtime, date)
        } else {
            date.len() == 0
        },
        None => date.len() == 0,
    }
}

/// F3: shows the details of the entry under the cursor.
pub fn show_file_info(app: &mut App)
    requires
        old(app)@.valid(),
    ensures
        exists|date: Seq<char>|
            cursor_dated(old(app)@, date) && final(app)@ == #[trigger] info_shown(old(app)@, date),
{
    let mtime: i64 = match app.commander.active_panel().selected() {
        Some(entry) => entry.mtime,
        None => 0,
    };
    let date = if mtime > 0 {
        date_of(mtime)
    } else {
        String::new()
    };
    assert(cursor_dated(app@, date@));
    show_file_info_dated(app, date.as_str());
}

// ---------------------------------------------------------------------------------------------
// Dedup attributes of a panel.
// ---------------------------------------------------------------------------------------------
/// The paths of entries of one kind.
pub open spec fn paths_of_kind(entries: Seq<EntryModel>, kind: EntryKind) -> Seq<PathView>
    decreases entries.len(),
{
    if entries.len() == 0 {
        Seq::empty()
    } else {
        let before = paths_of_kind(entries.drop_last(), kind);
        if entries.last().kind == kind {
            before.push(entries.last().path)
        } else {
            before
        }
    }
}

/// A panel by its address, if there is one.
pub open spec fn panel_at(c: CommanderModel, target: LoadTarget) -> Option<crate::panels::PanelModel> {
    match target {
        LoadTarget::Commander(i) => if i < c.panels.len() {
            Some(c.panels[i as int])
        } else {
            None
        },
        _ => match c.board {
            Some(board) => crate::navigate::board_panel(board, target),
            None => None,
        },
    }
}

/// The question for the attributes of a panel's files and directories.
pub open spec fn panel_question(target: LoadTarget, p: crate::panels::PanelModel) -> EffectModel {
    EffectModel::PanelData {
        target,
        cwd: p.cwd,
        files: paths_of_kind(p.entries, EntryKind::File),
        dirs: paths_of_kind(p.entries, EntryKind::Dir),
    }
}

/// A panel's attributes asked for in one request, its directory marked as asked for.
pub open spec fn dedup_fetched(a: AppModel, target: LoadTarget) -> AppModel {
    if a.commander.dedup_scan_id is None {
        a
    } else {
        match panel_at(a.commander, target) {
            None => a,
            Some(p) => AppModel {
                commander: CommanderModel {
                    dedup: DedupModel {
                        pending: a.commander.dedup.pending.insert(p.cwd.key(), ()),
                        ..a.commander.dedup
                    },
                    ..a.commander
                },
                ..a
            }.send(panel_question(target, p)),
        }
    }
}

fn panel_request(panel: &crate::panels::Panel, target: LoadTarget) -> (r: (FilePath, Effect))
    ensures
        r.0@ == panel@.cwd,
        r.1@ == panel_question(target, panel@),
{
    let ghost all = panel@.entries;
    let mut files: Vec<FilePath> = Vec::new();
    let mut dirs: Vec<FilePath> = Vec::new();
    let mut i: usize = 0;
    assert(crate::model::paths_model(files@) =~= Seq::empty());
    assert(crate::model::paths_model(dirs@) =~= Seq::empty());
    while i < panel.entries.len()
        invariant
            i <= panel.entries@.len(),
            all == crate::entries::entries_model(panel.entries@),
            crate::model::paths_model(files@) == paths_of_kind(
                all.take(i as int),
                EntryKind::File,
            ),
            crate::model::paths_model(dirs@) == paths_of_kind(all.take(i as int), EntryKind::Dir),
        decreases panel.entries@.len() - i,
    {
        assert(all.take(i as int + 1).drop_last() =~= all.take(i as int));
        assert(all[i as int] == panel.entries@[i as int]@);
        match panel.entries[i].kind {
            EntryKind::File => crate::sizes::push_path(&mut files, panel.entries[i].path.copy()),
            EntryKind::Dir => crate::sizes::push_path(&mut dirs, panel.entries[i].path.copy()),
            EntryKind::Parent => {},
        }
        i = i + 1;
    }
    assert(all.take(all.len() as int) =~= all);
    (panel.cwd.copy(), Effect::PanelData { target, cwd: panel.cwd.copy(), files, dirs })
}

fn request_at(app: &App, target: LoadTarget) -> (r: Option<(FilePath, Effect)>)
    ensures
        r is Some <==> panel_at(app@.commander, target) is Some,
        r matches Some(request) ==> {
            let p = panel_at(app@.commander, target).unwrap();
            &&& request.0@ == p.cwd
            &&& request.1@ == panel_question(target, p)
        },
{
    match target {
        LoadTarget::Commander(i) => {
            if i < app.commander.panels.len() {
                Some(panel_request(&app.commander.panels[i], target))
            } else {
                None
            }
        },
        LoadTarget::BoardSource => match &app.commander.board {
            Some(board) => Some(panel_request(&board.source, target)),
            None => None,
        },
        LoadTarget::BoardReceiver(i) => match &app.commander.board {
            Some(board) => {
                if i < board.receivers.len() {
                    Some(panel_request(&board.receivers[i], target))
                } else {
                    None
                }
            },
            None => None,
        },
    }
}

/// Asks for panel `target`'s dedup attributes — the membership of every file, the sizes and the
/// signatures of every subdirectory — in one request. Without a scan does nothing.
pub fn fetch_panel_dedup(app: &mut App, target: LoadTarget)
    ensures
        final(app)@ == dedup_fetched(old(app)@, target),
{
    if app.commander.dedup_scan_id.is_none() {
        return;
    }
    match request_at(app, target) {
        Some((cwd, effect)) => {
            app.commander.dedup.mark_pending(cwd);
            app.send(effect);
        },
        None => {},
    }
}

} // verus!
