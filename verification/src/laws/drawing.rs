//! What the screens say: each line, list and question of the state that it is drawn from.

use vstd::prelude::*;

use crate::app::{AppModel, CommanderModel, EffectModel};
use crate::canvas::RowModel;
use crate::entries::EntryKind;
use crate::model::{FileModel, GroupSummary, PlanSummary, ResumeInfo, ScanStatus};
use crate::panel::SceneModel;
use crate::panels::PanelModel;
use crate::path::PathView;
use crate::progress::{ApplyPhase, RevalidationMode, ScanPhase, WalkStage};
use crate::setup::{Capabilities, Root};
use crate::shell::ConfirmAction;
use crate::state::{BoardModel, CompareMode};

verus! {

// ---------------------------------------------------------------------------------------------
// The commander's screen.
// ---------------------------------------------------------------------------------------------
/// A panel is drawn from its own state: the standing of its own directory, what it follows itself,
/// and as focused exactly where it is the active one.
pub proof fn law_a_panel_is_drawn_from_its_own_state(
    c: CommanderModel,
    p: PanelModel,
    index: int,
    cross: Seq<crate::panel::MatchKeyModel>,
)
    requires
        0 <= index <= usize::MAX,
    ensures
        ({
            let scene = crate::commander_screen::panel_scene(c, p, index, cross, None);
            let known = c.dedup.by_cwd.dom().contains(p.cwd.key());
            &&& scene.focused <==> c.active == index
            &&& scene.index == index
            &&& !known ==> scene.dedup is None && scene.dedup_error is None
            &&& known ==> (c.dedup.by_cwd[p.cwd.key()] matches Ok(dir) ==> scene.dedup == Some(dir)
                && scene.dedup_error is None)
            &&& known ==> (c.dedup.by_cwd[p.cwd.key()] matches Err(why) ==> scene.dedup is None
                && scene.dedup_error == Some(why@))
            &&& index < c.watch_cache.len() ==> scene.source == Some(c.watch_cache[index])
            &&& index >= c.watch_cache.len() ==> scene.source is None
            &&& scene.scan_id == c.dedup_scan_id && scene.dir_sizes == c.dir_size_cache
            &&& scene.cross == cross
        }),
{
}

/// Side by side, a panel is compared with the one on its right, and the last with the first; with
/// the comparison off it is compared with none.
pub proof fn law_a_panel_is_compared_with_the_next(c: CommanderModel, index: int)
    requires
        c.valid(),
        0 <= index < c.panels.len(),
    ensures
        c.compare_mode == CompareMode::Off ==> crate::commander_screen::peer_of(c, index) is None,
        c.compare_mode == CompareMode::SideBySide ==> ({
            let next = c.panels[(index + 1) % (c.panels.len() as int)];
            crate::commander_screen::peer_of(c, index) == Some(
                crate::compare::peer_files(next.entries, crate::compare::panel_dedup(c, next)),
            )
        }),
{
    let n = c.panels.len() as int;
    if index + 1 < n {
        assert((index + 1) % n == index + 1) by (nonlinear_arith)
            requires
                0 <= index + 1 < n,
        ;
    } else {
        assert((index + 1) % n == 0) by (nonlinear_arith)
            requires
                index + 1 == n,
                n > 0,
        ;
    }
}

/// The status line asks where to move while a move is being prepared, and how many panels there are
/// to choose from; otherwise it shows what was said last, as it was said.
pub proof fn law_the_status_line_says_what_was_said(c: CommanderModel)
    ensures
        ({
            let shown = crate::commander_screen::status_words(c, c.panels.len());
            &&& c.triage matches Some(pending) ==> shown == " Move "@
                + crate::commander_screen::batch_words(pending.sources) + " → panel 1-"@
                + crate::text::decimal(c.panels.len()) + " · Esc — cancel "@
            &&& c.triage is None && c.second_layer ==> shown
                == " Layer 2: choose an F-key · Esc — cancel "@
            &&& c.triage is None && !c.second_layer && c.status.len() > 0 ==> shown == " "@
                + c.status + " "@
        }),
{
}

/// A batch of one is named, a larger one counted.
pub proof fn law_a_batch_is_named_or_counted(sources: Seq<PathView>)
    ensures
        sources.len() != 1 ==> crate::commander_screen::batch_words(sources)
            == crate::text::decimal(sources.len()) + " files"@,
        sources.len() == 1 ==> (sources[0].file_name() matches Some(name)
            ==> crate::commander_screen::batch_words(sources) == "«"@ + crate::text::escaped(
            crate::text::lossy_text(name),
        ) + "»"@),
{
}

/// The header names the scan in use, and that it is loading while it is; without one it says so of
/// the active panel's directory.
pub proof fn law_the_header_names_the_scan(c: CommanderModel, when: Seq<char>)
    requires
        c.valid(),
    ensures
        ({
            let words = crate::commander_screen::scan_words(c, when);
            let cwd = c.panels[c.active as int].cwd;
            &&& c.dedup_scan_id is None ==> words == "no scan for "@ + cwd.shown_safely()
                + " · F12 — select"@
            &&& c.dedup_scan_id matches Some(id) ==> words == "scan #"@
                + crate::text::signed_decimal(id as int) + " · "@ + when + (
            if c.dedup.pending.dom().contains(cwd.key()) {
                " (loading…)"@
            } else {
                Seq::<char>::empty()
            })
        }),
{
    let words = crate::commander_screen::scan_words(c, when);
    if c.dedup_scan_id is Some && !c.dedup.pending.dom().contains(
        c.panels[c.active as int].cwd.key(),
    ) {
        assert(words + Seq::<char>::empty() =~= words);
    }
}

/// The rows of a window are those of the entries that it shows, in order, each under its own date.
pub proof fn law_a_window_shows_its_rows(
    p: PanelModel,
    scene: SceneModel,
    from: int,
    to: int,
    width: u16,
    dates: Seq<Seq<char>>,
    i: int,
)
    requires
        0 <= from <= to <= p.entries.len(),
        0 <= i < to - from,
    ensures
        crate::panel::panel_rows(p, scene, from, to, width, dates).len() == to - from,
        crate::panel::panel_rows(p, scene, from, to, width, dates)[i] == crate::panel::panel_row(
            p.entries[from + i],
            p.marks,
            scene,
            width,
            dates[i],
        ),
{
}

/// F3 tells the name and the path of the entry under the cursor, and of a file its size and date;
/// a file is asked about further, a directory shown at once.
pub proof fn law_f3_tells_of_the_entry_under_the_cursor(
    a: AppModel,
    at: int,
    date: Seq<char>,
)
    requires
        a.valid(),
        0 <= at < a.commander.panels[a.commander.active as int].entries.len() <= usize::MAX,
        a.commander.panels[a.commander.active as int].list.selected == Some(at as usize),
    ensures
        ({
            let e = a.commander.panels[a.commander.active as int].entries[at];
            let b = crate::scans::info_shown(a, date);
            let lines = crate::scans::property_lines(e, date);
            &&& lines[0] == "Name:     "@ + crate::text::escaped(e.name)
            &&& lines[1] == "Path:     "@ + e.path.shown_safely()
            &&& e.kind == EntryKind::File ==> lines[2] == "Size:     "@ + crate::units::size_text(
                e.size as nat,
            )
            &&& e.kind == EntryKind::File && e.mtime > 0 ==> lines.len() == 4 && lines[3]
                == "Modified: "@ + date
            &&& e.kind != EntryKind::File ==> lines.len() == 2
            &&& e.kind == EntryKind::File ==> b.outbox == a.outbox.push(
                EffectModel::FileInfo { path: e.path, lines },
            )
            &&& e.kind != EntryKind::File ==> b.outbox == a.outbox && b.commander.info_lines
                == lines && b.commander.overlay is FileInfo
        }),
{
}

// ---------------------------------------------------------------------------------------------
// The Board.
// ---------------------------------------------------------------------------------------------
/// A slot is drawn under its name, and as focused exactly where it has the focus.
pub proof fn law_a_slot_is_drawn_under_its_name(c: CommanderModel, board: BoardModel, focus: int)
    requires
        0 <= focus <= 4,
    ensures
        ({
            let scene = crate::board_screen::slot_scene(c, board, focus);
            &&& scene.focused <==> board.focus == focus
            &&& focus == 0 ==> scene.label == Some("SOURCE"@)
            &&& focus == 1 ==> scene.label == Some("1"@)
            &&& focus == 2 ==> scene.label == Some("2"@)
            &&& focus == 3 ==> scene.label == Some("3"@)
            &&& focus == 4 ==> scene.label == Some("4"@)
        }),
{
}

/// The Board tells how many moves are under way.
pub proof fn law_the_board_tells_what_is_under_way(c: CommanderModel)
    ensures
        c.move_pending == 0 && c.status.len() > 0 ==> crate::board_screen::board_status(c) == " "@
            + c.status,
        c.move_pending > 0 && c.status.len() > 0 ==> crate::board_screen::board_status(c) == " "@
            + c.status + "  [background moves: "@ + crate::text::decimal(c.move_pending as nat)
            + "]"@,
{
}

// ---------------------------------------------------------------------------------------------
// Lists with separators, and wrapped lines.
// ---------------------------------------------------------------------------------------------
/// Every entry of a list is drawn, in order, where a click on it is looked for.
pub proof fn law_separators_take_no_entry_away(
    items: Seq<RowModel>,
    start: int,
    total: int,
    width: int,
    i: int,
)
    requires
        0 <= start,
        start + items.len() <= total,
        0 <= i < items.len(),
    ensures
        ({
            let rows = crate::browser::with_separators(items, start, total, width);
            let row = crate::browser::visual_row_of(start, start + i);
            0 <= row < rows.len() && rows[row] == items[i]
        }),
{
    lemma_drawn(items, start, total, width);
}

proof fn lemma_drawn(items: Seq<RowModel>, start: int, total: int, width: int)
    requires
        0 <= start,
        start + items.len() <= total,
    ensures
        ({
            let rows = crate::browser::with_separators(items, start, total, width);
            &&& start + items.len() < total ==> rows.len() == crate::browser::visual_row_of(
                start,
                start + items.len(),
            )
            &&& rows.len() >= items.len()
            &&& forall|i: int|
                0 <= i < items.len() ==> 0 <= crate::browser::visual_row_of(start, start + i)
                    < rows.len() && rows[crate::browser::visual_row_of(start, start + i)]
                    == #[trigger] items[i]
        }),
    decreases items.len(),
{
    let rows = crate::browser::with_separators(items, start, total, width);
    if items.len() > 0 {
        let inner = items.drop_last();
        lemma_drawn(inner, start, total, width);
        let before = crate::browser::with_separators(inner, start, total, width);
        assert forall|i: int| 0 <= i < items.len() implies 0
            <= crate::browser::visual_row_of(start, start + i) < rows.len()
            && rows[crate::browser::visual_row_of(start, start + i)] == #[trigger] items[i] by {
            if i < inner.len() {
                assert(inner[i] == items[i]);
            } else {
                assert(crate::browser::visual_row_of(start, start + i) == before.len());
            }
        }
    }
}

/// Lines put together again, with a space between each two.
pub open spec fn rejoined(lines: Seq<Seq<char>>) -> Seq<char>
    decreases lines.len(),
{
    if lines.len() == 0 {
        Seq::empty()
    } else if lines.len() == 1 {
        lines[0]
    } else {
        rejoined(lines.drop_last()) + seq![' '] + lines.last()
    }
}

proof fn lemma_words_rejoined(text: Seq<char>)
    ensures
        crate::browser::words(text).len() > 0,
        rejoined(crate::browser::words(text)) == text,
    decreases text.len(),
{
    let ws = crate::browser::words(text);
    if text.len() == 0 {
        assert(ws[0] =~= text);
    } else {
        let inner = text.drop_last();
        lemma_words_rejoined(inner);
        let before = crate::browser::words(inner);
        if text.last() == ' ' {
            assert(ws.drop_last() =~= before);
            assert(ws.last() =~= Seq::<char>::empty());
            assert(rejoined(ws) =~= inner + seq![' '] + Seq::<char>::empty());
            assert(inner + seq![' '] + Seq::<char>::empty() =~= text);
        } else {
            assert(ws.drop_last() =~= before.drop_last());
            assert(ws.last() =~= before.last().push(text.last()));
            if before.len() == 1 {
                assert(ws.len() == 1);
                assert(before[0] =~= inner);
                assert(ws[0] =~= text);
            } else {
                let head = rejoined(before.drop_last()) + seq![' '];
                assert(rejoined(before) == head + before.last());
                assert(rejoined(ws) == head + ws.last());
                assert(head + ws.last() =~= (head + before.last()).push(text.last()));
                assert(inner.push(text.last()) =~= text);
            }
        }
    }
}

proof fn lemma_wrapped_rejoined(ws: Seq<Seq<char>>, columns: int)
    requires
        ws.len() > 0,
    ensures
        crate::browser::wrapped(ws, columns).len() > 0,
        rejoined(crate::browser::wrapped(ws, columns)) == rejoined(ws),
    decreases ws.len(),
{
    let lines = crate::browser::wrapped(ws, columns);
    let inner = ws.drop_last();
    let word = ws.last();
    if inner.len() == 0 {
        assert(crate::browser::wrapped(inner, columns) =~= Seq::empty());
        assert(lines =~= seq![word]);
        assert(ws =~= seq![word]);
    } else {
        lemma_wrapped_rejoined(inner, columns);
        let before = crate::browser::wrapped(inner, columns);
        assert(rejoined(ws) == rejoined(inner) + seq![' '] + word);
        if before.last().len() + 1 + word.len() <= columns {
            let longer = before.last() + seq![' '] + word;
            assert(lines =~= before.drop_last().push(longer));
            assert(lines.drop_last() =~= before.drop_last());
            if before.len() == 1 {
                assert(rejoined(lines) =~= rejoined(ws));
            } else {
                let head = rejoined(before.drop_last()) + seq![' '];
                assert(rejoined(before) == head + before.last());
                assert(rejoined(lines) == head + longer);
                assert(head + longer =~= (head + before.last()) + seq![' '] + word);
            }
        } else {
            assert(lines =~= before.push(word));
            assert(lines.drop_last() =~= before);
        }
    }
}

/// Wrapping takes nothing away: the lines, put together again, are the text.
pub proof fn law_wrapping_takes_nothing_away(text: Seq<char>, columns: int)
    ensures
        rejoined(crate::browser::wrapped_text(text, columns)) == text,
{
    lemma_words_rejoined(text);
    if columns == 0 {
        assert(crate::browser::wrapped_text(text, columns)[0] == text);
    } else {
        lemma_wrapped_rejoined(crate::browser::words(text), columns);
    }
}

/// A group's row tells its rank, how many files it has, and how large they are.
pub proof fn law_a_group_row_tells_its_counts(group: GroupSummary)
    ensures
        crate::browser::group_counters(group) == "#"@ + crate::text::padded_right(
            crate::text::signed_decimal(group.rank as int),
            4,
        ) + " "@ + crate::text::decimal(group.file_count as nat) + " files · "@
            + crate::units::objects_words(group.object_count as nat, group.reclaim) + " · "@
            + crate::units::size_text(group.size_bytes as nat),
{
}

/// A file is drawn as already linked exactly where it is another name of the kept file's content.
pub proof fn law_a_linked_file_shares_the_keepers_content(
    files: Seq<FileModel>,
    file: FileModel,
    at: int,
)
    requires
        0 <= at < files.len(),
        files[at].is_keeper,
        forall|i: int| 0 <= i < at ==> !(#[trigger] files[i]).is_keeper,
    ensures
        crate::browser::already_linked(file, files) <==> !file.is_keeper && file.same_physical(
            files[at],
        ),
{
    crate::laws::showing::law_the_keeper_is_the_first_marked(files, at);
}

/// The star is on the keeper's row and on no other.
pub proof fn law_the_star_is_on_the_keeper(paths: Seq<PathView>, keeper: int, i: int)
    requires
        0 <= i < paths.len(),
    ensures
        ({
            let row = crate::browser::dir_rows(paths, keeper, true)[i];
            &&& i == keeper ==> row.lines[0].spans[0].text == "★ "@
            &&& i != keeper ==> row.lines[0].spans[0].text == "  "@
            &&& row.lines[0].spans[1].text == paths[i].shown_safely()
        }),
{
}

// ---------------------------------------------------------------------------------------------
// The other screens.
// ---------------------------------------------------------------------------------------------
/// What is asked before a session is thrown away says whether it can be had back.
pub proof fn law_the_question_says_what_is_lost(id: i64)
    ensures
        crate::shell::question_title(ConfirmAction::TrashScan(id)) == " Move to trash? "@,
        crate::shell::question_words(ConfirmAction::TrashScan(id))
            == "  The session will be moved to the trash — it can be restored (t)."@,
        crate::shell::question_title(ConfirmAction::PurgeScan(id)) == " Purge from trash? "@,
        crate::shell::question_words(ConfirmAction::PurgeScan(id))
            == "  The session will be deleted PERMANENTLY — this is irreversible."@,
{
}

/// A session's status is named as what it is; a hashing one with its share, rounded down.
pub proof fn law_a_session_is_named_by_its_status(s: ResumeInfo)
    ensures
        s.status == ScanStatus::Walking ==> crate::sessions::status_shown(s) == "walking"@,
        s.status == ScanStatus::Complete ==> crate::sessions::status_shown(s) == "ready"@,
        s.status == ScanStatus::CompleteWithWarnings ==> crate::sessions::status_shown(s)
            == "ready ⚠"@,
        s.status == ScanStatus::Aborted ==> crate::sessions::status_shown(s) == "aborted"@,
        s.status == ScanStatus::Hashing && s.cand_bytes_total == 0 ==> crate::sessions::status_shown(
            s,
        ) == "hashing"@,
        s.status == ScanStatus::Hashing && s.cand_bytes_total > 0 && s.cand_bytes_hashed * 100
            <= u64::MAX ==> crate::sessions::status_shown(s) == "hashing "@ + crate::text::decimal(
            ((s.cand_bytes_hashed * 100) / (s.cand_bytes_total as int)) as nat,
        ) + "%"@,
{
}

/// Each phase is named as what is being done.
pub proof fn law_a_phase_is_named_as_what_is_done(mode: RevalidationMode, phase: ApplyPhase)
    ensures
        crate::progress::phase_words(Some(ScanPhase::Walking(WalkStage::Scanning)))
            == "Phase 1/3 · walking files"@,
        crate::progress::phase_words(Some(ScanPhase::Walking(WalkStage::Persisting)))
            == "Phase 1/3 · writing manifest"@,
        crate::progress::phase_words(Some(ScanPhase::Hashing)) == "Phase 2/3: hashing content"@,
        crate::progress::phase_words(Some(ScanPhase::Grouping)) == "Phase 3/3: grouping"@,
        mode == RevalidationMode::Strict ==> crate::progress::mode_words(mode) == "strict"@,
        mode == RevalidationMode::Hybrid ==> crate::progress::mode_words(mode) == "hybrid"@,
        mode == RevalidationMode::Fast ==> crate::progress::mode_words(mode) == "fast"@,
        phase == ApplyPhase::Snapshots ==> crate::progress::apply_words(phase)
            == "Creating safety ZFS snapshots…"@,
        phase == ApplyPhase::Applying ==> crate::progress::apply_words(phase)
            == "Verifying content and moving/linking…"@,
{
}

/// The bar goes by bytes where they are known, by files otherwise, and stands still without either.
pub proof fn law_the_bar_goes_by_bytes(done: u64, total: u64, items: u64, all: u64)
    ensures
        total > 0 ==> crate::progress::measured(done, total, items, all) == (done, total),
        total == 0 && all > 0 ==> crate::progress::measured(done, total, items, all) == (items, all),
        total == 0 && all == 0 ==> crate::progress::measured(done, total, items, all) == (0u64, 0u64),
{
}

/// A root is checked exactly where it is selected, and shown with its own path.
pub proof fn law_a_root_is_checked_where_it_is_selected(root: Root)
    ensures
        root.is_dataset ==> crate::setup::root_words(root) == (if root.selected {
            "[x]"@
        } else {
            "[ ]"@
        }) + "  "@ + root.label@ + "   →  "@ + root.path@.shown_safely(),
        !root.is_dataset ==> crate::setup::root_words(root) == (if root.selected {
            "[x]"@
        } else {
            "[ ]"@
        }) + "  [folder]  "@ + root.path@.shown_safely(),
{
}

/// Reflinks are offered as available exactly where they are safe.
pub proof fn law_reflinks_are_available_where_safe(caps: Capabilities)
    ensures
        ({
            let head = " ZFS: "@ + (match caps.zfs_version {
                Some(version) => version@,
                None => "not detected"@,
            }) + " · block cloning: supported="@ + (if caps.block_cloning_supported {
                "yes"@
            } else {
                "no"@
            }) + " enabled="@ + (if caps.block_cloning_enabled {
                "yes"@
            } else {
                "no"@
            }) + " · reflink: "@;
            &&& caps.reflink_safe ==> crate::setup::pool_words(caps) == head + "available"@ + " "@
            &&& !caps.reflink_safe ==> crate::setup::pool_words(caps) == head + "unavailable"@ + " "@
        }),
{
}

/// Under a plan stand its own figures, and the first warning where there are any.
pub proof fn law_a_plan_is_told_by_its_figures(s: PlanSummary, status: Seq<char>)
    ensures
        crate::review::counts_words(Some(s)) == " Operations: "@ + crate::text::decimal(
            s.actions as nat,
        ) + " · allocations: "@ + crate::text::decimal(s.covered_objects as nat) + " "@,
        crate::review::claim_words(Some(s)) == " "@ + crate::units::reclaim_words(s.estimate) + " "@,
        s.warnings@.len() == 0 ==> crate::review::remark_words(Some(s), status) == " "@ + status
            + " "@,
        s.warnings@.len() == 1 ==> crate::review::remark_words(Some(s), status) == " "@
            + s.warnings@[0].reason@ + " "@,
        crate::review::question(s) == "Execute "@ + crate::text::decimal(s.actions as nat)
            + " action(s) over "@ + crate::text::decimal(s.covered_objects as nat)
            + " allocation(s)?"@,
{
}

} // verus!
