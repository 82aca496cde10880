//! Lists, keys, the menu and the words of the overlays.

use dedcom::browser::{
    claim_columns, group_rows, groups_that_fit, items_with_separators, name_palette, page_step,
    separator_text, separators_before_cursor, split_path, visual_to_real_index, wrap_words,
};
use dedcom::canvas::{Color, Line, Rect, Row};
use dedcom::entries::PanelView;
use dedcom::keys::{
    first_layer, first_layer_key, is_entries_row_command, is_second_click, second_layer,
    second_layer_dispatch, view_exposes_entries, KeyCode,
};
use dedcom::menu::{menu, MenuAction};
use dedcom::model::{
    ActionKind, DuplicateGroup, FileEntry, PlannedAction, ResumeInfo, ScanStatus,
};
use dedcom::navigate::rows_per_entry;
use dedcom::overlay::{progress_percent, resume_recommendation, summary_lines, SUMMARY_WIDTH};
use dedcom::panel::{duplicates_of_cursor_empty_message, group_files_empty_message};
use dedcom::path::FilePath;
use dedcom::reclaim::ReclaimEstimate;
use dedcom::scan_diff::{categories, category_changes, change_line, DiffReport, FileChange};
use dedcom::state::{ConfirmScroll, PlanDigest, WatchEmpty};
use dedcom::summary::{
    purge_commands, release_heading, zeros_by_reason, ActionOutcome, BatchResult,
    ObjectRealization, ZeroReason,
};
use dedcom::units::reclaim_cell;

fn path(text: &str) -> FilePath {
    FilePath::from_text(text)
}

// ------------------------------------------------------------------------------------------
// Group lists.
// ------------------------------------------------------------------------------------------
fn claim_states() -> [ReclaimEstimate; 3] {
    [
        ReclaimEstimate::exact(4096),
        ReclaimEstimate::upper_bound(4096),
        ReclaimEstimate::unknown(),
    ]
}

#[test]
fn the_entry_height_follows_the_width_alone() {
    assert_eq!(group_rows(52), 2, "the classic panel fits the claim on one line");
    assert_eq!(
        group_rows(40),
        3,
        "two panels of an 80-column commander need the claim wrapped"
    );
    assert_eq!(
        group_rows(36),
        group_rows(36),
        "the commander's narrowest panel is still deterministic"
    );
    for state in claim_states() {
        let claim = reclaim_cell(state);
        assert!(
            (wrap_words(&claim, claim_columns(40)).len() as u16) < group_rows(40),
            "every state must fit the lines the width reserves: {claim}"
        );
    }
}

#[test]
fn the_group_window_counts_groups_not_terminal_rows() {
    let wide = |height| Rect { x: 0, y: 0, width: 52, height };
    assert_eq!(groups_that_fit(wide(6)), 2, "6 rows: 2 borders, 2 groups");
    assert_eq!(groups_that_fit(wide(11)), 4);
    assert_eq!(
        groups_that_fit(wide(3)),
        1,
        "a window too short for a whole entry still shows the selected one"
    );
    assert_eq!(groups_that_fit(wide(0)), 1);
    assert_eq!(groups_that_fit(Rect { x: 0, y: 0, width: 40, height: 11 }), 3);
}

#[test]
fn wrapping_breaks_on_spaces_only() {
    assert_eq!(wrap_words("a bb ccc", 6), vec!["a bb", "ccc"]);
    assert_eq!(wrap_words("quarantine", 4), vec!["quarantine"]);
    assert_eq!(wrap_words("", 10), vec![""]);
    assert_eq!(wrap_words("x y", 0), vec!["x y"], "no width, no wrapping");
}

/// Only the group list is taller than a row, and as tall as it is drawn.
#[test]
fn other_panel_views_are_still_one_row_per_entry() {
    for view in [
        PanelView::Files,
        PanelView::DirsOnly,
        PanelView::GroupFiles,
        PanelView::DuplicatesOfCursor,
        PanelView::DirGroupList,
        PanelView::DirGroupFiles,
    ] {
        assert_eq!(rows_per_entry(view, 40), 1, "{view:?} must stay one row");
    }
    for width in [36, 40, 52, 96] {
        assert_eq!(rows_per_entry(PanelView::GroupList, width), group_rows(width));
    }
    assert_eq!(rows_per_entry(PanelView::GroupList, 52), 2);
    assert_eq!(rows_per_entry(PanelView::GroupList, 40), 3);
    assert_eq!(
        rows_per_entry(PanelView::GroupList, 96),
        2,
        "a panel wide enough for the widest claim spends one line on it"
    );
}

fn group_with_names(names: &[&str]) -> DuplicateGroup {
    DuplicateGroup {
        id: 0,
        size_bytes: 100,
        hash: "h".to_string(),
        files: names
            .iter()
            .enumerate()
            .map(|(n, name)| FileEntry {
                path: path(&format!("/dir{n}/{name}")),
                size: 100,
                device: 0,
                inode: n as u64,
                is_keeper: false,
                action: None,
            })
            .collect(),
    }
}

#[test]
fn name_palette_empty_when_all_names_equal() {
    let group = group_with_names(&["backup.tar", "backup.tar", "backup.tar"]);
    assert!(name_palette(&group).is_empty());
}

#[test]
fn name_palette_colors_by_first_appearance() {
    let group = group_with_names(&["a", "b", "a", "c"]);
    let palette = name_palette(&group);
    assert_eq!(palette.rows.len(), 3, "three distinct names");
    assert_eq!(palette.get(&"a".to_string()), Some(&Color::Yellow));
    assert_eq!(palette.get(&"b".to_string()), Some(&Color::Magenta));
    assert_eq!(palette.get(&"c".to_string()), Some(&Color::Cyan));
}

#[test]
fn separator_text_starts_with_number_then_dashes_to_width() {
    assert_eq!(separator_text(25, 20), "25 -----------------");
    assert_eq!(separator_text(100, 3), "100 ");
}

#[test]
fn separators_before_cursor_zero_in_first_block() {
    assert_eq!(separators_before_cursor(0, 0), 0);
    assert_eq!(separators_before_cursor(0, 24), 0);
}

#[test]
fn separators_before_cursor_counts_each_25_crossed() {
    assert_eq!(separators_before_cursor(0, 25), 1);
    assert_eq!(separators_before_cursor(0, 49), 1);
    assert_eq!(separators_before_cursor(0, 50), 2);
    assert_eq!(separators_before_cursor(10, 30), 1);
    assert_eq!(separators_before_cursor(26, 48), 0);
    assert_eq!(separators_before_cursor(26, 50), 1);
}

fn plain_rows(count: usize) -> Vec<Row> {
    (0..count).map(|_| Row::of(Line::fixed("x"))).collect()
}

#[test]
fn items_with_separators_inserts_after_each_25th_except_last() {
    let items = items_with_separators(0, 60, 50, plain_rows(60));
    assert_eq!(items.len(), 62);
}

#[test]
fn items_with_separators_skips_separator_when_25th_is_last() {
    let items = items_with_separators(0, 25, 50, plain_rows(25));
    assert_eq!(items.len(), 25);
}

#[test]
fn items_with_separators_in_offset_window_inserts_only_relevant() {
    let items = items_with_separators(20, 100, 50, plain_rows(20));
    assert_eq!(items.len(), 21);
}

#[test]
fn page_step_uses_visible_rows_minus_one() {
    assert_eq!(page_step(10, 1), 9);
    assert_eq!(page_step(10, -1), -9);
    assert_eq!(page_step(25, 2), 48);
}

#[test]
fn page_step_falls_back_to_20_when_zero_rows() {
    assert_eq!(page_step(0, 1), 19);
    assert_eq!(page_step(0, -1), -19);
}

#[test]
fn page_step_clamps_to_at_least_one_on_tiny_window() {
    assert_eq!(page_step(1, 1), 1);
    assert_eq!(page_step(2, 1), 1);
    assert_eq!(page_step(1, -1), -1);
}

#[test]
fn visual_to_real_index_simple_no_separators_in_window() {
    assert_eq!(visual_to_real_index(0, 0, 24), Some(0));
    assert_eq!(visual_to_real_index(0, 23, 24), Some(23));
    assert_eq!(visual_to_real_index(0, 24, 24), None);
}

#[test]
fn visual_to_real_index_skips_separator_after_25th() {
    assert_eq!(visual_to_real_index(0, 24, 100), Some(24));
    assert_eq!(visual_to_real_index(0, 25, 100), None);
    assert_eq!(visual_to_real_index(0, 26, 100), Some(25));
}

#[test]
fn visual_to_real_index_handles_offset_start() {
    assert_eq!(visual_to_real_index(20, 0, 100), Some(20));
    assert_eq!(visual_to_real_index(20, 4, 100), Some(24));
    assert_eq!(visual_to_real_index(20, 5, 100), None);
    assert_eq!(visual_to_real_index(20, 6, 100), Some(25));
}

#[test]
fn visual_to_real_index_no_separator_for_last_record() {
    assert_eq!(visual_to_real_index(0, 24, 25), Some(24));
    assert_eq!(visual_to_real_index(0, 25, 25), None);
}

#[test]
fn a_path_is_split_at_its_last_slash() {
    assert_eq!(split_path("/tank/a/b.bin"), ("/tank/a/".to_string(), "b.bin".to_string()));
    assert_eq!(split_path("b.bin"), (String::new(), "b.bin".to_string()));
}

// ------------------------------------------------------------------------------------------
// Watching panels.
// ------------------------------------------------------------------------------------------
#[test]
fn duplicates_of_cursor_no_source_says_what_is_missing() {
    let msg = duplicates_of_cursor_empty_message(WatchEmpty::NoSource, Some(6));
    assert!(msg.contains("files"));
    assert!(msg.contains("directories"));
    assert!(!msg.contains('#'));
}

#[test]
fn duplicates_of_cursor_not_in_scan_names_scan_id() {
    let msg = duplicates_of_cursor_empty_message(WatchEmpty::NotInScan, Some(6));
    assert!(msg.contains("out of scan"));
    assert!(msg.contains("#6"));
}

#[test]
fn duplicates_of_cursor_not_in_scan_without_id_omits_hash() {
    let msg = duplicates_of_cursor_empty_message(WatchEmpty::NotInScan, None);
    assert!(!msg.contains('#'));
    assert!(msg.contains("no scan data"));
}

#[test]
fn duplicates_of_cursor_no_duplicates_is_short_positive() {
    let msg = duplicates_of_cursor_empty_message(WatchEmpty::NoDuplicates, Some(6));
    assert!(msg.contains("no dupes"));
    assert!(!msg.contains("source"));
}

#[test]
fn group_files_no_source_points_to_group_list() {
    let msg = group_files_empty_message(WatchEmpty::NoSource);
    assert!(msg.contains("groups"));
    assert!(!msg.contains("file"));
}

#[test]
fn group_files_messages_cover_all_empty_variants() {
    for variant in [
        WatchEmpty::NoSource,
        WatchEmpty::NotInScan,
        WatchEmpty::NoDuplicates,
    ] {
        assert!(!group_files_empty_message(variant).is_empty());
        assert!(!duplicates_of_cursor_empty_message(variant, Some(1)).is_empty());
    }
}

// ------------------------------------------------------------------------------------------
// Keys and the menu.
// ------------------------------------------------------------------------------------------
#[test]
fn layers_have_twelve_entries() {
    assert_eq!(first_layer().len(), 12);
    assert_eq!(second_layer().len(), 12);
}

#[test]
fn second_layer_fkeys_are_1_to_12_in_order() {
    for (index, hint) in second_layer().iter().enumerate() {
        assert_eq!(
            hint.fkey as usize,
            index + 1,
            "second-layer F-numbers — in order"
        );
    }
}

#[test]
fn second_layer_short_and_long_assigned_together() {
    for hint in second_layer().iter() {
        assert_eq!(
            hint.short.is_empty(),
            hint.long.is_empty(),
            "F{}: short and long are assigned together",
            hint.fkey
        );
    }
}

#[test]
fn assigned_second_layer_matches_dispatch() {
    let assigned: Vec<u8> = second_layer()
        .iter()
        .filter(|hint| !hint.short.is_empty())
        .map(|hint| hint.fkey)
        .collect();
    assert_eq!(
        assigned,
        second_layer_dispatch().to_vec(),
        "the second layer and its dispatch diverged — update both"
    );
}

/// The chapter of the manual on the commander: the menu as it is drawn, and the entry that runs
/// the batch by its number.
const COMMANDER_CHAPTER: &str = "
┌─ Menu — F9 ───────────────────────────┐
│  1. Scan the active panel's directory   │
│  2. Configure and start a scan…         │
│  3. Sessions and scan results…          │
│  4. Execute marked actions (F11 or x)   │
│  5. Clear all marks of the active panel │
│  6. Reload scan data                    │
│  7. Change panel mode (v)               │
│  8. Synchronize panels (Shift+F1)       │
│  9. Compare panels (Shift+F2)           │
│ 10. Add a panel (Shift+F3)              │
│ 11. Remove a panel (Shift+F4)           │
│ 12. Change panel root (Shift+F5)        │
│ 13. Recompute directory size (Shift+F6) │
│ 14. Keyboard help                       │
└────────────────────────────────────────┘
Items 1 to 3 lead to scans; item 4 executes the marked actions; the others act on the panels.
";

/// The chapter of the manual on actions, where it says what to run after an apply.
const ACTIONS_CHAPTER: &str = "
Space is released AFTER verifying and purging with the commands:
    dedcom --purge-quarantine       # shows what it would remove
    dedcom --purge-quarantine --yes # removes every quarantine, for good
";

fn drawn_menu(doc: &str) -> Vec<(usize, String)> {
    doc.lines()
        .skip_while(|line| !line.starts_with("┌─ Menu — F9"))
        .take_while(|line| !line.starts_with('└'))
        .filter_map(|line| {
            let body = line.strip_prefix('│')?.trim_end_matches(['│', ' ']).trim();
            let (number, label) = body.split_once(". ")?;
            Some((number.trim().parse().ok()?, label.trim().to_string()))
        })
        .collect()
}

#[test]
fn manual_draws_the_menu_the_code_builds() {
    let built = menu();
    let drawn = drawn_menu(COMMANDER_CHAPTER);
    assert_eq!(
        drawn.len(),
        built.len(),
        "the manual draws {} menu entries, the code builds {}",
        drawn.len(),
        built.len()
    );
    for (index, (number, label)) in drawn.iter().enumerate() {
        assert_eq!(*number, index + 1, "the drawn menu skips a number");
        assert_eq!(
            label,
            built[index].0,
            "menu entry {} — the manual says {label:?}, the code says {:?}",
            index + 1,
            built[index].0
        );
    }
}

#[test]
fn manual_names_the_executing_entry_by_its_own_number() {
    let position = menu()
        .iter()
        .position(|(_, action)| matches!(action, MenuAction::Execute))
        .expect("the F9 menu has an Execute entry")
        + 1;
    let claim = format!("item {position} executes");
    assert!(
        COMMANDER_CHAPTER.contains(&claim),
        "Execute is menu entry {position}; the manual must say {claim:?} where it lists the \
         entries by number"
    );
}

#[test]
fn the_manual_quotes_the_purge_commands_of_the_summary() {
    let words = |text: &str| text.split_whitespace().collect::<Vec<_>>().join(" ");
    let chapter = words(ACTIONS_CHAPTER);
    for line in [release_heading(), purge_commands()[0], purge_commands()[1]] {
        assert!(
            chapter.contains(&words(line)),
            "the chapter on actions must quote: {line}"
        );
    }
}

#[test]
fn every_first_layer_key_is_reachable_by_a_digit() {
    let expected: Vec<(KeyCode, u8)> = (1..=9)
        .map(|n| (KeyCode::Char(char::from_digit(u32::from(n), 10).unwrap()), n))
        .chain([
            (KeyCode::Char('0'), 10),
            (KeyCode::Char('-'), 11),
            (KeyCode::Char('='), 12),
        ])
        .collect();
    for (code, fkey) in expected {
        assert_eq!(first_layer_key(code), Some(fkey), "{code:?}");
    }
    assert_eq!(first_layer_key(KeyCode::Char('q')), None);
}

const VIEWS: &[PanelView] = &[
    PanelView::Files,
    PanelView::DirsOnly,
    PanelView::GroupList,
    PanelView::GroupFiles,
    PanelView::DuplicatesOfCursor,
    PanelView::DirGroupList,
    PanelView::DirGroupFiles,
];

const ROW_COMMANDS: &[KeyCode] = &[
    KeyCode::F(3),
    KeyCode::F(4),
    KeyCode::F(5),
    KeyCode::F(6),
    KeyCode::F(7),
    KeyCode::F(8),
    KeyCode::Char(' '),
    KeyCode::Insert,
    KeyCode::Char('m'),
    KeyCode::Enter,
];

const NON_ROW_COMMANDS: &[KeyCode] = &[
    KeyCode::Up,
    KeyCode::Down,
    KeyCode::PageUp,
    KeyCode::PageDown,
    KeyCode::Home,
    KeyCode::End,
    KeyCode::Tab,
    KeyCode::BackTab,
    KeyCode::Char('v'),
    KeyCode::Char('s'),
    KeyCode::Char(','),
    KeyCode::Char('o'),
    KeyCode::Char('u'),
    KeyCode::Backspace,
    KeyCode::F(1),
    KeyCode::F(2),
    KeyCode::F(9),
    KeyCode::F(11),
];

fn expected_entries_backed(view: PanelView) -> bool {
    matches!(view, PanelView::Files | PanelView::DirsOnly)
}

fn blocked(view: PanelView, code: KeyCode) -> bool {
    is_entries_row_command(code) && !view_exposes_entries(view)
}

#[test]
fn row_commands_blocked_only_outside_entries_views() {
    for &view in VIEWS {
        for &code in ROW_COMMANDS {
            assert!(
                is_entries_row_command(code),
                "{code:?} must be recognised as a row command"
            );
            assert_eq!(
                blocked(view, code),
                !expected_entries_backed(view),
                "{code:?} in {view:?}: must be blocked iff the view is not files/directories"
            );
        }
    }
}

#[test]
fn navigation_and_view_commands_never_blocked() {
    for &view in VIEWS {
        for &code in NON_ROW_COMMANDS {
            assert!(
                !is_entries_row_command(code),
                "{code:?} must not be a row command"
            );
            assert!(
                !blocked(view, code),
                "{code:?} must stay enabled in {view:?}"
            );
        }
    }
}

#[test]
fn uppercase_m_is_also_gated() {
    assert!(is_entries_row_command(KeyCode::Char('M')));
}

#[test]
fn exactly_files_and_dirsonly_expose_entries() {
    assert!(view_exposes_entries(PanelView::Files));
    assert!(view_exposes_entries(PanelView::DirsOnly));
    for &view in &[
        PanelView::GroupList,
        PanelView::GroupFiles,
        PanelView::DuplicatesOfCursor,
        PanelView::DirGroupList,
        PanelView::DirGroupFiles,
    ] {
        assert!(
            !view_exposes_entries(view),
            "{view:?} must not expose entries"
        );
    }
}

#[test]
fn a_second_click_is_on_the_same_entry_and_soon() {
    assert!(is_second_click(Some((1000, 0, 3)), 1300, 0, 3));
    assert!(!is_second_click(Some((1000, 0, 3)), 1300, 0, 4));
    assert!(!is_second_click(Some((1000, 0, 3)), 1300, 1, 3));
    assert!(!is_second_click(Some((1000, 0, 3)), 2000, 0, 3));
    assert!(!is_second_click(None, 1300, 0, 3));
}

// ------------------------------------------------------------------------------------------
// Overlays.
// ------------------------------------------------------------------------------------------
fn info(created: &str, status: ScanStatus) -> ResumeInfo {
    ResumeInfo {
        scan_id: 1,
        created_at: created.to_string(),
        status,
        roots: vec![path("/x")],
        files_total: 10,
        files_hashed: 2,
        cand_bytes_total: 1000,
        cand_bytes_hashed: 200,
        files_scanned: 100,
        reclaimable_bytes: 4096,
        reclaim: ReclaimEstimate::exact(4096),
    }
}

#[test]
fn recommends_open_when_unfinished_older_than_complete() {
    let u = info("2026-05-01 10:00:00", ScanStatus::Hashing);
    let c = info("2026-05-02 10:00:00", ScanStatus::Complete);
    assert!(resume_recommendation(Some(&u), Some(&c)).contains("[O]"));
}

#[test]
fn recommends_resume_when_unfinished_newest() {
    let u = info("2026-05-03 10:00:00", ScanStatus::Hashing);
    let c = info("2026-05-02 10:00:00", ScanStatus::Complete);
    assert!(resume_recommendation(Some(&u), Some(&c)).contains("[R]"));
}

#[test]
fn recommends_open_or_new_when_only_complete() {
    let c = info("2026-05-02 10:00:00", ScanStatus::Complete);
    let r = resume_recommendation(None, Some(&c));
    assert!(r.contains("[O]") || r.contains("[N]"));
    assert_eq!(resume_recommendation(None, None), "");
}

#[test]
fn a_hashed_share_is_whole_percent_and_never_over_a_hundred() {
    assert_eq!(progress_percent(200, 1000), 20);
    assert_eq!(progress_percent(2000, 1000), 100);
    assert_eq!(progress_percent(5, 0), 0);
    assert_eq!(progress_percent(u64::MAX, u64::MAX), 1);
}

fn digest_of(actions: &[(ActionKind, &str)]) -> PlanDigest {
    let plan: Vec<PlannedAction> = actions
        .iter()
        .map(|(kind, target)| PlannedAction {
            kind: *kind,
            target: path(target),
            keeper: path("/tank/keeper.bin"),
            target_device: 1,
            keeper_device: 1,
            size: 1024,
            expected_hash: String::new(),
        })
        .collect();
    PlanDigest::of(&plan)
}

fn joined(digest: &PlanDigest, rows: usize) -> String {
    summary_lines(digest.samples.len() + digest.hidden, 1024, digest, rows).join("\n")
}

fn long_plan(count: usize) -> PlanDigest {
    let paths: Vec<String> = (0..count).map(|i| format!("/tank/f{i}.bin")).collect();
    let actions: Vec<(ActionKind, &str)> =
        paths.iter().map(|path| (ActionKind::Delete, path.as_str())).collect();
    digest_of(&actions)
}

#[test]
fn the_summary_names_the_kinds_and_the_paths() {
    let digest = digest_of(&[
        (ActionKind::Delete, "/tank/photos/IMG_4421.HEIC"),
        (ActionKind::Hardlink, "/tank/dup/a.bin"),
        (ActionKind::Hardlink, "/tank/dup/b.bin"),
    ]);
    let text = joined(&digest, 20);

    assert!(
        text.contains("By type: delete 1 · hardlink 2"),
        "the composition has to be spelled out:\n{text}"
    );
    assert!(
        text.contains("DELETE") && text.contains("IMG_4421.HEIC"),
        "the deletion the operator did not mean must be named:\n{text}"
    );
    assert!(!text.contains("more"), "a 3-action plan is quoted whole");
}

#[test]
fn a_long_plan_admits_what_it_is_not_showing() {
    let text = joined(&long_plan(12), 20);

    assert!(text.contains("By type: delete 12"));
    assert!(text.contains("/tank/f0.bin") && text.contains("/tank/f4.bin"));
    assert!(!text.contains("/tank/f5.bin"), "only five are quoted");
    assert!(text.contains("… and 7 more"), "{text}");
}

#[test]
fn a_deep_path_keeps_its_tail() {
    let digest = digest_of(&[(
        ActionKind::Delete,
        "/tank/backups/2019/january/photos/family/holiday/IMG_4421_original_copy.HEIC",
    )]);
    let text = joined(&digest, 20);

    assert!(
        text.contains("IMG_4421_original_copy.HEIC"),
        "the name identifies the file:\n{text}"
    );
    assert!(text.contains('…'), "and the head is elided:\n{text}");
    for line in text.lines() {
        assert!(
            line.chars().count() <= SUMMARY_WIDTH as usize - 2,
            "line overflows the box: {line}"
        );
    }
}

#[test]
fn the_body_sheds_paths_before_prose() {
    let digest = long_plan(12);

    let roomy = joined(&digest, 20);
    assert!(roomy.contains("/tank/f0.bin") && roomy.contains("A ZFS snapshot"));

    let tight = joined(&digest, 5);
    assert!(!tight.contains("/tank/f0.bin"), "paths go first:\n{tight}");
    assert!(
        tight.contains("A ZFS snapshot"),
        "prose outlives them:\n{tight}"
    );

    let tighter = joined(&digest, 4);
    assert!(
        !tighter.contains("A ZFS snapshot"),
        "then the note:\n{tighter}"
    );
    assert!(tighter.contains("Approximately freed"));

    let essentials = joined(&digest, 3);
    assert_eq!(
        essentials, "  Actions to be executed: 12\n  By type: delete 12\n  … and 12 more",
        "what is left is what the operator cannot decide without"
    );
}

#[test]
fn the_scroll_stays_inside_the_script() {
    let mut scroll = ConfirmScroll { offset: 0, total: 100, rows: 10 };
    scroll.scroll_by(1000);
    assert_eq!(scroll.offset, 90);
    assert_eq!(scroll.visible_range(), Some((91, 100)));
    scroll.scroll_by(-5);
    assert_eq!(scroll.offset, 85);
    scroll.rows = 40;
    scroll.clamp();
    assert_eq!(scroll.offset, 60);
    assert_eq!(ConfirmScroll { offset: 0, total: 0, rows: 10 }.visible_range(), None);
}

// ------------------------------------------------------------------------------------------
// Comparing scans, and what a batch came to.
// ------------------------------------------------------------------------------------------
fn diff_report() -> DiffReport {
    DiffReport {
        old_scan_id: 1,
        new_scan_id: 2,
        root: path("/tank"),
        unchanged_count: 3,
        new_dup_candidates: Vec::new(),
        moved_inode: Vec::new(),
        moved_hash: vec![FileChange::MovedByHash { from: path("/a"), to: path("/b") }],
        modified: Vec::new(),
        deleted: vec![FileChange::Deleted { path: path("/x") }, FileChange::Deleted { path: path("/y") }],
        new: Vec::new(),
    }
}

#[test]
fn a_category_lists_its_own_changes() {
    let report = diff_report();
    assert_eq!(categories()[2], "Moved (hash)");
    assert_eq!(category_changes(&report, 2).len(), 1);
    assert_eq!(category_changes(&report, 4).len(), 2);
    assert_eq!(category_changes(&report, 6).len(), 0);
    assert_eq!(change_line(&report.moved_hash[0], 80), "/a → /b (by content)");
    assert_eq!(change_line(&report.deleted[0], 80), "/x");
    assert_eq!(
        change_line(
            &FileChange::NewDupCandidate { path: path("/n"), peers_in_old: vec![path("/o")] },
            80
        ),
        "/n  ← duplicate of: /o"
    );
}

#[test]
fn every_reason_for_a_zero_is_counted_once() {
    let result = BatchResult {
        outcomes: vec![
            ActionOutcome {
                kind: ActionKind::Delete,
                target: path("/a"),
                quarantine: Some(path("/q/a")),
                result: Ok(()),
            },
            ActionOutcome {
                kind: ActionKind::Delete,
                target: path("/b"),
                quarantine: None,
                result: Err("no".to_string()),
            },
        ],
        snapshots: Vec::new(),
        quarantine_dirs: Vec::new(),
        planned: 2,
        cancelled: false,
        aborted: None,
        estimate: ReclaimEstimate::unknown(),
        realized: vec![
            ObjectRealization::Zero(ZeroReason::Refused),
            ObjectRealization::Released(5),
            ObjectRealization::Zero(ZeroReason::Refused),
            ObjectRealization::Zero(ZeroReason::ExternalLinks),
        ],
        realized_bytes: 5,
        completed_objects: 1,
        bytes_read: 0,
    };
    let zeros = zeros_by_reason(&result);
    assert_eq!(zeros.iter().map(|(_, n)| n).sum::<usize>(), 3);
    assert!(zeros.iter().any(|(reason, n)| *reason == ZeroReason::Refused && *n == 2));
    assert_eq!(result.succeeded(), 1);
    assert_eq!(result.failed(), 1);
    let quarantined = result.quarantined_paths();
    assert_eq!(quarantined.len(), 1);
    assert!(quarantined[0].same(&path("/q/a")));
}
