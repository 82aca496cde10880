//! The commander: keys, marks, the confirmation, jumps, moves, the Board.

use dedcom::actions::{
    cancel_execution, confirm_execution, prepare_execution, requested_marks, seat_plan,
};
use dedcom::app::{App, AppMode, CommanderState, Effect, MarkIntent, MarkWrite, Screen};
use dedcom::batch::{run_batch, Answer, Batch, ItemKind, Wanted};
use dedcom::browser::group_rows;
use dedcom::canvas::Rect;
use dedcom::commander::{dispatch_key, on_key, panel_hit, visible_panel_count};
use dedcom::compare::{count_panel_matches, cross_panel_keys};
use dedcom::confirm::{script_not_saved, script_saved};
use dedcom::dedup::{DedupCache, DirDedup, DirTrust, GroupId, LiveDirSignature};
use dedcom::entries::{EntryKind, Mark, PanelEntry, PanelView};
use dedcom::jump::{check_jump_landed, jump_source};
use dedcom::keys::{KeyCode, KeyEvent};
use dedcom::layout::{panel_rects, regions};
use dedcom::marks::{mark_cursor, mark_refused, mark_saved, toggle_mark_cursor};
use dedcom::menu::{menu, run_menu_action, MenuAction};
use dedcom::model::{
    ActionKind, ActionPlan, DuplicateGroup, FileEntry, GroupSummary, PlanSummary, PlannedAction,
};
use dedcom::move_batch::{dup_candidate, dup_dest, same_size_files, Look};
use dedcom::moves::{apply_move_outcome, undo_last_move, MoveBatchOutcome};
use dedcom::panel::MatchKey;
use dedcom::panels::Panel;
use dedcom::path::FilePath;
use dedcom::reclaim::{GroupClaim, GroupLinks, LinkCount, ReclaimEstimate};
use dedcom::state::{
    ConfirmScript, ConfirmScroll, ConfirmTab, LoadTarget, Overlay, PendingJump, WatchEntry,
    WatchResult,
};

fn path(text: &str) -> FilePath {
    FilePath::from_text(text)
}

fn commander(first: &str, second: &str) -> CommanderState {
    CommanderState::new(
        vec![path(first), path(second)],
        Panel::empty(path(first)),
        Panel::empty(path(second)),
    )
}

fn test_app() -> App {
    App {
        commander: commander("/a", "/b"),
        mode: AppMode::Commander,
        read_only: false,
        reflink_safe: true,
        datasets: Vec::new(),
        zfs_warnings: 0,
        pending_marks: 0,
        auto_select: false,
        show_help: false,
        should_quit: false,
        results_from_sessions: false,
        db_path: path("/var/lib/dedcom/dedcom.db"),
        outbox: Vec::new(),
    }
}

fn press(app: &mut App, code: KeyCode) {
    on_key(app, KeyEvent::plain(code));
}

fn entry_of(name: &str, kind: EntryKind) -> PanelEntry {
    let at = path(name);
    PanelEntry {
        name: at.file_name().map(|n| String::from_utf8_lossy(&n).into_owned()).unwrap_or_default(),
        path: at,
        kind,
        size: 0,
        mtime: 0,
        device: 0,
        inode: 0,
    }
}

fn planned(kind: ActionKind, target: &str) -> PlannedAction {
    PlannedAction {
        kind,
        target: path(target),
        keeper: path("/tank/keeper.bin"),
        target_device: 1,
        keeper_device: 1,
        size: 1024,
        expected_hash: String::new(),
    }
}

fn plan_of(actions: Vec<PlannedAction>) -> ActionPlan {
    let count = actions.len();
    ActionPlan {
        actions,
        summary: PlanSummary {
            actions: count,
            covered_objects: count,
            estimate: ReclaimEstimate::exact(1024 * count as u64),
            warnings: Vec::new(),
        },
    }
}

fn test_plan(count: usize) -> ActionPlan {
    plan_of((0..count).map(|i| planned(ActionKind::Delete, &format!("/tank/f{i}.bin"))).collect())
}

#[test]
fn commander_state_starts_with_empty_scan_coverage_cache() {
    let state = commander("/tank", "/tank");
    assert!(state.scan_coverage_cache.is_empty());
    assert!(state.dedup_scan_id.is_none());
}

// ------------------------------------------------------------------------------------------
// The Commands tab.
// ------------------------------------------------------------------------------------------
fn confirming_script(tab: ConfirmTab, lines: usize, rows: u16) -> App {
    let mut app = test_app();
    app.commander.confirm_script = ConfirmScript::Ready(
        (1..=lines).map(|n| format!("echo line{n}")).collect::<Vec<_>>().join("\n"),
    );
    app.commander.confirm_scroll = ConfirmScroll { offset: 0, total: lines, rows };
    app.commander.overlay = Overlay::Confirm { tab };
    app
}

#[test]
fn the_commands_tab_scrolls_line_page_and_end() {
    let mut app = confirming_script(ConfirmTab::Commands, 100, 10);

    press(&mut app, KeyCode::Down);
    press(&mut app, KeyCode::Down);
    assert_eq!(app.commander.confirm_scroll.offset, 2);
    press(&mut app, KeyCode::Up);
    assert_eq!(app.commander.confirm_scroll.offset, 1);

    press(&mut app, KeyCode::PageDown);
    assert_eq!(
        app.commander.confirm_scroll.offset, 10,
        "a page is the window minus one line of overlap"
    );
    press(&mut app, KeyCode::PageUp);
    assert_eq!(app.commander.confirm_scroll.offset, 1);

    press(&mut app, KeyCode::End);
    assert_eq!(
        app.commander.confirm_scroll.offset, 90,
        "End parks the last line at the bottom of the window, not past it"
    );
    press(&mut app, KeyCode::Home);
    assert_eq!(app.commander.confirm_scroll.offset, 0);
}

#[test]
fn the_window_never_leaves_the_script() {
    let mut app = confirming_script(ConfirmTab::Commands, 100, 10);
    for _ in 0..40 {
        press(&mut app, KeyCode::PageDown);
    }
    assert_eq!(app.commander.confirm_scroll.offset, 90);
    for _ in 0..40 {
        press(&mut app, KeyCode::PageUp);
    }
    assert_eq!(app.commander.confirm_scroll.offset, 0);
}

#[test]
fn a_script_shorter_than_the_window_does_not_move() {
    for lines in [0usize, 1, 5] {
        let mut app = confirming_script(ConfirmTab::Commands, lines, 10);
        for code in [KeyCode::Down, KeyCode::PageDown, KeyCode::End] {
            press(&mut app, code);
            assert_eq!(
                app.commander.confirm_scroll.offset, 0,
                "{lines} lines, {code:?}"
            );
        }
    }
}

#[test]
fn the_summary_tab_ignores_movement() {
    let mut app = confirming_script(ConfirmTab::Summary, 100, 10);
    for code in [
        KeyCode::Down,
        KeyCode::PageDown,
        KeyCode::End,
        KeyCode::Up,
        KeyCode::Home,
    ] {
        press(&mut app, code);
        assert_eq!(app.commander.confirm_scroll.offset, 0, "{code:?}");
    }
}

#[test]
fn the_modal_intercepts_movement_and_still_answers() {
    let mut app = confirming_script(ConfirmTab::Commands, 100, 10);
    let cursor = app.commander.panels[0].list.selected;

    press(&mut app, KeyCode::Down);
    press(&mut app, KeyCode::End);

    assert_eq!(
        app.commander.panels[0].list.selected, cursor,
        "the panel cursor must not move while a confirmation is open"
    );
    assert!(matches!(
        app.commander.overlay,
        Overlay::Confirm { tab: ConfirmTab::Commands }
    ));

    press(&mut app, KeyCode::Tab);
    assert!(
        matches!(
            app.commander.overlay,
            Overlay::Confirm { tab: ConfirmTab::Summary }
        ),
        "Tab still switches tabs"
    );

    press(&mut app, KeyCode::Esc);
    assert!(
        matches!(app.commander.overlay, Overlay::Closed),
        "Esc still cancels"
    );
}

/// `S` hands over the plan, not the part of it that happens to be on screen.
#[test]
fn saving_hands_over_the_whole_script_after_scrolling() {
    let mut app = confirming_script(ConfirmTab::Commands, 100, 10);
    let whole = app.commander.confirm_script.ready().unwrap().to_string();
    press(&mut app, KeyCode::End);
    press(&mut app, KeyCode::Char('s'));
    match app.outbox.last() {
        Some(Effect::SaveScript { dir, name, script }) => {
            assert_eq!(*script, whole);
            assert!(dir.same(&path("/var/lib/dedcom/plans")), "{}", dir.display());
            assert!(name.ends_with(".sh"), "{name}");
            assert!(name.chars().filter(|c| c.is_ascii_digit()).count() == 14, "{name}");
        }
        other => panic!("the script is to be saved: {other:?}"),
    }
    script_saved(&mut app, &path("/var/lib/dedcom/plans/x.sh"));
    assert!(app.commander.status.starts_with("Script saved"), "{}", app.commander.status);
    script_not_saved(&mut app, "disk full");
    assert!(app.commander.status.contains("disk full"), "{}", app.commander.status);
}

// ------------------------------------------------------------------------------------------
// Marks.
// ------------------------------------------------------------------------------------------
const TWIN: &str = "/tank/twin.bin";

fn panel_over(app: &mut App, name: &str) {
    let entries = vec![entry_of(name, EntryKind::File)];
    let panel = app.commander.active_panel_mut();
    panel.entries = entries;
    panel.list.select(Some(0));
}

/// A commander with a scan open.
fn commander_on() -> App {
    let mut app = test_app();
    app.commander.dedup_scan_id = Some(1);
    app
}

fn submitted(app: &mut App) -> MarkWrite {
    match app.outbox.pop() {
        Some(Effect::SaveMark(write)) => write,
        other => panic!("a durable write was expected: {other:?}"),
    }
}

/// The store accepts what was submitted last.
fn settle_mark(app: &mut App) {
    let write = submitted(app);
    mark_saved(app, &write);
}

/// The store refuses what was submitted last: the pathname has left the manifest.
fn refuse_mark(app: &mut App) {
    let write = submitted(app);
    mark_refused(app, &write, "the pathname is not part of the loaded scan");
}

fn mark_on(app: &App, name: &str) -> Option<Mark> {
    app.commander.panels[app.commander.active].marks.get(&path(name)).copied()
}

#[test]
fn an_enqueued_mark_says_saving_and_never_saved() {
    let mut app = commander_on();
    panel_over(&mut app, TWIN);

    mark_cursor(&mut app, Mark::Keeper);

    assert_eq!(app.pending_marks, 1, "exactly one durable write is in flight");
    assert!(
        app.commander.status.starts_with("Saving mark"),
        "the operator is told the write was submitted: {}",
        app.commander.status
    );
    assert!(
        !app.commander.status.starts_with("Mark saved"),
        "nothing may claim the database accepted it yet: {}",
        app.commander.status
    );
    assert_eq!(
        mark_on(&app, TWIN),
        Some(Mark::Keeper),
        "the optimistic row is drawn — it is the claim of durability that is withheld"
    );
}

#[test]
fn a_settled_mark_reports_the_meaning_the_database_returned() {
    let mut app = commander_on();
    panel_over(&mut app, TWIN);

    mark_cursor(&mut app, Mark::Keeper);
    settle_mark(&mut app);

    assert_eq!(
        app.pending_marks, 0,
        "the flight is over before anything is called saved"
    );
    assert!(
        app.commander.status.starts_with("Mark saved"),
        "the positive acknowledgement is what the operator waits for: {}",
        app.commander.status
    );
    assert!(
        app.commander.status.contains("keeper"),
        "and it states the durable meaning the after-image carried: {}",
        app.commander.status
    );
    assert!(
        app.commander.status.contains(TWIN),
        "naming the pathname it settled: {}",
        app.commander.status
    );
    assert_eq!(
        mark_on(&app, TWIN),
        Some(Mark::Keeper),
        "and the row now agrees with the database"
    );
}

#[test]
fn a_second_mark_is_refused_before_it_touches_the_panel() {
    let mut app = commander_on();
    panel_over(&mut app, TWIN);

    mark_cursor(&mut app, Mark::Keeper);
    let cursor_before = app.commander.active_panel().list.selected;
    assert_eq!(app.pending_marks, 1, "one write is in flight");
    let sent = app.outbox.len();

    mark_cursor(&mut app, Mark::Delete);

    assert_eq!(app.pending_marks, 1, "the second keystroke sent nothing");
    assert_eq!(app.outbox.len(), sent);
    assert!(
        app.commander.status.starts_with("Mark still saving"),
        "and it names the state the operator is in: {}",
        app.commander.status
    );
    assert!(
        app.commander.status.contains("Mark saved"),
        "and the state they are waiting for: {}",
        app.commander.status
    );
    assert_eq!(
        app.commander.active_panel().list.selected, cursor_before,
        "the cursor did not move"
    );
    assert_eq!(
        mark_on(&app, TWIN),
        Some(Mark::Keeper),
        "and no optimistic row was left behind"
    );
    assert_eq!(app.commander.active_panel().marks.rows.len(), 1);
}

#[test]
fn clearing_a_mark_reports_cleared_after_settlement() {
    let mut app = commander_on();
    panel_over(&mut app, TWIN);

    mark_cursor(&mut app, Mark::Delete);
    settle_mark(&mut app);
    assert!(app.commander.status.starts_with("Mark saved"));

    panel_over(&mut app, TWIN);
    toggle_mark_cursor(&mut app);
    assert!(
        app.commander.status.starts_with("Saving mark"),
        "the clear is submitted, not yet saved: {}",
        app.commander.status
    );
    settle_mark(&mut app);

    assert!(
        app.commander.status.starts_with("Mark saved") && app.commander.status.contains("cleared"),
        "and settles as `cleared`: {}",
        app.commander.status
    );
}

#[test]
fn a_refused_mark_restores_the_row_and_never_renders_the_success_prefix() {
    let mut app = commander_on();
    panel_over(&mut app, TWIN);
    mark_cursor(&mut app, Mark::Keeper);
    settle_mark(&mut app);
    assert!(
        app.commander.status.starts_with("Mark saved"),
        "the durable keeper is what the row must fall back to: {}",
        app.commander.status
    );

    app.commander.active_panel_mut().list.select(Some(0));
    mark_cursor(&mut app, Mark::Delete);
    assert!(
        app.commander.status.starts_with("Saving mark"),
        "the keystroke was submitted like any other: {}",
        app.commander.status
    );
    refuse_mark(&mut app);

    assert!(
        !app.commander.status.starts_with("Mark saved"),
        "a refusal that reads as success is the whole failure mode: {}",
        app.commander.status
    );
    assert!(
        app.commander.status.contains("not part of the loaded scan"),
        "and it names what was refused: {}",
        app.commander.status
    );
    assert_eq!(
        mark_on(&app, TWIN),
        Some(Mark::Keeper),
        "the row is back to the last thing the database confirmed, not the refused delete"
    );
}

#[test]
fn a_refused_mark_is_not_kept_in_the_panel() {
    let mut app = commander_on();
    panel_over(&mut app, TWIN);
    mark_cursor(&mut app, Mark::Keeper);
    settle_mark(&mut app);
    assert_eq!(
        mark_on(&app, TWIN),
        Some(Mark::Keeper),
        "the fixture only means something if the first mark landed: {}",
        app.commander.status
    );

    app.commander.active_panel_mut().list.select(Some(0));
    mark_cursor(&mut app, Mark::Delete);
    refuse_mark(&mut app);

    assert_eq!(
        mark_on(&app, TWIN),
        Some(Mark::Keeper),
        "the panel must show the exact mark the database still holds"
    );
    assert!(app.commander.status.contains("not saved"), "{}", app.commander.status);
    assert_eq!(app.pending_marks, 0);
}

#[test]
fn a_refused_unmark_leaves_the_mark_in_place() {
    let mut app = commander_on();
    panel_over(&mut app, TWIN);
    mark_cursor(&mut app, Mark::Delete);
    settle_mark(&mut app);
    assert_eq!(mark_on(&app, TWIN), Some(Mark::Delete), "{}", app.commander.status);

    app.commander.active_panel_mut().list.select(Some(0));
    toggle_mark_cursor(&mut app);
    refuse_mark(&mut app);

    assert_eq!(
        mark_on(&app, TWIN),
        Some(Mark::Delete),
        "the DELETE the database still holds stays on screen"
    );
    assert!(
        app.commander.status.contains("not saved") || app.commander.status.contains("not cleared"),
        "{}",
        app.commander.status
    );
}

/// The fence guards the database, not the keyboard: a selection writes nothing.
#[test]
fn a_selection_is_free_while_a_write_is_pending() {
    let mut app = commander_on();
    panel_over(&mut app, TWIN);
    mark_cursor(&mut app, Mark::Keeper);
    assert_eq!(app.pending_marks, 1);

    panel_over(&mut app, "/tank/selectable.bin");
    toggle_mark_cursor(&mut app);
    assert_eq!(mark_on(&app, "/tank/selectable.bin"), Some(Mark::Selected));
    assert!(!app.commander.status.starts_with("Mark still saving"));
    assert_eq!(app.pending_marks, 1);

    panel_over(&mut app, "/tank/selectable.bin");
    toggle_mark_cursor(&mut app);
    assert_eq!(mark_on(&app, "/tank/selectable.bin"), None);

    // Clearing a durable mark is a write and waits its turn.
    panel_over(&mut app, TWIN);
    toggle_mark_cursor(&mut app);
    assert!(app.commander.status.starts_with("Mark still saving"), "{}", app.commander.status);
    assert_eq!(mark_on(&app, TWIN), Some(Mark::Keeper));
}

#[test]
fn without_a_scan_nothing_durable_is_marked() {
    let mut app = test_app();
    panel_over(&mut app, TWIN);
    mark_cursor(&mut app, Mark::Delete);
    assert_eq!(mark_on(&app, TWIN), None);
    assert_eq!(app.pending_marks, 0);
    assert!(app.outbox.is_empty());
    assert!(app.commander.status.contains("no scan is loaded"), "{}", app.commander.status);
}

// ------------------------------------------------------------------------------------------
// The plan and its confirmation.
// ------------------------------------------------------------------------------------------
/// Asks for the plan as F11 does, and seats what the store made of the request.
fn prepare_and_settle(app: &mut App) {
    prepare_execution(app);
    let requests = match app.outbox.pop() {
        Some(Effect::BuildPlan(requests)) => requests,
        other => panic!("a plan was to be built: {other:?}: {}", app.commander.status),
    };
    let actions = requests
        .iter()
        .filter_map(|request| match request.intent {
            MarkIntent::Keeper => None,
            MarkIntent::Act(kind) => Some(planned(kind, &request.path.display())),
        })
        .collect();
    seat_plan(app, plan_of(actions), "echo".to_string());
}

fn marked(app: &mut App, marks: &[(&str, Mark)]) {
    app.commander.dedup_scan_id = Some(1);
    for (name, mark) in marks {
        app.commander.panels[0].marks.insert(path(name), *mark);
    }
}

#[test]
fn the_confirmation_digest_names_a_mis_marked_batch() {
    let mut app = test_app();
    marked(
        &mut app,
        &[
            ("/tank/keeper.bin", Mark::Keeper),
            ("/tank/dup1.bin", Mark::Delete),
            ("/tank/dup2.bin", Mark::Delete),
        ],
    );

    prepare_and_settle(&mut app);

    assert!(
        matches!(app.commander.overlay, Overlay::Confirm { .. }),
        "the plan is two deletions: {:?} — {}",
        app.commander.overlay,
        app.commander.status
    );
    let digest = &app.commander.confirm_digest;
    assert_eq!(
        digest.counts,
        vec![(ActionKind::Delete, 2)],
        "the confirmation must be able to say «delete 2»"
    );
    let named: Vec<String> = digest.samples.iter().map(|(_, at)| at.display()).collect();
    assert!(
        named.contains(&"/tank/dup1.bin".to_string())
            && named.contains(&"/tank/dup2.bin".to_string()),
        "both targets are named: {named:?}"
    );
    assert_eq!(digest.hidden, 0);
    assert_eq!(digest.covered_objects, 2, "two independent allocations");
}

#[test]
fn a_second_plan_replaces_the_first_digest() {
    let mut app = test_app();
    marked(
        &mut app,
        &[
            ("/tank/keeper.bin", Mark::Keeper),
            ("/tank/dup1.bin", Mark::Delete),
            ("/tank/dup2.bin", Mark::Delete),
        ],
    );
    prepare_and_settle(&mut app);
    assert_eq!(app.commander.confirm_digest.counts.len(), 1);

    cancel_execution(&mut app);
    assert!(app.commander.pending_plan.is_none());
    assert!(app.commander.confirm_script.ready().is_none());
    app.commander.panels[0].marks.remove(&path("/tank/dup2.bin"));
    app.commander.panels[0].marks.insert(path("/tank/dup1.bin"), Mark::Hardlink);
    prepare_and_settle(&mut app);

    assert_eq!(
        app.commander.confirm_digest.counts,
        vec![(ActionKind::Hardlink, 1)],
        "the digest describes the plan on screen now, not the one that was cancelled"
    );
}

/// A file marked in two panels is submitted by both of them, in the order of the paths, and a
/// selection is not submitted at all.
#[test]
fn the_submission_is_the_union_of_the_panels() {
    let mut app = test_app();
    marked(
        &mut app,
        &[("/tank/b.bin", Mark::Delete), ("/tank/sel.bin", Mark::Selected)],
    );
    app.commander.panels[1].marks.insert(path("/tank/b.bin"), Mark::Delete);
    app.commander.panels[1].marks.insert(path("/tank/a.bin"), Mark::Keeper);
    let requests = requested_marks(&app.commander.panels);
    let named: Vec<String> = requests.iter().map(|r| r.path.display()).collect();
    assert_eq!(named, ["/tank/a.bin", "/tank/b.bin", "/tank/b.bin"]);
}

#[test]
fn a_gate_keeps_a_plan_from_being_built() {
    let mut app = test_app();
    marked(&mut app, &[("/tank/b.bin", Mark::Delete)]);
    app.pending_marks = 1;
    prepare_execution(&mut app);
    assert!(app.outbox.is_empty());
    assert!(
        app.commander.status.contains("still saving"),
        "{}",
        app.commander.status
    );
}

#[test]
fn a_plan_cannot_be_built_while_a_mark_is_in_flight() {
    let mut app = commander_on();
    panel_over(&mut app, "/tank/twin.bin");

    mark_cursor(&mut app, Mark::Keeper);
    assert!(
        app.plan_gate_refusal().is_some(),
        "an unacknowledged mark still refuses a plan"
    );
    let asked = |app: &App| {
        app.outbox.iter().filter(|effect| matches!(effect, Effect::BuildPlan(_))).count()
    };
    prepare_execution(&mut app);
    assert_eq!(asked(&app), 0);
    settle_mark(&mut app);
    assert!(app.plan_gate_refusal().is_none());
    prepare_execution(&mut app);
    assert_eq!(asked(&app), 1);
}

fn confirming(tab: ConfirmTab) -> App {
    let mut app = test_app();
    app.commander.pending_plan = Some(test_plan(2));
    app.commander.confirm_script = ConfirmScript::Ready("echo one\necho two".to_string());
    app.commander.confirm_scroll = ConfirmScroll { offset: 0, total: 2, rows: 1 };
    app.commander.overlay = Overlay::Confirm { tab };
    app
}

fn batch_started(app: &App) -> bool {
    app.outbox.iter().any(|effect| matches!(effect, Effect::Apply(_)))
}

#[test]
fn enter_does_not_execute_on_either_tab() {
    for tab in [ConfirmTab::Summary, ConfirmTab::Commands] {
        let mut app = confirming(tab);

        press(&mut app, KeyCode::Enter);
        press(&mut app, KeyCode::Enter);

        assert!(
            matches!(app.commander.overlay, Overlay::Confirm { .. }),
            "{tab:?}: the confirmation must stay open"
        );
        assert_eq!(
            app.commander.pending_plan.as_ref().map(|plan| plan.actions.len()),
            Some(2),
            "{tab:?}: the plan must be untouched"
        );
        assert!(!batch_started(&app), "{tab:?}: no batch may have started");
        assert_eq!(
            app.mode,
            AppMode::Commander,
            "{tab:?}: the wizard must not have been entered"
        );
    }
}

#[test]
fn y_still_executes_the_pending_plan() {
    for code in [KeyCode::Char('y'), KeyCode::Char('Y')] {
        let mut app = confirming(ConfirmTab::Summary);

        press(&mut app, code);

        assert!(matches!(app.commander.overlay, Overlay::Closed), "{code:?}");
        assert!(
            app.commander.pending_plan.is_none(),
            "{code:?}: the plan was taken"
        );
        match app.outbox.last() {
            Some(Effect::Apply(plan)) => {
                assert_eq!(plan.actions.len(), 2, "{code:?}: both actions handed over")
            }
            other => panic!("{code:?}: the worker was to be started: {other:?}"),
        }
        assert_eq!(app.mode, AppMode::Wizard, "{code:?}");
    }
}

#[test]
fn n_and_esc_still_cancel() {
    for code in [KeyCode::Char('n'), KeyCode::Char('N'), KeyCode::Esc] {
        let mut app = confirming(ConfirmTab::Commands);

        press(&mut app, code);

        assert!(matches!(app.commander.overlay, Overlay::Closed), "{code:?}");
        assert!(app.commander.pending_plan.is_none(), "{code:?}");
        assert!(!batch_started(&app), "{code:?}: cancelling starts nothing");
    }
}

#[test]
fn an_observer_executes_nothing() {
    let mut app = confirming(ConfirmTab::Summary);
    app.read_only = true;
    confirm_execution(&mut app);
    assert!(!batch_started(&app));
    assert!(app.commander.pending_plan.is_none());
}

// ------------------------------------------------------------------------------------------
// Reaching Execute.
// ------------------------------------------------------------------------------------------
const NOTHING_MARKED: &str = "No marked files (F5/F6/F7/F8)";

fn dispatch(app: &mut App, code: KeyCode) {
    dispatch_key(app, KeyEvent::plain(code));
}

#[test]
fn the_letter_alias_reaches_execute() {
    for code in [KeyCode::Char('x'), KeyCode::Char('X')] {
        let mut app = test_app();
        dispatch(&mut app, code);
        assert_eq!(app.commander.status, NOTHING_MARKED, "{code:?}");
    }
}

#[test]
fn the_prefix_and_a_digit_reach_the_first_layer() {
    let mut app = test_app();
    dispatch(&mut app, KeyCode::Char('`'));
    dispatch(&mut app, KeyCode::Char('-'));
    assert_eq!(app.commander.status, NOTHING_MARKED);
    assert!(
        !app.commander.second_layer,
        "the layer disarms after the key"
    );

    let mut app = test_app();
    dispatch(&mut app, KeyCode::Char('`'));
    dispatch(&mut app, KeyCode::Char('0'));
    assert!(app.should_quit);

    let mut app = test_app();
    dispatch(&mut app, KeyCode::Char('0'));
    assert!(!app.should_quit);
    assert!(app.commander.status.is_empty());
}

#[test]
fn the_prefix_still_reaches_the_second_layer() {
    let mut app = test_app();
    dispatch(&mut app, KeyCode::Char('`'));
    dispatch(&mut app, KeyCode::F(12));
    if let Some(Effect::LoadLayout(_)) = app.outbox.last() {
        dedcom::board::open_board(&mut app, None);
    }
    assert!(app.commander.board_active, "` F12 opens the Triage Board");
}

#[test]
fn the_menu_offers_execute() {
    let entries = menu();
    let index = entries
        .iter()
        .position(|(_, action)| matches!(action, MenuAction::Execute))
        .expect("the F9 menu must offer Execute");
    assert!(
        entries[index].0.contains("Execute"),
        "the label says what it does: {}",
        entries[index].0
    );

    let mut app = test_app();
    run_menu_action(&mut app, entries[index].1);
    assert_eq!(app.commander.status, NOTHING_MARKED);
}

#[test]
fn the_menu_goes_round_and_closes() {
    let mut app = test_app();
    dispatch(&mut app, KeyCode::F(9));
    assert!(matches!(app.commander.overlay, Overlay::Menu { cursor: 0 }));
    press(&mut app, KeyCode::Up);
    assert!(matches!(app.commander.overlay, Overlay::Menu { cursor: 13 }));
    press(&mut app, KeyCode::Down);
    assert!(matches!(app.commander.overlay, Overlay::Menu { cursor: 0 }));
    press(&mut app, KeyCode::Esc);
    assert!(matches!(app.commander.overlay, Overlay::Closed));
    dispatch(&mut app, KeyCode::F(12));
    assert!(matches!(app.outbox.last(), Some(Effect::OpenWizard(Screen::Resume))));
}

// ------------------------------------------------------------------------------------------
// Matching panels.
// ------------------------------------------------------------------------------------------
fn dedup_with(sig_path: &str, signature: &str, trust: DirTrust) -> DirDedup {
    let mut dedup = DirDedup::default();
    dedup.dir_signatures.insert(
        path(sig_path),
        LiveDirSignature { signature: signature.to_string(), trust },
    );
    dedup
}

#[test]
fn cross_panel_matching_and_counts_are_trusted_only() {
    let mut app = test_app();
    app.commander.panels[0].cwd = path("/d1");
    app.commander.panels[0].entries = vec![entry_of("/d1/x", EntryKind::Dir)];
    app.commander.panels[1].cwd = path("/d2");
    app.commander.panels[1].entries = vec![entry_of("/d2/y", EntryKind::Dir)];

    let dedup: &mut DedupCache = &mut app.commander.dedup;
    dedup.insert_dir(path("/d1"), Ok(dedup_with("/d1/x", "S", DirTrust::Trusted)));
    dedup.insert_dir(path("/d2"), Ok(dedup_with("/d2/y", "S", DirTrust::Untrusted)));
    assert!(
        cross_panel_keys(&app).is_empty(),
        "an untrusted signature must not complete an exact match"
    );
    let (files, dirs) = count_panel_matches(
        app.commander.dedup.dir(&path("/d1")),
        app.commander.dedup.dir(&path("/d2")),
        &app.commander.panels[0],
        &app.commander.panels[1],
    );
    assert_eq!((files, dirs), (0, 0), "and must not count as one either");

    app.commander
        .dedup
        .insert_dir(path("/d2"), Ok(dedup_with("/d2/y", "S", DirTrust::Trusted)));
    assert!(
        cross_panel_keys(&app)
            .iter()
            .any(|key| key.same(&MatchKey::Directory("S".to_string()))),
        "both sides trusted → the match is real"
    );
    let (_, dirs) = count_panel_matches(
        app.commander.dedup.dir(&path("/d1")),
        app.commander.dedup.dir(&path("/d2")),
        &app.commander.panels[0],
        &app.commander.panels[1],
    );
    assert_eq!(dirs, 1);
}

/// A digest is content, never the key of a match; a published group is.
#[test]
fn files_match_by_their_groups_alone() {
    let mut app = test_app();
    app.commander.panels[0].entries = vec![entry_of("/a/x", EntryKind::File)];
    app.commander.panels[1].entries = vec![entry_of("/b/y", EntryKind::File)];
    let mut mine = DirDedup::default();
    let mut theirs = DirDedup::default();
    mine.hashes.insert(path("/a/x"), "h".to_string());
    theirs.hashes.insert(path("/b/y"), "h".to_string());
    let count = |mine: &DirDedup, theirs: &DirDedup| {
        count_panel_matches(
            Some(mine),
            Some(theirs),
            &app.commander.panels[0],
            &app.commander.panels[1],
        )
    };
    assert_eq!(count(&mine, &theirs), (0, 0));
    let group = |rank: i64| GroupId { scan_id: 1, rank, generation: 1 };
    mine.groups.insert(path("/a/x"), group(3));
    assert_eq!(count(&mine, &theirs), (0, 0));
    theirs.groups.insert(path("/b/y"), group(4));
    assert_eq!(count(&mine, &theirs), (0, 0));
    theirs.groups.insert(path("/b/y"), group(3));
    assert_eq!(count(&mine, &theirs), (1, 0));
}

// ------------------------------------------------------------------------------------------
// Jumps.
// ------------------------------------------------------------------------------------------
#[test]
fn jump_source_no_op_in_files_view_sets_status() {
    let mut commander = commander("/a", "/b");
    commander.panels[0].view = PanelView::Files;
    commander.active = 0;
    let result = jump_source(&mut commander);
    assert!(result.is_none());
    assert!(commander.status.contains("modes"), "status: {}", commander.status);
}

#[test]
fn jump_source_no_cursor_in_groupfiles_sets_status() {
    let mut commander = commander("/a", "/b");
    commander.panels[0].view = PanelView::GroupFiles;
    commander.panels[0].list.select(None);
    commander.active = 0;
    let result = jump_source(&mut commander);
    assert!(result.is_none());
    assert!(
        commander.status.contains("No file under the cursor"),
        "status: {}",
        commander.status
    );
}

#[test]
fn jump_source_returns_file_and_parent_from_watch_cache() {
    let mut commander = commander("/a", "/b");
    commander.panels[0].view = PanelView::GroupFiles;
    commander.panels[0].list.select(Some(0));
    commander.active = 0;
    let mut entry = WatchEntry::default();
    entry.result = Some(WatchResult::FileGroup(
        DuplicateGroup {
            id: 0,
            size_bytes: 100,
            hash: "abc".to_string(),
            files: vec![FileEntry {
                path: path("/tmp/dir/foo.bin"),
                size: 100,
                device: 1,
                inode: 1,
                is_keeper: false,
                action: None,
            }],
        },
        Some(GroupClaim {
            reclaim: ReclaimEstimate::exact(100),
            links: GroupLinks { observed: 1, total: LinkCount::Known(1) },
        }),
    ));
    commander.watch_cache = vec![entry, WatchEntry::default()];
    let (file, parent) = jump_source(&mut commander).expect("the file should be found");
    assert!(file.same(&path("/tmp/dir/foo.bin")));
    assert!(parent.same(&path("/tmp/dir")));
}

fn pending(panel: usize, generation: u64) -> Option<PendingJump> {
    Some(PendingJump { panel, generation, file: path("/tmp/dir/foo.bin") })
}

#[test]
fn check_jump_landed_clears_pending_when_file_at_cursor() {
    let mut commander = commander("/a", "/b");
    commander.panels[0].entries = vec![entry_of("/tmp/dir/foo.bin", EntryKind::File)];
    commander.panels[0].list.select(Some(0));
    commander.pending_jump = pending(0, 1);
    let status_before = commander.status.clone();
    check_jump_landed(&mut commander, 0, 1);
    assert!(commander.pending_jump.is_none(), "pending reset");
    assert_eq!(
        commander.status, status_before,
        "status does not change on a hit"
    );
}

#[test]
fn check_jump_landed_sets_status_when_file_missing() {
    let mut commander = commander("/a", "/b");
    commander.panels[0].entries = vec![entry_of("/tmp/dir/other.bin", EntryKind::File)];
    commander.panels[0].list.select(Some(0));
    commander.pending_jump = pending(0, 1);
    check_jump_landed(&mut commander, 0, 1);
    assert!(commander.pending_jump.is_none(), "pending reset");
    assert!(commander.status.contains("not found"), "status: {}", commander.status);
    assert!(
        commander.status.contains("foo.bin"),
        "file name in status: {}",
        commander.status
    );
}

#[test]
fn check_jump_landed_drops_stale_silently() {
    let mut commander = commander("/a", "/b");
    commander.pending_jump = pending(0, 1);
    let status_before = commander.status.clone();
    check_jump_landed(&mut commander, 0, 2);
    assert!(commander.pending_jump.is_none(), "pending reset");
    assert_eq!(
        commander.status, status_before,
        "status does not change on stale"
    );
}

#[test]
fn check_jump_landed_keeps_pending_for_other_panel() {
    let mut commander = commander("/a", "/b");
    commander.pending_jump = pending(1, 1);
    check_jump_landed(&mut commander, 0, 1);
    assert!(
        commander.pending_jump.is_some(),
        "we do not touch pending for another panel"
    );
}

// ------------------------------------------------------------------------------------------
// Clicks.
// ------------------------------------------------------------------------------------------
fn summaries() -> Vec<GroupSummary> {
    [
        ReclaimEstimate::exact(4096),
        ReclaimEstimate::upper_bound(9 * 1024 * 1024),
        ReclaimEstimate::unknown(),
    ]
    .into_iter()
    .enumerate()
    .map(|(rank, reclaim)| GroupSummary {
        rank: rank as i64,
        hash: format!("h{rank}"),
        file_count: 3,
        size_bytes: 4096,
        object_count: 2,
        reclaim,
    })
    .collect()
}

#[test]
fn every_line_of_a_group_entry_hits_the_same_entry() {
    let mut app = test_app();
    app.commander.panels[0].view = PanelView::GroupList;
    app.commander.panels[0].list.select(Some(0));
    app.commander.group_summaries = summaries();
    app.commander.group_ids =
        (0..3).map(|rank| GroupId { scan_id: 1, rank, generation: 1 }).collect();
    let at = regions(Rect { x: 0, y: 0, width: 80, height: 24 });
    let rects = panel_rects(at.panels, visible_panel_count(&app.commander, 80));
    let panel = rects[0];
    let rows = group_rows(panel.width) as usize;
    assert_eq!(rows, 3, "40 columns wraps the claim onto a second line");

    for entry in 0..app.commander.group_summaries.len() {
        for line in 0..rows {
            let y = panel.y + 1 + (entry * rows + line) as u16;
            assert_eq!(
                panel_hit(&app, &at, &rects, panel.x + 2, y),
                Some((0, Some(entry))),
                "line {line} of entry {entry} must hit entry {entry}"
            );
        }
    }

    let past = panel.y + 1 + (app.commander.group_summaries.len() * rows) as u16;
    assert_eq!(
        panel_hit(&app, &at, &rects, panel.x + 2, past),
        Some((0, None)),
        "a click past the last entry selects nothing"
    );
}

// ------------------------------------------------------------------------------------------
// Moves.
// ------------------------------------------------------------------------------------------
fn shown(found: Option<FilePath>) -> Option<String> {
    found.map(|at| at.display())
}

fn named(dir: &str, name: &[u8]) -> FilePath {
    path(dir).child(&name.to_vec())
}

/// Duplicate names are numbered, keep their extension, and keep bytes that are no UTF-8.
#[test]
fn duplicate_names_are_numbered_and_keep_their_bytes() {
    let dir = path("/dest");
    let free = |_: &FilePath| false;
    assert_eq!(
        shown(dup_dest(&dir, &path("/somewhere/photo.jpg"), free)),
        Some("/dest/photo.dup1.jpg".to_string())
    );
    let first_taken = |at: &FilePath| at.display() == "/dest/photo.dup1.jpg";
    assert_eq!(
        shown(dup_dest(&dir, &path("/somewhere/photo.jpg"), first_taken)),
        Some("/dest/photo.dup2.jpg".to_string())
    );
    assert_eq!(
        shown(dup_dest(&dir, &path("/s/data"), free)),
        Some("/dest/data.dup1".to_string())
    );
    for (src, expected) in [
        (&b"\x80.bin"[..], &b"\x80.dup1.bin"[..]),
        (&b"photo.\xff"[..], &b"photo.dup1.\xff"[..]),
        (&b"\x80"[..], &b"\x80.dup1"[..]),
        (&b"\xff.bin"[..], &b"\xff.dup1.bin"[..]),
    ] {
        let at = dup_dest(&dir, &named("/somewhere", src), free).unwrap();
        assert!(at.same(&named("/dest", expected)), "{expected:?}");
        assert!(dup_candidate(&dir, &named("/somewhere", src), 1).same(&at));
    }
}

#[test]
fn candidates_are_of_one_size_and_in_the_order_of_their_names() {
    let dir = path("/dest");
    let found = vec![
        (b"b.bin".to_vec(), Look::File(5)),
        (b"a.bin".to_vec(), Look::File(5)),
        (b"c.bin".to_vec(), Look::File(3)),
        (b"sub".to_vec(), Look::Other),
        (b"gone".to_vec(), Look::Gone),
    ];
    let got = same_size_files(&dir, &found, 5).expect("the directory reads");
    let names: Vec<String> = got.iter().map(|at| at.display()).collect();
    assert_eq!(names, ["/dest/a.bin", "/dest/b.bin"]);
    assert!(same_size_files(&dir, &found, 999).expect("the directory reads").is_empty());

    let refused = vec![(b"b.bin".to_vec(), Look::File(5)), (b"a.bin".to_vec(), Look::Refused)];
    assert!(
        matches!(same_size_files(&dir, &refused, 5), Err(1)),
        "a directory only partly read gives no answer"
    );
}

/// A tree in memory: what the batch asks is answered from it, and what it wants done is done.
struct Tree {
    dirs: Vec<String>,
    files: Vec<(String, u8, u64)>,
    unreadable: Vec<String>,
    stays: Vec<String>,
}

impl Tree {
    fn children(&self, dir: &str) -> Vec<String> {
        let prefix = format!("{dir}/");
        let mut out: Vec<String> = self
            .dirs
            .iter()
            .map(String::as_str)
            .chain(self.files.iter().map(|f| f.0.as_str()))
            .filter_map(|at| at.strip_prefix(&prefix))
            .filter(|rest| !rest.contains('/'))
            .map(str::to_string)
            .collect();
        // As a file system might hand them over: not in order.
        out.sort();
        out.reverse();
        out
    }

    fn rename(&mut self, from: &str, to: &str) {
        let prefix = format!("{from}/");
        for at in self.dirs.iter_mut().chain(self.files.iter_mut().map(|f| &mut f.0)) {
            if at == from {
                *at = to.to_string();
            } else if let Some(rest) = at.strip_prefix(&prefix) {
                *at = format!("{to}/{rest}");
            }
        }
    }

    fn has(&self, at: &str) -> bool {
        self.dirs.iter().any(|d| d == at) || self.files.iter().any(|f| f.0 == at)
    }

    fn reply(&mut self, wanted: &Wanted) -> Answer {
        match wanted {
            Wanted::Look(at) => {
                let at = at.display();
                Answer::Kind(if self.dirs.contains(&at) {
                    ItemKind::Dir
                } else {
                    match self.files.iter().find(|f| f.0 == at) {
                        Some(file) => ItemKind::File(file.2),
                        None => ItemKind::Missing,
                    }
                })
            }
            Wanted::IsDir(at) => Answer::IsDir(self.dirs.contains(&at.display())),
            Wanted::List(at) => {
                let at = at.display();
                if self.unreadable.contains(&at) {
                    return Answer::Listing(None);
                }
                let mut names: Vec<Option<Vec<u8>>> = self
                    .children(&at)
                    .into_iter()
                    .map(|name| Some(name.into_bytes()))
                    .collect();
                if self.unreadable.contains(&format!("{at}/?")) {
                    names.push(None);
                }
                Answer::Listing(Some(names))
            }
            Wanted::Sizes(at) => {
                let at = at.display();
                if self.unreadable.contains(&at) {
                    return Answer::Sizes(None);
                }
                let found = self
                    .children(&at)
                    .into_iter()
                    .map(|name| {
                        let whole = format!("{at}/{name}");
                        let look = match self.files.iter().find(|f| f.0 == whole) {
                            Some(file) => Look::File(file.2),
                            None => Look::Other,
                        };
                        (name.into_bytes(), look)
                    })
                    .collect();
                Answer::Sizes(Some(found))
            }
            Wanted::Hash(at) => {
                let at = at.display();
                let hash = if self.unreadable.contains(&at) {
                    None
                } else {
                    self.files.iter().find(|f| f.0 == at).map(|f| [f.1; 32])
                };
                Answer::Hashed { hash, gone: false }
            }
            Wanted::MoveDir { src, dest_dir } => {
                let name = String::from_utf8(src.file_name().unwrap()).unwrap();
                let to = format!("{}/{name}", dest_dir.display());
                self.rename(&src.display(), &to);
                Answer::Moved(Some(path(&to)))
            }
            Wanted::MoveFile { src, dest_dir, duplicate, .. } => {
                let to = if *duplicate {
                    let present = |at: &FilePath| self.has(&at.display());
                    dup_dest(dest_dir, src, present).unwrap().display()
                } else {
                    let name = String::from_utf8(src.file_name().unwrap()).unwrap();
                    format!("{}/{name}", dest_dir.display())
                };
                self.rename(&src.display(), &to);
                Answer::Moved(Some(path(&to)))
            }
            Wanted::Remove(at) => {
                let at = at.display();
                let empty = self.children(&at).is_empty() && !self.stays.contains(&at);
                if empty {
                    self.dirs.retain(|d| *d != at);
                }
                Answer::Removed(empty)
            }
            Wanted::Nothing => unreachable!(),
        }
    }

    fn run(&mut self, sources: &[&str], dest: &str) -> MoveBatchOutcome {
        let sources: Vec<FilePath> = sources.iter().map(|at| path(at)).collect();
        let mut batch: Batch = run_batch(&sources, &path(dest));
        loop {
            let answer = match batch.wanted() {
                Wanted::Nothing => break,
                wanted => self.reply(&wanted),
            };
            batch.answer(answer);
        }
        batch.out
    }
}

fn tree(dirs: &[&str], files: &[(&str, u8, u64)]) -> Tree {
    Tree {
        dirs: dirs.iter().map(|d| d.to_string()).collect(),
        files: files.iter().map(|f| (f.0.to_string(), f.1, f.2)).collect(),
        unreadable: Vec::new(),
        stays: Vec::new(),
    }
}

#[test]
fn a_twin_in_the_destination_makes_a_duplicate() {
    let mut t = tree(&["/s", "/d"], &[("/s/photo.bin", 7, 10), ("/d/twin.bin", 7, 10)]);
    let out = t.run(&["/s/photo.bin"], "/d");
    assert_eq!((out.moved.len(), out.dups, out.failed), (1, 1, 0));
    assert!(t.has("/d/photo.dup1.bin"));
    assert_eq!(out.hashes.len(), 1, "the hash is known by then");
    assert!(out.to_hash.is_empty());
}

#[test]
fn a_file_without_candidates_is_not_hashed() {
    let mut t = tree(&["/s", "/d"], &[("/s/photo.bin", 7, 10), ("/d/other.bin", 7, 11)]);
    let out = t.run(&["/s/photo.bin"], "/d");
    assert_eq!((out.moved.len(), out.dups, out.failed), (1, 0, 0));
    assert!(t.has("/d/photo.bin"));
    assert_eq!(out.to_hash.len(), 1);
}

/// Whatever leaves the duplicate question open leaves the file where it is.
#[test]
fn an_open_question_moves_nothing() {
    for blind in ["/d", "/s/photo.bin", "/d/twin.bin"] {
        let mut t = tree(&["/s", "/d"], &[("/s/photo.bin", 7, 10), ("/d/twin.bin", 8, 10)]);
        t.unreadable.push(blind.to_string());
        let out = t.run(&["/s/photo.bin"], "/d");
        assert_eq!((out.moved.len(), out.dups, out.failed), (0, 0, 1), "{blind}");
        assert!(t.has("/s/photo.bin"), "{blind}");
    }
}

#[test]
fn an_unreadable_candidate_hides_no_twin() {
    let mut t = tree(
        &["/s", "/d"],
        &[("/s/photo.bin", 7, 10), ("/d/a.bin", 7, 10), ("/d/z.bin", 7, 10)],
    );
    t.unreadable.push("/d/a.bin".to_string());
    let out = t.run(&["/s/photo.bin"], "/d");
    assert_eq!((out.moved.len(), out.dups, out.failed), (1, 1, 0));
}

#[test]
fn a_directory_is_moved_whole_or_merged() {
    let mut t = tree(&["/s", "/s/x", "/d"], &[("/s/x/a.bin", 1, 1)]);
    let out = t.run(&["/s/x"], "/d");
    assert_eq!((out.moved.len(), out.failed), (1, 0));
    assert!(t.has("/d/x/a.bin"));

    let mut t = tree(
        &["/s", "/s/x", "/s/x/sub", "/d", "/d/x"],
        &[("/s/x/b.bin", 7, 5), ("/s/x/a.bin", 7, 5), ("/s/x/sub/c.bin", 3, 9)],
    );
    let out = t.run(&["/s/x"], "/d");
    assert_eq!((out.moved.len(), out.dups, out.failed), (3, 1, 0));
    assert!(t.has("/d/x/a.bin"), "the first by name keeps its own");
    assert!(t.has("/d/x/b.dup1.bin"), "the later twin is the duplicate");
    assert!(t.has("/d/x/sub/c.bin"));
    assert!(!t.has("/s/x"), "the emptied source is gone");
}

/// One loss is one failure: a child that failed is not counted again by its directory.
#[test]
fn a_merge_counts_every_loss_once() {
    let merged = || {
        tree(&["/s", "/s/x", "/d", "/d/x"], &[("/s/x/a.bin", 7, 5), ("/d/x/t.bin", 8, 5)])
    };
    let mut t = merged();
    t.unreadable.push("/s/x/a.bin".to_string());
    assert_eq!(t.run(&["/s/x"], "/d").failed, 1);

    let mut t = merged();
    t.unreadable.push("/s/x/?".to_string());
    t.stays.push("/s/x".to_string());
    let out = t.run(&["/s/x"], "/d");
    assert_eq!((out.moved.len(), out.failed), (1, 1), "the withheld child is counted");

    let mut t = merged();
    t.stays.push("/s/x".to_string());
    assert_eq!(t.run(&["/s/x"], "/d").failed, 1, "a source that stays is a loss of its own");

    let mut t = merged();
    t.unreadable.push("/s/x".to_string());
    let out = t.run(&["/s/x"], "/d");
    assert_eq!((out.moved.len(), out.failed), (0, 1));
    assert_eq!(tree(&["/d"], &[]).run(&["/nowhere"], "/d").failed, 1);
}

/// What a batch moved can be undone, last first.
#[test]
fn a_finished_move_enters_the_undo_log() {
    let mut app = test_app();
    let mut outcome = MoveBatchOutcome::default();
    outcome.moved = vec![(path("/a/x"), path("/b/x"))];
    outcome.to_hash = vec![path("/b/x")];
    outcome.reload = vec![(LoadTarget::Commander(0), None)];
    outcome.label = "panel 2".to_string();
    apply_move_outcome(&mut app, outcome);
    assert!(app.commander.status.contains('1'), "{}", app.commander.status);
    app.outbox.clear();
    undo_last_move(&mut app);
    match app.outbox.last() {
        Some(Effect::Restore(items)) => {
            assert_eq!(items.len(), 1);
            assert!(items[0].0.same(&path("/a/x")) && items[0].1.same(&path("/b/x")));
        }
        other => panic!("the move is to be undone: {other:?}"),
    }
}
