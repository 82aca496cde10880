//! The mouse, the layout under it, and the moves that wait for an answer.

use dedcom::actions::requested_marks;
use dedcom::answers::{dir_sized, panel_loaded};
use dedcom::app::{start_paths, App, AppMode, CommanderState, Dataset, Effect, Receiver};
use dedcom::batch::batch_died;
use dedcom::board::{finish_undo, launch_board_move, send_to_receiver};
use dedcom::board_screen::board_rows;
use dedcom::canvas::{ListState, Rect};
use dedcom::commander::{on_mouse, panel_hit, visible_panel_count};
use dedcom::entries::{EntryKind, Mark, PanelEntry};
use dedcom::keys::{MouseEvent, MouseKind};
use dedcom::layout::{board_regions, panel_rects, regions, split_three, split_two, Extent};
use dedcom::panel::{short_date, size_cell};
use dedcom::panels::Panel;
use dedcom::path::FilePath;
use dedcom::scan_diff::{category_len, DiffReport, FileChange, ScanDiffState};
use dedcom::scans::{
    coverage_answered, fetch_panel_dedup, maybe_auto_switch_scan, reload_dedup,
};
use dedcom::snapshots::{begin_safeguard, end_safeguard, ensure_source_snapshots};
use dedcom::state::{BoardState, LoadTarget, TriagePending};
use dedcom::triage::{launch_triage, perform_triage_move};
use dedcom::wizard::{split_foot, strips};

fn path(text: &str) -> FilePath {
    FilePath::from_text(text)
}

fn entry_of(at: &str, kind: EntryKind) -> PanelEntry {
    let at = path(at);
    PanelEntry {
        name: at.file_name().map(|n| String::from_utf8_lossy(&n).into_owned()).unwrap_or_default(),
        path: at,
        kind,
        size: 10,
        mtime: 0,
        device: 0,
        inode: 0,
    }
}

fn panel_with(cwd: &str, dirs: &[&str], files: &[&str]) -> Panel {
    let mut panel = Panel::empty(path(cwd));
    panel.loading = false;
    for name in dirs {
        panel.entries.push(entry_of(&format!("{cwd}/{name}"), EntryKind::Dir));
    }
    for name in files {
        panel.entries.push(entry_of(&format!("{cwd}/{name}"), EntryKind::File));
    }
    panel.list.select(Some(0));
    panel
}

fn test_app() -> App {
    let mut commander = CommanderState::new(
        vec![path("/a"), path("/b")],
        panel_with("/a", &["sub"], &["x", "y"]),
        panel_with("/b", &[], &["z", "w"]),
    );
    commander.term_width = 80;
    commander.term_height = 24;
    App {
        commander,
        mode: AppMode::Commander,
        read_only: false,
        reflink_safe: true,
        datasets: Vec::new(),
        zfs_warnings: 0,
        pending_marks: 0,
        auto_select: false,
        show_help: false,
        should_quit: false,
        results_from_sessions: false,
        db_path: path("/var/lib/dedcom/dedcom.db"),
        outbox: Vec::new(),
    }
}

fn mouse(kind: MouseKind, column: u16, row: u16) -> MouseEvent {
    MouseEvent { kind, column, row }
}

/// A point on an entry of a panel.
fn point_on(app: &App, panel: usize, entry: usize) -> (u16, u16) {
    let at = regions(Rect { x: 0, y: 0, width: 80, height: 24 });
    let rects = panel_rects(at.panels, visible_panel_count(&app.commander, 80));
    let x = rects[panel].x + 2;
    let y = (0..24).find(|y| panel_hit(app, &at, &rects, x, *y) == Some((panel, Some(entry))));
    (x, y.expect("the entry is on the screen"))
}

#[test]
fn a_click_selects_and_a_second_one_opens() {
    let mut app = test_app();
    let (x, y) = point_on(&app, 1, 1);
    on_mouse(&mut app, mouse(MouseKind::LeftDown, x, y), 1_000);
    assert_eq!(app.commander.active, 1);
    assert_eq!(app.commander.panels[1].cursor(), 1);
    assert_eq!(app.commander.last_click, Some((1_000, 1, 1)));

    let (x, y) = point_on(&app, 0, 0);
    on_mouse(&mut app, mouse(MouseKind::LeftDown, x, y), 1_100);
    assert_eq!(app.commander.active, 0, "another panel's entry is not a second click");
    assert!(app.outbox.is_empty());
    on_mouse(&mut app, mouse(MouseKind::LeftDown, x, y), 1_300);
    assert!(app.commander.last_click.is_none());
    assert!(
        app.outbox
            .iter()
            .any(|effect| matches!(effect, Effect::LoadPanel(request) if request.dir.same(&path("/a/sub")))),
        "{:?}",
        app.outbox
    );
}

#[test]
fn a_late_second_click_is_a_first_one() {
    let mut app = test_app();
    let (x, y) = point_on(&app, 0, 0);
    on_mouse(&mut app, mouse(MouseKind::LeftDown, x, y), 1_000);
    on_mouse(&mut app, mouse(MouseKind::LeftDown, x, y), 1_401);
    assert!(app.outbox.is_empty());
    assert_eq!(app.commander.last_click, Some((1_401, 0, 0)));
}

#[test]
fn the_wheel_moves_the_cursor_of_the_panel_under_it() {
    let mut app = test_app();
    let (x, y) = point_on(&app, 1, 0);
    on_mouse(&mut app, mouse(MouseKind::ScrollDown, x, y), 0);
    assert_eq!((app.commander.active, app.commander.panels[1].cursor()), (1, 1));
    on_mouse(&mut app, mouse(MouseKind::ScrollUp, x, y), 0);
    assert_eq!((app.commander.active, app.commander.panels[1].cursor()), (1, 0));
    on_mouse(&mut app, mouse(MouseKind::Other, x, y), 0);
    on_mouse(&mut app, mouse(MouseKind::ScrollDown, 0, 0), 0);
    assert_eq!(app.commander.panels[1].cursor(), 0, "the header has no cursor");
}

#[test]
fn the_key_row_is_clickable() {
    let mut app = test_app();
    let at = regions(Rect { x: 0, y: 0, width: 80, height: 24 });
    assert_eq!(at.fkeys, Rect { x: 0, y: 23, width: 80, height: 1 });
    on_mouse(&mut app, mouse(MouseKind::LeftDown, 0, 23), 0);
    assert!(app.show_help, "the first cell is F1");
}

fn with_board() -> App {
    let mut app = test_app();
    let mut board =
        BoardState::new(path("/src"), [path("/r1"), path("/r2"), path("/r3"), path("/r4")]);
    board.source = panel_with("/src", &["dir"], &["one", "two"]);
    board.receivers[1] = panel_with("/r2", &[], &["p", "q"]);
    app.commander.board = Some(board);
    app.commander.board_active = true;
    app
}

fn board(app: &App) -> &BoardState {
    app.commander.board.as_ref().expect("the Board is open")
}

#[test]
fn the_board_follows_the_mouse() {
    let mut app = with_board();
    let slots = board_regions(Rect { x: 0, y: 0, width: 80, height: 22 });
    assert_eq!(slots.center, Rect { x: 20, y: 0, width: 40, height: 22 });
    assert_eq!(slots.left_bot, Rect { x: 0, y: 11, width: 20, height: 11 });

    let (x, y) = (slots.left_bot.x + 2, slots.left_bot.y + 2);
    on_mouse(&mut app, mouse(MouseKind::LeftDown, x, y), 5);
    assert_eq!(board(&app).focus, 2);
    assert_eq!(board(&app).receivers[1].cursor(), 1);
    on_mouse(&mut app, mouse(MouseKind::ScrollDown, slots.center.x + 2, slots.center.y + 2), 5);
    assert_eq!((board(&app).focus, board(&app).source.cursor()), (0, 1));
    on_mouse(&mut app, mouse(MouseKind::LeftDown, slots.right_top.x + 2, 1), 5);
    assert_eq!(board(&app).focus, 3, "an empty panel takes the focus");
    let (x, y) = (slots.center.x + 2, slots.center.y + 1);
    on_mouse(&mut app, mouse(MouseKind::LeftDown, x, y), 6);
    on_mouse(&mut app, mouse(MouseKind::LeftDown, x, y), 7);
    assert!(
        app.outbox
            .iter()
            .any(|effect| matches!(effect, Effect::LoadPanel(request) if request.dir.same(&path("/src/dir")))),
        "{:?}",
        app.outbox
    );
}

#[test]
fn panels_and_board_share_out_every_width() {
    for width in 0..=240u16 {
        for count in 1..=4usize {
            let area = Rect { x: 3, y: 2, width, height: 7 };
            let rects = panel_rects(area, count);
            for (i, rect) in rects.iter().enumerate() {
                let edge = |k: usize| (2 * k * width as usize + count) / (2 * count);
                assert_eq!(rect.x as usize, 3 + edge(i), "panel {i} of {count} in {width}");
                assert_eq!(rect.width as usize, edge(i + 1) - edge(i));
                assert_eq!((rect.y, rect.height), (2, 7));
            }
        }
        let height = width / 3;
        let slots = board_regions(Rect { x: 1, y: 4, width, height });
        let (left, right, half) = ((width + 2) / 4, (3 * width + 2) / 4, (height + 1) / 2);
        let cut = |from: u16, to: u16, top: u16, bottom: u16| {
            Rect { x: 1 + from, y: 4 + top, width: to - from, height: bottom - top }
        };
        assert_eq!(slots.left_top, cut(0, left, 0, half), "{width}");
        assert_eq!(slots.left_bot, cut(0, left, half, height), "{width}");
        assert_eq!(slots.center, cut(left, right, 0, height), "{width}");
        assert_eq!(slots.right_top, cut(right, width, 0, half), "{width}");
        assert_eq!(slots.right_bot, cut(right, width, half, height), "{width}");
    }
}

#[test]
fn many_panels_share_out_the_width() {
    for (count, widths) in [
        (5usize, vec![0u16, 1, 37, 99, 233, 1001, 65_000]),
        (6, vec![37, 99, 233, 1001]),
        (7, vec![37, 100, 233, 1001]),
        (9, vec![99, 235, 65_001]),
        (12, vec![90, 233]),
        (16, vec![104, 233]),
        (31, vec![233]),
        (32, vec![1000]),
    ] {
        for width in widths {
            let rects = panel_rects(Rect { x: 5, y: 0, width, height: 3 }, count);
            let edge = |k: usize| (2 * k * width as usize + count) / (2 * count);
            assert_eq!(rects.len(), count);
            for (i, rect) in rects.iter().enumerate() {
                assert_eq!(rect.x as usize, 5 + edge(i), "panel {i} of {count} in {width}");
                assert_eq!(rect.width as usize, edge(i + 1) - edge(i));
            }
        }
    }
}

#[test]
fn a_low_screen_keeps_its_status() {
    for x in 0..60u16 {
        for y in [0u16, 3, 100] {
            let row = |top: u16, rows: u16| Rect { x, y: y + top, width: 90, height: rows };
            for height in 0..5u16 {
                let at = regions(Rect { x, y, width: 90, height });
                let (status, fkeys) = (height.min(1), height.saturating_sub(1).min(1));
                let header = height.saturating_sub(2);
                assert_eq!(at.header, row(0, header), "{height}");
                assert_eq!(at.panels, row(header, 0), "{height}");
                assert_eq!(at.status, row(header, status), "{height}");
                assert_eq!(at.fkeys, row(header + status, fkeys), "{height}");
            }
            for height in 0..2u16 {
                let at = board_rows(Rect { x, y, width: 90, height });
                assert_eq!(at.top, row(0, 0));
                assert_eq!(at.middle, row(0, height));
                assert_eq!(at.bottom, row(height, 0));
            }
        }
    }
}

#[test]
fn crowded_strips_leave_no_gap() {
    let layouts = [
        vec![Extent::Length(3), Extent::Length(5), Extent::Min(3), Extent::Length(4)],
        vec![
            Extent::Length(1),
            Extent::Length(1),
            Extent::Length(1),
            Extent::Length(1),
            Extent::Min(0),
            Extent::Length(1),
        ],
        vec![
            Extent::Length(1),
            Extent::Length(1),
            Extent::Length(1),
            Extent::Min(0),
            Extent::Length(1),
        ],
        vec![Extent::Length(3), Extent::Min(3), Extent::Length(4)],
        vec![Extent::Length(5), Extent::Min(3), Extent::Length(4)],
        vec![Extent::Length(3), Extent::Min(3), Extent::Length(3)],
        vec![Extent::Length(4), Extent::Min(0), Extent::Length(4)],
    ];
    for x in 0..20u16 {
        for height in 0..15u16 {
            for extents in &layouts {
                let rows = strips(Rect { x, y: 7, width: 11, height }, extents);
                let mut at = 7;
                for (row, extent) in rows.iter().zip(extents) {
                    assert_eq!((row.x, row.width, row.y), (x, 11, at), "{height} {extents:?}");
                    at += row.height;
                    match extent {
                        Extent::Length(n) => assert!(row.height <= *n, "{height} {extents:?}"),
                        Extent::Min(n) => {
                            assert!(row.height >= (*n).min(height), "{height} {extents:?}")
                        }
                        Extent::Ratio(_, _) => unreachable!(),
                    }
                }
                assert_eq!(at, 7 + height, "{extents:?}");
            }
        }
    }
}

#[test]
fn the_screen_is_cut_into_its_rows() {
    for height in 5..=60u16 {
        let at = regions(Rect { x: 2, y: 1, width: 90, height });
        let row = |top: u16, rows: u16| Rect { x: 2, y: 1 + top, width: 90, height: rows };
        assert_eq!(at.header, row(0, 3));
        assert_eq!(at.panels, row(3, height - 5));
        assert_eq!(at.status, row(height - 2, 1));
        assert_eq!(at.fkeys, row(height - 1, 1));
    }
}

#[test]
fn what_moves_is_what_was_safeguarded() {
    let mut app = test_app();
    app.commander.triage = Some(TriagePending { sources: vec![path("/a/x")], source_panel: 0 });
    perform_triage_move(&mut app, 1);
    let asked = match app.outbox.last() {
        Some(Effect::Safeguard { sources, receiver: Receiver::Panel(1) }) => sources.len(),
        _ => panic!("no safeguard"),
    };
    app.commander.panels[0].entries.clear();
    app.commander.panels[1].cwd = path("/elsewhere");
    launch_triage(&mut app, 1, None);
    match app.outbox.last() {
        Some(Effect::Move(request)) => {
            assert_eq!(request.sources.len(), asked);
            assert_eq!(request.sources[0].display(), "/a/x");
            assert_eq!(request.dest_dir.display(), "/elsewhere");
        }
        _ => panic!("no move"),
    }
}

#[test]
fn a_failed_safeguard_launches_nothing() {
    let mut app = test_app();
    app.commander.triage = Some(TriagePending { sources: vec![path("/a/x")], source_panel: 0 });
    launch_triage(&mut app, 1, Some("no snapshot".to_string()));
    assert_eq!(app.commander.status, "no snapshot");
    assert!(app.commander.triage.is_some() && app.outbox.is_empty());

    launch_triage(&mut app, 1, None);
    assert!(app.commander.triage.is_none());
    match app.outbox.last() {
        Some(Effect::Move(request)) => {
            assert_eq!(request.sources.len(), 1);
            assert!(request.sources[0].same(&path("/a/x")));
            assert!(request.dest_dir.same(&path("/b")));
            assert_eq!(request.label, "panel 2");
        }
        other => panic!("a move was expected: {other:?}"),
    }

    let mut app = with_board();
    send_to_receiver(&mut app, 1);
    assert!(board(&app).sending.is_some());
    launch_board_move(&mut app, 1, Some("no snapshot".to_string()));
    assert_eq!(app.commander.status, "no snapshot");
    assert!(board(&app).sending.is_none());
    assert_eq!(app.outbox.len(), 1, "only the safeguard was asked for");
    launch_board_move(&mut app, 1, None);
    assert_eq!(app.outbox.len(), 1, "nothing waits any more");
}

/// What moves is what was safeguarded, whatever is focused when the answer comes.
#[test]
fn the_board_moves_the_batch_it_asked_for() {
    let mut app = with_board();
    send_to_receiver(&mut app, 1);
    match app.outbox.pop() {
        Some(Effect::Safeguard { sources, receiver: Receiver::Board(1) }) => {
            assert_eq!(sources.len(), 1);
            assert!(sources[0].same(&path("/src/dir")));
        }
        other => panic!("a safeguard was expected: {other:?}"),
    }
    let opened = app.commander.board.as_mut().expect("the Board is open");
    opened.focus = 2;
    opened.source.list.select(Some(2));
    launch_board_move(&mut app, 1, None);
    match app.outbox.last() {
        Some(Effect::Move(request)) => {
            assert_eq!(request.sources.len(), 1);
            assert!(request.sources[0].same(&path("/src/dir")));
            assert!(request.dest_dir.same(&path("/r2")));
            assert_eq!(request.label, "receiver 2");
            assert_eq!(request.reload[0].0, LoadTarget::BoardSource);
        }
        other => panic!("a move was expected: {other:?}"),
    }
}

/// A run asks for each dataset once, in order, and for nothing after a failure.
#[test]
fn a_run_of_snapshots_goes_step_by_step() {
    let mut app = test_app();
    app.datasets = vec![
        Dataset { name: "tank/a".to_string(), device_id: Some(1) },
        Dataset { name: "tank/b".to_string(), device_id: Some(2) },
        Dataset { name: "tank/c".to_string(), device_id: Some(3) },
    ];
    let devices = vec![Some(2), Some(1), Some(2), Some(3)];
    let mut run = begin_safeguard(&mut app, &devices);
    assert_eq!(run.wanted().map(String::as_str), Some("tank/b"));
    run.answer(Ok("tank/b@x".to_string()));
    assert_eq!(run.wanted().map(String::as_str), Some("tank/a"));
    run.answer(Err("busy".to_string()));
    assert!(run.wanted().is_none());
    run.answer(Ok("tank/a@x".to_string()));
    assert_eq!(
        end_safeguard(&mut app, run).as_deref(),
        Some("Snapshot tank/a not created (busy) — move cancelled")
    );
    assert!(app.commander.snapshotted.contains(&"tank/b".to_string()));
    assert!(!app.commander.snapshotted.contains(&"tank/a".to_string()));

    let mut run = begin_safeguard(&mut app, &devices);
    let mut asked = Vec::new();
    while let Some(dataset) = run.wanted().cloned() {
        asked.push(dataset);
        run.answer(Ok(String::new()));
    }
    assert_eq!(asked, ["tank/a", "tank/c"]);
    assert!(end_safeguard(&mut app, run).is_none());
}

/// An undecided directory is asked for once, and its answer is remembered.
#[test]
fn the_covering_scan_is_asked_for_once() {
    let mut app = test_app();
    let asked = |app: &App| {
        app.outbox.iter().filter(|effect| matches!(effect, Effect::CoveringScan(_))).count()
    };
    maybe_auto_switch_scan(&mut app);
    maybe_auto_switch_scan(&mut app);
    assert_eq!(asked(&app), 1);
    coverage_answered(&mut app, &path("/a"), Some(7));
    assert!(app.outbox.iter().any(|effect| matches!(effect, Effect::LoadDedup(7))));
    app.commander.dedup_scan_id = Some(7);
    maybe_auto_switch_scan(&mut app);
    assert_eq!(asked(&app), 1);
    reload_dedup(&mut app);
    assert_eq!(asked(&app), 2, "a refresh asks anew");
}

/// A listing goes to the panel it was read for, and a stale one nowhere.
#[test]
fn a_listing_finds_its_panel() {
    let mut app = with_board();
    app.commander.dedup_scan_id = Some(1);
    let listing = || vec![entry_of("/a/new", EntryKind::File)];
    panel_loaded(&mut app, LoadTarget::Commander(0), 0, listing(), None);
    assert_eq!(app.commander.panels[0].entries.len(), 1);
    assert!(matches!(app.outbox.last(), Some(Effect::PanelData { .. })));
    panel_loaded(&mut app, LoadTarget::Commander(1), 9, listing(), None);
    assert_eq!(app.commander.panels[1].entries.len(), 2, "a stale listing is dropped");
    panel_loaded(&mut app, LoadTarget::BoardReceiver(3), 0, listing(), None);
    assert_eq!(board(&app).receivers[3].entries.len(), 1);
    panel_loaded(&mut app, LoadTarget::BoardSource, 0, listing(), None);
    assert_eq!(board(&app).source.entries.len(), 1);
    panel_loaded(&mut app, LoadTarget::Commander(8), 0, listing(), None);

    dir_sized(&mut app, path("/a/sub"), 12);
    assert_eq!(app.commander.dir_size_cache.get(&path("/a/sub")), Some(&12));
}

/// Paths are compared by their components: a leading dot is one, an inner one is none.
#[test]
fn a_leading_dot_is_a_component() {
    assert!(!path("./a").same(&path("a")));
    assert!(path("a/./b//c/").same(&path("a/b/c")));
    assert!(path("/./tank").same(&path("/tank")));
    assert_eq!(path("./a").display(), "./a");
    assert_eq!(path(".").file_name(), None);
    assert!(path("./a").parent().is_some_and(|parent| parent.same(&path("."))));
    assert!(path("./z").before(&path("../a")) && path("../z").before(&path("-a")));
}

#[test]
fn a_path_is_shown_as_it_was_spelled() {
    for text in ["/tank/", "/tank//x", "/a/./b", "./a", "tank/", "/", "", "//"] {
        assert_eq!(path(text).display(), text);
        assert_eq!(path(text).display_safely(), text);
    }
    let panel = Panel::empty(path("/tank//data/"));
    assert_eq!(panel.cwd.display(), "/tank//data/");
    assert_eq!(path("/tank/").child(&b"x".to_vec()).display(), "/tank/x");
    assert_eq!(path("/tank//x").child(&b"y".to_vec()).display(), "/tank//x/y");
    assert_eq!(path("/tank//x/y").parent().unwrap().display(), "/tank//x");
    assert_eq!(path("/tank/x").parent().unwrap().display(), "/tank");
}

/// Spelling and comparison agree with the paths of the standard library.
#[test]
fn paths_agree_with_those_of_the_standard_library() {
    let spelled = [
        "", "/", "//", "///", ".", "..", "./", "/.", "/..", "a", "a/", "a//", "./a", "a/.", "/a",
        "//a", "/./a", "/a/", "/a//", "/a/.", "/a/./", "/a//b", "/a/./b", "/a/../b", "a/./b//c/",
        "a/b/c", "./././a", "a/..", "../a", "../../", "/a.", "/.a/", "/a//././/b/./", ".a", "a.",
        "/a b//c", "-", "/-",
    ];
    for text in spelled {
        let (ours, theirs) = (path(text), std::path::Path::new(text));
        assert_eq!(
            ours.parent().map(|up| up.display()),
            theirs.parent().map(|up| up.display().to_string()),
            "{text:?}"
        );
        assert_eq!(
            ours.child(&b"x".to_vec()).display(),
            theirs.join("x").display().to_string(),
            "{text:?}"
        );
        assert_eq!(
            ours.file_name().map(|name| String::from_utf8(name).unwrap()),
            theirs.file_name().map(|name| name.to_string_lossy().into_owned()),
            "{text:?}"
        );
        for other in spelled {
            let them = std::path::Path::new(other);
            assert_eq!(ours.same(&path(other)), theirs == them, "{text:?} {other:?}");
            assert_eq!(ours.before(&path(other)), theirs < them, "{text:?} {other:?}");
            assert_eq!(
                ours.starts_with(&path(other)),
                theirs.starts_with(them),
                "{text:?} {other:?}"
            );
        }
    }
}

#[test]
fn one_mark_for_all_spellings_of_a_path() {
    let mut panel = Panel::empty(path("/tank"));
    panel.marks.insert(path("/tank/x"), Mark::Selected);
    panel.marks.insert(path("/tank//x/"), Mark::Delete);
    assert_eq!(panel.marks.rows.len(), 1);
    assert_eq!(panel.mark_on(&path("/tank/./x")), Some(Mark::Delete));
    let asked = requested_marks(&vec![panel]);
    assert_eq!(asked.len(), 1);
    assert_eq!(asked[0].path.display(), "/tank/x");
}

#[test]
fn an_undo_is_told_where_it_was_asked_for() {
    let items = vec![(path("/a/x"), path("/b/x")), (path("/a/y"), path("/b/y"))];
    let reloads = |app: &App| {
        app.outbox.iter().filter(|effect| matches!(effect, Effect::LoadPanel(_))).count()
    };
    let mut app = test_app();
    finish_undo(&mut app, &items, 0);
    assert_eq!(reloads(&app), 2);
    let all = app.commander.status.clone();
    finish_undo(&mut app, &items, 1);
    assert_ne!(app.commander.status, all);

    let mut app = with_board();
    finish_undo(&mut app, &items, 0);
    assert_eq!(app.commander.status, "Undone: 2 restored");
    assert_eq!(reloads(&app), 5);
    finish_undo(&mut app, &items, 1);
    assert_eq!(app.commander.status, "Partially undone: 1 restored, 1 errors");
}

#[test]
fn a_dead_batch_lost_every_item() {
    let outcome = batch_died(3, "the move worker failed".to_string());
    assert_eq!(outcome.failed, 3);
    assert_eq!(outcome.error.as_deref(), Some("the move worker failed"));
    assert!(outcome.moved.is_empty() && outcome.to_hash.is_empty());
}

#[test]
fn a_dataset_is_snapshotted_once() {
    let mut app = test_app();
    app.datasets = vec![
        Dataset { name: "tank/a".to_string(), device_id: Some(1) },
        Dataset { name: "tank/b".to_string(), device_id: Some(2) },
    ];
    let devices = vec![Some(1), None, Some(2), Some(1), Some(9)];
    let refused = ensure_source_snapshots(&mut app, &devices, |name: &str| {
        if name == "tank/b" {
            Err("busy".to_string())
        } else {
            Ok(name.to_string())
        }
    });
    assert!(refused.is_err());
    assert!(app.commander.snapshotted.contains(&"tank/a".to_string()));
    assert!(!app.commander.snapshotted.contains(&"tank/b".to_string()));
    let made = ensure_source_snapshots(&mut app, &devices, |name: &str| {
        assert_eq!(name, "tank/b", "what has its snapshot is not asked for again");
        Ok(name.to_string())
    });
    assert!(made.is_ok());
    assert!(app.commander.snapshotted.contains(&"tank/b".to_string()));
}

#[test]
fn a_panel_asks_for_its_dedup_data_once_there_is_a_scan() {
    let mut app = test_app();
    fetch_panel_dedup(&mut app, LoadTarget::Commander(0));
    assert!(app.outbox.is_empty(), "without a scan nothing is known");
    app.commander.dedup_scan_id = Some(4);
    fetch_panel_dedup(&mut app, LoadTarget::Commander(7));
    assert!(app.outbox.is_empty(), "there is no such panel");
    fetch_panel_dedup(&mut app, LoadTarget::Commander(0));
    match app.outbox.last() {
        Some(Effect::PanelData { cwd, files, dirs, .. }) => {
            assert!(cwd.same(&path("/a")));
            assert_eq!((files.len(), dirs.len()), (2, 1));
        }
        other => panic!("a question was expected: {other:?}"),
    }
    assert!(app.commander.dedup.pending.contains(&path("/a")));
}

#[test]
fn the_panels_start_where_they_are_told_to() {
    let at = |dirs: &[&str]| {
        let (first, second) = start_paths(&dirs.iter().map(|dir| path(dir)).collect());
        (first.display(), second.display())
    };
    assert_eq!(at(&[]), ("/".to_string(), "/".to_string()));
    assert_eq!(at(&["/x"]), ("/x".to_string(), "/x".to_string()));
    assert_eq!(at(&["/x", "/y", "/z"]), ("/x".to_string(), "/y".to_string()));
}

#[test]
fn a_category_is_as_long_as_its_list() {
    let mut state =
        ScanDiffState { report: None, loading: false, category: 0, list: ListState::new() };
    assert_eq!(category_len(&state), 0);
    state.report = Some(DiffReport {
        old_scan_id: 1,
        new_scan_id: 2,
        root: path("/"),
        unchanged_count: 0,
        new_dup_candidates: Vec::new(),
        moved_inode: Vec::new(),
        moved_hash: Vec::new(),
        modified: Vec::new(),
        deleted: vec![
            FileChange::Deleted { path: path("/a") },
            FileChange::Deleted { path: path("/b") },
        ],
        new: Vec::new(),
    });
    let lengths: Vec<usize> = (0..6)
        .map(|category| {
            state.category = category;
            category_len(&state)
        })
        .collect();
    assert_eq!(lengths, [0, 0, 0, 0, 2, 0]);
}

#[test]
fn every_screen_is_cut_into_its_strips() {
    for height in 0..=70u16 {
        let area = Rect { x: 4, y: 3, width: 60, height };
        let row = |top: u16, rows: u16| Rect { x: 4, y: 3 + top, width: 60, height: rows };
        for (top, least, bottom) in [(5, 3, 4), (3, 3, 4), (3, 3, 3), (4, 0, 4)] {
            let at = split_three(area, top, least, bottom);
            if height >= top + least + bottom {
                assert_eq!(at.top, row(0, top));
                assert_eq!(at.middle, row(top, height - top - bottom));
                assert_eq!(at.bottom, row(height - bottom, bottom));
            } else {
                let (above, middle) = (at.top.height, least.min(height));
                assert!(above <= top && at.bottom.height <= bottom);
                assert_eq!(at.top, row(0, above));
                assert_eq!(at.middle, row(above, middle));
                assert_eq!(at.bottom, row(above + middle, height - above - middle));
            }
        }
        let foot = height.min(6);
        let at = split_foot(area, 6);
        assert_eq!((at.body, at.foot), (row(0, height - foot), row(height - foot, foot)));
        let extents =
            vec![Extent::Length(3), Extent::Length(5), Extent::Min(3), Extent::Length(4)];
        if height >= 15 {
            assert_eq!(
                strips(area, &extents),
                [row(0, 3), row(3, 5), row(8, height - 12), row(height - 4, 4)]
            );
        }
    }
    for width in 0..=200u16 {
        let at = split_two(Rect { x: 1, y: 2, width, height: 9 }, 52);
        let left = width.min(52);
        assert_eq!(at.left, Rect { x: 1, y: 2, width: left, height: 9 });
        assert_eq!(at.right, Rect { x: 1 + left, y: 2, width: width - left, height: 9 });
    }
}

#[test]
fn sizes_fit_their_column() {
    for shift in 0..=53u32 {
        for bytes in [(1u64 << shift) - 1, (1u64 << shift).min((1 << 53) - 1)] {
            assert_eq!(size_cell(bytes).chars().count(), 10, "{bytes}");
        }
    }
    assert_eq!(size_cell((1 << 50) - 1), "1024.0 TiB");
    assert_eq!(size_cell((1 << 53) - 1), "8192.0 TiB");
    assert_eq!(size_cell(u64::MAX).chars().count(), 14);
}

#[test]
fn dates_are_written_in_numbers() {
    for mtime in [0, 86_400 * 365, 1_700_000_000, -1, 253_402_300_799, i64::MAX, i64::MIN] {
        let date = short_date(mtime);
        assert!(
            date.chars().all(|c| c.is_ascii_digit() || c == '-' || c == '+'),
            "{mtime}: {date}"
        );
    }
    assert!(short_date(1_700_000_000).starts_with("2023-11-1"));
    for mtime in [-62_167_132_800, -1, 0, 951_782_400, 1_700_000_000, 253_402_214_399] {
        let date: Vec<char> = short_date(mtime).chars().collect();
        assert_eq!(date.len(), 10, "{mtime}");
        assert!(date[4] == '-' && date[7] == '-', "{mtime}");
    }
    assert_eq!(short_date(i64::MAX), "");
}
