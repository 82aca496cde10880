//! The screens as a terminal shows them: each is drawn into a buffer and read back.

use dedcom::answers::{probe_answered, sessions_ready, watch_answered, WatchAnswer};
use dedcom::app::{App, AppMode, CommanderState, Effect, Screen};
use dedcom::assoc::Assoc;
use dedcom::browser::{
    group_rows, page_step, render_dir_group_list, render_group_files, render_group_list,
    BrowserState, BrowserTab,
};
use dedcom::canvas::{Canvas, Color, Frame, Line, ListState, Rect, Row, Style, Widget};
use dedcom::commander::visible_panel_count;
use dedcom::commander_screen;
use dedcom::dedup::{DirTrust, GroupId};
use dedcom::entries::{EntryKind, Mark, PanelEntry, PanelView};
use dedcom::layout::{max_panels, panel_rects, regions, MIN_PANEL_WIDTH};
use dedcom::marks::{mark_cursor, mark_saved};
use dedcom::model::{
    ActionKind, ActionPlan, DirGroup, DuplicateGroup, FileEntry, GroupSummary, PathStyle,
    PlanSummary, PlanWarning, PlannedAction, ResumeInfo, ScanStatus,
};
use dedcom::overlay::render_confirm;
use dedcom::panels::Panel;
use dedcom::path::FilePath;
use dedcom::progress::{
    render_applying, render_scan, ApplyPhase, ApplyProgress, RevalidationMode, ScanPhase,
    ScanProgress, WalkStage,
};
use dedcom::reclaim::{GroupClaim, GroupLinks, LinkCount, ReclaimEstimate};
use dedcom::review::{self, ReviewState};
use dedcom::scan_diff::{self, categories, DiffReport, FileChange, ScanDiffState};
use dedcom::sessions::{self, SessionsState};
use dedcom::setup::{
    render_config, render_picker, Capabilities, FolderPicker, Preset, Root, ScanConfig,
};
use dedcom::shell::{self, ConfirmAction, Disclaimer, Holder, Overlays, Wizard};
use dedcom::state::{
    ConfirmScroll, ConfirmTab, OpenDirGroup, Overlay, PlanDigest, WatchEmpty, WatchEntry, WatchKey,
    WatchResult, WatchSubject, WatchUnavailable,
};
use dedcom::summary::{
    self, purge_commands, release_heading, ActionOutcome, BatchResult, ObjectRealization,
};
use dedcom::text::{ellipsize_left, terminal};
use dedcom::units::reclaim_cell;
use dedcom::watch::resolve_watch_groups;
use ratatui::backend::TestBackend;
use ratatui::buffer::Buffer;
use ratatui::Terminal;

// ------------------------------------------------------------------------------------------
// From a canvas to the cells of a terminal.
// ------------------------------------------------------------------------------------------
fn color_of(color: Color) -> ratatui::style::Color {
    match color {
        Color::Reset => ratatui::style::Color::Reset,
        Color::Black => ratatui::style::Color::Black,
        Color::Red => ratatui::style::Color::Red,
        Color::Green => ratatui::style::Color::Green,
        Color::Yellow => ratatui::style::Color::Yellow,
        Color::Blue => ratatui::style::Color::Blue,
        Color::Magenta => ratatui::style::Color::Magenta,
        Color::Cyan => ratatui::style::Color::Cyan,
        Color::Gray => ratatui::style::Color::Gray,
        Color::DarkGray => ratatui::style::Color::DarkGray,
        Color::LightGreen => ratatui::style::Color::LightGreen,
        Color::LightBlue => ratatui::style::Color::LightBlue,
        Color::White => ratatui::style::Color::White,
        Color::Rgb(r, g, b) => ratatui::style::Color::Rgb(r, g, b),
    }
}

fn style_of(style: Style) -> ratatui::style::Style {
    let mut out = ratatui::style::Style::new();
    if let Some(fg) = style.fg {
        out = out.fg(color_of(fg));
    }
    if let Some(bg) = style.bg {
        out = out.bg(color_of(bg));
    }
    if style.bold {
        out = out.add_modifier(ratatui::style::Modifier::BOLD);
    }
    if style.dim {
        out = out.add_modifier(ratatui::style::Modifier::DIM);
    }
    if style.reversed {
        out = out.add_modifier(ratatui::style::Modifier::REVERSED);
    }
    out
}

fn line_of(line: &Line) -> ratatui::text::Line<'static> {
    let spans: Vec<ratatui::text::Span<'static>> = line
        .spans
        .iter()
        .map(|span| ratatui::text::Span::styled(span.text.clone(), style_of(span.style)))
        .collect();
    ratatui::text::Line::from(spans).style(style_of(line.style))
}

fn text_of(lines: &[Line]) -> ratatui::text::Text<'static> {
    ratatui::text::Text::from(lines.iter().map(line_of).collect::<Vec<_>>())
}

fn block_of(frame: &Frame) -> ratatui::widgets::Block<'static> {
    ratatui::widgets::Block::default()
        .borders(ratatui::widgets::Borders::ALL)
        .title(line_of(&frame.title))
        .border_style(style_of(frame.border))
}

fn rect_of(area: Rect) -> ratatui::layout::Rect {
    ratatui::layout::Rect::new(area.x, area.y, area.width, area.height)
}

fn item_of(row: &Row) -> ratatui::widgets::ListItem<'static> {
    ratatui::widgets::ListItem::new(text_of(&row.lines)).style(style_of(row.style))
}

fn put(frame: &mut ratatui::Frame, widget: &Widget) {
    match widget {
        Widget::Clear { area } => frame.render_widget(ratatui::widgets::Clear, rect_of(*area)),
        Widget::Border { area, border } => frame.render_widget(block_of(border), rect_of(*area)),
        Widget::Text { area, lines, style, frame: border, wrap, centered } => {
            let mut out =
                ratatui::widgets::Paragraph::new(text_of(lines)).style(style_of(*style));
            if let Some(border) = border {
                out = out.block(block_of(border));
            }
            if *wrap {
                out = out.wrap(ratatui::widgets::Wrap { trim: false });
            }
            if *centered {
                out = out.alignment(ratatui::layout::Alignment::Center);
            }
            frame.render_widget(out, rect_of(*area));
        }
        Widget::List { area, rows, state, frame: border, pointer, highlight } => {
            let mut out = ratatui::widgets::List::new(rows.iter().map(item_of))
                .highlight_style(style_of(*highlight));
            if let Some(border) = border {
                out = out.block(block_of(border));
            }
            if *pointer {
                out = out.highlight_symbol("▶ ");
            }
            let mut at = ratatui::widgets::ListState::default()
                .with_offset(state.offset)
                .with_selected(state.selected);
            frame.render_stateful_widget(out, rect_of(*area), &mut at);
        }
        Widget::Gauge { area, done, total } => {
            let ratio = if *total == 0 {
                0.0
            } else {
                (*done as f64 / *total as f64).clamp(0.0, 1.0)
            };
            let out = ratatui::widgets::Gauge::default()
                .ratio(ratio)
                .label(format!("{:.0}%", ratio * 100.0));
            frame.render_widget(out, rect_of(*area));
        }
    }
}

fn buffer_of(width: u16, height: u16, draw: impl FnOnce(&mut Canvas)) -> Buffer {
    let mut canvas = Canvas::new(Rect { x: 0, y: 0, width, height });
    draw(&mut canvas);
    let mut screen = Terminal::new(TestBackend::new(width, height)).unwrap();
    screen
        .draw(|frame| {
            for widget in &canvas.widgets {
                put(frame, widget);
            }
        })
        .unwrap();
    screen.backend().buffer().clone()
}

fn rows_of(buffer: &Buffer, area: ratatui::layout::Rect) -> Vec<String> {
    (area.top()..area.bottom())
        .map(|y| (area.left()..area.right()).map(|x| buffer[(x, y)].symbol()).collect())
        .collect()
}

fn text_in(buffer: &Buffer) -> String {
    rows_of(buffer, *buffer.area()).join("\n")
}

fn drawn(width: u16, height: u16, draw: impl FnOnce(&mut Canvas)) -> String {
    text_in(&buffer_of(width, height, draw))
}

/// Every cell that would hand the terminal a control character.
fn live_cells(buffer: &Buffer) -> Vec<(u16, u16, String)> {
    let area = *buffer.area();
    let mut found = Vec::new();
    for y in area.top()..area.bottom() {
        for x in area.left()..area.right() {
            let symbol = buffer[(x, y)].symbol();
            if symbol.chars().any(char::is_control) {
                found.push((x, y, symbol.escape_debug().to_string()));
            }
        }
    }
    found
}

fn assert_inert(buffer: &Buffer, surface: &str) {
    let live = live_cells(buffer);
    assert!(
        live.is_empty(),
        "{surface}: {} cell(s) would reach the terminal as control characters: {:?}",
        live.len(),
        live
    );
}

fn inert_text(width: u16, height: u16, surface: &str, draw: impl FnOnce(&mut Canvas)) -> String {
    let buffer = buffer_of(width, height, draw);
    assert_inert(&buffer, surface);
    text_in(&buffer)
}

/// The text of one entry of a list: its own rows, inside its own borders.
fn entry_text(buffer: &Buffer, panel: Rect, entry: usize, rows: u16) -> String {
    let top = panel.y + 1 + entry as u16 * rows;
    let lines = rows_of(
        buffer,
        ratatui::layout::Rect::new(panel.x + 1, top, panel.width - 2, rows),
    );
    lines.join(" ").split_whitespace().collect::<Vec<_>>().join(" ")
}

fn path(text: &str) -> FilePath {
    FilePath::from_text(text)
}

fn commander_over(first: &str, second: &str) -> CommanderState {
    CommanderState::new(
        vec![path(first), path(second)],
        Panel::empty(path(first)),
        Panel::empty(path(second)),
    )
}

fn test_app() -> App {
    App {
        commander: commander_over("/a", "/b"),
        mode: AppMode::Commander,
        read_only: false,
        reflink_safe: true,
        datasets: Vec::new(),
        zfs_warnings: 0,
        pending_marks: 0,
        auto_select: false,
        show_help: false,
        should_quit: false,
        results_from_sessions: false,
        db_path: path("/var/lib/dedcom/dedcom.db"),
        outbox: Vec::new(),
    }
}

fn entry_of(at: FilePath, kind: EntryKind) -> PanelEntry {
    PanelEntry {
        name: at.file_name().map(|n| String::from_utf8_lossy(&n).into_owned()).unwrap_or_default(),
        path: at,
        kind,
        size: 4096,
        mtime: 1_700_000_000,
        device: 1,
        inode: 7,
    }
}

// ------------------------------------------------------------------------------------------
// The confirmation.
// ------------------------------------------------------------------------------------------
fn planned(kind: ActionKind, target: FilePath) -> PlannedAction {
    PlannedAction {
        kind,
        target,
        keeper: path("/tank/keeper.bin"),
        target_device: 1,
        keeper_device: 1,
        size: 1024,
        expected_hash: String::new(),
    }
}

fn digest_of(actions: &[(ActionKind, &str)]) -> PlanDigest {
    let plan: Vec<PlannedAction> =
        actions.iter().map(|(kind, target)| planned(*kind, path(target))).collect();
    PlanDigest::of(&plan)
}

fn long_plan(count: usize) -> PlanDigest {
    let paths: Vec<String> = (0..count).map(|i| format!("/tank/f{i}.bin")).collect();
    let actions: Vec<(ActionKind, &str)> =
        paths.iter().map(|path| (ActionKind::Delete, path.as_str())).collect();
    digest_of(&actions)
}

fn drawn_summary(digest: &PlanDigest, width: u16, height: u16) -> String {
    let files = digest.samples.len() + digest.hidden;
    let mut scroll = ConfirmScroll::default();
    drawn(width, height, |canvas| {
        render_confirm(canvas, files, 1024, ConfirmTab::Summary, "", digest, &mut scroll)
    })
}

fn script(lines: usize) -> String {
    (1..=lines).map(|n| format!("echo line{n}")).collect::<Vec<_>>().join("\n")
}

fn drawn_commands(text: &str, scroll: &mut ConfirmScroll, width: u16, height: u16) -> String {
    let digest = PlanDigest::default();
    drawn(width, height, |canvas| {
        render_confirm(canvas, 1, 1024, ConfirmTab::Commands, text, &digest, scroll)
    })
}

fn commands_scroll(total: usize) -> ConfirmScroll {
    ConfirmScroll { offset: 0, total, rows: 0 }
}

#[test]
fn a_ten_row_terminal_still_shows_the_way_out() {
    let screen = drawn_summary(&long_plan(12), 80, 10);

    assert!(
        screen.contains("[Y] execute") && screen.contains("[N]/[Esc] cancel"),
        "the decision hint must survive:\n{screen}"
    );
    assert!(screen.contains("Actions to be executed: 12"), "{screen}");
    assert!(screen.contains("By type: delete 12"), "{screen}");
    assert!(
        screen.contains("… and 12 more"),
        "nothing is quoted, and the screen owns up to it:\n{screen}"
    );
    assert!(
        !screen.contains("DELETE "),
        "no room for quoted paths here:\n{screen}"
    );
}

#[test]
fn the_commands_tail_can_be_scrolled_into_view() {
    let text = script(60);
    let mut scroll = commands_scroll(60);

    let first = drawn_commands(&text, &mut scroll, 100, 24);
    assert!(first.contains("echo line1 "), "the head is shown:\n{first}");
    assert!(
        !first.contains("echo line60"),
        "the fixture only means something if the tail starts off-screen:\n{first}"
    );
    assert!(
        first.contains("lines 1-"),
        "the range says where we are:\n{first}"
    );
    assert!(first.contains("of 60"), "{first}");

    scroll.offset = scroll.max_offset();
    let last = drawn_commands(&text, &mut scroll, 100, 24);
    assert!(
        last.contains("echo line60"),
        "the last line must be reachable and rendered:\n{last}"
    );
    assert!(
        last.contains("lines 44-60 of 60"),
        "and the range must say so:\n{last}"
    );

    scroll.offset = 0;
    let home = drawn_commands(&text, &mut scroll, 100, 24);
    assert!(home.contains("echo line1 ") && !home.contains("echo line60"));
    assert!(home.contains("lines 1-17 of 60"), "{home}");
}

#[test]
fn a_page_moves_the_rendered_range_consistently() {
    let text = script(60);
    let mut scroll = commands_scroll(60);
    drawn_commands(&text, &mut scroll, 100, 24);
    assert_eq!(scroll.rows, 17, "17 body rows on a 24-row terminal");

    scroll.scroll_by(page_step(scroll.rows, 1));
    let paged = drawn_commands(&text, &mut scroll, 100, 24);
    assert!(paged.contains("lines 17-33 of 60"), "{paged}");
    assert!(paged.contains("echo line17") && paged.contains("echo line33"));
}

#[test]
fn growing_the_terminal_pulls_the_window_back_inside() {
    let text = script(30);
    let mut scroll = commands_scroll(30);
    drawn_commands(&text, &mut scroll, 100, 12);
    scroll.offset = scroll.max_offset();
    let small = drawn_commands(&text, &mut scroll, 100, 12);
    assert!(small.contains("echo line30"), "{small}");

    let big = drawn_commands(&text, &mut scroll, 100, 40);
    assert!(
        big.contains("echo line30") && big.contains("echo line1 "),
        "the whole script fits now, so the window must sit at the top:\n{big}"
    );
    assert_eq!(scroll.offset, 0, "clamped back to the only page");
    assert!(big.contains("lines 1-30 of 30"), "{big}");
}

#[test]
fn an_empty_or_single_line_script_renders_safely() {
    let mut empty = commands_scroll(0);
    let screen = drawn_commands("", &mut empty, 100, 24);
    assert!(screen.contains("no script lines"), "{screen}");
    assert!(screen.contains("[Y] execute"), "{screen}");

    let mut one = commands_scroll(1);
    let screen = drawn_commands("echo only", &mut one, 100, 24);
    assert!(screen.contains("echo only"), "{screen}");
    assert!(screen.contains("lines 1-1 of 1"), "{screen}");
}

#[test]
fn a_small_terminal_keeps_the_decision_hint() {
    let text = script(60);
    for height in 6..=20u16 {
        let mut scroll = commands_scroll(60);
        let screen = drawn_commands(&text, &mut scroll, 100, height);
        assert!(
            screen.contains("[Y] execute") && screen.contains("[N]/[Esc] cancel"),
            "height {height} lost the decision hint:\n{screen}"
        );

        scroll.offset = scroll.max_offset();
        let tail = drawn_commands(&text, &mut scroll, 100, height);
        assert!(
            tail.contains("echo line60"),
            "height {height} cannot reach the last line:\n{tail}"
        );
        assert!(
            tail.contains("[Y] execute"),
            "height {height} lost the hint at the tail:\n{tail}"
        );
    }
}

#[test]
fn the_hint_outlives_every_other_line() {
    for height in 6..=16u16 {
        let screen = drawn_summary(&long_plan(12), 80, height);
        assert!(
            screen.contains("[Y] execute"),
            "height {height} lost the hint:\n{screen}"
        );
        assert!(
            screen.contains("Actions to be executed: 12"),
            "height {height} lost the count:\n{screen}"
        );
    }
}

#[test]
fn the_overlay_draws_the_composition() {
    let digest = digest_of(&[
        (ActionKind::Delete, "/tank/photos/IMG_4421.HEIC"),
        (ActionKind::Hardlink, "/tank/dup/a.bin"),
    ]);
    let screen = drawn_summary(&digest, 100, 30);

    assert!(
        screen.contains("By type: delete 1 · hardlink 1"),
        "{screen}"
    );
    assert!(screen.contains("IMG_4421.HEIC"), "{screen}");
    assert!(
        screen.contains("[Y] execute"),
        "the hint stays visible:\n{screen}"
    );
}

// ------------------------------------------------------------------------------------------
// Group lists.
// ------------------------------------------------------------------------------------------
fn summary_row(rank: i64, object_count: u64, reclaim: ReclaimEstimate) -> GroupSummary {
    GroupSummary {
        rank,
        hash: format!("h{rank}"),
        file_count: 3,
        size_bytes: 4096,
        object_count,
        reclaim,
    }
}

fn drawn_groups(width: u16, height: u16, groups: &[GroupSummary]) -> String {
    let mut state = ListState::new();
    drawn(width, height, |canvas| {
        let area = canvas.area;
        render_group_list(canvas, area, groups, &mut state, true, Line::fixed(" groups "));
    })
    .replace('\n', "")
}

#[test]
fn a_group_row_shows_allocations_and_refuses_to_call_a_bound_free() {
    let groups = vec![
        summary_row(0, 2, ReclaimEstimate::exact(4096)),
        summary_row(1, 2, ReclaimEstimate::upper_bound(4096)),
        summary_row(2, 2, ReclaimEstimate::unknown()),
    ];
    let rendered = drawn_groups(70, 10, &groups);
    assert!(
        rendered.contains("3 files · 2 objects"),
        "pathnames and allocations are different questions: {rendered}"
    );
    assert!(
        rendered.contains("guaranteed after quarantine purge: 4.0 KiB"),
        "{rendered}"
    );
    assert!(
        rendered.contains("up to 4.0 KiB after quarantine purge"),
        "{rendered}"
    );
    assert!(rendered.contains("rescan required"), "{rendered}");
    assert!(
        !rendered.contains("free"),
        "nothing is free before the quarantine is purged: {rendered}"
    );
}

const CLAIM_WORDS: [(&str, &str); 3] = [
    ("exact", "guaranteed after quarantine purge: 4.0 KiB"),
    ("upper bound", "up to 4.0 KiB after quarantine purge"),
    ("unknown", "rescan required"),
];

fn shows_claim(rendered: &str, claim: &str) -> bool {
    let mut cursor = 0usize;
    for word in claim.split(' ') {
        match rendered[cursor..].find(word) {
            Some(at) => cursor += at + word.len(),
            None => return false,
        }
    }
    true
}

#[test]
fn the_post_purge_qualifier_survives_every_panel_width_in_use() {
    let states = [
        ReclaimEstimate::exact(4096),
        ReclaimEstimate::upper_bound(4096),
        ReclaimEstimate::unknown(),
    ];
    for width in [52, 40] {
        for (state, (name, expected)) in states.into_iter().zip(CLAIM_WORDS) {
            let rendered = drawn_groups(width, 8, &[summary_row(0, 2, state)]);
            assert!(
                shows_claim(&rendered, expected),
                "the {name} claim must read in full at {width} columns: {rendered}"
            );
        }
    }
}

fn group_with_names(names: &[&str]) -> DuplicateGroup {
    DuplicateGroup {
        id: 0,
        size_bytes: 100,
        hash: "h".to_string(),
        files: names
            .iter()
            .enumerate()
            .map(|(n, name)| FileEntry {
                path: path(&format!("/dir{n}/{name}")),
                size: 100,
                device: 0,
                inode: n as u64,
                is_keeper: false,
                action: None,
            })
            .collect(),
    }
}

#[test]
fn an_open_group_states_its_claim_and_the_links_behind_it() {
    let group = group_with_names(&["a.bin", "b.bin"]);
    let claim = GroupClaim {
        reclaim: ReclaimEstimate::upper_bound(4096),
        links: GroupLinks { observed: 2, total: LinkCount::Known(3) },
    };
    let colors = Assoc::new();
    let mut state = ListState::new();
    let rendered = drawn(100, 8, |canvas| {
        let area = canvas.area;
        render_group_files(
            canvas,
            area,
            Some(&group),
            Some(claim),
            &colors,
            &mut state,
            PathStyle::NameFirst,
            true,
            " Group files ",
        );
    });
    assert!(
        rendered.contains("guaranteed after quarantine purge: 0 B"),
        "{rendered}"
    );
    assert!(
        rendered.contains("up to 4.0 KiB after quarantine purge"),
        "{rendered}"
    );
    assert!(rendered.contains("links seen 2/3"), "{rendered}");
    assert!(
        rendered.contains("a.bin") && rendered.contains("b.bin"),
        "the claim line must not cost the panel its files: {rendered}"
    );
}

#[test]
fn a_directory_group_row_counts_its_directories() {
    let group = DirGroup {
        id: 7,
        paths: vec![path("/tank/one"), path("/tank/two")],
        file_count: 12,
        size_per_dir: 4096,
        reclaimable: 2048,
    };
    let mut state = ListState::new();
    state.select(Some(0));
    let shown = drawn(90, 5, |canvas| {
        let area = canvas.area;
        render_dir_group_list(canvas, area, &[group], &mut state, true, " directory groups ");
    });
    assert!(shown.contains("#7    2 directories · 12 files · 4.0 KiB · free 2.0 KiB"), "{shown}");
    assert!(shown.contains(" directory groups "), "{shown}");
}

fn app_with_groups(groups: Vec<GroupSummary>) -> App {
    let mut app = test_app();
    for panel in app.commander.panels.iter_mut() {
        panel.loading = false;
    }
    app.commander.panels[0].view = PanelView::GroupList;
    app.commander.panels[0].list.select(Some(0));
    app.commander.group_ids = (0..groups.len() as i64)
        .map(|rank| GroupId { scan_id: 1, rank, generation: 1 })
        .collect();
    app.commander.group_summaries = groups;
    app
}

fn claimed_groups() -> Vec<GroupSummary> {
    vec![
        summary_row(0, 2, ReclaimEstimate::exact(4096)),
        summary_row(1, 2, ReclaimEstimate::upper_bound(9 * 1024 * 1024)),
        summary_row(2, 2, ReclaimEstimate::unknown()),
    ]
}

fn commander_buffer(app: &mut App, width: u16, height: u16) -> Buffer {
    buffer_of(width, height, |canvas| commander_screen::render(canvas, app, "1.0"))
}

fn rects_at(app: &App, width: u16, height: u16) -> Vec<Rect> {
    let at = regions(Rect { x: 0, y: 0, width, height });
    panel_rects(at.panels, visible_panel_count(&app.commander, width))
}

#[test]
fn an_eighty_column_two_panel_commander_shows_every_claim_in_its_own_entry() {
    assert_eq!(
        max_panels(80),
        2,
        "the layout this test exists for: 80 columns is two panels"
    );
    let mut app = app_with_groups(claimed_groups());
    let buffer = commander_buffer(&mut app, 80, 24);

    let rects = rects_at(&app, 80, 24);
    assert_eq!(rects.len(), 2, "two panels must be on screen");
    assert_eq!(rects[0].width, 40, "the width this defect lives at");
    let panel = rects[0];
    let rows = group_rows(panel.width);

    let claims: Vec<String> =
        app.commander.group_summaries.iter().map(|group| reclaim_cell(group.reclaim)).collect();
    assert_eq!(
        claims.iter().collect::<std::collections::HashSet<_>>().len(),
        claims.len(),
        "the fixture must not repeat a claim"
    );

    for (entry, claim) in claims.iter().enumerate() {
        let text = entry_text(&buffer, panel, entry, rows);
        assert!(
            text.contains(claim.as_str()),
            "entry {entry} must state «{claim}» in its own rows: {text}"
        );
    }
    assert!(
        (0..24).any(|y| {
            (rects[1].x..(rects[1].x + rects[1].width))
                .map(|x| buffer[(x, y)].symbol())
                .collect::<String>()
                .contains("2 · ")
        }),
        "the second panel's title must still be drawn"
    );
}

#[test]
fn an_entrys_text_stops_at_its_own_rows() {
    let mut app = app_with_groups(claimed_groups());
    let buffer = commander_buffer(&mut app, 80, 24);
    let panel = rects_at(&app, 80, 24)[0];
    let rows = group_rows(panel.width);

    let first = entry_text(&buffer, panel, 0, rows);
    let second = reclaim_cell(app.commander.group_summaries[1].reclaim);
    assert!(
        first.contains("4.0 KiB"),
        "the first entry keeps its own figure: {first}"
    );
    assert!(
        !first.contains(&second),
        "the first entry must not reach into the second: {first}"
    );
}

#[test]
fn an_eighty_column_commander_says_a_migrated_groups_count_is_unknown() {
    let mut app = app_with_groups(vec![
        summary_row(0, 0, ReclaimEstimate::unknown()),
        summary_row(1, 5, ReclaimEstimate::unknown()),
        summary_row(2, 2, ReclaimEstimate::exact(4096)),
    ]);
    let buffer = commander_buffer(&mut app, 80, 24);

    let rects = rects_at(&app, 80, 24);
    assert_eq!(rects[0].width, 40, "the width this wording has to fit");
    let panel = rects[0];
    let rows = group_rows(panel.width);

    for (entry, phrase) in ["? objects", "5 objects", "2 objects"].iter().enumerate() {
        let text = entry_text(&buffer, panel, entry, rows);
        assert!(
            text.contains(*phrase),
            "entry {entry} must count its allocations as «{phrase}» in its own rows: {text}"
        );
        assert!(
            !text.contains("0 objects"),
            "entry {entry} must not report zero allocations: {text}"
        );
    }
}

// ------------------------------------------------------------------------------------------
// Marks and watching panels.
// ------------------------------------------------------------------------------------------
#[test]
fn the_three_lifecycle_states_are_readable_at_36_columns() {
    let mut app = test_app();
    app.commander.dedup_scan_id = Some(1);
    app.commander.panels[0].entries = vec![entry_of(path("/tank/twin.bin"), EntryKind::File)];
    app.commander.panels[0].list.select(Some(0));

    mark_cursor(&mut app, Mark::Keeper);
    let write = match app.outbox.last() {
        Some(dedcom::app::Effect::SaveMark(write)) => write.clone(),
        other => panic!("a durable write was expected: {other:?}"),
    };
    assert!(
        text_in(&commander_buffer(&mut app, 36, 20)).contains("Saving mark"),
        "«Saving mark» must be readable at 36 columns"
    );

    mark_cursor(&mut app, Mark::Delete);
    assert!(
        text_in(&commander_buffer(&mut app, 36, 20)).contains("Mark still saving"),
        "«Mark still saving» must be readable at 36 columns"
    );

    mark_saved(&mut app, &write);
    assert!(
        text_in(&commander_buffer(&mut app, 36, 20)).contains("Mark saved"),
        "«Mark saved» must be readable at 36 columns"
    );
}

/// A directory panel whose cursor stands on `cursor`, and a watching panel with its answer.
fn app_watching(cursor: &str, entry: WatchEntry, kind: EntryKind) -> App {
    let mut app = test_app();
    app.commander = commander_over("/", "/");
    let mut source = Panel::empty(path("/tank"));
    source.loading = false;
    source.view = if kind == EntryKind::Dir { PanelView::DirsOnly } else { PanelView::Files };
    source.entries = vec![entry_of(path(cursor), kind)];
    source.list.select(Some(0));
    let mut watch = Panel::empty(path("/tank"));
    watch.loading = false;
    watch.view = PanelView::DuplicatesOfCursor;
    app.commander.panels = vec![source, watch];
    app.commander.active = 0;
    app.commander.dedup_scan_id = Some(1);
    app.commander.scan_coverage_cache.insert(path("/tank"), Some(1));
    app.commander.watch_cache = vec![WatchEntry::default(), entry];
    app
}

fn watch_panel(app: &mut App, width: u16) -> (String, u16) {
    let buffer = commander_buffer(app, width, 20);
    let rects = rects_at(app, width, 20);
    assert!(rects.len() >= 2, "the watching panel must be on screen");
    (rows_of(&buffer, rect_of(rects[1])).join("\n"), rects[1].width)
}

/// A commander whose second panel watches what is under the first one's cursor, nothing resolved.
fn app_watching_cursor(cursor: &str, kind: EntryKind) -> App {
    let mut app = app_watching(cursor, WatchEntry::default(), kind);
    app.commander.watch_cache = Vec::new();
    app
}

/// A commander whose second panel watches the group selected in the first.
fn app_watching_group() -> App {
    let mut app = app_with_groups(claimed_groups());
    app.commander.dedup_scan_id = Some(1);
    app.commander.panels[1].view = PanelView::GroupFiles;
    app
}

/// Brings the panels in step, and hands the second one the store's answer to its question.
fn resolve_and_settle(app: &mut App, answer: WatchAnswer) {
    resolve_watch_groups(app);
    assert!(
        app.outbox.iter().any(|effect| {
            matches!(
                effect,
                Effect::WatchGroup { panel: 1, .. }
                    | Effect::WatchFile { panel: 1, .. }
                    | Effect::WatchDir { panel: 1, .. }
            )
        }),
        "the store is asked: {:?}",
        app.outbox
    );
    app.outbox.clear();
    let key = app.commander.watch_cache[1].key.clone().expect("a source");
    watch_answered(app, 1, &key, answer);
}

fn failed(detail: &str) -> WatchAnswer {
    WatchAnswer::Failed(format!("no such column: {detail}"))
}

fn assert_file_unavailable(app: &App, expect_detail: &str) {
    let entry = &app.commander.watch_cache[1];
    let failure = entry.unavailable.as_ref().expect("a store failure is not an empty state");
    assert_eq!(
        failure.subject,
        WatchSubject::FileGroup,
        "a file-key failure must not call itself a directory one"
    );
    assert!(
        failure.detail.contains(expect_detail),
        "the concrete error is preserved: {}",
        failure.detail
    );
    assert!(entry.result.is_none(), "no group is claimed");
    assert_eq!(
        entry.empty,
        WatchEmpty::NoSource,
        "no empty reason survives beside a failure"
    );
}

#[test]
fn a_failed_group_member_read_is_visible() {
    let mut app = app_watching_group();
    resolve_and_settle(&mut app, failed("is_keeper"));
    assert_file_unavailable(&app, "is_keeper");
}

#[test]
fn a_failed_group_claim_read_is_visible() {
    let mut app = app_watching_group();
    resolve_and_settle(&mut app, failed("reclaim"));
    assert_file_unavailable(&app, "reclaim");
}

#[test]
fn a_failed_cursor_hash_read_is_visible() {
    let mut app = app_watching_cursor("/tank/a.bin", EntryKind::File);
    resolve_and_settle(&mut app, failed("hash"));
    assert_file_unavailable(&app, "hash");
}

#[test]
fn a_failed_cursor_claim_read_is_visible() {
    let mut app = app_watching_cursor("/tank/a.bin", EntryKind::File);
    resolve_and_settle(&mut app, failed("reclaim"));
    assert_file_unavailable(&app, "reclaim");
}

#[test]
fn a_failed_cursor_member_read_is_visible() {
    let mut app = app_watching_cursor("/tank/a.bin", EntryKind::File);
    resolve_and_settle(&mut app, failed("is_keeper"));
    assert_file_unavailable(&app, "is_keeper");
}

#[test]
fn legitimate_absences_keep_their_own_meaning() {
    let mut app = app_watching_cursor("/tank/a.bin", EntryKind::File);
    resolve_and_settle(&mut app, WatchAnswer::Nothing(WatchEmpty::NoDuplicates));
    let entry = &app.commander.watch_cache[1];
    assert!(entry.unavailable.is_none(), "an absence is not a failure");
    assert_eq!(entry.empty, WatchEmpty::NoDuplicates);

    let mut app = app_watching_cursor("/tank/missing.bin", EntryKind::File);
    resolve_and_settle(&mut app, WatchAnswer::Nothing(WatchEmpty::NotInScan));
    let entry = &app.commander.watch_cache[1];
    assert!(entry.unavailable.is_none(), "an absence is not a failure");
    assert_eq!(entry.empty, WatchEmpty::NotInScan);
}

#[test]
fn a_file_failure_stays_cached_across_a_re_resolve() {
    let mut app = app_watching_cursor("/tank/a.bin", EntryKind::File);
    resolve_and_settle(&mut app, failed("is_keeper"));
    assert_file_unavailable(&app, "is_keeper");
    resolve_watch_groups(&mut app);
    assert!(app.outbox.is_empty(), "nothing is asked again");
    assert_file_unavailable(&app, "is_keeper");
}

/// An answer to a question that the panel no longer asks is dropped.
#[test]
fn a_stale_watch_answer_is_dropped() {
    let mut app = app_watching_cursor("/tank/a.bin", EntryKind::File);
    resolve_watch_groups(&mut app);
    let stale = WatchKey::DupOf(path("/tank/other.bin"));
    watch_answered(&mut app, 1, &stale, failed("hash"));
    assert!(app.commander.watch_cache[1].unavailable.is_none());
    watch_answered(&mut app, 9, &stale, failed("hash"));
}

#[test]
fn a_hard_snapshot_failure_is_visible_and_enters_no_fallback() {
    let mut app = app_watching_cursor("/tank/t1", EntryKind::Dir);
    resolve_and_settle(
        &mut app,
        WatchAnswer::Failed("the reason is one that this build does not know".to_string()),
    );
    let entry = &app.commander.watch_cache[1];
    let failure = entry
        .unavailable
        .as_ref()
        .expect("the failure to read the ledger is the answer");
    assert_eq!(
        failure.subject,
        WatchSubject::DirectoryGroup,
        "the accepted directory subject is unchanged"
    );
    assert!(failure.detail.contains("does not know"), "{}", failure.detail);
    assert!(entry.result.is_none(), "no group is claimed");
    assert_ne!(entry.empty, WatchEmpty::NoDuplicates);
    assert_ne!(entry.empty, WatchEmpty::NotInScan);

    let (text, _) = watch_panel(&mut app, 120);
    assert!(
        text.contains("directory group unavailable:"),
        "the panel says why it is empty: {text}"
    );
    assert!(
        !text.contains("no dupes at the cursor") && !text.contains("out of scan"),
        "a broken checkpoint must not be reported as a clean result: {text}"
    );
}

#[test]
fn a_failed_inner_dupes_read_is_visible_too() {
    let mut app = app_watching_cursor("/tank/solo", EntryKind::Dir);
    resolve_and_settle(&mut app, failed("path"));
    let entry = &app.commander.watch_cache[1];
    assert!(
        entry.unavailable.is_some(),
        "a failed manifest read is not an empty result: {:?}",
        entry.empty
    );
    assert!(entry.result.is_none());
}

#[test]
fn a_failed_directory_group_read_is_visible_for_a_directory_cursor() {
    let mut app = app_watching_cursor("/tank/t1", EntryKind::Dir);
    resolve_and_settle(&mut app, failed("size_per_dir"));
    let entry = &app.commander.watch_cache[1];
    let failure = entry
        .unavailable
        .as_ref()
        .expect("an unreadable checkpoint is not «out of scan»");
    assert_eq!(failure.subject, WatchSubject::DirectoryGroup);
    assert!(
        failure.detail.contains("size_per_dir"),
        "the real error is preserved, not a generic one: {}",
        failure.detail
    );
    assert!(entry.result.is_none(), "no group is claimed");
    assert_ne!(entry.empty, WatchEmpty::NotInScan);
    assert_ne!(entry.empty, WatchEmpty::NoDuplicates);

    let (text, _) = watch_panel(&mut app, 120);
    assert!(
        text.contains("directory group unavailable:"),
        "the panel says why it is empty: {text}"
    );
    for forbidden in ["out of scan", "no dupes", "no scan data", "dupes inside"] {
        assert!(
            !text.contains(forbidden),
            "a broken checkpoint must not read as «{forbidden}»: {text}"
        );
    }
}

fn trio(trust: DirTrust) -> WatchEntry {
    let mut entry = WatchEntry::default();
    entry.key = Some(WatchKey::DirOf(path("/tank/t1")));
    entry.result = Some(WatchResult::DirGroup(OpenDirGroup {
        group: DirGroup {
            id: 0,
            paths: vec![path("/tank/t1"), path("/tank/t2"), path("/tank/t3")],
            file_count: 1,
            size_per_dir: 10,
            reclaimable: 20,
        },
        trust,
    }));
    entry
}

#[test]
fn an_unverified_watch_group_claims_nothing_on_screen() {
    let mut app = app_watching("/tank/t1", trio(DirTrust::Trusted), EntryKind::Dir);
    let trusted = watch_panel(&mut app, 120).0;
    assert!(
        trusted.contains(" 2 · duplicates "),
        "a trusted group keeps the mode's own title: {trusted}"
    );
    assert!(
        trusted.contains("★ /tank/t1") && !trusted.contains('?'),
        "no member of a trusted group is marked unverified: {trusted}"
    );

    let mut app = app_watching("/tank/t1", trio(DirTrust::Untrusted), EntryKind::Dir);
    let (unverified, wide_width) = watch_panel(&mut app, 120);
    assert_eq!(wide_width, 60, "two panels across 120 columns");
    assert!(
        unverified.contains("unverified candidate — rescan required"),
        "the frozen qualifier must be visible: {unverified}"
    );
    assert!(
        unverified.contains("★?/tank/t1") && unverified.contains("? /tank/t2"),
        "every member carries the unverified marker: {unverified}"
    );
    for forbidden in ["twin", "duplicate", "dupes", "KiB", "MiB", " B "] {
        assert!(
            !unverified.contains(forbidden),
            "an unverified answer may not claim «{forbidden}»: {unverified}"
        );
    }
}

#[test]
fn the_unverified_remedy_survives_the_narrow_panel() {
    let mut app = app_watching("/tank/t1", trio(DirTrust::Untrusted), EntryKind::Dir);
    let (narrow, width) = watch_panel(&mut app, 72);
    assert_eq!(
        width, MIN_PANEL_WIDTH,
        "72 columns is exactly two panels at the supported floor"
    );
    assert!(
        narrow.contains("unverified · rescan required"),
        "the remedy may not be the part that gets clipped: {narrow}"
    );
    assert!(
        narrow.contains("★?/tank/t1") && narrow.contains("? /tank/t2"),
        "every member still carries the unverified marker: {narrow}"
    );
    for forbidden in ["twin", "duplicate", "dupes", "KiB", "MiB", " B "] {
        assert!(
            !narrow.contains(forbidden),
            "an unverified answer may not claim «{forbidden}»: {narrow}"
        );
    }
}

#[test]
fn a_file_failure_names_its_subject_at_every_supported_width() {
    let mut entry = WatchEntry::default();
    entry.key = Some(WatchKey::DupOf(path("/tank/a.bin")));
    entry.unavailable = Some(WatchUnavailable {
        subject: WatchSubject::FileGroup,
        detail: "no such column: is_keeper".to_string(),
    });
    let mut app = app_watching("/tank/a.bin", entry, EntryKind::File);

    let (wide, wide_width) = watch_panel(&mut app, 120);
    assert_eq!(wide_width, 60, "two panels across 120 columns");
    assert!(
        wide.contains("file group unavailable:"),
        "the panel names what failed: {wide}"
    );
    assert!(
        !wide.contains("directory group unavailable"),
        "a file failure must not borrow the directory wording: {wide}"
    );
    for forbidden in ["no dupes at the cursor", "out of scan", "no scan data"] {
        assert!(
            !wide.contains(forbidden),
            "a failure must not read as «{forbidden}»: {wide}"
        );
    }

    let (narrow, narrow_width) = watch_panel(&mut app, 72);
    assert_eq!(
        narrow_width, MIN_PANEL_WIDTH,
        "72 columns is exactly two panels at the supported floor"
    );
    assert!(
        narrow.contains("file group unavailable:"),
        "the subject survives the floor whole — `unavailable` is never truncated: {narrow}"
    );
}

// ------------------------------------------------------------------------------------------
// The review.
// ------------------------------------------------------------------------------------------
fn plan_over(targets: Vec<FilePath>, estimate: ReclaimEstimate, warnings: Vec<PlanWarning>) -> ActionPlan {
    let count = targets.len();
    ActionPlan {
        actions: targets.into_iter().map(|at| planned(ActionKind::Delete, at)).collect(),
        summary: PlanSummary { actions: count, covered_objects: count, estimate, warnings },
    }
}

fn review_over(plan: Option<ActionPlan>) -> ReviewState {
    let mut state = ReviewState { plan, list: ListState::new(), visible_rows: 0, confirming: false };
    if state.plan.as_ref().map_or(0, |plan| plan.actions.len()) > 0 {
        state.list.select(Some(0));
    }
    state
}

fn review_of(count: usize) -> ReviewState {
    if count == 0 {
        return review_over(None);
    }
    let targets = (0..count).map(|i| path(&format!("/tank/dup{i:02}.bin"))).collect();
    review_over(Some(plan_over(targets, ReclaimEstimate::exact(1024), Vec::new())))
}

fn review_text(state: &mut ReviewState, width: u16, height: u16) -> String {
    drawn(width, height, |canvas| review::render(canvas, state, ""))
}

/// Moves the cursor by so many rows, within the plan.
fn step(state: &mut ReviewState, delta: i32) {
    let count = state.plan.as_ref().map_or(0, |plan| plan.actions.len()) as i32;
    if count > 0 {
        let at = state.list.selected.unwrap_or(0) as i32 + delta;
        state.list.select(Some(at.clamp(0, count - 1) as usize));
    }
}

#[test]
fn the_tail_of_the_plan_can_be_scrolled_into_view() {
    let mut state = review_of(50);

    let before = review_text(&mut state, 80, 16);
    assert!(before.contains("dup00.bin"), "the plan starts at the top");
    assert!(
        before.contains("1 of 50"),
        "the counter opens at the top:\n{before}"
    );
    assert!(
        !before.contains("dup49.bin"),
        "the fixture is only meaningful if the tail starts off-screen"
    );

    state.list.select(Some(49));

    let after = review_text(&mut state, 80, 16);
    assert!(
        after.contains("dup49.bin"),
        "End must bring the last planned action onto the screen:\n{after}"
    );
    assert!(
        after.contains("50 of 50"),
        "and the counter must say so:\n{after}"
    );
}

#[test]
fn the_counter_follows_paging() {
    let mut state = review_of(50);
    let first = review_text(&mut state, 80, 16);
    assert!(first.contains("1 of 50"));

    let page = page_step(state.visible_rows, 1);
    step(&mut state, page);
    let paged = review_text(&mut state, 80, 16);
    assert!(
        paged.contains("8 of 50"),
        "8 rows fit on an 80x16 screen, so a page is 7 rows of movement:\n{paged}"
    );

    let page = page_step(state.visible_rows, -1);
    step(&mut state, page);
    assert!(review_text(&mut state, 80, 16).contains("1 of 50"));

    step(&mut state, 1);
    assert!(review_text(&mut state, 80, 16).contains("2 of 50"));
}

#[test]
fn the_counter_names_the_cursor_not_the_window_top() {
    let mut state = review_of(50);
    review_text(&mut state, 80, 16);
    state.list.select(Some(49));

    let short = review_text(&mut state, 80, 16);
    assert!(short.contains("50 of 50"), "{short}");
    assert!(
        !short.contains("dup18.bin"),
        "8 rows fit here, so the window starts at dup42:\n{short}"
    );

    let tall = review_text(&mut state, 80, 40);
    assert!(
        tall.contains("dup18.bin") && tall.contains("dup49.bin"),
        "32 rows fit now — the window really did grow:\n{tall}"
    );
    assert!(
        tall.contains("50 of 50"),
        "yet the cursor never moved, so the counter must not either:\n{tall}"
    );

    let tiny = review_text(&mut state, 80, 10);
    assert!(
        tiny.contains("50 of 50"),
        "shrinking keeps the cursor too, it does not reset to the top:\n{tiny}"
    );
}

fn visible_prose(screen: &str) -> String {
    let text: String = screen
        .chars()
        .map(|ch| if ch.is_ascii_graphic() || ch.is_alphanumeric() { ch } else { ' ' })
        .collect();
    text.split_whitespace().collect::<Vec<_>>().join(" ")
}

#[test]
fn the_confirmation_quotes_the_whole_plan_at_every_supported_size() {
    let warning = PlanWarning {
        path: path("/tank/twin.bin"),
        reason: "zero guaranteed reclaim: 1 link(s) outside this scan keep this allocation alive"
            .to_string(),
    };
    let mut state = review_over(Some(plan_over(
        vec![path("/tank/twin.bin")],
        ReclaimEstimate::upper_bound(4096),
        vec![warning],
    )));
    state.confirming = true;

    for (width, height) in [(80u16, 12u16), (120, 30), (60, 14)] {
        let screen = review_text(&mut state, width, height);
        let prose = visible_prose(&screen);
        assert!(
            prose.contains("up to 4.0 KiB after quarantine purge"),
            "{width}x{height}: the claim must be readable in full:\n{screen}"
        );
        assert!(
            prose.contains("guaranteed after quarantine purge: 0 B"),
            "{width}x{height}: including the guarantee:\n{screen}"
        );
        assert!(
            prose.contains("1 allocation(s)") && prose.contains("1 action(s)"),
            "{width}x{height}: with the counts the answer rests on:\n{screen}"
        );
        assert!(
            prose.contains("outside this scan"),
            "{width}x{height}: and the reason the guarantee is zero:\n{screen}"
        );
        assert!(
            prose.contains("[Y] yes") && prose.contains("[N] no"),
            "{width}x{height}: the way out is never shed:\n{screen}"
        );
    }
}

/// The reassurance is given up before any warning, and the warnings past the first are counted.
#[test]
fn a_short_confirmation_gives_up_the_reassurance_first() {
    let warning = |reason: &str| PlanWarning {
        path: path("/tank/twin.bin"),
        reason: reason.to_string(),
    };
    let summary = |warnings: Vec<PlanWarning>| PlanSummary {
        actions: 1,
        covered_objects: 1,
        estimate: ReclaimEstimate::exact(4096),
        warnings,
    };
    let calm = "A snapshot + quarantine are created";
    let three = summary(vec![warning("first"), warning("second"), warning("third")]);
    let has = |lines: &[String], words: &str| lines.iter().any(|line| line.contains(words));

    let all = review::confirm_body(&three, 68, 10);
    assert_eq!(all.len(), 6, "{all:?}");
    assert!(has(&all, "third") && has(&all, calm) && !has(&all, "more"), "{all:?}");

    let warned = review::confirm_body(&three, 68, 5);
    assert!(has(&warned, "second") && has(&warned, "third"), "{warned:?}");
    assert!(!has(&warned, calm) && !has(&warned, "more"), "{warned:?}");

    let counted = review::confirm_body(&three, 68, 4);
    assert!(has(&counted, "first") && has(&counted, "… and 2 more"), "{counted:?}");
    assert!(!has(&counted, "second") && !has(&counted, calm), "{counted:?}");

    let long = "zero guaranteed reclaim: one link outside this scan keeps this allocation alive \
                and so does another one that nobody has looked at";
    let one = summary(vec![warning(long)]);
    let tight = review::confirm_body(&one, 68, 3);
    assert!(!has(&tight, calm), "the reassurance fits where the warning does not: {tight:?}");
    assert!(has(&tight, "1 action(s)") && has(&tight, "zero guaranteed"), "{tight:?}");
    assert_eq!(review::confirm_body(&one, 68, 0).len(), 1);
}

#[test]
fn a_very_short_terminal_keeps_the_numbers_and_the_answer() {
    let mut state = review_of(3);
    state.confirming = true;
    let screen = review_text(&mut state, 80, 8);
    assert!(
        screen.contains("3 action(s) over 3 allocation(s)"),
        "{screen}"
    );
    assert!(
        screen.contains("guaranteed after quarantine purge"),
        "{screen}"
    );
    assert!(
        screen.contains("[Y] yes") && screen.contains("[N] no"),
        "{screen}"
    );
}

#[test]
fn an_empty_plan_renders_safely() {
    let mut state = review_of(0);
    let text = review_text(&mut state, 80, 16);
    assert!(text.contains("0 of 0"), "empty reads as 0 of 0:\n{text}");
    step(&mut state, 49);
    step(&mut state, 7);
    assert!(review_text(&mut state, 80, 16).contains("0 of 0"));
}

// ------------------------------------------------------------------------------------------
// Names that try to drive the terminal.
// ------------------------------------------------------------------------------------------
const RETITLE: &str = "\u{1b}]0;PWNED\u{7}evil.bin";
const RETITLE_SHOWN: &str = "\\u{1b}]0;PWNED\\u{7}evil.bin";
const CLEAR: &str = "wipe\u{1b}[2Jme.txt";
const EIGHT_BIT: &str = "8bit\u{9b}2J\u{9d}0;PWNED\u{9c}.dat";
const MOTION: &str = "cr\rlf\ntab\tbs\u{8}del\u{7f}.log";
const NAMES: [&str; 4] = [RETITLE, CLEAR, EIGHT_BIT, MOTION];
const ORDINARY: &str = "отчёт о'нил \\2024.txt";

fn hostile_paths() -> Vec<FilePath> {
    NAMES.iter().map(|name| path(&format!("/tank/{CLEAR}/{name}"))).collect()
}

fn session(roots: Vec<FilePath>, reclaim: ReclaimEstimate) -> ResumeInfo {
    ResumeInfo {
        scan_id: 7,
        created_at: "2026-07-31 10:00:00".to_string(),
        status: ScanStatus::Complete,
        roots,
        files_total: 10,
        files_hashed: 10,
        cand_bytes_total: 1000,
        cand_bytes_hashed: 1000,
        files_scanned: 100,
        reclaimable_bytes: 4096,
        reclaim,
    }
}

/// A raw name drawn the way the screens draw one does put ESC into a cell.
#[test]
fn a_raw_name_reaches_the_cells_through_every_widget_the_screens_use() {
    let area = Rect { x: 0, y: 0, width: 40, height: 3 };
    let plain = Style::new();
    let drawn = [
        (
            "Paragraph",
            buffer_of(40, 3, |canvas| canvas.bare(area, vec![Line::fixed(RETITLE)])),
        ),
        (
            "List",
            buffer_of(40, 3, |canvas| {
                canvas.put(Widget::List {
                    area,
                    rows: vec![Row::of(Line::fixed(RETITLE))],
                    state: ListState::new(),
                    frame: None,
                    pointer: false,
                    highlight: plain,
                })
            }),
        ),
        (
            "Block title",
            buffer_of(40, 3, |canvas| {
                canvas.put(Widget::Border { area, border: Frame::fixed(RETITLE) })
            }),
        ),
    ];
    for (widget, buffer) in drawn {
        let live = live_cells(&buffer);
        assert!(
            live.iter().any(|(_, _, symbol)| symbol == "\\u{1b}"),
            "{widget}: ESC was expected in a cell of its own, got {live:?}"
        );
    }
}

#[test]
fn every_fixture_name_carries_a_control_character_and_the_ordinary_one_does_not() {
    for name in NAMES {
        assert!(name.chars().any(char::is_control), "{name:?}");
        assert!(
            !name.contains('/'),
            "a file name cannot hold a slash: {name:?}"
        );
    }
    assert!(!ORDINARY.chars().any(char::is_control));
    assert_eq!(terminal(RETITLE), RETITLE_SHOWN);
}

#[test]
fn the_action_review_lists_a_hostile_target_escaped() {
    let mut state =
        review_over(Some(plan_over(hostile_paths(), ReclaimEstimate::exact(1), Vec::new())));
    let shown = inert_text(200, 16, "action review", |canvas| {
        review::render(canvas, &mut state, "")
    });
    assert!(shown.contains(RETITLE_SHOWN), "{shown}");
}

#[test]
fn the_action_review_lists_an_ordinary_target_as_it_is() {
    let mut state = review_over(Some(plan_over(
        vec![path(&format!("/tank/{ORDINARY}"))],
        ReclaimEstimate::exact(1),
        Vec::new(),
    )));
    let shown = inert_text(120, 16, "action review", |canvas| {
        review::render(canvas, &mut state, "")
    });
    assert!(shown.contains(ORDINARY), "{shown}");
}

fn no_changes(root: FilePath) -> DiffReport {
    DiffReport {
        old_scan_id: 0,
        new_scan_id: 0,
        root,
        unchanged_count: 0,
        new_dup_candidates: Vec::new(),
        moved_inode: Vec::new(),
        moved_hash: Vec::new(),
        modified: Vec::new(),
        deleted: Vec::new(),
        new: Vec::new(),
    }
}

fn diff_of(report: DiffReport, category: usize) -> ScanDiffState {
    let mut list = ListState::new();
    list.select(Some(0));
    ScanDiffState { report: Some(report), loading: false, category, list }
}

#[test]
fn the_scan_comparison_shows_hostile_paths_escaped_in_every_category() {
    let paths = hostile_paths();
    let one = |index: usize| paths[index % paths.len()].copy();
    let report = DiffReport {
        old_scan_id: 1,
        new_scan_id: 2,
        new_dup_candidates: vec![FileChange::NewDupCandidate {
            path: one(1),
            peers_in_old: vec![one(0)],
        }],
        moved_inode: vec![FileChange::MovedByInode { from: one(0), to: one(1) }],
        moved_hash: vec![FileChange::MovedByHash { from: one(2), to: one(3) }],
        modified: vec![FileChange::Modified { old_path: one(0), new_path: one(0) }],
        deleted: vec![FileChange::Deleted { path: one(0) }],
        new: vec![FileChange::New { path: one(0) }],
        ..no_changes(path("/tank"))
    };
    for category in 0..categories().len() {
        let state = diff_of(report.clone(), category);
        let surface = format!("scan comparison · {}", categories()[category]);
        let shown =
            inert_text(240, 16, &surface, |canvas| scan_diff::render(canvas, &state, ""));
        assert!(
            shown.contains("/tank/wipe\\u{1b}[2Jme.txt/"),
            "{surface}:\n{shown}"
        );
    }

    let state = diff_of(report.clone(), 0);
    let shown =
        inert_text(240, 16, "new duplicates", |canvas| scan_diff::render(canvas, &state, ""));
    assert!(
        shown.contains(&format!("← duplicate of: {}", one(0).display_safely())),
        "{shown}"
    );

    let mut rooted = report;
    rooted.root = path(&format!("/mnt/{RETITLE}"));
    let state = diff_of(rooted, 0);
    let shown = inert_text(240, 16, "scan comparison header", |canvas| {
        scan_diff::render(canvas, &state, "")
    });
    assert!(
        shown.contains(&format!("root /mnt/{RETITLE_SHOWN}")),
        "{shown}"
    );
}

#[test]
fn the_scan_comparison_cuts_a_path_only_after_escaping_it() {
    let report = DiffReport {
        deleted: hostile_paths().into_iter().map(|path| FileChange::Deleted { path }).collect(),
        ..no_changes(path("/tank"))
    };
    let first = hostile_paths()[0].display_safely();
    for width in 12..=70 {
        let mut state = diff_of(report.clone(), 4);
        state.list.select(None);
        let buffer = buffer_of(width, 16, |canvas| scan_diff::render(canvas, &state, ""));
        assert_inert(&buffer, &format!("scan comparison at {width} columns"));

        let row = ellipsize_left(&first, width as usize - 4);
        let shown = text_in(&buffer);
        assert!(shown.contains(&row), "at {width} columns {row:?}:\n{shown}");
    }
}

fn scan_at(current: Option<FilePath>) -> ScanProgress {
    ScanProgress {
        phase: None,
        current_path: current,
        entries_walked: 0,
        files_walked: 0,
        files_done: 0,
        files_total: 0,
        bytes_done: 0,
        bytes_total: 0,
        rate_bytes_per_sec: 0,
        eta_secs: 0,
        chunk_done: 0,
        chunk_total: 0,
        hash_failures: 0,
        notice: None,
    }
}

#[test]
fn the_scan_progress_shows_the_current_path_escaped() {
    for at in hostile_paths() {
        for width in [16, 40, 200] {
            let state = scan_at(Some(at.copy()));
            let buffer = buffer_of(width, 12, |canvas| render_scan(canvas, &state, 0));
            assert_inert(&buffer, &format!("scan progress at {width} columns"));

            let line = ellipsize_left(&at.display_safely(), width as usize - 4);
            let shown = text_in(&buffer);
            assert!(
                shown.contains(&line),
                "at {width} columns {line:?}:\n{shown}"
            );
        }
    }
}

fn config_over(roots: Vec<Root>) -> ScanConfig {
    ScanConfig {
        presets: vec![
            Preset { name: "Everything".to_string(), extensions: Vec::new() },
            Preset {
                name: "Photos".to_string(),
                extensions: vec!["jpg".to_string(), "heic".to_string()],
            },
        ],
        preset_index: 0,
        reuse_hashes: true,
        profile_label: "normal".to_string(),
        profile_hint: "two threads".to_string(),
        roots,
        cursor: 0,
    }
}

fn capabilities() -> Capabilities {
    Capabilities {
        zfs_version: None,
        block_cloning_supported: true,
        block_cloning_enabled: false,
        reflink_safe: false,
    }
}

#[test]
fn the_scan_setup_lists_hostile_roots_escaped() {
    let config = config_over(
        hostile_paths()
            .into_iter()
            .enumerate()
            .map(|(index, at)| Root {
                label: format!("tank/ds{index}"),
                path: at,
                selected: true,
                is_dataset: index % 2 == 0,
            })
            .collect(),
    );
    let shown = inert_text(200, 24, "scan setup", |canvas| {
        render_config(canvas, &config, &capabilities(), "")
    });
    assert!(shown.contains(RETITLE_SHOWN), "{shown}");
}

#[test]
fn the_scan_setup_shows_its_three_parameters() {
    let mut config = config_over(Vec::new());
    let shown = drawn(120, 24, |canvas| render_config(canvas, &config, &capabilities(), "hello"));
    for words in [
        "ZFS: not detected · block cloning: supported=yes enabled=no · reflink: unavailable",
        "Filter by type: Everything — all files",
        "Hash cache: on — repeat scans skip unchanged files",
        "Intensity: normal — two threads",
        "No roots set — press F to add a folder",
        "hello",
    ] {
        assert!(shown.contains(words), "{words}:\n{shown}");
    }
    config.preset_index = 1;
    config.reuse_hashes = false;
    let shown = drawn(120, 24, |canvas| render_config(canvas, &config, &capabilities(), ""));
    assert!(shown.contains("Filter by type: Photos (jpg, heic)"), "{shown}");
    assert!(shown.contains("Hash cache: off — all files will be re-hashed"), "{shown}");
    config.preset_index = 9;
    let shown = drawn(120, 24, |canvas| render_config(canvas, &config, &capabilities(), ""));
    assert!(shown.contains("Filter by type: —"), "{shown}");
}

#[test]
fn the_folder_picker_shows_a_hostile_directory_escaped() {
    let mut entries = hostile_paths();
    entries.push(path(&format!("/mnt/{RETITLE}/..")));
    let picker =
        FolderPicker { current_dir: path(&format!("/tank/{RETITLE}")), entries, cursor: 0 };
    let shown = inert_text(200, 16, "folder picker", |canvas| render_picker(canvas, &picker));
    assert_eq!(
        shown.matches(RETITLE_SHOWN).count(),
        3,
        "in the header, as a name in the list, and inside the path that has no name:\n{shown}"
    );
    assert!(
        shown.contains(&format!("/mnt/{RETITLE_SHOWN}/../")),
        "{shown}"
    );
}

fn sessions_of(sessions: Vec<ResumeInfo>, loading: bool) -> SessionsState {
    SessionsState { sessions, cursor: 0, loading, tick: 3, db_bytes: 1536, generation: 0 }
}

/// A superseded answer changes nothing, and a failure is no empty list.
#[test]
fn a_list_of_scans_answers_its_own_request() {
    let known = || vec![session(vec![path("/tank")], ReclaimEstimate::exact(4096))];
    let mut state = sessions_of(known(), true);
    state.generation = 2;
    state.cursor = 5;
    assert!(sessions_ready(&mut state, 1, Ok(Vec::new())).is_none());
    assert!(state.loading && state.sessions.len() == 1);
    assert_eq!(
        sessions_ready(&mut state, 2, Err("the checkpoint is newer".to_string())).as_deref(),
        Some("the checkpoint is newer")
    );
    assert!(!state.loading && state.sessions.len() == 1, "what was listed stays listed");
    assert!(sessions_ready(&mut state, 2, Ok(known())).is_none());
    assert_eq!(state.cursor, 0);
}

/// Only a history that was read and is empty is permission to scan anew.
#[test]
fn a_probe_that_failed_scans_nothing() {
    let roots = || vec![path("/tank")];
    let mut app = test_app();
    probe_answered(&mut app, roots(), Err("database is locked".to_string()));
    assert!(app.outbox.is_empty());
    assert_eq!(app.commander.status, "database is locked");
    let found = session(roots(), ReclaimEstimate::exact(4096));
    probe_answered(&mut app, roots(), Ok((Some(found), None)));
    assert!(app.outbox.is_empty());
    assert!(matches!(app.commander.overlay, Overlay::ResumeScan));
    assert_eq!(app.commander.pending_scan_roots.len(), 1);
    probe_answered(&mut app, roots(), Ok((None, None)));
    assert!(matches!(app.outbox.last(), Some(Effect::ScanNew(roots)) if roots.len() == 1));
}

#[test]
fn the_saved_scans_list_shows_hostile_roots_escaped() {
    let state =
        sessions_of(vec![session(hostile_paths(), ReclaimEstimate::exact(4096))], false);
    let shown = inert_text(400, 12, "saved scans", |canvas| {
        sessions::render(canvas, &state, "1.0", "")
    });
    assert!(shown.contains(RETITLE_SHOWN), "{shown}");
}

#[test]
fn the_trash_shows_hostile_roots_escaped() {
    let trashed = vec![session(hostile_paths(), ReclaimEstimate::exact(4096))];
    let shown = inert_text(400, 12, "trash", |canvas| {
        sessions::render_trash(canvas, &trashed, 0, "")
    });
    assert!(shown.contains(RETITLE_SHOWN), "{shown}");
}

#[test]
fn a_saved_scan_row_states_its_claim_post_purge_at_eighty_columns() {
    for (state, expected) in [
        (
            ReclaimEstimate::exact(4096),
            "guaranteed after quarantine purge: 4.0 KiB",
        ),
        (
            ReclaimEstimate::upper_bound(4096),
            "up to 4.0 KiB after quarantine purge",
        ),
        (ReclaimEstimate::unknown(), "rescan required"),
    ] {
        let list = sessions_of(vec![session(vec![path("/tank/data")], state)], false);
        let rendered = drawn(80, 12, |canvas| sessions::render(canvas, &list, "1.0", ""));
        assert!(
            rendered.contains(expected),
            "at 80 columns the claim must read in full: {rendered}"
        );
        assert!(
            !rendered.contains("free"),
            "nothing is free before the quarantine is purged: {rendered}"
        );
        assert!(
            rendered.contains("/tank/data"),
            "the roots must survive the extra line: {rendered}"
        );
    }
}

#[test]
fn the_saved_scans_say_how_far_each_one_got() {
    let mut hashing = session(vec![path("/tank")], ReclaimEstimate::unknown());
    hashing.status = ScanStatus::Hashing;
    hashing.cand_bytes_hashed = 250;
    let mut walking = session(vec![path("/tank")], ReclaimEstimate::unknown());
    walking.status = ScanStatus::Walking;
    let mut warned = session(vec![path("/tank")], ReclaimEstimate::unknown());
    warned.status = ScanStatus::CompleteWithWarnings;
    let state = sessions_of(vec![hashing, walking, warned], false);
    let shown = drawn(120, 16, |canvas| sessions::render(canvas, &state, "1.0", ""));
    assert!(shown.contains("hashing 25%"), "{shown}");
    assert!(shown.contains("walking"), "{shown}");
    assert!(shown.contains("ready ⚠"), "{shown}");
    assert!(shown.contains("DB on disk: 1.5 KiB"), "{shown}");
    let loading = sessions_of(Vec::new(), true);
    let shown = drawn(120, 16, |canvas| sessions::render(canvas, &loading, "1.0", ""));
    assert!(shown.contains("⠸  Loading scan list…"), "{shown}");
}

// ------------------------------------------------------------------------------------------
// The summary.
// ------------------------------------------------------------------------------------------
fn reasons() -> Vec<String> {
    ["not fully covered", "links outside this scan", "c", "d", "e", "f", "g"]
        .iter()
        .map(|words| words.to_string())
        .collect()
}

fn batch(outcomes: Vec<ActionOutcome>) -> BatchResult {
    BatchResult {
        planned: outcomes.len(),
        outcomes,
        snapshots: Vec::new(),
        quarantine_dirs: Vec::new(),
        cancelled: false,
        aborted: None,
        estimate: ReclaimEstimate::exact(0),
        realized: Vec::new(),
        realized_bytes: 0,
        completed_objects: 0,
        bytes_read: 0,
    }
}

fn batch_with_quarantine(outcomes: Vec<ActionOutcome>) -> BatchResult {
    BatchResult {
        snapshots: vec!["tank@dedcom-20260925-120000-0".to_string()],
        quarantine_dirs: vec![path("/tank/.dedcom-quarantine/20260925-120000-0")],
        ..batch(outcomes)
    }
}

#[test]
fn the_summary_offers_the_purge_that_removes_and_the_one_that_lists() {
    let result = batch_with_quarantine(Vec::new());
    let shown = drawn(100, 30, |canvas| summary::render(canvas, Some(&result), &reasons(), None));
    assert!(shown.contains("--purge-quarantine --yes"), "{shown}");
    for line in [release_heading(), purge_commands()[0], purge_commands()[1]] {
        assert!(shown.contains(line), "{line}\n{shown}");
    }
}

#[test]
fn a_long_pathname_does_not_push_the_reason_off_the_screen() {
    let deep = path(&format!("/tank/{}/file.bin", "d".repeat(150)));
    let result = batch_with_quarantine(vec![ActionOutcome {
        kind: ActionKind::Hardlink,
        target: deep,
        quarantine: None,
        result: Err("ZZREASONZZ".to_string()),
    }]);
    let shown = drawn(100, 30, |canvas| summary::render(canvas, Some(&result), &reasons(), None));
    assert!(shown.contains("ZZREASONZZ"), "{shown}");
}

#[test]
fn the_batch_summary_shows_every_pathname_and_error_text_escaped() {
    let paths = hostile_paths();
    let mut result = batch(
        paths
            .iter()
            .map(|at| ActionOutcome {
                kind: ActionKind::Hardlink,
                target: at.copy(),
                quarantine: Some(path(&format!("/tank/.dedcom-quarantine/ts/{RETITLE}"))),
                result: Err(format!("cannot copy xattr user.{RETITLE}: denied")),
            })
            .collect(),
    );
    result.quarantine_dirs = vec![path(&format!("/tank/.dedcom-quarantine/{RETITLE}"))];
    result.aborted = Some(format!("the plan no longer matches {RETITLE}"));
    result.realized = vec![ObjectRealization::Unknown {
        reason: format!("rename failed for {RETITLE}"),
        quarantine: Some(path(&format!("/tank/q/{RETITLE}"))),
    }];
    let shown = inert_text(240, 60, "batch summary", |canvas| {
        summary::render(canvas, Some(&result), &reasons(), None)
    });
    for (line, what) in [
        ("BATCH REFUSED", "the refusal"),
        ("✗ HARDLINK", "the failed target and its error"),
        (
            "/tank/.dedcom-quarantine/\\u{1b}",
            "the quarantine directory",
        ),
        (
            "/tank/.dedcom-quarantine/ts/\\u{1b}",
            "the quarantined original",
        ),
        (
            "unknown — check /tank/q/\\u{1b}",
            "the unsettled allocation",
        ),
    ] {
        let row = shown
            .lines()
            .find(|row| row.contains(line))
            .unwrap_or_else(|| panic!("{what} is not on screen:\n{shown}"));
        assert!(row.contains("\\u{1b}]0;PWNED\\u{7}"), "{what}: {row}");
    }
    let failed = shown.lines().find(|row| row.contains("✗ HARDLINK")).unwrap();
    assert_eq!(
        failed.matches("\\u{1b}]0;PWNED\\u{7}").count(),
        2,
        "the target and the message are two different strings: {failed}"
    );
}

#[test]
fn the_batch_summary_shows_an_ordinary_pathname_as_it_is() {
    let result = batch(vec![ActionOutcome {
        kind: ActionKind::Delete,
        target: path(&format!("/tank/{ORDINARY}")),
        quarantine: Some(path(&format!("/tank/q/{ORDINARY}"))),
        result: Err(format!("no such file: {ORDINARY}")),
    }]);
    let shown = inert_text(200, 40, "batch summary", |canvas| {
        summary::render(canvas, Some(&result), &reasons(), None)
    });
    assert_eq!(shown.matches(ORDINARY).count(), 3, "{shown}");
}

// ------------------------------------------------------------------------------------------
// Panels, work in progress, and what lies over the screen.
// ------------------------------------------------------------------------------------------
/// A panel full of names that try to drive the terminal, and a title that does too.
#[test]
fn a_commander_panel_shows_hostile_names_escaped() {
    let mut app = test_app();
    app.commander.panels[0].cwd = path(&format!("/tank/{CLEAR}"));
    app.commander.panels[0].loading = false;
    app.commander.panels[0].entries =
        hostile_paths().into_iter().map(|at| entry_of(at, EntryKind::File)).collect();
    app.commander.panels[0].list.select(Some(0));
    let buffer = commander_buffer(&mut app, 160, 24);
    assert_inert(&buffer, "commander");
    assert!(text_in(&buffer).contains("PWNED"), "{}", text_in(&buffer));
}

#[test]
fn a_scan_shows_its_bar_only_once_totals_are_known() {
    let mut state = scan_at(None);
    state.bytes_done = 250;
    state.bytes_total = 1000;
    state.rate_bytes_per_sec = 1024;
    state.eta_secs = 134;
    state.chunk_total = 9;
    state.hash_failures = 2;
    state.notice = Some("grouping needs 2 GiB".to_string());
    state.phase = Some(ScanPhase::Walking(WalkStage::Scanning));
    let walking = drawn(100, 20, |canvas| render_scan(canvas, &state, 0));
    assert!(walking.contains("⠋  Phase 1/3 · walking files"), "{walking}");
    assert!(!walking.contains('%'), "{walking}");
    state.phase = Some(ScanPhase::Hashing);
    let hashing = drawn(100, 20, |canvas| render_scan(canvas, &state, 1));
    assert!(hashing.contains("25%"), "{hashing}");
    for words in [
        "⠙  Phase 2/3: hashing content",
        "Read:              250 B / 1000 B",
        "Speed:             1.0 KiB/s · remaining ~2m14s",
        "Chunk:             0 / 9 files  (Esc stops after the chunk)",
        "Failed to hash:     2 files",
        "grouping needs 2 GiB",
    ] {
        assert!(hashing.contains(words), "{words}:\n{hashing}");
    }
}

#[test]
fn applying_counts_from_one_and_never_past_the_last() {
    let mut state = ApplyProgress {
        mode: RevalidationMode::Hybrid,
        phase: ApplyPhase::Applying,
        index: 0,
        total: 3,
        bytes_done: 0,
        bytes_total: 0,
    };
    let shown = drawn(110, 14, |canvas| render_applying(canvas, &state, 0));
    assert!(shown.contains("mode: hybrid"), "{shown}");
    assert!(shown.contains("Action:            1 / 3"), "{shown}");
    state.index = 7;
    let shown = drawn(110, 14, |canvas| render_applying(canvas, &state, 0));
    assert!(shown.contains("Action:            3 / 3"), "{shown}");
    assert!(shown.contains("100%"), "{shown}");
    state.total = 0;
    let shown = drawn(110, 14, |canvas| render_applying(canvas, &state, 0));
    assert!(shown.contains("Action:            0 / 0"), "{shown}");
}

fn wizard(screen: Screen) -> Wizard {
    Wizard {
        screen,
        config: config_over(Vec::new()),
        capabilities: capabilities(),
        folder_picker: FolderPicker { current_dir: path("/"), entries: Vec::new(), cursor: 0 },
        sessions: sessions_of(Vec::new(), false),
        scanning: scan_at(None),
        applying: ApplyProgress {
            mode: RevalidationMode::Fast,
            phase: ApplyPhase::Snapshots,
            index: 0,
            total: 1,
            bytes_done: 0,
            bytes_total: 0,
        },
        browser: BrowserState {
            tab: BrowserTab::Files,
            focus_files: false,
            path_style: PathStyle::DimDir,
            files_scanned: 5,
            reclaim: ReclaimEstimate::exact(1024),
            already_linked_sets: 0,
            marked_count: 0,
            group_summaries: claimed_groups(),
            group_state: ListState::new(),
            open_group: None,
            open_group_claim: None,
            open_group_colors: Assoc::new(),
            file_state: ListState::new(),
            dir_group_summaries: Vec::new(),
            dir_groups_reclaim_total: 0,
            dir_group_state: ListState::new(),
            open_dir_group: None,
            dir_keeper_index: 0,
            dir_file_state: ListState::new(),
            group_visible_rows: 0,
            files_visible_rows: 0,
            groups_area: None,
            files_area: None,
            tab_dirs_area: None,
            tab_files_area: None,
        },
        review: review_of(3),
        result: Some(batch(Vec::new())),
        reasons: reasons(),
        unsettled: None,
        scan_diff: diff_of(no_changes(path("/tank")), 0),
        trashed: Vec::new(),
        trash_cursor: 0,
        tick: 0,
        status: "the status".to_string(),
    }
}

fn nothing_over() -> Overlays {
    Overlays {
        rss_bytes: 3 << 20,
        cpu: "7".to_string(),
        confirm: None,
        opening_ms: None,
        host: "a host".to_string(),
        concurrency_prompt: None,
        disclaimer: None,
    }
}

#[test]
fn the_screen_that_is_on_is_the_one_drawn() {
    for (screen, words) in [
        (Screen::ScanConfig, "scan configuration"),
        (Screen::FolderPicker, "pick a folder to scan"),
        (Screen::Resume, "Saved scans"),
        (Screen::Scanning, "— scanning"),
        (Screen::Applying, "applying actions"),
        (Screen::Browser, "guaranteed after quarantine purge: 4.0 KiB"),
        (Screen::ActionReview, "1 of 3"),
        (Screen::Summary, "— summary"),
        (Screen::ScanDiff, "Scan comparison"),
        (Screen::Trash, "deleted scans"),
    ] {
        let mut app = test_app();
        app.mode = AppMode::Wizard;
        let mut state = wizard(screen);
        let shown = drawn(140, 40, |canvas| {
            shell::render(canvas, &mut app, &mut state, &nothing_over(), "1.0")
        });
        assert!(shown.contains(words), "{screen:?}:\n{shown}");
        assert!(shown.contains(" RAM 3.0 MiB · CPU   7% "), "{screen:?}:\n{shown}");
    }
    let mut app = test_app();
    let mut state = wizard(Screen::Trash);
    let shown = drawn(140, 40, |canvas| {
        shell::render(canvas, &mut app, &mut state, &nothing_over(), "1.0")
    });
    assert!(!shown.contains("deleted scans") && shown.contains("1 · "), "{shown}");
}

/// The banner sits at the very edge and the indicator left of it; neither is drawn where it does
/// not fit.
#[test]
fn the_badges_stand_side_by_side() {
    let row = |width: u16, read_only: bool| {
        let shown = drawn(width, 1, |canvas| {
            shell::render_resource_badge(canvas, 3 << 20, "7", read_only);
            if read_only {
                shell::render_readonly_badge(canvas);
            }
        });
        shown
    };
    let both = row(60, true);
    assert!(both.ends_with(" RAM 3.0 MiB · CPU   7%   ● READ-ONLY  "), "{both:?}");
    assert!(row(60, false).ends_with(" RAM 3.0 MiB · CPU   7%  "));
    assert_eq!(row(14, true).trim(), "", "neither fits in fourteen columns");
    assert_eq!(row(15, true).trim(), "● READ-ONLY");
}

#[test]
fn the_overlays_lie_in_their_order() {
    let mut app = test_app();
    app.mode = AppMode::Wizard;
    app.read_only = true;
    app.show_help = true;
    let mut over = nothing_over();
    over.confirm = Some(ConfirmAction::PurgeScan(7));
    over.opening_ms = Some(1500);
    let mut state = wizard(Screen::Trash);
    let helped = drawn(120, 40, |canvas| {
        shell::render(canvas, &mut app, &mut state, &over, "1.0")
    });
    assert!(helped.contains("READ-ONLY"), "{helped}");
    assert!(helped.contains("assign the group's keeper file"), "{helped}");
    assert!(!helped.contains("PERMANENTLY"), "the help covers the question:\n{helped}");

    app.show_help = false;
    over.opening_ms = None;
    let asked = drawn(120, 40, |canvas| {
        shell::render(canvas, &mut app, &mut state, &over, "1.0")
    });
    assert!(asked.contains("PERMANENTLY") && asked.contains("[Y] yes"), "{asked}");

    over.concurrency_prompt = Some(Holder { pid: 42, since: "10:00".to_string() });
    let prompted = drawn(120, 40, |canvas| {
        shell::render(canvas, &mut app, &mut state, &over, "1.0")
    });
    assert!(prompted.contains("Operator: PID 42, since 10:00"), "{prompted}");

    over.disclaimer = Some(Disclaimer { focus: 0, agreed: false, suppress: true });
    let gated = drawn(120, 40, |canvas| {
        shell::render(canvas, &mut app, &mut state, &over, "1.0")
    });
    assert!(gated.contains("▸ [ ] I have read and agree (required)"), "{gated}");
    assert!(gated.contains("  [x] Don't show this at startup again"), "{gated}");
    assert!(gated.contains("unavailable — check the consent box"), "{gated}");
    assert!(!gated.contains("PID 42"), "consent is on top of everything:\n{gated}");
}

/// The text runs five positions to the right and back, a step every half second.
#[test]
fn the_opening_text_bounces() {
    let column = |elapsed: u64| {
        let shown = drawn(60, 7, |canvas| shell::render_opening_overlay(canvas, elapsed));
        let line = shown.lines().find(|line| line.contains("Opening")).unwrap().to_string();
        line.chars().take_while(|c| *c != 'O').count()
    };
    let start = column(0);
    let steps: Vec<usize> = (0..11).map(|n| column(n * 500) - start).collect();
    assert_eq!(steps, [0, 1, 2, 3, 4, 5, 4, 3, 2, 1, 0]);
}

#[test]
fn the_splash_turns() {
    let shown = drawn(80, 20, |canvas| shell::render_splash(canvas, 4));
    assert!(shown.contains("██████   DedupCommando   ██████"), "{shown}");
    assert!(shown.contains("⠼  detecting ZFS environment…"), "{shown}");
}
