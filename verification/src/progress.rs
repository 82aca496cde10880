//! Work in progress: a scan, and the actions being applied.

use vstd::prelude::*;

use crate::canvas::{
    no_lines, push_line, Canvas, Color, Frame, Line, LineModel, Rect, Style, Widget, WidgetModel,
};
use crate::layout::Extent;
use crate::path::FilePath;
use crate::text::{ellipsize_left, push_u64, push_usize};
use crate::units::{format_duration, human_bytes, seconds_held};
use crate::wizard::{put_styled, spinner, strips};

verus! {

/// Where the walk is.
#[derive(Debug, Clone, Copy, PartialEq, Eq, Structural)]
pub enum WalkStage {
    Scanning,
    Persisting,
}

/// Where a scan is.
#[derive(Debug, Clone, Copy, PartialEq, Eq, Structural)]
pub enum ScanPhase {
    Walking(WalkStage),
    Hashing,
    Grouping,
}

/// A scan in progress.
#[derive(Debug, Clone)]
pub struct ScanProgress {
    pub phase: Option<ScanPhase>,
    pub current_path: Option<FilePath>,
    pub entries_walked: u64,
    pub files_walked: u64,
    pub files_done: u64,
    pub files_total: u64,
    pub bytes_done: u64,
    pub bytes_total: u64,
    /// Measured from the pool's real throughput; zero while it is unknown.
    pub rate_bytes_per_sec: u64,
    pub eta_secs: u64,
    pub chunk_done: u64,
    pub chunk_total: u64,
    /// Candidates that did not get a hash.
    pub hash_failures: u64,
    /// A warning about the memory that grouping needs.
    pub notice: Option<String>,
}

/// A phase in words.
pub open spec fn phase_words(phase: Option<ScanPhase>) -> Seq<char> {
    match phase {
        Some(ScanPhase::Walking(WalkStage::Scanning)) => "Phase 1/3 · walking files"@,
        Some(ScanPhase::Walking(WalkStage::Persisting)) => "Phase 1/3 · writing manifest"@,
        Some(ScanPhase::Hashing) => "Phase 2/3: hashing content"@,
        Some(ScanPhase::Grouping) => "Phase 3/3: grouping"@,
        None => "Preparing…"@,
    }
}

fn phase_text(phase: Option<ScanPhase>) -> (r: &'static str)
    ensures
        r@ == phase_words(phase),
{
    match phase {
        Some(ScanPhase::Walking(WalkStage::Scanning)) => "Phase 1/3 · walking files",
        Some(ScanPhase::Walking(WalkStage::Persisting)) => "Phase 1/3 · writing manifest",
        Some(ScanPhase::Hashing) => "Phase 2/3: hashing content",
        Some(ScanPhase::Grouping) => "Phase 3/3: grouping",
        None => "Preparing…",
    }
}

/// The line that shows the process is alive, whatever the counters do.
pub open spec fn alive(area: Rect, tick: u64, phase: Seq<char>) -> WidgetModel {
    crate::wizard::styled_text(
        area,
        crate::wizard::spinner_frame(tick) + "  "@ + phase,
        crate::commander_screen::bold_style(),
    )
}

fn put_alive(canvas: &mut Canvas, area: Rect, tick: u64, phase: &str)
    ensures
        final(canvas).area == old(canvas).area,
        final(canvas)@ == old(canvas)@.push(alive(area, tick, phase@)),
{
    let mut text = spinner(tick).to_string();
    text.push_str("  ");
    text.push_str(phase);
    put_styled(canvas, area, text, Style::new().bold());
}

/// A hint, in the dim look.
pub open spec fn hint(area: Rect, text: Seq<char>) -> WidgetModel {
    crate::wizard::styled_text(area, text, crate::commander_screen::dim_style())
}

/// How far work got: by volume where the volume is known, else by count, else not at all.
pub open spec fn measured(
    bytes_done: u64,
    bytes_total: u64,
    items_done: u64,
    items_total: u64,
) -> (u64, u64) {
    if bytes_total > 0 {
        (bytes_done, bytes_total)
    } else if items_total > 0 {
        (items_done, items_total)
    } else {
        (0, 0)
    }
}

/// How far work got: by volume where the volume is known, else by count. Items vary enormously
/// in size, and a counter of them does not reflect the work actually done.
pub fn measure(bytes_done: u64, bytes_total: u64, items_done: u64, items_total: u64) -> (r: (
    u64,
    u64,
))
    ensures
        r == measured(bytes_done, bytes_total, items_done, items_total),
{
    if bytes_total > 0 {
        (bytes_done, bytes_total)
    } else if items_total > 0 {
        (items_done, items_total)
    } else {
        (0, 0)
    }
}

/// A progress bar.
pub open spec fn gauge(area: Rect, share: (u64, u64)) -> WidgetModel {
    WidgetModel::Gauge { area, done: share.0, total: share.1 }
}

/// A warning.
pub open spec fn warned(text: Seq<char>) -> LineModel {
    LineModel { style: crate::canvas::colored(Color::Yellow), ..crate::canvas::text_line(text) }
}

/// The counters.
pub open spec fn counters(s: ScanProgress) -> Seq<LineModel> {
    seq![
        crate::canvas::text_line(
            "Walked:            "@ + crate::text::decimal(s.entries_walked as nat)
                + " entries · "@ + crate::text::decimal(s.files_walked as nat) + " files"@,
        ),
        crate::canvas::text_line(
            "Hashed:            "@ + crate::text::decimal(s.files_done as nat) + " / "@
                + crate::text::decimal(s.files_total as nat) + " files"@,
        ),
        crate::canvas::text_line(
            "Read:              "@ + crate::units::size_text(s.bytes_done as nat) + " / "@
                + crate::units::size_text(s.bytes_total as nat),
        ),
    ]
}

/// The throughput and what is left, once the throughput is known.
pub open spec fn with_speed(lines: Seq<LineModel>, s: ScanProgress) -> Seq<LineModel> {
    if s.rate_bytes_per_sec > 0 {
        lines.push(
            crate::canvas::text_line(
                "Speed:             "@ + crate::units::size_text(s.rate_bytes_per_sec as nat)
                    + "/s · remaining ~"@ + crate::units::duration_words(
                    crate::units::held_seconds(s.eta_secs),
                ),
            ),
        )
    } else {
        lines
    }
}

/// The chunk being worked on, where there is one.
pub open spec fn with_chunk(lines: Seq<LineModel>, s: ScanProgress) -> Seq<LineModel> {
    if s.chunk_total > 0 {
        lines.push(
            crate::canvas::text_line(
                "Chunk:             "@ + crate::text::decimal(s.chunk_done as nat) + " / "@
                    + crate::text::decimal(s.chunk_total as nat)
                    + " files  (Esc stops after the chunk)"@,
            ),
        )
    } else {
        lines
    }
}

/// What went wrong, and what is about to be large.
pub open spec fn with_warnings(lines: Seq<LineModel>, s: ScanProgress) -> Seq<LineModel> {
    let failed = if s.hash_failures > 0 {
        lines.push(
            warned(
                "Failed to hash:     "@ + crate::text::decimal(s.hash_failures as nat)
                    + " files"@,
            ),
        )
    } else {
        lines
    };
    match s.notice {
        Some(notice) => failed.push(warned(notice@)),
        None => failed,
    }
}

/// All that is said of a scan's progress.
pub open spec fn scan_stats(s: ScanProgress) -> Seq<LineModel> {
    with_warnings(with_chunk(with_speed(counters(s), s), s), s)
}

fn add_counters(s: &ScanProgress) -> (r: Vec<Line>)
    ensures
        crate::canvas::lines_model(r@) == counters(*s),
{
    let mut lines = no_lines();
    let mut walked = "Walked:            ".to_string();
    push_u64(&mut walked, s.entries_walked);
    walked.push_str(" entries · ");
    push_u64(&mut walked, s.files_walked);
    walked.push_str(" files");
    push_line(&mut lines, Line::text(walked));
    let mut hashed = "Hashed:            ".to_string();
    push_u64(&mut hashed, s.files_done);
    hashed.push_str(" / ");
    push_u64(&mut hashed, s.files_total);
    hashed.push_str(" files");
    push_line(&mut lines, Line::text(hashed));
    let mut read = "Read:              ".to_string();
    read.push_str(human_bytes(s.bytes_done).as_str());
    read.push_str(" / ");
    read.push_str(human_bytes(s.bytes_total).as_str());
    push_line(&mut lines, Line::text(read));
    assert(crate::canvas::lines_model(lines@) =~= counters(*s));
    lines
}

fn lines_of_scan(s: &ScanProgress) -> (r: Vec<Line>)
    ensures
        crate::canvas::lines_model(r@) == scan_stats(*s),
{
    let mut lines = add_counters(s);
    if s.rate_bytes_per_sec > 0 {
        let mut speed = "Speed:             ".to_string();
        speed.push_str(human_bytes(s.rate_bytes_per_sec).as_str());
        speed.push_str("/s · remaining ~");
        speed.push_str(format_duration(seconds_held(s.eta_secs)).as_str());
        push_line(&mut lines, Line::text(speed));
    }
    if s.chunk_total > 0 {
        let mut chunk = "Chunk:             ".to_string();
        push_u64(&mut chunk, s.chunk_done);
        chunk.push_str(" / ");
        push_u64(&mut chunk, s.chunk_total);
        chunk.push_str(" files  (Esc stops after the chunk)");
        push_line(&mut lines, Line::text(chunk));
    }
    if s.hash_failures > 0 {
        let mut failed = "Failed to hash:     ".to_string();
        push_u64(&mut failed, s.hash_failures);
        failed.push_str(" files");
        push_line(&mut lines, Line::text(failed).over(Style::color(Color::Yellow)));
    }
    if let Some(notice) = &s.notice {
        push_line(
            &mut lines,
            Line::text(notice.as_str().to_string()).over(Style::color(Color::Yellow)),
        );
    }
    lines
}

/// The six strips inside the border: phase, path, bar, a gap, counters, hint.
pub open spec fn scan_extents() -> Seq<Extent> {
    seq![
        Extent::Length(1),
        Extent::Length(1),
        Extent::Length(1),
        Extent::Length(1),
        Extent::Min(0),
        Extent::Length(1),
    ]
}

/// The path being worked on: escaped, then cut on the left to what the strip holds.
pub open spec fn path_widget(area: Rect, path: crate::path::PathView) -> WidgetModel {
    let width = if area.width > 2 {
        area.width - 2
    } else {
        0
    };
    WidgetModel::Text {
        area,
        lines: seq![
            crate::canvas::text_line(
                "  "@ + crate::text::left_cut(path.shown_safely(), width),
            ),
        ],
        style: crate::canvas::colored(Color::DarkGray),
        frame: None,
        wrap: false,
        centered: false,
    }
}

fn put_path(canvas: &mut Canvas, area: Rect, path: &FilePath)
    ensures
        final(canvas).area == old(canvas).area,
        final(canvas)@ == old(canvas)@.push(path_widget(area, path@)),
{
    let width: usize = area.width.saturating_sub(2) as usize;
    let mut text = "  ".to_string();
    text.push_str(ellipsize_left(path.display_safely().as_str(), width).as_str());
    let ghost said = text@;
    let mut lines = no_lines();
    push_line(&mut lines, Line::text(text));
    assert(crate::canvas::lines_model(lines@) =~= seq![crate::canvas::text_line(said)]);
    canvas.put(
        Widget::Text {
            area,
            lines,
            style: Style::color(Color::DarkGray),
            frame: None,
            wrap: false,
            centered: false,
        },
    );
}

/// The path, where one is being worked on.
pub open spec fn path_widgets(area: Rect, path: Option<FilePath>) -> Seq<WidgetModel> {
    match path {
        Some(path) => seq![path_widget(area, path@)],
        None => Seq::empty(),
    }
}

/// The bar. There is none while files are walked: no total is known yet, and a bar frozen at 0%
/// says nothing.
pub open spec fn scan_gauge(area: Rect, s: ScanProgress) -> Seq<WidgetModel> {
    if s.phase matches Some(ScanPhase::Walking(_)) {
        Seq::empty()
    } else {
        seq![
            gauge(area, measured(s.bytes_done, s.bytes_total, s.files_done, s.files_total)),
        ]
    }
}

/// A scan in progress on screen.
pub open spec fn scan_widgets(
    s: ScanProgress,
    tick: u64,
    screen: Rect,
    at: Seq<Rect>,
) -> Seq<WidgetModel> {
    seq![
        WidgetModel::Border {
            area: screen,
            border: crate::canvas::plain_frame(" DedupCommando — scanning "@),
        },
        alive(at[0], tick, phase_words(s.phase)),
    ] + path_widgets(at[1], s.current_path) + scan_gauge(at[2], s) + seq![
        crate::canvas::bare_text(at[4], scan_stats(s)),
        hint(at[5], "[Esc] stop — progress is saved, you can resume later"@),
    ]
}

/// Draws a scan in progress, its border's inside split into `at`.
pub fn render_scan_at(canvas: &mut Canvas, s: &ScanProgress, tick: u64, at: &Vec<Rect>)
    requires
        at@.len() == 6,
    ensures
        final(canvas).area == old(canvas).area,
        final(canvas)@ == old(canvas)@ + scan_widgets(*s, tick, old(canvas).area, at@),
{
    let ghost before = canvas@;
    let screen = canvas.area;
    canvas.put(
        Widget::Border { area: screen, border: Frame::fixed(" DedupCommando — scanning ") },
    );
    put_alive(canvas, at[0], tick, phase_text(s.phase));
    if let Some(path) = &s.current_path {
        put_path(canvas, at[1], path);
    }
    let walking = match s.phase {
        Some(ScanPhase::Walking(_)) => true,
        _ => false,
    };
    if !walking {
        let (done, total) = measure(s.bytes_done, s.bytes_total, s.files_done, s.files_total);
        canvas.put(Widget::Gauge { area: at[2], done, total });
    }
    canvas.bare(at[4], lines_of_scan(s));
    put_styled(
        canvas,
        at[5],
        "[Esc] stop — progress is saved, you can resume later".to_string(),
        Style::new().dim(),
    );
    assert(canvas@ =~= before + scan_widgets(*s, tick, screen, at@));
}

/// Scanning screen: phase, progress indicator, counters.
pub fn render_scan(canvas: &mut Canvas, s: &ScanProgress, tick: u64)
    ensures
        final(canvas).area == old(canvas).area,
        exists|at: Seq<Rect>|
            #[trigger] crate::wizard::strips_of(old(canvas).area.spec_inner(), scan_extents(), at)
                && final(canvas)@ == old(canvas)@ + scan_widgets(*s, tick, old(canvas).area, at),
{
    let extents: Vec<Extent> = vec![
        Extent::Length(1),
        Extent::Length(1),
        Extent::Length(1),
        Extent::Length(1),
        Extent::Min(0),
        Extent::Length(1),
    ];
    assert(extents@ =~= scan_extents());
    let at = strips(canvas.area.inner(), &extents);
    render_scan_at(canvas, s, tick, &at);
}

// ---------------------------------------------------------------------------------------------
// Applying actions.
// ---------------------------------------------------------------------------------------------
/// How content is verified again before an action.
#[derive(Debug, Clone, Copy, PartialEq, Eq, Structural)]
pub enum RevalidationMode {
    Strict,
    Hybrid,
    Fast,
}

/// Where the applying is.
#[derive(Debug, Clone, Copy, PartialEq, Eq, Structural)]
pub enum ApplyPhase {
    Snapshots,
    Applying,
    Done,
}

/// Actions being applied.
#[derive(Debug, Clone, Copy)]
pub struct ApplyProgress {
    pub mode: RevalidationMode,
    pub phase: ApplyPhase,
    pub index: usize,
    pub total: usize,
    pub bytes_done: u64,
    pub bytes_total: u64,
}

/// The name of a mode.
pub open spec fn mode_words(mode: RevalidationMode) -> Seq<char> {
    match mode {
        RevalidationMode::Strict => "strict"@,
        RevalidationMode::Hybrid => "hybrid"@,
        RevalidationMode::Fast => "fast"@,
    }
}

/// A phase in words.
pub open spec fn apply_words(phase: ApplyPhase) -> Seq<char> {
    match phase {
        ApplyPhase::Snapshots => "Creating safety ZFS snapshots…"@,
        ApplyPhase::Applying => "Verifying content and moving/linking…"@,
        ApplyPhase::Done => "Finishing…"@,
    }
}

/// Which action is on: counted from one, and never past the last.
pub open spec fn current_action(index: int, total: int) -> int {
    if total == 0 {
        0
    } else if index + 1 <= total {
        index + 1
    } else {
        total
    }
}

/// The counters.
pub open spec fn apply_stats(a: ApplyProgress) -> Seq<LineModel> {
    let action = crate::canvas::text_line(
        "Action:            "@ + crate::text::decimal(
            current_action(a.index as int, a.total as int) as nat,
        ) + " / "@ + crate::text::decimal(a.total as nat),
    );
    if a.bytes_total > 0 {
        seq![
            action,
            crate::canvas::text_line(
                "Re-verified:       "@ + crate::units::size_text(a.bytes_done as nat) + " / "@
                    + crate::units::size_text(a.bytes_total as nat),
            ),
        ]
    } else {
        seq![action]
    }
}

fn lines_of_applying(a: &ApplyProgress) -> (r: Vec<Line>)
    ensures
        crate::canvas::lines_model(r@) == apply_stats(*a),
{
    let mut lines = no_lines();
    let current: usize = if a.index < a.total {
        a.index + 1
    } else {
        a.total
    };
    let mut action = "Action:            ".to_string();
    push_usize(&mut action, current);
    action.push_str(" / ");
    push_usize(&mut action, a.total);
    push_line(&mut lines, Line::text(action));
    if a.bytes_total > 0 {
        let mut read = "Re-verified:       ".to_string();
        read.push_str(human_bytes(a.bytes_done).as_str());
        read.push_str(" / ");
        read.push_str(human_bytes(a.bytes_total).as_str());
        push_line(&mut lines, Line::text(read));
    }
    assert(crate::canvas::lines_model(lines@) =~= apply_stats(*a));
    lines
}

/// The five strips inside the border: phase, a gap, bar, counters, hint.
pub open spec fn apply_extents() -> Seq<Extent> {
    seq![
        Extent::Length(1),
        Extent::Length(1),
        Extent::Length(1),
        Extent::Min(0),
        Extent::Length(1),
    ]
}

/// Applying on screen.
pub open spec fn apply_widgets(
    a: ApplyProgress,
    tick: u64,
    screen: Rect,
    at: Seq<Rect>,
) -> Seq<WidgetModel> {
    seq![
        WidgetModel::Border {
            area: screen,
            border: crate::canvas::plain_frame(
                " DedupCommando — applying actions · mode: "@ + mode_words(a.mode) + " "@,
            ),
        },
        alive(at[0], tick, apply_words(a.phase)),
        gauge(at[2], measured(a.bytes_done, a.bytes_total, a.index as u64, a.total as u64)),
        crate::canvas::bare_text(at[3], apply_stats(a)),
        hint(
            at[4],
            "[Esc] stop after the current action — the snapshot is done, applied items are in quarantine"@,
        ),
    ]
}

/// Draws the applying, its border's inside split into `at`.
pub fn render_applying_at(canvas: &mut Canvas, a: &ApplyProgress, tick: u64, at: &Vec<Rect>)
    requires
        at@.len() == 5,
    ensures
        final(canvas).area == old(canvas).area,
        final(canvas)@ == old(canvas)@ + apply_widgets(*a, tick, old(canvas).area, at@),
{
    let ghost before = canvas@;
    let screen = canvas.area;
    let mut title = " DedupCommando — applying actions · mode: ".to_string();
    title.push_str(
        match a.mode {
            RevalidationMode::Strict => "strict",
            RevalidationMode::Hybrid => "hybrid",
            RevalidationMode::Fast => "fast",
        },
    );
    title.push_str(" ");
    canvas.put(Widget::Border { area: screen, border: Frame::titled(title) });
    let phase: &'static str = match a.phase {
        ApplyPhase::Snapshots => "Creating safety ZFS snapshots…",
        ApplyPhase::Applying => "Verifying content and moving/linking…",
        ApplyPhase::Done => "Finishing…",
    };
    put_alive(canvas, at[0], tick, phase);
    let (done, total) = measure(a.bytes_done, a.bytes_total, a.index as u64, a.total as u64);
    canvas.put(Widget::Gauge { area: at[2], done, total });
    canvas.bare(at[3], lines_of_applying(a));
    put_styled(
        canvas,
        at[4],
        "[Esc] stop after the current action — the snapshot is done, applied items are in quarantine".to_string(),
        Style::new().dim(),
    );
    assert(canvas@ =~= before + apply_widgets(*a, tick, screen, at@));
}

/// Action-applying screen: phase, gauge, counters, cancel.
pub fn render_applying(canvas: &mut Canvas, a: &ApplyProgress, tick: u64)
    ensures
        final(canvas).area == old(canvas).area,
        exists|at: Seq<Rect>|
            #[trigger] crate::wizard::strips_of(old(canvas).area.spec_inner(), apply_extents(), at)
                && final(canvas)@ == old(canvas)@ + apply_widgets(*a, tick, old(canvas).area, at),
{
    let extents: Vec<Extent> = vec![
        Extent::Length(1),
        Extent::Length(1),
        Extent::Length(1),
        Extent::Min(0),
        Extent::Length(1),
    ];
    assert(extents@ =~= apply_extents());
    let at = strips(canvas.area.inner(), &extents);
    render_applying_at(canvas, a, tick, &at);
}

/// The action on is one of the actions there are, and the count of it never falls.
pub proof fn law_the_action_counter_is_honest(index: int, later: int, total: int)
    requires
        0 <= index <= later,
        0 <= total,
    ensures
        current_action(index, total) <= current_action(later, total) <= total,
        total > 0 ==> 1 <= current_action(index, total),
{
}

/// No bar is drawn while files are walked, and one is drawn in every other phase.
pub proof fn law_no_bar_while_walking(s: ScanProgress, area: Rect)
    ensures
        scan_gauge(area, s).len() == 0 <==> (s.phase matches Some(ScanPhase::Walking(_))),
{
}

} // verus!
