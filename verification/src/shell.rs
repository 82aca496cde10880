//! The whole frame: the screen that is on, and what lies over it.

use vstd::prelude::*;

use crate::app::{App, AppMode, AppModel, Screen};
use crate::browser::BrowserState;
use crate::canvas::{
    centered, no_lines, push_line, Canvas, Color, Frame, Line, LineModel, Rect, Style, Widget,
    WidgetModel,
};
use crate::commander_screen::{add_heading, add_hint, add_plain, put_box};
use crate::model::ResumeInfo;
use crate::progress::{ApplyProgress, ScanProgress};
use crate::review::ReviewState;
use crate::scan_diff::ScanDiffState;
use crate::sessions::SessionsState;
use crate::setup::{Capabilities, FolderPicker, ScanConfig};
use crate::summary::BatchResult;
use crate::text::{char_count, pad_left, push_repeated, push_u64};
use crate::units::human_bytes;
use crate::wizard::spinner;

verus! {

// ---------------------------------------------------------------------------------------------
// Badges in the top right corner.
// ---------------------------------------------------------------------------------------------
/// "Read-only" mode label. The resource indicator accounts for its width so the badges don't
/// overlap in the top right corner.
pub const READONLY_LABEL: &'static str = " ● READ-ONLY ";

/// Width of the label.
pub const READONLY_WIDTH: u16 = 13;

/// A label on one line, `width` wide, that ends one column left of `right`.
pub open spec fn badge(right: int, text: Seq<char>, style: Style) -> Seq<WidgetModel> {
    let area = Rect {
        x: (right - text.len() - 1) as u16,
        y: 0,
        width: text.len() as u16,
        height: 1,
    };
    seq![
        WidgetModel::Clear { area },
        crate::wizard::styled_text(area, text, style),
    ]
}

/// A label in the corner, where it fits with a column to spare on the left.
pub open spec fn corner_badge(screen: Rect, right: int, text: Seq<char>, style: Style) -> Seq<
    WidgetModel,
> {
    if right <= text.len() + 1 || screen.height == 0 {
        Seq::empty()
    } else {
        badge(right, text, style)
    }
}

/// The look of the read-only label.
pub open spec fn readonly_style() -> Style {
    Style {
        fg: Some(Color::Black),
        bg: Some(Color::Yellow),
        bold: true,
        dim: false,
        reversed: false,
    }
}

/// The look of the resource indicator.
pub open spec fn resource_style() -> Style {
    Style {
        fg: Some(Color::White),
        bg: Some(Color::Blue),
        bold: false,
        dim: false,
        reversed: false,
    }
}

fn put_badge(canvas: &mut Canvas, right: u16, text: String, style: Style)
    ensures
        final(canvas).area == old(canvas).area,
        final(canvas)@ == old(canvas)@ + corner_badge(
            old(canvas).area,
            right as int,
            text@,
            style,
        ),
{
    let ghost before = canvas@;
    let ghost said = text@;
    let screen = canvas.area;
    let count: usize = char_count(text.as_str());
    if count >= 0xffff || right as usize <= count + 1 || screen.height == 0 {
        assert(canvas@ =~= before + corner_badge(screen, right as int, said, style));
        return;
    }
    let width: u16 = count as u16;
    let area = Rect { x: right - width - 1, y: 0, width, height: 1 };
    canvas.clear(area);
    crate::wizard::put_styled(canvas, area, text, style);
    assert(canvas@ =~= before + corner_badge(screen, right as int, said, style));
}

proof fn lemma_label()
    ensures
        READONLY_LABEL@.len() == READONLY_WIDTH,
{
    reveal_strlit(" ● READ-ONLY ");
}

/// The read-only label.
pub open spec fn readonly_badge(screen: Rect) -> Seq<WidgetModel> {
    corner_badge(screen, screen.width as int, READONLY_LABEL@, readonly_style())
}

/// "Read-only" mode banner: a compact label in the top right corner — a constant signal that this
/// is an observer and operations are disabled.
pub fn render_readonly_badge(canvas: &mut Canvas)
    ensures
        final(canvas).area == old(canvas).area,
        final(canvas)@ == old(canvas)@ + readonly_badge(old(canvas).area),
{
    let right: u16 = canvas.area.width;
    put_badge(
        canvas,
        right,
        READONLY_LABEL.to_string(),
        Style::color(Color::Black).on(Color::Yellow).bold(),
    );
}

/// What the process uses; `cpu` is the percentage, rounded and printed.
pub open spec fn resource_words(rss_bytes: u64, cpu: Seq<char>) -> Seq<char> {
    " RAM "@ + crate::units::size_text(rss_bytes as nat) + " · CPU "@ + crate::text::padded_left(
        cpu,
        3,
    ) + "% "@
}

/// Where the resource indicator ends: left of the read-only label, where that is shown.
pub open spec fn resource_limit(width: u16, read_only: bool) -> int {
    if !read_only {
        width as int
    } else if width > READONLY_WIDTH + 1 {
        width - READONLY_WIDTH - 1
    } else {
        0
    }
}

/// The resource indicator.
pub open spec fn resource_badge(screen: Rect, rss_bytes: u64, cpu: Seq<char>, read_only: bool) -> Seq<
    WidgetModel,
> {
    corner_badge(
        screen,
        resource_limit(screen.width, read_only),
        resource_words(rss_bytes, cpu),
        resource_style(),
    )
}

/// Process RAM/CPU indicator — top right corner. If the "read-only" banner is active (it sits at
/// the very edge), the indicator is left of it, without overlap.
pub fn render_resource_badge(canvas: &mut Canvas, rss_bytes: u64, cpu: &str, read_only: bool)
    ensures
        final(canvas).area == old(canvas).area,
        final(canvas)@ == old(canvas)@ + resource_badge(
            old(canvas).area,
            rss_bytes,
            cpu@,
            read_only,
        ),
{
    let mut label = " RAM ".to_string();
    label.push_str(human_bytes(rss_bytes).as_str());
    label.push_str(" · CPU ");
    label.push_str(pad_left(cpu, 3).as_str());
    label.push_str("% ");
    let width: u16 = canvas.area.width;
    let right: u16 = if read_only {
        width.saturating_sub(READONLY_WIDTH + 1)
    } else {
        width
    };
    put_badge(canvas, right, label, Style::color(Color::White).on(Color::Blue));
}

/// The two labels never share a column: where both are shown, the indicator ends left of where
/// the banner begins.
pub proof fn law_the_badges_do_not_overlap(
    screen: Rect,
    rss_bytes: u64,
    cpu: Seq<char>,
    banner: Rect,
    indicator: Rect,
)
    requires
        readonly_badge(screen).contains(WidgetModel::Clear { area: banner }),
        resource_badge(screen, rss_bytes, cpu, true).contains(
            WidgetModel::Clear { area: indicator },
        ),
    ensures
        indicator.x + indicator.width < banner.x,
        banner.x + banner.width < screen.width,
{
    lemma_label();
}

// ---------------------------------------------------------------------------------------------
// Boxes over the screen.
// ---------------------------------------------------------------------------------------------
/// What is asked about a session.
#[derive(Debug, Clone, Copy, PartialEq, Eq, Structural)]
pub enum ConfirmAction {
    TrashScan(i64),
    PurgeScan(i64),
}

/// The question's title.
pub open spec fn question_title(action: ConfirmAction) -> Seq<char> {
    match action {
        ConfirmAction::TrashScan(_) => " Move to trash? "@,
        ConfirmAction::PurgeScan(_) => " Purge from trash? "@,
    }
}

/// What a yes would do.
pub open spec fn question_words(action: ConfirmAction) -> Seq<char> {
    match action {
        ConfirmAction::TrashScan(_) =>
            "  The session will be moved to the trash — it can be restored (t)."@,
        ConfirmAction::PurgeScan(_) =>
            "  The session will be deleted PERMANENTLY — this is irreversible."@,
    }
}

/// The question.
pub open spec fn question_lines(action: ConfirmAction) -> Seq<LineModel> {
    let l = crate::commander_screen::plain(Seq::empty(), ""@);
    let l = crate::commander_screen::plain(l, question_words(action));
    let l = crate::commander_screen::plain(l, ""@);
    crate::commander_screen::heading(l, "  [Y] yes    ·    [N] no"@)
}

/// The question in its box.
pub open spec fn question(screen: Rect, action: ConfirmAction) -> Seq<WidgetModel> {
    crate::commander_screen::boxed(
        screen,
        64,
        7,
        question_lines(action),
        question_title(action),
    )
}

/// Modal confirmation window — yes/no for a reversible (trash) and an irreversible (purge) action
/// on sessions.
pub fn render_confirm_modal(canvas: &mut Canvas, action: ConfirmAction)
    requires
        crate::layout::bounded(old(canvas).area),
    ensures
        final(canvas).area == old(canvas).area,
        final(canvas)@ == old(canvas)@ + question(old(canvas).area, action),
{
    let (title, body): (&'static str, &'static str) = match action {
        ConfirmAction::TrashScan(_) => (
            " Move to trash? ",
            "  The session will be moved to the trash — it can be restored (t).",
        ),
        ConfirmAction::PurgeScan(_) => (
            " Purge from trash? ",
            "  The session will be deleted PERMANENTLY — this is irreversible.",
        ),
    };
    let mut lines = no_lines();
    add_plain(&mut lines, "");
    add_plain(&mut lines, body);
    add_plain(&mut lines, "");
    add_heading(&mut lines, "  [Y] yes    ·    [N] no");
    put_box(canvas, 64, 7, lines, title);
}

/// Where the text stands after `elapsed_ms`: a step every half second, five to the right and five
/// back.
pub open spec fn bounce(elapsed_ms: int) -> int {
    let s = (elapsed_ms / 500) % 10;
    if s <= 5 {
        s
    } else {
        10 - s
    }
}

/// The text that runs to and fro.
pub open spec fn opening_lines(elapsed_ms: u64) -> Seq<LineModel> {
    seq![
        crate::canvas::text_line(""@),
        crate::canvas::text_line(
            "  "@ + crate::text::repeated(' ', bounce(elapsed_ms as int)) + "Opening result…"@,
        ),
    ]
}

/// The loading animation in its box.
pub open spec fn opening(screen: Rect, elapsed_ms: u64) -> Seq<WidgetModel> {
    crate::commander_screen::boxed(screen, 48, 5, opening_lines(elapsed_ms), " Please wait "@)
}

/// Loading animation for a finished scan's result: "Opening result" runs rightward by one
/// character every half second and bounces back at five positions — a live signal that the tool
/// is working (the first open of an old scan can be slow).
pub fn render_opening_overlay(canvas: &mut Canvas, elapsed_ms: u64)
    requires
        crate::layout::bounded(old(canvas).area),
    ensures
        final(canvas).area == old(canvas).area,
        final(canvas)@ == old(canvas)@ + opening(old(canvas).area, elapsed_ms),
{
    let s: u64 = (elapsed_ms / 500) % 10;
    let offset: usize = if s <= 5 {
        s as usize
    } else {
        (10 - s) as usize
    };
    let mut text = "  ".to_string();
    push_repeated(&mut text, ' ', offset);
    text.push_str("Opening result…");
    let mut lines = no_lines();
    add_plain(&mut lines, "");
    push_line(&mut lines, Line::text(text));
    assert(crate::canvas::lines_model(lines@) =~= opening_lines(elapsed_ms));
    put_box(canvas, 48, 5, lines, " Please wait ");
}

/// The text stays within its five positions, moves by exactly one at every half second, and is
/// back where it was after five seconds.
pub proof fn law_the_text_bounces(elapsed_ms: int)
    requires
        0 <= elapsed_ms,
    ensures
        0 <= bounce(elapsed_ms) <= 5,
        bounce(elapsed_ms + 500) - bounce(elapsed_ms) == 1 || bounce(elapsed_ms + 500)
            - bounce(elapsed_ms) == -1,
        bounce(elapsed_ms + 5000) == bounce(elapsed_ms),
{
    assert((elapsed_ms + 500) / 500 == elapsed_ms / 500 + 1);
    assert((elapsed_ms + 5000) / 500 == elapsed_ms / 500 + 10);
}

/// A running operator.
#[derive(Debug, Clone)]
pub struct Holder {
    pub pid: u32,
    pub since: String,
}

/// The operator in words.
pub open spec fn holder_words(holder: Option<Holder>) -> Seq<char> {
    match holder {
        Some(h) => "  Operator: PID "@ + crate::text::decimal(h.pid as nat) + ", since "@
            + h.since@,
        None => "  Operator: unknown"@,
    }
}

/// The choice of a role.
pub open spec fn concurrency_lines(holder: Option<Holder>) -> Seq<LineModel> {
    let l = crate::commander_screen::heading(
        Seq::empty(),
        "  Another running instance detected"@,
    );
    let l = crate::commander_screen::plain(l, ""@);
    let l = crate::commander_screen::plain(l, holder_words(holder));
    let l = crate::commander_screen::plain(l, ""@);
    let l = crate::commander_screen::plain(
        l,
        "  Working on the same state with two operators may"@,
    );
    let l = crate::commander_screen::plain(l, "  corrupt data. Choose a launch mode:"@);
    let l = crate::commander_screen::plain(l, ""@);
    let l = crate::commander_screen::plain(
        l,
        "  [R] Read-only — observe the map and progress (safe)"@,
    );
    let l = crate::commander_screen::plain(
        l,
        "  [F] Become operator — DANGEROUS if that process is still alive"@,
    );
    crate::commander_screen::plain(l, "  [Esc] Exit"@)
}

/// The choice of a role in its box.
pub open spec fn concurrency(screen: Rect, holder: Option<Holder>) -> Seq<WidgetModel> {
    crate::commander_screen::boxed(
        screen,
        68,
        15,
        concurrency_lines(holder),
        " Concurrent launch "@,
    )
}

fn holder_text(holder: &Option<Holder>) -> (r: String)
    ensures
        r@ == holder_words(*holder),
{
    match holder {
        Some(h) => {
            let mut text = "  Operator: PID ".to_string();
            push_u64(&mut text, h.pid as u64);
            text.push_str(", since ");
            text.push_str(h.since.as_str());
            text
        },
        None => "  Operator: unknown".to_string(),
    }
}

/// Startup role-selection overlay when a live operator is present: safe observer `[R]`, forced
/// operator `[F]`, or exit `Esc`.
pub fn render_concurrency(canvas: &mut Canvas, holder: &Option<Holder>)
    requires
        crate::layout::bounded(old(canvas).area),
    ensures
        final(canvas).area == old(canvas).area,
        final(canvas)@ == old(canvas)@ + concurrency(old(canvas).area, *holder),
{
    let mut lines = no_lines();
    add_heading(&mut lines, "  Another running instance detected");
    add_plain(&mut lines, "");
    add_plain(&mut lines, holder_text(holder).as_str());
    add_plain(&mut lines, "");
    add_plain(&mut lines, "  Working on the same state with two operators may");
    add_plain(&mut lines, "  corrupt data. Choose a launch mode:");
    add_plain(&mut lines, "");
    add_plain(&mut lines, "  [R] Read-only — observe the map and progress (safe)");
    add_plain(&mut lines, "  [F] Become operator — DANGEROUS if that process is still alive");
    add_plain(&mut lines, "  [Esc] Exit");
    put_box(canvas, 68, 15, lines, " Concurrent launch ");
}

/// The consent being asked for at startup.
#[derive(Debug, Clone, Copy)]
pub struct Disclaimer {
    /// Which of the two boxes is under the cursor.
    pub focus: usize,
    pub agreed: bool,
    pub suppress: bool,
}

/// A box to check.
pub open spec fn checkbox(focused: bool, on: bool, text: Seq<char>) -> LineModel {
    let line = crate::canvas::text_line(
        "  "@ + (if focused {
            "▸ "@
        } else {
            "  "@
        }) + (if on {
            "[x]"@
        } else {
            "[ ]"@
        }) + text,
    );
    if focused {
        LineModel { style: crate::commander_screen::bold_style(), ..line }
    } else {
        line
    }
}

fn checkbox_line(focused: bool, on: bool, text: &str) -> (r: Line)
    ensures
        r@ == checkbox(focused, on, text@),
{
    let mut said = "  ".to_string();
    said.push_str(
        if focused {
            "▸ "
        } else {
            "  "
        },
    );
    said.push_str(
        if on {
            "[x]"
        } else {
            "[ ]"
        },
    );
    said.push_str(text);
    let line = Line::text(said);
    if focused {
        line.over(Style::new().bold())
    } else {
        line
    }
}

/// The notice.
pub open spec fn notice_lines(version: Seq<char>) -> Seq<LineModel> {
    let l = crate::commander_screen::heading(Seq::empty(), "  DedupCommando "@ + version);
    let l = crate::commander_screen::plain(l, ""@);
    let l = crate::commander_screen::heading(l, "  Notice and consent"@);
    let l = crate::commander_screen::plain(l, ""@);
    let l = crate::commander_screen::plain(l, "  The tool works with real data of a ZFS pool."@);
    let l = crate::commander_screen::plain(
        l,
        "  Moving, deletion and deduplication are irreversible —"@,
    );
    let l = crate::commander_screen::plain(
        l,
        "  responsibility for the outcome lies with the user."@,
    );
    let l = crate::commander_screen::plain(l, "  Make backups and test on a test pool first."@);
    let l = crate::commander_screen::plain(l, ""@);
    let l = crate::commander_screen::plain(
        l,
        "  The version is designed for a single user: simultaneous"@,
    );
    let l = crate::commander_screen::plain(l, "  launch on the same state is not supported."@);
    crate::commander_screen::plain(l, ""@)
}

/// The notice and the two boxes.
pub open spec fn disclaimer_lines(d: Disclaimer, version: Seq<char>) -> Seq<LineModel> {
    let l = notice_lines(version).push(
        checkbox(d.focus == 0, d.agreed, " I have read and agree (required)"@),
    ).push(checkbox(d.focus == 1, d.suppress, " Don't show this at startup again"@));
    let l = crate::commander_screen::plain(l, ""@);
    let l = if d.agreed {
        crate::commander_screen::plain(l, "  [Enter] continue"@)
    } else {
        l.push(
            crate::canvas::styled_line(
                "  [Enter] unavailable — check the consent box"@,
                crate::commander_screen::dim_style(),
            ),
        )
    };
    l.push(
        crate::canvas::styled_line(
            "  [Space] check   [Tab] switch focus   [Esc] exit"@,
            crate::commander_screen::dim_style(),
        ),
    )
}

/// The notice in its box.
pub open spec fn disclaimer(screen: Rect, d: Disclaimer, version: Seq<char>) -> Seq<WidgetModel> {
    crate::commander_screen::boxed(screen, 72, 22, disclaimer_lines(d, version), " Notice "@)
}

fn titled_lines(version: &str) -> (r: Vec<Line>)
    ensures
        crate::canvas::lines_model(r@) == crate::commander_screen::heading(
            Seq::empty(),
            "  DedupCommando "@ + version@,
        ),
{
    let mut lines = no_lines();
    let mut name = "  DedupCommando ".to_string();
    name.push_str(version);
    add_heading(&mut lines, name.as_str());
    lines
}

fn lines_of_notice(version: &str) -> (r: Vec<Line>)
    ensures
        crate::canvas::lines_model(r@) == notice_lines(version@),
{
    let mut lines = titled_lines(version);
    add_plain(&mut lines, "");
    add_heading(&mut lines, "  Notice and consent");
    add_plain(&mut lines, "");
    add_plain(&mut lines, "  The tool works with real data of a ZFS pool.");
    add_plain(&mut lines, "  Moving, deletion and deduplication are irreversible —");
    add_plain(&mut lines, "  responsibility for the outcome lies with the user.");
    add_plain(&mut lines, "  Make backups and test on a test pool first.");
    add_plain(&mut lines, "");
    add_plain(&mut lines, "  The version is designed for a single user: simultaneous");
    add_plain(&mut lines, "  launch on the same state is not supported.");
    add_plain(&mut lines, "");
    lines
}

/// Startup consent disclaimer gate: a notice about responsibility and the single-user model, and
/// two checkboxes.
pub fn render_disclaimer(canvas: &mut Canvas, d: &Disclaimer, version: &str)
    requires
        crate::layout::bounded(old(canvas).area),
    ensures
        final(canvas).area == old(canvas).area,
        final(canvas)@ == old(canvas)@ + disclaimer(old(canvas).area, *d, version@),
{
    let mut lines = lines_of_notice(version);
    push_line(
        &mut lines,
        checkbox_line(d.focus == 0, d.agreed, " I have read and agree (required)"),
    );
    push_line(
        &mut lines,
        checkbox_line(d.focus == 1, d.suppress, " Don't show this at startup again"),
    );
    add_plain(&mut lines, "");
    if d.agreed {
        add_plain(&mut lines, "  [Enter] continue");
    } else {
        add_hint(&mut lines, "  [Enter] unavailable — check the consent box");
    }
    add_hint(&mut lines, "  [Space] check   [Tab] switch focus   [Esc] exit");
    put_box(canvas, 72, 22, lines, " Notice ");
}

/// The wizard's help.
pub open spec fn wizard_help_lines(version: Seq<char>) -> Seq<LineModel> {
    let l = crate::commander_screen::heading(Seq::empty(), "  DedupCommando "@ + version);
    let l = crate::commander_screen::plain(l, ""@);
    let l = crate::commander_screen::heading(l, "  Navigation"@);
    let l = crate::commander_screen::plain(l, "    ↑↓ / j k       move through the list"@);
    let l = crate::commander_screen::plain(
        l,
        "    Tab            switch panel (groups / files)"@,
    );
    let l = crate::commander_screen::plain(l, ""@);
    let l = crate::commander_screen::heading(l, "  Selection"@);
    let l = crate::commander_screen::plain(l, "    Space          mark dataset / unmark file"@);
    let l = crate::commander_screen::plain(
        l,
        "    Enter          assign the group's keeper file"@,
    );
    let l = crate::commander_screen::plain(l, ""@);
    let l = crate::commander_screen::heading(l, "  Actions on duplicates"@);
    let l = crate::commander_screen::plain(
        l,
        "    d              deletion (move to quarantine)"@,
    );
    let l = crate::commander_screen::plain(l, "    h              hardlink"@);
    let l = crate::commander_screen::plain(l, "    c              reflink (ZFS clone)"@);
    let l = crate::commander_screen::plain(
        l,
        "    a              auto-select across all groups"@,
    );
    let l = crate::commander_screen::plain(l, "    r              review actions (dry-run)"@);
    let l = crate::commander_screen::plain(l, ""@);
    let l = crate::commander_screen::heading(l, "  Other"@);
    let l = crate::commander_screen::plain(l, "    s              start scanning"@);
    let l = crate::commander_screen::plain(
        l,
        "    f              add an arbitrary folder (config screen)"@,
    );
    let l = crate::commander_screen::plain(l, "    Esc            back / stop scan"@);
    let l = crate::commander_screen::plain(
        l,
        "    ?              this help        q   exit"@,
    );
    let l = crate::commander_screen::plain(l, ""@);
    l.push(
        crate::canvas::styled_line("  [Esc] close"@, crate::commander_screen::dim_style()),
    )
}

/// The wizard's help in its box.
pub open spec fn wizard_help(screen: Rect, version: Seq<char>) -> Seq<WidgetModel> {
    crate::commander_screen::boxed(screen, 64, 27, wizard_help_lines(version), " Help "@)
}

/// The wizard's help overlay.
pub fn render_help(canvas: &mut Canvas, version: &str)
    requires
        crate::layout::bounded(old(canvas).area),
    ensures
        final(canvas).area == old(canvas).area,
        final(canvas)@ == old(canvas)@ + wizard_help(old(canvas).area, version@),
{
    let mut lines = titled_lines(version);
    add_plain(&mut lines, "");
    add_heading(&mut lines, "  Navigation");
    add_plain(&mut lines, "    ↑↓ / j k       move through the list");
    add_plain(&mut lines, "    Tab            switch panel (groups / files)");
    add_plain(&mut lines, "");
    add_heading(&mut lines, "  Selection");
    add_plain(&mut lines, "    Space          mark dataset / unmark file");
    add_plain(&mut lines, "    Enter          assign the group's keeper file");
    add_plain(&mut lines, "");
    add_heading(&mut lines, "  Actions on duplicates");
    add_plain(&mut lines, "    d              deletion (move to quarantine)");
    add_plain(&mut lines, "    h              hardlink");
    add_plain(&mut lines, "    c              reflink (ZFS clone)");
    add_plain(&mut lines, "    a              auto-select across all groups");
    add_plain(&mut lines, "    r              review actions (dry-run)");
    add_plain(&mut lines, "");
    add_heading(&mut lines, "  Other");
    add_plain(&mut lines, "    s              start scanning");
    add_plain(&mut lines, "    f              add an arbitrary folder (config screen)");
    add_plain(&mut lines, "    Esc            back / stop scan");
    add_plain(&mut lines, "    ?              this help        q   exit");
    add_plain(&mut lines, "");
    add_hint(&mut lines, "  [Esc] close");
    put_box(canvas, 64, 27, lines, " Help ");
}

// ---------------------------------------------------------------------------------------------
// Startup.
// ---------------------------------------------------------------------------------------------
/// The lines of the splash.
pub open spec fn splash_lines(tick: u64) -> Seq<LineModel> {
    let l = crate::commander_screen::plain(Seq::empty(), ""@);
    let l = crate::commander_screen::heading(l, "██████   DedupCommando   ██████"@);
    let l = crate::commander_screen::plain(l, ""@);
    let l = l.push(
        crate::canvas::styled_line(
            "multi-panel ZFS deduplicator"@,
            crate::commander_screen::dim_style(),
        ),
    );
    let l = crate::commander_screen::plain(l, ""@);
    crate::commander_screen::plain(
        l,
        crate::wizard::spinner_frame(tick) + "  detecting ZFS environment…"@,
    )
}

/// The splash.
pub open spec fn splash(screen: Rect, tick: u64) -> Seq<WidgetModel> {
    seq![
        WidgetModel::Clear { area: screen },
        WidgetModel::Border {
            area: screen,
            border: crate::canvas::plain_frame(" DedupCommando "@),
        },
        WidgetModel::Text {
            area: crate::canvas::centered_rect(screen.spec_inner(), 52, 6),
            lines: splash_lines(tick),
            style: crate::canvas::plain_style(),
            frame: None,
            wrap: false,
            centered: true,
        },
    ]
}

/// Initialization splash screen — drawn right after entering the terminal, while the ZFS
/// environment is detected in the background. The spinner turns by `tick` — a "program is alive"
/// signal, no black screen during a long startup.
pub fn render_splash(canvas: &mut Canvas, tick: u64)
    requires
        crate::layout::bounded(old(canvas).area),
    ensures
        final(canvas).area == old(canvas).area,
        final(canvas)@ == old(canvas)@ + splash(old(canvas).area, tick),
{
    let ghost before = canvas@;
    let screen = canvas.area;
    canvas.clear(screen);
    canvas.put(Widget::Border { area: screen, border: Frame::fixed(" DedupCommando ") });
    let mut spin = spinner(tick).to_string();
    spin.push_str("  detecting ZFS environment…");
    let mut lines = no_lines();
    add_plain(&mut lines, "");
    add_heading(&mut lines, "██████   DedupCommando   ██████");
    add_plain(&mut lines, "");
    add_hint(&mut lines, "multi-panel ZFS deduplicator");
    add_plain(&mut lines, "");
    add_plain(&mut lines, spin.as_str());
    canvas.put(
        Widget::Text {
            area: centered(screen.inner(), 52, 6),
            lines,
            style: Style::new(),
            frame: None,
            wrap: false,
            centered: true,
        },
    );
    assert(canvas@ =~= before + splash(screen, tick));
}

// ---------------------------------------------------------------------------------------------
// The whole frame.
// ---------------------------------------------------------------------------------------------
/// What the wizard's screens show.
#[derive(Debug)]
pub struct Wizard {
    pub screen: Screen,
    pub config: ScanConfig,
    pub capabilities: Capabilities,
    pub folder_picker: FolderPicker,
    pub sessions: SessionsState,
    pub scanning: ScanProgress,
    pub applying: ApplyProgress,
    pub browser: BrowserState,
    pub review: ReviewState,
    pub result: Option<BatchResult>,
    /// Why a file may be worth nothing, in the order the summary counts the reasons.
    pub reasons: Vec<String>,
    /// What the store could not settle of the batch.
    pub unsettled: Option<String>,
    pub scan_diff: ScanDiffState,
    pub trashed: Vec<ResumeInfo>,
    pub trash_cursor: usize,
    pub tick: u64,
    pub status: String,
}

impl Wizard {
    /// The comparison shows one of its categories, and every reason has its words.
    pub open spec fn valid(self) -> bool {
        self.scan_diff.category < 6 && self.reasons@.len() == 7
    }
}

/// What lies over the screen.
#[derive(Debug, Clone)]
pub struct Overlays {
    pub rss_bytes: u64,
    /// The processor's load in percent, rounded and printed.
    pub cpu: String,
    pub confirm: Option<ConfirmAction>,
    /// How long a result has been loading.
    pub opening_ms: Option<u64>,
    /// What the commander runs on.
    pub host: String,
    /// A role is to be chosen beside this operator.
    pub concurrency_prompt: Option<Holder>,
    /// Consent is to be given.
    pub disclaimer: Option<Disclaimer>,
}

/// A wizard's screen was drawn: `after` is `before` with the screen on top, and of the wizard
/// only what the screen itself remembers has changed.
pub open spec fn wizard_drawn(
    w: Wizard,
    screen: Rect,
    version: Seq<char>,
    before: Seq<WidgetModel>,
    v: Wizard,
    after: Seq<WidgetModel>,
) -> bool {
    match w.screen {
        Screen::ScanConfig => v == w && exists|at: Seq<Rect>|
            #[trigger] crate::wizard::strips_of(screen, crate::setup::config_extents(), at)
                && after == before + crate::setup::config_widgets(
                w.config,
                w.capabilities,
                at,
                w.status@,
            ),
        Screen::FolderPicker => v == w && exists|at: crate::layout::ThreeRows|
            #[trigger] crate::layout::three_rows(screen, 3, 3, 3, at) && after == before
                + crate::setup::picker_widgets(w.folder_picker, at),
        Screen::Resume => v == w && exists|at: crate::layout::ThreeRows|
            #[trigger] crate::layout::three_rows(screen, 3, 3, 4, at) && after == before
                + crate::sessions::sessions_widgets(w.sessions, at, version, w.status@),
        Screen::Scanning => v == w && exists|at: Seq<Rect>|
            #[trigger] crate::wizard::strips_of(
                screen.spec_inner(),
                crate::progress::scan_extents(),
                at,
            ) && after == before + crate::progress::scan_widgets(w.scanning, w.tick, screen, at),
        Screen::Applying => v == w && exists|at: Seq<Rect>|
            #[trigger] crate::wizard::strips_of(
                screen.spec_inner(),
                crate::progress::apply_extents(),
                at,
            ) && after == before + crate::progress::apply_widgets(w.applying, w.tick, screen, at),
        Screen::Browser => exists|at: crate::browser::BrowserRegions|
            #[trigger] crate::browser::browser_regions(screen, at) && after == before
                + crate::browser::browser_widgets(w.browser, at, version, w.status@) && v
                == (Wizard { browser: crate::browser::browser_drawn(w.browser, at), ..w }),
        Screen::ActionReview => exists|at: crate::wizard::BodyAndFoot|
            #[trigger] crate::wizard::body_and_foot(screen, 6, at) && after == before
                + crate::review::review_widgets(w.review, screen, at, w.status@) && v == (Wizard {
                review: crate::review::reviewed(w.review, at.body),
                ..w
            }),
        Screen::Summary => v == w && after == (match w.result {
            Some(b) => before.push(
                crate::summary::summary_widget(
                    screen,
                    crate::summary::summary_lines(
                        b,
                        crate::browser::strings_model(w.reasons@),
                        unsettled_words(w.unsettled),
                    ),
                ),
            ),
            None => before,
        }),
        Screen::ScanDiff => v == w && exists|at: crate::layout::ThreeRows|
            #[trigger] crate::layout::three_rows(screen, 5, 3, 4, at) && after == before
                + crate::scan_diff::diff_widgets(w.scan_diff, at, w.status@),
        Screen::Trash => v == w && exists|at: crate::layout::ThreeRows|
            #[trigger] crate::layout::three_rows(screen, 3, 3, 4, at) && after == before
                + crate::sessions::trash_widgets(w.trashed@, w.trash_cursor, at, w.status@),
    }
}

/// What the store could not settle, in words.
pub open spec fn unsettled_words(unsettled: Option<String>) -> Option<Seq<char>> {
    match unsettled {
        Some(words) => Some(words@),
        None => None,
    }
}

fn draw_summary(canvas: &mut Canvas, w: &Wizard)
    requires
        w.valid(),
    ensures
        final(canvas).area == old(canvas).area,
        final(canvas)@ == (match w.result {
            Some(b) => old(canvas)@.push(
                crate::summary::summary_widget(
                    old(canvas).area,
                    crate::summary::summary_lines(
                        b,
                        crate::browser::strings_model(w.reasons@),
                        unsettled_words(w.unsettled),
                    ),
                ),
            ),
            None => old(canvas)@,
        }),
{
    let unsettled: Option<&str> = match &w.unsettled {
        Some(words) => Some(words.as_str()),
        None => None,
    };
    let result: Option<&BatchResult> = match &w.result {
        Some(b) => Some(b),
        None => None,
    };
    crate::summary::render(canvas, result, &w.reasons, unsettled);
}

/// Draws the wizard's screen.
pub fn render_wizard(canvas: &mut Canvas, w: &mut Wizard, version: &str)
    requires
        crate::layout::bounded(old(canvas).area),
        old(w).valid(),
    ensures
        final(canvas).area == old(canvas).area,
        wizard_drawn(
            *old(w),
            old(canvas).area,
            version@,
            old(canvas)@,
            *final(w),
            final(canvas)@,
        ),
{
    match w.screen {
        Screen::ScanConfig => crate::setup::render_config(
            canvas,
            &w.config,
            &w.capabilities,
            w.status.as_str(),
        ),
        Screen::FolderPicker => crate::setup::render_picker(canvas, &w.folder_picker),
        Screen::Resume => crate::sessions::render(
            canvas,
            &w.sessions,
            version,
            w.status.as_str(),
        ),
        Screen::Scanning => crate::progress::render_scan(canvas, &w.scanning, w.tick),
        Screen::Applying => crate::progress::render_applying(canvas, &w.applying, w.tick),
        Screen::Browser => crate::browser::render(
            canvas,
            &mut w.browser,
            version,
            w.status.as_str(),
        ),
        Screen::ActionReview => crate::review::render(
            canvas,
            &mut w.review,
            w.status.as_str(),
        ),
        Screen::Summary => draw_summary(canvas, w),
        Screen::ScanDiff => crate::scan_diff::render(canvas, &w.scan_diff, w.status.as_str()),
        Screen::Trash => crate::sessions::render_trash(
            canvas,
            &w.trashed,
            w.trash_cursor,
            w.status.as_str(),
        ),
    }
}

/// The help of the mode that is on.
pub open spec fn help(screen: Rect, mode: AppMode, host: Seq<char>, version: Seq<char>) -> Seq<
    WidgetModel,
> {
    match mode {
        AppMode::Commander => crate::commander_screen::boxed(
            screen,
            76,
            42,
            crate::commander_screen::help_lines(host, version),
            " Help "@,
        ),
        AppMode::Wizard => wizard_help(screen, version),
    }
}

/// Widgets that are there only where `shown`.
pub open spec fn where_shown(shown: bool, widgets: Seq<WidgetModel>) -> Seq<WidgetModel> {
    if shown {
        widgets
    } else {
        Seq::empty()
    }
}

/// The question, where one is asked.
pub open spec fn asked(screen: Rect, confirm: Option<ConfirmAction>) -> Seq<WidgetModel> {
    match confirm {
        Some(action) => question(screen, action),
        None => Seq::empty(),
    }
}

/// The loading animation, while a result is loading.
pub open spec fn waiting(screen: Rect, opening_ms: Option<u64>) -> Seq<WidgetModel> {
    match opening_ms {
        Some(elapsed) => opening(screen, elapsed),
        None => Seq::empty(),
    }
}

/// What lies over the screen, bottom to top: the resource indicator, the read-only banner, a
/// question, the loading animation, the help.
pub open spec fn lower_overlays(
    o: Overlays,
    read_only: bool,
    help_in: Option<AppMode>,
    screen: Rect,
    version: Seq<char>,
) -> Seq<WidgetModel> {
    resource_badge(screen, o.rss_bytes, o.cpu@, read_only) + where_shown(
        read_only,
        readonly_badge(screen),
    ) + asked(screen, o.confirm) + waiting(screen, o.opening_ms) + (match help_in {
        Some(mode) => help(screen, mode, o.host@, version),
        None => Seq::empty(),
    })
}

/// The mode whose help is shown, if help is.
pub open spec fn help_of(a: AppModel) -> Option<AppMode> {
    if a.show_help {
        Some(a.mode)
    } else {
        None
    }
}

/// What must be answered before anything else, bottom to top: the choice of a role, the consent.
pub open spec fn gates(o: Overlays, screen: Rect, version: Seq<char>) -> Seq<WidgetModel> {
    (match o.concurrency_prompt {
        Some(h) => concurrency(screen, Some(h)),
        None => Seq::empty(),
    }) + (match o.disclaimer {
        Some(d) => disclaimer(screen, d, version),
        None => Seq::empty(),
    })
}

proof fn lemma_stacked(base: Seq<WidgetModel>, low: Seq<WidgetModel>, high: Seq<WidgetModel>)
    ensures
        base + low + high == base + (low + high),
        base + Seq::<WidgetModel>::empty() == base,
{
    assert(base + low + high =~= base + (low + high));
    assert(base + Seq::<WidgetModel>::empty() =~= base);
}

fn draw_badges(canvas: &mut Canvas, o: &Overlays, read_only: bool)
    ensures
        final(canvas).area == old(canvas).area,
        final(canvas)@ == old(canvas)@ + (resource_badge(
            old(canvas).area,
            o.rss_bytes,
            o.cpu@,
            read_only,
        ) + where_shown(read_only, readonly_badge(old(canvas).area))),
{
    let ghost before = canvas@;
    let ghost screen = canvas.area;
    let ghost low = resource_badge(screen, o.rss_bytes, o.cpu@, read_only);
    render_resource_badge(canvas, o.rss_bytes, o.cpu.as_str(), read_only);
    if read_only {
        render_readonly_badge(canvas);
    }
    proof {
        lemma_stacked(before, low, where_shown(read_only, readonly_badge(screen)));
        lemma_stacked(before + low, low, low);
    }
}

fn draw_boxes(canvas: &mut Canvas, o: &Overlays)
    requires
        crate::layout::bounded(old(canvas).area),
    ensures
        final(canvas).area == old(canvas).area,
        final(canvas)@ == old(canvas)@ + asked(old(canvas).area, o.confirm) + waiting(
            old(canvas).area,
            o.opening_ms,
        ),
{
    let ghost before = canvas@;
    let ghost screen = canvas.area;
    proof {
        lemma_stacked(before, before, before);
        lemma_stacked(before + asked(screen, o.confirm), before, before);
    }
    if let Some(action) = o.confirm {
        render_confirm_modal(canvas, action);
    }
    if let Some(elapsed) = o.opening_ms {
        render_opening_overlay(canvas, elapsed);
    }
}

fn draw_help(canvas: &mut Canvas, mode: AppMode, host: &str, version: &str)
    requires
        crate::layout::bounded(old(canvas).area),
    ensures
        final(canvas).area == old(canvas).area,
        final(canvas)@ == old(canvas)@ + help(old(canvas).area, mode, host@, version@),
{
    match mode {
        AppMode::Commander => crate::commander_screen::render_help(canvas, host, version),
        AppMode::Wizard => render_help(canvas, version),
    }
}

fn draw_overlays(
    canvas: &mut Canvas,
    o: &Overlays,
    read_only: bool,
    help_in: Option<AppMode>,
    version: &str,
)
    requires
        crate::layout::bounded(old(canvas).area),
    ensures
        final(canvas).area == old(canvas).area,
        final(canvas)@ == old(canvas)@ + lower_overlays(
            *o,
            read_only,
            help_in,
            old(canvas).area,
            version@,
        ),
{
    let ghost before = canvas@;
    let ghost screen = canvas.area;
    let ghost badges = resource_badge(screen, o.rss_bytes, o.cpu@, read_only) + where_shown(
        read_only,
        readonly_badge(screen),
    );
    let ghost one = asked(screen, o.confirm);
    let ghost two = waiting(screen, o.opening_ms);
    draw_badges(canvas, o, read_only);
    draw_boxes(canvas, o);
    proof {
        lemma_stacked(before, badges, one);
        lemma_stacked(before, badges + one, two);
    }
    assert(canvas@ == before + (badges + one + two));
    if let Some(mode) = help_in {
        draw_help(canvas, mode, o.host.as_str(), version);
        proof {
            lemma_stacked(before, badges + one + two, help(screen, mode, o.host@, version@));
        }
    } else {
        proof {
            lemma_stacked(badges + one + two, one, two);
        }
    }
}

fn draw_gates(canvas: &mut Canvas, o: &Overlays, version: &str)
    requires
        crate::layout::bounded(old(canvas).area),
    ensures
        final(canvas).area == old(canvas).area,
        final(canvas)@ == old(canvas)@ + gates(*o, old(canvas).area, version@),
{
    let ghost before = canvas@;
    if o.concurrency_prompt.is_some() {
        render_concurrency(canvas, &o.concurrency_prompt);
    }
    if let Some(d) = &o.disclaimer {
        render_disclaimer(canvas, d, version);
    }
    assert(canvas@ =~= before + gates(*o, canvas.area, version@));
}

/// The screen that is on was drawn.
pub open spec fn screen_drawn(
    a: AppModel,
    w: Wizard,
    screen: Rect,
    version: Seq<char>,
    before: Seq<WidgetModel>,
    b: AppModel,
    v: Wizard,
    after: Seq<WidgetModel>,
) -> bool {
    match a.mode {
        AppMode::Commander => v == w && crate::commander_screen::frame_drawn(
            a,
            screen,
            version,
            before,
            b,
            after,
        ),
        AppMode::Wizard => b == a && wizard_drawn(w, screen, version, before, v, after),
    }
}

fn draw_screen(canvas: &mut Canvas, app: &mut App, wizard: &mut Wizard, version: &str)
    requires
        crate::layout::bounded(old(canvas).area),
        old(app)@.mode is Commander ==> old(app)@.valid() && crate::commander_screen::drawable(
            old(canvas).area,
            old(app)@.commander,
        ),
        old(wizard).valid(),
    ensures
        final(canvas).area == old(canvas).area,
        screen_drawn(
            old(app)@,
            *old(wizard),
            old(canvas).area,
            version@,
            old(canvas)@,
            final(app)@,
            *final(wizard),
            final(canvas)@,
        ),
{
    match app.mode {
        AppMode::Commander => crate::commander_screen::render(canvas, app, version),
        AppMode::Wizard => render_wizard(canvas, wizard, version),
    }
}

/// Render dispatcher by current screen; on top — the overlays.
pub fn render(
    canvas: &mut Canvas,
    app: &mut App,
    wizard: &mut Wizard,
    over: &Overlays,
    version: &str,
)
    requires
        crate::layout::bounded(old(canvas).area),
        old(app)@.mode is Commander ==> old(app)@.valid() && crate::commander_screen::drawable(
            old(canvas).area,
            old(app)@.commander,
        ),
        old(wizard).valid(),
    ensures
        final(canvas).area == old(canvas).area,
        exists|drawn: Seq<WidgetModel>|
            #[trigger] screen_drawn(
                old(app)@,
                *old(wizard),
                old(canvas).area,
                version@,
                old(canvas)@,
                final(app)@,
                *final(wizard),
                drawn,
            ) && final(canvas)@ == drawn + lower_overlays(
                *over,
                final(app)@.read_only,
                help_of(final(app)@),
                old(canvas).area,
                version@,
            ) + gates(*over, old(canvas).area, version@),
{
    draw_screen(canvas, app, wizard, version);
    let help_in: Option<AppMode> = if app.show_help {
        Some(app.mode)
    } else {
        None
    };
    draw_overlays(canvas, over, app.read_only, help_in, version);
    draw_gates(canvas, over, version);
}

/// Until consent is given nothing lies over the notice.
pub proof fn law_consent_is_on_top(o: Overlays, screen: Rect, version: Seq<char>)
    requires
        o.disclaimer is Some,
    ensures
        gates(o, screen, version).last() == disclaimer(
            screen,
            o.disclaimer->Some_0,
            version,
        ).last(),
{
}

} // verus!
