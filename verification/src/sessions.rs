//! Saved scans, and those in the trash.

use vstd::prelude::*;

use crate::browser::branded;
use crate::canvas::{
    no_lines, no_rows, push_line, push_row, render_footer, Canvas, Color, Frame, Line, LineModel,
    Rect, Row, RowModel, Style, WidgetModel,
};
use crate::layout::{split_three, ThreeRows};
use crate::model::{ResumeInfo, ScanStatus};
use crate::text::{pad_right, push_i64, push_u64};
use crate::units::{human_bytes, reclaim_cell};
use crate::wizard::{join_paths, push_text_row, put_header, put_picker, spinner};

verus! {

/// The saved scans as they are shown.
#[derive(Debug, Clone)]
pub struct SessionsState {
    pub sessions: Vec<ResumeInfo>,
    pub cursor: usize,
    /// The list is still being read.
    pub loading: bool,
    pub tick: u64,
    /// Size of the database on disk.
    pub db_bytes: u64,
    /// Number of the request whose answer is awaited.
    pub generation: u64,
}

/// The word for a scan's status.
pub open spec fn status_words(status: ScanStatus) -> Seq<char> {
    match status {
        ScanStatus::Walking => "walking"@,
        ScanStatus::Hashing => "hashing"@,
        ScanStatus::Complete => "ready"@,
        ScanStatus::CompleteWithWarnings => "ready ⚠"@,
        ScanStatus::Aborted => "aborted"@,
    }
}

/// The word for a scan's status.
pub fn status_text(status: ScanStatus) -> (r: &'static str)
    ensures
        r@ == status_words(status),
{
    match status {
        ScanStatus::Walking => "walking",
        ScanStatus::Hashing => "hashing",
        ScanStatus::Complete => "ready",
        ScanStatus::CompleteWithWarnings => "ready ⚠",
        ScanStatus::Aborted => "aborted",
    }
}

/// The colour of a scan's status.
pub open spec fn status_color(status: ScanStatus) -> Color {
    match status {
        ScanStatus::Complete => Color::LightGreen,
        ScanStatus::CompleteWithWarnings => Color::Yellow,
        ScanStatus::Hashing => Color::Yellow,
        ScanStatus::Walking => Color::Cyan,
        ScanStatus::Aborted => Color::Red,
    }
}

/// The share of the candidates' volume that is hashed, in whole percent; none without candidates.
pub open spec fn percent_of(hashed: u64, total: u64) -> Option<nat> {
    let scaled: int = if hashed * 100 <= u64::MAX {
        hashed * 100
    } else {
        u64::MAX as int
    };
    if total == 0 {
        None
    } else {
        Some((scaled / (total as int)) as nat)
    }
}

/// What is shown of a scan's status: while it hashes, how far it got by volume.
pub open spec fn status_shown(session: ResumeInfo) -> Seq<char> {
    if session.status == ScanStatus::Hashing {
        match percent_of(session.cand_bytes_hashed, session.cand_bytes_total) {
            Some(percent) => "hashing "@ + crate::text::decimal(percent) + "%"@,
            None => "hashing"@,
        }
    } else {
        status_words(session.status)
    }
}

fn hashed_share(hashed: u64, total: u64) -> (r: Option<u64>)
    ensures
        match r {
            Some(percent) => percent_of(hashed, total) == Some(percent as nat),
            None => percent_of(hashed, total) is None,
        },
{
    let scaled: u64 = match hashed.checked_mul(100) {
        Some(product) => product,
        None => u64::MAX,
    };
    if total == 0 {
        None
    } else {
        Some(scaled / total)
    }
}

/// The coloured status of a saved scan, added to a line: "ready" in soft green; hashing with an
/// honest percentage by candidate volume; walking in cyan; aborted in red.
pub fn status_span(line: &mut Line, session: &ResumeInfo)
    ensures
        final(line)@ == old(line)@.with(
            status_shown(*session),
            crate::canvas::colored(status_color(session.status)),
        ),
{
    let text = match session.status {
        ScanStatus::Hashing => match hashed_share(
            session.cand_bytes_hashed,
            session.cand_bytes_total,
        ) {
            Some(percent) => {
                let mut text = "hashing ".to_string();
                push_u64(&mut text, percent);
                text.push_str("%");
                text
            },
            None => "hashing".to_string(),
        },
        other => status_text(other).to_string(),
    };
    let color = match session.status {
        ScanStatus::Complete => Color::LightGreen,
        ScanStatus::CompleteWithWarnings => Color::Yellow,
        ScanStatus::Hashing => Color::Yellow,
        ScanStatus::Walking => Color::Cyan,
        ScanStatus::Aborted => Color::Red,
    };
    line.add(text, Style::color(color));
}

/// The look of a scan's number.
pub open spec fn number_style() -> Style {
    Style { fg: Some(Color::LightBlue), bg: None, bold: true, dim: false, reversed: false }
}

/// The first line of a saved scan: number, date, status, how much was scanned, the roots.
pub open spec fn session_line(s: ResumeInfo) -> LineModel {
    let plain = crate::canvas::plain_style();
    let line = crate::canvas::blank_line().with(
        "#"@ + crate::text::padded_right(crate::text::signed_decimal(s.scan_id as int), 4)
            + "   "@,
        number_style(),
    ).with(s.created_at@ + "   "@, plain).with(
        status_shown(s),
        crate::canvas::colored(status_color(s.status)),
    );
    let counted = if s.status.spec_is_completed() {
        line.with(
            "   "@ + crate::text::decimal(s.files_scanned as nat) + " files"@,
            crate::canvas::colored(Color::DarkGray),
        )
    } else {
        line
    };
    counted.with(
        "   "@ + crate::wizard::joined(crate::model::paths_model(s.roots@)),
        plain,
    )
}

/// A saved scan: what a completed one is worth is on a line of its own.
pub open spec fn session_row(s: ResumeInfo) -> RowModel {
    RowModel {
        lines: if s.status.spec_is_completed() {
            seq![
                session_line(s),
                crate::canvas::styled_line(
                    "        "@ + crate::units::reclaim_cell_words(s.reclaim),
                    crate::canvas::colored(Color::DarkGray),
                ),
            ]
        } else {
            seq![session_line(s)]
        },
        style: crate::canvas::plain_style(),
    }
}

/// The saved scans.
pub open spec fn session_rows(sessions: Seq<ResumeInfo>) -> Seq<RowModel> {
    sessions.map_values(|s: ResumeInfo| session_row(s))
}

fn first_line(s: &ResumeInfo) -> (r: Line)
    ensures
        r@ == session_line(*s),
{
    let mut number = String::new();
    push_i64(&mut number, s.scan_id);
    assert(number@ =~= crate::text::signed_decimal(s.scan_id as int));
    let mut label = "#".to_string();
    label.push_str(pad_right(number.as_str(), 4).as_str());
    label.push_str("   ");
    let mut line = Line::blank();
    line.add(label, Style::color(Color::LightBlue).bold());
    let mut date = s.created_at.as_str().to_string();
    date.push_str("   ");
    line.add(date, Style::new());
    status_span(&mut line, s);
    if s.status.is_completed() {
        let mut counted = "   ".to_string();
        push_u64(&mut counted, s.files_scanned);
        counted.push_str(" files");
        line.add(counted, Style::color(Color::DarkGray));
    }
    let mut roots = "   ".to_string();
    roots.push_str(join_paths(&s.roots).as_str());
    line.add(roots, Style::new());
    line
}

fn row_of_session(s: &ResumeInfo) -> (r: Row)
    ensures
        r@ == session_row(*s),
{
    let mut lines = no_lines();
    push_line(&mut lines, first_line(s));
    if s.status.is_completed() {
        let mut worth = "        ".to_string();
        worth.push_str(reclaim_cell(s.reclaim).as_str());
        push_line(&mut lines, Line::styled(worth, Style::color(Color::DarkGray)));
    }
    assert(crate::canvas::lines_model(lines@) =~= session_row(*s).lines);
    Row { lines, style: Style::new() }
}

fn rows_of_sessions(sessions: &Vec<ResumeInfo>) -> (r: Vec<Row>)
    ensures
        crate::canvas::rows_model(r@) == session_rows(sessions@),
{
    let ghost all = session_rows(sessions@);
    let mut rows = no_rows();
    let mut i: usize = 0;
    assert(crate::canvas::rows_model(rows@) =~= all.take(0));
    while i < sessions.len()
        invariant
            i <= sessions@.len(),
            all == session_rows(sessions@),
            crate::canvas::rows_model(rows@) == all.take(i as int),
        decreases sessions@.len() - i,
    {
        push_row(&mut rows, row_of_session(&sessions[i]));
        assert(all.take(i as int).push(all[i as int]) =~= all.take(i as int + 1));
        i = i + 1;
    }
    assert(all.take(all.len() as int) =~= all);
    rows
}

/// The head of the saved scans: how large the database is.
pub open spec fn sessions_header(area: Rect, db_bytes: u64, version: Seq<char>) -> WidgetModel {
    crate::canvas::framed_text(
        area,
        seq![
            crate::canvas::text_line(
                " Saved scans · DB on disk: "@ + crate::units::size_text(db_bytes as nat) + " "@,
            ),
        ],
        crate::canvas::FrameModel {
            title: crate::browser::brand_title(version, " Scans "@),
            border: crate::canvas::plain_style(),
        },
    )
}

/// The saved scans on screen.
pub open spec fn sessions_widgets(
    s: SessionsState,
    at: ThreeRows,
    version: Seq<char>,
    status: Seq<char>,
) -> Seq<WidgetModel> {
    if s.loading {
        seq![
            sessions_header(at.top, s.db_bytes, version),
            crate::wizard::header_text(
                at.middle,
                "  "@ + crate::wizard::spinner_frame(s.tick) + "  Loading scan list…"@,
                " Scans "@,
            ),
            crate::canvas::footer(at.bottom, status, "Q quit"@),
        ]
    } else {
        seq![
            sessions_header(at.top, s.db_bytes, version),
            crate::wizard::picker(
                at.middle,
                session_rows(s.sessions@),
                crate::wizard::cursor_in(s.sessions@.len(), s.cursor),
                " Scans — R/Enter open · Del to trash · t trash · N new "@,
            ),
            crate::canvas::footer(
                at.bottom,
                status,
                "↑↓ · R/Enter open · Del to trash · t trash · N new · Q quit"@,
            ),
        ]
    }
}

fn draw_header(canvas: &mut Canvas, area: Rect, db_bytes: u64, version: &str)
    ensures
        final(canvas).area == old(canvas).area,
        final(canvas)@ == old(canvas)@.push(sessions_header(area, db_bytes, version@)),
{
    let mut text = " Saved scans · DB on disk: ".to_string();
    text.push_str(human_bytes(db_bytes).as_str());
    text.push_str(" ");
    let ghost said = text@;
    let mut lines = no_lines();
    push_line(&mut lines, Line::text(text));
    assert(crate::canvas::lines_model(lines@) =~= seq![crate::canvas::text_line(said)]);
    canvas.text(area, lines, Frame { title: branded(version, " Scans "), border: Style::new() });
}

/// Draws the saved scans in an area that was split into `at`.
pub fn render_at(canvas: &mut Canvas, s: &SessionsState, at: &ThreeRows, version: &str, status: &str)
    ensures
        final(canvas).area == old(canvas).area,
        final(canvas)@ == old(canvas)@ + sessions_widgets(*s, *at, version@, status@),
{
    let ghost before = canvas@;
    draw_header(canvas, at.top, s.db_bytes, version);
    if s.loading {
        let mut text = "  ".to_string();
        text.push_str(spinner(s.tick));
        text.push_str("  Loading scan list…");
        put_header(canvas, at.middle, text, " Scans ");
        render_footer(canvas, at.bottom, status, "Q quit");
        assert(canvas@ =~= before + sessions_widgets(*s, *at, version@, status@));
        return;
    }
    let selected: Option<usize> = if s.sessions.len() > 0 {
        Some(s.cursor)
    } else {
        None
    };
    put_picker(
        canvas,
        at.middle,
        rows_of_sessions(&s.sessions),
        selected,
        " Scans — R/Enter open · Del to trash · t trash · N new ",
    );
    render_footer(
        canvas,
        at.bottom,
        status,
        "↑↓ · R/Enter open · Del to trash · t trash · N new · Q quit",
    );
    assert(canvas@ =~= before + sessions_widgets(*s, *at, version@, status@));
}

/// Sessions screen: list of saved scans — choose which one to resume.
pub fn render(canvas: &mut Canvas, s: &SessionsState, version: &str, status: &str)
    ensures
        final(canvas).area == old(canvas).area,
        exists|at: ThreeRows|
            #[trigger] crate::layout::three_rows(old(canvas).area, 3, 3, 4, at) && final(canvas)@
                == old(canvas)@ + sessions_widgets(*s, at, version@, status@),
{
    let at = split_three(canvas.area, 3, 3, 4);
    render_at(canvas, s, &at, version, status);
}

// ---------------------------------------------------------------------------------------------
// The trash.
// ---------------------------------------------------------------------------------------------
/// A scan in the trash.
pub open spec fn trash_text(s: ResumeInfo) -> Seq<char> {
    s.created_at@ + "  ·  "@ + crate::wizard::joined(crate::model::paths_model(s.roots@))
}

/// The scans in the trash.
pub open spec fn trash_rows(trashed: Seq<ResumeInfo>) -> Seq<RowModel> {
    trashed.map_values(|s: ResumeInfo| crate::wizard::text_row(trash_text(s)))
}

/// The trash on screen.
pub open spec fn trash_widgets(
    trashed: Seq<ResumeInfo>,
    cursor: usize,
    at: ThreeRows,
    status: Seq<char>,
) -> Seq<WidgetModel> {
    seq![
        crate::wizard::header_text(
            at.top,
            " Trash — deleted scans "@,
            " DedupCommando — trash "@,
        ),
        crate::wizard::picker(
            at.middle,
            trash_rows(trashed),
            crate::wizard::cursor_in(trashed.len(), cursor),
            " R/Enter restore · Del purge permanently · Esc back "@,
        ),
        crate::canvas::footer(
            at.bottom,
            status,
            "↑↓ select · R restore · Del purge permanently · Esc back"@,
        ),
    ]
}

fn rows_of_trash(trashed: &Vec<ResumeInfo>) -> (r: Vec<Row>)
    ensures
        crate::canvas::rows_model(r@) == trash_rows(trashed@),
{
    let ghost all = trash_rows(trashed@);
    let mut rows = no_rows();
    let mut i: usize = 0;
    assert(crate::canvas::rows_model(rows@) =~= all.take(0));
    while i < trashed.len()
        invariant
            i <= trashed@.len(),
            all == trash_rows(trashed@),
            crate::canvas::rows_model(rows@) == all.take(i as int),
        decreases trashed@.len() - i,
    {
        let mut text = trashed[i].created_at.as_str().to_string();
        text.push_str("  ·  ");
        text.push_str(join_paths(&trashed[i].roots).as_str());
        push_text_row(&mut rows, text);
        assert(all.take(i as int).push(all[i as int]) =~= all.take(i as int + 1));
        i = i + 1;
    }
    assert(all.take(all.len() as int) =~= all);
    rows
}

/// Draws the trash in an area that was split into `at`.
pub fn render_trash_at(
    canvas: &mut Canvas,
    trashed: &Vec<ResumeInfo>,
    cursor: usize,
    at: &ThreeRows,
    status: &str,
)
    ensures
        final(canvas).area == old(canvas).area,
        final(canvas)@ == old(canvas)@ + trash_widgets(trashed@, cursor, *at, status@),
{
    let ghost before = canvas@;
    put_header(
        canvas,
        at.top,
        " Trash — deleted scans ".to_string(),
        " DedupCommando — trash ",
    );
    let selected: Option<usize> = if trashed.len() > 0 {
        Some(cursor)
    } else {
        None
    };
    put_picker(
        canvas,
        at.middle,
        rows_of_trash(trashed),
        selected,
        " R/Enter restore · Del purge permanently · Esc back ",
    );
    render_footer(
        canvas,
        at.bottom,
        status,
        "↑↓ select · R restore · Del purge permanently · Esc back",
    );
    assert(canvas@ =~= before + trash_widgets(trashed@, cursor, *at, status@));
}

/// "Trash" screen: sessions marked for deletion — restore or purge permanently.
pub fn render_trash(canvas: &mut Canvas, trashed: &Vec<ResumeInfo>, cursor: usize, status: &str)
    ensures
        final(canvas).area == old(canvas).area,
        exists|at: ThreeRows|
            #[trigger] crate::layout::three_rows(old(canvas).area, 3, 3, 4, at) && final(canvas)@
                == old(canvas)@ + trash_widgets(trashed@, cursor, at, status@),
{
    let at = split_three(canvas.area, 3, 3, 4);
    render_trash_at(canvas, trashed, cursor, &at, status);
}

} // verus!
