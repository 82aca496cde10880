//! Modal overlays of the commander — drawn on top of the panels.

use vstd::prelude::*;

use crate::canvas::{
    centered, no_lines, no_rows, push_line, push_row, Canvas, Color, Frame, Line, LineModel,
    ListState, Rect, Row, RowModel, Style, Widget, WidgetModel,
};
use crate::entries::{order_texts, Standing};
use crate::model::{ActionKind, ResumeInfo};
use crate::state::{ConfirmScroll, ConfirmTab, DigestModel, PlanDigest};
use crate::text::{char_count, ellipsize_left, lines_of, pad_right, push_u64, push_usize};
use crate::units::human_bytes;

verus! {

// ---------------------------------------------------------------------------------------------
// The menu.
// ---------------------------------------------------------------------------------------------
/// The length of the longest of several texts; none of none.
pub open spec fn longest(texts: Seq<Seq<char>>) -> Option<nat>
    decreases texts.len(),
{
    if texts.len() == 0 {
        None
    } else {
        match longest(texts.drop_last()) {
            Some(n) => Some(
                if texts.last().len() > n {
                    texts.last().len()
                } else {
                    n
                },
            ),
            None => Some(texts.last().len()),
        }
    }
}

/// The contents of several fixed texts.
pub open spec fn labels_model(labels: Seq<&str>) -> Seq<Seq<char>> {
    labels.map_values(|l: &str| l@)
}

/// The longest of several texts, or a figure for none.
pub open spec fn longest_or(texts: Seq<Seq<char>>, none: nat) -> nat {
    match longest(texts) {
        Some(n) => n,
        None => none,
    }
}

fn longest_label(labels: &[&str], none: usize) -> (r: usize)
    ensures
        r == longest_or(labels_model(labels@), none as nat),
{
    let ghost all = labels_model(labels@);
    let mut best: usize = none;
    let mut i: usize = 0;
    while i < labels.len()
        invariant
            i <= labels@.len(),
            all == labels_model(labels@),
            i == 0 ==> best == none,
            i > 0 ==> longest(all.take(i as int)) == Some(best as nat),
        decreases labels@.len() - i,
    {
        let count: usize = char_count(labels[i]);
        assert(all.take(i as int + 1).drop_last() =~= all.take(i as int));
        if i == 0 || count > best {
            best = count;
        }
        i = i + 1;
    }
    assert(all.take(all.len() as int) =~= all);
    best
}

/// The look of the entry under the menu's cursor and of the open tab.
pub open spec fn lit_style() -> Style {
    Style {
        fg: Some(Color::Black),
        bg: Some(Color::Cyan),
        bold: true,
        dim: false,
        reversed: false,
    }
}

/// The box of the menu.
pub open spec fn menu_area(screen: Rect, labels: Seq<Seq<char>>) -> Rect {
    crate::canvas::centered_rect(
        screen,
        (longest_or(labels, 20) + 6) as u16,
        (labels.len() + 2) as u16,
    )
}

/// The menu's entries.
pub open spec fn menu_rows(labels: Seq<Seq<char>>) -> Seq<RowModel> {
    labels.map_values(
        |l: Seq<char>|
            crate::canvas::row_of_line(crate::canvas::text_line("  "@ + l + "  "@)),
    )
}

/// The menu, its cursor held to its entries.
pub open spec fn menu_widgets(screen: Rect, cursor: usize, labels: Seq<Seq<char>>) -> Seq<
    WidgetModel,
> {
    let area = menu_area(screen, labels);
    let last: int = if labels.len() > 0 {
        labels.len() - 1
    } else {
        0
    };
    seq![
        WidgetModel::Clear { area },
        WidgetModel::List {
            area,
            rows: menu_rows(labels),
            state: ListState {
                selected: Some(
                    if cursor <= last {
                        cursor
                    } else {
                        last as usize
                    },
                ),
                offset: 0,
            },
            frame: Some(crate::canvas::plain_frame(" Menu — F9 "@)),
            pointer: false,
            highlight: lit_style(),
        },
    ]
}

/// Draws the F9 dropdown menu; the cursor is on item `cursor`.
pub fn render_menu(canvas: &mut Canvas, cursor: usize, labels: &[&str])
    requires
        crate::layout::bounded(old(canvas).area),
        longest_or(labels_model(labels@), 20) + 6 <= u16::MAX,
        labels@.len() + 2 <= u16::MAX,
    ensures
        final(canvas).area == old(canvas).area,
        final(canvas)@ == old(canvas)@ + menu_widgets(
            old(canvas).area,
            cursor,
            labels_model(labels@),
        ),
{
    let ghost before = canvas@;
    let ghost screen = canvas.area;
    let ghost texts = labels_model(labels@);
    let width: u16 = (longest_label(labels, 20) + 6) as u16;
    let height: u16 = (labels.len() + 2) as u16;
    let area = centered(canvas.area, width, height);
    canvas.clear(area);
    let ghost all = menu_rows(texts);
    let mut items = no_rows();
    let mut i: usize = 0;
    assert(crate::canvas::rows_model(items@) =~= all.take(0));
    while i < labels.len()
        invariant
            i <= labels@.len(),
            texts == labels_model(labels@),
            all == menu_rows(texts),
            crate::canvas::rows_model(items@) == all.take(i as int),
        decreases labels@.len() - i,
    {
        let mut text = "  ".to_string();
        text.push_str(labels[i]);
        text.push_str("  ");
        push_row(&mut items, Row::of(Line::text(text)));
        assert(all.take(i as int).push(all[i as int]) =~= all.take(i as int + 1));
        i = i + 1;
    }
    assert(all.take(all.len() as int) =~= all);
    let last: usize = labels.len().saturating_sub(1);
    let selected: usize = if cursor <= last {
        cursor
    } else {
        last
    };
    canvas.put(
        Widget::List {
            area,
            rows: items,
            state: ListState { selected: Some(selected), offset: 0 },
            frame: Some(Frame::fixed(" Menu — F9 ")),
            pointer: false,
            highlight: Style::color(Color::Black).on(Color::Cyan).bold(),
        },
    );
    assert(canvas@ =~= before + menu_widgets(screen, cursor, texts));
}

// ---------------------------------------------------------------------------------------------
// The confirmation.
// ---------------------------------------------------------------------------------------------
/// Box width of the Summary tab.
pub const SUMMARY_WIDTH: u16 = 66;

/// Overlay title; both tabs share the stem, Commands appends its line range.
pub const CONFIRM_TITLE: &'static str = " Confirmation — F11 ";

/// Rows every confirmation box spends before any hint line: two borders and the tab strip.
pub const CHROME_FIXED: usize = 3;

/// Key hint of the Summary tab.
pub const SUMMARY_HINT: &'static str = "  [Tab] tab  [S] save .sh  [Y] execute  [N]/[Esc] cancel";

/// Scrolling hint of the Commands tab. It is dropped before the decision hint on a window too
/// small for both.
pub const COMMANDS_SCROLL_HINT: &'static str = "  ↑↓ · PgUp/PgDn · Home/End — scroll";

/// Decision hint of the Commands tab.
pub const COMMANDS_HINT: &'static str = "  [Tab] tab  [S] save .sh (whole script)  [Y] execute  [N]/[Esc] cancel";

/// The Commands box stops growing here; beyond it the script scrolls.
pub const COMMANDS_MAX_ROWS: u16 = 44;

/// Body rows that survive every shrink — the count, the composition, and the admission of what
/// is not being shown. Below this the blank separators are dropped first.
pub const SUMMARY_MIN_BODY: usize = 3;

/// Width left for a path once the indent and the padded action label have been printed.
pub const SUMMARY_PATH: usize = 52;

/// What the Summary body has given up so far, in the order it is given up.
#[derive(Debug, Clone, Copy, PartialEq, Eq, Structural)]
pub struct Shed {
    /// Quoted target paths still shown.
    pub samples: usize,
    /// Blank separators still shown.
    pub spacing: bool,
    /// The snapshot reassurance still shown.
    pub note: bool,
    /// The reclaim estimate still shown.
    pub size: bool,
}

impl Shed {
    /// Nothing given up.
    pub fn new(samples: usize) -> (r: Shed)
        ensures
            r == whole(samples),
    {
        Shed { samples, spacing: true, note: true, size: true }
    }

    /// Only the essentials are left.
    pub open spec fn bare(self) -> bool {
        self.samples == 0 && !self.spacing && !self.note && !self.size
    }

    /// With the next least-needed thing given up.
    pub open spec fn less(self) -> Shed {
        if self.samples > 0 {
            Shed { samples: (self.samples - 1) as usize, ..self }
        } else if self.spacing {
            Shed { spacing: false, ..self }
        } else if self.note {
            Shed { note: false, ..self }
        } else {
            Shed { size: false, ..self }
        }
    }

    /// How much is left to give up.
    pub open spec fn weight(self) -> nat {
        (self.samples + (if self.spacing {
            1int
        } else {
            0
        }) + (if self.note {
            1int
        } else {
            0
        }) + (if self.size {
            1int
        } else {
            0
        })) as nat
    }

    /// Things are given up in their order: paths before spacing, spacing before the note, the
    /// note before the size.
    pub open spec fn orderly(self) -> bool {
        &&& self.samples > 0 ==> self.spacing
        &&& self.spacing ==> self.note
        &&& self.note ==> self.size
    }

    /// Gives up the next least-needed thing; `false` when only the essentials are left.
    pub fn shrink(&mut self) -> (r: bool)
        ensures
            r == !old(self).bare(),
            *final(self) == (if r {
                old(self).less()
            } else {
                *old(self)
            }),
    {
        if self.samples > 0 {
            self.samples = self.samples - 1;
        } else if self.spacing {
            self.spacing = false;
        } else if self.note {
            self.note = false;
        } else if self.size {
            self.size = false;
        } else {
            return false;
        }
        true
    }
}

/// Nothing given up.
pub open spec fn whole(samples: usize) -> Shed {
    Shed { samples, spacing: true, note: true, size: true }
}

/// The composition of a plan: each kind and its count.
pub open spec fn by_kind(counts: Seq<(ActionKind, usize)>) -> Seq<char>
    decreases counts.len(),
{
    if counts.len() == 0 {
        Seq::empty()
    } else {
        let rest = by_kind(counts.drop_last());
        (if counts.len() == 1 {
            rest
        } else {
            rest + " · "@
        }) + crate::model::action_word(counts.last().0) + " "@ + crate::text::decimal(
            counts.last().1 as nat,
        )
    }
}

fn composition(counts: &Vec<(ActionKind, usize)>) -> (r: String)
    ensures
        r@ == by_kind(counts@),
{
    let mut out = String::new();
    let mut i: usize = 0;
    assert(out@ =~= by_kind(counts@.take(0)));
    while i < counts.len()
        invariant
            i <= counts@.len(),
            out@ == by_kind(counts@.take(i as int)),
        decreases counts@.len() - i,
    {
        assert(counts@.take(i as int + 1).drop_last() =~= counts@.take(i as int));
        if i > 0 {
            out.push_str(" · ");
        }
        out.push_str(counts[i].0.word());
        out.push_str(" ");
        push_usize(&mut out, counts[i].1);
        i = i + 1;
    }
    assert(counts@.take(counts@.len() as int) =~= counts@);
    out
}

/// How many targets are quoted at a level of shedding.
pub open spec fn quoted(d: DigestModel, shed: Shed) -> int {
    if d.samples.len() < shed.samples {
        d.samples.len() as int
    } else {
        shed.samples as int
    }
}

/// A quoted target: what is done to it, and its path cut on the left.
pub open spec fn sample_line(kind: ActionKind, target: crate::path::PathView) -> Seq<char> {
    "  "@ + crate::text::padded_right(crate::model::action_label(kind), 9) + " "@
        + crate::text::left_cut(target.shown_safely(), 52)
}

/// The quoted targets.
pub open spec fn sample_lines(d: DigestModel, shown: int) -> Seq<Seq<char>> {
    Seq::new(shown as nat, |i: int| sample_line(d.samples[i].0, d.samples[i].1))
}

/// A blank line, where there is room for it.
pub open spec fn spacer(wanted: bool) -> Seq<Seq<char>> {
    if wanted {
        seq![Seq::<char>::empty()]
    } else {
        Seq::empty()
    }
}

/// Everything the plan holds that is not shown by name.
pub open spec fn unnamed(d: DigestModel, shed: Shed) -> int {
    d.hidden + (d.samples.len() - quoted(d, shed))
}

/// The count and the composition — what is never given up.
pub open spec fn essentials(files: usize, d: DigestModel) -> Seq<Seq<char>> {
    let count = seq!["  Actions to be executed: "@ + crate::text::decimal(files as nat)];
    if d.counts.len() > 0 {
        count.push("  By type: "@ + by_kind(d.counts))
    } else {
        count
    }
}

/// The estimate, unless it is given up.
pub open spec fn freed_part(reclaim: u64, shed: Shed) -> Seq<Seq<char>> {
    if shed.size {
        seq!["  Approximately freed: "@ + crate::units::size_text(reclaim as nat)]
    } else {
        Seq::empty()
    }
}

/// The quoted targets, as far as they are not given up.
pub open spec fn sample_part(d: DigestModel, shed: Shed) -> Seq<Seq<char>> {
    if quoted(d, shed) > 0 {
        spacer(shed.spacing) + sample_lines(d, quoted(d, shed))
    } else {
        Seq::empty()
    }
}

/// The admission of what is not shown by name.
pub open spec fn rest_part(d: DigestModel, shed: Shed) -> Seq<Seq<char>> {
    if unnamed(d, shed) > 0 {
        seq!["  … and "@ + crate::text::decimal(unnamed(d, shed) as nat) + " more"@]
    } else {
        Seq::empty()
    }
}

/// The snapshot note, unless it is given up.
pub open spec fn note_part(shed: Shed) -> Seq<Seq<char>> {
    if shed.note {
        spacer(shed.spacing).push("  A ZFS snapshot for rollback is created before changes."@)
    } else {
        Seq::empty()
    }
}

/// The Summary body at one particular level of shedding.
pub open spec fn composed(files: usize, reclaim: u64, d: DigestModel, shed: Shed) -> Seq<Seq<char>> {
    essentials(files, d) + freed_part(reclaim, shed) + sample_part(d, shed) + rest_part(d, shed)
        + note_part(shed)
}

fn push_text(lines: &mut Vec<String>, text: String)
    ensures
        crate::browser::strings_model(final(lines)@) == crate::browser::strings_model(
            old(lines)@,
        ).push(text@),
{
    lines.push(text);
    assert(crate::browser::strings_model(lines@) =~= crate::browser::strings_model(
        old(lines)@,
    ).push(text@));
}

fn push_samples(lines: &mut Vec<String>, digest: &PlanDigest, shown: usize)
    requires
        shown <= digest@.samples.len(),
    ensures
        crate::browser::strings_model(final(lines)@) == crate::browser::strings_model(old(lines)@)
            + sample_lines(digest@, shown as int),
{
    let ghost before = crate::browser::strings_model(lines@);
    let ghost all = sample_lines(digest@, shown as int);
    let mut i: usize = 0;
    assert(crate::browser::strings_model(lines@) =~= before + all.take(0));
    while i < shown
        invariant
            i <= shown <= digest.samples@.len(),
            all == sample_lines(digest@, shown as int),
            crate::browser::strings_model(lines@) == before + all.take(i as int),
        decreases shown - i,
    {
        let mut text = "  ".to_string();
        text.push_str(pad_right(digest.samples[i].0.label(), 9).as_str());
        text.push_str(" ");
        text.push_str(
            ellipsize_left(digest.samples[i].1.display_safely().as_str(), SUMMARY_PATH).as_str(),
        );
        push_text(lines, text);
        assert(before + all.take(i as int + 1) =~= (before + all.take(i as int)).push(
            all[i as int],
        ));
        i = i + 1;
    }
    assert(all.take(shown as int) =~= all);
}

fn essential_lines(files: usize, digest: &PlanDigest) -> (r: Vec<String>)
    ensures
        crate::browser::strings_model(r@) == essentials(files, digest@),
{
    let mut lines: Vec<String> = Vec::new();
    let mut count = "  Actions to be executed: ".to_string();
    push_usize(&mut count, files);
    push_text(&mut lines, count);
    if digest.counts.len() > 0 {
        let mut text = "  By type: ".to_string();
        text.push_str(composition(&digest.counts).as_str());
        push_text(&mut lines, text);
    }
    assert(crate::browser::strings_model(lines@) =~= essentials(files, digest@));
    lines
}

fn push_freed(lines: &mut Vec<String>, reclaim: u64, shed: Shed)
    ensures
        crate::browser::strings_model(final(lines)@) == crate::browser::strings_model(old(lines)@)
            + freed_part(reclaim, shed),
{
    let ghost before = crate::browser::strings_model(lines@);
    if shed.size {
        let mut text = "  Approximately freed: ".to_string();
        text.push_str(human_bytes(reclaim).as_str());
        push_text(lines, text);
    }
    assert(crate::browser::strings_model(lines@) =~= before + freed_part(reclaim, shed));
}

fn push_quoted(lines: &mut Vec<String>, digest: &PlanDigest, shed: Shed)
    ensures
        crate::browser::strings_model(final(lines)@) == crate::browser::strings_model(old(lines)@)
            + sample_part(digest@, shed),
{
    let ghost before = crate::browser::strings_model(lines@);
    let shown: usize = if digest.samples.len() < shed.samples {
        digest.samples.len()
    } else {
        shed.samples
    };
    if shown > 0 {
        if shed.spacing {
            push_text(lines, String::new());
        }
        push_samples(lines, digest, shown);
    }
    assert(crate::browser::strings_model(lines@) =~= before + sample_part(digest@, shed));
}

fn push_rest(lines: &mut Vec<String>, digest: &PlanDigest, shed: Shed)
    requires
        digest.hidden + digest@.samples.len() <= usize::MAX,
    ensures
        crate::browser::strings_model(final(lines)@) == crate::browser::strings_model(old(lines)@)
            + rest_part(digest@, shed),
{
    let ghost before = crate::browser::strings_model(lines@);
    let shown: usize = if digest.samples.len() < shed.samples {
        digest.samples.len()
    } else {
        shed.samples
    };
    let rest: usize = digest.hidden + (digest.samples.len() - shown);
    if rest > 0 {
        let mut text = "  … and ".to_string();
        push_usize(&mut text, rest);
        text.push_str(" more");
        push_text(lines, text);
    }
    assert(crate::browser::strings_model(lines@) =~= before + rest_part(digest@, shed));
}

fn push_note(lines: &mut Vec<String>, shed: Shed)
    ensures
        crate::browser::strings_model(final(lines)@) == crate::browser::strings_model(old(lines)@)
            + note_part(shed),
{
    let ghost before = crate::browser::strings_model(lines@);
    if shed.note {
        if shed.spacing {
            push_text(lines, String::new());
        }
        push_text(
            lines,
            "  A ZFS snapshot for rollback is created before changes.".to_string(),
        );
    }
    assert(crate::browser::strings_model(lines@) =~= before + note_part(shed));
}

/// The Summary body at one particular level of shedding.
pub fn compose(files: usize, reclaim: u64, digest: &PlanDigest, shed: Shed) -> (r: Vec<String>)
    requires
        digest.hidden + digest@.samples.len() <= usize::MAX,
    ensures
        crate::browser::strings_model(r@) == composed(files, reclaim, digest@, shed),
{
    let mut lines = essential_lines(files, digest);
    push_freed(&mut lines, reclaim, shed);
    push_quoted(&mut lines, digest, shed);
    push_rest(&mut lines, digest, shed);
    push_note(&mut lines, shed);
    lines
}

/// The level of shedding at which the body fits, or the last one.
pub open spec fn shed_to(
    files: usize,
    reclaim: u64,
    d: DigestModel,
    shed: Shed,
    max_rows: int,
) -> Shed
    decreases shed.weight(),
{
    if composed(files, reclaim, d, shed).len() <= max_rows || shed.bare() {
        shed
    } else {
        shed_to(files, reclaim, d, shed.less(), max_rows)
    }
}

/// The first lines of a text, at most so many.
pub open spec fn at_most(lines: Seq<Seq<char>>, max_rows: int) -> Seq<Seq<char>> {
    if lines.len() <= max_rows {
        lines
    } else {
        lines.take(max_rows)
    }
}

/// The Summary body: as much of it as fits, and what does not even fit bare is cut.
pub open spec fn summary_body(files: usize, reclaim: u64, d: DigestModel, max_rows: int) -> Seq<
    Seq<char>,
> {
    at_most(
        composed(
            files,
            reclaim,
            d,
            shed_to(files, reclaim, d, whole(d.samples.len() as usize), max_rows),
        ),
        max_rows,
    )
}

/// Text of the Summary tab, shrunk to `max_rows`.
///
/// The [Y]/[N] hint is not part of this body and is never shed. What goes, in order: the quoted
/// paths, then the blank spacing, then the snapshot note, then the size estimate. The count, the
/// `By type` composition and «… and N more» are what remain.
pub fn summary_lines(files: usize, reclaim: u64, digest: &PlanDigest, max_rows: usize) -> (r: Vec<
    String,
>)
    requires
        digest.hidden + digest@.samples.len() <= usize::MAX,
    ensures
        crate::browser::strings_model(r@) == summary_body(files, reclaim, digest@, max_rows as int),
        r@.len() <= max_rows,
{
    let ghost d = digest@;
    let mut shed = Shed::new(digest.samples.len());
    let mut lines = compose(files, reclaim, digest, shed);
    let mut more = true;
    while lines.len() > max_rows && more
        invariant
            d == digest@,
            d.samples.len() <= usize::MAX,
            digest.hidden + digest@.samples.len() <= usize::MAX,
            crate::browser::strings_model(lines@) == composed(files, reclaim, d, shed),
            !more ==> shed.bare(),
            shed_to(files, reclaim, d, shed, max_rows as int) == shed_to(
                files,
                reclaim,
                d,
                whole(d.samples.len() as usize),
                max_rows as int,
            ),
        decreases
            shed.weight(),
            if more {
                1int
            } else {
                0
            },
    {
        assert(crate::browser::strings_model(lines@).len() == lines@.len());
        more = shed.shrink();
        if more {
            lines = compose(files, reclaim, digest, shed);
        }
    }
    assert(crate::browser::strings_model(lines@).len() == lines@.len());
    let ghost full = crate::browser::strings_model(lines@);
    if lines.len() > max_rows {
        lines.truncate(max_rows);
        assert(crate::browser::strings_model(lines@) =~= full.take(max_rows as int));
    }
    lines
}

/// Whatever the room, the Summary keeps to it; with three rows it is a whole body, from which
/// things were given up in their order: the count and the composition are there, and every target
/// of the plan is quoted or counted.
pub proof fn law_the_summary_keeps_the_essentials(
    files: usize,
    reclaim: u64,
    d: DigestModel,
    max_rows: int,
)
    requires
        max_rows >= 0,
        d.samples.len() <= usize::MAX,
    ensures
        summary_body(files, reclaim, d, max_rows).len() <= max_rows,
        max_rows >= 3 ==> {
            let shed = shed_to(files, reclaim, d, whole(d.samples.len() as usize), max_rows);
            &&& summary_body(files, reclaim, d, max_rows) == composed(files, reclaim, d, shed)
            &&& shed.orderly()
            &&& quoted(d, shed) + unnamed(d, shed) == d.samples.len() + d.hidden
        },
        max_rows >= 3 ==> essentials(files, d).is_prefix_of(
            summary_body(files, reclaim, d, max_rows),
        ),
{
    lemma_shedding_is_orderly(files, reclaim, d, whole(d.samples.len() as usize), max_rows);
    let shed = shed_to(files, reclaim, d, whole(d.samples.len() as usize), max_rows);
    let full = composed(files, reclaim, d, shed);
    if shed.bare() {
        assert(full.len() <= 3);
    }
    if max_rows >= 3 {
        assert(essentials(files, d) =~= full.subrange(0, essentials(files, d).len() as int));
    }
}

proof fn lemma_shedding_is_orderly(
    files: usize,
    reclaim: u64,
    d: DigestModel,
    shed: Shed,
    max_rows: int,
)
    requires
        shed.orderly(),
    ensures
        shed_to(files, reclaim, d, shed, max_rows).orderly(),
        shed_to(files, reclaim, d, shed, max_rows).bare() || composed(
            files,
            reclaim,
            d,
            shed_to(files, reclaim, d, shed, max_rows),
        ).len() <= max_rows,
    decreases shed.weight(),
{
    if !(composed(files, reclaim, d, shed).len() <= max_rows || shed.bare()) {
        lemma_shedding_is_orderly(files, reclaim, d, shed.less(), max_rows);
    }
}

/// A tab's label; the open one is lit.
pub open spec fn tab_look(active: bool) -> Style {
    if active {
        lit_style()
    } else {
        crate::canvas::colored(Color::DarkGray)
    }
}

/// Adds a tab's label to the strip.
pub fn tab_span(line: &mut Line, label: &str, active: bool)
    ensures
        final(line)@ == old(line)@.with(" "@ + label@ + " "@, tab_look(active)),
{
    let mut text = " ".to_string();
    text.push_str(label);
    text.push_str(" ");
    if active {
        line.add(text, Style::color(Color::Black).on(Color::Cyan).bold());
    } else {
        line.add(text, Style::color(Color::DarkGray));
    }
}

/// The tab strip.
pub open spec fn tab_strip(tab: ConfirmTab) -> LineModel {
    crate::canvas::blank_line().with("  "@, crate::canvas::plain_style()).with(
        " "@ + "Summary"@ + " "@,
        tab_look(tab == ConfirmTab::Summary),
    ).with("  "@, crate::canvas::plain_style()).with(
        " "@ + "Commands"@ + " "@,
        tab_look(tab == ConfirmTab::Commands),
    )
}

/// How a confirmation box is put together: how many rows it has, whether the blank separators
/// stand, and whether the scrolling hint does.
pub struct Layers {
    pub rows: int,
    pub gaps: bool,
    pub scroll_hint: bool,
}

impl Layers {
    /// Rows that are not the body.
    pub open spec fn chrome(self) -> int {
        3 + self.hints() + (if self.gaps {
            2int
        } else {
            0
        })
    }

    /// Hint lines.
    pub open spec fn hints(self) -> int {
        if self.scroll_hint {
            2
        } else {
            1
        }
    }

    /// Rows of the body.
    pub open spec fn body(self) -> int {
        if self.rows > self.chrome() {
            self.rows - self.chrome()
        } else {
            0
        }
    }
}

/// The Summary box on a screen this high.
pub open spec fn summary_layers(height: int) -> Layers {
    Layers { rows: height, gaps: height >= 9, scroll_hint: false }
}

/// The Commands box on a screen this high.
pub open spec fn commands_layers(height: int) -> Layers {
    let rows = if height < 44 {
        height
    } else {
        44
    };
    let scroll_hint = rows >= 5;
    let fixed = if scroll_hint {
        5int
    } else {
        4
    };
    Layers { rows, gaps: rows >= fixed + 3, scroll_hint }
}

/// Width of the Commands box.
pub open spec fn commands_width(width: u16) -> u16 {
    if width < 44 {
        40
    } else if width > 114 {
        110
    } else {
        (width - 4) as u16
    }
}

/// The window of the script.
pub open spec fn script_window(script: Seq<char>, offset: int, rows: int) -> Seq<Seq<char>> {
    let lines = crate::text::text_lines(script);
    let from = if offset < lines.len() {
        offset
    } else {
        lines.len() as int
    };
    let to = if from + rows < lines.len() {
        from + rows
    } else {
        lines.len() as int
    };
    lines.subrange(from, to)
}

/// The scroll as the Commands tab leaves it: it knows its window and keeps inside the script.
pub open spec fn commands_scroll(scroll: ConfirmScroll, rows: int) -> ConfirmScroll {
    let placed = ConfirmScroll { rows: rows as u16, ..scroll };
    placed.clamped(placed.offset as int)
}

/// The title of the Commands tab: which lines are shown.
pub open spec fn commands_title(scroll: ConfirmScroll) -> Seq<char> {
    match scroll.spec_visible_range() {
        Some((first, last)) => CONFIRM_TITLE@ + "· lines "@ + crate::text::decimal(first as nat)
            + "-"@ + crate::text::decimal(last as nat) + " of "@ + crate::text::decimal(
            scroll.total as nat,
        ) + " "@,
        None => CONFIRM_TITLE@ + "· no script lines "@,
    }
}

/// Lines of plain text.
pub open spec fn plain_lines(texts: Seq<Seq<char>>) -> Seq<LineModel> {
    texts.map_values(|t: Seq<char>| crate::canvas::text_line(t))
}

/// Lines of plain text, each after an indent.
pub open spec fn indented_lines(texts: Seq<Seq<char>>) -> Seq<LineModel> {
    texts.map_values(|t: Seq<char>| crate::canvas::text_line(" "@ + t))
}

/// The hint lines of a tab.
pub open spec fn hint_lines(tab: ConfirmTab, scroll_hint: bool) -> Seq<LineModel> {
    match tab {
        ConfirmTab::Summary => seq![crate::canvas::text_line(SUMMARY_HINT@)],
        ConfirmTab::Commands => if scroll_hint {
            seq![
                crate::canvas::text_line(COMMANDS_SCROLL_HINT@),
                crate::canvas::text_line(COMMANDS_HINT@),
            ]
        } else {
            seq![crate::canvas::text_line(COMMANDS_HINT@)]
        },
    }
}

/// A blank line, where there is room for it.
pub open spec fn gap(wanted: bool) -> Seq<LineModel> {
    if wanted {
        seq![crate::canvas::text_line(""@)]
    } else {
        Seq::empty()
    }
}

/// Everything inside the box: the tabs, the body, the hint.
pub open spec fn confirm_content(
    tab: ConfirmTab,
    body: Seq<LineModel>,
    gaps: bool,
    hint: Seq<LineModel>,
) -> Seq<LineModel> {
    seq![tab_strip(tab)] + gap(gaps) + body + gap(gaps) + hint
}

/// What a tab of the confirmation shows on a screen: the lines in the box, the box, its title.
pub open spec fn confirm_page(
    screen: Rect,
    files: usize,
    reclaim: u64,
    tab: ConfirmTab,
    script: Seq<char>,
    d: DigestModel,
    scroll: ConfirmScroll,
) -> (Seq<LineModel>, Rect, Seq<char>) {
    match tab {
        ConfirmTab::Summary => {
            let layers = summary_layers(screen.height as int);
            let body = summary_body(files, reclaim, d, layers.body());
            (
                confirm_content(tab, plain_lines(body), layers.gaps, hint_lines(tab, false)),
                crate::canvas::centered_rect(
                    screen,
                    66,
                    (body.len() + layers.chrome()) as u16,
                ),
                CONFIRM_TITLE@,
            )
        },
        ConfirmTab::Commands => {
            let layers = commands_layers(screen.height as int);
            let placed = commands_scroll(scroll, layers.body());
            (
                confirm_content(
                    tab,
                    indented_lines(script_window(script, placed.offset as int, layers.body())),
                    layers.gaps,
                    hint_lines(tab, layers.scroll_hint),
                ),
                crate::canvas::centered_rect(
                    screen,
                    commands_width(screen.width),
                    (layers.chrome() + layers.body()) as u16,
                ),
                commands_title(placed),
            )
        },
    }
}

/// The confirmation as widgets.
pub open spec fn confirm_widgets(
    screen: Rect,
    files: usize,
    reclaim: u64,
    tab: ConfirmTab,
    script: Seq<char>,
    d: DigestModel,
    scroll: ConfirmScroll,
) -> Seq<WidgetModel> {
    let (content, area, title) = confirm_page(screen, files, reclaim, tab, script, d, scroll);
    seq![
        WidgetModel::Clear { area },
        crate::canvas::framed_text(area, content, crate::canvas::plain_frame(title)),
    ]
}

fn push_plain(content: &mut Vec<Line>, texts: &Vec<String>)
    ensures
        crate::canvas::lines_model(final(content)@) == crate::canvas::lines_model(old(content)@)
            + plain_lines(crate::browser::strings_model(texts@)),
{
    let ghost before = crate::canvas::lines_model(content@);
    let ghost all = plain_lines(crate::browser::strings_model(texts@));
    let mut i: usize = 0;
    assert(crate::canvas::lines_model(content@) =~= before + all.take(0));
    while i < texts.len()
        invariant
            i <= texts@.len(),
            all == plain_lines(crate::browser::strings_model(texts@)),
            crate::canvas::lines_model(content@) == before + all.take(i as int),
        decreases texts@.len() - i,
    {
        push_line(content, Line::fixed(texts[i].as_str()));
        assert(before + all.take(i as int + 1) =~= (before + all.take(i as int)).push(
            all[i as int],
        ));
        i = i + 1;
    }
    assert(all.take(all.len() as int) =~= all);
}

fn push_indented(content: &mut Vec<Line>, texts: &Vec<String>, from: usize, to: usize)
    requires
        from <= to <= texts@.len(),
    ensures
        crate::canvas::lines_model(final(content)@) == crate::canvas::lines_model(old(content)@)
            + indented_lines(
            crate::browser::strings_model(texts@).subrange(from as int, to as int),
        ),
{
    let ghost before = crate::canvas::lines_model(content@);
    let ghost all = indented_lines(
        crate::browser::strings_model(texts@).subrange(from as int, to as int),
    );
    let mut i: usize = from;
    assert(crate::canvas::lines_model(content@) =~= before + all.take(0));
    while i < to
        invariant
            from <= i <= to <= texts@.len(),
            all == indented_lines(
                crate::browser::strings_model(texts@).subrange(from as int, to as int),
            ),
            crate::canvas::lines_model(content@) == before + all.take(i - from),
        decreases to - i,
    {
        let mut text = " ".to_string();
        text.push_str(texts[i].as_str());
        push_line(content, Line::text(text));
        assert(before + all.take(i + 1 - from) =~= (before + all.take(i - from)).push(
            all[i - from],
        ));
        i = i + 1;
    }
    assert(all.take(all.len() as int) =~= all);
}

fn put_confirm(canvas: &mut Canvas, area: Rect, content: Vec<Line>, title: String)
    ensures
        final(canvas).area == old(canvas).area,
        final(canvas)@ == old(canvas)@ + seq![
            WidgetModel::Clear { area },
            crate::canvas::framed_text(
                area,
                crate::canvas::lines_model(content@),
                crate::canvas::plain_frame(title@),
            ),
        ],
{
    let ghost before = canvas@;
    let ghost shown = crate::canvas::lines_model(content@);
    canvas.clear(area);
    canvas.text(area, content, Frame::titled(title));
    assert(canvas@ =~= before + seq![
        WidgetModel::Clear { area },
        crate::canvas::framed_text(area, shown, crate::canvas::plain_frame(title@)),
    ]);
}

fn strip(tab: ConfirmTab) -> (r: Line)
    ensures
        r@ == tab_strip(tab),
{
    let mut tabs = Line::blank();
    tabs.add_str("  ", Style::new());
    tab_span(&mut tabs, "Summary", matches!(tab, ConfirmTab::Summary));
    tabs.add_str("  ", Style::new());
    tab_span(&mut tabs, "Commands", matches!(tab, ConfirmTab::Commands));
    tabs
}

fn render_confirm_summary(canvas: &mut Canvas, files: usize, reclaim: u64, digest: &PlanDigest)
    requires
        crate::layout::bounded(old(canvas).area),
        digest.hidden + digest@.samples.len() <= usize::MAX,
    ensures
        final(canvas).area == old(canvas).area,
        forall|script: Seq<char>, scroll: ConfirmScroll|
            final(canvas)@ == old(canvas)@ + #[trigger] confirm_widgets(
                old(canvas).area,
                files,
                reclaim,
                ConfirmTab::Summary,
                script,
                digest@,
                scroll,
            ),
{
    let ghost screen = canvas.area;
    let avail: usize = canvas.area.height as usize;
    let fixed: usize = CHROME_FIXED + 1;
    let gaps = avail >= fixed + 2 + SUMMARY_MIN_BODY;
    let chrome: usize = fixed + if gaps {
        2
    } else {
        0
    };
    let lines = summary_lines(files, reclaim, digest, avail.saturating_sub(chrome));
    let height: u16 = (lines.len() + chrome) as u16;
    let area = centered(canvas.area, SUMMARY_WIDTH, height);
    let ghost body = plain_lines(crate::browser::strings_model(lines@));
    let mut content = no_lines();
    push_line(&mut content, strip(ConfirmTab::Summary));
    if gaps {
        push_line(&mut content, Line::fixed(""));
    }
    push_plain(&mut content, &lines);
    if gaps {
        push_line(&mut content, Line::fixed(""));
    }
    push_line(&mut content, Line::fixed(SUMMARY_HINT));
    assert(crate::canvas::lines_model(content@) =~= confirm_content(
        ConfirmTab::Summary,
        body,
        gaps,
        hint_lines(ConfirmTab::Summary, false),
    ));
    assert(crate::browser::strings_model(lines@).len() == lines@.len());
    put_confirm(canvas, area, content, CONFIRM_TITLE.to_string());
}

fn commands_heading(scroll: &ConfirmScroll) -> (r: String)
    ensures
        r@ == commands_title(*scroll),
{
    let mut title = CONFIRM_TITLE.to_string();
    match scroll.visible_range() {
        Some((first, last)) => {
            title.push_str("· lines ");
            push_usize(&mut title, first);
            title.push_str("-");
            push_usize(&mut title, last);
            title.push_str(" of ");
            push_usize(&mut title, scroll.total);
            title.push_str(" ");
        },
        None => {
            title.push_str("· no script lines ");
        },
    }
    title
}

fn push_script(content: &mut Vec<Line>, script: &str, offset: usize, rows: u16)
    ensures
        crate::canvas::lines_model(final(content)@) == crate::canvas::lines_model(old(content)@)
            + indented_lines(script_window(script@, offset as int, rows as int)),
{
    let lines = lines_of(script);
    assert(crate::browser::strings_model(lines@).len() == lines@.len());
    let from: usize = if offset < lines.len() {
        offset
    } else {
        lines.len()
    };
    let to: usize = if lines.len() - from < rows as usize {
        lines.len()
    } else {
        from + rows as usize
    };
    push_indented(content, &lines, from, to);
}

fn commands_content(
    script: &str,
    offset: usize,
    rows: u16,
    gaps: bool,
    scroll_hint: bool,
) -> (r: Vec<Line>)
    ensures
        crate::canvas::lines_model(r@) == confirm_content(
            ConfirmTab::Commands,
            indented_lines(script_window(script@, offset as int, rows as int)),
            gaps,
            hint_lines(ConfirmTab::Commands, scroll_hint),
        ),
{
    let mut content = no_lines();
    push_line(&mut content, strip(ConfirmTab::Commands));
    if gaps {
        push_line(&mut content, Line::fixed(""));
    }
    let ghost top = crate::canvas::lines_model(content@);
    assert(top =~= seq![tab_strip(ConfirmTab::Commands)] + gap(gaps));
    push_script(&mut content, script, offset, rows);
    let ghost middle = crate::canvas::lines_model(content@);
    if gaps {
        push_line(&mut content, Line::fixed(""));
    }
    if scroll_hint {
        push_line(&mut content, Line::fixed(COMMANDS_SCROLL_HINT));
    }
    push_line(&mut content, Line::fixed(COMMANDS_HINT));
    assert(crate::canvas::lines_model(content@) =~= middle + gap(gaps) + hint_lines(
        ConfirmTab::Commands,
        scroll_hint,
    ));
    content
}

fn render_confirm_commands(canvas: &mut Canvas, script: &str, scroll: &mut ConfirmScroll)
    requires
        crate::layout::bounded(old(canvas).area),
    ensures
        final(canvas).area == old(canvas).area,
        *final(scroll) == commands_scroll(
            *old(scroll),
            commands_layers(old(canvas).area.height as int).body(),
        ),
        forall|files: usize, reclaim: u64, d: DigestModel|
            final(canvas)@ == old(canvas)@ + #[trigger] confirm_widgets(
                old(canvas).area,
                files,
                reclaim,
                ConfirmTab::Commands,
                script@,
                d,
                *old(scroll),
            ),
{
    let avail = canvas.area;
    let room: u16 = avail.width.saturating_sub(4);
    let width: u16 = if room < 40 {
        40
    } else if room > 110 {
        110
    } else {
        room
    };
    let box_rows: u16 = if avail.height < COMMANDS_MAX_ROWS {
        avail.height
    } else {
        COMMANDS_MAX_ROWS
    };
    let scroll_hint = box_rows >= 5;
    let fixed: u16 = if scroll_hint {
        5
    } else {
        4
    };
    let gaps = box_rows >= fixed + 3;
    let chrome: u16 = fixed + if gaps {
        2
    } else {
        0
    };
    let body_rows: u16 = box_rows.saturating_sub(chrome);
    scroll.rows = body_rows;
    scroll.clamp();
    let title = commands_heading(scroll);
    let area = centered(avail, width, chrome + body_rows);
    let content = commands_content(script, scroll.offset, body_rows, gaps, scroll_hint);
    put_confirm(canvas, area, content, title);
}

/// Draws the F11 confirmation overlay with two tabs: "Summary" (what and how much) and
/// "Commands" (the plan's full shell script). Borders, the tab strip and the decision hint are
/// never given up.
pub fn render_confirm(
    canvas: &mut Canvas,
    files: usize,
    reclaim: u64,
    tab: ConfirmTab,
    script: &str,
    digest: &PlanDigest,
    scroll: &mut ConfirmScroll,
)
    requires
        crate::layout::bounded(old(canvas).area),
        digest.hidden + digest@.samples.len() <= usize::MAX,
    ensures
        final(canvas).area == old(canvas).area,
        final(canvas)@ == old(canvas)@ + confirm_widgets(
            old(canvas).area,
            files,
            reclaim,
            tab,
            script@,
            digest@,
            *old(scroll),
        ),
        *final(scroll) == confirm_scrolled(old(canvas).area, tab, *old(scroll)),
{
    match tab {
        ConfirmTab::Summary => render_confirm_summary(canvas, files, reclaim, digest),
        ConfirmTab::Commands => render_confirm_commands(canvas, script, scroll),
    }
}

/// How drawing the confirmation leaves its scroll.
pub open spec fn confirm_scrolled(screen: Rect, tab: ConfirmTab, scroll: ConfirmScroll) -> ConfirmScroll {
    match tab {
        ConfirmTab::Summary => scroll,
        ConfirmTab::Commands => commands_scroll(
            scroll,
            commands_layers(screen.height as int).body(),
        ),
    }
}

/// On any screen of four rows or more the way out stays in sight: the decision hint is the last
/// line of the box, and every line of the box is inside its borders.
pub proof fn law_the_way_out_is_on_screen(
    screen: Rect,
    files: usize,
    reclaim: u64,
    tab: ConfirmTab,
    script: Seq<char>,
    d: DigestModel,
    scroll: ConfirmScroll,
)
    requires
        screen.height >= 4,
        d.samples.len() <= usize::MAX,
    ensures
        ({
            let (content, area, title) = confirm_page(
                screen,
                files,
                reclaim,
                tab,
                script,
                d,
                scroll,
            );
            &&& content.len() + 2 <= area.height
            &&& content.last() == crate::canvas::text_line(
                match tab {
                    ConfirmTab::Summary => SUMMARY_HINT@,
                    ConfirmTab::Commands => COMMANDS_HINT@,
                },
            )
        }),
{
    match tab {
        ConfirmTab::Summary => {
            let layers = summary_layers(screen.height as int);
            law_the_summary_keeps_the_essentials(files, reclaim, d, layers.body());
        },
        ConfirmTab::Commands => {
            let layers = commands_layers(screen.height as int);
            let placed = commands_scroll(scroll, layers.body());
            assert(script_window(script, placed.offset as int, layers.body()).len()
                <= layers.body());
        },
    }
}

/// Scrolled to its end, the Commands tab shows the last line of the script.
pub proof fn law_the_script_tail_is_reachable(script: Seq<char>, scroll: ConfirmScroll)
    requires
        scroll.total == crate::text::text_lines(script).len(),
        scroll.total > 0,
        scroll.rows > 0,
    ensures
        ({
            let window = script_window(script, scroll.spec_max_offset(), scroll.rows as int);
            &&& window.len() > 0
            &&& window.last() == crate::text::text_lines(script).last()
        }),
{
}

// ---------------------------------------------------------------------------------------------
// The offer to resume.
// ---------------------------------------------------------------------------------------------
/// Progress of an unfinished scan by the volume of its candidates, in whole percent.
pub open spec fn hashed_percent(hashed: u64, total: u64) -> nat {
    let scaled: int = if hashed * 100 <= u64::MAX {
        hashed * 100
    } else {
        u64::MAX as int
    };
    if total == 0 {
        0
    } else if scaled / (total as int) > 100 {
        100
    } else {
        (scaled / (total as int)) as nat
    }
}

/// Progress by volume, in whole percent; nothing to hash is no progress.
pub fn progress_percent(hashed: u64, total: u64) -> (r: u64)
    ensures
        r == hashed_percent(hashed, total),
{
    let scaled: u64 = match hashed.checked_mul(100) {
        Some(product) => product,
        None => u64::MAX,
    };
    if total == 0 {
        return 0;
    }
    let percent: u64 = scaled / total;
    if percent > 100 {
        100
    } else {
        percent
    }
}

/// Which way on is recommended.
pub open spec fn recommendation(unfinished: Option<&ResumeInfo>, complete: Option<&ResumeInfo>) -> Seq<
    char,
> {
    match unfinished {
        Some(u) => if complete matches Some(c) && crate::entries::text_order(
            u.created_at@,
            c.created_at@,
        ) == Standing::Before {
            "Recommended: [O] open the completed one (current) or [N] new; [R] is usually not needed"@
        } else {
            "Recommended: [R] resume — hashes are inherited, the disk is barely read"@
        },
        None => match complete {
            Some(_) => "Recommended: [O] open results or [N] new scan"@,
            None => ""@,
        },
    }
}

/// Recommendation for the F2 overlay, by which sessions there are and which is newer: dates are
/// written year first, so their order is that of their texts.
pub fn resume_recommendation(
    unfinished: Option<&ResumeInfo>,
    complete: Option<&ResumeInfo>,
) -> (r: &'static str)
    ensures
        r@ == recommendation(unfinished, complete),
{
    match (unfinished, complete) {
        (Some(u), Some(c)) => {
            match order_texts(u.created_at.as_str(), c.created_at.as_str()) {
                Standing::Before =>
                    "Recommended: [O] open the completed one (current) or [N] new; [R] is usually not needed",
                _ => "Recommended: [R] resume — hashes are inherited, the disk is barely read",
            }
        },
        (Some(_), None) =>
            "Recommended: [R] resume — hashes are inherited, the disk is barely read",
        (None, Some(_)) => "Recommended: [O] open results or [N] new scan",
        (None, None) => "",
    }
}

/// What can be chosen.
pub open spec fn resume_options(unfinished: bool, complete: bool) -> Seq<char> {
    "  "@ + (if unfinished {
        "[R]/[Enter] resume · "@
    } else {
        Seq::<char>::empty()
    }) + (if complete {
        "[O] open completed · "@
    } else {
        Seq::<char>::empty()
    }) + "[N] new scan · [Esc] cancel"@
}

/// The lines of the offer.
pub open spec fn resume_lines(
    root: Seq<char>,
    unfinished: Option<&ResumeInfo>,
    complete: Option<&ResumeInfo>,
) -> Seq<LineModel> {
    let head = seq![
        crate::canvas::text_line(""@),
        crate::canvas::text_line("  Root: "@ + root),
    ];
    let open = match unfinished {
        Some(u) => head.push(
            crate::canvas::text_line(
                "  Unfinished scan from "@ + u.created_at@ + " · progress "@ + crate::text::decimal(
                    hashed_percent(u.cand_bytes_hashed, u.cand_bytes_total),
                ) + "%"@,
            ),
        ),
        None => head,
    };
    let done = match complete {
        Some(c) => open.push(
            crate::canvas::text_line(
                "  Last completed from "@ + c.created_at@ + " · files "@ + crate::text::decimal(
                    c.files_scanned as nat,
                ) + " · frees "@ + crate::units::size_text(c.reclaimable_bytes as nat),
            ),
        ),
        None => open,
    };
    done.push(crate::canvas::text_line(""@)).push(
        crate::canvas::text_line("  "@ + recommendation(unfinished, complete)),
    ).push(crate::canvas::text_line(""@)).push(
        crate::canvas::text_line(resume_options(unfinished is Some, complete is Some)),
    )
}

/// The offer as widgets.
pub open spec fn resume_widgets(
    screen: Rect,
    root: Seq<char>,
    unfinished: Option<&ResumeInfo>,
    complete: Option<&ResumeInfo>,
) -> Seq<WidgetModel> {
    let lines = resume_lines(root, unfinished, complete);
    let area = crate::canvas::centered_rect(screen, 74, (lines.len() + 2) as u16);
    seq![
        WidgetModel::Clear { area },
        crate::canvas::framed_text(area, lines, crate::canvas::plain_frame(" Scan roots — F2 "@)),
    ]
}

fn options_text(unfinished: bool, complete: bool) -> (r: String)
    ensures
        r@ == resume_options(unfinished, complete),
{
    let mut text = "  ".to_string();
    if unfinished {
        text.push_str("[R]/[Enter] resume · ");
    } else {
        assert(text@ =~= text@ + Seq::<char>::empty());
    }
    let ghost first = text@;
    if complete {
        text.push_str("[O] open completed · ");
    } else {
        assert(text@ =~= first + Seq::<char>::empty());
    }
    text.push_str("[N] new scan · [Esc] cancel");
    text
}

/// Draws the F2 overlay: an unfinished session and/or the last completed scan of the roots with
/// dates and progress, a recommendation and a choice.
pub fn render_resume_scan(
    canvas: &mut Canvas,
    root: &str,
    unfinished: Option<&ResumeInfo>,
    complete: Option<&ResumeInfo>,
)
    requires
        crate::layout::bounded(old(canvas).area),
    ensures
        final(canvas).area == old(canvas).area,
        final(canvas)@ == old(canvas)@ + resume_widgets(
            old(canvas).area,
            root@,
            unfinished,
            complete,
        ),
{
    let ghost before = canvas@;
    let ghost screen = canvas.area;
    let mut body = no_lines();
    push_line(&mut body, Line::fixed(""));
    let mut text = "  Root: ".to_string();
    text.push_str(root);
    push_line(&mut body, Line::text(text));
    match unfinished {
        Some(u) => {
            let mut text = "  Unfinished scan from ".to_string();
            text.push_str(u.created_at.as_str());
            text.push_str(" · progress ");
            push_u64(&mut text, progress_percent(u.cand_bytes_hashed, u.cand_bytes_total));
            text.push_str("%");
            push_line(&mut body, Line::text(text));
        },
        None => {},
    }
    match complete {
        Some(c) => {
            let mut text = "  Last completed from ".to_string();
            text.push_str(c.created_at.as_str());
            text.push_str(" · files ");
            push_u64(&mut text, c.files_scanned);
            text.push_str(" · frees ");
            text.push_str(human_bytes(c.reclaimable_bytes).as_str());
            push_line(&mut body, Line::text(text));
        },
        None => {},
    }
    push_line(&mut body, Line::fixed(""));
    let mut advice = "  ".to_string();
    advice.push_str(resume_recommendation(unfinished, complete));
    push_line(&mut body, Line::text(advice));
    push_line(&mut body, Line::fixed(""));
    push_line(&mut body, Line::text(options_text(unfinished.is_some(), complete.is_some())));
    assert(crate::canvas::lines_model(body@) =~= resume_lines(root@, unfinished, complete));
    assert(crate::canvas::lines_model(body@).len() == body@.len());
    let height: u16 = (body.len() + 2) as u16;
    let area = centered(canvas.area, 74, height);
    canvas.clear(area);
    canvas.text(area, body, Frame::fixed(" Scan roots — F2 "));
    assert(canvas@ =~= before + resume_widgets(screen, root@, unfinished, complete));
}

// ---------------------------------------------------------------------------------------------
// File properties.
// ---------------------------------------------------------------------------------------------
/// The box of the file properties.
pub open spec fn info_area(screen: Rect, texts: Seq<Seq<char>>) -> Rect {
    let wanted = texts.len() + 2;
    let width = longest_or(texts, 40);
    crate::canvas::centered_rect(
        screen,
        ((if width < 40 {
            40
        } else if width > 100 {
            100
        } else {
            width
        }) + 4) as u16,
        (if wanted < 5 {
            5
        } else if wanted > screen.height {
            screen.height as nat
        } else {
            wanted
        }) as u16,
    )
}

/// The file properties as widgets.
pub open spec fn info_widgets(screen: Rect, texts: Seq<Seq<char>>) -> Seq<WidgetModel> {
    let area = info_area(screen, texts);
    seq![
        WidgetModel::Clear { area },
        crate::canvas::framed_text(
            area,
            indented_lines(texts),
            crate::canvas::plain_frame(" File — F3 · Esc to close "@),
        ),
    ]
}

fn longest_text(texts: &Vec<String>, none: usize) -> (r: usize)
    ensures
        r == longest_or(crate::browser::strings_model(texts@), none as nat),
{
    let ghost all = crate::browser::strings_model(texts@);
    let mut best: usize = none;
    let mut i: usize = 0;
    while i < texts.len()
        invariant
            i <= texts@.len(),
            all == crate::browser::strings_model(texts@),
            i == 0 ==> best == none,
            i > 0 ==> longest(all.take(i as int)) == Some(best as nat),
        decreases texts@.len() - i,
    {
        let count: usize = char_count(texts[i].as_str());
        assert(all.take(i as int + 1).drop_last() =~= all.take(i as int));
        if i == 0 || count > best {
            best = count;
        }
        i = i + 1;
    }
    assert(all.take(all.len() as int) =~= all);
    best
}

/// Draws the file-info overlay (F3), on a screen of at least five rows.
pub fn render_info(canvas: &mut Canvas, lines: &Vec<String>)
    requires
        crate::layout::bounded(old(canvas).area),
        old(canvas).area.height >= 5,
        lines@.len() + 2 <= u16::MAX,
    ensures
        final(canvas).area == old(canvas).area,
        final(canvas)@ == old(canvas)@ + info_widgets(
            old(canvas).area,
            crate::browser::strings_model(lines@),
        ),
{
    let ghost before = canvas@;
    let ghost screen = canvas.area;
    let ghost texts = crate::browser::strings_model(lines@);
    assert(texts.len() == lines@.len());
    let wanted: u16 = (lines.len() + 2) as u16;
    let height: u16 = if wanted < 5 {
        5
    } else if wanted > canvas.area.height {
        canvas.area.height
    } else {
        wanted
    };
    let widest: usize = longest_text(lines, 40);
    let width: u16 = if widest < 40 {
        44
    } else if widest > 100 {
        104
    } else {
        (widest + 4) as u16
    };
    let area = centered(canvas.area, width, height);
    canvas.clear(area);
    let mut text = no_lines();
    push_indented(&mut text, lines, 0, lines.len());
    assert(texts.subrange(0, texts.len() as int) =~= texts);
    assert(crate::canvas::lines_model(text@) =~= indented_lines(texts));
    canvas.text(area, text, Frame::fixed(" File — F3 · Esc to close "));
    assert(canvas@ =~= before + info_widgets(screen, texts));
}

} // verus!
