//! Action review screen: dry-run list and confirmation modal.
//!
//! Every figure comes out of the plan: nothing on this screen sums file sizes of its own.

use vstd::prelude::*;

use crate::browser::wrap_words;
use crate::canvas::{
    centered, no_lines, no_rows, push_line, visible_window, Canvas, Frame, Line, LineModel,
    ListState, Rect, Row, RowModel, Style, WidgetModel,
};
use crate::model::{ActionPlan, PlanSummary, PlanWarning, PlannedAction};
use crate::text::{pad_right, push_usize};
use crate::units::{human_bytes, reclaim_phrase};
use crate::wizard::{push_text_row, put_picker, split_foot, BodyAndFoot};

verus! {

/// The action review.
#[derive(Debug, Clone)]
pub struct ReviewState {
    pub plan: Option<ActionPlan>,
    pub list: ListState,
    /// Rows of the list as it was last drawn.
    pub visible_rows: u16,
    /// The last question is being asked.
    pub confirming: bool,
}

impl ReviewState {
    /// The actions of the plan; none where there is no plan.
    pub open spec fn actions(self) -> Seq<PlannedAction> {
        match self.plan {
            Some(plan) => plan.actions@,
            None => Seq::empty(),
        }
    }
}

/// The row of an action.
pub open spec fn action_text(action: PlannedAction) -> Seq<char> {
    crate::text::padded_right(crate::model::action_label(action.kind), 9) + "  "@
        + action.target@.shown_safely() + "   ("@ + crate::units::size_text(action.size as nat)
        + ")"@
}

/// The rows of some of the actions.
pub open spec fn action_rows(actions: Seq<PlannedAction>, from: int, to: int) -> Seq<RowModel> {
    actions.subrange(from, to).map_values(
        |a: PlannedAction| crate::wizard::text_row(action_text(a)),
    )
}

fn row_text(action: &PlannedAction) -> (r: String)
    ensures
        r@ == action_text(*action),
{
    let mut text = pad_right(action.kind.label(), 9);
    text.push_str("  ");
    text.push_str(action.target.display_safely().as_str());
    text.push_str("   (");
    text.push_str(human_bytes(action.size).as_str());
    text.push_str(")");
    text
}

fn window_rows(actions: &Vec<PlannedAction>, from: usize, to: usize) -> (r: Vec<Row>)
    requires
        from <= to <= actions@.len(),
    ensures
        crate::canvas::rows_model(r@) == action_rows(actions@, from as int, to as int),
{
    let ghost all = action_rows(actions@, from as int, to as int);
    let mut rows = no_rows();
    let mut i: usize = from;
    assert(crate::canvas::rows_model(rows@) =~= all.take(0));
    while i < to
        invariant
            from <= i <= to <= actions@.len(),
            all == action_rows(actions@, from as int, to as int),
            crate::canvas::rows_model(rows@) == all.take(i - from),
        decreases to - i,
    {
        push_text_row(&mut rows, row_text(&actions[i]));
        assert(all.take(i - from).push(all[i - from]) =~= all.take(i + 1 - from));
        i = i + 1;
    }
    assert(all.take(to - from) =~= all);
    rows
}

/// The position of the cursor, counted from one; nothing selected is position nought.
pub open spec fn position(list: ListState, total: int, rows: int) -> int {
    match crate::canvas::window_mark(list, total, rows) {
        Some(mark) => crate::canvas::window_begin(list, total, rows) + mark + 1,
        None => 0,
    }
}

/// The list of actions.
pub open spec fn review_list(review: ReviewState, area: Rect) -> WidgetModel {
    let actions = review.actions();
    let count = actions.len() as int;
    let rows = crate::browser::inner_rows(area);
    crate::wizard::picker(
        area,
        action_rows(
            actions,
            crate::canvas::window_begin(review.list, count, rows),
            crate::canvas::window_end(review.list, count, rows),
        ),
        crate::canvas::window_mark(review.list, count, rows),
        " Action review — dry-run, nothing executed yet · "@ + crate::text::decimal(
            position(review.list, count, rows) as nat,
        ) + " of "@ + crate::text::decimal(count as nat) + " "@,
    )
}

fn title_text(position: usize, count: usize) -> (r: String)
    ensures
        r@ == " Action review — dry-run, nothing executed yet · "@ + crate::text::decimal(
            position as nat,
        ) + " of "@ + crate::text::decimal(count as nat) + " "@,
{
    let mut title = " Action review — dry-run, nothing executed yet · ".to_string();
    push_usize(&mut title, position);
    title.push_str(" of ");
    push_usize(&mut title, count);
    title.push_str(" ");
    title
}

/// The review after its list was drawn: the window follows the cursor and its height is known.
pub open spec fn reviewed(review: ReviewState, area: Rect) -> ReviewState {
    ReviewState {
        list: crate::canvas::window_placed(
            review.list,
            review.actions().len() as int,
            crate::browser::inner_rows(area),
        ),
        visible_rows: crate::browser::inner_rows(area) as u16,
        ..review
    }
}

fn draw_list(canvas: &mut Canvas, review: &mut ReviewState, area: Rect)
    ensures
        final(canvas).area == old(canvas).area,
        final(canvas)@ == old(canvas)@.push(review_list(*old(review), area)),
        *final(review) == reviewed(*old(review), area),
{
    let visible: u16 = area.height.saturating_sub(2);
    let count: usize = match &review.plan {
        Some(plan) => plan.actions.len(),
        None => 0,
    };
    let mut list = review.list;
    let (start, mark) = visible_window(&mut list, count, visible as usize);
    let end: usize = if count - start < visible as usize {
        count
    } else {
        start + visible as usize
    };
    let at: usize = match mark {
        Some(mark) => start + mark + 1,
        None => 0,
    };
    let rows = match &review.plan {
        Some(plan) => window_rows(&plan.actions, start, end),
        None => {
            let rows = no_rows();
            assert(crate::canvas::rows_model(rows@) =~= action_rows(Seq::empty(), 0, 0));
            rows
        },
    };
    let title = title_text(at, count);
    put_picker(canvas, area, rows, mark, title.as_str());
    review.list = list;
    review.visible_rows = visible;
}

/// What the plan comes to.
pub open spec fn counts_words(summary: Option<PlanSummary>) -> Seq<char> {
    match summary {
        Some(s) => " Operations: "@ + crate::text::decimal(s.actions as nat) + " · allocations: "@
            + crate::text::decimal(s.covered_objects as nat) + " "@,
        None => " Operations: 0 · allocations: 0 "@,
    }
}

/// What the plan is worth.
pub open spec fn claim_words(summary: Option<PlanSummary>) -> Seq<char> {
    match summary {
        Some(s) => " "@ + crate::units::reclaim_words(s.estimate) + " "@,
        None => ""@,
    }
}

/// The reason behind a zero, or else the status.
pub open spec fn remark_words(summary: Option<PlanSummary>, status: Seq<char>) -> Seq<char> {
    match summary {
        Some(s) => if s.warnings@.len() == 0 {
            " "@ + status + " "@
        } else if s.warnings@.len() == 1 {
            " "@ + s.warnings@[0].reason@ + " "@
        } else {
            " "@ + s.warnings@[0].reason@ + " "@ + "· and "@ + crate::text::decimal(
                (s.warnings@.len() - 1) as nat,
            ) + " more "@
        },
        None => " "@ + status + " "@,
    }
}

/// The summary of the plan, if there is one.
pub open spec fn summary_of(review: ReviewState) -> Option<PlanSummary> {
    match review.plan {
        Some(plan) => Some(plan.summary),
        None => None,
    }
}

/// The foot of the review.
pub open spec fn review_foot(review: ReviewState, area: Rect, status: Seq<char>) -> WidgetModel {
    let summary = summary_of(review);
    crate::canvas::framed_text(
        area,
        seq![
            crate::canvas::text_line(counts_words(summary)),
            crate::canvas::text_line(claim_words(summary)),
            crate::canvas::text_line(remark_words(summary, status)),
            crate::canvas::styled_line(
                " ↑↓/PgUp/PgDn/Home/End scroll · [Y] execute · [Esc] back to browser "@,
                crate::browser::dim_style(),
            ),
        ],
        crate::canvas::FrameModel {
            title: crate::canvas::blank_line(),
            border: crate::canvas::plain_style(),
        },
    )
}

fn counts_text(summary: &PlanSummary) -> (r: String)
    ensures
        r@ == counts_words(Some(*summary)),
{
    let mut text = " Operations: ".to_string();
    push_usize(&mut text, summary.actions);
    text.push_str(" · allocations: ");
    push_usize(&mut text, summary.covered_objects);
    text.push_str(" ");
    text
}

fn claim_text(summary: &PlanSummary) -> (r: String)
    ensures
        r@ == claim_words(Some(*summary)),
{
    let mut text = " ".to_string();
    text.push_str(reclaim_phrase(summary.estimate).as_str());
    text.push_str(" ");
    text
}

fn status_remark(status: &str) -> (r: String)
    ensures
        r@ == " "@ + status@ + " "@,
{
    let mut text = " ".to_string();
    text.push_str(status);
    text.push_str(" ");
    text
}

fn remark_text(summary: &PlanSummary, status: &str) -> (r: String)
    ensures
        r@ == remark_words(Some(*summary), status@),
{
    if summary.warnings.len() == 0 {
        return status_remark(status);
    }
    let mut text = " ".to_string();
    text.push_str(summary.warnings[0].reason.as_str());
    text.push_str(" ");
    if summary.warnings.len() > 1 {
        text.push_str("· and ");
        push_usize(&mut text, summary.warnings.len() - 1);
        text.push_str(" more ");
    }
    text
}

fn draw_foot(canvas: &mut Canvas, review: &ReviewState, area: Rect, status: &str)
    ensures
        final(canvas).area == old(canvas).area,
        final(canvas)@ == old(canvas)@.push(review_foot(*review, area, status@)),
{
    let (counts, claim, remark) = match &review.plan {
        Some(plan) => (
            counts_text(&plan.summary),
            claim_text(&plan.summary),
            remark_text(&plan.summary, status),
        ),
        None => (
            " Operations: 0 · allocations: 0 ".to_string(),
            "".to_string(),
            status_remark(status),
        ),
    };
    let ghost summary = summary_of(*review);
    let mut lines = no_lines();
    push_line(&mut lines, Line::text(counts));
    push_line(&mut lines, Line::text(claim));
    push_line(&mut lines, Line::text(remark));
    push_line(
        &mut lines,
        Line::styled(
            " ↑↓/PgUp/PgDn/Home/End scroll · [Y] execute · [Esc] back to browser ".to_string(),
            Style::new().dim(),
        ),
    );
    assert(crate::canvas::lines_model(lines@) =~= seq![
        crate::canvas::text_line(counts_words(summary)),
        crate::canvas::text_line(claim_words(summary)),
        crate::canvas::text_line(remark_words(summary, status@)),
        crate::canvas::styled_line(
            " ↑↓/PgUp/PgDn/Home/End scroll · [Y] execute · [Esc] back to browser "@,
            crate::browser::dim_style(),
        ),
    ]);
    canvas.text(area, lines, Frame { title: Line::blank(), border: Style::new() });
}

// ---------------------------------------------------------------------------------------------
// The last question.
// ---------------------------------------------------------------------------------------------
/// Lines set in by two.
pub open spec fn set_in(lines: Seq<Seq<char>>) -> Seq<Seq<char>> {
    lines.map_values(|l: Seq<char>| "  "@ + l)
}

/// What is about to run.
pub open spec fn question(summary: PlanSummary) -> Seq<char> {
    "Execute "@ + crate::text::decimal(summary.actions as nat) + " action(s) over "@
        + crate::text::decimal(summary.covered_objects as nat) + " allocation(s)?"@
}

/// The two things that the answer depends on: the question and the complete claim.
pub open spec fn essentials(summary: PlanSummary, inner: int) -> Seq<Seq<char>> {
    set_in(crate::browser::wrapped_text(question(summary), inner)) + set_in(
        crate::browser::wrapped_text(crate::units::reclaim_words(summary.estimate), inner),
    )
}

/// Every warning, one after another.
pub open spec fn all_warnings(warnings: Seq<PlanWarning>, inner: int) -> Seq<Seq<char>>
    decreases warnings.len(),
{
    if warnings.len() == 0 {
        Seq::empty()
    } else {
        all_warnings(warnings.drop_last(), inner) + set_in(
            crate::browser::wrapped_text(warnings.last().reason@, inner),
        )
    }
}

/// The first warning, and how many more there are.
pub open spec fn first_warning(warnings: Seq<PlanWarning>, inner: int) -> Seq<Seq<char>> {
    if warnings.len() == 0 {
        Seq::empty()
    } else {
        let first = set_in(crate::browser::wrapped_text(warnings[0].reason@, inner));
        if warnings.len() > 1 {
            first.push(
                "  "@ + ("… and "@ + crate::text::decimal((warnings.len() - 1) as nat) + " more"@),
            )
        } else {
            first
        }
    }
}

/// The reassurance about snapshots.
pub open spec fn reassurance(inner: int) -> Seq<Seq<char>> {
    set_in(
        crate::browser::wrapped_text(
            "A snapshot + quarantine are created — reversible until purge."@,
            inner,
        ),
    )
}

/// The body of the last question in so many lines: a short terminal loses the reassurance, then
/// the warnings past the first, which are counted instead, and the rest from the end, rather than
/// the numbers the decision rests on.
pub open spec fn body_lines(summary: PlanSummary, inner: int, budget: int) -> Seq<Seq<char>> {
    let warned = essentials(summary, inner) + all_warnings(summary.warnings@, inner);
    let short = essentials(summary, inner) + first_warning(summary.warnings@, inner);
    let room = if budget > 1 {
        budget
    } else {
        1
    };
    if warned.len() + reassurance(inner).len() <= budget {
        warned + reassurance(inner)
    } else if warned.len() <= budget {
        warned
    } else if short.len() > room {
        short.take(room)
    } else {
        short
    }
}

fn push_set_in(out: &mut Vec<String>, text: &str, inner: usize)
    ensures
        crate::browser::strings_model(final(out)@) == crate::browser::strings_model(old(out)@)
            + set_in(crate::browser::wrapped_text(text@, inner as int)),
{
    let wrapped = wrap_words(text, inner);
    let ghost before = crate::browser::strings_model(out@);
    let ghost all = set_in(crate::browser::wrapped_text(text@, inner as int));
    let mut i: usize = 0;
    assert(crate::browser::strings_model(out@) =~= before + all.take(0));
    while i < wrapped.len()
        invariant
            i <= wrapped@.len(),
            all == set_in(crate::browser::strings_model(wrapped@)),
            crate::browser::strings_model(out@) == before + all.take(i as int),
        decreases wrapped@.len() - i,
    {
        let ghost sofar = crate::browser::strings_model(out@);
        let mut line = "  ".to_string();
        line.push_str(wrapped[i].as_str());
        let ghost said = line@;
        out.push(line);
        proof {
            assert(said == all[i as int]);
            assert(crate::browser::strings_model(out@) =~= sofar.push(said));
            assert(before + all.take(i as int + 1) =~= sofar.push(said));
        }
        i = i + 1;
    }
    assert(all.take(all.len() as int) =~= all);
}

fn essential_lines(summary: &PlanSummary, inner: usize) -> (r: Vec<String>)
    ensures
        crate::browser::strings_model(r@) == essentials(*summary, inner as int),
{
    let mut head = "Execute ".to_string();
    push_usize(&mut head, summary.actions);
    head.push_str(" action(s) over ");
    push_usize(&mut head, summary.covered_objects);
    head.push_str(" allocation(s)?");
    let mut out: Vec<String> = Vec::new();
    assert(crate::browser::strings_model(out@) =~= Seq::empty());
    push_set_in(&mut out, head.as_str(), inner);
    push_set_in(&mut out, reclaim_phrase(summary.estimate).as_str(), inner);
    assert(crate::browser::strings_model(out@) =~= essentials(*summary, inner as int));
    out
}

fn push_first_warning(out: &mut Vec<String>, warnings: &Vec<PlanWarning>, inner: usize)
    ensures
        crate::browser::strings_model(final(out)@) == crate::browser::strings_model(old(out)@)
            + first_warning(warnings@, inner as int),
{
    let ghost before = crate::browser::strings_model(out@);
    let ghost said = first_warning(warnings@, inner as int);
    if warnings.len() > 0 {
        push_set_in(out, warnings[0].reason.as_str(), inner);
        if warnings.len() > 1 {
            let mut more = "… and ".to_string();
            push_usize(&mut more, warnings.len() - 1);
            more.push_str(" more");
            let mut line = "  ".to_string();
            line.push_str(more.as_str());
            let ghost sofar = crate::browser::strings_model(out@);
            let ghost last = line@;
            out.push(line);
            assert(crate::browser::strings_model(out@) =~= sofar.push(last));
        }
    }
    assert(crate::browser::strings_model(out@) =~= before + said);
}

fn push_all_warnings(out: &mut Vec<String>, warnings: &Vec<PlanWarning>, inner: usize)
    ensures
        crate::browser::strings_model(final(out)@) == crate::browser::strings_model(old(out)@)
            + all_warnings(warnings@, inner as int),
{
    let ghost before = crate::browser::strings_model(out@);
    let mut i: usize = 0;
    assert(before + all_warnings(warnings@.take(0), inner as int) =~= before);
    while i < warnings.len()
        invariant
            i <= warnings@.len(),
            crate::browser::strings_model(out@) == before + all_warnings(
                warnings@.take(i as int),
                inner as int,
            ),
        decreases warnings@.len() - i,
    {
        push_set_in(out, warnings[i].reason.as_str(), inner);
        proof {
            let next = warnings@.take(i as int + 1);
            assert(next.drop_last() =~= warnings@.take(i as int));
            assert(crate::browser::strings_model(out@) =~= before + all_warnings(
                next,
                inner as int,
            ));
        }
        i = i + 1;
    }
    assert(warnings@.take(warnings@.len() as int) =~= warnings@);
}

/// The modal's body, in priority order, wrapped to `inner` columns and cut to `budget` lines. The
/// count line and the complete claim are never given up for anything else.
pub fn confirm_body(summary: &PlanSummary, inner: usize, budget: usize) -> (r: Vec<String>)
    ensures
        crate::browser::strings_model(r@) == body_lines(*summary, inner as int, budget as int),
{
    let mut lines = essential_lines(summary, inner);
    push_all_warnings(&mut lines, &summary.warnings, inner);
    let ghost warned = crate::browser::strings_model(lines@);
    assert(warned.len() == lines@.len());
    if lines.len() <= budget {
        let mut calm: Vec<String> = Vec::new();
        assert(crate::browser::strings_model(calm@) =~= Seq::empty());
        push_set_in(
            &mut calm,
            "A snapshot + quarantine are created — reversible until purge.",
            inner,
        );
        assert(crate::browser::strings_model(calm@) =~= reassurance(inner as int));
        assert(reassurance(inner as int).len() == calm@.len());
        if calm.len() <= budget - lines.len() {
            lines.append(&mut calm);
            assert(crate::browser::strings_model(lines@) =~= warned + reassurance(inner as int));
        }
        return lines;
    }
    let mut short = essential_lines(summary, inner);
    push_first_warning(&mut short, &summary.warnings, inner);
    let room: usize = if budget > 1 {
        budget
    } else {
        1
    };
    let ghost full = crate::browser::strings_model(short@);
    assert(full.len() == short@.len());
    if short.len() > room {
        short.truncate(room);
        assert(crate::browser::strings_model(short@) =~= full.take(room as int));
    }
    short
}

/// The reassurance is the first thing given up: it stands only below every warning.
pub proof fn law_the_reassurance_goes_first(summary: PlanSummary, inner: int, budget: int)
    ensures
        ({
            let e = essentials(summary, inner);
            let warned = e + all_warnings(summary.warnings@, inner);
            let short = e + first_warning(summary.warnings@, inner);
            let body = body_lines(summary, inner, budget);
            &&& warned.len() + reassurance(inner).len() <= budget ==> body == warned + reassurance(
                inner,
            )
            &&& warned.len() + reassurance(inner).len() > budget ==> body == warned
                || body.is_prefix_of(short)
            &&& warned.len() <= budget ==> warned.is_prefix_of(body)
        }),
{
    let warned = essentials(summary, inner) + all_warnings(summary.warnings@, inner);
    let body = body_lines(summary, inner, budget);
    if warned.len() <= budget {
        assert(warned =~= body.subrange(0, warned.len() as int));
    }
    let short = essentials(summary, inner) + first_warning(summary.warnings@, inner);
    if warned.len() > budget {
        assert(body =~= short.subrange(0, body.len() as int));
    }
}

/// However little room there is, what is shed first is not what the decision rests on: where the
/// question and the claim fit, they stand whole and first.
pub proof fn law_the_question_keeps_its_numbers(summary: PlanSummary, inner: int, budget: int)
    requires
        essentials(summary, inner).len() <= budget,
        budget >= 1,
    ensures
        body_lines(summary, inner, budget).len() <= budget,
        body_lines(summary, inner, budget).take(essentials(summary, inner).len() as int)
            == essentials(summary, inner),
{
    let e = essentials(summary, inner);
    assert(body_lines(summary, inner, budget).take(e.len() as int) =~= e);
}

/// The columns of the modal.
pub open spec fn modal_width(screen: Rect) -> int {
    let room = if screen.width > 4 {
        screen.width - 4
    } else {
        0
    };
    if room < 24 {
        24
    } else if room > 72 {
        72
    } else {
        room
    }
}

/// The lines that the modal's body may take.
pub open spec fn modal_budget(screen: Rect) -> int {
    if screen.height > 5 {
        screen.height - 3
    } else {
        2
    }
}

/// The modal's text: its body, and the way out.
pub open spec fn modal_lines(body: Seq<Seq<char>>) -> Seq<LineModel> {
    body.map_values(|l: Seq<char>| crate::canvas::text_line(l)).push(
        crate::canvas::text_line("            [Y] yes        [N] no"@),
    )
}

/// The last question on screen.
pub open spec fn modal(screen: Rect, summary: PlanSummary) -> Seq<WidgetModel> {
    let width = modal_width(screen);
    let body = body_lines(summary, width - 4, modal_budget(screen));
    let height = if body.len() + 3 < screen.height {
        (body.len() + 3) as u16
    } else {
        screen.height
    };
    let area = crate::canvas::centered_rect(screen, width as u16, height);
    seq![
        WidgetModel::Clear { area },
        crate::canvas::framed_text(
            area,
            modal_lines(body),
            crate::canvas::plain_frame(" Confirmation "@),
        ),
    ]
}

fn modal_text(body: &Vec<String>) -> (r: Vec<Line>)
    ensures
        crate::canvas::lines_model(r@) == modal_lines(crate::browser::strings_model(body@)),
{
    let ghost all = crate::browser::strings_model(body@).map_values(
        |l: Seq<char>| crate::canvas::text_line(l),
    );
    let mut lines = no_lines();
    let mut i: usize = 0;
    assert(crate::canvas::lines_model(lines@) =~= all.take(0));
    while i < body.len()
        invariant
            i <= body@.len(),
            all == crate::browser::strings_model(body@).map_values(
                |l: Seq<char>| crate::canvas::text_line(l),
            ),
            crate::canvas::lines_model(lines@) == all.take(i as int),
        decreases body@.len() - i,
    {
        push_line(&mut lines, Line::fixed(body[i].as_str()));
        assert(all.take(i as int).push(all[i as int]) =~= all.take(i as int + 1));
        i = i + 1;
    }
    assert(all.take(all.len() as int) =~= all);
    push_line(&mut lines, Line::fixed("            [Y] yes        [N] no"));
    lines
}

/// The last destructive question, quoted from the plan itself: the box is sized to the terminal
/// and the text wraps inside it.
pub fn render_confirm(canvas: &mut Canvas, summary: &PlanSummary)
    requires
        crate::layout::bounded(old(canvas).area),
    ensures
        final(canvas).area == old(canvas).area,
        final(canvas)@ == old(canvas)@ + modal(old(canvas).area, *summary),
{
    let screen = canvas.area;
    let ghost before = canvas@;
    let room: u16 = screen.width.saturating_sub(4);
    let width: u16 = if room < 24 {
        24
    } else if room > 72 {
        72
    } else {
        room
    };
    let budget: usize = if screen.height > 5 {
        (screen.height - 3) as usize
    } else {
        2
    };
    let body = confirm_body(summary, (width - 4) as usize, budget);
    assert(crate::browser::strings_model(body@).len() == body@.len());
    let height: u16 = if body.len() + 3 < screen.height as usize {
        (body.len() + 3) as u16
    } else {
        screen.height
    };
    let area = centered(screen, width, height);
    canvas.clear(area);
    canvas.text(area, modal_text(&body), Frame::fixed(" Confirmation "));
    assert(canvas@ =~= before + modal(screen, *summary));
}

/// The way out is on the modal's last line, whatever the plan and the terminal.
pub proof fn law_the_answer_is_always_offered(screen: Rect, summary: PlanSummary)
    ensures
        modal(screen, summary)[1] matches WidgetModel::Text { lines, .. } && lines.last()
            == crate::canvas::text_line("            [Y] yes        [N] no"@),
{
}

// ---------------------------------------------------------------------------------------------
// The screen and its keys.
// ---------------------------------------------------------------------------------------------
/// The review on screen.
pub open spec fn review_widgets(review: ReviewState, screen: Rect, at: BodyAndFoot, status: Seq<char>) -> Seq<
    WidgetModel,
> {
    let base = seq![review_list(review, at.body), review_foot(review, at.foot, status)];
    match summary_of(review) {
        Some(summary) => if review.confirming {
            base + modal(screen, summary)
        } else {
            base
        },
        None => base,
    }
}

/// Draws the review in an area that was split into `at`.
pub fn render_at(canvas: &mut Canvas, review: &mut ReviewState, at: &BodyAndFoot, status: &str)
    requires
        crate::layout::bounded(old(canvas).area),
    ensures
        final(canvas).area == old(canvas).area,
        final(canvas)@ == old(canvas)@ + review_widgets(
            *old(review),
            old(canvas).area,
            *at,
            status@,
        ),
        *final(review) == reviewed(*old(review), at.body),
{
    let ghost before = canvas@;
    let ghost start = *review;
    draw_list(canvas, review, at.body);
    draw_foot(canvas, review, at.foot, status);
    let ghost base = seq![review_list(start, at.body), review_foot(start, at.foot, status@)];
    assert(canvas@ =~= before + base);
    if review.confirming {
        if let Some(plan) = &review.plan {
            render_confirm(canvas, &plan.summary);
            assert(canvas@ =~= before + (base + modal(canvas.area, plan.summary)));
        }
    }
}

/// Action review screen: dry-run list + confirmation modal.
pub fn render(canvas: &mut Canvas, review: &mut ReviewState, status: &str)
    requires
        crate::layout::bounded(old(canvas).area),
    ensures
        final(canvas).area == old(canvas).area,
        exists|at: BodyAndFoot|
            #[trigger] crate::wizard::body_and_foot(old(canvas).area, 6, at) && final(canvas)@
                == old(canvas)@ + review_widgets(*old(review), old(canvas).area, at, status@)
                && *final(review) == reviewed(*old(review), at.body),
{
    let at = split_foot(canvas.area, 6);
    render_at(canvas, review, &at, status);
}

} // verus!
