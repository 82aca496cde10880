//! What the wizard's screens have in common.

use vstd::prelude::*;

use crate::canvas::{push_row, Canvas, Frame, Line, ListState, Rect, Row, RowModel, Style, Widget, WidgetModel};
use crate::layout::{split_rows, Extent};
use crate::path::{FilePath, PathView};

verus! {

/// A list to pick from: a marker beside the entry under the cursor, which is shown with its
/// colours swapped.
pub open spec fn picker(
    area: Rect,
    rows: Seq<RowModel>,
    selected: Option<usize>,
    title: Seq<char>,
) -> WidgetModel {
    WidgetModel::List {
        area,
        rows,
        state: ListState { selected, offset: 0 },
        frame: Some(crate::canvas::plain_frame(title)),
        pointer: true,
        highlight: crate::canvas::reversed_style(),
    }
}

/// Puts a list to pick from.
pub fn put_picker(
    canvas: &mut Canvas,
    area: Rect,
    rows: Vec<Row>,
    selected: Option<usize>,
    title: &str,
)
    ensures
        final(canvas).area == old(canvas).area,
        final(canvas)@ == old(canvas)@.push(
            picker(area, crate::canvas::rows_model(rows@), selected, title@),
        ),
{
    canvas.put(
        Widget::List {
            area,
            rows,
            state: ListState { selected, offset: 0 },
            frame: Some(Frame::fixed(title)),
            pointer: true,
            highlight: Style::swapped(),
        },
    );
}

/// One plain row of text.
pub open spec fn text_row(text: Seq<char>) -> RowModel {
    crate::canvas::row_of_line(crate::canvas::text_line(text))
}

/// Adds a plain row of text.
pub fn push_text_row(rows: &mut Vec<Row>, text: String)
    ensures
        crate::canvas::rows_model(final(rows)@) == crate::canvas::rows_model(old(rows)@).push(
            text_row(text@),
        ),
{
    push_row(rows, Row::of(Line::text(text)));
}

/// The cursor of a list, where the list has entries.
pub open spec fn cursor_in(count: nat, cursor: usize) -> Option<usize> {
    if count == 0 {
        None
    } else {
        Some(cursor)
    }
}

/// Several paths, printed one after the other.
pub open spec fn joined(paths: Seq<PathView>) -> Seq<char>
    decreases paths.len(),
{
    if paths.len() == 0 {
        ""@
    } else if paths.len() == 1 {
        paths[0].shown_safely()
    } else {
        joined(paths.drop_last()) + ", "@ + paths.last().shown_safely()
    }
}

/// Prints several paths one after the other.
pub fn join_paths(paths: &Vec<FilePath>) -> (r: String)
    ensures
        r@ == joined(crate::model::paths_model(paths@)),
{
    let ghost all = crate::model::paths_model(paths@);
    if paths.len() == 0 {
        return "".to_string();
    }
    let mut out = paths[0].display_safely();
    let mut i: usize = 1;
    assert(all.take(1)[0] == paths@[0]@);
    while i < paths.len()
        invariant
            1 <= i <= paths@.len(),
            all == crate::model::paths_model(paths@),
            out@ == joined(all.take(i as int)),
        decreases paths@.len() - i,
    {
        assert(all.take(i as int + 1).drop_last() =~= all.take(i as int));
        out.push_str(", ");
        out.push_str(paths[i].display_safely().as_str());
        i = i + 1;
    }
    assert(all.take(all.len() as int) =~= all);
    out
}

/// A body over a foot of fixed height.
#[derive(Debug, Clone, Copy, PartialEq, Eq, Structural)]
pub struct BodyAndFoot {
    pub body: Rect,
    pub foot: Rect,
}

/// How an area is split into a body and a foot: both inside it, the foot of the given height as far
/// as the area has room for it, and the body over it.
pub open spec fn body_and_foot(area: Rect, foot: u16, r: BodyAndFoot) -> bool {
    &&& r.body.within(area) && r.foot.within(area)
    &&& crate::layout::bounded(area) ==> {
        let taken = if area.height >= foot {
            foot
        } else {
            area.height
        };
        r == (BodyAndFoot {
            body: crate::layout::strip(area, 0, area.height - taken),
            foot: crate::layout::strip(area, area.height - taken, taken as int),
        })
    }
}

/// Splits an area into a body and a foot.
pub fn split_foot(area: Rect, foot: u16) -> (r: BodyAndFoot)
    ensures
        body_and_foot(area, foot, r),
{
    let extents: Vec<Extent> = vec![Extent::Min(0), Extent::Length(foot)];
    let rows = split_rows(&extents, area);
    proof {
        reveal_with_fuel(crate::layout::asked, 3);
        reveal_with_fuel(crate::layout::strip_start, 3);
        assert(rows@[0].within(area) && rows@[1].within(area));
        if crate::layout::bounded(area) && area.height >= foot {
            assert(crate::layout::settled(extents@, area.height as int, 0));
            assert(rows@[0].y == area.y);
            assert(rows@[1].y == area.y + area.height - foot);
        } else if crate::layout::bounded(area) {
            assert(crate::layout::crowded(extents@, area.height as int, 0));
            let spans = crate::layout::row_spans(rows@);
            assert(spans[1].0 == spans[0].0 + spans[0].1);
        }
    }
    BodyAndFoot { body: rows[0], foot: rows[1] }
}

/// How an area is split into strips, top to bottom: each inside it over its full width, and each
/// of its own height where one takes what is left over and the others fit. Where they do not fit,
/// they share the area without a gap.
pub open spec fn strips_of(area: Rect, extents: Seq<Extent>, r: Seq<Rect>) -> bool {
    &&& r.len() == extents.len()
    &&& forall|i: int|
        0 <= i < r.len() ==> (#[trigger] r[i]).within(area) && r[i].x == area.x && r[i].width
            == area.width
    &&& forall|rest: int, i: int|
        crate::layout::bounded(area) && #[trigger] crate::layout::settled(
            extents,
            area.height as int,
            rest,
        ) && 0 <= i < r.len() ==> (#[trigger] r[i]).y == area.y + crate::layout::strip_start(
            extents,
            area.height as int,
            i,
        ) && r[i].height == crate::layout::strip_size(extents, area.height as int, i)
    &&& forall|rest: int|
        crate::layout::bounded(area) && #[trigger] crate::layout::crowded(
            extents,
            area.height as int,
            rest,
        ) ==> crate::layout::squeezed(
            extents,
            area.y as int,
            area.height as int,
            crate::layout::row_spans(r),
        )
}

/// Splits an area into strips, top to bottom.
pub fn strips(area: Rect, extents: &Vec<Extent>) -> (r: Vec<Rect>)
    ensures
        strips_of(area, extents@, r@),
{
    split_rows(extents, area)
}

/// The frames of a turning spinner.
pub open spec fn spinner_frame(tick: u64) -> Seq<char> {
    let n = tick % 10;
    if n == 0 {
        "⠋"@
    } else if n == 1 {
        "⠙"@
    } else if n == 2 {
        "⠹"@
    } else if n == 3 {
        "⠸"@
    } else if n == 4 {
        "⠼"@
    } else if n == 5 {
        "⠴"@
    } else if n == 6 {
        "⠦"@
    } else if n == 7 {
        "⠧"@
    } else if n == 8 {
        "⠇"@
    } else {
        "⠏"@
    }
}

/// The spinner at a tick.
pub fn spinner(tick: u64) -> (r: &'static str)
    ensures
        r@ == spinner_frame(tick),
{
    let frames: [&'static str; 10] = ["⠋", "⠙", "⠹", "⠸", "⠼", "⠴", "⠦", "⠧", "⠇", "⠏"];
    let at: usize = (tick % 10) as usize;
    frames[at]
}

/// A paragraph without a border.
pub open spec fn styled_text(area: Rect, text: Seq<char>, style: Style) -> WidgetModel {
    crate::canvas::bare_text(area, seq![crate::canvas::styled_line(text, style)])
}

/// Puts one line in a look of its own.
pub fn put_styled(canvas: &mut Canvas, area: Rect, text: String, style: Style)
    ensures
        final(canvas).area == old(canvas).area,
        final(canvas)@ == old(canvas)@.push(styled_text(area, text@, style)),
{
    let ghost said = text@;
    let mut lines = crate::canvas::no_lines();
    crate::canvas::push_line(&mut lines, Line::styled(text, style));
    assert(crate::canvas::lines_model(lines@) =~= seq![
        crate::canvas::styled_line(said, style),
    ]);
    canvas.bare(area, lines);
}

/// A line of text in a border.
pub open spec fn header_text(area: Rect, text: Seq<char>, title: Seq<char>) -> WidgetModel {
    crate::canvas::framed_text(
        area,
        seq![crate::canvas::text_line(text)],
        crate::canvas::plain_frame(title),
    )
}

/// Puts a line of text in a border.
pub fn put_header(canvas: &mut Canvas, area: Rect, text: String, title: &str)
    ensures
        final(canvas).area == old(canvas).area,
        final(canvas)@ == old(canvas)@.push(header_text(area, text@, title@)),
{
    let ghost said = text@;
    let mut lines = crate::canvas::no_lines();
    crate::canvas::push_line(&mut lines, Line::text(text));
    assert(crate::canvas::lines_model(lines@) =~= seq![crate::canvas::text_line(said)]);
    canvas.text(area, lines, Frame::fixed(title));
}

} // verus!
