//! Adaptive layout of the commander screen.

use ratatui::layout::{Constraint, Layout};
use vstd::prelude::*;

use crate::canvas::Rect;

verus! {

/// Minimum usable width of a single panel (in terminal columns).
pub const MIN_PANEL_WIDTH: u16 = 36;

/// How many panels of the minimum width fit, held to 1..=4.
pub open spec fn panels_that_fit(width: u16) -> int {
    let fits = width as int / MIN_PANEL_WIDTH as int;
    if fits < 1 {
        1
    } else if fits > 4 {
        4
    } else {
        fits
    }
}

/// How many panels fit across the terminal width: a value of 1..=4.
pub fn max_panels(width: u16) -> (r: usize)
    ensures
        r == panels_that_fit(width),
        1 <= r <= 4,
{
    let fits: u16 = width / MIN_PANEL_WIDTH;
    if fits < 1 {
        1
    } else if fits > 4 {
        4
    } else {
        fits as usize
    }
}

/// What a strip of the screen asks for.
#[derive(Debug, Clone, Copy, PartialEq, Eq, Structural)]
pub enum Extent {
    /// So many cells.
    Length(u16),
    /// At least so many cells, and whatever is left over.
    Min(u16),
    /// This share of the whole.
    Ratio(u32, u32),
}

/// Cells that the strips ask for before anything is left over.
pub open spec fn asked(extents: Seq<Extent>) -> int
    decreases extents.len(),
{
    if extents.len() == 0 {
        0
    } else {
        asked(extents.drop_last()) + (match extents.last() {
            Extent::Length(n) => n as int,
            Extent::Min(n) => n as int,
            Extent::Ratio(_, _) => 0,
        })
    }
}

/// One strip takes what is left over, all others have a length, and together they fit.
pub open spec fn settled(extents: Seq<Extent>, size: int, rest: int) -> bool {
    &&& 0 <= rest < extents.len()
    &&& extents[rest] is Min
    &&& forall|i: int| 0 <= i < extents.len() && i != rest ==> (#[trigger] extents[i]) is Length
    &&& asked(extents) <= size
}

/// Cells of one strip where the strips are settled.
pub open spec fn strip_size(extents: Seq<Extent>, size: int, i: int) -> int {
    match extents[i] {
        Extent::Length(n) => n as int,
        Extent::Min(n) => n + (size - asked(extents)),
        Extent::Ratio(_, _) => 0,
    }
}

/// Cells before one strip where the strips are settled.
pub open spec fn strip_start(extents: Seq<Extent>, size: int, i: int) -> int
    decreases i,
{
    if i <= 0 {
        0
    } else {
        strip_start(extents, size, i - 1) + strip_size(extents, size, i - 1)
    }
}

/// A share of the whole in twelfths, for halves, thirds and quarters.
pub open spec fn twelfths_of(n: u32, d: u32) -> int {
    if d <= 1 {
        12 * n
    } else if d == 2 {
        6 * n
    } else if d == 3 {
        4 * n
    } else {
        3 * n
    }
}

/// Twelfths of the whole that the first strips ask for as shares.
pub open spec fn twelfths(extents: Seq<Extent>, count: int) -> int
    decreases count,
{
    if count <= 0 {
        0
    } else {
        twelfths(extents, count - 1) + (match extents[count - 1] {
            Extent::Ratio(n, d) => twelfths_of(n, d),
            _ => 0,
        })
    }
}

/// The strips share out the whole, in halves, thirds and quarters of it.
pub open spec fn shared(extents: Seq<Extent>) -> bool {
    &&& forall|i: int|
        0 <= i < extents.len() ==> ((#[trigger] extents[i]) matches Extent::Ratio(_, d) && 1 <= d
            <= 4)
    &&& twelfths(extents, extents.len() as int) == 12
}

/// Cells before one strip where the strips share out the whole: the share before it, rounded to
/// the nearest cell.
pub open spec fn share_start(extents: Seq<Extent>, size: int, i: int) -> int {
    (2 * twelfths(extents, i) * size + 12) / 24
}

/// Equal shares of the whole, one for each of `count` strips.
pub open spec fn equal_shares(count: u32) -> Seq<Extent> {
    Seq::new(count as nat, |i: int| Extent::Ratio(1, count))
}

/// Columns before panel `i` of `count` equal ones: its share, rounded to the nearest column.
pub open spec fn panel_edge(width: int, count: int, i: int) -> int {
    (2 * i * width + count) / (2 * count)
}

/// One strip takes what is left over and all others have a length, but together they ask for more
/// than there is.
pub open spec fn crowded(extents: Seq<Extent>, size: int, rest: int) -> bool {
    &&& 0 <= rest < extents.len() <= 8
    &&& extents[rest] matches Extent::Min(n) && n <= 0x7fff
    &&& forall|i: int| 0 <= i < extents.len() && i != rest ==> (#[trigger] extents[i]) is Length
    &&& asked(extents) > size
}

/// How crowded strips share what there is: one after the other from the start to the end, no
/// length exceeded, and the one that asks for a least size has it before all others.
pub open spec fn squeezed(extents: Seq<Extent>, from: int, size: int, spans: Seq<(int, int)>) -> bool {
    &&& spans.len() == extents.len()
    &&& spans.first().0 == from
    &&& spans.last().0 + spans.last().1 == from + size
    &&& forall|i: int, j: int|
        0 <= i && j == i + 1 && j < spans.len() ==> (#[trigger] spans[j]).0 == (
        #[trigger] spans[i]).0 + spans[i].1
    &&& forall|i: int|
        0 <= i < spans.len() ==> match extents[i] {
            Extent::Length(n) => 0 <= (#[trigger] spans[i]).1 <= n,
            Extent::Min(n) => spans[i].1 == (if n <= size {
                n as int
            } else {
                size
            }),
            Extent::Ratio(_, _) => true,
        }
}

/// Where each rectangle begins and how high it is.
pub open spec fn row_spans(r: Seq<Rect>) -> Seq<(int, int)> {
    Seq::new(r.len(), |i: int| (r[i].y as int, r[i].height as int))
}

/// Where each rectangle begins and how wide it is.
pub open spec fn column_spans(r: Seq<Rect>) -> Seq<(int, int)> {
    Seq::new(r.len(), |i: int| (r[i].x as int, r[i].width as int))
}

/// The strips end in what is left over and two single rows, with at most one length above them.
pub open spec fn footed(extents: Seq<Extent>) -> bool {
    let n = extents.len();
    &&& n == 3 || n == 4 && extents[0] is Length
    &&& extents[n - 3] == Extent::Min(0)
    &&& extents[n - 2] == Extent::Length(1)
    &&& extents[n - 1] == Extent::Length(1)
}

/// Splits an area from top to bottom through `Layout::vertical` and `Layout::split`.
///
/// There is one rectangle for each strip, all inside the area and over its full width. Where one
/// strip takes what is left over and the lengths of the others fit, each has exactly its length
/// and they follow one another. Where the lengths do not fit, the strips still follow one another
/// over the whole area, the one with a least size has as much of it as there is, and no other is
/// longer than its length: the solver ranks a least size above a length, and both above growing.
/// It then evens out neighbours, so of two single rows at the end, below a strip that is left with
/// nothing, the upper one comes first. Where the strips share out the whole, each ends where the
/// next begins, at the nearest cell. Which of several equally good splits the solver finds is left
/// open: it goes by the order in which hash maps with seeds of their own are walked.
#[verifier::external_body]
pub(crate) fn split_rows(extents: &Vec<Extent>, area: Rect) -> (r: Vec<Rect>)
    ensures
        r@.len() == extents@.len(),
        forall|i: int|
            0 <= i < r@.len() ==> (#[trigger] r@[i]).within(area) && r@[i].x == area.x
                && r@[i].width == area.width,
        forall|rest: int, i: int|
            bounded(area) && #[trigger] settled(
                extents@,
                area.height as int,
                rest,
            ) && 0 <= i < r@.len() ==> (#[trigger] r@[i]).y == area.y + strip_start(
                extents@,
                area.height as int,
                i,
            ) && r@[i].height == strip_size(extents@, area.height as int, i),
        forall|i: int|
            bounded(area) && shared(extents@) && 0 <= i < r@.len() ==> (#[trigger] r@[i]).y
                == area.y + share_start(extents@, area.height as int, i) && r@[i].height
                == share_start(extents@, area.height as int, i + 1) - share_start(
                extents@,
                area.height as int,
                i,
            ),
        forall|rest: int|
            bounded(area) && #[trigger] crowded(extents@, area.height as int, rest) ==> squeezed(
                extents@,
                area.y as int,
                area.height as int,
                row_spans(r@),
            ),
        bounded(area) && footed(extents@) && asked(extents@) > area.height ==> r@[r@.len()
            - 1].height == (if area.height >= 2 {
            1int
        } else {
            0
        }) && r@[r@.len() - 2].height == (if area.height >= 1 {
            1int
        } else {
            0
        }),
{
    let constraints = extents.iter().map(|extent| match *extent {
        Extent::Length(n) => Constraint::Length(n),
        Extent::Min(n) => Constraint::Min(n),
        Extent::Ratio(n, d) => Constraint::Ratio(n, d),
    });
    let whole = ratatui::layout::Rect { x: area.x, y: area.y, width: area.width, height: area.height };
    let rects = Layout::vertical(constraints).split(whole);
    rects.iter().map(|r| Rect { x: r.x, y: r.y, width: r.width, height: r.height }).collect()
}

/// Splits an area from left to right through `Layout::horizontal` and `Layout::split`.
///
/// There is one rectangle for each strip, all inside the area and over its full height. Where one
/// strip takes what is left over and the lengths of the others fit, each has exactly its length
/// and they follow one another. Where the lengths do not fit, the strips still follow one another
/// over the whole area, the one with a least size has as much of it as there is, and no other is
/// longer than its length. Where the strips share out the whole, in a few parts or in up to 32
/// equal ones, each ends where the next begins, at the nearest cell; the solver works in
/// hundredths of a cell, so the edges of many more parts may be a cell off. Which of several
/// equally good splits it finds is left open: it goes by the order in which hash maps with seeds
/// of their own are walked.
#[verifier::external_body]
pub(crate) fn split_columns(extents: &Vec<Extent>, area: Rect) -> (r: Vec<Rect>)
    ensures
        r@.len() == extents@.len(),
        forall|i: int|
            0 <= i < r@.len() ==> (#[trigger] r@[i]).within(area) && r@[i].y == area.y
                && r@[i].height == area.height,
        forall|rest: int, i: int|
            bounded(area) && #[trigger] settled(
                extents@,
                area.width as int,
                rest,
            ) && 0 <= i < r@.len() ==> (#[trigger] r@[i]).x == area.x + strip_start(
                extents@,
                area.width as int,
                i,
            ) && r@[i].width == strip_size(extents@, area.width as int, i),
        forall|i: int|
            bounded(area) && shared(extents@) && 0 <= i < r@.len() ==> (#[trigger] r@[i]).x
                == area.x + share_start(extents@, area.width as int, i) && r@[i].width
                == share_start(extents@, area.width as int, i + 1) - share_start(
                extents@,
                area.width as int,
                i,
            ),
        forall|rest: int|
            bounded(area) && #[trigger] crowded(extents@, area.width as int, rest) ==> squeezed(
                extents@,
                area.x as int,
                area.width as int,
                column_spans(r@),
            ),
        forall|count: u32, i: int|
            bounded(area) && 1 <= count <= 32 && extents@ == #[trigger] equal_shares(count) && 0
                <= i < r@.len() ==> (#[trigger] r@[i]).x == area.x + panel_edge(
                area.width as int,
                count as int,
                i,
            ) && r@[i].width == panel_edge(area.width as int, count as int, i + 1) - panel_edge(
                area.width as int,
                count as int,
                i,
            ),
{
    let constraints = extents.iter().map(|extent| match *extent {
        Extent::Length(n) => Constraint::Length(n),
        Extent::Min(n) => Constraint::Min(n),
        Extent::Ratio(n, d) => Constraint::Ratio(n, d),
    });
    let whole = ratatui::layout::Rect { x: area.x, y: area.y, width: area.width, height: area.height };
    let rects = Layout::horizontal(constraints).split(whole);
    rects.iter().map(|r| Rect { x: r.x, y: r.y, width: r.width, height: r.height }).collect()
}

/// Regions of the commander screen.
#[derive(Debug, Clone, Copy, PartialEq, Eq, Structural)]
pub struct Regions {
    pub header: Rect,
    pub panels: Rect,
    pub status: Rect,
    pub fkeys: Rect,
}

/// An area whose right and lower edges can be counted.
pub open spec fn bounded(area: Rect) -> bool {
    area.x + area.width <= u16::MAX && area.y + area.height <= u16::MAX
}

/// A full-width strip of `area`, `height` rows high from row `top` of it.
pub open spec fn strip(area: Rect, top: int, height: int) -> Rect {
    Rect { x: area.x, y: (area.y + top) as u16, width: area.width, height: height as u16 }
}

/// The regions of a screen: the status row comes before all others, the F-key row next, then up to
/// three rows of the header, and the panels have what is left.
pub open spec fn screen_regions(area: Rect) -> Regions {
    let h = area.height as int;
    let status: int = if h >= 1 {
        1
    } else {
        0
    };
    let fkeys: int = if h >= 2 {
        1
    } else {
        0
    };
    let header: int = if h >= 5 {
        3
    } else if h >= 2 {
        h - 2
    } else {
        0
    };
    Regions {
        header: strip(area, 0, header),
        panels: strip(area, header, h - header - status - fkeys),
        status: strip(area, h - status - fkeys, status),
        fkeys: strip(area, h - fkeys, fkeys),
    }
}

/// Splits the screen vertically: header, panel strip, status, F-key row.
pub fn regions(area: Rect) -> (r: Regions)
    ensures
        r.header.within(area) && r.panels.within(area) && r.status.within(area) && r.fkeys.within(
            area,
        ),
        bounded(area) ==> r == screen_regions(area),
{
    let extents: Vec<Extent> = vec![
        Extent::Length(3),
        Extent::Min(0),
        Extent::Length(1),
        Extent::Length(1),
    ];
    let rows = split_rows(&extents, area);
    proof {
        reveal_with_fuel(asked, 5);
        reveal_with_fuel(strip_start, 5);
        assert(rows@[0].within(area) && rows@[1].within(area) && rows@[2].within(area)
            && rows@[3].within(area));
        if bounded(area) {
            if area.height >= 5 {
                assert(settled(extents@, area.height as int, 1));
            } else {
                assert(crowded(extents@, area.height as int, 1));
                assert(footed(extents@));
                let spans = row_spans(rows@);
                assert(spans[1].0 == spans[0].0 + spans[0].1);
                assert(spans[2].0 == spans[1].0 + spans[1].1);
                assert(spans[3].0 == spans[2].0 + spans[2].1);
            }
            let slots = screen_regions(area);
            assert(rows@[0] == slots.header);
            assert(rows@[1] == slots.panels);
            assert(rows@[2] == slots.status);
            assert(rows@[3] == slots.fkeys);
        }
    }
    Regions { header: rows[0], panels: rows[1], status: rows[2], fkeys: rows[3] }
}

/// The regions cover the screen row by row, whatever its height.
pub proof fn law_the_regions_cover_the_screen(area: Rect)
    requires
        bounded(area),
    ensures
        ({
            let r = screen_regions(area);
            &&& r.header.y == area.y && r.panels.y == r.header.y + r.header.height
            &&& r.status.y == r.panels.y + r.panels.height
            &&& r.fkeys.y == r.status.y + r.status.height
            &&& r.fkeys.y + r.fkeys.height == area.y + area.height
        }),
{
}

proof fn lemma_share_start(extents: Seq<Extent>, size: int, i: int)
    requires
        0 <= twelfths(extents, i) <= 12,
    ensures
        twelfths(extents, i) == 3 ==> share_start(extents, size, i) == (size + 2) / 4,
        twelfths(extents, i) == 6 ==> share_start(extents, size, i) == (size + 1) / 2,
        twelfths(extents, i) == 9 ==> share_start(extents, size, i) == (3 * size + 2) / 4,
        twelfths(extents, i) == 12 ==> share_start(extents, size, i) == size,
        twelfths(extents, i) == 0 ==> share_start(extents, size, i) == 0,
{
    let t = twelfths(extents, i);
    assert(t == 3 ==> 2 * t * size == 6 * size) by (nonlinear_arith);
    assert(t == 6 ==> 2 * t * size == 12 * size) by (nonlinear_arith);
    assert(t == 9 ==> 2 * t * size == 18 * size) by (nonlinear_arith);
    assert(t == 12 ==> 2 * t * size == 24 * size) by (nonlinear_arith);
    assert(t == 0 ==> 2 * t * size == 0) by (nonlinear_arith);
}

/// The rectangle of panel `i` of `count` equal-width ones.
pub open spec fn panel_slot(area: Rect, count: int, i: int) -> Rect {
    let left = panel_edge(area.width as int, count, i);
    let right = panel_edge(area.width as int, count, i + 1);
    Rect {
        x: (area.x + left) as u16,
        y: area.y,
        width: (right - left) as u16,
        height: area.height,
    }
}

/// Rectangles of `count` equal-width panels inside `area`. How the columns that do not divide
/// evenly are handed out to more than 32 panels is left to the layout solver.
pub fn panel_rects(area: Rect, count: usize) -> (r: Vec<Rect>)
    requires
        count <= u32::MAX,
    ensures
        r@.len() == (if count == 0 {
            1
        } else {
            count as int
        }),
        forall|i: int|
            0 <= i < r@.len() ==> (#[trigger] r@[i]).within(area) && r@[i].y == area.y
                && r@[i].height == area.height,
        bounded(area) && r@.len() <= 32 ==> forall|i: int|
            0 <= i < r@.len() ==> #[trigger] r@[i] == panel_slot(area, r@.len() as int, i),
{
    let shares: u32 = if count == 0 {
        1
    } else {
        count as u32
    };
    let mut extents: Vec<Extent> = Vec::new();
    let mut i: u32 = 0;
    while i < shares
        invariant
            i <= shares,
            extents@ == equal_shares(shares).take(i as int),
        decreases shares - i,
    {
        extents.push(Extent::Ratio(1, shares));
        i = i + 1;
        assert(extents@ =~= equal_shares(shares).take(i as int));
    }
    assert(extents@ =~= equal_shares(shares));
    let r = split_columns(&extents, area);
    proof {
        if bounded(area) && shares <= 32 {
            assert(extents@ == equal_shares(shares));
        }
    }
    r
}

/// The panels stand side by side over the whole width: each begins where the one before it ends,
/// none is more than a column wider than another.
pub proof fn law_the_panels_tile_the_width(area: Rect, count: int, i: int, j: int)
    requires
        bounded(area),
        1 <= count,
        0 <= i < count,
        0 <= j < count,
    ensures
        panel_slot(area, count, 0).x == area.x,
        i + 1 < count ==> panel_slot(area, count, i + 1).x == panel_slot(area, count, i).x
            + panel_slot(area, count, i).width,
        panel_slot(area, count, count - 1).x + panel_slot(area, count, count - 1).width == area.x
            + area.width,
        panel_slot(area, count, i).width <= panel_slot(area, count, j).width + 1,
{
    let w = area.width as int;
    assert forall|k: int| 0 <= k <= count implies 0 <= #[trigger] panel_edge(w, count, k) <= w
        by {
        lemma_edge(w, count, k);
    }
    lemma_edge(w, count, 0);
    lemma_edge(w, count, count);
    lemma_edge(w, count, i);
    lemma_edge(w, count, i + 1);
    lemma_edge(w, count, j);
    lemma_edge(w, count, j + 1);
}

proof fn lemma_edge(width: int, count: int, k: int)
    requires
        0 <= width,
        1 <= count,
        0 <= k <= count,
    ensures
        0 <= panel_edge(width, count, k) <= width,
        k == 0 ==> panel_edge(width, count, k) == 0,
        k == count ==> panel_edge(width, count, k) == width,
        panel_edge(width, count, k + 1) - panel_edge(width, count, k) == width / count
            || panel_edge(width, count, k + 1) - panel_edge(width, count, k) == width / count + 1,
{
    let b = 2 * count;
    let at = 2 * k * width + count;
    let next = 2 * (k + 1) * width + count;
    vstd::arithmetic::div_mod::lemma_fundamental_div_mod(at, b);
    vstd::arithmetic::div_mod::lemma_fundamental_div_mod(next, b);
    vstd::arithmetic::div_mod::lemma_fundamental_div_mod(width, count);
    let (q, r) = (at / b, at % b);
    let (q2, r2) = (next / b, next % b);
    let (f, g) = (width / count, width % count);
    assert(0 <= q <= width) by (nonlinear_arith)
        requires
            at == b * q + r,
            0 <= r < b,
            b == 2 * count,
            at == 2 * k * width + count,
            0 <= k <= count,
            0 <= width,
            1 <= count,
    ;
    assert(k == 0 ==> q == 0) by (nonlinear_arith)
        requires
            at == b * q + r,
            0 <= r < b,
            b == 2 * count,
            at == 2 * k * width + count,
            1 <= count,
    ;
    assert(k == count ==> q == width) by (nonlinear_arith)
        requires
            at == b * q + r,
            0 <= r < b,
            b == 2 * count,
            at == 2 * k * width + count,
            1 <= count,
    ;
    assert(b * (q2 - q - f) == 2 * g + r - r2) by (nonlinear_arith)
        requires
            at == b * q + r,
            next == b * q2 + r2,
            width == count * f + g,
            b == 2 * count,
            at == 2 * k * width + count,
            next == 2 * (k + 1) * width + count,
    ;
    let d = q2 - q - f;
    assert(d == 0 || d == 1) by (nonlinear_arith)
        requires
            b * d == 2 * g + r - r2,
            0 <= r < b,
            0 <= r2 < b,
            0 <= g < count,
            b == 2 * count,
    ;
}

/// Triage Board regions: 3 columns — center source (≈1/2), left and
/// right (≈1/4 each) split in half into 2 receivers each = 4 receivers.
#[derive(Debug, Clone, Copy, PartialEq, Eq, Structural)]
pub struct BoardRegions {
    pub left_top: Rect,
    pub left_bot: Rect,
    pub center: Rect,
    pub right_top: Rect,
    pub right_bot: Rect,
}

/// The regions of the Triage Board in `area`: the source over the middle half, two receivers on
/// either side, every edge at the nearest cell.
pub open spec fn board_slots(area: Rect) -> BoardRegions {
    let left = (area.width + 2) / 4;
    let right = (3 * area.width + 2) / 4;
    let half = (area.height + 1) / 2;
    let cut = |from: int, to: int, top: int, bottom: int|
        Rect {
            x: (area.x + from) as u16,
            y: (area.y + top) as u16,
            width: (to - from) as u16,
            height: (bottom - top) as u16,
        };
    BoardRegions {
        left_top: cut(0, left, 0, half),
        left_bot: cut(0, left, half, area.height as int),
        center: cut(left, right, 0, area.height as int),
        right_top: cut(right, area.width as int, 0, half),
        right_bot: cut(right, area.width as int, half, area.height as int),
    }
}

/// The columns of the Board run from left to right over the whole area, its source is no narrower
/// than a side and spans the full height, and the receivers of a side are stacked.
pub proof fn law_the_board_is_tiled(area: Rect)
    requires
        bounded(area),
    ensures
        ({
            let b = board_slots(area);
            &&& b.left_top.x == area.x && b.center.x == b.left_top.x + b.left_top.width
            &&& b.right_top.x == b.center.x + b.center.width
            &&& b.right_top.x + b.right_top.width == area.x + area.width
            &&& b.center.width >= b.left_top.width && b.center.width >= b.right_top.width
            &&& area.width >= 4 ==> b.center.width > b.left_top.width && b.center.width
                > b.right_top.width
            &&& b.center.y == area.y && b.center.height == area.height
            &&& b.left_bot.x == b.left_top.x && b.left_bot.width == b.left_top.width
            &&& b.right_bot.x == b.right_top.x && b.right_bot.width == b.right_top.width
            &&& b.left_top.y == area.y && b.left_bot.y == b.left_top.y + b.left_top.height
            &&& b.right_top.y == area.y && b.right_bot.y == b.right_top.y + b.right_top.height
            &&& b.left_top.height + b.left_bot.height == area.height
            &&& b.right_top.height + b.right_bot.height == area.height
        }),
{
}

/// Splits `area` for the Triage Board: center wider (1/2), sides 1/4 each, each
/// side split in half vertically.
pub fn board_regions(area: Rect) -> (r: BoardRegions)
    ensures
        r.left_top.within(area) && r.left_bot.within(area) && r.center.within(area)
            && r.right_top.within(area) && r.right_bot.within(area),
        r.center.y == area.y && r.center.height == area.height,
        r.left_top.x == r.left_bot.x && r.left_top.width == r.left_bot.width,
        r.right_top.x == r.right_bot.x && r.right_top.width == r.right_bot.width,
        bounded(area) ==> r == board_slots(area),
{
    let thirds: Vec<Extent> = vec![Extent::Ratio(1, 4), Extent::Ratio(1, 2), Extent::Ratio(1, 4)];
    let cols = split_columns(&thirds, area);
    let halves: Vec<Extent> = vec![Extent::Ratio(1, 2), Extent::Ratio(1, 2)];
    let left = split_rows(&halves, cols[0]);
    let right = split_rows(&halves, cols[2]);
    proof {
        assert(cols@[0].within(area) && cols@[1].within(area) && cols@[2].within(area));
        assert(left@[0].within(cols@[0]) && left@[1].within(cols@[0]));
        assert(right@[0].within(cols@[2]) && right@[1].within(cols@[2]));
        if bounded(area) {
            reveal_with_fuel(twelfths, 4);
            assert(shared(thirds@));
            assert(shared(halves@));
            let (w, h) = (area.width as int, area.height as int);
            lemma_share_start(thirds@, w, 0);
            lemma_share_start(thirds@, w, 1);
            lemma_share_start(thirds@, w, 2);
            lemma_share_start(thirds@, w, 3);
            lemma_share_start(halves@, h, 0);
            lemma_share_start(halves@, h, 1);
            lemma_share_start(halves@, h, 2);
            let slots = board_slots(area);
            assert(cols@[1] == slots.center);
            assert(left@[0] == slots.left_top);
            assert(left@[1] == slots.left_bot);
            assert(right@[0] == slots.right_top);
            assert(right@[1] == slots.right_bot);
        }
    }
    BoardRegions {
        left_top: left[0],
        left_bot: left[1],
        center: cols[1],
        right_top: right[0],
        right_bot: right[1],
    }
}

/// Three strips of a screen, top to bottom.
#[derive(Debug, Clone, Copy, PartialEq, Eq, Structural)]
pub struct ThreeRows {
    pub top: Rect,
    pub middle: Rect,
    pub bottom: Rect,
}

/// How an area is split into three strips: each inside it, and the outer two of the given heights
/// where the area has room for them and for the least height of the middle one. Where it has not,
/// the middle one has its least height before the others, and they share the rest.
pub open spec fn three_rows(area: Rect, top: u16, least: u16, bottom: u16, r: ThreeRows) -> bool {
    &&& r.top.within(area) && r.middle.within(area) && r.bottom.within(area)
    &&& bounded(area) && area.height >= top + least + bottom ==> r == (ThreeRows {
        top: strip(area, 0, top as int),
        middle: strip(area, top as int, area.height - top - bottom),
        bottom: strip(area, area.height - bottom, bottom as int),
    })
    &&& bounded(area) && area.height < top + least + bottom && least <= 0x7fff ==> {
        let middle = if least <= area.height {
            least
        } else {
            area.height
        };
        &&& r.top == strip(area, 0, r.top.height as int) && r.top.height <= top
        &&& r.middle == strip(area, r.top.height as int, middle as int)
        &&& r.bottom == strip(area, r.top.height + middle, area.height - r.top.height - middle)
        &&& r.top.height + middle <= area.height <= r.top.height + middle + bottom
    }
}

/// Splits an area into a strip on top, one at the bottom and the rest between them.
pub fn split_three(area: Rect, top: u16, least: u16, bottom: u16) -> (r: ThreeRows)
    ensures
        three_rows(area, top, least, bottom, r),
{
    let extents: Vec<Extent> = vec![
        Extent::Length(top),
        Extent::Min(least),
        Extent::Length(bottom),
    ];
    let rows = split_rows(&extents, area);
    proof {
        reveal_with_fuel(asked, 4);
        reveal_with_fuel(strip_start, 4);
        assert(rows@[0].within(area) && rows@[1].within(area) && rows@[2].within(area));
        if bounded(area) && area.height >= top + least + bottom {
            assert(settled(extents@, area.height as int, 1));
            assert(rows@[0].y == area.y);
            assert(rows@[1].y == area.y + top);
            assert(rows@[2].y == area.y + area.height - bottom);
        } else if bounded(area) && least <= 0x7fff {
            assert(crowded(extents@, area.height as int, 1));
            let spans = row_spans(rows@);
            assert(spans[1].0 == spans[0].0 + spans[0].1);
            assert(spans[2].0 == spans[1].0 + spans[1].1);
        }
    }
    ThreeRows { top: rows[0], middle: rows[1], bottom: rows[2] }
}

/// Two panes side by side.
#[derive(Debug, Clone, Copy, PartialEq, Eq, Structural)]
pub struct TwoPanes {
    pub left: Rect,
    pub right: Rect,
}

/// How an area is split into two panes: each inside it, the left one of the given width as far as
/// the area is that wide, and the right one of the rest.
pub open spec fn two_panes(area: Rect, left: u16, r: TwoPanes) -> bool {
    &&& r.left.within(area) && r.right.within(area)
    &&& r.left.y == area.y && r.left.height == area.height
    &&& r.right.y == area.y && r.right.height == area.height
    &&& bounded(area) ==> {
        let taken = if area.width >= left {
            left
        } else {
            area.width
        };
        &&& r.left.x == area.x && r.left.width == taken
        &&& r.right.x == area.x + taken && r.right.width == area.width - taken
    }
}

/// Splits an area into a pane of fixed width on the left and the rest.
pub fn split_two(area: Rect, left: u16) -> (r: TwoPanes)
    ensures
        two_panes(area, left, r),
{
    let extents: Vec<Extent> = vec![Extent::Length(left), Extent::Min(0)];
    let panes = split_columns(&extents, area);
    proof {
        reveal_with_fuel(asked, 3);
        reveal_with_fuel(strip_start, 3);
        assert(panes@[0].within(area) && panes@[1].within(area));
        if bounded(area) && area.width >= left {
            assert(settled(extents@, area.width as int, 1));
            assert(panes@[0].x == area.x);
            assert(panes@[1].x == area.x + left);
        } else if bounded(area) {
            assert(crowded(extents@, area.width as int, 1));
            let spans = column_spans(panes@);
            assert(spans[1].0 == spans[0].0 + spans[0].1);
        }
    }
    TwoPanes { left: panes[0], right: panes[1] }
}

} // verus!
