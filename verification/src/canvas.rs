//! What is to be drawn: rectangles, styled text and the few widgets the screens are made of.
//!
//! A screen is computed as a list of widgets; putting them on a terminal is left to the caller.

use vstd::prelude::*;

verus! {

/// A terminal colour.
#[derive(Debug, Clone, Copy, PartialEq, Eq, Structural)]
pub enum Color {
    Reset,
    Black,
    Red,
    Green,
    Yellow,
    Blue,
    Magenta,
    Cyan,
    Gray,
    DarkGray,
    LightGreen,
    LightBlue,
    White,
    Rgb(u8, u8, u8),
}

/// How a stretch of text looks.
#[derive(Debug, Clone, Copy, PartialEq, Eq, Structural)]
pub struct Style {
    pub fg: Option<Color>,
    pub bg: Option<Color>,
    pub bold: bool,
    pub dim: bool,
    pub reversed: bool,
}

/// The look of plain text.
pub open spec fn plain_style() -> Style {
    Style { fg: None, bg: None, bold: false, dim: false, reversed: false }
}

/// The look of coloured text.
pub open spec fn colored(color: Color) -> Style {
    Style { fg: Some(color), bg: None, bold: false, dim: false, reversed: false }
}

/// Colours swapped — the entry under a cursor.
pub open spec fn reversed_style() -> Style {
    Style { fg: None, bg: None, bold: false, dim: false, reversed: true }
}

impl Style {
    /// Colours swapped.
    pub fn swapped() -> (r: Style)
        ensures
            r == reversed_style(),
    {
        Style { fg: None, bg: None, bold: false, dim: false, reversed: true }
    }

    /// Plain text.
    pub fn new() -> (r: Style)
        ensures
            r == plain_style(),
    {
        Style { fg: None, bg: None, bold: false, dim: false, reversed: false }
    }

    /// Text in one colour.
    pub fn color(color: Color) -> (r: Style)
        ensures
            r == colored(color),
    {
        Style { fg: Some(color), bg: None, bold: false, dim: false, reversed: false }
    }

    /// The same look with a background.
    pub fn on(self, color: Color) -> (r: Style)
        ensures
            r == (Style { bg: Some(color), ..self }),
    {
        Style { bg: Some(color), ..self }
    }

    /// The same look in bold.
    pub fn bold(self) -> (r: Style)
        ensures
            r == (Style { bold: true, ..self }),
    {
        Style { bold: true, ..self }
    }

    /// The same look, dimmed.
    pub fn dim(self) -> (r: Style)
        ensures
            r == (Style { dim: true, ..self }),
    {
        Style { dim: true, ..self }
    }
}

/// A stretch of text in one look.
#[derive(Debug, Clone)]
pub struct Span {
    pub text: String,
    pub style: Style,
}

/// The content of a span.
#[verifier::ext_equal]
pub struct SpanModel {
    pub text: Seq<char>,
    pub style: Style,
}

impl View for Span {
    type V = SpanModel;

    open spec fn view(&self) -> SpanModel {
        SpanModel { text: self.text@, style: self.style }
    }
}

/// One line: spans side by side, over a look of the line as a whole.
#[derive(Debug, Clone)]
pub struct Line {
    pub spans: Vec<Span>,
    pub style: Style,
}

/// The content of a line.
#[verifier::ext_equal]
pub struct LineModel {
    pub spans: Seq<SpanModel>,
    pub style: Style,
}

impl View for Line {
    type V = LineModel;

    open spec fn view(&self) -> LineModel {
        LineModel { spans: self.spans@.map_values(|s: Span| s@), style: self.style }
    }
}

impl LineModel {
    /// The line with one more span.
    pub open spec fn with(self, text: Seq<char>, style: Style) -> LineModel {
        LineModel { spans: self.spans.push(SpanModel { text, style }), style: self.style }
    }

    /// No span of the line holds a control character.
    pub open spec fn inert(self) -> bool {
        forall|i: int| 0 <= i < self.spans.len() ==> crate::text::inert((#[trigger] self.spans[i]).text)
    }
}

/// A line without spans.
pub open spec fn blank_line() -> LineModel {
    LineModel { spans: Seq::empty(), style: plain_style() }
}

/// A line of one plain span.
pub open spec fn text_line(text: Seq<char>) -> LineModel {
    blank_line().with(text, plain_style())
}

/// A line of one span in a look of its own.
pub open spec fn styled_line(text: Seq<char>, style: Style) -> LineModel {
    blank_line().with(text, style)
}

impl Line {
    /// A line without spans.
    pub fn blank() -> (r: Line)
        ensures
            r@ == blank_line(),
    {
        let r = Line { spans: Vec::new(), style: Style::new() };
        assert(r@.spans =~= Seq::<SpanModel>::empty());
        r
    }

    /// Adds a span at the end.
    pub fn add(&mut self, text: String, style: Style)
        ensures
            final(self)@ == old(self)@.with(text@, style),
    {
        let ghost before = self@;
        self.spans.push(Span { text, style });
        assert(self@.spans =~= before.spans.push(SpanModel { text: text@, style }));
    }

    /// Adds a span of fixed text at the end.
    pub fn add_str(&mut self, text: &str, style: Style)
        ensures
            final(self)@ == old(self)@.with(text@, style),
    {
        self.add(text.to_string(), style);
    }

    /// A line of one plain span.
    pub fn text(text: String) -> (r: Line)
        ensures
            r@ == text_line(text@),
    {
        let mut line = Line::blank();
        line.add(text, Style::new());
        line
    }

    /// A line of one plain span of fixed text.
    pub fn fixed(text: &str) -> (r: Line)
        ensures
            r@ == text_line(text@),
    {
        Line::text(text.to_string())
    }

    /// A line of one span in a look of its own.
    pub fn styled(text: String, style: Style) -> (r: Line)
        ensures
            r@ == styled_line(text@, style),
    {
        let mut line = Line::blank();
        line.add(text, style);
        line
    }

    /// The same line over another look.
    pub fn over(self, style: Style) -> (r: Line)
        ensures
            r@ == (LineModel { spans: self@.spans, style }),
    {
        Line { spans: self.spans, style }
    }
}

/// The contents of several lines.
pub open spec fn lines_model(lines: Seq<Line>) -> Seq<LineModel> {
    lines.map_values(|l: Line| l@)
}

/// Adds a line, keeping the contents in step.
pub fn push_line(lines: &mut Vec<Line>, line: Line)
    ensures
        lines_model(final(lines)@) == lines_model(old(lines)@).push(line@),
{
    lines.push(line);
    assert(lines_model(lines@) =~= lines_model(old(lines)@).push(line@));
}

/// An empty list of lines.
pub fn no_lines() -> (r: Vec<Line>)
    ensures
        lines_model(r@) == Seq::<LineModel>::empty(),
        r@.len() == 0,
{
    let r: Vec<Line> = Vec::new();
    assert(lines_model(r@) =~= Seq::<LineModel>::empty());
    r
}

/// One entry of a list: its lines over a look of the entry as a whole.
#[derive(Debug, Clone)]
pub struct Row {
    pub lines: Vec<Line>,
    pub style: Style,
}

/// The content of a list entry.
#[verifier::ext_equal]
pub struct RowModel {
    pub lines: Seq<LineModel>,
    pub style: Style,
}

impl View for Row {
    type V = RowModel;

    open spec fn view(&self) -> RowModel {
        RowModel { lines: lines_model(self.lines@), style: self.style }
    }
}

/// A list entry of one line.
pub open spec fn row_of_line(line: LineModel) -> RowModel {
    RowModel { lines: seq![line], style: plain_style() }
}

impl Row {
    /// A list entry of one line.
    pub fn of(line: Line) -> (r: Row)
        ensures
            r@ == row_of_line(line@),
    {
        let mut lines = no_lines();
        push_line(&mut lines, line);
        assert(lines_model(lines@) =~= seq![line@]);
        Row { lines, style: Style::new() }
    }

    /// The same entry over another look.
    pub fn over(self, style: Style) -> (r: Row)
        ensures
            r@ == (RowModel { lines: self@.lines, style }),
    {
        Row { lines: self.lines, style }
    }
}

/// The contents of several list entries.
pub open spec fn rows_model(rows: Seq<Row>) -> Seq<RowModel> {
    rows.map_values(|r: Row| r@)
}

/// Adds a list entry, keeping the contents in step.
pub fn push_row(rows: &mut Vec<Row>, row: Row)
    ensures
        rows_model(final(rows)@) == rows_model(old(rows)@).push(row@),
{
    rows.push(row);
    assert(rows_model(rows@) =~= rows_model(old(rows)@).push(row@));
}

/// An empty list of entries.
pub fn no_rows() -> (r: Vec<Row>)
    ensures
        rows_model(r@) == Seq::<RowModel>::empty(),
        r@.len() == 0,
{
    let r: Vec<Row> = Vec::new();
    assert(rows_model(r@) =~= Seq::<RowModel>::empty());
    r
}

/// A border round an area with a title in it.
#[derive(Debug, Clone)]
pub struct Frame {
    pub title: Line,
    pub border: Style,
}

/// The content of a border.
#[verifier::ext_equal]
pub struct FrameModel {
    pub title: LineModel,
    pub border: Style,
}

impl View for Frame {
    type V = FrameModel;

    open spec fn view(&self) -> FrameModel {
        FrameModel { title: self.title@, border: self.border }
    }
}

impl Frame {
    /// A border in the plain look with a plain title.
    pub fn titled(title: String) -> (r: Frame)
        ensures
            r@ == plain_frame(title@),
    {
        Frame { title: Line::text(title), border: Style::new() }
    }

    /// A border in the plain look with a fixed plain title.
    pub fn fixed(title: &str) -> (r: Frame)
        ensures
            r@ == plain_frame(title@),
    {
        Frame::titled(title.to_string())
    }
}

/// A border in the plain look with a plain title.
pub open spec fn plain_frame(title: Seq<char>) -> FrameModel {
    FrameModel { title: text_line(title), border: plain_style() }
}

/// The content of a border that may be absent.
pub open spec fn frame_model(frame: Option<Frame>) -> Option<FrameModel> {
    match frame {
        Some(f) => Some(f@),
        None => None,
    }
}

/// A rectangle of terminal cells.
#[derive(Debug, Clone, Copy, PartialEq, Eq, Structural)]
pub struct Rect {
    pub x: u16,
    pub y: u16,
    pub width: u16,
    pub height: u16,
}

impl Rect {
    /// First column to the right of the rectangle, as far as columns go.
    pub open spec fn right_edge(self) -> int {
        if self.x + self.width <= u16::MAX {
            self.x + self.width
        } else {
            u16::MAX as int
        }
    }

    /// First row below the rectangle, as far as rows go.
    pub open spec fn bottom_edge(self) -> int {
        if self.y + self.height <= u16::MAX {
            self.y + self.height
        } else {
            u16::MAX as int
        }
    }

    /// The cell at `(column, row)` lies inside.
    pub open spec fn covers(self, column: u16, row: u16) -> bool {
        self.x <= column < self.right_edge() && self.y <= row < self.bottom_edge()
    }

    /// The rectangle lies inside another.
    pub open spec fn within(self, area: Rect) -> bool {
        &&& area.x <= self.x && self.x + self.width <= area.x + area.width
        &&& area.y <= self.y && self.y + self.height <= area.y + area.height
    }

    /// Whether the cell at `(column, row)` lies inside.
    pub fn contains(self, column: u16, row: u16) -> (r: bool)
        ensures
            r == self.covers(column, row),
    {
        let right: u16 = self.x.saturating_add(self.width);
        let bottom: u16 = self.y.saturating_add(self.height);
        self.x <= column && column < right && self.y <= row && row < bottom
    }

    /// What a border leaves of the rectangle: one cell less on each side, nothing where there is
    /// no room for it.
    pub open spec fn spec_inner(self) -> Rect {
        Rect {
            x: if self.x + 1 <= self.right_edge() {
                (self.x + 1) as u16
            } else {
                self.right_edge() as u16
            },
            y: if self.y + 1 <= self.bottom_edge() {
                (self.y + 1) as u16
            } else {
                self.bottom_edge() as u16
            },
            width: if self.width >= 2 {
                (self.width - 2) as u16
            } else {
                0
            },
            height: if self.height >= 2 {
                (self.height - 2) as u16
            } else {
                0
            },
        }
    }

    /// What a border leaves of the rectangle.
    pub fn inner(self) -> (r: Rect)
        ensures
            r == self.spec_inner(),
    {
        let right: u16 = self.x.saturating_add(self.width);
        let bottom: u16 = self.y.saturating_add(self.height);
        let x: u16 = if self.x < right {
            self.x + 1
        } else {
            right
        };
        let y: u16 = if self.y < bottom {
            self.y + 1
        } else {
            bottom
        };
        Rect { x, y, width: self.width.saturating_sub(2), height: self.height.saturating_sub(2) }
    }
}

/// A list's cursor and the first entry it shows.
#[derive(Debug, Clone, Copy, PartialEq, Eq, Structural)]
pub struct ListState {
    pub selected: Option<usize>,
    pub offset: usize,
}

impl ListState {
    /// No cursor, shown from the top.
    pub fn new() -> (r: ListState)
        ensures
            r == (ListState { selected: None, offset: 0 }),
    {
        ListState { selected: None, offset: 0 }
    }

    /// Places the cursor; a list without a cursor is shown from the top.
    pub fn select(&mut self, index: Option<usize>)
        ensures
            *final(self) == list_selected(*old(self), index),
    {
        self.selected = index;
        if index.is_none() {
            self.offset = 0;
        }
    }
}

/// A list with its cursor placed; a list without a cursor is shown from the top.
pub open spec fn list_selected(state: ListState, index: Option<usize>) -> ListState {
    ListState {
        selected: index,
        offset: if index is None {
            0
        } else {
            state.offset
        },
    }
}

/// The smaller of two lengths.
pub open spec fn shorter(a: u16, b: u16) -> int {
    if a <= b {
        a as int
    } else {
        b as int
    }
}

/// Left edge of what is `width` wide in the middle of `area`.
pub open spec fn centered_x(area: Rect, width: u16) -> int {
    area.x + (area.width - shorter(width, area.width)) / 2
}

/// Top edge of what is `height` high in the middle of `area`.
pub open spec fn centered_y(area: Rect, height: u16) -> int {
    area.y + (area.height - shorter(height, area.height)) / 2
}

/// The `width` by `height` rectangle in the middle of `area`, cut to it.
pub open spec fn centered_rect(area: Rect, width: u16, height: u16) -> Rect {
    Rect {
        x: centered_x(area, width) as u16,
        y: centered_y(area, height) as u16,
        width: shorter(width, area.width) as u16,
        height: shorter(height, area.height) as u16,
    }
}

/// A `width`×`height` rectangle, centered in `area`.
pub fn centered(area: Rect, width: u16, height: u16) -> (r: Rect)
    requires
        centered_x(area, width) <= u16::MAX,
        centered_y(area, height) <= u16::MAX,
    ensures
        r == centered_rect(area, width, height),
{
    let w: u16 = if width <= area.width {
        width
    } else {
        area.width
    };
    let h: u16 = if height <= area.height {
        height
    } else {
        area.height
    };
    Rect { x: area.x + (area.width - w) / 2, y: area.y + (area.height - h) / 2, width: w, height: h }
}

/// A centered rectangle never leaves the area it is centered in.
pub proof fn law_centered_stays_inside(area: Rect, width: u16, height: u16)
    requires
        area.x + area.width <= u16::MAX,
        area.y + area.height <= u16::MAX,
    ensures
        centered_rect(area, width, height).within(area),
        centered_rect(area, width, height).width <= width,
        centered_rect(area, width, height).height <= height,
{
}

/// Where the window of `rows` entries begins so that the cursor lies in it and no room is wasted
/// at the end.
pub open spec fn window_start(state: ListState, total: int, rows: int) -> int {
    let selected = window_cursor(state, total);
    let offset: int = if state.offset < total {
        state.offset as int
    } else {
        total - 1
    };
    let start = if selected < offset {
        selected
    } else if selected >= offset + rows {
        selected + 1 - rows
    } else {
        offset
    };
    let last = if total > rows {
        total - rows
    } else {
        0
    };
    if start > last {
        last
    } else {
        start
    }
}

/// The cursor, held to the list.
pub open spec fn window_cursor(state: ListState, total: int) -> int {
    match state.selected {
        Some(index) => if index < total {
            index as int
        } else {
            total - 1
        },
        None => 0,
    }
}

/// First entry of the window; a list without entries, or without room, begins at zero.
pub open spec fn window_begin(state: ListState, total: int, rows: int) -> int {
    if total == 0 || rows == 0 {
        0
    } else {
        window_start(state, total, rows)
    }
}

/// First entry past the window.
pub open spec fn window_end(state: ListState, total: int, rows: int) -> int {
    if window_begin(state, total, rows) + rows <= total {
        window_begin(state, total, rows) + rows
    } else {
        total
    }
}

/// The cursor within the window.
pub open spec fn window_mark(state: ListState, total: int, rows: int) -> Option<usize> {
    if total == 0 || rows == 0 {
        None
    } else {
        Some((window_cursor(state, total) - window_start(state, total, rows)) as usize)
    }
}

/// The list's state after its window has been placed.
pub open spec fn window_placed(state: ListState, total: int, rows: int) -> ListState {
    ListState { selected: state.selected, offset: window_begin(state, total, rows) as usize }
}

/// Visible list window: keeps the cursor within a window of `rows` entries, writes the window's
/// start into the state's offset, and returns `(start, cursor within the window)`. The caller
/// builds only the entries of the window.
pub fn visible_window(state: &mut ListState, total: usize, rows: usize) -> (r: (
    usize,
    Option<usize>,
))
    ensures
        *final(state) == window_placed(*old(state), total as int, rows as int),
        r.0 == window_begin(*old(state), total as int, rows as int),
        r.1 == window_mark(*old(state), total as int, rows as int),
        r.0 <= total,
        r.1 matches Some(mark) ==> r.0 + mark < total && mark < rows,
{
    if total == 0 || rows == 0 {
        state.offset = 0;
        return (0, None);
    }
    let selected: usize = match state.selected {
        Some(index) => if index < total {
            index
        } else {
            total - 1
        },
        None => 0,
    };
    let offset: usize = if state.offset < total {
        state.offset
    } else {
        total - 1
    };
    let mut start: usize = offset;
    if selected < offset {
        start = selected;
    } else if selected - offset >= rows {
        start = selected - (rows - 1);
    }
    let last: usize = if total > rows {
        total - rows
    } else {
        0
    };
    if start > last {
        start = last;
    }
    state.offset = start;
    (start, Some(selected - start))
}

/// The window always holds the cursor, never runs past the end of the list while there is
/// something to scroll to, and a second look at the same list does not move it.
pub proof fn law_window_holds_the_cursor(state: ListState, total: int, rows: int)
    requires
        total > 0,
        rows > 0,
        total <= usize::MAX,
    ensures
        0 <= window_start(state, total, rows),
        window_start(state, total, rows) <= window_cursor(state, total) < window_start(
            state,
            total,
            rows,
        ) + rows,
        window_start(state, total, rows) + rows <= total || window_start(state, total, rows) == 0,
        window_start(
            ListState {
                selected: state.selected,
                offset: window_start(state, total, rows) as usize,
            },
            total,
            rows,
        ) == window_start(state, total, rows),
{
}

/// Something to put on the screen.
#[derive(Debug, Clone)]
pub enum Widget {
    /// Wipes an area.
    Clear { area: Rect },
    /// A border and nothing in it.
    Border { area: Rect, border: Frame },
    /// Lines of text, wrapped at the edge where `wrap` is set.
    Text {
        area: Rect,
        lines: Vec<Line>,
        style: Style,
        frame: Option<Frame>,
        wrap: bool,
        centered: bool,
    },
    /// A list with its cursor; `pointer` shows a marker beside the entry under it, and
    /// `highlight` is that entry's look.
    List {
        area: Rect,
        rows: Vec<Row>,
        state: ListState,
        frame: Option<Frame>,
        pointer: bool,
        highlight: Style,
    },
    /// A progress bar: `done` of `total`.
    Gauge { area: Rect, done: u64, total: u64 },
}

/// The content of a widget.
#[verifier::ext_equal]
pub enum WidgetModel {
    Clear { area: Rect },
    Border { area: Rect, border: FrameModel },
    Text {
        area: Rect,
        lines: Seq<LineModel>,
        style: Style,
        frame: Option<FrameModel>,
        wrap: bool,
        centered: bool,
    },
    List {
        area: Rect,
        rows: Seq<RowModel>,
        state: ListState,
        frame: Option<FrameModel>,
        pointer: bool,
        highlight: Style,
    },
    Gauge { area: Rect, done: u64, total: u64 },
}

impl View for Widget {
    type V = WidgetModel;

    open spec fn view(&self) -> WidgetModel {
        match *self {
            Widget::Clear { area } => WidgetModel::Clear { area },
            Widget::Border { area, border } => WidgetModel::Border { area, border: border@ },
            Widget::Text { area, lines, style, frame, wrap, centered } => WidgetModel::Text {
                area,
                lines: lines_model(lines@),
                style,
                frame: frame_model(frame),
                wrap,
                centered,
            },
            Widget::List { area, rows, state, frame, pointer, highlight } => WidgetModel::List {
                area,
                rows: rows_model(rows@),
                state,
                frame: frame_model(frame),
                pointer,
                highlight,
            },
            Widget::Gauge { area, done, total } => WidgetModel::Gauge { area, done, total },
        }
    }
}

/// Text in a border, in the plain look.
pub open spec fn framed_text(area: Rect, lines: Seq<LineModel>, frame: FrameModel) -> WidgetModel {
    WidgetModel::Text {
        area,
        lines,
        style: plain_style(),
        frame: Some(frame),
        wrap: false,
        centered: false,
    }
}

/// Text without a border, in the plain look.
pub open spec fn bare_text(area: Rect, lines: Seq<LineModel>) -> WidgetModel {
    WidgetModel::Text { area, lines, style: plain_style(), frame: None, wrap: false, centered: false }
}

/// A screen being put together: its size and the widgets so far, bottom to top.
#[derive(Debug, Clone)]
pub struct Canvas {
    pub area: Rect,
    pub widgets: Vec<Widget>,
}

/// What has been drawn, in order. The screen it is drawn on is the field `area`, which contracts
/// name beside it.
impl View for Canvas {
    type V = Seq<WidgetModel>;

    open spec fn view(&self) -> Seq<WidgetModel> {
        self.widgets@.map_values(|w: Widget| w@)
    }
}

impl Canvas {
    /// An empty screen.
    pub fn new(area: Rect) -> (r: Canvas)
        ensures
            r.area == area,
            r@ == Seq::<WidgetModel>::empty(),
    {
        let r = Canvas { area, widgets: Vec::new() };
        assert(r@ =~= Seq::<WidgetModel>::empty());
        r
    }

    /// Puts a widget on top.
    pub fn put(&mut self, widget: Widget)
        ensures
            final(self).area == old(self).area,
            final(self)@ == old(self)@.push(widget@),
    {
        self.widgets.push(widget);
        assert(self@ =~= old(self)@.push(widget@));
    }

    /// Wipes an area.
    pub fn clear(&mut self, area: Rect)
        ensures
            final(self).area == old(self).area,
            final(self)@ == old(self)@.push(WidgetModel::Clear { area }),
    {
        self.put(Widget::Clear { area });
    }

    /// Puts lines in a border.
    pub fn text(&mut self, area: Rect, lines: Vec<Line>, frame: Frame)
        ensures
            final(self).area == old(self).area,
            final(self)@ == old(self)@.push(framed_text(area, lines_model(lines@), frame@)),
    {
        self.put(
            Widget::Text {
                area,
                lines,
                style: Style::new(),
                frame: Some(frame),
                wrap: false,
                centered: false,
            },
        );
    }

    /// Puts lines without a border.
    pub fn bare(&mut self, area: Rect, lines: Vec<Line>)
        ensures
            final(self).area == old(self).area,
            final(self)@ == old(self)@.push(bare_text(area, lines_model(lines@))),
    {
        self.put(
            Widget::Text {
                area,
                lines,
                style: Style::new(),
                frame: None,
                wrap: false,
                centered: false,
            },
        );
    }
}


/// Two-line footer: the status and the key hints.
pub open spec fn footer(area: Rect, status: Seq<char>, hints: Seq<char>) -> WidgetModel {
    WidgetModel::Text {
        area,
        lines: seq![
            text_line(status),
            styled_line(
                hints,
                Style { fg: None, bg: None, bold: false, dim: true, reversed: false },
            ),
        ],
        style: plain_style(),
        frame: Some(FrameModel { title: blank_line(), border: plain_style() }),
        wrap: false,
        centered: false,
    }
}

/// Two-line footer: status (if non-empty) and the always-visible key hints.
pub fn render_footer(canvas: &mut Canvas, area: Rect, status: &str, hints: &str)
    ensures
        final(canvas).area == old(canvas).area,
        final(canvas)@ == old(canvas)@.push(footer(area, status@, hints@)),
{
    let mut lines = no_lines();
    push_line(&mut lines, Line::fixed(status));
    push_line(&mut lines, Line::styled(hints.to_string(), Style::new().dim()));
    assert(lines_model(lines@) =~= seq![
        text_line(status@),
        styled_line(
            hints@,
            Style { fg: None, bg: None, bold: false, dim: true, reversed: false },
        ),
    ]);
    canvas.text(area, lines, Frame { title: Line::blank(), border: Style::new() });
}

} // verus!
