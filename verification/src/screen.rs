//! The drawing surface: rectangles of the screen, styled text, and the
//! `ratatui` calls that split an area and paint a buffer of cells.
//!
//! Everything `ratatui` does is reached through the trusted functions at the
//! end of this file. Their contracts are taken from `ratatui`'s source and
//! are not proved. Where a widget's effect is a matter of a few lines, the
//! contract states it over a model of the buffer's cells; where it is the
//! outcome of an algorithm, the contract gives the outcome a name.

use crate::palette::Rgb;
use crate::text::{centered, chars_of, int_text, is_digit, lemma_parse_int_text, right_aligned};
use ratatui::buffer::Buffer;
use ratatui::layout::Constraint as Wanted;
use ratatui::layout::{Alignment, Layout, Rect};
use ratatui::style::{Color, Stylize};
use ratatui::widgets::{Block, Borders, Clear, Padding, Paragraph, Widget};
use vstd::prelude::*;
use vstd::string::StringExecFns;

verus! {

/// A rectangle of the screen: its top left corner, and its size in cells.
#[derive(Clone, Copy, PartialEq, Eq, Structural, Debug)]
pub struct Area {
    pub x: u16,
    pub y: u16,
    pub width: u16,
    pub height: u16,
}

impl Area {
    /// Whether the coordinate just right of the area and the one just below
    /// it can still be written down.
    pub open spec fn fits(self) -> bool {
        self.x + self.width <= u16::MAX && self.y + self.height <= u16::MAX
    }

    /// Whether the area holds no cell.
    pub open spec fn is_empty(self) -> bool {
        self.width == 0 || self.height == 0
    }

    /// Whether the cell at column `x` and row `y` lies in the area.
    pub open spec fn covers(self, x: int, y: int) -> bool {
        self.x <= x < self.x + self.width && self.y <= y < self.y + self.height
    }

    /// Whether `other` lies within the area.
    pub open spec fn contains(self, other: Area) -> bool {
        &&& self.x <= other.x
        &&& other.x + other.width <= self.x + self.width
        &&& self.y <= other.y
        &&& other.y + other.height <= self.y + self.height
    }

    /// The part of the area that lies within `bounds`. An area that lies
    /// outside altogether is cut down to an empty one on the edge of
    /// `bounds`.
    pub open spec fn clipped(self, bounds: Area) -> Area {
        let left = clamp(self.x as int, bounds.x as int, bounds.x + bounds.width);
        let right = clamp(self.x + self.width, left, bounds.x + bounds.width);
        let top = clamp(self.y as int, bounds.y as int, bounds.y + bounds.height);
        let bottom = clamp(self.y + self.height, top, bounds.y + bounds.height);
        Area {
            x: left as u16,
            y: top as u16,
            width: (right - left) as u16,
            height: (bottom - top) as u16,
        }
    }

    /// Row `n` of the area, counted from its top, as an area one cell high;
    /// `None` where the area has no such row.
    pub open spec fn row(self, n: int) -> Option<Area> {
        if 0 <= n < self.height {
            Some(Area { x: self.x, y: (self.y + n) as u16, width: self.width, height: 1 })
        } else {
            None
        }
    }

    /// Cuts the area down to what lies within `bounds`.
    pub fn clip(self, bounds: Area) -> (part: Area)
        requires
            bounds.fits(),
        ensures
            part == self.clipped(bounds),
            bounds.contains(part),
            part.fits(),
            bounds.contains(self) ==> part == self,
    {
        let bounds_right: u16 = bounds.x + bounds.width;
        let bounds_bottom: u16 = bounds.y + bounds.height;
        let left = clamp_u16(self.x, bounds.x, bounds_right);
        let right = clamp_u16(self.x.saturating_add(self.width), left, bounds_right);
        let top = clamp_u16(self.y, bounds.y, bounds_bottom);
        let bottom = clamp_u16(self.y.saturating_add(self.height), top, bounds_bottom);
        Area { x: left, y: top, width: right - left, height: bottom - top }
    }

    /// Row `n` of the area, if it has one.
    pub fn nth_row(self, n: u16) -> (row: Option<Area>)
        requires
            self.fits(),
        ensures
            row == self.row(n as int),
            row matches Some(a) ==> self.contains(a),
    {
        if n < self.height {
            Some(Area { x: self.x, y: self.y + n, width: self.width, height: 1 })
        } else {
            None
        }
    }
}

/// `v`, or the nearer of `low` and `high` where `v` lies outside them.
pub open spec fn clamp(v: int, low: int, high: int) -> int {
    if v < low {
        low
    } else if v > high {
        high
    } else {
        v
    }
}

/// `v`, or the nearer of `low` and `high` where `v` lies outside them.
pub fn clamp_u16(v: u16, low: u16, high: u16) -> (r: u16)
    requires
        low <= high,
    ensures
        r == clamp(v as int, low as int, high as int),
        low <= r <= high,
{
    if v < low {
        low
    } else if v > high {
        high
    } else {
        v
    }
}

/// A piece of text in one colour.
#[derive(Debug)]
pub struct Span {
    pub content: String,
    pub fg: Rgb,
}

/// A piece of text in one colour, as contracts speak of it.
pub struct SpanView {
    pub content: Seq<char>,
    pub fg: Rgb,
}

impl View for Span {
    type V = SpanView;

    open spec fn view(&self) -> SpanView {
        SpanView { content: self.content@, fg: self.fg }
    }
}

/// A line of text: its pieces from left to right, and the background of the
/// whole line where it has one of its own.
#[derive(Debug)]
pub struct Line {
    pub spans: Vec<Span>,
    pub bg: Option<Rgb>,
}

/// A line of text as contracts speak of it.
pub struct LineView {
    pub spans: Seq<SpanView>,
    pub bg: Option<Rgb>,
}

impl View for Line {
    type V = LineView;

    open spec fn view(&self) -> LineView {
        LineView { spans: self.spans@.map_values(|s: Span| s@), bg: self.bg }
    }
}

/// Whether `c` is an ASCII character that shows: a blank, a letter, a digit
/// or a punctuation mark.
pub open spec fn is_printable(c: char) -> bool {
    ' ' <= c <= '~'
}

/// Whether every character of `s` is an ASCII character that shows.
pub open spec fn printable(s: Seq<char>) -> bool {
    forall|i: int| 0 <= i < s.len() ==> is_printable(#[trigger] s[i])
}

/// `c` where it is an ASCII character that shows, a question mark in
/// place of any other.
pub open spec fn shown(c: char) -> char {
    if is_printable(c) {
        c
    } else {
        '?'
    }
}

/// `s` with a question mark in place of every character that is not an
/// ASCII character that shows.
pub open spec fn sanitized(s: Seq<char>) -> Seq<char> {
    Seq::new(s.len(), |i: int| shown(s[i]))
}

/// `s` as it can be drawn: with a question mark in place of every character
/// that is not an ASCII character that shows.
pub fn sanitize(s: &str) -> (out: String)
    ensures
        out@ == sanitized(s@),
        printable(out@),
{
    let chars = chars_of(s);
    let mut out = String::new();
    let mut i: usize = 0;
    while i < chars.len()
        invariant
            i <= chars.len(),
            chars@ == s@,
            out@ == sanitized(s@).take(i as int),
        decreases chars.len() - i,
    {
        let c = chars[i];
        if c >= ' ' && c <= '~' {
            out.push(c);
        } else {
            out.push('?');
        }
        i += 1;
    }
    out
}

/// A number in a column is made of ASCII characters that show.
pub proof fn lemma_number_printable(v: int, width: nat)
    ensures
        printable(right_aligned(int_text(v), width)),
        printable(centered(int_text(v), width)),
{
    lemma_parse_int_text(v);
    let t = int_text(v);
    assert forall|i: int| 0 <= i < t.len() implies is_printable(#[trigger] t[i]) by {
        assert(is_digit(t[i]) || t[i] == '-');
    }
    let r = right_aligned(t, width);
    assert forall|i: int| 0 <= i < r.len() implies is_printable(#[trigger] r[i]) by {
        if t.len() < width && i >= width - t.len() {
            assert(r[i] == t[i - (width - t.len())]);
        }
    }
    let c = centered(t, width);
    assert forall|i: int| 0 <= i < c.len() implies is_printable(#[trigger] c[i]) by {
        let pad = width - t.len();
        if t.len() < width && pad / 2 <= i < pad / 2 + t.len() {
            assert(c[i] == t[i - pad / 2]);
        }
    }
}

/// Whether a piece of text takes up a column at least, and no more columns
/// than sixteen bits can count.
pub open spec fn has_room(piece: Seq<char>) -> bool {
    0 < text_columns(piece) <= u16::MAX
}

/// Whether each of the pieces that `text` is drawn in takes up a column at
/// least.
pub open spec fn takes_room(text: Seq<char>) -> bool {
    forall|k: int| 0 <= k < graphemes(text).len() ==> has_room(#[trigger] graphemes(text)[k])
}

/// Whether `text` can be drawn as part of a line: it is made of ASCII
/// characters that show, or each of its pieces takes up a column at least.
pub open spec fn drawable_text(text: Seq<char>) -> bool {
    printable(text) || takes_room(text)
}

/// Those of the first `n` of `pieces` that take up a column at least, one
/// after the other.
pub open spec fn kept(pieces: Seq<Seq<char>>, n: int) -> Seq<char>
    decreases n,
{
    if n <= 0 {
        Seq::empty()
    } else if has_room(pieces[n - 1]) {
        kept(pieces, n - 1) + pieces[n - 1]
    } else {
        kept(pieces, n - 1)
    }
}

/// `text` without the pieces that take up no column.
pub open spec fn without_gaps(text: Seq<char>) -> Seq<char> {
    kept(graphemes(text), graphemes(text).len() as int)
}

/// `text` as a line shows it. Where each of its pieces takes up a column at
/// least, that is the text as it is. Where some do not, it is the text
/// without those pieces. Should what is left fall into pieces of which one
/// takes up no column again, it is the text with a question mark in place of
/// every character that is not an ASCII character that shows.
pub open spec fn shown_text(text: Seq<char>) -> Seq<char> {
    if takes_room(text) {
        text
    } else if takes_room(without_gaps(text)) {
        without_gaps(text)
    } else {
        sanitized(text)
    }
}

/// Whether each of the pieces that `text` is drawn in takes up a column at
/// least.
pub fn has_no_gaps(text: &str) -> (whole: bool)
    ensures
        whole == takes_room(text@),
{
    let pieces = graphemes_of(text);
    let mut k: usize = 0;
    while k < pieces.len()
        invariant
            k <= pieces.len(),
            pieces@.len() == graphemes(text@).len(),
            forall|j: int| 0 <= j < pieces@.len() ==> (#[trigger] pieces@[j])@ == graphemes(text@)[j],
            forall|j: int| 0 <= j < k ==> has_room(#[trigger] graphemes(text@)[j]),
        decreases pieces.len() - k,
    {
        let width = text_width(pieces[k].as_str());
        if width == 0 || width > u16::MAX as usize {
            assert(!has_room(graphemes(text@)[k as int]));
            return false;
        }
        k += 1;
    }
    true
}

/// `text` as a line shows it.
pub fn show(text: &str) -> (out: String)
    ensures
        out@ == shown_text(text@),
        drawable_text(out@),
{
    if has_no_gaps(text) {
        return text.to_owned();
    }
    let pieces = graphemes_of(text);
    let mut rest = String::new();
    let mut k: usize = 0;
    while k < pieces.len()
        invariant
            k <= pieces.len(),
            pieces@.len() == graphemes(text@).len(),
            forall|j: int| 0 <= j < pieces@.len() ==> (#[trigger] pieces@[j])@ == graphemes(text@)[j],
            rest@ == kept(graphemes(text@), k as int),
        decreases pieces.len() - k,
    {
        let width = text_width(pieces[k].as_str());
        if 0 < width && width <= u16::MAX as usize {
            rest.append(pieces[k].as_str());
        }
        k += 1;
    }
    if has_no_gaps(rest.as_str()) {
        rest
    } else {
        sanitize(text)
    }
}

/// The number of columns that the first `n` pieces of a line take up, one
/// after the other.
pub open spec fn line_columns(line: LineView, n: int) -> nat
    decreases n,
{
    if n <= 0 {
        0
    } else {
        line_columns(line, n - 1) + text_columns(line.spans[n - 1].content) as nat
    }
}

/// The number of columns that a line takes up: those of its pieces, added
/// up. A sum beyond the largest number counts as the largest.
pub open spec fn width_of(line: LineView) -> usize {
    if line_columns(line, line.spans.len() as int) > usize::MAX {
        usize::MAX
    } else {
        line_columns(line, line.spans.len() as int) as usize
    }
}

/// The number of columns that a line takes up.
pub fn line_width(line: &Line) -> (width: usize)
    ensures
        width == width_of(line@),
{
    let mut width: usize = 0;
    let mut i: usize = 0;
    while i < line.spans.len()
        invariant
            i <= line.spans.len(),
            line@.spans.len() == line.spans@.len(),
            width == if line_columns(line@, i as int) > usize::MAX {
                usize::MAX as nat
            } else {
                line_columns(line@, i as int)
            },
        decreases line.spans.len() - i,
    {
        assert(line@.spans[i as int].content == line.spans@[i as int].content@);
        width = width.saturating_add(text_width(line.spans[i].content.as_str()));
        i += 1;
    }
    width
}

impl LineView {
    /// Whether every piece of the line can be drawn.
    pub open spec fn drawable(self) -> bool {
        forall|i: int|
            0 <= i < self.spans.len() ==> drawable_text((#[trigger] self.spans[i]).content)
    }

    /// Whether the line is short enough for its width to be counted in
    /// sixteen bits with room to spare.
    pub open spec fn short(self) -> bool {
        &&& self.spans.len() <= 16
        &&& forall|i: int|
            0 <= i < self.spans.len() ==> (#[trigger] self.spans[i]).content.len() <= 1024
    }
}

/// How one dimension of an area is to be shared out.
#[derive(Clone, Copy, PartialEq, Eq, Structural, Debug)]
pub enum Constraint {
    /// Exactly this many cells.
    Length(u16),
    /// At least this many cells.
    Min(u16),
    /// At most this many cells.
    Max(u16),
    /// This share of the whole, in hundredths.
    Percentage(u16),
    /// What is left over, in proportion to this weight.
    Fill(u16),
}

/// The direction in which an area is split.
#[derive(Clone, Copy, PartialEq, Eq, Structural, Debug)]
pub enum Direction {
    /// Side by side.
    Horizontal,
    /// One above the other.
    Vertical,
}

/// What a cell of the screen shows: its text, and its two colours, each
/// `None` where the terminal's own colour shows.
pub struct Cell {
    pub symbol: Seq<char>,
    pub fg: Option<Rgb>,
    pub bg: Option<Rgb>,
}

/// A cell that nothing was drawn on: a blank in the terminal's colours.
pub open spec fn blank_cell() -> Cell {
    Cell { symbol: seq![' '], fg: None, bg: None }
}

/// The cells of a buffer over `area` that nothing was drawn on.
pub open spec fn blank_cells(area: Area) -> Seq<Cell> {
    Seq::new((area.width * area.height) as nat, |i: int| blank_cell())
}

/// Whether cell `i` of a buffer over `bounds` lies in `area`. The cells of a
/// buffer are numbered row by row from the top, each row from the left.
pub open spec fn covered(bounds: Area, i: int, area: Area) -> bool {
    area.covers(bounds.x + i % (bounds.width as int), bounds.y + i / (bounds.width as int))
}

/// The cells of a buffer over `bounds` after those that lie in `area` got the
/// background `color`.
pub open spec fn filled(cells: Seq<Cell>, bounds: Area, area: Area, color: Rgb) -> Seq<Cell> {
    Seq::new(
        cells.len(),
        |i: int|
            if covered(bounds, i, area) {
                Cell { bg: Some(color), ..cells[i] }
            } else {
                cells[i]
            },
    )
}

/// The cells of a buffer over `bounds` after those that lie in `area` were
/// wiped.
pub open spec fn cleared(cells: Seq<Cell>, bounds: Area, area: Area) -> Seq<Cell> {
    Seq::new(
        cells.len(),
        |i: int|
            if covered(bounds, i, area) {
                blank_cell()
            } else {
                cells[i]
            },
    )
}

/// Whether the cells of a buffer over `bounds` are after a drawing as they
/// were before it, but for those that lie in `area`.
pub open spec fn same_outside(before: Seq<Cell>, after: Seq<Cell>, bounds: Area, area: Area) -> bool {
    forall|i: int|
        0 <= i < before.len() && !#[trigger] covered(bounds, i, area) ==> after[i] == before[i]
}

/// A drawing within an area leaves alone what a drawing within a larger
/// area before it left alone.
pub proof fn lemma_outside_then(
    first: Seq<Cell>,
    then: Seq<Cell>,
    last: Seq<Cell>,
    bounds: Area,
    outer: Area,
    inner: Area,
)
    requires
        first.len() == then.len(),
        same_outside(first, then, bounds, outer),
        same_outside(then, last, bounds, inner),
        outer.contains(inner),
    ensures
        same_outside(first, last, bounds, outer),
{
    assert forall|i: int| 0 <= i < first.len() && !#[trigger] covered(bounds, i, outer) implies last[i]
        == first[i] by {
        assert(!covered(bounds, i, inner));
    }
}

/// Every cell of a buffer lies in the buffer's area.
pub proof fn lemma_cell_in_bounds(bounds: Area, i: int)
    requires
        0 <= i < bounds.width * bounds.height,
    ensures
        covered(bounds, i, bounds),
{
    let w = bounds.width as int;
    let h = bounds.height as int;
    assert(w > 0 && 0 <= i % w < w && 0 <= i / w < h) by (nonlinear_arith)
        requires
            0 <= i < w * h,
            0 <= w,
            0 <= h,
    ;
}

/// Where an area begins along a direction: its first column for parts side
/// by side, its first row for parts one above the other.
pub open spec fn begins(direction: Direction, area: Area) -> int {
    match direction {
        Direction::Horizontal => area.x as int,
        Direction::Vertical => area.y as int,
    }
}

/// Where an area ends along a direction: the column behind its last, or the
/// row below its last.
pub open spec fn ends(direction: Direction, area: Area) -> int {
    match direction {
        Direction::Horizontal => area.x + area.width,
        Direction::Vertical => area.y + area.height,
    }
}

/// Whether `part` is across a direction as `area` is: parts one above the
/// other have the area's columns, parts side by side have its rows.
pub open spec fn across(direction: Direction, part: Area, area: Area) -> bool {
    match direction {
        Direction::Horizontal => part.y == area.y && part.height == area.height,
        Direction::Vertical => part.x == area.x && part.width == area.width,
    }
}

/// What holds of the parts of every split of `area`: across the direction
/// each part is as the area is, along it each part lies within the area, and
/// the parts follow one another without overlap.
pub open spec fn well_split(direction: Direction, area: Area, parts: Seq<Area>) -> bool {
    &&& forall|k: int|
        0 <= k < parts.len() ==> {
            &&& across(direction, #[trigger] parts[k], area)
            &&& begins(direction, area) <= begins(direction, parts[k])
            &&& ends(direction, parts[k]) <= ends(direction, area)
        }
    &&& forall|j: int, k: int|
        0 <= j < k < parts.len() ==> ends(direction, #[trigger] parts[j]) <= begins(
            direction,
            #[trigger] parts[k],
        )
}

/// An area with `padding` columns taken off on the left and on the right.
pub open spec fn padded(area: Area, padding: u16) -> Area {
    Area {
        x: if area.x + padding > u16::MAX {
            u16::MAX
        } else {
            (area.x + padding) as u16
        },
        width: if area.width < 2 * padding {
            0
        } else {
            (area.width - 2 * padding) as u16
        },
        ..area
    }
}

/// `ratatui`'s `Buffer`: the cells of a part of the screen. Contracts speak
/// of it through `buffer_cells` and `buffer_area`.
#[verifier::external_type_specification]
#[verifier::external_body]
pub struct ExBuffer(Buffer);

/// The cells of a buffer, row by row from the top, each row from the left.
pub uninterp spec fn buffer_cells(buf: Buffer) -> Seq<Cell>;

/// The part of the screen that a buffer stands for.
pub uninterp spec fn buffer_area(buf: Buffer) -> Area;

/// The cells after `Paragraph` drew `line` into `area`.
pub uninterp spec fn paragraph_drawn(cells: Seq<Cell>, bounds: Area, area: Area, line: LineView) -> Seq<
    Cell,
>;

/// The cells after `Line` drew itself into `area`.
pub uninterp spec fn line_drawn(cells: Seq<Cell>, bounds: Area, area: Area, line: LineView) -> Seq<
    Cell,
>;

/// The cells after `Block` drew a rule along the top of `area`, with
/// `title` at its right end.
pub uninterp spec fn rule_drawn(
    cells: Seq<Cell>,
    bounds: Area,
    area: Area,
    title: Seq<char>,
    rule_fg: Rgb,
    title_fg: Rgb,
) -> Seq<Cell>;

/// The ways in which the layout may share `area` out under `constraints`:
/// each a list of parts, one part per constraint. Where the constraints
/// leave the sizes open the layout may give one list or another, so a split
/// is known to give one of these and no more is known of which.
pub uninterp spec fn split_outcomes(direction: Direction, constraints: Seq<Constraint>, area: Area) -> Set<
    Seq<Area>,
>;

/// The number of columns that a text takes up on the screen.
pub uninterp spec fn text_columns(text: Seq<char>) -> usize;

/// The pieces that a text is drawn in, from left to right: each a character
/// together with the marks and joiners that belong to it. Line breaks are
/// left out.
pub uninterp spec fn graphemes(text: Seq<char>) -> Seq<Seq<char>>;

/// What the drawing functions ask of a buffer: its area ends before the
/// last column, and at the latest on the last row, that sixteen bits can
/// number, it has at most as many cells as sixteen bits can count, and it
/// holds one cell per position.
pub open spec fn buffer_wf(buf: Buffer) -> bool {
    let area = buffer_area(buf);
    &&& area.x + area.width < u16::MAX
    &&& area.y + area.height <= u16::MAX
    &&& area.width * area.height <= u16::MAX
    &&& buffer_cells(buf).len() == area.width * area.height
}

/// `Layout::split`: the parts of `area` that the constraints give, one part
/// per constraint and in their order. The parts are one of the ways in which
/// the layout may share the area out. Across the direction of the split
/// every part is copied from the area. Along it the layout requires of
/// every solution that each part lies within the area and that the parts
/// follow one another. The sizes come from a constraint solver and are not
/// stated.
#[verifier::external_body]
pub(crate) fn split(direction: Direction, constraints: &Vec<Constraint>, area: Area) -> (parts: Vec<
    Area,
>)
    ensures
        parts@.len() == constraints@.len(),
        split_outcomes(direction, constraints@, area).contains(parts@),
        well_split(direction, area, parts@),
{
    let wanted = constraints.iter().map(|c| match *c {
        Constraint::Length(n) => Wanted::Length(n),
        Constraint::Min(n) => Wanted::Min(n),
        Constraint::Max(n) => Wanted::Max(n),
        Constraint::Percentage(n) => Wanted::Percentage(n),
        Constraint::Fill(n) => Wanted::Fill(n),
    });
    let layout = match direction {
        Direction::Horizontal => Layout::horizontal(wanted),
        Direction::Vertical => Layout::vertical(wanted),
    };
    let rect = Rect { x: area.x, y: area.y, width: area.width, height: area.height };
    layout.split(rect).iter().map(|r| Area { x: r.x, y: r.y, width: r.width, height: r.height }).collect()
}

/// `Buffer::empty`: a buffer over `area` in which every cell is blank.
#[verifier::external_body]
pub(crate) fn blank_buffer(area: Area) -> (buf: Buffer)
    requires
        area.width * area.height <= u16::MAX,
    ensures
        buffer_area(buf) == area,
        buffer_cells(buf) == blank_cells(area),
{
    Buffer::empty(Rect { x: area.x, y: area.y, width: area.width, height: area.height })
}

/// `Block::render` for a block that has a background and nothing else: the
/// cells of `area` that the buffer holds get the background `color`, and
/// keep their text and foreground.
#[verifier::external_body]
pub(crate) fn fill_background(buf: &mut Buffer, area: Area, color: Rgb)
    requires
        buffer_wf(*old(buf)),
        color <= 0xFFFFFF,
    ensures
        buffer_area(*final(buf)) == buffer_area(*old(buf)),
        buffer_cells(*final(buf)) == filled(
            buffer_cells(*old(buf)),
            buffer_area(*old(buf)),
            area,
            color,
        ),
{
    let rect = Rect { x: area.x, y: area.y, width: area.width, height: area.height };
    Block::default().bg(Color::from_u32(color)).render(rect, buf)
}

/// `Clear::render`: every cell of `area` is wiped. The area must lie within
/// the buffer.
#[verifier::external_body]
pub(crate) fn clear(buf: &mut Buffer, area: Area)
    requires
        buffer_wf(*old(buf)),
        buffer_area(*old(buf)).contains(area),
    ensures
        buffer_area(*final(buf)) == buffer_area(*old(buf)),
        buffer_cells(*final(buf)) == cleared(buffer_cells(*old(buf)), buffer_area(*old(buf)), area),
{
    Clear.render(Rect { x: area.x, y: area.y, width: area.width, height: area.height }, buf)
}

/// `Paragraph::render` for a paragraph of one line, without a block, not
/// wrapped and aligned to the left. The area must lie within the buffer.
/// The buffer keeps its area and its number of cells, and every cell
/// outside the area stays as it was.
#[verifier::external_body]
pub(crate) fn draw_paragraph(buf: &mut Buffer, area: Area, line: &Line)
    requires
        buffer_wf(*old(buf)),
        buffer_area(*old(buf)).contains(area),
        line@.short(),
    ensures
        buffer_area(*final(buf)) == buffer_area(*old(buf)),
        buffer_cells(*final(buf)).len() == buffer_cells(*old(buf)).len(),
        buffer_cells(*final(buf)) == paragraph_drawn(
            buffer_cells(*old(buf)),
            buffer_area(*old(buf)),
            area,
            line@,
        ),
        same_outside(
            buffer_cells(*old(buf)),
            buffer_cells(*final(buf)),
            buffer_area(*old(buf)),
            area,
        ),
{
    let spans = line.spans.iter().map(
        |s| ratatui::text::Span::styled(s.content.as_str(), Color::from_u32(s.fg)),
    );
    let style = ratatui::style::Style { bg: line.bg.map(Color::from_u32), ..Default::default() };
    let text = ratatui::text::Line::from(spans.collect::<Vec<_>>()).style(style);
    Paragraph::new(text).render(Rect { x: area.x, y: area.y, width: area.width, height: area.height }, buf)
}

/// `Line::render`, aligned to the left. Every piece of the line must be
/// made of ASCII characters that show, or of pieces that each take up a
/// column at least: a piece whose width counts as none, met where the line
/// is full, is written past the end of the area. The buffer keeps its area
/// and its number of cells, and every cell outside the area stays as it
/// was.
#[verifier::external_body]
pub(crate) fn draw_line(buf: &mut Buffer, area: Area, line: &Line)
    requires
        buffer_wf(*old(buf)),
        line@.drawable(),
    ensures
        buffer_area(*final(buf)) == buffer_area(*old(buf)),
        buffer_cells(*final(buf)).len() == buffer_cells(*old(buf)).len(),
        buffer_cells(*final(buf)) == line_drawn(
            buffer_cells(*old(buf)),
            buffer_area(*old(buf)),
            area,
            line@,
        ),
        same_outside(
            buffer_cells(*old(buf)),
            buffer_cells(*final(buf)),
            buffer_area(*old(buf)),
            area,
        ),
{
    let spans = line.spans.iter().map(
        |s| ratatui::text::Span::styled(s.content.as_str(), Color::from_u32(s.fg)),
    );
    let style = ratatui::style::Style { bg: line.bg.map(Color::from_u32), ..Default::default() };
    let text = ratatui::text::Line::from(spans.collect::<Vec<_>>()).style(style);
    text.render(Rect { x: area.x, y: area.y, width: area.width, height: area.height }, buf)
}

/// `Block::render` for a block with a border along its top and a title at
/// the right end of it. The title is drawn as a line is, and must be made
/// as the pieces of a line must. The buffer keeps its area and its number
/// of cells, and every cell outside the area stays as it was.
#[verifier::external_body]
pub(crate) fn draw_rule(buf: &mut Buffer, area: Area, title: &str, rule_fg: Rgb, title_fg: Rgb)
    requires
        buffer_wf(*old(buf)),
        drawable_text(title@),
    ensures
        buffer_area(*final(buf)) == buffer_area(*old(buf)),
        buffer_cells(*final(buf)).len() == buffer_cells(*old(buf)).len(),
        buffer_cells(*final(buf)) == rule_drawn(
            buffer_cells(*old(buf)),
            buffer_area(*old(buf)),
            area,
            title@,
            rule_fg,
            title_fg,
        ),
        same_outside(
            buffer_cells(*old(buf)),
            buffer_cells(*final(buf)),
            buffer_area(*old(buf)),
            area,
        ),
{
    let block = Block::default().title(title).title_alignment(Alignment::Right).border_style(
        Color::from_u32(rule_fg),
    ).borders(Borders::TOP).title_style(Color::from_u32(title_fg));
    block.render(Rect { x: area.x, y: area.y, width: area.width, height: area.height }, buf)
}

/// `Block::inner` for a block without borders or titles and with `padding`
/// columns of padding on the left and on the right: the area loses that many
/// columns on either side, as far as it has them.
#[verifier::external_body]
pub(crate) fn padded_inner(area: Area, padding: u16) -> (inner: Area)
    requires
        2 * padding <= u16::MAX,
    ensures
        inner == padded(area, padding),
{
    let rect = Rect { x: area.x, y: area.y, width: area.width, height: area.height };
    let r = Block::default().padding(Padding::horizontal(padding)).inner(rect);
    Area { x: r.x, y: r.y, width: r.width, height: r.height }
}

/// `Span::styled_graphemes`: the pieces that a text is drawn in.
#[verifier::external_body]
pub(crate) fn graphemes_of(text: &str) -> (pieces: Vec<String>)
    ensures
        pieces@.len() == graphemes(text@).len(),
        forall|k: int| 0 <= k < pieces@.len() ==> (#[trigger] pieces@[k])@ == graphemes(text@)[k],
{
    let span = ratatui::text::Span::raw(text);
    span.styled_graphemes(ratatui::style::Style::default()).map(|g| g.symbol.to_string()).collect()
}

/// `Span::width`: the number of columns that the text takes up.
#[verifier::external_body]
pub(crate) fn text_width(text: &str) -> (width: usize)
    ensures
        width == text_columns(text@),
{
    ratatui::text::Span::raw(text).width()
}

} // verus!
