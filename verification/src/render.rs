//! The screen of a session: how the viewport is shared out, and what is
//! drawn into each part.
//!
//! The header band holds the title, the text being entered and a hint. Below
//! it, under a rule that carries the file's name, the tasks are listed, one
//! to a row, either in one list or with the completed ones apart in the lower
//! half. Tasks that find no row left are not drawn. The key binding overlay,
//! where it is shown, is drawn last and over the list.
//!
//! A line of the list is drawn piece by piece, and a piece that takes up no
//! column, such as a zero-width space or a mark with no letter before it,
//! would be written outside the line once the line is full. Such pieces are
//! therefore left out of the text that is shown; all other text is shown as
//! it is.

use crate::app::{step, App, AppView, KeyCode, Mode};
use crate::keybinds::{kb_views, kc_text, keybind_table, keybinds, km_text, Kb, KbView, KEYBIND_COUNT};
use crate::palette::{
    priority_color, priority_tier, BACKGROUND, BASE_1, BASE_2, LIGHT_BLUE, PURPLE, WHITE, YELLOW,
};
use crate::screen::{
    blank_buffer, blank_cell, blank_cells, buffer_area, buffer_cells, buffer_wf, clear, cleared,
    covered, lemma_cell_in_bounds, lemma_outside_then, same_outside,
    draw_line, draw_paragraph, draw_rule, fill_background, filled, lemma_number_printable,
    line_drawn, line_width, padded, padded_inner, paragraph_drawn, rule_drawn, show, shown_text,
    split, split_outcomes, well_split, width_of, Area, Cell, Constraint, Direction, Line, LineView,
    Span, SpanView,
};
use crate::task::TaskView;
use crate::text::{
    align_center, align_right, centered, int_text, push_int, push_nat, right_aligned,
};
use ratatui::buffer::Buffer;
use vstd::prelude::*;
use vstd::string::StringExecFns;

verus! {

/// The width of the key binding overlay.
pub const OVERLAY_WIDTH: u16 = 47;

/// The width from which on the text being entered gets a margin.
pub const INPUT_WIDTH: u16 = 80;

/// The parts of the viewport.
#[derive(Clone, Copy, PartialEq, Eq, Structural, Debug)]
pub struct Regions {
    /// The header band, across the top.
    pub header: Area,
    /// The title, at the left end of the header band.
    pub title: Area,
    /// The middle of the header band, where entered text shows.
    pub input: Area,
    /// The hint, at the right end of the header band.
    pub hint: Area,
    /// Everything below the header band.
    pub body: Area,
    /// The task list: the body below its rule.
    pub list: Area,
    /// The upper half of the task list.
    pub pending: Area,
    /// The lower half of the task list.
    pub completed: Area,
    /// The key binding overlay.
    pub overlay: Area,
}

impl Regions {
    /// Whether every part lies within `viewport`.
    pub open spec fn within(self, viewport: Area) -> bool {
        &&& viewport.contains(self.header)
        &&& viewport.contains(self.title)
        &&& viewport.contains(self.input)
        &&& viewport.contains(self.hint)
        &&& viewport.contains(self.body)
        &&& viewport.contains(self.list)
        &&& viewport.contains(self.pending)
        &&& viewport.contains(self.completed)
        &&& viewport.contains(self.overlay)
    }

    /// What holds of every sharing out of `viewport`, whatever sizes the
    /// layout gives. The header band and the body run across the whole
    /// viewport, the header band above the body. Title, entered text and
    /// hint lie in the header band and have its rows, and stand side by side
    /// in that order. The list lies in the body and runs across it; its two
    /// halves lie in the list and run across it, the pending half above the
    /// completed one. The overlay lies in the body.
    pub open spec fn laid_out(self, viewport: Area) -> bool {
        &&& self.within(viewport)
        &&& spans_columns(self.header, viewport)
        &&& spans_columns(self.body, viewport)
        &&& self.header.contains(self.title) && spans_rows(self.title, self.header)
        &&& self.header.contains(self.input) && spans_rows(self.input, self.header)
        &&& self.header.contains(self.hint) && spans_rows(self.hint, self.header)
        &&& self.body.contains(self.list) && spans_columns(self.list, self.body)
        &&& self.list.contains(self.pending) && spans_columns(self.pending, self.list)
        &&& self.list.contains(self.completed) && spans_columns(self.completed, self.list)
        &&& self.body.contains(self.overlay)
        &&& self.header.y + self.header.height <= self.body.y
        &&& self.title.x + self.title.width <= self.input.x
        &&& self.input.x + self.input.width <= self.hint.x
        &&& self.pending.y + self.pending.height <= self.completed.y
    }

    /// Whether the regions are made of parts that the layout may give for
    /// the six splits of `viewport`, each under the constraints that are
    /// fixed for it.
    pub open spec fn shared(self, viewport: Area) -> bool {
        exists|
            outer: Seq<Area>,
            header: Seq<Area>,
            strips: Seq<Area>,
            overlay: Seq<Area>,
            list: Seq<Area>,
            halves: Seq<Area>,
        |
            #[trigger] shared_out(viewport, outer, header, strips, overlay, list, halves) && self
                == arranged(viewport, outer, header, overlay, list, halves)
    }
}

impl Regions {
    /// Whether `area` lies in one of the parts below the header band: the
    /// body, the list, one of its halves, or the overlay.
    pub open spec fn holds(self, area: Area) -> bool {
        ||| self.body.contains(area)
        ||| self.list.contains(area)
        ||| self.pending.contains(area)
        ||| self.completed.contains(area)
        ||| self.overlay.contains(area)
    }

    /// Whether cell `i` of a buffer over `viewport` lies in one of the parts
    /// below the header band.
    pub open spec fn below_header(self, viewport: Area, i: int) -> bool {
        ||| covered(viewport, i, self.body)
        ||| covered(viewport, i, self.list)
        ||| covered(viewport, i, self.pending)
        ||| covered(viewport, i, self.completed)
        ||| covered(viewport, i, self.overlay)
    }

    /// Whether cell `i` of a buffer over `viewport` lies where the header
    /// band holds text: in the title, in the hint, or, while text is
    /// entered, where the entered text shows.
    pub open spec fn header_text(self, viewport: Area, i: int, entering: bool) -> bool {
        ||| covered(viewport, i, self.title)
        ||| covered(viewport, i, self.hint)
        ||| entering && covered(viewport, i, input_area(self.input))
    }
}

/// Whether the cells are after a drawing as they were before it, but for
/// those that lie in one of the parts below the header band.
pub open spec fn same_above(before: Seq<Cell>, after: Seq<Cell>, viewport: Area, r: Regions) -> bool {
    forall|i: int|
        0 <= i < before.len() && !#[trigger] r.below_header(viewport, i) ==> after[i] == before[i]
}

/// A cell of the background that nothing else was drawn on.
pub open spec fn ground_cell() -> Cell {
    Cell { bg: Some(BACKGROUND), ..blank_cell() }
}

/// How the parts of the screen keep apart. The screen has one cell for each
/// position of the viewport. What is drawn below the header band leaves
/// every cell outside the parts below it as the header band was drawn. The
/// overlay leaves every cell outside its area as the list was drawn. A cell
/// that lies neither below the header band nor where the header band holds
/// text shows the background and nothing else.
pub open spec fn kept_apart(s: AppView, viewport: Area, r: Regions, cells: Seq<Cell>) -> bool {
    &&& cells.len() == viewport.width * viewport.height
    &&& same_above(header_drawn(s, viewport, r), cells, viewport, r)
    &&& same_outside(listed(s, viewport, r), cells, viewport, r.overlay)
    &&& forall|i: int|
        0 <= i < cells.len() && !r.below_header(viewport, i) && !r.header_text(
            viewport,
            i,
            s.mode is Entering,
        ) ==> #[trigger] cells[i] == ground_cell()
}

/// In a viewport that is laid out as every one is, the parts below the
/// header band all lie in the body: a cell lies in one of them where it lies
/// in the body.
pub proof fn lemma_below_header_is_body(viewport: Area, r: Regions, i: int)
    requires
        r.laid_out(viewport),
    ensures
        r.below_header(viewport, i) == covered(viewport, i, r.body),
{
}

/// A drawing within a part below the header band leaves alone what the
/// drawings below the header band before it left alone.
pub proof fn lemma_above_then(
    first: Seq<Cell>,
    then: Seq<Cell>,
    last: Seq<Cell>,
    viewport: Area,
    r: Regions,
    area: Area,
)
    requires
        first.len() == then.len(),
        same_above(first, then, viewport, r),
        same_outside(then, last, viewport, area),
        r.holds(area),
    ensures
        same_above(first, last, viewport, r),
{
    assert forall|i: int| 0 <= i < first.len() && !#[trigger] r.below_header(viewport, i) implies last[i]
        == first[i] by {
        assert(!covered(viewport, i, area));
    }
}

/// Whether `parts` is one of the ways in which the layout may share `area`
/// out under `constraints`, with what holds of every such way.
pub open spec fn split_of(
    direction: Direction,
    constraints: Seq<Constraint>,
    area: Area,
    parts: Seq<Area>,
) -> bool {
    &&& split_outcomes(direction, constraints, area).contains(parts)
    &&& parts.len() == constraints.len()
    &&& well_split(direction, area, parts)
}

/// Whether the six lists of parts are ways in which the layout may share
/// the viewport out, one split after the other: the viewport into header
/// band and body; the header band into title, entered text and hint; the
/// body into the overlay's strip and what lies left and right of it; that
/// strip into the overlay and what lies above and below it; the body into
/// rule and list; the list into its halves.
pub open spec fn shared_out(
    viewport: Area,
    outer: Seq<Area>,
    header: Seq<Area>,
    strips: Seq<Area>,
    overlay: Seq<Area>,
    list: Seq<Area>,
    halves: Seq<Area>,
) -> bool {
    &&& split_of(Direction::Vertical, outer_rule(), viewport, outer)
    &&& split_of(
        Direction::Horizontal,
        header_rule(column_count(width_of(title_line())), column_count(width_of(hint_line()))),
        outer[0],
        header,
    )
    &&& split_of(Direction::Horizontal, overlay_column_rule(), outer[1], strips)
    &&& split_of(Direction::Vertical, overlay_row_rule(KEYBIND_COUNT as u16), strips[1], overlay)
    &&& split_of(Direction::Vertical, list_rule(), outer[1], list)
    &&& split_of(Direction::Vertical, halves_rule(), list[1], halves)
}

/// A width in columns as sixteen bits hold it: larger ones count as the
/// largest.
pub open spec fn column_count(width: usize) -> u16 {
    if width > u16::MAX {
        u16::MAX
    } else {
        width as u16
    }
}

/// Header and body: one row for the header, the rest, which should be ten
/// rows at least, for the body.
pub open spec fn outer_rule() -> Seq<Constraint> {
    seq![Constraint::Length(1), Constraint::Min(10)]
}

/// The header band: the title and the hint as wide as they are, the text
/// being entered in what is left between them.
pub open spec fn header_rule(title: u16, hint: u16) -> Seq<Constraint> {
    seq![Constraint::Length(title), Constraint::Fill(1), Constraint::Length(hint)]
}

/// The overlay's columns: 47 of them, with at least one column of the body
/// on either side.
pub open spec fn overlay_column_rule() -> Seq<Constraint> {
    seq![Constraint::Min(1), Constraint::Length(OVERLAY_WIDTH), Constraint::Min(1)]
}

/// The overlay's rows: at most one per binding, with at least two rows of
/// the body above and one below.
pub open spec fn overlay_row_rule(bindings: u16) -> Seq<Constraint> {
    seq![Constraint::Min(2), Constraint::Max(bindings), Constraint::Min(1)]
}

/// The body: one row for the rule, the rest for the list.
pub open spec fn list_rule() -> Seq<Constraint> {
    seq![Constraint::Length(1), Constraint::Min(1)]
}

/// The two halves of the list, of equal height.
pub open spec fn halves_rule() -> Seq<Constraint> {
    seq![Constraint::Percentage(50), Constraint::Percentage(50)]
}

/// Whether `part` has the columns of `whole`: it begins where `whole` begins
/// and is as wide.
pub open spec fn spans_columns(part: Area, whole: Area) -> bool {
    part.x == whole.x && part.width == whole.width
}

/// Whether `part` has the rows of `whole`: it begins where `whole` begins
/// and is as high.
pub open spec fn spans_rows(part: Area, whole: Area) -> bool {
    part.y == whole.y && part.height == whole.height
}

/// What a viewport must be like to be drawn: it ends before the last
/// column, and at the latest on the last row, that sixteen bits can number,
/// and it holds at most as many cells as sixteen bits can count.
pub open spec fn drawable(viewport: Area) -> bool {
    &&& viewport.x + viewport.width < u16::MAX
    &&& viewport.y + viewport.height <= u16::MAX
    &&& viewport.width * viewport.height <= u16::MAX
}

/// The constraints that share the viewport out into header and body.
pub fn outer_constraints() -> (c: Vec<Constraint>)
    ensures
        c@ == outer_rule(),
{
    vec![Constraint::Length(1), Constraint::Min(10)]
}

/// The constraints that share the header band out, for a title and a hint
/// of the given widths.
pub fn header_constraints(title: u16, hint: u16) -> (c: Vec<Constraint>)
    ensures
        c@ == header_rule(title, hint),
{
    vec![Constraint::Length(title), Constraint::Fill(1), Constraint::Length(hint)]
}

/// The constraints that give the overlay its columns.
pub fn overlay_column_constraints() -> (c: Vec<Constraint>)
    ensures
        c@ == overlay_column_rule(),
{
    vec![Constraint::Min(1), Constraint::Length(OVERLAY_WIDTH), Constraint::Min(1)]
}

/// The constraints that give the overlay its rows, for the given number of
/// bindings.
pub fn overlay_row_constraints(bindings: u16) -> (c: Vec<Constraint>)
    ensures
        c@ == overlay_row_rule(bindings),
{
    vec![Constraint::Min(2), Constraint::Max(bindings), Constraint::Min(1)]
}

/// The constraints that share the body out into rule and list.
pub fn list_constraints() -> (c: Vec<Constraint>)
    ensures
        c@ == list_rule(),
{
    vec![Constraint::Length(1), Constraint::Min(1)]
}

/// The constraints that share the list out into its halves.
pub fn halves_constraints() -> (c: Vec<Constraint>)
    ensures
        c@ == halves_rule(),
{
    vec![Constraint::Percentage(50), Constraint::Percentage(50)]
}

/// The title, as it is drawn.
pub open spec fn title_line() -> LineView {
    LineView { spans: seq![SpanView { content: " Todo-rs "@, fg: WHITE }], bg: None }
}

/// The hint that names the key of the overlay, as it is drawn.
pub open spec fn hint_line() -> LineView {
    LineView {
        spans: seq![
            SpanView { content: " <K>"@, fg: LIGHT_BLUE },
            SpanView { content: " for Keybindings "@, fg: WHITE },
        ],
        bg: None,
    }
}

/// The text being entered, as it is drawn.
pub open spec fn input_line(text: Seq<char>) -> LineView {
    LineView { spans: seq![SpanView { content: text, fg: WHITE }], bg: None }
}

/// The title on the rule above the list: the file's name between two
/// blanks.
pub open spec fn file_title(name: Seq<char>) -> Seq<char> {
    shown_text(seq![' '] + name + seq![' '])
}

/// Where the text being entered is drawn: the middle of the header band,
/// with equal margins left and right once it is wider than 80 columns.
pub open spec fn input_area(input: Area) -> Area {
    padded(input, input_padding(input.width))
}

/// The margin on either side of the text being entered, in a band of the
/// given width.
pub open spec fn input_padding(width: u16) -> u16 {
    if width <= INPUT_WIDTH {
        0
    } else {
        ((width - INPUT_WIDTH) / 2) as u16
    }
}

/// How many of the first `n` tasks have the completion flag `completed`.
pub open spec fn count_where(tasks: Seq<TaskView>, completed: bool, n: int) -> nat
    decreases n,
{
    if n <= 0 {
        0
    } else {
        count_where(tasks, completed, n - 1) + if tasks[n - 1].completed == completed {
            1nat
        } else {
            0nat
        }
    }
}

/// The row that task `i` is drawn on, if there is one for it. In one list
/// the tasks take the rows of the list in order. With the completed tasks
/// apart, the pending ones take the rows of the upper half and the completed
/// ones those of the lower half, each group in the order of the list.
pub open spec fn task_row(s: AppView, r: Regions, i: int) -> Option<Area> {
    if !s.split_tasks {
        r.list.row(i)
    } else if s.tasks[i].completed {
        r.completed.row(count_where(s.tasks, true, i) as int)
    } else {
        r.pending.row(count_where(s.tasks, false, i) as int)
    }
}

/// Task `i` as it is drawn: its index at the right of four columns, its
/// priority in the middle of eight and in the colour of its tier, then its
/// description, muted where the task is completed. The selected task
/// stands on a background of its own.
pub open spec fn task_line(s: AppView, i: int) -> LineView {
    let t = s.tasks[i];
    LineView {
        spans: seq![
            SpanView { content: right_aligned(int_text(i), 4), fg: WHITE },
            SpanView {
                content: centered(int_text(t.priority as int), 8),
                fg: priority_tier(t.priority),
            },
            SpanView {
                content: shown_text(t.description),
                fg: if t.completed {
                    BASE_2
                } else {
                    YELLOW
                },
            },
        ],
        bg: if s.selected == Some(i as nat) {
            Some(BASE_1)
        } else {
            None
        },
    }
}

/// The cells after the first `n` tasks were drawn, in the order of the
/// list.
pub open spec fn tasks_drawn(cells: Seq<Cell>, viewport: Area, s: AppView, r: Regions, n: int) -> Seq<
    Cell,
>
    decreases n,
{
    if n <= 0 {
        cells
    } else {
        let before = tasks_drawn(cells, viewport, s, r, n - 1);
        match task_row(s, r, n - 1) {
            Some(row) => line_drawn(before, viewport, row, task_line(s, n - 1)),
            None => before,
        }
    }
}

/// A key binding as the overlay lists it: the key in the middle of five
/// columns, the modifier in the middle of eight, then what the key does.
pub open spec fn binding_line(kb: KbView) -> LineView {
    LineView {
        spans: seq![
            SpanView { content: shown_text(centered(kc_text(kb.key), 5)), fg: LIGHT_BLUE },
            SpanView { content: seq!['|'], fg: WHITE },
            SpanView { content: shown_text(centered(km_text(kb.modifier), 8)), fg: LIGHT_BLUE },
            SpanView { content: seq!['|'], fg: WHITE },
            SpanView { content: shown_text(seq![' '] + kb.description), fg: YELLOW },
        ],
        bg: None,
    }
}

/// The cells after the first `n` bindings of `table` were drawn, each on the
/// row of `overlay` that has its number.
pub open spec fn bindings_drawn(
    cells: Seq<Cell>,
    viewport: Area,
    overlay: Area,
    table: Seq<KbView>,
    n: int,
) -> Seq<Cell>
    decreases n,
{
    if n <= 0 {
        cells
    } else {
        let before = bindings_drawn(cells, viewport, overlay, table, n - 1);
        match overlay.row(n - 1) {
            Some(row) => line_drawn(before, viewport, row, binding_line(table[n - 1])),
            None => before,
        }
    }
}

/// The header band on a blank screen: the background, the title, the text
/// being entered where text is entered, and the hint.
pub open spec fn header_drawn(s: AppView, viewport: Area, r: Regions) -> Seq<Cell> {
    let ground = filled(blank_cells(viewport), viewport, viewport, BACKGROUND);
    let titled = paragraph_drawn(ground, viewport, r.title, title_line());
    let entered = if s.mode is Entering {
        paragraph_drawn(
            filled(titled, viewport, input_area(r.input), BASE_1),
            viewport,
            input_area(r.input),
            input_line(s.text),
        )
    } else {
        titled
    };
    paragraph_drawn(entered, viewport, r.hint, hint_line())
}

/// The screen before the overlay is drawn: the header band, the rule with
/// the file's name, and the tasks.
pub open spec fn listed(s: AppView, viewport: Area, r: Regions) -> Seq<Cell> {
    let ruled = rule_drawn(
        header_drawn(s, viewport, r),
        viewport,
        r.body,
        file_title(s.current_file),
        BASE_1,
        PURPLE,
    );
    tasks_drawn(ruled, viewport, s, r, s.tasks.len() as int)
}

/// The screen of the session `s` in `viewport`, shared out as `r` says:
/// the header band, the rule with the file's name, the tasks, and over them
/// the key binding overlay where it is shown.
pub open spec fn frame(s: AppView, viewport: Area, r: Regions) -> Seq<Cell> {
    if s.show_keybinds {
        bindings_drawn(
            filled(
                cleared(listed(s, viewport, r), viewport, r.overlay),
                viewport,
                r.overlay,
                BASE_1,
            ),
            viewport,
            r.overlay,
            keybind_table(),
            keybind_table().len() as int,
        )
    } else {
        listed(s, viewport, r)
    }
}

/// A width in columns as sixteen bits hold it.
fn columns(width: usize) -> (c: u16)
    ensures
        c == column_count(width),
{
    if width > u16::MAX as usize {
        u16::MAX
    } else {
        width as u16
    }
}

/// Row `n` of `area`, if it has one.
fn row_at(area: Area, n: usize) -> (row: Option<Area>)
    requires
        area.fits(),
    ensures
        row == area.row(n as int),
        row matches Some(a) ==> area.contains(a),
{
    if n < area.height as usize {
        area.nth_row(n as u16)
    } else {
        None
    }
}

/// The title.
fn make_title() -> (line: Line)
    ensures
        line@ == title_line(),
        line@.short(),
{
    let mut spans: Vec<Span> = Vec::new();
    spans.push(Span { content: " Todo-rs ".to_owned(), fg: WHITE });
    let line = Line { spans, bg: None };
    proof {
        reveal_strlit(" Todo-rs ");
        assert(line@.spans =~= title_line().spans);
    }
    line
}

/// The hint.
fn make_hint() -> (line: Line)
    ensures
        line@ == hint_line(),
        line@.short(),
{
    let mut spans: Vec<Span> = Vec::new();
    spans.push(Span { content: " <K>".to_owned(), fg: LIGHT_BLUE });
    spans.push(Span { content: " for Keybindings ".to_owned(), fg: WHITE });
    let line = Line { spans, bg: None };
    proof {
        reveal_strlit(" <K>");
        reveal_strlit(" for Keybindings ");
        assert(line@.spans =~= hint_line().spans);
    }
    line
}

/// The line that lists `kb` in the overlay.
pub fn make_binding_line(kb: &Kb) -> (line: Line)
    ensures
        line@ == binding_line(kb@),
        line@.drawable(),
{
    let key = align_center(kb.key.to_string().as_str(), 5);
    let modifier = align_center(kb.modifier.to_string().as_str(), 8);
    let mut what = String::new();
    what.push(' ');
    what.append(kb.description.as_str());
    let mut bar = String::new();
    bar.push('|');
    let mut spans: Vec<Span> = Vec::new();
    spans.push(Span { content: show(key.as_str()), fg: LIGHT_BLUE });
    spans.push(Span { content: bar.clone(), fg: WHITE });
    spans.push(Span { content: show(modifier.as_str()), fg: LIGHT_BLUE });
    spans.push(Span { content: bar, fg: WHITE });
    spans.push(Span { content: show(what.as_str()), fg: YELLOW });
    let line = Line { spans, bg: None };
    proof {
        assert(line@.spans =~= binding_line(kb@).spans);
    }
    line
}

/// The regions that the parts of five splits make: of the viewport into
/// header band and body (`outer`), of the header band into title, entered
/// text and hint (`header`), of the overlay's strip of the body into what
/// lies above the overlay, the overlay and what lies below it (`overlay`),
/// of the body into rule and list (`list`), and of the list into its halves
/// (`halves`). Each part is cut down to the part that was split.
pub open spec fn arranged(
    viewport: Area,
    outer: Seq<Area>,
    header: Seq<Area>,
    overlay: Seq<Area>,
    list: Seq<Area>,
    halves: Seq<Area>,
) -> Regions {
    let band = outer[0].clipped(viewport);
    let body = outer[1].clipped(viewport);
    let rows = list[1].clipped(body);
    Regions {
        header: band,
        title: header[0].clipped(band),
        input: header[1].clipped(band),
        hint: header[2].clipped(band),
        body,
        list: rows,
        pending: halves[0].clipped(rows),
        completed: halves[1].clipped(rows),
        overlay: overlay[1].clipped(body),
    }
}

/// Whatever way the layout shares the viewport out, cutting the parts down
/// changes none of them: the regions are the parts themselves.
pub proof fn lemma_arranged_keeps_parts(
    viewport: Area,
    outer: Seq<Area>,
    header: Seq<Area>,
    strips: Seq<Area>,
    overlay: Seq<Area>,
    list: Seq<Area>,
    halves: Seq<Area>,
)
    requires
        viewport.fits(),
        shared_out(viewport, outer, header, strips, overlay, list, halves),
    ensures
        arranged(viewport, outer, header, overlay, list, halves) == (Regions {
            header: outer[0],
            title: header[0],
            input: header[1],
            hint: header[2],
            body: outer[1],
            list: list[1],
            pending: halves[0],
            completed: halves[1],
            overlay: overlay[1],
        }),
{
    assert(viewport.contains(outer[0]) && viewport.contains(outer[1]));
    assert(outer[0].contains(header[0]) && outer[0].contains(header[1]) && outer[0].contains(
        header[2],
    ));
    assert(outer[1].contains(strips[1]) && strips[1].contains(overlay[1]));
    assert(outer[1].contains(list[1]));
    assert(list[1].contains(halves[0]) && list[1].contains(halves[1]));
}

/// Makes the regions of the parts that the splits gave.
pub fn arrange(
    viewport: Area,
    outer: &Vec<Area>,
    header: &Vec<Area>,
    overlay: &Vec<Area>,
    list: &Vec<Area>,
    halves: &Vec<Area>,
) -> (regions: Regions)
    requires
        viewport.fits(),
        outer@.len() == 2,
        header@.len() == 3,
        overlay@.len() == 3,
        list@.len() == 2,
        halves@.len() == 2,
    ensures
        regions == arranged(viewport, outer@, header@, overlay@, list@, halves@),
        regions.within(viewport),
{
    let band = outer[0].clip(viewport);
    let body = outer[1].clip(viewport);
    let rows = list[1].clip(body);
    Regions {
        header: band,
        title: header[0].clip(band),
        input: header[1].clip(band),
        hint: header[2].clip(band),
        body,
        list: rows,
        pending: halves[0].clip(rows),
        completed: halves[1].clip(rows),
        overlay: overlay[1].clip(body),
    }
}

/// Shares `viewport` out. Where a part begins along the direction of a
/// split, and how far it goes, comes from `ratatui`'s layout. Whatever it
/// gives is cut down to the part that was split, which leaves parts that lie
/// within it as they are.
pub fn layout(viewport: Area) -> (regions: Regions)
    requires
        viewport.fits(),
    ensures
        regions.laid_out(viewport),
        regions.shared(viewport),
{
    let outer = split(Direction::Vertical, &outer_constraints(), viewport);
    let title_width = columns(line_width(&make_title()));
    let hint_width = columns(line_width(&make_hint()));
    let header = split(
        Direction::Horizontal,
        &header_constraints(title_width, hint_width),
        outer[0],
    );
    let strips = split(Direction::Horizontal, &overlay_column_constraints(), outer[1]);
    let overlay = split(
        Direction::Vertical,
        &overlay_row_constraints(KEYBIND_COUNT as u16),
        strips[1],
    );
    let list = split(Direction::Vertical, &list_constraints(), outer[1]);
    let halves = split(Direction::Vertical, &halves_constraints(), list[1]);
    assert(shared_out(viewport, outer@, header@, strips@, overlay@, list@, halves@));
    arrange(viewport, &outer, &header, &overlay, &list, &halves)
}

impl App {
    /// The line that task `index` is drawn as.
    pub fn make_task_line(&self, index: usize) -> (line: Line)
        requires
            index < self@.tasks.len(),
        ensures
            line@ == task_line(self@, index as int),
            line@.drawable(),
    {
        let task = &self.data[index];
        let mut number = String::new();
        push_nat(&mut number, index as u64);
        let mut priority = String::new();
        push_int(&mut priority, task.priority as i64);
        let mut spans: Vec<Span> = Vec::new();
        spans.push(Span { content: align_right(number.as_str(), 4), fg: WHITE });
        spans.push(
            Span { content: align_center(priority.as_str(), 8), fg: priority_color(task.priority) },
        );
        spans.push(
            Span {
                content: show(task.description.as_str()),
                fg: if task.completed {
                    BASE_2
                } else {
                    YELLOW
                },
            },
        );
        let selected = match self.selected {
            Some(n) => n == index,
            None => false,
        };
        let line = Line {
            spans,
            bg: if selected {
                Some(BASE_1)
            } else {
                None
            },
        };
        proof {
            lemma_number_printable(index as int, 4);
            lemma_number_printable(task.priority as int, 8);
            assert(line@.spans =~= task_line(self@, index as int).spans);
        }
        line
    }

    /// Draws the session into a blank buffer over `viewport`, shared out as
    /// `regions` says. The parts of the screen keep apart: what is drawn
    /// below the header band and what the overlay draws changes no cell
    /// outside its part.
    pub fn draw(&self, viewport: Area, regions: &Regions) -> (buf: Buffer)
        requires
            self@.wf(),
            drawable(viewport),
            regions.within(viewport),
        ensures
            buffer_area(buf) == viewport,
            buffer_cells(buf) == frame(self@, viewport, *regions),
            kept_apart(self@, viewport, *regions, buffer_cells(buf)),
    {
        let mut buf = blank_buffer(viewport);
        fill_background(&mut buf, viewport, BACKGROUND);
        let ghost ground = buffer_cells(buf);
        proof {
            assert forall|i: int| 0 <= i < ground.len() implies #[trigger] ground[i]
                == ground_cell() by {
                lemma_cell_in_bounds(viewport, i);
            }
        }
        draw_paragraph(&mut buf, regions.title, &make_title());
        let ghost titled = buffer_cells(buf);
        match self.mode {
            Mode::Entering(_) => {
                let band = padded_inner(regions.input, 0);
                let padding: u16 = if band.width <= INPUT_WIDTH {
                    0
                } else {
                    (band.width - INPUT_WIDTH) / 2
                };
                let area = padded_inner(regions.input, padding).clip(viewport);
                let mut spans: Vec<Span> = Vec::new();
                spans.push(Span { content: self.text_buf.clone(), fg: WHITE });
                let line = Line { spans, bg: None };
                assert(line@.spans =~= input_line(self@.text).spans);
                fill_background(&mut buf, area, BASE_1);
                draw_paragraph(&mut buf, area, &line);
            },
            Mode::Normal => {},
        }
        let ghost entered = buffer_cells(buf);
        draw_paragraph(&mut buf, regions.hint, &make_hint());
        let ghost header = buffer_cells(buf);
        proof {
            assert forall|i: int|
                0 <= i < header.len() && !regions.header_text(
                    viewport,
                    i,
                    self@.mode is Entering,
                ) implies #[trigger] header[i] == ground_cell() by {
                assert(!covered(viewport, i, regions.title));
                assert(!covered(viewport, i, regions.hint));
                assert(self@.mode is Entering ==> !covered(viewport, i, input_area(regions.input)));
                assert(titled[i] == ground[i]);
                assert(entered[i] == titled[i]);
            }
        }
        let mut title = String::new();
        title.push(' ');
        title.append(self.current_file.as_str());
        title.push(' ');
        assert(title@ =~= seq![' '] + self@.current_file + seq![' ']);
        draw_rule(&mut buf, regions.body, show(title.as_str()).as_str(), BASE_1, PURPLE);
        let ghost ruled = buffer_cells(buf);
        proof {
            assert(same_above(header, header, viewport, *regions));
            lemma_above_then(header, header, ruled, viewport, *regions, regions.body);
        }
        let count = self.data.len();
        let mut i: usize = 0;
        let mut pending: usize = 0;
        let mut completed: usize = 0;
        while i < count
            invariant
                count == self.data.len(),
                i <= count,
                pending == count_where(self@.tasks, false, i as int),
                completed == count_where(self@.tasks, true, i as int),
                pending + completed == i,
                buffer_wf(buf),
                buffer_area(buf) == viewport,
                drawable(viewport),
                regions.within(viewport),
                buffer_cells(buf) == tasks_drawn(ruled, viewport, self@, *regions, i as int),
                buffer_cells(buf).len() == header.len(),
                same_above(header, buffer_cells(buf), viewport, *regions),
            decreases count - i,
        {
            let ghost before = buffer_cells(buf);
            let done = self.data[i].completed;
            let row = if !self.split_tasks {
                row_at(regions.list, i)
            } else if done {
                row_at(regions.completed, completed)
            } else {
                row_at(regions.pending, pending)
            };
            match row {
                Some(area) => {
                    let line = self.make_task_line(i);
                    draw_line(&mut buf, area, &line);
                    proof {
                        lemma_above_then(
                            header,
                            before,
                            buffer_cells(buf),
                            viewport,
                            *regions,
                            area,
                        );
                    }
                },
                None => {},
            }
            if done {
                completed += 1;
            } else {
                pending += 1;
            }
            i += 1;
        }
        let ghost tasks = buffer_cells(buf);
        if self.show_keybinds {
            clear(&mut buf, regions.overlay);
            fill_background(&mut buf, regions.overlay, BASE_1);
            let ghost ground = buffer_cells(buf);
            proof {
                assert(same_outside(tasks, ground, viewport, regions.overlay));
                assert(same_outside(tasks, tasks, viewport, regions.overlay));
                lemma_above_then(header, tasks, ground, viewport, *regions, regions.overlay);
            }
            let table = keybinds();
            let mut k: usize = 0;
            while k < table.len()
                invariant
                    k <= table.len(),
                    kb_views(table@) == keybind_table(),
                    buffer_wf(buf),
                    buffer_area(buf) == viewport,
                    drawable(viewport),
                    regions.within(viewport),
                    buffer_cells(buf) == bindings_drawn(
                        ground,
                        viewport,
                        regions.overlay,
                        keybind_table(),
                        k as int,
                    ),
                    buffer_cells(buf).len() == header.len(),
                    tasks.len() == header.len(),
                    same_above(header, buffer_cells(buf), viewport, *regions),
                    same_outside(tasks, buffer_cells(buf), viewport, regions.overlay),
                decreases table.len() - k,
            {
                let ghost before = buffer_cells(buf);
                match row_at(regions.overlay, k) {
                    Some(area) => {
                        let line = make_binding_line(&table[k]);
                        draw_line(&mut buf, area, &line);
                        proof {
                            lemma_above_then(
                                header,
                                before,
                                buffer_cells(buf),
                                viewport,
                                *regions,
                                area,
                            );
                            lemma_outside_then(
                                tasks,
                                before,
                                buffer_cells(buf),
                                viewport,
                                regions.overlay,
                                area,
                            );
                        }
                    },
                    None => {},
                }
                k += 1;
            }
        }
        buf
    }

    /// Draws the session into a blank buffer over `viewport`. The sizes of
    /// the parts are `ratatui`'s to say, so the contract speaks of some
    /// sharing out of the viewport: one that the layout may give under the
    /// constraints fixed for it, and that is laid out as every one is.
    pub fn render(&self, viewport: Area) -> (buf: Buffer)
        requires
            self@.wf(),
            drawable(viewport),
        ensures
            buffer_area(buf) == viewport,
            exists|regions: Regions|
                {
                    &&& regions.laid_out(viewport)
                    &&& regions.shared(viewport)
                    &&& buffer_cells(buf) == #[trigger] frame(self@, viewport, regions)
                    &&& kept_apart(self@, viewport, regions, buffer_cells(buf))
                },
    {
        let regions = layout(viewport);
        self.draw(viewport, &regions)
    }
}

/// A later task of a group has more of its group before it than an earlier
/// one.
pub proof fn lemma_count_where_grows(tasks: Seq<TaskView>, completed: bool, i: int, j: int)
    requires
        0 <= i < j,
        tasks[i].completed == completed,
    ensures
        count_where(tasks, completed, i) < count_where(tasks, completed, j),
    decreases j,
{
    if j - 1 > i {
        lemma_count_where_grows(tasks, completed, i, j - 1);
    }
}

/// The tasks keep their order on the screen. Of two tasks that are listed
/// together, in the one list or in the same half, the later one stands
/// below the earlier one, and where the later one has a row the earlier one
/// has one too.
pub proof fn lemma_rows_keep_order(s: AppView, r: Regions, i: int, j: int)
    requires
        0 <= i < j < s.tasks.len(),
        s.split_tasks ==> s.tasks[i].completed == s.tasks[j].completed,
        r.list.fits(),
        r.pending.fits(),
        r.completed.fits(),
        task_row(s, r, j) is Some,
    ensures
        task_row(s, r, i) is Some,
        task_row(s, r, i)->0.y < task_row(s, r, j)->0.y,
{
    if s.split_tasks {
        lemma_count_where_grows(s.tasks, s.tasks[i].completed, i, j);
    }
}

/// Showing the overlay and hiding it again, or hiding and showing it, gives
/// the screen that was there before, cell for cell, as long as the viewport
/// is shared out in the same way.
pub proof fn lemma_overlay_toggled_twice(s: AppView, viewport: Area, r: Regions)
    requires
        s.mode is Normal,
    ensures
        step(step(s, KeyCode::Char('k')), KeyCode::Char('k')) == s,
        frame(step(step(s, KeyCode::Char('k')), KeyCode::Char('k')), viewport, r) == frame(
            s,
            viewport,
            r,
        ),
{
}

} // verus!
