use ratatui::buffer::Buffer;
use ratatui::style::Color;
use todo_rs::app::{App, KeyCode, KeyEvent, KeyEventKind};
use todo_rs::keybinds::{Kb, Kc, Km};
use todo_rs::palette::{
    BACKGROUND, BASE_1, BASE_2, GREEN, LIGHT_BLUE, ORANGE, PURPLE, RED, WHITE, YELLOW,
};
use todo_rs::render::{
    arrange, halves_constraints, header_constraints, layout, list_constraints, make_binding_line,
    outer_constraints, overlay_column_constraints, overlay_row_constraints, Regions,
};
use todo_rs::screen::{
    clamp_u16, has_no_gaps, line_width, sanitize, show, Area, Constraint, Line, Span,
};
use todo_rs::task::Task;

fn press(app: &mut App, code: KeyCode) {
    app.handle_key_press_event(KeyEvent { code, kind: KeyEventKind::Press });
}

fn type_text(app: &mut App, text: &str) {
    for c in text.chars() {
        press(app, KeyCode::Char(c));
    }
}

fn select(app: &mut App, index: usize) {
    press(app, KeyCode::Char('s'));
    type_text(app, &index.to_string());
    press(app, KeyCode::Enter);
}

fn task(priority: i8, completed: bool, description: &str) -> Task {
    Task { priority, completed, description: description.to_string() }
}

fn sample() -> Vec<Task> {
    vec![
        task(10, false, "Write report"),
        task(90, true, "Send invoice"),
        task(100, false, "Water plants"),
        task(-5, true, "Call home"),
    ]
}

fn area(x: u16, y: u16, width: u16, height: u16) -> Area {
    Area { x, y, width, height }
}

fn screen() -> Area {
    area(0, 0, 80, 24)
}

fn rgb(c: u32) -> Color {
    Color::Rgb((c >> 16) as u8, (c >> 8) as u8, c as u8)
}

fn text_at(buf: &Buffer, x: u16, y: u16, width: u16) -> String {
    (x..x + width).map(|column| buf.get(column, y).symbol().to_string()).collect()
}

fn row_text(buf: &Buffer, y: u16) -> String {
    text_at(buf, buf.area.x, y, buf.area.width)
}

fn fg_at(buf: &Buffer, x: u16, y: u16) -> Color {
    buf.get(x, y).fg
}

fn bg_at(buf: &Buffer, x: u16, y: u16) -> Color {
    buf.get(x, y).bg
}

#[test]
fn the_layout_rules_are_the_ones_handed_to_the_solver() {
    assert_eq!(outer_constraints(), vec![Constraint::Length(1), Constraint::Min(10)]);
    assert_eq!(
        header_constraints(9, 21),
        vec![Constraint::Length(9), Constraint::Fill(1), Constraint::Length(21)]
    );
    assert_eq!(
        overlay_column_constraints(),
        vec![Constraint::Min(1), Constraint::Length(47), Constraint::Min(1)]
    );
    assert_eq!(
        overlay_row_constraints(9),
        vec![Constraint::Min(2), Constraint::Max(9), Constraint::Min(1)]
    );
    assert_eq!(list_constraints(), vec![Constraint::Length(1), Constraint::Min(1)]);
    assert_eq!(
        halves_constraints(),
        vec![Constraint::Percentage(50), Constraint::Percentage(50)]
    );
}

#[test]
fn a_screen_of_80_by_24_is_shared_out() {
    let regions = layout(screen());
    assert_eq!(
        regions,
        Regions {
            header: area(0, 0, 80, 1),
            title: area(0, 0, 9, 1),
            input: area(9, 0, 50, 1),
            hint: area(59, 0, 21, 1),
            body: area(0, 1, 80, 23),
            list: area(0, 2, 80, 22),
            pending: area(0, 2, 80, 11),
            completed: area(0, 13, 80, 11),
            overlay: area(17, 8, 47, 9),
        }
    );
}

#[test]
fn a_screen_elsewhere_is_shared_out_in_place() {
    let regions = layout(area(5, 3, 100, 40));
    assert_eq!(regions.header, area(5, 3, 100, 1));
    assert_eq!(regions.title, area(5, 3, 9, 1));
    assert_eq!(regions.hint, area(84, 3, 21, 1));
    assert_eq!(regions.input, area(14, 3, 70, 1));
    assert_eq!(regions.body, area(5, 4, 100, 39));
    assert_eq!(regions.list, area(5, 5, 100, 38));
    assert_eq!(regions.pending, area(5, 5, 100, 19));
    assert_eq!(regions.completed, area(5, 24, 100, 19));
    assert_eq!(regions.overlay.width, 47);
    assert_eq!(regions.overlay.height, 9);
}

#[test]
fn every_part_lies_within_the_screen() {
    for viewport in [area(0, 0, 0, 0), area(0, 0, 1, 1), area(3, 7, 5, 2), area(0, 0, 20, 5), area(0, 0, 300, 200), area(10, 10, 47, 11)] {
        let r = layout(viewport);
        for part in [r.header, r.title, r.input, r.hint, r.body, r.list, r.pending, r.completed, r.overlay] {
            assert!(part.x >= viewport.x && part.y >= viewport.y, "{:?} in {:?}", part, viewport);
            assert!(part.x + part.width <= viewport.x + viewport.width, "{:?} in {:?}", part, viewport);
            assert!(part.y + part.height <= viewport.y + viewport.height, "{:?} in {:?}", part, viewport);
        }
    }
}

fn lies_in(part: Area, whole: Area) -> bool {
    part.x >= whole.x
        && part.y >= whole.y
        && part.x + part.width <= whole.x + whole.width
        && part.y + part.height <= whole.y + whole.height
}

#[test]
fn every_sharing_out_is_laid_out_alike() {
    for viewport in [area(0, 0, 0, 0), area(0, 0, 1, 1), area(3, 7, 5, 2), area(0, 0, 20, 5), area(0, 0, 80, 24), area(0, 0, 300, 200), area(10, 10, 47, 11), area(65454, 65000, 80, 24)] {
        let r = layout(viewport);
        for band in [r.header, r.body] {
            assert_eq!((band.x, band.width), (viewport.x, viewport.width), "{:?}", viewport);
        }
        for part in [r.title, r.input, r.hint] {
            assert_eq!((part.y, part.height), (r.header.y, r.header.height), "{:?}", viewport);
            assert!(lies_in(part, r.header), "{:?} in {:?}", part, r.header);
        }
        assert_eq!((r.list.x, r.list.width), (r.body.x, r.body.width), "{:?}", viewport);
        assert!(lies_in(r.list, r.body));
        for half in [r.pending, r.completed] {
            assert_eq!((half.x, half.width), (r.list.x, r.list.width), "{:?}", viewport);
            assert!(lies_in(half, r.list), "{:?} in {:?}", half, r.list);
        }
        assert!(lies_in(r.overlay, r.body), "{:?} in {:?}", r.overlay, r.body);
    }
}

#[test]
fn regions_are_made_of_the_parts_of_the_splits() {
    let viewport = area(2, 1, 40, 20);
    let outer = vec![area(2, 1, 40, 1), area(2, 2, 40, 19)];
    let header = vec![area(2, 1, 9, 1), area(11, 1, 10, 1), area(21, 1, 21, 1)];
    let overlay = vec![area(5, 2, 30, 5), area(5, 7, 30, 9), area(5, 16, 30, 5)];
    let list = vec![area(2, 2, 40, 1), area(2, 3, 40, 18)];
    let halves = vec![area(2, 3, 40, 9), area(2, 12, 40, 9)];
    assert_eq!(
        arrange(viewport, &outer, &header, &overlay, &list, &halves),
        Regions {
            header: area(2, 1, 40, 1),
            title: area(2, 1, 9, 1),
            input: area(11, 1, 10, 1),
            hint: area(21, 1, 21, 1),
            body: area(2, 2, 40, 19),
            list: area(2, 3, 40, 18),
            pending: area(2, 3, 40, 9),
            completed: area(2, 12, 40, 9),
            overlay: area(5, 7, 30, 9),
        }
    );
    let outer = vec![area(0, 0, 50, 3), area(0, 3, 50, 30)];
    let overlay = vec![area(5, 2, 30, 5), area(1, 1, 60, 9), area(5, 16, 30, 5)];
    let list = vec![area(2, 2, 40, 1), area(2, 10, 40, 40)];
    let halves = vec![area(2, 3, 40, 9), area(2, 12, 40, 30)];
    assert_eq!(
        arrange(viewport, &outer, &header, &overlay, &list, &halves),
        Regions {
            header: area(2, 1, 40, 2),
            title: area(2, 1, 9, 1),
            input: area(11, 1, 10, 1),
            hint: area(21, 1, 21, 1),
            body: area(2, 3, 40, 18),
            list: area(2, 10, 40, 11),
            pending: area(2, 10, 40, 2),
            completed: area(2, 12, 40, 9),
            overlay: area(2, 3, 40, 7),
        }
    );
}

#[test]
fn a_line_is_as_wide_as_its_pieces_together() {
    let span = |text: &str| Span { content: text.to_string(), fg: WHITE };
    assert_eq!(line_width(&Line { spans: vec![], bg: None }), 0);
    assert_eq!(line_width(&Line { spans: vec![span(" <K>"), span(" for Keybindings ")], bg: None }), 21);
    assert_eq!(line_width(&Line { spans: vec![span(" Todo-rs ")], bg: Some(BASE_1) }), 9);
    assert_eq!(line_width(&Line { spans: vec![span("ab"), span("\u{65e5}\u{672c}"), span("e\u{301}")], bg: None }), 7);
}

#[test]
fn the_header_holds_the_title_and_the_hint() {
    let app = App::from(sample(), "master.todo");
    let buf = app.render(screen());
    assert_eq!(buf.area, ratatui::layout::Rect::new(0, 0, 80, 24));
    assert_eq!(text_at(&buf, 0, 0, 9), " Todo-rs ");
    assert_eq!(text_at(&buf, 59, 0, 21), " <K> for Keybindings ");
    assert_eq!(text_at(&buf, 9, 0, 50), " ".repeat(50));
    assert_eq!(fg_at(&buf, 1, 0), rgb(WHITE));
    assert_eq!(fg_at(&buf, 60, 0), rgb(LIGHT_BLUE));
    assert_eq!(fg_at(&buf, 62, 0), rgb(LIGHT_BLUE));
    assert_eq!(fg_at(&buf, 63, 0), rgb(WHITE));
    assert_eq!(fg_at(&buf, 79, 0), rgb(WHITE));
}

#[test]
fn the_whole_screen_has_the_background() {
    let app = App::from(sample(), "master.todo");
    let buf = app.render(screen());
    for y in 0..24 {
        for x in 0..80 {
            assert_eq!(bg_at(&buf, x, y), rgb(BACKGROUND), "cell {} {}", x, y);
        }
    }
    for y in 6..24 {
        for x in 0..80 {
            assert_eq!(buf.get(x, y).symbol(), " ", "cell {} {}", x, y);
            assert_eq!(fg_at(&buf, x, y), Color::Reset, "cell {} {}", x, y);
        }
    }
}

#[test]
fn the_rule_carries_the_name_of_the_file() {
    let app = App::from(sample(), "09-03-01.todo");
    let buf = app.render(screen());
    let rule = "─".repeat(65) + " 09-03-01.todo ";
    assert_eq!(row_text(&buf, 1), rule);
    assert_eq!(fg_at(&buf, 0, 1), rgb(BASE_1));
    assert_eq!(fg_at(&buf, 64, 1), rgb(BASE_1));
    assert_eq!(fg_at(&buf, 65, 1), rgb(PURPLE));
    assert_eq!(fg_at(&buf, 79, 1), rgb(PURPLE));
}

#[test]
fn each_task_has_a_row_of_three_columns() {
    let app = App::from(sample(), "master.todo");
    let buf = app.render(screen());
    assert_eq!(row_text(&buf, 2).trim_end(), "   0   10   Write report");
    assert_eq!(row_text(&buf, 3).trim_end(), "   1   90   Send invoice");
    assert_eq!(row_text(&buf, 4).trim_end(), "   2  100   Water plants");
    assert_eq!(row_text(&buf, 5).trim_end(), "   3   -5   Call home");
    assert_eq!(row_text(&buf, 6), " ".repeat(80));
    for y in 2..6 {
        assert_eq!(fg_at(&buf, 3, y), rgb(WHITE));
    }
    assert_eq!(fg_at(&buf, 7, 2), rgb(GREEN));
    assert_eq!(fg_at(&buf, 7, 3), rgb(ORANGE));
    assert_eq!(fg_at(&buf, 7, 4), rgb(RED));
    assert_eq!(fg_at(&buf, 7, 5), rgb(GREEN));
    assert_eq!(fg_at(&buf, 12, 2), rgb(YELLOW));
    assert_eq!(fg_at(&buf, 12, 3), rgb(BASE_2));
    assert_eq!(fg_at(&buf, 12, 4), rgb(YELLOW));
    assert_eq!(fg_at(&buf, 12, 5), rgb(BASE_2));
}

#[test]
fn the_selected_task_stands_on_its_own_background() {
    let mut app = App::from(sample(), "master.todo");
    select(&mut app, 2);
    let buf = app.render(screen());
    for x in 0..80 {
        assert_eq!(bg_at(&buf, x, 4), rgb(BASE_1), "column {}", x);
        assert_eq!(bg_at(&buf, x, 3), rgb(BACKGROUND), "column {}", x);
        assert_eq!(bg_at(&buf, x, 5), rgb(BACKGROUND), "column {}", x);
    }
    assert_eq!(row_text(&buf, 4).trim_end(), "   2  100   Water plants");
}

#[test]
fn completed_tasks_move_to_the_lower_half() {
    let mut app = App::from(sample(), "master.todo");
    press(&mut app, KeyCode::Char('h'));
    let buf = app.render(screen());
    assert_eq!(row_text(&buf, 2).trim_end(), "   0   10   Write report");
    assert_eq!(row_text(&buf, 3).trim_end(), "   2  100   Water plants");
    assert_eq!(row_text(&buf, 4), " ".repeat(80));
    assert_eq!(row_text(&buf, 13).trim_end(), "   1   90   Send invoice");
    assert_eq!(row_text(&buf, 14).trim_end(), "   3   -5   Call home");
    assert_eq!(row_text(&buf, 15), " ".repeat(80));
}

#[test]
fn the_selection_shows_in_the_half_that_holds_the_task() {
    let mut app = App::from(sample(), "master.todo");
    press(&mut app, KeyCode::Char('h'));
    select(&mut app, 3);
    let buf = app.render(screen());
    assert_eq!(bg_at(&buf, 0, 14), rgb(BASE_1));
    assert_eq!(bg_at(&buf, 79, 14), rgb(BASE_1));
    assert_eq!(bg_at(&buf, 0, 13), rgb(BACKGROUND));
    assert_eq!(bg_at(&buf, 0, 2), rgb(BACKGROUND));
}

#[test]
fn tasks_without_a_row_are_not_drawn() {
    let tasks: Vec<Task> = (0..100).map(|i| task(i as i8, i % 2 == 1, "t")).collect();
    let mut app = App::from(tasks, "master.todo");
    let buf = app.render(screen());
    assert_eq!(row_text(&buf, 2).trim_end(), "   0   0    t");
    assert_eq!(row_text(&buf, 23).trim_end(), "  21   21   t");
    press(&mut app, KeyCode::Char('h'));
    let buf = app.render(screen());
    assert_eq!(row_text(&buf, 2).trim_end(), "   0   0    t");
    assert_eq!(row_text(&buf, 12).trim_end(), "  20   20   t");
    assert_eq!(row_text(&buf, 13).trim_end(), "   1   1    t");
    assert_eq!(row_text(&buf, 23).trim_end(), "  21   21   t");
}

#[test]
fn a_long_description_is_cut_at_the_edge() {
    let app = App::from(vec![task(1, false, &"x".repeat(200))], "master.todo");
    let buf = app.render(screen());
    assert_eq!(row_text(&buf, 2), format!("   0   1    {}", "x".repeat(68)));
    assert_eq!(row_text(&buf, 3), " ".repeat(80));
}

#[test]
fn pieces_of_no_width_are_left_out() {
    let app = App::from(
        vec![
            task(1, false, "caf\u{e9} tab\u{200b}end"),
            task(2, false, "\u{301}mark first"),
            task(3, false, "\u{65e5}\u{672c}\u{8a9e}\u{200b}"),
        ],
        "list\u{200b}\u{2713}.todo",
    );
    let buf = app.render(screen());
    assert_eq!(row_text(&buf, 2).trim_end(), "   0   1    caf\u{e9} tabend");
    assert_eq!(row_text(&buf, 3).trim_end(), "   1   2    mark first");
    assert_eq!(buf.get(12, 4).symbol(), "\u{65e5}");
    assert_eq!(buf.get(14, 4).symbol(), "\u{672c}");
    assert_eq!(buf.get(16, 4).symbol(), "\u{8a9e}");
    assert_eq!(buf.get(18, 4).symbol(), " ");
    assert!(row_text(&buf, 1).ends_with("─ list\u{2713}.todo "));
    assert_eq!(sanitize("a\u{7f}b~ \u{1f}"), "a?b~ ?");
    assert_eq!(show("zero\u{200b}width caf\u{e9}"), "zerowidth caf\u{e9}");
    assert_eq!(show("line\r\nbreak"), "linebreak");
    assert_eq!(show("\u{200b}\u{200b}"), "");
    assert_eq!(show("\u{65e5}\u{672c}\u{8a9e}\u{200b}"), "\u{65e5}\u{672c}\u{8a9e}");
    assert!(has_no_gaps("caf\u{e9} e\u{301}"));
    assert!(has_no_gaps(""));
    assert!(!has_no_gaps("a\u{200b}"));
    assert!(!has_no_gaps("\u{301}a"));
}

#[test]
fn text_that_ends_a_full_line_with_a_piece_of_no_width_is_drawn() {
    let descriptions = [format!("{}\u{200b}", "x".repeat(68)), format!("{}\u{301}", "x".repeat(67)), format!("{}\u{200b}y", "\u{65e5}".repeat(34))];
    let tasks: Vec<Task> = descriptions.iter().map(|d| task(0, false, d)).collect();
    let app = App::from(tasks, &format!("{}\u{200b}", "n".repeat(100)));
    let buf = app.render(screen());
    assert_eq!(row_text(&buf, 2), format!("   0   0    {}", "x".repeat(68)));
    assert_eq!(buf.get(78, 3).symbol(), "x\u{301}");
    assert_eq!(buf.get(79, 3).symbol(), " ");
    assert_eq!(buf.get(78, 4).symbol(), "\u{65e5}");
}

#[test]
fn the_overlay_changes_no_cell_outside_its_area() {
    let tasks: Vec<Task> = (0..30).map(|i| task(i as i8 * 4, i % 3 == 0, &"task ".repeat(20))).collect();
    for split in [false, true] {
        let mut app = App::from(tasks.clone(), "master.todo");
        if split {
            press(&mut app, KeyCode::Char('h'));
        }
        select(&mut app, 7);
        for viewport in [screen(), area(3, 2, 120, 40), area(0, 0, 50, 12)] {
            let plain = app.draw(viewport, &layout(viewport));
            press(&mut app, KeyCode::Char('k'));
            let shown = app.draw(viewport, &layout(viewport));
            press(&mut app, KeyCode::Char('k'));
            let o = layout(viewport).overlay;
            let mut changed = 0;
            for y in viewport.y..viewport.y + viewport.height {
                for x in viewport.x..viewport.x + viewport.width {
                    let inside = o.x <= x && x < o.x + o.width && o.y <= y && y < o.y + o.height;
                    if !inside {
                        assert_eq!(shown.get(x, y), plain.get(x, y), "cell {} {}", x, y);
                    } else if shown.get(x, y) != plain.get(x, y) {
                        changed += 1;
                    }
                }
            }
            assert!(changed > 0);
        }
    }
}

#[test]
fn what_is_drawn_below_the_header_leaves_the_header_alone() {
    let full: Vec<Task> = (0..30).map(|i| task(i as i8, i % 2 == 0, &"task ".repeat(30))).collect();
    for viewport in [screen(), area(3, 2, 120, 40)] {
        let regions = layout(viewport);
        let mut empty = App::from(Vec::new(), "");
        let mut busy = App::from(full.clone(), "a file.todo");
        press(&mut busy, KeyCode::Char('k'));
        press(&mut busy, KeyCode::Char('h'));
        for app in [&mut empty, &mut busy] {
            press(app, KeyCode::Char('n'));
            type_text(app, "same text");
        }
        let quiet = empty.draw(viewport, &regions);
        let loud = busy.draw(viewport, &regions);
        let b = regions.body;
        for y in viewport.y..viewport.y + viewport.height {
            for x in viewport.x..viewport.x + viewport.width {
                let below = b.x <= x && x < b.x + b.width && b.y <= y && y < b.y + b.height;
                if !below {
                    assert_eq!(loud.get(x, y), quiet.get(x, y), "cell {} {}", x, y);
                }
            }
        }
    }
}

#[test]
fn a_cell_that_nothing_is_drawn_on_shows_the_background() {
    let mut app = App::from(sample(), "master.todo");
    let viewport = area(0, 0, 200, 30);
    let regions = layout(viewport);
    let buf = app.draw(viewport, &regions);
    for x in regions.input.x..regions.input.x + regions.input.width {
        assert_eq!(buf.get(x, 0).symbol(), " ");
        assert_eq!(buf.get(x, 0).fg, Color::Reset);
        assert_eq!(buf.get(x, 0).bg, rgb(BACKGROUND));
    }
    press(&mut app, KeyCode::Char('n'));
    let buf = app.draw(viewport, &regions);
    for x in (9..54).chain(134..179) {
        assert_eq!(buf.get(x, 0).symbol(), " ");
        assert_eq!(buf.get(x, 0).fg, Color::Reset);
        assert_eq!(buf.get(x, 0).bg, rgb(BACKGROUND), "column {}", x);
    }
}

#[test]
fn screens_of_many_sizes_are_laid_out_alike() {
    for width in (0..=130u16).step_by(3) {
        for height in (0..=40u16).step_by(2) {
            let viewport = area(width % 7, height % 5, width, height);
            let r = layout(viewport);
            for band in [r.header, r.body] {
                assert_eq!((band.x, band.width), (viewport.x, viewport.width), "{:?}", viewport);
                assert!(lies_in(band, viewport), "{:?}", viewport);
            }
            for part in [r.title, r.input, r.hint] {
                assert_eq!((part.y, part.height), (r.header.y, r.header.height), "{:?}", viewport);
                assert!(lies_in(part, r.header), "{:?}", viewport);
            }
            assert_eq!((r.list.x, r.list.width), (r.body.x, r.body.width), "{:?}", viewport);
            assert!(lies_in(r.list, r.body), "{:?}", viewport);
            for half in [r.pending, r.completed] {
                assert_eq!((half.x, half.width), (r.list.x, r.list.width), "{:?}", viewport);
                assert!(lies_in(half, r.list), "{:?}", viewport);
            }
            assert!(lies_in(r.overlay, r.body), "{:?}", viewport);
            assert!(r.header.y + r.header.height <= r.body.y, "{:?}", viewport);
            assert!(r.title.x + r.title.width <= r.input.x, "{:?}", viewport);
            assert!(r.input.x + r.input.width <= r.hint.x, "{:?}", viewport);
            assert!(r.pending.y + r.pending.height <= r.completed.y, "{:?}", viewport);
        }
    }
}

#[test]
fn the_parts_follow_one_another() {
    for viewport in [area(0, 0, 0, 0), area(0, 0, 1, 1), area(3, 7, 5, 2), area(0, 0, 20, 5), area(0, 0, 80, 24), area(0, 0, 300, 200), area(10, 10, 47, 11), area(65454, 65000, 80, 24), area(0, 0, 29, 3)] {
        let r = layout(viewport);
        assert!(r.header.y + r.header.height <= r.body.y, "{:?}", viewport);
        assert!(r.title.x + r.title.width <= r.input.x, "{:?}", viewport);
        assert!(r.input.x + r.input.width <= r.hint.x, "{:?}", viewport);
        assert!(r.pending.y + r.pending.height <= r.completed.y, "{:?}", viewport);
    }
}

#[test]
fn other_text_is_drawn_as_it_is() {
    let app = App::from(
        vec![
            task(1, false, "caf\u{e9} \u{2713}"),
            task(2, false, "\u{65e5}\u{672c}\u{8a9e}!"),
            task(3, false, "e\u{301}t\u{e9}"),
        ],
        "\u{fc}ber.todo",
    );
    let buf = app.render(screen());
    assert_eq!(row_text(&buf, 2).trim_end(), "   0   1    caf\u{e9} \u{2713}");
    assert_eq!(buf.get(12, 3).symbol(), "\u{65e5}");
    assert_eq!(buf.get(14, 3).symbol(), "\u{672c}");
    assert_eq!(buf.get(16, 3).symbol(), "\u{8a9e}");
    assert_eq!(buf.get(18, 3).symbol(), "!");
    assert_eq!(buf.get(12, 4).symbol(), "e\u{301}");
    assert_eq!(buf.get(13, 4).symbol(), "t");
    assert_eq!(buf.get(14, 4).symbol(), "\u{e9}");
    assert!(row_text(&buf, 1).ends_with("─ \u{fc}ber.todo "));
    assert_eq!(show("caf\u{e9}"), "caf\u{e9}");
    assert_eq!(show(""), "");
    assert_eq!(show("plain"), "plain");
}

#[test]
fn wide_text_is_cut_at_the_edge_without_harm() {
    let descriptions = ["\u{65e5}".repeat(60), "e\u{301}".repeat(100), format!("{}\u{65e5}", "x".repeat(67)), format!("{}\u{e9}\u{e9}", "x".repeat(67))];
    let tasks: Vec<Task> = descriptions.iter().map(|d| task(0, false, d)).collect();
    let mut app = App::from(tasks, "master.todo");
    for viewport in [screen(), area(0, 0, 79, 10), area(0, 0, 81, 10), area(65454, 0, 80, 10), area(0, 0, 13, 10)] {
        let buf = app.render(viewport);
        assert_eq!(buf.area.width, viewport.width);
    }
    press(&mut app, KeyCode::Char('h'));
    press(&mut app, KeyCode::Char('k'));
    let buf = app.render(screen());
    assert_eq!(row_text(&buf, 4).chars().take(12).collect::<String>(), "   2   0    ");
}

#[test]
fn text_being_entered_shows_in_the_header() {
    let mut app = App::from(sample(), "master.todo");
    press(&mut app, KeyCode::Char('n'));
    type_text(&mut app, "Buy milk");
    let buf = app.render(screen());
    assert_eq!(text_at(&buf, 9, 0, 50).trim_end(), "Buy milk");
    assert_eq!(fg_at(&buf, 9, 0), rgb(WHITE));
    for x in 9..59 {
        assert_eq!(bg_at(&buf, x, 0), rgb(BASE_1), "column {}", x);
    }
    assert_eq!(bg_at(&buf, 8, 0), rgb(BACKGROUND));
    assert_eq!(bg_at(&buf, 59, 0), rgb(BACKGROUND));
    press(&mut app, KeyCode::Esc);
    let buf = app.render(screen());
    assert_eq!(text_at(&buf, 9, 0, 50), " ".repeat(50));
    assert_eq!(bg_at(&buf, 9, 0), rgb(BACKGROUND));
}

#[test]
fn on_a_wide_screen_the_entered_text_gets_margins() {
    let mut app = App::from(sample(), "master.todo");
    press(&mut app, KeyCode::Char('s'));
    type_text(&mut app, "12");
    let buf = app.render(area(0, 0, 200, 20));
    assert_eq!(text_at(&buf, 54, 0, 2), "12");
    assert_eq!(text_at(&buf, 9, 0, 45), " ".repeat(45));
    assert_eq!(bg_at(&buf, 53, 0), rgb(BACKGROUND));
    for x in 54..134 {
        assert_eq!(bg_at(&buf, x, 0), rgb(BASE_1), "column {}", x);
    }
    assert_eq!(bg_at(&buf, 134, 0), rgb(BACKGROUND));
    let buf = app.render(area(0, 0, 111, 20));
    assert_eq!(text_at(&buf, 9, 0, 2), "12");
    assert_eq!(bg_at(&buf, 9, 0), rgb(BASE_1));
    assert_eq!(bg_at(&buf, 89, 0), rgb(BASE_1));
    let buf = app.render(area(0, 0, 113, 20));
    assert_eq!(text_at(&buf, 10, 0, 2), "12");
    assert_eq!(bg_at(&buf, 9, 0), rgb(BACKGROUND));
}

#[test]
fn the_overlay_lists_the_key_bindings() {
    let mut app = App::from(sample(), "master.todo");
    press(&mut app, KeyCode::Char('k'));
    let buf = app.render(screen());
    let r = layout(screen());
    let o = r.overlay;
    let expected = [
        "  n  |        | Create new Task.",
        "  s  |        | Select Task.",
        "  p  |        | Change Task Priority.",
        "  t  |        | Toggle Task Completion.",
        "  D  | Shift  | Delete Task.",
        "  h  |        | Split completed tasks.",
        " Esc |        | Clear Selected / Cancel Input.",
        "  k  |        | Show this Modal.",
        "  q  |        | Quit the App.",
    ];
    for (i, line) in expected.iter().enumerate() {
        let y = o.y + i as u16;
        assert_eq!(text_at(&buf, o.x, y, o.width).trim_end(), *line);
        for x in o.x..o.x + o.width {
            assert_eq!(bg_at(&buf, x, y), rgb(BASE_1), "cell {} {}", x, y);
        }
        assert_eq!(bg_at(&buf, o.x - 1, y), rgb(BACKGROUND));
        assert_eq!(bg_at(&buf, o.x + o.width, y), rgb(BACKGROUND));
        assert_eq!(fg_at(&buf, o.x + 2, y), rgb(LIGHT_BLUE));
        assert_eq!(fg_at(&buf, o.x + 5, y), rgb(WHITE));
        assert_eq!(fg_at(&buf, o.x + 7, y), rgb(LIGHT_BLUE));
        assert_eq!(fg_at(&buf, o.x + 14, y), rgb(WHITE));
        assert_eq!(fg_at(&buf, o.x + 16, y), rgb(YELLOW));
    }
    assert_eq!(bg_at(&buf, o.x, o.y - 1), rgb(BACKGROUND));
    assert_eq!(bg_at(&buf, o.x, o.y + o.height), rgb(BACKGROUND));
}

#[test]
fn the_overlay_covers_the_tasks_beneath_it() {
    let tasks: Vec<Task> = (0..22).map(|i| task(i as i8, false, &"y".repeat(70))).collect();
    let mut app = App::from(tasks, "master.todo");
    let o = layout(screen()).overlay;
    let plain = app.render(screen());
    assert_eq!(text_at(&plain, o.x, o.y, 3), "yyy");
    press(&mut app, KeyCode::Char('k'));
    let covered = app.render(screen());
    assert_eq!(text_at(&covered, o.x, o.y, 5), "  n  ");
    assert_eq!(text_at(&covered, o.x + 40, o.y, 7), "       ");
    for x in o.x + 40..o.x + o.width {
        assert_eq!(fg_at(&covered, x, o.y), Color::Reset, "column {}", x);
        assert_eq!(bg_at(&covered, x, o.y), rgb(BASE_1), "column {}", x);
    }
    assert_eq!(text_at(&covered, o.x - 3, o.y, 3), "yyy");
    assert_eq!(text_at(&covered, o.x + o.width, o.y, 3), "yyy");
}

#[test]
fn showing_and_hiding_the_overlay_restores_the_screen() {
    let mut app = App::from(sample(), "master.todo");
    select(&mut app, 1);
    let before = app.render(screen());
    press(&mut app, KeyCode::Char('k'));
    let shown = app.render(screen());
    assert_ne!(shown, before);
    press(&mut app, KeyCode::Char('k'));
    let after = app.render(screen());
    assert_eq!(after, before);
    press(&mut app, KeyCode::Char('k'));
    press(&mut app, KeyCode::Char('k'));
    press(&mut app, KeyCode::Char('k'));
    assert_eq!(app.render(screen()), shown);
}

#[test]
fn rendering_is_sharing_out_and_then_drawing() {
    let mut app = App::from(sample(), "master.todo");
    press(&mut app, KeyCode::Char('k'));
    press(&mut app, KeyCode::Char('h'));
    for viewport in [screen(), area(2, 1, 120, 50), area(0, 0, 30, 8)] {
        let regions = layout(viewport);
        assert_eq!(app.render(viewport), app.draw(viewport, &regions));
    }
}

#[test]
fn drawing_goes_where_the_regions_say() {
    let app = App::from(sample(), "master.todo");
    let mut regions = layout(screen());
    regions.list = area(10, 20, 30, 2);
    regions.title = area(40, 10, 9, 1);
    let buf = app.draw(screen(), &regions);
    assert_eq!(text_at(&buf, 40, 10, 9), " Todo-rs ");
    assert_eq!(text_at(&buf, 0, 0, 9), " ".repeat(9));
    assert_eq!(text_at(&buf, 10, 20, 30).trim_end(), "   0   10   Write report");
    assert_eq!(text_at(&buf, 10, 21, 30).trim_end(), "   1   90   Send invoice");
    assert_eq!(row_text(&buf, 22), " ".repeat(80));
    assert_eq!(row_text(&buf, 2), " ".repeat(80));
}

#[test]
fn small_screens_are_drawn_as_far_as_they_go() {
    let mut tasks = sample();
    tasks.push(task(127, false, &"z".repeat(300)));
    tasks.push(task(-128, true, &"w".repeat(300)));
    let mut app = App::from(tasks, "a name that is rather long for a narrow screen.todo");
    select(&mut app, 4);
    press(&mut app, KeyCode::Char('k'));
    press(&mut app, KeyCode::Char('h'));
    press(&mut app, KeyCode::Char('n'));
    type_text(&mut app, "some text");
    for viewport in [area(0, 0, 0, 0), area(0, 0, 1, 1), area(0, 0, 80, 1), area(0, 0, 1, 24), area(4, 4, 10, 3), area(0, 0, 47, 12), area(0, 0, 255, 255), area(65000, 65000, 500, 100), area(65534, 65534, 0, 1), area(0, 65534, 80, 1), area(65454, 0, 80, 24), area(0, 0, 65534, 1), area(0, 0, 1, 65535)] {
        let buf = app.render(viewport);
        assert_eq!(buf.area.width, viewport.width);
        assert_eq!(buf.area.height, viewport.height);
        assert_eq!(buf.content.len(), viewport.width as usize * viewport.height as usize);
    }
}

#[test]
fn a_screen_elsewhere_is_drawn_in_place() {
    let app = App::from(sample(), "master.todo");
    let buf = app.render(area(5, 3, 100, 40));
    assert_eq!(text_at(&buf, 5, 3, 9), " Todo-rs ");
    assert_eq!(text_at(&buf, 84, 3, 21), " <K> for Keybindings ");
    assert_eq!(text_at(&buf, 5, 5, 24), "   0   10   Write report");
    assert_eq!(text_at(&buf, 92, 4, 13), " master.todo ");
}

#[test]
fn a_binding_is_listed_in_three_columns() {
    let line = make_binding_line(&Kb::new(Kc::Char('\u{e9}'), Km::Shift, "Caf\u{e9}"));
    let parts: Vec<(&str, u32)> = line.spans.iter().map(|s| (s.content.as_str(), s.fg)).collect();
    assert_eq!(
        parts,
        vec![("  \u{e9}  ", LIGHT_BLUE), ("|", WHITE), (" Shift  ", LIGHT_BLUE), ("|", WHITE), (" Caf\u{e9}", YELLOW)]
    );
    assert_eq!(line.bg, None);
    let line = make_binding_line(&Kb::new(Kc::Char('\u{200b}'), Km::Plain, "Caf\u{e9}\u{200b}"));
    let parts: Vec<&str> = line.spans.iter().map(|s| s.content.as_str()).collect();
    assert_eq!(parts, vec!["    ", "|", "        ", "|", " Caf\u{e9}"]);
}

#[test]
fn a_task_line_holds_index_priority_and_description() {
    let mut app = App::from(sample(), "master.todo");
    select(&mut app, 1);
    let line = app.make_task_line(1);
    let parts: Vec<(&str, u32)> = line.spans.iter().map(|s| (s.content.as_str(), s.fg)).collect();
    assert_eq!(parts, vec![("   1", WHITE), ("   90   ", ORANGE), ("Send invoice", BASE_2)]);
    assert_eq!(line.bg, Some(BASE_1));
    let line = app.make_task_line(2);
    let parts: Vec<(&str, u32)> = line.spans.iter().map(|s| (s.content.as_str(), s.fg)).collect();
    assert_eq!(parts, vec![("   2", WHITE), ("  100   ", RED), ("Water plants", YELLOW)]);
    assert_eq!(line.bg, None);
}

#[test]
fn areas_are_cut_down_to_their_bounds() {
    let bounds = area(10, 10, 20, 5);
    assert_eq!(area(12, 11, 5, 2).clip(bounds), area(12, 11, 5, 2));
    assert_eq!(area(0, 0, 15, 12).clip(bounds), area(10, 10, 5, 2));
    assert_eq!(area(25, 13, 50, 50).clip(bounds), area(25, 13, 5, 2));
    assert_eq!(area(0, 0, 100, 100).clip(bounds), bounds);
    assert_eq!(area(0, 0, 5, 5).clip(bounds), area(10, 10, 0, 0));
    assert_eq!(area(40, 40, 5, 5).clip(bounds), area(30, 15, 0, 0));
    assert_eq!(area(65535, 65535, 65535, 65535).clip(bounds), area(30, 15, 0, 0));
    assert_eq!(area(3, 4, 10, 2).nth_row(0), Some(area(3, 4, 10, 1)));
    assert_eq!(area(3, 4, 10, 2).nth_row(1), Some(area(3, 5, 10, 1)));
    assert_eq!(area(3, 4, 10, 2).nth_row(2), None);
    assert_eq!(clamp_u16(5, 1, 9), 5);
    assert_eq!(clamp_u16(0, 1, 9), 1);
    assert_eq!(clamp_u16(10, 1, 9), 9);
}
