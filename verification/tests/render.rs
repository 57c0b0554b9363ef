use weather_report::grid::{Alignment, Cell, Row, Segment, Style};
use weather_report::render::{paint_cell, paint_row, render};

fn cell(text: &str, style: Style, span: usize, align: Alignment) -> Cell {
    Cell { content: vec![Segment { text: text.to_string(), style }], span, align }
}

fn painted(text: &str, style: Style) -> String {
    paint_cell(&cell(text, style, 1, Alignment::Center)).text
}

#[test]
fn plain_text_is_painted_as_it_is() {
    assert_eq!(painted("21.5", Style::Plain), "21.5");
}

#[test]
fn label_is_painted_bold() {
    assert_eq!(painted("UV", Style::Label), "\u{1b}[1mUV\u{1b}[0m");
}

#[test]
fn stamp_is_painted_bold_magenta() {
    assert_eq!(painted("x", Style::Stamp), "\u{1b}[1;35mx\u{1b}[0m");
}

#[test]
fn title_is_painted_bold_green() {
    assert_eq!(painted("CURRENT", Style::Title), "\u{1b}[1;32mCURRENT\u{1b}[0m");
}

#[test]
fn banner_is_painted_bold_yellow() {
    assert_eq!(painted("NEXT", Style::Banner), "\u{1b}[1;33mNEXT\u{1b}[0m");
}

#[test]
fn reading_is_painted_green() {
    assert_eq!(painted("7", Style::Reading), "\u{1b}[32m7\u{1b}[0m");
}

#[test]
fn runs_of_a_cell_are_painted_one_after_another() {
    let mixed = Cell {
        content: vec![
            Segment { text: "TEMP: ".to_string(), style: Style::Plain },
            Segment { text: "12.5".to_string(), style: Style::Reading },
            Segment { text: "\nUV: 3".to_string(), style: Style::Plain },
        ],
        span: 1,
        align: Alignment::Center,
    };
    let out = paint_cell(&mixed);
    assert_eq!(out.text, "TEMP: \u{1b}[32m12.5\u{1b}[0m\nUV: 3");
    assert_eq!(out.span, 1);
    assert_eq!(out.align, Alignment::Center);
}

#[test]
fn a_cell_without_runs_is_painted_empty() {
    let empty = Cell { content: Vec::new(), span: 3, align: Alignment::Right };
    let out = paint_cell(&empty);
    assert_eq!(out.text, "");
    assert_eq!(out.span, 3);
    assert_eq!(out.align, Alignment::Right);
}

#[test]
fn paint_row_keeps_the_order_of_the_cells() {
    let row = Row {
        cells: vec![
            cell("a", Style::Plain, 1, Alignment::Left),
            cell("b", Style::Label, 2, Alignment::Right),
        ],
    };
    let out = paint_row(&row);
    assert_eq!(out.len(), 2);
    assert_eq!(out[0].text, "a");
    assert_eq!(out[0].align, Alignment::Left);
    assert_eq!(out[1].text, "\u{1b}[1mb\u{1b}[0m");
    assert_eq!(out[1].span, 2);
}

#[test]
fn painting_is_repeatable() {
    assert_eq!(painted("x", Style::Banner), painted("x", Style::Banner));
}

#[test]
fn render_of_one_cell_draws_a_box() {
    let rows = vec![Row { cells: vec![cell("ab", Style::Plain, 1, Alignment::Center)] }];
    assert_eq!(render(&rows, 42), "+----+\n| ab |\n+----+\n");
}

#[test]
fn render_of_nothing_is_empty() {
    assert_eq!(render(&Vec::new(), 42), "");
}

#[test]
fn render_aligns_spans_and_pads() {
    let rows = vec![
        Row { cells: vec![cell("wide title", Style::Plain, 2, Alignment::Center)] },
        Row {
            cells: vec![
                cell("left", Style::Plain, 1, Alignment::Left),
                cell("right side", Style::Plain, 1, Alignment::Right),
            ],
        },
        Row { cells: vec![cell("one\ntwo", Style::Plain, 1, Alignment::Center)] },
    ];
    let expected = "+--------------------+\n\
                    |     wide title     |\n\
                    +-------+------------+\n\
                    | left  | right side |\n\
                    +-------+------------+\n\
                    |  one  |            |\n\
                    |  two  |            |\n\
                    +-------+------------+\n";
    assert_eq!(render(&rows, 42), expected);
}

#[test]
fn render_wraps_at_the_given_width() {
    let rows =
        vec![Row { cells: vec![cell("alpha beta gamma", Style::Plain, 1, Alignment::Left)] }];
    assert_eq!(render(&rows, 8), "+--------+\n| alpha  |\n| beta g |\n| amma   |\n+--------+\n");
}

#[test]
fn render_does_not_count_escape_sequences_as_width() {
    let rows = vec![Row { cells: vec![cell("ab", Style::Label, 1, Alignment::Center)] }];
    assert_eq!(render(&rows, 42), "+----+\n| \u{1b}[1mab\u{1b}[0m |\n+----+\n");
}

#[test]
fn render_is_deterministic() {
    let rows = vec![
        Row { cells: vec![cell("title", Style::Title, 6, Alignment::Center)] },
        Row { cells: vec![cell("a", Style::Plain, 1, Alignment::Left)] },
    ];
    assert_eq!(render(&rows, 42), render(&rows, 42));
}
