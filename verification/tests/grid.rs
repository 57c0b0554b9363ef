use weather_report::grid::{keep_rows, push_row, Alignment, Cell, Row, Segment, Style, FULL_WIDTH};
use weather_report::render::{can_render, render};

fn cell(span: usize) -> Cell {
    Cell {
        content: vec![Segment::new("x".to_string(), Style::Plain)],
        span,
        align: Alignment::Left,
    }
}

#[test]
fn the_report_has_six_columns() {
    assert_eq!(FULL_WIDTH, 6);
}

#[test]
fn a_label_is_one_centered_column() {
    let label = Cell::label("UV");
    assert_eq!(label.span, 1);
    assert_eq!(label.align, Alignment::Center);
    assert_eq!(label.content, vec![Segment { text: "UV".to_string(), style: Style::Label }]);
}

#[test]
fn a_datum_is_one_centered_column() {
    let datum = Cell::datum("21.5".to_string());
    assert_eq!(datum.span, 1);
    assert_eq!(datum.align, Alignment::Center);
    assert_eq!(datum.content, vec![Segment { text: "21.5".to_string(), style: Style::Plain }]);
}

#[test]
fn a_full_width_cell_spans_all_columns() {
    let title = Cell::full_width(vec![Segment::new("T".to_string(), Style::Title)]);
    assert_eq!(title.span, 6);
    assert_eq!(title.align, Alignment::Center);
    assert_eq!(title.content.len(), 1);
    let centered = Cell::centered(Vec::new());
    assert_eq!(centered.span, 1);
    assert!(centered.content.is_empty());
}

#[test]
fn push_row_appends_and_keep_rows_cuts_back() {
    let mut rows = Vec::new();
    push_row(&mut rows, vec![cell(1)]);
    push_row(&mut rows, vec![cell(2), cell(3)]);
    assert_eq!(rows, vec![Row::new(vec![cell(1)]), Row::new(vec![cell(2), cell(3)])]);
    keep_rows(&mut rows, 2);
    assert_eq!(rows.len(), 2);
    keep_rows(&mut rows, 7);
    assert_eq!(rows.len(), 2);
    keep_rows(&mut rows, 1);
    assert_eq!(rows, vec![Row::new(vec![cell(1)])]);
    keep_rows(&mut rows, 0);
    assert!(rows.is_empty());
}

#[test]
fn rows_of_positive_spans_can_be_rendered() {
    assert!(can_render(&Vec::new()));
    assert!(can_render(&vec![Row::new(Vec::new())]));
    assert!(can_render(&vec![Row::new(vec![cell(1), cell(6)]), Row::new(vec![cell(2)])]));
}

#[test]
fn a_cell_without_span_cannot_be_rendered() {
    assert!(!can_render(&vec![Row::new(vec![cell(0)])]));
    assert!(!can_render(&vec![Row::new(vec![cell(1)]), Row::new(vec![cell(1), cell(0)])]));
}

#[test]
fn spans_beyond_counting_cannot_be_rendered() {
    assert!(!can_render(&vec![Row::new(vec![cell(usize::MAX), cell(1)])]));
    assert!(!can_render(&vec![Row::new(vec![cell(usize::MAX / 2 + 1), cell(usize::MAX / 2 + 1)])]));
}

#[test]
fn a_row_may_be_shorter_than_the_grid() {
    let rows = vec![Row::new(vec![cell(1), cell(1), cell(1)]), Row::new(vec![cell(1)])];
    assert!(can_render(&rows));
    assert_eq!(
        render(&rows, 42),
        "+---+---+---+\n| x | x | x |\n+---+---+---+\n| x |   |   |\n+---+---+---+\n"
    );
}

#[test]
fn a_row_without_cells_is_an_empty_line_of_the_grid() {
    let rows = vec![Row::new(vec![cell(1)]), Row::new(Vec::new())];
    assert!(can_render(&rows));
    let text = render(&rows, 42);
    assert!(text.starts_with("+---+\n| x |\n+---+\n"));
    assert!(text.ends_with("+---+\n"));
}
