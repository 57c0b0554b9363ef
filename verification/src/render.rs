//! The grid renderer: rows of styled cells are painted with terminal escape
//! sequences and laid out as a bordered text grid.

use vstd::prelude::*;
use vstd::string::*;
use term_table::row::Row as TableRow;
use term_table::table_cell::Alignment as TableAlignment;
use term_table::table_cell::TableCell;
use text_colorizer::Colorize;
use crate::grid::{rows_view, Alignment, Cell, CellView, Row, Segment, SegmentView, Style};

verus! {

/// A cell as the grid is given it: its text with the escape sequences of its
/// styles in it, its span and its alignment.
#[derive(Clone, Debug, PartialEq, Eq)]
pub struct Painted {
    pub text: String,
    pub span: usize,
    pub align: Alignment,
}

/// The mathematical value of a [`Painted`] cell.
pub struct GridCell {
    pub text: Seq<char>,
    pub span: nat,
    pub align: Alignment,
}

impl View for Painted {
    type V = GridCell;

    open spec fn view(&self) -> GridCell {
        GridCell { text: self.text@, span: self.span as nat, align: self.align }
    }
}

/// What a colored string writes for `text` under the display attributes
/// `code` (such as `1;35` for bold magenta) while coloring is switched on.
pub uninterp spec fn ansi_styled(code: Seq<char>, text: Seq<char>) -> Seq<char>;

/// The text of the bordered grid that a table in the simple style (`+`, `-`
/// and `|`) writes for `rows` when the text of its cells wraps at `limit`.
pub uninterp spec fn grid_text(rows: Seq<Seq<GridCell>>, limit: nat) -> Seq<char>;

/// Whether `text` holds the escape character.
pub open spec fn has_escape(text: Seq<char>) -> bool {
    text.contains('\x1b')
}

/// `text` between the sequence that switches the attributes `code` on and
/// the sequence that resets them.
pub open spec fn framed(code: Seq<char>, text: Seq<char>) -> Seq<char> {
    "\x1b["@ + code + "m"@ + text + "\x1b[0m"@
}

/// The display attributes of a style: none for plain text.
pub open spec fn style_code(style: Style) -> Option<Seq<char>> {
    match style {
        Style::Plain => None,
        Style::Label => Some("1"@),
        Style::Stamp => Some("1;35"@),
        Style::Title => Some("1;32"@),
        Style::Banner => Some("1;33"@),
        Style::Reading => Some("32"@),
    }
}

/// A run of text as it is painted: plain text as it is, styled text between
/// the sequence that switches the attributes of its style on and the reset
/// sequence. Styled text that itself holds the escape character is painted
/// as a colored string writes it.
pub open spec fn painted_run(segment: SegmentView) -> Seq<char> {
    match style_code(segment.style) {
        None => segment.text,
        Some(code) => if has_escape(segment.text) {
            ansi_styled(code, segment.text)
        } else {
            framed(code, segment.text)
        },
    }
}

/// The runs of a cell painted and written one after another.
pub open spec fn painted_text(content: Seq<SegmentView>) -> Seq<char>
    decreases content.len(),
{
    if content.len() == 0 {
        Seq::empty()
    } else {
        painted_text(content.drop_last()) + painted_run(content.last())
    }
}

/// A cell as the grid is given it.
pub open spec fn painted_cell(cell: CellView) -> GridCell {
    GridCell { text: painted_text(cell.content), span: cell.span, align: cell.align }
}

/// A row as the grid is given it.
pub open spec fn painted_row(row: Seq<CellView>) -> Seq<GridCell> {
    Seq::new(row.len(), |c: int| painted_cell(row[c]))
}

/// Rows as the grid is given them.
pub open spec fn painted_rows(rows: Seq<Seq<CellView>>) -> Seq<Seq<GridCell>> {
    Seq::new(rows.len(), |r: int| painted_row(rows[r]))
}

/// The number of columns that the cells of a row span together.
pub open spec fn total_span(spans: Seq<nat>) -> nat
    decreases spans.len(),
{
    if spans.len() == 0 {
        0
    } else {
        total_span(spans.drop_last()) + spans.last()
    }
}

/// The spans of the cells of a row.
pub open spec fn spans_of(row: Seq<CellView>) -> Seq<nat> {
    Seq::new(row.len(), |c: int| row[c].span)
}

/// The number of columns of the grid of `rows`: the largest number of columns
/// that the cells of one row span together.
pub open spec fn column_count(rows: Seq<Seq<CellView>>) -> nat
    decreases rows.len(),
{
    if rows.len() == 0 {
        0
    } else {
        let before = column_count(rows.drop_last());
        let last = total_span(spans_of(rows.last()));
        if before >= last {
            before
        } else {
            last
        }
    }
}

/// No row spans more columns than the grid has, and where there is a row,
/// one row spans them all.
pub proof fn lemma_column_count(rows: Seq<Seq<CellView>>)
    ensures
        forall|r: int|
            0 <= r < rows.len() ==> total_span(spans_of(#[trigger] rows[r])) <= column_count(rows),
        rows.len() > 0 ==> exists|r: int|
            0 <= r < rows.len() && total_span(spans_of(#[trigger] rows[r])) == column_count(rows),
    decreases rows.len(),
{
    if rows.len() > 0 {
        let front = rows.drop_last();
        lemma_column_count(front);
        assert forall|r: int| 0 <= r < rows.len() implies total_span(spans_of(#[trigger] rows[r]))
            <= column_count(rows) by {
            if r < front.len() {
                assert(front[r] == rows[r]);
            }
        }
        if column_count(front) >= total_span(spans_of(rows.last())) && front.len() > 0 {
            let r = choose|r: int|
                0 <= r < front.len() && total_span(spans_of(#[trigger] front[r])) == column_count(
                    front,
                );
            assert(front[r] == rows[r]);
        } else {
            assert(rows[rows.len() - 1] == rows.last());
        }
    }
}

/// Whether `rows` can be laid out: every cell spans at least one column, and
/// the columns of each row can be counted in a `usize`.
pub open spec fn layable(rows: Seq<Seq<CellView>>) -> bool {
    &&& forall|r: int, c: int|
        0 <= r < rows.len() && 0 <= c < rows[r].len() ==> (#[trigger] rows[r][c]).span >= 1
    &&& forall|r: int| 0 <= r < rows.len() ==> total_span(spans_of(#[trigger] rows[r])) <= usize::MAX
}

/// The values of painted rows.
pub open spec fn grid_view(rows: Seq<Vec<Painted>>) -> Seq<Seq<GridCell>> {
    Seq::new(rows.len(), |r: int| Seq::new(rows[r]@.len(), |c: int| rows[r]@[c]@))
}

/// The spans of the cells of a painted row.
pub open spec fn grid_spans(row: Seq<GridCell>) -> Seq<nat> {
    Seq::new(row.len(), |c: int| row[c].span)
}

/// text_colorizer's `Colorize::bold` on a `&str` (the crate hands on the
/// items of `colored`), written out through `Display` after
/// `control::set_override(true)` has switched coloring on, so that neither
/// the terminal nor a variable of the process decides. The result is the
/// sequence for the attribute `1`, the text, and the reset sequence; a text
/// that itself holds reset sequences has the attribute switched on again
/// behind each.
#[verifier::external_body]
fn paint_bold(text: &str) -> (out: String)
    ensures
        out@ == ansi_styled("1"@, text@),
        !has_escape(text@) ==> out@ == framed("1"@, text@),
{
    text_colorizer::control::set_override(true);
    text.bold().to_string()
}

/// text_colorizer's `Colorize::purple` and `Colorize::bold`, written out as
/// in [`paint_bold`]: the attributes are `1;35`.
#[verifier::external_body]
fn paint_purple_bold(text: &str) -> (out: String)
    ensures
        out@ == ansi_styled("1;35"@, text@),
        !has_escape(text@) ==> out@ == framed("1;35"@, text@),
{
    text_colorizer::control::set_override(true);
    text.purple().bold().to_string()
}

/// text_colorizer's `Colorize::green` and `Colorize::bold`, written out as
/// in [`paint_bold`]: the attributes are `1;32`.
#[verifier::external_body]
fn paint_green_bold(text: &str) -> (out: String)
    ensures
        out@ == ansi_styled("1;32"@, text@),
        !has_escape(text@) ==> out@ == framed("1;32"@, text@),
{
    text_colorizer::control::set_override(true);
    text.green().bold().to_string()
}

/// text_colorizer's `Colorize::yellow` and `Colorize::bold`, written out as
/// in [`paint_bold`]: the attributes are `1;33`.
#[verifier::external_body]
fn paint_yellow_bold(text: &str) -> (out: String)
    ensures
        out@ == ansi_styled("1;33"@, text@),
        !has_escape(text@) ==> out@ == framed("1;33"@, text@),
{
    text_colorizer::control::set_override(true);
    text.yellow().bold().to_string()
}

/// text_colorizer's `Colorize::green`, written out as in [`paint_bold`]: the
/// attribute is `32`.
#[verifier::external_body]
fn paint_green(text: &str) -> (out: String)
    ensures
        out@ == ansi_styled("32"@, text@),
        !has_escape(text@) ==> out@ == framed("32"@, text@),
{
    text_colorizer::control::set_override(true);
    text.green().to_string()
}

/// term_table's `Table::render` on a table in `TableStyle::simple()` whose
/// `max_column_width` is `limit` and whose rows are `rows`, each cell made by
/// `TableCell::new_with_alignment`. The table computes its column widths,
/// wraps and pads the cells and draws the borders; it indexes its columns by
/// the spans of the cells, so every span must be at least one and the spans
/// of a row must add up within `usize`. A table without rows writes nothing.
#[verifier::external_body]
fn render_table(rows: &Vec<Vec<Painted>>, limit: usize) -> (out: String)
    requires
        forall|r: int, c: int|
            0 <= r < rows@.len() && 0 <= c < rows@[r]@.len() ==> (#[trigger] rows@[r]@[c]).span
                >= 1,
        forall|r: int|
            0 <= r < rows@.len() ==> total_span(grid_spans(#[trigger] grid_view(rows@)[r]))
                <= usize::MAX,
    ensures
        out@ == grid_text(grid_view(rows@), limit as nat),
        rows@.len() == 0 ==> out@.len() == 0,
{
    let mut table = term_table::Table::new();
    table.max_column_width = limit;
    table.style = term_table::TableStyle::simple();
    for row in rows.iter() {
        let mut cells = Vec::new();
        for cell in row.iter() {
            cells.push(TableCell::new_with_alignment(cell.text.as_str(), cell.span, match cell.align {
                Alignment::Left => TableAlignment::Left,
                Alignment::Right => TableAlignment::Right,
                Alignment::Center => TableAlignment::Center,
            }));
        }
        table.add_row(TableRow::new(cells));
    }
    table.render()
}

/// The spans of a row add up to no less than those of its first cells.
pub proof fn lemma_total_span_grows(spans: Seq<nat>, n: int)
    requires
        0 <= n <= spans.len(),
    ensures
        total_span(spans.take(n)) <= total_span(spans),
    decreases spans.len(),
{
    if n == spans.len() {
        assert(spans.take(n) =~= spans);
    } else {
        assert(spans.drop_last().take(n) =~= spans.take(n));
        lemma_total_span_grows(spans.drop_last(), n);
    }
}

/// Whether the cells of `row` span at least one column each and a number of
/// columns together that a `usize` holds.
fn row_can_render(row: &Row) -> (yes: bool)
    ensures
        yes == ((forall|c: int| 0 <= c < row@.len() ==> (#[trigger] row@[c]).span >= 1)
            && total_span(spans_of(row@)) <= usize::MAX),
{
    let mut total: usize = 0;
    let mut i: usize = 0;
    assert(spans_of(row@).take(0) =~= Seq::<nat>::empty());
    while i < row.cells.len()
        invariant
            i <= row.cells.len(),
            row@.len() == row.cells.len(),
            forall|c: int| 0 <= c < i ==> (#[trigger] row@[c]).span >= 1,
            total == total_span(spans_of(row@).take(i as int)),
        decreases row.cells.len() - i,
    {
        let span = row.cells[i].span;
        let ghost seen = spans_of(row@).take(i as int + 1);
        assert(seen.drop_last() =~= spans_of(row@).take(i as int));
        assert(seen.last() == span);
        assert(row@[i as int].span == span);
        if span < 1 {
            return false;
        }
        match total.checked_add(span) {
            None => {
                proof {
                    lemma_total_span_grows(spans_of(row@), i as int + 1);
                }
                return false;
            },
            Some(sum) => {
                total = sum;
            },
        }
        i = i + 1;
    }
    assert(spans_of(row@).take(i as int) =~= spans_of(row@));
    true
}

/// Whether `rows` can be laid out; see [`layable`].
pub fn can_render(rows: &Vec<Row>) -> (yes: bool)
    ensures
        yes == layable(rows_view(rows@)),
{
    let mut i: usize = 0;
    while i < rows.len()
        invariant
            i <= rows.len(),
            layable(rows_view(rows@).take(i as int)),
        decreases rows.len() - i,
    {
        if !row_can_render(&rows[i]) {
            assert(rows_view(rows@)[i as int] == rows@[i as int]@);
            return false;
        }
        proof {
            let seen = rows_view(rows@).take(i as int + 1);
            assert forall|r: int, c: int|
                0 <= r < seen.len() && 0 <= c < seen[r].len() implies (#[trigger] seen[r][c]).span
                >= 1 by {
                if r < i {
                    assert(rows_view(rows@).take(i as int)[r] == seen[r]);
                }
            }
            assert forall|r: int| 0 <= r < seen.len() implies total_span(
                spans_of(#[trigger] seen[r]),
            ) <= usize::MAX by {
                if r < i {
                    assert(rows_view(rows@).take(i as int)[r] == seen[r]);
                }
            }
        }
        i = i + 1;
    }
    assert(rows_view(rows@).take(i as int) =~= rows_view(rows@));
    true
}

/// Paints one run of text.
fn paint_segment(segment: &Segment) -> (out: String)
    ensures
        out@ == painted_run(segment@),
{
    match segment.style {
        Style::Plain => segment.text.clone(),
        Style::Label => paint_bold(segment.text.as_str()),
        Style::Stamp => paint_purple_bold(segment.text.as_str()),
        Style::Title => paint_green_bold(segment.text.as_str()),
        Style::Banner => paint_yellow_bold(segment.text.as_str()),
        Style::Reading => paint_green(segment.text.as_str()),
    }
}

/// Paints the runs of a cell and writes them one after another.
pub fn paint_cell(cell: &Cell) -> (out: Painted)
    ensures
        out@ == painted_cell(cell@),
{
    let mut text = String::new();
    let mut i: usize = 0;
    assert(cell@.content.take(0) =~= Seq::<SegmentView>::empty());
    while i < cell.content.len()
        invariant
            i <= cell.content.len(),
            text@ == painted_text(cell@.content.take(i as int)),
        decreases cell.content.len() - i,
    {
        let ghost seen = cell@.content.take(i as int + 1);
        assert(seen.drop_last() =~= cell@.content.take(i as int));
        assert(seen.last() == cell.content@[i as int]@);
        let piece = paint_segment(&cell.content[i]);
        text.append(piece.as_str());
        i = i + 1;
    }
    assert(cell@.content.take(i as int) =~= cell@.content);
    Painted { text, span: cell.span, align: cell.align }
}

/// Paints the cells of a row.
pub fn paint_row(row: &Row) -> (out: Vec<Painted>)
    ensures
        out@.len() == row@.len(),
        forall|c: int| 0 <= c < out@.len() ==> (#[trigger] out@[c])@ == painted_cell(row@[c]),
{
    let mut out: Vec<Painted> = Vec::new();
    let mut i: usize = 0;
    while i < row.cells.len()
        invariant
            i <= row.cells.len(),
            out@.len() == i,
            forall|c: int| 0 <= c < i ==> (#[trigger] out@[c])@ == painted_cell(row@[c]),
        decreases row.cells.len() - i,
    {
        out.push(paint_cell(&row.cells[i]));
        i = i + 1;
    }
    out
}

/// Lays `rows` out as a bordered text grid: the number of columns is the
/// largest number that the cells of a row span together, a cell wider than
/// `max_cell_width` is wrapped, cells are aligned as they say and padded to
/// the height of their row, and a separator line stands above, between and
/// below the rows. The text is a function of the rows and the width alone.
pub fn render(rows: &Vec<Row>, max_cell_width: usize) -> (text: String)
    requires
        layable(rows_view(rows@)),
    ensures
        text@ == grid_text(painted_rows(rows_view(rows@)), max_cell_width as nat),
        rows@.len() == 0 ==> text@.len() == 0,
{
    let mut painted: Vec<Vec<Painted>> = Vec::new();
    let mut i: usize = 0;
    while i < rows.len()
        invariant
            i <= rows.len(),
            painted@.len() == i,
            forall|r: int|
                0 <= r < i ==> (#[trigger] grid_view(painted@)[r]) == painted_row(
                    rows_view(rows@)[r],
                ),
        decreases rows.len() - i,
    {
        let row = paint_row(&rows[i]);
        assert(grid_view(painted@.push(row))[i as int] =~= painted_row(rows_view(rows@)[i as int]));
        let ghost before = grid_view(painted@);
        painted.push(row);
        assert forall|r: int| 0 <= r < i + 1 implies (#[trigger] grid_view(painted@)[r])
            == painted_row(rows_view(rows@)[r]) by {
            if r < i {
                assert(grid_view(painted@)[r] =~= before[r]);
            }
        }
        i = i + 1;
    }
    proof {
        assert(grid_view(painted@) =~= painted_rows(rows_view(rows@)));
        assert forall|r: int, c: int|
            0 <= r < painted@.len() && 0 <= c < painted@[r]@.len() implies (
        #[trigger] painted@[r]@[c]).span >= 1 by {
            let given = rows_view(rows@)[r];
            assert(grid_view(painted@)[r].len() == painted@[r]@.len());
            assert(painted_row(given).len() == given.len());
            assert(grid_view(painted@)[r][c] == painted@[r]@[c]@);
            assert(painted_row(given)[c] == painted_cell(given[c]));
            assert(given[c].span >= 1);
        }
        assert forall|r: int| 0 <= r < painted@.len() implies total_span(
            grid_spans(#[trigger] grid_view(painted@)[r]),
        ) <= usize::MAX by {
            assert(grid_spans(grid_view(painted@)[r]) =~= spans_of(rows_view(rows@)[r]));
        }
    }
    render_table(&painted, max_cell_width)
}

} // verus!
