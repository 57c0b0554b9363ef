//! The cell model of the text grid: rows of cells, each cell a run of styled
//! text with a column span and an alignment.

use vstd::prelude::*;
use vstd::string::*;
use crate::error::FormatError;

verus! {

/// How a cell's text is placed within its columns.
#[derive(Clone, Copy, Debug, PartialEq, Eq, Structural)]
pub enum Alignment {
    Left,
    Right,
    Center,
}

/// The role a piece of text plays in the report; the renderer decides how
/// each role looks.
#[derive(Clone, Copy, Debug, PartialEq, Eq, Structural)]
pub enum Style {
    /// Ordinary data.
    Plain,
    /// A column label or a place name.
    Label,
    /// A date or a time of measurement.
    Stamp,
    /// The title of a section.
    Title,
    /// The banner above the upcoming days.
    Banner,
    /// A reading that is set off from the text around it.
    Reading,
}

/// A run of text in one style.
#[derive(Clone, Debug, PartialEq, Eq)]
pub struct Segment {
    pub text: String,
    pub style: Style,
}

/// A cell of the grid.
#[derive(Clone, Debug, PartialEq, Eq)]
pub struct Cell {
    pub content: Vec<Segment>,
    pub span: usize,
    pub align: Alignment,
}

/// A row of the grid.
#[derive(Clone, Debug, PartialEq, Eq)]
pub struct Row {
    pub cells: Vec<Cell>,
}

/// The mathematical value of a [`Segment`].
pub struct SegmentView {
    pub text: Seq<char>,
    pub style: Style,
}

/// The mathematical value of a [`Cell`].
pub struct CellView {
    pub content: Seq<SegmentView>,
    pub span: nat,
    pub align: Alignment,
}

impl View for Segment {
    type V = SegmentView;

    open spec fn view(&self) -> SegmentView {
        SegmentView { text: self.text@, style: self.style }
    }
}

impl View for Cell {
    type V = CellView;

    open spec fn view(&self) -> CellView {
        CellView {
            content: Seq::new(self.content@.len(), |i: int| self.content@[i]@),
            span: self.span as nat,
            align: self.align,
        }
    }
}

impl View for Row {
    type V = Seq<CellView>;

    open spec fn view(&self) -> Seq<CellView> {
        Seq::new(self.cells@.len(), |i: int| self.cells@[i]@)
    }
}

/// The mathematical values of a sequence of cells: the value of the row that
/// they make up.
pub open spec fn cells_view(cells: Seq<Cell>) -> Seq<CellView> {
    Seq::new(cells.len(), |i: int| cells[i]@)
}

/// The mathematical value of a sequence of rows.
pub open spec fn rows_view(rows: Seq<Row>) -> Seq<Seq<CellView>> {
    Seq::new(rows.len(), |i: int| rows[i]@)
}

/// The number of columns of the whole report.
pub const FULL_WIDTH: usize = 6;

/// One run of text.
pub open spec fn run(text: Seq<char>, style: Style) -> SegmentView {
    SegmentView { text, style }
}

/// A centered cell of one column holding `content`.
pub open spec fn centered(content: Seq<SegmentView>) -> CellView {
    CellView { content, span: 1, align: Alignment::Center }
}

/// A centered cell across the full width holding `content`.
pub open spec fn full_width(content: Seq<SegmentView>) -> CellView {
    CellView { content, span: FULL_WIDTH as nat, align: Alignment::Center }
}

/// A centered one-column cell with a column label.
pub open spec fn label(text: Seq<char>) -> CellView {
    centered(seq![run(text, Style::Label)])
}

/// A centered one-column cell with a plain value.
pub open spec fn datum(text: Seq<char>) -> CellView {
    centered(seq![run(text, Style::Plain)])
}

/// The one row of a step that appends one row.
pub open spec fn one_row(row: Result<Seq<CellView>, FormatError>) -> Result<
    Seq<Seq<CellView>>,
    FormatError,
> {
    match row {
        Ok(cells) => Ok(seq![cells]),
        Err(e) => Err(e),
    }
}

/// What a step of the assembly leaves in `after` where it was given
/// `before`: on success the rows `wanted` appended, on refusal the rows as
/// they were, with the error that `wanted` names.
pub open spec fn appended(
    before: Seq<Row>,
    after: Seq<Row>,
    done: Result<(), FormatError>,
    wanted: Result<Seq<Seq<CellView>>, FormatError>,
) -> bool {
    match done {
        Ok(()) => wanted matches Ok(rows) && rows_view(after) == rows_view(before) + rows,
        Err(e) => wanted == Err::<Seq<Seq<CellView>>, FormatError>(e) && rows_view(after)
            == rows_view(before),
    }
}

impl Row {
    /// The row made of `cells`.
    pub fn new(cells: Vec<Cell>) -> (row: Row)
        ensures
            row.cells == cells,
            row@ == cells_view(cells@),
    {
        let row = Row { cells };
        assert(row@ =~= cells_view(row.cells@));
        row
    }
}

/// Appends the row made of `cells` to `rows`.
pub fn push_row(rows: &mut Vec<Row>, cells: Vec<Cell>)
    ensures
        final(rows)@.len() == old(rows)@.len() + 1,
        final(rows)@.subrange(0, old(rows)@.len() as int) == old(rows)@,
        rows_view(final(rows)@) == rows_view(old(rows)@).push(cells_view(cells@)),
{
    rows.push(Row::new(cells));
    assert(rows@.subrange(0, old(rows)@.len() as int) =~= old(rows)@);
    assert(rows_view(rows@) =~= rows_view(old(rows)@).push(cells_view(cells@)));
}

/// Cuts `rows` back to its first `len` rows; fewer rows than `len` stay as
/// they are.
pub fn keep_rows(rows: &mut Vec<Row>, len: usize)
    ensures
        len <= old(rows)@.len() ==> final(rows)@ == old(rows)@.take(len as int) && rows_view(
            final(rows)@,
        ) == rows_view(old(rows)@).take(len as int),
        len > old(rows)@.len() ==> final(rows)@ == old(rows)@,
{
    rows.truncate(len);
    if len <= rows.len() {
        assert(rows@ =~= old(rows)@.take(len as int));
        assert(rows_view(rows@) =~= rows_view(old(rows)@).take(len as int));
    }
}

impl Segment {
    /// A run of `text` in `style`.
    pub fn new(text: String, style: Style) -> (segment: Segment)
        ensures
            segment@ == run(text@, style),
    {
        Segment { text, style }
    }
}

impl Cell {
    /// A centered cell of one column.
    pub fn centered(content: Vec<Segment>) -> (cell: Cell)
        ensures
            cell.content == content,
            cell.span == 1,
            cell.align == Alignment::Center,
    {
        Cell { content, span: 1, align: Alignment::Center }
    }

    /// A centered cell across the full width.
    pub fn full_width(content: Vec<Segment>) -> (cell: Cell)
        ensures
            cell.content == content,
            cell.span == FULL_WIDTH,
            cell.align == Alignment::Center,
    {
        Cell { content, span: FULL_WIDTH, align: Alignment::Center }
    }

    /// A centered one-column cell with a column label.
    pub fn label(text: &str) -> (cell: Cell)
        ensures
            cell@ == label(text@),
    {
        let cell = Cell::centered(vec![Segment::new(String::from_str(text), Style::Label)]);
        assert(cell@.content =~= seq![run(text@, Style::Label)]);
        cell
    }

    /// A centered one-column cell with a plain value.
    pub fn datum(text: String) -> (cell: Cell)
        ensures
            cell@ == datum(text@),
    {
        let cell = Cell::centered(vec![Segment::new(text, Style::Plain)]);
        assert(cell@.content =~= seq![run(text@, Style::Plain)]);
        cell
    }
}

} // verus!
