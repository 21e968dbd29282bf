//! Makes it easier to print text-based tables with lined-up columns.

use vstd::prelude::*;
use vstd::string::StringExecFns;
use vstd::string::StrSliceExecFns;
use vstd::utf8::encode_utf8;

use crate::utils::text_views;

verus! {

/// A table of texts: a header, a line under it, and the rows that were added.
pub struct Table {
    pub rows: Vec<Vec<String>>,
    pub num_columns: usize,
}

/// The texts of the cells of a list of rows, row by row.
pub open spec fn row_views(rows: Seq<Vec<String>>) -> Seq<Seq<Seq<char>>> {
    rows.map_values(|row: Vec<String>| text_views(row@))
}

impl View for Table {
    type V = Seq<Seq<Seq<char>>>;

    open spec fn view(&self) -> Seq<Seq<Seq<char>>> {
        row_views(self.rows@)
    }
}

/// The number of bytes that a text takes, as far as the machine can count them.
pub open spec fn byte_len(text: Seq<char>) -> usize {
    encode_utf8(text).len() as usize
}

/// A line of `width` equals signs.
pub open spec fn underline(width: nat) -> Seq<char> {
    Seq::new(width, |i: int| '=')
}

/// The lines under the given header texts: each as wide as the header text has bytes.
pub open spec fn underlines(header: Seq<Seq<char>>) -> Seq<Seq<char>> {
    header.map_values(|title: Seq<char>| underline(byte_len(title) as nat))
}

/// The width of the widest cell in the given column of the first `upto` rows, in bytes.
pub open spec fn widest(rows: Seq<Seq<Seq<char>>>, column: int, upto: int) -> usize
    decreases upto,
{
    if upto <= 0 {
        0
    } else {
        let before = widest(rows, column, upto - 1);
        let here = byte_len(rows[upto - 1][column]);
        if here > before {
            here
        } else {
            before
        }
    }
}

/// The width of a column whose widest cell has `widest` bytes: `column_spacing` more, or the
/// largest number that the machine holds if that is less.
pub open spec fn column_width(widest: usize, column_spacing: u32) -> usize {
    if widest + column_spacing > usize::MAX {
        usize::MAX
    } else {
        (widest + column_spacing) as usize
    }
}

/// The widths of the columns of a table.
pub open spec fn widths_of(rows: Seq<Seq<Seq<char>>>, num_columns: usize, column_spacing: u32) -> Seq<usize> {
    Seq::new(
        num_columns as nat,
        |column: int| column_width(widest(rows, column, rows.len() as int), column_spacing),
    )
}

/// A line of `width` blanks.
pub open spec fn blanks(width: nat) -> Seq<char> {
    Seq::new(width, |i: int| ' ')
}

/// A cell as it is printed in a column of the given width: the text, and blanks up to the width
/// if the text has fewer characters.
pub open spec fn padded(cell: Seq<char>, width: usize) -> Seq<char> {
    if cell.len() < width {
        cell + blanks((width - cell.len()) as nat)
    } else {
        cell
    }
}

/// The first `upto` cells of a row as they are printed, one behind the other.
pub open spec fn cells_text(row: Seq<Seq<char>>, widths: Seq<usize>, upto: int) -> Seq<char>
    decreases upto,
{
    if upto <= 0 {
        Seq::empty()
    } else {
        cells_text(row, widths, upto - 1) + padded(row[upto - 1], widths[upto - 1])
    }
}

/// The first `upto` rows as they are printed: each as a line that starts with the prefix.
pub open spec fn rows_text(rows: Seq<Seq<Seq<char>>>, widths: Seq<usize>, prefix: Seq<char>, upto: int) -> Seq<
    char,
>
    decreases upto,
{
    if upto <= 0 {
        Seq::empty()
    } else {
        rows_text(rows, widths, prefix, upto - 1) + prefix + cells_text(
            rows[upto - 1],
            widths,
            rows[upto - 1].len() as int,
        ) + "\n"@
    }
}

/// A table as it is printed: each row as a line that starts with the prefix, with each cell filled
/// up with blanks to the width of its column.
pub open spec fn table_text(rows: Seq<Seq<Seq<char>>>, prefix: Seq<char>, column_spacing: u32) -> Seq<char> {
    let num_columns = if rows.len() > 0 {
        rows.first().len() as usize
    } else {
        0
    };
    rows_text(rows, widths_of(rows, num_columns, column_spacing), prefix, rows.len() as int)
}

impl Table {
    /// Every row has as many cells as the table has columns, and the header and the line under it
    /// are there.
    pub open spec fn wf(&self) -> bool {
        &&& self.rows@.len() >= 2
        &&& forall|row: int| 0 <= row < self.rows@.len() ==> (#[trigger] self.rows@[row])@.len() == self.num_columns
    }

    /// Creates a new [`Table`]. Each column has the given header text, and under it a line of equals
    /// signs that is as wide as the header text has bytes.
    pub fn new(header: Vec<String>) -> (table: Table)
        ensures
            table.wf(),
            table.num_columns == header@.len(),
            table@ == seq![text_views(header@), underlines(text_views(header@))],
    {
        let num_columns: usize = header.len();
        let mut lines: Vec<String> = Vec::new();
        let mut column: usize = 0;
        while column < header.len()
            invariant
                column <= header@.len(),
                lines@.len() == column,
                forall|k: int| 0 <= k < column ==> (#[trigger] lines@[k])@ == underline(byte_len(header@[k]@) as nat),
            decreases header@.len() - column,
        {
            let width: usize = header[column].as_str().len();
            let mut line = String::new();
            let mut i: usize = 0;
            while i < width
                invariant
                    i <= width,
                    line@ == underline(i as nat),
                decreases width - i,
            {
                proof {
                    reveal_strlit("=");
                }
                line.append("=");
                assert(line@ =~= underline((i + 1) as nat));
                i = i + 1;
            }
            lines.push(line);
            column = column + 1;
        }
        assert(text_views(lines@) =~= underlines(text_views(header@)));
        let mut rows: Vec<Vec<String>> = Vec::new();
        rows.push(header);
        rows.push(lines);
        let table = Table { rows, num_columns };
        assert(table@ =~= seq![text_views(header@), underlines(text_views(header@))]);
        table
    }

    /// Adds a new row, which has to have a cell for each column.
    pub fn add(&mut self, row: Vec<String>)
        requires
            old(self).wf(),
            row@.len() == old(self).num_columns,
        ensures
            final(self).wf(),
            final(self).num_columns == old(self).num_columns,
            final(self)@ == old(self)@.push(text_views(row@)),
    {
        self.rows.push(row);
        assert(self@ =~= old(self)@.push(text_views(row@)));
    }

    /// Returns the width at which each column is printed: the bytes of its widest cell, and
    /// `column_spacing` more, or the largest number that the machine holds if that is less.
    pub fn column_widths(&self, column_spacing: u32) -> (widths: Vec<usize>)
        requires
            self.wf(),
        ensures
            widths@ == widths_of(self@, self.num_columns, column_spacing),
    {
        let mut widths: Vec<usize> = Vec::new();
        let mut column: usize = 0;
        while column < self.num_columns
            invariant
                column <= self.num_columns,
                self.wf(),
                widths@.len() == column,
                forall|k: int|
                    0 <= k < column ==> #[trigger] widths@[k] == column_width(
                        widest(self@, k, self@.len() as int),
                        column_spacing,
                    ),
            decreases self.num_columns - column,
        {
            let mut width: usize = 0;
            let mut row: usize = 0;
            while row < self.rows.len()
                invariant
                    row <= self.rows@.len(),
                    column < self.num_columns,
                    self.wf(),
                    width == widest(self@, column as int, row as int),
                decreases self.rows@.len() - row,
            {
                assert(self.rows@[row as int]@.len() == self.num_columns);
                assert(self@[row as int][column as int] == self.rows@[row as int]@[column as int]@);
                let here: usize = self.rows[row][column].as_str().len();
                if here > width {
                    width = here;
                }
                row = row + 1;
            }
            widths.push(width.saturating_add(column_spacing as usize));
            column = column + 1;
        }
        assert(widths@ =~= widths_of(self@, self.num_columns, column_spacing));
        widths
    }

    /// Returns the table as it is printed: each row as a line that starts with the given prefix,
    /// with each cell filled up with blanks to the width of its column. See [`table_text`] and
    /// [`Table::column_widths`].
    pub fn print(&self, prefix: &str, column_spacing: u32) -> (text: String)
        requires
            self.wf(),
        ensures
            text@ == table_text(self@, prefix@, column_spacing),
    {
        let widths = self.column_widths(column_spacing);
        let mut text = String::new();
        let mut row: usize = 0;
        assert(self@.first().len() == self.num_columns) by {
            assert(self@[0] == text_views(self.rows@[0]@));
        }
        while row < self.rows.len()
            invariant
                row <= self.rows@.len(),
                self.wf(),
                widths@.len() == self.num_columns,
                text@ == rows_text(self@, widths@, prefix@, row as int),
            decreases self.rows@.len() - row,
        {
            let ghost before = text@;
            assert(self.rows@[row as int]@.len() == self.num_columns);
            assert(self@[row as int] == text_views(self.rows@[row as int]@));
            text.append(prefix);
            let cells = &self.rows[row];
            let mut column: usize = 0;
            while column < cells.len()
                invariant
                    column <= cells@.len(),
                    cells@.len() == widths@.len(),
                    text@ == before + prefix@ + cells_text(text_views(cells@), widths@, column as int),
                decreases cells@.len() - column,
            {
                let ghost so_far = text@;
                let cell = cells[column].as_str();
                text.append(cell);
                let length: usize = cell.unicode_len();
                let width: usize = widths[column];
                if length < width {
                    let mut i: usize = 0;
                    while i < width - length
                        invariant
                            i <= width - length,
                            length < width,
                            text@ == so_far + cell@ + blanks(i as nat),
                        decreases width - length - i,
                    {
                        proof {
                            reveal_strlit(" ");
                        }
                        text.append(" ");
                        assert(text@ =~= so_far + cell@ + blanks((i + 1) as nat));
                        i = i + 1;
                    }
                } else {
                    assert(text@ =~= so_far + cell@ + blanks(0));
                }
                assert(text_views(cells@)[column as int] == cell@);
                assert(text@ =~= before + prefix@ + cells_text(text_views(cells@), widths@, column + 1));
                column = column + 1;
            }
            text.append("\n");
            row = row + 1;
        }
        text
    }
}

} // verus!
