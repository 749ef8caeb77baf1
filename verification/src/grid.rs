//! The letter grid of the clock face.
//!
//! The first ten rows hold the letters that form the words, the eleventh row
//! shows the minutes that have passed since the last multiple of five. Cells
//! are counted row by row, from the top left.

use vstd::prelude::*;

verus! {

pub const MAX_COLUMNS: usize = 11;

pub const MAX_ROWS: usize = 11;

/// Number of cells of the grid.
pub const GRID_CELLS: usize = MAX_COLUMNS * MAX_ROWS;

/// The row that shows the minute ticks.
pub const TICK_ROW: usize = 10;

/// Most minute ticks that can be lit at once.
pub const MAX_TICKS: usize = 4;

/// The face in the Swiss German of Bern, one string for each row.
pub const CH_BERN_GRID: [&'static str; MAX_ROWS] = [
    "ESKISCHAFÜF",
    "VIERTUBFZÄÄ",
    "ZWÄNZGSIVOR",
    "ABOHAUBIEPM",
    "EISZWOISDRÜ",
    "VIERFÜNFIQT",
    "SECHSISIBNI",
    "ACHTINÜNIEL",
    "ZÄNIERBEUFI",
    "ZWÖUFIAMUHR",
    "   ****    ",
];

/// The place among all cells of the cell at `row` and `column`.
pub open spec fn cell_index(row: int, column: int) -> int {
    row * MAX_COLUMNS + column
}

/// Whether the cell at `index` is the last one of its row.
pub open spec fn ends_row(index: int) -> bool {
    index % (MAX_COLUMNS as int) == MAX_COLUMNS - 1
}

/// The letters of a face given by its rows, cell by cell.
pub open spec fn flatten(rows: Seq<&'static str>) -> Seq<char> {
    Seq::new(
        rows.len() * (MAX_COLUMNS as nat),
        |index: int| rows[index / (MAX_COLUMNS as int)]@[index % (MAX_COLUMNS as int)],
    )
}

/// Every row of the Bernese face has a letter for each column.
pub proof fn lemma_ch_bern_rows_are_full()
    ensures
        forall|row: int| 0 <= row < MAX_ROWS ==> (#[trigger] CH_BERN_GRID[row])@.len() == MAX_COLUMNS,
        flatten(CH_BERN_GRID@).len() == GRID_CELLS,
{
    reveal_strlit("ESKISCHAFÜF");
    reveal_strlit("VIERTUBFZÄÄ");
    reveal_strlit("ZWÄNZGSIVOR");
    reveal_strlit("ABOHAUBIEPM");
    reveal_strlit("EISZWOISDRÜ");
    reveal_strlit("VIERFÜNFIQT");
    reveal_strlit("SECHSISIBNI");
    reveal_strlit("ACHTINÜNIEL");
    reveal_strlit("ZÄNIERBEUFI");
    reveal_strlit("ZWÖUFIAMUHR");
    reveal_strlit("   ****    ");
}

/// The letter of the Bernese face at `index`.
pub fn ch_bern_letter(index: usize) -> (letter: char)
    requires
        index < GRID_CELLS,
    ensures
        letter == flatten(CH_BERN_GRID@)[index as int],
{
    proof {
        lemma_ch_bern_rows_are_full();
    }
    let row = CH_BERN_GRID[index / MAX_COLUMNS];
    row.get_char(index % MAX_COLUMNS)
}

} // verus!
