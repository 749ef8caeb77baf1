//! The segment catalog: where each word stands on the face.

use vstd::prelude::*;
use crate::grid::{cell_index, flatten, CH_BERN_GRID, GRID_CELLS, MAX_COLUMNS, MAX_ROWS, TICK_ROW};
use crate::words::ClockWord;

verus! {

/// Row, first column and length of each word on the Bernese face.
///
/// `Zero` is never spoken and takes up no cell.
pub open spec fn swiss_bern_place(word: ClockWord) -> (int, int, int) {
    match word {
        ClockWord::Zero => (0, 0, 0),
        ClockWord::It => (0, 0, 2),
        ClockWord::Is => (0, 3, 4),
        ClockWord::FiveMinutes => (0, 8, 3),
        ClockWord::Quarter => (1, 0, 6),
        ClockWord::TenMinutes => (1, 8, 3),
        ClockWord::Twenty => (2, 0, 6),
        ClockWord::To => (2, 8, 3),
        ClockWord::Past => (3, 0, 2),
        ClockWord::Half => (3, 3, 5),
        ClockWord::One => (4, 0, 3),
        ClockWord::Two => (4, 3, 4),
        ClockWord::Three => (4, 8, 3),
        ClockWord::Four => (5, 0, 4),
        ClockWord::Five => (5, 4, 5),
        ClockWord::Six => (6, 0, 6),
        ClockWord::Seven => (6, 6, 5),
        ClockWord::Eight => (7, 0, 5),
        ClockWord::Nine => (7, 5, 4),
        ClockWord::Ten => (8, 0, 4),
        ClockWord::Eleven => (8, 7, 4),
        ClockWord::Twelve => (9, 0, 6),
        ClockWord::FullClock => (9, 8, 3),
        ClockWord::OneMinute => (10, 3, 1),
        ClockWord::TwoMinutes => (10, 3, 2),
        ClockWord::ThreeMinutes => (10, 3, 3),
        ClockWord::FourMinutes => (10, 3, 4),
    }
}

/// Offset and length of a word in the flattened Bernese face.
pub open spec fn swiss_bern_segment(word: ClockWord) -> (int, int) {
    let (row, column, length) = swiss_bern_place(word);
    (cell_index(row, column), length)
}

/// How each word is written in the Swiss German of Bern; a minute tick is
/// written as a star.
pub open spec fn swiss_bern_spelling(word: ClockWord) -> Seq<char> {
    match word {
        ClockWord::Zero => Seq::empty(),
        ClockWord::It => "ES"@,
        ClockWord::Is => "ISCH"@,
        ClockWord::FiveMinutes => "FÜF"@,
        ClockWord::Quarter => "VIERTU"@,
        ClockWord::TenMinutes => "ZÄÄ"@,
        ClockWord::Twenty => "ZWÄNZG"@,
        ClockWord::To => "VOR"@,
        ClockWord::Past => "AB"@,
        ClockWord::Half => "HAUBI"@,
        ClockWord::One => "EIS"@,
        ClockWord::Two => "ZWOI"@,
        ClockWord::Three => "DRÜ"@,
        ClockWord::Four => "VIER"@,
        ClockWord::Five => "FÜNFI"@,
        ClockWord::Six => "SECHSI"@,
        ClockWord::Seven => "SIBNI"@,
        ClockWord::Eight => "ACHTI"@,
        ClockWord::Nine => "NÜNI"@,
        ClockWord::Ten => "ZÄNI"@,
        ClockWord::Eleven => "EUFI"@,
        ClockWord::Twelve => "ZWÖUFI"@,
        ClockWord::FullClock => "UHR"@,
        ClockWord::OneMinute => "*"@,
        ClockWord::TwoMinutes => "**"@,
        ClockWord::ThreeMinutes => "***"@,
        ClockWord::FourMinutes => "****"@,
    }
}

/// Whether the cell at `index` belongs to `segment`, an offset and a length.
pub open spec fn covers(segment: (int, int), index: int) -> bool {
    segment.0 <= index < segment.0 + segment.1
}

/// Map a clock word to its position and length in the flattened face, in the
/// Swiss German of Bern.
pub fn map_swiss_bern(clock_word: ClockWord) -> (segment: (usize, usize))
    ensures
        (segment.0 as int, segment.1 as int) == swiss_bern_segment(clock_word),
        segment.0 + segment.1 <= GRID_CELLS,
{
    match clock_word {
        ClockWord::Zero => (0, 0),
        ClockWord::One => (4 * MAX_COLUMNS + 0, 3),
        ClockWord::Two => (4 * MAX_COLUMNS + 3, 4),
        ClockWord::Three => (4 * MAX_COLUMNS + 8, 3),
        ClockWord::Four => (5 * MAX_COLUMNS + 0, 4),
        ClockWord::Five => (5 * MAX_COLUMNS + 4, 5),
        ClockWord::Six => (6 * MAX_COLUMNS + 0, 6),
        ClockWord::Seven => (6 * MAX_COLUMNS + 6, 5),
        ClockWord::Eight => (7 * MAX_COLUMNS + 0, 5),
        ClockWord::Nine => (7 * MAX_COLUMNS + 5, 4),
        ClockWord::Ten => (8 * MAX_COLUMNS + 0, 4),
        ClockWord::Eleven => (8 * MAX_COLUMNS + 7, 4),
        ClockWord::Twelve => (9 * MAX_COLUMNS + 0, 6),
        ClockWord::FullClock => (9 * MAX_COLUMNS + 8, 3),
        ClockWord::Half => (3 * MAX_COLUMNS + 3, 5),
        ClockWord::FiveMinutes => (0 * MAX_COLUMNS + 8, 3),
        ClockWord::TenMinutes => (1 * MAX_COLUMNS + 8, 3),
        ClockWord::Quarter => (1 * MAX_COLUMNS + 0, 6),
        ClockWord::Twenty => (2 * MAX_COLUMNS + 0, 6),
        ClockWord::To => (2 * MAX_COLUMNS + 8, 3),
        ClockWord::Past => (3 * MAX_COLUMNS + 0, 2),
        ClockWord::It => (0 * MAX_COLUMNS + 0, 2),
        ClockWord::Is => (0 * MAX_COLUMNS + 3, 4),
        ClockWord::OneMinute => (TICK_ROW * MAX_COLUMNS + 3, 1),
        ClockWord::TwoMinutes => (TICK_ROW * MAX_COLUMNS + 3, 2),
        ClockWord::ThreeMinutes => (TICK_ROW * MAX_COLUMNS + 3, 3),
        ClockWord::FourMinutes => (TICK_ROW * MAX_COLUMNS + 3, 4),
    }
}

/// Every word stays within one row of the face, and the whole catalog within
/// the grid.
pub proof fn lemma_segment_in_row(word: ClockWord)
    ensures
        ({
            let (row, column, length) = swiss_bern_place(word);
            0 <= row < MAX_ROWS && 0 <= column && 0 <= length
                && column + length <= MAX_COLUMNS
        }),
        0 <= swiss_bern_segment(word).0,
        swiss_bern_segment(word).0 + swiss_bern_segment(word).1 <= GRID_CELLS,
        word.is_minute_tick() <==> swiss_bern_place(word).0 == TICK_ROW,
{
}

/// The letters of the face that a word's segment covers spell that word.
pub proof fn lemma_segment_spells_word(word: ClockWord)
    ensures
        flatten(CH_BERN_GRID@).subrange(
            swiss_bern_segment(word).0,
            swiss_bern_segment(word).0 + swiss_bern_segment(word).1,
        ) == swiss_bern_spelling(word),
{
    reveal_strlit("ESKISCHAFÜF");
    reveal_strlit("VIERTUBFZÄÄ");
    reveal_strlit("ZWÄNZGSIVOR");
    reveal_strlit("ABOHAUBIEPM");
    reveal_strlit("EISZWOISDRÜ");
    reveal_strlit("VIERFÜNFIQT");
    reveal_strlit("SECHSISIBNI");
    reveal_strlit("ACHTINÜNIEL");
    reveal_strlit("ZÄNIERBEUFI");
    reveal_strlit("ZWÖUFIAMUHR");
    reveal_strlit("   ****    ");
    reveal_strlit("ES");
    reveal_strlit("ISCH");
    reveal_strlit("FÜF");
    reveal_strlit("VIERTU");
    reveal_strlit("ZÄÄ");
    reveal_strlit("ZWÄNZG");
    reveal_strlit("VOR");
    reveal_strlit("AB");
    reveal_strlit("HAUBI");
    reveal_strlit("EIS");
    reveal_strlit("ZWOI");
    reveal_strlit("DRÜ");
    reveal_strlit("VIER");
    reveal_strlit("FÜNFI");
    reveal_strlit("SECHSI");
    reveal_strlit("SIBNI");
    reveal_strlit("ACHTI");
    reveal_strlit("NÜNI");
    reveal_strlit("ZÄNI");
    reveal_strlit("EUFI");
    reveal_strlit("ZWÖUFI");
    reveal_strlit("UHR");
    reveal_strlit("*");
    reveal_strlit("**");
    reveal_strlit("***");
    reveal_strlit("****");
    let (offset, length) = swiss_bern_segment(word);
    assert(flatten(CH_BERN_GRID@).subrange(offset, offset + length) =~= swiss_bern_spelling(word));
}

/// No cell of the face belongs to two words, unless both are labels of the
/// minute-tick row: those start at the same cell and nest.
pub proof fn lemma_segments_disjoint(first: ClockWord, second: ClockWord, index: int)
    requires
        first != second,
        !(first.is_minute_tick() && second.is_minute_tick()),
    ensures
        !(covers(swiss_bern_segment(first), index) && covers(swiss_bern_segment(second), index)),
{
}

} // verus!
