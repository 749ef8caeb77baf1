//! The display: the face cell by cell, with the words of a time lit.

use vstd::prelude::*;
use time::OffsetDateTime;
use crate::catalog::{covers, map_swiss_bern, swiss_bern_segment};
use crate::grid::{
    cell_index, ch_bern_letter, ends_row, flatten, CH_BERN_GRID, GRID_CELLS, MAX_COLUMNS, MAX_ROWS,
};
use crate::resolver::{resolve, tick_label, time_words, ResolvedTime};
use crate::tick::{clock_hour, clock_minute, time_of_day};
use crate::words::ClockWord;

verus! {

/// The name of the dialect that a clock speaks unless told otherwise.
pub const DEFAULT_DIALECT: &'static str = "ch-bern";

/// The dialects that a clock can speak.
#[derive(Clone, Copy, Debug, PartialEq, Eq, Structural)]
pub enum Dialect {
    SwissBern,
}

/// Why a clock could not be set up.
#[derive(Clone, Copy, Debug, PartialEq, Eq, Structural)]
pub enum ConfigError {
    /// No face is known for the dialect that was asked for.
    UnknownDialect,
}

/// A word clock: a face and the catalog of its words.
#[derive(Clone, Copy, Debug, PartialEq, Eq, Structural)]
pub struct WordClock {
    pub dialect: Dialect,
}

impl WordClock {
    /// The letters of the face, cell by cell.
    pub open spec fn grid(self) -> Seq<char> {
        match self.dialect {
            Dialect::SwissBern => flatten(CH_BERN_GRID@),
        }
    }

    /// Offset and length of `word` on the face.
    pub open spec fn segment(self, word: ClockWord) -> (int, int) {
        match self.dialect {
            Dialect::SwissBern => swiss_bern_segment(word),
        }
    }

    /// The first cell of the minute-tick row that can be lit.
    pub open spec fn first_tick(self) -> int {
        self.segment(ClockWord::OneMinute).0
    }

    /// Whether the cell at `index` belongs to one of `words`.
    pub open spec fn lit_by_word(self, words: Seq<Option<ClockWord>>, index: int) -> bool {
        exists|k: int|
            0 <= k < words.len() && (#[trigger] words[k]) is Some && covers(
                self.segment(words[k].unwrap()),
                index,
            )
    }

    /// Whether the cell at `index` is among the first `ticks` minute ticks.
    pub open spec fn lit_by_tick(self, ticks: int, index: int) -> bool {
        self.first_tick() <= index < self.first_tick() + ticks
    }

    /// Whether the cell at `index` is lit when the face shows `resolved`.
    pub open spec fn highlighted(self, resolved: ResolvedTime, index: int) -> bool {
        self.lit_by_word(resolved.words@, index) || self.lit_by_tick(resolved.ticks as int, index)
    }

    /// The cell at `index` when the face shows `resolved`: its letter, whether
    /// it is lit, and whether it ends its row.
    pub open spec fn cell(self, resolved: ResolvedTime, index: int) -> (char, bool, bool) {
        (self.grid()[index], self.highlighted(resolved, index), ends_row(index))
    }

    /// All the cells of the face when it shows `resolved`, row by row.
    pub open spec fn display(self, resolved: ResolvedTime) -> Seq<(char, bool, bool)> {
        Seq::new(GRID_CELLS as nat, |index: int| self.cell(resolved, index))
    }

    /// Set up the clock for a dialect, given by name.
    pub fn new(dialect: String) -> (clock: Result<WordClock, ConfigError>)
        ensures
            clock is Ok <==> dialect@ == DEFAULT_DIALECT@,
            clock matches Ok(c) ==> c.dialect == Dialect::SwissBern,
            clock matches Err(e) ==> e == ConfigError::UnknownDialect,
    {
        let bern = DEFAULT_DIALECT.to_owned();
        if dialect == bern {
            Ok(WordClock { dialect: Dialect::SwissBern })
        } else {
            Err(ConfigError::UnknownDialect)
        }
    }

    /// The letter of the cell at `index`.
    pub fn letter(&self, index: usize) -> (letter: char)
        requires
            index < GRID_CELLS,
        ensures
            letter == self.grid()[index as int],
    {
        match self.dialect {
            Dialect::SwissBern => ch_bern_letter(index),
        }
    }

    /// Offset and length of `word` on the face.
    pub fn locate(&self, word: ClockWord) -> (segment: (usize, usize))
        ensures
            (segment.0 as int, segment.1 as int) == self.segment(word),
            segment.0 + segment.1 <= GRID_CELLS,
    {
        match self.dialect {
            Dialect::SwissBern => map_swiss_bern(word),
        }
    }

    /// Whether the cell at `index` is lit when the face shows `resolved`.
    pub fn is_highlighted(&self, resolved: &ResolvedTime, index: usize) -> (lit: bool)
        ensures
            lit == self.highlighted(*resolved, index as int),
    {
        let first_tick = self.locate(ClockWord::OneMinute).0;
        if first_tick <= index && index - first_tick < resolved.ticks {
            return true;
        }
        let mut k: usize = 0;
        while k < resolved.words.len()
            invariant
                k <= resolved.words@.len(),
                !self.lit_by_tick(resolved.ticks as int, index as int),
                forall|j: int|
                    0 <= j < k && (#[trigger] resolved.words@[j]) is Some ==> !covers(
                        self.segment(resolved.words@[j].unwrap()),
                        index as int,
                    ),
            decreases resolved.words@.len() - k,
        {
            if let Some(word) = resolved.words[k] {
                let (offset, length) = self.locate(word);
                if offset <= index && index < offset + length {
                    return true;
                }
            }
            k += 1;
        }
        false
    }

    /// Walk the face for a resolved time, from its first cell.
    pub fn iterate(&self, resolved: ResolvedTime) -> (cells: DisplayIterator)
        requires
            resolved.wf(),
        ensures
            cells.clock() == *self,
            cells.resolved() == resolved,
            cells.position() == 0,
    {
        DisplayIterator { clock: *self, resolved, position: 0 }
    }

    /// Walk the face for a time of day, from its first cell.
    pub fn show_time_iterator(&self, hour: usize, minute: usize) -> (cells: DisplayIterator)
        requires
            hour < 24,
            minute < 60,
        ensures
            cells.clock() == *self,
            cells.resolved().shows(hour as int, minute as int),
            cells.position() == 0,
    {
        self.iterate(resolve(hour, minute))
    }

    /// Walk the face for the time of day that `now` shows on a wall clock.
    pub fn show_time_at(&self, now: OffsetDateTime) -> (cells: DisplayIterator)
        ensures
            cells.clock() == *self,
            cells.position() == 0,
            cells.resolved().shows(clock_hour(now) as int, clock_minute(now) as int),
    {
        let (hour, minute) = time_of_day(now);
        self.show_time_iterator(hour, minute)
    }
}

/// A walk over the cells of a face that shows a time, row by row. Each cell
/// comes as its letter, whether it is lit, and whether it ends its row.
pub struct DisplayIterator {
    clock: WordClock,
    resolved: ResolvedTime,
    position: usize,
}

impl DisplayIterator {
    #[verifier::type_invariant]
    spec fn within_face(self) -> bool {
        self.position <= GRID_CELLS && self.resolved.wf()
    }

    /// The clock whose face is walked.
    pub closed spec fn clock(self) -> WordClock {
        self.clock
    }

    /// The time that the face shows.
    pub closed spec fn resolved(self) -> ResolvedTime {
        self.resolved
    }

    /// How many cells have been handed out.
    pub closed spec fn position(self) -> int {
        self.position as int
    }

    /// The cells that are still to come, in order.
    pub open spec fn remaining(self) -> Seq<(char, bool, bool)> {
        self.clock().display(self.resolved()).skip(self.position())
    }

    /// The next cell of the face, or `None` behind the last one.
    pub fn next(&mut self) -> (item: Option<(char, bool, bool)>)
        ensures
            final(self).clock() == old(self).clock(),
            final(self).resolved() == old(self).resolved(),
            0 <= old(self).position() <= GRID_CELLS,
            old(self).position() < GRID_CELLS ==> item == Some(
                old(self).clock().cell(old(self).resolved(), old(self).position()),
            ) && final(self).position() == old(self).position() + 1,
            old(self).position() == GRID_CELLS ==> item is None && final(self).position()
                == old(self).position(),
    {
        proof {
            use_type_invariant(&*self);
        }
        if self.position >= GRID_CELLS {
            return None;
        }
        let index = self.position;
        let letter = self.clock.letter(index);
        let lit = self.clock.is_highlighted(&self.resolved, index);
        let end_of_row = index % MAX_COLUMNS == MAX_COLUMNS - 1;
        self.position = index + 1;
        Some((letter, lit, end_of_row))
    }

    /// All the cells that are still to come, in order. From the first cell
    /// on, these are as many as the face has rows times columns, and the
    /// cells that end a row are the last of every `MAX_COLUMNS`.
    pub fn rest(self) -> (cells: Vec<(char, bool, bool)>)
        ensures
            cells@ == self.remaining(),
            cells.len() == GRID_CELLS - self.position(),
            self.position() == 0 ==> cells.len() == MAX_ROWS * MAX_COLUMNS,
            forall|row: int, column: int|
                #![trigger cell_index(row, column)]
                self.position() == 0 && 0 <= row < MAX_ROWS && 0 <= column < MAX_COLUMNS
                    ==> cells[cell_index(row, column)].2 == (column == MAX_COLUMNS - 1),
    {
        let mut walk = self;
        let mut cells: Vec<(char, bool, bool)> = Vec::new();
        proof {
            use_type_invariant(&walk);
        }
        loop
            invariant
                walk.clock() == self.clock(),
                walk.resolved() == self.resolved(),
                self.position() <= walk.position() <= GRID_CELLS,
                cells@ == self.clock().display(self.resolved()).subrange(
                    self.position(),
                    walk.position(),
                ),
            ensures
                walk.position() == GRID_CELLS,
            decreases GRID_CELLS - walk.position(),
        {
            match walk.next() {
                Some(cell) => {
                    cells.push(cell);
                },
                None => {
                    break ;
                },
            }
        }
        proof {
            lemma_display_rows(self.clock(), self.resolved());
        }
        cells
    }
}

/// For a time of day, the minute ticks are the cells of its tick label: the
/// tick count lights no cell that the words leave dark.
pub proof fn lemma_ticks_are_labelled(
    clock: WordClock,
    resolved: ResolvedTime,
    hour: int,
    minute: int,
    index: int,
)
    requires
        0 <= hour < 24,
        0 <= minute < 60,
        resolved.shows(hour, minute),
    ensures
        clock.lit_by_tick(resolved.ticks as int, index) ==> clock.lit_by_word(
            resolved.words@,
            index,
        ),
        clock.highlighted(resolved, index) == clock.lit_by_word(resolved.words@, index),
{
    if clock.lit_by_tick(resolved.ticks as int, index) {
        let label = tick_label(minute % 5);
        assert(label.len() == 1);
        assert(time_words(hour, minute)[0] == label[0]);
        assert(resolved.words@[0] == Some(label[0]));
        assert(covers(clock.segment(resolved.words@[0].unwrap()), index));
    }
}

/// The display of any resolved time has as many cells as the face has rows
/// times columns, in rows of `MAX_COLUMNS` cells each; the last cell of each
/// row is marked as the end of its row, and no other cell is.
pub proof fn lemma_display_rows(clock: WordClock, resolved: ResolvedTime)
    ensures
        clock.display(resolved).len() == MAX_ROWS * MAX_COLUMNS,
        forall|index: int|
            0 <= index < MAX_ROWS * MAX_COLUMNS ==> (#[trigger] clock.display(resolved)[index]).2
                == ends_row(index),
        forall|row: int, column: int|
            #![trigger cell_index(row, column)]
            0 <= row < MAX_ROWS && 0 <= column < MAX_COLUMNS ==> clock.display(
                resolved,
            )[cell_index(row, column)].2 == (column == MAX_COLUMNS - 1),
{
}

} // verus!
