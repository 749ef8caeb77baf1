//! A word clock: the time of day, spelled out by lighting words on a grid of
//! letters.

pub mod catalog;
pub mod display;
pub mod grid;
pub mod resolver;
pub mod tick;
pub mod words;

pub use catalog::map_swiss_bern;
pub use display::{ConfigError, Dialect, DisplayIterator, WordClock, DEFAULT_DIALECT};
pub use grid::{
    ch_bern_letter, CH_BERN_GRID, GRID_CELLS, MAX_COLUMNS, MAX_ROWS, MAX_TICKS, TICK_ROW,
};
pub use resolver::{map_time_to_clock_words, resolve, ResolvedTime, MAX_WORDS};
pub use tick::time_of_day;
pub use words::ClockWord;
