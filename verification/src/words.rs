//! The vocabulary of the clock face.

use vstd::prelude::*;

verus! {

/// A word unit that the clock face can light up.
#[derive(Clone, Copy, Debug, PartialEq, Eq, Structural)]
pub enum ClockWord {
    Zero,
    One,
    Two,
    Three,
    Four,
    Five,
    Six,
    Seven,
    Eight,
    Nine,
    Ten,
    Eleven,
    Twelve,
    FullClock,
    Half,
    FiveMinutes,
    TenMinutes,
    To,
    Past,
    It,
    Is,
    Quarter,
    Twenty,
    OneMinute,
    TwoMinutes,
    ThreeMinutes,
    FourMinutes,
}

impl ClockWord {
    /// The words that name an hour, `One` through `Twelve`.
    pub open spec fn is_hour(self) -> bool {
        self == ClockWord::One || self == ClockWord::Two || self == ClockWord::Three
            || self == ClockWord::Four || self == ClockWord::Five || self == ClockWord::Six
            || self == ClockWord::Seven || self == ClockWord::Eight || self == ClockWord::Nine
            || self == ClockWord::Ten || self == ClockWord::Eleven || self == ClockWord::Twelve
    }

    /// The labels of the minute-tick row.
    pub open spec fn is_minute_tick(self) -> bool {
        self == ClockWord::OneMinute || self == ClockWord::TwoMinutes
            || self == ClockWord::ThreeMinutes || self == ClockWord::FourMinutes
    }
}

} // verus!
