//! The time resolver: from an hour and a minute to the words that spell them.

use vstd::prelude::*;
use crate::grid::MAX_TICKS;
use crate::words::ClockWord;

verus! {

/// Most words that one time of day takes: a minute-tick label, three words
/// for the minutes and the hour.
pub const MAX_WORDS: usize = 5;

/// The label for the minutes that have passed since the last multiple of
/// five; there is none on the multiple itself.
pub open spec fn tick_label(remainder: int) -> Seq<ClockWord> {
    if remainder == 1 {
        seq![ClockWord::OneMinute]
    } else if remainder == 2 {
        seq![ClockWord::TwoMinutes]
    } else if remainder == 3 {
        seq![ClockWord::ThreeMinutes]
    } else if remainder == 4 {
        seq![ClockWord::FourMinutes]
    } else {
        Seq::empty()
    }
}

/// The words for `base` minutes past the hour, `base` a multiple of five
/// below sixty.
pub open spec fn minute_phrase(base: int) -> Seq<ClockWord> {
    if base == 0 {
        seq![ClockWord::It, ClockWord::Is, ClockWord::FullClock]
    } else if base == 5 {
        seq![ClockWord::FiveMinutes, ClockWord::Past]
    } else if base == 10 {
        seq![ClockWord::TenMinutes, ClockWord::Past]
    } else if base == 15 {
        seq![ClockWord::Quarter, ClockWord::Past]
    } else if base == 20 {
        seq![ClockWord::Twenty, ClockWord::Past]
    } else if base == 25 {
        seq![ClockWord::FiveMinutes, ClockWord::To, ClockWord::Half]
    } else if base == 30 {
        seq![ClockWord::It, ClockWord::Is, ClockWord::Half]
    } else if base == 35 {
        seq![ClockWord::FiveMinutes, ClockWord::Past, ClockWord::Half]
    } else if base == 40 {
        seq![ClockWord::Twenty, ClockWord::To]
    } else if base == 45 {
        seq![ClockWord::Quarter, ClockWord::To]
    } else if base == 50 {
        seq![ClockWord::Ten, ClockWord::To]
    } else if base == 55 {
        seq![ClockWord::FiveMinutes, ClockWord::To]
    } else {
        Seq::empty()
    }
}

/// Whether the phrase for `base` minutes counts towards the coming hour.
pub open spec fn names_next_hour(base: int) -> bool {
    base == 25 || base == 30 || base == 35 || base == 40 || base == 45 || base == 50
        || base == 55
}

/// The hour on the twelve-hour dial that is spoken at `hour:minute`.
pub open spec fn effective_hour(hour: int, minute: int) -> int {
    if names_next_hour(minute - minute % 5) {
        (hour + 1) % 12
    } else {
        hour % 12
    }
}

/// The word for an hour of the twelve-hour dial; hour zero is spoken as twelve.
pub open spec fn hour_word(hour: int) -> ClockWord {
    if hour == 1 {
        ClockWord::One
    } else if hour == 2 {
        ClockWord::Two
    } else if hour == 3 {
        ClockWord::Three
    } else if hour == 4 {
        ClockWord::Four
    } else if hour == 5 {
        ClockWord::Five
    } else if hour == 6 {
        ClockWord::Six
    } else if hour == 7 {
        ClockWord::Seven
    } else if hour == 8 {
        ClockWord::Eight
    } else if hour == 9 {
        ClockWord::Nine
    } else if hour == 10 {
        ClockWord::Ten
    } else if hour == 11 {
        ClockWord::Eleven
    } else {
        ClockWord::Twelve
    }
}

/// The words that spell `hour:minute`, in the order in which they are spoken.
pub open spec fn time_words(hour: int, minute: int) -> Seq<ClockWord> {
    tick_label(minute % 5) + minute_phrase(minute - minute % 5) + seq![
        hour_word(effective_hour(hour, minute)),
    ]
}

/// How many cells of the minute-tick row are lit at `minute`.
pub open spec fn tick_count(minute: int) -> int {
    minute % 5
}

/// Whether `slots` holds exactly `words`, from the front and in order, and
/// nothing behind them.
pub open spec fn holds_words(slots: Seq<Option<ClockWord>>, words: Seq<ClockWord>) -> bool {
    &&& words.len() <= slots.len()
    &&& forall|i: int| 0 <= i < words.len() ==> (#[trigger] slots[i]) == Some(words[i])
    &&& forall|i: int| words.len() <= i < slots.len() ==> (#[trigger] slots[i]) is None
}

/// The words in the first `count` of `slots`, in order.
#[verifier::opaque]
spec fn said(slots: Seq<Option<ClockWord>>, count: int) -> Seq<ClockWord> {
    Seq::new(count as nat, |i: int| slots[i].unwrap())
}

/// Whether the first `count` of `slots` hold a word each, and no other does.
#[verifier::opaque]
spec fn filled_to(slots: Seq<Option<ClockWord>>, count: int) -> bool {
    &&& 0 <= count <= slots.len()
    &&& forall|i: int| 0 <= i < count ==> (#[trigger] slots[i]) is Some
    &&& forall|i: int| count <= i < slots.len() ==> (#[trigger] slots[i]) is None
}

/// Slots that are filled from the front hold the words that were said.
proof fn lemma_said_is_held(slots: Seq<Option<ClockWord>>, count: int)
    requires
        filled_to(slots, count),
    ensures
        holds_words(slots, said(slots, count)),
        said(slots, count).len() == count,
{
    reveal(filled_to);
    reveal(said);
}

/// Put `word` into the first free slot, which is the one at `index`.
fn say(clock_words: &mut [Option<ClockWord>; MAX_WORDS], index: &mut usize, word: ClockWord)
    requires
        filled_to(old(clock_words)@, *old(index) as int),
        *old(index) < MAX_WORDS,
    ensures
        *final(index) == *old(index) + 1,
        filled_to(final(clock_words)@, *final(index) as int),
        said(final(clock_words)@, *final(index) as int) == said(
            old(clock_words)@,
            *old(index) as int,
        ).push(word),
{
    proof {
        reveal(filled_to);
        reveal(said);
    }
    clock_words[*index] = Some(word);
    *index += 1;
    assert(said(clock_words@, *index as int) =~= said(old(clock_words)@, *old(index) as int).push(
        word,
    ));
}

/// Resolve a time of day into the clock words that spell it.
pub fn map_time_to_clock_words(hour: usize, minute: usize) -> (clock_words: [Option<
    ClockWord,
>; MAX_WORDS])
    requires
        hour < 24,
        minute < 60,
    ensures
        holds_words(clock_words@, time_words(hour as int, minute as int)),
        clock_words[0] is Some,
        clock_words[time_words(hour as int, minute as int).len() - 1] == Some(
            hour_word(
                if minute >= 25 {
                    (hour + 1) % 12
                } else {
                    hour as int % 12
                },
            ),
        ),
{
    let mut clock_words: [Option<ClockWord>; MAX_WORDS] = [None; MAX_WORDS];

    let mut index: usize = 0;
    let ghost given_hour = hour as int;
    let mut hour = hour;
    proof {
        reveal(filled_to);
        reveal(said);
        assert(filled_to(clock_words@, 0));
        assert(said(clock_words@, 0) =~= Seq::empty());
    }

    // handle the minutes below 5
    let modus_five = minute % 5;
    match modus_five {
        1 => {
            say(&mut clock_words, &mut index, ClockWord::OneMinute);
        },
        2 => {
            say(&mut clock_words, &mut index, ClockWord::TwoMinutes);
        },
        3 => {
            say(&mut clock_words, &mut index, ClockWord::ThreeMinutes);
        },
        4 => {
            say(&mut clock_words, &mut index, ClockWord::FourMinutes);
        },
        _ => {},
    }
    let ghost label = said(clock_words@, index as int);
    assert(label =~= tick_label(modus_five as int));

    // handle the minutes
    match minute - modus_five {
        0 => {
            say(&mut clock_words, &mut index, ClockWord::It);
            say(&mut clock_words, &mut index, ClockWord::Is);
            say(&mut clock_words, &mut index, ClockWord::FullClock);
        },
        5 => {
            say(&mut clock_words, &mut index, ClockWord::FiveMinutes);
            say(&mut clock_words, &mut index, ClockWord::Past);
        },
        10 => {
            say(&mut clock_words, &mut index, ClockWord::TenMinutes);
            say(&mut clock_words, &mut index, ClockWord::Past);
        },
        15 => {
            say(&mut clock_words, &mut index, ClockWord::Quarter);
            say(&mut clock_words, &mut index, ClockWord::Past);
        },
        20 => {
            say(&mut clock_words, &mut index, ClockWord::Twenty);
            say(&mut clock_words, &mut index, ClockWord::Past);
        },
        25 => {
            say(&mut clock_words, &mut index, ClockWord::FiveMinutes);
            say(&mut clock_words, &mut index, ClockWord::To);
            say(&mut clock_words, &mut index, ClockWord::Half);
            hour += 1;
        },
        30 => {
            say(&mut clock_words, &mut index, ClockWord::It);
            say(&mut clock_words, &mut index, ClockWord::Is);
            say(&mut clock_words, &mut index, ClockWord::Half);
            hour += 1;
        },
        35 => {
            say(&mut clock_words, &mut index, ClockWord::FiveMinutes);
            say(&mut clock_words, &mut index, ClockWord::Past);
            say(&mut clock_words, &mut index, ClockWord::Half);
            hour += 1;
        },
        40 => {
            say(&mut clock_words, &mut index, ClockWord::Twenty);
            say(&mut clock_words, &mut index, ClockWord::To);
            hour += 1;
        },
        45 => {
            say(&mut clock_words, &mut index, ClockWord::Quarter);
            say(&mut clock_words, &mut index, ClockWord::To);
            hour += 1;
        },
        50 => {
            say(&mut clock_words, &mut index, ClockWord::Ten);
            say(&mut clock_words, &mut index, ClockWord::To);
            hour += 1;
        },
        55 => {
            say(&mut clock_words, &mut index, ClockWord::FiveMinutes);
            say(&mut clock_words, &mut index, ClockWord::To);
            hour += 1;
        },
        _ => {
            vstd::pervasive::unreached::<()>();
        },
    }
    let ghost phrase = said(clock_words@, index as int);
    assert(phrase =~= label + minute_phrase(minute - modus_five));
    assert(hour == given_hour + if names_next_hour(minute - modus_five) {
        1int
    } else {
        0int
    });

    // handle the hour
    hour = hour % 12;
    let hour_word = match hour {
        0 => ClockWord::Twelve,
        1 => ClockWord::One,
        2 => ClockWord::Two,
        3 => ClockWord::Three,
        4 => ClockWord::Four,
        5 => ClockWord::Five,
        6 => ClockWord::Six,
        7 => ClockWord::Seven,
        8 => ClockWord::Eight,
        9 => ClockWord::Nine,
        10 => ClockWord::Ten,
        11 => ClockWord::Eleven,
        _ => vstd::pervasive::unreached(),
    };
    say(&mut clock_words, &mut index, hour_word);
    proof {
        assert(said(clock_words@, index as int) =~= time_words(given_hour, minute as int));
        lemma_said_is_held(clock_words@, index as int);
        lemma_hour_rolls_forward(given_hour, minute as int);
    }
    clock_words
}

/// A time of day resolved for display: the words to light, and how many
/// cells of the minute-tick row.
#[derive(Clone, Copy, Debug, PartialEq, Eq)]
pub struct ResolvedTime {
    pub words: [Option<ClockWord>; MAX_WORDS],
    pub ticks: usize,
}

impl ResolvedTime {
    /// No more ticks than the minute-tick row has cells for.
    pub open spec fn wf(self) -> bool {
        self.ticks <= MAX_TICKS
    }

    /// Whether this is the resolution of `hour:minute`.
    pub open spec fn shows(self, hour: int, minute: int) -> bool {
        &&& holds_words(self.words@, time_words(hour, minute))
        &&& self.ticks == tick_count(minute)
    }
}

/// Resolve a time of day into its words and its minute ticks.
pub fn resolve(hour: usize, minute: usize) -> (resolved: ResolvedTime)
    requires
        hour < 24,
        minute < 60,
    ensures
        resolved.shows(hour as int, minute as int),
        resolved.wf(),
{
    ResolvedTime { words: map_time_to_clock_words(hour, minute), ticks: minute % 5 }
}

/// Every time of day resolves to at least three and at most `MAX_WORDS`
/// words. The last one names the hour, on the twelve-hour dial, and the one
/// before it does not: the words end in exactly one hour. `Zero` is never
/// among them.
pub proof fn lemma_words_end_in_hour(hour: int, minute: int)
    requires
        0 <= hour < 24,
        0 <= minute < 60,
    ensures
        3 <= time_words(hour, minute).len() <= MAX_WORDS,
        0 <= effective_hour(hour, minute) < 12,
        time_words(hour, minute).last() == hour_word(effective_hour(hour, minute)),
        time_words(hour, minute).last().is_hour(),
        !time_words(hour, minute)[time_words(hour, minute).len() - 2].is_hour(),
        forall|i: int|
            0 <= i < time_words(hour, minute).len() ==> (#[trigger] time_words(hour, minute)[i])
                != ClockWord::Zero,
{
}

/// The phrases for twenty-five minutes and more speak the coming hour, the
/// others the hour that has begun. So from twenty-five past on, and only
/// then, the hour word is that of the coming hour.
pub proof fn lemma_hour_rolls_forward(hour: int, minute: int)
    requires
        0 <= hour < 24,
        0 <= minute < 60,
    ensures
        names_next_hour(minute - minute % 5) ==> effective_hour(hour, minute) == (hour + 1) % 12,
        !names_next_hour(minute - minute % 5) ==> effective_hour(hour, minute) == hour % 12,
        names_next_hour(minute - minute % 5) <==> minute >= 25,
        time_words(hour, minute).last() == hour_word(
            if minute >= 25 {
                (hour + 1) % 12
            } else {
                hour % 12
            },
        ),
{
}

/// A time of day has one resolution: two that show the same `hour:minute`
/// are equal, word for word.
pub proof fn lemma_resolution_unique(
    hour: int,
    minute: int,
    first: ResolvedTime,
    second: ResolvedTime,
)
    requires
        0 <= hour < 24,
        0 <= minute < 60,
        first.shows(hour, minute),
        second.shows(hour, minute),
    ensures
        first == second,
{
    lemma_words_end_in_hour(hour, minute);
    assert(first.words =~= second.words);
}

} // verus!
