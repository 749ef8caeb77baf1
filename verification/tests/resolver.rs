use wordclock::ClockWord::{
    Eight, Eleven, FiveMinutes, Four, FourMinutes, FullClock, Half, Is, It, Nine, One, OneMinute,
    Past, Quarter, Ten, TenMinutes, Three, ThreeMinutes, To, Twelve, Twenty, TwoMinutes,
};
use wordclock::{map_time_to_clock_words, resolve, ClockWord, ResolvedTime, MAX_WORDS};

const HOUR_WORDS: [ClockWord; 12] = [
    ClockWord::Twelve,
    ClockWord::One,
    ClockWord::Two,
    ClockWord::Three,
    ClockWord::Four,
    ClockWord::Five,
    ClockWord::Six,
    ClockWord::Seven,
    ClockWord::Eight,
    ClockWord::Nine,
    ClockWord::Ten,
    ClockWord::Eleven,
];

fn spoken(hour: usize, minute: usize) -> Vec<ClockWord> {
    let slots = map_time_to_clock_words(hour, minute);
    let words: Vec<ClockWord> = slots.iter().flatten().copied().collect();
    // the words fill the slots from the front
    for (i, slot) in slots.iter().enumerate() {
        assert_eq!(slot.is_some(), i < words.len());
    }
    words
}

#[test]
fn two_o_clock() {
    let resolved = resolve(2, 0);
    assert_eq!(
        resolved.words,
        [
            Some(ClockWord::It),
            Some(ClockWord::Is),
            Some(ClockWord::FullClock),
            Some(ClockWord::Two),
            None,
        ]
    );
    assert_eq!(resolved.ticks, 0);
}

#[test]
fn quarter_past_two() {
    let resolved = resolve(2, 15);
    assert_eq!(
        resolved.words,
        [
            Some(ClockWord::Quarter),
            Some(ClockWord::Past),
            Some(ClockWord::Two),
            None,
            None,
        ]
    );
    assert_eq!(resolved.ticks, 0);
}

#[test]
fn two_minutes_after_quarter_to_three() {
    let resolved = resolve(2, 47);
    assert_eq!(
        resolved.words,
        [
            Some(ClockWord::TwoMinutes),
            Some(ClockWord::Quarter),
            Some(ClockWord::To),
            Some(ClockWord::Three),
            None,
        ]
    );
    assert_eq!(resolved.ticks, 2);
}

#[test]
fn four_minutes_after_five_to_twelve() {
    let resolved = resolve(11, 59);
    assert_eq!(
        resolved.words,
        [
            Some(ClockWord::FourMinutes),
            Some(ClockWord::FiveMinutes),
            Some(ClockWord::To),
            Some(ClockWord::Twelve),
            None,
        ]
    );
    assert_eq!(resolved.ticks, 4);
}

#[test]
fn resolve_carries_the_words_of_the_time() {
    for hour in 0..24 {
        for minute in 0..60 {
            assert_eq!(
                resolve(hour, minute),
                ResolvedTime { words: map_time_to_clock_words(hour, minute), ticks: minute % 5 }
            );
        }
    }
}

#[test]
fn each_multiple_of_five_has_its_phrase() {
    assert_eq!(spoken(3, 0), vec![It, Is, FullClock, Three]);
    assert_eq!(spoken(3, 5), vec![FiveMinutes, Past, Three]);
    assert_eq!(spoken(3, 10), vec![TenMinutes, Past, Three]);
    assert_eq!(spoken(3, 15), vec![Quarter, Past, Three]);
    assert_eq!(spoken(3, 20), vec![Twenty, Past, Three]);
    assert_eq!(spoken(3, 25), vec![FiveMinutes, To, Half, Four]);
    assert_eq!(spoken(3, 30), vec![It, Is, Half, Four]);
    assert_eq!(spoken(3, 35), vec![FiveMinutes, Past, Half, Four]);
    assert_eq!(spoken(3, 40), vec![Twenty, To, Four]);
    assert_eq!(spoken(3, 45), vec![Quarter, To, Four]);
    assert_eq!(spoken(3, 50), vec![Ten, To, Four]);
    assert_eq!(spoken(3, 55), vec![FiveMinutes, To, Four]);
}

#[test]
fn each_remainder_has_its_tick_label() {
    assert_eq!(spoken(9, 5), vec![FiveMinutes, Past, Nine]);
    assert_eq!(spoken(9, 6), vec![OneMinute, FiveMinutes, Past, Nine]);
    assert_eq!(spoken(9, 7), vec![TwoMinutes, FiveMinutes, Past, Nine]);
    assert_eq!(spoken(9, 8), vec![ThreeMinutes, FiveMinutes, Past, Nine]);
    assert_eq!(spoken(9, 9), vec![FourMinutes, FiveMinutes, Past, Nine]);
    for minute in 0..60 {
        assert_eq!(resolve(9, minute).ticks, minute % 5);
    }
}

#[test]
fn a_tick_label_before_three_words_fills_every_slot() {
    assert_eq!(
        map_time_to_clock_words(7, 31),
        [
            Some(ClockWord::OneMinute),
            Some(ClockWord::It),
            Some(ClockWord::Is),
            Some(ClockWord::Half),
            Some(ClockWord::Eight),
        ]
    );
    assert_eq!(
        map_time_to_clock_words(0, 4),
        [
            Some(ClockWord::FourMinutes),
            Some(ClockWord::It),
            Some(ClockWord::Is),
            Some(ClockWord::FullClock),
            Some(ClockWord::Twelve),
        ]
    );
}

#[test]
fn every_time_of_day_ends_in_one_hour_word() {
    for hour in 0..24 {
        for minute in 0..60 {
            let words = spoken(hour, minute);
            assert!(3 <= words.len() && words.len() <= MAX_WORDS);
            let last = words[words.len() - 1];
            assert!(HOUR_WORDS.contains(&last), "{}:{}", hour, minute);
            let before = words[words.len() - 2];
            assert!(!HOUR_WORDS.contains(&before), "{}:{}", hour, minute);
            assert!(!words.contains(&ClockWord::Zero));
        }
    }
}

#[test]
fn the_coming_hour_is_spoken_from_twenty_five_past() {
    for hour in 0..24 {
        for minute in 0..60 {
            let words = spoken(hour, minute);
            let base = minute - minute % 5;
            let rolls = [25, 30, 35, 40, 45, 50, 55].contains(&base);
            let effective = if rolls { (hour + 1) % 12 } else { hour % 12 };
            assert_eq!(words[words.len() - 1], HOUR_WORDS[effective], "{}:{}", hour, minute);
        }
    }
}

#[test]
fn the_dial_wraps_at_noon_and_midnight() {
    assert_eq!(spoken(0, 0), vec![It, Is, FullClock, Twelve]);
    assert_eq!(spoken(12, 0), vec![It, Is, FullClock, Twelve]);
    assert_eq!(spoken(23, 0), vec![It, Is, FullClock, Eleven]);
    assert_eq!(spoken(23, 55), vec![FiveMinutes, To, Twelve]);
    assert_eq!(spoken(11, 55), vec![FiveMinutes, To, Twelve]);
    assert_eq!(spoken(12, 30), vec![It, Is, Half, One]);
    assert_eq!(spoken(0, 30), vec![It, Is, Half, One]);
}

#[test]
fn resolving_twice_gives_the_same_words() {
    for hour in 0..24 {
        for minute in 0..60 {
            assert_eq!(resolve(hour, minute), resolve(hour, minute));
            assert_eq!(
                map_time_to_clock_words(hour, minute),
                map_time_to_clock_words(hour, minute)
            );
        }
    }
}

#[test]
fn morning_and_afternoon_are_spoken_alike() {
    for hour in 0..12 {
        for minute in 0..60 {
            assert_eq!(resolve(hour, minute), resolve(hour + 12, minute));
        }
    }
}
