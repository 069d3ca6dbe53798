//! Calendar time as the badge shows and stores it.

use vstd::prelude::*;
use vstd::arithmetic::div_mod::lemma_mod_multiples_vanish;

verus! {

/// A date and a time of day, without a time zone.
#[derive(Clone, Copy, PartialEq, Eq, Structural, Debug)]
pub struct DateTime {
    pub year: i32,
    pub month: u8,
    pub day: u8,
    pub hour: u8,
    pub minute: u8,
    pub second: u8,
}

/// Whether `year` has a 29th of February in the Gregorian calendar.
pub open spec fn is_leap_year(year: int) -> bool {
    year % 4 == 0 && (year % 100 != 0 || year % 400 == 0)
}

/// The number of days of `month` (1 to 12) in `year`; 0 for any other month.
pub open spec fn days_in_month(year: int, month: int) -> int {
    if month == 2 {
        if is_leap_year(year) {
            29
        } else {
            28
        }
    } else if month == 4 || month == 6 || month == 9 || month == 11 {
        30
    } else if 1 <= month <= 12 {
        31
    } else {
        0
    }
}

/// Whether the six numbers name a moment that exists: a year of at most four
/// digits, a month of the year, a day of that month, and a time before midnight.
pub open spec fn is_calendar_time(
    year: int,
    month: int,
    day: int,
    hour: int,
    minute: int,
    second: int,
) -> bool {
    &&& -9999 <= year <= 9999
    &&& 1 <= month <= 12
    &&& 1 <= day <= days_in_month(year, month)
    &&& 0 <= hour < 24
    &&& 0 <= minute < 60
    &&& 0 <= second < 60
}

impl DateTime {
    /// The fields name a moment that exists.
    pub open spec fn valid(&self) -> bool {
        is_calendar_time(
            self.year as int,
            self.month as int,
            self.day as int,
            self.hour as int,
            self.minute as int,
            self.second as int,
        )
    }

    /// The moment with these fields, or `None` when there is no such moment.
    pub fn new(year: i32, month: u8, day: u8, hour: u8, minute: u8, second: u8) -> (made: Option<
        DateTime,
    >)
        ensures
            made is Some <==> is_calendar_time(
                year as int,
                month as int,
                day as int,
                hour as int,
                minute as int,
                second as int,
            ),
            made matches Some(t) ==> t == (DateTime { year, month, day, hour, minute, second }),
    {
        if year < -9999 || year > 9999 || month < 1 || month > 12 {
            return None;
        }
        if day < 1 || day > month_length(year, month) {
            return None;
        }
        if hour >= 24 || minute >= 60 || second >= 60 {
            return None;
        }
        Some(DateTime { year, month, day, hour, minute, second })
    }
}

/// Whether `year` is a leap year.
pub fn leap_year(year: i32) -> (leap: bool)
    ensures
        leap == is_leap_year(year as int),
{
    // Shifted by a multiple of 400 the year is positive and keeps its remainders.
    let shifted: i64 = year as i64 + 2_147_484_000;
    proof {
        lemma_mod_multiples_vanish(536_871_000, year as int, 4);
        lemma_mod_multiples_vanish(21_474_840, year as int, 100);
        lemma_mod_multiples_vanish(5_368_710, year as int, 400);
    }
    shifted % 4 == 0 && (shifted % 100 != 0 || shifted % 400 == 0)
}

/// The number of days of `month` in `year`; 0 when `month` is not a month.
pub fn month_length(year: i32, month: u8) -> (days: u8)
    ensures
        days == days_in_month(year as int, month as int),
{
    if month == 2 {
        if leap_year(year) {
            29
        } else {
            28
        }
    } else if month == 4 || month == 6 || month == 9 || month == 11 {
        30
    } else if 1 <= month && month <= 12 {
        31
    } else {
        0
    }
}

/// The byte `-`, between the fields of a date.
pub const DASH: u8 = 45;

/// The byte `.`, before the fraction of a second.
pub const POINT: u8 = 46;

/// The byte `:`, between the fields of a time.
pub const COLON: u8 = 58;

/// The byte `T`, between date and time.
pub const LETTER_T: u8 = 84;

/// Whether a byte is a decimal digit.
pub open spec fn is_digit(byte: u8) -> bool {
    48 <= byte <= 57
}

/// The number that a run of digits spells, most significant digit first.
pub open spec fn digits_value(digits: Seq<u8>) -> nat
    decreases digits.len(),
{
    if digits.len() == 0 {
        0
    } else {
        digits_value(digits.drop_last()) * 10 + (digits.last() - 48) as nat
    }
}

/// The number that a field spells: the field has at least one byte, and all of
/// them are digits.
pub open spec fn number_of(field: Seq<u8>) -> Option<nat> {
    if field.len() > 0 && (forall|i: int| 0 <= i < field.len() ==> is_digit(#[trigger] field[i])) {
        Some(digits_value(field))
    } else {
        None
    }
}

/// The position of the first byte at or after `from` that is `mark` or
/// `other`; the length of the text when there is none.
pub open spec fn find_from(text: Seq<u8>, mark: u8, other: u8, from: int) -> int
    decreases text.len() - from,
{
    if from < 0 || from >= text.len() {
        text.len() as int
    } else if text[from] == mark || text[from] == other {
        from
    } else {
        find_from(text, mark, other, from + 1)
    }
}

/// The moment that a timestamp names.
///
/// A timestamp is a date, the letter `T`, and a time of day. The date is year,
/// month and day with `-` between them; the time is hour, minute and second
/// with `:` between them. Each field is a run of digits. The second ends at the
/// end of the text or at the first `.` or `:` after it, and what follows there
/// (a fraction, an offset) is not read. The six numbers have to name a moment
/// that exists.
pub open spec fn timestamp_of(text: Seq<u8>) -> Option<DateTime> {
    let t = find_from(text, LETTER_T, LETTER_T, 0);
    let d1 = find_from(text, DASH, DASH, 0);
    let d2 = find_from(text, DASH, DASH, d1 + 1);
    let c1 = find_from(text, COLON, COLON, t + 1);
    let c2 = find_from(text, COLON, COLON, c1 + 1);
    let end = find_from(text, POINT, COLON, c2 + 1);
    if d1 < d2 && d2 < t && t < c1 && c1 < c2 && c2 < text.len() {
        match (
            number_of(text.subrange(0, d1)),
            number_of(text.subrange(d1 + 1, d2)),
            number_of(text.subrange(d2 + 1, t)),
            number_of(text.subrange(t + 1, c1)),
            number_of(text.subrange(c1 + 1, c2)),
            number_of(text.subrange(c2 + 1, end)),
        ) {
            (Some(year), Some(month), Some(day), Some(hour), Some(minute), Some(second)) => {
                if is_calendar_time(
                    year as int,
                    month as int,
                    day as int,
                    hour as int,
                    minute as int,
                    second as int,
                ) {
                    Some(
                        DateTime {
                            year: year as i32,
                            month: month as u8,
                            day: day as u8,
                            hour: hour as u8,
                            minute: minute as u8,
                            second: second as u8,
                        },
                    )
                } else {
                    None
                }
            },
            _ => None,
        }
    } else {
        None
    }
}

/// The position of the first `mark` or `other` at or after `from`, or the
/// length of `text`.
fn find(text: &[u8], mark: u8, other: u8, from: usize) -> (at: usize)
    requires
        from <= text@.len(),
    ensures
        at == find_from(text@, mark, other, from as int),
        from <= at <= text@.len(),
{
    let mut at = from;
    while at < text.len() && text[at] != mark && text[at] != other
        invariant
            from <= at <= text@.len(),
            find_from(text@, mark, other, at as int) == find_from(text@, mark, other, from as int),
        decreases text@.len() - at,
    {
        at = at + 1;
    }
    at
}

/// The largest number that any field of a moment can hold; a field that spells
/// more is read as one more than this.
pub const FIELD_LIMIT: u32 = 9999;

/// Reads the field between `from` and `to`. A field that spells more than
/// `FIELD_LIMIT` is read as `FIELD_LIMIT + 1`.
fn read_number(text: &[u8], from: usize, to: usize) -> (number: Option<u32>)
    requires
        from <= to <= text@.len(),
    ensures
        number is Some <==> number_of(text@.subrange(from as int, to as int)) is Some,
        number matches Some(n) ==> {
            let spelled = number_of(text@.subrange(from as int, to as int)).unwrap();
            n == (if spelled <= FIELD_LIMIT {
                spelled
            } else {
                (FIELD_LIMIT + 1) as nat
            })
        },
{
    if from == to {
        return None;
    }
    let ghost field = text@.subrange(from as int, to as int);
    let mut value: u32 = 0;
    let mut at = from;
    while at < to
        invariant
            from <= at <= to <= text@.len(),
            field == text@.subrange(from as int, to as int),
            forall|i: int| 0 <= i < at - from ==> is_digit(#[trigger] field[i]),
            value <= FIELD_LIMIT + 1,
            value == (if digits_value(field.subrange(0, at - from)) <= FIELD_LIMIT {
                digits_value(field.subrange(0, at - from))
            } else {
                (FIELD_LIMIT + 1) as nat
            }),
        decreases to - at,
    {
        let byte = text[at];
        if byte < 48 || byte > 57 {
            assert(!is_digit(field[at - from]));
            return None;
        }
        proof {
            let longer = field.subrange(0, at - from + 1);
            assert(longer.drop_last() =~= field.subrange(0, at - from));
            assert(longer.last() == byte);
        }
        let digit: u32 = (byte - 48) as u32;
        value = value * 10 + digit;
        if value > FIELD_LIMIT {
            value = FIELD_LIMIT + 1;
        }
        at = at + 1;
    }
    assert(field.subrange(0, to - from) =~= field);
    Some(value)
}

/// Reads a timestamp such as `2026-03-01T13:05:09.123`. Text that is no
/// timestamp, or that names a moment that does not exist, gives `None`.
pub fn parse_timestamp(text: &[u8]) -> (moment: Option<DateTime>)
    ensures
        moment == timestamp_of(text@),
        moment matches Some(t) ==> t.valid(),
{
    let t = find(text, LETTER_T, LETTER_T, 0);
    let d1 = find(text, DASH, DASH, 0);
    if t >= text.len() || d1 >= t {
        return None;
    }
    let d2 = find(text, DASH, DASH, d1 + 1);
    if d2 >= t {
        return None;
    }
    let c1 = find(text, COLON, COLON, t + 1);
    if c1 >= text.len() {
        return None;
    }
    let c2 = find(text, COLON, COLON, c1 + 1);
    if c2 >= text.len() {
        return None;
    }
    let end = find(text, POINT, COLON, c2 + 1);
    let year = read_number(text, 0, d1);
    let month = read_number(text, d1 + 1, d2);
    let day = read_number(text, d2 + 1, t);
    let hour = read_number(text, t + 1, c1);
    let minute = read_number(text, c1 + 1, c2);
    let second = read_number(text, c2 + 1, end);
    match (year, month, day, hour, minute, second) {
        (Some(year), Some(month), Some(day), Some(hour), Some(minute), Some(second)) => {
            if month > 12 || day > 31 || hour > 23 || minute > 59 || second > 59 {
                return None;
            }
            DateTime::new(
                year as i32,
                month as u8,
                day as u8,
                hour as u8,
                minute as u8,
                second as u8,
            )
        },
        _ => None,
    }
}

/// Whether the time in the clock chip can be trusted after power-up: it can,
/// unless the chip reports that its oscillator had stopped. A flag that could
/// not be read counts as "kept running".
pub fn check_trust_time(oscillator_stopped: Option<bool>) -> (trusted: bool)
    ensures
        trusted == (oscillator_stopped != Some(true)),
{
    match oscillator_stopped {
        Some(stopped) => !stopped,
        None => true,
    }
}

/// One step of reading the clock chip.
#[derive(Clone, Copy, PartialEq, Eq, Structural, Debug)]
pub enum ClockStep {
    /// Take the power rail.
    AcquireRail,
    /// Read date and time from the chip.
    ReadDateTime,
    /// Give the power rail back.
    ReleaseRail,
}

/// The steps of a clock read: the read, inside the power rail, when the chip is
/// trusted, and no step at all when it is not.
pub open spec fn clock_read_steps(trusted: bool) -> Seq<ClockStep> {
    if trusted {
        seq![ClockStep::AcquireRail, ClockStep::ReadDateTime, ClockStep::ReleaseRail]
    } else {
        Seq::empty()
    }
}

/// What to do to bring the shared clock up to date from the clock chip.
pub fn get_time(trusted: bool) -> (steps: Vec<ClockStep>)
    ensures
        steps@ == clock_read_steps(trusted),
{
    let mut steps: Vec<ClockStep> = Vec::new();
    if !trusted {
        return steps;
    }
    steps.push(ClockStep::AcquireRail);
    steps.push(ClockStep::ReadDateTime);
    steps.push(ClockStep::ReleaseRail);
    assert(steps@ =~= clock_read_steps(trusted));
    steps
}

/// Takes what the clock chip returned: a reading becomes the shared clock, a
/// failed read leaves the shared clock as it was.
pub fn store_reading(clock: &mut Option<DateTime>, reading: Option<DateTime>)
    ensures
        *final(clock) == (match reading {
            Some(moment) => Some(moment),
            None => *old(clock),
        }),
{
    if let Some(moment) = reading {
        *clock = Some(moment);
    }
}

/// The shortest wait before the clock on screen is brought up to date again.
pub const SHORTEST_UPDATE_SECS: u64 = 10;

/// Seconds until the clock on screen is due again, for a screen that is
/// refreshed every `interval` seconds: the interval less the seconds of the
/// running minute that have passed, but not less than `SHORTEST_UPDATE_SECS`
/// (or than the interval, where that is shorter); the whole interval while the
/// time is unknown.
pub open spec fn update_delay_of(clock: Option<DateTime>, interval: u64) -> int {
    let shortest = if interval < SHORTEST_UPDATE_SECS {
        interval
    } else {
        SHORTEST_UPDATE_SECS
    };
    match clock {
        Some(moment) => if interval - moment.second > shortest {
            interval - moment.second
        } else {
            shortest as int
        },
        None => interval as int,
    }
}

/// Seconds to wait before the clock on screen is brought up to date again.
pub fn update_delay(clock: Option<DateTime>, interval: u64) -> (seconds: u64)
    ensures
        seconds == update_delay_of(clock, interval),
        seconds <= interval,
{
    let shortest: u64 = if interval < SHORTEST_UPDATE_SECS {
        interval
    } else {
        SHORTEST_UPDATE_SECS
    };
    match clock {
        Some(moment) => {
            let passed: u64 = moment.second as u64;
            if interval > passed && interval - passed > shortest {
                interval - passed
            } else {
                shortest
            }
        },
        None => interval,
    }
}

} // verus!
