//! Timestamps of listing entries: a calendar date and a time of day to the
//! minute, without a time zone.

use crate::error::ValueFault;
use crate::text::{char_is_digit, chars_of, digit_value, is_digit};
use vstd::prelude::*;

verus! {

/// A date and a time of day: what a [`Timestamp`] stands for.
pub struct Moment {
    pub year: int,
    pub month: int,
    pub day: int,
    pub hour: int,
    pub minute: int,
}

/// Whether `year` has a 29th of February.
pub open spec fn is_leap_year(year: int) -> bool {
    year % 4 == 0 && (year % 100 != 0 || year % 400 == 0)
}

/// The number of days of a month.
pub open spec fn days_in_month(year: int, month: int) -> int {
    if month == 2 {
        if is_leap_year(year) {
            29
        } else {
            28
        }
    } else if month == 4 || month == 6 || month == 9 || month == 11 {
        30
    } else {
        31
    }
}

impl Moment {
    /// Whether the moment exists: a year of at most four digits, a month of
    /// that year, a day of that month, an hour below 24, a minute below 60.
    pub open spec fn valid(self) -> bool {
        &&& 0 <= self.year <= 9999
        &&& 1 <= self.month <= 12
        &&& 1 <= self.day <= days_in_month(self.year, self.month)
        &&& 0 <= self.hour <= 23
        &&& 0 <= self.minute <= 59
    }
}

/// A date and a time of day that exist.
#[derive(Clone, Copy, Debug, PartialEq, Eq, Structural)]
pub struct Timestamp {
    year: u16,
    month: u8,
    day: u8,
    hour: u8,
    minute: u8,
}

impl View for Timestamp {
    type V = Moment;

    closed spec fn view(&self) -> Moment {
        Moment {
            year: self.year as int,
            month: self.month as int,
            day: self.day as int,
            hour: self.hour as int,
            minute: self.minute as int,
        }
    }
}

/// Whether `s[from..to]` holds decimal digits only.
pub open spec fn digits_at(s: Seq<char>, from: int, to: int) -> bool {
    forall|i: int| from <= i < to ==> is_digit(#[trigger] s[i])
}

/// The shape `YYYY-MM-DD HH:MM`: sixteen characters, digits but for the two
/// hyphens, the space and the colon.
pub open spec fn has_shape(s: Seq<char>) -> bool {
    &&& s.len() == 16
    &&& digits_at(s, 0, 4)
    &&& s[4] == '-'
    &&& digits_at(s, 5, 7)
    &&& s[7] == '-'
    &&& digits_at(s, 8, 10)
    &&& s[10] == ' '
    &&& digits_at(s, 11, 13)
    &&& s[13] == ':'
    &&& digits_at(s, 14, 16)
}

/// The number that the two digits at `at` write.
pub open spec fn two_digits(s: Seq<char>, at: int) -> int {
    10 * (digit_value(s[at]) as int) + (digit_value(s[at + 1]) as int)
}

/// The number that the four digits at `at` write.
pub open spec fn four_digits(s: Seq<char>, at: int) -> int {
    100 * two_digits(s, at) + two_digits(s, at + 2)
}

/// The fields of a text of the shape `YYYY-MM-DD HH:MM`.
pub open spec fn fields_of(s: Seq<char>) -> Moment {
    Moment {
        year: four_digits(s, 0),
        month: two_digits(s, 5),
        day: two_digits(s, 8),
        hour: two_digits(s, 11),
        minute: two_digits(s, 14),
    }
}

/// The moment that `s` writes. A text of another shape than
/// `YYYY-MM-DD HH:MM` is `Malformed`; one of that shape that names no
/// moment, such as a 30th of February, is `OutOfRange`.
pub open spec fn moment_of(s: Seq<char>) -> Result<Moment, ValueFault> {
    if !has_shape(s) {
        Err(ValueFault::Malformed)
    } else if !fields_of(s).valid() {
        Err(ValueFault::OutOfRange)
    } else {
        Ok(fields_of(s))
    }
}

/// Whether `s[from..to]` holds decimal digits only.
fn check_digits(s: &[char], from: usize, to: usize) -> (r: bool)
    requires
        from <= to <= s@.len(),
    ensures
        r == digits_at(s@, from as int, to as int),
{
    let mut i: usize = from;
    while i < to
        invariant
            from <= i <= to <= s@.len(),
            digits_at(s@, from as int, i as int),
        decreases to - i,
    {
        if !char_is_digit(s[i]) {
            return false;
        }
        i += 1;
    }
    true
}

/// The number that the two digits at `at` write.
fn read_two(s: &[char], at: usize) -> (r: u8)
    requires
        at + 2 <= s@.len(),
        is_digit(s@[at as int]),
        is_digit(s@[at + 1]),
    ensures
        r == two_digits(s@, at as int),
        r <= 99,
{
    let high: u32 = s[at] as u32 - '0' as u32;
    let low: u32 = s[at + 1] as u32 - '0' as u32;
    (10 * high + low) as u8
}

/// The number of days of a month.
pub fn month_length(year: u16, month: u8) -> (r: u8)
    ensures
        r == days_in_month(year as int, month as int),
{
    if month == 2 {
        if year % 4 == 0 && (year % 100 != 0 || year % 400 == 0) {
            29
        } else {
            28
        }
    } else if month == 4 || month == 6 || month == 9 || month == 11 {
        30
    } else {
        31
    }
}

impl Timestamp {
    /// Every timestamp is a moment that exists.
    #[verifier::type_invariant]
    spec fn exists_in_calendar(&self) -> bool {
        self@.valid()
    }

    /// The timestamp of the given fields, or `None` where they name no
    /// moment.
    pub fn new(year: u16, month: u8, day: u8, hour: u8, minute: u8) -> (r: Option<Timestamp>)
        ensures
            r is Some <==> (Moment {
                year: year as int,
                month: month as int,
                day: day as int,
                hour: hour as int,
                minute: minute as int,
            }).valid(),
            r matches Some(t) ==> t@ == (Moment {
                year: year as int,
                month: month as int,
                day: day as int,
                hour: hour as int,
                minute: minute as int,
            }),
    {
        if year <= 9999 && 1 <= month && month <= 12 && 1 <= day && day <= month_length(year, month)
            && hour <= 23 && minute <= 59 {
            Some(Timestamp { year, month, day, hour, minute })
        } else {
            None
        }
    }

    /// Reads a timestamp of the shape `YYYY-MM-DD HH:MM`.
    pub fn parse_chars(s: &[char]) -> (r: Result<Timestamp, ValueFault>)
        ensures
            match r {
                Ok(t) => moment_of(s@) == Ok::<Moment, ValueFault>(t@),
                Err(fault) => moment_of(s@) == Err::<Moment, ValueFault>(fault),
            },
    {
        if s.len() != 16 {
            return Err(ValueFault::Malformed);
        }
        if !(check_digits(s, 0, 4) && s[4] == '-' && check_digits(s, 5, 7) && s[7] == '-'
            && check_digits(s, 8, 10) && s[10] == ' ' && check_digits(s, 11, 13) && s[13] == ':'
            && check_digits(s, 14, 16)) {
            return Err(ValueFault::Malformed);
        }
        let century = read_two(s, 0);
        let years = read_two(s, 2);
        let year: u16 = 100 * (century as u16) + (years as u16);
        let month = read_two(s, 5);
        let day = read_two(s, 8);
        let hour = read_two(s, 11);
        let minute = read_two(s, 14);
        match Timestamp::new(year, month, day, hour, minute) {
            Some(t) => Ok(t),
            None => Err(ValueFault::OutOfRange),
        }
    }

    /// Reads a timestamp of the shape `YYYY-MM-DD HH:MM`.
    pub fn parse(text: &str) -> (r: Result<Timestamp, ValueFault>)
        ensures
            match r {
                Ok(t) => moment_of(text@) == Ok::<Moment, ValueFault>(t@),
                Err(fault) => moment_of(text@) == Err::<Moment, ValueFault>(fault),
            },
    {
        let chars = chars_of(text);
        Timestamp::parse_chars(chars.as_slice())
    }

    pub fn year(&self) -> (r: u16)
        ensures
            r == self@.year,
    {
        self.year
    }

    pub fn month(&self) -> (r: u8)
        ensures
            r == self@.month,
            1 <= r <= 12,
    {
        proof {
            use_type_invariant(self);
        }
        self.month
    }

    pub fn day(&self) -> (r: u8)
        ensures
            r == self@.day,
            1 <= r <= days_in_month(self@.year, self@.month),
    {
        proof {
            use_type_invariant(self);
        }
        self.day
    }

    pub fn hour(&self) -> (r: u8)
        ensures
            r == self@.hour,
            r <= 23,
    {
        proof {
            use_type_invariant(self);
        }
        self.hour
    }

    pub fn minute(&self) -> (r: u8)
        ensures
            r == self@.minute,
            r <= 59,
    {
        proof {
            use_type_invariant(self);
        }
        self.minute
    }
}

} // verus!
