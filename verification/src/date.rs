//! Calendar dates as plain values, with validity, ordering, and the
//! `YYYY-MM-DD` textual form the remote API expects.

use vstd::prelude::*;

use crate::text::{four_digit_seq, push_four_digits, push_char, push_two_digits, two_digit_seq};

verus! {

/// A calendar date held as plain year, month, and day numbers.
#[derive(Clone, Copy, Debug, PartialEq, Eq, Structural)]
pub struct Date {
    pub year: u16,
    pub month: u8,
    pub day: u8,
}

/// Holds of leap years in the proleptic Gregorian calendar.
pub open spec fn leap_year(y: int) -> bool {
    y % 4 == 0 && (y % 100 != 0 || y % 400 == 0)
}

/// The number of days in the given month of the given year.
pub open spec fn days_in_month(y: int, m: int) -> int {
    if m == 2 {
        if leap_year(y) {
            29
        } else {
            28
        }
    } else if m == 4 || m == 6 || m == 9 || m == 11 {
        30
    } else {
        31
    }
}

impl Date {
    /// A well-formed date: the year fits four digits and the day exists
    /// in the month.
    pub open spec fn valid(self) -> bool {
        &&& 1 <= self.year <= 9999
        &&& 1 <= self.month <= 12
        &&& 1 <= self.day <= days_in_month(self.year as int, self.month as int)
    }

    /// The `YYYY-MM-DD` form of the date.
    pub open spec fn str_spec(self) -> Seq<char> {
        four_digit_seq(self.year as int) + seq!['-'] + two_digit_seq(self.month as int)
            + seq!['-'] + two_digit_seq(self.day as int)
    }

    /// Chronological order: `self` is on or before `other`.
    pub open spec fn spec_le(self, other: Date) -> bool {
        ||| self.year < other.year
        ||| (self.year == other.year && self.month < other.month)
        ||| (self.year == other.year && self.month == other.month && self.day <= other.day)
    }

    /// Decides validity of the date.
    pub fn is_valid(&self) -> (r: bool)
        ensures
            r == self.valid(),
    {
        let month_ok = 1 <= self.month && self.month <= 12;
        if !(1 <= self.year && self.year <= 9999) || !month_ok {
            return false;
        }
        let leap = self.year % 4 == 0 && (self.year % 100 != 0 || self.year % 400 == 0);
        let limit: u8 = if self.month == 2 {
            if leap {
                29
            } else {
                28
            }
        } else if self.month == 4 || self.month == 6 || self.month == 9 || self.month == 11 {
            30
        } else {
            31
        };
        1 <= self.day && self.day <= limit
    }

    /// Decides whether `self` is on or before `other`.
    pub fn le(&self, other: &Date) -> (r: bool)
        ensures
            r == self.spec_le(*other),
    {
        if self.year != other.year {
            self.year < other.year
        } else if self.month != other.month {
            self.month < other.month
        } else {
            self.day <= other.day
        }
    }

    /// Appends the `YYYY-MM-DD` form of the date.
    pub fn push_onto(&self, s: &mut String)
        requires
            self.valid(),
        ensures
            final(s)@ == old(s)@ + self.str_spec(),
    {
        push_four_digits(s, self.year);
        push_char(s, '-');
        push_two_digits(s, self.month);
        push_char(s, '-');
        push_two_digits(s, self.day);
        proof {
            assert(s@ =~= old(s)@ + self.str_spec());
        }
    }

    /// The `YYYY-MM-DD` form as a fresh string.
    pub fn to_query_string(&self) -> (r: String)
        requires
            self.valid(),
        ensures
            r@ == self.str_spec(),
    {
        let mut s = String::new();
        self.push_onto(&mut s);
        proof {
            assert(s@ =~= self.str_spec());
        }
        s
    }
}

} // verus!
