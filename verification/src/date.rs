use vstd::prelude::*;

use chrono::Datelike;

verus! {

/// A proleptic Gregorian calendar date, held as plain year, month and day
/// so that validation and comparison are ordinary arithmetic.
#[derive(Clone, Copy, PartialEq, Eq, Structural, Debug)]
pub struct Date {
    pub year: i32,
    pub month: u8,
    pub day: u8,
}

pub open spec fn is_leap_year(y: int) -> bool {
    (y % 4 == 0 && y % 100 != 0) || y % 400 == 0
}

pub open spec fn days_in_month(y: int, m: int) -> int {
    if m == 2 {
        if is_leap_year(y) {
            29
        } else {
            28
        }
    } else if m == 4 || m == 6 || m == 9 || m == 11 {
        30
    } else {
        31
    }
}

impl Date {
    /// A real common-era calendar date: the month exists and the day
    /// exists within that month of that year.
    pub open spec fn wf(self) -> bool {
        &&& 0 <= self.year
        &&& 1 <= self.month <= 12
        &&& 1 <= self.day <= days_in_month(self.year as int, self.month as int)
    }

    /// Chronological order: `self` falls on or before `other`.
    pub open spec fn le(self, other: Date) -> bool {
        ||| self.year < other.year
        ||| (self.year == other.year && self.month < other.month)
        ||| (self.year == other.year && self.month == other.month && self.day <= other.day)
    }

    pub fn is_valid(&self) -> (r: bool)
        ensures
            r == self.wf(),
    {
        if self.year < 0 {
            return false;
        }
        if self.month < 1 || self.month > 12 {
            return false;
        }
        let last: u8 = days_in_month_count(self.year, self.month);
        1 <= self.day && self.day <= last
    }

    pub fn is_on_or_before(&self, other: &Date) -> (r: bool)
        ensures
            r == self.le(*other),
    {
        if self.year != other.year {
            self.year < other.year
        } else if self.month != other.month {
            self.month < other.month
        } else {
            self.day <= other.day
        }
    }
}

fn days_in_month_count(year: i32, month: u8) -> (r: u8)
    requires
        0 <= year,
        1 <= month <= 12,
    ensures
        r as int == days_in_month(year as int, month as int),
{
    if month == 2 {
        if (year % 4 == 0 && year % 100 != 0) || year % 400 == 0 {
            29
        } else {
            28
        }
    } else if month == 4 || month == 6 || month == 9 || month == 11 {
        30
    } else {
        31
    }
}

/// Tells the current date; injected wherever validation compares against
/// "now", so that callers and tests control it deterministically.
pub trait Clock {
    /// When the clock is in shape to report a real date.
    spec fn inv(&self) -> bool;

    /// The current date.
    fn now(&self) -> (d: Date)
        requires
            self.inv(),
        ensures
            d.wf(),
    ;
}

/// A clock pinned to one date, for deterministic validation.
#[derive(Clone, Copy, Debug)]
pub struct FixedClock {
    pub today: Date,
}

impl Clock for FixedClock {
    open spec fn inv(&self) -> bool {
        self.today.wf()
    }

    fn now(&self) -> (d: Date) {
        self.today
    }
}

/// The machine's own clock, read through chrono.
#[derive(Clone, Copy, Debug)]
pub struct SystemClock;

impl Clock for SystemClock {
    open spec fn inv(&self) -> bool {
        true
    }

    fn now(&self) -> (d: Date) {
        chrono_today()
    }
}

/// Relies on chrono::Utc::now and chrono's Datelike accessors (year,
/// month, day): a chrono NaiveDate is a real calendar date, with the
/// month in 1..=12 and the day valid for that month of that year, and
/// the process clock stands at a common-era date.
#[verifier::external_body]
fn chrono_today() -> (d: Date)
    ensures
        d.wf(),
{
    let now = chrono::Utc::now().date_naive();
    Date { year: now.year(), month: now.month() as u8, day: now.day() as u8 }
}

} // verus!
