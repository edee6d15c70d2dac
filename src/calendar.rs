//! Calendar days, UTC hour buckets and the validation of requested day ranges.

use chrono::Datelike;
use vstd::prelude::*;

verus! {

/// Seconds in one hour bucket.
pub const SECONDS_PER_HOUR: i64 = 3600;

/// Seconds in one UTC day.
pub const SECONDS_PER_DAY: i64 = 86400;

/// Day number of 1970-01-01 (0001-01-01 is day 1).
pub const UNIX_EPOCH_DAY: i32 = 719163;

/// Longest day range that a caller may request.
pub const MAX_REQUEST_DAYS: i64 = 31;

/// A calendar day, as the number of days from the common era
/// (0001-01-01 is day 1).
#[derive(Clone, Copy, Debug, PartialEq, Eq, Structural)]
pub struct Day {
    pub n: i32,
}

/// What `parse_calendar_day` returns: the day number of a `YYYY-MM-DD` text,
/// or `None` where the text is no such date.
pub uninterp spec fn calendar_day_number(s: Seq<char>) -> Option<i32>;

/// Relies on chrono's `NaiveDate::parse_from_str` with the format `%Y-%m-%d`,
/// and on `Datelike::num_days_from_ce` to number the parsed date. A
/// `NaiveDate` lies between the years -262144 and 262142, so its day number
/// stays well within a hundred million of day 0.
#[verifier::external_body]
fn parse_calendar_day(s: &str) -> (r: Option<i32>)
    ensures
        r == calendar_day_number(s@),
        r matches Some(n) ==> -100_000_000 < n < 100_000_000,
{
    match chrono::NaiveDate::parse_from_str(s, "%Y-%m-%d") {
        Ok(d) => Some(d.num_days_from_ce()),
        Err(_) => None,
    }
}

/// The day that a `YYYY-MM-DD` text names, if it names one.
pub open spec fn day_of_text(s: Seq<char>) -> Option<Day> {
    match calendar_day_number(s) {
        Some(n) => Some(Day { n }),
        None => None,
    }
}

impl Day {
    /// First instant of the day, in seconds since the Unix epoch.
    pub open spec fn start_spec(self) -> int {
        (self.n - UNIX_EPOCH_DAY) * SECONDS_PER_DAY
    }

    /// First instant of hour `h` of the day.
    pub open spec fn hour_start_spec(self, h: int) -> int {
        self.start_spec() + h * SECONDS_PER_HOUR
    }

    /// The day after this one; the last representable day has none and stays.
    pub open spec fn next_spec(self) -> Day {
        if self.n < i32::MAX {
            Day { n: (self.n + 1) as i32 }
        } else {
            self
        }
    }

    /// Parses a `YYYY-MM-DD` text.
    pub fn parse(s: &str) -> (r: Option<Day>)
        ensures
            r == day_of_text(s@),
            r matches Some(d) ==> -100_000_000 < d.n < 100_000_000,
    {
        match parse_calendar_day(s) {
            Some(n) => Some(Day { n }),
            None => None,
        }
    }

    pub fn start_timestamp(&self) -> (r: i64)
        ensures
            r == self.start_spec(),
    {
        (self.n as i64 - UNIX_EPOCH_DAY as i64) * SECONDS_PER_DAY
    }

    pub fn hour_start(&self, h: i64) -> (r: i64)
        requires
            0 <= h < 24,
        ensures
            r == self.hour_start_spec(h as int),
    {
        self.start_timestamp() + h * SECONDS_PER_HOUR
    }

    pub fn next(&self) -> (r: Day)
        ensures
            r == self.next_spec(),
    {
        if self.n < i32::MAX {
            Day { n: self.n + 1 }
        } else {
            *self
        }
    }
}

/// A half-open range of days `[start, end)`.
#[derive(Clone, Copy, Debug, PartialEq, Eq, Structural)]
pub struct DayRange {
    pub start: Day,
    pub end: Day,
}

impl DayRange {
    /// Number of days in the range (none when `end` is not after `start`).
    pub open spec fn days_spec(self) -> int {
        if self.end.n > self.start.n {
            self.end.n - self.start.n
        } else {
            0
        }
    }

    pub fn days(&self) -> (r: i64)
        ensures
            r == self.days_spec(),
    {
        if self.end.n > self.start.n {
            self.end.n as i64 - self.start.n as i64
        } else {
            0
        }
    }
}

/// Why a requested day range was refused.
#[derive(Clone, Copy, Debug, PartialEq, Eq, Structural)]
pub enum RangeError {
    /// The start text is no `YYYY-MM-DD` date.
    InvalidStart,
    /// The end text is no `YYYY-MM-DD` date.
    InvalidEnd,
    /// The range is longer than `MAX_REQUEST_DAYS`.
    TooLong,
}

/// End of a requested range once a single-day request (`end <= start`) is
/// widened to the one day `[start, start + 1)`.
pub open spec fn normalized_end(start: Day, end: Day) -> Day {
    if end.n <= start.n {
        start.next_spec()
    } else {
        end
    }
}

/// What a request for `[start, end)` resolves to.
pub open spec fn normalized_range(start: Day, end: Day) -> Result<DayRange, RangeError> {
    let e = normalized_end(start, end);
    if e.n - start.n > MAX_REQUEST_DAYS {
        Err(RangeError::TooLong)
    } else {
        Ok(DayRange { start, end: e })
    }
}

/// Widens a single-day request to one day and refuses ranges longer than
/// `MAX_REQUEST_DAYS`.
pub fn normalize_range(start: Day, end: Day) -> (r: Result<DayRange, RangeError>)
    ensures
        r == normalized_range(start, end),
        start.n < i32::MAX && end.n <= start.n ==> r == Ok::<DayRange, RangeError>(
            DayRange { start, end: Day { n: (start.n + 1) as i32 } },
        ),
        end.n > start.n && end.n - start.n <= MAX_REQUEST_DAYS ==> r == Ok::<DayRange, RangeError>(
            DayRange { start, end },
        ),
{
    let e = if end.n <= start.n {
        start.next()
    } else {
        end
    };
    if e.n as i64 - start.n as i64 > MAX_REQUEST_DAYS {
        Err(RangeError::TooLong)
    } else {
        Ok(DayRange { start, end: e })
    }
}

/// What a request resolves to once its texts have been read as days
/// (`None` for a text that names no day).
pub open spec fn range_of_parsed(start: Option<Day>, end: Option<Day>) -> Result<DayRange, RangeError> {
    match start {
        None => Err(RangeError::InvalidStart),
        Some(s) => match end {
            None => Err(RangeError::InvalidEnd),
            Some(e) => normalized_range(s, e),
        },
    }
}

/// Resolves a request whose texts have been read as days.
pub fn range_from_parsed(start: Option<Day>, end: Option<Day>) -> (r: Result<DayRange, RangeError>)
    ensures
        r == range_of_parsed(start, end),
{
    match start {
        None => Err(RangeError::InvalidStart),
        Some(s) => match end {
            None => Err(RangeError::InvalidEnd),
            Some(e) => normalize_range(s, e),
        },
    }
}

/// The start day of a request whose start text names a day and whose end
/// text is missing or names that day or an earlier one.
pub open spec fn single_day_start(start: Option<Seq<char>>, end: Option<Seq<char>>) -> Option<Day> {
    match start {
        Some(st) => match day_of_text(st) {
            Some(sd) => match end {
                None => Some(sd),
                Some(en) => match day_of_text(en) {
                    Some(ed) => if ed.n <= sd.n {
                        Some(sd)
                    } else {
                        None
                    },
                    None => None,
                },
            },
            None => None,
        },
        None => None,
    }
}

/// Resolves a range request: a missing start means `today`, a missing end means
/// the start's own day.
pub fn parse_range_request(start: Option<&str>, end: Option<&str>, today: Day) -> (r: Result<
    DayRange,
    RangeError,
>)
    ensures
        r == range_of_parsed(
            match start {
                Some(s) => day_of_text(s@),
                None => Some(today),
            },
            match end {
                Some(e) => day_of_text(e@),
                None => match start {
                    Some(s) => day_of_text(s@),
                    None => Some(today),
                },
            },
        ),
        single_day_start(
            match start {
                Some(s) => Some(s@),
                None => None,
            },
            match end {
                Some(e) => Some(e@),
                None => None,
            },
        ) matches Some(sd) ==> r == Ok::<DayRange, RangeError>(
            DayRange { start: sd, end: Day { n: (sd.n + 1) as i32 } },
        ),
{
    let s = match start {
        Some(t) => Day::parse(t),
        None => Some(today),
    };
    let e = match end {
        Some(t) => Day::parse(t),
        None => s,
    };
    range_from_parsed(s, e)
}

/// Query of the single-day deviation view: an optional `YYYY-MM-DD` day.
#[derive(Clone, Debug)]
pub struct SapmaQuery {
    pub gun: Option<String>,
}

impl SapmaQuery {
    /// The requested day, `today` when none is given; `None` when the text
    /// names no day.
    pub fn day_or(&self, today: Day) -> (r: Option<Day>)
        ensures
            r == match self.gun {
                Some(s) => day_of_text(s@),
                None => Some(today),
            },
    {
        match &self.gun {
            Some(s) => Day::parse(s.as_str()),
            None => Some(today),
        }
    }
}

} // verus!
