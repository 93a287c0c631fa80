//! Points in time, as whole seconds since the Unix epoch and nanoseconds
//! within the second.

use vstd::prelude::*;
use vstd::string::*;

verus! {

pub const NANOS_PER_SECOND: u32 = 1_000_000_000;

/// A point in time in UTC.
#[derive(Debug, Clone, Copy, PartialEq, Eq, Structural)]
pub struct Timestamp {
    pub seconds: i64,
    pub nanos: u32,
}

impl Timestamp {
    /// Whether this is a time that a calendar date can have: nanoseconds below
    /// two seconds (a leap second counts past the first), and seconds whose
    /// milliseconds still fit in 64 bits.
    pub open spec fn wf(&self) -> bool {
        &&& self.nanos < 2 * NANOS_PER_SECOND
        &&& -9_223_372_036_854_775 <= self.seconds <= 9_223_372_036_854_773
    }

    /// Whether this point lies after `other`.
    pub open spec fn after(&self, other: Timestamp) -> bool {
        self.seconds > other.seconds || (self.seconds == other.seconds && self.nanos > other.nanos)
    }

    /// Milliseconds since the epoch, rounded down.
    pub open spec fn millis(&self) -> int {
        self.seconds * 1000 + (self.nanos as int) / 1_000_000
    }

    pub fn is_after(&self, other: &Timestamp) -> (r: bool)
        ensures
            r == self.after(*other),
    {
        self.seconds > other.seconds || (self.seconds == other.seconds && self.nanos > other.nanos)
    }

    /// Milliseconds since the epoch, rounded down.
    pub fn timestamp_millis(&self) -> (r: i64)
        requires
            self.wf(),
        ensures
            r == self.millis(),
    {
        self.seconds * 1000 + (self.nanos / 1_000_000) as i64
    }
}

// Reading RFC 3339.

pub open spec fn is_digit(c: char) -> bool {
    '0' <= c <= '9'
}

pub open spec fn digit_value(c: char) -> int {
    c as int - 48
}

/// The number that the first `width` places of `s` make, where each place past
/// the end of `s` counts as a zero.
pub open spec fn leading_number(s: Seq<char>, width: nat) -> int
    decreases width,
{
    if width == 0 {
        0
    } else {
        let place = (width - 1) as nat;
        leading_number(s, place) * 10 + if place < s.len() {
            digit_value(s[place as int])
        } else {
            0
        }
    }
}

/// The number written with `width` digits at `at`.
pub open spec fn field(s: Seq<char>, at: int, width: nat) -> Option<int> {
    if 0 <= at && at + width <= s.len() && (forall|i: int|
        at <= i < at + width ==> is_digit(#[trigger] s[i])) {
        Some(leading_number(s.skip(at), width))
    } else {
        None
    }
}

/// How many digits stand at `at` and behind it.
pub open spec fn digit_run(s: Seq<char>, at: int) -> nat
    decreases s.len() - at,
{
    if 0 <= at < s.len() && is_digit(s[at]) {
        1 + digit_run(s, at + 1)
    } else {
        0
    }
}

pub open spec fn is_leap_year(year: int) -> bool {
    year % 4 == 0 && (year % 100 != 0 || year % 400 == 0)
}

pub open spec fn days_in_month(year: int, month: int) -> int {
    if month == 2 {
        if is_leap_year(year) {
            29
        } else {
            28
        }
    } else if month == 4 || month == 6 || month == 9 || month == 11 {
        30
    } else {
        31
    }
}

/// The days of a year that come before a month.
pub open spec fn days_before_month(year: int, month: int) -> int
    decreases month,
{
    if month <= 1 {
        0
    } else {
        days_before_month(year, month - 1) + days_in_month(year, month - 1)
    }
}

/// The days from the beginning of the year 0 to that of `year`: 365 for each
/// year, and one more for each leap year among them.
pub open spec fn days_before_year(year: int) -> int {
    365 * year + (year + 3) / 4 - (year + 99) / 100 + (year + 399) / 400
}

/// The days from the epoch to a date.
pub open spec fn days_since_epoch(year: int, month: int, day: int) -> int {
    days_before_year(year) - days_before_year(1970) + days_before_month(year, month) + day - 1
}

/// The date at the beginning of a text, as days since the epoch.
pub open spec fn date_of(s: Seq<char>) -> Option<int> {
    match (field(s, 0, 4), field(s, 5, 2), field(s, 8, 2)) {
        (Some(year), Some(month), Some(day)) => if s[4] == '-' && s[7] == '-' && 1 <= month <= 12
            && 1 <= day <= days_in_month(year, month) {
            Some(days_since_epoch(year, month, day))
        } else {
            None
        },
        _ => None,
    }
}

/// The time of day that follows the date: the hour, the minute, and the second,
/// which is 60 in a leap second.
pub open spec fn time_of(s: Seq<char>) -> Option<(int, int, int)> {
    match (field(s, 11, 2), field(s, 14, 2), field(s, 17, 2)) {
        (Some(hour), Some(minute), Some(second)) => if s[13] == ':' && s[16] == ':' && hour <= 23
            && minute <= 59 && second <= 60 {
            Some((hour, minute, second))
        } else {
            None
        },
        _ => None,
    }
}

/// The nanoseconds that follow the time of day, and where the text goes on.
/// Digits past the ninth are not looked at.
pub open spec fn fraction_of(s: Seq<char>) -> Option<(int, int)> {
    if s.len() > 19 && s[19] == '.' {
        let digits = digit_run(s, 20) as int;
        if digits > 0 {
            Some((leading_number(s.subrange(20, 20 + digits), 9), 20 + digits))
        } else {
            None
        }
    } else {
        Some((0, 19))
    }
}

/// The offset from UTC at `at`, which ends the text, in seconds.
pub open spec fn offset_of(s: Seq<char>, at: int) -> Option<int> {
    if s.len() == at + 1 && (s[at] == 'Z' || s[at] == 'z') {
        Some(0)
    } else if s.len() == at + 6 && (s[at] == '+' || s[at] == '-') && s[at + 3] == ':' {
        match (field(s, at + 1, 2), field(s, at + 4, 2)) {
            (Some(hours), Some(minutes)) => if hours <= 23 && minutes <= 59 {
                let size = hours * 3600 + minutes * 60;
                Some(
                    if s[at] == '+' {
                        size
                    } else {
                        -size
                    },
                )
            } else {
                None
            },
            _ => None,
        }
    } else {
        None
    }
}

/// The point in time that a text states by RFC 3339, as seconds since the epoch
/// and nanoseconds; nothing where it states none. A leap second counts as the
/// second before it, with the nanoseconds past the first billion.
pub open spec fn rfc3339(s: Seq<char>) -> Option<(int, int)> {
    match (date_of(s), time_of(s), fraction_of(s)) {
        (Some(days), Some((hour, minute, second)), Some((nanos, end))) => if s[10] == 'T' || s[10]
            == 't' || s[10] == ' ' {
            match offset_of(s, end) {
                Some(offset) => Some(
                    if second == 60 {
                        (
                            days * 86400 + hour * 3600 + minute * 60 + 59 - offset,
                            nanos + NANOS_PER_SECOND,
                        )
                    } else {
                        (days * 86400 + hour * 3600 + minute * 60 + second - offset, nanos)
                    },
                ),
                None => None,
            }
        } else {
            None
        },
        _ => None,
    }
}

fn value_of(c: char) -> (r: i64)
    requires
        is_digit(c),
    ensures
        r == digit_value(c),
        0 <= r <= 9,
{
    c as u32 as i64 - 48
}

fn read_field(text: &str, at: usize, width: usize) -> (r: Option<i64>)
    requires
        width == 2 || width == 4,
    ensures
        match r {
            Some(v) => field(text@, at as int, width as nat) == Some(v as int) && 0 <= v && v <= 9999
                && (width == 2 ==> v <= 99),
            None => field(text@, at as int, width as nat) is None,
        },
{
    let n: usize = text.unicode_len();
    if n < width || at > n - width {
        return None;
    }
    let ghost s = text@.skip(at as int);
    let mut value: i64 = 0;
    let mut k: usize = 0;
    while k < width
        invariant
            width == 2 || width == 4,
            n == text@.len(),
            at + width <= n,
            k <= width,
            s == text@.skip(at as int),
            value == leading_number(s, k as nat),
            forall|i: int| at <= i < at + k ==> is_digit(#[trigger] text@[i]),
            k == 0 ==> value == 0,
            k == 1 ==> 0 <= value <= 9,
            k == 2 ==> 0 <= value <= 99,
            k == 3 ==> 0 <= value <= 999,
            k == 4 ==> 0 <= value <= 9999,
        decreases width - k,
    {
        let c = text.get_char(at + k);
        if !('0' <= c && c <= '9') {
            assert(!is_digit(text@[at + k]));
            return None;
        }
        assert(s[k as int] == c);
        value = value * 10 + value_of(c);
        k = k + 1;
    }
    Some(value)
}

fn read_fraction(text: &str) -> (r: Option<(i64, usize)>)
    ensures
        match r {
            Some((nanos, end)) => fraction_of(text@) == Some((nanos as int, end as int)) && 0 <= nanos
                < NANOS_PER_SECOND && (end <= text@.len() || end == 19),
            None => fraction_of(text@) is None,
        },
{
    let n: usize = text.unicode_len();
    if n <= 19 || text.get_char(19) != '.' {
        return Some((0, 19));
    }
    let mut end: usize = 20;
    while end < n && '0' <= text.get_char(end) && text.get_char(end) <= '9'
        invariant
            n == text@.len(),
            20 <= end <= n,
            digit_run(text@, 20) == end - 20 + digit_run(text@, end as int),
            forall|i: int| 20 <= i < end ==> is_digit(#[trigger] text@[i]),
        decreases n - end,
    {
        end = end + 1;
    }
    if end == 20 {
        return None;
    }
    let ghost digits = text@.subrange(20, end as int);
    let mut nanos: i64 = 0;
    let mut k: usize = 0;
    while k < 9
        invariant
            n == text@.len(),
            20 <= end <= n,
            k <= 9,
            digits == text@.subrange(20, end as int),
            forall|i: int| 20 <= i < end ==> is_digit(#[trigger] text@[i]),
            nanos == leading_number(digits, k as nat),
            k == 0 ==> nanos == 0,
            k == 1 ==> 0 <= nanos <= 9,
            k == 2 ==> 0 <= nanos <= 99,
            k == 3 ==> 0 <= nanos <= 999,
            k == 4 ==> 0 <= nanos <= 9999,
            k == 5 ==> 0 <= nanos <= 99999,
            k == 6 ==> 0 <= nanos <= 999999,
            k == 7 ==> 0 <= nanos <= 9999999,
            k == 8 ==> 0 <= nanos <= 99999999,
            k == 9 ==> 0 <= nanos <= 999999999,
        decreases 9 - k,
    {
        let mut value: i64 = 0;
        if k < end - 20 {
            value = value_of(text.get_char(20 + k));
            assert(digits[k as int] == text@[20 + k]);
        }
        nanos = nanos * 10 + value;
        k = k + 1;
    }
    Some((nanos, end))
}

fn read_offset(text: &str, at: usize) -> (r: Option<i64>)
    requires
        19 <= at <= text@.len() || at == 19,
    ensures
        match r {
            Some(offset) => offset_of(text@, at as int) == Some(offset as int) && -86400 < offset
                && offset < 86400,
            None => offset_of(text@, at as int) is None,
        },
{
    let n: usize = text.unicode_len();
    if at >= n {
        return None;
    }
    let sign = text.get_char(at);
    if n - at == 1 && (sign == 'Z' || sign == 'z') {
        return Some(0);
    }
    if n - at != 6 || !(sign == '+' || sign == '-') || text.get_char(at + 3) != ':' {
        return None;
    }
    match (read_field(text, at + 1, 2), read_field(text, at + 4, 2)) {
        (Some(hours), Some(minutes)) => if hours <= 23 && minutes <= 59 {
            let size: i64 = hours * 3600 + minutes * 60;
            if sign == '+' {
                Some(size)
            } else {
                Some(-size)
            }
        } else {
            None
        },
        _ => None,
    }
}

fn month_days(year: i64, month: i64) -> (r: i64)
    requires
        0 <= year <= 9999,
    ensures
        r == days_in_month(year as int, month as int),
        28 <= r <= 31,
{
    if month == 2 {
        if year % 4 == 0 && (year % 100 != 0 || year % 400 == 0) {
            29
        } else {
            28
        }
    } else if month == 4 || month == 6 || month == 9 || month == 11 {
        30
    } else {
        31
    }
}

fn read_date(text: &str) -> (r: Option<i64>)
    ensures
        match r {
            Some(days) => date_of(text@) == Some(days as int) && -1_000_000 < days < 4_000_000,
            None => date_of(text@) is None,
        },
{
    match (read_field(text, 0, 4), read_field(text, 5, 2), read_field(text, 8, 2)) {
        (Some(year), Some(month), Some(day)) => {
            if text.get_char(4) != '-' || text.get_char(7) != '-' || month < 1 || month > 12 || day
                < 1 || day > month_days(year, month) {
                return None;
            }
            let mut before: i64 = 0;
            let mut m: i64 = 1;
            while m < month
                invariant
                    0 <= year <= 9999,
                    1 <= m <= month <= 12,
                    before == days_before_month(year as int, m as int),
                    0 <= before <= 31 * (m - 1),
                decreases month - m,
            {
                before = before + month_days(year, m);
                m = m + 1;
            }
            let to_year: i64 = 365 * year + (year + 3) / 4 - (year + 99) / 100 + (year + 399) / 400;
            Some(to_year - 719_528 + before + day - 1)
        },
        _ => None,
    }
}

fn read_time(text: &str) -> (r: Option<(i64, i64, i64)>)
    ensures
        match r {
            Some((hour, minute, second)) => {
                &&& time_of(text@) == Some((hour as int, minute as int, second as int))
                &&& 0 <= hour <= 23 && 0 <= minute <= 59 && 0 <= second <= 60
            },
            None => time_of(text@) is None,
        },
{
    match (read_field(text, 11, 2), read_field(text, 14, 2), read_field(text, 17, 2)) {
        (Some(hour), Some(minute), Some(second)) => if text.get_char(13) == ':' && text.get_char(16)
            == ':' && hour <= 23 && minute <= 59 && second <= 60 {
            Some((hour, minute, second))
        } else {
            None
        },
        _ => None,
    }
}

/// The point in time that a text states by RFC 3339, such as
/// `2026-01-01T10:00:00.500Z`; nothing where it states none.
pub fn parse_rfc3339(text: &str) -> (r: Option<Timestamp>)
    ensures
        match r {
            Some(t) => rfc3339(text@) == Some((t.seconds as int, t.nanos as int)) && t.wf(),
            None => rfc3339(text@) is None,
        },
{
    match (read_date(text), read_time(text), read_fraction(text)) {
        (Some(days), Some((hour, minute, second)), Some((nanos, end))) => {
            let separator = text.get_char(10);
            if separator != 'T' && separator != 't' && separator != ' ' {
                return None;
            }
            match read_offset(text, end) {
                Some(offset) => {
                    let whole: i64 = if second == 60 {
                        59
                    } else {
                        second
                    };
                    let past: i64 = if second == 60 {
                        1_000_000_000
                    } else {
                        0
                    };
                    Some(
                        Timestamp {
                            seconds: days * 86400 + hour * 3600 + minute * 60 + whole - offset,
                            nanos: (nanos + past) as u32,
                        },
                    )
                },
                None => None,
            }
        },
        _ => None,
    }
}

} // verus!
