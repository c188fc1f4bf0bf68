//! Wire timestamps: parsing the RFC 3339 form the API uses into epoch
//! seconds, and the market-open wait computed from the clock response.

use vstd::prelude::*;

use crate::model::market::Clock;
use crate::util::{digit_val, is_digit_char};

verus! {

/// The numeric value of two digit characters.
pub open spec fn num2(s: Seq<char>, i: int) -> int {
    digit_val(s[i]) * 10 + digit_val(s[i + 1]) as int
}

/// The numeric value of four digit characters.
pub open spec fn num4(s: Seq<char>, i: int) -> int {
    digit_val(s[i]) * 1000 + digit_val(s[i + 1]) * 100 + digit_val(s[i + 2]) * 10 + digit_val(
        s[i + 3],
    ) as int
}

/// Whether the characters of `s` in `[from, to)` are all digits.
pub open spec fn digits_in(s: Seq<char>, from: int, to: int) -> bool {
    forall|i: int| from <= i < to ==> is_digit_char(#[trigger] s[i])
}

/// A well-formed fractional-seconds region: empty, or a point followed
/// by at least one digit.
pub open spec fn frac_ok(s: Seq<char>, from: int, to: int) -> bool {
    from == to || (s[from] == '.' && to > from + 1 && digits_in(s, from + 1, to))
}

/// The fixed date-and-time head of a wire timestamp:
/// `YYYY-MM-DDTHH:MM:SS`.
pub open spec fn head_ok(s: Seq<char>) -> bool {
    s.len() >= 20 && digits_in(s, 0, 4) && s[4] == '-' && digits_in(s, 5, 7) && s[7] == '-'
        && digits_in(s, 8, 10) && s[10] == 'T' && digits_in(s, 11, 13) && s[13] == ':'
        && digits_in(s, 14, 16) && s[16] == ':' && digits_in(s, 17, 19)
}

/// A numeric offset tail `±HH:MM` at the end of the timestamp.
pub open spec fn offset_tail_ok(s: Seq<char>) -> bool {
    let n = s.len() as int;
    s.len() >= 25 && (s[n - 6] == '+' || s[n - 6] == '-') && digits_in(s, n - 5, n - 3) && s[n
        - 3] == ':' && digits_in(s, n - 2, n)
}

/// The seconds the offset tail shifts the timestamp by, signed.
pub open spec fn offset_secs(s: Seq<char>) -> int {
    let n = s.len() as int;
    let mag = num2(s, n - 5) * 3600 + num2(s, n - 2) * 60;
    if s[n - 6] == '-' {
        -mag
    } else {
        mag
    }
}

/// Whether `y` is a leap year.
pub open spec fn is_leap_year(y: int) -> bool {
    y % 4 == 0 && (y % 100 != 0 || y % 400 == 0)
}

/// Leap days since the epoch: the number of leap years in `[1970, y)`.
pub open spec fn leap_days_before(y: int) -> int {
    (y - 1) / 4 - (y - 1) / 100 + (y - 1) / 400 - 477
}

/// Days in the months before month `m` of a non-leap year.
pub open spec fn month_days_before(m: int) -> int {
    if m == 1 {
        0
    } else if m == 2 {
        31
    } else if m == 3 {
        59
    } else if m == 4 {
        90
    } else if m == 5 {
        120
    } else if m == 6 {
        151
    } else if m == 7 {
        181
    } else if m == 8 {
        212
    } else if m == 9 {
        243
    } else if m == 10 {
        273
    } else if m == 11 {
        304
    } else {
        334
    }
}

/// Days from the epoch to the given civil date.
pub open spec fn days_from_civil(y: int, m: int, d: int) -> int {
    365 * (y - 1970) + leap_days_before(y) + month_days_before(m) + (if m > 2 && is_leap_year(y) {
        1int
    } else {
        0int
    }) + (d - 1)
}

/// The date, time and offset ranges a timestamp must satisfy.
pub open spec fn fields_in_range(s: Seq<char>) -> bool {
    1970 <= num4(s, 0) <= 9999 && 1 <= num2(s, 5) <= 12 && 1 <= num2(s, 8) <= 31 && num2(s, 11)
        <= 23 && num2(s, 14) <= 59 && num2(s, 17) <= 59
}

/// What parsing a wire timestamp yields: epoch seconds for a string of
/// the form `YYYY-MM-DDTHH:MM:SS(.digits)?(Z|±HH:MM)` with its fields in
/// range and a year at or after 1970, and nothing otherwise.
pub open spec fn spec_parse_rfc3339(s: Seq<char>) -> Option<i64> {
    if head_ok(s) && fields_in_range(s) {
        let n = s.len() as int;
        if s[n - 1] == 'Z' && frac_ok(s, 19, n - 1) {
            Some(
                (days_from_civil(num4(s, 0), num2(s, 5), num2(s, 8)) * 86400 + num2(s, 11) * 3600
                    + num2(s, 14) * 60 + num2(s, 17)) as i64,
            )
        } else if offset_tail_ok(s) && frac_ok(s, 19, n - 6) {
            Some(
                (days_from_civil(num4(s, 0), num2(s, 5), num2(s, 8)) * 86400 + num2(s, 11) * 3600
                    + num2(s, 14) * 60 + num2(s, 17) - offset_secs(s)) as i64,
            )
        } else {
            None
        }
    } else {
        None
    }
}

/// Reads two digits as a number.
fn read2(s: &str, i: usize) -> (r: Option<i64>)
    requires
        i + 2 <= s@.len() <= usize::MAX,
    ensures
        match r {
            Some(v) => digits_in(s@, i as int, i + 2) && v == num2(s@, i as int) && 0 <= v <= 99,
            None => !digits_in(s@, i as int, i + 2),
        },
{
    let a = s.get_char(i) as u32;
    let b = s.get_char(i + 1) as u32;
    if 48 <= a && a <= 57 && 48 <= b && b <= 57 {
        Some((((a - 48) * 10) + (b - 48)) as i64)
    } else {
        None
    }
}

/// Reads four digits as a number.
fn read4(s: &str, i: usize) -> (r: Option<i64>)
    requires
        i + 4 <= s@.len() <= usize::MAX,
    ensures
        match r {
            Some(v) => digits_in(s@, i as int, i + 4) && v == num4(s@, i as int) && 0 <= v
                <= 9999,
            None => !digits_in(s@, i as int, i + 4),
        },
{
    let hi = match read2(s, i) {
        Some(v) => v,
        None => {
            return None;
        },
    };
    let lo = match read2(s, i + 2) {
        Some(v) => v,
        None => {
            return None;
        },
    };
    Some(hi * 100 + lo)
}

/// Parses a wire timestamp into epoch seconds.
#[verifier::loop_isolation(false)]
#[verifier::rlimit(100)]
pub fn parse_rfc3339(s: &str) -> (r: Option<i64>)
    ensures
        r == spec_parse_rfc3339(s@),
{
    let n = s.unicode_len();
    if n < 20 {
        return None;
    }
    let year = match read4(s, 0) {
        Some(v) => v,
        None => {
            return None;
        },
    };
    if s.get_char(4) != '-' {
        return None;
    }
    let month = match read2(s, 5) {
        Some(v) => v,
        None => {
            return None;
        },
    };
    if s.get_char(7) != '-' {
        return None;
    }
    let day = match read2(s, 8) {
        Some(v) => v,
        None => {
            return None;
        },
    };
    if s.get_char(10) != 'T' {
        return None;
    }
    let hour = match read2(s, 11) {
        Some(v) => v,
        None => {
            return None;
        },
    };
    if s.get_char(13) != ':' {
        return None;
    }
    let minute = match read2(s, 14) {
        Some(v) => v,
        None => {
            return None;
        },
    };
    if s.get_char(16) != ':' {
        return None;
    }
    let second = match read2(s, 17) {
        Some(v) => v,
        None => {
            return None;
        },
    };
    if !(1970 <= year && year <= 9999 && 1 <= month && month <= 12 && 1 <= day && day <= 31
        && hour <= 23 && minute <= 59 && second <= 59) {
        return None;
    }
    let zulu = s.get_char(n - 1) == 'Z';
    let frac_end: usize = if zulu {
        n - 1
    } else {
        if n < 25 {
            return None;
        }
        n - 6
    };
    if frac_end < 19 {
        return None;
    }
    // validate the fractional-seconds region
    if frac_end > 19 {
        if s.get_char(19) != '.' {
            return None;
        }
        if frac_end == 20 {
            return None;
        }
        let mut k: usize = 20;
        while k < frac_end
            invariant
                20 <= k <= frac_end <= s@.len(),
                digits_in(s@, 20, k as int),
            decreases frac_end - k,
        {
            let c = s.get_char(k) as u32;
            if !(48 <= c && c <= 57) {
                assert(!is_digit_char(s@[k as int]));
                return None;
            }
            k = k + 1;
        }
    }
    assert(frac_ok(s@, 19, frac_end as int));
    let shift: i64 = if zulu {
        0
    } else {
        let sign_char = s.get_char(n - 6);
        if !(sign_char == '+' || sign_char == '-') {
            return None;
        }
        let oh = match read2(s, n - 5) {
            Some(v) => v,
            None => {
                return None;
            },
        };
        if s.get_char(n - 3) != ':' {
            return None;
        }
        let om = match read2(s, n - 2) {
            Some(v) => v,
            None => {
                return None;
            },
        };
        let mag = oh * 3600 + om * 60;
        if sign_char == '-' {
            -mag
        } else {
            mag
        }
    };
    let leap: i64 = (year - 1) / 4 - (year - 1) / 100 + (year - 1) / 400 - 477;
    let mdays: i64 = if month == 1 {
        0
    } else if month == 2 {
        31
    } else if month == 3 {
        59
    } else if month == 4 {
        90
    } else if month == 5 {
        120
    } else if month == 6 {
        151
    } else if month == 7 {
        181
    } else if month == 8 {
        212
    } else if month == 9 {
        243
    } else if month == 10 {
        273
    } else if month == 11 {
        304
    } else {
        334
    };
    let leap_adjust: i64 = if month > 2 && (year % 4 == 0 && (year % 100 != 0 || year % 400 == 0))
        {
        1
    } else {
        0
    };
    let days: i64 = 365 * (year - 1970) + leap + mdays + leap_adjust + (day - 1);
    proof {
        assert(leap == leap_days_before(year as int));
        assert(days == days_from_civil(year as int, month as int, day as int));
    }
    let secs: i64 = days * 86400 + hour * 3600 + minute * 60 + second - shift;
    if zulu {
        proof {
            assert(s@[n - 1] == 'Z');
        }
        Some(secs)
    } else {
        proof {
            assert(offset_tail_ok(s@));
            assert(shift == offset_secs(s@));
            if s@[s@.len() - 1] == 'Z' {
                assert(is_digit_char(s@[s@.len() - 1]));
                assert(false);
            }
        }
        Some(secs)
    }
}

/// The wait before the market opens: nothing at all when the market is
/// already open, otherwise the seconds from now until the next open,
/// never negative.
pub open spec fn spec_market_wait(is_open: bool, now: i64, next_open: i64) -> Option<u64> {
    if is_open {
        None
    } else if next_open > now {
        Some((next_open - now) as u64)
    } else {
        Some(0u64)
    }
}

/// Decides the market-open wait from plain clock values.  `None` means
/// the market is open and no sleep at all is owed.
pub fn market_wait(is_open: bool, now: i64, next_open: i64) -> (r: Option<u64>)
    ensures
        r == spec_market_wait(is_open, now, next_open),
{
    if is_open {
        None
    } else if next_open > now {
        let diff: u64 = if now >= 0 {
            (next_open - now) as u64
        } else {
            let mag: u64 = ((-(now + 1)) as u64) + 1;
            assert(mag as int == -(now as int));
            if next_open >= 0 {
                (next_open as u64) + mag
            } else {
                let nmag: u64 = ((-(next_open + 1)) as u64) + 1;
                assert(nmag as int == -(next_open as int));
                mag - nmag
            }
        };
        assert(diff as int == next_open - now);
        Some(diff)
    } else {
        Some(0u64)
    }
}

/// What waiting on a clock snapshot yields: nothing when a timestamp
/// does not parse; otherwise the market-open wait, which is absent
/// exactly when the clock reports the market open.
pub open spec fn spec_clock_wait(c: crate::model::market::ClockV) -> Option<Option<u64>> {
    if c.is_open {
        Some(None)
    } else {
        match (spec_parse_rfc3339(c.timestamp), spec_parse_rfc3339(c.next_open)) {
            (Some(now), Some(next)) => Some(spec_market_wait(false, now, next)),
            _ => None,
        }
    }
}

/// Computes the market-open wait from a clock response.  When the clock
/// reports the market open, this yields `Some(None)` at once: no sleep
/// is owed and the timestamps are not even consulted.  `None` reports a
/// clock whose timestamps did not parse.
pub fn clock_wait(c: &Clock) -> (r: Option<Option<u64>>)
    ensures
        r == spec_clock_wait(c@),
{
    if c.is_open {
        return Some(None);
    }
    let now = match parse_rfc3339(c.timestamp.as_str()) {
        Some(v) => v,
        None => {
            return None;
        },
    };
    let next = match parse_rfc3339(c.next_open.as_str()) {
        Some(v) => v,
        None => {
            return None;
        },
    };
    Some(market_wait(false, now, next))
}

} // verus!
