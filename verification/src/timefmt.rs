//! The timestamp prefix of operator-visible report lines, in one of two
//! fixed layouts: month-day-year or day-month-year, each with a time of
//! day.

use vstd::prelude::*;

use crate::config::DateFormat;

verus! {

/// A number under one hundred as two digits.
pub open spec fn two_digit_repr(n: int) -> Seq<u8> {
    seq![(48 + n / 10) as u8, (48 + n % 10) as u8]
}

/// The timestamp line prefix: the date in the chosen layout with a
/// two-digit year, then the time of day.
pub open spec fn timestamp_repr(
    df: DateFormat,
    year: int,
    month: int,
    day: int,
    hour: int,
    minute: int,
    second: int,
) -> Seq<u8> {
    (match df {
        DateFormat::MonthDayYear => two_digit_repr(month) + seq![45u8] + two_digit_repr(day),
        DateFormat::DayMonthYear => two_digit_repr(day) + seq![45u8] + two_digit_repr(month),
    }) + seq![45u8] + two_digit_repr(year % 100) + seq![32u8] + two_digit_repr(hour) + seq![58u8]
        + two_digit_repr(minute) + seq![58u8] + two_digit_repr(second)
}

/// Appends a number under one hundred as two digits.
fn push_two_digits(out: &mut Vec<u8>, n: u8)
    requires
        n < 100,
    ensures
        final(out)@ == old(out)@ + two_digit_repr(n as int),
{
    out.push(48 + n / 10);
    out.push(48 + n % 10);
    proof {
        assert(out@ =~= old(out)@ + two_digit_repr(n as int));
    }
}

/// Renders the timestamp prefix of a report line in the configured date
/// layout.
pub fn format_timestamp(
    df: DateFormat,
    year: u64,
    month: u8,
    day: u8,
    hour: u8,
    minute: u8,
    second: u8,
) -> (r: Vec<u8>)
    requires
        1 <= month <= 12,
        1 <= day <= 31,
        hour < 24,
        minute < 60,
        second < 60,
    ensures
        r@ == timestamp_repr(
            df,
            year as int,
            month as int,
            day as int,
            hour as int,
            minute as int,
            second as int,
        ),
{
    let mut out: Vec<u8> = Vec::new();
    match df {
        DateFormat::MonthDayYear => {
            push_two_digits(&mut out, month);
            out.push(45);
            push_two_digits(&mut out, day);
        },
        DateFormat::DayMonthYear => {
            push_two_digits(&mut out, day);
            out.push(45);
            push_two_digits(&mut out, month);
        },
    }
    out.push(45);
    push_two_digits(&mut out, (year % 100) as u8);
    out.push(32);
    push_two_digits(&mut out, hour);
    out.push(58);
    push_two_digits(&mut out, minute);
    out.push(58);
    push_two_digits(&mut out, second);
    proof {
        assert(out@ =~= timestamp_repr(
            df,
            year as int,
            month as int,
            day as int,
            hour as int,
            minute as int,
            second as int,
        ));
    }
    out
}

} // verus!
