//! Human-readable renderings of millisecond timestamps: the calendar form
//! shown next to an account's creation date, and the "3 days ago" form.

use vstd::prelude::*;
use crate::text::{decimal, decimal_text};
use crate::clock::ClockReading;

verus! {

/// The earliest millisecond timestamp that chrono can represent as a
/// `DateTime<Utc>` (the first instant of year -262143).
pub const EARLIEST_MILLIS: i64 = -8334601228800000;

/// The latest millisecond timestamp that chrono can represent as a
/// `DateTime<Utc>` (the last millisecond of year 262142).
pub const LATEST_MILLIS: i64 = 8210266876799999;

/// The strftime pattern accounts' creation times are shown with, as in
/// `"Jan 12, 2000, 01:02 AM"`.
pub open spec fn calendar_pattern() -> Seq<char> {
    "%b %d, %Y, %H:%M %p"@
}

/// What chrono prints for the instant `millis` (UTC) with the strftime
/// pattern `pattern`.
pub uninterp spec fn calendar_text(millis: i64, pattern: Seq<char>) -> Seq<char>;

/// `DateTime::<Utc>::from_timestamp_millis(millis)` followed by
/// `format(pattern).to_string()`. chrono returns `None` exactly outside the
/// range of years it represents; the printed text is only named here, not
/// spelled out. `to_string` panics on a pattern chrono cannot read, so the
/// pattern is the calendar pattern, which it reads.
#[verifier::external_body]
fn chrono_calendar_text(millis: i64, pattern: &str) -> (r: Option<String>)
    requires
        pattern@ == calendar_pattern(),
    ensures
        r is Some <==> EARLIEST_MILLIS <= millis <= LATEST_MILLIS,
        r matches Some(s) ==> s@ == calendar_text(millis, pattern@),
{
    match chrono::DateTime::<chrono::Utc>::from_timestamp_millis(millis) {
        Some(dt) => Some(dt.format(pattern).to_string()),
        None => None,
    }
}

/// The text shown for a timestamp chrono cannot represent.
pub open spec fn unknown_text() -> Seq<char> {
    seq!['U', 'n', 'k', 'n', 'o', 'w', 'n']
}

/// The calendar rendering of a timestamp, or `"Unknown"` when it is out of
/// chrono's range.
pub fn format_timestamp(millis: i64) -> (s: String)
    ensures
        EARLIEST_MILLIS <= millis <= LATEST_MILLIS ==> s@ == calendar_text(millis, calendar_pattern()),
        !(EARLIEST_MILLIS <= millis <= LATEST_MILLIS) ==> s@ == unknown_text(),
{
    match chrono_calendar_text(millis, "%b %d, %Y, %H:%M %p") {
        Some(s) => s,
        None => {
            proof {
                reveal_strlit("Unknown");
            }
            "Unknown".to_string()
        },
    }
}

pub open spec fn just_now_text() -> Seq<char> {
    seq!['j', 'u', 's', 't', ' ', 'n', 'o', 'w']
}

pub open spec fn minute_unit() -> Seq<char> {
    seq!['m', 'i', 'n']
}

pub open spec fn hour_unit() -> Seq<char> {
    seq!['h', 'r']
}

pub open spec fn day_unit() -> Seq<char> {
    seq!['d', 'a', 'y']
}

pub open spec fn week_unit() -> Seq<char> {
    seq!['w', 'e', 'e', 'k']
}

pub open spec fn month_unit() -> Seq<char> {
    seq!['m', 'o', 'n', 't', 'h']
}

pub open spec fn year_unit() -> Seq<char> {
    seq!['y', 'e', 'a', 'r']
}

/// `"<count> <unit> ago"`, with the unit in the plural unless the count is one.
pub open spec fn ago_text(count: nat, unit: Seq<char>) -> Seq<char> {
    decimal(count) + seq![' '] + unit + (if count == 1 { Seq::<char>::empty() } else { seq!['s'] })
        + seq![' ', 'a', 'g', 'o']
}

/// How long ago an instant lies, for `elapsed` milliseconds between it and
/// now: under a minute (or in the future) it is "just now"; then whole
/// minutes under an hour, whole hours under a day, whole days under a week,
/// whole weeks under four weeks, then 30-day months under twelve of them,
/// then 365-day years.
pub open spec fn relative_text(elapsed: int) -> Seq<char> {
    let secs = elapsed / 1000;
    let mins = secs / 60;
    let hours = mins / 60;
    let days = hours / 24;
    let weeks = days / 7;
    let months = days / 30;
    let years = days / 365;
    if elapsed < 60_000 {
        just_now_text()
    } else if mins < 60 {
        ago_text(mins as nat, minute_unit())
    } else if hours < 24 {
        ago_text(hours as nat, hour_unit())
    } else if days < 7 {
        ago_text(days as nat, day_unit())
    } else if weeks < 4 {
        ago_text(weeks as nat, week_unit())
    } else if months < 12 {
        ago_text(months as nat, month_unit())
    } else {
        ago_text(years as nat, year_unit())
    }
}

/// The number of units a label of an instant at least a minute old counts.
pub open spec fn elapsed_count(elapsed: int) -> int {
    let mins = elapsed / 1000 / 60;
    let hours = mins / 60;
    let days = hours / 24;
    if mins < 60 {
        mins
    } else if hours < 24 {
        hours
    } else if days < 7 {
        days
    } else if days / 7 < 4 {
        days / 7
    } else if days / 30 < 12 {
        days / 30
    } else {
        days / 365
    }
}

/// The unit a label of an instant at least a minute old counts in.
pub open spec fn elapsed_unit(elapsed: int) -> Seq<char> {
    let mins = elapsed / 1000 / 60;
    let hours = mins / 60;
    let days = hours / 24;
    if mins < 60 {
        minute_unit()
    } else if hours < 24 {
        hour_unit()
    } else if days < 7 {
        day_unit()
    } else if days / 7 < 4 {
        week_unit()
    } else if days / 30 < 12 {
        month_unit()
    } else {
        year_unit()
    }
}

/// A label of an instant at least a minute old counts at least one unit,
/// except between four weeks and thirty days (`0 months ago`) and between
/// 360 and 365 days (`0 years ago`).
pub proof fn label_counts_at_least_one(elapsed: int)
    requires
        elapsed >= 60_000,
        !(28 * 86_400_000 <= elapsed < 30 * 86_400_000),
        !(360 * 86_400_000 <= elapsed < 365 * 86_400_000),
    ensures
        relative_text(elapsed) == ago_text(elapsed_count(elapsed) as nat, elapsed_unit(elapsed)),
        elapsed_count(elapsed) >= 1,
{
    let mins = elapsed / 1000 / 60;
    let hours = mins / 60;
    let days = hours / 24;
    assert(elapsed / 1000 / 60 == elapsed / 60_000) by (nonlinear_arith)
        requires elapsed >= 0;
    assert(mins / 60 / 24 == mins / 1440) by (nonlinear_arith)
        requires mins >= 0;
    assert(mins >= 1);
    if days >= 7 && days / 7 >= 4 {
        assert(days >= 28);
        if days < 30 {
            assert(mins < 30 * 1440);
            assert(elapsed < 30 * 86_400_000);
            assert(false);
        }
        if days / 30 >= 12 && days < 365 {
            assert(days >= 360);
            assert(elapsed >= 360 * 86_400_000);
            assert(elapsed < 365 * 86_400_000);
            assert(false);
        }
    }
}

/// One unit reads `1 <unit> ago`; any other count reads `<count> <unit>s
/// ago`.
pub proof fn ago_text_plural(count: nat, unit: Seq<char>)
    ensures
        count == 1 ==> ago_text(count, unit) == "1 "@ + unit + " ago"@,
        count != 1 ==> ago_text(count, unit) == decimal(count) + " "@ + unit + "s ago"@,
{
    reveal_strlit("1 ");
    reveal_strlit(" ");
    reveal_strlit(" ago");
    reveal_strlit("s ago");
    if count == 1 {
        assert(decimal(1) =~= seq!['1']);
        assert(ago_text(count, unit) =~= "1 "@ + unit + " ago"@);
    } else {
        assert(ago_text(count, unit) =~= decimal(count) + " "@ + unit + "s ago"@);
    }
}

/// The bands of a relative label, for `elapsed` milliseconds: under a
/// minute "just now"; under an hour whole minutes; under a day whole hours;
/// under a week whole days; under 28 days whole weeks; under 360 days whole
/// 30-day months; from then on whole 365-day years.
pub proof fn relative_label_bands(elapsed: int)
    ensures
        elapsed < 60_000 ==> relative_text(elapsed) == "just now"@,
        60_000 <= elapsed < 3_600_000 ==> relative_text(elapsed) == ago_text(
            (elapsed / 60_000) as nat,
            "min"@,
        ),
        3_600_000 <= elapsed < 86_400_000 ==> relative_text(elapsed) == ago_text(
            (elapsed / 3_600_000) as nat,
            "hr"@,
        ),
        86_400_000 <= elapsed < 604_800_000 ==> relative_text(elapsed) == ago_text(
            (elapsed / 86_400_000) as nat,
            "day"@,
        ),
        604_800_000 <= elapsed < 2_419_200_000 ==> relative_text(elapsed) == ago_text(
            (elapsed / 604_800_000) as nat,
            "week"@,
        ),
        2_419_200_000 <= elapsed < 31_104_000_000 ==> relative_text(elapsed) == ago_text(
            (elapsed / 2_592_000_000) as nat,
            "month"@,
        ),
        31_104_000_000 <= elapsed ==> relative_text(elapsed) == ago_text(
            (elapsed / 31_536_000_000) as nat,
            "year"@,
        ),
{
    reveal_strlit("just now");
    reveal_strlit("min");
    reveal_strlit("hr");
    reveal_strlit("day");
    reveal_strlit("week");
    reveal_strlit("month");
    reveal_strlit("year");
    assert("just now"@ =~= just_now_text());
    assert("min"@ =~= minute_unit());
    assert("hr"@ =~= hour_unit());
    assert("day"@ =~= day_unit());
    assert("week"@ =~= week_unit());
    assert("month"@ =~= month_unit());
    assert("year"@ =~= year_unit());
    if elapsed >= 60_000 {
        let e = elapsed;
        vstd::arithmetic::div_mod::lemma_div_denominator(e, 1000, 60);
        vstd::arithmetic::div_mod::lemma_div_denominator(e, 60_000, 60);
        vstd::arithmetic::div_mod::lemma_div_denominator(e, 3_600_000, 24);
        vstd::arithmetic::div_mod::lemma_div_denominator(e, 86_400_000, 7);
        vstd::arithmetic::div_mod::lemma_div_denominator(e, 86_400_000, 30);
        vstd::arithmetic::div_mod::lemma_div_denominator(e, 86_400_000, 365);
        let mins = e / 1000 / 60;
        let hours = mins / 60;
        let days = hours / 24;
        assert(mins == e / 60_000);
        assert(hours == e / 3_600_000);
        assert(days == e / 86_400_000);
        assert(days / 7 == e / 604_800_000);
        assert(days / 30 == e / 2_592_000_000);
        assert(days / 365 == e / 31_536_000_000);
        assert(mins < 60 <==> e < 3_600_000);
        assert(hours < 24 <==> e < 86_400_000);
        assert(days < 7 <==> e < 604_800_000);
        assert(days / 7 < 4 <==> e < 2_419_200_000);
        assert(days / 30 < 12 <==> e < 31_104_000_000);
    }
}

/// The relative rendering of `timestamp` as seen at `now`.
pub open spec fn relative_text_at(now: i64, timestamp: i64) -> Seq<char> {
    relative_text(now - timestamp)
}

fn ago(count: i64, unit: &str) -> (s: String)
    requires
        count >= 0,
    ensures
        s@ == ago_text(count as nat, unit@),
{
    let mut s = decimal_text(count as u64);
    s.append(" ");
    s.append(unit);
    if count != 1 {
        s.append("s");
    }
    s.append(" ago");
    proof {
        reveal_strlit(" ");
        reveal_strlit("s");
        reveal_strlit(" ago");
    }
    s
}

/// The relative rendering of `timestamp` as seen at the instant `now`.
pub fn relative_time_label(now: i64, timestamp: i64) -> (s: String)
    requires
        i64::MIN <= now - timestamp <= i64::MAX,
    ensures
        s@ == relative_text(now - timestamp),
{
    proof {
        reveal_strlit("just now");
        reveal_strlit("min");
        reveal_strlit("hr");
        reveal_strlit("day");
        reveal_strlit("week");
        reveal_strlit("month");
        reveal_strlit("year");
    }
    let elapsed = now - timestamp;
    if elapsed < 60_000 {
        return "just now".to_string();
    }
    let secs = elapsed / 1000;
    let mins = secs / 60;
    if mins < 60 {
        return ago(mins, "min");
    }
    let hours = mins / 60;
    if hours < 24 {
        return ago(hours, "hr");
    }
    let days = hours / 24;
    if days < 7 {
        return ago(days, "day");
    }
    let weeks = days / 7;
    if weeks < 4 {
        return ago(weeks, "week");
    }
    let months = days / 30;
    if months < 12 {
        return ago(months, "month");
    }
    let years = days / 365;
    ago(years, "year")
}

/// The timestamps whose distance to any instant the clock can report fits
/// in an `i64`.
pub open spec fn relative_time_supported(timestamp: i64) -> bool {
    timestamp >= LATEST_MILLIS - i64::MAX
}

/// Whether `format_timestamp_relative` takes `timestamp`.
pub fn supports_relative_time(timestamp: i64) -> (r: bool)
    ensures
        r == relative_time_supported(timestamp),
{
    timestamp >= LATEST_MILLIS - i64::MAX
}

/// An instant at least a minute before the clock reading is never "just
/// now": its label counts minutes, hours, days, weeks, months or years ago.
pub proof fn minute_old_is_not_just_now(now: i64, timestamp: i64)
    requires
        now - timestamp >= 60_000,
    ensures
        relative_text_at(now, timestamp) != just_now_text(),
        relative_text_at(now, timestamp).last() == 'o',
{
    let t = relative_text_at(now, timestamp);
    assert(just_now_text().last() == 'w');
}

/// An instant a year (365 days) or more before the clock reading is shown
/// in years.
pub proof fn year_old_counts_years(now: i64, timestamp: i64)
    requires
        now - timestamp >= 365 * 86_400_000,
    ensures
        relative_text_at(now, timestamp) == ago_text(
            ((now - timestamp) / 1000 / 60 / 60 / 24 / 365) as nat,
            year_unit(),
        ),
{
}

/// The relative rendering of `timestamp` as seen now: the clock is read
/// once, and the text is the one `relative_time_label` gives for that
/// reading.
pub fn format_timestamp_relative(timestamp: i64) -> (s: String)
    requires
        relative_time_supported(timestamp),
    ensures
        exists|now: i64| 0 <= now <= LATEST_MILLIS && s@ == #[trigger] relative_text_at(now, timestamp),
        exists|c: ClockReading|
            0 <= c.millis() <= LATEST_MILLIS && s@ == #[trigger] relative_text_at(c.millis(), timestamp),
{
    let c = ClockReading::read();
    let s = relative_time_label(c.value(), timestamp);
    assert(s@ == relative_text_at(c.millis(), timestamp));
    s
}

} // verus!
