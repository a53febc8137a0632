//! The statusline's date and time items, formatted by chrono.
use vstd::prelude::*;
use crate::text::decimal;

verus! {

/// A local wall-clock reading, as the footer's date/time items read it.
#[derive(Clone, Copy, Debug, PartialEq, Eq)]
pub struct StatuslineDateTime {
    pub year: i32,
    pub month: u32,
    pub day: u32,
    pub hour: u32,
    pub minute: u32,
    pub second: u32,
}

/// Gregorian leap year (proleptic, Euclidean remainder for negative years).
pub open spec fn is_leap_year(year: int) -> bool {
    year % 4 == 0 && (year % 100 != 0 || year % 400 == 0)
}

pub open spec fn days_in_month(year: int, month: nat) -> nat {
    if month == 2 {
        if is_leap_year(year) { 29 } else { 28 }
    } else if month == 4 || month == 6 || month == 9 || month == 11 {
        30
    } else {
        31
    }
}

impl StatuslineDateTime {
    /// A date chrono can represent (years -262143 through 262142) and a time
    /// of day without a leap second.
    pub open spec fn wf(self) -> bool {
        &&& -262143 <= self.year <= 262142
        &&& 1 <= self.month <= 12
        &&& 1 <= self.day <= days_in_month(self.year as int, self.month as nat)
        &&& self.hour < 24
        &&& self.minute < 60
        &&& self.second < 60
    }
}

/// The three strftime patterns the statusline formats with.
pub open spec fn is_statusline_pattern(pattern: Seq<char>) -> bool {
    pattern == "%B %-d, %Y"@ || pattern == "%-I:%M%P"@ || pattern == "%H:%M"@
}

/// English month name, as `%B` prints it.
pub open spec fn month_name(month: nat) -> Seq<char> {
    if month == 1 {
        "January"@
    } else if month == 2 {
        "February"@
    } else if month == 3 {
        "March"@
    } else if month == 4 {
        "April"@
    } else if month == 5 {
        "May"@
    } else if month == 6 {
        "June"@
    } else if month == 7 {
        "July"@
    } else if month == 8 {
        "August"@
    } else if month == 9 {
        "September"@
    } else if month == 10 {
        "October"@
    } else if month == 11 {
        "November"@
    } else {
        "December"@
    }
}

/// Zero-padded to two digits, as `%H` and `%M` print.
pub open spec fn two_digits(n: nat) -> Seq<char> {
    if n < 10 {
        "0"@ + decimal(n)
    } else {
        decimal(n)
    }
}

/// Zero-padded to four digits, as `%Y` prints years 0 through 9999.
pub open spec fn four_digit_year(year: nat) -> Seq<char> {
    if year < 10 {
        "000"@ + decimal(year)
    } else if year < 100 {
        "00"@ + decimal(year)
    } else if year < 1000 {
        "0"@ + decimal(year)
    } else {
        decimal(year)
    }
}

/// The 12-hour clock hour (1 through 12).
pub open spec fn twelve_hour(hour: nat) -> nat {
    if hour % 12 == 0 { 12 } else { hour % 12 }
}

/// `am` or `pm`, as `%P` prints.
pub open spec fn meridiem(hour: nat) -> Seq<char> {
    if hour < 12 { "am"@ } else { "pm"@ }
}

/// The year as `%Y` prints it: four digits, zero-padded, for years 0 through
/// 9999; outside that range a sign, then at least four digits.
pub open spec fn year_text(year: int) -> Seq<char> {
    if 0 <= year <= 9999 {
        four_digit_year(year as nat)
    } else if year < 0 {
        "-"@ + four_digit_year((-year) as nat)
    } else {
        "+"@ + four_digit_year(year as nat)
    }
}

/// The date item's text, `%B %-d, %Y`: `July 20, 2026`.
pub open spec fn statusline_date(now: StatuslineDateTime) -> Seq<char> {
    month_name(now.month as nat) + " "@ + decimal(now.day as nat) + ", "@ + year_text(now.year as int)
}

/// chrono's `NaiveDate::from_ymd_opt`, `NaiveDate::and_hms_opt`,
/// `NaiveDateTime::format` and `to_string`: formats the reading with one of
/// the statusline's patterns. For each pattern the contract states what
/// chrono's strftime prints (`%B` English month name, `%-d`/`%-I` unpadded,
/// `%Y` zero-padded to four digits with a sign outside 0 through 9999,
/// `%H`/`%M` two digits, `%P` lowercase am/pm). The reading is one chrono
/// represents (`wf`), so both constructors succeed.
#[verifier::external_body]
fn chrono_format(now: &StatuslineDateTime, pattern: &str) -> (r: String)
    requires
        now.wf(),
        is_statusline_pattern(pattern@),
    ensures
        pattern@ == "%H:%M"@ ==> r@ == two_digits(now.hour as nat) + ":"@ + two_digits(
            now.minute as nat,
        ),
        pattern@ == "%-I:%M%P"@ ==> r@ == decimal(twelve_hour(now.hour as nat)) + ":"@
            + two_digits(now.minute as nat) + meridiem(now.hour as nat),
        pattern@ == "%B %-d, %Y"@ ==> r@ == statusline_date(*now),
{
    let date = chrono::NaiveDate::from_ymd_opt(now.year, now.month, now.day).unwrap();
    let datetime = date.and_hms_opt(now.hour, now.minute, now.second).unwrap();
    datetime.format(pattern).to_string()
}

/// The date item: `July 20, 2026`.
pub fn format_statusline_date(now: StatuslineDateTime) -> (r: String)
    requires
        now.wf(),
    ensures
        r@ == statusline_date(now),
{
    chrono_format(&now, "%B %-d, %Y")
}

/// The 12-hour time item: `1:08pm`.
pub fn format_statusline_time_12_hour(now: StatuslineDateTime) -> (r: String)
    requires
        now.wf(),
    ensures
        r@ == decimal(twelve_hour(now.hour as nat)) + ":"@ + two_digits(now.minute as nat)
            + meridiem(now.hour as nat),
{
    chrono_format(&now, "%-I:%M%P")
}

/// The 24-hour time item: `13:08`.
pub fn format_statusline_time_24_hour(now: StatuslineDateTime) -> (r: String)
    requires
        now.wf(),
    ensures
        r@ == two_digits(now.hour as nat) + ":"@ + two_digits(now.minute as nat),
{
    chrono_format(&now, "%H:%M")
}

} // verus!
