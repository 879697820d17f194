use chrono::Datelike;
use vstd::prelude::*;

verus! {

/// Days are numbered as chrono numbers them: January 1 of year 1 is day 1, and day 0 is
/// the day before it. This is the first day chrono can represent (January 1, 262143 BCE).
pub const MIN_DAY: i32 = -95746129;

/// The last day chrono can represent (December 31, 262142 CE).
pub const MAX_DAY: i32 = 95745399;

/// The weekday of `day`, counted from Monday (0) to Sunday (6). Day 1 is a Monday.
pub open spec fn weekday_index(day: int) -> int {
    (day - 1) % 7
}

/// The first Monday strictly after `today`: a Monday rolls to the following week.
pub open spec fn week_start(today: int) -> int {
    today + 7 - weekday_index(today)
}

/// The Sunday that closes the week starting on `week_start(today)`.
pub open spec fn week_end(today: int) -> int {
    week_start(today) + 6
}

/// The text chrono writes for a day in the form `%d/%m` (day of month, then month,
/// two digits each).
pub uninterp spec fn day_month_text(day: int) -> Seq<char>;

/// Relies on chrono's `NaiveDate::from_num_days_from_ce_opt` (day numbering, `Some` on
/// its whole range) and `Datelike::weekday` with `Weekday::num_days_from_monday`.
#[verifier::external_body]
fn weekday_of(day: i32) -> (r: u32)
    requires
        MIN_DAY <= day <= MAX_DAY,
    ensures
        r as int == weekday_index(day as int),
{
    chrono::NaiveDate::from_num_days_from_ce_opt(day).expect("day within chrono's range").weekday().num_days_from_monday()
}

/// Relies on chrono's `NaiveDate::from_num_days_from_ce_opt` and `NaiveDate::format`
/// with the pattern `%d/%m`.
#[verifier::external_body]
fn day_month_label(day: i32) -> (r: String)
    requires
        MIN_DAY <= day <= MAX_DAY,
    ensures
        r@ == day_month_text(day as int),
{
    chrono::NaiveDate::from_num_days_from_ce_opt(day).expect("day within chrono's range").format("%d/%m").to_string()
}

/// The day number of the first Monday strictly after `today`.
pub fn next_monday(today: i32) -> (r: i32)
    requires
        MIN_DAY <= today <= MAX_DAY - 7,
    ensures
        r as int == week_start(today as int),
        today < r <= today + 7,
        weekday_index(r as int) == 0,
{
    let w = weekday_of(today);
    today + 7 - w as i32
}

/// The labels of the week that follows `today`: its Monday and its Sunday, as
/// `%d/%m` text.
pub fn next_week_labels(today: i32) -> (r: (String, String))
    requires
        MIN_DAY <= today <= MAX_DAY - 13,
    ensures
        r.0@ == day_month_text(week_start(today as int)),
        r.1@ == day_month_text(week_end(today as int)),
{
    let monday = next_monday(today);
    (day_month_label(monday), day_month_label(monday + 6))
}

} // verus!
