//! Access to the wall clock and to civil-date arithmetic, through the
//! `chrono` crate. Dates travel as `YYYY-MM-DD` strings; times as `HH:MM`.

use vstd::prelude::*;

verus! {

/// The civil-day number that `chrono` assigns to a `YYYY-MM-DD` string, or
/// nothing when the string does not parse as such a date. The result
/// depends on the string alone.
pub uninterp spec fn parsed_day_number(s: Seq<char>) -> Option<int>;

/// Relies on `chrono::NaiveDate::parse_from_str` with format `%Y-%m-%d`
/// and `TimeDelta::num_days`: the signed number of days from `earlier` to
/// `later`, when both parse as dates. `chrono`'s dates span fewer than
/// 600000 years either way, so the difference in days stays inside `i64`.
#[verifier::external_body]
pub(crate) fn days_between_dates(earlier: &str, later: &str) -> (r: Option<i64>)
    ensures
        r is Some <==> (parsed_day_number(earlier@) is Some && parsed_day_number(later@)
            is Some),
        r matches Some(d) ==> (match (parsed_day_number(earlier@), parsed_day_number(later@)) {
            (Some(a), Some(b)) => d == b - a,
            _ => false,
        }),
{
    let a = match chrono::NaiveDate::parse_from_str(earlier, "%Y-%m-%d") {
        Ok(d) => d,
        Err(_) => return None,
    };
    let b = match chrono::NaiveDate::parse_from_str(later, "%Y-%m-%d") {
        Ok(d) => d,
        Err(_) => return None,
    };
    Some(b.signed_duration_since(a).num_days())
}

/// Relies on `chrono::Local::now` formatted as `%Y-%m-%d`. The result
/// depends on the wall clock and time zone, so nothing is promised of it.
#[verifier::external_body]
pub(crate) fn local_date_string() -> (r: String) {
    chrono::Local::now().format("%Y-%m-%d").to_string()
}

/// Relies on `chrono::Local::now` formatted as `%H:%M`. The result depends
/// on the wall clock and time zone, so nothing is promised of it.
#[verifier::external_body]
pub(crate) fn local_time_string() -> (r: String) {
    chrono::Local::now().format("%H:%M").to_string()
}

/// Relies on `std::time::SystemTime::now` against the Unix epoch, in
/// milliseconds. The result depends on the wall clock, so nothing is
/// promised of it.
#[verifier::external_body]
pub(crate) fn now_millis() -> (r: u64) {
    match std::time::SystemTime::now().duration_since(std::time::UNIX_EPOCH) {
        Ok(d) => d.as_millis() as u64,
        Err(_) => 0,
    }
}

} // verus!
