//! Dates and times as text, the way `chrono` writes them.
//!
//! A date is given by its day number (day 1 is January 1 of year 1), a time of
//! day by its seconds since midnight and the nanoseconds within the second.
use vstd::prelude::*;

verus! {

/// How `chrono` displays the date with the given day number.
pub uninterp spec fn date_display(days: i32) -> Option<Seq<char>>;

/// How `chrono` displays the given time of day.
pub uninterp spec fn time_display(secs: u32, nanos: u32) -> Option<Seq<char>>;

/// How `chrono` writes the given time of day in the format `%H:%M:%S%.f`.
pub uninterp spec fn time_fraction_format(secs: u32, nanos: u32) -> Option<Seq<char>>;

/// How `chrono` displays the given date and time without a time zone.
pub uninterp spec fn datetime_display(days: i32, secs: u32, nanos: u32) -> Option<Seq<char>>;

/// How `chrono` displays the given date and time in UTC.
pub uninterp spec fn datetime_utc_display(days: i32, secs: u32, nanos: u32) -> Option<Seq<char>>;

/// How `chrono` displays the given UTC date and time at an offset in seconds.
pub uninterp spec fn datetime_offset_display(
    days: i32,
    secs: u32,
    nanos: u32,
    offset: i32,
) -> Option<Seq<char>>;

/// How `chrono` writes the given date and time in the format
/// `%Y-%m-%d %H:%M:%S`.
pub uninterp spec fn datetime_seconds_format(days: i32, secs: u32, nanos: u32) -> Option<Seq<char>>;

/// How `chrono` writes, by RFC 3339, the instant that is `millis` milliseconds
/// after the Unix epoch.
pub uninterp spec fn instant_rfc3339(millis: i64) -> Option<Seq<char>>;

/// `chrono::NaiveDate::to_string` of the date that
/// `NaiveDate::from_num_days_from_ce_opt` makes; nothing where there is no such
/// date.
#[verifier::external_body]
pub(crate) fn date_text(days: i32) -> (r: Option<String>)
    ensures
        r.deep_view() == date_display(days),
{
    chrono::NaiveDate::from_num_days_from_ce_opt(days).map(|d| d.to_string())
}

/// `chrono::NaiveTime::to_string` of the time that
/// `NaiveTime::from_num_seconds_from_midnight_opt` makes.
#[verifier::external_body]
pub(crate) fn time_text(secs: u32, nanos: u32) -> (r: Option<String>)
    ensures
        r.deep_view() == time_display(secs, nanos),
{
    chrono::NaiveTime::from_num_seconds_from_midnight_opt(secs, nanos).map(|t| t.to_string())
}

/// `chrono::NaiveTime::format` with `%H:%M:%S%.f`.
#[verifier::external_body]
pub(crate) fn time_fraction_text(secs: u32, nanos: u32) -> (r: Option<String>)
    ensures
        r.deep_view() == time_fraction_format(secs, nanos),
{
    chrono::NaiveTime::from_num_seconds_from_midnight_opt(secs, nanos).map(
        |t| t.format("%H:%M:%S%.f").to_string(),
    )
}

/// `chrono::NaiveDateTime::to_string`.
#[verifier::external_body]
pub(crate) fn datetime_text(days: i32, secs: u32, nanos: u32) -> (r: Option<String>)
    ensures
        r.deep_view() == datetime_display(days, secs, nanos),
{
    let date = chrono::NaiveDate::from_num_days_from_ce_opt(days)?;
    let time = chrono::NaiveTime::from_num_seconds_from_midnight_opt(secs, nanos)?;
    Some(date.and_time(time).to_string())
}

/// `chrono::DateTime<Utc>::to_string`.
#[verifier::external_body]
pub(crate) fn datetime_utc_text(days: i32, secs: u32, nanos: u32) -> (r: Option<String>)
    ensures
        r.deep_view() == datetime_utc_display(days, secs, nanos),
{
    let date = chrono::NaiveDate::from_num_days_from_ce_opt(days)?;
    let time = chrono::NaiveTime::from_num_seconds_from_midnight_opt(secs, nanos)?;
    Some(date.and_time(time).and_utc().to_string())
}

/// `chrono::DateTime<FixedOffset>::to_string`, for the UTC date and time given
/// and the offset east of it; nothing where the offset is a day or more.
#[verifier::external_body]
pub(crate) fn datetime_offset_text(days: i32, secs: u32, nanos: u32, offset: i32) -> (r: Option<
    String,
>)
    ensures
        r.deep_view() == datetime_offset_display(days, secs, nanos, offset),
{
    let date = chrono::NaiveDate::from_num_days_from_ce_opt(days)?;
    let time = chrono::NaiveTime::from_num_seconds_from_midnight_opt(secs, nanos)?;
    let zone = chrono::FixedOffset::east_opt(offset)?;
    let at = chrono::DateTime::<chrono::FixedOffset>::from_naive_utc_and_offset(
        date.and_time(time),
        zone,
    );
    Some(at.to_string())
}

/// `chrono::NaiveDateTime::format` with `%Y-%m-%d %H:%M:%S`.
#[verifier::external_body]
pub(crate) fn datetime_seconds_text(days: i32, secs: u32, nanos: u32) -> (r: Option<String>)
    ensures
        r.deep_view() == datetime_seconds_format(days, secs, nanos),
{
    let date = chrono::NaiveDate::from_num_days_from_ce_opt(days)?;
    let time = chrono::NaiveTime::from_num_seconds_from_midnight_opt(secs, nanos)?;
    Some(date.and_time(time).format("%Y-%m-%d %H:%M:%S").to_string())
}

/// `chrono::DateTime<Utc>::to_rfc3339` of the instant that
/// `DateTime::from_timestamp_millis` makes; nothing where the instant is out of
/// range.
#[verifier::external_body]
pub(crate) fn instant_text(millis: i64) -> (r: Option<String>)
    ensures
        r.deep_view() == instant_rfc3339(millis),
{
    chrono::DateTime::<chrono::Utc>::from_timestamp_millis(millis).map(|d| d.to_rfc3339())
}

} // verus!
