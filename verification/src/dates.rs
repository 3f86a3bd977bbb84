//! Dates, converted between the forms feeds use by the `chrono` crate.
use vstd::prelude::*;

use chrono::{DateTime, FixedOffset, Utc};

use crate::text::opt_view;

verus! {

/// The RFC 2822 form (`DateTime::to_rfc2822`) of the RFC 3339 date `s`, in the
/// offset it was written with (`None`: `s` is no RFC 3339 date).
pub uninterp spec fn rfc2822_of(s: Seq<char>) -> Option<Seq<char>>;

/// The instant (seconds since the Unix epoch, and nanoseconds) of the RFC 2822
/// date `s` (`None`: `s` is no RFC 2822 date).
pub uninterp spec fn instant_of(s: Seq<char>) -> Option<(i64, u32)>;

/// The RFC 2822 form of the instant `secs` seconds and `nanos` nanoseconds
/// after the Unix epoch, in UTC.
pub uninterp spec fn rfc2822_at(secs: i64, nanos: u32) -> Option<Seq<char>>;

/// The instant (seconds since the Unix epoch, and nanoseconds) of the RFC 3339
/// date `s` (`None`: `s` is no RFC 3339 date).
pub uninterp spec fn instant_of_rfc3339(s: Seq<char>) -> Option<(i64, u32)>;

/// The first instant of year 0 and the last second of year 9999, in seconds
/// from the Unix epoch: the RFC 2822 form covers the instants between them.
pub const FIRST_RFC2822_SECOND: i64 = -62167219200i64;
pub const LAST_RFC2822_SECOND: i64 = 253402300799i64;

/// The date of the Unix epoch in RFC 2822 form.
pub open spec fn epoch_rfc2822() -> Seq<char> {
    "Thu, 1 Jan 1970 00:00:00 +0000"@
}

/// Converts an RFC 3339 date to RFC 2822 with `DateTime::parse_from_rfc3339`
/// and `DateTime::to_rfc2822`, keeping its offset. The parsed year has four
/// digits, which `to_rfc2822` can always write. Trusted: the result is named,
/// not stated.
#[verifier::external_body]
pub(crate) fn rfc3339_to_rfc2822(s: &str) -> (r: Option<String>)
    ensures
        opt_view(r) == rfc2822_of(s@),
{
    match DateTime::parse_from_rfc3339(s) {
        Ok(date) => Some(date.to_rfc2822()),
        Err(_) => None,
    }
}

/// The date of the Unix epoch in RFC 2822 form: `to_rfc2822` of
/// `DateTime::<FixedOffset>::default()`, which chrono defines as the epoch at
/// offset zero, written with a one-digit day and a `+0000` offset.
#[verifier::external_body]
pub(crate) fn default_rfc2822() -> (r: String)
    ensures
        r@ == epoch_rfc2822(),
{
    DateTime::<FixedOffset>::default().to_rfc2822()
}

/// The instant of an RFC 2822 date, with `DateTime::parse_from_rfc2822`,
/// `DateTime::timestamp` and `DateTime::timestamp_subsec_nanos`. Trusted: the
/// result is named, not stated.
#[verifier::external_body]
pub(crate) fn rfc2822_instant(s: &str) -> (r: Option<(i64, u32)>)
    ensures
        r == instant_of(s@),
{
    match DateTime::parse_from_rfc2822(s) {
        Ok(date) => Some((date.timestamp(), date.timestamp_subsec_nanos())),
        Err(_) => None,
    }
}

/// The instant of an RFC 3339 date, with `DateTime::parse_from_rfc3339`,
/// `DateTime::timestamp` and `DateTime::timestamp_subsec_nanos`. Trusted: the
/// result is named, not stated.
#[verifier::external_body]
pub(crate) fn rfc3339_instant(s: &str) -> (r: Option<(i64, u32)>)
    ensures
        r == instant_of_rfc3339(s@),
{
    match DateTime::parse_from_rfc3339(s) {
        Ok(date) => Some((date.timestamp(), date.timestamp_subsec_nanos())),
        Err(_) => None,
    }
}

/// The RFC 2822 form, in UTC, of an instant, with `DateTime::from_timestamp`
/// and `DateTime::to_rfc2822`; the bounds keep the year within 0 to 9999,
/// where `to_rfc2822` does not panic. Trusted: the result is named, not stated.
#[verifier::external_body]
pub(crate) fn instant_rfc2822(secs: i64, nanos: u32) -> (r: Option<String>)
    requires
        FIRST_RFC2822_SECOND <= secs <= LAST_RFC2822_SECOND,
    ensures
        opt_view(r) == rfc2822_at(secs, nanos),
{
    match DateTime::<Utc>::from_timestamp(secs, nanos) {
        Some(date) => Some(date.to_rfc2822()),
        None => None,
    }
}

/// The RFC 2822 form, in UTC, of the RFC 3339 date `s`: the form of its
/// instant, when that instant lies within the years 0 to 9999 (`None` when `s`
/// is no RFC 3339 date or lies outside those years).
pub open spec fn utc_rfc2822_of(s: Seq<char>) -> Option<Seq<char>> {
    match instant_of_rfc3339(s) {
        Some((secs, nanos)) => if FIRST_RFC2822_SECOND <= secs <= LAST_RFC2822_SECOND {
            rfc2822_at(secs, nanos)
        } else {
            None
        },
        None => None,
    }
}

/// Converts an RFC 3339 date to RFC 2822 in UTC, through its instant; a date
/// whose instant lies outside the years 0 to 9999, which RFC 2822 cannot
/// write, gives `None`.
pub fn rfc3339_to_utc_rfc2822(s: &str) -> (r: Option<String>)
    ensures
        opt_view(r) == utc_rfc2822_of(s@),
{
    match rfc3339_instant(s) {
        Some((secs, nanos)) => if FIRST_RFC2822_SECOND <= secs && secs <= LAST_RFC2822_SECOND {
            instant_rfc2822(secs, nanos)
        } else {
            None
        },
        None => None,
    }
}

} // verus!
