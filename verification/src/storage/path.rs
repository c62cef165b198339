//! The filesystem layout a stored message is filed under.
//!
//! A message is stored at `<imei>/<yyyy>/<mm>/<yymmdd_HHMMSS>.sbd` below
//! the storage root, every calendar field taken from the session time in
//! UTC and zero-padded. The calendar fields come from the `chrono` crate;
//! turning them into that path is verified here.

use chrono::Datelike;
use chrono::Timelike;
use vstd::prelude::*;

verus! {

/// The civil UTC calendar fields of an epoch-seconds value: year, month,
/// day, hour, minute, second.
pub uninterp spec fn civil_of(secs: u32) -> (u16, u8, u8, u8, u8, u8);

/// Relies on chrono's `DateTime::from_timestamp` and the `Datelike` and
/// `Timelike` accessors: the civil UTC calendar fields of an epoch-seconds
/// value, which depend on that value alone. Every unsigned 32-bit count of
/// seconds names a time between 1970 and 2106, with the month, day, hour,
/// minute and second in their calendar ranges.
#[verifier::external_body]
fn civil_parts(secs: u32) -> (r: (u16, u8, u8, u8, u8, u8))
    ensures
        r == civil_of(secs),
        1970 <= r.0 <= 2106,
        1 <= r.1 <= 12,
        1 <= r.2 <= 31,
        r.3 < 24,
        r.4 < 60,
        r.5 < 60,
{
    let date_time = chrono::DateTime::from_timestamp(secs as i64, 0).unwrap();
    (
        date_time.year() as u16,
        date_time.month() as u8,
        date_time.day() as u8,
        date_time.hour() as u8,
        date_time.minute() as u8,
        date_time.second() as u8,
    )
}

/// The ASCII digit of a value's lowest decimal place.
pub open spec fn spec_digit(n: int) -> u8 {
    (48 + n % 10) as u8
}

/// A value's two lowest decimal places as ASCII digits.
pub open spec fn spec_two_digits(n: int) -> Seq<u8> {
    seq![spec_digit(n / 10), spec_digit(n)]
}

/// A value's four lowest decimal places as ASCII digits.
pub open spec fn spec_four_digits(n: int) -> Seq<u8> {
    seq![spec_digit(n / 1000), spec_digit(n / 100), spec_digit(n / 10), spec_digit(n)]
}

/// The relative storage path for a device id and civil calendar fields:
/// `<imei>/<yyyy>/<mm>/<yymmdd_HHMMSS>.sbd`.
pub open spec fn spec_storage_path(
    imei: Seq<u8>,
    y: int,
    mo: int,
    d: int,
    h: int,
    mi: int,
    s: int,
) -> Seq<u8> {
    imei + seq![47u8] + spec_four_digits(y) + seq![47u8] + spec_two_digits(mo) + seq![47u8]
        + spec_two_digits(y) + spec_two_digits(mo) + spec_two_digits(d) + seq![95u8]
        + spec_two_digits(h) + spec_two_digits(mi) + spec_two_digits(s) + seq![
        46u8,
        115u8,
        98u8,
        100u8,
    ]
}

/// The relative storage path for a device id and a session time, through
/// the calendar fields that [`civil_of`] names for it.
pub open spec fn spec_storage_path_at(imei: Seq<u8>, secs: u32) -> Seq<u8> {
    spec_storage_path(
        imei,
        civil_of(secs).0 as int,
        civil_of(secs).1 as int,
        civil_of(secs).2 as int,
        civil_of(secs).3 as int,
        civil_of(secs).4 as int,
        civil_of(secs).5 as int,
    )
}

/// Appends a value's two lowest decimal places as ASCII digits.
fn push_two_digits(out: &mut Vec<u8>, n: u16)
    ensures
        final(out)@ == old(out)@ + spec_two_digits(n as int),
{
    out.push(48 + ((n / 10) % 10) as u8);
    out.push(48 + (n % 10) as u8);
    proof {
        assert(out@ =~= old(out)@ + spec_two_digits(n as int));
    }
}

/// Appends a value's four lowest decimal places as ASCII digits.
fn push_four_digits(out: &mut Vec<u8>, n: u16)
    ensures
        final(out)@ == old(out)@ + spec_four_digits(n as int),
{
    out.push(48 + ((n / 1000) % 10) as u8);
    out.push(48 + ((n / 100) % 10) as u8);
    out.push(48 + ((n / 10) % 10) as u8);
    out.push(48 + (n % 10) as u8);
    proof {
        assert(out@ =~= old(out)@ + spec_four_digits(n as int));
    }
}

/// Builds the relative storage path from a device id and civil calendar
/// fields, every field zero-padded to its place in the layout.
pub fn storage_path_from_civil(
    imei: &[u8; 15],
    year: u16,
    month: u8,
    day: u8,
    hour: u8,
    minute: u8,
    second: u8,
) -> (r: Vec<u8>)
    ensures
        r@ == spec_storage_path(
            imei@,
            year as int,
            month as int,
            day as int,
            hour as int,
            minute as int,
            second as int,
        ),
{
    let mut out: Vec<u8> = Vec::new();
    let mut i: usize = 0;
    while i < 15
        invariant
            i <= 15,
            out@ =~= imei@.subrange(0, i as int),
        decreases 15 - i,
    {
        out.push(imei[i]);
        i = i + 1;
    }
    proof {
        assert(imei@.subrange(0, 15) =~= imei@);
    }
    out.push(47);
    push_four_digits(&mut out, year);
    out.push(47);
    push_two_digits(&mut out, month as u16);
    out.push(47);
    push_two_digits(&mut out, year);
    push_two_digits(&mut out, month as u16);
    push_two_digits(&mut out, day as u16);
    out.push(95);
    push_two_digits(&mut out, hour as u16);
    push_two_digits(&mut out, minute as u16);
    push_two_digits(&mut out, second as u16);
    out.push(46);
    out.push(115);
    out.push(98);
    out.push(100);
    proof {
        assert(out@ =~= spec_storage_path(
            imei@,
            year as int,
            month as int,
            day as int,
            hour as int,
            minute as int,
            second as int,
        ));
    }
    out
}

/// Builds the relative storage path for a device id and a session time.
pub fn storage_path(imei: &[u8; 15], secs: u32) -> (r: Vec<u8>)
    ensures
        r@ == spec_storage_path_at(imei@, secs),
{
    let (year, month, day, hour, minute, second) = civil_parts(secs);
    storage_path_from_civil(imei, year, month, day, hour, minute, second)
}

} // verus!
