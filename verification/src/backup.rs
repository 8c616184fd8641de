//! Naming and retention rules for the date-bucketed backup files.
//!
//! Every chunk the loop forwards while backup is enabled is appended to a
//! file named after the current UTC day, `YYYY-MM-DD.log`. On the same
//! call the retention sweep walks the backup directory and deletes every
//! `.log` file whose date lies strictly more than the retention window
//! before now. The calendar conversions come from the `time` crate behind
//! trusted wrappers; the file-name grammar and the retention comparison
//! are verified here.
use vstd::prelude::*;

verus! {

/// The UTC calendar date (year, month, day) of a Unix timestamp, as the
/// `time` crate computes it in the proleptic Gregorian calendar.
pub uninterp spec fn spec_utc_date_of(secs: int) -> (int, int, int);

/// The Unix timestamp of midnight UTC on a calendar date, as the `time`
/// crate computes it in the proleptic Gregorian calendar.
pub uninterp spec fn spec_midnight_timestamp_of(year: int, month: int, day: int) -> int;

/// Whether a year is a leap year of the proleptic Gregorian calendar.
pub open spec fn spec_is_leap_year(year: int) -> bool {
    year % 4 == 0 && (year % 100 != 0 || year % 400 == 0)
}

/// The number of days in a month of the proleptic Gregorian calendar.
pub open spec fn spec_days_in_month(year: int, month: int) -> int {
    if month == 2 {
        if spec_is_leap_year(year) {
            29
        } else {
            28
        }
    } else if month == 4 || month == 6 || month == 9 || month == 11 {
        30
    } else {
        31
    }
}

/// Relies on `time::OffsetDateTime::from_unix_timestamp` and the `year`,
/// `month` and `day` accessors of its result: the UTC calendar date of a
/// Unix timestamp. The conversion succeeds for every timestamp the
/// crate's date range (years -9999..=9999) covers, so in particular for
/// 0..=253402300799, the seconds of the years 1970..=9999; a timestamp at
/// or after the epoch falls in a year at or after 1970, and every
/// timestamp lies at or after midnight of its own date and before
/// midnight of the next day.
#[verifier::external_body]
fn utc_date_of_timestamp(secs: i64) -> (r: Option<(i32, u8, u8)>)
    ensures
        r matches Some(d) ==> {
            &&& d.0 == spec_utc_date_of(secs as int).0
            &&& d.1 == spec_utc_date_of(secs as int).1
            &&& d.2 == spec_utc_date_of(secs as int).2
            &&& -9999 <= d.0 <= 9999
            &&& 1 <= d.1 <= 12
            &&& 1 <= d.2 <= 31
        },
        r matches Some(d) ==> (secs >= 0 ==> d.0 >= 1970),
        r matches Some(d) ==> spec_midnight_timestamp_of(d.0 as int, d.1 as int, d.2 as int)
            <= secs < spec_midnight_timestamp_of(d.0 as int, d.1 as int, d.2 as int) + 86400,
        0 <= secs <= 253402300799 ==> r is Some,
{
    match time::OffsetDateTime::from_unix_timestamp(secs) {
        Ok(moment) => Some((moment.year(), moment.month() as u8, moment.day())),
        Err(_) => None,
    }
}

/// Relies on `time::Date::from_calendar_date` together with
/// `Date::midnight`, `PlainDateTime::assume_utc` and
/// `OffsetDateTime::unix_timestamp`: the Unix timestamp of midnight UTC
/// on a calendar date. `from_calendar_date` succeeds exactly for the
/// valid proleptic-Gregorian dates with year in -9999..=9999.
#[verifier::external_body]
fn midnight_timestamp(year: i32, month: u8, day: u8) -> (r: Option<i64>)
    ensures
        r matches Some(t) ==> t == spec_midnight_timestamp_of(
            year as int,
            month as int,
            day as int,
        ),
        (r is Some) == (-9999 <= year <= 9999 && 1 <= month <= 12 && 1 <= day
            <= spec_days_in_month(year as int, month as int)),
{
    let parsed_month = match time::Month::try_from(month) {
        Ok(m) => m,
        Err(_) => {
            return None;
        },
    };
    match time::Date::from_calendar_date(year, parsed_month, day) {
        Ok(date) => Some(date.midnight().assume_utc().unix_timestamp()),
        Err(_) => None,
    }
}

/// The ASCII digit for `n`, meaningful for 0..=9.
pub open spec fn spec_digit(n: int) -> u8 {
    (48 + n) as u8
}

/// The ten bytes `YYYY-MM-DD` naming a calendar date, each component
/// zero-padded.
pub open spec fn spec_date_name(year: int, month: int, day: int) -> Seq<u8> {
    seq![
        spec_digit(year / 1000 % 10),
        spec_digit(year / 100 % 10),
        spec_digit(year / 10 % 10),
        spec_digit(year % 10),
        45u8,
        spec_digit(month / 10 % 10),
        spec_digit(month % 10),
        45u8,
        spec_digit(day / 10 % 10),
        spec_digit(day % 10),
    ]
}

/// The backup file name for a calendar date: `YYYY-MM-DD.log`.
pub open spec fn spec_log_file_name(year: int, month: int, day: int) -> Seq<u8> {
    spec_date_name(year, month, day) + seq![46u8, 108u8, 111u8, 103u8]
}

/// Build the backup file name `YYYY-MM-DD.log` for a calendar date.
pub fn format_log_file_name(year: i32, month: u8, day: u8) -> (r: Vec<u8>)
    requires
        0 <= year <= 9999,
    ensures
        r@ == spec_log_file_name(year as int, month as int, day as int),
{
    let mut name: Vec<u8> = Vec::new();
    name.push((year / 1000 % 10) as u8 + 48);
    name.push((year / 100 % 10) as u8 + 48);
    name.push((year / 10 % 10) as u8 + 48);
    name.push((year % 10) as u8 + 48);
    name.push(45);
    name.push(month / 10 % 10 + 48);
    name.push(month % 10 + 48);
    name.push(45);
    name.push(day / 10 % 10 + 48);
    name.push(day % 10 + 48);
    name.push(46);
    name.push(108);
    name.push(111);
    name.push(103);
    assert(name@ =~= spec_log_file_name(year as int, month as int, day as int));
    name
}

/// The backup file name for the UTC day a timestamp falls in.
///
/// Returns `None` only when the timestamp lies outside the years 0..=9999,
/// where no four-digit name exists; every timestamp of the years
/// 1970..=9999 — in seconds, 0..=253402300799 — is owed a name. The name
/// just written is never one the same call's sweep deletes, for any
/// retention window of at least one day.
pub fn backup_file_name(now_secs: i64) -> (r: Option<Vec<u8>>)
    ensures
        r matches Some(name) ==> {
            &&& 0 <= spec_utc_date_of(now_secs as int).0 <= 9999
            &&& name@ == spec_log_file_name(
                spec_utc_date_of(now_secs as int).0,
                spec_utc_date_of(now_secs as int).1,
                spec_utc_date_of(now_secs as int).2,
            )
        },
        r matches Some(name) ==> forall|days: int|
            days >= 1 ==> !spec_should_delete(name@, now_secs as int, days),
        0 <= now_secs <= 253402300799 ==> r is Some,
{
    match utc_date_of_timestamp(now_secs) {
        None => None,
        Some((year, month, day)) => {
            if year < 0 {
                None
            } else {
                let name = format_log_file_name(year, month, day);
                proof {
                    lemma_file_name_round_trip(year as int, month as int, day as int);
                }
                Some(name)
            }
        },
    }
}

/// The ASCII bytes of the decimal digits.
pub open spec fn spec_is_digit(b: u8) -> bool {
    48 <= b <= 57
}

/// Whether the first ten bytes of a name spell a date, `YYYY-MM-DD`:
/// four digits, a dash, two digits, a dash, two digits.
pub open spec fn spec_date_prefix_ok(s: Seq<u8>) -> bool {
    &&& s.len() >= 10
    &&& spec_is_digit(s[0])
    &&& spec_is_digit(s[1])
    &&& spec_is_digit(s[2])
    &&& spec_is_digit(s[3])
    &&& s[4] == 45u8
    &&& spec_is_digit(s[5])
    &&& spec_is_digit(s[6])
    &&& s[7] == 45u8
    &&& spec_is_digit(s[8])
    &&& spec_is_digit(s[9])
}

/// The year the first ten bytes spell.
pub open spec fn spec_parsed_year(s: Seq<u8>) -> int {
    (s[0] - 48) * 1000 + (s[1] - 48) * 100 + (s[2] - 48) * 10 + (s[3] - 48)
}

/// The month the first ten bytes spell.
pub open spec fn spec_parsed_month(s: Seq<u8>) -> int {
    (s[5] - 48) * 10 + (s[6] - 48)
}

/// The day the first ten bytes spell.
pub open spec fn spec_parsed_day(s: Seq<u8>) -> int {
    (s[8] - 48) * 10 + (s[9] - 48)
}

/// A parsed `YYYY-MM-DD` file-name prefix, components as spelled; the
/// spelling alone does not make them a valid calendar date.
#[derive(Clone, Copy, Debug, PartialEq, Eq, Structural)]
pub struct BackupDate {
    pub year: u16,
    pub month: u8,
    pub day: u8,
}

/// Parse the first ten bytes of a file name as a `YYYY-MM-DD` date.
pub fn parse_date_prefix(name: &Vec<u8>) -> (r: Option<BackupDate>)
    ensures
        (r is Some) == spec_date_prefix_ok(name@),
        r matches Some(d) ==> {
            &&& d.year == spec_parsed_year(name@)
            &&& d.month == spec_parsed_month(name@)
            &&& d.day == spec_parsed_day(name@)
        },
{
    if name.len() < 10 {
        return None;
    }
    let mut k: usize = 0;
    while k < 10
        invariant
            k <= 10,
            name@.len() >= 10,
            forall|j: int|
                0 <= j < k ==> if j == 4 || j == 7 {
                    name@[j] == 45u8
                } else {
                    spec_is_digit(name@[j])
                },
        decreases 10 - k,
    {
        let b = name[k];
        if k == 4 || k == 7 {
            if b != 45 {
                return None;
            }
        } else {
            if b < 48 || b > 57 {
                return None;
            }
        }
        k = k + 1;
    }
    let year: u16 = (name[0] - 48) as u16 * 1000 + (name[1] - 48) as u16 * 100 + (name[2] - 48)
        as u16 * 10 + (name[3] - 48) as u16;
    let month: u8 = (name[5] - 48) * 10 + (name[6] - 48);
    let day: u8 = (name[8] - 48) * 10 + (name[9] - 48);
    Some(BackupDate { year, month, day })
}

/// Whether a name ends in the four bytes `.log`.
pub open spec fn spec_ends_with_log(s: Seq<u8>) -> bool {
    &&& s.len() >= 4
    &&& s[s.len() - 4] == 46u8
    &&& s[s.len() - 3] == 108u8
    &&& s[s.len() - 2] == 111u8
    &&& s[s.len() - 1] == 103u8
}

/// Decide whether a name ends in `.log`.
pub fn ends_with_log(name: &Vec<u8>) -> (r: bool)
    ensures
        r == spec_ends_with_log(name@),
{
    if name.len() < 4 {
        return false;
    }
    let n = name.len();
    name[n - 4] == 46 && name[n - 3] == 108 && name[n - 2] == 111 && name[n - 1] == 103
}

/// When the retention sweep deletes a backup directory entry: its name
/// ends in `.log`, its first ten bytes spell a valid calendar date, and
/// midnight UTC of that date lies strictly before now minus the window,
/// the window counted in days of 86400 seconds.
pub open spec fn spec_should_delete(name: Seq<u8>, now: int, days: int) -> bool {
    &&& spec_ends_with_log(name)
    &&& spec_date_prefix_ok(name)
    &&& 1 <= spec_parsed_month(name) <= 12
    &&& 1 <= spec_parsed_day(name) <= spec_days_in_month(
        spec_parsed_year(name),
        spec_parsed_month(name),
    )
    &&& spec_midnight_timestamp_of(
        spec_parsed_year(name),
        spec_parsed_month(name),
        spec_parsed_day(name),
    ) < now - days * 86400
}

/// Decide whether the retention sweep deletes one directory entry.
///
/// A file dated strictly more than `window_days` days before `now_secs`
/// is deleted; one dated within the window is retained, and so is any
/// entry whose name does not parse as a dated `.log` file.
pub fn should_delete_backup(name: &Vec<u8>, now_secs: i64, window_days: u64) -> (r: bool)
    ensures
        r == spec_should_delete(name@, now_secs as int, window_days as int),
{
    if !ends_with_log(name) {
        return false;
    }
    let parsed = match parse_date_prefix(name) {
        Some(date) => date,
        None => {
            return false;
        },
    };
    match midnight_timestamp(parsed.year as i32, parsed.month, parsed.day) {
        None => false,
        Some(midnight) => {
            (midnight as i128) < (now_secs as i128) - (window_days as i128) * 86400
        },
    }
}

/// Law: the sweep can read back what the writer names. A file name built
/// for a date ends in `.log`, its first ten bytes spell a well-formed
/// date, and parsing them yields the year, month and day it was built
/// from.
pub proof fn lemma_file_name_round_trip(year: int, month: int, day: int)
    requires
        0 <= year <= 9999,
        0 <= month <= 99,
        0 <= day <= 99,
    ensures
        spec_ends_with_log(spec_log_file_name(year, month, day)),
        spec_date_prefix_ok(spec_log_file_name(year, month, day)),
        spec_parsed_year(spec_log_file_name(year, month, day)) == year,
        spec_parsed_month(spec_log_file_name(year, month, day)) == month,
        spec_parsed_day(spec_log_file_name(year, month, day)) == day,
{
    let name = spec_log_file_name(year, month, day);
    assert(name.len() == 14);
    assert(year / 1000 % 10 * 1000 + year / 100 % 10 * 100 + year / 10 % 10 * 10 + year % 10
        == year) by (nonlinear_arith)
        requires
            0 <= year <= 9999,
    ;
    assert(month / 10 % 10 * 10 + month % 10 == month) by (nonlinear_arith)
        requires
            0 <= month <= 99,
    ;
    assert(day / 10 % 10 * 10 + day % 10 == day) by (nonlinear_arith)
        requires
            0 <= day <= 99,
    ;
}

/// Run the retention decision over a directory listing: entry `i` is to
/// be deleted exactly when the returned vector holds `true` at `i`.
pub fn sweep_expired_backups(entries: &Vec<Vec<u8>>, now_secs: i64, window_days: u64) -> (r: Vec<
    bool,
>)
    ensures
        r@.len() == entries@.len(),
        forall|i: int|
            0 <= i < entries@.len() ==> r@[i] == spec_should_delete(
                entries@[i]@,
                now_secs as int,
                window_days as int,
            ),
{
    let mut expired: Vec<bool> = Vec::new();
    let mut i: usize = 0;
    while i < entries.len()
        invariant
            i <= entries@.len(),
            expired@.len() == i,
            forall|j: int|
                0 <= j < i ==> expired@[j] == spec_should_delete(
                    entries@[j]@,
                    now_secs as int,
                    window_days as int,
                ),
        decreases entries@.len() - i,
    {
        expired.push(should_delete_backup(&entries[i], now_secs, window_days));
        i = i + 1;
    }
    expired
}

} // verus!
