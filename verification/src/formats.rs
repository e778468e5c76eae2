//! Text forms of instants and dates, read and written through chrono, and
//! the current time.
use vstd::prelude::*;
use crate::text::{owned, padded};
use crate::time::{
    civil_to_days, day_in_range, mday_of, month_of, seconds_of, valid_civil, valid_moment,
    valid_offset, year_of, Date, Timestamp, JST_OFFSET_SECONDS, MAX_DAY, NANOS_PER_SECOND,
    UNIX_EPOCH_CE_DAY,
};
use chrono::Datelike;

verus! {

/// What `DateTime::parse_from_rfc3339` reads from a text: whole seconds
/// since the epoch, nanoseconds past them, and the offset in seconds.
pub uninterp spec fn rfc3339_fields(text: Seq<char>) -> Option<(int, int, int)>;

/// What `NaiveDateTime::parse_from_str` reads from a text with a format:
/// seconds since the epoch of the wall-clock reading, and nanoseconds past them.
pub uninterp spec fn naive_datetime_fields(text: Seq<char>, format: Seq<char>) -> Option<(int, int)>;

/// What `NaiveDate::parse_from_str` reads from a text with a format, as
/// chrono's day number (`num_days_from_ce`).
pub uninterp spec fn naive_date_ce(text: Seq<char>, format: Seq<char>) -> Option<int>;

/// `DateTime::to_rfc3339` of the instant with the given whole seconds,
/// nanoseconds and offset.
pub uninterp spec fn rfc3339_text(secs: int, nanos: int, offset: int) -> Seq<char>;

/// `%Y` of a year (chrono's `format::formatting`): four zero-padded digits
/// for years 0 to 9999; else the sign, then at least four digits.
pub open spec fn year_text(y: int) -> Seq<char> {
    if 0 <= y <= 9999 {
        padded(y as nat, 4)
    } else if y > 9999 {
        seq!['+'] + padded(y as nat, 4)
    } else {
        seq!['-'] + padded((-y) as nat, 4)
    }
}

/// `NaiveDate::format("%Y-%m-%d")` of the date with chrono day number `ce`:
/// the year as `%Y` writes it, then the month and the day, two digits each.
pub open spec fn ymd_text(ce: int) -> Seq<char> {
    let day = ce - UNIX_EPOCH_CE_DAY;
    year_text(year_of(day)) + seq!['-'] + padded(month_of(day) as nat, 2) + seq!['-'] + padded(
        mday_of(day) as nat,
        2,
    )
}

/// `YYYY-MM-DD` for a year with four digits.
pub open spec fn ymd_digits(y: int, m: int, d: int) -> Seq<char> {
    padded(y as nat, 4) + seq!['-'] + padded(m as nat, 2) + seq!['-'] + padded(d as nat, 2)
}

/// The offset as chrono writes it in RFC 3339: sign, hours and minutes,
/// rounded to the nearest minute.
pub open spec fn offset_digits(offset: int) -> Seq<char> {
    let sign = if offset < 0 {
        '-'
    } else {
        '+'
    };
    let abs = if offset < 0 {
        -offset
    } else {
        offset
    };
    let minutes = (abs + 30) / 60;
    seq![sign] + padded((minutes / 60) as nat, 2) + seq![':'] + padded((minutes % 60) as nat, 2)
}

/// The RFC 3339 text of a local wall-clock reading with a whole second.
pub open spec fn rfc3339_digits(y: int, mo: int, d: int, h: int, mi: int, s: int, offset: int) -> Seq<
    char,
> {
    ymd_digits(y, mo, d) + seq!['T'] + padded(h as nat, 2) + seq![':'] + padded(mi as nat, 2)
        + seq![':'] + padded(s as nat, 2) + offset_digits(offset)
}

/// The parsed fields lie in chrono's range.
pub open spec fn rfc3339_fields_valid(f: (int, int, int)) -> bool {
    &&& valid_offset(f.2)
    &&& 0 <= f.1 < 2 * NANOS_PER_SECOND
    &&& day_in_range(f.0 / 86_400)
    &&& day_in_range((f.0 + f.2) / 86_400)
}

/// The fields of a canonical RFC 3339 text `YYYY-MM-DDTHH:MM:SS±HH:MM`
/// name an existing date of a four-digit year, a time of day, and an
/// offset of whole minutes under a day.
pub open spec fn canonical_rfc3339(
    y: int,
    mo: int,
    d: int,
    h: int,
    mi: int,
    sec: int,
    off: int,
) -> bool {
    &&& valid_civil(y, mo, d)
    &&& 0 <= y <= 9999
    &&& 0 <= h < 24
    &&& 0 <= mi < 60
    &&& 0 <= sec < 60
    &&& off % 60 == 0
    &&& -86_400 < off < 86_400
}

/// Seconds since the epoch of a wall-clock reading taken at an offset.
pub open spec fn canonical_seconds(
    y: int,
    mo: int,
    d: int,
    h: int,
    mi: int,
    sec: int,
    off: int,
) -> int {
    civil_to_days(y, mo, d) * 86_400 + h * 3600 + mi * 60 + sec - off
}

/// The fields chrono reads from a canonical text: whole seconds, no
/// nanoseconds, and the offset.
pub open spec fn canonical_fields(secs: int, off: int) -> Result<(i64, u32, i32), String> {
    Ok((secs as i64, 0u32, off as i32))
}

/// `DateTime::parse_from_rfc3339`: the seconds, nanoseconds and offset it
/// reads, or chrono's error message. What the fields are for a given text is
/// chrono's RFC 3339 grammar, named `rfc3339_fields`; a parsed value always
/// lies in chrono's range. A canonical `YYYY-MM-DDTHH:MM:SS±HH:MM` (four
/// digits of year, two of each other field, no fraction) reads as that
/// wall-clock reading at that offset (chrono's `format::parse::parse_rfc3339`);
/// the same text without an offset is refused (nothing is left for the
/// offset, which `scan::timezone_offset` refuses).
#[verifier::external_body]
fn chrono_parse_rfc3339(text: &str) -> (r: Result<(i64, u32, i32), String>)
    ensures
        match r {
            Ok(f) => rfc3339_fields(text@) == Some((f.0 as int, f.1 as int, f.2 as int))
                && rfc3339_fields_valid((f.0 as int, f.1 as int, f.2 as int)),
            Err(_) => rfc3339_fields(text@) is None,
        },
        forall|y: int, mo: int, d: int, h: int, mi: int, sec: int, off: int|
            #![trigger rfc3339_digits(y, mo, d, h, mi, sec, off)]
            canonical_rfc3339(y, mo, d, h, mi, sec, off) && text@ == rfc3339_digits(y, mo, d, h, mi, sec, off)
                ==> r == canonical_fields(canonical_seconds(y, mo, d, h, mi, sec, off), off),
        forall|y: int, mo: int, d: int, h: int, mi: int, sec: int|
            #![trigger naive_wall_text(y, mo, d, h, mi, sec)]
            canonical_rfc3339(y, mo, d, h, mi, sec, 0) && text@ == naive_wall_text(y, mo, d, h, mi, sec)
                ==> r is Err,
{
    match chrono::DateTime::parse_from_rfc3339(text) {
        Ok(dt) => Ok((dt.timestamp(), dt.timestamp_subsec_nanos(), dt.offset().local_minus_utc())),
        Err(error) => Err(error.to_string()),
    }
}

/// `YYYY-MM-DDTHH:MM:SS` of a wall-clock reading, each field zero-padded.
pub open spec fn naive_wall_text(y: int, mo: int, d: int, h: int, mi: int, sec: int) -> Seq<char> {
    ymd_digits(y, mo, d) + seq!['T'] + padded(h as nat, 2) + seq![':'] + padded(mi as nat, 2)
        + seq![':'] + padded(sec as nat, 2)
}

/// The fields chrono reads from a canonical wall-clock text: its whole
/// seconds since the epoch, and no nanoseconds.
pub open spec fn wall_fields(secs: int) -> Option<(i64, u32)> {
    Some((secs as i64, 0u32))
}

/// `NaiveDateTime::parse_from_str`: the wall-clock seconds and nanoseconds
/// it reads. What they are for a given text and format is chrono's format
/// grammar, named `naive_datetime_fields`; a parsed value lies in chrono's
/// range. Under `%Y-%m-%dT%H:%M:%S`, a zero-padded `YYYY-MM-DDTHH:MM:SS`
/// of an existing date with a four-digit year reads as that wall-clock
/// reading (four digits for `%Y`, two for each other field, in chrono's
/// `format::parse`).
#[verifier::external_body]
fn chrono_parse_naive_datetime(text: &str, format: &str) -> (r: Option<(i64, u32)>)
    ensures
        match r {
            Some(f) => naive_datetime_fields(text@, format@) == Some((f.0 as int, f.1 as int))
                && day_in_range(f.0 / 86_400) && f.1 < 2 * NANOS_PER_SECOND,
            None => naive_datetime_fields(text@, format@) is None,
        },
        format@ == "%Y-%m-%dT%H:%M:%S"@ ==> forall|y: int, mo: int, d: int, h: int, mi: int, sec: int|
            #![trigger naive_wall_text(y, mo, d, h, mi, sec)]
            canonical_rfc3339(y, mo, d, h, mi, sec, 0) && text@ == naive_wall_text(y, mo, d, h, mi, sec)
                ==> r == wall_fields(canonical_seconds(y, mo, d, h, mi, sec, 0)),
{
    match chrono::NaiveDateTime::parse_from_str(text, format) {
        Ok(dt) => Some((dt.and_utc().timestamp(), dt.and_utc().timestamp_subsec_nanos())),
        Err(_) => None,
    }
}

/// `NaiveDate::parse_from_str`: chrono's day number of the date it reads,
/// named `naive_date_ce`; a parsed date lies in chrono's range. Under
/// `%Y-%m-%d`, a zero-padded `YYYY-MM-DD` of an existing date with a year
/// from 0 to 9999 reads as that date (four digits for `%Y`, two each for
/// `%m` and `%d`, in chrono's `format::parse`).
#[verifier::external_body]
fn chrono_parse_naive_date(text: &str, format: &str) -> (r: Option<i32>)
    ensures
        match r {
            Some(ce) => naive_date_ce(text@, format@) == Some(ce as int) && day_in_range(
                ce - UNIX_EPOCH_CE_DAY,
            ),
            None => naive_date_ce(text@, format@) is None,
        },
        format@ == "%Y-%m-%d"@ ==> forall|y: int, m: int, d: int|
            #![trigger ymd_digits(y, m, d)]
            valid_civil(y, m, d) && 0 <= y <= 9999 && text@ == ymd_digits(y, m, d) ==> r
                == Some((civil_to_days(y, m, d) + UNIX_EPOCH_CE_DAY) as i32),
{
    match chrono::NaiveDate::parse_from_str(text, format) {
        Ok(date) => Some(date.num_days_from_ce()),
        Err(_) => None,
    }
}

/// `DateTime::to_rfc3339` of an instant in chrono's range, with fewer than
/// a second's nanoseconds past its whole second. For a whole
/// second and a year of four digits the text is `YYYY-MM-DDTHH:MM:SS±HH:MM`
/// (chrono's `write_rfc3339`); for other years and fractional seconds
/// the contract only names the text.
#[verifier::external_body]
fn chrono_to_rfc3339(secs: i64, nanos: u32, offset: i32) -> (r: String)
    requires
        rfc3339_fields_valid((secs as int, nanos as int, offset as int)),
        nanos < NANOS_PER_SECOND,
    ensures
        r@ == rfc3339_text(secs as int, nanos as int, offset as int),
        nanos == 0 ==> forall|y: int, m: int, d: int|
            #![trigger civil_to_days(y, m, d)]
            valid_civil(y, m, d) && 0 <= y <= 9999 && civil_to_days(y, m, d) == (secs + offset)
                / 86_400 ==> r@ == rfc3339_digits(
                y,
                m,
                d,
                ((secs + offset) % 86_400) / 3600,
                (((secs + offset) % 86_400) % 3600) / 60,
                ((secs + offset) % 86_400) % 60,
                offset as int,
            ),
{
    let fixed = chrono::FixedOffset::east_opt(offset).unwrap();
    let utc = chrono::DateTime::from_timestamp(secs, nanos).unwrap();
    utc.with_timezone(&fixed).to_rfc3339()
}

/// `NaiveDate::format("%Y-%m-%d")` of the date with a chrono day number:
/// `ymd_text`, which states the text in full.
#[verifier::external_body]
fn chrono_format_ymd(ce: i32) -> (r: String)
    requires
        day_in_range(ce - UNIX_EPOCH_CE_DAY),
    ensures
        r@ == ymd_text(ce as int),
{
    let date = chrono::NaiveDate::from_num_days_from_ce_opt(ce).unwrap();
    date.format("%Y-%m-%d").to_string()
}

/// `Utc::now()` as whole seconds and nanoseconds. Of the clock's reading
/// only what chrono's `Utc::now` gives is stated: it is not before the
/// Unix epoch (chrono takes `SystemTime::now().duration_since(UNIX_EPOCH)`
/// and does not return otherwise), its UTC date lies in chrono's range
/// (`DateTime::from_timestamp(..).unwrap()`), and the nanoseconds are
/// fewer than a second's.
#[verifier::external_body]
fn chrono_now() -> (r: (i64, u32))
    ensures
        r.0 >= 0,
        day_in_range(r.0 / 86_400),
        r.1 < NANOS_PER_SECOND,
{
    let now = chrono::Utc::now();
    (now.timestamp(), now.timestamp_subsec_nanos())
}

/// The instant an RFC 3339 text denotes.
pub open spec fn rfc3339_moment(text: Seq<char>) -> Option<(int, int)> {
    match rfc3339_fields(text) {
        Some(f) => Some((f.0 * NANOS_PER_SECOND + f.1, f.2)),
        None => None,
    }
}

/// Reads an RFC 3339 timestamp (`DateTime::parse_from_rfc3339`), or gives
/// chrono's error message.
pub fn parse_rfc3339(text: &str) -> (r: Result<Timestamp, String>)
    ensures
        forall|y: int, mo: int, d: int, h: int, mi: int, sec: int|
            #![trigger naive_wall_text(y, mo, d, h, mi, sec)]
            canonical_rfc3339(y, mo, d, h, mi, sec, 0) && text@ == naive_wall_text(y, mo, d, h, mi, sec)
                ==> r is Err,
        r is Ok <==> (rfc3339_moment(text@) matches Some(m) && valid_moment(m.0, m.1)),
        r matches Ok(t) ==> rfc3339_moment(text@) == Some((t.instant(), t.offset())),
        forall|y: int, mo: int, d: int, h: int, mi: int, sec: int, off: int|
            #![trigger rfc3339_digits(y, mo, d, h, mi, sec, off)]
            canonical_rfc3339(y, mo, d, h, mi, sec, off) && text@ == rfc3339_digits(
                y,
                mo,
                d,
                h,
                mi,
                sec,
                off,
            ) ==> (r matches Ok(t) && t.instant() == canonical_seconds(y, mo, d, h, mi, sec, off)
                * NANOS_PER_SECOND && t.offset() == off),
{
    match chrono_parse_rfc3339(text) {
        Ok(f) => {
            proof {
                if f.1 == 0 {
                    assert((f.0 * 1_000_000_000 + 0) / 1_000_000_000 == f.0) by (nonlinear_arith);
                }
            }
            let nanos = f.0 as i128 * NANOS_PER_SECOND + f.1 as i128;
            match Timestamp::from_parts(nanos, f.2) {
                Some(t) => Ok(t),
                None => Err(owned("out of range")),
            }
        },
        Err(e) => Err(e),
    }
}

/// The wall-clock reading a text denotes under a chrono format, in
/// nanoseconds since the epoch.
pub open spec fn naive_moment(text: Seq<char>, format: Seq<char>) -> Option<int> {
    match naive_datetime_fields(text, format) {
        Some(f) => Some(f.0 * NANOS_PER_SECOND + f.1),
        None => None,
    }
}

/// Reads a wall-clock date and time under a chrono format
/// (`NaiveDateTime::parse_from_str`), as nanoseconds since the epoch.
pub fn parse_naive_datetime(text: &str, format: &str) -> (r: Option<i128>)
    ensures
        r is Some <==> (naive_moment(text@, format@) matches Some(n) && day_in_range(
            seconds_of(n) / 86_400,
        )),
        r matches Some(n) ==> naive_moment(text@, format@) == Some(n as int),
        format@ == "%Y-%m-%dT%H:%M:%S"@ ==> forall|y: int, mo: int, d: int, h: int, mi: int, sec: int|
            #![trigger naive_wall_text(y, mo, d, h, mi, sec)]
            canonical_rfc3339(y, mo, d, h, mi, sec, 0) && text@ == naive_wall_text(y, mo, d, h, mi, sec)
                ==> (r matches Some(n) && n == canonical_seconds(y, mo, d, h, mi, sec, 0)
                * NANOS_PER_SECOND),
{
    match chrono_parse_naive_datetime(text, format) {
        Some(f) => {
            let n = f.0 as i128 * NANOS_PER_SECOND + f.1 as i128;
            let secs = n / NANOS_PER_SECOND;
            proof {
                assert(n / 1_000_000_000 == f.0 + f.1 / 1_000_000_000) by (nonlinear_arith)
                    requires
                        0 <= f.1 < 2_000_000_000,
                        n == f.0 * 1_000_000_000 + f.1,
                ;
            }
            if secs / 86_400 > MAX_DAY as i128 {
                None
            } else {
                Some(n)
            }
        },
        None => None,
    }
}

/// The date a text denotes under a chrono format, as a day number.
pub open spec fn naive_date_day(text: Seq<char>, format: Seq<char>) -> Option<int> {
    match naive_date_ce(text, format) {
        Some(ce) => Some(ce - UNIX_EPOCH_CE_DAY),
        None => None,
    }
}

/// Reads a date under a chrono format (`NaiveDate::parse_from_str`).
pub fn parse_naive_date(text: &str, format: &str) -> (r: Option<Date>)
    ensures
        match r {
            Some(d) => naive_date_day(text@, format@) == Some(d.day_number()),
            None => naive_date_day(text@, format@) is None,
        },
        format@ == "%Y-%m-%d"@ ==> forall|y: int, m: int, d: int|
            #![trigger ymd_digits(y, m, d)]
            valid_civil(y, m, d) && 0 <= y <= 9999 && text@ == ymd_digits(y, m, d) ==> (r matches Some(
                x,
            ) && x.day_number() == civil_to_days(y, m, d)),
{
    match chrono_parse_naive_date(text, format) {
        Some(ce) => Date::from_day_number(ce as i64 - UNIX_EPOCH_CE_DAY),
        None => None,
    }
}

/// The RFC 3339 text of a timestamp (`DateTime::to_rfc3339`).
pub open spec fn timestamp_rfc3339(t: Timestamp) -> Seq<char> {
    rfc3339_text(seconds_of(t.instant()), t.subsec_nanos(), t.offset())
}

/// `DateTime::to_rfc3339`.
pub fn to_rfc3339(t: &Timestamp) -> (r: String)
    ensures
        r@ == timestamp_rfc3339(*t),
{
    t.valid();
    let secs = t.unix_seconds();
    let nanos = t.subsec_nanos_exec();
    proof {
        assert(t.instant() == seconds_of(t.instant()) * 1_000_000_000 + t.subsec_nanos());
    }
    chrono_to_rfc3339(secs, nanos, t.offset_seconds())
}

/// The `%Y-%m-%d` text of a date.
pub open spec fn date_ymd_text(d: Date) -> Seq<char> {
    ymd_text(d.day_number() + UNIX_EPOCH_CE_DAY)
}

/// `NaiveDate::format("%Y-%m-%d").to_string()`.
pub fn format_ymd(d: &Date) -> (r: String)
    ensures
        r@ == date_ymd_text(*d),
{
    let day = d.day_number_exec();
    chrono_format_ymd((day + UNIX_EPOCH_CE_DAY) as i32)
}

/// A clock reading of `secs` whole seconds and `nanos` nanoseconds since
/// the epoch, shown in Japan Standard Time; `None` where chrono cannot
/// represent it there.
pub fn jst_reading(secs: i64, nanos: u32) -> (r: Option<Timestamp>)
    ensures
        r is Some <==> valid_moment(secs * NANOS_PER_SECOND + nanos, JST_OFFSET_SECONDS as int),
        r matches Some(t) ==> t.instant() == secs * NANOS_PER_SECOND + nanos && t.offset()
            == JST_OFFSET_SECONDS,
{
    Timestamp::from_parts(secs as i128 * NANOS_PER_SECOND + nanos as i128, JST_OFFSET_SECONDS)
}

/// The current instant, shown in Japan Standard Time; `None` where the
/// clock's reading lies past the last JST moment chrono represents (on
/// chrono's last day). Which instant it is depends on the clock.
pub fn current_jst_now() -> (r: Option<Timestamp>)
    ensures
        r matches Some(t) ==> t.offset() == JST_OFFSET_SECONDS && t.instant() >= 0,
{
    let (secs, nanos) = chrono_now();
    jst_reading(secs, nanos)
}

} // verus!
