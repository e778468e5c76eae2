//! Reading the date, time and duration forms the command line accepts, in
//! Japan Standard Time.
use vstd::prelude::*;
use crate::formats::{
    canonical_rfc3339,
    canonical_seconds,
    current_jst_now,
    naive_wall_text,
    naive_date_day,
    naive_moment,
    parse_naive_date,
    parse_naive_datetime,
    parse_rfc3339,
    rfc3339_digits,
    rfc3339_moment,
};
use crate::text::{
    chars_of,
    dec,
    digit_char,
    is_ws,
    padded,
    digits_value,
    digits_value_bounded,
    is_digit,
    is_digit_char,
    lower,
    lower_chars,
    padded_signed,
    parse_u32,
    parse_u32_spec,
    parse_u64,
    parse_u64_spec,
    push_all,
    push_str,
    replace_all,
    replace_str,
    slice_chars,
    split_chars,
    split_on,
    split_once,
    split_once_chars,
    string_of,
    trim,
    trim_str,
    views,
};
use crate::time::{
    day_in_range,
    seconds_of,
    delta_in_range,
    valid_moment,
    Date,
    TimeDelta,
    Timestamp,
    Weekday,
    JST_OFFSET_SECONDS,
    NANOS_PER_SECOND,
};

verus! {

/// The fixed offset of Japan Standard Time, in seconds east of UTC.
pub fn jst_offset() -> (r: i32)
    ensures
        r == JST_OFFSET_SECONDS,
{
    JST_OFFSET_SECONDS
}

/// Today's date in Japan Standard Time: the JST date of the clock's
/// reading, which is never before 1970-01-01; `None` where chrono cannot
/// show the reading in JST (see `current_jst_now`). Which day it is
/// depends on the clock.
pub fn current_jst_date() -> (r: Option<Date>)
    ensures
        r matches Some(d) ==> 0 <= d.day_number() && day_in_range(d.day_number()),
{
    match current_jst_now() {
        Some(now) => {
            proof {
                assert(now.local_day() >= 0) by (nonlinear_arith)
                    requires
                        now.instant() >= 0,
                        now.offset() == JST_OFFSET_SECONDS,
                        now.local_day() == now.local_seconds() / 86_400,
                        now.local_seconds() == seconds_of(now.instant()) + now.offset(),
                        seconds_of(now.instant()) == now.instant() / 1_000_000_000,
                ;
            }
            Some(now.date())
        },
        None => None,
    }
}

/// The instant, in nanoseconds, of a wall-clock reading in JST.
pub open spec fn jst_instant(local_nanos: int) -> int {
    local_nanos - JST_OFFSET_SECONDS * NANOS_PER_SECOND
}

/// A JST timestamp for a wall-clock reading given in nanoseconds since the
/// epoch (`FixedOffset::from_local_datetime`), refused outside chrono's range.
pub fn jst_from_naive(local_nanos: i128) -> (r: Result<Timestamp, String>)
    requires
        -10_000_000_000_000_000_000_000 <= local_nanos <= 10_000_000_000_000_000_000_000,
    ensures
        r is Ok <==> valid_moment(jst_instant(local_nanos as int), JST_OFFSET_SECONDS as int),
        r matches Ok(t) ==> t.instant() == jst_instant(local_nanos as int) && t.offset()
            == JST_OFFSET_SECONDS,
{
    match Timestamp::from_parts(local_nanos - 32_400 * NANOS_PER_SECOND, JST_OFFSET_SECONDS) {
        Some(t) => Ok(t),
        None => Err("日時を構築できません".to_string()),
    }
}

/// The JST wall-clock reading `date hour:minute:00`, in nanoseconds.
pub open spec fn jst_local_nanos(date: Date, hour: int, minute: int) -> int {
    ((date.day_number() * 86_400 + hour * 3600 + minute * 60) * NANOS_PER_SECOND)
}

/// `date hour:minute:00` in JST (`with_ymd_and_hms(..).single()`), refused
/// for an hour above 23, a minute above 59, or outside chrono's range.
pub fn to_jst_datetime(date: Date, hour: u32, minute: u32) -> (r: Result<Timestamp, String>)
    ensures
        r is Ok <==> hour < 24 && minute < 60 && valid_moment(
            jst_instant(jst_local_nanos(date, hour as int, minute as int)),
            JST_OFFSET_SECONDS as int,
        ),
        r matches Ok(t) ==> t.instant() == jst_instant(
            jst_local_nanos(date, hour as int, minute as int),
        ) && t.offset() == JST_OFFSET_SECONDS,
{
    if hour >= 24 || minute >= 60 {
        return Err("日時を構築できません".to_string());
    }
    let day = date.day_number_exec();
    let secs: i128 = day as i128 * 86_400 + hour as i128 * 3600 + minute as i128 * 60;
    jst_from_naive(secs * NANOS_PER_SECOND)
}

/// `t` is midnight of some date, shown in JST.
pub open spec fn is_jst_midnight(t: Timestamp) -> bool {
    &&& t.offset() == JST_OFFSET_SECONDS
    &&& exists|d: Date| t.instant() == jst_instant(#[trigger] jst_local_nanos(d, 0, 0))
}

/// Midnight today in JST. Today is never before 1970-01-01, so its
/// midnight lies in chrono's range; refused only where there is no today
/// (see `current_jst_date`).
pub fn current_jst_midnight() -> (r: Result<Timestamp, String>)
    ensures
        r matches Ok(t) ==> is_jst_midnight(t) && t.instant() >= jst_instant(0),
        r matches Err(m) ==> m@ == now_unavailable_message(),
{
    let today = match current_jst_date() {
        Some(d) => d,
        None => return Err("現在日時を JST で表せません".to_string()),
    };
    proof {
        let d = today.day_number();
        let n = jst_instant(jst_local_nanos(today, 0, 0));
        assert(n == (d * 86_400 - 32_400) * 1_000_000_000);
        assert(seconds_of(n) == d * 86_400 - 32_400) by (nonlinear_arith)
            requires
                n == (d * 86_400 - 32_400) * 1_000_000_000,
                seconds_of(n) == n / 1_000_000_000,
        ;
        assert((d * 86_400 - 32_400) / 86_400 == d - 1) by (nonlinear_arith);
        assert((d * 86_400 - 32_400 + 32_400) / 86_400 == d) by (nonlinear_arith);
        assert(n >= jst_instant(0)) by (nonlinear_arith)
            requires
                n == (d * 86_400 - 32_400) * 1_000_000_000,
                d >= 0,
        ;
    }
    let r = to_jst_datetime(today, 0, 0);
    proof {
        assert(r->Ok_0.instant() == jst_instant(jst_local_nanos(today, 0, 0)));
    }
    r
}

/// The refusal when the clock's reading cannot be shown in JST.
pub open spec fn now_unavailable_message() -> Seq<char> {
    "現在日時を JST で表せません"@
}

/// The day after `date`, refused at the end of chrono's range.
pub fn next_date(date: Date) -> (r: Result<Date, String>)
    ensures
        r is Ok <==> day_in_range(date.day_number() + 1),
        r matches Ok(d) ==> d.day_number() == date.day_number() + 1,
{
    match date.checked_add_days(1) {
        Some(d) => Ok(d),
        None => Err("翌日を計算できません".to_string()),
    }
}

/// An RFC 3339 timestamp, with the reason when it is not one.
pub fn parse_timestamp(input: &str) -> (r: Result<Timestamp, String>)
    ensures
        forall|y: int, mo: int, d: int, h: int, mi: int, sec: int|
            #![trigger naive_wall_text(y, mo, d, h, mi, sec)]
            canonical_rfc3339(y, mo, d, h, mi, sec, 0) && input@ == naive_wall_text(y, mo, d, h, mi, sec)
                ==> r is Err,
        r is Ok <==> (rfc3339_moment(input@) matches Some(m) && valid_moment(m.0, m.1)),
        r matches Ok(t) ==> rfc3339_moment(input@) == Some((t.instant(), t.offset())),
        forall|y: int, mo: int, d: int, h: int, mi: int, sec: int, off: int|
            #![trigger rfc3339_digits(y, mo, d, h, mi, sec, off)]
            canonical_rfc3339(y, mo, d, h, mi, sec, off) && input@ == rfc3339_digits(y, mo, d, h, mi, sec, off)
                ==> (r matches Ok(t) && t.instant() == canonical_seconds(y, mo, d, h, mi, sec, off)
                * NANOS_PER_SECOND && t.offset() == off),
{
    match parse_rfc3339(input) {
        Ok(t) => Ok(t),
        Err(e) => {
            let mut m = chars_of("RFC3339 形式の日時で指定してください: ");
            push_str(&mut m, e.as_str());
            Err(string_of(m.as_slice()))
        },
    }
}

// ---------------------------------------------------------------------
// Times of day
// ---------------------------------------------------------------------
/// `H` or `H:M` with an hour up to 23 and a minute up to 59.
pub open spec fn time_of_day_spec(input: Seq<char>) -> Option<(u32, u32)> {
    let n = trim(input);
    match split_once(n, ':') {
        Some(p) => match (parse_u32_spec(p.0), parse_u32_spec(p.1)) {
            (Some(h), Some(m)) => if h <= 23 && m <= 59 {
                Some((h, m))
            } else {
                None
            },
            _ => None,
        },
        None => match parse_u32_spec(n) {
            Some(h) => if h <= 23 {
                Some((h, 0u32))
            } else {
                None
            },
            None => None,
        },
    }
}

/// The message for a time of day in the `H` form that is no number.
pub open spec fn time_format_message(input: Seq<char>) -> Seq<char> {
    "時刻は 9 または 9:30 のように指定してください: "@ + input
}

/// The message for any other time of day that cannot be read.
pub open spec fn time_unreadable_message(input: Seq<char>) -> Seq<char> {
    "時刻を解釈できません: "@ + input
}

fn message_with(prefix: &str, input: &str) -> (r: String)
    ensures
        r@ == prefix@ + input@,
{
    let mut m = chars_of(prefix);
    push_str(&mut m, input);
    string_of(m.as_slice())
}

/// Reads `9`, `9:30` or ` 17:05 ` as an hour and a minute.
pub fn parse_time_of_day(input: &str) -> (r: Result<(u32, u32), String>)
    ensures
        match r {
            Ok(v) => time_of_day_spec(input@) == Some(v),
            Err(m) => time_of_day_spec(input@) is None && (if split_once(trim(input@), ':') is None
                && parse_u32_spec(trim(input@)) is None {
                m@ == time_format_message(input@)
            } else {
                m@ == time_unreadable_message(input@)
            }),
        },
{
    let normalized = trim_str(input);
    match split_once_chars(normalized.as_slice(), ':') {
        Some((h, m)) => {
            let hour = match parse_u32(h.as_slice()) {
                Some(v) => v,
                None => return Err(message_with("時刻を解釈できません: ", input)),
            };
            let minute = match parse_u32(m.as_slice()) {
                Some(v) => v,
                None => return Err(message_with("時刻を解釈できません: ", input)),
            };
            if hour > 23 || minute > 59 {
                return Err(message_with("時刻を解釈できません: ", input));
            }
            Ok((hour, minute))
        },
        None => {
            let hour = match parse_u32(normalized.as_slice()) {
                Some(v) => v,
                None => return Err(message_with("時刻は 9 または 9:30 のように指定してください: ", input)),
            };
            if hour > 23 {
                return Err(message_with("時刻を解釈できません: ", input));
            }
            Ok((hour, 0))
        },
    }
}

// ---------------------------------------------------------------------
// Durations
// ---------------------------------------------------------------------
/// The length of the run of digits at the start of `s`.
pub open spec fn digit_run(s: Seq<char>) -> nat
    decreases s.len(),
{
    if s.len() > 0 && is_digit(s[0]) {
        1 + digit_run(s.drop_first())
    } else {
        0
    }
}

/// Nanoseconds in one unit of a duration term.
pub open spec fn unit_nanos(unit: char) -> int {
    if unit == 'm' {
        60_000_000_000
    } else if unit == 'h' {
        3_600_000_000_000
    } else {
        86_400_000_000_000
    }
}

/// The outcome of reading duration terms `<digits><m|h|d>` one after
/// another onto `acc`: `Some(Some(total))` when all are well formed,
/// `Some(None)` at the first malformed term, and `None` where chrono would
/// panic because a term or the running total leaves `TimeDelta`'s bound.
pub open spec fn duration_scan(s: Seq<char>, acc: int) -> Option<Option<int>>
    decreases s.len(),
{
    if s.len() == 0 {
        Some(Some(acc))
    } else {
        let k = digit_run(s);
        if k == 0 || k >= s.len() {
            Some(None)
        } else {
            let amount = digits_value(s.take(k as int));
            let unit = s[k as int];
            if amount > i64::MAX {
                Some(None)
            } else if unit != 'm' && unit != 'h' && unit != 'd' {
                Some(None)
            } else if !delta_in_range(amount * unit_nanos(unit)) {
                None
            } else if !delta_in_range(acc + amount * unit_nanos(unit)) {
                None
            } else {
                duration_scan(s.skip(k as int + 1), acc + amount * unit_nanos(unit))
            }
        }
    }
}

/// The text a duration is read from.
pub open spec fn duration_text(input: Seq<char>) -> Seq<char> {
    lower(trim(input))
}

/// A duration text on which chrono's arithmetic stays in bounds.
pub open spec fn duration_in_bounds(input: Seq<char>) -> bool {
    duration_scan(duration_text(input), 0) is Some
}

/// The duration a text denotes: one or more terms such as `30m`, `2h`,
/// `7d`, summed, and positive.
pub open spec fn duration_spec(input: Seq<char>) -> Option<int> {
    let v = duration_text(input);
    if v.len() == 0 {
        None
    } else {
        match duration_scan(v, 0) {
            Some(Some(total)) => if total > 0 {
                Some(total)
            } else {
                None
            },
            _ => None,
        }
    }
}

proof fn lemma_digit_run(s: Seq<char>, k: int)
    requires
        0 <= k <= s.len(),
        forall|j: int| 0 <= j < k ==> is_digit(#[trigger] s[j]),
        k == s.len() || !is_digit(s[k]),
    ensures
        digit_run(s) == k,
    decreases k,
{
    if k > 0 {
        assert forall|j: int| 0 <= j < k - 1 implies is_digit(#[trigger] s.drop_first()[j]) by {
            assert(s.drop_first()[j] == s[j + 1]);
        }
        if k < s.len() {
            assert(s.drop_first()[k - 1] == s[k]);
        }
        lemma_digit_run(s.drop_first(), k - 1);
    }
}

/// Reads `30m`, `2h`, `2h30m`, `7d` and the like as a positive duration.
pub fn parse_duration(input: &str) -> (r: Result<TimeDelta, String>)
    requires
        duration_in_bounds(input@),
    ensures
        match r {
            Ok(d) => duration_spec(input@) == Some(d.nanos()),
            Err(m) => duration_spec(input@) is None && (duration_text(input@).len() == 0 ==> m@
                == "期間が空です"@),
        },
{
    let trimmed = trim_str(input);
    let value = lower_chars(trimmed.as_slice());
    if value.len() == 0 {
        return Err("期間が空です".to_string());
    }
    let mut total = TimeDelta::zero();
    let mut cursor: usize = 0;
    assert(value@.skip(0) =~= value@);
    while cursor < value.len()
        invariant
            cursor <= value.len(),
            value@ == duration_text(input@),
            duration_scan(value@, 0) == duration_scan(value@.skip(cursor as int), total.nanos()),
            duration_scan(value@.skip(cursor as int), total.nanos()) is Some,
        decreases value.len() - cursor,
    {
        let ghost rest = value@.skip(cursor as int);
        let start = cursor;
        while cursor < value.len() && is_digit_char(value[cursor])
            invariant
                start <= cursor <= value.len(),
                forall|j: int| start <= j < cursor ==> is_digit(#[trigger] value@[j]),
            decreases value.len() - cursor,
        {
            cursor = cursor + 1;
        }
        proof {
            assert forall|j: int| 0 <= j < cursor - start implies is_digit(#[trigger] rest[j]) by {
                assert(rest[j] == value@[start + j]);
            }
            if cursor < value.len() {
                assert(rest[cursor - start] == value@[cursor as int]);
            }
            lemma_digit_run(rest, cursor - start);
        }
        if start == cursor || cursor >= value.len() {
            return Err(message_with("期間は 30m / 2h / 2h30m / 7d のように指定してください: ", input));
        }
        let digits = slice_chars(value.as_slice(), start, cursor);
        proof {
            assert(digits@ =~= rest.take(cursor - start));
            assert forall|j: int| 0 <= j < digits@.len() implies is_digit(#[trigger] digits@[j]) by {
                assert(digits@[j] == value@[start + j]);
            }
        }
        let amount = match digits_value_bounded(digits.as_slice(), 0x7fff_ffff_ffff_ffff) {
            Some(v) => v as i64,
            None => return Err(message_with("期間を解釈できません: ", input)),
        };
        let unit = value[cursor];
        assert(unit == rest[cursor - start]);
        cursor = cursor + 1;
        let delta = if unit == 'm' {
            TimeDelta::try_minutes(amount)
        } else if unit == 'h' {
            TimeDelta::try_hours(amount)
        } else if unit == 'd' {
            TimeDelta::try_days(amount)
        } else {
            return Err(message_with("期間を解釈できません: ", input));
        };
        let delta = delta.unwrap();
        total = total.checked_add(&delta).unwrap();
        proof {
            assert(rest.skip((cursor - start) as int) =~= value@.skip(cursor as int));
        }
    }
    proof {
        assert(value@.skip(cursor as int).len() == 0);
    }
    if total.as_nanos() <= 0 {
        return Err("期間は 0 より大きい必要があります".to_string());
    }
    Ok(total)
}

// ---------------------------------------------------------------------
// Dates
// ---------------------------------------------------------------------
/// The text a flexible date is read from.
pub open spec fn date_text(input: Seq<char>) -> Seq<char> {
    lower(trim(input))
}

/// A relative date `+Nd`, `-Nd`, `+Nw` or `-Nw` starts with a sign; reading
/// one slices the text by bytes, which needs at least two characters and a
/// one-byte last character.
pub open spec fn relative_date_sliceable(s: Seq<char>) -> bool {
    (s.len() > 0 && (s[0] == '+' || s[0] == '-')) ==> (s.len() >= 2 && (s.last() as int) < 0x80)
}

/// The outcome of reading a relative date: `Err(())` for an error,
/// `Ok(None)` when the text is no relative date, else the day number.
pub open spec fn relative_date_spec(s: Seq<char>, anchor: int) -> Result<Option<int>, ()> {
    if !(s.len() > 0 && (s[0] == '+' || s[0] == '-')) {
        Ok(None)
    } else {
        match parse_u64_spec(s.subrange(1, s.len() - 1)) {
            None => Err(()),
            Some(magnitude) => {
                let unit = s.last();
                if unit != 'd' && unit != 'w' {
                    Ok(None)
                } else if unit == 'w' && magnitude * 7 > u64::MAX {
                    Err(())
                } else {
                    let days = if unit == 'w' {
                        magnitude * 7
                    } else {
                        magnitude as int
                    };
                    let target = if s[0] == '+' {
                        anchor + days
                    } else {
                        anchor - days
                    };
                    if day_in_range(target) {
                        Ok(Some(target))
                    } else {
                        Err(())
                    }
                }
            },
        }
    }
}

/// Reads a relative date such as `+3d` or `-1w` from `anchor`.
pub fn parse_relative_date(input: &[char], anchor: Date) -> (r: Result<Option<Date>, String>)
    requires
        relative_date_sliceable(input@),
    ensures
        match r {
            Ok(Some(d)) => relative_date_spec(input@, anchor.day_number()) == Ok::<
                Option<int>,
                (),
            >(Some(d.day_number())),
            Ok(None) => relative_date_spec(input@, anchor.day_number()) == Ok::<Option<int>, ()>(
                None,
            ),
            Err(_) => relative_date_spec(input@, anchor.day_number()) is Err,
        },
{
    if !(input.len() > 0 && (input[0] == '+' || input[0] == '-')) {
        return Ok(None);
    }
    let sign = input[0];
    let unit = input[input.len() - 1];
    let text = string_of(input);
    let middle = slice_chars(input, 1, input.len() - 1);
    let magnitude = match parse_u64(middle.as_slice()) {
        Some(v) => v,
        None => return Err(message_with("相対日付を解釈できません: ", text.as_str())),
    };
    let days = if unit == 'd' {
        magnitude
    } else if unit == 'w' {
        if magnitude > 0x2492_4924_9249_2492 {
            return Err(message_with("相対日付が大きすぎます: ", text.as_str()));
        }
        magnitude * 7
    } else {
        return Ok(None);
    };
    let date = if sign == '+' {
        anchor.checked_add_days(days)
    } else {
        anchor.checked_sub_days(days)
    };
    match date {
        Some(d) => Ok(Some(d)),
        None => Err(message_with("相対日付を計算できません: ", text.as_str())),
    }
}

/// `format!("{year}/{input}")`.
pub open spec fn month_day_text(s: Seq<char>, year: int) -> Seq<char> {
    padded_signed(year, 0) + seq!['/'] + s
}

/// The date a flexible text denotes, as a day number.
pub open spec fn flexible_date_spec(input: Seq<char>, anchor: Date) -> Option<int> {
    let n = date_text(input);
    let a = anchor.day_number();
    if n == "today"@ {
        Some(a)
    } else if n == "tomorrow"@ {
        if day_in_range(a + 1) {
            Some(a + 1)
        } else {
            None
        }
    } else if n == "yesterday"@ {
        if day_in_range(a - 1) {
            Some(a - 1)
        } else {
            None
        }
    } else {
        match relative_date_spec(n, a) {
            Err(_) => None,
            Ok(Some(d)) => Some(d),
            Ok(None) => match naive_date_day(n, "%Y-%m-%d"@) {
                Some(d) => Some(d),
                None => match naive_date_day(n, "%Y/%m/%d"@) {
                    Some(d) => Some(d),
                    None => naive_date_day(
                        month_day_text(n, anchor.year()),
                        "%Y/%m/%d"@,
                    ),
                },
            },
        }
    }
}

/// The day words count from the anchor, whatever their case and the
/// spaces around them: `today` is the anchor, `tomorrow` the day after it
/// and `yesterday` the day before it, where chrono represents that day.
pub proof fn law_day_words_count_from_anchor(input: Seq<char>, anchor: Date)
    ensures
        date_text(input) == "today"@ ==> flexible_date_spec(input, anchor) == Some(
            anchor.day_number(),
        ),
        date_text(input) == "tomorrow"@ && day_in_range(anchor.day_number() + 1)
            ==> flexible_date_spec(input, anchor) == Some(anchor.day_number() + 1),
        date_text(input) == "yesterday"@ && day_in_range(anchor.day_number() - 1)
            ==> flexible_date_spec(input, anchor) == Some(anchor.day_number() - 1),
{
    reveal_strlit("today");
    reveal_strlit("tomorrow");
    reveal_strlit("yesterday");
    assert("today"@[2] != "tomorrow"@[2]);
    assert("today"@[0] != "yesterday"@[0]);
    assert("tomorrow"@[0] != "yesterday"@[0]);
}

/// Read from the same anchor, `yesterday`, `today` and `tomorrow` are three
/// consecutive days.
pub proof fn law_day_words_are_consecutive(anchor: Date)
    requires
        day_in_range(anchor.day_number() - 1),
        day_in_range(anchor.day_number() + 1),
    ensures
        flexible_date_spec("yesterday"@, anchor) matches Some(y) && flexible_date_spec(
            "today"@,
            anchor,
        ) matches Some(t) && flexible_date_spec("tomorrow"@, anchor) matches Some(m) && y + 1
            == t && t + 1 == m && t == anchor.day_number(),
{
    reveal_strlit("today");
    reveal_strlit("tomorrow");
    reveal_strlit("yesterday");
    assert(date_text("today"@) =~= "today"@);
    assert(date_text("tomorrow"@) =~= "tomorrow"@);
    assert(date_text("yesterday"@) =~= "yesterday"@);
    law_day_words_count_from_anchor("today"@, anchor);
    law_day_words_count_from_anchor("tomorrow"@, anchor);
    law_day_words_count_from_anchor("yesterday"@, anchor);
}

/// The flexible date text meets the byte-slicing constraint of relative dates.
pub open spec fn flexible_date_sliceable(input: Seq<char>) -> bool {
    relative_date_sliceable(date_text(input))
}

/// Reads `today`, `tomorrow`, `yesterday`, `+3d`, `-1w`, `2026-03-10`,
/// `2026/03/10` or `3/10` (in the anchor's year), relative to `anchor`.
pub fn parse_flexible_date(input: &str, anchor: Date) -> (r: Result<Date, String>)
    requires
        flexible_date_sliceable(input@),
    ensures
        match r {
            Ok(d) => flexible_date_spec(input@, anchor) == Some(d.day_number()),
            Err(_) => flexible_date_spec(input@, anchor) is None,
        },
{
    let trimmed = trim_str(input);
    let normalized = lower_chars(trimmed.as_slice());
    let text = string_of(normalized.as_slice());
    let t = text.as_str();
    if crate::text::str_eq(t, "today") {
        return Ok(anchor);
    }
    if crate::text::str_eq(t, "tomorrow") {
        return next_date(anchor);
    }
    if crate::text::str_eq(t, "yesterday") {
        return match anchor.checked_sub_days(1) {
            Some(d) => Ok(d),
            None => Err("日付を計算できません".to_string()),
        };
    }
    match parse_relative_date(normalized.as_slice(), anchor) {
        Err(e) => return Err(e),
        Ok(Some(d)) => return Ok(d),
        Ok(None) => {},
    }
    if let Some(d) = parse_naive_date(t, "%Y-%m-%d") {
        return Ok(d);
    }
    if let Some(d) = parse_naive_date(t, "%Y/%m/%d") {
        return Ok(d);
    }
    let (year, _, _) = anchor.ymd_fields();
    let mut md = padded_signed_chars_of(year);
    md.push('/');
    push_all(&mut md, normalized.as_slice());
    let md_text = string_of(md.as_slice());
    assert(md_text@ =~= month_day_text(normalized@, anchor.year()));
    if let Some(d) = parse_naive_date(md_text.as_str(), "%Y/%m/%d") {
        return Ok(d);
    }
    Err(
        message_with(
            "日付は today/tomorrow/yesterday/+3d/3/10/2026-03-10 のいずれかで指定してください: ",
            input,
        ),
    )
}

fn padded_signed_chars_of(year: i32) -> (r: Vec<char>)
    ensures
        r@ == padded_signed(year as int, 0),
{
    crate::text::padded_signed_chars(year as i64, 0)
}

/// The text is an RFC 3339 timestamp within chrono's range.
pub open spec fn rfc3339_valid(input: Seq<char>) -> bool {
    rfc3339_moment(input) matches Some(m) && valid_moment(m.0, m.1)
}

/// The instant a flexible date-time text denotes: an RFC 3339 timestamp,
/// else the JST midnight of a flexible date.
pub open spec fn flexible_datetime_spec(input: Seq<char>, anchor: Date) -> Option<int> {
    if rfc3339_valid(input) {
        Some((rfc3339_moment(input)->0).0)
    } else {
        match flexible_date_spec(input, anchor) {
            Some(d) => if valid_moment(
                jst_instant(d * 86_400 * NANOS_PER_SECOND),
                JST_OFFSET_SECONDS as int,
            ) {
                Some(jst_instant(d * 86_400 * NANOS_PER_SECOND))
            } else {
                None
            },
            None => None,
        }
    }
}

/// The offset a flexible date-time is shown in: the RFC 3339 timestamp's
/// own, else JST.
pub open spec fn flexible_offset(input: Seq<char>) -> int {
    if rfc3339_valid(input) {
        (rfc3339_moment(input)->0).1
    } else {
        JST_OFFSET_SECONDS as int
    }
}

/// A flexible date at midnight JST, or an RFC 3339 timestamp.
pub fn parse_flexible_datetime(input: &str, anchor: Date) -> (r: Result<Timestamp, String>)
    requires
        flexible_date_sliceable(input@),
    ensures
        match r {
            Ok(t) => flexible_datetime_spec(input@, anchor) == Some(t.instant()) && t.offset()
                == flexible_offset(input@),
            Err(_) => flexible_datetime_spec(input@, anchor) is None,
        },
{
    match parse_rfc3339(input) {
        Ok(t) => Ok(t),
        Err(_) => {
            let date = match parse_flexible_date(input, anchor) {
                Ok(d) => d,
                Err(e) => return Err(e),
            };
            to_jst_datetime(date, 0, 0)
        },
    }
}

/// The abbreviated English name of a weekday.
pub fn weekday_abbr(weekday: Weekday) -> (r: &'static str)
    ensures
        r@ == weekday_abbr_spec(weekday),
{
    match weekday {
        Weekday::Mon => "Mon",
        Weekday::Tue => "Tue",
        Weekday::Wed => "Wed",
        Weekday::Thu => "Thu",
        Weekday::Fri => "Fri",
        Weekday::Sat => "Sat",
        Weekday::Sun => "Sun",
    }
}

pub open spec fn weekday_abbr_spec(weekday: Weekday) -> Seq<char> {
    match weekday {
        Weekday::Mon => "Mon"@,
        Weekday::Tue => "Tue"@,
        Weekday::Wed => "Wed"@,
        Weekday::Thu => "Thu"@,
        Weekday::Fri => "Fri"@,
        Weekday::Sat => "Sat"@,
        Weekday::Sun => "Sun"@,
    }
}

} // verus!

verus! {

// ---------------------------------------------------------------------
// Prompt-specific normalizations
// ---------------------------------------------------------------------
/// The number of UTF-8 bytes that encode a character.
pub open spec fn char_width(c: char) -> int {
    if (c as int) < 0x80 {
        1
    } else if (c as int) < 0x800 {
        2
    } else if (c as int) < 0x10000 {
        3
    } else {
        4
    }
}

/// The number of UTF-8 bytes that encode a sequence (`str::len`).
pub open spec fn byte_len(s: Seq<char>) -> int
    decreases s.len(),
{
    if s.len() == 0 {
        0
    } else {
        char_width(s[0]) + byte_len(s.drop_first())
    }
}

/// Stripping an offset slices off the last six bytes; that needs a
/// character boundary there when the text has six bytes or more.
pub open spec fn offset_sliceable(s: Seq<char>) -> bool {
    byte_len(s) < 6 || exists|k: int| 0 <= k <= s.len() && #[trigger] byte_len(s.skip(k)) == 6
}

/// The text ends with a UTC offset `+HH:MM` or `-HH:MM`.
pub open spec fn has_offset_suffix(s: Seq<char>) -> bool {
    s.len() >= 6 && {
        let t = s.skip(s.len() - 6);
        &&& (t[0] == '+' || t[0] == '-')
        &&& is_digit(t[1])
        &&& is_digit(t[2])
        &&& t[3] == ':'
        &&& is_digit(t[4])
        &&& is_digit(t[5])
    }
}

/// The text without a trailing UTC offset.
pub open spec fn strip_offset_spec(s: Seq<char>) -> Seq<char> {
    if has_offset_suffix(s) {
        s.take(s.len() - 6)
    } else {
        s
    }
}

/// Removes a trailing `+HH:MM` or `-HH:MM`.
pub fn strip_trailing_timezone_offset(input: &str) -> (r: &str)
    requires
        offset_sliceable(input@),
    ensures
        r@ == strip_offset_spec(input@),
{
    let v = chars_of(input);
    let n = v.len();
    if n < 6 {
        return input;
    }
    let is_offset = (v[n - 6] == '+' || v[n - 6] == '-') && is_digit_char(v[n - 5])
        && is_digit_char(v[n - 4]) && v[n - 3] == ':' && is_digit_char(v[n - 2])
        && is_digit_char(v[n - 1]);
    proof {
        let t = input@.skip(n - 6);
        assert(t[0] == v@[n - 6]);
        assert(t[1] == v@[n - 5]);
        assert(t[2] == v@[n - 4]);
        assert(t[3] == v@[n - 3]);
        assert(t[4] == v@[n - 2]);
        assert(t[5] == v@[n - 1]);
    }
    if is_offset {
        let r = input.substring_char(0, n - 6);
        assert(r@ =~= input@.take(n - 6));
        r
    } else {
        input
    }
}

/// The text without one trailing `z` or, failing that, one trailing `Z`.
pub open spec fn strip_zulu(s: Seq<char>) -> Seq<char> {
    if s.len() > 0 && s.last() == 'z' {
        s.drop_last()
    } else if s.len() > 0 && s.last() == 'Z' {
        s.drop_last()
    } else {
        s
    }
}

/// The Japanese hour and minute words of a time replaced by colons.
pub open spec fn prompt_time_words(input: Seq<char>) -> Seq<char> {
    let a = replace_all(trim(input), "時半"@, ":30"@);
    let b = replace_all(a, "時"@, ":"@);
    let c = replace_all(b, "分"@, ""@);
    replace_all(c, "："@, ":"@)
}

/// The text `normalize_prompt_time` strips a UTC offset from.
pub open spec fn prompt_time_unzoned(input: Seq<char>) -> Seq<char> {
    strip_zulu(prompt_time_words(input))
}

/// The prompt time meets the byte-slicing constraint of offset stripping.
pub open spec fn prompt_time_sliceable(input: Seq<char>) -> bool {
    offset_sliceable(prompt_time_unzoned(input))
}

/// A time as a prompt writes it, as `H:M`: Japanese hour words replaced,
/// a trailing `Z` or offset dropped, seconds dropped, a trailing colon dropped.
pub open spec fn normalize_prompt_time_spec(input: Seq<char>) -> Seq<char> {
    let s = strip_offset_spec(prompt_time_unzoned(input));
    let parts = split_on(s, ':');
    let t = if parts.len() >= 3 {
        parts[0] + seq![':'] + parts[1]
    } else {
        s
    };
    if t.len() > 0 && t.last() == ':' {
        t.drop_last()
    } else {
        t
    }
}

/// `17時半` → `17:30`, `17:30:00+09:00` → `17:30`, `9時` → `9`.
pub fn normalize_prompt_time(input: &str) -> (r: String)
    requires
        prompt_time_sliceable(input@),
    ensures
        r@ == normalize_prompt_time_spec(input@),
{
    proof {
        reveal_strlit("時半");
        reveal_strlit("時");
        reveal_strlit("分");
        reveal_strlit("：");
    }
    let t = trim_str(input);
    let a = replace_str(t.as_slice(), "時半", ":30");
    let b = replace_str(a.as_slice(), "時", ":");
    let c = replace_str(b.as_slice(), "分", "");
    let mut d = replace_str(c.as_slice(), "：", ":");
    let n = d.len();
    if n > 0 && (d[n - 1] == 'z' || d[n - 1] == 'Z') {
        d.pop();
        proof {
            assert(d@ =~= prompt_time_unzoned(input@));
        }
    }
    assert(d@ == prompt_time_unzoned(input@));
    let unzoned = string_of(d.as_slice());
    let stripped = strip_trailing_timezone_offset(unzoned.as_str());
    let s = chars_of(stripped);
    let parts = split_chars(s.as_slice(), ':');
    let mut out = if parts.len() >= 3 {
        let mut o = crate::text::copy_chars(&parts[0]);
        o.push(':');
        push_all(&mut o, parts[1].as_slice());
        proof {
            assert(views(parts@)[0] == parts@[0]@);
            assert(views(parts@)[1] == parts@[1]@);
        }
        o
    } else {
        s
    };
    let m = out.len();
    if m > 0 && out[m - 1] == ':' {
        out.pop();
    }
    string_of(out.as_slice())
}

/// A duration as a prompt writes it, with Japanese units replaced.
pub open spec fn normalize_prompt_duration_spec(input: Seq<char>) -> Seq<char> {
    let a = replace_all(trim(input), "時間"@, "h"@);
    let b = replace_all(a, "時"@, "h"@);
    let c = replace_all(b, "分"@, "m"@);
    let d = replace_all(c, "日"@, "d"@);
    let e = replace_all(d, "＋"@, "+"@);
    replace_all(e, "　"@, ""@)
}

/// `3時間30分` → `3h30m`.
pub fn normalize_prompt_duration(input: &str) -> (r: String)
    ensures
        r@ == normalize_prompt_duration_spec(input@),
{
    proof {
        reveal_strlit("時間");
        reveal_strlit("時");
        reveal_strlit("分");
        reveal_strlit("日");
        reveal_strlit("＋");
        reveal_strlit("　");
    }
    let t = trim_str(input);
    let a = replace_str(t.as_slice(), "時間", "h");
    let b = replace_str(a.as_slice(), "時", "h");
    let c = replace_str(b.as_slice(), "分", "m");
    let d = replace_str(c.as_slice(), "日", "d");
    let e = replace_str(d.as_slice(), "＋", "+");
    let f = replace_str(e.as_slice(), "　", "");
    string_of(f.as_slice())
}

} // verus!

verus! {

/// The wall-clock formats a prompt timestamp may take, in the order tried.
pub open spec fn prompt_format(k: int) -> Seq<char> {
    if k == 0 {
        "%Y-%m-%dT%H:%M:%S"@
    } else if k == 1 {
        "%Y-%m-%dT%H:%M"@
    } else if k == 2 {
        "%Y-%m-%d %H:%M:%S"@
    } else if k == 3 {
        "%Y-%m-%d %H:%M"@
    } else if k == 4 {
        "%Y/%m/%d %H:%M:%S"@
    } else {
        "%Y/%m/%d %H:%M"@
    }
}

fn prompt_format_exec(k: usize) -> (r: &'static str)
    requires
        k < 6,
    ensures
        r@ == prompt_format(k as int),
{
    if k == 0 {
        "%Y-%m-%dT%H:%M:%S"
    } else if k == 1 {
        "%Y-%m-%dT%H:%M"
    } else if k == 2 {
        "%Y-%m-%d %H:%M:%S"
    } else if k == 3 {
        "%Y-%m-%d %H:%M"
    } else if k == 4 {
        "%Y/%m/%d %H:%M:%S"
    } else {
        "%Y/%m/%d %H:%M"
    }
}

/// The text reads as a wall-clock time in chrono's range under format `k`.
pub open spec fn reads_under(n: Seq<char>, k: int) -> bool {
    naive_moment(n, prompt_format(k)) matches Some(x) && day_in_range(seconds_of_nanos(x) / 86_400)
}

pub open spec fn seconds_of_nanos(x: int) -> int {
    crate::time::seconds_of(x)
}

/// The first format, from `k` on, under which the text reads.
pub open spec fn first_format_from(n: Seq<char>, k: int) -> Option<int>
    decreases 6 - k,
{
    if k >= 6 || k < 0 {
        None
    } else if reads_under(n, k) {
        Some(k)
    } else {
        first_format_from(n, k + 1)
    }
}

/// The text a prompt timestamp is read from after the RFC 3339 attempt.
pub open spec fn prompt_timestamp_text(input: Seq<char>) -> Seq<char> {
    replace_all(trim(input), "　"@, " "@)
}

/// A JST instant when chrono represents it.
pub open spec fn jst_checked(local_nanos: int) -> Option<int> {
    if valid_moment(jst_instant(local_nanos), JST_OFFSET_SECONDS as int) {
        Some(jst_instant(local_nanos))
    } else {
        None
    }
}

/// The instant a prompt's timestamp denotes: RFC 3339; else a JST wall
/// clock in one of six formats; else a flexible date at JST midnight; else,
/// with a context date, a time of day on that date.
pub open spec fn prompt_timestamp_spec(input: Seq<char>, anchor: Date, context: Option<Seq<char>>) -> Option<int> {
    if rfc3339_valid(input) {
        Some((rfc3339_moment(input)->0).0)
    } else {
        let n = prompt_timestamp_text(input);
        match first_format_from(n, 0) {
            Some(k) => jst_checked(naive_moment(n, prompt_format(k))->0),
            None => match flexible_date_spec(n, anchor) {
                Some(d) => jst_checked(d * 86_400 * NANOS_PER_SECOND),
                None => match context {
                    Some(c) => match flexible_date_spec(c, anchor) {
                        Some(d) => match time_of_day_spec(normalize_prompt_time_spec(n)) {
                            Some(hm) => if valid_moment(
                                jst_instant((d * 86_400 + hm.0 * 3600 + hm.1 * 60) * NANOS_PER_SECOND),
                                JST_OFFSET_SECONDS as int,
                            ) {
                                Some(jst_instant((d * 86_400 + hm.0 * 3600 + hm.1 * 60) * NANOS_PER_SECOND))
                            } else {
                                None
                            },
                            None => None,
                        },
                        None => None,
                    },
                    None => None,
                },
            },
        }
    }
}

/// The offset a prompt's timestamp is shown in: an RFC 3339 text's own,
/// else Japan Standard Time.
pub open spec fn prompt_timestamp_offset(input: Seq<char>) -> int {
    if rfc3339_valid(input) {
        (rfc3339_moment(input)->0).1
    } else {
        JST_OFFSET_SECONDS as int
    }
}

/// No character of the text is whitespace.
pub open spec fn no_ws(s: Seq<char>) -> bool {
    forall|i: int| 0 <= i < s.len() ==> !is_ws(#[trigger] s[i])
}

proof fn lemma_no_ws_concat(a: Seq<char>, b: Seq<char>)
    requires
        no_ws(a),
        no_ws(b),
    ensures
        no_ws(a + b),
{
    assert forall|i: int| 0 <= i < (a + b).len() implies !is_ws(#[trigger] (a + b)[i]) by {
        if i < a.len() {
            assert((a + b)[i] == a[i]);
        } else {
            assert((a + b)[i] == b[i - a.len()]);
        }
    }
}

proof fn lemma_dec_no_ws(n: nat)
    ensures
        no_ws(dec(n)),
    decreases n,
{
    let c = digit_char((n % 10) as int);
    assert(!is_ws(c));
    if n >= 10 {
        lemma_dec_no_ws(n / 10);
        lemma_no_ws_concat(dec(n / 10), seq![c]);
    } else {
        assert(dec(n) == seq![digit_char(n as int)]);
    }
}

proof fn lemma_padded_no_ws(n: nat, w: nat)
    ensures
        no_ws(padded(n, w)),
        padded(n, w).len() > 0,
{
    lemma_dec_no_ws(n);
    crate::text::lemma_dec_len(n);
    if dec(n).len() < w {
        let zeros = Seq::new((w - dec(n).len()) as nat, |i: int| '0');
        assert(no_ws(zeros));
        lemma_no_ws_concat(zeros, dec(n));
    }
}

/// A canonical wall-clock text has no whitespace, so trimming it and
/// replacing ideographic spaces in it leave it as it is.
proof fn lemma_wall_text_read_as_is(y: int, mo: int, d: int, h: int, mi: int, sec: int)
    requires
        canonical_rfc3339(y, mo, d, h, mi, sec, 0),
    ensures
        prompt_timestamp_text(naive_wall_text(y, mo, d, h, mi, sec)) == naive_wall_text(
            y,
            mo,
            d,
            h,
            mi,
            sec,
        ),
{
    let t = naive_wall_text(y, mo, d, h, mi, sec);
    lemma_padded_no_ws(y as nat, 4);
    lemma_padded_no_ws(mo as nat, 2);
    lemma_padded_no_ws(d as nat, 2);
    lemma_padded_no_ws(h as nat, 2);
    lemma_padded_no_ws(mi as nat, 2);
    lemma_padded_no_ws(sec as nat, 2);
    let dash = seq!['-'];
    let tee = seq!['T'];
    let colon = seq![':'];
    assert(no_ws(dash));
    assert(no_ws(tee));
    assert(no_ws(colon));
    let p1 = padded(y as nat, 4) + dash;
    lemma_no_ws_concat(padded(y as nat, 4), dash);
    let p2 = p1 + padded(mo as nat, 2);
    lemma_no_ws_concat(p1, padded(mo as nat, 2));
    let p3 = p2 + dash;
    lemma_no_ws_concat(p2, dash);
    let p4 = p3 + padded(d as nat, 2);
    lemma_no_ws_concat(p3, padded(d as nat, 2));
    let p5 = p4 + tee;
    lemma_no_ws_concat(p4, tee);
    let p6 = p5 + padded(h as nat, 2);
    lemma_no_ws_concat(p5, padded(h as nat, 2));
    let p7 = p6 + colon;
    lemma_no_ws_concat(p6, colon);
    let p8 = p7 + padded(mi as nat, 2);
    lemma_no_ws_concat(p7, padded(mi as nat, 2));
    let p9 = p8 + colon;
    lemma_no_ws_concat(p8, colon);
    let p10 = p9 + padded(sec as nat, 2);
    lemma_no_ws_concat(p9, padded(sec as nat, 2));
    assert(t =~= p10);
    assert(t.len() > 0);
    assert(crate::text::trim_start(t) == t);
    assert(crate::text::trim_end(t) == t);
    assert(trim(t) == t);
    lemma_replace_no_ws(t);
}

proof fn lemma_replace_no_ws(s: Seq<char>)
    requires
        no_ws(s),
    ensures
        replace_all(s, "　"@, " "@) == s,
    decreases s.len(),
{
    reveal_strlit("　");
    if s.len() > 0 {
        assert(!is_ws(s[0]));
        assert(!crate::text::starts_with(s, "　"@)) by {
            if crate::text::starts_with(s, "　"@) {
                assert(s.subrange(0, 1)[0] == s[0]);
            }
        }
        assert(no_ws(s.drop_first()));
        lemma_replace_no_ws(s.drop_first());
        assert(seq![s[0]] + s.drop_first() =~= s);
    }
}

/// The JST moment of a canonical wall-clock reading lies in chrono's range.
proof fn lemma_wall_moment_valid(y: int, mo: int, d: int, h: int, mi: int, sec: int)
    requires
        canonical_rfc3339(y, mo, d, h, mi, sec, 0),
    ensures
        valid_moment(
            jst_instant(canonical_seconds(y, mo, d, h, mi, sec, 0) * NANOS_PER_SECOND),
            JST_OFFSET_SECONDS as int,
        ),
        -10_000_000_000_000_000_000_000 <= canonical_seconds(y, mo, d, h, mi, sec, 0)
            * NANOS_PER_SECOND <= 10_000_000_000_000_000_000_000,
{
    let day = crate::time::civil_to_days(y, mo, d);
    let tod = h * 3600 + mi * 60 + sec;
    assert(0 <= crate::time::days_before_month(y, mo) <= 335);
    assert(-800_000 <= day <= 3_000_000);
    let s = day * 86_400 + tod;
    assert(s == canonical_seconds(y, mo, d, h, mi, sec, 0));
    assert(0 <= tod < 86_400);
    let n = jst_instant(s * NANOS_PER_SECOND);
    assert(n == (s - 32_400) * 1_000_000_000);
    assert(seconds_of(n) == s - 32_400) by (nonlinear_arith)
        requires
            n == (s - 32_400) * 1_000_000_000,
            seconds_of(n) == n / 1_000_000_000,
    ;
    assert(s / 86_400 == day) by (nonlinear_arith)
        requires
            s == day * 86_400 + tod,
            0 <= tod < 86_400,
    ;
    assert(day - 1 <= (s - 32_400) / 86_400 <= day) by (nonlinear_arith)
        requires
            s == day * 86_400 + tod,
            0 <= tod < 86_400,
    ;
    assert(-100_000_000_000 <= s <= 300_000_000_000) by (nonlinear_arith)
        requires
            s == day * 86_400 + tod,
            0 <= tod < 86_400,
            -800_000 <= day <= 3_000_000,
    ;
}

/// The texts a prompt timestamp is read from meet the byte-slicing
/// constraints of the date and time readers.
pub open spec fn prompt_timestamp_sliceable(input: Seq<char>, context: Option<Seq<char>>) -> bool {
    let n = prompt_timestamp_text(input);
    &&& flexible_date_sliceable(n)
    &&& (context matches Some(c) ==> flexible_date_sliceable(c) && prompt_time_sliceable(n))
}

/// Reads a timestamp as a prompt writes it, relative to `anchor`, with
/// `context_date` as the date of a bare time of day.
pub fn parse_prompt_timestamp(input: &str, anchor: Date, context_date: Option<&str>) -> (r: Result<
    Timestamp,
    String,
>)
    requires
        prompt_timestamp_sliceable(
            input@,
            match context_date {
                Some(c) => Some(c@),
                None => None,
            },
        ),
    ensures
        match r {
            Ok(t) => prompt_timestamp_spec(
                input@,
                anchor,
                match context_date {
                    Some(c) => Some(c@),
                    None => None,
                },
            ) == Some(t.instant()),
            Err(_) => prompt_timestamp_spec(
                input@,
                anchor,
                match context_date {
                    Some(c) => Some(c@),
                    None => None,
                },
            ) is None,
        },
        r matches Ok(t) ==> t.offset() == prompt_timestamp_offset(input@),
        forall|y: int, mo: int, d: int, h: int, mi: int, sec: int|
            #![trigger naive_wall_text(y, mo, d, h, mi, sec)]
            canonical_rfc3339(y, mo, d, h, mi, sec, 0) && input@ == naive_wall_text(y, mo, d, h, mi, sec)
                ==> (r matches Ok(t) && t.instant() == jst_instant(
                canonical_seconds(y, mo, d, h, mi, sec, 0) * NANOS_PER_SECOND,
            ) && t.offset() == JST_OFFSET_SECONDS),
{
    match parse_timestamp(input) {
        Ok(t) => {
            return Ok(t);
        },
        Err(_) => {},
    }
    assert(!rfc3339_valid(input@));
    proof {
        reveal_strlit("　");
    }
    let trimmed = trim_str(input);
    let replaced = replace_str(trimmed.as_slice(), "　", " ");
    let normalized = string_of(replaced.as_slice());
    let n = normalized.as_str();
    proof {
        assert forall|y: int, mo: int, d: int, h: int, mi: int, sec: int|
            canonical_rfc3339(y, mo, d, h, mi, sec, 0) && input@ == #[trigger] naive_wall_text(
                y,
                mo,
                d,
                h,
                mi,
                sec,
            ) implies n@ == input@ by {
            lemma_wall_text_read_as_is(y, mo, d, h, mi, sec);
        }
    }
    let mut k: usize = 0;
    while k < 6
        invariant
            k <= 6,
            n@ == prompt_timestamp_text(input@),
            first_format_from(n@, 0) == first_format_from(n@, k as int),
            !rfc3339_valid(input@),
            forall|y: int, mo: int, d: int, h: int, mi: int, sec: int|
                #![trigger naive_wall_text(y, mo, d, h, mi, sec)]
                canonical_rfc3339(y, mo, d, h, mi, sec, 0) && input@ == naive_wall_text(
                    y,
                    mo,
                    d,
                    h,
                    mi,
                    sec,
                ) ==> k == 0 && n@ == input@,
        decreases 6 - k,
    {
        let format = prompt_format_exec(k);
        if let Some(naive) = parse_naive_datetime(n, format) {
            proof {
                assert(reads_under(n@, k as int));
                assert(first_format_from(n@, k as int) == Some(k as int));
                assert forall|y: int, mo: int, d: int, h: int, mi: int, sec: int|
                    canonical_rfc3339(y, mo, d, h, mi, sec, 0) && input@ == #[trigger] naive_wall_text(
                        y,
                        mo,
                        d,
                        h,
                        mi,
                        sec,
                    ) implies valid_moment(
                    jst_instant(naive as int),
                    JST_OFFSET_SECONDS as int,
                ) && naive == canonical_seconds(y, mo, d, h, mi, sec, 0) * NANOS_PER_SECOND by {
                    lemma_wall_moment_valid(y, mo, d, h, mi, sec);
                }
            }
            return jst_from_naive(naive);
        }
        k = k + 1;
    }
    if let Ok(date) = parse_flexible_date(n, anchor) {
        return to_jst_datetime(date, 0, 0);
    }
    if let Some(context_date) = context_date {
        let date = match parse_flexible_date(context_date, anchor) {
            Ok(d) => d,
            Err(e) => return Err(e),
        };
        let time_text = normalize_prompt_time(n);
        let (hour, minute) = match parse_time_of_day(time_text.as_str()) {
            Ok(v) => v,
            Err(e) => return Err(e),
        };
        return to_jst_datetime(date, hour, minute);
    }
    let mut m = chars_of("日時を解釈できませんでした: ");
    push_str(&mut m, input);
    push_str(&mut m, ". RFC3339 に加えて `2026-03-10 17:30` や `17:30` + `date` を受け付けます");
    Err(string_of(m.as_slice()))
}

// ---------------------------------------------------------------------
// Checks of the texts the readers above take
// ---------------------------------------------------------------------
/// Whether a flexible date text meets the slicing constraint of relative dates.
pub fn flexible_date_text_ok(input: &str) -> (r: bool)
    ensures
        r == flexible_date_sliceable(input@),
{
    let t = trim_str(input);
    let n = lower_chars(t.as_slice());
    if n.len() > 0 && (n[0] == '+' || n[0] == '-') {
        n.len() >= 2 && (n[n.len() - 1] as u32) < 0x80
    } else {
        true
    }
}

fn char_width_exec(c: char) -> (r: usize)
    ensures
        r == char_width(c),
{
    if (c as u32) < 0x80 {
        1
    } else if (c as u32) < 0x800 {
        2
    } else if (c as u32) < 0x10000 {
        3
    } else {
        4
    }
}

proof fn lemma_byte_len_step(s: Seq<char>, k: int)
    requires
        0 <= k < s.len(),
    ensures
        byte_len(s.skip(k)) == char_width(s[k]) + byte_len(s.skip(k + 1)),
        char_width(s[k]) >= 1,
{
    let t = s.skip(k);
    assert(t.drop_first() =~= s.skip(k + 1));
    assert(t[0] == s[k]);
}

proof fn lemma_byte_len_nonneg(s: Seq<char>)
    ensures
        byte_len(s) >= 0,
    decreases s.len(),
{
    if s.len() > 0 {
        lemma_byte_len_nonneg(s.drop_first());
    }
}

/// Whether the last six bytes of the text start at a character boundary
/// (or it has fewer than six bytes).
pub fn offset_text_ok(s: &[char]) -> (r: bool)
    ensures
        r == offset_sliceable(s@),
{
    let mut k: usize = s.len();
    let mut acc: usize = 0;
    let mut found = false;
    assert(s@.skip(s.len() as int) =~= Seq::<char>::empty());
    while k > 0
        invariant
            k <= s.len(),
            acc == if byte_len(s@.skip(k as int)) < 7 {
                byte_len(s@.skip(k as int))
            } else {
                7
            },
            found <==> exists|j: int| k <= j <= s.len() && #[trigger] byte_len(s@.skip(j)) == 6,
        decreases k,
    {
        proof {
            lemma_byte_len_step(s@, k - 1);
            lemma_byte_len_nonneg(s@.skip(k as int));
        }
        let w = char_width_exec(s[k - 1]);
        acc = if acc + w < 7 {
            acc + w
        } else {
            7
        };
        k = k - 1;
        if acc == 6 {
            found = true;
        }
        proof {
            if found {
                if acc == 6 {
                    assert(byte_len(s@.skip(k as int)) == 6);
                }
            } else {
                assert forall|j: int| k <= j <= s.len() implies #[trigger] byte_len(s@.skip(j)) != 6 by {
                    if j == k {
                    }
                }
            }
        }
    }
    assert(s@.skip(0) =~= s@);
    proof {
        if found {
            let j = choose|j: int| 0 <= j <= s.len() && #[trigger] byte_len(s@.skip(j)) == 6;
            assert(0 <= j <= s@.len() && byte_len(s@.skip(j)) == 6);
        }
    }
    acc < 6 || found
}

fn unzoned_chars(input: &str) -> (r: Vec<char>)
    ensures
        r@ == prompt_time_unzoned(input@),
{
    proof {
        reveal_strlit("時半");
        reveal_strlit("時");
        reveal_strlit("分");
        reveal_strlit("：");
    }
    let t = trim_str(input);
    let a = replace_str(t.as_slice(), "時半", ":30");
    let b = replace_str(a.as_slice(), "時", ":");
    let c = replace_str(b.as_slice(), "分", "");
    let mut d = replace_str(c.as_slice(), "：", ":");
    let n = d.len();
    if n > 0 && (d[n - 1] == 'z' || d[n - 1] == 'Z') {
        d.pop();
        proof {
            assert(d@ =~= prompt_time_unzoned(input@));
        }
    }
    d
}

/// Whether a time as a prompt writes it meets the slicing constraint of
/// offset stripping.
pub fn prompt_time_text_ok(input: &str) -> (r: bool)
    ensures
        r == prompt_time_sliceable(input@),
{
    let d = unzoned_chars(input);
    offset_text_ok(d.as_slice())
}

/// Whether a prompt's timestamp text, with its context date, meets the
/// constraints of the readers it goes to.
pub fn prompt_timestamp_text_ok(input: &str, context_date: Option<&str>) -> (r: bool)
    ensures
        r == prompt_timestamp_sliceable(
            input@,
            match context_date {
                Some(c) => Some(c@),
                None => None,
            },
        ),
{
    proof {
        reveal_strlit("　");
    }
    let t = trim_str(input);
    let n = replace_str(t.as_slice(), "　", " ");
    let text = string_of(n.as_slice());
    if !flexible_date_text_ok(text.as_str()) {
        return false;
    }
    match context_date {
        Some(c) => flexible_date_text_ok(c) && prompt_time_text_ok(text.as_str()),
        None => true,
    }
}

/// Whether a duration text stays within chrono's bounds while it is read.
pub fn duration_text_ok(input: &str) -> (r: bool)
    ensures
        r == duration_in_bounds(input@),
{
    let trimmed = trim_str(input);
    let value = lower_chars(trimmed.as_slice());
    let mut total = TimeDelta::zero();
    let mut cursor: usize = 0;
    assert(value@.skip(0) =~= value@);
    while cursor < value.len()
        invariant
            cursor <= value.len(),
            value@ == duration_text(input@),
            (duration_scan(value@, 0) is Some) == (duration_scan(
                value@.skip(cursor as int),
                total.nanos(),
            ) is Some),
        decreases value.len() - cursor,
    {
        let ghost rest = value@.skip(cursor as int);
        let start = cursor;
        while cursor < value.len() && is_digit_char(value[cursor])
            invariant
                start <= cursor <= value.len(),
                forall|j: int| start <= j < cursor ==> is_digit(#[trigger] value@[j]),
            decreases value.len() - cursor,
        {
            cursor = cursor + 1;
        }
        proof {
            assert forall|j: int| 0 <= j < cursor - start implies is_digit(#[trigger] rest[j]) by {
                assert(rest[j] == value@[start + j]);
            }
            if cursor < value.len() {
                assert(rest[cursor - start] == value@[cursor as int]);
            }
            lemma_digit_run(rest, cursor - start);
        }
        if start == cursor || cursor >= value.len() {
            return true;
        }
        let digits = slice_chars(value.as_slice(), start, cursor);
        proof {
            assert(digits@ =~= rest.take(cursor - start));
            assert forall|j: int| 0 <= j < digits@.len() implies is_digit(#[trigger] digits@[j]) by {
                assert(digits@[j] == value@[start + j]);
            }
        }
        let amount = match digits_value_bounded(digits.as_slice(), 0x7fff_ffff_ffff_ffff) {
            Some(v) => v as i64,
            None => return true,
        };
        let unit = value[cursor];
        assert(unit == rest[cursor - start]);
        cursor = cursor + 1;
        let delta = if unit == 'm' {
            TimeDelta::try_minutes(amount)
        } else if unit == 'h' {
            TimeDelta::try_hours(amount)
        } else if unit == 'd' {
            TimeDelta::try_days(amount)
        } else {
            return true;
        };
        let delta = match delta {
            Some(d) => d,
            None => return false,
        };
        total = match total.checked_add(&delta) {
            Some(t) => t,
            None => return false,
        };
        proof {
            assert(rest.skip((cursor - start) as int) =~= value@.skip(cursor as int));
        }
    }
    proof {
        assert(value@.skip(cursor as int).len() == 0);
    }
    true
}

} // verus!
