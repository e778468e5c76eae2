//! The time window of an event given as a date and times of day: a whole
//! day, `at` to `until`, or `at` for a duration, all in JST.
use vstd::prelude::*;
use crate::datetime::{
    duration_in_bounds, duration_spec, flexible_date_sliceable, flexible_date_spec, jst_instant,
    normalize_prompt_duration, normalize_prompt_duration_spec, normalize_prompt_time,
    normalize_prompt_time_spec, parse_duration, parse_flexible_date, parse_time_of_day,
    prompt_time_sliceable, time_of_day_spec, to_jst_datetime,
};
use crate::time::{valid_moment, Date, TimeDelta, Timestamp, JST_OFFSET_SECONDS, NANOS_PER_SECOND};

verus! {

/// One day in nanoseconds.
pub open spec fn day_nanos() -> int {
    86_400 * NANOS_PER_SECOND
}

/// The instant of `hour:minute` on a day, in JST.
pub open spec fn jst_at(day: int, hour: int, minute: int) -> int {
    jst_instant((day * 86_400 + hour * 3600 + minute * 60) * NANOS_PER_SECOND)
}

/// chrono represents the instant in JST.
pub open spec fn jst_valid(instant: int) -> bool {
    valid_moment(instant, JST_OFFSET_SECONDS as int)
}

pub open spec fn calc_message() -> Seq<char> {
    "日時を計算できません"@
}

pub open spec fn at_missing_message() -> Seq<char> {
    "date を使う場合は at も必要です"@
}

pub open spec fn end_missing_message() -> Seq<char> {
    "date と at を使う場合は until か for も必要です"@
}

/// The texts meet the constraints of the readers they go to.
pub open spec fn window_texts_ok(
    date: Seq<char>,
    at: Option<Seq<char>>,
    until: Option<Seq<char>>,
    duration: Option<Seq<char>>,
) -> bool {
    &&& flexible_date_sliceable(date)
    &&& (at matches Some(a) ==> prompt_time_sliceable(a))
    &&& (until matches Some(u) ==> prompt_time_sliceable(u))
    &&& (duration matches Some(d) ==> duration_in_bounds(normalize_prompt_duration_spec(d)))
}

/// The window a date and times give: the whole day for `all_day`; else
/// from `at` to `until` on that day, or from `at` for `duration`.
/// `Err(Some(m))` is a refusal with this message, `Err(None)` one by the
/// reader of a date, time or duration.
pub open spec fn date_window_spec(
    date: Seq<char>,
    at: Option<Seq<char>>,
    until: Option<Seq<char>>,
    duration: Option<Seq<char>>,
    all_day: bool,
    anchor: Date,
) -> Result<(int, int), Option<Seq<char>>> {
    match flexible_date_spec(date, anchor) {
        None => Err(None),
        Some(day) => if all_day {
            let s = jst_at(day, 0, 0);
            if !jst_valid(s) {
                Err(None)
            } else if !jst_valid(s + day_nanos()) {
                Err(Some(calc_message()))
            } else {
                Ok((s, s + day_nanos()))
            }
        } else {
            match at {
                None => Err(Some(at_missing_message())),
                Some(a) => match time_of_day_spec(normalize_prompt_time_spec(a)) {
                    None => Err(None),
                    Some(hm) => {
                        let s = jst_at(day, hm.0 as int, hm.1 as int);
                        if !jst_valid(s) {
                            Err(None)
                        } else {
                            match until {
                                Some(u) => match time_of_day_spec(normalize_prompt_time_spec(u)) {
                                    None => Err(None),
                                    Some(hm2) => {
                                        let e = jst_at(day, hm2.0 as int, hm2.1 as int);
                                        if jst_valid(e) {
                                            Ok((s, e))
                                        } else {
                                            Err(None)
                                        }
                                    },
                                },
                                None => match duration {
                                    Some(d) => match duration_spec(
                                        normalize_prompt_duration_spec(d),
                                    ) {
                                        None => Err(None),
                                        Some(n) => if jst_valid(s + n) {
                                            Ok((s, s + n))
                                        } else {
                                            Err(Some(calc_message()))
                                        },
                                    },
                                    None => Err(Some(end_missing_message())),
                                },
                            }
                        }
                    },
                },
            }
        },
    }
}

/// A window as timestamps matches its spec, both ends in JST.
pub open spec fn window_matches(
    r: Result<(Timestamp, Timestamp), String>,
    spec: Result<(int, int), Option<Seq<char>>>,
) -> bool {
    match spec {
        Ok(w) => r matches Ok(p) && p.0.instant() == w.0 && p.1.instant() == w.1
            && p.0.offset() == JST_OFFSET_SECONDS && p.1.offset() == JST_OFFSET_SECONDS,
        Err(None) => r is Err,
        Err(Some(m)) => r matches Err(x) && x@ == m,
    }
}

/// `hour:minute` of a time text, as a prompt writes it.
fn time_of(text: &str) -> (r: Result<(u32, u32), String>)
    requires
        prompt_time_sliceable(text@),
    ensures
        match time_of_day_spec(normalize_prompt_time_spec(text@)) {
            Some(v) => r == Ok::<(u32, u32), String>(v),
            None => r is Err,
        },
{
    let n = normalize_prompt_time(text);
    parse_time_of_day(n.as_str())
}

/// The window of a date and times of day (see `date_window_spec`).
pub fn resolve_date_window(
    date: &str,
    at: &Option<String>,
    until: &Option<String>,
    duration: &Option<String>,
    all_day: bool,
    anchor: Date,
) -> (r: Result<(Timestamp, Timestamp), String>)
    requires
        window_texts_ok(
            date@,
            crate::config::opt_view(*at),
            crate::config::opt_view(*until),
            crate::config::opt_view(*duration),
        ),
    ensures
        window_matches(
            r,
            date_window_spec(
                date@,
                crate::config::opt_view(*at),
                crate::config::opt_view(*until),
                crate::config::opt_view(*duration),
                all_day,
                anchor,
            ),
        ),
{
    let day = match parse_flexible_date(date, anchor) {
        Ok(d) => d,
        Err(e) => return Err(e),
    };
    if all_day {
        let start = match to_jst_datetime(day, 0, 0) {
            Ok(s) => s,
            Err(e) => return Err(e),
        };
        return match start.checked_add(TimeDelta::one_day()) {
            Some(end) => Ok((start, end)),
            None => Err("日時を計算できません".to_string()),
        };
    }
    let a = match at {
        Some(a) => a,
        None => return Err("date を使う場合は at も必要です".to_string()),
    };
    let (h, m) = match time_of(a.as_str()) {
        Ok(v) => v,
        Err(e) => return Err(e),
    };
    let start = match to_jst_datetime(day, h, m) {
        Ok(s) => s,
        Err(e) => return Err(e),
    };
    match until {
        Some(u) => {
            let (h2, m2) = match time_of(u.as_str()) {
                Ok(v) => v,
                Err(e) => return Err(e),
            };
            match to_jst_datetime(day, h2, m2) {
                Ok(end) => Ok((start, end)),
                Err(e) => Err(e),
            }
        },
        None => match duration {
            Some(d) => {
                let n = normalize_prompt_duration(d.as_str());
                let delta = match parse_duration(n.as_str()) {
                    Ok(x) => x,
                    Err(e) => return Err(e),
                };
                match start.checked_add(delta) {
                    Some(end) => Ok((start, end)),
                    None => Err("日時を計算できません".to_string()),
                }
            },
            None => Err("date と at を使う場合は until か for も必要です".to_string()),
        },
    }
}

} // verus!
