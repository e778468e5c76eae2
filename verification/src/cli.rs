//! The arguments of the `events` subcommands, and how they become a
//! listing window, a new event, a patch or clone overrides.
use vstd::prelude::*;
use crate::backend::ListQuery;
use crate::config::opt_view;
use crate::datetime::{
    duration_in_bounds,
    duration_spec,
    flexible_date_sliceable,
    flexible_date_spec,
    flexible_datetime_spec,
    flexible_offset,
    parse_duration,
    parse_flexible_date,
    parse_flexible_datetime,
    to_jst_datetime,
};
use crate::model::{clone_opt, clone_strings, CloneOverrides, EventPatch, EventVisibility, NewEvent};
use crate::time::{valid_moment, Date, Timestamp, JST_OFFSET_SECONDS};
use crate::window::{
    date_window_spec,
    day_nanos,
    jst_at,
    jst_valid,
    resolve_date_window,
    window_texts_ok,
};

verus! {

/// The `--scope` of a change to a repeating event.
#[derive(Clone, Copy, Debug, PartialEq, Eq, Structural)]
pub enum ApplyScopeArg {
    This,
    After,
    All,
}

/// `events list`: a window given by `--from`/`--to`, or `--date`, with an
/// optional length `--for`.
#[derive(Debug)]
pub struct ListArgs {
    pub json: bool,
    pub from: Option<String>,
    pub to: Option<String>,
    pub date: Option<String>,
    pub duration: Option<String>,
}

/// `events add`.
#[derive(Debug)]
pub struct AddArgs {
    pub json: bool,
    pub title: String,
    pub public: bool,
    pub private: bool,
    pub start: Option<Timestamp>,
    pub end: Option<Timestamp>,
    pub date: Option<String>,
    pub at: Option<String>,
    pub until: Option<String>,
    pub duration: Option<String>,
    pub all_day: bool,
    pub description: Option<String>,
    pub attendees: Vec<String>,
    pub facility: Option<String>,
    pub calendar: Option<String>,
}

/// `events update`.
#[derive(Debug)]
pub struct UpdateArgs {
    pub json: bool,
    pub web: bool,
    pub id: String,
    pub scope: Option<ApplyScopeArg>,
    pub title: Option<String>,
    pub start: Option<Timestamp>,
    pub end: Option<Timestamp>,
    pub description: Option<String>,
    pub clear_description: bool,
    pub attendees: Vec<String>,
    pub clear_attendees: bool,
    pub facility: Option<String>,
    pub clear_facility: bool,
    pub calendar: Option<String>,
    pub clear_calendar: bool,
}

/// `events clone`.
#[derive(Debug)]
pub struct CloneArgs {
    pub json: bool,
    pub id: String,
    pub title: Option<String>,
    pub title_suffix: Option<String>,
    pub start: Option<Timestamp>,
    pub end: Option<Timestamp>,
}

/// `events delete`.
#[derive(Debug)]
pub struct DeleteArgs {
    pub json: bool,
    pub id: String,
    pub scope: Option<ApplyScopeArg>,
}

/// The `events` subcommands.
#[derive(Debug)]
pub enum EventsCommand {
    List(ListArgs),
    Add(AddArgs),
    Update(UpdateArgs),
    Clone(CloneArgs),
    Delete(DeleteArgs),
}

// ---------------------------------------------------------------------
// events update
// ---------------------------------------------------------------------
pub open spec fn description_conflict_message() -> Seq<char> {
    "`--description` と `--clear-description` は同時に使えません"@
}

pub open spec fn attendee_conflict_message() -> Seq<char> {
    "`--attendee` と `--clear-attendees` は同時に使えません"@
}

pub open spec fn facility_conflict_message() -> Seq<char> {
    "`--facility` と `--clear-facility` は同時に使えません"@
}

pub open spec fn calendar_conflict_message() -> Seq<char> {
    "`--calendar` と `--clear-calendar` は同時に使えません"@
}

/// An optional field of a patch: cleared, set, or kept.
pub open spec fn optional_field(clear: bool, value: Option<String>) -> Option<Option<String>> {
    if clear {
        Some(None)
    } else {
        match value {
            Some(v) => Some(Some(v)),
            None => None,
        }
    }
}

fn optional_field_exec(clear: bool, value: &Option<String>) -> (r: Option<Option<String>>)
    ensures
        r == optional_field(clear, *value),
{
    if clear {
        Some(None)
    } else {
        match value {
            Some(v) => Some(Some(v.clone())),
            None => None,
        }
    }
}

/// The first conflicting pair of options of an update, if any.
pub open spec fn patch_conflict(a: UpdateArgs) -> Option<Seq<char>> {
    if a.description is Some && a.clear_description {
        Some(description_conflict_message())
    } else if a.attendees@.len() > 0 && a.clear_attendees {
        Some(attendee_conflict_message())
    } else if a.facility is Some && a.clear_facility {
        Some(facility_conflict_message())
    } else if a.calendar is Some && a.clear_calendar {
        Some(calendar_conflict_message())
    } else {
        None
    }
}

/// The patch is the one the options describe.
pub open spec fn patch_matches(p: EventPatch, a: UpdateArgs) -> bool {
    &&& p.title == a.title
    &&& p.description == optional_field(a.clear_description, a.description)
    &&& p.starts_at == a.start
    &&& p.ends_at == a.end
    &&& (if a.clear_attendees {
        p.attendees matches Some(v) && v@.len() == 0
    } else if a.attendees@.len() == 0 {
        p.attendees is None
    } else {
        p.attendees matches Some(v) && v@ == a.attendees@
    })
    &&& p.facility == optional_field(a.clear_facility, a.facility)
    &&& p.calendar == optional_field(a.clear_calendar, a.calendar)
}

/// A patch the options describe sets each optional field to the value
/// given with it, clears it where its clearing flag is set, and leaves it
/// alone otherwise; the title, start and end are taken as given.
pub proof fn law_patch_sets_given_values(p: EventPatch, a: UpdateArgs)
    requires
        patch_matches(p, a),
    ensures
        p.title == a.title && p.starts_at == a.start && p.ends_at == a.end,
        !a.clear_description ==> (a.description matches Some(v) ==> p.description == Some(Some(v))),
        !a.clear_description && a.description is None ==> p.description is None,
        a.clear_description ==> p.description == Some(None::<String>),
        !a.clear_facility ==> (a.facility matches Some(v) ==> p.facility == Some(Some(v))),
        !a.clear_facility && a.facility is None ==> p.facility is None,
        a.clear_facility ==> p.facility == Some(None::<String>),
        !a.clear_calendar ==> (a.calendar matches Some(v) ==> p.calendar == Some(Some(v))),
        !a.clear_calendar && a.calendar is None ==> p.calendar is None,
        a.clear_calendar ==> p.calendar == Some(None::<String>),
{
}

/// The options change nothing.
pub open spec fn update_changes_nothing(a: UpdateArgs) -> bool {
    &&& a.title is None
    &&& a.description is None && !a.clear_description
    &&& a.start is None && a.end is None
    &&& a.attendees@.len() == 0 && !a.clear_attendees
    &&& a.facility is None && !a.clear_facility
    &&& a.calendar is None && !a.clear_calendar
}

/// The refusal of an update that changes nothing.
pub open spec fn nothing_to_update_message() -> Seq<char> {
    "更新対象がありません。少なくとも 1 つの変更オプションを指定してください"@
}

impl UpdateArgs {
    /// The patch the options describe. A value and its clearing flag
    /// together are refused, and so are options that change nothing.
    pub fn patch(&self) -> (r: Result<EventPatch, String>)
        ensures
            match patch_conflict(*self) {
                Some(m) => r matches Err(x) && x@ == m,
                None => if update_changes_nothing(*self) {
                    r matches Err(x) && x@ == nothing_to_update_message()
                } else {
                    r matches Ok(p) && patch_matches(p, *self) && !p.is_empty_spec()
                },
            },
            update_changes_nothing(*self) ==> r is Err,
    {
        if self.description.is_some() && self.clear_description {
            return Err("`--description` と `--clear-description` は同時に使えません".to_string());
        }
        if self.attendees.len() > 0 && self.clear_attendees {
            return Err("`--attendee` と `--clear-attendees` は同時に使えません".to_string());
        }
        if self.facility.is_some() && self.clear_facility {
            return Err("`--facility` と `--clear-facility` は同時に使えません".to_string());
        }
        if self.calendar.is_some() && self.clear_calendar {
            return Err("`--calendar` と `--clear-calendar` は同時に使えません".to_string());
        }
        let attendees = if self.clear_attendees {
            Some(Vec::new())
        } else if self.attendees.len() == 0 {
            None
        } else {
            Some(clone_strings(&self.attendees))
        };
        let patch = EventPatch {
            title: clone_opt(&self.title),
            description: optional_field_exec(self.clear_description, &self.description),
            starts_at: self.start,
            ends_at: self.end,
            attendees,
            facility: optional_field_exec(self.clear_facility, &self.facility),
            calendar: optional_field_exec(self.clear_calendar, &self.calendar),
        };
        if patch.is_empty() {
            return Err(
                "更新対象がありません。少なくとも 1 つの変更オプションを指定してください".to_string(),
            );
        }
        Ok(patch)
    }
}

// ---------------------------------------------------------------------
// events clone
// ---------------------------------------------------------------------
pub open spec fn title_conflict_message() -> Seq<char> {
    "`--title` と `--title-suffix` はどちらか一方だけ指定してください"@
}

impl CloneArgs {
    /// The overrides the options describe; a new title and a title suffix
    /// together are refused.
    pub fn overrides(&self) -> (r: Result<CloneOverrides, String>)
        ensures
            r is Ok <==> !(self.title is Some && self.title_suffix is Some),
            r matches Err(m) ==> m@ == title_conflict_message(),
            r matches Ok(o) ==> o.title == self.title && o.title_suffix == self.title_suffix
                && o.starts_at == self.start && o.ends_at == self.end,
    {
        if self.title.is_some() && self.title_suffix.is_some() {
            return Err("`--title` と `--title-suffix` はどちらか一方だけ指定してください".to_string());
        }
        Ok(
            CloneOverrides {
                title: clone_opt(&self.title),
                title_suffix: clone_opt(&self.title_suffix),
                starts_at: self.start,
                ends_at: self.end,
            },
        )
    }
}

// ---------------------------------------------------------------------
// events list
// ---------------------------------------------------------------------
pub open spec fn date_range_conflict_message() -> Seq<char> {
    "`--date` と `--from` / `--to` は同時に使えません"@
}

pub open spec fn for_to_conflict_message() -> Seq<char> {
    "`--for` と `--to` は同時に使えません"@
}

pub open spec fn for_needs_start_message() -> Seq<char> {
    "`--for` には `--from` か `--date` が必要です"@
}

/// The texts of a listing meet the constraints of their readers.
pub open spec fn list_texts_ok(a: ListArgs) -> bool {
    &&& (a.from matches Some(f) ==> flexible_date_sliceable(f@))
    &&& (a.to matches Some(t) ==> flexible_date_sliceable(t@))
    &&& (a.date matches Some(d) ==> flexible_date_sliceable(d@))
    &&& (a.duration matches Some(d) ==> duration_in_bounds(d@))
}

/// The end of a window that starts at `start` (shown at `offset`):
/// `start` plus the duration, or plus `default_len` where none is given.
pub open spec fn window_end(start: int, offset: int, duration: Option<Seq<char>>, default_len: int) -> Result<
    int,
    Option<Seq<char>>,
> {
    match duration {
        Some(d) => match duration_spec(d) {
            Some(n) => if valid_moment(start + n, offset) {
                Ok(start + n)
            } else {
                Err(Some(crate::window::calc_message()))
            },
            None => Err(None),
        },
        None => if valid_moment(start + default_len, offset) {
            Ok(start + default_len)
        } else {
            Err(Some(crate::window::calc_message()))
        },
    }
}

/// The window a listing asks for. With `--date`: that day from midnight
/// JST, for `--for` or one day. Otherwise `--from` and `--to` as given
/// (each a timestamp or a date at midnight JST), `--for` measuring from
/// `--from`. `Err(None)` is a refusal by a reader.
pub open spec fn list_window_spec(a: ListArgs, anchor: Date) -> Result<
    (Option<int>, Option<int>),
    Option<Seq<char>>,
> {
    match a.date {
        Some(d) => if a.from is Some || a.to is Some {
            Err(Some(date_range_conflict_message()))
        } else {
            match flexible_date_spec(d@, anchor) {
                None => Err(None),
                Some(day) => {
                    let s = jst_at(day, 0, 0);
                    if !jst_valid(s) {
                        Err(None)
                    } else {
                        match window_end(s, JST_OFFSET_SECONDS as int, opt_view(a.duration), day_nanos()) {
                            Ok(e) => Ok((Some(s), Some(e))),
                            Err(m) => Err(m),
                        }
                    }
                },
            }
        },
        None => {
            let from = match a.from {
                Some(f) => flexible_datetime_spec(f@, anchor),
                None => None,
            };
            let to = match a.to {
                Some(t) => flexible_datetime_spec(t@, anchor),
                None => None,
            };
            if a.from is Some && from is None {
                Err(None)
            } else if a.to is Some && to is None {
                Err(None)
            } else {
                match a.duration {
                    None => Ok((from, to)),
                    Some(d) => if a.to is Some {
                        Err(Some(for_to_conflict_message()))
                    } else {
                        match from {
                            None => Err(Some(for_needs_start_message())),
                            Some(s) => match window_end(
                                s,
                                flexible_offset(a.from->0@),
                                Some(d@),
                                0,
                            ) {
                                Ok(e) => Ok((Some(s), Some(e))),
                                Err(m) => Err(m),
                            },
                        }
                    },
                }
            }
        },
    }
}

/// A listing window as timestamps matches its spec.
pub open spec fn query_matches(
    r: Result<ListQuery, String>,
    spec: Result<(Option<int>, Option<int>), Option<Seq<char>>>,
) -> bool {
    match spec {
        Ok(w) => r matches Ok(q) && (match q.from {
            Some(f) => w.0 == Some(f.instant()),
            None => w.0 is None,
        }) && (match q.to {
            Some(t) => w.1 == Some(t.instant()),
            None => w.1 is None,
        }),
        Err(None) => r is Err,
        Err(Some(m)) => r matches Err(x) && x@ == m,
    }
}

fn end_after(start: Timestamp, duration: &Option<String>, default_day: bool) -> (r: Result<
    Timestamp,
    String,
>)
    requires
        duration matches Some(d) ==> duration_in_bounds(d@),
    ensures
        match window_end(start.instant(), start.offset(), opt_view(*duration), if default_day {
            day_nanos()
        } else {
            0
        }) {
            Ok(e) => r matches Ok(t) && t.instant() == e,
            Err(None) => r is Err,
            Err(Some(m)) => r matches Err(x) && x@ == m,
        },
{
    let delta = match duration {
        Some(d) => match parse_duration(d.as_str()) {
            Ok(x) => x,
            Err(e) => return Err(e),
        },
        None => if default_day {
            crate::time::TimeDelta::one_day()
        } else {
            crate::time::TimeDelta::zero()
        },
    };
    match start.checked_add(delta) {
        Some(end) => Ok(end),
        None => Err("日時を計算できません".to_string()),
    }
}

fn flexible_bound(text: &Option<String>, anchor: Date) -> (r: Result<Option<Timestamp>, String>)
    requires
        text matches Some(t) ==> flexible_date_sliceable(t@),
    ensures
        match text {
            Some(t) => match flexible_datetime_spec(t@, anchor) {
                Some(i) => r matches Ok(Some(x)) && x.instant() == i && x.offset() == flexible_offset(
                    t@,
                ),
                None => r is Err,
            },
            None => r matches Ok(None),
        },
{
    match text {
        Some(t) => match parse_flexible_datetime(t.as_str(), anchor) {
            Ok(x) => Ok(Some(x)),
            Err(e) => Err(e),
        },
        None => Ok(None),
    }
}

impl ListArgs {
    /// The window the listing asks for, relative to the JST date `anchor`.
    pub fn query(&self, anchor: Date) -> (r: Result<ListQuery, String>)
        requires
            list_texts_ok(*self),
        ensures
            query_matches(r, list_window_spec(*self, anchor)),
    {
        match &self.date {
            Some(d) => {
                if self.from.is_some() || self.to.is_some() {
                    return Err("`--date` と `--from` / `--to` は同時に使えません".to_string());
                }
                let day = match parse_flexible_date(d.as_str(), anchor) {
                    Ok(x) => x,
                    Err(e) => return Err(e),
                };
                let start = match to_jst_datetime(day, 0, 0) {
                    Ok(s) => s,
                    Err(e) => return Err(e),
                };
                let end = match end_after(start, &self.duration, true) {
                    Ok(e) => e,
                    Err(e) => return Err(e),
                };
                Ok(ListQuery { from: Some(start), to: Some(end) })
            },
            None => {
                let from = match flexible_bound(&self.from, anchor) {
                    Ok(x) => x,
                    Err(e) => return Err(e),
                };
                let to = match flexible_bound(&self.to, anchor) {
                    Ok(x) => x,
                    Err(e) => return Err(e),
                };
                if self.duration.is_none() {
                    return Ok(ListQuery { from, to });
                }
                if self.to.is_some() {
                    return Err("`--for` と `--to` は同時に使えません".to_string());
                }
                match from {
                    None => Err("`--for` には `--from` か `--date` が必要です".to_string()),
                    Some(s) => {
                        match end_after(s, &self.duration, false) {
                            Ok(e) => Ok(ListQuery { from: Some(s), to: Some(e) }),
                            Err(e) => Err(e),
                        }
                    },
                }
            },
        }
    }
}

// ---------------------------------------------------------------------
// events add
// ---------------------------------------------------------------------
pub open spec fn visibility_conflict_message() -> Seq<char> {
    "`--public` と `--private` は同時に使えません"@
}

pub open spec fn start_end_pair_message() -> Seq<char> {
    "`--start` と `--end` は両方指定してください"@
}

pub open spec fn window_missing_message() -> Seq<char> {
    "`--start` と `--end`、または `--date` を指定してください"@
}

/// The texts of an addition meet the constraints of their readers.
pub open spec fn add_texts_ok(a: AddArgs) -> bool {
    a.date matches Some(d) ==> window_texts_ok(
        d@,
        opt_view(a.at),
        opt_view(a.until),
        opt_view(a.duration),
    )
}

/// A date with no time of day at all is a whole-day event.
pub open spec fn implied_all_day(a: AddArgs) -> bool {
    a.all_day || (a.at is None && a.until is None && a.duration is None)
}

/// The window of a new event: `--start` and `--end` as given, else the
/// window of `--date` and its times (see `date_window_spec`).
pub open spec fn add_window_spec(a: AddArgs, anchor: Date) -> Result<(int, int), Option<Seq<char>>> {
    if a.public && a.private {
        Err(Some(visibility_conflict_message()))
    } else {
        match (a.start, a.end) {
            (Some(s), Some(e)) => Ok((s.instant(), e.instant())),
            (None, None) => match a.date {
                None => Err(Some(window_missing_message())),
                Some(d) => date_window_spec(
                    d@,
                    opt_view(a.at),
                    opt_view(a.until),
                    opt_view(a.duration),
                    implied_all_day(a),
                    anchor,
                ),
            },
            _ => Err(Some(start_end_pair_message())),
        }
    }
}

/// `--private` makes the event private; it is public otherwise.
pub open spec fn add_visibility(a: AddArgs) -> EventVisibility {
    if a.private {
        EventVisibility::Private
    } else {
        EventVisibility::Public
    }
}

/// The new event carries the options' title, description, attendees,
/// facility, calendar and visibility; `--start` and `--end` as given, and
/// a window from `--date` in JST.
pub open spec fn new_event_matches(e: NewEvent, a: AddArgs) -> bool {
    &&& e.title == a.title
    &&& e.description == a.description
    &&& e.attendees@ == a.attendees@
    &&& e.facility == a.facility
    &&& e.calendar == a.calendar
    &&& e.visibility == add_visibility(a)
    &&& (a.start matches Some(s) ==> e.starts_at == s)
    &&& (a.end matches Some(t) ==> e.ends_at == t)
    &&& (a.start is None ==> e.starts_at.offset() == JST_OFFSET_SECONDS && e.ends_at.offset()
        == JST_OFFSET_SECONDS)
}

impl AddArgs {
    /// The event the options describe, relative to the JST date `anchor`.
    pub fn new_event(&self, anchor: Date) -> (r: Result<NewEvent, String>)
        requires
            add_texts_ok(*self),
        ensures
            match add_window_spec(*self, anchor) {
                Ok(w) => r matches Ok(e) && e.starts_at.instant() == w.0 && e.ends_at.instant()
                    == w.1,
                Err(None) => r is Err,
                Err(Some(m)) => r matches Err(x) && x@ == m,
            },
            r matches Ok(e) ==> new_event_matches(e, *self),
    {
        if self.public && self.private {
            return Err("`--public` と `--private` は同時に使えません".to_string());
        }
        let visibility = if self.private {
            EventVisibility::Private
        } else {
            EventVisibility::Public
        };
        let (starts_at, ends_at) = match (self.start, self.end) {
            (Some(s), Some(e)) => (s, e),
            (None, None) => match &self.date {
                None => return Err(
                    "`--start` と `--end`、または `--date` を指定してください".to_string(),
                ),
                Some(d) => {
                    let all_day = self.all_day || (self.at.is_none() && self.until.is_none()
                        && self.duration.is_none());
                    match resolve_date_window(
                        d.as_str(),
                        &self.at,
                        &self.until,
                        &self.duration,
                        all_day,
                        anchor,
                    ) {
                        Ok(w) => w,
                        Err(e) => return Err(e),
                    }
                },
            },
            _ => return Err("`--start` と `--end` は両方指定してください".to_string()),
        };
        Ok(
            NewEvent {
                title: self.title.clone(),
                description: clone_opt(&self.description),
                starts_at,
                ends_at,
                attendees: clone_strings(&self.attendees),
                facility: clone_opt(&self.facility),
                calendar: clone_opt(&self.calendar),
                visibility,
            },
        )
    }
}

// ---------------------------------------------------------------------
// events: a subcommand or a request in words
// ---------------------------------------------------------------------
/// What `events` runs: a request in words, or a subcommand.
#[derive(Debug)]
pub enum ResolvedEventsArgs {
    Prompt { prompt: String, yes: bool },
    Command(EventsCommand),
}

pub open spec fn prompt_with_subcommand_message() -> Seq<char> {
    "`--prompt` とサブコマンドは同時に使えません"@
}

pub open spec fn yes_without_prompt_message() -> Seq<char> {
    "`--yes` は `--prompt` と組み合わせて使います"@
}

/// `events` with `--prompt` runs the request, alone; `--yes` goes only with
/// `--prompt`; without a subcommand `events` lists the default window.
pub fn resolve_events(prompt: Option<String>, yes: bool, command: Option<EventsCommand>) -> (r: Result<
    ResolvedEventsArgs,
    String,
>)
    ensures
        (prompt is Some && command is Some) ==> (r matches Err(m) && m@
            == prompt_with_subcommand_message()),
        (prompt is Some && command is None) ==> (r matches Ok(ResolvedEventsArgs::Prompt { prompt: p, yes: y }) && Some(p) == prompt && y == yes),
        (prompt is None && yes) ==> (r matches Err(m) && m@ == yes_without_prompt_message()),
        (prompt is None && !yes && command is Some) ==> (r matches Ok(ResolvedEventsArgs::Command(c)) && Some(c) == command),
        (prompt is None && !yes && command is None) ==> (r matches Ok(ResolvedEventsArgs::Command(EventsCommand::List(a))) && !a.json && a.from is None && a.to is None
            && a.date is None && a.duration is None),
{
    match (prompt, command) {
        (Some(_), Some(_)) => Err("`--prompt` とサブコマンドは同時に使えません".to_string()),
        (Some(p), None) => Ok(ResolvedEventsArgs::Prompt { prompt: p, yes }),
        (None, c) => {
            if yes {
                return Err("`--yes` は `--prompt` と組み合わせて使います".to_string());
            }
            match c {
                Some(c) => Ok(ResolvedEventsArgs::Command(c)),
                None => Ok(
                    ResolvedEventsArgs::Command(
                        EventsCommand::List(
                            ListArgs { json: false, from: None, to: None, date: None, duration: None },
                        ),
                    ),
                ),
            }
        },
    }
}

} // verus!
