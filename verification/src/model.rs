//! Calendar events, patches applied to them and clones made of them.
use vstd::prelude::*;
use crate::text::{chars_of, push_str, string_of};
use crate::time::{valid_moment, TimeDelta, Timestamp};

verus! {

/// Who may see an event.
#[derive(Clone, Copy, Debug, PartialEq, Eq, Structural)]
pub enum EventVisibility {
    Public,
    Private,
}

impl Default for EventVisibility {
    fn default() -> (r: EventVisibility)
        ensures
            r == EventVisibility::Public,
    {
        EventVisibility::Public
    }
}

/// One event on the calendar.
#[derive(Debug)]
pub struct CalendarEvent {
    pub id: String,
    pub title: String,
    pub description: Option<String>,
    pub starts_at: Timestamp,
    pub ends_at: Timestamp,
    pub attendees: Vec<String>,
    pub facility: Option<String>,
    pub calendar: Option<String>,
    pub visibility: EventVisibility,
    pub version: u64,
}

/// The input of a new event.
#[derive(Debug)]
pub struct NewEvent {
    pub title: String,
    pub description: Option<String>,
    pub starts_at: Timestamp,
    pub ends_at: Timestamp,
    pub attendees: Vec<String>,
    pub facility: Option<String>,
    pub calendar: Option<String>,
    pub visibility: EventVisibility,
}

/// The fields an update replaces; `None` keeps the field, and for optional
/// fields `Some(None)` clears it.
#[derive(Debug)]
pub struct EventPatch {
    pub title: Option<String>,
    pub description: Option<Option<String>>,
    pub starts_at: Option<Timestamp>,
    pub ends_at: Option<Timestamp>,
    pub attendees: Option<Vec<String>>,
    pub facility: Option<Option<String>>,
    pub calendar: Option<Option<String>>,
}

/// What a clone changes from the event it copies.
#[derive(Debug)]
pub struct CloneOverrides {
    pub title: Option<String>,
    pub title_suffix: Option<String>,
    pub starts_at: Option<Timestamp>,
    pub ends_at: Option<Timestamp>,
}

/// The message of an empty or reversed time range.
pub open spec fn time_range_message() -> Seq<char> {
    "終了日時は開始日時より後である必要があります"@
}

/// `ends_at` lies strictly after `starts_at`.
pub open spec fn valid_range(starts_at: Timestamp, ends_at: Timestamp) -> bool {
    ends_at.instant() > starts_at.instant()
}

/// Refuses a range whose end does not lie after its start.
pub fn validate_time_range(starts_at: Timestamp, ends_at: Timestamp) -> (r: Result<(), String>)
    ensures
        r is Ok <==> valid_range(starts_at, ends_at),
        r matches Err(m) ==> m@ == time_range_message(),
{
    if !starts_at.before(&ends_at) {
        return Err("終了日時は開始日時より後である必要があります".to_string());
    }
    Ok(())
}

/// A copy of an optional string.
pub fn clone_opt(s: &Option<String>) -> (r: Option<String>)
    ensures
        r == *s,
{
    match s {
        Some(v) => Some(v.clone()),
        None => None,
    }
}

/// A copy of a list of strings.
pub fn clone_strings(v: &Vec<String>) -> (r: Vec<String>)
    ensures
        r@ == v@,
{
    let mut out: Vec<String> = Vec::new();
    let mut i: usize = 0;
    while i < v.len()
        invariant
            i <= v.len(),
            out@ == v@.take(i as int),
        decreases v.len() - i,
    {
        out.push(v[i].clone());
        i = i + 1;
        assert(out@ =~= v@.take(i as int));
    }
    assert(v@.take(v.len() as int) =~= v@);
    out
}

/// The event after a patch, before its version is counted up.
pub open spec fn patched(e: CalendarEvent, p: EventPatch) -> CalendarEvent {
    CalendarEvent {
        id: e.id,
        title: if p.title is Some {
            p.title->0
        } else {
            e.title
        },
        description: if p.description is Some {
            p.description->0
        } else {
            e.description
        },
        starts_at: if p.starts_at is Some {
            p.starts_at->0
        } else {
            e.starts_at
        },
        ends_at: if p.ends_at is Some {
            p.ends_at->0
        } else {
            e.ends_at
        },
        attendees: if p.attendees is Some {
            p.attendees->0
        } else {
            e.attendees
        },
        facility: if p.facility is Some {
            p.facility->0
        } else {
            e.facility
        },
        calendar: if p.calendar is Some {
            p.calendar->0
        } else {
            e.calendar
        },
        visibility: e.visibility,
        version: e.version,
    }
}

/// Two events agree on every field but the version.
pub open spec fn same_but_version(a: CalendarEvent, b: CalendarEvent) -> bool {
    &&& a.id == b.id
    &&& a.title == b.title
    &&& a.description == b.description
    &&& a.starts_at == b.starts_at
    &&& a.ends_at == b.ends_at
    &&& a.attendees@ == b.attendees@
    &&& a.facility == b.facility
    &&& a.calendar == b.calendar
    &&& a.visibility == b.visibility
}

impl CalendarEvent {
    /// The event's short identifier (see `short_id_from_event_id`).
    pub fn short_id(&self) -> (r: String)
        ensures
            r@ == crate::id::short_id_spec(self.id@),
    {
        crate::id::short_id_from_event_id(self.id.as_str())
    }

    /// A field-by-field copy.
    pub fn duplicate(&self) -> (r: CalendarEvent)
        ensures
            same_but_version(r, *self),
            r.version == self.version,
    {
        CalendarEvent {
            id: self.id.clone(),
            title: self.title.clone(),
            description: clone_opt(&self.description),
            starts_at: self.starts_at,
            ends_at: self.ends_at,
            attendees: clone_strings(&self.attendees),
            facility: clone_opt(&self.facility),
            calendar: clone_opt(&self.calendar),
            visibility: self.visibility,
            version: self.version,
        }
    }

    /// The event with the patch applied and its version counted up; refused
    /// when the resulting end does not lie after the resulting start.
    pub fn apply_patch(&self, patch: &EventPatch) -> (r: Result<CalendarEvent, String>)
        requires
            self.version < u64::MAX,
        ensures
            r is Ok <==> valid_range(patched(*self, *patch).starts_at, patched(*self, *patch).ends_at),
            r matches Ok(u) ==> same_but_version(u, patched(*self, *patch)) && u.version
                == self.version + 1,
            r matches Err(m) ==> m@ == time_range_message(),
    {
        let mut updated = self.duplicate();
        if let Some(title) = &patch.title {
            updated.title = title.clone();
        }
        if let Some(description) = &patch.description {
            updated.description = clone_opt(description);
        }
        if let Some(starts_at) = patch.starts_at {
            updated.starts_at = starts_at;
        }
        if let Some(ends_at) = patch.ends_at {
            updated.ends_at = ends_at;
        }
        if let Some(attendees) = &patch.attendees {
            updated.attendees = clone_strings(attendees);
        }
        if let Some(facility) = &patch.facility {
            updated.facility = clone_opt(facility);
        }
        if let Some(calendar) = &patch.calendar {
            updated.calendar = clone_opt(calendar);
        }
        match validate_time_range(updated.starts_at, updated.ends_at) {
            Ok(()) => {},
            Err(e) => return Err(e),
        }
        updated.version = updated.version + 1;
        Ok(updated)
    }

    /// `ends_at - starts_at`.
    pub fn duration(&self) -> (r: TimeDelta)
        ensures
            r.nanos() == self.ends_at.instant() - self.starts_at.instant(),
    {
        self.ends_at.since(&self.starts_at)
    }

    /// The event overlaps the window: it starts before the upper bound and
    /// ends after the lower bound, an absent bound admitting everything.
    pub fn overlaps(&self, from: Option<Timestamp>, to: Option<Timestamp>) -> (r: bool)
        ensures
            r == overlaps_window(*self, from, to),
    {
        let starts_before_upper = match to {
            Some(upper) => self.starts_at.before(&upper),
            None => true,
        };
        let ends_after_lower = match from {
            Some(lower) => lower.before(&self.ends_at),
            None => true,
        };
        starts_before_upper && ends_after_lower
    }

    /// The event is under way at `now`.
    pub fn is_ongoing(&self, now: Timestamp) -> (r: bool)
        ensures
            r == (self.starts_at.instant() <= now.instant() && now.instant()
                < self.ends_at.instant()),
    {
        !now.before(&self.starts_at) && now.before(&self.ends_at)
    }

    /// The start and end of a clone, before its range is checked.
    pub open spec fn clone_window(self, o: CloneOverrides) -> (int, int) {
        let d = self.ends_at.instant() - self.starts_at.instant();
        match (o.starts_at, o.ends_at) {
            (Some(s), Some(e)) => (s.instant(), e.instant()),
            (Some(s), None) => (s.instant(), s.instant() + d),
            (None, Some(e)) => (e.instant() - d, e.instant()),
            (None, None) => (self.starts_at.instant(), self.ends_at.instant()),
        }
    }

    /// The UTC offsets of a clone's start and end: a bound computed from
    /// a given one keeps that one's offset.
    pub open spec fn clone_offsets(self, o: CloneOverrides) -> (int, int) {
        match (o.starts_at, o.ends_at) {
            (Some(s), Some(e)) => (s.offset(), e.offset()),
            (Some(s), None) => (s.offset(), s.offset()),
            (None, Some(e)) => (e.offset(), e.offset()),
            (None, None) => (self.starts_at.offset(), self.ends_at.offset()),
        }
    }

    /// The title of a clone.
    pub open spec fn clone_title(self, o: CloneOverrides) -> Seq<char> {
        if o.title is Some {
            o.title->0@
        } else if o.title_suffix is Some {
            self.title@ + o.title_suffix->0@
        } else {
            self.title@
        }
    }

    /// A copy of the event under a new identifier, version 1, with the
    /// overrides applied: a start or end given alone keeps the event's
    /// duration. Refused when the resulting end does not lie after its start.
    pub fn clone_with_overrides(&self, overrides: &CloneOverrides, new_id: String) -> (r: Result<
        CalendarEvent,
        String,
    >)
        requires
            (overrides.starts_at is Some && overrides.ends_at is None) ==> valid_moment(
                overrides.starts_at->0.instant() + (self.ends_at.instant()
                    - self.starts_at.instant()),
                overrides.starts_at->0.offset(),
            ),
            (overrides.ends_at is Some && overrides.starts_at is None) ==> valid_moment(
                overrides.ends_at->0.instant() - (self.ends_at.instant()
                    - self.starts_at.instant()),
                overrides.ends_at->0.offset(),
            ),
        ensures
            r is Ok <==> self.clone_window(*overrides).0 < self.clone_window(*overrides).1,
            r matches Ok(c) ==> {
                &&& c.id == new_id
                &&& (overrides.starts_at matches Some(s) ==> c.starts_at == s)
                &&& (overrides.ends_at matches Some(t) ==> c.ends_at == t)
                &&& c.title@ == self.clone_title(*overrides)
                &&& c.starts_at.instant() == self.clone_window(*overrides).0
                &&& c.ends_at.instant() == self.clone_window(*overrides).1
                &&& c.starts_at.offset() == self.clone_offsets(*overrides).0
                &&& c.ends_at.offset() == self.clone_offsets(*overrides).1
                &&& c.description == self.description
                &&& c.attendees@ == self.attendees@
                &&& c.facility == self.facility
                &&& c.calendar == self.calendar
                &&& c.visibility == self.visibility
                &&& c.version == 1
            },
            r matches Err(m) ==> m@ == time_range_message(),
    {
        let duration = self.duration();
        let starts_at = match (overrides.starts_at, overrides.ends_at) {
            (Some(starts_at), Some(ends_at)) => {
                match validate_time_range(starts_at, ends_at) {
                    Ok(()) => {},
                    Err(e) => return Err(e),
                }
                starts_at
            },
            (Some(starts_at), None) => starts_at,
            (None, Some(ends_at)) => ends_at.sub(duration),
            (None, None) => self.starts_at,
        };
        let ends_at = match (overrides.starts_at, overrides.ends_at) {
            (Some(_), Some(ends_at)) => ends_at,
            (Some(starts_at), None) => starts_at.add(duration),
            (None, Some(ends_at)) => ends_at,
            (None, None) => self.ends_at,
        };
        match validate_time_range(starts_at, ends_at) {
            Ok(()) => {},
            Err(e) => return Err(e),
        }
        let title = if let Some(title) = &overrides.title {
            title.clone()
        } else if let Some(suffix) = &overrides.title_suffix {
            let mut v = chars_of(self.title.as_str());
            push_str(&mut v, suffix.as_str());
            string_of(v.as_slice())
        } else {
            self.title.clone()
        };
        Ok(
            CalendarEvent {
                id: new_id,
                title,
                description: clone_opt(&self.description),
                starts_at,
                ends_at,
                attendees: clone_strings(&self.attendees),
                facility: clone_opt(&self.facility),
                calendar: clone_opt(&self.calendar),
                visibility: self.visibility,
                version: 1,
            },
        )
    }
}

/// The event overlaps the window `[from, to)`.
pub open spec fn overlaps_window(e: CalendarEvent, from: Option<Timestamp>, to: Option<Timestamp>) -> bool {
    &&& (to matches Some(u) ==> e.starts_at.instant() < u.instant())
    &&& (from matches Some(l) ==> e.ends_at.instant() > l.instant())
}

impl NewEvent {
    /// Refuses an input whose end does not lie after its start.
    pub fn validate(&self) -> (r: Result<(), String>)
        ensures
            r is Ok <==> valid_range(self.starts_at, self.ends_at),
            r matches Err(m) ==> m@ == time_range_message(),
    {
        validate_time_range(self.starts_at, self.ends_at)
    }
}

impl EventPatch {
    /// The patch changes nothing.
    pub open spec fn is_empty_spec(self) -> bool {
        &&& self.title is None
        &&& self.description is None
        &&& self.starts_at is None
        &&& self.ends_at is None
        &&& self.attendees is None
        &&& self.facility is None
        &&& self.calendar is None
    }

    /// A patch that changes nothing.
    pub fn empty() -> (r: EventPatch)
        ensures
            r.is_empty_spec(),
    {
        EventPatch {
            title: None,
            description: None,
            starts_at: None,
            ends_at: None,
            attendees: None,
            facility: None,
            calendar: None,
        }
    }

    /// Whether the patch changes nothing.
    pub fn is_empty(&self) -> (r: bool)
        ensures
            r == self.is_empty_spec(),
    {
        self.title.is_none() && self.description.is_none() && self.starts_at.is_none()
            && self.ends_at.is_none() && self.attendees.is_none() && self.facility.is_none()
            && self.calendar.is_none()
    }
}

impl CloneOverrides {
    /// Overrides that change nothing but the identifier.
    pub fn none() -> (r: CloneOverrides)
        ensures
            r.title is None && r.title_suffix is None && r.starts_at is None && r.ends_at is None,
    {
        CloneOverrides { title: None, title_suffix: None, starts_at: None, ends_at: None }
    }
}

/// An empty patch changes nothing but the version.
pub proof fn law_empty_patch_keeps_event(e: CalendarEvent, p: EventPatch)
    requires
        p.is_empty_spec(),
    ensures
        same_but_version(patched(e, p), e),
{
}

/// Patching replaces exactly the fields the patch names, and patching the
/// result again with the same patch changes nothing more.
pub proof fn law_patch_idempotent(e: CalendarEvent, p: EventPatch)
    ensures
        same_but_version(patched(patched(e, p), p), patched(e, p)),
{
}

/// A clone given only a start, only an end, or neither keeps the duration of
/// the event it copies.
pub proof fn law_clone_keeps_duration(e: CalendarEvent, o: CloneOverrides)
    requires
        !(o.starts_at is Some && o.ends_at is Some),
    ensures
        e.clone_window(o).1 - e.clone_window(o).0 == e.ends_at.instant() - e.starts_at.instant(),
{
}

/// A clone starts at the start it is given and ends at the end it is
/// given, instant and offset alike; given both, its window is exactly
/// those two.
pub proof fn law_clone_takes_given_bounds(e: CalendarEvent, o: CloneOverrides)
    ensures
        o.starts_at matches Some(s) ==> e.clone_window(o).0 == s.instant() && e.clone_offsets(o).0
            == s.offset(),
        o.ends_at matches Some(t) ==> e.clone_window(o).1 == t.instant() && e.clone_offsets(o).1
            == t.offset(),
        (o.starts_at is Some && o.ends_at is Some) ==> e.clone_window(o) == (
        o.starts_at->0.instant(), o.ends_at->0.instant()),
{
}

} // verus!
