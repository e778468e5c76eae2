//! The calendar store: list windows, the in-memory event store of the
//! fixture backend, and what the list cache may answer.
use vstd::prelude::*;
use crate::model::{
    overlaps_window, patched, same_but_version, time_range_message, valid_range, CalendarEvent,
    CloneOverrides, EventPatch, NewEvent,
};
use crate::text::{chars_of, push_str, str_eq, string_of};
use crate::time::{valid_moment, TimeDelta, Timestamp};
use crate::view::text_lt;
use crate::datetime::{current_jst_midnight, is_jst_midnight};

verus! {

/// Which occurrences of a repeating event a change applies to.
#[derive(Clone, Copy, Debug, PartialEq, Eq, Structural)]
pub enum ApplyScope {
    This,
    After,
    All,
}

/// The window of a listing; an absent bound admits everything.
#[derive(Clone, Copy, Debug)]
pub struct ListQuery {
    pub from: Option<Timestamp>,
    pub to: Option<Timestamp>,
}

/// Seven days in nanoseconds.
pub open spec fn week_nanos() -> int {
    7 * 86_400_000_000_000int
}

/// A listing window filled out to a week: a lone bound gets the other a
/// week away, and no bound gives the week from the anchor.
pub open spec fn default_window(
    from: Option<Timestamp>,
    to: Option<Timestamp>,
    anchor: Timestamp,
) -> (int, int) {
    match (from, to) {
        (Some(f), Some(t)) => (f.instant(), t.instant()),
        (Some(f), None) => (f.instant(), f.instant() + week_nanos()),
        (None, Some(t)) => (t.instant() - week_nanos(), t.instant()),
        (None, None) => (anchor.instant(), anchor.instant() + week_nanos()),
    }
}

/// The UTC offsets of a filled window: a bound computed from another keeps
/// that one's offset.
pub open spec fn default_window_offsets(
    from: Option<Timestamp>,
    to: Option<Timestamp>,
    anchor: Timestamp,
) -> (int, int) {
    match (from, to) {
        (Some(f), Some(t)) => (f.offset(), t.offset()),
        (Some(f), None) => (f.offset(), f.offset()),
        (None, Some(t)) => (t.offset(), t.offset()),
        (None, None) => (anchor.offset(), anchor.offset()),
    }
}

/// The bounds computed from another lie in chrono's range.
pub open spec fn default_window_in_range(
    from: Option<Timestamp>,
    to: Option<Timestamp>,
    anchor: Timestamp,
) -> bool {
    match (from, to) {
        (Some(f), None) => valid_moment(f.instant() + week_nanos(), f.offset()),
        (None, Some(t)) => valid_moment(t.instant() - week_nanos(), t.offset()),
        (None, None) => valid_moment(anchor.instant() + week_nanos(), anchor.offset()),
        _ => true,
    }
}

impl ListQuery {
    /// The window with both bounds set, a week long where a bound was
    /// missing (from `anchor` where both were).
    pub fn with_default_window_from(self, anchor: Timestamp) -> (r: ListQuery)
        requires
            default_window_in_range(self.from, self.to, anchor),
        ensures
            r.from is Some && r.to is Some,
            (r.from->0.instant(), r.to->0.instant()) == default_window(self.from, self.to, anchor),
            (r.from->0.offset(), r.to->0.offset()) == default_window_offsets(
                self.from,
                self.to,
                anchor,
            ),
            self.from matches Some(f) ==> r.from == Some(f),
            self.to matches Some(t) ==> r.to == Some(t),
            (self.from is None && self.to is None) ==> r.from == Some(anchor),
    {
        let week = TimeDelta::week();
        match (self.from, self.to) {
            (Some(from), Some(to)) => ListQuery { from: Some(from), to: Some(to) },
            (Some(from), None) => ListQuery { from: Some(from), to: Some(from.add(week)) },
            (None, Some(to)) => ListQuery { from: Some(to.sub(week)), to: Some(to) },
            (None, None) => ListQuery { from: Some(anchor), to: Some(anchor.add(week)) },
        }
    }

    /// The window filled out to a week, from midnight today in JST where
    /// no bound is given; `None` where a bound would leave chrono's range.
    pub fn with_default_window(self) -> (r: Option<ListQuery>)
        ensures
            match (self.from, self.to) {
                (Some(f), Some(t)) => r == Some(self),
                (Some(f), None) => {
                    &&& r is Some <==> valid_moment(f.instant() + week_nanos(), f.offset())
                    &&& r matches Some(q) ==> (q.from == Some(f) && q.to is Some
                        && q.to->0.instant() == f.instant() + week_nanos() && q.to->0.offset()
                        == f.offset())
                },
                (None, Some(t)) => {
                    &&& r is Some <==> valid_moment(t.instant() - week_nanos(), t.offset())
                    &&& r matches Some(q) ==> (q.to == Some(t) && q.from is Some
                        && q.from->0.instant() == t.instant() - week_nanos() && q.from->0.offset()
                        == t.offset())
                },
                (None, None) => r matches Some(q) ==> {
                    &&& q.from is Some && is_jst_midnight(q.from->0)
                    &&& q.to is Some && q.to->0.instant() == q.from->0.instant() + week_nanos()
                    &&& q.to->0.offset() == q.from->0.offset()
                },
            },
    {
        let week = TimeDelta::week();
        match (self.from, self.to) {
            (Some(_), Some(_)) => Some(self),
            (Some(f), None) => match f.checked_add(week) {
                Some(t) => Some(ListQuery { from: Some(f), to: Some(t) }),
                None => None,
            },
            (None, Some(t)) => match t.checked_sub(week) {
                Some(f) => Some(ListQuery { from: Some(f), to: Some(t) }),
                None => None,
            },
            (None, None) => match current_jst_midnight() {
                Ok(m) => match m.checked_add(week) {
                    Some(t) => Some(ListQuery { from: Some(m), to: Some(t) }),
                    None => None,
                },
                Err(_) => None,
            },
        }
    }

    /// This window covers `other`: every bound of `other` lies within this
    /// one's, an absent bound here covering anything and an absent bound
    /// there only an absent one here.
    pub open spec fn covers(self, other: ListQuery) -> bool {
        &&& (self.from matches Some(a) ==> (other.from matches Some(b) && a.instant()
            <= b.instant()))
        &&& (self.to matches Some(a) ==> (other.to matches Some(b) && b.instant()
            <= a.instant()))
    }

    /// Whether this window covers `other`.
    pub fn contains(&self, other: &ListQuery) -> (r: bool)
        ensures
            r == self.covers(*other),
    {
        let lower = match (self.from, other.from) {
            (Some(a), Some(b)) => !b.before(&a),
            (Some(_), None) => false,
            (None, _) => true,
        };
        let upper = match (self.to, other.to) {
            (Some(a), Some(b)) => !a.before(&b),
            (Some(_), None) => false,
            (None, _) => true,
        };
        lower && upper
    }
}

// ---------------------------------------------------------------------
// Ordering and filtering of listings
// ---------------------------------------------------------------------
/// The listing order of the store: by start, then by title.
pub open spec fn start_title_lt(a: CalendarEvent, b: CalendarEvent) -> bool {
    ||| a.starts_at.instant() < b.starts_at.instant()
    ||| (a.starts_at.instant() == b.starts_at.instant() && text_lt(a.title@, b.title@))
}

/// `x` put into the ordered `s` after every event it does not sort before.
pub open spec fn insert_ordered(s: Seq<CalendarEvent>, x: CalendarEvent) -> Seq<CalendarEvent>
    decreases s.len(),
{
    if s.len() == 0 {
        seq![x]
    } else if start_title_lt(x, s[0]) {
        seq![x] + s
    } else {
        seq![s[0]] + insert_ordered(s.drop_first(), x)
    }
}

/// The events in listing order; equal keys keep their order (a stable sort).
pub open spec fn ordered(s: Seq<CalendarEvent>) -> Seq<CalendarEvent>
    decreases s.len(),
{
    if s.len() == 0 {
        Seq::empty()
    } else {
        insert_ordered(ordered(s.drop_last()), s.last())
    }
}

/// The events that overlap the window, in store order.
pub open spec fn in_window(s: Seq<CalendarEvent>, q: ListQuery) -> Seq<CalendarEvent>
    decreases s.len(),
{
    if s.len() == 0 {
        Seq::empty()
    } else if overlaps_window(s.last(), q.from, q.to) {
        in_window(s.drop_last(), q).push(s.last())
    } else {
        in_window(s.drop_last(), q)
    }
}

/// Two events agree on every field.
pub open spec fn same_event(a: CalendarEvent, b: CalendarEvent) -> bool {
    same_but_version(a, b) && a.version == b.version
}

/// Two lists of events agree position by position.
pub open spec fn same_events(a: Seq<CalendarEvent>, b: Seq<CalendarEvent>) -> bool {
    a.len() == b.len() && forall|i: int| 0 <= i < a.len() ==> same_event(#[trigger] a[i], b[i])
}

fn start_title_lt_exec(a: &CalendarEvent, b: &CalendarEvent) -> (r: bool)
    ensures
        r == start_title_lt(*a, *b),
{
    if a.starts_at.before(&b.starts_at) {
        return true;
    }
    if !a.starts_at.same_instant(&b.starts_at) {
        return false;
    }
    let ta = chars_of(a.title.as_str());
    let tb = chars_of(b.title.as_str());
    crate::view::text_lt_exec(ta.as_slice(), tb.as_slice())
}

proof fn lemma_insert_ordered_at(s: Seq<CalendarEvent>, x: CalendarEvent, p: int)
    requires
        0 <= p <= s.len(),
        forall|j: int| 0 <= j < p ==> !start_title_lt(x, #[trigger] s[j]),
        p == s.len() || start_title_lt(x, s[p]),
    ensures
        insert_ordered(s, x) == s.insert(p, x),
    decreases s.len(),
{
    if s.len() == 0 {
        assert(s.insert(p, x) =~= seq![x]);
    } else if p == 0 {
        assert(s.insert(0, x) =~= seq![x] + s);
    } else {
        assert(!start_title_lt(x, s[0]));
        let t = s.drop_first();
        assert forall|j: int| 0 <= j < p - 1 implies !start_title_lt(x, #[trigger] t[j]) by {
            assert(t[j] == s[j + 1]);
        }
        if p - 1 < t.len() {
            assert(t[p - 1] == s[p]);
        }
        lemma_insert_ordered_at(t, x, p - 1);
        assert(seq![s[0]] + t.insert(p - 1, x) =~= s.insert(p, x));
    }
}

/// The listing of the events: those overlapping the window, by start and then title.
pub open spec fn listing(s: Seq<CalendarEvent>, q: ListQuery) -> Seq<CalendarEvent> {
    ordered(in_window(s, q))
}

/// Copies of the events that overlap the window, in store order.
fn filter_window(events: &Vec<CalendarEvent>, q: &ListQuery) -> (r: Vec<CalendarEvent>)
    ensures
        same_events(r@, in_window(events@, *q)),
{
    let mut out: Vec<CalendarEvent> = Vec::new();
    let mut i: usize = 0;
    while i < events.len()
        invariant
            i <= events@.len(),
            same_events(out@, in_window(events@.take(i as int), *q)),
        decreases events.len() - i,
    {
        proof {
            assert(events@.take(i + 1).drop_last() =~= events@.take(i as int));
            assert(events@.take(i + 1).last() == events@[i as int]);
        }
        if events[i].overlaps(q.from, q.to) {
            let c = events[i].duplicate();
            out.push(c);
        }
        i = i + 1;
    }
    assert(events@.take(events@.len() as int) =~= events@);
    out
}

/// Copies of the events in listing order.
fn order_events(events: &Vec<CalendarEvent>, Ghost(orig): Ghost<Seq<CalendarEvent>>) -> (r: Vec<
    CalendarEvent,
>)
    requires
        same_events(events@, orig),
    ensures
        same_events(r@, ordered(orig)),
{
    let mut sorted: Vec<CalendarEvent> = Vec::new();
    let mut i: usize = 0;
    while i < events.len()
        invariant
            i <= events@.len(),
            same_events(events@, orig),
            same_events(sorted@, ordered(orig.take(i as int))),
        decreases events.len() - i,
    {
        let e = events[i].duplicate();
        let ghost o = orig[i as int];
        assert(same_event(events@[i as int], o));
        let ghost s_orig = ordered(orig.take(i as int));
        let mut pos: usize = 0;
        while pos < sorted.len() && !start_title_lt_exec(&e, &sorted[pos])
            invariant
                pos <= sorted@.len(),
                same_events(sorted@, s_orig),
                same_event(e, o),
                forall|j: int| 0 <= j < pos ==> !start_title_lt(o, #[trigger] s_orig[j]),
            decreases sorted.len() - pos,
        {
            assert(same_event(sorted@[pos as int], s_orig[pos as int]));
            pos = pos + 1;
        }
        proof {
            if pos < sorted@.len() {
                assert(same_event(sorted@[pos as int], s_orig[pos as int]));
            }
            lemma_insert_ordered_at(s_orig, o, pos as int);
            assert(orig.take(i + 1).drop_last() =~= orig.take(i as int));
            assert(orig.take(i + 1).last() == o);
        }
        let ghost before = sorted@;
        sorted.insert(pos, e);
        proof {
            let target = s_orig.insert(pos as int, o);
            assert forall|j: int| 0 <= j < sorted@.len() implies same_event(
                #[trigger] sorted@[j],
                target[j],
            ) by {
                if j < pos {
                    assert(sorted@[j] == before[j]);
                } else if j > pos {
                    assert(sorted@[j] == before[j - 1]);
                }
            }
        }
        i = i + 1;
    }
    assert(orig.take(events@.len() as int) =~= orig);
    sorted
}

// ---------------------------------------------------------------------
// The fixture store
// ---------------------------------------------------------------------
/// A fresh random event identifier: `uuid::Uuid::new_v4()` in its
/// hyphenated text form, 36 characters long. Which identifier comes out is
/// left open.
#[verifier::external_body]
fn new_event_id() -> (r: String)
    ensures
        r@.len() == 36,
{
    uuid::Uuid::new_v4().to_string()
}

/// The events of the fixture backend, in the order they were stored.
#[derive(Debug)]
pub struct FixtureStore {
    pub events: Vec<CalendarEvent>,
}

/// The first position of an event with the identifier.
pub open spec fn index_of_id(events: Seq<CalendarEvent>, id: Seq<char>) -> Option<int> {
    if exists|k: int| 0 <= k < events.len() && events[k].id@ == id {
        Some(
            choose|k: int|
                0 <= k < events.len() && events[k].id@ == id && forall|j: int|
                    0 <= j < k ==> events[j].id@ != id,
        )
    } else {
        None
    }
}

/// The refusal for an unknown identifier.
pub open spec fn not_found_message(id: Seq<char>) -> Seq<char> {
    "イベントが見つかりません: "@ + id
}

/// The refusal of a patch that changes nothing.
pub open spec fn empty_patch_message() -> Seq<char> {
    "更新対象がありません"@
}

/// The event made from an input: its fields, the identifier, version 1.
pub open spec fn created_from(e: CalendarEvent, input: NewEvent, id: Seq<char>) -> bool {
    &&& e.id@ == id
    &&& e.title == input.title
    &&& e.description == input.description
    &&& e.starts_at == input.starts_at
    &&& e.ends_at == input.ends_at
    &&& e.attendees@ == input.attendees@
    &&& e.facility == input.facility
    &&& e.calendar == input.calendar
    &&& e.visibility == input.visibility
    &&& e.version == 1
}

impl FixtureStore {
    /// A store with no events.
    pub fn new() -> (r: FixtureStore)
        ensures
            r.events@.len() == 0,
    {
        FixtureStore { events: Vec::new() }
    }

    /// Copies of the events overlapping the window, by start and then title.
    pub fn list_events(&self, query: &ListQuery) -> (r: Vec<CalendarEvent>)
        ensures
            same_events(r@, listing(self.events@, *query)),
    {
        let filtered = filter_window(&self.events, query);
        order_events(&filtered, Ghost(in_window(self.events@, *query)))
    }

    /// The position of the first event with the identifier.
    pub fn event_index(&self, id: &str) -> (r: Result<usize, String>)
        ensures
            match index_of_id(self.events@, id@) {
                Some(k) => 0 <= k < self.events@.len() && r == Ok::<usize, String>(k as usize),
                None => r matches Err(m) && m@ == not_found_message(id@),
            },
            r matches Ok(k) ==> k < self.events@.len() && index_of_id(self.events@, id@) == Some(
                k as int,
            ),
    {
        let mut i: usize = 0;
        while i < self.events.len()
            invariant
                i <= self.events@.len(),
                forall|j: int| 0 <= j < i ==> self.events@[j].id@ != id@,
            decreases self.events.len() - i,
        {
            if str_eq(self.events[i].id.as_str(), id) {
                proof {
                    let k = choose|k: int|
                        0 <= k < self.events@.len() && self.events@[k].id@ == id@ && forall|j: int|
                            0 <= j < k ==> self.events@[j].id@ != id@;
                    assert(k == i as int) by {
                        if k < i {
                            assert(self.events@[k].id@ != id@);
                        }
                        if k > i {
                            assert(self.events@[i as int].id@ != id@);
                        }
                    }
                }
                return Ok(i);
            }
            i = i + 1;
        }
        let mut m = chars_of("イベントが見つかりません: ");
        push_str(&mut m, id);
        Err(string_of(m.as_slice()))
    }

    /// Stores a new event under the identifier, version 1; refused when
    /// its end does not lie after its start.
    pub fn add_event_with_id(&mut self, input: NewEvent, id: String) -> (r: Result<
        CalendarEvent,
        String,
    >)
        ensures
            r is Ok <==> valid_range(input.starts_at, input.ends_at),
            r matches Ok(e) ==> {
                &&& created_from(e, input, id@)
                &&& final(self).events@.len() == old(self).events@.len() + 1
                &&& final(self).events@.take(old(self).events@.len() as int) == old(self).events@
                &&& same_event(final(self).events@.last(), e)
            },
            r matches Err(m) ==> m@ == time_range_message() && final(self).events@ == old(self).events@,
    {
        match input.validate() {
            Ok(()) => {},
            Err(e) => return Err(e),
        }
        let event = CalendarEvent {
            id,
            title: input.title,
            description: input.description,
            starts_at: input.starts_at,
            ends_at: input.ends_at,
            attendees: input.attendees,
            facility: input.facility,
            calendar: input.calendar,
            visibility: input.visibility,
            version: 1,
        };
        let ghost before = self.events@;
        self.events.push(event.duplicate());
        assert(self.events@.take(before.len() as int) =~= before);
        Ok(event)
    }

    /// Stores a new event under a fresh random identifier.
    pub fn add_event(&mut self, input: NewEvent) -> (r: Result<CalendarEvent, String>)
        ensures
            r is Ok <==> valid_range(input.starts_at, input.ends_at),
            r matches Ok(e) ==> {
                &&& created_from(e, input, e.id@)
                &&& e.id@.len() == 36
                &&& final(self).events@.len() == old(self).events@.len() + 1
                &&& final(self).events@.take(old(self).events@.len() as int) == old(self).events@
                &&& same_event(final(self).events@.last(), e)
            },
            r matches Err(m) ==> m@ == time_range_message() && final(self).events@ == old(self).events@,
    {
        let id = new_event_id();
        self.add_event_with_id(input, id)
    }

    /// Applies a patch to the first event with the identifier, counting its
    /// version up. Refused for a patch that changes nothing, an unknown
    /// identifier, or a resulting end that does not lie after the start;
    /// a refused update changes nothing.
    pub fn update_event(&mut self, id: &str, patch: &EventPatch) -> (r: Result<
        CalendarEvent,
        String,
    >)
        requires
            forall|i: int| 0 <= i < old(self).events@.len() ==> #[trigger] old(self).events@[i].version
                < u64::MAX,
        ensures
            patch.is_empty_spec() ==> (r matches Err(m) && m@ == empty_patch_message()),
            !patch.is_empty_spec() ==> match index_of_id(old(self).events@, id@) {
                None => (r matches Err(m) && m@ == not_found_message(id@)),
                Some(k) => {
                    let e = old(self).events@[k];
                    let p = patched(e, *patch);
                    &&& r is Ok <==> valid_range(p.starts_at, p.ends_at)
                    &&& r matches Err(m) ==> m@ == time_range_message()
                    &&& r matches Ok(u) ==> {
                        &&& same_but_version(u, p)
                        &&& u.version == e.version + 1
                        &&& final(self).events@.len() == old(self).events@.len()
                        &&& same_event(final(self).events@[k], u)
                        &&& forall|j: int|
                            0 <= j < old(self).events@.len() && j != k ==> final(self).events@[j]
                                == old(self).events@[j]
                    }
                },
            },
            r is Err ==> final(self).events@ == old(self).events@,
    {
        if patch.is_empty() {
            return Err("更新対象がありません".to_string());
        }
        let index = match self.event_index(id) {
            Ok(k) => k,
            Err(e) => return Err(e),
        };
        let updated = match self.events[index].apply_patch(patch) {
            Ok(u) => u,
            Err(e) => return Err(e),
        };
        self.events.set(index, updated.duplicate());
        Ok(updated)
    }

    /// Stores a copy of the first event with the identifier under a new
    /// identifier, with the overrides applied (see `clone_with_overrides`).
    pub fn clone_event_with_id(&mut self, id: &str, overrides: &CloneOverrides, new_id: String) -> (r: Result<
        CalendarEvent,
        String,
    >)
        requires
            index_of_id(old(self).events@, id@) matches Some(k) ==> {
                let e = old(self).events@[k];
                &&& (overrides.starts_at is Some && overrides.ends_at is None) ==> valid_moment(
                    overrides.starts_at->0.instant() + (e.ends_at.instant()
                        - e.starts_at.instant()),
                    overrides.starts_at->0.offset(),
                )
                &&& (overrides.ends_at is Some && overrides.starts_at is None) ==> valid_moment(
                    overrides.ends_at->0.instant() - (e.ends_at.instant()
                        - e.starts_at.instant()),
                    overrides.ends_at->0.offset(),
                )
            },
        ensures
            index_of_id(old(self).events@, id@) is None ==> (r matches Err(m) && m@
                == not_found_message(id@)),
            index_of_id(old(self).events@, id@) matches Some(k) ==> {
                let e = old(self).events@[k];
                let w = e.clone_window(*overrides);
                &&& r is Ok <==> w.0 < w.1
                &&& r matches Err(m) ==> m@ == time_range_message()
                &&& r matches Ok(c) ==> {
                    &&& c.id == new_id
                    &&& c.title@ == e.clone_title(*overrides)
                    &&& c.starts_at.instant() == w.0
                    &&& c.ends_at.instant() == w.1
                    &&& c.starts_at.offset() == e.clone_offsets(*overrides).0
                    &&& c.ends_at.offset() == e.clone_offsets(*overrides).1
                    &&& c.description == e.description
                    &&& c.attendees@ == e.attendees@
                    &&& c.facility == e.facility
                    &&& c.calendar == e.calendar
                    &&& c.visibility == e.visibility
                    &&& c.version == 1
                    &&& final(self).events@.len() == old(self).events@.len() + 1
                    &&& final(self).events@.take(old(self).events@.len() as int) == old(self).events@
                    &&& same_event(final(self).events@.last(), c)
                }
            },
            r is Err ==> final(self).events@ == old(self).events@,
    {
        let index = match self.event_index(id) {
            Ok(k) => k,
            Err(e) => return Err(e),
        };
        let cloned = match self.events[index].clone_with_overrides(overrides, new_id) {
            Ok(c) => c,
            Err(e) => return Err(e),
        };
        let ghost before = self.events@;
        self.events.push(cloned.duplicate());
        assert(self.events@.take(before.len() as int) =~= before);
        Ok(cloned)
    }

    /// Stores a copy of an event under a fresh random identifier.
    pub fn clone_event(&mut self, id: &str, overrides: &CloneOverrides) -> (r: Result<
        CalendarEvent,
        String,
    >)
        requires
            index_of_id(old(self).events@, id@) matches Some(k) ==> {
                let e = old(self).events@[k];
                &&& (overrides.starts_at is Some && overrides.ends_at is None) ==> valid_moment(
                    overrides.starts_at->0.instant() + (e.ends_at.instant()
                        - e.starts_at.instant()),
                    overrides.starts_at->0.offset(),
                )
                &&& (overrides.ends_at is Some && overrides.starts_at is None) ==> valid_moment(
                    overrides.ends_at->0.instant() - (e.ends_at.instant()
                        - e.starts_at.instant()),
                    overrides.ends_at->0.offset(),
                )
            },
        ensures
            index_of_id(old(self).events@, id@) is None ==> (r matches Err(m) && m@
                == not_found_message(id@)),
            index_of_id(old(self).events@, id@) matches Some(k) ==> {
                let e = old(self).events@[k];
                let w = e.clone_window(*overrides);
                &&& r is Ok <==> w.0 < w.1
                &&& r matches Err(m) ==> m@ == time_range_message()
                &&& r matches Ok(c) ==> {
                    &&& c.id@.len() == 36
                    &&& c.title@ == e.clone_title(*overrides)
                    &&& c.starts_at.instant() == w.0
                    &&& c.ends_at.instant() == w.1
                    &&& c.starts_at.offset() == e.clone_offsets(*overrides).0
                    &&& c.ends_at.offset() == e.clone_offsets(*overrides).1
                    &&& c.description == e.description
                    &&& c.attendees@ == e.attendees@
                    &&& c.facility == e.facility
                    &&& c.calendar == e.calendar
                    &&& c.visibility == e.visibility
                    &&& c.version == 1
                    &&& final(self).events@.len() == old(self).events@.len() + 1
                    &&& final(self).events@.take(old(self).events@.len() as int) == old(self).events@
                    &&& same_event(final(self).events@.last(), c)
                }
            },
            r is Err ==> final(self).events@ == old(self).events@,
    {
        let new_id = new_event_id();
        self.clone_event_with_id(id, overrides, new_id)
    }

    /// Removes the first event with the identifier and hands it back.
    pub fn delete_event(&mut self, id: &str) -> (r: Result<CalendarEvent, String>)
        ensures
            match index_of_id(old(self).events@, id@) {
                Some(k) => r == Ok::<CalendarEvent, String>(old(self).events@[k]) && final(self).events@ == old(self).events@.remove(k),
                None => r matches Err(m) && m@ == not_found_message(id@) && final(self).events@
                    == old(self).events@,
            },
    {
        let index = match self.event_index(id) {
            Ok(k) => k,
            Err(e) => return Err(e),
        };
        Ok(self.events.remove(index))
    }
}

// ---------------------------------------------------------------------
// The list cache
// ---------------------------------------------------------------------
/// How long a cached listing stays usable, in seconds.
pub const CACHE_TTL_SECONDS: u64 = 3600;

/// What the list cache answers a query with: nothing when caching is off,
/// when the cache's age is unknown or an hour or more, or when the cached
/// window does not cover the query; else the cached events that overlap
/// the query's window.
pub fn cached_listing(
    disabled: bool,
    cached_query: &ListQuery,
    cached_events: &Vec<CalendarEvent>,
    elapsed_seconds: Option<u64>,
    query: &ListQuery,
) -> (r: Option<Vec<CalendarEvent>>)
    ensures
        r is Some <==> (!disabled && (elapsed_seconds matches Some(s) && s < CACHE_TTL_SECONDS)
            && cached_query.covers(*query)),
        r matches Some(v) ==> same_events(v@, in_window(cached_events@, *query)),
{
    if disabled {
        return None;
    }
    match elapsed_seconds {
        Some(s) => if s < CACHE_TTL_SECONDS && cached_query.contains(query) {
            Some(filter_window(cached_events, query))
        } else {
            None
        },
        None => None,
    }
}

/// A listing kept by the list cache: its window and its events.
#[derive(Debug)]
pub struct CachedListing {
    pub query: ListQuery,
    pub events: Vec<CalendarEvent>,
}

/// The list cache in front of a backend: switched off, or holding at most
/// the last listing it was given.
#[derive(Debug)]
pub struct ListCache {
    pub disabled: bool,
    pub entry: Option<CachedListing>,
}

/// What the cache answers a query with, given the age of its listing:
/// nothing when it is off, empty, an hour old or older (or of unknown
/// age), or when its window does not cover the query; else its events that
/// overlap the query's window.
pub open spec fn cache_answer(c: ListCache, q: ListQuery, elapsed_seconds: Option<u64>) -> Option<
    Seq<CalendarEvent>,
> {
    match c.entry {
        Some(e) => if !c.disabled && (elapsed_seconds matches Some(s) && s < CACHE_TTL_SECONDS)
            && e.query.covers(q) {
            Some(in_window(e.events@, q))
        } else {
            None
        },
        None => None,
    }
}

/// `after` is the cache `before` once a listing of `events` for `query`
/// was handed to it: kept unless the cache is off.
pub open spec fn cache_stored(
    before: ListCache,
    after: ListCache,
    query: ListQuery,
    events: Seq<CalendarEvent>,
) -> bool {
    &&& after.disabled == before.disabled
    &&& before.disabled ==> after.entry == before.entry
    &&& !before.disabled ==> (after.entry matches Some(e) && e.query == query && e.events@
        == events)
}

/// `after` is the cache `before` once a change went through the backend:
/// a successful change drops the kept listing.
pub open spec fn cache_changed(before: ListCache, after: ListCache, succeeded: bool) -> bool {
    &&& after.disabled == before.disabled
    &&& succeeded ==> after.entry is None
    &&& !succeeded ==> after.entry == before.entry
}

impl ListCache {
    /// The cache's answer for `query`, its listing being `elapsed_seconds`
    /// old; `None` asks the backend.
    pub fn lookup(&self, query: &ListQuery, elapsed_seconds: Option<u64>) -> (r: Option<
        Vec<CalendarEvent>,
    >)
        ensures
            match cache_answer(*self, *query, elapsed_seconds) {
                Some(v) => r matches Some(x) && same_events(x@, v),
                None => r is None,
            },
    {
        match &self.entry {
            Some(e) => cached_listing(self.disabled, &e.query, &e.events, elapsed_seconds, query),
            None => None,
        }
    }

    /// Keeps the listing the backend gave for `query`, unless the cache is
    /// off.
    pub fn store(&mut self, query: ListQuery, events: Vec<CalendarEvent>)
        ensures
            cache_stored(*old(self), *final(self), query, events@),
    {
        if !self.disabled {
            self.entry = Some(CachedListing { query, events });
        }
    }

    /// After a change through the backend: a successful one drops the kept
    /// listing. Says whether it was dropped.
    pub fn after_change(&mut self, succeeded: bool) -> (dropped: bool)
        ensures
            cache_changed(*old(self), *final(self), succeeded),
            dropped == succeeded,
    {
        if succeeded {
            self.entry = None;
        }
        succeeded
    }
}

/// A listing kept less than an hour ago answers every query whose window
/// it covers, with its events in that window, so the backend is not asked.
pub proof fn law_cache_hit_on_covered_query(
    before: ListCache,
    after: ListCache,
    q1: ListQuery,
    events: Seq<CalendarEvent>,
    q2: ListQuery,
    elapsed: u64,
)
    requires
        cache_stored(before, after, q1, events),
        !before.disabled,
        q1.covers(q2),
        elapsed < CACHE_TTL_SECONDS,
    ensures
        cache_answer(after, q2, Some(elapsed)) == Some(in_window(events, q2)),
{
}

/// After a successful change the cache answers nothing, so the next
/// listing asks the backend.
pub proof fn law_change_drops_cached_listing(
    before: ListCache,
    after: ListCache,
    q: ListQuery,
    elapsed: Option<u64>,
)
    requires
        cache_changed(before, after, true),
    ensures
        cache_answer(after, q, elapsed) is None,
{
}

/// A cache that is off never answers, whatever it is handed.
pub proof fn law_disabled_cache_never_answers(
    before: ListCache,
    after: ListCache,
    q1: ListQuery,
    events: Seq<CalendarEvent>,
    q2: ListQuery,
    elapsed: Option<u64>,
)
    requires
        before.disabled,
        cache_stored(before, after, q1, events),
    ensures
        cache_answer(before, q2, elapsed) is None,
        cache_answer(after, q2, elapsed) is None,
{
}

// ---------------------------------------------------------------------
// Laws of the store and the cache
// ---------------------------------------------------------------------
proof fn lemma_text_lt_asymmetric(a: Seq<char>, b: Seq<char>)
    ensures
        text_lt(a, b) ==> !text_lt(b, a),
    decreases a.len(),
{
    if a.len() > 0 && b.len() > 0 && a[0] == b[0] {
        lemma_text_lt_asymmetric(a.drop_first(), b.drop_first());
    }
}

proof fn lemma_start_title_asymmetric(a: CalendarEvent, b: CalendarEvent)
    ensures
        start_title_lt(a, b) ==> !start_title_lt(b, a),
{
    lemma_text_lt_asymmetric(a.title@, b.title@);
}

/// No event sorts strictly before the one just before it.
pub open spec fn in_listing_order(s: Seq<CalendarEvent>) -> bool {
    forall|i: int| 0 <= i < s.len() - 1 ==> !start_title_lt(#[trigger] s[i + 1], s[i])
}

proof fn lemma_insert_ordered_shape(s: Seq<CalendarEvent>, x: CalendarEvent)
    ensures
        insert_ordered(s, x).len() == s.len() + 1,
        insert_ordered(s, x)[0] == x || (s.len() > 0 && insert_ordered(s, x)[0] == s[0]),
        forall|e: CalendarEvent| #[trigger] insert_ordered(s, x).contains(e) <==> (e == x
            || s.contains(e)),
    decreases s.len(),
{
    if s.len() > 0 && !start_title_lt(x, s[0]) {
        lemma_insert_ordered_shape(s.drop_first(), x);
        let t = insert_ordered(s.drop_first(), x);
        assert(insert_ordered(s, x) == seq![s[0]] + t);
        assert forall|e: CalendarEvent| #[trigger] insert_ordered(s, x).contains(e) <==> (e == x
            || s.contains(e)) by {
            if (seq![s[0]] + t).contains(e) {
                let k = choose|k: int| 0 <= k < (seq![s[0]] + t).len() && (seq![s[0]] + t)[k] == e;
                if k > 0 {
                    assert(t[k - 1] == e);
                    assert(t.contains(e));
                    if e != x {
                        let j = choose|j: int| 0 <= j < s.drop_first().len() && s.drop_first()[j] == e;
                        assert(s[j + 1] == e);
                    }
                }
            }
            if e == x {
                assert(t.contains(e));
                let k = choose|k: int| 0 <= k < t.len() && t[k] == e;
                assert((seq![s[0]] + t)[k + 1] == e);
            } else if s.contains(e) {
                let j = choose|j: int| 0 <= j < s.len() && s[j] == e;
                if j == 0 {
                    assert((seq![s[0]] + t)[0] == e);
                } else {
                    assert(s.drop_first()[j - 1] == e);
                    assert(t.contains(e));
                    let k = choose|k: int| 0 <= k < t.len() && t[k] == e;
                    assert((seq![s[0]] + t)[k + 1] == e);
                }
            }
        }
    } else if s.len() > 0 {
        assert(insert_ordered(s, x) == seq![x] + s);
        assert forall|e: CalendarEvent| #[trigger] insert_ordered(s, x).contains(e) <==> (e == x
            || s.contains(e)) by {
            if (seq![x] + s).contains(e) {
                let k = choose|k: int| 0 <= k < (seq![x] + s).len() && (seq![x] + s)[k] == e;
                if k > 0 {
                    assert(s[k - 1] == e);
                }
            }
            if s.contains(e) {
                let j = choose|j: int| 0 <= j < s.len() && s[j] == e;
                assert((seq![x] + s)[j + 1] == e);
            }
            if e == x {
                assert((seq![x] + s)[0] == e);
            }
        }
    } else {
        assert(insert_ordered(s, x) == seq![x]);
        assert forall|e: CalendarEvent| #[trigger] insert_ordered(s, x).contains(e) <==> (e == x
            || s.contains(e)) by {
            if e == x {
                assert(seq![x][0] == e);
            }
        }
    }
}

proof fn lemma_insert_ordered_sorted(s: Seq<CalendarEvent>, x: CalendarEvent)
    requires
        in_listing_order(s),
    ensures
        in_listing_order(insert_ordered(s, x)),
    decreases s.len(),
{
    lemma_insert_ordered_shape(s, x);
    if s.len() == 0 {
    } else if start_title_lt(x, s[0]) {
        let r = seq![x] + s;
        assert(insert_ordered(s, x) == r);
        assert forall|i: int| 0 <= i < r.len() - 1 implies !start_title_lt(#[trigger] r[i + 1], r[i]) by {
            if i == 0 {
                lemma_start_title_asymmetric(x, s[0]);
                assert(r[0] == x && r[1] == s[0]);
            } else {
                assert(r[i] == s[i - 1] && r[i + 1] == s[i]);
                assert(!start_title_lt(s[(i - 1) + 1], s[i - 1]));
            }
        }
    } else {
        let t = insert_ordered(s.drop_first(), x);
        let rest = s.drop_first();
        assert(insert_ordered(s, x) == seq![s[0]] + t);
        assert forall|i: int| 0 <= i < rest.len() - 1 implies !start_title_lt(#[trigger] rest[i + 1], rest[i]) by {
            assert(rest[i] == s[i + 1] && rest[i + 1] == s[i + 2]);
            assert(!start_title_lt(s[(i + 1) + 1], s[i + 1]));
        }
        lemma_insert_ordered_sorted(rest, x);
        lemma_insert_ordered_shape(rest, x);
        let r = seq![s[0]] + t;
        assert forall|i: int| 0 <= i < r.len() - 1 implies !start_title_lt(#[trigger] r[i + 1], r[i]) by {
            if i == 0 {
                assert(r[0] == s[0] && r[1] == t[0]);
                if t[0] == x {
                } else {
                    assert(t[0] == rest[0]);
                    assert(rest[0] == s[1]);
                    assert(!start_title_lt(s[0int + 1], s[0]));
                }
            } else {
                assert(r[i] == t[i - 1] && r[i + 1] == t[i]);
                assert(!start_title_lt(t[(i - 1) + 1], t[i - 1]));
            }
        }
    }
}

/// The events of `ordered(s)` are those of `s`, and they are in listing order.
proof fn lemma_ordered(s: Seq<CalendarEvent>)
    ensures
        ordered(s).len() == s.len(),
        in_listing_order(ordered(s)),
        forall|e: CalendarEvent| #[trigger] ordered(s).contains(e) <==> s.contains(e),
    decreases s.len(),
{
    if s.len() > 0 {
        lemma_ordered(s.drop_last());
        lemma_insert_ordered_sorted(ordered(s.drop_last()), s.last());
        lemma_insert_ordered_shape(ordered(s.drop_last()), s.last());
        assert forall|e: CalendarEvent| ordered(s).contains(e) <==> s.contains(e) by {
            if s.contains(e) && e != s.last() {
                let j = choose|j: int| 0 <= j < s.len() && s[j] == e;
                if j == s.len() - 1 {
                } else {
                    assert(s.drop_last()[j] == e);
                }
            }
            if s.drop_last().contains(e) {
                let j = choose|j: int| 0 <= j < s.drop_last().len() && s.drop_last()[j] == e;
                assert(s[j] == e);
            }
            if e == s.last() {
                assert(s[s.len() - 1] == e);
            }
        }
    }
}

proof fn lemma_in_window_members(s: Seq<CalendarEvent>, q: ListQuery)
    ensures
        forall|e: CalendarEvent| #[trigger] in_window(s, q).contains(e) <==> (s.contains(e)
            && overlaps_window(e, q.from, q.to)),
    decreases s.len(),
{
    if s.len() > 0 {
        lemma_in_window_members(s.drop_last(), q);
        let w = in_window(s.drop_last(), q);
        assert forall|e: CalendarEvent| in_window(s, q).contains(e) <==> (s.contains(e)
            && overlaps_window(e, q.from, q.to)) by {
            if s.drop_last().contains(e) {
                let j = choose|j: int| 0 <= j < s.drop_last().len() && s.drop_last()[j] == e;
                assert(s[j] == e);
            }
            if s.contains(e) {
                let j = choose|j: int| 0 <= j < s.len() && s[j] == e;
                if j < s.len() - 1 {
                    assert(s.drop_last()[j] == e);
                }
            }
            if overlaps_window(s.last(), q.from, q.to) {
                if w.push(s.last()).contains(e) {
                    let k = choose|k: int| 0 <= k < w.push(s.last()).len() && w.push(s.last())[k] == e;
                    if k < w.len() {
                        assert(w[k] == e);
                    }
                }
                if w.contains(e) {
                    let k = choose|k: int| 0 <= k < w.len() && w[k] == e;
                    assert(w.push(s.last())[k] == e);
                }
                if e == s.last() {
                    assert(w.push(s.last())[w.len() as int] == e);
                }
            }
        }
    }
}

/// A listing holds exactly the stored events that overlap the window, in
/// listing order: by start, then by title.
pub proof fn law_listing_is_ordered_window(s: Seq<CalendarEvent>, q: ListQuery)
    ensures
        in_listing_order(listing(s, q)),
        forall|e: CalendarEvent| listing(s, q).contains(e) <==> (s.contains(e)
            && overlaps_window(e, q.from, q.to)),
{
    lemma_ordered(in_window(s, q));
    lemma_in_window_members(s, q);
}

/// Filtering by a window and then by a narrower one it covers is filtering
/// by the narrower one.
proof fn lemma_in_window_narrow(s: Seq<CalendarEvent>, wide: ListQuery, q: ListQuery)
    requires
        wide.covers(q),
    ensures
        in_window(in_window(s, wide), q) == in_window(s, q),
    decreases s.len(),
{
    if s.len() > 0 {
        lemma_in_window_narrow(s.drop_last(), wide, q);
        let e = s.last();
        if overlaps_window(e, q.from, q.to) {
            assert(overlaps_window(e, wide.from, wide.to));
            let w = in_window(s.drop_last(), wide);
            assert(w.push(e).drop_last() =~= w);
        } else if overlaps_window(e, wide.from, wide.to) {
            let w = in_window(s.drop_last(), wide);
            assert(w.push(e).drop_last() =~= w);
        }
    }
}

/// A cache answer is what the store itself would give: where the cache was
/// filled with the store's events for a window that covers the query, the
/// events it answers with are those of the store in the query's window.
pub proof fn law_cache_answer_matches_store(
    store: Seq<CalendarEvent>,
    cached_query: ListQuery,
    query: ListQuery,
)
    requires
        cached_query.covers(query),
    ensures
        in_window(in_window(store, cached_query), query) == in_window(store, query),
{
    lemma_in_window_narrow(store, cached_query, query);
}

/// Deleting an event just added under a new identifier gives the store back.
pub proof fn law_delete_undoes_add(events: Seq<CalendarEvent>, e: CalendarEvent)
    requires
        index_of_id(events, e.id@) is None,
    ensures
        index_of_id(events.push(e), e.id@) == Some(events.len() as int),
        events.push(e).remove(events.len() as int) == events,
{
    let s = events.push(e);
    assert(s[events.len() as int].id@ == e.id@);
    let k = choose|k: int|
        0 <= k < s.len() && s[k].id@ == e.id@ && forall|j: int| 0 <= j < k ==> s[j].id@ != e.id@;
    assert(k == events.len()) by {
        if k < events.len() {
            assert(events[k] == s[k]);
        }
    }
    assert(s.remove(events.len() as int) =~= events);
}

} // verus!
