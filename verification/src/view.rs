//! Human-readable rendering of events for the terminal.
use vstd::prelude::*;
use crate::datetime::{weekday_abbr, weekday_abbr_spec};
use crate::id::short_id_spec;
use crate::model::CalendarEvent;
use crate::text::{
    chars_of, ends_with, padded, padded_chars, padded_signed, padded_signed_chars, push_all, push_str,
    starts_with, string_of,
};
use crate::time::{mday_of, month_of, weekday_index, year_of, Date, Timestamp, Weekday};

verus! {

// ---------------------------------------------------------------------
// Terminal sanitizing
// ---------------------------------------------------------------------
/// A control character (Unicode category Cc, as `char::is_control`):
/// U+0000 to U+001F, and U+007F to U+009F.
pub open spec fn control_char(c: char) -> bool {
    (c as int) < 0x20 || (0x7f <= (c as int) && (c as int) <= 0x9f)
}

/// A character that may reach the terminal: no control character other
/// than newline, carriage return and tab.
pub open spec fn printable(c: char) -> bool {
    !control_char(c) || c == '\n' || c == '\r' || c == '\t'
}

/// The text with every non-printable character removed.
pub open spec fn sanitized(s: Seq<char>) -> Seq<char>
    decreases s.len(),
{
    if s.len() == 0 {
        s
    } else if printable(s.last()) {
        sanitized(s.drop_last()).push(s.last())
    } else {
        sanitized(s.drop_last())
    }
}

fn printable_exec(c: char) -> (r: bool)
    ensures
        r == printable(c),
{
    let u = c as u32;
    let control = u < 0x20 || (0x7f <= u && u <= 0x9f);
    !control || c == '\n' || c == '\r' || c == '\t'
}

fn sanitize_chars(s: &[char]) -> (r: Vec<char>)
    ensures
        r@ == sanitized(s@),
{
    let mut out: Vec<char> = Vec::new();
    let mut i: usize = 0;
    while i < s.len()
        invariant
            i <= s.len(),
            out@ == sanitized(s@.take(i as int)),
        decreases s.len() - i,
    {
        proof {
            assert(s@.take(i + 1).drop_last() =~= s@.take(i as int));
            assert(s@.take(i + 1).last() == s@[i as int]);
        }
        if printable_exec(s[i]) {
            out.push(s[i]);
        }
        i = i + 1;
    }
    assert(s@.take(s.len() as int) =~= s@);
    out
}

/// Removes control characters (C0, DEL and C1) other than newline,
/// carriage return and tab, so that no terminal control code gets through.
pub fn sanitize_terminal_output(input: &str) -> (r: String)
    ensures
        r@ == sanitized(input@),
{
    let v = chars_of(input);
    let out = sanitize_chars(v.as_slice());
    string_of(out.as_slice())
}

/// Sanitizing keeps exactly the printable characters, in order.
pub proof fn law_sanitized_printable(s: Seq<char>)
    ensures
        forall|i: int| 0 <= i < sanitized(s).len() ==> printable(#[trigger] sanitized(s)[i]),
        sanitized(s).len() <= s.len(),
    decreases s.len(),
{
    if s.len() > 0 {
        law_sanitized_printable(s.drop_last());
        let t = sanitized(s.drop_last());
        if printable(s.last()) {
            assert forall|i: int| 0 <= i < t.push(s.last()).len() implies printable(
                #[trigger] t.push(s.last())[i],
            ) by {
                if i < t.len() {
                    assert(t.push(s.last())[i] == t[i]);
                }
            }
        }
    }
}

/// Sanitizing twice is sanitizing once.
pub proof fn law_sanitize_idempotent(s: Seq<char>)
    ensures
        sanitized(sanitized(s)) == sanitized(s),
    decreases s.len(),
{
    if s.len() > 0 {
        law_sanitize_idempotent(s.drop_last());
        let t = sanitized(s.drop_last());
        if printable(s.last()) {
            assert(t.push(s.last()).drop_last() =~= t);
        }
    }
}

// ---------------------------------------------------------------------
// Times
// ---------------------------------------------------------------------
/// `HH:MM` of a timestamp.
pub open spec fn hm_text(t: Timestamp) -> Seq<char> {
    padded(t.hour() as nat, 2) + seq![':'] + padded(t.minute() as nat, 2)
}

/// `MM/DD` of a timestamp's local date.
pub open spec fn md_text(t: Timestamp) -> Seq<char> {
    padded(month_of(t.local_day()) as nat, 2) + seq!['/'] + padded(mday_of(t.local_day()) as nat, 2)
}

/// Whole days of a span, rounded toward zero.
pub open spec fn whole_days(nanos: int) -> int {
    if nanos >= 0 {
        nanos / 86_400_000_000_000
    } else {
        -((-nanos) / 86_400_000_000_000)
    }
}

/// The event spans exactly one whole day from midnight to midnight.
pub open spec fn is_all_day(e: CalendarEvent) -> bool {
    &&& whole_days(e.ends_at.instant() - e.starts_at.instant()) == 1
    &&& e.starts_at.hour() == 0
    &&& e.starts_at.minute() == 0
    &&& e.ends_at.hour() == 0
    &&& e.ends_at.minute() == 0
}

/// `終日` for an all-day event, `HH:MM-HH:MM` within one day, else
/// `MM/DD HH:MM -> MM/DD HH:MM`.
pub open spec fn event_time_text(e: CalendarEvent) -> Seq<char> {
    if is_all_day(e) {
        "終日"@
    } else if e.starts_at.local_day() == e.ends_at.local_day() {
        hm_text(e.starts_at) + seq!['-'] + hm_text(e.ends_at)
    } else {
        md_text(e.starts_at) + seq![' '] + hm_text(e.starts_at) + " -> "@ + md_text(e.ends_at)
            + seq![' '] + hm_text(e.ends_at)
    }
}

/// A span over more than one local date shows before the arrow the
/// start's own local date and time, and after it the end's.
pub proof fn law_multi_day_time_shows_both_ends(e: CalendarEvent)
    requires
        !is_all_day(e),
        e.starts_at.local_day() != e.ends_at.local_day(),
    ensures
        starts_with(event_time_text(e), md_text(e.starts_at) + seq![' '] + hm_text(e.starts_at) + " -> "@),
        ends_with(event_time_text(e), " -> "@ + md_text(e.ends_at) + seq![' '] + hm_text(e.ends_at)),
{
    let a = md_text(e.starts_at) + seq![' '] + hm_text(e.starts_at) + " -> "@;
    let b = md_text(e.ends_at) + seq![' '] + hm_text(e.ends_at);
    let c = " -> "@ + md_text(e.ends_at) + seq![' '] + hm_text(e.ends_at);
    let p = md_text(e.starts_at) + seq![' '] + hm_text(e.starts_at);
    assert(event_time_text(e) =~= a + b);
    assert(event_time_text(e) =~= p + c);
    assert((a + b).subrange(0, a.len() as int) =~= a);
    assert((p + c).subrange((p + c).len() - c.len(), (p + c).len() as int) =~= c);
}

fn push_hm(out: &mut Vec<char>, t: &Timestamp)
    ensures
        final(out)@ == old(out)@ + hm_text(*t),
{
    let h = padded_chars(t.hour_exec() as u64, 2);
    push_all(out, h.as_slice());
    out.push(':');
    let m = padded_chars(t.minute_exec() as u64, 2);
    push_all(out, m.as_slice());
    assert(out@ =~= old(out)@ + hm_text(*t));
}

fn push_md(out: &mut Vec<char>, t: &Timestamp)
    ensures
        final(out)@ == old(out)@ + md_text(*t),
{
    let d = t.date();
    let (_, month, day) = d.ymd_fields();
    let m = padded_chars(month as u64, 2);
    push_all(out, m.as_slice());
    out.push('/');
    let dd = padded_chars(day as u64, 2);
    push_all(out, dd.as_slice());
    assert(out@ =~= old(out)@ + md_text(*t));
}

fn event_time_chars(event: &CalendarEvent) -> (r: Vec<char>)
    ensures
        r@ == event_time_text(*event),
{
    let duration = event.duration();
    let all_day = duration.num_days() == 1 && event.starts_at.hour_exec() == 0
        && event.starts_at.minute_exec() == 0 && event.ends_at.hour_exec() == 0
        && event.ends_at.minute_exec() == 0;
    if all_day {
        return chars_of("終日");
    }
    let mut out: Vec<char> = Vec::new();
    if event.starts_at.date().same(&event.ends_at.date()) {
        push_hm(&mut out, &event.starts_at);
        out.push('-');
        push_hm(&mut out, &event.ends_at);
        assert(out@ =~= event_time_text(*event));
        return out;
    }
    push_md(&mut out, &event.starts_at);
    out.push(' ');
    push_hm(&mut out, &event.starts_at);
    push_str(&mut out, " -> ");
    push_md(&mut out, &event.ends_at);
    out.push(' ');
    push_hm(&mut out, &event.ends_at);
    assert(out@ =~= event_time_text(*event));
    out
}

/// The time column of an event.
pub fn format_event_time(event: &CalendarEvent) -> (r: String)
    ensures
        r@ == event_time_text(*event),
{
    let v = event_time_chars(event);
    string_of(v.as_slice())
}

// ---------------------------------------------------------------------
// Single events
// ---------------------------------------------------------------------
/// `YYYY-MM-DD (Www)` of a day number.
pub open spec fn date_heading(day: int) -> Seq<char> {
    padded_signed(year_of(day), 4) + seq!['-'] + padded(month_of(day) as nat, 2) + seq!['-']
        + padded(mday_of(day) as nat, 2) + " ("@ + weekday_name(crate::time::weekday_of(day))
        + seq![')']
}

/// The abbreviated name of the weekday with index `k`, Monday being 0.
pub open spec fn weekday_name(k: int) -> Seq<char> {
    if k == 0 {
        "Mon"@
    } else if k == 1 {
        "Tue"@
    } else if k == 2 {
        "Wed"@
    } else if k == 3 {
        "Thu"@
    } else if k == 4 {
        "Fri"@
    } else if k == 5 {
        "Sat"@
    } else {
        "Sun"@
    }
}

proof fn lemma_weekday_name(w: Weekday)
    ensures
        weekday_abbr_spec(w) == weekday_name(weekday_index(w)),
{
}

fn push_date_heading(out: &mut Vec<char>, date: &Date)
    ensures
        final(out)@ == old(out)@ + date_heading(date.day_number()),
{
    let (y, m, d) = date.ymd_fields();
    let yy = padded_signed_chars(y as i64, 4);
    push_all(out, yy.as_slice());
    out.push('-');
    let mm = padded_chars(m as u64, 2);
    push_all(out, mm.as_slice());
    out.push('-');
    let dd = padded_chars(d as u64, 2);
    push_all(out, dd.as_slice());
    push_str(out, " (");
    let w = date.weekday();
    proof {
        lemma_weekday_name(w);
    }
    push_str(out, weekday_abbr(w));
    out.push(')');
    assert(out@ =~= old(out)@ + date_heading(date.day_number()));
}

/// The event is under way at `now`.
pub open spec fn ongoing_at(e: CalendarEvent, now: Option<Timestamp>) -> bool {
    match now {
        Some(n) => e.starts_at.instant() <= n.instant() && n.instant() < e.ends_at.instant(),
        None => false,
    }
}

/// The row of an event: a marker for an ongoing event, the time, the
/// title and the short identifier, both sanitized.
pub open spec fn event_row(e: CalendarEvent, now: Option<Timestamp>) -> Seq<char> {
    (if ongoing_at(e, now) {
        "> "@
    } else {
        "  "@
    }) + event_time_text(e) + "  "@ + sanitized(e.title@) + " ["@ + sanitized(short_id_spec(e.id@))
        + seq![']']
}

fn event_row_chars(event: &CalendarEvent, now: Option<Timestamp>) -> (r: (Vec<char>, bool))
    ensures
        r.0@ == event_row(*event, now),
        r.1 == ongoing_at(*event, now),
{
    let ongoing = match now {
        Some(n) => event.is_ongoing(n),
        None => false,
    };
    let mut row = if ongoing {
        chars_of("> ")
    } else {
        chars_of("  ")
    };
    let t = event_time_chars(event);
    push_all(&mut row, t.as_slice());
    push_str(&mut row, "  ");
    let title = chars_of(event.title.as_str());
    let title = sanitize_chars(title.as_slice());
    push_all(&mut row, title.as_slice());
    push_str(&mut row, " [");
    let sid = event.short_id();
    let sid = chars_of(sid.as_str());
    let sid = sanitize_chars(sid.as_slice());
    push_all(&mut row, sid.as_slice());
    row.push(']');
    (row, ongoing)
}

fn push_event_row(out: &mut Vec<char>, event: &CalendarEvent, now: Option<Timestamp>) -> (ongoing: bool)
    ensures
        final(out)@ == old(out)@ + event_row(*event, now),
        ongoing == ongoing_at(*event, now),
{
    let (row, ongoing) = event_row_chars(event, now);
    push_all(out, row.as_slice());
    ongoing
}

/// One event under its date heading.
pub open spec fn single_event_text(e: CalendarEvent, now: Option<Timestamp>) -> Seq<char> {
    "  "@ + date_heading(e.starts_at.local_day()) + seq!['\n'] + event_row(e, now)
}

/// One event under its date heading, marked when under way at `now`.
pub fn render_single_event(event: &CalendarEvent, now: Option<Timestamp>) -> (r: String)
    ensures
        r@ == single_event_text(*event, now),
{
    let mut out = chars_of("  ");
    let date = event.starts_at.date();
    push_date_heading(&mut out, &date);
    out.push('\n');
    push_event_row(&mut out, event, now);
    assert(out@ =~= single_event_text(*event, now));
    string_of(out.as_slice())
}

/// The text reporting a change: the action, then the event.
pub open spec fn event_result_text(action: Seq<char>, e: CalendarEvent, now: Option<Timestamp>) -> Seq<char> {
    action + seq!['\n'] + single_event_text(e, now)
}

/// The human-readable report of a change to an event.
pub fn render_event_text(action: &str, event: &CalendarEvent, now: Option<Timestamp>) -> (r: String)
    ensures
        r@ == event_result_text(action@, *event, now),
{
    let mut out = chars_of(action);
    out.push('\n');
    let single = render_single_event(event, now);
    push_str(&mut out, single.as_str());
    string_of(out.as_slice())
}

} // verus!

verus! {

// ---------------------------------------------------------------------
// Event lists
// ---------------------------------------------------------------------
/// `a < b` in the order of `str` (code point by code point).
pub open spec fn text_lt(a: Seq<char>, b: Seq<char>) -> bool
    decreases a.len(),
{
    if a.len() == 0 {
        b.len() > 0
    } else if b.len() == 0 {
        false
    } else if a[0] != b[0] {
        a[0] < b[0]
    } else {
        text_lt(a.drop_first(), b.drop_first())
    }
}

/// The list order: by start, then end, then title.
pub open spec fn list_key_lt(a: CalendarEvent, b: CalendarEvent) -> bool {
    ||| a.starts_at.instant() < b.starts_at.instant()
    ||| (a.starts_at.instant() == b.starts_at.instant() && a.ends_at.instant()
        < b.ends_at.instant())
    ||| (a.starts_at.instant() == b.starts_at.instant() && a.ends_at.instant()
        == b.ends_at.instant() && text_lt(a.title@, b.title@))
}

pub(crate) fn text_lt_exec(a: &[char], b: &[char]) -> (r: bool)
    ensures
        r == text_lt(a@, b@),
{
    let mut i: usize = 0;
    assert(a@.skip(0) =~= a@);
    assert(b@.skip(0) =~= b@);
    while i < a.len() && i < b.len() && a[i] == b[i]
        invariant
            i <= a.len(),
            i <= b.len(),
            text_lt(a@, b@) == text_lt(a@.skip(i as int), b@.skip(i as int)),
        decreases a.len() - i,
    {
        proof {
            assert(a@.skip(i as int).drop_first() =~= a@.skip(i + 1));
            assert(b@.skip(i as int).drop_first() =~= b@.skip(i + 1));
            assert(a@.skip(i as int)[0] == a@[i as int]);
            assert(b@.skip(i as int)[0] == b@[i as int]);
        }
        i = i + 1;
    }
    proof {
        if i < a.len() {
            assert(a@.skip(i as int)[0] == a@[i as int]);
        }
        if i < b.len() {
            assert(b@.skip(i as int)[0] == b@[i as int]);
        }
    }
    if i == a.len() {
        i < b.len()
    } else if i == b.len() {
        false
    } else {
        a[i] < b[i]
    }
}

fn list_key_lt_exec(a: &CalendarEvent, b: &CalendarEvent) -> (r: bool)
    ensures
        r == list_key_lt(*a, *b),
{
    if a.starts_at.before(&b.starts_at) {
        return true;
    }
    if !a.starts_at.same_instant(&b.starts_at) {
        return false;
    }
    if a.ends_at.before(&b.ends_at) {
        return true;
    }
    if !a.ends_at.same_instant(&b.ends_at) {
        return false;
    }
    let ta = chars_of(a.title.as_str());
    let tb = chars_of(b.title.as_str());
    text_lt_exec(ta.as_slice(), tb.as_slice())
}

/// Where a stable insertion puts event `x` among the ordered indices:
/// before the first event that sorts strictly after it.
pub open spec fn insert_pos(events: Seq<CalendarEvent>, sorted: Seq<int>, x: int) -> int
    decreases sorted.len(),
{
    if sorted.len() == 0 {
        0
    } else if list_key_lt(events[x], events[sorted[0]]) {
        0
    } else {
        1 + insert_pos(events, sorted.drop_first(), x)
    }
}

/// The indices of the first `n` events in stable list order.
pub open spec fn list_order(events: Seq<CalendarEvent>, n: int) -> Seq<int>
    decreases n,
{
    if n <= 0 {
        Seq::empty()
    } else {
        let s = list_order(events, n - 1);
        s.insert(insert_pos(events, s, n - 1), n - 1)
    }
}

proof fn lemma_insert_pos_bound(events: Seq<CalendarEvent>, sorted: Seq<int>, x: int)
    ensures
        0 <= insert_pos(events, sorted, x) <= sorted.len(),
    decreases sorted.len(),
{
    if sorted.len() > 0 {
        lemma_insert_pos_bound(events, sorted.drop_first(), x);
    }
}

proof fn lemma_list_order_len(events: Seq<CalendarEvent>, n: int)
    requires
        n >= 0,
    ensures
        list_order(events, n).len() == n,
        forall|i: int| 0 <= i < n ==> 0 <= #[trigger] list_order(events, n)[i] < n,
    decreases n,
{
    if n > 0 {
        lemma_list_order_len(events, n - 1);
        let s = list_order(events, n - 1);
        lemma_insert_pos_bound(events, s, n - 1);
        let p = insert_pos(events, s, n - 1);
        assert forall|i: int| 0 <= i < n implies 0 <= #[trigger] list_order(events, n)[i] < n by {
            if i < p {
                assert(list_order(events, n)[i] == s[i]);
            } else if i > p {
                assert(list_order(events, n)[i] == s[i - 1]);
            }
        }
    }
}

/// The indices of the events in stable list order.
fn sort_for_list(events: &[CalendarEvent]) -> (r: Vec<usize>)
    ensures
        r@.map_values(|i: usize| i as int) == list_order(events@, events@.len() as int),
{
    let mut sorted: Vec<usize> = Vec::new();
    let mut i: usize = 0;
    while i < events.len()
        invariant
            i <= events.len(),
            sorted@.map_values(|k: usize| k as int) == list_order(events@, i as int),
        decreases events.len() - i,
    {
        proof {
            lemma_list_order_len(events@, i as int);
        }
        let ghost s = list_order(events@, i as int);
        let mut pos: usize = 0;
        assert(s.skip(0) =~= s);
        while pos < sorted.len() && !list_key_lt_exec(&events[i], &events[sorted[pos]])
            invariant
                pos <= sorted.len(),
                i < events.len(),
                s == sorted@.map_values(|k: usize| k as int),
                s.len() == i,
                forall|j: int| 0 <= j < i ==> 0 <= #[trigger] s[j] < i,
                insert_pos(events@, s, i as int) == pos + insert_pos(
                    events@,
                    s.skip(pos as int),
                    i as int,
                ),
            decreases sorted.len() - pos,
        {
            proof {
                assert(s.skip(pos as int).drop_first() =~= s.skip(pos + 1));
                assert(s.skip(pos as int)[0] == sorted@[pos as int] as int);
            }
            pos = pos + 1;
        }
        proof {
            if pos < sorted.len() {
                assert(s.skip(pos as int)[0] == sorted@[pos as int] as int);
            }
            assert(insert_pos(events@, s, i as int) == pos);
        }
        sorted.insert(pos, i);
        i = i + 1;
        proof {
            assert(sorted@.map_values(|k: usize| k as int) =~= s.insert(pos as int, (i - 1) as int));
        }
    }
    sorted
}

/// The state of list rendering: the text so far, the date of the last
/// heading, and whether the current-time marker stands under it.
pub open spec fn list_step(
    st: (Seq<char>, Option<int>, bool),
    e: CalendarEvent,
    now: Option<Timestamp>,
) -> (Seq<char>, Option<int>, bool) {
    let date = e.starts_at.local_day();
    let s1 = if st.1 != Some(date) {
        (
            (if st.0.len() > 0 {
                st.0.push('\n')
            } else {
                st.0
            }) + date_heading(date) + seq!['\n'],
            Some(date),
            false,
        )
    } else {
        st
    };
    let s2 = match now {
        Some(n) => if !s1.2 && date == n.local_day() && n.instant() < e.starts_at.instant() {
            (s1.0 + now_marker(n), s1.1, true)
        } else {
            s1
        },
        None => s1,
    };
    (s2.0 + event_row(e, now) + seq!['\n'], s2.1, s2.2 || ongoing_at(e, now))
}

/// `  --- 現在 (HH:MM) ---` and a newline.
pub open spec fn now_marker(n: Timestamp) -> Seq<char> {
    "  --- 現在 ("@ + hm_text(n) + ") ---\n"@
}

/// Rendering state after the first `k` events of the order.
pub open spec fn list_fold(
    events: Seq<CalendarEvent>,
    order: Seq<int>,
    k: int,
    now: Option<Timestamp>,
) -> (Seq<char>, Option<int>, bool)
    decreases k,
{
    if k <= 0 {
        (Seq::empty(), None, false)
    } else {
        list_step(list_fold(events, order, k - 1, now), events[order[k - 1]], now)
    }
}

/// The rendered list: `予定はありません` when empty; else the events in
/// list order under date headings, ongoing events marked, the
/// current-time marker before the first later event of today or after
/// today's last event, without the final newline.
pub open spec fn event_list_text(events: Seq<CalendarEvent>, now: Option<Timestamp>) -> Seq<char> {
    if events.len() == 0 {
        "予定はありません"@
    } else {
        let order = list_order(events, events.len() as int);
        let st = list_fold(events, order, events.len() as int, now);
        let out = match now {
            Some(n) => if !st.2 && st.1 == Some(n.local_day()) {
                st.0 + now_marker(n)
            } else {
                st.0
            },
            None => st.0,
        };
        if out.len() > 0 && out.last() == '\n' {
            out.drop_last()
        } else {
            out
        }
    }
}

fn push_now_marker(out: &mut Vec<char>, n: &Timestamp)
    ensures
        final(out)@ == old(out)@ + now_marker(*n),
{
    push_str(out, "  --- 現在 (");
    push_hm(out, n);
    push_str(out, ") ---\n");
    assert(out@ =~= old(out)@ + now_marker(*n));
}

fn list_step_exec(
    out: &mut Vec<char>,
    current_date: &mut Option<Date>,
    now_marker_shown: &mut bool,
    event: &CalendarEvent,
    now: Option<Timestamp>,
)
    ensures
        list_step(
            (
                old(out)@,
                match *old(current_date) {
                    Some(d) => Some(d.day_number()),
                    None => None,
                },
                *old(now_marker_shown),
            ),
            *event,
            now,
        ) == (
            final(out)@,
            match *final(current_date) {
                Some(d) => Some(d.day_number()),
                None => None,
            },
            *final(now_marker_shown),
        ),
{
    let date = event.starts_at.date();
    let same = match current_date {
        Some(d) => d.same(&date),
        None => false,
    };
    if !same {
        if out.len() > 0 {
            out.push('\n');
        }
        push_date_heading(out, &date);
        out.push('\n');
        *current_date = Some(date);
        *now_marker_shown = false;
    }
    if let Some(now_val) = now {
        if !*now_marker_shown && date.same(&now_val.date()) && now_val.before(&event.starts_at) {
            push_now_marker(out, &now_val);
            *now_marker_shown = true;
        }
    }
    let ongoing = push_event_row(out, event, now);
    out.push('\n');
    if ongoing {
        *now_marker_shown = true;
    }
}

/// The events as a list grouped by date, with the current time marked.
pub fn render_event_list(events: &[CalendarEvent], now: Option<Timestamp>) -> (r: String)
    ensures
        r@ == event_list_text(events@, now),
{
    if events.len() == 0 {
        return "予定はありません".to_string();
    }
    let sorted = sort_for_list(events);
    let ghost order = list_order(events@, events@.len() as int);
    proof {
        lemma_list_order_len(events@, events@.len() as int);
    }
    let mut out: Vec<char> = Vec::new();
    let mut current_date: Option<Date> = None;
    let mut now_marker_shown = false;
    let mut k: usize = 0;
    while k < sorted.len()
        invariant
            k <= sorted.len(),
            sorted@.len() == events@.len(),
            sorted@.map_values(|i: usize| i as int) == order,
            order.len() == events@.len(),
            forall|i: int| 0 <= i < events@.len() ==> 0 <= #[trigger] order[i] < events@.len(),
            list_fold(events@, order, k as int, now) == (
                out@,
                match current_date {
                    Some(d) => Some(d.day_number()),
                    None => None,
                },
                now_marker_shown,
            ),
        decreases sorted.len() - k,
    {
        let idx = sorted[k];
        assert(idx as int == order[k as int]);
        let ghost prev = (
            out@,
            match current_date {
                Some(d) => Some(d.day_number()),
                None => None,
            },
            now_marker_shown,
        );
        list_step_exec(&mut out, &mut current_date, &mut now_marker_shown, &events[idx], now);
        k = k + 1;
    }
    if let Some(now_val) = now {
        let on_today = match current_date {
            Some(d) => d.same(&now_val.date()),
            None => false,
        };
        if !now_marker_shown && on_today {
            push_now_marker(&mut out, &now_val);
        }
    }
    let n = out.len();
    if n > 0 && out[n - 1] == '\n' {
        out.pop();
    }
    string_of(out.as_slice())
}

// ---------------------------------------------------------------------
// Shapes of the JSON output
// ---------------------------------------------------------------------
/// An event together with its short identifier, as the JSON output shows
/// it (the event's fields beside `short_id`).
#[derive(Debug)]
pub struct ApiEvent {
    pub short_id: String,
    pub event: CalendarEvent,
}

/// The JSON output: the backend's name and the payload.
#[derive(Debug)]
pub struct EventEnvelope<T> {
    pub backend: &'static str,
    pub data: T,
}

/// The output for one event: the JSON shape, or finished text.
#[derive(Debug)]
pub enum EventOutput {
    Json(EventEnvelope<ApiEvent>),
    Text(String),
}

/// `a` shows the event `e`: a copy of it with its short identifier.
pub open spec fn shows(a: ApiEvent, e: CalendarEvent) -> bool {
    &&& a.short_id@ == short_id_spec(e.id@)
    &&& crate::model::same_but_version(a.event, e)
    &&& a.event.version == e.version
}

/// An event with its short identifier attached.
pub fn render_event(event: &CalendarEvent) -> (r: ApiEvent)
    ensures
        shows(r, *event),
{
    ApiEvent { short_id: event.short_id(), event: event.duplicate() }
}

/// Each event with its short identifier attached, in the given order.
pub fn render_events(events: &[CalendarEvent]) -> (r: Vec<ApiEvent>)
    ensures
        r.len() == events.len(),
        forall|i: int| 0 <= i < events.len() ==> shows(#[trigger] r@[i], events@[i]),
{
    let mut out: Vec<ApiEvent> = Vec::new();
    let mut i: usize = 0;
    while i < events.len()
        invariant
            i <= events.len(),
            out.len() == i,
            forall|k: int| 0 <= k < i ==> shows(#[trigger] out@[k], events@[k]),
        decreases events.len() - i,
    {
        out.push(render_event(&events[i]));
        i = i + 1;
    }
    out
}

/// The output after an action on one event: with `json`, the event under
/// the backend's name; else the action's message and the event as text.
pub fn render_event_result(
    action: &str,
    backend: &'static str,
    event: &CalendarEvent,
    json: bool,
    now: Option<Timestamp>,
) -> (r: EventOutput)
    ensures
        json ==> (r matches EventOutput::Json(e) && e.backend@ == backend@ && shows(e.data, *event)),
        !json ==> (r matches EventOutput::Text(t) && t@ == event_result_text(action@, *event, now)),
{
    if json {
        EventOutput::Json(EventEnvelope { backend, data: render_event(event) })
    } else {
        EventOutput::Text(render_event_text(action, event, now))
    }
}

} // verus!
