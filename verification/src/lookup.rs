//! Finding the event a request refers to by its identifier: the hint in
//! the request's words, the day to look on, and the matching event.
use vstd::prelude::*;
use crate::backend::{same_event, ListQuery};
use crate::id::{extract_date_from_event_identifier, extract_date_spec, short_id_spec};
use crate::model::CalendarEvent;
use crate::text::{chars_of, contains, push_str, slice_chars, str_eq, string_of, words, words_chars};
use crate::time::TimeDelta;
use crate::window::{day_nanos, jst_at, jst_valid};

verus! {

/// A character that may wrap an identifier in a request: quotes,
/// Japanese brackets and punctuation.
pub open spec fn wrapper_char(c: char) -> bool {
    c == '"' || c == '\'' || c == '「' || c == '」' || c == '。' || c == '、'
}

/// `s` without wrapping characters at its start.
pub open spec fn strip_wrappers_start(s: Seq<char>) -> Seq<char>
    decreases s.len(),
{
    if s.len() > 0 && wrapper_char(s[0]) {
        strip_wrappers_start(s.drop_first())
    } else {
        s
    }
}

/// `s` without wrapping characters at its end.
pub open spec fn strip_wrappers_end(s: Seq<char>) -> Seq<char>
    decreases s.len(),
{
    if s.len() > 0 && wrapper_char(s.last()) {
        strip_wrappers_end(s.drop_last())
    } else {
        s
    }
}

/// The first word that holds `@`.
pub open spec fn first_at_word(ws: Seq<Seq<char>>) -> Option<Seq<char>>
    decreases ws.len(),
{
    if ws.len() == 0 {
        None
    } else if contains(ws[0], "@"@) {
        Some(ws[0])
    } else {
        first_at_word(ws.drop_first())
    }
}

/// The identifier a request mentions: its first word holding `@`, with
/// wrapping quotes, brackets and punctuation removed.
pub open spec fn short_id_hint_spec(prompt: Seq<char>) -> Option<Seq<char>> {
    match first_at_word(words(prompt)) {
        Some(w) => Some(strip_wrappers_end(strip_wrappers_start(w))),
        None => None,
    }
}

fn wrapper_char_exec(c: char) -> (r: bool)
    ensures
        r == wrapper_char(c),
{
    c == '"' || c == '\'' || c == '「' || c == '」' || c == '。' || c == '、'
}

fn strip_wrappers(w: &Vec<char>) -> (r: Vec<char>)
    ensures
        r@ == strip_wrappers_end(strip_wrappers_start(w@)),
{
    let mut a: usize = 0;
    assert(w@.skip(0) =~= w@);
    while a < w.len() && wrapper_char_exec(w[a])
        invariant
            a <= w.len(),
            strip_wrappers_start(w@) == strip_wrappers_start(w@.skip(a as int)),
        decreases w.len() - a,
    {
        proof {
            assert(w@.skip(a as int).drop_first() =~= w@.skip(a + 1));
            assert(w@.skip(a as int)[0] == w@[a as int]);
        }
        a = a + 1;
    }
    proof {
        if a < w.len() {
            assert(w@.skip(a as int)[0] == w@[a as int]);
        }
    }
    let ghost t = w@.skip(a as int);
    assert(strip_wrappers_start(w@) == t);
    let mut b: usize = w.len();
    assert(t.take((b - a) as int) =~= t);
    while b > a && wrapper_char_exec(w[b - 1])
        invariant
            a <= b <= w.len(),
            t == w@.skip(a as int),
            strip_wrappers_end(t) == strip_wrappers_end(t.take((b - a) as int)),
        decreases b,
    {
        proof {
            let u = t.take((b - a) as int);
            assert(u.drop_last() =~= t.take(b - 1 - a));
            assert(u.last() == w@[b - 1]);
        }
        b = b - 1;
    }
    proof {
        let u = t.take((b - a) as int);
        if b > a {
            assert(u.last() == w@[b - 1]);
        }
        assert(u =~= w@.subrange(a as int, b as int));
    }
    slice_chars(w.as_slice(), a, b)
}

/// The identifier a request mentions.
pub fn extract_short_id_hint(prompt: &str) -> (r: Option<String>)
    ensures
        crate::config::opt_view(r) == short_id_hint_spec(prompt@),
{
    let p = chars_of(prompt);
    let ws = words_chars(p.as_slice());
    let at = chars_of("@");
    let ghost wv = crate::text::views(ws@);
    let mut i: usize = 0;
    assert(wv.skip(0) =~= wv);
    while i < ws.len()
        invariant
            i <= ws@.len(),
            wv == crate::text::views(ws@),
            wv == words(prompt@),
            at@ == "@"@,
            first_at_word(wv) == first_at_word(wv.skip(i as int)),
        decreases ws.len() - i,
    {
        proof {
            assert(wv.skip(i as int).drop_first() =~= wv.skip(i + 1));
            assert(wv.skip(i as int)[0] == ws@[i as int]@);
        }
        if crate::text::contains_exec(ws[i].as_slice(), at.as_slice()) {
            let stripped = strip_wrappers(&ws[i]);
            return Some(string_of(stripped.as_slice()));
        }
        i = i + 1;
    }
    None
}

pub open spec fn no_date_message(id: Seq<char>) -> Seq<char> {
    "ID から日付を解決できませんでした: "@ + id
}

/// The day an identifier names, from midnight JST to the next midnight.
pub open spec fn lookup_window_spec(id: Seq<char>) -> Result<(int, int), Option<Seq<char>>> {
    match extract_date_spec(id) {
        None => Err(Some(no_date_message(id))),
        Some(day) => {
            let s = jst_at(day, 0, 0);
            if !jst_valid(s) {
                Err(None)
            } else if !jst_valid(s + day_nanos()) {
                Err(Some(crate::window::calc_message()))
            } else {
                Ok((s, s + day_nanos()))
            }
        },
    }
}

/// The listing window to find an event by its identifier in.
pub fn lookup_window(id: &str) -> (r: Result<ListQuery, String>)
    ensures
        match lookup_window_spec(id@) {
            Ok(w) => r matches Ok(q) && q.from matches Some(f) && q.to matches Some(t)
                && f.instant() == w.0 && t.instant() == w.1,
            Err(None) => r is Err,
            Err(Some(m)) => r matches Err(x) && x@ == m,
        },
{
    let date = match extract_date_from_event_identifier(id) {
        Some(d) => d,
        None => {
            let mut m = chars_of("ID から日付を解決できませんでした: ");
            push_str(&mut m, id);
            return Err(string_of(m.as_slice()));
        },
    };
    let from = match crate::datetime::to_jst_datetime(date, 0, 0) {
        Ok(t) => t,
        Err(e) => return Err(e),
    };
    match from.checked_add(TimeDelta::one_day()) {
        Some(to) => Ok(ListQuery { from: Some(from), to: Some(to) }),
        None => Err("日時を計算できません".to_string()),
    }
}

/// An event is the one an identifier names: by its identifier or by its
/// short form.
pub open spec fn names_event(e: CalendarEvent, id: Seq<char>) -> bool {
    e.id@ == id || short_id_spec(e.id@) == id
}

pub open spec fn not_listed_message(id: Seq<char>) -> Seq<char> {
    "対象予定が見つかりませんでした: "@ + id
}

/// The first listed event the identifier names.
pub fn find_event(events: &Vec<CalendarEvent>, id: &str) -> (r: Result<CalendarEvent, String>)
    ensures
        match r {
            Ok(e) => exists|k: int|
                0 <= k < events@.len() && names_event(events@[k], id@) && same_event(
                    e,
                    events@[k],
                ) && forall|j: int| 0 <= j < k ==> !names_event(#[trigger] events@[j], id@),
            Err(m) => m@ == not_listed_message(id@) && forall|j: int|
                0 <= j < events@.len() ==> !names_event(#[trigger] events@[j], id@),
        },
{
    let mut i: usize = 0;
    while i < events.len()
        invariant
            i <= events@.len(),
            forall|j: int| 0 <= j < i ==> !names_event(#[trigger] events@[j], id@),
        decreases events.len() - i,
    {
        let short = events[i].short_id();
        if str_eq(events[i].id.as_str(), id) || str_eq(short.as_str(), id) {
            let e = events[i].duplicate();
            assert(names_event(events@[i as int], id@));
            return Ok(e);
        }
        i = i + 1;
    }
    let mut m = chars_of("対象予定が見つかりませんでした: ");
    push_str(&mut m, id);
    Err(string_of(m.as_slice()))
}

} // verus!
