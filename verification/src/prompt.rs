//! Natural-language requests: the plan a language model proposes for one,
//! filled in from the request's own text, and turned into an `events`
//! command with its preview.
use vstd::prelude::*;
use crate::config::opt_view;
use crate::formats::{date_ymd_text, format_ymd, ymd_text};
use crate::text::{
    chars_of,
    contains,
    find,
    find_exec,
    is_digit,
    parse_u32,
    parse_u32_spec,
    slice_chars,
    str_contains,
    str_eq,
    string_of,
    trim,
    trim_chars,
    trim_str,
};
use crate::time::{
    civil_to_days, day_in_range, valid_civil, Date, Timestamp, JST_OFFSET_SECONDS, UNIX_EPOCH_CE_DAY,
};
use crate::cli::{
    AddArgs,
    ApplyScopeArg,
    CloneArgs,
    DeleteArgs,
    EventsCommand,
    ListArgs,
    UpdateArgs,
};
use crate::config::string_views;
use crate::datetime::{
    duration_in_bounds,
    prompt_timestamp_offset,
    flexible_date_sliceable,
    flexible_date_spec,
    normalize_prompt_duration,
    normalize_prompt_duration_spec,
    normalize_prompt_time,
    normalize_prompt_time_spec,
    parse_flexible_date,
    parse_prompt_timestamp,
    prompt_time_sliceable,
    prompt_timestamp_sliceable,
    prompt_timestamp_spec,
    to_jst_datetime,
};
use crate::formats::{timestamp_rfc3339, to_rfc3339};
use crate::model::{CalendarEvent, EventVisibility};
use crate::window::{calc_message, date_window_spec, jst_at, jst_valid, resolve_date_window};

verus! {

/// What a request asks for.
#[derive(Clone, Copy, Debug, PartialEq, Eq, Structural)]
pub enum PromptAction {
    List,
    Add,
    Update,
    Clone,
    Delete,
}

/// The plan a language model proposes for a request: the action and the
/// options it filled in.
#[derive(Clone, Debug)]
pub struct PromptPlan {
    pub action: PromptAction,
    pub id: Option<String>,
    pub title: Option<String>,
    pub title_suffix: Option<String>,
    pub date: Option<String>,
    pub from: Option<String>,
    pub to: Option<String>,
    pub at: Option<String>,
    pub until: Option<String>,
    pub duration: Option<String>,
    pub all_day: Option<bool>,
    pub description: Option<String>,
    pub clear_description: Option<bool>,
    pub start: Option<String>,
    pub end: Option<String>,
    pub visibility: Option<String>,
    pub scope: Option<String>,
    pub web: Option<bool>,
    pub preserve_time: Option<bool>,
}

// ---------------------------------------------------------------------
// Reading the request text
// ---------------------------------------------------------------------
/// `private` for a request that says 非公開, `public` for one that says
/// 公開 (and not 公開しない).
pub open spec fn visibility_hint(prompt: Seq<char>) -> Option<Seq<char>> {
    if contains(prompt, "非公開"@) {
        Some("private"@)
    } else if contains(prompt, "公開"@) && !contains(prompt, "公開しない"@) && !contains(
        prompt,
        "非公開"@,
    ) {
        Some("public"@)
    } else {
        None
    }
}

/// The visibility a request's wording asks for.
pub fn infer_visibility_from_prompt(prompt: &str) -> (r: Option<String>)
    ensures
        opt_view(r) == visibility_hint(prompt@),
{
    if str_contains(prompt, "非公開") {
        return Some("private".to_string());
    }
    if str_contains(prompt, "公開") && !str_contains(prompt, "公開しない") && !str_contains(
        prompt,
        "非公開",
    ) {
        return Some("public".to_string());
    }
    None
}

/// The request names an identifier: it says `ID`, `id` or `Id`.
pub open spec fn mentions_id(prompt: Seq<char>) -> bool {
    contains(prompt, "ID"@) || contains(prompt, "id"@) || contains(prompt, "Id"@)
}

/// Whether the request names an identifier.
pub fn prompt_mentions_explicit_id(prompt: &str) -> (r: bool)
    ensures
        r == mentions_id(prompt@),
{
    str_contains(prompt, "ID") || str_contains(prompt, "id") || str_contains(prompt, "Id")
}

/// The request asks to put something on the calendar (設定, 追加, 登録).
pub open spec fn implies_add(prompt: Seq<char>) -> bool {
    contains(prompt, "設定"@) || contains(prompt, "追加"@) || contains(prompt, "登録"@)
}

/// Whether the request asks to put something on the calendar.
pub fn prompt_implies_add(prompt: &str) -> (r: bool)
    ensures
        r == implies_add(prompt@),
{
    str_contains(prompt, "設定") || str_contains(prompt, "追加") || str_contains(prompt, "登録")
}

/// The trimmed text between the first `open` and the next `close` after
/// it, where that text is not empty.
pub open spec fn quoted_spec(input: Seq<char>, open: char, close: char) -> Option<Seq<char>> {
    match find(input, seq![open]) {
        Some(s) => {
            let rest = input.skip(s + 1);
            match find(rest, seq![close]) {
                Some(e) => {
                    let v = trim(rest.take(e));
                    if v.len() > 0 {
                        Some(v)
                    } else {
                        None
                    }
                },
                None => None,
            }
        },
        None => None,
    }
}

/// The text quoted between `open` and `close`.
pub fn extract_quoted(input: &str, open: char, close: char) -> (r: Option<String>)
    ensures
        opt_view(r) == quoted_spec(input@, open, close),
{
    let s = chars_of(input);
    let o = vec![open];
    assert(o@ =~= seq![open]);
    let start = match find_exec(s.as_slice(), o.as_slice()) {
        Some(k) => k,
        None => return None,
    };
    proof {
        crate::text::lemma_find_contains(s@, o@);
    }
    assert(start + 1 <= s.len());
    let rest = slice_chars(s.as_slice(), start + 1, s.len());
    assert(rest@ =~= input@.skip(start + 1));
    let c = vec![close];
    assert(c@ =~= seq![close]);
    let end = match find_exec(rest.as_slice(), c.as_slice()) {
        Some(k) => k,
        None => return None,
    };
    proof {
        crate::text::lemma_find_contains(rest@, c@);
    }
    let inner = slice_chars(rest.as_slice(), 0, end);
    assert(inner@ =~= rest@.take(end as int));
    let v = trim_chars(inner.as_slice());
    if v.len() > 0 {
        Some(string_of(v.as_slice()))
    } else {
        None
    }
}

/// The first quoted text, trying 「」, 『』, "" and '' in turn.
pub open spec fn title_hint(prompt: Seq<char>) -> Option<Seq<char>> {
    match quoted_spec(prompt, '「', '」') {
        Some(t) => Some(t),
        None => match quoted_spec(prompt, '『', '』') {
            Some(t) => Some(t),
            None => match quoted_spec(prompt, '"', '"') {
                Some(t) => Some(t),
                None => quoted_spec(prompt, '\'', '\''),
            },
        },
    }
}

/// The title a request quotes.
pub fn infer_title_from_prompt(prompt: &str) -> (r: Option<String>)
    ensures
        opt_view(r) == title_hint(prompt@),
{
    match extract_quoted(prompt, '「', '」') {
        Some(t) => return Some(t),
        None => {},
    }
    match extract_quoted(prompt, '『', '』') {
        Some(t) => return Some(t),
        None => {},
    }
    match extract_quoted(prompt, '"', '"') {
        Some(t) => return Some(t),
        None => {},
    }
    extract_quoted(prompt, '\'', '\'')
}

/// The ASCII digits that end `s`.
pub open spec fn trailing_digits(s: Seq<char>) -> Seq<char>
    decreases s.len(),
{
    if s.len() > 0 && is_digit(s.last()) {
        trailing_digits(s.drop_last()).push(s.last())
    } else {
        Seq::empty()
    }
}

/// The ASCII digits that begin `s`.
pub open spec fn leading_digits(s: Seq<char>) -> Seq<char>
    decreases s.len(),
{
    if s.len() > 0 && is_digit(s[0]) {
        seq![s[0]] + leading_digits(s.drop_first())
    } else {
        Seq::empty()
    }
}

fn trailing_digits_exec(s: &Vec<char>, end: usize) -> (r: Vec<char>)
    requires
        end <= s.len(),
    ensures
        r@ == trailing_digits(s@.take(end as int)),
{
    let mut i = end;
    while i > 0 && crate::text::is_digit_char(s[i - 1])
        invariant
            i <= end <= s.len(),
            trailing_digits(s@.take(end as int)) == trailing_digits(s@.take(i as int)) + s@.subrange(
                i as int,
                end as int,
            ),
        decreases i,
    {
        proof {
            let t = s@.take(i as int);
            assert(t.drop_last() =~= s@.take(i - 1));
            assert(t.last() == s@[i - 1]);
            assert(trailing_digits(t) == trailing_digits(s@.take(i - 1)).push(s@[i - 1]));
            assert(trailing_digits(s@.take(i - 1)).push(s@[i - 1]) + s@.subrange(i as int, end as int)
                =~= trailing_digits(s@.take(i - 1)) + s@.subrange(i - 1, end as int));
        }
        i = i - 1;
    }
    proof {
        let t = s@.take(i as int);
        if i > 0 {
            assert(t.last() == s@[i - 1]);
        }
        assert(trailing_digits(t) =~= Seq::<char>::empty());
        assert(trailing_digits(s@.take(end as int)) =~= s@.subrange(i as int, end as int));
    }
    slice_chars(s.as_slice(), i, end)
}

fn leading_digits_exec(s: &Vec<char>, start: usize) -> (r: Vec<char>)
    requires
        start <= s.len(),
    ensures
        r@ == leading_digits(s@.skip(start as int)),
{
    let mut i = start;
    while i < s.len() && crate::text::is_digit_char(s[i])
        invariant
            start <= i <= s.len(),
            leading_digits(s@.skip(start as int)) == s@.subrange(start as int, i as int)
                + leading_digits(s@.skip(i as int)),
        decreases s.len() - i,
    {
        proof {
            let t = s@.skip(i as int);
            assert(t.drop_first() =~= s@.skip(i + 1));
            assert(t[0] == s@[i as int]);
            assert(s@.subrange(start as int, i as int) + (seq![s@[i as int]] + leading_digits(
                s@.skip(i + 1),
            )) =~= s@.subrange(start as int, i + 1) + leading_digits(s@.skip(i + 1)));
        }
        i = i + 1;
    }
    proof {
        let t = s@.skip(i as int);
        if i < s.len() {
            assert(t[0] == s@[i as int]);
        }
        assert(leading_digits(t) =~= Seq::<char>::empty());
        assert(leading_digits(s@.skip(start as int)) =~= s@.subrange(start as int, i as int));
    }
    slice_chars(s.as_slice(), start, i)
}

/// `M/D`: the digits just before the first `/` and just after it.
pub open spec fn month_day_spec(prompt: Seq<char>) -> Option<(u32, u32)> {
    match find(prompt, "/"@) {
        Some(k) => match (
            parse_u32_spec(trailing_digits(prompt.take(k))),
            parse_u32_spec(leading_digits(prompt.skip(k + 1))),
        ) {
            (Some(m), Some(d)) => Some((m, d)),
            _ => None,
        },
        None => None,
    }
}

/// The month and day a request writes as `M/D`.
pub fn extract_month_day(prompt: &str) -> (r: Option<(u32, u32)>)
    ensures
        r == month_day_spec(prompt@),
{
    let s = chars_of(prompt);
    let slash = chars_of("/");
    let k = match find_exec(s.as_slice(), slash.as_slice()) {
        Some(k) => k,
        None => return None,
    };
    proof {
        crate::text::lemma_find_contains(s@, slash@);
        reveal_strlit("/");
    }
    let m = trailing_digits_exec(&s, k);
    let d = leading_digits_exec(&s, k + 1);
    match (parse_u32(m.as_slice()), parse_u32(d.as_slice())) {
        (Some(m), Some(d)) => Some((m, d)),
        _ => None,
    }
}

/// `D日`: the digits just before the first `日`.
pub open spec fn day_only_spec(prompt: Seq<char>) -> Option<u32> {
    match find(prompt, "日"@) {
        Some(k) => {
            let ds = trailing_digits(prompt.take(k));
            if ds.len() == 0 {
                None
            } else {
                parse_u32_spec(ds)
            }
        },
        None => None,
    }
}

/// The day of the month a request writes as `D日`.
pub fn extract_day_only(prompt: &str) -> (r: Option<u32>)
    ensures
        r == day_only_spec(prompt@),
{
    let s = chars_of(prompt);
    let mark = chars_of("日");
    let k = match find_exec(s.as_slice(), mark.as_slice()) {
        Some(k) => k,
        None => return None,
    };
    proof {
        crate::text::lemma_find_contains(s@, mark@);
        reveal_strlit("日");
    }
    let ds = trailing_digits_exec(&s, k);
    if ds.len() == 0 {
        return None;
    }
    parse_u32(ds.as_slice())
}

/// `YYYY-MM-DD` of a day number.
pub open spec fn day_text(day: int) -> Seq<char> {
    ymd_text(day + UNIX_EPOCH_CE_DAY)
}

/// The day a calendar date names, where it exists.
pub open spec fn civil_day(y: int, m: int, d: int) -> Option<int> {
    if valid_civil(y, m, d) {
        Some(civil_to_days(y, m, d))
    } else {
        None
    }
}

/// The day `D日` names: in the anchor's month, or the next month where
/// `D` has passed.
pub open spec fn day_only_target(day: int, anchor: Date) -> Option<int> {
    if day < anchor.mday() {
        if anchor.month() == 12 {
            civil_day(anchor.year() + 1, 1, day)
        } else {
            civil_day(anchor.year(), anchor.month() + 1, day)
        }
    } else {
        civil_day(anchor.year(), anchor.month(), day)
    }
}

/// The date a request's wording names, as `YYYY-MM-DD`: 明後日, 明日 or 今日
/// relative to `anchor`; else `M/D` in the anchor's year; else `D日`.
pub open spec fn date_hint(prompt: Seq<char>, anchor: Date) -> Option<Seq<char>> {
    let a = anchor.day_number();
    if contains(prompt, "明後日"@) {
        if day_in_range(a + 2) {
            Some(day_text(a + 2))
        } else {
            None
        }
    } else if contains(prompt, "明日"@) {
        if day_in_range(a + 1) {
            Some(day_text(a + 1))
        } else {
            None
        }
    } else if contains(prompt, "今日"@) {
        Some(day_text(a))
    } else {
        let from_md = match month_day_spec(prompt) {
            Some(md) => civil_day(anchor.year(), md.0 as int, md.1 as int),
            None => None,
        };
        match from_md {
            Some(d) => Some(day_text(d)),
            None => match day_only_spec(prompt) {
                Some(day) => match day_only_target(day as int, anchor) {
                    Some(d) => Some(day_text(d)),
                    None => None,
                },
                None => None,
            },
        }
    }
}

fn day_text_exec(d: &Date) -> (r: String)
    ensures
        r@ == day_text(d.day_number()),
{
    format_ymd(d)
}

/// The date a request's wording names.
pub fn infer_date_from_prompt(prompt: &str, anchor: Date) -> (r: Option<String>)
    ensures
        opt_view(r) == date_hint(prompt@, anchor),
{
    if str_contains(prompt, "明後日") {
        return match anchor.checked_add_days(2) {
            Some(d) => Some(day_text_exec(&d)),
            None => None,
        };
    }
    if str_contains(prompt, "明日") {
        return match anchor.checked_add_days(1) {
            Some(d) => Some(day_text_exec(&d)),
            None => None,
        };
    }
    if str_contains(prompt, "今日") {
        return Some(day_text_exec(&anchor));
    }
    let (year, month, mday) = anchor.ymd_fields();
    match extract_month_day(prompt) {
        Some((m, d)) => match Date::from_ymd(year, m, d) {
            Some(date) => return Some(day_text_exec(&date)),
            None => {},
        },
        None => {},
    }
    match extract_day_only(prompt) {
        Some(day) => {
            let (y, m) = if day < mday {
                if month == 12 {
                    (year + 1, 1u32)
                } else {
                    (year, month + 1)
                }
            } else {
                (year, month)
            };
            match Date::from_ymd(y, m, day) {
                Some(date) => Some(day_text_exec(&date)),
                None => None,
            }
        },
        None => None,
    }
}

/// A value that reads as a date rather than an identifier.
pub open spec fn date_like(value: Seq<char>, anchor: Date) -> bool {
    let t = trim(value);
    date_hint(t, anchor) is Some || t == "今日"@ || t == "明日"@ || t == "明後日"@
}

/// Whether a value reads as a date rather than an identifier.
pub fn looks_like_date_expression(value: &str, anchor: Date) -> (r: bool)
    ensures
        r == date_like(value@, anchor),
{
    let t = trim_str(value);
    let text = string_of(t.as_slice());
    infer_date_from_prompt(text.as_str(), anchor).is_some() || str_eq(text.as_str(), "今日")
        || str_eq(text.as_str(), "明日") || str_eq(text.as_str(), "明後日")
}

// ---------------------------------------------------------------------
// Filling in the plan
// ---------------------------------------------------------------------
/// The identifier the plan keeps: none where the model put a date there
/// and the request names no identifier.
pub open spec fn kept_id(plan: PromptPlan, prompt: Seq<char>, anchor: Date) -> Option<String> {
    match plan.id {
        Some(v) => if date_like(v@, anchor) && !mentions_id(prompt) {
            None
        } else {
            plan.id
        },
        None => None,
    }
}

/// A field the model left out, filled in from the request text.
pub open spec fn filled(field: Option<String>, hint: Option<Seq<char>>) -> Option<Seq<char>> {
    match field {
        Some(v) => Some(v@),
        None => hint,
    }
}

/// The action after filling in: an addition where no identifier is left
/// and the request asks to put something on the calendar.
pub open spec fn filled_action(plan: PromptPlan, prompt: Seq<char>, anchor: Date) -> PromptAction {
    if kept_id(plan, prompt, anchor) is None && implies_add(prompt) {
        PromptAction::Add
    } else {
        plan.action
    }
}

/// The plan with what the model left out filled in from the request: a
/// date mistaken for an identifier dropped, visibility, title and date
/// read from the wording, the action made an addition where the wording
/// asks for one, and an addition with a date and no times made a whole-day
/// event.
pub open spec fn normalized_plan_matches(
    r: PromptPlan,
    plan: PromptPlan,
    prompt: Seq<char>,
    anchor: Date,
) -> bool {
    let action = filled_action(plan, prompt, anchor);
    let date = filled(plan.date, date_hint(prompt, anchor));
    &&& r.id == kept_id(plan, prompt, anchor)
    &&& opt_view(r.visibility) == filled(plan.visibility, visibility_hint(prompt))
    &&& opt_view(r.title) == filled(plan.title, title_hint(prompt))
    &&& opt_view(r.date) == date
    &&& r.action == action
    &&& r.all_day == if action == PromptAction::Add && date is Some && plan.start is None
        && plan.end is None && plan.at is None && plan.until is None && plan.duration is None
        && plan.all_day is None {
        Some(true)
    } else {
        plan.all_day
    }
    &&& r.title_suffix == plan.title_suffix
    &&& r.from == plan.from
    &&& r.to == plan.to
    &&& r.at == plan.at
    &&& r.until == plan.until
    &&& r.duration == plan.duration
    &&& r.description == plan.description
    &&& r.clear_description == plan.clear_description
    &&& r.start == plan.start
    &&& r.end == plan.end
    &&& r.scope == plan.scope
    &&& r.web == plan.web
    &&& r.preserve_time == plan.preserve_time
}

/// Fills in what the model left out of its plan from the request's text.
pub fn normalize_prompt_plan(plan: PromptPlan, prompt: &str, anchor: Date) -> (r: PromptPlan)
    ensures
        normalized_plan_matches(r, plan, prompt@, anchor),
{
    let mut plan = plan;
    let drop_id = match &plan.id {
        Some(v) => looks_like_date_expression(v.as_str(), anchor) && !prompt_mentions_explicit_id(
            prompt,
        ),
        None => false,
    };
    if drop_id {
        plan.id = None;
    }
    if plan.visibility.is_none() {
        plan.visibility = infer_visibility_from_prompt(prompt);
    }
    if plan.title.is_none() {
        plan.title = infer_title_from_prompt(prompt);
    }
    if plan.date.is_none() {
        plan.date = infer_date_from_prompt(prompt, anchor);
    }
    if plan.id.is_none() && prompt_implies_add(prompt) && plan.action != PromptAction::Add {
        plan.action = PromptAction::Add;
    }
    if plan.action == PromptAction::Add && plan.date.is_some() && plan.start.is_none()
        && plan.end.is_none() && plan.at.is_none() && plan.until.is_none()
        && plan.duration.is_none() && plan.all_day.is_none() {
        plan.all_day = Some(true);
    }
    plan
}

/// The reply of the model with surrounding whitespace and a Markdown code
/// fence (with or without `json`) removed.
pub open spec fn fenced_json_spec(raw: Seq<char>) -> Seq<char> {
    let t = trim(raw);
    let u = if crate::text::starts_with(t, "```json"@) {
        t.skip(7)
    } else if crate::text::starts_with(t, "```"@) {
        t.skip(3)
    } else {
        t
    };
    let v = trim(u);
    let w = if crate::text::ends_with(v, "```"@) {
        v.take(v.len() - 3)
    } else {
        v
    };
    trim(w)
}

/// The JSON text inside the model's reply.
pub fn prompt_plan_json_text(raw: &str) -> (r: String)
    ensures
        r@ == fenced_json_spec(raw@),
{
    let t = trim_str(raw);
    let json_fence = chars_of("```json");
    let fence = chars_of("```");
    proof {
        reveal_strlit("```json");
        reveal_strlit("```");
    }
    let u = if crate::text::matches_at_exec(t.as_slice(), 0, json_fence.as_slice()) {
        slice_chars(t.as_slice(), 7, t.len())
    } else if crate::text::matches_at_exec(t.as_slice(), 0, fence.as_slice()) {
        slice_chars(t.as_slice(), 3, t.len())
    } else {
        t
    };
    proof {
        if crate::text::starts_with(trim(raw@), "```json"@) {
            assert(u@ =~= trim(raw@).skip(7));
        } else if crate::text::starts_with(trim(raw@), "```"@) {
            assert(u@ =~= trim(raw@).skip(3));
        }
    }
    let v = trim_chars(u.as_slice());
    let w = if crate::text::ends_with_exec(v.as_slice(), fence.as_slice()) {
        slice_chars(v.as_slice(), 0, v.len() - 3)
    } else {
        v
    };
    proof {
        if crate::text::ends_with(v@, "```"@) {
            assert(w@ =~= v@.take(v@.len() - 3));
        }
    }
    let x = trim_chars(w.as_slice());
    string_of(x.as_slice())
}

// ---------------------------------------------------------------------
// The shell command and the preview
// ---------------------------------------------------------------------
/// A character a shell word may hold unquoted.
pub open spec fn shell_safe(c: char) -> bool {
    ||| ('a' <= c && c <= 'z')
    ||| ('A' <= c && c <= 'Z')
    ||| ('0' <= c && c <= '9')
    ||| c == '-' || c == '_' || c == ':' || c == '/' || c == '@' || c == '.'
}

/// A value as one shell word: `''` for an empty value, the value itself
/// where every character is safe, else single-quoted with each `'` written
/// as `'"'"'`.
pub open spec fn shell_escape_spec(v: Seq<char>) -> Seq<char> {
    if v.len() == 0 {
        "''"@
    } else if forall|i: int| 0 <= i < v.len() ==> shell_safe(#[trigger] v[i]) {
        v
    } else {
        "'"@ + crate::text::replace_all(v, "'"@, "'\"'\"'"@) + "'"@
    }
}

fn shell_safe_exec(c: char) -> (r: bool)
    ensures
        r == shell_safe(c),
{
    ('a' <= c && c <= 'z') || ('A' <= c && c <= 'Z') || ('0' <= c && c <= '9') || c == '-' || c
        == '_' || c == ':' || c == '/' || c == '@' || c == '.'
}

/// A value quoted for the shell where it needs to be.
pub fn shell_escape(value: &str) -> (r: String)
    ensures
        r@ == shell_escape_spec(value@),
{
    let v = chars_of(value);
    if v.len() == 0 {
        return "''".to_string();
    }
    let mut all_safe = true;
    let mut i: usize = 0;
    while i < v.len()
        invariant
            i <= v.len(),
            v@ == value@,
            all_safe == forall|j: int| 0 <= j < i ==> shell_safe(#[trigger] v@[j]),
        decreases v.len() - i,
    {
        if !shell_safe_exec(v[i]) {
            all_safe = false;
        }
        i = i + 1;
    }
    if all_safe {
        return value.to_string();
    }
    let mut out = chars_of("'");
    proof {
        reveal_strlit("'");
    }
    let replaced = crate::text::replace_str(v.as_slice(), "'", "'\"'\"'");
    crate::text::push_all(&mut out, replaced.as_slice());
    out.push('\'');
    proof {
        assert(out@ =~= "'"@ + crate::text::replace_all(value@, "'"@, "'\"'\"'"@) + "'"@);
    }
    string_of(out.as_slice())
}

/// A flag and its value, as the preview lists them.
pub type FlagView = (Seq<char>, Option<Seq<char>>);

pub open spec fn flags_view(v: Seq<(String, Option<String>)>) -> Seq<FlagView> {
    v.map_values(|f: (String, Option<String>)| (f.0@, opt_view(f.1)))
}

/// The words of the flags: each flag, followed by its value quoted.
pub open spec fn flag_words(flags: Seq<FlagView>) -> Seq<Seq<char>>
    decreases flags.len(),
{
    if flags.len() == 0 {
        Seq::empty()
    } else {
        let f = flags.last();
        flag_words(flags.drop_last()) + match f.1 {
            Some(v) => seq![f.0, shell_escape_spec(v)],
            None => seq![f.0],
        }
    }
}

/// `cbzcal events <subcommand>` with the flags, joined by spaces.
pub open spec fn shell_command_spec(subcommand: Seq<char>, flags: Seq<FlagView>) -> Seq<char> {
    crate::text::join(seq!["cbzcal"@, "events"@, subcommand] + flag_words(flags), " "@)
}

/// The command line that runs the subcommand with the flags.
pub fn build_shell_command(subcommand: &str, flags: &Vec<(String, Option<String>)>) -> (r: String)
    ensures
        r@ == shell_command_spec(subcommand@, flags_view(flags@)),
{
    let mut parts: Vec<Vec<char>> = Vec::new();
    parts.push(chars_of("cbzcal"));
    parts.push(chars_of("events"));
    parts.push(chars_of(subcommand));
    let ghost head = seq!["cbzcal"@, "events"@, subcommand@];
    assert(crate::text::views(parts@) =~= head);
    let mut i: usize = 0;
    while i < flags.len()
        invariant
            i <= flags@.len(),
            crate::text::views(parts@) == head + flag_words(flags_view(flags@).take(i as int)),
        decreases flags.len() - i,
    {
        let ghost before = parts@;
        proof {
            let fv = flags_view(flags@);
            assert(fv.take(i + 1).drop_last() =~= fv.take(i as int));
            assert(fv.take(i + 1).last() == (flags@[i as int].0@, opt_view(flags@[i as int].1)));
        }
        let f = chars_of(flags[i].0.as_str());
        parts.push(f);
        proof {
            crate::text::lemma_views_push(before, f);
        }
        match &flags[i].1 {
            Some(v) => {
                let ghost mid = parts@;
                let e = shell_escape(v.as_str());
                let ec = chars_of(e.as_str());
                parts.push(ec);
                proof {
                    crate::text::lemma_views_push(mid, ec);
                }
            },
            None => {},
        }
        i = i + 1;
        proof {
            let fv = flags_view(flags@);
            assert(crate::text::views(parts@) =~= head + flag_words(fv.take(i as int)));
        }
    }
    assert(flags_view(flags@).take(flags@.len() as int) =~= flags_view(flags@));
    let sep = chars_of(" ");
    let out = crate::text::join_chars(parts.as_slice(), sep.as_slice());
    string_of(out.as_slice())
}

/// The preview shown before a request runs: what was understood, line by
/// line, and the command that will run.
pub open spec fn preview_spec(lines: Seq<Seq<char>>, shell_command: Seq<char>) -> Seq<char> {
    "解釈結果:\n"@ + preview_lines(lines) + "\n"@ + "実行コマンド:\n"@ + "  "@ + shell_command
}

/// Each line indented by two spaces and ended by a newline.
pub open spec fn preview_lines(lines: Seq<Seq<char>>) -> Seq<char>
    decreases lines.len(),
{
    if lines.len() == 0 {
        Seq::empty()
    } else {
        preview_lines(lines.drop_last()) + "  "@ + lines.last() + "\n"@
    }
}

/// The preview of an execution.
pub fn render_preview_of(summary_lines: &Vec<String>, shell_command: &str) -> (r: String)
    ensures
        r@ == preview_spec(crate::config::string_views(summary_lines@), shell_command@),
{
    let mut out = chars_of("解釈結果:\n");
    let ghost head = out@;
    let mut i: usize = 0;
    while i < summary_lines.len()
        invariant
            i <= summary_lines@.len(),
            head == "解釈結果:\n"@,
            out@ == head + preview_lines(crate::config::string_views(summary_lines@).take(i as int)),
        decreases summary_lines.len() - i,
    {
        proof {
            let sv = crate::config::string_views(summary_lines@);
            assert(sv.take(i + 1).drop_last() =~= sv.take(i as int));
            assert(sv.take(i + 1).last() == summary_lines@[i as int]@);
        }
        crate::text::push_str(&mut out, "  ");
        crate::text::push_str(&mut out, summary_lines[i].as_str());
        crate::text::push_str(&mut out, "\n");
        i = i + 1;
        proof {
            let sv = crate::config::string_views(summary_lines@);
            assert(out@ =~= head + preview_lines(sv.take(i as int)));
        }
    }
    assert(crate::config::string_views(summary_lines@).take(summary_lines@.len() as int)
        =~= crate::config::string_views(summary_lines@));
    crate::text::push_str(&mut out, "\n");
    crate::text::push_str(&mut out, "実行コマンド:\n");
    crate::text::push_str(&mut out, "  ");
    crate::text::push_str(&mut out, shell_command);
    string_of(out.as_slice())
}

// ---------------------------------------------------------------------
// Summary lines and flags
// ---------------------------------------------------------------------
/// A summary line `label value`, where there is a value.
pub open spec fn line(label: Seq<char>, v: Option<Seq<char>>) -> Seq<Seq<char>> {
    match v {
        Some(x) => seq![label + x],
        None => Seq::empty(),
    }
}

/// A flag with its value, where there is a value.
pub open spec fn value_flag(flag: Seq<char>, v: Option<Seq<char>>) -> Seq<FlagView> {
    match v {
        Some(x) => seq![(flag, Some(x))],
        None => Seq::empty(),
    }
}

/// A flag without a value, where it is on.
pub open spec fn switch_flag(flag: Seq<char>, on: bool) -> Seq<FlagView> {
    if on {
        seq![(flag, None::<Seq<char>>)]
    } else {
        Seq::empty()
    }
}

/// The RFC 3339 text of an optional timestamp.
pub open spec fn ts_text(t: Option<Timestamp>) -> Option<Seq<char>> {
    match t {
        Some(x) => Some(timestamp_rfc3339(x)),
        None => None,
    }
}

fn push_line(lines: &mut Vec<String>, label: &str, value: &Option<String>)
    ensures
        string_views(final(lines)@) == string_views(old(lines)@) + line(label@, opt_view(*value)),
{
    match value {
        Some(v) => {
            let mut t = chars_of(label);
            crate::text::push_str(&mut t, v.as_str());
            let ghost before = lines@;
            lines.push(string_of(t.as_slice()));
            assert(string_views(lines@) =~= string_views(before) + line(label@, opt_view(*value)));
        },
        None => {
            assert(string_views(lines@) =~= string_views(lines@) + line(label@, opt_view(*value)));
        },
    }
}

fn rfc3339_of(t: &Option<Timestamp>) -> (r: Option<String>)
    ensures
        opt_view(r) == ts_text(*t),
{
    match t {
        Some(x) => Some(to_rfc3339(x)),
        None => None,
    }
}

fn push_flag(flags: &mut Vec<(String, Option<String>)>, flag: &str, value: &Option<String>)
    ensures
        flags_view(final(flags)@) == flags_view(old(flags)@) + value_flag(flag@, opt_view(*value)),
{
    match value {
        Some(v) => {
            let ghost before = flags@;
            flags.push((flag.to_string(), Some(v.clone())));
            assert(flags_view(flags@) =~= flags_view(before) + value_flag(flag@, opt_view(*value)));
        },
        None => {
            assert(flags_view(flags@) =~= flags_view(flags@) + value_flag(flag@, opt_view(*value)));
        },
    }
}

fn push_switch(flags: &mut Vec<(String, Option<String>)>, flag: &str, on: bool)
    ensures
        flags_view(final(flags)@) == flags_view(old(flags)@) + switch_flag(flag@, on),
{
    let ghost before = flags@;
    if on {
        flags.push((flag.to_string(), None));
    }
    assert(flags_view(flags@) =~= flags_view(before) + switch_flag(flag@, on));
}

/// The name of a scope: `this`, `after` or `all`.
pub open spec fn scope_text(s: ApplyScopeArg) -> Seq<char> {
    match s {
        ApplyScopeArg::This => "this"@,
        ApplyScopeArg::After => "after"@,
        ApplyScopeArg::All => "all"@,
    }
}

pub open spec fn scope_opt_text(s: Option<ApplyScopeArg>) -> Option<Seq<char>> {
    match s {
        Some(x) => Some(scope_text(x)),
        None => None,
    }
}

/// The name of a scope.
pub fn scope_name(scope: ApplyScopeArg) -> (r: &'static str)
    ensures
        r@ == scope_text(scope),
{
    match scope {
        ApplyScopeArg::This => "this",
        ApplyScopeArg::After => "after",
        ApplyScopeArg::All => "all",
    }
}

fn scope_name_opt(scope: Option<ApplyScopeArg>) -> (r: Option<String>)
    ensures
        opt_view(r) == scope_opt_text(scope),
{
    match scope {
        Some(s) => Some(scope_name(s).to_string()),
        None => None,
    }
}

/// A scope's name read back: `this`, `after` or `all`.
pub open spec fn scope_read(v: Seq<char>) -> Result<ApplyScopeArg, Seq<char>> {
    if v == "this"@ {
        Ok(ApplyScopeArg::This)
    } else if v == "after"@ {
        Ok(ApplyScopeArg::After)
    } else if v == "all"@ {
        Ok(ApplyScopeArg::All)
    } else {
        Err("scope は this / after / all のいずれかです: "@ + v)
    }
}

/// Reads the plan's scope.
pub fn parse_scope_arg(input: &Option<String>) -> (r: Result<Option<ApplyScopeArg>, String>)
    ensures
        match input {
            None => r == Ok::<Option<ApplyScopeArg>, String>(None),
            Some(v) => match scope_read(v@) {
                Ok(s) => r == Ok::<Option<ApplyScopeArg>, String>(Some(s)),
                Err(m) => r matches Err(x) && x@ == m,
            },
        },
{
    match input {
        None => Ok(None),
        Some(v) => {
            if str_eq(v.as_str(), "this") {
                Ok(Some(ApplyScopeArg::This))
            } else if str_eq(v.as_str(), "after") {
                Ok(Some(ApplyScopeArg::After))
            } else if str_eq(v.as_str(), "all") {
                Ok(Some(ApplyScopeArg::All))
            } else {
                let mut m = chars_of("scope は this / after / all のいずれかです: ");
                crate::text::push_str(&mut m, v.as_str());
                Err(string_of(m.as_slice()))
            }
        },
    }
}

/// The plan's visibility read: public where none is given.
pub open spec fn visibility_read(v: Option<Seq<char>>) -> Result<EventVisibility, Seq<char>> {
    let t = match v {
        Some(x) => x,
        None => "public"@,
    };
    if t == "public"@ {
        Ok(EventVisibility::Public)
    } else if t == "private"@ {
        Ok(EventVisibility::Private)
    } else {
        Err("visibility は public / private のいずれかです: "@ + t)
    }
}

/// Reads the plan's visibility.
pub fn parse_visibility(input: &Option<String>) -> (r: Result<EventVisibility, String>)
    ensures
        match visibility_read(opt_view(*input)) {
            Ok(v) => r == Ok::<EventVisibility, String>(v),
            Err(m) => r matches Err(x) && x@ == m,
        },
{
    let t = match input {
        Some(x) => x.clone(),
        None => "public".to_string(),
    };
    if str_eq(t.as_str(), "public") {
        Ok(EventVisibility::Public)
    } else if str_eq(t.as_str(), "private") {
        Ok(EventVisibility::Private)
    } else {
        let mut m = chars_of("visibility は public / private のいずれかです: ");
        crate::text::push_str(&mut m, t.as_str());
        Err(string_of(m.as_slice()))
    }
}

/// A timestamp the plan may give, read: `Ok(None)` where it gives none,
/// `Err` where it cannot be read.
pub open spec fn ts_outcome(input: Option<String>, anchor: Date, context: Option<String>) -> Result<
    Option<int>,
    (),
> {
    match input {
        None => Ok(None),
        Some(s) => match prompt_timestamp_spec(s@, anchor, opt_view(context)) {
            Some(i) => Ok(Some(i)),
            None => Err(()),
        },
    }
}

pub open spec fn ts_ok(input: Option<String>, context: Option<String>) -> bool {
    input matches Some(s) ==> prompt_timestamp_sliceable(s@, opt_view(context))
}

pub open spec fn instant_of(t: Option<Timestamp>) -> Option<int> {
    match t {
        Some(x) => Some(x.instant()),
        None => None,
    }
}

/// The offset a timestamp the plan may give is shown in: an RFC 3339
/// text's own, else Japan Standard Time (and JST where none is given).
pub open spec fn ts_offset(input: Option<String>) -> int {
    match input {
        Some(s) => prompt_timestamp_offset(s@),
        None => JST_OFFSET_SECONDS as int,
    }
}

/// A timestamp, where there is one, is shown in the offset `off`.
pub open spec fn offset_fits(t: Option<Timestamp>, off: int) -> bool {
    t matches Some(x) ==> x.offset() == off
}

/// Reads a timestamp the plan may give.
pub fn parse_optional_timestamp(input: &Option<String>, anchor: Date, context_date: &Option<String>) -> (r: Result<
    Option<Timestamp>,
    String,
>)
    requires
        ts_ok(*input, *context_date),
    ensures
        match ts_outcome(*input, anchor, *context_date) {
            Ok(i) => r matches Ok(t) && instant_of(t) == i,
            Err(_) => r is Err,
        },
        r matches Ok(t) ==> offset_fits(t, ts_offset(*input)),
{
    match input {
        None => Ok(None),
        Some(s) => {
            let ctx = match context_date {
                Some(c) => Some(c.as_str()),
                None => None,
            };
            match parse_prompt_timestamp(s.as_str(), anchor, ctx) {
                Ok(t) => Ok(Some(t)),
                Err(e) => Err(e),
            }
        },
    }
}

// ---------------------------------------------------------------------
// Executions
// ---------------------------------------------------------------------
/// A request turned into a command, with what the preview shows of it.
#[derive(Debug)]
pub struct PromptExecution {
    pub action: PromptAction,
    pub command: EventsCommand,
    pub shell_command: String,
    pub summary_lines: Vec<String>,
}

impl PromptExecution {
    /// Listing, adding and cloning may run without confirmation; updating
    /// and deleting may not.
    pub fn supports_yes(&self) -> (r: bool)
        ensures
            r == (self.action == PromptAction::List || self.action == PromptAction::Add
                || self.action == PromptAction::Clone),
    {
        match self.action {
            PromptAction::List | PromptAction::Add | PromptAction::Clone => true,
            _ => false,
        }
    }

    /// The preview of the execution.
    pub fn preview(&self) -> (r: String)
        ensures
            r@ == preview_spec(string_views(self.summary_lines@), self.shell_command@),
    {
        render_preview_of(&self.summary_lines, self.shell_command.as_str())
    }
}

/// The preview shown before an execution runs.
pub fn render_preview(execution: &PromptExecution) -> (r: String)
    ensures
        r@ == preview_spec(string_views(execution.summary_lines@), execution.shell_command@),
{
    execution.preview()
}

/// An optional text mapped through the reader of durations.
pub open spec fn duration_norm(v: Option<String>) -> Option<Seq<char>> {
    match v {
        Some(x) => Some(normalize_prompt_duration_spec(x@)),
        None => None,
    }
}

/// An optional text mapped through the reader of times of day.
pub open spec fn time_norm(v: Option<String>) -> Option<Seq<char>> {
    match v {
        Some(x) => Some(normalize_prompt_time_spec(x@)),
        None => None,
    }
}

fn duration_norm_exec(v: &Option<String>) -> (r: Option<String>)
    ensures
        opt_view(r) == duration_norm(*v),
{
    match v {
        Some(x) => Some(normalize_prompt_duration(x.as_str())),
        None => None,
    }
}

fn time_norm_exec(v: &Option<String>) -> (r: Option<String>)
    requires
        v matches Some(x) ==> prompt_time_sliceable(x@),
    ensures
        opt_view(r) == time_norm(*v),
{
    match v {
        Some(x) => Some(normalize_prompt_time(x.as_str())),
        None => None,
    }
}

// list -----------------------------------------------------------------
pub open spec fn list_flags_spec(a: ListArgs) -> Seq<FlagView> {
    value_flag("--date"@, opt_view(a.date)) + value_flag("--from"@, opt_view(a.from)) + value_flag(
        "--to"@,
        opt_view(a.to),
    ) + value_flag("--for"@, opt_view(a.duration))
}

pub open spec fn list_summary_spec(a: ListArgs) -> Seq<Seq<char>> {
    seq!["action: list"@] + line("date: "@, opt_view(a.date)) + line("from: "@, opt_view(a.from))
        + line("to: "@, opt_view(a.to)) + line("for: "@, opt_view(a.duration))
}

/// A listing: the plan's window, its duration normalized.
pub open spec fn list_execution_matches(ex: PromptExecution, plan: PromptPlan) -> bool {
    match ex.command {
        EventsCommand::List(a) => {
            &&& ex.action == PromptAction::List
            &&& !a.json
            &&& a.from == plan.from && a.to == plan.to && a.date == plan.date
            &&& opt_view(a.duration) == duration_norm(plan.duration)
            &&& ex.shell_command@ == shell_command_spec("list"@, list_flags_spec(a))
            &&& string_views(ex.summary_lines@) == list_summary_spec(a)
        },
        _ => false,
    }
}

fn build_list_execution(plan: PromptPlan) -> (r: PromptExecution)
    ensures
        list_execution_matches(r, plan),
{
    let args = ListArgs {
        json: false,
        from: plan.from,
        to: plan.to,
        date: plan.date,
        duration: duration_norm_exec(&plan.duration),
    };
    let mut summary: Vec<String> = Vec::new();
    summary.push("action: list".to_string());
    assert(string_views(summary@) =~= seq!["action: list"@]);
    push_line(&mut summary, "date: ", &args.date);
    push_line(&mut summary, "from: ", &args.from);
    push_line(&mut summary, "to: ", &args.to);
    push_line(&mut summary, "for: ", &args.duration);
    let mut flags: Vec<(String, Option<String>)> = Vec::new();
    assert(flags_view(flags@) =~= Seq::<FlagView>::empty());
    push_flag(&mut flags, "--date", &args.date);
    push_flag(&mut flags, "--from", &args.from);
    push_flag(&mut flags, "--to", &args.to);
    push_flag(&mut flags, "--for", &args.duration);
    assert(flags_view(flags@) =~= list_flags_spec(args));
    let shell_command = build_shell_command("list", &flags);
    PromptExecution {
        action: PromptAction::List,
        command: EventsCommand::List(args),
        shell_command,
        summary_lines: summary,
    }
}

// add ------------------------------------------------------------------
pub open spec fn visibility_flag(a: AddArgs) -> Seq<FlagView> {
    if a.private {
        seq![("--private"@, None::<Seq<char>>)]
    } else if a.public {
        seq![("--public"@, None::<Seq<char>>)]
    } else {
        Seq::empty()
    }
}

pub open spec fn add_flags_spec(a: AddArgs) -> Seq<FlagView> {
    seq![("--title"@, Some(a.title@))] + visibility_flag(a) + value_flag("--start"@, ts_text(a.start))
        + value_flag("--end"@, ts_text(a.end)) + value_flag("--date"@, opt_view(a.date))
        + value_flag("--at"@, opt_view(a.at)) + value_flag("--until"@, opt_view(a.until))
        + value_flag("--for"@, opt_view(a.duration)) + switch_flag("--all-day"@, a.all_day)
        + value_flag("--description"@, opt_view(a.description))
}

pub open spec fn add_summary_spec(a: AddArgs) -> Seq<Seq<char>> {
    seq!["action: add"@, "title: "@ + a.title@] + line("date: "@, opt_view(a.date)) + line(
        "at: "@,
        opt_view(a.at),
    ) + line("until: "@, opt_view(a.until)) + line("for: "@, opt_view(a.duration)) + line(
        "start: "@,
        ts_text(a.start),
    ) + line("end: "@, ts_text(a.end)) + (if a.all_day {
        seq!["all_day: true"@]
    } else {
        Seq::empty()
    }) + seq!["visibility: "@ + (if a.private {
        "private"@
    } else {
        "public"@
    })]
}

/// An addition: exact timestamps where the plan gives any, else its date
/// and times normalized.
pub open spec fn add_execution_matches(
    ex: PromptExecution,
    plan: PromptPlan,
    title: Seq<char>,
    start: Option<int>,
    end: Option<int>,
    vis: EventVisibility,
) -> bool {
    match ex.command {
        EventsCommand::Add(a) => {
            let strict = start is Some || end is Some;
            &&& ex.action == PromptAction::Add
            &&& !a.json
            &&& a.title@ == title
            &&& a.public == (vis == EventVisibility::Public)
            &&& a.private == (vis == EventVisibility::Private)
            &&& instant_of(a.start) == start && instant_of(a.end) == end
            &&& offset_fits(a.start, ts_offset(plan.start)) && offset_fits(a.end, ts_offset(plan.end))
            &&& a.date == (if strict {
                None
            } else {
                plan.date
            })
            &&& opt_view(a.at) == (if strict {
                None
            } else {
                time_norm(plan.at)
            })
            &&& opt_view(a.until) == (if strict {
                None
            } else {
                time_norm(plan.until)
            })
            &&& opt_view(a.duration) == (if strict {
                None
            } else {
                duration_norm(plan.duration)
            })
            &&& a.all_day == (!strict && plan.all_day == Some(true))
            &&& a.description == plan.description
            &&& a.attendees@.len() == 0 && a.facility is None && a.calendar is None
            &&& ex.shell_command@ == shell_command_spec("add"@, add_flags_spec(a))
            &&& string_views(ex.summary_lines@) == add_summary_spec(a)
        },
        _ => false,
    }
}

/// What an addition plan becomes: refused without a title, where a
/// timestamp cannot be read, or for an unknown visibility.
pub open spec fn add_outcome(r: Result<PromptExecution, String>, plan: PromptPlan, anchor: Date) -> bool {
    match plan.title {
        None => r matches Err(x) && x@ == "add には title が必要です"@,
        Some(t) => match (
            ts_outcome(plan.start, anchor, plan.date),
            ts_outcome(plan.end, anchor, plan.date),
        ) {
            (Ok(s), Ok(e)) => match visibility_read(opt_view(plan.visibility)) {
                Ok(vis) => r matches Ok(ex) && add_execution_matches(ex, plan, t@, s, e, vis),
                Err(m) => r matches Err(x) && x@ == m,
            },
            _ => r is Err,
        },
    }
}

/// Whether the plan's texts meet the constraints of their readers.
pub fn plan_texts_ok_exec(plan: &PromptPlan) -> (r: bool)
    ensures
        r == plan_texts_ok(*plan),
{
    let ctx = match &plan.date {
        Some(d) => Some(d.as_str()),
        None => None,
    };
    let start_ok = match &plan.start {
        Some(s) => crate::datetime::prompt_timestamp_text_ok(s.as_str(), ctx),
        None => true,
    };
    let end_ok = match &plan.end {
        Some(s) => crate::datetime::prompt_timestamp_text_ok(s.as_str(), ctx),
        None => true,
    };
    let date_ok = match &plan.date {
        Some(d) => crate::datetime::flexible_date_text_ok(d.as_str()),
        None => true,
    };
    let at_ok = match &plan.at {
        Some(a) => crate::datetime::prompt_time_text_ok(a.as_str()),
        None => true,
    };
    let until_ok = match &plan.until {
        Some(u) => crate::datetime::prompt_time_text_ok(u.as_str()),
        None => true,
    };
    let duration_ok = match &plan.duration {
        Some(d) => {
            let n = normalize_prompt_duration(d.as_str());
            crate::datetime::duration_text_ok(n.as_str())
        },
        None => true,
    };
    start_ok && end_ok && date_ok && at_ok && until_ok && duration_ok
}

/// The plan's texts meet the constraints of their readers.
pub open spec fn plan_texts_ok(plan: PromptPlan) -> bool {
    &&& ts_ok(plan.start, plan.date)
    &&& ts_ok(plan.end, plan.date)
    &&& (plan.date matches Some(d) ==> flexible_date_sliceable(d@))
    &&& (plan.at matches Some(a) ==> prompt_time_sliceable(a@))
    &&& (plan.until matches Some(u) ==> prompt_time_sliceable(u@))
    &&& (plan.duration matches Some(d) ==> duration_in_bounds(normalize_prompt_duration_spec(d@)))
}

fn build_add_execution(plan: PromptPlan, anchor: Date) -> (r: Result<PromptExecution, String>)
    requires
        plan_texts_ok(plan),
    ensures
        add_outcome(r, plan, anchor),
{
    let title = match &plan.title {
        Some(t) => t.clone(),
        None => return Err("add には title が必要です".to_string()),
    };
    let start = match parse_optional_timestamp(&plan.start, anchor, &plan.date) {
        Ok(t) => t,
        Err(e) => return Err(e),
    };
    let end = match parse_optional_timestamp(&plan.end, anchor, &plan.date) {
        Ok(t) => t,
        Err(e) => return Err(e),
    };
    let strict = start.is_some() || end.is_some();
    let visibility = match parse_visibility(&plan.visibility) {
        Ok(v) => v,
        Err(e) => return Err(e),
    };
    let args = AddArgs {
        json: false,
        title: title.clone(),
        public: visibility == EventVisibility::Public,
        private: visibility == EventVisibility::Private,
        start,
        end,
        date: if strict {
            None
        } else {
            crate::model::clone_opt(&plan.date)
        },
        at: if strict {
            None
        } else {
            time_norm_exec(&plan.at)
        },
        until: if strict {
            None
        } else {
            time_norm_exec(&plan.until)
        },
        duration: if strict {
            None
        } else {
            duration_norm_exec(&plan.duration)
        },
        all_day: if strict {
            false
        } else {
            match plan.all_day {
                Some(b) => b,
                None => false,
            }
        },
        description: crate::model::clone_opt(&plan.description),
        attendees: Vec::new(),
        facility: None,
        calendar: None,
    };
    let mut summary: Vec<String> = Vec::new();
    summary.push("action: add".to_string());
    let mut tl = chars_of("title: ");
    crate::text::push_str(&mut tl, title.as_str());
    summary.push(string_of(tl.as_slice()));
    assert(string_views(summary@) =~= seq!["action: add"@, "title: "@ + title@]);
    push_line(&mut summary, "date: ", &args.date);
    push_line(&mut summary, "at: ", &args.at);
    push_line(&mut summary, "until: ", &args.until);
    push_line(&mut summary, "for: ", &args.duration);
    let start_text = rfc3339_of(&args.start);
    let end_text = rfc3339_of(&args.end);
    push_line(&mut summary, "start: ", &start_text);
    push_line(&mut summary, "end: ", &end_text);
    let ghost before_all_day = string_views(summary@);
    if args.all_day {
        summary.push("all_day: true".to_string());
    }
    assert(string_views(summary@) =~= before_all_day + (if args.all_day {
        seq!["all_day: true"@]
    } else {
        Seq::<Seq<char>>::empty()
    }));
    let ghost before_vis = string_views(summary@);
    if args.private {
        summary.push("visibility: private".to_string());
    } else {
        summary.push("visibility: public".to_string());
    }
    proof {
        reveal_strlit("visibility: private");
        reveal_strlit("visibility: public");
        reveal_strlit("visibility: ");
        reveal_strlit("private");
        reveal_strlit("public");
        assert("visibility: private"@ =~= "visibility: "@ + "private"@);
        assert("visibility: public"@ =~= "visibility: "@ + "public"@);
        assert(string_views(summary@) =~= before_vis + seq!["visibility: "@ + (if args.private {
            "private"@
        } else {
            "public"@
        })]);
        assert(string_views(summary@) =~= add_summary_spec(args));
    }
    let mut flags: Vec<(String, Option<String>)> = Vec::new();
    flags.push(("--title".to_string(), Some(title.clone())));
    assert(flags_view(flags@) =~= seq![("--title"@, Some(title@))]);
    let ghost before_v = flags_view(flags@);
    if args.private {
        flags.push(("--private".to_string(), None));
    } else if args.public {
        flags.push(("--public".to_string(), None));
    }
    assert(flags_view(flags@) =~= before_v + visibility_flag(args));
    push_flag(&mut flags, "--start", &start_text);
    push_flag(&mut flags, "--end", &end_text);
    push_flag(&mut flags, "--date", &args.date);
    push_flag(&mut flags, "--at", &args.at);
    push_flag(&mut flags, "--until", &args.until);
    push_flag(&mut flags, "--for", &args.duration);
    push_switch(&mut flags, "--all-day", args.all_day);
    push_flag(&mut flags, "--description", &args.description);
    assert(flags_view(flags@) =~= add_flags_spec(args));
    let shell_command = build_shell_command("add", &flags);
    Ok(
        PromptExecution {
            action: PromptAction::Add,
            command: EventsCommand::Add(args),
            shell_command,
            summary_lines: summary,
        },
    )
}

// windows ----------------------------------------------------------------
/// A window as instants, or a refusal (`Err(None)` for one by a reader).
pub type WindowOutcome = Result<(Option<int>, Option<int>), Option<Seq<char>>>;

/// The window of a clone or update given by date and times: the plan's
/// timestamps where it gives any; else nothing without a date; else the
/// window of the date (see `date_window_spec`).
pub open spec fn target_window_spec(plan: PromptPlan, anchor: Date) -> WindowOutcome {
    if plan.start is Some || plan.end is Some {
        match (ts_outcome(plan.start, anchor, plan.date), ts_outcome(plan.end, anchor, plan.date)) {
            (Ok(s), Ok(e)) => Ok((s, e)),
            _ => Err(None),
        }
    } else {
        match plan.date {
            None => Ok((None, None)),
            Some(d) => match date_window_spec(
                d@,
                opt_view(plan.at),
                opt_view(plan.until),
                opt_view(plan.duration),
                plan.all_day == Some(true),
                anchor,
            ) {
                Ok(w) => Ok((Some(w.0), Some(w.1))),
                Err(m) => Err(m),
            },
        }
    }
}

/// The offsets of a plan's window: those of its timestamps where it gives
/// any, else Japan Standard Time.
pub open spec fn window_offsets(plan: PromptPlan) -> (int, int) {
    if plan.start is Some || plan.end is Some {
        (ts_offset(plan.start), ts_offset(plan.end))
    } else {
        (JST_OFFSET_SECONDS as int, JST_OFFSET_SECONDS as int)
    }
}

/// Two optional timestamps match a window outcome, shown in the offsets
/// `offs`.
pub open spec fn window_outcome_matches(
    r: Result<(Option<Timestamp>, Option<Timestamp>), String>,
    spec: WindowOutcome,
    offs: (int, int),
) -> bool {
    match spec {
        Ok(w) => r matches Ok(p) && instant_of(p.0) == w.0 && instant_of(p.1) == w.1 && offset_fits(
            p.0,
            offs.0,
        ) && offset_fits(p.1, offs.1),
        Err(None) => r is Err,
        Err(Some(m)) => r matches Err(x) && x@ == m,
    }
}

fn strict_window(plan: &PromptPlan, anchor: Date) -> (r: Result<
    (Option<Timestamp>, Option<Timestamp>),
    String,
>)
    requires
        plan_texts_ok(*plan),
    ensures
        window_outcome_matches(
            r,
            match (
                ts_outcome(plan.start, anchor, plan.date),
                ts_outcome(plan.end, anchor, plan.date),
            ) {
                (Ok(s), Ok(e)) => Ok((s, e)),
                _ => Err(None),
            },
            (ts_offset(plan.start), ts_offset(plan.end)),
        ),
{
    let start = match parse_optional_timestamp(&plan.start, anchor, &plan.date) {
        Ok(t) => t,
        Err(e) => return Err(e),
    };
    let end = match parse_optional_timestamp(&plan.end, anchor, &plan.date) {
        Ok(t) => t,
        Err(e) => return Err(e),
    };
    Ok((start, end))
}

/// The window of a clone, or of an update given by date and times.
pub fn resolve_target_window(plan: &PromptPlan, anchor: Date) -> (r: Result<
    (Option<Timestamp>, Option<Timestamp>),
    String,
>)
    requires
        plan_texts_ok(*plan),
    ensures
        window_outcome_matches(r, target_window_spec(*plan, anchor), window_offsets(*plan)),
{
    if plan.start.is_some() || plan.end.is_some() {
        return strict_window(plan, anchor);
    }
    match &plan.date {
        None => Ok((None, None)),
        Some(d) => {
            let all_day = match plan.all_day {
                Some(b) => b,
                None => false,
            };
            match resolve_date_window(d.as_str(), &plan.at, &plan.until, &plan.duration, all_day, anchor) {
                Ok((s, e)) => Ok((Some(s), Some(e))),
                Err(e) => Err(e),
            }
        },
    }
}

pub open spec fn existing_needed_message() -> Seq<char> {
    "現在の予定時刻を参照する update には既存予定の取得が必要です"@
}

pub open spec fn preserve_date_message() -> Seq<char> {
    "preserve_time を使う場合は date が必要です"@
}

/// The window of an update: the plan's timestamps; else, keeping the
/// existing event's time of day and length, its start moved to the plan's
/// date; else the window of the date and times; else no change of time.
pub open spec fn update_times_spec(plan: PromptPlan, anchor: Date, existing: Option<CalendarEvent>) -> WindowOutcome {
    if plan.start is Some || plan.end is Some {
        target_window_spec(plan, anchor)
    } else if plan.preserve_time == Some(true) {
        match existing {
            None => Err(Some(existing_needed_message())),
            Some(ev) => match plan.date {
                None => Err(Some(preserve_date_message())),
                Some(d) => match flexible_date_spec(d@, anchor) {
                    None => Err(None),
                    Some(day) => {
                        let s = jst_at(day, ev.starts_at.hour(), ev.starts_at.minute());
                        let e = s + (ev.ends_at.instant() - ev.starts_at.instant());
                        if !jst_valid(s) {
                            Err(None)
                        } else if !jst_valid(e) {
                            Err(Some(calc_message()))
                        } else {
                            Ok((Some(s), Some(e)))
                        }
                    },
                },
            },
        }
    } else if plan.date is Some || plan.at is Some || plan.until is Some || plan.duration is Some {
        target_window_spec(plan, anchor)
    } else {
        Ok((None, None))
    }
}

/// The new start and end of an update.
pub fn resolve_update_times(plan: &PromptPlan, anchor: Date, existing: Option<&CalendarEvent>) -> (r: Result<
    (Option<Timestamp>, Option<Timestamp>),
    String,
>)
    requires
        plan_texts_ok(*plan),
    ensures
        window_outcome_matches(
            r,
            update_times_spec(
                *plan,
                anchor,
                match existing {
                    Some(e) => Some(*e),
                    None => None,
                },
            ),
            window_offsets(*plan),
        ),
{
    if plan.start.is_some() || plan.end.is_some() {
        return strict_window(plan, anchor);
    }
    let preserve = match plan.preserve_time {
        Some(b) => b,
        None => false,
    };
    if preserve {
        let ev = match existing {
            Some(e) => e,
            None => return Err(
                "現在の予定時刻を参照する update には既存予定の取得が必要です".to_string(),
            ),
        };
        let d = match &plan.date {
            Some(d) => d,
            None => return Err("preserve_time を使う場合は date が必要です".to_string()),
        };
        let day = match parse_flexible_date(d.as_str(), anchor) {
            Ok(x) => x,
            Err(e) => return Err(e),
        };
        let start = match to_jst_datetime(day, ev.starts_at.hour_exec(), ev.starts_at.minute_exec()) {
            Ok(s) => s,
            Err(e) => return Err(e),
        };
        return match start.checked_add(ev.duration()) {
            Some(end) => Ok((Some(start), Some(end))),
            None => Err("日時を計算できません".to_string()),
        };
    }
    if plan.date.is_some() || plan.at.is_some() || plan.until.is_some() || plan.duration.is_some() {
        return resolve_target_window(plan, anchor);
    }
    Ok((None, None))
}

// update -----------------------------------------------------------------
pub open spec fn update_flags_spec(a: UpdateArgs) -> Seq<FlagView> {
    seq![("--id"@, Some(a.id@))] + value_flag("--scope"@, scope_opt_text(a.scope)) + value_flag(
        "--title"@,
        opt_view(a.title),
    ) + value_flag("--start"@, ts_text(a.start)) + value_flag("--end"@, ts_text(a.end))
        + value_flag("--description"@, opt_view(a.description)) + switch_flag(
        "--clear-description"@,
        a.clear_description,
    ) + switch_flag("--web"@, a.web)
}

pub open spec fn update_summary_spec(a: UpdateArgs) -> Seq<Seq<char>> {
    seq!["action: update"@, "id: "@ + a.id@] + line("title: "@, opt_view(a.title)) + line(
        "start: "@,
        ts_text(a.start),
    ) + line("end: "@, ts_text(a.end)) + line("scope: "@, scope_opt_text(a.scope)) + (if a.web {
        seq!["web: true"@]
    } else {
        Seq::empty()
    })
}

/// An update of the event `id` to the window, with the plan's title,
/// description and flags.
pub open spec fn update_execution_matches(
    ex: PromptExecution,
    plan: PromptPlan,
    id: Seq<char>,
    w: (Option<int>, Option<int>),
    scope: Option<ApplyScopeArg>,
) -> bool {
    match ex.command {
        EventsCommand::Update(a) => {
            &&& ex.action == PromptAction::Update
            &&& !a.json
            &&& a.web == (plan.web == Some(true))
            &&& a.id@ == id
            &&& a.scope == scope
            &&& a.title == plan.title
            &&& instant_of(a.start) == w.0 && instant_of(a.end) == w.1
            &&& offset_fits(a.start, window_offsets(plan).0) && offset_fits(
                a.end,
                window_offsets(plan).1,
            )
            &&& a.description == plan.description
            &&& a.clear_description == (plan.clear_description == Some(true))
            &&& a.attendees@.len() == 0 && !a.clear_attendees
            &&& a.facility is None && !a.clear_facility
            &&& a.calendar is None && !a.clear_calendar
            &&& ex.shell_command@ == shell_command_spec("update"@, update_flags_spec(a))
            &&& string_views(ex.summary_lines@) == update_summary_spec(a)
        },
        _ => false,
    }
}

/// What an update plan becomes: refused without an identifier, where its
/// window cannot be resolved, or for an unknown scope.
pub open spec fn update_outcome(
    r: Result<PromptExecution, String>,
    plan: PromptPlan,
    anchor: Date,
    existing: Option<CalendarEvent>,
) -> bool {
    match plan.id {
        None => r matches Err(x) && x@ == "update には id が必要です"@,
        Some(id) => match update_times_spec(plan, anchor, existing) {
            Err(None) => r is Err,
            Err(Some(m)) => r matches Err(x) && x@ == m,
            Ok(w) => match plan.scope {
                None => r matches Ok(ex) && update_execution_matches(ex, plan, id@, w, None),
                Some(sc) => match scope_read(sc@) {
                    Ok(s) => r matches Ok(ex) && update_execution_matches(ex, plan, id@, w, Some(s)),
                    Err(m) => r matches Err(x) && x@ == m,
                },
            },
        },
    }
}

fn build_update_execution(plan: PromptPlan, anchor: Date, existing: Option<&CalendarEvent>) -> (r: Result<
    PromptExecution,
    String,
>)
    requires
        plan_texts_ok(plan),
    ensures
        update_outcome(
            r,
            plan,
            anchor,
            match existing {
                Some(e) => Some(*e),
                None => None,
            },
        ),
{
    let id = match &plan.id {
        Some(i) => i.clone(),
        None => return Err("update には id が必要です".to_string()),
    };
    let (start, end) = match resolve_update_times(&plan, anchor, existing) {
        Ok(w) => w,
        Err(e) => return Err(e),
    };
    let scope = match parse_scope_arg(&plan.scope) {
        Ok(s) => s,
        Err(e) => return Err(e),
    };
    let args = UpdateArgs {
        json: false,
        web: match plan.web {
            Some(b) => b,
            None => false,
        },
        id: id.clone(),
        scope,
        title: crate::model::clone_opt(&plan.title),
        start,
        end,
        description: crate::model::clone_opt(&plan.description),
        clear_description: match plan.clear_description {
            Some(b) => b,
            None => false,
        },
        attendees: Vec::new(),
        clear_attendees: false,
        facility: None,
        clear_facility: false,
        calendar: None,
        clear_calendar: false,
    };
    let mut summary: Vec<String> = Vec::new();
    summary.push("action: update".to_string());
    let mut il = chars_of("id: ");
    crate::text::push_str(&mut il, id.as_str());
    summary.push(string_of(il.as_slice()));
    assert(string_views(summary@) =~= seq!["action: update"@, "id: "@ + id@]);
    push_line(&mut summary, "title: ", &args.title);
    let start_text = rfc3339_of(&args.start);
    let end_text = rfc3339_of(&args.end);
    push_line(&mut summary, "start: ", &start_text);
    push_line(&mut summary, "end: ", &end_text);
    let scope_text_value = scope_name_opt(args.scope);
    push_line(&mut summary, "scope: ", &scope_text_value);
    let ghost before_web = string_views(summary@);
    if args.web {
        summary.push("web: true".to_string());
    }
    assert(string_views(summary@) =~= before_web + (if args.web {
        seq!["web: true"@]
    } else {
        Seq::<Seq<char>>::empty()
    }));
    let mut flags: Vec<(String, Option<String>)> = Vec::new();
    flags.push(("--id".to_string(), Some(id.clone())));
    assert(flags_view(flags@) =~= seq![("--id"@, Some(id@))]);
    push_flag(&mut flags, "--scope", &scope_text_value);
    push_flag(&mut flags, "--title", &args.title);
    push_flag(&mut flags, "--start", &start_text);
    push_flag(&mut flags, "--end", &end_text);
    push_flag(&mut flags, "--description", &args.description);
    push_switch(&mut flags, "--clear-description", args.clear_description);
    push_switch(&mut flags, "--web", args.web);
    assert(flags_view(flags@) =~= update_flags_spec(args));
    let shell_command = build_shell_command("update", &flags);
    Ok(
        PromptExecution {
            action: PromptAction::Update,
            command: EventsCommand::Update(args),
            shell_command,
            summary_lines: summary,
        },
    )
}

// clone ------------------------------------------------------------------
pub open spec fn clone_flags_spec(a: CloneArgs) -> Seq<FlagView> {
    seq![("--id"@, Some(a.id@))] + value_flag("--title"@, opt_view(a.title)) + value_flag(
        "--title-suffix"@,
        opt_view(a.title_suffix),
    ) + value_flag("--start"@, ts_text(a.start)) + value_flag("--end"@, ts_text(a.end))
}

pub open spec fn clone_summary_spec(a: CloneArgs) -> Seq<Seq<char>> {
    seq!["action: clone"@, "id: "@ + a.id@] + line("title: "@, opt_view(a.title)) + line(
        "title_suffix: "@,
        opt_view(a.title_suffix),
    ) + line("start: "@, ts_text(a.start)) + line("end: "@, ts_text(a.end))
}

/// A clone of the event `id` into the window, with the plan's titles.
pub open spec fn clone_execution_matches(
    ex: PromptExecution,
    plan: PromptPlan,
    id: Seq<char>,
    w: (Option<int>, Option<int>),
) -> bool {
    match ex.command {
        EventsCommand::Clone(a) => {
            &&& ex.action == PromptAction::Clone
            &&& !a.json
            &&& a.id@ == id
            &&& a.title == plan.title
            &&& a.title_suffix == plan.title_suffix
            &&& instant_of(a.start) == w.0 && instant_of(a.end) == w.1
            &&& offset_fits(a.start, window_offsets(plan).0) && offset_fits(
                a.end,
                window_offsets(plan).1,
            )
            &&& ex.shell_command@ == shell_command_spec("clone"@, clone_flags_spec(a))
            &&& string_views(ex.summary_lines@) == clone_summary_spec(a)
        },
        _ => false,
    }
}

/// What a clone plan becomes: refused without an identifier or where its
/// window cannot be resolved.
pub open spec fn clone_outcome(r: Result<PromptExecution, String>, plan: PromptPlan, anchor: Date) -> bool {
    match plan.id {
        None => r matches Err(x) && x@ == "clone には id が必要です"@,
        Some(id) => match target_window_spec(plan, anchor) {
            Err(None) => r is Err,
            Err(Some(m)) => r matches Err(x) && x@ == m,
            Ok(w) => r matches Ok(ex) && clone_execution_matches(ex, plan, id@, w),
        },
    }
}

fn build_clone_execution(plan: PromptPlan, anchor: Date) -> (r: Result<PromptExecution, String>)
    requires
        plan_texts_ok(plan),
    ensures
        clone_outcome(r, plan, anchor),
{
    let id = match &plan.id {
        Some(i) => i.clone(),
        None => return Err("clone には id が必要です".to_string()),
    };
    let (start, end) = match resolve_target_window(&plan, anchor) {
        Ok(w) => w,
        Err(e) => return Err(e),
    };
    let args = CloneArgs {
        json: false,
        id: id.clone(),
        title: crate::model::clone_opt(&plan.title),
        title_suffix: crate::model::clone_opt(&plan.title_suffix),
        start,
        end,
    };
    let mut summary: Vec<String> = Vec::new();
    summary.push("action: clone".to_string());
    let mut il = chars_of("id: ");
    crate::text::push_str(&mut il, id.as_str());
    summary.push(string_of(il.as_slice()));
    assert(string_views(summary@) =~= seq!["action: clone"@, "id: "@ + id@]);
    push_line(&mut summary, "title: ", &args.title);
    push_line(&mut summary, "title_suffix: ", &args.title_suffix);
    let start_text = rfc3339_of(&args.start);
    let end_text = rfc3339_of(&args.end);
    push_line(&mut summary, "start: ", &start_text);
    push_line(&mut summary, "end: ", &end_text);
    let mut flags: Vec<(String, Option<String>)> = Vec::new();
    flags.push(("--id".to_string(), Some(id.clone())));
    assert(flags_view(flags@) =~= seq![("--id"@, Some(id@))]);
    push_flag(&mut flags, "--title", &args.title);
    push_flag(&mut flags, "--title-suffix", &args.title_suffix);
    push_flag(&mut flags, "--start", &start_text);
    push_flag(&mut flags, "--end", &end_text);
    assert(flags_view(flags@) =~= clone_flags_spec(args));
    let shell_command = build_shell_command("clone", &flags);
    Ok(
        PromptExecution {
            action: PromptAction::Clone,
            command: EventsCommand::Clone(args),
            shell_command,
            summary_lines: summary,
        },
    )
}

// delete -----------------------------------------------------------------
pub open spec fn delete_flags_spec(a: DeleteArgs) -> Seq<FlagView> {
    seq![("--id"@, Some(a.id@))] + value_flag("--scope"@, scope_opt_text(a.scope))
}

pub open spec fn delete_summary_spec(a: DeleteArgs) -> Seq<Seq<char>> {
    seq!["action: delete"@, "id: "@ + a.id@] + line("scope: "@, scope_opt_text(a.scope))
}

/// A deletion of the event `id`.
pub open spec fn delete_execution_matches(ex: PromptExecution, id: Seq<char>, scope: Option<ApplyScopeArg>) -> bool {
    match ex.command {
        EventsCommand::Delete(a) => {
            &&& ex.action == PromptAction::Delete
            &&& !a.json
            &&& a.id@ == id
            &&& a.scope == scope
            &&& ex.shell_command@ == shell_command_spec("delete"@, delete_flags_spec(a))
            &&& string_views(ex.summary_lines@) == delete_summary_spec(a)
        },
        _ => false,
    }
}

/// What a deletion plan becomes: refused without an identifier or for an
/// unknown scope.
pub open spec fn delete_outcome(r: Result<PromptExecution, String>, plan: PromptPlan) -> bool {
    match plan.id {
        None => r matches Err(x) && x@ == "delete には id が必要です"@,
        Some(id) => match plan.scope {
            None => r matches Ok(ex) && delete_execution_matches(ex, id@, None),
            Some(sc) => match scope_read(sc@) {
                Ok(s) => r matches Ok(ex) && delete_execution_matches(ex, id@, Some(s)),
                Err(m) => r matches Err(x) && x@ == m,
            },
        },
    }
}

fn build_delete_execution(plan: PromptPlan) -> (r: Result<PromptExecution, String>)
    ensures
        delete_outcome(r, plan),
{
    let id = match &plan.id {
        Some(i) => i.clone(),
        None => return Err("delete には id が必要です".to_string()),
    };
    let scope = match parse_scope_arg(&plan.scope) {
        Ok(s) => s,
        Err(e) => return Err(e),
    };
    let args = DeleteArgs { json: false, id: id.clone(), scope };
    let mut summary: Vec<String> = Vec::new();
    summary.push("action: delete".to_string());
    let mut il = chars_of("id: ");
    crate::text::push_str(&mut il, id.as_str());
    summary.push(string_of(il.as_slice()));
    assert(string_views(summary@) =~= seq!["action: delete"@, "id: "@ + id@]);
    let scope_text_value = scope_name_opt(args.scope);
    push_line(&mut summary, "scope: ", &scope_text_value);
    let mut flags: Vec<(String, Option<String>)> = Vec::new();
    flags.push(("--id".to_string(), Some(id.clone())));
    assert(flags_view(flags@) =~= seq![("--id"@, Some(id@))]);
    push_flag(&mut flags, "--scope", &scope_text_value);
    let shell_command = build_shell_command("delete", &flags);
    Ok(
        PromptExecution {
            action: PromptAction::Delete,
            command: EventsCommand::Delete(args),
            shell_command,
            summary_lines: summary,
        },
    )
}

/// What a plan becomes, by its action.
pub open spec fn execution_outcome(
    r: Result<PromptExecution, String>,
    plan: PromptPlan,
    anchor: Date,
    existing: Option<CalendarEvent>,
) -> bool {
    match plan.action {
        PromptAction::List => r matches Ok(ex) && list_execution_matches(ex, plan),
        PromptAction::Add => add_outcome(r, plan, anchor),
        PromptAction::Update => update_outcome(r, plan, anchor, existing),
        PromptAction::Clone => clone_outcome(r, plan, anchor),
        PromptAction::Delete => delete_outcome(r, plan),
    }
}

/// Turns a plan into the command it asks for, with its preview. `anchor`
/// is today's JST date; `existing` is the event an update refers to, where
/// it was fetched.
pub fn build_execution(plan: PromptPlan, anchor: Date, existing: Option<&CalendarEvent>) -> (r: Result<
    PromptExecution,
    String,
>)
    requires
        plan_texts_ok(plan),
    ensures
        execution_outcome(
            r,
            plan,
            anchor,
            match existing {
                Some(e) => Some(*e),
                None => None,
            },
        ),
{
    match plan.action {
        PromptAction::List => Ok(build_list_execution(plan)),
        PromptAction::Add => build_add_execution(plan, anchor),
        PromptAction::Update => build_update_execution(plan, anchor, existing),
        PromptAction::Clone => build_clone_execution(plan, anchor),
        PromptAction::Delete => build_delete_execution(plan),
    }
}

// ---------------------------------------------------------------------
// The instruction to the model, and the confirmation
// ---------------------------------------------------------------------
pub open spec fn instruction_head() -> Seq<char> {
    "You convert a Japanese calendar instruction into a single JSON object.\nReturn JSON only. No markdown. No explanation.\nToday in JST is "@
}

pub open spec fn instruction_rules() -> Seq<char> {
    ".\nAllowed action values: list, add, update, clone, delete.\nUse these keys when needed: action, id, title, title_suffix, date, from, to, at, until, for, all_day, description, clear_description, start, end, visibility, scope, web, preserve_time.\nRules:\n- Prefer short friendly values like today, tomorrow, 2026-03-10, 15:00, 1h.\n- If you use start/end, include timezone like +09:00.\n- For '同じ時間' or '同時間', set preserve_time=true and set the target date.\n- For all-day events, set all_day=true and omit at/until/for/start/end.\n- For add visibility, use visibility=public or visibility=private.\n- For update/delete/clone, always include id.\n- For recurring scope, use this, after, or all.\n- If an explicit RFC3339 time is more precise, use start/end.\n- Omit keys that are not needed.\nUser request: "@
}

/// The instruction the model gets: what to return, today's JST date, the
/// keys and rules of a plan, and the request.
pub open spec fn system_prompt_spec(user_prompt: Seq<char>, anchor: Date) -> Seq<char> {
    instruction_head() + date_ymd_text(anchor) + instruction_rules() + user_prompt + "\n"@
}

/// The instruction for the model.
pub fn build_system_prompt(user_prompt: &str, anchor: Date) -> (r: String)
    ensures
        r@ == system_prompt_spec(user_prompt@, anchor),
{
    let mut out = chars_of(
        "You convert a Japanese calendar instruction into a single JSON object.\nReturn JSON only. No markdown. No explanation.\nToday in JST is ",
    );
    let ymd = format_ymd(&anchor);
    crate::text::push_str(&mut out, ymd.as_str());
    crate::text::push_str(
        &mut out,
        ".\nAllowed action values: list, add, update, clone, delete.\nUse these keys when needed: action, id, title, title_suffix, date, from, to, at, until, for, all_day, description, clear_description, start, end, visibility, scope, web, preserve_time.\nRules:\n- Prefer short friendly values like today, tomorrow, 2026-03-10, 15:00, 1h.\n- If you use start/end, include timezone like +09:00.\n- For '同じ時間' or '同時間', set preserve_time=true and set the target date.\n- For all-day events, set all_day=true and omit at/until/for/start/end.\n- For add visibility, use visibility=public or visibility=private.\n- For update/delete/clone, always include id.\n- For recurring scope, use this, after, or all.\n- If an explicit RFC3339 time is more precise, use start/end.\n- Omit keys that are not needed.\nUser request: ",
    );
    crate::text::push_str(&mut out, user_prompt);
    crate::text::push_str(&mut out, "\n");
    string_of(out.as_slice())
}

/// An answer that confirms: `y` or `yes`, in any case, around whitespace.
pub open spec fn affirmative(input: Seq<char>) -> bool {
    let t = crate::text::lower(trim(input));
    t == "y"@ || t == "yes"@
}

/// Whether the answer to the confirmation question confirms.
pub fn is_affirmative(input: &str) -> (r: bool)
    ensures
        r == affirmative(input@),
{
    let t = trim_str(input);
    let l = crate::text::lower_chars(t.as_slice());
    let text = string_of(l.as_slice());
    str_eq(text.as_str(), "y") || str_eq(text.as_str(), "yes")
}

pub open spec fn yes_refused_message() -> Seq<char> {
    "`--yes` は prompt モードの list/add/clone でのみ使えます。update/delete では確認が必須です"@
}

/// `--yes` skips the confirmation only where the execution allows it.
pub fn check_yes(execution: &PromptExecution, yes: bool) -> (r: Result<(), String>)
    ensures
        r is Err <==> (yes && !(execution.action == PromptAction::List || execution.action
            == PromptAction::Add || execution.action == PromptAction::Clone)),
        r matches Err(m) ==> m@ == yes_refused_message(),
{
    if yes && !execution.supports_yes() {
        return Err(
            "`--yes` は prompt モードの list/add/clone でのみ使えます。update/delete では確認が必須です".to_string(),
        );
    }
    Ok(())
}

} // verus!
