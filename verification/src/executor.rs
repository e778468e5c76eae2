//! What an `events` subcommand asks of the backend: its arguments checked
//! and turned into one backend request, and the report of the outcome.
use vstd::prelude::*;
use crate::backend::{
    default_window, default_window_in_range, default_window_offsets, ApplyScope, ListQuery,
};
use crate::cli::{
    add_texts_ok,
    add_window_spec,
    list_texts_ok,
    list_window_spec,
    new_event_matches,
    nothing_to_update_message,
    patch_conflict,
    patch_matches,
    title_conflict_message,
    update_changes_nothing,
    ApplyScopeArg,
    EventsCommand,
};
use crate::model::{CloneOverrides, EventPatch, NewEvent};
use crate::text::chars_of;
use crate::time::{Date, TimeDelta, Timestamp};

verus! {

/// The scope of the command line as the backend takes it.
pub open spec fn scope_of(scope: ApplyScopeArg) -> ApplyScope {
    match scope {
        ApplyScopeArg::This => ApplyScope::This,
        ApplyScopeArg::After => ApplyScope::After,
        ApplyScopeArg::All => ApplyScope::All,
    }
}

/// The backend's scope for a command-line scope.
pub fn into_apply_scope(scope: ApplyScopeArg) -> (r: ApplyScope)
    ensures
        r == scope_of(scope),
{
    match scope {
        ApplyScopeArg::This => ApplyScope::This,
        ApplyScopeArg::After => ApplyScope::After,
        ApplyScopeArg::All => ApplyScope::All,
    }
}

/// An optional command-line scope as the backend takes it.
pub fn apply_scope_from_arg(scope: Option<ApplyScopeArg>) -> (r: Option<ApplyScope>)
    ensures
        r == match scope {
            Some(s) => Some(scope_of(s)),
            None => None,
        },
{
    match scope {
        Some(s) => Some(into_apply_scope(s)),
        None => None,
    }
}

/// One request to the backend, with how its outcome is shown.
#[derive(Debug)]
pub enum EventsPlan {
    List { query: ListQuery, json: bool },
    Add { input: NewEvent, json: bool },
    Update { id: String, patch: EventPatch, scope: Option<ApplyScope>, web: bool, json: bool },
    Clone { id: String, overrides: CloneOverrides, json: bool },
    Delete { id: String, scope: Option<ApplyScope>, json: bool },
}

pub open spec fn empty_id_message() -> Seq<char> {
    "削除対象の ID が空です"@
}

pub open spec fn window_overflow_message() -> Seq<char> {
    "日時を計算できません"@
}

/// An optional scope as the backend takes it.
pub open spec fn scope_opt(scope: Option<ApplyScopeArg>) -> Option<ApplyScope> {
    match scope {
        Some(s) => Some(scope_of(s)),
        None => None,
    }
}

/// The listing week around instants: a lone bound gets the other a week
/// away, and no bound gives the week from `anchor`.
pub open spec fn default_window_instants(from: Option<int>, to: Option<int>, anchor: int) -> (
    int,
    int,
) {
    match (from, to) {
        (Some(f), Some(t)) => (f, t),
        (Some(f), None) => (f, f + crate::backend::week_nanos()),
        (None, Some(t)) => (t - crate::backend::week_nanos(), t),
        (None, None) => (anchor, anchor + crate::backend::week_nanos()),
    }
}

/// The texts of a command meet the constraints of their readers.
pub open spec fn command_texts_ok(c: EventsCommand) -> bool {
    match c {
        EventsCommand::List(a) => list_texts_ok(a),
        EventsCommand::Add(a) => add_texts_ok(a),
        _ => true,
    }
}

/// A listing window filled out to a week, or `None` where a bound would
/// leave chrono's range.
pub fn default_window_checked(query: ListQuery, anchor: Timestamp) -> (r: Option<ListQuery>)
    ensures
        r is Some <==> default_window_in_range(query.from, query.to, anchor),
        r matches Some(q) ==> q.from is Some && q.to is Some && (
        q.from->0.instant(), q.to->0.instant()) == default_window(query.from, query.to, anchor) && (
        q.from->0.offset(), q.to->0.offset()) == default_window_offsets(query.from, query.to, anchor),
{
    let week = TimeDelta::week();
    let ok = match (query.from, query.to) {
        (Some(_), Some(_)) => true,
        (Some(f), None) => f.checked_add(week).is_some(),
        (None, Some(t)) => t.checked_sub(week).is_some(),
        (None, None) => anchor.checked_add(week).is_some(),
    };
    if ok {
        Some(query.with_default_window_from(anchor))
    } else {
        None
    }
}

/// A listing window filled out from `from` and `to`: a bound computed from
/// the other keeps that one's offset, and bounds computed from nothing
/// take the offset of `midnight`.
pub open spec fn window_offsets_kept(
    from: Option<int>,
    to: Option<int>,
    q: ListQuery,
    midnight: Timestamp,
) -> bool {
    match (from, to) {
        (Some(_), None) => q.to->0.offset() == q.from->0.offset(),
        (None, Some(_)) => q.from->0.offset() == q.to->0.offset(),
        (None, None) => q.from->0.offset() == midnight.offset() && q.to->0.offset()
            == midnight.offset(),
        _ => true,
    }
}

/// Checks a command's arguments and turns it into one backend request.
/// `today` is the JST date that relative dates count from, `midnight` the
/// start of the default listing week.
pub fn plan_events_command(command: EventsCommand, today: Date, midnight: Timestamp) -> (r: Result<
    EventsPlan,
    String,
>)
    requires
        command_texts_ok(command),
    ensures
        match command {
            EventsCommand::List(a) => match list_window_spec(a, today) {
                Ok(w) => match r {
                    Ok(EventsPlan::List { query, json }) => query.from is Some && query.to is Some
                        && (query.from->0.instant(), query.to->0.instant()) == default_window_instants(
                        w.0,
                        w.1,
                        midnight.instant(),
                    ) && json == a.json && window_offsets_kept(w.0, w.1, query, midnight),
                    Ok(_) => false,
                    Err(x) => x@ == window_overflow_message(),
                },
                Err(None) => r is Err,
                Err(Some(m)) => r matches Err(x) && x@ == m,
            },
            EventsCommand::Add(a) => match add_window_spec(a, today) {
                Ok(w) => r matches Ok(EventsPlan::Add { input, json }) && input.starts_at.instant()
                    == w.0 && input.ends_at.instant() == w.1 && new_event_matches(input, a) && json
                    == a.json,
                Err(None) => r is Err,
                Err(Some(m)) => r matches Err(x) && x@ == m,
            },
            EventsCommand::Update(a) => match patch_conflict(a) {
                Some(m) => r matches Err(x) && x@ == m,
                None => if update_changes_nothing(a) {
                    r matches Err(x) && x@ == nothing_to_update_message()
                } else {
                    r matches Ok(EventsPlan::Update { id, patch, scope, web, json }) && id == a.id
                        && patch_matches(patch, a) && scope == scope_opt(a.scope) && web == a.web
                        && json == a.json
                },
            },
            EventsCommand::Clone(a) => if a.title is Some && a.title_suffix is Some {
                r matches Err(x) && x@ == title_conflict_message()
            } else {
                r matches Ok(EventsPlan::Clone { id, overrides, json }) && id == a.id
                    && overrides.title == a.title && overrides.title_suffix == a.title_suffix
                    && overrides.starts_at == a.start && overrides.ends_at == a.end && json
                    == a.json
            },
            EventsCommand::Delete(a) => if a.id@.len() == 0 {
                r matches Err(x) && x@ == empty_id_message()
            } else {
                r matches Ok(EventsPlan::Delete { id, scope, json }) && id == a.id && scope
                    == scope_opt(a.scope) && json == a.json
            },
        },
{
    match command {
        EventsCommand::List(args) => {
            let query = match args.query(today) {
                Ok(q) => q,
                Err(e) => return Err(e),
            };
            match default_window_checked(query, midnight) {
                Some(q) => Ok(EventsPlan::List { query: q, json: args.json }),
                None => Err("日時を計算できません".to_string()),
            }
        },
        EventsCommand::Add(args) => match args.new_event(today) {
            Ok(input) => Ok(EventsPlan::Add { input, json: args.json }),
            Err(e) => Err(e),
        },
        EventsCommand::Update(args) => {
            let patch = match args.patch() {
                Ok(p) => p,
                Err(e) => return Err(e),
            };
            let scope = apply_scope_from_arg(args.scope);
            Ok(EventsPlan::Update { id: args.id, patch, scope, web: args.web, json: args.json })
        },
        EventsCommand::Clone(args) => match args.overrides() {
            Ok(overrides) => Ok(EventsPlan::Clone { id: args.id, overrides, json: args.json }),
            Err(e) => Err(e),
        },
        EventsCommand::Delete(args) => {
            if chars_of(args.id.as_str()).len() == 0 {
                return Err("削除対象の ID が空です".to_string());
            }
            Ok(
                EventsPlan::Delete {
                    id: args.id,
                    scope: apply_scope_from_arg(args.scope),
                    json: args.json,
                },
            )
        },
    }
}

/// Whether the texts of a command meet the constraints of their readers.
pub fn command_texts_ok_exec(command: &EventsCommand) -> (r: bool)
    ensures
        r == command_texts_ok(*command),
{
    match command {
        EventsCommand::List(a) => {
            let from_ok = match &a.from {
                Some(f) => crate::datetime::flexible_date_text_ok(f.as_str()),
                None => true,
            };
            let to_ok = match &a.to {
                Some(t) => crate::datetime::flexible_date_text_ok(t.as_str()),
                None => true,
            };
            let date_ok = match &a.date {
                Some(d) => crate::datetime::flexible_date_text_ok(d.as_str()),
                None => true,
            };
            let duration_ok = match &a.duration {
                Some(d) => crate::datetime::duration_text_ok(d.as_str()),
                None => true,
            };
            from_ok && to_ok && date_ok && duration_ok
        },
        EventsCommand::Add(a) => match &a.date {
            Some(d) => {
                let at_ok = match &a.at {
                    Some(x) => crate::datetime::prompt_time_text_ok(x.as_str()),
                    None => true,
                };
                let until_ok = match &a.until {
                    Some(x) => crate::datetime::prompt_time_text_ok(x.as_str()),
                    None => true,
                };
                let duration_ok = match &a.duration {
                    Some(x) => {
                        let n = crate::datetime::normalize_prompt_duration(x.as_str());
                        crate::datetime::duration_text_ok(n.as_str())
                    },
                    None => true,
                };
                crate::datetime::flexible_date_text_ok(d.as_str()) && at_ok && until_ok
                    && duration_ok
            },
            None => true,
        },
        _ => true,
    }
}

} // verus!
