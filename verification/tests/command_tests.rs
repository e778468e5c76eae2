use cbzcal::backend::ApplyScope;
use cbzcal::cli::{
    AddArgs, ApplyScopeArg, CloneArgs, DeleteArgs, EventsCommand, ListArgs, UpdateArgs,
};
use cbzcal::datetime::parse_timestamp;
use cbzcal::executor::{
    apply_scope_from_arg, into_apply_scope, plan_events_command, EventsPlan,
};
use cbzcal::formats::to_rfc3339;
use cbzcal::model::EventVisibility;
use cbzcal::time::{Date, Timestamp};

fn today() -> Date {
    Date::from_ymd(2026, 3, 9).expect("date")
}

fn midnight() -> Timestamp {
    parse_timestamp("2026-03-09T00:00:00+09:00").expect("midnight")
}

fn update_args(id: &str) -> UpdateArgs {
    UpdateArgs {
        json: false,
        web: false,
        id: id.to_string(),
        scope: None,
        title: None,
        start: None,
        end: None,
        description: None,
        clear_description: false,
        attendees: Vec::new(),
        clear_attendees: false,
        facility: None,
        clear_facility: false,
        calendar: None,
        clear_calendar: false,
    }
}

fn add_args(date: Option<&str>, at: Option<&str>, duration: Option<&str>) -> AddArgs {
    AddArgs {
        json: false,
        title: "テスト予定".to_string(),
        public: true,
        private: false,
        start: None,
        end: None,
        date: date.map(|d| d.to_string()),
        at: at.map(|a| a.to_string()),
        until: None,
        duration: duration.map(|d| d.to_string()),
        all_day: false,
        description: None,
        attendees: Vec::new(),
        facility: None,
        calendar: None,
    }
}

#[test]
fn into_apply_scope_this() {
    assert_eq!(into_apply_scope(ApplyScopeArg::This), ApplyScope::This);
}

#[test]
fn into_apply_scope_after() {
    assert_eq!(into_apply_scope(ApplyScopeArg::After), ApplyScope::After);
}

#[test]
fn into_apply_scope_all() {
    assert_eq!(into_apply_scope(ApplyScopeArg::All), ApplyScope::All);
}

#[test]
fn optional_scope_is_mapped() {
    assert_eq!(apply_scope_from_arg(None), None);
    assert_eq!(apply_scope_from_arg(Some(ApplyScopeArg::After)), Some(ApplyScope::After));
}

#[test]
fn delete_with_empty_id_is_refused() {
    let command = EventsCommand::Delete(DeleteArgs { json: false, id: "".to_string(), scope: None });
    let result = plan_events_command(command, today(), midnight());
    assert!(result.unwrap_err().contains("空"));
}

#[test]
fn delete_keeps_id_and_scope() {
    let command = EventsCommand::Delete(DeleteArgs {
        json: true,
        id: "3096804@2026-03-09".to_string(),
        scope: Some(ApplyScopeArg::All),
    });
    match plan_events_command(command, today(), midnight()).expect("plan") {
        EventsPlan::Delete { id, scope, json } => {
            assert_eq!(id, "3096804@2026-03-09");
            assert_eq!(scope, Some(ApplyScope::All));
            assert!(json);
        }
        _ => panic!("delete"),
    }
}

#[test]
fn update_without_changes_is_refused() {
    let command = EventsCommand::Update(update_args("3096804@2026-03-09"));
    let error = plan_events_command(command, today(), midnight()).unwrap_err();
    assert_eq!(error, "更新対象がありません。少なくとも 1 つの変更オプションを指定してください");

    let mut web = update_args("3096804@2026-03-09");
    web.web = true;
    let error = plan_events_command(EventsCommand::Update(web), today(), midnight()).unwrap_err();
    assert!(error.contains("更新対象がありません"));
}

#[test]
fn update_patch_refuses_options_that_change_nothing() {
    let args = update_args("3096804@2026-03-09");
    assert_eq!(
        args.patch().unwrap_err(),
        "更新対象がありません。少なくとも 1 つの変更オプションを指定してください"
    );
    let mut clear = update_args("3096804@2026-03-09");
    clear.clear_attendees = true;
    assert!(clear.patch().expect("patch").attendees.expect("attendees").is_empty());
}

#[test]
fn update_with_title_patch() {
    let mut args = update_args("3096804@2026-03-09");
    args.title = Some("新タイトル".to_string());
    args.clear_facility = true;
    match plan_events_command(EventsCommand::Update(args), today(), midnight()).expect("plan") {
        EventsPlan::Update { id, patch, scope, web, json } => {
            assert_eq!(id, "3096804@2026-03-09");
            assert_eq!(patch.title.as_deref(), Some("新タイトル"));
            assert_eq!(patch.facility, Some(None));
            assert!(patch.description.is_none());
            assert!(scope.is_none() && !web && !json);
        }
        _ => panic!("update"),
    }
}

#[test]
fn conflicting_update_options_are_refused() {
    let mut args = update_args("x");
    args.description = Some("d".to_string());
    args.clear_description = true;
    assert_eq!(
        args.patch().unwrap_err(),
        "`--description` と `--clear-description` は同時に使えません"
    );
    let mut attendees = update_args("x");
    attendees.attendees = vec!["a".to_string()];
    attendees.clear_attendees = true;
    assert_eq!(
        attendees.patch().unwrap_err(),
        "`--attendee` と `--clear-attendees` は同時に使えません"
    );
    let mut cleared = update_args("x");
    cleared.clear_attendees = true;
    assert_eq!(cleared.patch().unwrap().attendees.map(|a| a.len()), Some(0));
}

#[test]
fn clone_title_options_conflict() {
    let args = CloneArgs {
        json: false,
        id: "3096804@2026-03-09".to_string(),
        title: Some("クローン".to_string()),
        title_suffix: Some("(2)".to_string()),
        start: None,
        end: None,
    };
    assert_eq!(
        plan_events_command(EventsCommand::Clone(args), today(), midnight()).unwrap_err(),
        "`--title` と `--title-suffix` はどちらか一方だけ指定してください"
    );
}

#[test]
fn add_from_date_time_and_duration() {
    let command = EventsCommand::Add(add_args(Some("2026-03-15"), Some("10:00"), Some("1h")));
    match plan_events_command(command, today(), midnight()).expect("plan") {
        EventsPlan::Add { input, json } => {
            assert_eq!(to_rfc3339(&input.starts_at), "2026-03-15T10:00:00+09:00");
            assert_eq!(to_rfc3339(&input.ends_at), "2026-03-15T11:00:00+09:00");
            assert_eq!(input.title, "テスト予定");
            assert_eq!(input.visibility, EventVisibility::Public);
            assert!(!json);
        }
        _ => panic!("add"),
    }
}

#[test]
fn add_with_only_a_date_is_a_whole_day() {
    let mut args = add_args(Some("3/10"), None, None);
    args.private = true;
    args.public = false;
    let input = args.new_event(today()).expect("event");
    assert_eq!(to_rfc3339(&input.starts_at), "2026-03-10T00:00:00+09:00");
    assert_eq!(to_rfc3339(&input.ends_at), "2026-03-11T00:00:00+09:00");
    assert_eq!(input.visibility, EventVisibility::Private);
}

#[test]
fn add_errors() {
    assert_eq!(
        add_args(None, None, None).new_event(today()).unwrap_err(),
        "`--start` と `--end`、または `--date` を指定してください"
    );
    assert_eq!(
        add_args(Some("today"), Some("9"), None).new_event(today()).unwrap_err(),
        "date と at を使う場合は until か for も必要です"
    );
    let mut both = add_args(Some("today"), None, None);
    both.private = true;
    assert_eq!(both.new_event(today()).unwrap_err(), "`--public` と `--private` は同時に使えません");
    let mut half = add_args(None, None, None);
    half.start = Some(midnight());
    assert_eq!(half.new_event(today()).unwrap_err(), "`--start` と `--end` は両方指定してください");
}

#[test]
fn list_defaults_to_a_week_from_midnight() {
    let args = ListArgs { json: false, from: None, to: None, date: None, duration: None };
    match plan_events_command(EventsCommand::List(args), today(), midnight()).expect("plan") {
        EventsPlan::List { query, json } => {
            assert_eq!(to_rfc3339(&query.from.unwrap()), "2026-03-09T00:00:00+09:00");
            assert_eq!(to_rfc3339(&query.to.unwrap()), "2026-03-16T00:00:00+09:00");
            assert!(!json);
        }
        _ => panic!("list"),
    }
}

#[test]
fn list_windows_from_short_forms() {
    let day = ListArgs { json: false, from: None, to: None, date: Some("today".to_string()), duration: None };
    let q = day.query(today()).expect("query");
    assert_eq!(to_rfc3339(&q.from.unwrap()), "2026-03-09T00:00:00+09:00");
    assert_eq!(to_rfc3339(&q.to.unwrap()), "2026-03-10T00:00:00+09:00");

    let span = ListArgs {
        json: false,
        from: Some("today".to_string()),
        to: None,
        date: None,
        duration: Some("7d".to_string()),
    };
    let q = span.query(today()).expect("query");
    assert_eq!(to_rfc3339(&q.to.unwrap()), "2026-03-16T00:00:00+09:00");

    let explicit = ListArgs {
        json: false,
        from: Some("2026-03-09T00:00:00+09:00".to_string()),
        to: Some("2026-03-16T00:00:00+09:00".to_string()),
        date: None,
        duration: None,
    };
    let q = explicit.query(today()).expect("query");
    assert_eq!(to_rfc3339(&q.to.unwrap()), "2026-03-16T00:00:00+09:00");

    let conflict = ListArgs {
        json: false,
        from: Some("today".to_string()),
        to: None,
        date: Some("today".to_string()),
        duration: None,
    };
    assert_eq!(conflict.query(today()).unwrap_err(), "`--date` と `--from` / `--to` は同時に使えません");
    let lonely = ListArgs { json: false, from: None, to: None, date: None, duration: Some("1d".to_string()) };
    assert_eq!(lonely.query(today()).unwrap_err(), "`--for` には `--from` か `--date` が必要です");
}

#[test]
fn add_plan_carries_every_option() {
    let mut args = add_args(None, None, None);
    args.start = Some(parse_timestamp("2026-03-10T10:00:00+09:00").expect("start"));
    args.end = Some(parse_timestamp("2026-03-10T02:00:00Z").expect("end"));
    args.description = Some("CLI 基盤の確認".to_string());
    args.attendees = vec!["alice".to_string(), "bob".to_string()];
    args.facility = Some("会議室A".to_string());
    args.calendar = Some("開発".to_string());
    args.json = true;
    match plan_events_command(EventsCommand::Add(args), today(), midnight()).expect("plan") {
        EventsPlan::Add { input, json } => {
            assert!(json);
            assert_eq!(input.title, "テスト予定");
            assert_eq!(input.description.as_deref(), Some("CLI 基盤の確認"));
            assert_eq!(input.attendees, vec!["alice".to_string(), "bob".to_string()]);
            assert_eq!(input.facility.as_deref(), Some("会議室A"));
            assert_eq!(input.calendar.as_deref(), Some("開発"));
            assert_eq!(to_rfc3339(&input.starts_at), "2026-03-10T10:00:00+09:00");
            assert_eq!(to_rfc3339(&input.ends_at), "2026-03-10T02:00:00+00:00");
        }
        _ => panic!("add"),
    }
}
