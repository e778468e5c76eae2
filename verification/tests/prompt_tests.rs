use cbzcal::cli::EventsCommand;
use cbzcal::datetime::parse_timestamp;
use cbzcal::formats::to_rfc3339;
use cbzcal::model::{CalendarEvent, EventVisibility};
use cbzcal::prompt::{
    build_execution, build_shell_command, build_system_prompt, check_yes, extract_day_only,
    extract_month_day, extract_quoted, infer_date_from_prompt, infer_title_from_prompt,
    infer_visibility_from_prompt, is_affirmative, looks_like_date_expression, normalize_prompt_plan,
    parse_scope_arg, parse_visibility, prompt_implies_add, prompt_mentions_explicit_id,
    prompt_plan_json_text, render_preview, shell_escape, PromptAction, PromptPlan,
};
use cbzcal::time::Date;

fn anchor() -> Date {
    Date::from_ymd(2026, 3, 9).expect("date")
}

fn event() -> CalendarEvent {
    CalendarEvent {
        id: "sEID=2570212&UID=379&GID=183&Date=da.2026.3.9&BDate=da.2026.3.9".to_string(),
        title: "サンプル設定".to_string(),
        description: None,
        starts_at: parse_timestamp("2026-03-09T13:30:00+09:00").expect("start"),
        ends_at: parse_timestamp("2026-03-09T14:30:00+09:00").expect("end"),
        attendees: Vec::new(),
        facility: None,
        calendar: None,
        visibility: EventVisibility::Public,
        version: 1,
    }
}

fn plan(action: PromptAction) -> PromptPlan {
    PromptPlan {
        action,
        id: None,
        title: None,
        title_suffix: None,
        date: None,
        from: None,
        to: None,
        at: None,
        until: None,
        duration: None,
        all_day: None,
        description: None,
        clear_description: None,
        start: None,
        end: None,
        visibility: None,
        scope: None,
        web: None,
        preserve_time: None,
    }
}

#[test]
fn update_plan_can_preserve_existing_time() {
    let plan = PromptPlan {
        id: Some("2570212@2026-03-09".to_string()),
        date: Some("tomorrow".to_string()),
        preserve_time: Some(true),
        ..plan(PromptAction::Update)
    };

    let execution = build_execution(plan, anchor(), Some(&event())).expect("execution");
    let EventsCommand::Update(args) = execution.command else {
        panic!("update");
    };
    assert_eq!(to_rfc3339(&args.start.expect("start")), "2026-03-10T13:30:00+09:00");
    assert_eq!(to_rfc3339(&args.end.expect("end")), "2026-03-10T14:30:00+09:00");
}

#[test]
fn add_preview_uses_prompt_long_option_compatible_flags() {
    let plan = PromptPlan {
        title: Some("伊藤様と打ち合わせ".to_string()),
        date: Some("tomorrow".to_string()),
        at: Some("15:00".to_string()),
        duration: Some("1h".to_string()),
        ..plan(PromptAction::Add)
    };

    let execution = build_execution(plan, anchor(), None).expect("execution");
    assert_eq!(
        execution.shell_command,
        "cbzcal events add --title '伊藤様と打ち合わせ' --public --date tomorrow --at 15:00 --for 1h"
    );
}

#[test]
fn add_execution_prefers_strict_timestamps_over_date_fields() {
    let plan = PromptPlan {
        title: Some("ミーティング".to_string()),
        date: Some("2026-03-10".to_string()),
        at: Some("17:30".to_string()),
        duration: Some("3h".to_string()),
        start: Some("2026-03-10T17:30:00+09:00".to_string()),
        end: Some("2026-03-10T20:30:00+09:00".to_string()),
        ..plan(PromptAction::Add)
    };

    let execution = build_execution(plan, anchor(), None).expect("execution");
    let shell_command = execution.shell_command.clone();
    let EventsCommand::Add(args) = execution.command else {
        panic!("add");
    };
    assert!(args.public);
    assert!(!args.private);
    assert!(args.date.is_none());
    assert!(args.at.is_none());
    assert!(args.duration.is_none());
    assert_eq!(
        shell_command,
        "cbzcal events add --title 'ミーティング' --public --start '2026-03-10T17:30:00+09:00' --end '2026-03-10T20:30:00+09:00'"
    );
}

#[test]
fn prompt_visibility_falls_back_to_private_hint() {
    assert_eq!(
        infer_visibility_from_prompt("明日の17時半から3時間、非公開で設定"),
        Some("private".to_string())
    );
}

#[test]
fn normalize_prompt_plan_infers_all_day_add_from_date_only_request() {
    let plan = PromptPlan { id: Some("13日".to_string()), ..plan(PromptAction::Update) };

    let normalized = normalize_prompt_plan(plan, "13日は「有給」で設定", anchor());
    assert_eq!(normalized.action, PromptAction::Add);
    assert_eq!(normalized.title.as_deref(), Some("有給"));
    assert_eq!(normalized.date.as_deref(), Some("2026-03-13"));
    assert_eq!(normalized.all_day, Some(true));
    assert!(normalized.id.is_none());
}

#[test]
fn wording_hints() {
    assert_eq!(infer_visibility_from_prompt("公開で"), Some("public".to_string()));
    assert_eq!(infer_visibility_from_prompt("公開しないで"), None);
    assert!(prompt_mentions_explicit_id("ID 123 を消して"));
    assert!(!prompt_mentions_explicit_id("消して"));
    assert!(prompt_implies_add("会議を登録"));
    assert!(!prompt_implies_add("会議を消して"));
    assert_eq!(infer_title_from_prompt("『定例』を入れて").as_deref(), Some("定例"));
    assert_eq!(infer_title_from_prompt("no quotes"), None);
    assert_eq!(extract_quoted("「  」", '「', '」'), None);
    assert_eq!(extract_month_day("3/10に"), Some((3, 10)));
    assert_eq!(extract_month_day("/10"), None);
    assert_eq!(extract_day_only("13日は"), Some(13));
    assert_eq!(extract_day_only("日曜"), None);
}

#[test]
fn dates_read_from_wording() {
    assert_eq!(infer_date_from_prompt("明後日", anchor()).as_deref(), Some("2026-03-11"));
    assert_eq!(infer_date_from_prompt("明日", anchor()).as_deref(), Some("2026-03-10"));
    assert_eq!(infer_date_from_prompt("今日", anchor()).as_deref(), Some("2026-03-09"));
    assert_eq!(infer_date_from_prompt("4/1 に", anchor()).as_deref(), Some("2026-04-01"));
    assert_eq!(infer_date_from_prompt("5日", anchor()).as_deref(), Some("2026-04-05"));
    let december = Date::from_ymd(2026, 12, 20).unwrap();
    assert_eq!(infer_date_from_prompt("3日", december).as_deref(), Some("2027-01-03"));
    assert_eq!(infer_date_from_prompt("2/30", anchor()), None);
    assert!(looks_like_date_expression(" 明日 ", anchor()));
    assert!(!looks_like_date_expression("2570212@2026-03-09", anchor()));
}

#[test]
fn fenced_replies_are_unwrapped() {
    assert_eq!(prompt_plan_json_text("```json\n{\"a\":1}\n```"), "{\"a\":1}");
    assert_eq!(prompt_plan_json_text("  ```\n{}\n```  "), "{}");
    assert_eq!(prompt_plan_json_text("{}"), "{}");
}

#[test]
fn shell_words_are_quoted_only_when_needed() {
    assert_eq!(shell_escape(""), "''");
    assert_eq!(shell_escape("15:00"), "15:00");
    assert_eq!(shell_escape("it's"), "'it'\"'\"'s'");
    assert_eq!(
        build_shell_command(
            "delete",
            &vec![("--id".to_string(), Some("a b".to_string())), ("--web".to_string(), None)]
        ),
        "cbzcal events delete --id 'a b' --web"
    );
}

#[test]
fn scope_and_visibility_are_read() {
    assert_eq!(parse_scope_arg(&None), Ok(None));
    assert!(parse_scope_arg(&Some("all".to_string())).unwrap().is_some());
    assert_eq!(
        parse_scope_arg(&Some("some".to_string())).unwrap_err(),
        "scope は this / after / all のいずれかです: some"
    );
    assert_eq!(parse_visibility(&None), Ok(EventVisibility::Public));
    assert_eq!(parse_visibility(&Some("private".to_string())), Ok(EventVisibility::Private));
    assert_eq!(
        parse_visibility(&Some("secret".to_string())).unwrap_err(),
        "visibility は public / private のいずれかです: secret"
    );
}

#[test]
fn missing_identifiers_and_titles_are_refused() {
    assert_eq!(build_execution(plan(PromptAction::Add), anchor(), None).unwrap_err(), "add には title が必要です");
    assert_eq!(build_execution(plan(PromptAction::Update), anchor(), None).unwrap_err(), "update には id が必要です");
    assert_eq!(build_execution(plan(PromptAction::Clone), anchor(), None).unwrap_err(), "clone には id が必要です");
    assert_eq!(build_execution(plan(PromptAction::Delete), anchor(), None).unwrap_err(), "delete には id が必要です");
    let preserve = PromptPlan {
        id: Some("x".to_string()),
        date: Some("tomorrow".to_string()),
        preserve_time: Some(true),
        ..plan(PromptAction::Update)
    };
    assert_eq!(
        build_execution(preserve, anchor(), None).unwrap_err(),
        "現在の予定時刻を参照する update には既存予定の取得が必要です"
    );
    let no_at = PromptPlan {
        id: Some("x".to_string()),
        date: Some("tomorrow".to_string()),
        ..plan(PromptAction::Clone)
    };
    assert_eq!(build_execution(no_at, anchor(), None).unwrap_err(), "date を使う場合は at も必要です");
}

#[test]
fn preview_lists_summary_and_command() {
    let delete = PromptPlan {
        id: Some("7@2026-03-09".to_string()),
        scope: Some("this".to_string()),
        ..plan(PromptAction::Delete)
    };
    let execution = build_execution(delete, anchor(), None).expect("delete");
    assert_eq!(
        render_preview(&execution),
        "解釈結果:\n  action: delete\n  id: 7@2026-03-09\n  scope: this\n\n実行コマンド:\n  cbzcal events delete --id 7@2026-03-09 --scope this"
    );
    assert!(!execution.supports_yes());
    assert!(check_yes(&execution, true).is_err());
    assert!(check_yes(&execution, false).is_ok());
    let list = build_execution(
        PromptPlan { date: Some("today".to_string()), duration: Some("2日".to_string()), ..plan(PromptAction::List) },
        anchor(),
        None,
    )
    .expect("list");
    assert!(list.supports_yes());
    assert_eq!(list.shell_command, "cbzcal events list --date today --for 2d");
    assert_eq!(list.summary_lines, vec!["action: list", "date: today", "for: 2d"]);
}

#[test]
fn clone_window_from_date_and_times() {
    let plan = PromptPlan {
        id: Some("7@2026-03-09".to_string()),
        date: Some("2026-03-11".to_string()),
        at: Some("10時".to_string()),
        until: Some("11時半".to_string()),
        ..plan(PromptAction::Clone)
    };
    let execution = build_execution(plan, anchor(), None).expect("clone");
    let EventsCommand::Clone(args) = execution.command else {
        panic!("clone");
    };
    assert_eq!(to_rfc3339(&args.start.unwrap()), "2026-03-11T10:00:00+09:00");
    assert_eq!(to_rfc3339(&args.end.unwrap()), "2026-03-11T11:30:00+09:00");
}

#[test]
fn confirmation_answers() {
    assert!(is_affirmative(" Y\n"));
    assert!(is_affirmative("yes"));
    assert!(!is_affirmative("no"));
    assert!(!is_affirmative(""));
}

#[test]
fn system_prompt_names_today_and_the_request() {
    let text = build_system_prompt("明日の会議", anchor());
    assert!(text.contains("Today in JST is 2026-03-09.\n"));
    assert!(text.ends_with("User request: 明日の会議\n"));
}
