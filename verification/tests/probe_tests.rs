use cbzcal::config::{CredentialPair, CredentialSource};
use cbzcal::lookup::{extract_short_id_hint, find_event, lookup_window};
use cbzcal::datetime::parse_timestamp;
use cbzcal::formats::to_rfc3339;
use cbzcal::model::{CalendarEvent, EventVisibility};
use cbzcal::probe::{
    after_initial_page, after_login, AfterInitial, AfterLogin, assemble_report, follow_step, login_redirect_value, login_token, outcome_without_login,
    page_kind, probe_endpoints, redirect_location, schedule_not_checked, schedule_outcome,
    step_redirect_failed, step_without_location, FollowAction, PageKind, ResponseSnapshot,
};

fn snapshot(status: u16, url: &str, body: &str) -> ResponseSnapshot {
    ResponseSnapshot { status, url: url.to_string(), body: body.to_string() }
}

#[test]
fn first_pages_are_classified() {
    assert_eq!(page_kind("https://e.cybozu.com/login?x", ""), PageKind::Login);
    assert_eq!(page_kind("https://e.cybozu.com/o/ag.cgi", "<title>トップ</title>"), PageKind::Authenticated);
    assert_eq!(page_kind("https://e.cybozu.com/", "hello"), PageKind::Unknown);
    assert_eq!(PageKind::Unknown.as_str(), "unknown");
}

#[test]
fn endpoints_are_resolved_against_the_base() {
    let e = probe_endpoints("https://example.cybozu.com/o/ag.cgi", &None).expect("endpoints");
    assert_eq!(e.login_post_url, "https://example.cybozu.com/api/auth/redirect.do");
    assert_eq!(e.get_token_url, "https://example.cybozu.com/api/auth/getToken.json?_lc=ja");
    assert_eq!(e.login_json_url, "https://example.cybozu.com/api/auth/login.json?_lc=ja");
    assert_eq!(e.available_days_url, "https://example.cybozu.com/api/auth/availableDays.json?_lc=ja");
    assert_eq!(e.schedule_index_url, "https://example.cybozu.com/o/ag.cgi?page=ScheduleIndex");
    let configured = probe_endpoints(
        "https://example.cybozu.com/o/ag.cgi",
        &Some("https://login.example/post".to_string()),
    )
    .expect("endpoints");
    assert_eq!(configured.login_post_url, "https://login.example/post");
    assert_eq!(
        probe_endpoints("no url", &None).unwrap_err(),
        "Cybozu ログイン POST 先を確定できません"
    );
    assert_eq!(
        probe_endpoints("no url", &Some("https://x/".to_string())).unwrap_err(),
        "getToken URL を確定できません"
    );
}

#[test]
fn redirect_value_comes_from_form_or_address() {
    let page = snapshot(200, "https://e/login?redirect=%2Fo%2Fag.cgi", "<input name=\"redirect\" value=\"/from-form\">");
    assert_eq!(login_redirect_value(&page).unwrap(), "/from-form");
    let page = snapshot(200, "https://e/login?redirect=%2Fo%2Fag.cgi", "no form");
    assert_eq!(login_redirect_value(&page).unwrap(), "/o/ag.cgi");
    let page = snapshot(200, "https://e/login", "no form");
    assert_eq!(login_redirect_value(&page).unwrap_err(), "ログイン画面の redirect 値を取得できません");
    assert_eq!(login_token(&snapshot(200, "u", r#"{"result":{"token":"t1"}}"#)).unwrap(), "t1");
    assert_eq!(login_token(&snapshot(200, "u", "{}")).unwrap_err(), "getToken.json から token を取得できません");
}

#[test]
fn redirects_are_followed_up_to_the_limit() {
    match follow_step(1, true, &Some("/next".to_string()), "https://e/a", "") {
        FollowAction::Request(url) => assert_eq!(url, "https://e/next"),
        other => panic!("{other:?}"),
    }
    match follow_step(10, true, &Some("/next".to_string()), "https://e/a", "") {
        FollowAction::Fail(m) => assert_eq!(m, "redirect が多すぎます"),
        other => panic!("{other:?}"),
    }
    match follow_step(1, true, &None, "https://e/a", "") {
        FollowAction::Fail(m) => assert_eq!(m, "redirect location がありません"),
        other => panic!("{other:?}"),
    }
    match follow_step(1, false, &None, "https://e/a", "リダイレクト中 location.replace(\"/b\")") {
        FollowAction::Request(url) => assert_eq!(url, "https://e/b"),
        other => panic!("{other:?}"),
    }
    assert!(matches!(follow_step(1, false, &None, "https://e/a", "page"), FollowAction::Finish));
    assert_eq!(redirect_location("https://e/a/b", &Some("c".to_string())).as_deref(), Some("https://e/a/c"));
    assert_eq!(redirect_location("https://e/a/b", &None), None);
}

#[test]
fn probe_outcomes_and_report() {
    let initial = snapshot(200, "https://e/o/ag.cgi", "<title>トップ</title> body");
    let outcome = outcome_without_login(PageKind::Authenticated, &initial);
    assert!(outcome.login_succeeded);
    assert_eq!(outcome.login_status, 200);
    assert_eq!(outcome.note.as_deref(), Some("初回アクセスで認証済みページに到達しました"));
    let unknown = outcome_without_login(PageKind::Unknown, &initial);
    assert!(!unknown.login_succeeded);
    let failed = step_redirect_failed("https://e/x", "boom");
    assert_eq!(failed.note.as_deref(), Some("redirect 後の追跡に失敗しました: boom"));
    let missing = step_without_location("https://e/post");
    assert_eq!(missing.final_url, "https://e/post");
    let schedule = schedule_outcome(&snapshot(200, "https://e/o/ag.cgi?page=ScheduleIndex", "<title>スケジュール</title>"));
    assert!(schedule.accessible);
    assert_eq!(schedule.title.as_deref(), Some("スケジュール"));
    assert_eq!(schedule_not_checked("https://e/s").status, 0);

    let endpoints = probe_endpoints("https://e/o/ag.cgi", &None).unwrap();
    let office = CredentialPair { username: "u".to_string(), password: "p".to_string(), source: CredentialSource::Inline };
    let report = assemble_report("https://e/o/ag.cgi", initial, endpoints, outcome, schedule, &None, &office);
    assert_eq!(report.initial_page_kind, "authenticated");
    assert!(!report.reached_login_page);
    assert_eq!(report.basic_auth_source, "none");
    assert_eq!(report.office_auth_source, "inline");
    assert_eq!(report.initial_page_title.as_deref(), Some("トップ"));
    assert_eq!(report.initial_body_hint, "<title>トップ</title> body");
    assert!(report.schedule_index_accessible);
}

#[test]
fn short_id_hints_and_lookup() {
    assert_eq!(
        extract_short_id_hint("「3096840@2026-03-09」 を明日に").as_deref(),
        Some("3096840@2026-03-09")
    );
    assert_eq!(extract_short_id_hint("id 3096840@2026-03-09。"), Some("3096840@2026-03-09".to_string()));
    assert_eq!(extract_short_id_hint("no hint here"), None);
    let window = lookup_window("3096840@2026-03-09").expect("window");
    assert_eq!(to_rfc3339(&window.from.unwrap()), "2026-03-09T00:00:00+09:00");
    assert_eq!(to_rfc3339(&window.to.unwrap()), "2026-03-10T00:00:00+09:00");
    assert_eq!(lookup_window("x").unwrap_err(), "ID から日付を解決できませんでした: x");
    let events = vec![CalendarEvent {
        id: "sEID=3096840&UID=1&GID=1&Date=da.2026.3.9&BDate=da.2026.3.9".to_string(),
        title: "t".to_string(),
        description: None,
        starts_at: parse_timestamp("2026-03-09T10:00:00+09:00").unwrap(),
        ends_at: parse_timestamp("2026-03-09T11:00:00+09:00").unwrap(),
        attendees: Vec::new(),
        facility: None,
        calendar: None,
        visibility: EventVisibility::Public,
        version: 1,
    }];
    assert_eq!(find_event(&events, "3096840@2026-03-09").unwrap().title, "t");
    assert_eq!(find_event(&events, "1@2026-03-09").unwrap_err(), "対象予定が見つかりませんでした: 1@2026-03-09");
}

#[test]
fn login_page_leads_to_a_login_with_its_redirect() {
    let page = snapshot(200, "https://e/login?redirect=%2Fo%2Fag.cgi", "no form");
    match after_initial_page(&page).expect("next") {
        AfterInitial::LogIn { redirect } => assert_eq!(redirect, "/o/ag.cgi"),
        AfterInitial::Done(_) => panic!("login expected"),
    }
    let bare = snapshot(200, "https://e/login", "no form");
    assert_eq!(
        after_initial_page(&bare).unwrap_err(),
        "ログイン画面の redirect 値を取得できません"
    );
}

#[test]
fn other_first_pages_end_the_login_at_once() {
    let page = snapshot(200, "https://e.cybozu.com/o/ag.cgi", "<title>トップ</title>");
    let outcome = match after_initial_page(&page).expect("next") {
        AfterInitial::Done(outcome) => outcome,
        AfterInitial::LogIn { .. } => panic!("no login expected"),
    };
    assert!(outcome.login_succeeded);
    assert_eq!(outcome.get_token_status, 0);
    match after_login(&outcome, "https://e/o/ag.cgi?page=ScheduleIndex") {
        AfterLogin::FetchSchedule(url) => assert_eq!(url, "https://e/o/ag.cgi?page=ScheduleIndex"),
        AfterLogin::Done(_) => panic!("fetch expected"),
    }
    let unknown = snapshot(200, "https://e.cybozu.com/", "hello");
    let outcome = match after_initial_page(&unknown).expect("next") {
        AfterInitial::Done(outcome) => outcome,
        AfterInitial::LogIn { .. } => panic!("no login expected"),
    };
    assert!(!outcome.login_succeeded);
    match after_login(&outcome, "https://e/s") {
        AfterLogin::Done(s) => {
            assert_eq!(s.status, 0);
            assert_eq!(s.final_url, "https://e/s");
            assert!(!s.accessible);
        }
        AfterLogin::FetchSchedule(_) => panic!("no fetch expected"),
    }
}
