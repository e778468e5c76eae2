use cbzcal::datetime::parse_timestamp;
use cbzcal::model::{CalendarEvent, EventVisibility};
use cbzcal::time::Timestamp;
use cbzcal::view::{
    format_event_time, render_event, render_event_list, render_event_result, render_events,
    render_single_event, sanitize_terminal_output, EventOutput,
};

fn ts(input: &str) -> Timestamp {
    parse_timestamp(input).expect("timestamp")
}

fn event(id: &str, title: &str, start: &str, end: &str) -> CalendarEvent {
    CalendarEvent {
        id: id.to_string(),
        title: title.to_string(),
        description: None,
        starts_at: ts(start),
        ends_at: ts(end),
        attendees: Vec::new(),
        facility: None,
        calendar: None,
        visibility: EventVisibility::Public,
        version: 1,
    }
}

#[test]
fn renders_human_readable_event_list() {
    let events = vec![
        event(
            "sEID=3096840&UID=379&GID=183&Date=da.2026.3.9&BDate=da.2026.3.9",
            "サンプル設定",
            "2026-03-09T13:30:00+09:00",
            "2026-03-09T14:30:00+09:00",
        ),
        event(
            "sEID=3096808&UID=379&GID=183&Date=da.2026.3.10&BDate=da.2026.3.10",
            "休み",
            "2026-03-10T00:00:00+09:00",
            "2026-03-11T00:00:00+09:00",
        ),
    ];

    let rendered = render_event_list(&events, None);
    assert_eq!(
        rendered,
        "2026-03-09 (Mon)\n  13:30-14:30  サンプル設定 [3096840@2026-03-09]\n\n2026-03-10 (Tue)\n  終日  休み [3096808@2026-03-10]"
    );
}

#[test]
fn renders_now_marker_and_highlight() {
    let now = ts("2026-03-09T14:00:00+09:00");
    let events = vec![
        event("e1@2026-03-09", "前", "2026-03-09T09:00:00+09:00", "2026-03-09T10:00:00+09:00"),
        event("e2@2026-03-09", "今", "2026-03-09T13:30:00+09:00", "2026-03-09T14:30:00+09:00"),
        event("e3@2026-03-09", "後", "2026-03-09T16:00:00+09:00", "2026-03-09T17:00:00+09:00"),
    ];

    let rendered = render_event_list(&events, Some(now));
    assert!(rendered.contains("> 13:30-14:30  今 [e2@2026-03-09]"));

    let now_between = ts("2026-03-09T11:00:00+09:00");
    let rendered_between = render_event_list(&events, Some(now_between));
    assert!(rendered_between.contains("--- 現在 (11:00) ---"));
}

#[test]
fn sanitizes_terminal_control_characters() {
    assert_eq!(sanitize_terminal_output("Normal Text"), "Normal Text");
    assert_eq!(
        sanitize_terminal_output("Escape\x1b[31mCode\x1b[0m"),
        "Escape[31mCode[0m"
    );
    assert_eq!(
        sanitize_terminal_output("Tab\tAnd\nNewline"),
        "Tab\tAnd\nNewline"
    );
    assert_eq!(sanitize_terminal_output("Backspace\x08"), "Backspace");
}

#[test]
fn renders_empty_event_list() {
    let rendered = render_event_list(&[], None);
    assert_eq!(rendered, "予定はありません");
}

#[test]
fn render_event_result_text_contains_action() {
    let event = event(
        "sEID=100&UID=1&GID=1&Date=da.2026.3.9&BDate=da.2026.3.9",
        "テスト",
        "2026-03-09T10:00:00+09:00",
        "2026-03-09T11:00:00+09:00",
    );
    let result = match render_event_result("追加しました", "stub", &event, false, None) {
        EventOutput::Text(text) => text,
        EventOutput::Json(_) => panic!("text was asked for"),
    };
    assert!(result.contains("追加しました"));
    assert!(result.contains("テスト"));
}

#[test]
fn event_result_as_json_carries_backend_and_short_id() {
    let e = event(
        "sEID=100&UID=1&GID=1&Date=da.2026.3.9&BDate=da.2026.3.9",
        "テスト",
        "2026-03-09T10:00:00+09:00",
        "2026-03-09T11:00:00+09:00",
    );
    match render_event_result("追加しました", "stub", &e, true, None) {
        EventOutput::Json(envelope) => {
            assert_eq!(envelope.backend, "stub");
            assert_eq!(envelope.data.short_id, "100@2026-03-09");
            assert_eq!(envelope.data.event.id, e.id);
            assert_eq!(envelope.data.event.title, "テスト");
        }
        EventOutput::Text(_) => panic!("json was asked for"),
    }
}

#[test]
fn event_result_text_is_action_then_event() {
    let e = event("x@2026-03-09", "会議", "2026-03-09T10:00:00+09:00", "2026-03-09T11:00:00+09:00");
    match render_event_result("削除しました", "stub", &e, false, None) {
        EventOutput::Text(text) => assert_eq!(text, format!("削除しました\n{}", render_event_text_only(&e))),
        EventOutput::Json(_) => panic!("text was asked for"),
    }
}

fn render_event_text_only(e: &CalendarEvent) -> String {
    render_single_event(e, None)
}

#[test]
fn render_events_keeps_order_and_attaches_short_ids() {
    let a = event("a@2026-03-10", "後", "2026-03-10T10:00:00+09:00", "2026-03-10T11:00:00+09:00");
    let b = event("b", "前", "2026-03-09T10:00:00+09:00", "2026-03-09T11:00:00+09:00");
    let shown = render_events(&[a, b]);
    assert_eq!(shown.len(), 2);
    assert_eq!(shown[0].short_id, "a@2026-03-10");
    assert_eq!(shown[0].event.title, "後");
    assert_eq!(shown[1].short_id, "b");
    assert_eq!(render_event(&shown[1].event).short_id, "b");
}

#[test]
fn format_event_time_all_day() {
    let event = event("1", "終日予定", "2026-03-09T00:00:00+09:00", "2026-03-10T00:00:00+09:00");
    assert_eq!(format_event_time(&event), "終日");
}

#[test]
fn sanitizing_twice_changes_nothing_more() {
    let once = sanitize_terminal_output("a\x07b\x1b[0mc\r\n");
    assert_eq!(sanitize_terminal_output(&once), once);
}

#[test]
fn single_event_shows_its_day_and_row() {
    let e = event("x@2026-03-09", "会議", "2026-03-09T10:00:00+09:00", "2026-03-09T11:00:00+09:00");
    assert_eq!(
        render_single_event(&e, None),
        "  2026-03-09 (Mon)\n  10:00-11:00  会議 [x@2026-03-09]"
    );
}

#[test]
fn sanitizing_removes_c1_controls_too() {
    assert_eq!(sanitize_terminal_output("C1\u{9b}31m\u{85}DEL\x7f"), "C131mDEL");
    assert_eq!(sanitize_terminal_output("\u{a0}é日本"), "\u{a0}é日本");
}
