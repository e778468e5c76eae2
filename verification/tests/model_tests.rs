use cbzcal::datetime::parse_timestamp;
use cbzcal::model::{
    validate_time_range, CalendarEvent, CloneOverrides, EventPatch, EventVisibility,
};
use cbzcal::time::Timestamp;

fn ts(input: &str) -> Timestamp {
    parse_timestamp(input).expect("timestamp")
}

fn sample() -> CalendarEvent {
    CalendarEvent {
        id: "e1".to_string(),
        title: "定例".to_string(),
        description: Some("memo".to_string()),
        starts_at: ts("2026-03-09T10:00:00+09:00"),
        ends_at: ts("2026-03-09T11:30:00+09:00"),
        attendees: vec!["alice".to_string()],
        facility: None,
        calendar: None,
        visibility: EventVisibility::Private,
        version: 3,
    }
}

#[test]
fn empty_patch_keeps_event_but_counts_version() {
    let e = sample();
    let updated = e.apply_patch(&EventPatch::empty()).expect("patch");
    assert_eq!(updated.title, e.title);
    assert_eq!(updated.description, e.description);
    assert_eq!(updated.starts_at, e.starts_at);
    assert_eq!(updated.attendees, e.attendees);
    assert_eq!(updated.version, 4);
    assert!(EventPatch::empty().is_empty());
}

#[test]
fn reversed_patch_is_refused() {
    let mut patch = EventPatch::empty();
    patch.ends_at = Some(ts("2026-03-09T09:00:00+09:00"));
    assert_eq!(
        sample().apply_patch(&patch).unwrap_err(),
        "終了日時は開始日時より後である必要があります"
    );
    assert!(validate_time_range(ts("2026-03-09T10:00:00+09:00"), ts("2026-03-09T10:00:00+09:00")).is_err());
    assert!(validate_time_range(ts("2026-03-09T10:00:00+09:00"), ts("2026-03-09T10:00:01+09:00")).is_ok());
}

#[test]
fn clone_with_end_only_keeps_duration() {
    let e = sample();
    let overrides = CloneOverrides {
        title: Some("別名".to_string()),
        title_suffix: None,
        starts_at: None,
        ends_at: Some(ts("2026-03-12T18:00:00+09:00")),
    };
    let c = e.clone_with_overrides(&overrides, "e2".to_string()).expect("clone");
    assert_eq!(c.starts_at, ts("2026-03-12T16:30:00+09:00"));
    assert_eq!(c.duration(), e.duration());
    assert_eq!(c.title, "別名");
    assert_eq!(c.version, 1);
    assert_eq!(c.id, "e2");
    assert_eq!(CloneOverrides::none().title, None);
}

#[test]
fn overlap_and_ongoing() {
    let e = sample();
    assert!(e.overlaps(Some(ts("2026-03-09T11:00:00+09:00")), None));
    assert!(!e.overlaps(Some(ts("2026-03-09T11:30:00+09:00")), None));
    assert!(!e.overlaps(None, Some(ts("2026-03-09T10:00:00+09:00"))));
    assert!(e.is_ongoing(ts("2026-03-09T10:00:00+09:00")));
    assert!(!e.is_ongoing(ts("2026-03-09T11:30:00+09:00")));
}
