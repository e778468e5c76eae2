use cbzcal::backend::{cached_listing, CachedListing, FixtureStore, ListCache, ListQuery};
use cbzcal::datetime::parse_timestamp;
use cbzcal::model::{CalendarEvent, CloneOverrides, EventPatch, EventVisibility, NewEvent};
use cbzcal::time::Timestamp;

fn ts(input: &str) -> Timestamp {
    parse_timestamp(input).expect("timestamp")
}

fn new_event(title: &str, start: &str, end: &str) -> NewEvent {
    NewEvent {
        title: title.to_string(),
        description: None,
        starts_at: ts(start),
        ends_at: ts(end),
        attendees: Vec::new(),
        facility: None,
        calendar: None,
        visibility: EventVisibility::Public,
    }
}

fn patch_title(title: &str) -> EventPatch {
    let mut patch = EventPatch::empty();
    patch.title = Some(title.to_string());
    patch
}

#[test]
fn fixture_backend_supports_crud_and_clone() {
    let mut backend = FixtureStore::new();

    let created = backend
        .add_event(NewEvent {
            title: "設計レビュー".to_string(),
            description: Some("CLI 基盤の確認".to_string()),
            starts_at: ts("2026-03-09T10:00:00+09:00"),
            ends_at: ts("2026-03-09T11:00:00+09:00"),
            attendees: vec!["alice".to_string(), "bob".to_string()],
            facility: Some("会議室A".to_string()),
            calendar: Some("開発".to_string()),
            visibility: EventVisibility::Public,
        })
        .expect("add");

    let listed = backend.list_events(&ListQuery {
        from: Some(ts("2026-03-09T09:00:00+09:00")),
        to: Some(ts("2026-03-09T12:00:00+09:00")),
    });
    assert_eq!(listed.len(), 1);

    let mut patch = patch_title("詳細設計レビュー");
    patch.description = Some(None);
    let updated = backend.update_event(&created.id, &patch).expect("update");
    assert_eq!(updated.title, "詳細設計レビュー");
    assert_eq!(updated.description, None);
    assert_eq!(updated.version, 2);

    let cloned = backend
        .clone_event(
            &created.id,
            &CloneOverrides {
                title_suffix: Some(" (複製)".to_string()),
                starts_at: Some(ts("2026-03-10T14:00:00+09:00")),
                ends_at: None,
                title: None,
            },
        )
        .expect("clone");
    assert_eq!(cloned.title, "詳細設計レビュー (複製)");
    assert_eq!(cloned.duration(), created.duration());
    assert_eq!(cloned.starts_at, ts("2026-03-10T14:00:00+09:00"));
    assert_eq!(cloned.ends_at, ts("2026-03-10T15:00:00+09:00"));

    let deleted = backend.delete_event(&created.id).expect("delete");
    assert_eq!(deleted.id, created.id);
    let remaining = backend.list_events(&ListQuery { from: None, to: None });
    assert_eq!(remaining.len(), 1);
    assert_eq!(remaining[0].id, cloned.id);
}

#[test]
fn defaults_to_one_week_from_anchor_when_unbounded() {
    let query = ListQuery { from: None, to: None }
        .with_default_window_from(ts("2026-03-09T00:00:00+09:00"));

    assert_eq!(query.from, Some(ts("2026-03-09T00:00:00+09:00")));
    assert_eq!(query.to, Some(ts("2026-03-16T00:00:00+09:00")));
}

#[test]
fn extends_from_only_query_to_one_week() {
    let query = ListQuery { from: Some(ts("2026-03-12T09:00:00+09:00")), to: None }
        .with_default_window_from(ts("2026-03-09T00:00:00+09:00"));

    assert_eq!(query.from, Some(ts("2026-03-12T09:00:00+09:00")));
    assert_eq!(query.to, Some(ts("2026-03-19T09:00:00+09:00")));
}

#[test]
fn extends_to_only_query_backwards_one_week() {
    let query = ListQuery { from: None, to: Some(ts("2026-03-16T00:00:00+09:00")) }
        .with_default_window_from(ts("2026-03-09T00:00:00+09:00"));

    assert_eq!(query.from, Some(ts("2026-03-09T00:00:00+09:00")));
    assert_eq!(query.to, Some(ts("2026-03-16T00:00:00+09:00")));
}

#[test]
fn listing_is_ordered_by_start_then_title() {
    let mut store = FixtureStore::new();
    store.add_event_with_id(new_event("b", "2026-03-09T10:00:00+09:00", "2026-03-09T11:00:00+09:00"), "1".to_string()).unwrap();
    store.add_event_with_id(new_event("a", "2026-03-09T10:00:00+09:00", "2026-03-09T12:00:00+09:00"), "2".to_string()).unwrap();
    store.add_event_with_id(new_event("c", "2026-03-09T09:00:00+09:00", "2026-03-09T09:30:00+09:00"), "3".to_string()).unwrap();
    store.add_event_with_id(new_event("z", "2026-03-12T09:00:00+09:00", "2026-03-12T10:00:00+09:00"), "4".to_string()).unwrap();
    let listed = store.list_events(&ListQuery {
        from: Some(ts("2026-03-09T00:00:00+09:00")),
        to: Some(ts("2026-03-10T00:00:00+09:00")),
    });
    let ids: Vec<&str> = listed.iter().map(|e| e.id.as_str()).collect();
    assert_eq!(ids, vec!["3", "2", "1"]);
}

#[test]
fn refused_store_changes_leave_the_store_alone() {
    let mut store = FixtureStore::new();
    let err = store
        .add_event(new_event("x", "2026-03-09T10:00:00+09:00", "2026-03-09T10:00:00+09:00"))
        .unwrap_err();
    assert_eq!(err, "終了日時は開始日時より後である必要があります");
    assert_eq!(store.events.len(), 0);
    assert_eq!(
        store.update_event("nope", &patch_title("t")).unwrap_err(),
        "イベントが見つかりません: nope"
    );
    assert_eq!(store.update_event("nope", &EventPatch::empty()).unwrap_err(), "更新対象がありません");
    assert_eq!(store.delete_event("nope").unwrap_err(), "イベントが見つかりません: nope");
    let added = store
        .add_event(new_event("x", "2026-03-09T10:00:00+09:00", "2026-03-09T11:00:00+09:00"))
        .unwrap();
    assert_eq!(added.id.len(), 36);
    assert_eq!(added.version, 1);
    let mut bad = EventPatch::empty();
    bad.ends_at = Some(ts("2026-03-09T09:00:00+09:00"));
    assert!(store.update_event(&added.id, &bad).is_err());
    assert_eq!(store.events[0].version, 1);
}

#[test]
fn delete_after_add_gives_the_store_back() {
    let mut store = FixtureStore::new();
    store.add_event_with_id(new_event("a", "2026-03-09T10:00:00+09:00", "2026-03-09T11:00:00+09:00"), "a".to_string()).unwrap();
    store.add_event_with_id(new_event("b", "2026-03-09T12:00:00+09:00", "2026-03-09T13:00:00+09:00"), "b".to_string()).unwrap();
    let deleted = store.delete_event("b").unwrap();
    assert_eq!(deleted.title, "b");
    let ids: Vec<&str> = store.events.iter().map(|e| e.id.as_str()).collect();
    assert_eq!(ids, vec!["a"]);
}

#[test]
fn cache_answers_only_for_a_covering_fresh_window() {
    let events: Vec<CalendarEvent> = vec![
        CalendarEvent {
            id: "1".to_string(),
            title: "in".to_string(),
            description: None,
            starts_at: ts("2026-03-10T10:00:00+09:00"),
            ends_at: ts("2026-03-10T11:00:00+09:00"),
            attendees: Vec::new(),
            facility: None,
            calendar: None,
            visibility: EventVisibility::Public,
            version: 1,
        },
        CalendarEvent {
            id: "2".to_string(),
            title: "out".to_string(),
            description: None,
            starts_at: ts("2026-03-12T10:00:00+09:00"),
            ends_at: ts("2026-03-12T11:00:00+09:00"),
            attendees: Vec::new(),
            facility: None,
            calendar: None,
            visibility: EventVisibility::Public,
            version: 1,
        },
    ];
    let week = ListQuery {
        from: Some(ts("2026-03-09T00:00:00+09:00")),
        to: Some(ts("2026-03-16T00:00:00+09:00")),
    };
    let day = ListQuery {
        from: Some(ts("2026-03-10T00:00:00+09:00")),
        to: Some(ts("2026-03-11T00:00:00+09:00")),
    };
    let hit = cached_listing(false, &week, &events, Some(10), &day).expect("hit");
    assert_eq!(hit.len(), 1);
    assert_eq!(hit[0].id, "1");
    assert!(cached_listing(true, &week, &events, Some(10), &day).is_none());
    assert!(cached_listing(false, &week, &events, Some(3600), &day).is_none());
    assert!(cached_listing(false, &week, &events, None, &day).is_none());
    assert!(cached_listing(false, &day, &events, Some(10), &week).is_none());
    assert!(week.contains(&day));
    assert!(!day.contains(&week));
}

#[test]
fn default_window_keeps_a_full_query() {
    let query = ListQuery {
        from: Some(ts("2026-03-01T00:00:00+09:00")),
        to: Some(ts("2026-03-31T00:00:00+09:00")),
    };
    let filled = query.with_default_window().expect("window");
    assert_eq!(filled.from, query.from);
    assert_eq!(filled.to, query.to);
}

#[test]
fn default_window_extends_a_lone_bound_by_a_week() {
    let filled = ListQuery { from: None, to: Some(ts("2026-03-16T12:00:00+09:00")) }
        .with_default_window()
        .expect("window");
    assert_eq!(filled.from, Some(ts("2026-03-09T12:00:00+09:00")));
    assert_eq!(filled.to, Some(ts("2026-03-16T12:00:00+09:00")));
}

#[test]
fn default_window_without_bounds_starts_at_jst_midnight() {
    let filled = ListQuery { from: None, to: None }.with_default_window().expect("window");
    let from = filled.from.expect("from");
    let to = filled.to.expect("to");
    assert_eq!(from.offset_seconds(), 9 * 3600);
    assert_eq!(from.second_of_day_exec(), 0);
    assert_eq!(to.instant_nanos() - from.instant_nanos(), 7 * 86_400 * 1_000_000_000);
}

fn store_with_one_event() -> Vec<CalendarEvent> {
    let mut store = FixtureStore::new();
    store
        .add_event(new_event("朝会", "2026-03-09T09:00:00+09:00", "2026-03-09T10:00:00+09:00"))
        .expect("add");
    let week = ListQuery {
        from: Some(ts("2026-03-09T00:00:00+09:00")),
        to: Some(ts("2026-03-16T00:00:00+09:00")),
    };
    store.list_events(&week)
}

#[test]
fn list_cache_hit_on_sub_range() {
    let week = ListQuery {
        from: Some(ts("2026-03-09T00:00:00+09:00")),
        to: Some(ts("2026-03-16T00:00:00+09:00")),
    };
    let day = ListQuery {
        from: Some(ts("2026-03-09T00:00:00+09:00")),
        to: Some(ts("2026-03-10T00:00:00+09:00")),
    };
    let mut cache = ListCache { disabled: false, entry: None };
    assert!(cache.lookup(&day, Some(0)).is_none());
    cache.store(week, store_with_one_event());
    let hit = cache.lookup(&day, Some(120)).expect("hit");
    assert_eq!(hit.len(), 1);
    assert_eq!(hit[0].title, "朝会");
    assert!(cache.lookup(&day, Some(3600)).is_none());
    assert!(cache.lookup(&day, None).is_none());
    let wider = ListQuery { from: Some(ts("2026-03-01T00:00:00+09:00")), to: day.to };
    assert!(cache.lookup(&wider, Some(0)).is_none());
}

#[test]
fn list_cache_change_drops_listing() {
    let week = ListQuery {
        from: Some(ts("2026-03-09T00:00:00+09:00")),
        to: Some(ts("2026-03-16T00:00:00+09:00")),
    };
    let mut cache = ListCache { disabled: false, entry: None };
    cache.store(week, store_with_one_event());
    assert!(!cache.after_change(false));
    assert!(cache.lookup(&week, Some(0)).is_some());
    assert!(cache.after_change(true));
    assert!(cache.lookup(&week, Some(0)).is_none());
}

#[test]
fn list_cache_disabled_always_asks_the_backend() {
    let week = ListQuery {
        from: Some(ts("2026-03-09T00:00:00+09:00")),
        to: Some(ts("2026-03-16T00:00:00+09:00")),
    };
    let mut cache = ListCache { disabled: true, entry: None };
    cache.store(week, store_with_one_event());
    assert!(cache.entry.is_none());
    let kept = ListCache {
        disabled: true,
        entry: Some(CachedListing { query: week, events: store_with_one_event() }),
    };
    assert!(kept.lookup(&week, Some(0)).is_none());
}
