use cbzcal::id::{extract_date_from_event_identifier, normalize_da_date, short_id_from_event_id};
use cbzcal::time::Date;

#[test]
fn short_id_uses_seid_and_date_for_cybozu_ids() {
    assert_eq!(
        short_id_from_event_id("sEID=3096804&UID=379&GID=183&Date=da.2099.1.7&BDate=da.2099.1.5"),
        "3096804@2099-01-07"
    );
}

#[test]
fn short_id_falls_back_to_original_id() {
    assert_eq!(short_id_from_event_id("fixture-123"), "fixture-123");
}

#[test]
fn extracts_date_from_short_id() {
    assert_eq!(
        extract_date_from_event_identifier("3096840@2026-03-09"),
        Some(Date::from_ymd(2026, 3, 9).expect("date"))
    );
}

#[test]
fn extracts_date_from_query_form_and_pads_dates() {
    assert_eq!(
        extract_date_from_event_identifier("sEID=1&Date=da.2026.3.9&BDate=da.2026.3.1"),
        Some(Date::from_ymd(2026, 3, 9).unwrap())
    );
    assert_eq!(extract_date_from_event_identifier("fixture-1"), None);
    assert_eq!(normalize_da_date("da.2026.3.9").as_deref(), Some("2026-03-09"));
    assert_eq!(normalize_da_date("2026.3.9"), None);
}

#[test]
fn short_id_reads_back_to_its_date() {
    let id = "sEID=3096804&UID=379&GID=183&Date=da.2099.1.7&BDate=da.2099.1.5";
    let short = short_id_from_event_id(id);
    assert_eq!(extract_date_from_event_identifier(&short), Some(Date::from_ymd(2099, 1, 7).expect("date")));
    assert_eq!(extract_date_from_event_identifier(id), Some(Date::from_ymd(2099, 1, 7).expect("date")));
}

#[test]
fn short_id_pads_the_year_to_four_digits() {
    let short = short_id_from_event_id("sEID=5&Date=da.987.12.3");
    assert_eq!(short, "5@0987-12-03");
    assert_eq!(extract_date_from_event_identifier(&short), Some(Date::from_ymd(987, 12, 3).expect("date")));
}
