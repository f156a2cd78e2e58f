use std::str::FromStr;

use edcb_mcp::test_support::{reserve_fixture_for_test, service_event_fixture_for_test};
use edcb_mcp::{build_reservation_from_event, EdcbError, EventKey, ServiceKey};

#[test]
fn parses_service_and_event_keys() {
    let service = ServiceKey::from_str("32736:32736:1024")
        .expect("service key should parse from onid:tsid:sid");
    assert_eq!(service.onid, 32736);
    assert_eq!(service.tsid, 32736);
    assert_eq!(service.sid, 1024);
    assert_eq!(service.to_search_id(), 140602194789376);

    let event =
        EventKey::from_str("32736:32736:1024:4208").expect("event key should parse with eid");
    assert_eq!(event.service, service);
    assert_eq!(event.eid, 4208);

    assert!(ServiceKey::from_str("32736:32736").is_err());
    assert!(EventKey::from_str("32736:32736:1024:nope").is_err());
}

#[test]
fn builds_reservation_from_default_settings_and_event() {
    let default = reserve_fixture_for_test();
    let (service, event) = service_event_fixture_for_test();

    let reserve = build_reservation_from_event(&default, &service, &event)
        .expect("event with time and duration should build a reservation");

    assert_eq!(reserve.title, "Test Program");
    assert_eq!(reserve.station_name, "Test Service");
    assert_eq!(reserve.onid, 1);
    assert_eq!(reserve.tsid, 2);
    assert_eq!(reserve.sid, 3);
    assert_eq!(reserve.eid, 4);
    assert_eq!(reserve.reserve_id, 0);
    assert_eq!(reserve.overlap_mode, 0);
    assert!(reserve.rec_file_name_list.is_empty());
    assert_eq!(reserve.rec_setting, default.rec_setting);
    assert_eq!(reserve.start_time.hour, 10);
}

#[test]
fn reservation_builder_rejects_events_without_time() {
    let default = reserve_fixture_for_test();
    let (service, mut event) = service_event_fixture_for_test();
    event.start_time = None;

    let error = build_reservation_from_event(&default, &service, &event)
        .expect_err("event without start time should be rejected");

    assert!(error.message().contains("start_time"));
}

#[test]
fn reservation_builder_names_missing_or_negative_durations() {
    let default = reserve_fixture_for_test();
    let (service, mut event) = service_event_fixture_for_test();
    event.duration_sec = None;
    let error = build_reservation_from_event(&default, &service, &event).unwrap_err();
    assert!(matches!(&error, EdcbError::InvalidInput(m) if m == "event duration_sec is missing"));

    event.duration_sec = Some(-5);
    let error = build_reservation_from_event(&default, &service, &event).unwrap_err();
    assert!(
        matches!(&error, EdcbError::InvalidInput(m) if m == "event duration_sec must be non-negative: -5")
    );
    assert_eq!(
        error.message(),
        "invalid input: event duration_sec must be non-negative: -5"
    );
}

#[test]
fn reservation_title_falls_back_to_the_default() {
    let default = reserve_fixture_for_test();
    let (service, mut event) = service_event_fixture_for_test();
    event.short_info.as_mut().unwrap().event_name = "  \u{3000}".to_string();
    let reserve = build_reservation_from_event(&default, &service, &event).unwrap();
    assert_eq!(reserve.title, "Default Reserve");
    assert_eq!(reserve.duration_second, 3600);
    assert_eq!(reserve.start_time_epg, reserve.start_time);
    assert_eq!(reserve.comment, "");

    event.short_info.as_mut().unwrap().event_name = "  News \n".to_string();
    let reserve = build_reservation_from_event(&default, &service, &event).unwrap();
    assert_eq!(reserve.title, "News");

    event.short_info = None;
    let reserve = build_reservation_from_event(&default, &service, &event).unwrap();
    assert_eq!(reserve.title, "Default Reserve");
}

#[test]
fn error_messages_describe_each_kind() {
    assert_eq!(EdcbError::Timeout.message(), "operation timed out");
    assert_eq!(
        EdcbError::CommandStatus(203).message(),
        "EDCB command returned status 203"
    );
    assert_eq!(
        EdcbError::Decode("truncated".to_string()).message(),
        "decode error: truncated"
    );
    assert_eq!(
        EdcbError::Io("refused".to_string()).message(),
        "I/O error: refused"
    );
}

#[test]
fn key_texts_that_cannot_be_read_say_so() {
    assert_eq!(
        ServiceKey::from_str("1:2").unwrap_err(),
        "service key must be onid:tsid:sid: 1:2"
    );
    assert_eq!(
        EventKey::from_str("1:2:3:x").unwrap_err(),
        "event key must be onid:tsid:sid:eid: 1:2:3:x"
    );
}
