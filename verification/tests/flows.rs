use edcb_mcp::cli::CliCommand;
use edcb_mcp::flows::{on_reply, start, Action, CommandOutput, Pending};
use edcb_mcp::plain::{is_dated, render_plain};
use edcb_mcp::test_support::{
    encode_reserve_for_test, encode_service_event_list_for_test, encode_service_list_for_test,
    reserve_fixture_for_test, service_event_fixture_for_test,
};
use edcb_mcp::{EdcbError, EventKey, ProgramSearchQuery, ServiceKey};

fn i32_at(bytes: &[u8], offset: usize) -> i32 {
    i32::from_le_bytes(bytes[offset..offset + 4].try_into().unwrap())
}

fn i64_at(bytes: &[u8], offset: usize) -> i64 {
    i64::from_le_bytes(bytes[offset..offset + 8].try_into().unwrap())
}

fn sent(action: Action) -> (Pending, Vec<u8>) {
    match action {
        Action::Send(pending, request) => (pending, request),
        Action::Finish(_) => panic!("expected a request"),
    }
}

fn finished(action: Action) -> Result<CommandOutput, EdcbError> {
    match action {
        Action::Finish(result) => result,
        Action::Send(..) => panic!("expected a result"),
    }
}

fn fixture_key() -> EventKey {
    EventKey { service: ServiceKey { onid: 1, tsid: 2, sid: 3 }, eid: 4 }
}

#[test]
fn preview_looks_up_the_event_then_the_default_reservation() {
    let (pending, request) = sent(start(&CliCommand::ReservePreview(fixture_key())));
    assert_eq!(i32_at(&request, 0), 1029);
    assert_eq!(i32_at(&request, 4), 40);
    let payload = &request[8..];
    assert_eq!(i32_at(payload, 0), 40);
    assert_eq!(i32_at(payload, 4), 4);
    assert_eq!(i64_at(payload, 8), 0);
    assert_eq!(i64_at(payload, 16), fixture_key().service.to_search_id());
    assert_eq!(i64_at(payload, 24), 1);
    assert_eq!(i64_at(payload, 32), i64::MAX);

    let (service, event) = service_event_fixture_for_test();
    let body = encode_service_event_list_for_test(&service, &event);
    let (pending, request) = sent(on_reply(pending, Ok(body)));
    assert_eq!(i32_at(&request, 0), 2012);
    assert_eq!(&request[8..10], &5_u16.to_le_bytes());
    assert_eq!(&request[10..14], &0x7fff_ffff_i32.to_le_bytes());

    let default = reserve_fixture_for_test();
    let output = finished(on_reply(pending, Ok(encode_reserve_for_test(&default)))).unwrap();
    match output {
        CommandOutput::Reservation(reserve) => {
            assert_eq!(reserve.title, "Test Program");
            assert_eq!(reserve.station_name, "Test Service");
            assert_eq!(reserve.reserve_id, 0);
            assert_eq!(reserve.rec_setting, default.rec_setting);
        },
        other => panic!("unexpected output {:?}", other),
    }
}

#[test]
fn create_sends_the_reservation_that_preview_shows() {
    let (service, event) = service_event_fixture_for_test();
    let default = reserve_fixture_for_test();

    let (pending, _) = sent(start(&CliCommand::ReservePreview(fixture_key())));
    let (pending, _) = sent(on_reply(pending, Ok(encode_service_event_list_for_test(&service, &event))));
    let preview = match finished(on_reply(pending, Ok(encode_reserve_for_test(&default)))).unwrap() {
        CommandOutput::Reservation(r) => r,
        other => panic!("unexpected output {:?}", other),
    };

    let (pending, _) = sent(start(&CliCommand::ReserveCreate(fixture_key())));
    let (pending, _) = sent(on_reply(pending, Ok(encode_service_event_list_for_test(&service, &event))));
    let (pending, request) = sent(on_reply(pending, Ok(encode_reserve_for_test(&default))));
    assert_eq!(i32_at(&request, 0), 2013);
    assert_eq!(&request[8..10], &5_u16.to_le_bytes());
    assert_eq!(i32_at(&request, 14), 1);
    let title: Vec<u8> = "Test Program".encode_utf16().flat_map(|u| u.to_le_bytes()).collect();
    assert!(request.windows(title.len()).any(|w| w == title.as_slice()));

    let created = match finished(on_reply(pending, Ok(5_u16.to_le_bytes().to_vec()))).unwrap() {
        CommandOutput::Reservation(r) => r,
        other => panic!("unexpected output {:?}", other),
    };
    assert_eq!(created, preview);
}

#[test]
fn delete_returns_the_reservation_read_before_deleting() {
    let default = reserve_fixture_for_test();
    let (pending, request) = sent(start(&CliCommand::ReserveDelete(123)));
    assert_eq!(i32_at(&request, 0), 2012);
    assert_eq!(&request[10..14], &123_i32.to_le_bytes());
    let (pending, request) = sent(on_reply(pending, Ok(encode_reserve_for_test(&default))));
    assert_eq!(i32_at(&request, 0), 1014);
    assert_eq!(i32_at(&request, 4), 12);
    assert_eq!(i32_at(&request, 16), 123);
    match finished(on_reply(pending, Ok(Vec::new()))).unwrap() {
        CommandOutput::Reservation(r) => assert_eq!(r, default),
        other => panic!("unexpected output {:?}", other),
    }
}

#[test]
fn search_filters_the_programs_of_the_lookup() {
    let (service, event) = service_event_fixture_for_test();
    let query = ProgramSearchQuery { keyword: "Program".to_string(), title_only: true, service: None };
    let (pending, request) = sent(start(&CliCommand::ProgramsSearch(query)));
    assert_eq!(i64_at(&request, 16), 0x0000_ffff_ffff_ffff);
    let output = finished(on_reply(pending, Ok(encode_service_event_list_for_test(&service, &event)))).unwrap();
    match &output {
        CommandOutput::Programs(events) => {
            assert_eq!(events.len(), 1);
            assert_eq!(events[0].eid, 4);
        },
        other => panic!("unexpected output {:?}", other),
    }
    assert!(is_dated(&output));
    assert_eq!(
        render_plain(&output).unwrap(),
        "1:2:3:4\t2026-06-29T10:00:00+09:00\tTest Program\n"
    );

    let query = ProgramSearchQuery { keyword: "Description".to_string(), title_only: true, service: None };
    let (pending, _) = sent(start(&CliCommand::ProgramsSearch(query)));
    match finished(on_reply(pending, Ok(encode_service_event_list_for_test(&service, &event)))).unwrap() {
        CommandOutput::Programs(events) => assert!(events.is_empty()),
        other => panic!("unexpected output {:?}", other),
    }

    let query = ProgramSearchQuery { keyword: "Description".to_string(), title_only: false, service: None };
    let (pending, _) = sent(start(&CliCommand::ProgramsSearch(query)));
    match finished(on_reply(pending, Ok(encode_service_event_list_for_test(&service, &event)))).unwrap() {
        CommandOutput::Programs(events) => assert_eq!(events.len(), 1),
        other => panic!("unexpected output {:?}", other),
    }
}

#[test]
fn services_decode_and_print() {
    let (pending, request) = sent(start(&CliCommand::Services));
    assert_eq!(request, vec![0xfd, 0x03, 0, 0, 0, 0, 0, 0]);
    let output = finished(on_reply(pending, Ok(encode_service_list_for_test()))).unwrap();
    assert_eq!(render_plain(&output).unwrap(), "1\t2\t3\t7\tTest Service\n");
}

#[test]
fn failures_end_the_command() {
    let (pending, _) = sent(start(&CliCommand::Services));
    assert!(matches!(
        finished(on_reply(pending, Err(EdcbError::CommandStatus(203)))),
        Err(EdcbError::CommandStatus(203))
    ));
    let (pending, _) = sent(start(&CliCommand::Services));
    assert!(finished(on_reply(pending, Ok(vec![1, 2]))).is_err());

    let (pending, _) = sent(start(&CliCommand::ReservePreview(EventKey {
        service: ServiceKey { onid: 1, tsid: 2, sid: 3 },
        eid: 5,
    })));
    let (service, event) = service_event_fixture_for_test();
    let result = finished(on_reply(pending, Ok(encode_service_event_list_for_test(&service, &event))));
    assert!(matches!(result, Err(EdcbError::InvalidInput(m)) if m == "event not found: 1:2:3:5"));
}

#[test]
fn reservation_prints_key_start_station_and_title() {
    let default = reserve_fixture_for_test();
    let (pending, _) = sent(start(&CliCommand::ReserveGet(123)));
    let output = finished(on_reply(pending, Ok(encode_reserve_for_test(&default)))).unwrap();
    assert_eq!(
        render_plain(&output).unwrap(),
        "10:20:30:40\t2026-06-29T09:00:00+09:00\tDefault Station\tDefault Reserve\n"
    );
}
