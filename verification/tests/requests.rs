use edcb_mcp::client::{
    check_status, enum_auto_add_request, enum_manual_add_request, enum_pg_arc_request,
    file_copy2_request, file_copy_request, get_rec_file_network_path_request,
    nwplay_close_request, nwplay_tf_open_request, parse_response_header, read_vector_response,
    read_versioned_vector, rec_file_path_of, search_pg_request,
};
use edcb_mcp::test_support::{
    encode_event_list_for_test, encode_reserve_list_for_test, encode_search_keys_for_test,
    encode_service_event_lists_for_test, reserve_fixture_for_test, service_event_fixture_for_test,
};
use edcb_mcp::search_key::{parse_duration_prefix, SearchKeyInfo};
use edcb_mcp::types::{ContentData, EventInfo, ReserveData, SearchDateInfo, ServiceEventInfo};
use edcb_mcp::EdcbError;

fn frame(cmd: i32, payload: &[u8]) -> Vec<u8> {
    let mut out = cmd.to_le_bytes().to_vec();
    out.extend_from_slice(&(payload.len() as i32).to_le_bytes());
    out.extend_from_slice(payload);
    out
}

#[test]
fn string_requests_carry_utf16_with_a_size_header() {
    // size 8 = 4 header bytes + 'a' + terminating NUL, both UTF-16LE
    let payload = [8, 0, 0, 0, b'a', 0, 0, 0];
    assert_eq!(file_copy_request("a"), frame(1060, &payload));
    assert_eq!(get_rec_file_network_path_request("a"), frame(1299, &payload));
}

#[test]
fn versioned_requests_start_with_the_protocol_version() {
    assert_eq!(enum_auto_add_request(), frame(2131, &[5, 0]));
    assert_eq!(enum_manual_add_request(), frame(2141, &[5, 0]));
    // version 5, then a vector of one string: total size, count, the string
    let payload = [5, 0, 16, 0, 0, 0, 1, 0, 0, 0, 8, 0, 0, 0, b'x', 0, 0, 0];
    assert_eq!(file_copy2_request(&["x".to_string()]), frame(2060, &payload));
}

#[test]
fn playback_requests_carry_one_id() {
    assert_eq!(nwplay_tf_open_request(7), frame(1087, &[7, 0, 0, 0]));
    assert_eq!(nwplay_close_request(-1), frame(1081, &[0xff, 0xff, 0xff, 0xff]));
    let filter = [1_i64, 2];
    let mut payload = vec![24, 0, 0, 0, 2, 0, 0, 0];
    payload.extend_from_slice(&1_i64.to_le_bytes());
    payload.extend_from_slice(&2_i64.to_le_bytes());
    assert_eq!(enum_pg_arc_request(&filter), frame(1030, &payload));
}

#[test]
fn search_requests_carry_the_encoded_conditions() {
    let keys = [SearchKeyInfo::default()];
    let encoded = encode_search_keys_for_test(&keys);
    assert_eq!(search_pg_request(&keys), frame(1025, &encoded));
    let count = i32::from_le_bytes(encoded[4..8].try_into().unwrap());
    let size = i32::from_le_bytes(encoded[0..4].try_into().unwrap());
    assert_eq!(count, 1);
    assert_eq!(size as usize, encoded.len());
}

#[test]
fn response_headers_give_status_and_size() {
    let mut header = 1_i32.to_le_bytes().to_vec();
    header.extend_from_slice(&12_i32.to_le_bytes());
    let (status, size) = parse_response_header(&header);
    assert_eq!(status, 1);
    assert_eq!(size.unwrap(), 12);

    let mut negative = 1_i32.to_le_bytes().to_vec();
    negative.extend_from_slice(&(-1_i32).to_le_bytes());
    assert!(matches!(parse_response_header(&negative).1, Err(EdcbError::Decode(_))));

    assert_eq!(check_status(1, vec![9, 9]).unwrap(), vec![9, 9]);
    assert!(matches!(check_status(205, vec![9]), Err(EdcbError::CommandStatus(205))));
}

#[test]
fn playback_response_gives_control_id_and_path() {
    // struct: size, ctrl_id, file path string
    let mut body = 18_i32.to_le_bytes().to_vec();
    body.extend_from_slice(&3_i32.to_le_bytes());
    body.extend_from_slice(&[10, 0, 0, 0, b'a', 0, b'b', 0, 0, 0]);
    let (ctrl, path) = rec_file_path_of(&body).unwrap();
    assert_eq!((ctrl, path.as_str()), (3, "ab"));
    assert!(matches!(rec_file_path_of(&body[..6]), Err(EdcbError::Decode(_))));
}

#[test]
fn encoded_reservations_decode_back() {
    let reserve = reserve_fixture_for_test();
    let body = encode_reserve_list_for_test(&[reserve.clone(), reserve.clone()]);
    let decoded: Vec<ReserveData> = read_versioned_vector(&body).unwrap();
    assert_eq!(decoded, vec![reserve.clone(), reserve]);
}

#[test]
fn encoded_events_decode_back() {
    let (service, event) = service_event_fixture_for_test();
    let events: Vec<EventInfo> = read_vector_response(&encode_event_list_for_test(&event)).unwrap();
    assert_eq!(events, vec![event.clone()]);

    let lists = [(service.clone(), vec![event.clone(), event.clone()])];
    let decoded: Vec<ServiceEventInfo> =
        read_vector_response(&encode_service_event_lists_for_test(&lists)).unwrap();
    assert_eq!(decoded.len(), 1);
    assert_eq!(decoded[0].service_info, service);
    assert_eq!(decoded[0].event_list, vec![event.clone(), event]);
}

#[test]
fn search_conditions_read_back_once_the_check_fields_follow() {
    let key = SearchKeyInfo {
        and_key: "news".to_string(),
        not_key: "rerun".to_string(),
        key_disabled: true,
        case_sensitive: true,
        reg_exp_flag: false,
        title_only_flag: true,
        content_list: vec![ContentData { content_nibble: 0x0100, user_nibble: 0 }],
        date_list: vec![SearchDateInfo {
            start_day_of_week: 1,
            start_hour: 9,
            start_min: 0,
            end_day_of_week: 5,
            end_hour: 18,
            end_min: 30,
        }],
        service_list: vec![0x0001_0002_0003],
        video_list: vec![2],
        audio_list: vec![3],
        aimai_flag: true,
        not_contet_flag: false,
        not_date_flag: true,
        free_ca_flag: 1,
        chk_rec_end: true,
        chk_rec_day: 7,
        chk_rec_no_service: true,
        chk_duration_min: 30,
        chk_duration_max: 120,
    };
    let written = encode_search_keys_for_test(&[key.clone()]);
    // what the writer writes alone lacks the two recording-check fields the reader wants
    assert!(matches!(read_vector_response::<SearchKeyInfo>(&written), Err(EdcbError::Decode(_))));

    // vector header (size, count), then the struct (size, body); append flag and day 40007
    let mut completed = written.clone();
    completed.extend_from_slice(&[1]);
    completed.extend_from_slice(&40007_u16.to_le_bytes());
    let vector_size = i32::from_le_bytes(completed[0..4].try_into().unwrap()) + 3;
    let struct_size = i32::from_le_bytes(completed[8..12].try_into().unwrap()) + 3;
    completed[0..4].copy_from_slice(&vector_size.to_le_bytes());
    completed[8..12].copy_from_slice(&struct_size.to_le_bytes());
    let read: Vec<SearchKeyInfo> = read_vector_response(&completed).unwrap();
    assert_eq!(read, vec![key]);
}

fn decode_message<T>(r: Result<T, EdcbError>) -> String {
    match r {
        Err(EdcbError::Decode(m)) => m,
        Err(e) => panic!("not a decode error: {}", e.message()),
        Ok(_) => panic!("decoded"),
    }
}

#[test]
fn decode_errors_say_what_is_wrong() {
    let mut body = 18_i32.to_le_bytes().to_vec();
    body.extend_from_slice(&3_i32.to_le_bytes());
    assert_eq!(
        decode_message(rec_file_path_of(&body)),
        "buffer too short: need 14 bytes, remaining 4"
    );
    assert_eq!(decode_message(rec_file_path_of(&[2, 0, 0, 0])), "invalid struct size 2");
    let mut short_string = 12_i32.to_le_bytes().to_vec();
    short_string.extend_from_slice(&3_i32.to_le_bytes());
    short_string.extend_from_slice(&4_i32.to_le_bytes());
    assert_eq!(decode_message(rec_file_path_of(&short_string)), "invalid string size 4");
    let mut truncated = 14_i32.to_le_bytes().to_vec();
    truncated.extend_from_slice(&3_i32.to_le_bytes());
    truncated.extend_from_slice(&[10, 0, 0, 0, b'a', 0]);
    assert_eq!(decode_message(rec_file_path_of(&truncated)), "truncated string size 10");
    assert_eq!(
        decode_message(read_versioned_vector::<ReserveData>(&[4, 0])),
        "unsupported EDCB response version 4"
    );
    assert_eq!(
        decode_message(read_vector_response::<ServiceEventInfo>(&[4, 0, 0, 0, 0xff, 0xff, 0xff, 0xff])),
        "invalid vector size 4 or count -1"
    );
    assert_eq!(
        EdcbError::Decode("x".to_string()).message(),
        "decode error: x"
    );
}

#[test]
fn settings_with_one_margin_read_back_with_neither() {
    let mut reserve = reserve_fixture_for_test();
    reserve.rec_setting.start_margin = Some(30);
    reserve.rec_setting.end_margin = None;
    let body = encode_reserve_list_for_test(&[reserve.clone()]);
    let read: Vec<ReserveData> = read_versioned_vector(&body).unwrap();
    let mut expected = reserve.clone();
    expected.rec_setting.start_margin = None;
    assert_eq!(read, vec![expected]);

    reserve.rec_setting.end_margin = Some(-5);
    let body = encode_reserve_list_for_test(&[reserve.clone()]);
    let read: Vec<ReserveData> = read_versioned_vector(&body).unwrap();
    assert_eq!(read, vec![reserve]);
}

#[test]
fn a_read_past_the_end_fails_and_reads_nothing() {
    let bytes = [1_u8, 2, 3];
    let mut reader = edcb_mcp::wire::Reader::new(&bytes);
    assert!(matches!(reader.read_bytes(5), Err(EdcbError::Decode(_))));
    assert_eq!(reader.read_bytes(2).unwrap(), vec![1, 2]);
    assert!(!reader.is_finished());
    assert_eq!(reader.read_bytes(1).unwrap(), vec![3]);
    assert!(reader.is_finished());
}

#[test]
fn exact_reads_take_the_next_bytes_or_nothing() {
    let bytes = [9_u8, 8, 7, 6];
    let mut reader = edcb_mcp::wire::Reader::new(&bytes);
    assert!(matches!(reader.read_exact(5), Err(EdcbError::Decode(_))));
    assert_eq!(reader.read_exact(3).unwrap(), &[9, 8, 7]);
    assert!(matches!(reader.read_exact(2), Err(EdcbError::Decode(_))));
    assert_eq!(reader.read_exact(1).unwrap(), &[6]);
    assert!(reader.is_finished());
}

#[test]
fn duration_markers_split_off_any_text() {
    assert_eq!(
        parse_duration_prefix("D!{100300120}news D!{1}"),
        ("news D!{1}".to_string(), 30, 120)
    );
    assert_eq!(parse_duration_prefix("D!{199999999}"), (String::new(), 9999, 9999));
    assert_eq!(parse_duration_prefix("D!{10030x120}k"), ("D!{10030x120}k".to_string(), 0, 0));
    assert_eq!(parse_duration_prefix("plain"), ("plain".to_string(), 0, 0));
}

#[test]
fn system_times_carry_the_day_of_the_week() {
    let mut w = edcb_mcp::wire::Writer::new();
    let monday = edcb_mcp::datetime::DateTime {
        year: 2026,
        month: 6,
        day: 29,
        hour: 9,
        minute: 0,
        second: 0,
        nanosecond: 0,
        offset_seconds: 32400,
    };
    w.write_system_time(&monday);
    let bytes = w.into_inner();
    assert_eq!(&bytes[4..6], &[1, 0]);
    assert_eq!(&bytes[0..4], &[0xea, 0x07, 6, 0]);
}
