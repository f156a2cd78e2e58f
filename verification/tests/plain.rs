use edcb_mcp::datetime::DateTime;
use edcb_mcp::plain::{
    format_notify_status_plain, format_reserves_plain, format_string_list_plain,
    format_tuner_reserves_plain,
};
use edcb_mcp::test_support::reserve_fixture_for_test;
use edcb_mcp::types::{NotifySrvInfo, TunerReserveInfo};

#[test]
fn reserves_print_id_start_station_and_title() {
    let mut reserve = reserve_fixture_for_test();
    reserve.reserve_id = -7;
    reserve.start_time.nanosecond = 120_000_000;
    assert_eq!(
        format_reserves_plain(&[reserve]),
        "-7\t2026-06-29T09:00:00.120+09:00\tDefault Station\tDefault Reserve\n"
    );
}

#[test]
fn lists_and_notifications_print_one_line_each() {
    assert_eq!(format_string_list_plain(&["a".to_string(), "b".to_string()]), "a\nb\n");
    assert_eq!(format_string_list_plain(&[]), "");
    let tuners = [TunerReserveInfo {
        tuner_id: 0x1000_0001,
        tuner_name: "BonDriver".to_string(),
        reserve_list: vec![1, 2, 3],
    }];
    assert_eq!(format_tuner_reserves_plain(&tuners), "268435457\tBonDriver\t3\n");
    let notify = NotifySrvInfo {
        notify_id: 1,
        time: DateTime {
            year: 2026,
            month: 1,
            day: 2,
            hour: 3,
            minute: 4,
            second: 5,
            nanosecond: 0,
            offset_seconds: -3600,
        },
        param1: 2,
        param2: 3,
        count: 4,
        param4: String::new(),
        param5: String::new(),
        param6: String::new(),
    };
    assert_eq!(
        format_notify_status_plain(&notify),
        "1\t2026-01-02T03:04:05-01:00\t2\t3\t4\n"
    );
}
