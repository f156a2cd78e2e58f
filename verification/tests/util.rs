use edcb_mcp::datetime::DateTime;
use edcb_mcp::util::{
    checked_datetime_to_file_time, convert_bytes_to_string, datetime_to_file_time,
    get_logo_file_name_from_directory_index, get_logo_id_from_logo_data_ini, parse_ch_set5,
};
use edcb_mcp::sections::parse_program_extended_text;

#[test]
fn converts_bytes_using_bom_or_cp932() {
    assert_eq!(
        convert_bytes_to_string(&[0xff, 0xfe, 0x42, 0x30], "cp932"),
        "あ"
    );
    assert_eq!(
        convert_bytes_to_string(&[0x83, 0x65, 0x83, 0x58, 0x83, 0x67], "cp932"),
        "テスト"
    );
}

#[test]
fn parses_ch_set5_rows() {
    let rows = parse_ch_set5("NHK\t地デジ\t1\t2\t3\t1\t0\t1\t1\nbad");

    assert_eq!(rows.len(), 1);
    assert_eq!(rows[0].service_name, "NHK");
    assert_eq!(rows[0].onid, 1);
    assert!(!rows[0].partial_flag);
    assert!(rows[0].epg_cap_flag);
}

#[test]
fn extracts_logo_metadata() {
    assert_eq!(
        get_logo_id_from_logo_data_ini("00010003=42\n", 1, 3),
        Some(42)
    );
    assert_eq!(
        get_logo_file_name_from_directory_index(
            "2026/01/01 00:00 0000 1234_02A_000_01.png\n",
            0x1234,
            0x02a,
            1,
        ),
        Some("1234_02A_000_01.png".to_string())
    );
}

#[test]
fn parses_program_extended_text_sections() {
    let parsed = parse_program_extended_text("- 見出し1\n本文1\n- 見出し2\n本文2");

    assert_eq!(parsed.get("見出し1").unwrap(), "本文1\n");
    assert_eq!(parsed.get("見出し2").unwrap(), "本文2");
}

#[test]
fn converts_datetime_to_filetime() {
    let utc = DateTime {
        year: 1970,
        month: 1,
        day: 1,
        hour: 0,
        minute: 0,
        second: 0,
        nanosecond: 0,
        offset_seconds: 0,
    };

    assert_eq!(datetime_to_file_time(&utc), 116444736000000000);
}

#[test]
fn filetime_counts_local_time_in_hundred_nanoseconds() {
    let jst = DateTime {
        year: 1970,
        month: 1,
        day: 1,
        hour: 9,
        minute: 0,
        second: 1,
        nanosecond: 250,
        offset_seconds: 9 * 3600,
    };
    // One second and two 100-nanosecond steps past the epoch, moved by the nine-hour offset.
    assert_eq!(
        datetime_to_file_time(&jst),
        116444736000000000 + (9 * 3600 + 1) * 10_000_000 + 2
    );
    assert_eq!(checked_datetime_to_file_time(&jst), Some(datetime_to_file_time(&jst)));
}

#[test]
fn converts_bytes_with_utf8_mark_label_or_nothing() {
    assert_eq!(convert_bytes_to_string(&[], "cp932"), "");
    assert_eq!(convert_bytes_to_string(&[0xef, 0xbb, 0xbf, b'h', b'i'], "cp932"), "hi");
    assert_eq!(convert_bytes_to_string(&[0xe3, 0x81, 0x82], "utf-8"), "あ");
    assert_eq!(convert_bytes_to_string(&[0x82, 0xa0], "no-such-label"), "あ");
}

#[test]
fn ch_set5_flags_and_bad_numbers() {
    let rows = parse_ch_set5(
        "A\tN\t1\t2\t3\t1\t1\t0\t5\r\nB\tN\tx\t2\t3\t1\t0\t0\t0\nC\tN\t1\t2\t3\t1\t0\t0\n",
    );
    assert_eq!(rows.len(), 1);
    assert_eq!(rows[0].service_name, "A");
    assert!(rows[0].partial_flag);
    assert!(!rows[0].epg_cap_flag);
    assert!(rows[0].search_flag);
}

#[test]
fn logo_ini_matches_keys_up_to_case_and_white_space() {
    let ini = "[LogoIDMap]\n 7fe00400 = 5 \r\n7FE00401=x\n";
    assert_eq!(get_logo_id_from_logo_data_ini(ini, 0x7fe0, 0x0400), Some(5));
    assert_eq!(get_logo_id_from_logo_data_ini(ini, 0x7fe0, 0x0401), None);
    assert_eq!(get_logo_id_from_logo_data_ini(ini, 0x7fe0, 0x0402), None);
}

#[test]
fn logo_directory_index_checks_id_and_type() {
    let index = "a b c 1234_02a_000_01.PNG\na b c 1234_02A_000_05.png\nshort line\n";
    assert_eq!(
        get_logo_file_name_from_directory_index(index, 0x1234, 0x02a, 5),
        Some("1234_02A_000_05.png".to_string())
    );
    assert_eq!(
        get_logo_file_name_from_directory_index(index, 0x1234, 0x02b, 1),
        None
    );
}

#[test]
fn extended_text_keeps_repeated_headings_apart() {
    let parsed = parse_program_extended_text("前文\r\n- 出演\nA\n- 出演\nB\n");
    assert_eq!(parsed.len(), 3);
    assert_eq!(parsed.get("").unwrap(), "前文\n");
    assert_eq!(parsed.get("出演").unwrap(), "A\n");
    assert_eq!(parsed.get("出演\t").unwrap(), "B\n");
    assert!(parsed.get("なし").is_none());
    assert_eq!(parse_program_extended_text("").len(), 0);
}

#[test]
fn extended_text_sections_come_in_heading_order() {
    let parsed = parse_program_extended_text("- b\n2\n- a\n1\n");
    assert_eq!(parsed.entry(0), ("a".to_string(), "1\n".to_string()));
    assert_eq!(parsed.entry(1), ("b".to_string(), "2\n".to_string()));
}
