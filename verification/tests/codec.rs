use edcb_mcp::datetime::DateTime;
use edcb_mcp::wire::{Reader, Writer};
use edcb_mcp::EdcbError;

#[test]
fn writes_and_reads_little_endian_primitives() {
    let mut writer = Writer::new();
    writer.write_u8(0x12);
    writer.write_u16(0x3456);
    writer.write_i32(-20);
    writer.write_u32(0x89abcdef);
    writer.write_i64(-30);

    assert_eq!(
        writer.as_slice(),
        &[
            0x12, 0x56, 0x34, 0xec, 0xff, 0xff, 0xff, 0xef, 0xcd, 0xab, 0x89, 0xe2, 0xff, 0xff,
            0xff, 0xff, 0xff, 0xff, 0xff,
        ]
    );

    let bytes = writer.into_inner();
    let mut reader = Reader::new(&bytes);
    assert_eq!(reader.read_u8().unwrap(), 0x12);
    assert_eq!(reader.read_u16().unwrap(), 0x3456);
    assert_eq!(reader.read_i32().unwrap(), -20);
    assert_eq!(reader.read_u32().unwrap(), 0x89abcdef);
    assert_eq!(reader.read_i64().unwrap(), -30);
    assert!(reader.is_finished());
}

#[test]
fn writes_and_reads_utf16le_size_prefixed_strings() {
    let mut writer = Writer::new();
    writer.write_string("BS朝日");

    let bytes = writer.into_inner();
    assert_eq!(i32::from_le_bytes(bytes[0..4].try_into().unwrap()), 14);
    assert_eq!(&bytes[bytes.len() - 2..], &[0, 0]);

    let mut reader = Reader::new(&bytes);
    assert_eq!(reader.read_string().unwrap(), "BS朝日");
    assert!(reader.is_finished());
}

#[test]
fn rejects_truncated_strings() {
    let bytes = [10, 0, 0, 0, b'a', 0];
    let mut reader = Reader::new(&bytes);

    assert!(matches!(reader.read_string(), Err(EdcbError::Decode(_))));
}

#[test]
fn reads_vectors_with_declared_boundary() {
    let mut writer = Writer::new();
    writer.write_vector(&[10_i32, 20_i32]);

    let bytes = writer.into_inner();
    let mut reader = Reader::new(&bytes);
    let values = reader.read_vector::<i32>().expect("vector decodes");

    assert_eq!(values, vec![10, 20]);
    assert!(reader.is_finished());
}

#[test]
fn writes_and_reads_jst_system_time() {
    let value = DateTime {
        year: 2026,
        month: 6,
        day: 29,
        hour: 5,
        minute: 45,
        second: 30,
        nanosecond: 0,
        offset_seconds: 9 * 3600,
    };

    let mut writer = Writer::new();
    writer.write_system_time(&value);

    let bytes = writer.into_inner();
    let mut reader = Reader::new(&bytes);
    let decoded = reader.read_system_time().unwrap();

    assert_eq!(decoded.year, 2026);
    assert_eq!(decoded.month, 6);
    assert_eq!(decoded.day, 29);
    assert_eq!(decoded.hour, 5);
    assert_eq!(decoded.minute, 45);
    assert_eq!(decoded.second, 30);
    assert_eq!(decoded.offset_seconds, 9 * 3600);
}

#[test]
fn system_time_carries_the_day_of_week() {
    let value = DateTime {
        year: 2026,
        month: 6,
        day: 29,
        hour: 5,
        minute: 45,
        second: 30,
        nanosecond: 0,
        offset_seconds: 9 * 3600,
    };
    let mut writer = Writer::new();
    writer.write_system_time(&value);
    let bytes = writer.into_inner();
    assert_eq!(bytes.len(), 16);
    // 2026-06-29 is a Monday.
    assert_eq!(&bytes[4..6], &[1, 0]);
    assert_eq!(&bytes[14..16], &[0, 0]);
}

#[test]
fn a_date_that_does_not_exist_reads_as_the_epoch() {
    let mut writer = Writer::new();
    for field in [2026_u16, 2, 0, 30, 0, 0, 0, 0] {
        writer.write_u16(field);
    }
    let bytes = writer.into_inner();
    let mut reader = Reader::new(&bytes);
    let decoded = reader.read_system_time().unwrap();
    assert_eq!((decoded.year, decoded.month, decoded.day), (1970, 1, 1));
    assert_eq!(decoded.hour, 9);
    assert_eq!(decoded.offset_seconds, 9 * 3600);
}

#[test]
fn rejects_truncated_primitives_and_vectors() {
    let bytes = [1_u8, 2, 3];
    let mut reader = Reader::new(&bytes);
    assert!(matches!(reader.read_i32(), Err(EdcbError::Decode(_))));

    let mut writer = Writer::new();
    writer.write_vector(&[10_i32, 20_i32]);
    let mut bytes = writer.into_inner();
    bytes.truncate(bytes.len() - 1);
    let mut reader = Reader::new(&bytes);
    assert!(reader.read_vector::<i32>().is_err());
}

#[test]
fn strings_round_trip_outside_the_basic_plane() {
    let mut writer = Writer::new();
    writer.write_string("𝄞x");
    let bytes = writer.into_inner();
    assert_eq!(i32::from_le_bytes(bytes[0..4].try_into().unwrap()), 12);
    let mut reader = Reader::new(&bytes);
    assert_eq!(reader.read_string().unwrap(), "𝄞x");
}
