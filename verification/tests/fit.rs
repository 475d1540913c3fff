use notchrider::bytes::{u16_bytes, u16_from_le, u32_bytes, u32_from_le};
use notchrider::fit::crc::fit_crc;
use notchrider::fit::encoder::FitEncoder;
use notchrider::fit::messages::{
    clamp_u32, seconds_to_millis, write_activity, write_event, write_file_id, write_lap,
    write_record, write_session, LapData, SessionData,
};
use notchrider::fit::types::{
    unix_to_fit_timestamp, FieldDef, BASE_TYPE_ENUM, BASE_TYPE_STRING, BASE_TYPE_UINT16,
    BASE_TYPE_UINT32, BASE_TYPE_UINT8, EVENT_TYPE_START, EVENT_TYPE_STOP_ALL,
    FILE_TYPE_ACTIVITY, FIT_EPOCH_OFFSET, MANUFACTURER_DEVELOPMENT, MESG_FILE_ID,
};

/// The stream of an encoder: the file without header and checksum.
fn stream_of(encoder: FitEncoder) -> Vec<u8> {
    let file = encoder.finish();
    file[14..file.len() - 2].to_vec()
}

#[test]
fn test_crc_known_value() {
    let data = [0x0E, 0x10, 0x67, 0x08];
    let crc = fit_crc(&data);
    assert_ne!(crc, 0);
}

#[test]
fn test_crc_empty() {
    assert_eq!(fit_crc(&[]), 0);
}

#[test]
fn crc_check_values() {
    // The checksum is CRC-16/ARC, whose check value is known.
    assert_eq!(fit_crc(b"123456789"), 0xBB3D);
    assert_eq!(fit_crc(&[0x00]), 0x0000);
    assert_eq!(fit_crc(&[0x01]), 0xC0C1);
    assert_eq!(fit_crc(&[0xFF]), 0x4040);
}

#[test]
fn crc_of_data_and_its_crc_is_zero() {
    let mut data = vec![1u8, 2, 3, 4, 5, 6, 7, 8, 9, 10];
    let crc = fit_crc(&data);
    data.extend_from_slice(&crc.to_le_bytes());
    assert_eq!(fit_crc(&data), 0);
}

#[test]
fn test_encoder_produces_valid_header() {
    let encoder = FitEncoder::new();
    let bytes = encoder.finish();

    assert_eq!(bytes.len(), 16);

    assert_eq!(bytes[0], 14);
    assert_eq!(&bytes[8..12], b".FIT");
}

#[test]
fn test_definition_and_data_message() {
    let mut encoder = FitEncoder::new();

    let fields = vec![
        FieldDef::new(0, 1, BASE_TYPE_ENUM),
        FieldDef::new(1, 2, BASE_TYPE_UINT16),
    ];

    encoder.write_message(
        0,
        MESG_FILE_ID,
        &fields,
        &[
            &[FILE_TYPE_ACTIVITY],
            &MANUFACTURER_DEVELOPMENT.to_le_bytes(),
        ],
    );

    let bytes = encoder.finish();
    // Header(14) + def(1+1+1+2+1 + 2*3=6 = 12) + data(1+1+2=4) + CRC(2)
    assert_eq!(bytes.len(), 14 + 12 + 4 + 2);
}

#[test]
fn test_fit_timestamp_conversion() {
    // 2024-01-01 00:00:00 UTC = 1704067200 Unix
    let fit_ts = unix_to_fit_timestamp(1704067200);
    assert_eq!(fit_ts, 1704067200 - FIT_EPOCH_OFFSET);
}

#[test]
fn fit_timestamps_wrap() {
    assert_eq!(unix_to_fit_timestamp(631065600), 0);
    assert_eq!(unix_to_fit_timestamp(631065601), 1);
    assert_eq!(unix_to_fit_timestamp(0), 3663901696);
    assert_eq!(unix_to_fit_timestamp(631065599), u32::MAX);
    assert_eq!(unix_to_fit_timestamp(631065600 + (1u64 << 32)), 0);
    assert_eq!(unix_to_fit_timestamp(u64::MAX), 3663901695);
}

#[test]
fn empty_file_is_exact() {
    let bytes = FitEncoder::new().finish();
    assert_eq!(&bytes[..12], &[14, 0x20, 0x67, 0x08, 0, 0, 0, 0, 0x2E, 0x46, 0x49, 0x54]);
    assert_eq!(u16::from_le_bytes([bytes[12], bytes[13]]), fit_crc(&bytes[..12]));
    assert_eq!(u16::from_le_bytes([bytes[14], bytes[15]]), fit_crc(&bytes[..14]));
}

#[test]
fn header_counts_the_stream() {
    let mut encoder = FitEncoder::new();
    encoder.write_data(3, &[&[1, 2, 3], &[], &[4]]);
    let bytes = encoder.finish();
    assert_eq!(bytes.len(), 14 + 5 + 2);
    assert_eq!(u32::from_le_bytes([bytes[4], bytes[5], bytes[6], bytes[7]]), 5);
    assert_eq!(&bytes[14..19], &[0x03, 1, 2, 3, 4]);
    assert_eq!(u16::from_le_bytes([bytes[12], bytes[13]]), fit_crc(&bytes[..12]));
    assert_eq!(u16::from_le_bytes([bytes[19], bytes[20]]), fit_crc(&bytes[..19]));
}

#[test]
fn definition_record_is_exact() {
    let mut encoder = FitEncoder::new();
    let fields = vec![
        FieldDef::new(253, 4, BASE_TYPE_UINT32),
        FieldDef::new(3, 1, BASE_TYPE_UINT8),
        FieldDef::new(9, 8, BASE_TYPE_STRING),
    ];
    encoder.write_definition(5, 0x0122, &fields);
    assert_eq!(
        stream_of(encoder),
        vec![0x45, 0, 0, 0x22, 0x01, 3, 253, 4, 0x86, 3, 1, 0x0D, 9, 8, 0x07]
    );
}

#[test]
fn write_message_defines_a_local_type_once() {
    let fields = vec![FieldDef::new(0, 1, BASE_TYPE_ENUM)];
    let mut encoder = FitEncoder::new();
    encoder.write_message(2, 20, &fields, &[&[7]]);
    encoder.write_message(2, 20, &fields, &[&[8]]);
    assert_eq!(stream_of(encoder), vec![0x42, 0, 0, 20, 0, 1, 0, 1, 0, 0x02, 7, 0x02, 8]);

    let mut encoder = FitEncoder::new();
    encoder.write_message_with_def(2, 20, &fields, &[&[7]]);
    encoder.write_message_with_def(2, 21, &fields, &[&[8]]);
    assert_eq!(
        stream_of(encoder),
        vec![0x42, 0, 0, 20, 0, 1, 0, 1, 0, 0x02, 7, 0x42, 0, 0, 21, 0, 1, 0, 1, 0, 0x02, 8]
    );

    let mut encoder = FitEncoder::new();
    encoder.write_definition(2, 20, &fields);
    encoder.write_message(2, 20, &fields, &[&[9]]);
    encoder.write_message(3, 20, &fields, &[&[9]]);
    assert_eq!(
        stream_of(encoder),
        vec![0x42, 0, 0, 20, 0, 1, 0, 1, 0, 0x02, 9, 0x43, 0, 0, 20, 0, 1, 0, 1, 0, 0x03, 9]
    );
}

#[test]
fn data_header_keeps_the_low_nibble() {
    let mut encoder = FitEncoder::new();
    encoder.write_data(0x35, &[&[1]]);
    assert_eq!(stream_of(encoder), vec![0x05, 1]);
}

#[test]
fn file_id_message_is_exact() {
    let mut encoder = FitEncoder::new();
    write_file_id(&mut encoder, 0x01020304, 0x0A0B0C0D);
    assert_eq!(
        stream_of(encoder),
        vec![
            0x40, 0, 0, 0, 0, 5, // definition of local type 0, global 0, five fields
            0, 1, 0x00, 1, 2, 0x84, 2, 2, 0x84, 3, 4, 0x86, 4, 4, 0x86, //
            0x00, 4, 255, 0, 1, 0, 0x0D, 0x0C, 0x0B, 0x0A, 0x04, 0x03, 0x02, 0x01,
        ]
    );
}

#[test]
fn event_message_is_exact() {
    let mut encoder = FitEncoder::new();
    write_event(&mut encoder, 0x11223344, EVENT_TYPE_STOP_ALL);
    assert_eq!(
        stream_of(encoder),
        vec![
            0x41, 0, 0, 21, 0, 3, 253, 4, 0x86, 0, 1, 0x00, 1, 1, 0x00, //
            0x01, 0x44, 0x33, 0x22, 0x11, 0, 4,
        ]
    );
    let mut encoder = FitEncoder::new();
    write_event(&mut encoder, 1, EVENT_TYPE_START);
    assert_eq!(&stream_of(encoder)[15..], &[0x01, 1, 0, 0, 0, 0, 0]);
}

#[test]
fn record_message_is_exact() {
    let mut encoder = FitEncoder::new();
    write_record(&mut encoder, 1000, 200, 140, 90, 8333, 833, true);
    write_record(&mut encoder, 1001, 201, 141, 91, 8334, 1666, false);
    assert_eq!(
        stream_of(encoder),
        vec![
            0x42, 0, 0, 20, 0, 6, //
            253, 4, 0x86, 7, 2, 0x84, 3, 1, 0x0D, 4, 1, 0x0D, 6, 2, 0x84, 5, 4, 0x86, //
            0x02, 0xE8, 0x03, 0, 0, 200, 0, 140, 90, 0x8D, 0x20, 0x41, 0x03, 0, 0, //
            0x02, 0xE9, 0x03, 0, 0, 201, 0, 141, 91, 0x8E, 0x20, 0x82, 0x06, 0, 0,
        ]
    );
}

#[test]
fn lap_message_is_exact() {
    let mut encoder = FitEncoder::new();
    write_lap(
        &mut encoder,
        &LapData {
            timestamp: 2000,
            start_time: 1000,
            total_elapsed_time: 70,
            total_timer_time: 60,
            total_distance: 50_000,
            avg_power: 200,
            max_power: 300,
            avg_heart_rate: 140,
            max_heart_rate: 150,
            avg_cadence: 90,
            max_cadence: 95,
        },
    );
    assert_eq!(
        stream_of(encoder),
        vec![
            0x43, 0, 0, 19, 0, 16, //
            253, 4, 0x86, 2, 4, 0x86, 7, 4, 0x86, 8, 4, 0x86, 9, 4, 0x86, //
            0, 1, 0x00, 1, 1, 0x00, 24, 1, 0x00, 25, 1, 0x00, 26, 1, 0x00, //
            19, 2, 0x84, 20, 2, 0x84, 15, 1, 0x0D, 16, 1, 0x0D, 17, 1, 0x0D, 18, 1, 0x0D, //
            0x03, 0xD0, 0x07, 0, 0, 0xE8, 0x03, 0, 0, // timestamp, start
            0x70, 0x11, 0x01, 0, 0x60, 0xEA, 0, 0, // 70000 ms, 60000 ms
            0x50, 0xC3, 0, 0, // 50000 cm
            0, 4, 7, 2, 6, // timer, stop all, session end, cycling, indoor
            200, 0, 0x2C, 0x01, 140, 150, 90, 95,
        ]
    );
}

#[test]
fn session_message_is_exact() {
    let mut encoder = FitEncoder::new();
    write_session(
        &mut encoder,
        &SessionData {
            timestamp: 2000,
            start_time: 1000,
            total_elapsed_time: 70,
            total_timer_time: 60,
            total_distance: 50_000,
            avg_power: 200,
            max_power: 300,
            avg_heart_rate: 140,
            max_heart_rate: 150,
            avg_cadence: 90,
            max_cadence: 95,
            avg_speed: 8333,
            max_speed: 9000,
        },
    );
    assert_eq!(
        stream_of(encoder),
        vec![
            0x44, 0, 0, 18, 0, 19, //
            253, 4, 0x86, 2, 4, 0x86, 7, 4, 0x86, 8, 4, 0x86, 9, 4, 0x86, //
            5, 1, 0x00, 6, 1, 0x00, 20, 2, 0x84, 21, 2, 0x84, //
            16, 1, 0x0D, 17, 1, 0x0D, 18, 1, 0x0D, 19, 1, 0x0D, //
            14, 2, 0x84, 15, 2, 0x84, 0, 1, 0x00, 1, 1, 0x00, 25, 2, 0x84, 26, 2, 0x84, //
            0x04, 0xD0, 0x07, 0, 0, 0xE8, 0x03, 0, 0, //
            0x70, 0x11, 0x01, 0, 0x60, 0xEA, 0, 0, //
            0x50, 0xC3, 0, 0, //
            2, 6, 200, 0, 0x2C, 0x01, 140, 150, 90, 95, //
            0x8D, 0x20, 0x28, 0x23, // 8333, 9000
            0, 4, 0, 0, 1, 0,
        ]
    );
}

#[test]
fn activity_message_is_exact() {
    let mut encoder = FitEncoder::new();
    write_activity(&mut encoder, 2000, 3600);
    assert_eq!(
        stream_of(encoder),
        vec![
            0x45, 0, 0, 34, 0, 6, //
            253, 4, 0x86, 0, 4, 0x86, 1, 2, 0x84, 2, 1, 0x00, 3, 1, 0x00, 4, 1, 0x00, //
            0x05, 0xD0, 0x07, 0, 0, 0x10, 0x0E, 0, 0, 1, 0, 0, 0, 4,
        ]
    );
}

#[test]
fn times_and_distances_are_held_at_the_largest_value() {
    assert_eq!(seconds_to_millis(0), 0);
    assert_eq!(seconds_to_millis(1), 1000);
    assert_eq!(seconds_to_millis(4_294_967), 4_294_967_000);
    assert_eq!(seconds_to_millis(4_294_968), u32::MAX);
    assert_eq!(seconds_to_millis(u64::MAX), u32::MAX);
    assert_eq!(clamp_u32(0), 0);
    assert_eq!(clamp_u32(4_294_967_295), u32::MAX);
    assert_eq!(clamp_u32(4_294_967_296), u32::MAX);
    assert_eq!(clamp_u32(u64::MAX), u32::MAX);
    assert_eq!(clamp_u32(123_456), 123_456);
}

#[test]
fn little_endian_bytes() {
    assert_eq!(u16_bytes(0x1234), [0x34, 0x12]);
    assert_eq!(u16_bytes(0), [0, 0]);
    assert_eq!(u16_bytes(u16::MAX), [0xFF, 0xFF]);
    assert_eq!(u32_bytes(0x12345678), [0x78, 0x56, 0x34, 0x12]);
    assert_eq!(u32_bytes(u32::MAX), [0xFF, 0xFF, 0xFF, 0xFF]);
    assert_eq!(u16_from_le(0x34, 0x12), 0x1234);
    assert_eq!(u16_from_le(0xFF, 0xFF), u16::MAX);
    assert_eq!(u32_from_le(0x78, 0x56, 0x34, 0x12), 0x12345678);
    assert_eq!(u32_from_le(0xFF, 0xFF, 0xFF, 0xFF), u32::MAX);
    for value in [0u16, 1, 255, 256, 0x8000, 0xFFFF] {
        let bytes = u16_bytes(value);
        assert_eq!(u16_from_le(bytes[0], bytes[1]), value);
        assert_eq!(bytes, value.to_le_bytes());
    }
    for value in [0u32, 1, 0xFFFF, 0x10000, 0x80000000, 0xFFFFFFFF] {
        let bytes = u32_bytes(value);
        assert_eq!(u32_from_le(bytes[0], bytes[1], bytes[2], bytes[3]), value);
        assert_eq!(bytes, value.to_le_bytes());
    }
}
