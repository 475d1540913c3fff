//! The messages of an activity file. Each function writes one message to the
//! encoder under the local message type reserved for it.

use vstd::prelude::*;
use super::encoder::FitEncoder;
use super::encoder::data_record;
use super::encoder::definition_record;
use super::encoder::field_values;
use crate::bytes::{le16, le32, u16_bytes, u32_bytes};
use super::types::{
    FieldDef, ACTIVITY_MANUAL, BASE_TYPE_ENUM, BASE_TYPE_UINT16, BASE_TYPE_UINT32,
    BASE_TYPE_UINT8, EVENT_TIMER, EVENT_TYPE_STOP_ALL, FILE_TYPE_ACTIVITY,
    LAP_TRIGGER_SESSION_END, LOCAL_ACTIVITY, LOCAL_EVENT, LOCAL_FILE_ID, LOCAL_LAP, LOCAL_RECORD,
    LOCAL_SESSION, MANUFACTURER_DEVELOPMENT, MESG_ACTIVITY, MESG_EVENT, MESG_FILE_ID, MESG_LAP,
    MESG_RECORD, MESG_SESSION, PRODUCT_NOTCHRIDER, SPORT_CYCLING, SUB_SPORT_INDOOR_CYCLING,
};

verus! {

/// A count of seconds as milliseconds, held at the largest 32-bit value
/// where it would pass it.
pub open spec fn spec_seconds_to_millis(seconds: u64) -> u32 {
    if seconds * 1000 > u32::MAX {
        u32::MAX
    } else {
        (seconds * 1000) as u32
    }
}

/// A 64-bit quantity held at the largest 32-bit value where it would pass it.
pub open spec fn spec_clamp_u32(value: u64) -> u32 {
    if value > u32::MAX {
        u32::MAX
    } else {
        value as u32
    }
}

/// Converts whole seconds to milliseconds, held at the largest value.
pub fn seconds_to_millis(seconds: u64) -> (millis: u32)
    ensures
        millis == spec_seconds_to_millis(seconds),
{
    if seconds > 4294967 {
        u32::MAX
    } else {
        (seconds * 1000) as u32
    }
}

/// Narrows a quantity to 32 bits, held at the largest value.
pub fn clamp_u32(value: u64) -> (clamped: u32)
    ensures
        clamped == spec_clamp_u32(value),
{
    if value > 0xFFFF_FFFF {
        u32::MAX
    } else {
        value as u32
    }
}

/// Fields of the File-ID message.
pub open spec fn file_id_fields() -> Seq<FieldDef> {
    seq![
        FieldDef { field_num: 0, size: 1, base_type: BASE_TYPE_ENUM },
        FieldDef { field_num: 1, size: 2, base_type: BASE_TYPE_UINT16 },
        FieldDef { field_num: 2, size: 2, base_type: BASE_TYPE_UINT16 },
        FieldDef { field_num: 3, size: 4, base_type: BASE_TYPE_UINT32 },
        FieldDef { field_num: 4, size: 4, base_type: BASE_TYPE_UINT32 },
    ]
}

/// The field values of the File-ID message, in the order of its fields.
pub open spec fn file_id_values(timestamp: u32, serial: u32) -> Seq<Seq<u8>> {
    seq![
        seq![FILE_TYPE_ACTIVITY],
        le16(MANUFACTURER_DEVELOPMENT),
        le16(PRODUCT_NOTCHRIDER),
        le32(serial),
        le32(timestamp),
    ]
}

/// The File-ID message: an activity file of the development manufacturer,
/// with its serial number and time of creation.
pub open spec fn file_id_message(timestamp: u32, serial: u32) -> Seq<u8> {
    definition_record(LOCAL_FILE_ID, MESG_FILE_ID, file_id_fields()) + data_record(
        LOCAL_FILE_ID,
        file_id_values(timestamp, serial),
    )
}

/// Writes the File-ID message under its local type.
pub fn write_file_id(encoder: &mut FitEncoder, timestamp: u32, serial: u32)
    ensures
        final(encoder).stream() == old(encoder).stream() + file_id_message(timestamp, serial),
        forall|local: u8|
            final(encoder).is_defined(local) == (local == LOCAL_FILE_ID || old(encoder).is_defined(
                local,
            )),
{
    let fields: Vec<FieldDef> = vec![
        FieldDef::new(0, 1, BASE_TYPE_ENUM),
        FieldDef::new(1, 2, BASE_TYPE_UINT16),
        FieldDef::new(2, 2, BASE_TYPE_UINT16),
        FieldDef::new(3, 4, BASE_TYPE_UINT32),
        FieldDef::new(4, 4, BASE_TYPE_UINT32),
    ];
    let file_type: [u8; 1] = [FILE_TYPE_ACTIVITY];
    let manufacturer: [u8; 2] = u16_bytes(MANUFACTURER_DEVELOPMENT);
    let product: [u8; 2] = u16_bytes(PRODUCT_NOTCHRIDER);
    let serial_bytes: [u8; 4] = u32_bytes(serial);
    let created: [u8; 4] = u32_bytes(timestamp);
    let field_data: [&[u8]; 5] = [
        file_type.as_slice(),
        manufacturer.as_slice(),
        product.as_slice(),
        serial_bytes.as_slice(),
        created.as_slice(),
    ];
    proof {
        assert(fields@ =~= file_id_fields());
        assert(field_values(field_data@) =~~= file_id_values(timestamp, serial));
    }
    encoder.write_message_with_def(
        LOCAL_FILE_ID,
        MESG_FILE_ID,
        fields.as_slice(),
        field_data.as_slice(),
    );
}

/// Fields of the Event message.
pub open spec fn event_fields() -> Seq<FieldDef> {
    seq![
        FieldDef { field_num: 253, size: 4, base_type: BASE_TYPE_UINT32 },
        FieldDef { field_num: 0, size: 1, base_type: BASE_TYPE_ENUM },
        FieldDef { field_num: 1, size: 1, base_type: BASE_TYPE_ENUM },
    ]
}

/// The field values of the Event message, in the order of its fields.
pub open spec fn event_values(timestamp: u32, event_type: u8) -> Seq<Seq<u8>> {
    seq![
        le32(timestamp),
        seq![EVENT_TIMER],
        seq![event_type],
    ]
}

/// The Event message: the timer event of the given type at `timestamp`.
pub open spec fn event_message(timestamp: u32, event_type: u8) -> Seq<u8> {
    definition_record(LOCAL_EVENT, MESG_EVENT, event_fields()) + data_record(
        LOCAL_EVENT,
        event_values(timestamp, event_type),
    )
}

/// Writes an Event message under its local type: the timer starts or stops.
pub fn write_event(encoder: &mut FitEncoder, timestamp: u32, event_type: u8)
    ensures
        final(encoder).stream() == old(encoder).stream() + event_message(timestamp, event_type),
        forall|local: u8|
            final(encoder).is_defined(local) == (local == LOCAL_EVENT || old(encoder).is_defined(
                local,
            )),
{
    let fields: Vec<FieldDef> = vec![
        FieldDef::new(253, 4, BASE_TYPE_UINT32),
        FieldDef::new(0, 1, BASE_TYPE_ENUM),
        FieldDef::new(1, 1, BASE_TYPE_ENUM),
    ];
    let stamp: [u8; 4] = u32_bytes(timestamp);
    let event: [u8; 1] = [EVENT_TIMER];
    let kind: [u8; 1] = [event_type];
    let field_data: [&[u8]; 3] = [
        stamp.as_slice(),
        event.as_slice(),
        kind.as_slice(),
    ];
    proof {
        assert(fields@ =~= event_fields());
        assert(field_values(field_data@) =~~= event_values(timestamp, event_type));
    }
    encoder.write_message_with_def(
        LOCAL_EVENT,
        MESG_EVENT,
        fields.as_slice(),
        field_data.as_slice(),
    );
}

/// Fields of the Record message.
pub open spec fn record_fields() -> Seq<FieldDef> {
    seq![
        FieldDef { field_num: 253, size: 4, base_type: BASE_TYPE_UINT32 },
        FieldDef { field_num: 7, size: 2, base_type: BASE_TYPE_UINT16 },
        FieldDef { field_num: 3, size: 1, base_type: BASE_TYPE_UINT8 },
        FieldDef { field_num: 4, size: 1, base_type: BASE_TYPE_UINT8 },
        FieldDef { field_num: 6, size: 2, base_type: BASE_TYPE_UINT16 },
        FieldDef { field_num: 5, size: 4, base_type: BASE_TYPE_UINT32 },
    ]
}

/// The field values of the Record message of one sample: timestamp, power
/// in watts, heart rate, cadence, speed in millimetres per second and
/// distance in centimetres.
pub open spec fn record_values(
    timestamp: u32,
    power: u16,
    heart_rate: u8,
    cadence: u8,
    speed: u16,
    distance: u32,
) -> Seq<Seq<u8>> {
    seq![
        le32(timestamp),
        le16(power),
        seq![heart_rate],
        seq![cadence],
        le16(speed),
        le32(distance),
    ]
}

/// The data record of one sample.
pub open spec fn record_data(
    timestamp: u32,
    power: u16,
    heart_rate: u8,
    cadence: u8,
    speed: u16,
    distance: u32,
) -> Seq<u8> {
    data_record(
        LOCAL_RECORD,
        record_values(timestamp, power, heart_rate, cadence, speed, distance),
    )
}

/// The Record message of one sample, with the definition before it where
/// `first` is set.
pub open spec fn record_message(
    timestamp: u32,
    power: u16,
    heart_rate: u8,
    cadence: u8,
    speed: u16,
    distance: u32,
    first: bool,
) -> Seq<u8> {
    (if first {
        definition_record(LOCAL_RECORD, MESG_RECORD, record_fields())
    } else {
        Seq::<u8>::empty()
    }) + record_data(timestamp, power, heart_rate, cadence, speed, distance)
}

/// Writes the Record message of one sample under its local type. The first
/// record of a file carries the definition.
pub fn write_record(
    encoder: &mut FitEncoder,
    timestamp: u32,
    power: u16,
    heart_rate: u8,
    cadence: u8,
    speed: u16,
    distance: u32,
    first: bool,
)
    ensures
        final(encoder).stream() == old(encoder).stream() + record_message(
            timestamp,
            power,
            heart_rate,
            cadence,
            speed,
            distance,
            first,
        ),
        forall|local: u8|
            final(encoder).is_defined(local) == (old(encoder).is_defined(local) || (first
                && local == LOCAL_RECORD)),
{
    if first {
        let fields: Vec<FieldDef> = vec![
            FieldDef::new(253, 4, BASE_TYPE_UINT32),
            FieldDef::new(7, 2, BASE_TYPE_UINT16),
            FieldDef::new(3, 1, BASE_TYPE_UINT8),
            FieldDef::new(4, 1, BASE_TYPE_UINT8),
            FieldDef::new(6, 2, BASE_TYPE_UINT16),
            FieldDef::new(5, 4, BASE_TYPE_UINT32),
        ];
        proof {
            assert(fields@ =~= record_fields());
        }
        encoder.write_definition(LOCAL_RECORD, MESG_RECORD, fields.as_slice());
    }
    let stamp: [u8; 4] = u32_bytes(timestamp);
    let power_bytes: [u8; 2] = u16_bytes(power);
    let heart: [u8; 1] = [heart_rate];
    let turns: [u8; 1] = [cadence];
    let speed_bytes: [u8; 2] = u16_bytes(speed);
    let distance_bytes: [u8; 4] = u32_bytes(distance);
    let field_data: [&[u8]; 6] = [
        stamp.as_slice(),
        power_bytes.as_slice(),
        heart.as_slice(),
        turns.as_slice(),
        speed_bytes.as_slice(),
        distance_bytes.as_slice(),
    ];
    proof {
        assert(field_values(field_data@) =~~= record_values(
            timestamp,
            power,
            heart_rate,
            cadence,
            speed,
            distance,
        ));
    }
    encoder.write_data(LOCAL_RECORD, field_data.as_slice());
}

/// Totals of one lap. Times are whole seconds, the distance is in
/// centimetres.
pub struct LapData {
    pub timestamp: u32,
    pub start_time: u32,
    pub total_elapsed_time: u64,
    pub total_timer_time: u64,
    pub total_distance: u64,
    pub avg_power: u16,
    pub max_power: u16,
    pub avg_heart_rate: u8,
    pub max_heart_rate: u8,
    pub avg_cadence: u8,
    pub max_cadence: u8,
}

/// Totals of a session. Times are whole seconds, the distance is in
/// centimetres, speeds are in millimetres per second.
pub struct SessionData {
    pub timestamp: u32,
    pub start_time: u32,
    pub total_elapsed_time: u64,
    pub total_timer_time: u64,
    pub total_distance: u64,
    pub avg_power: u16,
    pub max_power: u16,
    pub avg_heart_rate: u8,
    pub max_heart_rate: u8,
    pub avg_cadence: u8,
    pub max_cadence: u8,
    pub avg_speed: u16,
    pub max_speed: u16,
}

/// Fields of the Lap message.
pub open spec fn lap_fields() -> Seq<FieldDef> {
    seq![
        FieldDef { field_num: 253, size: 4, base_type: BASE_TYPE_UINT32 },
        FieldDef { field_num: 2, size: 4, base_type: BASE_TYPE_UINT32 },
        FieldDef { field_num: 7, size: 4, base_type: BASE_TYPE_UINT32 },
        FieldDef { field_num: 8, size: 4, base_type: BASE_TYPE_UINT32 },
        FieldDef { field_num: 9, size: 4, base_type: BASE_TYPE_UINT32 },
        FieldDef { field_num: 0, size: 1, base_type: BASE_TYPE_ENUM },
        FieldDef { field_num: 1, size: 1, base_type: BASE_TYPE_ENUM },
        FieldDef { field_num: 24, size: 1, base_type: BASE_TYPE_ENUM },
        FieldDef { field_num: 25, size: 1, base_type: BASE_TYPE_ENUM },
        FieldDef { field_num: 26, size: 1, base_type: BASE_TYPE_ENUM },
        FieldDef { field_num: 19, size: 2, base_type: BASE_TYPE_UINT16 },
        FieldDef { field_num: 20, size: 2, base_type: BASE_TYPE_UINT16 },
        FieldDef { field_num: 15, size: 1, base_type: BASE_TYPE_UINT8 },
        FieldDef { field_num: 16, size: 1, base_type: BASE_TYPE_UINT8 },
        FieldDef { field_num: 17, size: 1, base_type: BASE_TYPE_UINT8 },
        FieldDef { field_num: 18, size: 1, base_type: BASE_TYPE_UINT8 },
    ]
}

/// The field values of the Lap message, in the order of its fields.
pub open spec fn lap_values(lap: LapData) -> Seq<Seq<u8>> {
    seq![
        le32(lap.timestamp),
        le32(lap.start_time),
        le32(spec_seconds_to_millis(lap.total_elapsed_time)),
        le32(spec_seconds_to_millis(lap.total_timer_time)),
        le32(spec_clamp_u32(lap.total_distance)),
        seq![EVENT_TIMER],
        seq![EVENT_TYPE_STOP_ALL],
        seq![LAP_TRIGGER_SESSION_END],
        seq![SPORT_CYCLING],
        seq![SUB_SPORT_INDOOR_CYCLING],
        le16(lap.avg_power),
        le16(lap.max_power),
        seq![lap.avg_heart_rate],
        seq![lap.max_heart_rate],
        seq![lap.avg_cadence],
        seq![lap.max_cadence],
    ]
}

/// The Lap message: the whole workout as one lap that ends with the session.
/// Times are written in milliseconds.
pub open spec fn lap_message(lap: LapData) -> Seq<u8> {
    definition_record(LOCAL_LAP, MESG_LAP, lap_fields()) + data_record(
        LOCAL_LAP,
        lap_values(lap),
    )
}

/// Writes the Lap message under its local type.
pub fn write_lap(encoder: &mut FitEncoder, lap: &LapData)
    ensures
        final(encoder).stream() == old(encoder).stream() + lap_message(*lap),
        forall|local: u8|
            final(encoder).is_defined(local) == (local == LOCAL_LAP || old(encoder).is_defined(
                local,
            )),
{
    let fields: Vec<FieldDef> = vec![
        FieldDef::new(253, 4, BASE_TYPE_UINT32),
        FieldDef::new(2, 4, BASE_TYPE_UINT32),
        FieldDef::new(7, 4, BASE_TYPE_UINT32),
        FieldDef::new(8, 4, BASE_TYPE_UINT32),
        FieldDef::new(9, 4, BASE_TYPE_UINT32),
        FieldDef::new(0, 1, BASE_TYPE_ENUM),
        FieldDef::new(1, 1, BASE_TYPE_ENUM),
        FieldDef::new(24, 1, BASE_TYPE_ENUM),
        FieldDef::new(25, 1, BASE_TYPE_ENUM),
        FieldDef::new(26, 1, BASE_TYPE_ENUM),
        FieldDef::new(19, 2, BASE_TYPE_UINT16),
        FieldDef::new(20, 2, BASE_TYPE_UINT16),
        FieldDef::new(15, 1, BASE_TYPE_UINT8),
        FieldDef::new(16, 1, BASE_TYPE_UINT8),
        FieldDef::new(17, 1, BASE_TYPE_UINT8),
        FieldDef::new(18, 1, BASE_TYPE_UINT8),
    ];
    let elapsed_ms: u32 = seconds_to_millis(lap.total_elapsed_time);
    let timer_ms: u32 = seconds_to_millis(lap.total_timer_time);
    let distance_cm: u32 = clamp_u32(lap.total_distance);
    let stamp: [u8; 4] = u32_bytes(lap.timestamp);
    let start: [u8; 4] = u32_bytes(lap.start_time);
    let elapsed: [u8; 4] = u32_bytes(elapsed_ms);
    let timer: [u8; 4] = u32_bytes(timer_ms);
    let distance: [u8; 4] = u32_bytes(distance_cm);
    let event: [u8; 1] = [EVENT_TIMER];
    let kind: [u8; 1] = [EVENT_TYPE_STOP_ALL];
    let trigger: [u8; 1] = [LAP_TRIGGER_SESSION_END];
    let sport: [u8; 1] = [SPORT_CYCLING];
    let sub_sport: [u8; 1] = [SUB_SPORT_INDOOR_CYCLING];
    let avg_power: [u8; 2] = u16_bytes(lap.avg_power);
    let max_power: [u8; 2] = u16_bytes(lap.max_power);
    let avg_heart: [u8; 1] = [lap.avg_heart_rate];
    let max_heart: [u8; 1] = [lap.max_heart_rate];
    let avg_cadence: [u8; 1] = [lap.avg_cadence];
    let max_cadence: [u8; 1] = [lap.max_cadence];
    let field_data: [&[u8]; 16] = [
        stamp.as_slice(),
        start.as_slice(),
        elapsed.as_slice(),
        timer.as_slice(),
        distance.as_slice(),
        event.as_slice(),
        kind.as_slice(),
        trigger.as_slice(),
        sport.as_slice(),
        sub_sport.as_slice(),
        avg_power.as_slice(),
        max_power.as_slice(),
        avg_heart.as_slice(),
        max_heart.as_slice(),
        avg_cadence.as_slice(),
        max_cadence.as_slice(),
    ];
    proof {
        assert(fields@ =~= lap_fields());
        assert(field_values(field_data@) =~~= lap_values(*lap));
    }
    encoder.write_message_with_def(
        LOCAL_LAP,
        MESG_LAP,
        fields.as_slice(),
        field_data.as_slice(),
    );
}

/// Fields of the Session message.
pub open spec fn session_fields() -> Seq<FieldDef> {
    seq![
        FieldDef { field_num: 253, size: 4, base_type: BASE_TYPE_UINT32 },
        FieldDef { field_num: 2, size: 4, base_type: BASE_TYPE_UINT32 },
        FieldDef { field_num: 7, size: 4, base_type: BASE_TYPE_UINT32 },
        FieldDef { field_num: 8, size: 4, base_type: BASE_TYPE_UINT32 },
        FieldDef { field_num: 9, size: 4, base_type: BASE_TYPE_UINT32 },
        FieldDef { field_num: 5, size: 1, base_type: BASE_TYPE_ENUM },
        FieldDef { field_num: 6, size: 1, base_type: BASE_TYPE_ENUM },
        FieldDef { field_num: 20, size: 2, base_type: BASE_TYPE_UINT16 },
        FieldDef { field_num: 21, size: 2, base_type: BASE_TYPE_UINT16 },
        FieldDef { field_num: 16, size: 1, base_type: BASE_TYPE_UINT8 },
        FieldDef { field_num: 17, size: 1, base_type: BASE_TYPE_UINT8 },
        FieldDef { field_num: 18, size: 1, base_type: BASE_TYPE_UINT8 },
        FieldDef { field_num: 19, size: 1, base_type: BASE_TYPE_UINT8 },
        FieldDef { field_num: 14, size: 2, base_type: BASE_TYPE_UINT16 },
        FieldDef { field_num: 15, size: 2, base_type: BASE_TYPE_UINT16 },
        FieldDef { field_num: 0, size: 1, base_type: BASE_TYPE_ENUM },
        FieldDef { field_num: 1, size: 1, base_type: BASE_TYPE_ENUM },
        FieldDef { field_num: 25, size: 2, base_type: BASE_TYPE_UINT16 },
        FieldDef { field_num: 26, size: 2, base_type: BASE_TYPE_UINT16 },
    ]
}

/// The field values of the Session message, in the order of its fields.
pub open spec fn session_values(session: SessionData) -> Seq<Seq<u8>> {
    seq![
        le32(session.timestamp),
        le32(session.start_time),
        le32(spec_seconds_to_millis(session.total_elapsed_time)),
        le32(spec_seconds_to_millis(session.total_timer_time)),
        le32(spec_clamp_u32(session.total_distance)),
        seq![SPORT_CYCLING],
        seq![SUB_SPORT_INDOOR_CYCLING],
        le16(session.avg_power),
        le16(session.max_power),
        seq![session.avg_heart_rate],
        seq![session.max_heart_rate],
        seq![session.avg_cadence],
        seq![session.max_cadence],
        le16(session.avg_speed),
        le16(session.max_speed),
        seq![EVENT_TIMER],
        seq![EVENT_TYPE_STOP_ALL],
        le16(0),
        le16(1),
    ]
}

/// The Session message: the totals of the workout, which holds one lap, the
/// first. Times are written in milliseconds.
pub open spec fn session_message(session: SessionData) -> Seq<u8> {
    definition_record(LOCAL_SESSION, MESG_SESSION, session_fields()) + data_record(
        LOCAL_SESSION,
        session_values(session),
    )
}

/// Writes the Session message under its local type.
pub fn write_session(encoder: &mut FitEncoder, session: &SessionData)
    ensures
        final(encoder).stream() == old(encoder).stream() + session_message(*session),
        forall|local: u8|
            final(encoder).is_defined(local) == (local == LOCAL_SESSION || old(encoder).is_defined(
                local,
            )),
{
    let fields: Vec<FieldDef> = vec![
        FieldDef::new(253, 4, BASE_TYPE_UINT32),
        FieldDef::new(2, 4, BASE_TYPE_UINT32),
        FieldDef::new(7, 4, BASE_TYPE_UINT32),
        FieldDef::new(8, 4, BASE_TYPE_UINT32),
        FieldDef::new(9, 4, BASE_TYPE_UINT32),
        FieldDef::new(5, 1, BASE_TYPE_ENUM),
        FieldDef::new(6, 1, BASE_TYPE_ENUM),
        FieldDef::new(20, 2, BASE_TYPE_UINT16),
        FieldDef::new(21, 2, BASE_TYPE_UINT16),
        FieldDef::new(16, 1, BASE_TYPE_UINT8),
        FieldDef::new(17, 1, BASE_TYPE_UINT8),
        FieldDef::new(18, 1, BASE_TYPE_UINT8),
        FieldDef::new(19, 1, BASE_TYPE_UINT8),
        FieldDef::new(14, 2, BASE_TYPE_UINT16),
        FieldDef::new(15, 2, BASE_TYPE_UINT16),
        FieldDef::new(0, 1, BASE_TYPE_ENUM),
        FieldDef::new(1, 1, BASE_TYPE_ENUM),
        FieldDef::new(25, 2, BASE_TYPE_UINT16),
        FieldDef::new(26, 2, BASE_TYPE_UINT16),
    ];
    let elapsed_ms: u32 = seconds_to_millis(session.total_elapsed_time);
    let timer_ms: u32 = seconds_to_millis(session.total_timer_time);
    let distance_cm: u32 = clamp_u32(session.total_distance);
    let stamp: [u8; 4] = u32_bytes(session.timestamp);
    let start: [u8; 4] = u32_bytes(session.start_time);
    let elapsed: [u8; 4] = u32_bytes(elapsed_ms);
    let timer: [u8; 4] = u32_bytes(timer_ms);
    let distance: [u8; 4] = u32_bytes(distance_cm);
    let sport: [u8; 1] = [SPORT_CYCLING];
    let sub_sport: [u8; 1] = [SUB_SPORT_INDOOR_CYCLING];
    let avg_power: [u8; 2] = u16_bytes(session.avg_power);
    let max_power: [u8; 2] = u16_bytes(session.max_power);
    let avg_heart: [u8; 1] = [session.avg_heart_rate];
    let max_heart: [u8; 1] = [session.max_heart_rate];
    let avg_cadence: [u8; 1] = [session.avg_cadence];
    let max_cadence: [u8; 1] = [session.max_cadence];
    let avg_speed: [u8; 2] = u16_bytes(session.avg_speed);
    let max_speed: [u8; 2] = u16_bytes(session.max_speed);
    let event: [u8; 1] = [EVENT_TIMER];
    let kind: [u8; 1] = [EVENT_TYPE_STOP_ALL];
    let first_lap: [u8; 2] = u16_bytes(0);
    let laps: [u8; 2] = u16_bytes(1);
    let field_data: [&[u8]; 19] = [
        stamp.as_slice(),
        start.as_slice(),
        elapsed.as_slice(),
        timer.as_slice(),
        distance.as_slice(),
        sport.as_slice(),
        sub_sport.as_slice(),
        avg_power.as_slice(),
        max_power.as_slice(),
        avg_heart.as_slice(),
        max_heart.as_slice(),
        avg_cadence.as_slice(),
        max_cadence.as_slice(),
        avg_speed.as_slice(),
        max_speed.as_slice(),
        event.as_slice(),
        kind.as_slice(),
        first_lap.as_slice(),
        laps.as_slice(),
    ];
    proof {
        assert(fields@ =~= session_fields());
        assert(field_values(field_data@) =~~= session_values(*session));
    }
    encoder.write_message_with_def(
        LOCAL_SESSION,
        MESG_SESSION,
        fields.as_slice(),
        field_data.as_slice(),
    );
}

/// Fields of the Activity message.
pub open spec fn activity_fields() -> Seq<FieldDef> {
    seq![
        FieldDef { field_num: 253, size: 4, base_type: BASE_TYPE_UINT32 },
        FieldDef { field_num: 0, size: 4, base_type: BASE_TYPE_UINT32 },
        FieldDef { field_num: 1, size: 2, base_type: BASE_TYPE_UINT16 },
        FieldDef { field_num: 2, size: 1, base_type: BASE_TYPE_ENUM },
        FieldDef { field_num: 3, size: 1, base_type: BASE_TYPE_ENUM },
        FieldDef { field_num: 4, size: 1, base_type: BASE_TYPE_ENUM },
    ]
}

/// The field values of the Activity message, in the order of its fields.
pub open spec fn activity_values(timestamp: u32, total_timer_time: u64) -> Seq<Seq<u8>> {
    seq![
        le32(timestamp),
        le32(spec_clamp_u32(total_timer_time)),
        le16(1),
        seq![ACTIVITY_MANUAL],
        seq![EVENT_TIMER],
        seq![EVENT_TYPE_STOP_ALL],
    ]
}

/// The Activity message: a manual activity of one session. The timer time
/// is written in seconds.
pub open spec fn activity_message(timestamp: u32, total_timer_time: u64) -> Seq<u8> {
    definition_record(LOCAL_ACTIVITY, MESG_ACTIVITY, activity_fields()) + data_record(
        LOCAL_ACTIVITY,
        activity_values(timestamp, total_timer_time),
    )
}

/// Writes the Activity message under its local type.
pub fn write_activity(encoder: &mut FitEncoder, timestamp: u32, total_timer_time: u64)
    ensures
        final(encoder).stream() == old(encoder).stream() + activity_message(
            timestamp,
            total_timer_time,
        ),
        forall|local: u8|
            final(encoder).is_defined(local) == (local == LOCAL_ACTIVITY || old(encoder).is_defined(
                local,
            )),
{
    let fields: Vec<FieldDef> = vec![
        FieldDef::new(253, 4, BASE_TYPE_UINT32),
        FieldDef::new(0, 4, BASE_TYPE_UINT32),
        FieldDef::new(1, 2, BASE_TYPE_UINT16),
        FieldDef::new(2, 1, BASE_TYPE_ENUM),
        FieldDef::new(3, 1, BASE_TYPE_ENUM),
        FieldDef::new(4, 1, BASE_TYPE_ENUM),
    ];
    let timer_secs: u32 = clamp_u32(total_timer_time);
    let stamp: [u8; 4] = u32_bytes(timestamp);
    let timer: [u8; 4] = u32_bytes(timer_secs);
    let sessions: [u8; 2] = u16_bytes(1);
    let activity: [u8; 1] = [ACTIVITY_MANUAL];
    let event: [u8; 1] = [EVENT_TIMER];
    let kind: [u8; 1] = [EVENT_TYPE_STOP_ALL];
    let field_data: [&[u8]; 6] = [
        stamp.as_slice(),
        timer.as_slice(),
        sessions.as_slice(),
        activity.as_slice(),
        event.as_slice(),
        kind.as_slice(),
    ];
    proof {
        assert(fields@ =~= activity_fields());
        assert(field_values(field_data@) =~~= activity_values(timestamp, total_timer_time));
    }
    encoder.write_message_with_def(
        LOCAL_ACTIVITY,
        MESG_ACTIVITY,
        fields.as_slice(),
        field_data.as_slice(),
    );
}

/// Whether the values of a data record are what a definition announces: as
/// many values as fields, each as long as the size of its field.
pub open spec fn values_match_fields(fields: Seq<FieldDef>, values: Seq<Seq<u8>>) -> bool {
    &&& values.len() == fields.len()
    &&& forall|i: int| 0 <= i < fields.len() ==> values[i].len() == fields[i].size
}

/// Whether the size of a field is that of its base type: one byte for an
/// enum or an 8-bit number, two for a 16-bit and four for a 32-bit number.
pub open spec fn size_fits_base_type(field: FieldDef) -> bool {
    if field.base_type == BASE_TYPE_ENUM || field.base_type == BASE_TYPE_UINT8 {
        field.size == 1
    } else if field.base_type == BASE_TYPE_UINT16 {
        field.size == 2
    } else {
        field.base_type == BASE_TYPE_UINT32 && field.size == 4
    }
}

/// Whether the fields of a definition can be counted in its one byte and
/// each has the size of its base type.
pub open spec fn well_defined(fields: Seq<FieldDef>) -> bool {
    &&& fields.len() < 256
    &&& forall|i: int| 0 <= i < fields.len() ==> size_fits_base_type(#[trigger] fields[i])
}

/// Every message of an activity file is well defined, and its data record
/// holds what its definition announces, field by field.
pub proof fn lemma_data_records_match_definitions(
    timestamp: u32,
    serial: u32,
    event_type: u8,
    sample: (u16, u8, u8, u16, u32),
    lap: LapData,
    session: SessionData,
    total_timer_time: u64,
)
    ensures
        well_defined(file_id_fields()),
        values_match_fields(file_id_fields(), file_id_values(timestamp, serial)),
        well_defined(event_fields()),
        values_match_fields(event_fields(), event_values(timestamp, event_type)),
        well_defined(record_fields()),
        values_match_fields(
            record_fields(),
            record_values(timestamp, sample.0, sample.1, sample.2, sample.3, sample.4),
        ),
        well_defined(lap_fields()),
        values_match_fields(lap_fields(), lap_values(lap)),
        well_defined(session_fields()),
        values_match_fields(session_fields(), session_values(session)),
        well_defined(activity_fields()),
        values_match_fields(activity_fields(), activity_values(timestamp, total_timer_time)),
{
}

} // verus!
