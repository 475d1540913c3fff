//! The fitness-equipment profile (FE-C): decoding of the eight-byte
//! broadcast pages of a smart trainer. Byte 0 of a page is its number.

use vstd::prelude::*;
use super::{TrainerData, SPEED_UNITS_PER_MMS};
use crate::bytes::{copy_bytes, spec_u16_le, spec_u32_le, u16_from_le, u32_from_le};

verus! {

// Data pages.
pub const PAGE_GENERAL_FE_DATA: u8 = 0x10;

pub const PAGE_GENERAL_SETTINGS: u8 = 0x11;

pub const PAGE_GENERAL_FE_METABOLIC: u8 = 0x12;

pub const PAGE_SPECIFIC_TRAINER_DATA: u8 = 0x19;

pub const PAGE_TRAINER_TORQUE: u8 = 0x1A;

pub const PAGE_FE_CAPABILITIES: u8 = 0x36;

pub const PAGE_USER_CONFIG: u8 = 0x37;

pub const PAGE_REQUEST_DATA: u8 = 0x46;

pub const PAGE_COMMAND_STATUS: u8 = 0x47;

pub const PAGE_MANUFACTURER_ID: u8 = 0x50;

pub const PAGE_PRODUCT_INFO: u8 = 0x51;

// Equipment types of page 16.
pub const EQUIPMENT_TYPE_GENERAL: u8 = 16;

pub const EQUIPMENT_TYPE_TREADMILL: u8 = 19;

pub const EQUIPMENT_TYPE_ELLIPTICAL: u8 = 20;

pub const EQUIPMENT_TYPE_STATIONARY_BIKE: u8 = 21;

pub const EQUIPMENT_TYPE_ROWER: u8 = 22;

pub const EQUIPMENT_TYPE_CLIMBER: u8 = 23;

pub const EQUIPMENT_TYPE_NORDIC_SKIER: u8 = 24;

pub const EQUIPMENT_TYPE_TRAINER: u8 = 25;

// Trainer status bits of page 25.
pub const TRAINER_STATUS_BICYCLE_POWER: u8 = 0x01;

pub const TRAINER_STATUS_CALIBRATION_REQUIRED: u8 = 0x02;

pub const TRAINER_STATUS_CALIBRATION_IN_PROGRESS: u8 = 0x04;

// Equipment states of page 16.
pub const FE_STATE_ASLEEP: u8 = 1;

pub const FE_STATE_READY: u8 = 2;

pub const FE_STATE_IN_USE: u8 = 3;

pub const FE_STATE_FINISHED: u8 = 4;

/// The status bits of page 25.
#[derive(Debug, Clone, Copy)]
pub struct TrainerStatus {
    pub bicycle_power_calibration_required: bool,
    pub resistance_calibration_required: bool,
    pub user_config_required: bool,
}

impl TrainerStatus {
    pub fn from_bits(bits: u8) -> (status: Self)
        ensures
            status.bicycle_power_calibration_required == ((bits & 0x01) != 0),
            status.resistance_calibration_required == ((bits & 0x02) != 0),
            status.user_config_required == ((bits & 0x04) != 0),
    {
        Self {
            bicycle_power_calibration_required: (bits & 0x01) != 0,
            resistance_calibration_required: (bits & 0x02) != 0,
            user_config_required: (bits & 0x04) != 0,
        }
    }
}

impl Default for TrainerStatus {
    fn default() -> (status: Self)
        ensures
            !status.bicycle_power_calibration_required,
            !status.resistance_calibration_required,
            !status.user_config_required,
    {
        Self {
            bicycle_power_calibration_required: false,
            resistance_calibration_required: false,
            user_config_required: false,
        }
    }
}

/// A decoded page.
#[derive(Debug, Clone)]
pub enum FecDataPage {
    /// Page 16: what all fitness equipment reports. The speed is in
    /// millimetres per second, 0 where the page marks it invalid.
    GeneralFE {
        equipment_type: u8,
        elapsed_time_quarter_sec: u8,
        distance_meters: u8,
        speed_mms: u16,
        heart_rate: Option<u8>,
        fe_state: u8,
        lap_toggle: bool,
        distance_enabled: bool,
    },
    /// Page 25: power and cadence of a trainer.
    SpecificTrainer {
        event_count: u8,
        cadence: Option<u8>,
        accumulated_power: u16,
        instantaneous_power: u16,
        average_power: Option<u16>,
        trainer_status: TrainerStatus,
        target_power_limits: u8,
    },
    /// Page 26: torque at the wheel.
    TrainerTorque { event_count: u8, wheel_ticks: u8, wheel_period: u16, accumulated_torque: u16 },
    /// Page 54: what the equipment can be asked to do.
    FECapabilities {
        max_resistance: u16,
        supports_basic_resistance: bool,
        supports_target_power: bool,
        supports_simulation: bool,
    },
    /// Page 71: the state of the last command.
    CommandStatus { last_command: u8, sequence_number: u8, status: u8, data: [u8; 4] },
    /// Page 80: manufacturer identification.
    ManufacturerId { hw_revision: u8, manufacturer_id: u16, model_number: u16 },
    /// Page 81: product information.
    ProductInfo { sw_revision_supplemental: u8, sw_revision_main: u8, serial_number: u32 },
    /// Any other page, kept as it came.
    Unknown { page_number: u8, raw_data: Vec<u8> },
}

/// The average power between two receipts of page 25: the accumulated power
/// gained, over the events counted, both modulo their width. There is none
/// while no page was seen (both accumulators still zero), nor without a new
/// event.
pub open spec fn spec_average_power(
    last_event_count: u8,
    last_accumulated_power: u16,
    event_count: u8,
    accumulated_power: u16,
) -> Option<u16> {
    let event_diff = (event_count - last_event_count) % 256;
    let power_diff = (accumulated_power - last_accumulated_power) % 65536;
    if last_event_count == 0 && last_accumulated_power == 0 {
        None
    } else if event_diff == 0 {
        None
    } else {
        Some((power_diff / event_diff) as u16)
    }
}

/// Whether a payload is a page 25 of full length.
pub open spec fn is_trainer_page(data: Seq<u8>) -> bool {
    data.len() >= 8 && data[0] == PAGE_SPECIFIC_TRAINER_DATA
}

/// Whether `page_number` is one of the pages that are decoded.
pub open spec fn is_known_page(page_number: u8) -> bool {
    ||| page_number == PAGE_GENERAL_FE_DATA
    ||| page_number == PAGE_SPECIFIC_TRAINER_DATA
    ||| page_number == PAGE_TRAINER_TORQUE
    ||| page_number == PAGE_MANUFACTURER_ID
    ||| page_number == PAGE_PRODUCT_INFO
    ||| page_number == PAGE_FE_CAPABILITIES
    ||| page_number == PAGE_COMMAND_STATUS
}

/// Whether `page` is what the payload `data`, of eight bytes or more, decodes
/// to, with `average_power` as the average of a page 25. It holds of one
/// page only.
pub open spec fn page_decodes(page: FecDataPage, data: Seq<u8>, average_power: Option<u16>)
    -> bool {
    match page {
        FecDataPage::GeneralFE {
            equipment_type,
            elapsed_time_quarter_sec,
            distance_meters,
            speed_mms,
            heart_rate,
            fe_state,
            lap_toggle,
            distance_enabled,
        } => {
            &&& data[0] == PAGE_GENERAL_FE_DATA
            &&& equipment_type == data[1] & 0x1F
            &&& elapsed_time_quarter_sec == data[2]
            &&& distance_meters == data[3]
            &&& speed_mms == if spec_u16_le(data[4], data[5]) == 0xFFFF {
                0
            } else {
                spec_u16_le(data[4], data[5])
            }
            &&& heart_rate == if data[6] == 0xFF {
                None
            } else {
                Some(data[6])
            }
            &&& fe_state == (data[7] >> 4) & 0x07
            &&& lap_toggle == ((data[7] >> 7) & 0x01 == 1)
            &&& distance_enabled == ((data[7] & 0x04) != 0)
        },
        FecDataPage::SpecificTrainer {
            event_count,
            cadence,
            accumulated_power,
            instantaneous_power,
            average_power: average,
            trainer_status,
            target_power_limits,
        } => {
            &&& data[0] == PAGE_SPECIFIC_TRAINER_DATA
            &&& event_count == data[1]
            &&& cadence == if data[2] == 0xFF {
                None
            } else {
                Some(data[2])
            }
            &&& accumulated_power == spec_u16_le(data[3], data[4])
            &&& instantaneous_power == spec_u16_le(data[5], data[6] & 0x0F)
            &&& average == average_power
            &&& trainer_status.bicycle_power_calibration_required == ((((data[6] >> 4) & 0x0F)
                & 0x01) != 0)
            &&& trainer_status.resistance_calibration_required == ((((data[6] >> 4) & 0x0F) & 0x02)
                != 0)
            &&& trainer_status.user_config_required == ((((data[6] >> 4) & 0x0F) & 0x04) != 0)
            &&& target_power_limits == data[7] & 0x07
        },
        FecDataPage::TrainerTorque {
            event_count,
            wheel_ticks,
            wheel_period,
            accumulated_torque,
        } => {
            &&& data[0] == PAGE_TRAINER_TORQUE
            &&& event_count == data[1]
            &&& wheel_ticks == data[2]
            &&& wheel_period == spec_u16_le(data[3], data[4])
            &&& accumulated_torque == spec_u16_le(data[5], data[6])
        },
        FecDataPage::FECapabilities {
            max_resistance,
            supports_basic_resistance,
            supports_target_power,
            supports_simulation,
        } => {
            &&& data[0] == PAGE_FE_CAPABILITIES
            &&& max_resistance == spec_u16_le(data[5], data[6])
            &&& supports_basic_resistance == ((data[7] & 0x01) != 0)
            &&& supports_target_power == ((data[7] & 0x02) != 0)
            &&& supports_simulation == ((data[7] & 0x04) != 0)
        },
        FecDataPage::CommandStatus {
            last_command,
            sequence_number,
            status,
            data: command_data,
        } => {
            &&& data[0] == PAGE_COMMAND_STATUS
            &&& last_command == data[1]
            &&& sequence_number == data[2]
            &&& status == data[3]
            &&& command_data@ == data.subrange(4, 8)
        },
        FecDataPage::ManufacturerId { hw_revision, manufacturer_id, model_number } => {
            &&& data[0] == PAGE_MANUFACTURER_ID
            &&& hw_revision == data[3]
            &&& manufacturer_id == spec_u16_le(data[4], data[5])
            &&& model_number == spec_u16_le(data[6], data[7])
        },
        FecDataPage::ProductInfo { sw_revision_supplemental, sw_revision_main, serial_number } => {
            &&& data[0] == PAGE_PRODUCT_INFO
            &&& sw_revision_supplemental == data[2]
            &&& sw_revision_main == data[3]
            &&& serial_number == spec_u32_le(data[4], data[5], data[6], data[7])
        },
        FecDataPage::Unknown { page_number, raw_data } => {
            &&& !is_known_page(data[0])
            &&& page_number == data[0]
            &&& raw_data@ == data
        },
    }
}

/// The telemetry after a page is merged into it. Page 16 sets the speed
/// and, where it carries one, the heart rate; page 25 sets the power and,
/// where it carries one, the cadence; other pages change nothing.
pub open spec fn merge_page(page: FecDataPage, data: TrainerData) -> TrainerData {
    match page {
        FecDataPage::GeneralFE { speed_mms, heart_rate, .. } => TrainerData {
            speed: (speed_mms * SPEED_UNITS_PER_MMS) as u32,
            heart_rate: match heart_rate {
                Some(hr) => hr,
                None => data.heart_rate,
            },
            ..data
        },
        FecDataPage::SpecificTrainer { cadence, instantaneous_power, .. } => TrainerData {
            power: instantaneous_power,
            cadence: match cadence {
                Some(cad) => cad,
                None => data.cadence,
            },
            ..data
        },
        _ => data,
    }
}

/// The telemetry after the payload `page`, of eight bytes or more, is merged
/// into it.
pub open spec fn merge_payload(data: TrainerData, page: Seq<u8>) -> TrainerData {
    if page[0] == PAGE_GENERAL_FE_DATA {
        TrainerData {
            speed: if spec_u16_le(page[4], page[5]) == 0xFFFF {
                0
            } else {
                (spec_u16_le(page[4], page[5]) * SPEED_UNITS_PER_MMS) as u32
            },
            heart_rate: if page[6] == 0xFF {
                data.heart_rate
            } else {
                page[6]
            },
            ..data
        }
    } else if page[0] == PAGE_SPECIFIC_TRAINER_DATA {
        TrainerData {
            power: spec_u16_le(page[5], page[6] & 0x0F),
            cadence: if page[2] == 0xFF {
                data.cadence
            } else {
                page[2]
            },
            ..data
        }
    } else {
        data
    }
}

/// Merging a decoded page is merging its payload.
pub proof fn lemma_merge_decoded(
    page: FecDataPage,
    payload: Seq<u8>,
    average_power: Option<u16>,
    data: TrainerData,
)
    requires
        payload.len() >= 8,
        page_decodes(page, payload, average_power),
    ensures
        merge_page(page, data) == merge_payload(data, payload),
{
}

/// Decoder of the pages of one channel. It keeps the event count and the
/// accumulated power of the last page 25, from which the average power of
/// the next one is computed.
pub struct FecParser {
    last_event_count: u8,
    last_accumulated_power: u16,
}

impl FecParser {
    pub closed spec fn spec_last_event_count(&self) -> u8 {
        self.last_event_count
    }

    pub closed spec fn spec_last_accumulated_power(&self) -> u16 {
        self.last_accumulated_power
    }

    pub fn new() -> (parser: Self)
        ensures
            parser.spec_last_event_count() == 0,
            parser.spec_last_accumulated_power() == 0,
    {
        Self { last_event_count: 0, last_accumulated_power: 0 }
    }

    /// Decodes a broadcast payload. A payload under eight bytes gives
    /// `None`; a page 25 carries the average power since the last one and
    /// becomes the last one.
    pub fn parse_broadcast(&mut self, data: &[u8]) -> (page: Option<FecDataPage>)
        ensures
            data@.len() < 8 ==> page is None,
            data@.len() >= 8 ==> page is Some && page_decodes(
                page->0,
                data@,
                spec_average_power(
                    old(self).spec_last_event_count(),
                    old(self).spec_last_accumulated_power(),
                    data@[1],
                    spec_u16_le(data@[3], data@[4]),
                ),
            ),
            final(self).spec_last_event_count() == if is_trainer_page(data@) {
                data@[1]
            } else {
                old(self).spec_last_event_count()
            },
            final(self).spec_last_accumulated_power() == if is_trainer_page(data@) {
                spec_u16_le(data@[3], data@[4])
            } else {
                old(self).spec_last_accumulated_power()
            },
    {
        if data.len() < 8 {
            return None;
        }
        let page_number: u8 = data[0];
        if page_number == PAGE_GENERAL_FE_DATA {
            Self::parse_general_fe_data(data)
        } else if page_number == PAGE_SPECIFIC_TRAINER_DATA {
            self.parse_specific_trainer_data(data)
        } else if page_number == PAGE_TRAINER_TORQUE {
            Self::parse_trainer_torque(data)
        } else if page_number == PAGE_MANUFACTURER_ID {
            Self::parse_manufacturer_id(data)
        } else if page_number == PAGE_PRODUCT_INFO {
            Self::parse_product_info(data)
        } else if page_number == PAGE_FE_CAPABILITIES {
            Self::parse_fe_capabilities(data)
        } else if page_number == PAGE_COMMAND_STATUS {
            Self::parse_command_status(data)
        } else {
            Some(FecDataPage::Unknown { page_number, raw_data: copy_bytes(data) })
        }
    }

    fn parse_general_fe_data(data: &[u8]) -> (page: Option<FecDataPage>)
        requires
            data@.len() >= 8,
            data@[0] == PAGE_GENERAL_FE_DATA,
        ensures
            page is Some,
            forall|average: Option<u16>| page_decodes(page->0, data@, average),
    {
        let equipment_type: u8 = data[1] & 0x1F;
        let elapsed_time: u8 = data[2];
        let distance: u8 = data[3];
        let speed: u16 = u16_from_le(data[4], data[5]);
        let heart_rate: u8 = data[6];
        let capabilities_state: u8 = data[7];
        let fe_state: u8 = (capabilities_state >> 4) & 0x07;
        let lap_toggle: bool = (capabilities_state >> 7) & 0x01 == 1;
        let distance_enabled: bool = (capabilities_state & 0x04) != 0;
        let speed_enabled: bool = speed != 0xFFFF;
        Some(
            FecDataPage::GeneralFE {
                equipment_type,
                elapsed_time_quarter_sec: elapsed_time,
                distance_meters: distance,
                speed_mms: if speed_enabled {
                    speed
                } else {
                    0
                },
                heart_rate: if heart_rate == 0xFF {
                    None
                } else {
                    Some(heart_rate)
                },
                fe_state,
                lap_toggle,
                distance_enabled,
            },
        )
    }

    fn parse_specific_trainer_data(&mut self, data: &[u8]) -> (page: Option<FecDataPage>)
        requires
            data@.len() >= 8,
            data@[0] == PAGE_SPECIFIC_TRAINER_DATA,
        ensures
            page is Some,
            page_decodes(
                page->0,
                data@,
                spec_average_power(
                    old(self).spec_last_event_count(),
                    old(self).spec_last_accumulated_power(),
                    data@[1],
                    spec_u16_le(data@[3], data@[4]),
                ),
            ),
            final(self).spec_last_event_count() == data@[1],
            final(self).spec_last_accumulated_power() == spec_u16_le(data@[3], data@[4]),
    {
        let update_event_count: u8 = data[1];
        let cadence: u8 = data[2];
        let accumulated_power: u16 = u16_from_le(data[3], data[4]);
        let power_lsb: u8 = data[5];
        let power_msb_and_status: u8 = data[6];
        let power_msb: u8 = power_msb_and_status & 0x0F;
        let instantaneous_power: u16 = u16_from_le(power_lsb, power_msb);
        let trainer_status_bits: u8 = (power_msb_and_status >> 4) & 0x0F;
        let flags: u8 = data[7];
        let target_power_limits: u8 = flags & 0x07;
        let avg_power: Option<u16> = self.calculate_average_power(
            update_event_count,
            accumulated_power,
        );
        self.last_event_count = update_event_count;
        self.last_accumulated_power = accumulated_power;
        Some(
            FecDataPage::SpecificTrainer {
                event_count: update_event_count,
                cadence: if cadence == 0xFF {
                    None
                } else {
                    Some(cadence)
                },
                accumulated_power,
                instantaneous_power,
                average_power: avg_power,
                trainer_status: TrainerStatus::from_bits(trainer_status_bits),
                target_power_limits,
            },
        )
    }

    /// The average power since the last page 25, from the counters of a new
    /// one.
    pub fn calculate_average_power(&self, event_count: u8, accumulated_power: u16) -> (average:
        Option<u16>)
        ensures
            average == spec_average_power(
                self.spec_last_event_count(),
                self.spec_last_accumulated_power(),
                event_count,
                accumulated_power,
            ),
    {
        if self.last_event_count == 0 && self.last_accumulated_power == 0 {
            return None;
        }
        let event_diff: u8 = event_count.wrapping_sub(self.last_event_count);
        if event_diff == 0 {
            return None;
        }
        let power_diff: u16 = accumulated_power.wrapping_sub(self.last_accumulated_power);
        Some(power_diff / (event_diff as u16))
    }

    fn parse_trainer_torque(data: &[u8]) -> (page: Option<FecDataPage>)
        requires
            data@.len() >= 8,
            data@[0] == PAGE_TRAINER_TORQUE,
        ensures
            page is Some,
            forall|average: Option<u16>| page_decodes(page->0, data@, average),
    {
        let update_event_count: u8 = data[1];
        let wheel_ticks: u8 = data[2];
        let wheel_period: u16 = u16_from_le(data[3], data[4]);
        let accumulated_torque: u16 = u16_from_le(data[5], data[6]);
        Some(
            FecDataPage::TrainerTorque {
                event_count: update_event_count,
                wheel_ticks,
                wheel_period,
                accumulated_torque,
            },
        )
    }

    fn parse_manufacturer_id(data: &[u8]) -> (page: Option<FecDataPage>)
        requires
            data@.len() >= 8,
            data@[0] == PAGE_MANUFACTURER_ID,
        ensures
            page is Some,
            forall|average: Option<u16>| page_decodes(page->0, data@, average),
    {
        let hw_revision: u8 = data[3];
        let manufacturer_id: u16 = u16_from_le(data[4], data[5]);
        let model_number: u16 = u16_from_le(data[6], data[7]);
        Some(FecDataPage::ManufacturerId { hw_revision, manufacturer_id, model_number })
    }

    fn parse_product_info(data: &[u8]) -> (page: Option<FecDataPage>)
        requires
            data@.len() >= 8,
            data@[0] == PAGE_PRODUCT_INFO,
        ensures
            page is Some,
            forall|average: Option<u16>| page_decodes(page->0, data@, average),
    {
        let sw_revision_supplemental: u8 = data[2];
        let sw_revision_main: u8 = data[3];
        let serial_number: u32 = u32_from_le(data[4], data[5], data[6], data[7]);
        Some(FecDataPage::ProductInfo { sw_revision_supplemental, sw_revision_main, serial_number })
    }

    fn parse_fe_capabilities(data: &[u8]) -> (page: Option<FecDataPage>)
        requires
            data@.len() >= 8,
            data@[0] == PAGE_FE_CAPABILITIES,
        ensures
            page is Some,
            forall|average: Option<u16>| page_decodes(page->0, data@, average),
    {
        let max_resistance: u16 = u16_from_le(data[5], data[6]);
        let capabilities_bits: u8 = data[7];
        Some(
            FecDataPage::FECapabilities {
                max_resistance,
                supports_basic_resistance: (capabilities_bits & 0x01) != 0,
                supports_target_power: (capabilities_bits & 0x02) != 0,
                supports_simulation: (capabilities_bits & 0x04) != 0,
            },
        )
    }

    fn parse_command_status(data: &[u8]) -> (page: Option<FecDataPage>)
        requires
            data@.len() >= 8,
            data@[0] == PAGE_COMMAND_STATUS,
        ensures
            page is Some,
            forall|average: Option<u16>| page_decodes(page->0, data@, average),
    {
        let last_command: u8 = data[1];
        let sequence_number: u8 = data[2];
        let status: u8 = data[3];
        let data_bytes: [u8; 4] = [data[4], data[5], data[6], data[7]];
        assert(data_bytes@ =~= data@.subrange(4, 8));
        Some(FecDataPage::CommandStatus { last_command, sequence_number, status, data: data_bytes })
    }

    /// Decodes a payload without the state of a channel: a page 25 carries
    /// no average power.
    pub fn parse_data_page(data: &[u8]) -> (page: Option<FecDataPage>)
        ensures
            data@.len() < 8 ==> page is None,
            data@.len() >= 8 ==> page is Some && page_decodes(page->0, data@, None),
    {
        if data.len() < 8 {
            return None;
        }
        let page_number: u8 = data[0];
        if page_number == PAGE_GENERAL_FE_DATA {
            Self::parse_general_fe_data(data)
        } else if page_number == PAGE_SPECIFIC_TRAINER_DATA {
            Self::parse_specific_trainer_static(data)
        } else if page_number == PAGE_TRAINER_TORQUE {
            Self::parse_trainer_torque(data)
        } else if page_number == PAGE_MANUFACTURER_ID {
            Self::parse_manufacturer_id(data)
        } else if page_number == PAGE_PRODUCT_INFO {
            Self::parse_product_info(data)
        } else if page_number == PAGE_FE_CAPABILITIES {
            Self::parse_fe_capabilities(data)
        } else if page_number == PAGE_COMMAND_STATUS {
            Self::parse_command_status(data)
        } else {
            Some(FecDataPage::Unknown { page_number, raw_data: copy_bytes(data) })
        }
    }

    fn parse_specific_trainer_static(data: &[u8]) -> (page: Option<FecDataPage>)
        requires
            data@.len() >= 8,
            data@[0] == PAGE_SPECIFIC_TRAINER_DATA,
        ensures
            page is Some,
            page_decodes(page->0, data@, None),
    {
        let update_event_count: u8 = data[1];
        let cadence: u8 = data[2];
        let accumulated_power: u16 = u16_from_le(data[3], data[4]);
        let power_lsb: u8 = data[5];
        let power_msb_and_status: u8 = data[6];
        let power_msb: u8 = power_msb_and_status & 0x0F;
        let instantaneous_power: u16 = u16_from_le(power_lsb, power_msb);
        let trainer_status_bits: u8 = (power_msb_and_status >> 4) & 0x0F;
        let flags: u8 = data[7];
        let target_power_limits: u8 = flags & 0x07;
        Some(
            FecDataPage::SpecificTrainer {
                event_count: update_event_count,
                cadence: if cadence == 0xFF {
                    None
                } else {
                    Some(cadence)
                },
                accumulated_power,
                instantaneous_power,
                average_power: None,
                trainer_status: TrainerStatus::from_bits(trainer_status_bits),
                target_power_limits,
            },
        )
    }

    /// Merges a page into the telemetry.
    pub fn update_trainer_data(data: &mut TrainerData, page: &FecDataPage)
        ensures
            *final(data) == merge_page(*page, *old(data)),
    {
        page.update_trainer_data(data);
    }
}

impl Default for FecParser {
    fn default() -> (parser: Self)
        ensures
            parser.spec_last_event_count() == 0,
            parser.spec_last_accumulated_power() == 0,
    {
        Self::new()
    }
}

/// The name of an equipment type.
pub open spec fn spec_equipment_type_name(equipment_type: u8) -> Seq<char> {
    if equipment_type == EQUIPMENT_TYPE_GENERAL {
        "General"@
    } else if equipment_type == EQUIPMENT_TYPE_TREADMILL {
        "Treadmill"@
    } else if equipment_type == EQUIPMENT_TYPE_ELLIPTICAL {
        "Elliptical"@
    } else if equipment_type == EQUIPMENT_TYPE_STATIONARY_BIKE {
        "Stationary Bike"@
    } else if equipment_type == EQUIPMENT_TYPE_ROWER {
        "Rower"@
    } else if equipment_type == EQUIPMENT_TYPE_CLIMBER {
        "Climber"@
    } else if equipment_type == EQUIPMENT_TYPE_NORDIC_SKIER {
        "Nordic Skier"@
    } else if equipment_type == EQUIPMENT_TYPE_TRAINER {
        "Trainer"@
    } else {
        "Unknown"@
    }
}

/// The name of an equipment state.
pub open spec fn spec_fe_state_name(state: u8) -> Seq<char> {
    if state == FE_STATE_ASLEEP {
        "Asleep"@
    } else if state == FE_STATE_READY {
        "Ready"@
    } else if state == FE_STATE_IN_USE {
        "In Use"@
    } else if state == FE_STATE_FINISHED {
        "Finished"@
    } else {
        "Unknown"@
    }
}

impl FecDataPage {
    /// Merges this page into the telemetry.
    pub fn update_trainer_data(&self, data: &mut TrainerData)
        ensures
            *final(data) == merge_page(*self, *old(data)),
    {
        match self {
            FecDataPage::GeneralFE { speed_mms, heart_rate, .. } => {
                data.speed = (*speed_mms as u32) * SPEED_UNITS_PER_MMS;
                if let Some(hr) = heart_rate {
                    data.heart_rate = *hr;
                }
            },
            FecDataPage::SpecificTrainer { cadence, instantaneous_power, .. } => {
                if let Some(cad) = cadence {
                    data.cadence = *cad;
                }
                data.power = *instantaneous_power;
            },
            _ => {},
        }
    }

    /// A readable name for an equipment type.
    pub fn equipment_type_name(equipment_type: u8) -> (name: &'static str)
        ensures
            name@ == spec_equipment_type_name(equipment_type),
    {
        if equipment_type == EQUIPMENT_TYPE_GENERAL {
            "General"
        } else if equipment_type == EQUIPMENT_TYPE_TREADMILL {
            "Treadmill"
        } else if equipment_type == EQUIPMENT_TYPE_ELLIPTICAL {
            "Elliptical"
        } else if equipment_type == EQUIPMENT_TYPE_STATIONARY_BIKE {
            "Stationary Bike"
        } else if equipment_type == EQUIPMENT_TYPE_ROWER {
            "Rower"
        } else if equipment_type == EQUIPMENT_TYPE_CLIMBER {
            "Climber"
        } else if equipment_type == EQUIPMENT_TYPE_NORDIC_SKIER {
            "Nordic Skier"
        } else if equipment_type == EQUIPMENT_TYPE_TRAINER {
            "Trainer"
        } else {
            "Unknown"
        }
    }

    /// A readable name for an equipment state.
    pub fn fe_state_name(state: u8) -> (name: &'static str)
        ensures
            name@ == spec_fe_state_name(state),
    {
        if state == FE_STATE_ASLEEP {
            "Asleep"
        } else if state == FE_STATE_READY {
            "Ready"
        } else if state == FE_STATE_IN_USE {
            "In Use"
        } else if state == FE_STATE_FINISHED {
            "Finished"
        } else {
            "Unknown"
        }
    }
}

} // verus!
