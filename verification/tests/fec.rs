use notchrider::ant::fec::{
    FecDataPage, FecParser, TrainerStatus, EQUIPMENT_TYPE_TRAINER, FE_STATE_IN_USE,
    PAGE_COMMAND_STATUS, PAGE_FE_CAPABILITIES, PAGE_GENERAL_FE_DATA, PAGE_MANUFACTURER_ID,
    PAGE_PRODUCT_INFO, PAGE_SPECIFIC_TRAINER_DATA, PAGE_TRAINER_TORQUE, PAGE_USER_CONFIG,
};
use notchrider::ant::TrainerData;

#[test]
fn test_parse_general_fe_data() {
    let mut parser = FecParser::new();

    let data = [
        PAGE_GENERAL_FE_DATA,
        EQUIPMENT_TYPE_TRAINER,
        100,
        50,
        0xE8,
        0x03,
        0xFF,
        0x30,
    ];

    let result = parser.parse_broadcast(&data);
    assert!(result.is_some());

    if let Some(FecDataPage::GeneralFE {
        equipment_type,
        speed_mms,
        heart_rate,
        fe_state,
        ..
    }) = result
    {
        assert_eq!(equipment_type, EQUIPMENT_TYPE_TRAINER);
        assert_eq!(speed_mms, 1000);
        assert!(heart_rate.is_none());
        assert_eq!(fe_state, FE_STATE_IN_USE);
    } else {
        panic!("Expected GeneralFE page");
    }
}

#[test]
fn test_parse_specific_trainer_data() {
    let mut parser = FecParser::new();

    let data = [
        PAGE_SPECIFIC_TRAINER_DATA,
        10,
        85,
        0x00,
        0x00,
        0xF4,
        0x01,
        0x00,
    ];

    let result = parser.parse_broadcast(&data);
    assert!(result.is_some());

    if let Some(FecDataPage::SpecificTrainer {
        cadence,
        instantaneous_power,
        ..
    }) = result
    {
        assert_eq!(cadence, Some(85));
        assert_eq!(instantaneous_power, 500);
    } else {
        panic!("Expected SpecificTrainer page");
    }
}

#[test]
fn test_parse_manufacturer_id() {
    let mut parser = FecParser::new();

    let data = [
        PAGE_MANUFACTURER_ID,
        0xFF,
        0xFF,
        0x02,
        0x01,
        0x00,
        0x0A,
        0x00,
    ];

    let result = parser.parse_broadcast(&data);
    assert!(result.is_some());

    if let Some(FecDataPage::ManufacturerId {
        hw_revision,
        manufacturer_id,
        model_number,
    }) = result
    {
        assert_eq!(hw_revision, 2);
        assert_eq!(manufacturer_id, 1);
        assert_eq!(model_number, 10);
    } else {
        panic!("Expected ManufacturerId page");
    }
}

#[test]
fn test_update_trainer_data() {
    let mut trainer_data = TrainerData::default();

    let page = FecDataPage::SpecificTrainer {
        event_count: 1,
        cadence: Some(90),
        accumulated_power: 0,
        instantaneous_power: 250,
        average_power: None,
        trainer_status: TrainerStatus::default(),
        target_power_limits: 0,
    };

    page.update_trainer_data(&mut trainer_data);

    assert_eq!(trainer_data.cadence, 90);
    assert_eq!(trainer_data.power, 250);
}

#[test]
fn test_speed_conversion() {
    let mut trainer_data = TrainerData::default();

    // 10000 mm/s = 10 m/s = 36 km/h
    let page = FecDataPage::GeneralFE {
        equipment_type: EQUIPMENT_TYPE_TRAINER,
        elapsed_time_quarter_sec: 0,
        distance_meters: 0,
        speed_mms: 10000,
        heart_rate: None,
        fe_state: FE_STATE_IN_USE,
        lap_toggle: false,
        distance_enabled: true,
    };

    page.update_trainer_data(&mut trainer_data);

    let speed_kmh = trainer_data.speed as f32 / 10_000.0;
    assert!((speed_kmh - 36.0).abs() < 0.01);
    assert_eq!(trainer_data.speed, 360_000);
}

#[test]
fn general_page_decodes_every_field() {
    let data = [0x10, 0xF9, 100, 50, 0xE8, 0x03, 72, 0xB4];
    match FecParser::parse_data_page(&data) {
        Some(FecDataPage::GeneralFE {
            equipment_type,
            elapsed_time_quarter_sec,
            distance_meters,
            speed_mms,
            heart_rate,
            fe_state,
            lap_toggle,
            distance_enabled,
        }) => {
            assert_eq!(equipment_type, 25);
            assert_eq!(elapsed_time_quarter_sec, 100);
            assert_eq!(distance_meters, 50);
            assert_eq!(speed_mms, 1000);
            assert_eq!(heart_rate, Some(72));
            assert_eq!(fe_state, 3);
            assert!(lap_toggle);
            assert!(distance_enabled);
        }
        _ => panic!("Expected GeneralFE page"),
    }
}

#[test]
fn invalid_speed_reads_as_zero() {
    let data = [0x10, 25, 0, 0, 0xFF, 0xFF, 0xFF, 0x20];
    match FecParser::parse_data_page(&data) {
        Some(FecDataPage::GeneralFE {
            speed_mms,
            heart_rate,
            fe_state,
            lap_toggle,
            distance_enabled,
            ..
        }) => {
            assert_eq!(speed_mms, 0);
            assert_eq!(heart_rate, None);
            assert_eq!(fe_state, 2);
            assert!(!lap_toggle);
            assert!(!distance_enabled);
        }
        _ => panic!("Expected GeneralFE page"),
    }
    let data = [0x10, 25, 0, 0, 0xFE, 0xFF, 0xFF, 0x20];
    match FecParser::parse_data_page(&data) {
        Some(FecDataPage::GeneralFE { speed_mms, .. }) => assert_eq!(speed_mms, 0xFFFE),
        _ => panic!("Expected GeneralFE page"),
    }
}

#[test]
fn trainer_page_decodes_every_field() {
    let data = [0x19, 10, 0xFF, 0x34, 0x12, 0xF4, 0x51, 0xFD];
    match FecParser::parse_data_page(&data) {
        Some(FecDataPage::SpecificTrainer {
            event_count,
            cadence,
            accumulated_power,
            instantaneous_power,
            average_power,
            trainer_status,
            target_power_limits,
        }) => {
            assert_eq!(event_count, 10);
            assert_eq!(cadence, None);
            assert_eq!(accumulated_power, 0x1234);
            assert_eq!(instantaneous_power, 0x1F4);
            assert_eq!(average_power, None);
            assert!(trainer_status.bicycle_power_calibration_required);
            assert!(!trainer_status.resistance_calibration_required);
            assert!(trainer_status.user_config_required);
            assert_eq!(target_power_limits, 5);
        }
        _ => panic!("Expected SpecificTrainer page"),
    }
}

#[test]
fn instantaneous_power_is_twelve_bits() {
    let data = [0x19, 0, 0, 0, 0, 0xFF, 0xFF, 0];
    match FecParser::parse_data_page(&data) {
        Some(FecDataPage::SpecificTrainer { instantaneous_power, .. }) => {
            assert_eq!(instantaneous_power, 4095)
        }
        _ => panic!("Expected SpecificTrainer page"),
    }
}

fn trainer_page(event_count: u8, accumulated_power: u16) -> [u8; 8] {
    let bytes = accumulated_power.to_le_bytes();
    [0x19, event_count, 90, bytes[0], bytes[1], 200, 0, 0]
}

fn average_of(page: Option<FecDataPage>) -> Option<u16> {
    match page {
        Some(FecDataPage::SpecificTrainer { average_power, .. }) => average_power,
        _ => panic!("Expected SpecificTrainer page"),
    }
}

#[test]
fn average_power_across_rollover() {
    let mut parser = FecParser::new();
    assert_eq!(average_of(parser.parse_broadcast(&trainer_page(254, 65500))), None);
    // event_diff = 4, power_diff = 136
    assert_eq!(average_of(parser.parse_broadcast(&trainer_page(2, 100))), Some(34));
    assert_eq!(parser.calculate_average_power(3, 300), Some(200));
}

#[test]
fn average_power_needs_a_first_page_and_a_new_event() {
    let mut parser = FecParser::new();
    assert_eq!(parser.calculate_average_power(5, 1000), None);
    assert_eq!(average_of(parser.parse_broadcast(&trainer_page(5, 1000))), None);
    assert_eq!(average_of(parser.parse_broadcast(&trainer_page(5, 1200))), None);
    assert_eq!(average_of(parser.parse_broadcast(&trainer_page(7, 1501))), Some(150));
    assert_eq!(average_of(parser.parse_broadcast(&trainer_page(8, 1501))), Some(0));
    // Other pages leave the accumulators alone.
    assert!(parser.parse_broadcast(&[0x10, 25, 0, 0, 0, 0, 0xFF, 0]).is_some());
    assert!(parser.parse_broadcast(&[0x19, 1, 2]).is_none());
    assert_eq!(parser.calculate_average_power(10, 1701), Some(100));
    // The stateless decoder computes no average.
    assert_eq!(average_of(FecParser::parse_data_page(&trainer_page(9, 2000))), None);
    assert_eq!(FecParser::default().calculate_average_power(1, 1), None);
}

#[test]
fn torque_page() {
    match FecParser::parse_data_page(&[PAGE_TRAINER_TORQUE, 7, 8, 0x10, 0x20, 0x30, 0x40, 0]) {
        Some(FecDataPage::TrainerTorque {
            event_count,
            wheel_ticks,
            wheel_period,
            accumulated_torque,
        }) => {
            assert_eq!(event_count, 7);
            assert_eq!(wheel_ticks, 8);
            assert_eq!(wheel_period, 0x2010);
            assert_eq!(accumulated_torque, 0x4030);
        }
        _ => panic!("Expected TrainerTorque page"),
    }
}

#[test]
fn capabilities_page() {
    match FecParser::parse_data_page(&[PAGE_FE_CAPABILITIES, 0, 0, 0, 0, 0xE8, 0x03, 0x05]) {
        Some(FecDataPage::FECapabilities {
            max_resistance,
            supports_basic_resistance,
            supports_target_power,
            supports_simulation,
        }) => {
            assert_eq!(max_resistance, 1000);
            assert!(supports_basic_resistance);
            assert!(!supports_target_power);
            assert!(supports_simulation);
        }
        _ => panic!("Expected FECapabilities page"),
    }
}

#[test]
fn command_status_page() {
    match FecParser::parse_data_page(&[PAGE_COMMAND_STATUS, 0x31, 5, 0, 1, 2, 3, 4]) {
        Some(FecDataPage::CommandStatus { last_command, sequence_number, status, data }) => {
            assert_eq!(last_command, 0x31);
            assert_eq!(sequence_number, 5);
            assert_eq!(status, 0);
            assert_eq!(data, [1, 2, 3, 4]);
        }
        _ => panic!("Expected CommandStatus page"),
    }
}

#[test]
fn product_info_page() {
    match FecParser::parse_data_page(&[PAGE_PRODUCT_INFO, 0xFF, 3, 12, 0x78, 0x56, 0x34, 0x12]) {
        Some(FecDataPage::ProductInfo {
            sw_revision_supplemental,
            sw_revision_main,
            serial_number,
        }) => {
            assert_eq!(sw_revision_supplemental, 3);
            assert_eq!(sw_revision_main, 12);
            assert_eq!(serial_number, 0x12345678);
        }
        _ => panic!("Expected ProductInfo page"),
    }
}

#[test]
fn unknown_pages_are_kept_as_they_came() {
    let data = [PAGE_USER_CONFIG, 1, 2, 3, 4, 5, 6, 7, 8, 9];
    match FecParser::parse_data_page(&data) {
        Some(FecDataPage::Unknown { page_number, raw_data }) => {
            assert_eq!(page_number, PAGE_USER_CONFIG);
            assert_eq!(raw_data, data.to_vec());
        }
        _ => panic!("Expected Unknown page"),
    }
    let mut parser = FecParser::new();
    match parser.parse_broadcast(&[0xEE, 0, 0, 0, 0, 0, 0, 0]) {
        Some(FecDataPage::Unknown { page_number, raw_data }) => {
            assert_eq!(page_number, 0xEE);
            assert_eq!(raw_data.len(), 8);
        }
        _ => panic!("Expected Unknown page"),
    }
}

#[test]
fn short_payloads_give_nothing() {
    let mut parser = FecParser::new();
    assert!(parser.parse_broadcast(&[0x10, 25, 0, 0, 0, 0, 0]).is_none());
    assert!(parser.parse_broadcast(&[]).is_none());
    assert!(FecParser::parse_data_page(&[0x19, 25, 0, 0, 0, 0, 0]).is_none());
    assert!(FecParser::parse_data_page(&[]).is_none());
}

#[test]
fn merging_keeps_what_a_page_does_not_carry() {
    let mut data = TrainerData::new(111, 222, 33, 44);
    let general = FecDataPage::GeneralFE {
        equipment_type: 25,
        elapsed_time_quarter_sec: 0,
        distance_meters: 0,
        speed_mms: 1000,
        heart_rate: None,
        fe_state: 3,
        lap_toggle: false,
        distance_enabled: false,
    };
    general.update_trainer_data(&mut data);
    assert_eq!((data.power, data.speed, data.cadence, data.heart_rate), (111, 36_000, 33, 44));

    let with_heart_rate = FecDataPage::GeneralFE {
        equipment_type: 25,
        elapsed_time_quarter_sec: 0,
        distance_meters: 0,
        speed_mms: 65534,
        heart_rate: Some(99),
        fe_state: 3,
        lap_toggle: false,
        distance_enabled: false,
    };
    FecParser::update_trainer_data(&mut data, &with_heart_rate);
    assert_eq!((data.power, data.speed, data.cadence, data.heart_rate), (111, 2_359_224, 33, 99));

    let trainer = FecDataPage::SpecificTrainer {
        event_count: 1,
        cadence: None,
        accumulated_power: 0,
        instantaneous_power: 250,
        average_power: None,
        trainer_status: TrainerStatus::from_bits(0),
        target_power_limits: 0,
    };
    trainer.update_trainer_data(&mut data);
    assert_eq!((data.power, data.speed, data.cadence, data.heart_rate), (250, 2_359_224, 33, 99));

    let other = FecDataPage::ManufacturerId { hw_revision: 1, manufacturer_id: 2, model_number: 3 };
    other.update_trainer_data(&mut data);
    assert_eq!((data.power, data.speed, data.cadence, data.heart_rate), (250, 2_359_224, 33, 99));
}

#[test]
fn trainer_status_bits() {
    let none = TrainerStatus::from_bits(0);
    assert!(!none.bicycle_power_calibration_required);
    assert!(!none.resistance_calibration_required);
    assert!(!none.user_config_required);
    let all = TrainerStatus::from_bits(0x0F);
    assert!(all.bicycle_power_calibration_required);
    assert!(all.resistance_calibration_required);
    assert!(all.user_config_required);
    let second = TrainerStatus::from_bits(0x02);
    assert!(!second.bicycle_power_calibration_required);
    assert!(second.resistance_calibration_required);
    assert!(!second.user_config_required);
}

#[test]
fn names_of_equipment_and_states() {
    assert_eq!(FecDataPage::equipment_type_name(16), "General");
    assert_eq!(FecDataPage::equipment_type_name(19), "Treadmill");
    assert_eq!(FecDataPage::equipment_type_name(20), "Elliptical");
    assert_eq!(FecDataPage::equipment_type_name(21), "Stationary Bike");
    assert_eq!(FecDataPage::equipment_type_name(22), "Rower");
    assert_eq!(FecDataPage::equipment_type_name(23), "Climber");
    assert_eq!(FecDataPage::equipment_type_name(24), "Nordic Skier");
    assert_eq!(FecDataPage::equipment_type_name(25), "Trainer");
    assert_eq!(FecDataPage::equipment_type_name(17), "Unknown");
    assert_eq!(FecDataPage::fe_state_name(1), "Asleep");
    assert_eq!(FecDataPage::fe_state_name(2), "Ready");
    assert_eq!(FecDataPage::fe_state_name(3), "In Use");
    assert_eq!(FecDataPage::fe_state_name(4), "Finished");
    assert_eq!(FecDataPage::fe_state_name(0), "Unknown");
}
