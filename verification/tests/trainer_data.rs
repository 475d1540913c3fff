use notchrider::ant::TrainerData;

// Speeds are in units of 0.0001 km/h.

#[test]
fn test_trainer_data_default() {
    let data = TrainerData::default();
    assert_eq!(data.power, 0);
    assert_eq!(data.speed, 0);
    assert_eq!(data.cadence, 0);
    assert_eq!(data.heart_rate, 0);
}

#[test]
fn test_trainer_data_new() {
    let data = TrainerData::new(150, 325_000, 90, 140);
    assert_eq!(data.power, 150);
    assert_eq!(data.speed, 325_000);
    assert_eq!(data.speed as f32 / 10_000.0, 32.5);
    assert_eq!(data.cadence, 90);
    assert_eq!(data.heart_rate, 140);
}

#[test]
fn test_is_active_with_power() {
    let data = TrainerData::new(100, 0, 0, 0);
    assert!(data.is_active());
}

#[test]
fn test_is_active_with_speed() {
    let data = TrainerData::new(0, 150_000, 0, 0);
    assert!(data.is_active());
}

#[test]
fn test_is_active_with_cadence() {
    let data = TrainerData::new(0, 0, 80, 0);
    assert!(data.is_active());
}

#[test]
fn test_is_not_active_when_idle() {
    let data = TrainerData::default();
    assert!(!data.is_active());
}

#[test]
fn test_is_not_active_with_only_heart_rate() {
    let data = TrainerData::new(0, 0, 0, 120);
    assert!(!data.is_active());
}

#[test]
fn is_active_for_the_smallest_values() {
    assert!(TrainerData::new(1, 0, 0, 0).is_active());
    assert!(TrainerData::new(0, 1, 0, 0).is_active());
    assert!(TrainerData::new(0, 0, 1, 0).is_active());
    assert!(!TrainerData::new(0, 0, 0, 255).is_active());
    assert!(TrainerData::new(u16::MAX, u32::MAX, u8::MAX, 0).is_active());
}
