use notchrider::calendar::days_to_ymd;

#[test]
fn test_days_to_ymd() {
    // 2024-01-01 = day 19723 since epoch
    let (y, m, d) = days_to_ymd(19723);
    assert_eq!((y, m, d), (2024, 1, 1));
}

#[test]
fn days_around_the_epoch() {
    assert_eq!(days_to_ymd(0), (1970, 1, 1));
    assert_eq!(days_to_ymd(1), (1970, 1, 2));
    assert_eq!(days_to_ymd(30), (1970, 1, 31));
    assert_eq!(days_to_ymd(31), (1970, 2, 1));
    assert_eq!(days_to_ymd(58), (1970, 2, 28));
    assert_eq!(days_to_ymd(59), (1970, 3, 1));
    assert_eq!(days_to_ymd(364), (1970, 12, 31));
    assert_eq!(days_to_ymd(365), (1971, 1, 1));
}

#[test]
fn leap_days() {
    assert_eq!(days_to_ymd(789), (1972, 2, 29));
    assert_eq!(days_to_ymd(790), (1972, 3, 1));
    assert_eq!(days_to_ymd(11_016), (2000, 2, 29));
    assert_eq!(days_to_ymd(11_017), (2000, 3, 1));
    assert_eq!(days_to_ymd(10_956), (1999, 12, 31));
    assert_eq!(days_to_ymd(19_782), (2024, 2, 29));
    // 2100 is no leap year.
    assert_eq!(days_to_ymd(47_540), (2100, 2, 28));
    assert_eq!(days_to_ymd(47_541), (2100, 3, 1));
}

fn is_leap(year: u64) -> bool {
    year % 4 == 0 && (year % 100 != 0 || year % 400 == 0)
}

fn month_length(year: u64, month: u64) -> u64 {
    match month {
        2 if is_leap(year) => 29,
        2 => 28,
        4 | 6 | 9 | 11 => 30,
        _ => 31,
    }
}

#[test]
fn every_day_follows_the_day_before() {
    let (mut year, mut month, mut day) = (1970u64, 1u64, 1u64);
    for days in 0..200_000u64 {
        assert_eq!(days_to_ymd(days), (year, month, day));
        day += 1;
        if day > month_length(year, month) {
            day = 1;
            month += 1;
            if month > 12 {
                month = 1;
                year += 1;
            }
        }
    }
}

#[test]
fn the_last_day_that_can_be_asked() {
    let (year, month, day) = days_to_ymd(u64::MAX - 719_468);
    assert!(year > 1970);
    assert!((1..=12).contains(&month));
    assert!(day >= 1 && day <= month_length(year, month));
}
