use notchrider::ant::hrm::{HrmParser, PAGE_4_PREVIOUS_HR};

#[test]
fn test_parse_heart_rate() {
    let data = [0x00, 0xFF, 0xFF, 0xFF, 0xFF, 0x00, 0x00, 142];
    assert_eq!(HrmParser::parse_heart_rate(&data), Some(142));
}

#[test]
fn test_parse_zero_heart_rate() {
    let data = [0x00, 0xFF, 0xFF, 0xFF, 0xFF, 0x00, 0x00, 0];
    assert_eq!(HrmParser::parse_heart_rate(&data), None);
}

#[test]
fn test_short_data() {
    let data = [0x00, 0xFF, 0xFF];
    assert_eq!(HrmParser::parse_heart_rate(&data), None);
}

#[test]
fn heart_rate_is_byte_seven_of_every_page() {
    for page in [0x00u8, 0x01, 0x02, 0x03, 0x04, 0x84] {
        let data = [page, 1, 2, 3, 4, 5, 6, 61];
        assert_eq!(HrmParser::parse_heart_rate(&data), Some(61));
    }
    assert_eq!(HrmParser::parse_heart_rate(&[0, 0, 0, 0, 0, 0, 0, 255, 9, 9]), Some(255));
    assert_eq!(HrmParser::parse_heart_rate(&[0, 0, 0, 0, 0, 0, 77]), None);
}

#[test]
fn page_number_masks_the_toggle_bit() {
    assert_eq!(HrmParser::get_page_number(&[0x84, 0, 0]), Some(PAGE_4_PREVIOUS_HR));
    assert_eq!(HrmParser::get_page_number(&[0x04]), Some(4));
    assert_eq!(HrmParser::get_page_number(&[0xFF]), Some(0x7F));
    assert_eq!(HrmParser::get_page_number(&[0x80]), Some(0));
    assert_eq!(HrmParser::get_page_number(&[]), None);
}
