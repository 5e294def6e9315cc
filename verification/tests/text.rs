use my_home::sensors::{SensorsMessage, SENSORS_CHANNEL_NAME};
use my_home::text::{starts_with, trim};

#[test]
fn trim_removes_zero_bytes_around() {
    assert_eq!(trim(&[0, 0, 1, 0, 2, 0]), &[1, 0, 2]);
    assert_eq!(trim(&[0, 0, 0]), &[] as &[u8]);
    assert_eq!(trim(&[]), &[] as &[u8]);
    assert_eq!(trim(&[5]), &[5]);
}

#[test]
fn prefixes_and_concatenation() {
    assert!(starts_with("/v1/commands/x", "/v1/commands/"));
    assert!(!starts_with("/v1", "/v1/commands/"));
    assert!(starts_with("é-x", "é"));
    assert_eq!(my_home::text::concat("ab", "cd"), "abcd");
}

#[test]
fn sensors_channel() {
    assert_eq!(SENSORS_CHANNEL_NAME, "sensors/luminosity");
    assert_eq!(SensorsMessage::ReadRequest, SensorsMessage::ReadRequest);
}
