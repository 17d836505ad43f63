use gbat::cli::{format_status, short_write_message, status_report, version_text, NO_READING_MESSAGE};
use gbat::hidpp::{BatteryStatus, ProtocolError};

#[test]
fn formats_battery_status_for_terminal_and_raycast() {
    assert_eq!(
        format_status(BatteryStatus {
            level: 78,
            charging: false,
        }),
        "Battery: 78%"
    );
    assert_eq!(
        format_status(BatteryStatus {
            level: 42,
            charging: true,
        }),
        "Battery: 42% (charging)"
    );
}

#[test]
fn clamps_invalid_reported_levels() {
    assert_eq!(
        format_status(BatteryStatus {
            level: u8::MAX,
            charging: false,
        }),
        "Battery: 100%"
    );
}

#[test]
fn formats_version_for_release_and_homebrew_checks() {
    assert_eq!(version_text(), "gbat 1.0.0");
}

#[test]
fn formats_single_digit_full_and_empty_levels() {
    let line = |level: u8, charging: bool| format_status(BatteryStatus { level, charging });
    assert_eq!(line(0, false), "Battery: 0%");
    assert_eq!(line(7, true), "Battery: 7% (charging)");
    assert_eq!(line(100, true), "Battery: 100% (charging)");
    assert_eq!(line(101, false), "Battery: 100%");
}

#[test]
fn describes_a_short_response() {
    let error = ProtocolError::ShortResponse {
        minimum: 8,
        actual: 7,
    };
    assert_eq!(
        error.message(),
        "short HID++ response: expected at least 8 bytes, got 7"
    );
}

#[test]
fn describes_a_short_write() {
    assert_eq!(
        short_write_message(7, 3),
        "short HID++ write: expected 7 bytes, wrote 3"
    );
    assert_eq!(
        short_write_message(7, 0),
        "short HID++ write: expected 7 bytes, wrote 0"
    );
}

#[test]
fn missing_reading_message_asks_to_wake_the_mouse() {
    assert_eq!(
        NO_READING_MESSAGE,
        "Could not read battery level. Wake the mouse up and retry."
    );
}

#[test]
fn a_missing_reading_is_an_error_not_a_level() {
    assert_eq!(status_report(None), Err(NO_READING_MESSAGE));
    assert_eq!(
        status_report(Some(BatteryStatus {
            level: 0,
            charging: false,
        })),
        Ok(String::from("Battery: 0%"))
    );
}
