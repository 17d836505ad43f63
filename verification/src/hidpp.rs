//! HID++ report layout: constants, request encoding, reply matching and the
//! decoders for the root-feature and battery replies.

use vstd::prelude::*;

verus! {

pub const LOGITECH_VID: u16 = 0x046D;

pub const HIDPP_USAGE_PAGE: u16 = 0xFF00;

pub const FEATURE_ROOT: u16 = 0x0000;

pub const FEATURE_BATTERY_STATUS: u16 = 0x1000;

pub const FEATURE_UNIFIED_BATTERY: u16 = 0x1004;

pub const REPORT_ID_SHORT: u8 = 0x10;

pub const REPORT_ID_LONG: u8 = 0x11;

/// Error marker in the third byte of a report sent by a HID++ 1.0 receiver.
pub const ERROR_MARKER_HIDPP10: u8 = 0x8F;

/// Error marker in the third byte of a report sent by a HID++ 2.0 device.
pub const ERROR_MARKER_HIDPP20: u8 = 0xFF;

/// HID++ 1.0 error code a receiver returns for a device index with no
/// connected device.
pub const ERROR_CODE_UNKNOWN_DEVICE: u8 = 0x08;

pub const DEFAULT_SW_ID: u8 = 0x0F;

/// Length of a short HID++ request report.
pub const SHORT_REPORT_LEN: usize = 7;

/// Size of the buffer a reply is read into; no report is longer.
pub const REPORT_BUFFER_LEN: usize = 20;

#[derive(Debug, Clone, Copy, PartialEq, Eq, Structural)]
pub struct BatteryStatus {
    pub level: u8,
    pub charging: bool,
}

/// A reply that matched the request but cannot be decoded.
#[derive(Debug, Clone, Copy, PartialEq, Eq, Structural)]
pub enum ProtocolError {
    ShortResponse { minimum: usize, actual: usize },
}

/// Why a battery read or probe failed: the device I/O failed with `E`, a
/// reply could not be decoded, or the device took only part of a request.
#[derive(Debug, PartialEq, Eq)]
pub enum HidppError<E> {
    Hid(E),
    Protocol(ProtocolError),
    ShortWrite { expected: usize, actual: usize },
}

impl<E> From<ProtocolError> for HidppError<E> {
    fn from(error: ProtocolError) -> (r: Self) {
        HidppError::Protocol(error)
    }
}

impl<E> vstd::std_specs::convert::FromSpecImpl<ProtocolError> for HidppError<E> {
    open spec fn obeys_from_spec() -> bool {
        true
    }

    open spec fn from_spec(error: ProtocolError) -> Self {
        HidppError::Protocol(error)
    }
}

/// How a received report relates to the request awaiting a reply.
#[derive(Debug, Clone, Copy, PartialEq, Eq, Structural)]
pub enum ReportMatch {
    Reply,
    /// The receiver has no connected device at the requested index.
    Offline,
    /// The device rejected the request.
    DeviceError,
    Unrelated,
}

/// `Err` with the length that was needed and the length that came, when the
/// response is shorter than `minimum`.
pub open spec fn spec_ensure_length(response: Seq<u8>, minimum: int) -> Result<(), ProtocolError> {
    if response.len() < minimum {
        Err(ProtocolError::ShortResponse { minimum: minimum as usize, actual: response.len() as usize })
    } else {
        Ok(())
    }
}

/// The root feature's answer: the feature index in byte four, where zero
/// means the feature is not supported.
pub open spec fn spec_parse_feature_index(response: Seq<u8>) -> Result<Option<u8>, ProtocolError> {
    if response.len() < 5 {
        Err(ProtocolError::ShortResponse { minimum: 5, actual: response.len() as usize })
    } else if response[4] != 0 {
        Ok(Some(response[4]))
    } else {
        Ok(None)
    }
}

/// A battery reply: the level in byte four, the charging flag in bit zero of
/// the byte at `charging_offset`.
pub open spec fn spec_parse_battery(response: Seq<u8>, charging_offset: int) -> Result<BatteryStatus, ProtocolError> {
    if response.len() < charging_offset + 1 {
        Err(ProtocolError::ShortResponse {
            minimum: (charging_offset + 1) as usize,
            actual: response.len() as usize,
        })
    } else {
        Ok(BatteryStatus { level: response[4], charging: response[charging_offset] & 1u8 != 0 })
    }
}

/// The UNIFIED_BATTERY reply carries its charging flag in byte seven.
pub open spec fn spec_parse_unified_battery(response: Seq<u8>) -> Result<BatteryStatus, ProtocolError> {
    spec_parse_battery(response, 7)
}

/// The BATTERY_STATUS reply carries its charging flag in byte six.
pub open spec fn spec_parse_battery_status(response: Seq<u8>) -> Result<BatteryStatus, ProtocolError> {
    spec_parse_battery(response, 6)
}

pub open spec fn spec_is_error_marker(byte: u8) -> bool {
    byte == ERROR_MARKER_HIDPP10 || byte == ERROR_MARKER_HIDPP20
}

/// The function byte: the function number in the high nibble and the
/// software ID in the low nibble.
pub open spec fn spec_function_byte(function: u8, sw_id: u8) -> u8 {
    ((function % 16) * 16 + sw_id % 16) as u8
}

/// A report belongs to the exchange when it is a short or long report for
/// the device index.
pub open spec fn spec_header_matches(report: Seq<u8>, device_index: u8) -> bool {
    &&& report.len() >= 2
    &&& (report[0] == REPORT_ID_SHORT || report[0] == REPORT_ID_LONG)
    &&& report[1] == device_index
}

/// A reply echoes the feature index and function byte in bytes two and
/// three. An error report carries a marker in byte two, then the request's
/// feature index, function byte and the error code.
pub open spec fn spec_match_report(report: Seq<u8>, device_index: u8, feature_index: u8, function_byte: u8) -> ReportMatch {
    if !spec_header_matches(report, device_index) {
        ReportMatch::Unrelated
    } else if report.len() >= 4 && report[2] == feature_index && report[3] == function_byte {
        ReportMatch::Reply
    } else if report.len() >= 6 && spec_is_error_marker(report[2]) && report[3] == feature_index
        && report[4] == function_byte {
        if report[2] == ERROR_MARKER_HIDPP10 && report[5] == ERROR_CODE_UNKNOWN_DEVICE {
            ReportMatch::Offline
        } else {
            ReportMatch::DeviceError
        }
    } else {
        ReportMatch::Unrelated
    }
}

/// The bytes of a short request.
pub open spec fn spec_short_report(device_index: u8, feature_index: u8, function_byte: u8, payload: [u8; 3]) -> Seq<u8> {
    seq![REPORT_ID_SHORT, device_index, feature_index, function_byte, payload[0], payload[1], payload[2]]
}

/// The charging flag is bit 0 of its byte.
proof fn lemma_bit_zero(byte: u8)
    ensures
        (byte & 1u8 != 0) == (byte % 2 == 1),
{
    assert((byte & 1u8 != 0) == (byte % 2 == 1)) by (bit_vector);
}

/// A UNIFIED_BATTERY reply of at least eight bytes reads as the level in
/// byte four and the charging flag in bit 0 of byte seven, whatever the
/// other bytes hold; a shorter one is refused with the length it needed.
pub proof fn lemma_unified_battery_layout(response: Seq<u8>)
    ensures
        response.len() >= 8 ==> spec_parse_unified_battery(response) == Ok::<BatteryStatus, ProtocolError>(
            BatteryStatus { level: response[4], charging: response[7] % 2 == 1 },
        ),
        response.len() < 8 ==> spec_parse_unified_battery(response) == Err::<BatteryStatus, ProtocolError>(
            ProtocolError::ShortResponse { minimum: 8, actual: response.len() as usize },
        ),
{
    if response.len() >= 8 {
        lemma_bit_zero(response[7]);
    }
}

/// A BATTERY_STATUS reply of at least seven bytes reads as the level in
/// byte four and the charging flag in bit 0 of byte six; a shorter one is
/// refused with the length it needed.
pub proof fn lemma_battery_status_layout(response: Seq<u8>)
    ensures
        response.len() >= 7 ==> spec_parse_battery_status(response) == Ok::<BatteryStatus, ProtocolError>(
            BatteryStatus { level: response[4], charging: response[6] % 2 == 1 },
        ),
        response.len() < 7 ==> spec_parse_battery_status(response) == Err::<BatteryStatus, ProtocolError>(
            ProtocolError::ShortResponse { minimum: 7, actual: response.len() as usize },
        ),
{
    if response.len() >= 7 {
        lemma_bit_zero(response[6]);
    }
}

/// The root feature's answer names a feature index only when byte four is
/// nonzero, and then names exactly that byte.
pub proof fn lemma_feature_index_layout(response: Seq<u8>)
    ensures
        response.len() >= 5 && response[4] != 0 ==> spec_parse_feature_index(response) == Ok::<Option<u8>, ProtocolError>(Some(response[4])),
        response.len() >= 5 && response[4] == 0 ==> spec_parse_feature_index(response) == Ok::<Option<u8>, ProtocolError>(None),
        response.len() < 5 ==> spec_parse_feature_index(response) == Err::<Option<u8>, ProtocolError>(
            ProtocolError::ShortResponse { minimum: 5, actual: response.len() as usize },
        ),
        spec_parse_feature_index(response) != Ok::<Option<u8>, ProtocolError>(Some(0u8)),
{
}

pub fn ensure_length(response: &[u8], minimum_length: usize) -> (r: Result<(), ProtocolError>)
    ensures
        r == spec_ensure_length(response@, minimum_length as int),
{
    if response.len() < minimum_length {
        return Err(ProtocolError::ShortResponse { minimum: minimum_length, actual: response.len() });
    }
    Ok(())
}

pub fn parse_feature_index(response: &[u8]) -> (r: Result<Option<u8>, ProtocolError>)
    ensures
        r == spec_parse_feature_index(response@),
{
    ensure_length(response, 5)?;
    let feature_index = response[4];
    if feature_index != 0 {
        Ok(Some(feature_index))
    } else {
        Ok(None)
    }
}

pub fn parse_unified_battery(response: &[u8]) -> (r: Result<BatteryStatus, ProtocolError>)
    ensures
        r == spec_parse_unified_battery(response@),
        response@.len() >= 8 ==> r == Ok::<BatteryStatus, ProtocolError>(
            BatteryStatus { level: response@[4], charging: response@[7] % 2 == 1 },
        ),
{
    proof {
        lemma_unified_battery_layout(response@);
    }
    parse_battery(response, 7)
}

pub fn parse_battery_status(response: &[u8]) -> (r: Result<BatteryStatus, ProtocolError>)
    ensures
        r == spec_parse_battery_status(response@),
        response@.len() >= 7 ==> r == Ok::<BatteryStatus, ProtocolError>(
            BatteryStatus { level: response@[4], charging: response@[6] % 2 == 1 },
        ),
{
    proof {
        lemma_battery_status_layout(response@);
    }
    parse_battery(response, 6)
}

pub fn parse_battery(response: &[u8], charging_offset: usize) -> (r: Result<BatteryStatus, ProtocolError>)
    requires
        4 <= charging_offset < usize::MAX,
    ensures
        r == spec_parse_battery(response@, charging_offset as int),
{
    ensure_length(response, charging_offset + 1)?;
    Ok(BatteryStatus { level: response[4], charging: response[charging_offset] & 0x01 != 0 })
}

pub fn function_byte(function: u8, sw_id: u8) -> (r: u8)
    ensures
        r == spec_function_byte(function, sw_id),
        r / 16 == function % 16,
        r % 16 == sw_id % 16,
{
    let r = ((function & 0x0F) << 4) | (sw_id & 0x0F);
    assert(((function & 0x0F) << 4) | (sw_id & 0x0F) == ((function % 16) * 16 + sw_id % 16) as u8)
        by (bit_vector);
    r
}

pub fn is_error_marker(byte: u8) -> (r: bool)
    ensures
        r == spec_is_error_marker(byte),
{
    byte == ERROR_MARKER_HIDPP10 || byte == ERROR_MARKER_HIDPP20
}

pub fn match_report(report: &[u8], device_index: u8, feature_index: u8, function_byte: u8) -> (r: ReportMatch)
    ensures
        r == spec_match_report(report@, device_index, feature_index, function_byte),
{
    let len = report.len();
    let header_matches = len >= 2 && (report[0] == REPORT_ID_SHORT || report[0] == REPORT_ID_LONG)
        && report[1] == device_index;
    if !header_matches {
        return ReportMatch::Unrelated;
    }
    if len >= 4 && report[2] == feature_index && report[3] == function_byte {
        ReportMatch::Reply
    } else if len >= 6 && is_error_marker(report[2]) && report[3] == feature_index && report[4]
        == function_byte {
        if report[2] == ERROR_MARKER_HIDPP10 && report[5] == ERROR_CODE_UNKNOWN_DEVICE {
            ReportMatch::Offline
        } else {
            ReportMatch::DeviceError
        }
    } else {
        ReportMatch::Unrelated
    }
}

/// The short request report that asks `feature_index` on `device_index` to
/// run the function in `function_byte` with `payload`.
pub fn short_report(device_index: u8, feature_index: u8, function_byte: u8, payload: [u8; 3]) -> (r: Vec<u8>)
    ensures
        r@ == spec_short_report(device_index, feature_index, function_byte, payload),
        r@.len() == SHORT_REPORT_LEN,
{
    let mut report: Vec<u8> = Vec::new();
    report.push(REPORT_ID_SHORT);
    report.push(device_index);
    report.push(feature_index);
    report.push(function_byte);
    report.push(payload[0]);
    report.push(payload[1]);
    report.push(payload[2]);
    report
}

} // verus!
