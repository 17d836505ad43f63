//! Battery readout for Logitech HID++ mice: report encoding and decoding,
//! the request/reply exchange, battery feature selection and fallback, and
//! interface discovery, each written as a verified decision procedure that a
//! thin I/O driver runs against a real device.

pub mod hidpp;
pub mod exchange;
pub mod battery;
pub mod discovery;
pub mod interfaces;
pub mod cli;
pub mod probing;
