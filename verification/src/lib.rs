//! Device-event decoding and fan-out for a point-of-sale terminal.
//!
//! Raw input devices (a keyboard-class barcode scanner and a serial
//! cancel switch) produce byte streams that are decoded into domain
//! events, merged with an external NFC source, and broadcast to an
//! open set of subscribers.

pub mod access;
pub mod backoff;
pub mod barcode;
pub mod bytes;
pub mod events;
pub mod hub;
pub mod storno;
