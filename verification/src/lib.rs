//! Decoder for Mode S downlink frames and the ADS-B messages they carry,
//! with what the driver of the receiver that hears them has to compute.
//!
//! [`mode_s::Frame::decode`] reads one frame from a buffer. Every decoder
//! states what it returns as a function of the bytes it is given, over the
//! bit fields of [`bits`]; none of them panics.

pub mod bits;
pub mod buffer;
pub mod mode_s;
pub mod text;
pub mod types;
pub mod usb;
