//! Mode S frames.
//!
//! A frame is 56 or 112 bits long. Its first five bits, the downlink
//! format, tell what the rest holds.

pub mod adsb;
pub mod cpr;
pub mod fields;
pub mod frame;
pub mod squitter;
pub mod surveillance;
pub mod tisb;
pub mod util;

pub use crate::mode_s::fields::AltitudeCode;
pub use crate::mode_s::fields::AltitudeUnit;
pub use crate::mode_s::fields::Capability;
pub use crate::mode_s::fields::CodeFormat;
pub use crate::mode_s::fields::CrossLinkCapability;
pub use crate::mode_s::fields::DecodedAltitude;
pub use crate::mode_s::fields::DownlinkRequest;
pub use crate::mode_s::fields::FlightStatus;
pub use crate::mode_s::fields::IdentityCode;
pub use crate::mode_s::fields::InterrogatorIdentifierSubfield;
pub use crate::mode_s::fields::InterrogatorReservationType;
pub use crate::mode_s::fields::Parity;
pub use crate::mode_s::fields::ReplyInformation;
pub use crate::mode_s::fields::SensitivityLevel;
pub use crate::mode_s::fields::UtilityMessage;
pub use crate::mode_s::fields::VerticalStatus;
pub use crate::mode_s::frame::DownlinkFormat;
pub use crate::mode_s::frame::Frame;
pub use crate::mode_s::squitter::AllCallReply;
pub use crate::mode_s::squitter::CommD;
pub use crate::mode_s::squitter::ExtendedSquitter;
pub use crate::mode_s::squitter::ExtendedSquitterNonTransponder;
pub use crate::mode_s::squitter::MilitaryExtendedSquitter;
pub use crate::mode_s::surveillance::CommBAltitudeReply;
pub use crate::mode_s::surveillance::CommBIdentityReply;
pub use crate::mode_s::surveillance::LongAirAirSurveillance;
pub use crate::mode_s::surveillance::ShortAirAirSurveillance;
pub use crate::mode_s::surveillance::SurveillanceAltitudeReply;
pub use crate::mode_s::surveillance::SurveillanceIdentityReply;

use vstd::prelude::*;

verus! {

/// Length of a short frame in bytes.
pub const LENGTH_SHORT: usize = 7;

/// Length of a long frame in bytes.
pub const LENGTH_LONG: usize = 14;

/// Why a buffer could not be decoded as a frame.
#[derive(Clone, Copy, Debug, PartialEq, Eq)]
pub enum DecodeError {
    /// The buffer is empty, so there is no downlink format to read.
    NoDf,
    /// The first five bits are no downlink format.
    InvalidDf { value: u8 },
    /// The buffer holds `actual` bytes, and the downlink format asks for
    /// `expected`.
    Truncated { expected: usize, actual: usize },
    /// The six bytes `encoding` of a callsign hold the six-bit group
    /// `byte`, which stands for no character.
    InvalidCallsign { encoding: [u8; 6], byte: u8 },
}

} // verus!
