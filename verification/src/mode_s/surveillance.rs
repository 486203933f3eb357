//! Replies to interrogations: air-to-air surveillance (downlink formats 0
//! and 16), surveillance replies (4 and 5) and Comm-B replies (20 and 21).
//!
//! Each decoder takes the low three bits of the first byte of the frame
//! and reads the rest of the frame from the buffer.

use vstd::prelude::*;
use bytes::Bytes;
use crate::buffer::array3;
use crate::buffer::array7;
use crate::buffer::read3;
use crate::buffer::read7;
use crate::buffer::unread;
use crate::mode_s::fields::AltitudeCode;
use crate::mode_s::fields::CrossLinkCapability;
use crate::mode_s::fields::DownlinkRequest;
use crate::mode_s::fields::FlightStatus;
use crate::mode_s::fields::IdentityCode;
use crate::mode_s::fields::Parity;
use crate::mode_s::fields::ReplyInformation;
use crate::mode_s::fields::SensitivityLevel;
use crate::mode_s::fields::UtilityMessage;
use crate::mode_s::fields::VerticalStatus;
use crate::mode_s::util::air_air_surveillance_common_fields;
use crate::mode_s::util::decode_air_air_surveillance_common_fields;
use crate::mode_s::util::decode_surveillance_reply_body;
use crate::mode_s::util::surveillance_reply_body;

verus! {

/// A short air-to-air surveillance reply (downlink format 0).
#[derive(Clone, Copy, Debug, PartialEq, Eq)]
pub struct ShortAirAirSurveillance {
    pub vertical_status: VerticalStatus,
    pub cross_link_capability: CrossLinkCapability,
    pub sensitivity_level: SensitivityLevel,
    pub reply_information: ReplyInformation,
    pub altitude_code: AltitudeCode,
    pub address_parity: Parity,
}

impl ShortAirAirSurveillance {
    /// The reply that the six bytes `rest` spell out after a first byte
    /// with the low three bits `bits_6_to_8`. The middle one of these is
    /// the cross-link capability.
    pub open spec fn of_rest(rest: Seq<u8>, bits_6_to_8: u8) -> Self {
        let common = air_air_surveillance_common_fields(bits_6_to_8, array3(rest));
        ShortAirAirSurveillance {
            vertical_status: common.0,
            cross_link_capability: CrossLinkCapability(bits_6_to_8 / 2 % 2 == 1),
            sensitivity_level: common.1,
            reply_information: common.2,
            altitude_code: common.3,
            address_parity: Parity(array3(rest.skip(3))),
        }
    }

    /// Every code is as wide as its field.
    pub open spec fn wf(&self) -> bool {
        self.sensitivity_level.wf() && self.reply_information.wf() && self.altitude_code.wf()
    }

    /// Reads the six bytes after the first byte of the frame.
    pub fn decode(buffer: &mut Bytes, bits_6_to_8: u8) -> (r: Self)
        requires
            unread(*old(buffer)).len() >= 6,
        ensures
            r == Self::of_rest(unread(*old(buffer)), bits_6_to_8),
            r.wf(),
            unread(*final(buffer)) == unread(*old(buffer)).skip(6),
    {
        let (vertical_status, sensitivity_level, reply_information, altitude_code) =
            decode_air_air_surveillance_common_fields(bits_6_to_8, read3(buffer));
        let address_parity = Parity(read3(buffer));
        assert(unread(*buffer) =~= unread(*old(buffer)).skip(6));
        Self {
            vertical_status,
            cross_link_capability: CrossLinkCapability(bits_6_to_8 / 2 % 2 == 1),
            sensitivity_level,
            reply_information,
            altitude_code,
            address_parity,
        }
    }
}

/// A long air-to-air surveillance reply (downlink format 16).
#[derive(Clone, Copy, Debug, PartialEq, Eq)]
pub struct LongAirAirSurveillance {
    pub vertical_status: VerticalStatus,
    pub sensitivity_level: SensitivityLevel,
    pub reply_information: ReplyInformation,
    pub altitude_code: AltitudeCode,
    /// The 56-bit message field, as it came.
    pub message: [u8; 7],
    pub address_parity: Parity,
}

impl LongAirAirSurveillance {
    /// The reply that the thirteen bytes `rest` spell out after a first
    /// byte with the low three bits `bits_6_to_8`.
    pub open spec fn of_rest(rest: Seq<u8>, bits_6_to_8: u8) -> Self {
        let common = air_air_surveillance_common_fields(bits_6_to_8, array3(rest));
        LongAirAirSurveillance {
            vertical_status: common.0,
            sensitivity_level: common.1,
            reply_information: common.2,
            altitude_code: common.3,
            message: array7(rest.skip(3)),
            address_parity: Parity(array3(rest.skip(10))),
        }
    }

    /// Every code is as wide as its field.
    pub open spec fn wf(&self) -> bool {
        self.sensitivity_level.wf() && self.reply_information.wf() && self.altitude_code.wf()
    }

    /// Reads the thirteen bytes after the first byte of the frame.
    pub fn decode(buffer: &mut Bytes, bits_6_to_8: u8) -> (r: Self)
        requires
            unread(*old(buffer)).len() >= 13,
        ensures
            r == Self::of_rest(unread(*old(buffer)), bits_6_to_8),
            r.wf(),
            unread(*final(buffer)) == unread(*old(buffer)).skip(13),
    {
        let (vertical_status, sensitivity_level, reply_information, altitude_code) =
            decode_air_air_surveillance_common_fields(bits_6_to_8, read3(buffer));
        let message: [u8; 7] = read7(buffer);
        assert(unread(*buffer) =~= unread(*old(buffer)).skip(10));
        let address_parity = Parity(read3(buffer));
        assert(unread(*buffer) =~= unread(*old(buffer)).skip(13));
        Self {
            vertical_status,
            sensitivity_level,
            reply_information,
            altitude_code,
            message,
            address_parity,
        }
    }
}

/// A surveillance reply with altitude (downlink format 4).
#[derive(Clone, Copy, Debug, PartialEq, Eq)]
pub struct SurveillanceAltitudeReply {
    pub flight_status: FlightStatus,
    pub downlink_request: DownlinkRequest,
    pub utility_message: UtilityMessage,
    pub altitude_code: AltitudeCode,
    pub address_parity: Parity,
}

impl SurveillanceAltitudeReply {
    /// The reply that the six bytes `rest` spell out after a first byte
    /// with the low three bits `bits_6_to_8`, the flight status.
    pub open spec fn of_rest(rest: Seq<u8>, bits_6_to_8: u8) -> Self {
        let body = surveillance_reply_body(bits_6_to_8, array3(rest));
        SurveillanceAltitudeReply {
            flight_status: body.0,
            downlink_request: body.1,
            utility_message: body.2,
            altitude_code: AltitudeCode(body.3),
            address_parity: Parity(array3(rest.skip(3))),
        }
    }

    /// Every code but the flight status, which is as wide as what the
    /// caller handed in, is as wide as its field.
    pub open spec fn wf(&self) -> bool {
        self.downlink_request.wf() && self.utility_message.wf() && self.altitude_code.wf()
    }

    /// Reads the six bytes after the first byte of the frame.
    pub fn decode(buffer: &mut Bytes, bits_6_to_8: u8) -> (r: Self)
        requires
            unread(*old(buffer)).len() >= 6,
        ensures
            r == Self::of_rest(unread(*old(buffer)), bits_6_to_8),
            r.wf(),
            bits_6_to_8 < 8 ==> r.flight_status.wf(),
            unread(*final(buffer)) == unread(*old(buffer)).skip(6),
    {
        let (flight_status, downlink_request, utility_message, code) =
            decode_surveillance_reply_body(bits_6_to_8, read3(buffer));
        let address_parity = Parity(read3(buffer));
        assert(unread(*buffer) =~= unread(*old(buffer)).skip(6));
        Self {
            flight_status,
            downlink_request,
            utility_message,
            altitude_code: AltitudeCode(code),
            address_parity,
        }
    }
}

/// A surveillance reply with identity (downlink format 5).
#[derive(Clone, Copy, Debug, PartialEq, Eq)]
pub struct SurveillanceIdentityReply {
    pub flight_status: FlightStatus,
    pub downlink_request: DownlinkRequest,
    pub utility_message: UtilityMessage,
    pub identity_code: IdentityCode,
    pub address_parity: Parity,
}

impl SurveillanceIdentityReply {
    /// The reply that the six bytes `rest` spell out after a first byte
    /// with the low three bits `bits_6_to_8`, the flight status.
    pub open spec fn of_rest(rest: Seq<u8>, bits_6_to_8: u8) -> Self {
        let body = surveillance_reply_body(bits_6_to_8, array3(rest));
        SurveillanceIdentityReply {
            flight_status: body.0,
            downlink_request: body.1,
            utility_message: body.2,
            identity_code: IdentityCode(body.3),
            address_parity: Parity(array3(rest.skip(3))),
        }
    }

    /// Every code but the flight status, which is as wide as what the
    /// caller handed in, is as wide as its field.
    pub open spec fn wf(&self) -> bool {
        self.downlink_request.wf() && self.utility_message.wf() && self.identity_code.wf()
    }

    /// Reads the six bytes after the first byte of the frame.
    pub fn decode(buffer: &mut Bytes, bits_6_to_8: u8) -> (r: Self)
        requires
            unread(*old(buffer)).len() >= 6,
        ensures
            r == Self::of_rest(unread(*old(buffer)), bits_6_to_8),
            r.wf(),
            bits_6_to_8 < 8 ==> r.flight_status.wf(),
            unread(*final(buffer)) == unread(*old(buffer)).skip(6),
    {
        let (flight_status, downlink_request, utility_message, code) =
            decode_surveillance_reply_body(bits_6_to_8, read3(buffer));
        let address_parity = Parity(read3(buffer));
        assert(unread(*buffer) =~= unread(*old(buffer)).skip(6));
        Self {
            flight_status,
            downlink_request,
            utility_message,
            identity_code: IdentityCode(code),
            address_parity,
        }
    }
}

/// A Comm-B reply with altitude (downlink format 20).
#[derive(Clone, Copy, Debug, PartialEq, Eq)]
pub struct CommBAltitudeReply {
    pub flight_status: FlightStatus,
    pub downlink_request: DownlinkRequest,
    pub utility_message: UtilityMessage,
    pub altitude_code: AltitudeCode,
    /// The 56-bit message field, as it came.
    pub message: [u8; 7],
    pub address_parity: Parity,
}

impl CommBAltitudeReply {
    /// The reply that the thirteen bytes `rest` spell out after a first
    /// byte with the low three bits `bits_6_to_8`, the flight status.
    pub open spec fn of_rest(rest: Seq<u8>, bits_6_to_8: u8) -> Self {
        let body = surveillance_reply_body(bits_6_to_8, array3(rest));
        CommBAltitudeReply {
            flight_status: body.0,
            downlink_request: body.1,
            utility_message: body.2,
            altitude_code: AltitudeCode(body.3),
            message: array7(rest.skip(3)),
            address_parity: Parity(array3(rest.skip(10))),
        }
    }

    /// Every code but the flight status, which is as wide as what the
    /// caller handed in, is as wide as its field.
    pub open spec fn wf(&self) -> bool {
        self.downlink_request.wf() && self.utility_message.wf() && self.altitude_code.wf()
    }

    /// Reads the thirteen bytes after the first byte of the frame.
    pub fn decode(buffer: &mut Bytes, bits_6_to_8: u8) -> (r: Self)
        requires
            unread(*old(buffer)).len() >= 13,
        ensures
            r == Self::of_rest(unread(*old(buffer)), bits_6_to_8),
            r.wf(),
            bits_6_to_8 < 8 ==> r.flight_status.wf(),
            unread(*final(buffer)) == unread(*old(buffer)).skip(13),
    {
        let (flight_status, downlink_request, utility_message, code) =
            decode_surveillance_reply_body(bits_6_to_8, read3(buffer));
        let message: [u8; 7] = read7(buffer);
        assert(unread(*buffer) =~= unread(*old(buffer)).skip(10));
        let address_parity = Parity(read3(buffer));
        assert(unread(*buffer) =~= unread(*old(buffer)).skip(13));
        Self {
            flight_status,
            downlink_request,
            utility_message,
            altitude_code: AltitudeCode(code),
            message,
            address_parity,
        }
    }
}

/// A Comm-B reply with identity (downlink format 21).
#[derive(Clone, Copy, Debug, PartialEq, Eq)]
pub struct CommBIdentityReply {
    pub flight_status: FlightStatus,
    pub downlink_request: DownlinkRequest,
    pub utility_message: UtilityMessage,
    pub identity_code: IdentityCode,
    /// The 56-bit message field, as it came.
    pub message: [u8; 7],
    pub address_parity: Parity,
}

impl CommBIdentityReply {
    /// The reply that the thirteen bytes `rest` spell out after a first
    /// byte with the low three bits `bits_6_to_8`, the flight status.
    pub open spec fn of_rest(rest: Seq<u8>, bits_6_to_8: u8) -> Self {
        let body = surveillance_reply_body(bits_6_to_8, array3(rest));
        CommBIdentityReply {
            flight_status: body.0,
            downlink_request: body.1,
            utility_message: body.2,
            identity_code: IdentityCode(body.3),
            message: array7(rest.skip(3)),
            address_parity: Parity(array3(rest.skip(10))),
        }
    }

    /// Every code but the flight status, which is as wide as what the
    /// caller handed in, is as wide as its field.
    pub open spec fn wf(&self) -> bool {
        self.downlink_request.wf() && self.utility_message.wf() && self.identity_code.wf()
    }

    /// Reads the thirteen bytes after the first byte of the frame.
    pub fn decode(buffer: &mut Bytes, bits_6_to_8: u8) -> (r: Self)
        requires
            unread(*old(buffer)).len() >= 13,
        ensures
            r == Self::of_rest(unread(*old(buffer)), bits_6_to_8),
            r.wf(),
            bits_6_to_8 < 8 ==> r.flight_status.wf(),
            unread(*final(buffer)) == unread(*old(buffer)).skip(13),
    {
        let (flight_status, downlink_request, utility_message, code) =
            decode_surveillance_reply_body(bits_6_to_8, read3(buffer));
        let message: [u8; 7] = read7(buffer);
        assert(unread(*buffer) =~= unread(*old(buffer)).skip(10));
        let address_parity = Parity(read3(buffer));
        assert(unread(*buffer) =~= unread(*old(buffer)).skip(13));
        Self {
            flight_status,
            downlink_request,
            utility_message,
            identity_code: IdentityCode(code),
            message,
            address_parity,
        }
    }
}

} // verus!
