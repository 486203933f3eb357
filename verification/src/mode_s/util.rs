//! Fields that several frame kinds share.

pub mod gillham;

use vstd::prelude::*;
use vstd::arithmetic::power2::lemma2_to64;
use crate::bits::bits;
use crate::bits::flag;
use crate::bits::read_bits;
use crate::bits::read_flag;
use crate::bits::read_u16;
use crate::bits::read_u8;
use crate::mode_s::cpr::Cpr;
use crate::mode_s::cpr::CprFormat;
use crate::mode_s::fields::AltitudeCode;
use crate::mode_s::fields::DownlinkRequest;
use crate::mode_s::fields::FlightStatus;
use crate::mode_s::fields::ReplyInformation;
use crate::mode_s::fields::SensitivityLevel;
use crate::mode_s::fields::UtilityMessage;
use crate::mode_s::fields::VerticalStatus;

verus! {

/// The encoded position in the six bytes after the type byte of a position
/// message: format bit at bit 13, latitude in the 17 bits from bit 14,
/// longitude in the 17 bits from bit 31.
pub open spec fn frame_aligned_encoded_position(payload: [u8; 6]) -> (CprFormat, Cpr) {
    (
        CprFormat::of_bit(flag(payload@, 13)),
        Cpr {
            latitude: bits(payload@, 14, 17) as u32,
            longitude: bits(payload@, 31, 17) as u32,
        },
    )
}

/// Reads the encoded position of a surface or airborne position message
/// from the six bytes after its type byte.
pub fn decode_frame_aligned_encoded_position(payload: &[u8; 6]) -> (r: (CprFormat, Cpr))
    ensures
        r == frame_aligned_encoded_position(*payload),
        r.1.wf(),
{
    proof {
        lemma2_to64();
    }
    let format = CprFormat::from_bit(read_flag(payload, 13));
    let latitude: u32 = read_bits(payload, 14, 17);
    let longitude: u32 = read_bits(payload, 31, 17);
    (format, Cpr { latitude, longitude })
}

/// The 13-bit code in the low 13 bits of two bytes.
pub open spec fn frame_aligned_altitude_or_identity_code(bytes: [u8; 2]) -> u16 {
    bits(bytes@, 3, 13) as u16
}

/// Reads the 13-bit altitude or identity code that ends at a byte boundary:
/// the low five bits of the first byte and the whole second byte.
pub fn decode_frame_aligned_altitude_or_identity_code(bytes: &[u8; 2]) -> (r: u16)
    ensures
        r == frame_aligned_altitude_or_identity_code(*bytes),
        r < 0x2000,
{
    proof {
        lemma2_to64();
    }
    read_u16(bytes, 3, 13)
}

/// The fields that every surveillance and Comm-B reply begins with. The
/// flight status is the low three bits of the first byte of the frame; the
/// three bytes after it hold five bits of downlink request, six bits of
/// utility message and a 13-bit altitude or identity code.
pub open spec fn surveillance_reply_body(bits_6_to_8: u8, bytes: [u8; 3]) -> (
    FlightStatus,
    DownlinkRequest,
    UtilityMessage,
    u16,
) {
    (
        FlightStatus(bits_6_to_8),
        DownlinkRequest(bits(bytes@, 0, 5) as u8),
        UtilityMessage::of_u8(bits(bytes@, 5, 6) as u8),
        bits(bytes@, 11, 13) as u16,
    )
}

/// Reads the fields that every surveillance and Comm-B reply begins with.
pub fn decode_surveillance_reply_body(bits_6_to_8: u8, bytes: [u8; 3]) -> (r: (
    FlightStatus,
    DownlinkRequest,
    UtilityMessage,
    u16,
))
    ensures
        r == surveillance_reply_body(bits_6_to_8, bytes),
        bits_6_to_8 < 8 ==> r.0.wf(),
        r.1.wf(),
        r.2.wf(),
        r.3 < 0x2000,
{
    proof {
        lemma2_to64();
    }
    let downlink_request: u8 = read_u8(&bytes, 0, 5);
    let utility_message: u8 = read_u8(&bytes, 5, 6);
    let code: u16 = read_u16(&bytes, 11, 13);
    (
        FlightStatus::from_u8_unchecked(bits_6_to_8),
        DownlinkRequest::from_u8_unchecked(downlink_request),
        UtilityMessage::from_u8_unchecked(utility_message),
        code,
    )
}

/// The fields that both air-to-air surveillance replies begin with. The
/// vertical status is the highest of the low three bits of the first byte
/// of the frame: on the ground when set. The three bytes after it hold
/// three bits of sensitivity level, four bits of reply information from
/// bit 5 on, and a 13-bit altitude code.
pub open spec fn air_air_surveillance_common_fields(bits_6_to_8: u8, bytes: [u8; 3]) -> (
    VerticalStatus,
    SensitivityLevel,
    ReplyInformation,
    AltitudeCode,
) {
    (
        if bits_6_to_8 / 4 % 2 == 1 {
            VerticalStatus::Ground
        } else {
            VerticalStatus::Airborne
        },
        SensitivityLevel(bits(bytes@, 0, 3) as u8),
        ReplyInformation(bits(bytes@, 5, 4) as u8),
        AltitudeCode(bits(bytes@, 11, 13) as u16),
    )
}

/// Reads the fields that both air-to-air surveillance replies begin with.
pub fn decode_air_air_surveillance_common_fields(bits_6_to_8: u8, bytes: [u8; 3]) -> (r: (
    VerticalStatus,
    SensitivityLevel,
    ReplyInformation,
    AltitudeCode,
))
    ensures
        r == air_air_surveillance_common_fields(bits_6_to_8, bytes),
        r.1.wf(),
        r.2.wf(),
        r.3.wf(),
{
    proof {
        lemma2_to64();
    }
    let vertical_status = if bits_6_to_8 / 4 % 2 == 1 {
        VerticalStatus::Ground
    } else {
        VerticalStatus::Airborne
    };
    let sensitivity_level: u8 = read_u8(&bytes, 0, 3);
    let reply_information: u8 = read_u8(&bytes, 5, 4);
    let altitude_code: u16 = read_u16(&bytes, 11, 13);
    (
        vertical_status,
        SensitivityLevel::from_u8_unchecked(sensitivity_level),
        ReplyInformation::from_u8_unchecked(reply_information),
        AltitudeCode::from_u16_unchecked(altitude_code),
    )
}

} // verus!
