//! ADS-B messages: the 56-bit ME field of an extended squitter.
//!
//! The first byte of the field holds the 5-bit type code and, below it,
//! three bits that most kinds of message read as a sub-type. The six bytes
//! after it are the body, which each kind lays out in its own way.

pub mod identification;
pub mod position;
pub mod status;
pub mod velocity;

pub use crate::mode_s::adsb::identification::callsign_character;
pub use crate::mode_s::adsb::identification::valid_callsign_char;
pub use crate::mode_s::adsb::identification::AircraftIdentification;
pub use crate::mode_s::adsb::identification::Callsign;
pub use crate::mode_s::adsb::identification::InvalidCallsign;
pub use crate::mode_s::adsb::identification::WakeVortexCategory;
pub use crate::mode_s::adsb::position::AirbornePosition;
pub use crate::mode_s::adsb::position::AltitudeCode;
pub use crate::mode_s::adsb::position::AltitudeType;
pub use crate::mode_s::adsb::position::DecodedAltitude;
pub use crate::mode_s::adsb::position::GroundSpeedQuantization;
pub use crate::mode_s::adsb::position::GroundTrack;
pub use crate::mode_s::adsb::position::Movement;
pub use crate::mode_s::adsb::position::SurfacePosition;
pub use crate::mode_s::adsb::position::SurveillanceStatus;
pub use crate::mode_s::adsb::status::AircraftOperationalStatus;
pub use crate::mode_s::adsb::status::AircraftStatus;
pub use crate::mode_s::adsb::status::EmergencyPriorityStatus;
pub use crate::mode_s::adsb::status::EmergencyPriorityStatusAndModeACode;
pub use crate::mode_s::adsb::status::SelectedAltitudeType;
pub use crate::mode_s::adsb::status::SilSupplement;
pub use crate::mode_s::adsb::status::SurfaceSystemMessage;
pub use crate::mode_s::adsb::status::TargetStateAndStatusInformation;
pub use crate::mode_s::adsb::velocity::AirborneVelocity;
pub use crate::mode_s::adsb::velocity::Airspeed;
pub use crate::mode_s::adsb::velocity::AirspeedType;
pub use crate::mode_s::adsb::velocity::AltitudeDifference;
pub use crate::mode_s::adsb::velocity::AltitudeDifferenceSign;
pub use crate::mode_s::adsb::velocity::AltitudeDifferenceValue;
pub use crate::mode_s::adsb::velocity::DirectionEastWest;
pub use crate::mode_s::adsb::velocity::DirectionNorthSouth;
pub use crate::mode_s::adsb::velocity::GroundSpeed;
pub use crate::mode_s::adsb::velocity::MagneticHeading;
pub use crate::mode_s::adsb::velocity::NavigationUncertaintyCategory;
pub use crate::mode_s::adsb::velocity::TurnIndicator;
pub use crate::mode_s::adsb::velocity::Velocity;
pub use crate::mode_s::adsb::velocity::VelocityType;
pub use crate::mode_s::adsb::velocity::VerticalRate;
pub use crate::mode_s::adsb::velocity::VerticalRateSign;
pub use crate::mode_s::adsb::velocity::VerticalRateSource;
pub use crate::mode_s::adsb::velocity::VerticalRateValue;

use vstd::prelude::*;
use vstd::arithmetic::power2::lemma2_to64;
use bytes::Bytes;
use crate::bits::bits;
use crate::bits::lemma_bits_in_byte;
use crate::bits::lemma_bits_same;
use crate::bits::read_u8;
use crate::buffer::array6;
use crate::buffer::array7;
use crate::buffer::copy_from_slice;
use crate::buffer::get_bytes;
use crate::buffer::get_u8;
use crate::buffer::unread;
use crate::mode_s::DecodeError;

verus! {

/// An ADS-B message.
#[derive(Clone, Copy, Debug, PartialEq, Eq)]
pub enum Message {
    /// Type code 0: the sender knows no position. The body is kept as it
    /// came.
    NoPosition { sub_type: u8, data: [u8; 6] },
    /// Type codes 1 to 4.
    AircraftIdentification(AircraftIdentification),
    /// Type codes 5 to 8.
    SurfacePosition(SurfacePosition),
    /// Type codes 9 to 18 and 20 to 22.
    AirbornePosition(AirbornePosition),
    /// Type code 19, sub-types 1 to 4.
    AirborneVelocity(AirborneVelocity),
    /// Type code 23, sub-type 0: a test message, as its six bytes.
    TestMessage([u8; 6]),
    /// Type code 24.
    SurfaceSystemMessage(SurfaceSystemMessage),
    /// Type code 28, sub-types 1 and 2.
    AircraftStatus(AircraftStatus),
    /// Type code 29, where the two bits after the type code are 01.
    TargetStateAndStatusInformation(TargetStateAndStatusInformation),
    /// Type code 31.
    AircraftOperationalStatus(AircraftOperationalStatus),
    /// Everything else, with the three bits after the type code and the
    /// body as they came.
    Reserved { type_code: u8, sub_type: u8, data: [u8; 6] },
}

impl Message {
    /// The type code of an ME field: its first five bits.
    pub open spec fn type_code_of(me: [u8; 7]) -> u8 {
        bits(me@, 0, 5) as u8
    }

    /// The three bits after the type code.
    pub open spec fn sub_type_of(me: [u8; 7]) -> u8 {
        bits(me@, 5, 3) as u8
    }

    /// The body of an ME field: the six bytes after the first.
    pub open spec fn payload_of(me: [u8; 7]) -> [u8; 6] {
        array6(me@.skip(1))
    }

    /// Every code in the message is as wide as its field.
    pub open spec fn wf(&self) -> bool {
        match *self {
            Message::NoPosition { sub_type, .. } => sub_type < 8,
            Message::AircraftIdentification(m) => m.callsign.wf(),
            Message::SurfacePosition(m) => m.wf(),
            Message::AirbornePosition(m) => m.wf(),
            Message::AirborneVelocity(m) => m.wf(),
            Message::TestMessage(_) => true,
            Message::SurfaceSystemMessage(_) => true,
            Message::AircraftStatus(m) => m.wf(),
            Message::TargetStateAndStatusInformation(_) => true,
            Message::AircraftOperationalStatus(_) => true,
            Message::Reserved { type_code, sub_type, .. } => type_code < 32 && sub_type < 8,
        }
    }

    /// The message that the seven bytes of an ME field spell out, or why
    /// they spell out none. The only fault a field can have is a callsign
    /// with a group that stands for no character.
    pub open spec fn of_bytes(me: [u8; 7]) -> Result<Self, DecodeError> {
        let type_code = Self::type_code_of(me);
        let sub_type = Self::sub_type_of(me);
        let payload = Self::payload_of(me);
        if type_code == 0 {
            Ok(Message::NoPosition { sub_type, data: payload })
        } else if type_code <= 4 {
            match AircraftIdentification::of_payload(payload, type_code, sub_type) {
                Ok(m) => Ok(Message::AircraftIdentification(m)),
                Err(e) => Err(e),
            }
        } else if type_code <= 8 {
            Ok(Message::SurfacePosition(SurfacePosition::of_payload(payload, sub_type)))
        } else if AltitudeType::is_position_type_code(type_code) {
            Ok(
                Message::AirbornePosition(
                    AirbornePosition::of_payload(payload, type_code, sub_type),
                ),
            )
        } else if type_code == 19 && 1 <= sub_type <= 4 {
            Ok(Message::AirborneVelocity(AirborneVelocity::of_payload(payload, sub_type)))
        } else if type_code == 23 && sub_type == 0 {
            Ok(Message::TestMessage(payload))
        } else if type_code == 24 {
            Ok(Message::SurfaceSystemMessage(SurfaceSystemMessage::of_payload(payload, sub_type)))
        } else if type_code == 28 && (sub_type == 1 || sub_type == 2) {
            Ok(Message::AircraftStatus(AircraftStatus::of_payload(payload, sub_type)))
        } else if type_code == 29 && sub_type / 2 == 1 {
            Ok(
                Message::TargetStateAndStatusInformation(
                    TargetStateAndStatusInformation::of_payload(payload, sub_type % 2 == 1),
                ),
            )
        } else if type_code == 31 {
            Ok(
                Message::AircraftOperationalStatus(
                    AircraftOperationalStatus::of_payload(payload, sub_type),
                ),
            )
        } else {
            Ok(Message::Reserved { type_code, sub_type, data: payload })
        }
    }

    /// Reads the seven bytes of an ME field from `buffer` and decodes them.
    /// All seven are read also where they hold no message.
    pub fn decode(buffer: &mut Bytes) -> (r: Result<Self, DecodeError>)
        requires
            unread(*old(buffer)).len() >= 7,
        ensures
            r == Self::of_bytes(array7(unread(*old(buffer)))),
            r matches Ok(m) ==> m.wf(),
            unread(*final(buffer)) == unread(*old(buffer)).skip(7),
    {
        let ghost me = array7(unread(*old(buffer)));
        let byte_0: u8 = get_u8(buffer);
        let head: [u8; 1] = [byte_0];
        let type_code: u8 = read_u8(&head, 0, 5);
        let bits_6_to_8: u8 = read_u8(&head, 5, 3);
        proof {
            lemma2_to64();
            lemma_bits_same(head@, 0, me@, 0, 5);
            lemma_bits_same(head@, 5, me@, 5, 3);
            assert(array6(unread(*buffer)) =~= Self::payload_of(me));
            assert(unread(*buffer).skip(6) =~= unread(*old(buffer)).skip(7));
        }
        match type_code {
            0 => {
                let data: [u8; 6] = get_bytes(buffer);
                assert(data =~= Self::payload_of(me));
                Ok(Message::NoPosition { sub_type: bits_6_to_8, data })
            },
            1..=4 => {
                match AircraftIdentification::decode(buffer, type_code, bits_6_to_8) {
                    Ok(m) => Ok(Message::AircraftIdentification(m)),
                    Err(e) => Err(e),
                }
            },
            5..=8 => Ok(
                Message::SurfacePosition(SurfacePosition::decode(buffer, type_code, bits_6_to_8)),
            ),
            9..=18 | 20..=22 => Ok(
                Message::AirbornePosition(AirbornePosition::decode(buffer, type_code, bits_6_to_8)),
            ),
            19 if 1 <= bits_6_to_8 && bits_6_to_8 <= 4 => Ok(
                Message::AirborneVelocity(AirborneVelocity::decode(buffer, bits_6_to_8)),
            ),
            23 if bits_6_to_8 == 0 => {
                let data: [u8; 6] = get_bytes(buffer);
                assert(data =~= Self::payload_of(me));
                Ok(Message::TestMessage(data))
            },
            24 => Ok(
                Message::SurfaceSystemMessage(SurfaceSystemMessage::decode(buffer, bits_6_to_8)),
            ),
            28 if bits_6_to_8 == 1 || bits_6_to_8 == 2 => Ok(
                Message::AircraftStatus(AircraftStatus::decode(buffer, bits_6_to_8)),
            ),
            29 if bits_6_to_8 / 2 == 1 => Ok(
                Message::TargetStateAndStatusInformation(
                    TargetStateAndStatusInformation::decode(buffer, bits_6_to_8 % 2 == 1),
                ),
            ),
            31 => Ok(
                Message::AircraftOperationalStatus(
                    AircraftOperationalStatus::decode(buffer, bits_6_to_8),
                ),
            ),
            _ => {
                let data: [u8; 6] = get_bytes(buffer);
                assert(data =~= Self::payload_of(me));
                Ok(Message::Reserved { type_code, sub_type: bits_6_to_8, data })
            },
        }
    }

    /// Decodes the seven bytes of an ME field.
    pub fn from_bytes(me: &[u8; 7]) -> (r: Result<Self, DecodeError>)
        ensures
            r == Self::of_bytes(*me),
            r matches Ok(m) ==> m.wf(),
    {
        let mut buffer = copy_from_slice(me.as_slice());
        assert(array7(unread(buffer)) =~= *me);
        Self::decode(&mut buffer)
    }

    /// Only a callsign can make an ME field undecodable: every field whose
    /// type code is not one of 1 to 4 spells out a message, and one whose
    /// type code is fails exactly where its body holds no callsign, with
    /// the error that says so.
    pub proof fn lemma_fails_on_callsign_only(me: [u8; 7])
        ensures
            Self::of_bytes(me) is Err <==> 1 <= Self::type_code_of(me) <= 4 && Callsign::of_bytes(
                Self::payload_of(me),
            ) is Err,
            Self::of_bytes(me) matches Err(e) ==> e is InvalidCallsign && e->encoding
                == Self::payload_of(me),
    {
    }

    /// A message filed as reserved keeps every bit of its ME field: the
    /// body as it came, and the type code and the three bits after it,
    /// which make up the first byte.
    pub proof fn lemma_reserved_keeps_bits(me: [u8; 7])
        ensures
            Self::of_bytes(me) matches Ok(Message::Reserved { type_code, sub_type, data }) ==> {
                &&& data@ == me@.skip(1)
                &&& me[0] == type_code * 8 + sub_type
            },
            Self::of_bytes(me) matches Ok(Message::NoPosition { sub_type, data }) ==> {
                &&& data@ == me@.skip(1)
                &&& me[0] == sub_type
            },
            Self::of_bytes(me) matches Ok(
                Message::SurfaceSystemMessage(SurfaceSystemMessage::Reserved { sub_type, data }),
            ) ==> {
                &&& data@ == me@.skip(1)
                &&& me[0] == 24 * 8 + sub_type
            },
            Self::of_bytes(me) matches Ok(
                Message::AircraftOperationalStatus(
                    AircraftOperationalStatus::Reserved { sub_type, data },
                ),
            ) ==> {
                &&& data@ == me@.skip(1)
                &&& me[0] == 31 * 8 + sub_type
            },
    {
        lemma2_to64();
        lemma_bits_in_byte(me@, 0, 0, 5);
        lemma_bits_in_byte(me@, 0, 5, 3);
        assert(Self::payload_of(me)@ =~= me@.skip(1));
    }
}

} // verus!
