//! Status messages: surface system status (type code 24), aircraft status
//! (28), target state and status (29) and aircraft operational status (31).

use vstd::prelude::*;
use vstd::arithmetic::power2::lemma2_to64;
use vstd::string::StringExecFns;
use crate::text::format_radix;
use crate::text::padded;
use bytes::Bytes;
use crate::bits::bits;
use crate::bits::flag;
use crate::bits::read_bits;
use crate::bits::read_flag;
use crate::bits::lemma_bits_same;
use crate::bits::read_u8;
use crate::buffer::array6;
use crate::buffer::get_bytes;
use crate::buffer::unread;
use crate::mode_s::util::decode_frame_aligned_altitude_or_identity_code;
use crate::mode_s::util::gillham::decode_gillham_id13;
use crate::mode_s::util::gillham::gillham_id13;
use crate::types::Squawk;

verus! {

/// The 3-bit emergency or priority status of an aircraft.
#[derive(Clone, Copy, Debug, PartialEq, Eq, Structural, PartialOrd, Ord, Hash)]
pub struct EmergencyPriorityStatus(pub u8);

impl EmergencyPriorityStatus {
    pub const NO_EMERGENCY: u8 = 0;

    pub const GENERAL_EMERGENCY: u8 = 1;

    pub const LIFEGUARD_MEDICAL_EMERGENCY: u8 = 2;

    pub const MINIMAL_FUEL: u8 = 3;

    pub const NO_COMMUNICATIONS: u8 = 4;

    pub const UNLAWFUL_INTERFERENCE: u8 = 5;

    pub const DOWNED_AIRCRAFT: u8 = 6;

    /// A status fits in 3 bits.
    pub open spec fn wf(&self) -> bool {
        self.0 < 8
    }

    /// The status that a Mode A code calls for: 7500 unlawful
    /// interference, 7600 no communications, 7700 general emergency, any
    /// other code none.
    pub open spec fn of_squawk(squawk: Squawk) -> Option<Self> {
        if squawk.code == Squawk::AIRCRAFT_HIJACKING {
            Some(EmergencyPriorityStatus(Self::UNLAWFUL_INTERFERENCE))
        } else if squawk.code == Squawk::RADIO_FAILURE {
            Some(EmergencyPriorityStatus(Self::NO_COMMUNICATIONS))
        } else if squawk.code == Squawk::EMERGENCY {
            Some(EmergencyPriorityStatus(Self::GENERAL_EMERGENCY))
        } else {
            None
        }
    }

    /// How the status reads to a person: the name of its code, or for a
    /// code without a name its number.
    pub open spec fn description(&self) -> Seq<char> {
        if self.0 == Self::NO_EMERGENCY {
            "EmergencyPriorityStatus::NO_EMERGENCY"@
        } else if self.0 == Self::GENERAL_EMERGENCY {
            "EmergencyPriorityStatus::GENERAL_EMERGENCY"@
        } else if self.0 == Self::LIFEGUARD_MEDICAL_EMERGENCY {
            "EmergencyPriorityStatus::LIFEGUARD_MEDICAL_EMERGENCY"@
        } else if self.0 == Self::MINIMAL_FUEL {
            "EmergencyPriorityStatus::MINIMAL_FUEL"@
        } else if self.0 == Self::NO_COMMUNICATIONS {
            "EmergencyPriorityStatus::NO_COMMUNICATIONS"@
        } else if self.0 == Self::UNLAWFUL_INTERFERENCE {
            "EmergencyPriorityStatus::UNLAWFUL_INTERFERENCE"@
        } else if self.0 == Self::DOWNED_AIRCRAFT {
            "EmergencyPriorityStatus::DOWNED_AIRCRAFT"@
        } else {
            "EmergencyPriorityStatus("@ + padded(self.0 as nat, 10, 0) + ")"@
        }
    }

    /// The status as it reads to a person.
    pub fn describe(&self) -> (r: String)
        ensures
            r@ == self.description(),
    {
        if self.0 == Self::NO_EMERGENCY {
            String::from_str("EmergencyPriorityStatus::NO_EMERGENCY")
        } else if self.0 == Self::GENERAL_EMERGENCY {
            String::from_str("EmergencyPriorityStatus::GENERAL_EMERGENCY")
        } else if self.0 == Self::LIFEGUARD_MEDICAL_EMERGENCY {
            String::from_str("EmergencyPriorityStatus::LIFEGUARD_MEDICAL_EMERGENCY")
        } else if self.0 == Self::MINIMAL_FUEL {
            String::from_str("EmergencyPriorityStatus::MINIMAL_FUEL")
        } else if self.0 == Self::NO_COMMUNICATIONS {
            String::from_str("EmergencyPriorityStatus::NO_COMMUNICATIONS")
        } else if self.0 == Self::UNLAWFUL_INTERFERENCE {
            String::from_str("EmergencyPriorityStatus::UNLAWFUL_INTERFERENCE")
        } else if self.0 == Self::DOWNED_AIRCRAFT {
            String::from_str("EmergencyPriorityStatus::DOWNED_AIRCRAFT")
        } else {
            let text = String::from_str("EmergencyPriorityStatus(");
            let number = format_radix(self.0 as u32, 10, 0);
            text.concat(number.as_str()).concat(")")
        }
    }

    /// Wraps `byte` without looking at it.
    pub fn from_u8_unchecked(byte: u8) -> (r: Self)
        ensures
            r == EmergencyPriorityStatus(byte),
    {
        Self(byte)
    }

    /// Wraps `byte` if it fits in 3 bits.
    pub fn from_u8(byte: u8) -> (r: Option<Self>)
        ensures
            r == (if byte < 8 {
                Some(EmergencyPriorityStatus(byte))
            } else {
                None
            }),
    {
        if byte < 8 {
            Some(Self(byte))
        } else {
            None
        }
    }

    pub fn as_u8(&self) -> (r: u8)
        ensures
            r == self.0,
    {
        self.0
    }

    /// Whether the status is any but "no emergency".
    pub fn is_emergency(&self) -> (r: bool)
        ensures
            r == (self.0 != Self::NO_EMERGENCY),
    {
        self.0 != Self::NO_EMERGENCY
    }

    /// The status that shall be set for a Mode A code.
    pub fn from_squawk(squawk: Squawk) -> (r: Option<Self>)
        ensures
            r == Self::of_squawk(squawk),
    {
        let code: u16 = squawk.as_u16();
        if code == Squawk::AIRCRAFT_HIJACKING {
            Some(Self(Self::UNLAWFUL_INTERFERENCE))
        } else if code == Squawk::RADIO_FAILURE {
            Some(Self(Self::NO_COMMUNICATIONS))
        } else if code == Squawk::EMERGENCY {
            Some(Self(Self::GENERAL_EMERGENCY))
        } else {
            None
        }
    }
}

impl Default for EmergencyPriorityStatus {
    fn default() -> (r: Self)
        ensures
            r == EmergencyPriorityStatus(EmergencyPriorityStatus::NO_EMERGENCY),
    {
        Self(Self::NO_EMERGENCY)
    }
}

/// Aircraft status, sub-type 1: the emergency or priority status and the
/// Mode A code.
#[derive(Clone, Copy, Debug, PartialEq, Eq, Structural)]
pub struct EmergencyPriorityStatusAndModeACode {
    pub emergency_priority_status: EmergencyPriorityStatus,
    pub mode_a_code: Squawk,
    /// The last 32 bits of the message, which have no meaning yet.
    pub reserved: u32,
}

impl EmergencyPriorityStatusAndModeACode {
    /// Every code is as wide as its field.
    pub open spec fn wf(&self) -> bool {
        self.emergency_priority_status.wf() && self.mode_a_code.wf()
    }

    /// The status that `payload` spells out: three bits of status, the
    /// thirteen bits of an identity word, and 32 bits that are kept as they
    /// are.
    pub open spec fn of_payload(payload: [u8; 6]) -> Self {
        EmergencyPriorityStatusAndModeACode {
            emergency_priority_status: EmergencyPriorityStatus(bits(payload@, 0, 3) as u8),
            mode_a_code: Squawk { code: gillham_id13(bits(payload@, 3, 13) as u16) },
            reserved: bits(payload@, 16, 32) as u32,
        }
    }

    /// Decodes the six bytes after the type byte.
    pub fn from_payload(payload: &[u8; 6]) -> (r: Self)
        ensures
            r == Self::of_payload(*payload),
            r.wf(),
    {
        proof {
            lemma2_to64();
        }
        let status: u8 = read_u8(payload, 0, 3);
        let head: [u8; 2] = [payload[0], payload[1]];
        let identity: u16 = decode_frame_aligned_altitude_or_identity_code(&head);
        proof {
            lemma_bits_same(head@, 3, payload@, 3, 13);
        }
        let reserved: u32 = read_bits(payload, 16, 32);
        Self {
            emergency_priority_status: EmergencyPriorityStatus(status),
            mode_a_code: Squawk::from_u16_unchecked(decode_gillham_id13(identity)),
            reserved,
        }
    }

    /// The status that an aircraft with this Mode A code reports: the
    /// emergency that the code calls for, or none.
    pub fn from_squawk(squawk: Squawk) -> (r: Self)
        ensures
            r == (EmergencyPriorityStatusAndModeACode {
                emergency_priority_status: match EmergencyPriorityStatus::of_squawk(squawk) {
                    Some(status) => status,
                    None => EmergencyPriorityStatus(EmergencyPriorityStatus::NO_EMERGENCY),
                },
                mode_a_code: squawk,
                reserved: 0,
            }),
    {
        let emergency_priority_status = match EmergencyPriorityStatus::from_squawk(squawk) {
            Some(status) => status,
            None => EmergencyPriorityStatus::default(),
        };
        Self { emergency_priority_status, mode_a_code: squawk, reserved: 0 }
    }
}

/// An aircraft status message.
#[derive(Clone, Copy, Debug, PartialEq, Eq)]
pub enum AircraftStatus {
    /// Sub-type 1.
    EmergencyPriorityStatusAndModeACode(EmergencyPriorityStatusAndModeACode),
    /// Sub-type 2: a TCAS resolution advisory, as the six bytes after the
    /// type byte.
    TcasResolutionAdvisory([u8; 6]),
}

impl AircraftStatus {
    /// Every code is as wide as its field.
    pub open spec fn wf(&self) -> bool {
        self matches AircraftStatus::EmergencyPriorityStatusAndModeACode(status) ==> status.wf()
    }

    /// The message that `payload` spells out under `sub_type`.
    pub open spec fn of_payload(payload: [u8; 6], sub_type: u8) -> Self {
        if sub_type == 1 {
            AircraftStatus::EmergencyPriorityStatusAndModeACode(
                EmergencyPriorityStatusAndModeACode::of_payload(payload),
            )
        } else {
            AircraftStatus::TcasResolutionAdvisory(payload)
        }
    }

    /// Decodes the six bytes after the type byte under sub-type 1 or 2.
    pub fn from_payload(payload: [u8; 6], sub_type: u8) -> (r: Self)
        requires
            sub_type == 1 || sub_type == 2,
        ensures
            r == Self::of_payload(payload, sub_type),
            r.wf(),
    {
        if sub_type == 1 {
            AircraftStatus::EmergencyPriorityStatusAndModeACode(
                EmergencyPriorityStatusAndModeACode::from_payload(&payload),
            )
        } else {
            AircraftStatus::TcasResolutionAdvisory(payload)
        }
    }

    /// Reads the six bytes after the type byte from `buffer` and decodes
    /// them as [`AircraftStatus::from_payload`] does.
    pub fn decode(buffer: &mut Bytes, bits_6_to_8: u8) -> (r: Self)
        requires
            unread(*old(buffer)).len() >= 6,
            bits_6_to_8 == 1 || bits_6_to_8 == 2,
        ensures
            r == Self::of_payload(array6(unread(*old(buffer))), bits_6_to_8),
            r.wf(),
            unread(*final(buffer)) == unread(*old(buffer)).skip(6),
    {
        let payload: [u8; 6] = get_bytes(buffer);
        assert(payload =~= array6(unread(*old(buffer))));
        Self::from_payload(payload, bits_6_to_8)
    }
}

/// What the probability of exceeding the containment radius is based on.
#[derive(Clone, Copy, Debug, PartialEq, Eq, Structural, PartialOrd, Ord, Hash)]
pub enum SilSupplement {
    PerHour,
    PerSample,
}

/// Where a selected altitude comes from.
#[derive(Clone, Copy, Debug, PartialEq, Eq, Structural, PartialOrd, Ord, Hash)]
pub enum SelectedAltitudeType {
    McpFcu,
    Fms,
}

/// A target state and status message. Two of its fields are decoded; the
/// six bytes after the type byte are kept beside them.
#[derive(Clone, Copy, Debug, PartialEq, Eq)]
pub struct TargetStateAndStatusInformation {
    pub sil_supplement: SilSupplement,
    pub selected_altitude_type: SelectedAltitudeType,
    pub data: [u8; 6],
}

impl TargetStateAndStatusInformation {
    /// The message that `payload` spells out after a type byte whose last
    /// bit is `bit_8`, the SIL supplement. The selected altitude type is
    /// bit 1 of the payload: the flight management system when clear.
    pub open spec fn of_payload(payload: [u8; 6], bit_8: bool) -> Self {
        TargetStateAndStatusInformation {
            sil_supplement: if bit_8 {
                SilSupplement::PerSample
            } else {
                SilSupplement::PerHour
            },
            selected_altitude_type: if flag(payload@, 1) {
                SelectedAltitudeType::McpFcu
            } else {
                SelectedAltitudeType::Fms
            },
            data: payload,
        }
    }

    /// Decodes the six bytes after the type byte.
    pub fn from_payload(payload: [u8; 6], bit_8: bool) -> (r: Self)
        ensures
            r == Self::of_payload(payload, bit_8),
    {
        let sil_supplement = if bit_8 {
            SilSupplement::PerSample
        } else {
            SilSupplement::PerHour
        };
        let selected_altitude_type = if read_flag(&payload, 1) {
            SelectedAltitudeType::McpFcu
        } else {
            SelectedAltitudeType::Fms
        };
        Self { sil_supplement, selected_altitude_type, data: payload }
    }

    /// Reads the six bytes after the type byte from `buffer` and decodes
    /// them as [`TargetStateAndStatusInformation::from_payload`] does.
    pub fn decode(buffer: &mut Bytes, bit_8: bool) -> (r: Self)
        requires
            unread(*old(buffer)).len() >= 6,
        ensures
            r == Self::of_payload(array6(unread(*old(buffer))), bit_8),
            unread(*final(buffer)) == unread(*old(buffer)).skip(6),
    {
        let payload: [u8; 6] = get_bytes(buffer);
        assert(payload =~= array6(unread(*old(buffer))));
        Self::from_payload(payload, bit_8)
    }
}

/// An aircraft operational status message. Its body is kept as the six
/// bytes after the type byte.
#[derive(Clone, Copy, Debug, PartialEq, Eq)]
pub enum AircraftOperationalStatus {
    /// Sub-type 0: an airborne participant.
    Airborne { data: [u8; 6] },
    /// Sub-type 1: a surface participant.
    Surface { data: [u8; 6] },
    /// Any other sub-type.
    Reserved { sub_type: u8, data: [u8; 6] },
}

impl AircraftOperationalStatus {
    /// The message that `payload` spells out under `sub_type`.
    pub open spec fn of_payload(payload: [u8; 6], sub_type: u8) -> Self {
        if sub_type == 0 {
            AircraftOperationalStatus::Airborne { data: payload }
        } else if sub_type == 1 {
            AircraftOperationalStatus::Surface { data: payload }
        } else {
            AircraftOperationalStatus::Reserved { sub_type, data: payload }
        }
    }

    /// Reads the six bytes after the type byte from `buffer` and files them
    /// under the sub-type `bits_6_to_8`.
    pub fn decode(buffer: &mut Bytes, bits_6_to_8: u8) -> (r: Self)
        requires
            unread(*old(buffer)).len() >= 6,
        ensures
            r == Self::of_payload(array6(unread(*old(buffer))), bits_6_to_8),
            unread(*final(buffer)) == unread(*old(buffer)).skip(6),
    {
        let sub_type: u8 = bits_6_to_8;
        let data: [u8; 6] = get_bytes(buffer);
        assert(data =~= array6(unread(*old(buffer))));
        match sub_type {
            0 => AircraftOperationalStatus::Airborne { data },
            1 => AircraftOperationalStatus::Surface { data },
            _ => AircraftOperationalStatus::Reserved { sub_type, data },
        }
    }
}

/// A surface system status message.
#[derive(Clone, Copy, Debug, PartialEq, Eq)]
pub enum SurfaceSystemMessage {
    /// Any sub-type but 1.
    Reserved { sub_type: u8, data: [u8; 6] },
    /// Sub-type 1: the status of a multilateration system, as the six bytes
    /// after the type byte.
    MultilaterationSystemStatus([u8; 6]),
}

impl SurfaceSystemMessage {
    /// The message that `payload` spells out under `sub_type`.
    pub open spec fn of_payload(payload: [u8; 6], sub_type: u8) -> Self {
        if sub_type == 1 {
            SurfaceSystemMessage::MultilaterationSystemStatus(payload)
        } else {
            SurfaceSystemMessage::Reserved { sub_type, data: payload }
        }
    }

    /// Reads the six bytes after the type byte from `buffer` and files them
    /// under the sub-type `bits_6_to_8`.
    pub fn decode(buffer: &mut Bytes, bits_6_to_8: u8) -> (r: Self)
        requires
            unread(*old(buffer)).len() >= 6,
        ensures
            r == Self::of_payload(array6(unread(*old(buffer))), bits_6_to_8),
            unread(*final(buffer)) == unread(*old(buffer)).skip(6),
    {
        let sub_type: u8 = bits_6_to_8;
        let data: [u8; 6] = get_bytes(buffer);
        assert(data =~= array6(unread(*old(buffer))));
        match sub_type {
            1 => SurfaceSystemMessage::MultilaterationSystemStatus(data),
            _ => SurfaceSystemMessage::Reserved { sub_type, data },
        }
    }
}

} // verus!
