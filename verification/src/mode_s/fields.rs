//! The small fields of surveillance and squitter frames.
//!
//! Each field is a code of a few bits. A value may hold any number that its
//! integer can hold; `wf` says whether it is as wide as the field, and the
//! checked constructors build only such values.

use vstd::prelude::*;
use vstd::string::StringExecFns;
use crate::text::decimal;
use crate::text::format_decimal;
use crate::text::format_radix;
use crate::text::padded;
use crate::mode_s::util::gillham::decode_gillham_ac13;
use crate::mode_s::util::gillham::decode_gillham_id13;
use crate::mode_s::util::gillham::gillham_ac13;
use crate::mode_s::util::gillham::gillham_id13;
use crate::types::Squawk;

verus! {

/// The 3-bit capability of a transponder.
#[derive(Clone, Copy, Debug, PartialEq, Eq, Structural, PartialOrd, Ord, Hash)]
pub struct Capability(pub u8);

impl Capability {
    /// Level 1 transponder (surveillance only), cannot set code 7, on the
    /// ground or airborne.
    pub const LEVEL1_GROUND_AIRBORNE: u8 = 0b000;

    /// Level 2 or above transponder, can set code 7, on the ground.
    pub const LEVEL2_GROUND: u8 = 0b100;

    /// Level 2 or above transponder, can set code 7, airborne.
    pub const LEVEL2_AIRBORNE: u8 = 0b101;

    /// Level 2 or above transponder, can set code 7, on the ground or
    /// airborne.
    pub const LEVEL2_GROUND_AIRBORNE: u8 = 0b110;

    /// The downlink request is not 0, or the flight status is 2, 3, 4 or 5;
    /// on the ground or airborne.
    pub const DR_NOT_ZERO_FS_EQUAL_2345_GROUND_AIRBORNE: u8 = 0b111;

    /// A capability fits in 3 bits.
    pub open spec fn wf(&self) -> bool {
        self.0 < 8
    }

    /// How the capability reads to a person: the name of its code, or for
    /// a code without a name its three bits.
    pub open spec fn description(&self) -> Seq<char> {
        if self.0 == Self::LEVEL1_GROUND_AIRBORNE {
            "Capability::LEVEL1_GROUND_AIRBORNE"@
        } else if self.0 == Self::LEVEL2_GROUND {
            "Capability::LEVEL2_GROUND"@
        } else if self.0 == Self::LEVEL2_AIRBORNE {
            "Capability::LEVEL2_AIRBORNE"@
        } else if self.0 == Self::LEVEL2_GROUND_AIRBORNE {
            "Capability::LEVEL2_GROUND_AIRBORNE"@
        } else if self.0 == Self::DR_NOT_ZERO_FS_EQUAL_2345_GROUND_AIRBORNE {
            "Capability::DR_NOT_ZERO_FS_EQUAL_2345_GROUND_AIRBORNE"@
        } else {
            "Capability(b"@ + padded(self.0 as nat, 2, 3) + ")"@
        }
    }

    /// The value as it reads to a person.
    pub fn describe(&self) -> (r: String)
        ensures
            r@ == self.description(),
    {
        if self.0 == Self::LEVEL1_GROUND_AIRBORNE {
            String::from_str("Capability::LEVEL1_GROUND_AIRBORNE")
        } else if self.0 == Self::LEVEL2_GROUND {
            String::from_str("Capability::LEVEL2_GROUND")
        } else if self.0 == Self::LEVEL2_AIRBORNE {
            String::from_str("Capability::LEVEL2_AIRBORNE")
        } else if self.0 == Self::LEVEL2_GROUND_AIRBORNE {
            String::from_str("Capability::LEVEL2_GROUND_AIRBORNE")
        } else if self.0 == Self::DR_NOT_ZERO_FS_EQUAL_2345_GROUND_AIRBORNE {
            String::from_str("Capability::DR_NOT_ZERO_FS_EQUAL_2345_GROUND_AIRBORNE")
        } else {
            let text = String::from_str("Capability(b");
            let number = format_radix(self.0 as u32, 2, 3);
            text.concat(number.as_str()).concat(")")
        }
    }

    /// Wraps `byte` without looking at it.
    pub fn from_u8_unchecked(byte: u8) -> (r: Self)
        ensures
            r == Capability(byte),
    {
        Self(byte)
    }

    /// Wraps `byte` if it fits in 3 bits.
    pub fn from_u8(byte: u8) -> (r: Option<Self>)
        ensures
            r == (if byte < 8 {
                Some(Capability(byte))
            } else {
                None
            }),
    {
        if byte < 8 {
            Some(Self(byte))
        } else {
            None
        }
    }

    pub fn as_u8(&self) -> (r: u8)
        ensures
            r == self.0,
    {
        self.0
    }
}

/// The 3-bit code format, which tells the kinds of extended squitter from
/// senders other than transponders apart.
#[derive(Clone, Copy, Debug, PartialEq, Eq, Structural, PartialOrd, Ord, Hash)]
pub struct CodeFormat(pub u8);

impl CodeFormat {
    pub const ADSB_WITH_ICAO_ADDRESS: u8 = 0;

    pub const ADSB_WITH_NON_ICAO_ADDRESS: u8 = 1;

    pub const TISB_WITH_ICAO_ADDRESS1: u8 = 2;

    pub const TISB_WITH_ICAO_ADDRESS2: u8 = 3;

    pub const TISB_AND_ADSR_MANAGEMENT: u8 = 4;

    pub const TISB_WITH_NON_ICAO_ADDRESS: u8 = 5;

    pub const ADSB_REBROADCAST: u8 = 6;

    pub const RESERVED: u8 = 7;

    /// A code format fits in 3 bits.
    pub open spec fn wf(&self) -> bool {
        self.0 < 8
    }

    /// How the code format reads to a person: the name of its code.
    pub open spec fn description(&self) -> Seq<char> {
        if self.0 == Self::ADSB_WITH_ICAO_ADDRESS {
            "CodeFormat::ADSB_WITH_ICAO_ADDRESS"@
        } else if self.0 == Self::ADSB_WITH_NON_ICAO_ADDRESS {
            "CodeFormat::ADSB_WITH_NON_ICAO_ADDRESS"@
        } else if self.0 == Self::TISB_WITH_ICAO_ADDRESS1 {
            "CodeFormat::TISB_WITH_ICAO_ADDRESS1"@
        } else if self.0 == Self::TISB_WITH_ICAO_ADDRESS2 {
            "CodeFormat::TISB_WITH_ICAO_ADDRESS2"@
        } else if self.0 == Self::TISB_AND_ADSR_MANAGEMENT {
            "CodeFormat::TISB_AND_ADSR_MANAGEMENT"@
        } else if self.0 == Self::TISB_WITH_NON_ICAO_ADDRESS {
            "CodeFormat::TISB_WITH_NON_ICAO_ADDRESS"@
        } else if self.0 == Self::ADSB_REBROADCAST {
            "CodeFormat::ADSB_REBROADCAST"@
        } else {
            "CodeFormat::RESERVED"@
        }
    }

    /// The value as it reads to a person.
    pub fn describe(&self) -> (r: String)
        requires
            self.wf(),
        ensures
            r@ == self.description(),
    {
        if self.0 == Self::ADSB_WITH_ICAO_ADDRESS {
            String::from_str("CodeFormat::ADSB_WITH_ICAO_ADDRESS")
        } else if self.0 == Self::ADSB_WITH_NON_ICAO_ADDRESS {
            String::from_str("CodeFormat::ADSB_WITH_NON_ICAO_ADDRESS")
        } else if self.0 == Self::TISB_WITH_ICAO_ADDRESS1 {
            String::from_str("CodeFormat::TISB_WITH_ICAO_ADDRESS1")
        } else if self.0 == Self::TISB_WITH_ICAO_ADDRESS2 {
            String::from_str("CodeFormat::TISB_WITH_ICAO_ADDRESS2")
        } else if self.0 == Self::TISB_AND_ADSR_MANAGEMENT {
            String::from_str("CodeFormat::TISB_AND_ADSR_MANAGEMENT")
        } else if self.0 == Self::TISB_WITH_NON_ICAO_ADDRESS {
            String::from_str("CodeFormat::TISB_WITH_NON_ICAO_ADDRESS")
        } else if self.0 == Self::ADSB_REBROADCAST {
            String::from_str("CodeFormat::ADSB_REBROADCAST")
        } else {
            String::from_str("CodeFormat::RESERVED")
        }
    }

    /// Wraps `byte` without looking at it.
    pub fn from_u8_unchecked(byte: u8) -> (r: Self)
        ensures
            r == CodeFormat(byte),
    {
        Self(byte)
    }

    /// Wraps `byte` if it fits in 3 bits.
    pub fn from_u8(byte: u8) -> (r: Option<Self>)
        ensures
            r == (if byte < 8 {
                Some(CodeFormat(byte))
            } else {
                None
            }),
    {
        if byte < 8 {
            Some(Self(byte))
        } else {
            None
        }
    }

    pub fn as_u8(&self) -> (r: u8)
        ensures
            r == self.0,
    {
        self.0
    }
}

/// The 3-bit flight status: whether there is an alert, whether the pilot
/// has pressed the identification button (SPI), and whether the aircraft is
/// airborne or on the ground.
#[derive(Clone, Copy, Debug, PartialEq, Eq, Structural, PartialOrd, Ord, Hash)]
pub struct FlightStatus(pub u8);

impl FlightStatus {
    pub const NO_ALERT_NO_SPI_AIRBORNE: u8 = 0b000;

    pub const NO_ALERT_NO_SPI_GROUND: u8 = 0b001;

    pub const ALERT_NO_SPI_AIRBORNE: u8 = 0b010;

    pub const ALERT_NO_SPI_GROUND: u8 = 0b011;

    pub const ALERT_SPI_AIRBORNE_GROUND: u8 = 0b100;

    pub const NO_ALERT_SPI_AIRBORNE_GROUND: u8 = 0b101;

    /// A flight status fits in 3 bits.
    pub open spec fn wf(&self) -> bool {
        self.0 < 8
    }

    /// Statuses 2, 3 and 4 report an alert.
    pub open spec fn has_alert(&self) -> bool {
        self.0 == 2 || self.0 == 3 || self.0 == 4
    }

    /// Statuses 4 and 5 report SPI.
    pub open spec fn has_spi(&self) -> bool {
        self.0 == 4 || self.0 == 5
    }

    /// Statuses 0 and 2 say airborne; 4 and 5 leave open whether the
    /// aircraft is airborne or on the ground, and count as both.
    pub open spec fn may_be_airborne(&self) -> bool {
        self.0 == 0 || self.0 == 2 || self.0 == 4 || self.0 == 5
    }

    /// Statuses 1 and 3 say on the ground; 4 and 5 leave open whether the
    /// aircraft is airborne or on the ground, and count as both.
    pub open spec fn may_be_on_ground(&self) -> bool {
        self.0 == 1 || self.0 == 3 || self.0 == 4 || self.0 == 5
    }

    /// How the status reads to a person: what it reports, in the order
    /// alert, SPI, airborne, ground. Where the aircraft may be airborne as
    /// well as on the ground, the two are joined by a stroke.
    pub open spec fn description(&self) -> Seq<char> {
        let alert = if self.has_alert() {
            "alert"@
        } else {
            ""@
        };
        let spi = if !self.has_spi() {
            ""@
        } else if self.has_alert() {
            ", spi"@
        } else {
            "spi"@
        };
        let airborne = if !self.may_be_airborne() {
            ""@
        } else if self.has_alert() || self.has_spi() {
            ", airborne"@
        } else {
            "airborne"@
        };
        let ground = if !self.may_be_on_ground() {
            ""@
        } else if self.may_be_airborne() {
            "/ground"@
        } else if self.has_alert() || self.has_spi() {
            ", ground"@
        } else {
            "ground"@
        };
        "FlightStatus("@ + alert + spi + airborne + ground + ")"@
    }

    /// Describes the status by what it reports.
    pub fn describe(&self) -> (r: String)
        ensures
            r@ == self.description(),
    {
        let mut text = String::from_str("FlightStatus(");
        let mut comma = false;
        let mut slash = false;
        proof {
            reveal_strlit("");
            assert(text@ + ""@ =~= text@);
        }
        if self.alert() {
            text.append("alert");
            comma = true;
        }
        let ghost with_alert = text@;
        if self.spi() {
            if comma {
                text.append(", spi");
            } else {
                text.append("spi");
            }
            comma = true;
        }
        let ghost with_spi = text@;
        if self.airborne() {
            if comma {
                text.append(", airborne");
            } else {
                text.append("airborne");
            }
            slash = true;
        }
        let ghost with_airborne = text@;
        if self.ground() {
            if slash {
                text.append("/ground");
            } else if comma {
                text.append(", ground");
            } else {
                text.append("ground");
            }
        }
        text.append(")");
        proof {
            reveal_strlit("");
            assert(with_alert + ""@ =~= with_alert);
            assert(with_spi + ""@ =~= with_spi);
            assert(with_airborne + ""@ =~= with_airborne);
        }
        text
    }

    /// Wraps `byte` without looking at it.
    pub fn from_u8_unchecked(byte: u8) -> (r: Self)
        ensures
            r == FlightStatus(byte),
    {
        Self(byte)
    }

    /// Wraps `byte` if it fits in 3 bits.
    pub fn from_u8(byte: u8) -> (r: Option<Self>)
        ensures
            r == (if byte < 8 {
                Some(FlightStatus(byte))
            } else {
                None
            }),
    {
        if byte < 8 {
            Some(Self(byte))
        } else {
            None
        }
    }

    pub fn as_u8(&self) -> (r: u8)
        ensures
            r == self.0,
    {
        self.0
    }

    /// Whether the status reports an alert.
    pub fn alert(&self) -> (r: bool)
        ensures
            r == self.has_alert(),
    {
        self.0 == Self::ALERT_NO_SPI_AIRBORNE || self.0 == Self::ALERT_NO_SPI_GROUND || self.0
            == Self::ALERT_SPI_AIRBORNE_GROUND
    }

    /// Whether the status reports SPI.
    pub fn spi(&self) -> (r: bool)
        ensures
            r == self.has_spi(),
    {
        self.0 == Self::ALERT_SPI_AIRBORNE_GROUND || self.0 == Self::NO_ALERT_SPI_AIRBORNE_GROUND
    }

    /// Whether the aircraft may be airborne.
    pub fn airborne(&self) -> (r: bool)
        ensures
            r == self.may_be_airborne(),
    {
        self.0 == Self::NO_ALERT_NO_SPI_AIRBORNE || self.0 == Self::ALERT_NO_SPI_AIRBORNE || self.0
            == Self::ALERT_SPI_AIRBORNE_GROUND || self.0 == Self::NO_ALERT_SPI_AIRBORNE_GROUND
    }

    /// Whether the aircraft may be on the ground.
    pub fn ground(&self) -> (r: bool)
        ensures
            r == self.may_be_on_ground(),
    {
        self.0 == Self::NO_ALERT_NO_SPI_GROUND || self.0 == Self::ALERT_NO_SPI_GROUND || self.0
            == Self::ALERT_SPI_AIRBORNE_GROUND || self.0 == Self::NO_ALERT_SPI_AIRBORNE_GROUND
    }
}

/// The 5-bit downlink request.
#[derive(Clone, Copy, Debug, PartialEq, Eq, Structural, PartialOrd, Ord, Hash)]
pub struct DownlinkRequest(pub u8);

impl DownlinkRequest {
    pub const NO_DOWNLINK_REQUEST: u8 = 0;

    pub const REQUEST_TO_SEND_COMMB_MESSAGE: u8 = 1;

    pub const COMMB_BROADCAST_MESSAGE1_AVAILABLE: u8 = 4;

    pub const COMMB_BROADCAST_MESSAGE2_AVAILABLE: u8 = 5;

    /// A downlink request fits in 5 bits.
    pub open spec fn wf(&self) -> bool {
        self.0 < 32
    }

    /// How the request reads to a person: the name of its code, or for a
    /// code without a name its number.
    pub open spec fn description(&self) -> Seq<char> {
        if self.0 == Self::NO_DOWNLINK_REQUEST {
            "DownlinkRequest::NO_DOWNLINK_REQUEST"@
        } else if self.0 == Self::REQUEST_TO_SEND_COMMB_MESSAGE {
            "DownlinkRequest::REQUEST_TO_SEND_COMMB_MESSAGE"@
        } else if self.0 == Self::COMMB_BROADCAST_MESSAGE1_AVAILABLE {
            "DownlinkRequest::COMMB_BROADCAST_MESSAGE1_AVAILABLE"@
        } else if self.0 == Self::COMMB_BROADCAST_MESSAGE2_AVAILABLE {
            "DownlinkRequest::COMMB_BROADCAST_MESSAGE2_AVAILABLE"@
        } else {
            "DownlinkRequest("@ + padded(self.0 as nat, 10, 0) + ")"@
        }
    }

    /// The value as it reads to a person.
    pub fn describe(&self) -> (r: String)
        ensures
            r@ == self.description(),
    {
        if self.0 == Self::NO_DOWNLINK_REQUEST {
            String::from_str("DownlinkRequest::NO_DOWNLINK_REQUEST")
        } else if self.0 == Self::REQUEST_TO_SEND_COMMB_MESSAGE {
            String::from_str("DownlinkRequest::REQUEST_TO_SEND_COMMB_MESSAGE")
        } else if self.0 == Self::COMMB_BROADCAST_MESSAGE1_AVAILABLE {
            String::from_str("DownlinkRequest::COMMB_BROADCAST_MESSAGE1_AVAILABLE")
        } else if self.0 == Self::COMMB_BROADCAST_MESSAGE2_AVAILABLE {
            String::from_str("DownlinkRequest::COMMB_BROADCAST_MESSAGE2_AVAILABLE")
        } else {
            let text = String::from_str("DownlinkRequest(");
            let number = format_radix(self.0 as u32, 10, 0);
            text.concat(number.as_str()).concat(")")
        }
    }

    /// Wraps `byte` without looking at it.
    pub fn from_u8_unchecked(byte: u8) -> (r: Self)
        ensures
            r == DownlinkRequest(byte),
    {
        Self(byte)
    }

    /// Wraps `byte` if it fits in 5 bits.
    pub fn from_u8(byte: u8) -> (r: Option<Self>)
        ensures
            r == (if byte < 32 {
                Some(DownlinkRequest(byte))
            } else {
                None
            }),
    {
        if byte < 32 {
            Some(Self(byte))
        } else {
            None
        }
    }

    pub fn as_u8(&self) -> (r: u8)
        ensures
            r == self.0,
    {
        self.0
    }
}

/// The 4-bit interrogator identifier of a utility message.
#[derive(Clone, Copy, Debug, PartialEq, Eq, Structural, PartialOrd, Ord, Hash)]
pub struct InterrogatorIdentifierSubfield(pub u8);

impl InterrogatorIdentifierSubfield {
    /// An interrogator identifier fits in 4 bits.
    pub open spec fn wf(&self) -> bool {
        self.0 < 16
    }

    /// Wraps `byte` without looking at it.
    pub fn from_u8_unchecked(byte: u8) -> (r: Self)
        ensures
            r == InterrogatorIdentifierSubfield(byte),
    {
        Self(byte)
    }

    /// Wraps `byte` if it fits in 4 bits.
    pub fn from_u8(byte: u8) -> (r: Option<Self>)
        ensures
            r == (if byte < 16 {
                Some(InterrogatorIdentifierSubfield(byte))
            } else {
                None
            }),
    {
        if byte < 16 {
            Some(Self(byte))
        } else {
            None
        }
    }

    pub fn as_u8(&self) -> (r: u8)
        ensures
            r == self.0,
    {
        self.0
    }
}

/// The 2-bit reservation type of a utility message: what the interrogator
/// identifier refers to.
#[derive(Clone, Copy, Debug, PartialEq, Eq, Structural, PartialOrd, Ord, Hash)]
pub struct InterrogatorReservationType(pub u8);

impl InterrogatorReservationType {
    pub const NO_INFORMATION: u8 = 0;

    pub const IIS_CONTAINS_COMMB: u8 = 1;

    pub const IIS_CONTAINS_COMMC: u8 = 2;

    pub const IIS_CONTAINS_COMMD: u8 = 3;

    /// A reservation type fits in 2 bits.
    pub open spec fn wf(&self) -> bool {
        self.0 < 4
    }

    /// How the reservation type reads to a person: the name of its code.
    pub open spec fn description(&self) -> Seq<char> {
        if self.0 == Self::NO_INFORMATION {
            "InterrogatorReservationType::NO_INFORMATION"@
        } else if self.0 == Self::IIS_CONTAINS_COMMB {
            "InterrogatorReservationType::IIS_CONTAINS_COMMB"@
        } else if self.0 == Self::IIS_CONTAINS_COMMC {
            "InterrogatorReservationType::IIS_CONTAINS_COMMC"@
        } else {
            "InterrogatorReservationType::IIS_CONTAINS_COMMD"@
        }
    }

    /// The value as it reads to a person.
    pub fn describe(&self) -> (r: String)
        requires
            self.wf(),
        ensures
            r@ == self.description(),
    {
        if self.0 == Self::NO_INFORMATION {
            String::from_str("InterrogatorReservationType::NO_INFORMATION")
        } else if self.0 == Self::IIS_CONTAINS_COMMB {
            String::from_str("InterrogatorReservationType::IIS_CONTAINS_COMMB")
        } else if self.0 == Self::IIS_CONTAINS_COMMC {
            String::from_str("InterrogatorReservationType::IIS_CONTAINS_COMMC")
        } else {
            String::from_str("InterrogatorReservationType::IIS_CONTAINS_COMMD")
        }
    }

    /// Wraps `byte` without looking at it.
    pub fn from_u8_unchecked(byte: u8) -> (r: Self)
        ensures
            r == InterrogatorReservationType(byte),
    {
        Self(byte)
    }

    /// Wraps `byte` if it fits in 2 bits.
    pub fn from_u8(byte: u8) -> (r: Option<Self>)
        ensures
            r == (if byte < 4 {
                Some(InterrogatorReservationType(byte))
            } else {
                None
            }),
    {
        if byte < 4 {
            Some(Self(byte))
        } else {
            None
        }
    }

    pub fn as_u8(&self) -> (r: u8)
        ensures
            r == self.0,
    {
        self.0
    }
}

/// The 6-bit utility message: four bits of interrogator identifier and,
/// below them, two bits of reservation type.
#[derive(Clone, Copy, Debug, PartialEq, Eq, Structural, PartialOrd, Ord, Hash)]
pub struct UtilityMessage {
    pub interrogator_identifier_subfield: InterrogatorIdentifierSubfield,
    pub interrogator_reservation_type: InterrogatorReservationType,
}

impl UtilityMessage {
    /// Both parts are as wide as their fields.
    pub open spec fn wf(&self) -> bool {
        self.interrogator_identifier_subfield.wf() && self.interrogator_reservation_type.wf()
    }

    /// The utility message that `byte` holds: the reservation type in its
    /// low two bits, the interrogator identifier above them.
    pub open spec fn of_u8(byte: u8) -> Self {
        UtilityMessage {
            interrogator_identifier_subfield: InterrogatorIdentifierSubfield(byte / 4),
            interrogator_reservation_type: InterrogatorReservationType(byte % 4),
        }
    }

    /// Splits `byte` if it fits in 6 bits.
    pub fn from_u8(byte: u8) -> (r: Option<Self>)
        ensures
            r == (if byte < 64 {
                Some(Self::of_u8(byte))
            } else {
                None
            }),
            r matches Some(m) ==> m.wf(),
    {
        if byte < 64 {
            Some(Self::from_u8_unchecked(byte))
        } else {
            None
        }
    }

    /// Splits `byte` without asking whether it fits in 6 bits.
    pub fn from_u8_unchecked(byte: u8) -> (r: Self)
        ensures
            r == Self::of_u8(byte),
            byte < 64 ==> r.wf(),
    {
        Self {
            interrogator_identifier_subfield: InterrogatorIdentifierSubfield(byte / 4),
            interrogator_reservation_type: InterrogatorReservationType(byte % 4),
        }
    }

    /// The byte that holds the two parts: the interrogator identifier
    /// above the two bits of the reservation type.
    pub open spec fn packed(&self) -> u8 {
        (self.interrogator_identifier_subfield.0 << 2) | self.interrogator_reservation_type.0
    }

    /// The two parts in one byte, as [`UtilityMessage::from_u8`] reads
    /// them: the interrogator identifier above the two bits of the
    /// reservation type. Of parts that are wider than their fields the
    /// bits that do not fit are lost or run into one another.
    pub fn as_u8(&self) -> (r: u8)
        ensures
            r == self.packed(),
            self.wf() ==> r == self.interrogator_identifier_subfield.0 * 4
                + self.interrogator_reservation_type.0,
            self.wf() ==> r < 64 && Self::of_u8(r) == *self,
    {
        let identifier: u8 = self.interrogator_identifier_subfield.as_u8();
        let reservation: u8 = self.interrogator_reservation_type.as_u8();
        proof {
            Self::lemma_packed(identifier, reservation);
        }
        (identifier << 2) | reservation
    }

    /// Parts that are as wide as their fields lie side by side in the
    /// byte.
    proof fn lemma_packed(identifier: u8, reservation: u8)
        ensures
            identifier < 16 && reservation < 4 ==> ((identifier << 2) | reservation) == identifier
                * 4 + reservation,
    {
        assert(identifier < 16 && reservation < 4 ==> ((identifier << 2) | reservation)
            == identifier * 4 + reservation) by (bit_vector);
    }

    /// Splitting a byte of six bits and putting the parts together gives
    /// the byte again.
    pub proof fn lemma_round_trip(byte: u8)
        requires
            byte < 64,
        ensures
            Self::of_u8(byte).wf(),
            Self::of_u8(byte).packed() == byte,
    {
        Self::lemma_packed(byte / 4, byte % 4);
    }
}

/// The unit of a decoded altitude.
#[derive(Clone, Copy, Debug, PartialEq, Eq, Structural, PartialOrd, Ord, Hash)]
pub enum AltitudeUnit {
    Feet,
    Meter,
}

impl AltitudeUnit {
    /// The usual abbreviation of the unit.
    pub fn unit_str(&self) -> (r: &'static str)
        ensures
            r@ == (match *self {
                AltitudeUnit::Feet => "ft"@,
                AltitudeUnit::Meter => "m"@,
            }),
    {
        match self {
            AltitudeUnit::Feet => "ft",
            AltitudeUnit::Meter => "m",
        }
    }
}

/// An altitude with its unit.
#[derive(Clone, Copy, Debug, PartialEq, Eq, Structural)]
pub struct DecodedAltitude {
    pub altitude: i32,
    pub unit: AltitudeUnit,
}

/// The 13-bit altitude code of a surveillance reply.
///
/// Bit 6 is the metric bit and bit 4 the Q bit. With the metric bit set the
/// other bits count metres; with the Q bit set they count steps of 25 ft
/// above -1000 ft; with both clear the code is a Gillham word.
#[derive(Clone, Copy, Debug, PartialEq, Eq, Structural, PartialOrd, Ord, Hash)]
pub struct AltitudeCode(pub u16);

impl AltitudeCode {
    /// An altitude code fits in 13 bits.
    pub open spec fn wf(&self) -> bool {
        self.0 < 0x2000
    }

    /// The metric bit.
    pub open spec fn m_bit(&self) -> bool {
        self.0 & 0x0040 != 0
    }

    /// The Q bit.
    pub open spec fn q_bit(&self) -> bool {
        self.0 & 0x0010 != 0
    }

    /// The eleven bits of the code that are neither the metric bit nor the
    /// Q bit, as one number.
    pub open spec fn plain(&self) -> u16 {
        ((self.0 & 0x1F80) >> 2) | ((self.0 & 0x0020) >> 1) | (self.0 & 0x000F)
    }

    /// The altitude that the code stands for. The codes 0 and 0x1FFF stand
    /// for none, every other code for one.
    pub open spec fn decoded(&self) -> Option<DecodedAltitude> {
        if self.0 == 0 || self.0 == 0x1FFF {
            None
        } else if self.m_bit() {
            Some(DecodedAltitude { altitude: self.plain() as i32, unit: AltitudeUnit::Meter })
        } else if self.q_bit() {
            Some(
                DecodedAltitude {
                    altitude: (25 * self.plain() - 1000) as i32,
                    unit: AltitudeUnit::Feet,
                },
            )
        } else {
            Some(
                DecodedAltitude {
                    altitude: (100 * gillham_ac13(self.0) - 1200) as i32,
                    unit: AltitudeUnit::Feet,
                },
            )
        }
    }

    /// How the code reads to a person: the altitude with its unit where
    /// the code stands for one, else the code as a number.
    pub open spec fn description(&self) -> Seq<char> {
        match self.decoded() {
            Some(altitude) => "AltitudeCode("@ + decimal(altitude.altitude as int) + " "@ + (
            match altitude.unit {
                AltitudeUnit::Feet => "ft"@,
                AltitudeUnit::Meter => "m"@,
            }) + ")"@,
            None => "AltitudeCode("@ + decimal(self.0 as int) + ")"@,
        }
    }

    /// Describes the code by the altitude it stands for.
    pub fn describe(&self) -> (r: String)
        ensures
            r@ == self.description(),
    {
        let text = String::from_str("AltitudeCode(");
        match self.decode() {
            Some(altitude) => {
                let number = format_decimal(altitude.altitude);
                text.concat(number.as_str()).concat(" ").concat(altitude.unit.unit_str()).concat(
                    ")",
                )
            },
            None => {
                let number = format_decimal(self.0 as i32);
                text.concat(number.as_str()).concat(")")
            },
        }
    }

    /// Wraps `word` without looking at its width.
    pub fn from_u16_unchecked(word: u16) -> (r: Self)
        ensures
            r == AltitudeCode(word),
    {
        Self(word)
    }

    /// Wraps `word` if it fits in 13 bits.
    pub fn from_u16(word: u16) -> (r: Option<Self>)
        ensures
            r == (if word < 0x2000 {
                Some(AltitudeCode(word))
            } else {
                None
            }),
    {
        if word < 0x2000 {
            Some(Self(word))
        } else {
            None
        }
    }

    pub fn as_u16(&self) -> (r: u16)
        ensures
            r == self.0,
    {
        self.0
    }

    /// The altitude that the code stands for.
    pub fn decode(&self) -> (r: Option<DecodedAltitude>)
        ensures
            r == self.decoded(),
            r is None <==> self.0 == 0 || self.0 == 0x1FFF,
            r matches Some(d) ==> {
                &&& d.unit == AltitudeUnit::Meter <==> self.m_bit()
                &&& self.m_bit() ==> 0 <= d.altitude <= 2047
                &&& !self.m_bit() && self.q_bit() ==> -1000 <= d.altitude <= 50_175
                &&& !self.m_bit() && !self.q_bit() ==> -1200 <= d.altitude <= 126_700
            },
    {
        let word: u16 = self.0;
        if word == 0 || word == 0x1FFF {
            None
        } else {
            let m_bit = word & 0x0040 != 0;
            let q_bit = word & 0x0010 != 0;
            let plain: u16 = ((word & 0x1F80) >> 2) | ((word & 0x0020) >> 1) | (word & 0x000F);
            assert(plain <= 0x7FF) by (bit_vector)
                requires
                    plain == ((word & 0x1F80) >> 2) | ((word & 0x0020) >> 1) | (word & 0x000F),
            ;
            if m_bit {
                Some(DecodedAltitude { altitude: plain as i32, unit: AltitudeUnit::Meter })
            } else if q_bit {
                Some(
                    DecodedAltitude {
                        altitude: 25 * (plain as i32) - 1000,
                        unit: AltitudeUnit::Feet,
                    },
                )
            } else {
                let hundreds: u16 = decode_gillham_ac13(word);
                Some(
                    DecodedAltitude {
                        altitude: 100 * (hundreds as i32) - 1200,
                        unit: AltitudeUnit::Feet,
                    },
                )
            }
        }
    }
}

/// The 13-bit identity code of a surveillance reply: a Mode A code as a
/// Gillham word.
#[derive(Clone, Copy, Debug, PartialEq, Eq, Structural, PartialOrd, Ord, Hash)]
pub struct IdentityCode(pub u16);

impl IdentityCode {
    /// An identity code fits in 13 bits.
    pub open spec fn wf(&self) -> bool {
        self.0 < 0x2000
    }

    /// How the code reads to a person: the Mode A code in four octal
    /// digits, and the word `ident` where bit 6 is set.
    pub open spec fn description(&self) -> Seq<char> {
        "IdentityCode("@ + padded(gillham_id13(self.0) as nat, 8, 4) + (if self.0 & 0x0040 != 0 {
            ", ident"@
        } else {
            ""@
        }) + ")"@
    }

    /// Describes the code by the Mode A code it stands for.
    pub fn describe(&self) -> (r: String)
        ensures
            r@ == self.description(),
    {
        let text = String::from_str("IdentityCode(");
        let squawk = self.squawk().to_string();
        let text = text.concat(squawk.as_str());
        let ghost before = text@;
        proof {
            reveal_strlit("");
            assert(before + ""@ =~= before);
        }
        let text = if self.ident() {
            text.concat(", ident")
        } else {
            text
        };
        text.concat(")")
    }

    /// Wraps `word` without looking at its width.
    pub fn from_u16_unchecked(word: u16) -> (r: Self)
        ensures
            r == IdentityCode(word),
    {
        Self(word)
    }

    /// Wraps `word` if it fits in 13 bits.
    pub fn from_u16(word: u16) -> (r: Option<Self>)
        ensures
            r == (if word < 0x2000 {
                Some(IdentityCode(word))
            } else {
                None
            }),
    {
        if word < 0x2000 {
            Some(Self(word))
        } else {
            None
        }
    }

    pub fn as_u16(&self) -> (r: u16)
        ensures
            r == self.0,
    {
        self.0
    }

    /// Whether bit 6 of the code is set, the place between the pulses A4
    /// and B1.
    pub fn ident(&self) -> (r: bool)
        ensures
            r == (self.0 & 0x0040 != 0),
    {
        self.0 & 0x0040 != 0
    }

    /// The Mode A code that the word stands for.
    pub fn squawk(&self) -> (r: Squawk)
        ensures
            r == (Squawk { code: gillham_id13(self.0) }),
            r.wf(),
    {
        Squawk::from_u16_unchecked(decode_gillham_id13(self.0))
    }
}

/// Whether an aircraft reports itself airborne or on the ground.
#[derive(Clone, Copy, Debug, PartialEq, Eq, Structural, PartialOrd, Ord, Hash)]
pub enum VerticalStatus {
    Airborne,
    Ground,
}

/// Whether a transponder can answer a cross-link request.
#[derive(Clone, Copy, Debug, PartialEq, Eq, Structural, PartialOrd, Ord, Hash)]
pub struct CrossLinkCapability(pub bool);

/// The 3-bit sensitivity level of a collision avoidance system.
#[derive(Clone, Copy, Debug, PartialEq, Eq, Structural, PartialOrd, Ord, Hash)]
pub struct SensitivityLevel(pub u8);

impl SensitivityLevel {
    pub const INOPERATIVE: u8 = 0;

    /// A sensitivity level fits in 3 bits.
    pub open spec fn wf(&self) -> bool {
        self.0 < 8
    }

    /// Wraps `byte` without looking at it.
    pub fn from_u8_unchecked(byte: u8) -> (r: Self)
        ensures
            r == SensitivityLevel(byte),
    {
        Self(byte)
    }

    /// Wraps `byte` if it fits in 3 bits.
    pub fn from_u8(byte: u8) -> (r: Option<Self>)
        ensures
            r == (if byte < 8 {
                Some(SensitivityLevel(byte))
            } else {
                None
            }),
    {
        if byte < 8 {
            Some(Self(byte))
        } else {
            None
        }
    }

    pub fn as_u8(&self) -> (r: u8)
        ensures
            r == self.0,
    {
        self.0
    }
}

/// The 4-bit reply information of an air-to-air reply.
#[derive(Clone, Copy, Debug, PartialEq, Eq, Structural, PartialOrd, Ord, Hash)]
pub struct ReplyInformation(pub u8);

impl ReplyInformation {
    pub const NO_OPERATING_ACAS: u8 = 0b0000;

    pub const ACAS_RESOLUTION_CAPABILITY_INHIBITED: u8 = 0b0010;

    pub const ACAS_VERTICAL_ONLY_CAPABILITY: u8 = 0b0011;

    pub const ACAS_VERTICAL_AND_HORIZONTAL_CAPABILTIY: u8 = 0b0111;

    /// A reply information fits in 4 bits.
    pub open spec fn wf(&self) -> bool {
        self.0 < 16
    }

    /// How the reply information reads to a person: the name of its code,
    /// or for a code without a name its number.
    pub open spec fn description(&self) -> Seq<char> {
        if self.0 == Self::NO_OPERATING_ACAS {
            "ReplyInformation::NO_OPERATING_ACAS"@
        } else if self.0 == Self::ACAS_RESOLUTION_CAPABILITY_INHIBITED {
            "ReplyInformation::ACAS_RESOLUTION_CAPABILITY_INHIBITED"@
        } else if self.0 == Self::ACAS_VERTICAL_ONLY_CAPABILITY {
            "ReplyInformation::ACAS_VERTICAL_ONLY_CAPABILITY"@
        } else if self.0 == Self::ACAS_VERTICAL_AND_HORIZONTAL_CAPABILTIY {
            "ReplyInformation::ACAS_VERTICAL_AND_HORIZONTAL_CAPABILTIY"@
        } else {
            "ReplyInformation("@ + padded(self.0 as nat, 10, 0) + ")"@
        }
    }

    /// The value as it reads to a person.
    pub fn describe(&self) -> (r: String)
        ensures
            r@ == self.description(),
    {
        if self.0 == Self::NO_OPERATING_ACAS {
            String::from_str("ReplyInformation::NO_OPERATING_ACAS")
        } else if self.0 == Self::ACAS_RESOLUTION_CAPABILITY_INHIBITED {
            String::from_str("ReplyInformation::ACAS_RESOLUTION_CAPABILITY_INHIBITED")
        } else if self.0 == Self::ACAS_VERTICAL_ONLY_CAPABILITY {
            String::from_str("ReplyInformation::ACAS_VERTICAL_ONLY_CAPABILITY")
        } else if self.0 == Self::ACAS_VERTICAL_AND_HORIZONTAL_CAPABILTIY {
            String::from_str("ReplyInformation::ACAS_VERTICAL_AND_HORIZONTAL_CAPABILTIY")
        } else {
            let text = String::from_str("ReplyInformation(");
            let number = format_radix(self.0 as u32, 10, 0);
            text.concat(number.as_str()).concat(")")
        }
    }

    /// Wraps `byte` without looking at it.
    pub fn from_u8_unchecked(byte: u8) -> (r: Self)
        ensures
            r == ReplyInformation(byte),
    {
        Self(byte)
    }

    /// Wraps `byte` if it fits in 4 bits.
    pub fn from_u8(byte: u8) -> (r: Option<Self>)
        ensures
            r == (if byte < 16 {
                Some(ReplyInformation(byte))
            } else {
                None
            }),
    {
        if byte < 16 {
            Some(Self(byte))
        } else {
            None
        }
    }

    pub fn as_u8(&self) -> (r: u8)
        ensures
            r == self.0,
    {
        self.0
    }
}

/// The last three bytes of a frame: parity overlaid with an address or an
/// interrogator code. They are kept as they came.
#[derive(Clone, Copy, Debug, PartialEq, Eq)]
pub struct Parity(pub [u8; 3]);

} // verus!
