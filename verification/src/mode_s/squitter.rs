//! Squitters and all-call replies: what a sender transmits unasked (downlink
//! formats 11, 17, 18, 19) and the Comm-D frame (24 and above).
//!
//! Each decoder takes the low three bits of the first byte of the frame
//! and reads the rest of the frame from the buffer.

use vstd::prelude::*;
use bytes::Bytes;
use crate::buffer::array10;
use crate::buffer::array13;
use crate::buffer::array3;
use crate::buffer::array7;
use crate::buffer::read10;
use crate::buffer::read13;
use crate::buffer::read3;
use crate::buffer::unread;
use crate::mode_s::adsb::Message;
use crate::mode_s::fields::Capability;
use crate::mode_s::fields::CodeFormat;
use crate::mode_s::fields::Parity;
use crate::mode_s::tisb;
use crate::mode_s::DecodeError;
use crate::types::IcaoAddress;

verus! {

/// An all-call reply (downlink format 11).
#[derive(Clone, Copy, Debug, PartialEq, Eq)]
pub struct AllCallReply {
    pub capability: Capability,
    pub address_announced: IcaoAddress,
    pub parity_interrogator: Parity,
}

impl AllCallReply {
    /// The reply that the six bytes `rest` spell out after a first byte
    /// with the low three bits `bits_6_to_8`, the capability.
    pub open spec fn of_rest(rest: Seq<u8>, bits_6_to_8: u8) -> Self {
        AllCallReply {
            capability: Capability(bits_6_to_8),
            address_announced: IcaoAddress::of_bytes(array3(rest)),
            parity_interrogator: Parity(array3(rest.skip(3))),
        }
    }

    /// Reads the six bytes after the first byte of the frame.
    pub fn decode(buffer: &mut Bytes, bits_6_to_8: u8) -> (r: Self)
        requires
            unread(*old(buffer)).len() >= 6,
        ensures
            r == Self::of_rest(unread(*old(buffer)), bits_6_to_8),
            r.address_announced.wf(),
            unread(*final(buffer)) == unread(*old(buffer)).skip(6),
    {
        let address_announced = IcaoAddress::from_bytes(read3(buffer));
        let parity_interrogator = Parity(read3(buffer));
        assert(unread(*buffer) =~= unread(*old(buffer)).skip(6));
        Self {
            capability: Capability::from_u8_unchecked(bits_6_to_8),
            address_announced,
            parity_interrogator,
        }
    }
}

/// The part that every extended squitter with an ADS-B message shares: the
/// announced address in three bytes, the ME field in seven, the parity in
/// three. Where the ME field holds no message, the error of the field.
pub open spec fn adsb_parts(rest: Seq<u8>) -> Result<(IcaoAddress, Message, Parity), DecodeError> {
    match Message::of_bytes(array7(rest.skip(3))) {
        Ok(message) => Ok(
            (IcaoAddress::of_bytes(array3(rest)), message, Parity(array3(rest.skip(10)))),
        ),
        Err(e) => Err(e),
    }
}

/// Reads the announced address, the ADS-B message and the parity. Where the
/// ME field holds no message, the parity stays unread.
fn decode_adsb_parts(buffer: &mut Bytes) -> (r: Result<(IcaoAddress, Message, Parity), DecodeError>)
    requires
        unread(*old(buffer)).len() >= 13,
    ensures
        r == adsb_parts(unread(*old(buffer))),
        r matches Ok(parts) ==> parts.0.wf() && parts.1.wf(),
        r is Ok ==> unread(*final(buffer)) == unread(*old(buffer)).skip(13),
        r is Err ==> unread(*final(buffer)) == unread(*old(buffer)).skip(10),
{
    let address_announced = IcaoAddress::from_bytes(read3(buffer));
    let decoded = Message::decode(buffer);
    assert(unread(*buffer) =~= unread(*old(buffer)).skip(10));
    match decoded {
        Ok(message) => {
            let parity = Parity(read3(buffer));
            assert(unread(*buffer) =~= unread(*old(buffer)).skip(13));
            Ok((address_announced, message, parity))
        },
        Err(e) => Err(e),
    }
}

/// The part that every extended squitter with a TIS-B message shares: the
/// announced address in three bytes, the ME field in seven, the parity in
/// three.
pub open spec fn tisb_parts(rest: Seq<u8>) -> (IcaoAddress, tisb::Message, Parity) {
    (
        IcaoAddress::of_bytes(array3(rest)),
        tisb::Message { data: array7(rest.skip(3)) },
        Parity(array3(rest.skip(10))),
    )
}

/// Reads the announced address, the TIS-B message and the parity.
fn decode_tisb_parts(buffer: &mut Bytes) -> (r: (IcaoAddress, tisb::Message, Parity))
    requires
        unread(*old(buffer)).len() >= 13,
    ensures
        r == tisb_parts(unread(*old(buffer))),
        r.0.wf(),
        unread(*final(buffer)) == unread(*old(buffer)).skip(13),
{
    let address_announced = IcaoAddress::from_bytes(read3(buffer));
    let message = tisb::Message::decode(buffer);
    assert(unread(*buffer) =~= unread(*old(buffer)).skip(10));
    let parity = Parity(read3(buffer));
    assert(unread(*buffer) =~= unread(*old(buffer)).skip(13));
    (address_announced, message, parity)
}

/// An extended squitter of a transponder (downlink format 17).
#[derive(Clone, Copy, Debug, PartialEq, Eq)]
pub struct ExtendedSquitter {
    pub capabilities: Capability,
    pub address_announced: IcaoAddress,
    pub adsb_message: Message,
    pub parity_interrogator: Parity,
}

impl ExtendedSquitter {
    /// The squitter that the thirteen bytes `rest` spell out after a first
    /// byte with the low three bits `bits_6_to_8`, the capability.
    pub open spec fn of_rest(rest: Seq<u8>, bits_6_to_8: u8) -> Result<Self, DecodeError> {
        match adsb_parts(rest) {
            Ok(parts) => Ok(
                ExtendedSquitter {
                    capabilities: Capability(bits_6_to_8),
                    address_announced: parts.0,
                    adsb_message: parts.1,
                    parity_interrogator: parts.2,
                },
            ),
            Err(e) => Err(e),
        }
    }

    /// Every code is as wide as its field, the capability aside, which is
    /// as wide as what the caller handed in.
    pub open spec fn wf(&self) -> bool {
        self.address_announced.wf() && self.adsb_message.wf()
    }

    /// Reads the thirteen bytes after the first byte of the frame. Where
    /// the ME field holds no message, the last three stay unread.
    pub fn decode(buffer: &mut Bytes, bits_6_to_8: u8) -> (r: Result<Self, DecodeError>)
        requires
            unread(*old(buffer)).len() >= 13,
        ensures
            r == Self::of_rest(unread(*old(buffer)), bits_6_to_8),
            r matches Ok(squitter) ==> squitter.wf(),
            r is Ok ==> unread(*final(buffer)) == unread(*old(buffer)).skip(13),
            r is Err ==> unread(*final(buffer)) == unread(*old(buffer)).skip(10),
    {
        match decode_adsb_parts(buffer) {
            Ok((address_announced, adsb_message, parity_interrogator)) => Ok(
                Self {
                    capabilities: Capability::from_u8_unchecked(bits_6_to_8),
                    address_announced,
                    adsb_message,
                    parity_interrogator,
                },
            ),
            Err(e) => Err(e),
        }
    }
}

/// An extended squitter of a sender that is no transponder (downlink format
/// 18). The code format in the low three bits of the first byte tells what
/// it carries, and each code format has its own variant.
#[derive(Clone, Copy, Debug, PartialEq, Eq)]
pub enum ExtendedSquitterNonTransponder {
    /// Code format 0: ADS-B from a sender with an ICAO address.
    AdsbWithIcaoAddress {
        address_announced: IcaoAddress,
        adsb_message: Message,
        parity_interrogator: Parity,
    },
    /// Code format 1: ADS-B from a sender with an anonymous address, a
    /// ground vehicle address or that of a fixed obstruction.
    AdsbWithNonIcaoAddress {
        address_announced: IcaoAddress,
        adsb_message: Message,
        parity_interrogator: Parity,
    },
    /// Code format 2: fine TIS-B.
    TisbWithIcaoAddress1 {
        address_announced: IcaoAddress,
        tisb_message: tisb::Message,
        parity_interrogator: Parity,
    },
    /// Code format 3: coarse TIS-B.
    TisbWithIcaoAddress2 {
        address_announced: IcaoAddress,
        tisb_message: tisb::Message,
        parity_interrogator: Parity,
    },
    /// Code format 4: TIS-B and ADS-R management, as the ten bytes between
    /// the first byte and the parity.
    TisbAndAdsrManagement { data: [u8; 10], parity_interrogator: Parity },
    /// Code format 5: TIS-B of a target without an ICAO address.
    TisbWithNonIcaoAddress {
        address_announced: IcaoAddress,
        tisb_message: tisb::Message,
        parity_interrogator: Parity,
    },
    /// Code format 6: an ADS-B message that a ground station broadcasts
    /// again.
    AdsrRebroadcast {
        address_announced: IcaoAddress,
        adsb_message: Message,
        parity_interrogator: Parity,
    },
    /// Code format 7, as the ten bytes between the first byte and the
    /// parity.
    Reserved { data: [u8; 10], parity_interrogator: Parity },
}

impl ExtendedSquitterNonTransponder {
    /// The code format that the variant stands for.
    pub open spec fn code_format_of(&self) -> CodeFormat {
        match *self {
            ExtendedSquitterNonTransponder::AdsbWithIcaoAddress { .. } => CodeFormat(
                CodeFormat::ADSB_WITH_ICAO_ADDRESS,
            ),
            ExtendedSquitterNonTransponder::AdsbWithNonIcaoAddress { .. } => CodeFormat(
                CodeFormat::ADSB_WITH_NON_ICAO_ADDRESS,
            ),
            ExtendedSquitterNonTransponder::TisbWithIcaoAddress1 { .. } => CodeFormat(
                CodeFormat::TISB_WITH_ICAO_ADDRESS1,
            ),
            ExtendedSquitterNonTransponder::TisbWithIcaoAddress2 { .. } => CodeFormat(
                CodeFormat::TISB_WITH_ICAO_ADDRESS2,
            ),
            ExtendedSquitterNonTransponder::TisbAndAdsrManagement { .. } => CodeFormat(
                CodeFormat::TISB_AND_ADSR_MANAGEMENT,
            ),
            ExtendedSquitterNonTransponder::TisbWithNonIcaoAddress { .. } => CodeFormat(
                CodeFormat::TISB_WITH_NON_ICAO_ADDRESS,
            ),
            ExtendedSquitterNonTransponder::AdsrRebroadcast { .. } => CodeFormat(
                CodeFormat::ADSB_REBROADCAST,
            ),
            ExtendedSquitterNonTransponder::Reserved { .. } => CodeFormat(CodeFormat::RESERVED),
        }
    }

    /// Every code is as wide as its field.
    pub open spec fn wf(&self) -> bool {
        match *self {
            ExtendedSquitterNonTransponder::AdsbWithIcaoAddress {
                address_announced,
                adsb_message,
                ..
            } => address_announced.wf() && adsb_message.wf(),
            ExtendedSquitterNonTransponder::AdsbWithNonIcaoAddress {
                address_announced,
                adsb_message,
                ..
            } => address_announced.wf() && adsb_message.wf(),
            ExtendedSquitterNonTransponder::TisbWithIcaoAddress1 { address_announced, .. } =>
                address_announced.wf(),
            ExtendedSquitterNonTransponder::TisbWithIcaoAddress2 { address_announced, .. } =>
                address_announced.wf(),
            ExtendedSquitterNonTransponder::TisbAndAdsrManagement { .. } => true,
            ExtendedSquitterNonTransponder::TisbWithNonIcaoAddress { address_announced, .. } =>
                address_announced.wf(),
            ExtendedSquitterNonTransponder::AdsrRebroadcast {
                address_announced,
                adsb_message,
                ..
            } => address_announced.wf() && adsb_message.wf(),
            ExtendedSquitterNonTransponder::Reserved { .. } => true,
        }
    }

    /// The announced address, marked as not assigned by a registry.
    pub open spec fn flagged(address: IcaoAddress) -> IcaoAddress {
        IcaoAddress { address: address.address, non_icao: true }
    }

    /// The squitter that the thirteen bytes `rest` spell out after a first
    /// byte with the low three bits `bits_6_to_8`, the code format. Code
    /// formats 0, 1 and 6 carry ADS-B, 2, 3 and 5 TIS-B; under 1 and 5 the
    /// announced address is marked as not assigned by a registry.
    pub open spec fn of_rest(rest: Seq<u8>, bits_6_to_8: u8) -> Result<Self, DecodeError> {
        if bits_6_to_8 == 0 {
            match adsb_parts(rest) {
                Ok(parts) => Ok(
                    ExtendedSquitterNonTransponder::AdsbWithIcaoAddress {
                        address_announced: parts.0,
                        adsb_message: parts.1,
                        parity_interrogator: parts.2,
                    },
                ),
                Err(e) => Err(e),
            }
        } else if bits_6_to_8 == 1 {
            match adsb_parts(rest) {
                Ok(parts) => Ok(
                    ExtendedSquitterNonTransponder::AdsbWithNonIcaoAddress {
                        address_announced: Self::flagged(parts.0),
                        adsb_message: parts.1,
                        parity_interrogator: parts.2,
                    },
                ),
                Err(e) => Err(e),
            }
        } else if bits_6_to_8 == 2 {
            Ok(
                ExtendedSquitterNonTransponder::TisbWithIcaoAddress1 {
                    address_announced: tisb_parts(rest).0,
                    tisb_message: tisb_parts(rest).1,
                    parity_interrogator: tisb_parts(rest).2,
                },
            )
        } else if bits_6_to_8 == 3 {
            Ok(
                ExtendedSquitterNonTransponder::TisbWithIcaoAddress2 {
                    address_announced: tisb_parts(rest).0,
                    tisb_message: tisb_parts(rest).1,
                    parity_interrogator: tisb_parts(rest).2,
                },
            )
        } else if bits_6_to_8 == 4 {
            Ok(
                ExtendedSquitterNonTransponder::TisbAndAdsrManagement {
                    data: array10(rest),
                    parity_interrogator: Parity(array3(rest.skip(10))),
                },
            )
        } else if bits_6_to_8 == 5 {
            Ok(
                ExtendedSquitterNonTransponder::TisbWithNonIcaoAddress {
                    address_announced: Self::flagged(tisb_parts(rest).0),
                    tisb_message: tisb_parts(rest).1,
                    parity_interrogator: tisb_parts(rest).2,
                },
            )
        } else if bits_6_to_8 == 6 {
            match adsb_parts(rest) {
                Ok(parts) => Ok(
                    ExtendedSquitterNonTransponder::AdsrRebroadcast {
                        address_announced: parts.0,
                        adsb_message: parts.1,
                        parity_interrogator: parts.2,
                    },
                ),
                Err(e) => Err(e),
            }
        } else {
            Ok(
                ExtendedSquitterNonTransponder::Reserved {
                    data: array10(rest),
                    parity_interrogator: Parity(array3(rest.skip(10))),
                },
            )
        }
    }

    /// The code format that the variant stands for.
    pub fn code_format(&self) -> (r: CodeFormat)
        ensures
            r == self.code_format_of(),
            r.wf(),
    {
        match self {
            ExtendedSquitterNonTransponder::AdsbWithIcaoAddress { .. } => CodeFormat(
                CodeFormat::ADSB_WITH_ICAO_ADDRESS,
            ),
            ExtendedSquitterNonTransponder::AdsbWithNonIcaoAddress { .. } => CodeFormat(
                CodeFormat::ADSB_WITH_NON_ICAO_ADDRESS,
            ),
            ExtendedSquitterNonTransponder::TisbWithIcaoAddress1 { .. } => CodeFormat(
                CodeFormat::TISB_WITH_ICAO_ADDRESS1,
            ),
            ExtendedSquitterNonTransponder::TisbWithIcaoAddress2 { .. } => CodeFormat(
                CodeFormat::TISB_WITH_ICAO_ADDRESS2,
            ),
            ExtendedSquitterNonTransponder::TisbAndAdsrManagement { .. } => CodeFormat(
                CodeFormat::TISB_AND_ADSR_MANAGEMENT,
            ),
            ExtendedSquitterNonTransponder::TisbWithNonIcaoAddress { .. } => CodeFormat(
                CodeFormat::TISB_WITH_NON_ICAO_ADDRESS,
            ),
            ExtendedSquitterNonTransponder::AdsrRebroadcast { .. } => CodeFormat(
                CodeFormat::ADSB_REBROADCAST,
            ),
            ExtendedSquitterNonTransponder::Reserved { .. } => CodeFormat(CodeFormat::RESERVED),
        }
    }

    /// Reads the thirteen bytes after the first byte of the frame. Where
    /// an ME field holds no ADS-B message, the last three stay unread.
    pub fn decode(buffer: &mut Bytes, bits_6_to_8: u8) -> (r: Result<Self, DecodeError>)
        requires
            unread(*old(buffer)).len() >= 13,
            bits_6_to_8 < 8,
        ensures
            r == Self::of_rest(unread(*old(buffer)), bits_6_to_8),
            r matches Ok(squitter) ==> squitter.wf() && squitter.code_format_of() == CodeFormat(
                bits_6_to_8,
            ),
            r is Ok ==> unread(*final(buffer)) == unread(*old(buffer)).skip(13),
            r is Err ==> unread(*final(buffer)) == unread(*old(buffer)).skip(10),
    {
        match bits_6_to_8 {
            0 => match decode_adsb_parts(buffer) {
                Ok((address_announced, adsb_message, parity_interrogator)) => Ok(
                    ExtendedSquitterNonTransponder::AdsbWithIcaoAddress {
                        address_announced,
                        adsb_message,
                        parity_interrogator,
                    },
                ),
                Err(e) => Err(e),
            },
            1 => match decode_adsb_parts(buffer) {
                Ok((address_announced, adsb_message, parity_interrogator)) => Ok(
                    ExtendedSquitterNonTransponder::AdsbWithNonIcaoAddress {
                        address_announced: address_announced.with_non_icao_flag(),
                        adsb_message,
                        parity_interrogator,
                    },
                ),
                Err(e) => Err(e),
            },
            2 => {
                let (address_announced, tisb_message, parity_interrogator) = decode_tisb_parts(
                    buffer,
                );
                Ok(
                    ExtendedSquitterNonTransponder::TisbWithIcaoAddress1 {
                        address_announced,
                        tisb_message,
                        parity_interrogator,
                    },
                )
            },
            3 => {
                let (address_announced, tisb_message, parity_interrogator) = decode_tisb_parts(
                    buffer,
                );
                Ok(
                    ExtendedSquitterNonTransponder::TisbWithIcaoAddress2 {
                        address_announced,
                        tisb_message,
                        parity_interrogator,
                    },
                )
            },
            4 => {
                let data: [u8; 10] = read10(buffer);
                let parity_interrogator = Parity(read3(buffer));
                assert(unread(*buffer) =~= unread(*old(buffer)).skip(13));
                Ok(
                    ExtendedSquitterNonTransponder::TisbAndAdsrManagement {
                        data,
                        parity_interrogator,
                    },
                )
            },
            5 => {
                let (address_announced, tisb_message, parity_interrogator) = decode_tisb_parts(
                    buffer,
                );
                Ok(
                    ExtendedSquitterNonTransponder::TisbWithNonIcaoAddress {
                        address_announced: address_announced.with_non_icao_flag(),
                        tisb_message,
                        parity_interrogator,
                    },
                )
            },
            6 => match decode_adsb_parts(buffer) {
                Ok((address_announced, adsb_message, parity_interrogator)) => Ok(
                    ExtendedSquitterNonTransponder::AdsrRebroadcast {
                        address_announced,
                        adsb_message,
                        parity_interrogator,
                    },
                ),
                Err(e) => Err(e),
            },
            _ => {
                let data: [u8; 10] = read10(buffer);
                let parity_interrogator = Parity(read3(buffer));
                assert(unread(*buffer) =~= unread(*old(buffer)).skip(13));
                Ok(ExtendedSquitterNonTransponder::Reserved { data, parity_interrogator })
            },
        }
    }
}

/// A military extended squitter (downlink format 19).
#[derive(Clone, Copy, Debug, PartialEq, Eq)]
pub enum MilitaryExtendedSquitter {
    /// Application field 0: an ADS-B message.
    Adsb { address_announced: IcaoAddress, adsb_message: Message, parity_interrogator: Parity },
    /// Application fields 1 to 7, which are kept for military use: the
    /// thirteen bytes after the first as they came.
    Reserved { application_field: u8, data: [u8; 13] },
}

impl MilitaryExtendedSquitter {
    /// Every code is as wide as its field, the application field aside,
    /// which is as wide as what the caller handed in.
    pub open spec fn wf(&self) -> bool {
        self matches MilitaryExtendedSquitter::Adsb { address_announced, adsb_message, .. }
            ==> address_announced.wf() && adsb_message.wf()
    }

    /// The squitter that the thirteen bytes `rest` spell out after a first
    /// byte with the low three bits `bits_6_to_8`, the application field.
    pub open spec fn of_rest(rest: Seq<u8>, bits_6_to_8: u8) -> Result<Self, DecodeError> {
        if bits_6_to_8 == 0 {
            match adsb_parts(rest) {
                Ok(parts) => Ok(
                    MilitaryExtendedSquitter::Adsb {
                        address_announced: parts.0,
                        adsb_message: parts.1,
                        parity_interrogator: parts.2,
                    },
                ),
                Err(e) => Err(e),
            }
        } else {
            Ok(
                MilitaryExtendedSquitter::Reserved {
                    application_field: bits_6_to_8,
                    data: array13(rest),
                },
            )
        }
    }

    /// Reads the thirteen bytes after the first byte of the frame. Where
    /// the ME field holds no ADS-B message, the last three stay unread.
    pub fn decode(buffer: &mut Bytes, bits_6_to_8: u8) -> (r: Result<Self, DecodeError>)
        requires
            unread(*old(buffer)).len() >= 13,
        ensures
            r == Self::of_rest(unread(*old(buffer)), bits_6_to_8),
            r matches Ok(squitter) ==> squitter.wf(),
            r is Ok ==> unread(*final(buffer)) == unread(*old(buffer)).skip(13),
            r is Err ==> unread(*final(buffer)) == unread(*old(buffer)).skip(10),
    {
        if bits_6_to_8 == 0 {
            match decode_adsb_parts(buffer) {
                Ok((address_announced, adsb_message, parity_interrogator)) => Ok(
                    MilitaryExtendedSquitter::Adsb {
                        address_announced,
                        adsb_message,
                        parity_interrogator,
                    },
                ),
                Err(e) => Err(e),
            }
        } else {
            Ok(
                MilitaryExtendedSquitter::Reserved {
                    application_field: bits_6_to_8,
                    data: read13(buffer),
                },
            )
        }
    }
}

/// A Comm-D frame. Only its first two bits say what it is; the rest is kept
/// as it came.
#[derive(Clone, Copy, Debug, PartialEq, Eq)]
pub struct CommD {
    /// The low six bits of the first byte.
    pub control: u8,
    /// The three bytes after the first.
    pub data: [u8; 3],
    pub address_parity: Parity,
}

impl CommD {
    /// The frame that the six bytes `rest` spell out after a first byte
    /// with the low six bits `control`.
    pub open spec fn of_rest(rest: Seq<u8>, control: u8) -> Self {
        CommD { control, data: array3(rest), address_parity: Parity(array3(rest.skip(3))) }
    }

    /// Reads the six bytes after the first byte of the frame.
    pub fn decode(buffer: &mut Bytes, control: u8) -> (r: Self)
        requires
            unread(*old(buffer)).len() >= 6,
        ensures
            r == Self::of_rest(unread(*old(buffer)), control),
            unread(*final(buffer)) == unread(*old(buffer)).skip(6),
    {
        let data: [u8; 3] = read3(buffer);
        let address_parity = Parity(read3(buffer));
        assert(unread(*buffer) =~= unread(*old(buffer)).skip(6));
        Self { control, data, address_parity }
    }
}

} // verus!
