//! The frame as a whole: telling the downlink format and decoding what it
//! calls for.

use vstd::prelude::*;
use vstd::arithmetic::power2::lemma2_to64;
use bytes::Bytes;
use crate::bits::bits;
use crate::bits::lemma_bits_bound;
use crate::bits::lemma_bits_in_byte;
use crate::bits::lemma_bits_same;
use crate::bits::read_u8;
use crate::buffer::copy_from_slice;
use crate::buffer::remaining;
use crate::buffer::try_get_u8;
use crate::buffer::unread;
use crate::mode_s::squitter::AllCallReply;
use crate::mode_s::squitter::CommD;
use crate::mode_s::squitter::ExtendedSquitter;
use crate::mode_s::squitter::ExtendedSquitterNonTransponder;
use crate::mode_s::squitter::MilitaryExtendedSquitter;
use crate::mode_s::surveillance::CommBAltitudeReply;
use crate::mode_s::surveillance::CommBIdentityReply;
use crate::mode_s::surveillance::LongAirAirSurveillance;
use crate::mode_s::surveillance::ShortAirAirSurveillance;
use crate::mode_s::surveillance::SurveillanceAltitudeReply;
use crate::mode_s::surveillance::SurveillanceIdentityReply;
use crate::mode_s::DecodeError;
use crate::mode_s::LENGTH_LONG;
use crate::mode_s::LENGTH_SHORT;

verus! {

/// The downlink format: what kind of frame the first five bits announce.
///
/// Comm-D is the exception. It is announced by the first two bits alone,
/// which are both set, so the eight 5-bit values from 24 on all stand for
/// it.
#[derive(Clone, Copy, Debug, PartialEq, Eq, Structural, PartialOrd, Ord, Hash)]
pub enum DownlinkFormat {
    ShortAirAirSurveillance,
    SurveillanceAltitudeReply,
    SurveillanceIdentityReply,
    AllCallReply,
    LongAirAirSurveillance,
    ExtendedSquitter,
    ExtendedSquitterNonTransponder,
    MilitaryExtendedSquitter,
    CommBAltitudeReply,
    CommBIdentityReply,
    CommD,
}

impl DownlinkFormat {
    /// The downlink format with the 5-bit value `byte`: 0, 4, 5, 11 and 16
    /// to 21 stand for one format each and 24 to 31 for Comm-D. Every other
    /// value is no downlink format.
    pub open spec fn of_u8(byte: u8) -> Result<Self, DecodeError> {
        if 24 <= byte <= 31 {
            Ok(DownlinkFormat::CommD)
        } else if byte == 0 {
            Ok(DownlinkFormat::ShortAirAirSurveillance)
        } else if byte == 4 {
            Ok(DownlinkFormat::SurveillanceAltitudeReply)
        } else if byte == 5 {
            Ok(DownlinkFormat::SurveillanceIdentityReply)
        } else if byte == 11 {
            Ok(DownlinkFormat::AllCallReply)
        } else if byte == 16 {
            Ok(DownlinkFormat::LongAirAirSurveillance)
        } else if byte == 17 {
            Ok(DownlinkFormat::ExtendedSquitter)
        } else if byte == 18 {
            Ok(DownlinkFormat::ExtendedSquitterNonTransponder)
        } else if byte == 19 {
            Ok(DownlinkFormat::MilitaryExtendedSquitter)
        } else if byte == 20 {
            Ok(DownlinkFormat::CommBAltitudeReply)
        } else if byte == 21 {
            Ok(DownlinkFormat::CommBIdentityReply)
        } else {
            Err(DecodeError::InvalidDf { value: byte })
        }
    }

    /// Whether a frame of this format is long.
    pub open spec fn is_long(&self) -> bool {
        match *self {
            DownlinkFormat::LongAirAirSurveillance => true,
            DownlinkFormat::ExtendedSquitter => true,
            DownlinkFormat::ExtendedSquitterNonTransponder => true,
            DownlinkFormat::MilitaryExtendedSquitter => true,
            DownlinkFormat::CommBAltitudeReply => true,
            DownlinkFormat::CommBIdentityReply => true,
            _ => false,
        }
    }

    /// The length in bytes of a frame of this format.
    pub open spec fn spec_frame_length(&self) -> usize {
        if self.is_long() {
            LENGTH_LONG
        } else {
            LENGTH_SHORT
        }
    }

    /// The downlink format with the 5-bit value `byte`.
    pub fn from_u8(byte: u8) -> (r: Result<Self, DecodeError>)
        ensures
            r == Self::of_u8(byte),
    {
        if 24 <= byte && byte <= 31 {
            Ok(DownlinkFormat::CommD)
        } else {
            match byte {
                0 => Ok(DownlinkFormat::ShortAirAirSurveillance),
                4 => Ok(DownlinkFormat::SurveillanceAltitudeReply),
                5 => Ok(DownlinkFormat::SurveillanceIdentityReply),
                11 => Ok(DownlinkFormat::AllCallReply),
                16 => Ok(DownlinkFormat::LongAirAirSurveillance),
                17 => Ok(DownlinkFormat::ExtendedSquitter),
                18 => Ok(DownlinkFormat::ExtendedSquitterNonTransponder),
                19 => Ok(DownlinkFormat::MilitaryExtendedSquitter),
                20 => Ok(DownlinkFormat::CommBAltitudeReply),
                21 => Ok(DownlinkFormat::CommBIdentityReply),
                _ => Err(DecodeError::InvalidDf { value: byte }),
            }
        }
    }

    /// The length in bytes of a frame of this format.
    #[verifier::when_used_as_spec(spec_frame_length)]
    pub fn frame_length(&self) -> (r: usize)
        ensures
            r == self.spec_frame_length(),
            r == LENGTH_SHORT || r == LENGTH_LONG,
    {
        match self {
            DownlinkFormat::ShortAirAirSurveillance => LENGTH_SHORT,
            DownlinkFormat::SurveillanceAltitudeReply => LENGTH_SHORT,
            DownlinkFormat::SurveillanceIdentityReply => LENGTH_SHORT,
            DownlinkFormat::AllCallReply => LENGTH_SHORT,
            DownlinkFormat::LongAirAirSurveillance => LENGTH_LONG,
            DownlinkFormat::ExtendedSquitter => LENGTH_LONG,
            DownlinkFormat::ExtendedSquitterNonTransponder => LENGTH_LONG,
            DownlinkFormat::MilitaryExtendedSquitter => LENGTH_LONG,
            DownlinkFormat::CommBAltitudeReply => LENGTH_LONG,
            DownlinkFormat::CommBIdentityReply => LENGTH_LONG,
            DownlinkFormat::CommD => LENGTH_SHORT,
        }
    }
}

/// A decoded frame.
#[derive(Clone, Copy, Debug, PartialEq, Eq)]
pub enum Frame {
    ShortAirAirSurveillance(ShortAirAirSurveillance),
    SurveillanceAltitudeReply(SurveillanceAltitudeReply),
    SurveillanceIdentityReply(SurveillanceIdentityReply),
    AllCallReply(AllCallReply),
    LongAirAirSurveillance(LongAirAirSurveillance),
    ExtendedSquitter(ExtendedSquitter),
    ExtendedSquitterNonTransponder(ExtendedSquitterNonTransponder),
    MilitaryExtendedSquitter(MilitaryExtendedSquitter),
    CommBAltitudeReply(CommBAltitudeReply),
    CommBIdentityReply(CommBIdentityReply),
    CommD(CommD),
}

impl Frame {
    /// The downlink format of the frame.
    pub open spec fn spec_downlink_format(&self) -> DownlinkFormat {
        match *self {
            Frame::ShortAirAirSurveillance(_) => DownlinkFormat::ShortAirAirSurveillance,
            Frame::SurveillanceAltitudeReply(_) => DownlinkFormat::SurveillanceAltitudeReply,
            Frame::SurveillanceIdentityReply(_) => DownlinkFormat::SurveillanceIdentityReply,
            Frame::AllCallReply(_) => DownlinkFormat::AllCallReply,
            Frame::LongAirAirSurveillance(_) => DownlinkFormat::LongAirAirSurveillance,
            Frame::ExtendedSquitter(_) => DownlinkFormat::ExtendedSquitter,
            Frame::ExtendedSquitterNonTransponder(_) => {
                DownlinkFormat::ExtendedSquitterNonTransponder
            },
            Frame::MilitaryExtendedSquitter(_) => DownlinkFormat::MilitaryExtendedSquitter,
            Frame::CommBAltitudeReply(_) => DownlinkFormat::CommBAltitudeReply,
            Frame::CommBIdentityReply(_) => DownlinkFormat::CommBIdentityReply,
            Frame::CommD(_) => DownlinkFormat::CommD,
        }
    }

    /// The length of the frame in bytes.
    pub open spec fn spec_length(&self) -> usize {
        self.spec_downlink_format().spec_frame_length()
    }

    /// Every code in the frame is as wide as its field.
    pub open spec fn wf(&self) -> bool {
        match *self {
            Frame::ShortAirAirSurveillance(f) => f.wf(),
            Frame::SurveillanceAltitudeReply(f) => f.wf() && f.flight_status.wf(),
            Frame::SurveillanceIdentityReply(f) => f.wf() && f.flight_status.wf(),
            Frame::AllCallReply(f) => f.capability.wf() && f.address_announced.wf(),
            Frame::LongAirAirSurveillance(f) => f.wf(),
            Frame::ExtendedSquitter(f) => f.wf() && f.capabilities.wf(),
            Frame::ExtendedSquitterNonTransponder(f) => f.wf(),
            Frame::MilitaryExtendedSquitter(f) => f.wf(),
            Frame::CommBAltitudeReply(f) => f.wf() && f.flight_status.wf(),
            Frame::CommBIdentityReply(f) => f.wf() && f.flight_status.wf(),
            Frame::CommD(f) => f.control < 64,
        }
    }

    /// The frame of format `format` that the bytes `rest` spell out after
    /// a first byte with the low three bits `bits_6_to_8` and the low six
    /// bits `bits_3_to_8`.
    pub open spec fn of_format(
        format: DownlinkFormat,
        rest: Seq<u8>,
        bits_6_to_8: u8,
        bits_3_to_8: u8,
    ) -> Result<Self, DecodeError> {
        match format {
            DownlinkFormat::ShortAirAirSurveillance => Ok(
                Frame::ShortAirAirSurveillance(ShortAirAirSurveillance::of_rest(rest, bits_6_to_8)),
            ),
            DownlinkFormat::SurveillanceAltitudeReply => Ok(
                Frame::SurveillanceAltitudeReply(
                    SurveillanceAltitudeReply::of_rest(rest, bits_6_to_8),
                ),
            ),
            DownlinkFormat::SurveillanceIdentityReply => Ok(
                Frame::SurveillanceIdentityReply(
                    SurveillanceIdentityReply::of_rest(rest, bits_6_to_8),
                ),
            ),
            DownlinkFormat::AllCallReply => Ok(
                Frame::AllCallReply(AllCallReply::of_rest(rest, bits_6_to_8)),
            ),
            DownlinkFormat::LongAirAirSurveillance => Ok(
                Frame::LongAirAirSurveillance(LongAirAirSurveillance::of_rest(rest, bits_6_to_8)),
            ),
            DownlinkFormat::ExtendedSquitter => match ExtendedSquitter::of_rest(rest, bits_6_to_8) {
                Ok(f) => Ok(Frame::ExtendedSquitter(f)),
                Err(e) => Err(e),
            },
            DownlinkFormat::ExtendedSquitterNonTransponder => {
                match ExtendedSquitterNonTransponder::of_rest(rest, bits_6_to_8) {
                    Ok(f) => Ok(Frame::ExtendedSquitterNonTransponder(f)),
                    Err(e) => Err(e),
                }
            },
            DownlinkFormat::MilitaryExtendedSquitter => match MilitaryExtendedSquitter::of_rest(
                rest,
                bits_6_to_8,
            ) {
                Ok(f) => Ok(Frame::MilitaryExtendedSquitter(f)),
                Err(e) => Err(e),
            },
            DownlinkFormat::CommBAltitudeReply => Ok(
                Frame::CommBAltitudeReply(CommBAltitudeReply::of_rest(rest, bits_6_to_8)),
            ),
            DownlinkFormat::CommBIdentityReply => Ok(
                Frame::CommBIdentityReply(CommBIdentityReply::of_rest(rest, bits_6_to_8)),
            ),
            DownlinkFormat::CommD => Ok(Frame::CommD(CommD::of_rest(rest, bits_3_to_8))),
        }
    }

    /// The frame that `bytes` begin with, or why they begin with none.
    ///
    /// With no byte there is no downlink format. The first five bits must
    /// be a downlink format, and the bytes at least as many as a frame of
    /// that format has. What lies behind the frame has no part in it.
    pub open spec fn of_bytes(bytes: Seq<u8>) -> Result<Self, DecodeError> {
        if bytes.len() == 0 {
            Err(DecodeError::NoDf)
        } else {
            match DownlinkFormat::of_u8(bits(bytes, 0, 5) as u8) {
                Err(e) => Err(e),
                Ok(format) => if bytes.len() < format.spec_frame_length() {
                    Err(
                        DecodeError::Truncated {
                            expected: format.spec_frame_length(),
                            actual: bytes.len() as usize,
                        },
                    )
                } else {
                    Self::of_format(
                        format,
                        bytes.skip(1),
                        bits(bytes, 5, 3) as u8,
                        bits(bytes, 2, 6) as u8,
                    )
                },
            }
        }
    }

    /// How many of `bytes` decoding reads: the whole frame where there is
    /// one; nothing of an empty buffer; the first byte where it is no
    /// downlink format or the bytes are too few; and where an ADS-B message
    /// holds no callsign, all up to the end of that message.
    pub open spec fn consumed(bytes: Seq<u8>) -> nat {
        match Self::of_bytes(bytes) {
            Ok(frame) => frame.spec_length() as nat,
            Err(DecodeError::NoDf) => 0,
            Err(DecodeError::InvalidDf { .. }) => 1,
            Err(DecodeError::Truncated { .. }) => 1,
            Err(DecodeError::InvalidCallsign { .. }) => 11,
        }
    }

    /// Decodes the frame at the head of `buffer`.
    ///
    /// On success the buffer is left behind the frame. On failure it is
    /// left behind the last byte that was read, as [`Frame::consumed`]
    /// tells.
    pub fn decode(buffer: &mut Bytes) -> (r: Result<Self, DecodeError>)
        ensures
            r == Self::of_bytes(unread(*old(buffer))),
            r matches Ok(frame) ==> frame.wf(),
            unread(*final(buffer)) == unread(*old(buffer)).skip(
                Self::consumed(unread(*old(buffer))) as int,
            ),
    {
        let ghost bytes = unread(*old(buffer));
        let buffer_length: usize = remaining(buffer);
        let byte_0: u8 = match try_get_u8(buffer) {
            Ok(byte) => byte,
            Err(_) => {
                assert(bytes.skip(0) =~= bytes);
                return Err(DecodeError::NoDf);
            },
        };
        let head: [u8; 1] = [byte_0];
        let bits_1_to_5: u8 = read_u8(&head, 0, 5);
        let bits_6_to_8: u8 = read_u8(&head, 5, 3);
        proof {
            lemma2_to64();
            lemma_bits_same(head@, 0, bytes, 0, 5);
            lemma_bits_same(head@, 5, bytes, 5, 3);
        }
        let format = match DownlinkFormat::from_u8(bits_1_to_5) {
            Ok(format) => format,
            Err(e) => {
                return Err(e);
            },
        };
        let expected_length: usize = format.frame_length();
        if buffer_length < expected_length {
            return Err(DecodeError::Truncated { expected: expected_length, actual: buffer_length });
        }
        let ghost rest = bytes.skip(1);
        match format {
            DownlinkFormat::ShortAirAirSurveillance => {
                let frame = ShortAirAirSurveillance::decode(buffer, bits_6_to_8);
                assert(rest.skip(6) =~= bytes.skip(7));
                Ok(Frame::ShortAirAirSurveillance(frame))
            },
            DownlinkFormat::SurveillanceAltitudeReply => {
                let frame = SurveillanceAltitudeReply::decode(buffer, bits_6_to_8);
                assert(rest.skip(6) =~= bytes.skip(7));
                Ok(Frame::SurveillanceAltitudeReply(frame))
            },
            DownlinkFormat::SurveillanceIdentityReply => {
                let frame = SurveillanceIdentityReply::decode(buffer, bits_6_to_8);
                assert(rest.skip(6) =~= bytes.skip(7));
                Ok(Frame::SurveillanceIdentityReply(frame))
            },
            DownlinkFormat::AllCallReply => {
                let frame = AllCallReply::decode(buffer, bits_6_to_8);
                assert(rest.skip(6) =~= bytes.skip(7));
                Ok(Frame::AllCallReply(frame))
            },
            DownlinkFormat::LongAirAirSurveillance => {
                let frame = LongAirAirSurveillance::decode(buffer, bits_6_to_8);
                assert(rest.skip(13) =~= bytes.skip(14));
                Ok(Frame::LongAirAirSurveillance(frame))
            },
            DownlinkFormat::ExtendedSquitter => {
                let decoded = ExtendedSquitter::decode(buffer, bits_6_to_8);
                assert(rest.skip(13) =~= bytes.skip(14) && rest.skip(10) =~= bytes.skip(11));
                match decoded {
                    Ok(frame) => Ok(Frame::ExtendedSquitter(frame)),
                    Err(e) => Err(e),
                }
            },
            DownlinkFormat::ExtendedSquitterNonTransponder => {
                let decoded = ExtendedSquitterNonTransponder::decode(buffer, bits_6_to_8);
                assert(rest.skip(13) =~= bytes.skip(14) && rest.skip(10) =~= bytes.skip(11));
                match decoded {
                    Ok(frame) => Ok(Frame::ExtendedSquitterNonTransponder(frame)),
                    Err(e) => Err(e),
                }
            },
            DownlinkFormat::MilitaryExtendedSquitter => {
                let decoded = MilitaryExtendedSquitter::decode(buffer, bits_6_to_8);
                assert(rest.skip(13) =~= bytes.skip(14) && rest.skip(10) =~= bytes.skip(11));
                match decoded {
                    Ok(frame) => Ok(Frame::MilitaryExtendedSquitter(frame)),
                    Err(e) => Err(e),
                }
            },
            DownlinkFormat::CommBAltitudeReply => {
                let frame = CommBAltitudeReply::decode(buffer, bits_6_to_8);
                assert(rest.skip(13) =~= bytes.skip(14));
                Ok(Frame::CommBAltitudeReply(frame))
            },
            DownlinkFormat::CommBIdentityReply => {
                let frame = CommBIdentityReply::decode(buffer, bits_6_to_8);
                assert(rest.skip(13) =~= bytes.skip(14));
                Ok(Frame::CommBIdentityReply(frame))
            },
            DownlinkFormat::CommD => {
                let control: u8 = read_u8(&head, 2, 6);
                proof {
                    lemma_bits_same(head@, 2, bytes, 2, 6);
                }
                let frame = CommD::decode(buffer, control);
                assert(rest.skip(6) =~= bytes.skip(7));
                Ok(Frame::CommD(frame))
            },
        }
    }

    /// Decodes the frame that `bytes` begin with, and tells how many of
    /// the bytes that took: what [`Frame::decode`] would have read of a
    /// buffer that holds them. What lies behind the frame is not looked
    /// at.
    pub fn decode_slice(bytes: &[u8]) -> (r: (Result<Self, DecodeError>, usize))
        ensures
            r.0 == Self::of_bytes(bytes@),
            r.0 matches Ok(frame) ==> frame.wf(),
            r.1 == Self::consumed(bytes@),
            r.1 <= bytes.len(),
    {
        let mut buffer = copy_from_slice(bytes);
        let decoded = Self::decode(&mut buffer);
        let left: usize = remaining(&buffer);
        proof {
            Self::lemma_consumed_within(bytes@);
        }
        (decoded, bytes.len() - left)
    }

    /// Decoding reads no more than there is.
    pub proof fn lemma_consumed_within(bytes: Seq<u8>)
        ensures
            Self::consumed(bytes) <= bytes.len(),
    {
        Self::lemma_failures(bytes);
    }

    /// The downlink format of the frame.
    #[verifier::when_used_as_spec(spec_downlink_format)]
    pub fn downlink_format(&self) -> (r: DownlinkFormat)
        ensures
            r == self.spec_downlink_format(),
    {
        match self {
            Frame::ShortAirAirSurveillance(_) => DownlinkFormat::ShortAirAirSurveillance,
            Frame::SurveillanceAltitudeReply(_) => DownlinkFormat::SurveillanceAltitudeReply,
            Frame::SurveillanceIdentityReply(_) => DownlinkFormat::SurveillanceIdentityReply,
            Frame::AllCallReply(_) => DownlinkFormat::AllCallReply,
            Frame::LongAirAirSurveillance(_) => DownlinkFormat::LongAirAirSurveillance,
            Frame::ExtendedSquitter(_) => DownlinkFormat::ExtendedSquitter,
            Frame::ExtendedSquitterNonTransponder(_) => {
                DownlinkFormat::ExtendedSquitterNonTransponder
            },
            Frame::MilitaryExtendedSquitter(_) => DownlinkFormat::MilitaryExtendedSquitter,
            Frame::CommBAltitudeReply(_) => DownlinkFormat::CommBAltitudeReply,
            Frame::CommBIdentityReply(_) => DownlinkFormat::CommBIdentityReply,
            Frame::CommD(_) => DownlinkFormat::CommD,
        }
    }

    /// The length of the frame in bytes.
    #[verifier::when_used_as_spec(spec_length)]
    pub fn length(&self) -> (r: usize)
        ensures
            r == self.spec_length(),
            r == LENGTH_SHORT || r == LENGTH_LONG,
    {
        self.downlink_format().frame_length()
    }

    /// Decoding fails in four ways and no other, and each has its exact
    /// cause. A buffer of a whole frame's length, 7 bytes for a short
    /// format and 14 for any, is never too short, so on such a buffer only
    /// a first byte that is no downlink format or a callsign that is none
    /// can stand in the way.
    pub proof fn lemma_failures(bytes: Seq<u8>)
        ensures
            Self::of_bytes(bytes) == Err::<Frame, DecodeError>(DecodeError::NoDf) <==> bytes.len()
                == 0,
            Self::of_bytes(bytes) matches Err(DecodeError::InvalidDf { value }) ==> bytes.len() > 0
                && value == bits(bytes, 0, 5) && DownlinkFormat::of_u8(value) is Err,
            bytes.len() > 0 && DownlinkFormat::of_u8(bits(bytes, 0, 5) as u8) is Err
                ==> Self::of_bytes(bytes) == Err::<Frame, DecodeError>(
                DecodeError::InvalidDf { value: bits(bytes, 0, 5) as u8 },
            ),
            Self::of_bytes(bytes) matches Err(DecodeError::Truncated { expected, actual })
                ==> actual == bytes.len() && actual < expected && DownlinkFormat::of_u8(
                bits(bytes, 0, 5) as u8,
            ) is Ok && expected == DownlinkFormat::of_u8(
                bits(bytes, 0, 5) as u8,
            ).unwrap().spec_frame_length(),
            Self::of_bytes(bytes) matches Err(DecodeError::InvalidCallsign { .. }) ==> bytes.len()
                >= 14 && 17 <= bits(bytes, 0, 5) <= 19,
            bytes.len() >= 14 ==> !(Self::of_bytes(bytes) is Err && Self::of_bytes(bytes)->Err_0
                is Truncated),
            bytes.len() >= 7 ==> Self::of_bytes(bytes) != Err::<Frame, DecodeError>(
                DecodeError::NoDf,
            ),
    {
        lemma2_to64();
        lemma_bits_bound(bytes, 0, 5);
    }

    /// A decoded frame has the downlink format that the first five bits
    /// announce and the length of that format, which is 7 or 14 bytes; the
    /// buffer held at least that many bytes, and decoding read exactly
    /// those.
    pub proof fn lemma_length(bytes: Seq<u8>)
        ensures
            Self::of_bytes(bytes) matches Ok(frame) ==> {
                &&& DownlinkFormat::of_u8(bits(bytes, 0, 5) as u8) == Ok::<
                    DownlinkFormat,
                    DecodeError,
                >(frame.spec_downlink_format())
                &&& frame.spec_length() == frame.spec_downlink_format().spec_frame_length()
                &&& frame.spec_length() == LENGTH_SHORT || frame.spec_length() == LENGTH_LONG
                &&& frame.spec_length() == LENGTH_LONG <==> frame.spec_downlink_format().is_long()
                &&& frame.spec_length() <= bytes.len()
                &&& Self::consumed(bytes) == frame.spec_length()
            },
    {
    }

    /// The frames that are kept as they came keep every byte: what a
    /// squitter of code format 4 or 7 holds is the ten bytes after the
    /// first and the three after those, and what a reserved military
    /// squitter holds is the low three bits of the first byte and the
    /// thirteen bytes after it.
    pub proof fn lemma_reserved_keeps_bytes(bytes: Seq<u8>)
        ensures
            Self::of_bytes(bytes) matches Ok(
                Frame::ExtendedSquitterNonTransponder(
                    ExtendedSquitterNonTransponder::Reserved { data, parity_interrogator },
                ),
            ) ==> data@ == bytes.subrange(1, 11) && parity_interrogator.0@ == bytes.subrange(
                11,
                14,
            ) && bytes[0] == 18 * 8 + 7,
            Self::of_bytes(bytes) matches Ok(
                Frame::ExtendedSquitterNonTransponder(
                    ExtendedSquitterNonTransponder::TisbAndAdsrManagement {
                        data,
                        parity_interrogator,
                    },
                ),
            ) ==> data@ == bytes.subrange(1, 11) && parity_interrogator.0@ == bytes.subrange(
                11,
                14,
            ) && bytes[0] == 18 * 8 + 4,
            Self::of_bytes(bytes) matches Ok(
                Frame::MilitaryExtendedSquitter(
                    MilitaryExtendedSquitter::Reserved { application_field, data },
                ),
            ) ==> data@ == bytes.subrange(1, 14) && bytes[0] == 19 * 8 + application_field,
    {
        lemma2_to64();
        if bytes.len() >= 14 {
            lemma_bits_in_byte(bytes, 0, 0, 5);
            lemma_bits_in_byte(bytes, 0, 5, 3);
            let rest = bytes.skip(1);
            assert(crate::buffer::array10(rest)@ =~= bytes.subrange(1, 11));
            assert(crate::buffer::array13(rest)@ =~= bytes.subrange(1, 14));
            assert(crate::buffer::array3(rest.skip(10))@ =~= bytes.subrange(11, 14));
        }
    }

    /// What lies behind a frame has no part in decoding it.
    pub proof fn lemma_frame_alone(bytes: Seq<u8>)
        ensures
            Self::of_bytes(bytes) matches Ok(frame) ==> Self::of_bytes(
                bytes.take(frame.spec_length() as int),
            ) == Self::of_bytes(bytes),
    {
        if let Ok(frame) = Self::of_bytes(bytes) {
            let n = frame.spec_length() as int;
            let head = bytes.take(n);
            lemma2_to64();
            lemma_bits_same(head, 0, bytes, 0, 5);
            lemma_bits_same(head, 5, bytes, 5, 3);
            lemma_bits_same(head, 2, bytes, 2, 6);
            let rest = bytes.skip(1);
            let head_rest = head.skip(1);
            assert forall|i: int| 0 <= i < n - 1 implies head_rest[i] == rest[i] by {}
            assert(head_rest.skip(3).len() == n - 4);
            assert forall|i: int| 0 <= i < n - 4 implies #[trigger] head_rest.skip(3)[i]
                == rest.skip(3)[i] by {}
            if n == 14 {
                assert forall|i: int| 0 <= i < 3 implies #[trigger] head_rest.skip(10)[i]
                    == rest.skip(10)[i] by {}
                assert(crate::buffer::array7(head_rest.skip(3)) =~= crate::buffer::array7(
                    rest.skip(3),
                ));
                assert(crate::buffer::array3(head_rest.skip(10)) =~= crate::buffer::array3(
                    rest.skip(10),
                ));
                assert(crate::buffer::array10(head_rest) =~= crate::buffer::array10(rest));
                assert(crate::buffer::array13(head_rest) =~= crate::buffer::array13(rest));
            }
            assert(crate::buffer::array3(head_rest) =~= crate::buffer::array3(rest));
            assert(crate::buffer::array3(head_rest.skip(3)) =~= crate::buffer::array3(
                rest.skip(3),
            ));
        }
    }
}

} // verus!
