//! Surface and airborne position messages (type codes 5 to 18 and 20 to
//! 22).
//!
//! With the low three bits of the type byte in front, the six bytes after
//! it are laid out as
//!
//! ```text
//! surface:   mmm mmmmSttt ttttTFll llllllll lllllllL LLLLLLLL LLLLLLLL
//! airborne:  ssA aaaaaaaa aaaaTFll llllllll lllllllL LLLLLLLL LLLLLLLL
//! ```
//!
//! `m` movement, `S` ground track valid, `t` ground track, `s`
//! surveillance status, `A` single antenna, `a` altitude, `T` time, `F`
//! format, `l` latitude, `L` longitude.

use vstd::prelude::*;
use vstd::arithmetic::power2::lemma2_to64;
use vstd::string::StringExecFns;
use bytes::Bytes;
use crate::bits::bits;
use crate::bits::flag;
use crate::bits::read_flag;
use crate::bits::read_u16;
use crate::bits::read_u8;
use crate::buffer::array6;
use crate::buffer::get_bytes;
use crate::buffer::unread;
use crate::mode_s::AltitudeUnit;
use crate::mode_s::cpr::Cpr;
use crate::mode_s::cpr::CprFormat;
use crate::mode_s::util::decode_frame_aligned_encoded_position;
use crate::mode_s::util::frame_aligned_encoded_position;
use crate::mode_s::util::gillham::decode_gillham_ac13;
use crate::mode_s::util::gillham::gillham_ac13;

verus! {

/// How a range of movement codes maps to ground speed.
#[derive(Clone, Copy, Debug, PartialEq, Eq, Structural)]
pub enum GroundSpeedQuantization {
    /// Code 0: no speed is reported.
    NotAvailable,
    /// Code 1: the aircraft stands still.
    Stopped,
    /// A code in a range of even steps: the code `encoded_base` stands for
    /// `decoded_base`, and each code above it for `decoded_step` more. Both
    /// are in eighths of a knot.
    Quantized { encoded_base: u8, decoded_base: u32, decoded_step: u32 },
    /// Code 124: above 175 knots.
    Exceeding175Kt,
    /// Codes 125 and above.
    Reserved,
}

impl GroundSpeedQuantization {
    /// The quantization table.
    ///
    /// | codes | first stands for | step |
    /// |---|---|---|
    /// | 2 to 8 | 1/8 kt | 1/8 kt |
    /// | 9 to 12 | 1 kt | 1/4 kt |
    /// | 13 to 38 | 2 kt | 1/2 kt |
    /// | 39 to 93 | 15 kt | 1 kt |
    /// | 94 to 108 | 70 kt | 2 kt |
    /// | 109 to 123 | 100 kt | 5 kt |
    pub open spec fn of_encoded_value(encoded: u8) -> Self {
        if encoded == 0 {
            GroundSpeedQuantization::NotAvailable
        } else if encoded == 1 {
            GroundSpeedQuantization::Stopped
        } else if encoded <= 8 {
            GroundSpeedQuantization::Quantized { encoded_base: 2, decoded_base: 1, decoded_step: 1 }
        } else if encoded <= 12 {
            GroundSpeedQuantization::Quantized { encoded_base: 9, decoded_base: 8, decoded_step: 2 }
        } else if encoded <= 38 {
            GroundSpeedQuantization::Quantized {
                encoded_base: 13,
                decoded_base: 16,
                decoded_step: 4,
            }
        } else if encoded <= 93 {
            GroundSpeedQuantization::Quantized {
                encoded_base: 39,
                decoded_base: 120,
                decoded_step: 8,
            }
        } else if encoded <= 108 {
            GroundSpeedQuantization::Quantized {
                encoded_base: 94,
                decoded_base: 560,
                decoded_step: 16,
            }
        } else if encoded <= 123 {
            GroundSpeedQuantization::Quantized {
                encoded_base: 109,
                decoded_base: 800,
                decoded_step: 40,
            }
        } else if encoded == 124 {
            GroundSpeedQuantization::Exceeding175Kt
        } else {
            GroundSpeedQuantization::Reserved
        }
    }

    /// The ground speed that `encoded` stands for under this entry of the
    /// table, in eighths of a knot. "Above 175 knots" counts as 175 knots.
    pub open spec fn eighth_knots(&self, encoded: u8) -> Option<u32> {
        match *self {
            GroundSpeedQuantization::NotAvailable => None,
            GroundSpeedQuantization::Stopped => Some(0),
            GroundSpeedQuantization::Quantized { encoded_base, decoded_base, decoded_step } => Some(
                ((encoded - encoded_base) * decoded_step + decoded_base) as u32,
            ),
            GroundSpeedQuantization::Exceeding175Kt => Some(1400),
            GroundSpeedQuantization::Reserved => None,
        }
    }

    /// Looks `encoded` up in the quantization table.
    pub fn from_encoded_value(encoded: u8) -> (r: Self)
        ensures
            r == Self::of_encoded_value(encoded),
    {
        match encoded {
            0 => GroundSpeedQuantization::NotAvailable,
            1 => GroundSpeedQuantization::Stopped,
            2..=8 => GroundSpeedQuantization::Quantized {
                encoded_base: 2,
                decoded_base: 1,
                decoded_step: 1,
            },
            9..=12 => GroundSpeedQuantization::Quantized {
                encoded_base: 9,
                decoded_base: 8,
                decoded_step: 2,
            },
            13..=38 => GroundSpeedQuantization::Quantized {
                encoded_base: 13,
                decoded_base: 16,
                decoded_step: 4,
            },
            39..=93 => GroundSpeedQuantization::Quantized {
                encoded_base: 39,
                decoded_base: 120,
                decoded_step: 8,
            },
            94..=108 => GroundSpeedQuantization::Quantized {
                encoded_base: 94,
                decoded_base: 560,
                decoded_step: 16,
            },
            109..=123 => GroundSpeedQuantization::Quantized {
                encoded_base: 109,
                decoded_base: 800,
                decoded_step: 40,
            },
            124 => GroundSpeedQuantization::Exceeding175Kt,
            _ => GroundSpeedQuantization::Reserved,
        }
    }
}

/// The 7-bit movement code of a surface position: quantized ground speed.
#[derive(Clone, Copy, Debug, PartialEq, Eq, Structural, PartialOrd, Ord, Hash)]
pub struct Movement(pub u8);

impl Movement {
    /// A movement code fits in 7 bits.
    pub open spec fn wf(&self) -> bool {
        self.0 < 128
    }

    /// The ground speed in eighths of a knot that the code stands for;
    /// nothing where the code reports no speed or is reserved.
    pub open spec fn eighth_knots(&self) -> Option<u32> {
        GroundSpeedQuantization::of_encoded_value(self.0).eighth_knots(self.0)
    }

    /// Wraps `byte` without looking at it.
    pub fn from_u8_unchecked(byte: u8) -> (r: Self)
        ensures
            r == Movement(byte),
    {
        Self(byte)
    }

    /// Wraps `byte` if it fits in 7 bits.
    pub fn from_u8(byte: u8) -> (r: Option<Self>)
        ensures
            r == (if byte < 128 {
                Some(Movement(byte))
            } else {
                None
            }),
    {
        if byte < 128 {
            Some(Self(byte))
        } else {
            None
        }
    }

    pub fn as_u8(&self) -> (r: u8)
        ensures
            r == self.0,
    {
        self.0
    }

    /// The ground speed in eighths of a knot.
    pub fn decode_as_1_8th_kt(&self) -> (r: Option<u32>)
        ensures
            r == self.eighth_knots(),
    {
        match GroundSpeedQuantization::from_encoded_value(self.0) {
            GroundSpeedQuantization::NotAvailable => None,
            GroundSpeedQuantization::Stopped => Some(0),
            GroundSpeedQuantization::Quantized { encoded_base, decoded_base, decoded_step } => {
                let steps: u32 = (self.0 - encoded_base) as u32;
                assert(steps * decoded_step <= 127 * 40) by (nonlinear_arith)
                    requires
                        steps <= 127,
                        decoded_step <= 40,
                ;
                Some(steps * decoded_step + decoded_base)
            },
            GroundSpeedQuantization::Exceeding175Kt => Some(1400),
            GroundSpeedQuantization::Reserved => None,
        }
    }

    /// The table written out: what each code that reports a speed stands
    /// for, in eighths of a knot.
    pub proof fn lemma_eighth_knots(self)
        ensures
            self.eighth_knots() == (if self.0 == 0 || self.0 > 124 {
                None
            } else if self.0 == 1 {
                Some(0u32)
            } else if self.0 <= 8 {
                Some((self.0 - 1) as u32)
            } else if self.0 <= 12 {
                Some((2 * (self.0 - 9) + 8) as u32)
            } else if self.0 <= 38 {
                Some((4 * (self.0 - 13) + 16) as u32)
            } else if self.0 <= 93 {
                Some((8 * (self.0 - 39) + 120) as u32)
            } else if self.0 <= 108 {
                Some((16 * (self.0 - 94) + 560) as u32)
            } else if self.0 <= 123 {
                Some((40 * (self.0 - 109) + 800) as u32)
            } else {
                Some(1400u32)
            }),
    {
        let entry = GroundSpeedQuantization::of_encoded_value(self.0);
        if let GroundSpeedQuantization::Quantized { encoded_base, decoded_base, decoded_step } =
            entry {
            let steps = self.0 - encoded_base;
            if self.0 <= 8 {
                assert(steps * decoded_step == steps);
            } else if self.0 <= 12 {
                assert(steps * decoded_step == 2 * steps);
            } else if self.0 <= 38 {
                assert(steps * decoded_step == 4 * steps);
            } else if self.0 <= 93 {
                assert(steps * decoded_step == 8 * steps);
            } else if self.0 <= 108 {
                assert(steps * decoded_step == 16 * steps);
            } else {
                assert(steps * decoded_step == 40 * steps);
            }
        }
    }

    /// Within the ranges of even steps a higher code stands for a higher
    /// speed, also from one range to the next.
    pub proof fn lemma_quantization_monotonic(low: Movement, high: Movement)
        requires
            low.0 < high.0,
            GroundSpeedQuantization::of_encoded_value(low.0) is Quantized,
            GroundSpeedQuantization::of_encoded_value(high.0) is Quantized,
        ensures
            low.eighth_knots() is Some,
            high.eighth_knots() is Some,
            low.eighth_knots().unwrap() <= high.eighth_knots().unwrap(),
            low.eighth_knots().unwrap() < high.eighth_knots().unwrap(),
    {
        low.lemma_eighth_knots();
        high.lemma_eighth_knots();
    }

    /// Over all codes that report a speed, from "stopped" to "above 175
    /// knots", a higher code stands for a higher speed.
    pub proof fn lemma_speed_monotonic(low: Movement, high: Movement)
        requires
            1 <= low.0 < high.0 <= 124,
        ensures
            low.eighth_knots() is Some,
            high.eighth_knots() is Some,
            low.eighth_knots().unwrap() < high.eighth_knots().unwrap(),
    {
        low.lemma_eighth_knots();
        high.lemma_eighth_knots();
    }
}

/// The 7-bit ground track of a surface position, in steps of 360/128 of a
/// degree clockwise from north.
#[derive(Clone, Copy, Debug, PartialEq, Eq, Structural, PartialOrd, Ord, Hash)]
pub struct GroundTrack(pub u8);

impl GroundTrack {
    /// A ground track fits in 7 bits.
    pub open spec fn wf(&self) -> bool {
        self.0 < 128
    }

    /// Wraps `byte` without looking at it.
    pub fn from_u8_unchecked(byte: u8) -> (r: Self)
        ensures
            r == GroundTrack(byte),
    {
        Self(byte)
    }

    /// Wraps `byte` if it fits in 7 bits.
    pub fn from_u8(byte: u8) -> (r: Option<Self>)
        ensures
            r == (if byte < 128 {
                Some(GroundTrack(byte))
            } else {
                None
            }),
    {
        if byte < 128 {
            Some(Self(byte))
        } else {
            None
        }
    }

    pub fn as_u8(&self) -> (r: u8)
        ensures
            r == self.0,
    {
        self.0
    }
}

/// What the altitude of an airborne position was measured with.
#[derive(Clone, Copy, Debug, PartialEq, Eq, Structural, PartialOrd, Ord, Hash)]
pub enum AltitudeType {
    Barometric,
    Gnss,
}

impl AltitudeType {
    /// Whether `type_code` is that of an airborne position.
    pub open spec fn is_position_type_code(type_code: u8) -> bool {
        9 <= type_code <= 18 || 20 <= type_code <= 22
    }

    /// Type codes 9 to 18 report barometric altitude, 20 to 22 GNSS
    /// altitude.
    pub open spec fn of_type_code(type_code: u8) -> Self {
        if type_code <= 18 {
            AltitudeType::Barometric
        } else {
            AltitudeType::Gnss
        }
    }

    /// The altitude type of an airborne position with this type code.
    pub fn from_type_code(type_code: u8) -> (r: Self)
        requires
            Self::is_position_type_code(type_code),
        ensures
            r == Self::of_type_code(type_code),
    {
        if type_code <= 18 {
            AltitudeType::Barometric
        } else {
            AltitudeType::Gnss
        }
    }
}

/// The 2-bit surveillance status of an airborne position.
#[derive(Clone, Copy, Debug, PartialEq, Eq, Structural, PartialOrd, Ord, Hash)]
pub struct SurveillanceStatus(pub u8);

impl SurveillanceStatus {
    pub const NO_CONDITION: u8 = 0;

    pub const PERMANENT_ALERT: u8 = 1;

    pub const TEMPORARY_ALERT: u8 = 2;

    pub const SPI_CONDITION: u8 = 3;

    /// A surveillance status fits in 2 bits.
    pub open spec fn wf(&self) -> bool {
        self.0 < 4
    }

    /// How the status reads to a person: the name of its code.
    pub open spec fn description(&self) -> Seq<char> {
        if self.0 == Self::NO_CONDITION {
            "SurveillanceStatus::NO_CONDITION"@
        } else if self.0 == Self::PERMANENT_ALERT {
            "SurveillanceStatus::PERMANENT_ALERT"@
        } else if self.0 == Self::TEMPORARY_ALERT {
            "SurveillanceStatus::TEMPORARY_ALERT"@
        } else {
            "SurveillanceStatus::SPI_CONDITION"@
        }
    }

    /// The status as it reads to a person.
    pub fn describe(&self) -> (r: String)
        requires
            self.wf(),
        ensures
            r@ == self.description(),
    {
        if self.0 == Self::NO_CONDITION {
            String::from_str("SurveillanceStatus::NO_CONDITION")
        } else if self.0 == Self::PERMANENT_ALERT {
            String::from_str("SurveillanceStatus::PERMANENT_ALERT")
        } else if self.0 == Self::TEMPORARY_ALERT {
            String::from_str("SurveillanceStatus::TEMPORARY_ALERT")
        } else {
            String::from_str("SurveillanceStatus::SPI_CONDITION")
        }
    }

    /// Wraps `byte` without looking at it.
    pub fn from_u8_unchecked(byte: u8) -> (r: Self)
        ensures
            r == SurveillanceStatus(byte),
    {
        Self(byte)
    }

    /// Wraps `byte` if it fits in 2 bits.
    pub fn from_u8(byte: u8) -> (r: Option<Self>)
        ensures
            r == (if byte < 4 {
                Some(SurveillanceStatus(byte))
            } else {
                None
            }),
    {
        if byte < 4 {
            Some(Self(byte))
        } else {
            None
        }
    }

    pub fn as_u8(&self) -> (r: u8)
        ensures
            r == self.0,
    {
        self.0
    }
}

/// An altitude with what it was measured with. Barometric altitude is in
/// feet, GNSS altitude in metres.
#[derive(Clone, Copy, Debug, PartialEq, Eq, Structural)]
pub struct DecodedAltitude {
    pub altitude_type: AltitudeType,
    pub altitude: i32,
}

impl DecodedAltitude {
    /// The unit that `altitude` is in.
    pub fn unit(&self) -> (r: AltitudeUnit)
        ensures
            r == (match self.altitude_type {
                AltitudeType::Barometric => AltitudeUnit::Feet,
                AltitudeType::Gnss => AltitudeUnit::Meter,
            }),
    {
        match self.altitude_type {
            AltitudeType::Barometric => AltitudeUnit::Feet,
            AltitudeType::Gnss => AltitudeUnit::Meter,
        }
    }
}

/// The 12-bit altitude code of an airborne position.
#[derive(Clone, Copy, Debug, PartialEq, Eq, Structural, PartialOrd, Ord, Hash)]
pub struct AltitudeCode(pub u16);

impl AltitudeCode {
    /// An altitude code fits in 12 bits.
    pub open spec fn wf(&self) -> bool {
        self.0 < 0x1000
    }

    /// The Q bit: set where the code counts steps of 25.
    pub open spec fn q_bit(&self) -> bool {
        self.0 & 0x010 != 0
    }

    /// The code without its Q bit: the number of steps of 25.
    pub open spec fn steps_of_25(&self) -> u16 {
        ((self.0 >> 1) & 0x7F0) | (self.0 & 0x00F)
    }

    /// The code as a 13-bit Gillham word: a clear metric bit goes in
    /// between bit 6 and the bits above it.
    pub open spec fn gillham_word(&self) -> u16 {
        ((self.0 & 0xFC0) << 1) | (self.0 & 0x03F)
    }

    /// The altitude that the code stands for. The code 0 stands for none,
    /// every other code for one. With the Q bit set the altitude is 25 for
    /// each step, less 1000; with it clear the code is a Gillham word.
    pub open spec fn decoded(&self, altitude_type: AltitudeType) -> Option<DecodedAltitude> {
        if self.0 == 0 {
            None
        } else if self.q_bit() {
            Some(
                DecodedAltitude {
                    altitude_type,
                    altitude: (self.steps_of_25() * 25 - 1000) as i32,
                },
            )
        } else {
            Some(
                DecodedAltitude {
                    altitude_type,
                    altitude: (100 * gillham_ac13(self.gillham_word()) - 1200) as i32,
                },
            )
        }
    }

    /// Wraps `word` without looking at its width.
    pub fn from_u16_unchecked(word: u16) -> (r: Self)
        ensures
            r == AltitudeCode(word),
    {
        Self(word)
    }

    /// Wraps `word` if it fits in 12 bits.
    pub fn from_u16(word: u16) -> (r: Option<Self>)
        ensures
            r == (if word < 0x1000 {
                Some(AltitudeCode(word))
            } else {
                None
            }),
    {
        if word < 0x1000 {
            Some(Self(word))
        } else {
            None
        }
    }

    pub fn as_u16(&self) -> (r: u16)
        ensures
            r == self.0,
    {
        self.0
    }

    /// The altitude that the code stands for.
    pub fn decode(&self, altitude_type: AltitudeType) -> (r: Option<DecodedAltitude>)
        ensures
            r == self.decoded(altitude_type),
            r is None <==> self.0 == 0,
            r matches Some(d) ==> {
                &&& d.altitude_type == altitude_type
                &&& self.q_bit() ==> -1000 <= d.altitude <= 50_175
                &&& !self.q_bit() ==> -1200 <= d.altitude <= 126_700
            },
    {
        let word: u16 = self.0;
        if word == 0 {
            None
        } else if word & 0x010 != 0 {
            let steps: u16 = ((word >> 1) & 0x7F0) | (word & 0x00F);
            assert(steps <= 0x7FF) by (bit_vector)
                requires
                    steps == ((word >> 1) & 0x7F0) | (word & 0x00F),
            ;
            Some(DecodedAltitude { altitude_type, altitude: steps as i32 * 25 - 1000 })
        } else {
            let gillham: u16 = ((word & 0xFC0) << 1) | (word & 0x03F);
            let hundreds: u16 = decode_gillham_ac13(gillham);
            Some(DecodedAltitude { altitude_type, altitude: 100 * (hundreds as i32) - 1200 })
        }
    }
}

/// A surface position message.
#[derive(Clone, Copy, Debug, PartialEq, Eq, Structural)]
pub struct SurfacePosition {
    pub ground_speed: Movement,
    pub ground_track: Option<GroundTrack>,
    pub time: bool,
    pub cpr_format: CprFormat,
    pub cpr_position: Cpr,
}

impl SurfacePosition {
    /// Every code is as wide as its field.
    pub open spec fn wf(&self) -> bool {
        &&& self.ground_speed.wf()
        &&& self.ground_track matches Some(t) ==> t.wf()
        &&& self.cpr_position.wf()
    }

    /// The message that `payload` spells out after a type byte whose low
    /// three bits are `bits_6_to_8`: these are the high bits of the
    /// movement code.
    pub open spec fn of_payload(payload: [u8; 6], bits_6_to_8: u8) -> Self {
        SurfacePosition {
            ground_speed: Movement(((bits_6_to_8 % 8) * 16 + bits(payload@, 0, 4)) as u8),
            ground_track: if flag(payload@, 4) {
                Some(GroundTrack(bits(payload@, 5, 7) as u8))
            } else {
                None
            },
            time: flag(payload@, 12),
            cpr_format: frame_aligned_encoded_position(payload).0,
            cpr_position: frame_aligned_encoded_position(payload).1,
        }
    }

    /// Decodes the six bytes after the type byte.
    pub fn from_payload(payload: &[u8; 6], bits_6_to_8: u8) -> (r: Self)
        ensures
            r == Self::of_payload(*payload, bits_6_to_8),
            r.wf(),
    {
        proof {
            lemma2_to64();
        }
        let low: u8 = read_u8(payload, 0, 4);
        let (cpr_format, cpr_position) = decode_frame_aligned_encoded_position(payload);
        let track: u8 = read_u8(payload, 5, 7);
        Self {
            ground_speed: Movement((bits_6_to_8 % 8) * 16 + low),
            ground_track: if read_flag(payload, 4) {
                Some(GroundTrack(track))
            } else {
                None
            },
            time: read_flag(payload, 12),
            cpr_format,
            cpr_position,
        }
    }

    /// Reads the six bytes after the type byte from `buffer` and decodes
    /// them as [`SurfacePosition::from_payload`] does. The type code has no
    /// part in it.
    pub fn decode(buffer: &mut Bytes, _type_code: u8, bits_6_to_8: u8) -> (r: Self)
        requires
            unread(*old(buffer)).len() >= 6,
        ensures
            r == Self::of_payload(array6(unread(*old(buffer))), bits_6_to_8),
            r.wf(),
            unread(*final(buffer)) == unread(*old(buffer)).skip(6),
    {
        let payload: [u8; 6] = get_bytes(buffer);
        assert(payload =~= array6(unread(*old(buffer))));
        Self::from_payload(&payload, bits_6_to_8)
    }
}

/// An airborne position message.
#[derive(Clone, Copy, Debug, PartialEq, Eq, Structural)]
pub struct AirbornePosition {
    pub altitude_type: AltitudeType,
    pub surveillance_status: SurveillanceStatus,
    pub single_antenna_flag: bool,
    pub encoded_altitude: AltitudeCode,
    pub time: bool,
    pub cpr_format: CprFormat,
    pub cpr_position: Cpr,
}

impl AirbornePosition {
    /// Every code is as wide as its field.
    pub open spec fn wf(&self) -> bool {
        &&& self.surveillance_status.wf()
        &&& self.encoded_altitude.wf()
        &&& self.cpr_position.wf()
    }

    /// The message that `payload` spells out after a type byte with type
    /// code `type_code` and low three bits `bits_6_to_8`: two bits of
    /// surveillance status and the single antenna flag.
    pub open spec fn of_payload(payload: [u8; 6], type_code: u8, bits_6_to_8: u8) -> Self {
        AirbornePosition {
            altitude_type: AltitudeType::of_type_code(type_code),
            surveillance_status: SurveillanceStatus(bits_6_to_8 % 8 / 2),
            single_antenna_flag: bits_6_to_8 % 2 == 1,
            encoded_altitude: AltitudeCode(bits(payload@, 0, 12) as u16),
            time: flag(payload@, 12),
            cpr_format: frame_aligned_encoded_position(payload).0,
            cpr_position: frame_aligned_encoded_position(payload).1,
        }
    }

    /// Decodes the six bytes after the type byte.
    pub fn from_payload(payload: &[u8; 6], type_code: u8, bits_6_to_8: u8) -> (r: Self)
        requires
            AltitudeType::is_position_type_code(type_code),
        ensures
            r == Self::of_payload(*payload, type_code, bits_6_to_8),
            r.wf(),
    {
        proof {
            lemma2_to64();
        }
        let (cpr_format, cpr_position) = decode_frame_aligned_encoded_position(payload);
        Self {
            altitude_type: AltitudeType::from_type_code(type_code),
            surveillance_status: SurveillanceStatus(bits_6_to_8 % 8 / 2),
            single_antenna_flag: bits_6_to_8 % 2 == 1,
            encoded_altitude: AltitudeCode(read_u16(payload, 0, 12)),
            time: read_flag(payload, 12),
            cpr_format,
            cpr_position,
        }
    }

    /// Reads the six bytes after the type byte from `buffer` and decodes
    /// them as [`AirbornePosition::from_payload`] does.
    pub fn decode(buffer: &mut Bytes, type_code: u8, bits_6_to_8: u8) -> (r: Self)
        requires
            unread(*old(buffer)).len() >= 6,
            AltitudeType::is_position_type_code(type_code),
        ensures
            r == Self::of_payload(array6(unread(*old(buffer))), type_code, bits_6_to_8),
            r.wf(),
            unread(*final(buffer)) == unread(*old(buffer)).skip(6),
    {
        let payload: [u8; 6] = get_bytes(buffer);
        assert(payload =~= array6(unread(*old(buffer))));
        Self::from_payload(&payload, type_code, bits_6_to_8)
    }

    /// The altitude that the message reports.
    pub fn altitude(&self) -> (r: Option<DecodedAltitude>)
        ensures
            r == self.encoded_altitude.decoded(self.altitude_type),
    {
        self.encoded_altitude.decode(self.altitude_type)
    }
}

} // verus!
