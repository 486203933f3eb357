//! Airborne velocity messages (type code 19).
//!
//! The six bytes after the type byte are laid out as
//!
//! ```text
//! byte:  0        1        2        3        4        5
//! bits:  abcccdee eeeeeeee fggggggg ggghijjj jjjjjjkk lmmmmmmm
//! ```
//!
//! `a` intent change, `b` IFR capability, `c` navigation uncertainty
//! category, `d` east-west direction or heading available, `e` east-west
//! velocity or heading, `f` north-south direction or airspeed type, `g`
//! north-south velocity or airspeed, `h` vertical rate source, `i` vertical
//! rate sign, `j` vertical rate, `k` turn indicator, `l` sign of the
//! difference between GNSS and barometric altitude, `m` that difference.

use vstd::prelude::*;
use bytes::Bytes;
use crate::bits::bits;
use crate::bits::flag;
use crate::bits::read_flag;
use crate::bits::read_u16;
use crate::bits::read_u8;
use crate::buffer::array6;
use crate::buffer::get_bytes;
use crate::buffer::unread;
use vstd::arithmetic::power2::lemma2_to64;

verus! {

/// Way of travel along the north-south axis.
#[derive(Clone, Copy, Debug, PartialEq, Eq, Structural, PartialOrd, Ord, Hash)]
pub enum DirectionNorthSouth {
    SouthToNorth,
    NorthToSouth,
}

/// Way of travel along the east-west axis.
#[derive(Clone, Copy, Debug, PartialEq, Eq, Structural, PartialOrd, Ord, Hash)]
pub enum DirectionEastWest {
    WestToEast,
    EastToWest,
}

/// A 10-bit velocity code. It stands for the east-west and north-south
/// ground speed of [`GroundSpeed`] and for the airspeed of [`Airspeed`].
/// The code 0 means "not available" and is never held.
#[derive(Clone, Copy, Debug, PartialEq, Eq, Structural, PartialOrd, Ord, Hash)]
pub struct Velocity(pub u16);

impl Velocity {
    /// A velocity code is between 1 and 1023.
    pub open spec fn wf(&self) -> bool {
        0 < self.0 < 1024
    }

    /// What a 10-bit field holds: nothing for 0, else the code.
    pub open spec fn of_field(code: nat) -> Option<Self> {
        if code == 0 {
            None
        } else {
            Some(Velocity(code as u16))
        }
    }

    /// The speed in knots that the code stands for: one less than the code,
    /// in steps of 4 knots when supersonic.
    pub open spec fn knots(&self, supersonic: bool) -> int {
        (self.0 - 1) * (if supersonic {
            4int
        } else {
            1int
        })
    }

    /// Wraps `word` without looking at it.
    pub fn from_u16_unchecked(word: u16) -> (r: Self)
        ensures
            r == Velocity(word),
    {
        Self(word)
    }

    /// Wraps `word` if it is a velocity code.
    pub fn from_u16(word: u16) -> (r: Option<Self>)
        ensures
            r == (if Velocity(word).wf() {
                Some(Velocity(word))
            } else {
                None
            }),
    {
        if word < 1024 && word != 0 {
            Some(Self(word))
        } else {
            None
        }
    }

    pub fn as_u16(&self) -> (r: u16)
        ensures
            r == self.0,
    {
        self.0
    }

    /// The speed in knots.
    pub fn as_knots(&self, supersonic: bool) -> (r: u16)
        requires
            self.wf(),
        ensures
            r == self.knots(supersonic),
    {
        let v: u16 = self.0 - 1;
        if supersonic {
            v * 4
        } else {
            v
        }
    }
}

/// A 10-bit magnetic heading, in steps of 360/1024 of a degree clockwise
/// from magnetic north.
#[derive(Clone, Copy, Debug, PartialEq, Eq, Structural, PartialOrd, Ord, Hash)]
pub struct MagneticHeading(pub u16);

impl MagneticHeading {
    /// A heading code is below 1024.
    pub open spec fn wf(&self) -> bool {
        self.0 < 1024
    }

    /// Wraps `word` without looking at it.
    pub fn from_u16_unchecked(word: u16) -> (r: Self)
        ensures
            r == MagneticHeading(word),
    {
        Self(word)
    }

    /// Wraps `word` if it fits in 10 bits.
    pub fn from_u16(word: u16) -> (r: Option<Self>)
        ensures
            r == (if MagneticHeading(word).wf() {
                Some(MagneticHeading(word))
            } else {
                None
            }),
    {
        if word < 1024 {
            Some(Self(word))
        } else {
            None
        }
    }

    /// The heading in steps of 360/1024 of a degree.
    pub fn as_u16(&self) -> (r: u16)
        ensures
            r == self.0,
    {
        self.0
    }
}

/// Which airspeed an [`Airspeed`] reports.
#[derive(Clone, Copy, Debug, PartialEq, Eq, Structural, PartialOrd, Ord, Hash)]
pub enum AirspeedType {
    Indicated,
    True,
}

/// Ground speed as two components.
#[derive(Clone, Copy, Debug, PartialEq, Eq, Structural)]
pub struct GroundSpeed {
    pub direction_east_west: DirectionEastWest,
    pub velocity_east_west: Option<Velocity>,
    pub direction_north_south: DirectionNorthSouth,
    pub velocity_north_south: Option<Velocity>,
}

/// Airspeed and, where the aircraft reports it, magnetic heading.
#[derive(Clone, Copy, Debug, PartialEq, Eq, Structural)]
pub struct Airspeed {
    pub magnetic_heading: Option<MagneticHeading>,
    pub airspeed_type: AirspeedType,
    pub airspeed_value: Option<Velocity>,
}

/// The two forms of the velocity fields `d` to `g`.
#[derive(Clone, Copy, Debug, PartialEq, Eq, Structural)]
pub enum VelocityType {
    GroundSpeed(GroundSpeed),
    Airspeed(Airspeed),
}

impl VelocityType {
    pub open spec fn wf(&self) -> bool {
        match *self {
            VelocityType::GroundSpeed(g) => {
                &&& g.velocity_east_west matches Some(v) ==> v.wf()
                &&& g.velocity_north_south matches Some(v) ==> v.wf()
            },
            VelocityType::Airspeed(a) => {
                &&& a.magnetic_heading matches Some(h) ==> h.wf()
                &&& a.airspeed_value matches Some(v) ==> v.wf()
            },
        }
    }
}

/// Where a vertical rate was measured.
#[derive(Clone, Copy, Debug, PartialEq, Eq, Structural, PartialOrd, Ord, Hash)]
pub enum VerticalRateSource {
    Barometric,
    Gnss,
}

/// Whether the aircraft climbs or descends.
#[derive(Clone, Copy, Debug, PartialEq, Eq, Structural, PartialOrd, Ord, Hash)]
pub enum VerticalRateSign {
    Up,
    Down,
}

/// A 9-bit vertical rate code. The code 0 means "not available" and is
/// never held.
#[derive(Clone, Copy, Debug, PartialEq, Eq, Structural, PartialOrd, Ord, Hash)]
pub struct VerticalRateValue(pub u16);

impl VerticalRateValue {
    /// A vertical rate code is between 1 and 511.
    pub open spec fn wf(&self) -> bool {
        0 < self.0 < 512
    }

    /// What a 9-bit field holds: nothing for 0, else the code.
    pub open spec fn of_field(code: nat) -> Option<Self> {
        if code == 0 {
            None
        } else {
            Some(VerticalRateValue(code as u16))
        }
    }

    /// Wraps `word` without looking at it.
    pub fn from_u16_unchecked(word: u16) -> (r: Self)
        ensures
            r == VerticalRateValue(word),
    {
        Self(word)
    }

    /// Wraps `word` if it is a vertical rate code.
    pub fn from_u16(word: u16) -> (r: Option<Self>)
        ensures
            r == (if VerticalRateValue(word).wf() {
                Some(VerticalRateValue(word))
            } else {
                None
            }),
    {
        if word < 512 && word != 0 {
            Some(Self(word))
        } else {
            None
        }
    }

    pub fn as_u16(&self) -> (r: u16)
        ensures
            r == self.0,
    {
        self.0
    }

    /// The rate in feet per minute: 64 for each step above code 1.
    pub fn as_ft_per_min(&self) -> (r: u16)
        requires
            self.wf(),
        ensures
            r == (self.0 - 1) * 64,
    {
        (self.0 - 1) * 64
    }
}

/// Vertical rate with its source and sign.
#[derive(Clone, Copy, Debug, PartialEq, Eq, Structural, PartialOrd, Ord, Hash)]
pub struct VerticalRate {
    pub source: VerticalRateSource,
    pub sign: VerticalRateSign,
    pub value: Option<VerticalRateValue>,
}

/// Whether the GNSS altitude lies above or below the barometric altitude.
#[derive(Clone, Copy, Debug, PartialEq, Eq, Structural, PartialOrd, Ord, Hash)]
pub enum AltitudeDifferenceSign {
    GnssAboveBarometric,
    GnssBelowBarometric,
}

/// A 7-bit code for the difference between GNSS and barometric altitude.
/// The code 0 means "not available" and is never held.
#[derive(Clone, Copy, Debug, PartialEq, Eq, Structural, PartialOrd, Ord, Hash)]
pub struct AltitudeDifferenceValue(pub u8);

impl AltitudeDifferenceValue {
    /// A difference code is between 1 and 127.
    pub open spec fn wf(&self) -> bool {
        0 < self.0 < 128
    }

    /// What a 7-bit field holds: nothing for 0, else the code.
    pub open spec fn of_field(code: nat) -> Option<Self> {
        if code == 0 {
            None
        } else {
            Some(AltitudeDifferenceValue(code as u8))
        }
    }

    /// Wraps `byte` without looking at it.
    pub fn from_u8_unchecked(byte: u8) -> (r: Self)
        ensures
            r == AltitudeDifferenceValue(byte),
    {
        Self(byte)
    }

    /// Wraps `byte` if it is a difference code.
    pub fn from_u8(byte: u8) -> (r: Option<Self>)
        ensures
            r == (if AltitudeDifferenceValue(byte).wf() {
                Some(AltitudeDifferenceValue(byte))
            } else {
                None
            }),
    {
        if byte < 128 && byte != 0 {
            Some(Self(byte))
        } else {
            None
        }
    }

    pub fn as_u8(&self) -> (r: u8)
        ensures
            r == self.0,
    {
        self.0
    }

    /// The difference in feet: 25 for each step above code 1. The largest
    /// code stands for 3150 ft, so the result is wider than the code.
    pub fn as_ft(&self) -> (r: u16)
        requires
            self.wf(),
        ensures
            r == (self.0 - 1) * 25,
    {
        let steps: u16 = (self.0 - 1) as u16;
        steps * 25
    }
}

/// Difference between GNSS and barometric altitude.
#[derive(Clone, Copy, Debug, PartialEq, Eq, Structural, PartialOrd, Ord, Hash)]
pub struct AltitudeDifference {
    pub sign: AltitudeDifferenceSign,
    pub value: Option<AltitudeDifferenceValue>,
}

/// A 3-bit navigation uncertainty category for velocity.
#[derive(Clone, Copy, Debug, PartialEq, Eq, Structural, PartialOrd, Ord, Hash)]
pub struct NavigationUncertaintyCategory(pub u8);

impl NavigationUncertaintyCategory {
    /// A category fits in 3 bits.
    pub open spec fn wf(&self) -> bool {
        self.0 < 8
    }

    /// Wraps `byte` without looking at it.
    pub fn from_u8_unchecked(byte: u8) -> (r: Self)
        ensures
            r == NavigationUncertaintyCategory(byte),
    {
        Self(byte)
    }

    /// Wraps `byte` if it fits in 3 bits.
    pub fn from_u8(byte: u8) -> (r: Option<Self>)
        ensures
            r == (if NavigationUncertaintyCategory(byte).wf() {
                Some(NavigationUncertaintyCategory(byte))
            } else {
                None
            }),
    {
        if byte < 8 {
            Some(Self(byte))
        } else {
            None
        }
    }

    pub fn as_u8(&self) -> (r: u8)
        ensures
            r == self.0,
    {
        self.0
    }
}

/// The 2-bit turn indicator.
#[derive(Clone, Copy, Debug, PartialEq, Eq, Structural, PartialOrd, Ord, Hash)]
pub struct TurnIndicator(pub u8);

impl TurnIndicator {
    /// A turn indicator fits in 2 bits.
    pub open spec fn wf(&self) -> bool {
        self.0 < 4
    }

    /// Wraps `byte` without looking at it.
    pub fn from_u8_unchecked(byte: u8) -> (r: Self)
        ensures
            r == TurnIndicator(byte),
    {
        Self(byte)
    }

    /// Wraps `byte` if it fits in 2 bits.
    pub fn from_u8(byte: u8) -> (r: Option<Self>)
        ensures
            r == (if TurnIndicator(byte).wf() {
                Some(TurnIndicator(byte))
            } else {
                None
            }),
    {
        if byte < 4 {
            Some(Self(byte))
        } else {
            None
        }
    }

    pub fn as_u8(&self) -> (r: u8)
        ensures
            r == self.0,
    {
        self.0
    }
}

/// An airborne velocity message.
#[derive(Clone, Copy, Debug, PartialEq, Eq, Structural)]
pub struct AirborneVelocity {
    pub supersonic: bool,
    pub intent_change_flag: bool,
    /// No longer in use.
    pub ifr_capability_flag: bool,
    pub navigation_uncertainty_category: NavigationUncertaintyCategory,
    pub velocity_type: VelocityType,
    pub vertical_rate: VerticalRate,
    /// No longer in use.
    pub turn_indicator: TurnIndicator,
    pub altitude_difference: AltitudeDifference,
}

impl AirborneVelocity {
    /// Every code is as wide as its field.
    pub open spec fn wf(&self) -> bool {
        &&& self.navigation_uncertainty_category.wf()
        &&& self.velocity_type.wf()
        &&& self.vertical_rate.value matches Some(v) ==> v.wf()
        &&& self.turn_indicator.wf()
        &&& self.altitude_difference.value matches Some(v) ==> v.wf()
    }

    /// The fields `d` to `g` read as ground speed (sub-types 1 and 2).
    pub open spec fn ground_speed_of(payload: [u8; 6]) -> GroundSpeed {
        GroundSpeed {
            direction_east_west: if flag(payload@, 5) {
                DirectionEastWest::EastToWest
            } else {
                DirectionEastWest::WestToEast
            },
            velocity_east_west: Velocity::of_field(bits(payload@, 6, 10)),
            direction_north_south: if flag(payload@, 16) {
                DirectionNorthSouth::NorthToSouth
            } else {
                DirectionNorthSouth::SouthToNorth
            },
            velocity_north_south: Velocity::of_field(bits(payload@, 17, 10)),
        }
    }

    /// The fields `d` to `g` read as airspeed (sub-types 3 and 4).
    pub open spec fn airspeed_of(payload: [u8; 6]) -> Airspeed {
        Airspeed {
            magnetic_heading: if flag(payload@, 5) {
                Some(MagneticHeading(bits(payload@, 6, 10) as u16))
            } else {
                None
            },
            airspeed_type: if flag(payload@, 16) {
                AirspeedType::True
            } else {
                AirspeedType::Indicated
            },
            airspeed_value: Velocity::of_field(bits(payload@, 17, 10)),
        }
    }

    /// The message that `payload` spells out under `sub_type`.
    pub open spec fn of_payload(payload: [u8; 6], sub_type: u8) -> Self {
        AirborneVelocity {
            supersonic: sub_type == 3 || sub_type == 4,
            intent_change_flag: flag(payload@, 0),
            ifr_capability_flag: flag(payload@, 1),
            navigation_uncertainty_category: NavigationUncertaintyCategory(
                bits(payload@, 2, 3) as u8,
            ),
            velocity_type: if sub_type == 1 || sub_type == 2 {
                VelocityType::GroundSpeed(Self::ground_speed_of(payload))
            } else {
                VelocityType::Airspeed(Self::airspeed_of(payload))
            },
            vertical_rate: VerticalRate {
                source: if flag(payload@, 27) {
                    VerticalRateSource::Barometric
                } else {
                    VerticalRateSource::Gnss
                },
                sign: if flag(payload@, 28) {
                    VerticalRateSign::Down
                } else {
                    VerticalRateSign::Up
                },
                value: VerticalRateValue::of_field(bits(payload@, 29, 9)),
            },
            turn_indicator: TurnIndicator(bits(payload@, 38, 2) as u8),
            altitude_difference: AltitudeDifference {
                sign: if flag(payload@, 40) {
                    AltitudeDifferenceSign::GnssBelowBarometric
                } else {
                    AltitudeDifferenceSign::GnssAboveBarometric
                },
                value: AltitudeDifferenceValue::of_field(bits(payload@, 41, 7)),
            },
        }
    }

    /// Decodes the six bytes after the type byte. `sub_type` is the low
    /// three bits of the type byte and selects between ground speed (1, 2)
    /// and airspeed (3, 4); 3 and 4 are the supersonic forms.
    pub fn from_payload(payload: &[u8; 6], sub_type: u8) -> (r: Self)
        requires
            1 <= sub_type <= 4,
        ensures
            r == Self::of_payload(*payload, sub_type),
            r.wf(),
    {
        proof {
            lemma2_to64();
        }
        let supersonic = sub_type == 3 || sub_type == 4;
        let intent_change_flag = read_flag(payload, 0);
        let ifr_capability_flag = read_flag(payload, 1);
        let navigation_uncertainty_category = NavigationUncertaintyCategory(
            read_u8(payload, 2, 3),
        );

        let d = read_flag(payload, 5);
        let e: u16 = read_u16(payload, 6, 10);
        let f = read_flag(payload, 16);
        let g: u16 = read_u16(payload, 17, 10);

        let velocity_type = if sub_type == 1 || sub_type == 2 {
            VelocityType::GroundSpeed(
                GroundSpeed {
                    direction_east_west: if d {
                        DirectionEastWest::EastToWest
                    } else {
                        DirectionEastWest::WestToEast
                    },
                    velocity_east_west: if e != 0 {
                        Some(Velocity(e))
                    } else {
                        None
                    },
                    direction_north_south: if f {
                        DirectionNorthSouth::NorthToSouth
                    } else {
                        DirectionNorthSouth::SouthToNorth
                    },
                    velocity_north_south: if g != 0 {
                        Some(Velocity(g))
                    } else {
                        None
                    },
                },
            )
        } else {
            VelocityType::Airspeed(
                Airspeed {
                    magnetic_heading: if d {
                        Some(MagneticHeading(e))
                    } else {
                        None
                    },
                    airspeed_type: if f {
                        AirspeedType::True
                    } else {
                        AirspeedType::Indicated
                    },
                    airspeed_value: if g != 0 {
                        Some(Velocity(g))
                    } else {
                        None
                    },
                },
            )
        };

        let vertical_rate_source = if read_flag(payload, 27) {
            VerticalRateSource::Barometric
        } else {
            VerticalRateSource::Gnss
        };
        let vertical_rate_sign = if read_flag(payload, 28) {
            VerticalRateSign::Down
        } else {
            VerticalRateSign::Up
        };
        let j: u16 = read_u16(payload, 29, 9);
        let vertical_rate = VerticalRate {
            source: vertical_rate_source,
            sign: vertical_rate_sign,
            value: if j != 0 {
                Some(VerticalRateValue(j))
            } else {
                None
            },
        };

        let turn_indicator = TurnIndicator(read_u8(payload, 38, 2));

        let altitude_difference_sign = if read_flag(payload, 40) {
            AltitudeDifferenceSign::GnssBelowBarometric
        } else {
            AltitudeDifferenceSign::GnssAboveBarometric
        };
        let m: u8 = read_u8(payload, 41, 7);
        let altitude_difference = AltitudeDifference {
            sign: altitude_difference_sign,
            value: if m != 0 {
                Some(AltitudeDifferenceValue(m))
            } else {
                None
            },
        };

        Self {
            supersonic,
            intent_change_flag,
            ifr_capability_flag,
            navigation_uncertainty_category,
            velocity_type,
            vertical_rate,
            turn_indicator,
            altitude_difference,
        }
    }

    /// Reads the six bytes after the type byte from `buffer` and decodes
    /// them as [`AirborneVelocity::from_payload`] does.
    pub fn decode(buffer: &mut Bytes, bits_6_to_8: u8) -> (r: Self)
        requires
            unread(*old(buffer)).len() >= 6,
            1 <= bits_6_to_8 <= 4,
        ensures
            r == Self::of_payload(array6(unread(*old(buffer))), bits_6_to_8),
            r.wf(),
            unread(*final(buffer)) == unread(*old(buffer)).skip(6),
    {
        let payload: [u8; 6] = get_bytes(buffer);
        assert(payload =~= array6(unread(*old(buffer))));
        Self::from_payload(&payload, bits_6_to_8)
    }
}

} // verus!
