//! Compact position reporting.
//!
//! A position message carries 17 bits of latitude and 17 bits of longitude
//! in one of two encodings, told apart by a format bit. Two messages of
//! different format resolve to a position on the globe; that is left to the
//! receiver of the decoded message.

use vstd::prelude::*;

verus! {

/// Which of the two encodings a position uses.
#[derive(Clone, Copy, Debug, PartialEq, Eq, Structural, PartialOrd, Ord, Hash)]
pub enum CprFormat {
    Even,
    Odd,
}

impl CprFormat {
    /// The format that the format bit stands for: odd when set.
    pub open spec fn of_bit(bit: bool) -> Self {
        if bit {
            CprFormat::Odd
        } else {
            CprFormat::Even
        }
    }

    /// The format that the format bit stands for.
    pub fn from_bit(bit: bool) -> (r: Self)
        ensures
            r == Self::of_bit(bit),
    {
        if bit {
            CprFormat::Odd
        } else {
            CprFormat::Even
        }
    }

}

/// An encoded position: latitude and longitude of 17 bits each.
#[derive(Clone, Copy, Debug, PartialEq, Eq, Structural, PartialOrd, Ord, Hash)]
pub struct Cpr {
    pub latitude: u32,
    pub longitude: u32,
}

impl Cpr {
    /// Both coordinates fit in 17 bits.
    pub open spec fn wf(&self) -> bool {
        self.latitude < 0x2_0000 && self.longitude < 0x2_0000
    }
}

} // verus!
