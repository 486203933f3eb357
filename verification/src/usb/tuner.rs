//! Telling which tuner sits behind the chip.

use vstd::prelude::*;
use crate::usb::register::I2cRegister;

verus! {

/// The address of the R828D on the I2C bus.
pub const R828D_I2C_ADDRESS: u8 = 0x74;

/// The frequency of the crystal of the R828D on the boards that have their
/// own, in Hz.
pub const R828D_XTAL_FREQ: u32 = 16_000_000;

/// The intermediate frequency of the R82xx tuners, in Hz.
pub const R82XX_IF_FREQ: u32 = 3_570_000;

/// The kinds of tuner.
#[derive(Clone, Copy, Debug, PartialEq, Eq, Structural, PartialOrd, Ord, Hash)]
pub enum TunerType {
    E4000,
    Fc0012,
    Fc0013,
    Fc2580,
    R820t,
    R828d,
}

/// How to tell one kind of tuner: the register to read, and what its
/// value shows under the mask.
#[derive(Clone, Copy, Debug, PartialEq, Eq, Structural)]
pub struct TunerProbe {
    pub tuner_type: TunerType,
    pub register: I2cRegister,
    pub bitmask: u8,
    pub expected_value: u8,
    pub gpio: bool,
}

/// The number of probes.
pub const TUNER_PROBE_COUNT: usize = 1;

impl TunerProbe {
    /// Whether a value read from the register shows the tuner.
    pub open spec fn shows(&self, value: u8) -> bool {
        value & self.bitmask == self.expected_value
    }

    /// Whether `value`, read from the register of the probe, shows the
    /// tuner of the probe.
    pub fn matches(&self, value: u8) -> (r: bool)
        ensures
            r == self.shows(value),
    {
        value & self.bitmask == self.expected_value
    }
}

/// The frequency of the crystal that clocks the tuner, in Hz. The tuner
/// shares the crystal of the chip, of frequency `rtl_xtal`, but for the
/// R828D on the boards sold as "Blog V4", which has its own.
pub fn r82xx_tuner_xtal(tuner_type: TunerType, is_blog_v4: bool, rtl_xtal: u32) -> (r: u32)
    ensures
        r == (if tuner_type == TunerType::R828d && is_blog_v4 {
            R828D_XTAL_FREQ
        } else {
            rtl_xtal
        }),
{
    match tuner_type {
        TunerType::R828d => if is_blog_v4 {
            R828D_XTAL_FREQ
        } else {
            rtl_xtal
        },
        _ => rtl_xtal,
    }
}

/// The probes in the order in which they are tried. There is one, for the
/// R828D: its register 0 reads 0x69.
pub fn tuner_probe(index: usize) -> (r: TunerProbe)
    requires
        index < TUNER_PROBE_COUNT,
    ensures
        r == (TunerProbe {
            tuner_type: TunerType::R828d,
            register: I2cRegister { address: R828D_I2C_ADDRESS, register: 0x00 },
            bitmask: 0xff,
            expected_value: 0x69,
            gpio: false,
        }),
{
    TunerProbe {
        tuner_type: TunerType::R828d,
        register: I2cRegister { address: R828D_I2C_ADDRESS, register: 0x00 },
        bitmask: 0xff,
        expected_value: 0x69,
        gpio: false,
    }
}

} // verus!
