//! The registers of the RTL2832U and how a control transfer names them.
//!
//! A register is read and written by a vendor request to the device. The
//! request carries two 16-bit numbers, `value` and `index`, which together
//! say which register is meant and whether it is written.

use vstd::prelude::*;

verus! {

/// The block of the demodulator.
pub const BLOCK_DEMOD: u8 = 0;

/// The block of the USB controller.
pub const BLOCK_USB: u8 = 1;

/// The block of the system registers.
pub const BLOCK_SYS: u8 = 2;

/// The block of the tuner.
pub const BLOCK_TUN: u8 = 3;

/// The block of the ROM.
pub const BLOCK_ROM: u8 = 4;

/// The block of the infrared receiver.
pub const BLOCK_IR: u8 = 5;

/// The block of the I2C bus.
pub const BLOCK_IIC: u8 = 6;

/// The two numbers by which a control transfer names a register.
#[derive(Clone, Copy, Debug, PartialEq, Eq, Structural)]
pub struct ControlAddress {
    pub value: u16,
    pub index: u16,
}

/// A register in one of the blocks of the chip.
#[derive(Clone, Copy, Debug, PartialEq, Eq, Structural)]
pub struct Register {
    pub block: u8,
    pub address: u16,
}

impl Register {
    /// How a read names the register: its address as the value, its block
    /// in the high byte of the index.
    pub open spec fn read_address_of(&self) -> ControlAddress {
        ControlAddress { value: self.address, index: (self.block * 0x100) as u16 }
    }

    /// How a write names the register: as a read does, with 0x10 added to
    /// the index.
    pub open spec fn write_address_of(&self) -> ControlAddress {
        ControlAddress { value: self.address, index: (self.block * 0x100 + 0x10) as u16 }
    }

    /// The value and index of a transfer that reads the register.
    pub fn read_address(&self) -> (r: ControlAddress)
        ensures
            r == self.read_address_of(),
    {
        ControlAddress { value: self.address, index: self.block as u16 * 0x100 }
    }

    /// The value and index of a transfer that writes the register.
    pub fn write_address(&self) -> (r: ControlAddress)
        ensures
            r == self.write_address_of(),
    {
        ControlAddress { value: self.address, index: self.block as u16 * 0x100 + 0x10 }
    }
}

/// A register of the demodulator, on one of its pages.
#[derive(Clone, Copy, Debug, PartialEq, Eq, Structural)]
pub struct DemodRegister {
    pub page: u8,
    pub address: u8,
}

impl DemodRegister {
    /// How a transfer names the register, for reading and for writing
    /// alike: the address in the high byte of the value with 0x20 below
    /// it, the page as the index.
    pub open spec fn address_of(&self) -> ControlAddress {
        ControlAddress { value: (self.address * 0x100 + 0x20) as u16, index: self.page as u16 }
    }

    /// The value and index of a transfer that reads or writes the register.
    pub fn control_address(&self) -> (r: ControlAddress)
        ensures
            r == self.address_of(),
    {
        ControlAddress { value: self.address as u16 * 0x100 + 0x20, index: self.page as u16 }
    }

    /// The register that is read after every write to the demodulator.
    pub fn read_back() -> (r: Self)
        ensures
            r == (DemodRegister { page: 0x0a, address: 0x01 }),
    {
        DemodRegister { page: 0x0a, address: 0x01 }
    }
}

/// A register of a device on the I2C bus behind the chip.
#[derive(Clone, Copy, Debug, PartialEq, Eq, Structural)]
pub struct I2cRegister {
    pub address: u8,
    pub register: u8,
}

impl I2cRegister {
    /// The register of the chip through which the device is reached: the
    /// address of the device in the block of the I2C bus.
    pub fn bus_register(&self) -> (r: Register)
        ensures
            r == (Register { block: BLOCK_IIC, address: self.address as u16 }),
    {
        Register { block: BLOCK_IIC, address: self.address as u16 }
    }

    /// The two bytes that write `value` to the register: its number, then
    /// the value.
    pub fn write_data(&self, value: u8) -> (r: [u8; 2])
        ensures
            r@ == seq![self.register, value],
    {
        [self.register, value]
    }
}

} // verus!
