//! What the driver of an RTL2832U receiver computes before it talks to the
//! device: which devices it knows, how its registers are named in a
//! transfer, how the filter is written, and how a tuner is told.

pub mod fir;
pub mod known_devices;
pub mod register;
pub mod tuner;

pub use crate::usb::fir::Fir;
pub use crate::usb::fir::FirEncodeError;
pub use crate::usb::known_devices::lookup;
pub use crate::usb::known_devices::KnownDevice;
pub use crate::usb::register::DemodRegister;
pub use crate::usb::register::I2cRegister;
pub use crate::usb::register::Register;
pub use crate::usb::tuner::TunerProbe;
pub use crate::usb::tuner::TunerType;
