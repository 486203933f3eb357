use adsbee::usb::fir::signed_byte_of;
use adsbee::usb::fir::twelve_bits_of;
use adsbee::usb::known_devices::known_device;
use adsbee::usb::known_devices::KNOWN_DEVICE_COUNT;
use adsbee::usb::lookup;
use adsbee::usb::register::ControlAddress;
use adsbee::usb::register::BLOCK_IIC;
use adsbee::usb::register::BLOCK_SYS;
use adsbee::usb::register::BLOCK_USB;
use adsbee::usb::tuner::r82xx_tuner_xtal;
use adsbee::usb::tuner::tuner_probe;
use adsbee::usb::tuner::R828D_I2C_ADDRESS;
use adsbee::usb::tuner::TUNER_PROBE_COUNT;
use adsbee::usb::DemodRegister;
use adsbee::usb::Fir;
use adsbee::usb::FirEncodeError;
use adsbee::usb::I2cRegister;
use adsbee::usb::Register;
use adsbee::usb::TunerType;

#[test]
fn known_devices_are_found_by_their_numbers() {
    let device = lookup(0x0bda, 0x2838).unwrap();
    assert_eq!(device.name, "Generic RTL2832U OEM");
    assert_eq!((device.vendor_id, device.product_id), (0x0bda, 0x2838));
    assert_eq!(lookup(0x0bda, 0x2832).unwrap().name, "Generic RTL2832U");
    assert_eq!(lookup(0x1f4d, 0xd803).unwrap().name, "PROlectrix DV107669");
    assert_eq!(lookup(0x1d19, 0x1102).unwrap().name, "Dexatek DK DVB-T Dongle (MSI DigiVox mini II V3.0)");
    assert_eq!(lookup(0x0bda, 0x2833), None);
    assert_eq!(lookup(0, 0), None);
    assert_eq!(lookup(0x2838, 0x0bda), None);
}

#[test]
fn every_known_device_is_found_as_itself() {
    assert_eq!(KNOWN_DEVICE_COUNT, 42);
    for index in 0..KNOWN_DEVICE_COUNT {
        let device = known_device(index);
        assert_eq!(lookup(device.vendor_id, device.product_id), Some(device));
        for other in 0..index {
            let earlier = known_device(other);
            assert_ne!(
                (earlier.vendor_id, earlier.product_id),
                (device.vendor_id, device.product_id)
            );
        }
    }
}

#[test]
fn the_default_filter_fills_all_twenty_registers() {
    let fir = Fir::default();
    assert_eq!(
        fir.0,
        [-54, -36, -41, -40, -32, -14, 14, 53, 101, 156, 215, 273, 327, 372, 404, 421]
    );
    let mut image = [0xEEu8; 20];
    assert_eq!(fir.encode(&mut image), Ok(()));
    assert_eq!(
        image,
        [
            0xCA, 0xDC, 0xD7, 0xD8, 0xE0, 0xF2, 0x0E, 0x35, 0x06, 0x50, 0x9C, 0x0D, 0x71, 0x11,
            0x14, 0x71, 0x74, 0x19, 0x41, 0xA5,
        ]
    );
    assert_eq!(Fir::LENGTH, 16);
}

#[test]
fn twelve_bit_coefficients_are_packed_two_to_three_bytes() {
    let mut coefficients = [0i16; 16];
    coefficients[8] = -1;
    coefficients[9] = -2048;
    coefficients[10] = 2047;
    coefficients[11] = 0x123;
    coefficients[14] = -2;
    coefficients[15] = 1;
    let mut image = [0x55u8; 20];
    assert_eq!(Fir(coefficients).encode(&mut image), Ok(()));
    assert_eq!(&image[..8], &[0; 8]);
    assert_eq!(&image[8..11], &[0xFF, 0xF8, 0x00]);
    assert_eq!(&image[11..14], &[0x7F, 0xF1, 0x23]);
    assert_eq!(&image[14..17], &[0, 0, 0]);
    assert_eq!(&image[17..20], &[0xFF, 0xE0, 0x01]);
    assert_eq!(twelve_bits_of(-1), 0xFFF);
    assert_eq!(twelve_bits_of(-2048), 0x800);
    assert_eq!(twelve_bits_of(2047), 0x7FF);
}

#[test]
fn a_coefficient_that_does_not_fit_is_reported() {
    let mut coefficients = [0i16; 16];
    coefficients[0] = -128;
    coefficients[1] = 127;
    coefficients[2] = 128;
    coefficients[3] = -129;
    let mut image = [7u8; 20];
    assert_eq!(
        Fir(coefficients).encode(&mut image),
        Err(FirEncodeError { index: 2, value: 128 })
    );
    assert_eq!(&image[..3], &[0x80, 0x7F, 7]);
    coefficients[2] = 0;
    assert_eq!(
        Fir(coefficients).encode(&mut image),
        Err(FirEncodeError { index: 3, value: -129 })
    );
    coefficients[3] = -1;
    coefficients[8] = 128;
    coefficients[11] = 2048;
    coefficients[12] = -2049;
    let mut image = [7u8; 20];
    assert_eq!(
        Fir(coefficients).encode(&mut image),
        Err(FirEncodeError { index: 11, value: 2048 })
    );
    // the pair before the fault is written, the pair of the fault is not
    assert_eq!(&image[..8], &[0x80, 0x7F, 0, 0xFF, 0, 0, 0, 0]);
    assert_eq!(&image[8..11], &[0x08, 0x00, 0x00]);
    assert_eq!(&image[11..], &[7; 9]);
    coefficients[11] = 0;
    assert_eq!(
        Fir(coefficients).encode(&mut image),
        Err(FirEncodeError { index: 12, value: -2049 })
    );
    assert_eq!(&image[11..14], &[0, 0, 0]);
    assert_eq!(&image[14..], &[7; 6]);
    coefficients[12] = 0;
    coefficients[15] = i16::MAX;
    assert_eq!(
        Fir(coefficients).encode(&mut image),
        Err(FirEncodeError { index: 15, value: i16::MAX })
    );
    assert_eq!(&image[17..], &[7; 3]);
    assert_eq!(signed_byte_of(-1), 0xFF);
    assert_eq!(signed_byte_of(5), 5);
}

#[test]
fn registers_are_named_by_value_and_index() {
    let sysctl = Register { block: BLOCK_USB, address: 0x2000 };
    assert_eq!(sysctl.read_address(), ControlAddress { value: 0x2000, index: 0x0100 });
    assert_eq!(sysctl.write_address(), ControlAddress { value: 0x2000, index: 0x0110 });
    let demod_ctl = Register { block: BLOCK_SYS, address: 0x3000 };
    assert_eq!(demod_ctl.read_address(), ControlAddress { value: 0x3000, index: 0x0200 });
    assert_eq!(demod_ctl.write_address(), ControlAddress { value: 0x3000, index: 0x0210 });
    let last = Register { block: 0xFF, address: 0xFFFF };
    assert_eq!(last.write_address(), ControlAddress { value: 0xFFFF, index: 0xFF10 });
    let demod = DemodRegister { page: 1, address: 0xb1 };
    assert_eq!(demod.control_address(), ControlAddress { value: 0xb120, index: 1 });
    assert_eq!(DemodRegister::read_back(), DemodRegister { page: 0x0a, address: 0x01 });
    assert_eq!(
        DemodRegister::read_back().control_address(),
        ControlAddress { value: 0x0120, index: 0x0a }
    );
    let i2c = I2cRegister { address: 0x74, register: 0x05 };
    assert_eq!(i2c.bus_register(), Register { block: BLOCK_IIC, address: 0x74 });
    assert_eq!(i2c.write_data(0xAB), [0x05, 0xAB]);
}

#[test]
fn the_r828d_is_told_by_its_first_register() {
    assert_eq!(TUNER_PROBE_COUNT, 1);
    let probe = tuner_probe(0);
    assert_eq!(probe.tuner_type, TunerType::R828d);
    assert_eq!(probe.register, I2cRegister { address: R828D_I2C_ADDRESS, register: 0 });
    assert!(!probe.gpio);
    assert!(probe.matches(0x69));
    assert!(!probe.matches(0x68));
    assert!(!probe.matches(0));
    let mut masked = probe;
    masked.bitmask = 0x0F;
    masked.expected_value = 0x09;
    assert!(masked.matches(0x69));
    assert!(masked.matches(0xF9));
    assert!(!masked.matches(0x6A));
}

#[test]
fn only_the_blog_v4_board_has_its_own_crystal() {
    assert_eq!(r82xx_tuner_xtal(TunerType::R828d, true, 28_800_000), 16_000_000);
    assert_eq!(r82xx_tuner_xtal(TunerType::R828d, false, 28_800_000), 28_800_000);
    assert_eq!(r82xx_tuner_xtal(TunerType::R820t, true, 28_800_000), 28_800_000);
    assert_eq!(r82xx_tuner_xtal(TunerType::E4000, false, 1), 1);
}
