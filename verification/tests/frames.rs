use adsbee::mode_s::adsb::AircraftIdentification;
use adsbee::mode_s::adsb::AirspeedType;
use adsbee::mode_s::adsb::AltitudeDifferenceSign;
use adsbee::mode_s::adsb::AltitudeType;
use adsbee::mode_s::adsb::DirectionEastWest;
use adsbee::mode_s::adsb::DirectionNorthSouth;
use adsbee::mode_s::adsb::Message;
use adsbee::mode_s::adsb::VelocityType;
use adsbee::mode_s::adsb::VerticalRateSign;
use adsbee::mode_s::adsb::VerticalRateSource;
use adsbee::mode_s::adsb::WakeVortexCategory;
use adsbee::mode_s::cpr::CprFormat;
use adsbee::mode_s::tisb;
use adsbee::mode_s::AltitudeUnit;
use adsbee::mode_s::CodeFormat;
use adsbee::mode_s::DecodeError;
use adsbee::mode_s::DownlinkFormat;
use adsbee::mode_s::ExtendedSquitterNonTransponder;
use adsbee::mode_s::Frame;
use adsbee::mode_s::MilitaryExtendedSquitter;
use adsbee::mode_s::Parity;
use adsbee::mode_s::VerticalStatus;
use adsbee::mode_s::LENGTH_LONG;
use adsbee::mode_s::LENGTH_SHORT;
use adsbee::types::IcaoAddress;
use bytes::Buf;
use bytes::Bytes;

fn hex(text: &str) -> Vec<u8> {
    let digits: Vec<u8> = text
        .bytes()
        .map(|b| match b {
            b'0'..=b'9' => b - b'0',
            b'a'..=b'f' => b - b'a' + 10,
            b'A'..=b'F' => b - b'A' + 10,
            _ => panic!("no hex digit"),
        })
        .collect();
    digits.chunks(2).map(|pair| pair[0] * 16 + pair[1]).collect()
}

fn decode(text: &str) -> Result<Frame, DecodeError> {
    let mut buffer = Bytes::from(hex(text));
    Frame::decode(&mut buffer)
}

#[test]
fn lengths_are_seven_and_fourteen() {
    assert_eq!(LENGTH_SHORT, 7);
    assert_eq!(LENGTH_LONG, 14);
}

#[test]
fn extended_squitter_announces_the_address_in_bytes_one_to_three() {
    let frame = decode("8D4840D6202CC371C32CE0576098").unwrap();
    assert_eq!(frame.downlink_format(), DownlinkFormat::ExtendedSquitter);
    assert_eq!(frame.length(), 14);
    match frame {
        Frame::ExtendedSquitter(squitter) => {
            assert_eq!(squitter.capabilities.as_u8(), 5);
            assert_eq!(
                squitter.address_announced,
                IcaoAddress::from_bytes([0x48, 0x40, 0xD6])
            );
            assert_eq!(u32::from(squitter.address_announced), 0x4840D6);
            assert!(!squitter.address_announced.non_icao());
            assert_eq!(squitter.parity_interrogator, Parity([0x57, 0x60, 0x98]));
            match squitter.adsb_message {
                Message::AircraftIdentification(AircraftIdentification {
                    wake_vortex_category,
                    callsign,
                }) => {
                    assert_eq!(
                        wake_vortex_category,
                        WakeVortexCategory::NoCategoryInformation { type_code: 4 }
                    );
                    assert_eq!(callsign.as_str(), "KLM1023 ");
                }
                other => panic!("not an identification: {:?}", other),
            }
        }
        other => panic!("not an extended squitter: {:?}", other),
    }
}

#[test]
fn decoding_leaves_the_buffer_behind_the_frame() {
    let mut bytes = hex("8D4840D6202CC371C32CE0576098");
    bytes.extend_from_slice(&[0xAA, 0xBB]);
    let mut buffer = Bytes::from(bytes);
    assert!(Frame::decode(&mut buffer).is_ok());
    assert_eq!(buffer.remaining(), 2);
    assert_eq!(&buffer[..], &[0xAA, 0xBB]);

    let mut short = Bytes::from(hex("02E19718BF4C9A01"));
    assert!(Frame::decode(&mut short).is_ok());
    assert_eq!(short.remaining(), 1);
    assert_eq!(&short[..], &[0x01]);
}

#[test]
fn airborne_position_with_barometric_altitude() {
    let frame = decode("8D40621D58C382D690C8AC2863A7").unwrap();
    let squitter = match frame {
        Frame::ExtendedSquitter(squitter) => squitter,
        other => panic!("not an extended squitter: {:?}", other),
    };
    assert_eq!(u32::from(squitter.address_announced), 0x40621D);
    let position = match squitter.adsb_message {
        Message::AirbornePosition(position) => position,
        other => panic!("not an airborne position: {:?}", other),
    };
    assert_eq!(position.altitude_type, AltitudeType::Barometric);
    assert_eq!(position.surveillance_status.as_u8(), 0);
    assert!(!position.single_antenna_flag);
    assert_eq!(position.encoded_altitude.as_u16(), 0xC38);
    assert!(!position.time);
    assert_eq!(position.cpr_format, CprFormat::Even);
    assert_eq!(position.cpr_position.latitude, 93000);
    assert_eq!(position.cpr_position.longitude, 51372);
    let altitude = position.altitude().unwrap();
    assert_eq!(altitude.altitude, 38000);
    assert_eq!(altitude.unit(), AltitudeUnit::Feet);
}

#[test]
fn airborne_position_odd_format() {
    let frame = decode("8D40621D58C386435CC412692AD6").unwrap();
    let position = match frame {
        Frame::ExtendedSquitter(squitter) => match squitter.adsb_message {
            Message::AirbornePosition(position) => position,
            other => panic!("not an airborne position: {:?}", other),
        },
        other => panic!("not an extended squitter: {:?}", other),
    };
    assert_eq!(position.cpr_format, CprFormat::Odd);
    assert_eq!(position.cpr_position.latitude, 74158);
    assert_eq!(position.cpr_position.longitude, 50194);
    assert_eq!(position.altitude().unwrap().altitude, 38000);
}

#[test]
fn airborne_velocity_over_ground() {
    let frame = decode("8D485020994409940838175B284F").unwrap();
    let velocity = match frame {
        Frame::ExtendedSquitter(squitter) => match squitter.adsb_message {
            Message::AirborneVelocity(velocity) => velocity,
            other => panic!("not a velocity: {:?}", other),
        },
        other => panic!("not an extended squitter: {:?}", other),
    };
    assert!(!velocity.supersonic);
    assert!(!velocity.intent_change_flag);
    assert!(velocity.ifr_capability_flag);
    assert_eq!(velocity.navigation_uncertainty_category.as_u8(), 0);
    match velocity.velocity_type {
        VelocityType::GroundSpeed(speed) => {
            assert_eq!(speed.direction_east_west, DirectionEastWest::EastToWest);
            assert_eq!(speed.velocity_east_west.unwrap().as_u16(), 9);
            assert_eq!(speed.velocity_east_west.unwrap().as_knots(false), 8);
            assert_eq!(speed.direction_north_south, DirectionNorthSouth::NorthToSouth);
            assert_eq!(speed.velocity_north_south.unwrap().as_u16(), 160);
            assert_eq!(speed.velocity_north_south.unwrap().as_knots(false), 159);
        }
        other => panic!("not a ground speed: {:?}", other),
    }
    assert_eq!(velocity.vertical_rate.source, VerticalRateSource::Gnss);
    assert_eq!(velocity.vertical_rate.sign, VerticalRateSign::Down);
    assert_eq!(velocity.vertical_rate.value.unwrap().as_u16(), 14);
    assert_eq!(velocity.vertical_rate.value.unwrap().as_ft_per_min(), 832);
    assert_eq!(velocity.turn_indicator.as_u8(), 0);
    assert_eq!(
        velocity.altitude_difference.sign,
        AltitudeDifferenceSign::GnssAboveBarometric
    );
    assert_eq!(velocity.altitude_difference.value.unwrap().as_u8(), 23);
    assert_eq!(velocity.altitude_difference.value.unwrap().as_ft(), 550);
}

#[test]
fn airborne_velocity_as_airspeed() {
    let frame = decode("8DA05F219B06B6AF189400CBC33F").unwrap();
    let velocity = match frame {
        Frame::ExtendedSquitter(squitter) => match squitter.adsb_message {
            Message::AirborneVelocity(velocity) => velocity,
            other => panic!("not a velocity: {:?}", other),
        },
        other => panic!("not an extended squitter: {:?}", other),
    };
    assert!(velocity.supersonic);
    match velocity.velocity_type {
        VelocityType::Airspeed(airspeed) => {
            assert_eq!(airspeed.magnetic_heading.unwrap().as_u16(), 694);
            assert_eq!(airspeed.airspeed_type, AirspeedType::True);
            assert_eq!(airspeed.airspeed_value.unwrap().as_u16(), 376);
            assert_eq!(airspeed.airspeed_value.unwrap().as_knots(false), 375);
            assert_eq!(airspeed.airspeed_value.unwrap().as_knots(true), 1500);
        }
        other => panic!("not an airspeed: {:?}", other),
    }
    assert_eq!(velocity.vertical_rate.source, VerticalRateSource::Barometric);
    assert_eq!(velocity.vertical_rate.sign, VerticalRateSign::Down);
    assert_eq!(velocity.vertical_rate.value.unwrap().as_ft_per_min(), 2304);
    assert_eq!(velocity.altitude_difference.value, None);
}

#[test]
fn surface_position_with_ground_track() {
    let frame = decode("8C4841753A9A153237AEF0F275BE").unwrap();
    let position = match frame {
        Frame::ExtendedSquitter(squitter) => {
            assert_eq!(squitter.capabilities.as_u8(), 4);
            match squitter.adsb_message {
                Message::SurfacePosition(position) => position,
                other => panic!("not a surface position: {:?}", other),
            }
        }
        other => panic!("not an extended squitter: {:?}", other),
    };
    assert_eq!(position.ground_speed.as_u8(), 41);
    assert_eq!(position.ground_speed.decode_as_1_8th_kt(), Some(17 * 8));
    assert_eq!(position.ground_track.unwrap().as_u8(), 33);
    assert!(!position.time);
    assert_eq!(position.cpr_format, CprFormat::Odd);
    assert_eq!(position.cpr_position.latitude, 39195);
    assert_eq!(position.cpr_position.longitude, 110320);
}

#[test]
fn comm_d_is_told_by_the_first_two_bits_alone() {
    for byte_0 in 0xC0u8..=0xFF {
        let mut buffer = Bytes::from(vec![byte_0, 1, 2, 3, 4, 5, 6]);
        let frame = Frame::decode(&mut buffer).unwrap();
        assert_eq!(frame.downlink_format(), DownlinkFormat::CommD);
        assert_eq!(frame.length(), 7);
        assert_eq!(buffer.remaining(), 0);
        match frame {
            Frame::CommD(comm_d) => {
                assert_eq!(comm_d.control, byte_0 & 0x3F);
                assert_eq!(comm_d.data, [1, 2, 3]);
                assert_eq!(comm_d.address_parity, Parity([4, 5, 6]));
            }
            other => panic!("not Comm-D: {:?}", other),
        }
    }
    for byte_0 in 0u8..0xC0 {
        let mut buffer = Bytes::from(vec![byte_0; 14]);
        if let Ok(frame) = Frame::decode(&mut buffer) {
            assert_ne!(frame.downlink_format(), DownlinkFormat::CommD);
        }
    }
}

#[test]
fn downlink_format_two_is_invalid() {
    let mut buffer = Bytes::from(vec![0x10u8, 0, 0, 0, 0, 0, 0]);
    assert_eq!(
        Frame::decode(&mut buffer),
        Err(DecodeError::InvalidDf { value: 2 })
    );
    assert_eq!(buffer.remaining(), 6);
}

#[test]
fn every_first_byte_gives_its_downlink_format_or_invalid_df() {
    for byte_0 in 0u8..=255 {
        let value = byte_0 >> 3;
        let mut buffer = Bytes::from(vec![byte_0, 0x23, 0x45, 0x67, 0x89, 0xAB, 0xCD, 0, 0, 0, 0, 0, 0, 0]);
        let expected = match value {
            0 => Some(DownlinkFormat::ShortAirAirSurveillance),
            4 => Some(DownlinkFormat::SurveillanceAltitudeReply),
            5 => Some(DownlinkFormat::SurveillanceIdentityReply),
            11 => Some(DownlinkFormat::AllCallReply),
            16 => Some(DownlinkFormat::LongAirAirSurveillance),
            17 => Some(DownlinkFormat::ExtendedSquitter),
            18 => Some(DownlinkFormat::ExtendedSquitterNonTransponder),
            19 => Some(DownlinkFormat::MilitaryExtendedSquitter),
            20 => Some(DownlinkFormat::CommBAltitudeReply),
            21 => Some(DownlinkFormat::CommBIdentityReply),
            24..=31 => Some(DownlinkFormat::CommD),
            _ => None,
        };
        assert_eq!(DownlinkFormat::from_u8(value).ok(), expected);
        match (Frame::decode(&mut buffer), expected) {
            (Ok(frame), Some(format)) => {
                assert_eq!(frame.downlink_format(), format);
                assert_eq!(frame.length(), format.frame_length());
                assert_eq!(buffer.remaining(), 14 - frame.length());
            }
            (Err(DecodeError::InvalidDf { value: reported }), None) => {
                assert_eq!(reported, value);
                assert_eq!(buffer.remaining(), 13);
            }
            (Err(DecodeError::InvalidCallsign { .. }), Some(format)) => {
                assert!(format.frame_length() == 14);
                assert_eq!(buffer.remaining(), 3);
            }
            (result, _) => panic!("first byte {:#04x}: {:?}", byte_0, result),
        }
    }
}

#[test]
fn downlink_format_values_above_five_bits_are_invalid() {
    assert_eq!(
        DownlinkFormat::from_u8(32),
        Err(DecodeError::InvalidDf { value: 32 })
    );
    assert_eq!(
        DownlinkFormat::from_u8(0xFF),
        Err(DecodeError::InvalidDf { value: 0xFF })
    );
    assert_eq!(DownlinkFormat::from_u8(31), Ok(DownlinkFormat::CommD));
    assert_eq!(DownlinkFormat::from_u8(24), Ok(DownlinkFormat::CommD));
    assert_eq!(
        DownlinkFormat::from_u8(23),
        Err(DecodeError::InvalidDf { value: 23 })
    );
}

#[test]
fn downlink_formats_are_ordered_as_listed() {
    assert!(DownlinkFormat::ShortAirAirSurveillance < DownlinkFormat::SurveillanceAltitudeReply);
    assert!(DownlinkFormat::CommBIdentityReply < DownlinkFormat::CommD);
    assert!(DownlinkFormat::ExtendedSquitter < DownlinkFormat::ExtendedSquitterNonTransponder);
}

#[test]
fn frame_lengths_of_the_formats() {
    assert_eq!(DownlinkFormat::ShortAirAirSurveillance.frame_length(), 7);
    assert_eq!(DownlinkFormat::SurveillanceAltitudeReply.frame_length(), 7);
    assert_eq!(DownlinkFormat::SurveillanceIdentityReply.frame_length(), 7);
    assert_eq!(DownlinkFormat::AllCallReply.frame_length(), 7);
    assert_eq!(DownlinkFormat::CommD.frame_length(), 7);
    assert_eq!(DownlinkFormat::LongAirAirSurveillance.frame_length(), 14);
    assert_eq!(DownlinkFormat::ExtendedSquitter.frame_length(), 14);
    assert_eq!(DownlinkFormat::ExtendedSquitterNonTransponder.frame_length(), 14);
    assert_eq!(DownlinkFormat::MilitaryExtendedSquitter.frame_length(), 14);
    assert_eq!(DownlinkFormat::CommBAltitudeReply.frame_length(), 14);
    assert_eq!(DownlinkFormat::CommBIdentityReply.frame_length(), 14);
}

#[test]
fn an_empty_buffer_has_no_downlink_format() {
    let mut buffer = Bytes::new();
    assert_eq!(Frame::decode(&mut buffer), Err(DecodeError::NoDf));
    assert_eq!(buffer.remaining(), 0);
}

#[test]
fn a_buffer_shorter_than_the_frame_is_truncated() {
    let mut buffer = Bytes::from(hex("8D4840D6202CC371C32CE05760"));
    assert_eq!(
        Frame::decode(&mut buffer),
        Err(DecodeError::Truncated { expected: 14, actual: 13 })
    );
    assert_eq!(buffer.remaining(), 12);

    let mut buffer = Bytes::from(vec![0x20u8, 1, 2, 3, 4, 5]);
    assert_eq!(
        Frame::decode(&mut buffer),
        Err(DecodeError::Truncated { expected: 7, actual: 6 })
    );

    let mut buffer = Bytes::from(vec![0x8Du8]);
    assert_eq!(
        Frame::decode(&mut buffer),
        Err(DecodeError::Truncated { expected: 14, actual: 1 })
    );
}

#[test]
fn a_callsign_with_an_unused_group_fails_the_frame() {
    // the third group of the callsign is 0, which stands for no character
    let mut buffer = Bytes::from(hex("8D4840D6202CC031C32CE0576098"));
    assert_eq!(
        Frame::decode(&mut buffer),
        Err(DecodeError::InvalidCallsign {
            encoding: [0x2C, 0xC0, 0x31, 0xC3, 0x2C, 0xE0],
            byte: 0,
        })
    );
    assert_eq!(buffer.remaining(), 3);
}

#[test]
fn short_air_air_surveillance_fields() {
    // DF 0, VS = 1, CC = 1; SL = 5, RI = 3, AC = 0x188C
    let frame = decode("06A1988C123456").unwrap();
    match frame {
        Frame::ShortAirAirSurveillance(reply) => {
            assert_eq!(reply.vertical_status, VerticalStatus::Ground);
            assert!(reply.cross_link_capability.0);
            assert_eq!(reply.sensitivity_level.as_u8(), 5);
            assert_eq!(reply.reply_information.as_u8(), 3);
            assert_eq!(reply.altitude_code.as_u16(), 0x188C);
            assert_eq!(reply.address_parity, Parity([0x12, 0x34, 0x56]));
        }
        other => panic!("not a short air-air reply: {:?}", other),
    }
    let frame = decode("00A1988C123456").unwrap();
    match frame {
        Frame::ShortAirAirSurveillance(reply) => {
            assert_eq!(reply.vertical_status, VerticalStatus::Airborne);
            assert!(!reply.cross_link_capability.0);
        }
        other => panic!("not a short air-air reply: {:?}", other),
    }
}

#[test]
fn long_air_air_surveillance_fields() {
    let frame = decode("80E1998C0102030405060778ABCD").unwrap();
    assert_eq!(frame.length(), 14);
    match frame {
        Frame::LongAirAirSurveillance(reply) => {
            assert_eq!(reply.vertical_status, VerticalStatus::Airborne);
            assert_eq!(reply.sensitivity_level.as_u8(), 7);
            assert_eq!(reply.reply_information.as_u8(), 3);
            assert_eq!(reply.altitude_code.as_u16(), 0x198C);
            assert_eq!(reply.message, [1, 2, 3, 4, 5, 6, 7]);
            assert_eq!(reply.address_parity, Parity([0x78, 0xAB, 0xCD]));
        }
        other => panic!("not a long air-air reply: {:?}", other),
    }
}

#[test]
fn surveillance_altitude_reply_fields() {
    // DF 4, FS = 2; DR = 0b10101, UM = 0b110110, AC = 0x18B0 (38600 ft)
    let frame = decode("22AED8B0AABBCC").unwrap();
    match frame {
        Frame::SurveillanceAltitudeReply(reply) => {
            assert_eq!(reply.flight_status.as_u8(), 2);
            assert!(reply.flight_status.alert());
            assert_eq!(reply.downlink_request.as_u8(), 0b10101);
            assert_eq!(reply.utility_message.interrogator_identifier_subfield.as_u8(), 0b1101);
            assert_eq!(reply.utility_message.interrogator_reservation_type.as_u8(), 0b10);
            assert_eq!(reply.altitude_code.as_u16(), 0x18B0);
            assert_eq!(reply.altitude_code.decode().unwrap().altitude, 38600);
            assert_eq!(reply.address_parity, Parity([0xAA, 0xBB, 0xCC]));
        }
        other => panic!("not an altitude reply: {:?}", other),
    }
}

#[test]
fn surveillance_identity_reply_fields() {
    // DF 5, FS = 0, identity 0x0AAA
    let frame = decode("28000AAA010203").unwrap();
    match frame {
        Frame::SurveillanceIdentityReply(reply) => {
            assert_eq!(reply.flight_status.as_u8(), 0);
            assert_eq!(reply.downlink_request.as_u8(), 0);
            assert_eq!(reply.identity_code.as_u16(), 0x0AAA);
            assert_eq!(reply.identity_code.squawk().as_u16(), 0o7700);
            assert!(!reply.identity_code.ident());
            assert_eq!(reply.address_parity, Parity([1, 2, 3]));
        }
        other => panic!("not an identity reply: {:?}", other),
    }
}

#[test]
fn comm_b_replies_keep_their_message() {
    let frame = decode("A0000AAA11223344556677010203").unwrap();
    match frame {
        Frame::CommBAltitudeReply(reply) => {
            assert_eq!(reply.altitude_code.as_u16(), 0x0AAA);
            assert_eq!(reply.message, [0x11, 0x22, 0x33, 0x44, 0x55, 0x66, 0x77]);
            assert_eq!(reply.address_parity, Parity([1, 2, 3]));
        }
        other => panic!("not a Comm-B altitude reply: {:?}", other),
    }
    let frame = decode("AD000AAA11223344556677010203").unwrap();
    match frame {
        Frame::CommBIdentityReply(reply) => {
            assert_eq!(reply.flight_status.as_u8(), 5);
            assert!(reply.flight_status.spi());
            assert_eq!(reply.identity_code.squawk().as_u16(), 0o7700);
            assert_eq!(reply.message, [0x11, 0x22, 0x33, 0x44, 0x55, 0x66, 0x77]);
        }
        other => panic!("not a Comm-B identity reply: {:?}", other),
    }
}

#[test]
fn all_call_reply_fields() {
    let frame = decode("5D4840D6ABCDEF").unwrap();
    match frame {
        Frame::AllCallReply(reply) => {
            assert_eq!(reply.capability.as_u8(), 5);
            assert_eq!(u32::from(reply.address_announced), 0x4840D6);
            assert_eq!(reply.parity_interrogator, Parity([0xAB, 0xCD, 0xEF]));
        }
        other => panic!("not an all-call reply: {:?}", other),
    }
}

#[test]
fn every_code_format_has_its_own_variant() {
    for code_format in 0u8..8 {
        let mut bytes = vec![0x90 | code_format];
        bytes.extend_from_slice(&[0x48, 0x40, 0xD6]);
        bytes.extend_from_slice(&[0x20, 0x2C, 0xC3, 0x71, 0xC3, 0x2C, 0xE0]);
        bytes.extend_from_slice(&[0x57, 0x60, 0x98]);
        let mut buffer = Bytes::from(bytes.clone());
        let frame = Frame::decode(&mut buffer).unwrap();
        assert_eq!(buffer.remaining(), 0);
        let squitter = match frame {
            Frame::ExtendedSquitterNonTransponder(squitter) => squitter,
            other => panic!("not a non-transponder squitter: {:?}", other),
        };
        assert_eq!(squitter.code_format(), CodeFormat::from_u8(code_format).unwrap());
        let parity = Parity([0x57, 0x60, 0x98]);
        let message = tisb::Message { data: [0x20, 0x2C, 0xC3, 0x71, 0xC3, 0x2C, 0xE0] };
        let mut data = [0u8; 10];
        data.copy_from_slice(&bytes[1..11]);
        let address = IcaoAddress::from_u32(0x4840D6).unwrap();
        match squitter {
            ExtendedSquitterNonTransponder::AdsbWithIcaoAddress {
                address_announced,
                adsb_message,
                parity_interrogator,
            } => {
                assert_eq!(code_format, 0);
                assert_eq!(address_announced, address);
                assert!(matches!(adsb_message, Message::AircraftIdentification(_)));
                assert_eq!(parity_interrogator, parity);
            }
            ExtendedSquitterNonTransponder::AdsbWithNonIcaoAddress {
                address_announced,
                adsb_message,
                parity_interrogator,
            } => {
                assert_eq!(code_format, 1);
                assert_eq!(address_announced, address.with_non_icao_flag());
                assert!(address_announced.non_icao());
                assert!(matches!(adsb_message, Message::AircraftIdentification(_)));
                assert_eq!(parity_interrogator, parity);
            }
            ExtendedSquitterNonTransponder::TisbWithIcaoAddress1 {
                address_announced,
                tisb_message,
                parity_interrogator,
            } => {
                assert_eq!(code_format, 2);
                assert_eq!(address_announced, address);
                assert_eq!(tisb_message, message);
                assert_eq!(parity_interrogator, parity);
            }
            ExtendedSquitterNonTransponder::TisbWithIcaoAddress2 {
                address_announced,
                tisb_message,
                parity_interrogator,
            } => {
                assert_eq!(code_format, 3);
                assert_eq!(address_announced, address);
                assert_eq!(tisb_message, message);
                assert_eq!(parity_interrogator, parity);
            }
            ExtendedSquitterNonTransponder::TisbAndAdsrManagement {
                data: kept,
                parity_interrogator,
            } => {
                assert_eq!(code_format, 4);
                assert_eq!(kept, data);
                assert_eq!(parity_interrogator, parity);
            }
            ExtendedSquitterNonTransponder::TisbWithNonIcaoAddress {
                address_announced,
                tisb_message,
                parity_interrogator,
            } => {
                assert_eq!(code_format, 5);
                assert_eq!(address_announced, address.with_non_icao_flag());
                assert_eq!(tisb_message, message);
                assert_eq!(parity_interrogator, parity);
            }
            ExtendedSquitterNonTransponder::AdsrRebroadcast {
                address_announced,
                adsb_message,
                parity_interrogator,
            } => {
                assert_eq!(code_format, 6);
                assert_eq!(address_announced, address);
                assert!(matches!(adsb_message, Message::AircraftIdentification(_)));
                assert_eq!(parity_interrogator, parity);
            }
            ExtendedSquitterNonTransponder::Reserved { data: kept, parity_interrogator } => {
                assert_eq!(code_format, 7);
                assert_eq!(kept, data);
                assert_eq!(parity_interrogator, parity);
            }
        }
    }
}

#[test]
fn military_squitter_is_adsb_or_reserved() {
    let frame = decode("984840D6202CC371C32CE0576098").unwrap();
    match frame {
        Frame::MilitaryExtendedSquitter(MilitaryExtendedSquitter::Adsb {
            address_announced,
            adsb_message,
            parity_interrogator,
        }) => {
            assert_eq!(u32::from(address_announced), 0x4840D6);
            assert!(matches!(adsb_message, Message::AircraftIdentification(_)));
            assert_eq!(parity_interrogator, Parity([0x57, 0x60, 0x98]));
        }
        other => panic!("not a military ADS-B squitter: {:?}", other),
    }
    for application_field in 1u8..8 {
        let mut bytes = vec![0x98 | application_field];
        bytes.extend_from_slice(&[1, 2, 3, 4, 5, 6, 7, 8, 9, 10, 11, 12, 13]);
        let mut buffer = Bytes::from(bytes);
        match Frame::decode(&mut buffer).unwrap() {
            Frame::MilitaryExtendedSquitter(MilitaryExtendedSquitter::Reserved {
                application_field: kept,
                data,
            }) => {
                assert_eq!(kept, application_field);
                assert_eq!(data, [1, 2, 3, 4, 5, 6, 7, 8, 9, 10, 11, 12, 13]);
            }
            other => panic!("not a reserved military squitter: {:?}", other),
        }
        assert_eq!(buffer.remaining(), 0);
    }
}

#[test]
fn buffers_of_seven_and_fourteen_bytes_decode_or_fail_with_a_listed_error() {
    // a walk through first bytes and type bytes with a fixed tail
    for byte_0 in 0u8..=255 {
        for type_byte in 0u8..=255 {
            for length in [7usize, 14] {
                let mut bytes = vec![byte_0, 0x12, 0x34, 0x56, type_byte, 0x04, 0x10, 0x41, 0x04, 0x10, 0x41, 9, 8, 7];
                bytes.truncate(length);
                let mut buffer = Bytes::from(bytes);
                match Frame::decode(&mut buffer) {
                    Ok(frame) => {
                        assert!(frame.length() == 7 || frame.length() == 14);
                        assert_eq!(buffer.remaining(), length - frame.length());
                    }
                    Err(DecodeError::InvalidDf { value }) => assert_eq!(value, byte_0 >> 3),
                    Err(DecodeError::Truncated { expected, actual }) => {
                        assert_eq!((expected, actual), (14, 7));
                    }
                    Err(DecodeError::InvalidCallsign { .. }) => {
                        assert_eq!(length, 14);
                        assert!((1..=4).contains(&(type_byte >> 3)));
                    }
                    Err(DecodeError::NoDf) => panic!("the buffer is not empty"),
                }
            }
        }
    }
}

#[test]
fn decoding_a_slice_is_decoding_a_buffer_of_its_bytes() {
    for text in [
        "8D4840D6202CC371C32CE0576098",
        "8D40621D58C382D690C8AC2863A7",
        "8D485020994409940838175B284F",
        "8C4841753A9A153237AEF0F275BE",
        "5D4840D6ABCDEF",
        "22AED8B0AABBCC",
        "C1020304050607",
        "10000000000000",
        "8D4840D6202CC031C32CE0576098",
        "8D4840",
        "",
    ] {
        let bytes = hex(text);
        let mut buffer = Bytes::from(bytes.clone());
        let decoded = Frame::decode(&mut buffer);
        let (from_slice, consumed) = Frame::decode_slice(&bytes);
        assert_eq!(from_slice, decoded, "frame {}", text);
        assert_eq!(consumed, bytes.len() - buffer.remaining(), "frame {}", text);
    }
    let mut longer = hex("5D4840D6ABCDEF");
    longer.extend_from_slice(&[1, 2, 3]);
    assert_eq!(Frame::decode_slice(&longer), (decode("5D4840D6ABCDEF"), 7));
    assert_eq!(Frame::decode_slice(&[]), (Err(DecodeError::NoDf), 0));
    assert_eq!(
        Frame::decode_slice(&[0x10, 0, 0]),
        (Err(DecodeError::InvalidDf { value: 2 }), 1)
    );
    assert_eq!(
        Frame::decode_slice(&hex("8D4840D6202CC031C32CE0576098")).1,
        11
    );
}
