use adsbee::mode_s::adsb::AircraftOperationalStatus;
use adsbee::mode_s::adsb::AircraftStatus;
use adsbee::mode_s::adsb::AirborneVelocity;
use adsbee::mode_s::adsb::AltitudeCode;
use adsbee::mode_s::adsb::AltitudeType;
use adsbee::mode_s::adsb::DecodedAltitude;
use adsbee::mode_s::adsb::EmergencyPriorityStatus;
use adsbee::mode_s::adsb::EmergencyPriorityStatusAndModeACode;
use adsbee::mode_s::adsb::GroundSpeedQuantization;
use adsbee::mode_s::adsb::GroundTrack;
use adsbee::mode_s::adsb::MagneticHeading;
use adsbee::mode_s::adsb::Message;
use adsbee::mode_s::adsb::Movement;
use adsbee::mode_s::adsb::NavigationUncertaintyCategory;
use adsbee::mode_s::adsb::SelectedAltitudeType;
use adsbee::mode_s::adsb::SilSupplement;
use adsbee::mode_s::adsb::SurfaceSystemMessage;
use adsbee::mode_s::adsb::SurveillanceStatus;
use adsbee::mode_s::adsb::TurnIndicator;
use adsbee::mode_s::adsb::Velocity;
use adsbee::mode_s::adsb::VelocityType;
use adsbee::mode_s::adsb::VerticalRateValue;
use adsbee::mode_s::adsb::AltitudeDifferenceValue;
use adsbee::mode_s::cpr::Cpr;
use adsbee::mode_s::cpr::CprFormat;
use adsbee::mode_s::util::decode_frame_aligned_altitude_or_identity_code;
use adsbee::mode_s::util::decode_frame_aligned_encoded_position;
use adsbee::mode_s::AltitudeUnit;
use adsbee::mode_s::DecodeError;
use adsbee::types::Squawk;
use bytes::Buf;
use bytes::Bytes;

fn message(me: [u8; 7]) -> Result<Message, DecodeError> {
    let mut buffer = Bytes::copy_from_slice(&me);
    let decoded = Message::decode(&mut buffer);
    assert_eq!(buffer.remaining(), 0);
    assert_eq!(Message::from_bytes(&me), decoded);
    decoded
}

#[test]
fn what_the_table_does_not_name_is_reserved_with_all_its_bytes() {
    let body = [0xDE, 0xAD, 0xBE, 0xEF, 0x01, 0x02];
    for type_code in [25u8, 26, 27, 30] {
        for sub_type in 0u8..8 {
            let me = [type_code << 3 | sub_type, 0xDE, 0xAD, 0xBE, 0xEF, 0x01, 0x02];
            assert_eq!(
                message(me),
                Ok(Message::Reserved { type_code, sub_type, data: body })
            );
        }
    }
    for sub_type in [0u8, 5, 6, 7] {
        let me = [19 << 3 | sub_type, 0xDE, 0xAD, 0xBE, 0xEF, 0x01, 0x02];
        assert_eq!(
            message(me),
            Ok(Message::Reserved { type_code: 19, sub_type, data: body })
        );
    }
    for sub_type in 1u8..8 {
        let me = [23 << 3 | sub_type, 0xDE, 0xAD, 0xBE, 0xEF, 0x01, 0x02];
        assert_eq!(
            message(me),
            Ok(Message::Reserved { type_code: 23, sub_type, data: body })
        );
    }
    for sub_type in [0u8, 3, 4, 5, 6, 7] {
        let me = [28 << 3 | sub_type, 0xDE, 0xAD, 0xBE, 0xEF, 0x01, 0x02];
        assert_eq!(
            message(me),
            Ok(Message::Reserved { type_code: 28, sub_type, data: body })
        );
    }
    for sub_type in [0u8, 1, 4, 5, 6, 7] {
        let me = [29 << 3 | sub_type, 0xDE, 0xAD, 0xBE, 0xEF, 0x01, 0x02];
        assert_eq!(
            message(me),
            Ok(Message::Reserved { type_code: 29, sub_type, data: body })
        );
    }
}

#[test]
fn type_code_zero_keeps_its_body() {
    assert_eq!(
        message([0x03, 1, 2, 3, 4, 5, 6]),
        Ok(Message::NoPosition { sub_type: 3, data: [1, 2, 3, 4, 5, 6] })
    );
}

#[test]
fn test_message_is_type_23_sub_type_0() {
    assert_eq!(
        message([23 << 3, 1, 2, 3, 4, 5, 6]),
        Ok(Message::TestMessage([1, 2, 3, 4, 5, 6]))
    );
}

#[test]
fn surface_system_message_sub_types() {
    assert_eq!(
        message([24 << 3 | 1, 1, 2, 3, 4, 5, 6]),
        Ok(Message::SurfaceSystemMessage(
            SurfaceSystemMessage::MultilaterationSystemStatus([1, 2, 3, 4, 5, 6])
        ))
    );
    assert_eq!(
        message([24 << 3 | 2, 1, 2, 3, 4, 5, 6]),
        Ok(Message::SurfaceSystemMessage(SurfaceSystemMessage::Reserved {
            sub_type: 2,
            data: [1, 2, 3, 4, 5, 6],
        }))
    );
}

#[test]
fn aircraft_status_with_emergency_and_mode_a_code() {
    // status 1 (general emergency), identity word 0x0AAA (7700), 32 bits kept
    let me = [28 << 3 | 1, 0x2A, 0xAA, 0x12, 0x34, 0x56, 0x78];
    match message(me).unwrap() {
        Message::AircraftStatus(AircraftStatus::EmergencyPriorityStatusAndModeACode(status)) => {
            assert_eq!(
                status.emergency_priority_status.as_u8(),
                EmergencyPriorityStatus::GENERAL_EMERGENCY
            );
            assert!(status.emergency_priority_status.is_emergency());
            assert_eq!(status.mode_a_code.as_u16(), 0o7700);
            assert_eq!(status.reserved, 0x12345678);
        }
        other => panic!("not an aircraft status: {:?}", other),
    }
}

#[test]
fn aircraft_status_with_resolution_advisory_keeps_its_body() {
    assert_eq!(
        message([28 << 3 | 2, 1, 2, 3, 4, 5, 6]),
        Ok(Message::AircraftStatus(AircraftStatus::TcasResolutionAdvisory([1, 2, 3, 4, 5, 6])))
    );
}

#[test]
fn target_state_reads_two_fields_and_keeps_the_body() {
    match message([29 << 3 | 0b010, 0x40, 2, 3, 4, 5, 6]).unwrap() {
        Message::TargetStateAndStatusInformation(state) => {
            assert_eq!(state.sil_supplement, SilSupplement::PerHour);
            assert_eq!(state.selected_altitude_type, SelectedAltitudeType::McpFcu);
            assert_eq!(state.data, [0x40, 2, 3, 4, 5, 6]);
        }
        other => panic!("not a target state: {:?}", other),
    }
    match message([29 << 3 | 0b011, 0xBF, 2, 3, 4, 5, 6]).unwrap() {
        Message::TargetStateAndStatusInformation(state) => {
            assert_eq!(state.sil_supplement, SilSupplement::PerSample);
            assert_eq!(state.selected_altitude_type, SelectedAltitudeType::Fms);
            assert_eq!(state.data, [0xBF, 2, 3, 4, 5, 6]);
        }
        other => panic!("not a target state: {:?}", other),
    }
}

#[test]
fn operational_status_keeps_its_body() {
    assert_eq!(
        message([31 << 3, 1, 2, 3, 4, 5, 6]),
        Ok(Message::AircraftOperationalStatus(AircraftOperationalStatus::Airborne {
            data: [1, 2, 3, 4, 5, 6],
        }))
    );
    assert_eq!(
        message([31 << 3 | 1, 1, 2, 3, 4, 5, 6]),
        Ok(Message::AircraftOperationalStatus(AircraftOperationalStatus::Surface {
            data: [1, 2, 3, 4, 5, 6],
        }))
    );
    assert_eq!(
        message([31 << 3 | 5, 1, 2, 3, 4, 5, 6]),
        Ok(Message::AircraftOperationalStatus(AircraftOperationalStatus::Reserved {
            sub_type: 5,
            data: [1, 2, 3, 4, 5, 6],
        }))
    );
}

#[test]
fn gnss_position_type_codes() {
    for type_code in 9u8..=22 {
        if type_code == 19 {
            continue;
        }
        match message([type_code << 3 | 0b101, 0x03, 0x98, 0, 0, 0, 0]).unwrap() {
            Message::AirbornePosition(position) => {
                let expected = if type_code <= 18 {
                    AltitudeType::Barometric
                } else {
                    AltitudeType::Gnss
                };
                assert_eq!(position.altitude_type, expected);
                assert_eq!(position.surveillance_status.as_u8(), 2);
                assert!(position.single_antenna_flag);
                assert!(position.time);
                assert_eq!(position.encoded_altitude.as_u16(), 0x039);
                let altitude = position.altitude().unwrap();
                assert_eq!(altitude.altitude, -375);
                assert_eq!(
                    altitude.unit(),
                    if type_code <= 18 { AltitudeUnit::Feet } else { AltitudeUnit::Meter }
                );
            }
            other => panic!("not an airborne position: {:?}", other),
        }
    }
    assert_eq!(AltitudeType::from_type_code(9), AltitudeType::Barometric);
    assert_eq!(AltitudeType::from_type_code(22), AltitudeType::Gnss);
}

#[test]
fn twelve_bit_altitude_with_q_bit() {
    // 25 steps of 25 ft above -1000 ft
    let code = AltitudeCode::from_u16(0b0000_0011_1001).unwrap();
    assert_eq!(
        code.decode(AltitudeType::Barometric),
        Some(DecodedAltitude { altitude_type: AltitudeType::Barometric, altitude: -375 })
    );
    // the Q bit is bit 4; the bits above it count sixteens
    let code = AltitudeCode::from_u16(0b0001_0011_0000).unwrap();
    assert_eq!(code.decode(AltitudeType::Barometric).unwrap().altitude, 144 * 25 - 1000);
    let code = AltitudeCode::from_u16(0xC38).unwrap();
    assert_eq!(code.decode(AltitudeType::Gnss).unwrap().altitude, 38000);
    assert_eq!(AltitudeCode::from_u16(0xFFF).unwrap().decode(AltitudeType::Barometric).unwrap().altitude, 2047 * 25 - 1000);
}

#[test]
fn twelve_bit_altitude_zero_is_unavailable() {
    assert_eq!(AltitudeCode::from_u16(0).unwrap().decode(AltitudeType::Barometric), None);
    assert_eq!(AltitudeCode::from_u16(0x1000), None);
    assert_eq!(AltitudeCode::from_u16_unchecked(0x1000).as_u16(), 0x1000);
}

#[test]
fn twelve_bit_altitude_without_q_bit_is_a_gillham_word() {
    // the 13-bit words 5800 and 4130 without their metric bit
    let narrow = |word: u16| ((word & 0x1F80) >> 1) | (word & 0x003F);
    let code = AltitudeCode::from_u16(narrow(5800)).unwrap();
    assert_eq!(code.decode(AltitudeType::Barometric).unwrap().altitude, 9100);
    let code = AltitudeCode::from_u16(narrow(4130)).unwrap();
    assert_eq!(code.decode(AltitudeType::Barometric).unwrap().altitude, 2200);
    // every code but 0 stands for an altitude
    for word in 1u16..0x1000 {
        let altitude = AltitudeCode::from_u16(word).unwrap().decode(AltitudeType::Barometric);
        let altitude = altitude.unwrap().altitude;
        if word & 0x010 != 0 {
            assert!((-1000..=50_175).contains(&altitude));
            assert_eq!((altitude + 1000) % 25, 0);
        } else {
            assert!((-1200..=126_700).contains(&altitude));
            assert_eq!((altitude + 1200) % 100, 0);
        }
    }
}

#[test]
fn movement_quantization_boundaries() {
    let eighths = |code: u8| Movement::from_u8(code).unwrap().decode_as_1_8th_kt();
    assert_eq!(eighths(0), None);
    assert_eq!(eighths(1), Some(0));
    assert_eq!(eighths(2), Some(1));
    assert_eq!(eighths(8), Some(7));
    assert_eq!(eighths(9), Some(8));
    assert_eq!(eighths(12), Some(14));
    assert_eq!(eighths(13), Some(16));
    assert_eq!(eighths(38), Some(116));
    assert_eq!(eighths(39), Some(120));
    assert_eq!(eighths(93), Some(552));
    assert_eq!(eighths(94), Some(560));
    assert_eq!(eighths(108), Some(784));
    assert_eq!(eighths(109), Some(800));
    assert_eq!(eighths(123), Some(1360));
    assert_eq!(eighths(124), Some(1400));
    assert_eq!(eighths(125), None);
    assert_eq!(eighths(127), None);
    assert_eq!(Movement::from_u8(128), None);
    assert_eq!(Movement::from_u8_unchecked(200).decode_as_1_8th_kt(), None);
    assert_eq!(Movement::from_u8_unchecked(200).as_u8(), 200);
}

#[test]
fn movement_quantization_table() {
    assert_eq!(GroundSpeedQuantization::from_encoded_value(0), GroundSpeedQuantization::NotAvailable);
    assert_eq!(GroundSpeedQuantization::from_encoded_value(1), GroundSpeedQuantization::Stopped);
    assert_eq!(
        GroundSpeedQuantization::from_encoded_value(50),
        GroundSpeedQuantization::Quantized { encoded_base: 39, decoded_base: 120, decoded_step: 8 }
    );
    assert_eq!(
        GroundSpeedQuantization::from_encoded_value(124),
        GroundSpeedQuantization::Exceeding175Kt
    );
    assert_eq!(GroundSpeedQuantization::from_encoded_value(125), GroundSpeedQuantization::Reserved);
    assert_eq!(GroundSpeedQuantization::from_encoded_value(255), GroundSpeedQuantization::Reserved);
}

#[test]
fn movement_quantization_is_monotonic() {
    let mut last: Option<u32> = None;
    for code in 1u8..=124 {
        let speed = Movement::from_u8(code).unwrap().decode_as_1_8th_kt().unwrap();
        if let Some(previous) = last {
            assert!(previous < speed, "code {}", code);
        }
        last = Some(speed);
    }
}

#[test]
fn checked_constructors_of_velocity_fields() {
    assert_eq!(Velocity::from_u16(0), None);
    assert_eq!(Velocity::from_u16(1).unwrap().as_knots(false), 0);
    assert_eq!(Velocity::from_u16(1023).unwrap().as_knots(false), 1022);
    assert_eq!(Velocity::from_u16(1023).unwrap().as_knots(true), 4088);
    assert_eq!(Velocity::from_u16(1024), None);
    assert_eq!(Velocity::from_u16_unchecked(7).as_u16(), 7);
    assert_eq!(MagneticHeading::from_u16(0).unwrap().as_u16(), 0);
    assert_eq!(MagneticHeading::from_u16(1023).unwrap().as_u16(), 1023);
    assert_eq!(MagneticHeading::from_u16(1024), None);
    assert_eq!(MagneticHeading::from_u16_unchecked(9).as_u16(), 9);
    assert_eq!(VerticalRateValue::from_u16(0), None);
    assert_eq!(VerticalRateValue::from_u16(1).unwrap().as_ft_per_min(), 0);
    assert_eq!(VerticalRateValue::from_u16(511).unwrap().as_ft_per_min(), 32640);
    assert_eq!(VerticalRateValue::from_u16(512), None);
    assert_eq!(VerticalRateValue::from_u16_unchecked(3).as_u16(), 3);
    assert_eq!(AltitudeDifferenceValue::from_u8(0), None);
    assert_eq!(AltitudeDifferenceValue::from_u8(1).unwrap().as_ft(), 0);
    assert_eq!(AltitudeDifferenceValue::from_u8(127).unwrap().as_ft(), 3150);
    assert_eq!(AltitudeDifferenceValue::from_u8(128), None);
    assert_eq!(AltitudeDifferenceValue::from_u8_unchecked(5).as_u8(), 5);
    assert_eq!(NavigationUncertaintyCategory::from_u8(0).unwrap().as_u8(), 0);
    assert_eq!(NavigationUncertaintyCategory::from_u8(7).unwrap().as_u8(), 7);
    assert_eq!(NavigationUncertaintyCategory::from_u8(8), None);
    assert_eq!(NavigationUncertaintyCategory::from_u8_unchecked(0).as_u8(), 0);
    assert_eq!(TurnIndicator::from_u8(0).unwrap().as_u8(), 0);
    assert_eq!(TurnIndicator::from_u8(3).unwrap().as_u8(), 3);
    assert_eq!(TurnIndicator::from_u8(4), None);
    assert_eq!(TurnIndicator::from_u8_unchecked(0).as_u8(), 0);
}

#[test]
fn checked_constructors_of_position_fields() {
    assert_eq!(GroundTrack::from_u8(127).unwrap().as_u8(), 127);
    assert_eq!(GroundTrack::from_u8(128), None);
    assert_eq!(GroundTrack::from_u8_unchecked(128).as_u8(), 128);
    assert_eq!(SurveillanceStatus::from_u8(3).unwrap().as_u8(), SurveillanceStatus::SPI_CONDITION);
    assert_eq!(SurveillanceStatus::from_u8(4), None);
    assert_eq!(SurveillanceStatus::from_u8_unchecked(2).as_u8(), SurveillanceStatus::TEMPORARY_ALERT);
    assert_eq!(SurveillanceStatus::from_u8(1).unwrap().describe(), "SurveillanceStatus::PERMANENT_ALERT");
    assert_eq!(SurveillanceStatus::from_u8(0).unwrap().describe(), "SurveillanceStatus::NO_CONDITION");
    assert_eq!(SurveillanceStatus::from_u8(3).unwrap().describe(), "SurveillanceStatus::SPI_CONDITION");
    assert_eq!(CprFormat::from_bit(true), CprFormat::Odd);
    assert_eq!(CprFormat::from_bit(false), CprFormat::Even);
}

#[test]
fn velocity_with_all_codes_zero_reports_nothing() {
    let velocity = AirborneVelocity::from_payload(&[0, 0, 0, 0, 0, 0], 1);
    assert!(!velocity.supersonic);
    match velocity.velocity_type {
        VelocityType::GroundSpeed(speed) => {
            assert_eq!(speed.velocity_east_west, None);
            assert_eq!(speed.velocity_north_south, None);
        }
        other => panic!("not a ground speed: {:?}", other),
    }
    assert_eq!(velocity.vertical_rate.value, None);
    assert_eq!(velocity.altitude_difference.value, None);

    let velocity = AirborneVelocity::from_payload(&[0xFF; 6], 4);
    assert!(velocity.supersonic);
    assert!(velocity.intent_change_flag);
    assert_eq!(velocity.navigation_uncertainty_category.as_u8(), 7);
    match velocity.velocity_type {
        VelocityType::Airspeed(airspeed) => {
            assert_eq!(airspeed.magnetic_heading.unwrap().as_u16(), 1023);
            assert_eq!(airspeed.airspeed_value.unwrap().as_u16(), 1023);
        }
        other => panic!("not an airspeed: {:?}", other),
    }
    assert_eq!(velocity.vertical_rate.value.unwrap().as_u16(), 511);
    assert_eq!(velocity.turn_indicator.as_u8(), 3);
    assert_eq!(velocity.altitude_difference.value.unwrap().as_u8(), 127);
}

#[test]
fn emergency_squawk_mapping() {
    let status = |code: u16| EmergencyPriorityStatus::from_squawk(Squawk::from_u16(code).unwrap());
    assert_eq!(
        status(0o7500),
        Some(EmergencyPriorityStatus::from_u8_unchecked(EmergencyPriorityStatus::UNLAWFUL_INTERFERENCE))
    );
    assert_eq!(
        status(0o7600),
        Some(EmergencyPriorityStatus::from_u8_unchecked(EmergencyPriorityStatus::NO_COMMUNICATIONS))
    );
    assert_eq!(
        status(0o7700),
        Some(EmergencyPriorityStatus::from_u8_unchecked(EmergencyPriorityStatus::GENERAL_EMERGENCY))
    );
    assert_eq!(status(0o1200), None);
    assert_eq!(status(0o0700), None);
    assert_eq!(EmergencyPriorityStatus::UNLAWFUL_INTERFERENCE, 5);
    assert_eq!(EmergencyPriorityStatus::NO_COMMUNICATIONS, 4);
    assert_eq!(EmergencyPriorityStatus::GENERAL_EMERGENCY, 1);
}

#[test]
fn emergency_status_from_a_squawk() {
    let emergency = EmergencyPriorityStatusAndModeACode::from_squawk(Squawk::from_u16(0o7600).unwrap());
    assert_eq!(emergency.emergency_priority_status.as_u8(), 4);
    assert_eq!(emergency.mode_a_code.as_u16(), 0o7600);
    assert_eq!(emergency.reserved, 0);
    let none = EmergencyPriorityStatusAndModeACode::from_squawk(Squawk::from_u16(0o1200).unwrap());
    assert_eq!(none.emergency_priority_status, EmergencyPriorityStatus::default());
    assert!(!none.emergency_priority_status.is_emergency());
    assert_eq!(EmergencyPriorityStatus::from_u8(7).unwrap().as_u8(), 7);
    assert_eq!(EmergencyPriorityStatus::from_u8(8), None);
}

#[test]
fn emergency_status_describes_itself_by_name() {
    let describe = |code: u8| EmergencyPriorityStatus::from_u8(code).unwrap().describe();
    assert_eq!(describe(0), "EmergencyPriorityStatus::NO_EMERGENCY");
    assert_eq!(describe(1), "EmergencyPriorityStatus::GENERAL_EMERGENCY");
    assert_eq!(describe(2), "EmergencyPriorityStatus::LIFEGUARD_MEDICAL_EMERGENCY");
    assert_eq!(describe(3), "EmergencyPriorityStatus::MINIMAL_FUEL");
    assert_eq!(describe(4), "EmergencyPriorityStatus::NO_COMMUNICATIONS");
    assert_eq!(describe(5), "EmergencyPriorityStatus::UNLAWFUL_INTERFERENCE");
    assert_eq!(describe(6), "EmergencyPriorityStatus::DOWNED_AIRCRAFT");
    assert_eq!(describe(7), "EmergencyPriorityStatus(7)");
}

#[test]
fn frame_aligned_fields() {
    assert_eq!(decode_frame_aligned_altitude_or_identity_code(&[0xFF, 0xFF]), 0x1FFF);
    assert_eq!(decode_frame_aligned_altitude_or_identity_code(&[0xE0, 0x00]), 0);
    assert_eq!(decode_frame_aligned_altitude_or_identity_code(&[0x2A, 0xAA]), 0x0AAA);
    let (format, position) = decode_frame_aligned_encoded_position(&[0xC3, 0x82, 0xD6, 0x90, 0xC8, 0xAC]);
    assert_eq!(format, CprFormat::Even);
    assert_eq!(position, Cpr { latitude: 93000, longitude: 51372 });
    let (format, position) = decode_frame_aligned_encoded_position(&[0, 0x04, 0, 0, 0, 0]);
    assert_eq!(format, CprFormat::Odd);
    assert_eq!(position, Cpr { latitude: 0, longitude: 0 });
    let (_, position) = decode_frame_aligned_encoded_position(&[0, 0x03, 0xFF, 0xFF, 0xFF, 0xFF]);
    assert_eq!(position, Cpr { latitude: 0x1FFFF, longitude: 0x1FFFF });
}
