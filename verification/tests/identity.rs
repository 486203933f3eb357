use adsbee::mode_s::adsb::callsign_character;
use adsbee::mode_s::adsb::valid_callsign_char;
use adsbee::mode_s::adsb::Callsign;
use adsbee::mode_s::adsb::InvalidCallsign;
use adsbee::mode_s::adsb::WakeVortexCategory;
use adsbee::mode_s::util::gillham::decode_gillham_ac13;
use adsbee::mode_s::util::gillham::decode_gillham_id13;
use adsbee::mode_s::DecodeError;
use adsbee::mode_s::IdentityCode;
use adsbee::types::IcaoAddress;
use adsbee::types::Squawk;

#[test]
fn squawk_text_round_trip_for_every_code() {
    for code in 0u16..4096 {
        let text = format!("{:04o}", code);
        let squawk = Squawk::from_u16(code).unwrap();
        assert_eq!(squawk.to_string(), text);
        assert_eq!(Squawk::from_str(&text).ok(), Squawk::from_u16(code));
        assert_eq!(Squawk::from_str(&squawk.to_string()).ok(), Some(squawk));
        assert_eq!(text.parse::<Squawk>().ok(), Some(squawk));
    }
}

#[test]
fn squawk_text_of_all_widths() {
    assert_eq!(Squawk::from_u16(0).unwrap().to_string(), "0000");
    assert_eq!(Squawk::from_u16(0o7).unwrap().to_string(), "0007");
    assert_eq!(Squawk::from_u16(0o7777).unwrap().to_string(), "7777");
    assert_eq!(Squawk::from_u16_unchecked(0o10000).to_string(), "10000");
    assert_eq!(Squawk::from_u16_unchecked(0xFFFF).to_string(), "177777");
    assert_eq!(Squawk::from_u16(0o7700).unwrap().describe(), "Squawk(7700)");
}

#[test]
fn squawk_from_text_accepts_what_the_integer_parser_accepts() {
    let code = |text: &str| Squawk::from_str(text).ok().map(|squawk| squawk.as_u16());
    assert_eq!(code("7700"), Some(0o7700));
    assert_eq!(code("+7700"), Some(0o7700));
    assert_eq!(code("7"), Some(7));
    assert_eq!(code("00000007"), Some(7));
    assert_eq!(code("7777"), Some(0o7777));
    assert_eq!(code("10000"), None);
    assert_eq!(code("177777"), None);
    assert_eq!(code("77777777777777777777"), None);
    assert_eq!(code(""), None);
    assert_eq!(code("+"), None);
    assert_eq!(code("-7"), None);
    assert_eq!(code("++7"), None);
    assert_eq!(code("7+"), None);
    assert_eq!(code("8"), None);
    assert_eq!(code("12a4"), None);
    assert_eq!(code(" 7700"), None);
    assert_eq!(code("7700 "), None);
    assert_eq!(code("77é"), None);
    for text in ["7700", "+7700", "00000007", "10000", "", "+", "-7", "8", " 1", "77777777777777777777"] {
        let expected = u16::from_str_radix(text, 8).ok().filter(|code| *code < 4096);
        assert_eq!(code(text), expected, "text {:?}", text);
    }
}

#[test]
fn squawk_error_holds_the_text() {
    assert_eq!(Squawk::from_str("nope").unwrap_err().input, "nope");
    assert_eq!(Squawk::from_str("").unwrap_err().input, "");
}

#[test]
fn squawk_checked_constructor() {
    assert_eq!(Squawk::from_u16(0o7777).unwrap().as_u16(), 4095);
    assert_eq!(Squawk::from_u16(0o10000), None);
    assert_eq!(Squawk::from_u16(9999), None);
    assert_eq!(u16::from(Squawk::from_u16(0o1234).unwrap()), 0o1234);
    assert_eq!(Squawk::VFR_STANDARD, 0o0700);
    assert_eq!(Squawk::AIRCRAFT_HIJACKING, 0o7500);
    assert_eq!(Squawk::RADIO_FAILURE, 0o7600);
    assert_eq!(Squawk::EMERGENCY, 0o7700);
}

#[test]
fn squawk_from_hex_digits() {
    assert_eq!(Squawk::from_u16_hex(0x7700).as_u16(), 0o7700);
    assert_eq!(Squawk::from_u16_hex(0x1234).as_u16(), 0o1234);
    assert_eq!(Squawk::from_u16_hex(0xFFFF).as_u16(), 0o7777);
    assert_eq!(Squawk::from_u16_hex(0x8888).as_u16(), 0);
    assert_eq!(Squawk::from_u16_hex(0x0A0C).as_u16(), 0o0204);
}

#[test]
fn icao_address_bytes_round_trip() {
    for address in [0u32, 1, 0xFF, 0x100, 0xFFFF, 0x10000, 0x4840D6, 0xABCDEF, 0xFFFFFF] {
        let icao = IcaoAddress::from_u32(address).unwrap();
        assert_eq!(IcaoAddress::from_bytes(icao.as_bytes()), icao);
        assert_eq!(
            icao.as_bytes(),
            [(address >> 16) as u8, (address >> 8) as u8, address as u8]
        );
        let flagged = icao.with_non_icao_flag();
        assert_eq!(IcaoAddress::from_bytes(flagged.as_bytes()), icao);
    }
    let mut address = 0u32;
    while address <= 0xFFFFFF {
        let icao = IcaoAddress::from_u32(address).unwrap();
        assert_eq!(IcaoAddress::from_bytes(icao.as_bytes()), icao);
        address += 4099;
    }
    assert_eq!(IcaoAddress::from_bytes([0x12, 0x34, 0x56]).as_bytes(), [0x12, 0x34, 0x56]);
}

#[test]
fn icao_address_checked_constructor() {
    assert_eq!(u32::from(IcaoAddress::from_u32(0xFFFFFF).unwrap()), 0xFFFFFF);
    assert_eq!(IcaoAddress::from_u32(0x1000000), None);
    assert_eq!(u32::from(IcaoAddress::from_u32_unchecked(0x1000000)), 0x1000000);
    assert!(!IcaoAddress::from_u32(5).unwrap().non_icao());
    assert!(IcaoAddress::from_u32(5).unwrap().with_non_icao_flag().non_icao());
    assert_eq!(u32::from(IcaoAddress::from_u32(0x4840D6).unwrap()), 0x4840D6);
}

#[test]
fn icao_address_text() {
    let icao = IcaoAddress::from_u32(0x4840D6).unwrap();
    assert_eq!(icao.to_string(), "4840d6");
    assert_eq!(icao.with_non_icao_flag().to_string(), "~4840d6");
    assert_eq!(icao.describe(), "IcaoAddress(4840d6)");
    assert_eq!(icao.with_non_icao_flag().describe(), "IcaoAddress(~4840d6)");
    assert_eq!(IcaoAddress::from_u32(0xAB).unwrap().to_string(), "0000ab");
    assert_eq!(IcaoAddress::from_u32(0).unwrap().to_string(), "000000");
    assert_eq!(IcaoAddress::from_u32_unchecked(0x12345678).to_string(), "12345678");
}

#[test]
fn icao_address_from_text() {
    let parse = |text: &str| IcaoAddress::from_str(text).ok();
    let icao = IcaoAddress::from_u32(0x4840D6).unwrap();
    assert_eq!(parse("4840d6"), Some(icao));
    assert_eq!(parse("4840D6"), Some(icao));
    assert_eq!(parse("~4840d6"), Some(icao.with_non_icao_flag()));
    assert_eq!(parse("+4840d6"), Some(icao));
    assert_eq!(parse("~+4840d6"), Some(icao.with_non_icao_flag()));
    assert_eq!(parse("ab"), IcaoAddress::from_u32(0xAB));
    assert_eq!(parse("ffffff"), IcaoAddress::from_u32(0xFFFFFF));
    assert_eq!(parse("1000000"), None);
    assert_eq!(parse("ffffffffff"), None);
    assert_eq!(parse(""), None);
    assert_eq!(parse("~"), None);
    assert_eq!(parse("~~1"), None);
    assert_eq!(parse("4840g6"), None);
    assert_eq!(parse("0x4840d6"), None);
    assert_eq!(IcaoAddress::from_str("~zz").unwrap_err().input, "~zz");
    assert_eq!("~00000a".parse::<IcaoAddress>().ok(), Some(IcaoAddress::from_u32(10).unwrap().with_non_icao_flag()));
    for address in [0u32, 0xAB, 0x4840D6, 0xFFFFFF] {
        let icao = IcaoAddress::from_u32(address).unwrap();
        assert_eq!(parse(&icao.to_string()), Some(icao));
        let flagged = icao.with_non_icao_flag();
        assert_eq!(parse(&flagged.to_string()), Some(flagged));
    }
}

#[test]
fn identity_word_to_squawk() {
    assert_eq!(decode_gillham_id13(0x0AAA), 0o7700);
    assert_eq!(decode_gillham_id13(0x0808), 0o1200);
    assert_eq!(decode_gillham_id13(0), 0);
    assert_eq!(decode_gillham_id13(0x1FFF), 0o7777);
    assert_eq!(decode_gillham_id13(0x1FBF), 0o7777);
    assert_eq!(decode_gillham_id13(0x0040), 0);
    // one pulse at a time: C1 A1 C2 A2 C4 A4 X B1 D1 B2 D2 B4 D4
    assert_eq!(decode_gillham_id13(0x1000), 0o0010);
    assert_eq!(decode_gillham_id13(0x0800), 0o1000);
    assert_eq!(decode_gillham_id13(0x0400), 0o0020);
    assert_eq!(decode_gillham_id13(0x0200), 0o2000);
    assert_eq!(decode_gillham_id13(0x0100), 0o0040);
    assert_eq!(decode_gillham_id13(0x0080), 0o4000);
    assert_eq!(decode_gillham_id13(0x0020), 0o0100);
    assert_eq!(decode_gillham_id13(0x0010), 0o0001);
    assert_eq!(decode_gillham_id13(0x0008), 0o0200);
    assert_eq!(decode_gillham_id13(0x0004), 0o0002);
    assert_eq!(decode_gillham_id13(0x0002), 0o0400);
    assert_eq!(decode_gillham_id13(0x0001), 0o0004);
    let identity = IdentityCode::from_u16(0x0AAA | 0x0040).unwrap();
    assert!(identity.ident());
    assert_eq!(identity.squawk().as_u16(), 0o7700);
    assert_eq!(identity.describe(), "IdentityCode(7700, ident)");
    assert_eq!(IdentityCode::from_u16(0x0808).unwrap().describe(), "IdentityCode(1200)");
    assert_eq!(IdentityCode::from_u16(0x2000), None);
    assert_eq!(IdentityCode::from_u16_unchecked(0x2000).as_u16(), 0x2000);
}

#[test]
fn gillham_altitude_words() {
    assert_eq!(decode_gillham_ac13(5800), 103);
    assert_eq!(decode_gillham_ac13(4130), 34);
    // the lowest altitude: no 500 ft pulse, C4 alone
    assert_eq!(decode_gillham_ac13(0x0100), 0);
    // the 100 ft codes 1, 2, 3, 4 and 7 in their order
    assert_eq!(decode_gillham_ac13(0x0500), 1);
    assert_eq!(decode_gillham_ac13(0x0400), 2);
    assert_eq!(decode_gillham_ac13(0x1400), 3);
    assert_eq!(decode_gillham_ac13(0x1000), 4);
    // within an odd 500 ft step the 100 ft steps run backwards
    assert_eq!(decode_gillham_ac13(0x0102), 9);
    assert_eq!(decode_gillham_ac13(0x1002), 5);
    // a 100 ft code of 0 counts as the first step, 5 and 6 as the fifth
    assert_eq!(decode_gillham_ac13(0), 0);
    assert_eq!(decode_gillham_ac13(0x0004), 1279);
    assert_eq!(decode_gillham_ac13(0x1500), 4);
    assert_eq!(decode_gillham_ac13(0x1100), 4);
    // the places of the metric bit and of the Q bit have no part
    assert_eq!(decode_gillham_ac13(5800 | 0x0050), 103);
    let mut highest = 0;
    for word in 0u16..0x2000 {
        let hundreds = decode_gillham_ac13(word);
        assert!(hundreds < 1280);
        highest = highest.max(hundreds);
    }
    assert_eq!(highest, 1279);
}

#[test]
fn callsign_from_six_bytes() {
    let callsign = Callsign::from_bytes([0x2C, 0xC3, 0x71, 0xC3, 0x2C, 0xE0]).unwrap();
    assert_eq!(callsign.as_str(), "KLM1023 ");
    assert_eq!(callsign.to_string(), "KLM1023 ");
    assert_eq!(callsign.describe(), "Callsign(\"KLM1023 \")");
    assert_eq!(callsign.characters, *b"KLM1023 ");
}

#[test]
fn callsign_with_a_group_outside_the_alphabet_is_rejected() {
    let bytes = [0x20, 0x2C, 0xC3, 0x71, 0xC3, 0x2C];
    assert_eq!(
        Callsign::from_bytes(bytes),
        Err(DecodeError::InvalidCallsign { encoding: bytes, byte: 28 })
    );
    for group in 0u8..64 {
        let valid = matches!(group, 1..=26 | 32 | 48..=57);
        for place in 0..8 {
            // a callsign of spaces with one group replaced
            let mut groups = [32u8; 8];
            groups[place] = group;
            let mut bits: u64 = 0;
            for g in groups {
                bits = (bits << 6) | g as u64;
            }
            let bytes = [
                (bits >> 40) as u8,
                (bits >> 32) as u8,
                (bits >> 24) as u8,
                (bits >> 16) as u8,
                (bits >> 8) as u8,
                bits as u8,
            ];
            match Callsign::from_bytes(bytes) {
                Ok(callsign) => {
                    assert!(valid);
                    assert_eq!(callsign.characters[place], callsign_character(group));
                }
                Err(DecodeError::InvalidCallsign { encoding, byte }) => {
                    assert!(!valid);
                    assert_eq!(encoding, bytes);
                    assert_eq!(byte, group);
                }
                Err(other) => panic!("unexpected error {:?}", other),
            }
        }
    }
}

#[test]
fn callsign_table() {
    let table = b"#ABCDEFGHIJKLMNOPQRSTUVWXYZ##### ###############0123456789######";
    for group in 0u8..64 {
        assert_eq!(callsign_character(group), table[group as usize]);
    }
    assert_eq!(callsign_character(64), b'#');
    assert_eq!(callsign_character(255), b'#');
}

#[test]
fn callsign_encode_and_decode_round_trip() {
    let alphabet = b"ABCDEFGHIJKLMNOPQRSTUVWXYZ0123456789 ";
    for (i, first) in alphabet.iter().enumerate() {
        let mut characters = [b' '; 8];
        for place in 0..8 {
            characters[place] = alphabet[(i + 5 * place) % alphabet.len()];
        }
        characters[0] = *first;
        let callsign = Callsign { characters };
        let decoded = Callsign::from_bytes(callsign.encode()).unwrap();
        assert_eq!(decoded, callsign);
        assert_eq!(decoded.as_str().as_bytes(), &characters);
        assert_eq!(Callsign::from_bytes(decoded.encode()), Ok(callsign));
    }
    let callsign = Callsign::from_str("KLM1023").unwrap();
    assert_eq!(callsign.encode(), [0x2C, 0xC3, 0x71, 0xC3, 0x2C, 0xE0]);
}

#[test]
fn callsign_from_text() {
    assert_eq!(Callsign::from_str("KLM1023 ").unwrap().as_str(), "KLM1023 ");
    assert_eq!(Callsign::from_str("KLM1023").unwrap().as_str(), "KLM1023 ");
    assert_eq!(Callsign::from_str("").unwrap().as_str(), "        ");
    assert_eq!(Callsign::from_str("A B").unwrap().as_str(), "A B     ");
    assert_eq!(Callsign::from_str("KLM10234X"), Err(InvalidCallsign::InvalidLength(9)));
    assert_eq!(
        Callsign::from_str("klm"),
        Err(InvalidCallsign::InvalidChar { position: 0, character: 'k' })
    );
    assert_eq!(
        Callsign::from_str("KL-M"),
        Err(InvalidCallsign::InvalidChar { position: 2, character: '-' })
    );
    assert_eq!(
        Callsign::from_str("AÄ"),
        Err(InvalidCallsign::InvalidChar { position: 1, character: 'Ä' })
    );
    // five characters in ten bytes
    assert_eq!(Callsign::from_str("ÄÄÄÄÄ"), Err(InvalidCallsign::InvalidLength(10)));
    assert_eq!("DLH400".parse::<Callsign>().unwrap().as_str(), "DLH400  ");
    let callsign = Callsign::from_str("N12345").unwrap();
    assert_eq!(Callsign::from_str(callsign.as_str()), Ok(callsign));
    assert_eq!(Callsign::LENGTH, 8);
}

#[test]
fn callsign_characters() {
    for c in "ABCXYZ0189 ".chars() {
        assert!(valid_callsign_char(c));
    }
    for c in "abz#-_@[/:\u{0}é".chars() {
        assert!(!valid_callsign_char(c));
    }
}

#[test]
fn wake_vortex_categories() {
    let category = WakeVortexCategory::from_type_code_and_category_unchecked;
    assert_eq!(category(1, 0), WakeVortexCategory::NoCategoryInformation { type_code: 1 });
    assert_eq!(category(4, 0), WakeVortexCategory::NoCategoryInformation { type_code: 4 });
    assert_eq!(category(1, 3), WakeVortexCategory::Reserved { type_code: 1, category: 3 });
    assert_eq!(category(2, 1), WakeVortexCategory::SurfaceEmergencyVehicle);
    assert_eq!(category(2, 2), WakeVortexCategory::Reserved { type_code: 2, category: 2 });
    assert_eq!(category(2, 3), WakeVortexCategory::SurfaceServiceVehicle);
    for obstruction in 4u8..=7 {
        assert_eq!(
            category(2, obstruction),
            WakeVortexCategory::GroundObstruction { category: obstruction }
        );
    }
    assert_eq!(category(3, 1), WakeVortexCategory::GliderSailplane);
    assert_eq!(category(3, 2), WakeVortexCategory::LighterThanAir);
    assert_eq!(category(3, 3), WakeVortexCategory::ParachutistSkydiver);
    assert_eq!(category(3, 4), WakeVortexCategory::UltralightHangGliderParaGlider);
    assert_eq!(category(3, 5), WakeVortexCategory::Reserved { type_code: 3, category: 5 });
    assert_eq!(category(3, 6), WakeVortexCategory::UnmannedAerialVehicle);
    assert_eq!(category(3, 7), WakeVortexCategory::SpaceTransatmospherricVehicle);
    assert_eq!(category(4, 1), WakeVortexCategory::Light);
    assert_eq!(category(4, 2), WakeVortexCategory::Medium1);
    assert_eq!(category(4, 3), WakeVortexCategory::Medium2);
    assert_eq!(category(4, 4), WakeVortexCategory::HighVortexAirrcraft);
    assert_eq!(category(4, 5), WakeVortexCategory::Heavy);
    assert_eq!(category(4, 6), WakeVortexCategory::HighPerformance);
    assert_eq!(category(4, 7), WakeVortexCategory::Rotorcraft);
    assert_eq!(category(4, 8), WakeVortexCategory::Reserved { type_code: 4, category: 8 });
    assert_eq!(
        WakeVortexCategory::from_type_code_and_category(4, 5),
        Some(WakeVortexCategory::Heavy)
    );
    assert_eq!(WakeVortexCategory::from_type_code_and_category(4, 8), None);
    assert_eq!(WakeVortexCategory::from_type_code_and_category(32, 1), None);
    assert_eq!(
        WakeVortexCategory::from_type_code_and_category(31, 7),
        Some(WakeVortexCategory::Reserved { type_code: 31, category: 7 })
    );
}
