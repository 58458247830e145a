use rfm95_lora::gps::{bytes_to_u16, bytes_to_u8, AsciiGpsGgaPacket, GgaParseError, IntOrFloatParseError};

const SENTENCE: &[u8] = b"$GPGGA,064036.289,4836.5375,N,00740.9373,E,1,04,3.2,200.2,M,,,,0000*0E\n";

#[test]
fn gga_sentence_is_split_into_fields() {
    let packet = AsciiGpsGgaPacket::try_from(SENTENCE).expect("valid sentence");
    assert_eq!(&packet.utc_time(), b"064036.289");
    assert_eq!(&packet.latitude(), b"4836.5375");
    assert_eq!(packet.north_south_indicator(), b'N');
    assert_eq!(&packet.longitude(), b"00740.9373");
    assert_eq!(packet.east_west_indicator(), b'E');
    assert_eq!(packet.position_fix_indicator(), b'1');
    assert_eq!(packet.num_satellites(), b"04");
    assert_eq!(packet.mean_sea_level_altitude(), b"200.2");
    assert_eq!(packet.altitude_units(), b'M');
}

#[test]
fn gga_wrong_section_count() {
    let short = b"$GPGGA,064036.289,4836.5375,N,00740.9373,E,1,04,3.2,200.2,M,,,0000*0E";
    assert_eq!(AsciiGpsGgaPacket::parse(short).err(), Some(GgaParseError::WrongSectionCount));
    assert_eq!(AsciiGpsGgaPacket::parse(b"").err(), Some(GgaParseError::WrongSectionCount));
}

#[test]
fn gga_wrong_section_length() {
    let short_time = b"$GPGGA,064036.28,4836.5375,N,00740.9373,E,1,04,3.2,200.2,M,,,,0000*0E";
    assert_eq!(AsciiGpsGgaPacket::parse(short_time).err(), Some(GgaParseError::WrongSectionLength));
    let many_satellites = b"$GPGGA,064036.289,4836.5375,N,00740.9373,E,1,104,3.2,200.2,M,,,,0000*0E";
    assert_eq!(AsciiGpsGgaPacket::parse(many_satellites).err(), Some(GgaParseError::WrongSectionLength));
    let long_altitude = b"$GPGGA,064036.289,4836.5375,N,00740.9373,E,1,04,3.2,12345.67,M,,,,0000*0E";
    assert_eq!(AsciiGpsGgaPacket::parse(long_altitude).err(), Some(GgaParseError::WrongSectionLength));
}

#[test]
fn gga_without_fix_has_empty_fields() {
    let no_fix = b"$GPGGA,064036.289,,,,,0,00,,,M,,,,0000*0E";
    assert_eq!(AsciiGpsGgaPacket::parse(no_fix).err(), Some(GgaParseError::WrongSectionLength));
}

#[test]
fn gga_short_optional_fields() {
    let sentence = b"$GPGGA,064036.289,4836.5375,S,00740.9373,W,2,7,3.2,,M,,,,0000*0E";
    let packet = AsciiGpsGgaPacket::parse(sentence).expect("valid sentence");
    assert_eq!(packet.north_south_indicator(), b'S');
    assert_eq!(packet.east_west_indicator(), b'W');
    assert_eq!(packet.position_fix_indicator(), b'2');
    assert_eq!(packet.num_satellites(), b"7");
    assert_eq!(packet.mean_sea_level_altitude(), b"");
}

#[test]
fn decimal_fields() {
    assert_eq!(bytes_to_u8(b"06").ok(), Some(6));
    assert_eq!(bytes_to_u8(b"255").ok(), Some(255));
    assert_eq!(bytes_to_u8(b"+7").ok(), Some(7));
    assert_eq!(bytes_to_u16(b"289").ok(), Some(289));
    assert_eq!(bytes_to_u16(b"65535").ok(), Some(65535));
}

#[test]
fn malformed_decimal_fields() {
    assert!(matches!(bytes_to_u8(b"256"), Err(IntOrFloatParseError::IntError(_))));
    assert!(matches!(bytes_to_u8(b""), Err(IntOrFloatParseError::IntError(_))));
    assert!(matches!(bytes_to_u8(b"1.5"), Err(IntOrFloatParseError::IntError(_))));
    assert!(matches!(bytes_to_u8(b"-1"), Err(IntOrFloatParseError::IntError(_))));
    assert!(matches!(bytes_to_u16(b"65536"), Err(IntOrFloatParseError::IntError(_))));
    assert!(matches!(bytes_to_u16(b" 12"), Err(IntOrFloatParseError::IntError(_))));
}

#[test]
fn gga_time_fields_read_as_numbers() {
    let packet = AsciiGpsGgaPacket::parse(SENTENCE).expect("valid sentence");
    let time = packet.utc_time();
    assert_eq!(bytes_to_u8(&time[0..2]).ok(), Some(6));
    assert_eq!(bytes_to_u8(&time[2..4]).ok(), Some(40));
    assert_eq!(bytes_to_u8(&time[4..6]).ok(), Some(36));
    assert_eq!(bytes_to_u16(&time[7..]).ok(), Some(289));
    assert_eq!(bytes_to_u8(packet.num_satellites()).ok(), Some(4));
}
