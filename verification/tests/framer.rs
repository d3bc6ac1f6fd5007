//! Unit framing: start-code recognition, header decoding, unit sizes and
//! format locking.

use h264parse::{H264NalParser, H264NalParseError, H264NalFormat, H264NalUnitType};

#[test]
fn frames_unit_after_three_byte_start_code() {
    // S1: 00 00 01 67 ... followed by the next start code.
    let data = vec![
        0x00u8, 0x00, 0x01, 0x67, 0x42, 0x00, 0x1F, 0x00, 0x00, 0x01, 0x68, 0x00,
    ];
    let mut parser = H264NalParser::new(data);
    let unit = parser.parse_nalunit(0).unwrap();
    assert_eq!(unit.sc_offset, 0);
    assert_eq!(unit.data_offset, 3);
    assert_eq!(unit.nal_ref_idc, 3);
    assert_eq!(unit.nal_unit_type_num, 7);
    assert_eq!(unit.nal_unit_type, H264NalUnitType::SPS);
    assert_eq!(unit.size, 7);
    assert!(matches!(parser.format, H264NalFormat::BYTESTREAM));
}

#[test]
fn frames_unit_after_four_byte_start_code() {
    // S2: 00 00 00 01 65 ...
    let data = vec![0x00u8, 0x00, 0x00, 0x01, 0x65, 0xB8, 0x40];
    let mut parser = H264NalParser::new(data);
    let unit = parser.parse_nalunit(0).unwrap();
    assert_eq!(unit.sc_offset, 0);
    assert_eq!(unit.data_offset, 4);
    assert_eq!(unit.nal_unit_type_num, 5);
    assert_eq!(unit.nal_unit_type, H264NalUnitType::IDR);
    assert!(unit.idr_pic_flag);
    assert_eq!(unit.size, 7);
}

#[test]
fn classifies_idr_header() {
    // S6: header byte 0x65.
    let data = vec![0x00u8, 0x00, 0x01, 0x65, 0x00];
    let mut parser = H264NalParser::new(data);
    let unit = parser.parse_nalunit(0).unwrap();
    assert_eq!(unit.nal_ref_idc, 3);
    assert_eq!(unit.nal_unit_type_num, 5);
    assert_eq!(unit.nal_unit_type, H264NalUnitType::IDR);
    assert!(unit.idr_pic_flag);
}

#[test]
fn classifies_pps_and_unknown_headers() {
    let data = vec![0x00u8, 0x00, 0x01, 0x68, 0x00, 0x00, 0x00, 0x01, 0x41, 0x00];
    let mut parser = H264NalParser::new(data);
    let unit = parser.parse_nalunit(0).unwrap();
    assert_eq!(unit.nal_unit_type, H264NalUnitType::PPS);
    let unit2 = parser.parse_nalunit(unit.size).unwrap();
    assert_eq!(unit2.nal_unit_type_num, 1);
    assert_eq!(unit2.nal_unit_type, H264NalUnitType::UNKNOWN);
    assert!(!unit2.idr_pic_flag);
}

#[test]
fn unit_sizes_sum_to_buffer_length() {
    // A buffer that is exactly three valid NAL units.
    let data = vec![
        0x00u8, 0x00, 0x01, 0x67, 0x42, 0x00, // unit 1
        0x00, 0x00, 0x00, 0x01, 0x68, 0xCE, 0x38, // unit 2
        0x00, 0x00, 0x01, 0x65, 0xB8, 0x40, 0x80, // unit 3
    ];
    let total = data.len();
    let mut parser = H264NalParser::new(data);
    let mut offset = 0usize;
    let mut sum = 0usize;
    while offset < total {
        let unit = parser.parse_nalunit(offset).unwrap();
        assert_eq!(unit.sc_offset, offset);
        sum += unit.size;
        offset += unit.size;
    }
    assert_eq!(sum, total);
}

#[test]
fn advancing_by_size_never_yields_the_same_unit() {
    let data = vec![
        0x00u8, 0x00, 0x01, 0x67, 0x42, 0x00, 0x00, 0x00, 0x01, 0x68, 0xCE,
    ];
    let mut parser = H264NalParser::new(data);
    let first = parser.parse_nalunit(0).unwrap();
    assert!(first.size >= 4);
    let second = parser.parse_nalunit(first.size).unwrap();
    assert!(second.sc_offset > first.sc_offset);
    assert_ne!(first, second);
}

#[test]
fn unknown_format_when_no_start_code() {
    let data = vec![0x12u8, 0x34, 0x56, 0x78];
    let mut parser = H264NalParser::new(data);
    assert_eq!(
        parser.parse_nalunit(0),
        Err(H264NalParseError::UnknownFormat)
    );
    assert!(matches!(parser.format, H264NalFormat::UNKNOWN));
}

#[test]
fn start_code_error_once_format_is_locked() {
    let data = vec![0x00u8, 0x00, 0x01, 0x67, 0x42, 0x00];
    let mut parser = H264NalParser::new(data);
    parser.parse_nalunit(0).unwrap();
    // Format locked to byte-stream: a bad offset now reports the start code.
    assert_eq!(
        parser.parse_nalunit(1),
        Err(H264NalParseError::StartCodeParseError)
    );
}

#[test]
fn forbidden_zero_bit_is_a_semantic_error() {
    let data = vec![
        0x00u8, 0x00, 0x01, 0x67, 0x42, 0x00, 0x00, 0x00, 0x01, 0x85, 0x00,
    ];
    let mut parser = H264NalParser::new(data);
    let first = parser.parse_nalunit(0).unwrap();
    assert_eq!(
        parser.parse_nalunit(first.size),
        Err(H264NalParseError::GenericParseError)
    );
}

#[test]
fn not_enough_bytes_at_buffer_end_when_locked() {
    let data = vec![0x00u8, 0x00, 0x01, 0x67, 0x42, 0x00];
    let mut parser = H264NalParser::new(data);
    let unit = parser.parse_nalunit(0).unwrap();
    assert_eq!(
        parser.parse_nalunit(unit.size),
        Err(H264NalParseError::NotEnoughBytes)
    );
}
