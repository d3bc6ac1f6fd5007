//! Bit-reader behaviour: MSB-first reads, emulation-prevention stripping,
//! the 32-bit edge case and Exp-Golomb decoding.

use h264parse::h264nalreader::H264NalReader;
use h264parse::H264NalParseError;

#[test]
fn reads_bits_msb_first_without_epb() {
    let data = vec![0xABu8, 0xCD];
    let mut r = H264NalReader::new(&data);
    assert_eq!(r.read_u8(4), Ok(0xA));
    assert_eq!(r.read_u8(4), Ok(0xB));
    assert_eq!(r.read_u8(8), Ok(0xCD));
    assert_eq!(r.epb_count(), 0);
}

#[test]
fn read_u32_of_32_bits_keeps_the_top_bit() {
    let data = vec![0xFFu8, 0xFF, 0xFF, 0xFF];
    let mut r = H264NalReader::new(&data);
    assert_eq!(r.read_u32(32), Ok(0xFFFF_FFFF));

    let data2 = vec![0x80u8, 0x00, 0x00, 0x01];
    let mut r2 = H264NalReader::new(&data2);
    assert_eq!(r2.read_u32(32), Ok(0x8000_0001));
}

#[test]
fn strips_emulation_prevention_byte() {
    // 00 00 03 00 12 reads as 00 00 00 12.
    let data = vec![0x00u8, 0x00, 0x03, 0x00, 0x12];
    let mut r = H264NalReader::new(&data);
    assert_eq!(r.read_u32(32), Ok(0x0000_0012));
    assert_eq!(r.epb_count(), 1);
}

#[test]
fn counts_one_epb_per_occurrence() {
    // Two separate 00 00 03 contexts.
    let data = vec![0x00u8, 0x00, 0x03, 0x00, 0x00, 0x03, 0x01];
    let mut r = H264NalReader::new(&data);
    assert_eq!(r.read_u32(32), Ok(0x0000_0000));
    assert_eq!(r.read_u8(8), Ok(0x01));
    assert_eq!(r.epb_count(), 2);
}

#[test]
fn epb_latch_suppresses_the_next_byte_check() {
    // After 00 00 03, an immediately following 03 is kept.
    let data = vec![0x00u8, 0x00, 0x03, 0x03];
    let mut r = H264NalReader::new(&data);
    assert_eq!(r.read_u32(24), Ok(0x000003));
    assert_eq!(r.epb_count(), 1);
}

#[test]
fn fails_with_not_enough_bytes() {
    let data = vec![0xFFu8];
    let mut r = H264NalReader::new(&data);
    assert_eq!(r.read_u32(9), Err(H264NalParseError::NotEnoughBytes));
    // The failed read consumed nothing: the 8 bits are still there.
    assert_eq!(r.read_u8(8), Ok(0xFF));
}

#[test]
fn read_flag_reads_one_bit() {
    let data = vec![0b1010_0000u8];
    let mut r = H264NalReader::new(&data);
    assert_eq!(r.read_flag(), Ok(true));
    assert_eq!(r.read_flag(), Ok(false));
    assert_eq!(r.read_flag(), Ok(true));
    assert_eq!(r.read_flag(), Ok(false));
}

#[test]
fn read_ue_small_values() {
    let mut r = H264NalReader::new(&[0b1000_0000u8]);
    assert_eq!(r.read_ue(), Ok(0));

    let mut r = H264NalReader::new(&[0b0100_0000u8]);
    assert_eq!(r.read_ue(), Ok(1));

    let mut r = H264NalReader::new(&[0b0011_1000u8]);
    assert_eq!(r.read_ue(), Ok(6));

    // Round trip for n = 5: two zeros, a one, then the bits of 5 + 1 - 4.
    let mut r = H264NalReader::new(&[0b0011_0000u8]);
    assert_eq!(r.read_ue(), Ok(5));
}

#[test]
fn read_ue_large_round_trip() {
    // n = 2^31 - 1: 31 zeros, a one, then 31 zero suffix bits.
    let data = vec![0x00u8, 0x00, 0x00, 0x01, 0x00, 0x00, 0x00, 0x00];
    let mut r = H264NalReader::new(&data);
    assert_eq!(r.read_ue(), Ok(0x7FFF_FFFF));
}

#[test]
fn read_ue_fails_on_exhausted_zeros() {
    let data = vec![0x00u8];
    let mut r = H264NalReader::new(&data);
    assert_eq!(r.read_ue(), Err(H264NalParseError::NotEnoughBytes));
}

#[test]
fn read_ue_fails_on_too_many_leading_zeros() {
    // 40 zero bits, then a one: more than 32 leading zeros.
    let data = vec![0x00u8, 0x00, 0x00, 0x00, 0x00, 0x80, 0x00, 0x00, 0x00, 0x00, 0x00];
    let mut r = H264NalReader::new(&data);
    assert_eq!(r.read_ue(), Err(H264NalParseError::GenericParseError));
}

#[test]
fn read_se_maps_signed_values() {
    // ue 1 -> +1
    let mut r = H264NalReader::new(&[0b0100_0000u8]);
    assert_eq!(r.read_se(), Ok(1));
    // ue 2 -> -1
    let mut r = H264NalReader::new(&[0b0110_0000u8]);
    assert_eq!(r.read_se(), Ok(-1));
    // ue 3 -> +2
    let mut r = H264NalReader::new(&[0b0010_0000u8]);
    assert_eq!(r.read_se(), Ok(2));
    // ue 4 -> -2
    let mut r = H264NalReader::new(&[0b0010_1000u8]);
    assert_eq!(r.read_se(), Ok(-2));
    // ue 0 -> 0
    let mut r = H264NalReader::new(&[0b1000_0000u8]);
    assert_eq!(r.read_se(), Ok(0));
}

#[test]
fn more_rbsp_data_sees_later_set_bits() {
    let data = vec![0x80u8];
    let mut r = H264NalReader::new(&data);
    assert_eq!(r.read_u8(1), Ok(1));
    // Only the already-consumed bit was set: nothing further.
    assert!(!r.more_rbsp_data());

    // A set bit strictly after the current position: more data remains.
    let data2 = vec![0xA0u8];
    let mut r2 = H264NalReader::new(&data2);
    assert_eq!(r2.read_u8(1), Ok(1));
    assert!(r2.more_rbsp_data());
}
