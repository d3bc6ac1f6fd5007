//! Standalone helpers: raw Exp-Golomb decoding, the ceiling log, slice
//! type classification and record defaults.

use h264parse::golomb::{read_bit, golombdec};
use h264parse::{
    ceil_log2, slice_type_is_p_slice, slice_type_is_b_slice, slice_type_is_i_slice,
    slice_type_is_sp_slice, slice_type_is_si_slice, H264NalUnit, H264NalUnitType,
    H264NalUnitSPS, H264NalUnitPPS, H264NalUnitSlice, H264VUIParameters, H264HDRParameters,
    EXTENDED_SAR,
};

#[test]
fn read_bit_walks_a_byte_msb_first() {
    let byte = 0b1011_0001u8;
    let expected = [1u8, 0, 1, 1, 0, 0, 0, 1];
    for (offset, want) in expected.iter().enumerate() {
        assert_eq!(read_bit(byte, offset), *want);
    }
}

#[test]
fn golombdec_decodes_code_words() {
    assert_eq!(golombdec(&[0b1000_0000u8]), 0);
    assert_eq!(golombdec(&[0b0100_0000u8]), 1);
    assert_eq!(golombdec(&[0b0110_0000u8]), 2);
    assert_eq!(golombdec(&[0b0011_0000u8]), 5);
    assert_eq!(golombdec(&[0b0011_1000u8]), 6);
    // A code word spanning bytes: fifteen leading zeros give 2^15 - 1.
    assert_eq!(golombdec(&[0x00u8, 0x01, 0x00, 0x00]), 0x7FFF);
}

#[test]
fn ceil_log2_values() {
    assert_eq!(ceil_log2(1), 0);
    assert_eq!(ceil_log2(2), 1);
    assert_eq!(ceil_log2(3), 2);
    assert_eq!(ceil_log2(4), 2);
    assert_eq!(ceil_log2(5), 3);
    assert_eq!(ceil_log2(0x8000_0000), 31);
    assert_eq!(ceil_log2(0x8000_0001), 32);
    assert_eq!(ceil_log2(0xFFFF_FFFF), 32);
}

#[test]
fn slice_type_classification_is_mod_five() {
    assert!(slice_type_is_p_slice(0));
    assert!(slice_type_is_p_slice(5));
    assert!(slice_type_is_b_slice(1));
    assert!(slice_type_is_b_slice(6));
    assert!(slice_type_is_i_slice(2));
    assert!(slice_type_is_i_slice(7));
    assert!(slice_type_is_sp_slice(3));
    assert!(slice_type_is_sp_slice(8));
    assert!(slice_type_is_si_slice(4));
    assert!(slice_type_is_si_slice(9));
    assert!(!slice_type_is_p_slice(1));
    assert!(!slice_type_is_i_slice(0));
}

#[test]
fn extended_sar_marker_value() {
    assert_eq!(EXTENDED_SAR, 255);
}

#[test]
fn nal_unit_new_classifies_types() {
    let sps = H264NalUnit::new(0, 3, 10, 3, 7);
    assert_eq!(sps.nal_unit_type, H264NalUnitType::SPS);
    assert!(!sps.idr_pic_flag);
    let pps = H264NalUnit::new(0, 3, 10, 3, 8);
    assert_eq!(pps.nal_unit_type, H264NalUnitType::PPS);
    let idr = H264NalUnit::new(2, 5, 9, 1, 5);
    assert_eq!(idr.nal_unit_type, H264NalUnitType::IDR);
    assert!(idr.idr_pic_flag);
    assert_eq!(idr.sc_offset, 2);
    assert_eq!(idr.data_offset, 5);
    assert_eq!(idr.size, 9);
    assert_eq!(idr.nal_ref_idc, 1);
    let other = H264NalUnit::new(0, 3, 10, 0, 12);
    assert_eq!(other.nal_unit_type, H264NalUnitType::UNKNOWN);
}

#[test]
fn record_constructors_start_zeroed() {
    let sps = H264NalUnitSPS::new();
    assert_eq!(sps.profile_idc, 0);
    assert!(sps.offset_for_ref_frame.is_empty());
    assert!(sps.vui_parameters.is_none());
    let pps = H264NalUnitPPS::new();
    assert_eq!(pps.pic_parameter_set_id, 0);
    assert!(pps.run_length_minus1.is_empty());
    let slice = H264NalUnitSlice::new();
    assert_eq!(slice.slice_type, 0);
    assert_eq!(slice.delta_pic_order_cnt, vec![0, 0]);
    let vui = H264VUIParameters::new();
    assert_eq!(vui.aspect_ratio_idc, 0);
    let hdr = H264HDRParameters::new();
    assert_eq!(hdr.cpb_cnt_minus1, 0);
    assert!(hdr.cbr_flag.is_empty());
}

#[test]
fn records_clone_their_contents() {
    let mut sps = H264NalUnitSPS::new();
    sps.profile_idc = 100;
    sps.offset_for_ref_frame = vec![1, -2, 3];
    let copy = sps.clone();
    assert_eq!(copy.profile_idc, 100);
    assert_eq!(copy.offset_for_ref_frame, vec![1, -2, 3]);
    let mut pps = H264NalUnitPPS::new();
    pps.slice_group_id = vec![4, 5];
    let copy = pps.clone();
    assert_eq!(copy.slice_group_id, vec![4, 5]);
}
