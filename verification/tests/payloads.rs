//! Payload decoding: SPS, PPS, VUI with HRD, and slice headers, including
//! the parameter-set store and its failure cases.

use h264parse::h264nalreader::H264NalReader;
use h264parse::{H264NalParser, H264NalParseError, H264NalUnit};

// SPS: profile 0x42, constraints 0, level 0x1E, then all-defaults with
// frame_mbs_only set; payload starts after the 0x67 header byte.
const SPS_BYTES: [u8; 6] = [0x67, 0x42, 0x00, 0x1E, 0xFB, 0x80];

// PPS: all ids and counts zero, every flag clear, no trailing data.
const PPS_BYTES: [u8; 3] = [0x68, 0xCE, 0x38];

#[test]
fn decodes_minimal_sps() {
    // S4: exact scalar values from the encoded bytes.
    let mut parser = H264NalParser::new(SPS_BYTES.to_vec());
    let sps = parser.parse_sps(0).unwrap();
    assert_eq!(sps.profile_idc, 0x42);
    assert_eq!(sps.constraint_0_flag, 0);
    assert_eq!(sps.constraint_5_flag, 0);
    assert_eq!(sps.level_idc, 0x1E);
    assert_eq!(sps.seq_parameter_set_id, 0);
    assert_eq!(sps.log2_max_frame_num_minus4, 0);
    assert_eq!(sps.pic_order_cnt_type, 0);
    assert_eq!(sps.log2_max_pic_order_cnt_lsb_minus4, 0);
    assert_eq!(sps.max_num_ref_frames, 0);
    assert_eq!(sps.gaps_in_frame_num_value_allowed_flag, 0);
    assert_eq!(sps.pic_width_in_mbs_minus1, 0);
    assert_eq!(sps.pic_height_in_map_units_minus1, 0);
    assert!(sps.frame_mbs_only_flag);
    assert_eq!(sps.direct_8x8_inference_flag, 0);
    assert_eq!(sps.frame_cropping_flag, 0);
    assert_eq!(sps.vui_parameters_present_flag, 0);
    assert!(sps.vui_parameters.is_none());
}

#[test]
fn sps_fails_when_payload_missing() {
    let mut parser = H264NalParser::new(vec![0x67]);
    assert!(matches!(
        parser.parse_sps(0),
        Err(H264NalParseError::NotEnoughBytes)
    ));
    let mut parser2 = H264NalParser::new(vec![]);
    assert!(matches!(
        parser2.parse_sps(0),
        Err(H264NalParseError::NotEnoughBytes)
    ));
}

#[test]
fn decodes_minimal_pps() {
    let mut parser = H264NalParser::new(PPS_BYTES.to_vec());
    let pps = parser.parse_pps(0).unwrap();
    assert_eq!(pps.pic_parameter_set_id, 0);
    assert_eq!(pps.seq_parameter_set_id, 0);
    assert!(!pps.entropy_coding_mode_flag);
    assert!(!pps.bottom_field_pic_order_in_frame_present_flag);
    assert_eq!(pps.num_slice_groups_minus1, 0);
    assert_eq!(pps.num_ref_idx_l0_default_active_minus1, 0);
    assert_eq!(pps.num_ref_idx_l1_default_active_minus1, 0);
    assert!(!pps.weighted_pred_flag);
    assert_eq!(pps.weighted_bipred_idc, 0);
    assert_eq!(pps.pic_init_qp_minus26, 0);
    assert_eq!(pps.pic_init_qs_minus26, 0);
    assert_eq!(pps.chroma_qp_index_offset, 0);
    assert!(!pps.deblocking_filter_control_present_flag);
    assert_eq!(pps.constrained_intra_pred_flag, 0);
    assert!(!pps.redundant_pic_cnt_present_flag);
    // No trailing RBSP data: the optional block stays at its defaults.
    assert_eq!(pps.transform_8x8_mode_flag, 0);
    assert_eq!(pps.pic_scaling_matrix_present_flag, 0);
    assert_eq!(pps.second_chroma_qp_index_offset, 0);
}

#[test]
fn decodes_pps_trailing_block() {
    // Extra byte: transform flag 1, scaling matrix 0, second chroma offset 0.
    let data = vec![0x68u8, 0xCE, 0x38, 0xA0];
    let mut parser = H264NalParser::new(data);
    let pps = parser.parse_pps(0).unwrap();
    assert_eq!(pps.transform_8x8_mode_flag, 1);
    assert_eq!(pps.pic_scaling_matrix_present_flag, 0);
    assert_eq!(pps.second_chroma_qp_index_offset, 0);
}

#[test]
fn pps_scaling_matrix_is_unimplemented() {
    // Trailing block with the picture scaling matrix flag set.
    let data = vec![0x68u8, 0xCE, 0x38, 0x60];
    let mut parser = H264NalParser::new(data);
    assert!(matches!(
        parser.parse_pps(0),
        Err(H264NalParseError::Unimplemented)
    ));
}

#[test]
fn slice_without_stored_pps_fails() {
    // S5: the referenced pic_parameter_set_id has no store entry.
    let data = vec![0x65u8, 0xE0];
    let parser = H264NalParser::new(data);
    let nalu = H264NalUnit::new(0, 0, 2, 3, 5);
    assert!(matches!(
        parser.parse_slice(0, &nalu),
        Err(H264NalParseError::GenericParseError)
    ));
}

#[test]
fn decodes_idr_slice_header() {
    // One buffer holding the SPS, an IDR slice header, and the PPS last,
    // so that the PPS payload is not followed by further bytes that its
    // more-RBSP-data check would take for a trailing block.
    let mut data = Vec::new();
    data.extend_from_slice(&SPS_BYTES);
    let slice_at = data.len();
    data.extend_from_slice(&[0x65, 0xB8, 0x40, 0x80]);
    let pps_at = data.len();
    data.extend_from_slice(&PPS_BYTES);
    let mut parser = H264NalParser::new(data);
    parser.parse_sps(0).unwrap();
    parser.parse_pps(pps_at).unwrap();
    let nalu = H264NalUnit::new(slice_at, slice_at, 4, 3, 5);
    let slice = parser.parse_slice(slice_at, &nalu).unwrap();
    assert_eq!(slice.first_mb_in_slice, 0);
    assert_eq!(slice.slice_type, 2);
    assert_eq!(slice.pic_parameter_set_id, 0);
    assert_eq!(slice.frame_num, 0);
    assert_eq!(slice.idr_pic_id, 0);
    assert_eq!(slice.pic_order_cnt_lsb, 0);
    assert!(!slice.field_pic_flag);
    assert!(!slice.no_output_of_prior_pics_flag);
    assert!(!slice.long_term_reference_flag);
    assert_eq!(slice.slice_qp_delta, 0);
    assert_eq!(slice.slice_group_change_cycle, 0);
}

#[test]
fn decodes_vui_with_hrd() {
    let data = vec![0x06u8, 0x25, 0xC2, 0x21, 0x91, 0x00];
    let parser = H264NalParser::new(vec![]);
    let mut reader = H264NalReader::new(&data);
    let vui = parser.parse_vui_params(&mut reader).unwrap();
    assert_eq!(vui.aspect_ratio_info_present_flag, 0);
    assert_eq!(vui.overscan_info_present_flag, 0);
    assert_eq!(vui.video_signal_type_present_flag, 0);
    assert_eq!(vui.chroma_loc_info_present_flag, 0);
    assert_eq!(vui.timing_info_present_flag, 0);
    assert_eq!(vui.nal_hrd_parameters_present_flag, 1);
    let hrd = vui.nal_hrd_parameters.as_ref().unwrap();
    assert_eq!(hrd.cpb_cnt_minus1, 0);
    assert_eq!(hrd.bit_rate_scale, 1);
    assert_eq!(hrd.cpb_size_scale, 2);
    assert_eq!(hrd.bit_rate_value_minus1, vec![0]);
    assert_eq!(hrd.cpb_size_value_minus1, vec![0]);
    assert_eq!(hrd.cbr_flag, vec![1]);
    assert_eq!(hrd.initial_cpb_removal_delay_length_minus1, 1);
    assert_eq!(hrd.cpb_removal_delay_length_minus1, 2);
    assert_eq!(hrd.dpb_output_delay_length_minus1, 3);
    assert_eq!(hrd.time_offset_length, 4);
    assert_eq!(vui.vcl_hrd_parameters_present_flag, 0);
    assert!(vui.vcl_hrd_parameters.is_none());
    assert_eq!(vui.low_delay_hrd_flag, 1);
    assert_eq!(vui.pic_struct_present_flag, 0);
    assert_eq!(vui.bitstream_restriction_flag, 0);
}

#[test]
fn hrd_decoding_through_its_own_entry_point() {
    // The HRD block alone, taken from the VUI test vector one bit in.
    let data = vec![0x06u8, 0x25, 0xC2, 0x21, 0x91, 0x00];
    let parser = H264NalParser::new(vec![]);
    let mut reader = H264NalReader::new(&data);
    // Skip the five zero flags and the set HRD-present flag.
    for _ in 0..6 {
        reader.read_flag().unwrap();
    }
    let hrd = parser.parse_hdr_params(&mut reader).unwrap();
    assert_eq!(hrd.cpb_cnt_minus1, 0);
    assert_eq!(hrd.bit_rate_scale, 1);
    assert_eq!(hrd.cpb_size_scale, 2);
}

#[test]
fn slice_group_change_cycle_uses_ceiling_width() {
    // PPS with two slice groups, map type 3, change rate 4; the SPS gives
    // a picture of one map unit.  The cycle count is the ceiling of 1/4
    // plus one, so the cycle field is read in ceil_log2(2) = 1 bit; floor
    // division would wrongly read 0 bits and miss the set bit below.
    let pps = [0x68u8, 0xC4, 0x41, 0x31, 0xC0];
    let mut data = Vec::new();
    data.extend_from_slice(&SPS_BYTES);
    let slice_at = data.len();
    data.extend_from_slice(&[0x65, 0xB8, 0x40, 0xC0]);
    let pps_at = data.len();
    data.extend_from_slice(&pps);
    let mut parser = H264NalParser::new(data);
    parser.parse_sps(0).unwrap();
    let decoded = parser.parse_pps(pps_at).unwrap();
    assert_eq!(decoded.num_slice_groups_minus1, 1);
    assert_eq!(decoded.slice_group_map_type, 3);
    assert_eq!(decoded.slice_group_change_direction_flag, 0);
    assert_eq!(decoded.slice_group_change_rate_minus1, 3);
    let nalu = H264NalUnit::new(slice_at, slice_at, 4, 3, 5);
    let slice = parser.parse_slice(slice_at, &nalu).unwrap();
    assert_eq!(slice.slice_group_change_cycle, 1);
}
