//! Typed records for NAL units and their decoded syntax elements, the
//! ghost views the parsing contracts are stated over, and small helpers
//! on slice types and sizes.

use vstd::prelude::*;
use vstd::arithmetic::power2::{pow2, lemma_pow2_unfold, lemma_pow2_strictly_increases, lemma2_to64};
use crate::bitstream::{clog2, lemma_clog2_unique};

verus! {

/// Framing format of the buffer, locked on the first successful frame.
#[derive(Debug, Clone, Copy, PartialEq, Eq, Structural)]
pub enum H264NalFormat {
    BYTESTREAM,
    AVC,
    UNKNOWN,
}

/// Categorical classification of a NAL unit; the numeric type is kept
/// separately in `H264NalUnit::nal_unit_type_num`.
#[derive(Debug, Clone, Copy, PartialEq, Eq, Structural)]
pub enum H264NalUnitType {
    SPS,
    PPS,
    IDR,
    P,
    UNKNOWN,
}

/// `aspect_ratio_idc` value that announces explicit sample-aspect-ratio
/// width and height.
pub const EXTENDED_SAR: u8 = 255;

/// One framed NAL unit: where it starts, where its payload starts, how far
/// it runs, and its header fields.
#[derive(Debug, Clone, Copy, PartialEq, Eq, Structural)]
pub struct H264NalUnit {
    pub sc_offset: usize,
    pub data_offset: usize,
    pub size: usize,
    pub idr_pic_flag: bool,
    pub nal_ref_idc: u8,
    pub nal_unit_type_num: u8,
    pub nal_unit_type: H264NalUnitType,
}

/// The categorical unit type for a numeric `nal_unit_type`.
pub open spec fn nal_unit_type_of(unit_type: u8) -> H264NalUnitType {
    if unit_type == 5 {
        H264NalUnitType::IDR
    } else if unit_type == 7 {
        H264NalUnitType::SPS
    } else if unit_type == 8 {
        H264NalUnitType::PPS
    } else {
        H264NalUnitType::UNKNOWN
    }
}

impl H264NalUnit {
    pub fn new(sc_offset: usize, data_offset: usize, size: usize, ref_idc: u8, unit_type: u8) -> (r:
        H264NalUnit)
        ensures
            r.sc_offset == sc_offset,
            r.data_offset == data_offset,
            r.size == size,
            r.nal_ref_idc == ref_idc,
            r.nal_unit_type_num == unit_type,
            r.nal_unit_type == nal_unit_type_of(unit_type),
            r.idr_pic_flag == (unit_type == 5),
    {
        let nal_unit_type = match unit_type {
            5 => H264NalUnitType::IDR,
            7 => H264NalUnitType::SPS,
            8 => H264NalUnitType::PPS,
            _ => H264NalUnitType::UNKNOWN,
        };
        H264NalUnit {
            sc_offset,
            data_offset,
            size,
            idr_pic_flag: unit_type == 5,
            nal_ref_idc: ref_idc,
            nal_unit_type_num: unit_type,
            nal_unit_type,
        }
    }
}

/// Hypothetical-reference-decoder parameters, H.264 Annex E.
#[derive(Debug)]
pub struct H264HDRParameters {
    pub cpb_cnt_minus1: u32,
    pub bit_rate_scale: u8,
    pub cpb_size_scale: u8,
    pub bit_rate_value_minus1: Vec<u32>,
    pub cpb_size_value_minus1: Vec<u32>,
    pub cbr_flag: Vec<u8>,
    pub initial_cpb_removal_delay_length_minus1: u8,
    pub cpb_removal_delay_length_minus1: u8,
    pub dpb_output_delay_length_minus1: u8,
    pub time_offset_length: u8,
}

#[verifier::ext_equal]
pub struct HrdView {
    pub cpb_cnt_minus1: u32,
    pub bit_rate_scale: u8,
    pub cpb_size_scale: u8,
    pub bit_rate_value_minus1: Seq<u32>,
    pub cpb_size_value_minus1: Seq<u32>,
    pub cbr_flag: Seq<u8>,
    pub initial_cpb_removal_delay_length_minus1: u8,
    pub cpb_removal_delay_length_minus1: u8,
    pub dpb_output_delay_length_minus1: u8,
    pub time_offset_length: u8,
}

impl View for H264HDRParameters {
    type V = HrdView;

    open spec fn view(&self) -> HrdView {
        HrdView {
            cpb_cnt_minus1: self.cpb_cnt_minus1,
            bit_rate_scale: self.bit_rate_scale,
            cpb_size_scale: self.cpb_size_scale,
            bit_rate_value_minus1: self.bit_rate_value_minus1@,
            cpb_size_value_minus1: self.cpb_size_value_minus1@,
            cbr_flag: self.cbr_flag@,
            initial_cpb_removal_delay_length_minus1: self.initial_cpb_removal_delay_length_minus1,
            cpb_removal_delay_length_minus1: self.cpb_removal_delay_length_minus1,
            dpb_output_delay_length_minus1: self.dpb_output_delay_length_minus1,
            time_offset_length: self.time_offset_length,
        }
    }
}

impl HrdView {
    /// The view of a freshly constructed record, before any field is read.
    pub open spec fn init() -> HrdView {
        HrdView {
            cpb_cnt_minus1: 0,
            bit_rate_scale: 0,
            cpb_size_scale: 0,
            bit_rate_value_minus1: Seq::empty(),
            cpb_size_value_minus1: Seq::empty(),
            cbr_flag: Seq::empty(),
            initial_cpb_removal_delay_length_minus1: 0,
            cpb_removal_delay_length_minus1: 0,
            dpb_output_delay_length_minus1: 0,
            time_offset_length: 0,
        }
    }
}

impl H264HDRParameters {
    pub fn new() -> (r: H264HDRParameters)
        ensures
            r@ == HrdView::init(),
    {
        let r = H264HDRParameters {
            cpb_cnt_minus1: 0,
            bit_rate_scale: 0,
            cpb_size_scale: 0,
            bit_rate_value_minus1: Vec::new(),
            cpb_size_value_minus1: Vec::new(),
            cbr_flag: Vec::new(),
            initial_cpb_removal_delay_length_minus1: 0,
            cpb_removal_delay_length_minus1: 0,
            dpb_output_delay_length_minus1: 0,
            time_offset_length: 0,
        };
        proof {
            assert(r@ =~= HrdView::init());
        }
        r
    }
}

impl Clone for H264HDRParameters {
    fn clone(&self) -> (res: Self)
        ensures
            res@ == self@,
    {
        let res = H264HDRParameters {
            cpb_cnt_minus1: self.cpb_cnt_minus1,
            bit_rate_scale: self.bit_rate_scale,
            cpb_size_scale: self.cpb_size_scale,
            bit_rate_value_minus1: clone_vec_copy(&self.bit_rate_value_minus1),
            cpb_size_value_minus1: clone_vec_copy(&self.cpb_size_value_minus1),
            cbr_flag: clone_vec_copy(&self.cbr_flag),
            initial_cpb_removal_delay_length_minus1: self.initial_cpb_removal_delay_length_minus1,
            cpb_removal_delay_length_minus1: self.cpb_removal_delay_length_minus1,
            dpb_output_delay_length_minus1: self.dpb_output_delay_length_minus1,
            time_offset_length: self.time_offset_length,
        };
        proof {
            assert(res@ =~= self@);
        }
        res
    }
}

/// Copies a vector of plain values element by element.
pub fn clone_vec_copy<T: Copy>(v: &Vec<T>) -> (r: Vec<T>)
    ensures
        r@ == v@,
{
    let mut r: Vec<T> = Vec::new();
    let mut i: usize = 0;
    while i < v.len()
        invariant
            i <= v.len(),
            r@ == v@.subrange(0, i as int),
        decreases v.len() - i,
    {
        r.push(v[i]);
        proof {
            assert(r@ =~= v@.subrange(0, i + 1));
        }
        i = i + 1;
    }
    proof {
        assert(v@.subrange(0, v@.len() as int) =~= v@);
    }
    r
}

/// Video-usability information, H.264 Annex E.
#[derive(Debug)]
pub struct H264VUIParameters {
    pub aspect_ratio_info_present_flag: u8,
    pub aspect_ratio_idc: u8,
    pub sar_width: u16,
    pub sar_height: u16,
    pub overscan_info_present_flag: u8,
    pub overscan_appropriate_flag: u8,
    pub video_signal_type_present_flag: u8,
    pub video_format: u8,
    pub video_full_range_flag: u8,
    pub colour_description_present_flag: u8,
    pub colour_primaries: u8,
    pub transfer_characteristics: u8,
    pub matrix_coefficients: u8,
    pub chroma_loc_info_present_flag: u8,
    pub chroma_sample_loc_type_top_field: u32,
    pub chroma_sample_loc_type_bottom_field: u32,
    pub timing_info_present_flag: u8,
    pub num_units_in_tick: u32,
    pub time_scale: u32,
    pub fixed_frame_rate_flag: u8,
    pub nal_hrd_parameters_present_flag: u8,
    pub nal_hrd_parameters: Option<H264HDRParameters>,
    pub vcl_hrd_parameters_present_flag: u8,
    pub vcl_hrd_parameters: Option<H264HDRParameters>,
    pub low_delay_hrd_flag: u8,
    pub pic_struct_present_flag: u8,
    pub bitstream_restriction_flag: u8,
    pub motion_vectors_over_pic_boundaries_flag: u8,
    pub max_bytes_per_pic_denom: u32,
    pub max_bits_per_mb_denom: u32,
    pub log2_max_mv_length_horizontal: u32,
    pub log2_max_mv_length_vertical: u32,
    pub max_num_reorder_frames: u32,
    pub max_dec_frame_buffering: u32,
}

#[verifier::ext_equal]
pub struct VuiView {
    pub aspect_ratio_info_present_flag: u8,
    pub aspect_ratio_idc: u8,
    pub sar_width: u16,
    pub sar_height: u16,
    pub overscan_info_present_flag: u8,
    pub overscan_appropriate_flag: u8,
    pub video_signal_type_present_flag: u8,
    pub video_format: u8,
    pub video_full_range_flag: u8,
    pub colour_description_present_flag: u8,
    pub colour_primaries: u8,
    pub transfer_characteristics: u8,
    pub matrix_coefficients: u8,
    pub chroma_loc_info_present_flag: u8,
    pub chroma_sample_loc_type_top_field: u32,
    pub chroma_sample_loc_type_bottom_field: u32,
    pub timing_info_present_flag: u8,
    pub num_units_in_tick: u32,
    pub time_scale: u32,
    pub fixed_frame_rate_flag: u8,
    pub nal_hrd_parameters_present_flag: u8,
    pub nal_hrd_parameters: Option<HrdView>,
    pub vcl_hrd_parameters_present_flag: u8,
    pub vcl_hrd_parameters: Option<HrdView>,
    pub low_delay_hrd_flag: u8,
    pub pic_struct_present_flag: u8,
    pub bitstream_restriction_flag: u8,
    pub motion_vectors_over_pic_boundaries_flag: u8,
    pub max_bytes_per_pic_denom: u32,
    pub max_bits_per_mb_denom: u32,
    pub log2_max_mv_length_horizontal: u32,
    pub log2_max_mv_length_vertical: u32,
    pub max_num_reorder_frames: u32,
    pub max_dec_frame_buffering: u32,
}

pub open spec fn view_opt_hrd(o: Option<H264HDRParameters>) -> Option<HrdView> {
    match o {
        Some(h) => Some(h@),
        None => None,
    }
}

impl View for H264VUIParameters {
    type V = VuiView;

    open spec fn view(&self) -> VuiView {
        VuiView {
            aspect_ratio_info_present_flag: self.aspect_ratio_info_present_flag,
            aspect_ratio_idc: self.aspect_ratio_idc,
            sar_width: self.sar_width,
            sar_height: self.sar_height,
            overscan_info_present_flag: self.overscan_info_present_flag,
            overscan_appropriate_flag: self.overscan_appropriate_flag,
            video_signal_type_present_flag: self.video_signal_type_present_flag,
            video_format: self.video_format,
            video_full_range_flag: self.video_full_range_flag,
            colour_description_present_flag: self.colour_description_present_flag,
            colour_primaries: self.colour_primaries,
            transfer_characteristics: self.transfer_characteristics,
            matrix_coefficients: self.matrix_coefficients,
            chroma_loc_info_present_flag: self.chroma_loc_info_present_flag,
            chroma_sample_loc_type_top_field: self.chroma_sample_loc_type_top_field,
            chroma_sample_loc_type_bottom_field: self.chroma_sample_loc_type_bottom_field,
            timing_info_present_flag: self.timing_info_present_flag,
            num_units_in_tick: self.num_units_in_tick,
            time_scale: self.time_scale,
            fixed_frame_rate_flag: self.fixed_frame_rate_flag,
            nal_hrd_parameters_present_flag: self.nal_hrd_parameters_present_flag,
            nal_hrd_parameters: view_opt_hrd(self.nal_hrd_parameters),
            vcl_hrd_parameters_present_flag: self.vcl_hrd_parameters_present_flag,
            vcl_hrd_parameters: view_opt_hrd(self.vcl_hrd_parameters),
            low_delay_hrd_flag: self.low_delay_hrd_flag,
            pic_struct_present_flag: self.pic_struct_present_flag,
            bitstream_restriction_flag: self.bitstream_restriction_flag,
            motion_vectors_over_pic_boundaries_flag: self.motion_vectors_over_pic_boundaries_flag,
            max_bytes_per_pic_denom: self.max_bytes_per_pic_denom,
            max_bits_per_mb_denom: self.max_bits_per_mb_denom,
            log2_max_mv_length_horizontal: self.log2_max_mv_length_horizontal,
            log2_max_mv_length_vertical: self.log2_max_mv_length_vertical,
            max_num_reorder_frames: self.max_num_reorder_frames,
            max_dec_frame_buffering: self.max_dec_frame_buffering,
        }
    }
}

impl VuiView {
    /// The view of a freshly constructed record, before any field is read.
    pub open spec fn init() -> VuiView {
        VuiView {
            aspect_ratio_info_present_flag: 0,
            aspect_ratio_idc: 0,
            sar_width: 0,
            sar_height: 0,
            overscan_info_present_flag: 0,
            overscan_appropriate_flag: 0,
            video_signal_type_present_flag: 0,
            video_format: 0,
            video_full_range_flag: 0,
            colour_description_present_flag: 0,
            colour_primaries: 0,
            transfer_characteristics: 0,
            matrix_coefficients: 0,
            chroma_loc_info_present_flag: 0,
            chroma_sample_loc_type_top_field: 0,
            chroma_sample_loc_type_bottom_field: 0,
            timing_info_present_flag: 0,
            num_units_in_tick: 0,
            time_scale: 0,
            fixed_frame_rate_flag: 0,
            nal_hrd_parameters_present_flag: 0,
            nal_hrd_parameters: None,
            vcl_hrd_parameters_present_flag: 0,
            vcl_hrd_parameters: None,
            low_delay_hrd_flag: 0,
            pic_struct_present_flag: 0,
            bitstream_restriction_flag: 0,
            motion_vectors_over_pic_boundaries_flag: 0,
            max_bytes_per_pic_denom: 0,
            max_bits_per_mb_denom: 0,
            log2_max_mv_length_horizontal: 0,
            log2_max_mv_length_vertical: 0,
            max_num_reorder_frames: 0,
            max_dec_frame_buffering: 0,
        }
    }
}

impl H264VUIParameters {
    pub fn new() -> (r: H264VUIParameters)
        ensures
            r@ == VuiView::init(),
    {
        let r = H264VUIParameters {
            aspect_ratio_info_present_flag: 0,
            aspect_ratio_idc: 0,
            sar_width: 0,
            sar_height: 0,
            overscan_info_present_flag: 0,
            overscan_appropriate_flag: 0,
            video_signal_type_present_flag: 0,
            video_format: 0,
            video_full_range_flag: 0,
            colour_description_present_flag: 0,
            colour_primaries: 0,
            transfer_characteristics: 0,
            matrix_coefficients: 0,
            chroma_loc_info_present_flag: 0,
            chroma_sample_loc_type_top_field: 0,
            chroma_sample_loc_type_bottom_field: 0,
            timing_info_present_flag: 0,
            num_units_in_tick: 0,
            time_scale: 0,
            fixed_frame_rate_flag: 0,
            nal_hrd_parameters_present_flag: 0,
            nal_hrd_parameters: None,
            vcl_hrd_parameters_present_flag: 0,
            vcl_hrd_parameters: None,
            low_delay_hrd_flag: 0,
            pic_struct_present_flag: 0,
            bitstream_restriction_flag: 0,
            motion_vectors_over_pic_boundaries_flag: 0,
            max_bytes_per_pic_denom: 0,
            max_bits_per_mb_denom: 0,
            log2_max_mv_length_horizontal: 0,
            log2_max_mv_length_vertical: 0,
            max_num_reorder_frames: 0,
            max_dec_frame_buffering: 0,
        };
        proof {
            assert(r@ =~= VuiView::init());
        }
        r
    }
}

impl Clone for H264VUIParameters {
    fn clone(&self) -> (res: Self)
        ensures
            res@ == self@,
    {
        let nal_hrd = match &self.nal_hrd_parameters {
            Some(h) => Some(h.clone()),
            None => None,
        };
        let vcl_hrd = match &self.vcl_hrd_parameters {
            Some(h) => Some(h.clone()),
            None => None,
        };
        let res = H264VUIParameters {
            aspect_ratio_info_present_flag: self.aspect_ratio_info_present_flag,
            aspect_ratio_idc: self.aspect_ratio_idc,
            sar_width: self.sar_width,
            sar_height: self.sar_height,
            overscan_info_present_flag: self.overscan_info_present_flag,
            overscan_appropriate_flag: self.overscan_appropriate_flag,
            video_signal_type_present_flag: self.video_signal_type_present_flag,
            video_format: self.video_format,
            video_full_range_flag: self.video_full_range_flag,
            colour_description_present_flag: self.colour_description_present_flag,
            colour_primaries: self.colour_primaries,
            transfer_characteristics: self.transfer_characteristics,
            matrix_coefficients: self.matrix_coefficients,
            chroma_loc_info_present_flag: self.chroma_loc_info_present_flag,
            chroma_sample_loc_type_top_field: self.chroma_sample_loc_type_top_field,
            chroma_sample_loc_type_bottom_field: self.chroma_sample_loc_type_bottom_field,
            timing_info_present_flag: self.timing_info_present_flag,
            num_units_in_tick: self.num_units_in_tick,
            time_scale: self.time_scale,
            fixed_frame_rate_flag: self.fixed_frame_rate_flag,
            nal_hrd_parameters_present_flag: self.nal_hrd_parameters_present_flag,
            nal_hrd_parameters: nal_hrd,
            vcl_hrd_parameters_present_flag: self.vcl_hrd_parameters_present_flag,
            vcl_hrd_parameters: vcl_hrd,
            low_delay_hrd_flag: self.low_delay_hrd_flag,
            pic_struct_present_flag: self.pic_struct_present_flag,
            bitstream_restriction_flag: self.bitstream_restriction_flag,
            motion_vectors_over_pic_boundaries_flag: self.motion_vectors_over_pic_boundaries_flag,
            max_bytes_per_pic_denom: self.max_bytes_per_pic_denom,
            max_bits_per_mb_denom: self.max_bits_per_mb_denom,
            log2_max_mv_length_horizontal: self.log2_max_mv_length_horizontal,
            log2_max_mv_length_vertical: self.log2_max_mv_length_vertical,
            max_num_reorder_frames: self.max_num_reorder_frames,
            max_dec_frame_buffering: self.max_dec_frame_buffering,
        };
        proof {
            assert(res@ =~= self@);
        }
        res
    }
}

/// Sequence parameter set, H.264 section 7.3.2.1.1.  Scaling-list payloads
/// are not reconstructed: a payload that carries one is rejected as
/// `Unimplemented` before any field after it could be misread.
#[derive(Debug)]
pub struct H264NalUnitSPS {
    pub profile_idc: u8,
    pub constraint_0_flag: u8,
    pub constraint_1_flag: u8,
    pub constraint_2_flag: u8,
    pub constraint_3_flag: u8,
    pub constraint_4_flag: u8,
    pub constraint_5_flag: u8,
    pub level_idc: u8,
    pub seq_parameter_set_id: u32,
    pub chroma_format_idc: u32,
    pub separate_colour_plane_flag: bool,
    pub bit_depth_luma_minus8: u32,
    pub bit_depth_chroma_minus8: u32,
    pub qpprime_y_zero_transform_bypass_flag: u8,
    pub seq_scaling_matrix_present_flag: u8,
    pub seq_scaling_list_present_flag: Vec<u8>,
    pub log2_max_frame_num_minus4: u32,
    pub pic_order_cnt_type: u32,
    pub log2_max_pic_order_cnt_lsb_minus4: u32,
    pub delta_pic_order_always_zero_flag: bool,
    pub offset_for_non_ref_pic: i32,
    pub offset_for_top_to_bottom_field: i32,
    pub num_ref_frames_in_pic_order_cnt_cycle: u32,
    pub offset_for_ref_frame: Vec<i32>,
    pub max_num_ref_frames: u32,
    pub gaps_in_frame_num_value_allowed_flag: u8,
    pub pic_width_in_mbs_minus1: u32,
    pub pic_height_in_map_units_minus1: u32,
    pub frame_mbs_only_flag: bool,
    pub mb_adaptive_frame_field_flag: u8,
    pub direct_8x8_inference_flag: u8,
    pub frame_cropping_flag: u8,
    pub frame_crop_left_offset: u32,
    pub frame_crop_right_offset: u32,
    pub frame_crop_top_offset: u32,
    pub frame_crop_bottom_offset: u32,
    pub vui_parameters_present_flag: u8,
    pub vui_parameters: Option<H264VUIParameters>,
}

#[verifier::ext_equal]
pub struct SpsView {
    pub profile_idc: u8,
    pub constraint_0_flag: u8,
    pub constraint_1_flag: u8,
    pub constraint_2_flag: u8,
    pub constraint_3_flag: u8,
    pub constraint_4_flag: u8,
    pub constraint_5_flag: u8,
    pub level_idc: u8,
    pub seq_parameter_set_id: u32,
    pub chroma_format_idc: u32,
    pub separate_colour_plane_flag: bool,
    pub bit_depth_luma_minus8: u32,
    pub bit_depth_chroma_minus8: u32,
    pub qpprime_y_zero_transform_bypass_flag: u8,
    pub seq_scaling_matrix_present_flag: u8,
    pub seq_scaling_list_present_flag: Seq<u8>,
    pub log2_max_frame_num_minus4: u32,
    pub pic_order_cnt_type: u32,
    pub log2_max_pic_order_cnt_lsb_minus4: u32,
    pub delta_pic_order_always_zero_flag: bool,
    pub offset_for_non_ref_pic: i32,
    pub offset_for_top_to_bottom_field: i32,
    pub num_ref_frames_in_pic_order_cnt_cycle: u32,
    pub offset_for_ref_frame: Seq<i32>,
    pub max_num_ref_frames: u32,
    pub gaps_in_frame_num_value_allowed_flag: u8,
    pub pic_width_in_mbs_minus1: u32,
    pub pic_height_in_map_units_minus1: u32,
    pub frame_mbs_only_flag: bool,
    pub mb_adaptive_frame_field_flag: u8,
    pub direct_8x8_inference_flag: u8,
    pub frame_cropping_flag: u8,
    pub frame_crop_left_offset: u32,
    pub frame_crop_right_offset: u32,
    pub frame_crop_top_offset: u32,
    pub frame_crop_bottom_offset: u32,
    pub vui_parameters_present_flag: u8,
    pub vui_parameters: Option<VuiView>,
}

pub open spec fn view_opt_vui(o: Option<H264VUIParameters>) -> Option<VuiView> {
    match o {
        Some(v) => Some(v@),
        None => None,
    }
}

impl View for H264NalUnitSPS {
    type V = SpsView;

    open spec fn view(&self) -> SpsView {
        SpsView {
            profile_idc: self.profile_idc,
            constraint_0_flag: self.constraint_0_flag,
            constraint_1_flag: self.constraint_1_flag,
            constraint_2_flag: self.constraint_2_flag,
            constraint_3_flag: self.constraint_3_flag,
            constraint_4_flag: self.constraint_4_flag,
            constraint_5_flag: self.constraint_5_flag,
            level_idc: self.level_idc,
            seq_parameter_set_id: self.seq_parameter_set_id,
            chroma_format_idc: self.chroma_format_idc,
            separate_colour_plane_flag: self.separate_colour_plane_flag,
            bit_depth_luma_minus8: self.bit_depth_luma_minus8,
            bit_depth_chroma_minus8: self.bit_depth_chroma_minus8,
            qpprime_y_zero_transform_bypass_flag: self.qpprime_y_zero_transform_bypass_flag,
            seq_scaling_matrix_present_flag: self.seq_scaling_matrix_present_flag,
            seq_scaling_list_present_flag: self.seq_scaling_list_present_flag@,
            log2_max_frame_num_minus4: self.log2_max_frame_num_minus4,
            pic_order_cnt_type: self.pic_order_cnt_type,
            log2_max_pic_order_cnt_lsb_minus4: self.log2_max_pic_order_cnt_lsb_minus4,
            delta_pic_order_always_zero_flag: self.delta_pic_order_always_zero_flag,
            offset_for_non_ref_pic: self.offset_for_non_ref_pic,
            offset_for_top_to_bottom_field: self.offset_for_top_to_bottom_field,
            num_ref_frames_in_pic_order_cnt_cycle: self.num_ref_frames_in_pic_order_cnt_cycle,
            offset_for_ref_frame: self.offset_for_ref_frame@,
            max_num_ref_frames: self.max_num_ref_frames,
            gaps_in_frame_num_value_allowed_flag: self.gaps_in_frame_num_value_allowed_flag,
            pic_width_in_mbs_minus1: self.pic_width_in_mbs_minus1,
            pic_height_in_map_units_minus1: self.pic_height_in_map_units_minus1,
            frame_mbs_only_flag: self.frame_mbs_only_flag,
            mb_adaptive_frame_field_flag: self.mb_adaptive_frame_field_flag,
            direct_8x8_inference_flag: self.direct_8x8_inference_flag,
            frame_cropping_flag: self.frame_cropping_flag,
            frame_crop_left_offset: self.frame_crop_left_offset,
            frame_crop_right_offset: self.frame_crop_right_offset,
            frame_crop_top_offset: self.frame_crop_top_offset,
            frame_crop_bottom_offset: self.frame_crop_bottom_offset,
            vui_parameters_present_flag: self.vui_parameters_present_flag,
            vui_parameters: view_opt_vui(self.vui_parameters),
        }
    }
}

impl SpsView {
    /// The view of a freshly constructed record, before any field is read.
    pub open spec fn init() -> SpsView {
        SpsView {
            profile_idc: 0,
            constraint_0_flag: 0,
            constraint_1_flag: 0,
            constraint_2_flag: 0,
            constraint_3_flag: 0,
            constraint_4_flag: 0,
            constraint_5_flag: 0,
            level_idc: 0,
            seq_parameter_set_id: 0,
            chroma_format_idc: 0,
            separate_colour_plane_flag: false,
            bit_depth_luma_minus8: 0,
            bit_depth_chroma_minus8: 0,
            qpprime_y_zero_transform_bypass_flag: 0,
            seq_scaling_matrix_present_flag: 0,
            seq_scaling_list_present_flag: Seq::empty(),
            log2_max_frame_num_minus4: 0,
            pic_order_cnt_type: 0,
            log2_max_pic_order_cnt_lsb_minus4: 0,
            delta_pic_order_always_zero_flag: false,
            offset_for_non_ref_pic: 0,
            offset_for_top_to_bottom_field: 0,
            num_ref_frames_in_pic_order_cnt_cycle: 0,
            offset_for_ref_frame: Seq::empty(),
            max_num_ref_frames: 0,
            gaps_in_frame_num_value_allowed_flag: 0,
            pic_width_in_mbs_minus1: 0,
            pic_height_in_map_units_minus1: 0,
            frame_mbs_only_flag: false,
            mb_adaptive_frame_field_flag: 0,
            direct_8x8_inference_flag: 0,
            frame_cropping_flag: 0,
            frame_crop_left_offset: 0,
            frame_crop_right_offset: 0,
            frame_crop_top_offset: 0,
            frame_crop_bottom_offset: 0,
            vui_parameters_present_flag: 0,
            vui_parameters: None,
        }
    }
}

impl H264NalUnitSPS {
    pub fn new() -> (r: H264NalUnitSPS)
        ensures
            r@ == SpsView::init(),
    {
        let r = H264NalUnitSPS {
            profile_idc: 0,
            constraint_0_flag: 0,
            constraint_1_flag: 0,
            constraint_2_flag: 0,
            constraint_3_flag: 0,
            constraint_4_flag: 0,
            constraint_5_flag: 0,
            level_idc: 0,
            seq_parameter_set_id: 0,
            chroma_format_idc: 0,
            separate_colour_plane_flag: false,
            bit_depth_luma_minus8: 0,
            bit_depth_chroma_minus8: 0,
            qpprime_y_zero_transform_bypass_flag: 0,
            seq_scaling_matrix_present_flag: 0,
            seq_scaling_list_present_flag: Vec::new(),
            log2_max_frame_num_minus4: 0,
            pic_order_cnt_type: 0,
            log2_max_pic_order_cnt_lsb_minus4: 0,
            delta_pic_order_always_zero_flag: false,
            offset_for_non_ref_pic: 0,
            offset_for_top_to_bottom_field: 0,
            num_ref_frames_in_pic_order_cnt_cycle: 0,
            offset_for_ref_frame: Vec::new(),
            max_num_ref_frames: 0,
            gaps_in_frame_num_value_allowed_flag: 0,
            pic_width_in_mbs_minus1: 0,
            pic_height_in_map_units_minus1: 0,
            frame_mbs_only_flag: false,
            mb_adaptive_frame_field_flag: 0,
            direct_8x8_inference_flag: 0,
            frame_cropping_flag: 0,
            frame_crop_left_offset: 0,
            frame_crop_right_offset: 0,
            frame_crop_top_offset: 0,
            frame_crop_bottom_offset: 0,
            vui_parameters_present_flag: 0,
            vui_parameters: None,
        };
        proof {
            assert(r@ =~= SpsView::init());
        }
        r
    }
}

impl Clone for H264NalUnitSPS {
    fn clone(&self) -> (res: Self)
        ensures
            res@ == self@,
    {
        let vui = match &self.vui_parameters {
            Some(v) => Some(v.clone()),
            None => None,
        };
        let res = H264NalUnitSPS {
            profile_idc: self.profile_idc,
            constraint_0_flag: self.constraint_0_flag,
            constraint_1_flag: self.constraint_1_flag,
            constraint_2_flag: self.constraint_2_flag,
            constraint_3_flag: self.constraint_3_flag,
            constraint_4_flag: self.constraint_4_flag,
            constraint_5_flag: self.constraint_5_flag,
            level_idc: self.level_idc,
            seq_parameter_set_id: self.seq_parameter_set_id,
            chroma_format_idc: self.chroma_format_idc,
            separate_colour_plane_flag: self.separate_colour_plane_flag,
            bit_depth_luma_minus8: self.bit_depth_luma_minus8,
            bit_depth_chroma_minus8: self.bit_depth_chroma_minus8,
            qpprime_y_zero_transform_bypass_flag: self.qpprime_y_zero_transform_bypass_flag,
            seq_scaling_matrix_present_flag: self.seq_scaling_matrix_present_flag,
            seq_scaling_list_present_flag: clone_vec_copy(&self.seq_scaling_list_present_flag),
            log2_max_frame_num_minus4: self.log2_max_frame_num_minus4,
            pic_order_cnt_type: self.pic_order_cnt_type,
            log2_max_pic_order_cnt_lsb_minus4: self.log2_max_pic_order_cnt_lsb_minus4,
            delta_pic_order_always_zero_flag: self.delta_pic_order_always_zero_flag,
            offset_for_non_ref_pic: self.offset_for_non_ref_pic,
            offset_for_top_to_bottom_field: self.offset_for_top_to_bottom_field,
            num_ref_frames_in_pic_order_cnt_cycle: self.num_ref_frames_in_pic_order_cnt_cycle,
            offset_for_ref_frame: clone_vec_copy(&self.offset_for_ref_frame),
            max_num_ref_frames: self.max_num_ref_frames,
            gaps_in_frame_num_value_allowed_flag: self.gaps_in_frame_num_value_allowed_flag,
            pic_width_in_mbs_minus1: self.pic_width_in_mbs_minus1,
            pic_height_in_map_units_minus1: self.pic_height_in_map_units_minus1,
            frame_mbs_only_flag: self.frame_mbs_only_flag,
            mb_adaptive_frame_field_flag: self.mb_adaptive_frame_field_flag,
            direct_8x8_inference_flag: self.direct_8x8_inference_flag,
            frame_cropping_flag: self.frame_cropping_flag,
            frame_crop_left_offset: self.frame_crop_left_offset,
            frame_crop_right_offset: self.frame_crop_right_offset,
            frame_crop_top_offset: self.frame_crop_top_offset,
            frame_crop_bottom_offset: self.frame_crop_bottom_offset,
            vui_parameters_present_flag: self.vui_parameters_present_flag,
            vui_parameters: vui,
        };
        proof {
            assert(res@ =~= self@);
        }
        res
    }
}

/// Picture parameter set, H.264 section 7.3.2.2.  As in the SPS, a payload
/// that carries a scaling list is rejected as `Unimplemented`.
#[derive(Debug)]
pub struct H264NalUnitPPS {
    pub pic_parameter_set_id: u32,
    pub seq_parameter_set_id: u32,
    pub entropy_coding_mode_flag: bool,
    pub bottom_field_pic_order_in_frame_present_flag: bool,
    pub num_slice_groups_minus1: u32,
    pub slice_group_map_type: u32,
    pub run_length_minus1: Vec<u32>,
    pub top_left: Vec<u32>,
    pub bottom_right: Vec<u32>,
    pub slice_group_change_direction_flag: u8,
    pub slice_group_change_rate_minus1: u32,
    pub pic_size_in_map_units_minus1: u32,
    pub slice_group_id: Vec<u32>,
    pub num_ref_idx_l0_default_active_minus1: u32,
    pub num_ref_idx_l1_default_active_minus1: u32,
    pub weighted_pred_flag: bool,
    pub weighted_bipred_idc: u8,
    pub pic_init_qp_minus26: i32,
    pub pic_init_qs_minus26: i32,
    pub chroma_qp_index_offset: i32,
    pub deblocking_filter_control_present_flag: bool,
    pub constrained_intra_pred_flag: u8,
    pub redundant_pic_cnt_present_flag: bool,
    pub transform_8x8_mode_flag: u8,
    pub pic_scaling_matrix_present_flag: u8,
    pub second_chroma_qp_index_offset: i32,
}

#[verifier::ext_equal]
pub struct PpsView {
    pub pic_parameter_set_id: u32,
    pub seq_parameter_set_id: u32,
    pub entropy_coding_mode_flag: bool,
    pub bottom_field_pic_order_in_frame_present_flag: bool,
    pub num_slice_groups_minus1: u32,
    pub slice_group_map_type: u32,
    pub run_length_minus1: Seq<u32>,
    pub top_left: Seq<u32>,
    pub bottom_right: Seq<u32>,
    pub slice_group_change_direction_flag: u8,
    pub slice_group_change_rate_minus1: u32,
    pub pic_size_in_map_units_minus1: u32,
    pub slice_group_id: Seq<u32>,
    pub num_ref_idx_l0_default_active_minus1: u32,
    pub num_ref_idx_l1_default_active_minus1: u32,
    pub weighted_pred_flag: bool,
    pub weighted_bipred_idc: u8,
    pub pic_init_qp_minus26: i32,
    pub pic_init_qs_minus26: i32,
    pub chroma_qp_index_offset: i32,
    pub deblocking_filter_control_present_flag: bool,
    pub constrained_intra_pred_flag: u8,
    pub redundant_pic_cnt_present_flag: bool,
    pub transform_8x8_mode_flag: u8,
    pub pic_scaling_matrix_present_flag: u8,
    pub second_chroma_qp_index_offset: i32,
}

impl View for H264NalUnitPPS {
    type V = PpsView;

    open spec fn view(&self) -> PpsView {
        PpsView {
            pic_parameter_set_id: self.pic_parameter_set_id,
            seq_parameter_set_id: self.seq_parameter_set_id,
            entropy_coding_mode_flag: self.entropy_coding_mode_flag,
            bottom_field_pic_order_in_frame_present_flag:
                self.bottom_field_pic_order_in_frame_present_flag,
            num_slice_groups_minus1: self.num_slice_groups_minus1,
            slice_group_map_type: self.slice_group_map_type,
            run_length_minus1: self.run_length_minus1@,
            top_left: self.top_left@,
            bottom_right: self.bottom_right@,
            slice_group_change_direction_flag: self.slice_group_change_direction_flag,
            slice_group_change_rate_minus1: self.slice_group_change_rate_minus1,
            pic_size_in_map_units_minus1: self.pic_size_in_map_units_minus1,
            slice_group_id: self.slice_group_id@,
            num_ref_idx_l0_default_active_minus1: self.num_ref_idx_l0_default_active_minus1,
            num_ref_idx_l1_default_active_minus1: self.num_ref_idx_l1_default_active_minus1,
            weighted_pred_flag: self.weighted_pred_flag,
            weighted_bipred_idc: self.weighted_bipred_idc,
            pic_init_qp_minus26: self.pic_init_qp_minus26,
            pic_init_qs_minus26: self.pic_init_qs_minus26,
            chroma_qp_index_offset: self.chroma_qp_index_offset,
            deblocking_filter_control_present_flag: self.deblocking_filter_control_present_flag,
            constrained_intra_pred_flag: self.constrained_intra_pred_flag,
            redundant_pic_cnt_present_flag: self.redundant_pic_cnt_present_flag,
            transform_8x8_mode_flag: self.transform_8x8_mode_flag,
            pic_scaling_matrix_present_flag: self.pic_scaling_matrix_present_flag,
            second_chroma_qp_index_offset: self.second_chroma_qp_index_offset,
        }
    }
}

impl PpsView {
    /// The view of a freshly constructed record, before any field is read.
    pub open spec fn init() -> PpsView {
        PpsView {
            pic_parameter_set_id: 0,
            seq_parameter_set_id: 0,
            entropy_coding_mode_flag: false,
            bottom_field_pic_order_in_frame_present_flag: false,
            num_slice_groups_minus1: 0,
            slice_group_map_type: 0,
            run_length_minus1: Seq::empty(),
            top_left: Seq::empty(),
            bottom_right: Seq::empty(),
            slice_group_change_direction_flag: 0,
            slice_group_change_rate_minus1: 0,
            pic_size_in_map_units_minus1: 0,
            slice_group_id: Seq::empty(),
            num_ref_idx_l0_default_active_minus1: 0,
            num_ref_idx_l1_default_active_minus1: 0,
            weighted_pred_flag: false,
            weighted_bipred_idc: 0,
            pic_init_qp_minus26: 0,
            pic_init_qs_minus26: 0,
            chroma_qp_index_offset: 0,
            deblocking_filter_control_present_flag: false,
            constrained_intra_pred_flag: 0,
            redundant_pic_cnt_present_flag: false,
            transform_8x8_mode_flag: 0,
            pic_scaling_matrix_present_flag: 0,
            second_chroma_qp_index_offset: 0,
        }
    }
}

impl H264NalUnitPPS {
    pub fn new() -> (r: H264NalUnitPPS)
        ensures
            r@ == PpsView::init(),
    {
        let r = H264NalUnitPPS {
            pic_parameter_set_id: 0,
            seq_parameter_set_id: 0,
            entropy_coding_mode_flag: false,
            bottom_field_pic_order_in_frame_present_flag: false,
            num_slice_groups_minus1: 0,
            slice_group_map_type: 0,
            run_length_minus1: Vec::new(),
            top_left: Vec::new(),
            bottom_right: Vec::new(),
            slice_group_change_direction_flag: 0,
            slice_group_change_rate_minus1: 0,
            pic_size_in_map_units_minus1: 0,
            slice_group_id: Vec::new(),
            num_ref_idx_l0_default_active_minus1: 0,
            num_ref_idx_l1_default_active_minus1: 0,
            weighted_pred_flag: false,
            weighted_bipred_idc: 0,
            pic_init_qp_minus26: 0,
            pic_init_qs_minus26: 0,
            chroma_qp_index_offset: 0,
            deblocking_filter_control_present_flag: false,
            constrained_intra_pred_flag: 0,
            redundant_pic_cnt_present_flag: false,
            transform_8x8_mode_flag: 0,
            pic_scaling_matrix_present_flag: 0,
            second_chroma_qp_index_offset: 0,
        };
        proof {
            assert(r@ =~= PpsView::init());
        }
        r
    }
}

impl Clone for H264NalUnitPPS {
    fn clone(&self) -> (res: Self)
        ensures
            res@ == self@,
    {
        let res = H264NalUnitPPS {
            pic_parameter_set_id: self.pic_parameter_set_id,
            seq_parameter_set_id: self.seq_parameter_set_id,
            entropy_coding_mode_flag: self.entropy_coding_mode_flag,
            bottom_field_pic_order_in_frame_present_flag:
                self.bottom_field_pic_order_in_frame_present_flag,
            num_slice_groups_minus1: self.num_slice_groups_minus1,
            slice_group_map_type: self.slice_group_map_type,
            run_length_minus1: clone_vec_copy(&self.run_length_minus1),
            top_left: clone_vec_copy(&self.top_left),
            bottom_right: clone_vec_copy(&self.bottom_right),
            slice_group_change_direction_flag: self.slice_group_change_direction_flag,
            slice_group_change_rate_minus1: self.slice_group_change_rate_minus1,
            pic_size_in_map_units_minus1: self.pic_size_in_map_units_minus1,
            slice_group_id: clone_vec_copy(&self.slice_group_id),
            num_ref_idx_l0_default_active_minus1: self.num_ref_idx_l0_default_active_minus1,
            num_ref_idx_l1_default_active_minus1: self.num_ref_idx_l1_default_active_minus1,
            weighted_pred_flag: self.weighted_pred_flag,
            weighted_bipred_idc: self.weighted_bipred_idc,
            pic_init_qp_minus26: self.pic_init_qp_minus26,
            pic_init_qs_minus26: self.pic_init_qs_minus26,
            chroma_qp_index_offset: self.chroma_qp_index_offset,
            deblocking_filter_control_present_flag: self.deblocking_filter_control_present_flag,
            constrained_intra_pred_flag: self.constrained_intra_pred_flag,
            redundant_pic_cnt_present_flag: self.redundant_pic_cnt_present_flag,
            transform_8x8_mode_flag: self.transform_8x8_mode_flag,
            pic_scaling_matrix_present_flag: self.pic_scaling_matrix_present_flag,
            second_chroma_qp_index_offset: self.second_chroma_qp_index_offset,
        };
        proof {
            assert(res@ =~= self@);
        }
        res
    }
}

/// Slice header, H.264 section 7.3.3.
#[derive(Debug)]
pub struct H264NalUnitSlice {
    pub first_mb_in_slice: u32,
    pub slice_type: u32,
    pub pic_parameter_set_id: u32,
    pub colour_plane_id: u8,
    pub frame_num: u32,
    pub field_pic_flag: bool,
    pub bottom_field_flag: bool,
    pub idr_pic_id: u32,
    pub pic_order_cnt_lsb: u16,
    pub delta_pic_order_cnt_bottom: i32,
    pub delta_pic_order_cnt: Vec<i32>,
    pub redundant_pic_cnt: u32,
    pub direct_spatial_mv_pred_flag: bool,
    pub num_ref_idx_active_override_flag: bool,
    pub num_ref_idx_l0_active_minus1: u32,
    pub num_ref_idx_l1_active_minus1: u32,
    pub no_output_of_prior_pics_flag: bool,
    pub long_term_reference_flag: bool,
    pub adaptive_ref_pic_marking_mode_flag: bool,
    pub difference_of_pic_nums_minus1: u32,
    pub long_term_pic_num: u32,
    pub long_term_frame_idx: u32,
    pub max_long_term_frame_idx_plus1: u32,
    pub cabac_init_idc: u32,
    pub slice_qp_delta: i32,
    pub sp_for_switch_flag: bool,
    pub slice_qs_delta: i32,
    pub disable_deblocking_filter_idc: u32,
    pub slice_alpha_c0_offset_div2: i32,
    pub slice_beta_offset_div2: i32,
    pub slice_group_change_cycle: u32,
}

#[verifier::ext_equal]
pub struct SliceView {
    pub first_mb_in_slice: u32,
    pub slice_type: u32,
    pub pic_parameter_set_id: u32,
    pub colour_plane_id: u8,
    pub frame_num: u32,
    pub field_pic_flag: bool,
    pub bottom_field_flag: bool,
    pub idr_pic_id: u32,
    pub pic_order_cnt_lsb: u16,
    pub delta_pic_order_cnt_bottom: i32,
    pub delta_pic_order_cnt: Seq<i32>,
    pub redundant_pic_cnt: u32,
    pub direct_spatial_mv_pred_flag: bool,
    pub num_ref_idx_active_override_flag: bool,
    pub num_ref_idx_l0_active_minus1: u32,
    pub num_ref_idx_l1_active_minus1: u32,
    pub no_output_of_prior_pics_flag: bool,
    pub long_term_reference_flag: bool,
    pub adaptive_ref_pic_marking_mode_flag: bool,
    pub difference_of_pic_nums_minus1: u32,
    pub long_term_pic_num: u32,
    pub long_term_frame_idx: u32,
    pub max_long_term_frame_idx_plus1: u32,
    pub cabac_init_idc: u32,
    pub slice_qp_delta: i32,
    pub sp_for_switch_flag: bool,
    pub slice_qs_delta: i32,
    pub disable_deblocking_filter_idc: u32,
    pub slice_alpha_c0_offset_div2: i32,
    pub slice_beta_offset_div2: i32,
    pub slice_group_change_cycle: u32,
}

impl View for H264NalUnitSlice {
    type V = SliceView;

    open spec fn view(&self) -> SliceView {
        SliceView {
            first_mb_in_slice: self.first_mb_in_slice,
            slice_type: self.slice_type,
            pic_parameter_set_id: self.pic_parameter_set_id,
            colour_plane_id: self.colour_plane_id,
            frame_num: self.frame_num,
            field_pic_flag: self.field_pic_flag,
            bottom_field_flag: self.bottom_field_flag,
            idr_pic_id: self.idr_pic_id,
            pic_order_cnt_lsb: self.pic_order_cnt_lsb,
            delta_pic_order_cnt_bottom: self.delta_pic_order_cnt_bottom,
            delta_pic_order_cnt: self.delta_pic_order_cnt@,
            redundant_pic_cnt: self.redundant_pic_cnt,
            direct_spatial_mv_pred_flag: self.direct_spatial_mv_pred_flag,
            num_ref_idx_active_override_flag: self.num_ref_idx_active_override_flag,
            num_ref_idx_l0_active_minus1: self.num_ref_idx_l0_active_minus1,
            num_ref_idx_l1_active_minus1: self.num_ref_idx_l1_active_minus1,
            no_output_of_prior_pics_flag: self.no_output_of_prior_pics_flag,
            long_term_reference_flag: self.long_term_reference_flag,
            adaptive_ref_pic_marking_mode_flag: self.adaptive_ref_pic_marking_mode_flag,
            difference_of_pic_nums_minus1: self.difference_of_pic_nums_minus1,
            long_term_pic_num: self.long_term_pic_num,
            long_term_frame_idx: self.long_term_frame_idx,
            max_long_term_frame_idx_plus1: self.max_long_term_frame_idx_plus1,
            cabac_init_idc: self.cabac_init_idc,
            slice_qp_delta: self.slice_qp_delta,
            sp_for_switch_flag: self.sp_for_switch_flag,
            slice_qs_delta: self.slice_qs_delta,
            disable_deblocking_filter_idc: self.disable_deblocking_filter_idc,
            slice_alpha_c0_offset_div2: self.slice_alpha_c0_offset_div2,
            slice_beta_offset_div2: self.slice_beta_offset_div2,
            slice_group_change_cycle: self.slice_group_change_cycle,
        }
    }
}

impl SliceView {
    /// The view of a freshly constructed record: `delta_pic_order_cnt`
    /// starts as two zero entries, as the slice decoder fills at most two.
    pub open spec fn init() -> SliceView {
        SliceView {
            first_mb_in_slice: 0,
            slice_type: 0,
            pic_parameter_set_id: 0,
            colour_plane_id: 0,
            frame_num: 0,
            field_pic_flag: false,
            bottom_field_flag: false,
            idr_pic_id: 0,
            pic_order_cnt_lsb: 0,
            delta_pic_order_cnt_bottom: 0,
            delta_pic_order_cnt: seq![0i32, 0i32],
            redundant_pic_cnt: 0,
            direct_spatial_mv_pred_flag: false,
            num_ref_idx_active_override_flag: false,
            num_ref_idx_l0_active_minus1: 0,
            num_ref_idx_l1_active_minus1: 0,
            no_output_of_prior_pics_flag: false,
            long_term_reference_flag: false,
            adaptive_ref_pic_marking_mode_flag: false,
            difference_of_pic_nums_minus1: 0,
            long_term_pic_num: 0,
            long_term_frame_idx: 0,
            max_long_term_frame_idx_plus1: 0,
            cabac_init_idc: 0,
            slice_qp_delta: 0,
            sp_for_switch_flag: false,
            slice_qs_delta: 0,
            disable_deblocking_filter_idc: 0,
            slice_alpha_c0_offset_div2: 0,
            slice_beta_offset_div2: 0,
            slice_group_change_cycle: 0,
        }
    }
}

impl H264NalUnitSlice {
    pub fn new() -> (r: H264NalUnitSlice)
        ensures
            r@ == SliceView::init(),
    {
        let mut delta: Vec<i32> = Vec::new();
        delta.push(0);
        delta.push(0);
        let r = H264NalUnitSlice {
            first_mb_in_slice: 0,
            slice_type: 0,
            pic_parameter_set_id: 0,
            colour_plane_id: 0,
            frame_num: 0,
            field_pic_flag: false,
            bottom_field_flag: false,
            idr_pic_id: 0,
            pic_order_cnt_lsb: 0,
            delta_pic_order_cnt_bottom: 0,
            delta_pic_order_cnt: delta,
            redundant_pic_cnt: 0,
            direct_spatial_mv_pred_flag: false,
            num_ref_idx_active_override_flag: false,
            num_ref_idx_l0_active_minus1: 0,
            num_ref_idx_l1_active_minus1: 0,
            no_output_of_prior_pics_flag: false,
            long_term_reference_flag: false,
            adaptive_ref_pic_marking_mode_flag: false,
            difference_of_pic_nums_minus1: 0,
            long_term_pic_num: 0,
            long_term_frame_idx: 0,
            max_long_term_frame_idx_plus1: 0,
            cabac_init_idc: 0,
            slice_qp_delta: 0,
            sp_for_switch_flag: false,
            slice_qs_delta: 0,
            disable_deblocking_filter_idc: 0,
            slice_alpha_c0_offset_div2: 0,
            slice_beta_offset_div2: 0,
            slice_group_change_cycle: 0,
        };
        proof {
            assert(r.delta_pic_order_cnt@ =~= seq![0i32, 0i32]);
            assert(r@ =~= SliceView::init());
        }
        r
    }
}

pub const P_SLICE: u32 = 0;

pub const B_SLICE: u32 = 1;

pub const I_SLICE: u32 = 2;

pub const SP_SLICE: u32 = 3;

pub const SI_SLICE: u32 = 4;

pub fn slice_type_is_p_slice(slice_type: u32) -> (r: bool)
    ensures
        r == (slice_type % 5 == P_SLICE),
{
    slice_type % 5 == P_SLICE
}

pub fn slice_type_is_b_slice(slice_type: u32) -> (r: bool)
    ensures
        r == (slice_type % 5 == B_SLICE),
{
    slice_type % 5 == B_SLICE
}

pub fn slice_type_is_i_slice(slice_type: u32) -> (r: bool)
    ensures
        r == (slice_type % 5 == I_SLICE),
{
    slice_type % 5 == I_SLICE
}

pub fn slice_type_is_sp_slice(slice_type: u32) -> (r: bool)
    ensures
        r == (slice_type % 5 == SP_SLICE),
{
    slice_type % 5 == SP_SLICE
}

pub fn slice_type_is_si_slice(slice_type: u32) -> (r: bool)
    ensures
        r == (slice_type % 5 == SI_SLICE),
{
    slice_type % 5 == SI_SLICE
}

/// Ceiling of the base-two logarithm: the smallest `y` with
/// `pow2(y) >= val`, so that `ceil_log2(1) == 0`, `ceil_log2(2) == 1` and
/// `ceil_log2(3) == 2`.
pub fn ceil_log2(val: u32) -> (r: u32)
    requires
        val >= 1,
    ensures
        r == clog2(val as int),
        r <= 32,
{
    let mut y: u32 = 0;
    let mut p: u64 = 1;
    proof {
        lemma2_to64();
    }
    while p < val as u64
        invariant
            val >= 1,
            y <= 32,
            p == pow2(y as nat),
            y > 0 ==> pow2((y - 1) as nat) < val,
        decreases 32 - y,
    {
        proof {
            if y >= 32 {
                if y > 32 {
                    lemma_pow2_strictly_increases(32, y as nat);
                }
                assert(pow2(32) == 0x100000000) by {
                    lemma2_to64();
                }
                assert(false);
            }
            lemma_pow2_unfold((y + 1) as nat);
            if y + 1 < 33 {
                lemma_pow2_strictly_increases((y + 1) as nat, 33);
            }
            assert(pow2(33) == 0x200000000) by {
                vstd::arithmetic::power2::lemma2_to64_rest();
            }
        }
        p = p * 2;
        y = y + 1;
    }
    proof {
        lemma_clog2_unique(val as int, y as int);
    }
    y
}

} // verus!
