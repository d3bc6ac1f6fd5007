//! Syntax-element decoders for SPS, PPS and slice-header payloads, each
//! verified against a specification function over the payload's RBSP bit
//! stream.
//!
//! Every decoder builds a bit reader one byte past the given offset (the
//! NAL header byte) and reads fields in the exact order of the standard;
//! the specification functions mirror that order read by read, so the
//! contract pins every field of the returned record to the input bits.

use vstd::prelude::*;
use crate::bitstream::{s_bits, s_ue, s_se, s_flag, more_data, clog2};
use crate::h264nalreader::H264NalReader;
use crate::rbsp::rbsp_seq;
use crate::types::{
    H264HDRParameters, H264VUIParameters, H264NalUnitSPS, H264NalUnitPPS, H264NalUnitSlice,
    H264NalUnit, HrdView, VuiView, SpsView, PpsView, SliceView, EXTENDED_SAR,
    slice_type_is_p_slice, slice_type_is_b_slice, slice_type_is_i_slice, slice_type_is_sp_slice,
    slice_type_is_si_slice,
};
use crate::{H264NalParser, H264NalParseError, MAX_SPS_COUNT, MAX_PPS_COUNT};

verus! {

/// The RBSP bit stream of the payload that starts one byte after `o`:
/// the NAL header byte at `o` is skipped.
pub open spec fn payload_rbsp(s: Seq<u8>, o: int) -> Seq<u8> {
    rbsp_seq(s.subrange(o + 1, s.len() as int))
}

/// `n` unsigned Exp-Golomb reads in a row.
pub open spec fn s_ue_n(r: Seq<u8>, p: int, n: int) -> Result<
    (Seq<u32>, int),
    H264NalParseError,
>
    decreases n,
{
    if n <= 0 {
        Ok((Seq::empty(), p))
    } else {
        match s_ue(r, p) {
            Err(e) => Err(e),
            Ok((v, p2)) => match s_ue_n(r, p2, n - 1) {
                Err(e) => Err(e),
                Ok((vs, p3)) => Ok((seq![v] + vs, p3)),
            },
        }
    }
}

/// `n` signed Exp-Golomb reads in a row.
pub open spec fn s_se_n(r: Seq<u8>, p: int, n: int) -> Result<
    (Seq<i32>, int),
    H264NalParseError,
>
    decreases n,
{
    if n <= 0 {
        Ok((Seq::empty(), p))
    } else {
        match s_se(r, p) {
            Err(e) => Err(e),
            Ok((v, p2)) => match s_se_n(r, p2, n - 1) {
                Err(e) => Err(e),
                Ok((vs, p3)) => Ok((seq![v] + vs, p3)),
            },
        }
    }
}

/// `n` one-bit reads in a row, each returned as a byte.
pub open spec fn s_bit_n(r: Seq<u8>, p: int, n: int) -> Result<
    (Seq<u8>, int),
    H264NalParseError,
>
    decreases n,
{
    if n <= 0 {
        Ok((Seq::empty(), p))
    } else {
        match s_bits(r, p, 1) {
            Err(e) => Err(e),
            Ok((v, p2)) => match s_bit_n(r, p2, n - 1) {
                Err(e) => Err(e),
                Ok((vs, p3)) => Ok((seq![v as u8] + vs, p3)),
            },
        }
    }
}

/// `n` pairs of unsigned Exp-Golomb reads in a row.
pub open spec fn s_ue_pair_n(r: Seq<u8>, p: int, n: int) -> Result<
    ((Seq<u32>, Seq<u32>), int),
    H264NalParseError,
>
    decreases n,
{
    if n <= 0 {
        Ok(((Seq::empty(), Seq::empty()), p))
    } else {
        match s_ue(r, p) {
            Err(e) => Err(e),
            Ok((a, p2)) => match s_ue(r, p2) {
                Err(e) => Err(e),
                Ok((b, p3)) => match s_ue_pair_n(r, p3, n - 1) {
                    Err(e) => Err(e),
                    Ok(((xs, ys), p4)) => Ok(((seq![a] + xs, seq![b] + ys), p4)),
                },
            },
        }
    }
}

/// `n` triples of two unsigned Exp-Golomb reads and one flag bit, the
/// per-CPB loop of the HRD parameters.
pub open spec fn s_hrd_n(r: Seq<u8>, p: int, n: int) -> Result<
    ((Seq<u32>, Seq<u32>, Seq<u8>), int),
    H264NalParseError,
>
    decreases n,
{
    if n <= 0 {
        Ok(((Seq::empty(), Seq::empty(), Seq::empty()), p))
    } else {
        match s_ue(r, p) {
            Err(e) => Err(e),
            Ok((br, p2)) => match s_ue(r, p2) {
                Err(e) => Err(e),
                Ok((cs, p3)) => match s_bits(r, p3, 1) {
                    Err(e) => Err(e),
                    Ok((cb, p4)) => match s_hrd_n(r, p4, n - 1) {
                        Err(e) => Err(e),
                        Ok(((brs, css, cbs), p5)) => Ok(
                            ((seq![br] + brs, seq![cs] + css, seq![cb as u8] + cbs), p5),
                        ),
                    },
                },
            },
        }
    }
}

/// Reads `n` unsigned Exp-Golomb values in a row.
fn read_ue_vec(reader: &mut H264NalReader, n: u64) -> (r: Result<Vec<u32>, H264NalParseError>)
    requires
        old(reader).wf(),
    ensures
        final(reader).wf(),
        final(reader).source() == old(reader).source(),
        final(reader).rbsp() == old(reader).rbsp(),
        old(reader).epbs() <= final(reader).epbs(),
        match s_ue_n(old(reader).rbsp(), old(reader).bitpos(), n as int) {
            Ok(t) => r is Ok && r->Ok_0@ == t.0 && final(reader).bitpos() == t.1,
            Err(e) => r == Err::<Vec<u32>, H264NalParseError>(e),
        },
{
    let ghost rb = reader.rbsp();
    let ghost p0 = reader.bitpos();
    let mut out: Vec<u32> = Vec::new();
    let mut i: u64 = 0;
    while i < n
        invariant
            reader.wf(),
            reader.source() == old(reader).source(),
            reader.rbsp() == rb,
            rb == old(reader).rbsp(),
            p0 == old(reader).bitpos(),
            old(reader).epbs() <= reader.epbs(),
            i <= n,
            s_ue_n(rb, p0, n as int) == (match s_ue_n(rb, reader.bitpos(), n - i) {
                Ok(t) => Ok::<(Seq<u32>, int), H264NalParseError>((out@ + t.0, t.1)),
                Err(e) => Err::<(Seq<u32>, int), H264NalParseError>(e),
            }),
        decreases n - i,
    {
        let v = match reader.read_ue() {
            Ok(v) => v,
            Err(e) => {
                return Err(e);
            },
        };
        let ghost out0 = out@;
        proof {
            match s_ue_n(rb, reader.bitpos(), n - i - 1) {
                Ok(t) => {
                    assert(out0 + (seq![v] + t.0) =~= (out0 + seq![v]) + t.0);
                },
                Err(_) => {},
            }
        }
        out.push(v);
        proof {
            assert(out@ =~= out0 + seq![v]);
        }
        i = i + 1;
    }
    proof {
        assert(out@ + Seq::<u32>::empty() =~= out@);
    }
    Ok(out)
}

/// Reads `n` signed Exp-Golomb values in a row.
fn read_se_vec(reader: &mut H264NalReader, n: u64) -> (r: Result<Vec<i32>, H264NalParseError>)
    requires
        old(reader).wf(),
    ensures
        final(reader).wf(),
        final(reader).source() == old(reader).source(),
        final(reader).rbsp() == old(reader).rbsp(),
        old(reader).epbs() <= final(reader).epbs(),
        match s_se_n(old(reader).rbsp(), old(reader).bitpos(), n as int) {
            Ok(t) => r is Ok && r->Ok_0@ == t.0 && final(reader).bitpos() == t.1,
            Err(e) => r == Err::<Vec<i32>, H264NalParseError>(e),
        },
{
    let ghost rb = reader.rbsp();
    let ghost p0 = reader.bitpos();
    let mut out: Vec<i32> = Vec::new();
    let mut i: u64 = 0;
    while i < n
        invariant
            reader.wf(),
            reader.source() == old(reader).source(),
            reader.rbsp() == rb,
            rb == old(reader).rbsp(),
            p0 == old(reader).bitpos(),
            old(reader).epbs() <= reader.epbs(),
            i <= n,
            s_se_n(rb, p0, n as int) == (match s_se_n(rb, reader.bitpos(), n - i) {
                Ok(t) => Ok::<(Seq<i32>, int), H264NalParseError>((out@ + t.0, t.1)),
                Err(e) => Err::<(Seq<i32>, int), H264NalParseError>(e),
            }),
        decreases n - i,
    {
        let v = match reader.read_se() {
            Ok(v) => v,
            Err(e) => {
                return Err(e);
            },
        };
        let ghost out0 = out@;
        proof {
            match s_se_n(rb, reader.bitpos(), n - i - 1) {
                Ok(t) => {
                    assert(out0 + (seq![v] + t.0) =~= (out0 + seq![v]) + t.0);
                },
                Err(_) => {},
            }
        }
        out.push(v);
        proof {
            assert(out@ =~= out0 + seq![v]);
        }
        i = i + 1;
    }
    proof {
        assert(out@ + Seq::<i32>::empty() =~= out@);
    }
    Ok(out)
}

/// Reads `n` single bits in a row, each returned as a byte.
fn read_bit_vec(reader: &mut H264NalReader, n: u64) -> (r: Result<Vec<u8>, H264NalParseError>)
    requires
        old(reader).wf(),
    ensures
        final(reader).wf(),
        final(reader).source() == old(reader).source(),
        final(reader).rbsp() == old(reader).rbsp(),
        old(reader).epbs() <= final(reader).epbs(),
        match s_bit_n(old(reader).rbsp(), old(reader).bitpos(), n as int) {
            Ok(t) => r is Ok && r->Ok_0@ == t.0 && final(reader).bitpos() == t.1,
            Err(e) => r == Err::<Vec<u8>, H264NalParseError>(e),
        },
{
    let ghost rb = reader.rbsp();
    let ghost p0 = reader.bitpos();
    let mut out: Vec<u8> = Vec::new();
    let mut i: u64 = 0;
    while i < n
        invariant
            reader.wf(),
            reader.source() == old(reader).source(),
            reader.rbsp() == rb,
            rb == old(reader).rbsp(),
            p0 == old(reader).bitpos(),
            old(reader).epbs() <= reader.epbs(),
            i <= n,
            s_bit_n(rb, p0, n as int) == (match s_bit_n(rb, reader.bitpos(), n - i) {
                Ok(t) => Ok::<(Seq<u8>, int), H264NalParseError>((out@ + t.0, t.1)),
                Err(e) => Err::<(Seq<u8>, int), H264NalParseError>(e),
            }),
        decreases n - i,
    {
        let v = match reader.read_u8(1) {
            Ok(v) => v,
            Err(e) => {
                return Err(e);
            },
        };
        let ghost out0 = out@;
        proof {
            match s_bit_n(rb, reader.bitpos(), n - i - 1) {
                Ok(t) => {
                    assert(out0 + (seq![v] + t.0) =~= (out0 + seq![v]) + t.0);
                },
                Err(_) => {},
            }
        }
        out.push(v);
        proof {
            assert(out@ =~= out0 + seq![v]);
        }
        i = i + 1;
    }
    proof {
        assert(out@ + Seq::<u8>::empty() =~= out@);
    }
    Ok(out)
}

/// Reads `n` pairs of unsigned Exp-Golomb values in a row.
fn read_ue_pair_vecs(reader: &mut H264NalReader, n: u64) -> (r: Result<
    (Vec<u32>, Vec<u32>),
    H264NalParseError,
>)
    requires
        old(reader).wf(),
    ensures
        final(reader).wf(),
        final(reader).source() == old(reader).source(),
        final(reader).rbsp() == old(reader).rbsp(),
        old(reader).epbs() <= final(reader).epbs(),
        match s_ue_pair_n(old(reader).rbsp(), old(reader).bitpos(), n as int) {
            Ok(t) => r is Ok && r->Ok_0.0@ == t.0.0 && r->Ok_0.1@ == t.0.1
                && final(reader).bitpos() == t.1,
            Err(e) => r == Err::<(Vec<u32>, Vec<u32>), H264NalParseError>(e),
        },
{
    let ghost rb = reader.rbsp();
    let ghost p0 = reader.bitpos();
    let mut xs: Vec<u32> = Vec::new();
    let mut ys: Vec<u32> = Vec::new();
    let mut i: u64 = 0;
    while i < n
        invariant
            reader.wf(),
            reader.source() == old(reader).source(),
            reader.rbsp() == rb,
            rb == old(reader).rbsp(),
            p0 == old(reader).bitpos(),
            old(reader).epbs() <= reader.epbs(),
            i <= n,
            s_ue_pair_n(rb, p0, n as int) == (match s_ue_pair_n(rb, reader.bitpos(), n - i) {
                Ok(t) => Ok::<((Seq<u32>, Seq<u32>), int), H264NalParseError>(
                    ((xs@ + t.0.0, ys@ + t.0.1), t.1),
                ),
                Err(e) => Err::<((Seq<u32>, Seq<u32>), int), H264NalParseError>(e),
            }),
        decreases n - i,
    {
        let a = match reader.read_ue() {
            Ok(v) => v,
            Err(e) => {
                return Err(e);
            },
        };
        let b = match reader.read_ue() {
            Ok(v) => v,
            Err(e) => {
                return Err(e);
            },
        };
        let ghost xs0 = xs@;
        let ghost ys0 = ys@;
        proof {
            match s_ue_pair_n(rb, reader.bitpos(), n - i - 1) {
                Ok(t) => {
                    assert(xs0 + (seq![a] + t.0.0) =~= (xs0 + seq![a]) + t.0.0);
                    assert(ys0 + (seq![b] + t.0.1) =~= (ys0 + seq![b]) + t.0.1);
                },
                Err(_) => {},
            }
        }
        xs.push(a);
        ys.push(b);
        proof {
            assert(xs@ =~= xs0 + seq![a]);
            assert(ys@ =~= ys0 + seq![b]);
        }
        i = i + 1;
    }
    proof {
        assert(xs@ + Seq::<u32>::empty() =~= xs@);
        assert(ys@ + Seq::<u32>::empty() =~= ys@);
    }
    Ok((xs, ys))
}

/// What decoding HRD parameters at bit position `p` yields, in the read
/// order of H.264 section E.1.2.
#[verifier::opaque]
pub open spec fn hrd_spec(r: Seq<u8>, p: int) -> Result<(HrdView, int), H264NalParseError> {
    match s_ue(r, p) {
        Err(e) => Err(e),
        Ok((cpb_cnt_minus1, p)) => match s_bits(r, p, 4) {
            Err(e) => Err(e),
            Ok((brs, p)) => match s_bits(r, p, 4) {
                Err(e) => Err(e),
                Ok((css, p)) => match s_hrd_n(r, p, cpb_cnt_minus1 + 1) {
                    Err(e) => Err(e),
                    Ok(((brv, csv, cbr), p)) => match s_bits(r, p, 5) {
                        Err(e) => Err(e),
                        Ok((icrd, p)) => match s_bits(r, p, 5) {
                            Err(e) => Err(e),
                            Ok((crd, p)) => match s_bits(r, p, 5) {
                                Err(e) => Err(e),
                                Ok((dod, p)) => match s_bits(r, p, 5) {
                                    Err(e) => Err(e),
                                    Ok((tol, p)) => Ok(
                                        (
                                            HrdView {
                                                cpb_cnt_minus1,
                                                bit_rate_scale: brs as u8,
                                                cpb_size_scale: css as u8,
                                                bit_rate_value_minus1: brv,
                                                cpb_size_value_minus1: csv,
                                                cbr_flag: cbr,
                                                initial_cpb_removal_delay_length_minus1: icrd as u8,
                                                cpb_removal_delay_length_minus1: crd as u8,
                                                dpb_output_delay_length_minus1: dod as u8,
                                                time_offset_length: tol as u8,
                                            },
                                            p,
                                        ),
                                    ),
                                },
                            },
                        },
                    },
                },
            },
        },
    }
}

/// VUI reads, aspect-ratio block: H.264 section E.1.1, first part.
#[verifier::opaque]
pub open spec fn vui_s1(r: Seq<u8>, p: int, acc: VuiView) -> Result<
    (VuiView, int),
    H264NalParseError,
> {
    match s_bits(r, p, 1) {
        Err(e) => Err(e),
        Ok((arip, p)) => {
            let acc = VuiView { aspect_ratio_info_present_flag: arip as u8, ..acc };
            if arip as u8 == 1 {
                match s_bits(r, p, 8) {
                    Err(e) => Err(e),
                    Ok((idc, p)) => {
                        let acc = VuiView { aspect_ratio_idc: idc as u8, ..acc };
                        if idc as u8 == EXTENDED_SAR {
                            match s_bits(r, p, 16) {
                                Err(e) => Err(e),
                                Ok((w, p)) => match s_bits(r, p, 16) {
                                    Err(e) => Err(e),
                                    Ok((h, p)) => Ok(
                                        (
                                            VuiView {
                                                sar_width: w as u16,
                                                sar_height: h as u16,
                                                ..acc
                                            },
                                            p,
                                        ),
                                    ),
                                },
                            }
                        } else {
                            Ok((acc, p))
                        }
                    },
                }
            } else {
                Ok((acc, p))
            }
        },
    }
}

/// VUI reads, overscan and video-signal blocks.
#[verifier::opaque]
pub open spec fn vui_s2(r: Seq<u8>, p: int, acc: VuiView) -> Result<
    (VuiView, int),
    H264NalParseError,
> {
    match s_bits(r, p, 1) {
        Err(e) => Err(e),
        Ok((oip, p)) => {
            let acc = VuiView { overscan_info_present_flag: oip as u8, ..acc };
            let step = if oip as u8 == 1 {
                match s_bits(r, p, 1) {
                    Err(e) => Err(e),
                    Ok((oaf, p)) => Ok((VuiView { overscan_appropriate_flag: oaf as u8, ..acc }, p)),
                }
            } else {
                Ok((acc, p))
            };
            match step {
                Err(e) => Err(e),
                Ok((acc, p)) => match s_bits(r, p, 1) {
                    Err(e) => Err(e),
                    Ok((vst, p)) => {
                        let acc = VuiView { video_signal_type_present_flag: vst as u8, ..acc };
                        if vst as u8 == 1 {
                            match s_bits(r, p, 3) {
                                Err(e) => Err(e),
                                Ok((vf, p)) => match s_bits(r, p, 1) {
                                    Err(e) => Err(e),
                                    Ok((vfr, p)) => match s_bits(r, p, 1) {
                                        Err(e) => Err(e),
                                        Ok((cdp, p)) => {
                                            let acc = VuiView {
                                                video_format: vf as u8,
                                                video_full_range_flag: vfr as u8,
                                                colour_description_present_flag: cdp as u8,
                                                ..acc
                                            };
                                            if cdp as u8 == 1 {
                                                match s_bits(r, p, 8) {
                                                    Err(e) => Err(e),
                                                    Ok((cp, p)) => match s_bits(r, p, 8) {
                                                        Err(e) => Err(e),
                                                        Ok((tc, p)) => match s_bits(r, p, 8) {
                                                            Err(e) => Err(e),
                                                            Ok((mc, p)) => Ok(
                                                                (
                                                                    VuiView {
                                                                        colour_primaries: cp as u8,
                                                                        transfer_characteristics:
                                                                            tc as u8,
                                                                        matrix_coefficients:
                                                                            mc as u8,
                                                                        ..acc
                                                                    },
                                                                    p,
                                                                ),
                                                            ),
                                                        },
                                                    },
                                                }
                                            } else {
                                                Ok((acc, p))
                                            }
                                        },
                                    },
                                },
                            }
                        } else {
                            Ok((acc, p))
                        }
                    },
                },
            }
        },
    }
}

/// VUI reads, chroma-location and timing blocks.
#[verifier::opaque]
pub open spec fn vui_s3(r: Seq<u8>, p: int, acc: VuiView) -> Result<
    (VuiView, int),
    H264NalParseError,
> {
    match s_bits(r, p, 1) {
        Err(e) => Err(e),
        Ok((cli, p)) => {
            let acc = VuiView { chroma_loc_info_present_flag: cli as u8, ..acc };
            let step = if cli as u8 == 1 {
                match s_ue(r, p) {
                    Err(e) => Err(e),
                    Ok((top, p)) => match s_ue(r, p) {
                        Err(e) => Err(e),
                        Ok((bot, p)) => Ok(
                            (
                                VuiView {
                                    chroma_sample_loc_type_top_field: top,
                                    chroma_sample_loc_type_bottom_field: bot,
                                    ..acc
                                },
                                p,
                            ),
                        ),
                    },
                }
            } else {
                Ok((acc, p))
            };
            match step {
                Err(e) => Err(e),
                Ok((acc, p)) => match s_bits(r, p, 1) {
                    Err(e) => Err(e),
                    Ok((tip, p)) => {
                        let acc = VuiView { timing_info_present_flag: tip as u8, ..acc };
                        if tip as u8 == 1 {
                            match s_bits(r, p, 32) {
                                Err(e) => Err(e),
                                Ok((nut, p)) => match s_bits(r, p, 32) {
                                    Err(e) => Err(e),
                                    Ok((ts, p)) => match s_bits(r, p, 1) {
                                        Err(e) => Err(e),
                                        Ok((ffr, p)) => Ok(
                                            (
                                                VuiView {
                                                    num_units_in_tick: nut,
                                                    time_scale: ts,
                                                    fixed_frame_rate_flag: ffr as u8,
                                                    ..acc
                                                },
                                                p,
                                            ),
                                        ),
                                    },
                                },
                            }
                        } else {
                            Ok((acc, p))
                        }
                    },
                },
            }
        },
    }
}

/// VUI reads, the two HRD blocks with the low-delay and picture-structure
/// flags.
#[verifier::opaque]
pub open spec fn vui_s4(r: Seq<u8>, p: int, acc: VuiView) -> Result<
    (VuiView, int),
    H264NalParseError,
> {
    match s_bits(r, p, 1) {
        Err(e) => Err(e),
        Ok((nhp, p)) => {
            let acc = VuiView { nal_hrd_parameters_present_flag: nhp as u8, ..acc };
            let step = if nhp as u8 == 1 {
                match hrd_spec(r, p) {
                    Err(e) => Err(e),
                    Ok((h, p)) => Ok((VuiView { nal_hrd_parameters: Some(h), ..acc }, p)),
                }
            } else {
                Ok((acc, p))
            };
            match step {
                Err(e) => Err(e),
                Ok((acc, p)) => match s_bits(r, p, 1) {
                    Err(e) => Err(e),
                    Ok((vhp, p)) => {
                        let acc = VuiView { vcl_hrd_parameters_present_flag: vhp as u8, ..acc };
                        let step2 = if vhp as u8 == 1 {
                            match hrd_spec(r, p) {
                                Err(e) => Err(e),
                                Ok((h, p)) => Ok((VuiView { vcl_hrd_parameters: Some(h), ..acc }, p)),
                            }
                        } else {
                            Ok((acc, p))
                        };
                        match step2 {
                            Err(e) => Err(e),
                            Ok((acc, p)) => {
                                let step3 = if nhp as u8 == 1 || vhp as u8 == 1 {
                                    match s_bits(r, p, 1) {
                                        Err(e) => Err(e),
                                        Ok((ldh, p)) => Ok(
                                            (VuiView { low_delay_hrd_flag: ldh as u8, ..acc }, p),
                                        ),
                                    }
                                } else {
                                    Ok((acc, p))
                                };
                                match step3 {
                                    Err(e) => Err(e),
                                    Ok((acc, p)) => match s_bits(r, p, 1) {
                                        Err(e) => Err(e),
                                        Ok((psp, p)) => Ok(
                                            (
                                                VuiView {
                                                    pic_struct_present_flag: psp as u8,
                                                    ..acc
                                                },
                                                p,
                                            ),
                                        ),
                                    },
                                }
                            },
                        }
                    },
                },
            }
        },
    }
}

/// VUI reads, bitstream-restriction block.
#[verifier::opaque]
pub open spec fn vui_s5(r: Seq<u8>, p: int, acc: VuiView) -> Result<
    (VuiView, int),
    H264NalParseError,
> {
    match s_bits(r, p, 1) {
        Err(e) => Err(e),
        Ok((brf, p)) => {
            let acc = VuiView { bitstream_restriction_flag: brf as u8, ..acc };
            if brf as u8 == 1 {
                match s_bits(r, p, 1) {
                    Err(e) => Err(e),
                    Ok((mv, p)) => match s_ue(r, p) {
                        Err(e) => Err(e),
                        Ok((mbp, p)) => match s_ue(r, p) {
                            Err(e) => Err(e),
                            Ok((mbm, p)) => match s_ue(r, p) {
                                Err(e) => Err(e),
                                Ok((lh, p)) => match s_ue(r, p) {
                                    Err(e) => Err(e),
                                    Ok((lv, p)) => match s_ue(r, p) {
                                        Err(e) => Err(e),
                                        Ok((mnr, p)) => match s_ue(r, p) {
                                            Err(e) => Err(e),
                                            Ok((mdb, p)) => Ok(
                                                (
                                                    VuiView {
                                                        motion_vectors_over_pic_boundaries_flag:
                                                            mv as u8,
                                                        max_bytes_per_pic_denom: mbp,
                                                        max_bits_per_mb_denom: mbm,
                                                        log2_max_mv_length_horizontal: lh,
                                                        log2_max_mv_length_vertical: lv,
                                                        max_num_reorder_frames: mnr,
                                                        max_dec_frame_buffering: mdb,
                                                        ..acc
                                                    },
                                                    p,
                                                ),
                                            ),
                                        },
                                    },
                                },
                            },
                        },
                    },
                }
            } else {
                Ok((acc, p))
            }
        },
    }
}

/// What decoding VUI parameters at bit position `p` yields, in the read
/// order of H.264 section E.1.1.
pub open spec fn vui_spec(r: Seq<u8>, p: int) -> Result<(VuiView, int), H264NalParseError> {
    match vui_s1(r, p, VuiView::init()) {
        Err(e) => Err(e),
        Ok((acc, p)) => match vui_s2(r, p, acc) {
            Err(e) => Err(e),
            Ok((acc, p)) => match vui_s3(r, p, acc) {
                Err(e) => Err(e),
                Ok((acc, p)) => match vui_s4(r, p, acc) {
                    Err(e) => Err(e),
                    Ok((acc, p)) => vui_s5(r, p, acc),
                },
            },
        },
    }
}


/// PPS reads, leading fields: ids, entropy mode, ordering flag and
/// slice-group count.  A `pic_parameter_set_id` beyond the store's range
/// fails at once.
#[verifier::opaque]
pub open spec fn pps_s1(r: Seq<u8>, p: int, acc: PpsView) -> Result<
    (PpsView, int),
    H264NalParseError,
> {
    match s_ue(r, p) {
        Err(e) => Err(e),
        Ok((ppsid, p)) => {
            if ppsid >= MAX_PPS_COUNT as u32 {
                Err(H264NalParseError::GenericParseError)
            } else {
                match s_ue(r, p) {
                    Err(e) => Err(e),
                    Ok((spsid, p)) => match s_flag(r, p) {
                        Err(e) => Err(e),
                        Ok((ecm, p)) => match s_flag(r, p) {
                            Err(e) => Err(e),
                            Ok((bfp, p)) => match s_ue(r, p) {
                                Err(e) => Err(e),
                                Ok((nsg, p)) => Ok(
                                    (
                                        PpsView {
                                            pic_parameter_set_id: ppsid,
                                            seq_parameter_set_id: spsid,
                                            entropy_coding_mode_flag: ecm,
                                            bottom_field_pic_order_in_frame_present_flag: bfp,
                                            num_slice_groups_minus1: nsg,
                                            ..acc
                                        },
                                        p,
                                    ),
                                ),
                            },
                        },
                    },
                }
            }
        },
    }
}

/// PPS reads, slice-group block: present only when more than one slice
/// group is configured, with one sub-block per map type.
#[verifier::opaque]
pub open spec fn pps_groups(r: Seq<u8>, p: int, acc: PpsView) -> Result<
    (PpsView, int),
    H264NalParseError,
> {
    if acc.num_slice_groups_minus1 == 0 {
        Ok((acc, p))
    } else {
        match s_ue(r, p) {
            Err(e) => Err(e),
            Ok((mt, p)) => {
                let acc = PpsView { slice_group_map_type: mt, ..acc };
                if mt == 0 {
                    match s_ue_n(r, p, acc.num_slice_groups_minus1 + 1) {
                        Err(e) => Err(e),
                        Ok((rl, p)) => Ok((PpsView { run_length_minus1: rl, ..acc }, p)),
                    }
                } else if mt == 2 {
                    match s_ue_pair_n(r, p, acc.num_slice_groups_minus1 + 1) {
                        Err(e) => Err(e),
                        Ok(((tl, br), p)) => Ok(
                            (PpsView { top_left: tl, bottom_right: br, ..acc }, p),
                        ),
                    }
                } else if mt == 3 || mt == 4 || mt == 5 {
                    match s_bits(r, p, 1) {
                        Err(e) => Err(e),
                        Ok((cd, p)) => match s_ue(r, p) {
                            Err(e) => Err(e),
                            Ok((cr, p)) => Ok(
                                (
                                    PpsView {
                                        slice_group_change_direction_flag: cd as u8,
                                        slice_group_change_rate_minus1: cr,
                                        ..acc
                                    },
                                    p,
                                ),
                            ),
                        },
                    }
                } else if mt == 6 {
                    match s_ue(r, p) {
                        Err(e) => Err(e),
                        Ok((ps, p)) => {
                            let acc = PpsView { pic_size_in_map_units_minus1: ps, ..acc };
                            match s_ue_n(r, p, ps + 1) {
                                Err(e) => Err(e),
                                Ok((ids, p)) => Ok((PpsView { slice_group_id: ids, ..acc }, p)),
                            }
                        },
                    }
                } else {
                    Ok((acc, p))
                }
            },
        }
    }
}

/// PPS reads, reference and quantiser fields.
#[verifier::opaque]
pub open spec fn pps_s3(r: Seq<u8>, p: int, acc: PpsView) -> Result<
    (PpsView, int),
    H264NalParseError,
> {
    match s_ue(r, p) {
        Err(e) => Err(e),
        Ok((l0, p)) => match s_ue(r, p) {
            Err(e) => Err(e),
            Ok((l1, p)) => match s_flag(r, p) {
                Err(e) => Err(e),
                Ok((wp, p)) => match s_bits(r, p, 2) {
                    Err(e) => Err(e),
                    Ok((wb, p)) => match s_se(r, p) {
                        Err(e) => Err(e),
                        Ok((qp, p)) => match s_se(r, p) {
                            Err(e) => Err(e),
                            Ok((qs, p)) => match s_se(r, p) {
                                Err(e) => Err(e),
                                Ok((cqp, p)) => match s_flag(r, p) {
                                    Err(e) => Err(e),
                                    Ok((dfc, p)) => match s_bits(r, p, 1) {
                                        Err(e) => Err(e),
                                        Ok((cip, p)) => match s_flag(r, p) {
                                            Err(e) => Err(e),
                                            Ok((rpc, p)) => Ok(
                                                (
                                                    PpsView {
                                                        num_ref_idx_l0_default_active_minus1: l0,
                                                        num_ref_idx_l1_default_active_minus1: l1,
                                                        weighted_pred_flag: wp,
                                                        weighted_bipred_idc: wb as u8,
                                                        pic_init_qp_minus26: qp,
                                                        pic_init_qs_minus26: qs,
                                                        chroma_qp_index_offset: cqp,
                                                        deblocking_filter_control_present_flag:
                                                            dfc,
                                                        constrained_intra_pred_flag: cip as u8,
                                                        redundant_pic_cnt_present_flag: rpc,
                                                        ..acc
                                                    },
                                                    p,
                                                ),
                                            ),
                                        },
                                    },
                                },
                            },
                        },
                    },
                },
            },
        },
    }
}

/// PPS reads, trailing block: present exactly when RBSP data remains.  A
/// picture scaling matrix is not reconstructed and fails as
/// `Unimplemented`.
#[verifier::opaque]
pub open spec fn pps_tail(r: Seq<u8>, p: int, acc: PpsView) -> Result<
    (PpsView, int),
    H264NalParseError,
> {
    if more_data(r, p) {
        match s_bits(r, p, 1) {
            Err(e) => Err(e),
            Ok((t8, p)) => match s_bits(r, p, 1) {
                Err(e) => Err(e),
                Ok((psm, p)) => {
                    if psm as u8 == 1 {
                        Err(H264NalParseError::Unimplemented)
                    } else {
                        match s_se(r, p) {
                            Err(e) => Err(e),
                            Ok((sc, p)) => Ok(
                                (
                                    PpsView {
                                        transform_8x8_mode_flag: t8 as u8,
                                        pic_scaling_matrix_present_flag: psm as u8,
                                        second_chroma_qp_index_offset: sc,
                                        ..acc
                                    },
                                    p,
                                ),
                            ),
                        }
                    }
                },
            },
        }
    } else {
        Ok((acc, p))
    }
}

/// What decoding a PPS payload yields, in the read order of H.264 section
/// 7.3.2.2.
pub open spec fn pps_spec(r: Seq<u8>) -> Result<(PpsView, int), H264NalParseError> {
    match pps_s1(r, 0, PpsView::init()) {
        Err(e) => Err(e),
        Ok((acc, p)) => match pps_groups(r, p, acc) {
            Err(e) => Err(e),
            Ok((acc, p)) => match pps_s3(r, p, acc) {
                Err(e) => Err(e),
                Ok((acc, p)) => pps_tail(r, p, acc),
            },
        },
    }
}

/// What `parse_pps` at buffer offset `o` yields: the payload one byte past
/// the NAL header is decoded; an offset at or past the end fails at once.
pub open spec fn pps_result(s: Seq<u8>, o: int) -> Result<(PpsView, int), H264NalParseError> {
    if o + 1 > s.len() {
        Err(H264NalParseError::NotEnoughBytes)
    } else {
        pps_spec(payload_rbsp(s, o))
    }
}


/// Profiles whose SPS carries the chroma-format, bit-depth and
/// scaling-matrix block.
pub open spec fn profile_has_chroma_info(profile_idc: u8) -> bool {
    ||| profile_idc == 100
    ||| profile_idc == 110
    ||| profile_idc == 122
    ||| profile_idc == 244
    ||| profile_idc == 44
    ||| profile_idc == 83
    ||| profile_idc == 86
    ||| profile_idc == 118
    ||| profile_idc == 128
    ||| profile_idc == 138
    ||| profile_idc == 139
    ||| profile_idc == 134
    ||| profile_idc == 135
}

/// Some byte of `s` is nonzero.
pub open spec fn any_set(s: Seq<u8>) -> bool {
    exists|i: int| 0 <= i < s.len() && s[i] != 0
}

/// SPS reads, leading fields: profile, constraint flags, level and id.
/// An id beyond the store's range fails at once.
#[verifier::opaque]
pub open spec fn sps_s1(r: Seq<u8>, p: int, acc: SpsView) -> Result<
    (SpsView, int),
    H264NalParseError,
> {
    match s_bits(r, p, 8) {
        Err(e) => Err(e),
        Ok((profile, p)) => match s_bits(r, p, 1) {
            Err(e) => Err(e),
            Ok((c0, p)) => match s_bits(r, p, 1) {
                Err(e) => Err(e),
                Ok((c1, p)) => match s_bits(r, p, 1) {
                    Err(e) => Err(e),
                    Ok((c2, p)) => match s_bits(r, p, 1) {
                        Err(e) => Err(e),
                        Ok((c3, p)) => match s_bits(r, p, 1) {
                            Err(e) => Err(e),
                            Ok((c4, p)) => match s_bits(r, p, 1) {
                                Err(e) => Err(e),
                                Ok((c5, p)) => match s_bits(r, p, 2) {
                                    Err(e) => Err(e),
                                    Ok((_reserved, p)) => match s_bits(r, p, 8) {
                                        Err(e) => Err(e),
                                        Ok((level, p)) => match s_ue(r, p) {
                                            Err(e) => Err(e),
                                            Ok((id, p)) => {
                                                if id >= MAX_SPS_COUNT as u32 {
                                                    Err(H264NalParseError::GenericParseError)
                                                } else {
                                                    Ok(
                                                        (
                                                            SpsView {
                                                                profile_idc: profile as u8,
                                                                constraint_0_flag: c0 as u8,
                                                                constraint_1_flag: c1 as u8,
                                                                constraint_2_flag: c2 as u8,
                                                                constraint_3_flag: c3 as u8,
                                                                constraint_4_flag: c4 as u8,
                                                                constraint_5_flag: c5 as u8,
                                                                level_idc: level as u8,
                                                                seq_parameter_set_id: id,
                                                                ..acc
                                                            },
                                                            p,
                                                        ),
                                                    )
                                                }
                                            },
                                        },
                                    },
                                },
                            },
                        },
                    },
                },
            },
        },
    }
}

/// SPS reads, chroma block: present only for the profiles of
/// `profile_has_chroma_info`.  A scaling list is not reconstructed: any
/// set scaling-list-present flag fails as `Unimplemented`.
#[verifier::opaque]
pub open spec fn sps_s2(r: Seq<u8>, p: int, acc: SpsView) -> Result<
    (SpsView, int),
    H264NalParseError,
> {
    if !profile_has_chroma_info(acc.profile_idc) {
        Ok((acc, p))
    } else {
        match s_ue(r, p) {
            Err(e) => Err(e),
            Ok((cfi, p)) => {
                let acc = SpsView { chroma_format_idc: cfi, ..acc };
                let step = if cfi == 3 {
                    match s_flag(r, p) {
                        Err(e) => Err(e),
                        Ok((scp, p)) => Ok((SpsView { separate_colour_plane_flag: scp, ..acc }, p)),
                    }
                } else {
                    Ok((acc, p))
                };
                match step {
                    Err(e) => Err(e),
                    Ok((acc, p)) => match s_ue(r, p) {
                        Err(e) => Err(e),
                        Ok((bdl, p)) => match s_ue(r, p) {
                            Err(e) => Err(e),
                            Ok((bdc, p)) => match s_bits(r, p, 1) {
                                Err(e) => Err(e),
                                Ok((qp, p)) => match s_bits(r, p, 1) {
                                    Err(e) => Err(e),
                                    Ok((smp, p)) => {
                                        let acc = SpsView {
                                            bit_depth_luma_minus8: bdl,
                                            bit_depth_chroma_minus8: bdc,
                                            qpprime_y_zero_transform_bypass_flag: qp as u8,
                                            seq_scaling_matrix_present_flag: smp as u8,
                                            ..acc
                                        };
                                        if smp as u8 == 1 {
                                            let cnt: int = if acc.chroma_format_idc != 3 {
                                                8
                                            } else {
                                                12
                                            };
                                            match s_bit_n(r, p, cnt) {
                                                Err(e) => Err(e),
                                                Ok((flags, p)) => {
                                                    if any_set(flags) {
                                                        Err(H264NalParseError::Unimplemented)
                                                    } else {
                                                        Ok(
                                                            (
                                                                SpsView {
                                                                    seq_scaling_list_present_flag:
                                                                        flags,
                                                                    ..acc
                                                                },
                                                                p,
                                                            ),
                                                        )
                                                    }
                                                },
                                            }
                                        } else {
                                            Ok((acc, p))
                                        }
                                    },
                                },
                            },
                        },
                    },
                }
            },
        }
    }
}

/// SPS reads, frame-numbering and picture-order-count block.
#[verifier::opaque]
pub open spec fn sps_s3(r: Seq<u8>, p: int, acc: SpsView) -> Result<
    (SpsView, int),
    H264NalParseError,
> {
    match s_ue(r, p) {
        Err(e) => Err(e),
        Ok((lmf, p)) => match s_ue(r, p) {
            Err(e) => Err(e),
            Ok((poc, p)) => {
                let acc = SpsView {
                    log2_max_frame_num_minus4: lmf,
                    pic_order_cnt_type: poc,
                    ..acc
                };
                if poc == 0 {
                    match s_ue(r, p) {
                        Err(e) => Err(e),
                        Ok((lsb, p)) => Ok(
                            (SpsView { log2_max_pic_order_cnt_lsb_minus4: lsb, ..acc }, p),
                        ),
                    }
                } else if poc == 1 {
                    match s_flag(r, p) {
                        Err(e) => Err(e),
                        Ok((dz, p)) => match s_se(r, p) {
                            Err(e) => Err(e),
                            Ok((onr, p)) => match s_se(r, p) {
                                Err(e) => Err(e),
                                Ok((ottb, p)) => match s_ue(r, p) {
                                    Err(e) => Err(e),
                                    Ok((cnt, p)) => match s_se_n(r, p, cnt as int) {
                                        Err(e) => Err(e),
                                        Ok((offs, p)) => Ok(
                                            (
                                                SpsView {
                                                    delta_pic_order_always_zero_flag: dz,
                                                    offset_for_non_ref_pic: onr,
                                                    offset_for_top_to_bottom_field: ottb,
                                                    num_ref_frames_in_pic_order_cnt_cycle: cnt,
                                                    offset_for_ref_frame: offs,
                                                    ..acc
                                                },
                                                p,
                                            ),
                                        ),
                                    },
                                },
                            },
                        },
                    }
                } else {
                    Ok((acc, p))
                }
            },
        },
    }
}

/// SPS reads, trailing block: reference frames, picture size, cropping and
/// the optional VUI.
pub open spec fn sps_s4(r: Seq<u8>, p: int, acc: SpsView) -> Result<
    (SpsView, int),
    H264NalParseError,
> {
    match sps_s4a(r, p, acc) {
        Err(e) => Err(e),
        Ok((acc, p)) => sps_s4b(r, p, acc),
    }
}

/// SPS reference-frame, picture-size and cropping reads.
#[verifier::opaque]
pub open spec fn sps_s4a(r: Seq<u8>, p: int, acc: SpsView) -> Result<
    (SpsView, int),
    H264NalParseError,
> {
    match s_ue(r, p) {
        Err(e) => Err(e),
        Ok((mnr, p)) => match s_bits(r, p, 1) {
            Err(e) => Err(e),
            Ok((gaps, p)) => match s_ue(r, p) {
                Err(e) => Err(e),
                Ok((w, p)) => match s_ue(r, p) {
                    Err(e) => Err(e),
                    Ok((h, p)) => match s_flag(r, p) {
                        Err(e) => Err(e),
                        Ok((fmo, p)) => {
                            let acc = SpsView {
                                max_num_ref_frames: mnr,
                                gaps_in_frame_num_value_allowed_flag: gaps as u8,
                                pic_width_in_mbs_minus1: w,
                                pic_height_in_map_units_minus1: h,
                                frame_mbs_only_flag: fmo,
                                ..acc
                            };
                            let step = if !fmo {
                                match s_bits(r, p, 1) {
                                    Err(e) => Err(e),
                                    Ok((mba, p)) => Ok(
                                        (
                                            SpsView {
                                                mb_adaptive_frame_field_flag: mba as u8,
                                                ..acc
                                            },
                                            p,
                                        ),
                                    ),
                                }
                            } else {
                                Ok((acc, p))
                            };
                            match step {
                                Err(e) => Err(e),
                                Ok((acc, p)) => match s_bits(r, p, 1) {
                                    Err(e) => Err(e),
                                    Ok((d88, p)) => match s_bits(r, p, 1) {
                                        Err(e) => Err(e),
                                        Ok((crop, p)) => {
                                            let acc = SpsView {
                                                direct_8x8_inference_flag: d88 as u8,
                                                frame_cropping_flag: crop as u8,
                                                ..acc
                                            };
                                            if crop as u8 == 1 {
                                                match s_ue(r, p) {
                                                    Err(e) => Err(e),
                                                    Ok((cl, p)) => match s_ue(r, p) {
                                                        Err(e) => Err(e),
                                                        Ok((cr, p)) => match s_ue(r, p) {
                                                            Err(e) => Err(e),
                                                            Ok((ct, p)) => match s_ue(r, p) {
                                                                Err(e) => Err(e),
                                                                Ok((cb, p)) => Ok(
                                                                    (
                                                                        SpsView {
                                                                            frame_crop_left_offset:
                                                                                cl,
                                                                            frame_crop_right_offset:
                                                                                cr,
                                                                            frame_crop_top_offset:
                                                                                ct,
                                                                            frame_crop_bottom_offset:
                                                                                cb,
                                                                            ..acc
                                                                        },
                                                                        p,
                                                                    ),
                                                                ),
                                                            },
                                                        },
                                                    },
                                                }
                                            } else {
                                                Ok((acc, p))
                                            }
                                        },
                                    },
                                },
                            }
                        },
                    },
                },
            },
        },
    }
}

/// SPS optional-VUI read.
#[verifier::opaque]
pub open spec fn sps_s4b(r: Seq<u8>, p: int, acc: SpsView) -> Result<
    (SpsView, int),
    H264NalParseError,
> {
    match s_bits(r, p, 1) {
        Err(e) => Err(e),
        Ok((vp, p)) => {
            let acc = SpsView { vui_parameters_present_flag: vp as u8, ..acc };
            if vp as u8 == 1 {
                match vui_spec(r, p) {
                    Err(e) => Err(e),
                    Ok((v, p)) => Ok((SpsView { vui_parameters: Some(v), ..acc }, p)),
                }
            } else {
                Ok((acc, p))
            }
        },
    }
}

/// What decoding an SPS payload yields, in the read order of H.264 section
/// 7.3.2.1.1.
pub open spec fn sps_spec(r: Seq<u8>) -> Result<(SpsView, int), H264NalParseError> {
    match sps_s1(r, 0, SpsView::init()) {
        Err(e) => Err(e),
        Ok((acc, p)) => match sps_s2(r, p, acc) {
            Err(e) => Err(e),
            Ok((acc, p)) => match sps_s3(r, p, acc) {
                Err(e) => Err(e),
                Ok((acc, p)) => sps_s4(r, p, acc),
            },
        },
    }
}

/// What `parse_sps` at buffer offset `o` yields.
pub open spec fn sps_result(s: Seq<u8>, o: int) -> Result<(SpsView, int), H264NalParseError> {
    if o + 1 > s.len() {
        Err(H264NalParseError::NotEnoughBytes)
    } else {
        sps_spec(payload_rbsp(s, o))
    }
}

/// True when some byte of `v` is nonzero.
fn any_nonzero(v: &Vec<u8>) -> (b: bool)
    ensures
        b == any_set(v@),
{
    let mut i: usize = 0;
    while i < v.len()
        invariant
            i <= v.len(),
            forall|j: int| 0 <= j < i ==> v@[j] == 0,
        decreases v.len() - i,
    {
        if v[i] != 0 {
            return true;
        }
        i = i + 1;
    }
    false
}


/// The three leading slice-header fields, read before parameter-set
/// resolution: `first_mb_in_slice`, `slice_type`, `pic_parameter_set_id`.
#[verifier::opaque]
pub open spec fn slice_head_spec(r: Seq<u8>) -> Result<((u32, u32, u32), int), H264NalParseError> {
    match s_ue(r, 0) {
        Err(e) => Err(e),
        Ok((fmb, p)) => match s_ue(r, p) {
            Err(e) => Err(e),
            Ok((st, p)) => match s_ue(r, p) {
                Err(e) => Err(e),
                Ok((ppsid, p)) => Ok(((fmb, st, ppsid), p)),
            },
        },
    }
}

/// Slice reads after resolution: colour plane, frame number, field flags,
/// IDR id and picture-order-count fields.  A frame-number or POC-lsb width
/// beyond what a 32- or 16-bit read can hold fails as a semantic error.
pub open spec fn sl_a(
    r: Seq<u8>,
    p: int,
    acc: SliceView,
    nalu: H264NalUnit,
    pps: PpsView,
    sps: SpsView,
) -> Result<(SliceView, int), H264NalParseError> {
    match sl_a1(r, p, acc, sps) {
        Err(e) => Err(e),
        Ok((acc, p)) => match sl_a2(r, p, acc, nalu, sps) {
            Err(e) => Err(e),
            Ok((acc, p)) => sl_poc(r, p, acc, pps, sps),
        },
    }
}

/// Slice colour-plane and frame-number reads.
#[verifier::opaque]
pub open spec fn sl_a1(r: Seq<u8>, p: int, acc: SliceView, sps: SpsView) -> Result<
    (SliceView, int),
    H264NalParseError,
> {
    let step = if sps.separate_colour_plane_flag {
        match s_bits(r, p, 2) {
            Err(e) => Err(e),
            Ok((cp, p)) => Ok((SliceView { colour_plane_id: cp as u8, ..acc }, p)),
        }
    } else {
        Ok((acc, p))
    };
    match step {
        Err(e) => Err(e),
        Ok((acc, p)) => {
            if sps.log2_max_frame_num_minus4 > 28 {
                Err(H264NalParseError::GenericParseError)
            } else {
                match s_bits(r, p, sps.log2_max_frame_num_minus4 + 4) {
                    Err(e) => Err(e),
                    Ok((fnum, p)) => Ok((SliceView { frame_num: fnum, ..acc }, p)),
                }
            }
        },
    }
}

/// Slice field flags and IDR picture id.
#[verifier::opaque]
pub open spec fn sl_a2(
    r: Seq<u8>,
    p: int,
    acc: SliceView,
    nalu: H264NalUnit,
    sps: SpsView,
) -> Result<(SliceView, int), H264NalParseError> {
    let step = if !sps.frame_mbs_only_flag {
        match s_flag(r, p) {
            Err(e) => Err(e),
            Ok((fp, p)) => {
                let acc = SliceView { field_pic_flag: fp, ..acc };
                if fp {
                    match s_flag(r, p) {
                        Err(e) => Err(e),
                        Ok((bf, p)) => Ok((SliceView { bottom_field_flag: bf, ..acc }, p)),
                    }
                } else {
                    Ok((acc, p))
                }
            },
        }
    } else {
        Ok((acc, p))
    };
    match step {
        Err(e) => Err(e),
        Ok((acc, p)) => {
            if nalu.idr_pic_flag {
                match s_ue(r, p) {
                    Err(e) => Err(e),
                    Ok((ipi, p)) => Ok((SliceView { idr_pic_id: ipi, ..acc }, p)),
                }
            } else {
                Ok((acc, p))
            }
        },
    }
}

/// Slice picture-order-count fields, conditional on the SPS POC type.
#[verifier::opaque]
pub open spec fn sl_poc(r: Seq<u8>, p: int, acc: SliceView, pps: PpsView, sps: SpsView) -> Result<
    (SliceView, int),
    H264NalParseError,
> {
    if sps.pic_order_cnt_type == 0 {
        if sps.log2_max_pic_order_cnt_lsb_minus4 > 12 {
            Err(H264NalParseError::GenericParseError)
        } else {
            match s_bits(r, p, sps.log2_max_pic_order_cnt_lsb_minus4 + 4) {
                Err(e) => Err(e),
                Ok((lsb, p)) => {
                    let acc = SliceView { pic_order_cnt_lsb: lsb as u16, ..acc };
                    if pps.bottom_field_pic_order_in_frame_present_flag && !acc.field_pic_flag {
                        match s_se(r, p) {
                            Err(e) => Err(e),
                            Ok((d, p)) => Ok(
                                (SliceView { delta_pic_order_cnt_bottom: d, ..acc }, p),
                            ),
                        }
                    } else {
                        Ok((acc, p))
                    }
                },
            }
        }
    } else if sps.pic_order_cnt_type == 1 && !sps.delta_pic_order_always_zero_flag {
        match s_se(r, p) {
            Err(e) => Err(e),
            Ok((d0, p)) => {
                let acc = SliceView {
                    delta_pic_order_cnt: acc.delta_pic_order_cnt.update(0, d0),
                    ..acc
                };
                if pps.bottom_field_pic_order_in_frame_present_flag && acc.field_pic_flag {
                    match s_se(r, p) {
                        Err(e) => Err(e),
                        Ok((d1, p)) => Ok(
                            (
                                SliceView {
                                    delta_pic_order_cnt: acc.delta_pic_order_cnt.update(1, d1),
                                    ..acc
                                },
                                p,
                            ),
                        ),
                    }
                } else {
                    Ok((acc, p))
                }
            },
        }
    } else {
        Ok((acc, p))
    }
}

/// Slice reads by slice type: redundant picture count, direct prediction
/// and reference-index overrides.
pub open spec fn sl_b(r: Seq<u8>, p: int, acc: SliceView, pps: PpsView) -> Result<
    (SliceView, int),
    H264NalParseError,
> {
    match sl_b1(r, p, acc, pps) {
        Err(e) => Err(e),
        Ok((acc, p)) => sl_b2(r, p, acc),
    }
}

/// Slice redundant-count and direct-prediction reads.
#[verifier::opaque]
pub open spec fn sl_b1(r: Seq<u8>, p: int, acc: SliceView, pps: PpsView) -> Result<
    (SliceView, int),
    H264NalParseError,
> {
    let step = if pps.redundant_pic_cnt_present_flag {
        match s_ue(r, p) {
            Err(e) => Err(e),
            Ok((rpc, p)) => Ok((SliceView { redundant_pic_cnt: rpc, ..acc }, p)),
        }
    } else {
        Ok((acc, p))
    };
    match step {
        Err(e) => Err(e),
        Ok((acc, p)) => {
            if acc.slice_type % 5 == 1 {
                match s_flag(r, p) {
                    Err(e) => Err(e),
                    Ok((ds, p)) => Ok((SliceView { direct_spatial_mv_pred_flag: ds, ..acc }, p)),
                }
            } else {
                Ok((acc, p))
            }
        },
    }
}

/// Slice reference-index override reads.
#[verifier::opaque]
pub open spec fn sl_b2(r: Seq<u8>, p: int, acc: SliceView) -> Result<
    (SliceView, int),
    H264NalParseError,
> {
    if acc.slice_type % 5 == 0 || acc.slice_type % 5 == 1 || acc.slice_type % 5 == 3 {
        match s_flag(r, p) {
            Err(e) => Err(e),
            Ok((ov, p)) => {
                let acc = SliceView { num_ref_idx_active_override_flag: ov, ..acc };
                let step = if ov {
                    match s_ue(r, p) {
                        Err(e) => Err(e),
                        Ok((l0, p)) => Ok(
                            (SliceView { num_ref_idx_l0_active_minus1: l0, ..acc }, p),
                        ),
                    }
                } else {
                    Ok((acc, p))
                };
                match step {
                    Err(e) => Err(e),
                    Ok((acc, p)) => {
                        if acc.slice_type % 5 == 1 {
                            match s_ue(r, p) {
                                Err(e) => Err(e),
                                Ok((l1, p)) => Ok(
                                    (SliceView { num_ref_idx_l1_active_minus1: l1, ..acc }, p),
                                ),
                            }
                        } else {
                            Ok((acc, p))
                        }
                    },
                }
            },
        }
    } else {
        Ok((acc, p))
    }
}

/// One run of the reference-picture-list modification loop: read
/// `modification_of_pic_nums_idc` values and their arguments, discarding
/// them, until the terminating 3; an idc above 3 is a semantic error.
pub open spec fn s_rplm_loop(r: Seq<u8>, p: int) -> Result<int, H264NalParseError>
    decreases 8 * r.len() - p,
{
    match s_ue(r, p) {
        Err(e) => Err(e),
        Ok((idc, p2)) => {
            if idc == 3 {
                Ok(p2)
            } else if idc <= 2 {
                match s_ue(r, p2) {
                    Err(e) => Err(e),
                    Ok((_arg, p3)) => s_rplm_loop(r, p3),
                }
            } else {
                Err(H264NalParseError::GenericParseError)
            }
        },
    }
}

/// Reference-picture-list modification, H.264 section 7.3.3.1: parsed
/// bit-correctly, contents discarded.
pub open spec fn s_rplm(r: Seq<u8>, p: int, slice_type: u32) -> Result<int, H264NalParseError> {
    match s_rplm_l0(r, p, slice_type) {
        Err(e) => Err(e),
        Ok(p) => s_rplm_l1(r, p, slice_type),
    }
}

/// Modification run for reference list 0, absent for I and SI slices.
#[verifier::opaque]
pub open spec fn s_rplm_l0(r: Seq<u8>, p: int, slice_type: u32) -> Result<
    int,
    H264NalParseError,
> {
    if slice_type % 5 != 2 && slice_type % 5 != 4 {
        match s_bits(r, p, 1) {
            Err(e) => Err(e),
            Ok((f0, p)) => {
                if f0 == 1 {
                    s_rplm_loop(r, p)
                } else {
                    Ok(p)
                }
            },
        }
    } else {
        Ok(p)
    }
}

/// Modification run for reference list 1, present for B slices only.
#[verifier::opaque]
pub open spec fn s_rplm_l1(r: Seq<u8>, p: int, slice_type: u32) -> Result<
    int,
    H264NalParseError,
> {
    if slice_type % 5 == 1 {
        match s_bits(r, p, 1) {
            Err(e) => Err(e),
            Ok((f1, p)) => {
                if f1 == 1 {
                    s_rplm_loop(r, p)
                } else {
                    Ok(p)
                }
            },
        }
    } else {
        Ok(p)
    }
}

/// The decoded-reference-picture marking loop: memory-management control
/// operations and their arguments, until an operation of 0 or above 6.
pub open spec fn s_drpm_loop(r: Seq<u8>, p: int, acc: SliceView) -> Result<
    (SliceView, int),
    H264NalParseError,
>
    decreases 8 * r.len() - p,
{
    match s_ue(r, p) {
        Err(e) => Err(e),
        Ok((op, p2)) => {
            if op == 0 || op > 6 {
                Ok((acc, p2))
            } else {
                match s_drpm_args(r, p2, op, acc) {
                    Err(e) => Err(e),
                    Ok((acc, p6)) => {
                        if p6 > p {
                            s_drpm_loop(r, p6, acc)
                        } else {
                            Err(H264NalParseError::GenericParseError)
                        }
                    },
                }
            }
        },
    }
}

/// The arguments of one memory-management control operation.
pub open spec fn s_drpm_args(r: Seq<u8>, p: int, op: u32, acc: SliceView) -> Result<
    (SliceView, int),
    H264NalParseError,
> {
    let step = if op == 1 || op == 3 {
        match s_ue(r, p) {
            Err(e) => Err(e),
            Ok((d, p)) => Ok((SliceView { difference_of_pic_nums_minus1: d, ..acc }, p)),
        }
    } else {
        Ok((acc, p))
    };
    match step {
        Err(e) => Err(e),
        Ok((acc, p)) => {
            let step2 = if op == 2 {
                match s_ue(r, p) {
                    Err(e) => Err(e),
                    Ok((l, p)) => Ok((SliceView { long_term_pic_num: l, ..acc }, p)),
                }
            } else {
                Ok((acc, p))
            };
            match step2 {
                Err(e) => Err(e),
                Ok((acc, p)) => {
                    let step3 = if op == 3 || op == 6 {
                        match s_ue(r, p) {
                            Err(e) => Err(e),
                            Ok((l, p)) => Ok((SliceView { long_term_frame_idx: l, ..acc }, p)),
                        }
                    } else {
                        Ok((acc, p))
                    };
                    match step3 {
                        Err(e) => Err(e),
                        Ok((acc, p)) => {
                            if op == 4 {
                                match s_ue(r, p) {
                                    Err(e) => Err(e),
                                    Ok((l, p)) => Ok(
                                        (SliceView { max_long_term_frame_idx_plus1: l, ..acc }, p),
                                    ),
                                }
                            } else {
                                Ok((acc, p))
                            }
                        },
                    }
                },
            }
        },
    }
}

/// Decoded-reference-picture marking, present for reference pictures: two
/// flags for I slices, the marking-operation loop otherwise.
#[verifier::opaque]
pub open spec fn sl_drpm(r: Seq<u8>, p: int, acc: SliceView, nalu: H264NalUnit) -> Result<
    (SliceView, int),
    H264NalParseError,
> {
    if nalu.nal_ref_idc != 0 {
        if acc.slice_type % 5 == 2 {
            match s_flag(r, p) {
                Err(e) => Err(e),
                Ok((np, p)) => match s_flag(r, p) {
                    Err(e) => Err(e),
                    Ok((lt, p)) => Ok(
                        (
                            SliceView {
                                no_output_of_prior_pics_flag: np,
                                long_term_reference_flag: lt,
                                ..acc
                            },
                            p,
                        ),
                    ),
                },
            }
        } else {
            match s_flag(r, p) {
                Err(e) => Err(e),
                Ok((am, p)) => s_drpm_loop(
                    r,
                    p,
                    SliceView { adaptive_ref_pic_marking_mode_flag: am, ..acc },
                ),
            }
        }
    } else {
        Ok((acc, p))
    }
}

/// Slice trailing fields: CABAC initialisation, quantiser deltas,
/// deblocking control and the slice-group change cycle, whose width is
/// the ceiling log of the group-cycle count.
pub open spec fn sl_tail(r: Seq<u8>, p: int, acc: SliceView, pps: PpsView, sps: SpsView) -> Result<
    (SliceView, int),
    H264NalParseError,
> {
    match sl_t1(r, p, acc, pps) {
        Err(e) => Err(e),
        Ok((acc, p)) => match sl_t2(r, p, acc) {
            Err(e) => Err(e),
            Ok((acc, p)) => match sl_t3(r, p, acc, pps) {
                Err(e) => Err(e),
                Ok((acc, p)) => sl_change_cycle(r, p, acc, pps, sps),
            },
        },
    }
}

/// Slice CABAC-initialisation and quantiser-delta reads.
#[verifier::opaque]
pub open spec fn sl_t1(r: Seq<u8>, p: int, acc: SliceView, pps: PpsView) -> Result<
    (SliceView, int),
    H264NalParseError,
> {
    let step = if pps.entropy_coding_mode_flag && acc.slice_type % 5 != 2 && acc.slice_type % 5
        != 4 {
        match s_ue(r, p) {
            Err(e) => Err(e),
            Ok((ci, p)) => Ok((SliceView { cabac_init_idc: ci, ..acc }, p)),
        }
    } else {
        Ok((acc, p))
    };
    match step {
        Err(e) => Err(e),
        Ok((acc, p)) => match s_se(r, p) {
            Err(e) => Err(e),
            Ok((qpd, p)) => Ok((SliceView { slice_qp_delta: qpd, ..acc }, p)),
        },
    }
}

/// Slice SP/SI switching reads.
#[verifier::opaque]
pub open spec fn sl_t2(r: Seq<u8>, p: int, acc: SliceView) -> Result<
    (SliceView, int),
    H264NalParseError,
> {
    if acc.slice_type % 5 == 3 || acc.slice_type % 5 == 4 {
        let inner = if acc.slice_type % 5 == 3 {
            match s_flag(r, p) {
                Err(e) => Err(e),
                Ok((sp, p)) => Ok((SliceView { sp_for_switch_flag: sp, ..acc }, p)),
            }
        } else {
            Ok((acc, p))
        };
        match inner {
            Err(e) => Err(e),
            Ok((acc, p)) => match s_se(r, p) {
                Err(e) => Err(e),
                Ok((qsd, p)) => Ok((SliceView { slice_qs_delta: qsd, ..acc }, p)),
            },
        }
    } else {
        Ok((acc, p))
    }
}

/// Slice deblocking-filter reads.
#[verifier::opaque]
pub open spec fn sl_t3(r: Seq<u8>, p: int, acc: SliceView, pps: PpsView) -> Result<
    (SliceView, int),
    H264NalParseError,
> {
    if pps.deblocking_filter_control_present_flag {
        match s_ue(r, p) {
            Err(e) => Err(e),
            Ok((dd, p)) => {
                let acc = SliceView { disable_deblocking_filter_idc: dd, ..acc };
                if dd != 1 {
                    match s_se(r, p) {
                        Err(e) => Err(e),
                        Ok((a, p)) => match s_se(r, p) {
                            Err(e) => Err(e),
                            Ok((b, p)) => Ok(
                                (
                                    SliceView {
                                        slice_alpha_c0_offset_div2: a,
                                        slice_beta_offset_div2: b,
                                        ..acc
                                    },
                                    p,
                                ),
                            ),
                        },
                    }
                } else {
                    Ok((acc, p))
                }
            },
        }
    } else {
        Ok((acc, p))
    }
}

/// The `slice_group_change_cycle` read: present for slice-group map types
/// 3 to 5, read in as many bits as the ceiling log of the cycle count,
/// where the count is the ceiling of `pic_size_in_map_units` over the
/// change rate, plus one.  A width beyond 32 is a semantic error; the
/// width is never zero, since the count is at least two.
#[verifier::opaque]
pub open spec fn sl_change_cycle(
    r: Seq<u8>,
    p: int,
    acc: SliceView,
    pps: PpsView,
    sps: SpsView,
) -> Result<(SliceView, int), H264NalParseError> {
    if pps.num_slice_groups_minus1 > 0 && 3 <= pps.slice_group_map_type <= 5 {
        let pic_size = (sps.pic_width_in_mbs_minus1 + 1) * (sps.pic_height_in_map_units_minus1
            + 1);
        let rate = pps.slice_group_change_rate_minus1 + 1;
        let cycles = (pic_size + rate - 1) / rate;
        let nbits = clog2(cycles + 1);
        if nbits > 32 {
            Err(H264NalParseError::GenericParseError)
        } else {
            match s_bits(r, p, nbits) {
                Err(e) => Err(e),
                Ok((c, p)) => Ok((SliceView { slice_group_change_cycle: c, ..acc }, p)),
            }
        }
    } else {
        Ok((acc, p))
    }
}

/// What decoding the slice header yields after resolution, in the read
/// order of H.264 section 7.3.3, starting from the three already-read
/// leading fields.  NAL unit types 20 and 21 and slices that need a
/// prediction weight table are not provided and fail as `Unimplemented`.
pub open spec fn slice_rest_spec(
    r: Seq<u8>,
    p: int,
    head: (u32, u32, u32),
    nalu: H264NalUnit,
    pps: PpsView,
    sps: SpsView,
) -> Result<(SliceView, int), H264NalParseError> {
    let acc = SliceView {
        first_mb_in_slice: head.0,
        slice_type: head.1,
        pic_parameter_set_id: head.2,
        ..SliceView::init()
    };
    match sl_a(r, p, acc, nalu, pps, sps) {
        Err(e) => Err(e),
        Ok((acc, p)) => match sl_b(r, p, acc, pps) {
            Err(e) => Err(e),
            Ok((acc, p)) => {
                if nalu.nal_unit_type_num == 20 || nalu.nal_unit_type_num == 21 {
                    Err(H264NalParseError::Unimplemented)
                } else {
                    match s_rplm(r, p, acc.slice_type) {
                        Err(e) => Err(e),
                        Ok(p) => {
                            if (pps.weighted_pred_flag && (acc.slice_type % 5 == 0
                                || acc.slice_type % 5 == 3)) || (pps.weighted_bipred_idc == 1
                                && acc.slice_type % 5 == 1) {
                                Err(H264NalParseError::Unimplemented)
                            } else {
                                match sl_drpm(r, p, acc, nalu) {
                                    Err(e) => Err(e),
                                    Ok((acc, p)) => sl_tail(r, p, acc, pps, sps),
                                }
                            }
                        },
                    }
                }
            },
        },
    }
}

/// Reads `n` triples of the HRD per-CPB loop.
fn read_hrd_triples(reader: &mut H264NalReader, n: u64) -> (r: Result<
    (Vec<u32>, Vec<u32>, Vec<u8>),
    H264NalParseError,
>)
    requires
        old(reader).wf(),
    ensures
        final(reader).wf(),
        final(reader).source() == old(reader).source(),
        final(reader).rbsp() == old(reader).rbsp(),
        old(reader).epbs() <= final(reader).epbs(),
        match s_hrd_n(old(reader).rbsp(), old(reader).bitpos(), n as int) {
            Ok(t) => r is Ok && r->Ok_0.0@ == t.0.0 && r->Ok_0.1@ == t.0.1 && r->Ok_0.2@ == t.0.2
                && final(reader).bitpos() == t.1,
            Err(e) => r == Err::<(Vec<u32>, Vec<u32>, Vec<u8>), H264NalParseError>(e),
        },
{
    let ghost rb = reader.rbsp();
    let ghost p0 = reader.bitpos();
    let mut brv: Vec<u32> = Vec::new();
    let mut csv: Vec<u32> = Vec::new();
    let mut cbr: Vec<u8> = Vec::new();
    let mut i: u64 = 0;
    while i < n
        invariant
            reader.wf(),
            reader.source() == old(reader).source(),
            reader.rbsp() == rb,
            rb == old(reader).rbsp(),
            p0 == old(reader).bitpos(),
            old(reader).epbs() <= reader.epbs(),
            i <= n,
            s_hrd_n(rb, p0, n as int) == (match s_hrd_n(rb, reader.bitpos(), n - i) {
                Ok(t) => Ok::<((Seq<u32>, Seq<u32>, Seq<u8>), int), H264NalParseError>(
                    ((brv@ + t.0.0, csv@ + t.0.1, cbr@ + t.0.2), t.1),
                ),
                Err(e) => Err::<((Seq<u32>, Seq<u32>, Seq<u8>), int), H264NalParseError>(e),
            }),
        decreases n - i,
    {
        let ghost q = reader.bitpos();
        let br = match reader.read_ue() {
            Ok(v) => v,
            Err(e) => {
                return Err(e);
            },
        };
        let cs = match reader.read_ue() {
            Ok(v) => v,
            Err(e) => {
                return Err(e);
            },
        };
        let cb = match reader.read_u8(1) {
            Ok(v) => v,
            Err(e) => {
                return Err(e);
            },
        };
        let ghost brv0 = brv@;
        let ghost csv0 = csv@;
        let ghost cbr0 = cbr@;
        proof {
            let q4 = reader.bitpos();
            match s_hrd_n(rb, q4, n - i - 1) {
                Ok(t) => {
                    assert(brv0 + (seq![br] + t.0.0) =~= (brv0 + seq![br]) + t.0.0);
                    assert(csv0 + (seq![cs] + t.0.1) =~= (csv0 + seq![cs]) + t.0.1);
                    assert(cbr0 + (seq![cb] + t.0.2) =~= (cbr0 + seq![cb]) + t.0.2);
                },
                Err(_) => {},
            }
        }
        brv.push(br);
        csv.push(cs);
        cbr.push(cb);
        proof {
            assert(brv@ =~= brv0 + seq![br]);
            assert(csv@ =~= csv0 + seq![cs]);
            assert(cbr@ =~= cbr0 + seq![cb]);
        }
        i = i + 1;
    }
    proof {
        assert(s_hrd_n(rb, reader.bitpos(), 0) == Ok::<
            ((Seq<u32>, Seq<u32>, Seq<u8>), int),
            H264NalParseError,
        >(((Seq::empty(), Seq::empty(), Seq::empty()), reader.bitpos())));
        assert(brv@ + Seq::<u32>::empty() =~= brv@);
        assert(csv@ + Seq::<u32>::empty() =~= csv@);
        assert(cbr@ + Seq::<u8>::empty() =~= cbr@);
    }
    Ok((brv, csv, cbr))
}


/// PPS leading fields; an id beyond the store's range fails at once.
pub(crate) fn pps_read_s1(reader: &mut H264NalReader, pps: &mut H264NalUnitPPS) -> (r: Result<
    (),
    H264NalParseError,
>)
    requires
        old(reader).wf(),
    ensures
        final(reader).wf(),
        final(reader).source() == old(reader).source(),
        final(reader).rbsp() == old(reader).rbsp(),
        old(reader).epbs() <= final(reader).epbs(),
        r is Ok ==> final(pps)@.pic_parameter_set_id < MAX_PPS_COUNT as u32,
        match pps_s1(old(reader).rbsp(), old(reader).bitpos(), old(pps)@) {
            Ok(t) => r is Ok && final(pps)@ == t.0 && final(reader).bitpos() == t.1,
            Err(e) => r == Err::<(), H264NalParseError>(e),
        },
{
    let ghost rb = reader.rbsp();
    let ghost p0 = reader.bitpos();
    let ghost acc0 = pps@;
    proof {
        reveal(pps_s1);
    }
    let ppsid = match reader.read_ue() {
        Ok(v) => v,
        Err(e) => {
            return Err(e);
        },
    };
    if ppsid >= MAX_PPS_COUNT as u32 {
        return Err(H264NalParseError::GenericParseError);
    }
    pps.pic_parameter_set_id = ppsid;
    pps.seq_parameter_set_id = match reader.read_ue() {
        Ok(v) => v,
        Err(e) => {
            return Err(e);
        },
    };
    pps.entropy_coding_mode_flag = match reader.read_flag() {
        Ok(v) => v,
        Err(e) => {
            return Err(e);
        },
    };
    pps.bottom_field_pic_order_in_frame_present_flag = match reader.read_flag() {
        Ok(v) => v,
        Err(e) => {
            return Err(e);
        },
    };
    pps.num_slice_groups_minus1 = match reader.read_ue() {
        Ok(v) => v,
        Err(e) => {
            return Err(e);
        },
    };
    proof {
        match pps_s1(rb, p0, acc0) {
            Ok(t) => {
                assert(pps@ =~= t.0);
            },
            Err(_) => {
                assert(false);
            },
        }
    }
    Ok(())
}

/// PPS slice-group block.
#[verifier::rlimit(100)]
#[verifier::spinoff_prover]
pub(crate) fn pps_read_groups(reader: &mut H264NalReader, pps: &mut H264NalUnitPPS) -> (r: Result<
    (),
    H264NalParseError,
>)
    requires
        old(reader).wf(),
    ensures
        final(reader).wf(),
        final(reader).source() == old(reader).source(),
        final(reader).rbsp() == old(reader).rbsp(),
        old(reader).epbs() <= final(reader).epbs(),
        r is Ok ==> final(pps)@.pic_parameter_set_id == old(pps)@.pic_parameter_set_id,
        match pps_groups(old(reader).rbsp(), old(reader).bitpos(), old(pps)@) {
            Ok(t) => r is Ok && final(pps)@ == t.0 && final(reader).bitpos() == t.1,
            Err(e) => r == Err::<(), H264NalParseError>(e),
        },
{
    let ghost rb = reader.rbsp();
    let ghost p0 = reader.bitpos();
    let ghost acc0 = pps@;
    proof {
        reveal(pps_groups);
    }
    if pps.num_slice_groups_minus1 > 0 {
        pps.slice_group_map_type = match reader.read_ue() {
            Ok(v) => v,
            Err(e) => {
                return Err(e);
            },
        };
        if pps.slice_group_map_type == 0 {
            let n = pps.num_slice_groups_minus1 as u64 + 1;
            pps.run_length_minus1 = match read_ue_vec(reader, n) {
                Ok(v) => v,
                Err(e) => {
                    return Err(e);
                },
            };
        } else if pps.slice_group_map_type == 2 {
            let n = pps.num_slice_groups_minus1 as u64 + 1;
            let (tl, br) = match read_ue_pair_vecs(reader, n) {
                Ok(v) => v,
                Err(e) => {
                    return Err(e);
                },
            };
            pps.top_left = tl;
            pps.bottom_right = br;
        } else if pps.slice_group_map_type == 3 || pps.slice_group_map_type == 4
            || pps.slice_group_map_type == 5 {
            pps.slice_group_change_direction_flag = match reader.read_u8(1) {
                Ok(v) => v,
                Err(e) => {
                    return Err(e);
                },
            };
            pps.slice_group_change_rate_minus1 = match reader.read_ue() {
                Ok(v) => v,
                Err(e) => {
                    return Err(e);
                },
            };
        } else if pps.slice_group_map_type == 6 {
            pps.pic_size_in_map_units_minus1 = match reader.read_ue() {
                Ok(v) => v,
                Err(e) => {
                    return Err(e);
                },
            };
            let n = pps.pic_size_in_map_units_minus1 as u64 + 1;
            pps.slice_group_id = match read_ue_vec(reader, n) {
                Ok(v) => v,
                Err(e) => {
                    return Err(e);
                },
            };
        }
    }
    proof {
        match pps_groups(rb, p0, acc0) {
            Ok(t) => {
                assert(pps@ =~= t.0);
            },
            Err(_) => {
                assert(false);
            },
        }
    }
    Ok(())
}

/// PPS reference and quantiser fields.
pub(crate) fn pps_read_s3(reader: &mut H264NalReader, pps: &mut H264NalUnitPPS) -> (r: Result<
    (),
    H264NalParseError,
>)
    requires
        old(reader).wf(),
    ensures
        final(reader).wf(),
        final(reader).source() == old(reader).source(),
        final(reader).rbsp() == old(reader).rbsp(),
        old(reader).epbs() <= final(reader).epbs(),
        r is Ok ==> final(pps)@.pic_parameter_set_id == old(pps)@.pic_parameter_set_id,
        match pps_s3(old(reader).rbsp(), old(reader).bitpos(), old(pps)@) {
            Ok(t) => r is Ok && final(pps)@ == t.0 && final(reader).bitpos() == t.1,
            Err(e) => r == Err::<(), H264NalParseError>(e),
        },
{
    let ghost rb = reader.rbsp();
    let ghost p0 = reader.bitpos();
    let ghost acc0 = pps@;
    proof {
        reveal(pps_s3);
    }
    pps.num_ref_idx_l0_default_active_minus1 = match reader.read_ue() {
        Ok(v) => v,
        Err(e) => {
            return Err(e);
        },
    };
    pps.num_ref_idx_l1_default_active_minus1 = match reader.read_ue() {
        Ok(v) => v,
        Err(e) => {
            return Err(e);
        },
    };
    pps.weighted_pred_flag = match reader.read_flag() {
        Ok(v) => v,
        Err(e) => {
            return Err(e);
        },
    };
    pps.weighted_bipred_idc = match reader.read_u8(2) {
        Ok(v) => v,
        Err(e) => {
            return Err(e);
        },
    };
    pps.pic_init_qp_minus26 = match reader.read_se() {
        Ok(v) => v,
        Err(e) => {
            return Err(e);
        },
    };
    pps.pic_init_qs_minus26 = match reader.read_se() {
        Ok(v) => v,
        Err(e) => {
            return Err(e);
        },
    };
    pps.chroma_qp_index_offset = match reader.read_se() {
        Ok(v) => v,
        Err(e) => {
            return Err(e);
        },
    };
    pps.deblocking_filter_control_present_flag = match reader.read_flag() {
        Ok(v) => v,
        Err(e) => {
            return Err(e);
        },
    };
    pps.constrained_intra_pred_flag = match reader.read_u8(1) {
        Ok(v) => v,
        Err(e) => {
            return Err(e);
        },
    };
    pps.redundant_pic_cnt_present_flag = match reader.read_flag() {
        Ok(v) => v,
        Err(e) => {
            return Err(e);
        },
    };
    proof {
        match pps_s3(rb, p0, acc0) {
            Ok(t) => {
                assert(pps@ =~= t.0);
            },
            Err(_) => {
                assert(false);
            },
        }
    }
    Ok(())
}

/// PPS trailing block, guarded by the more-RBSP-data check.
pub(crate) fn pps_read_tail(reader: &mut H264NalReader, pps: &mut H264NalUnitPPS) -> (r: Result<
    (),
    H264NalParseError,
>)
    requires
        old(reader).wf(),
    ensures
        final(reader).wf(),
        final(reader).source() == old(reader).source(),
        final(reader).rbsp() == old(reader).rbsp(),
        old(reader).epbs() <= final(reader).epbs(),
        r is Ok ==> final(pps)@.pic_parameter_set_id == old(pps)@.pic_parameter_set_id,
        match pps_tail(old(reader).rbsp(), old(reader).bitpos(), old(pps)@) {
            Ok(t) => r is Ok && final(pps)@ == t.0 && final(reader).bitpos() == t.1,
            Err(e) => r == Err::<(), H264NalParseError>(e),
        },
{
    let ghost rb = reader.rbsp();
    let ghost p0 = reader.bitpos();
    let ghost acc0 = pps@;
    proof {
        reveal(pps_tail);
    }
    if reader.more_rbsp_data() {
        pps.transform_8x8_mode_flag = match reader.read_u8(1) {
            Ok(v) => v,
            Err(e) => {
                return Err(e);
            },
        };
        pps.pic_scaling_matrix_present_flag = match reader.read_u8(1) {
            Ok(v) => v,
            Err(e) => {
                return Err(e);
            },
        };
        if pps.pic_scaling_matrix_present_flag == 1 {
            return Err(H264NalParseError::Unimplemented);
        }
        pps.second_chroma_qp_index_offset = match reader.read_se() {
            Ok(v) => v,
            Err(e) => {
                return Err(e);
            },
        };
    }
    proof {
        match pps_tail(rb, p0, acc0) {
            Ok(t) => {
                assert(pps@ =~= t.0);
            },
            Err(_) => {
                assert(false);
            },
        }
    }
    Ok(())
}


/// The profile set whose SPS carries the chroma block.
fn profile_check(profile_idc: u8) -> (b: bool)
    ensures
        b == profile_has_chroma_info(profile_idc),
{
    profile_idc == 100 || profile_idc == 110 || profile_idc == 122 || profile_idc == 244
        || profile_idc == 44 || profile_idc == 83 || profile_idc == 86 || profile_idc == 118
        || profile_idc == 128 || profile_idc == 138 || profile_idc == 139 || profile_idc == 134
        || profile_idc == 135
}

/// SPS leading fields; an id beyond the store's range fails at once.
pub(crate) fn sps_read_s1(reader: &mut H264NalReader, sps: &mut H264NalUnitSPS) -> (r: Result<
    (),
    H264NalParseError,
>)
    requires
        old(reader).wf(),
    ensures
        final(reader).wf(),
        final(reader).source() == old(reader).source(),
        final(reader).rbsp() == old(reader).rbsp(),
        old(reader).epbs() <= final(reader).epbs(),
        r is Ok ==> final(sps)@.seq_parameter_set_id < MAX_SPS_COUNT as u32,
        match sps_s1(old(reader).rbsp(), old(reader).bitpos(), old(sps)@) {
            Ok(t) => r is Ok && final(sps)@ == t.0 && final(reader).bitpos() == t.1,
            Err(e) => r == Err::<(), H264NalParseError>(e),
        },
{
    let ghost rb = reader.rbsp();
    let ghost p0 = reader.bitpos();
    let ghost acc0 = sps@;
    proof {
        reveal(sps_s1);
    }
    sps.profile_idc = match reader.read_u8(8) {
        Ok(v) => v,
        Err(e) => {
            return Err(e);
        },
    };
    sps.constraint_0_flag = match reader.read_u8(1) {
        Ok(v) => v,
        Err(e) => {
            return Err(e);
        },
    };
    sps.constraint_1_flag = match reader.read_u8(1) {
        Ok(v) => v,
        Err(e) => {
            return Err(e);
        },
    };
    sps.constraint_2_flag = match reader.read_u8(1) {
        Ok(v) => v,
        Err(e) => {
            return Err(e);
        },
    };
    sps.constraint_3_flag = match reader.read_u8(1) {
        Ok(v) => v,
        Err(e) => {
            return Err(e);
        },
    };
    sps.constraint_4_flag = match reader.read_u8(1) {
        Ok(v) => v,
        Err(e) => {
            return Err(e);
        },
    };
    sps.constraint_5_flag = match reader.read_u8(1) {
        Ok(v) => v,
        Err(e) => {
            return Err(e);
        },
    };
    match reader.read_u8(2) {
        Ok(v) => v,
        Err(e) => {
            return Err(e);
        },
    };
    sps.level_idc = match reader.read_u8(8) {
        Ok(v) => v,
        Err(e) => {
            return Err(e);
        },
    };
    let id = match reader.read_ue() {
        Ok(v) => v,
        Err(e) => {
            return Err(e);
        },
    };
    if id >= MAX_SPS_COUNT as u32 {
        return Err(H264NalParseError::GenericParseError);
    }
    sps.seq_parameter_set_id = id;
    proof {
        match sps_s1(rb, p0, acc0) {
            Ok(t) => {
                assert(sps@ =~= t.0);
            },
            Err(_) => {
                assert(false);
            },
        }
    }
    Ok(())
}

/// SPS chroma block, present only for certain profiles.
#[verifier::rlimit(100)]
#[verifier::spinoff_prover]
pub(crate) fn sps_read_s2(reader: &mut H264NalReader, sps: &mut H264NalUnitSPS) -> (r: Result<
    (),
    H264NalParseError,
>)
    requires
        old(reader).wf(),
    ensures
        final(reader).wf(),
        final(reader).source() == old(reader).source(),
        final(reader).rbsp() == old(reader).rbsp(),
        old(reader).epbs() <= final(reader).epbs(),
        r is Ok ==> final(sps)@.seq_parameter_set_id == old(sps)@.seq_parameter_set_id,
        match sps_s2(old(reader).rbsp(), old(reader).bitpos(), old(sps)@) {
            Ok(t) => r is Ok && final(sps)@ == t.0 && final(reader).bitpos() == t.1,
            Err(e) => r == Err::<(), H264NalParseError>(e),
        },
{
    let ghost rb = reader.rbsp();
    let ghost p0 = reader.bitpos();
    let ghost acc0 = sps@;
    proof {
        reveal(sps_s2);
    }
    if profile_check(sps.profile_idc) {
        sps.chroma_format_idc = match reader.read_ue() {
            Ok(v) => v,
            Err(e) => {
                return Err(e);
            },
        };
        if sps.chroma_format_idc == 3 {
            sps.separate_colour_plane_flag = match reader.read_flag() {
                Ok(v) => v,
                Err(e) => {
                    return Err(e);
                },
            };
        }
        sps.bit_depth_luma_minus8 = match reader.read_ue() {
            Ok(v) => v,
            Err(e) => {
                return Err(e);
            },
        };
        sps.bit_depth_chroma_minus8 = match reader.read_ue() {
            Ok(v) => v,
            Err(e) => {
                return Err(e);
            },
        };
        sps.qpprime_y_zero_transform_bypass_flag = match reader.read_u8(1) {
            Ok(v) => v,
            Err(e) => {
                return Err(e);
            },
        };
        sps.seq_scaling_matrix_present_flag = match reader.read_u8(1) {
            Ok(v) => v,
            Err(e) => {
                return Err(e);
            },
        };
        if sps.seq_scaling_matrix_present_flag == 1 {
            let cnt: u64 = if sps.chroma_format_idc != 3 {
                8
            } else {
                12
            };
            let flags = match read_bit_vec(reader, cnt) {
                Ok(v) => v,
                Err(e) => {
                    return Err(e);
                },
            };
            if any_nonzero(&flags) {
                return Err(H264NalParseError::Unimplemented);
            }
            sps.seq_scaling_list_present_flag = flags;
        }
    }
    proof {
        match sps_s2(rb, p0, acc0) {
            Ok(t) => {
                assert(sps@ =~= t.0);
            },
            Err(_) => {
                assert(false);
            },
        }
    }
    Ok(())
}

/// SPS frame-numbering and picture-order-count block.
#[verifier::rlimit(100)]
#[verifier::spinoff_prover]
pub(crate) fn sps_read_s3(reader: &mut H264NalReader, sps: &mut H264NalUnitSPS) -> (r: Result<
    (),
    H264NalParseError,
>)
    requires
        old(reader).wf(),
    ensures
        final(reader).wf(),
        final(reader).source() == old(reader).source(),
        final(reader).rbsp() == old(reader).rbsp(),
        old(reader).epbs() <= final(reader).epbs(),
        r is Ok ==> final(sps)@.seq_parameter_set_id == old(sps)@.seq_parameter_set_id,
        match sps_s3(old(reader).rbsp(), old(reader).bitpos(), old(sps)@) {
            Ok(t) => r is Ok && final(sps)@ == t.0 && final(reader).bitpos() == t.1,
            Err(e) => r == Err::<(), H264NalParseError>(e),
        },
{
    let ghost rb = reader.rbsp();
    let ghost p0 = reader.bitpos();
    let ghost acc0 = sps@;
    proof {
        reveal(sps_s3);
    }
    sps.log2_max_frame_num_minus4 = match reader.read_ue() {
        Ok(v) => v,
        Err(e) => {
            return Err(e);
        },
    };
    sps.pic_order_cnt_type = match reader.read_ue() {
        Ok(v) => v,
        Err(e) => {
            return Err(e);
        },
    };
    if sps.pic_order_cnt_type == 0 {
        sps.log2_max_pic_order_cnt_lsb_minus4 = match reader.read_ue() {
            Ok(v) => v,
            Err(e) => {
                return Err(e);
            },
        };
    } else if sps.pic_order_cnt_type == 1 {
        sps.delta_pic_order_always_zero_flag = match reader.read_flag() {
            Ok(v) => v,
            Err(e) => {
                return Err(e);
            },
        };
        sps.offset_for_non_ref_pic = match reader.read_se() {
            Ok(v) => v,
            Err(e) => {
                return Err(e);
            },
        };
        sps.offset_for_top_to_bottom_field = match reader.read_se() {
            Ok(v) => v,
            Err(e) => {
                return Err(e);
            },
        };
        sps.num_ref_frames_in_pic_order_cnt_cycle = match reader.read_ue() {
            Ok(v) => v,
            Err(e) => {
                return Err(e);
            },
        };
        sps.offset_for_ref_frame = match read_se_vec(
            reader,
            sps.num_ref_frames_in_pic_order_cnt_cycle as u64,
        ) {
            Ok(v) => v,
            Err(e) => {
                return Err(e);
            },
        };
    }
    proof {
        match sps_s3(rb, p0, acc0) {
            Ok(t) => {
                assert(sps@ =~= t.0);
            },
            Err(_) => {
                assert(false);
            },
        }
    }
    Ok(())
}


/// One reference-picture-list modification run, contents discarded.
#[verifier::rlimit(100)]
#[verifier::spinoff_prover]
fn rplm_loop(reader: &mut H264NalReader) -> (r: Result<(), H264NalParseError>)
    requires
        old(reader).wf(),
    ensures
        final(reader).wf(),
        final(reader).source() == old(reader).source(),
        final(reader).rbsp() == old(reader).rbsp(),
        old(reader).epbs() <= final(reader).epbs(),
        match s_rplm_loop(old(reader).rbsp(), old(reader).bitpos()) {
            Ok(p) => r is Ok && final(reader).bitpos() == p,
            Err(e) => r == Err::<(), H264NalParseError>(e),
        },
{
    let ghost rb = reader.rbsp();
    let ghost p0 = reader.bitpos();
    loop
        invariant
            reader.wf(),
            reader.source() == old(reader).source(),
            reader.rbsp() == rb,
            rb == old(reader).rbsp(),
            p0 == old(reader).bitpos(),
            old(reader).epbs() <= reader.epbs(),
            s_rplm_loop(rb, p0) == s_rplm_loop(rb, reader.bitpos()),
        decreases 8 * rb.len() - reader.bitpos(),
    {
        let ghost q = reader.bitpos();
        let idc = match reader.read_ue() {
            Ok(v) => v,
            Err(e) => {
                return Err(e);
            },
        };
        if idc == 3 {
            return Ok(());
        }
        if idc > 3 {
            return Err(H264NalParseError::GenericParseError);
        }
        match reader.read_ue() {
            Ok(v) => v,
            Err(e) => {
                return Err(e);
            },
        };
        proof {
            assert(s_rplm_loop(rb, q) == s_rplm_loop(rb, reader.bitpos()));
        }
    }
}

/// Reference-picture-list modification for the slice's lists.
#[verifier::rlimit(100)]
#[verifier::spinoff_prover]
pub(crate) fn slice_read_rplm(reader: &mut H264NalReader, slice_type: u32) -> (r: Result<
    (),
    H264NalParseError,
>)
    requires
        old(reader).wf(),
    ensures
        final(reader).wf(),
        final(reader).source() == old(reader).source(),
        final(reader).rbsp() == old(reader).rbsp(),
        old(reader).epbs() <= final(reader).epbs(),
        match s_rplm(old(reader).rbsp(), old(reader).bitpos(), slice_type) {
            Ok(p) => r is Ok && final(reader).bitpos() == p,
            Err(e) => r == Err::<(), H264NalParseError>(e),
        },
{
    match rplm_list0(reader, slice_type) {
        Ok(u) => u,
        Err(e) => {
            return Err(e);
        },
    };
    match rplm_list1(reader, slice_type) {
        Ok(u) => u,
        Err(e) => {
            return Err(e);
        },
    };
    Ok(())
}

/// Modification run for reference list 0.
#[verifier::rlimit(100)]
#[verifier::spinoff_prover]
fn rplm_list0(reader: &mut H264NalReader, slice_type: u32) -> (r: Result<(), H264NalParseError>)
    requires
        old(reader).wf(),
    ensures
        final(reader).wf(),
        final(reader).source() == old(reader).source(),
        final(reader).rbsp() == old(reader).rbsp(),
        old(reader).epbs() <= final(reader).epbs(),
        match s_rplm_l0(old(reader).rbsp(), old(reader).bitpos(), slice_type) {
            Ok(p) => r is Ok && final(reader).bitpos() == p,
            Err(e) => r == Err::<(), H264NalParseError>(e),
        },
{
    proof {
        reveal(s_rplm_l0);
    }
    if !slice_type_is_i_slice(slice_type) && !slice_type_is_si_slice(slice_type) {
        let f0 = match reader.read_u32(1) {
            Ok(v) => v,
            Err(e) => {
                return Err(e);
            },
        };
        if f0 == 1 {
            match rplm_loop(reader) {
                Ok(u) => u,
                Err(e) => {
                    return Err(e);
                },
            };
        }
    }
    Ok(())
}

/// Modification run for reference list 1.
#[verifier::rlimit(100)]
#[verifier::spinoff_prover]
fn rplm_list1(reader: &mut H264NalReader, slice_type: u32) -> (r: Result<(), H264NalParseError>)
    requires
        old(reader).wf(),
    ensures
        final(reader).wf(),
        final(reader).source() == old(reader).source(),
        final(reader).rbsp() == old(reader).rbsp(),
        old(reader).epbs() <= final(reader).epbs(),
        match s_rplm_l1(old(reader).rbsp(), old(reader).bitpos(), slice_type) {
            Ok(p) => r is Ok && final(reader).bitpos() == p,
            Err(e) => r == Err::<(), H264NalParseError>(e),
        },
{
    proof {
        reveal(s_rplm_l1);
    }
    if slice_type_is_b_slice(slice_type) {
        let f1 = match reader.read_u32(1) {
            Ok(v) => v,
            Err(e) => {
                return Err(e);
            },
        };
        if f1 == 1 {
            match rplm_loop(reader) {
                Ok(u) => u,
                Err(e) => {
                    return Err(e);
                },
            };
        }
    }
    Ok(())
}

/// The decoded-reference-picture marking-operation loop./// The decoded-reference-picture marking-operation loop.
#[verifier::rlimit(100)]
#[verifier::spinoff_prover]
fn drpm_loop(reader: &mut H264NalReader, slice: &mut H264NalUnitSlice) -> (r: Result<
    (),
    H264NalParseError,
>)
    requires
        old(reader).wf(),
    ensures
        final(reader).wf(),
        final(reader).source() == old(reader).source(),
        final(reader).rbsp() == old(reader).rbsp(),
        old(reader).epbs() <= final(reader).epbs(),
        match s_drpm_loop(old(reader).rbsp(), old(reader).bitpos(), old(slice)@) {
            Ok(t) => r is Ok && final(slice)@ == t.0 && final(reader).bitpos() == t.1,
            Err(e) => r == Err::<(), H264NalParseError>(e),
        },
{
    let ghost rb = reader.rbsp();
    let ghost p0 = reader.bitpos();
    let ghost acc0 = slice@;
    loop
        invariant
            reader.wf(),
            reader.source() == old(reader).source(),
            reader.rbsp() == rb,
            rb == old(reader).rbsp(),
            p0 == old(reader).bitpos(),
            acc0 == old(slice)@,
            old(reader).epbs() <= reader.epbs(),
            s_drpm_loop(rb, p0, acc0) == s_drpm_loop(rb, reader.bitpos(), slice@),
        decreases 8 * rb.len() - reader.bitpos(),
    {
        let ghost q = reader.bitpos();
        let ghost accq = slice@;
        let op = match reader.read_ue() {
            Ok(v) => v,
            Err(e) => {
                return Err(e);
            },
        };
        if op > 6 || op == 0 {
            return Ok(());
        }
        match drpm_args(reader, slice, op) {
            Ok(u) => u,
            Err(e) => {
                return Err(e);
            },
        };
        proof {
            assert(s_drpm_loop(rb, q, accq) == s_drpm_loop(rb, reader.bitpos(), slice@));
        }
    }
}

/// The arguments of one memory-management control operation.
#[verifier::rlimit(100)]
#[verifier::spinoff_prover]
fn drpm_args(reader: &mut H264NalReader, slice: &mut H264NalUnitSlice, op: u32) -> (r: Result<
    (),
    H264NalParseError,
>)
    requires
        old(reader).wf(),
    ensures
        final(reader).wf(),
        final(reader).source() == old(reader).source(),
        final(reader).rbsp() == old(reader).rbsp(),
        old(reader).epbs() <= final(reader).epbs(),
        r is Ok ==> old(reader).bitpos() <= final(reader).bitpos(),
        match s_drpm_args(old(reader).rbsp(), old(reader).bitpos(), op, old(slice)@) {
            Ok(t) => r is Ok && final(slice)@ == t.0 && final(reader).bitpos() == t.1,
            Err(e) => r == Err::<(), H264NalParseError>(e),
        },
{
    let ghost rb = reader.rbsp();
    let ghost p0 = reader.bitpos();
    let ghost acc0 = slice@;
    if op == 1 || op == 3 {
        slice.difference_of_pic_nums_minus1 = match reader.read_ue() {
            Ok(v) => v,
            Err(e) => {
                return Err(e);
            },
        };
    }
    if op == 2 {
        slice.long_term_pic_num = match reader.read_ue() {
            Ok(v) => v,
            Err(e) => {
                return Err(e);
            },
        };
    }
    if op == 3 || op == 6 {
        slice.long_term_frame_idx = match reader.read_ue() {
            Ok(v) => v,
            Err(e) => {
                return Err(e);
            },
        };
    }
    if op == 4 {
        slice.max_long_term_frame_idx_plus1 = match reader.read_ue() {
            Ok(v) => v,
            Err(e) => {
                return Err(e);
            },
        };
    }
    proof {
        match s_drpm_args(rb, p0, op, acc0) {
            Ok(t) => {
                assert(slice@ =~= t.0);
            },
            Err(_) => {
                assert(false);
            },
        }
    }
    Ok(())
}

/// Decoded-reference-picture marking.
/// Decoded-reference-picture marking.
#[verifier::rlimit(100)]
#[verifier::spinoff_prover]
pub(crate) fn slice_read_drpm(
    reader: &mut H264NalReader,
    slice: &mut H264NalUnitSlice,
    nalu: &H264NalUnit,
) -> (r: Result<(), H264NalParseError>)
    requires
        old(reader).wf(),
    ensures
        final(reader).wf(),
        final(reader).source() == old(reader).source(),
        final(reader).rbsp() == old(reader).rbsp(),
        old(reader).epbs() <= final(reader).epbs(),
        match sl_drpm(old(reader).rbsp(), old(reader).bitpos(), old(slice)@, *nalu) {
            Ok(t) => r is Ok && final(slice)@ == t.0 && final(reader).bitpos() == t.1,
            Err(e) => r == Err::<(), H264NalParseError>(e),
        },
{
    let ghost rb = reader.rbsp();
    let ghost p0 = reader.bitpos();
    let ghost acc0 = slice@;
    proof {
        reveal(sl_drpm);
    }
    if nalu.nal_ref_idc != 0 {
        if slice_type_is_i_slice(slice.slice_type) {
            slice.no_output_of_prior_pics_flag = match reader.read_flag() {
                Ok(v) => v,
                Err(e) => {
                    return Err(e);
                },
            };
            slice.long_term_reference_flag = match reader.read_flag() {
                Ok(v) => v,
                Err(e) => {
                    return Err(e);
                },
            };
            proof {
                match sl_drpm(rb, p0, acc0, *nalu) {
                    Ok(t) => {
                        assert(slice@ =~= t.0);
                    },
                    Err(_) => {
                        assert(false);
                    },
                }
            }
        } else {
            slice.adaptive_ref_pic_marking_mode_flag = match reader.read_flag() {
                Ok(v) => v,
                Err(e) => {
                    return Err(e);
                },
            };
            match drpm_loop(reader, slice) {
                Ok(u) => u,
                Err(e) => {
                    return Err(e);
                },
            };
        }
    }
    Ok(())
}

/// Slice reads after parameter-set resolution: colour plane, frame number,
/// field flags, IDR id and picture-order-count fields.
#[verifier::rlimit(100)]
#[verifier::spinoff_prover]
pub(crate) fn slice_read_a(
    reader: &mut H264NalReader,
    slice: &mut H264NalUnitSlice,
    nalu: &H264NalUnit,
    pps: &H264NalUnitPPS,
    sps: &H264NalUnitSPS,
) -> (r: Result<(), H264NalParseError>)
    requires
        old(reader).wf(),
        old(slice)@.delta_pic_order_cnt.len() == 2,
    ensures
        final(reader).wf(),
        final(reader).source() == old(reader).source(),
        final(reader).rbsp() == old(reader).rbsp(),
        old(reader).epbs() <= final(reader).epbs(),
        match sl_a(old(reader).rbsp(), old(reader).bitpos(), old(slice)@, *nalu, pps@, sps@) {
            Ok(t) => r is Ok && final(slice)@ == t.0 && final(reader).bitpos() == t.1,
            Err(e) => r == Err::<(), H264NalParseError>(e),
        },
{
    match slice_read_a1(reader, slice, sps) {
        Ok(u) => u,
        Err(e) => {
            return Err(e);
        },
    };
    match slice_read_a2(reader, slice, nalu, sps) {
        Ok(u) => u,
        Err(e) => {
            return Err(e);
        },
    };
    match slice_read_poc(reader, slice, pps, sps) {
        Ok(u) => u,
        Err(e) => {
            return Err(e);
        },
    };
    Ok(())
}

/// Slice colour-plane and frame-number reads.
#[verifier::rlimit(100)]
#[verifier::spinoff_prover]
fn slice_read_a1(
    reader: &mut H264NalReader,
    slice: &mut H264NalUnitSlice,
    sps: &H264NalUnitSPS,
) -> (r: Result<(), H264NalParseError>)
    requires
        old(reader).wf(),
    ensures
        final(reader).wf(),
        final(reader).source() == old(reader).source(),
        final(reader).rbsp() == old(reader).rbsp(),
        old(reader).epbs() <= final(reader).epbs(),
        final(slice)@.delta_pic_order_cnt == old(slice)@.delta_pic_order_cnt,
        match sl_a1(old(reader).rbsp(), old(reader).bitpos(), old(slice)@, sps@) {
            Ok(t) => r is Ok && final(slice)@ == t.0 && final(reader).bitpos() == t.1,
            Err(e) => r == Err::<(), H264NalParseError>(e),
        },
{
    let ghost rb = reader.rbsp();
    let ghost p0 = reader.bitpos();
    let ghost acc0 = slice@;
    proof {
        reveal(sl_a1);
    }
    if sps.separate_colour_plane_flag {
        slice.colour_plane_id = match reader.read_u8(2) {
            Ok(v) => v,
            Err(e) => {
                return Err(e);
            },
        };
    }
    if sps.log2_max_frame_num_minus4 > 28 {
        return Err(H264NalParseError::GenericParseError);
    }
    let frame_num_bits = sps.log2_max_frame_num_minus4 + 4;
    slice.frame_num = match reader.read_u32(frame_num_bits) {
        Ok(v) => v,
        Err(e) => {
            return Err(e);
        },
    };
    proof {
        match sl_a1(rb, p0, acc0, sps@) {
            Ok(t) => {
                assert(slice@ =~= t.0);
            },
            Err(_) => {
                assert(false);
            },
        }
    }
    Ok(())
}

/// Slice field flags and IDR picture id.
#[verifier::rlimit(100)]
#[verifier::spinoff_prover]
fn slice_read_a2(
    reader: &mut H264NalReader,
    slice: &mut H264NalUnitSlice,
    nalu: &H264NalUnit,
    sps: &H264NalUnitSPS,
) -> (r: Result<(), H264NalParseError>)
    requires
        old(reader).wf(),
    ensures
        final(reader).wf(),
        final(reader).source() == old(reader).source(),
        final(reader).rbsp() == old(reader).rbsp(),
        old(reader).epbs() <= final(reader).epbs(),
        final(slice)@.delta_pic_order_cnt == old(slice)@.delta_pic_order_cnt,
        match sl_a2(old(reader).rbsp(), old(reader).bitpos(), old(slice)@, *nalu, sps@) {
            Ok(t) => r is Ok && final(slice)@ == t.0 && final(reader).bitpos() == t.1,
            Err(e) => r == Err::<(), H264NalParseError>(e),
        },
{
    let ghost rb = reader.rbsp();
    let ghost p0 = reader.bitpos();
    let ghost acc0 = slice@;
    proof {
        reveal(sl_a2);
    }
    if !sps.frame_mbs_only_flag {
        slice.field_pic_flag = match reader.read_flag() {
            Ok(v) => v,
            Err(e) => {
                return Err(e);
            },
        };
        if slice.field_pic_flag {
            slice.bottom_field_flag = match reader.read_flag() {
                Ok(v) => v,
                Err(e) => {
                    return Err(e);
                },
            };
        }
    }
    if nalu.idr_pic_flag {
        slice.idr_pic_id = match reader.read_ue() {
            Ok(v) => v,
            Err(e) => {
                return Err(e);
            },
        };
    }
    proof {
        match sl_a2(rb, p0, acc0, *nalu, sps@) {
            Ok(t) => {
                assert(slice@ =~= t.0);
            },
            Err(_) => {
                assert(false);
            },
        }
    }
    Ok(())
}

/// Slice picture-order-count fields.
#[verifier::rlimit(100)]
#[verifier::spinoff_prover]
fn slice_read_poc(
    reader: &mut H264NalReader,
    slice: &mut H264NalUnitSlice,
    pps: &H264NalUnitPPS,
    sps: &H264NalUnitSPS,
) -> (r: Result<(), H264NalParseError>)
    requires
        old(reader).wf(),
        old(slice)@.delta_pic_order_cnt.len() == 2,
    ensures
        final(reader).wf(),
        final(reader).source() == old(reader).source(),
        final(reader).rbsp() == old(reader).rbsp(),
        old(reader).epbs() <= final(reader).epbs(),
        match sl_poc(old(reader).rbsp(), old(reader).bitpos(), old(slice)@, pps@, sps@) {
            Ok(t) => r is Ok && final(slice)@ == t.0 && final(reader).bitpos() == t.1,
            Err(e) => r == Err::<(), H264NalParseError>(e),
        },
{
    let ghost rb = reader.rbsp();
    let ghost p0 = reader.bitpos();
    let ghost acc0 = slice@;
    proof {
        reveal(sl_poc);
    }
    if sps.pic_order_cnt_type == 0 {
        if sps.log2_max_pic_order_cnt_lsb_minus4 > 12 {
            return Err(H264NalParseError::GenericParseError);
        }
        slice.pic_order_cnt_lsb = match reader.read_u16(
            sps.log2_max_pic_order_cnt_lsb_minus4 + 4,
        ) {
            Ok(v) => v,
            Err(e) => {
                return Err(e);
            },
        };
        if pps.bottom_field_pic_order_in_frame_present_flag && !slice.field_pic_flag {
            slice.delta_pic_order_cnt_bottom = match reader.read_se() {
                Ok(v) => v,
                Err(e) => {
                    return Err(e);
                },
            };
        }
    } else if sps.pic_order_cnt_type == 1 && !sps.delta_pic_order_always_zero_flag {
        let d0 = match reader.read_se() {
            Ok(v) => v,
            Err(e) => {
                return Err(e);
            },
        };
        slice.delta_pic_order_cnt.set(0, d0);
        if pps.bottom_field_pic_order_in_frame_present_flag && slice.field_pic_flag {
            let d1 = match reader.read_se() {
                Ok(v) => v,
                Err(e) => {
                    return Err(e);
                },
            };
            slice.delta_pic_order_cnt.set(1, d1);
        }
    }
    proof {
        match sl_poc(rb, p0, acc0, pps@, sps@) {
            Ok(t) => {
                assert(slice@ =~= t.0);
            },
            Err(_) => {
                assert(false);
            },
        }
    }
    Ok(())
}

/// Slice reads by slice type.
#[verifier::rlimit(100)]
#[verifier::spinoff_prover]
pub(crate) fn slice_read_b(
    reader: &mut H264NalReader,
    slice: &mut H264NalUnitSlice,
    pps: &H264NalUnitPPS,
) -> (r: Result<(), H264NalParseError>)
    requires
        old(reader).wf(),
    ensures
        final(reader).wf(),
        final(reader).source() == old(reader).source(),
        final(reader).rbsp() == old(reader).rbsp(),
        old(reader).epbs() <= final(reader).epbs(),
        match sl_b(old(reader).rbsp(), old(reader).bitpos(), old(slice)@, pps@) {
            Ok(t) => r is Ok && final(slice)@ == t.0 && final(reader).bitpos() == t.1,
            Err(e) => r == Err::<(), H264NalParseError>(e),
        },
{
    match slice_read_b1(reader, slice, pps) {
        Ok(u) => u,
        Err(e) => {
            return Err(e);
        },
    };
    match slice_read_b2(reader, slice) {
        Ok(u) => u,
        Err(e) => {
            return Err(e);
        },
    };
    Ok(())
}

/// Slice redundant-count and direct-prediction reads.
#[verifier::rlimit(100)]
#[verifier::spinoff_prover]
fn slice_read_b1(
    reader: &mut H264NalReader,
    slice: &mut H264NalUnitSlice,
    pps: &H264NalUnitPPS,
) -> (r: Result<(), H264NalParseError>)
    requires
        old(reader).wf(),
    ensures
        final(reader).wf(),
        final(reader).source() == old(reader).source(),
        final(reader).rbsp() == old(reader).rbsp(),
        old(reader).epbs() <= final(reader).epbs(),
        match sl_b1(old(reader).rbsp(), old(reader).bitpos(), old(slice)@, pps@) {
            Ok(t) => r is Ok && final(slice)@ == t.0 && final(reader).bitpos() == t.1,
            Err(e) => r == Err::<(), H264NalParseError>(e),
        },
{
    let ghost rb = reader.rbsp();
    let ghost p0 = reader.bitpos();
    let ghost acc0 = slice@;
    proof {
        reveal(sl_b1);
    }
    if pps.redundant_pic_cnt_present_flag {
        slice.redundant_pic_cnt = match reader.read_ue() {
            Ok(v) => v,
            Err(e) => {
                return Err(e);
            },
        };
    }
    if slice_type_is_b_slice(slice.slice_type) {
        slice.direct_spatial_mv_pred_flag = match reader.read_flag() {
            Ok(v) => v,
            Err(e) => {
                return Err(e);
            },
        };
    }
    proof {
        match sl_b1(rb, p0, acc0, pps@) {
            Ok(t) => {
                assert(slice@ =~= t.0);
            },
            Err(_) => {
                assert(false);
            },
        }
    }
    Ok(())
}

/// Slice reference-index override reads.
#[verifier::rlimit(100)]
#[verifier::spinoff_prover]
fn slice_read_b2(reader: &mut H264NalReader, slice: &mut H264NalUnitSlice) -> (r: Result<
    (),
    H264NalParseError,
>)
    requires
        old(reader).wf(),
    ensures
        final(reader).wf(),
        final(reader).source() == old(reader).source(),
        final(reader).rbsp() == old(reader).rbsp(),
        old(reader).epbs() <= final(reader).epbs(),
        match sl_b2(old(reader).rbsp(), old(reader).bitpos(), old(slice)@) {
            Ok(t) => r is Ok && final(slice)@ == t.0 && final(reader).bitpos() == t.1,
            Err(e) => r == Err::<(), H264NalParseError>(e),
        },
{
    let ghost rb = reader.rbsp();
    let ghost p0 = reader.bitpos();
    let ghost acc0 = slice@;
    proof {
        reveal(sl_b2);
    }
    if slice_type_is_p_slice(slice.slice_type) || slice_type_is_b_slice(slice.slice_type)
        || slice_type_is_sp_slice(slice.slice_type) {
        slice.num_ref_idx_active_override_flag = match reader.read_flag() {
            Ok(v) => v,
            Err(e) => {
                return Err(e);
            },
        };
        if slice.num_ref_idx_active_override_flag {
            slice.num_ref_idx_l0_active_minus1 = match reader.read_ue() {
                Ok(v) => v,
                Err(e) => {
                    return Err(e);
                },
            };
        }
        if slice_type_is_b_slice(slice.slice_type) {
            slice.num_ref_idx_l1_active_minus1 = match reader.read_ue() {
                Ok(v) => v,
                Err(e) => {
                    return Err(e);
                },
            };
        }
    }
    proof {
        match sl_b2(rb, p0, acc0) {
            Ok(t) => {
                assert(slice@ =~= t.0);
            },
            Err(_) => {
                assert(false);
            },
        }
    }
    Ok(())
}

/// Slice trailing fields./// Slice trailing fields.
pub(crate) fn slice_read_tail(
    reader: &mut H264NalReader,
    slice: &mut H264NalUnitSlice,
    pps: &H264NalUnitPPS,
    sps: &H264NalUnitSPS,
) -> (r: Result<(), H264NalParseError>)
    requires
        old(reader).wf(),
    ensures
        final(reader).wf(),
        final(reader).source() == old(reader).source(),
        final(reader).rbsp() == old(reader).rbsp(),
        old(reader).epbs() <= final(reader).epbs(),
        match sl_tail(old(reader).rbsp(), old(reader).bitpos(), old(slice)@, pps@, sps@) {
            Ok(t) => r is Ok && final(slice)@ == t.0 && final(reader).bitpos() == t.1,
            Err(e) => r == Err::<(), H264NalParseError>(e),
        },
{
    match slice_read_t1(reader, slice, pps) {
        Ok(u) => u,
        Err(e) => {
            return Err(e);
        },
    };
    match slice_read_t2(reader, slice) {
        Ok(u) => u,
        Err(e) => {
            return Err(e);
        },
    };
    match slice_read_t3(reader, slice, pps) {
        Ok(u) => u,
        Err(e) => {
            return Err(e);
        },
    };
    match slice_read_change_cycle(reader, slice, pps, sps) {
        Ok(u) => u,
        Err(e) => {
            return Err(e);
        },
    };
    Ok(())
}

/// Slice CABAC-initialisation and quantiser-delta reads.
#[verifier::rlimit(100)]
#[verifier::spinoff_prover]
fn slice_read_t1(
    reader: &mut H264NalReader,
    slice: &mut H264NalUnitSlice,
    pps: &H264NalUnitPPS,
) -> (r: Result<(), H264NalParseError>)
    requires
        old(reader).wf(),
    ensures
        final(reader).wf(),
        final(reader).source() == old(reader).source(),
        final(reader).rbsp() == old(reader).rbsp(),
        old(reader).epbs() <= final(reader).epbs(),
        match sl_t1(old(reader).rbsp(), old(reader).bitpos(), old(slice)@, pps@) {
            Ok(t) => r is Ok && final(slice)@ == t.0 && final(reader).bitpos() == t.1,
            Err(e) => r == Err::<(), H264NalParseError>(e),
        },
{
    let ghost rb = reader.rbsp();
    let ghost p0 = reader.bitpos();
    let ghost acc0 = slice@;
    proof {
        reveal(sl_t1);
    }
    if pps.entropy_coding_mode_flag && !slice_type_is_i_slice(slice.slice_type)
        && !slice_type_is_si_slice(slice.slice_type) {
        slice.cabac_init_idc = match reader.read_ue() {
            Ok(v) => v,
            Err(e) => {
                return Err(e);
            },
        };
    }
    slice.slice_qp_delta = match reader.read_se() {
        Ok(v) => v,
        Err(e) => {
            return Err(e);
        },
    };
    proof {
        match sl_t1(rb, p0, acc0, pps@) {
            Ok(t) => {
                assert(slice@ =~= t.0);
            },
            Err(_) => {
                assert(false);
            },
        }
    }
    Ok(())
}

/// Slice SP/SI switching reads.
#[verifier::rlimit(100)]
#[verifier::spinoff_prover]
fn slice_read_t2(reader: &mut H264NalReader, slice: &mut H264NalUnitSlice) -> (r: Result<
    (),
    H264NalParseError,
>)
    requires
        old(reader).wf(),
    ensures
        final(reader).wf(),
        final(reader).source() == old(reader).source(),
        final(reader).rbsp() == old(reader).rbsp(),
        old(reader).epbs() <= final(reader).epbs(),
        match sl_t2(old(reader).rbsp(), old(reader).bitpos(), old(slice)@) {
            Ok(t) => r is Ok && final(slice)@ == t.0 && final(reader).bitpos() == t.1,
            Err(e) => r == Err::<(), H264NalParseError>(e),
        },
{
    let ghost rb = reader.rbsp();
    let ghost p0 = reader.bitpos();
    let ghost acc0 = slice@;
    proof {
        reveal(sl_t2);
    }
    if slice_type_is_sp_slice(slice.slice_type) || slice_type_is_si_slice(slice.slice_type) {
        if slice_type_is_sp_slice(slice.slice_type) {
            slice.sp_for_switch_flag = match reader.read_flag() {
                Ok(v) => v,
                Err(e) => {
                    return Err(e);
                },
            };
        }
        slice.slice_qs_delta = match reader.read_se() {
            Ok(v) => v,
            Err(e) => {
                return Err(e);
            },
        };
    }
    proof {
        match sl_t2(rb, p0, acc0) {
            Ok(t) => {
                assert(slice@ =~= t.0);
            },
            Err(_) => {
                assert(false);
            },
        }
    }
    Ok(())
}

/// Slice deblocking-filter reads.
#[verifier::rlimit(100)]
#[verifier::spinoff_prover]
fn slice_read_t3(
    reader: &mut H264NalReader,
    slice: &mut H264NalUnitSlice,
    pps: &H264NalUnitPPS,
) -> (r: Result<(), H264NalParseError>)
    requires
        old(reader).wf(),
    ensures
        final(reader).wf(),
        final(reader).source() == old(reader).source(),
        final(reader).rbsp() == old(reader).rbsp(),
        old(reader).epbs() <= final(reader).epbs(),
        match sl_t3(old(reader).rbsp(), old(reader).bitpos(), old(slice)@, pps@) {
            Ok(t) => r is Ok && final(slice)@ == t.0 && final(reader).bitpos() == t.1,
            Err(e) => r == Err::<(), H264NalParseError>(e),
        },
{
    let ghost rb = reader.rbsp();
    let ghost p0 = reader.bitpos();
    let ghost acc0 = slice@;
    proof {
        reveal(sl_t3);
    }
    if pps.deblocking_filter_control_present_flag {
        slice.disable_deblocking_filter_idc = match reader.read_ue() {
            Ok(v) => v,
            Err(e) => {
                return Err(e);
            },
        };
        if slice.disable_deblocking_filter_idc != 1 {
            slice.slice_alpha_c0_offset_div2 = match reader.read_se() {
                Ok(v) => v,
                Err(e) => {
                    return Err(e);
                },
            };
            slice.slice_beta_offset_div2 = match reader.read_se() {
                Ok(v) => v,
                Err(e) => {
                    return Err(e);
                },
            };
        }
    }
    proof {
        match sl_t3(rb, p0, acc0, pps@) {
            Ok(t) => {
                assert(slice@ =~= t.0);
            },
            Err(_) => {
                assert(false);
            },
        }
    }
    Ok(())
}

/// The slice-group change-cycle read.
#[verifier::rlimit(100)]
#[verifier::spinoff_prover]
fn slice_read_change_cycle(
    reader: &mut H264NalReader,
    slice: &mut H264NalUnitSlice,
    pps: &H264NalUnitPPS,
    sps: &H264NalUnitSPS,
) -> (r: Result<(), H264NalParseError>)
    requires
        old(reader).wf(),
    ensures
        final(reader).wf(),
        final(reader).source() == old(reader).source(),
        final(reader).rbsp() == old(reader).rbsp(),
        old(reader).epbs() <= final(reader).epbs(),
        match sl_change_cycle(old(reader).rbsp(), old(reader).bitpos(), old(slice)@, pps@, sps@) {
            Ok(t) => r is Ok && final(slice)@ == t.0 && final(reader).bitpos() == t.1,
            Err(e) => r == Err::<(), H264NalParseError>(e),
        },
{
    let ghost rb = reader.rbsp();
    let ghost p0 = reader.bitpos();
    let ghost acc0 = slice@;
    proof {
        reveal(sl_change_cycle);
    }
    if pps.num_slice_groups_minus1 > 0 && pps.slice_group_map_type >= 3
        && pps.slice_group_map_type <= 5 {
        let pic_width_in_mbs = sps.pic_width_in_mbs_minus1 as u128 + 1;
        let pic_height_in_map_units = sps.pic_height_in_map_units_minus1 as u128 + 1;
        proof {
            assert(1 <= pic_width_in_mbs * pic_height_in_map_units
                <= 0x10000000000000000u128) by (nonlinear_arith)
                requires
                    1 <= pic_width_in_mbs <= 0x100000000u128,
                    1 <= pic_height_in_map_units <= 0x100000000u128,
            ;
        }
        let pic_size_in_map_units = pic_width_in_mbs * pic_height_in_map_units;
        let slice_group_change_rate = pps.slice_group_change_rate_minus1 as u128 + 1;
        // Ceiling of pic_size_in_map_units over the change rate.
        let q = (pic_size_in_map_units + slice_group_change_rate - 1) / slice_group_change_rate;
        proof {
            vstd::arithmetic::div_mod::lemma_div_non_zero(
                pic_size_in_map_units as int + slice_group_change_rate as int - 1,
                slice_group_change_rate as int,
            );
        }
        if q > 0xFFFF_FFFFu128 {
            proof {
                crate::bitstream::lemma_clog2_at_least_33(q as int + 1);
            }
            return Err(H264NalParseError::GenericParseError);
        }
        let nbits: u32 = if q == 0xFFFF_FFFFu128 {
            proof {
                crate::bitstream::lemma_clog2_pow32(q as int + 1);
            }
            32
        } else {
            crate::types::ceil_log2((q + 1) as u32)
        };
        proof {
            crate::bitstream::lemma_clog2_bounds(q as int + 1);
            assert(vstd::arithmetic::power2::pow2(0) == 1) by {
                vstd::arithmetic::power2::lemma2_to64();
            }
            assert(nbits >= 1);
        }
        slice.slice_group_change_cycle = match reader.read_u32(nbits) {
            Ok(v) => v,
            Err(e) => {
                return Err(e);
            },
        };
    }
    proof {
        match sl_change_cycle(rb, p0, acc0, pps@, sps@) {
            Ok(t) => {
                assert(slice@ =~= t.0);
            },
            Err(_) => {
                assert(false);
            },
        }
    }
    Ok(())
}


/// SPS reference-frame, picture-size and cropping reads.
#[verifier::rlimit(100)]
#[verifier::spinoff_prover]
fn sps_read_s4a(reader: &mut H264NalReader, sps: &mut H264NalUnitSPS) -> (r: Result<
    (),
    H264NalParseError,
>)
    requires
        old(reader).wf(),
    ensures
        final(reader).wf(),
        final(reader).source() == old(reader).source(),
        final(reader).rbsp() == old(reader).rbsp(),
        old(reader).epbs() <= final(reader).epbs(),
        r is Ok ==> final(sps)@.seq_parameter_set_id == old(sps)@.seq_parameter_set_id,
        match sps_s4a(old(reader).rbsp(), old(reader).bitpos(), old(sps)@) {
            Ok(t) => r is Ok && final(sps)@ == t.0 && final(reader).bitpos() == t.1,
            Err(e) => r == Err::<(), H264NalParseError>(e),
        },
{
    let ghost rb = reader.rbsp();
    let ghost p0 = reader.bitpos();
    let ghost acc0 = sps@;
    proof {
        reveal(sps_s4a);
    }
    sps.max_num_ref_frames = match reader.read_ue() {
        Ok(v) => v,
        Err(e) => {
            return Err(e);
        },
    };
    sps.gaps_in_frame_num_value_allowed_flag = match reader.read_u8(1) {
        Ok(v) => v,
        Err(e) => {
            return Err(e);
        },
    };
    sps.pic_width_in_mbs_minus1 = match reader.read_ue() {
        Ok(v) => v,
        Err(e) => {
            return Err(e);
        },
    };
    sps.pic_height_in_map_units_minus1 = match reader.read_ue() {
        Ok(v) => v,
        Err(e) => {
            return Err(e);
        },
    };
    sps.frame_mbs_only_flag = match reader.read_flag() {
        Ok(v) => v,
        Err(e) => {
            return Err(e);
        },
    };
    if !sps.frame_mbs_only_flag {
        sps.mb_adaptive_frame_field_flag = match reader.read_u8(1) {
            Ok(v) => v,
            Err(e) => {
                return Err(e);
            },
        };
    }
    sps.direct_8x8_inference_flag = match reader.read_u8(1) {
        Ok(v) => v,
        Err(e) => {
            return Err(e);
        },
    };
    sps.frame_cropping_flag = match reader.read_u8(1) {
        Ok(v) => v,
        Err(e) => {
            return Err(e);
        },
    };
    if sps.frame_cropping_flag == 1 {
        sps.frame_crop_left_offset = match reader.read_ue() {
            Ok(v) => v,
            Err(e) => {
                return Err(e);
            },
        };
        sps.frame_crop_right_offset = match reader.read_ue() {
            Ok(v) => v,
            Err(e) => {
                return Err(e);
            },
        };
        sps.frame_crop_top_offset = match reader.read_ue() {
            Ok(v) => v,
            Err(e) => {
                return Err(e);
            },
        };
        sps.frame_crop_bottom_offset = match reader.read_ue() {
            Ok(v) => v,
            Err(e) => {
                return Err(e);
            },
        };
    }
    proof {
        match sps_s4a(rb, p0, acc0) {
            Ok(t) => {
                assert(sps@ =~= t.0);
            },
            Err(_) => {
                assert(false);
            },
        }
    }
    Ok(())
}

impl H264NalParser {
    /// Decodes HRD parameters at the reader's current position, per H.264
    /// section E.1.2.
    pub fn parse_hdr_params(&self, reader: &mut H264NalReader) -> (r: Result<
        H264HDRParameters,
        H264NalParseError,
    >)
        requires
            old(reader).wf(),
        ensures
            final(reader).wf(),
            final(reader).source() == old(reader).source(),
            final(reader).rbsp() == old(reader).rbsp(),
            old(reader).epbs() <= final(reader).epbs(),
            match hrd_spec(old(reader).rbsp(), old(reader).bitpos()) {
                Ok(t) => r is Ok && r->Ok_0@ == t.0 && final(reader).bitpos() == t.1,
                Err(e) => r == Err::<H264HDRParameters, H264NalParseError>(e),
            },
    {
    proof {
        reveal(hrd_spec);
    }
        let mut hdr_params = H264HDRParameters::new();
        hdr_params.cpb_cnt_minus1 = match reader.read_ue() {
            Ok(v) => v,
            Err(e) => {
                return Err(e);
            },
        };
        hdr_params.bit_rate_scale = match reader.read_u8(4) {
            Ok(v) => v,
            Err(e) => {
                return Err(e);
            },
        };
        hdr_params.cpb_size_scale = match reader.read_u8(4) {
            Ok(v) => v,
            Err(e) => {
                return Err(e);
            },
        };
        let cpb_cnt = hdr_params.cpb_cnt_minus1 as u64 + 1;
        let (brv, csv, cbr) = match read_hrd_triples(reader, cpb_cnt) {
            Ok(t) => t,
            Err(e) => {
                return Err(e);
            },
        };
        hdr_params.bit_rate_value_minus1 = brv;
        hdr_params.cpb_size_value_minus1 = csv;
        hdr_params.cbr_flag = cbr;
        hdr_params.initial_cpb_removal_delay_length_minus1 = match reader.read_u8(5) {
            Ok(v) => v,
            Err(e) => {
                return Err(e);
            },
        };
        hdr_params.cpb_removal_delay_length_minus1 = match reader.read_u8(5) {
            Ok(v) => v,
            Err(e) => {
                return Err(e);
            },
        };
        hdr_params.dpb_output_delay_length_minus1 = match reader.read_u8(5) {
            Ok(v) => v,
            Err(e) => {
                return Err(e);
            },
        };
        hdr_params.time_offset_length = match reader.read_u8(5) {
            Ok(v) => v,
            Err(e) => {
                return Err(e);
            },
        };
        proof {
            match hrd_spec(old(reader).rbsp(), old(reader).bitpos()) {
                Ok(t) => {
                    assert(hdr_params@ =~= t.0);
                },
                Err(_) => {
                    assert(false);
                },
            }
        }
        Ok(hdr_params)
    }


    /// SPS trailing block with the optional VUI.
    pub(crate) fn sps_read_s4(&self, reader: &mut H264NalReader, sps: &mut H264NalUnitSPS) -> (r:
        Result<(), H264NalParseError>)
        requires
            old(reader).wf(),
        ensures
            final(reader).wf(),
            final(reader).source() == old(reader).source(),
            final(reader).rbsp() == old(reader).rbsp(),
            old(reader).epbs() <= final(reader).epbs(),
            r is Ok ==> final(sps)@.seq_parameter_set_id == old(sps)@.seq_parameter_set_id,
            match sps_s4(old(reader).rbsp(), old(reader).bitpos(), old(sps)@) {
                Ok(t) => r is Ok && final(sps)@ == t.0 && final(reader).bitpos() == t.1,
                Err(e) => r == Err::<(), H264NalParseError>(e),
            },
    {
        match sps_read_s4a(reader, sps) {
            Ok(u) => u,
            Err(e) => {
                return Err(e);
            },
        };
        match self.sps_read_s4b(reader, sps) {
            Ok(u) => u,
            Err(e) => {
                return Err(e);
            },
        };
        Ok(())
    }

    /// SPS optional-VUI read.
    #[verifier::rlimit(100)]
    #[verifier::spinoff_prover]
    fn sps_read_s4b(&self, reader: &mut H264NalReader, sps: &mut H264NalUnitSPS) -> (r: Result<
        (),
        H264NalParseError,
    >)
        requires
            old(reader).wf(),
        ensures
            final(reader).wf(),
            final(reader).source() == old(reader).source(),
            final(reader).rbsp() == old(reader).rbsp(),
            old(reader).epbs() <= final(reader).epbs(),
            r is Ok ==> final(sps)@.seq_parameter_set_id == old(sps)@.seq_parameter_set_id,
            match sps_s4b(old(reader).rbsp(), old(reader).bitpos(), old(sps)@) {
                Ok(t) => r is Ok && final(sps)@ == t.0 && final(reader).bitpos() == t.1,
                Err(e) => r == Err::<(), H264NalParseError>(e),
            },
    {
        let ghost rb = reader.rbsp();
        let ghost p0 = reader.bitpos();
        let ghost acc0 = sps@;
        proof {
            reveal(sps_s4b);
        }
        sps.vui_parameters_present_flag = match reader.read_u8(1) {
            Ok(v) => v,
            Err(e) => {
                return Err(e);
            },
        };
        if sps.vui_parameters_present_flag == 1 {
            let v = match self.parse_vui_params(reader) {
                Ok(v) => v,
                Err(e) => {
                    return Err(e);
                },
            };
            sps.vui_parameters = Some(v);
        }
        proof {
            match sps_s4b(rb, p0, acc0) {
                Ok(t) => {
                    assert(sps@ =~= t.0);
                },
                Err(_) => {
                    assert(false);
                },
            }
        }
        Ok(())
    }

    /// Decodes VUI parameters at the reader's current position, per H.264
    /// section E.1.1.
    pub fn parse_vui_params(&self, reader: &mut H264NalReader) -> (r: Result<
        H264VUIParameters,
        H264NalParseError,
    >)
        requires
            old(reader).wf(),
        ensures
            final(reader).wf(),
            final(reader).source() == old(reader).source(),
            final(reader).rbsp() == old(reader).rbsp(),
            old(reader).epbs() <= final(reader).epbs(),
            match vui_spec(old(reader).rbsp(), old(reader).bitpos()) {
                Ok(t) => r is Ok && r->Ok_0@ == t.0 && final(reader).bitpos() == t.1,
                Err(e) => r == Err::<H264VUIParameters, H264NalParseError>(e),
            },
    {
        let mut params = H264VUIParameters::new();
        match self.vui_read_s1(reader, &mut params) {
            Ok(u) => u,
            Err(e) => {
                return Err(e);
            },
        };
        match self.vui_read_s2(reader, &mut params) {
            Ok(u) => u,
            Err(e) => {
                return Err(e);
            },
        };
        match self.vui_read_s3(reader, &mut params) {
            Ok(u) => u,
            Err(e) => {
                return Err(e);
            },
        };
        match self.vui_read_s4(reader, &mut params) {
            Ok(u) => u,
            Err(e) => {
                return Err(e);
            },
        };
        match self.vui_read_s5(reader, &mut params) {
            Ok(u) => u,
            Err(e) => {
                return Err(e);
            },
        };
        Ok(params)
    }

    /// Aspect-ratio block of the VUI.
    fn vui_read_s1(&self, reader: &mut H264NalReader, params: &mut H264VUIParameters) -> (r:
        Result<(), H264NalParseError>)
        requires
            old(reader).wf(),
        ensures
            final(reader).wf(),
            final(reader).source() == old(reader).source(),
            final(reader).rbsp() == old(reader).rbsp(),
            old(reader).epbs() <= final(reader).epbs(),
            match vui_s1(old(reader).rbsp(), old(reader).bitpos(), old(params)@) {
                Ok(t) => r is Ok && final(params)@ == t.0 && final(reader).bitpos() == t.1,
                Err(e) => r == Err::<(), H264NalParseError>(e),
            },
    {
        let ghost rb = reader.rbsp();
        let ghost p0 = reader.bitpos();
        let ghost acc0 = params@;
        proof {
            reveal(vui_s1);
        }
        params.aspect_ratio_info_present_flag = match reader.read_u8(1) {
            Ok(v) => v,
            Err(e) => {
                return Err(e);
            },
        };
        if params.aspect_ratio_info_present_flag == 1 {
            params.aspect_ratio_idc = match reader.read_u8(8) {
                Ok(v) => v,
                Err(e) => {
                    return Err(e);
                },
            };
            if params.aspect_ratio_idc == EXTENDED_SAR {
                params.sar_width = match reader.read_u16(16) {
                    Ok(v) => v,
                    Err(e) => {
                        return Err(e);
                    },
                };
                params.sar_height = match reader.read_u16(16) {
                    Ok(v) => v,
                    Err(e) => {
                        return Err(e);
                    },
                };
            }
        }
        proof {
            match vui_s1(rb, p0, acc0) {
                Ok(t) => {
                    assert(params@ =~= t.0);
                },
                Err(_) => {
                    assert(false);
                },
            }
        }
        Ok(())
    }

    /// Overscan and video-signal blocks of the VUI.
    fn vui_read_s2(&self, reader: &mut H264NalReader, params: &mut H264VUIParameters) -> (r:
        Result<(), H264NalParseError>)
        requires
            old(reader).wf(),
        ensures
            final(reader).wf(),
            final(reader).source() == old(reader).source(),
            final(reader).rbsp() == old(reader).rbsp(),
            old(reader).epbs() <= final(reader).epbs(),
            match vui_s2(old(reader).rbsp(), old(reader).bitpos(), old(params)@) {
                Ok(t) => r is Ok && final(params)@ == t.0 && final(reader).bitpos() == t.1,
                Err(e) => r == Err::<(), H264NalParseError>(e),
            },
    {
        let ghost rb = reader.rbsp();
        let ghost p0 = reader.bitpos();
        let ghost acc0 = params@;
        proof {
            reveal(vui_s2);
        }
        params.overscan_info_present_flag = match reader.read_u8(1) {
            Ok(v) => v,
            Err(e) => {
                return Err(e);
            },
        };
        if params.overscan_info_present_flag == 1 {
            params.overscan_appropriate_flag = match reader.read_u8(1) {
                Ok(v) => v,
                Err(e) => {
                    return Err(e);
                },
            };
        }
        params.video_signal_type_present_flag = match reader.read_u8(1) {
            Ok(v) => v,
            Err(e) => {
                return Err(e);
            },
        };
        if params.video_signal_type_present_flag == 1 {
            params.video_format = match reader.read_u8(3) {
                Ok(v) => v,
                Err(e) => {
                    return Err(e);
                },
            };
            params.video_full_range_flag = match reader.read_u8(1) {
                Ok(v) => v,
                Err(e) => {
                    return Err(e);
                },
            };
            params.colour_description_present_flag = match reader.read_u8(1) {
                Ok(v) => v,
                Err(e) => {
                    return Err(e);
                },
            };
            if params.colour_description_present_flag == 1 {
                params.colour_primaries = match reader.read_u8(8) {
                    Ok(v) => v,
                    Err(e) => {
                        return Err(e);
                    },
                };
                params.transfer_characteristics = match reader.read_u8(8) {
                    Ok(v) => v,
                    Err(e) => {
                        return Err(e);
                    },
                };
                params.matrix_coefficients = match reader.read_u8(8) {
                    Ok(v) => v,
                    Err(e) => {
                        return Err(e);
                    },
                };
            }
        }
        proof {
            match vui_s2(rb, p0, acc0) {
                Ok(t) => {
                    assert(params@ =~= t.0);
                },
                Err(_) => {
                    assert(false);
                },
            }
        }
        Ok(())
    }

    /// Chroma-location and timing blocks of the VUI.
    fn vui_read_s3(&self, reader: &mut H264NalReader, params: &mut H264VUIParameters) -> (r:
        Result<(), H264NalParseError>)
        requires
            old(reader).wf(),
        ensures
            final(reader).wf(),
            final(reader).source() == old(reader).source(),
            final(reader).rbsp() == old(reader).rbsp(),
            old(reader).epbs() <= final(reader).epbs(),
            match vui_s3(old(reader).rbsp(), old(reader).bitpos(), old(params)@) {
                Ok(t) => r is Ok && final(params)@ == t.0 && final(reader).bitpos() == t.1,
                Err(e) => r == Err::<(), H264NalParseError>(e),
            },
    {
        let ghost rb = reader.rbsp();
        let ghost p0 = reader.bitpos();
        let ghost acc0 = params@;
        proof {
            reveal(vui_s3);
        }
        params.chroma_loc_info_present_flag = match reader.read_u8(1) {
            Ok(v) => v,
            Err(e) => {
                return Err(e);
            },
        };
        if params.chroma_loc_info_present_flag == 1 {
            params.chroma_sample_loc_type_top_field = match reader.read_ue() {
                Ok(v) => v,
                Err(e) => {
                    return Err(e);
                },
            };
            params.chroma_sample_loc_type_bottom_field = match reader.read_ue() {
                Ok(v) => v,
                Err(e) => {
                    return Err(e);
                },
            };
        }
        params.timing_info_present_flag = match reader.read_u8(1) {
            Ok(v) => v,
            Err(e) => {
                return Err(e);
            },
        };
        if params.timing_info_present_flag == 1 {
            params.num_units_in_tick = match reader.read_u32(32) {
                Ok(v) => v,
                Err(e) => {
                    return Err(e);
                },
            };
            params.time_scale = match reader.read_u32(32) {
                Ok(v) => v,
                Err(e) => {
                    return Err(e);
                },
            };
            params.fixed_frame_rate_flag = match reader.read_u8(1) {
                Ok(v) => v,
                Err(e) => {
                    return Err(e);
                },
            };
        }
        proof {
            match vui_s3(rb, p0, acc0) {
                Ok(t) => {
                    assert(params@ =~= t.0);
                },
                Err(_) => {
                    assert(false);
                },
            }
        }
        Ok(())
    }

    /// The two HRD blocks of the VUI, with the low-delay and
    /// picture-structure flags.
    fn vui_read_s4(&self, reader: &mut H264NalReader, params: &mut H264VUIParameters) -> (r:
        Result<(), H264NalParseError>)
        requires
            old(reader).wf(),
        ensures
            final(reader).wf(),
            final(reader).source() == old(reader).source(),
            final(reader).rbsp() == old(reader).rbsp(),
            old(reader).epbs() <= final(reader).epbs(),
            match vui_s4(old(reader).rbsp(), old(reader).bitpos(), old(params)@) {
                Ok(t) => r is Ok && final(params)@ == t.0 && final(reader).bitpos() == t.1,
                Err(e) => r == Err::<(), H264NalParseError>(e),
            },
    {
        let ghost rb = reader.rbsp();
        let ghost p0 = reader.bitpos();
        let ghost acc0 = params@;
        proof {
            reveal(vui_s4);
        }
        params.nal_hrd_parameters_present_flag = match reader.read_u8(1) {
            Ok(v) => v,
            Err(e) => {
                return Err(e);
            },
        };
        if params.nal_hrd_parameters_present_flag == 1 {
            let h = match self.parse_hdr_params(reader) {
                Ok(h) => h,
                Err(e) => {
                    return Err(e);
                },
            };
            params.nal_hrd_parameters = Some(h);
        }
        params.vcl_hrd_parameters_present_flag = match reader.read_u8(1) {
            Ok(v) => v,
            Err(e) => {
                return Err(e);
            },
        };
        if params.vcl_hrd_parameters_present_flag == 1 {
            let h = match self.parse_hdr_params(reader) {
                Ok(h) => h,
                Err(e) => {
                    return Err(e);
                },
            };
            params.vcl_hrd_parameters = Some(h);
        }
        if params.nal_hrd_parameters_present_flag == 1 || params.vcl_hrd_parameters_present_flag
            == 1 {
            params.low_delay_hrd_flag = match reader.read_u8(1) {
                Ok(v) => v,
                Err(e) => {
                    return Err(e);
                },
            };
        }
        params.pic_struct_present_flag = match reader.read_u8(1) {
            Ok(v) => v,
            Err(e) => {
                return Err(e);
            },
        };
        proof {
            match vui_s4(rb, p0, acc0) {
                Ok(t) => {
                    assert(params@ =~= t.0);
                },
                Err(_) => {
                    assert(false);
                },
            }
        }
        Ok(())
    }

    /// Bitstream-restriction block of the VUI.
    fn vui_read_s5(&self, reader: &mut H264NalReader, params: &mut H264VUIParameters) -> (r:
        Result<(), H264NalParseError>)
        requires
            old(reader).wf(),
        ensures
            final(reader).wf(),
            final(reader).source() == old(reader).source(),
            final(reader).rbsp() == old(reader).rbsp(),
            old(reader).epbs() <= final(reader).epbs(),
            match vui_s5(old(reader).rbsp(), old(reader).bitpos(), old(params)@) {
                Ok(t) => r is Ok && final(params)@ == t.0 && final(reader).bitpos() == t.1,
                Err(e) => r == Err::<(), H264NalParseError>(e),
            },
    {
        let ghost rb = reader.rbsp();
        let ghost p0 = reader.bitpos();
        let ghost acc0 = params@;
        proof {
            reveal(vui_s5);
        }
        params.bitstream_restriction_flag = match reader.read_u8(1) {
            Ok(v) => v,
            Err(e) => {
                return Err(e);
            },
        };
        if params.bitstream_restriction_flag == 1 {
            params.motion_vectors_over_pic_boundaries_flag = match reader.read_u8(1) {
                Ok(v) => v,
                Err(e) => {
                    return Err(e);
                },
            };
            params.max_bytes_per_pic_denom = match reader.read_ue() {
                Ok(v) => v,
                Err(e) => {
                    return Err(e);
                },
            };
            params.max_bits_per_mb_denom = match reader.read_ue() {
                Ok(v) => v,
                Err(e) => {
                    return Err(e);
                },
            };
            params.log2_max_mv_length_horizontal = match reader.read_ue() {
                Ok(v) => v,
                Err(e) => {
                    return Err(e);
                },
            };
            params.log2_max_mv_length_vertical = match reader.read_ue() {
                Ok(v) => v,
                Err(e) => {
                    return Err(e);
                },
            };
            params.max_num_reorder_frames = match reader.read_ue() {
                Ok(v) => v,
                Err(e) => {
                    return Err(e);
                },
            };
            params.max_dec_frame_buffering = match reader.read_ue() {
                Ok(v) => v,
                Err(e) => {
                    return Err(e);
                },
            };
        }
        proof {
            match vui_s5(rb, p0, acc0) {
                Ok(t) => {
                    assert(params@ =~= t.0);
                },
                Err(_) => {
                    assert(false);
                },
            }
        }
        Ok(())
    }
}

} // verus!
