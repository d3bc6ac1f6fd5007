//! Bit-exact parser for H.264/AVC NAL bitstreams in Annex B byte-stream
//! format: unit framing, RBSP bit reading with emulation-prevention-byte
//! removal, Exp-Golomb decoding, and SPS / PPS / slice-header syntax.

use vstd::prelude::*;

pub mod bitstream;
pub mod golomb;
pub mod h264nalreader;
pub mod payload;
pub mod rbsp;
pub mod types;

pub use types::{
    H264NalUnit, H264NalUnitType, H264NalUnitSPS, H264NalFormat, H264NalUnitSlice, H264NalUnitPPS,
    H264VUIParameters, H264HDRParameters, EXTENDED_SAR, slice_type_is_b_slice,
    slice_type_is_p_slice, slice_type_is_sp_slice, slice_type_is_i_slice, slice_type_is_si_slice,
    ceil_log2,
};

use types::{nal_unit_type_of, SpsView, PpsView};
use h264nalreader::H264NalReader;
use payload::{
    payload_rbsp, sps_result, pps_result, slice_head_spec, slice_rest_spec, sps_read_s1,
    sps_read_s2, sps_read_s3, pps_read_s1, pps_read_groups, pps_read_s3, pps_read_tail,
    slice_read_a, slice_read_b, slice_read_rplm, slice_read_drpm, slice_read_tail,
};

verus! {

broadcast use vstd::seq_lib::group_seq_properties;

/// The one error value a decoder returns on first failure.
#[derive(Debug, Clone, Copy, PartialEq, Eq, Structural)]
pub enum H264NalParseError {
    /// The bit or byte budget is exhausted for a requested read.
    NotEnoughBytes,
    /// The bytes at an offset did not form a start code.
    StartCodeParseError,
    /// Framing could not be established as byte-stream or AVC.
    UnknownFormat,
    /// The payload requires functionality the core does not provide.
    Unimplemented,
    /// A semantic precondition failed.
    GenericParseError,
}

/// Number of sequence parameter sets the store can hold.
pub const MAX_SPS_COUNT: usize = 32;

/// Number of picture parameter sets the store can hold.
pub const MAX_PPS_COUNT: usize = 256;

/// What `parse_startcode` returns at offset `o` of `s`: the start-code
/// length 3 for `00 00 01`, 4 for `00 00 00 01`, and the error otherwise.
pub open spec fn sc_parse(s: Seq<u8>, o: int) -> Result<int, H264NalParseError> {
    if o + 3 > s.len() {
        Err(H264NalParseError::NotEnoughBytes)
    } else if s[o] != 0 || s[o + 1] != 0 {
        Err(H264NalParseError::StartCodeParseError)
    } else if s[o + 2] == 1 {
        Ok(3)
    } else if o + 4 > s.len() {
        Err(H264NalParseError::NotEnoughBytes)
    } else if s[o + 2] == 0 && s[o + 3] == 1 {
        Ok(4)
    } else {
        Err(H264NalParseError::StartCodeParseError)
    }
}

/// A start code begins at offset `o` of `s`.
pub open spec fn has_sc(s: Seq<u8>, o: int) -> bool {
    sc_parse(s, o) is Ok
}

/// Position of the first start code at or after `i`, where a match needs at
/// least 3 remaining bytes; the buffer length when there is none.
pub open spec fn scan_sc(s: Seq<u8>, i: int) -> int
    decreases s.len() - i,
{
    if i + 3 > s.len() {
        s.len() as int
    } else if has_sc(s, i) {
        i
    } else {
        scan_sc(s, i + 1)
    }
}

pub proof fn lemma_scan_sc_bounds(s: Seq<u8>, i: int)
    requires
        0 <= i <= s.len(),
    ensures
        i <= scan_sc(s, i) <= s.len(),
        scan_sc(s, i) < s.len() ==> has_sc(s, scan_sc(s, i)),
    decreases s.len() - i,
{
    if i + 3 > s.len() {
    } else if has_sc(s, i) {
    } else {
        lemma_scan_sc_bounds(s, i + 1);
    }
}

/// What framing a byte-stream unit at offset `o` of `s` yields: the framed
/// unit, or the first error met.  The unit runs from its start code to the
/// next start code after the header byte, or to the end of the buffer.
pub open spec fn bytestream_spec(s: Seq<u8>, o: int) -> Result<H264NalUnit, H264NalParseError> {
    match sc_parse(s, o) {
        Err(e) => Err(e),
        Ok(scl) => {
            let d = o + scl;
            if d >= s.len() {
                Err(H264NalParseError::NotEnoughBytes)
            } else if s[d] >= 0x80 {
                Err(H264NalParseError::GenericParseError)
            } else {
                Ok(
                    H264NalUnit {
                        sc_offset: o as usize,
                        data_offset: d as usize,
                        size: (scan_sc(s, d + 1) - o) as usize,
                        idr_pic_flag: s[d] as int % 32 == 5,
                        nal_ref_idc: (s[d] / 32 % 4) as u8,
                        nal_unit_type_num: (s[d] % 32) as u8,
                        nal_unit_type: nal_unit_type_of((s[d] % 32) as u8),
                    },
                )
            }
        },
    }
}

/// What `parse_avc` returns: AVC length-prefixed framing is recognised but
/// not provided.
pub open spec fn avc_spec(s: Seq<u8>, o: int) -> H264NalParseError {
    if o + 4 > s.len() {
        H264NalParseError::NotEnoughBytes
    } else {
        H264NalParseError::UnknownFormat
    }
}

/// What `parse_nalunit` returns and how it locks the format: the result and
/// the format after the call.
pub open spec fn nalunit_spec(s: Seq<u8>, o: int, fmt: H264NalFormat) -> (Result<
    H264NalUnit,
    H264NalParseError,
>, H264NalFormat) {
    match fmt {
        H264NalFormat::BYTESTREAM => (bytestream_spec(s, o), fmt),
        H264NalFormat::AVC => (Err(avc_spec(s, o)), fmt),
        H264NalFormat::UNKNOWN => match bytestream_spec(s, o) {
            Ok(u) => (Ok(u), H264NalFormat::BYTESTREAM),
            Err(_) => (Err(H264NalParseError::UnknownFormat), H264NalFormat::UNKNOWN),
        },
    }
}

/// Stateful parser over one owned buffer: detects framing, frames NAL
/// units, decodes SPS / PPS / slice payloads, and stores parameter sets
/// under their ids for later slice decoding.
pub struct H264NalParser {
    data: Vec<u8>,
    pub format: H264NalFormat,
    sps: Vec<Option<H264NalUnitSPS>>,
    pps: Vec<Option<H264NalUnitPPS>>,
}

impl H264NalParser {
    /// The parser's buffer.
    pub closed spec fn buf(self) -> Seq<u8> {
        self.data@
    }

    /// The locked framing format.
    pub closed spec fn fmt(self) -> H264NalFormat {
        self.format
    }

    /// The sequence-parameter-set store as a map from id to record view.
    pub closed spec fn sps_map(self) -> Map<int, SpsView> {
        Map::new(
            |i: int| 0 <= i < MAX_SPS_COUNT && self.sps@[i] is Some,
            |i: int| self.sps@[i]->Some_0@,
        )
    }

    /// The picture-parameter-set store as a map from id to record view.
    pub closed spec fn pps_map(self) -> Map<int, PpsView> {
        Map::new(
            |i: int| 0 <= i < MAX_PPS_COUNT && self.pps@[i] is Some,
            |i: int| self.pps@[i]->Some_0@,
        )
    }

    pub closed spec fn wf(self) -> bool {
        &&& self.sps@.len() == MAX_SPS_COUNT
        &&& self.pps@.len() == MAX_PPS_COUNT
    }

    /// Constructs a parser that owns `data`; the format starts unknown and
    /// both parameter-set stores start empty.
    pub fn new(data: Vec<u8>) -> (r: H264NalParser)
        ensures
            r.wf(),
            r.buf() == data@,
            r.fmt() == H264NalFormat::UNKNOWN,
            r.sps_map() == Map::<int, SpsView>::empty(),
            r.pps_map() == Map::<int, PpsView>::empty(),
    {
        let mut sps: Vec<Option<H264NalUnitSPS>> = Vec::new();
        let mut i: usize = 0;
        while i < MAX_SPS_COUNT
            invariant
                i <= MAX_SPS_COUNT,
                sps@.len() == i,
                forall|j: int| 0 <= j < i ==> sps@[j] is None,
            decreases MAX_SPS_COUNT - i,
        {
            sps.push(None);
            i = i + 1;
        }
        let mut pps: Vec<Option<H264NalUnitPPS>> = Vec::new();
        let mut j: usize = 0;
        while j < MAX_PPS_COUNT
            invariant
                j <= MAX_PPS_COUNT,
                pps@.len() == j,
                forall|k: int| 0 <= k < j ==> pps@[k] is None,
            decreases MAX_PPS_COUNT - j,
        {
            pps.push(None);
            j = j + 1;
        }
        let r = H264NalParser { data, format: H264NalFormat::UNKNOWN, sps, pps };
        proof {
            assert(r.sps_map() =~= Map::<int, SpsView>::empty());
            assert(r.pps_map() =~= Map::<int, PpsView>::empty());
        }
        r
    }

    /// The stored sequence parameter set under `id`, if any.
    pub fn sps_entry(&self, id: usize) -> (r: Option<&H264NalUnitSPS>)
        requires
            self.wf(),
        ensures
            match r {
                Some(u) => self.sps_map().contains_key(id as int) && u@ == self.sps_map()[id as int],
                None => !self.sps_map().contains_key(id as int),
            },
    {
        if id >= MAX_SPS_COUNT {
            return None;
        }
        match &self.sps[id] {
            Some(u) => Some(u),
            None => None,
        }
    }

    /// The stored picture parameter set under `id`, if any.
    pub fn pps_entry(&self, id: usize) -> (r: Option<&H264NalUnitPPS>)
        requires
            self.wf(),
        ensures
            match r {
                Some(u) => self.pps_map().contains_key(id as int) && u@ == self.pps_map()[id as int],
                None => !self.pps_map().contains_key(id as int),
            },
    {
        if id >= MAX_PPS_COUNT {
            return None;
        }
        match &self.pps[id] {
            Some(u) => Some(u),
            None => None,
        }
    }

    /// Recognises the start code at `sc_offset`: `00 00 01` or
    /// `00 00 00 01`, returning its length.
    fn parse_startcode(&self, sc_offset: usize) -> (r: Result<usize, H264NalParseError>)
        ensures
            match sc_parse(self.buf(), sc_offset as int) {
                Ok(l) => r == Ok::<usize, H264NalParseError>(l as usize),
                Err(e) => r == Err::<usize, H264NalParseError>(e),
            },
    {
        if self.data.len() < 3 || sc_offset > self.data.len() - 3 {
            return Err(H264NalParseError::NotEnoughBytes);
        }
        if self.data[sc_offset] != 0 || self.data[sc_offset + 1] != 0 {
            return Err(H264NalParseError::StartCodeParseError);
        }
        if self.data[sc_offset + 2] == 1 {
            return Ok(3);
        }
        if self.data.len() < 4 || sc_offset > self.data.len() - 4 {
            return Err(H264NalParseError::NotEnoughBytes);
        }
        if self.data[sc_offset + 2] == 0 && self.data[sc_offset + 3] == 1 {
            return Ok(4);
        }
        Err(H264NalParseError::StartCodeParseError)
    }

    /// Frames the byte-stream NAL unit at `sc_offset`: reads the start
    /// code, validates the header byte, and scans for the next start code
    /// to size the unit.
    fn parse_bytestream(&self, sc_offset: usize) -> (r: Result<H264NalUnit, H264NalParseError>)
        ensures
            r == bytestream_spec(self.buf(), sc_offset as int),
            r is Ok ==> sc_offset + r->Ok_0.size <= self.buf().len(),
            r is Ok ==> r->Ok_0.size >= 4,
    {
        let ghost s = self.buf();
        let buf_len = self.data.len();
        let sc_size = match self.parse_startcode(sc_offset) {
            Ok(sc_size) => sc_size,
            Err(e) => {
                return Err(e);
            },
        };
        proof {
            assert(sc_parse(s, sc_offset as int) == Ok::<int, H264NalParseError>(sc_size as int));
            assert(sc_offset + sc_size <= s.len());
        }
        let data_offset = sc_offset + sc_size;
        if data_offset >= self.data.len() {
            return Err(H264NalParseError::NotEnoughBytes);
        }
        let byte = self.data[data_offset];
        if byte >= 0x80 {
            return Err(H264NalParseError::GenericParseError);
        }
        let ref_idc = byte / 32 % 4;
        let unit_type = byte % 32;
        proof {
            lemma_scan_sc_bounds(s, data_offset + 1);
        }
        let mut i = data_offset + 1;
        let mut size = self.data.len() - sc_offset;
        loop
            invariant_except_break
                size == s.len() - sc_offset,
            invariant
                self.buf() == s,
                data_offset + 1 <= i <= s.len(),
                sc_offset + sc_size == data_offset < s.len(),
                scan_sc(s, data_offset + 1) == scan_sc(s, i as int),
            ensures
                size == scan_sc(s, data_offset + 1) - sc_offset,
            decreases s.len() - i,
        {
            if i >= self.data.len() || self.data.len() - i < 3 {
                proof {
                    assert(scan_sc(s, i as int) == s.len());
                }
                break;
            }
            match self.parse_startcode(i) {
                Ok(_) => {
                    proof {
                        assert(scan_sc(s, i as int) == i);
                    }
                    size = i - sc_offset;
                    break;
                },
                Err(_) => {},
            }
            proof {
                assert(scan_sc(s, i as int) == scan_sc(s, i + 1));
            }
            i = i + 1;
        }
        Ok(H264NalUnit::new(sc_offset, data_offset, size, ref_idc, unit_type))
    }

    /// AVC length-prefixed framing: recognised at the dispatch point but
    /// not provided by this core.
    fn parse_avc(&self, sc_offset: usize) -> (r: Result<H264NalUnit, H264NalParseError>)
        ensures
            r == Err::<H264NalUnit, H264NalParseError>(avc_spec(self.buf(), sc_offset as int)),
    {
        if self.data.len() < 4 || sc_offset > self.data.len() - 4 {
            return Err(H264NalParseError::NotEnoughBytes);
        }
        Err(H264NalParseError::UnknownFormat)
    }

    /// Decodes the SPS payload whose NAL header byte stands at `offset`,
    /// per H.264 section 7.3.2.1.1, and stores the result under its
    /// `seq_parameter_set_id` on success.
    #[verifier::rlimit(100)]
    #[verifier::spinoff_prover]
    pub fn parse_sps(&mut self, offset: usize) -> (r: Result<H264NalUnitSPS, H264NalParseError>)
        requires
            old(self).wf(),
        ensures
            final(self).wf(),
            final(self).buf() == old(self).buf(),
            final(self).fmt() == old(self).fmt(),
            final(self).pps_map() == old(self).pps_map(),
            match sps_result(old(self).buf(), offset as int) {
                Ok(t) => r is Ok && r->Ok_0@ == t.0 && final(self).sps_map() == old(
                    self,
                ).sps_map().insert(t.0.seq_parameter_set_id as int, t.0),
                Err(e) => r == Err::<H264NalUnitSPS, H264NalParseError>(e) && final(self).sps_map()
                    == old(self).sps_map(),
            },
    {
        if offset >= self.data.len() {
            return Err(H264NalParseError::NotEnoughBytes);
        }
        let sub = vstd::slice::slice_subrange(self.data.as_slice(), offset + 1, self.data.len());
        let mut reader = H264NalReader::new(sub);
        proof {
            assert(reader.rbsp() == payload_rbsp(self.buf(), offset as int));
        }
        let mut unit = H264NalUnitSPS::new();
        match sps_read_s1(&mut reader, &mut unit) {
            Ok(u) => u,
            Err(e) => {
                return Err(e);
            },
        };
        match sps_read_s2(&mut reader, &mut unit) {
            Ok(u) => u,
            Err(e) => {
                return Err(e);
            },
        };
        match sps_read_s3(&mut reader, &mut unit) {
            Ok(u) => u,
            Err(e) => {
                return Err(e);
            },
        };
        match self.sps_read_s4(&mut reader, &mut unit) {
            Ok(u) => u,
            Err(e) => {
                return Err(e);
            },
        };
        let id = unit.seq_parameter_set_id as usize;
        let stored = unit.clone();
        self.sps.set(id, Some(stored));
        proof {
            assert(self.sps_map() =~= old(self).sps_map().insert(
                unit@.seq_parameter_set_id as int,
                unit@,
            ));
        }
        Ok(unit)
    }

    /// Decodes the PPS payload whose NAL header byte stands at `offset`,
    /// per H.264 section 7.3.2.2, and stores the result under its
    /// `pic_parameter_set_id` on success.
    #[verifier::rlimit(100)]
    #[verifier::spinoff_prover]
    pub fn parse_pps(&mut self, offset: usize) -> (r: Result<H264NalUnitPPS, H264NalParseError>)
        requires
            old(self).wf(),
        ensures
            final(self).wf(),
            final(self).buf() == old(self).buf(),
            final(self).fmt() == old(self).fmt(),
            final(self).sps_map() == old(self).sps_map(),
            match pps_result(old(self).buf(), offset as int) {
                Ok(t) => r is Ok && r->Ok_0@ == t.0 && final(self).pps_map() == old(
                    self,
                ).pps_map().insert(t.0.pic_parameter_set_id as int, t.0),
                Err(e) => r == Err::<H264NalUnitPPS, H264NalParseError>(e) && final(self).pps_map()
                    == old(self).pps_map(),
            },
    {
        if offset >= self.data.len() {
            return Err(H264NalParseError::NotEnoughBytes);
        }
        let sub = vstd::slice::slice_subrange(self.data.as_slice(), offset + 1, self.data.len());
        let mut reader = H264NalReader::new(sub);
        proof {
            assert(reader.rbsp() == payload_rbsp(self.buf(), offset as int));
        }
        let mut pps = H264NalUnitPPS::new();
        match pps_read_s1(&mut reader, &mut pps) {
            Ok(u) => u,
            Err(e) => {
                return Err(e);
            },
        };
        match pps_read_groups(&mut reader, &mut pps) {
            Ok(u) => u,
            Err(e) => {
                return Err(e);
            },
        };
        match pps_read_s3(&mut reader, &mut pps) {
            Ok(u) => u,
            Err(e) => {
                return Err(e);
            },
        };
        match pps_read_tail(&mut reader, &mut pps) {
            Ok(u) => u,
            Err(e) => {
                return Err(e);
            },
        };
        let id = pps.pic_parameter_set_id as usize;
        let stored = pps.clone();
        self.pps.set(id, Some(stored));
        proof {
            assert(self.pps_map() =~= old(self).pps_map().insert(
                pps@.pic_parameter_set_id as int,
                pps@,
            ));
        }
        Ok(pps)
    }

    /// Decodes the slice header whose NAL header byte stands at `offset`,
    /// per H.264 section 7.3.3, resolving the referenced PPS and through
    /// it the SPS from the parameter-set store; a missing entry is a
    /// semantic error.
    #[verifier::rlimit(100)]
    #[verifier::spinoff_prover]
    pub fn parse_slice(&self, offset: usize, nalu: &H264NalUnit) -> (r: Result<
        H264NalUnitSlice,
        H264NalParseError,
    >)
        requires
            self.wf(),
        ensures
            ({
                let s = self.buf();
                if offset >= s.len() {
                    r == Err::<H264NalUnitSlice, H264NalParseError>(
                        H264NalParseError::NotEnoughBytes,
                    )
                } else {
                    let rb = payload_rbsp(s, offset as int);
                    match slice_head_spec(rb) {
                        Err(e) => r == Err::<H264NalUnitSlice, H264NalParseError>(e),
                        Ok((head, p)) => {
                            if !self.pps_map().contains_key(head.2 as int) {
                                r == Err::<H264NalUnitSlice, H264NalParseError>(
                                    H264NalParseError::GenericParseError,
                                )
                            } else {
                                let pv = self.pps_map()[head.2 as int];
                                if !self.sps_map().contains_key(pv.seq_parameter_set_id as int) {
                                    r == Err::<H264NalUnitSlice, H264NalParseError>(
                                        H264NalParseError::GenericParseError,
                                    )
                                } else {
                                    let sv = self.sps_map()[pv.seq_parameter_set_id as int];
                                    match slice_rest_spec(rb, p, head, *nalu, pv, sv) {
                                        Ok(t) => r is Ok && r->Ok_0@ == t.0,
                                        Err(e) => r == Err::<
                                            H264NalUnitSlice,
                                            H264NalParseError,
                                        >(e),
                                    }
                                }
                            }
                        },
                    }
                }
            }),
    {
        if offset >= self.data.len() {
            return Err(H264NalParseError::NotEnoughBytes);
        }
        let sub = vstd::slice::slice_subrange(self.data.as_slice(), offset + 1, self.data.len());
        let mut reader = H264NalReader::new(sub);
        proof {
            assert(reader.rbsp() == payload_rbsp(self.buf(), offset as int));
        }
        proof {
            reveal(slice_head_spec);
        }
        let mut slice = H264NalUnitSlice::new();
        slice.first_mb_in_slice = match reader.read_ue() {
            Ok(v) => v,
            Err(e) => {
                return Err(e);
            },
        };
        slice.slice_type = match reader.read_ue() {
            Ok(v) => v,
            Err(e) => {
                return Err(e);
            },
        };
        slice.pic_parameter_set_id = match reader.read_ue() {
            Ok(v) => v,
            Err(e) => {
                return Err(e);
            },
        };
        let pps = match self.pps_entry(slice.pic_parameter_set_id as usize) {
            Some(p) => p,
            None => {
                return Err(H264NalParseError::GenericParseError);
            },
        };
        let sps = match self.sps_entry(pps.seq_parameter_set_id as usize) {
            Some(s) => s,
            None => {
                return Err(H264NalParseError::GenericParseError);
            },
        };
        match slice_read_a(&mut reader, &mut slice, nalu, pps, sps) {
            Ok(u) => u,
            Err(e) => {
                return Err(e);
            },
        };
        match slice_read_b(&mut reader, &mut slice, pps) {
            Ok(u) => u,
            Err(e) => {
                return Err(e);
            },
        };
        if nalu.nal_unit_type_num == 20 || nalu.nal_unit_type_num == 21 {
            return Err(H264NalParseError::Unimplemented);
        }
        match slice_read_rplm(&mut reader, slice.slice_type) {
            Ok(u) => u,
            Err(e) => {
                return Err(e);
            },
        };
        if (pps.weighted_pred_flag && (slice_type_is_p_slice(slice.slice_type)
            || slice_type_is_sp_slice(slice.slice_type))) || (pps.weighted_bipred_idc == 1
            && slice_type_is_b_slice(slice.slice_type)) {
            return Err(H264NalParseError::Unimplemented);
        }
        match slice_read_drpm(&mut reader, &mut slice, nalu) {
            Ok(u) => u,
            Err(e) => {
                return Err(e);
            },
        };
        match slice_read_tail(&mut reader, &mut slice, pps, sps) {
            Ok(u) => u,
            Err(e) => {
                return Err(e);
            },
        };
        Ok(slice)
    }

    /// Frames the next NAL unit starting at `offset`.  The first successful
    /// byte-stream frame locks the format; a caller then advances by the
    /// returned unit's `size`.  The returned unit never has size 0, so
    /// advancing never yields the same unit again.
    pub fn parse_nalunit(&mut self, offset: usize) -> (r: Result<H264NalUnit, H264NalParseError>)
        requires
            old(self).wf(),
        ensures
            final(self).wf(),
            final(self).buf() == old(self).buf(),
            final(self).sps_map() == old(self).sps_map(),
            final(self).pps_map() == old(self).pps_map(),
            (r, final(self).fmt()) == nalunit_spec(old(self).buf(), offset as int, old(self).fmt()),
            r is Ok ==> r->Ok_0.sc_offset == offset && 4 <= r->Ok_0.size && offset + r->Ok_0.size
                <= old(self).buf().len(),
    {
        match self.format {
            H264NalFormat::BYTESTREAM => self.parse_bytestream(offset),
            H264NalFormat::AVC => self.parse_avc(offset),
            H264NalFormat::UNKNOWN => {
                match self.parse_bytestream(offset) {
                    Ok(unit) => {
                        self.format = H264NalFormat::BYTESTREAM;
                        Ok(unit)
                    },
                    Err(_) => {
                        match self.parse_avc(offset) {
                            Ok(unit) => Ok(unit),
                            Err(_) => Err(H264NalParseError::UnknownFormat),
                        }
                    },
                }
            },
        }
    }
}

/// Offsets `os` frame the whole of `s` as a run of byte-stream NAL units:
/// each offset starts a unit whose header byte is in range, and no start
/// code stands between one unit's scan start and the next offset, nor after
/// the last offset.
pub open spec fn tiles_buffer(s: Seq<u8>, os: Seq<int>) -> bool {
    &&& s.len() <= usize::MAX
    &&& os.len() >= 1
    &&& os[0] == 0
    &&& forall|x: int| #![trigger os[x]]
        0 <= x < os.len() ==> 0 <= os[x] && os[x] + 3 <= s.len() && bytestream_spec(s, os[x]) is Ok
    &&& forall|x: int| #![trigger os[x]]
        0 <= x < os.len() - 1 ==> scan_sc(s, os[x] + sc_parse(s, os[x])->Ok_0 + 1) == os[x + 1]
    &&& scan_sc(s, os[os.len() - 1] + sc_parse(s, os[os.len() - 1])->Ok_0 + 1) == s.len()
}

/// Sum of the sizes of the units framed at `os[x..]`.
pub open spec fn sizes_sum(s: Seq<u8>, os: Seq<int>, x: int) -> int
    decreases os.len() - x,
{
    if x < 0 || x >= os.len() {
        0
    } else {
        bytestream_spec(s, os[x])->Ok_0.size + sizes_sum(s, os, x + 1)
    }
}

#[verifier::rlimit(100)]
proof fn lemma_sizes_sum_suffix(s: Seq<u8>, os: Seq<int>, x: int)
    requires
        tiles_buffer(s, os),
        0 <= x < os.len(),
    ensures
        sizes_sum(s, os, x) == s.len() - os[x],
    decreases os.len() - x,
{
    let u = bytestream_spec(s, os[x])->Ok_0;
    assert(bytestream_spec(s, os[x]) is Ok);
    let o = os[x];
    let scl = sc_parse(s, o)->Ok_0;
    assert(0 <= o && o + 3 <= s.len() && (scl == 3 || scl == 4));
    assert(o + scl < s.len());
    lemma_scan_sc_bounds(s, o + scl + 1);
    assert(u.size == scan_sc(s, o + scl + 1) - o);
    if x == os.len() - 1 {
        assert(scan_sc(s, o + scl + 1) == s.len());
        assert(u.size == s.len() - os[x]);
        assert(sizes_sum(s, os, x + 1) == 0);
    } else {
        lemma_sizes_sum_suffix(s, os, x + 1);
        assert(scan_sc(s, o + scl + 1) == os[x + 1]);
        assert(u.size == os[x + 1] - os[x]);
    }
}

/// On a buffer that is exactly a concatenation of valid NAL units, the
/// framed units' sizes sum to the buffer length.
pub proof fn lemma_unit_sizes_sum_to_len(s: Seq<u8>, os: Seq<int>)
    requires
        tiles_buffer(s, os),
    ensures
        sizes_sum(s, os, 0) == s.len(),
{
    lemma_sizes_sum_suffix(s, os, 0);
}

/// Framing is monotone: a unit and the unit framed where it ends are
/// distinct, since every unit starts at its own offset and has positive
/// size.
pub proof fn lemma_parse_monotone(s: Seq<u8>, o: int, u: H264NalUnit, u2: H264NalUnit)
    requires
        0 <= o,
        s.len() <= usize::MAX,
        bytestream_spec(s, o) == Ok::<H264NalUnit, H264NalParseError>(u),
        bytestream_spec(s, o + u.size) == Ok::<H264NalUnit, H264NalParseError>(u2),
    ensures
        u2.sc_offset > u.sc_offset,
        u2 != u,
{
    let scl = sc_parse(s, o)->Ok_0;
    assert(o + 3 <= s.len() && (scl == 3 || scl == 4));
    lemma_scan_sc_bounds(s, o + scl + 1);
    assert(u.size == scan_sc(s, o + scl + 1) - o);
    assert(u.size >= scl + 1);
}

} // verus!
