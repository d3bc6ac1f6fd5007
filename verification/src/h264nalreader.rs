//! Stateful cursor over a NAL payload that yields 1 to 32 bits at a time in
//! MSB-first order, transparently dropping emulation-prevention bytes, and
//! decodes unsigned and signed Exp-Golomb code words.
//!
//! Every read is specified against the RBSP bit stream `rbsp()` of the
//! underlying bytes and the current bit position `bitpos()` in it.

use vstd::prelude::*;
use vstd::arithmetic::power2::{pow2, lemma_pow2_pos, lemma_pow2_strictly_increases, lemma2_to64,
    lemma2_to64_rest};
use crate::bitstream::{
    bit_at, bits_value, s_bits, s_flag, s_ue, s_se, lead_zeros, more_data, pow2_u64,
    lemma_bits_value_bound, lemma_bits_value_concat, lemma_bits_value_byte, lemma_bits_value_split,
    lemma_lead_zeros_exact, lemma_lead_zeros_end,
};
use crate::rbsp::{unesc, rbsp_seq, scan_state, prefix_epbs, lemma_unesc_len, lemma_unesc_step_keep};
use crate::H264NalParseError;

verus! {

broadcast use vstd::seq_lib::group_seq_properties;

/// Bit reader over a byte slice.  `cache` holds the bits already fetched
/// from the source but not yet handed out; `prev1` and `prev2` are the last
/// two bytes kept (not dropped) from the source, and `check_three_byte` is
/// the latch that disarms emulation-prevention detection for exactly one
/// byte after a `0x03` was dropped.
#[derive(Clone, Copy)]
pub struct H264NalReader<'a> {
    data: &'a [u8],
    cache: u64,
    bits_in_cache: u32,
    prev1: u8,
    prev2: u8,
    check_three_byte: bool,
    pos: usize,
    num_epb: usize,
}

impl<'a> H264NalReader<'a> {
    /// The raw payload bytes this reader was constructed over.
    pub closed spec fn source(self) -> Seq<u8> {
        self.data@
    }

    /// The RBSP byte sequence the payload denotes.
    pub closed spec fn rbsp(self) -> Seq<u8> {
        rbsp_seq(self.data@)
    }

    /// Number of source bytes kept (fetched and not dropped) so far.
    closed spec fn kept(self) -> int {
        self.pos - self.num_epb
    }

    /// The next unread position in the RBSP bit stream.
    pub closed spec fn bitpos(self) -> int {
        8 * self.kept() - self.bits_in_cache
    }

    /// Number of emulation-prevention bytes dropped so far.
    pub closed spec fn epbs(self) -> int {
        self.num_epb as int
    }

    /// Number of source bytes consumed so far, dropped bytes included.
    pub closed spec fn raw_pos(self) -> int {
        self.pos as int
    }

    pub closed spec fn wf(self) -> bool {
        &&& self.pos <= self.data@.len()
        &&& self.num_epb <= self.pos
        &&& self.kept() <= self.rbsp().len()
        &&& unesc(self.data@, self.pos as int, self.prev2, self.prev1, self.check_three_byte)
            == self.rbsp().skip(self.kept())
        &&& scan_state(self.data@, self.pos as int) == (
            self.prev2,
            self.prev1,
            self.check_three_byte,
            self.num_epb as int,
        )
        &&& self.bits_in_cache <= 39
        &&& self.bits_in_cache <= 8 * self.kept()
        &&& self.cache == bits_value(self.rbsp(), self.bitpos(), self.bits_in_cache as int)
        &&& (self.cache as nat) < pow2(self.bits_in_cache as nat)
    }

    pub fn new(data: &'a [u8]) -> (r: H264NalReader<'a>)
        ensures
            r.wf(),
            r.source() == data@,
            r.rbsp() == rbsp_seq(data@),
            r.bitpos() == 0,
            r.epbs() == 0,
    {
        let r = H264NalReader {
            data,
            cache: 0,
            bits_in_cache: 0,
            prev1: 0xFF,
            prev2: 0xFF,
            check_three_byte: true,
            pos: 0,
            num_epb: 0,
        };
        proof {
            lemma_unesc_len(data@, 0, 0xFF, 0xFF, true);
            assert(rbsp_seq(data@).skip(0) =~= rbsp_seq(data@));
            lemma2_to64();
        }
        r
    }

    /// Number of emulation-prevention bytes consumed so far.
    pub fn epb_count(&self) -> (n: usize)
        ensures
            n == self.epbs(),
    {
        self.num_epb
    }

    /// When the reader has consumed its whole source and kept every byte,
    /// no emulation-prevention byte was ever dropped.
    pub proof fn lemma_epbs_zero(self)
        requires
            self.wf(),
            self.rbsp() == self.source(),
        ensures
            self.epbs() == 0,
    {
        lemma_unesc_len(
            self.data@,
            self.pos as int,
            self.prev2,
            self.prev1,
            self.check_three_byte,
        );
        assert(self.rbsp().skip(self.kept()).len() == self.rbsp().len() - self.kept());
    }

    /// The exact meaning of the counter: at any time it equals the number
    /// of emulation-prevention bytes dropped from the consumed source
    /// prefix, and that prefix covers at least every bit handed out.
    pub proof fn lemma_epbs_prefix(self)
        requires
            self.wf(),
        ensures
            self.epbs() == prefix_epbs(self.source(), self.raw_pos()),
            0 <= self.raw_pos() <= self.source().len(),
            self.bitpos() <= 8 * (self.raw_pos() - self.epbs()),
    {
    }

    /// Reads `nbits` bits, 1 to 32, and returns them as an unsigned value,
    /// MSB first; fails with `NotEnoughBytes` when fewer than `nbits` bits
    /// remain in the RBSP stream.
    pub fn read_u32(&mut self, nbits: u32) -> (r: Result<u32, H264NalParseError>)
        requires
            old(self).wf(),
            1 <= nbits <= 32,
        ensures
            final(self).wf(),
            final(self).source() == old(self).source(),
            final(self).rbsp() == old(self).rbsp(),
            old(self).epbs() <= final(self).epbs(),
            match s_bits(old(self).rbsp(), old(self).bitpos(), nbits as int) {
                Ok(t) => r == Ok::<u32, H264NalParseError>(t.0) && final(self).bitpos() == t.1,
                Err(e) => r == Err::<u32, H264NalParseError>(e) && final(self).bitpos() == old(
                    self,
                ).bitpos(),
            },
    {
        let ghost rb = self.rbsp();
        while self.bits_in_cache < nbits
            invariant
                self.wf(),
                1 <= nbits <= 32,
                self.source() == old(self).source(),
                self.rbsp() == rb,
                rb == old(self).rbsp(),
                self.bitpos() == old(self).bitpos(),
                old(self).epbs() <= self.epbs(),
            decreases self.data@.len() - self.pos,
        {
            if self.pos >= self.data.len() {
                proof {
                    assert(unesc(
                        self.data@,
                        self.pos as int,
                        self.prev2,
                        self.prev1,
                        self.check_three_byte,
                    ) =~= Seq::<u8>::empty());
                    assert(self.rbsp().skip(self.kept()).len() == 0);
                    assert(self.kept() == self.rbsp().len());
                }
                return Err(H264NalParseError::NotEnoughBytes);
            }
            let b = self.data[self.pos];
            let ghost pre = *self;
            self.pos = self.pos + 1;
            if self.check_three_byte && b == 0x03 && self.prev1 == 0x00 && self.prev2 == 0x00 {
                self.num_epb = self.num_epb + 1;
                self.check_three_byte = false;
                proof {
                    assert(unesc(pre.data@, pre.pos as int, pre.prev2, pre.prev1, true) == unesc(
                        self.data@,
                        self.pos as int,
                        self.prev2,
                        self.prev1,
                        false,
                    ));
                    assert(scan_state(self.data@, self.pos as int) == (
                        self.prev2,
                        self.prev1,
                        self.check_three_byte,
                        self.num_epb as int,
                    ));
                    assert(self.bitpos() == pre.bitpos());
                }
            } else {
                proof {
                    // The byte is kept: it is the next RBSP byte.
                    lemma_unesc_step_keep(
                        pre.data@,
                        pre.pos as int,
                        pre.prev2,
                        pre.prev1,
                        pre.check_three_byte,
                        rb,
                        pre.kept(),
                    );
                    assert(rb[pre.kept()] == b);
                    // Appending the byte to the cache appends its 8 bits.
                    lemma_bits_value_concat(rb, pre.bitpos(), pre.bits_in_cache as int, 8);
                    lemma_bits_value_byte(rb, pre.kept());
                    assert(pre.bitpos() + pre.bits_in_cache == 8 * pre.kept());
                    lemma_bits_value_bound(rb, pre.bitpos(), pre.bits_in_cache as int + 8);
                    assert(pow2(8) == 256 && pow2(40) == 0x10000000000) by {
                        lemma2_to64();
                        lemma2_to64_rest();
                    }
                    if pre.bits_in_cache + 8 < 40 {
                        lemma_pow2_strictly_increases((pre.bits_in_cache + 8) as nat, 40);
                    }
                    assert(bits_value(rb, pre.bitpos(), pre.bits_in_cache as int + 8) == pre.cache
                        * 256 + b);
                    assert(pre.cache * 256 + b < 0x10000000000);
                }
                self.check_three_byte = true;
                self.cache = self.cache * 256 + b as u64;
                self.prev2 = self.prev1;
                self.prev1 = b;
                self.bits_in_cache = self.bits_in_cache + 8;
                proof {
                    assert(scan_state(self.data@, self.pos as int) == (
                        self.prev2,
                        self.prev1,
                        self.check_three_byte,
                        self.num_epb as int,
                    ));
                    assert(self.kept() == pre.kept() + 1);
                    assert(self.bitpos() == pre.bitpos());
                }
            }
        }
        // Enough bits are cached: hand out the top `nbits` of the cache.
        proof {
            assert(self.bitpos() + self.bits_in_cache == 8 * self.kept() <= 8 * self.rbsp().len());
        }
        let shift = self.bits_in_cache - nbits;
        let d = pow2_u64(shift);
        proof {
            lemma_pow2_pos(shift as nat);
            lemma_bits_value_split(rb, self.bitpos(), self.bits_in_cache as int, shift as int);
            lemma_bits_value_bound(rb, self.bitpos(), nbits as int);
            if nbits < 32 {
                lemma_pow2_strictly_increases(nbits as nat, 32);
            }
            assert(pow2(32) == 0x100000000) by {
                lemma2_to64();
            }
        }
        let v = self.cache / d;
        self.cache = self.cache % d;
        self.bits_in_cache = shift;
        Ok(v as u32)
    }

    /// Reads `nbits` bits, 1 to 8, as a `u8`.
    pub fn read_u8(&mut self, nbits: u32) -> (r: Result<u8, H264NalParseError>)
        requires
            old(self).wf(),
            1 <= nbits <= 8,
        ensures
            final(self).wf(),
            final(self).source() == old(self).source(),
            final(self).rbsp() == old(self).rbsp(),
            old(self).epbs() <= final(self).epbs(),
            match s_bits(old(self).rbsp(), old(self).bitpos(), nbits as int) {
                Ok(t) => r == Ok::<u8, H264NalParseError>(t.0 as u8) && final(self).bitpos()
                    == t.1,
                Err(e) => r == Err::<u8, H264NalParseError>(e) && final(self).bitpos() == old(
                    self,
                ).bitpos(),
            },
    {
        proof {
            lemma_bits_value_bound(old(self).rbsp(), old(self).bitpos(), nbits as int);
            if nbits < 32 {
                lemma_pow2_strictly_increases(nbits as nat, 32);
            }
            lemma2_to64();
        }
        match self.read_u32(nbits) {
            Ok(v) => Ok(v as u8),
            Err(e) => Err(e),
        }
    }

    /// Reads `nbits` bits, 1 to 16, as a `u16`.
    pub fn read_u16(&mut self, nbits: u32) -> (r: Result<u16, H264NalParseError>)
        requires
            old(self).wf(),
            1 <= nbits <= 16,
        ensures
            final(self).wf(),
            final(self).source() == old(self).source(),
            final(self).rbsp() == old(self).rbsp(),
            old(self).epbs() <= final(self).epbs(),
            match s_bits(old(self).rbsp(), old(self).bitpos(), nbits as int) {
                Ok(t) => r == Ok::<u16, H264NalParseError>(t.0 as u16) && final(self).bitpos()
                    == t.1,
                Err(e) => r == Err::<u16, H264NalParseError>(e) && final(self).bitpos() == old(
                    self,
                ).bitpos(),
            },
    {
        proof {
            lemma_bits_value_bound(old(self).rbsp(), old(self).bitpos(), nbits as int);
            if nbits < 32 {
                lemma_pow2_strictly_increases(nbits as nat, 32);
            }
            lemma2_to64();
        }
        match self.read_u32(nbits) {
            Ok(v) => Ok(v as u16),
            Err(e) => Err(e),
        }
    }

    /// Reads one bit as a flag.
    pub fn read_flag(&mut self) -> (r: Result<bool, H264NalParseError>)
        requires
            old(self).wf(),
        ensures
            final(self).wf(),
            final(self).source() == old(self).source(),
            final(self).rbsp() == old(self).rbsp(),
            old(self).epbs() <= final(self).epbs(),
            match s_flag(old(self).rbsp(), old(self).bitpos()) {
                Ok(t) => r == Ok::<bool, H264NalParseError>(t.0) && final(self).bitpos() == t.1,
                Err(e) => r == Err::<bool, H264NalParseError>(e) && final(self).bitpos() == old(
                    self,
                ).bitpos(),
            },
    {
        match self.read_u32(1) {
            Ok(v) => Ok(v == 1),
            Err(e) => Err(e),
        }
    }

    /// Reads an unsigned Exp-Golomb code word.
    pub fn read_ue(&mut self) -> (r: Result<u32, H264NalParseError>)
        requires
            old(self).wf(),
        ensures
            final(self).wf(),
            final(self).source() == old(self).source(),
            final(self).rbsp() == old(self).rbsp(),
            old(self).epbs() <= final(self).epbs(),
            match s_ue(old(self).rbsp(), old(self).bitpos()) {
                Ok(t) => r == Ok::<u32, H264NalParseError>(t.0) && final(self).bitpos() == t.1,
                Err(e) => r is Err && r->Err_0 == e,
            },
    {
        let ghost rb = self.rbsp();
        let ghost p = self.bitpos();
        let mut leading: u32 = 0;
        // Scan the leading zero bits; `leading` counts them, capped at 33
        // since anything beyond 32 fails the same way.
        loop
            invariant_except_break
                p <= self.bitpos() <= 8 * rb.len(),
                self.bitpos() - p <= 33 ==> leading == self.bitpos() - p,
                self.bitpos() - p > 33 ==> leading == 33,
                forall|i: int| p <= i < self.bitpos() ==> bit_at(rb, i) == 0,
            invariant
                self.wf(),
                self.source() == old(self).source(),
                self.rbsp() == rb,
                rb == old(self).rbsp(),
                p == old(self).bitpos(),
                old(self).epbs() <= self.epbs(),
                0 <= p,
            ensures
                self.wf(),
                self.source() == old(self).source(),
                self.rbsp() == rb,
                old(self).epbs() <= self.epbs(),
                lead_zeros(rb, p) == self.bitpos() - 1 - p,
                self.bitpos() == p + lead_zeros(rb, p) + 1,
                lead_zeros(rb, p) <= 33 ==> leading == lead_zeros(rb, p),
                lead_zeros(rb, p) > 33 ==> leading == 33,
            decreases 8 * rb.len() - self.bitpos(),
        {
            let ghost q = self.bitpos();
            match self.read_u32(1) {
                Err(_) => {
                    proof {
                        // The zeros ran to the very end of the stream.
                        lemma_lead_zeros_end(rb, p, q - p);
                    }
                    return Err(H264NalParseError::NotEnoughBytes);
                },
                Ok(v) => {
                    proof {
                        assert(bits_value(rb, q, 0) == 0);
                        assert(bits_value(rb, q, 1) == bit_at(rb, q));
                    }
                    if v == 1 {
                        proof {
                            lemma_lead_zeros_exact(rb, p, q - p);
                        }
                        break;
                    }
                    if leading < 33 {
                        leading = leading + 1;
                    }
                },
            }
        }
        let l = leading;
        if l > 32 {
            return Err(H264NalParseError::GenericParseError);
        }
        proof {
            assert(l == lead_zeros(rb, p));
        }
        if l == 0 {
            proof {
                assert(pow2(0) == 1) by {
                    lemma2_to64();
                }
            }
            return Ok(0);
        }
        match self.read_u32(l) {
            Err(e) => {
                return Err(e);
            },
            Ok(v) => {
                proof {
                    lemma_bits_value_bound(rb, p + l + 1, l as int);
                }
                if l == 32 {
                    if v > 0 {
                        proof {
                            assert(pow2(32) == 0x100000000) by {
                                lemma2_to64();
                            }
                        }
                        return Err(H264NalParseError::GenericParseError);
                    }
                    proof {
                        assert(pow2(32) == 0x100000000) by {
                            lemma2_to64();
                        }
                    }
                    return Ok(0xFFFF_FFFFu32);
                }
                proof {
                    if l < 31 {
                        lemma_pow2_strictly_increases(l as nat, 31);
                    }
                    assert(pow2(31) == 0x80000000 && pow2(32) == 0x100000000) by {
                        lemma2_to64();
                    }
                    assert(v < pow2(l as nat));
                }
                let base = pow2_u64(l);
                let total = base - 1 + v as u64;
                proof {
                    assert(total <= u32::MAX);
                }
                Ok(total as u32)
            },
        }
    }

    /// Reads a signed Exp-Golomb code word.
    pub fn read_se(&mut self) -> (r: Result<i32, H264NalParseError>)
        requires
            old(self).wf(),
        ensures
            final(self).wf(),
            final(self).source() == old(self).source(),
            final(self).rbsp() == old(self).rbsp(),
            old(self).epbs() <= final(self).epbs(),
            match s_se(old(self).rbsp(), old(self).bitpos()) {
                Ok(t) => r == Ok::<i32, H264NalParseError>(t.0) && final(self).bitpos() == t.1,
                Err(e) => r is Err && r->Err_0 == e,
            },
    {
        match self.read_ue() {
            Err(e) => Err(e),
            Ok(u) => {
                if u == 0xFFFF_FFFFu32 {
                    Err(H264NalParseError::GenericParseError)
                } else if u % 2 == 1 {
                    Ok((u / 2 + 1) as i32)
                } else {
                    Ok(-((u / 2) as i32))
                }
            },
        }
    }

    /// True when some bit after the current one is set, so that the current
    /// position cannot already be at the RBSP stop bit.
    pub fn more_rbsp_data(&self) -> (b: bool)
        requires
            self.wf(),
        ensures
            b == more_data(self.rbsp(), self.bitpos()),
    {
        let ghost rb = self.rbsp();
        let ghost p = self.bitpos();
        let mut rd = *self;
        match rd.read_u32(1) {
            Err(_) => {
                proof {
                    assert(!more_data(rb, p));
                }
                return false;
            },
            Ok(_) => {},
        }
        loop
            invariant
                rd.wf(),
                rd.rbsp() == rb,
                rb == self.rbsp(),
                p == self.bitpos(),
                p < rd.bitpos() <= 8 * rb.len(),
                forall|q: int| p < q < rd.bitpos() ==> bit_at(rb, q) == 0,
            decreases 8 * rb.len() - rd.bitpos(),
        {
            let ghost q = rd.bitpos();
            match rd.read_u32(1) {
                Err(_) => {
                    proof {
                        assert(q == 8 * rb.len());
                        assert(!more_data(rb, p));
                    }
                    return false;
                },
                Ok(v) => {
                    proof {
                        assert(bits_value(rb, q, 0) == 0);
                        assert(bits_value(rb, q, 1) == bit_at(rb, q));
                    }
                    if v == 1 {
                        proof {
                            assert(p < q < 8 * rb.len() && bit_at(rb, q) == 1);
                        }
                        return true;
                    }
                },
            }
        }
    }
}

} // verus!
