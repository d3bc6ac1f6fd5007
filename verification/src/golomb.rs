//! Standalone Exp-Golomb decoding over a raw byte slice, without
//! emulation-prevention handling.

use vstd::prelude::*;
use vstd::arithmetic::power2::{pow2, lemma_pow2_unfold, lemma_pow2_strictly_increases, lemma2_to64,
    lemma2_to64_rest};
use vstd::arithmetic::div_mod::lemma_fundamental_div_mod;
use crate::bitstream::{
    bit_at, bits_value, lead_zeros, pow2_u64, lemma_bits_value_bound, lemma_lead_zeros_zero_bits,
    lemma_lead_zeros_exact,
};

verus! {

/// Reads the bit of `byte` at `offset` from the most significant end:
/// offset 0 is the top bit, offset 7 the bottom bit.
pub fn read_bit(byte: u8, offset: usize) -> (r: u8)
    requires
        offset <= 7,
    ensures
        r == ((byte as nat) / pow2((7 - offset) as nat)) % 2,
        r <= 1,
{
    proof {
        vstd::arithmetic::power2::lemma_pow2_pos((7 - offset) as nat);
    }
    let d = pow2_u64((7 - offset) as u32);
    (((byte as u64) / d) % 2) as u8
}

/// Decodes the unsigned Exp-Golomb code word at the start of `data`: with
/// `k` leading zero bits, a one bit, and `k` suffix bits of value `v`, the
/// code word denotes `pow2(k) - 1 + v`.
pub fn golombdec(data: &[u8]) -> (r: u64)
    requires
        2 * lead_zeros(data@, 0) + 1 <= 8 * data@.len(),
        lead_zeros(data@, 0) <= 63,
    ensures
        r == pow2(lead_zeros(data@, 0)) - 1 + bits_value(
            data@,
            lead_zeros(data@, 0) as int + 1,
            lead_zeros(data@, 0) as int,
        ),
{
    let ghost s = data@;
    let ghost k = lead_zeros(s, 0) as int;
    proof {
        lemma_lead_zeros_zero_bits(s, 0);
    }
    let mut idx: usize = 0;
    // Scan to the terminating one bit; the code word fits the slice.
    loop
        invariant
            data@ == s,
            0 <= idx <= k,
            2 * k + 1 <= 8 * s.len(),
            k == lead_zeros(s, 0),
            k <= 63,
            forall|i: int| 0 <= i < idx ==> bit_at(s, i) == 0,
            bit_at(s, k) == 1,
        ensures
            idx == k,
        decreases k - idx,
    {
        proof {
            lemma_fundamental_div_mod(idx as int, 8);
            assert(8 * (idx as int / 8) <= idx < 8 * s.len());
        }
        let b = read_bit(data[idx / 8], idx % 8);
        proof {
            assert(b == bit_at(s, idx as int));
        }
        if b == 1 {
            proof {
                lemma_lead_zeros_exact(s, 0, idx as int);
            }
            break;
        }
        proof {
            assert(bit_at(s, idx as int) == 0);
            assert(idx != k);
        }
        idx = idx + 1;
    }
    // Read the k suffix bits, most significant first.
    proof {
        assert(bits_value(s, k + 1, 0) == 0);
        lemma2_to64();
    }
    let mut v: u64 = 0;
    let mut i: usize = 0;
    while i < idx
        invariant
            data@ == s,
            0 <= i <= idx == k <= 63,
            2 * k + 1 <= 8 * s.len(),
            v == bits_value(s, k + 1, i as int),
            v < pow2(i as nat),
        decreases idx - i,
    {
        let ghost q = k + 1 + i;
        proof {
            assert(q < 8 * s.len());
            lemma_fundamental_div_mod(q, 8);
            assert(8 * (q / 8) <= q < 8 * s.len());
            lemma_pow2_unfold((i + 1) as nat);
            if i + 1 < 64 {
                lemma_pow2_strictly_increases((i + 1) as nat, 64);
            }
            assert(pow2(64) == 0x10000000000000000) by {
                lemma2_to64();
            }
        }
        let bi = (idx + 1 + i) / 8;
        let off = (idx + 1 + i) % 8;
        let b = read_bit(data[bi], off);
        proof {
            assert(b == bit_at(s, q));
        }
        v = v * 2 + b as u64;
        i = i + 1;
    }
    proof {
        lemma_bits_value_bound(s, k + 1, k);
        if k < 63 {
            lemma_pow2_strictly_increases(k as nat, 63);
        }
        assert(pow2(63) == 0x8000000000000000) by {
            lemma2_to64_rest();
        }
    }
    let base = pow2_u64(idx as u32);
    base - 1 + v
}

} // verus!
