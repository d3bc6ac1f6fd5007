//! Mathematical model of a big-endian, MSB-first bit stream over a byte
//! sequence, together with the Exp-Golomb value specifications that the
//! reader's contracts are stated over.

use vstd::prelude::*;
use vstd::arithmetic::power2::{
    pow2, lemma_pow2_unfold, lemma_pow2_adds, lemma_pow2_pos, lemma_pow2_strictly_increases,
    lemma2_to64, lemma2_to64_rest,
};
use vstd::arithmetic::div_mod::{
    lemma_fundamental_div_mod, lemma_fundamental_div_mod_converse, lemma_div_denominator,
    lemma_basic_div, lemma_mod_division_less_than_divisor,
};
use crate::H264NalParseError;

verus! {

/// The bit of `r` at absolute bit position `q`: bit 0 is the most
/// significant bit of `r[0]`, bit 8 the most significant bit of `r[1]`.
pub open spec fn bit_at(r: Seq<u8>, q: int) -> nat {
    ((r[q / 8] as nat) / pow2((7 - q % 8) as nat)) % 2
}

/// Unsigned value of the `n` bits of `r` that start at bit position `p`,
/// most significant bit first.
pub open spec fn bits_value(r: Seq<u8>, p: int, n: int) -> nat
    decreases n,
{
    if n <= 0 {
        0
    } else {
        bits_value(r, p, n - 1) * 2 + bit_at(r, p + n - 1)
    }
}

pub proof fn lemma_bit_at_bound(r: Seq<u8>, q: int)
    ensures
        bit_at(r, q) < 2,
{
    let x = (r[q / 8] as nat) / pow2((7 - q % 8) as nat);
    lemma_mod_division_less_than_divisor(x as int, 2);
}

pub proof fn lemma_bits_value_bound(r: Seq<u8>, p: int, n: int)
    requires
        n >= 0,
    ensures
        bits_value(r, p, n) < pow2(n as nat),
    decreases n,
{
    if n == 0 {
        lemma2_to64();
    } else {
        lemma_bits_value_bound(r, p, n - 1);
        lemma_bit_at_bound(r, p + n - 1);
        lemma_pow2_unfold((n as nat));
    }
}

pub proof fn lemma_bits_value_concat(r: Seq<u8>, p: int, a: int, b: int)
    requires
        a >= 0,
        b >= 0,
    ensures
        bits_value(r, p, a + b) == bits_value(r, p, a) * pow2(b as nat) + bits_value(r, p + a, b),
    decreases b,
{
    if b == 0 {
        lemma2_to64();
    } else {
        lemma_bits_value_concat(r, p, a, b - 1);
        lemma_pow2_unfold(b as nat);
        let va = bits_value(r, p, a);
        let pb1 = pow2((b - 1) as nat);
        assert(va * pb1 * 2 == va * (2 * pb1)) by (nonlinear_arith);
    }
}

/// The 8 bits that start at a byte boundary are exactly that byte.
pub proof fn lemma_bits_value_byte(r: Seq<u8>, j: int)
    requires
        0 <= j < r.len(),
    ensures
        bits_value(r, 8 * j, 8) == r[j],
{
    lemma_bits_value_byte_prefix(r, j, 8);
    lemma2_to64();
}

proof fn lemma_bits_value_byte_prefix(r: Seq<u8>, j: int, n: int)
    requires
        0 <= j < r.len(),
        0 <= n <= 8,
    ensures
        bits_value(r, 8 * j, n) == (r[j] as nat) / pow2((8 - n) as nat),
    decreases n,
{
    let b = r[j] as nat;
    if n == 0 {
        lemma2_to64();
        lemma_basic_div(b as int, 256);
    } else {
        lemma_bits_value_byte_prefix(r, j, n - 1);
        let q = 8 * j + n - 1;
        lemma_fundamental_div_mod_converse(q, 8, j, n - 1);
        assert(q / 8 == j && q % 8 == n - 1);
        let y = b / pow2((8 - n) as nat);
        assert(bit_at(r, q) == (b / pow2((8 - n) as nat)) % 2);
        lemma_pow2_unfold((9 - n) as nat);
        lemma_pow2_pos((8 - n) as nat);
        lemma_div_denominator(b as int, pow2((8 - n) as nat) as int, 2);
        assert(b / pow2((9 - n) as nat) == y / 2);
        lemma_fundamental_div_mod(y as int, 2);
        lemma_mod_division_less_than_divisor(y as int, 2);
    }
}

/// Splitting the value of `n` bits: the first `n - s` bits are the quotient
/// by `pow2(s)`, the last `s` bits are the remainder.
pub proof fn lemma_bits_value_split(r: Seq<u8>, p: int, n: int, s: int)
    requires
        0 <= s <= n,
    ensures
        bits_value(r, p, n) as int / pow2(s as nat) as int == bits_value(r, p, n - s),
        bits_value(r, p, n) as int % pow2(s as nat) as int == bits_value(r, p + n - s, s),
{
    lemma_bits_value_concat(r, p, n - s, s);
    lemma_bits_value_bound(r, p + n - s, s);
    lemma_pow2_pos(s as nat);
    lemma_fundamental_div_mod_converse(
        bits_value(r, p, n) as int,
        pow2(s as nat) as int,
        bits_value(r, p, n - s) as int,
        bits_value(r, p + n - s, s) as int,
    );
}

/// Number of consecutive zero bits of `r` from bit position `p` on, counting
/// until a one bit or the end of the stream.
pub open spec fn lead_zeros(r: Seq<u8>, p: int) -> nat
    decreases 8 * r.len() - p,
{
    if p < 0 || p >= 8 * r.len() {
        0
    } else if bit_at(r, p) != 0 {
        0
    } else {
        1 + lead_zeros(r, p + 1)
    }
}

pub proof fn lemma_lead_zeros_zero_bits(r: Seq<u8>, p: int)
    requires
        0 <= p <= 8 * r.len(),
    ensures
        forall|i: int| p <= i < p + lead_zeros(r, p) ==> bit_at(r, i) == 0,
        p + lead_zeros(r, p) < 8 * r.len() ==> bit_at(r, p + lead_zeros(r, p)) == 1,
        p + lead_zeros(r, p) <= 8 * r.len(),
    decreases 8 * r.len() - p,
{
    if p >= 8 * r.len() {
    } else if bit_at(r, p) != 0 {
        lemma_bit_at_bound(r, p);
    } else {
        lemma_lead_zeros_zero_bits(r, p + 1);
        assert forall|i: int| p <= i < p + lead_zeros(r, p) implies bit_at(r, i) == 0 by {
            if i != p {
                assert(p + 1 <= i < p + 1 + lead_zeros(r, p + 1));
            }
        }
    }
}

/// `lead_zeros` is determined by any witness of `k` zero bits followed by a
/// one bit.
pub proof fn lemma_lead_zeros_exact(r: Seq<u8>, p: int, k: int)
    requires
        0 <= p,
        0 <= k,
        p + k < 8 * r.len(),
        forall|i: int| p <= i < p + k ==> bit_at(r, i) == 0,
        bit_at(r, p + k) == 1,
    ensures
        lead_zeros(r, p) == k,
    decreases k,
{
    if k == 0 {
    } else {
        assert(bit_at(r, p) == 0);
        lemma_lead_zeros_exact(r, p + 1, k - 1);
    }
}

/// `lead_zeros` when the zeros run to the very end of the stream.
pub proof fn lemma_lead_zeros_end(r: Seq<u8>, p: int, k: int)
    requires
        0 <= p,
        0 <= k,
        p + k == 8 * r.len(),
        forall|i: int| p <= i < p + k ==> bit_at(r, i) == 0,
    ensures
        lead_zeros(r, p) == k,
    decreases k,
{
    if k == 0 {
    } else {
        assert(bit_at(r, p) == 0);
        lemma_lead_zeros_end(r, p + 1, k - 1);
    }
}

/// What a fixed-width read of `n` bits at bit position `p` returns:
/// the value and the new position, or failure when fewer than `n` bits
/// remain.
pub open spec fn s_bits(r: Seq<u8>, p: int, n: int) -> Result<(u32, int), H264NalParseError> {
    if p + n <= 8 * r.len() {
        Ok((bits_value(r, p, n) as u32, p + n))
    } else {
        Err(H264NalParseError::NotEnoughBytes)
    }
}

/// What a one-bit flag read at bit position `p` returns.
pub open spec fn s_flag(r: Seq<u8>, p: int) -> Result<(bool, int), H264NalParseError> {
    match s_bits(r, p, 1) {
        Ok((v, p2)) => Ok((v == 1, p2)),
        Err(e) => Err(e),
    }
}

/// What an unsigned Exp-Golomb read at bit position `p` returns: with `l`
/// leading zero bits, a one bit, and `l` suffix bits of value `v`, the code
/// word denotes `pow2(l) - 1 + v`.  It fails with `NotEnoughBytes` when the
/// stream ends inside the code word, and with `GenericParseError` when more
/// than 32 leading zeros precede the one bit or the value exceeds `u32::MAX`.
pub open spec fn s_ue(r: Seq<u8>, p: int) -> Result<(u32, int), H264NalParseError> {
    let l = lead_zeros(r, p) as int;
    if p + l >= 8 * r.len() {
        Err(H264NalParseError::NotEnoughBytes)
    } else if l > 32 {
        Err(H264NalParseError::GenericParseError)
    } else if p + 2 * l + 1 > 8 * r.len() {
        Err(H264NalParseError::NotEnoughBytes)
    } else if pow2(l as nat) - 1 + bits_value(r, p + l + 1, l) > u32::MAX {
        Err(H264NalParseError::GenericParseError)
    } else {
        Ok(((pow2(l as nat) - 1 + bits_value(r, p + l + 1, l)) as u32, p + 2 * l + 1))
    }
}

/// The signed value denoted by the unsigned Exp-Golomb value `u`.
pub open spec fn se_of_ue(u: nat) -> int {
    if u % 2 == 1 {
        ((u + 1) / 2) as int
    } else {
        -((u / 2) as int)
    }
}

/// What a signed Exp-Golomb read at bit position `p` returns.  The one
/// unsigned value whose signed mapping does not fit `i32`, `u32::MAX`,
/// fails with `GenericParseError`.
pub open spec fn s_se(r: Seq<u8>, p: int) -> Result<(i32, int), H264NalParseError> {
    match s_ue(r, p) {
        Ok((u, p2)) => if u == u32::MAX {
            Err(H264NalParseError::GenericParseError)
        } else {
            Ok((se_of_ue(u as nat) as i32, p2))
        },
        Err(e) => Err(e),
    }
}

/// There is RBSP data left beyond the bit at position `p`: some later bit is
/// set, so the bit at `p` cannot be the RBSP stop bit.
pub open spec fn more_data(r: Seq<u8>, p: int) -> bool {
    exists|q: int| p < q < 8 * r.len() && #[trigger] bit_at(r, q) == 1
}

/// Number of leading zero bits in the Exp-Golomb code word for `n`.
pub open spec fn ue_klen(n: nat) -> nat
    decreases n,
{
    if n == 0 {
        0
    } else {
        1 + ue_klen(((n - 1) / 2) as nat)
    }
}

pub proof fn lemma_ue_klen_bounds(n: nat)
    ensures
        pow2(ue_klen(n)) - 1 <= n < pow2(ue_klen(n) + 1) - 1,
    decreases n,
{
    if n == 0 {
        lemma2_to64();
        lemma_pow2_unfold(1);
    } else {
        let m = ((n - 1) / 2) as nat;
        lemma_ue_klen_bounds(m);
        let k = ue_klen(m);
        lemma_fundamental_div_mod(n - 1, 2);
        lemma_mod_division_less_than_divisor(n - 1, 2);
        lemma_pow2_unfold(k + 1);
        lemma_pow2_unfold(k + 2);
    }
}

pub proof fn lemma_ue_klen_le_32(n: nat)
    requires
        n <= u32::MAX,
    ensures
        ue_klen(n) <= 32,
{
    lemma_ue_klen_bounds(n);
    if ue_klen(n) > 32 {
        assert(pow2(33) == 0x200000000) by {
            lemma2_to64_rest();
        }
        if ue_klen(n) > 33 {
            lemma_pow2_strictly_increases(33, ue_klen(n));
        }
        assert(pow2(ue_klen(n)) >= 0x200000000);
        assert(false);
    }
}

/// The Exp-Golomb code word for `n` stands in `r` at bit position `p`:
/// `ue_klen(n)` zero bits, a one bit, then `ue_klen(n)` bits holding
/// `n + 1 - pow2(ue_klen(n))`.
pub open spec fn encodes_ue_at(r: Seq<u8>, p: int, n: nat) -> bool {
    let k = ue_klen(n) as int;
    &&& 0 <= p
    &&& p + 2 * k + 1 <= 8 * r.len()
    &&& forall|i: int| p <= i < p + k ==> bit_at(r, i) == 0
    &&& bit_at(r, p + k) == 1
    &&& bits_value(r, p + k + 1, k) == n + 1 - pow2(k as nat)
}

/// Exp-Golomb round trip, unsigned direction: decoding a stream that holds
/// the code word for `n` yields `n` and consumes exactly the code word.
pub proof fn lemma_ue_round_trip(r: Seq<u8>, p: int, n: u32)
    requires
        encodes_ue_at(r, p, n as nat),
    ensures
        s_ue(r, p) == Ok::<(u32, int), H264NalParseError>((
            n,
            p + 2 * (ue_klen(n as nat) as int) + 1,
        )),
{
    let k = ue_klen(n as nat) as int;
    lemma_ue_klen_le_32(n as nat);
    lemma_ue_klen_bounds(n as nat);
    lemma_lead_zeros_exact(r, p, k);
    assert(lead_zeros(r, p) == k);
    assert(pow2(k as nat) - 1 + bits_value(r, p + k + 1, k) == n);
}

/// The unsigned Exp-Golomb value whose signed mapping is `m`.
pub open spec fn ue_of_se(m: int) -> nat {
    if m > 0 {
        (2 * m - 1) as nat
    } else {
        (-2 * m) as nat
    }
}

/// Exp-Golomb round trip, signed direction, for all `m` in
/// `[-2^30, 2^30]`: decoding a stream that holds the code word for
/// `ue_of_se(m)` yields `m`.
pub proof fn lemma_se_round_trip(r: Seq<u8>, p: int, m: i32)
    requires
        -0x4000_0000 <= m <= 0x4000_0000,
        encodes_ue_at(r, p, ue_of_se(m as int)),
    ensures
        s_se(r, p) == Ok::<(i32, int), H264NalParseError>((
            m,
            p + 2 * (ue_klen(ue_of_se(m as int)) as int) + 1,
        )),
{
    let u = ue_of_se(m as int);
    assert(u <= 0x8000_0000);
    lemma_ue_round_trip(r, p, (u as u32));
    assert(se_of_ue(u) == m);
}

/// Smallest `y >= 0` with `pow2(y) >= n`; the ceiling of the base-two
/// logarithm for `n >= 1`.
pub open spec fn clog2(n: int) -> int
    decreases n,
{
    if n <= 1 {
        0
    } else {
        1 + clog2((n + 1) / 2)
    }
}

pub proof fn lemma_clog2_bounds(n: int)
    requires
        n >= 1,
    ensures
        clog2(n) >= 0,
        pow2(clog2(n) as nat) >= n,
        clog2(n) > 0 ==> pow2((clog2(n) - 1) as nat) < n,
    decreases n,
{
    if n <= 1 {
        lemma2_to64();
    } else {
        let m = (n + 1) / 2;
        lemma_fundamental_div_mod(n + 1, 2);
        lemma_mod_division_less_than_divisor(n + 1, 2);
        assert(n <= 2 * m <= n + 1);
        lemma_clog2_bounds(m);
        let c = clog2(m);
        assert(clog2(n) == 1 + c);
        lemma_pow2_unfold((c + 1) as nat);
        assert(pow2((c + 1) as nat) == 2 * pow2(c as nat) >= 2 * m >= n);
        if c > 0 {
            lemma_pow2_unfold(c as nat);
            assert(pow2(c as nat) == 2 * pow2((c - 1) as nat) <= 2 * (m - 1) < n);
        } else {
            assert(pow2(0) == 1 < n) by {
                lemma2_to64();
            }
        }
    }
}

pub proof fn lemma_clog2_unique(n: int, y: int)
    requires
        n >= 1,
        y >= 0,
        pow2(y as nat) >= n,
        y > 0 ==> pow2((y - 1) as nat) < n,
    ensures
        y == clog2(n),
{
    lemma_clog2_bounds(n);
    let c = clog2(n);
    if y < c {
        if y < c - 1 {
            lemma_pow2_strictly_increases(y as nat, (c - 1) as nat);
        }
        assert(pow2(y as nat) <= pow2((c - 1) as nat));
        assert(false);
    } else if y > c {
        if c < y - 1 {
            lemma_pow2_strictly_increases(c as nat, (y - 1) as nat);
        }
        assert(pow2(c as nat) <= pow2((y - 1) as nat));
        assert(false);
    }
}

/// Above `pow2(32)` the ceiling log exceeds 32.
pub proof fn lemma_clog2_at_least_33(n: int)
    requires
        n > 0x100000000,
    ensures
        clog2(n) > 32,
{
    lemma_clog2_bounds(n);
    if clog2(n) <= 32 {
        if clog2(n) < 32 {
            lemma_pow2_strictly_increases(clog2(n) as nat, 32);
        }
        assert(pow2(32) == 0x100000000) by {
            lemma2_to64();
        }
        assert(false);
    }
}

/// The ceiling log of exactly `pow2(32)`.
pub proof fn lemma_clog2_pow32(n: int)
    requires
        n == 0x100000000,
    ensures
        clog2(n) == 32,
{
    assert(pow2(32) == 0x100000000 && pow2(31) == 0x80000000) by {
        lemma2_to64();
    }
    lemma_clog2_unique(n, 32);
}

/// `pow2` as an executable value.
pub fn pow2_u64(k: u32) -> (r: u64)
    requires
        k <= 63,
    ensures
        r == pow2(k as nat),
{
    let mut r: u64 = 1;
    let mut i: u32 = 0;
    proof {
        lemma2_to64();
    }
    while i < k
        invariant
            i <= k <= 63,
            r == pow2(i as nat),
        decreases k - i,
    {
        proof {
            lemma_pow2_unfold((i + 1) as nat);
            lemma_pow2_strictly_increases((i + 1) as nat, 64);
            assert(pow2(64) == 0x10000000000000000) by {
                lemma2_to64_rest();
            }
        }
        r = r * 2;
        i = i + 1;
    }
    r
}

} // verus!
