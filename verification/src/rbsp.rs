//! Model of emulation-prevention-byte removal: the RBSP byte sequence that
//! a NAL payload denotes, and the laws that relate it to the raw bytes.

use vstd::prelude::*;

verus! {

/// The RBSP bytes produced from `s[i..]`, starting in the state where the
/// last two bytes already kept are `p1` (the more recent) and `p2`, and
/// where `latch` says whether emulation-prevention detection is armed.
/// A `0x03` byte is dropped exactly when the latch is set and the two most
/// recently kept bytes are both zero; dropping disarms the latch for the
/// next byte only.
pub open spec fn unesc(s: Seq<u8>, i: int, p2: u8, p1: u8, latch: bool) -> Seq<u8>
    decreases s.len() - i,
{
    if i < 0 || i >= s.len() {
        Seq::empty()
    } else if latch && s[i] == 0x03 && p1 == 0x00 && p2 == 0x00 {
        unesc(s, i + 1, p2, p1, false)
    } else {
        seq![s[i]] + unesc(s, i + 1, p1, s[i], true)
    }
}

/// The RBSP byte sequence of a whole payload.  The initial sentinel bytes
/// are nonzero, so the first two payload bytes can never be dropped.
pub open spec fn rbsp_seq(s: Seq<u8>) -> Seq<u8> {
    unesc(s, 0, 0xFF, 0xFF, true)
}

/// Number of emulation-prevention bytes dropped from a whole payload.
pub open spec fn epb_total(s: Seq<u8>) -> int {
    s.len() - rbsp_seq(s).len()
}

pub proof fn lemma_unesc_len(s: Seq<u8>, i: int, p2: u8, p1: u8, latch: bool)
    requires
        0 <= i <= s.len(),
    ensures
        unesc(s, i, p2, p1, latch).len() <= s.len() - i,
    decreases s.len() - i,
{
    if i < s.len() {
        if latch && s[i] == 0x03 && p1 == 0x00 && p2 == 0x00 {
            lemma_unesc_len(s, i + 1, p2, p1, false);
        } else {
            lemma_unesc_len(s, i + 1, p1, s[i], true);
        }
    }
}


/// The unescaping state after the first `i` source bytes were processed:
/// the two most recently kept bytes (the nonzero sentinels at the start),
/// the emulation-prevention latch, and the number of bytes dropped so far.
pub open spec fn scan_state(s: Seq<u8>, i: int) -> (u8, u8, bool, int)
    decreases i,
{
    if i <= 0 {
        (0xFFu8, 0xFFu8, true, 0int)
    } else {
        let st = scan_state(s, i - 1);
        if st.2 && s[i - 1] == 0x03 && st.1 == 0x00 && st.0 == 0x00 {
            (st.0, st.1, false, st.3 + 1)
        } else {
            (st.1, s[i - 1], true, st.3)
        }
    }
}

/// Number of emulation-prevention bytes dropped among the first `i` source
/// bytes: it increments by exactly one at each dropped `0x03`.
pub open spec fn prefix_epbs(s: Seq<u8>, i: int) -> int {
    scan_state(s, i).3
}


/// Links the forward counter model to the stream model: the length of the
/// RBSP sequence accounts for exactly the bytes dropped so far plus the
/// bytes not yet processed.
proof fn lemma_scan_drops(s: Seq<u8>, i: int)
    requires
        0 <= i <= s.len(),
    ensures
        0 <= scan_state(s, i).3 <= i,
        rbsp_seq(s).len() == (i - scan_state(s, i).3) + unesc(
            s,
            i,
            scan_state(s, i).0,
            scan_state(s, i).1,
            scan_state(s, i).2,
        ).len(),
    decreases i,
{
    if i == 0 {
    } else {
        lemma_scan_drops(s, i - 1);
        let st = scan_state(s, i - 1);
        if st.2 && s[i - 1] == 0x03 && st.1 == 0x00 && st.0 == 0x00 {
            assert(unesc(s, i - 1, st.0, st.1, st.2) == unesc(s, i, st.0, st.1, false));
        } else {
            assert(unesc(s, i - 1, st.0, st.1, st.2) == seq![s[i - 1]] + unesc(
                s,
                i,
                st.1,
                s[i - 1],
                true,
            ));
        }
    }
}

/// The counter model counts every occurrence: over the whole payload, the
/// forward count of dropped bytes equals the number of bytes the RBSP
/// sequence is shorter by, one per dropped `0x03`, however many there are.
pub proof fn lemma_prefix_epbs_total(s: Seq<u8>)
    ensures
        prefix_epbs(s, s.len() as int) == epb_total(s),
        0 <= prefix_epbs(s, s.len() as int),
{
    lemma_scan_drops(s, s.len() as int);
    let st = scan_state(s, s.len() as int);
    assert(unesc(s, s.len() as int, st.0, st.1, st.2) =~= Seq::<u8>::empty());
}

/// No byte at index `k >= 2` of `s` completes the `00 00 03` pattern.
pub open spec fn no_epb_pattern(s: Seq<u8>) -> bool {
    forall|k: int|
        2 <= k < s.len() ==> !(#[trigger] s[k] == 0x03 && s[k - 1] == 0x00 && s[k - 2] == 0x00)
}

/// The state reached at index `i` when every earlier byte was kept: the two
/// previous source bytes, or the nonzero sentinels at the very start.
pub open spec fn prev1_at(s: Seq<u8>, i: int) -> u8 {
    if i >= 1 {
        s[i - 1]
    } else {
        0xFF
    }
}

pub open spec fn prev2_at(s: Seq<u8>, i: int) -> u8 {
    if i >= 2 {
        s[i - 2]
    } else {
        0xFF
    }
}

/// While no `00 00 03` pattern occurs in `s[i..j)`, every byte is kept.
pub proof fn lemma_unesc_keeps(s: Seq<u8>, i: int, j: int)
    requires
        0 <= i <= j <= s.len(),
        forall|k: int|
            i <= k < j && k >= 2 ==> !(#[trigger] s[k] == 0x03 && s[k - 1] == 0x00 && s[k - 2]
                == 0x00),
    ensures
        unesc(s, i, prev2_at(s, i), prev1_at(s, i), true) == s.subrange(i, j) + unesc(
            s,
            j,
            prev2_at(s, j),
            prev1_at(s, j),
            true,
        ),
    decreases j - i,
{
    if i == j {
        assert(s.subrange(i, j) + unesc(s, j, prev2_at(s, j), prev1_at(s, j), true) =~= unesc(
            s,
            i,
            prev2_at(s, i),
            prev1_at(s, i),
            true,
        ));
    } else {
        assert(!(s[i] == 0x03 && prev1_at(s, i) == 0x00 && prev2_at(s, i) == 0x00));
        lemma_unesc_keeps(s, i + 1, j);
        assert(prev1_at(s, i + 1) == s[i] && prev2_at(s, i + 1) == prev1_at(s, i));
        assert(unesc(s, i, prev2_at(s, i), prev1_at(s, i), true) =~= s.subrange(i, j) + unesc(
            s,
            j,
            prev2_at(s, j),
            prev1_at(s, j),
            true,
        ));
    }
}

/// One step of unescaping in which the byte at `i` is kept: it is the next
/// RBSP byte, and the remaining suffix unescapes to the rest.
pub proof fn lemma_unesc_step_keep(
    s: Seq<u8>,
    i: int,
    p2: u8,
    p1: u8,
    latch: bool,
    r: Seq<u8>,
    k: int,
)
    requires
        0 <= i < s.len(),
        !(latch && s[i] == 0x03 && p1 == 0x00 && p2 == 0x00),
        0 <= k <= r.len(),
        unesc(s, i, p2, p1, latch) == r.skip(k),
    ensures
        k < r.len(),
        r[k] == s[i],
        unesc(s, i + 1, p1, s[i], true) == r.skip(k + 1),
{
    broadcast use vstd::seq_lib::group_seq_properties;

    let u = unesc(s, i + 1, p1, s[i], true);
    assert(unesc(s, i, p2, p1, latch) == seq![s[i]] + u);
    assert(r.skip(k).len() == r.len() - k);
    assert((seq![s[i]] + u).len() == 1 + u.len());
    assert(k < r.len());
    assert(r.skip(k)[0] == r[k]);
    assert((seq![s[i]] + u)[0] == s[i]);
    assert(r.skip(k + 1) =~= u) by {
        assert(r.skip(k + 1).len() == r.len() - k - 1 == u.len());
        assert forall|t: int| 0 <= t < u.len() implies r.skip(k + 1)[t] == u[t] by {
            assert(r.skip(k + 1)[t] == r[k + 1 + t]);
            assert(r.skip(k)[t + 1] == r[k + t + 1]);
            assert((seq![s[i]] + u)[t + 1] == u[t]);
        }
    }
}

/// Unescaping depends only on the bytes not yet processed.
pub proof fn lemma_unesc_shift(s1: Seq<u8>, s2: Seq<u8>, i1: int, i2: int, p2: u8, p1: u8, latch: bool)
    requires
        0 <= i1 <= s1.len(),
        0 <= i2 <= s2.len(),
        s1.len() - i1 == s2.len() - i2,
        forall|t: int| 0 <= t < s1.len() - i1 ==> s1[i1 + t] == #[trigger] s2[i2 + t],
    ensures
        unesc(s1, i1, p2, p1, latch) == unesc(s2, i2, p2, p1, latch),
    decreases s1.len() - i1,
{
    if i1 == s1.len() {
        assert(unesc(s2, i2, p2, p1, latch) =~= Seq::<u8>::empty());
    } else {
        assert(s1[i1] == s2[i2]) by {
            assert(s1[i1 + 0] == s2[i2 + 0]);
        }
        assert forall|t: int| 0 <= t < s1.len() - (i1 + 1) implies s1[i1 + 1 + t]
            == #[trigger] s2[i2 + 1 + t] by {
            assert(s1[i1 + (t + 1)] == s2[i2 + (t + 1)]);
        }
        if latch && s1[i1] == 0x03 && p1 == 0x00 && p2 == 0x00 {
            lemma_unesc_shift(s1, s2, i1 + 1, i2 + 1, p2, p1, false);
        } else {
            lemma_unesc_shift(s1, s2, i1 + 1, i2 + 1, p1, s1[i1], true);
        }
    }
}

/// A payload without the `00 00 03` pattern unescapes to itself: nothing is
/// dropped.
pub proof fn lemma_rbsp_identity(s: Seq<u8>)
    requires
        no_epb_pattern(s),
    ensures
        rbsp_seq(s) == s,
        epb_total(s) == 0,
{
    lemma_unesc_keeps(s, 0, s.len() as int);
    assert(rbsp_seq(s) =~= s.subrange(0, s.len() as int) + unesc(
        s,
        s.len() as int,
        prev2_at(s, s.len() as int),
        prev1_at(s, s.len() as int),
        true,
    ));
    assert(rbsp_seq(s) =~= s);
}

/// Stripping one emulation-prevention byte: a `0x03` that follows two kept
/// zero bytes is dropped, and the stream reads exactly as if it were
/// absent, provided the next byte is not itself a `0x03`.
pub proof fn lemma_epb_strip(p: Seq<u8>, t: Seq<u8>)
    requires
        p.len() >= 2,
        p[p.len() - 1] == 0x00,
        p[p.len() - 2] == 0x00,
        no_epb_pattern(p),
        t.len() > 0 ==> t[0] != 0x03,
    ensures
        rbsp_seq(p + seq![0x03u8] + t) == rbsp_seq(p + t),
        epb_total(p + seq![0x03u8] + t) == epb_total(p + t) + 1,
{
    let s1 = p + seq![0x03u8] + t;
    let s2 = p + t;
    let pl = p.len() as int;
    assert forall|k: int| 0 <= k < pl implies s1[k] == p[k] && s2[k] == p[k] by {}
    lemma_unesc_keeps(s1, 0, pl);
    lemma_unesc_keeps(s2, 0, pl);
    assert(prev2_at(s1, 0) == 0xFF && prev1_at(s1, 0) == 0xFF);
    assert(s1.subrange(0, pl) =~= p);
    assert(s2.subrange(0, pl) =~= p);
    assert(prev1_at(s1, pl) == 0x00 && prev2_at(s1, pl) == 0x00);
    assert(prev1_at(s2, pl) == 0x00 && prev2_at(s2, pl) == 0x00);
    // In s1 the next byte is the emulation-prevention byte: it is dropped.
    assert(s1[pl] == 0x03);
    assert(unesc(s1, pl, 0x00, 0x00, true) == unesc(s1, pl + 1, 0x00, 0x00, false));
    if t.len() == 0 {
        assert(unesc(s1, pl + 1, 0x00, 0x00, false) =~= Seq::<u8>::empty());
        assert(unesc(s2, pl, 0x00, 0x00, true) =~= Seq::<u8>::empty());
        assert(rbsp_seq(s1) =~= rbsp_seq(s2));
    } else {
        // Both streams now face t[0], which is kept either way.
        assert(s1[pl + 1] == t[0]);
        assert(s2[pl] == t[0]);
        assert(unesc(s1, pl + 1, 0x00, 0x00, false) == seq![t[0]] + unesc(
            s1,
            pl + 2,
            0x00,
            t[0],
            true,
        ));
        assert(unesc(s2, pl, 0x00, 0x00, true) == seq![t[0]] + unesc(s2, pl + 1, 0x00, t[0], true));
        assert forall|u: int| 0 <= u < s1.len() - (pl + 2) implies s1[pl + 2 + u]
            == #[trigger] s2[pl + 1 + u] by {
            assert(s1[pl + 2 + u] == t[u + 1]);
            assert(s2[pl + 1 + u] == t[u + 1]);
        }
        lemma_unesc_shift(s1, s2, pl + 2, pl + 1, 0x00, t[0], true);
        assert(rbsp_seq(s1) =~= rbsp_seq(s2));
    }
    assert(s1.len() == s2.len() + 1);
}

} // verus!
