//! The x264 VBV buffer size, which the encoder tuning derives from the
//! bitrate in single-precision floating point: `(bitrate as f32 * 0.05) as
//! u32`, at least 100. The computation is carried out here on integers that
//! follow IEEE-754 binary32 round-to-nearest-even exactly.

use vstd::prelude::*;
use vstd::arithmetic::power2::{pow2, lemma_pow2_adds, lemma_pow2_pos, lemma_pow2_unfold, lemma_pow2_strictly_increases};

verus! {

/// Number of binary digits of `x` (0 for 0).
pub open spec fn bit_len(x: nat) -> nat
    decreases x,
{
    if x == 0 { 0 } else { 1 + bit_len(x / 2) }
}

/// `x` rounded to `F32_PRECISION` significant binary digits, ties to even:
/// the value that a binary32 float holds for `x` (no overflow arises for the
/// magnitudes used here).
pub open spec fn round_f32(x: nat) -> nat {
    if bit_len(x) <= F32_PRECISION as nat {
        x
    } else {
        let s = (bit_len(x) - F32_PRECISION as nat) as nat;
        let q = x / pow2(s);
        let r = x % pow2(s);
        let h = pow2((s - 1) as nat);
        if r > h || (r == h && q % 2 == 1) {
            ((q + 1) * pow2(s)) as nat
        } else {
            (q * pow2(s)) as nat
        }
    }
}

/// Significand width of binary32, hidden bit included.
pub const F32_PRECISION: u64 = 24;

/// The significand of the binary32 constant `0.05`; its value is
/// `FIVE_HUNDREDTHS_SIGNIFICAND * 2^-28`.
pub const FIVE_HUNDREDTHS_SIGNIFICAND: u64 = 13421773;

/// `(bitrate as f32 * 0.05) as u32`, at least 100.
pub open spec fn vbv_bufsize_spec(bitrate: u32) -> u32 {
    let f = round_f32(bitrate as nat);
    let product = round_f32(f * FIVE_HUNDREDTHS_SIGNIFICAND as nat);
    let t = product / pow2(28);
    if t < 100 { 100 } else { t as u32 }
}

proof fn lemma_bit_len_bounds(x: nat)
    ensures
        x < pow2(bit_len(x)),
        x > 0 ==> pow2((bit_len(x) - 1) as nat) <= x,
    decreases x,
{
    vstd::arithmetic::power2::lemma2_to64();
    if x > 0 {
        let h = x / 2;
        lemma_bit_len_bounds(h);
        let b = bit_len(x);
        assert(b == 1 + bit_len(h));
        lemma_pow2_unfold(b);
        assert(pow2(b) == 2 * pow2(bit_len(h)));
        assert(x < pow2(b));
        if h > 0 {
            lemma_pow2_unfold(bit_len(h));
            assert(pow2(bit_len(h)) == 2 * pow2((bit_len(h) - 1) as nat));
            assert(pow2((b - 1) as nat) <= x);
        } else {
            assert(x == 1);
            assert(b == 1);
        }
    }
}

proof fn lemma_bit_len_le(x: nat, k: nat)
    requires
        x < pow2(k),
    ensures
        bit_len(x) <= k,
{
    lemma_bit_len_bounds(x);
    if bit_len(x) > k {
        if k < bit_len(x) - 1 {
            lemma_pow2_strictly_increases(k, (bit_len(x) - 1) as nat);
        }
        assert(pow2(k) <= pow2((bit_len(x) - 1) as nat));
    }
}

proof fn lemma_pow2_le(a: nat, b: nat)
    requires
        a <= b,
    ensures
        pow2(a) <= pow2(b),
{
    if a < b {
        lemma_pow2_strictly_increases(a, b);
    }
}

fn bit_len_of(x: u64) -> (n: u64)
    ensures
        n as nat == bit_len(x as nat),
        n <= 64,
{
    let mut t = x;
    let mut n: u64 = 0;
    proof {
        vstd::arithmetic::power2::lemma2_to64_rest();
        lemma_bit_len_le(x as nat, 64);
    }
    while t > 0
        invariant
            bit_len(x as nat) == n + bit_len(t as nat),
            n + bit_len(t as nat) <= 64,
        decreases t,
    {
        proof {
            assert(bit_len(t as nat) == 1 + bit_len((t / 2) as nat));
        }
        t = t / 2;
        n = n + 1;
    }
    n
}

fn pow2_of(k: u64) -> (p: u64)
    requires
        k <= 60,
    ensures
        p as nat == pow2(k as nat),
{
    let mut p: u64 = 1;
    let mut i: u64 = 0;
    proof {
        vstd::arithmetic::power2::lemma2_to64();
    }
    while i < k
        invariant
            i <= k <= 60,
            p as nat == pow2(i as nat),
        decreases k - i,
    {
        proof {
            lemma_pow2_unfold((i + 1) as nat);
            lemma_pow2_strictly_increases((i + 1) as nat, 61);
            assert(pow2(61) == 0x2000_0000_0000_0000) by {
                vstd::arithmetic::power2::lemma2_to64_rest();
            }
        }
        p = p * 2;
        i = i + 1;
    }
    p
}

/// `x` as binary32 would hold it.
pub fn round_to_f32(x: u64) -> (r: u64)
    requires
        x < 0x0200_0000_0000_0000,
    ensures
        r as nat == round_f32(x as nat),
        r as nat <= pow2(bit_len(x as nat)),
{
    let bl = bit_len_of(x);
    proof {
        lemma_bit_len_bounds(x as nat);
        assert(pow2(57) == 0x0200_0000_0000_0000) by {
            vstd::arithmetic::power2::lemma2_to64_rest();
        }
        lemma_bit_len_le(x as nat, 57);
    }
    if bl <= 24 {
        return x;
    }
    let s = bl - 24;
    let p = pow2_of(s);
    proof {
        lemma_pow2_pos(s as nat);
        lemma_pow2_adds(s as nat, 24);
        assert(pow2(24) == 0x100_0000) by {
            vstd::arithmetic::power2::lemma2_to64();
        }
        lemma_pow2_unfold(s as nat);
    }
    let q = x / p;
    let r = x % p;
    let h = p / 2;
    proof {
        assert(x < p * 0x100_0000);
        assert(q < 0x100_0000) by (nonlinear_arith)
            requires
                x < p * 0x100_0000,
                q == x / p,
                p > 0,
        {
        }
        assert(h as nat == pow2((s - 1) as nat));
        assert(pow2(bl as nat) == p * 0x100_0000);
        lemma_pow2_le(bl as nat, 57);
        assert((q + 1) * p <= 0x100_0000 * p) by (nonlinear_arith)
            requires
                q < 0x100_0000,
                p > 0,
        {
        }
    }
    if r > h || (r == h && q % 2 == 1) {
        (q + 1) * p
    } else {
        proof {
            assert(q * p <= (q + 1) * p) by (nonlinear_arith)
                requires
                    p > 0,
            {
            }
        }
        q * p
    }
}

/// The VBV buffer size in kbit for the given bitrate in kbit/s:
/// `(bitrate as f32 * 0.05) as u32`, at least 100.
pub fn vbv_bufsize(bitrate: u32) -> (r: u32)
    ensures
        r == vbv_bufsize_spec(bitrate),
        r >= 100,
{
    proof {
        vstd::arithmetic::power2::lemma2_to64();
        vstd::arithmetic::power2::lemma2_to64_rest();
    }
    let f = round_to_f32(bitrate as u64);
    proof {
        lemma_bit_len_le(bitrate as nat, 32);
        lemma_pow2_le(bit_len(bitrate as nat), 32);
        assert(f <= 0x1_0000_0000);
    }
    let n = f * FIVE_HUNDREDTHS_SIGNIFICAND;
    let product = round_to_f32(n);
    proof {
        assert(n < 0x0100_0000_0000_0000);
        lemma_bit_len_le(n as nat, 56);
        lemma_pow2_le(bit_len(n as nat), 56);
    }
    let t = product / 0x1000_0000;
    if t < 100 {
        100
    } else {
        t as u32
    }
}

} // verus!
