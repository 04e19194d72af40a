//! Base-two logarithms and powers of two on machine integers.
use vstd::prelude::*;
use vstd::arithmetic::power2::{pow2, lemma_pow2_unfold, lemma_pow2_pos, lemma_pow2_strictly_increases, lemma2_to64};

verus! {

/// The base-two logarithm of `x`, rounded down (0 for 0 and 1).
pub open spec fn floor_log2(x: nat) -> nat
    decreases x,
{
    if x <= 1 {
        0
    } else {
        1 + floor_log2(x / 2)
    }
}

/// The smallest power of two that is at least `x` (1 for 0).
pub open spec fn next_pow2(x: nat) -> nat {
    if x <= 1 {
        1
    } else {
        pow2(floor_log2((x - 1) as nat) + 1)
    }
}

/// `floor_log2(x)` is the exponent of the largest power of two not above `x`.
pub proof fn lemma_floor_log2_bounds(x: nat)
    requires
        x >= 1,
    ensures
        pow2(floor_log2(x)) <= x < pow2(floor_log2(x) + 1),
    decreases x,
{
    if x <= 1 {
        lemma_pow2_unfold(1);
        lemma_pow2_pos(0);
        assert(pow2(0) == 1) by {
            vstd::arithmetic::power2::lemma2_to64();
        }
    } else {
        lemma_floor_log2_bounds(x / 2);
        lemma_pow2_unfold(floor_log2(x));
        lemma_pow2_unfold(floor_log2(x) + 1);
    }
}

/// A power of two bracketing `x` determines `floor_log2(x)`.
pub proof fn lemma_floor_log2_unique(x: nat, k: nat)
    requires
        pow2(k) <= x < pow2(k + 1),
    ensures
        floor_log2(x) == k,
{
    lemma_pow2_pos(k);
    lemma_floor_log2_bounds(x);
    let f = floor_log2(x);
    if f < k {
        if f + 1 < k {
            lemma_pow2_strictly_increases(f + 1, k);
        }
    } else if f > k {
        if k + 1 < f {
            lemma_pow2_strictly_increases(k + 1, f);
        }
    }
}

/// `pow2(e)` is at least 1, and `floor_log2(pow2(e)) == e`.
pub proof fn lemma_floor_log2_pow2(e: nat)
    ensures
        floor_log2(pow2(e)) == e,
{
    lemma_pow2_pos(e);
    if e < e + 1 {
        lemma_pow2_strictly_increases(e, e + 1);
    }
    lemma_floor_log2_unique(pow2(e), e);
}

/// `next_pow2(x)` is a power of two not below `x`, and half of it is below `x`.
pub proof fn lemma_next_pow2_bounds(x: nat)
    ensures
        next_pow2(x) >= x,
        next_pow2(x) >= 1,
        x > 1 ==> next_pow2(x) / 2 < x,
        exists|e: nat| next_pow2(x) == pow2(e),
{
    lemma2_to64();
    if x <= 1 {
        assert(next_pow2(x) == pow2(0));
    } else {
        let f = floor_log2((x - 1) as nat);
        lemma_floor_log2_bounds((x - 1) as nat);
        lemma_pow2_unfold(f + 1);
        assert(next_pow2(x) == pow2(f + 1));
    }
}

/// A power of two `p` with `p >= x` and `p / 2 < x` is `next_pow2(x)`.
pub proof fn lemma_next_pow2_unique(x: nat, e: nat)
    requires
        pow2(e) >= x,
        e == 0 || pow2((e - 1) as nat) < x,
    ensures
        next_pow2(x) == pow2(e),
{
    lemma2_to64();
    if x <= 1 {
        if e > 0 {
            lemma_pow2_pos((e - 1) as nat);
        }
    } else {
        if e == 0 {
            assert(false);
        } else {
            let k = (e - 1) as nat;
            lemma_pow2_unfold(e);
            assert(pow2(e) == 2 * pow2(k));
            lemma_floor_log2_unique((x - 1) as nat, k);
        }
    }
}

/// A power of two not below `x` is not below `next_pow2(x)`.
pub proof fn lemma_next_pow2_unique_le(x: nat, e: nat)
    requires
        x <= pow2(e),
    ensures
        next_pow2(x) <= pow2(e),
{
    lemma_pow2_pos(e);
    if x > 1 {
        let f = floor_log2((x - 1) as nat);
        lemma_floor_log2_bounds((x - 1) as nat);
        if f + 1 > e {
            if f > e {
                lemma_pow2_strictly_increases(e, f);
            }
        } else if f + 1 < e {
            lemma_pow2_strictly_increases(f + 1, e);
        }
    }
}

/// The base-two logarithm of `x`, rounded down; `x` must not be 0.
pub fn ilog2_u64(x: u64) -> (r: u32)
    requires
        x > 0,
    ensures
        r == floor_log2(x as nat),
        r < 64,
{
    let mut v: u64 = x;
    let mut r: u32 = 0;
    proof {
        lemma2_to64();
        assert(v as nat * pow2(0) == v);
    }
    while v > 1
        invariant
            v >= 1,
            r + floor_log2(v as nat) == floor_log2(x as nat),
            r <= 64,
            v as nat * pow2(r as nat) <= x,
        decreases v,
    {
        proof {
            lemma_pow2_unfold(r as nat + 1);
        }
        assert((v / 2) as nat * pow2(r as nat + 1) <= v as nat * pow2(r as nat)) by (nonlinear_arith)
            requires
                pow2(r as nat + 1) == 2 * pow2(r as nat),
        ;
        v = v / 2;
        r = r + 1;
        proof {
            lemma_pow2_pos(r as nat);
            if r >= 64 {
                lemma2_to64();
                if r > 64 {
                    lemma_pow2_strictly_increases(64, r as nat);
                }
                assert(v as nat * pow2(r as nat) >= pow2(64)) by (nonlinear_arith)
                    requires
                        v >= 1,
                        pow2(r as nat) >= pow2(64),
                ;
            }
        }
    }
    proof {
        if r >= 64 {
            lemma2_to64();
            if r > 64 {
                lemma_pow2_strictly_increases(64, r as nat);
            }
        }
    }
    r
}

/// The base-two logarithm of `x`, rounded down; `x` must not be 0.
pub fn ilog2_u32(x: u32) -> (r: u32)
    requires
        x > 0,
    ensures
        r == floor_log2(x as nat),
        r < 32,
{
    let r = ilog2_u64(x as u64);
    proof {
        lemma_floor_log2_bounds(x as nat);
        lemma2_to64();
        if r >= 32 {
            if r > 32 {
                lemma_pow2_strictly_increases(32, r as nat);
            }
        }
    }
    r
}

/// The smallest power of two that is at least `x`.
pub fn next_power_of_two_u64(x: u64) -> (r: u64)
    requires
        next_pow2(x as nat) <= u64::MAX,
    ensures
        r == next_pow2(x as nat),
{
    let mut p: u64 = 1;
    let ghost mut e: nat = 0;
    proof {
        lemma2_to64();
        lemma_next_pow2_bounds(x as nat);
    }
    while p < x
        invariant
            p == pow2(e),
            p >= 1,
            e == 0 || pow2((e - 1) as nat) < x,
            next_pow2(x as nat) <= u64::MAX,
            next_pow2(x as nat) >= x,
            exists|k: nat| next_pow2(x as nat) == pow2(k),
        decreases u64::MAX - p,
    {
        proof {
            lemma_pow2_unfold(e + 1);
            // p < x <= next_pow2(x) and both are powers of two, so 2 * p <= next_pow2(x)
            let k = choose|k: nat| next_pow2(x as nat) == pow2(k);
            if k <= e {
                if k < e {
                    lemma_pow2_strictly_increases(k, e);
                }
                assert(false);
            } else {
                if e + 1 < k {
                    lemma_pow2_strictly_increases(e + 1, k);
                }
            }
        }
        p = p * 2;
        proof {
            e = e + 1;
        }
    }
    proof {
        lemma_next_pow2_unique(x as nat, e);
    }
    p
}

/// The smallest power of two that is at least `x`.
pub fn next_power_of_two_u32(x: u32) -> (r: u32)
    requires
        next_pow2(x as nat) <= u32::MAX,
    ensures
        r == next_pow2(x as nat),
{
    next_power_of_two_u64(x as u64) as u32
}

} // verus!
