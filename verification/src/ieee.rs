//! Integers as IEEE 754 single-precision bit patterns.
//!
//! Shaders read resolutions as 32-bit floating-point numbers.  The library
//! works on integers throughout, so it writes such a number as the bit
//! pattern of the nearest single-precision value: sign 0, a biased exponent,
//! and 23 fraction bits, rounding ties to the even neighbour.

use vstd::prelude::*;

verus! {

/// Two to the power `e`.
pub open spec fn two_to(e: nat) -> nat
    decreases e,
{
    if e == 0 {
        1
    } else {
        2 * two_to((e - 1) as nat)
    }
}

/// The position of the highest set bit of `n`; 0 for 0.
pub open spec fn log2_floor(n: nat) -> nat
    decreases n,
{
    if n < 2 {
        0
    } else {
        1 + log2_floor(n / 2)
    }
}

/// `n / d` rounded to the nearest integer, a tie going to the even one.
pub open spec fn round_half_even(n: nat, d: nat) -> nat
    recommends
        d > 0,
{
    let q = n / d;
    let r = n % d;
    if 2 * r > d || (2 * r == d && q % 2 == 1) {
        q + 1
    } else {
        q
    }
}

/// The 24-bit significand of `n`: `n` scaled so that its highest bit is bit
/// 23, rounded where bits are lost.  It may round up to `2^24`.
pub open spec fn significand(n: nat) -> nat {
    let e = log2_floor(n);
    if e <= 23 {
        n * two_to((23 - e) as nat)
    } else {
        round_half_even(n, two_to((e - 23) as nat))
    }
}

/// The bit pattern of the single-precision number nearest to `n`.
///
/// The exponent field holds `127 + log2_floor(n)` and the fraction field the
/// significand without its leading bit; a significand that rounded up to
/// `2^24` carries into the exponent, which is what the sum does.
pub open spec fn single_of(n: nat) -> nat {
    if n == 0 {
        0
    } else {
        ((127 + log2_floor(n)) * 8388608 + significand(n) - 8388608) as nat
    }
}

/// Powers of two multiply by adding exponents.
pub proof fn lemma_two_to_add(a: nat, b: nat)
    ensures
        two_to(a) * two_to(b) == two_to(a + b),
    decreases a,
{
    if a > 0 {
        lemma_two_to_add((a - 1) as nat, b);
        assert(two_to(a + b) == 2 * two_to(((a - 1) as nat) + b));
        assert(two_to(a) * two_to(b) == 2 * (two_to((a - 1) as nat) * two_to(b))) by (nonlinear_arith)
            requires
                two_to(a) == 2 * two_to((a - 1) as nat),
        ;
    } else {
        assert(two_to(a) == 1);
        assert(a + b == b);
    }
}

/// Powers of two grow with the exponent.
pub proof fn lemma_two_to_monotone(a: nat, b: nat)
    requires
        a <= b,
    ensures
        0 < two_to(a) <= two_to(b),
    decreases b,
{
    if a < b {
        lemma_two_to_monotone(a, (b - 1) as nat);
    } else if a > 0 {
        lemma_two_to_monotone((a - 1) as nat, (a - 1) as nat);
    }
}

/// The values of the powers of two that matter here.
pub proof fn lemma_two_to_values()
    ensures
        two_to(23) == 8388608,
        two_to(24) == 16777216,
        two_to(32) == 4294967296,
{
    reveal_with_fuel(two_to, 12);
    assert(two_to(11) == 2048);
    lemma_two_to_add(11, 11);
    lemma_two_to_add(11, 1);
    lemma_two_to_add(22, 1);
    lemma_two_to_add(23, 1);
    lemma_two_to_add(22, 10);
    assert(two_to(10) == 1024);
    assert(two_to(22) == 4194304);
}

/// A number between `2^e` and `2^(e+1)` has its highest bit at `e`.
pub proof fn lemma_log2_floor(n: nat, e: nat)
    requires
        two_to(e) <= n < two_to(e + 1),
    ensures
        log2_floor(n) == e,
    decreases e,
{
    if e > 0 {
        lemma_two_to_monotone(1, e);
        assert(two_to(1) == 2) by {
            reveal_with_fuel(two_to, 2);
        }
        lemma_log2_floor(n / 2, (e - 1) as nat);
    }
}

/// The bit pattern of the single-precision number nearest to `n`.
pub fn single_bits(n: u32) -> (bits: u32)
    ensures
        bits == single_of(n as nat),
{
    if n == 0 {
        return 0;
    }
    proof {
        lemma_two_to_values();
    }
    let wide: u64 = n as u64;
    let mut e: u64 = 0;
    let mut p: u64 = 1;
    while 2 * p <= wide
        invariant
            p == two_to(e as nat),
            1 <= p <= wide,
            wide == n,
            e <= 31,
        decreases wide - p,
    {
        proof {
            lemma_two_to_values();
            assert(two_to((e + 1) as nat) == 2 * p);
            if e >= 31 {
                lemma_two_to_monotone(32, (e + 1) as nat);
            }
        }
        p = 2 * p;
        e = e + 1;
    }
    proof {
        lemma_log2_floor(n as nat, e as nat);
    }
    let kept: u64 = if e <= 23 {
        let mut scale: u64 = 1;
        let mut k: u64 = e;
        while k < 23
            invariant
                e <= k <= 23,
                scale == two_to((k - e) as nat),
                1 <= scale <= 8388608,
            decreases 23 - k,
        {
            proof {
                lemma_two_to_monotone((k + 1 - e) as nat, 23);
                lemma_two_to_values();
            }
            scale = 2 * scale;
            k = k + 1;
        }
        proof {
            lemma_two_to_add(e as nat, (23 - e) as nat);
            lemma_two_to_add((e + 1) as nat, (23 - e) as nat);
            lemma_two_to_values();
            assert(8388608 <= wide * scale < 16777216) by (nonlinear_arith)
                requires
                    p <= wide < 2 * p,
                    p * scale == 8388608,
                    scale > 0,
            ;
        }
        wide * scale
    } else {
        let mut d: u64 = 1;
        let mut k: u64 = 23;
        while k < e
            invariant
                23 <= k <= e <= 31,
                d == two_to((k - 23) as nat),
                1 <= d <= 256,
            decreases e - k,
        {
            proof {
                lemma_two_to_monotone((k + 1 - 23) as nat, 8);
                reveal_with_fuel(two_to, 9);
            }
            d = 2 * d;
            k = k + 1;
        }
        let q: u64 = wide / d;
        let r: u64 = wide % d;
        proof {
            lemma_two_to_add(23, (e - 23) as nat);
            lemma_two_to_values();
            assert(8388608 <= q < 16777216) by (nonlinear_arith)
                requires
                    p <= wide < 2 * p,
                    p == 8388608 * d,
                    d > 0,
                    q == wide / d,
            ;
        }
        if 2 * r > d || (2 * r == d && q % 2 == 1) {
            q + 1
        } else {
            q
        }
    };
    ((127 + e) * 8388608 + kept - 8388608) as u32
}

} // verus!
