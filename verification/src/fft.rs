//! Index arithmetic of the ocean FFT: the butterfly lookup reorders the
//! `FFT_SIZE` sample columns by reversing the bits of each index.

use vstd::prelude::*;
use vstd::arithmetic::power2::{
    pow2, lemma_pow2_adds, lemma_pow2_pos, lemma_pow2_strictly_increases, lemma_pow2_unfold,
    lemma2_to64,
};
use vstd::arithmetic::div_mod::{lemma_div_basics, lemma_div_denominator};
use vstd::arithmetic::mul::lemma_mul_basics;

verus! {

/// The number whose binary digits are the lowest `l` bits of `i` in
/// reverse order: bit 0 of `i` becomes bit `l - 1`, and so on.
pub open spec fn spec_reversed_bits(i: int, l: nat) -> int
    decreases l,
{
    if l == 0 {
        0
    } else {
        (i % 2) * pow2((l - 1) as nat) + spec_reversed_bits(i / 2, (l - 1) as nat)
    }
}

/// A reversal of `l` bits is one of the `pow2(l)` values of `l` bits.
proof fn lemma_reversed_bits_bounds(i: int, l: nat)
    requires
        0 <= i,
    ensures
        0 <= spec_reversed_bits(i, l) < pow2(l),
    decreases l,
{
    if l == 0 {
        assert(pow2(0) == 1) by {
            lemma2_to64();
        }
    } else {
        lemma_reversed_bits_bounds(i / 2, (l - 1) as nat);
        lemma_pow2_unfold(l);
        assert(i % 2 == 0 || i % 2 == 1);
        assert((i % 2) * pow2((l - 1) as nat) <= pow2((l - 1) as nat));
    }
}

/// Powers of two are distinct.
proof fn lemma_pow2_injective(a: nat, b: nat)
    requires
        pow2(a) == pow2(b),
    ensures
        a == b,
{
    if a < b {
        lemma_pow2_strictly_increases(a, b);
    } else if b < a {
        lemma_pow2_strictly_increases(b, a);
    }
}

/// Reversal of the binary digits of `i` below `n`, for `n` a power of two:
/// the result's digit at position `p` is `i`'s digit at position
/// `log2(n) - 1 - p`.  Digits of `i` at or above `log2(n)` are ignored.
pub fn bit_reverse(i: i32, n: i32) -> (r: i32)
    requires
        0 <= i,
        0 < n <= 0x40000000,
        exists|l: nat| n == pow2(l),
    ensures
        forall|l: nat| n == pow2(l) ==> r == spec_reversed_bits(i as int, l),
        0 <= r < n,
{
    let ghost big_l: nat = choose|l: nat| n == pow2(l);
    let mut sum: i32 = 0;
    let mut w: i32 = 1;
    let mut m: i32 = n / 2;
    let ghost mut k: int = 0;
    proof {
        assert(pow2(0) == 1) by {
            lemma2_to64();
        }
        if big_l == 0 {
            assert(m == 0);
        } else {
            lemma_pow2_unfold(big_l);
            assert(m == pow2((big_l - 1) as nat));
        }
        assert(sum == spec_reversed_bits(i as int / pow2(big_l) as int, 0));
    }
    while 0 != m
        invariant
            0 <= i,
            0 < n <= 0x40000000,
            n == pow2(big_l),
            0 <= k <= big_l,
            k < big_l ==> m == pow2((big_l - 1 - k) as nat),
            k == big_l ==> m == 0,
            w == pow2(k as nat),
            sum == spec_reversed_bits(i as int / pow2((big_l - k) as nat) as int, k as nat),
            0 <= sum < pow2(k as nat),
        decreases m,
    {
        proof {
            if k >= big_l {
                lemma_pow2_pos((big_l - k) as nat);
                assert(false);
            }
            lemma_pow2_pos((big_l - 1 - k) as nat);
        }
        let ghost j: int = i as int / m as int;
        let bit: i32 = (i / m) % 2;
        proof {
            assert(bit == j % 2);
            assert(j % 2 == 0 || j % 2 == 1);
            assert(j >= 0);
            lemma_div_denominator(i as int, pow2((big_l - 1 - k) as nat) as int, 2);
            lemma_pow2_adds((big_l - 1 - k) as nat, 1);
            assert(pow2(1) == 2) by {
                lemma2_to64();
            }
            assert(j / 2 == i as int / pow2((big_l - k) as nat) as int);
            assert(spec_reversed_bits(j, (k + 1) as nat) == (j % 2) * pow2(k as nat)
                + spec_reversed_bits(j / 2, k as nat));
            lemma_pow2_unfold((k + 1) as nat);
            lemma_pow2_strictly_increases((k + 1) as nat, (big_l + 1) as nat);
            lemma_pow2_unfold((big_l + 1) as nat);
        }
        if bit == 1 {
            sum = sum + w;
        }
        proof {
            lemma_pow2_strictly_increases(k as nat, big_l as nat);
        }
        w = w * 2;
        m = m / 2;
        proof {
            if k + 1 < big_l {
                lemma_pow2_unfold((big_l - 1 - k) as nat);
                assert(m == pow2((big_l - 1 - (k + 1)) as nat));
            } else {
                assert(pow2((big_l - 1 - k) as nat) == 1);
                assert(m == 0);
            }
            lemma_reversed_bits_bounds(j, (k + 1) as nat);
            lemma_mul_basics(pow2(k as nat) as int);
            if j % 2 == 1 {
                assert((j % 2) * pow2(k as nat) == 1 * (pow2(k as nat) as int));
            } else {
                assert((j % 2) * pow2(k as nat) == 0 * (pow2(k as nat) as int));
            }
            assert(sum == spec_reversed_bits(j, (k + 1) as nat));
            k = k + 1;
        }
    }
    proof {
        if k < big_l {
            lemma_pow2_pos((big_l - 1 - k) as nat);
            assert(false);
        }
        assert(pow2(0) == 1) by {
            lemma2_to64();
        }
        assert(pow2((big_l - k) as nat) == 1);
        lemma_div_basics(i as int);
        assert(i as int / pow2((big_l - k) as nat) as int == i as int);
        assert(sum == spec_reversed_bits(i as int, big_l));
        lemma_reversed_bits_bounds(i as int, big_l);
        assert forall|l: nat| n == pow2(l) implies sum == spec_reversed_bits(i as int, l) by {
            lemma_pow2_injective(l, big_l);
        }
    }
    sum
}

} // verus!
