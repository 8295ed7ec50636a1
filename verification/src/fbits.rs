//! Widening a 64-bit signed integer to the bit pattern of the nearest
//! 64-bit IEEE-754 double, rounding to nearest with ties to even. This is
//! the only arithmetic the decoder needs when the safe-integer policy is
//! off, and carrying bit patterns keeps the codec in the integer world.
use vstd::prelude::*;
use vstd::arithmetic::power2::{lemma2_to64, lemma_pow2_unfold, pow2};

verus! {

/// The position of the highest set bit of `n` (zero for zero and one).
pub open spec fn msb(n: nat) -> nat
    decreases n,
{
    if n < 2 {
        0
    } else {
        1 + msb(n / 2)
    }
}

/// `msb` stays below `j` for values below `pow2(j)`.
proof fn lemma_msb_below(n: nat, j: nat)
    requires
        j >= 1,
        n < pow2(j),
    ensures
        msb(n) < j,
    decreases j,
{
    if n >= 2 {
        lemma2_to64();
        lemma_pow2_unfold(j);
        lemma_msb_below(n / 2, (j - 1) as nat)
    }
}

/// The low 52 bits of a double's bit pattern, as a mask.
pub open spec fn mantissa_mask() -> u64 {
    0xF_FFFF_FFFF_FFFF
}

/// The bit pattern of the double nearest to `mag` (ties to even), with the
/// sign bit set when `sign` holds. Magnitudes of 53 bits or fewer are
/// exact; wider ones are rounded in the last retained bit.
pub open spec fn f64_bits_of_mag(sign: bool, mag: u64) -> u64 {
    let sign_bit: u64 = if sign {
        1u64 << 63u64
    } else {
        0u64
    };
    if mag == 0 {
        sign_bit
    } else {
        let k = msb(mag as nat) as u64;
        if k <= 52 {
            sign_bit | (((1023 + k) as u64) << 52u64) | ((mag << ((52 - k) as u64))
                & mantissa_mask())
        } else {
            let sh = ((k - 52) as u64);
            let keep = mag >> sh;
            let rem = mag & (((1u64 << sh) - 1) as u64);
            let half = 1u64 << (((sh - 1) as u64));
            let rounded = if rem > half || (rem == half && (keep & 1) == 1) {
                (keep + 1) as u64
            } else {
                keep
            };
            if rounded == 1u64 << 53u64 {
                sign_bit | (((1024 + k) as u64) << 52u64)
            } else {
                sign_bit | (((1023 + k) as u64) << 52u64) | (rounded & mantissa_mask())
            }
        }
    }
}

/// The bit pattern of the double nearest to `v` (ties to even).
pub open spec fn f64_bits_of_i64(v: i64) -> u64 {
    if v >= 0 {
        f64_bits_of_mag(false, v as u64)
    } else {
        f64_bits_of_mag(true, (-(v as int)) as u64)
    }
}

/// Computes the position of the highest set bit of `mag`.
fn msb_u64(mag: u64) -> (k: u64)
    requires
        mag >= 1,
    ensures
        k == msb(mag as nat),
        k <= 63,
{
    proof {
        lemma2_to64();
        lemma_msb_below(mag as nat, 64);
    }
    let mut k: u64 = 0;
    let mut t: u64 = mag;
    while t >= 2
        invariant
            t >= 1,
            msb(mag as nat) == k + msb(t as nat),
            k + msb(t as nat) <= 63,
        decreases t,
    {
        t = t / 2;
        k = k + 1;
    }
    k
}

/// Widens `v` to the bit pattern of the nearest double, ties to even.
pub fn f64_bits_from_i64(v: i64) -> (r: u64)
    ensures
        r == f64_bits_of_i64(v),
{
    let sign = v < 0;
    let mag = crate::text::magnitude_u64(v);
    let sign_bit: u64 = if sign {
        1u64 << 63u64
    } else {
        0u64
    };
    if mag == 0 {
        return sign_bit;
    }
    let k = msb_u64(mag);
    if k <= 52 {
        sign_bit | ((1023u64 + k) << 52u64) | ((mag << (52u64 - k)) & 0xF_FFFF_FFFF_FFFF)
    } else {
        let sh = k - 52;
        proof {
            assert(mag >> sh <= 0x7FFF_FFFF_FFFF_FFFFu64) by (bit_vector)
                requires
                    1u64 <= sh < 64u64,
            ;
            assert(1u64 << sh >= 1u64) by (bit_vector)
                requires
                    sh < 64u64,
            ;
        }
        let keep = mag >> sh;
        let rem = mag & ((1u64 << sh) - 1);
        let half = 1u64 << (sh - 1);
        let rounded = if rem > half || (rem == half && (keep & 1) == 1) {
            keep + 1
        } else {
            keep
        };
        if rounded == 1u64 << 53u64 {
            sign_bit | ((1024u64 + k) << 52u64)
        } else {
            sign_bit | ((1023u64 + k) << 52u64) | (rounded & 0xF_FFFF_FFFF_FFFF)
        }
    }
}

} // verus!
