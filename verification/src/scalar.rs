//! Fractional quantities, carried by their bit pattern.

use vstd::arithmetic::div_mod::lemma_basic_div;
use vstd::arithmetic::power2::{
    lemma2_to64, lemma2_to64_rest, lemma_pow2_pos, lemma_pow2_strictly_increases,
    lemma_pow2_unfold, pow2,
};
use vstd::bits::{lemma_u64_pow2_no_overflow, lemma_u64_shl_is_mul, lemma_u64_shr_is_div};
use vstd::prelude::*;

verus! {

/// A 64-bit IEEE 754 quantity (a scale factor, a length in logical pixels),
/// held as its bit pattern.
///
/// The protocol moves such quantities from one thread to another and never
/// computes on them, so two values are equal here exactly when their bits
/// are: a NaN equals itself, and the two zeros differ.
#[derive(Clone, Copy, Debug, PartialEq, Eq, Hash, Structural)]
pub struct Scalar {
    bits: u64,
}

/// The bits of one.
pub const ONE_BITS: u64 = 0x3ff0_0000_0000_0000;

/// The exponent field of a bit pattern.
pub open spec fn exponent_of(bits: u64) -> nat {
    ((bits >> 52) & 0x7ff) as nat
}

/// The fraction field of a bit pattern.
pub open spec fn fraction_of(bits: u64) -> nat {
    (bits & 0xf_ffff_ffff_ffff) as nat
}

/// Whether the sign bit is set.
pub open spec fn is_negative(bits: u64) -> bool {
    bits >> 63 == 1
}

/// Whether a bit pattern is no number.
pub open spec fn is_nan(bits: u64) -> bool {
    exponent_of(bits) == 0x7ff && fraction_of(bits) != 0
}

/// Whether a bit pattern is an infinity.
pub open spec fn is_infinite(bits: u64) -> bool {
    exponent_of(bits) == 0x7ff && fraction_of(bits) == 0
}

/// The significand of a finite bit pattern: its magnitude is the
/// significand times two to the power of its scale less 1075.
pub open spec fn significand(bits: u64) -> nat {
    if exponent_of(bits) == 0 {
        fraction_of(bits)
    } else {
        fraction_of(bits) + pow2(52)
    }
}

/// The scale of a finite bit pattern.
pub open spec fn scale(bits: u64) -> nat {
    if exponent_of(bits) == 0 {
        1
    } else {
        exponent_of(bits)
    }
}

/// The magnitude of a finite bit pattern, rounded to the nearest whole
/// number, a half going up.
#[verifier::opaque]
pub open spec fn rounded_magnitude(bits: u64) -> nat {
    if scale(bits) >= 1075 {
        significand(bits) * pow2((scale(bits) - 1075) as nat)
    } else {
        (significand(bits) + pow2((1074 - scale(bits)) as nat)) / pow2(
            (1075 - scale(bits)) as nat,
        )
    }
}

/// The whole number of pixels nearest to a length, a half going away from
/// zero: nothing for what is no number or below zero, and the greatest
/// number where the length is beyond it.
pub open spec fn pixels_of(bits: u64) -> u32 {
    if is_nan(bits) || is_negative(bits) {
        0
    } else if is_infinite(bits) || rounded_magnitude(bits) > u32::MAX {
        u32::MAX
    } else {
        rounded_magnitude(bits) as u32
    }
}

/// The whole coordinate nearest to a quantity, a half going away from
/// zero: zero for what is no number, and the least or the greatest
/// coordinate where the quantity is beyond it.
pub open spec fn coordinate_of(bits: u64) -> i32 {
    if is_nan(bits) {
        0
    } else if is_negative(bits) {
        if is_infinite(bits) || rounded_magnitude(bits) > 0x8000_0000 {
            i32::MIN
        } else {
            (-(rounded_magnitude(bits) as int)) as i32
        }
    } else {
        if is_infinite(bits) || rounded_magnitude(bits) > i32::MAX {
            i32::MAX
        } else {
            rounded_magnitude(bits) as i32
        }
    }
}

/// The rounded magnitude of a finite bit pattern, as far as it matters: any
/// magnitude beyond 2^32 is told as 2^32.
fn rounded_capped(bits: u64) -> (r: u64)
    requires
        exponent_of(bits) != 0x7ff,
    ensures
        r <= 0x1_0000_0000,
        rounded_magnitude(bits) <= 0x1_0000_0000 ==> r == rounded_magnitude(bits),
        rounded_magnitude(bits) > 0x1_0000_0000 ==> r == 0x1_0000_0000,
{
    reveal(rounded_magnitude);
    let e: u64 = (bits >> 52) & 0x7ff;
    let f: u64 = bits & 0xf_ffff_ffff_ffff;
    assert(e <= 0x7ff) by (bit_vector)
        requires
            e == (bits >> 52) & 0x7ff,
    ;
    assert(f < 0x10_0000_0000_0000) by (bit_vector)
        requires
            f == bits & 0xf_ffff_ffff_ffff,
    ;
    proof {
        lemma2_to64();
        lemma2_to64_rest();
    }
    let s: u64 = if e == 0 {
        1
    } else {
        e
    };
    let m: u64 = if e == 0 {
        f
    } else {
        f + 0x10_0000_0000_0000
    };
    assert(m == significand(bits));
    assert(s == scale(bits));
    if s >= 1075 {
        proof {
            let p = pow2((s - 1075) as nat);
            lemma_pow2_pos((s - 1075) as nat);
            assert(m * p >= m) by (nonlinear_arith)
                requires
                    p >= 1,
                    m >= 0,
            ;
        }
        0x1_0000_0000
    } else {
        let k: u64 = 1075 - s;
        if k > 53 {
            proof {
                let half = pow2((k - 1) as nat);
                lemma_pow2_unfold(k as nat);
                if k - 1 > 53 {
                    lemma_pow2_strictly_increases(53, (k - 1) as nat);
                }
                lemma_pow2_pos(k as nat);
                lemma_basic_div((m + half) as int, pow2(k as nat) as int);
            }
            0
        } else {
            proof {
                lemma_u64_pow2_no_overflow((k - 1) as nat);
                if k - 1 < 52 {
                    lemma_pow2_strictly_increases((k - 1) as nat, 52);
                }
                lemma_u64_shl_is_mul(1u64, (k - 1) as u64);
            }
            let half: u64 = 1u64 << (k - 1);
            assert(half == pow2((k - 1) as nat));
            let sum: u64 = m + half;
            proof {
                lemma_u64_shr_is_div(sum, k);
            }
            let r: u64 = sum >> k;
            assert(r == rounded_magnitude(bits));
            if r > 0x1_0000_0000 {
                0x1_0000_0000
            } else {
                r
            }
        }
    }
}

impl Scalar {
    /// The bit pattern of the quantity.
    pub closed spec fn bits_spec(self) -> u64 {
        self.bits
    }

    /// The quantity with the given bit pattern.
    pub fn from_bits(bits: u64) -> (r: Scalar)
        ensures
            r.bits_spec() == bits,
    {
        Scalar { bits }
    }

    /// The bit pattern of the quantity.
    #[verifier::when_used_as_spec(bits_spec)]
    pub fn to_bits(self) -> (bits: u64)
        ensures
            bits == self.bits_spec(),
    {
        self.bits
    }

    /// One.
    pub fn one() -> (r: Scalar)
        ensures
            r.bits_spec() == ONE_BITS,
    {
        Scalar { bits: ONE_BITS }
    }

    /// The whole number of pixels nearest to a length: see [`pixels_of`].
    pub fn to_pixels(self) -> (pixels: u32)
        ensures
            pixels == pixels_of(self.bits_spec()),
    {
        let bits: u64 = self.bits;
        let e: u64 = (bits >> 52) & 0x7ff;
        let f: u64 = bits & 0xf_ffff_ffff_ffff;
        let negative = (bits >> 63) == 1;
        if e == 0x7ff {
            if f != 0 || negative {
                0
            } else {
                u32::MAX
            }
        } else if negative {
            0
        } else {
            let r: u64 = rounded_capped(bits);
            if r > 0xffff_ffff {
                u32::MAX
            } else {
                r as u32
            }
        }
    }

    /// The whole coordinate nearest to a quantity: see [`coordinate_of`].
    pub fn to_coordinate(self) -> (coordinate: i32)
        ensures
            coordinate == coordinate_of(self.bits_spec()),
    {
        let bits: u64 = self.bits;
        let e: u64 = (bits >> 52) & 0x7ff;
        let f: u64 = bits & 0xf_ffff_ffff_ffff;
        let negative = (bits >> 63) == 1;
        if e == 0x7ff {
            if f != 0 {
                0
            } else if negative {
                i32::MIN
            } else {
                i32::MAX
            }
        } else {
            let r: u64 = rounded_capped(bits);
            if negative {
                if r > 0x8000_0000 {
                    i32::MIN
                } else {
                    (-(r as i64)) as i32
                }
            } else {
                if r > 0x7fff_ffff {
                    i32::MAX
                } else {
                    r as i32
                }
            }
        }
    }
}

} // verus!
