//! Conversion of normalized wire scalars to integer device axis values.
//!
//! A [`Norm`] holds the bit pattern of the 64-bit IEEE-754 value the sender
//! wrote. Scaling multiplies that value by the axis maximum and truncates
//! toward zero; because the pattern encodes an exact rational
//! (`mantissa * 2^(exponent - 1075)`), the whole conversion is integer
//! arithmetic and is verified against the exact mathematical result.

use vstd::prelude::*;
use vstd::arithmetic::power2::{
    pow2, lemma_pow2_adds, lemma_pow2_pos, lemma_pow2_strictly_increases, lemma_pow2_unfold,
    lemma2_to64, lemma2_to64_rest,
};
use vstd::arithmetic::div_mod::lemma_basic_div;

use crate::event::Norm;

verus! {

/// `2^52`, the width of the binary64 fraction field.
pub const FRAC_UNIT: u64 = 0x10_0000_0000_0000;

/// `2^63`, the position of the binary64 sign bit.
pub const SIGN_UNIT: u64 = 0x8000_0000_0000_0000;

/// Whether the encoded value is negative.
pub open spec fn sign_of(bits: u64) -> bool {
    bits / SIGN_UNIT == 1
}

/// The 11-bit biased exponent field.
pub open spec fn exp_field(bits: u64) -> u64 {
    (bits / FRAC_UNIT) % 0x800
}

/// The 52-bit fraction field.
pub open spec fn frac_field(bits: u64) -> u64 {
    bits % FRAC_UNIT
}

/// An exponent field of all ones with a nonzero fraction encodes no number.
pub open spec fn is_nan_bits(bits: u64) -> bool {
    exp_field(bits) == 0x7FF && frac_field(bits) != 0
}

/// An exponent field of all ones with a zero fraction encodes an infinity.
pub open spec fn is_inf_bits(bits: u64) -> bool {
    exp_field(bits) == 0x7FF && frac_field(bits) == 0
}

/// The full significand of a finite value: the fraction field, with the
/// implicit leading bit set for normal values.
pub open spec fn mantissa_of(bits: u64) -> nat {
    if exp_field(bits) == 0 {
        frac_field(bits) as nat
    } else {
        (frac_field(bits) + FRAC_UNIT) as nat
    }
}

/// The effective biased exponent of a finite value: subnormals share the
/// exponent of the smallest normals. The encoded magnitude is
/// `mantissa_of(bits) * 2^(bin_exp_of(bits) - 1075)`.
pub open spec fn bin_exp_of(bits: u64) -> nat {
    if exp_field(bits) == 0 {
        1
    } else {
        exp_field(bits) as nat
    }
}

/// The magnitude of the encoded value times `max`, truncated toward zero:
/// `mantissa * max * 2^(bin_exp - 1075)` with the power folded into a
/// floor division when the exponent is negative.
pub open spec fn scale_mag(bits: u64, max: u32) -> int {
    if bin_exp_of(bits) >= 1075 {
        mantissa_of(bits) * max * pow2((bin_exp_of(bits) - 1075) as nat)
    } else {
        mantissa_of(bits) * max / (pow2((1075 - bin_exp_of(bits)) as nat) as int)
    }
}

/// Applies the sign to a truncated magnitude and saturates to the `i32`
/// range of the device's event value field.
pub open spec fn saturate_signed(neg: bool, mag: int) -> i32 {
    if neg {
        if mag >= 0x8000_0000 {
            i32::MIN
        } else {
            (-mag) as i32
        }
    } else {
        if mag > 0x7FFF_FFFF {
            i32::MAX
        } else {
            mag as i32
        }
    }
}

/// What scaling a wire scalar against an axis maximum yields: the encoded
/// value times `max`, truncated toward zero and saturated to `i32`; zero
/// when the pattern encodes no number (also through `infinity * 0`).
pub open spec fn scale_spec(bits: u64, max: u32) -> i32 {
    if is_nan_bits(bits) {
        0
    } else if is_inf_bits(bits) {
        if max == 0 {
            0
        } else if sign_of(bits) {
            i32::MIN
        } else {
            i32::MAX
        }
    } else {
        saturate_signed(sign_of(bits), scale_mag(bits, max))
    }
}

/// `2^k` fits a `u128` for every `k` up to 127.
proof fn lemma_pow2_le_127(k: nat)
    requires
        k <= 127,
    ensures
        pow2(k) <= 0x8000_0000_0000_0000_0000_0000_0000_0000,
{
    lemma_pow2_adds(64, 63);
    lemma2_to64();
    lemma2_to64_rest();
    if k < 127 {
        lemma_pow2_strictly_increases(k, 127);
    }
}

/// Computes `2^e` as a `u128`.
fn pow2_u128(e: u64) -> (r: u128)
    requires
        e < 128,
    ensures
        r == pow2(e as nat),
{
    let mut r: u128 = 1;
    let mut i: u64 = 0;
    proof {
        lemma2_to64();
    }
    while i < e
        invariant
            i <= e,
            e < 128,
            r == pow2(i as nat),
        decreases e - i,
    {
        proof {
            lemma_pow2_unfold((i + 1) as nat);
            lemma_pow2_le_127((i + 1) as nat);
        }
        r = r * 2;
        i = i + 1;
    }
    r
}

impl Norm {
    /// Scales this wire scalar against an axis maximum: multiplies the
    /// encoded value by `max` and truncates toward zero, saturating to the
    /// `i32` event value range; a pattern that encodes no number scales
    /// to zero.
    pub fn scale(&self, max: u32) -> (r: i32)
        ensures
            r == scale_spec(self.bits, max),
    {
        let bits = self.bits;
        let neg: bool = bits / SIGN_UNIT == 1;
        let expf: u64 = (bits / FRAC_UNIT) % 0x800;
        let frac: u64 = bits % FRAC_UNIT;
        if expf == 0x7FF {
            if frac != 0 || max == 0 {
                0
            } else if neg {
                i32::MIN
            } else {
                i32::MAX
            }
        } else {
            let m: u64 = if expf == 0 { frac } else { frac + FRAC_UNIT };
            let e: u64 = if expf == 0 { 1 } else { expf };
            if e >= 1075 {
                // Here the value is an integer of magnitude at least 2^52,
                // so any nonzero axis maximum saturates.
                if max == 0 {
                    proof {
                        assert(scale_mag(bits, max) == 0) by {
                            assert(mantissa_of(bits) * max == 0);
                        }
                    }
                    0
                } else {
                    proof {
                        let mm = mantissa_of(bits);
                        let p = pow2((bin_exp_of(bits) - 1075) as nat);
                        lemma_pow2_pos((bin_exp_of(bits) - 1075) as nat);
                        assert(mm * max >= mm) by (nonlinear_arith)
                            requires
                                max >= 1,
                                mm >= 0,
                        ;
                        assert(mm * max * p >= mm * max) by (nonlinear_arith)
                            requires
                                p >= 1,
                                mm * max >= 0,
                        ;
                        assert(scale_mag(bits, max) >= 0x10_0000_0000_0000);
                    }
                    if neg {
                        i32::MIN
                    } else {
                        i32::MAX
                    }
                }
            } else {
                let shift: u64 = 1075 - e;
                proof {
                    lemma_pow2_adds(53, 32);
                    lemma2_to64();
                    lemma2_to64_rest();
                    assert((m as int) * (max as int) < 0x20_0000_0000_0000_0000_0000)
                        by (nonlinear_arith)
                        requires
                            0 <= m < 0x20_0000_0000_0000,
                            0 <= max < 0x1_0000_0000,
                    ;
                }
                let prod: u128 = (m as u128) * (max as u128);
                let mag: u128 = if shift >= 85 {
                    proof {
                        if shift > 85 {
                            lemma_pow2_strictly_increases(85, shift as nat);
                        }
                        lemma_basic_div(prod as int, pow2(shift as nat) as int);
                    }
                    0
                } else {
                    let divisor = pow2_u128(shift);
                    proof {
                        lemma_pow2_pos(shift as nat);
                    }
                    prod / divisor
                };
                proof {
                    assert(mag == scale_mag(bits, max));
                }
                if neg {
                    if mag >= 0x8000_0000 {
                        i32::MIN
                    } else {
                        let mi: i32 = mag as i32;
                        0 - mi
                    }
                } else {
                    if mag > 0x7FFF_FFFF {
                        i32::MAX
                    } else {
                        mag as i32
                    }
                }
            }
        }
    }
}

} // verus!
