use vstd::prelude::*;
use vstd::arithmetic::power2::{
    lemma2_to64, lemma2_to64_rest, lemma_pow2_pos, lemma_pow2_strictly_increases,
    lemma_pow2_unfold, pow2,
};
use crate::arith::{lemma_div_at_least, lemma_div_at_most, round_div};
use crate::error::TankError;

verus! {

/// How many steps of a [`Factor`] make one.
pub const SCALE: i32 = 65536;

/// A scale factor in fixed point: `raw` counts steps of 1/65536, so the
/// factor stands for the rational number `raw / 65536`.
#[derive(Clone, Copy, Debug, PartialEq, Eq, Structural)]
pub struct Factor {
    pub raw: i32,
}

/// The sign of a double-precision number, read from its bit pattern.
pub open spec fn f64_negative(bits: u64) -> bool {
    bits >= 0x8000_0000_0000_0000
}

/// The exponent field of a double-precision number.
pub open spec fn f64_exponent(bits: u64) -> int {
    (bits as int / 0x10_0000_0000_0000) % 2048
}

/// The fraction field of a double-precision number.
pub open spec fn f64_fraction(bits: u64) -> int {
    bits as int % 0x10_0000_0000_0000
}

/// The bit pattern stands for a number, not for an infinity or a NaN.
pub open spec fn f64_finite(bits: u64) -> bool {
    f64_exponent(bits) != 2047
}

/// The significand of a finite double-precision number: its magnitude is
/// the significand times two to the power [`f64_power`].
pub open spec fn f64_significand(bits: u64) -> int {
    if f64_exponent(bits) == 0 {
        f64_fraction(bits)
    } else {
        0x10_0000_0000_0000 + f64_fraction(bits)
    }
}

/// The power of two by which the significand is scaled.
pub open spec fn f64_power(bits: u64) -> int {
    if f64_exponent(bits) == 0 {
        -1074
    } else {
        f64_exponent(bits) - 1075
    }
}

/// A finite double-precision number in steps of 1/65536, rounded to the
/// nearest step, a half away from zero.
pub open spec fn f64_steps(bits: u64) -> int {
    let p = f64_power(bits) + 16;
    let magnitude = if p >= 0 {
        f64_significand(bits) * pow2(p as nat)
    } else {
        round_div(f64_significand(bits), pow2((-p) as nat) as int)
    };
    if f64_negative(bits) {
        -magnitude
    } else {
        magnitude
    }
}

/// Two to the power `k`.
fn power_of_two(k: u64) -> (p: u64)
    requires
        k <= 53,
    ensures
        p == pow2(k as nat),
        1 <= p <= 0x20_0000_0000_0000,
{
    let mut p: u64 = 1;
    let mut i: u64 = 0;
    proof {
        lemma2_to64();
        lemma2_to64_rest();
    }
    while i < k
        invariant
            i <= k <= 53,
            p == pow2(i as nat),
            1 <= p <= 0x20_0000_0000_0000,
            pow2(53) == 0x20_0000_0000_0000,
        decreases k - i,
    {
        proof {
            lemma_pow2_unfold((i + 1) as nat);
            if i + 1 < 53 {
                lemma_pow2_strictly_increases((i + 1) as nat, 53);
            }
        }
        p = p * 2;
        i = i + 1;
    }
    p
}

impl Factor {
    /// True when the factor lies between zero and one, both included.
    pub open spec fn is_fraction(self) -> bool {
        0 <= self.raw <= SCALE
    }

    /// The factor that stands for `raw / 65536`.
    pub fn from_raw(raw: i32) -> (f: Factor)
        ensures
            f.raw == raw,
    {
        Factor { raw }
    }

    /// The factor one.
    pub fn one() -> (f: Factor)
        ensures
            f.raw == SCALE,
    {
        Factor { raw: SCALE }
    }

    /// Tells whether the factor lies between zero and one.
    pub fn in_unit_range(&self) -> (yes: bool)
        ensures
            yes == self.is_fraction(),
    {
        0 <= self.raw && self.raw <= SCALE
    }

    /// The factor nearest to a double-precision number, given by its bit
    /// pattern. An infinity, a NaN and a number whose nearest step does not
    /// fit in 32 bits are refused.
    pub fn from_f64_bits(bits: u64) -> (r: Result<Factor, TankError>)
        ensures
            r.is_ok() <==> f64_finite(bits) && i32::MIN <= f64_steps(bits) <= i32::MAX,
            r matches Ok(f) ==> f.raw == f64_steps(bits),
            r matches Err(e) ==> e == TankError::InvalidParameter,
    {
        let exponent: u64 = (bits / 0x10_0000_0000_0000) % 2048;
        let fraction: u64 = bits % 0x10_0000_0000_0000;
        let negative = bits >= 0x8000_0000_0000_0000;
        proof {
            lemma2_to64();
            lemma2_to64_rest();
        }
        if exponent == 2047 {
            return Err(TankError::InvalidParameter);
        }
        if exponent == 0 {
            proof {
                let p = pow2(1058) as int;
                lemma_pow2_strictly_increases(53, 1058);
                lemma_div_at_least(2 * fraction + p, 2 * p, 0);
                lemma_div_at_most(2 * fraction + p, 2 * p, 0);
            }
            return Ok(Factor { raw: 0 });
        }
        let significand: u64 = 0x10_0000_0000_0000 + fraction;
        if exponent >= 1059 {
            proof {
                let p = pow2((exponent - 1059) as nat) as int;
                lemma_pow2_pos((exponent - 1059) as nat);
                assert(significand * p >= significand) by (nonlinear_arith)
                    requires
                        p >= 1,
                        significand >= 0,
                ;
            }
            return Err(TankError::InvalidParameter);
        }
        let k: u64 = 1059 - exponent;
        if k >= 54 {
            proof {
                let p = pow2(k as nat) as int;
                if k > 54 {
                    lemma_pow2_strictly_increases(54, k as nat);
                }
                lemma_pow2_unfold(54);
                lemma_div_at_least(2 * significand + p, 2 * p, 0);
                lemma_div_at_most(2 * significand + p, 2 * p, 0);
            }
            return Ok(Factor { raw: 0 });
        }
        if k < 21 {
            proof {
                let p = pow2(k as nat) as int;
                lemma_pow2_pos(k as nat);
                lemma_pow2_strictly_increases(k as nat, 21);
                lemma_div_at_least(2 * significand + p, 2 * p, 0x8000_0001);
            }
            return Err(TankError::InvalidParameter);
        }
        let p = power_of_two(k);
        let magnitude: u64 = (2 * significand + p) / (2 * p);
        assert(magnitude == round_div(significand as int, p as int));
        if negative {
            if magnitude <= 0x8000_0000 {
                Ok(Factor { raw: (-(magnitude as i64)) as i32 })
            } else {
                Err(TankError::InvalidParameter)
            }
        } else {
            if magnitude <= 0x7fff_ffff {
                Ok(Factor { raw: magnitude as i32 })
            } else {
                Err(TankError::InvalidParameter)
            }
        }
    }
}

} // verus!
