use vstd::arithmetic::power2::{
    lemma2_to64,
    lemma2_to64_rest,
    lemma_pow2_strictly_increases,
    lemma_pow2_unfold,
    pow2,
};
use vstd::prelude::*;

verus! {

/// A binary64 floating-point value, decoded from its bit pattern into plain
/// integers. A finite value is `(-1)^negative * significand * 2^exponent`.
#[derive(Debug, Clone, Copy, PartialEq, Eq, Structural)]
pub enum Number {
    NotANumber,
    Infinite { negative: bool },
    Finite { negative: bool, significand: u64, exponent: i32 },
}

pub const SIGN_UNIT: u64 = 0x8000_0000_0000_0000;

pub const EXPONENT_UNIT: u64 = 0x10_0000_0000_0000;

pub const EXPONENT_FIELD: u64 = 0x800;

pub const EXPONENT_ALL_ONES: u64 = 0x7ff;

/// The IEEE 754 binary64 layout: one sign bit, eleven exponent bits biased by
/// 1023, and fifty-two fraction bits with an implicit leading one when the
/// exponent field is neither all zeros (subnormal) nor all ones.
pub open spec fn decode(bits: u64) -> Number {
    let negative = bits / SIGN_UNIT == 1;
    let biased = (bits / EXPONENT_UNIT) % EXPONENT_FIELD;
    let fraction = bits % EXPONENT_UNIT;
    if biased == EXPONENT_ALL_ONES {
        if fraction == 0 {
            Number::Infinite { negative }
        } else {
            Number::NotANumber
        }
    } else if biased == 0 {
        Number::Finite { negative, significand: fraction, exponent: -1074i32 }
    } else {
        Number::Finite {
            negative,
            significand: (fraction + EXPONENT_UNIT) as u64,
            exponent: (biased - 1075) as i32,
        }
    }
}

/// `significand * 2^exponent > tm * 2^te`, exactly.
pub open spec fn exceeds(significand: nat, exponent: int, tm: nat, te: int) -> bool {
    let c = exponent - te;
    if c >= 0 {
        significand * pow2(c as nat) > tm
    } else {
        significand > tm * pow2((-c) as nat)
    }
}

/// The magnitude of `n` exceeds `tm * 2^te`; false for a value that is not finite.
pub open spec fn magnitude_above(n: Number, tm: nat, te: int) -> bool {
    match n {
        Number::Finite { significand, exponent, .. } => exceeds(
            significand as nat,
            exponent as int,
            tm,
            te,
        ),
        _ => false,
    }
}

/// `n` is a finite value below `-(tm * 2^te)`.
pub open spec fn below_negative(n: Number, tm: nat, te: int) -> bool {
    match n {
        Number::Finite { negative, .. } => negative && magnitude_above(n, tm, te),
        _ => false,
    }
}

pub open spec fn is_finite(n: Number) -> bool {
    n is Finite
}

impl Number {
    /// Decodes a binary64 bit pattern (as given by `f64::to_bits`).
    pub fn from_bits(bits: u64) -> (r: Number)
        ensures
            r == decode(bits),
    {
        let negative = bits / SIGN_UNIT == 1;
        let biased = (bits / EXPONENT_UNIT) % EXPONENT_FIELD;
        let fraction = bits % EXPONENT_UNIT;
        if biased == EXPONENT_ALL_ONES {
            if fraction == 0 {
                Number::Infinite { negative }
            } else {
                Number::NotANumber
            }
        } else if biased == 0 {
            Number::Finite { negative, significand: fraction, exponent: -1074 }
        } else {
            Number::Finite {
                negative,
                significand: fraction + EXPONENT_UNIT,
                exponent: biased as i32 - 1075,
            }
        }
    }
}

/// `2^k`, for `k` below 64.
fn power_of_two(k: u32) -> (r: u128)
    requires
        k < 64,
    ensures
        r == pow2(k as nat),
        r <= 0x8000_0000_0000_0000,
{
    proof {
        lemma2_to64();
        lemma2_to64_rest();
    }
    let mut r: u128 = 1;
    let mut i: u32 = 0;
    while i < k
        invariant
            i <= k < 64,
            r == pow2(i as nat),
            pow2(63) == 0x8000_0000_0000_0000,
        decreases k - i,
    {
        proof {
            lemma_pow2_unfold((i + 1) as nat);
            if i + 1 < 63 {
                lemma_pow2_strictly_increases((i + 1) as nat, 63);
            }
        }
        r = r * 2;
        i = i + 1;
    }
    proof {
        if k < 63 {
            lemma_pow2_strictly_increases(k as nat, 63);
        }
    }
    r
}

proof fn lemma_pow2_at_least_64(e: nat)
    requires
        e >= 64,
    ensures
        pow2(e) >= 0x1_0000_0000_0000_0000,
{
    lemma2_to64();
    if e > 64 {
        lemma_pow2_strictly_increases(64, e);
    }
}

/// Whether `significand * 2^exponent > tm * 2^te`, computed exactly.
pub fn magnitude_exceeds(significand: u64, exponent: i32, tm: u64, te: i32) -> (r: bool)
    ensures
        r == exceeds(significand as nat, exponent as int, tm as nat, te as int),
{
    let c: i64 = exponent as i64 - te as i64;
    if c >= 0 {
        if significand == 0 {
            return false;
        }
        if c >= 64 {
            proof {
                lemma_pow2_at_least_64(c as nat);
                assert(significand as nat * pow2(c as nat) >= pow2(c as nat)) by (nonlinear_arith)
                    requires
                        significand >= 1,
                ;
            }
            return true;
        }
        let p = power_of_two(c as u32);
        proof {
            assert(significand as nat * p <= 0xffff_ffff_ffff_ffff * 0x8000_0000_0000_0000)
                by (nonlinear_arith)
                requires
                    significand <= 0xffff_ffff_ffff_ffff,
                    p <= 0x8000_0000_0000_0000,
            ;
        }
        (significand as u128) * p > tm as u128
    } else {
        if tm == 0 {
            return significand > 0;
        }
        let d: i64 = -c;
        if d >= 64 {
            proof {
                lemma_pow2_at_least_64(d as nat);
                assert(tm as nat * pow2(d as nat) >= pow2(d as nat)) by (nonlinear_arith)
                    requires
                        tm >= 1,
                ;
            }
            return false;
        }
        let p = power_of_two(d as u32);
        proof {
            assert(tm as nat * p <= 0xffff_ffff_ffff_ffff * 0x8000_0000_0000_0000)
                by (nonlinear_arith)
                requires
                    tm <= 0xffff_ffff_ffff_ffff,
                    p <= 0x8000_0000_0000_0000,
            ;
        }
        (significand as u128) > (tm as u128) * p
    }
}

} // verus!
