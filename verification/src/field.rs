//! A concrete model of the proving backend's scalar field.
//!
//! Values are `u64` integers reduced modulo the Mersenne prime `2^31 - 1`, so
//! every product of two reduced values fits in a `u64` computed through
//! `u128`. The random-linear-combination encoding used by the lookup binder
//! keeps its challenge scalar as an explicit parameter throughout.

use vstd::prelude::*;

verus! {

/// The prime modulus of the field model.
pub const FIELD_MODULUS: u64 = 2147483647;

/// A reduced field element.
pub open spec fn is_fp(x: u64) -> bool {
    x < FIELD_MODULUS
}

pub open spec fn spec_fp_add(a: u64, b: u64) -> u64 {
    (((a + b) % (FIELD_MODULUS as int))) as u64
}

pub open spec fn spec_fp_sub(a: u64, b: u64) -> u64 {
    (((a + FIELD_MODULUS - b) % (FIELD_MODULUS as int))) as u64
}

pub open spec fn spec_fp_mul(a: u64, b: u64) -> u64 {
    (((a * b) % (FIELD_MODULUS as int))) as u64
}

/// Reduction of an arbitrary machine integer into the field.
pub open spec fn spec_fp_of(x: u64) -> u64 {
    (x % FIELD_MODULUS) as u64
}

pub fn fp_of(x: u64) -> (r: u64)
    ensures
        is_fp(r),
        r == spec_fp_of(x),
{
    x % FIELD_MODULUS
}

pub fn fp_add(a: u64, b: u64) -> (r: u64)
    requires
        is_fp(a),
        is_fp(b),
    ensures
        is_fp(r),
        r == spec_fp_add(a, b),
{
    (a + b) % FIELD_MODULUS
}

pub fn fp_sub(a: u64, b: u64) -> (r: u64)
    requires
        is_fp(a),
        is_fp(b),
    ensures
        is_fp(r),
        r == spec_fp_sub(a, b),
{
    (a + FIELD_MODULUS - b) % FIELD_MODULUS
}

pub fn fp_mul(a: u64, b: u64) -> (r: u64)
    requires
        is_fp(a),
        is_fp(b),
    ensures
        is_fp(r),
        r == spec_fp_mul(a, b),
{
    assert(a * b <= (FIELD_MODULUS - 1) * (FIELD_MODULUS - 1)) by (nonlinear_arith)
        requires
            a < FIELD_MODULUS,
            b < FIELD_MODULUS,
    ;
    let wide: u128 = (a as u128) * (b as u128);
    let reduced: u128 = wide % (FIELD_MODULUS as u128);
    reduced as u64
}

/// Whether `i` is the materialized modular inverse belonging to a track
/// value `c`: zero when the value is zero, the true inverse otherwise.
/// Asserting `c * (1 - c*i) = 0`, `i * (1 - c*i) = 0` and reading
/// `1 - c*i` as the zero indicator is the standard way of proving "this
/// value is exactly zero" with multiplication alone.
pub open spec fn spec_inv_pair_ok(c: u64, i: u64) -> bool {
    if c == 0 {
        i == 0
    } else {
        spec_fp_mul(c, i) == 1
    }
}

/// The inverse table of the countdown values, as a function: the track is
/// fully determined by the countdown beside it.
pub open spec fn spec_inv_countdown(v: u64) -> u64 {
    if v == 0 {
        0
    } else if v == 1 {
        1
    } else if v == 2 {
        1073741824
    } else if v == 3 {
        1431655765
    } else if v == 4 {
        536870912
    } else if v == 5 {
        858993459
    } else if v == 6 {
        1789569706
    } else if v == 7 {
        1840700269
    } else if v == 8 {
        268435456
    } else if v == 9 {
        1908874353
    } else if v == 10 {
        1503238553
    } else if v == 11 {
        1952257861
    } else if v == 12 {
        894784853
    } else if v == 13 {
        1486719448
    } else if v == 14 {
        1994091958
    } else if v == 15 {
        286331153
    } else if v == 16 {
        134217728
    } else if v == 17 {
        252645135
    } else if v == 18 {
        2028179000
    } else if v == 19 {
        1017229096
    } else if v == 20 {
        1825361100
    } else {
        0
    }
}

/// The modular inverse of a countdown value, which never exceeds the
/// maximum block height; zero maps to zero by the zero-test convention.
pub fn fp_inv_countdown(v: u64) -> (r: u64)
    requires
        v < 21,
    ensures
        is_fp(r),
        spec_inv_pair_ok(v, r),
        r == spec_inv_countdown(v),
{
    match v {
        0 => 0,
        1 => {
            proof {
                assert(spec_fp_mul(1, 1) == 1) by (nonlinear_arith);
            }
            1
        },
        2 => {
            proof {
                assert(spec_fp_mul(2, 1073741824) == 1) by (nonlinear_arith);
            }
            1073741824
        },
        3 => {
            proof {
                assert(spec_fp_mul(3, 1431655765) == 1) by (nonlinear_arith);
            }
            1431655765
        },
        4 => {
            proof {
                assert(spec_fp_mul(4, 536870912) == 1) by (nonlinear_arith);
            }
            536870912
        },
        5 => {
            proof {
                assert(spec_fp_mul(5, 858993459) == 1) by (nonlinear_arith);
            }
            858993459
        },
        6 => {
            proof {
                assert(spec_fp_mul(6, 1789569706) == 1) by (nonlinear_arith);
            }
            1789569706
        },
        7 => {
            proof {
                assert(spec_fp_mul(7, 1840700269) == 1) by (nonlinear_arith);
            }
            1840700269
        },
        8 => {
            proof {
                assert(spec_fp_mul(8, 268435456) == 1) by (nonlinear_arith);
            }
            268435456
        },
        9 => {
            proof {
                assert(spec_fp_mul(9, 1908874353) == 1) by (nonlinear_arith);
            }
            1908874353
        },
        10 => {
            proof {
                assert(spec_fp_mul(10, 1503238553) == 1) by (nonlinear_arith);
            }
            1503238553
        },
        11 => {
            proof {
                assert(spec_fp_mul(11, 1952257861) == 1) by (nonlinear_arith);
            }
            1952257861
        },
        12 => {
            proof {
                assert(spec_fp_mul(12, 894784853) == 1) by (nonlinear_arith);
            }
            894784853
        },
        13 => {
            proof {
                assert(spec_fp_mul(13, 1486719448) == 1) by (nonlinear_arith);
            }
            1486719448
        },
        14 => {
            proof {
                assert(spec_fp_mul(14, 1994091958) == 1) by (nonlinear_arith);
            }
            1994091958
        },
        15 => {
            proof {
                assert(spec_fp_mul(15, 286331153) == 1) by (nonlinear_arith);
            }
            286331153
        },
        16 => {
            proof {
                assert(spec_fp_mul(16, 134217728) == 1) by (nonlinear_arith);
            }
            134217728
        },
        17 => {
            proof {
                assert(spec_fp_mul(17, 252645135) == 1) by (nonlinear_arith);
            }
            252645135
        },
        18 => {
            proof {
                assert(spec_fp_mul(18, 2028179000) == 1) by (nonlinear_arith);
            }
            2028179000
        },
        19 => {
            proof {
                assert(spec_fp_mul(19, 1017229096) == 1) by (nonlinear_arith);
            }
            1017229096
        },
        20 => {
            proof {
                assert(spec_fp_mul(20, 1825361100) == 1) by (nonlinear_arith);
            }
            1825361100
        },
        _ => {
            proof {
                assert(false);
            }
            0
        },
    }
}

/// Horner evaluation of the random linear combination
/// `v_0 + c * (v_1 + c * (v_2 + ...))`, i.e. `sum_i v_i * c^i` in the field.
pub open spec fn spec_rlc(vals: Seq<u64>, challenge: u64) -> u64
    decreases vals.len(),
{
    if vals.len() == 0 {
        0u64
    } else {
        spec_fp_add(
            spec_fp_of(vals[0]),
            spec_fp_mul(challenge, spec_rlc(vals.subrange(1, vals.len() as int), challenge)),
        )
    }
}

/// Random linear combination of a tuple of values under an explicit
/// challenge scalar; the single shared challenge is what makes values of
/// different tables comparable.
pub fn rlc(vals: &Vec<u64>, challenge: u64) -> (r: u64)
    requires
        is_fp(challenge),
    ensures
        is_fp(r),
        r == spec_rlc(vals@, challenge),
{
    let mut acc: u64 = 0;
    let mut i: usize = vals.len();
    while i > 0
        invariant
            i <= vals.len(),
            is_fp(challenge),
            is_fp(acc),
            acc == spec_rlc(vals@.subrange(i as int, vals@.len() as int), challenge),
        decreases i,
    {
        i = i - 1;
        let v = fp_of(vals[i]);
        acc = fp_add(v, fp_mul(challenge, acc));
        assert(vals@.subrange(i as int, vals@.len() as int).subrange(
            1,
            vals@.subrange(i as int, vals@.len() as int).len() as int,
        ) =~= vals@.subrange(i + 1, vals@.len() as int));
    }
    assert(vals@.subrange(0, vals@.len() as int) =~= vals@);
    acc
}

} // verus!
