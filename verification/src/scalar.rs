use vstd::prelude::*;
use vstd::arithmetic::div_mod::{
    lemma_div_multiples_vanish, lemma_fundamental_div_mod, lemma_fundamental_div_mod_converse,
    lemma_mod_bound, lemma_mod_multiples_basic,
};
use vstd::arithmetic::power2::{
    lemma2_to64, lemma_pow2_adds, lemma_pow2_pos, lemma_pow2_strictly_increases,
    lemma_pow2_unfold, pow2,
};

verus! {

/// The bits of the single-precision number 0.
pub const SCALAR_ZERO: u32 = 0;

/// The bits of the single-precision number 1.
pub const SCALAR_ONE: u32 = 0x3F80_0000;

/// The bits of the single-precision number -1.
pub const SCALAR_MINUS_ONE: u32 = 0xBF80_0000;

/// The bit that tells a negative number from a positive one.
pub const SIGN_BIT: u32 = 0x8000_0000;

/// The `e` with `2^e <= v < 2^(e+1)`, for a positive `v`.
pub open spec fn binary_exponent(v: nat) -> nat
    decreases v,
{
    if v <= 1 {
        0
    } else {
        1 + binary_exponent(v / 2)
    }
}

/// The bits of the single-precision number nearest to the whole number `v`,
/// the one with the even significand where two are equally near.
///
/// With `e` the binary exponent of `v`, the biased exponent `127 + e` stands
/// above bit 23 and the significand, without its leading one, below. Up to
/// `2^24` every whole number has such a form of its own; beyond, the numbers
/// that have one lie `2^(e-23)` apart and `v` is rounded to one of them.
pub open spec fn scalar_of_nat(v: nat) -> nat {
    if v == 0 {
        0
    } else {
        let e = binary_exponent(v);
        if e <= 23 {
            (126 + e) * pow2(23) + v * pow2((23 - e) as nat)
        } else {
            let step = pow2((e - 23) as nat);
            let q = v / step;
            let r = v % step;
            let up: nat = if 2 * r > step || (2 * r == step && q % 2 == 1) {
                1
            } else {
                0
            };
            (126 + e) * pow2(23) + q + up
        }
    }
}

/// The bits of the single-precision number nearest to the whole number `v`,
/// negative or not.
pub open spec fn scalar_of_int(v: int) -> nat {
    if v < 0 {
        pow2(31) + scalar_of_nat((-v) as nat)
    } else {
        scalar_of_nat(v as nat)
    }
}

/// The biased exponent that `bits` hold.
pub open spec fn exponent_field(bits: nat) -> nat {
    (bits / pow2(23)) % 256
}

/// The significand that `bits` hold, without its leading one.
pub open spec fn fraction_field(bits: nat) -> nat {
    bits % pow2(23)
}

/// Whether `bits` are those of the positive whole number `value`: with the
/// exponent `e` and the fraction `f` that they hold, the number
/// `(1 + f / 2^23) * 2^(e - 127)` is `value`.
pub open spec fn encodes(bits: nat, value: nat) -> bool {
    let e = exponent_field(bits);
    let f = fraction_field(bits);
    &&& bits < pow2(31)
    &&& 127 <= e < 255
    &&& if e >= 150 {
        (pow2(23) + f) * pow2((e - 150) as nat) == value
    } else {
        pow2(23) + f == value * pow2((150 - e) as nat)
    }
}

/// The distance between the single-precision numbers around `v`, for a `v`
/// of `2^24` or more.
pub open spec fn spacing(v: nat) -> nat {
    pow2((binary_exponent(v) - 23) as nat)
}

/// The multiple of [`spacing`] that is nearest to `v`, the even multiple
/// where two are equally near.
pub open spec fn nearest_multiple(v: nat) -> nat {
    let step = spacing(v);
    let q = v / step;
    let r = v % step;
    if 2 * r > step || (2 * r == step && q % 2 == 1) {
        (q + 1) * step
    } else {
        q * step
    }
}

/// A positive number lies between the power of two of its binary exponent
/// and the next power of two.
pub proof fn lemma_binary_exponent_bounds(v: nat)
    requires
        v >= 1,
    ensures
        pow2(binary_exponent(v)) <= v < 2 * pow2(binary_exponent(v)),
    decreases v,
{
    lemma2_to64();
    if v > 1 {
        lemma_binary_exponent_bounds(v / 2);
        lemma_pow2_unfold(binary_exponent(v));
    }
}

/// The binary exponent does not fall as the number grows.
pub proof fn lemma_binary_exponent_below(v: nat, e: nat)
    requires
        1 <= v < pow2(e),
    ensures
        binary_exponent(v) < e,
{
    lemma_binary_exponent_bounds(v);
    if binary_exponent(v) >= e {
        if binary_exponent(v) > e {
            lemma_pow2_strictly_increases(e, binary_exponent(v));
        }
    }
}

/// Up to `2^24` the bits stand for the number itself: nothing is rounded.
pub proof fn lemma_small_numbers_are_exact(v: nat)
    requires
        1 <= v < pow2(24),
    ensures
        encodes(scalar_of_nat(v), v),
{
    lemma2_to64();
    let e = binary_exponent(v);
    lemma_binary_exponent_bounds(v);
    lemma_binary_exponent_below(v, 24);
    let scale = pow2((23 - e) as nat);
    let top = pow2(e);
    lemma_pow2_adds(e, (23 - e) as nat);
    lemma_pow2_pos((23 - e) as nat);
    assert(top * scale == 0x80_0000);
    let m = v * scale;
    assert(m >= top * scale) by (nonlinear_arith)
        requires
            m == v * scale,
            v >= top,
            scale >= 1,
    ;
    assert(m < 2 * (top * scale)) by (nonlinear_arith)
        requires
            m == v * scale,
            v < 2 * top,
            scale >= 1,
    ;
    let bits = scalar_of_nat(v);
    let f = (m - 0x80_0000) as nat;
    assert(bits == (127 + e) * 0x80_0000 + f) by (nonlinear_arith)
        requires
            bits == (126 + e) * 0x80_0000 + m,
            f == m - 0x80_0000,
    ;
    lemma_fields(127 + e, f);
    assert(bits < pow2(31)) by (nonlinear_arith)
        requires
            bits == (127 + e) * 0x80_0000 + f,
            e <= 23,
            f < 0x80_0000,
            pow2(31) == 0x8000_0000,
    ;
    if e == 23 {
        assert(m == v) by (nonlinear_arith)
            requires
                m == v * scale,
                scale == 1,
        ;
        assert((pow2(23) + f) * pow2(0) == v) by (nonlinear_arith)
            requires
                pow2(23) + f == v,
                pow2(0) == 1,
        ;
    }
}

/// From `2^24` on the bits stand for the nearest number that has bits of
/// its own: a multiple of the spacing, at most half a spacing away, and
/// the even multiple where `v` lies in the middle between two.
pub proof fn lemma_large_numbers_are_rounded_to_nearest(v: nat)
    requires
        pow2(24) <= v < pow2(32),
    ensures
        encodes(scalar_of_nat(v), nearest_multiple(v)),
        nearest_multiple(v) % spacing(v) == 0,
        2 * (nearest_multiple(v) - v) <= spacing(v),
        2 * (v - nearest_multiple(v)) <= spacing(v),
        2 * (nearest_multiple(v) - v) == spacing(v) || 2 * (v - nearest_multiple(v)) == spacing(v)
            ==> (nearest_multiple(v) / spacing(v)) % 2 == 0,
{
    lemma2_to64();
    let e = binary_exponent(v);
    lemma_binary_exponent_bounds(v);
    lemma_binary_exponent_below(v, 32);
    if e < 24 {
        if e < 23 {
            lemma_pow2_strictly_increases(e + 1, 24);
        }
        lemma_pow2_unfold(e + 1);
        assert(false);
    }
    let step = spacing(v);
    let k = (e - 23) as nat;
    lemma_pow2_pos(k);
    lemma_pow2_adds(k, 23);
    let top = pow2(e);
    assert(top == step * 0x80_0000);
    let q = v / step;
    let r = v % step;
    lemma_fundamental_div_mod(v as int, step as int);
    lemma_mod_bound(v as int, step as int);
    assert(v == step * q + r);
    assert(q >= 0x80_0000) by (nonlinear_arith)
        requires
            v == step * q + r,
            r < step,
            v >= step * 0x80_0000,
            step >= 1,
    ;
    assert(q < 0x100_0000) by (nonlinear_arith)
        requires
            v == step * q + r,
            r >= 0,
            v < 2 * (step * 0x80_0000),
            step >= 1,
    ;
    let up: nat = if 2 * r > step || (2 * r == step && q % 2 == 1) {
        1
    } else {
        0
    };
    let n = nearest_multiple(v);
    assert(n == (q + up) * step);
    assert(n == q * step + up * step) by (nonlinear_arith)
        requires
            n == (q + up) * step,
    ;
    assert(q * step == step * q) by (nonlinear_arith);
    lemma_mod_multiples_basic((q + up) as int, step as int);
    lemma_div_multiples_vanish((q + up) as int, step as int);
    assert(n == step * (q + up)) by (nonlinear_arith)
        requires
            n == (q + up) * step,
    ;
    assert(n % step == 0);
    assert(n / step == q + up);
    let bits = scalar_of_nat(v);
    assert(bits == (126 + e) * 0x80_0000 + q + up);
    if q + up == 0x100_0000 {
        assert(bits == (128 + e) * 0x80_0000 + 0) by (nonlinear_arith)
            requires
                bits == (126 + e) * 0x80_0000 + q + up,
                q + up == 0x100_0000,
        ;
        lemma_fields(128 + e, 0);
        assert(bits < pow2(31)) by (nonlinear_arith)
            requires
                bits == (128 + e) * 0x80_0000 + 0,
                e <= 31,
                pow2(31) == 0x8000_0000,
        ;
        lemma_pow2_unfold((e - 22) as nat);
        assert((pow2(23) + 0) * pow2((e - 22) as nat) == n) by (nonlinear_arith)
            requires
                pow2(23) == 0x80_0000,
                pow2((e - 22) as nat) == 2 * step,
                n == (q + up) * step,
                q + up == 0x100_0000,
        ;
    } else {
        let f = (q + up - 0x80_0000) as nat;
        assert(bits == (127 + e) * 0x80_0000 + f) by (nonlinear_arith)
            requires
                bits == (126 + e) * 0x80_0000 + q + up,
                f == q + up - 0x80_0000,
        ;
        lemma_fields(127 + e, f);
        assert(bits < pow2(31)) by (nonlinear_arith)
            requires
                bits == (127 + e) * 0x80_0000 + f,
                e <= 31,
                f < 0x80_0000,
                pow2(31) == 0x8000_0000,
        ;
        assert((pow2(23) + f) * step == n) by (nonlinear_arith)
            requires
                pow2(23) == 0x80_0000,
                f == q + up - 0x80_0000,
                n == (q + up) * step,
        ;
    }
}

/// The bits of a number below `2^32` leave the sign bit clear: they are the
/// bits of a positive number, or of zero.
pub proof fn lemma_scalar_is_positive(v: nat)
    requires
        v < pow2(32),
    ensures
        scalar_of_nat(v) < pow2(31),
        scalar_of_nat(v) < SIGN_BIT,
{
    lemma2_to64();
    if v == 0 {
    } else if v < pow2(24) {
        lemma_small_numbers_are_exact(v);
    } else {
        lemma_large_numbers_are_rounded_to_nearest(v);
    }
}

/// An exponent and a fraction, put together, can be read back.
proof fn lemma_fields(exponent: nat, fraction: nat)
    requires
        exponent < 256,
        fraction < 0x80_0000,
    ensures
        exponent_field(exponent * 0x80_0000 + fraction) == exponent,
        fraction_field(exponent * 0x80_0000 + fraction) == fraction,
{
    lemma2_to64();
    let bits = exponent * 0x80_0000 + fraction;
    lemma_fundamental_div_mod_converse(
        bits as int,
        0x80_0000,
        exponent as int,
        fraction as int,
    );
}

/// A number between a power of two and the next has that power's exponent.
pub proof fn lemma_binary_exponent(v: nat, e: nat)
    requires
        pow2(e) <= v < 2 * pow2(e),
    ensures
        binary_exponent(v) == e,
    decreases e,
{
    lemma2_to64();
    if e > 0 {
        lemma_pow2_unfold(e);
        lemma_binary_exponent(v / 2, (e - 1) as nat);
    }
}

/// The numbers 0, 1 and -1 have the bits that the constants give.
pub proof fn lemma_scalar_constants()
    ensures
        scalar_of_nat(0) == SCALAR_ZERO,
        scalar_of_nat(1) == SCALAR_ONE,
        scalar_of_int(-1) == SCALAR_MINUS_ONE,
{
    lemma2_to64();
    lemma_binary_exponent(1, 0);
}

/// `2^exponent`, for an exponent up to 31.
fn power_of_two(exponent: u32) -> (power: u64)
    requires
        exponent <= 31,
    ensures
        power == pow2(exponent as nat),
        1 <= power <= 0x8000_0000,
{
    let mut power: u64 = 1;
    let mut k: u32 = 0;
    proof {
        lemma2_to64();
    }
    while k < exponent
        invariant
            k <= exponent <= 31,
            power == pow2(k as nat),
            1 <= power,
            power <= pow2(31),
            pow2(31) == 0x8000_0000,
        decreases exponent - k,
    {
        proof {
            lemma_pow2_unfold((k + 1) as nat);
            if k + 1 < 31 {
                lemma_pow2_strictly_increases((k + 1) as nat, 31);
            }
        }
        power = power * 2;
        k = k + 1;
    }
    power
}

/// The bits of the single-precision number nearest to `v`: what a cast of `v`
/// to that type holds.
pub fn scalar_from_u32(v: u32) -> (bits: u32)
    ensures
        bits == scalar_of_nat(v as nat),
        bits < SIGN_BIT,
{
    if v == 0 {
        return 0;
    }
    let wide: u64 = v as u64;
    let mut e: u32 = 0;
    let mut top: u64 = 1;
    proof {
        lemma2_to64();
    }
    while top * 2 <= wide
        invariant
            top == pow2(e as nat),
            1 <= top <= wide,
            wide == v,
            e <= 31,
        decreases wide - top,
    {
        proof {
            lemma_pow2_unfold((e + 1) as nat);
            if e >= 31 {
                lemma2_to64();
            }
        }
        top = top * 2;
        e = e + 1;
    }
    proof {
        lemma_binary_exponent(v as nat, e as nat);
    }
    if e <= 23 {
        let scale = power_of_two(23 - e);
        proof {
            lemma_pow2_adds(e as nat, (23 - e) as nat);
            assert(top * scale == 0x80_0000);
            assert(wide * scale < 2 * (top * scale)) by (nonlinear_arith)
                requires
                    wide < 2 * top,
                    scale >= 1,
            ;
            assert(wide * scale >= top * scale) by (nonlinear_arith)
                requires
                    wide >= top,
                    scale >= 1,
            ;
        }
        let biased: u64 = (126 + e) as u64;
        ((biased * 0x80_0000) + wide * scale) as u32
    } else {
        let step = power_of_two(e - 23);
        proof {
            lemma_pow2_unfold((e - 23) as nat);
        }
        let q: u64 = wide / step;
        let r: u64 = wide % step;
        let up: u64 = if 2 * r > step || (2 * r == step && q % 2 == 1) {
            1
        } else {
            0
        };
        proof {
            lemma_pow2_adds((e - 23) as nat, 23);
            assert(q < 0x100_0000) by (nonlinear_arith)
                requires
                    q == wide / step,
                    wide < 2 * top,
                    top == step * 0x80_0000,
                    step >= 1,
            ;
        }
        let biased: u64 = (126 + e) as u64;
        ((biased * 0x80_0000) + q + up) as u32
    }
}

/// The bits of the single-precision number nearest to `v`: what a cast of `v`
/// to that type holds.
pub fn scalar_from_i32(v: i32) -> (bits: u32)
    ensures
        bits == scalar_of_int(v as int),
{
    proof {
        lemma2_to64();
    }
    if v < 0 {
        let magnitude: u32 = (-(v as i64)) as u32;
        SIGN_BIT + scalar_from_u32(magnitude)
    } else {
        scalar_from_u32(v as u32)
    }
}

} // verus!
