//! Correctly rounded double-precision arithmetic on positive ratios.
//!
//! Scaling factors are kept as the nearest double-precision number: a mantissa
//! of 53 bits over a power of two. Everything here is integer arithmetic; a
//! tie goes to the even mantissa.

use vstd::prelude::*;

verus! {

/// Smallest mantissa of a normal number, `2^52`.
pub const MANTISSA_MIN: u64 = 0x10_0000_0000_0000;

/// One past the largest mantissa of a normal number, `2^53`.
pub const MANTISSA_LIMIT: u64 = 0x20_0000_0000_0000;

/// `2^n`.
pub open spec fn pow2(n: nat) -> nat {
    vstd::arithmetic::power2::pow2(n)
}

/// The integer nearest to `num / den`; a tie goes to the even neighbour.
pub open spec fn round_half_even(num: nat, den: nat) -> nat {
    let below = num / den;
    let rest = num % den;
    if 2 * rest > den || (2 * rest == den && below % 2 == 1) {
        below + 1
    } else {
        below
    }
}

/// The integer nearest to `num / den`; a tie goes up.
pub open spec fn round_half_up(num: nat, den: nat) -> nat {
    (2 * num + den) / (2 * den)
}

/// Multiplying `num / den` by `2^shift` gives it the magnitude of a mantissa.
pub open spec fn is_shift(num: nat, den: nat, shift: nat) -> bool {
    MANTISSA_MIN * den <= num * pow2(shift) < MANTISSA_LIMIT * den
}

/// The shift of the double nearest to `num / den`.
pub open spec fn shift_of(num: nat, den: nat) -> nat {
    choose|shift: nat| is_shift(num, den, shift)
}

/// The mantissa of the double nearest to `num / den`.
pub open spec fn mantissa_of(num: nat, den: nat) -> nat {
    round_half_even(num * pow2(shift_of(num, den)), den)
}

/// The value `mantissa / 2^shift`.
#[derive(Debug, Clone, Copy, PartialEq, Eq)]
pub struct Binary64 {
    pub mantissa: u64,
    pub shift: u32,
}

impl Binary64 {
    /// This is the double nearest to `num / den`.
    pub open spec fn is_nearest(self, num: nat, den: nat) -> bool {
        &&& is_shift(num, den, self.shift as nat)
        &&& self.shift == shift_of(num, den)
        &&& self.mantissa == mantissa_of(num, den)
    }
}

/// `side` times `mantissa / 2^shift`: the product is rounded to the nearest
/// double, and that to the nearest integer, a tie going up.
pub open spec fn scaled(side: nat, mantissa: nat, shift: nat) -> nat {
    let num = side * mantissa;
    let den = pow2(shift);
    round_half_up(mantissa_of(num, den), pow2(shift_of(num, den)))
}

/// `2^(n + 1)` is twice `2^n`, and no power of two is zero.
pub proof fn lemma_pow2_step(n: nat)
    ensures
        pow2(n + 1) == 2 * pow2(n),
        pow2(n) > 0,
        pow2(0) == 1,
{
    vstd::arithmetic::power2::lemma_pow2_unfold(n + 1);
    vstd::arithmetic::power2::lemma_pow2_pos(n);
    vstd::arithmetic::power2::lemma2_to64();
}

/// A positive ratio has at most one shift.
pub proof fn lemma_shift_unique(num: nat, den: nat, s: nat, t: nat)
    requires
        is_shift(num, den, s),
        is_shift(num, den, t),
    ensures
        s == t,
{
    if s < t {
        lemma_shift_not_larger(num, den, s, t);
    }
    if t < s {
        lemma_shift_not_larger(num, den, t, s);
    }
}

proof fn lemma_shift_not_larger(num: nat, den: nat, s: nat, t: nat)
    requires
        is_shift(num, den, s),
        s < t,
    ensures
        !is_shift(num, den, t),
{
    lemma_pow2_double(s, t);
    assert(num * pow2(t) >= 2 * (num * pow2(s))) by (nonlinear_arith)
        requires
            pow2(t) >= 2 * pow2(s),
    ;
}

/// `is_shift` determines `shift_of`.
pub proof fn lemma_shift_of(num: nat, den: nat, shift: nat)
    requires
        is_shift(num, den, shift),
    ensures
        shift_of(num, den) == shift,
{
    lemma_shift_unique(num, den, shift, shift_of(num, den));
}

/// Distance between a ratio and its rounding: at most one half.
pub proof fn lemma_round_half_even_error(num: nat, den: nat)
    requires
        den > 0,
    ensures
        2 * (round_half_even(num, den) * den) <= 2 * num + den,
        2 * num <= 2 * (round_half_even(num, den) * den) + den,
{
    let q = num / den;
    let r = num % den;
    vstd::arithmetic::div_mod::lemma_fundamental_div_mod(num as int, den as int);
    assert(q * den == den * q) by (nonlinear_arith);
    assert((q + 1) * den == q * den + den) by (nonlinear_arith);
}

/// Rounding is not changed by a common factor of numerator and denominator.
pub proof fn lemma_round_half_even_scale(num: nat, den: nat, k: nat)
    requires
        den > 0,
        k > 0,
    ensures
        round_half_even(num * k, den * k) == round_half_even(num, den),
{
    let q = num / den;
    let r = num % den;
    vstd::arithmetic::div_mod::lemma_fundamental_div_mod(num as int, den as int);
    assert(num * k == q * (den * k) + r * k) by (nonlinear_arith)
        requires
            num == den * q + r,
    ;
    assert(0 <= r * k < den * k) by (nonlinear_arith)
        requires
            0 <= r < den,
            k > 0,
    ;
    vstd::arithmetic::div_mod::lemma_fundamental_div_mod_converse(
        (num * k) as int,
        (den * k) as int,
        q as int,
        (r * k) as int,
    );
    assert((2 * (r * k) > den * k) == (2 * r > den)) by (nonlinear_arith)
        requires
            k > 0,
    ;
    assert((2 * (r * k) == den * k) == (2 * r == den)) by (nonlinear_arith)
        requires
            k > 0,
    ;
}

/// The integer nearest to `num / den`, ties to even.
pub fn nearest_even(num: u128, den: u128) -> (r: u128)
    requires
        0 < den <= 0x1_0000_0000_0000_0000_0000_0000,
        num < u128::MAX,
    ensures
        r == round_half_even(num as nat, den as nat),
{
    let below: u128 = num / den;
    let rest: u128 = num % den;
    proof {
        assert(below <= num) by (nonlinear_arith)
            requires
                below == num / den,
                den > 0,
        ;
    }
    if 2 * rest > den || (2 * rest == den && below % 2 == 1) {
        below + 1
    } else {
        below
    }
}

/// The double nearest to `num / den`.
pub fn quotient(num: u32, den: u32) -> (r: Binary64)
    requires
        num > 0,
        den > 0,
    ensures
        r.is_nearest(num as nat, den as nat),
        MANTISSA_MIN <= r.mantissa <= MANTISSA_LIMIT,
        20 <= r.shift <= 84,
{
    let floor: u128 = 0x10_0000_0000_0000u128 * (den as u128);
    let mut scaled: u128 = num as u128;
    let mut shift: u32 = 0;
    proof {
        lemma_pow2_step(0);
        assert(num * pow2(0) == num);
    }
    while scaled < floor
        invariant
            num > 0,
            0 < den,
            floor == MANTISSA_MIN * den,
            scaled == num * pow2(shift as nat),
            scaled < 2 * floor,
            scaled >= pow2(shift as nat),
            shift <= 84,
        decreases 2 * floor - scaled,
    {
        proof {
            let p = pow2(shift as nat);
            lemma_pow2_step(shift as nat);
            assert(num * (2 * p) == 2 * (num * p)) by (nonlinear_arith);
            assert(shift < 84) by {
                if shift >= 84 {
                    lemma_pow2_84();
                }
            }
        }
        scaled = scaled * 2;
        shift = shift + 1;
    }
    proof {
        assert(is_shift(num as nat, den as nat, shift as nat));
        lemma_shift_of(num as nat, den as nat, shift as nat);
        lemma_round_half_even_error(scaled as nat, den as nat);
        lemma_mantissa_range(scaled as nat, den as nat);
        assert(shift >= 20) by {
            if shift < 20 {
                lemma_small_pow2(shift as nat);
                assert(num * pow2(shift as nat) < MANTISSA_MIN) by (nonlinear_arith)
                    requires
                        num <= 0xffff_ffff,
                        pow2(shift as nat) <= 0x8_0000,
                ;
            }
        }
    }
    let mantissa: u128 = nearest_even(scaled, den as u128);
    Binary64 { mantissa: mantissa as u64, shift }
}

/// The largest unit of a quotient of two 32-bit numbers.
pub proof fn lemma_pow2_84()
    ensures
        pow2(84) == 0x10_0000_0000_0000_0000_0000,
{
    vstd::arithmetic::power2::lemma2_to64();
    vstd::arithmetic::power2::lemma2_to64_rest();
    vstd::arithmetic::power2::lemma_pow2_adds(64, 20);
}

proof fn lemma_small_pow2(n: nat)
    requires
        n < 20,
    ensures
        pow2(n) <= 0x8_0000,
{
    vstd::arithmetic::power2::lemma2_to64();
    if n < 19 {
        vstd::arithmetic::power2::lemma_pow2_strictly_increases(n, 19);
    }
}

/// Rounding a ratio of mantissa magnitude gives a mantissa, or the limit itself.
proof fn lemma_mantissa_range(num: nat, den: nat)
    requires
        den > 0,
        MANTISSA_MIN * den <= num < MANTISSA_LIMIT * den,
    ensures
        MANTISSA_MIN <= round_half_even(num, den) <= MANTISSA_LIMIT,
{
    let q = num / den;
    vstd::arithmetic::div_mod::lemma_fundamental_div_mod(num as int, den as int);
    assert(MANTISSA_MIN <= q) by (nonlinear_arith)
        requires
            den > 0,
            num == den * q + num % den,
            num % den < den,
            MANTISSA_MIN * den <= num,
    ;
    assert(q < MANTISSA_LIMIT) by (nonlinear_arith)
        requires
            den > 0,
            num == den * q + num % den,
            num % den >= 0,
            num < MANTISSA_LIMIT * den,
    ;
}

/// `2^n`.
pub fn power_of_two(n: u32) -> (r: u128)
    requires
        n <= 100,
    ensures
        r == pow2(n as nat),
{
    let mut power: u128 = 1;
    let mut i: u32 = 0;
    proof {
        lemma_pow2_step(0);
        lemma_pow2_bound(n as nat);
    }
    while i < n
        invariant
            i <= n <= 100,
            power == pow2(i as nat),
        decreases n - i,
    {
        proof {
            lemma_pow2_step(i as nat);
            lemma_pow2_bound((i + 1) as nat);
        }
        power = power * 2;
        i = i + 1;
    }
    power
}

/// Powers of two up to the hundredth fit 101 bits.
proof fn lemma_pow2_bound(n: nat)
    requires
        n <= 100,
    ensures
        pow2(n) <= 0x10_0000_0000_0000_0000_0000_0000,
{
    vstd::arithmetic::power2::lemma2_to64();
    vstd::arithmetic::power2::lemma2_to64_rest();
    vstd::arithmetic::power2::lemma_pow2_adds(64, 36);
    if n < 100 {
        vstd::arithmetic::power2::lemma_pow2_strictly_increases(n, 100);
    }
}

/// The double nearest to `side` times `factor`.
pub fn product(side: u32, factor: Binary64) -> (r: Binary64)
    requires
        side > 0,
        MANTISSA_MIN <= factor.mantissa <= MANTISSA_LIMIT,
        factor.shift <= 84,
        side * factor.mantissa < MANTISSA_LIMIT * pow2(factor.shift as nat),
    ensures
        r.is_nearest((side * factor.mantissa) as nat, pow2(factor.shift as nat)),
        MANTISSA_MIN <= r.mantissa <= MANTISSA_LIMIT,
        r.shift <= factor.shift,
{
    proof {
        assert(MANTISSA_MIN <= side * factor.mantissa <= 0xffff_ffff * MANTISSA_LIMIT) by (nonlinear_arith)
            requires
                0 < side <= 0xffff_ffff,
                MANTISSA_MIN <= factor.mantissa <= MANTISSA_LIMIT,
        ;
    }
    let exact: u128 = (side as u128) * (factor.mantissa as u128);
    let mut unit: u128 = 1;
    let mut dropped: u32 = 0;
    proof {
        lemma_pow2_step(0);
    }
    while exact >= 0x20_0000_0000_0000u128 * unit
        invariant
            MANTISSA_MIN <= exact <= 0xffff_ffff * MANTISSA_LIMIT,
            unit == pow2(dropped as nat),
            1 <= unit <= exact,
            MANTISSA_MIN * unit <= exact,
            dropped <= 40,
        decreases exact - unit,
    {
        proof {
            lemma_pow2_step(dropped as nat);
            vstd::arithmetic::power2::lemma2_to64_rest();
        }
        unit = unit * 2;
        dropped = dropped + 1;
    }
    proof {
        let s = factor.shift as nat;
        let t = dropped as nat;
        if t > s {
            lemma_pow2_double(s, t);
            assert(false);
        }
        let k = pow2((s - t) as nat);
        vstd::arithmetic::power2::lemma_pow2_adds(t, (s - t) as nat);
        lemma_pow2_step((s - t) as nat);
        assert(MANTISSA_MIN * (unit * k) <= exact * k < MANTISSA_LIMIT * (unit * k)) by (nonlinear_arith)
            requires
                k > 0,
                MANTISSA_MIN * unit <= exact < MANTISSA_LIMIT * unit,
        ;
        lemma_shift_of(exact as nat, pow2(s), (s - t) as nat);
        lemma_round_half_even_scale(exact as nat, unit as nat, k);
        lemma_mantissa_range(exact as nat, unit as nat);
    }
    let mantissa: u128 = nearest_even(exact, unit);
    Binary64 { mantissa: mantissa as u64, shift: factor.shift - dropped }
}

/// `side` times `factor`, as a whole number.
pub fn scale_side(side: u32, factor: Binary64) -> (r: u64)
    requires
        side > 0,
        MANTISSA_MIN <= factor.mantissa <= MANTISSA_LIMIT,
        factor.shift <= 84,
        side * factor.mantissa < MANTISSA_LIMIT * pow2(factor.shift as nat),
    ensures
        r == scaled(side as nat, factor.mantissa as nat, factor.shift as nat),
{
    let exact: Binary64 = product(side, factor);
    let unit: u128 = power_of_two(exact.shift);
    proof {
        lemma_pow2_step(exact.shift as nat);
        lemma_pow2_bound(exact.shift as nat);
        let m = exact.mantissa as int;
        let u = unit as int;
        assert((2 * m + u) / (2 * u) <= 2 * m + u) by (nonlinear_arith)
            requires
                u >= 1,
                m >= 0,
        ;
        assert((2 * m + u) / (2 * u) <= m + 1) by (nonlinear_arith)
            requires
                u >= 1,
                m >= 0,
        ;
    }
    ((2 * (exact.mantissa as u128) + unit) / (2 * unit)) as u64
}

/// A positive ratio below the mantissa limit has a shift.
pub proof fn lemma_shift_exists(num: nat, den: nat)
    requires
        0 < num < MANTISSA_LIMIT * den,
    ensures
        is_shift(num, den, shift_of(num, den)),
{
    let shift = lemma_find_shift(num, den);
    lemma_shift_of(num, den, shift);
}

proof fn lemma_find_shift(num: nat, den: nat) -> (shift: nat)
    requires
        0 < num < MANTISSA_LIMIT * den,
    ensures
        is_shift(num, den, shift),
    decreases MANTISSA_LIMIT * den - num,
{
    lemma_pow2_step(0);
    if num >= MANTISSA_MIN * den {
        assert(num * pow2(0) == num);
        0
    } else {
        let s = lemma_find_shift(2 * num, den);
        lemma_pow2_step(s);
        assert(num * pow2(s + 1) == (2 * num) * pow2(s)) by (nonlinear_arith)
            requires
                pow2(s + 1) == 2 * pow2(s),
        ;
        s + 1
    }
}

/// A double is off by no more than half a unit in the last place.
pub proof fn lemma_nearest_error(num: nat, den: nat)
    requires
        0 < num < MANTISSA_LIMIT * den,
    ensures
        2 * (mantissa_of(num, den) * den) <= 2 * (num * pow2(shift_of(num, den))) + den,
        2 * (num * pow2(shift_of(num, den))) <= 2 * (mantissa_of(num, den) * den) + den,
        MANTISSA_MIN <= mantissa_of(num, den) <= MANTISSA_LIMIT,
        MANTISSA_MIN * den <= num * pow2(shift_of(num, den)),
        mantissa_of(num, den) * den <= 2 * (num * pow2(shift_of(num, den))),
        pow2(shift_of(num, den)) > 0,
{
    lemma_shift_exists(num, den);
    let s = shift_of(num, den);
    lemma_pow2_step(s);
    assert(den > 0) by (nonlinear_arith)
        requires
            num < MANTISSA_LIMIT * den,
    ;
    lemma_round_half_even_error(num * pow2(s), den);
    lemma_mantissa_range(num * pow2(s), den);
}

/// A scaled side stays below the mantissa limit as long as the exact product
/// fits 32 bits.
pub proof fn lemma_product_in_range(side: nat, num: nat, den: nat)
    requires
        0 < num < MANTISSA_LIMIT * den,
        side * num <= 0xffff_ffff * den,
    ensures
        side * mantissa_of(num, den) < MANTISSA_LIMIT * pow2(shift_of(num, den)),
{
    lemma_nearest_error(num, den);
    let m = mantissa_of(num, den);
    let d = pow2(shift_of(num, den));
    assert(den > 0) by (nonlinear_arith)
        requires
            num < MANTISSA_LIMIT * den,
    ;
    assert((side * m) * den <= 2 * (side * num) * d) by (nonlinear_arith)
        requires
            m * den <= 2 * (num * d),
    ;
    assert(2 * (side * num) * d <= (0x1_ffff_fffe * d) * den) by (nonlinear_arith)
        requires
            side * num <= 0xffff_ffff * den,
    ;
    assert(side * m <= 0x1_ffff_fffe * d) by (nonlinear_arith)
        requires
            (side * m) * den <= (0x1_ffff_fffe * d) * den,
            den > 0,
    ;
}

/// A side scaled by the double nearest to `num / den` differs from the exact
/// `side * num / den` by at most one half, plus the fraction `2^-51` of it.
pub proof fn lemma_scaled_error(side: nat, num: nat, den: nat)
    requires
        side > 0,
        0 < num < MANTISSA_LIMIT * den,
        side * num <= 0xffff_ffff * den,
    ensures
        ({
            let r = scaled(side, mantissa_of(num, den), shift_of(num, den));
            &&& 0x8_0000_0000_0000 * (r * den - side * num) <= 0x4_0000_0000_0000 * den + side * num
            &&& 0x8_0000_0000_0000 * (side * num - r * den) <= 0x4_0000_0000_0000 * den + side * num
        }),
{
    lemma_nearest_error(num, den);
    lemma_product_in_range(side, num, den);
    let m = mantissa_of(num, den);
    let d = pow2(shift_of(num, den));
    let p = side * m;
    assert(p > 0) by (nonlinear_arith)
        requires
            p == side * m,
            side > 0,
            m > 0,
    ;
    lemma_nearest_error(p, d);
    let n = mantissa_of(p, d);
    let u = pow2(shift_of(p, d));
    let r = scaled(side, m, shift_of(num, den));
    assert(r == (2 * n + u) / (2 * u));
    vstd::arithmetic::div_mod::lemma_fundamental_div_mod((2 * n + u) as int, (2 * u) as int);
    let rest = (2 * n + u) % (2 * u);
    assert((2 * u) * r == 2 * (u * r)) by (nonlinear_arith);
    assert(2 * (u * r) <= 2 * n + u);
    assert(2 * n <= 2 * (u * r) + u);
    assert(den > 0) by (nonlinear_arith)
        requires
            num < MANTISSA_LIMIT * den,
    ;
    // All three roundings over the common denominator `2 * d * u`.
    let du = (d * u) as int;
    let x = r * den - side * num;
    assert(du > 0) by (nonlinear_arith)
        requires
            du == d * u,
            d > 0,
            u > 0,
    ;
    let a = (den * d) * (u * r);
    let b = (den * d) * n;
    let c = (den * u) * p;
    let e = (side * u) * (num * d);
    assert((den * d) * (u * r) == (d * u) * (r * den)) by (nonlinear_arith);
    assert((side * u) * (num * d) == (d * u) * (side * num)) by (nonlinear_arith);
    vstd::arithmetic::mul::lemma_mul_is_distributive_sub(du, (r * den) as int, (side * num) as int);
    assert(a - e == du * x);
    assert(2 * a - 2 * b <= (den * d) * u && 2 * b - 2 * a <= (den * d) * u) by (nonlinear_arith)
        requires
            a == (den * d) * (u * r),
            b == (den * d) * n,
            2 * (u * r) <= 2 * n + u,
            2 * n <= 2 * (u * r) + u,
    ;
    assert(2 * b - 2 * c <= den * d && 2 * c - 2 * b <= den * d) by (nonlinear_arith)
        requires
            b == (den * d) * n,
            c == (den * u) * p,
            2 * (n * d) <= 2 * (p * u) + d,
            2 * (p * u) <= 2 * (n * d) + d,
    ;
    assert(2 * c - 2 * e <= (side * u) * den && 2 * e - 2 * c <= (side * u) * den) by (nonlinear_arith)
        requires
            c == (den * u) * p,
            p == side * m,
            e == (side * u) * (num * d),
            2 * (m * den) <= 2 * (num * d) + den,
            2 * (num * d) <= 2 * (m * den) + den,
    ;
    // The two small terms against the exact product.
    assert(MANTISSA_MIN * (den * d) <= 2 * ((side * num) * du)) by (nonlinear_arith)
        requires
            MANTISSA_MIN * d <= p * u,
            p == side * m,
            m * den <= 2 * (num * d),
            du == d * u,
    ;
    assert(MANTISSA_MIN * ((side * u) * den) <= (side * num) * du) by (nonlinear_arith)
        requires
            MANTISSA_MIN * den <= num * d,
            du == d * u,
    ;
    assert((den * d) * u == den * du) by (nonlinear_arith)
        requires
            du == d * u,
    ;
    let y = du * x;
    assert(MANTISSA_MIN * (2 * y) <= MANTISSA_MIN * (den * du) + 3 * ((side * num) * du));
    assert(MANTISSA_MIN * (-2 * y) <= MANTISSA_MIN * (den * du) + 3 * ((side * num) * du));
    let sn = side * num;
    assert(MANTISSA_MIN * (2 * x) <= MANTISSA_MIN * den + 3 * sn) by (nonlinear_arith)
        requires
            MANTISSA_MIN * (2 * y) <= MANTISSA_MIN * (den * du) + 3 * (sn * du),
            y == du * x,
            du > 0,
    ;
    assert(MANTISSA_MIN * (-2 * x) <= MANTISSA_MIN * den + 3 * sn) by (nonlinear_arith)
        requires
            MANTISSA_MIN * (-2 * y) <= MANTISSA_MIN * (den * du) + 3 * (sn * du),
            y == du * x,
            du > 0,
    ;
}

/// Rounding keeps the order of ratios.
pub proof fn lemma_round_half_even_monotone(a: nat, b: nat, c: nat, d: nat)
    requires
        b > 0,
        d > 0,
        a * d <= c * b,
    ensures
        round_half_even(a, b) <= round_half_even(c, d),
{
    let p = round_half_even(a, b);
    let q = round_half_even(c, d);
    lemma_round_half_even_error(a, b);
    lemma_round_half_even_error(c, d);
    if p > q {
        // Both ratios would be half way between `q` and `q + 1`.
        let h = 2 * q + 1;
        assert(h * b <= 2 * a) by (nonlinear_arith)
            requires
                h == 2 * q + 1,
                p >= q + 1,
                2 * (p * b) <= 2 * a + b,
        ;
        assert(2 * c <= h * d) by (nonlinear_arith)
            requires
                h == 2 * q + 1,
                2 * c <= 2 * (q * d) + d,
        ;
        assert(h * b == 2 * a && 2 * c == h * d) by (nonlinear_arith)
            requires
                h * b <= 2 * a,
                2 * c <= h * d,
                a * d <= c * b,
                b > 0,
                d > 0,
        ;
        lemma_half_way(a, b, q);
        lemma_half_way(c, d, q);
    }
}

proof fn lemma_half_way(num: nat, den: nat, q: nat)
    requires
        den > 0,
        2 * num == (2 * q + 1) * den,
    ensures
        round_half_even(num, den) == (if q % 2 == 1 { q + 1 } else { q }),
{
    let rest = num - q * den;
    assert(2 * rest == den) by (nonlinear_arith)
        requires
            2 * num == (2 * q + 1) * den,
            rest == num - q * den,
    ;
    vstd::arithmetic::div_mod::lemma_fundamental_div_mod_converse(num as int, den as int, q as int, rest);
}

/// The double nearest to the smaller ratio is the smaller double.
pub proof fn lemma_nearest_monotone(a: nat, b: nat, c: nat, d: nat)
    requires
        0 < a < MANTISSA_LIMIT * b,
        0 < c < MANTISSA_LIMIT * d,
        a * d <= c * b,
    ensures
        mantissa_of(a, b) * pow2(shift_of(c, d)) <= mantissa_of(c, d) * pow2(shift_of(a, b)),
{
    lemma_nearest_error(a, b);
    lemma_nearest_error(c, d);
    lemma_shift_exists(a, b);
    lemma_shift_exists(c, d);
    let s = shift_of(a, b);
    let t = shift_of(c, d);
    let m = mantissa_of(a, b);
    let n = mantissa_of(c, d);
    assert(b > 0 && d > 0) by (nonlinear_arith)
        requires
            a < MANTISSA_LIMIT * b,
            c < MANTISSA_LIMIT * d,
    ;
    if s == t {
        let k = pow2(s);
        assert((a * k) * d <= (c * k) * b) by (nonlinear_arith)
            requires
                a * d <= c * b,
        ;
        lemma_round_half_even_monotone(a * k, b, c * k, d);
        assert(m * k <= n * k) by (nonlinear_arith)
            requires
                m <= n,
        ;
    } else if s > t {
        lemma_pow2_double(t, s);
        let u = pow2(s);
        let v = pow2(t);
        assert(m * v <= n * u) by (nonlinear_arith)
            requires
                m <= 2 * MANTISSA_MIN,
                n >= MANTISSA_MIN,
                u >= 2 * v,
        ;
    } else {
        lemma_pow2_double(s, t);
        let u = pow2(s);
        let v = pow2(t);
        assert(false) by {
            assert(MANTISSA_MIN * b * d <= (c * u) * b) by (nonlinear_arith)
                requires
                    MANTISSA_MIN * b <= a * u,
                    a * d <= c * b,
            ;
            assert(2 * (c * u) <= c * v) by (nonlinear_arith)
                requires
                    v >= 2 * u,
            ;
            assert((c * u) * b < (MANTISSA_MIN * d) * b) by (nonlinear_arith)
                requires
                    2 * (c * u) <= c * v,
                    c * v < (2 * MANTISSA_MIN) * d,
                    b > 0,
            ;
            assert(MANTISSA_MIN * b * d == (MANTISSA_MIN * d) * b) by (nonlinear_arith);
        }
    }
}

proof fn lemma_pow2_double(s: nat, t: nat)
    requires
        s < t,
    ensures
        pow2(t) >= 2 * pow2(s),
{
    let k = (t - s - 1) as nat;
    vstd::arithmetic::power2::lemma_pow2_adds(s + 1, k);
    lemma_pow2_step(s);
    lemma_pow2_step(k);
    assert(pow2(t) >= 2 * pow2(s)) by (nonlinear_arith)
        requires
            pow2(t) == pow2(s + 1) * pow2(k),
            pow2(s + 1) == 2 * pow2(s),
            pow2(k) >= 1,
    ;
}

/// Rounding to even: no integer is nearer, and of two that are as near the even one
/// is taken.
pub proof fn law_round_half_even(num: nat, den: nat)
    requires
        den > 0,
    ensures
        ({
            let r = round_half_even(num, den) as int;
            &&& 2 * num - den <= 2 * (r * den) <= 2 * num + den
            &&& 2 * (r * den) == 2 * num + den || 2 * (r * den) == 2 * num - den ==> r % 2 == 0
        }),
{
    let q = num as int / den as int;
    let rest = num as int % den as int;
    vstd::arithmetic::div_mod::lemma_fundamental_div_mod(num as int, den as int);
    assert(den * q == q * den) by (nonlinear_arith);
    assert((q + 1) * den == q * den + den) by (nonlinear_arith);
    assert(0 <= rest < den) by (nonlinear_arith)
        requires
            rest == num as int % den as int,
            den > 0,
    ;
}

/// Rounding up: no integer is nearer, and of two that are as near the greater one
/// is taken.
pub proof fn law_round_half_up(num: nat, den: nat)
    requires
        den > 0,
    ensures
        ({
            let r = round_half_up(num, den) as int;
            2 * (r * den) - den <= 2 * num < 2 * (r * den) + den
        }),
{
    let r = round_half_up(num, den) as int;
    vstd::arithmetic::div_mod::lemma_fundamental_div_mod((2 * num + den) as int, (2 * den) as int);
    assert((2 * den) * r == 2 * (r * den)) by (nonlinear_arith);
    assert(0 <= (2 * num + den) % (2 * den) < 2 * den) by (nonlinear_arith)
        requires
            den > 0,
    ;
}

} // verus!
