//! Measured quantities, held as multiples of 2^-64.

use vstd::prelude::*;

verus! {

/// A percentage or a balance: `scaled` counts units of 2^-64.
///
/// Every double of magnitude 2^-12 and more, up to 2^62, is held exactly, and what is computed of
/// such doubles is rounded as doubles are. Smaller ones are cut
/// to a multiple of 2^-64, larger ones are held as 2^62, and zero has no sign.
#[derive(Clone, Copy, Debug, PartialEq, Eq, Structural)]
pub struct Quantity {
    pub scaled: i128,
}

/// One, in units of 2^-64.
pub const ONE: i128 = 0x1_0000_0000_0000_0000;

/// The largest magnitude that is held: 2^62.
pub const LIMIT: i128 = 0x4000_0000_0000_0000_0000_0000_0000_0000;

/// The double nearest to one thousandth.
pub const THOUSANDTH: i128 = 0x41_8937_4bc6_a7f0;

/// Two to the power of `n`.
pub open spec fn two_to(n: nat) -> nat
    decreases n,
{
    if n == 0 {
        1
    } else {
        2 * two_to((n - 1) as nat)
    }
}

/// `m` times two to the power of `e`, rounded towards zero and cut off at `LIMIT`.
pub open spec fn shifted(m: nat, e: int) -> int {
    let exact = if e >= 0 {
        m * two_to(e as nat)
    } else {
        m / two_to((-e) as nat)
    };
    if exact > LIMIT {
        LIMIT as int
    } else {
        exact as int
    }
}

/// The value of the IEEE 754 double with the given bits in units of 2^-64; `None` for an
/// infinity or a NaN.
pub open spec fn double_scaled(bits: u64) -> Option<int> {
    let exponent = (bits as int / 0x10_0000_0000_0000) % 0x800;
    let fraction = bits as int % 0x10_0000_0000_0000;
    let negative = bits as int >= 0x8000_0000_0000_0000;
    if exponent == 0x7ff {
        None
    } else {
        let magnitude = if exponent == 0 {
            shifted(fraction as nat, 64 - 1074)
        } else {
            shifted((fraction + 0x10_0000_0000_0000) as nat, exponent + 64 - 1075)
        };
        Some(if negative { -magnitude } else { magnitude })
    }
}

proof fn lemma_two_to_add(a: nat, b: nat)
    ensures
        two_to(a + b) == two_to(a) * two_to(b),
    decreases b,
{
    if b > 0 {
        lemma_two_to_add(a, (b - 1) as nat);
        let x = two_to(a);
        let y = two_to((b - 1) as nat);
        assert(2 * (x * y) == x * (2 * y)) by (nonlinear_arith);
        assert((a + b - 1) as nat == a + (b - 1) as nat);
    } else {
        let x = two_to(a);
        let y = two_to(b);
        assert(x * y == x) by (nonlinear_arith)
            requires
                y == 1,
        ;
    }
}

proof fn lemma_two_to_positive(n: nat)
    ensures
        two_to(n) >= 1,
    decreases n,
{
    if n > 0 {
        lemma_two_to_positive((n - 1) as nat);
    }
}

/// Doubles `m` `n` times, stopping at `LIMIT`.
fn shift_up(m: u64, n: u32) -> (r: i128)
    ensures
        r == shifted(m as nat, n as int),
        0 <= r <= LIMIT,
{
    let mut v: i128 = m as i128;
    let mut i: u32 = 0;
    assert(two_to(0) == 1);
    while i < n
        invariant
            i <= n,
            0 <= v <= LIMIT,
            v == m * two_to(i as nat),
        decreases n - i,
    {
        let ghost p = two_to(i as nat);
        assert(two_to((i + 1) as nat) == 2 * p);
        assert(m * (2 * p) == 2 * (m * p)) by (nonlinear_arith);
        if v > LIMIT / 2 {
            proof {
                lemma_two_to_add((i + 1) as nat, (n - i - 1) as nat);
                lemma_two_to_positive((n - i - 1) as nat);
                let q = two_to((n - i - 1) as nat);
                let w = 2 * p;
                assert(m * (w * q) == (m * w) * q) by (nonlinear_arith);
                assert((m * w) * q >= m * w) by (nonlinear_arith)
                    requires
                        q >= 1,
                        m * w >= 0,
                ;
            }
            return LIMIT;
        }
        v = v * 2;
        i += 1;
    }
    v
}

/// Halves `m` `n` times.
fn shift_down(m: u64, n: u32) -> (r: i128)
    requires
        n > 0,
    ensures
        r == shifted(m as nat, -(n as int)),
        0 <= r <= LIMIT,
{
    let mut v: u64 = m;
    let mut i: u32 = 0;
    assert(two_to(0) == 1);
    while i < n
        invariant
            i <= n,
            v <= m,
            v == m as nat / two_to(i as nat),
        decreases n - i,
    {
        proof {
            let p = two_to(i as nat);
            lemma_two_to_positive(i as nat);
            assert(two_to((i + 1) as nat) == 2 * p);
            vstd::arithmetic::div_mod::lemma_div_denominator(m as int, p as int, 2);
            assert(p * 2 == 2 * p);
        }
        v = v / 2;
        i += 1;
    }
    v as i128
}

/// How many of the bits of `m` lie beyond the 53 that a double keeps.
pub open spec fn extra_bits(m: nat) -> nat
    decreases m,
{
    if m < 0x20_0000_0000_0000 {
        0
    } else {
        1 + extra_bits(m / 2)
    }
}

/// `m / d`, rounded to 53 bits: to the nearer neighbour, and halfway between two to the even one.
pub open spec fn nearest(m: nat, d: nat) -> nat {
    let unit = two_to(extra_bits(m / d));
    let step = d * unit;
    let q = m / step;
    let twice = 2 * (m % step);
    if twice > step || (twice == step && q % 2 == 1) {
        (q + 1) * unit
    } else {
        q * unit
    }
}

/// The double nearest to `x`.
pub open spec fn rounded(x: int) -> int {
    if x < 0 {
        -(nearest((-x) as nat, 1) as int)
    } else {
        nearest(x as nat, 1) as int
    }
}

/// The greatest number that is rounded.
pub const ROUNDED_LIMIT: i128 = 0x4100_0000_0000_0000_0000_0000_0000_0000;

/// `m / d`, rounded to 53 bits.
pub fn round_quotient(m: i128, d: i128) -> (r: i128)
    requires
        0 <= m <= ROUNDED_LIMIT,
        1 <= d <= 1000,
    ensures
        r == nearest(m as nat, d as nat),
{
    let whole: i128 = m / d;
    proof {
        assert(0 <= whole <= m) by (nonlinear_arith)
            requires
                whole == m as int / d as int,
                m >= 0,
                d >= 1,
        ;
    }
    let mut n: i128 = whole;
    let mut unit: i128 = 1;
    let ghost mut k: nat = 0;
    assert(two_to(0) == 1);
    while n >= 0x20_0000_0000_0000
        invariant
            0 <= n,
            0 <= whole <= m <= ROUNDED_LIMIT,
            1 <= unit,
            unit == two_to(k),
            n * unit <= whole,
            extra_bits(whole as nat) == k + extra_bits(n as nat),
        decreases n,
    {
        assert(unit <= 0x400_0000_0000_0000_0000) by (nonlinear_arith)
            requires
                n * unit <= 0x4100_0000_0000_0000_0000_0000_0000_0000,
                n >= 0x20_0000_0000_0000,
                unit >= 1,
        ;
        let half: i128 = n / 2;
        assert(half * (2 * unit) <= n * unit) by (nonlinear_arith)
            requires
                2 * half <= n,
                unit >= 1,
        ;
        n = half;
        unit = unit * 2;
        proof {
            k = k + 1;
        }
    }
    proof {
        lemma_unit_is_small(whole as nat);
    }
    assert(1 <= d * unit <= 1000 * 0x400_0000_0000_0000_0000) by (nonlinear_arith)
        requires
            1 <= d <= 1000,
            1 <= unit <= 0x400_0000_0000_0000_0000,
    ;
    let step: i128 = d * unit;
    let q: i128 = m / step;
    let rest: i128 = m % step;
    proof {
        assert(0 <= rest < step && 0 <= q && q * unit <= m) by (nonlinear_arith)
            requires
                q == m as int / step as int,
                rest == m as int % step as int,
                step == d * unit,
                m >= 0,
                d >= 1,
                unit >= 1,
        ;
        assert((q + 1) * unit == q * unit + unit) by (nonlinear_arith);
        assert(q * unit >= 0) by (nonlinear_arith)
            requires
                q >= 0,
                unit >= 1,
        ;
        assert(q <= m) by (nonlinear_arith)
            requires
                q * unit <= m,
                q >= 0,
                unit >= 1,
        ;
    }
    if 2 * rest > step || (2 * rest == step && q % 2 == 1) {
        (q + 1) * unit
    } else {
        q * unit
    }
}

/// One is 2^64 units.
pub proof fn two_to_64()
    ensures
        two_to(64) == ONE,
{
    lemma_powers();
}

/// What is rounded off stays small.
proof fn lemma_unit_is_small(m: nat)
    requires
        m <= ROUNDED_LIMIT,
    ensures
        two_to(extra_bits(m)) <= 0x400_0000_0000_0000_0000,
{
    lemma_powers();
    lemma_extra_bits(m, 74);
    lemma_two_to_grows(extra_bits(m), 74);
}

/// A number below 2^(53 + j) has at most `j` extra bits.
proof fn lemma_extra_bits(m: nat, j: nat)
    requires
        m < 0x20_0000_0000_0000 * two_to(j),
    ensures
        extra_bits(m) <= j,
    decreases j,
{
    if m >= 0x20_0000_0000_0000 {
        if j == 0 {
            assert(two_to(0) == 1);
        } else {
            assert(two_to(j) == 2 * two_to((j - 1) as nat));
            lemma_extra_bits(m / 2, (j - 1) as nat);
        }
    }
}

proof fn lemma_two_to_grows(a: nat, b: nat)
    requires
        a <= b,
    ensures
        two_to(a) <= two_to(b),
    decreases b,
{
    if a < b {
        lemma_two_to_grows(a, (b - 1) as nat);
    }
}

proof fn lemma_powers()
    ensures
        two_to(18) == 0x4_0000,
        two_to(54) == 0x40_0000_0000_0000,
        two_to(64) == ONE,
        two_to(74) == 0x400_0000_0000_0000_0000,
        two_to(126) == LIMIT,
{
    reveal_with_fuel(two_to, 65);
    assert(two_to(64) == ONE);
    lemma_two_to_add(62, 64);
    lemma_two_to_add(10, 64);
    assert(two_to(62) == 0x4000_0000_0000_0000);
    assert(0x4000_0000_0000_0000 * 0x1_0000_0000_0000_0000 == LIMIT) by (nonlinear_arith)
        requires
            LIMIT == 0x4000_0000_0000_0000_0000_0000_0000_0000,
    ;
}

/// A number of 53 bits, times a power of two, is a double already.
pub proof fn doubles_are_not_rounded(a: nat, j: nat)
    requires
        a < 0x20_0000_0000_0000,
    ensures
        nearest(a * two_to(j), 1) == a * two_to(j),
{
    let m = a * two_to(j);
    lemma_two_to_positive(j);
    assert(m < 0x20_0000_0000_0000 * two_to(j)) by (nonlinear_arith)
        requires
            m == a * two_to(j),
            a < 0x20_0000_0000_0000,
            two_to(j) >= 1,
    ;
    lemma_extra_bits(m, j);
    let k = extra_bits(m);
    let unit = two_to(k);
    let b = a * two_to((j - k) as nat);
    lemma_two_to_positive(k);
    lemma_two_to_add((j - k) as nat, k);
    assert(m == b * unit) by (nonlinear_arith)
        requires
            m == a * two_to(j),
            two_to(j) == two_to((j - k) as nat) * unit,
            b == a * two_to((j - k) as nat),
    ;
    lemma_whole_quotient(b, unit);
    assert(m / 1 == m);
    assert(1 * unit == unit);
}

proof fn lemma_whole_quotient(b: nat, unit: nat)
    requires
        unit >= 1,
    ensures
        (b * unit) / unit == b,
        (b * unit) % unit == 0,
{
    vstd::arithmetic::div_mod::lemma_div_multiples_vanish(b as int, unit as int);
    vstd::arithmetic::div_mod::lemma_mod_multiples_basic(b as int, unit as int);
    assert(unit * b == b * unit) by (nonlinear_arith);
}

/// Numbers below zero are rounded as those above, and zero is not rounded.
pub proof fn rounding_takes_no_side(x: int)
    ensures
        rounded(-x) == -rounded(x),
        rounded(0) == 0,
{
    doubles_are_not_rounded(0, 0);
    assert(0 * two_to(0) == 0);
    assert(rounded(0) == 0);
    if x == 0 {
        assert(-x == 0);
    }
}

/// Rounding does not reach beyond a double, and leaves at least half of what is rounded.
pub proof fn rounding_stays_within(m: nat, a: nat, j: nat)
    requires
        m <= a * two_to(j),
        a < 0x20_0000_0000_0000,
    ensures
        nearest(m, 1) <= a * two_to(j),
        m <= 2 * nearest(m, 1),
{
    let k = extra_bits(m);
    let unit = two_to(k);
    lemma_two_to_positive(k);
    lemma_two_to_positive(j);
    assert(m < 0x20_0000_0000_0000 * two_to(j)) by (nonlinear_arith)
        requires
            m <= a * two_to(j),
            a < 0x20_0000_0000_0000,
            two_to(j) >= 1,
    ;
    lemma_extra_bits(m, j);
    lemma_two_to_add((j - k) as nat, k);
    let top = a * two_to((j - k) as nat);
    assert(a * two_to(j) == top * unit) by (nonlinear_arith)
        requires
            two_to(j) == two_to((j - k) as nat) * unit,
            top == a * two_to((j - k) as nat),
    ;
    assert(m / 1 == m);
    assert(1 * unit == unit);
    let q = m / unit;
    let rest = m % unit;
    vstd::arithmetic::div_mod::lemma_fundamental_div_mod(m as int, unit as int);
    assert(q <= top) by (nonlinear_arith)
        requires
            m == unit * q + rest,
            rest >= 0,
            m <= top * unit,
            unit >= 1,
    ;
    if q == top {
        assert(rest == 0) by (nonlinear_arith)
            requires
                m == unit * q + rest,
                rest >= 0,
                m <= top * unit,
                q == top,
        ;
    } else {
        assert((q + 1) * unit <= top * unit) by (nonlinear_arith)
            requires
                q + 1 <= top,
                unit >= 1,
        ;
    }
    assert(q * unit <= top * unit) by (nonlinear_arith)
        requires
            q <= top,
            unit >= 1,
    ;
    assert(q * unit <= (q + 1) * unit) by (nonlinear_arith)
        requires
            unit >= 1,
    ;
    if m > 0 {
        lemma_kept_bits(m);
        assert(m <= 2 * (q * unit)) by (nonlinear_arith)
            requires
                m == unit * q + rest,
                rest < unit,
                q >= 1,
                unit >= 1,
        ;
    }
}

/// Rounding keeps what is more than nothing, and at most a hundred, as it is in that.
pub proof fn rounding_stays_within_a_hundred(m: nat)
    ensures
        m > 0 ==> nearest(m, 1) > 0,
        m <= 100 * ONE ==> nearest(m, 1) <= 100 * ONE,
{
    lemma_powers();
    if m <= 100 * ONE {
        rounding_stays_within(m, 100, 64);
    }
    if m > 0 {
        lemma_kept_bits(m);
        let unit = two_to(extra_bits(m));
        let q = m / unit;
        lemma_two_to_positive(extra_bits(m));
        assert(m / 1 == m);
        assert(1 * unit == unit);
        assert(q * unit > 0 && (q + 1) * unit > 0) by (nonlinear_arith)
            requires
                q >= 1,
                unit >= 1,
        ;
    }
}

/// Rounding leaves at least half of what is rounded.
pub proof fn rounding_leaves_half(m: nat)
    requires
        m <= 2 * LIMIT,
    ensures
        m <= 2 * nearest(m, 1),
{
    lemma_powers();
    rounding_stays_within(m, 2, 126);
}

/// Rounding keeps a quantity within its limits.
pub proof fn rounding_stays_within_the_limit(m: nat)
    requires
        m <= LIMIT,
    ensures
        nearest(m, 1) <= LIMIT,
{
    lemma_powers();
    rounding_stays_within(m, 1, 126);
}

/// Dropping the extra bits leaves something of what is more than nothing.
proof fn lemma_kept_bits(m: nat)
    requires
        m > 0,
    ensures
        m / two_to(extra_bits(m)) >= 1,
    decreases m,
{
    assert(two_to(0) == 1);
    if m >= 0x20_0000_0000_0000 {
        lemma_kept_bits(m / 2);
        let k = extra_bits(m / 2);
        lemma_two_to_positive(k);
        vstd::arithmetic::div_mod::lemma_div_denominator(m as int, 2, two_to(k) as int);
        assert(extra_bits(m) == 1 + k);
        assert(two_to(1 + k) == 2 * two_to(k));
        assert(m / (2 * two_to(k)) == (m / 2) / two_to(k));
        assert(m / two_to(extra_bits(m)) == (m / 2) / two_to(k));
    } else {
        assert(extra_bits(m) == 0);
        assert(m / two_to(extra_bits(m)) == m / 1);
        assert(m / 1 == m);
    }
}

/// Milliseconds in whole seconds: rounding their quotient does not reach the next second.
pub proof fn rounding_keeps_whole_seconds(secs: nat, millis: nat)
    requires
        secs < 0x800_0000_0000,
        millis < 1000,
    ensures
        nearest(((secs * 1000 + millis) * ONE) as nat, 1000) / ONE as nat == secs,
{
    let a: nat = secs * 1000 + millis;
    let m: nat = (a * ONE) as nat;
    let n = m / 1000;
    lemma_powers();
    assert(n < 0x20_0000_0000_0000 * 0x40_0000_0000_0000) by (nonlinear_arith)
        requires
            n == m / 1000,
            m == a * 0x1_0000_0000_0000_0000,
            a < 0x800_0000_0000 * 1000,
    ;
    lemma_extra_bits(n, 54);
    let k = extra_bits(n);
    let unit = two_to(k);
    lemma_two_to_positive(k);
    let per = two_to((64 - k) as nat);
    lemma_two_to_add((64 - k) as nat, k);
    lemma_two_to_add(10, (54 - k) as nat);
    lemma_two_to_positive((54 - k) as nat);
    assert((10 + (54 - k) as nat) as nat == (64 - k) as nat);
    assert(two_to(10) == 1024) by {
        reveal_with_fuel(two_to, 11);
    }
    assert(per >= 1024) by (nonlinear_arith)
        requires
            per == 1024 * two_to((54 - k) as nat),
            two_to((54 - k) as nat) >= 1,
    ;
    let step: nat = 1000 * unit;
    let q = m / step;
    assert(ONE == per * unit);
    assert(m == (a * per) * unit) by (nonlinear_arith)
        requires
            m == a * ONE,
            ONE == per * unit,
    ;
    vstd::arithmetic::div_mod::lemma_div_denominator(m as int, unit as int, 1000);
    lemma_whole_quotient(a * per, unit);
    assert(unit * 1000 == step);
    assert(q == (a * per) / 1000);
    assert(secs * per <= q <= secs * per + per - 2) by (nonlinear_arith)
        requires
            q == (a * per) / 1000,
            a == secs * 1000 + millis,
            millis < 1000,
            per >= 1024,
    ;
    let up = nearest(m, 1000);
    assert((q + 1) * unit == q * unit + unit) by (nonlinear_arith);
    assert(up == q * unit || up == q * unit + unit);
    assert(secs * ONE <= q * unit) by (nonlinear_arith)
        requires
            secs * per <= q,
            ONE == per * unit,
            unit >= 1,
    ;
    assert(q * unit + unit < secs * ONE + ONE) by (nonlinear_arith)
        requires
            q <= secs * per + per - 2,
            ONE == per * unit,
            unit >= 1,
    ;
    assert(up / ONE as nat == secs) by (nonlinear_arith)
        requires
            secs * 0x1_0000_0000_0000_0000 <= up < secs * 0x1_0000_0000_0000_0000
                + 0x1_0000_0000_0000_0000,
            ONE == 0x1_0000_0000_0000_0000,
    ;
}

/// The double nearest to `x`.
pub fn round_double(x: i128) -> (r: i128)
    requires
        -ROUNDED_LIMIT <= x <= ROUNDED_LIMIT,
    ensures
        r == rounded(x as int),
{
    if x < 0 {
        -round_quotient(-x, 1)
    } else {
        round_quotient(x, 1)
    }
}

impl Quantity {
    /// The quantity that a double with these bits stands for.
    pub fn from_double_bits(bits: u64) -> (r: Option<Quantity>)
        ensures
            r matches Some(q) ==> double_scaled(bits) == Some(q.scaled as int) && q.wf(),
            r is None <==> double_scaled(bits) is None,
    {
        let exponent: u64 = (bits / 0x10_0000_0000_0000) % 0x800;
        let fraction: u64 = bits % 0x10_0000_0000_0000;
        if exponent == 0x7ff {
            return None;
        }
        let magnitude: i128 = if exponent == 0 {
            shift_down(fraction, 1010)
        } else if exponent >= 1011 {
            shift_up(fraction + 0x10_0000_0000_0000, (exponent - 1011) as u32)
        } else {
            shift_down(fraction + 0x10_0000_0000_0000, (1011 - exponent) as u32)
        };
        if bits >= 0x8000_0000_0000_0000 {
            Some(Quantity { scaled: -magnitude })
        } else {
            Some(Quantity { scaled: magnitude })
        }
    }

    /// Within the limits that every quantity keeps.
    pub open spec fn wf(self) -> bool {
        -LIMIT <= self.scaled <= LIMIT
    }
}

} // verus!
