//! Numbers with a fraction, as a mantissa of 53 bits holds them.

use vstd::arithmetic::div_mod::lemma_fundamental_div_mod_converse;
use vstd::prelude::*;

use crate::fmt::round_even_u;
#[allow(unused_imports)]
use crate::fmt::{round_even, ulp};

verus! {

/// One, in 2^80ths.
pub const ONE: u128 = 0x1_0000_0000_0000_0000_0000;

/// A number of less than 2^64 that need not be whole: its sign, its whole part, and what is behind
/// the point, in 2^64ths and then in 2^80ths.
#[derive(Clone, Copy, Debug, PartialEq, Eq)]
pub struct Real {
    pub neg: bool,
    pub whole: u64,
    pub part: u64,
    pub fine: u16,
}

/// A number: its sign, which zero has too, and its size in 2^80ths.
pub struct NumV {
    pub neg: bool,
    pub size: int,
}

impl NumV {
    pub open spec fn zero() -> NumV {
        NumV { neg: false, size: 0 }
    }

    pub open spec fn above_zero(self) -> bool {
        !self.neg && self.size > 0
    }

    pub open spec fn is_zero(self) -> bool {
        self.size == 0
    }

    /// The number in 2^80ths.
    pub open spec fn value(self) -> int {
        if self.neg { -self.size } else { self.size }
    }

    /// The number without its fraction, or the nearest that 64 bits hold.
    pub open spec fn whole(self) -> int {
        let n = self.size / 0x1_0000_0000_0000_0000_0000;
        if self.neg {
            if n > 0x8000_0000_0000_0000 { -0x8000_0000_0000_0000 } else { -n }
        } else {
            if n > 0x7fff_ffff_ffff_ffff { 0x7fff_ffff_ffff_ffff } else { n }
        }
    }

    /// The difference, as a mantissa of 53 bits holds it.
    pub open spec fn minus(self, other: NumV) -> NumV {
        let d = self.value() - other.value();
        NumV { neg: d < 0, size: near(if d < 0 { -d } else { d }, 1) }
    }
}

impl Real {
    pub open spec fn view(&self) -> NumV {
        NumV { neg: self.neg, size: self.whole * 0x1_0000_0000_0000_0000_0000 + self.part * 0x1_0000 + self.fine }
    }
}

/// Two to a power.
pub open spec fn two(e: int) -> int
    decreases e,
{
    if e <= 0 { 1 } else { 2 * two(e - 1) }
}

/// A number halved so many times, each time to the next whole number above.
pub open spec fn halved_up(n: int, e: int) -> int
    decreases e,
{
    if e <= 0 { n } else { halved_up((n + 1) / 2, e - 1) }
}

/// The digits of a float of 64 bits.
pub open spec fn significand(bits: int) -> int {
    if (bits / 0x10_0000_0000_0000) % 0x800 == 0 {
        bits % 0x10_0000_0000_0000
    } else {
        0x10_0000_0000_0000 + bits % 0x10_0000_0000_0000
    }
}

/// The power of two that these digits count, in 2^80ths.
pub open spec fn exponent(bits: int) -> int {
    let e = (bits / 0x10_0000_0000_0000) % 0x800;
    if e == 0 { 1 - 995 } else { e - 995 }
}

/// The size of so many times a power of two: to the next 2^80th above, and the largest of less
/// than 2^64 where it is not below that.
pub open spec fn shifted(n: int, e: int) -> int {
    if e < 0 {
        halved_up(n, -e)
    } else if n * two(e) < 0x1_0000_0000_0000_0000 * 0x1_0000_0000_0000_0000_0000 {
        n * two(e)
    } else {
        0x1_0000_0000_0000_0000 * 0x1_0000_0000_0000_0000_0000 - 1
    }
}

/// The number that the bits of a float are for.
pub open spec fn of_float(bits: int) -> NumV {
    NumV { neg: bits >= 0x8000_0000_0000_0000, size: shifted(significand(bits), exponent(bits)) }
}

/// The number nearest to `n / d` that a mantissa of 53 bits can hold.
pub open spec fn near(n: int, d: int) -> int {
    round_even(n, d * ulp(n / d)) * ulp(n / d)
}

/// A whole number, as a mantissa of 53 bits holds it.
pub open spec fn of_int(n: int) -> NumV {
    NumV { neg: n < 0, size: near((if n < 0 { -n } else { n }) * 0x1_0000_0000_0000_0000_0000, 1) }
}

/// A size: the wholes, and what is behind the point in 2^80ths.
#[derive(Clone, Copy, Debug, PartialEq, Eq)]
pub struct Size {
    pub whole: u128,
    pub part: u128,
}

impl Size {
    pub open spec fn view(&self) -> int {
        self.whole * 0x1_0000_0000_0000_0000_0000 + self.part
    }

    pub open spec fn wf(self) -> bool {
        self.part < ONE
    }

    fn zero() -> (r: Size)
        ensures
            r.wf(),
            r@ == 0,
    {
        Size { whole: 0, part: 0 }
    }

    fn less(self, other: Size) -> (r: bool)
        requires
            self.wf(),
            other.wf(),
        ensures
            r == (self@ < other@),
    {
        self.whole < other.whole || self.whole == other.whole && self.part < other.part
    }

    fn plus(self, other: Size) -> (r: Size)
        requires
            self.wf(),
            other.wf(),
            self.whole + other.whole < 0x1000_0000_0000_0000_0000_0000_0000_0000,
        ensures
            r.wf(),
            r@ == self@ + other@,
    {
        let part: u128 = self.part + other.part;
        if part >= ONE {
            Size { whole: self.whole + other.whole + 1, part: part - ONE }
        } else {
            Size { whole: self.whole + other.whole, part }
        }
    }

    fn minus(self, other: Size) -> (r: Size)
        requires
            self.wf(),
            other.wf(),
            other@ <= self@,
        ensures
            r.wf(),
            r@ == self@ - other@,
    {
        if self.part < other.part {
            Size { whole: self.whole - other.whole - 1, part: self.part + ONE - other.part }
        } else {
            Size { whole: self.whole - other.whole, part: self.part - other.part }
        }
    }

    fn halved(self) -> (r: Size)
        requires
            self.wf(),
        ensures
            r.wf(),
            self@ == 2 * r@ + self.part % 2,
    {
        let carried: u128 = if self.whole % 2 == 1 { 0x8000_0000_0000_0000_0000 } else { 0 };
        Size { whole: self.whole / 2, part: self.part / 2 + carried }
    }
}

proof fn lemma_two(a: int, b: int)
    requires
        a <= b,
    ensures
        1 <= two(a) <= two(b),
    decreases b,
{
    if b > 0 {
        if a < b {
            lemma_two(a, b - 1);
        } else {
            lemma_two(a - 1, b - 1);
        }
    }
}

fn shift_up(n: u64, e: u64) -> (r: Size)
    ensures
        r.wf(),
        r.whole <= u64::MAX,
        r@ == shifted(n as int, e as int),
{
    let mut t: Size = Size { whole: 0, part: n as u128 };
    let mut i: u64 = 0;
    assert(n * two(0) == n);
    while i < e
        invariant
            i <= e,
            t.wf(),
            t.whole <= u64::MAX,
            t@ == n * two(i as int),
        decreases e - i,
    {
        t = t.plus(t);
        proof {
            lemma_two(i + 1, e as int);
            assert(2 * (n * two(i as int)) == n * two(i + 1) && n * two(i + 1) <= n * two(e as int)) by (nonlinear_arith)
                requires
                    two(i + 1) == 2 * two(i as int),
                    two(i + 1) <= two(e as int),
                    n >= 0,
            ;
        }
        if t.whole > 0xffff_ffff_ffff_ffff {
            return Size { whole: 0xffff_ffff_ffff_ffff, part: 0xffff_ffff_ffff_ffff_ffff };
        }
        i += 1;
    }
    t
}

fn shift_down(n: u64, e: u64) -> (r: u64)
    requires
        n < 0x20_0000_0000_0000,
    ensures
        r == halved_up(n as int, e as int),
        r < 0x20_0000_0000_0000,
{
    let mut m: u64 = n;
    let mut i: u64 = e;
    while i > 0
        invariant
            m < 0x20_0000_0000_0000,
            halved_up(m as int, i as int) == halved_up(n as int, e as int),
        decreases i,
    {
        m = (m + 1) / 2;
        i -= 1;
    }
    m
}

impl Real {
    /// The number that the bits of a float are for.
    pub fn of_float(bits: u64) -> (r: Real)
        ensures
            r@ == of_float(bits as int),
    {
        let e: u64 = (bits / 0x10_0000_0000_0000) % 0x800;
        let low: u64 = bits % 0x10_0000_0000_0000;
        let n: u64 = if e == 0 { low } else { 0x10_0000_0000_0000 + low };
        let up: u64 = if e == 0 { 1 } else { e };
        let s: Size = if up < 995 {
            Size { whole: 0, part: shift_down(n, 995 - up) as u128 }
        } else {
            shift_up(n, up - 995)
        };
        Real {
            neg: bits >= 0x8000_0000_0000_0000,
            whole: s.whole as u64,
            part: (s.part / 0x1_0000) as u64,
            fine: (s.part % 0x1_0000) as u16,
        }
    }
}

/// What rounding comes to where the quotient and the remainder are known.
proof fn lemma_rounded(n: int, d: int, t: int, p: int, r: int, rest: int)
    requires
        d >= 1,
        p >= 1,
        0 <= rest < d,
        0 <= r < p,
        p == 1 && d == 1 || p % 2 == 0,
        n == d * (t * p + r) + rest,
    ensures
        round_even(n, d * p) == if 2 * r > p || 2 * r == p && (rest > 0 || t % 2 == 1) { t + 1 } else { t },
{
    let low = d * r + rest;
    assert(n == t * (d * p) + low) by (nonlinear_arith)
        requires
            n == d * (t * p + r) + rest,
            low == d * r + rest,
    ;
    assert(0 <= low < d * p) by (nonlinear_arith)
        requires
            low == d * r + rest,
            0 <= r < p,
            0 <= rest < d,
    ;
    lemma_fundamental_div_mod_converse(n, d * p, t, low);
    if 2 * r < p {
        assert(2 * low < d * p) by (nonlinear_arith)
            requires
                low == d * r + rest,
                p == 1 && d == 1 && r == 0 || 2 * r <= p - 2,
                0 <= rest < d,
        ;
    } else if 2 * r == p {
        assert(2 * low == d * p + 2 * rest) by (nonlinear_arith)
            requires
                low == d * r + rest,
                2 * r == p,
        ;
    } else {
        assert(2 * low > d * p) by (nonlinear_arith)
            requires
                low == d * r + rest,
                2 * r >= p + 1,
                d >= 1,
                rest >= 0,
        ;
    }
}

/// The number nearest to `(d * v + rest) / d` that a mantissa of 53 bits can hold.
fn nearest(v: Size, rest: u128, d: u128) -> (r: Size)
    requires
        v.wf(),
        v.whole <= 0x100_0000_0000_0000_0000,
        rest < d,
        d > 1 ==> v.whole > 0,
    ensures
        r.wf(),
        r.whole <= v.whole + v.whole / 0x10_0000_0000_0000 + 2,
        r@ == near(d * v@ + rest, d as int),
{
    let ghost n = d * v@ + rest;
    proof {
        assert(n == v@ * d + rest) by (nonlinear_arith)
            requires
                n == d * v@ + rest,
        ;
        lemma_fundamental_div_mod_converse(n, d as int, v@, rest as int);
    }
    let mut t: Size = v;
    let mut step: Size = Size { whole: 0, part: 1 };
    let mut low: Size = Size::zero();
    assert(v@ == v@ * 1 + 0);
    while t.whole > 0 || t.part >= 0x20_0000_0000_0000
        invariant
            t.wf(),
            step.wf(),
            low.wf(),
            v.wf(),
            v.whole <= 0x100_0000_0000_0000_0000,
            step@ >= 1,
            v@ == t@ * step@ + low@,
            0 <= low@ < step@,
            step@ == 1 && t == v || step@ % 2 == 0,
            step@ == 1 || step@ * 0x10_0000_0000_0000 <= v@,
            ulp(v@) == ulp(t@) * step@,
        decreases t@,
    {
        let ghost was = t@;
        let ghost s = step@;
        let ghost l = low@;
        if t.part % 2 == 1 {
            low = low.plus(step);
        }
        t = t.halved();
        proof {
            let u = t@;
            assert(u == was / 2);
            assert(ulp(was) == 2 * ulp(u));
            assert(v@ == u * (2 * s) + low@ && (2 * s) * 0x10_0000_0000_0000 <= v@) by (nonlinear_arith)
                requires
                    v@ == was * s + l,
                    was == 2 * u && low@ == l || was == 2 * u + 1 && low@ == l + s,
                    was >= 0x20_0000_0000_0000,
                    s >= 1,
                    l >= 0,
            ;
            assert(ulp(u) * (2 * s) == (2 * ulp(u)) * s) by (nonlinear_arith);
        }
        step = step.plus(step);
    }
    proof {
        assert(ulp(t@) == 1);
        assert(ulp(v@) == step@) by (nonlinear_arith)
            requires
                ulp(v@) == ulp(t@) * step@,
                ulp(t@) == 1,
        ;
        lemma_rounded(n, d as int, t@, step@, low@, rest as int);
    }
    let double: Size = low.plus(low);
    let up: bool = step.less(double) || !double.less(step) && (rest > 0 || t.part % 2 == 1);
    let base: Size = v.minus(low);
    proof {
        assert((t@ + 1) * step@ == t@ * step@ + step@) by (nonlinear_arith);
    }
    if up {
        proof {
            if step@ == 1 {
                assert(false);
            }
        }
        base.plus(step)
    } else {
        base
    }
}

/// A number, ready to be computed with.
#[derive(Clone, Copy, Debug, PartialEq, Eq)]
pub struct Num {
    pub neg: bool,
    pub size: Size,
}

impl Num {
    pub open spec fn view(&self) -> NumV {
        NumV { neg: self.neg, size: self.size@ }
    }

    /// As large as a number that was read can be.
    pub open spec fn wf(self) -> bool {
        self.size.wf() && self.size.whole <= 0x2_0000_0000_0000_0000
    }

    /// As large as the difference of two such numbers can be.
    pub open spec fn wide(self) -> bool {
        self.size.wf() && self.size.whole <= 0x8_0000_0000_0000_0000
    }

    pub fn zero() -> (r: Num)
        ensures
            r.wf(),
            r@ == NumV::zero(),
    {
        Num { neg: false, size: Size::zero() }
    }

    pub fn of_real(n: &Real) -> (r: Num)
        ensures
            r.wf(),
            r@ == n@,
    {
        let part: u128 = n.part as u128 * 0x1_0000 + n.fine as u128;
        Num { neg: n.neg, size: Size { whole: n.whole as u128, part } }
    }

    pub fn of_i64(n: i64) -> (r: Num)
        ensures
            r.wf(),
            r@ == of_int(n as int),
    {
        let m: u128 = if n < 0 { (-(n as i128)) as u128 } else { n as u128 };
        Num { neg: n < 0, size: nearest(Size { whole: m, part: 0 }, 0, 1) }
    }

    pub fn of_u64(n: u64) -> (r: Num)
        ensures
            r.wf(),
            r@ == of_int(n as int),
    {
        Num { neg: false, size: nearest(Size { whole: n as u128, part: 0 }, 0, 1) }
    }

    pub fn above_zero(&self) -> (r: bool)
        requires
            self.wide(),
        ensures
            r == self@.above_zero(),
    {
        !self.neg && (self.size.whole > 0 || self.size.part > 0)
    }

    pub fn is_zero(&self) -> (r: bool)
        requires
            self.wide(),
        ensures
            r == self@.is_zero(),
    {
        self.size.whole == 0 && self.size.part == 0
    }

    /// The number without its fraction, or the nearest that 64 bits hold.
    pub fn whole(&self) -> (r: i64)
        requires
            self.wide(),
        ensures
            r == self@.whole(),
    {
        let n: u128 = self.size.whole;
        assert(n == self@.size / 0x1_0000_0000_0000_0000_0000);
        if self.neg {
            if n > 0x8000_0000_0000_0000 {
                i64::MIN
            } else {
                (-(n as i128)) as i64
            }
        } else if n > 0x7fff_ffff_ffff_ffff {
            i64::MAX
        } else {
            n as i64
        }
    }

    /// The difference, as a mantissa of 53 bits holds it.
    pub fn minus(&self, other: &Num) -> (r: Num)
        requires
            self.wf(),
            other.wf(),
        ensures
            r.wide(),
            r@ == self@.minus(other@),
    {
        let less: bool = self.size.less(other.size);
        if self.neg != other.neg {
            let sum: Size = self.size.plus(other.size);
            let zero: bool = sum.whole == 0 && sum.part == 0;
            Num { neg: self.neg && !zero, size: nearest(sum, 0, 1) }
        } else if less {
            Num { neg: !self.neg, size: nearest(other.size.minus(self.size), 0, 1) }
        } else {
            let d: Size = self.size.minus(other.size);
            let zero: bool = d.whole == 0 && d.part == 0;
            Num { neg: self.neg && !zero, size: nearest(d, 0, 1) }
        }
    }
}

/// A size with so many parts to the whole, rounded: the wholes and the parts.
pub(crate) fn scaled(v: Size, k: u128) -> (r: (u128, u64))
    requires
        v.wf(),
        v.whole <= 0x8_0000_0000_0000_0000,
        2 <= k <= 1_000_000,
        k % 2 == 0,
    ensures
        r.0 == round_even(v@ * k, 0x1_0000_0000_0000_0000_0000) / (k as int),
        r.1 == round_even(v@ * k, 0x1_0000_0000_0000_0000_0000) % (k as int),
        r.1 < k,
        r.0 <= v.whole + 1,
{
    let one: u128 = 0x1_0000_0000_0000_0000_0000;
    assert(v.part * k < 0x10_0000_0000_0000_0000_0000_0000) by (nonlinear_arith)
        requires
            v.part < 0x1_0000_0000_0000_0000_0000,
            k <= 1_000_000,
    ;
    let low: u128 = v.part * k;
    let q: u128 = round_even_u(low, one);
    proof {
        let wk = v.whole * k;
        assert(v@ * k == wk * 0x1_0000_0000_0000_0000_0000 + low) by (nonlinear_arith)
            requires
                v@ == v.whole * 0x1_0000_0000_0000_0000_0000 + v.part,
                wk == v.whole * k,
                low == v.part * k,
        ;
        let h = k as int / 2;
        assert(wk == 2 * (v.whole * h)) by (nonlinear_arith)
            requires
                wk == v.whole * k,
                k == 2 * h,
        ;
        assert(low < k * 0x1_0000_0000_0000_0000_0000) by (nonlinear_arith)
            requires
                low == v.part * k,
                v.part < 0x1_0000_0000_0000_0000_0000,
                k >= 2,
        ;
        assert(q <= k);
        let all = round_even(v@ * k, 0x1_0000_0000_0000_0000_0000);
        assert(all == wk + q);
        if q == k {
            assert(all == (v.whole + 1) * k + 0) by (nonlinear_arith)
                requires
                    all == v.whole * k + q,
                    q == k,
            ;
            lemma_fundamental_div_mod_converse(all, k as int, v.whole + 1, 0);
        } else {
            lemma_fundamental_div_mod_converse(all, k as int, v.whole as int, q as int);
        }
    }
    if q == k {
        (v.whole + 1, 0)
    } else {
        (v.whole, q as u64)
    }
}

/// The wholes nearest to a size; of two that are equally near, the larger.
pub open spec fn half_up(size: int) -> int {
    (size + 0x8000_0000_0000_0000_0000) / 0x1_0000_0000_0000_0000_0000
}

fn rounded(v: Size) -> (r: u128)
    requires
        v.wf(),
        v.whole < u128::MAX,
    ensures
        r == half_up(v@),
{
    if v.part >= 0x8000_0000_0000_0000_0000 {
        v.whole + 1
    } else {
        v.whole
    }
}

/// The thousandths of a number below one.
pub open spec fn thousandths(size: int) -> int {
    half_up(near(size * 1000, 1))
}

pub(crate) fn thousandths_of(v: Size) -> (r: u64)
    requires
        v.wf(),
        v.whole == 0,
    ensures
        r == thousandths(v@),
{
    let p: u128 = v.part * 1000;
    let t: Size = Size { whole: p / 0x1_0000_0000_0000_0000_0000, part: p % 0x1_0000_0000_0000_0000_0000 };
    rounded(nearest(t, 0, 1)) as u64
}

/// The minutes of a number of seconds.
pub open spec fn minutes(size: int) -> int {
    near(size, 60) / 0x1_0000_0000_0000_0000_0000
}

/// The seconds that so many minutes leave.
pub open spec fn seconds_over(size: int, m: int) -> int {
    let rest = size - near(m * 60 * 0x1_0000_0000_0000_0000_0000, 1);
    if rest < 0 { -half_up(near(-rest, 1)) } else { half_up(near(rest, 1)) }
}

pub(crate) fn minutes_of(v: Size) -> (r: u128)
    requires
        v.wf(),
        60 <= v.whole <= 0x8_0000_0000_0000_0000,
    ensures
        r == minutes(v@),
        r <= 0x1_0000_0000_0000_0000,
{
    let a: u128 = v.whole / 60;
    let b: u128 = (v.whole % 60) * 0x1_0000_0000_0000_0000_0000 + v.part;
    let t: Size = Size { whole: a, part: b / 60 };
    let r: Size = nearest(t, b % 60, 60);
    assert(60 * t@ + b % 60 == v@);
    r.whole
}

pub(crate) fn seconds_over_of(v: Size, m: u128) -> (r: i128)
    requires
        v.wf(),
        v.whole <= 0x8_0000_0000_0000_0000,
        m <= 0x1_0000_0000_0000_0000,
    ensures
        r == seconds_over(v@, m as int),
        r > i128::MIN,
{
    let back: Size = nearest(Size { whole: m * 60, part: 0 }, 0, 1);
    if v.less(back) {
        -(rounded(nearest(back.minus(v), 0, 1)) as i128)
    } else {
        rounded(nearest(v.minus(back), 0, 1)) as i128
    }
}

} // verus!
