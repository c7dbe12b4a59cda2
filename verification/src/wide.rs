//! Exact products of machine integers, wide enough that comparing a
//! product of three 64-bit factors never overflows.
use vstd::prelude::*;

verus! {

/// 2^64.
pub open spec fn base64() -> int {
    0x1_0000_0000_0000_0000int
}

/// 2^128.
pub open spec fn base128() -> int {
    0x1_0000_0000_0000_0000_0000_0000_0000_0000int
}

/// An unsigned integer below 2^256, kept as its upper and lower 128-bit halves.
pub struct U256 {
    pub hi: u128,
    pub lo: u128,
}

impl U256 {
    /// The number this pair stands for.
    pub open spec fn value(self) -> int {
        self.hi as int * base128() + self.lo as int
    }

    /// `self < other`, decided on the two halves.
    pub fn lt(&self, other: &U256) -> (r: bool)
        ensures
            r == (self.value() < other.value()),
    {
        if self.hi < other.hi {
            true
        } else if self.hi == other.hi {
            self.lo < other.lo
        } else {
            false
        }
    }
}

/// The exact product of two 64-bit numbers.
pub fn mul64(x: u64, y: u64) -> (r: u128)
    ensures
        r as int == x as int * y as int,
{
    proof {
        lemma_mul64_bound(x as int, y as int);
    }
    (x as u128) * (y as u128)
}

proof fn lemma_mul64_bound(x: int, y: int)
    requires
        0 <= x < base64(),
        0 <= y < base64(),
    ensures
        0 <= x * y < base128(),
{
    assert(0 <= x * y < 0x1_0000_0000_0000_0000_0000_0000_0000_0000int) by (nonlinear_arith)
        requires
            0 <= x < 0x1_0000_0000_0000_0000int,
            0 <= y < 0x1_0000_0000_0000_0000int,
    ;
}

proof fn lemma_split(v: int)
    requires
        0 <= v,
    ensures
        v == (v / base64()) * base64() + v % base64(),
        0 <= v % base64() < base64(),
        0 <= v / base64(),
{
    vstd::arithmetic::div_mod::lemma_fundamental_div_mod(v, base64());
    vstd::arithmetic::div_mod::lemma_mod_bound(v, base64());
    vstd::arithmetic::div_mod::lemma_div_pos_is_pos(v, base64());
}

proof fn lemma_expand(a: int, b: int, a1: int, a0: int, b1: int, b0: int)
    requires
        a == a1 * base64() + a0,
        b == b1 * base64() + b0,
    ensures
        a * b == (a1 * b1) * base128() + (a1 * b0) * base64() + (a0 * b1) * base64() + a0 * b0,
{
    assert(a * b == (a1 * b1) * (base64() * base64()) + (a1 * b0) * base64() + (a0 * b1)
        * base64() + a0 * b0) by (nonlinear_arith)
        requires
            a == a1 * base64() + a0,
            b == b1 * base64() + b0,
    ;
}

/// The exact product of two 128-bit numbers, as a 256-bit number.
pub fn mul_wide(a: u128, b: u128) -> (r: U256)
    ensures
        r.value() == a as int * b as int,
{
    let a1: u64 = (a / 0x1_0000_0000_0000_0000u128) as u64;
    let a0: u64 = (a % 0x1_0000_0000_0000_0000u128) as u64;
    let b1: u64 = (b / 0x1_0000_0000_0000_0000u128) as u64;
    let b0: u64 = (b % 0x1_0000_0000_0000_0000u128) as u64;
    proof {
        lemma_split(a as int);
        lemma_split(b as int);
        assert(a as int / base64() < base64()) by {
            vstd::arithmetic::div_mod::lemma_div_by_multiple_is_strongly_ordered(
                a as int,
                base128(),
                base64(),
                base64(),
            );
        }
        assert(b as int / base64() < base64()) by {
            vstd::arithmetic::div_mod::lemma_div_by_multiple_is_strongly_ordered(
                b as int,
                base128(),
                base64(),
                base64(),
            );
        }
    }
    let p00 = mul64(a0, b0);
    let p01 = mul64(a0, b1);
    let p10 = mul64(a1, b0);
    let p11 = mul64(a1, b1);
    proof {
        lemma_split(p00 as int);
        lemma_split(p01 as int);
        lemma_split(p10 as int);
        lemma_expand(a as int, b as int, a1 as int, a0 as int, b1 as int, b0 as int);
    }
    let mid: u128 = p00 / 0x1_0000_0000_0000_0000u128 + p01 % 0x1_0000_0000_0000_0000u128 + p10
        % 0x1_0000_0000_0000_0000u128;
    proof {
        lemma_split(mid as int);
    }
    let ghost hi_val: int = p11 as int + p01 as int / base64() + p10 as int / base64() + mid as int
        / base64();
    let ghost lo_val: int = p00 as int % base64() + (mid as int % base64()) * base64();
    assert(a as int * b as int == hi_val * base128() + lo_val);
    assert(0 <= lo_val < base128());
    assert(hi_val < base128()) by {
        assert((a as int) * (b as int) < base128() * base128()) by (nonlinear_arith)
            requires
                0 <= a < base128(),
                0 <= b < base128(),
        ;
        assert(hi_val * base128() < base128() * base128());
        assert(hi_val < base128()) by (nonlinear_arith)
            requires
                hi_val * base128() < base128() * base128(),
        ;
    }
    let hi: u128 = p11 + p01 / 0x1_0000_0000_0000_0000u128 + p10 / 0x1_0000_0000_0000_0000u128
        + mid / 0x1_0000_0000_0000_0000u128;
    let lo: u128 = p00 % 0x1_0000_0000_0000_0000u128 + (mid % 0x1_0000_0000_0000_0000u128)
        * 0x1_0000_0000_0000_0000u128;
    U256 { hi, lo }
}

/// The number whose magnitude is `v` and which is negative when `negative` is set.
pub open spec fn signed(negative: bool, v: int) -> int {
    if negative {
        -v
    } else {
        v
    }
}

/// The sign of a product is the exclusive or of the factors' signs.
pub proof fn lemma_signed_mul(n1: bool, x: int, n2: bool, y: int)
    ensures
        signed(n1, x) * signed(n2, y) == signed(n1 != n2, x * y),
{
    if n1 {
        assert((-x) * signed(n2, y) == -(x * signed(n2, y))) by (nonlinear_arith);
    }
    if n2 {
        assert(x * (-y) == -(x * y)) by (nonlinear_arith);
    }
}

/// `signed(an, a) < signed(bn, b)` for two 256-bit magnitudes.
pub fn signed_lt(an: bool, a: &U256, bn: bool, b: &U256) -> (r: bool)
    ensures
        r == (signed(an, a.value()) < signed(bn, b.value())),
{
    let a_zero = a.hi == 0 && a.lo == 0;
    let b_zero = b.hi == 0 && b.lo == 0;
    if an && bn {
        b.lt(a)
    } else if an {
        !(a_zero && b_zero)
    } else if bn {
        false
    } else {
        a.lt(b)
    }
}

/// `signed(an, a) + signed(bn, b)`, as a sign and a magnitude.
pub fn signed_add(an: bool, a: u128, bn: bool, b: u128) -> (r: (bool, u128))
    requires
        (a as int) + (b as int) < base128(),
    ensures
        signed(r.0, r.1 as int) == signed(an, a as int) + signed(bn, b as int),
{
    if an == bn {
        (an, a + b)
    } else if a >= b {
        (an, a - b)
    } else {
        (bn, b - a)
    }
}

} // verus!
