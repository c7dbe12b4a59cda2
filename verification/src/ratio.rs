//! Exact rationals. Prices (SOL per token, or the reverse) and relative
//! ranges are kept as `num / den` with a sign, so that every comparison the
//! grid strategy makes is exact.
use vstd::prelude::*;
use crate::wide::{U256, lemma_signed_mul, mul64, mul_wide, signed, signed_add, signed_lt};

verus! {

/// The rational number `num / den`, negated when `negative` is set. A ratio is
/// `valid` when its denominator is not zero.
#[derive(Clone, Copy, Debug, PartialEq, Eq, Structural)]
pub struct Ratio {
    pub negative: bool,
    pub num: u64,
    pub den: u64,
}

/// `a < b` as rationals.
pub open spec fn ratio_lt(a: Ratio, b: Ratio) -> bool {
    a.numer() * (b.den as int) < b.numer() * (a.den as int)
}

/// `a <= b` as rationals.
pub open spec fn ratio_le(a: Ratio, b: Ratio) -> bool {
    a.numer() * (b.den as int) <= b.numer() * (a.den as int)
}

/// `a == b` as rationals (the same number, possibly written differently).
pub open spec fn ratio_eq(a: Ratio, b: Ratio) -> bool {
    a.numer() * (b.den as int) == b.numer() * (a.den as int)
}

/// `a > b * (1 + r)`.
pub open spec fn above_raised(a: Ratio, b: Ratio, r: Ratio) -> bool {
    a.numer() * (b.den as int) * (r.den as int) > b.numer() * (a.den as int) * ((r.den as int)
        + r.numer())
}

/// `a < b * (1 - r)`.
pub open spec fn below_lowered(a: Ratio, b: Ratio, r: Ratio) -> bool {
    a.numer() * (b.den as int) * (r.den as int) < b.numer() * (a.den as int) * ((r.den as int)
        - r.numer())
}

/// `a - b >= k`, for a whole number `k`.
pub open spec fn rose_by_at_least(a: Ratio, b: Ratio, k: int) -> bool {
    a.numer() * (b.den as int) - b.numer() * (a.den as int) >= k * (a.den as int) * (b.den as int)
}

impl Ratio {
    /// The signed numerator.
    pub open spec fn numer(self) -> int {
        signed(self.negative, self.num as int)
    }

    /// The denominator is not zero, so the pair names a number.
    pub open spec fn valid(self) -> bool {
        self.den > 0
    }

    /// The nonnegative `num / den`, or `None` when `den` is zero.
    pub fn new(num: u64, den: u64) -> (r: Option<Ratio>)
        ensures
            r is None <==> den == 0,
            r matches Some(x) ==> !x.negative && x.num == num && x.den == den,
    {
        if den == 0 {
            None
        } else {
            Some(Ratio { negative: false, num, den })
        }
    }

    /// `self < other`.
    pub fn less_than(&self, other: &Ratio) -> (r: bool)
        ensures
            r == ratio_lt(*self, *other),
    {
        let left = U256 { hi: 0, lo: mul64(self.num, other.den) };
        let right = U256 { hi: 0, lo: mul64(other.num, self.den) };
        proof {
            lemma_signed_mul(self.negative, self.num as int, false, other.den as int);
            lemma_signed_mul(other.negative, other.num as int, false, self.den as int);
        }
        signed_lt(self.negative, &left, other.negative, &right)
    }

    /// `self > base * (1 + range)`.
    pub fn is_above_raised(&self, base: &Ratio, range: &Ratio) -> (r: bool)
        ensures
            r == above_raised(*self, *base, *range),
    {
        let left = mul_wide(mul64(self.num, base.den), range.den as u128);
        let factor = signed_add(false, range.den as u128, range.negative, range.num as u128);
        let right = mul_wide(mul64(base.num, self.den), factor.1);
        let right_negative = base.negative != factor.0;
        proof {
            lemma_signed_mul(
                self.negative,
                (self.num as int) * (base.den as int),
                false,
                range.den as int,
            );
            lemma_signed_mul(self.negative, self.num as int, false, base.den as int);
            lemma_signed_mul(base.negative, base.num as int, false, self.den as int);
            lemma_signed_mul(
                base.negative,
                (base.num as int) * (self.den as int),
                factor.0,
                factor.1 as int,
            );
        }
        signed_lt(right_negative, &right, self.negative, &left)
    }

    /// `self < base * (1 - range)`.
    pub fn is_below_lowered(&self, base: &Ratio, range: &Ratio) -> (r: bool)
        ensures
            r == below_lowered(*self, *base, *range),
    {
        let left = mul_wide(mul64(self.num, base.den), range.den as u128);
        let factor = signed_add(false, range.den as u128, !range.negative, range.num as u128);
        let right = mul_wide(mul64(base.num, self.den), factor.1);
        let right_negative = base.negative != factor.0;
        proof {
            lemma_signed_mul(
                self.negative,
                (self.num as int) * (base.den as int),
                false,
                range.den as int,
            );
            lemma_signed_mul(self.negative, self.num as int, false, base.den as int);
            lemma_signed_mul(base.negative, base.num as int, false, self.den as int);
            lemma_signed_mul(
                base.negative,
                (base.num as int) * (self.den as int),
                factor.0,
                factor.1 as int,
            );
            assert(signed(!range.negative, range.num as int) == -range.numer());
        }
        signed_lt(self.negative, &left, right_negative, &right)
    }

    /// `self - previous >= step`.
    pub fn rose_by_at_least(&self, previous: &Ratio, step: u64) -> (r: bool)
        ensures
            r == rose_by_at_least(*self, *previous, step as int),
    {
        let left = U256 { hi: 0, lo: mul64(self.num, previous.den) };
        let scaled = mul64(step, previous.den);
        proof {
            assert((previous.num as int) + (scaled as int) < 0x1_0000_0000_0000_0000_0000_0000_0000_0000int)
                by (nonlinear_arith)
                requires
                    scaled as int == (step as int) * (previous.den as int),
                    0 <= step < 0x1_0000_0000_0000_0000int,
                    0 <= previous.den < 0x1_0000_0000_0000_0000int,
                    0 <= previous.num < 0x1_0000_0000_0000_0000int,
            ;
        }
        let sum = signed_add(previous.negative, previous.num as u128, false, scaled);
        let right = mul_wide(sum.1, self.den as u128);
        proof {
            lemma_signed_mul(self.negative, self.num as int, false, previous.den as int);
            lemma_signed_mul(sum.0, sum.1 as int, false, self.den as int);
            let pn = previous.numer();
            assert((pn + (step as int) * (previous.den as int)) * (self.den as int) == pn * (
            self.den as int) + (step as int) * (self.den as int) * (previous.den as int))
                by (nonlinear_arith);
        }
        !signed_lt(self.negative, &left, sum.0, &right)
    }
}

/// Law: on ratios with nonzero denominators, `ratio_lt` is a strict order:
/// irreflexive and transitive, so comparing prices as ratios orders them as
/// the numbers they stand for.
pub proof fn lemma_ratio_lt_is_strict_order(a: Ratio, b: Ratio, c: Ratio)
    requires
        a.valid(),
        b.valid(),
        c.valid(),
    ensures
        !ratio_lt(a, a),
        ratio_lt(a, b) && ratio_lt(b, c) ==> ratio_lt(a, c),
        ratio_lt(a, b) || ratio_eq(a, b) || ratio_lt(b, a),
{
    let (an, ad, bn, bd, cn, cd) = (
        a.numer(),
        a.den as int,
        b.numer(),
        b.den as int,
        c.numer(),
        c.den as int,
    );
    if ratio_lt(a, b) && ratio_lt(b, c) {
        assert(an * cd < cn * ad) by (nonlinear_arith)
            requires
                an * bd < bn * ad,
                bn * cd < cn * bd,
                ad > 0,
                bd > 0,
                cd > 0,
        {
            assert(an * bd * cd < bn * ad * cd);
            assert(bn * cd * ad < cn * bd * ad);
            assert(an * cd * bd < cn * ad * bd);
        }
    }
}

/// Law: a number above `b * (1 + r)` is above `b`, and a number below
/// `b * (1 - r)` is below `b`, for every nonnegative `r` and `b`.
pub proof fn lemma_moves_are_away_from_base(a: Ratio, b: Ratio, r: Ratio)
    requires
        a.valid(),
        b.valid(),
        r.valid(),
        b.numer() >= 0,
        r.numer() >= 0,
    ensures
        above_raised(a, b, r) ==> ratio_lt(b, a),
        below_lowered(a, b, r) ==> ratio_lt(a, b),
{
    let (an, ad, bn, bd, rn, rd) = (
        a.numer(),
        a.den as int,
        b.numer(),
        b.den as int,
        r.numer(),
        r.den as int,
    );
    if above_raised(a, b, r) {
        assert(bn * ad < an * bd) by (nonlinear_arith)
            requires
                an * bd * rd > bn * ad * (rd + rn),
                rd > 0,
                rn >= 0,
                bn >= 0,
                ad >= 0,
        {
            assert(bn * ad * (rd + rn) >= bn * ad * rd);
        }
    }
    if below_lowered(a, b, r) {
        assert(an * bd < bn * ad) by (nonlinear_arith)
            requires
                an * bd * rd < bn * ad * (rd - rn),
                rd > 0,
                rn >= 0,
                bn >= 0,
                ad >= 0,
        {
            assert(bn * ad * (rd - rn) <= bn * ad * rd);
        }
    }
}

} // verus!
