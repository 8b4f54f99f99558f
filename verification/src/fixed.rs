use vstd::prelude::*;

verus! {

/// The raw value of the number one.
pub const ONE_RAW: i64 = 65536;

/// A number with 16 fractional bits. `raw` is the number times 65536.
/// Arithmetic saturates at the ends of the range instead of wrapping.
#[derive(Clone, Copy, Debug, PartialEq, Eq, Hash, Structural)]
pub struct Fixed {
    pub raw: i64,
}

/// The raw value nearest to `v` that a `Fixed` can hold.
pub open spec fn saturate(v: int) -> i64 {
    if v > i64::MAX {
        i64::MAX
    } else if v < i64::MIN {
        i64::MIN
    } else {
        v as i64
    }
}

fn saturate_wide(v: i128) -> (r: i64)
    ensures
        r == saturate(v as int),
{
    if v > 0x7fff_ffff_ffff_ffff {
        0x7fff_ffff_ffff_ffff
    } else if v < -0x8000_0000_0000_0000 {
        -0x8000_0000_0000_0000
    } else {
        v as i64
    }
}

fn floor_div_wide(n: i128, d: i128) -> (r: i128)
    requires
        d > 0,
        -0x4000_0000_0000_0000_0000_0000_0000_0000 <= n <= 0x4000_0000_0000_0000_0000_0000_0000_0000,
        d <= 0x4000_0000_0000_0000_0000_0000_0000_0000,
    ensures
        r == n as int / d as int,
{
    if n >= 0 {
        n / d
    } else {
        let m: i128 = -n;
        let q: i128 = (m - 1) / d;
        proof {
            let mi = m as int;
            let di = d as int;
            let qi = q as int;
            assert(qi == (mi - 1) / di);
            assert((-mi) / di == -qi - 1) by {
                vstd::arithmetic::div_mod::lemma_fundamental_div_mod(mi - 1, di);
                vstd::arithmetic::div_mod::lemma_mod_bound(mi - 1, di);
                let r = (mi - 1) % di;
                assert(mi - 1 == di * qi + r);
                assert(-mi == di * (-qi - 1) + (di - 1 - r)) by (nonlinear_arith)
                    requires
                        mi - 1 == di * qi + r,
                ;
                vstd::arithmetic::div_mod::lemma_fundamental_div_mod_converse(
                    -mi,
                    di,
                    -qi - 1,
                    di - 1 - r,
                );
            }
        }
        -q - 1
    }
}

impl Fixed {
    /// The number zero.
    pub open spec fn spec_zero() -> Fixed {
        Fixed { raw: 0 }
    }

    /// The number one.
    pub open spec fn spec_one() -> Fixed {
        Fixed { raw: ONE_RAW }
    }

    /// The greatest number, which stands for what lies beyond every other.
    pub open spec fn spec_max_value() -> Fixed {
        Fixed { raw: i64::MAX }
    }

    /// The least number, which stands for what lies before every other.
    pub open spec fn spec_min_value() -> Fixed {
        Fixed { raw: i64::MIN }
    }

    /// The whole number `v`.
    pub open spec fn spec_from_int(v: int) -> Fixed {
        Fixed { raw: saturate(v * ONE_RAW) }
    }

    /// The fraction `numerator / denominator`, rounded down.
    pub open spec fn spec_from_ratio(numerator: int, denominator: int) -> Fixed {
        Fixed { raw: saturate((numerator * ONE_RAW) / denominator) }
    }

    /// The sum, saturated.
    pub open spec fn spec_plus(self, other: Fixed) -> Fixed {
        Fixed { raw: saturate(self.raw + other.raw) }
    }

    /// The difference, saturated.
    pub open spec fn spec_minus(self, other: Fixed) -> Fixed {
        Fixed { raw: saturate(self.raw - other.raw) }
    }

    /// The product, rounded down and saturated.
    pub open spec fn spec_times(self, other: Fixed) -> Fixed {
        Fixed { raw: saturate((self.raw * other.raw) / (ONE_RAW as int)) }
    }

    /// The mean of two numbers, rounded down.
    pub open spec fn spec_mean(self, other: Fixed) -> Fixed {
        Fixed { raw: saturate((self.raw + other.raw) / 2) }
    }

    /// Half of the number, rounded down.
    pub open spec fn spec_half(self) -> Fixed {
        Fixed { raw: saturate(self.raw as int / 2) }
    }

    /// The number of the stretch from zero to one that is nearest.
    pub open spec fn spec_clamp_unit(self) -> Fixed {
        if self.raw < 0 {
            Fixed::spec_zero()
        } else if self.raw > ONE_RAW {
            Fixed::spec_one()
        } else {
            self
        }
    }

    /// Whether the number lies between zero and one, both included.
    pub open spec fn spec_is_unit(self) -> bool {
        0 <= self.raw <= ONE_RAW
    }

    /// The smaller of two numbers.
    pub open spec fn spec_min(self, other: Fixed) -> Fixed {
        if self.raw <= other.raw {
            self
        } else {
            other
        }
    }

    /// The greater of two numbers.
    pub open spec fn spec_max(self, other: Fixed) -> Fixed {
        if self.raw >= other.raw {
            self
        } else {
            other
        }
    }

    /// The greatest whole number that is not above this one.
    pub open spec fn spec_floor(self) -> int {
        self.raw as int / (ONE_RAW as int)
    }

    /// The number zero.
    pub fn zero() -> (r: Fixed)
        ensures
            r == Fixed::spec_zero(),
    {
        Fixed { raw: 0 }
    }

    /// The number one.
    pub fn one() -> (r: Fixed)
        ensures
            r == Fixed::spec_one(),
    {
        Fixed { raw: ONE_RAW }
    }

    /// The greatest number.
    pub fn max_value() -> (r: Fixed)
        ensures
            r == Fixed::spec_max_value(),
    {
        Fixed { raw: 0x7fff_ffff_ffff_ffff }
    }

    /// The least number.
    pub fn min_value() -> (r: Fixed)
        ensures
            r == Fixed::spec_min_value(),
    {
        Fixed { raw: -0x8000_0000_0000_0000 }
    }

    /// The number with the given raw value.
    pub fn from_raw(raw: i64) -> (r: Fixed)
        ensures
            r.raw == raw,
    {
        Fixed { raw }
    }

    /// The whole number `v`.
    pub fn from_int(v: i64) -> (r: Fixed)
        ensures
            r == Fixed::spec_from_int(v as int),
    {
        let wide: i128 = (v as i128) * 65536;
        Fixed { raw: saturate_wide(wide) }
    }

    /// The fraction `numerator / denominator`, rounded down.
    pub fn from_ratio(numerator: i64, denominator: u32) -> (r: Fixed)
        requires
            denominator > 0,
        ensures
            r == Fixed::spec_from_ratio(numerator as int, denominator as int),
    {
        let wide: i128 = (numerator as i128) * 65536;
        Fixed { raw: saturate_wide(floor_div_wide(wide, denominator as i128)) }
    }

    /// The sum, saturated.
    pub fn plus(self, other: Fixed) -> (r: Fixed)
        ensures
            r == self.spec_plus(other),
    {
        Fixed { raw: saturate_wide(self.raw as i128 + other.raw as i128) }
    }

    /// The difference, saturated.
    pub fn minus(self, other: Fixed) -> (r: Fixed)
        ensures
            r == self.spec_minus(other),
    {
        Fixed { raw: saturate_wide(self.raw as i128 - other.raw as i128) }
    }

    /// The product, rounded down and saturated.
    pub fn times(self, other: Fixed) -> (r: Fixed)
        ensures
            r == self.spec_times(other),
    {
        let a: i128 = self.raw as i128;
        let b: i128 = other.raw as i128;
        assert(-0x4000_0000_0000_0000_0000_0000_0000_0000 <= a * b
            <= 0x4000_0000_0000_0000_0000_0000_0000_0000) by (nonlinear_arith)
            requires
                -0x8000_0000_0000_0000 <= a <= 0x8000_0000_0000_0000,
                -0x8000_0000_0000_0000 <= b <= 0x8000_0000_0000_0000,
        ;
        let product: i128 = a * b;
        Fixed { raw: saturate_wide(floor_div_wide(product, 65536)) }
    }

    /// The mean of two numbers, rounded down.
    pub fn mean(self, other: Fixed) -> (r: Fixed)
        ensures
            r == self.spec_mean(other),
    {
        let sum: i128 = self.raw as i128 + other.raw as i128;
        Fixed { raw: saturate_wide(floor_div_wide(sum, 2)) }
    }

    /// Half of the number, rounded down.
    pub fn half(self) -> (r: Fixed)
        ensures
            r == self.spec_half(),
    {
        Fixed { raw: saturate_wide(floor_div_wide(self.raw as i128, 2)) }
    }

    /// The number of the stretch from zero to one that is nearest.
    pub fn clamp_unit(self) -> (r: Fixed)
        ensures
            r == self.spec_clamp_unit(),
            r.spec_is_unit(),
    {
        if self.raw < 0 {
            Fixed::zero()
        } else if self.raw > ONE_RAW {
            Fixed::one()
        } else {
            self
        }
    }

    /// Whether the number lies between zero and one, both included.
    pub fn is_unit(self) -> (r: bool)
        ensures
            r == self.spec_is_unit(),
    {
        0 <= self.raw && self.raw <= ONE_RAW
    }

    /// The smaller of two numbers.
    pub fn min(self, other: Fixed) -> (r: Fixed)
        ensures
            r == self.spec_min(other),
    {
        if self.raw <= other.raw {
            self
        } else {
            other
        }
    }

    /// The greater of two numbers.
    pub fn max(self, other: Fixed) -> (r: Fixed)
        ensures
            r == self.spec_max(other),
    {
        if self.raw >= other.raw {
            self
        } else {
            other
        }
    }

    /// The greatest whole number that is not above this one.
    pub fn floor(self) -> (r: i64)
        ensures
            r == self.spec_floor(),
    {
        let q: i128 = floor_div_wide(self.raw as i128, 65536);
        q as i64
    }
}

} // verus!
