//! A signed fixed-point scalar with 32 fractional bits and saturating
//! arithmetic.

use vstd::prelude::*;
use crate::scalar::Scalar;

verus! {

/// The raw representation of the number one: two to the power 32.
pub const ONE_RAW: i64 = 0x1_0000_0000;

/// A number `raw / 2^32`, held in 64 bits.
///
/// Sums, differences and products that leave the representable range stop at
/// its nearest end. A product is rounded down to the next multiple of
/// `2^-32`.
#[derive(Clone, Copy, Debug, PartialEq, Eq)]
pub struct Fixed {
    pub raw: i64,
}

/// The representable value nearest to `v`.
pub open spec fn saturate(v: int) -> i64 {
    if v < i64::MIN {
        i64::MIN
    } else if v > i64::MAX {
        i64::MAX
    } else {
        v as i64
    }
}

fn saturate_wide(v: i128) -> (r: i64)
    ensures
        r == saturate(v as int),
{
    if v < i64::MIN as i128 {
        i64::MIN
    } else if v > i64::MAX as i128 {
        i64::MAX
    } else {
        v as i64
    }
}

impl Fixed {
    /// The number `raw / 2^32`.
    pub fn from_raw(raw: i64) -> (r: Self)
        ensures
            r.raw == raw,
    {
        Fixed { raw }
    }

    /// The numerator of the number over `2^32`.
    pub fn raw(self) -> (r: i64)
        ensures
            r == self.raw,
    {
        self.raw
    }
}

impl Scalar for Fixed {
    open spec fn zero_value() -> Self {
        Fixed { raw: 0 }
    }

    open spec fn one_value() -> Self {
        Fixed { raw: ONE_RAW }
    }

    open spec fn sum(self, rhs: Self) -> Self {
        Fixed { raw: saturate(self.raw + rhs.raw) }
    }

    open spec fn difference(self, rhs: Self) -> Self {
        Fixed { raw: saturate(self.raw - rhs.raw) }
    }

    open spec fn product(self, rhs: Self) -> Self {
        Fixed { raw: saturate((self.raw * rhs.raw) / (ONE_RAW as int)) }
    }

    open spec fn positive(self) -> bool {
        self.raw > 0
    }

    open spec fn unit_draw(word: u32) -> Self {
        Fixed { raw: word as i64 }
    }

    fn zero() -> (r: Self) {
        Fixed { raw: 0 }
    }

    fn one() -> (r: Self) {
        Fixed { raw: ONE_RAW }
    }

    fn plus(self, rhs: Self) -> (r: Self) {
        Fixed { raw: saturate_wide(self.raw as i128 + rhs.raw as i128) }
    }

    fn minus(self, rhs: Self) -> (r: Self) {
        Fixed { raw: saturate_wide(self.raw as i128 - rhs.raw as i128) }
    }

    fn times(self, rhs: Self) -> (r: Self) {
        let a: i128 = self.raw as i128;
        let b: i128 = rhs.raw as i128;
        assert(-0x4000_0000_0000_0000_0000_0000_0000_0000 <= a * b
            <= 0x4000_0000_0000_0000_0000_0000_0000_0000) by (nonlinear_arith)
            requires
                -0x8000_0000_0000_0000 <= a <= 0x7fff_ffff_ffff_ffff,
                -0x8000_0000_0000_0000 <= b <= 0x7fff_ffff_ffff_ffff,
        ;
        let wide: i128 = a * b;
        let scale: i128 = ONE_RAW as i128;
        let scaled: i128 = if wide >= 0 {
            wide / scale
        } else {
            let up: i128 = (-wide + (scale - 1)) / scale;
            assert(-up == wide as int / scale as int) by (nonlinear_arith)
                requires
                    wide < 0,
                    scale == 0x1_0000_0000,
                    up == (-wide + (scale - 1)) / scale as int,
            ;
            -up
        };
        Fixed { raw: saturate_wide(scaled) }
    }

    fn is_positive(self) -> (r: bool) {
        self.raw > 0
    }

    fn from_draw(word: u32) -> (r: Self) {
        Fixed { raw: word as i64 }
    }
}

} // verus!
