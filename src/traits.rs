use vstd::prelude::*;
use vstd::arithmetic::power::lemma_pow_increases;
use vstd::arithmetic::power::lemma_pow_positive;
use vstd::arithmetic::power::pow;

use crate::rule::fits;
use crate::rule::widen;
use crate::rule::ConversionError;
use crate::rule::mul_div_trunc;
use crate::rule::trunc_div;

verus! {

/// A quantity of one unit family: a magnitude in its own unit, that unit, and the
/// magnitude converted to another unit of the family.
pub trait HasConvertableUnit {
    type Unit;

    /// The magnitude, in steps of the quantity's own unit.
    spec fn spec_scalar(&self) -> int;

    spec fn spec_unit(&self) -> Self::Unit;

    /// The family's conversion of a magnitude `v` from one of its units to another.
    spec fn conversion(v: int, from: Self::Unit, to: Self::Unit) -> Result<
        int,
        ConversionError<Self::Unit>,
    >;

    fn scalar(&self) -> (r: i128)
        ensures
            r == self.spec_scalar(),
    ;

    fn unit(&self) -> (r: Self::Unit)
        ensures
            r == self.spec_unit(),
    ;

    fn convert_scalar(&self, to_unit: &Self::Unit) -> (r: Result<i128, ConversionError<Self::Unit>>)
        ensures
            widen(r) == Self::conversion(self.spec_scalar(), self.spec_unit(), *to_unit),
    ;
}

/// A holder of one quantity that converts it into a new quantity of another unit.
pub trait CanConvertUnit {
    type Unit;

    type Quantity;

    /// `r` is the outcome of converting the held quantity to `to_unit`.
    spec fn converts_to(
        &self,
        to_unit: Self::Unit,
        r: Result<Self::Quantity, ConversionError<Self::Unit>>,
    ) -> bool;

    fn convert(&self, to_unit: Self::Unit) -> (r: Result<Self::Quantity, ConversionError<Self::Unit>>)
        ensures
            self.converts_to(to_unit, r),
    ;
}

/// `v * 10^power`, rounded toward zero where `power` is negative.
pub open spec fn scale_pow10(v: int, power: int) -> int {
    if power >= 0 {
        v * pow(10, power as nat)
    } else {
        trunc_div(v, pow(10, (-power) as nat))
    }
}

/// Scaling by a power of ten, as metric prefixes do.
pub trait MetricScale<T>: Sized {
    /// `pow10(power)` is defined on this value.
    spec fn pow10_defined(&self, power: int) -> bool;

    /// The result of `pow10(power)`.
    spec fn pow10_spec(&self, power: int) -> T;

    fn pow10(&self, power: i32) -> (r: T)
        requires
            self.pow10_defined(power as int),
        ensures
            r == self.pow10_spec(power as int),
    ;
}

/// `10^k` for `k` up to 18.
fn power_of_ten(k: u32) -> (r: i128)
    requires
        k <= 18,
    ensures
        r == pow(10, k as nat),
        0 < r <= 1_000_000_000_000_000_000,
{
    let mut r: i128 = 1;
    let mut i: u32 = 0;
    proof {
        reveal_with_fuel(pow, 19);
    }
    assert(pow(10, 17) == 100_000_000_000_000_000);
    assert(pow(10, 18) == 1_000_000_000_000_000_000);
    while i < k
        invariant
            i <= k <= 18,
            r == pow(10, i as nat),
            pow(10, 17) == 100_000_000_000_000_000,
            pow(10, 18) == 1_000_000_000_000_000_000,
        decreases k - i,
    {
        proof {
            lemma_pow_increases(10, i as nat, 17);
            lemma_pow_positive(10, i as nat);
        }
        proof {
            vstd::arithmetic::power::lemma_pow_adds(10, i as nat, 1);
            vstd::arithmetic::power::lemma_pow1(10);
        }
        r = r * 10;
        i = i + 1;
    }
    proof {
        lemma_pow_increases(10, k as nat, 18);
        lemma_pow_positive(10, k as nat);
    }
    r
}

impl MetricScale<i128> for i128 {
    /// Powers up to eighteen either way, on magnitudes whose result fits.
    open spec fn pow10_defined(&self, power: int) -> bool {
        -18 <= power <= 18 && fits(*self as int) && fits(scale_pow10(*self as int, power))
    }

    open spec fn pow10_spec(&self, power: int) -> i128 {
        scale_pow10(*self as int, power) as i128
    }

    fn pow10(&self, power: i32) -> (r: i128) {
        let k: u32 = if power < 0 {
            (-power) as u32
        } else {
            power as u32
        };
        let p = power_of_ten(k);
        let scaled = if power >= 0 {
            mul_div_trunc(*self, p, 1)
        } else {
            assert(*self * 1 == *self);
            mul_div_trunc(*self, 1, p)
        };
        scaled.unwrap()
    }
}

} // verus!
