use crate::num::{
    lemma_sign_mask_is_top_bit, lt_pattern, one_pattern, select_pattern, Float, Number, UInt,
};
use crate::primitives::partition::{P256, P512};
use crate::primitives::table_validation::ValidPartitionSize;
use crate::primitives::{Attempt, Step};
use large_shape::LargeShapeGamma;
use rand_core::RngCore;
use small_shape::SmallShapeGamma;
use vstd::prelude::*;

mod large_shape;
mod small_shape;

verus! {

/// An unsigned integer type for use with Γ distributions: it tells the
/// partition of the table, the largest of up to 512 cells that is valid on
/// words of this type.
pub trait GammaUInt: UInt {
    /// Partition of the table.
    type P: ValidPartitionSize<Self>;
}

impl GammaUInt for u32 {
    type P = P256;
}

impl GammaUInt for u64 {
    type P = P512;
}

/// A floating-point format for use with Γ distributions.
pub trait GammaFloat: Float {
    /// Partition of the table.
    type P: ValidPartitionSize<Self::UInt>;

    /// Tolerance of the tabulation: 1e-1 in 32 bits, 1e-6 in 64 bits.
    fn tolerance() -> (x: Number<Self>)
        ensures
            x.bits() == select_pattern(Self::UInt::spec_bits(), 0x3dcc_cccd, 0x3eb0_c6f7_a0b5_ed8d),
            x == Number::<Self>::spec_from_patterns(0x3dcc_cccd, 0x3eb0_c6f7_a0b5_ed8d),
    {
        Number::from_patterns(0x3dcc_cccd, 0x3eb0_c6f7_a0b5_ed8d)
    }

    /// For `k≥1`, position of the tails of the normal distribution that the
    /// cube root of a gamma deviate nearly follows, in standard deviations:
    /// 3.25.
    fn large_shape_normalized_tail_pos() -> (x: Number<Self>)
        ensures
            x.bits() == select_pattern(Self::UInt::spec_bits(), 0x4050_0000, 0x400a_0000_0000_0000),
            x == Number::<Self>::spec_from_patterns(0x4050_0000, 0x400a_0000_0000_0000),
    {
        Number::from_patterns(0x4050_0000, 0x400a_0000_0000_0000)
    }

    /// For `k<1`, relative weight of the left tail envelope: 0.001.
    fn small_shape_left_tail_envelope_probability() -> (x: Number<Self>)
        ensures
            x.bits() == select_pattern(Self::UInt::spec_bits(), 0x3a83_126f, 0x3f50_624d_d2f1_a9fc),
            x == Number::<Self>::spec_from_patterns(0x3a83_126f, 0x3f50_624d_d2f1_a9fc),
    {
        Number::from_patterns(0x3a83_126f, 0x3f50_624d_d2f1_a9fc)
    }

    /// For `k<1`, largest relative weight of the right tail: 0.001.
    fn small_shape_right_tail_max_probability() -> (x: Number<Self>)
        ensures
            x.bits() == select_pattern(Self::UInt::spec_bits(), 0x3a83_126f, 0x3f50_624d_d2f1_a9fc),
            x == Number::<Self>::spec_from_patterns(0x3a83_126f, 0x3f50_624d_d2f1_a9fc),
    {
        Number::from_patterns(0x3a83_126f, 0x3f50_624d_d2f1_a9fc)
    }
}

impl<T: Float> GammaFloat for T where T::UInt: GammaUInt {
    type P = <T::UInt as GammaUInt>::P;
}

/// Error type for gamma distribution construction failures.
#[derive(Copy, Clone, PartialEq, Eq, Debug)]
pub enum GammaError {
    /// The ETF table could not be computed for the provided distribution parameters.
    TabulationFailure,
    /// The provided shape parameter is not strictly positive.
    BadShape,
    /// The provided scale parameter is not strictly positive.
    BadScale,
}

impl GammaError {
    /// Text of the error.
    pub fn message(&self) -> (text: String)
        ensures
            text@ == (match self {
                GammaError::TabulationFailure =>
                    "could not compute an ETF table for the provided distribution parameters"@,
                GammaError::BadShape => "the shape parameter should be strictly positive"@,
                GammaError::BadScale => "the scale parameter should be strictly positive"@,
            }),
    {
        match self {
            GammaError::TabulationFailure => {
                "could not compute an ETF table for the provided distribution parameters".to_owned()
            },
            GammaError::BadShape => "the shape parameter should be strictly positive".to_owned(),
            GammaError::BadScale => "the scale parameter should be strictly positive".to_owned(),
        }
    }
}

/// The gamma distribution.
///
/// The probability density function is:
///
/// ```text
/// f(x) = x^(k - 1) exp(-x / θ) / (Γ(k) θ^k)
/// ```
///
/// where the shape parameter `k` and the scale parameter `θ` are strictly positive.
pub struct Gamma<T: GammaFloat> {
    inner: GammaInner<T>,
}

impl<T: GammaFloat> Gamma<T> {
    /// Whether the distribution is sampled as one of a shape below one,
    /// through the logarithm of the variable.
    pub closed spec fn small_shape(&self) -> bool {
        self.inner is SmallShape
    }

    /// The partition that the tabulation ends with for these parameters, if
    /// it ends with one: that of the sampler for a shape below one if the
    /// shape is, else that of the sampler for the other shapes.
    pub closed spec fn partition_for(shape: Number<T>, scale: Number<T>) -> Option<Seq<Number<T>>> {
        if shape.spec_lt(Number::spec_one()) {
            SmallShapeGamma::<T>::partition_for(shape, scale)
        } else {
            LargeShapeGamma::<T>::partition_for(shape, scale)
        }
    }

    /// Whether the distribution is the one that is compiled for these
    /// parameters: the sampler for a shape below one if the shape is, else
    /// the sampler for the other shapes, compiled for these parameters.
    pub closed spec fn is_compiled_for(&self, shape: Number<T>, scale: Number<T>) -> bool {
        match self.inner {
            GammaInner::SmallShape(sampler) => shape.spec_lt(Number::spec_one())
                && sampler.is_compiled_for(shape, scale),
            GammaInner::LargeShape(sampler) => !shape.spec_lt(Number::spec_one())
                && sampler.is_compiled_for(shape, scale),
        }
    }

    /// Constructs a gamma distribution with the specified shape and scale.
    /// A scale that is not greater than zero is refused, then such a shape.
    /// For any others the tabulation decides: the distribution is made if
    /// the tabulation ends with a partition, and a failed tabulation is
    /// reported else. A shape below one is sampled through the logarithm of
    /// the variable.
    pub fn new(shape: Number<T>, scale: Number<T>) -> (result: Result<Self, GammaError>)
        ensures
            result matches Err(GammaError::BadScale) <==> !scale.is_positive(),
            result matches Err(GammaError::BadShape) <==> scale.is_positive()
                && !shape.is_positive(),
            result matches Err(GammaError::TabulationFailure) <==> scale.is_positive()
                && shape.is_positive() && Self::partition_for(shape, scale) is None,
            result matches Ok(gamma) ==> gamma.is_compiled_for(shape, scale),
            result matches Ok(gamma) ==> gamma.small_shape() == lt_pattern(
                shape.bits(),
                one_pattern(T::UInt::spec_bits()),
                T::UInt::spec_bits(),
            ),
    {
        if !scale.gt(Number::zero()) {
            return Err(GammaError::BadScale);
        }
        if !shape.gt(Number::zero()) {
            return Err(GammaError::BadShape);
        }
        if shape.lt(Number::one()) {
            match SmallShapeGamma::new(shape, scale) {
                Ok(f) => Ok(Self { inner: GammaInner::SmallShape(f) }),
                Err(e) => Err(e),
            }
        } else {
            match LargeShapeGamma::new(shape, scale) {
                Ok(f) => Ok(Self { inner: GammaInner::LargeShape(f) }),
                Err(e) => Err(e),
            }
        }
    }

    /// Whether the distribution is sampled as one of a shape below one,
    /// through the logarithm of the variable.
    pub fn is_small_shape(&self) -> (b: bool)
        ensures
            b == self.small_shape(),
    {
        match &self.inner {
            GammaInner::LargeShape(_) => false,
            GammaInner::SmallShape(_) => true,
        }
    }

    /// What follows an attempt of this distribution: a rejection of either
    /// kind starts the drawing anew.
    pub fn next_step(outcome: Attempt<T>) -> (step: Step<T>)
        ensures
            step == outcome.spec_next(false),
    {
        outcome.next(false)
    }

    /// Whether an attempt on the word `r` may end with `outcome`: as an attempt of its
    /// sampler may.
    pub closed spec fn may_give(&self, r: T::UInt, outcome: Attempt<T>) -> bool {
        match self.inner {
            GammaInner::LargeShape(sampler) => sampler.may_give(r, outcome),
            GammaInner::SmallShape(sampler) => sampler.may_give(r, outcome),
        }
    }

    /// Makes one attempt at drawing a sample from the random word `r`.
    pub fn attempt<R: RngCore + ?Sized>(&self, r: T::UInt, rng: &mut R) -> (outcome: Attempt<T>)
        ensures
            self.may_give(r, outcome),
    {
        match &self.inner {
            GammaInner::LargeShape(f) => f.attempt(r, rng),
            GammaInner::SmallShape(f) => f.attempt(r, rng),
        }
    }

    /// Makes one attempt at drawing a sample.
    pub fn try_sample<R: RngCore + ?Sized>(&self, rng: &mut R) -> (outcome: Attempt<T>)
        ensures
            exists|r: T::UInt| #[trigger] self.may_give(r, outcome),
    {
        let r = T::UInt::gen(rng);
        let outcome = self.attempt(r, rng);
        assert(self.may_give(r, outcome));
        outcome
    }
}

enum GammaInner<T: GammaFloat> {
    LargeShape(LargeShapeGamma<T>),
    SmallShape(SmallShapeGamma<T>),
}

} // verus!
