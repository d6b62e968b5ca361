use super::gamma::{Gamma, GammaError, GammaFloat};
use crate::num::{lemma_two_is_positive, Float, Number, UInt};
use crate::primitives::{Attempt, Step};
use rand_core::RngCore;
use vstd::prelude::*;

verus! {

/// A floating-point format for use with χ² distributions.
pub trait ChiSquaredFloat: GammaFloat {
}

impl<T: GammaFloat> ChiSquaredFloat for T {
}

/// Error type for χ² distribution construction failures.
#[derive(Copy, Clone, PartialEq, Eq, Debug)]
pub enum ChiSquaredError {
    /// The ETF table could not be computed for the provided distribution parameters.
    TabulationFailure,
    /// The number of degrees of freedom is not strictly positive.
    BadDof,
}

impl ChiSquaredError {
    /// Text of the error.
    pub fn message(&self) -> (text: String)
        ensures
            text@ == (match self {
                ChiSquaredError::TabulationFailure =>
                    "could not compute an ETF table for the provided distribution parameters"@,
                ChiSquaredError::BadDof =>
                    "the number of degrees of freedom should be strictly positive"@,
            }),
    {
        match self {
            ChiSquaredError::TabulationFailure => {
                "could not compute an ETF table for the provided distribution parameters".to_owned()
            },
            ChiSquaredError::BadDof => {
                "the number of degrees of freedom should be strictly positive".to_owned()
            },
        }
    }
}

/// The χ² distribution.
///
/// The probability density function is:
///
/// ```text
/// f(x) = x^(k / 2 - 1) exp(-x / 2) / (Γ(k / 2) 2^(k / 2))
/// ```
///
/// where the number of degrees of freedom `k` is strictly positive.
pub struct ChiSquared<T: ChiSquaredFloat> {
    inner: Gamma<T>,
}

impl<T: ChiSquaredFloat> ChiSquared<T> {
    /// The shape of the gamma distribution that stands for `k` degrees of
    /// freedom: one half times `k`.
    pub open spec fn shape_for(k: Number<T>) -> Number<T> {
        Number::spec_one_half().spec_mul(k)
    }

    /// Whether the distribution is the one that is compiled for `k` degrees
    /// of freedom: the gamma distribution of the shape for `k` and of the
    /// scale two.
    pub closed spec fn is_compiled_for(&self, k: Number<T>) -> bool {
        self.inner.is_compiled_for(Self::shape_for(k), Number::spec_two())
    }

    /// Constructs a χ² distribution with the specified number of degrees of
    /// freedom: a gamma distribution of half as large a shape, with the scale
    /// two. A number of degrees of freedom that is not greater than zero is
    /// refused, and so is one of which the half is not: no shape can be made
    /// of it. For any other the tabulation decides: the distribution is made
    /// if the tabulation ends with a partition, and a failed tabulation is
    /// reported else.
    pub fn new(k: Number<T>) -> (result: Result<Self, ChiSquaredError>)
        ensures
            result matches Err(ChiSquaredError::BadDof) <==> !k.is_positive() || !Self::shape_for(
                k,
            ).is_positive(),
            result matches Err(ChiSquaredError::TabulationFailure) <==> k.is_positive()
                && Self::shape_for(k).is_positive() && Gamma::<T>::partition_for(
                Self::shape_for(k),
                Number::spec_two(),
            ) is None,
            result matches Ok(made) ==> made.is_compiled_for(k),
    {
        if !k.gt(Number::zero()) {
            return Err(ChiSquaredError::BadDof);
        }
        let two = Number::two();
        proof {
            T::UInt::lemma_format();
            lemma_two_is_positive(T::UInt::spec_bits());
        }
        match Gamma::new(Number::one_half().mul(k), two) {
            Ok(inner) => Ok(Self { inner }),
            Err(GammaError::TabulationFailure) => Err(ChiSquaredError::TabulationFailure),
            Err(_) => Err(ChiSquaredError::BadDof),
        }
    }

    /// What follows an attempt of this distribution: a rejection of either
    /// kind starts the drawing anew.
    pub fn next_step(outcome: Attempt<T>) -> (step: Step<T>)
        ensures
            step == outcome.spec_next(false),
    {
        outcome.next(false)
    }

    /// Whether an attempt on the word `r` may end with `outcome`: as an attempt of
    /// the gamma distribution may.
    pub closed spec fn may_give(&self, r: T::UInt, outcome: Attempt<T>) -> bool {
        self.inner.may_give(r, outcome)
    }

    /// Makes one attempt at drawing a sample from the random word `r`.
    pub fn attempt<R: RngCore + ?Sized>(&self, r: T::UInt, rng: &mut R) -> (outcome: Attempt<T>)
        ensures
            self.may_give(r, outcome),
    {
        self.inner.attempt(r, rng)
    }

    /// Makes one attempt at drawing a sample.
    pub fn try_sample<R: RngCore + ?Sized>(&self, rng: &mut R) -> (outcome: Attempt<T>)
        ensures
            exists|r: T::UInt| #[trigger] self.may_give(r, outcome),
    {
        let r = T::UInt::gen(rng);
        let outcome = self.attempt(r, rng);
        assert(self.may_give(r, outcome));
        outcome
    }
}

} // verus!
