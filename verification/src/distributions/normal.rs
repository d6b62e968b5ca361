use crate::num::{select_pattern, Float, Number, UInt};
use crate::primitives::partition::{InitTable, Partition, P128, P256};
use crate::primitives::table_validation::ValidSymmetricPartitionSize;
use crate::primitives::util::{
    is_tabulation, midpoint_prepartition, newton_tabulation, spec_midpoint_prepartition,
    spec_newton_tabulation,
};
use crate::primitives::{
    spec_tail_switch_of, tail_placed, Attempt, DistCentralTailed,
    DistSymmetricTailed, Envelope, Layout, Step, UnivariateFn,
};
use rand_core::RngCore;
use vstd::prelude::*;

verus! {

/// An unsigned integer type for use with normal distributions: it tells the
/// partition of the table, the largest of up to 256 cells that is valid with
/// symmetry on words of this type.
pub trait NormalUInt: UInt {
    /// Partition of the table.
    type P: ValidSymmetricPartitionSize<Self>;
}

impl NormalUInt for u32 {
    type P = P128;
}

impl NormalUInt for u64 {
    type P = P256;
}

/// A floating-point format for use with normal distributions.
pub trait NormalFloat: Float {
    /// Partition of the table.
    type P: ValidSymmetricPartitionSize<Self::UInt>;

    /// Tolerance of the tabulation: 1e-4 in 32 bits, 1e-6 in 64 bits.
    fn tolerance() -> (x: Number<Self>)
        ensures
            x.bits() == select_pattern(Self::UInt::spec_bits(), 0x38d1_b717, 0x3eb0_c6f7_a0b5_ed8d),
            x == Number::<Self>::spec_from_patterns(0x38d1_b717, 0x3eb0_c6f7_a0b5_ed8d),
    {
        Number::from_patterns(0x38d1_b717, 0x3eb0_c6f7_a0b5_ed8d)
    }

    /// Position of the tail in standard deviations: 3.25.
    fn tail_pos() -> (x: Number<Self>)
        ensures
            x.bits() == select_pattern(Self::UInt::spec_bits(), 0x4050_0000, 0x400a_0000_0000_0000),
            x == Number::<Self>::spec_from_patterns(0x4050_0000, 0x400a_0000_0000_0000),
    {
        Number::from_patterns(0x4050_0000, 0x400a_0000_0000_0000)
    }
}

impl<T: Float> NormalFloat for T where T::UInt: NormalUInt {
    type P = <T::UInt as NormalUInt>::P;
}

/// Error type for normal distribution construction failures.
#[derive(Copy, Clone, PartialEq, Eq, Debug)]
pub enum NormalError {
    /// The ETF table could not be computed for the provided distribution parameters.
    TabulationFailure,
    /// The provided standard deviation is not strictly positive.
    BadStdDev,
}

impl NormalError {
    /// Text of the error.
    pub fn message(&self) -> (text: String)
        ensures
            text@ == (match self {
                NormalError::TabulationFailure =>
                    "could not compute an ETF table for the provided distribution parameters"@,
                NormalError::BadStdDev => "the standard deviation should be strictly positive"@,
            }),
    {
        match self {
            NormalError::TabulationFailure => {
                "could not compute an ETF table for the provided distribution parameters".to_owned()
            },
            NormalError::BadStdDev => {
                "the standard deviation should be strictly positive".to_owned()
            },
        }
    }
}

/// The normal distribution.
///
/// The probability density function is:
///
/// ```text
/// f(x) = exp(-½ (x - μ)² / σ²) / (σ √(2π))
/// ```
///
/// where `μ` is the mean and where the standard deviation `σ` is strictly
/// positive.
///
/// The tail of the table is given its exact weight, so a draw from the tail
/// must end with a sample: after a rejected tail trial, the tail alone is
/// sampled again with the same sign until a trial is accepted.
pub struct Normal<T: NormalFloat> {
    inner: DistSymmetricTailed<T::P, T, UnscaledPdf<T>, Tail<T>>,
}

impl<T: NormalFloat> Normal<T> {
    /// The partition that the tabulation ends with for these parameters, if
    /// it ends with one: that of the density `exp(-½ (x - μ)² / σ²)` with its
    /// derivative, from the pre-partition of `[μ, μ + 3.25 σ]`, without
    /// extrema, with the tolerance of the format, no relaxation and at most
    /// ten iterations.
    pub closed spec fn partition_for(mean: Number<T>, std_dev: Number<T>) -> Option<
        Seq<Number<T>>,
    > {
        spec_normal_partition(
            mean,
            std_dev,
            UnscaledPdf::spec_new(mean, std_dev),
            Derivative::spec_new(mean, std_dev),
        )
    }

    /// Whether the distribution is the one that is compiled for these
    /// parameters: its sampler has the mean for its origin, follows the
    /// density and has the tail envelope of these parameters; and its table
    /// data follow a tabulation of the density over that partition, with the
    /// tail switch that the area of the tail gives.
    pub closed spec fn is_compiled_for(&self, mean: Number<T>, std_dev: Number<T>) -> bool {
        let pdf = UnscaledPdf::<T>::spec_new(mean, std_dev);
        let tail = Tail::<T>::spec_new_with_area(mean, std_dev, spec_cut_in(mean, std_dev));
        &&& self.inner.function() == pdf
        &&& self.inner.spec_origin() == mean
        &&& self.inner.envelope() == tail.0
        &&& exists|table: InitTable<T::P, T>|
            {
                &&& Some(table.x@) == Self::partition_for(mean, std_dev)
                &&& is_tabulation(pdf, Seq::empty(), spec_tolerance::<T>(), table)
                &&& #[trigger] self.inner.table().follows(
                    mean,
                    table,
                    spec_tail_switch_of(table, tail.1, true),
                )
                &&& self.inner.spec_tail_switch() == spec_tail_switch_of(table, tail.1, true)
            }
    }

    /// Constructs a normal distribution with the specified mean and standard
    /// deviation. A standard deviation that is not greater than zero is
    /// refused. For any other the tabulation decides: the distribution is
    /// made if the tabulation ends with a partition, and a failed tabulation
    /// is reported else.
    pub fn new(mean: Number<T>, std_dev: Number<T>) -> (result: Result<Self, NormalError>)
        ensures
            result matches Err(NormalError::BadStdDev) <==> !std_dev.is_positive(),
            result matches Err(NormalError::TabulationFailure) <==> std_dev.is_positive()
                && Self::partition_for(mean, std_dev) is None,
            result matches Ok(normal) ==> normal.is_compiled_for(mean, std_dev),
    {
        if !std_dev.gt(Number::zero()) {
            return Err(NormalError::BadStdDev);
        }
        let pdf = UnscaledPdf::new(mean, std_dev);
        let dpdf = Derivative::new(mean, std_dev);
        match normal_parts(mean, std_dev, &pdf, &dpdf) {
            Ok((table, tail_func, tail_area)) => {
                let normal = Self {
                    inner: DistSymmetricTailed::new(mean, pdf, &table, tail_func, tail_area),
                };
                proof {
                    let tail_s = Tail::<T>::spec_new_with_area(
                        mean,
                        std_dev,
                        spec_cut_in(mean, std_dev),
                    );
                    assert(tail_func == tail_s.0);
                    assert(tail_area == tail_s.1);
                    assert(normal.inner.table().follows(
                        mean,
                        table,
                        spec_tail_switch_of(table, tail_s.1, true),
                    ));
                    assert(normal.is_compiled_for(mean, std_dev));
                }
                Ok(normal)
            },
            Err(e) => Err(e),
        }
    }

    /// What follows an attempt of this distribution. The tail has its exact
    /// weight in the table, so a tail that was chosen is sampled again after
    /// a rejected trial, on the same side, until a trial is accepted.
    pub fn next_step(outcome: Attempt<T>) -> (step: Step<T>)
        ensures
            step == outcome.spec_next(true),
    {
        outcome.next(true)
    }

    /// Whether an attempt on the word `r` may end with `outcome`: as an attempt of its
    /// sampler may.
    pub closed spec fn may_give(&self, r: T::UInt, outcome: Attempt<T>) -> bool {
        self.inner.may_give(r, outcome)
    }

    /// Makes one attempt at drawing a sample from the random word `r`.
    pub fn attempt<R: RngCore + ?Sized>(&self, r: T::UInt, rng: &mut R) -> (outcome: Attempt<T>)
        ensures
            self.may_give(r, outcome),
    {
        self.inner.attempt(r, rng)
    }

    /// Makes one attempt at drawing a sample. After a rejected draw from the
    /// tail, the tail is to be sampled again with [`sample_tail`] and the sign
    /// that is handed back, until it gives a sample.
    ///
    /// [`sample_tail`]: #method.sample_tail
    pub fn try_sample<R: RngCore + ?Sized>(&self, rng: &mut R) -> (outcome: Attempt<T>)
        ensures
            exists|r: T::UInt| #[trigger] self.may_give(r, outcome),
    {
        let r = T::UInt::gen(rng);
        let outcome = self.attempt(r, rng);
        assert(self.may_give(r, outcome));
        outcome
    }

    /// How the sampler of the distribution places a sample.
    pub closed spec fn layout(&self) -> Layout<T> {
        self.inner.layout()
    }

    /// Makes one trial at drawing a sample from the tail on the side that
    /// `sign` tells: a number that the tail envelope gives is placed on that
    /// side.
    pub fn sample_tail<R: RngCore + ?Sized>(&self, sign: T::UInt, rng: &mut R) -> (sample: Option<
        Number<T>,
    >)
        ensures
            sample matches Some(s) ==> exists|x: Number<T>|
                s == #[trigger] tail_placed(self.layout(), x, sign.value()),
    {
        self.inner.sample_tail(sign, rng)
    }
}

/// The central normal distribution.
///
/// The probability density function is:
///
/// ```text
/// f(x) = exp(-½ x² / σ²) / (σ √(2π))
/// ```
///
/// where the standard deviation `σ` is strictly positive.
///
/// This distribution is slightly faster than the [`Normal`](struct.Normal.html) distribution with
/// `μ=0`. Its tail is sampled in the same way.
pub struct CentralNormal<T: NormalFloat> {
    inner: DistCentralTailed<T::P, T, UnscaledCentralPdf<T>, Tail<T>>,
}

impl<T: NormalFloat> CentralNormal<T> {
    /// The partition that the tabulation ends with for this standard
    /// deviation, if it ends with one: that of the density `exp(-½ x² / σ²)`
    /// with its derivative, from the pre-partition of `[0, 3.25 σ]`, without
    /// extrema, with the tolerance of the format, no relaxation and at most
    /// ten iterations.
    pub closed spec fn partition_for(std_dev: Number<T>) -> Option<Seq<Number<T>>> {
        spec_normal_partition(
            Number::spec_zero(),
            std_dev,
            UnscaledCentralPdf::spec_new(std_dev),
            Derivative::spec_new(Number::spec_zero(), std_dev),
        )
    }

    /// Whether the distribution is the one that is compiled for this
    /// standard deviation: its sampler follows the density and has the tail
    /// envelope of this parameter; and its table data follow a tabulation of
    /// the density over that partition, with the tail switch that the area
    /// of the tail gives.
    pub closed spec fn is_compiled_for(&self, std_dev: Number<T>) -> bool {
        let pdf = UnscaledCentralPdf::<T>::spec_new(std_dev);
        let tail = Tail::<T>::spec_new_with_area(
            Number::spec_zero(),
            std_dev,
            spec_cut_in(Number::spec_zero(), std_dev),
        );
        &&& self.inner.function() == pdf
        &&& self.inner.envelope() == tail.0
        &&& exists|table: InitTable<T::P, T>|
            {
                &&& Some(table.x@) == Self::partition_for(std_dev)
                &&& is_tabulation(pdf, Seq::empty(), spec_tolerance::<T>(), table)
                &&& #[trigger] self.inner.table().follows(
                    Number::spec_zero(),
                    table,
                    spec_tail_switch_of(table, tail.1, true),
                )
                &&& self.inner.spec_tail_switch() == spec_tail_switch_of(table, tail.1, true)
            }
    }

    /// Constructs a central normal distribution with the specified standard
    /// deviation. A standard deviation that is not greater than zero is
    /// refused. For any other the tabulation decides: the distribution is
    /// made if the tabulation ends with a partition, and a failed tabulation
    /// is reported else.
    pub fn new(std_dev: Number<T>) -> (result: Result<Self, NormalError>)
        ensures
            result matches Err(NormalError::BadStdDev) <==> !std_dev.is_positive(),
            result matches Err(NormalError::TabulationFailure) <==> std_dev.is_positive()
                && Self::partition_for(std_dev) is None,
            result matches Ok(normal) ==> normal.is_compiled_for(std_dev),
    {
        if !std_dev.gt(Number::zero()) {
            return Err(NormalError::BadStdDev);
        }
        let pdf = UnscaledCentralPdf::new(std_dev);
        let dpdf = Derivative::new(Number::zero(), std_dev);
        match normal_parts(Number::zero(), std_dev, &pdf, &dpdf) {
            Ok((table, tail_func, tail_area)) => {
                let normal = Self {
                    inner: DistCentralTailed::new(pdf, &table, tail_func, tail_area),
                };
                proof {
                    let tail_s = Tail::<T>::spec_new_with_area(
                        Number::spec_zero(),
                        std_dev,
                        spec_cut_in(Number::spec_zero(), std_dev),
                    );
                    assert(tail_func == tail_s.0);
                    assert(tail_area == tail_s.1);
                    assert(normal.inner.table().follows(
                        Number::spec_zero(),
                        table,
                        spec_tail_switch_of(table, tail_s.1, true),
                    ));
                    assert(normal.is_compiled_for(std_dev));
                }
                Ok(normal)
            },
            Err(e) => Err(e),
        }
    }

    /// What follows an attempt of this distribution. The tail has its exact
    /// weight in the table, so a tail that was chosen is sampled again after
    /// a rejected trial, on the same side, until a trial is accepted.
    pub fn next_step(outcome: Attempt<T>) -> (step: Step<T>)
        ensures
            step == outcome.spec_next(true),
    {
        outcome.next(true)
    }

    /// Whether an attempt on the word `r` may end with `outcome`: as an attempt of its
    /// sampler may.
    pub closed spec fn may_give(&self, r: T::UInt, outcome: Attempt<T>) -> bool {
        self.inner.may_give(r, outcome)
    }

    /// Makes one attempt at drawing a sample from the random word `r`.
    pub fn attempt<R: RngCore + ?Sized>(&self, r: T::UInt, rng: &mut R) -> (outcome: Attempt<T>)
        ensures
            self.may_give(r, outcome),
    {
        self.inner.attempt(r, rng)
    }

    /// Makes one attempt at drawing a sample. After a rejected draw from the
    /// tail, the tail is to be sampled again with [`sample_tail`] and the sign
    /// that is handed back, until it gives a sample.
    ///
    /// [`sample_tail`]: #method.sample_tail
    pub fn try_sample<R: RngCore + ?Sized>(&self, rng: &mut R) -> (outcome: Attempt<T>)
        ensures
            exists|r: T::UInt| #[trigger] self.may_give(r, outcome),
    {
        let r = T::UInt::gen(rng);
        let outcome = self.attempt(r, rng);
        assert(self.may_give(r, outcome));
        outcome
    }

    /// How the sampler of the distribution places a sample.
    pub closed spec fn layout(&self) -> Layout<T> {
        self.inner.layout()
    }

    /// Makes one trial at drawing a sample from the tail on the side that
    /// `sign` tells: a number that the tail envelope gives is placed on that
    /// side.
    pub fn sample_tail<R: RngCore + ?Sized>(&self, sign: T::UInt, rng: &mut R) -> (sample: Option<
        Number<T>,
    >)
        ensures
            sample matches Some(s) ==> exists|x: Number<T>|
                s == #[trigger] tail_placed(self.layout(), x, sign.value()),
    {
        self.inner.sample_tail(sign, rng)
    }
}

/// Non-normalized normal probability distribution function with arbitrary mean
/// and standard deviation.
#[derive(Copy, Clone)]
struct UnscaledPdf<T: Float> {
    mean: Number<T>,
    alpha: Number<T>,  // -1/(2 std_dev^2)
}

impl<T: Float> UnscaledPdf<T> {
    /// The function for these parameters, with the coefficients that it keeps.
    closed spec fn spec_new(mean: Number<T>, std_dev: Number<T>) -> Self {
        Self { mean, alpha: Number::spec_one_half().spec_neg().spec_div(std_dev.spec_mul(std_dev)) }
    }

    /// Computes what [`spec_new`] states.
    fn new(mean: Number<T>, std_dev: Number<T>) -> (made: Self)
        ensures
            made == Self::spec_new(mean, std_dev),
    {
        Self { mean, alpha: Number::one_half().neg().div(std_dev.mul(std_dev)) }
    }
}

impl<T: Float> UnivariateFn<T> for UnscaledPdf<T> {
    /// The value of the function at `x`.
    closed spec fn spec_eval(&self, x: Number<T>) -> Number<T> {
        let dx = x.spec_sub(self.mean);

        self.alpha.spec_mul(dx).spec_mul(dx).spec_exp()
    }

    /// Evaluates the function at `x`.
    fn eval(&self, x: Number<T>) -> (y: Number<T>) {
        let dx = x.sub(self.mean);

        self.alpha.mul(dx).mul(dx).exp()
    }

    /// The wedge test in its general form: `a f(x) > b`.
    fn test(&self, x: Number<T>, a: Number<T>, b: Number<T>) -> (accepted: bool) {
        a.mul(self.eval(x)).gt(b)
    }
}

/// Non-normalized normal probability distribution function about the origin.
#[derive(Copy, Clone)]
struct UnscaledCentralPdf<T: Float> {
    alpha: Number<T>,  // -1/(2 std_dev^2)
}

impl<T: Float> UnscaledCentralPdf<T> {
    /// The function for these parameters, with the coefficients that it keeps.
    closed spec fn spec_new(std_dev: Number<T>) -> Self {
        Self { alpha: Number::spec_one_half().spec_neg().spec_div(std_dev.spec_mul(std_dev)) }
    }

    /// Computes what [`spec_new`] states.
    fn new(std_dev: Number<T>) -> (made: Self)
        ensures
            made == Self::spec_new(std_dev),
    {
        Self { alpha: Number::one_half().neg().div(std_dev.mul(std_dev)) }
    }
}

impl<T: Float> UnivariateFn<T> for UnscaledCentralPdf<T> {
    /// The value of the function at `x`.
    closed spec fn spec_eval(&self, x: Number<T>) -> Number<T> {
        self.alpha.spec_mul(x).spec_mul(x).spec_exp()
    }

    /// Evaluates the function at `x`.
    fn eval(&self, x: Number<T>) -> (y: Number<T>) {
        self.alpha.mul(x).mul(x).exp()
    }

    /// The wedge test in its general form: `a f(x) > b`.
    fn test(&self, x: Number<T>, a: Number<T>, b: Number<T>) -> (accepted: bool) {
        a.mul(self.eval(x)).gt(b)
    }
}

/// Derivative of the non-normalized normal probability distribution function.
struct Derivative<T: Float> {
    mean: Number<T>,
    two_alpha: Number<T>,  // -1/std_dev^2
    alpha: Number<T>,  // -1/(2 std_dev^2)
}

impl<T: Float> Derivative<T> {
    /// The function for these parameters, with the coefficients that it keeps.
    closed spec fn spec_new(mean: Number<T>, std_dev: Number<T>) -> Self {
        let two_alpha = Number::spec_one().spec_neg().spec_div(std_dev.spec_mul(std_dev));
        let alpha = Number::spec_one_half().spec_mul(two_alpha);
        Derivative { mean, two_alpha, alpha }
    }

    /// Computes what [`spec_new`] states.
    fn new(mean: Number<T>, std_dev: Number<T>) -> (made: Self)
        ensures
            made == Self::spec_new(mean, std_dev),
    {
        let two_alpha = Number::one().neg().div(std_dev.mul(std_dev));
        let alpha = Number::one_half().mul(two_alpha);
        Derivative { mean, two_alpha, alpha }
    }
}

impl<T: Float> UnivariateFn<T> for Derivative<T> {
    /// The value of the function at `x`.
    closed spec fn spec_eval(&self, x: Number<T>) -> Number<T> {
        let dx = x.spec_sub(self.mean);

        dx.spec_mul(self.two_alpha).spec_mul(dx.spec_mul(dx).spec_mul(self.alpha).spec_exp())
    }

    /// Evaluates the function at `x`.
    fn eval(&self, x: Number<T>) -> (y: Number<T>) {
        let dx = x.sub(self.mean);

        dx.mul(self.two_alpha).mul(dx.mul(dx).mul(self.alpha).exp())
    }

    /// The wedge test in its general form: `a f(x) > b`.
    fn test(&self, x: Number<T>, a: Number<T>, b: Number<T>) -> (accepted: bool) {
        a.mul(self.eval(x)).gt(b)
    }
}

/// Tail of the normal distribution beyond the table, on the upper side.
#[derive(Copy, Clone)]
struct Tail<T: Float> {
    cut_in: Number<T>,
    a_x: Number<T>,
    a_y: Number<T>,
}

impl<T: NormalFloat> Tail<T> {
    /// The envelope of the tail for these parameters, and the area under it.
    closed spec fn spec_new_with_area(
        mean: Number<T>,
        std_dev: Number<T>,
        cut_in: Number<T>,
    ) -> (Self, Number<T>) {
        let tail = Self {
            cut_in,
            a_x: std_dev.spec_mul(std_dev).spec_div(cut_in.spec_sub(mean)),
            a_y: Number::spec_two().spec_neg().spec_mul(std_dev).spec_mul(std_dev),
        };

        let inv_sqrt_two = Number::spec_one_half().spec_sqrt();
        let area = Number::spec_pi().spec_sqrt().spec_mul(std_dev).spec_mul(inv_sqrt_two).spec_mul(
            Number::spec_from_patterns(0x4050_0000, 0x400a_0000_0000_0000).spec_mul(inv_sqrt_two)
                .spec_erfc(),
        );

        (tail, area)
    }

    /// Computes what [`spec_new_with_area`] states.
    fn new_with_area(
        mean: Number<T>,
        std_dev: Number<T>,
        cut_in: Number<T>,
    ) -> (made: (Self, Number<T>))
        ensures
            made == Self::spec_new_with_area(mean, std_dev, cut_in),
    {
        let tail = Self {
            cut_in,
            a_x: std_dev.mul(std_dev).div(cut_in.sub(mean)),
            a_y: Number::two().neg().mul(std_dev).mul(std_dev),
        };

        let inv_sqrt_two = Number::one_half().sqrt();
        let area = Number::pi().sqrt().mul(std_dev).mul(inv_sqrt_two).mul(
            T::tail_pos().mul(inv_sqrt_two).erfc(),
        );

        (tail, area)
    }
}

impl<T: Float> Tail<T> {
    /// The outcome of a trial with the uniform numbers `u1` and `u2`.
    pub closed spec fn spec_trial(&self, u1: Number<T>, u2: Number<T>) -> Option<Number<T>> {
        let x = Number::spec_one().spec_sub(u1).spec_ln().spec_mul(self.a_x);
        let y = Number::spec_one().spec_sub(u2).spec_ln().spec_mul(self.a_y);
        if y.spec_ge(x.spec_mul(x)) {
            Some(self.cut_in.spec_sub(x))
        } else {
            None
        }
    }

    /// Makes one trial: two numbers are drawn as `ln(1 - u)` and scaled, and
    /// the first is accepted iff `y ≥ x²`.
    fn trial(&self, u1: Number<T>, u2: Number<T>) -> (made: Option<Number<T>>)
        ensures
            made == self.spec_trial(u1, u2),
    {
        let x = Number::one().sub(u1).ln().mul(self.a_x);
        let y = Number::one().sub(u2).ln().mul(self.a_y);
        if y.ge(x.mul(x)) {
            Some(self.cut_in.sub(x))
        } else {
            None
        }
    }
}

impl<T: Float> Envelope<T> for Tail<T> {
    /// Makes one trial with uniform numbers that it draws.
    fn try_sample<R: RngCore + ?Sized>(&self, rng: &mut R) -> (sample: Option<Number<T>>)
        ensures
            exists|u1: Number<T>, u2: Number<T>|
                u1.is_in_unit_interval() && u2.is_in_unit_interval() && sample
                    == #[trigger] self.spec_trial(
                    u1, u2,
                ),
    {
        let u1 = Number::gen(rng);
        let u2 = Number::gen(rng);
        let sample = self.trial(u1, u2);
        assert(
            u1.is_in_unit_interval() && u2.is_in_unit_interval() && sample
                == self.spec_trial(u1, u2)
        );
        sample
    }
}

/// Tolerance of the tabulation.
pub open spec fn spec_tolerance<T: Float>() -> Number<T> {
    Number::spec_from_patterns(0x38d1_b717, 0x3eb0_c6f7_a0b5_ed8d)
}

/// Where the tail cuts in: 3.25 standard deviations above the mean.
pub open spec fn spec_cut_in<T: Float>(mean: Number<T>, std_dev: Number<T>) -> Number<T> {
    mean.spec_add(Number::spec_from_patterns(0x4050_0000, 0x400a_0000_0000_0000).spec_mul(std_dev))
}

/// The partition that the tabulation of `pdf` with the derivative `dpdf`
/// ends with, if it ends with one, from the pre-partition of the interval
/// between the mean and the cut-in of the tail.
closed spec fn spec_normal_partition<T: NormalFloat, F: UnivariateFn<T>, DF: UnivariateFn<T>>(
    mean: Number<T>,
    std_dev: Number<T>,
    pdf: F,
    dpdf: DF,
) -> Option<Seq<Number<T>>> {
    spec_newton_tabulation(
        pdf,
        dpdf,
        spec_midpoint_prepartition(
            pdf,
            mean,
            spec_cut_in(mean, std_dev),
            0,
            <T::P as Partition>::spec_size() as usize,
        ),
        Seq::empty(),
        spec_tolerance::<T>(),
        Number::spec_one(),
        10,
    )
}

fn normal_parts<T: NormalFloat, F: UnivariateFn<T>, DF: UnivariateFn<T>>(
    mean: Number<T>,
    std_dev: Number<T>,
    pdf: &F,
    dpdf: &DF,
) -> (result: Result<(InitTable<T::P, T>, Tail<T>, Number<T>), NormalError>)
    ensures
        match spec_normal_partition(mean, std_dev, *pdf, *dpdf) {
            Some(x) => result matches Ok(parts) && parts.0.x@ == x && is_tabulation(
                *pdf,
                Seq::empty(),
                spec_tolerance::<T>(),
                parts.0,
            ) && (parts.1, parts.2) == Tail::<T>::spec_new_with_area(
                mean,
                std_dev,
                spec_cut_in(mean, std_dev),
            ),
            None => result matches Err(NormalError::TabulationFailure),
        },
{
    let tail_position = mean.add(T::tail_pos().mul(std_dev));

    // Build the distribution.
    let init_nodes = midpoint_prepartition::<T::P, T, F>(pdf, mean, tail_position, 0);
    let no_extrema: [Number<T>; 0] = [];
    let tolerance = T::tolerance();
    proof {
        assert(no_extrema@ =~= Seq::empty());
    }
    match newton_tabulation(pdf, dpdf, &init_nodes, &no_extrema, tolerance, Number::one(), 10) {
        Ok(table) => {
            let (tail_func, tail_area) = Tail::new_with_area(mean, std_dev, tail_position);
            Ok((table, tail_func, tail_area))
        },
        Err(_) => Err(NormalError::TabulationFailure),
    }
}

} // verus!
