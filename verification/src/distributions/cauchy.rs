use crate::num::{select_pattern, Float, Number, UInt};
use crate::primitives::partition::{InitTable, Partition, P128, P256};
use crate::primitives::table_validation::ValidSymmetricPartitionSize;
use crate::primitives::util::{
    is_tabulation, midpoint_prepartition, newton_tabulation, spec_midpoint_prepartition,
    spec_newton_tabulation,
};
use crate::primitives::{
    spec_tail_switch_of, Attempt, DistSymmetricTailed, Envelope, Step, UnivariateFn,
};
use rand_core::RngCore;
use vstd::prelude::*;

verus! {

/// An unsigned integer type for use with Cauchy distributions: it tells the
/// partition of the table, the largest of up to 256 cells that is valid with
/// symmetry on words of this type.
pub trait CauchyUInt: UInt {
    /// Partition of the table.
    type P: ValidSymmetricPartitionSize<Self>;
}

impl CauchyUInt for u32 {
    type P = P128;
}

impl CauchyUInt for u64 {
    type P = P256;
}

/// A floating-point format for use with Cauchy distributions.
pub trait CauchyFloat: Float {
    /// Partition of the table.
    type P: ValidSymmetricPartitionSize<Self::UInt>;

    /// Tolerance of the tabulation: 1e-4 in 32 bits, 1e-6 in 64 bits.
    fn tolerance() -> (x: Number<Self>)
        ensures
            x.bits() == select_pattern(Self::UInt::spec_bits(), 0x38d1_b717, 0x3eb0_c6f7_a0b5_ed8d),
            x == Number::<Self>::spec_from_patterns(0x38d1_b717, 0x3eb0_c6f7_a0b5_ed8d),
    {
        Number::from_patterns(0x38d1_b717, 0x3eb0_c6f7_a0b5_ed8d)
    }

    /// Position of the tail in units of scale: 200 in 32 bits, 400 in 64 bits.
    fn tail_pos() -> (x: Number<Self>)
        ensures
            x.bits() == select_pattern(Self::UInt::spec_bits(), 0x4348_0000, 0x4079_0000_0000_0000),
            x == Number::<Self>::spec_from_patterns(0x4348_0000, 0x4079_0000_0000_0000),
    {
        Number::from_patterns(0x4348_0000, 0x4079_0000_0000_0000)
    }
}

impl<T: Float> CauchyFloat for T where T::UInt: CauchyUInt {
    type P = <T::UInt as CauchyUInt>::P;
}

/// Error type for Cauchy distribution construction failures.
#[derive(Copy, Clone, PartialEq, Eq, Debug)]
pub enum CauchyError {
    /// The ETF table could not be computed for the provided distribution parameters.
    TabulationFailure,
    /// The provided scale parameter is not strictly positive.
    BadScale,
}

impl CauchyError {
    /// Text of the error.
    pub fn message(&self) -> (text: String)
        ensures
            text@ == (match self {
                CauchyError::TabulationFailure =>
                    "could not compute an ETF table for the provided distribution parameters"@,
                CauchyError::BadScale => "the scale parameter should be strictly positive"@,
            }),
    {
        match self {
            CauchyError::TabulationFailure => {
                "could not compute an ETF table for the provided distribution parameters".to_owned()
            },
            CauchyError::BadScale => "the scale parameter should be strictly positive".to_owned(),
        }
    }
}

/// The Cauchy distribution.
///
/// The probability density function is:
///
/// ```text
/// f(x) = 𝛾 / (π((x - x₀)² + 𝛾²))
/// ```
///
/// where `x₀` is the location parameter and where the scale parameter `𝛾` is
/// strictly positive.
pub struct Cauchy<T: CauchyFloat> {
    inner: DistSymmetricTailed<T::P, T, UnscaledPdf<T>, Tail<T>>,
}

impl<T: CauchyFloat> Cauchy<T> {
    /// The partition that the tabulation ends with for these parameters, if
    /// it ends with one: that of the density with its derivative, from the
    /// pre-partition of `[x0, x0 + t γ]` with the tail position `t` of the
    /// format, without extrema, with the tolerance of
    /// the format, no relaxation and at most 50 iterations.
    pub closed spec fn partition_for(
        location: Number<T>,
        scale: Number<T>,
    ) -> Option<Seq<Number<T>>> {
        let pdf = UnscaledPdf::<T>::spec_new(location, scale);
        spec_newton_tabulation(
            pdf,
            Derivative::<T>::spec_new(location, scale),
            spec_midpoint_prepartition(
                pdf,
                location,
                spec_cut_in(location, scale),
                0,
                <T::P as Partition>::spec_size() as usize,
            ),
            Seq::empty(),
            spec_tolerance::<T>(),
            Number::spec_one(),
            50,
        )
    }

    /// Whether the distribution is the one that is compiled for these
    /// parameters: its sampler follows the density and has the tail envelope
    /// of these parameters; and its table data follow a tabulation of the
    /// density over that partition, with the tail switch that the area of
    /// the tail gives.
    pub closed spec fn is_compiled_for(&self, location: Number<T>, scale: Number<T>) -> bool {
        let pdf = UnscaledPdf::<T>::spec_new(location, scale);
        let tail = Tail::<T>::spec_new_with_area(location, scale);
        &&& self.inner.function() == pdf
        &&& self.inner.spec_origin() == location
        &&& self.inner.envelope() == tail.0
        &&& exists|table: InitTable<T::P, T>|
            {
                &&& Some(table.x@) == Self::partition_for(location, scale)
                &&& is_tabulation(pdf, Seq::empty(), spec_tolerance::<T>(), table)
                &&& #[trigger] self.inner.table().follows(
                    location,
                    table,
                    spec_tail_switch_of(table, tail.1, true),
                )
                &&& self.inner.spec_tail_switch() == spec_tail_switch_of(table, tail.1, true)
            }
    }

    /// The answer of the wedge test of the density that the sampler of the
    /// distribution follows.
    pub closed spec fn wedge_accepts(&self, x: Number<T>, a: Number<T>, b: Number<T>) -> bool {
        self.inner.function().spec_test(x, a, b)
    }

    /// The wedge test of the distribution is made in reciprocal form: on the
    /// polynomial of which the density is the reciprocal, with a sum and
    /// products of the arguments and of a coefficient that the density
    /// keeps, and no division.
    pub proof fn lemma_wedge_test_does_not_divide(
        &self,
        location: Number<T>,
        scale: Number<T>,
        x: Number<T>,
        a: Number<T>,
        b: Number<T>,
    )
        requires
            self.is_compiled_for(location, scale),
        ensures
            self.wedge_accepts(x, a, b) == reciprocal_test(location, scale, x, a, b),
    {
    }

    /// Constructs a Cauchy distribution with the specified location and
    /// scale. A scale that is not greater than zero is refused. For any
    /// other the tabulation decides: the distribution is made if the
    /// tabulation ends with a partition, and a failed tabulation is reported
    /// else.
    pub fn new(location: Number<T>, scale: Number<T>) -> (result: Result<Self, CauchyError>)
        ensures
            result matches Err(CauchyError::BadScale) <==> !scale.is_positive(),
            result matches Err(CauchyError::TabulationFailure) <==> scale.is_positive()
                && Self::partition_for(location, scale) is None,
            result matches Ok(made) ==> made.is_compiled_for(location, scale),
    {
        if !scale.gt(Number::zero()) {
            return Err(CauchyError::BadScale);
        }
        let pdf = UnscaledPdf::new(location, scale);
        let dpdf = Derivative::new(location, scale);
        let init_nodes = midpoint_prepartition::<T::P, T, UnscaledPdf<T>>(
            &pdf,
            location,
            location.add(T::tail_pos().mul(scale)),
            0,
        );
        let extrema: [Number<T>; 0] = [];
        proof {
            assert(extrema@ =~= Seq::empty());
        }
        let tolerance = T::tolerance();
        match newton_tabulation(&pdf, &dpdf, &init_nodes, &extrema, tolerance, Number::one(), 50) {
            Ok(table) => {
                let (tail_func, tail_area) = Tail::new_with_area(location, scale);
                let made = Self {
                    inner: DistSymmetricTailed::new(location, pdf, &table, tail_func, tail_area),
                };
                proof {
                    let tail_s = Tail::<T>::spec_new_with_area(location, scale);
                    assert(tail_func == tail_s.0);
                    assert(tail_area == tail_s.1);
                    assert(made.inner.table().follows(
                        location,
                        table,
                        spec_tail_switch_of(table, tail_s.1, true),
                    ));
                    assert(made.is_compiled_for(location, scale));
                }
                Ok(made)
            },
            Err(_) => Err(CauchyError::TabulationFailure),
        }
    }

    /// What follows an attempt of this distribution: a rejection of either
    /// kind starts the drawing anew.
    pub fn next_step(outcome: Attempt<T>) -> (step: Step<T>)
        ensures
            step == outcome.spec_next(false),
    {
        outcome.next(false)
    }

    /// Whether an attempt on the word `r` may end with `outcome`: as an attempt of its
    /// sampler may.
    pub closed spec fn may_give(&self, r: T::UInt, outcome: Attempt<T>) -> bool {
        self.inner.may_give(r, outcome)
    }

    /// Makes one attempt at drawing a sample from the random word `r`.
    pub fn attempt<R: RngCore + ?Sized>(&self, r: T::UInt, rng: &mut R) -> (outcome: Attempt<T>)
        ensures
            self.may_give(r, outcome),
            !(outcome is TailRejected),
    {
        self.inner.attempt(r, rng)
    }

    /// Makes one attempt at drawing a sample. The tail never rejects.
    pub fn try_sample<R: RngCore + ?Sized>(&self, rng: &mut R) -> (outcome: Attempt<T>)
        ensures
            exists|r: T::UInt| #[trigger] self.may_give(r, outcome),
            !(outcome is TailRejected),
    {
        let r = T::UInt::gen(rng);
        let outcome = self.attempt(r, rng);
        assert(self.may_give(r, outcome));
        outcome
    }
}

/// Non-normalized Cauchy probability distribution function with arbitrary
/// location and scale.
#[derive(Copy, Clone)]
struct UnscaledPdf<T: Float> {
    location: Number<T>,
    square_inv_scale: Number<T>,
}

impl<T: Float> UnscaledPdf<T> {
    /// The function for these parameters, with the coefficients that it keeps.
    closed spec fn spec_new(location: Number<T>, scale: Number<T>) -> Self {
        Self { location, square_inv_scale: Number::spec_one().spec_div(scale.spec_mul(scale)) }
    }

    /// Computes what [`spec_new`] states.
    fn new(location: Number<T>, scale: Number<T>) -> (made: Self)
        ensures
            made == Self::spec_new(location, scale),
    {
        Self { location, square_inv_scale: Number::one().div(scale.mul(scale)) }
    }
}

impl<T: Float> UnivariateFn<T> for UnscaledPdf<T> {
    /// The value of the function at `x`.
    closed spec fn spec_eval(&self, x: Number<T>) -> Number<T> {
        let dx = x.spec_sub(self.location);

        Number::spec_one()
            .spec_div(Number::spec_one().spec_add(self.square_inv_scale.spec_mul(dx).spec_mul(dx)))
    }

    /// Evaluates the function at `x`.
    fn eval(&self, x: Number<T>) -> (y: Number<T>) {
        let dx = x.sub(self.location);

        Number::one().div(Number::one().add(self.square_inv_scale.mul(dx).mul(dx)))
    }

    /// The answer of the wedge test: whether `a > b (1 + (x - x0)² / γ²)`,
    /// which is `a f(x) > b` with both sides multiplied by the polynomial.
    /// Sum and products are the only operations.
    closed spec fn spec_test(&self, x: Number<T>, a: Number<T>, b: Number<T>) -> bool {
        let dx = x.spec_sub(self.location);

        a.spec_gt(
            b.spec_mul(
                Number::spec_one().spec_add(self.square_inv_scale.spec_mul(dx).spec_mul(dx)),
            ),
        )
    }

    /// The function is the reciprocal of a polynomial: the test is made on
    /// the polynomial, without a division.
    fn test(&self, x: Number<T>, a: Number<T>, b: Number<T>) -> (accepted: bool) {
        let dx = x.sub(self.location);

        a.gt(b.mul(Number::one().add(self.square_inv_scale.mul(dx).mul(dx))))
    }
}

/// Derivative of the non-normalized Cauchy probability distribution function.
struct Derivative<T: Float> {
    location: Number<T>,
    square_inv_scale: Number<T>,
    minus_two_square_inv_scale: Number<T>,
}

impl<T: Float> Derivative<T> {
    /// The function for these parameters, with the coefficients that it keeps.
    closed spec fn spec_new(location: Number<T>, scale: Number<T>) -> Self {
        let square_inv_scale = Number::spec_one().spec_div(scale.spec_mul(scale));
        let minus_two_square_inv_scale = Number::spec_two().spec_neg().spec_mul(square_inv_scale);
        Derivative { location, square_inv_scale, minus_two_square_inv_scale }
    }

    /// Computes what [`spec_new`] states.
    fn new(location: Number<T>, scale: Number<T>) -> (made: Self)
        ensures
            made == Self::spec_new(location, scale),
    {
        let square_inv_scale = Number::one().div(scale.mul(scale));
        let minus_two_square_inv_scale = Number::two().neg().mul(square_inv_scale);
        Derivative { location, square_inv_scale, minus_two_square_inv_scale }
    }
}

impl<T: Float> UnivariateFn<T> for Derivative<T> {
    /// The value of the function at `x`.
    closed spec fn spec_eval(&self, x: Number<T>) -> Number<T> {
        let dx = x.spec_sub(self.location);

        let minus_dv = self.minus_two_square_inv_scale.spec_mul(dx);
        let v = Number::spec_one().spec_add(self.square_inv_scale.spec_mul(dx).spec_mul(dx));

        minus_dv.spec_div(v.spec_mul(v))
    }

    /// Evaluates the function at `x`.
    fn eval(&self, x: Number<T>) -> (y: Number<T>) {
        let dx = x.sub(self.location);

        let minus_dv = self.minus_two_square_inv_scale.mul(dx);
        let v = Number::one().add(self.square_inv_scale.mul(dx).mul(dx));

        minus_dv.div(v.mul(v))
    }

    /// The wedge test in its general form: `a f(x) > b`.
    fn test(&self, x: Number<T>, a: Number<T>, b: Number<T>) -> (accepted: bool) {
        a.mul(self.eval(x)).gt(b)
    }
}

/// Tail of the Cauchy distribution beyond the table, on the upper side.
#[derive(Copy, Clone)]
struct Tail<T: Float> {
    location: Number<T>,
    scale: Number<T>,
    a: Number<T>,
    b: Number<T>,
}

impl<T: CauchyFloat> Tail<T> {
    /// The envelope of the tail for these parameters, and the area under it.
    closed spec fn spec_new_with_area(location: Number<T>, scale: Number<T>) -> (Self, Number<T>) {
        let fmin = Number::spec_from_patterns(0x4348_0000, 0x4079_0000_0000_0000).spec_atan()
            .spec_div(Number::spec_pi()).spec_add(Number::spec_one_half());

        let tail = Self {
            location,
            scale,
            a: Number::spec_pi().spec_mul(Number::spec_one().spec_sub(fmin)),
            b: Number::spec_pi().spec_mul(fmin.spec_sub(Number::spec_one_half())),
        };

        let area = scale
            .spec_mul(Number::spec_from_patterns(
                0x4348_0000,
                0x4079_0000_0000_0000,
            ).spec_neg().spec_atan().spec_add(Number::spec_one_half().spec_mul(Number::spec_pi())));

        (tail, area)
    }

    /// Computes what [`spec_new_with_area`] states.
    fn new_with_area(location: Number<T>, scale: Number<T>) -> (made: (Self, Number<T>))
        ensures
            made == Self::spec_new_with_area(location, scale),
    {
        let fmin = T::tail_pos().atan().div(Number::pi()).add(Number::one_half());

        let tail = Self {
            location,
            scale,
            a: Number::pi().mul(Number::one().sub(fmin)),
            b: Number::pi().mul(fmin.sub(Number::one_half())),
        };

        let area = scale.mul(T::tail_pos().neg().atan().add(Number::one_half().mul(Number::pi())));

        (tail, area)
    }
}

impl<T: Float> Tail<T> {
    /// The outcome of a trial with the uniform number `u1`.
    pub closed spec fn spec_trial(&self, u1: Number<T>) -> Option<Number<T>> {
        Some(self.location.spec_add(
            self.scale.spec_mul(self.a.spec_mul(u1).spec_add(self.b).spec_tan()),
        ))
    }

    /// Samples the tail by inversion of its cumulative distribution function.
    fn trial(&self, u1: Number<T>) -> (made: Option<Number<T>>)
        ensures
            made == self.spec_trial(u1),
    {
        Some(self.location.add(self.scale.mul(self.a.mul(u1).add(self.b).tan())))
    }
}

impl<T: Float> Envelope<T> for Tail<T> {
    open spec fn always_accepts(&self) -> bool {
        true
    }

    /// Makes one trial with a uniform number that it draws.
    fn try_sample<R: RngCore + ?Sized>(&self, rng: &mut R) -> (sample: Option<Number<T>>)
        ensures
            exists|u1: Number<T>|
                u1.is_in_unit_interval() && sample == #[trigger] self.spec_trial(
                    u1,
                ),
    {
        let u1 = Number::gen(rng);
        let sample = self.trial(u1);
        assert(u1.is_in_unit_interval() && sample == self.spec_trial(u1));
        sample
    }
}

/// Tolerance of the tabulation.
pub open spec fn spec_tolerance<T: Float>() -> Number<T> {
    Number::spec_from_patterns(0x38d1_b717, 0x3eb0_c6f7_a0b5_ed8d)
}

/// The wedge test `a f(x) > b` of the Cauchy density
/// `f(x) = 1 / (1 + (x - x0)² / γ²)`, with both sides multiplied by the
/// polynomial: `a > b (1 + s (x - x0)²)`. The coefficient `s = 1 / γ²` is
/// that of the density: it is made once, with the distribution, and the test
/// itself has no division.
pub open spec fn reciprocal_test<T: Float>(
    location: Number<T>,
    scale: Number<T>,
    x: Number<T>,
    a: Number<T>,
    b: Number<T>,
) -> bool {
    let s = Number::spec_one().spec_div(scale.spec_mul(scale));
    let dx = x.spec_sub(location);
    a.spec_gt(b.spec_mul(Number::spec_one().spec_add(s.spec_mul(dx).spec_mul(dx))))
}

/// Where the tail cuts in: the tail position of the format, in units of
/// scale, above the location.
pub open spec fn spec_cut_in<T: Float>(location: Number<T>, scale: Number<T>) -> Number<T> {
    location
        .spec_add(Number::spec_from_patterns(0x4348_0000, 0x4079_0000_0000_0000).spec_mul(scale))
}

} // verus!
