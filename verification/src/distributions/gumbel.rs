use crate::num::{select_pattern, Float, Number, UInt};
use crate::primitives::partition::{InitTable, Partition, P256};
use crate::primitives::table_validation::ValidPartitionSize;
use crate::primitives::util::{
    is_tabulation, midpoint_prepartition, newton_tabulation, spec_midpoint_prepartition,
    spec_newton_tabulation,
};
use crate::primitives::{
    spec_tail_switch_of, Attempt, DistAnyTailed, Envelope, Step, UnivariateFn,
};
use rand_core::RngCore;
use vstd::prelude::*;

verus! {

/// An unsigned integer type for use with Gumbel distributions: it tells the
/// partition of the table.
pub trait GumbelUInt: UInt {
    /// Partition of the table.
    type P: ValidPartitionSize<Self>;
}

impl GumbelUInt for u32 {
    type P = P256;
}

impl GumbelUInt for u64 {
    type P = P256;
}

/// A floating-point format for use with Gumbel distributions.
pub trait GumbelFloat: Float {
    /// Partition of the table.
    type P: ValidPartitionSize<Self::UInt>;

    /// Tolerance of the tabulation: 1e-4 in 32 bits, 1e-6 in 64 bits.
    fn tolerance() -> (x: Number<Self>)
        ensures
            x.bits() == select_pattern(Self::UInt::spec_bits(), 0x38d1_b717, 0x3eb0_c6f7_a0b5_ed8d),
            x == Number::<Self>::spec_from_patterns(0x38d1_b717, 0x3eb0_c6f7_a0b5_ed8d),
    {
        Number::from_patterns(0x38d1_b717, 0x3eb0_c6f7_a0b5_ed8d)
    }

    /// Position of the left tail in units of scale: -1.7.
    fn left_tail_pos() -> (x: Number<Self>)
        ensures
            x.bits() == select_pattern(Self::UInt::spec_bits(), 0xbfd9_999a, 0xbffb_3333_3333_3333),
            x == Number::<Self>::spec_from_patterns(0xbfd9_999a, 0xbffb_3333_3333_3333),
    {
        Number::from_patterns(0xbfd9_999a, 0xbffb_3333_3333_3333)
    }

    /// Position of the right tail in units of scale: 5.5.
    fn right_tail_pos() -> (x: Number<Self>)
        ensures
            x.bits() == select_pattern(Self::UInt::spec_bits(), 0x40b0_0000, 0x4016_0000_0000_0000),
            x == Number::<Self>::spec_from_patterns(0x40b0_0000, 0x4016_0000_0000_0000),
    {
        Number::from_patterns(0x40b0_0000, 0x4016_0000_0000_0000)
    }
}

impl<T: Float> GumbelFloat for T where T::UInt: GumbelUInt {
    type P = <T::UInt as GumbelUInt>::P;
}

/// Error type for Gumbel distribution construction failures.
#[derive(Copy, Clone, PartialEq, Eq, Debug)]
pub enum GumbelError {
    /// The ETF table could not be computed for the provided distribution parameters.
    TabulationFailure,
    /// The provided scale parameter is not strictly positive.
    BadScale,
}

impl GumbelError {
    /// Text of the error.
    pub fn message(&self) -> (text: String)
        ensures
            text@ == (match self {
                GumbelError::TabulationFailure =>
                    "could not compute an ETF table for the provided distribution parameters"@,
                GumbelError::BadScale => "the scale parameter should be strictly positive"@,
            }),
    {
        match self {
            GumbelError::TabulationFailure => {
                "could not compute an ETF table for the provided distribution parameters".to_owned()
            },
            GumbelError::BadScale => "the scale parameter should be strictly positive".to_owned(),
        }
    }
}

/// The Gumbel distribution.
///
/// The probability density function is:
///
/// ```text
/// f(x) = exp(-(z + exp(-z))) / β
/// ```
/// where:
/// ```text
/// z = (x - μ) / β
/// ```
///
/// where `μ` is the location parameter and where the scale parameter `β` is
/// strictly positive.
pub struct Gumbel<T: GumbelFloat> {
    inner: DistAnyTailed<T::P, T, UnscaledPdf<T>, Tail<T>>,
}

impl<T: GumbelFloat> Gumbel<T> {
    /// The partition that the tabulation ends with for these parameters, if
    /// it ends with one: that of the density with its derivative, from the
    /// pre-partition of `[μ - 1.7 β, μ + 5.5 β]`, with the mode `μ` for
    /// extremum, with the tolerance of
    /// the format, no relaxation and at most 50 iterations.
    pub closed spec fn partition_for(
        location: Number<T>,
        scale: Number<T>,
    ) -> Option<Seq<Number<T>>> {
        let pdf = UnscaledPdf::<T>::spec_new(location, scale);
        spec_newton_tabulation(
            pdf,
            Derivative::<T>::spec_new(location, scale),
            spec_midpoint_prepartition(
                pdf,
                location
                    .spec_add(Number::spec_from_patterns(
                        0xbfd9_999a,
                        0xbffb_3333_3333_3333,
                    ).spec_mul(scale)),
                location
                    .spec_add(Number::spec_from_patterns(
                        0x40b0_0000,
                        0x4016_0000_0000_0000,
                    ).spec_mul(scale)),
                0,
                <T::P as Partition>::spec_size() as usize,
            ),
            seq![location],
            spec_tolerance::<T>(),
            Number::spec_one(),
            50,
        )
    }

    /// Whether the distribution is the one that is compiled for these
    /// parameters: its sampler follows the density and has the tail envelope
    /// of these parameters; and its table data follow a tabulation of the
    /// density over that partition, with the tail switch that the area of
    /// the tail gives.
    pub closed spec fn is_compiled_for(&self, location: Number<T>, scale: Number<T>) -> bool {
        let pdf = UnscaledPdf::<T>::spec_new(location, scale);
        let tail = Tail::<T>::spec_new_with_area(location, scale);
        &&& self.inner.function() == pdf
        &&& self.inner.envelope() == tail.0
        &&& exists|table: InitTable<T::P, T>|
            {
                &&& Some(table.x@) == Self::partition_for(location, scale)
                &&& is_tabulation(pdf, seq![location], spec_tolerance::<T>(), table)
                &&& #[trigger] self.inner.table().follows(
                    Number::spec_zero(),
                    table,
                    spec_tail_switch_of(table, tail.1, false),
                )
                &&& self.inner.spec_tail_switch() == spec_tail_switch_of(table, tail.1, false)
            }
    }

    /// Constructs a Gumbel distribution with the specified location and scale.
    /// A scale that is not greater than zero is refused. For any other the tabulation decides: the
    /// distribution is made if the tabulation ends with a partition, and a
    /// failed tabulation is reported else.
    pub fn new(location: Number<T>, scale: Number<T>) -> (result: Result<Self, GumbelError>)
        ensures
            result matches Err(GumbelError::BadScale) <==> !scale.is_positive(),
            result matches Err(GumbelError::TabulationFailure) <==> scale.is_positive()
                && Self::partition_for(location, scale) is None,
            result matches Ok(made) ==> made.is_compiled_for(location, scale),
    {
        if !scale.gt(Number::zero()) {
            return Err(GumbelError::BadScale);
        }
        let pdf = UnscaledPdf::new(location, scale);
        let dpdf = Derivative::new(location, scale);
        let init_nodes = midpoint_prepartition::<T::P, T, UnscaledPdf<T>>(
            &pdf,
            location.add(T::left_tail_pos().mul(scale)),
            location.add(T::right_tail_pos().mul(scale)),
            0,
        );
        let extrema: [Number<T>; 1] = [location];
        proof {
            assert(extrema@ =~= seq![location]);
        }
        let tolerance = T::tolerance();
        match newton_tabulation(&pdf, &dpdf, &init_nodes, &extrema, tolerance, Number::one(), 50) {
            Ok(table) => {
                let (tail_func, tail_area) = Tail::new_with_area(location, scale);
                let made = Self { inner: DistAnyTailed::new(pdf, &table, tail_func, tail_area) };
                proof {
                    let tail_s = Tail::<T>::spec_new_with_area(location, scale);
                    assert(tail_func == tail_s.0);
                    assert(tail_area == tail_s.1);
                    assert(made.inner.table().follows(
                        Number::spec_zero(),
                        table,
                        spec_tail_switch_of(table, tail_s.1, false),
                    ));
                    assert(made.is_compiled_for(location, scale));
                }
                Ok(made)
            },
            Err(_) => Err(GumbelError::TabulationFailure),
        }
    }

    /// What follows an attempt of this distribution: a rejection of either
    /// kind starts the drawing anew.
    pub fn next_step(outcome: Attempt<T>) -> (step: Step<T>)
        ensures
            step == outcome.spec_next(false),
    {
        outcome.next(false)
    }

    /// Whether an attempt on the word `r` may end with `outcome`: as an attempt of its
    /// sampler may.
    pub closed spec fn may_give(&self, r: T::UInt, outcome: Attempt<T>) -> bool {
        self.inner.may_give(r, outcome)
    }

    /// Makes one attempt at drawing a sample from the random word `r`.
    pub fn attempt<R: RngCore + ?Sized>(&self, r: T::UInt, rng: &mut R) -> (outcome: Attempt<T>)
        ensures
            self.may_give(r, outcome),
            !(outcome is TailRejected),
    {
        self.inner.attempt(r, rng)
    }

    /// Makes one attempt at drawing a sample. The tails never reject.
    pub fn try_sample<R: RngCore + ?Sized>(&self, rng: &mut R) -> (outcome: Attempt<T>)
        ensures
            exists|r: T::UInt| #[trigger] self.may_give(r, outcome),
            !(outcome is TailRejected),
    {
        let r = T::UInt::gen(rng);
        let outcome = self.attempt(r, rng);
        assert(self.may_give(r, outcome));
        outcome
    }
}

/// Non-normalized Gumbel probability distribution function with arbitrary
/// location and scale.
#[derive(Copy, Clone)]
struct UnscaledPdf<T: Float> {
    location: Number<T>,
    inv_scale: Number<T>,
}

impl<T: Float> UnscaledPdf<T> {
    /// The function for these parameters, with the coefficients that it keeps.
    closed spec fn spec_new(location: Number<T>, scale: Number<T>) -> Self {
        Self { location, inv_scale: Number::spec_one().spec_div(scale) }
    }

    /// Computes what [`spec_new`] states.
    fn new(location: Number<T>, scale: Number<T>) -> (made: Self)
        ensures
            made == Self::spec_new(location, scale),
    {
        Self { location, inv_scale: Number::one().div(scale) }
    }
}

impl<T: Float> UnivariateFn<T> for UnscaledPdf<T> {
    /// The value of the function at `x`.
    closed spec fn spec_eval(&self, x: Number<T>) -> Number<T> {
        let minus_z = self.location.spec_sub(x).spec_mul(self.inv_scale);

        minus_z.spec_sub(minus_z.spec_exp()).spec_exp()
    }

    /// Evaluates the function at `x`.
    fn eval(&self, x: Number<T>) -> (y: Number<T>) {
        let minus_z = self.location.sub(x).mul(self.inv_scale);

        minus_z.sub(minus_z.exp()).exp()
    }

    /// The wedge test in its general form: `a f(x) > b`.
    fn test(&self, x: Number<T>, a: Number<T>, b: Number<T>) -> (accepted: bool) {
        a.mul(self.eval(x)).gt(b)
    }
}

/// Derivative of the non-normalized Gumbel probability distribution function.
struct Derivative<T: Float> {
    location: Number<T>,
    inv_scale: Number<T>,
}

impl<T: Float> Derivative<T> {
    /// The function for these parameters, with the coefficients that it keeps.
    closed spec fn spec_new(location: Number<T>, scale: Number<T>) -> Self {
        let inv_scale = Number::spec_one().spec_div(scale);
        Derivative { location, inv_scale }
    }

    /// Computes what [`spec_new`] states.
    fn new(location: Number<T>, scale: Number<T>) -> (made: Self)
        ensures
            made == Self::spec_new(location, scale),
    {
        let inv_scale = Number::one().div(scale);
        Derivative { location, inv_scale }
    }
}

impl<T: Float> UnivariateFn<T> for Derivative<T> {
    /// The value of the function at `x`.
    closed spec fn spec_eval(&self, x: Number<T>) -> Number<T> {
        let minus_z = self.location.spec_sub(x).spec_mul(self.inv_scale);
        let exp_minus_z = minus_z.spec_exp();

        minus_z.spec_sub(exp_minus_z).spec_exp().spec_mul(exp_minus_z.spec_sub(Number::spec_one()))
            .spec_mul(self.inv_scale)
    }

    /// Evaluates the function at `x`.
    fn eval(&self, x: Number<T>) -> (y: Number<T>) {
        let minus_z = self.location.sub(x).mul(self.inv_scale);
        let exp_minus_z = minus_z.exp();

        minus_z.sub(exp_minus_z).exp().mul(exp_minus_z.sub(Number::one())).mul(self.inv_scale)
    }

    /// The wedge test in its general form: `a f(x) > b`.
    fn test(&self, x: Number<T>, a: Number<T>, b: Number<T>) -> (accepted: bool) {
        a.mul(self.eval(x)).gt(b)
    }
}

/// The two tails of the Gumbel distribution beyond the table.
#[derive(Copy, Clone)]
struct Tail<T: Float> {
    location: Number<T>,
    scale: Number<T>,
    a_left: Number<T>,
    a_right: Number<T>,
    rt: Number<T>,
}

/// Cumulative distribution function of the standard Gumbel distribution.
closed spec fn spec_cdf<T: Float>(z: Number<T>) -> Number<T> {
    z.spec_neg().spec_exp().spec_neg().spec_exp()
}

/// Computes what [`spec_cdf`] states.
fn cdf<T: Float>(z: Number<T>) -> (made: Number<T>)
    ensures
        made == spec_cdf::<T>(z),
{
    z.neg().exp().neg().exp()
}

impl<T: GumbelFloat> Tail<T> {
    /// The envelope of the tail for these parameters, and the area under it.
    closed spec fn spec_new_with_area(location: Number<T>, scale: Number<T>) -> (Self, Number<T>) {
        let wl = spec_cdf(Number::spec_from_patterns(0xbfd9_999a, 0xbffb_3333_3333_3333));
        let wr = Number::spec_one()
            .spec_sub(spec_cdf(Number::spec_from_patterns(0x40b0_0000, 0x4016_0000_0000_0000)));
        let rt = wl.spec_div(wl.spec_add(wr));
        let a_left = wl.spec_div(rt);
        let a_right = wr.spec_div(Number::spec_one().spec_sub(rt));

        let tail = Self { location, scale, a_left, a_right, rt };
        let area = wl.spec_add(wr).spec_mul(scale);

        (tail, area)
    }

    /// Computes what [`spec_new_with_area`] states.
    fn new_with_area(location: Number<T>, scale: Number<T>) -> (made: (Self, Number<T>))
        ensures
            made == Self::spec_new_with_area(location, scale),
    {
        let wl = cdf(T::left_tail_pos());
        let wr = Number::one().sub(cdf(T::right_tail_pos()));
        let rt = wl.div(wl.add(wr));
        let a_left = wl.div(rt);
        let a_right = wr.div(Number::one().sub(rt));

        let tail = Self { location, scale, a_left, a_right, rt };
        let area = wl.add(wr).mul(scale);

        (tail, area)
    }
}

impl<T: Float> Tail<T> {
    /// The outcome of a trial with the uniform number `u1`.
    pub closed spec fn spec_trial(&self, u1: Number<T>) -> Option<Number<T>> {
        let r = u1;
        let p = if r.spec_lt(self.rt) {
            r.spec_mul(self.a_left)
        } else {
            Number::spec_one().spec_sub(Number::spec_one().spec_sub(r).spec_mul(self.a_right))
        };

        Some(self.location.spec_sub(self.scale.spec_mul(p.spec_ln().spec_neg().spec_ln())))
    }

    /// Samples one of the two tails, each with the probability of its weight,
    /// by inversion of the cumulative distribution function.
    fn trial(&self, u1: Number<T>) -> (made: Option<Number<T>>)
        ensures
            made == self.spec_trial(u1),
    {
        let r = u1;
        let p = if r.lt(self.rt) {
            r.mul(self.a_left)
        } else {
            Number::one().sub(Number::one().sub(r).mul(self.a_right))
        };

        Some(self.location.sub(self.scale.mul(p.ln().neg().ln())))
    }
}

impl<T: Float> Envelope<T> for Tail<T> {
    open spec fn always_accepts(&self) -> bool {
        true
    }

    /// Makes one trial with a uniform number that it draws.
    fn try_sample<R: RngCore + ?Sized>(&self, rng: &mut R) -> (sample: Option<Number<T>>)
        ensures
            exists|u1: Number<T>|
                u1.is_in_unit_interval() && sample == #[trigger] self.spec_trial(
                    u1,
                ),
    {
        let u1 = Number::gen(rng);
        let sample = self.trial(u1);
        assert(u1.is_in_unit_interval() && sample == self.spec_trial(u1));
        sample
    }
}

/// Tolerance of the tabulation.
pub open spec fn spec_tolerance<T: Float>() -> Number<T> {
    Number::spec_from_patterns(0x38d1_b717, 0x3eb0_c6f7_a0b5_ed8d)
}

} // verus!
