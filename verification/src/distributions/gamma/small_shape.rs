use super::{GammaError, GammaFloat};
use crate::num::{Float, Number, UInt};
use crate::primitives::partition::{InitTable, Partition};
use crate::primitives::util::{
    is_tabulation, midpoint_prepartition, newton_tabulation, spec_midpoint_prepartition,
    spec_newton_tabulation,
};
use crate::primitives::{
    spec_tail_switch_of, Attempt, DistAnyTailed, Envelope, Step, UnivariateFn,
};
use rand_core::RngCore;
use vstd::prelude::*;

verus! {

/// Specialized gamma distribution for `k<1`.
///
/// For `k<1`, the implementation introduces variable `X` such that:
///
/// ```text
/// x = exp(X)
/// ```
///
/// which leads to the following non-normalized probability density function:
///
/// ```text
/// f(X) = exp(k X - exp(X) / θ)
/// ```
///
/// The left tail is generated using the envelope function:
///
/// ```text
/// fl(X) = exp(k X)  with X ≤ Xl
/// ```
///
/// The position of the left tail is specified through the relative weight `Wl`
/// of the left tail envelope and is relatively well approximated by:
///
/// ```text
/// Xl ≈ ln(θ) + ln(Wl) / k
/// ```
///
/// The right tail is in turn generated using the envelope function:
///
/// ```text
/// fr(X) = exp(k Xr - exp(X) / θ)   with X ≥ Xr
/// ```
///
/// The following choice of the right tail position ensures that the relative
/// weight `Wr` of the actual right tail is below the specified threshold:
///
/// ```text
/// Xr = ln(θ max[1, ln(k / (0.8856 Wr))])
/// ```
///
pub struct SmallShapeGamma<T: GammaFloat> {
    inner: DistAnyTailed<T::P, T, SmallShapeUnscaledPdf<T>, SmallShapeTail<T>>,
}

impl<T: GammaFloat> SmallShapeGamma<T> {
    /// Where the left and the right tail cut in.
    closed spec fn spec_bounds(shape: Number<T>, scale: Number<T>) -> (Number<T>, Number<T>) {
        let left_tail_pos = scale.spec_ln().spec_add(
            Number::spec_from_patterns(0x3a83_126f, 0x3f50_624d_d2f1_a9fc).spec_ln()
                .spec_div(shape),
        );
        // 0.8856, in single precision.
        let c = Number::spec_from_patterns(0x3f62_b6ae, 0x3fec_56d5_c000_0000);
        let right_tail_pos = Number::spec_one().spec_max(
            shape
                .spec_div(
                    c.spec_mul(Number::spec_from_patterns(0x3a83_126f, 0x3f50_624d_d2f1_a9fc)),
                )
                .spec_ln(),
        ).spec_mul(scale).spec_ln();
        (left_tail_pos, right_tail_pos)
    }

    /// Computes what [`spec_bounds`] states.
    fn bounds(shape: Number<T>, scale: Number<T>) -> (made: (Number<T>, Number<T>))
        ensures
            made == Self::spec_bounds(shape, scale),
    {
        let left_tail_pos = scale.ln().add(
            T::small_shape_left_tail_envelope_probability().ln().div(shape),
        );
        // 0.8856, in single precision.
        let c = Number::from_patterns(0x3f62_b6ae, 0x3fec_56d5_c000_0000);
        let right_tail_pos = Number::one().max(
            shape.div(c.mul(T::small_shape_right_tail_max_probability())).ln(),
        ).mul(scale).ln();
        (left_tail_pos, right_tail_pos)
    }

    /// The partition that the tabulation ends with for these parameters, if
    /// it ends with one: that of the density with its derivative, from the
    /// pre-partition of the interval between the two tails, with the mode
    /// `ln(k θ)` for extremum, with the tolerance of
    /// the format, no relaxation and at most 50 iterations.
    pub closed spec fn partition_for(shape: Number<T>, scale: Number<T>) -> Option<Seq<Number<T>>> {
        let pdf = SmallShapeUnscaledPdf::<T>::spec_new(shape, scale);
        let (left_tail_pos, right_tail_pos) = Self::spec_bounds(shape, scale);
        spec_newton_tabulation(
            pdf,
            pdf.spec_derivative(),
            spec_midpoint_prepartition(
                pdf,
                left_tail_pos,
                right_tail_pos,
                0,
                <T::P as Partition>::spec_size() as usize,
            ),
            seq![scale.spec_mul(shape).spec_ln()],
            spec_tolerance::<T>(),
            Number::spec_one(),
            50,
        )
    }

    /// Whether the distribution is the one that is compiled for these
    /// parameters: its sampler follows the density and has the tail envelope
    /// of these parameters; and its table data follow a tabulation of the
    /// density over that partition, with the tail switch that the area of
    /// the tail gives.
    pub closed spec fn is_compiled_for(&self, shape: Number<T>, scale: Number<T>) -> bool {
        let pdf = SmallShapeUnscaledPdf::<T>::spec_new(shape, scale);
        let (left_tail_pos, right_tail_pos) = Self::spec_bounds(shape, scale);
        let tail: (SmallShapeTail<T>, Number<T>) = SmallShapeTail::spec_new_with_area(
            shape,
            scale,
            left_tail_pos,
            right_tail_pos,
        );
        &&& self.inner.function() == pdf
        &&& self.inner.envelope() == tail.0
        &&& exists|table: InitTable<T::P, T>|
            {
                &&& Some(table.x@) == Self::partition_for(shape, scale)
                &&& is_tabulation(
                    pdf,
                    seq![scale.spec_mul(shape).spec_ln()],
                    spec_tolerance::<T>(),
                    table,
                )
                &&& #[trigger] self.inner.table().follows(
                    Number::spec_zero(),
                    table,
                    spec_tail_switch_of(table, tail.1, false),
                )
                &&& self.inner.spec_tail_switch() == spec_tail_switch_of(table, tail.1, false)
            }
    }

    /// Constructs a gamma distribution with the specified shape and scale.
    /// The tabulation decides: the distribution is made if the tabulation
    /// ends with a partition, and a failed tabulation is reported else.
    pub fn new(shape: Number<T>, scale: Number<T>) -> (result: Result<Self, GammaError>)
        ensures
            result is Err <==> Self::partition_for(shape, scale) is None,
            result matches Err(e) ==> e == GammaError::TabulationFailure,
            result matches Ok(made) ==> made.is_compiled_for(shape, scale),
    {
        let (left_tail_pos, right_tail_pos) = Self::bounds(shape, scale);
        let (tail, tail_area) = SmallShapeTail::new_with_area(
            shape,
            scale,
            left_tail_pos,
            right_tail_pos,
        );
        let pdf = SmallShapeUnscaledPdf::new(shape, scale);
        let dpdf = pdf.derivative();
        let init_nodes = midpoint_prepartition::<T::P, T, SmallShapeUnscaledPdf<T>>(
            &pdf,
            left_tail_pos,
            right_tail_pos,
            0,
        );
        let extrema: [Number<T>; 1] = [scale.mul(shape).ln()];
        proof {
            assert(extrema@ =~= seq![scale.spec_mul(shape).spec_ln()]);
        }
        let tolerance = T::tolerance();
        match newton_tabulation(&pdf, &dpdf, &init_nodes, &extrema, tolerance, Number::one(), 50) {
            Ok(table) => {
                let made = Self { inner: DistAnyTailed::new(pdf, &table, tail, tail_area) };
                proof {
                    let tail_s: (SmallShapeTail<T>, Number<T>) = SmallShapeTail::spec_new_with_area(
                        shape,
                        scale,
                        left_tail_pos,
                        right_tail_pos,
                    );
                    assert(tail == tail_s.0);
                    assert(tail_area == tail_s.1);
                    assert(made.inner.table().follows(
                        Number::spec_zero(),
                        table,
                        spec_tail_switch_of(table, tail_s.1, false),
                    ));
                    assert(made.is_compiled_for(shape, scale));
                }
                Ok(made)
            },
            Err(_) => Err(GammaError::TabulationFailure),
        }
    }

    /// What follows an attempt of this distribution: a rejection of either
    /// kind starts the drawing anew.
    pub fn next_step(outcome: Attempt<T>) -> (step: Step<T>)
        ensures
            step == outcome.spec_next(false),
    {
        outcome.next(false)
    }

    /// Whether an attempt on the word `r` may end with `outcome`: as the outcome of
    /// an attempt of its sampler on the transformed variable, with the sample
    /// transformed back.
    pub closed spec fn may_give(&self, r: T::UInt, outcome: Attempt<T>) -> bool {
        exists|inner: Attempt<T>| #[trigger]
            self.inner.may_give(r, inner) && outcome == Self::spec_transformed(inner)
    }

    /// The outcome for the variable itself of an attempt on the transformed
    /// variable: the sample is the exponential of the sample that was drawn.
    pub open spec fn spec_transformed(inner: Attempt<T>) -> Attempt<T> {
        match inner {
            Attempt::Accepted(x) => Attempt::Accepted(x.spec_exp()),
            Attempt::Rejected => Attempt::Rejected,
            Attempt::TailRejected(sign) => Attempt::TailRejected(sign),
        }
    }

    /// The outcome for the variable itself of an attempt on the transformed
    /// variable.
    pub fn transformed(inner: Attempt<T>) -> (outcome: Attempt<T>)
        ensures
            outcome == Self::spec_transformed(inner),
    {
        match inner {
            Attempt::Accepted(x) => Attempt::Accepted(x.exp()),
            Attempt::Rejected => Attempt::Rejected,
            Attempt::TailRejected(sign) => Attempt::TailRejected(sign),
        }
    }

    /// Makes one attempt at drawing a sample from the random word `r`.
    pub fn attempt<R: RngCore + ?Sized>(&self, r: T::UInt, rng: &mut R) -> (outcome: Attempt<T>)
        ensures
            self.may_give(r, outcome),
    {
        Self::transformed(self.inner.attempt(r, rng))
    }

    /// Makes one attempt at drawing a sample: an attempt on the transformed
    /// variable, of which the sample is the exponential.
    pub fn try_sample<R: RngCore + ?Sized>(&self, rng: &mut R) -> (outcome: Attempt<T>)
        ensures
            exists|r: T::UInt| #[trigger] self.may_give(r, outcome),
    {
        let r = T::UInt::gen(rng);
        let outcome = self.attempt(r, rng);
        assert(self.may_give(r, outcome));
        outcome
    }
}

/// Non-normalized transformed gamma probability distribution function for
/// `k<1`.
///
/// ```text
/// f(X) = exp(k X - exp(X) / θ)
/// ```
#[derive(Copy, Clone)]
struct SmallShapeUnscaledPdf<T: Float> {
    shape: Number<T>,
    ln_scale: Number<T>,
}

impl<T: Float> SmallShapeUnscaledPdf<T> {
    /// The function for these parameters, with the coefficients that it keeps.
    closed spec fn spec_new(shape: Number<T>, scale: Number<T>) -> Self {
        Self { shape, ln_scale: scale.spec_ln() }
    }

    /// Computes what [`spec_new`] states.
    fn new(shape: Number<T>, scale: Number<T>) -> (made: Self)
        ensures
            made == Self::spec_new(shape, scale),
    {
        Self { shape, ln_scale: scale.ln() }
    }

    /// The derivative of the function.
    closed spec fn spec_derivative(self) -> SmallShapeDerivative<T> {
        SmallShapeDerivative { pdf: self }
    }

    /// Computes what [`spec_derivative`] states.
    fn derivative(self) -> (made: SmallShapeDerivative<T>)
        ensures
            made == self.spec_derivative(),
    {
        SmallShapeDerivative { pdf: self }
    }
}

impl<T: Float> UnivariateFn<T> for SmallShapeUnscaledPdf<T> {
    /// The value of the function at `x`.
    closed spec fn spec_eval(&self, x: Number<T>) -> Number<T> {
        let exp_x_star = x.spec_sub(self.ln_scale).spec_exp();

        self.shape.spec_mul(x).spec_sub(exp_x_star).spec_exp()
    }

    /// Evaluates the function at `x`.
    fn eval(&self, x: Number<T>) -> (y: Number<T>) {
        let exp_x_star = x.sub(self.ln_scale).exp();

        self.shape.mul(x).sub(exp_x_star).exp()
    }

    /// The wedge test in its general form: `a f(x) > b`.
    fn test(&self, x: Number<T>, a: Number<T>, b: Number<T>) -> (accepted: bool) {
        a.mul(self.eval(x)).gt(b)
    }
}

/// Derivative of the non-normalized transformed gamma probability distribution
/// function for `k<1`.
struct SmallShapeDerivative<T: Float> {
    pdf: SmallShapeUnscaledPdf<T>,
}

impl<T: Float> UnivariateFn<T> for SmallShapeDerivative<T> {
    /// The value of the function at `x`.
    closed spec fn spec_eval(&self, x: Number<T>) -> Number<T> {
        let f = self.pdf;
        let exp_x_star = x.spec_sub(f.ln_scale).spec_exp();

        f.shape.spec_sub(exp_x_star).spec_mul(f.shape.spec_mul(x).spec_sub(exp_x_star).spec_exp())
    }

    /// Evaluates the function at `x`.
    fn eval(&self, x: Number<T>) -> (y: Number<T>) {
        let f = &self.pdf;
        let exp_x_star = x.sub(f.ln_scale).exp();

        f.shape.sub(exp_x_star).mul(f.shape.mul(x).sub(exp_x_star).exp())
    }

    /// The wedge test in its general form: `a f(x) > b`.
    fn test(&self, x: Number<T>, a: Number<T>, b: Number<T>) -> (accepted: bool) {
        a.mul(self.eval(x)).gt(b)
    }
}

/// Combined left & right tail envelope of the transformed gamma distribution
/// for `k<1`.
#[derive(Copy, Clone)]
struct SmallShapeTail<T: Float> {
    left: SmallShapeLeftTail<T>,
    right: SmallShapeRightTail<T>,
    left_tail_weight: Number<T>,
}

impl<T: Float> SmallShapeTail<T> {
    /// The envelope of the tail for these parameters, and the area under it.
    closed spec fn spec_new_with_area(
        shape: Number<T>,
        scale: Number<T>,
        left_cut_in: Number<T>,
        right_cut_in: Number<T>,
    ) -> (Self, Number<T>) {
        let (left, left_area) = SmallShapeLeftTail::spec_new_with_area(shape, scale, left_cut_in);
        let (right, right_area) = SmallShapeRightTail::spec_new_with_area(
            shape,
            scale,
            right_cut_in,
        );
        let area = left_area.spec_add(right_area);
        let left_tail_weight = left_area.spec_div(area);
        let tail = Self { left, right, left_tail_weight };

        (tail, area)
    }

    /// Computes what [`spec_new_with_area`] states.
    fn new_with_area(
        shape: Number<T>,
        scale: Number<T>,
        left_cut_in: Number<T>,
        right_cut_in: Number<T>,
    ) -> (made: (Self, Number<T>))
        ensures
            made == Self::spec_new_with_area(shape, scale, left_cut_in, right_cut_in),
    {
        let (left, left_area) = SmallShapeLeftTail::new_with_area(shape, scale, left_cut_in);
        let (right, right_area) = SmallShapeRightTail::new_with_area(shape, scale, right_cut_in);
        let area = left_area.add(right_area);
        let left_tail_weight = left_area.div(area);
        let tail = Self { left, right, left_tail_weight };

        (tail, area)
    }
}

impl<T: Float> SmallShapeTail<T> {
    /// Whether a trial may end with `sample`: as a trial of the left or of
    /// the right tail may.
    pub closed spec fn may_draw(&self, sample: Option<Number<T>>) -> bool {
        self.left.may_draw(sample) || self.right.may_draw(sample)
    }
}

impl<T: Float> Envelope<T> for SmallShapeTail<T> {
    /// Makes one trial of the left tail, with the probability of its
    /// weight, or else of the right tail.
    fn try_sample<R: RngCore + ?Sized>(&self, rng: &mut R) -> (sample: Option<Number<T>>)
        ensures
            self.may_draw(sample),
    {
        if Number::gen(rng).lt(self.left_tail_weight) {
            self.left.try_sample(rng)
        } else {
            self.right.try_sample(rng)
        }
    }
}

/// Left tail envelope of the transformed gamma distribution for `k<1`.
///
/// The envelope function is of the form:
///
/// ```text
/// fl(X) = exp(k X) with X ≤ Xl
/// ```
#[derive(Copy, Clone)]
struct SmallShapeLeftTail<T: Float> {
    cut_in: Number<T>,
    inv_shape: Number<T>,
    minus_scale: Number<T>,
}

impl<T: Float> SmallShapeLeftTail<T> {
    /// The envelope of the tail for these parameters, and the area under it.
    closed spec fn spec_new_with_area(
        shape: Number<T>,
        scale: Number<T>,
        cut_in: Number<T>,
    ) -> (Self, Number<T>) {
        let tail = Self {
            cut_in,
            inv_shape: Number::spec_one().spec_div(shape),
            minus_scale: scale.spec_neg(),
        };
        let area = shape.spec_mul(cut_in).spec_exp().spec_div(shape);

        (tail, area)
    }

    /// Computes what [`spec_new_with_area`] states.
    fn new_with_area(
        shape: Number<T>,
        scale: Number<T>,
        cut_in: Number<T>,
    ) -> (made: (Self, Number<T>))
        ensures
            made == Self::spec_new_with_area(shape, scale, cut_in),
    {
        let tail = Self { cut_in, inv_shape: Number::one().div(shape), minus_scale: scale.neg() };
        let area = shape.mul(cut_in).exp().div(shape);

        (tail, area)
    }
}

impl<T: Float> SmallShapeLeftTail<T> {
    /// The outcome of a trial with the uniform numbers `u1` and `u2`.
    pub closed spec fn spec_trial(&self, u1: Number<T>, u2: Number<T>) -> Option<Number<T>> {
        let x = self.cut_in
            .spec_add(self.inv_shape.spec_mul(Number::spec_one().spec_sub(u1).spec_ln()));

        if x.spec_exp().spec_lt(self.minus_scale.spec_mul(u2.spec_ln())) {
            Some(x)
        } else {
            None
        }
    }

    /// Makes one trial.
    fn trial(&self, u1: Number<T>, u2: Number<T>) -> (made: Option<Number<T>>)
        ensures
            made == self.spec_trial(u1, u2),
    {
        let x = self.cut_in.add(self.inv_shape.mul(Number::one().sub(u1).ln()));

        if x.exp().lt(self.minus_scale.mul(u2.ln())) {
            Some(x)
        } else {
            None
        }
    }
}

impl<T: Float> SmallShapeLeftTail<T> {
    /// Whether a trial may end with `sample`: as the outcome of a trial with
    /// two uniform numbers.
    pub closed spec fn may_draw(&self, sample: Option<Number<T>>) -> bool {
        exists|u1: Number<T>, u2: Number<T>|
            u1.is_in_unit_interval() && u2.is_in_unit_interval() && sample
                == #[trigger] self.spec_trial(u1, u2)
    }
}

impl<T: Float> Envelope<T> for SmallShapeLeftTail<T> {
    /// Makes one trial with uniform numbers that it draws.
    fn try_sample<R: RngCore + ?Sized>(&self, rng: &mut R) -> (sample: Option<Number<T>>)
        ensures
            self.may_draw(sample),
    {
        let u1 = Number::gen(rng);
        let u2 = Number::gen(rng);
        let sample = self.trial(u1, u2);
        assert(
            u1.is_in_unit_interval() && u2.is_in_unit_interval() && sample
                == self.spec_trial(u1, u2)
        );
        sample
    }
}

/// Right tail envelope of the transformed gamma distribution for `k<1`.
///
/// The envelope function is of the form:
///
/// ```text
/// fr(X) = exp(k Xr - exp(X) / θ)   with X ≥ Xr
/// ```
#[derive(Copy, Clone)]
struct SmallShapeRightTail<T: Float> {
    cut_in: Number<T>,
    exp_cut_in: Number<T>,
    scale: Number<T>,
    m: Number<T>,  // shape - 1
}

impl<T: Float> SmallShapeRightTail<T> {
    /// The envelope of the tail for these parameters, and the area under it.
    closed spec fn spec_new_with_area(
        shape: Number<T>,
        scale: Number<T>,
        cut_in: Number<T>,
    ) -> (Self, Number<T>) {
        let m = shape.spec_sub(Number::spec_one());
        let exp_cut_in = cut_in.spec_exp();
        let tail = Self { cut_in, exp_cut_in, scale, m };
        let area = scale
            .spec_mul(m.spec_mul(cut_in).spec_sub(exp_cut_in.spec_div(scale)).spec_exp());

        (tail, area)
    }

    /// Computes what [`spec_new_with_area`] states.
    fn new_with_area(
        shape: Number<T>,
        scale: Number<T>,
        cut_in: Number<T>,
    ) -> (made: (Self, Number<T>))
        ensures
            made == Self::spec_new_with_area(shape, scale, cut_in),
    {
        let m = shape.sub(Number::one());
        let exp_cut_in = cut_in.exp();
        let tail = Self { cut_in, exp_cut_in, scale, m };
        let area = scale.mul(m.mul(cut_in).sub(exp_cut_in.div(scale)).exp());

        (tail, area)
    }
}

impl<T: Float> SmallShapeRightTail<T> {
    /// The outcome of a trial with the uniform numbers `u1` and `u2`.
    pub closed spec fn spec_trial(&self, u1: Number<T>, u2: Number<T>) -> Option<Number<T>> {
        let x = self.exp_cut_in
            .spec_sub(self.scale.spec_mul(Number::spec_one().spec_sub(u1).spec_ln())).spec_ln();

        if self.m.spec_mul(x.spec_sub(self.cut_in)).spec_gt(u2.spec_ln()) {
            Some(x)
        } else {
            None
        }
    }

    /// Makes one trial.
    fn trial(&self, u1: Number<T>, u2: Number<T>) -> (made: Option<Number<T>>)
        ensures
            made == self.spec_trial(u1, u2),
    {
        let x = self.exp_cut_in.sub(self.scale.mul(Number::one().sub(u1).ln())).ln();

        if self.m.mul(x.sub(self.cut_in)).gt(u2.ln()) {
            Some(x)
        } else {
            None
        }
    }
}

impl<T: Float> SmallShapeRightTail<T> {
    /// Whether a trial may end with `sample`: as the outcome of a trial with
    /// two uniform numbers.
    pub closed spec fn may_draw(&self, sample: Option<Number<T>>) -> bool {
        exists|u1: Number<T>, u2: Number<T>|
            u1.is_in_unit_interval() && u2.is_in_unit_interval() && sample
                == #[trigger] self.spec_trial(u1, u2)
    }
}

impl<T: Float> Envelope<T> for SmallShapeRightTail<T> {
    /// Makes one trial with uniform numbers that it draws.
    fn try_sample<R: RngCore + ?Sized>(&self, rng: &mut R) -> (sample: Option<Number<T>>)
        ensures
            self.may_draw(sample),
    {
        let u1 = Number::gen(rng);
        let u2 = Number::gen(rng);
        let sample = self.trial(u1, u2);
        assert(
            u1.is_in_unit_interval() && u2.is_in_unit_interval() && sample
                == self.spec_trial(u1, u2)
        );
        sample
    }
}

/// Tolerance of the tabulation.
pub open spec fn spec_tolerance<T: Float>() -> Number<T> {
    Number::spec_from_patterns(0x3dcc_cccd, 0x3eb0_c6f7_a0b5_ed8d)
}

} // verus!
