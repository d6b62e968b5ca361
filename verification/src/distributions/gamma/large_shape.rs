use super::{GammaError, GammaFloat};
use crate::num::{Float, Number, UInt};
use crate::primitives::partition::{InitTable, Partition};
use crate::primitives::util::{
    is_tabulation, midpoint_prepartition, newton_tabulation, spec_midpoint_prepartition,
    spec_newton_tabulation,
};
use crate::primitives::{
    spec_tail_switch_of, Attempt, DistAnyTailed, Envelope, Step, UnivariateFn,
};
use rand_core::RngCore;
use vstd::prelude::*;

verus! {

/// Specialized gamma distribution for `k≥1`.
///
/// In order to prevent floating point overflow at large `k`, the implementation
/// uses the following scaled probability density function:
///
/// ```text
/// f(x) = a x^(k - 1) exp(-x / θ)
///      = exp(-x / θ + (k - 1) ln(x) + ln(a))
/// ```
///
/// where constant `a` normalizes the function by its maximum:
///
/// ```text
/// ln(a) = (k - 1)(1 - ln(θ (k - 1)))
/// ```
///
/// The position of the right tail (and, for large `k`, of the left tail) is
/// transformed from the tail position of a normal distribution via the
/// Wilson-Hilferty approximation.
pub struct LargeShapeGamma<T: GammaFloat> {
    inner: DistAnyTailed<T::P, T, LargeShapeUnscaledPdf<T>, LargeShapeTail<T>>,
}

impl<T: GammaFloat> LargeShapeGamma<T> {
    /// Where the left and the right tail cut in.
    closed spec fn spec_bounds(shape: Number<T>, scale: Number<T>) -> (Number<T>, Number<T>) {
        // The left/right tail positions are determined by keeping the tail
        // sampling probability roughly constant, using the Wilson and Hilferty
        // approximation.
        let nine = Number::spec_from_patterns(0x4110_0000, 0x4022_0000_0000_0000);
        let normal_variance = Number::spec_one().spec_div(nine.spec_mul(shape));
        let normal_mean = Number::spec_one().spec_sub(normal_variance);
        let normal_tail_pos_delta = Number::spec_from_patterns(0x4050_0000, 0x400a_0000_0000_0000)
            .spec_mul(
            normal_variance.spec_sqrt(),
        );
        let normal_right_tail_pos = normal_mean.spec_add(normal_tail_pos_delta);
        let right_tail_pos = scale.spec_mul(shape).spec_mul(
            normal_right_tail_pos.spec_mul(normal_right_tail_pos).spec_mul(normal_right_tail_pos),
        );
        let normal_left_tail_pos = normal_mean.spec_sub(normal_tail_pos_delta);
        let left_tail_pos = scale.spec_mul(shape).spec_mul(
            normal_left_tail_pos.spec_mul(normal_left_tail_pos).spec_mul(normal_left_tail_pos),
        );
        (left_tail_pos, right_tail_pos)
    }

    /// Computes what [`spec_bounds`] states.
    fn bounds(shape: Number<T>, scale: Number<T>) -> (made: (Number<T>, Number<T>))
        ensures
            made == Self::spec_bounds(shape, scale),
    {
        // The left/right tail positions are determined by keeping the tail
        // sampling probability roughly constant, using the Wilson and Hilferty
        // approximation.
        let nine = Number::from_patterns(0x4110_0000, 0x4022_0000_0000_0000);
        let normal_variance = Number::one().div(nine.mul(shape));
        let normal_mean = Number::one().sub(normal_variance);
        let normal_tail_pos_delta = T::large_shape_normalized_tail_pos().mul(
            normal_variance.sqrt(),
        );
        let normal_right_tail_pos = normal_mean.add(normal_tail_pos_delta);
        let right_tail_pos = scale.mul(shape).mul(
            normal_right_tail_pos.mul(normal_right_tail_pos).mul(normal_right_tail_pos),
        );
        let normal_left_tail_pos = normal_mean.sub(normal_tail_pos_delta);
        let left_tail_pos = scale.mul(shape).mul(
            normal_left_tail_pos.mul(normal_left_tail_pos).mul(normal_left_tail_pos),
        );
        (left_tail_pos, right_tail_pos)
    }

    /// The partition that the tabulation ends with for these parameters, if
    /// it ends with one: that of the density with its derivative, from the
    /// pre-partition of the interval from the left tail, or from zero, to the
    /// right tail, with the mode `θ (k - 1)` for extremum, with the tolerance
    /// of
    /// the format, no relaxation and at most 50 iterations.
    pub closed spec fn partition_for(shape: Number<T>, scale: Number<T>) -> Option<Seq<Number<T>>> {
        let pdf = LargeShapeUnscaledPdf::<T>::spec_new(shape, scale);
        let (left_tail_pos, right_tail_pos) = Self::spec_bounds(shape, scale);
        spec_newton_tabulation(
            pdf,
            pdf.spec_derivative(),
            spec_midpoint_prepartition(
                pdf,
                LargeShapeTail::<T>::spec_lower_end(left_tail_pos),
                right_tail_pos,
                0,
                <T::P as Partition>::spec_size() as usize,
            ),
            seq![scale.spec_mul(shape.spec_sub(Number::spec_one()))],
            spec_tolerance::<T>(),
            Number::spec_one(),
            50,
        )
    }

    /// Whether the distribution is the one that is compiled for these
    /// parameters: its sampler follows the density and has the tail envelope
    /// of these parameters; and its table data follow a tabulation of the
    /// density over that partition, with the tail switch that the area of
    /// the tail gives.
    pub closed spec fn is_compiled_for(&self, shape: Number<T>, scale: Number<T>) -> bool {
        let pdf = LargeShapeUnscaledPdf::<T>::spec_new(shape, scale);
        let (left_tail_pos, right_tail_pos) = Self::spec_bounds(shape, scale);
        let tail: (LargeShapeTail<T>, Number<T>) = LargeShapeTail::spec_new_with_area(
            shape,
            scale,
            left_tail_pos,
            right_tail_pos,
        );
        &&& self.inner.function() == pdf
        &&& self.inner.envelope() == tail.0
        &&& exists|table: InitTable<T::P, T>|
            {
                &&& Some(table.x@) == Self::partition_for(shape, scale)
                &&& is_tabulation(
                    pdf,
                    seq![scale.spec_mul(shape.spec_sub(Number::spec_one()))],
                    spec_tolerance::<T>(),
                    table,
                )
                &&& #[trigger] self.inner.table().follows(
                    Number::spec_zero(),
                    table,
                    spec_tail_switch_of(table, tail.1, false),
                )
                &&& self.inner.spec_tail_switch() == spec_tail_switch_of(table, tail.1, false)
            }
    }

    /// Constructs a gamma distribution with the specified shape and scale.
    /// The tabulation decides: the distribution is made if the tabulation
    /// ends with a partition, and a failed tabulation is reported else.
    pub fn new(shape: Number<T>, scale: Number<T>) -> (result: Result<Self, GammaError>)
        ensures
            result is Err <==> Self::partition_for(shape, scale) is None,
            result matches Err(e) ==> e == GammaError::TabulationFailure,
            result matches Ok(made) ==> made.is_compiled_for(shape, scale),
    {
        let (left_tail_pos, right_tail_pos) = Self::bounds(shape, scale);
        let (tail, tail_area) = LargeShapeTail::new_with_area(
            shape,
            scale,
            left_tail_pos,
            right_tail_pos,
        );
        let pdf = LargeShapeUnscaledPdf::new(shape, scale);
        let dpdf = pdf.derivative();
        let init_nodes = midpoint_prepartition::<T::P, T, LargeShapeUnscaledPdf<T>>(
            &pdf,
            LargeShapeTail::lower_end(left_tail_pos),
            right_tail_pos,
            0,
        );
        let extrema: [Number<T>; 1] = [scale.mul(shape.sub(Number::one()))];
        proof {
            assert(extrema@ =~= seq![scale.spec_mul(shape.spec_sub(Number::spec_one()))]);
        }
        let tolerance = T::tolerance();
        match newton_tabulation(&pdf, &dpdf, &init_nodes, &extrema, tolerance, Number::one(), 50) {
            Ok(table) => {
                let made = Self { inner: DistAnyTailed::new(pdf, &table, tail, tail_area) };
                proof {
                    let tail_s: (LargeShapeTail<T>, Number<T>) = LargeShapeTail::spec_new_with_area(
                        shape,
                        scale,
                        left_tail_pos,
                        right_tail_pos,
                    );
                    assert(tail == tail_s.0);
                    assert(tail_area == tail_s.1);
                    assert(made.inner.table().follows(
                        Number::spec_zero(),
                        table,
                        spec_tail_switch_of(table, tail_s.1, false),
                    ));
                    assert(made.is_compiled_for(shape, scale));
                }
                Ok(made)
            },
            Err(_) => Err(GammaError::TabulationFailure),
        }
    }

    /// What follows an attempt of this distribution: a rejection of either
    /// kind starts the drawing anew.
    pub fn next_step(outcome: Attempt<T>) -> (step: Step<T>)
        ensures
            step == outcome.spec_next(false),
    {
        outcome.next(false)
    }

    /// Whether an attempt on the word `r` may end with `outcome`: as an attempt of its
    /// sampler may.
    pub closed spec fn may_give(&self, r: T::UInt, outcome: Attempt<T>) -> bool {
        self.inner.may_give(r, outcome)
    }

    /// Makes one attempt at drawing a sample from the random word `r`.
    pub fn attempt<R: RngCore + ?Sized>(&self, r: T::UInt, rng: &mut R) -> (outcome: Attempt<T>)
        ensures
            self.may_give(r, outcome),
    {
        self.inner.attempt(r, rng)
    }

    /// Makes one attempt at drawing a sample.
    pub fn try_sample<R: RngCore + ?Sized>(&self, rng: &mut R) -> (outcome: Attempt<T>)
        ensures
            exists|r: T::UInt| #[trigger] self.may_give(r, outcome),
    {
        let r = T::UInt::gen(rng);
        let outcome = self.attempt(r, rng);
        assert(self.may_give(r, outcome));
        outcome
    }
}

/// Non-normalized gamma probability distribution function for `k≥1`.
///
/// ```text
/// f(x) = a x^(k - 1) exp(-x / θ)
///      = exp(-x / θ + (k - 1) ln(x) + ln(a))
/// ```
///
/// with:
///
/// ```text
/// ln(a) = (k - 1)(1 - ln(θ (k - 1)))
/// ```
///
/// In order to improve floating-point stability at large `k` without
/// introducing a singularity at `k=2`, `f` is rewritten in terms of
/// variable `xs`:
///
/// ```text
/// xs = x / (m θ) with m = max(k-1, 1)
/// ```
///
/// in the form:
///
/// ```text
/// f(x) = exp(m ((δ - xs) + β ln(xs)))
/// ```
///
#[derive(Copy, Clone)]
struct LargeShapeUnscaledPdf<T: Float> {
    m: Number<T>,  // max(shape - 1, 1)
    scaling: Number<T>,  // 1 / (scale * m)
    beta: Number<T>,  // (shape - 1) / m
    delta: Number<T>,  // beta * (1 - ln(beta))
}

impl<T: Float> LargeShapeUnscaledPdf<T> {
    /// The function for these parameters, with the coefficients that it keeps.
    closed spec fn spec_new(shape: Number<T>, scale: Number<T>) -> Self {
        let m = shape.spec_sub(Number::spec_one()).spec_max(Number::spec_one());
        let beta = shape.spec_sub(Number::spec_one()).spec_div(m);
        Self {
            m,
            scaling: Number::spec_one().spec_div(scale.spec_mul(m)),
            beta,
            delta: if beta.spec_le(Number::spec_zero()) {
                Number::spec_zero()
            } else {
                beta.spec_mul(Number::spec_one().spec_sub(beta.spec_ln()))
            },
        }
    }

    /// Computes what [`spec_new`] states.
    fn new(shape: Number<T>, scale: Number<T>) -> (made: Self)
        ensures
            made == Self::spec_new(shape, scale),
    {
        let m = shape.sub(Number::one()).max(Number::one());
        let beta = shape.sub(Number::one()).div(m);
        Self {
            m,
            scaling: Number::one().div(scale.mul(m)),
            beta,
            delta: if beta.le(Number::zero()) {
                Number::zero()
            } else {
                beta.mul(Number::one().sub(beta.ln()))
            },
        }
    }

    /// The derivative of the function.
    closed spec fn spec_derivative(self) -> LargeShapeDerivative<T> {
        LargeShapeDerivative { pdf: self }
    }

    /// Computes what [`spec_derivative`] states.
    fn derivative(self) -> (made: LargeShapeDerivative<T>)
        ensures
            made == self.spec_derivative(),
    {
        LargeShapeDerivative { pdf: self }
    }
}

impl<T: Float> UnivariateFn<T> for LargeShapeUnscaledPdf<T> {
    /// The value of the function at `x`.
    closed spec fn spec_eval(&self, x: Number<T>) -> Number<T> {
        let xs = x.spec_mul(self.scaling);

        self.m.spec_mul(self.delta.spec_sub(xs).spec_add(self.beta.spec_mul(xs.spec_ln())))
            .spec_exp()
    }

    /// Evaluates the function at `x`.
    fn eval(&self, x: Number<T>) -> (y: Number<T>) {
        let xs = x.mul(self.scaling);

        self.m.mul(self.delta.sub(xs).add(self.beta.mul(xs.ln()))).exp()
    }

    /// The wedge test in its general form: `a f(x) > b`.
    fn test(&self, x: Number<T>, a: Number<T>, b: Number<T>) -> (accepted: bool) {
        a.mul(self.eval(x)).gt(b)
    }
}

/// Derivative of the non-normalized gamma probability distribution function
/// for `k≥1`.
struct LargeShapeDerivative<T: Float> {
    pdf: LargeShapeUnscaledPdf<T>,
}

impl<T: Float> UnivariateFn<T> for LargeShapeDerivative<T> {
    /// The value of the function at `x`.
    closed spec fn spec_eval(&self, x: Number<T>) -> Number<T> {
        let f = self.pdf;
        let xs = x.spec_mul(f.scaling);
        let ln_xs = xs.spec_ln();

        f.m.spec_mul(f.scaling).spec_mul(f.beta.spec_sub(xs)).spec_mul(
            f.m.spec_mul(f.delta.spec_sub(xs).spec_add(f.beta.spec_mul(ln_xs))).spec_sub(ln_xs)
                .spec_exp(),
        )
    }

    /// Evaluates the function at `x`.
    fn eval(&self, x: Number<T>) -> (y: Number<T>) {
        let f = &self.pdf;
        let xs = x.mul(f.scaling);
        let ln_xs = xs.ln();

        f.m.mul(f.scaling).mul(f.beta.sub(xs)).mul(
            f.m.mul(f.delta.sub(xs).add(f.beta.mul(ln_xs))).sub(ln_xs).exp(),
        )
    }

    /// The wedge test in its general form: `a f(x) > b`.
    fn test(&self, x: Number<T>, a: Number<T>, b: Number<T>) -> (accepted: bool) {
        a.mul(self.eval(x)).gt(b)
    }
}

/// Tail envelope of the gamma distribution for `k≥1`.
#[derive(Copy, Clone)]
enum LargeShapeTail<T: Float> {
    Single(LargeShapeSingleTail<T>),
    Double(LargeShapeDoubleTail<T>),
}

impl<T: Float> LargeShapeTail<T> {
    /// Where the table begins: at the left tail if there is one, else at
    /// zero. For moderate values of the shape parameter, only the right tail
    /// is necessary.
    closed spec fn spec_lower_end(left_tail_pos: Number<T>) -> Number<T> {
        if left_tail_pos.spec_le(Number::spec_zero()) {
            Number::spec_zero()
        } else {
            left_tail_pos
        }
    }

    /// Computes what [`spec_lower_end`] states.
    fn lower_end(left_tail_pos: Number<T>) -> (made: Number<T>)
        ensures
            made == Self::spec_lower_end(left_tail_pos),
    {
        if left_tail_pos.le(Number::zero()) {
            Number::zero()
        } else {
            left_tail_pos
        }
    }

    /// The envelope of the tail for these parameters, and the area under it.
    closed spec fn spec_new_with_area(
        shape: Number<T>,
        scale: Number<T>,
        left_tail_pos: Number<T>,
        right_tail_pos: Number<T>,
    ) -> (Self, Number<T>) {
        if left_tail_pos.spec_le(Number::spec_zero()) {
            let (tail_func, tail_area) = LargeShapeSingleTail::spec_new_with_area(
                shape,
                scale,
                right_tail_pos,
            );
            (LargeShapeTail::Single(tail_func), tail_area)
        } else {
            let (tail_func, tail_area) = LargeShapeDoubleTail::spec_new_with_area(
                shape,
                scale,
                left_tail_pos,
                right_tail_pos,
            );
            (LargeShapeTail::Double(tail_func), tail_area)
        }
    }

    /// Computes what [`spec_new_with_area`] states.
    fn new_with_area(
        shape: Number<T>,
        scale: Number<T>,
        left_tail_pos: Number<T>,
        right_tail_pos: Number<T>,
    ) -> (made: (Self, Number<T>))
        ensures
            made == Self::spec_new_with_area(shape, scale, left_tail_pos, right_tail_pos),
    {
        if left_tail_pos.le(Number::zero()) {
            let (tail_func, tail_area) = LargeShapeSingleTail::new_with_area(
                shape,
                scale,
                right_tail_pos,
            );
            (LargeShapeTail::Single(tail_func), tail_area)
        } else {
            let (tail_func, tail_area) = LargeShapeDoubleTail::new_with_area(
                shape,
                scale,
                left_tail_pos,
                right_tail_pos,
            );
            (LargeShapeTail::Double(tail_func), tail_area)
        }
    }
}

impl<T: Float> LargeShapeTail<T> {
    /// Whether a trial may end with `sample`: as a trial of the tail, or
    /// tails, that it holds may.
    pub closed spec fn may_draw(&self, sample: Option<Number<T>>) -> bool {
        match self {
            Self::Single(tail) => tail.may_draw(sample),
            Self::Double(tail) => tail.may_draw(sample),
        }
    }
}

impl<T: Float> Envelope<T> for LargeShapeTail<T> {
    /// Makes one trial of the tail, or tails, that it holds.
    fn try_sample<R: RngCore + ?Sized>(&self, rng: &mut R) -> (sample: Option<Number<T>>)
        ensures
            self.may_draw(sample),
    {
        match self {
            Self::Single(tail) => tail.try_sample(rng),
            Self::Double(tail) => tail.try_sample(rng),
        }
    }
}

/// Left or right tail envelope of the gamma distribution for `k≥1`.
///
/// The envelope function is of the form:
///
/// ```text
/// f(x) = w exp(-(x / x₀) / b)
/// ```
///
/// where `x₀` is the tail cut-in position and where `w` and `b` are chosen such
/// that `f` and its derivative match the gamma probability distribution
/// function at the cut-in location.
#[derive(Copy, Clone)]
struct LargeShapeSingleTail<T: Float> {
    cut_in: Number<T>,
    m: Number<T>,
    b: Number<T>,
}

impl<T: Float> LargeShapeSingleTail<T> {
    /// The envelope of the tail for these parameters, and the area under it.
    closed spec fn spec_new_with_area(
        shape: Number<T>,
        scale: Number<T>,
        cut_in: Number<T>,
    ) -> (Self, Number<T>) {
        let m = shape.spec_sub(Number::spec_one());
        let c = cut_in.spec_div(scale);
        let b = Number::spec_one().spec_div(c.spec_sub(m));

        let tail = Self { cut_in, m, b };

        let m_ln_m = if m.spec_le(Number::spec_zero()) {
            Number::spec_zero()
        } else {
            m.spec_mul(m.spec_ln())
        };
        let area = scale
            .spec_mul(
                shape.spec_mul(c.spec_ln()).spec_sub(m_ln_m).spec_sub(c.spec_sub(m)).spec_exp(),
            )
            .spec_div(
            c.spec_sub(m).spec_abs(),
        );

        (tail, area)
    }

    /// Computes what [`spec_new_with_area`] states.
    fn new_with_area(
        shape: Number<T>,
        scale: Number<T>,
        cut_in: Number<T>,
    ) -> (made: (Self, Number<T>))
        ensures
            made == Self::spec_new_with_area(shape, scale, cut_in),
    {
        let m = shape.sub(Number::one());
        let c = cut_in.div(scale);
        let b = Number::one().div(c.sub(m));

        let tail = Self { cut_in, m, b };

        let m_ln_m = if m.le(Number::zero()) {
            Number::zero()
        } else {
            m.mul(m.ln())
        };
        let area = scale.mul(shape.mul(c.ln()).sub(m_ln_m).sub(c.sub(m)).exp()).div(
            c.sub(m).abs(),
        );

        (tail, area)
    }
}

impl<T: Float> LargeShapeSingleTail<T> {
    /// The position, relative to the cut-in, that the envelope gives for the
    /// uniform number `u`, by inversion of its cumulative distribution
    /// function.
    pub closed spec fn spec_position(&self, u: Number<T>) -> Number<T> {
        Number::spec_one().spec_sub(self.b.spec_mul(Number::spec_one().spec_sub(u).spec_ln()))
    }

    /// Computes the relative position for the uniform number `u`.
    fn position(&self, u: Number<T>) -> (rel_x: Number<T>)
        ensures
            rel_x == self.spec_position(u),
    {
        Number::one().sub(self.b.mul(Number::one().sub(u).ln()))
    }

    /// The outcome for a relative position above zero and the uniform number
    /// `u`: the position times the cut-in, if the ratio of the function to
    /// the envelope there exceeds `u`.
    pub closed spec fn spec_accept(&self, rel_x: Number<T>, u: Number<T>) -> Option<Number<T>> {
        let p = self.m.spec_add(self.m.spec_mul(rel_x.spec_ln().spec_sub(rel_x))).spec_exp();
        if p.spec_gt(u) {
            Some(rel_x.spec_mul(self.cut_in))
        } else {
            None
        }
    }

    /// Decides on a relative position above zero with the uniform number `u`.
    fn accept(&self, rel_x: Number<T>, u: Number<T>) -> (sample: Option<Number<T>>)
        ensures
            sample == self.spec_accept(rel_x, u),
    {
        let p = self.m.add(self.m.mul(rel_x.ln().sub(rel_x))).exp();
        if p.gt(u) {
            Some(rel_x.mul(self.cut_in))
        } else {
            None
        }
    }

    /// Whether a trial may end with `sample`: for some uniform number, the
    /// position is not above zero and there is no sample, or the sample is
    /// the outcome for that position and some uniform number.
    pub closed spec fn may_draw(&self, sample: Option<Number<T>>) -> bool {
        exists|u1: Number<T>|
            {
                let rel_x = #[trigger] self.spec_position(u1);
                &&& u1.is_in_unit_interval()
                &&& if rel_x.spec_le(Number::spec_zero()) {
                    sample is None
                } else {
                    exists|u2: Number<T>|
                        u2.is_in_unit_interval() && sample == #[trigger] self.spec_accept(
                            rel_x,
                            u2,
                        )
                }
            }
    }
}

impl<T: Float> Envelope<T> for LargeShapeSingleTail<T> {
    /// Makes one trial: a position is drawn, and decided on with a second
    /// uniform number if it is above zero.
    fn try_sample<R: RngCore + ?Sized>(&self, rng: &mut R) -> (sample: Option<Number<T>>)
        ensures
            self.may_draw(sample),
    {
        let u1 = Number::gen(rng);
        let rel_x = self.position(u1);

        // It is necessary to discard negative `x` values (which may happen with
        // a left tail) before evaluating `ln(x)`.
        if rel_x.le(Number::zero()) {
            return None;
        }
        let u2 = Number::gen(rng);
        let sample = self.accept(rel_x, u2);
        assert(u2.is_in_unit_interval() && sample == self.spec_accept(rel_x, u2));
        sample
    }
}

/// Combined left & right tail envelope of the gamma distribution for `k≥1`.
#[derive(Copy, Clone)]
struct LargeShapeDoubleTail<T: Float> {
    left: LargeShapeSingleTail<T>,
    right: LargeShapeSingleTail<T>,
    left_tail_weight: Number<T>,
}

impl<T: Float> LargeShapeDoubleTail<T> {
    /// The envelope of the tail for these parameters, and the area under it.
    closed spec fn spec_new_with_area(
        shape: Number<T>,
        scale: Number<T>,
        left_cut_in: Number<T>,
        right_cut_in: Number<T>,
    ) -> (Self, Number<T>) {
        let (left, left_area) = LargeShapeSingleTail::spec_new_with_area(shape, scale, left_cut_in);
        let (right, right_area) = LargeShapeSingleTail::spec_new_with_area(
            shape,
            scale,
            right_cut_in,
        );
        let area = left_area.spec_add(right_area);
        let left_tail_weight = left_area.spec_div(area);
        let tail = Self { left, right, left_tail_weight };

        (tail, area)
    }

    /// Computes what [`spec_new_with_area`] states.
    fn new_with_area(
        shape: Number<T>,
        scale: Number<T>,
        left_cut_in: Number<T>,
        right_cut_in: Number<T>,
    ) -> (made: (Self, Number<T>))
        ensures
            made == Self::spec_new_with_area(shape, scale, left_cut_in, right_cut_in),
    {
        let (left, left_area) = LargeShapeSingleTail::new_with_area(shape, scale, left_cut_in);
        let (right, right_area) = LargeShapeSingleTail::new_with_area(shape, scale, right_cut_in);
        let area = left_area.add(right_area);
        let left_tail_weight = left_area.div(area);
        let tail = Self { left, right, left_tail_weight };

        (tail, area)
    }
}

impl<T: Float> LargeShapeDoubleTail<T> {
    /// Whether a trial may end with `sample`: as a trial of the left or of
    /// the right tail may.
    pub closed spec fn may_draw(&self, sample: Option<Number<T>>) -> bool {
        self.left.may_draw(sample) || self.right.may_draw(sample)
    }
}

impl<T: Float> Envelope<T> for LargeShapeDoubleTail<T> {
    /// Makes one trial of the left tail, with the probability of its
    /// weight, or else of the right tail.
    fn try_sample<R: RngCore + ?Sized>(&self, rng: &mut R) -> (sample: Option<Number<T>>)
        ensures
            self.may_draw(sample),
    {
        if Number::gen(rng).lt(self.left_tail_weight) {
            self.left.try_sample(rng)
        } else {
            self.right.try_sample(rng)
        }
    }
}

/// Tolerance of the tabulation.
pub open spec fn spec_tolerance<T: Float>() -> Number<T> {
    Number::spec_from_patterns(0x3dcc_cccd, 0x3eb0_c6f7_a0b5_ed8d)
}

} // verus!
