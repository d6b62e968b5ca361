//! Primitive ETF distributions and related utilities.
//!
//! A sampler is compiled from an initialization table and then draws samples
//! by attempts. An attempt reads one random word: most words fall in the
//! rectangle under the infimum of the function over one cell and give a sample
//! at once; the others lead to an acceptance-rejection test on the wedge of the
//! cell or, for a sampler with tails, to a draw from the tail envelope. A
//! rejected attempt gives no sample; drawing a sample means repeating attempts
//! until one is accepted.

use crate::num::{
    le_pattern, lemma_fold_with_sign_mask_negates, low_mask, rounded_pattern, select_pattern,
    sign_mask, Float, Number, UInt,
};
use layout::{
    fraction_bits, fraction_of, index_of, lemma_fields_in_range, lemma_top_bit_only_sets_the_sign,
    max_switch, sign_field, split, split_symmetric, Parts,
};
use partition::{DataArray, InitTable, Partition};
use rand_core::RngCore;
use storage::Datum;
use table_validation::{ValidPartitionSize, ValidSymmetricPartitionSize};
use vstd::prelude::*;

pub mod layout;
pub mod partition;
pub mod storage;
pub mod table_validation;
pub mod util;

verus! {

/// Univariate function.
///
/// Besides evaluation, the trait offers the wedge acceptance-rejection test
/// (see [`test`](#method.test)), which an implementation can override with a
/// cheaper form.
pub trait UnivariateFn<T: Float> {
    /// The value of the function at `x`: a name for what
    /// [`eval`](#tymethod.eval) gives. Evaluation gives the same number
    /// whenever it is asked for the same `x`.
    spec fn spec_eval(&self, x: Number<T>) -> Number<T>;

    /// Evaluates the function at `x`.
    fn eval(&self, x: Number<T>) -> (y: Number<T>)
        ensures
            y == self.spec_eval(x),
    ;

    /// The answer of the wedge test: whether `a * f(x) > b`, unless the
    /// implementation has another form of the test.
    open spec fn spec_test(&self, x: Number<T>, a: Number<T>, b: Number<T>) -> bool {
        a.spec_mul(self.spec_eval(x)).spec_gt(b)
    }

    /// Tests the inequality `a * f(x) > b` where `a` and `b` are strictly
    /// positive.
    ///
    /// The test has the general form of [`wedge_test`] unless the
    /// implementation has a cheaper one: if the function is of the form
    /// `f(x) = 1/g(x)`, the test can be the division-less `a > b * g(x)`.
    fn test(&self, x: Number<T>, a: Number<T>, b: Number<T>) -> (accepted: bool)
        ensures
            accepted == self.spec_test(x, a, b),
    ;
}

/// The wedge test in its general form: whether `a * f(x) > b`.
pub fn wedge_test<T: Float, F: UnivariateFn<T>>(
    f: &F,
    x: Number<T>,
    a: Number<T>,
    b: Number<T>,
) -> (accepted: bool)
    ensures
        accepted == a.spec_mul(f.spec_eval(x)).spec_gt(b),
{
    a.mul(f.eval(x)).gt(b)
}

/// Tail sampling envelope distribution.
pub trait Envelope<T: Float> {
    /// Whether the envelope coincides with the function over the tail, so
    /// that the acceptance-rejection check passes on every draw. Unless an
    /// implementation says otherwise, a draw may be rejected.
    open spec fn always_accepts(&self) -> bool {
        false
    }

    /// Draws a sample from the envelope distribution and returns it if it
    /// passes the acceptance-rejection check.
    fn try_sample<R: RngCore + ?Sized>(&self, rng: &mut R) -> (sample: Option<Number<T>>)
        ensures
            self.always_accepts() ==> sample is Some,
    ;
}

/// Where the fraction of a random word sends an attempt.
#[derive(Copy, Clone, PartialEq, Eq, Debug)]
pub enum Branch {
    /// The point lies in the rectangle under the infimum: it is a sample.
    Rectangle,
    /// The point lies beyond the table: the tail envelope is sampled.
    Tail,
    /// The point lies between the infimum and the supremum: it is tested
    /// against the function.
    Wedge,
}

/// The branch that a fraction takes in a cell with the given wedge switch, of
/// a sampler with the given tail switch if it has tails.
pub open spec fn branch_of(fraction: u64, wedge_switch: u64, tail_switch: Option<u64>) -> Branch {
    if fraction <= wedge_switch {
        Branch::Rectangle
    } else if tail_switch is Some && fraction > tail_switch->Some_0 {
        Branch::Tail
    } else {
        Branch::Wedge
    }
}

/// Outcome of one attempt at drawing a sample.
pub enum Attempt<T: Float> {
    /// The attempt gave a sample.
    Accepted(Number<T>),
    /// The wedge test failed.
    Rejected,
    /// The tail envelope was sampled and its own test failed. The sign field
    /// of the word that led to the tail is handed back with it.
    TailRejected(T::UInt),
}

/// What follows an attempt.
pub enum Step<T: Float> {
    /// The sample is drawn.
    Done(Number<T>),
    /// A new attempt is to be made, from a new random word.
    Restart,
    /// The tail is to be sampled again, on the side that the sign tells.
    RetryTail(T::UInt),
}

impl<T: Float> Attempt<T> {
    /// The outcome of an attempt that ends with the wedge test: the
    /// candidate if the test accepted it, else a rejection.
    pub open spec fn spec_after_test(accepted: bool, sample: Number<T>) -> Self {
        if accepted {
            Attempt::Accepted(sample)
        } else {
            Attempt::Rejected
        }
    }

    /// The outcome of an attempt that ends with the wedge test.
    pub fn after_test(accepted: bool, sample: Number<T>) -> (outcome: Self)
        ensures
            outcome == Self::spec_after_test(accepted, sample),
    {
        if accepted {
            Attempt::Accepted(sample)
        } else {
            Attempt::Rejected
        }
    }

    /// The outcome of an attempt that ends with a draw from the tail: the
    /// sample that was drawn, or a rejection that carries the sign field.
    pub open spec fn spec_after_tail(drawn: Option<Number<T>>, sign: T::UInt) -> Self {
        match drawn {
            Some(x) => Attempt::Accepted(x),
            None => Attempt::TailRejected(sign),
        }
    }

    /// The outcome of an attempt that ends with a draw from the tail.
    pub fn after_tail(drawn: Option<Number<T>>, sign: T::UInt) -> (outcome: Self)
        ensures
            outcome == Self::spec_after_tail(drawn, sign),
    {
        match drawn {
            Some(x) => Attempt::Accepted(x),
            None => Attempt::TailRejected(sign),
        }
    }

    /// What follows the attempt. A sample ends the drawing and a failed
    /// wedge test starts it anew. After a rejected draw from the tail, a
    /// sampler whose tail has its exact weight samples the tail again, so
    /// that the tail keeps that weight; any other starts anew.
    pub open spec fn spec_next(self, exact_tail: bool) -> Step<T> {
        match self {
            Attempt::Accepted(x) => Step::Done(x),
            Attempt::Rejected => Step::Restart,
            Attempt::TailRejected(sign) => if exact_tail {
                Step::RetryTail(sign)
            } else {
                Step::Restart
            },
        }
    }

    /// What follows the attempt.
    pub fn next(self, exact_tail: bool) -> (step: Step<T>)
        ensures
            step == self.spec_next(exact_tail),
    {
        match self {
            Attempt::Accepted(x) => Step::Done(x),
            Attempt::Rejected => Step::Restart,
            Attempt::TailRejected(sign) => if exact_tail {
                Step::RetryTail(sign)
            } else {
                Step::Restart
            },
        }
    }
}

/// The outcome of a wedge test for a sampler without tails: the candidate if
/// the test accepted it.
pub open spec fn spec_kept_if<T: Float>(accepted: bool, sample: Number<T>) -> Option<Number<T>> {
    if accepted {
        Some(sample)
    } else {
        None
    }
}

/// The outcome of a wedge test for a sampler without tails.
pub fn kept_if<T: Float>(accepted: bool, sample: Number<T>) -> (kept: Option<Number<T>>)
    ensures
        kept == spec_kept_if(accepted, sample),
{
    if accepted {
        Some(sample)
    } else {
        None
    }
}

/// How a sampler reads a random word and where it places a sample.
pub struct Layout<T: Float> {
    /// Whether the top bit of the word is the sign of the sample.
    pub symmetric: bool,
    /// The origin to which the table is relative, if it is not zero.
    pub origin: Option<Number<T>>,
    /// The fraction above which the tail is sampled, if there is a tail.
    pub tail_switch: Option<u64>,
}

/// The fields that a sampler reads in the word `r`: index, fraction and sign.
pub open spec fn fields_of<P: Partition, U: UInt>(r: U, symmetric: bool) -> (int, u64, u64) {
    let f = fraction_bits(U::spec_bits(), P::spec_bits(), symmetric);
    (
        index_of(r.value(), f, P::spec_bits()) as int,
        fraction_of(r.value(), f),
        sign_field(r.value(), U::spec_bits(), symmetric),
    )
}

/// The sample at the offset `offset` from the origin, on the side that the
/// sign field tells: the offset is folded with the sign where the layout has
/// one, and the origin is added where it is not zero.
pub open spec fn placed<T: Float>(layout: Layout<T>, offset: Number<T>, sign: u64) -> Number<T> {
    let folded = if layout.symmetric {
        offset.spec_bitxor(sign)
    } else {
        offset
    };
    match layout.origin {
        Some(x0) => x0.spec_add(folded),
        None => folded,
    }
}

/// The sample for the number `x` that the tail envelope gave, on the side
/// that the sign field tells: `x0 + ((x - x0)` folded with the sign`)` about
/// an origin `x0`, `x` folded with the sign about zero, `x` itself without
/// symmetry.
pub open spec fn tail_placed<T: Float>(layout: Layout<T>, x: Number<T>, sign: u64) -> Number<T> {
    match layout.origin {
        Some(x0) => x0.spec_add(x.spec_sub(x0).spec_bitxor(sign)),
        None => if layout.symmetric {
            x.spec_bitxor(sign)
        } else {
            x
        },
    }
}

/// Table data of a compiled sampler.
pub struct Data<P: Partition, T: Float> {
    table: DataArray<P, T>,
    scaled_xysup: Number<T>,  // dx * ysup / tail_switch
}

impl<P: Partition, T: Float> View for Data<P, T> {
    type V = Seq<Datum<T>>;

    /// The data of the cells, followed by that of the end node. The area of
    /// one rectangle, which belongs to the table too, is
    /// [`spec_scaled_xysup`](struct.Data.html#method.spec_scaled_xysup).
    closed spec fn view(&self) -> Seq<Datum<T>> {
        self.table@
    }
}

/// Whether the datum of a cell is sound: its wedge switch is either zero, with
/// the slope zero, or large enough for the position in the rectangle to
/// have all but one bit of the significand.
pub open spec fn is_sound_datum<T: Float>(d: Datum<T>) -> bool {
    ||| d.wedge_switch.value() == 0 && d.alpha.bits() == 0
    ||| d.wedge_switch.value() >= least_wedge_switch(T::UInt::spec_bits())
}

/// The number of fractions that fall under the infimum of cell `i`:
/// `(yinf / ysup) * tail_switch`.
pub open spec fn fractions_under<P: Partition, T: Float>(
    table: InitTable<P, T>,
    i: int,
    tail_switch: u64,
) -> Number<T> {
    table.yinf@[i].spec_div(table.ysup@[i]).spec_mul(Number::spec_cast_uint(tail_switch))
}

impl<P: Partition, T: Float> Data<P, T> {
    /// Whether the table is sound: it has a sound datum for each cell, and
    /// for the end node one of which nothing but `beta` is set. Every table
    /// is.
    #[verifier::type_invariant]
    pub open spec fn is_sound(&self) -> bool {
        &&& self@.len() == P::spec_size() + 1
        &&& forall|i: int| 0 <= i < P::spec_size() ==> is_sound_datum(#[trigger] self@[i])
        &&& self@[P::spec_size() as int].alpha.bits() == 0
        &&& self@[P::spec_size() as int].wedge_switch.value() == 0
    }

    /// Whether the data are those of the initialization table `table`,
    /// relative to the origin `x0`, for the largest fraction `tail_switch`
    /// that goes to the table: `beta` is the position of a node relative to
    /// the origin; wedge switch and slope of a cell are those that its width
    /// and the number of fractions under its infimum give; and the scaled area
    /// is that of the first rectangle over the tail switch.
    pub open spec fn follows(
        &self,
        x0: Number<T>,
        table: InitTable<P, T>,
        tail_switch: u64,
    ) -> bool {
        &&& forall|i: int|
            0 <= i <= P::spec_size() ==> (#[trigger] self@[i]).beta == table.x@[i].spec_sub(x0)
        &&& forall|i: int|
            0 <= i < P::spec_size() ==> {
                let w = fractions_under(table, i, tail_switch);
                &&& (#[trigger] self@[i]).wedge_switch.value() == spec_wedge_switch(w)
                &&& self@[i].alpha == spec_slope(w, table.x@[i + 1].spec_sub(table.x@[i]))
            }
        &&& self.spec_scaled_xysup() == table.x@[1].spec_sub(table.x@[0]).spec_mul(
            table.ysup@[0],
        ).spec_div(Number::spec_cast_uint(tail_switch))
    }

    /// The datum at position `index`: that of a cell, or at position `N` that
    /// of the end node.
    pub fn datum(&self, index: usize) -> (d: Datum<T>)
        requires
            index <= P::spec_size(),
        ensures
            self.is_sound(),
            d == self@[index as int],
    {
        proof {
            use_type_invariant(self);
        }
        self.table.get(index)
    }

    /// Area of one rectangle of the table, scaled by the tail switch.
    pub closed spec fn spec_scaled_xysup(&self) -> Number<T> {
        self.scaled_xysup
    }

    /// Area of one rectangle of the table, scaled by the tail switch.
    pub fn scaled_xysup(&self) -> (area: Number<T>)
        ensures
            area == self.spec_scaled_xysup(),
    {
        self.scaled_xysup
    }

    /// The branch that an attempt takes on the word `r`.
    pub open spec fn branch_on(&self, r: T::UInt, layout: Layout<T>) -> Branch {
        let f = fields_of::<P, T::UInt>(r, layout.symmetric);
        branch_of(f.1, self@[f.0].wedge_switch.value(), layout.tail_switch)
    }

    /// The offset from the origin of the point of cell `index` that the
    /// fraction selects in its rectangle: `fraction * alpha + beta`.
    pub open spec fn rectangle_offset(&self, index: int, fraction: u64) -> Number<T> {
        Number::spec_cast_uint(fraction).spec_mul_add(self@[index].alpha, self@[index].beta)
    }

    /// The width of cell `index`.
    pub open spec fn cell_width(&self, index: int) -> Number<T> {
        self@[index + 1].beta.spec_sub(self@[index].beta)
    }

    /// The offset from the origin of the candidate that the uniform number
    /// `v` selects in cell `index`: `beta + v * width`.
    pub open spec fn wedge_offset(&self, index: int, v: Number<T>) -> Number<T> {
        self@[index].beta.spec_add(v.spec_mul(self.cell_width(index)))
    }

    /// The height that the fraction selects, scaled by the width of the
    /// cell: `fraction * scaled_xysup`.
    pub open spec fn wedge_height(&self, fraction: u64) -> Number<T> {
        Number::spec_cast_uint(fraction).spec_mul(self.spec_scaled_xysup())
    }

    /// The sample that the word `r` gives in the rectangle of its cell.
    pub open spec fn rectangle_sample(&self, r: T::UInt, layout: Layout<T>) -> Number<T> {
        let f = fields_of::<P, T::UInt>(r, layout.symmetric);
        placed(layout, self.rectangle_offset(f.0, f.1), f.2)
    }

    /// The answer of the wedge test of the function `func` for the word `r`
    /// with the uniform number `v`: the function is tested at the candidate,
    /// on the upper side of the origin, against the width of the cell and
    /// the scaled height that the fraction selects.
    pub open spec fn wedge_accepts<F: UnivariateFn<T>>(
        &self,
        func: F,
        r: T::UInt,
        layout: Layout<T>,
        v: Number<T>,
    ) -> bool {
        let f = fields_of::<P, T::UInt>(r, layout.symmetric);
        func.spec_test(
            match layout.origin {
                Some(x0) => x0.spec_add(self.wedge_offset(f.0, v)),
                None => self.wedge_offset(f.0, v),
            },
            self.cell_width(f.0),
            self.wedge_height(f.1),
        )
    }

    /// The sample that the word `r` gives with the uniform number `v`, if
    /// the wedge test accepts it.
    pub open spec fn wedge_sample(&self, r: T::UInt, layout: Layout<T>, v: Number<T>) -> Number<T> {
        let f = fields_of::<P, T::UInt>(r, layout.symmetric);
        placed(layout, self.wedge_offset(f.0, v), f.2)
    }

    /// Reflection symmetry of a layout with a sign: a word and the word with
    /// the top bit toggled select the same cell and fraction and take the
    /// same branch, with opposite sign fields. The samples that they give, in
    /// the rectangle or for the same uniform number in the wedge, are thus
    /// made of the same offset, folded for one with the sign that the other
    /// does not have: they are the negatives of one another about zero, and
    /// the origin plus a number and plus its negative about an origin. The
    /// words pair up in this way, so the two sides are equally likely.
    pub proof fn lemma_reflection(&self, r: T::UInt, reflected: T::UInt, layout: Layout<T>)
        requires
            layout.symmetric,
            reflected.value() == r.value() ^ sign_mask(T::UInt::spec_bits()),
        ensures
            fields_of::<P, T::UInt>(reflected, true).0 == fields_of::<P, T::UInt>(r, true).0,
            fields_of::<P, T::UInt>(reflected, true).1 == fields_of::<P, T::UInt>(r, true).1,
            fields_of::<P, T::UInt>(reflected, true).2 != fields_of::<P, T::UInt>(r, true).2,
            self.branch_on(reflected, layout) == self.branch_on(r, layout),
            layout.origin is None ==> self.rectangle_sample(reflected, layout)
                == self.rectangle_sample(r, layout).spec_neg(),
            layout.origin is None ==> forall|v: Number<T>|
                self.wedge_sample(reflected, layout, v) == (#[trigger] self.wedge_sample(
                    r,
                    layout,
                    v,
                )).spec_neg(),
            layout.origin matches Some(x0) ==> {
                let f = fields_of::<P, T::UInt>(r, true);
                &&& self.rectangle_sample(r, layout) == x0.spec_add(
                    self.rectangle_offset(f.0, f.1).spec_bitxor(f.2),
                )
                &&& self.rectangle_sample(reflected, layout) == x0.spec_add(
                    self.rectangle_offset(f.0, f.1).spec_bitxor(f.2).spec_neg(),
                )
                &&& forall|v: Number<T>| #[trigger]
                    self.wedge_sample(reflected, layout, v) == x0.spec_add(
                        self.wedge_offset(f.0, v).spec_bitxor(f.2).spec_neg(),
                    )
            },
            forall|x: Number<T>| #[trigger]
                tail_placed(layout, x, fields_of::<P, T::UInt>(reflected, true).2) == (
                match layout.origin {
                    Some(x0) => x0.spec_add(
                        x.spec_sub(x0).spec_bitxor(fields_of::<P, T::UInt>(r, true).2).spec_neg(),
                    ),
                    None => tail_placed(
                        layout,
                        x,
                        fields_of::<P, T::UInt>(r, true).2,
                    ).spec_neg(),
                }),
    {
        T::UInt::lemma_format();
        P::lemma_size();
        r.lemma_value_fits();
        lemma_top_bit_only_sets_the_sign(r.value(), T::UInt::spec_bits(), P::spec_bits());
        let f = fields_of::<P, T::UInt>(r, true);
        let g = fields_of::<P, T::UInt>(reflected, true);
        lemma_fields_in_range(r.value(), T::UInt::spec_bits(), P::spec_bits(), true);
        assert(g.2 == f.2 ^ sign_mask(T::UInt::spec_bits()));
        assert forall|x: Number<T>| x.spec_bitxor(g.2) == (#[trigger] x.spec_bitxor(f.2))
            .spec_neg() by {
            lemma_folded_with_the_other_sign(x, f.2);
        }
    }

    /// Decides the branch of an attempt from the fields of its random word.
    /// Only the datum of the selected cell is read.
    fn classify(&self, parts: &Parts<T::UInt>, tail_switch: Option<T::UInt>) -> (b: Branch)
        requires
            parts.index < P::spec_size(),
        ensures
            b == branch_of(
                parts.fraction.value(),
                self@[parts.index as int].wedge_switch.value(),
                match tail_switch {
                    Some(t) => Some(t.value()),
                    None => None,
                },
            ),
    {
        let d = self.table.get(parts.index);
        if parts.fraction.le(d.wedge_switch) {
            Branch::Rectangle
        } else {
            match tail_switch {
                Some(t) => {
                    if parts.fraction.gt(t) {
                        Branch::Tail
                    } else {
                        Branch::Wedge
                    }
                },
                None => Branch::Wedge,
            }
        }
    }

    /// The point in the rectangle of the selected cell at the given
    /// fraction, relative to the origin.
    pub fn rectangle(&self, parts: &Parts<T::UInt>) -> (offset: Number<T>)
        requires
            parts.index < P::spec_size(),
        ensures
            offset == self.rectangle_offset(parts.index as int, parts.fraction.value()),
    {
        let d = self.table.get(parts.index);
        Number::cast_uint(parts.fraction).mul_add(d.alpha, d.beta)
    }

    /// The candidate that the uniform number `v` selects in the selected
    /// cell, relative to the origin, and the width of the cell. They are the
    /// first two arguments of the wedge test, the first with the origin
    /// added where the table is relative to one.
    pub fn wedge_candidate(&self, parts: &Parts<T::UInt>, v: Number<T>) -> (candidate: (
        Number<T>,
        Number<T>,
    ))
        requires
            parts.index < P::spec_size(),
        ensures
            candidate.0 == self.wedge_offset(parts.index as int, v),
            candidate.1 == self.cell_width(parts.index as int),
    {
        let d = self.table.get(parts.index);
        let dx = self.table.get(parts.index + 1).beta.sub(d.beta);
        let x = d.beta.add(v.mul(dx));
        (x, dx)
    }

    /// Height of the point that the fraction selects, scaled by the width of
    /// the cell: the third argument of the wedge test.
    pub fn wedge_level(&self, parts: &Parts<T::UInt>) -> (level: Number<T>)
        ensures
            level == self.wedge_height(parts.fraction.value()),
    {
        Number::cast_uint(parts.fraction).mul(self.scaled_xysup)
    }
}

/// Folding a number with the sign mask and a sign field, or with the sign
/// field that has the other sign, gives a number and its negative.
pub proof fn lemma_folded_with_the_other_sign<T: Float>(x: Number<T>, sign: u64)
    requires
        sign == 0 || sign == sign_mask(T::UInt::spec_bits()),
    ensures
        x.spec_bitxor(sign ^ sign_mask(T::UInt::spec_bits())) == x.spec_bitxor(sign).spec_neg(),
{
    T::UInt::lemma_format();
    x.lemma_bits_fit();
    let w = T::UInt::spec_bits();
    let c = x.bits();
    assert((w == 32 || w == 64) && c <= low_mask(w) && (sign == 0 || sign == sign_mask(w)) ==> (c
        ^ sign) <= low_mask(w) && c ^ (sign ^ sign_mask(w)) == (c ^ sign) ^ sign_mask(w))
        by (bit_vector);
    Number::<T>::lemma_bits_of(c ^ sign);
    lemma_fold_with_sign_mask_negates(c ^ sign, w);
}

/// The pattern of the least number of fractions under the infimum with which
/// a cell keeps its rectangle: `2^(SIGNIFICAND_BITS - 1)`.
pub open spec fn threshold_pattern(width: u32) -> u64 {
    select_pattern(width, 0x4a80_0000, 0x4320_0000_0000_0000)
}

/// Whether a cell keeps its rectangle, given the number `w` of fractions that
/// fall under its infimum: using such a fraction again as the position in the
/// cell must cost no more than one bit of the significand, which is so when
/// `SIGNIFICAND_BITS - log2(w) <= 1`, that is when `w` is at least
/// `2^(SIGNIFICAND_BITS - 1)`.
pub open spec fn keeps_rectangle<T: Float>(w: Number<T>) -> bool {
    le_pattern(threshold_pattern(T::UInt::spec_bits()), w.bits(), T::UInt::spec_bits())
}

/// The least wedge switch of a cell that keeps its rectangle:
/// `2^(SIGNIFICAND_BITS - 1)`.
pub open spec fn least_wedge_switch(width: u32) -> u64 {
    select_pattern(width, 0x40_0000, 0x8_0000_0000_0000)
}

/// The wedge switch of a cell with `w` fractions under its infimum: `w`
/// rounded, or zero if the cell does not keep its rectangle.
pub open spec fn spec_wedge_switch<T: Float>(w: Number<T>) -> u64 {
    if keeps_rectangle(w) {
        rounded_pattern(w.bits(), T::UInt::spec_bits())
    } else {
        0
    }
}

/// The slope of a cell of width `dx` with `w` fractions under its infimum:
/// `dx / w`, or zero if the cell does not keep its rectangle.
pub open spec fn spec_slope<T: Float>(w: Number<T>, dx: Number<T>) -> Number<T> {
    if keeps_rectangle(w) {
        dx.spec_div(w)
    } else {
        Number::spec_zero()
    }
}

/// A number of at least `2^(SIGNIFICAND_BITS - 1)` is rounded to a word of at
/// least as much.
pub proof fn lemma_rounded_from_the_threshold_on(v: u64, width: u32)
    by (bit_vector)
    requires
        width == 32 || width == 64,
        v <= low_mask(width),
        le_pattern(threshold_pattern(width), v, width),
    ensures
        rounded_pattern(v, width) >= least_wedge_switch(width),
{
}

/// The wedge switch and the slope `alpha` of a cell of width `dx` with `w`
/// fractions under its infimum: `w` rounded and `dx / w`, unless the cell
/// does not keep its rectangle. Both are then zero, which forces wedge
/// sampling.
pub fn rectangle_coefficients<T: Float>(w: Number<T>, dx: Number<T>) -> (c: (T::UInt, Number<T>))
    ensures
        c.0.value() == spec_wedge_switch(w),
        c.1 == spec_slope(w, dx),
        !keeps_rectangle(w) ==> c.0.value() == 0 && c.1.bits() == 0,
        keeps_rectangle(w) ==> c.0.value() >= least_wedge_switch(T::UInt::spec_bits()),
{
    // 2^(SIGNIFICAND_BITS - 1)
    let least = Number::from_patterns(0x4a80_0000, 0x4320_0000_0000_0000);
    if least.le(w) {
        proof {
            T::UInt::lemma_format();
            w.lemma_bits_fit();
            lemma_rounded_from_the_threshold_on(w.bits(), T::UInt::spec_bits());
        }
        // Coefficients for the baseline sampling algorithm.
        (w.round_as_uint(), dx.div(w))
    } else {
        // Degraded case: force wedge sampling algorithm.
        (T::UInt::zero(), Number::zero())
    }
}

/// Generates an optimized lookup table from an initialization table.
///
/// For each cell, `w = (yinf / ysup) * tail_switch` is the number of
/// fractions that fall under the infimum; from it and the width of the cell
/// come the wedge switch and the slope (see [`rectangle_coefficients`]).
pub fn process_table<P: Partition, T: Float>(
    x0: Number<T>,
    init_table: &InitTable<P, T>,
    tail_switch: T::UInt,
) -> (data: Data<P, T>)
    ensures
        data.is_sound(),
        data.follows(x0, *init_table, tail_switch.value()),
{
    proof {
        P::lemma_size();
    }
    let n = P::size();
    let mut table: DataArray<P, T> = DataArray::default();

    // Convenient aliases.
    let x = &init_table.x;
    let yinf = &init_table.yinf;
    let ysup = &init_table.ysup;

    // Compute the final table.
    for i in 0..n
        invariant
            n == P::spec_size(),
            16 <= n <= 4096,
            table@.len() == n + 1,
            x == &init_table.x,
            yinf == &init_table.yinf,
            ysup == &init_table.ysup,
            forall|j: int| 0 <= j < i ==> is_sound_datum(#[trigger] table@[j]),
            forall|j: int| 0 <= j < i ==> (#[trigger] table@[j]).beta == x@[j].spec_sub(x0),
            forall|j: int|
                0 <= j < i ==> {
                    let w = fractions_under(*init_table, j, tail_switch.value());
                    &&& (#[trigger] table@[j]).wedge_switch.value() == spec_wedge_switch(w)
                    &&& table@[j].alpha == spec_slope(w, x@[j + 1].spec_sub(x@[j]))
                },
    {
        // When a rectangle is sampled, the position between x[i] and x[i+1]
        // is generated using a random number within the range
        // [0:(yinf/ysup)*tail_switch]. When yinf/ysup is very small, this
        // implies that the position is computed with a very coarse
        // resolution. In such case yinf is set to 0, which unconditionally
        // forces the use of the wedge sampling algorithm.
        let w = yinf.get(i).div(ysup.get(i)).mul(Number::cast_uint(tail_switch));
        let (wedge_switch, alpha) = rectangle_coefficients(w, x.get(i + 1).sub(x.get(i)));

        table.set(i, Datum { alpha, beta: x.get(i).sub(x0), wedge_switch });
    }

    // Last datum is dummy except for the x value.
    table.set(
        n,
        Datum { alpha: Number::zero(), beta: x.get(n).sub(x0), wedge_switch: T::UInt::zero() },
    );

    // Scaled area of a single rectangle.
    let scaled_xysup = x.get(1).sub(x.get(0)).mul(ysup.get(0)).div(Number::cast_uint(tail_switch));

    Data { table, scaled_xysup }
}

/// The sum of the areas of the first `n` rectangles of a table with the
/// nodes `x` and the suprema `ysup`, added up from the first.
pub open spec fn total_area<T: Float>(x: Seq<Number<T>>, ysup: Seq<Number<T>>, n: nat) -> Number<T>
    decreases n,
{
    if n == 0 {
        Number::spec_zero()
    } else {
        total_area(x, ysup, (n - 1) as nat).spec_add(
            x[n as int].spec_sub(x[n - 1]).spec_mul(ysup[n - 1]),
        )
    }
}

/// The tail switch of a table beside a tail of area `tail_area`: the largest
/// fraction times the share `A / (A + tail_area)` that the total area `A` of
/// the rectangles has in the whole, rounded.
pub open spec fn spec_tail_switch_of<P: Partition, T: Float>(
    table: InitTable<P, T>,
    tail_area: Number<T>,
    symmetric: bool,
) -> u64 {
    let area = total_area(table.x@, table.ysup@, P::spec_size() as nat);
    let largest = Number::<T>::spec_cast_uint(
        low_mask(fraction_bits(T::UInt::spec_bits(), P::spec_bits(), symmetric)),
    );
    rounded_pattern(
        largest.spec_mul(area.spec_div(area.spec_add(tail_area))).bits(),
        T::UInt::spec_bits(),
    )
}

/// Computes the integer used as a threshold for tail sampling: the largest
/// fraction times the share `A / (A + tail_area)` that the total area `A` of
/// the rectangles has in the whole, rounded.
pub fn compute_tail_switch<P: Partition, T: Float>(
    init_table: &InitTable<P, T>,
    tail_area: Number<T>,
    is_symmetric: bool,
) -> (tail_switch: T::UInt)
    ensures
        tail_switch.value() == spec_tail_switch_of(*init_table, tail_area, is_symmetric),
{
    proof {
        P::lemma_size();
    }
    // Convenient aliases.
    let x = &init_table.x;
    let ysup = &init_table.ysup;
    let n = P::size();

    let mut area = Number::zero();
    for i in 0..n
        invariant
            n == P::spec_size(),
            x == &init_table.x,
            ysup == &init_table.ysup,
            area == total_area(x@, ysup@, i as nat),
    {
        area = area.add(x.get(i + 1).sub(x.get(i)).mul(ysup.get(i)));
    }
    let max_switch = Number::cast_uint(max_switch::<P, T::UInt>(is_symmetric));
    max_switch.mul(area.div(area.add(tail_area))).round_as_uint()
}

/// Distribution with bounded support.
pub struct DistAny<P: Partition, T: Float, F> {
    data: Data<P, T>,
    func: F,
}

impl<P: Partition, T: Float, F: UnivariateFn<T>> DistAny<P, T, F> {
    /// The table data of the sampler.
    pub closed spec fn table(&self) -> Data<P, T> {
        self.data
    }

    /// The function that the sampler follows.
    pub closed spec fn function(&self) -> F {
        self.func
    }

    /// How the sampler reads a word and places a sample.
    pub open spec fn layout(&self) -> Layout<T> {
        Layout {
            symmetric: false,
            origin: None,
            tail_switch: None,
        }
    }

    /// The branch that an attempt takes on the word `r`.
    pub open spec fn branch(&self, r: T::UInt) -> Branch {
        self.table().branch_on(r, self.layout())
    }

    /// Compiles the sampler of the function `func` from the initialization
    /// table. The whole range of the fraction goes to the table.
    pub fn new(func: F, table: &InitTable<P, T>) -> (dist: Self) where
        P: ValidPartitionSize<T::UInt>,

        ensures
            dist.table().is_sound(),
            dist.table()
                .follows(
                    Number::spec_zero(),
                    *table,
                    low_mask(fraction_bits(T::UInt::spec_bits(), P::spec_bits(), false)),
                ),
            dist.function() == func,
    {
        let max_switch = max_switch::<P, T::UInt>(false);
        DistAny { data: process_table(Number::zero(), table, max_switch), func }
    }

    /// Table data of the sampler.
    pub fn data(&self) -> (data: &Data<P, T>)
        ensures
            *data == self.table(),
    {
        &self.data
    }

    /// Whether an attempt on the word `r` may end with `sample`. In a
    /// rectangle it gives the sample of the rectangle. In the wedge it gives,
    /// for some uniform number, what the wedge test of the function decides
    /// for the candidate of that number: the sample placed from the
    /// candidate, or none.
    pub open spec fn may_give(&self, r: T::UInt, sample: Option<Number<T>>) -> bool {
        if self.branch(r) == Branch::Rectangle {
            sample == Some(self.table().rectangle_sample(r, self.layout()))
        } else {
            exists|v: Number<T>|
                v.is_in_unit_interval() && sample == spec_kept_if(
                    self.table().wedge_accepts(self.function(), r, self.layout(), v),
                    #[trigger] self.table().wedge_sample(r, self.layout(), v),
                )
        }
    }

    /// Makes one attempt at drawing a sample from the random word `r`.
    ///
    /// A word that falls in a rectangle gives the sample of that rectangle.
    /// For any other word a uniform number is drawn for the candidate in the
    /// cell, and the wedge test of the function decides between the sample
    /// placed from that candidate and none. The datum of the end node is
    /// read only for the width of the last cell, in the wedge test.
    pub fn attempt<R: RngCore + ?Sized>(&self, r: T::UInt, rng: &mut R) -> (sample: Option<
        Number<T>,
    >)
        ensures
            self.may_give(r, sample),
    {
        // Extract the significand from the rightmost bits and the table
        // index from the P::BITS leftmost bits.
        let parts = split::<P, T::UInt>(r);

        match self.data.classify(&parts, None) {
            // Test for the common case (point below yinf).
            Branch::Rectangle => {
                let x = self.data.rectangle(&parts);
                Some(x)
            },
            // Wedge sampling, test y<f(x).
            _ => {
                let v = Number::gen(rng);
                let (x, dx) = self.data.wedge_candidate(&parts, v);
                let accepted = self.func.test(x, dx, self.data.wedge_level(&parts));
                let sample = x;
                assert(sample == self.table().wedge_sample(r, self.layout(), v));
                assert(accepted == self.table().wedge_accepts(self.func, r, self.layout(), v));
                kept_if(accepted, sample)
            },
        }
    }

    /// Makes one attempt at drawing a sample, from a random word that it
    /// draws (see [`attempt`](#method.attempt)).
    pub fn try_sample<R: RngCore + ?Sized>(&self, rng: &mut R) -> (sample: Option<Number<T>>)
        ensures
            exists|r: T::UInt| #[trigger] self.may_give(r, sample),
    {
        let r = T::UInt::gen(rng);
        let sample = self.attempt(r, rng);
        assert(self.may_give(r, sample));
        sample
    }
}

/// Distribution with rejection-sampled tail(s).
pub struct DistAnyTailed<P: Partition, T: Float, F, E> {
    data: Data<P, T>,
    func: F,
    tail_envelope: E,
    tail_switch: T::UInt,
}

impl<P: Partition, T: Float, F: UnivariateFn<T>, E: Envelope<T>> DistAnyTailed<P, T, F, E> {
    /// The table data of the sampler.
    pub closed spec fn table(&self) -> Data<P, T> {
        self.data
    }

    /// The function that the sampler follows.
    pub closed spec fn function(&self) -> F {
        self.func
    }

    /// The fraction above which the tail envelope is sampled.
    pub closed spec fn spec_tail_switch(&self) -> u64 {
        self.tail_switch.value()
    }

    /// The tail envelope.
    pub closed spec fn envelope(&self) -> E {
        self.tail_envelope
    }

    /// How the sampler reads a word and places a sample.
    pub open spec fn layout(&self) -> Layout<T> {
        Layout {
            symmetric: false,
            origin: None,
            tail_switch: Some(self.spec_tail_switch()),
        }
    }

    /// The branch that an attempt takes on the word `r`.
    pub open spec fn branch(&self, r: T::UInt) -> Branch {
        self.table().branch_on(r, self.layout())
    }

    /// Compiles the sampler of the function `func` from the initialization
    /// table and the envelope of what lies beyond the table, of area
    /// `tail_area`. The range of the fraction is shared between table and
    /// tail in proportion to their areas.
    pub fn new(
        func: F,
        table: &InitTable<P, T>,
        tail_envelope: E,
        tail_area: Number<T>,
    ) -> (dist: Self) where
        P: ValidPartitionSize<T::UInt>,

        ensures
            dist.table().is_sound(),
            dist.table()
                .follows(
                    Number::spec_zero(),
                    *table,
                    spec_tail_switch_of(*table, tail_area, false),
                ),
            dist.function() == func,
            dist.envelope() == tail_envelope,
            dist.spec_tail_switch() == spec_tail_switch_of(*table, tail_area, false),
    {
        let tail_switch = compute_tail_switch(table, tail_area, false);
        DistAnyTailed {
            data: process_table(Number::zero(), table, tail_switch),
            func,
            tail_envelope,
            tail_switch,
        }
    }

    /// Table data of the sampler.
    pub fn data(&self) -> (data: &Data<P, T>)
        ensures
            *data == self.table(),
    {
        &self.data
    }

    /// The fraction above which the tail envelope is sampled.
    pub fn tail_switch(&self) -> (t: T::UInt)
        ensures
            t.value() == self.spec_tail_switch(),
    {
        self.tail_switch
    }

    /// The sample for the number `x` that the tail envelope gave.
    /// The sample is the number that the envelope gave.
    pub fn place_tail(&self, x: Number<T>) -> (sample: Number<T>)
        ensures
            sample == tail_placed(self.layout(), x, 0),
    {
        x
    }

    /// Draws once from the tail envelope. A number that the envelope accepts
    /// is placed as a sample (see [`place_tail`](#method.place_tail)); a
    /// rejection is handed on. What the envelope gives is its own affair: an
    /// envelope that always accepts gives a sample.
    pub fn sample_tail<R: RngCore + ?Sized>(&self, rng: &mut R) -> (sample: Option<
        Number<T>,
    >)
        ensures
            self.envelope().always_accepts() ==> sample is Some,
            sample matches Some(s) ==> exists|x: Number<T>|
                s == #[trigger] tail_placed(self.layout(), x, 0),
    {
        match self.tail_envelope.try_sample(rng) {
            Some(x) => Some(self.place_tail(x)),
            None => None,
        }
    }

    /// Whether an attempt on the word `r` may end with `outcome`. In a
    /// rectangle the outcome is the sample of the rectangle. In the wedge it
    /// is, for some uniform number, what the wedge test of the function
    /// decides for the candidate of that number: the sample placed from the
    /// candidate, or a rejection. In the tail it is the sample placed from some number,
    /// or, unless the envelope always accepts, a tail rejection with the
    /// sign field of the word.
    pub open spec fn may_give(&self, r: T::UInt, outcome: Attempt<T>) -> bool {
        match self.branch(r) {
            Branch::Rectangle => outcome == Attempt::Accepted(
                self.table().rectangle_sample(r, self.layout()),
            ),
            Branch::Wedge => exists|v: Number<T>|
                v.is_in_unit_interval() && outcome == Attempt::spec_after_test(
                    self.table().wedge_accepts(self.function(), r, self.layout(), v),
                    #[trigger] self.table().wedge_sample(r, self.layout(), v),
                ),
            Branch::Tail => match outcome {
                Attempt::Accepted(s) => exists|x: Number<T>|
                    s == #[trigger] tail_placed(
                        self.layout(),
                        x,
                        fields_of::<P, T::UInt>(r, false).2,
                    ),
                Attempt::Rejected => false,
                Attempt::TailRejected(sign) => sign.value() == fields_of::<P, T::UInt>(
                    r,
                    false,
                ).2 && !self.envelope().always_accepts(),
            },
        }
    }

    /// What follows an attempt of this sampler: a rejection of either kind
    /// starts the drawing anew.
    pub fn next_step(outcome: Attempt<T>) -> (step: Step<T>)
        ensures
            step == outcome.spec_next(false),
    {
        outcome.next(false)
    }

    /// Makes one attempt at drawing a sample from the random word `r`.
    ///
    /// A word that falls in a rectangle gives the sample of that rectangle.
    /// A word whose fraction exceeds the tail switch leads to one draw from
    /// the tail envelope: the outcome is the sample placed from what the
    /// envelope gave, or a tail rejection with the sign field of the word.
    /// For any other word a uniform number is drawn for the candidate in the
    /// cell, and the wedge test of the function decides between the sample
    /// placed from that candidate and a rejection. The datum of the end node
    /// is read only for the width of the last cell, in the wedge test.
    pub fn attempt<R: RngCore + ?Sized>(&self, r: T::UInt, rng: &mut R) -> (outcome: Attempt<
        T,
    >)
        ensures
            self.may_give(r, outcome),
    {
        // Extract the significand from the rightmost bits and the table
        // index from the P::BITS leftmost bits.
        let parts = split::<P, T::UInt>(r);

        match self.data.classify(&parts, Some(self.tail_switch)) {
            // Test for the common case (point below yinf).
            Branch::Rectangle => {
                let x = self.data.rectangle(&parts);
                Attempt::Accepted(x)
            },
            // Check if the tail should be sampled.
            Branch::Tail => {
                let drawn = self.sample_tail(rng);
                proof {
                    if let Some(s) = drawn {
                        let x = choose|x: Number<T>|
                            s == tail_placed(self.layout(), x, 0);
                        assert(s == tail_placed(
                            self.layout(),
                            x,
                            fields_of::<P, T::UInt>(r, false).2,
                        ));
                    }
                }
                Attempt::after_tail(drawn, parts.sign)
            },
            // Wedge sampling, test y<f(x).
            Branch::Wedge => {
                let v = Number::gen(rng);
                let (x, dx) = self.data.wedge_candidate(&parts, v);
                let accepted = self.func.test(x, dx, self.data.wedge_level(&parts));
                let sample = x;
                assert(sample == self.table().wedge_sample(r, self.layout(), v));
                assert(accepted == self.table().wedge_accepts(self.func, r, self.layout(), v));
                Attempt::after_test(accepted, sample)
            },
        }
    }

    /// Makes one attempt at drawing a sample, from a random word that it
    /// draws (see [`attempt`](#method.attempt)).
    pub fn try_sample<R: RngCore + ?Sized>(&self, rng: &mut R) -> (outcome: Attempt<T>)
        ensures
            self.envelope().always_accepts() ==> !(outcome is TailRejected),
            exists|r: T::UInt| #[trigger] self.may_give(r, outcome),
    {
        let r = T::UInt::gen(rng);
        let outcome = self.attempt(r, rng);
        assert(self.may_give(r, outcome));
        outcome
    }
}

/// Distribution with symmetric probability density function about the origin
/// and bounded support.
pub struct DistCentral<P: Partition, T: Float, F> {
    data: Data<P, T>,
    func: F,
}

impl<P: Partition, T: Float, F: UnivariateFn<T>> DistCentral<P, T, F> {
    /// The table data of the sampler.
    pub closed spec fn table(&self) -> Data<P, T> {
        self.data
    }

    /// The function that the sampler follows.
    pub closed spec fn function(&self) -> F {
        self.func
    }

    /// How the sampler reads a word and places a sample.
    pub open spec fn layout(&self) -> Layout<T> {
        Layout {
            symmetric: true,
            origin: None,
            tail_switch: None,
        }
    }

    /// The branch that an attempt takes on the word `r`.
    pub open spec fn branch(&self, r: T::UInt) -> Branch {
        self.table().branch_on(r, self.layout())
    }

    /// Compiles the sampler of the function `func` from the initialization
    /// table of the side of the distribution above the origin. The whole range
    /// of the fraction goes to the table.
    pub fn new(func: F, table: &InitTable<P, T>) -> (dist: Self) where
        P: ValidSymmetricPartitionSize<T::UInt>,

        ensures
            dist.table().is_sound(),
            dist.table()
                .follows(
                    Number::spec_zero(),
                    *table,
                    low_mask(fraction_bits(T::UInt::spec_bits(), P::spec_bits(), true)),
                ),
            dist.function() == func,
    {
        let max_switch = max_switch::<P, T::UInt>(true);
        DistCentral { data: process_table(Number::zero(), table, max_switch), func }
    }

    /// Table data of the sampler.
    pub fn data(&self) -> (data: &Data<P, T>)
        ensures
            *data == self.table(),
    {
        &self.data
    }

    /// Whether an attempt on the word `r` may end with `sample`. In a
    /// rectangle it gives the sample of the rectangle. In the wedge it gives,
    /// for some uniform number, what the wedge test of the function decides
    /// for the candidate of that number: the sample placed from the
    /// candidate, or none.
    pub open spec fn may_give(&self, r: T::UInt, sample: Option<Number<T>>) -> bool {
        if self.branch(r) == Branch::Rectangle {
            sample == Some(self.table().rectangle_sample(r, self.layout()))
        } else {
            exists|v: Number<T>|
                v.is_in_unit_interval() && sample == spec_kept_if(
                    self.table().wedge_accepts(self.function(), r, self.layout(), v),
                    #[trigger] self.table().wedge_sample(r, self.layout(), v),
                )
        }
    }

    /// Makes one attempt at drawing a sample from the random word `r`.
    ///
    /// A word that falls in a rectangle gives the sample of that rectangle.
    /// For any other word a uniform number is drawn for the candidate in the
    /// cell, and the wedge test of the function decides between the sample
    /// placed from that candidate and none. The datum of the end node is
    /// read only for the width of the last cell, in the wedge test.
    pub fn attempt<R: RngCore + ?Sized>(&self, r: T::UInt, rng: &mut R) -> (sample: Option<
        Number<T>,
    >)
        ensures
            self.may_give(r, sample),
    {
        // Extract the significand from the rightmost bits, the table index
        // from the P::BITS leftmost bits after the sign bit, and use the
        // leftmost bit as the IEEE sign bit.
        let parts = split_symmetric::<P, T::UInt>(r);

        match self.data.classify(&parts, None) {
            // Test for the common case (point below yinf).
            Branch::Rectangle => {
                let x = self.data.rectangle(&parts);
                Some(x.bitxor(parts.sign))
            },
            // Wedge sampling, test y<f(x).
            _ => {
                let v = Number::gen(rng);
                let (x, dx) = self.data.wedge_candidate(&parts, v);
                let accepted = self.func.test(x, dx, self.data.wedge_level(&parts));
                let sample = x.bitxor(parts.sign);
                assert(sample == self.table().wedge_sample(r, self.layout(), v));
                assert(accepted == self.table().wedge_accepts(self.func, r, self.layout(), v));
                kept_if(accepted, sample)
            },
        }
    }

    /// Makes one attempt at drawing a sample, from a random word that it
    /// draws (see [`attempt`](#method.attempt)).
    pub fn try_sample<R: RngCore + ?Sized>(&self, rng: &mut R) -> (sample: Option<Number<T>>)
        ensures
            exists|r: T::UInt| #[trigger] self.may_give(r, sample),
    {
        let r = T::UInt::gen(rng);
        let sample = self.attempt(r, rng);
        assert(self.may_give(r, sample));
        sample
    }
}

/// Distribution with symmetric probability density function about the origin
/// and rejection-sampled tail(s).
pub struct DistCentralTailed<P: Partition, T: Float, F, E> {
    data: Data<P, T>,
    func: F,
    tail_envelope: E,
    tail_switch: T::UInt,
}

impl<P: Partition, T: Float, F: UnivariateFn<T>, E: Envelope<T>> DistCentralTailed<P, T, F, E> {
    /// The table data of the sampler.
    pub closed spec fn table(&self) -> Data<P, T> {
        self.data
    }

    /// The function that the sampler follows.
    pub closed spec fn function(&self) -> F {
        self.func
    }

    /// The fraction above which the tail envelope is sampled.
    pub closed spec fn spec_tail_switch(&self) -> u64 {
        self.tail_switch.value()
    }

    /// The tail envelope.
    pub closed spec fn envelope(&self) -> E {
        self.tail_envelope
    }

    /// How the sampler reads a word and places a sample.
    pub open spec fn layout(&self) -> Layout<T> {
        Layout {
            symmetric: true,
            origin: None,
            tail_switch: Some(self.spec_tail_switch()),
        }
    }

    /// The branch that an attempt takes on the word `r`.
    pub open spec fn branch(&self, r: T::UInt) -> Branch {
        self.table().branch_on(r, self.layout())
    }

    /// Compiles the sampler of the function `func` from the initialization
    /// table of the side of the distribution above the origin and the envelope
    /// of what lies beyond the table, of area
    /// `tail_area`. The range of the fraction is shared between table and
    /// tail in proportion to their areas.
    pub fn new(
        func: F,
        table: &InitTable<P, T>,
        tail_envelope: E,
        tail_area: Number<T>,
    ) -> (dist: Self) where
        P: ValidSymmetricPartitionSize<T::UInt>,

        ensures
            dist.table().is_sound(),
            dist.table()
                .follows(Number::spec_zero(), *table, spec_tail_switch_of(*table, tail_area, true)),
            dist.function() == func,
            dist.envelope() == tail_envelope,
            dist.spec_tail_switch() == spec_tail_switch_of(*table, tail_area, true),
    {
        let tail_switch = compute_tail_switch(table, tail_area, true);
        DistCentralTailed {
            data: process_table(Number::zero(), table, tail_switch),
            func,
            tail_envelope,
            tail_switch,
        }
    }

    /// Table data of the sampler.
    pub fn data(&self) -> (data: &Data<P, T>)
        ensures
            *data == self.table(),
    {
        &self.data
    }

    /// The fraction above which the tail envelope is sampled.
    pub fn tail_switch(&self) -> (t: T::UInt)
        ensures
            t.value() == self.spec_tail_switch(),
    {
        self.tail_switch
    }

    /// The sample for the number `x` that the tail envelope gave, on the
    /// side that `sign` tells.
    /// The envelope gives numbers of the upper side; the sample is the
    /// number folded with the sign.
    pub fn place_tail(&self, x: Number<T>, sign: T::UInt) -> (sample: Number<T>)
        ensures
            sample == tail_placed(self.layout(), x, sign.value()),
    {
        x.bitxor(sign)
    }

    /// Draws once from the tail envelope. A number that the envelope accepts
    /// is placed as a sample (see [`place_tail`](#method.place_tail)); a
    /// rejection is handed on. What the envelope gives is its own affair: an
    /// envelope that always accepts gives a sample.
    pub fn sample_tail<R: RngCore + ?Sized>(&self, sign: T::UInt, rng: &mut R) -> (sample: Option<
        Number<T>,
    >)
        ensures
            self.envelope().always_accepts() ==> sample is Some,
            sample matches Some(s) ==> exists|x: Number<T>|
                s == #[trigger] tail_placed(self.layout(), x, sign.value()),
    {
        match self.tail_envelope.try_sample(rng) {
            Some(x) => Some(self.place_tail(x, sign)),
            None => None,
        }
    }

    /// Whether an attempt on the word `r` may end with `outcome`. In a
    /// rectangle the outcome is the sample of the rectangle. In the wedge it
    /// is, for some uniform number, what the wedge test of the function
    /// decides for the candidate of that number: the sample placed from the
    /// candidate, or a rejection. In the tail it is the sample placed from some number,
    /// or, unless the envelope always accepts, a tail rejection with the
    /// sign field of the word.
    pub open spec fn may_give(&self, r: T::UInt, outcome: Attempt<T>) -> bool {
        match self.branch(r) {
            Branch::Rectangle => outcome == Attempt::Accepted(
                self.table().rectangle_sample(r, self.layout()),
            ),
            Branch::Wedge => exists|v: Number<T>|
                v.is_in_unit_interval() && outcome == Attempt::spec_after_test(
                    self.table().wedge_accepts(self.function(), r, self.layout(), v),
                    #[trigger] self.table().wedge_sample(r, self.layout(), v),
                ),
            Branch::Tail => match outcome {
                Attempt::Accepted(s) => exists|x: Number<T>|
                    s == #[trigger] tail_placed(
                        self.layout(),
                        x,
                        fields_of::<P, T::UInt>(r, true).2,
                    ),
                Attempt::Rejected => false,
                Attempt::TailRejected(sign) => sign.value() == fields_of::<P, T::UInt>(
                    r,
                    true,
                ).2 && !self.envelope().always_accepts(),
            },
        }
    }

    /// What follows an attempt of this sampler: a rejection of either kind
    /// starts the drawing anew.
    pub fn next_step(outcome: Attempt<T>) -> (step: Step<T>)
        ensures
            step == outcome.spec_next(false),
    {
        outcome.next(false)
    }

    /// Makes one attempt at drawing a sample from the random word `r`.
    ///
    /// A word that falls in a rectangle gives the sample of that rectangle.
    /// A word whose fraction exceeds the tail switch leads to one draw from
    /// the tail envelope: the outcome is the sample placed from what the
    /// envelope gave, or a tail rejection with the sign field of the word.
    /// For any other word a uniform number is drawn for the candidate in the
    /// cell, and the wedge test of the function decides between the sample
    /// placed from that candidate and a rejection. The datum of the end node
    /// is read only for the width of the last cell, in the wedge test.
    pub fn attempt<R: RngCore + ?Sized>(&self, r: T::UInt, rng: &mut R) -> (outcome: Attempt<
        T,
    >)
        ensures
            self.may_give(r, outcome),
    {
        // Extract the significand from the rightmost bits, the table index
        // from the P::BITS leftmost bits after the sign bit, and use the
        // leftmost bit as the IEEE sign bit.
        let parts = split_symmetric::<P, T::UInt>(r);

        match self.data.classify(&parts, Some(self.tail_switch)) {
            // Test for the common case (point below yinf).
            Branch::Rectangle => {
                let x = self.data.rectangle(&parts);
                Attempt::Accepted(x.bitxor(parts.sign))
            },
            // Check if the tail should be sampled.
            Branch::Tail => {
                let drawn = self.sample_tail(parts.sign, rng);
                proof {
                    if let Some(s) = drawn {
                        let x = choose|x: Number<T>|
                            s == tail_placed(self.layout(), x, parts.sign.value());
                        assert(s == tail_placed(
                            self.layout(),
                            x,
                            fields_of::<P, T::UInt>(r, true).2,
                        ));
                    }
                }
                Attempt::after_tail(drawn, parts.sign)
            },
            // Wedge sampling, test y<f(x).
            Branch::Wedge => {
                let v = Number::gen(rng);
                let (x, dx) = self.data.wedge_candidate(&parts, v);
                let accepted = self.func.test(x, dx, self.data.wedge_level(&parts));
                let sample = x.bitxor(parts.sign);
                assert(sample == self.table().wedge_sample(r, self.layout(), v));
                assert(accepted == self.table().wedge_accepts(self.func, r, self.layout(), v));
                Attempt::after_test(accepted, sample)
            },
        }
    }

    /// Makes one attempt at drawing a sample, from a random word that it
    /// draws (see [`attempt`](#method.attempt)).
    pub fn try_sample<R: RngCore + ?Sized>(&self, rng: &mut R) -> (outcome: Attempt<T>)
        ensures
            self.envelope().always_accepts() ==> !(outcome is TailRejected),
            exists|r: T::UInt| #[trigger] self.may_give(r, outcome),
    {
        let r = T::UInt::gen(rng);
        let outcome = self.attempt(r, rng);
        assert(self.may_give(r, outcome));
        outcome
    }
}

/// Distribution with symmetric probability density function and bounded
/// support.
pub struct DistSymmetric<P: Partition, T: Float, F> {
    data: Data<P, T>,
    func: F,
    x0: Number<T>,
}

impl<P: Partition, T: Float, F: UnivariateFn<T>> DistSymmetric<P, T, F> {
    /// The table data of the sampler.
    pub closed spec fn table(&self) -> Data<P, T> {
        self.data
    }

    /// The function that the sampler follows.
    pub closed spec fn function(&self) -> F {
        self.func
    }

    /// The origin about which the distribution is symmetric.
    pub closed spec fn spec_origin(&self) -> Number<T> {
        self.x0
    }

    /// How the sampler reads a word and places a sample.
    pub open spec fn layout(&self) -> Layout<T> {
        Layout {
            symmetric: true,
            origin: Some(self.spec_origin()),
            tail_switch: None,
        }
    }

    /// The branch that an attempt takes on the word `r`.
    pub open spec fn branch(&self, r: T::UInt) -> Branch {
        self.table().branch_on(r, self.layout())
    }

    /// Compiles the sampler of the function `func` from the initialization
    /// table of the side of the distribution above its origin of symmetry
    /// `x0`. The whole range of the fraction goes to the table.
    pub fn new(x0: Number<T>, func: F, table: &InitTable<P, T>) -> (dist: Self) where
        P: ValidSymmetricPartitionSize<T::UInt>,

        ensures
            dist.table().is_sound(),
            dist.table()
                .follows(
                    x0,
                    *table,
                    low_mask(fraction_bits(T::UInt::spec_bits(), P::spec_bits(), true)),
                ),
            dist.function() == func,
            dist.spec_origin() == x0,
    {
        let max_switch = max_switch::<P, T::UInt>(true);
        DistSymmetric { data: process_table(x0, table, max_switch), func, x0 }
    }

    /// Table data of the sampler.
    pub fn data(&self) -> (data: &Data<P, T>)
        ensures
            *data == self.table(),
    {
        &self.data
    }

    /// The origin about which the distribution is symmetric.
    pub fn origin(&self) -> (x0: Number<T>)
        ensures
            x0 == self.spec_origin(),
    {
        self.x0
    }

    /// Whether an attempt on the word `r` may end with `sample`. In a
    /// rectangle it gives the sample of the rectangle. In the wedge it gives,
    /// for some uniform number, what the wedge test of the function decides
    /// for the candidate of that number: the sample placed from the
    /// candidate, or none.
    pub open spec fn may_give(&self, r: T::UInt, sample: Option<Number<T>>) -> bool {
        if self.branch(r) == Branch::Rectangle {
            sample == Some(self.table().rectangle_sample(r, self.layout()))
        } else {
            exists|v: Number<T>|
                v.is_in_unit_interval() && sample == spec_kept_if(
                    self.table().wedge_accepts(self.function(), r, self.layout(), v),
                    #[trigger] self.table().wedge_sample(r, self.layout(), v),
                )
        }
    }

    /// Makes one attempt at drawing a sample from the random word `r`.
    ///
    /// A word that falls in a rectangle gives the sample of that rectangle.
    /// For any other word a uniform number is drawn for the candidate in the
    /// cell, and the wedge test of the function decides between the sample
    /// placed from that candidate and none. The datum of the end node is
    /// read only for the width of the last cell, in the wedge test.
    pub fn attempt<R: RngCore + ?Sized>(&self, r: T::UInt, rng: &mut R) -> (sample: Option<
        Number<T>,
    >)
        ensures
            self.may_give(r, sample),
    {
        // Extract the significand from the rightmost bits, the table index
        // from the P::BITS leftmost bits after the sign bit, and use the
        // leftmost bit as the IEEE sign bit.
        let parts = split_symmetric::<P, T::UInt>(r);

        match self.data.classify(&parts, None) {
            // Test for the common case (point below yinf).
            Branch::Rectangle => {
                let x = self.data.rectangle(&parts);
                Some(self.x0.add(x.bitxor(parts.sign)))
            },
            // Wedge sampling, test y<f(x).
            _ => {
                let v = Number::gen(rng);
                let (x, dx) = self.data.wedge_candidate(&parts, v);
                let accepted = self.func.test(self.x0.add(x), dx, self.data.wedge_level(&parts));
                let sample = self.x0.add(x.bitxor(parts.sign));
                assert(sample == self.table().wedge_sample(r, self.layout(), v));
                assert(accepted == self.table().wedge_accepts(self.func, r, self.layout(), v));
                kept_if(accepted, sample)
            },
        }
    }

    /// Makes one attempt at drawing a sample, from a random word that it
    /// draws (see [`attempt`](#method.attempt)).
    pub fn try_sample<R: RngCore + ?Sized>(&self, rng: &mut R) -> (sample: Option<Number<T>>)
        ensures
            exists|r: T::UInt| #[trigger] self.may_give(r, sample),
    {
        let r = T::UInt::gen(rng);
        let sample = self.attempt(r, rng);
        assert(self.may_give(r, sample));
        sample
    }
}

/// Distribution with symmetric probability density function and
/// rejection-sampled tail(s).
pub struct DistSymmetricTailed<P: Partition, T: Float, F, E> {
    data: Data<P, T>,
    func: F,
    x0: Number<T>,
    tail_envelope: E,
    tail_switch: T::UInt,
}

impl<P: Partition, T: Float, F: UnivariateFn<T>, E: Envelope<T>> DistSymmetricTailed<P, T, F, E> {
    /// The table data of the sampler.
    pub closed spec fn table(&self) -> Data<P, T> {
        self.data
    }

    /// The function that the sampler follows.
    pub closed spec fn function(&self) -> F {
        self.func
    }

    /// The origin about which the distribution is symmetric.
    pub closed spec fn spec_origin(&self) -> Number<T> {
        self.x0
    }

    /// The fraction above which the tail envelope is sampled.
    pub closed spec fn spec_tail_switch(&self) -> u64 {
        self.tail_switch.value()
    }

    /// The tail envelope.
    pub closed spec fn envelope(&self) -> E {
        self.tail_envelope
    }

    /// How the sampler reads a word and places a sample.
    pub open spec fn layout(&self) -> Layout<T> {
        Layout {
            symmetric: true,
            origin: Some(self.spec_origin()),
            tail_switch: Some(self.spec_tail_switch()),
        }
    }

    /// The branch that an attempt takes on the word `r`.
    pub open spec fn branch(&self, r: T::UInt) -> Branch {
        self.table().branch_on(r, self.layout())
    }

    /// Compiles the sampler of the function `func` from the initialization
    /// table of the side of the distribution above its origin of symmetry
    /// `x0` and the envelope of what lies beyond the table, of area
    /// `tail_area`. The range of the fraction is shared between table and
    /// tail in proportion to their areas.
    pub fn new(
        x0: Number<T>,
        func: F,
        table: &InitTable<P, T>,
        tail_envelope: E,
        tail_area: Number<T>,
    ) -> (dist: Self) where
        P: ValidSymmetricPartitionSize<T::UInt>,

        ensures
            dist.table().is_sound(),
            dist.table().follows(x0, *table, spec_tail_switch_of(*table, tail_area, true)),
            dist.function() == func,
            dist.spec_origin() == x0,
            dist.envelope() == tail_envelope,
            dist.spec_tail_switch() == spec_tail_switch_of(*table, tail_area, true),
    {
        let tail_switch = compute_tail_switch(table, tail_area, true);
        DistSymmetricTailed {
            data: process_table(x0, table, tail_switch),
            func,
            x0,
            tail_envelope,
            tail_switch,
        }
    }

    /// Table data of the sampler.
    pub fn data(&self) -> (data: &Data<P, T>)
        ensures
            *data == self.table(),
    {
        &self.data
    }

    /// The fraction above which the tail envelope is sampled.
    pub fn tail_switch(&self) -> (t: T::UInt)
        ensures
            t.value() == self.spec_tail_switch(),
    {
        self.tail_switch
    }

    /// The origin about which the distribution is symmetric.
    pub fn origin(&self) -> (x0: Number<T>)
        ensures
            x0 == self.spec_origin(),
    {
        self.x0
    }

    /// The sample for the number `x` that the tail envelope gave, on the
    /// side that `sign` tells.
    /// The envelope gives numbers of the upper side; the sample is
    /// `x0 + ((x - x0)` folded with the sign`)`.
    pub fn place_tail(&self, x: Number<T>, sign: T::UInt) -> (sample: Number<T>)
        ensures
            sample == tail_placed(self.layout(), x, sign.value()),
    {
        self.x0.add(x.sub(self.x0).bitxor(sign))
    }

    /// Draws once from the tail envelope. A number that the envelope accepts
    /// is placed as a sample (see [`place_tail`](#method.place_tail)); a
    /// rejection is handed on. What the envelope gives is its own affair: an
    /// envelope that always accepts gives a sample.
    pub fn sample_tail<R: RngCore + ?Sized>(&self, sign: T::UInt, rng: &mut R) -> (sample: Option<
        Number<T>,
    >)
        ensures
            self.envelope().always_accepts() ==> sample is Some,
            sample matches Some(s) ==> exists|x: Number<T>|
                s == #[trigger] tail_placed(self.layout(), x, sign.value()),
    {
        match self.tail_envelope.try_sample(rng) {
            Some(x) => Some(self.place_tail(x, sign)),
            None => None,
        }
    }

    /// Whether an attempt on the word `r` may end with `outcome`. In a
    /// rectangle the outcome is the sample of the rectangle. In the wedge it
    /// is, for some uniform number, what the wedge test of the function
    /// decides for the candidate of that number: the sample placed from the
    /// candidate, or a rejection. In the tail it is the sample placed from some number,
    /// or, unless the envelope always accepts, a tail rejection with the
    /// sign field of the word.
    pub open spec fn may_give(&self, r: T::UInt, outcome: Attempt<T>) -> bool {
        match self.branch(r) {
            Branch::Rectangle => outcome == Attempt::Accepted(
                self.table().rectangle_sample(r, self.layout()),
            ),
            Branch::Wedge => exists|v: Number<T>|
                v.is_in_unit_interval() && outcome == Attempt::spec_after_test(
                    self.table().wedge_accepts(self.function(), r, self.layout(), v),
                    #[trigger] self.table().wedge_sample(r, self.layout(), v),
                ),
            Branch::Tail => match outcome {
                Attempt::Accepted(s) => exists|x: Number<T>|
                    s == #[trigger] tail_placed(
                        self.layout(),
                        x,
                        fields_of::<P, T::UInt>(r, true).2,
                    ),
                Attempt::Rejected => false,
                Attempt::TailRejected(sign) => sign.value() == fields_of::<P, T::UInt>(
                    r,
                    true,
                ).2 && !self.envelope().always_accepts(),
            },
        }
    }

    /// What follows an attempt of this sampler: a rejection of either kind
    /// starts the drawing anew.
    pub fn next_step(outcome: Attempt<T>) -> (step: Step<T>)
        ensures
            step == outcome.spec_next(false),
    {
        outcome.next(false)
    }

    /// Makes one attempt at drawing a sample from the random word `r`.
    ///
    /// A word that falls in a rectangle gives the sample of that rectangle.
    /// A word whose fraction exceeds the tail switch leads to one draw from
    /// the tail envelope: the outcome is the sample placed from what the
    /// envelope gave, or a tail rejection with the sign field of the word.
    /// For any other word a uniform number is drawn for the candidate in the
    /// cell, and the wedge test of the function decides between the sample
    /// placed from that candidate and a rejection. The datum of the end node
    /// is read only for the width of the last cell, in the wedge test.
    pub fn attempt<R: RngCore + ?Sized>(&self, r: T::UInt, rng: &mut R) -> (outcome: Attempt<
        T,
    >)
        ensures
            self.may_give(r, outcome),
    {
        // Extract the significand from the rightmost bits, the table index
        // from the P::BITS leftmost bits after the sign bit, and use the
        // leftmost bit as the IEEE sign bit.
        let parts = split_symmetric::<P, T::UInt>(r);

        match self.data.classify(&parts, Some(self.tail_switch)) {
            // Test for the common case (point below yinf).
            Branch::Rectangle => {
                let x = self.data.rectangle(&parts);
                Attempt::Accepted(self.x0.add(x.bitxor(parts.sign)))
            },
            // Check if the tail should be sampled.
            Branch::Tail => {
                let drawn = self.sample_tail(parts.sign, rng);
                proof {
                    if let Some(s) = drawn {
                        let x = choose|x: Number<T>|
                            s == tail_placed(self.layout(), x, parts.sign.value());
                        assert(s == tail_placed(
                            self.layout(),
                            x,
                            fields_of::<P, T::UInt>(r, true).2,
                        ));
                    }
                }
                Attempt::after_tail(drawn, parts.sign)
            },
            // Wedge sampling, test y<f(x).
            Branch::Wedge => {
                let v = Number::gen(rng);
                let (x, dx) = self.data.wedge_candidate(&parts, v);
                let accepted = self.func.test(self.x0.add(x), dx, self.data.wedge_level(&parts));
                let sample = self.x0.add(x.bitxor(parts.sign));
                assert(sample == self.table().wedge_sample(r, self.layout(), v));
                assert(accepted == self.table().wedge_accepts(self.func, r, self.layout(), v));
                Attempt::after_test(accepted, sample)
            },
        }
    }

    /// Makes one attempt at drawing a sample, from a random word that it
    /// draws (see [`attempt`](#method.attempt)).
    pub fn try_sample<R: RngCore + ?Sized>(&self, rng: &mut R) -> (outcome: Attempt<T>)
        ensures
            self.envelope().always_accepts() ==> !(outcome is TailRejected),
            exists|r: T::UInt| #[trigger] self.may_give(r, outcome),
    {
        let r = T::UInt::gen(rng);
        let outcome = self.attempt(r, rng);
        assert(self.may_give(r, outcome));
        outcome
    }
}

} // verus!
